//! The background picture: a GIF of limited size that is kept on the device.
use embedded_graphics::pixelcolor::Rgb565;
use vstd::prelude::*;

verus! {

/// The name under which the picture is kept.
pub const BACKGROUND_GIF_KEY: &'static str = "bg_gif";
/// The most bytes that the picture may have.
pub const MAX_BACKGROUND_GIF_BYTES: usize = 131_072;

/// Why a picture is refused.
#[derive(Debug, Clone, Copy, PartialEq, Eq, Structural)]
pub enum GifError {
    Empty,
    TooLarge,
    NotGif,
    Invalid,
}

/// Whether data starts with the signature of a GIF.
pub open spec fn has_gif_signature(data: Seq<u8>) -> bool {
    data.len() >= 6 && (data.take(6) == seq![0x47u8, 0x49, 0x46, 0x38, 0x37, 0x61] || data.take(6)
        == seq![0x47u8, 0x49, 0x46, 0x38, 0x39, 0x61])
}

/// The bytes of the colour table that the flags of a GIF announce.
pub open spec fn color_table_bytes(flags: u8) -> int {
    if flags < 128 {
        0
    } else {
        3 * vstd::arithmetic::power2::pow2(((flags % 8) + 1) as nat) as int
    }
}

/// Whether data starts with a complete GIF header: signature, screen, and the colour table
/// where there is one.
pub open spec fn has_gif_header(data: Seq<u8>) -> bool {
    &&& has_gif_signature(data)
    &&& data.len() >= 13
    &&& data.len() >= 13 + color_table_bytes(data[10])
}

/// `tinygif::Gif::from_slice` reads the header of a GIF and nothing behind it: it succeeds
/// where the header is complete.
#[verifier::external_body]
fn gif_header_parses(data: &[u8]) -> (r: bool)
    ensures
        r == has_gif_header(data@),
{
    tinygif::Gif::<Rgb565>::from_slice(data).is_ok()
}

fn starts_with_signature(data: &[u8]) -> (r: bool)
    ensures
        r == has_gif_signature(data@),
{
    if data.len() < 6 {
        return false;
    }
    let common = data[0] == 0x47 && data[1] == 0x49 && data[2] == 0x46 && data[3] == 0x38 && data[5]
        == 0x61;
    let r = common && (data[4] == 0x37 || data[4] == 0x39);
    proof {
        let head = data@.take(6);
        if common && data[4] == 0x37 {
            assert(head =~= seq![0x47u8, 0x49, 0x46, 0x38, 0x37, 0x61]);
        }
        if common && data[4] == 0x39 {
            assert(head =~= seq![0x47u8, 0x49, 0x46, 0x38, 0x39, 0x61]);
        }
        if has_gif_signature(data@) {
            assert(head[0] == data[0] && head[1] == data[1] && head[2] == data[2]);
            assert(head[3] == data[3] && head[4] == data[4] && head[5] == data[5]);
        }
    }
    r
}

/// Why data is no background picture, if it is none.
pub open spec fn gif_fault(data: Seq<u8>) -> Option<GifError> {
    if data.len() == 0 {
        Some(GifError::Empty)
    } else if data.len() > 131_072 {
        Some(GifError::TooLarge)
    } else if !has_gif_signature(data) {
        Some(GifError::NotGif)
    } else if !has_gif_header(data) {
        Some(GifError::Invalid)
    } else {
        None
    }
}

/// Whether data can be the background picture.
pub fn validate_gif(data: &[u8]) -> (r: Result<(), GifError>)
    ensures
        match r {
            Ok(_) => gif_fault(data@) is None,
            Err(e) => gif_fault(data@) == Some(e),
        },
{
    if data.len() == 0 {
        return Err(GifError::Empty);
    }
    if data.len() > MAX_BACKGROUND_GIF_BYTES {
        return Err(GifError::TooLarge);
    }
    if !starts_with_signature(data) {
        return Err(GifError::NotGif);
    }
    if !gif_header_parses(data) {
        return Err(GifError::Invalid);
    }
    Ok(())
}

/// Whether what is kept is to be read, by its length.
pub fn stored_len(len: Option<usize>) -> (r: Option<usize>)
    ensures
        r == (match len {
            Some(n) => if 0 < n <= 131_072 {
                Some(n)
            } else {
                None
            },
            None => None,
        }),
{
    match len {
        Some(n) => if n == 0 || n > MAX_BACKGROUND_GIF_BYTES {
            None
        } else {
            Some(n)
        },
        None => None,
    }
}

/// The background picture from what was read of it, if it is one.
pub fn load_from_nvs(data: Option<Vec<u8>>) -> (r: Option<Vec<u8>>)
    ensures
        r == (match data {
            Some(d) => if gif_fault(d@) is None {
                Some(d)
            } else {
                None
            },
            None => None,
        }),
{
    match data {
        Some(d) => match validate_gif(d.as_slice()) {
            Ok(_) => Some(d),
            Err(_) => None,
        },
        None => None,
    }
}

/// A background is told by its signature: data that starts with `GIF87a` or `GIF89a`, is not too
/// large and holds the header that follows is one, whatever comes behind; data that starts
/// otherwise is none.
pub proof fn law_background_is_told_by_its_header(data: Seq<u8>, more: Seq<u8>)
    requires
        data.len() + more.len() <= 131_072,
    ensures
        gif_fault(data) is None ==> gif_fault(data + more) is None,
        gif_fault(data) is None ==> {
            &&& data.len() >= 13
            &&& data[0] == 'G' as u8 && data[1] == 'I' as u8 && data[2] == 'F' as u8
            &&& data[3] == '8' as u8 && (data[4] == '7' as u8 || data[4] == '9' as u8)
            &&& data[5] == 'a' as u8
        },
        gif_fault(Seq::empty()) == Some(GifError::Empty),
{
    if gif_fault(data) is None {
        let head = data.take(6);
        assert((data + more).take(6) =~= head);
        assert(head[0] == data[0] && head[1] == data[1] && head[2] == data[2]);
        assert(head[3] == data[3] && head[4] == data[4] && head[5] == data[5]);
    }
}

/// A picture without a colour table is a background as soon as its thirteen bytes are there;
/// one that announces a colour table needs that too.
pub proof fn law_colour_table_belongs_to_the_header(data: Seq<u8>)
    requires
        has_gif_signature(data),
        13 <= data.len() <= 131_072,
    ensures
        data[10] < 128 ==> gif_fault(data) is None,
        data[10] >= 128 && data.len() < 19 ==> gif_fault(data) == Some(GifError::Invalid),
        data[10] >= 128 && data.len() >= 13 + 768 ==> gif_fault(data) is None,
{
    if data[10] >= 128 {
        let n = ((data[10] % 8) + 1) as nat;
        vstd::arithmetic::power2::lemma2_to64();
        assert(2 <= vstd::arithmetic::power2::pow2(n) <= 256);
    }
}

} // verus!
