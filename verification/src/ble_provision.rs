//! Setting up the device from a phone: a configuration to read and to change, a prompt and a
//! background to upload, and a request to restart.
use crate::audio::{asr_from_array, asr_members, asr_of_elements, asr_of_parts, AsrConfig, AsrView};
use crate::background::{gif_fault, validate_gif, GifError, MAX_BACKGROUND_GIF_BYTES};
use crate::json::{
    find_member, held_value, held_within, json_elements, json_held, json_string, json_text,
    json_unit, law_null_reads_back, lemma_core_start, member, member_views, null_text,
    object_members, object_text, optional_string, optional_string_member, read_array,
    read_object, read_optional_string, read_optional_string_member, skip_space, stands_alone,
    string_json, string_value, unit_json, unit_value, usize_json, views, write_object, Member,
};
use crate::setting::{
    cred_views, read_wifi_list, wifi_list_json, wifi_list_of_json, CredView, Setting, WifiCred,
    MAX_WIFI_CREDS,
};
use crate::text::{dec, same_text, utf8_text};
use vstd::prelude::*;
use vstd::utf8::{decode_utf8, valid_utf8};

verus! {

/// The most bytes that a prompt may have.
pub const MAX_AUDIO_BYTES: usize = 262_144;

/// What the phone asks of the device itself.
#[derive(Debug, Clone, Copy, PartialEq, Eq, Structural)]
pub enum BtEvent {
    Reset,
}

/// Why an upload is refused.
#[derive(Debug, Clone, Copy, PartialEq, Eq, Structural)]
pub enum UploadError {
    /// The first packet is not four bytes long.
    NoLength,
    /// The upload is announced to be empty, or is.
    Empty,
    /// The upload is announced to be too large.
    TooLarge,
    /// The upload does not hold whole samples.
    Unaligned,
    /// More came than was announced.
    Overflow,
    /// The picture is none.
    Gif(GifError),
}

/// A prompt that is being uploaded.
#[derive(Debug)]
pub struct AudioUpload {
    pub expected_size: usize,
    pub data: Vec<u8>,
}

/// A background that is being uploaded.
#[derive(Debug)]
pub struct BackgroundUpload {
    pub expected_size: usize,
    pub data: Vec<u8>,
}

/// The number that four bytes make, the low one first.
pub open spec fn le_number(data: Seq<u8>) -> int {
    data[0] + data[1] * 256 + data[2] * 65_536 + data[3] * 16_777_216
}

fn read_le_number(data: &[u8]) -> (r: usize)
    requires
        data@.len() == 4,
    ensures
        r == le_number(data@),
{
    let n: u32 = data[0] as u32 + data[1] as u32 * 256 + data[2] as u32 * 65_536 + data[3] as u32
        * 16_777_216;
    n as usize
}

// ---------------------------------------------------------------------------------------
// The prompt
// ---------------------------------------------------------------------------------------

/// Why a prompt of this length is refused, if it is.
pub open spec fn pcm_len_fault(len: int) -> Option<UploadError> {
    if len == 0 {
        Some(UploadError::Empty)
    } else if len > 262_144 {
        Some(UploadError::TooLarge)
    } else if len % 2 != 0 {
        Some(UploadError::Unaligned)
    } else {
        None
    }
}

/// Whether a prompt may have this length.
pub fn validate_pcm_len(len: usize) -> (r: Result<(), UploadError>)
    ensures
        match r {
            Ok(_) => pcm_len_fault(len as int) is None,
            Err(e) => pcm_len_fault(len as int) == Some(e),
        },
{
    if len == 0 {
        return Err(UploadError::Empty);
    }
    if len > MAX_AUDIO_BYTES {
        return Err(UploadError::TooLarge);
    }
    if len % 2 != 0 {
        return Err(UploadError::Unaligned);
    }
    Ok(())
}

/// Whether data can be a prompt: whole samples.
pub fn validate_pcm(data: &[u8]) -> (r: Result<(), UploadError>)
    ensures
        r == (if data@.len() == 0 {
            Err::<(), UploadError>(UploadError::Empty)
        } else if data@.len() % 2 != 0 {
            Err(UploadError::Unaligned)
        } else {
            Ok(())
        }),
{
    if data.len() == 0 {
        return Err(UploadError::Empty);
    }
    if data.len() % 2 != 0 {
        return Err(UploadError::Unaligned);
    }
    Ok(())
}

/// The length of a prompt that a first packet announces.
pub open spec fn announced_pcm(data: Seq<u8>) -> Result<int, UploadError> {
    if data.len() != 4 {
        Err(UploadError::NoLength)
    } else {
        match pcm_len_fault(le_number(data)) {
            Some(e) => Err(e),
            None => Ok(le_number(data)),
        }
    }
}

/// The length of a prompt that a first packet announces.
pub fn pcm_expected_size(data: &[u8]) -> (r: Result<usize, UploadError>)
    ensures
        match r {
            Ok(n) => announced_pcm(data@) == Ok::<int, UploadError>(n as int),
            Err(e) => announced_pcm(data@) == Err::<int, UploadError>(e),
        },
{
    if data.len() != 4 {
        return Err(UploadError::NoLength);
    }
    let len: usize = read_le_number(data);
    match validate_pcm_len(len) {
        Ok(_) => Ok(len),
        Err(e) => Err(e),
    }
}

/// What has come of an upload: how much is expected, and what came so far.
pub struct UploadView {
    pub expected: int,
    pub data: Seq<u8>,
}

/// What an upload is after a packet, and what the packet leads to: the whole, once it is
/// complete.
pub struct UploadStep {
    pub slot: Option<UploadView>,
    pub result: Result<Option<Seq<u8>>, UploadError>,
}

/// A packet that is refused: what came so far stays as it is given.
pub open spec fn packet_refused(slot: Option<UploadView>, e: UploadError) -> UploadStep {
    UploadStep { slot, result: Err(e) }
}

/// A step after which nothing is left of an upload whose packet was refused.
pub open spec fn started_over(step: UploadStep) -> UploadStep {
    match step.result {
        Ok(_) => step,
        Err(_) => UploadStep { slot: None, ..step },
    }
}

impl View for AudioUpload {
    type V = UploadView;

    open spec fn view(&self) -> UploadView {
        UploadView { expected: self.expected_size as int, data: self.data@ }
    }
}

impl View for BackgroundUpload {
    type V = UploadView;

    open spec fn view(&self) -> UploadView {
        UploadView { expected: self.expected_size as int, data: self.data@ }
    }
}

/// An upload of a prompt after a packet. The first packet announces the length. A packet that
/// goes beyond it changes nothing; a whole that is no prompt stays.
pub open spec fn audio_step(slot: Option<UploadView>, payload: Seq<u8>) -> UploadStep {
    match slot {
        None => match announced_pcm(payload) {
            Ok(expected) => UploadStep {
                slot: Some(UploadView { expected, data: Seq::empty() }),
                result: Ok(None),
            },
            Err(e) => packet_refused(None, e),
        },
        Some(upload) => {
            let data = upload.data + payload;
            if data.len() > upload.expected || data.len() > 262_144 {
                packet_refused(slot, UploadError::Overflow)
            } else if data.len() < upload.expected {
                UploadStep { slot: Some(UploadView { data, ..upload }), result: Ok(None) }
            } else if data.len() == 0 {
                packet_refused(Some(UploadView { data, ..upload }), UploadError::Empty)
            } else if data.len() % 2 != 0 {
                packet_refused(Some(UploadView { data, ..upload }), UploadError::Unaligned)
            } else {
                UploadStep { slot: None, result: Ok(Some(data)) }
            }
        },
    }
}

/// An upload by what has come of it.
pub open spec fn audio_view(slot: Option<AudioUpload>) -> Option<UploadView> {
    match slot {
        Some(upload) => Some(upload@),
        None => None,
    }
}

/// What a packet leads to, by the bytes.
pub open spec fn result_view(r: Result<Option<Vec<u8>>, UploadError>) -> Result<
    Option<Seq<u8>>,
    UploadError,
> {
    match r {
        Ok(Some(data)) => Ok(Some(data@)),
        Ok(None) => Ok(None),
        Err(e) => Err(e),
    }
}

/// Takes a packet of a prompt. The complete prompt is to be kept.
pub fn handle_audio_upload_write(slot: &mut Option<AudioUpload>, payload: &[u8]) -> (r: Result<
    Option<Vec<u8>>,
    UploadError,
>)
    ensures
        audio_view(*final(slot)) == audio_step(audio_view(*old(slot)), payload@).slot,
        result_view(r) == audio_step(audio_view(*old(slot)), payload@).result,
{
    match slot.take() {
        None => match pcm_expected_size(payload) {
            Ok(expected_size) => {
                let data: Vec<u8> = Vec::new();
                assert(data@ =~= Seq::empty());
                *slot = Some(AudioUpload { expected_size, data });
                Ok(None)
            },
            Err(e) => Err(e),
        },
        Some(upload) => {
            let expected_size: usize = upload.expected_size;
            let mut data: Vec<u8> = upload.data;
            let ghost earlier = data@;
            let most: usize = if expected_size < MAX_AUDIO_BYTES {
                expected_size
            } else {
                MAX_AUDIO_BYTES
            };
            if data.len() > most || payload.len() > most - data.len() {
                *slot = Some(AudioUpload { expected_size, data });
                return Err(UploadError::Overflow);
            }
            data.extend_from_slice(payload);
            assert(data@ =~= earlier + payload@);
            if data.len() == expected_size {
                return match validate_pcm(data.as_slice()) {
                    Ok(_) => Ok(Some(data)),
                    Err(e) => {
                        *slot = Some(AudioUpload { expected_size, data });
                        Err(e)
                    },
                };
            }
            *slot = Some(AudioUpload { expected_size, data });
            Ok(None)
        },
    }
}

/// Takes a packet of a prompt as the phone writes it: once one is refused, the next packet
/// starts an upload over.
pub fn audio_packet(slot: &mut Option<AudioUpload>, payload: &[u8]) -> (r: Result<
    Option<Vec<u8>>,
    UploadError,
>)
    ensures
        r is Err ==> *final(slot) is None,
        audio_view(*final(slot)) == started_over(
            audio_step(audio_view(*old(slot)), payload@),
        ).slot,
        result_view(r) == audio_step(audio_view(*old(slot)), payload@).result,
{
    let result = handle_audio_upload_write(slot, payload);
    if result.is_err() {
        *slot = None;
    }
    result
}

// ---------------------------------------------------------------------------------------
// The background
// ---------------------------------------------------------------------------------------

/// The length of a background that a first packet announces.
pub open spec fn announced_background(data: Seq<u8>) -> Result<int, UploadError> {
    if data.len() != 4 {
        Err(UploadError::NoLength)
    } else if le_number(data) == 0 {
        Err(UploadError::Empty)
    } else if le_number(data) > 131_072 {
        Err(UploadError::TooLarge)
    } else {
        Ok(le_number(data))
    }
}

/// The length of a background that a first packet announces.
pub fn background_expected_size(data: &[u8]) -> (r: Result<usize, UploadError>)
    ensures
        match r {
            Ok(n) => announced_background(data@) == Ok::<int, UploadError>(n as int),
            Err(e) => announced_background(data@) == Err::<int, UploadError>(e),
        },
{
    if data.len() != 4 {
        return Err(UploadError::NoLength);
    }
    let len: usize = read_le_number(data);
    if len == 0 {
        return Err(UploadError::Empty);
    }
    if len > MAX_BACKGROUND_GIF_BYTES {
        return Err(UploadError::TooLarge);
    }
    Ok(len)
}

/// An upload of a background after a packet. The first packet announces the length. A packet
/// that goes beyond it changes nothing; a whole that is no picture stays.
pub open spec fn background_step(slot: Option<UploadView>, payload: Seq<u8>) -> UploadStep {
    match slot {
        None => match announced_background(payload) {
            Ok(expected) => UploadStep {
                slot: Some(UploadView { expected, data: Seq::empty() }),
                result: Ok(None),
            },
            Err(e) => packet_refused(None, e),
        },
        Some(upload) => {
            let data = upload.data + payload;
            if data.len() > upload.expected || data.len() > 131_072 {
                packet_refused(slot, UploadError::Overflow)
            } else if data.len() < upload.expected {
                UploadStep { slot: Some(UploadView { data, ..upload }), result: Ok(None) }
            } else {
                match gif_fault(data) {
                    Some(e) => packet_refused(
                        Some(UploadView { data, ..upload }),
                        UploadError::Gif(e),
                    ),
                    None => UploadStep { slot: None, result: Ok(Some(data)) },
                }
            }
        },
    }
}

/// An upload by what has come of it.
pub open spec fn background_view(slot: Option<BackgroundUpload>) -> Option<UploadView> {
    match slot {
        Some(upload) => Some(upload@),
        None => None,
    }
}

/// Takes a packet of a background. The complete background is to be kept.
pub fn handle_background_upload_write(slot: &mut Option<BackgroundUpload>, payload: &[u8]) -> (r:
    Result<Option<Vec<u8>>, UploadError>)
    ensures
        background_view(*final(slot)) == background_step(
            background_view(*old(slot)),
            payload@,
        ).slot,
        result_view(r) == background_step(background_view(*old(slot)), payload@).result,
{
    match slot.take() {
        None => match background_expected_size(payload) {
            Ok(expected_size) => {
                let data: Vec<u8> = Vec::new();
                assert(data@ =~= Seq::empty());
                *slot = Some(BackgroundUpload { expected_size, data });
                Ok(None)
            },
            Err(e) => Err(e),
        },
        Some(upload) => {
            let expected_size: usize = upload.expected_size;
            let mut data: Vec<u8> = upload.data;
            let ghost earlier = data@;
            let most: usize = if expected_size < MAX_BACKGROUND_GIF_BYTES {
                expected_size
            } else {
                MAX_BACKGROUND_GIF_BYTES
            };
            if data.len() > most || payload.len() > most - data.len() {
                *slot = Some(BackgroundUpload { expected_size, data });
                return Err(UploadError::Overflow);
            }
            data.extend_from_slice(payload);
            assert(data@ =~= earlier + payload@);
            if data.len() == expected_size {
                return match validate_gif(data.as_slice()) {
                    Ok(_) => Ok(Some(data)),
                    Err(e) => {
                        *slot = Some(BackgroundUpload { expected_size, data });
                        Err(UploadError::Gif(e))
                    },
                };
            }
            *slot = Some(BackgroundUpload { expected_size, data });
            Ok(None)
        },
    }
}

/// Takes a packet of a background as the phone writes it: once one is refused, the next packet
/// starts an upload over.
pub fn background_packet(slot: &mut Option<BackgroundUpload>, payload: &[u8]) -> (r: Result<
    Option<Vec<u8>>,
    UploadError,
>)
    ensures
        r is Err ==> *final(slot) is None,
        background_view(*final(slot)) == started_over(
            background_step(background_view(*old(slot)), payload@),
        ).slot,
        result_view(r) == background_step(background_view(*old(slot)), payload@).result,
{
    let result = handle_background_upload_write(slot, payload);
    if result.is_err() {
        *slot = None;
    }
    result
}

// ---------------------------------------------------------------------------------------
// Laws of uploads
// ---------------------------------------------------------------------------------------

/// The packets, one behind the other.
pub open spec fn packets_joined(packets: Seq<Seq<u8>>) -> Seq<u8>
    decreases packets.len(),
{
    if packets.len() == 0 {
        Seq::empty()
    } else {
        packets_joined(packets.drop_last()) + packets.last()
    }
}

/// An upload of a prompt after some packets.
pub open spec fn after_packets(slot: Option<UploadView>, packets: Seq<Seq<u8>>) -> Option<
    UploadView,
>
    decreases packets.len(),
{
    if packets.len() == 0 {
        slot
    } else {
        audio_step(after_packets(slot, packets.drop_last()), packets.last()).slot
    }
}

/// However a prompt is cut into packets, once the announced length has come it is put
/// together in full and in order.
pub proof fn law_prompt_is_put_together(
    first: Seq<u8>,
    packets: Seq<Seq<u8>>,
    last: Seq<u8>,
)
    requires
        announced_pcm(first) is Ok,
        (packets_joined(packets) + last).len() == announced_pcm(first)->Ok_0,
        last.len() > 0,
    ensures
        ({
            let started = audio_step(None, first).slot;
            let step = audio_step(after_packets(started, packets), last);
            &&& step.result == Ok::<Option<Seq<u8>>, UploadError>(
                Some(packets_joined(packets) + last),
            )
            &&& step.slot is None
        }),
{
    let expected = announced_pcm(first)->Ok_0;
    lemma_packets(expected, packets);
}

proof fn lemma_packets(expected: int, packets: Seq<Seq<u8>>)
    requires
        0 < expected <= 262_144,
        packets_joined(packets).len() < expected,
    ensures
        after_packets(
            Some(UploadView { expected, data: Seq::empty() }),
            packets,
        ) == Some(UploadView { expected, data: packets_joined(packets) }),
    decreases packets.len(),
{
    if packets.len() > 0 {
        lemma_packets(expected, packets.drop_last());
    }
}

/// An upload of a background after some packets.
pub open spec fn after_picture_packets(slot: Option<UploadView>, packets: Seq<Seq<u8>>) -> Option<
    UploadView,
>
    decreases packets.len(),
{
    if packets.len() == 0 {
        slot
    } else {
        background_step(after_picture_packets(slot, packets.drop_last()), packets.last()).slot
    }
}

/// However a background is cut into packets, once the announced length has come it is put
/// together in full and in order, and taken if and only if it is a picture.
pub proof fn law_background_is_put_together(
    first: Seq<u8>,
    packets: Seq<Seq<u8>>,
    last: Seq<u8>,
)
    requires
        announced_background(first) is Ok,
        (packets_joined(packets) + last).len() == announced_background(first)->Ok_0,
        last.len() > 0,
    ensures
        ({
            let whole = packets_joined(packets) + last;
            let started = background_step(None, first).slot;
            let step = background_step(after_picture_packets(started, packets), last);
            &&& started_over(step).slot is None
            &&& step.result == (match gif_fault(whole) {
                None => Ok::<Option<Seq<u8>>, UploadError>(Some(whole)),
                Some(e) => Err(UploadError::Gif(e)),
            })
        }),
{
    lemma_picture_packets(announced_background(first)->Ok_0, packets);
}

proof fn lemma_picture_packets(expected: int, packets: Seq<Seq<u8>>)
    requires
        0 < expected <= 131_072,
        packets_joined(packets).len() < expected,
    ensures
        after_picture_packets(
            Some(UploadView { expected, data: Seq::empty() }),
            packets,
        ) == Some(UploadView { expected, data: packets_joined(packets) }),
    decreases packets.len(),
{
    if packets.len() > 0 {
        lemma_picture_packets(expected, packets.drop_last());
    }
}

/// An upload never holds more than was announced, nor more than a prompt may have.
pub proof fn law_upload_stays_within_its_length(
    slot: Option<UploadView>,
    payload: Seq<u8>,
)
    requires
        slot matches Some(u) ==> u.data.len() <= u.expected <= 262_144,
    ensures
        audio_step(slot, payload).slot matches Some(u) ==> u.data.len() <= u.expected <= 262_144,
        audio_step(slot, payload).result matches Ok(Some(data)) ==> data.len() <= 262_144
            && data.len() % 2 == 0,
{
}

// ---------------------------------------------------------------------------------------
// The configuration
// ---------------------------------------------------------------------------------------

/// A change of the configuration; what is missing stays. The recogniser is given as JSON.
#[derive(Debug)]
pub struct ConfigPatch {
    pub wifi_list: Option<Vec<WifiCred>>,
    pub server_url: Option<String>,
    pub asr_config: Option<String>,
}

/// What a change says.
pub struct PatchView {
    pub wifi_list: Option<Seq<CredView>>,
    pub server_url: Option<Seq<char>>,
    pub asr_config: Option<Seq<char>>,
}

impl View for ConfigPatch {
    type V = PatchView;

    open spec fn view(&self) -> PatchView {
        PatchView {
            wifi_list: match self.wifi_list {
                Some(list) => Some(cred_views(list@)),
                None => None,
            },
            server_url: match self.server_url {
                Some(url) => Some(url@),
                None => None,
            },
            asr_config: match self.asr_config {
                Some(text) => Some(text@),
                None => None,
            },
        }
    }
}

/// The networks that a JSON text stands for, where it may also stand for nothing.
pub open spec fn optional_list(text: Seq<char>) -> Option<Option<Seq<CredView>>> {
    if json_unit(text) {
        Some(None)
    } else {
        match wifi_list_of_json(text) {
            Some(list) => Some(Some(list)),
            None => None,
        }
    }
}

/// Any value, where a JSON text may also stand for nothing.
pub open spec fn optional_value(text: Seq<char>) -> Option<Option<Seq<char>>> {
    if json_unit(text) {
        Some(None)
    } else if json_held(text) {
        Some(Some(text))
    } else {
        None
    }
}

/// The change that these parts make, if each can be read.
pub open spec fn patch_of_parts(
    wifi_list: Option<Option<Seq<CredView>>>,
    server_url: Option<Option<Seq<char>>>,
    asr_config: Option<Option<Seq<char>>>,
) -> Option<PatchView> {
    match (wifi_list, server_url, asr_config) {
        (Some(wifi_list), Some(server_url), Some(asr_config)) => Some(
            PatchView { wifi_list, server_url, asr_config },
        ),
        _ => None,
    }
}

/// The networks that an object may hold under a name.
pub open spec fn list_member(members: Seq<(Seq<char>, Seq<char>)>, name: Seq<char>) -> Option<
    Option<Seq<CredView>>,
> {
    match member(members, name) {
        Member::Missing => Some(None),
        Member::Value(text) => optional_list(text),
        Member::Duplicate => None,
    }
}

/// The value that an object may hold under a name.
pub open spec fn value_member(members: Seq<(Seq<char>, Seq<char>)>, name: Seq<char>) -> Option<
    Option<Seq<char>>,
> {
    match member(members, name) {
        Member::Missing => Some(None),
        Member::Value(text) => optional_value(text),
        Member::Duplicate => None,
    }
}

/// The change that a JSON text stands for: an object, or an array of its three parts.
pub open spec fn patch_of_json(text: Seq<char>) -> Option<PatchView> {
    match object_members(text) {
        Some(members) => patch_of_parts(
            list_member(members, "wifi_list"@),
            optional_string_member(members, "server_url"@),
            value_member(members, "asr_config"@),
        ),
        None => match json_elements(text) {
            Some(e) => if e.len() == 3 {
                patch_of_parts(optional_list(e[0]), optional_string(e[1]), optional_value(e[2]))
            } else {
                None
            },
            None => None,
        },
    }
}

fn read_optional_list(text: &str) -> (r: Option<Option<Vec<WifiCred>>>)
    ensures
        match r {
            Some(Some(list)) => optional_list(text@) == Some(Some(cred_views(list@))),
            Some(None) => optional_list(text@) == Some(None::<Seq<CredView>>),
            None => optional_list(text@) is None,
        },
{
    if unit_value(text) {
        return Some(None);
    }
    match read_wifi_list(text) {
        Some(list) => Some(Some(list)),
        None => None,
    }
}

fn read_optional_value(text: String) -> (r: Option<Option<String>>)
    ensures
        match r {
            Some(Some(value)) => optional_value(text@) == Some(Some(value@)),
            Some(None) => optional_value(text@) == Some(None::<Seq<char>>),
            None => optional_value(text@) is None,
        },
{
    if unit_value(text.as_str()) {
        Some(None)
    } else if held_value(text.as_str()) {
        Some(Some(text))
    } else {
        None
    }
}

/// Reads the change that a JSON text stands for.
pub fn read_patch(text: &str) -> (r: Option<ConfigPatch>)
    ensures
        match r {
            Some(patch) => patch_of_json(text@) == Some(patch@),
            None => patch_of_json(text@) is None,
        },
{
    match read_object(text) {
        Some(members) => {
            let wifi_list = match find_member(&members, "wifi_list") {
                Member::Missing => None,
                Member::Value(text) => match read_optional_list(text.as_str()) {
                    Some(list) => list,
                    None => return None,
                },
                Member::Duplicate => return None,
            };
            let server_url = match read_optional_string_member(&members, "server_url") {
                Some(url) => url,
                None => return None,
            };
            let asr_config = match find_member(&members, "asr_config") {
                Member::Missing => None,
                Member::Value(text) => match read_optional_value(text) {
                    Some(value) => value,
                    None => return None,
                },
                Member::Duplicate => return None,
            };
            Some(ConfigPatch { wifi_list, server_url, asr_config })
        },
        None => match read_array(text) {
            Some(e) => {
                if e.len() != 3 {
                    return None;
                }
                assert(views(e@)[0] == e@[0]@);
                assert(views(e@)[1] == e@[1]@);
                assert(views(e@)[2] == e@[2]@);
                let wifi_list = match read_optional_list(e[0].as_str()) {
                    Some(list) => list,
                    None => return None,
                };
                let server_url = match read_optional_string(e[1].as_str()) {
                    Some(url) => url,
                    None => return None,
                };
                let asr_config = match read_optional_value(e[2].clone()) {
                    Some(value) => value,
                    None => return None,
                };
                Some(ConfigPatch { wifi_list, server_url, asr_config })
            },
            None => None,
        },
    }
}

/// The string that the last member of a name holds.
pub open spec fn last_string(members: Seq<(Seq<char>, Seq<char>)>, name: Seq<char>) -> Option<
    Seq<char>,
>
    decreases members.len(),
{
    if members.len() == 0 {
        None
    } else if members.last().0 == name {
        json_string(members.last().1)
    } else {
        last_string(members.drop_last(), name)
    }
}

/// The recogniser that a value held in memory stands for; of several members of a name the
/// last one counts.
pub open spec fn asr_of_value(text: Seq<char>) -> Option<AsrView> {
    match object_members(text) {
        Some(members) => asr_of_parts(
            last_string(members, "platform"@),
            last_string(members, "uri"@),
            last_string(members, "api_key"@),
            last_string(members, "model"@),
        ),
        None => asr_of_elements(json_elements(text)),
    }
}

fn find_last_string(members: &Vec<(String, String)>, name: &str) -> (r: Option<String>)
    ensures
        match r {
            Some(s) => last_string(member_views(members@), name@) == Some(s@),
            None => last_string(member_views(members@), name@) is None,
        },
{
    let ghost all = member_views(members@);
    let mut i: usize = members.len();
    assert(all.take(i as int) =~= all);
    while i > 0
        invariant
            i <= members@.len(),
            all == member_views(members@),
            last_string(all, name@) == last_string(all.take(i as int), name@),
        decreases i,
    {
        assert(all.take(i as int).last() == (members@[i - 1].0@, members@[i - 1].1@));
        assert(all.take(i as int).drop_last() =~= all.take(i - 1));
        if same_text(members[i - 1].0.as_str(), name) {
            return string_value(members[i - 1].1.as_str());
        }
        i = i - 1;
    }
    None
}

/// Reads the recogniser that a value held in memory stands for.
pub fn read_asr_value(text: &str) -> (r: Option<AsrConfig>)
    ensures
        match r {
            Some(config) => asr_of_value(text@) == Some(config@),
            None => asr_of_value(text@) is None,
        },
{
    match read_object(text) {
        Some(members) => {
            let platform = match find_last_string(&members, "platform") {
                Some(s) => s,
                None => return None,
            };
            let uri = match find_last_string(&members, "uri") {
                Some(s) => s,
                None => return None,
            };
            let api_key = match find_last_string(&members, "api_key") {
                Some(s) => s,
                None => return None,
            };
            let model = match find_last_string(&members, "model") {
                Some(s) => s,
                None => return None,
            };
            if same_text(platform.as_str(), "Whisper") || same_text(platform.as_str(), "whisper") {
                Some(AsrConfig::Whisper { uri, api_key, model })
            } else {
                None
            }
        },
        None => asr_from_array(text),
    }
}

/// Something that is to be kept.
#[derive(Debug)]
pub enum PatchWrite {
    /// The networks, as JSON.
    WifiList(String),
    ServerUrl(String),
    /// The recogniser, as JSON.
    AsrConfig(String),
}

/// The networks that a change sets: no more than are kept.
pub open spec fn kept_list(list: Seq<CredView>) -> Seq<CredView> {
    if list.len() > 8 {
        list.take(8)
    } else {
        list
    }
}

/// What is to be kept of a change, in order: what it sets, but of a recogniser only one that
/// can be read.
pub open spec fn patch_writes(patch: PatchView) -> Seq<PatchWriteView> {
    let list = match patch.wifi_list {
        Some(list) => seq![PatchWriteView::WifiList(wifi_list_json(kept_list(list)))],
        None => Seq::empty(),
    };
    let url = match patch.server_url {
        Some(url) => seq![PatchWriteView::ServerUrl(url)],
        None => Seq::empty(),
    };
    let asr = match patch.asr_config {
        Some(text) => match asr_of_value(text) {
            Some(asr) => seq![PatchWriteView::AsrConfig(object_text(asr_members(asr)))],
            None => Seq::empty(),
        },
        None => Seq::empty(),
    };
    list + url + asr
}

/// Something that is to be kept, by its text.
pub enum PatchWriteView {
    WifiList(Seq<char>),
    ServerUrl(Seq<char>),
    AsrConfig(Seq<char>),
}

impl View for PatchWrite {
    type V = PatchWriteView;

    open spec fn view(&self) -> PatchWriteView {
        match *self {
            PatchWrite::WifiList(text) => PatchWriteView::WifiList(text@),
            PatchWrite::ServerUrl(text) => PatchWriteView::ServerUrl(text@),
            PatchWrite::AsrConfig(text) => PatchWriteView::AsrConfig(text@),
        }
    }
}

/// What is to be kept, by the texts.
pub open spec fn write_views(writes: Seq<PatchWrite>) -> Seq<PatchWriteView> {
    writes.map_values(|w: PatchWrite| w@)
}

/// The configuration after a change.
pub open spec fn is_patched(before: Setting, patch: PatchView, after: Setting) -> bool {
    &&& cred_views(after.wifi_list@) == (match patch.wifi_list {
        Some(list) => kept_list(list),
        None => cred_views(before.wifi_list@),
    })
    &&& after.server_url@ == (match patch.server_url {
        Some(url) => url,
        None => before.server_url@,
    })
}

/// Changes the configuration, and tells what is to be kept of it.
pub fn apply_patch(setting: &mut Setting, patch: ConfigPatch) -> (r: Vec<PatchWrite>)
    ensures
        is_patched(*old(setting), patch@, *final(setting)),
        write_views(r@) == patch_writes(patch@),
{
    let mut writes: Vec<PatchWrite> = Vec::new();
    let ConfigPatch { wifi_list, server_url, asr_config } = patch;
    if let Some(list) = wifi_list {
        let mut list = list;
        let ghost whole = cred_views(list@);
        if list.len() > MAX_WIFI_CREDS {
            list.truncate(MAX_WIFI_CREDS);
        }
        assert(cred_views(list@) =~= kept_list(whole));
        writes.push(PatchWrite::WifiList(Setting::save_wifi_list(list.as_slice())));
        setting.wifi_list = list;
    }
    let ghost first = write_views(writes@);
    if let Some(url) = server_url {
        setting.server_url = url.clone();
        writes.push(PatchWrite::ServerUrl(url));
    }
    let ghost second = write_views(writes@);
    if let Some(text) = asr_config {
        if let Some(config) = read_asr_value(text.as_str()) {
            writes.push(PatchWrite::AsrConfig(config.save_to_nvs()));
        }
    }
    assert(write_views(writes@) =~= patch_writes(patch@));
    writes
}

/// What a write of the configuration comes to: nothing where it is no text or no change.
pub fn config_write(setting: &mut Setting, payload: &[u8]) -> (r: Vec<PatchWrite>)
    ensures
        match config_patch(payload@) {
            Some(patch) => is_patched(*old(setting), patch, *final(setting)) && write_views(r@)
                == patch_writes(patch),
            None => *final(setting) == *old(setting) && r@.len() == 0,
        },
{
    match utf8_text(payload) {
        Some(text) => match read_patch(text.as_str()) {
            Some(patch) => apply_patch(setting, patch),
            None => Vec::new(),
        },
        None => Vec::new(),
    }
}

/// The change that the bytes of a write stand for.
pub open spec fn config_patch(payload: Seq<u8>) -> Option<PatchView> {
    if valid_utf8(payload) {
        patch_of_json(decode_utf8(payload))
    } else {
        None
    }
}

/// A recogniser that may be missing, by its parts.
pub open spec fn asr_view(config: Option<AsrConfig>) -> Option<AsrView> {
    match config {
        Some(config) => Some(config@),
        None => None,
    }
}

/// The recogniser as a part of the configuration: its members by their names.
pub open spec fn asr_value_text(asr: AsrView) -> Seq<char> {
    object_text(
        seq![
            ("api_key"@, json_text(asr.api_key)),
            ("model"@, json_text(asr.model)),
            ("platform"@, json_text("Whisper"@)),
            ("uri"@, json_text(asr.uri)),
        ],
    )
}

/// The recogniser in the configuration: nothing where there is none.
pub open spec fn asr_field(asr: Option<AsrView>) -> Seq<char> {
    match asr {
        Some(asr) => asr_value_text(asr),
        None => null_text(),
    }
}

/// The background's size in the configuration: nothing where there is none.
pub open spec fn size_field(size: Option<usize>) -> Seq<char> {
    match size {
        Some(n) => dec(n as nat),
        None => null_text(),
    }
}

/// The members of the configuration as JSON.
pub open spec fn snapshot_members(
    wifi_list: Seq<CredView>,
    server_url: Seq<char>,
    asr_config: Option<AsrView>,
    background_gif_size: Option<usize>,
) -> Seq<(Seq<char>, Seq<char>)> {
    seq![
        ("wifi_list"@, wifi_list_json(wifi_list)),
        ("server_url"@, json_text(server_url)),
        ("asr_config"@, asr_field(asr_config)),
        ("background_gif_size"@, size_field(background_gif_size)),
    ]
}

fn asr_value(config: &AsrConfig) -> (r: String)
    ensures
        r@ == asr_value_text(config@),
        stands_alone(r@),
        r@.len() > 0 && r@[0] == '{',
        json_held(r@),
        asr_of_value(r@) == Some(config@),
{
    let AsrConfig::Whisper { uri, api_key, model } = config;
    let mut members: Vec<(String, String)> = Vec::new();
    members.push(("api_key".to_string(), string_json(api_key.as_str())));
    members.push(("model".to_string(), string_json(model.as_str())));
    members.push(("platform".to_string(), string_json("Whisper")));
    members.push(("uri".to_string(), string_json(uri.as_str())));
    let ghost all = seq![
        ("api_key"@, json_text(config@.api_key)),
        ("model"@, json_text(config@.model)),
        ("platform"@, json_text("Whisper"@)),
        ("uri"@, json_text(config@.uri)),
    ];
    proof {
        assert(member_views(members@) =~= all);
        assert forall|i: int| 0 <= i < all.len() implies held_within(
            (#[trigger] all[i]).1,
            125,
        ) by {}
        reveal_strlit("api_key");
        reveal_strlit("model");
        reveal_strlit("platform");
        reveal_strlit("uri");
        assert("uri"@[0] != "platform"@[0] && "uri"@[0] != "model"@[0]);
        assert("uri"@[0] != "api_key"@[0] && "model"@[0] != "platform"@[0]);
        assert("api_key"@[0] != "platform"@[0] && "api_key"@[0] != "model"@[0]);
        assert(all.drop_last() =~= seq![all[0], all[1], all[2]]);
        assert(all.drop_last().drop_last() =~= seq![all[0], all[1]]);
        assert(all.drop_last().drop_last().drop_last() =~= seq![all[0]]);
        reveal_with_fuel(last_string, 5);
        assert(skip_space(object_text(all)) == object_text(all));
    }
    match write_object(&members) {
        Some(text) => text,
        None => String::new(),
    }
}

/// The change that sets the whole configuration.
pub open spec fn whole_patch(
    wifi_list: Seq<CredView>,
    server_url: Seq<char>,
    asr_config: Option<AsrView>,
) -> PatchView {
    PatchView {
        wifi_list: Some(wifi_list),
        server_url: Some(server_url),
        asr_config: match asr_config {
            Some(asr) => Some(asr_value_text(asr)),
            None => None,
        },
    }
}

/// The configuration as it is read by the phone: an object with all its parts. Written back,
/// it sets each part to what it is.
pub fn config_snapshot(
    setting: &Setting,
    asr_config: &Option<AsrConfig>,
    background_gif_size: Option<usize>,
) -> (r: String)
    ensures
        r@ == object_text(
            snapshot_members(
                cred_views(setting.wifi_list@),
                setting.server_url@,
                asr_view(*asr_config),
                background_gif_size,
            ),
        ),
        object_members(r@) == Some(
            snapshot_members(
                cred_views(setting.wifi_list@),
                setting.server_url@,
                asr_view(*asr_config),
                background_gif_size,
            ),
        ),
        patch_of_json(r@) == Some(
            whole_patch(
                cred_views(setting.wifi_list@),
                setting.server_url@,
                asr_view(*asr_config),
            ),
        ),
        asr_config matches Some(config) ==> asr_of_value(asr_value_text(config@)) == Some(config@),
{
    let asr: String = match asr_config {
        Some(config) => asr_value(config),
        None => unit_json(),
    };
    let size: String = match background_gif_size {
        Some(n) => usize_json(n),
        None => unit_json(),
    };
    assert(asr@ == asr_field(asr_view(*asr_config)));
    assert(size@ == size_field(background_gif_size));
    let list = Setting::save_wifi_list(setting.wifi_list.as_slice());
    let url = string_json(setting.server_url.as_str());
    let ghost all = snapshot_members(
        cred_views(setting.wifi_list@),
        setting.server_url@,
        asr_view(*asr_config),
        background_gif_size,
    );
    proof {
        law_null_reads_back();
        lemma_core_start(list@);
        lemma_core_start(url@);
        lemma_core_start(asr@);
        reveal_strlit("wifi_list");
        reveal_strlit("server_url");
        reveal_strlit("asr_config");
        reveal_strlit("background_gif_size");
        assert("wifi_list"@[0] != "server_url"@[0] && "wifi_list"@[0] != "asr_config"@[0]);
        assert("wifi_list"@[0] != "background_gif_size"@[0]);
        assert("server_url"@[0] != "asr_config"@[0]);
        assert("server_url"@[0] != "background_gif_size"@[0]);
        assert("asr_config"@[0] != "background_gif_size"@[0]);
        assert(all.drop_last() =~= seq![all[0], all[1], all[2]]);
        assert(all.drop_last().drop_last() =~= seq![all[0], all[1]]);
        assert(all.drop_last().drop_last().drop_last() =~= seq![all[0]]);
        assert(all.drop_last().drop_last().drop_last().drop_last() =~= Seq::empty());
        reveal_with_fuel(member, 6);
    }
    let mut members: Vec<(String, String)> = Vec::new();
    members.push(("wifi_list".to_string(), list));
    members.push(("server_url".to_string(), url));
    members.push(("asr_config".to_string(), asr));
    members.push(("background_gif_size".to_string(), size));
    assert(member_views(members@) =~= all);
    match write_object(&members) {
        Some(text) => text,
        None => String::new(),
    }
}

/// A configuration that is read and written back stays as it is, with at most as many networks
/// as are kept; so does the recogniser that is kept.
pub proof fn law_snapshot_written_back_changes_nothing(
    before: Setting,
    asr_config: Option<AsrView>,
    after: Setting,
)
    requires
        before.wifi_list@.len() <= 8,
        asr_config matches Some(asr) ==> asr_of_value(asr_value_text(asr)) == Some(asr),
        is_patched(
            before,
            whole_patch(cred_views(before.wifi_list@), before.server_url@, asr_config),
            after,
        ),
    ensures
        cred_views(after.wifi_list@) == cred_views(before.wifi_list@),
        after.server_url@ == before.server_url@,
        patch_writes(
            whole_patch(cred_views(before.wifi_list@), before.server_url@, asr_config),
        ) == seq![
            PatchWriteView::WifiList(wifi_list_json(cred_views(before.wifi_list@))),
            PatchWriteView::ServerUrl(before.server_url@),
        ] + (match asr_config {
            Some(asr) => seq![PatchWriteView::AsrConfig(object_text(asr_members(asr)))],
            None => Seq::empty(),
        }),
{
    assert(patch_writes(
        whole_patch(cred_views(before.wifi_list@), before.server_url@, asr_config),
    ) =~= seq![
        PatchWriteView::WifiList(wifi_list_json(cred_views(before.wifi_list@))),
        PatchWriteView::ServerUrl(before.server_url@),
    ] + (match asr_config {
        Some(asr) => seq![PatchWriteView::AsrConfig(object_text(asr_members(asr)))],
        None => Seq::empty(),
    }));
}

/// What a write to the restart request means, if it is one.
pub open spec fn reset_event(payload: Seq<u8>) -> Option<BtEvent> {
    if payload == seq![0x52u8, 0x45, 0x53, 0x45, 0x54] {
        Some(BtEvent::Reset)
    } else {
        None
    }
}

/// What a write to the restart request means, if it is one: the word `RESET` and nothing else.
pub fn reset_write(payload: &[u8]) -> (r: Option<BtEvent>)
    ensures
        r == reset_event(payload@),
{
    let is_reset = payload.len() == 5 && payload[0] == 0x52 && payload[1] == 0x45 && payload[2]
        == 0x53 && payload[3] == 0x45 && payload[4] == 0x54;
    if is_reset {
        assert(payload@ =~= seq![0x52u8, 0x45, 0x53, 0x45, 0x54]);
        Some(BtEvent::Reset)
    } else {
        None
    }
}

/// A packet of an upload in progress leads to one of three things, by what has then come: more
/// than was announced is refused and leaves the upload as it was; less is kept, behind what
/// came before; exactly as much ends the upload if it is accepted, and leaves the whole if not.
pub proof fn law_packets_are_kept_in_order(u: UploadView, payload: Seq<u8>)
    requires
        u.data.len() <= u.expected <= 131_072,
        u.expected > 0,
    ensures
        ({
            let sound = audio_step(Some(u), payload);
            let picture = background_step(Some(u), payload);
            let n = u.data.len() + payload.len();
            &&& n > u.expected ==> sound.slot == Some(u) && sound.result is Err && picture.slot
                == Some(u) && picture.result is Err
            &&& n < u.expected ==> {
                &&& sound.slot == picture.slot
                &&& sound.slot == Some(UploadView { expected: u.expected, data: u.data + payload })
                &&& sound.result == Ok::<Option<Seq<u8>>, UploadError>(None)
                &&& picture.result == Ok::<Option<Seq<u8>>, UploadError>(None)
            }
            &&& n == u.expected ==> {
                &&& sound.result is Ok <==> n % 2 == 0
                &&& sound.result is Ok ==> sound.slot is None && sound.result == Ok::<
                    Option<Seq<u8>>,
                    UploadError,
                >(Some(u.data + payload))
                &&& picture.result is Ok <==> gif_fault(u.data + payload) is None
                &&& picture.result is Ok ==> picture.slot is None && picture.result == Ok::<
                    Option<Seq<u8>>,
                    UploadError,
                >(Some(u.data + payload))
            }
        }),
{
}

/// An upload starts with its length, low byte first, in exactly four bytes: of whole samples
/// and up to 256 KiB for a prompt, of anything up to 128 KiB for a background.
pub proof fn law_uploads_are_announced(n: u32)
    ensures
        ({
            let first = seq![
                (n % 256) as u8,
                (n / 256 % 256) as u8,
                (n / 65_536 % 256) as u8,
                (n / 16_777_216) as u8,
            ];
            &&& le_number(first) == n
            &&& announced_pcm(first) is Ok <==> 0 < n <= 256 * 1024 && n % 2 == 0
            &&& announced_background(first) is Ok <==> 0 < n <= 128 * 1024
            &&& announced_pcm(first) matches Ok(len) ==> len == n
            &&& announced_background(first) matches Ok(len) ==> len == n
        }),
        forall|other: Seq<u8>| #![trigger announced_pcm(other)]
            other.len() != 4 ==> announced_pcm(other) is Err && announced_background(other) is Err,
{
}

/// A change of the configuration sets what it names and leaves what it does not; of the networks
/// it keeps the first eight. What it sets is kept, in the order networks, address, recogniser.
pub proof fn law_patch_changes_what_it_names(before: Setting, patch: PatchView, after: Setting)
    requires
        is_patched(before, patch, after),
    ensures
        patch.wifi_list is None ==> cred_views(after.wifi_list@) == cred_views(before.wifi_list@),
        patch.server_url is None ==> after.server_url@ == before.server_url@,
        patch.server_url matches Some(url) ==> after.server_url@ == url,
        patch.wifi_list matches Some(list) ==> {
            &&& after.wifi_list@.len() <= 8
            &&& list.len() <= 8 ==> cred_views(after.wifi_list@) == list
            &&& forall|i: int|
                0 <= i < after.wifi_list@.len() ==> (#[trigger] after.wifi_list@[i])@ == list[i]
            &&& list.len() > 8 ==> after.wifi_list@.len() == 8
        },
        ({
            let w = patch_writes(patch);
            &&& patch.wifi_list is Some ==> w.len() > 0 && w[0] is WifiList
            &&& patch.wifi_list is None ==> forall|i: int|
                0 <= i < w.len() ==> !(#[trigger] w[i] is WifiList)
            &&& patch.server_url matches Some(url) ==> w.contains(PatchWriteView::ServerUrl(url))
            &&& patch.server_url is None ==> forall|i: int|
                0 <= i < w.len() ==> !(#[trigger] w[i] is ServerUrl)
            &&& patch.asr_config is None ==> forall|i: int|
                0 <= i < w.len() ==> !(#[trigger] w[i] is AsrConfig)
        }),
{
    let w = patch_writes(patch);
    if patch.server_url is Some {
        let at: int = if patch.wifi_list is Some {
            1
        } else {
            0
        };
        assert(w[at] == PatchWriteView::ServerUrl(patch.server_url->0));
    }
    if patch.wifi_list is Some {
        assert(w[0] is WifiList);
        assert(cred_views(after.wifi_list@).len() == after.wifi_list@.len());
        assert forall|i: int| 0 <= i < after.wifi_list@.len() implies (
        #[trigger] after.wifi_list@[i])@ == patch.wifi_list->0[i] by {
            assert(cred_views(after.wifi_list@)[i] == after.wifi_list@[i]@);
        }
    }
}

/// A change is read by its members' names: an address alone sets the address alone, networks
/// alone the networks alone, a recogniser alone the recogniser alone.
pub proof fn law_change_is_read_by_its_names(text: Seq<char>, value: Seq<char>)
    requires
        !json_unit(value),
    ensures
        object_members(text) == Some(seq![("server_url"@, value)]) && json_string(value) is Some
            ==> patch_of_json(text) == Some(
            PatchView { wifi_list: None, server_url: json_string(value), asr_config: None },
        ),
        object_members(text) == Some(seq![("wifi_list"@, value)]) && wifi_list_of_json(value) is Some
            ==> patch_of_json(text) == Some(
            PatchView { wifi_list: wifi_list_of_json(value), server_url: None, asr_config: None },
        ),
        object_members(text) == Some(seq![("asr_config"@, value)]) && json_held(value)
            ==> patch_of_json(text) == Some(
            PatchView { wifi_list: None, server_url: None, asr_config: Some(value) },
        ),
{
    reveal_strlit("server_url");
    reveal_strlit("wifi_list");
    reveal_strlit("asr_config");
    assert("server_url"@[0] == 's' && "wifi_list"@[0] == 'w' && "asr_config"@[0] == 'a');
    let a = seq![("server_url"@, value)];
    let b = seq![("wifi_list"@, value)];
    let c = seq![("asr_config"@, value)];
    assert(a.drop_last() =~= Seq::<(Seq<char>, Seq<char>)>::empty());
    assert(b.drop_last() =~= Seq::<(Seq<char>, Seq<char>)>::empty());
    assert(c.drop_last() =~= Seq::<(Seq<char>, Seq<char>)>::empty());
    reveal_with_fuel(member, 3);
}

/// The configuration that is read holds its four parts under their names.
pub proof fn law_snapshot_names_its_parts(
    wifi_list: Seq<CredView>,
    server_url: Seq<char>,
    asr_config: Option<AsrView>,
    size: Option<usize>,
)
    ensures
        ({
            let m = snapshot_members(wifi_list, server_url, asr_config, size);
            &&& m.len() == 4
            &&& member(m, "wifi_list"@) == Member::Value(wifi_list_json(wifi_list))
            &&& member(m, "server_url"@) == Member::Value(json_text(server_url))
            &&& member(m, "asr_config"@) == Member::Value(asr_field(asr_config))
            &&& member(m, "background_gif_size"@) == Member::Value(size_field(size))
        }),
        size is None ==> json_unit(size_field(size)),
        size matches Some(n) ==> size_field(size) == dec(n as nat),
        asr_config is None ==> json_unit(asr_field(asr_config)),
{
    reveal_strlit("wifi_list");
    reveal_strlit("server_url");
    reveal_strlit("asr_config");
    reveal_strlit("background_gif_size");
    assert("wifi_list"@[0] == 'w' && "server_url"@[0] == 's' && "asr_config"@[0] == 'a');
    assert("background_gif_size"@[0] == 'b');
    law_null_reads_back();
    let m = snapshot_members(wifi_list, server_url, asr_config, size);
    assert(m.drop_last() =~= seq![m[0], m[1], m[2]]);
    assert(m.drop_last().drop_last() =~= seq![m[0], m[1]]);
    assert(m.drop_last().drop_last().drop_last() =~= seq![m[0]]);
    assert(m.drop_last().drop_last().drop_last().drop_last() =~= Seq::<
        (Seq<char>, Seq<char>),
    >::empty());
    reveal_with_fuel(member, 6);
}

/// A refused length is told apart: nothing, too much, and half a sample.
pub proof fn law_refused_lengths_are_told_apart(n: int)
    requires
        0 <= n,
    ensures
        pcm_len_fault(n) == Some(UploadError::Empty) <==> n == 0,
        pcm_len_fault(n) == Some(UploadError::TooLarge) <==> n > 256 * 1024,
        pcm_len_fault(n) == Some(UploadError::Unaligned) <==> 0 < n <= 256 * 1024 && n % 2 == 1,
        pcm_len_fault(n) is None <==> 0 < n <= 256 * 1024 && n % 2 == 0,
{
}

/// The device restarts for the five letters of the word, and for nothing that is longer,
/// shorter or otherwise.
pub proof fn law_only_the_word_restarts(payload: Seq<u8>)
    ensures
        reset_event(payload) is Some <==> {
            &&& payload.len() == 5
            &&& payload[0] == 'R' as u8 && payload[1] == 'E' as u8 && payload[2] == 'S' as u8
            &&& payload[3] == 'E' as u8 && payload[4] == 'T' as u8
        },
{
    let word = seq!['R' as u8, 'E' as u8, 'S' as u8, 'E' as u8, 'T' as u8];
    if payload.len() == 5 && payload[0] == word[0] && payload[1] == word[1] && payload[2] == word[2]
        && payload[3] == word[3] && payload[4] == word[4] {
        assert(payload =~= seq![0x52u8, 0x45, 0x53, 0x45, 0x54]);
    }
}

} // verus!
