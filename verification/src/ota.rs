//! Updating the firmware: from an upload, or from the latest release.
use crate::text::{chars_of, dec, dec_string, parse_usize, replace_all, replaced_from, unsigned_value};
use vstd::prelude::*;

verus! {

/// Where the latest release is found, unless the build names another place.
pub const DEFAULT_OTA_URL: &'static str =
    "https://github.com/second-state/vibewatch_firmware/releases/latest/download/vibewatch_ota.bin";

/// What the update is told.
#[derive(Debug)]
pub enum OtaEvent {
    /// A piece of an upload.
    DataChunk(Vec<u8>),
    /// The upload is complete.
    Complete,
    /// Take the latest release.
    DownloadLatest,
}

/// What an update does next.
#[derive(Debug)]
pub enum OtaNext {
    /// Wait on.
    Wait,
    /// Start an update with an upload, of which this is the first piece.
    StartUpload(Vec<u8>),
    /// Start an update with the latest release.
    StartDownload,
    /// Nothing was asked for, and nothing will be.
    Idle,
}

/// What the first event that matters leads to; `event` is none where there will be none.
pub open spec fn task_next(event: Option<OtaEvent>) -> OtaNext {
    match event {
        Some(OtaEvent::DataChunk(data)) => OtaNext::StartUpload(data),
        Some(OtaEvent::DownloadLatest) => OtaNext::StartDownload,
        Some(OtaEvent::Complete) => OtaNext::Wait,
        None => OtaNext::Idle,
    }
}

/// What the first event that matters leads to.
pub fn ota_task(event: Option<OtaEvent>) -> (r: OtaNext)
    ensures
        r == task_next(event),
{
    match event {
        Some(OtaEvent::DataChunk(data)) => OtaNext::StartUpload(data),
        Some(OtaEvent::DownloadLatest) => OtaNext::StartDownload,
        Some(OtaEvent::Complete) => OtaNext::Wait,
        None => OtaNext::Idle,
    }
}

/// What an upload in progress does next.
#[derive(Debug)]
pub enum UploadNext {
    /// Write this piece.
    Write(Vec<u8>),
    /// Wait on.
    Wait,
    /// The upload is over: complete the update.
    Complete,
}

/// What an event leads to while an upload is in progress. The end of events ends it too; a
/// request for the latest release is passed over.
pub open spec fn upload_next(event: Option<OtaEvent>) -> UploadNext {
    match event {
        Some(OtaEvent::DataChunk(data)) => UploadNext::Write(data),
        Some(OtaEvent::Complete) => UploadNext::Complete,
        Some(OtaEvent::DownloadLatest) => UploadNext::Wait,
        None => UploadNext::Complete,
    }
}

/// What an event leads to while an upload is in progress.
pub fn ota_write_upload(event: Option<OtaEvent>) -> (r: UploadNext)
    ensures
        r == upload_next(event),
{
    match event {
        Some(OtaEvent::DataChunk(data)) => UploadNext::Write(data),
        Some(OtaEvent::Complete) => UploadNext::Complete,
        Some(OtaEvent::DownloadLatest) => UploadNext::Wait,
        None => UploadNext::Complete,
    }
}

/// What is written of an upload: its pieces, up to its end.
pub open spec fn upload_written(events: Seq<OtaEvent>) -> Seq<u8>
    decreases events.len(),
{
    if events.len() == 0 || events[0] is Complete {
        Seq::empty()
    } else {
        match events[0] {
            OtaEvent::DataChunk(data) => data@ + upload_written(events.drop_first()),
            _ => upload_written(events.drop_first()),
        }
    }
}

/// A request for the latest release in the middle of an upload changes nothing of what is
/// written.
pub proof fn law_download_request_does_not_disturb_upload(before: Seq<OtaEvent>, after: Seq<OtaEvent>)
    ensures
        upload_written(before + seq![OtaEvent::DownloadLatest] + after) == upload_written(
            before + after,
        ),
    decreases before.len(),
{
    let with = before + seq![OtaEvent::DownloadLatest] + after;
    let without = before + after;
    if before.len() == 0 {
        assert(with.drop_first() =~= after);
        assert(without =~= after);
    } else {
        assert(with.drop_first() =~= before.drop_first() + seq![OtaEvent::DownloadLatest] + after);
        assert(without.drop_first() =~= before.drop_first() + after);
        law_download_request_does_not_disturb_upload(before.drop_first(), after);
    }
}

/// The size of a release by the header of the answer, where it is a number.
pub fn download_size(content_length: Option<&str>) -> (r: Option<usize>)
    ensures
        match r {
            Some(n) => content_length is Some && unsigned_value(content_length->0@) == Some(
                n as nat,
            ),
            None => match content_length {
                Some(text) => match unsigned_value(text@) {
                    Some(v) => v > usize::MAX,
                    None => true,
                },
                None => true,
            },
        },
{
    match content_length {
        Some(text) => parse_usize(chars_of(text).as_slice()),
        None => None,
    }
}

/// Whether an answer brings a release.
pub fn ota_download_latest(status: u16) -> (r: bool)
    ensures
        r == (status == 200),
{
    status == 200
}

/// What an upload is answered.
pub fn upload_answer(total: usize) -> (r: String)
    ensures
        r@ == "OTA received: "@ + dec(total as nat) + " bytes"@,
{
    let mut out: String = "OTA received: ".to_string();
    out.append(dec_string(total as u64).as_str());
    out.append(" bytes");
    out
}

/// The page that is served, with the place of the latest release filled in.
pub fn ota_page(html: &str, url: &str) -> (r: String)
    ensures
        r@ == replaced_from(html@, "{{OTA_DOWNLOAD_URL}}"@, url@, 0),
{
    proof {
        reveal_strlit("{{OTA_DOWNLOAD_URL}}");
    }
    replace_all(html, "{{OTA_DOWNLOAD_URL}}", url)
}

/// What an entry of the update menu stands for.
#[derive(Debug, Clone, Copy, PartialEq, Eq, Structural)]
pub enum OtaMenuChoice {
    Download,
    Restart,
}

/// What an entry of the update menu stands for.
pub open spec fn ota_choice(index: int) -> OtaMenuChoice {
    if index == 0 {
        OtaMenuChoice::Download
    } else {
        OtaMenuChoice::Restart
    }
}

/// What an entry of the update menu stands for.
pub fn ota_menu(index: usize) -> (r: OtaMenuChoice)
    requires
        index < 2,
    ensures
        r == ota_choice(index as int),
{
    if index == 0 {
        OtaMenuChoice::Download
    } else {
        OtaMenuChoice::Restart
    }
}

/// The words of the entries of the update menu.
pub open spec fn ota_labels() -> Seq<Seq<char>> {
    seq!["Update release"@, "Restart"@]
}

/// The entries of the update menu.
pub fn ota_menu_items() -> (r: Vec<(String, bool)>)
    ensures
        r@.len() == 2,
        r@[0].0@ == ota_labels()[0],
        r@[1].0@ == ota_labels()[1],
        !r@[0].1 && !r@[1].1,
{
    let mut items: Vec<(String, bool)> = Vec::new();
    items.push(("Update release".to_string(), false));
    items.push(("Restart".to_string(), false));
    items
}

/// What an upload writes, event by event, until it is over.
pub open spec fn written_by(events: Seq<OtaEvent>) -> Seq<u8>
    decreases events.len(),
{
    if events.len() == 0 {
        Seq::empty()
    } else {
        match upload_next(Some(events[0])) {
            UploadNext::Write(data) => data@ + written_by(events.drop_first()),
            UploadNext::Wait => written_by(events.drop_first()),
            UploadNext::Complete => Seq::empty(),
        }
    }
}

/// An update by an upload writes the pieces of the upload, the first one too, whole, in order
/// and up to its end; the end of events ends it as well.
pub proof fn law_upload_is_written_whole(first: Vec<u8>, events: Seq<OtaEvent>)
    ensures
        task_next(Some(OtaEvent::DataChunk(first))) == OtaNext::StartUpload(first),
        written_by(events) == upload_written(events),
        upload_next(None) == UploadNext::Complete,
        upload_next(Some(OtaEvent::Complete)) == UploadNext::Complete,
    decreases events.len(),
{
    if events.len() > 0 {
        law_upload_is_written_whole(first, events.drop_first());
    }
}

/// The pieces of an upload, one behind the other.
pub open spec fn chunks_joined(chunks: Seq<Vec<u8>>) -> Seq<u8>
    decreases chunks.len(),
{
    if chunks.len() == 0 {
        Seq::empty()
    } else {
        chunks[0]@ + chunks_joined(chunks.drop_first())
    }
}

/// However an upload is cut into pieces, what is written before it is complete is all of them,
/// and nothing that comes behind is.
pub proof fn law_pieces_are_put_together(chunks: Seq<Vec<u8>>, behind: Seq<OtaEvent>)
    ensures
        upload_written(
            chunks.map_values(|c: Vec<u8>| OtaEvent::DataChunk(c)) + seq![OtaEvent::Complete]
                + behind,
        ) == chunks_joined(chunks),
    decreases chunks.len(),
{
    let pieces = chunks.map_values(|c: Vec<u8>| OtaEvent::DataChunk(c));
    let events = pieces + seq![OtaEvent::Complete] + behind;
    if chunks.len() > 0 {
        let rest = chunks.drop_first();
        law_pieces_are_put_together(rest, behind);
        assert(events.drop_first() =~= rest.map_values(|c: Vec<u8>| OtaEvent::DataChunk(c)) + seq![
            OtaEvent::Complete,
        ] + behind);
    }
}

/// The latest release is taken if and only if it is asked for; a request that is none changes
/// nothing. The menu's entries do what their words say.
pub proof fn law_update_starts_as_asked(event: Option<OtaEvent>, index: int)
    requires
        0 <= index < 2,
    ensures
        task_next(event) is StartDownload <==> event == Some(OtaEvent::DownloadLatest),
        task_next(event) is StartUpload <==> event is Some && event->0 is DataChunk,
        task_next(event) is Idle <==> event is None,
        ota_choice(index) == OtaMenuChoice::Download <==> ota_labels()[index] == "Update release"@,
        ota_choice(index) == OtaMenuChoice::Restart <==> ota_labels()[index] == "Restart"@,
{
    reveal_strlit("Update release");
    reveal_strlit("Restart");
    assert("Update release"@.len() != "Restart"@.len());
}

} // verus!
