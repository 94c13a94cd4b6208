//! Sound: the prompt that is played, what is recorded, and speech recognition over the network.
use crate::json::{
    find_member, held_value, json_elements, json_held, json_string, json_text, member,
    member_views, object_members, object_text, read_array, read_object, read_string_member,
    string_json, string_member, string_value, views, write_object, Member,
};
use crate::protocol::JsonError;
use crate::text::{
    char_views, chars_of, find_first, first_place, joined, lemma_place_found, lines, same_text,
    split_lines, stands_at, string_of, trim, trimmed, utf8_text,
};
use crate::util::{create_unlimited_wav_header, wav_header, WavConfig};
use vstd::prelude::*;
use vstd::utf8::{decode_utf8, encode_utf8, valid_utf8};

verus! {

pub const SAMPLE_RATE: u32 = 16_000;
/// The name under which the prompt is kept.
pub const PROMPT_PCM_KEY: &'static str = "audio_pcm";
/// The name under which it is kept whether the prompt may sound.
pub const PROMPT_ENABLED_KEY: &'static str = "audio_prompt_on";
/// The most bytes that are played at once.
pub const CHUNK_BYTES: usize = 2048;
/// The bytes of a tenth of a second of sound.
pub const RECORD_BYTES: usize = 3200;
/// The most tenths of a second that are recorded.
pub const MAX_RECORD_CHUNKS: usize = 300;

/// Why sound could not be played or recorded.
#[derive(Debug, Clone, Copy, PartialEq, Eq, Structural)]
pub enum AudioError {
    /// The length of a buffer cannot be counted.
    LengthOverflow,
    /// The buffer is longer than the device takes.
    TooLong,
    /// The buffer does not hold whole samples.
    Unaligned,
    /// Not all was played: so much of so much.
    ShortWrite { written: usize, expected: usize },
    /// The device failed with this code.
    Code(i32),
}

// ---------------------------------------------------------------------------------------
// The device
// ---------------------------------------------------------------------------------------

/// Whether a return code stands for success; otherwise the code is the failure.
pub fn esp_result(code: i32) -> (r: Result<(), AudioError>)
    ensures
        code == 0 ==> r == Ok::<(), AudioError>(()),
        code != 0 ==> r == Err::<(), AudioError>(AudioError::Code(code)),
{
    if code == 0 {
        Ok(())
    } else {
        Err(AudioError::Code(code))
    }
}

/// The bytes to ask the microphone for, to fill a buffer of so many samples.
pub open spec fn mic_bytes(samples: int) -> Result<Option<i32>, AudioError> {
    if samples == 0 {
        Ok(None)
    } else if samples * 2 > usize::MAX {
        Err(AudioError::LengthOverflow)
    } else if samples * 2 > i32::MAX {
        Err(AudioError::TooLong)
    } else {
        Ok(Some((samples * 2) as i32))
    }
}

/// The bytes to ask the microphone for, to fill a buffer of so many samples; none for an empty
/// buffer.
pub fn mic_request(samples: usize) -> (r: Result<Option<i32>, AudioError>)
    ensures
        r == mic_bytes(samples as int),
{
    if samples == 0 {
        return Ok(None);
    }
    let byte_len: usize = match samples.checked_mul(2) {
        Some(n) => n,
        None => return Err(AudioError::LengthOverflow),
    };
    if byte_len > 2_147_483_647 {
        return Err(AudioError::TooLong);
    }
    Ok(Some(byte_len as i32))
}

/// The samples that the microphone gave, by the bytes that it reports.
pub fn read_mic_i16(reported: i32) -> (r: Result<usize, AudioError>)
    ensures
        r == (if reported < 0 {
            Err::<usize, AudioError>(AudioError::Code(reported))
        } else {
            Ok((reported / 2) as usize)
        }),
{
    if reported < 0 {
        return Err(AudioError::Code(reported));
    }
    Ok(reported as usize / 2)
}

/// The bytes to hand the speaker, of a buffer of so many.
pub open spec fn speaker_bytes(len: int) -> Result<Option<i32>, AudioError> {
    if len == 0 {
        Ok(None)
    } else if len > i32::MAX {
        Err(AudioError::TooLong)
    } else {
        Ok(Some(len as i32))
    }
}

/// The bytes to hand the speaker, of a buffer of so many; none of an empty buffer.
pub fn speaker_request(len: usize) -> (r: Result<Option<i32>, AudioError>)
    ensures
        r == speaker_bytes(len as int),
{
    if len == 0 {
        return Ok(None);
    }
    if len > 2_147_483_647 {
        return Err(AudioError::TooLong);
    }
    Ok(Some(len as i32))
}

/// The bytes that the speaker took, by what it reports.
pub fn write_speaker_bytes(reported: i32) -> (r: Result<usize, AudioError>)
    ensures
        r == (if reported < 0 {
            Err::<usize, AudioError>(AudioError::Code(reported))
        } else {
            Ok(reported as usize)
        }),
{
    if reported < 0 {
        return Err(AudioError::Code(reported));
    }
    Ok(reported as usize)
}

/// What is kept of whether the prompt may sound.
pub open spec fn kept_flag(enabled: bool) -> u8 {
    if enabled {
        1
    } else {
        0
    }
}

/// Whether the prompt may sound, by what is kept; it may where nothing is.
pub open spec fn flag_enabled(kept: Option<u8>) -> bool {
    kept != Some(0u8)
}

/// Whether the prompt may sound, by what is kept; it may where nothing is.
pub fn prompt_enabled(kept: Option<u8>) -> (r: bool)
    ensures
        r == flag_enabled(kept),
{
    match kept {
        Some(v) => v != 0,
        None => true,
    }
}

/// What is kept of whether the prompt may sound.
pub fn save_prompt_enabled(enabled: bool) -> (r: u8)
    ensures
        r == kept_flag(enabled),
{
    if enabled {
        1
    } else {
        0
    }
}

/// What is kept of whether the prompt may sound is read back as it was.
pub proof fn law_prompt_setting_is_kept(enabled: bool)
    ensures
        flag_enabled(Some(kept_flag(enabled))) == enabled,
{
}

// ---------------------------------------------------------------------------------------
// The prompt
// ---------------------------------------------------------------------------------------

/// A short sound, as PCM.
#[derive(Debug)]
pub struct Prompt {
    pub pcm: Vec<u8>,
}

/// The prompt from what is kept.
pub open spec fn kept_prompt(kept: Option<Vec<u8>>) -> Option<Prompt> {
    match kept {
        Some(pcm) => if pcm@.len() > 0 && pcm@.len() % 2 == 0 {
            Some(Prompt { pcm })
        } else {
            None
        },
        None => None,
    }
}

impl Prompt {
    /// The prompt from what is kept, where that is not empty and holds whole samples.
    pub fn load_from_nvs(kept: Option<Vec<u8>>) -> (r: Option<Self>)
        ensures
            r == kept_prompt(kept),
    {
        match kept {
            Some(pcm) => if pcm.len() == 0 || pcm.len() % 2 != 0 {
                None
            } else {
                Some(Prompt { pcm })
            },
            None => None,
        }
    }
}

/// Whether the prompt is playing. It is queued once at a time.
#[derive(Debug, Clone, Copy, PartialEq, Eq, Structural)]
pub struct PromptPlayer {
    pub playing: bool,
}

impl PromptPlayer {
    /// Nothing is playing.
    pub fn start() -> (r: Self)
        ensures
            !r.playing,
    {
        PromptPlayer { playing: false }
    }

    /// Tells whether the prompt is to be queued: only where it is not playing.
    pub fn play_async(&mut self) -> (r: bool)
        ensures
            r == !old(self).playing,
            final(self).playing,
    {
        if self.playing {
            return false;
        }
        self.playing = true;
        true
    }

    /// The prompt was played, or could not be queued.
    pub fn finished(&mut self)
        ensures
            !final(self).playing,
    {
        self.playing = false;
    }
}

/// The part of a sound that is played next: from `pos` on, at most so much at once.
pub open spec fn next_chunk(len: int, pos: int) -> Option<(int, int)> {
    if pos >= len {
        None
    } else if len - pos > 2048 {
        Some((pos, pos + 2048))
    } else {
        Some((pos, len))
    }
}

/// The part of a sound that is played next, where all before `pos` was played.
pub fn play_pcm(pcm: &[u8], pos: usize) -> (r: Option<(usize, usize)>)
    ensures
        match r {
            Some((start, end)) => {
                &&& next_chunk(pcm@.len() as int, pos as int) == Some((start as int, end as int))
                &&& start < end <= pcm@.len()
            },
            None => next_chunk(pcm@.len() as int, pos as int) is None,
        },
{
    let len: usize = pcm.len();
    if pos >= len {
        None
    } else if len - pos > CHUNK_BYTES {
        Some((pos, pos + CHUNK_BYTES))
    } else {
        Some((pos, len))
    }
}

/// From where a sound is played on, when so much of a part was taken: the end of the part,
/// where all of it was.
pub fn chunk_written(start: usize, end: usize, written: usize) -> (r: Result<usize, AudioError>)
    requires
        start <= end,
    ensures
        r == (if written == end - start {
            Ok::<usize, AudioError>(end)
        } else {
            Err(AudioError::ShortWrite { written, expected: (end - start) as usize })
        }),
{
    if written != end - start {
        return Err(AudioError::ShortWrite { written, expected: end - start });
    }
    Ok(end)
}

/// What is played of a sound from a place on, part by part.
pub open spec fn played(pcm: Seq<u8>, pos: int) -> Seq<u8>
    decreases pcm.len() - pos,
{
    match next_chunk(pcm.len() as int, pos) {
        Some((start, end)) => if pos < end {
            pcm.subrange(start, end) + played(pcm, end)
        } else {
            Seq::empty()
        },
        None => Seq::empty(),
    }
}

/// Part by part, all of a sound is played, in order and once.
pub proof fn law_all_is_played(pcm: Seq<u8>, pos: int)
    requires
        0 <= pos <= pcm.len(),
    ensures
        played(pcm, pos) == pcm.skip(pos),
    decreases pcm.len() - pos,
{
    match next_chunk(pcm.len() as int, pos) {
        Some((start, end)) => {
            law_all_is_played(pcm, end);
            assert(pcm.subrange(start, end) + pcm.skip(end) =~= pcm.skip(pos));
        },
        None => {
            assert(pcm.skip(pos) =~= Seq::empty());
        },
    }
}

// ---------------------------------------------------------------------------------------
// The recogniser
// ---------------------------------------------------------------------------------------

/// Which recogniser is asked, and how.
#[derive(Debug, Clone)]
pub enum AsrConfig {
    Whisper { uri: String, api_key: String, model: String },
}

/// The address, key and model of a recogniser.
pub struct AsrView {
    pub uri: Seq<char>,
    pub api_key: Seq<char>,
    pub model: Seq<char>,
}

impl View for AsrConfig {
    type V = AsrView;

    open spec fn view(&self) -> AsrView {
        match *self {
            AsrConfig::Whisper { uri, api_key, model } => AsrView {
                uri: uri@,
                api_key: api_key@,
                model: model@,
            },
        }
    }
}

/// Whether a name is that of the one kind of recogniser.
pub open spec fn is_whisper(name: Seq<char>) -> bool {
    name == "Whisper"@ || name == "whisper"@
}

/// The recogniser that these parts make, if each is there.
pub open spec fn asr_of_parts(
    platform: Option<Seq<char>>,
    uri: Option<Seq<char>>,
    api_key: Option<Seq<char>>,
    model: Option<Seq<char>>,
) -> Option<AsrView> {
    match (platform, uri, api_key, model) {
        (Some(platform), Some(uri), Some(api_key), Some(model)) => if is_whisper(platform) {
            Some(AsrView { uri, api_key, model })
        } else {
            None
        },
        _ => None,
    }
}

/// Whether every value of an object but the one under a name can be held in memory.
pub open spec fn others_readable(members: Seq<(Seq<char>, Seq<char>)>, name: Seq<char>) -> bool {
    forall|i: int|
        0 <= i < members.len() ==> (#[trigger] members[i]).0 == name || json_held(members[i].1)
}

/// The recogniser that the elements of an array make.
pub open spec fn asr_of_elements(elements: Option<Seq<Seq<char>>>) -> Option<AsrView> {
    match elements {
        Some(e) => if e.len() == 4 {
            asr_of_parts(json_string(e[0]), json_string(e[1]), json_string(e[2]), json_string(e[3]))
        } else {
            None
        },
        None => None,
    }
}

/// The recogniser that a JSON text stands for: an object with its kind under `platform`, or an
/// array of its parts.
pub open spec fn asr_of_json(text: Seq<char>) -> Option<AsrView> {
    match object_members(text) {
        Some(members) => if others_readable(members, "platform"@) {
            asr_of_parts(
                string_member(members, "platform"@),
                string_member(members, "uri"@),
                string_member(members, "api_key"@),
                string_member(members, "model"@),
            )
        } else {
            None
        },
        None => asr_of_elements(json_elements(text)),
    }
}

/// The members of a recogniser as JSON.
pub open spec fn asr_members(asr: AsrView) -> Seq<(Seq<char>, Seq<char>)> {
    seq![
        ("platform"@, json_text("Whisper"@)),
        ("uri"@, json_text(asr.uri)),
        ("api_key"@, json_text(asr.api_key)),
        ("model"@, json_text(asr.model)),
    ]
}

fn make_asr(
    platform: Option<String>,
    uri: Option<String>,
    api_key: Option<String>,
    model: Option<String>,
) -> (r: Option<AsrConfig>)
    ensures
        match r {
            Some(config) => asr_of_parts(
                opt(platform),
                opt(uri),
                opt(api_key),
                opt(model),
            ) == Some(config@),
            None => asr_of_parts(opt(platform), opt(uri), opt(api_key), opt(model)) is None,
        },
{
    match (platform, uri, api_key, model) {
        (Some(platform), Some(uri), Some(api_key), Some(model)) => {
            if same_text(platform.as_str(), "Whisper") || same_text(platform.as_str(), "whisper") {
                Some(AsrConfig::Whisper { uri, api_key, model })
            } else {
                None
            }
        },
        _ => None,
    }
}

/// A text that may be missing, by what it says.
pub open spec fn opt(s: Option<String>) -> Option<Seq<char>> {
    match s {
        Some(s) => Some(s@),
        None => None,
    }
}

fn all_readable_but(members: &Vec<(String, String)>, name: &str) -> (r: bool)
    ensures
        r == others_readable(member_views(members@), name@),
{
    let ghost all = member_views(members@);
    let mut i: usize = 0;
    while i < members.len()
        invariant
            i <= members@.len(),
            all == member_views(members@),
            forall|k: int|
                0 <= k < i ==> (#[trigger] all[k]).0 == name@ || json_held(all[k].1),
        decreases members@.len() - i,
    {
        assert(all[i as int] == (members@[i as int].0@, members@[i as int].1@));
        if !same_text(members[i].0.as_str(), name) && !held_value(members[i].1.as_str()) {
            return false;
        }
        i = i + 1;
    }
    true
}

pub(crate) fn asr_from_array(text: &str) -> (r: Option<AsrConfig>)
    ensures
        match r {
            Some(config) => asr_of_elements(json_elements(text@)) == Some(config@),
            None => asr_of_elements(json_elements(text@)) is None,
        },
{
    match read_array(text) {
        Some(e) => {
            if e.len() != 4 {
                return None;
            }
            assert(views(e@)[0] == e@[0]@);
            assert(views(e@)[1] == e@[1]@);
            assert(views(e@)[2] == e@[2]@);
            assert(views(e@)[3] == e@[3]@);
            make_asr(
                string_value(e[0].as_str()),
                string_value(e[1].as_str()),
                string_value(e[2].as_str()),
                string_value(e[3].as_str()),
            )
        },
        None => None,
    }
}

impl AsrConfig {
    /// The recogniser that a JSON text stands for.
    pub fn from_json(json: &str) -> (r: Result<Self, JsonError>)
        ensures
            match r {
                Ok(config) => asr_of_json(json@) == Some(config@),
                Err(_) => asr_of_json(json@) is None,
            },
    {
        let made = match read_object(json) {
            Some(members) => {
                if !all_readable_but(&members, "platform") {
                    return Err(JsonError);
                }
                make_asr(
                    read_string_member(&members, "platform"),
                    read_string_member(&members, "uri"),
                    read_string_member(&members, "api_key"),
                    read_string_member(&members, "model"),
                )
            },
            None => asr_from_array(json),
        };
        match made {
            Some(config) => Ok(config),
            None => Err(JsonError),
        }
    }

    /// The recogniser from what is kept; none where nothing is, or it cannot be read.
    pub fn load_from_nvs(kept: Option<&str>) -> (r: Option<Self>)
        ensures
            match r {
                Some(config) => kept is Some && asr_of_json(kept->0@) == Some(config@),
                None => kept is None || asr_of_json(kept->0@) is None,
            },
    {
        match kept {
            Some(json) => match AsrConfig::from_json(json) {
                Ok(config) => Some(config),
                Err(_) => None,
            },
            None => None,
        }
    }

    /// The JSON text that is kept, which reads back as the same recogniser.
    pub fn save_to_nvs(&self) -> (r: String)
        ensures
            r@ == object_text(asr_members(self@)),
            asr_of_json(r@) == Some(self@),
    {
        let AsrConfig::Whisper { uri, api_key, model } = self;
        let mut members: Vec<(String, String)> = Vec::new();
        members.push(("platform".to_string(), string_json("Whisper")));
        members.push(("uri".to_string(), string_json(uri.as_str())));
        members.push(("api_key".to_string(), string_json(api_key.as_str())));
        members.push(("model".to_string(), string_json(model.as_str())));
        proof {
            let all = asr_members(self@);
            assert(member_views(members@) =~= all);
            reveal_strlit("platform");
            reveal_strlit("uri");
            reveal_strlit("api_key");
            reveal_strlit("model");
            assert("platform"@.len() == 8 && "uri"@.len() == 3 && "api_key"@.len() == 7);
            assert("model"@.len() == 5);
            assert(all.drop_last() =~= seq![all[0], all[1], all[2]]);
            assert(all.drop_last().drop_last() =~= seq![all[0], all[1]]);
            assert(all.drop_last().drop_last().drop_last() =~= seq![all[0]]);
            assert(all.drop_last().drop_last().drop_last().drop_last() =~= Seq::empty());
            reveal_with_fuel(member, 6);
            assert(others_readable(all, "platform"@));
        }
        match write_object(&members) {
            Some(text) => text,
            None => String::new(),
        }
    }
}

// ---------------------------------------------------------------------------------------
// The answer of a recogniser
// ---------------------------------------------------------------------------------------

/// What a recogniser answers.
#[derive(Debug)]
pub struct AsrResult {
    pub text: String,
}

/// The text that an object holds, empty where it holds none; an error beside it may be
/// anything that can be held in memory.
pub open spec fn asr_text_of_members(members: Seq<(Seq<char>, Seq<char>)>) -> Option<Seq<char>> {
    let error_ok = match member(members, "error"@) {
        Member::Missing => true,
        Member::Value(e) => json_held(e),
        Member::Duplicate => false,
    };
    if !error_ok {
        None
    } else {
        match member(members, "text"@) {
            Member::Missing => Some(Seq::empty()),
            Member::Value(t) => json_string(t),
            Member::Duplicate => None,
        }
    }
}

/// The text of the answer that a JSON text stands for: an object, or an array of the text and
/// the error, either of which may be missing.
pub open spec fn asr_text_of_json(json: Seq<char>) -> Option<Seq<char>> {
    match object_members(json) {
        Some(members) => asr_text_of_members(members),
        None => match json_elements(json) {
            Some(e) => if e.len() > 2 || (e.len() == 2 && !json_held(e[1])) {
                None
            } else if e.len() == 0 {
                Some(Seq::empty())
            } else {
                json_string(e[0])
            },
            None => None,
        },
    }
}

/// Reads the answer that a JSON text stands for.
pub fn read_asr_result(json: &str) -> (r: Option<AsrResult>)
    ensures
        match r {
            Some(result) => asr_text_of_json(json@) == Some(result.text@),
            None => asr_text_of_json(json@) is None,
        },
{
    let text: Option<String> = match read_object(json) {
        Some(members) => {
            match find_member(&members, "error") {
                Member::Missing => {},
                Member::Value(e) => {
                    if !held_value(e.as_str()) {
                        return None;
                    }
                },
                Member::Duplicate => return None,
            }
            match find_member(&members, "text") {
                Member::Missing => {
                    let empty = String::new();
                    assert(empty@ =~= Seq::empty());
                    Some(empty)
                },
                Member::Value(t) => string_value(t.as_str()),
                Member::Duplicate => None,
            }
        },
        None => match read_array(json) {
            Some(e) => {
                if e.len() > 2 {
                    return None;
                }
                if e.len() == 2 {
                    assert(views(e@)[1] == e@[1]@);
                    if !held_value(e[1].as_str()) {
                        return None;
                    }
                }
                if e.len() == 0 {
                    let empty = String::new();
                    assert(empty@ =~= Seq::empty());
                    Some(empty)
                } else {
                    assert(views(e@)[0] == e@[0]@);
                    string_value(e[0].as_str())
                }
            },
            None => None,
        },
    };
    match text {
        Some(text) => Some(AsrResult { text }),
        None => None,
    }
}

/// A line behind the first closing bracket that a space follows; the whole line where there is
/// none.
pub open spec fn behind_bracket(line: Seq<char>) -> Seq<char> {
    let at = first_place(line, seq![']', ' '], 0);
    if at < line.len() {
        line.skip(at + 2)
    } else {
        line
    }
}

/// The words of an answer: where it starts with a bracket, its lines without the time stamps
/// before them.
pub open spec fn plain_words(text: Seq<char>) -> Seq<char> {
    if trim(text).len() > 0 && trim(text)[0] == '[' {
        joined(lines(text).map_values(|l: Seq<char>| behind_bracket(l)), '\n')
    } else {
        text
    }
}

fn without_stamp(line: &Vec<char>) -> (r: String)
    ensures
        r@ == behind_bracket(line@),
{
    let mut mark: Vec<char> = Vec::new();
    mark.push(']');
    mark.push(' ');
    assert(mark@ =~= seq![']', ' ']);
    let at: usize = find_first(line, &mark, 0);
    if at < line.len() {
        let rest = &line.as_slice()[at + 2..line.len()];
        assert(rest@ =~= line@.skip(at + 2));
        string_of(rest)
    } else {
        string_of(line.as_slice())
    }
}

impl AsrResult {
    /// The words of the answer.
    pub fn parse_text(&self) -> (r: String)
        ensures
            r@ == plain_words(self.text@),
    {
        let head = chars_of(trimmed(self.text.as_str()).as_str());
        if head.len() == 0 || head[0] != '[' {
            return self.text.clone();
        }
        let parts = split_lines(self.text.as_str());
        let ghost all = lines(self.text@).map_values(|l: Seq<char>| behind_bracket(l));
        let mut out: String = String::new();
        let mut i: usize = 0;
        assert(out@ =~= joined(all.take(0), '\n'));
        while i < parts.len()
            invariant
                i <= parts@.len(),
                char_views(parts@) == lines(self.text@),
                all == lines(self.text@).map_values(|l: Seq<char>| behind_bracket(l)),
                all.len() == parts@.len(),
                out@ == joined(all.take(i as int), '\n'),
            decreases parts@.len() - i,
        {
            let ghost before = out@;
            assert(char_views(parts@)[i as int] == parts@[i as int]@);
            let words = without_stamp(&parts[i]);
            assert(all[i as int] == words@);
            if i > 0 {
                out.push('\n');
            }
            out.append(words.as_str());
            proof {
                let next = all.take(i + 1);
                assert(next.drop_last() =~= all.take(i as int));
                assert(next.last() == words@);
                if i > 0 {
                    assert(out@ =~= before + seq!['\n'] + words@);
                } else {
                    assert(next[0] == words@);
                    assert(out@ =~= words@);
                }
            }
            i = i + 1;
        }
        assert(all.take(i as int) =~= all);
        out
    }
}

/// The words of the answer that the bytes of a body stand for.
pub fn asr_words(body: &[u8]) -> (r: Option<String>)
    ensures
        match r {
            Some(words) => valid_utf8(body@) && (asr_text_of_json(decode_utf8(body@)) matches Some(
                text,
            ) && words@ == plain_words(text)),
            None => !valid_utf8(body@) || asr_text_of_json(decode_utf8(body@)) is None,
        },
{
    match utf8_text(body) {
        Some(json) => match read_asr_result(json.as_str()) {
            Some(result) => Some(result.parse_text()),
            None => None,
        },
        None => None,
    }
}

// ---------------------------------------------------------------------------------------
// The request to a recogniser
// ---------------------------------------------------------------------------------------

/// The line that divides the parts of a request.
pub open spec fn boundary() -> Seq<char> {
    "----WebKitFormBoundary7MA4YWxkTrZu0gW"@
}

/// A request to a recogniser: where it goes, its headers, and what stands before and behind
/// the sound in its body.
#[derive(Debug)]
pub struct WhisperRequest {
    pub uri: String,
    pub content_type: String,
    pub authorization: Option<String>,
    pub head: Vec<u8>,
    pub tail: Vec<u8>,
}

/// What stands before the sound: the header of a file part, and of a WAV.
pub open spec fn request_head() -> Seq<u8> {
    encode_utf8(
        "--"@ + boundary()
            + "\r\nContent-Disposition: form-data; name=\"file\"; filename=\"audio.wav\"\r\nContent-Type: audio/wav\r\n\r\n"@,
    ) + wav_header(WavConfig { sample_rate: 16_000, channels: 1, bits_per_sample: 16 })
}

/// What stands behind the sound: the part with the model, and the end.
pub open spec fn request_tail(model: Seq<char>) -> Seq<u8> {
    encode_utf8(
        "\r\n--"@ + boundary() + "\r\nContent-Disposition: form-data; name=\"model\"\r\n\r\n"@
            + model + "\r\n"@,
    ) + encode_utf8("--"@ + boundary() + "--"@)
}

/// Whether a request is the one to a recogniser. The key goes along where there is one.
pub open spec fn is_request(r: WhisperRequest, asr: AsrView) -> bool {
    &&& r.uri@ == asr.uri
    &&& r.content_type@ == "multipart/form-data; boundary="@ + boundary()
    &&& match r.authorization {
        Some(key) => asr.api_key.len() > 0 && key@ == "Bearer "@ + asr.api_key,
        None => asr.api_key.len() == 0,
    }
    &&& r.head@ == request_head()
    &&& r.tail@ == request_tail(asr.model)
}

fn append_bytes(out: &mut Vec<u8>, text: &String)
    ensures
        final(out)@ == old(out)@ + encode_utf8(text@),
{
    out.extend_from_slice(text.as_str().as_bytes());
}

/// The recording side of a recogniser.
#[derive(Debug, Clone, Copy, PartialEq, Eq, Structural)]
pub struct Driver;

impl Driver {
    pub fn new() -> (r: Result<Self, AudioError>)
        ensures
            r == Ok::<Driver, AudioError>(Driver),
    {
        Ok(Driver)
    }

    /// The samples to ask the microphone for, to fill a buffer of so many bytes.
    pub fn read(&self, buffer_len: usize) -> (r: Result<usize, AudioError>)
        ensures
            r == (if buffer_len % 2 != 0 {
                Err::<usize, AudioError>(AudioError::Unaligned)
            } else {
                Ok((buffer_len / 2) as usize)
            }),
    {
        if buffer_len % 2 != 0 {
            return Err(AudioError::Unaligned);
        }
        Ok(buffer_len / 2)
    }

    /// The request to a Whisper service.
    pub fn start_whisper(&self, uri: &str, api_key: &str, model: &str) -> (r: WhisperRequest)
        ensures
            is_request(r, AsrView { uri: uri@, api_key: api_key@, model: model@ }),
    {
        let line = "----WebKitFormBoundary7MA4YWxkTrZu0gW";
        let mut content_type: String = "multipart/form-data; boundary=".to_string();
        content_type.append(line);
        let authorization = if api_key.is_empty() {
            None
        } else {
            let mut key: String = "Bearer ".to_string();
            key.append(api_key);
            Some(key)
        };
        let mut part: String = "--".to_string();
        part.append(line);
        part.append(
            "\r\nContent-Disposition: form-data; name=\"file\"; filename=\"audio.wav\"\r\nContent-Type: audio/wav\r\n\r\n",
        );
        let mut head: Vec<u8> = Vec::new();
        append_bytes(&mut head, &part);
        let config = WavConfig { sample_rate: SAMPLE_RATE, channels: 1, bits_per_sample: 16 };
        let mut wav = create_unlimited_wav_header(&config);
        head.append(&mut wav);
        assert(head@ =~= request_head());
        let mut field: String = "\r\n--".to_string();
        field.append(line);
        field.append("\r\nContent-Disposition: form-data; name=\"model\"\r\n\r\n");
        field.append(model);
        field.append("\r\n");
        let mut end: String = "--".to_string();
        end.append(line);
        end.append("--");
        let mut tail: Vec<u8> = Vec::new();
        append_bytes(&mut tail, &field);
        append_bytes(&mut tail, &end);
        assert(tail@ =~= request_tail(model@));
        WhisperRequest { uri: uri.to_string(), content_type, authorization, head, tail }
    }

    /// The request to a recogniser.
    pub fn start_asr(&self, asr_config: &AsrConfig) -> (r: WhisperRequest)
        ensures
            is_request(r, asr_config@),
    {
        match asr_config {
            AsrConfig::Whisper { uri, api_key, model } => self.start_whisper(
                uri.as_str(),
                api_key.as_str(),
                model.as_str(),
            ),
        }
    }
}

// ---------------------------------------------------------------------------------------
// Recording for a recogniser
// ---------------------------------------------------------------------------------------

/// What is done next while a request with recorded sound is sent.
#[derive(Debug, Clone, Copy, PartialEq, Eq, Structural)]
pub enum CaptureStep {
    /// Send what stands before the sound.
    SendHead,
    /// Tell that the microphone is listened to.
    StartListening,
    /// Ask whether to stop.
    AskStop,
    /// Record a tenth of a second, and send it.
    Record,
    /// Send what stands behind the sound.
    SendTail,
    /// Wait for the answer.
    Finish,
}

/// A request with recorded sound on its way: what is done next, and how much was recorded, in
/// tenths of a second.
#[derive(Debug, Clone, Copy, PartialEq, Eq, Structural)]
pub struct Capture {
    pub step: CaptureStep,
    pub recorded: usize,
}

/// What follows a step, where `stop` is the answer if the step was to ask.
pub open spec fn capture_after(c: Capture, stop: bool) -> Capture {
    match c.step {
        CaptureStep::SendHead => Capture { step: CaptureStep::StartListening, ..c },
        CaptureStep::StartListening => Capture { step: CaptureStep::AskStop, ..c },
        CaptureStep::AskStop => Capture {
            step: if stop {
                CaptureStep::SendTail
            } else {
                CaptureStep::Record
            },
            ..c
        },
        CaptureStep::Record => Capture {
            step: if c.recorded + 1 < 300 {
                CaptureStep::AskStop
            } else {
                CaptureStep::SendTail
            },
            recorded: (c.recorded + 1) as usize,
        },
        CaptureStep::SendTail => Capture { step: CaptureStep::Finish, ..c },
        CaptureStep::Finish => c,
    }
}

impl Capture {
    /// No more than half a minute is recorded.
    pub open spec fn wf(self) -> bool {
        match self.step {
            CaptureStep::SendHead | CaptureStep::StartListening => self.recorded == 0,
            CaptureStep::AskStop | CaptureStep::Record => self.recorded < 300,
            CaptureStep::SendTail | CaptureStep::Finish => self.recorded <= 300,
        }
    }

    /// The most steps that are left.
    pub open spec fn steps_left(self) -> nat {
        match self.step {
            CaptureStep::SendHead => 604,
            CaptureStep::StartListening => 603,
            CaptureStep::AskStop => (602 - 2 * self.recorded) as nat,
            CaptureStep::Record => (601 - 2 * self.recorded) as nat,
            CaptureStep::SendTail => 1,
            CaptureStep::Finish => 0,
        }
    }

    /// A request of which nothing was sent yet.
    pub fn new() -> (r: Self)
        ensures
            r == (Capture { step: CaptureStep::SendHead, recorded: 0 }),
            r.wf(),
    {
        Capture { step: CaptureStep::SendHead, recorded: 0 }
    }

    /// Takes note that the step was done; `stop` is the answer if it was to ask.
    pub fn done(&mut self, stop: bool)
        requires
            old(self).wf(),
        ensures
            *final(self) == capture_after(*old(self), stop),
            final(self).wf(),
    {
        match self.step {
            CaptureStep::SendHead => self.step = CaptureStep::StartListening,
            CaptureStep::StartListening => self.step = CaptureStep::AskStop,
            CaptureStep::AskStop => if stop {
                self.step = CaptureStep::SendTail;
            } else {
                self.step = CaptureStep::Record;
            },
            CaptureStep::Record => {
                self.recorded = self.recorded + 1;
                if self.recorded < MAX_RECORD_CHUNKS {
                    self.step = CaptureStep::AskStop;
                } else {
                    self.step = CaptureStep::SendTail;
                }
            },
            CaptureStep::SendTail => self.step = CaptureStep::Finish,
            CaptureStep::Finish => {},
        }
    }
}

/// Whether the answer is to stop, once so much was recorded; an answer that is not given is no.
pub open spec fn told_to_stop(answers: Seq<bool>, recorded: int) -> bool {
    0 <= recorded < answers.len() && answers[recorded]
}

/// The steps that are done from a state on until the answer is waited for.
pub open spec fn steps_from(c: Capture, answers: Seq<bool>) -> Seq<CaptureStep>
    decreases c.steps_left(),
{
    if !c.wf() || c.step == CaptureStep::Finish {
        Seq::empty()
    } else {
        seq![c.step] + steps_from(
            capture_after(c, told_to_stop(answers, c.recorded as int)),
            answers,
        )
    }
}

/// So many times: ask, then record.
pub open spec fn rounds(n: int) -> Seq<CaptureStep> {
    Seq::new(
        (2 * n) as nat,
        |i: int|
            if i % 2 == 0 {
                CaptureStep::AskStop
            } else {
                CaptureStep::Record
            },
    )
}

/// The end of a request after so many rounds: the question that was answered by a stop, unless
/// half a minute was recorded, and what stands behind the sound.
pub open spec fn capture_end(n: int) -> Seq<CaptureStep> {
    if n < 300 {
        seq![CaptureStep::AskStop, CaptureStep::SendTail]
    } else {
        seq![CaptureStep::SendTail]
    }
}

/// A request is sent in order: what stands before the sound; once, that the microphone is
/// listened to; then a tenth of a second at a time, each after asking whether to stop, until
/// the answer is yes or half a minute was recorded, after which there is no more asking; at
/// last what stands behind the sound.
pub proof fn law_capture_goes_in_order(answers: Seq<bool>, n: int)
    requires
        0 <= n <= 300,
        forall|k: int| 0 <= k < n ==> !#[trigger] told_to_stop(answers, k),
        n < 300 ==> told_to_stop(answers, n),
    ensures
        steps_from(Capture { step: CaptureStep::SendHead, recorded: 0 }, answers) == seq![
            CaptureStep::SendHead,
            CaptureStep::StartListening,
        ] + rounds(n) + capture_end(n),
{
    let head = Capture { step: CaptureStep::SendHead, recorded: 0 };
    let listening = Capture { step: CaptureStep::StartListening, recorded: 0 };
    let asking = Capture { step: CaptureStep::AskStop, recorded: 0 };
    lemma_rounds(answers, n, 0);
    assert(steps_from(head, answers) == seq![CaptureStep::SendHead] + steps_from(
        listening,
        answers,
    ));
    assert(steps_from(listening, answers) == seq![CaptureStep::StartListening] + steps_from(
        asking,
        answers,
    ));
    assert(steps_from(head, answers) =~= seq![
        CaptureStep::SendHead,
        CaptureStep::StartListening,
    ] + rounds(n) + capture_end(n));
}

proof fn lemma_rounds(answers: Seq<bool>, n: int, recorded: usize)
    requires
        recorded <= n <= 300,
        recorded < 300,
        forall|k: int| 0 <= k < n ==> !#[trigger] told_to_stop(answers, k),
        n < 300 ==> told_to_stop(answers, n),
    ensures
        steps_from(Capture { step: CaptureStep::AskStop, recorded }, answers) == rounds(
            n - recorded,
        ) + capture_end(n),
    decreases n - recorded,
{
    let asking = Capture { step: CaptureStep::AskStop, recorded };
    let steps = steps_from(asking, answers);
    if recorded == n {
        let tail = Capture { step: CaptureStep::SendTail, recorded };
        let finish = Capture { step: CaptureStep::Finish, recorded };
        assert(steps_from(finish, answers) =~= Seq::empty());
        assert(steps_from(tail, answers) =~= seq![CaptureStep::SendTail]);
        assert(steps == seq![CaptureStep::AskStop] + steps_from(tail, answers));
        assert(steps =~= rounds(0) + capture_end(n));
    } else {
        assert(!told_to_stop(answers, recorded as int));
        let recording = Capture { step: CaptureStep::Record, recorded };
        let more = (recorded + 1) as usize;
        let next = capture_after(recording, false);
        assert(steps == seq![CaptureStep::AskStop] + steps_from(recording, answers));
        assert(steps_from(recording, answers) == seq![CaptureStep::Record] + steps_from(
            next,
            answers,
        ));
        if more < 300 {
            lemma_rounds(answers, n, more);
        } else {
            let finish = Capture { step: CaptureStep::Finish, recorded: more };
            assert(steps_from(finish, answers) =~= Seq::empty());
            assert(steps_from(next, answers) =~= seq![CaptureStep::SendTail]);
        }
        assert(steps_from(next, answers) =~= rounds(n - more) + capture_end(n));
        assert(steps =~= rounds(n - recorded) + capture_end(n));
    }
}

/// A line with a time stamp before it counts without the stamp: what stands behind the first
/// closing bracket that a space follows. A line without such a bracket counts whole.
pub proof fn law_time_stamps_are_left_out(stamp: Seq<char>, words: Seq<char>)
    requires
        forall|i: int| 0 <= i < stamp.len() ==> #[trigger] stamp[i] != ']',
    ensures
        behind_bracket(stamp + seq![']', ' '] + words) == words,
        behind_bracket(stamp) == stamp,
{
    let line = stamp + seq![']', ' '] + words;
    let mark = seq![']', ' '];
    let n = stamp.len() as int;
    assert forall|k: int| 0 <= k < n implies !stands_at(line, mark, k) by {
        assert(line[k] == stamp[k]);
        if stands_at(line, mark, k) {
            assert(line.subrange(k, k + 2)[0] == line[k]);
        }
    }
    assert(line.subrange(n, n + 2) =~= mark);
    lemma_place_found(line, mark, 0, n);
    assert forall|k: int| 0 <= k < n implies !stands_at(stamp, mark, k) by {
        if stands_at(stamp, mark, k) {
            assert(stamp.subrange(k, k + 2)[0] == stamp[k]);
        }
    }
    lemma_place_found(stamp, mark, 0, n);
    assert(line.skip(n + 2) =~= words);
}

/// An answer that does not start with a bracket, white space aside, counts as it is.
pub proof fn law_plain_answers_count_as_they_are(text: Seq<char>)
    requires
        trim(text).len() == 0 || trim(text)[0] != '[',
    ensures
        plain_words(text) == text,
{
}

/// A part of a sound that is played starts where the last one ended, is not empty and at most
/// as large as may be played at once; there is none only at the end.
pub proof fn law_parts_follow_one_another(len: int, pos: int)
    requires
        0 <= pos <= len,
    ensures
        next_chunk(len, pos) is None <==> pos == len,
        next_chunk(len, pos) matches Some((start, end)) ==> start == pos && pos < end <= len && end
            - pos <= 2048 && (end - pos < 2048 ==> end == len),
{
}

/// A microphone is asked for two bytes a sample and a speaker handed every byte, as far as the
/// device can count; nothing is asked for an empty buffer.
pub proof fn law_device_is_asked_for_whole_buffers(n: int)
    requires
        0 <= n <= 1_000_000_000,
    ensures
        mic_bytes(n) matches Ok(Some(bytes)) ==> n > 0 && bytes == 2 * n,
        mic_bytes(n) == Ok::<Option<i32>, AudioError>(None) <==> n == 0,
        mic_bytes(n) is Ok,
        speaker_bytes(n) matches Ok(Some(bytes)) ==> n > 0 && bytes == n,
        speaker_bytes(n) == Ok::<Option<i32>, AudioError>(None) <==> n == 0,
        speaker_bytes(n) is Ok,
        mic_bytes(1_500_000_000) == Err::<Option<i32>, AudioError>(AudioError::TooLong) || mic_bytes(
            1_500_000_000,
        ) == Err::<Option<i32>, AudioError>(AudioError::LengthOverflow),
        speaker_bytes(3_000_000_000) == Err::<Option<i32>, AudioError>(AudioError::TooLong),
{
}

/// What is kept as a prompt is played as it is kept, if it is whole samples and some; a prompt
/// that an upload put together is.
pub proof fn law_kept_prompt_is_played(pcm: Vec<u8>)
    ensures
        kept_prompt(Some(pcm)) matches Some(p) ==> p.pcm == pcm,
        kept_prompt(Some(pcm)) is Some <==> pcm@.len() > 0 && pcm@.len() % 2 == 0,
        kept_prompt(None) is None,
{
}

/// A recogniser is read by its members' names, whatever their order; its kind may be written
/// with a small letter.
pub proof fn law_recogniser_is_read_by_its_names(
    text: Seq<char>,
    platform: Seq<char>,
    uri: Seq<char>,
    key: Seq<char>,
    model: Seq<char>,
)
    requires
        json_string(platform) == Some("Whisper"@) || json_string(platform) == Some("whisper"@),
        json_string(uri) is Some && json_held(uri),
        json_string(key) is Some && json_held(key),
        json_string(model) is Some && json_held(model),
        ({
            ||| object_members(text) == Some(
                seq![("platform"@, platform), ("uri"@, uri), ("api_key"@, key), ("model"@, model)],
            )
            ||| object_members(text) == Some(
                seq![("model"@, model), ("api_key"@, key), ("uri"@, uri), ("platform"@, platform)],
            )
        }),
    ensures
        asr_of_json(text) == Some(
            AsrView {
                uri: json_string(uri)->0,
                api_key: json_string(key)->0,
                model: json_string(model)->0,
            },
        ),
{
    reveal_strlit("platform");
    reveal_strlit("uri");
    reveal_strlit("api_key");
    reveal_strlit("model");
    assert("platform"@[0] == 'p' && "uri"@[0] == 'u' && "api_key"@[0] == 'a' && "model"@[0] == 'm');
    let m = object_members(text)->0;
    assert(m.drop_last() =~= seq![m[0], m[1], m[2]]);
    assert(m.drop_last().drop_last() =~= seq![m[0], m[1]]);
    assert(m.drop_last().drop_last().drop_last() =~= seq![m[0]]);
    assert(m.drop_last().drop_last().drop_last().drop_last() =~= Seq::<
        (Seq<char>, Seq<char>),
    >::empty());
    reveal_with_fuel(member, 6);
}

/// The words of an answer are under the name `text`; without it there are none, but the answer
/// counts.
pub proof fn law_answer_is_read_by_its_name(json: Seq<char>, text: Seq<char>)
    requires
        object_members(json) == Some(seq![("text"@, text)]),
    ensures
        asr_text_of_json(json) == json_string(text),
        asr_text_of_members(Seq::empty()) == Some(Seq::<char>::empty()),
{
    reveal_strlit("text");
    reveal_strlit("error");
    assert("text"@[0] != "error"@[0]);
    let m = seq![("text"@, text)];
    assert(m.drop_last() =~= Seq::<(Seq<char>, Seq<char>)>::empty());
    reveal_with_fuel(member, 3);
}

} // verus!
