//! The messages between the device and a session's server.
use crate::json::{
    bool_json, bool_member, bool_text, bytes_json, bytes_text, bytes_value, comes_first,
    find_member, held_value, is_first, json_bytes, json_elements, json_held, json_string,
    json_text, law_bool_reads_back, law_u16_reads_back, member, member_views, object_members,
    object_text, read_array, read_bool_member, read_object, read_u16_member, read_variant_name,
    stands_alone, string_json, string_value, u16_json, u16_member, variant_name, views,
    write_object, Member,
};
use crate::text::{dec, same_text};
use vstd::prelude::*;
use vstd::slice::slice_to_vec;
use vstd::utf8::encode_utf8;

verus! {

/// A picture format.
#[derive(Debug, Copy, Clone, PartialEq, Eq, Structural)]
pub enum ImageFormat {
    Png,
    Jpeg,
    Gif,
}

/// One picture of a session's screen.
#[derive(Debug, Clone)]
pub struct ScreenImageChunk {
    pub format: ImageFormat,
    pub data: Vec<u8>,
}


/// What a client sends.
#[derive(Clone, Debug)]
pub enum ClientMessage {
    /// Announces the size of the client's display: in pixels, or in text columns and rows
    /// where `pixels` is false. `close` asks the server to stop sending screens.
    Sync { width: u16, height: u16, pixels: bool, close: bool },
    /// Raw keyboard input for the terminal.
    PtyInput(Vec<u8>),
    /// Text input.
    Input(String),
    /// Scrolls up by so many rows; zero is a whole page.
    ScrollUp { rows: u16 },
    /// Scrolls down by so many rows; zero is a whole page.
    ScrollDown { rows: u16 },
}

/// What a message says.
pub enum MessageView {
    Sync { width: u16, height: u16, pixels: bool, close: bool },
    PtyInput(Seq<u8>),
    Input(Seq<char>),
    ScrollUp { rows: u16 },
    ScrollDown { rows: u16 },
}

impl View for ClientMessage {
    type V = MessageView;

    open spec fn view(&self) -> MessageView {
        match *self {
            ClientMessage::Sync { width, height, pixels, close } => MessageView::Sync {
                width,
                height,
                pixels,
                close,
            },
            ClientMessage::PtyInput(data) => MessageView::PtyInput(data@),
            ClientMessage::Input(text) => MessageView::Input(text@),
            ClientMessage::ScrollUp { rows } => MessageView::ScrollUp { rows },
            ClientMessage::ScrollDown { rows } => MessageView::ScrollDown { rows },
        }
    }
}

/// The text is no JSON, or not that of a message.
#[derive(Clone, Copy, Debug, PartialEq, Eq, Structural)]
pub struct JsonError;

/// The name of a message's kind.
pub open spec fn message_tag(m: MessageView) -> Seq<char> {
    match m {
        MessageView::Sync { .. } => "sync"@,
        MessageView::PtyInput(_) => "pty_in"@,
        MessageView::Input(_) => "input_text"@,
        MessageView::ScrollUp { .. } => "scroll_up"@,
        MessageView::ScrollDown { .. } => "scroll_down"@,
    }
}

/// The members of a display size.
pub open spec fn sync_members(width: u16, height: u16, pixels: bool, close: bool) -> Seq<
    (Seq<char>, Seq<char>),
> {
    seq![
        ("width"@, dec(width as nat)),
        ("height"@, dec(height as nat)),
        ("pixels"@, bool_text(pixels)),
        ("close"@, bool_text(close)),
    ]
}

/// The members of a scroll request.
pub open spec fn scroll_members(rows: u16) -> Seq<(Seq<char>, Seq<char>)> {
    seq![("rows"@, dec(rows as nat))]
}

/// The JSON text of what a message carries.
pub open spec fn message_data(m: MessageView) -> Seq<char> {
    match m {
        MessageView::Sync { width, height, pixels, close } => object_text(
            sync_members(width, height, pixels, close),
        ),
        MessageView::PtyInput(data) => bytes_text(data),
        MessageView::Input(text) => json_text(text),
        MessageView::ScrollUp { rows } => object_text(scroll_members(rows)),
        MessageView::ScrollDown { rows } => object_text(scroll_members(rows)),
    }
}

/// The JSON text of a message: its kind under `type`, what it carries under `data`.
pub open spec fn message_json(m: MessageView) -> Seq<char> {
    object_text(seq![("type"@, json_text(message_tag(m))), ("data"@, message_data(m))])
}

/// The message of a kind that carries this JSON text. Of a display size the unit may be
/// missing, it is pixels; so may the wish to close, there is none; so may the rows of a
/// scroll request, they are zero. Other members are passed over.
pub open spec fn decoded_message(tag: Seq<char>, data: Seq<char>) -> Option<MessageView> {
    if tag == "sync"@ {
        match object_members(data) {
            Some(members) => match (
                u16_member(members, "width"@, None),
                u16_member(members, "height"@, None),
                bool_member(members, "pixels"@, Some(true)),
                bool_member(members, "close"@, Some(false)),
            ) {
                (Some(width), Some(height), Some(pixels), Some(close)) => Some(
                    MessageView::Sync { width, height, pixels, close },
                ),
                _ => None,
            },
            None => None,
        }
    } else if tag == "pty_in"@ {
        match json_bytes(data) {
            Some(bytes) => Some(MessageView::PtyInput(bytes)),
            None => None,
        }
    } else if tag == "input_text"@ {
        match json_string(data) {
            Some(text) => Some(MessageView::Input(text)),
            None => None,
        }
    } else if tag == "scroll_up"@ {
        match decoded_rows(data) {
            Some(rows) => Some(MessageView::ScrollUp { rows }),
            None => None,
        }
    } else if tag == "scroll_down"@ {
        match decoded_rows(data) {
            Some(rows) => Some(MessageView::ScrollDown { rows }),
            None => None,
        }
    } else {
        None
    }
}

/// The rows of a scroll request.
pub open spec fn decoded_rows(data: Seq<char>) -> Option<u16> {
    match object_members(data) {
        Some(members) => u16_member(members, "rows"@, Some(0)),
        None => None,
    }
}

/// The message that a JSON text stands for: an object with one `type` and one `data`, or
/// an array of the two. Data that come before their type are held in memory meanwhile, so
/// that they have to fit there.
pub open spec fn message_of_json(text: Seq<char>) -> Option<MessageView> {
    match object_members(text) {
        Some(members) => match (member(members, "type"@), member(members, "data"@)) {
            (Member::Value(tag), Member::Value(data)) => match variant_name(tag) {
                Some(name) => if comes_first(members, "data"@, "type"@) && !json_held(data) {
                    None
                } else {
                    decoded_message(name, data)
                },
                None => None,
            },
            _ => None,
        },
        None => match json_elements(text) {
            Some(elements) => if elements.len() == 2 {
                match json_string(elements[0]) {
                    Some(name) => decoded_message(name, elements[1]),
                    None => None,
                }
            } else {
                None
            },
            None => None,
        },
    }
}

fn read_rows(data: &str) -> (r: Option<u16>)
    ensures
        r == decoded_rows(data@),
{
    match read_object(data) {
        Some(members) => read_u16_member(&members, "rows", Some(0)),
        None => None,
    }
}

fn default_sync_pixels() -> (r: bool)
    ensures
        r,
{
    true
}

fn read_message(tag: &str, data: &str) -> (r: Option<ClientMessage>)
    ensures
        match r {
            Some(m) => decoded_message(tag@, data@) == Some(m@),
            None => decoded_message(tag@, data@) is None,
        },
{
    if same_text(tag, "sync") {
        let members = match read_object(data) {
            Some(members) => members,
            None => return None,
        };
        let width: u16 = match read_u16_member(&members, "width", None) {
            Some(v) => v,
            None => return None,
        };
        let height: u16 = match read_u16_member(&members, "height", None) {
            Some(v) => v,
            None => return None,
        };
        let pixels = match read_bool_member(&members, "pixels", Some(default_sync_pixels())) {
            Some(v) => v,
            None => return None,
        };
        let close = match read_bool_member(&members, "close", Some(false)) {
            Some(v) => v,
            None => return None,
        };
        Some(ClientMessage::Sync { width, height, pixels, close })
    } else if same_text(tag, "pty_in") {
        match bytes_value(data) {
            Some(bytes) => Some(ClientMessage::PtyInput(bytes)),
            None => None,
        }
    } else if same_text(tag, "input_text") {
        match string_value(data) {
            Some(text) => Some(ClientMessage::Input(text)),
            None => None,
        }
    } else if same_text(tag, "scroll_up") {
        match read_rows(data) {
            Some(rows) => Some(ClientMessage::ScrollUp { rows }),
            None => None,
        }
    } else if same_text(tag, "scroll_down") {
        match read_rows(data) {
            Some(rows) => Some(ClientMessage::ScrollDown { rows }),
            None => None,
        }
    } else {
        None
    }
}

fn sync_json(width: u16, height: u16, pixels: bool, close: bool) -> (r: String)
    ensures
        r@ == object_text(sync_members(width, height, pixels, close)),
        stands_alone(r@),
        decoded_message("sync"@, r@) == Some(MessageView::Sync { width, height, pixels, close }),
{
    let mut members: Vec<(String, String)> = Vec::new();
    members.push(("width".to_string(), u16_json(width)));
    members.push(("height".to_string(), u16_json(height)));
    members.push(("pixels".to_string(), bool_json(pixels)));
    members.push(("close".to_string(), bool_json(close)));
    proof {
        let all = sync_members(width, height, pixels, close);
        assert(member_views(members@) =~= all);
        reveal_strlit("width");
        reveal_strlit("height");
        reveal_strlit("pixels");
        reveal_strlit("close");
        assert("width"@.len() == 5 && "height"@.len() == 6 && "pixels"@.len() == 6);
        assert("height"@[0] != "pixels"@[0]);
        assert("width"@[0] != "close"@[0]);
        assert(all.drop_last() =~= seq![all[0], all[1], all[2]]);
        assert(all.drop_last().drop_last() =~= seq![all[0], all[1]]);
        assert(all.drop_last().drop_last().drop_last() =~= seq![all[0]]);
        assert(all.drop_last().drop_last().drop_last().drop_last() =~= Seq::empty());
        reveal_with_fuel(member, 6);
        law_u16_reads_back(width);
        law_u16_reads_back(height);
        law_bool_reads_back(pixels);
        law_bool_reads_back(close);
    }
    match write_object(&members) {
        Some(text) => text,
        None => String::new(),
    }
}

fn scroll_json(rows: u16) -> (r: String)
    ensures
        r@ == object_text(scroll_members(rows)),
        stands_alone(r@),
        decoded_rows(r@) == Some(rows),
{
    let mut members: Vec<(String, String)> = Vec::new();
    members.push(("rows".to_string(), u16_json(rows)));
    proof {
        assert(member_views(members@) =~= scroll_members(rows));
        assert(scroll_members(rows).drop_last() =~= Seq::empty());
        reveal_with_fuel(member, 3);
        law_u16_reads_back(rows);
    }
    match write_object(&members) {
        Some(text) => text,
        None => String::new(),
    }
}

fn tagged_json(tag: &str, data: String) -> (r: String)
    requires
        stands_alone(data@),
    ensures
        r@ == object_text(seq![("type"@, json_text(tag@)), ("data"@, data@)]),
        message_of_json(r@) == decoded_message(tag@, data@),
{
    let mut members: Vec<(String, String)> = Vec::new();
    members.push(("type".to_string(), string_json(tag)));
    members.push(("data".to_string(), data));
    proof {
        let all = seq![("type"@, json_text(tag@)), ("data"@, data@)];
        assert(member_views(members@) =~= all);
        reveal_strlit("type");
        reveal_strlit("data");
        assert("type"@[0] != "data"@[0]);
        assert(all.drop_last() =~= seq![all[0]]);
        assert(all.drop_last().drop_last() =~= Seq::empty());
        reveal_with_fuel(member, 4);
    }
    match write_object(&members) {
        Some(text) => text,
        None => String::new(),
    }
}

proof fn lemma_tags_differ()
    ensures
        "pty_in"@ != "sync"@,
        "input_text"@ != "sync"@,
        "input_text"@ != "pty_in"@,
        "scroll_up"@ != "sync"@,
        "scroll_up"@ != "pty_in"@,
        "scroll_up"@ != "input_text"@,
        "scroll_down"@ != "sync"@,
        "scroll_down"@ != "pty_in"@,
        "scroll_down"@ != "input_text"@,
        "scroll_down"@ != "scroll_up"@,
{
    reveal_strlit("sync");
    reveal_strlit("pty_in");
    reveal_strlit("input_text");
    reveal_strlit("scroll_up");
    reveal_strlit("scroll_down");
    assert("sync"@.len() == 4 && "pty_in"@.len() == 6 && "input_text"@.len() == 10);
    assert("scroll_up"@.len() == 9 && "scroll_down"@.len() == 11);
}

impl ClientMessage {
    /// Keyboard input.
    pub fn pty_input(data: Vec<u8>) -> (r: Self)
        ensures
            r == ClientMessage::PtyInput(data),
    {
        ClientMessage::PtyInput(data)
    }

    /// Keyboard input from text.
    pub fn pty_input_str(s: &str) -> (r: Self)
        ensures
            r@ == MessageView::PtyInput(encode_utf8(s@)),
    {
        ClientMessage::pty_input(slice_to_vec(s.as_bytes()))
    }

    /// Text input.
    pub fn input(text: &str) -> (r: Self)
        ensures
            r@ == MessageView::Input(text@),
    {
        ClientMessage::Input(text.to_string())
    }

    /// The display's size in pixels, cut to multiples of eight.
    pub fn sync() -> (r: Self)
        ensures
            r == (ClientMessage::Sync { width: 408, height: 496, pixels: true, close: false }),
    {
        ClientMessage::sync_with_close(false)
    }

    /// The display's size in pixels, cut to multiples of eight, and whether to stop sending
    /// screens.
    pub fn sync_with_close(close: bool) -> (r: Self)
        ensures
            r == (ClientMessage::Sync { width: 408, height: 496, pixels: true, close }),
    {
        ClientMessage::Sync { width: 408, height: 496, pixels: true, close }
    }

    /// The display's size in text columns and rows, and whether to stop sending screens.
    pub fn sync_cells(cols: u16, rows: u16, close: bool) -> (r: Self)
        ensures
            r == (ClientMessage::Sync { width: cols, height: rows, pixels: false, close }),
    {
        ClientMessage::Sync { width: cols, height: rows, pixels: false, close }
    }

    /// The message as JSON, which reads back as the same message.
    pub fn to_json(&self) -> (r: Result<String, JsonError>)
        ensures
            r matches Ok(text) && text@ == message_json(self@) && message_of_json(text@) == Some(
                self@,
            ),
    {
        proof {
            lemma_tags_differ();
        }
        Ok(
            match self {
                ClientMessage::Sync { width, height, pixels, close } => tagged_json(
                    "sync",
                    sync_json(*width, *height, *pixels, *close),
                ),
                ClientMessage::PtyInput(data) => tagged_json("pty_in", bytes_json(data.as_slice())),
                ClientMessage::Input(text) => tagged_json(
                    "input_text",
                    string_json(text.as_str()),
                ),
                ClientMessage::ScrollUp { rows } => tagged_json("scroll_up", scroll_json(*rows)),
                ClientMessage::ScrollDown { rows } => tagged_json(
                    "scroll_down",
                    scroll_json(*rows),
                ),
            },
        )
    }

    /// The message that a JSON text stands for.
    pub fn from_json(json: &str) -> (r: Result<Self, JsonError>)
        ensures
            match r {
                Ok(m) => message_of_json(json@) == Some(m@),
                Err(_) => message_of_json(json@) is None,
            },
    {
        match read_object(json) {
            Some(members) => {
                let tag = match find_member(&members, "type") {
                    Member::Value(text) => text,
                    _ => return Err(JsonError),
                };
                let data = match find_member(&members, "data") {
                    Member::Value(text) => text,
                    _ => return Err(JsonError),
                };
                if is_first(&members, "data", "type") && !held_value(data.as_str()) {
                    return Err(JsonError);
                }
                match read_variant_name(tag.as_str()) {
                    Some(name) => match read_message(name.as_str(), data.as_str()) {
                        Some(m) => Ok(m),
                        None => Err(JsonError),
                    },
                    None => Err(JsonError),
                }
            },
            None => match read_array(json) {
                Some(elements) => {
                    if elements.len() != 2 {
                        return Err(JsonError);
                    }
                    assert(views(elements@)[0] == elements@[0]@);
                    assert(views(elements@)[1] == elements@[1]@);
                    match string_value(elements[0].as_str()) {
                        Some(name) => match read_message(name.as_str(), elements[1].as_str()) {
                            Some(m) => Ok(m),
                            None => Err(JsonError),
                        },
                        None => Err(JsonError),
                    }
                },
                None => Err(JsonError),
            },
        }
    }
}

// ---------------------------------------------------------------------------------------
// Laws
// ---------------------------------------------------------------------------------------

/// Each kind of message has its own name on the wire.
pub proof fn law_messages_are_told_by_their_kind(m: MessageView)
    ensures
        message_tag(m) == "sync"@ <==> m is Sync,
        message_tag(m) == "pty_in"@ <==> m is PtyInput,
        message_tag(m) == "input_text"@ <==> m is Input,
        message_tag(m) == "scroll_up"@ <==> m is ScrollUp,
        message_tag(m) == "scroll_down"@ <==> m is ScrollDown,
        message_json(m) == object_text(
            seq![("type"@, json_text(message_tag(m))), ("data"@, message_data(m))],
        ),
{
    lemma_tags_differ();
}

/// A scroll request is read by its kind and its rows, in its direction; without rows there are
/// none.
pub proof fn law_scroll_requests_are_read(data: Seq<char>, rows: u16)
    requires
        object_members(data) == Some(seq![("rows"@, dec(rows as nat))]),
    ensures
        decoded_message("scroll_up"@, data) == Some(MessageView::ScrollUp { rows }),
        decoded_message("scroll_down"@, data) == Some(MessageView::ScrollDown { rows }),
{
    lemma_tags_differ();
    law_u16_reads_back(rows);
    let m = seq![("rows"@, dec(rows as nat))];
    assert(m.drop_last() =~= Seq::<(Seq<char>, Seq<char>)>::empty());
    reveal_with_fuel(member, 3);
}

/// A display size is read by its members' names; without a unit it is in pixels, and without a
/// wish to close there is none.
pub proof fn law_display_sizes_are_read(
    data: Seq<char>,
    width: u16,
    height: u16,
    pixels: bool,
    close: bool,
)
    requires
        ({
            ||| object_members(data) == Some(
                seq![
                    ("width"@, dec(width as nat)),
                    ("height"@, dec(height as nat)),
                    ("pixels"@, bool_text(pixels)),
                    ("close"@, bool_text(close)),
                ],
            )
            ||| pixels && !close && object_members(data) == Some(
                seq![("height"@, dec(height as nat)), ("width"@, dec(width as nat))],
            )
        }),
    ensures
        decoded_message("sync"@, data) == Some(
            MessageView::Sync { width, height, pixels, close },
        ),
{
    lemma_tags_differ();
    law_u16_reads_back(width);
    law_u16_reads_back(height);
    law_bool_reads_back(pixels);
    law_bool_reads_back(close);
    reveal_strlit("width");
    reveal_strlit("height");
    reveal_strlit("pixels");
    reveal_strlit("close");
    assert("width"@[0] == 'w' && "height"@[0] == 'h' && "pixels"@[0] == 'p' && "close"@[0] == 'c');
    let m = object_members(data)->0;
    if m.len() == 4 {
        assert(m.drop_last() =~= seq![m[0], m[1], m[2]]);
        assert(m.drop_last().drop_last() =~= seq![m[0], m[1]]);
        assert(m.drop_last().drop_last().drop_last() =~= seq![m[0]]);
        assert(m.drop_last().drop_last().drop_last().drop_last() =~= Seq::<
            (Seq<char>, Seq<char>),
        >::empty());
    } else {
        assert(m.drop_last() =~= seq![m[0]]);
        assert(m.drop_last().drop_last() =~= Seq::<(Seq<char>, Seq<char>)>::empty());
    }
    reveal_with_fuel(member, 6);
}

/// Input is read as the bytes, or as the text, that it carries.
pub proof fn law_input_is_read(data: Seq<char>)
    ensures
        json_bytes(data) matches Some(bytes) ==> decoded_message("pty_in"@, data) == Some(
            MessageView::PtyInput(bytes),
        ),
        json_string(data) matches Some(text) ==> decoded_message("input_text"@, data) == Some(
            MessageView::Input(text),
        ),
{
    lemma_tags_differ();
}

/// A message is read by its kind under `type` and what it carries under `data`, in either
/// order, or from an array of the two.
pub proof fn law_message_is_read_from_its_two_parts(
    text: Seq<char>,
    tag: Seq<char>,
    data: Seq<char>,
)
    requires
        json_held(data),
        variant_name(tag) is Some,
        object_members(text) == Some(seq![("type"@, tag), ("data"@, data)]) || object_members(text)
            == Some(seq![("data"@, data), ("type"@, tag)]),
    ensures
        message_of_json(text) == decoded_message(variant_name(tag)->0, data),
{
    reveal_strlit("type");
    reveal_strlit("data");
    assert("type"@[0] == 't' && "data"@[0] == 'd');
    let m = object_members(text)->0;
    assert(m.drop_last() =~= seq![m[0]]);
    assert(m.drop_last().drop_last() =~= Seq::<(Seq<char>, Seq<char>)>::empty());
    reveal_with_fuel(member, 4);
}

} // verus!
