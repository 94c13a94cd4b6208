//! JSON text: how an object falls into its members. Arrays and single values are read and
//! written by `serde_json`.
use crate::text::{chars_of, dec, is_digit, law_decimal_reads_back, same_text, string_of};
use serde::Serializer;
use serde_json::value::RawValue;
use vstd::prelude::*;

verus! {

// ---------------------------------------------------------------------------------------
// Single values
// ---------------------------------------------------------------------------------------

/// The first JSON value of a text, as its own text and the text behind it.
pub uninterp spec fn json_first(text: Seq<char>) -> Option<(Seq<char>, Seq<char>)>;

/// The string that a JSON text stands for.
pub uninterp spec fn json_string(text: Seq<char>) -> Option<Seq<char>>;

/// The bytes that a JSON array of numbers stands for.
pub uninterp spec fn json_bytes(text: Seq<char>) -> Option<Seq<u8>>;

/// The texts of the elements of a text that is a JSON array.
pub uninterp spec fn json_elements(text: Seq<char>) -> Option<Seq<Seq<char>>>;

/// Whether a JSON text, read on its own, stands for a value that can be held in memory.
pub uninterp spec fn json_readable(text: Seq<char>) -> bool;

/// The JSON text of a string.
pub uninterp spec fn json_text(s: Seq<char>) -> Seq<char>;

/// Whether a character is JSON white space.
pub open spec fn is_json_space(c: char) -> bool {
    c == ' ' || c == '\n' || c == '\t' || c == '\r'
}

/// A text from its first character that is no white space on.
pub open spec fn skip_space(s: Seq<char>) -> Seq<char>
    decreases s.len(),
{
    if s.len() > 0 && is_json_space(s[0]) {
        skip_space(s.drop_first())
    } else {
        s
    }
}

/// A text up to its last character that is no white space.
pub open spec fn skip_space_behind(s: Seq<char>) -> Seq<char>
    decreases s.len(),
{
    if s.len() > 0 && is_json_space(s.last()) {
        skip_space_behind(s.drop_last())
    } else {
        s
    }
}

/// A text without the white space around it.
pub open spec fn json_core(s: Seq<char>) -> Seq<char> {
    skip_space_behind(skip_space(s))
}

/// The 16-bit number that a JSON text stands for: one whose decimal digits it is.
pub open spec fn json_u16(text: Seq<char>) -> Option<u16> {
    if exists|n: u16| json_core(text) == #[trigger] dec(n as nat) {
        Some(choose|n: u16| json_core(text) == #[trigger] dec(n as nat))
    } else {
        None
    }
}

/// The decimal digits of a number, behind a minus sign where it is negative.
pub open spec fn signed_dec(n: int) -> Seq<char> {
    if n < 0 {
        seq!['-'] + dec((-n) as nat)
    } else {
        dec(n as nat)
    }
}

/// The signed 32-bit number that a JSON text stands for: one whose sign and decimal digits it
/// is.
pub open spec fn json_i32(text: Seq<char>) -> Option<i32> {
    if exists|n: i32| json_core(text) == #[trigger] signed_dec(n as int) {
        Some(choose|n: i32| json_core(text) == #[trigger] signed_dec(n as int))
    } else {
        None
    }
}

/// The truth value that a JSON text stands for: one whose name it is.
pub open spec fn json_bool(text: Seq<char>) -> Option<bool> {
    if json_core(text) == bool_text(true) {
        Some(true)
    } else if json_core(text) == bool_text(false) {
        Some(false)
    } else {
        None
    }
}

/// The JSON text of nothing.
pub open spec fn null_text() -> Seq<char> {
    seq!['n', 'u', 'l', 'l']
}

/// Whether a JSON text stands for nothing, `null`.
pub open spec fn json_unit(text: Seq<char>) -> bool {
    json_core(text) == null_text()
}

/// Whether a text is one JSON value with nothing around it.
pub open spec fn is_json_value(s: Seq<char>) -> bool {
    json_first(s) == Some((s, Seq::<char>::empty()))
}

/// Whether a value is read as such whatever of an object or array follows it.
pub open spec fn stands_alone(value: Seq<char>) -> bool {
    forall|rest: Seq<char>|
        rest.len() == 0 || rest[0] == ',' || rest[0] == '}' || rest[0] == ']' || rest[0] == ':'
            ==> #[trigger] json_first(value + rest) == Some((value, rest))
}

/// The JSON text of an array of bytes, from its second element on.
pub open spec fn bytes_tail(bytes: Seq<u8>) -> Seq<char>
    decreases bytes.len(),
{
    if bytes.len() == 0 {
        Seq::empty()
    } else {
        bytes_tail(bytes.drop_last()) + seq![','] + dec(bytes.last() as nat)
    }
}

/// The JSON text of an array of bytes.
pub open spec fn bytes_text(bytes: Seq<u8>) -> Seq<char> {
    if bytes.len() == 0 {
        seq!['[', ']']
    } else {
        seq!['['] + dec(bytes[0] as nat) + bytes_tail(bytes.drop_first()) + seq![']']
    }
}

/// The JSON text of a truth value.
pub open spec fn bool_text(b: bool) -> Seq<char> {
    if b {
        seq!['t', 'r', 'u', 'e']
    } else {
        seq!['f', 'a', 'l', 's', 'e']
    }
}

/// The members of an object as JSON text, each followed by what stands behind it.
pub open spec fn members_text(members: Seq<(Seq<char>, Seq<char>)>) -> Seq<char>
    decreases members.len(),
{
    if members.len() == 0 {
        seq!['}']
    } else {
        json_text(members[0].0) + (seq![':'] + (members[0].1 + (if members.len() == 1 {
            seq!['}']
        } else {
            seq![','] + members_text(members.drop_first())
        })))
    }
}

/// The JSON text of an object with the given members, in their order.
pub open spec fn object_text(members: Seq<(Seq<char>, Seq<char>)>) -> Seq<char> {
    seq!['{'] + members_text(members)
}

/// The elements of an array as JSON text, each followed by what stands behind it.
pub open spec fn elements_text(elements: Seq<Seq<char>>) -> Seq<char>
    decreases elements.len(),
{
    if elements.len() == 0 {
        seq![']']
    } else {
        elements[0] + (if elements.len() == 1 {
            seq![']']
        } else {
            seq![','] + elements_text(elements.drop_first())
        })
    }
}

/// The JSON text of an array with the given elements.
pub open spec fn array_text(elements: Seq<Seq<char>>) -> Seq<char> {
    seq!['['] + elements_text(elements)
}

/// The texts of the elements.
pub open spec fn views(elements: Seq<String>) -> Seq<Seq<char>> {
    elements.map_values(|e: String| e@)
}

/// The members as texts.
pub open spec fn member_views(members: Seq<(String, String)>) -> Seq<(Seq<char>, Seq<char>)> {
    members.map_values(|m: (String, String)| (m.0@, m.1@))
}

/// Reads the first value of a text with `serde_json::StreamDeserializer`, as a raw value:
/// it skips white space, takes the value's own text, and leaves what follows. The value's
/// syntax is `serde_json`'s and has a name.
#[verifier::external_body]
pub(crate) fn first_value(text: &str) -> (r: Option<(String, String)>)
    ensures
        match r {
            Some((value, rest)) => {
                &&& json_first(text@) == Some((value@, rest@))
                &&& value@.len() > 0
                &&& skip_space(text@) == value@ + rest@
            },
            None => json_first(text@) is None,
        },
{
    let mut stream = serde_json::Deserializer::from_str(text).into_iter::<Box<RawValue>>();
    let value = stream.next()?.ok()?;
    Some((value.get().to_string(), text[stream.byte_offset()..].to_string()))
}

/// Reads a string with `serde_json::from_str`; which texts it accepts and what they stand
/// for has a name.
#[verifier::external_body]
pub(crate) fn string_value(text: &str) -> (r: Option<String>)
    ensures
        match r {
            Some(s) => json_string(text@) == Some(s@),
            None => json_string(text@) is None,
        },
{
    serde_json::from_str::<String>(text).ok()
}

/// Reads a 16-bit number with `serde_json::from_str`: its decimal digits, with no needless
/// zero before them, and white space around them.
#[verifier::external_body]
pub(crate) fn u16_value(text: &str) -> (r: Option<u16>)
    ensures
        r == json_u16(text@),
{
    serde_json::from_str::<u16>(text).ok()
}

/// Reads a signed 32-bit number with `serde_json::from_str`: its decimal digits, with no
/// needless zero before them and behind a minus sign where it is negative, and white space
/// around them.
#[verifier::external_body]
pub(crate) fn i32_value(text: &str) -> (r: Option<i32>)
    ensures
        r == json_i32(text@),
{
    serde_json::from_str::<i32>(text).ok()
}

/// Reads a truth value with `serde_json::from_str`: its name, and white space around it.
#[verifier::external_body]
pub(crate) fn bool_value(text: &str) -> (r: Option<bool>)
    ensures
        r == json_bool(text@),
{
    serde_json::from_str::<bool>(text).ok()
}

/// Reads an array of bytes with `serde_json::from_str`; which texts it accepts and what
/// they stand for has a name.
#[verifier::external_body]
pub(crate) fn bytes_value(text: &str) -> (r: Option<Vec<u8>>)
    ensures
        match r {
            Some(b) => json_bytes(text@) == Some(b@),
            None => json_bytes(text@) is None,
        },
{
    serde_json::from_str::<Vec<u8>>(text).ok()
}

/// Reads `null` with `serde_json::from_str`: the word, and white space around it.
#[verifier::external_body]
pub(crate) fn unit_value(text: &str) -> (r: bool)
    ensures
        r == json_unit(text@),
{
    serde_json::from_str::<()>(text).is_ok()
}

/// Reads the elements of an array with `serde_json::from_str`, each as a raw value; which
/// texts it accepts and what their elements are has a name.
#[verifier::external_body]
pub(crate) fn read_array(text: &str) -> (r: Option<Vec<String>>)
    ensures
        match r {
            Some(elements) => json_elements(text@) == Some(views(elements@)),
            None => json_elements(text@) is None,
        },
{
    let values = serde_json::from_str::<Vec<Box<RawValue>>>(text).ok()?;
    Some(values.iter().map(|value| value.get().to_string()).collect())
}

/// Reads any value with `serde_json::from_str` into a `serde_json::Value`; which texts it
/// accepts has a name.
#[verifier::external_body]
fn readable_value(text: &str) -> (r: bool)
    ensures
        r == json_readable(text@),
{
    serde_json::from_str::<serde_json::Value>(text).is_ok()
}

/// Writes a string with `serde_json::to_string`, which cannot fail on one. The text has a
/// name; it is a value that reads back as the string, also as a value of any kind, and it
/// starts with a quotation mark.
#[verifier::external_body]
pub(crate) fn string_json(s: &str) -> (r: String)
    ensures
        r@ == json_text(s@),
        r@.len() > 0 && r@[0] == '"',
        stands_alone(r@),
        json_string(r@) == Some(s@),
        json_readable(r@),
{
    serde_json::to_string(s).unwrap()
}

/// Writes a 16-bit number with `serde_json::to_string`, which cannot fail on one: its
/// decimal digits.
#[verifier::external_body]
pub(crate) fn u16_json(n: u16) -> (r: String)
    ensures
        r@ == dec(n as nat),
        stands_alone(r@),
{
    serde_json::to_string(&n).unwrap()
}

/// Writes a size with `serde_json::to_string`, which cannot fail on one: its decimal digits.
#[verifier::external_body]
pub(crate) fn usize_json(n: usize) -> (r: String)
    ensures
        r@ == dec(n as nat),
        stands_alone(r@),
{
    serde_json::to_string(&n).unwrap()
}

/// Writes nothing with `serde_json::to_string`, which cannot fail on it: `null`.
#[verifier::external_body]
pub(crate) fn unit_json() -> (r: String)
    ensures
        r@ == null_text(),
        stands_alone(r@),
{
    serde_json::to_string(&()).unwrap()
}

/// Writes a truth value with `serde_json::to_string`, which cannot fail on one: its name.
#[verifier::external_body]
pub(crate) fn bool_json(b: bool) -> (r: String)
    ensures
        r@ == bool_text(b),
        stands_alone(r@),
{
    serde_json::to_string(&b).unwrap()
}

/// Writes bytes with `serde_json::to_string`, which cannot fail on them: an array of their
/// decimal numbers, a value that reads back as the bytes.
#[verifier::external_body]
pub(crate) fn bytes_json(bytes: &[u8]) -> (r: String)
    ensures
        r@ == bytes_text(bytes@),
        stands_alone(r@),
        json_bytes(r@) == Some(bytes@),
{
    serde_json::to_string(bytes).unwrap()
}

/// Writes an object with `serde_json`'s serializer: the members in their order, the names
/// as JSON strings and the values as they are. Where every value is the text of a single
/// JSON value this succeeds, and the outcome is such a text too.
#[verifier::external_body]
fn object_json(members: &[(String, String)]) -> (r: Option<String>)
    ensures
        (forall|i: int| 0 <= i < members@.len() ==> is_json_value((#[trigger] members@[i]).1@)) ==> {
            &&& r is Some
            &&& r->0@ == object_text(member_views(members@))
            &&& stands_alone(r->0@)
        },
{
    let mut values: Vec<(&String, Box<RawValue>)> = Vec::new();
    for (key, text) in members {
        values.push((key, RawValue::from_string(text.clone()).ok()?));
    }
    let mut out: Vec<u8> = Vec::new();
    serde_json::Serializer::new(&mut out).collect_map(values).ok()?;
    String::from_utf8(out).ok()
}

/// Writes an array with `serde_json`'s serializer: the elements in their order, as they are.
/// Where every element is the text of a single JSON value this succeeds; the outcome is such
/// a text too, and reads back as an array of the same elements.
#[verifier::external_body]
fn array_json(elements: &[String]) -> (r: Option<String>)
    ensures
        (forall|i: int| 0 <= i < elements@.len() ==> is_json_value((#[trigger] elements@[i])@)) ==> {
            &&& r is Some
            &&& r->0@ == array_text(views(elements@))
            &&& stands_alone(r->0@)
            &&& json_elements(r->0@) == Some(views(elements@))
        },
{
    let mut values: Vec<Box<RawValue>> = Vec::new();
    for text in elements {
        values.push(RawValue::from_string(text.clone()).ok()?);
    }
    let mut out: Vec<u8> = Vec::new();
    serde_json::Serializer::new(&mut out).collect_seq(values).ok()?;
    String::from_utf8(out).ok()
}

// ---------------------------------------------------------------------------------------
// Objects
// ---------------------------------------------------------------------------------------

/// Whether a text is empty up to white space.
pub open spec fn is_blank(s: Seq<char>) -> bool {
    skip_space(s).len() == 0
}

/// The members of an object, read from behind its opening brace or a comma to the end of
/// the text: each a string, a colon and a value.
pub open spec fn members_from(s: Seq<char>) -> Option<Seq<(Seq<char>, Seq<char>)>>
    decreases s.len(),
{
    match json_first(s) {
        None => None,
        Some((key, behind_key)) => match json_string(key) {
            None => None,
            Some(name) => {
                let colon = skip_space(behind_key);
                if colon.len() == 0 || colon[0] != ':' {
                    None
                } else {
                    match json_first(colon.drop_first()) {
                        None => None,
                        Some((value, behind_value)) => {
                            let next = skip_space(behind_value);
                            if next.len() > 0 && next[0] == ',' && next.len() <= s.len() {
                                match members_from(next.drop_first()) {
                                    Some(more) => Some(seq![(name, value)] + more),
                                    None => None,
                                }
                            } else if next.len() > 0 && next[0] == '}' && is_blank(
                                next.drop_first(),
                            ) {
                                Some(seq![(name, value)])
                            } else {
                                None
                            }
                        },
                    }
                }
            },
        },
    }
}

/// The members of a text that is a JSON object, in their order: names, and the values'
/// texts.
pub open spec fn object_members(s: Seq<char>) -> Option<Seq<(Seq<char>, Seq<char>)>> {
    let open = skip_space(s);
    if open.len() == 0 || open[0] != '{' {
        None
    } else {
        let inner = skip_space(open.drop_first());
        if inner.len() > 0 && inner[0] == '}' {
            if is_blank(inner.drop_first()) {
                Some(Seq::empty())
            } else {
                None
            }
        } else {
            members_from(inner)
        }
    }
}

proof fn lemma_skip_space_len(s: Seq<char>)
    ensures
        skip_space(s).len() <= s.len(),
        skip_space(s).len() > 0 ==> !is_json_space(skip_space(s)[0]),
    decreases s.len(),
{
    if s.len() > 0 && is_json_space(s[0]) {
        lemma_skip_space_len(s.drop_first());
    }
}

fn without_space(text: &str) -> (r: String)
    ensures
        r@ == skip_space(text@),
{
    let chars = chars_of(text);
    let mut i: usize = 0;
    assert(chars@.skip(0) =~= chars@);
    while i < chars.len() && (chars[i] == ' ' || chars[i] == '\n' || chars[i] == '\t' || chars[i]
        == '\r')
        invariant
            i <= chars@.len(),
            chars@ == text@,
            skip_space(text@) == skip_space(chars@.skip(i as int)),
        decreases chars@.len() - i,
    {
        assert(chars@.skip(i as int).drop_first() =~= chars@.skip(i + 1));
        i = i + 1;
    }
    let rest = &chars.as_slice()[i..chars.len()];
    assert(rest@ =~= chars@.skip(i as int));
    string_of(rest)
}

/// The text behind `mark`, where the text starts with it.
fn behind(text: &String, mark: char) -> (r: Option<String>)
    ensures
        match r {
            Some(rest) => text@.len() > 0 && text@[0] == mark && rest@ == text@.drop_first(),
            None => text@.len() == 0 || text@[0] != mark,
        },
{
    let chars = chars_of(text.as_str());
    if chars.len() == 0 || chars[0] != mark {
        return None;
    }
    let rest = &chars.as_slice()[1..chars.len()];
    assert(rest@ =~= text@.drop_first());
    Some(string_of(rest))
}

/// Reads the members of a JSON object.
pub fn read_object(text: &str) -> (r: Option<Vec<(String, String)>>)
    ensures
        match r {
            Some(members) => object_members(text@) == Some(member_views(members@)),
            None => object_members(text@) is None,
        },
{
    let open = without_space(text);
    let inner: String = match behind(&open, '{') {
        Some(rest) => without_space(rest.as_str()),
        None => return None,
    };
    let mut members: Vec<(String, String)> = Vec::new();
    if let Some(rest) = behind(&inner, '}') {
        if without_space(rest.as_str()).unicode_len() == 0 {
            assert(member_views(members@) =~= Seq::empty());
            return Some(members);
        }
        return None;
    }
    let mut at: String = inner;
    loop
        invariant
            object_members(text@) == (match members_from(at@) {
                Some(more) => Some(member_views(members@) + more),
                None => None,
            }),
        decreases at@.len(),
    {
        let (key, behind_key) = match first_value(at.as_str()) {
            Some(v) => v,
            None => return None,
        };
        proof {
            lemma_skip_space_len(at@);
            lemma_skip_space_len(behind_key@);
        }
        let name: String = match string_value(key.as_str()) {
            Some(name) => name,
            None => return None,
        };
        let colon = without_space(behind_key.as_str());
        let value_text: String = match behind(&colon, ':') {
            Some(rest) => rest,
            None => return None,
        };
        let (value, behind_value) = match first_value(value_text.as_str()) {
            Some(v) => v,
            None => return None,
        };
        let next = without_space(behind_value.as_str());
        proof {
            lemma_skip_space_len(value_text@);
            lemma_skip_space_len(behind_value@);
            assert(member_views(members@.push((name, value))) =~= member_views(members@).push(
                (name@, value@),
            ));
        }
        let ghost before = member_views(members@);
        members.push((name, value));
        if let Some(rest) = behind(&next, ',') {
            proof {
                match members_from(rest@) {
                    Some(more) => {
                        assert(before + (seq![(name@, value@)] + more) =~= before.push(
                            (name@, value@),
                        ) + more);
                    },
                    None => {},
                }
            }
            at = rest;
        } else if let Some(rest) = behind(&next, '}') {
            if without_space(rest.as_str()).unicode_len() == 0 {
                assert(before + seq![(name@, value@)] =~= before.push((name@, value@)));
                return Some(members);
            }
            return None;
        } else {
            return None;
        }
    }
}

// ---------------------------------------------------------------------------------------
// Values held in memory
// ---------------------------------------------------------------------------------------

/// Whether a JSON text stands for a value that can be held in memory where objects and arrays
/// may stand in one another so many levels deep.
pub open spec fn held_within(text: Seq<char>, levels: nat) -> bool
    decreases levels,
{
    let open = skip_space(text);
    if open.len() == 0 || (open[0] != '{' && open[0] != '[') {
        json_readable(text)
    } else if levels == 0 {
        false
    } else if open[0] == '{' {
        match object_members(text) {
            Some(members) => forall|i: int|
                0 <= i < members.len() ==> held_within(
                    (#[trigger] members[i]).1,
                    (levels - 1) as nat,
                ),
            None => false,
        }
    } else {
        match json_elements(text) {
            Some(elements) => forall|i: int|
                0 <= i < elements.len() ==> held_within(
                    #[trigger] elements[i],
                    (levels - 1) as nat,
                ),
            None => false,
        }
    }
}

/// Whether the text of a value that stands in an object or an array stands for one that can
/// be held in memory. A text has at most 127 levels of objects and arrays, the outermost one
/// among them.
pub open spec fn json_held(text: Seq<char>) -> bool {
    held_within(text, 126)
}

/// Tells whether a JSON text stands for a value that can be held in memory where objects and
/// arrays may stand in one another so many levels deep.
fn is_held_within(text: &str, levels: usize) -> (r: bool)
    ensures
        r == held_within(text@, levels as nat),
    decreases levels,
{
    let open = without_space(text);
    let is_object = behind(&open, '{').is_some();
    if !is_object && behind(&open, '[').is_none() {
        return readable_value(text);
    }
    if levels == 0 {
        return false;
    }
    if is_object {
        let members = match read_object(text) {
            Some(members) => members,
            None => return false,
        };
        let mut i: usize = 0;
        while i < members.len()
            invariant
                i <= members@.len(),
                levels > 0,
                skip_space(text@).len() > 0 && skip_space(text@)[0] == '{',
                object_members(text@) == Some(member_views(members@)),
                forall|k: int|
                    0 <= k < i ==> held_within(
                        (#[trigger] member_views(members@)[k]).1,
                        (levels - 1) as nat,
                    ),
            decreases members@.len() - i,
        {
            if !is_held_within(members[i].1.as_str(), levels - 1) {
                proof {
                    let all = object_members(text@)->0;
                    if held_within(text@, levels as nat) {
                        assert(held_within(all[i as int].1, (levels - 1) as nat));
                    }
                }
                return false;
            }
            i = i + 1;
        }
        return true;
    }
    let elements = match read_array(text) {
        Some(elements) => elements,
        None => return false,
    };
    let mut i: usize = 0;
    while i < elements.len()
        invariant
            i <= elements@.len(),
            levels > 0,
            skip_space(text@).len() > 0 && skip_space(text@)[0] == '[',
            json_elements(text@) == Some(views(elements@)),
            forall|k: int|
                0 <= k < i ==> held_within(
                    #[trigger] views(elements@)[k],
                    (levels - 1) as nat,
                ),
        decreases elements@.len() - i,
    {
        if !is_held_within(elements[i].as_str(), levels - 1) {
            proof {
                let all = json_elements(text@)->0;
                if held_within(text@, levels as nat) {
                    assert(held_within(all[i as int], (levels - 1) as nat));
                }
            }
            return false;
        }
        i = i + 1;
    }
    true
}

/// Tells whether the text of a value that stands in an object or an array stands for one that
/// can be held in memory.
pub(crate) fn held_value(text: &str) -> (r: bool)
    ensures
        r == json_held(text@),
{
    is_held_within(text, 126)
}

// ---------------------------------------------------------------------------------------
// Values read back
// ---------------------------------------------------------------------------------------

proof fn lemma_core(s: Seq<char>)
    requires
        s.len() > 0,
        !is_json_space(s[0]),
        !is_json_space(s.last()),
    ensures
        json_core(s) == s,
{
}

/// A text that starts with no white space starts so without the white space around it too.
pub(crate) proof fn lemma_core_start(s: Seq<char>)
    requires
        s.len() > 0,
        !is_json_space(s[0]),
    ensures
        json_core(s).len() > 0,
        json_core(s)[0] == s[0],
    decreases s.len(),
{
    if is_json_space(s.last()) {
        lemma_core_start(s.drop_last());
        assert(skip_space(s.drop_last()) == s.drop_last());
    }
}

/// The text of nothing reads back as nothing.
pub proof fn law_null_reads_back()
    ensures
        json_unit(null_text()),
{
    lemma_core(null_text());
}

/// The text of a 16-bit number reads back as the number.
pub proof fn law_u16_reads_back(n: u16)
    ensures
        json_u16(dec(n as nat)) == Some(n),
{
    let s = dec(n as nat);
    law_decimal_reads_back(n as nat);
    assert(is_digit(s[0]) && is_digit(s.last()));
    lemma_core(s);
    let m = choose|m: u16| json_core(s) == #[trigger] dec(m as nat);
    law_decimal_reads_back(m as nat);
}

/// The text of a truth value reads back as the truth value.
pub proof fn law_bool_reads_back(b: bool)
    ensures
        json_bool(bool_text(b)) == Some(b),
{
    lemma_core(bool_text(b));
    assert(bool_text(true)[0] != bool_text(false)[0]);
}

/// The text of a signed 32-bit number stands for that number and no other.
pub proof fn law_i32_reads_back(n: i32)
    ensures
        json_i32(signed_dec(n as int)) == Some(n),
{
    let s = signed_dec(n as int);
    lemma_signed_dec(n as int);
    lemma_core(s);
    let m = choose|m: i32| json_core(s) == #[trigger] signed_dec(m as int);
    lemma_signed_dec(m as int);
    if n < 0 {
        assert(s.skip(1) =~= dec((-n) as nat));
        assert(signed_dec(m as int).skip(1) =~= dec((-m) as nat));
        law_decimal_reads_back((-n) as nat);
        law_decimal_reads_back((-m) as nat);
    } else {
        law_decimal_reads_back(n as nat);
        law_decimal_reads_back(m as nat);
    }
}

proof fn lemma_signed_dec(n: int)
    ensures
        signed_dec(n).len() > 0,
        (signed_dec(n)[0] == '-') == (n < 0),
        n >= 0 ==> is_digit(signed_dec(n)[0]),
        is_digit(signed_dec(n).last()),
{
    if n < 0 {
        law_decimal_reads_back((-n) as nat);
        assert(signed_dec(n).last() == dec((-n) as nat).last());
    } else {
        law_decimal_reads_back(n as nat);
    }
}

// ---------------------------------------------------------------------------------------
// Members by name
// ---------------------------------------------------------------------------------------

/// What an object holds under a name.
pub enum Member<T> {
    /// No member has the name.
    Missing,
    /// One member has the name, with this value.
    Value(T),
    /// Several members have the name.
    Duplicate,
}

/// What an object with these members holds under a name.
pub open spec fn member(members: Seq<(Seq<char>, Seq<char>)>, name: Seq<char>) -> Member<Seq<char>>
    decreases members.len(),
{
    if members.len() == 0 {
        Member::Missing
    } else {
        let rest = member(members.drop_last(), name);
        if members.last().0 != name {
            rest
        } else if rest is Missing {
            Member::Value(members.last().1)
        } else {
            Member::Duplicate
        }
    }
}

/// Finds what an object holds under a name.
pub fn find_member(members: &Vec<(String, String)>, name: &str) -> (r: Member<String>)
    ensures
        match r {
            Member::Missing => member(member_views(members@), name@) is Missing,
            Member::Value(v) => member(member_views(members@), name@) == Member::Value(v@),
            Member::Duplicate => member(member_views(members@), name@) is Duplicate,
        },
{
    let ghost all = member_views(members@);
    let mut found: Member<String> = Member::Missing;
    let mut i: usize = 0;
    while i < members.len()
        invariant
            i <= members@.len(),
            all == member_views(members@),
            match found {
                Member::Missing => member(all.take(i as int), name@) is Missing,
                Member::Value(v) => member(all.take(i as int), name@) == Member::Value(v@),
                Member::Duplicate => member(all.take(i as int), name@) is Duplicate,
            },
        decreases members@.len() - i,
    {
        assert(all.take(i + 1).drop_last() =~= all.take(i as int));
        assert(all.take(i + 1).last() == (members@[i as int].0@, members@[i as int].1@));
        if same_text(members[i].0.as_str(), name) {
            found = match found {
                Member::Missing => Member::Value(members[i].1.clone()),
                _ => Member::Duplicate,
            };
        }
        i = i + 1;
    }
    assert(all.take(i as int) =~= all);
    found
}


/// Whether a name can be written and read back.
pub open spec fn is_written_name(name: Seq<char>) -> bool {
    &&& json_text(name).len() > 0
    &&& json_text(name)[0] == '"'
    &&& stands_alone(json_text(name))
    &&& json_string(json_text(name)) == Some(name)
}

proof fn lemma_members_text(members: Seq<(Seq<char>, Seq<char>)>)
    requires
        members.len() > 0,
        forall|i: int| 0 <= i < members.len() ==> is_written_name((#[trigger] members[i]).0),
        forall|i: int| 0 <= i < members.len() ==> stands_alone((#[trigger] members[i]).1),
    ensures
        members_from(members_text(members)) == Some(members),
        members_text(members).len() > 0,
        members_text(members)[0] == '"',
    decreases members.len(),
{
    let name = members[0].0;
    let value = members[0].1;
    let more = members.drop_first();
    let tail = if members.len() == 1 {
        seq!['}']
    } else {
        seq![','] + members_text(more)
    };
    let behind_key = seq![':'] + (value + tail);
    let s = members_text(members);
    assert(is_written_name(name));
    assert(s == json_text(name) + behind_key);
    assert(behind_key[0] == ':');
    assert(json_first(s) == Some((json_text(name), behind_key)));
    assert(skip_space(behind_key) == behind_key);
    assert(behind_key.drop_first() =~= value + tail);
    assert(tail[0] == '}' || tail[0] == ',');
    assert(json_first(value + tail) == Some((value, tail)));
    assert(skip_space(tail) == tail);
    if members.len() == 1 {
        assert(tail.drop_first() =~= Seq::empty());
        assert(seq![(name, value)] =~= members);
    } else {
        assert forall|i: int| 0 <= i < more.len() implies is_written_name((#[trigger] more[i]).0)
            && stands_alone(more[i].1) by {
            assert(more[i] == members[i + 1]);
        }
        lemma_members_text(more);
        assert(tail.drop_first() =~= members_text(more));
        assert(seq![(name, value)] + more =~= members);
    }
}

/// Writes an object whose values are JSON texts. Read back, it holds the same members.
pub(crate) fn write_object(members: &Vec<(String, String)>) -> (r: Option<String>)
    requires
        forall|i: int| 0 <= i < members@.len() ==> stands_alone((#[trigger] members@[i]).1@),
    ensures
        r is Some,
        r->0@ == object_text(member_views(members@)),
        stands_alone(r->0@),
        object_members(r->0@) == Some(member_views(members@)),
{
    let ghost all = member_views(members@);
    let mut i: usize = 0;
    // A name's text is known to read back once it was written on its own.
    while i < members.len()
        invariant
            i <= members@.len(),
            all == member_views(members@),
            forall|k: int| 0 <= k < i ==> is_written_name((#[trigger] all[k]).0),
        decreases members@.len() - i,
    {
        let _ = string_json(members[i].0.as_str());
        assert(is_written_name(all[i as int].0));
        i = i + 1;
    }
    proof {
        assert forall|k: int| 0 <= k < members@.len() implies is_json_value(
            (#[trigger] members@[k]).1@,
        ) by {
            let v = members@[k].1@;
            assert(v + Seq::<char>::empty() =~= v);
        }
        let text = object_text(all);
        assert(text.drop_first() =~= members_text(all));
        assert(skip_space(text) == text);
        if all.len() == 0 {
            assert(members_text(all).drop_first() =~= Seq::empty());
            assert(all =~= Seq::empty());
        } else {
            assert forall|k: int| 0 <= k < all.len() implies stands_alone((#[trigger] all[k]).1) by {
                assert(all[k].1 == members@[k].1@);
            }
            lemma_members_text(all);
        }
        assert(skip_space(members_text(all)) == members_text(all));
    }
    object_json(members.as_slice())
}


/// The 16-bit number that an object holds under a name; the default where it holds none.
pub open spec fn u16_member(
    members: Seq<(Seq<char>, Seq<char>)>,
    name: Seq<char>,
    default: Option<u16>,
) -> Option<u16> {
    match member(members, name) {
        Member::Missing => default,
        Member::Value(text) => json_u16(text),
        Member::Duplicate => None,
    }
}

/// The truth value that an object holds under a name; the default where it holds none.
pub open spec fn bool_member(
    members: Seq<(Seq<char>, Seq<char>)>,
    name: Seq<char>,
    default: Option<bool>,
) -> Option<bool> {
    match member(members, name) {
        Member::Missing => default,
        Member::Value(text) => json_bool(text),
        Member::Duplicate => None,
    }
}

/// Reads a 16-bit number that an object holds under a name.
pub fn read_u16_member(members: &Vec<(String, String)>, name: &str, default: Option<u16>) -> (r:
    Option<u16>)
    ensures
        r == u16_member(member_views(members@), name@, default),
{
    match find_member(members, name) {
        Member::Missing => default,
        Member::Value(text) => u16_value(text.as_str()),
        Member::Duplicate => None,
    }
}

/// Reads a truth value that an object holds under a name.
pub fn read_bool_member(members: &Vec<(String, String)>, name: &str, default: Option<bool>) -> (r:
    Option<bool>)
    ensures
        r == bool_member(member_views(members@), name@, default),
{
    match find_member(members, name) {
        Member::Missing => default,
        Member::Value(text) => bool_value(text.as_str()),
        Member::Duplicate => None,
    }
}

/// The name of an enum's variant: a string, or an object with the name as its only member
/// and nothing, `null`, as its value.
pub open spec fn variant_name(text: Seq<char>) -> Option<Seq<char>> {
    match json_string(text) {
        Some(name) => Some(name),
        None => match object_members(text) {
            Some(members) => if members.len() == 1 && json_unit(members[0].1) {
                Some(members[0].0)
            } else {
                None
            },
            None => None,
        },
    }
}

/// Reads the name of an enum's variant.
pub fn read_variant_name(text: &str) -> (r: Option<String>)
    ensures
        match r {
            Some(name) => variant_name(text@) == Some(name@),
            None => variant_name(text@) is None,
        },
{
    if let Some(name) = string_value(text) {
        return Some(name);
    }
    match read_object(text) {
        Some(members) => {
            if members.len() == 1 && unit_value(members[0].1.as_str()) {
                Some(members[0].0.clone())
            } else {
                None
            }
        },
        None => None,
    }
}


/// The string that an object holds under a name, where it holds one.
pub open spec fn string_member(members: Seq<(Seq<char>, Seq<char>)>, name: Seq<char>) -> Option<
    Seq<char>,
> {
    match member(members, name) {
        Member::Value(text) => json_string(text),
        _ => None,
    }
}

/// Reads a string that an object holds under a name.
pub fn read_string_member(members: &Vec<(String, String)>, name: &str) -> (r: Option<String>)
    ensures
        match r {
            Some(s) => string_member(member_views(members@), name@) == Some(s@),
            None => string_member(member_views(members@), name@) is None,
        },
{
    match find_member(members, name) {
        Member::Value(text) => string_value(text.as_str()),
        _ => None,
    }
}

/// The string that a JSON text stands for, where it may also stand for nothing.
pub open spec fn optional_string(text: Seq<char>) -> Option<Option<Seq<char>>> {
    if json_unit(text) {
        Some(None)
    } else {
        match json_string(text) {
            Some(s) => Some(Some(s)),
            None => None,
        }
    }
}

/// Reads a string, or nothing.
pub fn read_optional_string(text: &str) -> (r: Option<Option<String>>)
    ensures
        match r {
            Some(Some(s)) => optional_string(text@) == Some(Some(s@)),
            Some(None) => optional_string(text@) == Some(None::<Seq<char>>),
            None => optional_string(text@) is None,
        },
{
    if unit_value(text) {
        return Some(None);
    }
    match string_value(text) {
        Some(s) => Some(Some(s)),
        None => None,
    }
}

/// The string that an object may hold under a name; nothing where it holds none.
pub open spec fn optional_string_member(
    members: Seq<(Seq<char>, Seq<char>)>,
    name: Seq<char>,
) -> Option<Option<Seq<char>>> {
    match member(members, name) {
        Member::Missing => Some(None),
        Member::Value(text) => optional_string(text),
        Member::Duplicate => None,
    }
}

/// Reads a string that an object may hold under a name.
pub fn read_optional_string_member(members: &Vec<(String, String)>, name: &str) -> (r: Option<
    Option<String>,
>)
    ensures
        match r {
            Some(Some(s)) => optional_string_member(member_views(members@), name@) == Some(
                Some(s@),
            ),
            Some(None) => optional_string_member(member_views(members@), name@) == Some(
                None::<Seq<char>>,
            ),
            None => optional_string_member(member_views(members@), name@) is None,
        },
{
    match find_member(members, name) {
        Member::Missing => Some(None),
        Member::Value(text) => read_optional_string(text.as_str()),
        Member::Duplicate => None,
    }
}

/// Writes an array of values that are given as JSON texts. Read back, it holds the same
/// elements.
pub(crate) fn write_array(elements: &Vec<String>) -> (r: Option<String>)
    requires
        forall|i: int| 0 <= i < elements@.len() ==> stands_alone((#[trigger] elements@[i])@),
    ensures
        r is Some,
        r->0@ == array_text(views(elements@)),
        stands_alone(r->0@),
        json_elements(r->0@) == Some(views(elements@)),
{
    proof {
        assert forall|k: int| 0 <= k < elements@.len() implies is_json_value(
            (#[trigger] elements@[k])@,
        ) by {
            let v = elements@[k]@;
            assert(v + Seq::<char>::empty() =~= v);
        }
    }
    array_json(elements.as_slice())
}

/// Whether a member of one name comes before every member of another.
pub open spec fn comes_first(
    members: Seq<(Seq<char>, Seq<char>)>,
    name: Seq<char>,
    other: Seq<char>,
) -> bool
    decreases members.len(),
{
    if members.len() == 0 {
        false
    } else if members[0].0 == name {
        true
    } else if members[0].0 == other {
        false
    } else {
        comes_first(members.drop_first(), name, other)
    }
}

/// Tells whether a member of one name comes before every member of another.
pub fn is_first(members: &Vec<(String, String)>, name: &str, other: &str) -> (r: bool)
    ensures
        r == comes_first(member_views(members@), name@, other@),
{
    let ghost all = member_views(members@);
    let mut i: usize = 0;
    assert(all.skip(0) =~= all);
    while i < members.len()
        invariant
            i <= members@.len(),
            all == member_views(members@),
            comes_first(all, name@, other@) == comes_first(all.skip(i as int), name@, other@),
        decreases members@.len() - i,
    {
        assert(all.skip(i as int)[0].0 == members@[i as int].0@);
        assert(all.skip(i as int).drop_first() =~= all.skip(i + 1));
        if same_text(members[i].0.as_str(), name) {
            return true;
        }
        if same_text(members[i].0.as_str(), other) {
            return false;
        }
        i = i + 1;
    }
    false
}

/// A member is found by its name if exactly one member has it, wherever it stands; with none of
/// the name it is missing, with several there is no telling.
pub proof fn law_member_is_found_by_its_name(
    members: Seq<(Seq<char>, Seq<char>)>,
    name: Seq<char>,
    at: int,
)
    requires
        0 <= at < members.len(),
        members[at].0 == name,
    ensures
        (forall|i: int| 0 <= i < members.len() && i != at ==> (#[trigger] members[i]).0 != name)
            ==> member(members, name) == Member::Value(members[at].1),
        (exists|i: int| 0 <= i < members.len() && i != at && (#[trigger] members[i]).0 == name)
            ==> member(members, name) is Duplicate,
    decreases members.len(),
{
    let init = members.drop_last();
    let last = members.len() - 1;
    assert forall|i: int| 0 <= i < init.len() implies init[i] == members[i] by {}
    if at < last {
        law_member_is_found_by_its_name(init, name, at);
        if members[last].0 != name {
            if exists|i: int| 0 <= i < members.len() && i != at && (#[trigger] members[i]).0
                == name {
                let i = choose|i: int|
                    0 <= i < members.len() && i != at && (#[trigger] members[i]).0 == name;
                assert(init[i].0 == name);
            }
        } else {
            assert(members[last].0 == name);
            lemma_found(init, name, at);
        }
    } else {
        if forall|i: int| 0 <= i < members.len() && i != at ==> (#[trigger] members[i]).0 != name {
            assert forall|i: int| 0 <= i < init.len() implies (#[trigger] init[i]).0 != name by {
                assert(members[i].0 != name);
            }
            lemma_missing(init, name);
        }
        if exists|i: int| 0 <= i < members.len() && i != at && (#[trigger] members[i]).0 == name {
            let i = choose|i: int|
                0 <= i < members.len() && i != at && (#[trigger] members[i]).0 == name;
            assert(init[i].0 == name);
            lemma_found(init, name, i);
        }
    }
}

proof fn lemma_missing(members: Seq<(Seq<char>, Seq<char>)>, name: Seq<char>)
    requires
        forall|i: int| 0 <= i < members.len() ==> (#[trigger] members[i]).0 != name,
    ensures
        member(members, name) is Missing,
    decreases members.len(),
{
    if members.len() > 0 {
        let init = members.drop_last();
        assert forall|i: int| 0 <= i < init.len() implies (#[trigger] init[i]).0 != name by {
            assert(init[i] == members[i]);
        }
        lemma_missing(init, name);
    }
}

proof fn lemma_found(members: Seq<(Seq<char>, Seq<char>)>, name: Seq<char>, at: int)
    requires
        0 <= at < members.len(),
        members[at].0 == name,
    ensures
        !(member(members, name) is Missing),
    decreases members.len(),
{
    if at < members.len() - 1 {
        assert(members.drop_last()[at] == members[at]);
        lemma_found(members.drop_last(), name, at);
    }
}

} // verus!
