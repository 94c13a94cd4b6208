//! Text building blocks: decimal and hexadecimal rendering, number parsing, splitting,
//! trimming and comparison, each with an exact statement over character sequences.
use vstd::prelude::*;
use vstd::utf8::{decode_utf8, encode_utf8, valid_utf8};

verus! {

/// `String::push` appends one character at the end of the string.
pub assume_specification[ String::push ](s: &mut String, ch: char)
    ensures
        final(s)@ == old(s)@.push(ch),
;

/// Whether a character has the Unicode White_Space property.
pub open spec fn white_space(c: char) -> bool {
    let code = c as u32;
    ||| 0x09 <= code <= 0x0d
    ||| code == 0x20
    ||| code == 0x85
    ||| code == 0xa0
    ||| code == 0x1680
    ||| 0x2000 <= code <= 0x200a
    ||| code == 0x2028
    ||| code == 0x2029
    ||| code == 0x202f
    ||| code == 0x205f
    ||| code == 0x3000
}

/// `char::is_whitespace` tells whether the character has the White_Space property, which
/// twenty-five characters have.
pub assume_specification[ char::is_whitespace ](c: char) -> (r: bool)
    ensures
        r == white_space(c),
;

// ---------------------------------------------------------------------------------------
// Characters and strings
// ---------------------------------------------------------------------------------------

/// The characters of a string slice.
pub fn chars_of(s: &str) -> (r: Vec<char>)
    ensures
        r@ == s@,
{
    let mut out: Vec<char> = Vec::new();
    for c in it: s.chars()
        invariant
            out@ == it.seq().take(it.index()),
            it.seq() == s@,
    {
        out.push(c);
        assert(it.seq().take(it.index() + 1) == it.seq().take(it.index()).push(c));
    }
    assert(s@.take(s@.len() as int) == s@);
    out
}

/// The string that holds the given characters.
pub fn string_of(chars: &[char]) -> (r: String)
    ensures
        r@ == chars@,
{
    let mut out = String::new();
    let mut i: usize = 0;
    while i < chars.len()
        invariant
            i <= chars@.len(),
            out@ == chars@.take(i as int),
        decreases chars@.len() - i,
    {
        out.push(chars[i]);
        assert(chars@.take(i + 1) == chars@.take(i as int).push(chars@[i as int]));
        i += 1;
    }
    assert(chars@.take(chars@.len() as int) == chars@);
    out
}

/// Whether two character slices hold the same characters.
pub fn same_chars(a: &[char], b: &[char]) -> (r: bool)
    ensures
        r == (a@ == b@),
{
    if a.len() != b.len() {
        return false;
    }
    let mut i: usize = 0;
    while i < a.len()
        invariant
            i <= a@.len(),
            a@.len() == b@.len(),
            forall|k: int| 0 <= k < i ==> a@[k] == b@[k],
        decreases a@.len() - i,
    {
        if a[i] != b[i] {
            return false;
        }
        i += 1;
    }
    assert(a@ =~= b@);
    true
}

/// Whether two string slices hold the same characters.
pub fn same_text(a: &str, b: &str) -> (r: bool)
    ensures
        r == (a@ == b@),
{
    let left = chars_of(a);
    let right = chars_of(b);
    same_chars(left.as_slice(), right.as_slice())
}

// ---------------------------------------------------------------------------------------
// Numbers as text
// ---------------------------------------------------------------------------------------

/// The decimal digit with the value `d`.
pub open spec fn digit(d: nat) -> char {
    if d == 0 {
        '0'
    } else if d == 1 {
        '1'
    } else if d == 2 {
        '2'
    } else if d == 3 {
        '3'
    } else if d == 4 {
        '4'
    } else if d == 5 {
        '5'
    } else if d == 6 {
        '6'
    } else if d == 7 {
        '7'
    } else if d == 8 {
        '8'
    } else {
        '9'
    }
}

/// `n` in decimal, without leading zeros.
pub open spec fn dec(n: nat) -> Seq<char>
    decreases n,
{
    if n < 10 {
        seq![digit(n)]
    } else {
        dec(n / 10).push(digit(n % 10))
    }
}

fn digit_char(d: u64) -> (r: char)
    requires
        d < 10,
    ensures
        r == digit(d as nat),
{
    match d {
        0 => '0',
        1 => '1',
        2 => '2',
        3 => '3',
        4 => '4',
        5 => '5',
        6 => '6',
        7 => '7',
        8 => '8',
        _ => '9',
    }
}

/// `n` in decimal.
pub fn dec_string(n: u64) -> (r: String)
    ensures
        r@ == dec(n as nat),
    decreases n,
{
    if n < 10 {
        let mut s = String::new();
        s.push(digit_char(n));
        assert(s@ == seq![digit(n as nat)]);
        s
    } else {
        let mut s = dec_string(n / 10);
        s.push(digit_char(n % 10));
        s
    }
}

/// `s` with zeros in front up to `width` characters.
pub open spec fn zero_padded(s: Seq<char>, width: nat) -> Seq<char>
    decreases width - s.len(),
{
    if s.len() >= width {
        s
    } else {
        zero_padded(seq!['0'] + s, width)
    }
}

fn pad_zeros(s: String, width: usize) -> (r: String)
    ensures
        r@ == zero_padded(s@, width as nat),
    decreases width - s@.len(),
{
    if s.as_str().unicode_len() >= width {
        s
    } else {
        let mut out = String::new();
        out.push('0');
        out.append(s.as_str());
        assert(out@ == seq!['0'] + s@);
        pad_zeros(out, width)
    }
}

/// `n` in decimal with at least two digits.
pub fn dec2_string(n: u64) -> (r: String)
    ensures
        r@ == zero_padded(dec(n as nat), 2),
{
    pad_zeros(dec_string(n), 2)
}

/// A year as a date shows it: at least four characters, the sign of a year before zero
/// among them.
pub open spec fn year_text(year: int) -> Seq<char> {
    if year >= 0 {
        zero_padded(dec(year as nat), 4)
    } else {
        seq!['-'] + zero_padded(dec((-year) as nat), 3)
    }
}

/// Renders a year, zero-padded to four characters.
pub fn year_string(year: i64) -> (r: String)
    ensures
        r@ == year_text(year as int),
{
    if year >= 0 {
        pad_zeros(dec_string(year as u64), 4)
    } else {
        let magnitude: u64 = if year == i64::MIN {
            9_223_372_036_854_775_808u64
        } else {
            (-year) as u64
        };
        let mut out = String::new();
        out.push('-');
        out.append(pad_zeros(dec_string(magnitude), 3).as_str());
        assert(out@ == seq!['-'] + zero_padded(dec(magnitude as nat), 3));
        out
    }
}

/// A signed number with its sign always written.
pub open spec fn signed_text(n: int) -> Seq<char> {
    if n >= 0 {
        seq!['+'] + dec(n as nat)
    } else {
        seq!['-'] + dec((-n) as nat)
    }
}

/// Renders a number with its sign always written.
pub fn signed_string(n: i32) -> (r: String)
    ensures
        r@ == signed_text(n as int),
{
    let mut out = String::new();
    let wide: i64 = n as i64;
    if wide >= 0 {
        out.push('+');
        out.append(dec_string(wide as u64).as_str());
        assert(out@ == seq!['+'] + dec(n as nat));
    } else {
        out.push('-');
        out.append(dec_string((-wide) as u64).as_str());
        assert(out@ == seq!['-'] + dec((-(n as int)) as nat));
    }
    out
}

/// The lower-case hexadecimal digit with the value `d`.
pub open spec fn hex_digit(d: nat) -> char {
    if d < 10 {
        digit(d)
    } else if d == 10 {
        'a'
    } else if d == 11 {
        'b'
    } else if d == 12 {
        'c'
    } else if d == 13 {
        'd'
    } else if d == 14 {
        'e'
    } else {
        'f'
    }
}

fn hex_char(d: u8) -> (r: char)
    requires
        d < 16,
    ensures
        r == hex_digit(d as nat),
{
    match d {
        10 => 'a',
        11 => 'b',
        12 => 'c',
        13 => 'd',
        14 => 'e',
        15 => 'f',
        _ => digit_char(d as u64),
    }
}

/// The bytes in lower-case hexadecimal, two digits each.
pub open spec fn hex_text(bytes: Seq<u8>) -> Seq<char>
    decreases bytes.len(),
{
    if bytes.len() == 0 {
        seq![]
    } else {
        hex_text(bytes.drop_last()).push(hex_digit(bytes.last() as nat / 16)).push(
            hex_digit(bytes.last() as nat % 16),
        )
    }
}

/// Renders bytes in lower-case hexadecimal.
pub fn hex_string(bytes: &[u8]) -> (r: String)
    ensures
        r@ == hex_text(bytes@),
{
    let mut out = String::new();
    let mut i: usize = 0;
    while i < bytes.len()
        invariant
            i <= bytes@.len(),
            out@ == hex_text(bytes@.take(i as int)),
        decreases bytes@.len() - i,
    {
        let b: u8 = bytes[i];
        out.push(hex_char(b / 16));
        out.push(hex_char(b % 16));
        assert(bytes@.take(i + 1).drop_last() == bytes@.take(i as int));
        i += 1;
    }
    assert(bytes@.take(bytes@.len() as int) == bytes@);
    out
}

// ---------------------------------------------------------------------------------------
// Text as numbers
// ---------------------------------------------------------------------------------------

/// Whether `c` is one of the ten decimal digits.
pub open spec fn is_digit(c: char) -> bool {
    '0' <= c && c <= '9'
}

/// The value of a decimal digit.
pub open spec fn digit_value(c: char) -> nat {
    (c as nat - '0' as nat) as nat
}

/// Whether `s` is one or more decimal digits.
pub open spec fn all_digits(s: Seq<char>) -> bool {
    &&& s.len() > 0
    &&& forall|i: int| 0 <= i < s.len() ==> is_digit(#[trigger] s[i])
}

/// The number that a run of decimal digits denotes.
pub open spec fn digits_value(s: Seq<char>) -> nat
    decreases s.len(),
{
    if s.len() == 0 {
        0
    } else {
        digits_value(s.drop_last()) * 10 + digit_value(s.last())
    }
}

/// The digits of an unsigned number: an optional plus sign is not among them.
pub open spec fn unsigned_digits(s: Seq<char>) -> Seq<char> {
    if s.len() > 0 && s[0] == '+' {
        s.skip(1)
    } else {
        s
    }
}

/// The unsigned number that `s` denotes: an optional plus sign and at least one digit.
pub open spec fn unsigned_value(s: Seq<char>) -> Option<nat> {
    if all_digits(unsigned_digits(s)) {
        Some(digits_value(unsigned_digits(s)))
    } else {
        None
    }
}

/// The signed number that `s` denotes: an optional sign and at least one digit.
pub open spec fn signed_value(s: Seq<char>) -> Option<int> {
    if s.len() > 0 && s[0] == '-' {
        if all_digits(s.skip(1)) {
            Some(-(digits_value(s.skip(1)) as int))
        } else {
            None
        }
    } else {
        match unsigned_value(s) {
            Some(v) => Some(v as int),
            None => None,
        }
    }
}

/// The value of the digits from `from` on, if they are digits and the value fits 64 bits;
/// otherwise whether it is too large, or they are no digits.
fn digits_from(s: &[char], from: usize) -> (r: Result<u64, bool>)
    requires
        from <= s@.len(),
    ensures
        match r {
            Ok(v) => all_digits(s@.skip(from as int)) && digits_value(s@.skip(from as int)) == v,
            Err(too_large) => if too_large {
                all_digits(s@.skip(from as int)) && digits_value(s@.skip(from as int)) > u64::MAX
            } else {
                !all_digits(s@.skip(from as int))
            },
        },
{
    let ghost t = s@.skip(from as int);
    if from == s.len() {
        return Err(false);
    }
    let mut i: usize = from;
    let mut value: u64 = 0;
    let mut too_large: bool = false;
    while i < s.len()
        invariant
            from <= i <= s@.len(),
            t == s@.skip(from as int),
            forall|k: int| 0 <= k < i - from ==> is_digit(#[trigger] t[k]),
            !too_large ==> value == digits_value(t.take(i - from)),
            too_large ==> digits_value(t.take(i - from)) > u64::MAX,
        decreases s@.len() - i,
    {
        let c: char = s[i];
        assert(t[i - from] == c);
        if !('0' <= c && c <= '9') {
            assert(!is_digit(t[i - from]));
            return Err(false);
        }
        let d: u64 = (c as u32 - '0' as u32) as u64;
        assert(t.take(i - from + 1).drop_last() == t.take(i - from));
        if !too_large {
            if value > (u64::MAX - d) / 10 {
                too_large = true;
            } else {
                value = value * 10 + d;
            }
        }
        i += 1;
    }
    assert(t.take(t.len() as int) == t);
    if too_large {
        Err(true)
    } else {
        Ok(value)
    }
}

/// Parses an unsigned number that fits 32 bits.
pub fn parse_u32(s: &[char]) -> (r: Option<u32>)
    ensures
        match r {
            Some(v) => unsigned_value(s@) == Some(v as nat),
            None => match unsigned_value(s@) {
                Some(v) => v > u32::MAX,
                None => true,
            },
        },
{
    let from: usize = if s.len() > 0 && s[0] == '+' {
        1
    } else {
        0
    };
    assert(s@.skip(from as int) =~= unsigned_digits(s@));
    match digits_from(s, from) {
        Ok(v) => if v <= u32::MAX as u64 {
            Some(v as u32)
        } else {
            None
        },
        Err(_) => None,
    }
}

/// Parses an unsigned number that fits 8 bits.
pub fn parse_u8(s: &[char]) -> (r: Option<u8>)
    ensures
        match r {
            Some(v) => unsigned_value(s@) == Some(v as nat),
            None => match unsigned_value(s@) {
                Some(v) => v > u8::MAX,
                None => true,
            },
        },
{
    match parse_u32(s) {
        Some(v) => if v <= 255 {
            Some(v as u8)
        } else {
            None
        },
        None => None,
    }
}

/// Parses an unsigned number that fits a `usize`.
pub fn parse_usize(s: &[char]) -> (r: Option<usize>)
    ensures
        match r {
            Some(v) => unsigned_value(s@) == Some(v as nat),
            None => match unsigned_value(s@) {
                Some(v) => v > usize::MAX,
                None => true,
            },
        },
{
    let from: usize = if s.len() > 0 && s[0] == '+' {
        1
    } else {
        0
    };
    assert(s@.skip(from as int) =~= unsigned_digits(s@));
    match digits_from(s, from) {
        Ok(v) => if v <= usize::MAX as u64 {
            Some(v as usize)
        } else {
            None
        },
        Err(_) => None,
    }
}

/// Parses a signed number that fits 64 bits.
pub fn parse_i64(s: &[char]) -> (r: Option<i64>)
    ensures
        match r {
            Some(v) => signed_value(s@) == Some(v as int),
            None => match signed_value(s@) {
                Some(v) => v > i64::MAX || v < i64::MIN,
                None => true,
            },
        },
{
    if s.len() > 0 && s[0] == '-' {
        match digits_from(s, 1) {
            Ok(v) => if v <= 9_223_372_036_854_775_807u64 {
                Some(-(v as i64))
            } else if v == 9_223_372_036_854_775_808u64 {
                Some(i64::MIN)
            } else {
                None
            },
            Err(_) => None,
        }
    } else {
        let from: usize = if s.len() > 0 && s[0] == '+' {
            1
        } else {
            0
        };
        assert(s@.skip(from as int) =~= unsigned_digits(s@));
        match digits_from(s, from) {
            Ok(v) => if v <= 9_223_372_036_854_775_807u64 {
                Some(v as i64)
            } else {
                None
            },
            Err(_) => None,
        }
    }
}


// ---------------------------------------------------------------------------------------
// White space around a text
// ---------------------------------------------------------------------------------------

/// A text from its first character that is no white space on.
pub open spec fn trim_start(s: Seq<char>) -> Seq<char>
    decreases s.len(),
{
    if s.len() > 0 && white_space(s[0]) {
        trim_start(s.drop_first())
    } else {
        s
    }
}

/// A text up to its last character that is no white space.
pub open spec fn trim_end(s: Seq<char>) -> Seq<char>
    decreases s.len(),
{
    if s.len() > 0 && white_space(s.last()) {
        trim_end(s.drop_last())
    } else {
        s
    }
}

/// A text without the white space around it.
pub open spec fn trim(s: Seq<char>) -> Seq<char> {
    trim_start(trim_end(s))
}

/// The text without the white space around it.
pub fn trimmed(s: &str) -> (r: String)
    ensures
        r@ == trim(s@),
{
    let chars = chars_of(s);
    let mut end: usize = chars.len();
    assert(chars@.take(end as int) =~= chars@);
    while end > 0 && chars[end - 1].is_whitespace()
        invariant
            end <= chars@.len(),
            chars@ == s@,
            trim_end(s@) == trim_end(chars@.take(end as int)),
        decreases end,
    {
        assert(chars@.take(end as int).drop_last() =~= chars@.take(end - 1));
        end = end - 1;
    }
    let ghost kept = chars@.take(end as int);
    assert(trim_end(s@) == kept) by {
        if end > 0 {
            assert(kept.last() == chars@[end - 1]);
        }
    }
    let mut start: usize = 0;
    assert(chars@.subrange(0, end as int) =~= kept);
    while start < end && chars[start].is_whitespace()
        invariant
            start <= end <= chars@.len(),
            trim_start(kept) == trim_start(chars@.subrange(start as int, end as int)),
        decreases end - start,
    {
        assert(chars@.subrange(start as int, end as int).drop_first() =~= chars@.subrange(
            start + 1,
            end as int,
        ));
        start = start + 1;
    }
    let rest = &chars.as_slice()[start..end];
    assert(rest@ =~= chars@.subrange(start as int, end as int));
    string_of(rest)
}


// ---------------------------------------------------------------------------------------
// Text from bytes
// ---------------------------------------------------------------------------------------

/// `String::from_utf8` takes bytes for text if they are valid UTF-8, and only then; the text
/// is the one that they encode.
#[verifier::external_body]
fn string_from_utf8(bytes: Vec<u8>) -> (r: Option<String>)
    ensures
        match r {
            Some(s) => valid_utf8(bytes@) && encode_utf8(s@) == bytes@,
            None => !valid_utf8(bytes@),
        },
{
    String::from_utf8(bytes).ok()
}

/// The text that bytes encode, if they are valid UTF-8.
pub fn utf8_text(bytes: &[u8]) -> (r: Option<String>)
    ensures
        match r {
            Some(s) => valid_utf8(bytes@) && s@ == decode_utf8(bytes@),
            None => !valid_utf8(bytes@),
        },
{
    match string_from_utf8(vstd::slice::slice_to_vec(bytes)) {
        Some(s) => {
            proof {
                vstd::utf8::encode_utf8_decode_utf8(s@);
            }
            Some(s)
        },
        None => None,
    }
}

// ---------------------------------------------------------------------------------------
// Words and pieces
// ---------------------------------------------------------------------------------------

/// Whether a character is ASCII white space.
pub open spec fn is_ascii_space(c: char) -> bool {
    c == ' ' || c == '\t' || c == '\n' || c == '\x0c' || c == '\r'
}

/// How far a text reaches before its first ASCII white space, or (`space`) before its first
/// other character.
pub open spec fn run_len(s: Seq<char>, space: bool) -> int
    decreases s.len(),
{
    if s.len() == 0 || is_ascii_space(s[0]) != space {
        0
    } else {
        1 + run_len(s.drop_first(), space)
    }
}

pub proof fn lemma_run_len(s: Seq<char>, space: bool)
    ensures
        0 <= run_len(s, space) <= s.len(),
    decreases s.len(),
{
    if s.len() > 0 {
        lemma_run_len(s.drop_first(), space);
    }
}

/// The words of a text: its longest stretches without ASCII white space.
pub open spec fn words(s: Seq<char>) -> Seq<Seq<char>>
    decreases s.len(),
    via words_decreases
{
    let t = s.skip(run_len(s, true));
    if t.len() == 0 {
        Seq::empty()
    } else {
        seq![t.take(run_len(t, false))] + words(t.skip(run_len(t, false)))
    }
}

#[via_fn]
proof fn words_decreases(s: Seq<char>) {
    lemma_run_len(s, true);
    let t = s.skip(run_len(s, true));
    lemma_run_len(t, false);
    lemma_word_not_empty(s);
}

proof fn lemma_word_not_empty(s: Seq<char>)
    ensures
        ({
            let t = s.skip(run_len(s, true));
            t.len() > 0 ==> run_len(t, false) > 0
        }),
{
    lemma_run_stops(s, true);
    let t = s.skip(run_len(s, true));
    if t.len() > 0 {
        lemma_run_len(t.drop_first(), false);
        assert(!is_ascii_space(t[0]));
    }
}

proof fn lemma_run_stops(s: Seq<char>, space: bool)
    ensures
        0 <= run_len(s, space) <= s.len(),
        run_len(s, space) < s.len() ==> is_ascii_space(s[run_len(s, space)]) != space,
    decreases s.len(),
{
    if s.len() > 0 && is_ascii_space(s[0]) == space {
        lemma_run_stops(s.drop_first(), space);
    }
}

fn run_end(s: &Vec<char>, from: usize, space: bool) -> (r: usize)
    requires
        from <= s@.len(),
    ensures
        r == from + run_len(s@.skip(from as int), space),
        from <= r <= s@.len(),
{
    let mut i: usize = from;
    while i < s.len() && (s[i] == ' ' || s[i] == '\t' || s[i] == '\n' || s[i] == '\x0c' || s[i]
        == '\r') == space
        invariant
            from <= i <= s@.len(),
            run_len(s@.skip(from as int), space) == i - from + run_len(s@.skip(i as int), space),
        decreases s@.len() - i,
    {
        assert(s@.skip(i as int).drop_first() =~= s@.skip(i + 1));
        i = i + 1;
    }
    i
}

/// The words as texts.
pub open spec fn char_views(parts: Seq<Vec<char>>) -> Seq<Seq<char>> {
    parts.map_values(|p: Vec<char>| p@)
}

/// Splits a text at ASCII white space.
pub fn split_words(s: &str) -> (r: Vec<Vec<char>>)
    ensures
        char_views(r@) == words(s@),
{
    let chars = chars_of(s);
    let mut out: Vec<Vec<char>> = Vec::new();
    let mut at: usize = 0;
    assert(chars@.skip(0) =~= chars@);
    assert(char_views(out@) + words(chars@) =~= words(chars@));
    loop
        invariant
            at <= chars@.len(),
            chars@ == s@,
            words(s@) == char_views(out@) + words(chars@.skip(at as int)),
        decreases chars@.len() - at,
    {
        let start: usize = run_end(&chars, at, true);
        let ghost rest = chars@.skip(at as int);
        assert(rest.skip(run_len(rest, true)) =~= chars@.skip(start as int));
        if start == chars.len() {
            assert(words(rest) =~= Seq::empty());
            assert(char_views(out@) + Seq::<Seq<char>>::empty() =~= char_views(out@));
            return out;
        }
        let end: usize = run_end(&chars, start, false);
        proof {
            lemma_word_not_empty(rest);
        }
        let ghost t = chars@.skip(start as int);
        let ghost before = char_views(out@);
        let word = vstd::slice::slice_to_vec(&chars.as_slice()[start..end]);
        assert(word@ =~= t.take(run_len(t, false)));
        assert(t.skip(run_len(t, false)) =~= chars@.skip(end as int));
        out.push(word);
        assert(char_views(out@) =~= before.push(word@));
        assert(before + (seq![word@] + words(chars@.skip(end as int))) =~= before.push(word@)
            + words(chars@.skip(end as int)));
        at = end;
    }
}

/// How far a text reaches before the first occurrence of a mark.
pub open spec fn piece_len(s: Seq<char>, mark: char) -> int
    decreases s.len(),
{
    if s.len() == 0 || s[0] == mark {
        0
    } else {
        1 + piece_len(s.drop_first(), mark)
    }
}

pub proof fn lemma_piece_len(s: Seq<char>, mark: char)
    ensures
        0 <= piece_len(s, mark) <= s.len(),
    decreases s.len(),
{
    if s.len() > 0 {
        lemma_piece_len(s.drop_first(), mark);
    }
}

/// The pieces of a text between the occurrences of a mark; there is always one.
pub open spec fn pieces(s: Seq<char>, mark: char) -> Seq<Seq<char>>
    decreases s.len(),
    via pieces_decreases
{
    let n = piece_len(s, mark);
    if n >= s.len() {
        seq![s]
    } else {
        seq![s.take(n)] + pieces(s.skip(n + 1), mark)
    }
}

#[via_fn]
proof fn pieces_decreases(s: Seq<char>, mark: char) {
    lemma_piece_len(s, mark);
}

/// Splits a text at the occurrences of a mark.
pub fn split_pieces(chars: &Vec<char>, mark: char) -> (r: Vec<Vec<char>>)
    ensures
        char_views(r@) == pieces(chars@, mark),
        r@.len() > 0,
{
    let mut out: Vec<Vec<char>> = Vec::new();
    let mut start: usize = 0;
    let mut i: usize = 0;
    assert(chars@.skip(0) =~= chars@);
    assert(char_views(out@) + pieces(chars@, mark) =~= pieces(chars@, mark));
    while i < chars.len()
        invariant
            start <= i <= chars@.len(),
            piece_len(chars@.skip(start as int), mark) == i - start + piece_len(
                chars@.skip(i as int),
                mark,
            ),
            pieces(chars@, mark) == char_views(out@) + pieces(chars@.skip(start as int), mark),
        decreases chars@.len() - i,
    {
        let ghost rest = chars@.skip(start as int);
        let ghost before = char_views(out@);
        assert(chars@.skip(i as int)[0] == chars@[i as int]);
        if chars[i] == mark {
            let piece = vstd::slice::slice_to_vec(&chars.as_slice()[start..i]);
            assert(piece@ =~= rest.take(i - start));
            assert(rest.skip(i - start + 1) =~= chars@.skip(i + 1));
            out.push(piece);
            assert(char_views(out@) =~= before.push(piece@));
            assert(before + (seq![piece@] + pieces(chars@.skip(i + 1), mark)) =~= before.push(
                piece@,
            ) + pieces(chars@.skip(i + 1), mark));
            start = i + 1;
        } else {
            assert(chars@.skip(i as int).drop_first() =~= chars@.skip(i + 1));
        }
        i = i + 1;
    }
    let ghost rest = chars@.skip(start as int);
    let ghost before = char_views(out@);
    let piece = vstd::slice::slice_to_vec(&chars.as_slice()[start..chars.len()]);
    assert(piece@ =~= rest);
    out.push(piece);
    assert(char_views(out@) =~= before + seq![rest]);
    out
}

// ---------------------------------------------------------------------------------------
// Patterns
// ---------------------------------------------------------------------------------------

/// Whether a pattern stands at a place of a text.
pub open spec fn stands_at(s: Seq<char>, pattern: Seq<char>, at: int) -> bool {
    &&& 0 <= at
    &&& at + pattern.len() <= s.len()
    &&& s.subrange(at, at + pattern.len()) == pattern
}

/// The first place from `from` on at which a pattern stands, or the text's length where it
/// stands nowhere.
pub open spec fn first_place(s: Seq<char>, pattern: Seq<char>, from: int) -> int
    decreases s.len() - from,
{
    if from >= s.len() {
        s.len() as int
    } else if stands_at(s, pattern, from) {
        from
    } else {
        first_place(s, pattern, from + 1)
    }
}

/// Finds the first place from `from` on at which a pattern stands.
pub fn find_first(s: &Vec<char>, pattern: &Vec<char>, from: usize) -> (r: usize)
    requires
        pattern@.len() > 0,
        from <= s@.len(),
    ensures
        r == first_place(s@, pattern@, from as int),
        r <= s@.len(),
        from <= r,
        r < s@.len() ==> stands_at(s@, pattern@, r as int),
{
    let total: usize = s.len();
    let mut at: usize = from;
    while at < total
        invariant
            total == s@.len(),
            from <= at <= s@.len(),
            pattern@.len() > 0,
            first_place(s@, pattern@, from as int) == first_place(s@, pattern@, at as int),
        decreases s@.len() - at,
    {
        if total - at >= pattern.len() {
            let mut k: usize = 0;
            while k < pattern.len() && s[at + k] == pattern[k]
                invariant
                    total == s@.len(),
                    at < total,
                    pattern@.len() <= s@.len() - at,
                    k <= pattern@.len(),
                    forall|m: int| 0 <= m < k ==> s@[at + m] == pattern@[m],
                decreases pattern@.len() - k,
            {
                k = k + 1;
            }
            if k == pattern.len() {
                assert(s@.subrange(at as int, at + pattern@.len()) =~= pattern@);
                return at;
            }
            proof {
                assert(s@.subrange(at as int, at + pattern@.len())[k as int] != pattern@[k as int]);
            }
        }
        at = at + 1;
    }
    at
}


// ---------------------------------------------------------------------------------------
// Lines
// ---------------------------------------------------------------------------------------

/// A line without the carriage return at its end.
pub open spec fn without_return(line: Seq<char>) -> Seq<char> {
    if line.len() > 0 && line.last() == '\r' {
        line.drop_last()
    } else {
        line
    }
}

/// The lines of a text: each ends at a line feed, with or without a carriage return before
/// it; what follows the last line feed is a line if it is not empty.
pub open spec fn lines(s: Seq<char>) -> Seq<Seq<char>> {
    let parts = pieces(s, '\n');
    let ended = parts.drop_last().map_values(|p: Seq<char>| without_return(p));
    if parts.last().len() == 0 {
        ended
    } else {
        ended.push(parts.last())
    }
}

/// Splits a text into its lines.
pub fn split_lines(s: &str) -> (r: Vec<Vec<char>>)
    ensures
        char_views(r@) == lines(s@),
{
    let chars = chars_of(s);
    let parts = split_pieces(&chars, '\n');
    let ghost all = char_views(parts@);
    let ghost ended = all.drop_last().map_values(|p: Seq<char>| without_return(p));
    let last: usize = parts.len() - 1;
    let mut out: Vec<Vec<char>> = Vec::new();
    let mut i: usize = 0;
    assert(char_views(out@) =~= ended.take(0));
    while i < last
        invariant
            i <= last,
            last == parts@.len() - 1,
            all == char_views(parts@),
            ended == all.drop_last().map_values(|p: Seq<char>| without_return(p)),
            char_views(out@) == ended.take(i as int),
        decreases last - i,
    {
        let ghost before = char_views(out@);
        let mut line = vstd::slice::slice_to_vec(parts[i].as_slice());
        assert(all[i as int] == line@);
        if line.len() > 0 && line[line.len() - 1] == '\r' {
            let _ = line.pop();
        }
        assert(line@ =~= without_return(all[i as int]));
        out.push(line);
        assert(char_views(out@) =~= before.push(line@));
        assert(ended.take(i + 1) =~= ended.take(i as int).push(line@));
        i = i + 1;
    }
    assert(ended.take(i as int) =~= ended);
    assert(all.last() == parts@[last as int]@);
    if parts[last].len() > 0 {
        let ghost before = char_views(out@);
        let line = vstd::slice::slice_to_vec(parts[last].as_slice());
        out.push(line);
        assert(char_views(out@) =~= before.push(line@));
    }
    out
}

/// Some texts with a mark between them.
pub open spec fn joined(parts: Seq<Seq<char>>, mark: char) -> Seq<char>
    decreases parts.len(),
{
    if parts.len() == 0 {
        Seq::empty()
    } else if parts.len() == 1 {
        parts[0]
    } else {
        joined(parts.drop_last(), mark) + seq![mark] + parts.last()
    }
}

// ---------------------------------------------------------------------------------------
// Replacing
// ---------------------------------------------------------------------------------------

/// A text from a place on with every occurrence of a pattern, from left to right, replaced.
pub open spec fn replaced_from(
    s: Seq<char>,
    pattern: Seq<char>,
    with: Seq<char>,
    from: int,
) -> Seq<char>
    decreases s.len() - from,
    via replaced_decreases
{
    let at = first_place(s, pattern, from);
    if from >= s.len() || pattern.len() == 0 {
        Seq::empty()
    } else if at >= s.len() {
        s.skip(from)
    } else {
        s.subrange(from, at) + with + replaced_from(s, pattern, with, at + pattern.len())
    }
}

#[via_fn]
proof fn replaced_decreases(s: Seq<char>, pattern: Seq<char>, with: Seq<char>, from: int) {
    lemma_first_place(s, pattern, from);
}

proof fn lemma_first_place(s: Seq<char>, pattern: Seq<char>, from: int)
    ensures
        from <= s.len() ==> from <= first_place(s, pattern, from) <= s.len(),
        first_place(s, pattern, from) < s.len() ==> stands_at(
            s,
            pattern,
            first_place(s, pattern, from),
        ),
    decreases s.len() - from,
{
    if from < s.len() && !stands_at(s, pattern, from) {
        lemma_first_place(s, pattern, from + 1);
    }
}

/// Replaces every occurrence of a pattern, from left to right.
pub fn replace_all(s: &str, pattern: &str, with: &str) -> (r: String)
    requires
        pattern@.len() > 0,
    ensures
        r@ == replaced_from(s@, pattern@, with@, 0),
{
    let chars = chars_of(s);
    let mark = chars_of(pattern);
    let mut out: String = String::new();
    let mut from: usize = 0;
    assert(out@ + replaced_from(s@, pattern@, with@, 0) =~= replaced_from(s@, pattern@, with@, 0));
    while from < chars.len()
        invariant
            chars@ == s@,
            mark@ == pattern@,
            pattern@.len() > 0,
            from <= chars@.len(),
            replaced_from(s@, pattern@, with@, 0) == out@ + replaced_from(
                s@,
                pattern@,
                with@,
                from as int,
            ),
        decreases chars@.len() - from,
    {
        let at: usize = find_first(&chars, &mark, from);
        let ghost before = out@;
        if at >= chars.len() {
            let tail = string_of(&chars.as_slice()[from..chars.len()]);
            assert(tail@ =~= s@.skip(from as int));
            out.append(tail.as_str());
            from = chars.len();
            assert(out@ + replaced_from(s@, pattern@, with@, from as int) =~= out@);
        } else {
            let kept = string_of(&chars.as_slice()[from..at]);
            assert(kept@ =~= s@.subrange(from as int, at as int));
            out.append(kept.as_str());
            out.append(with);
            let next: usize = at + mark.len();
            assert(out@ + replaced_from(s@, pattern@, with@, next as int) =~= before + (s@.subrange(
                from as int,
                at as int,
            ) + with@ + replaced_from(s@, pattern@, with@, next as int)));
            from = next;
        }
    }
    assert(out@ + replaced_from(s@, pattern@, with@, from as int) =~= out@);
    out
}


// ---------------------------------------------------------------------------------------
// Laws
// ---------------------------------------------------------------------------------------

/// A number that is written in decimal is read back as it was: its text is all digits, and
/// they denote it.
pub proof fn law_decimal_reads_back(n: nat)
    ensures
        all_digits(dec(n)),
        digits_value(dec(n)) == n,
        unsigned_value(dec(n)) == Some(n),
    decreases n,
{
    if n < 10 {
        let s = dec(n);
        assert(s.drop_last() =~= Seq::<char>::empty());
        assert(digits_value(s.drop_last()) == 0);
        assert(s.last() == digit(n));
        assert(is_digit(digit(n)) && digit_value(digit(n)) == n);
    } else {
        law_decimal_reads_back(n / 10);
        let s = dec(n);
        assert(s.drop_last() =~= dec(n / 10));
        assert(s.last() == digit(n % 10));
        assert(is_digit(digit(n % 10)) && digit_value(digit(n % 10)) == n % 10);
        assert forall|i: int| 0 <= i < s.len() implies is_digit(#[trigger] s[i]) by {
            if i < s.len() - 1 {
                assert(s[i] == dec(n / 10)[i]);
            }
        }
    }
    assert(is_digit(dec(n)[0]));
}

// ---------------------------------------------------------------------------------------
// Laws of texts
// ---------------------------------------------------------------------------------------

/// Taking away the white space around a text takes away white space alone, and all of it: what
/// is left is a stretch of the text that neither starts nor ends with white space, and nothing
/// but white space stands before and behind it.
pub proof fn law_trim_takes_white_space_alone(s: Seq<char>)
    ensures
        exists|i: int, j: int|
            0 <= i <= j <= s.len() && trim(s) == #[trigger] s.subrange(i, j) && (forall|k: int|
                0 <= k < i ==> white_space(#[trigger] s[k])) && (forall|k: int|
                j <= k < s.len() ==> white_space(#[trigger] s[k])),
        trim(s).len() > 0 ==> !white_space(trim(s)[0]) && !white_space(trim(s).last()),
        trim(trim(s)) == trim(s),
{
    lemma_trim_end(s);
    let t = trim_end(s);
    let j = t.len() as int;
    lemma_trim_start(t);
    let r = trim_start(t);
    let i = j - r.len();
    assert(s.subrange(i, j) =~= r);
    assert forall|k: int| 0 <= k < i implies white_space(#[trigger] s[k]) by {
        assert(t[k] == s[k]);
    }
    if r.len() > 0 {
        assert(r.last() == t.last());
        assert(trim_end(r) == r);
        assert(trim_start(r) == r);
    }
}

proof fn lemma_trim_end(s: Seq<char>)
    ensures
        trim_end(s).len() <= s.len(),
        trim_end(s) == s.take(trim_end(s).len() as int),
        trim_end(s).len() > 0 ==> !white_space(trim_end(s).last()),
        forall|k: int| trim_end(s).len() <= k < s.len() ==> white_space(#[trigger] s[k]),
    decreases s.len(),
{
    if s.len() > 0 && white_space(s.last()) {
        lemma_trim_end(s.drop_last());
        let n = trim_end(s).len() as int;
        assert(s.drop_last().take(n) =~= s.take(n));
        assert forall|k: int| n <= k < s.len() implies white_space(#[trigger] s[k]) by {
            if k < s.len() - 1 {
                assert(s.drop_last()[k] == s[k]);
            }
        }
    } else {
        assert(s.take(s.len() as int) =~= s);
    }
}

proof fn lemma_trim_start(s: Seq<char>)
    ensures
        trim_start(s).len() <= s.len(),
        trim_start(s) == s.skip(s.len() - trim_start(s).len()),
        trim_start(s).len() > 0 ==> !white_space(trim_start(s)[0]),
        forall|k: int| 0 <= k < s.len() - trim_start(s).len() ==> white_space(#[trigger] s[k]),
    decreases s.len(),
{
    if s.len() > 0 && white_space(s[0]) {
        let t = s.drop_first();
        lemma_trim_start(t);
        let n = s.len() - trim_start(s).len();
        assert(t.skip(n - 1) =~= s.skip(n));
        assert forall|k: int| 0 <= k < n implies white_space(#[trigger] s[k]) by {
            if k > 0 {
                assert(t[k - 1] == s[k]);
            }
        }
    } else {
        assert(s.skip(0) =~= s);
    }
}

/// Whether a text is a word: not empty, and without ASCII white space.
pub open spec fn is_word(s: Seq<char>) -> bool {
    s.len() > 0 && forall|i: int| 0 <= i < s.len() ==> !is_ascii_space(#[trigger] s[i])
}

/// The words of a text that starts with a word and a space are that word and the words of the
/// rest; those of a word alone are the word.
pub proof fn law_words_are_split_at_spaces(word: Seq<char>, rest: Seq<char>)
    requires
        is_word(word),
    ensures
        words(word + seq![' '] + rest) == seq![word] + words(rest),
        words(word) == seq![word],
{
    let s = word + seq![' '] + rest;
    let n = word.len() as int;
    lemma_run_of_word(s, n);
    lemma_run_of_word(word, n);
    assert(s.skip(0) =~= s);
    assert(word.skip(0) =~= word);
    assert(s.take(n) =~= word);
    assert(word.take(n) =~= word);
    let behind = s.skip(n);
    assert(behind =~= seq![' '] + rest);
    assert(behind.drop_first() =~= rest);
    assert(run_len(behind, true) == 1 + run_len(rest, true));
    lemma_run_len(rest, true);
    assert(behind.skip(run_len(behind, true)) =~= rest.skip(run_len(rest, true)));
    assert(words(behind) == words(rest));
    assert(word.skip(n) =~= Seq::<char>::empty());
    assert(words(Seq::<char>::empty()) =~= Seq::<Seq<char>>::empty()) by {
        assert(Seq::<char>::empty().skip(0) =~= Seq::<char>::empty());
    }
    assert(words(word) =~= seq![word]);
}

proof fn lemma_run_of_word(s: Seq<char>, n: int)
    requires
        0 <= n <= s.len(),
        forall|i: int| 0 <= i < n ==> !is_ascii_space(#[trigger] s[i]),
        n < s.len() ==> is_ascii_space(s[n]),
    ensures
        run_len(s, false) == n,
        n > 0 ==> run_len(s, true) == 0,
    decreases n,
{
    if n > 0 {
        let t = s.drop_first();
        assert forall|i: int| 0 <= i < n - 1 implies !is_ascii_space(#[trigger] t[i]) by {
            assert(t[i] == s[i + 1]);
        }
        lemma_run_of_word(t, n - 1);
        assert(!is_ascii_space(s[0]));
    }
}

/// The pieces of a text that starts with a stretch without the mark and then the mark are that
/// stretch and the pieces of the rest; a text without the mark is one piece.
pub proof fn law_pieces_are_split_at_marks(piece: Seq<char>, rest: Seq<char>, mark: char)
    requires
        forall|i: int| 0 <= i < piece.len() ==> #[trigger] piece[i] != mark,
    ensures
        pieces(piece + seq![mark] + rest, mark) == seq![piece] + pieces(rest, mark),
        pieces(piece, mark) == seq![piece],
{
    let s = piece + seq![mark] + rest;
    let n = piece.len() as int;
    lemma_piece_of(s, n, mark);
    lemma_piece_of(piece, n, mark);
    assert(s.take(n) =~= piece);
    assert(s.skip(n + 1) =~= rest);
}

proof fn lemma_piece_of(s: Seq<char>, n: int, mark: char)
    requires
        0 <= n <= s.len(),
        forall|i: int| 0 <= i < n ==> #[trigger] s[i] != mark,
        n < s.len() ==> s[n] == mark,
    ensures
        piece_len(s, mark) == n,
    decreases n,
{
    if n > 0 {
        let t = s.drop_first();
        assert forall|i: int| 0 <= i < n - 1 implies #[trigger] t[i] != mark by {
            assert(t[i] == s[i + 1]);
        }
        lemma_piece_of(t, n - 1, mark);
        assert(s[0] != mark);
    }
}

/// A number below a hundred in two digits reads back as the number.
pub proof fn law_two_digits_read_back(n: nat)
    requires
        n < 100,
    ensures
        ({
            let s = zero_padded(dec(n), 2);
            &&& s.len() == 2
            &&& all_digits(s)
            &&& unsigned_value(s) == Some(n)
        }),
{
    law_decimal_reads_back(n);
    if n < 10 {
        let s = seq!['0'] + dec(n);
        assert(zero_padded(dec(n), 2) == s) by {
            reveal_with_fuel(zero_padded, 2);
        }
        assert(s.drop_last() =~= seq!['0']);
        assert(seq!['0'].drop_last() =~= Seq::<char>::empty());
        assert(s.last() == digit(n));
        reveal_with_fuel(digits_value, 3);
        assert forall|i: int| 0 <= i < s.len() implies is_digit(#[trigger] s[i]) by {
            if i == 1 {
                assert(s[1] == dec(n)[0]);
            }
        }
        assert(digits_value(s) == n);
    } else {
        assert(n / 10 < 10);
        assert(dec(n) == dec(n / 10).push(digit(n % 10)));
        assert(dec(n).len() == 2);
    }
}

/// Bytes in hexadecimal have two digits each, and are told by them.
pub proof fn law_hex_tells_the_bytes(a: Seq<u8>, b: Seq<u8>)
    requires
        hex_text(a) == hex_text(b),
    ensures
        a == b,
        hex_text(a).len() == 2 * a.len(),
    decreases a.len() + b.len(),
{
    lemma_hex_len(a);
    lemma_hex_len(b);
    if a.len() > 0 {
        let x = hex_text(a);
        let y = hex_text(b);
        let n = x.len() as int;
        assert(x[n - 1] == hex_digit(a.last() as nat % 16));
        assert(y[n - 1] == hex_digit(b.last() as nat % 16));
        assert(x[n - 2] == hex_digit(a.last() as nat / 16));
        assert(y[n - 2] == hex_digit(b.last() as nat / 16));
        assert(a.last() == b.last());
        assert(hex_text(a.drop_last()) =~= x.take(n - 2));
        assert(hex_text(b.drop_last()) =~= y.take(n - 2));
        law_hex_tells_the_bytes(a.drop_last(), b.drop_last());
        assert(a =~= a.drop_last().push(a.last()));
        assert(b =~= b.drop_last().push(b.last()));
    } else {
        assert(a =~= b);
    }
}

proof fn lemma_hex_len(a: Seq<u8>)
    ensures
        hex_text(a).len() == 2 * a.len(),
    decreases a.len(),
{
    if a.len() > 0 {
        lemma_hex_len(a.drop_last());
    }
}

/// The first place at which a pattern stands is the one before which it stands nowhere.
pub proof fn lemma_place_found(s: Seq<char>, pattern: Seq<char>, from: int, at: int)
    requires
        0 <= from <= at <= s.len(),
        forall|k: int| from <= k < at ==> !stands_at(s, pattern, k),
        at < s.len() ==> stands_at(s, pattern, at),
    ensures
        first_place(s, pattern, from) == at,
    decreases at - from,
{
    if from < at {
        lemma_place_found(s, pattern, from + 1, at);
    }
}

/// Replacing a pattern that stands at one place of a text changes that place alone; a text in
/// which it stands nowhere stays as it is.
pub proof fn law_replacing_changes_the_pattern_alone(
    s: Seq<char>,
    pattern: Seq<char>,
    with: Seq<char>,
    at: int,
)
    requires
        pattern.len() > 0,
        0 <= at <= s.len(),
        forall|k: int| 0 <= k < s.len() && k != at ==> !stands_at(s, pattern, k),
        at < s.len() ==> stands_at(s, pattern, at),
    ensures
        at < s.len() ==> replaced_from(s, pattern, with, 0) == s.take(at) + with + s.skip(
            at + pattern.len(),
        ),
        at == s.len() ==> replaced_from(s, pattern, with, 0) == s,
{
    lemma_place_found(s, pattern, 0, at);
    if at < s.len() {
        let behind = at + pattern.len();
        lemma_place_found(s, pattern, behind, s.len() as int);
        assert(s.subrange(0, at) =~= s.take(at));
        if behind >= s.len() {
            assert(s.skip(behind) =~= Seq::<char>::empty());
        }
        assert(replaced_from(s, pattern, with, behind) =~= s.skip(behind));
    } else {
        assert(s.skip(0) =~= s);
        if s.len() == 0 {
            assert(s =~= Seq::<char>::empty());
        }
    }
}

/// A line that ends with a line feed is one line, and what follows it are the lines of the rest;
/// a carriage return before the line feed does not belong to it.
pub proof fn law_lines_end_at_line_feeds(line: Seq<char>, rest: Seq<char>)
    requires
        forall|i: int| 0 <= i < line.len() ==> #[trigger] line[i] != '\n' && line[i] != '\r',
    ensures
        lines(line + seq!['\n'] + rest) == seq![line] + lines(rest),
        lines(line + seq!['\r', '\n'] + rest) == seq![line] + lines(rest),
        line.len() > 0 ==> lines(line) == seq![line],
{
    law_pieces_are_split_at_marks(line, rest, '\n');
    let back = line + seq!['\r'];
    assert forall|i: int| 0 <= i < back.len() implies #[trigger] back[i] != '\n' by {
        if i < line.len() {
            assert(back[i] == line[i]);
        }
    }
    law_pieces_are_split_at_marks(back, rest, '\n');
    assert(line + seq!['\r', '\n'] + rest =~= back + seq!['\n'] + rest);
    lemma_lines_of(line, pieces(rest, '\n'), rest, line + seq!['\n'] + rest);
    lemma_lines_of(back, pieces(rest, '\n'), rest, back + seq!['\n'] + rest);
    assert(without_return(line) == line) by {
        if line.len() > 0 {
            assert(line.last() == line[line.len() - 1]);
        }
    }
    assert(without_return(back) =~= line);
    if line.len() > 0 {
        assert(pieces(line, '\n').drop_last() =~= Seq::<Seq<char>>::empty());
        assert(lines(line) =~= seq![line]);
    }
}

proof fn lemma_lines_of(
    first: Seq<char>,
    more: Seq<Seq<char>>,
    rest: Seq<char>,
    s: Seq<char>,
)
    requires
        more == pieces(rest, '\n'),
        pieces(s, '\n') == seq![first] + more,
    ensures
        lines(s) == seq![without_return(first)] + lines(rest),
{
    lemma_some_piece(rest, '\n');
    let parts = seq![first] + more;
    assert(parts.last() == more.last());
    assert(parts.drop_last() =~= seq![first] + more.drop_last());
    assert(lines(s) =~= seq![without_return(first)] + lines(rest));
}

proof fn lemma_some_piece(s: Seq<char>, mark: char)
    ensures
        pieces(s, mark).len() > 0,
{
}

} // verus!
