//! Joining a WiFi network, and setting the clock and the time zone over it.
use crate::calendar::{
    day_number, days_from_civil, is_date, leaps_before, month_len, month_start, year_start,
};
use crate::json::{
    find_member, i32_value, json_elements, json_i32, json_string, member, object_members,
    optional_string, optional_string_member, read_array, read_object, read_optional_string,
    read_optional_string_member, read_string_member, string_member, string_value, views, Member,
};
use crate::setting::WifiCred;
use crate::text::{
    char_views, dec, dec_string, is_ascii_space, is_digit, is_word, law_decimal_reads_back,
    law_pieces_are_split_at_marks, law_two_digits_read_back, law_words_are_split_at_spaces,
    parse_i64, parse_u32, pieces, same_text, signed_string, signed_text, signed_value,
    split_pieces, split_words, string_of, unsigned_value, utf8_text, words, zero_padded,
};
use vstd::prelude::*;
use vstd::utf8::{decode_utf8, valid_utf8};

verus! {

pub const TIMEZONE_BY_IP_ATTEMPTS: usize = 3;
/// The number of looks at the time synchronisation before it counts as failed.
pub const SNTP_ATTEMPTS: usize = 30;
/// The largest difference of the clock that is let stand, in nanoseconds.
pub const HTTP_DATE_SYNC_THRESHOLD: u128 = 15_000_000_000;
/// The most bytes that the answer of the time zone service may have.
pub const TIMEZONE_BODY_LIMIT: usize = 2048;

// ---------------------------------------------------------------------------------------
// WiFi
// ---------------------------------------------------------------------------------------

/// How a network authenticates.
#[derive(Debug, Clone, Copy, PartialEq, Eq, Structural)]
pub enum AuthMethod {
    Open,
    WPA2Personal,
}

/// What comes before the first network is tried.
#[derive(Debug, Clone, Copy, PartialEq, Eq, Structural)]
pub enum WifiBegin {
    /// There is a connection already.
    AlreadyConnected,
    /// WiFi has to be started.
    Start,
    /// Networks can be tried.
    Proceed,
}

/// What follows in joining a network.
#[derive(Debug, Clone, Copy, PartialEq, Eq, Structural)]
pub enum WifiNext {
    /// Try the network at this place of the list.
    Try { index: usize, auth_method: AuthMethod },
    /// Every network was tried, and none could be joined.
    AllFailed,
    /// There is no network to try.
    EmptyList,
}

/// The networks that are left to try.
#[derive(Debug, Clone, Copy, PartialEq, Eq, Structural)]
pub struct WifiConnect {
    pub next: usize,
    pub failed: bool,
}

/// What comes before the first network is tried.
pub open spec fn begin_step(connected: bool, started: bool) -> WifiBegin {
    if connected {
        WifiBegin::AlreadyConnected
    } else if !started {
        WifiBegin::Start
    } else {
        WifiBegin::Proceed
    }
}

/// What comes before the first network is tried.
pub fn wifi_begin(connected: bool, started: bool) -> (r: WifiBegin)
    ensures
        r == begin_step(connected, started),
{
    if connected {
        WifiBegin::AlreadyConnected
    } else if !started {
        WifiBegin::Start
    } else {
        WifiBegin::Proceed
    }
}

/// The first network from a place on that has a name, or the length of the list.
pub open spec fn next_candidate(list: Seq<WifiCred>, from: int) -> int
    decreases list.len() - from,
{
    if from >= list.len() {
        list.len() as int
    } else if list[from].ssid@.len() > 0 {
        from
    } else {
        next_candidate(list, from + 1)
    }
}

/// What follows when no network is left to try, where `failed` is whether one was tried.
pub open spec fn nothing_left(failed: bool) -> WifiNext {
    if failed {
        WifiNext::AllFailed
    } else {
        WifiNext::EmptyList
    }
}

/// How a network authenticates: one without a password is open.
pub open spec fn auth_of(cred: WifiCred) -> AuthMethod {
    if cred.pass@.len() == 0 {
        AuthMethod::Open
    } else {
        AuthMethod::WPA2Personal
    }
}

impl WifiConnect {
    /// No network was tried yet.
    pub fn new() -> (r: Self)
        ensures
            r == (WifiConnect { next: 0, failed: false }),
    {
        WifiConnect { next: 0, failed: false }
    }

    /// The next network to try: the first one behind those that were tried, in the order of
    /// the list, that has a name. To be called again when it could not be joined.
    pub fn connect(&mut self, wifi_list: &[WifiCred]) -> (r: WifiNext)
        ensures
            ({
                let i = next_candidate(wifi_list@, old(self).next as int);
                if i < wifi_list@.len() {
                    &&& r == (WifiNext::Try {
                        index: i as usize,
                        auth_method: auth_of(wifi_list@[i]),
                    })
                    &&& *final(self) == (WifiConnect { next: (i + 1) as usize, failed: true })
                } else {
                    &&& r == nothing_left(old(self).failed)
                    &&& *final(self) == *old(self)
                }
            }),
    {
        let mut i: usize = self.next;
        while i < wifi_list.len()
            invariant
                self.next <= i,
                *self == *old(self),
                next_candidate(wifi_list@, self.next as int) == next_candidate(
                    wifi_list@,
                    i as int,
                ),
            decreases wifi_list@.len() - i,
        {
            if !wifi_list[i].ssid.as_str().is_empty() {
                let auth_method = if wifi_list[i].pass.as_str().is_empty() {
                    AuthMethod::Open
                } else {
                    AuthMethod::WPA2Personal
                };
                self.next = i + 1;
                self.failed = true;
                return WifiNext::Try { index: i, auth_method };
            }
            i = i + 1;
        }
        if self.failed {
            WifiNext::AllFailed
        } else {
            WifiNext::EmptyList
        }
    }
}

/// The network that is tried next has a name, and every network that is passed over has
/// none: each named network is tried once, in the order of the list.
pub proof fn law_named_networks_are_tried_in_order(list: Seq<WifiCred>, from: int)
    requires
        0 <= from,
    ensures
        ({
            let i = next_candidate(list, from);
            &&& i < list.len() ==> from <= i && list[i].ssid@.len() > 0
            &&& forall|k: int| from <= k < i && k < list.len() ==> (#[trigger] list[k]).ssid@.len() == 0
        }),
    decreases list.len() - from,
{
    if from < list.len() && list[from].ssid@.len() == 0 {
        law_named_networks_are_tried_in_order(list, from + 1);
    }
}

// ---------------------------------------------------------------------------------------
// The clock
// ---------------------------------------------------------------------------------------

/// What follows a look at the time synchronisation.
#[derive(Debug, Clone, Copy, PartialEq, Eq, Structural)]
pub enum SntpNext {
    /// The clock is set.
    Done,
    /// Wait half a second, and look again.
    WaitAndLook,
    /// Wait half a second, and give up.
    WaitAndFail,
}

/// The title of the page during look number `i`: one to three dots, in turn.
pub open spec fn sync_title_text(i: int) -> Seq<char> {
    "Sync time"@ + (if i % 3 == 0 {
        seq!['.']
    } else if i % 3 == 1 {
        seq!['.', '.']
    } else {
        seq!['.', '.', '.']
    })
}

/// The title of the page during look number `i`.
pub fn sync_title(i: usize) -> (r: String)
    ensures
        r@ == sync_title_text(i as int),
{
    let mut out: String = "Sync time".to_string();
    out.push('.');
    if i % 3 >= 1 {
        out.push('.');
    }
    if i % 3 >= 2 {
        out.push('.');
    }
    assert(out@ =~= sync_title_text(i as int));
    out
}

/// What follows look number `i` at the time synchronisation.
pub open spec fn look_next(i: int, completed: bool) -> SntpNext {
    if completed {
        SntpNext::Done
    } else if i < 29 {
        SntpNext::WaitAndLook
    } else {
        SntpNext::WaitAndFail
    }
}

/// What follows look number `i` at the time synchronisation.
pub fn sync_time_next(i: usize, completed: bool) -> (r: SntpNext)
    ensures
        r == look_next(i as int, completed),
{
    if completed {
        SntpNext::Done
    } else if i < SNTP_ATTEMPTS - 1 {
        SntpNext::WaitAndLook
    } else {
        SntpNext::WaitAndFail
    }
}

/// Whether the choice after a failed synchronisation is to go on without it.
pub fn sync_failure_skips(index: usize) -> (r: bool)
    ensures
        r == (index == 1),
{
    index == 1
}

/// What the difference between the clock and the server's date leads to.
#[derive(Debug, Clone, Copy, PartialEq, Eq, Structural)]
pub enum HttpDateSyncStatus {
    /// The clock is off by so many nanoseconds and has to be set.
    NeedsSntp(u128),
    /// The clock is off by so many nanoseconds, which is let stand.
    SkipSntp(u128),
    /// The server gave no date: the clock has to be set.
    Unknown,
}

/// What the difference between the clock (`now`) and the server's date leads to, both in
/// nanoseconds since the start of 1970.
pub open spec fn date_status(server_time: Option<u128>, now: u128) -> HttpDateSyncStatus {
    match server_time {
        None => HttpDateSyncStatus::Unknown,
        Some(t) => {
            let diff = if now >= t {
                now - t
            } else {
                t - now
            };
            if diff > 15_000_000_000 {
                HttpDateSyncStatus::NeedsSntp(diff as u128)
            } else {
                HttpDateSyncStatus::SkipSntp(diff as u128)
            }
        },
    }
}

/// What the difference between the clock and the server's date leads to.
pub fn http_date_sync_status(server_time: Option<u128>, now: u128) -> (r: HttpDateSyncStatus)
    ensures
        r == date_status(server_time, now),
{
    let server_time: u128 = match server_time {
        Some(t) => t,
        None => return HttpDateSyncStatus::Unknown,
    };
    let diff: u128 = if now >= server_time {
        now - server_time
    } else {
        server_time - now
    };
    if diff > HTTP_DATE_SYNC_THRESHOLD {
        HttpDateSyncStatus::NeedsSntp(diff)
    } else {
        HttpDateSyncStatus::SkipSntp(diff)
    }
}

/// Whether the clock is set by SNTP: always but where the server's date shows it to be right.
pub open spec fn is_sntp_needed(status: Option<HttpDateSyncStatus>) -> bool {
    !(status matches Some(HttpDateSyncStatus::SkipSntp(_)))
}

/// Whether the clock is set by SNTP: always but where the server's date shows it to be right.
/// There is no status where the time zone could not be had.
pub fn sntp_needed(status: Option<HttpDateSyncStatus>) -> (r: bool)
    ensures
        r == is_sntp_needed(status),
{
    match status {
        Some(HttpDateSyncStatus::SkipSntp(_)) => false,
        Some(HttpDateSyncStatus::NeedsSntp(_)) => true,
        Some(HttpDateSyncStatus::Unknown) => true,
        None => true,
    }
}

// ---------------------------------------------------------------------------------------
// The date of an answer
// ---------------------------------------------------------------------------------------

/// Why a date cannot be read.
#[derive(Debug, Clone, Copy, PartialEq, Eq, Structural)]
pub enum HttpDateError {
    MissingDay,
    UnreadableDay,
    MissingMonth,
    InvalidMonth,
    MissingYear,
    UnreadableYear,
    MissingTime,
    MissingZone,
    UnsupportedZone,
    UnreadableHour,
    MissingMinute,
    UnreadableMinute,
    MissingSecond,
    UnreadableSecond,
    InvalidDay,
    InvalidHour,
    InvalidMinute,
    InvalidSecond,
    Overflow,
    BeforeEpoch,
}

/// The number of a month by its English short name.
pub open spec fn month_number(name: Seq<char>) -> Option<u32> {
    if name == "Jan"@ {
        Some(1u32)
    } else if name == "Feb"@ {
        Some(2u32)
    } else if name == "Mar"@ {
        Some(3u32)
    } else if name == "Apr"@ {
        Some(4u32)
    } else if name == "May"@ {
        Some(5u32)
    } else if name == "Jun"@ {
        Some(6u32)
    } else if name == "Jul"@ {
        Some(7u32)
    } else if name == "Aug"@ {
        Some(8u32)
    } else if name == "Sep"@ {
        Some(9u32)
    } else if name == "Oct"@ {
        Some(10u32)
    } else if name == "Nov"@ {
        Some(11u32)
    } else if name == "Dec"@ {
        Some(12u32)
    } else {
        None
    }
}

/// The number of a month by its English short name.
pub fn parse_http_month(month: &str) -> (r: Option<u32>)
    ensures
        r == month_number(month@),
        r matches Some(m) ==> 1 <= m <= 12,
{
    if same_text(month, "Jan") {
        Some(1)
    } else if same_text(month, "Feb") {
        Some(2)
    } else if same_text(month, "Mar") {
        Some(3)
    } else if same_text(month, "Apr") {
        Some(4)
    } else if same_text(month, "May") {
        Some(5)
    } else if same_text(month, "Jun") {
        Some(6)
    } else if same_text(month, "Jul") {
        Some(7)
    } else if same_text(month, "Aug") {
        Some(8)
    } else if same_text(month, "Sep") {
        Some(9)
    } else if same_text(month, "Oct") {
        Some(10)
    } else if same_text(month, "Nov") {
        Some(11)
    } else if same_text(month, "Dec") {
        Some(12)
    } else {
        None
    }
}

/// The unsigned 32-bit number that a text denotes.
pub open spec fn u32_of(s: Seq<char>) -> Option<u32> {
    match unsigned_value(s) {
        Some(v) => if v <= u32::MAX {
            Some(v as u32)
        } else {
            None
        },
        None => None,
    }
}

/// The signed 64-bit number that a text denotes.
pub open spec fn i64_of(s: Seq<char>) -> Option<i64> {
    match signed_value(s) {
        Some(v) => if i64::MIN <= v <= i64::MAX {
            Some(v as i64)
        } else {
            None
        },
        None => None,
    }
}

/// Hours, minutes and seconds of a text, divided by colons; what follows them is passed over.
pub open spec fn time_of(s: Seq<char>) -> Result<(u32, u32, u32), HttpDateError> {
    let parts = pieces(s, ':');
    match u32_of(parts[0]) {
        None => Err(HttpDateError::UnreadableHour),
        Some(hour) => if parts.len() < 2 {
            Err(HttpDateError::MissingMinute)
        } else {
            match u32_of(parts[1]) {
                None => Err(HttpDateError::UnreadableMinute),
                Some(minute) => if parts.len() < 3 {
                    Err(HttpDateError::MissingSecond)
                } else {
                    match u32_of(parts[2]) {
                        None => Err(HttpDateError::UnreadableSecond),
                        Some(second) => Ok((hour, minute, second)),
                    }
                },
            }
        },
    }
}

/// The seconds from the start of 1970 to a date and a time of day.
pub open spec fn seconds_at(
    year: int,
    month: int,
    day: int,
    hour: int,
    minute: int,
    second: int,
) -> int {
    day_number(year, month, day) * 86_400 + hour * 3600 + minute * 60 + second
}

/// The seconds that a date and a time of day, read from a text, come to.
pub open spec fn checked_seconds(
    year: i64,
    month: u32,
    day: u32,
    time: (u32, u32, u32),
) -> Result<u64, HttpDateError> {
    let (hour, minute, second) = time;
    let midnight = day_number(year as int, month as int, day as int) * 86_400;
    let secs = seconds_at(
        year as int,
        month as int,
        day as int,
        hour as int,
        minute as int,
        second as int,
    );
    if day < 1 || day > 31 {
        Err(HttpDateError::InvalidDay)
    } else if hour >= 24 {
        Err(HttpDateError::InvalidHour)
    } else if minute >= 60 {
        Err(HttpDateError::InvalidMinute)
    } else if second >= 60 {
        Err(HttpDateError::InvalidSecond)
    } else if midnight < i64::MIN || secs > i64::MAX {
        Err(HttpDateError::Overflow)
    } else if secs < 0 {
        Err(HttpDateError::BeforeEpoch)
    } else {
        Ok(secs as u64)
    }
}

/// The seconds from the start of 1970 that a date stands for: a weekday, which may be
/// anything, a day, a month, a year, a time of day and the zone `GMT`. What follows is passed
/// over.
pub open spec fn http_date(s: Seq<char>) -> Result<u64, HttpDateError> {
    let parts = words(s);
    if parts.len() < 2 {
        Err(HttpDateError::MissingDay)
    } else {
        match u32_of(parts[1]) {
            None => Err(HttpDateError::UnreadableDay),
            Some(day) => if parts.len() < 3 {
                Err(HttpDateError::MissingMonth)
            } else {
                match month_number(parts[2]) {
                    None => Err(HttpDateError::InvalidMonth),
                    Some(month) => if parts.len() < 4 {
                        Err(HttpDateError::MissingYear)
                    } else {
                        match i64_of(parts[3]) {
                            None => Err(HttpDateError::UnreadableYear),
                            Some(year) => if parts.len() < 5 {
                                Err(HttpDateError::MissingTime)
                            } else if parts.len() < 6 {
                                Err(HttpDateError::MissingZone)
                            } else if parts[5] != "GMT"@ {
                                Err(HttpDateError::UnsupportedZone)
                            } else {
                                match time_of(parts[4]) {
                                    Err(e) => Err(e),
                                    Ok(time) => checked_seconds(year, month, day, time),
                                }
                            },
                        }
                    },
                }
            },
        }
    }
}

fn read_time(s: &Vec<char>) -> (r: Result<(u32, u32, u32), HttpDateError>)
    ensures
        r == time_of(s@),
{
    let parts = split_pieces(s, ':');
    assert(char_views(parts@)[0] == parts@[0]@);
    let hour: u32 = match parse_u32(parts[0].as_slice()) {
        Some(v) => v,
        None => return Err(HttpDateError::UnreadableHour),
    };
    if parts.len() < 2 {
        return Err(HttpDateError::MissingMinute);
    }
    assert(char_views(parts@)[1] == parts@[1]@);
    let minute: u32 = match parse_u32(parts[1].as_slice()) {
        Some(v) => v,
        None => return Err(HttpDateError::UnreadableMinute),
    };
    if parts.len() < 3 {
        return Err(HttpDateError::MissingSecond);
    }
    assert(char_views(parts@)[2] == parts@[2]@);
    let second: u32 = match parse_u32(parts[2].as_slice()) {
        Some(v) => v,
        None => return Err(HttpDateError::UnreadableSecond),
    };
    Ok((hour, minute, second))
}

proof fn lemma_far_years(year: int, month: int, day: int)
    requires
        1 <= month <= 12,
        1 <= day <= 31,
    ensures
        year > 25_000_000_000_000_000 ==> day_number(year, month, day) * 86_400 > i64::MAX,
        year < -25_000_000_000_000_000 ==> day_number(year, month, day) * 86_400 < i64::MIN,
{
    crate::calendar::lemma_month_starts(year);
    assert(0 <= month_start(year, month) <= 366);
    if year > 25_000_000_000_000_000 {
        assert(leaps_before(year) >= 477);
        assert(year_start(year) >= 365 * (year - 1970));
    }
    if year < -25_000_000_000_000_000 {
        assert(leaps_before(year) <= 477);
        assert(year_start(year) <= 365 * (year - 1970));
    }
}

fn read_seconds(year: i64, month: u32, day: u32, time: (u32, u32, u32)) -> (r: Result<
    u64,
    HttpDateError,
>)
    requires
        1 <= month <= 12,
    ensures
        r == checked_seconds(year, month, day, time),
{
    let (hour, minute, second) = time;
    if day < 1 || day > 31 {
        return Err(HttpDateError::InvalidDay);
    }
    if hour >= 24 {
        return Err(HttpDateError::InvalidHour);
    }
    if minute >= 60 {
        return Err(HttpDateError::InvalidMinute);
    }
    if second >= 60 {
        return Err(HttpDateError::InvalidSecond);
    }
    if year > 25_000_000_000_000_000 || year < -25_000_000_000_000_000 {
        proof {
            lemma_far_years(year as int, month as int, day as int);
        }
        return Err(HttpDateError::Overflow);
    }
    let days: i64 = days_from_civil(year, month, day);
    let midnight: i64 = match days.checked_mul(86_400) {
        Some(v) => v,
        None => return Err(HttpDateError::Overflow),
    };
    let secs: i64 = match midnight.checked_add((hour * 3600 + minute * 60 + second) as i64) {
        Some(v) => v,
        None => return Err(HttpDateError::Overflow),
    };
    if secs < 0 {
        return Err(HttpDateError::BeforeEpoch);
    }
    Ok(secs as u64)
}

/// The seconds from the start of 1970 that a date stands for.
pub fn parse_http_date(date: &str) -> (r: Result<u64, HttpDateError>)
    ensures
        r == http_date(date@),
{
    let parts = split_words(date);
    let ghost all = char_views(parts@);
    if parts.len() < 2 {
        return Err(HttpDateError::MissingDay);
    }
    assert(all[1] == parts@[1]@);
    let day: u32 = match parse_u32(parts[1].as_slice()) {
        Some(v) => v,
        None => return Err(HttpDateError::UnreadableDay),
    };
    if parts.len() < 3 {
        return Err(HttpDateError::MissingMonth);
    }
    assert(all[2] == parts@[2]@);
    let month: u32 = match parse_http_month(string_of(parts[2].as_slice()).as_str()) {
        Some(v) => v,
        None => return Err(HttpDateError::InvalidMonth),
    };
    if parts.len() < 4 {
        return Err(HttpDateError::MissingYear);
    }
    assert(all[3] == parts@[3]@);
    let year: i64 = match parse_i64(parts[3].as_slice()) {
        Some(v) => v,
        None => return Err(HttpDateError::UnreadableYear),
    };
    if parts.len() < 5 {
        return Err(HttpDateError::MissingTime);
    }
    if parts.len() < 6 {
        return Err(HttpDateError::MissingZone);
    }
    assert(all[4] == parts@[4]@);
    assert(all[5] == parts@[5]@);
    if !same_text(string_of(parts[5].as_slice()).as_str(), "GMT") {
        return Err(HttpDateError::UnsupportedZone);
    }
    match read_time(&parts[4]) {
        Err(e) => Err(e),
        Ok(time) => read_seconds(year, month, day, time),
    }
}

/// A header that may be missing, by what it says.
pub open spec fn header(value: Option<&str>) -> Option<Seq<char>> {
    match value {
        Some(text) => Some(text@),
        None => None,
    }
}

/// The server's time by the date of its answer, under either spelling of the header.
pub open spec fn time_by_headers(lower: Option<Seq<char>>, upper: Option<Seq<char>>) -> Option<
    u64,
> {
    match (lower, upper) {
        (Some(date), _) => date_or_none(date),
        (None, Some(date)) => date_or_none(date),
        (None, None) => None,
    }
}

/// The server's time by the date of its answer, under either spelling of the header; a date
/// that cannot be read counts as none.
pub fn server_time(lower: Option<&str>, upper: Option<&str>) -> (r: Option<u64>)
    ensures
        r == time_by_headers(header(lower), header(upper)),
{
    let date = match lower {
        Some(date) => date,
        None => match upper {
            Some(date) => date,
            None => return None,
        },
    };
    match parse_http_date(date) {
        Ok(secs) => Some(secs),
        Err(_) => None,
    }
}

/// The seconds that a date stands for, or none.
pub open spec fn date_or_none(s: Seq<char>) -> Option<u64> {
    match http_date(s) {
        Ok(secs) => Some(secs),
        Err(_) => None,
    }
}

// ---------------------------------------------------------------------------------------
// The time zone
// ---------------------------------------------------------------------------------------

/// What the time zone service answers.
#[derive(Debug, Clone)]
pub struct TimezoneByIpResponse {
    pub status: String,
    pub message: Option<String>,
    pub timezone: String,
    pub offset: i32,
    pub query: Option<String>,
}

/// What an answer says.
pub struct TimezoneView {
    pub status: Seq<char>,
    pub message: Option<Seq<char>>,
    pub timezone: Seq<char>,
    pub offset: i32,
    pub query: Option<Seq<char>>,
}

/// A text that may be missing, by what it says.
pub open spec fn opt_view(s: Option<String>) -> Option<Seq<char>> {
    match s {
        Some(s) => Some(s@),
        None => None,
    }
}

impl View for TimezoneByIpResponse {
    type V = TimezoneView;

    open spec fn view(&self) -> TimezoneView {
        TimezoneView {
            status: self.status@,
            message: opt_view(self.message),
            timezone: self.timezone@,
            offset: self.offset,
            query: opt_view(self.query),
        }
    }
}

/// The answer that these parts make, if each is there.
pub open spec fn timezone_of_parts(
    status: Option<Seq<char>>,
    message: Option<Option<Seq<char>>>,
    timezone: Option<Seq<char>>,
    offset: Option<i32>,
    query: Option<Option<Seq<char>>>,
) -> Option<TimezoneView> {
    match (status, message, timezone, offset, query) {
        (Some(status), Some(message), Some(timezone), Some(offset), Some(query)) => Some(
            TimezoneView { status, message, timezone, offset, query },
        ),
        _ => None,
    }
}

/// The number that an object holds under a name, where it holds one.
pub open spec fn i32_member(members: Seq<(Seq<char>, Seq<char>)>, name: Seq<char>) -> Option<i32> {
    match member(members, name) {
        Member::Value(text) => json_i32(text),
        _ => None,
    }
}

/// The answer that a JSON text stands for: an object, or an array of its parts.
pub open spec fn timezone_of_json(text: Seq<char>) -> Option<TimezoneView> {
    match object_members(text) {
        Some(members) => timezone_of_parts(
            string_member(members, "status"@),
            optional_string_member(members, "message"@),
            string_member(members, "timezone"@),
            i32_member(members, "offset"@),
            optional_string_member(members, "query"@),
        ),
        None => match json_elements(text) {
            Some(e) => if e.len() == 5 {
                timezone_of_parts(
                    json_string(e[0]),
                    optional_string(e[1]),
                    json_string(e[2]),
                    json_i32(e[3]),
                    optional_string(e[4]),
                )
            } else {
                None
            },
            None => None,
        },
    }
}

fn make_timezone(
    status: Option<String>,
    message: Option<Option<String>>,
    timezone: Option<String>,
    offset: Option<i32>,
    query: Option<Option<String>>,
) -> (r: Option<TimezoneByIpResponse>)
    ensures
        r is Some == (status is Some && message is Some && timezone is Some && offset is Some
            && query is Some),
        r matches Some(t) ==> t == (TimezoneByIpResponse {
            status: status->0,
            message: message->0,
            timezone: timezone->0,
            offset: offset->0,
            query: query->0,
        }),
{
    match (status, message, timezone, offset, query) {
        (Some(status), Some(message), Some(timezone), Some(offset), Some(query)) => Some(
            TimezoneByIpResponse { status, message, timezone, offset, query },
        ),
        _ => None,
    }
}

/// Reads the answer that a JSON text stands for.
pub fn read_timezone(text: &str) -> (r: Option<TimezoneByIpResponse>)
    ensures
        match r {
            Some(t) => timezone_of_json(text@) == Some(t@),
            None => timezone_of_json(text@) is None,
        },
{
    match read_object(text) {
        Some(members) => {
            let offset = match find_member(&members, "offset") {
                Member::Value(text) => i32_value(text.as_str()),
                _ => None,
            };
            make_timezone(
                read_string_member(&members, "status"),
                read_optional_string_member(&members, "message"),
                read_string_member(&members, "timezone"),
                offset,
                read_optional_string_member(&members, "query"),
            )
        },
        None => match read_array(text) {
            Some(e) => {
                if e.len() != 5 {
                    return None;
                }
                assert(views(e@)[0] == e@[0]@);
                assert(views(e@)[1] == e@[1]@);
                assert(views(e@)[2] == e@[2]@);
                assert(views(e@)[3] == e@[3]@);
                assert(views(e@)[4] == e@[4]@);
                make_timezone(
                    string_value(e[0].as_str()),
                    read_optional_string(e[1].as_str()),
                    string_value(e[2].as_str()),
                    i32_value(e[3].as_str()),
                    read_optional_string(e[4].as_str()),
                )
            },
            None => None,
        },
    }
}

/// Adds what was read to an answer; tells whether the answer is still small enough.
pub fn take_body(body: &mut Vec<u8>, chunk: &[u8]) -> (r: bool)
    ensures
        final(body)@ == old(body)@ + chunk@,
        r == (final(body)@.len() <= 2048),
{
    body.extend_from_slice(chunk);
    body.len() <= TIMEZONE_BODY_LIMIT
}

/// The answer that the bytes of a body stand for.
pub fn parse_timezone_body(body: &[u8]) -> (r: Option<TimezoneByIpResponse>)
    ensures
        match r {
            Some(t) => valid_utf8(body@) && timezone_of_json(decode_utf8(body@)) == Some(t@),
            None => !valid_utf8(body@) || timezone_of_json(decode_utf8(body@)) is None,
        },
{
    match utf8_text(body) {
        Some(text) => read_timezone(text.as_str()),
        None => None,
    }
}

/// Whether an answer came with success.
pub fn is_http_ok(status: u16) -> (r: bool)
    ensures
        r == (status == 200),
{
    status == 200
}

/// What an answer of the time zone service leads to.
#[derive(Debug, Clone, Copy, PartialEq, Eq, Structural)]
pub enum TimezoneNext {
    /// The service did not succeed.
    Refused,
    /// Use this offset, in seconds, and keep it where it is not the one that is kept.
    Use { offset: i32, save: bool },
}

/// What an answer of the time zone service leads to, where `current` is the offset that is
/// kept.
pub open spec fn zone_next(status: Seq<char>, offset: i32, current: Option<i32>) -> TimezoneNext {
    if status != "success"@ {
        TimezoneNext::Refused
    } else {
        TimezoneNext::Use { offset, save: current != Some(offset) }
    }
}

/// What an answer of the time zone service leads to.
pub fn timezone_next(response: &TimezoneByIpResponse, current: Option<i32>) -> (r: TimezoneNext)
    ensures
        r == zone_next(response.status@, response.offset, current),
{
    if !same_text(response.status.as_str(), "success") {
        return TimezoneNext::Refused;
    }
    let unchanged = match current {
        Some(offset) => offset == response.offset,
        None => false,
    };
    TimezoneNext::Use { offset: response.offset, save: !unchanged }
}

/// A number of seconds in whole hours, rounded towards zero.
pub open spec fn whole_hours(offset: int) -> int {
    if offset >= 0 {
        offset / 3600
    } else {
        -((-offset) / 3600)
    }
}

/// What is shown of a time zone: its name, and below it its offset in hours.
pub fn timezone_text(timezone: &str, offset: i32) -> (r: String)
    ensures
        r@ == timezone@ + "\nUTC"@ + signed_text(whole_hours(offset as int)),
{
    let wide: i64 = offset as i64;
    let hours: i64 = if wide >= 0 {
        wide / 3600
    } else {
        -((-wide) / 3600)
    };
    let mut out: String = timezone.to_string();
    out.append("\nUTC");
    out.append(signed_string(hours as i32).as_str());
    out
}

/// What is shown during an attempt to ask for the time zone.
pub fn timezone_attempt_text(attempt: usize) -> (r: String)
    ensures
        r@ == "Attempt "@ + dec(attempt as nat) + "/3"@,
{
    let mut out: String = "Attempt ".to_string();
    out.append(dec_string(attempt as u64).as_str());
    out.append("/3");
    out
}

/// Whether to wait and ask again after a failed attempt, counted from one.
pub fn timezone_retry(attempt: usize) -> (r: bool)
    ensures
        r == (attempt < 3),
{
    attempt < TIMEZONE_BY_IP_ATTEMPTS
}

// ---------------------------------------------------------------------------------------
// Laws of dates
// ---------------------------------------------------------------------------------------

/// The names of the months in the order of the calendar, three letters each.
pub open spec fn month_names() -> Seq<char> {
    "JanFebMarAprMayJunJulAugSepOctNovDec"@
}

/// The name of a month, counted from one.
pub open spec fn month_name(month: int) -> Seq<char> {
    month_names().subrange(3 * (month - 1), 3 * month)
}

proof fn lemma_month_names()
    ensures
        month_names().len() == 36,
        month_name(1) == "Jan"@ && month_name(2) == "Feb"@ && month_name(3) == "Mar"@,
        month_name(4) == "Apr"@ && month_name(5) == "May"@ && month_name(6) == "Jun"@,
        month_name(7) == "Jul"@ && month_name(8) == "Aug"@ && month_name(9) == "Sep"@,
        month_name(10) == "Oct"@ && month_name(11) == "Nov"@ && month_name(12) == "Dec"@,
{
    reveal_strlit("JanFebMarAprMayJunJulAugSepOctNovDec");
    reveal_strlit("Jan");
    reveal_strlit("Feb");
    reveal_strlit("Mar");
    reveal_strlit("Apr");
    reveal_strlit("May");
    reveal_strlit("Jun");
    reveal_strlit("Jul");
    reveal_strlit("Aug");
    reveal_strlit("Sep");
    reveal_strlit("Oct");
    reveal_strlit("Nov");
    reveal_strlit("Dec");
    assert(month_name(1) =~= "Jan"@);
    assert(month_name(2) =~= "Feb"@);
    assert(month_name(3) =~= "Mar"@);
    assert(month_name(4) =~= "Apr"@);
    assert(month_name(5) =~= "May"@);
    assert(month_name(6) =~= "Jun"@);
    assert(month_name(7) =~= "Jul"@);
    assert(month_name(8) =~= "Aug"@);
    assert(month_name(9) =~= "Sep"@);
    assert(month_name(10) =~= "Oct"@);
    assert(month_name(11) =~= "Nov"@);
    assert(month_name(12) =~= "Dec"@);
}

proof fn lemma_month_names_differ(a: int, b: int)
    requires
        1 <= a <= 12,
        1 <= b <= 12,
        month_name(a) == month_name(b),
    ensures
        a == b,
{
    reveal_strlit("JanFebMarAprMayJunJulAugSepOctNovDec");
    let names = month_names();
    assert(month_name(a)[0] == names[3 * (a - 1)] && month_name(b)[0] == names[3 * (b - 1)]);
    assert(month_name(a)[1] == names[3 * (a - 1) + 1]);
    assert(month_name(b)[1] == names[3 * (b - 1) + 1]);
    assert(month_name(a)[2] == names[3 * (a - 1) + 2]);
    assert(month_name(b)[2] == names[3 * (b - 1) + 2]);
}

/// The months are numbered in the order of the calendar: the name at each place of the one
/// list of names has the number of that place, and no other text is the name of a month.
pub proof fn law_months_are_numbered_in_order(name: Seq<char>, month: int)
    requires
        1 <= month <= 12,
    ensures
        month_number(month_name(month)) == Some(month as u32),
        month_number(name) matches Some(m) ==> 1 <= m <= 12 && name == month_name(m as int),
{
    lemma_month_names();
    let found = month_number(month_name(month));
    assert(found is Some);
    assert(month_name(found->0 as int) == month_name(month));
    lemma_month_names_differ(found->0 as int, month);
}

/// A date as a server writes it: weekday, day, month, year, time of day and zone.
pub open spec fn date_text(
    weekday: Seq<char>,
    date: (int, int, int),
    time: (int, int, int),
) -> Seq<char> {
    weekday + seq![' '] + (zero_padded(dec(date.2 as nat), 2) + seq![' '] + (month_name(date.1)
        + seq![' '] + (dec(date.0 as nat) + seq![' '] + (time_text(time) + seq![' '] + "GMT"@))))
}

/// A time of day: hours, minutes and seconds of two digits each, divided by colons.
pub open spec fn time_text(time: (int, int, int)) -> Seq<char> {
    zero_padded(dec(time.0 as nat), 2) + seq![':'] + (zero_padded(dec(time.1 as nat), 2)
        + seq![':'] + zero_padded(dec(time.2 as nat), 2))
}

proof fn lemma_time_text(time: (int, int, int))
    requires
        0 <= time.0 < 24,
        0 <= time.1 < 60,
        0 <= time.2 < 60,
    ensures
        is_word(time_text(time)),
        time_of(time_text(time)) == Ok::<(u32, u32, u32), HttpDateError>(
            (time.0 as u32, time.1 as u32, time.2 as u32),
        ),
{
    let h = zero_padded(dec(time.0 as nat), 2);
    let m = zero_padded(dec(time.1 as nat), 2);
    let s = zero_padded(dec(time.2 as nat), 2);
    law_two_digits_read_back(time.0 as nat);
    law_two_digits_read_back(time.1 as nat);
    law_two_digits_read_back(time.2 as nat);
    assert(is_digit(h[0]) && is_digit(h[1]));
    assert(is_digit(m[0]) && is_digit(m[1]));
    assert(is_digit(s[0]) && is_digit(s[1]));
    law_pieces_are_split_at_marks(h, m + seq![':'] + s, ':');
    law_pieces_are_split_at_marks(m, s, ':');
    law_pieces_are_split_at_marks(s, Seq::empty(), ':');
    let parts = pieces(time_text(time), ':');
    assert(parts =~= seq![h, m, s]);
    let t = time_text(time);
    assert(t.len() == 8);
    assert(t[0] == h[0] && t[1] == h[1] && t[2] == ':' && t[3] == m[0] && t[4] == m[1] && t[5]
        == ':' && t[6] == s[0] && t[7] == s[1]);
}

/// A date that is written from its parts reads back as the seconds from the start of 1970 to
/// those parts: for every month, every day of it, and every time of day.
pub proof fn law_written_date_reads_back(
    weekday: Seq<char>,
    date: (int, int, int),
    time: (int, int, int),
)
    requires
        is_word(weekday),
        1970 <= date.0 <= 9999,
        is_date(date.0, date.1, date.2),
        0 <= time.0 < 24,
        0 <= time.1 < 60,
        0 <= time.2 < 60,
    ensures
        http_date(date_text(weekday, date, time)) == Ok::<u64, HttpDateError>(
            (day_number(date.0, date.1, date.2) * 86_400 + (time.0 * 60 + time.1) * 60
                + time.2) as u64,
        ),
        day_number(date.0, date.1, date.2) >= 0,
{
    let (year, month, day) = date;
    let d = zero_padded(dec(day as nat), 2);
    let n = month_name(month);
    let y = dec(year as nat);
    let t = time_text(time);
    let z = "GMT"@;
    lemma_month_lens(year, month);
    law_two_digits_read_back(day as nat);
    law_decimal_reads_back(year as nat);
    law_months_are_numbered_in_order(n, month);
    lemma_month_name_is_word(month);
    lemma_time_text(time);
    reveal_strlit("GMT");
    assert(is_word(z));
    assert forall|i: int| 0 <= i < d.len() implies !is_ascii_space(#[trigger] d[i]) by {
        assert(is_digit(d[i]));
    }
    assert forall|i: int| 0 <= i < y.len() implies !is_ascii_space(#[trigger] y[i]) by {
        assert(is_digit(y[i]));
    }
    let r4 = t + seq![' '] + z;
    let r3 = y + seq![' '] + r4;
    let r2 = n + seq![' '] + r3;
    let r1 = d + seq![' '] + r2;
    law_words_are_split_at_spaces(weekday, r1);
    law_words_are_split_at_spaces(d, r2);
    law_words_are_split_at_spaces(n, r3);
    law_words_are_split_at_spaces(y, r4);
    law_words_are_split_at_spaces(t, z);
    law_words_are_split_at_spaces(z, Seq::empty());
    let parts = words(date_text(weekday, date, time));
    assert(parts =~= seq![weekday, d, n, y, t, z]);
    assert(is_digit(y[0]));
    assert(signed_value(y) == Some(year));
    lemma_date_is_after_epoch(year, month, day);
}

proof fn lemma_month_lens(year: int, month: int)
    requires
        1 <= month <= 12,
    ensures
        28 <= month_len(year, month) <= 31,
{
}

proof fn lemma_month_name_is_word(month: int)
    requires
        1 <= month <= 12,
    ensures
        is_word(month_name(month)),
{
    reveal_strlit("JanFebMarAprMayJunJulAugSepOctNovDec");
    let names = month_names();
    let n = month_name(month);
    assert(names.len() == 36);
    assert forall|i: int| 0 <= i < names.len() implies !is_ascii_space(#[trigger] names[i]) by {}
    assert forall|i: int| 0 <= i < n.len() implies !is_ascii_space(#[trigger] n[i]) by {
        assert(n[i] == names[3 * (month - 1) + i]);
    }
}

proof fn lemma_date_is_after_epoch(year: int, month: int, day: int)
    requires
        1970 <= year <= 9999,
        is_date(year, month, day),
    ensures
        0 <= day_number(year, month, day) <= 4_000_000,
{
    crate::calendar::lemma_month_starts(year);
    assert(0 <= month_start(year, month) <= 366);
    assert(477 <= leaps_before(year) <= 2500);
}

// ---------------------------------------------------------------------------------------
// Laws of joining a network and setting the clock
// ---------------------------------------------------------------------------------------

/// The networks that are tried from a place of the list on, until one can be joined.
pub open spec fn tries(list: Seq<WifiCred>, from: int) -> Seq<int>
    decreases list.len() - from,
{
    let i = next_candidate(list, from);
    if from < 0 || i < from || i >= list.len() {
        Seq::empty()
    } else {
        seq![i] + tries(list, i + 1)
    }
}

/// Every network that has a name is tried, and no other, each once and in the order of the
/// list.
pub proof fn law_every_named_network_is_tried(list: Seq<WifiCred>, from: int)
    requires
        0 <= from,
    ensures
        forall|k: int|
            from <= k < list.len() ==> (#[trigger] list[k].ssid@.len() > 0 <==> tries(
                list,
                from,
            ).contains(k)),
        forall|a: int| 0 <= a < tries(list, from).len() ==> from <= #[trigger] tries(list, from)[a]
            < list.len(),
        forall|a: int, b: int|
            0 <= a < b < tries(list, from).len() ==> #[trigger] tries(list, from)[a]
                < #[trigger] tries(list, from)[b],
    decreases list.len() - from,
{
    law_named_networks_are_tried_in_order(list, from);
    let i = next_candidate(list, from);
    if i < list.len() {
        law_every_named_network_is_tried(list, i + 1);
        let all = tries(list, from);
        let rest = tries(list, i + 1);
        assert(all =~= seq![i] + rest);
        assert forall|k: int| from <= k < list.len() implies (#[trigger] list[k].ssid@.len() > 0
            <==> all.contains(k)) by {
            if k == i {
                assert(all[0] == k);
            } else if k > i {
                if rest.contains(k) {
                    let a = choose|a: int| 0 <= a < rest.len() && rest[a] == k;
                    assert(all[a + 1] == k);
                }
                if all.contains(k) {
                    let a = choose|a: int| 0 <= a < all.len() && all[a] == k;
                    assert(rest[a - 1] == k);
                }
            } else {
                assert(list[k].ssid@.len() == 0);
            }
        }
    } else {
        assert(tries(list, from) =~= Seq::empty());
    }
}

/// How a network authenticates follows from its password alone: an empty one is none.
pub proof fn law_open_networks_have_no_password(cred: WifiCred)
    ensures
        auth_of(cred) == AuthMethod::Open <==> cred.pass@ == Seq::<char>::empty(),
        auth_of(cred) == AuthMethod::WPA2Personal <==> cred.pass@.len() > 0,
{
    assert(cred.pass@.len() == 0 ==> cred.pass@ =~= Seq::<char>::empty());
}

/// Whether the clock is set depends on how far it is off alone, whichever way: by more than
/// fifteen seconds it is, by less it is not, and without a date it is.
pub proof fn law_clock_is_set_when_it_is_off(a: u128, b: u128)
    ensures
        date_status(Some(a), b) == date_status(Some(b), a),
        date_status(Some(a), a) == HttpDateSyncStatus::SkipSntp(0),
        is_sntp_needed(Some(date_status(Some(a), b))) <==> a > b + 15 * 1_000_000_000 || b > a + 15
            * 1_000_000_000,
        is_sntp_needed(Some(date_status(None, b))),
        is_sntp_needed(None),
        date_status(Some(a), b) matches HttpDateSyncStatus::NeedsSntp(d) ==> a + d == b || b + d
            == a,
        date_status(Some(a), b) matches HttpDateSyncStatus::SkipSntp(d) ==> a + d == b || b + d
            == a,
{
}

/// The shown hours of a time zone lie between zero and its offset, and less than an hour from
/// it.
pub proof fn law_hours_are_those_of_the_offset(offset: int)
    ensures
        offset >= 0 ==> 0 <= whole_hours(offset) && 0 <= offset - 3600 * whole_hours(offset)
            < 3600,
        offset < 0 ==> whole_hours(offset) <= 0 && -3600 < offset - 3600 * whole_hours(offset)
            <= 0,
        whole_hours(-offset) == -whole_hours(offset),
{
}

/// Networks are tried only without a connection, and WiFi is started before the first one is
/// tried, once. When none is left, that none could be joined is told apart from there being none.
pub proof fn law_wifi_is_started_before_networks_are_tried(connected: bool, started: bool)
    ensures
        begin_step(connected, started) == WifiBegin::AlreadyConnected <==> connected,
        begin_step(connected, started) == WifiBegin::Proceed <==> !connected && started,
        begin_step(connected, started) == WifiBegin::Start <==> !connected && !started,
        nothing_left(true) == WifiNext::AllFailed && nothing_left(false) == WifiNext::EmptyList,
{
}

/// The clock's synchronisation is looked at thirty times at most, and given up only then; it
/// is done as soon as it is seen to be complete.
pub proof fn law_clock_is_looked_at_thirty_times(i: int, completed: bool)
    requires
        0 <= i < 30,
    ensures
        look_next(i, completed) == SntpNext::Done <==> completed,
        look_next(i, completed) == SntpNext::WaitAndFail <==> !completed && i + 1 == 30,
        look_next(i, completed) == SntpNext::WaitAndLook <==> !completed && i + 1 < 30,
{
}

/// An answer of the time zone service is used if and only if it says success, with the offset
/// that it gives, and that is kept unless it is kept already.
pub proof fn law_time_zone_is_used_as_given(status: Seq<char>, offset: i32, current: Option<i32>)
    ensures
        zone_next(status, offset, current) == TimezoneNext::Refused <==> status != "success"@,
        zone_next(status, offset, current) matches TimezoneNext::Use { offset: used, save } ==> {
            &&& used == offset
            &&& save <==> !(current matches Some(kept) && kept == offset)
        },
{
}

/// The answer of the time zone service is told by its members' names, whatever their order.
pub proof fn law_time_zone_is_read_by_its_names(
    text: Seq<char>,
    status: Seq<char>,
    zone: Seq<char>,
    offset: Seq<char>,
)
    requires
        json_string(status) is Some,
        json_string(zone) is Some,
        json_i32(offset) is Some,
        ({
            ||| object_members(text) == Some(
                seq![("status"@, status), ("timezone"@, zone), ("offset"@, offset)],
            )
            ||| object_members(text) == Some(
                seq![("offset"@, offset), ("timezone"@, zone), ("status"@, status)],
            )
        }),
    ensures
        timezone_of_json(text) == Some(
            TimezoneView {
                status: json_string(status)->0,
                message: None,
                timezone: json_string(zone)->0,
                offset: json_i32(offset)->0,
                query: None,
            },
        ),
{
    reveal_strlit("status");
    reveal_strlit("message");
    reveal_strlit("timezone");
    reveal_strlit("offset");
    reveal_strlit("query");
    assert("status"@[0] == 's' && "message"@[0] == 'm' && "timezone"@[0] == 't');
    assert("offset"@[0] == 'o' && "query"@[0] == 'q');
    let m = object_members(text)->0;
    assert(m.drop_last() =~= seq![m[0], m[1]]);
    assert(m.drop_last().drop_last() =~= seq![m[0]]);
    assert(m.drop_last().drop_last().drop_last() =~= Seq::<(Seq<char>, Seq<char>)>::empty());
    reveal_with_fuel(member, 5);
}

/// A time of day or a day that there is not is refused, and one that there is counts in full:
/// an hour later is 3600 seconds more, a minute 60, a second one, and a day 86400.
pub proof fn law_times_count_in_full(
    year: i64,
    month: u32,
    day: u32,
    hour: u32,
    minute: u32,
    second: u32,
)
    requires
        1970 <= year <= 9999,
        1 <= month <= 12,
    ensures
        ({
            let r = checked_seconds(year, month, day, (hour, minute, second));
            let midnight = checked_seconds(year, month, day, (0, 0, 0));
            &&& r is Ok <==> 1 <= day <= 31 && hour < 24 && minute < 60 && second < 60
            &&& r matches Ok(secs) ==> (midnight matches Ok(start) && secs == start + 3600 * hour
                + 60 * minute + second)
            &&& r is Ok && day < 31 ==> checked_seconds(
                year,
                month,
                (day + 1) as u32,
                (hour, minute, second),
            ) == Ok::<u64, HttpDateError>((r->Ok_0 + 86_400) as u64)
            &&& day < 1 || day > 31 ==> r == Err::<u64, HttpDateError>(HttpDateError::InvalidDay)
            &&& 1 <= day <= 31 && hour >= 24 ==> r == Err::<u64, HttpDateError>(
                HttpDateError::InvalidHour,
            )
        }),
{
    crate::calendar::lemma_month_starts(year as int);
    assert(0 <= month_start(year as int, month as int) <= 366);
    assert(477 <= leaps_before(year as int) <= 2500);
}

/// A date in another zone than `GMT` is refused, whatever else it says.
pub proof fn law_other_zones_are_refused(parts: Seq<Seq<char>>, s: Seq<char>)
    requires
        words(s) == parts,
        parts.len() >= 6,
        parts[5] != "GMT"@,
    ensures
        http_date(s) is Err,
        u32_of(parts[1]) is Some && month_number(parts[2]) is Some && i64_of(parts[3]) is Some
            ==> http_date(s) == Err::<u64, HttpDateError>(HttpDateError::UnsupportedZone),
{
}

/// The date of an answer counts under either spelling of its header, alike; without one, or
/// with one that cannot be read, there is no time.
pub proof fn law_date_counts_under_either_spelling(date: Seq<char>, other: Option<Seq<char>>)
    ensures
        time_by_headers(Some(date), None) == time_by_headers(None, Some(date)),
        time_by_headers(Some(date), other) == time_by_headers(Some(date), None),
        time_by_headers(None, None) is None,
        http_date(date) matches Ok(secs) ==> time_by_headers(Some(date), other) == Some(secs),
        http_date(date) is Err ==> time_by_headers(Some(date), other) is None,
{
}

} // verus!
