use vstd::prelude::*;
use vstd::string::*;

use crate::text::{
    all_digits, chars_of, digit_value, digits_value, is_whitespace, lemma_run_len, lemma_trailing_ws_len,
    parse_u32, parse_u32_in, run_accepts, run_len, scan_run, split_once, trailing_ws_len, trim,
    trim_bounds, trim_start, unsigned_digits, Run,
};

verus! {

/// Minutes in a day.
pub const MINUTES_PER_DAY: u32 = 1440;

/// A wall-clock time of day, `HH:MM`, as minutes since midnight.
#[derive(Debug, Clone, Copy, PartialEq, Eq, Structural)]
pub struct ClockTime {
    pub minutes: u32,
}

/// What `format!("{:?}", s)` produces for the string `s`: `s` in double quotes, with
/// Rust's debug escapes applied to its characters.
pub uninterp spec fn debug_quoted(s: Seq<char>) -> Seq<char>;

/// Calls `<str as Debug>::fmt` through `format!`; its result is named `debug_quoted`.
#[verifier::external_body]
fn quote_debug(s: &str) -> (res: String)
    ensures
        res@ == debug_quoted(s@),
{
    format!("{s:?}")
}

/// What parsing `s` as `HH:MM` gives: the time, or the error message.
///
/// The hour and the minute are the trimmed text on either side of the first `:`, each read
/// as a `u32`; a time of day has an hour of at most 23 and a minute of at most 59.
pub open spec fn clock_time_of(s: Seq<char>) -> Result<ClockTime, Seq<char>> {
    match split_once(s, ':') {
        None => Err("expected HH:MM, got "@ + debug_quoted(s)),
        Some((hour_text, minute_text)) => match parse_u32(trim(hour_text)) {
            None => Err("bad hour in "@ + debug_quoted(s)),
            Some(hour) => match parse_u32(trim(minute_text)) {
                None => Err("bad minute in "@ + debug_quoted(s)),
                Some(minute) => if hour > 23 || minute > 59 {
                    Err(debug_quoted(s) + " is not a time of day"@)
                } else {
                    Ok(ClockTime { minutes: (hour * 60 + minute) as u32 })
                },
            },
        },
    }
}

/// The two-digit decimal text of `n < 100`, with a leading zero below ten.
pub open spec fn two_digits(n: nat) -> Seq<char> {
    seq![((0x30 + n / 10) as u32) as char, ((0x30 + n % 10) as u32) as char]
}

proof fn lemma_two_digits_parse(n: nat)
    requires
        n < 100,
    ensures
        trim(two_digits(n)) == two_digits(n),
        parse_u32(trim(two_digits(n))) == Some(n as u32),
        two_digits(n)[0] != ':',
        two_digits(n)[1] != ':',
{
    let t = two_digits(n);
    let hi = ((0x30 + n / 10) as u32) as char;
    let lo = ((0x30 + n % 10) as u32) as char;
    assert(hi as u32 == 0x30 + n / 10);
    assert(lo as u32 == 0x30 + n % 10);
    assert(t[0] == hi && t[1] == lo);
    assert(!is_whitespace(hi) && !is_whitespace(lo));
    lemma_run_len(t, Run::Whitespace, 0);
    assert(trim_start(t) =~= t);
    lemma_trailing_ws_len(t, 2);
    assert(trailing_ws_len(t) == 0);
    assert(trim(t) =~= t);
    assert(unsigned_digits(t) == t);
    assert(all_digits(t));
    assert(t.drop_last() =~= seq![hi]);
    let single = seq![hi];
    assert(single.drop_last() =~= Seq::<char>::empty());
    assert(single.last() == hi);
    assert(digits_value(Seq::<char>::empty()) == 0);
    assert(digits_value(single) == digits_value(single.drop_last()) * 10 + digit_value(hi));
    assert(digits_value(single) == n / 10);
    assert(t.last() == lo);
    assert(digits_value(t) == n / 10 * 10 + n % 10);
}

/// Every time of day written `HH:MM` with two-digit fields parses to that time.
pub proof fn law_two_digit_times_parse(hour: nat, minute: nat)
    requires
        hour <= 23,
        minute <= 59,
    ensures
        clock_time_of(two_digits(hour) + seq![':'] + two_digits(minute)) == Ok::<
            ClockTime,
            Seq<char>,
        >(ClockTime { minutes: (hour * 60 + minute) as u32 }),
{
    let h = two_digits(hour);
    let m = two_digits(minute);
    let s = h + seq![':'] + m;
    lemma_two_digits_parse(hour);
    lemma_two_digits_parse(minute);
    assert(s[0] == h[0] && s[1] == h[1] && s[2] == ':');
    assert forall|k: int| 0 <= k < 2 implies run_accepts(Run::Until(':'), #[trigger] s[k]) by {
        assert(s[k] == h[k]);
    }
    lemma_run_len(s, Run::Until(':'), 2);
    assert(s.subrange(0, 2) =~= h);
    assert(s.subrange(3, s.len() as int) =~= m);
}

/// Whatever parses is a time of day: less than a day after midnight.
pub proof fn law_parsed_times_are_times_of_day(s: Seq<char>)
    ensures
        clock_time_of(s) matches Ok(time) ==> time.minutes < MINUTES_PER_DAY,
{
}

/// Text parses as a clock time exactly when it has a colon, the trimmed text on either side
/// reads as a number, the hour is at most 23 and the minute at most 59; the time is then
/// `hour * 60 + minute` minutes after midnight.
pub proof fn law_clock_time_needs_valid_fields(s: Seq<char>)
    ensures
        clock_time_of(s) is Ok <==> (split_once(s, ':') matches Some((hour_text, minute_text))
            && parse_u32(trim(hour_text)) matches Some(hour) && parse_u32(trim(minute_text)) matches Some(
            minute,
        ) && hour <= 23 && minute <= 59),
        split_once(s, ':') matches Some((hour_text, minute_text)) ==> (parse_u32(
            trim(hour_text),
        ) matches Some(hour) ==> (parse_u32(trim(minute_text)) matches Some(minute) ==> (
        clock_time_of(s) matches Ok(time) ==> time.minutes == hour * 60 + minute))),
{
}

impl ClockTime {
    /// The time `hour:minute`.
    pub fn new(hour: u32, minute: u32) -> (res: Self)
        requires
            hour * 60 + minute <= u32::MAX,
        ensures
            res.minutes == hour * 60 + minute,
    {
        Self { minutes: hour * 60 + minute }
    }

    /// Parses `HH:MM`, such as `"23:30"` or `" 6 : 45 "`.
    pub fn parse(s: &str) -> (res: Result<ClockTime, String>)
        ensures
            match res {
                Ok(time) => clock_time_of(s@) == Ok::<ClockTime, Seq<char>>(time),
                Err(message) => clock_time_of(s@) == Err::<ClockTime, Seq<char>>(message@),
            },
    {
        let v = chars_of(s);
        let len = v.len();
        assert(v@.subrange(0, len as int) =~= s@);
        let colon = scan_run(&v, 0, len, Run::Until(':'));
        if colon == len {
            let mut message = "expected HH:MM, got ".to_owned();
            message.append(quote_debug(s).as_str());
            return Err(message);
        }
        let ghost (hour_text, minute_text) = split_once(s@, ':')->0;
        assert(v@.subrange(0, colon as int) =~= hour_text);
        assert(v@.subrange(colon + 1, len as int) =~= minute_text);
        let (hour_lo, hour_hi) = trim_bounds(&v, 0, colon);
        let hour = match parse_u32_in(&v, hour_lo, hour_hi) {
            Some(hour) => hour,
            None => {
                let mut message = "bad hour in ".to_owned();
                message.append(quote_debug(s).as_str());
                return Err(message);
            },
        };
        let (minute_lo, minute_hi) = trim_bounds(&v, colon + 1, len);
        let minute = match parse_u32_in(&v, minute_lo, minute_hi) {
            Some(minute) => minute,
            None => {
                let mut message = "bad minute in ".to_owned();
                message.append(quote_debug(s).as_str());
                return Err(message);
            },
        };
        if hour > 23 || minute > 59 {
            let mut message = quote_debug(s);
            message.append(" is not a time of day");
            return Err(message);
        }
        Ok(Self::new(hour, minute))
    }
}

impl std::str::FromStr for ClockTime {
    type Err = String;

    fn from_str(s: &str) -> (res: Result<Self, Self::Err>)
        ensures
            match res {
                Ok(time) => clock_time_of(s@) == Ok::<ClockTime, Seq<char>>(time),
                Err(message) => clock_time_of(s@) == Err::<ClockTime, Seq<char>>(message@),
            },
    {
        Self::parse(s)
    }
}

} // verus!
