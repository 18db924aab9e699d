//! Quota readings: what the statusline input says of the two quota windows.

use serde_json::Value;
use vstd::prelude::*;
use vstd::string::*;
use crate::domain::{LimitWindow, RateLimitSnapshot};
use crate::json;
use crate::text;

verus! {

/// One JSON value, as far as a quota reading can use it. `T` is the type of
/// text: `String` in values, `Seq<char>` in contracts.
#[derive(Debug)]
pub enum Reading<T> {
    /// A whole number from zero on.
    Unsigned(u64),
    /// A whole number below zero.
    Negative(i64),
    Text(T),
    /// Anything else.
    Other,
}

/// The four quota readings of a statusline input, each where it is there.
#[derive(Debug)]
pub struct LimitReadings<T> {
    pub five_hour_used: Option<Reading<T>>,
    pub five_hour_reset: Option<Reading<T>>,
    pub seven_day_used: Option<Reading<T>>,
    pub seven_day_reset: Option<Reading<T>>,
}

/// What the client tells a statusline command, as far as it is used.
#[derive(Debug)]
pub struct StatuslineInput<T> {
    /// The quota readings, where the input speaks of quotas.
    pub rate_limits: Option<LimitReadings<T>>,
}

impl View for Reading<String> {
    type V = Reading<Seq<char>>;

    open spec fn view(&self) -> Reading<Seq<char>> {
        match *self {
            Reading::Unsigned(n) => Reading::Unsigned(n),
            Reading::Negative(n) => Reading::Negative(n),
            Reading::Text(text) => Reading::Text(text@),
            Reading::Other => Reading::Other,
        }
    }
}

/// The view of an optional reading.
pub open spec fn reading_view(reading: Option<Reading<String>>) -> Option<Reading<Seq<char>>> {
    match reading {
        Some(reading) => Some(reading@),
        None => None,
    }
}

impl View for LimitReadings<String> {
    type V = LimitReadings<Seq<char>>;

    open spec fn view(&self) -> LimitReadings<Seq<char>> {
        LimitReadings {
            five_hour_used: reading_view(self.five_hour_used),
            five_hour_reset: reading_view(self.five_hour_reset),
            seven_day_used: reading_view(self.seven_day_used),
            seven_day_reset: reading_view(self.seven_day_reset),
        }
    }
}

impl View for StatuslineInput<String> {
    type V = StatuslineInput<Seq<char>>;

    open spec fn view(&self) -> StatuslineInput<Seq<char>> {
        StatuslineInput {
            rate_limits: match self.rate_limits {
                Some(readings) => Some(readings@),
                None => None,
            },
        }
    }
}

/// The percentage that a reading gives: a number below 256, or a text that
/// writes one.
pub open spec fn percentage_of(reading: Option<Reading<Seq<char>>>) -> Option<int> {
    match reading {
        Some(Reading::Unsigned(n)) => text::within(Some(n as int), 0, 255),
        Some(Reading::Text(text)) => text::within(text::parse_integer(text, false), 0, 255),
        _ => None,
    }
}

/// The time that a reading gives: a 64-bit signed number, or a text that writes
/// one.
pub open spec fn time_of(reading: Option<Reading<Seq<char>>>) -> Option<int> {
    let low = i64::MIN as int;
    let high = i64::MAX as int;
    match reading {
        Some(Reading::Unsigned(n)) => text::within(Some(n as int), low, high),
        Some(Reading::Negative(n)) => text::within(Some(n as int), low, high),
        Some(Reading::Text(text)) => text::within(text::parse_integer(text, true), low, high),
        _ => None,
    }
}

/// The percentage that a reading gives.
pub fn value_to_u8(value: Option<&Reading<String>>) -> (r: Option<u8>)
    ensures
        match r {
            Some(n) => value is Some && percentage_of(Some(value->0@)) == Some(n as int),
            None => value is Some ==> percentage_of(Some(value->0@)) is None,
        },
{
    match value {
        Some(Reading::Unsigned(n)) => if *n <= 255 {
            Some(*n as u8)
        } else {
            None
        },
        Some(Reading::Text(text)) => text::parse_u8(text.as_str()),
        _ => None,
    }
}

/// The time that a reading gives.
pub fn value_to_i64(value: Option<&Reading<String>>) -> (r: Option<i64>)
    ensures
        match r {
            Some(n) => value is Some && time_of(Some(value->0@)) == Some(n as int),
            None => value is Some ==> time_of(Some(value->0@)) is None,
        },
{
    match value {
        Some(Reading::Unsigned(n)) => if *n <= i64::MAX as u64 {
            Some(*n as i64)
        } else {
            None
        },
        Some(Reading::Negative(n)) => Some(*n),
        Some(Reading::Text(text)) => text::parse_i64(text.as_str()),
        _ => None,
    }
}

/// Whether `window` holds what the two readings give.
pub open spec fn is_window(
    window: LimitWindow,
    used: Option<Reading<Seq<char>>>,
    reset: Option<Reading<Seq<char>>>,
) -> bool {
    &&& match window.used_percentage {
        Some(n) => percentage_of(used) == Some(n as int),
        None => percentage_of(used) is None,
    }
    &&& match window.resets_at {
        Some(n) => time_of(reset) == Some(n as int),
        None => time_of(reset) is None,
    }
}

/// Whether `snapshot` holds what `readings` give, seen at `now`.
pub open spec fn is_snapshot(
    snapshot: RateLimitSnapshot,
    readings: LimitReadings<Seq<char>>,
    now: u64,
) -> bool {
    &&& snapshot.detected_at == now
    &&& is_window(snapshot.five_hour, readings.five_hour_used, readings.five_hour_reset)
    &&& is_window(snapshot.seven_day, readings.seven_day_used, readings.seven_day_reset)
}

/// The quota windows that an input speaks of, seen at `now`.
pub fn parse_rate_limits(input: &StatuslineInput<String>, now: u64) -> (r: Option<RateLimitSnapshot>)
    ensures
        match r {
            Some(snapshot) => input@.rate_limits is Some && is_snapshot(
                snapshot,
                input@.rate_limits->0,
                now,
            ),
            None => input@.rate_limits is None,
        },
{
    match &input.rate_limits {
        Some(readings) => Some(
            RateLimitSnapshot {
                detected_at: now,
                five_hour: LimitWindow {
                    used_percentage: value_to_u8(readings.five_hour_used.as_ref()),
                    resets_at: value_to_i64(readings.five_hour_reset.as_ref()),
                },
                seven_day: LimitWindow {
                    used_percentage: value_to_u8(readings.seven_day_used.as_ref()),
                    resets_at: value_to_i64(readings.seven_day_reset.as_ref()),
                },
            },
        ),
        None => None,
    }
}

/// What a JSON value is to a quota reading.
pub open spec fn reading_in(json: json::Json) -> Reading<Seq<char>> {
    match json {
        json::Json::Unsigned(n) => Reading::Unsigned(n),
        json::Json::Negative(n) => Reading::Negative(n),
        json::Json::Text(text) => Reading::Text(text),
        _ => Reading::Other,
    }
}

/// The reading at a place in a JSON value.
pub open spec fn reading_at(json: json::Json, outer: Seq<char>, inner: Seq<char>) -> Option<
    Reading<Seq<char>>,
> {
    match json::member_at(json, outer, inner) {
        Some(part) => Some(reading_in(part)),
        None => None,
    }
}

/// What a statusline command is told by a JSON value.
pub open spec fn input_in(json: json::Json) -> StatuslineInput<Seq<char>> {
    StatuslineInput {
        rate_limits: match json::member(json, "rate_limits"@) {
            Some(limits) => Some(
                LimitReadings {
                    five_hour_used: reading_at(limits, "five_hour"@, "used_percentage"@),
                    five_hour_reset: reading_at(limits, "five_hour"@, "resets_at"@),
                    seven_day_used: reading_at(limits, "seven_day"@, "used_percentage"@),
                    seven_day_reset: reading_at(limits, "seven_day"@, "resets_at"@),
                },
            ),
            None => None,
        },
    }
}

fn read_value(value: &Value) -> (r: Reading<String>)
    ensures
        r@ == reading_in(json::json_of(*value)),
{
    if let Some(n) = json::as_u64(value) {
        return Reading::Unsigned(n);
    }
    if let Some(n) = json::as_i64(value) {
        return Reading::Negative(n);
    }
    if let Some(text) = json::as_str(value) {
        return Reading::Text(text.to_owned());
    }
    Reading::Other
}

fn read_at(value: &Value, outer: &str, inner: &str) -> (r: Option<Reading<String>>)
    requires
        json::is_plain_key(outer@),
        json::is_plain_key(inner@),
    ensures
        reading_view(r) == reading_at(json::json_of(*value), outer@, inner@),
{
    match json::pointer(value, outer, inner) {
        Some(part) => Some(read_value(part)),
        None => None,
    }
}

/// What a statusline command is told by `text`, where that is JSON.
pub fn read_input(text: &str) -> (r: Option<StatuslineInput<String>>)
    ensures
        match r {
            Some(input) => json::json_from_text(text@) is Some && input@ == input_in(
                json::json_from_text(text@)->0,
            ),
            None => json::json_from_text(text@) is None,
        },
{
    let value = match json::parse_text(text) {
        Ok(value) => value,
        Err(_) => return None,
    };
    proof {
        reveal_strlit("five_hour");
        reveal_strlit("seven_day");
        reveal_strlit("used_percentage");
        reveal_strlit("resets_at");
    }
    let rate_limits = match json::get(&value, "rate_limits") {
        Some(limits) => Some(
            LimitReadings {
                five_hour_used: read_at(limits, "five_hour", "used_percentage"),
                five_hour_reset: read_at(limits, "five_hour", "resets_at"),
                seven_day_used: read_at(limits, "seven_day", "used_percentage"),
                seven_day_reset: read_at(limits, "seven_day", "resets_at"),
            },
        ),
        None => None,
    };
    Some(StatuslineInput { rate_limits })
}

/// The window that is used up most, with its share: the shorter one where both
/// are used up alike.
pub open spec fn fullest(snapshot: RateLimitSnapshot) -> Option<(Seq<char>, u8)> {
    match (snapshot.five_hour.used_percentage, snapshot.seven_day.used_percentage) {
        (Some(short), Some(long)) => Some(
            if short >= long {
                ("5h"@, short)
            } else {
                ("7d"@, long)
            },
        ),
        (Some(short), None) => Some(("5h"@, short)),
        (None, Some(long)) => Some(("7d"@, long)),
        (None, None) => None,
    }
}

/// The window that starts anew first, with that time: the shorter one where
/// both do at once.
pub open spec fn soonest(snapshot: RateLimitSnapshot) -> Option<(Seq<char>, i64)> {
    match (snapshot.five_hour.resets_at, snapshot.seven_day.resets_at) {
        (Some(short), Some(long)) => Some(
            if short <= long {
                ("5h"@, short)
            } else {
                ("7d"@, long)
            },
        ),
        (Some(short), None) => Some(("5h"@, short)),
        (None, Some(long)) => Some(("7d"@, long)),
        (None, None) => None,
    }
}

/// The window that is used up most, with its share.
pub fn max_limit(snapshot: &RateLimitSnapshot) -> (r: Option<(&'static str, u8)>)
    ensures
        match r {
            Some((label, share)) => fullest(*snapshot) == Some((label@, share)),
            None => fullest(*snapshot) is None,
        },
{
    let mut best: Option<(&'static str, u8)> = None;
    if let Some(share) = snapshot.five_hour.used_percentage {
        best = Some(("5h", share));
    }
    if let Some(share) = snapshot.seven_day.used_percentage {
        let fuller = match best {
            Some((_, current)) => share > current,
            None => true,
        };
        if fuller {
            best = Some(("7d", share));
        }
    }
    best
}

/// The seconds left until `reset_at`. None are left once it has passed, however
/// long ago that was.
pub fn time_left(reset_at: i64, now: u64) -> (r: i64)
    ensures
        r == if reset_at > now {
            reset_at - now
        } else {
            0
        },
{
    if reset_at > 0 && reset_at as u64 > now {
        reset_at - now as i64
    } else {
        0
    }
}

/// The window that starts anew first, with that time.
pub fn earliest_reset(snapshot: &RateLimitSnapshot) -> (r: Option<(&'static str, i64)>)
    ensures
        match r {
            Some((label, time)) => soonest(*snapshot) == Some((label@, time)),
            None => soonest(*snapshot) is None,
        },
{
    let mut best: Option<(&'static str, i64)> = None;
    if let Some(time) = snapshot.five_hour.resets_at {
        best = Some(("5h", time));
    }
    if let Some(time) = snapshot.seven_day.resets_at {
        let sooner = match best {
            Some((_, current)) => time < current,
            None => true,
        };
        if sooner {
            best = Some(("7d", time));
        }
    }
    best
}

/// No window is used up more than the fullest one, and one is used up as much.
pub proof fn fullest_is_greatest(snapshot: RateLimitSnapshot)
    ensures
        match fullest(snapshot) {
            Some((_, share)) => {
                &&& snapshot.five_hour.used_percentage == Some(share)
                    || snapshot.seven_day.used_percentage == Some(share)
                &&& snapshot.five_hour.used_percentage matches Some(other) ==> other <= share
                &&& snapshot.seven_day.used_percentage matches Some(other) ==> other <= share
            },
            None => snapshot.five_hour.used_percentage is None
                && snapshot.seven_day.used_percentage is None,
        },
{
}

/// No window starts anew before the soonest one, and one does at that time.
pub proof fn soonest_is_least(snapshot: RateLimitSnapshot)
    ensures
        match soonest(snapshot) {
            Some((_, time)) => {
                &&& snapshot.five_hour.resets_at == Some(time) || snapshot.seven_day.resets_at
                    == Some(time)
                &&& snapshot.five_hour.resets_at matches Some(other) ==> time <= other
                &&& snapshot.seven_day.resets_at matches Some(other) ==> time <= other
            },
            None => snapshot.five_hour.resets_at is None && snapshot.seven_day.resets_at is None,
        },
{
}

} // verus!
