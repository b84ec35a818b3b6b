//! The freshness evaluator: reduces instants to `YYYYMMDD` date tokens (UTC),
//! the form in which the wallpaper on disk is compared with the current day.

use chrono::Datelike;
use vstd::prelude::*;

use crate::text::{padded_decimal, push_padded_decimal};

verus! {

/// The UTC calendar date `(year, month, day)` of the instant `secs` seconds
/// after 1970-01-01T00:00:00Z, or `None` where the calendar cannot hold it.
pub uninterp spec fn utc_date_of(secs: int) -> Option<(int, int, int)>;

/// Relies on chrono's `DateTime::from_timestamp`, `DateTime::date_naive` and
/// `Datelike::{year, month, day}`: the UTC date of a Unix timestamp, `None`
/// when the timestamp is out of chrono's range.
#[verifier::external_body]
fn utc_date(secs: i64) -> (r: Option<(i32, u32, u32)>)
    ensures
        match r {
            Some((y, m, d)) => utc_date_of(secs as int) == Some((y as int, m as int, d as int)),
            None => utc_date_of(secs as int) is None,
        },
{
    match chrono::DateTime::from_timestamp(secs, 0) {
        Some(t) => {
            let d = t.date_naive();
            Some((d.year(), d.month(), d.day()))
        },
        None => None,
    }
}

/// The token of a file that is absent or whose modification time is unknown.
pub open spec fn no_date() -> Seq<char> {
    Seq::new(8, |i: int| '0')
}

/// A year as `%Y` writes it: four digits from 0 to 9999, otherwise a sign
/// followed by at least four digits.
pub open spec fn year_text(year: int) -> Seq<char> {
    if 0 <= year <= 9999 {
        padded_decimal(year as nat, 4)
    } else if year < 0 {
        seq!['-'] + padded_decimal((-year) as nat, 4)
    } else {
        seq!['+'] + padded_decimal(year as nat, 4)
    }
}

/// The `YYYYMMDD` token of a calendar date.
pub open spec fn date_text(year: int, month: nat, day: nat) -> Seq<char> {
    year_text(year) + padded_decimal(month, 2) + padded_decimal(day, 2)
}

/// The token of the instant `secs`, where the calendar can hold it.
pub open spec fn instant_token(secs: int) -> Option<Seq<char>> {
    match utc_date_of(secs) {
        Some((y, m, d)) => Some(date_text(y, m as nat, d as nat)),
        None => None,
    }
}

/// The token of a wallpaper file last modified at `modified` (seconds since
/// the Unix epoch), `None` meaning that the file is absent or its time unknown.
pub open spec fn wallpaper_token(modified: Option<i64>) -> Seq<char> {
    match modified {
        Some(t) => match instant_token(t as int) {
            Some(token) => token,
            None => no_date(),
        },
        None => no_date(),
    }
}

/// Returns the token of the file that is absent or unreadable.
pub fn no_date_token() -> (r: String)
    ensures
        r@ == no_date(),
{
    proof {
        reveal_strlit("00000000");
    }
    let r = String::from_str("00000000");
    assert(r@ =~= no_date());
    r
}

/// Returns the `YYYYMMDD` token of a calendar date, as chrono's `%Y%m%d`
/// writes it.
pub fn format_date_token(year: i32, month: u32, day: u32) -> (r: String)
    ensures
        r@ == date_text(year as int, month as nat, day as nat),
{
    let mut r = String::new();
    if 0 <= year && year <= 9999 {
        push_padded_decimal(&mut r, year as u128, 4);
    } else if year < 0 {
        proof {
            reveal_strlit("-");
        }
        r.append("-");
        push_padded_decimal(&mut r, (-(year as i64)) as u128, 4);
    } else {
        proof {
            reveal_strlit("+");
        }
        r.append("+");
        push_padded_decimal(&mut r, year as u128, 4);
    }
    assert(r@ =~= year_text(year as int));
    push_padded_decimal(&mut r, month as u128, 2);
    push_padded_decimal(&mut r, day as u128, 2);
    assert(r@ =~= date_text(year as int, month as nat, day as nat));
    r
}

/// Returns the UTC date token of the instant `secs` seconds after the Unix
/// epoch, or `None` where the calendar cannot hold it.
pub fn date_token_of(secs: i64) -> (r: Option<String>)
    ensures
        match r {
            Some(t) => instant_token(secs as int) == Some(t@),
            None => instant_token(secs as int) is None,
        },
{
    match utc_date(secs) {
        Some((y, m, d)) => Some(format_date_token(y, m, d)),
        None => None,
    }
}

/// Returns the current UTC date token, `now` being the current time in
/// seconds since the Unix epoch.
pub fn get_date_system(now: i64) -> (r: Option<String>)
    ensures
        match r {
            Some(t) => instant_token(now as int) == Some(t@),
            None => instant_token(now as int) is None,
        },
{
    date_token_of(now)
}

/// Returns the token of the wallpaper file: the UTC date of its last
/// modification, or `"00000000"` when the file is absent or its modification
/// time cannot be read (`modified` is `None`) or placed in the calendar.
pub fn get_date_current_wallpaper(modified: Option<i64>) -> (r: String)
    ensures
        r@ == wallpaper_token(modified),
        modified is None ==> r@ == no_date(),
        forall|y: int, m: int, d: int|
            modified is Some && utc_date_of(modified->0 as int) == Some((y, m, d)) ==> r@
                == date_text(y, m as nat, d as nat),
{
    match modified {
        Some(t) => match date_token_of(t) {
            Some(token) => token,
            None => no_date_token(),
        },
        None => no_date_token(),
    }
}

} // verus!
