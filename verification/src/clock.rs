//! Build timestamps: the current UTC time written as `YYYYMMDDTHHMMSSZ`.

use vstd::prelude::*;
use crate::text::{append_str, string_of};
use crate::users;
use crate::users::u64_to_dec;

verus! {

#[verifier::external_type_specification]
#[verifier::external_body]
pub struct ExOffsetDateTime(time::OffsetDateTime);

/// `time::OffsetDateTime::now_utc`: the current time in UTC. Nothing is
/// stated of it, since it depends on the clock.
#[verifier::external_body]
fn utc_now() -> (r: time::OffsetDateTime)
{
    time::OffsetDateTime::now_utc()
}

/// `OffsetDateTime::year`: the calendar year (nothing is stated of its range,
/// which depends on the crate's features).
#[verifier::external_body]
fn year_of(t: &time::OffsetDateTime) -> (r: i32)
{
    t.year()
}

/// `OffsetDateTime::month`, as its number: `Month` numbers its variants 1 to 12.
#[verifier::external_body]
fn month_of(t: &time::OffsetDateTime) -> (r: u8)
    ensures
        1 <= r <= 12,
{
    t.month() as u8
}

/// `OffsetDateTime::day`, documented to be in `1..=31`.
#[verifier::external_body]
fn day_of(t: &time::OffsetDateTime) -> (r: u8)
    ensures
        1 <= r <= 31,
{
    t.day()
}

/// `OffsetDateTime::hour`, documented to be in `0..24`.
#[verifier::external_body]
fn hour_of(t: &time::OffsetDateTime) -> (r: u8)
    ensures
        r < 24,
{
    t.hour()
}

/// `OffsetDateTime::minute`, documented to be in `0..60`.
#[verifier::external_body]
fn minute_of(t: &time::OffsetDateTime) -> (r: u8)
    ensures
        r < 60,
{
    t.minute()
}

/// `OffsetDateTime::second`, documented to be in `0..60`.
#[verifier::external_body]
fn second_of(t: &time::OffsetDateTime) -> (r: u8)
    ensures
        r < 60,
{
    t.second()
}

/// `n` written in decimal with zeros in front up to `width` digits.
pub open spec fn padded(n: nat, width: nat) -> Seq<char> {
    let d = users::dec_str(n);
    if d.len() < width {
        Seq::new((width - d.len()) as nat, |i: int| '0') + d
    } else {
        d
    }
}

/// A year as `{:04}` writes it: four places, the sign counting as one.
pub open spec fn year4(y: int) -> Seq<char> {
    if y >= 0 {
        padded(y as nat, 4)
    } else {
        "-"@ + padded((-y) as nat, 3)
    }
}

/// The compact UTC timestamp `YYYYMMDDTHHMMSSZ`.
pub open spec fn compact_utc(year: int, month: nat, day: nat, hour: nat, minute: nat, second: nat) -> Seq<char> {
    year4(year) + padded(month, 2) + padded(day, 2) + "T"@ + padded(hour, 2) + padded(minute, 2) + padded(second, 2) + "Z"@
}

fn pad_dec(n: u64, width: usize) -> (r: String)
    requires
        width <= 4,
    ensures
        r@ == padded(n as nat, width as nat),
{
    let d = u64_to_dec(n);
    let mut out = String::new();
    if d.len() < width {
        let k = width - d.len();
        let mut i: usize = 0;
        while i < k
            invariant
                i <= k,
                out@ == Seq::new(i as nat, |j: int| '0'),
            decreases k - i,
        {
            out.push('0');
            assert(out@ =~= Seq::new((i + 1) as nat, |j: int| '0'));
            i = i + 1;
        }
    }
    let ds = string_of(&d);
    append_str(&mut out, ds.as_str());
    proof {
        if d@.len() >= width {
            assert(out@ =~= d@);
        }
    }
    out
}

/// The compact UTC timestamp of the given calendar fields.
pub fn format_utc_compact(year: i32, month: u8, day: u8, hour: u8, minute: u8, second: u8) -> (r: String)
    ensures
        r@ == compact_utc(year as int, month as nat, day as nat, hour as nat, minute as nat, second as nat),
{
    let mut out = if year >= 0 {
        pad_dec(year as u64, 4)
    } else {
        let mut s = String::from_str("-");
        let a = pad_dec((-(year as i64)) as u64, 3);
        append_str(&mut s, a.as_str());
        s
    };
    let p = pad_dec(month as u64, 2);
    append_str(&mut out, p.as_str());
    let p = pad_dec(day as u64, 2);
    append_str(&mut out, p.as_str());
    append_str(&mut out, "T");
    let p = pad_dec(hour as u64, 2);
    append_str(&mut out, p.as_str());
    let p = pad_dec(minute as u64, 2);
    append_str(&mut out, p.as_str());
    let p = pad_dec(second as u64, 2);
    append_str(&mut out, p.as_str());
    append_str(&mut out, "Z");
    out
}

/// The current UTC time as `YYYYMMDDTHHMMSSZ`: some valid month, day, hour,
/// minute and second, whatever the clock says.
pub fn now_utc_compact() -> (r: String)
    ensures
        exists|y: int, mo: nat, d: nat, h: nat, mi: nat, s: nat|
            1 <= mo <= 12 && 1 <= d <= 31 && h < 24 && mi < 60 && s < 60 && r@ == #[trigger] compact_utc(y, mo, d, h, mi, s),
{
    let now = utc_now();
    let y = year_of(&now);
    let mo = month_of(&now);
    let d = day_of(&now);
    let h = hour_of(&now);
    let mi = minute_of(&now);
    let s = second_of(&now);
    let r = format_utc_compact(y, mo, d, h, mi, s);
    assert(r@ == compact_utc(y as int, mo as nat, d as nat, h as nat, mi as nat, s as nat));
    r
}

} // verus!
