//! Human-readable renderings: uptime durations ("1 day, 1 hour, 1 minute,
//! 1 second") and formatted numbers (thousands separators, percentages,
//! hashrate and load-average triplets).

use vstd::prelude::*;
use crate::fmt::{commas, dec_digits, fmt_u128_commas, fmt_u64, fmt_u64_commas, fmt_milli,
    milli_text};

verus! {

/// Seconds per year, at 365.25 days to the year.
pub const SECS_PER_YEAR: u64 = 31_557_600;

/// Seconds per month, at 30.44 days to the month.
pub const SECS_PER_MONTH: u64 = 2_630_016;

pub open spec fn year_name() -> Seq<u8> {
    seq![('y' as u8), ('e' as u8), ('a' as u8), ('r' as u8)]
}

pub open spec fn month_name() -> Seq<u8> {
    seq![('m' as u8), ('o' as u8), ('n' as u8), ('t' as u8), ('h' as u8)]
}

pub open spec fn day_name() -> Seq<u8> {
    seq![('d' as u8), ('a' as u8), ('y' as u8)]
}

pub open spec fn hour_name() -> Seq<u8> {
    seq![('h' as u8), ('o' as u8), ('u' as u8), ('r' as u8)]
}

pub open spec fn minute_name() -> Seq<u8> {
    seq![('m' as u8), ('i' as u8), ('n' as u8), ('u' as u8), ('t' as u8), ('e' as u8)]
}

pub open spec fn second_name() -> Seq<u8> {
    seq![('s' as u8), ('e' as u8), ('c' as u8), ('o' as u8), ('n' as u8), ('d' as u8)]
}

/// One unit's contribution: nothing when the value is zero, else a
/// leading ", " when something came before, the value, a space, the unit
/// name, and a plural "s" past one.
pub open spec fn plural_seq(started: bool, name: Seq<u8>, value: nat) -> Seq<u8> {
    if value == 0 {
        Seq::<u8>::empty()
    } else {
        (if started {
            seq![(',' as u8), (' ' as u8)]
        } else {
            Seq::<u8>::empty()
        }) + dec_digits(value) + seq![(' ' as u8)] + name + (if value > 1 {
            seq![('s' as u8)]
        } else {
            Seq::<u8>::empty()
        })
    }
}

/// "0 seconds".
pub open spec fn zero_seconds() -> Seq<u8> {
    seq![('0' as u8), (' ' as u8)] + second_name() + seq![('s' as u8)]
}

/// A duration of `secs` seconds in words, largest unit first, zero-valued
/// units left out.
pub open spec fn human_time_text(secs: nat) -> Seq<u8> {
    if secs == 0 {
        zero_seconds()
    } else {
        let years = secs / (SECS_PER_YEAR as nat);
        let ydays = secs % (SECS_PER_YEAR as nat);
        let months = ydays / (SECS_PER_MONTH as nat);
        let mdays = ydays % (SECS_PER_MONTH as nat);
        let days = mdays / 86400;
        let day_secs = mdays % 86400;
        let hours = day_secs / 3600;
        let minutes = day_secs % 3600 / 60;
        let seconds = day_secs % 60;
        let s1 = years > 0;
        let s2 = s1 || months > 0;
        let s3 = s2 || days > 0;
        let s4 = s3 || hours > 0;
        let s5 = s4 || minutes > 0;
        plural_seq(false, year_name(), years) + plural_seq(s1, month_name(), months) + plural_seq(
            s2,
            day_name(),
            days,
        ) + plural_seq(s3, hour_name(), hours) + plural_seq(s4, minute_name(), minutes)
            + plural_seq(s5, second_name(), seconds)
    }
}

/// A duration held as whole seconds, rendered for humans on demand.
#[derive(Clone, Copy, PartialEq, Eq, Structural, Debug)]
pub struct HumanTime(pub u64);

fn name_year() -> (r: Vec<u8>)
    ensures
        r@ == year_name(),
{
    let mut v: Vec<u8> = Vec::new();
    v.push('y' as u8);
    v.push('e' as u8);
    v.push('a' as u8);
    v.push('r' as u8);
    assert(v@ =~= year_name());
    v
}

fn name_month() -> (r: Vec<u8>)
    ensures
        r@ == month_name(),
{
    let mut v: Vec<u8> = Vec::new();
    v.push('m' as u8);
    v.push('o' as u8);
    v.push('n' as u8);
    v.push('t' as u8);
    v.push('h' as u8);
    assert(v@ =~= month_name());
    v
}

fn name_day() -> (r: Vec<u8>)
    ensures
        r@ == day_name(),
{
    let mut v: Vec<u8> = Vec::new();
    v.push('d' as u8);
    v.push('a' as u8);
    v.push('y' as u8);
    assert(v@ =~= day_name());
    v
}

fn name_hour() -> (r: Vec<u8>)
    ensures
        r@ == hour_name(),
{
    let mut v: Vec<u8> = Vec::new();
    v.push('h' as u8);
    v.push('o' as u8);
    v.push('u' as u8);
    v.push('r' as u8);
    assert(v@ =~= hour_name());
    v
}

fn name_minute() -> (r: Vec<u8>)
    ensures
        r@ == minute_name(),
{
    let mut v: Vec<u8> = Vec::new();
    v.push('m' as u8);
    v.push('i' as u8);
    v.push('n' as u8);
    v.push('u' as u8);
    v.push('t' as u8);
    v.push('e' as u8);
    assert(v@ =~= minute_name());
    v
}

fn name_second() -> (r: Vec<u8>)
    ensures
        r@ == second_name(),
{
    let mut v: Vec<u8> = Vec::new();
    v.push('s' as u8);
    v.push('e' as u8);
    v.push('c' as u8);
    v.push('o' as u8);
    v.push('n' as u8);
    v.push('d' as u8);
    assert(v@ =~= second_name());
    v
}

impl HumanTime {
    /// A zero duration.
    pub fn new() -> (r: HumanTime)
        ensures
            r.0 == 0,
    {
        HumanTime(0)
    }

    /// Wrap a duration given as whole seconds.
    pub fn into_human(secs: u64) -> (r: HumanTime)
        ensures
            r.0 == secs,
    {
        HumanTime(secs)
    }

    /// Append one unit of the rendering: nothing when `value` is zero,
    /// else a separator when needed, the value, the unit name and a
    /// plural "s" past one.
    pub fn plural(out: &mut Vec<u8>, started: &mut bool, name: &Vec<u8>, value: u64)
        ensures
            final(out)@ == old(out)@ + plural_seq(*old(started), name@, value as nat),
            *final(started) == (*old(started) || value > 0),
    {
        if value > 0 {
            if *started {
                out.push(',' as u8);
                out.push(' ' as u8);
            }
            let mut digits = fmt_u64(value);
            out.append(&mut digits);
            out.push(' ' as u8);
            let mut n = name.clone();
            assert(n@ == name@);
            out.append(&mut n);
            if value > 1 {
                out.push('s' as u8);
            }
            *started = true;
            assert(out@ =~= old(out)@ + plural_seq(*old(started), name@, value as nat));
        } else {
            assert(out@ =~= old(out)@ + plural_seq(*old(started), name@, value as nat));
        }
    }

    /// The duration in words.
    pub fn render(&self) -> (r: Vec<u8>)
        ensures
            r@ == human_time_text(self.0 as nat),
    {
        let mut out: Vec<u8> = Vec::new();
        let secs = self.0;
        if secs == 0 {
            out.push('0' as u8);
            out.push(' ' as u8);
            let mut n = name_second();
            out.append(&mut n);
            out.push('s' as u8);
            assert(out@ =~= zero_seconds());
            return out;
        }
        let years = secs / SECS_PER_YEAR;
        let ydays = secs % SECS_PER_YEAR;
        let months = ydays / SECS_PER_MONTH;
        let mdays = ydays % SECS_PER_MONTH;
        let days = mdays / 86400;
        let day_secs = mdays % 86400;
        let hours = day_secs / 3600;
        let minutes = day_secs % 3600 / 60;
        let seconds = day_secs % 60;
        let mut started = false;
        HumanTime::plural(&mut out, &mut started, &name_year(), years);
        HumanTime::plural(&mut out, &mut started, &name_month(), months);
        HumanTime::plural(&mut out, &mut started, &name_day(), days);
        HumanTime::plural(&mut out, &mut started, &name_hour(), hours);
        HumanTime::plural(&mut out, &mut started, &name_minute(), minutes);
        HumanTime::plural(&mut out, &mut started, &name_second(), seconds);
        assert(out@ =~= human_time_text(secs as nat));
        out
    }
}

/// A number already rendered for humans, held as ASCII bytes.
#[derive(Clone, Debug)]
pub struct HumanNumber(pub Vec<u8>);

/// "???", the placeholder for an unknown quantity.
pub open spec fn unknown_text() -> Seq<u8> {
    seq![('?' as u8), ('?' as u8), ('?' as u8)]
}

/// A percentage in thousandths: below 0.01% it collapses to "0%", else
/// the value is rounded half-up to two decimals and suffixed with '%'.
pub open spec fn percent_text(m: nat) -> Seq<u8> {
    if m < 10 {
        seq![('0' as u8), ('%' as u8)]
    } else {
        let c = (m + 5) / 10;
        dec_digits(c / 100) + seq![('.' as u8), (48 + (c / 10) % 10) as u8, (48 + c % 10) as u8]
            + seq![('%' as u8)]
    }
}

/// One hashrate entry: the whole hashes-per-second with separators and
/// a " H/s" suffix, or "??? H/s" for an unknown one.
pub open spec fn hashrate_entry(e: Option<u64>) -> Seq<u8> {
    (match e {
        Some(m) => commas((m / 1000) as nat),
        None => unknown_text(),
    }) + seq![(' ' as u8), ('H' as u8), ('/' as u8), ('s' as u8)]
}

/// One load-average entry: the value to three trimmed decimals, or "???".
pub open spec fn load_entry(e: Option<u64>) -> Seq<u8> {
    match e {
        Some(m) => milli_text(m as nat),
        None => unknown_text(),
    }
}

/// Three entries between brackets, comma-separated.
pub open spec fn triplet_text(a: Seq<u8>, b: Seq<u8>, c: Seq<u8>) -> Seq<u8> {
    seq![('[' as u8)] + a + seq![(',' as u8), (' ' as u8)] + b + seq![(',' as u8), (' ' as u8)] + c
        + seq![(']' as u8)]
}

impl HumanNumber {
    /// The placeholder for a number nothing is known about.
    pub fn unknown() -> (r: HumanNumber)
        ensures
            r.0@ == unknown_text(),
    {
        let mut v: Vec<u8> = Vec::new();
        v.push('?' as u8);
        v.push('?' as u8);
        v.push('?' as u8);
        assert(v@ =~= unknown_text());
        HumanNumber(v)
    }

    /// A percentage held in thousandths of a percent.
    pub fn to_percent(m: u64) -> (r: HumanNumber)
        ensures
            r.0@ == percent_text(m as nat),
    {
        let mut v: Vec<u8> = Vec::new();
        if m < 10 {
            v.push('0' as u8);
            v.push('%' as u8);
            assert(v@ =~= percent_text(m as nat));
        } else {
            let c128: u128 = ((m as u128) + 5) / 10;
            let c: u64 = c128 as u64;
            assert(c as nat == ((m as nat) + 5) / 10);
            let mut digits = fmt_u64(c / 100);
            v.append(&mut digits);
            v.push('.' as u8);
            v.push(48 + ((c / 10) % 10) as u8);
            v.push(48 + (c % 10) as u8);
            v.push('%' as u8);
            assert(v@ =~= percent_text(m as nat));
        }
        HumanNumber(v)
    }

    /// An unsigned count with thousands separators.
    pub fn from_u64(n: u64) -> (r: HumanNumber)
        ensures
            r.0@ == commas(n as nat),
    {
        HumanNumber(fmt_u128_commas(n as u128))
    }

    /// An unsigned count with thousands separators.
    pub fn from_u128(n: u128) -> (r: HumanNumber)
        ensures
            r.0@ == commas(n as nat),
    {
        HumanNumber(fmt_u128_commas(n))
    }

    /// An unsigned count with thousands separators.
    pub fn from_u16(n: u16) -> (r: HumanNumber)
        ensures
            r.0@ == commas(n as nat),
    {
        HumanNumber(fmt_u128_commas(n as u128))
    }

    /// A hashrate triplet, entries in thousandths of a hash per second;
    /// each prints as its whole part with separators, or "???" when absent.
    pub fn from_hashrate(array: &[Option<u64>; 3]) -> (r: HumanNumber)
        ensures
            r.0@ == triplet_text(
                hashrate_entry(array@[0]),
                hashrate_entry(array@[1]),
                hashrate_entry(array@[2]),
            ),
    {
        let mut v: Vec<u8> = Vec::new();
        v.push('[' as u8);
        push_hashrate_entry(&mut v, array[0]);
        v.push(',' as u8);
        v.push(' ' as u8);
        push_hashrate_entry(&mut v, array[1]);
        v.push(',' as u8);
        v.push(' ' as u8);
        push_hashrate_entry(&mut v, array[2]);
        v.push(']' as u8);
        assert(v@ =~= triplet_text(
            hashrate_entry(array@[0]),
            hashrate_entry(array@[1]),
            hashrate_entry(array@[2]),
        ));
        HumanNumber(v)
    }

    /// A load-average triplet, entries in thousandths; each prints to
    /// three trimmed decimals, or "???" when absent.
    pub fn from_load(array: &[Option<u64>; 3]) -> (r: HumanNumber)
        ensures
            r.0@ == triplet_text(
                load_entry(array@[0]),
                load_entry(array@[1]),
                load_entry(array@[2]),
            ),
    {
        let mut v: Vec<u8> = Vec::new();
        v.push('[' as u8);
        push_load_entry(&mut v, array[0]);
        v.push(',' as u8);
        v.push(' ' as u8);
        push_load_entry(&mut v, array[1]);
        v.push(',' as u8);
        v.push(' ' as u8);
        push_load_entry(&mut v, array[2]);
        v.push(']' as u8);
        assert(v@ =~= triplet_text(
            load_entry(array@[0]),
            load_entry(array@[1]),
            load_entry(array@[2]),
        ));
        HumanNumber(v)
    }
}

/// Append one hashrate entry and its " H/s" suffix.
fn push_hashrate_entry(v: &mut Vec<u8>, e: Option<u64>)
    ensures
        final(v)@ == old(v)@ + hashrate_entry(e),
{
    match e {
        Some(m) => {
            let mut digits = fmt_u64_commas(m / 1000);
            v.append(&mut digits);
        },
        None => {
            v.push('?' as u8);
            v.push('?' as u8);
            v.push('?' as u8);
        },
    }
    v.push(' ' as u8);
    v.push('H' as u8);
    v.push('/' as u8);
    v.push('s' as u8);
    assert(v@ =~= old(v)@ + hashrate_entry(e));
}

/// Append one load-average entry.
fn push_load_entry(v: &mut Vec<u8>, e: Option<u64>)
    ensures
        final(v)@ == old(v)@ + load_entry(e),
{
    match e {
        Some(m) => {
            let mut digits = fmt_milli(m);
            v.append(&mut digits);
        },
        None => {
            v.push('?' as u8);
            v.push('?' as u8);
            v.push('?' as u8);
        },
    }
    assert(v@ =~= old(v)@ + load_entry(e));
}

} // verus!
