//! A plain model of protocol timestamps, and the wrappers whose wire
//! form is a decimal string at millisecond, microsecond, nanosecond or
//! second granularity. The arithmetic between granularities lives
//! here; turning the strings into calendar dates is outside work.

use vstd::prelude::*;
use crate::encoding::{all_dec_digits, dec_digits, dec_val, parse_dec_u64, u64_to_dec_string};

verus! {

/// A point in time as nanoseconds since the Unix epoch. This model
/// covers the non-negative range the protocol uses.
#[derive(Clone, Copy, Debug, PartialEq, Eq, Structural)]
pub struct Timestamp {
    pub unix_nanos: i128,
}

impl Timestamp {
    /// Whether the timestamp lies in the representable string range.
    pub open spec fn in_range(&self) -> bool {
        0 <= self.unix_nanos <= i64::MAX
    }
}

/// Renders a timestamp as the decimal count of `scale`-nanosecond
/// units, truncating toward zero; nothing for out-of-range times.
pub fn timestamp_to_scaled_string(t: &Timestamp, scale: u64) -> (r: Option<String>)
    requires
        scale >= 1,
    ensures
        r matches Some(s) ==> t.in_range() && s@ == dec_digits(
            (t.unix_nanos / scale as i128) as nat,
        ),
        r is None ==> !t.in_range(),
{
    if t.unix_nanos < 0 || t.unix_nanos > i64::MAX as i128 {
        return None;
    }
    let n = t.unix_nanos as u64;
    let v = n / scale;
    proof {
        vstd::arithmetic::div_mod::lemma_div_is_ordered_by_denominator(n as int, 1, scale as int);
        vstd::arithmetic::div_mod::lemma_div_basics(n as int);
    }
    Some(u64_to_dec_string(v))
}

/// Reads a decimal count of `scale`-nanosecond units back into a
/// timestamp; nothing for non-digits or out-of-range values.
pub fn scaled_string_to_timestamp(s: &str, scale: u64) -> (r: Option<Timestamp>)
    requires
        scale >= 1,
    ensures
        r matches Some(t) ==> s@.len() > 0 && all_dec_digits(s@) && dec_val(s@) * scale
            <= i64::MAX && t.unix_nanos == dec_val(s@) * scale,
        r is None ==> s@.len() == 0 || !all_dec_digits(s@) || dec_val(s@) * scale > i64::MAX,
{
    let v = match parse_dec_u64(s) {
        Some(v) => v,
        None => {
            proof {
                if s@.len() > 0 && all_dec_digits(s@) {
                    assert(dec_val(s@) * scale >= dec_val(s@)) by (nonlinear_arith)
                        requires
                            scale >= 1,
                    ;
                }
            }
            return None;
        },
    };
    proof {
        vstd::arithmetic::mul::lemma_mul_upper_bound(
            v as int,
            u64::MAX as int,
            scale as int,
            u64::MAX as int,
        );
    }
    let prod = v as u128 * scale as u128;
    if prod > i64::MAX as u128 {
        return None;
    }
    Some(Timestamp { unix_nanos: prod as i128 })
}

/// A timestamp whose wire form is a decimal string of milliseconds.
#[derive(Clone, Copy, Debug, PartialEq, Eq, Structural)]
pub struct UnixMilliString(pub Timestamp);

impl UnixMilliString {
    /// The wire string: the millisecond count, in decimal.
    pub fn to_string_value(&self) -> (r: Option<String>)
        ensures
            r matches Some(s) ==> self.0.in_range() && s@ == dec_digits(
                (self.0.unix_nanos / 1000000 as i128) as nat,
            ),
            r is None ==> !self.0.in_range(),
    {
        timestamp_to_scaled_string(&self.0, 1000000)
    }

    /// Reads the wire string back.
    pub fn from_string_value(s: &str) -> (r: Option<UnixMilliString>)
        ensures
            r matches Some(t) ==> s@.len() > 0 && all_dec_digits(s@) && t.0.unix_nanos == dec_val(
                s@,
            ) * 1000000,
            r is None ==> s@.len() == 0 || !all_dec_digits(s@) || dec_val(s@) * 1000000 > i64::MAX,
    {
        match scaled_string_to_timestamp(s, 1000000) {
            Some(t) => Some(UnixMilliString(t)),
            None => None,
        }
    }
}

/// A timestamp whose wire form is a decimal string of microseconds.
#[derive(Clone, Copy, Debug, PartialEq, Eq, Structural)]
pub struct UnixMicroString(pub Timestamp);

impl UnixMicroString {
    /// The wire string: the microsecond count, in decimal.
    pub fn to_string_value(&self) -> (r: Option<String>)
        ensures
            r matches Some(s) ==> self.0.in_range() && s@ == dec_digits(
                (self.0.unix_nanos / 1000 as i128) as nat,
            ),
            r is None ==> !self.0.in_range(),
    {
        timestamp_to_scaled_string(&self.0, 1000)
    }

    /// Reads the wire string back.
    pub fn from_string_value(s: &str) -> (r: Option<UnixMicroString>)
        ensures
            r matches Some(t) ==> s@.len() > 0 && all_dec_digits(s@) && t.0.unix_nanos == dec_val(
                s@,
            ) * 1000,
            r is None ==> s@.len() == 0 || !all_dec_digits(s@) || dec_val(s@) * 1000 > i64::MAX,
    {
        match scaled_string_to_timestamp(s, 1000) {
            Some(t) => Some(UnixMicroString(t)),
            None => None,
        }
    }
}

/// A timestamp whose wire form is a decimal string of nanoseconds.
#[derive(Clone, Copy, Debug, PartialEq, Eq, Structural)]
pub struct UnixNanoString(pub Timestamp);

impl UnixNanoString {
    /// The wire string: the nanosecond count, in decimal.
    pub fn to_string_value(&self) -> (r: Option<String>)
        ensures
            r matches Some(s) ==> self.0.in_range() && s@ == dec_digits(
                (self.0.unix_nanos / 1 as i128) as nat,
            ),
            r is None ==> !self.0.in_range(),
    {
        timestamp_to_scaled_string(&self.0, 1)
    }

    /// Reads the wire string back.
    pub fn from_string_value(s: &str) -> (r: Option<UnixNanoString>)
        ensures
            r matches Some(t) ==> s@.len() > 0 && all_dec_digits(s@) && t.0.unix_nanos == dec_val(
                s@,
            ) * 1,
            r is None ==> s@.len() == 0 || !all_dec_digits(s@) || dec_val(s@) * 1 > i64::MAX,
    {
        match scaled_string_to_timestamp(s, 1) {
            Some(t) => Some(UnixNanoString(t)),
            None => None,
        }
    }
}

/// A timestamp whose wire form is a decimal string of seconds.
#[derive(Clone, Copy, Debug, PartialEq, Eq, Structural)]
pub struct UnixString(pub Timestamp);

impl UnixString {
    /// The wire string: the second count, in decimal.
    pub fn to_string_value(&self) -> (r: Option<String>)
        ensures
            r matches Some(s) ==> self.0.in_range() && s@ == dec_digits(
                (self.0.unix_nanos / 1000000000 as i128) as nat,
            ),
            r is None ==> !self.0.in_range(),
    {
        timestamp_to_scaled_string(&self.0, 1000000000)
    }

    /// Reads the wire string back.
    pub fn from_string_value(s: &str) -> (r: Option<UnixString>)
        ensures
            r matches Some(t) ==> s@.len() > 0 && all_dec_digits(s@) && t.0.unix_nanos == dec_val(
                s@,
            ) * 1000000000,
            r is None ==> s@.len() == 0 || !all_dec_digits(s@) || dec_val(s@) * 1000000000 > i64::MAX,
    {
        match scaled_string_to_timestamp(s, 1000000000) {
            Some(t) => Some(UnixString(t)),
            None => None,
        }
    }
}

} // verus!
