//! Reply text and command handling for the chat bot.
//!
//! `plan_message` decides what one incoming message asks for: nothing, an
//! immediate textual reply, or a sensor fetch.  `create_msg` builds the
//! reply line for a decoded response, converting each surfaced reading to
//! AQI; `create_url` builds the provider URL for a sensor.  All text is
//! handled as ASCII bytes.

use vstd::prelude::*;
use crate::aqi::{spec_raw_to_aqi, raw_to_aqi};
use crate::decode::{Response, SensorModel, DecodeError};
use crate::json::{is_ws, is_digit, spec_ws_end, ws_end, spec_digits_loop, digits_loop};

verus! {

/// Decimal digits of `n`, most significant first (for `n < 0`, empty).
pub open spec fn spec_u64_dec(n: int) -> Seq<u8>
    decreases n,
{
    if n < 0 {
        Seq::empty()
    } else if n < 10 {
        seq![(0x30 + n) as u8]
    } else {
        spec_u64_dec(n / 10).push((0x30 + n % 10) as u8)
    }
}

/// Append the decimal digits of `n`.
pub fn push_u64_dec(out: &mut Vec<u8>, n: u64)
    ensures
        final(out)@ == old(out)@ + spec_u64_dec(n as int),
    decreases n,
{
    if n >= 10 {
        push_u64_dec(out, n / 10);
        let d: u8 = 0x30 + (n % 10) as u8;
        out.push(d);
        proof {
            assert(out@ =~= old(out)@ + spec_u64_dec(n as int));
        }
    } else {
        let d: u8 = 0x30 + n as u8;
        out.push(d);
        proof {
            assert(out@ =~= old(out)@ + spec_u64_dec(n as int));
        }
    }
}

/// Text of a fixed-point value held in tenths: the whole part, a dot, one
/// digit.
pub open spec fn spec_fmt_tenths(t: int) -> Seq<u8> {
    spec_u64_dec(t / 10) + seq![0x2eu8, (0x30 + t % 10) as u8]
}

/// Append the text of a fixed-point value held in tenths.
pub fn push_tenths(out: &mut Vec<u8>, t: u64)
    ensures
        final(out)@ == old(out)@ + spec_fmt_tenths(t as int),
{
    push_u64_dec(out, t / 10);
    out.push(0x2e);
    let d: u8 = 0x30 + (t % 10) as u8;
    out.push(d);
    proof {
        assert(out@ =~= old(out)@ + spec_fmt_tenths(t as int));
    }
}

/// The text `https://www.purpleair.com/json?show=`: the provider's read endpoint, before the sensor id.
pub open spec fn spec_lit_url() -> Seq<u8> {
    seq![0x68u8, 0x74u8, 0x74u8, 0x70u8, 0x73u8, 0x3au8, 0x2fu8, 0x2fu8, 0x77u8, 0x77u8, 0x77u8, 0x2eu8, 0x70u8, 0x75u8, 0x72u8, 0x70u8, 0x6cu8, 0x65u8, 0x61u8, 0x69u8, 0x72u8, 0x2eu8, 0x63u8, 0x6fu8, 0x6du8, 0x2fu8, 0x6au8, 0x73u8, 0x6fu8, 0x6eu8, 0x3fu8, 0x73u8, 0x68u8, 0x6fu8, 0x77u8, 0x3du8]
}

fn push_lit_url(out: &mut Vec<u8>)
    ensures
        final(out)@ == old(out)@ + spec_lit_url(),
{
    out.push(0x68);
    out.push(0x74);
    out.push(0x74);
    out.push(0x70);
    out.push(0x73);
    out.push(0x3a);
    out.push(0x2f);
    out.push(0x2f);
    out.push(0x77);
    out.push(0x77);
    out.push(0x77);
    out.push(0x2e);
    out.push(0x70);
    out.push(0x75);
    out.push(0x72);
    out.push(0x70);
    out.push(0x6c);
    out.push(0x65);
    out.push(0x61);
    out.push(0x69);
    out.push(0x72);
    out.push(0x2e);
    out.push(0x63);
    out.push(0x6f);
    out.push(0x6d);
    out.push(0x2f);
    out.push(0x6a);
    out.push(0x73);
    out.push(0x6f);
    out.push(0x6e);
    out.push(0x3f);
    out.push(0x73);
    out.push(0x68);
    out.push(0x6f);
    out.push(0x77);
    out.push(0x3d);
    proof {
        assert(out@ =~= old(out)@ + spec_lit_url());
    }
}

/// The text `id: `: the reply line's opening.
pub open spec fn spec_lit_id_prefix() -> Seq<u8> {
    seq![0x69u8, 0x64u8, 0x3au8, 0x20u8]
}

fn push_lit_id_prefix(out: &mut Vec<u8>)
    ensures
        final(out)@ == old(out)@ + spec_lit_id_prefix(),
{
    out.push(0x69);
    out.push(0x64);
    out.push(0x3a);
    out.push(0x20);
    proof {
        assert(out@ =~= old(out)@ + spec_lit_id_prefix());
    }
}

/// The text `, pm2.5 data: current `: before the instantaneous reading.
pub open spec fn spec_lit_current() -> Seq<u8> {
    seq![0x2cu8, 0x20u8, 0x70u8, 0x6du8, 0x32u8, 0x2eu8, 0x35u8, 0x20u8, 0x64u8, 0x61u8, 0x74u8, 0x61u8, 0x3au8, 0x20u8, 0x63u8, 0x75u8, 0x72u8, 0x72u8, 0x65u8, 0x6eu8, 0x74u8, 0x20u8]
}

fn push_lit_current(out: &mut Vec<u8>)
    ensures
        final(out)@ == old(out)@ + spec_lit_current(),
{
    out.push(0x2c);
    out.push(0x20);
    out.push(0x70);
    out.push(0x6d);
    out.push(0x32);
    out.push(0x2e);
    out.push(0x35);
    out.push(0x20);
    out.push(0x64);
    out.push(0x61);
    out.push(0x74);
    out.push(0x61);
    out.push(0x3a);
    out.push(0x20);
    out.push(0x63);
    out.push(0x75);
    out.push(0x72);
    out.push(0x72);
    out.push(0x65);
    out.push(0x6e);
    out.push(0x74);
    out.push(0x20);
    proof {
        assert(out@ =~= old(out)@ + spec_lit_current());
    }
}

/// The text `; 10 min `: before the 10-minute average.
pub open spec fn spec_lit_ten_min() -> Seq<u8> {
    seq![0x3bu8, 0x20u8, 0x31u8, 0x30u8, 0x20u8, 0x6du8, 0x69u8, 0x6eu8, 0x20u8]
}

fn push_lit_ten_min(out: &mut Vec<u8>)
    ensures
        final(out)@ == old(out)@ + spec_lit_ten_min(),
{
    out.push(0x3b);
    out.push(0x20);
    out.push(0x31);
    out.push(0x30);
    out.push(0x20);
    out.push(0x6d);
    out.push(0x69);
    out.push(0x6e);
    out.push(0x20);
    proof {
        assert(out@ =~= old(out)@ + spec_lit_ten_min());
    }
}

/// The text `; 30 min `: before the 30-minute average.
pub open spec fn spec_lit_thirty_min() -> Seq<u8> {
    seq![0x3bu8, 0x20u8, 0x33u8, 0x30u8, 0x20u8, 0x6du8, 0x69u8, 0x6eu8, 0x20u8]
}

fn push_lit_thirty_min(out: &mut Vec<u8>)
    ensures
        final(out)@ == old(out)@ + spec_lit_thirty_min(),
{
    out.push(0x3b);
    out.push(0x20);
    out.push(0x33);
    out.push(0x30);
    out.push(0x20);
    out.push(0x6d);
    out.push(0x69);
    out.push(0x6e);
    out.push(0x20);
    proof {
        assert(out@ =~= old(out)@ + spec_lit_thirty_min());
    }
}

/// The text `; 6 hour `: before the 6-hour average.
pub open spec fn spec_lit_six_hour() -> Seq<u8> {
    seq![0x3bu8, 0x20u8, 0x36u8, 0x20u8, 0x68u8, 0x6fu8, 0x75u8, 0x72u8, 0x20u8]
}

fn push_lit_six_hour(out: &mut Vec<u8>)
    ensures
        final(out)@ == old(out)@ + spec_lit_six_hour(),
{
    out.push(0x3b);
    out.push(0x20);
    out.push(0x36);
    out.push(0x20);
    out.push(0x68);
    out.push(0x6f);
    out.push(0x75);
    out.push(0x72);
    out.push(0x20);
    proof {
        assert(out@ =~= old(out)@ + spec_lit_six_hour());
    }
}

/// The text `; 24 hour `: before the 24-hour average.
pub open spec fn spec_lit_day() -> Seq<u8> {
    seq![0x3bu8, 0x20u8, 0x32u8, 0x34u8, 0x20u8, 0x68u8, 0x6fu8, 0x75u8, 0x72u8, 0x20u8]
}

fn push_lit_day(out: &mut Vec<u8>)
    ensures
        final(out)@ == old(out)@ + spec_lit_day(),
{
    out.push(0x3b);
    out.push(0x20);
    out.push(0x32);
    out.push(0x34);
    out.push(0x20);
    out.push(0x68);
    out.push(0x6f);
    out.push(0x75);
    out.push(0x72);
    out.push(0x20);
    proof {
        assert(out@ =~= old(out)@ + spec_lit_day());
    }
}

/// The text `Pong!`: the reply to a ping.
pub open spec fn spec_lit_pong() -> Seq<u8> {
    seq![0x50u8, 0x6fu8, 0x6eu8, 0x67u8, 0x21u8]
}

fn push_lit_pong(out: &mut Vec<u8>)
    ensures
        final(out)@ == old(out)@ + spec_lit_pong(),
{
    out.push(0x50);
    out.push(0x6f);
    out.push(0x6e);
    out.push(0x67);
    out.push(0x21);
    proof {
        assert(out@ =~= old(out)@ + spec_lit_pong());
    }
}

/// The text `!aqi requires the sensor ID as an argument`: the reply when the command has no argument.
pub open spec fn spec_lit_missing_arg() -> Seq<u8> {
    seq![0x21u8, 0x61u8, 0x71u8, 0x69u8, 0x20u8, 0x72u8, 0x65u8, 0x71u8, 0x75u8, 0x69u8, 0x72u8, 0x65u8, 0x73u8, 0x20u8, 0x74u8, 0x68u8, 0x65u8, 0x20u8, 0x73u8, 0x65u8, 0x6eu8, 0x73u8, 0x6fu8, 0x72u8, 0x20u8, 0x49u8, 0x44u8, 0x20u8, 0x61u8, 0x73u8, 0x20u8, 0x61u8, 0x6eu8, 0x20u8, 0x61u8, 0x72u8, 0x67u8, 0x75u8, 0x6du8, 0x65u8, 0x6eu8, 0x74u8]
}

fn push_lit_missing_arg(out: &mut Vec<u8>)
    ensures
        final(out)@ == old(out)@ + spec_lit_missing_arg(),
{
    out.push(0x21);
    out.push(0x61);
    out.push(0x71);
    out.push(0x69);
    out.push(0x20);
    out.push(0x72);
    out.push(0x65);
    out.push(0x71);
    out.push(0x75);
    out.push(0x69);
    out.push(0x72);
    out.push(0x65);
    out.push(0x73);
    out.push(0x20);
    out.push(0x74);
    out.push(0x68);
    out.push(0x65);
    out.push(0x20);
    out.push(0x73);
    out.push(0x65);
    out.push(0x6e);
    out.push(0x73);
    out.push(0x6f);
    out.push(0x72);
    out.push(0x20);
    out.push(0x49);
    out.push(0x44);
    out.push(0x20);
    out.push(0x61);
    out.push(0x73);
    out.push(0x20);
    out.push(0x61);
    out.push(0x6e);
    out.push(0x20);
    out.push(0x61);
    out.push(0x72);
    out.push(0x67);
    out.push(0x75);
    out.push(0x6d);
    out.push(0x65);
    out.push(0x6e);
    out.push(0x74);
    proof {
        assert(out@ =~= old(out)@ + spec_lit_missing_arg());
    }
}

/// The text `Failed to parse id`: the reply when the argument is not an unsigned integer.
pub open spec fn spec_lit_bad_id() -> Seq<u8> {
    seq![0x46u8, 0x61u8, 0x69u8, 0x6cu8, 0x65u8, 0x64u8, 0x20u8, 0x74u8, 0x6fu8, 0x20u8, 0x70u8, 0x61u8, 0x72u8, 0x73u8, 0x65u8, 0x20u8, 0x69u8, 0x64u8]
}

fn push_lit_bad_id(out: &mut Vec<u8>)
    ensures
        final(out)@ == old(out)@ + spec_lit_bad_id(),
{
    out.push(0x46);
    out.push(0x61);
    out.push(0x69);
    out.push(0x6c);
    out.push(0x65);
    out.push(0x64);
    out.push(0x20);
    out.push(0x74);
    out.push(0x6f);
    out.push(0x20);
    out.push(0x70);
    out.push(0x61);
    out.push(0x72);
    out.push(0x73);
    out.push(0x65);
    out.push(0x20);
    out.push(0x69);
    out.push(0x64);
    proof {
        assert(out@ =~= old(out)@ + spec_lit_bad_id());
    }
}

/// The text `provider response is not valid JSON`: reply text for a malformed outer document.
pub open spec fn spec_lit_err_outer() -> Seq<u8> {
    seq![0x70u8, 0x72u8, 0x6fu8, 0x76u8, 0x69u8, 0x64u8, 0x65u8, 0x72u8, 0x20u8, 0x72u8, 0x65u8, 0x73u8, 0x70u8, 0x6fu8, 0x6eu8, 0x73u8, 0x65u8, 0x20u8, 0x69u8, 0x73u8, 0x20u8, 0x6eu8, 0x6fu8, 0x74u8, 0x20u8, 0x76u8, 0x61u8, 0x6cu8, 0x69u8, 0x64u8, 0x20u8, 0x4au8, 0x53u8, 0x4fu8, 0x4eu8]
}

fn push_lit_err_outer(out: &mut Vec<u8>)
    ensures
        final(out)@ == old(out)@ + spec_lit_err_outer(),
{
    out.push(0x70);
    out.push(0x72);
    out.push(0x6f);
    out.push(0x76);
    out.push(0x69);
    out.push(0x64);
    out.push(0x65);
    out.push(0x72);
    out.push(0x20);
    out.push(0x72);
    out.push(0x65);
    out.push(0x73);
    out.push(0x70);
    out.push(0x6f);
    out.push(0x6e);
    out.push(0x73);
    out.push(0x65);
    out.push(0x20);
    out.push(0x69);
    out.push(0x73);
    out.push(0x20);
    out.push(0x6e);
    out.push(0x6f);
    out.push(0x74);
    out.push(0x20);
    out.push(0x76);
    out.push(0x61);
    out.push(0x6c);
    out.push(0x69);
    out.push(0x64);
    out.push(0x20);
    out.push(0x4a);
    out.push(0x53);
    out.push(0x4f);
    out.push(0x4e);
    proof {
        assert(out@ =~= old(out)@ + spec_lit_err_outer());
    }
}

/// The text `provider response has no results list`: reply text when the results member is absent or not an array.
pub open spec fn spec_lit_err_results() -> Seq<u8> {
    seq![0x70u8, 0x72u8, 0x6fu8, 0x76u8, 0x69u8, 0x64u8, 0x65u8, 0x72u8, 0x20u8, 0x72u8, 0x65u8, 0x73u8, 0x70u8, 0x6fu8, 0x6eu8, 0x73u8, 0x65u8, 0x20u8, 0x68u8, 0x61u8, 0x73u8, 0x20u8, 0x6eu8, 0x6fu8, 0x20u8, 0x72u8, 0x65u8, 0x73u8, 0x75u8, 0x6cu8, 0x74u8, 0x73u8, 0x20u8, 0x6cu8, 0x69u8, 0x73u8, 0x74u8]
}

fn push_lit_err_results(out: &mut Vec<u8>)
    ensures
        final(out)@ == old(out)@ + spec_lit_err_results(),
{
    out.push(0x70);
    out.push(0x72);
    out.push(0x6f);
    out.push(0x76);
    out.push(0x69);
    out.push(0x64);
    out.push(0x65);
    out.push(0x72);
    out.push(0x20);
    out.push(0x72);
    out.push(0x65);
    out.push(0x73);
    out.push(0x70);
    out.push(0x6f);
    out.push(0x6e);
    out.push(0x73);
    out.push(0x65);
    out.push(0x20);
    out.push(0x68);
    out.push(0x61);
    out.push(0x73);
    out.push(0x20);
    out.push(0x6e);
    out.push(0x6f);
    out.push(0x20);
    out.push(0x72);
    out.push(0x65);
    out.push(0x73);
    out.push(0x75);
    out.push(0x6c);
    out.push(0x74);
    out.push(0x73);
    out.push(0x20);
    out.push(0x6c);
    out.push(0x69);
    out.push(0x73);
    out.push(0x74);
    proof {
        assert(out@ =~= old(out)@ + spec_lit_err_results());
    }
}

/// The text `sensor record is missing a required field`: reply text when a record lacks ID, Label or Stats.
pub open spec fn spec_lit_err_record() -> Seq<u8> {
    seq![0x73u8, 0x65u8, 0x6eu8, 0x73u8, 0x6fu8, 0x72u8, 0x20u8, 0x72u8, 0x65u8, 0x63u8, 0x6fu8, 0x72u8, 0x64u8, 0x20u8, 0x69u8, 0x73u8, 0x20u8, 0x6du8, 0x69u8, 0x73u8, 0x73u8, 0x69u8, 0x6eu8, 0x67u8, 0x20u8, 0x61u8, 0x20u8, 0x72u8, 0x65u8, 0x71u8, 0x75u8, 0x69u8, 0x72u8, 0x65u8, 0x64u8, 0x20u8, 0x66u8, 0x69u8, 0x65u8, 0x6cu8, 0x64u8]
}

fn push_lit_err_record(out: &mut Vec<u8>)
    ensures
        final(out)@ == old(out)@ + spec_lit_err_record(),
{
    out.push(0x73);
    out.push(0x65);
    out.push(0x6e);
    out.push(0x73);
    out.push(0x6f);
    out.push(0x72);
    out.push(0x20);
    out.push(0x72);
    out.push(0x65);
    out.push(0x63);
    out.push(0x6f);
    out.push(0x72);
    out.push(0x64);
    out.push(0x20);
    out.push(0x69);
    out.push(0x73);
    out.push(0x20);
    out.push(0x6d);
    out.push(0x69);
    out.push(0x73);
    out.push(0x73);
    out.push(0x69);
    out.push(0x6e);
    out.push(0x67);
    out.push(0x20);
    out.push(0x61);
    out.push(0x20);
    out.push(0x72);
    out.push(0x65);
    out.push(0x71);
    out.push(0x75);
    out.push(0x69);
    out.push(0x72);
    out.push(0x65);
    out.push(0x64);
    out.push(0x20);
    out.push(0x66);
    out.push(0x69);
    out.push(0x65);
    out.push(0x6c);
    out.push(0x64);
    proof {
        assert(out@ =~= old(out)@ + spec_lit_err_record());
    }
}

/// The text `sensor Stats field is not a string`: reply text when Stats is not a string.
pub open spec fn spec_lit_err_not_string() -> Seq<u8> {
    seq![0x73u8, 0x65u8, 0x6eu8, 0x73u8, 0x6fu8, 0x72u8, 0x20u8, 0x53u8, 0x74u8, 0x61u8, 0x74u8, 0x73u8, 0x20u8, 0x66u8, 0x69u8, 0x65u8, 0x6cu8, 0x64u8, 0x20u8, 0x69u8, 0x73u8, 0x20u8, 0x6eu8, 0x6fu8, 0x74u8, 0x20u8, 0x61u8, 0x20u8, 0x73u8, 0x74u8, 0x72u8, 0x69u8, 0x6eu8, 0x67u8]
}

fn push_lit_err_not_string(out: &mut Vec<u8>)
    ensures
        final(out)@ == old(out)@ + spec_lit_err_not_string(),
{
    out.push(0x73);
    out.push(0x65);
    out.push(0x6e);
    out.push(0x73);
    out.push(0x6f);
    out.push(0x72);
    out.push(0x20);
    out.push(0x53);
    out.push(0x74);
    out.push(0x61);
    out.push(0x74);
    out.push(0x73);
    out.push(0x20);
    out.push(0x66);
    out.push(0x69);
    out.push(0x65);
    out.push(0x6c);
    out.push(0x64);
    out.push(0x20);
    out.push(0x69);
    out.push(0x73);
    out.push(0x20);
    out.push(0x6e);
    out.push(0x6f);
    out.push(0x74);
    out.push(0x20);
    out.push(0x61);
    out.push(0x20);
    out.push(0x73);
    out.push(0x74);
    out.push(0x72);
    out.push(0x69);
    out.push(0x6e);
    out.push(0x67);
    proof {
        assert(out@ =~= old(out)@ + spec_lit_err_not_string());
    }
}

/// The text `sensor Stats payload is not valid JSON`: reply text when the nested document is malformed.
pub open spec fn spec_lit_err_stats_json() -> Seq<u8> {
    seq![0x73u8, 0x65u8, 0x6eu8, 0x73u8, 0x6fu8, 0x72u8, 0x20u8, 0x53u8, 0x74u8, 0x61u8, 0x74u8, 0x73u8, 0x20u8, 0x70u8, 0x61u8, 0x79u8, 0x6cu8, 0x6fu8, 0x61u8, 0x64u8, 0x20u8, 0x69u8, 0x73u8, 0x20u8, 0x6eu8, 0x6fu8, 0x74u8, 0x20u8, 0x76u8, 0x61u8, 0x6cu8, 0x69u8, 0x64u8, 0x20u8, 0x4au8, 0x53u8, 0x4fu8, 0x4eu8]
}

fn push_lit_err_stats_json(out: &mut Vec<u8>)
    ensures
        final(out)@ == old(out)@ + spec_lit_err_stats_json(),
{
    out.push(0x73);
    out.push(0x65);
    out.push(0x6e);
    out.push(0x73);
    out.push(0x6f);
    out.push(0x72);
    out.push(0x20);
    out.push(0x53);
    out.push(0x74);
    out.push(0x61);
    out.push(0x74);
    out.push(0x73);
    out.push(0x20);
    out.push(0x70);
    out.push(0x61);
    out.push(0x79);
    out.push(0x6c);
    out.push(0x6f);
    out.push(0x61);
    out.push(0x64);
    out.push(0x20);
    out.push(0x69);
    out.push(0x73);
    out.push(0x20);
    out.push(0x6e);
    out.push(0x6f);
    out.push(0x74);
    out.push(0x20);
    out.push(0x76);
    out.push(0x61);
    out.push(0x6c);
    out.push(0x69);
    out.push(0x64);
    out.push(0x20);
    out.push(0x4a);
    out.push(0x53);
    out.push(0x4f);
    out.push(0x4e);
    proof {
        assert(out@ =~= old(out)@ + spec_lit_err_stats_json());
    }
}

/// The text `sensor Stats payload is missing a reading`: reply text when a reading is absent, repeated or non-numeric.
pub open spec fn spec_lit_err_stats_field() -> Seq<u8> {
    seq![0x73u8, 0x65u8, 0x6eu8, 0x73u8, 0x6fu8, 0x72u8, 0x20u8, 0x53u8, 0x74u8, 0x61u8, 0x74u8, 0x73u8, 0x20u8, 0x70u8, 0x61u8, 0x79u8, 0x6cu8, 0x6fu8, 0x61u8, 0x64u8, 0x20u8, 0x69u8, 0x73u8, 0x20u8, 0x6du8, 0x69u8, 0x73u8, 0x73u8, 0x69u8, 0x6eu8, 0x67u8, 0x20u8, 0x61u8, 0x20u8, 0x72u8, 0x65u8, 0x61u8, 0x64u8, 0x69u8, 0x6eu8, 0x67u8]
}

fn push_lit_err_stats_field(out: &mut Vec<u8>)
    ensures
        final(out)@ == old(out)@ + spec_lit_err_stats_field(),
{
    out.push(0x73);
    out.push(0x65);
    out.push(0x6e);
    out.push(0x73);
    out.push(0x6f);
    out.push(0x72);
    out.push(0x20);
    out.push(0x53);
    out.push(0x74);
    out.push(0x61);
    out.push(0x74);
    out.push(0x73);
    out.push(0x20);
    out.push(0x70);
    out.push(0x61);
    out.push(0x79);
    out.push(0x6c);
    out.push(0x6f);
    out.push(0x61);
    out.push(0x64);
    out.push(0x20);
    out.push(0x69);
    out.push(0x73);
    out.push(0x20);
    out.push(0x6d);
    out.push(0x69);
    out.push(0x73);
    out.push(0x73);
    out.push(0x69);
    out.push(0x6e);
    out.push(0x67);
    out.push(0x20);
    out.push(0x61);
    out.push(0x20);
    out.push(0x72);
    out.push(0x65);
    out.push(0x61);
    out.push(0x64);
    out.push(0x69);
    out.push(0x6e);
    out.push(0x67);
    proof {
        assert(out@ =~= old(out)@ + spec_lit_err_stats_field());
    }
}

/// The reply line for record `m`: its id, then the AQI of the current,
/// 10-minute, 30-minute, 6-hour and 24-hour readings, each to one decimal
/// place.  The 1-hour and 1-week readings are decoded but not surfaced.
pub open spec fn spec_msg(m: SensorModel) -> Seq<u8> {
    spec_lit_id_prefix() + spec_u64_dec(m.id as int) + spec_lit_current() + spec_fmt_tenths(
        spec_raw_to_aqi(m.stats.v as int),
    ) + spec_lit_ten_min() + spec_fmt_tenths(spec_raw_to_aqi(m.stats.v1 as int))
        + spec_lit_thirty_min() + spec_fmt_tenths(spec_raw_to_aqi(m.stats.v2 as int))
        + spec_lit_six_hour() + spec_fmt_tenths(spec_raw_to_aqi(m.stats.v4 as int))
        + spec_lit_day() + spec_fmt_tenths(spec_raw_to_aqi(m.stats.v5 as int))
}

/// Build the reply line for the first record of a decoded response.
pub fn create_msg(r: &Response) -> (out: Vec<u8>)
    requires
        r.results@.len() > 0,
    ensures
        out@ == spec_msg(r@[0]),
{
    let sensor = &r.results[0];
    let mut out: Vec<u8> = Vec::new();
    push_lit_id_prefix(&mut out);
    push_u64_dec(&mut out, sensor.id);
    push_lit_current(&mut out);
    push_tenths(&mut out, raw_to_aqi(sensor.stats.v));
    push_lit_ten_min(&mut out);
    push_tenths(&mut out, raw_to_aqi(sensor.stats.v1));
    push_lit_thirty_min(&mut out);
    push_tenths(&mut out, raw_to_aqi(sensor.stats.v2));
    push_lit_six_hour(&mut out);
    push_tenths(&mut out, raw_to_aqi(sensor.stats.v4));
    push_lit_day(&mut out);
    push_tenths(&mut out, raw_to_aqi(sensor.stats.v5));
    proof {
        assert(out@ =~= spec_msg(r@[0]));
    }
    out
}

/// The provider URL that reads sensor `id`.
pub open spec fn spec_url(id: int) -> Seq<u8> {
    spec_lit_url() + spec_u64_dec(id)
}

/// Build the provider URL that reads sensor `id`.
pub fn create_url(id: u64) -> (out: Vec<u8>)
    ensures
        out@ == spec_url(id as int),
{
    let mut out: Vec<u8> = Vec::new();
    push_lit_url(&mut out);
    push_u64_dec(&mut out, id);
    proof {
        assert(out@ =~= spec_url(id as int));
    }
    out
}

/// The reply text for a decode error.
pub open spec fn spec_decode_error_msg(e: DecodeError) -> Seq<u8> {
    match e {
        DecodeError::MalformedOuter => spec_lit_err_outer(),
        DecodeError::ResultsMissing => spec_lit_err_results(),
        DecodeError::RecordFieldMissing => spec_lit_err_record(),
        DecodeError::StatsNotString => spec_lit_err_not_string(),
        DecodeError::MalformedStats => spec_lit_err_stats_json(),
        DecodeError::StatsFieldInvalid => spec_lit_err_stats_field(),
    }
}

/// Build the reply text for a decode error.
pub fn decode_error_msg(e: &DecodeError) -> (out: Vec<u8>)
    ensures
        out@ == spec_decode_error_msg(*e),
{
    let mut out: Vec<u8> = Vec::new();
    match e {
        DecodeError::MalformedOuter => push_lit_err_outer(&mut out),
        DecodeError::ResultsMissing => push_lit_err_results(&mut out),
        DecodeError::RecordFieldMissing => push_lit_err_record(&mut out),
        DecodeError::StatsNotString => push_lit_err_not_string(&mut out),
        DecodeError::MalformedStats => push_lit_err_stats_json(&mut out),
        DecodeError::StatsFieldInvalid => push_lit_err_stats_field(&mut out),
    }
    proof {
        assert(Seq::<u8>::empty() + spec_decode_error_msg(*e) =~= spec_decode_error_msg(*e));
    }
    out
}

/// What the bot should do with one incoming message.
pub enum Action {
    /// Not a command of this bot: no reply.
    Ignore,
    /// Reply with this text at once, without any fetch.
    Reply(Vec<u8>),
    /// Fetch this sensor's data and reply with its readings.
    Fetch(u64),
}

/// Specification-level image of an `Action`.
pub enum ActionModel {
    Ignore,
    Reply(Seq<u8>),
    Fetch(u64),
}

impl View for Action {
    type V = ActionModel;

    open spec fn view(&self) -> ActionModel {
        match self {
            Action::Ignore => ActionModel::Ignore,
            Action::Reply(t) => ActionModel::Reply(t@),
            Action::Fetch(id) => ActionModel::Fetch(*id),
        }
    }
}

/// Whether the message is exactly `!ping`.
pub open spec fn spec_is_ping(c: Seq<u8>) -> bool {
    c.len() == 5 && c[0] == 0x21 && c[1] == 0x70 && c[2] == 0x69 && c[3] == 0x6e && c[4] == 0x67
}

/// Whether the message invokes the AQI command: `!aqi` alone, or `!aqi`
/// followed by a space.
pub open spec fn spec_is_aqi(c: Seq<u8>) -> bool {
    c.len() >= 4 && c[0] == 0x21 && c[1] == 0x61 && c[2] == 0x71 && c[3] == 0x69 && (c.len() == 4
        || c[4] == 0x20)
}

/// End of the whitespace-delimited token starting at `i`.
pub open spec fn spec_token_end(c: Seq<u8>, i: int) -> int
    decreases c.len() - i,
{
    if 0 <= i < c.len() && !is_ws(c[i]) {
        spec_token_end(c, i + 1)
    } else {
        i
    }
}

fn token_end(c: &Vec<u8>, i: usize) -> (j: usize)
    requires
        i <= c@.len(),
    ensures
        j == spec_token_end(c@, i as int),
        i <= j <= c@.len(),
    decreases c@.len() - i,
{
    if i < c.len() {
        let b: u8 = c[i];
        if !(b == 0x20 || b == 0x09 || b == 0x0a || b == 0x0d) {
            return token_end(c, i + 1);
        }
    }
    i
}

/// The sensor id named by the token `c[st..en]`: an optional `+`, then
/// decimal digits whose value fits an unsigned 64-bit word, and nothing
/// else.
pub open spec fn spec_parse_id(c: Seq<u8>, st: int, en: int) -> Option<u64> {
    let ds = if st < en && c[st] == 0x2b {
        st + 1
    } else {
        st
    };
    if ds < en && ds < c.len() && is_digit(c[ds]) {
        match spec_digits_loop(c, ds, 0, 18446744073709551615) {
            Some((v, e)) => if e == en {
                Some(v as u64)
            } else {
                None
            },
            None => None,
        }
    } else {
        None
    }
}

fn parse_id(c: &Vec<u8>, st: usize, en: usize) -> (r: Option<u64>)
    requires
        st <= en <= c@.len(),
    ensures
        r == spec_parse_id(c@, st as int, en as int),
{
    let ds: usize = if st < en && c[st] == 0x2b {
        st + 1
    } else {
        st
    };
    if ds < en && c[ds] >= 0x30 && c[ds] <= 0x39 {
        match digits_loop(c, ds, 0, 18446744073709551615) {
            Ok((v, e)) => if e == en {
                Some(v)
            } else {
                None
            },
            Err(()) => None,
        }
    } else {
        None
    }
}

/// What one incoming message asks for.  `!ping` asks for the pong reply;
/// `!aqi` with no argument asks for the missing-argument reply; `!aqi` with
/// an argument that is not an unsigned integer asks for the parse-failure
/// reply; `!aqi` with a sensor id asks for a fetch of that sensor; anything
/// else is ignored.  Only the first whitespace-delimited token after the
/// command word is read.
pub open spec fn spec_plan(c: Seq<u8>) -> ActionModel {
    if spec_is_ping(c) {
        ActionModel::Reply(spec_lit_pong())
    } else if spec_is_aqi(c) {
        let st = if c.len() == 4 {
            4
        } else {
            spec_ws_end(c, 5)
        };
        if st >= c.len() {
            ActionModel::Reply(spec_lit_missing_arg())
        } else {
            match spec_parse_id(c, st, spec_token_end(c, st)) {
                Some(id) => ActionModel::Fetch(id),
                None => ActionModel::Reply(spec_lit_bad_id()),
            }
        }
    } else {
        ActionModel::Ignore
    }
}

/// Decide what one incoming message asks for.
pub fn plan_message(content: &Vec<u8>) -> (r: Action)
    ensures
        r@ == spec_plan(content@),
{
    if content.len() == 5 && content[0] == 0x21 && content[1] == 0x70 && content[2] == 0x69
        && content[3] == 0x6e && content[4] == 0x67 {
        let mut out: Vec<u8> = Vec::new();
        push_lit_pong(&mut out);
        proof {
            assert(out@ =~= spec_lit_pong());
        }
        return Action::Reply(out);
    }
    let aqi_cmd: bool = content.len() >= 4 && content[0] == 0x21 && content[1] == 0x61
        && content[2] == 0x71 && content[3] == 0x69 && (content.len() == 4 || content[4] == 0x20);
    if !aqi_cmd {
        return Action::Ignore;
    }
    let st: usize = if content.len() == 4 {
        4
    } else {
        ws_end(content, 5)
    };
    if st >= content.len() {
        let mut out: Vec<u8> = Vec::new();
        push_lit_missing_arg(&mut out);
        proof {
            assert(out@ =~= spec_lit_missing_arg());
        }
        return Action::Reply(out);
    }
    let en = token_end(content, st);
    match parse_id(content, st, en) {
        Some(id) => Action::Fetch(id),
        None => {
            let mut out: Vec<u8> = Vec::new();
            push_lit_bad_id(&mut out);
            proof {
                assert(out@ =~= spec_lit_bad_id());
            }
            Action::Reply(out)
        },
    }
}

} // verus!
