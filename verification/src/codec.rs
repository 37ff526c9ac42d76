//! Wire codec for the brightness feature report.
//!
//! The device exchanges brightness over a fixed 7-byte feature report:
//! byte 0 is the report id (always 0 for this device), bytes 1 and 2 hold
//! the 16-bit brightness value little-endian, bytes 3..=6 are reserved and
//! zero.

use vstd::arithmetic::div_mod::lemma_fundamental_div_mod;
use vstd::prelude::*;
use crate::quantize::{is_step, is_step_value};

verus! {

/// Length in bytes of every feature report exchanged with the device.
pub const REPORT_LEN: usize = 7;

/// The feature report that carries brightness `v`: report id 0, then `v`
/// little-endian in two bytes, then four reserved zero bytes.
pub open spec fn report_spec(v: u16) -> Seq<u8> {
    seq![0u8, (v % 256) as u8, (v / 256) as u8, 0u8, 0u8, 0u8, 0u8]
}

/// The brightness value carried by a feature report: bytes 1 and 2 read
/// little-endian.
pub open spec fn decode_spec(bytes: Seq<u8>) -> int {
    bytes[1] + 256 * bytes[2]
}

/// Encode a brightness value into the fixed feature-report layout.
pub fn encode_brightness(v: u16) -> (r: [u8; 7])
    ensures
        r@ == report_spec(v),
{
    let r: [u8; 7] = [0u8, (v % 256) as u8, (v / 256) as u8, 0u8, 0u8, 0u8, 0u8];
    proof {
        assert(r@ =~= report_spec(v));
    }
    r
}

/// Decode the brightness value out of a feature report read from the
/// device.
pub fn decode_brightness(report: &[u8; 7]) -> (v: u16)
    ensures
        v == decode_spec(report@),
{
    let low = report[1] as u16;
    let high = report[2] as u16;
    low + high * 256
}

/// Build the feature report for a device write, or refuse the value.
///
/// The device must only ever be sent firmware-valid levels: a value that is
/// not a member of the step scale yields `None`, and the caller then issues
/// no transport write at all.
pub fn report_for_write(v: u16) -> (r: Option<[u8; 7]>)
    ensures
        is_step(v as int) <==> r is Some,
        r matches Some(rep) ==> rep@ == report_spec(v),
{
    if is_step_value(v) {
        Some(encode_brightness(v))
    } else {
        None
    }
}

/// Round-trip law of the wire layout: decoding the report that encodes `v`
/// yields `v` again, for every 16-bit brightness value (so in particular
/// for every member of the step scale).
pub proof fn lemma_report_roundtrip(v: u16)
    ensures
        decode_spec(report_spec(v)) == v,
{
    lemma_fundamental_div_mod(v as int, 256);
}

} // verus!
