//! Parameters of control sequences, and the replies to the shell.
use crate::terminal::model::{
    cursor_report, decimal, given, param, primary_attributes, secondary_attributes, status_report,
};
use vstd::prelude::*;

verus! {

/// Parameter `i`, or `default` where it is absent or zero.
pub fn param_or(params: &[u16], i: usize, default: usize) -> (value: usize)
    ensures
        value == param(params@, i as int, default as int),
{
    if i < params.len() && params[i] != 0 {
        params[i] as usize
    } else {
        default
    }
}

/// Parameter `at + offset` as it was sent, or zero where it is absent.
pub fn given_at(params: &[u16], at: usize, offset: usize) -> (value: u16)
    ensures
        value == given(params@, at + offset),
{
    if at < params.len() && offset < params.len() - at {
        params[at + offset]
    } else {
        0
    }
}

/// Appends `v` in decimal.
pub fn push_decimal(out: &mut Vec<u8>, v: u64)
    ensures
        final(out)@ == old(out)@ + decimal(v as nat),
    decreases v,
{
    if v >= 10 {
        push_decimal(out, v / 10);
    }
    out.push(0x30 + (v % 10) as u8);
    assert(out@ =~= old(out)@ + decimal(v as nat));
}

/// `CSI row ; col R`.
pub fn report_cursor(row: u64, col: u64) -> (bytes: Vec<u8>)
    ensures
        bytes@ == cursor_report(row as nat, col as nat),
{
    let mut bytes: Vec<u8> = Vec::new();
    bytes.push(0x1b);
    bytes.push(0x5b);
    push_decimal(&mut bytes, row);
    bytes.push(0x3b);
    push_decimal(&mut bytes, col);
    bytes.push(0x52);
    assert(bytes@ =~= cursor_report(row as nat, col as nat));
    bytes
}

/// `CSI 0 n`.
pub fn report_status() -> (bytes: Vec<u8>)
    ensures
        bytes@ == status_report(),
{
    let mut bytes: Vec<u8> = Vec::new();
    bytes.push(0x1b);
    bytes.push(0x5b);
    bytes.push(0x30);
    bytes.push(0x6e);
    assert(bytes@ =~= status_report());
    bytes
}

/// `CSI ? 6 c`.
pub fn report_primary() -> (bytes: Vec<u8>)
    ensures
        bytes@ == primary_attributes(),
{
    let mut bytes: Vec<u8> = Vec::new();
    bytes.push(0x1b);
    bytes.push(0x5b);
    bytes.push(0x3f);
    bytes.push(0x36);
    bytes.push(0x63);
    assert(bytes@ =~= primary_attributes());
    bytes
}

/// `CSI > 1 ; 4000 ; 33 c`.
pub fn report_secondary() -> (bytes: Vec<u8>)
    ensures
        bytes@ == secondary_attributes(),
{
    let mut bytes: Vec<u8> = Vec::new();
    bytes.push(0x1b);
    bytes.push(0x5b);
    bytes.push(0x3e);
    bytes.push(0x31);
    bytes.push(0x3b);
    bytes.push(0x34);
    bytes.push(0x30);
    bytes.push(0x30);
    bytes.push(0x30);
    bytes.push(0x3b);
    bytes.push(0x33);
    bytes.push(0x33);
    bytes.push(0x63);
    assert(bytes@ =~= secondary_attributes());
    bytes
}

} // verus!
