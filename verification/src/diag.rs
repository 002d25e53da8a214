//! The panic diagnostic path: the single fatal-error report of the
//! program.
//!
//! A panic record carries an optional source location and an optional
//! message. The handler emits exactly one line on the error stream —
//! optional `<file>:<line>: ` prefix, the literal token `panicked`, an
//! optional `: <message>` suffix, a trailing newline — and nothing else;
//! the embedder must then terminate the process through its abort
//! primitive, since no unwinding is assumed. Nothing here allocates
//! beyond the line being built, and the record is only read.

use vstd::prelude::*;
use crate::decimal::{dec_bytes, u32_decimal};
use crate::stream::Stream;

verus! {

pub const COLON: u8 = 58;

pub const SPACE: u8 = 32;

pub const NEWLINE: u8 = 10;

/// A source position: file path bytes and a line number.
pub struct Location {
    pub file: Vec<u8>,
    pub line: u32,
}

/// What an invariant violation reports: where it happened and why, either
/// part optional.
pub struct PanicRecord {
    pub location: Option<Location>,
    pub message: Option<Vec<u8>>,
}

/// The bytes of the literal token `panicked`.
pub open spec fn panicked_bytes() -> Seq<u8> {
    seq![112u8, 97u8, 110u8, 105u8, 99u8, 107u8, 101u8, 100u8]
}

/// The exact diagnostic line for a panic record: optional
/// `<file>:<line>: ` prefix, `panicked`, optional `: <message>` suffix,
/// one trailing newline.
pub open spec fn diagnostic_of(rec: PanicRecord) -> Seq<u8> {
    (match rec.location {
        Some(loc) => loc.file@ + seq![COLON] + dec_bytes(loc.line as nat) + seq![COLON, SPACE],
        None => Seq::<u8>::empty(),
    }) + panicked_bytes() + (match rec.message {
        Some(msg) => seq![COLON, SPACE] + msg@,
        None => Seq::<u8>::empty(),
    }) + seq![NEWLINE]
}

/// Appends every byte of `src` to `dst`.
fn push_all(dst: &mut Vec<u8>, src: &Vec<u8>)
    ensures
        final(dst)@ == old(dst)@ + src@,
{
    let mut j: usize = 0;
    while j < src.len()
        invariant
            0 <= j <= src@.len(),
            dst@ == old(dst)@ + src@.take(j as int),
        decreases src@.len() - j,
    {
        dst.push(src[j]);
        proof {
            assert(src@.take(j + 1) =~= src@.take(j as int).push(src@[j as int]));
            assert(dst@ =~= old(dst)@ + src@.take(j + 1));
        }
        j = j + 1;
    }
    proof {
        assert(src@.take(src@.len() as int) =~= src@);
    }
}

/// Appends the literal token `panicked` to `dst`.
fn push_panicked(dst: &mut Vec<u8>)
    ensures
        final(dst)@ == old(dst)@ + panicked_bytes(),
{
    dst.push(112);
    dst.push(97);
    dst.push(110);
    dst.push(105);
    dst.push(99);
    dst.push(107);
    dst.push(101);
    dst.push(100);
    proof {
        assert(dst@ =~= old(dst)@ + panicked_bytes());
    }
}

/// Builds the diagnostic line for `rec`, exactly as the handler emits it,
/// in the order the report is laid out: location prefix, the token,
/// message suffix, newline.
pub fn diagnostic_bytes(rec: &PanicRecord) -> (v: Vec<u8>)
    ensures
        v@ == diagnostic_of(*rec),
{
    let mut v: Vec<u8> = Vec::new();
    match &rec.location {
        Some(loc) => {
            push_all(&mut v, &loc.file);
            v.push(COLON);
            let digits = u32_decimal(loc.line);
            push_all(&mut v, &digits);
            v.push(COLON);
            v.push(SPACE);
        },
        None => {},
    }
    push_panicked(&mut v);
    match &rec.message {
        Some(msg) => {
            v.push(COLON);
            v.push(SPACE);
            push_all(&mut v, msg);
        },
        None => {},
    }
    v.push(NEWLINE);
    proof {
        assert(v@ =~= diagnostic_of(*rec));
    }
    v
}

/// The process-wide fatal-error handler, but for the terminal step: it
/// emits the diagnostic line for `rec` on the error stream `err` and
/// leaves nothing else behind. The embedder must invoke its abort
/// primitive immediately after; no return to normal control flow is
/// meaningful. A failed error stream swallows the line and the handler
/// still ends the same way — emission is best-effort, termination is not.
pub fn panic_handler(rec: &PanicRecord, err: &mut Stream)
    requires
        diagnostic_of(*rec).len() <= i32::MAX as int,
    ensures
        final(err).is_ok() == old(err).is_ok(),
        old(err).is_ok() ==> final(err).contents() == old(err).contents() + diagnostic_of(*rec),
        !old(err).is_ok() ==> final(err).contents() == old(err).contents(),
{
    let line = diagnostic_bytes(rec);
    let _count = err.write_bytes(&line);
}

} // verus!
