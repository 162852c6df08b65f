//! The packet that keeps the clients' clocks in step.

use vstd::prelude::*;
use crate::network::error::WireError;
use crate::network::wire::{lemma_u64_from_le_round_trip, lemma_u64_le_round_trip, u64_le, Wire};

verus! {

/// The server's current tick. On the wire a tick takes eight bytes, whatever
/// the width of the machine's word.
#[derive(Clone, Copy, Debug, PartialEq, Eq, Structural)]
pub struct TickSync {
    pub current: usize,
}

impl View for TickSync {
    type V = TickSync;

    open spec fn view(&self) -> TickSync {
        *self
    }
}

impl Wire for TickSync {
    open spec fn wire(value: TickSync) -> Seq<u8> {
        u64_le(value.current as u64)
    }

    open spec fn fits(value: TickSync) -> bool {
        true
    }

    open spec fn parse(bytes: Seq<u8>, at: int) -> core::result::Result<(TickSync, int), WireError> {
        match u64::parse(bytes, at) {
            Ok((current, next)) => {
                if current > usize::MAX {
                    Err(WireError::OutOfRange)
                } else {
                    Ok((TickSync { current: current as usize }, next))
                }
            },
            Err(error) => Err(error),
        }
    }

    proof fn lemma_parse_wire(bytes: Seq<u8>, at: int, value: TickSync) {
        lemma_u64_le_round_trip(value.current as u64);
        u64::lemma_parse_wire(bytes, at, value.current as u64);
    }

    proof fn lemma_wire_parse(bytes: Seq<u8>, at: int) {
        u64::lemma_wire_parse(bytes, at);
        if at + 8 <= bytes.len() {
            lemma_u64_from_le_round_trip(bytes.subrange(at, at + 8));
        }
    }

    fn write_to(&self, out: &mut Vec<u8>) -> (done: core::result::Result<(), WireError>) {
        (self.current as u64).write_to(out)
    }

    fn read_from(bytes: &[u8], at: usize) -> (read: core::result::Result<
        (TickSync, usize),
        WireError,
    >) {
        match u64::read_from(bytes, at) {
            Ok((current, next)) => {
                if current > usize::MAX as u64 {
                    Err(WireError::OutOfRange)
                } else {
                    Ok((TickSync { current: current as usize }, next))
                }
            },
            Err(error) => Err(error),
        }
    }
}

} // verus!
