//! The path packets.

use vstd::prelude::*;
use crate::network::error::WireError;
use crate::network::wire::{lemma_join_subrange, lemma_split_subrange, Wire};
use crate::id::NetworkId;

verus! {

/// The cell that a client asks to walk to.
#[derive(Clone, Copy, Debug, PartialEq, Eq, Structural)]
pub struct PathTargetRequest {
    pub x: i32,
    pub y: i32,
}

impl View for PathTargetRequest {
    type V = PathTargetRequest;

    open spec fn view(&self) -> PathTargetRequest {
        *self
    }
}

impl Wire for PathTargetRequest {
    open spec fn wire(value: PathTargetRequest) -> Seq<u8> {
        i32::wire(value.x) + i32::wire(value.y)
    }

    open spec fn fits(value: PathTargetRequest) -> bool {
        true
    }

    open spec fn parse(bytes: Seq<u8>, at: int) -> core::result::Result<(PathTargetRequest, int), WireError> {
        match i32::parse(bytes, at) {
            Ok((x, after_x)) => {
                match i32::parse(bytes, after_x) {
                    Ok((y, after_y)) => {
                        Ok((PathTargetRequest { x, y }, after_y))
                    },
                    Err(error) => Err(error),
                }
            },
            Err(error) => Err(error),
        }
    }

    proof fn lemma_parse_wire(bytes: Seq<u8>, at: int, value: PathTargetRequest) {
        let x = i32::wire(value.x);
        let y = i32::wire(value.y);
        lemma_split_subrange(bytes, at, x, y);
        i32::lemma_parse_wire(bytes, at, value.x);
        i32::lemma_parse_wire(bytes, at + x.len(), value.y);
    }

    proof fn lemma_wire_parse(bytes: Seq<u8>, at: int) {
        i32::lemma_wire_parse(bytes, at);
        if let Ok((x, after_x)) = i32::parse(bytes, at) {
            i32::lemma_wire_parse(bytes, after_x);
            if let Ok((y, after_y)) = i32::parse(bytes, after_x) {
                lemma_join_subrange(bytes, at, after_x, after_y);
            }
        }
    }

    fn write_to(&self, out: &mut Vec<u8>) -> (done: core::result::Result<(), WireError>) {
        let _ = self.x.write_to(out);
        let _ = self.y.write_to(out);
        assert(out@ =~= old(out)@ + Self::wire(self@));
        Ok(())
    }

    fn read_from(bytes: &[u8], at: usize) -> (read: core::result::Result<(PathTargetRequest, usize), WireError>) {
        let (x, after_x) = match i32::read_from(bytes, at) {
            Ok(read) => read,
            Err(error) => return Err(error),
        };
        let (y, after_y) = match i32::read_from(bytes, after_x) {
            Ok(read) => read,
            Err(error) => return Err(error),
        };
        Ok((PathTargetRequest { x, y }, after_y))
    }
}

/// The cell that an entity walks to, and the cell that it is on or is about
/// to enter.
#[derive(Clone, Copy, Debug, PartialEq, Eq, Structural)]
pub struct PathTarget {
    pub id: NetworkId,
    pub x: i32,
    pub y: i32,
    pub current_or_next_x: i32,
    pub current_or_next_y: i32,
}

impl View for PathTarget {
    type V = PathTarget;

    open spec fn view(&self) -> PathTarget {
        *self
    }
}

impl Wire for PathTarget {
    open spec fn wire(value: PathTarget) -> Seq<u8> {
        NetworkId::wire(value.id@) + (i32::wire(value.x) + (i32::wire(value.y) + (i32::wire(value.current_or_next_x) + i32::wire(value.current_or_next_y))))
    }

    open spec fn fits(value: PathTarget) -> bool {
        true
    }

    open spec fn parse(bytes: Seq<u8>, at: int) -> core::result::Result<(PathTarget, int), WireError> {
        match NetworkId::parse(bytes, at) {
            Ok((id, after_id)) => {
                match i32::parse(bytes, after_id) {
                    Ok((x, after_x)) => {
                        match i32::parse(bytes, after_x) {
                            Ok((y, after_y)) => {
                                match i32::parse(bytes, after_y) {
                                    Ok((current_or_next_x, after_current_or_next_x)) => {
                                        match i32::parse(bytes, after_current_or_next_x) {
                                            Ok((current_or_next_y, after_current_or_next_y)) => {
                                                Ok((PathTarget { id: NetworkId(id), x, y, current_or_next_x, current_or_next_y }, after_current_or_next_y))
                                            },
                                            Err(error) => Err(error),
                                        }
                                    },
                                    Err(error) => Err(error),
                                }
                            },
                            Err(error) => Err(error),
                        }
                    },
                    Err(error) => Err(error),
                }
            },
            Err(error) => Err(error),
        }
    }

    proof fn lemma_parse_wire(bytes: Seq<u8>, at: int, value: PathTarget) {
        let id = NetworkId::wire(value.id@);
        let x = i32::wire(value.x);
        let y = i32::wire(value.y);
        let current_or_next_x = i32::wire(value.current_or_next_x);
        let current_or_next_y = i32::wire(value.current_or_next_y);
        lemma_split_subrange(bytes, at, id, x + (y + (current_or_next_x + current_or_next_y)));
        NetworkId::lemma_parse_wire(bytes, at, value.id@);
        lemma_split_subrange(bytes, at + id.len(), x, y + (current_or_next_x + current_or_next_y));
        i32::lemma_parse_wire(bytes, at + id.len(), value.x);
        lemma_split_subrange(bytes, at + id.len() + x.len(), y, current_or_next_x + current_or_next_y);
        i32::lemma_parse_wire(bytes, at + id.len() + x.len(), value.y);
        lemma_split_subrange(bytes, at + id.len() + x.len() + y.len(), current_or_next_x, current_or_next_y);
        i32::lemma_parse_wire(bytes, at + id.len() + x.len() + y.len(), value.current_or_next_x);
        i32::lemma_parse_wire(bytes, at + id.len() + x.len() + y.len() + current_or_next_x.len(), value.current_or_next_y);
    }

    proof fn lemma_wire_parse(bytes: Seq<u8>, at: int) {
        NetworkId::lemma_wire_parse(bytes, at);
        if let Ok((id, after_id)) = NetworkId::parse(bytes, at) {
            i32::lemma_wire_parse(bytes, after_id);
            if let Ok((x, after_x)) = i32::parse(bytes, after_id) {
                i32::lemma_wire_parse(bytes, after_x);
                if let Ok((y, after_y)) = i32::parse(bytes, after_x) {
                    i32::lemma_wire_parse(bytes, after_y);
                    if let Ok((current_or_next_x, after_current_or_next_x)) = i32::parse(bytes, after_y) {
                        i32::lemma_wire_parse(bytes, after_current_or_next_x);
                        if let Ok((current_or_next_y, after_current_or_next_y)) = i32::parse(bytes, after_current_or_next_x) {
                            lemma_join_subrange(bytes, after_y, after_current_or_next_x, after_current_or_next_y);
                            lemma_join_subrange(bytes, after_x, after_y, after_current_or_next_y);
                            lemma_join_subrange(bytes, after_id, after_x, after_current_or_next_y);
                            lemma_join_subrange(bytes, at, after_id, after_current_or_next_y);
                        }
                    }
                }
            }
        }
    }

    fn write_to(&self, out: &mut Vec<u8>) -> (done: core::result::Result<(), WireError>) {
        let _ = self.id.write_to(out);
        let _ = self.x.write_to(out);
        let _ = self.y.write_to(out);
        let _ = self.current_or_next_x.write_to(out);
        let _ = self.current_or_next_y.write_to(out);
        assert(out@ =~= old(out)@ + Self::wire(self@));
        Ok(())
    }

    fn read_from(bytes: &[u8], at: usize) -> (read: core::result::Result<(PathTarget, usize), WireError>) {
        let (id, after_id) = match NetworkId::read_from(bytes, at) {
            Ok(read) => read,
            Err(error) => return Err(error),
        };
        let (x, after_x) = match i32::read_from(bytes, after_id) {
            Ok(read) => read,
            Err(error) => return Err(error),
        };
        let (y, after_y) = match i32::read_from(bytes, after_x) {
            Ok(read) => read,
            Err(error) => return Err(error),
        };
        let (current_or_next_x, after_current_or_next_x) = match i32::read_from(bytes, after_y) {
            Ok(read) => read,
            Err(error) => return Err(error),
        };
        let (current_or_next_y, after_current_or_next_y) = match i32::read_from(bytes, after_current_or_next_x) {
            Ok(read) => read,
            Err(error) => return Err(error),
        };
        Ok((PathTarget { id, x, y, current_or_next_x, current_or_next_y }, after_current_or_next_y))
    }
}

} // verus!
