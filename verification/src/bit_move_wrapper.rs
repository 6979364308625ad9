//! A compact, serializable move code.
//!
//! A move is carried everywhere as its raw 16-bit engine encoding: bits 0-5
//! hold the source square, bits 6-11 the destination square, bits 12-15 the
//! special-move flags.  The orchestrator never interprets the flags; it only
//! passes the code to the rules engine and echoes it to participants.
use vstd::prelude::*;
use crate::square::Square;

verus! {

#[verifier::external_type_specification]
#[verifier::external_body]
pub struct ExBitMove(pleco::BitMove);

/// The raw 16-bit payload of an engine move value.  `pleco::BitMove` is a
/// transparent wrapper around that payload; this names it for contracts.
pub uninterp spec fn raw_of(m: pleco::BitMove) -> u16;

/// Relies on pleco::BitMove::get_raw: returns the stored 16-bit payload.
pub assume_specification[ pleco::BitMove::get_raw ](m: pleco::BitMove) -> (r: u16)
    ensures
        r == raw_of(m),
;

/// Relies on pleco::BitMove::new: stores the given 16-bit payload verbatim.
pub assume_specification[ pleco::BitMove::new ](input: u16) -> (r: pleco::BitMove)
    ensures
        raw_of(r) == input,
;

/// The source square encoded in a raw move code (bits 0-5).
pub open spec fn src_of(raw: u16) -> u8 {
    (raw & 0x3f) as u8
}

/// The destination square encoded in a raw move code (bits 6-11).
pub open spec fn dst_of(raw: u16) -> u8 {
    ((raw >> 6) & 0x3f) as u8
}

/// An immutable value object holding one move as its raw engine code.
#[derive(Clone, Copy, Debug, PartialEq, Eq, Structural, Hash)]
pub struct BitMoveWrapper {
    pub bit_move: u16,
}

impl BitMoveWrapper {
    /// Wraps an engine move value, keeping its raw code.
    pub fn new(bit_move: pleco::BitMove) -> (r: Result<BitMoveWrapper, EncodeError>)
        ensures
            r matches Ok(w) && w.bit_move == raw_of(bit_move),
    {
        Ok(BitMoveWrapper { bit_move: bit_move.get_raw() })
    }

    /// Rebuilds the engine move value this wrapper stands for.
    pub fn to_bit_move(&self) -> (r: pleco::BitMove)
        ensures
            raw_of(r) == self.bit_move,
    {
        pleco::BitMove::new(self.bit_move)
    }

    /// The source square of the encoded move.
    pub fn source(&self) -> (r: Square)
        ensures
            r.index == src_of(self.bit_move),
            r.wf(),
    {
        let raw: u16 = self.bit_move;
        let idx: u16 = raw & 0x3f;
        assert(idx < 64) by (bit_vector)
            requires
                idx == raw & 0x3f,
        ;
        Square { index: idx as u8 }
    }

    /// The destination square of the encoded move.
    pub fn destination(&self) -> (r: Square)
        ensures
            r.index == dst_of(self.bit_move),
            r.wf(),
    {
        let raw: u16 = self.bit_move;
        let idx: u16 = (raw >> 6) & 0x3f;
        assert(idx < 64) by (bit_vector)
            requires
                idx == (raw >> 6) & 0x3f,
        ;
        Square { index: idx as u8 }
    }
}

/// Raised when an engine move value cannot be wrapped.  Wrapping keeps the raw
/// code verbatim, so no input is actually refused; the variant exists so the
/// constructor can keep its fallible shape.
#[derive(Clone, Copy, Debug, PartialEq, Eq, Structural)]
pub enum EncodeError {
    Unrepresentable,
}

impl From<pleco::BitMove> for BitMoveWrapper {
    fn from(bit_move: pleco::BitMove) -> (r: BitMoveWrapper) {
        BitMoveWrapper { bit_move: bit_move.get_raw() }
    }
}

impl vstd::std_specs::convert::FromSpecImpl<pleco::BitMove> for BitMoveWrapper {
    open spec fn obeys_from_spec() -> bool {
        true
    }

    open spec fn from_spec(bit_move: pleco::BitMove) -> BitMoveWrapper {
        BitMoveWrapper { bit_move: raw_of(bit_move) }
    }
}

} // verus!
