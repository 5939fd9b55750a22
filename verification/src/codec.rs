//! Binary instruction codec: the fixed-layout mapping between a migration
//! request and the byte buffer consumed by the external pool program.
//!
//! Layout of the `Initialize2` variant, little-endian, no padding:
//! one tag byte (value `1`), one nonce byte, then `open_time`,
//! `quote_amount` and `base_amount` as eight bytes each; 26 bytes in all.
//! Trailing bytes beyond the last field are ignored by the decoder.

use vstd::prelude::*;
use vstd::bytes::lemma_auto_spec_u64_to_from_le_bytes;
use vstd::bytes::spec_u64_from_le_bytes;
use vstd::bytes::spec_u64_to_le_bytes;
use vstd::bytes::u64_from_le_bytes;
use vstd::bytes::u64_to_le_bytes;
use vstd::slice::slice_index_get;
use vstd::slice::slice_subrange;

verus! {

/// Discriminant tag of the `Initialize2` variant on the wire.
pub const INITIALIZE_TAG: u8 = 1;

/// Encoded length of the `Initialize2` variant: tag, nonce and three
/// eight-byte fields.
pub const INITIALIZE_LEN: usize = 26;

/// Payload of the pool-initialization request sent to the external program.
#[derive(Clone, Copy, Debug, PartialEq, Eq, Structural)]
pub struct InitializeInstruction2 {
    /// Salt used to derive the external pool's signing authority.
    pub nonce: u8,
    /// Unix timestamp after which the external pool permits trading.
    pub open_time: u64,
    /// Amount seeded on the external pool's quote side: this pool's base
    /// reserve (the sides are crossed at the boundary on purpose).
    pub quote_amount: u64,
    /// Amount seeded on the external pool's base side: this pool's quote
    /// reserve net of the seeding fee.
    pub base_amount: u64,
}

/// Requests understood by the external pool program; exactly one operation
/// is supported here.
#[derive(Clone, Copy, Debug, PartialEq, Eq, Structural)]
pub enum AmmInstruction {
    /// Initialize a new external pool seeded with the given amounts.
    Initialize2(InitializeInstruction2),
}

/// Why a byte buffer was rejected by [`AmmInstruction::unpack`].
#[derive(Clone, Copy, Debug, PartialEq, Eq, Structural)]
pub enum DecodeError {
    /// The buffer ends before the fields required by its tag.
    TruncatedInput,
    /// The tag byte does not name a supported operation.
    UnknownVariant,
}

/// The exact byte sequence that [`AmmInstruction::pack`] produces.
pub open spec fn spec_encode(r: AmmInstruction) -> Seq<u8> {
    match r {
        AmmInstruction::Initialize2(init) => seq![INITIALIZE_TAG, init.nonce]
            + spec_u64_to_le_bytes(init.open_time) + spec_u64_to_le_bytes(init.quote_amount)
            + spec_u64_to_le_bytes(init.base_amount),
    }
}

/// The value that [`AmmInstruction::unpack`] returns on `s`: the tag byte is
/// read first, an unrecognized tag is rejected, and a recognized tag is
/// rejected when the buffer is too short for its fields; bytes past the last
/// field are ignored.
pub open spec fn spec_decode(s: Seq<u8>) -> Result<AmmInstruction, DecodeError> {
    if s.len() < 1 {
        Err(DecodeError::TruncatedInput)
    } else if s[0] != INITIALIZE_TAG {
        Err(DecodeError::UnknownVariant)
    } else if s.len() < INITIALIZE_LEN {
        Err(DecodeError::TruncatedInput)
    } else {
        Ok(
            AmmInstruction::Initialize2(
                InitializeInstruction2 {
                    nonce: s[1],
                    open_time: spec_u64_from_le_bytes(s.subrange(2, 10)),
                    quote_amount: spec_u64_from_le_bytes(s.subrange(10, 18)),
                    base_amount: spec_u64_from_le_bytes(s.subrange(18, 26)),
                },
            ),
        )
    }
}

impl AmmInstruction {
    /// Packs the request into its fixed little-endian layout.
    pub fn pack(&self) -> (buf: Vec<u8>)
        ensures
            buf@ == spec_encode(*self),
            buf@.len() == INITIALIZE_LEN,
    {
        let mut buf: Vec<u8> = Vec::new();
        match self {
            AmmInstruction::Initialize2(init) => {
                buf.push(INITIALIZE_TAG);
                buf.push(init.nonce);
                let mut open_time = u64_to_le_bytes(init.open_time);
                buf.append(&mut open_time);
                let mut quote_amount = u64_to_le_bytes(init.quote_amount);
                buf.append(&mut quote_amount);
                let mut base_amount = u64_to_le_bytes(init.base_amount);
                buf.append(&mut base_amount);
            }
        }
        proof {
            assert(buf@ =~= spec_encode(*self));
        }
        buf
    }

    /// Unpacks a byte buffer into an [`AmmInstruction`].
    pub fn unpack(input: &[u8]) -> (r: Result<Self, DecodeError>)
        ensures
            r == spec_decode(input@),
    {
        if input.len() < 1 {
            return Err(DecodeError::TruncatedInput);
        }
        let tag = *slice_index_get(input, 0);
        if tag != INITIALIZE_TAG {
            return Err(DecodeError::UnknownVariant);
        }
        let rest0 = slice_subrange(input, 1, input.len());
        let (nonce, rest1) = match Self::unpack_u8(rest0) {
            Ok(p) => p,
            Err(e) => {
                return Err(e);
            },
        };
        let (open_time, rest2) = match Self::unpack_u64(rest1) {
            Ok(p) => p,
            Err(e) => {
                return Err(e);
            },
        };
        let (quote_amount, rest3) = match Self::unpack_u64(rest2) {
            Ok(p) => p,
            Err(e) => {
                return Err(e);
            },
        };
        let (base_amount, _rest4) = match Self::unpack_u64(rest3) {
            Ok(p) => p,
            Err(e) => {
                return Err(e);
            },
        };
        proof {
            let n = input@.len() as int;
            assert(rest1@ =~= input@.subrange(2, n));
            assert(rest1@.subrange(0, 8) =~= input@.subrange(2, 10));
            assert(rest2@ =~= input@.subrange(10, n));
            assert(rest2@.subrange(0, 8) =~= input@.subrange(10, 18));
            assert(rest3@ =~= input@.subrange(18, n));
            assert(rest3@.subrange(0, 8) =~= input@.subrange(18, 26));
        }
        Ok(
            AmmInstruction::Initialize2(
                InitializeInstruction2 { nonce, open_time, quote_amount, base_amount },
            ),
        )
    }

    /// Reads one byte and returns it with the bytes that follow.
    fn unpack_u8(input: &[u8]) -> (r: Result<(u8, &[u8]), DecodeError>)
        ensures
            input@.len() >= 1 ==> (r matches Ok(p) && p.0 == input@[0] && p.1@ == input@.subrange(
                1,
                input@.len() as int,
            )),
            input@.len() < 1 ==> (r matches Err(e) && e == DecodeError::TruncatedInput),
    {
        if input.len() >= 1 {
            let b = *slice_index_get(input, 0);
            let rest = slice_subrange(input, 1, input.len());
            Ok((b, rest))
        } else {
            Err(DecodeError::TruncatedInput)
        }
    }

    /// Reads one little-endian 64-bit integer and returns it with the bytes
    /// that follow.
    fn unpack_u64(input: &[u8]) -> (r: Result<(u64, &[u8]), DecodeError>)
        ensures
            input@.len() >= 8 ==> (r matches Ok(p) && p.0 == spec_u64_from_le_bytes(
                input@.subrange(0, 8),
            ) && p.1@ == input@.subrange(8, input@.len() as int)),
            input@.len() < 8 ==> (r matches Err(e) && e == DecodeError::TruncatedInput),
    {
        if input.len() >= 8 {
            let head = slice_subrange(input, 0, 8);
            let amount = u64_from_le_bytes(head);
            let rest = slice_subrange(input, 8, input.len());
            Ok((amount, rest))
        } else {
            Err(DecodeError::TruncatedInput)
        }
    }
}

/// Round-trip law: decoding an encoded request yields the request back.
pub proof fn lemma_encode_decode_round_trip(r: AmmInstruction)
    ensures
        spec_decode(spec_encode(r)) == Ok::<AmmInstruction, DecodeError>(r),
{
    lemma_auto_spec_u64_to_from_le_bytes();
    match r {
        AmmInstruction::Initialize2(init) => {
            let s = spec_encode(r);
            assert(s.subrange(2, 10) =~= spec_u64_to_le_bytes(init.open_time));
            assert(s.subrange(10, 18) =~= spec_u64_to_le_bytes(init.quote_amount));
            assert(s.subrange(18, 26) =~= spec_u64_to_le_bytes(init.base_amount));
        },
    }
}

/// Rejection law: every buffer shorter than the fixed layout is rejected;
/// an empty buffer, or a short buffer carrying the recognized tag, as
/// truncated, and any buffer carrying another tag as unknown.
pub proof fn lemma_decode_rejects(s: Seq<u8>)
    ensures
        s.len() < INITIALIZE_LEN ==> spec_decode(s) is Err,
        s.len() == 0 ==> spec_decode(s) == Err::<AmmInstruction, DecodeError>(
            DecodeError::TruncatedInput,
        ),
        s.len() >= 1 && s[0] != INITIALIZE_TAG ==> spec_decode(s) == Err::<
            AmmInstruction,
            DecodeError,
        >(DecodeError::UnknownVariant),
        1 <= s.len() < INITIALIZE_LEN && s[0] == INITIALIZE_TAG ==> spec_decode(s) == Err::<
            AmmInstruction,
            DecodeError,
        >(DecodeError::TruncatedInput),
{
}

} // verus!
