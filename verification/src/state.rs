//! Pool state: the persisted record of one trading pair.
//!
//! The record has a fixed 121-byte little-endian layout:
//! authority id (32 bytes), SOL reserve (8), token reserve (8), LP mint id
//! (32), fee rate (8), token mint id (32), initialized flag (1).  `pack` and
//! `unpack` translate between the in-memory state and that layout; loading
//! performs no validation beyond the layout itself.

use vstd::bytes::lemma_auto_spec_u64_to_from_le_bytes;
use vstd::bytes::spec_u64_from_le_bytes;
use vstd::bytes::spec_u64_to_le_bytes;
use vstd::bytes::u64_from_le_bytes;
use vstd::bytes::u64_to_le_bytes;
use vstd::prelude::*;
use vstd::slice::slice_subrange;
use vstd::slice::slice_to_vec;

verus! {

/// Serialized size of a pool record: three 32-byte identifiers, three
/// 8-byte integers, and one flag byte.
pub const POOL_STATE_LEN: usize = 32 + 8 + 8 + 32 + 8 + 32 + 1;

/// The state of one liquidity pool: reserves, fee configuration, and the
/// identities of its authority and token mints.
#[derive(Clone, Debug, PartialEq, Eq)]
pub struct PoolState {
    /// The pool administrator's 32-byte public key.
    pub authority: Vec<u8>,
    /// Current SOL balance held by the pool.
    pub sol_reserve: u64,
    /// Current SPL token balance held by the pool.
    pub token_reserve: u64,
    /// 32-byte mint id of the LP share token.
    pub lp_mint: Vec<u8>,
    /// Trading fee in basis points (1 bp = 0.01%); valid range `[0, 10000)`.
    pub fee_rate: u64,
    /// 32-byte mint id of the SPL token in the pool.
    pub token_mint: Vec<u8>,
    /// Whether the pool has been initialized; a pool is usable only when true.
    pub initialized: bool,
}

impl PoolState {
    /// The three identifier fields have their fixed 32-byte width.
    pub open spec fn ids_wf(self) -> bool {
        &&& self.authority@.len() == 32
        &&& self.lp_mint@.len() == 32
        &&& self.token_mint@.len() == 32
    }

    /// Pool invariant: identifiers are well-formed and the fee is below 100%.
    pub open spec fn wf(self) -> bool {
        &&& self.ids_wf()
        &&& self.fee_rate < 10000
    }

    /// The fixed little-endian serialization of this record.
    pub open spec fn spec_bytes(self) -> Seq<u8> {
        self.authority@ + spec_u64_to_le_bytes(self.sol_reserve)
            + spec_u64_to_le_bytes(self.token_reserve) + self.lp_mint@
            + spec_u64_to_le_bytes(self.fee_rate) + self.token_mint@
            + seq![if self.initialized { 1u8 } else { 0u8 }]
    }

    /// Serializes the record into its fixed 121-byte layout.
    pub fn pack(&self) -> (out: Vec<u8>)
        requires
            self.ids_wf(),
        ensures
            out@ == self.spec_bytes(),
            out@.len() == POOL_STATE_LEN,
    {
        let mut out: Vec<u8> = Vec::new();
        append_bytes(&mut out, &self.authority);
        let sol = u64_to_le_bytes(self.sol_reserve);
        append_bytes(&mut out, &sol);
        let token = u64_to_le_bytes(self.token_reserve);
        append_bytes(&mut out, &token);
        append_bytes(&mut out, &self.lp_mint);
        let fee = u64_to_le_bytes(self.fee_rate);
        append_bytes(&mut out, &fee);
        append_bytes(&mut out, &self.token_mint);
        if self.initialized {
            out.push(1u8);
        } else {
            out.push(0u8);
        }
        proof {
            lemma_auto_spec_u64_to_from_le_bytes();
            assert(out@ =~= self.spec_bytes());
        }
        out
    }

    /// Deserializes a pool record from its fixed 121-byte layout.
    ///
    /// Returns `None` exactly when the raw bytes do not match the layout:
    /// wrong length, or a flag byte that is neither 0 nor 1.  No further
    /// validation happens here; `initialized` and the fee range must be
    /// checked by callers before mutating.
    pub fn unpack(data: &[u8]) -> (r: Option<PoolState>)
        ensures
            r is Some <==> (data@.len() == POOL_STATE_LEN && (data@[120] == 0 || data@[120]
                == 1)),
            r matches Some(p) ==> {
                &&& p.ids_wf()
                &&& p.authority@ == data@.subrange(0, 32)
                &&& p.sol_reserve == spec_u64_from_le_bytes(data@.subrange(32, 40))
                &&& p.token_reserve == spec_u64_from_le_bytes(data@.subrange(40, 48))
                &&& p.lp_mint@ == data@.subrange(48, 80)
                &&& p.fee_rate == spec_u64_from_le_bytes(data@.subrange(80, 88))
                &&& p.token_mint@ == data@.subrange(88, 120)
                &&& p.initialized == (data@[120] != 0)
                &&& p.spec_bytes() == data@
            },
    {
        if data.len() != POOL_STATE_LEN {
            return None;
        }
        let flag = data[120];
        if flag != 0 && flag != 1 {
            return None;
        }
        let p = PoolState {
            authority: slice_to_vec(slice_subrange(data, 0, 32)),
            sol_reserve: u64_from_le_bytes(slice_subrange(data, 32, 40)),
            token_reserve: u64_from_le_bytes(slice_subrange(data, 40, 48)),
            lp_mint: slice_to_vec(slice_subrange(data, 48, 80)),
            fee_rate: u64_from_le_bytes(slice_subrange(data, 80, 88)),
            token_mint: slice_to_vec(slice_subrange(data, 88, 120)),
            initialized: flag != 0,
        };
        proof {
            lemma_auto_spec_u64_to_from_le_bytes();
            assert(p.spec_bytes() =~= data@);
        }
        Some(p)
    }
}

impl Default for PoolState {
    /// An uninitialized pool with zeroed reserves, zero fee, and zeroed ids.
    fn default() -> (p: PoolState)
        ensures
            p.wf(),
            !p.initialized,
            p.sol_reserve == 0,
            p.token_reserve == 0,
            p.fee_rate == 0,
    {
        PoolState {
            authority: zeroed_id(),
            sol_reserve: 0,
            token_reserve: 0,
            lp_mint: zeroed_id(),
            fee_rate: 0,
            token_mint: zeroed_id(),
            initialized: false,
        }
    }
}

/// A 32-byte identifier of all zeroes.
fn zeroed_id() -> (v: Vec<u8>)
    ensures
        v@.len() == 32,
        forall|i: int| 0 <= i < 32 ==> v@[i] == 0,
{
    let mut v: Vec<u8> = Vec::new();
    let mut i: usize = 0;
    while i < 32
        invariant
            i <= 32,
            v@.len() == i,
            forall|j: int| 0 <= j < i ==> v@[j] == 0,
        decreases 32 - i,
    {
        v.push(0u8);
        i = i + 1;
    }
    v
}

/// Appends all bytes of `src` to `out`.
fn append_bytes(out: &mut Vec<u8>, src: &Vec<u8>)
    ensures
        final(out)@ == old(out)@ + src@,
{
    let mut i: usize = 0;
    while i < src.len()
        invariant
            i <= src@.len(),
            out@ == old(out)@ + src@.subrange(0, i as int),
        decreases src@.len() - i,
    {
        out.push(src[i]);
        proof {
            assert(src@.subrange(0, i + 1) =~= src@.subrange(0, i as int).push(src@[i as int]));
        }
        i = i + 1;
    }
    proof {
        assert(src@.subrange(0, src@.len() as int) =~= src@);
    }
}

} // verus!
