//! Account lock/type scripts, their canonical serialization and hash.
//!
//! A script serializes as a three-field table: a 4-byte total size, three
//! 4-byte field offsets, the 32-byte code hash, the 1-byte hash type, and the
//! args as a length-prefixed byte string. All numbers are little endian. The
//! script hash is the 32-byte digest of that serialization.

use vstd::prelude::*;
use crate::hash::H256;

verus! {

/// Hash type of a script that is located by type script hash.
pub const SCRIPT_HASH_TYPE_TYPE: u8 = 1;

/// A lock or type script: code hash, hash type and arguments.
#[derive(Clone, Debug, PartialEq, Eq)]
pub struct Script {
    pub code_hash: H256,
    pub hash_type: u8,
    pub args: Vec<u8>,
}

/// The four little-endian bytes of a 32-bit number.
pub open spec fn le32(v: u32) -> Seq<u8> {
    seq![
        (v & 0xff) as u8,
        ((v >> 8) & 0xff) as u8,
        ((v >> 16) & 0xff) as u8,
        ((v >> 24) & 0xff) as u8,
    ]
}

/// The canonical serialization of a script: total size, the three field
/// offsets (16, 48, 49), code hash, hash type, and length-prefixed args.
pub open spec fn serialized_script(code_hash: Seq<u8>, hash_type: u8, args: Seq<u8>) -> Seq<u8> {
    le32((53 + args.len()) as u32) + le32(16) + le32(48) + le32(49) + code_hash + seq![hash_type]
        + le32(args.len() as u32) + args
}

/// The 32-byte digest of a byte string under the chain's default hash.
pub uninterp spec fn blake2b_of(data: Seq<u8>) -> Seq<u8>;

/// Relies on ckb_hash::blake2b_256: blake2b with a 32-byte digest and the
/// ckb-default-hash personalization. The digest is a function of the input
/// bytes alone.
#[verifier::external_body]
pub(crate) fn blake2b256(data: &Vec<u8>) -> (r: H256)
    ensures
        r@ == blake2b_of(data@),
{
    H256 { b: ckb_hash::blake2b_256(data.as_slice()) }
}

fn push_le32(out: &mut Vec<u8>, v: u32)
    ensures
        final(out)@ == old(out)@ + le32(v),
{
    out.push((v & 0xff) as u8);
    out.push(((v >> 8) & 0xff) as u8);
    out.push(((v >> 16) & 0xff) as u8);
    out.push(((v >> 24) & 0xff) as u8);
    proof {
        assert(out@ =~= old(out)@ + le32(v));
    }
}

impl Script {
    pub open spec fn serialized(self) -> Seq<u8> {
        serialized_script(self.code_hash@, self.hash_type, self.args@)
    }

    /// Spec-level script hash.
    pub open spec fn hash_spec(self) -> Seq<u8> {
        blake2b_of(self.serialized())
    }

    /// Serializes the script into its canonical byte form.
    pub fn serialize(&self) -> (r: Vec<u8>)
        requires
            self.args@.len() + 53 <= u32::MAX,
        ensures
            r@ == self.serialized(),
    {
        let mut out: Vec<u8> = Vec::new();
        let args_len: u32 = self.args.len() as u32;
        push_le32(&mut out, 53 + args_len);
        push_le32(&mut out, 16);
        push_le32(&mut out, 48);
        push_le32(&mut out, 49);
        let mut i: usize = 0;
        while i < 32
            invariant
                i <= 32,
                out@ =~= le32((53 + self.args@.len()) as u32) + le32(16) + le32(48) + le32(49)
                    + self.code_hash@.subrange(0, i as int),
                self.args@.len() + 53 <= u32::MAX,
            decreases 32 - i,
        {
            out.push(self.code_hash.b[i]);
            proof {
                assert(self.code_hash@.subrange(0, i + 1 as int) =~= self.code_hash@.subrange(
                    0,
                    i as int,
                ).push(self.code_hash@[i as int]));
            }
            i += 1;
        }
        proof {
            assert(self.code_hash@.subrange(0, 32) =~= self.code_hash@);
        }
        out.push(self.hash_type);
        push_le32(&mut out, args_len);
        let mut j: usize = 0;
        while j < self.args.len()
            invariant
                j <= self.args@.len(),
                out@ =~= le32((53 + self.args@.len()) as u32) + le32(16) + le32(48) + le32(49)
                    + self.code_hash@ + seq![self.hash_type] + le32(self.args@.len() as u32)
                    + self.args@.subrange(0, j as int),
                self.args@.len() + 53 <= u32::MAX,
            decreases self.args@.len() - j,
        {
            out.push(self.args[j]);
            proof {
                assert(self.args@.subrange(0, j + 1 as int) =~= self.args@.subrange(
                    0,
                    j as int,
                ).push(self.args@[j as int]));
            }
            j += 1;
        }
        proof {
            assert(self.args@.subrange(0, self.args@.len() as int) =~= self.args@);
            assert(out@ =~= self.serialized());
        }
        out
    }

    /// The script hash: the digest of the canonical serialization.
    pub fn hash(&self) -> (r: H256)
        requires
            self.args@.len() + 53 <= u32::MAX,
        ensures
            r@ == self.hash_spec(),
    {
        let bytes = self.serialize();
        blake2b256(&bytes)
    }
}

/// Builds the layer-2 token script for a layer-1 token: the configured
/// validator as code hash, hash type `Type`, and the rollup script hash
/// followed by the layer-1 token script hash as args.
pub fn build_l2_sudt_script(
    rollup_script_hash: &H256,
    l2_sudt_validator_script_type_hash: &H256,
    l1_sudt_script_hash: &H256,
) -> (r: Script)
    ensures
        r.code_hash@ == l2_sudt_validator_script_type_hash@,
        r.hash_type == SCRIPT_HASH_TYPE_TYPE,
        r.args@ == rollup_script_hash@ + l1_sudt_script_hash@,
{
    let mut args: Vec<u8> = Vec::new();
    let mut i: usize = 0;
    while i < 32
        invariant
            i <= 32,
            args@ =~= rollup_script_hash@.subrange(0, i as int),
        decreases 32 - i,
    {
        args.push(rollup_script_hash.b[i]);
        i += 1;
    }
    proof {
        assert(rollup_script_hash@.subrange(0, 32) =~= rollup_script_hash@);
    }
    let mut j: usize = 0;
    while j < 32
        invariant
            j <= 32,
            args@ =~= rollup_script_hash@ + l1_sudt_script_hash@.subrange(0, j as int),
        decreases 32 - j,
    {
        args.push(l1_sudt_script_hash.b[j]);
        j += 1;
    }
    proof {
        assert(l1_sudt_script_hash@.subrange(0, 32) =~= l1_sudt_script_hash@);
        assert(args@ =~= rollup_script_hash@ + l1_sudt_script_hash@);
    }
    Script { code_hash: H256 { b: l2_sudt_validator_script_type_hash.b }, hash_type: SCRIPT_HASH_TYPE_TYPE, args }
}

} // verus!
