//! Account-address derivation seeds.
//!
//! Every durable account of the bridge lives at a deterministically derived
//! location: a fixed tag, then the relevant keys and integers in
//! little-endian byte order.  Off-ledger components must reproduce this
//! byte layout exactly to find the accounts without a lookup table; the
//! functions here pin it down byte for byte.  Hashing the seeds into an
//! address is the ledger runtime's job, not part of this layout.

use vstd::prelude::*;

use crate::keys::Key32;

verus! {

broadcast use vstd::array::group_array_axioms;

/// Tag of the bridge config account.
pub open spec fn bridge_tag() -> Seq<u8> {
    seq![98u8, 114u8, 105u8, 100u8, 103u8, 101u8]
}

/// Tag of the vault authority.
pub open spec fn vault_tag() -> Seq<u8> {
    seq![118u8, 97u8, 117u8, 108u8, 116u8]
}

/// Tag of a lock record.
pub open spec fn lock_tag() -> Seq<u8> {
    seq![108u8, 111u8, 99u8, 107u8]
}

/// Tag of a processed-message marker.
pub open spec fn processed_tag() -> Seq<u8> {
    seq![112u8, 114u8, 111u8, 99u8, 101u8, 115u8, 115u8, 101u8, 100u8]
}

fn tag_bridge() -> (r: Vec<u8>)
    ensures
        r@ == bridge_tag(),
{
    let mut v: Vec<u8> = Vec::new();
    v.push(98u8);
    v.push(114u8);
    v.push(105u8);
    v.push(100u8);
    v.push(103u8);
    v.push(101u8);
    proof {
        assert(v@ =~= bridge_tag());
    }
    v
}

fn tag_vault() -> (r: Vec<u8>)
    ensures
        r@ == vault_tag(),
{
    let mut v: Vec<u8> = Vec::new();
    v.push(118u8);
    v.push(97u8);
    v.push(117u8);
    v.push(108u8);
    v.push(116u8);
    proof {
        assert(v@ =~= vault_tag());
    }
    v
}

fn tag_lock() -> (r: Vec<u8>)
    ensures
        r@ == lock_tag(),
{
    let mut v: Vec<u8> = Vec::new();
    v.push(108u8);
    v.push(111u8);
    v.push(99u8);
    v.push(107u8);
    proof {
        assert(v@ =~= lock_tag());
    }
    v
}

fn tag_processed() -> (r: Vec<u8>)
    ensures
        r@ == processed_tag(),
{
    let mut v: Vec<u8> = Vec::new();
    v.push(112u8);
    v.push(114u8);
    v.push(111u8);
    v.push(99u8);
    v.push(101u8);
    v.push(115u8);
    v.push(115u8);
    v.push(101u8);
    v.push(100u8);
    proof {
        assert(v@ =~= processed_tag());
    }
    v
}

/// A key's bytes as an owned seed.
fn key_seed(key: &Key32) -> (r: Vec<u8>)
    ensures
        r@ == key@,
{
    vstd::slice::slice_to_vec(key.as_slice())
}

/// Seeds of the bridge config account: the config tag, then the token mint.
pub fn bridge_config_seeds(token_mint: &Key32) -> (r: Vec<Vec<u8>>)
    ensures
        r@.len() == 2,
        r@[0]@ == bridge_tag(),
        r@[1]@ == token_mint@,
{
    let mut r: Vec<Vec<u8>> = Vec::new();
    r.push(tag_bridge());
    r.push(key_seed(token_mint));
    r
}

/// Seeds of the vault authority: the vault tag, then the config address.
pub fn vault_authority_seeds(config_key: &Key32) -> (r: Vec<Vec<u8>>)
    ensures
        r@.len() == 2,
        r@[0]@ == vault_tag(),
        r@[1]@ == config_key@,
{
    let mut r: Vec<Vec<u8>> = Vec::new();
    r.push(tag_vault());
    r.push(key_seed(config_key));
    r
}

/// Seeds of the lock record for one nonce: the lock tag, the config
/// address, then the nonce in little-endian bytes.
pub fn lock_record_seeds(config_key: &Key32, nonce: u64) -> (r: Vec<Vec<u8>>)
    ensures
        r@.len() == 3,
        r@[0]@ == lock_tag(),
        r@[1]@ == config_key@,
        r@[2]@ == vstd::bytes::spec_u64_to_le_bytes(nonce),
{
    let mut r: Vec<Vec<u8>> = Vec::new();
    r.push(tag_lock());
    r.push(key_seed(config_key));
    r.push(vstd::bytes::u64_to_le_bytes(nonce));
    r
}

/// Seeds of the processed-message marker for one (source chain, nonce)
/// pair: the processed tag, then both integers in little-endian bytes.
pub fn processed_message_seeds(src_chain_id: u64, nonce: u64) -> (r: Vec<Vec<u8>>)
    ensures
        r@.len() == 3,
        r@[0]@ == processed_tag(),
        r@[1]@ == vstd::bytes::spec_u64_to_le_bytes(src_chain_id),
        r@[2]@ == vstd::bytes::spec_u64_to_le_bytes(nonce),
{
    let mut r: Vec<Vec<u8>> = Vec::new();
    r.push(tag_processed());
    r.push(vstd::bytes::u64_to_le_bytes(src_chain_id));
    r.push(vstd::bytes::u64_to_le_bytes(nonce));
    r
}

} // verus!
