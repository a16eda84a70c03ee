//! Principal identifiers. A principal is named by the address of its account,
//! which the surrounding runtime has authenticated before it reaches this
//! library; the library only tells addresses apart.

use anchor_lang::prelude::Pubkey;
use vstd::prelude::*;

verus! {

/// `anchor_lang::prelude::Pubkey`, the 32-byte address of an account. The
/// library carries addresses as opaque values and reads nothing inside them.
#[verifier::external_type_specification]
#[verifier::external_body]
pub struct ExPubkey(anchor_lang::prelude::Pubkey);

/// `Pubkey`'s `==`: the derived comparison of the two 32-byte addresses.
/// Trusted: two addresses compare equal exactly when they are the same value.
#[verifier::external_body]
pub(crate) fn same_key(a: &Pubkey, b: &Pubkey) -> (same: bool)
    ensures
        same == (*a == *b),
{
    a == b
}

/// Whether `key` occurs in `keys`.
pub fn contains_key(keys: &Vec<Pubkey>, key: &Pubkey) -> (found: bool)
    ensures
        found == keys@.contains(*key),
{
    let mut i: usize = 0;
    while i < keys.len()
        invariant
            i <= keys.len(),
            forall|j: int| 0 <= j < i ==> keys@[j] != *key,
        decreases keys.len() - i,
    {
        if same_key(&keys[i], key) {
            return true;
        }
        i += 1;
    }
    false
}

/// A list of the same keys in the same order.
pub(crate) fn copy_keys(keys: &Vec<Pubkey>) -> (copy: Vec<Pubkey>)
    ensures
        copy@ == keys@,
{
    let mut copy: Vec<Pubkey> = Vec::new();
    let mut i: usize = 0;
    while i < keys.len()
        invariant
            i <= keys.len(),
            copy@ == keys@.take(i as int),
        decreases keys.len() - i,
    {
        copy.push(keys[i]);
        i += 1;
    }
    copy
}

/// Distinct keys stay distinct when a key that is not among them joins them.
pub proof fn lemma_push_keeps_distinct(keys: Seq<Pubkey>, key: Pubkey)
    requires
        keys.no_duplicates(),
        !keys.contains(key),
    ensures
        keys.push(key).no_duplicates(),
{
    let longer = keys.push(key);
    assert forall|i: int, j: int|
        0 <= i < longer.len() && 0 <= j < longer.len() && i != j implies longer[i] != longer[j] by {
        if i < keys.len() && j < keys.len() {
            assert(keys[i] != keys[j]);
        } else if i < keys.len() {
            assert(keys.contains(keys[i]));
        } else {
            assert(keys.contains(keys[j]));
        }
    }
}

/// A key that is among the keys is still among them when another joins them.
pub proof fn lemma_push_keeps_contained(keys: Seq<Pubkey>, key: Pubkey, contained: Pubkey)
    requires
        keys.contains(contained),
    ensures
        keys.push(key).contains(contained),
{
    let i = choose|i: int| 0 <= i < keys.len() && keys[i] == contained;
    assert(keys.push(key)[i] == contained);
}

} // verus!
