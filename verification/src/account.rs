//! Synthetic accounts: immutable identities created during a run.

use vstd::prelude::*;

verus! {

/// One synthetic identity. Immutable once created: the address identifies
/// the account, the secret is the private key material handed to the key
/// store at creation time, the password is the passphrase its persisted
/// encryption was keyed with (lowercase ASCII bytes).
pub struct Account {
    pub address: Vec<u8>,
    pub secret: Vec<u8>,
    pub password: Vec<u8>,
}

impl Account {
    /// Builds an account from its parts.
    pub fn new(address: Vec<u8>, secret: Vec<u8>, password: Vec<u8>) -> (a: Account)
        ensures
            a.address@ == address@,
            a.secret@ == secret@,
            a.password@ == password@,
    {
        Account { address, secret, password }
    }
}

/// A fresh copy of a byte string.
pub fn copy_bytes(v: &Vec<u8>) -> (r: Vec<u8>)
    ensures
        r@ == v@,
{
    let mut r: Vec<u8> = Vec::new();
    let mut i: usize = 0;
    while i < v.len()
        invariant
            i <= v@.len(),
            r@ == v@.take(i as int),
        decreases v@.len() - i,
    {
        r.push(v[i]);
        proof {
            assert(r@ =~= v@.take(i + 1));
        }
        i = i + 1;
    }
    proof {
        assert(v@.take(v@.len() as int) =~= v@);
    }
    r
}

/// Whether two byte strings hold the same bytes.
pub fn bytes_eq(a: &Vec<u8>, b: &Vec<u8>) -> (eq: bool)
    ensures
        eq == (a@ == b@),
{
    if a.len() != b.len() {
        proof {
            assert(a@ != b@);
        }
        return false;
    }
    let mut i: usize = 0;
    while i < a.len()
        invariant
            i <= a@.len(),
            a@.len() == b@.len(),
            forall|k: int| 0 <= k < i ==> a@[k] == b@[k],
        decreases a@.len() - i,
    {
        if a[i] != b[i] {
            proof {
                assert(a@[i as int] != b@[i as int]);
            }
            return false;
        }
        i = i + 1;
    }
    proof {
        assert(a@ =~= b@);
    }
    true
}

} // verus!
