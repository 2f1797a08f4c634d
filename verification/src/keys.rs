//! The provider's published key set and key selection.

use vstd::prelude::*;

use crate::errors::SelectionError;

verus! {

/// One entry of the published key set: a key identifier and the PEM-encoded
/// RSA public key it names. The set is retrieved fresh for each
/// verification and handed in by the caller; iteration order is the order
/// of this vector.
#[derive(Debug, Clone)]
pub struct KeyEntry {
    pub kid: String,
    pub pem: String,
}

/// The PEM of the first key in `keys` whose identifier is `kid`.
pub open spec fn spec_lookup(keys: Seq<KeyEntry>, kid: Seq<char>) -> Option<Seq<char>>
    decreases keys.len(),
{
    if keys.len() == 0 {
        None
    } else if keys[0].kid@ == kid {
        Some(keys[0].pem@)
    } else {
        spec_lookup(keys.drop_first(), kid)
    }
}

/// What header-driven selection returns: the key named by `kid`, or why
/// none could be chosen.
pub open spec fn spec_select(keys: Seq<KeyEntry>, kid: Seq<char>) -> Result<Seq<char>, SelectionError> {
    if keys.len() == 0 {
        Err(SelectionError::EmptyKeySet)
    } else {
        match spec_lookup(keys, kid) {
            Some(pem) => Ok(pem),
            None => Err(SelectionError::UnknownKeyId),
        }
    }
}

/// Header-driven key selection: pick the key whose identifier equals the
/// `kid` named by the token's header. This is the default policy of the
/// verifier.
pub fn select_key(keys: &Vec<KeyEntry>, kid: &str) -> (r: Result<String, SelectionError>)
    ensures
        r matches Ok(pem) ==> spec_select(keys@, kid@) == Ok::<Seq<char>, SelectionError>(pem@),
        r matches Err(e) ==> spec_select(keys@, kid@) == Err::<Seq<char>, SelectionError>(e),
{
    let n = keys.len();
    let kid_owned = kid.to_owned();
    proof {
        assert(keys@.skip(0) =~= keys@);
    }
    let mut i: usize = 0;
    while i < n
        invariant
            n == keys@.len(),
            kid_owned@ == kid@,
            i <= n,
            spec_lookup(keys@, kid@) == spec_lookup(keys@.skip(i as int), kid@),
        decreases n - i,
    {
        if keys[i].kid == kid_owned {
            proof {
                assert(keys@.skip(i as int)[0] == keys@[i as int]);
            }
            return Ok(keys[i].pem.clone());
        }
        proof {
            assert(keys@.skip(i as int).drop_first() =~= keys@.skip(i + 1));
        }
        i = i + 1;
    }
    proof {
        assert(keys@.skip(n as int).len() == 0);
    }
    if n == 0 {
        Err(SelectionError::EmptyKeySet)
    } else {
        Err(SelectionError::UnknownKeyId)
    }
}

/// Arbitrary selection, kept opt-in only: ignore the token's key
/// identifier and take a fixed position in iteration order — the second
/// key where the set has at least two entries, else the only one. This
/// policy cannot tell which key signed the token, so header-driven
/// `select_key` is the default.
pub fn select_key_arbitrary(keys: &Vec<KeyEntry>) -> (r: Result<String, SelectionError>)
    ensures
        keys@.len() == 0 ==> r == Err::<String, SelectionError>(SelectionError::EmptyKeySet),
        keys@.len() == 1 ==> (r matches Ok(pem) && pem@ == keys@[0].pem@),
        keys@.len() >= 2 ==> (r matches Ok(pem) && pem@ == keys@[1].pem@),
{
    if keys.len() == 0 {
        Err(SelectionError::EmptyKeySet)
    } else if keys.len() == 1 {
        Ok(keys[0].pem.clone())
    } else {
        Ok(keys[1].pem.clone())
    }
}

} // verus!
