//! What every JavaScript handle does with the client it may hold.

use vstd::prelude::*;

verus! {

/// What a handle answers when asked for its client: the client it holds, or
/// the message that no client was set.
pub open spec fn client_lookup<C>(slot: Option<C>) -> Result<C, Seq<char>> {
    match slot {
        Some(c) => Ok(c),
        None => Err(crate::CLIENT_NOT_FOUND_ERROR_MSG@),
    }
}

/// A handle that was given a client hands out that client, whatever it held
/// before.
pub proof fn lemma_lookup_after_set<C>(client: C)
    ensures
        client_lookup(Some(client)) == Ok::<C, Seq<char>>(client),
{
}

/// A handle that holds no client answers with the message that no client was
/// set, and with nothing else.
pub proof fn lemma_lookup_without_client<C>()
    ensures
        client_lookup::<C>(None) == Err::<C, Seq<char>>(crate::CLIENT_NOT_FOUND_ERROR_MSG@),
        forall|slot: Option<C>| (client_lookup(slot) is Err) <==> slot is None,
{
}

} // verus!
