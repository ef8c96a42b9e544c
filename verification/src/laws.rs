//! The laws of the store, stated over [`StoreView`] — the abstract state
//! that every operation's contract speaks of — and proved for all inputs.

use vstd::prelude::*;

use crate::store::StoreView;

verus! {

/// Round trip: after a save of `data` and `address`, from any prior state,
/// the keystore file holds exactly `data` and the address file exactly
/// `address`, so the reads return them byte for byte.
pub proof fn lemma_save_round_trip(s: StoreView, data: Seq<char>, address: Seq<char>)
    ensures
        s.saved(data, address).keystore == Some(data),
        s.saved(data, address).address == Some(address),
{
}

/// Idempotent overwrite: a second save replaces the first in full, whatever
/// the state was before either — the store holds exactly the second pair of
/// contents, never a merge.
pub proof fn lemma_overwrite(
    s: StoreView,
    data1: Seq<char>,
    address1: Seq<char>,
    data2: Seq<char>,
    address2: Seq<char>,
)
    ensures
        s.saved(data1, address1).saved(data2, address2) == s.saved(data2, address2),
{
}

/// Existence semantics: the wallet does not exist in the initial state, and
/// exists immediately after any save, whatever the state was before it.
pub proof fn lemma_existence(s: StoreView, data: Seq<char>, address: Seq<char>)
    ensures
        !StoreView::initial().wallet_present(),
        s.saved(data, address).wallet_present(),
{
}

/// Before any save neither file holds contents, so a read of either returns
/// its not-found error rather than empty contents.
pub proof fn lemma_initial_not_found()
    ensures
        StoreView::initial().keystore is None,
        StoreView::initial().address is None,
{
}

/// Directory auto-creation: every operation leaves the configuration
/// directory in existence — the bare directory step, a full save, and the
/// partial state of a save whose second write failed — whatever the state
/// was before.
pub proof fn lemma_directory_created(s: StoreView, data: Seq<char>, address: Seq<char>)
    ensures
        s.with_dir().dir_exists,
        s.saved(data, address).dir_exists,
        s.keystore_saved(data).dir_exists,
{
}

/// Creating the directory is idempotent: repeating the step changes
/// nothing, and on a state whose directory already exists it is the
/// identity.
pub proof fn lemma_directory_creation_idempotent(s: StoreView)
    ensures
        s.with_dir().with_dir() == s.with_dir(),
        s.dir_exists ==> s.with_dir() == s,
{
}

/// The directory-precedes-files invariant holds initially and is preserved
/// by every transition a store operation can make.
pub proof fn lemma_wf_preserved(s: StoreView, data: Seq<char>, address: Seq<char>)
    requires
        s.wf(),
    ensures
        StoreView::initial().wf(),
        s.with_dir().wf(),
        s.saved(data, address).wf(),
        s.keystore_saved(data).wf(),
{
}

} // verus!
