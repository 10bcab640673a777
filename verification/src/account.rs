//! Identities of owners, wallets and destinations, and helpers over
//! lists of identities.

use vstd::prelude::*;

verus! {

/// An opaque 256-bit identity. The engine never interprets an identity;
/// it only compares identities for equality, so the two halves are held
/// as plain integers.
#[derive(Clone, Copy, PartialEq, Eq, Structural, Debug, Hash)]
pub struct AccountId {
    pub hi: u128,
    pub lo: u128,
}

impl AccountId {
    pub fn new(hi: u128, lo: u128) -> (r: AccountId)
        ensures
            r == (AccountId { hi, lo }),
    {
        AccountId { hi, lo }
    }
}

/// True iff `ids` holds `target`.
pub fn contains_id(ids: &Vec<AccountId>, target: AccountId) -> (r: bool)
    ensures
        r == ids@.contains(target),
{
    let mut i: usize = 0;
    while i < ids.len()
        invariant
            0 <= i <= ids@.len(),
            forall|j: int| 0 <= j < i ==> ids@[j] != target,
        decreases ids@.len() - i,
    {
        if ids[i] == target {
            assert(ids@.contains(target));
            return true;
        }
        i = i + 1;
    }
    false
}

/// The sequence `ids` with every occurrence of `target` removed, the
/// order of the other elements kept.
pub open spec fn remove_id(ids: Seq<AccountId>, target: AccountId) -> Seq<AccountId>
    decreases ids.len(),
{
    if ids.len() == 0 {
        ids
    } else {
        let rest = remove_id(ids.drop_last(), target);
        if ids.last() == target {
            rest
        } else {
            rest.push(ids.last())
        }
    }
}

/// A new vector equal to `ids` with every occurrence of `target`
/// removed.
pub fn remove_account(ids: &Vec<AccountId>, target: AccountId) -> (r: Vec<AccountId>)
    ensures
        r@ == remove_id(ids@, target),
{
    let mut kept: Vec<AccountId> = Vec::new();
    let mut i: usize = 0;
    while i < ids.len()
        invariant
            0 <= i <= ids@.len(),
            kept@ == remove_id(ids@.take(i as int), target),
        decreases ids@.len() - i,
    {
        proof {
            assert(ids@.take(i + 1).drop_last() =~= ids@.take(i as int));
            assert(ids@.take(i + 1).last() == ids@[i as int]);
        }
        if ids[i] != target {
            kept.push(ids[i]);
        }
        i = i + 1;
    }
    proof {
        assert(ids@.take(ids@.len() as int) =~= ids@);
    }
    kept
}

/// Removing an identity that is not in the sequence changes nothing.
pub proof fn lemma_remove_id_absent(ids: Seq<AccountId>, target: AccountId)
    requires
        !ids.contains(target),
    ensures
        remove_id(ids, target) == ids,
    decreases ids.len(),
{
    if ids.len() > 0 {
        assert forall|j: int| 0 <= j < ids.drop_last().len() implies ids.drop_last()[j] != target by {
            assert(ids[j] != target);
        }
        lemma_remove_id_absent(ids.drop_last(), target);
        assert(ids[ids.len() - 1] != target);
        assert(ids.drop_last().push(ids.last()) =~= ids);
    }
}

/// What `remove_id` keeps: no occurrence of the removed identity, every
/// other identity exactly as often as before, distinctness preserved,
/// and on a duplicate-free sequence that held the identity the length
/// drops by exactly one.
pub proof fn lemma_remove_id_properties(ids: Seq<AccountId>, target: AccountId)
    ensures
        remove_id(ids, target).len() <= ids.len(),
        !remove_id(ids, target).contains(target),
        forall|x: AccountId| x != target ==> remove_id(ids, target).contains(x) == ids.contains(x),
        ids.no_duplicates() ==> remove_id(ids, target).no_duplicates(),
        ids.no_duplicates() && ids.contains(target) ==> remove_id(ids, target).len() == ids.len()
            - 1,
    decreases ids.len(),
{
    if ids.len() > 0 {
        let dl = ids.drop_last();
        let rest = remove_id(dl, target);
        lemma_remove_id_properties(dl, target);
        assert forall|x: AccountId| #[trigger] ids.contains(x) implies dl.contains(x) || ids.last()
            == x by {
            let k = choose|k: int| 0 <= k < ids.len() && ids[k] == x;
            if k < ids.len() - 1 {
                assert(dl[k] == x);
            }
        }
        assert forall|x: AccountId| #[trigger] dl.contains(x) implies ids.contains(x) by {
            let k = choose|k: int| 0 <= k < dl.len() && dl[k] == x;
            assert(ids[k] == x);
        }
        if ids.no_duplicates() {
            assert forall|i: int, j: int|
                0 <= i < dl.len() && 0 <= j < dl.len() && i != j implies dl[i] != dl[j] by {
                assert(ids[i] == dl[i] && ids[j] == dl[j]);
            }
            assert(dl.no_duplicates());
        }
        if ids.last() == target {
            assert(remove_id(ids, target) == rest);
            if ids.no_duplicates() && ids.contains(target) {
                assert forall|j: int| 0 <= j < dl.len() implies dl[j] != target by {
                    assert(ids[j] == dl[j]);
                    assert(ids[ids.len() - 1] == target);
                }
                assert(!dl.contains(target));
                lemma_remove_id_absent(dl, target);
            }
            assert forall|x: AccountId|
                x != target implies remove_id(ids, target).contains(x) == ids.contains(
                x,
            ) by {
                if ids.contains(x) {
                    assert(dl.contains(x) || ids.last() == x);
                    assert(dl.contains(x));
                    assert(rest.contains(x));
                }
                if rest.contains(x) {
                    assert(dl.contains(x));
                    assert(ids.contains(x));
                }
            }
        } else {
            let out = rest.push(ids.last());
            assert(remove_id(ids, target) == out);
            assert forall|x: AccountId| #[trigger] out.contains(x) implies rest.contains(x)
                || ids.last() == x by {
                let k = choose|k: int| 0 <= k < out.len() && out[k] == x;
                if k < out.len() - 1 {
                    assert(rest[k] == x);
                }
            }
            assert forall|x: AccountId| #[trigger] rest.contains(x) implies out.contains(x) by {
                let k = choose|k: int| 0 <= k < rest.len() && rest[k] == x;
                assert(out[k] == x);
            }
            assert(out.contains(ids.last())) by {
                assert(out[out.len() - 1] == ids.last());
            }
            assert(!out.contains(target));
            assert forall|x: AccountId|
                x != target implies out.contains(x) == ids.contains(x) by {
                if ids.contains(x) {
                    assert(dl.contains(x) || ids.last() == x);
                    if dl.contains(x) {
                        assert(rest.contains(x));
                        assert(out.contains(x));
                    } else {
                        assert(out.contains(ids.last()));
                    }
                }
                if out.contains(x) {
                    assert(rest.contains(x) || ids.last() == x);
                    if rest.contains(x) {
                        assert(dl.contains(x));
                        assert(ids.contains(x));
                    } else {
                        assert(ids[ids.len() - 1] == ids.last());
                        assert(ids.contains(ids.last()));
                    }
                }
            }
            if ids.no_duplicates() {
                assert forall|j: int| 0 <= j < dl.len() implies dl[j] != ids.last() by {
                    assert(ids[j] == dl[j]);
                    assert(ids[j] != ids[ids.len() - 1]);
                }
                assert(!dl.contains(ids.last()));
                assert(!rest.contains(ids.last()));
                assert forall|i: int, j: int|
                    0 <= i < out.len() && 0 <= j < out.len() && i != j implies out[i] != out[j] by {
                    if i < out.len() - 1 && j < out.len() - 1 {
                        assert(out[i] == rest[i] && out[j] == rest[j]);
                    } else if i == out.len() - 1 {
                        assert(rest.contains(rest[j]));
                    } else {
                        assert(rest.contains(rest[i]));
                    }
                }
                assert(out.no_duplicates());
                if ids.contains(target) {
                    assert(dl.contains(target) || ids.last() == target);
                }
            }
        }
    }
}

/// Removing an identity just confirmed restores the confirmation list:
/// if `target` was absent from `ids`, removing it after pushing it
/// yields `ids` again.
pub proof fn lemma_remove_id_push(ids: Seq<AccountId>, target: AccountId)
    requires
        !ids.contains(target),
    ensures
        remove_id(ids.push(target), target) == ids,
{
    assert(ids.push(target).drop_last() =~= ids);
    assert(ids.push(target).last() == target);
    lemma_remove_id_absent(ids, target);
}

} // verus!
