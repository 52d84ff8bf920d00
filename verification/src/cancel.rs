//! The cancellation registry: one live cancel signal per in-flight transfer.
//!
//! A transfer registers its identifier before the copy starts and removes it
//! when the copy completes, fails, or is cancelled, so at most one entry
//! exists per active transfer. Requesting cancellation for a registered
//! identifier signals the owning copy loop and retires the entry; an
//! identifier with no active transfer is a `not-found` failure. The signal is
//! only a request: the loop observes it at its own poll points.

use vstd::prelude::*;

use crate::errors::SftpError;
use crate::errors::SftpErrorView;
use crate::text::str_eq;

verus! {

/// The set of identifiers that a sequence of strings denotes.
pub open spec fn ids_of(s: Seq<String>) -> Set<Seq<char>>
    decreases s.len(),
{
    if s.len() == 0 {
        Set::empty()
    } else {
        ids_of(s.drop_last()).insert(s.last()@)
    }
}

/// No identifier occurs twice.
pub open spec fn unique_strings(s: Seq<String>) -> bool {
    forall|i: int, j: int| 0 <= i < j < s.len() ==> s[i]@ != s[j]@
}

/// The registry of transfers that can still be asked to stop.
pub struct CancelRegistry {
    ids: Vec<String>,
}

impl View for CancelRegistry {
    type V = Set<Seq<char>>;

    closed spec fn view(&self) -> Set<Seq<char>> {
        ids_of(self.ids@)
    }
}

proof fn lemma_ids_of_present(s: Seq<String>, i: int)
    requires
        0 <= i < s.len(),
    ensures
        ids_of(s).contains(s[i]@),
    decreases s.len(),
{
    if i < s.len() - 1 {
        let dl = s.drop_last();
        assert(forall|x: int| 0 <= x < dl.len() ==> dl[x] == s[x]);
        lemma_ids_of_present(dl, i);
    }
}

proof fn lemma_ids_of_absent(s: Seq<String>, k: Seq<char>)
    requires
        forall|i: int| 0 <= i < s.len() ==> s[i]@ != k,
    ensures
        !ids_of(s).contains(k),
    decreases s.len(),
{
    if s.len() > 0 {
        let dl = s.drop_last();
        assert(forall|x: int| 0 <= x < dl.len() ==> dl[x] == s[x]);
        lemma_ids_of_absent(dl, k);
    }
}

proof fn lemma_ids_of_remove(s: Seq<String>, i: int)
    requires
        unique_strings(s),
        0 <= i < s.len(),
    ensures
        ids_of(s.remove(i)) == ids_of(s).remove(s[i]@),
    decreases s.len(),
{
    let k = s[i]@;
    let dl = s.drop_last();
    assert(forall|x: int| 0 <= x < dl.len() ==> dl[x] == s[x]);
    if i == s.len() - 1 {
        assert(s.remove(i) =~= dl);
        lemma_ids_of_absent(dl, k);
        assert(ids_of(dl) =~= ids_of(dl).insert(k).remove(k));
    } else {
        assert(unique_strings(dl));
        lemma_ids_of_remove(dl, i);
        let w = s.remove(i);
        assert(w.last() == s.last());
        assert(w.drop_last() =~= dl.remove(i));
        assert(ids_of(w) == ids_of(dl.remove(i)).insert(s.last()@));
        assert(s.last()@ != k);
        assert(ids_of(dl).remove(k).insert(s.last()@) =~= ids_of(dl).insert(s.last()@).remove(k));
    }
}

/// The position of `id`, when it is registered.
fn find_id(ids: &Vec<String>, id: &str) -> (r: Option<usize>)
    ensures
        match r {
            Some(i) => i < ids@.len() && ids@[i as int]@ == id@,
            None => forall|j: int| 0 <= j < ids@.len() ==> ids@[j]@ != id@,
        },
{
    let n = ids.len();
    let mut i: usize = 0;
    while i < n
        invariant
            i <= n == ids@.len(),
            forall|j: int| 0 <= j < i ==> ids@[j]@ != id@,
        decreases n - i,
    {
        if str_eq(ids[i].as_str(), id) {
            return Some(i);
        }
        i = i + 1;
    }
    None
}

impl CancelRegistry {
    #[verifier::type_invariant]
    spec fn inv(self) -> bool {
        unique_strings(self.ids@)
    }

    /// A registry with no active transfers.
    pub fn new() -> (r: Self)
        ensures
            r@ == Set::<Seq<char>>::empty(),
    {
        CancelRegistry { ids: Vec::new() }
    }

    /// Registers a fresh cancel signal for `id`, superseding any stale
    /// entry left under the same identifier.
    pub fn register(&mut self, id: &str)
        ensures
            final(self)@ == old(self)@.insert(id@),
    {
        proof {
            use_type_invariant(&*self);
        }
        let ghost m0 = self@;
        let mut ids: Vec<String> = Vec::new();
        core::mem::swap(&mut ids, &mut self.ids);
        if let Some(_i) = find_id(&ids, id) {
            proof {
                lemma_ids_of_present(ids@, _i as int);
                assert(ids_of(ids@) =~= m0.insert(id@));
            }
        } else {
            let ghost w = ids@;
            ids.push(String::from_str(id));
            proof {
                assert(ids@.drop_last() =~= w);
                assert(ids_of(ids@) == ids_of(w).insert(id@));
                assert(unique_strings(ids@));
            }
        }
        core::mem::swap(&mut ids, &mut self.ids);
    }

    /// Whether a transfer is still registered under `id`.
    pub fn contains(&self, id: &str) -> (r: bool)
        ensures
            r == self@.contains(id@),
    {
        proof {
            use_type_invariant(self);
        }
        match find_id(&self.ids, id) {
            Some(i) => {
                proof {
                    lemma_ids_of_present(self.ids@, i as int);
                }
                true
            },
            None => {
                proof {
                    lemma_ids_of_absent(self.ids@, id@);
                }
                false
            },
        }
    }

    /// Signals the transfer registered under `id` to stop and retires its
    /// entry; an identifier with no active transfer is a `not-found`
    /// failure and the registry is unchanged.
    pub fn request_cancel(&mut self, id: &str) -> (r: Result<(), SftpError>)
        ensures
            old(self)@.contains(id@) ==> r is Ok && final(self)@ == old(self)@.remove(id@),
            !old(self)@.contains(id@) ==> {
                &&& r is Err
                &&& r->Err_0@ == SftpErrorView::NotFound(id@)
                &&& final(self)@ == old(self)@
            },
    {
        proof {
            use_type_invariant(&*self);
        }
        let ghost m0 = self@;
        let mut ids: Vec<String> = Vec::new();
        core::mem::swap(&mut ids, &mut self.ids);
        let r = if let Some(i) = find_id(&ids, id) {
            proof {
                lemma_ids_of_present(ids@, i as int);
                lemma_ids_of_remove(ids@, i as int);
            }
            ids.remove(i);
            proof {
                assert(forall|a: int, b: int|
                    0 <= a < b < ids@.len() ==> ids@[a]@ != ids@[b]@);
            }
            Ok(())
        } else {
            proof {
                lemma_ids_of_absent(ids@, id@);
            }
            Err(SftpError::NotFound(String::from_str(id)))
        };
        core::mem::swap(&mut ids, &mut self.ids);
        r
    }

    /// Retires the entry for a transfer that completed, failed, or was
    /// cancelled; absence is not an error.
    pub fn unregister(&mut self, id: &str)
        ensures
            final(self)@ == old(self)@.remove(id@),
    {
        proof {
            use_type_invariant(&*self);
        }
        let ghost m0 = self@;
        let mut ids: Vec<String> = Vec::new();
        core::mem::swap(&mut ids, &mut self.ids);
        if let Some(i) = find_id(&ids, id) {
            proof {
                lemma_ids_of_remove(ids@, i as int);
            }
            ids.remove(i);
            proof {
                assert(forall|a: int, b: int|
                    0 <= a < b < ids@.len() ==> ids@[a]@ != ids@[b]@);
            }
        } else {
            proof {
                lemma_ids_of_absent(ids@, id@);
                assert(ids_of(ids@) =~= m0.remove(id@));
            }
        }
        core::mem::swap(&mut ids, &mut self.ids);
    }
}

} // verus!
