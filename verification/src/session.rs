//! The session registry: the single source of truth for which connections
//! are usable.
//!
//! A session is registered under a caller-chosen identifier on successful
//! authentication and stays registered until an explicit disconnect.
//! Registering under an identifier that is already present replaces the old
//! entry (last write wins); disconnecting an unknown identifier is a no-op.
//! The registry is modelled as a map from identifier to connection record.

use vstd::prelude::*;

use crate::errors::SftpError;
use crate::errors::SftpErrorView;
use crate::text::str_eq;

verus! {

/// The parameters of one connection, stored under its `id`.
#[derive(Debug, Clone)]
pub struct SftpConnectionInfo {
    pub id: String,
    pub name: String,
    pub host: String,
    pub port: u16,
    pub username: String,
    pub password: String,
    pub connected: bool,
}

/// The mathematical shape of a connection record.
pub ghost struct SessionInfoView {
    pub id: Seq<char>,
    pub name: Seq<char>,
    pub host: Seq<char>,
    pub port: u16,
    pub username: Seq<char>,
    pub password: Seq<char>,
    pub connected: bool,
}

impl View for SftpConnectionInfo {
    type V = SessionInfoView;

    open spec fn view(&self) -> SessionInfoView {
        SessionInfoView {
            id: self.id@,
            name: self.name@,
            host: self.host@,
            port: self.port,
            username: self.username@,
            password: self.password@,
            connected: self.connected,
        }
    }
}

/// The map that a sequence of records denotes: later records win on an
/// equal identifier.
pub open spec fn sessions_of(s: Seq<SftpConnectionInfo>) -> Map<Seq<char>, SessionInfoView>
    decreases s.len(),
{
    if s.len() == 0 {
        Map::empty()
    } else {
        sessions_of(s.drop_last()).insert(s.last()@.id, s.last()@)
    }
}

/// No two records share an identifier.
pub open spec fn unique_ids(s: Seq<SftpConnectionInfo>) -> bool {
    forall|i: int, j: int| 0 <= i < j < s.len() ==> s[i]@.id != s[j]@.id
}

/// The registry of live sessions, keyed by caller-chosen identifier.
pub struct SessionRegistry {
    entries: Vec<SftpConnectionInfo>,
}

impl View for SessionRegistry {
    type V = Map<Seq<char>, SessionInfoView>;

    closed spec fn view(&self) -> Map<Seq<char>, SessionInfoView> {
        sessions_of(self.entries@)
    }
}

proof fn lemma_sessions_of_get(s: Seq<SftpConnectionInfo>, i: int)
    requires
        unique_ids(s),
        0 <= i < s.len(),
    ensures
        sessions_of(s).contains_key(s[i]@.id),
        sessions_of(s)[s[i]@.id] == s[i]@,
    decreases s.len(),
{
    if i < s.len() - 1 {
        let dl = s.drop_last();
        assert(forall|x: int| 0 <= x < dl.len() ==> dl[x] == s[x]);
        lemma_sessions_of_get(dl, i);
        assert(s.last()@.id != s[i]@.id);
    }
}

proof fn lemma_sessions_of_absent(s: Seq<SftpConnectionInfo>, k: Seq<char>)
    requires
        forall|i: int| 0 <= i < s.len() ==> s[i]@.id != k,
    ensures
        !sessions_of(s).contains_key(k),
    decreases s.len(),
{
    if s.len() > 0 {
        let dl = s.drop_last();
        assert(forall|x: int| 0 <= x < dl.len() ==> dl[x] == s[x]);
        lemma_sessions_of_absent(dl, k);
    }
}

proof fn lemma_sessions_of_remove(s: Seq<SftpConnectionInfo>, i: int)
    requires
        unique_ids(s),
        0 <= i < s.len(),
    ensures
        sessions_of(s.remove(i)) == sessions_of(s).remove(s[i]@.id),
    decreases s.len(),
{
    let k = s[i]@.id;
    let dl = s.drop_last();
    assert(forall|x: int| 0 <= x < dl.len() ==> dl[x] == s[x]);
    if i == s.len() - 1 {
        assert(s.remove(i) =~= dl);
        lemma_sessions_of_absent(dl, k);
        assert(sessions_of(dl) =~= sessions_of(dl).insert(k, s[i]@).remove(k));
    } else {
        assert(unique_ids(dl));
        lemma_sessions_of_remove(dl, i);
        let w = s.remove(i);
        assert(w.len() == s.len() - 1);
        assert(w.last() == s.last());
        assert(w.drop_last() =~= dl.remove(i));
        assert(sessions_of(w) == sessions_of(dl.remove(i)).insert(s.last()@.id, s.last()@));
        assert(s.last()@.id != k);
        assert(sessions_of(dl).remove(k).insert(s.last()@.id, s.last()@) =~= sessions_of(
            dl,
        ).insert(s.last()@.id, s.last()@).remove(k));
    }
}

/// The index of the record stored under `id`, when one exists.
fn find_index(entries: &Vec<SftpConnectionInfo>, id: &str) -> (r: Option<usize>)
    ensures
        match r {
            Some(i) => i < entries@.len() && entries@[i as int]@.id == id@,
            None => forall|j: int| 0 <= j < entries@.len() ==> entries@[j]@.id != id@,
        },
{
    let n = entries.len();
    let mut i: usize = 0;
    while i < n
        invariant
            i <= n == entries@.len(),
            forall|j: int| 0 <= j < i ==> entries@[j]@.id != id@,
        decreases n - i,
    {
        if str_eq(entries[i].id.as_str(), id) {
            return Some(i);
        }
        i = i + 1;
    }
    None
}

impl SessionRegistry {
    #[verifier::type_invariant]
    spec fn inv(self) -> bool {
        unique_ids(self.entries@)
    }

    /// A registry with no sessions.
    pub fn new() -> (r: Self)
        ensures
            r@ == Map::<Seq<char>, SessionInfoView>::empty(),
    {
        SessionRegistry { entries: Vec::new() }
    }

    /// Stores `info` under its identifier, replacing any prior entry with
    /// the same identifier, and returns that identifier.
    pub fn register(&mut self, info: SftpConnectionInfo) -> (sid: String)
        ensures
            final(self)@ == old(self)@.insert(info@.id, info@),
            sid@ == info@.id,
    {
        proof {
            use_type_invariant(&*self);
        }
        let ghost m0 = self@;
        let sid = info.id.clone();
        let mut entries: Vec<SftpConnectionInfo> = Vec::new();
        core::mem::swap(&mut entries, &mut self.entries);
        let ghost s0 = entries@;
        if let Some(i) = find_index(&entries, sid.as_str()) {
            proof {
                lemma_sessions_of_remove(s0, i as int);
            }
            entries.remove(i);
            proof {
                assert(forall|a: int, b: int|
                    0 <= a < b < entries@.len() ==> entries@[a]@.id != entries@[b]@.id);
                assert(forall|j: int| 0 <= j < entries@.len() ==> entries@[j]@.id != info@.id);
            }
        } else {
            proof {
                lemma_sessions_of_absent(s0, info@.id);
            }
        }
        let ghost w = entries@;
        proof {
            assert(sessions_of(w) =~= m0.remove(info@.id));
            assert(forall|j: int| 0 <= j < w.len() ==> w[j]@.id != info@.id);
        }
        entries.push(info);
        proof {
            assert(entries@.drop_last() =~= w);
            assert(sessions_of(entries@) == sessions_of(w).insert(info@.id, info@));
            assert(sessions_of(entries@) =~= m0.insert(info@.id, info@));
            assert(unique_ids(entries@));
        }
        core::mem::swap(&mut entries, &mut self.entries);
        sid
    }

    /// Removes the entry stored under `id`; absence is not an error.
    pub fn disconnect(&mut self, id: &str)
        ensures
            final(self)@ == old(self)@.remove(id@),
    {
        proof {
            use_type_invariant(&*self);
        }
        let ghost m0 = self@;
        let mut entries: Vec<SftpConnectionInfo> = Vec::new();
        core::mem::swap(&mut entries, &mut self.entries);
        let ghost s0 = entries@;
        if let Some(i) = find_index(&entries, id) {
            proof {
                lemma_sessions_of_remove(s0, i as int);
            }
            entries.remove(i);
            proof {
                assert(forall|a: int, b: int|
                    0 <= a < b < entries@.len() ==> entries@[a]@.id != entries@[b]@.id);
                assert(sessions_of(entries@) =~= m0.remove(id@));
            }
        } else {
            proof {
                lemma_sessions_of_absent(s0, id@);
                assert(sessions_of(entries@) =~= m0.remove(id@));
            }
        }
        core::mem::swap(&mut entries, &mut self.entries);
    }

    /// The record stored under `id`, when one exists.
    pub fn get(&self, id: &str) -> (r: Option<&SftpConnectionInfo>)
        ensures
            match r {
                Some(info) => self@.contains_key(id@) && info@ == self@[id@],
                None => !self@.contains_key(id@),
            },
    {
        proof {
            use_type_invariant(self);
        }
        match find_index(&self.entries, id) {
            Some(i) => {
                proof {
                    lemma_sessions_of_get(self.entries@, i as int);
                }
                Some(&self.entries[i])
            },
            None => {
                proof {
                    lemma_sessions_of_absent(self.entries@, id@);
                }
                None
            },
        }
    }

    /// Whether a session is registered under `id`.
    pub fn contains(&self, id: &str) -> (r: bool)
        ensures
            r == self@.contains_key(id@),
    {
        self.get(id).is_some()
    }

    /// The check every per-session operation makes before any remote work:
    /// success exactly when the session is registered, and a `not-found`
    /// failure naming the identifier otherwise.
    pub fn require_session(&self, id: &str) -> (r: Result<(), SftpError>)
        ensures
            r is Ok <==> self@.contains_key(id@),
            r is Err ==> r->Err_0@ == SftpErrorView::NotFound(id@),
    {
        if self.contains(id) {
            Ok(())
        } else {
            Err(SftpError::NotFound(String::from_str(id)))
        }
    }
}

/// Law: registering a session under an id that already exists replaces the
/// old entry, and a later lookup sees the new record.
pub proof fn lemma_register_replaces(
    m: Map<Seq<char>, SessionInfoView>,
    id: Seq<char>,
    first: SessionInfoView,
    second: SessionInfoView,
)
    ensures
        m.insert(id, first).insert(id, second) == m.insert(id, second),
        m.insert(id, second)[id] == second,
{
    assert(m.insert(id, first).insert(id, second) =~= m.insert(id, second));
}

/// Law: disconnecting an id that is not registered leaves the registry
/// unchanged (and the operation itself never fails).
pub proof fn lemma_disconnect_unknown_is_noop(m: Map<Seq<char>, SessionInfoView>, id: Seq<char>)
    requires
        !m.contains_key(id),
    ensures
        m.remove(id) == m,
{
    assert(m.remove(id) =~= m);
}

} // verus!
