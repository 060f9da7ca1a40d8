//! The store of pending authorization sessions, in which a code redeems its session once.

use crate::data::pkce::CodeChallenge;
use crate::data::scope::Scope;
use crate::data::scope::ScopeSet;
use crate::data::time::UnixTime;
use crate::data::time::later_by;
use crate::data::uri::Uri;
use crate::parameter::ClientId;
use crate::parameter::Code;
use crate::parameter::Subject;
use vstd::prelude::*;

verus! {

/// What an authorization request leaves behind for the token request that redeems its code.
#[derive(Debug, PartialEq, Eq)]
pub struct AuthSession {
    pub client_id: ClientId,
    pub code_challenge: CodeChallenge,
    pub redirect_uri: Uri,
    pub scope: ScopeSet,
    pub user_id: Subject,
}

/// An authorization session as plain values.
pub ghost struct AuthSessionView {
    pub client_id: Seq<char>,
    pub code_challenge: Seq<char>,
    pub redirect_uri: Seq<char>,
    pub scope: Set<Scope>,
    pub user_id: Seq<char>,
}

impl View for AuthSession {
    type V = AuthSessionView;

    open spec fn view(&self) -> AuthSessionView {
        AuthSessionView {
            client_id: self.client_id@,
            code_challenge: self.code_challenge@,
            redirect_uri: self.redirect_uri@,
            scope: self.scope@,
            user_id: self.user_id@,
        }
    }
}

impl Clone for AuthSession {
    fn clone(&self) -> (copy: Self)
        ensures
            copy@ == self@,
    {
        AuthSession {
            client_id: self.client_id.clone(),
            code_challenge: self.code_challenge.clone(),
            redirect_uri: self.redirect_uri.clone(),
            scope: self.scope,
            user_id: self.user_id.clone(),
        }
    }
}

/// A session that waits to be redeemed, and when it was filed, if that is on record.
#[derive(Debug, PartialEq, Eq)]
pub struct Pending {
    pub session: AuthSession,
    pub filed: Option<UnixTime>,
}

/// A pending session as plain values.
pub ghost struct PendingView {
    pub session: AuthSessionView,
    pub filed: Option<nat>,
}

impl View for Pending {
    type V = PendingView;

    open spec fn view(&self) -> PendingView {
        PendingView {
            session: self.session@,
            filed: match self.filed {
                Some(time) => Some(time@),
                None => None,
            },
        }
    }
}

/// A session without a record of when it was filed, which no sweep removes.
pub open spec fn kept_for_good(session: AuthSessionView) -> PendingView {
    PendingView { session, filed: None }
}

/// A session filed at `time`.
pub open spec fn filed_at(session: AuthSessionView, time: nat) -> PendingView {
    PendingView { session, filed: Some(time) }
}

/// Whether a pending session has outlived `lifetime` seconds once the clock reads `now`. A
/// session is stale at the end of its lifetime, not after it; one without a record of when
/// it was filed never is.
pub open spec fn stale(pending: PendingView, now: nat, lifetime: nat) -> bool {
    pending.filed matches Some(time) && later_by(time, lifetime) <= now
}

/// The codes of `sessions` whose sessions are stale.
pub open spec fn stale_codes(
    sessions: Map<Seq<char>, PendingView>,
    now: nat,
    lifetime: nat,
) -> Set<Seq<char>> {
    Set::new(|code: Seq<char>| sessions.contains_key(code) && stale(sessions[code], now, lifetime))
}

/// The pending authorization sessions, each under the one-time code that redeems it.
pub struct SessionStore {
    entries: Vec<(Code, Pending)>,
}

/// Whether no code stands twice in `entries`.
pub open spec fn distinct_codes(entries: Seq<(Code, Pending)>) -> bool {
    forall|i: int, j: int|
        0 <= i < entries.len() && 0 <= j < entries.len() && i != j ==> (#[trigger] entries[i]).0@
            != (#[trigger] entries[j]).0@
}

/// Whether `code` stands at place `i` of `entries`.
pub open spec fn stands_at(entries: Seq<(Code, Pending)>, code: Seq<char>, i: int) -> bool {
    0 <= i < entries.len() && entries[i].0@ == code
}

/// The sessions of `entries` by their codes.
pub open spec fn sessions_of(entries: Seq<(Code, Pending)>) -> Map<Seq<char>, PendingView> {
    Map::new(
        |code: Seq<char>| exists|i: int| stands_at(entries, code, i),
        |code: Seq<char>| entries[choose|i: int| stands_at(entries, code, i)].1@,
    )
}

impl View for SessionStore {
    type V = Map<Seq<char>, PendingView>;

    closed spec fn view(&self) -> Map<Seq<char>, PendingView> {
        sessions_of(self.entries@)
    }
}

impl SessionStore {
    #[verifier::type_invariant]
    spec fn well_formed(self) -> bool {
        distinct_codes(self.entries@)
    }

    /// A store without any session.
    pub fn new() -> (store: Self)
        ensures
            store@ == Map::<Seq<char>, PendingView>::empty(),
    {
        let store = SessionStore { entries: Vec::new() };
        assert(store@ =~= Map::<Seq<char>, PendingView>::empty());
        store
    }

    fn position(&self, code: &Code) -> (place: Option<usize>)
        ensures
            match place {
                Some(i) => stands_at(self.entries@, code@, i as int),
                None => forall|i: int| !stands_at(self.entries@, code@, i),
            },
    {
        let mut i: usize = 0;
        while i < self.entries.len()
            invariant
                i <= self.entries@.len(),
                forall|k: int| 0 <= k < i ==> !stands_at(self.entries@, code@, k),
            decreases self.entries@.len() - i,
        {
            if self.entries[i].0.same_text(code) {
                return Some(i);
            }
            i = i + 1;
        }
        None
    }

    /// Files `session` under `code`, without a record of when. A session that stood under
    /// the same code is replaced: the last writer wins.
    pub fn put(&mut self, code: Code, session: AuthSession)
        ensures
            final(self)@ == old(self)@.insert(code@, kept_for_good(session@)),
    {
        self.file(code, Pending { session, filed: None })
    }

    /// Files `session` under `code` as of `now`. A session that stood under the same code is
    /// replaced: the last writer wins.
    pub fn put_at(&mut self, code: Code, session: AuthSession, now: UnixTime)
        ensures
            final(self)@ == old(self)@.insert(code@, filed_at(session@, now@)),
    {
        self.file(code, Pending { session, filed: Some(now) })
    }

    fn file(&mut self, code: Code, session: Pending)
        ensures
            final(self)@ == old(self)@.insert(code@, session@),
    {
        proof {
            use_type_invariant(&*self);
        }
        let place = self.position(&code);
        let mut entries: Vec<(Code, Pending)> = Vec::new();
        core::mem::swap(&mut self.entries, &mut entries);
        proof {
            match place {
                Some(i) => lemma_replaced(entries@, i as int, (code, session)),
                None => lemma_pushed(entries@, (code, session)),
            }
        }
        match place {
            Some(i) => {
                entries.set(i, (code, session));
            },
            None => {
                entries.push((code, session));
            },
        }
        core::mem::swap(&mut self.entries, &mut entries);
    }

    /// Removes the session filed under `code` and hands it out, if there is one. The code
    /// redeems nothing afterwards.
    pub fn take(&mut self, code: &Code) -> (session: Option<AuthSession>)
        ensures
            match session {
                Some(found) => old(self)@.contains_key(code@)
                    && found@ == old(self)@[code@].session,
                None => !old(self)@.contains_key(code@),
            },
            final(self)@ == old(self)@.remove(code@),
    {
        proof {
            use_type_invariant(&*self);
        }
        match self.position(code) {
            Some(i) => {
                let mut entries: Vec<(Code, Pending)> = Vec::new();
                core::mem::swap(&mut self.entries, &mut entries);
                proof {
                    lemma_swap_removed(entries@, i as int);
                    lemma_stands_once(entries@, code@, i as int);
                }
                let entry = entries.swap_remove(i);
                core::mem::swap(&mut self.entries, &mut entries);
                Some(entry.1.session)
            },
            None => {
                assert(self@ =~= self@.remove(code@));
                None
            },
        }
    }

    /// Removes the sessions that have outlived `lifetime` seconds once the clock reads
    /// `now`, and says how many they were. Their codes redeem nothing afterwards; all other
    /// sessions stay as they are.
    pub fn sweep(&mut self, now: UnixTime, lifetime: u64) -> (removed: usize)
        ensures
            final(self)@ == old(self)@.remove_keys(
                stale_codes(old(self)@, now@, lifetime as nat),
            ),
            old(self)@.dom().finite(),
            removed == old(self)@.dom().len() - final(self)@.dom().len(),
    {
        proof {
            use_type_invariant(&*self);
        }
        let mut entries: Vec<(Code, Pending)> = Vec::new();
        core::mem::swap(&mut self.entries, &mut entries);
        let ghost before = sessions_of(entries@);
        let ghost gone = Set::<Seq<char>>::empty();
        let total = entries.len();
        proof {
            lemma_domain_size(entries@);
            assert(before.remove_keys(gone) =~= before);
        }
        let mut i: usize = 0;
        while i < entries.len()
            invariant
                i <= entries@.len() <= total,
                distinct_codes(entries@),
                sessions_of(entries@) == before.remove_keys(gone),
                gone.subset_of(stale_codes(before, now@, lifetime as nat)),
                forall|j: int|
                    0 <= j < i ==> !stale(#[trigger] entries@[j].1@, now@, lifetime as nat),
            decreases entries@.len() - i,
        {
            let outlived = match entries[i].1.filed {
                Some(time) => time.add(lifetime).expired_at(now),
                None => false,
            };
            if outlived {
                proof {
                    let code = entries@[i as int].0@;
                    lemma_swap_removed(entries@, i as int);
                    lemma_stands_once(entries@, code, i as int);
                    assert(before.remove_keys(gone).remove(code) =~= before.remove_keys(
                        gone.insert(code),
                    ));
                    gone = gone.insert(code);
                }
                let _ = entries.swap_remove(i);
            } else {
                i = i + 1;
            }
        }
        proof {
            let after = sessions_of(entries@);
            let all = stale_codes(before, now@, lifetime as nat);
            assert forall|code: Seq<char>| before.contains_key(code) && all.contains(
                code,
            ) implies gone.contains(code) by {
                if !gone.contains(code) {
                    assert(after.contains_key(code));
                    let j = choose|j: int| stands_at(entries@, code, j);
                    lemma_stands_once(entries@, code, j);
                    assert(!stale(entries@[j].1@, now@, lifetime as nat));
                }
            }
            assert(before.remove_keys(gone) =~= before.remove_keys(all));
            lemma_domain_size(entries@);
        }
        let removed = total - entries.len();
        core::mem::swap(&mut self.entries, &mut entries);
        removed
    }

    /// Number of pending sessions.
    pub fn len(&self) -> (n: usize)
        ensures
            n == self@.dom().len(),
            self@.dom().finite(),
    {
        proof {
            use_type_invariant(self);
            lemma_domain_size(self.entries@);
        }
        self.entries.len()
    }
}

/// Among distinct codes, a code that stands at a place stands nowhere else, and its session
/// is the one at that place.
pub proof fn lemma_stands_once(entries: Seq<(Code, Pending)>, code: Seq<char>, i: int)
    requires
        distinct_codes(entries),
        stands_at(entries, code, i),
    ensures
        sessions_of(entries).contains_key(code),
        sessions_of(entries)[code] == entries[i].1@,
        forall|j: int| stands_at(entries, code, j) ==> j == i,
{
    let j = choose|j: int| stands_at(entries, code, j);
    assert(j == i);
}

/// Putting an entry in the place of one with the same code files its session under that
/// code and leaves the other codes alone.
pub proof fn lemma_replaced(entries: Seq<(Code, Pending)>, i: int, entry: (Code, Pending))
    requires
        distinct_codes(entries),
        stands_at(entries, entry.0@, i),
    ensures
        distinct_codes(entries.update(i, entry)),
        sessions_of(entries.update(i, entry)) == sessions_of(entries).insert(entry.0@, entry.1@),
{
    let after = entries.update(i, entry);
    let key = entry.0@;
    assert forall|a: int, b: int|
        0 <= a < after.len() && 0 <= b < after.len() && a != b implies (#[trigger] after[a]).0@ != (
    #[trigger] after[b]).0@ by {
        assert(after[a].0@ == entries[a].0@);
        assert(after[b].0@ == entries[b].0@);
    }
    assert forall|k: Seq<char>|
        sessions_of(after).dom().contains(k) == #[trigger] sessions_of(entries).insert(
            key,
            entry.1@,
        ).dom().contains(k) by {
        if exists|j: int| stands_at(after, k, j) {
            let j = choose|j: int| stands_at(after, k, j);
            assert(stands_at(entries, k, j));
        }
        if exists|j: int| stands_at(entries, k, j) {
            let j = choose|j: int| stands_at(entries, k, j);
            assert(stands_at(after, k, j));
        }
        assert(stands_at(after, key, i));
    }
    assert forall|k: Seq<char>| #[trigger] sessions_of(after).dom().contains(k) implies sessions_of(
        after,
    )[k] == sessions_of(entries).insert(key, entry.1@)[k] by {
        let j = choose|j: int| stands_at(after, k, j);
        lemma_stands_once(after, k, j);
        if k != key {
            assert(stands_at(entries, k, j));
            lemma_stands_once(entries, k, j);
        } else {
            assert(stands_at(after, key, i));
        }
    }
    assert(sessions_of(after) =~= sessions_of(entries).insert(key, entry.1@));
}

/// Adding an entry under a code that stands nowhere files its session under that code and
/// leaves the other codes alone.
pub proof fn lemma_pushed(entries: Seq<(Code, Pending)>, entry: (Code, Pending))
    requires
        distinct_codes(entries),
        forall|i: int| !stands_at(entries, entry.0@, i),
    ensures
        distinct_codes(entries.push(entry)),
        sessions_of(entries.push(entry)) == sessions_of(entries).insert(entry.0@, entry.1@),
{
    let after = entries.push(entry);
    let key = entry.0@;
    let last = entries.len() as int;
    assert forall|a: int, b: int|
        0 <= a < after.len() && 0 <= b < after.len() && a != b implies (#[trigger] after[a]).0@ != (
    #[trigger] after[b]).0@ by {
        if a < last {
            assert(after[a] == entries[a]);
            assert(!stands_at(entries, key, a));
        }
        if b < last {
            assert(after[b] == entries[b]);
            assert(!stands_at(entries, key, b));
        }
    }
    assert(stands_at(after, key, last));
    assert forall|k: Seq<char>|
        sessions_of(after).dom().contains(k) == #[trigger] sessions_of(entries).insert(
            key,
            entry.1@,
        ).dom().contains(k) by {
        if exists|j: int| stands_at(after, k, j) {
            let j = choose|j: int| stands_at(after, k, j);
            if j < last {
                assert(stands_at(entries, k, j));
            }
        }
        if exists|j: int| stands_at(entries, k, j) {
            let j = choose|j: int| stands_at(entries, k, j);
            assert(stands_at(after, k, j));
        }
    }
    assert forall|k: Seq<char>| #[trigger] sessions_of(after).dom().contains(k) implies sessions_of(
        after,
    )[k] == sessions_of(entries).insert(key, entry.1@)[k] by {
        let j = choose|j: int| stands_at(after, k, j);
        lemma_stands_once(after, k, j);
        if k != key {
            assert(stands_at(entries, k, j));
            lemma_stands_once(entries, k, j);
        } else {
            assert(stands_at(after, key, last));
        }
    }
    assert(sessions_of(after) =~= sessions_of(entries).insert(key, entry.1@));
}

/// Moving the last entry into the place of another and dropping the last place removes the
/// code that stood there and leaves the other codes alone.
pub proof fn lemma_swap_removed(entries: Seq<(Code, Pending)>, i: int)
    requires
        distinct_codes(entries),
        0 <= i < entries.len(),
    ensures
        distinct_codes(entries.update(i, entries.last()).drop_last()),
        sessions_of(entries.update(i, entries.last()).drop_last()) == sessions_of(entries).remove(
            entries[i].0@,
        ),
{
    let after = entries.update(i, entries.last()).drop_last();
    let key = entries[i].0@;
    let last = entries.len() - 1;
    assert forall|a: int| 0 <= a < after.len() implies #[trigger] after[a] == entries[if a == i {
        last
    } else {
        a
    }] by {}
    assert forall|a: int, b: int|
        0 <= a < after.len() && 0 <= b < after.len() && a != b implies (#[trigger] after[a]).0@ != (
    #[trigger] after[b]).0@ by {
        let a0 = if a == i {
            last
        } else {
            a
        };
        let b0 = if b == i {
            last
        } else {
            b
        };
        assert(after[a] == entries[a0]);
        assert(after[b] == entries[b0]);
    }
    assert forall|k: Seq<char>|
        sessions_of(after).dom().contains(k) == #[trigger] sessions_of(entries).remove(
            key,
        ).dom().contains(k) by {
        if exists|j: int| stands_at(after, k, j) {
            let j = choose|j: int| stands_at(after, k, j);
            let j0 = if j == i {
                last
            } else {
                j
            };
            assert(after[j] == entries[j0]);
            assert(stands_at(entries, k, j0));
            assert(j0 != i);
        }
        if k != key && exists|j: int| stands_at(entries, k, j) {
            let j = choose|j: int| stands_at(entries, k, j);
            let j1 = if j == last {
                i
            } else {
                j
            };
            assert(after[j1] == entries[j]);
            assert(stands_at(after, k, j1));
        }
    }
    assert forall|k: Seq<char>| #[trigger] sessions_of(after).dom().contains(k) implies sessions_of(
        after,
    )[k] == sessions_of(entries).remove(key)[k] by {
        let j = choose|j: int| stands_at(after, k, j);
        lemma_stands_once(after, k, j);
        let j0 = if j == i {
            last
        } else {
            j
        };
        assert(after[j] == entries[j0]);
        assert(stands_at(entries, k, j0));
        lemma_stands_once(entries, k, j0);
    }
    assert(sessions_of(after) =~= sessions_of(entries).remove(key));
}

/// What the owner of a store is asked to do.
#[derive(Debug)]
pub enum Message {
    /// File a session under a code.
    Put { code: Code, session: AuthSession },
    /// Take the session filed under a code.
    Get { code: Code },
}

/// What the owner of a store answers.
#[derive(Debug)]
pub enum Reply {
    /// The session was filed.
    Stored,
    /// The session that was taken, if there was one.
    Taken(Option<AuthSession>),
}

impl SessionStore {
    /// Does what `msg` asks for and says what to answer. Messages are handled one at a
    /// time, so a code is handed out to one taker at most.
    pub fn handle_message(&mut self, msg: Message) -> (reply: Reply)
        ensures
            match msg {
                Message::Put { code, session } => reply is Stored
                    && final(self)@ == old(self)@.insert(code@, kept_for_good(session@)),
                Message::Get { code } => {
                    &&& final(self)@ == old(self)@.remove(code@)
                    &&& match reply {
                        Reply::Taken(Some(found)) => old(self)@.contains_key(code@) && found@
                            == old(self)@[code@].session,
                        Reply::Taken(None) => !old(self)@.contains_key(code@),
                        Reply::Stored => false,
                    }
                },
            },
    {
        match msg {
            Message::Put { code, session } => {
                self.put(code, session);
                Reply::Stored
            },
            Message::Get { code } => Reply::Taken(self.take(&code)),
        }
    }
}

/// Takes the session filed under `code` out of `store`, if there is one.
pub fn get(store: &mut SessionStore, code: &Code) -> (session: Option<AuthSession>)
    ensures
        match session {
            Some(found) => old(store)@.contains_key(code@) && found@ == old(store)@[code@].session,
            None => !old(store)@.contains_key(code@),
        },
        final(store)@ == old(store)@.remove(code@),
{
    store.take(code)
}

/// Files `session` under `code` in `store`, in place of what stood there.
pub fn set(store: &mut SessionStore, code: Code, session: AuthSession)
    ensures
        final(store)@ == old(store)@.insert(code@, kept_for_good(session@)),
{
    store.put(code, session)
}

/// A code that a session is filed under redeems that session, and once the session has
/// been taken the code redeems nothing, whatever else the store holds.
pub proof fn lemma_taken_code_is_gone(
    sessions: Map<Seq<char>, PendingView>,
    code: Seq<char>,
    session: PendingView,
)
    ensures
        sessions.insert(code, session).contains_key(code),
        sessions.insert(code, session)[code] == session,
        !sessions.insert(code, session).remove(code).contains_key(code),
{
}

/// Filing a session under a code that is taken leaves the other codes as they were.
pub proof fn lemma_other_codes_untouched(
    sessions: Map<Seq<char>, PendingView>,
    code: Seq<char>,
    session: PendingView,
    other: Seq<char>,
)
    requires
        other != code,
    ensures
        sessions.insert(code, session).contains_key(other) == sessions.contains_key(other),
        sessions.remove(code).contains_key(other) == sessions.contains_key(other),
        sessions.contains_key(other) ==> sessions.insert(code, session)[other] == sessions[other]
            && sessions.remove(code)[other] == sessions[other],
{
}

/// The codes of entries with distinct codes are as many as the entries.
pub proof fn lemma_domain_size(entries: Seq<(Code, Pending)>)
    requires
        distinct_codes(entries),
    ensures
        sessions_of(entries).dom().finite(),
        sessions_of(entries).dom().len() == entries.len(),
    decreases entries.len(),
{
    if entries.len() == 0 {
        assert(sessions_of(entries).dom() =~= Set::<Seq<char>>::empty());
    } else {
        let front = entries.drop_last();
        let last = entries.last();
        assert(distinct_codes(front)) by {
            assert forall|i: int, j: int|
                0 <= i < front.len() && 0 <= j < front.len() && i != j implies (
            #[trigger] front[i]).0@ != (#[trigger] front[j]).0@ by {
                assert(front[i] == entries[i]);
                assert(front[j] == entries[j]);
            }
        }
        lemma_domain_size(front);
        assert(!sessions_of(front).dom().contains(last.0@)) by {
            if exists|i: int| stands_at(front, last.0@, i) {
                let i = choose|i: int| stands_at(front, last.0@, i);
                assert(front[i] == entries[i]);
                assert(entries[entries.len() - 1] == last);
            }
        }
        assert(sessions_of(entries).dom() =~= sessions_of(front).dom().insert(last.0@)) by {
            assert forall|k: Seq<char>|
                sessions_of(entries).dom().contains(k) == sessions_of(front).dom().insert(
                    last.0@,
                ).contains(k) by {
                if exists|i: int| stands_at(entries, k, i) {
                    let i = choose|i: int| stands_at(entries, k, i);
                    if i < front.len() {
                        assert(stands_at(front, k, i));
                    }
                }
                if exists|i: int| stands_at(front, k, i) {
                    let i = choose|i: int| stands_at(front, k, i);
                    assert(stands_at(entries, k, i));
                }
                assert(stands_at(entries, last.0@, entries.len() - 1));
            }
        }
    }
}

} // verus!
