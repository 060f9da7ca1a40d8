//! Scopes, sets of them, and how a request for scopes is read.

use crate::text::chars_of;
use vstd::prelude::*;
use vstd::slice::slice_subrange;
use vstd::string::StrSliceExecFns;

verus! {

/// A permission that a client can ask for.
#[derive(Clone, Copy, Debug, PartialEq, Eq, Hash, Structural)]
pub enum Scope {
    Address,
    Email,
    Groups,
    Openid,
    Phone,
    Profile,
}

impl Scope {
    /// The name of the scope, in lower case.
    pub open spec fn lower_name(self) -> Seq<char> {
        match self {
            Scope::Address => "address"@,
            Scope::Email => "email"@,
            Scope::Groups => "groups"@,
            Scope::Openid => "openid"@,
            Scope::Phone => "phone"@,
            Scope::Profile => "profile"@,
        }
    }

    /// The name of the scope, in upper case.
    pub open spec fn upper_name(self) -> Seq<char> {
        match self {
            Scope::Address => "ADDRESS"@,
            Scope::Email => "EMAIL"@,
            Scope::Groups => "GROUPS"@,
            Scope::Openid => "OPENID"@,
            Scope::Phone => "PHONE"@,
            Scope::Profile => "PROFILE"@,
        }
    }

    /// Whether `token` is the name of this scope, in whatever case each letter stands.
    pub open spec fn is_named(self, token: Seq<char>) -> bool {
        same_ignoring_case(token, self.lower_name(), self.upper_name())
    }

    /// The name of the scope, in lower case.
    pub fn name(&self) -> (name: &'static str)
        ensures
            name@ == self.lower_name(),
    {
        match self {
            Scope::Address => "address",
            Scope::Email => "email",
            Scope::Groups => "groups",
            Scope::Openid => "openid",
            Scope::Phone => "phone",
            Scope::Profile => "profile",
        }
    }

    /// The scope that `token` names, if it names one.
    pub fn from_token(token: &[char]) -> (r: Option<Scope>)
        ensures
            r == scope_named(token@),
    {
        proof {
            reveal_strlit("address");
            reveal_strlit("ADDRESS");
            reveal_strlit("email");
            reveal_strlit("EMAIL");
            reveal_strlit("groups");
            reveal_strlit("GROUPS");
            reveal_strlit("openid");
            reveal_strlit("OPENID");
            reveal_strlit("phone");
            reveal_strlit("PHONE");
            reveal_strlit("profile");
            reveal_strlit("PROFILE");
        }
        if token_is(token, "address", "ADDRESS") {
            Some(Scope::Address)
        } else if token_is(token, "email", "EMAIL") {
            Some(Scope::Email)
        } else if token_is(token, "groups", "GROUPS") {
            Some(Scope::Groups)
        } else if token_is(token, "openid", "OPENID") {
            Some(Scope::Openid)
        } else if token_is(token, "phone", "PHONE") {
            Some(Scope::Phone)
        } else if token_is(token, "profile", "PROFILE") {
            Some(Scope::Profile)
        } else {
            None
        }
    }
}

/// Whether `token` reads `lower` where each letter may instead be the one that `upper` has
/// in its place.
pub open spec fn same_ignoring_case(token: Seq<char>, lower: Seq<char>, upper: Seq<char>) -> bool {
    &&& token.len() == lower.len()
    &&& forall|i: int|
        0 <= i < token.len() ==> token[i] == #[trigger] lower[i] || token[i] == upper[i]
}

/// The scope that `token` names, if it names one.
pub open spec fn scope_named(token: Seq<char>) -> Option<Scope> {
    if Scope::Address.is_named(token) {
        Some(Scope::Address)
    } else if Scope::Email.is_named(token) {
        Some(Scope::Email)
    } else if Scope::Groups.is_named(token) {
        Some(Scope::Groups)
    } else if Scope::Openid.is_named(token) {
        Some(Scope::Openid)
    } else if Scope::Phone.is_named(token) {
        Some(Scope::Phone)
    } else if Scope::Profile.is_named(token) {
        Some(Scope::Profile)
    } else {
        None
    }
}

fn token_is(token: &[char], lower: &str, upper: &str) -> (same: bool)
    requires
        lower@.len() == upper@.len(),
    ensures
        same == same_ignoring_case(token@, lower@, upper@),
{
    let n = lower.unicode_len();
    if token.len() != n {
        return false;
    }
    let mut i: usize = 0;
    while i < n
        invariant
            n == token@.len(),
            n == lower@.len(),
            n == upper@.len(),
            i <= n,
            forall|k: int|
                0 <= k < i ==> token@[k] == #[trigger] lower@[k] || token@[k] == upper@[k],
        decreases n - i,
    {
        let c = token[i];
        if c != lower.get_char(i) && c != upper.get_char(i) {
            assert(!(token@[i as int] == lower@[i as int] || token@[i as int] == upper@[i as int]));
            return false;
        }
        i = i + 1;
    }
    true
}

/// A set of scopes.
#[derive(Clone, Copy, Debug, PartialEq, Eq, Structural)]
pub struct ScopeSet {
    address: bool,
    email: bool,
    groups: bool,
    openid: bool,
    phone: bool,
    profile: bool,
}

impl View for ScopeSet {
    type V = Set<Scope>;

    closed spec fn view(&self) -> Set<Scope> {
        Set::new(|scope: Scope| self.holds(scope))
    }
}

impl ScopeSet {
    spec fn holds(self, scope: Scope) -> bool {
        match scope {
            Scope::Address => self.address,
            Scope::Email => self.email,
            Scope::Groups => self.groups,
            Scope::Openid => self.openid,
            Scope::Phone => self.phone,
            Scope::Profile => self.profile,
        }
    }

    /// The set without any scope.
    pub fn empty() -> (set: Self)
        ensures
            set@ == Set::<Scope>::empty(),
    {
        let set = ScopeSet {
            address: false,
            email: false,
            groups: false,
            openid: false,
            phone: false,
            profile: false,
        };
        assert(set@ =~= Set::<Scope>::empty());
        set
    }

    /// This set with `scope` in it.
    pub fn with(self, scope: Scope) -> (set: Self)
        ensures
            set@ == self@.insert(scope),
    {
        let mut set = self;
        match scope {
            Scope::Address => {
                set.address = true;
            },
            Scope::Email => {
                set.email = true;
            },
            Scope::Groups => {
                set.groups = true;
            },
            Scope::Openid => {
                set.openid = true;
            },
            Scope::Phone => {
                set.phone = true;
            },
            Scope::Profile => {
                set.profile = true;
            },
        }
        assert(set@ =~= self@.insert(scope));
        set
    }

    /// Whether `scope` is in the set.
    pub fn contains(&self, scope: &Scope) -> (found: bool)
        ensures
            found == self@.contains(*scope),
    {
        match scope {
            Scope::Address => self.address,
            Scope::Email => self.email,
            Scope::Groups => self.groups,
            Scope::Openid => self.openid,
            Scope::Phone => self.phone,
            Scope::Profile => self.profile,
        }
    }

    /// Whether the two sets have no scope in common.
    pub fn is_disjoint(&self, other: &ScopeSet) -> (apart: bool)
        ensures
            apart == self@.disjoint(other@),
    {
        let apart = !(self.address && other.address) && !(self.email && other.email) && !(
        self.groups && other.groups) && !(self.openid && other.openid) && !(self.phone
            && other.phone) && !(self.profile && other.profile);
        proof {
            if !apart {
                let shared = if self.address && other.address {
                    Scope::Address
                } else if self.email && other.email {
                    Scope::Email
                } else if self.groups && other.groups {
                    Scope::Groups
                } else if self.openid && other.openid {
                    Scope::Openid
                } else if self.phone && other.phone {
                    Scope::Phone
                } else {
                    Scope::Profile
                };
                assert(self@.contains(shared) && other@.contains(shared));
            }
        }
        apart
    }

    /// The scopes of the set, each once, in the order in which `Scope` lists them.
    pub fn to_vec(&self) -> (scopes: Vec<Scope>)
        ensures
            scopes@ == ordered(self@),
    {
        let mut scopes: Vec<Scope> = Vec::new();
        if self.address {
            scopes.push(Scope::Address);
        }
        if self.email {
            scopes.push(Scope::Email);
        }
        if self.groups {
            scopes.push(Scope::Groups);
        }
        if self.openid {
            scopes.push(Scope::Openid);
        }
        if self.phone {
            scopes.push(Scope::Phone);
        }
        if self.profile {
            scopes.push(Scope::Profile);
        }
        assert(scopes@ =~= ordered(self@));
        scopes
    }

    /// Reads a request for scopes: names separated by single spaces, in any order, any of
    /// them more than once. The empty text asks for nothing. The first token that names no
    /// scope is handed back.
    pub fn parse(text: &str) -> (r: Result<ScopeSet, String>)
        ensures
            match requested_scopes(text@) {
                Ok(scopes) => r matches Ok(set) && set@ == scopes,
                Err(token) => r matches Err(found) && found@ == token,
            },
    {
        let chars = chars_of(text);
        let len = chars.len();
        let mut set = ScopeSet::empty();
        if len == 0 {
            return Ok(set);
        }
        let mut start: usize = 0;
        proof {
            assert(chars@.skip(0) == chars@);
            let all = scopes_of(chars@);
            if all is Ok {
                assert(set@.union(all->Ok_0) == all->Ok_0);
            }
        }
        loop
            invariant
                0 < len == chars@.len(),
                chars@ == text@,
                start <= len,
                match scopes_of(chars@.skip(start as int)) {
                    Ok(rest) => scopes_of(chars@) == Ok::<Set<Scope>, Seq<char>>(
                        set@.union(rest),
                    ),
                    Err(token) => scopes_of(chars@) == Err::<Set<Scope>, Seq<char>>(token),
                },
            decreases len - start,
        {
            let mut end: usize = start;
            while end < len && chars[end] != ' '
                invariant
                    len == chars@.len(),
                    start <= end <= len,
                    forall|k: int| start <= k < end ==> chars@[k] != ' ',
                decreases len - end,
            {
                end = end + 1;
            }
            let ghost tail = chars@.skip(start as int);
            proof {
                lemma_first_space(tail, end - start);
                assert(tail.take(end - start) == chars@.subrange(start as int, end as int));
                if end < len {
                    assert(tail.skip(end - start + 1) == chars@.skip(end + 1));
                }
            }
            let token = slice_subrange(chars.as_slice(), start, end);
            match Scope::from_token(token) {
                None => {
                    return Err(text.substring_char(start, end).to_owned());
                },
                Some(scope) => {
                    let ghost before = set@;
                    set = set.with(scope);
                    if end == len {
                        proof {
                            assert(before.union(set![scope]) == set@);
                        }
                        return Ok(set);
                    }
                    proof {
                        let after = scopes_of(chars@.skip(end + 1));
                        if after is Ok {
                            assert(before.union(after->Ok_0.insert(scope)) == set@.union(
                                after->Ok_0,
                            ));
                        }
                    }
                    start = end + 1;
                },
            }
        }
    }
}

/// The scopes of `set` in the order in which `Scope` lists them.
pub open spec fn ordered(set: Set<Scope>) -> Seq<Scope> {
    listed(set, Scope::Address) + listed(set, Scope::Email) + listed(set, Scope::Groups) + listed(
        set,
        Scope::Openid,
    ) + listed(set, Scope::Phone) + listed(set, Scope::Profile)
}

/// `scope` alone if it is in `set`, else nothing.
pub open spec fn listed(set: Set<Scope>, scope: Scope) -> Seq<Scope> {
    if set.contains(scope) {
        seq![scope]
    } else {
        Seq::empty()
    }
}

/// Number of characters of `text` before its first space, or all of them if it has none.
pub open spec fn first_space(text: Seq<char>) -> int
    decreases text.len(),
{
    if text.len() == 0 || text[0] == ' ' {
        0
    } else {
        1 + first_space(text.drop_first())
    }
}

/// The scopes that the tokens of `text` name, where a single space ends a token; or the
/// first token that names none.
pub open spec fn scopes_of(text: Seq<char>) -> Result<Set<Scope>, Seq<char>>
    decreases text.len(),
{
    let n = first_space(text);
    let token = text.take(n);
    match scope_named(token) {
        None => Err(token),
        Some(scope) => if 0 <= n < text.len() {
            match scopes_of(text.skip(n + 1)) {
                Ok(rest) => Ok(rest.insert(scope)),
                Err(other) => Err(other),
            }
        } else {
            Ok(set![scope])
        },
    }
}

/// What a request for scopes asks for: nothing if the text is empty, else what its tokens
/// name.
pub open spec fn requested_scopes(text: Seq<char>) -> Result<Set<Scope>, Seq<char>> {
    if text.len() == 0 {
        Ok(Set::empty())
    } else {
        scopes_of(text)
    }
}

/// The tokens of `text`, where each single space ends one: a text with `n` spaces has
/// `n + 1` tokens, some of them empty where spaces meet or stand at an end.
pub open spec fn tokens(text: Seq<char>) -> Seq<Seq<char>>
    decreases text.len(),
{
    let n = first_space(text);
    if 0 <= n < text.len() {
        seq![text.take(n)] + tokens(text.skip(n + 1))
    } else {
        seq![text]
    }
}

/// Whether `scope` is named by one of `tokens`.
pub open spec fn named_among(tokens: Seq<Seq<char>>, scope: Scope) -> bool {
    exists|i: int| 0 <= i < tokens.len() && #[trigger] scope_named(tokens[i]) == Some(scope)
}

/// Whether `token` is the first of `tokens` that names no scope.
pub open spec fn first_unrecognized(tokens: Seq<Seq<char>>, token: Seq<char>) -> bool {
    exists|i: int|
        0 <= i < tokens.len() && #[trigger] tokens[i] == token && scope_named(token) is None
            && forall|j: int| 0 <= j < i ==> (#[trigger] scope_named(tokens[j])) is Some
}

/// A request is granted exactly if every one of its tokens names a scope, and then for
/// exactly the scopes that its tokens name, however often and in whatever order; else it is
/// turned down with the first token that names none.
pub proof fn lemma_scopes_of_tokens(text: Seq<char>)
    ensures
        match scopes_of(text) {
            Ok(scopes) => {
                &&& forall|i: int|
                    0 <= i < tokens(text).len() ==> (#[trigger] scope_named(
                        tokens(text)[i],
                    )) is Some
                &&& forall|scope: Scope|
                    scopes.contains(scope) <==> named_among(tokens(text), scope)
            },
            Err(token) => first_unrecognized(tokens(text), token),
        },
    decreases text.len(),
{
    let n = first_space(text);
    let token = text.take(n);
    let all = tokens(text);
    if 0 <= n < text.len() {
        let rest = text.skip(n + 1);
        let others = tokens(rest);
        lemma_scopes_of_tokens(rest);
        assert(all == seq![token] + others);
        assert(all[0] == token);
        assert forall|i: int| 1 <= i < all.len() implies all[i] == others[i - 1] by {}
        match scope_named(token) {
            None => {
                assert(first_unrecognized(all, token));
            },
            Some(scope) => {
                match scopes_of(rest) {
                    Err(other) => {
                        let i = choose|i: int|
                            0 <= i < others.len() && #[trigger] others[i] == other && scope_named(
                                other,
                            ) is None && forall|j: int|
                                0 <= j < i ==> (#[trigger] scope_named(others[j])) is Some;
                        assert(all[i + 1] == other);
                        assert forall|j: int| 0 <= j < i + 1 implies (#[trigger] scope_named(
                            all[j],
                        )) is Some by {
                            if j > 0 {
                                assert(all[j] == others[j - 1]);
                            }
                        }
                        assert(first_unrecognized(all, other));
                    },
                    Ok(found) => {
                        assert forall|i: int| 0 <= i < all.len() implies (#[trigger] scope_named(
                            all[i],
                        )) is Some by {
                            if i > 0 {
                                assert(all[i] == others[i - 1]);
                            }
                        }
                        assert forall|wanted: Scope|
                            found.insert(scope).contains(wanted) <==> named_among(
                                all,
                                wanted,
                            ) by {
                            if wanted == scope {
                                assert(scope_named(all[0]) == Some(wanted));
                            }
                            if found.contains(wanted) {
                                let i = choose|i: int|
                                    0 <= i < others.len() && #[trigger] scope_named(others[i])
                                        == Some(wanted);
                                assert(all[i + 1] == others[i]);
                                assert(scope_named(all[i + 1]) == Some(wanted));
                            }
                            if named_among(all, wanted) {
                                let i = choose|i: int|
                                    0 <= i < all.len() && #[trigger] scope_named(all[i]) == Some(
                                        wanted,
                                    );
                                if i > 0 {
                                    assert(all[i] == others[i - 1]);
                                    assert(scope_named(others[i - 1]) == Some(wanted));
                                    assert(named_among(others, wanted));
                                }
                            }
                        }
                    },
                }
            },
        }
    } else {
        lemma_first_space_in_text(text);
        assert(token == text);
        assert(all == seq![text]);
        assert(all[0] == text);
        match scope_named(token) {
            None => {
                assert(first_unrecognized(all, token));
            },
            Some(scope) => {
                assert forall|wanted: Scope|
                    set![scope].contains(wanted) <==> named_among(all, wanted) by {
                    if wanted == scope {
                        assert(scope_named(all[0]) == Some(wanted));
                    }
                }
            },
        }
    }
}

/// A token without a space that stands before a space and the rest of a request is read on
/// its own: if it names a scope, that scope joins those of the rest, which are granted with
/// it; if it names none, the request is turned down with that token.
pub proof fn lemma_token_in_front(token: Seq<char>, rest: Seq<char>)
    requires
        forall|k: int| 0 <= k < token.len() ==> token[k] != ' ',
    ensures
        scopes_of(token + seq![' '] + rest) == match scope_named(token) {
            None => Err::<Set<Scope>, Seq<char>>(token),
            Some(scope) => match scopes_of(rest) {
                Ok(others) => Ok(others.insert(scope)),
                Err(other) => Err(other),
            },
        },
{
    let text = token + seq![' '] + rest;
    let n = token.len() as int;
    assert(text[n] == ' ');
    assert forall|k: int| 0 <= k < n implies text[k] != ' ' by {
        assert(text[k] == token[k]);
    }
    lemma_first_space(text, n);
    assert(text.take(n) == token);
    assert(text.skip(n + 1) == rest);
}

/// A request without a space is one token: it asks for the scope that the token names, or
/// is turned down with that token.
pub proof fn lemma_single_token(token: Seq<char>)
    requires
        forall|k: int| 0 <= k < token.len() ==> token[k] != ' ',
    ensures
        scopes_of(token) == match scope_named(token) {
            None => Err::<Set<Scope>, Seq<char>>(token),
            Some(scope) => Ok(set![scope]),
        },
{
    lemma_first_space(token, token.len() as int);
    assert(token.take(token.len() as int) == token);
}

/// The first space of a text stands within it, or the text has none.
pub proof fn lemma_first_space_in_text(text: Seq<char>)
    ensures
        0 <= first_space(text) <= text.len(),
    decreases text.len(),
{
    if text.len() > 0 && text[0] != ' ' {
        lemma_first_space_in_text(text.drop_first());
    }
}

/// Where the first space of a text stands, from what stands before it.
pub proof fn lemma_first_space(text: Seq<char>, n: int)
    requires
        0 <= n <= text.len(),
        forall|k: int| 0 <= k < n ==> text[k] != ' ',
        n == text.len() || text[n] == ' ',
    ensures
        first_space(text) == n,
    decreases n,
{
    if n > 0 {
        let rest = text.drop_first();
        assert forall|k: int| 0 <= k < n - 1 implies rest[k] != ' ' by {
            assert(rest[k] == text[k + 1]);
        }
        lemma_first_space(rest, n - 1);
    }
}

} // verus!
