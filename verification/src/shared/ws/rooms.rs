//! The rooms of the live channel: which connected client belongs to the room of which
//! team, which incidents it watches, and who receives what is broadcast.
use vstd::prelude::*;

verus! {

broadcast use vstd::seq_lib::group_filter_ensures;

/// The bookkeeping of the live channel. A client is one WebSocket connection, known
/// by its id and its user's name. On connecting it registers its user's teams and
/// joins their rooms; it watches incidents on request. Each list of pairs holds
/// `(client, team)` or `(client, incident)` at most once.
#[derive(Debug)]
pub struct Rooms {
    names: Vec<(u128, String)>,
    client_teams: Vec<(u128, u128)>,
    team_members: Vec<(u128, u128)>,
    watches: Vec<(u128, u128)>,
}

/// No client id occurs twice.
pub open spec fn keys_unique(names: Seq<(u128, String)>) -> bool {
    forall|i: int, j: int|
        0 <= i < names.len() && 0 <= j < names.len() && i != j ==> #[trigger] names[i].0
            != #[trigger] names[j].0
}

pub open spec fn has_key(names: Seq<(u128, String)>, c: u128) -> bool {
    exists|k: int| 0 <= k < names.len() && #[trigger] names[k].0 == c
}

/// The name given with the client id.
pub open spec fn name_in(names: Seq<(u128, String)>, c: u128) -> Seq<char> {
    names[choose|k: int| 0 <= k < names.len() && #[trigger] names[k].0 == c].1@
}

proof fn lemma_name_at(names: Seq<(u128, String)>, c: u128, j: int)
    requires
        keys_unique(names),
        0 <= j < names.len(),
        names[j].0 == c,
    ensures
        name_in(names, c) == names[j].1@,
{
    let k = choose|k: int| 0 <= k < names.len() && #[trigger] names[k].0 == c;
    assert(0 <= k < names.len() && names[k].0 == c);
    if k != j {
        assert(names[k].0 != names[j].0);
    }
}

pub open spec fn not_of_client(c: u128) -> spec_fn((u128, u128)) -> bool {
    |p: (u128, u128)| p.0 != c
}

pub open spec fn not_pair(q: (u128, u128)) -> spec_fn((u128, u128)) -> bool {
    |p: (u128, u128)| p != q
}

pub open spec fn not_registered_of(c: u128, registered: Seq<(u128, u128)>) -> spec_fn((u128, u128)) -> bool {
    |p: (u128, u128)| !(p.0 == c && registered.contains(p))
}

/// The pairs without those of a client.
pub open spec fn without_client(s: Seq<(u128, u128)>, c: u128) -> Seq<(u128, u128)> {
    s.filter(not_of_client(c))
}

/// The pairs without one pair.
pub open spec fn without_pair(s: Seq<(u128, u128)>, q: (u128, u128)) -> Seq<(u128, u128)> {
    s.filter(not_pair(q))
}

/// The pairs without those of a client that `registered` holds.
pub open spec fn without_registered(s: Seq<(u128, u128)>, c: u128, registered: Seq<(u128, u128)>) -> Seq<(u128, u128)> {
    s.filter(not_registered_of(c, registered))
}

proof fn lemma_filter_step<A>(s: Seq<A>, pred: spec_fn(A) -> bool, i: int)
    requires
        0 <= i < s.len(),
    ensures
        s.take(i + 1).filter(pred) == if pred(s[i]) {
            s.take(i).filter(pred).push(s[i])
        } else {
            s.take(i).filter(pred)
        },
{
    reveal(Seq::filter);
    assert(s.take(i + 1).drop_last() =~= s.take(i));
    assert(s.take(i + 1).last() == s[i]);
}

proof fn lemma_filter_no_dup<A>(s: Seq<A>, pred: spec_fn(A) -> bool)
    requires
        s.no_duplicates(),
    ensures
        s.filter(pred).no_duplicates(),
    decreases s.len(),
{
    reveal(Seq::filter);
    if s.len() > 0 {
        let rest = s.drop_last();
        assert(rest.no_duplicates()) by {
            assert forall|i: int, j: int|
                0 <= i < rest.len() && 0 <= j < rest.len() && i != j implies rest[i]
                != rest[j] by {
                assert(rest[i] == s[i] && rest[j] == s[j]);
            }
        }
        lemma_filter_no_dup(rest, pred);
        let sub = rest.filter(pred);
        if pred(s.last()) {
            if sub.contains(s.last()) {
                rest.lemma_filter_contains_rev(pred, s.last());
                let k = choose|k: int| 0 <= k < rest.len() && rest[k] == s.last();
                assert(s[k] == s[s.len() - 1]);
            }
            let out = sub.push(s.last());
            assert forall|i: int, j: int|
                0 <= i < out.len() && 0 <= j < out.len() && i != j implies out[i] != out[j] by {
                if i < sub.len() && j < sub.len() {
                    assert(out[i] == sub[i] && out[j] == sub[j]);
                } else if i < sub.len() {
                    assert(out[i] == sub[i]);
                    assert(sub.contains(sub[i]));
                } else {
                    assert(out[j] == sub[j]);
                    assert(sub.contains(sub[j]));
                }
            }
        }
    }
}

/// Whether a list holds a pair.
fn contains_pair(v: &Vec<(u128, u128)>, q: (u128, u128)) -> (r: bool)
    ensures
        r == v@.contains(q),
{
    let mut i: usize = 0;
    while i < v.len()
        invariant
            i <= v@.len(),
            forall|k: int| 0 <= k < i ==> v@[k] != q,
        decreases v@.len() - i,
    {
        if v[i].0 == q.0 && v[i].1 == q.1 {
            assert(v@[i as int] == q);
            return true;
        }
        i = i + 1;
    }
    false
}

/// The list without the pairs of a client.
fn drop_client(v: &Vec<(u128, u128)>, c: u128) -> (r: Vec<(u128, u128)>)
    ensures
        r@ == without_client(v@, c),
{
    let ghost pred = not_of_client(c);
    let mut out: Vec<(u128, u128)> = Vec::new();
    let mut i: usize = 0;
    while i < v.len()
        invariant
            i <= v@.len(),
            pred == not_of_client(c),
            out@ == v@.take(i as int).filter(pred),
        decreases v@.len() - i,
    {
        proof {
            lemma_filter_step(v@, pred, i as int);
        }
        if v[i].0 != c {
            out.push(v[i]);
        }
        i = i + 1;
    }
    assert(v@.take(i as int) =~= v@);
    out
}

/// The list without one pair.
fn drop_pair(v: &Vec<(u128, u128)>, q: (u128, u128)) -> (r: Vec<(u128, u128)>)
    ensures
        r@ == without_pair(v@, q),
{
    let ghost pred = not_pair(q);
    let mut out: Vec<(u128, u128)> = Vec::new();
    let mut i: usize = 0;
    while i < v.len()
        invariant
            i <= v@.len(),
            pred == not_pair(q),
            out@ == v@.take(i as int).filter(pred),
        decreases v@.len() - i,
    {
        proof {
            lemma_filter_step(v@, pred, i as int);
        }
        if !(v[i].0 == q.0 && v[i].1 == q.1) {
            out.push(v[i]);
        }
        i = i + 1;
    }
    assert(v@.take(i as int) =~= v@);
    out
}

/// The list without the pairs of a client that `registered` holds.
fn drop_registered(v: &Vec<(u128, u128)>, c: u128, registered: &Vec<(u128, u128)>) -> (r: Vec<(u128, u128)>)
    ensures
        r@ == without_registered(v@, c, registered@),
{
    let ghost pred = not_registered_of(c, registered@);
    let mut out: Vec<(u128, u128)> = Vec::new();
    let mut i: usize = 0;
    while i < v.len()
        invariant
            i <= v@.len(),
            pred == not_registered_of(c, registered@),
            out@ == v@.take(i as int).filter(pred),
        decreases v@.len() - i,
    {
        proof {
            lemma_filter_step(v@, pred, i as int);
        }
        if !(v[i].0 == c && contains_pair(registered, v[i])) {
            out.push(v[i]);
        }
        i = i + 1;
    }
    assert(v@.take(i as int) =~= v@);
    out
}

proof fn lemma_filter_contains_iff<A>(s: Seq<A>, pred: spec_fn(A) -> bool, x: A)
    ensures
        s.filter(pred).contains(x) == (s.contains(x) && pred(x)),
{
    if s.filter(pred).contains(x) {
        s.lemma_filter_contains_rev(pred, x);
        let k = choose|k: int| 0 <= k < s.filter(pred).len() && s.filter(pred)[k] == x;
        s.lemma_filter_pred(pred, k);
    }
    if s.contains(x) && pred(x) {
        let k = choose|k: int| 0 <= k < s.len() && s[k] == x;
        s.lemma_filter_contains(pred, k);
    }
}

proof fn lemma_filter_map_contains_iff<A, B>(s: Seq<A>, f: spec_fn(A) -> Option<B>, y: B)
    ensures
        s.filter_map(f).contains(y) == (exists|x: A| s.contains(x) && f(x) == Some(y)),
    decreases s.len(),
{
    if s.filter_map(f).contains(y) {
        s.lemma_filter_map_contains(f, y);
    }
    if exists|x: A| s.contains(x) && f(x) == Some(y) {
        let x = choose|x: A| s.contains(x) && f(x) == Some(y);
        if s.len() > 0 {
            let rest = s.drop_last();
            let fs = s.filter_map(f);
            let fr = rest.filter_map(f);
            match f(s.last()) {
                Some(z) => {
                    assert(fs == fr + seq![z]);
                    if z == y {
                        assert(fs[fs.len() - 1] == y);
                    } else {
                        let k = choose|k: int| 0 <= k < s.len() && s[k] == x;
                        assert(k != s.len() - 1);
                        assert(rest[k] == x);
                        assert(rest.contains(x));
                        lemma_filter_map_contains_iff(rest, f, y);
                        let m = choose|m: int| 0 <= m < fr.len() && fr[m] == y;
                        assert(fs[m] == y);
                    }
                },
                None => {
                    assert(fs == fr);
                    let k = choose|k: int| 0 <= k < s.len() && s[k] == x;
                    assert(k != s.len() - 1);
                    assert(rest[k] == x);
                    assert(rest.contains(x));
                    lemma_filter_map_contains_iff(rest, f, y);
                }
            }
        }
    }
}

/// Filtering with `g` is filtering with `f` and then mapping by `h`, where `g` keeps
/// exactly what `f` keeps and gives `h` of it.
proof fn lemma_filter_map_then_map<A, B, C>(s: Seq<A>, f: spec_fn(A) -> Option<B>, g: spec_fn(A) -> Option<C>, h: spec_fn(B) -> C)
    requires
        forall|x: A| #[trigger] g(x) == match f(x) {
            Some(b) => Some(h(b)),
            None => None,
        },
    ensures
        s.filter_map(g) == s.filter_map(f).map_values(h),
    decreases s.len(),
{
    if s.len() > 0 {
        let rest = s.drop_last();
        lemma_filter_map_then_map(rest, f, g, h);
        let x = s.last();
        match f(x) {
            Some(b) => {
                assert(g(x) == Some(h(b)));
                assert((rest.filter_map(f) + seq![b]).map_values(h) =~= rest.filter_map(f).map_values(h) + seq![h(b)]);
            },
            None => {
                assert(g(x) == None::<C>);
            },
        }
    } else {
        assert(s.filter_map(g) =~= s.filter_map(f).map_values(h));
    }
}

proof fn lemma_filter_map_no_dup<A, B>(s: Seq<A>, f: spec_fn(A) -> Option<B>)
    requires
        s.no_duplicates(),
        forall|p: A, q: A| #[trigger] f(p) is Some && f(p) == #[trigger] f(q) ==> p == q,
    ensures
        s.filter_map(f).no_duplicates(),
    decreases s.len(),
{
    if s.len() > 0 {
        let rest = s.drop_last();
        assert(rest.no_duplicates()) by {
            assert forall|i: int, j: int|
                0 <= i < rest.len() && 0 <= j < rest.len() && i != j implies rest[i]
                != rest[j] by {
                assert(rest[i] == s[i] && rest[j] == s[j]);
            }
        }
        lemma_filter_map_no_dup(rest, f);
        let sub = rest.filter_map(f);
        match f(s.last()) {
            Some(y) => {
                if sub.contains(y) {
                    rest.lemma_filter_map_contains(f, y);
                    let x = choose|x: A| #[trigger] rest.contains(x) && f(x) == Some(y);
                    assert(x == s.last());
                    let k = choose|k: int| 0 <= k < rest.len() && rest[k] == x;
                    assert(s[k] == s[s.len() - 1]);
                }
                let out = sub + seq![y];
                assert forall|i: int, j: int|
                    0 <= i < out.len() && 0 <= j < out.len() && i != j implies out[i]
                    != out[j] by {
                    if i < sub.len() && j < sub.len() {
                        assert(out[i] == sub[i] && out[j] == sub[j]);
                    } else if i < sub.len() {
                        assert(out[i] == sub[i]);
                        assert(sub.contains(sub[i]));
                    } else {
                        assert(out[j] == sub[j]);
                        assert(sub.contains(sub[j]));
                    }
                }
            },
            None => {},
        }
    }
}

/// The position of a client's name, if it is there.
fn find_name(names: &Vec<(u128, String)>, c: u128) -> (r: Option<usize>)
    ensures
        match r {
            Some(k) => k < names@.len() && names@[k as int].0 == c,
            None => !has_key(names@, c),
        },
{
    let mut i: usize = 0;
    while i < names.len()
        invariant
            i <= names@.len(),
            forall|k: int| 0 <= k < i ==> names@[k].0 != c,
        decreases names@.len() - i,
    {
        if names[i].0 == c {
            return Some(i);
        }
        i = i + 1;
    }
    None
}

/// Removes a client's name.
fn remove_name(names: &mut Vec<(u128, String)>, c: u128)
    requires
        keys_unique(old(names)@),
    ensures
        keys_unique(final(names)@),
        forall|x: u128| #[trigger] has_key(final(names)@, x) == (has_key(old(names)@, x) && x != c),
        forall|x: u128|
            x != c && has_key(old(names)@, x) ==> #[trigger] name_in(final(names)@, x) == name_in(
                old(names)@,
                x,
            ),
{
    match find_name(names, c) {
        None => {},
        Some(k) => {
            let ghost before = names@;
            names.remove(k);
            let ghost after = names@;
            assert forall|j: int| 0 <= j < after.len() implies #[trigger] after[j] == if j < k {
                before[j]
            } else {
                before[j + 1]
            } by {}
            assert(keys_unique(after)) by {
                assert forall|i: int, j: int|
                    0 <= i < after.len() && 0 <= j < after.len() && i != j implies #[trigger] after[i].0
                    != #[trigger] after[j].0 by {
                    let bi = if i < k { i } else { i + 1 };
                    let bj = if j < k { j } else { j + 1 };
                    assert(after[i] == before[bi] && after[j] == before[bj]);
                    assert(before[bi].0 != before[bj].0);
                }
            }
            assert forall|x: u128| #[trigger] has_key(after, x) == (has_key(before, x) && x != c) by {
                if has_key(after, x) {
                    let j = choose|j: int| 0 <= j < after.len() && #[trigger] after[j].0 == x;
                    let bj = if j < k { j } else { j + 1 };
                    assert(after[j] == before[bj]);
                    assert(before[bj].0 == x);
                    if x == c {
                        assert(before[k as int].0 == c);
                        assert(before[bj].0 != before[k as int].0);
                    }
                }
                if has_key(before, x) && x != c {
                    let j = choose|j: int| 0 <= j < before.len() && #[trigger] before[j].0 == x;
                    assert(j != k);
                    let aj = if j < k { j } else { j - 1 };
                    assert(after[aj] == before[j]);
                    assert(after[aj].0 == x);
                }
            }
            assert forall|x: u128| x != c && has_key(before, x) implies #[trigger] name_in(after, x)
                == name_in(before, x) by {
                let j = choose|j: int| 0 <= j < before.len() && #[trigger] before[j].0 == x;
                assert(j != k);
                let aj = if j < k { j } else { j - 1 };
                assert(after[aj] == before[j]);
                lemma_name_at(before, x, j);
                lemma_name_at(after, x, aj);
            }
        },
    }
}

/// Gives a client a name, in place of any it had.
fn set_name(names: &mut Vec<(u128, String)>, c: u128, name: String)
    requires
        keys_unique(old(names)@),
    ensures
        keys_unique(final(names)@),
        forall|x: u128| #[trigger] has_key(final(names)@, x) == (has_key(old(names)@, x) || x == c),
        name_in(final(names)@, c) == name@,
        forall|x: u128|
            x != c && has_key(old(names)@, x) ==> #[trigger] name_in(final(names)@, x) == name_in(
                old(names)@,
                x,
            ),
{
    remove_name(names, c);
    let ghost mid = names@;
    names.push((c, name));
    let ghost after = names@;
    assert(after[mid.len() as int] == (c, name));
    assert(keys_unique(after)) by {
        assert forall|i: int, j: int|
            0 <= i < after.len() && 0 <= j < after.len() && i != j implies #[trigger] after[i].0
            != #[trigger] after[j].0 by {
            if i < mid.len() && j < mid.len() {
                assert(after[i] == mid[i] && after[j] == mid[j]);
            } else if i < mid.len() {
                assert(after[i] == mid[i]);
                assert(!has_key(mid, c));
            } else {
                assert(after[j] == mid[j]);
                assert(!has_key(mid, c));
            }
        }
    }
    assert forall|x: u128| #[trigger] has_key(after, x) == (has_key(mid, x) || x == c) by {
        if x == c {
            assert(after[mid.len() as int].0 == c);
        }
        if has_key(mid, x) {
            let j = choose|j: int| 0 <= j < mid.len() && #[trigger] mid[j].0 == x;
            assert(after[j] == mid[j]);
        }
        if has_key(after, x) && x != c {
            let j = choose|j: int| 0 <= j < after.len() && #[trigger] after[j].0 == x;
            assert(j < mid.len());
            assert(after[j] == mid[j]);
        }
    }
    proof {
        lemma_name_at(after, c, mid.len() as int);
    }
    assert forall|x: u128| x != c && has_key(mid, x) implies #[trigger] name_in(after, x)
        == name_in(mid, x) by {
        let j = choose|j: int| 0 <= j < mid.len() && #[trigger] mid[j].0 == x;
        assert(after[j] == mid[j]);
        lemma_name_at(mid, x, j);
        lemma_name_at(after, x, j);
    }
}

/// The clients of a room (or watchers of an incident): those paired with `key`.
pub open spec fn room_entry(key: u128) -> spec_fn((u128, u128)) -> Option<u128> {
    |p: (u128, u128)| if p.1 == key { Some(p.0) } else { None }
}

/// The connected clients paired with `key`.
pub open spec fn live_entry(names: Seq<(u128, String)>, key: u128) -> spec_fn((u128, u128)) -> Option<u128> {
    |p: (u128, u128)| if p.1 == key && has_key(names, p.0) { Some(p.0) } else { None }
}

/// The names of the connected clients paired with `key`.
pub open spec fn named_entry(names: Seq<(u128, String)>, key: u128) -> spec_fn((u128, u128)) -> Option<Seq<char>> {
    |p: (u128, u128)| if p.1 == key && has_key(names, p.0) { Some(name_in(names, p.0)) } else { None }
}

impl Rooms {
    /// Each client id is given once, and each pair occurs once in its list.
    pub closed spec fn wf(self) -> bool {
        &&& keys_unique(self.names@)
        &&& self.client_teams@.no_duplicates()
        &&& self.team_members@.no_duplicates()
        &&& self.watches@.no_duplicates()
    }

    /// Whether the client is connected.
    pub closed spec fn connected(self, c: u128) -> bool {
        has_key(self.names@, c)
    }

    /// The name of a connected client's user.
    pub closed spec fn name(self, c: u128) -> Seq<char> {
        name_in(self.names@, c)
    }

    /// Whether the client registered the team when it connected.
    pub closed spec fn registered(self, c: u128, t: u128) -> bool {
        self.client_teams@.contains((c, t))
    }

    /// Whether the client is in the team's room.
    pub closed spec fn in_room(self, c: u128, t: u128) -> bool {
        self.team_members@.contains((c, t))
    }

    /// Whether the client watches the incident.
    pub closed spec fn watching(self, c: u128, i: u128) -> bool {
        self.watches@.contains((c, i))
    }

    /// The clients in a team's room, in the order they joined it.
    pub closed spec fn room_list(self, t: u128) -> Seq<u128> {
        self.team_members@.filter_map(room_entry(t))
    }

    /// The clients that a broadcast to a team reaches: the connected ones of its room.
    pub closed spec fn team_audience(self, t: u128) -> Seq<u128> {
        self.team_members@.filter_map(live_entry(self.names@, t))
    }

    /// The clients that a broadcast to an incident's watchers reaches.
    pub closed spec fn watcher_audience(self, i: u128) -> Seq<u128> {
        self.watches@.filter_map(live_entry(self.names@, i))
    }

    /// The names of an incident's connected watchers, in the order they began to watch.
    pub closed spec fn watcher_names(self, i: u128) -> Seq<Seq<char>> {
        self.watches@.filter_map(named_entry(self.names@, i))
    }
}

/// Nobody is connected, registered, in a room or watching.
pub open spec fn is_empty(r: Rooms) -> bool {
    &&& forall|c: u128| !#[trigger] r.connected(c)
    &&& forall|c: u128, t: u128| !#[trigger] r.registered(c, t)
    &&& forall|c: u128, t: u128| !#[trigger] r.in_room(c, t)
    &&& forall|c: u128, i: u128| !#[trigger] r.watching(c, i)
}

/// Connecting a client: it is named, registers exactly the given teams, and joins
/// their rooms; everything else stays.
pub open spec fn connect_rel(old: Rooms, new: Rooms, client: u128, name: Seq<char>, teams: Seq<u128>) -> bool {
    &&& forall|c: u128| #[trigger] new.connected(c) == (old.connected(c) || c == client)
    &&& new.name(client) == name
    &&& forall|c: u128| c != client && old.connected(c) ==> #[trigger] new.name(c) == old.name(c)
    &&& forall|c: u128, t: u128| #[trigger]
        new.registered(c, t) == if c == client {
            teams.contains(t)
        } else {
            old.registered(c, t)
        }
    &&& forall|c: u128, t: u128| #[trigger]
        new.in_room(c, t) == (old.in_room(c, t) || (c == client && teams.contains(t)))
    &&& forall|c: u128, i: u128| #[trigger] new.watching(c, i) == old.watching(c, i)
}

/// Disconnecting a client: it is forgotten, leaves the rooms of the teams it
/// registered, and stops watching; everything else stays.
pub open spec fn disconnect_rel(old: Rooms, new: Rooms, client: u128) -> bool {
    &&& forall|c: u128| #[trigger] new.connected(c) == (old.connected(c) && c != client)
    &&& forall|c: u128| c != client && old.connected(c) ==> #[trigger] new.name(c) == old.name(c)
    &&& forall|c: u128, t: u128| #[trigger]
        new.registered(c, t) == (old.registered(c, t) && c != client)
    &&& forall|c: u128, t: u128| #[trigger]
        new.in_room(c, t) == (old.in_room(c, t) && !(c == client && old.registered(client, t)))
    &&& forall|c: u128, i: u128| #[trigger] new.watching(c, i) == (old.watching(c, i) && c != client)
}

/// Watching (`on`) or unwatching an incident: only that pair changes.
pub open spec fn watch_rel(old: Rooms, new: Rooms, client: u128, incident: u128, on: bool) -> bool {
    &&& forall|c: u128| #[trigger] new.connected(c) == old.connected(c)
    &&& forall|c: u128| old.connected(c) ==> #[trigger] new.name(c) == old.name(c)
    &&& forall|c: u128, t: u128| #[trigger] new.registered(c, t) == old.registered(c, t)
    &&& forall|c: u128, t: u128| #[trigger] new.in_room(c, t) == old.in_room(c, t)
    &&& forall|c: u128, i: u128| #[trigger]
        new.watching(c, i) == if c == client && i == incident {
            on
        } else {
            old.watching(c, i)
        }
}

/// Whether a list of names holds the given texts, in order.
pub open spec fn names_are(r: Seq<String>, names: Seq<Seq<char>>) -> bool {
    r.len() == names.len() && forall|k: int| 0 <= k < r.len() ==> #[trigger] r[k]@ == names[k]
}

/// The list with a pair added, unless it holds it already.
fn add_pair(v: &mut Vec<(u128, u128)>, q: (u128, u128))
    requires
        old(v)@.no_duplicates(),
    ensures
        final(v)@.no_duplicates(),
        forall|p: (u128, u128)| #[trigger] final(v)@.contains(p) == (old(v)@.contains(p) || p == q),
{
    if !contains_pair(v, q) {
        let ghost before = v@;
        v.push(q);
        proof {
            let after = v@;
            assert(after[before.len() as int] == q);
            assert forall|p: (u128, u128)| #[trigger] after.contains(p) == (before.contains(p) || p == q) by {
                if before.contains(p) {
                    let k = choose|k: int| 0 <= k < before.len() && before[k] == p;
                    assert(after[k] == p);
                }
                if after.contains(p) && p != q {
                    let k = choose|k: int| 0 <= k < after.len() && after[k] == p;
                    assert(k < before.len());
                    assert(before[k] == p);
                }
            }
            assert forall|i: int, j: int|
                0 <= i < after.len() && 0 <= j < after.len() && i != j implies after[i]
                != after[j] by {
                if i < before.len() && j < before.len() {
                    assert(after[i] == before[i] && after[j] == before[j]);
                } else if i < before.len() {
                    assert(after[i] == before[i]);
                    assert(before.contains(before[i]));
                } else {
                    assert(after[j] == before[j]);
                    assert(before.contains(before[j]));
                }
            }
        }
    }
}

impl Rooms {
    /// No client yet.
    pub fn new() -> (r: Rooms)
        ensures
            r.wf(),
            is_empty(r),
    {
        Rooms { names: Vec::new(), client_teams: Vec::new(), team_members: Vec::new(), watches: Vec::new() }
    }

    /// Whether the client is connected.
    pub fn is_connected(&self, client: u128) -> (r: bool)
        ensures
            r == self.connected(client),
    {
        find_name(&self.names, client).is_some()
    }

    /// Connects a client for a user's name and teams, and puts it in their rooms.
    pub fn connect(&mut self, client: u128, username: String, teams: &Vec<u128>)
        requires
            old(self).wf(),
        ensures
            final(self).wf(),
            connect_rel(*old(self), *final(self), client, username@, teams@),
    {
        let ghost s0 = *self;
        set_name(&mut self.names, client, username);
        self.client_teams = drop_client(&self.client_teams, client);
        proof {
            lemma_filter_no_dup(s0.client_teams@, not_of_client(client));
            assert forall|c: u128, t: u128| #[trigger]
                self.client_teams@.contains((c, t)) == (c != client && s0.client_teams@.contains((c, t))) by {
                lemma_filter_contains_iff(s0.client_teams@, not_of_client(client), (c, t));
            }
        }
        let mut i: usize = 0;
        while i < teams.len()
            invariant
                i <= teams@.len(),
                keys_unique(self.names@),
                forall|c: u128| #[trigger] has_key(self.names@, c) == (has_key(s0.names@, c) || c == client),
                name_in(self.names@, client) == username@,
                forall|c: u128|
                    c != client && has_key(s0.names@, c) ==> #[trigger] name_in(self.names@, c)
                        == name_in(s0.names@, c),
                self.watches@ == s0.watches@,
                self.client_teams@.no_duplicates(),
                self.team_members@.no_duplicates(),
                forall|c: u128, t: u128| #[trigger]
                    self.client_teams@.contains((c, t)) == if c == client {
                        teams@.take(i as int).contains(t)
                    } else {
                        s0.client_teams@.contains((c, t))
                    },
                forall|c: u128, t: u128| #[trigger]
                    self.team_members@.contains((c, t)) == (s0.team_members@.contains((c, t)) || (c
                        == client && teams@.take(i as int).contains(t))),
            decreases teams@.len() - i,
        {
            let t = teams[i];
            proof {
                assert forall|x: u128| #[trigger] teams@.take(i + 1).contains(x) == (teams@.take(
                    i as int,
                ).contains(x) || x == t) by {
                    assert(teams@.take(i + 1) =~= teams@.take(i as int).push(t));
                    if teams@.take(i as int).contains(x) {
                        let k = choose|k: int| 0 <= k < i && #[trigger] teams@.take(i as int)[k] == x;
                        assert(teams@.take(i + 1)[k] == x);
                    }
                    if x == t {
                        assert(teams@.take(i + 1)[i as int] == x);
                    }
                    if teams@.take(i + 1).contains(x) && x != t {
                        let k = choose|k: int| 0 <= k < i + 1 && #[trigger] teams@.take(i + 1)[k] == x;
                        assert(k < i);
                        assert(teams@.take(i as int)[k] == x);
                    }
                }
            }
            add_pair(&mut self.client_teams, (client, t));
            add_pair(&mut self.team_members, (client, t));
            i = i + 1;
        }
        proof {
            assert(teams@.take(i as int) =~= teams@);
        }
    }

    /// Disconnects a client: it leaves the rooms of the teams it registered and stops
    /// watching anything.
    pub fn disconnect(&mut self, client: u128)
        requires
            old(self).wf(),
        ensures
            final(self).wf(),
            disconnect_rel(*old(self), *final(self), client),
    {
        let ghost s0 = *self;
        remove_name(&mut self.names, client);
        self.team_members = drop_registered(&self.team_members, client, &self.client_teams);
        self.client_teams = drop_client(&self.client_teams, client);
        self.watches = drop_client(&self.watches, client);
        proof {
            lemma_filter_no_dup(s0.team_members@, not_registered_of(client, s0.client_teams@));
            lemma_filter_no_dup(s0.client_teams@, not_of_client(client));
            lemma_filter_no_dup(s0.watches@, not_of_client(client));
            assert forall|c: u128, t: u128| #[trigger]
                self.client_teams@.contains((c, t)) == (s0.client_teams@.contains((c, t)) && c != client) by {
                lemma_filter_contains_iff(s0.client_teams@, not_of_client(client), (c, t));
            }
            assert forall|c: u128, t: u128| #[trigger]
                self.team_members@.contains((c, t)) == (s0.team_members@.contains((c, t)) && !(c
                    == client && s0.client_teams@.contains((client, t)))) by {
                lemma_filter_contains_iff(
                    s0.team_members@,
                    not_registered_of(client, s0.client_teams@),
                    (c, t),
                );
            }
            assert forall|c: u128, i: u128| #[trigger]
                self.watches@.contains((c, i)) == (s0.watches@.contains((c, i)) && c != client) by {
                lemma_filter_contains_iff(s0.watches@, not_of_client(client), (c, i));
            }
        }
    }
}

/// The clients of a list of pairs that are paired with `key`.
fn clients_paired(pairs: &Vec<(u128, u128)>, key: u128) -> (r: Vec<u128>)
    ensures
        r@ == pairs@.filter_map(room_entry(key)),
{
    let ghost f = room_entry(key);
    let mut out: Vec<u128> = Vec::new();
    let mut i: usize = 0;
    while i < pairs.len()
        invariant
            i <= pairs@.len(),
            f == room_entry(key),
            out@ == pairs@.take(i as int).filter_map(f),
        decreases pairs@.len() - i,
    {
        proof {
            pairs@.lemma_filter_map_take_succ(f, i as int);
        }
        let p = pairs[i];
        if p.1 == key {
            out.push(p.0);
        }
        proof {
            assert(out@ =~= pairs@.take(i + 1).filter_map(f));
        }
        i = i + 1;
    }
    proof {
        assert(pairs@.take(i as int) =~= pairs@);
    }
    out
}

/// The connected clients of a list of pairs that are paired with `key`.
fn live_clients_paired(pairs: &Vec<(u128, u128)>, names: &Vec<(u128, String)>, key: u128) -> (r: Vec<u128>)
    ensures
        r@ == pairs@.filter_map(live_entry(names@, key)),
{
    let ghost f = live_entry(names@, key);
    let mut out: Vec<u128> = Vec::new();
    let mut i: usize = 0;
    while i < pairs.len()
        invariant
            i <= pairs@.len(),
            f == live_entry(names@, key),
            out@ == pairs@.take(i as int).filter_map(f),
        decreases pairs@.len() - i,
    {
        proof {
            pairs@.lemma_filter_map_take_succ(f, i as int);
        }
        let p = pairs[i];
        if p.1 == key && find_name(names, p.0).is_some() {
            out.push(p.0);
        }
        proof {
            assert(out@ =~= pairs@.take(i + 1).filter_map(f));
        }
        i = i + 1;
    }
    proof {
        assert(pairs@.take(i as int) =~= pairs@);
    }
    out
}

/// The names of the connected clients of a list of pairs that are paired with `key`.
fn names_paired(pairs: &Vec<(u128, u128)>, names: &Vec<(u128, String)>, key: u128) -> (r: Vec<String>)
    requires
        keys_unique(names@),
    ensures
        names_are(r@, pairs@.filter_map(named_entry(names@, key))),
{
    let ghost f = named_entry(names@, key);
    let mut out: Vec<String> = Vec::new();
    let mut i: usize = 0;
    while i < pairs.len()
        invariant
            i <= pairs@.len(),
            keys_unique(names@),
            f == named_entry(names@, key),
            names_are(out@, pairs@.take(i as int).filter_map(f)),
        decreases pairs@.len() - i,
    {
        proof {
            pairs@.lemma_filter_map_take_succ(f, i as int);
        }
        let p = pairs[i];
        if p.1 == key {
            match find_name(names, p.0) {
                Some(k) => {
                    proof {
                        lemma_name_at(names@, p.0, k as int);
                    }
                    out.push(names[k].1.clone());
                },
                None => {},
            }
        }
        i = i + 1;
    }
    proof {
        assert(pairs@.take(i as int) =~= pairs@);
    }
    out
}

impl Rooms {
    /// The clients in a team's room.
    pub fn team_room(&self, team: u128) -> (r: Vec<u128>)
        ensures
            r@ == self.room_list(team),
    {
        clients_paired(&self.team_members, team)
    }

    /// The clients that a broadcast to a team reaches.
    pub fn team_recipients(&self, team: u128) -> (r: Vec<u128>)
        ensures
            r@ == self.team_audience(team),
    {
        live_clients_paired(&self.team_members, &self.names, team)
    }

    /// The clients that a broadcast to an incident's watchers reaches.
    pub fn watcher_recipients(&self, incident: u128) -> (r: Vec<u128>)
        ensures
            r@ == self.watcher_audience(incident),
    {
        live_clients_paired(&self.watches, &self.names, incident)
    }

    /// The names of an incident's watchers.
    pub fn watcher_usernames(&self, incident: u128) -> (r: Vec<String>)
        requires
            self.wf(),
        ensures
            names_are(r@, self.watcher_names(incident)),
    {
        names_paired(&self.watches, &self.names, incident)
    }

    /// The client starts watching the incident; the names of its watchers come back.
    pub fn watch_incident(&mut self, client: u128, incident: u128) -> (r: Vec<String>)
        requires
            old(self).wf(),
        ensures
            final(self).wf(),
            watch_rel(*old(self), *final(self), client, incident, true),
            names_are(r@, final(self).watcher_names(incident)),
    {
        add_pair(&mut self.watches, (client, incident));
        self.watcher_usernames(incident)
    }

    /// The client stops watching the incident; the names of its watchers come back.
    pub fn unwatch_incident(&mut self, client: u128, incident: u128) -> (r: Vec<String>)
        requires
            old(self).wf(),
        ensures
            final(self).wf(),
            watch_rel(*old(self), *final(self), client, incident, false),
            names_are(r@, final(self).watcher_names(incident)),
    {
        let ghost before = self.watches@;
        self.watches = drop_pair(&self.watches, (client, incident));
        proof {
            lemma_filter_no_dup(before, not_pair((client, incident)));
            assert forall|c: u128, i: u128| #[trigger]
                self.watches@.contains((c, i)) == (before.contains((c, i)) && (c, i) != (client, incident)) by {
                lemma_filter_contains_iff(before, not_pair((client, incident)), (c, i));
            }
        }
        self.watcher_usernames(incident)
    }
}

/// A client that is not connected and leaves no trace in any room or watch list.
pub open spec fn absent(r: Rooms, c: u128) -> bool {
    &&& !r.connected(c)
    &&& forall|t: u128| !#[trigger] r.registered(c, t)
    &&& forall|t: u128| !#[trigger] r.in_room(c, t)
    &&& forall|i: u128| !#[trigger] r.watching(c, i)
}

/// Two states with the same clients, names, rooms and watchers.
pub open spec fn same_rooms(a: Rooms, b: Rooms) -> bool {
    &&& forall|c: u128| #[trigger] a.connected(c) == b.connected(c)
    &&& forall|c: u128| a.connected(c) ==> #[trigger] a.name(c) == b.name(c)
    &&& forall|c: u128, t: u128| #[trigger] a.registered(c, t) == b.registered(c, t)
    &&& forall|c: u128, t: u128| #[trigger] a.in_room(c, t) == b.in_room(c, t)
    &&& forall|c: u128, i: u128| #[trigger] a.watching(c, i) == b.watching(c, i)
}

/// A broadcast to a team reaches each connected client of its room, once, and no
/// one else.
pub proof fn law_team_broadcast_reaches_its_room(r: Rooms, t: u128)
    requires
        r.wf(),
    ensures
        forall|c: u128| #[trigger] r.team_audience(t).contains(c) == (r.in_room(c, t) && r.connected(c)),
        r.team_audience(t).no_duplicates(),
{
    let f = live_entry(r.names@, t);
    assert forall|c: u128| #[trigger] r.team_audience(t).contains(c) == (r.in_room(c, t) && r.connected(c)) by {
        lemma_filter_map_contains_iff(r.team_members@, f, c);
        if r.in_room(c, t) && r.connected(c) {
            assert(r.team_members@.contains((c, t)) && f((c, t)) == Some(c));
        }
    }
    lemma_filter_map_no_dup(r.team_members@, f);
}

/// A broadcast to an incident's watchers reaches each connected watcher, once, and
/// no one else.
pub proof fn law_watcher_broadcast_reaches_its_watchers(r: Rooms, i: u128)
    requires
        r.wf(),
    ensures
        forall|c: u128| #[trigger] r.watcher_audience(i).contains(c) == (r.watching(c, i) && r.connected(c)),
        r.watcher_audience(i).no_duplicates(),
{
    let f = live_entry(r.names@, i);
    assert forall|c: u128| #[trigger] r.watcher_audience(i).contains(c) == (r.watching(c, i) && r.connected(c)) by {
        lemma_filter_map_contains_iff(r.watches@, f, c);
        if r.watching(c, i) && r.connected(c) {
            assert(r.watches@.contains((c, i)) && f((c, i)) == Some(c));
        }
    }
    lemma_filter_map_no_dup(r.watches@, f);
}

/// The watcher list of an incident names exactly its connected watchers.
pub proof fn law_watcher_names_are_the_watchers(r: Rooms, i: u128)
    requires
        r.wf(),
    ensures
        forall|n: Seq<char>| #[trigger] r.watcher_names(i).contains(n) == (exists|c: u128|
            r.watching(c, i) && r.connected(c) && r.name(c) == n),
{
    let f = named_entry(r.names@, i);
    assert forall|n: Seq<char>| #[trigger] r.watcher_names(i).contains(n) == (exists|c: u128|
        r.watching(c, i) && r.connected(c) && r.name(c) == n) by {
        lemma_filter_map_contains_iff(r.watches@, f, n);
        if r.watcher_names(i).contains(n) {
            let p = choose|p: (u128, u128)| r.watches@.contains(p) && f(p) == Some(n);
            assert(r.watching(p.0, i) && r.connected(p.0) && r.name(p.0) == n);
        }
        if exists|c: u128| r.watching(c, i) && r.connected(c) && r.name(c) == n {
            let c = choose|c: u128| r.watching(c, i) && r.connected(c) && r.name(c) == n;
            assert(r.watches@.contains((c, i)) && f((c, i)) == Some(n));
        }
    }
}

/// The watcher list of an incident holds one name per connected watcher, in the
/// order the broadcast reaches them: each watcher's own name, and nothing more.
pub proof fn law_one_name_per_watcher(r: Rooms, i: u128)
    requires
        r.wf(),
    ensures
        r.watcher_names(i) == r.watcher_audience(i).map_values(|c: u128| r.name(c)),
        r.watcher_names(i).len() == r.watcher_audience(i).len(),
{
    let f = live_entry(r.names@, i);
    let g = named_entry(r.names@, i);
    let h = |c: u128| name_in(r.names@, c);
    assert forall|x: (u128, u128)| #[trigger] g(x) == match f(x) {
        Some(b) => Some(h(b)),
        None => None,
    } by {}
    lemma_filter_map_then_map(r.watches@, f, g, h);
    assert(r.watcher_audience(i).map_values(|c: u128| r.name(c)) =~= r.watches@.filter_map(f).map_values(h));
}

/// Disconnecting a client that had just connected, fresh, gives back the rooms as
/// they were before it came.
pub proof fn law_disconnect_undoes_connect(
    s0: Rooms,
    s1: Rooms,
    s2: Rooms,
    client: u128,
    name: Seq<char>,
    teams: Seq<u128>,
)
    requires
        absent(s0, client),
        connect_rel(s0, s1, client, name, teams),
        disconnect_rel(s1, s2, client),
    ensures
        same_rooms(s0, s2),
{
    assert forall|c: u128, t: u128| #[trigger] s0.in_room(c, t) == s2.in_room(c, t) by {
        assert(s1.registered(client, t) == teams.contains(t));
        assert(s2.in_room(c, t) == (s1.in_room(c, t) && !(c == client && s1.registered(client, t))));
        assert(s1.in_room(c, t) == (s0.in_room(c, t) || (c == client && teams.contains(t))));
        if c == client {
            assert(!s0.in_room(client, t));
        }
    }
    assert forall|c: u128, t: u128| #[trigger] s0.registered(c, t) == s2.registered(c, t) by {
        assert(s2.registered(c, t) == (s1.registered(c, t) && c != client));
        if c == client {
            assert(!s0.registered(client, t));
        } else {
            assert(s1.registered(c, t) == s0.registered(c, t));
        }
    }
    assert forall|c: u128, i: u128| #[trigger] s0.watching(c, i) == s2.watching(c, i) by {
        assert(s2.watching(c, i) == (s1.watching(c, i) && c != client));
        assert(s1.watching(c, i) == s0.watching(c, i));
        if c == client {
            assert(!s0.watching(client, i));
        }
    }
    assert forall|c: u128| #[trigger] s0.connected(c) == s2.connected(c) by {
        assert(s2.connected(c) == (s1.connected(c) && c != client));
        assert(s1.connected(c) == (s0.connected(c) || c == client));
    }
    assert forall|c: u128| s0.connected(c) implies #[trigger] s0.name(c) == s2.name(c) by {
        assert(c != client);
        assert(s1.connected(c));
        assert(s1.name(c) == s0.name(c));
        assert(s2.name(c) == s1.name(c));
    }
}

/// A client, once disconnected, is reached by no broadcast.
pub proof fn law_disconnected_client_hears_nothing(s0: Rooms, s1: Rooms, client: u128)
    requires
        s1.wf(),
        disconnect_rel(s0, s1, client),
    ensures
        forall|t: u128| !#[trigger] s1.team_audience(t).contains(client),
        forall|i: u128| !#[trigger] s1.watcher_audience(i).contains(client),
{
    assert forall|t: u128| !#[trigger] s1.team_audience(t).contains(client) by {
        law_team_broadcast_reaches_its_room(s1, t);
    }
    assert forall|i: u128| !#[trigger] s1.watcher_audience(i).contains(client) by {
        law_watcher_broadcast_reaches_its_watchers(s1, i);
    }
}

/// A connected client is reached by the broadcasts to each of the teams it
/// connected with.
pub proof fn law_connected_client_hears_its_teams(
    s0: Rooms,
    s1: Rooms,
    client: u128,
    name: Seq<char>,
    teams: Seq<u128>,
)
    requires
        s1.wf(),
        connect_rel(s0, s1, client, name, teams),
    ensures
        forall|t: u128| teams.contains(t) ==> #[trigger] s1.team_audience(t).contains(client),
{
    assert forall|t: u128| teams.contains(t) implies #[trigger] s1.team_audience(t).contains(client) by {
        law_team_broadcast_reaches_its_room(s1, t);
        assert(s1.in_room(client, t) && s1.connected(client));
    }
}

/// A connected client that watches an incident finds its own name among the
/// watchers, and is reached by the incident's broadcasts; once it unwatches, it is
/// reached no more.
pub proof fn law_watching_is_seen_and_heard(s0: Rooms, s1: Rooms, client: u128, incident: u128, on: bool)
    requires
        s1.wf(),
        s0.connected(client),
        watch_rel(s0, s1, client, incident, on),
    ensures
        on ==> s1.watcher_names(incident).contains(s1.name(client)),
        s1.watcher_audience(incident).contains(client) == on,
{
    law_watcher_names_are_the_watchers(s1, incident);
    law_watcher_broadcast_reaches_its_watchers(s1, incident);
    assert(s1.watching(client, incident) == on);
    assert(s1.connected(client));
    if on {
        assert(s1.watching(client, incident) && s1.connected(client) && s1.name(client) == s1.name(
            client,
        ));
    }
}

} // verus!
