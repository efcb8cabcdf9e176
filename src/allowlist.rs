//! The allow-list: a set of sender identities without duplicates, kept in the
//! order of insertion, with the JSON record it is stored as.

use vstd::prelude::*;
use vstd::string::*;
use crate::json::{texts_view, quote_json, texts_at, json_quoted, json_texts_at};
use crate::text::eq_text;

verus! {

/// `e` with `x` at its end, unless `x` is there already.
pub open spec fn with_name(e: Seq<Seq<char>>, x: Seq<char>) -> Seq<Seq<char>> {
    if e.contains(x) {
        e
    } else {
        e.push(x)
    }
}

/// `e` without `x`; unchanged where `x` is not there.
pub open spec fn without_name(e: Seq<Seq<char>>, x: Seq<char>) -> Seq<Seq<char>> {
    if e.contains(x) {
        e.remove(choose|i: int| 0 <= i < e.len() && e[i] == x)
    } else {
        e
    }
}

/// The entries after adding each of `names` in turn to `e`.
pub open spec fn after_adds(e: Seq<Seq<char>>, names: Seq<Seq<char>>) -> Seq<Seq<char>>
    decreases names.len(),
{
    if names.len() == 0 {
        e
    } else {
        with_name(after_adds(e, names.drop_last()), names.last())
    }
}

/// The JSON pointer of the identity array in the record.
pub open spec fn users_pointer() -> Seq<char> {
    "/users"@
}

/// One quoted identity per line, indented, separated by commas.
pub open spec fn record_lines(names: Seq<Seq<char>>) -> Seq<char>
    decreases names.len(),
{
    if names.len() == 0 {
        Seq::empty()
    } else if names.len() == 1 {
        "    "@ + json_quoted(names[0])
    } else {
        record_lines(names.drop_last()) + ",\n    "@ + json_quoted(names.last())
    }
}

/// The pretty-printed record `{ "users": [ ... ] }` of `names`.
pub open spec fn record_of(names: Seq<Seq<char>>) -> Seq<char> {
    if names.len() == 0 {
        "{\n  \"users\": []\n}"@
    } else {
        "{\n  \"users\": [\n"@ + record_lines(names) + "\n  ]\n}"@
    }
}

proof fn lemma_with_name_set(e: Seq<Seq<char>>, x: Seq<char>)
    ensures
        with_name(e, x).to_set() == e.to_set().insert(x),
{
    if e.contains(x) {
        assert(e.to_set().insert(x) =~= e.to_set());
    } else {
        assert forall|a: Seq<char>| #[trigger] e.push(x).contains(a) <==> (e.contains(a) || a == x) by {
            if e.push(x).contains(a) {
                let k = choose|k: int| 0 <= k < e.len() + 1 && e.push(x)[k] == a;
                if k < e.len() {
                    assert(e.contains(a));
                }
            }
            if e.contains(a) {
                let k = choose|k: int| 0 <= k < e.len() && e[k] == a;
                assert(e.push(x)[k] == a);
            }
            if a == x {
                assert(e.push(x)[e.len() as int] == a);
            }
        }
        assert(e.push(x).to_set() =~= e.to_set().insert(x));
    }
}

/// Adds taken one at a time, in whatever order the lock admits them, leave
/// exactly the identities that were there and those added: no add is lost.
pub proof fn law_adds_any_order(e: Seq<Seq<char>>, names: Seq<Seq<char>>)
    ensures
        after_adds(e, names).to_set() == e.to_set().union(names.to_set()),
        e.no_duplicates() ==> after_adds(e, names).no_duplicates(),
    decreases names.len(),
{
    lemma_after_adds_set(e, names);
    if names.len() > 0 {
        law_adds_any_order(e, names.drop_last());
        if e.no_duplicates() {
            law_add_twice(after_adds(e, names.drop_last()), names.last());
        }
    }
}

proof fn lemma_after_adds_set(e: Seq<Seq<char>>, names: Seq<Seq<char>>)
    ensures
        after_adds(e, names).to_set() == e.to_set().union(names.to_set()),
    decreases names.len(),
{
    if names.len() == 0 {
        assert(e.to_set().union(names.to_set()) =~= e.to_set());
    } else {
        let p = names.drop_last();
        lemma_after_adds_set(e, p);
        lemma_with_name_set(after_adds(e, p), names.last());
        assert forall|a: Seq<char>| #[trigger] names.contains(a) <==> (p.contains(a) || a == names.last()) by {
            assert(names =~= p.push(names.last()));
            if names.contains(a) {
                let k = choose|k: int| 0 <= k < names.len() && names[k] == a;
                if k < p.len() {
                    assert(p[k] == a);
                }
            }
            if p.contains(a) {
                let k = choose|k: int| 0 <= k < p.len() && p[k] == a;
                assert(names[k] == a);
            }
        }
        assert(e.to_set().union(p.to_set()).insert(names.last()) =~= e.to_set().union(names.to_set()));
    }
}

/// Adding an identity twice in a row: the second add finds it present (so it
/// reports `false` and stages nothing to write) and leaves the entries as the
/// first add left them, which hold the identity exactly once.
pub proof fn law_add_twice(e: Seq<Seq<char>>, x: Seq<char>)
    requires
        e.no_duplicates(),
    ensures
        with_name(e, x).to_set().contains(x),
        with_name(with_name(e, x), x) == with_name(e, x),
        with_name(e, x).no_duplicates(),
        with_name(e, x).contains(x),
        forall|i: int, j: int|
            0 <= i < with_name(e, x).len() && 0 <= j < with_name(e, x).len() && #[trigger] with_name(
                e,
                x,
            )[i] == x && #[trigger] with_name(e, x)[j] == x ==> i == j,
{
    lemma_with_name_set(e, x);
    if !e.contains(x) {
        assert(e.push(x)[e.len() as int] == x);
    }
}

/// Removing an identity right after adding it restores the entries exactly,
/// where the identity was not there before the add.
pub proof fn law_remove_undoes_add(e: Seq<Seq<char>>, x: Seq<char>)
    requires
        e.no_duplicates(),
        !e.contains(x),
    ensures
        without_name(with_name(e, x), x) == e,
        e.to_set().insert(x).remove(x) == e.to_set(),
{
    let p = e.push(x);
    assert(p[e.len() as int] == x);
    assert(p.contains(x));
    let k = choose|k: int| 0 <= k < p.len() && p[k] == x;
    if k < e.len() {
        assert(e[k] == x);
    }
    assert(k == e.len());
    assert(p.remove(k) =~= e);
    assert(e.to_set().insert(x).remove(x) =~= e.to_set());
}

/// Adds of distinct identities to an empty list, taken one at a time in any
/// order, leave exactly those identities, none lost.
pub proof fn law_distinct_adds(names: Seq<Seq<char>>)
    requires
        names.no_duplicates(),
    ensures
        after_adds(Seq::empty(), names) == names,
        after_adds(Seq::empty(), names).to_set() == names.to_set(),
    decreases names.len(),
{
    if names.len() > 0 {
        let p = names.drop_last();
        law_distinct_adds(p);
        if p.contains(names.last()) {
            let k = choose|k: int| 0 <= k < p.len() && p[k] == names.last();
            assert(names[k] == names[names.len() - 1]);
        }
        assert(p.push(names.last()) =~= names);
    }
}

/// What came of a change to the allow-list.
#[derive(Clone, Copy, Debug, PartialEq, Eq, Structural)]
pub enum Change {
    /// The list changed and its record was written.
    Changed,
    /// The list already was as asked: nothing to write.
    Unchanged,
    /// The record could not be written: the list was kept as it was.
    NotSaved,
}

/// The identities allowed to ask for completions.
pub struct WhiteList {
    users: Vec<String>,
}

impl View for WhiteList {
    type V = Set<Seq<char>>;

    closed spec fn view(&self) -> Set<Seq<char>> {
        self.entries().to_set()
    }
}

impl WhiteList {
    /// The identities in the order they were added.
    pub closed spec fn entries(&self) -> Seq<Seq<char>> {
        texts_view(self.users@)
    }

    /// No identity is held twice.
    pub open spec fn wf(&self) -> bool {
        self.entries().no_duplicates()
    }

    /// The set is the set of the entries.
    pub proof fn lemma_view(&self)
        ensures
            self@ == self.entries().to_set(),
    {
    }

    /// An empty allow-list.
    pub fn new() -> (r: WhiteList)
        ensures
            r.wf(),
            r.entries() == Seq::<Seq<char>>::empty(),
            r@ == Set::<Seq<char>>::empty(),
    {
        let r = WhiteList { users: Vec::new() };
        assert(r.entries() =~= Seq::<Seq<char>>::empty());
        r
    }

    /// The position of `username` among the entries, if it is there.
    fn position(&self, username: &str) -> (r: Option<usize>)
        ensures
            r is None ==> !self.entries().contains(username@),
            r matches Some(i) ==> i < self.entries().len() && self.entries()[i as int]
                == username@,
    {
        let mut i: usize = 0;
        while i < self.users.len()
            invariant
                i <= self.users@.len(),
                self.entries().len() == self.users@.len(),
                forall|j: int| 0 <= j < i ==> self.entries()[j] != username@,
            decreases self.users@.len() - i,
        {
            if eq_text(self.users[i].as_str(), username) {
                return Some(i);
            }
            i = i + 1;
        }
        None
    }

    /// Whether `username` is on the list.
    pub fn is_allowed(&self, username: &str) -> (r: bool)
        ensures
            r == self@.contains(username@),
    {
        self.position(username).is_some()
    }

    /// Adds `username`; true where it was not there before.
    pub fn add_user(&mut self, username: &str) -> (r: bool)
        requires
            old(self).wf(),
        ensures
            final(self).wf(),
            r == !old(self)@.contains(username@),
            final(self).entries() == with_name(old(self).entries(), username@),
            final(self)@ == old(self)@.insert(username@),
    {
        if self.position(username).is_some() {
            assert(self@.contains(username@));
            assert(self@.insert(username@) =~= self@);
            return false;
        }
        let ghost e = self.entries();
        self.users.push(String::from_str(username));
        proof {
            assert(self.entries() =~= e.push(username@));
            lemma_with_name_set(e, username@);
            assert(self@ =~= old(self)@.insert(username@));
        }
        true
    }

    /// Removes `username`; true where it was there before.
    pub fn remove_user(&mut self, username: &str) -> (r: bool)
        requires
            old(self).wf(),
        ensures
            final(self).wf(),
            r == old(self)@.contains(username@),
            final(self).entries() == without_name(old(self).entries(), username@),
            final(self)@ == old(self)@.remove(username@),
    {
        match self.position(username) {
            None => {
                assert(self@.remove(username@) =~= self@);
                false
            },
            Some(i) => {
                let ghost e = self.entries();
                proof {
                    let k = choose|k: int| 0 <= k < e.len() && e[k] == username@;
                    assert(e.no_duplicates());
                    assert(k == i);
                }
                self.users.remove(i);
                proof {
                    let r = e.remove(i as int);
                    assert(self.entries() =~= r);
                    assert forall|a: Seq<char>| #[trigger] r.contains(a) <==> (e.contains(a) && a != username@) by {
                        if r.contains(a) {
                            let k = choose|k: int| 0 <= k < r.len() && r[k] == a;
                            if k < i {
                                assert(e[k] == a);
                            } else {
                                assert(e[k + 1] == a);
                            }
                        }
                        if e.contains(a) && a != username@ {
                            let k = choose|k: int| 0 <= k < e.len() && e[k] == a;
                            if k < i {
                                assert(r[k] == a);
                            } else {
                                assert(k != i);
                                assert(r[k - 1] == a);
                            }
                        }
                    }
                    assert(self@ =~= old(self)@.remove(username@));
                }
                true
            },
        }
    }

    /// An allow-list of `names`, each held once, in the order of first
    /// appearance.
    pub fn from_users(names: Vec<String>) -> (r: WhiteList)
        ensures
            r.wf(),
            r.entries() == after_adds(Seq::empty(), texts_view(names@)),
            r@ == texts_view(names@).to_set(),
    {
        let mut r = WhiteList::new();
        let mut i: usize = 0;
        while i < names.len()
            invariant
                i <= names@.len(),
                r.wf(),
                r.entries() == after_adds(Seq::empty(), texts_view(names@).subrange(0, i as int)),
            decreases names@.len() - i,
        {
            r.add_user(names[i].as_str());
            proof {
                let t = texts_view(names@);
                assert(t.subrange(0, i + 1).drop_last() =~= t.subrange(0, i as int));
            }
            i = i + 1;
        }
        proof {
            let t = texts_view(names@);
            assert(t.subrange(0, i as int) =~= t);
            lemma_after_adds_set(Seq::empty(), t);
            assert(Seq::<Seq<char>>::empty().to_set().union(t.to_set()) =~= t.to_set());
        }
        r
    }

    /// The allow-list that a record holds: the identities of its `users`
    /// array; empty where the text is not such a record.
    pub fn from_record(text: &str) -> (r: WhiteList)
        ensures
            r.wf(),
            json_texts_at(text@, users_pointer()) matches Some(v) ==> r@ == v.to_set(),
            json_texts_at(text@, users_pointer()) is None ==> r@ == Set::<Seq<char>>::empty(),
    {
        match texts_at(text, "/users") {
            Some(v) => WhiteList::from_users(v),
            None => WhiteList::new(),
        }
    }

    /// The pretty-printed JSON record of the list, each identity once.
    pub fn record(&self) -> (r: String)
        ensures
            r@ == record_of(self.entries()),
            self.entries().to_set() == self@,
            self.wf() ==> self.entries().no_duplicates() && self.entries().len() == self@.len(),
    {
        proof {
            if self.wf() {
                self.entries().unique_seq_to_set();
            }
        }
        let n = self.users.len();
        if n == 0 {
            return String::from_str("{\n  \"users\": []\n}");
        }
        let mut out = String::from_str("{\n  \"users\": [\n");
        let mut i: usize = 0;
        while i < n
            invariant
                n == self.users@.len() == self.entries().len(),
                i <= n,
                out@ == "{\n  \"users\": [\n"@ + record_lines(self.entries().subrange(0, i as int)),
            decreases n - i,
        {
            let q = quote_json(self.users[i].as_str());
            let ghost e = self.entries().subrange(0, i + 1);
            proof {
                assert(e.drop_last() =~= self.entries().subrange(0, i as int));
            }
            if i == 0 {
                out.append("    ");
                out.append(q.as_str());
                assert(e.len() == 1);
                assert(out@ =~= "{\n  \"users\": [\n"@ + record_lines(e));
            } else {
                out.append(",\n    ");
                out.append(q.as_str());
                assert(out@ =~= "{\n  \"users\": [\n"@ + record_lines(e));
            }
            i = i + 1;
        }
        out.append("\n  ]\n}");
        assert(self.entries().subrange(0, n as int) =~= self.entries());
        out
    }

    /// The list as it would be after adding `username`; `None` where it is
    /// there already, so that nothing is to be written.
    pub fn staged_add(&self, username: &str) -> (r: Option<WhiteList>)
        requires
            self.wf(),
        ensures
            r is None <==> self@.contains(username@),
            r matches Some(n) ==> n.wf() && n.entries() == with_name(self.entries(), username@)
                && n@ == self@.insert(username@),
    {
        if self.is_allowed(username) {
            return None;
        }
        let mut next = WhiteList { users: self.list() };
        next.add_user(username);
        Some(next)
    }

    /// The list as it would be after removing `username`; `None` where it is
    /// not there, so that nothing is to be written.
    pub fn staged_remove(&self, username: &str) -> (r: Option<WhiteList>)
        requires
            self.wf(),
        ensures
            r is None <==> !self@.contains(username@),
            r matches Some(n) ==> n.wf() && n.entries() == without_name(self.entries(), username@)
                && n@ == self@.remove(username@),
    {
        if !self.is_allowed(username) {
            return None;
        }
        let mut next = WhiteList { users: self.list() };
        next.remove_user(username);
        Some(next)
    }

    /// Takes the staged list where its record was written, and keeps the
    /// current one otherwise.
    pub fn settle(&mut self, staged: Option<WhiteList>, written: bool) -> (r: Change)
        requires
            old(self).wf(),
            staged matches Some(n) ==> n.wf(),
        ensures
            final(self).wf(),
            staged is None ==> r == Change::Unchanged && final(self).entries() == old(
                self,
            ).entries(),
            staged matches Some(n) ==> (written ==> r == Change::Changed && final(self).entries()
                == n.entries()) && (!written ==> r == Change::NotSaved && final(self).entries()
                == old(self).entries()),
    {
        match staged {
            None => Change::Unchanged,
            Some(n) => {
                if written {
                    *self = n;
                    Change::Changed
                } else {
                    Change::NotSaved
                }
            },
        }
    }

    /// A copy of the identities, in the order they were added.
    pub fn list(&self) -> (r: Vec<String>)
        ensures
            texts_view(r@) == self.entries(),
            texts_view(r@).to_set() == self@,
            self.wf() ==> texts_view(r@).no_duplicates() && r@.len() == self@.len(),
    {
        proof {
            if self.wf() {
                self.entries().unique_seq_to_set();
            }
        }
        let mut r: Vec<String> = Vec::new();
        let mut i: usize = 0;
        while i < self.users.len()
            invariant
                i <= self.users@.len(),
                r@.len() == i,
                self.entries().len() == self.users@.len(),
                texts_view(r@) == self.entries().subrange(0, i as int),
            decreases self.users@.len() - i,
        {
            let s = self.users[i].clone();
            assert(s@ == self.entries()[i as int]);
            let ghost before = r@;
            r.push(s);
            proof {
                assert(r@ == before.push(s));
                assert forall|k: int| 0 <= k < i implies #[trigger] texts_view(r@)[k] == self.entries()[k] by {
                    assert(texts_view(before)[k] == self.entries().subrange(0, i as int)[k]);
                }
                assert(texts_view(r@) =~= self.entries().subrange(0, i + 1));
            }
            i = i + 1;
        }
        assert(self.entries().subrange(0, i as int) =~= self.entries());
        r
    }
}

} // verus!
