//! Dimension-table resolution: find-or-create of User and Project rows.
//!
//! Rows are created lazily on first reference and never deleted; a row's id
//! is its position in creation order plus one, so an id of at least 1
//! always denotes a persisted row.  The find-or-create operation follows
//! the race-safe insert-ignore-then-reselect pattern: a resolve of an
//! already-present name changes nothing and returns the id the first
//! resolve produced.

use vstd::prelude::*;
use crate::text::str_eq;

verus! {

/// What `str::to_uppercase` returns: the uppercase form of a string,
/// a function of its characters alone.
pub uninterp spec fn upper_of(s: Seq<char>) -> Seq<char>;

/// Relies on `str::to_uppercase`: the result depends on the characters
/// alone; it is empty exactly when the input is (every character maps to
/// at least one character); and it is itself uppercase, so uppercasing it
/// again changes nothing.
#[verifier::external_body]
fn to_upper(s: &str) -> (r: String)
    ensures
        r@ == upper_of(s@),
        r@.len() == 0 <==> s@.len() == 0,
        upper_of(r@) == r@,
{
    s.to_uppercase()
}

/// User names are stored normalized: upper-cased.  The result is a fixed
/// point of normalization: normalizing twice equals normalizing once.
pub fn normalize_user_name(user_name: &str) -> (r: String)
    ensures
        r@ == upper_of(user_name@),
        r@.len() == 0 <==> user_name@.len() == 0,
        upper_of(r@) == r@,
{
    to_upper(user_name)
}

/// A dimension table holds each name at most once.
pub open spec fn dim_wf(names: Seq<Seq<char>>) -> bool {
    forall|i: int, j: int| 0 <= i < j < names.len() ==> names[i] != names[j]
}

/// Whether the table holds `n`.
pub open spec fn dim_contains(names: Seq<Seq<char>>, n: Seq<char>) -> bool {
    exists|i: int| 0 <= i < names.len() && names[i] == n
}

/// The table after a find-or-create of `n`: unchanged when `n` is present,
/// extended by one row otherwise.
pub open spec fn dim_upsert(names: Seq<Seq<char>>, n: Seq<char>) -> Seq<Seq<char>> {
    if dim_contains(names, n) {
        names
    } else {
        names.push(n)
    }
}

/// The id under which the table holds `n` (meaningful only when it does).
pub open spec fn dim_id(names: Seq<Seq<char>>, n: Seq<char>) -> int {
    (choose|i: int| 0 <= i < names.len() && names[i] == n) + 1
}

/// In-memory model of a dimension table (Users, Projects).
pub struct DimensionTable {
    names: Vec<String>,
}

impl View for DimensionTable {
    type V = Seq<Seq<char>>;

    closed spec fn view(&self) -> Seq<Seq<char>> {
        self.names@.map_values(|s: String| s@)
    }
}

impl DimensionTable {
    /// Names are unique.
    pub open spec fn wf(&self) -> bool {
        dim_wf(self@)
    }

    pub fn new() -> (t: DimensionTable)
        ensures
            t@ == Seq::<Seq<char>>::empty(),
            t.wf(),
    {
        let t = DimensionTable { names: Vec::new() };
        proof {
            assert(t@ =~= Seq::<Seq<char>>::empty());
        }
        t
    }

    fn position_of(&self, name: &str) -> (r: Option<usize>)
        ensures
            match r {
                Option::Some(i) => i < self@.len() && self@[i as int] == name@,
                Option::None => !dim_contains(self@, name@),
            },
    {
        let n = self.names.len();
        let mut i: usize = 0;
        while i < n
            invariant
                i <= n,
                n == self@.len(),
                n == self.names@.len(),
                forall|j: int| 0 <= j < i ==> self@[j] != name@,
            decreases n - i,
        {
            if str_eq(self.names[i].as_str(), name) {
                return Option::Some(i);
            }
            i = i + 1;
        }
        Option::None
    }

    /// Find or create the row for `name` and return its id: look the name
    /// up; when absent, insert it ignoring a duplicate, then select the id
    /// by name.  A resolve of a present name changes nothing.
    pub fn get_or_create(&mut self, name: &str) -> (id: i64)
        requires
            old(self).wf(),
            old(self)@.len() < i64::MAX,
        ensures
            final(self).wf(),
            final(self)@ == dim_upsert(old(self)@, name@),
            dim_contains(final(self)@, name@),
            id == dim_id(final(self)@, name@),
            1 <= id,
    {
        match self.position_of(name) {
            Option::Some(i) => {
                proof {
                    let j = choose|j: int| 0 <= j < self@.len() && self@[j] == name@;
                    assert(self@[i as int] == name@);
                    assert(j == i as int);
                }
                i as i64 + 1
            },
            Option::None => {
                let ghost before = self@;
                self.names.push(String::from_str(name));
                proof {
                    assert(self@ =~= before.push(name@));
                    assert(dim_upsert(before, name@) =~= self@);
                    let last = self@.len() - 1;
                    assert(self@[last] == name@);
                    assert forall|i: int, j: int| 0 <= i < j < self@.len() implies self@[i]
                        != self@[j] by {
                        if j == last {
                            assert(self@[i] == before[i]);
                        }
                    }
                    let j = choose|j: int| 0 <= j < self@.len() && self@[j] == name@;
                    assert(j == last);
                }
                self.names.len() as i64
            },
        }
    }

    /// Resolve a project name verbatim, creating its row on first
    /// reference, and return the id.
    pub fn try_insert_and_get_project(&mut self, project: &str) -> (id: i64)
        requires
            old(self).wf(),
            old(self)@.len() < i64::MAX,
        ensures
            final(self).wf(),
            final(self)@ == dim_upsert(old(self)@, project@),
            id == dim_id(final(self)@, project@),
            1 <= id,
    {
        self.get_or_create(project)
    }

    /// Resolve a user name, creating its row on first reference.  An empty
    /// name means "unset" and resolves to no id, distinct from "not
    /// found"; any other name is normalized (upper-cased) first.
    pub fn find_or_add_user_id(&mut self, name: &str) -> (r: Option<i64>)
        requires
            old(self).wf(),
            old(self)@.len() < i64::MAX,
        ensures
            final(self).wf(),
            name@.len() == 0 ==> r == Option::<i64>::None && final(self)@ == old(self)@,
            match r {
                Option::None => name@.len() == 0,
                Option::Some(id) => {
                    &&& name@.len() > 0
                    &&& final(self)@ == dim_upsert(old(self)@, upper_of(name@))
                    &&& id == dim_id(final(self)@, upper_of(name@))
                    &&& 1 <= id
                },
            },
    {
        if name.is_empty() {
            return Option::None;
        }
        let normalized = normalize_user_name(name);
        Option::Some(self.get_or_create(normalized.as_str()))
    }
}

/// Law: find-or-create converges.  After one resolve of a previously
/// unseen name, the name is present; every further resolve of the same
/// name leaves the table unchanged and yields the same id.
pub proof fn lemma_resolve_converges(names: Seq<Seq<char>>, n: Seq<char>)
    requires
        dim_wf(names),
    ensures
        dim_contains(dim_upsert(names, n), n),
        dim_upsert(dim_upsert(names, n), n) == dim_upsert(names, n),
        dim_id(dim_upsert(dim_upsert(names, n), n), n) == dim_id(dim_upsert(names, n), n),
{
    if !dim_contains(names, n) {
        let pushed = names.push(n);
        assert(pushed[names.len() as int] == n);
    }
}

/// Law: user resolution is insensitive to casing.  Two user names with the
/// same normalized form resolve to the same id, and the second resolve
/// changes nothing.
pub proof fn lemma_user_resolution_case_insensitive(
    names: Seq<Seq<char>>,
    a: Seq<char>,
    b: Seq<char>,
)
    requires
        dim_wf(names),
        upper_of(a) == upper_of(b),
    ensures
        dim_upsert(dim_upsert(names, upper_of(a)), upper_of(b)) == dim_upsert(
            names,
            upper_of(a),
        ),
        dim_id(dim_upsert(names, upper_of(a)), upper_of(b)) == dim_id(
            dim_upsert(names, upper_of(a)),
            upper_of(a),
        ),
{
    lemma_resolve_converges(names, upper_of(a));
}

} // verus!
