//! The list of applications that the platform has launched.

use vstd::prelude::*;

use crate::models::{accesses_view, AccessView, ApplicationAccess};

verus! {

/// Whether `i` is the first position in `s` of an application named `name`.
pub open spec fn is_first_named(s: Seq<AccessView>, name: Seq<char>, i: int) -> bool {
    &&& 0 <= i < s.len()
    &&& s[i].application == name
    &&& forall|j: int| 0 <= j < i ==> s[j].application != name
}

/// Whether an application named `name` occurs in `s`.
pub open spec fn is_named_in(s: Seq<AccessView>, name: Seq<char>) -> bool {
    exists|i: int| #[trigger] is_first_named(s, name, i)
}

/// `s` after recording that `name` answers at `url`: the first entry named
/// `name` takes the new URL, or, where there is none, a new entry is appended.
pub open spec fn records(s: Seq<AccessView>, name: Seq<char>, url: Seq<char>) -> Seq<AccessView> {
    if is_named_in(s, name) {
        s.update(
            choose|i: int| #[trigger] is_first_named(s, name, i),
            AccessView { application: name, url },
        )
    } else {
        s.push(AccessView { application: name, url })
    }
}

/// Whether no two entries of `s` carry the same application name.
pub open spec fn names_unique(s: Seq<AccessView>) -> bool {
    forall|i: int, j: int|
        0 <= i < s.len() && 0 <= j < s.len() && i != j ==> #[trigger] s[i].application
            != #[trigger] s[j].application
}

/// Whether `s` lists `name` as answering at `url`.
pub open spec fn lists(s: Seq<AccessView>, name: Seq<char>, url: Seq<char>) -> bool {
    exists|i: int| 0 <= i < s.len() && #[trigger] s[i] == AccessView { application: name, url }
}

proof fn lemma_first_named_unique(s: Seq<AccessView>, name: Seq<char>, i: int, j: int)
    requires
        is_first_named(s, name, i),
        is_first_named(s, name, j),
    ensures
        i == j,
{
}

proof fn lemma_records_at(s: Seq<AccessView>, name: Seq<char>, url: Seq<char>, i: int)
    requires
        is_first_named(s, name, i),
    ensures
        records(s, name, url) == s.update(i, AccessView { application: name, url }),
{
    assert(is_named_in(s, name));
    let k = choose|k: int| #[trigger] is_first_named(s, name, k);
    lemma_first_named_unique(s, name, i, k);
}

proof fn lemma_records_absent(s: Seq<AccessView>, name: Seq<char>, url: Seq<char>)
    requires
        forall|j: int| 0 <= j < s.len() ==> s[j].application != name,
    ensures
        records(s, name, url) == s.push(AccessView { application: name, url }),
{
}

/// The applications that the platform has launched, in the order in which
/// they were first recorded.
pub struct LaunchedApps {
    apps: Vec<ApplicationAccess>,
}

impl View for LaunchedApps {
    type V = Seq<AccessView>;

    closed spec fn view(&self) -> Seq<AccessView> {
        accesses_view(self.apps@)
    }
}

impl LaunchedApps {
    /// A list that holds `initial_apps`, in their order.
    pub fn new(initial_apps: Vec<ApplicationAccess>) -> (r: LaunchedApps)
        ensures
            r@ == accesses_view(initial_apps@),
    {
        LaunchedApps { apps: initial_apps }
    }

    /// Records that `app_name` answers at `app_url`: the first entry with
    /// that name takes the new URL; where there is none, a new entry is
    /// appended.
    pub fn record(&mut self, app_name: String, app_url: String)
        ensures
            final(self)@ == records(old(self)@, app_name@, app_url@),
    {
        let n = self.apps.len();
        let mut i: usize = 0;
        while i < n
            invariant
                n == self.apps@.len(),
                self@ == old(self)@,
                i <= n,
                forall|j: int| 0 <= j < i ==> self@[j].application != app_name@,
            decreases n - i,
        {
            if self.apps[i].application == app_name {
                proof {
                    assert(is_first_named(self@, app_name@, i as int));
                    lemma_records_at(self@, app_name@, app_url@, i as int);
                }
                self.apps.set(i, ApplicationAccess { application: app_name, url: app_url });
                proof {
                    assert(self@ =~= records(old(self)@, app_name@, app_url@));
                }
                return ;
            }
            i = i + 1;
        }
        proof {
            lemma_records_absent(self@, app_name@, app_url@);
        }
        self.apps.push(ApplicationAccess { application: app_name, url: app_url });
        proof {
            assert(self@ =~= records(old(self)@, app_name@, app_url@));
        }
    }

    /// A copy of the list.
    pub fn list(&self) -> (r: Vec<ApplicationAccess>)
        ensures
            accesses_view(r@) == self@,
    {
        let mut r: Vec<ApplicationAccess> = Vec::new();
        let n = self.apps.len();
        let mut i: usize = 0;
        while i < n
            invariant
                n == self.apps@.len(),
                i <= n,
                accesses_view(r@) =~= self@.subrange(0, i as int),
            decreases n - i,
        {
            let entry = self.apps[i].duplicate();
            proof {
                assert(accesses_view(r@.push(entry)) =~= accesses_view(r@).push(entry@));
                assert(self@.subrange(0, i + 1) =~= self@.subrange(0, i as int).push(
                    self.apps@[i as int]@,
                ));
            }
            r.push(entry);
            i = i + 1;
        }
        assert(self@.subrange(0, n as int) =~= self@);
        r
    }
}

/// After `name` is recorded at `url`, the list shows `name` at `url`.
pub proof fn law_recorded_is_listed(s: Seq<AccessView>, name: Seq<char>, url: Seq<char>)
    ensures
        lists(records(s, name, url), name, url),
{
    if is_named_in(s, name) {
        let i = choose|i: int| #[trigger] is_first_named(s, name, i);
        assert(records(s, name, url)[i] == AccessView { application: name, url });
    } else {
        assert(records(s, name, url)[s.len() as int] == AccessView { application: name, url });
    }
}

/// Recording grows the list by one entry exactly when the name is new, and
/// leaves every entry of another name where it was.
pub proof fn law_record_keeps_others(s: Seq<AccessView>, name: Seq<char>, url: Seq<char>)
    ensures
        records(s, name, url).len() == if is_named_in(s, name) {
            s.len()
        } else {
            s.len() + 1
        },
        forall|i: int|
            0 <= i < s.len() && s[i].application != name ==> #[trigger] records(s, name, url)[i]
                == s[i],
{
}

/// Recording the same name and URL twice is recording it once.
pub proof fn law_record_idempotent(s: Seq<AccessView>, name: Seq<char>, url: Seq<char>)
    ensures
        records(records(s, name, url), name, url) == records(s, name, url),
{
    law_record_overwrites(s, name, url, url);
}

/// A later record of a name replaces the URL of an earlier one.
pub proof fn law_record_overwrites(
    s: Seq<AccessView>,
    name: Seq<char>,
    first_url: Seq<char>,
    second_url: Seq<char>,
)
    ensures
        records(records(s, name, first_url), name, second_url) == records(s, name, second_url),
{
    let r1 = records(s, name, first_url);
    if is_named_in(s, name) {
        let i = choose|i: int| #[trigger] is_first_named(s, name, i);
        lemma_records_at(s, name, first_url, i);
        assert(is_first_named(r1, name, i));
        lemma_records_at(r1, name, second_url, i);
        lemma_records_at(s, name, second_url, i);
        assert(records(r1, name, second_url) =~= records(s, name, second_url));
    } else {
        assert forall|j: int| 0 <= j < s.len() implies s[j].application != name by {
            if s[j].application == name {
                lemma_least_named(s, name, j);
            }
        }
        lemma_records_absent(s, name, first_url);
        lemma_records_absent(s, name, second_url);
        let p = s.len() as int;
        assert(is_first_named(r1, name, p));
        lemma_records_at(r1, name, second_url, p);
        assert(records(r1, name, second_url) =~= records(s, name, second_url));
    }
}

/// Where a name occurs in `s`, it has a first position.
proof fn lemma_least_named(s: Seq<AccessView>, name: Seq<char>, j: int)
    requires
        0 <= j < s.len(),
        s[j].application == name,
    ensures
        is_named_in(s, name),
    decreases j,
{
    if forall|m: int| 0 <= m < j ==> s[m].application != name {
        assert(is_first_named(s, name, j));
    } else {
        let m = choose|m: int| 0 <= m < j && s[m].application == name;
        lemma_least_named(s, name, m);
    }
}

/// Recording keeps the names of the list unique where they were.
pub proof fn law_record_keeps_names_unique(s: Seq<AccessView>, name: Seq<char>, url: Seq<char>)
    requires
        names_unique(s),
    ensures
        names_unique(records(s, name, url)),
{
    let r = records(s, name, url);
    if is_named_in(s, name) {
        let i = choose|i: int| #[trigger] is_first_named(s, name, i);
        lemma_records_at(s, name, url, i);
        assert forall|a: int, b: int|
            0 <= a < r.len() && 0 <= b < r.len() && a != b implies #[trigger] r[a].application
            != #[trigger] r[b].application by {
            if a == i {
                assert(r[b] == s[b]);
                assert(s[i].application != s[b].application);
            } else if b == i {
                assert(r[a] == s[a]);
                assert(s[i].application != s[a].application);
            } else {
                assert(r[a] == s[a] && r[b] == s[b]);
            }
        }
    } else {
        assert forall|j: int| 0 <= j < s.len() implies s[j].application != name by {
            if s[j].application == name {
                lemma_least_named(s, name, j);
            }
        }
        lemma_records_absent(s, name, url);
        assert forall|a: int, b: int|
            0 <= a < r.len() && 0 <= b < r.len() && a != b implies #[trigger] r[a].application
            != #[trigger] r[b].application by {
            if a < s.len() && b < s.len() {
                assert(r[a] == s[a] && r[b] == s[b]);
            } else if a < s.len() {
                assert(r[a] == s[a]);
            } else {
                assert(r[b] == s[b]);
            }
        }
    }
}

} // verus!
