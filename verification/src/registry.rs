//! The table of backends and the choice among them.
//!
//! The table is built once, in the order in which backends are registered, and
//! only read afterwards. A lookup ranks the backends that can serve a request:
//! those marked as default for their filetypes first, the others after them,
//! each group in registration order.

use crate::error::{FailureKind, SniprunError};
use crate::level::SupportLevel;
use vstd::prelude::*;

verus! {

/// The identity of one backend.
#[derive(Debug, PartialEq, Eq)]
pub struct BackendDescriptor {
    /// Identifier of the backend; no two registered backends share one.
    pub name: String,
    /// The filetypes that the backend claims.
    pub filetypes: Vec<String>,
    /// The most context that the backend can handle.
    pub max_support_level: SupportLevel,
    /// Whether the backend is preferred for its filetypes.
    pub is_default_for_filetype: bool,
}

/// The mathematical content of a [`BackendDescriptor`].
pub struct Descriptor {
    pub name: Seq<char>,
    pub filetypes: Seq<Seq<char>>,
    pub max_support_level: SupportLevel,
    pub is_default_for_filetype: bool,
}

impl Descriptor {
    /// Whether the backend claims `filetype`.
    pub open spec fn claims(self, filetype: Seq<char>) -> bool {
        self.filetypes.contains(filetype)
    }

    /// Whether the backend can serve a request for `filetype` at the level
    /// `requested`: it claims the filetype and reaches the level.
    pub open spec fn eligible(self, filetype: Seq<char>, requested: SupportLevel) -> bool {
        self.claims(filetype) && self.max_support_level.reaches(requested)
    }
}

impl View for BackendDescriptor {
    type V = Descriptor;

    open spec fn view(&self) -> Descriptor {
        Descriptor {
            name: self.name@,
            filetypes: self.filetypes@.map_values(|filetype: String| filetype@),
            max_support_level: self.max_support_level,
            is_default_for_filetype: self.is_default_for_filetype,
        }
    }
}

/// The eligible backends that are marked as default.
pub open spec fn preferred(filetype: Seq<char>, requested: SupportLevel) -> spec_fn(
    Descriptor,
) -> bool {
    |d: Descriptor| d.eligible(filetype, requested) && d.is_default_for_filetype
}

/// The eligible backends that are not marked as default.
pub open spec fn fallback(filetype: Seq<char>, requested: SupportLevel) -> spec_fn(
    Descriptor,
) -> bool {
    |d: Descriptor| d.eligible(filetype, requested) && !d.is_default_for_filetype
}

/// The backends of `table` that can serve the request, best first: the
/// defaults in registration order, then the others in registration order.
pub open spec fn ranked(table: Seq<Descriptor>, filetype: Seq<char>, requested: SupportLevel) -> Seq<
    Descriptor,
> {
    table.filter(preferred(filetype, requested)) + table.filter(fallback(filetype, requested))
}

/// The contents of a list of borrowed descriptors.
pub open spec fn contents(list: Seq<&BackendDescriptor>) -> Seq<Descriptor> {
    list.map_values(|d: &BackendDescriptor| d@)
}

/// Filtering one more element either appends it or changes nothing.
proof fn filter_step<A>(s: Seq<A>, keep: spec_fn(A) -> bool, i: int)
    requires
        0 <= i < s.len(),
    ensures
        s.take(i + 1).filter(keep) == if keep(s[i]) {
            s.take(i).filter(keep).push(s[i])
        } else {
            s.take(i).filter(keep)
        },
{
    reveal(Seq::filter);
    assert(s.take(i + 1).drop_last() =~= s.take(i));
}

impl BackendDescriptor {
    /// Whether the backend claims `filetype`.
    pub fn claims(&self, filetype: &String) -> (found: bool)
        ensures
            found == self@.claims(filetype@),
    {
        let mut i: usize = 0;
        while i < self.filetypes.len()
            invariant
                i <= self.filetypes.len(),
                forall|j: int| 0 <= j < i ==> self@.filetypes[j] != filetype@,
            decreases self.filetypes.len() - i,
        {
            if self.filetypes[i] == *filetype {
                assert(self@.filetypes[i as int] == filetype@);
                return true;
            }
            i += 1;
        }
        false
    }

    /// Whether the backend can serve a request for `filetype` at `requested`.
    pub fn eligible(&self, filetype: &String, requested: SupportLevel) -> (yes: bool)
        ensures
            yes == self@.eligible(filetype@, requested),
    {
        self.max_support_level >= requested && self.claims(filetype)
    }
}

/// The registered backends, in registration order.
pub struct Registry {
    entries: Vec<BackendDescriptor>,
}

impl View for Registry {
    type V = Seq<Descriptor>;

    closed spec fn view(&self) -> Seq<Descriptor> {
        self.entries@.map_values(|d: BackendDescriptor| d@)
    }
}

impl Registry {
    /// The table is valid: no two entries share a name.
    pub open spec fn wf(&self) -> bool {
        forall|i: int, j: int|
            0 <= i < j < self@.len() ==> #[trigger] self@[i].name != #[trigger] self@[j].name
    }

    /// An empty table.
    pub fn new() -> (registry: Registry)
        ensures
            registry.wf(),
            registry@.len() == 0,
    {
        Registry { entries: Vec::new() }
    }

    /// Number of registered backends.
    pub fn len(&self) -> (n: usize)
        ensures
            n == self@.len(),
    {
        self.entries.len()
    }

    /// The backend registered under `name`, if there is one. In a valid table
    /// there is no second one.
    pub fn find(&self, name: &String) -> (found: Option<&BackendDescriptor>)
        ensures
            found is Some <==> exists|i: int| 0 <= i < self@.len() && #[trigger] self@[i].name == name@,
            found matches Some(d) ==> exists|i: int|
                0 <= i < self@.len() && #[trigger] self@[i] == d@ && d@.name == name@ && forall|j: int|
                    0 <= j < i ==> (#[trigger] self@[j]).name != name@,
    {
        let mut i: usize = 0;
        while i < self.entries.len()
            invariant
                i <= self.entries.len(),
                forall|j: int| 0 <= j < i ==> self@[j].name != name@,
            decreases self.entries.len() - i,
        {
            if self.entries[i].name == *name {
                assert(self@[i as int].name == name@);
                assert(self@[i as int] == self.entries[i as int]@);
                return Some(&self.entries[i]);
            }
            i += 1;
        }
        None
    }

    /// Appends `descriptor` to the table, unless a backend of that name is
    /// registered already: then the table stays as it is.
    pub fn register(&mut self, descriptor: BackendDescriptor) -> (added: bool)
        requires
            old(self).wf(),
        ensures
            final(self).wf(),
            added == !exists|i: int|
                0 <= i < old(self)@.len() && #[trigger] old(self)@[i].name == descriptor@.name,
            added ==> final(self)@ == old(self)@.push(descriptor@),
            !added ==> final(self)@ == old(self)@,
    {
        if self.find(&descriptor.name).is_some() {
            return false;
        }
        let ghost before = self.entries@;
        self.entries.push(descriptor);
        assert(self@ =~= before.map_values(|d: BackendDescriptor| d@).push(descriptor@));
        true
    }

    /// The backends that claim `filetype` and reach `requested`, best first.
    /// Fails with `NoBackendAvailable`, naming the filetype, when there is
    /// none.
    pub fn select(&self, filetype: &String, requested: SupportLevel) -> (result: Result<
        Vec<&BackendDescriptor>,
        SniprunError,
    >)
        ensures
            match result {
                Ok(list) => list@.len() > 0 && contents(list@) == ranked(
                    self@,
                    filetype@,
                    requested,
                ),
                Err(e) => ranked(self@, filetype@, requested).len() == 0 && e.kind()
                    == FailureKind::NoBackendAvailable && e.detail() == filetype@,
            },
    {
        let ghost table = self@;
        let ghost first = preferred(filetype@, requested);
        let ghost second = fallback(filetype@, requested);
        let mut list: Vec<&BackendDescriptor> = Vec::new();
        let mut i: usize = 0;
        while i < self.entries.len()
            invariant
                i <= self.entries.len(),
                table == self@,
                first == preferred(filetype@, requested),
                contents(list@) =~= table.take(i as int).filter(first),
            decreases self.entries.len() - i,
        {
            let entry = &self.entries[i];
            proof {
                filter_step(table, first, i as int);
                assert(table[i as int] == entry@);
            }
            if entry.is_default_for_filetype && entry.eligible(filetype, requested) {
                list.push(entry);
            }
            i += 1;
        }
        assert(table.take(i as int) =~= table);
        let ghost head = list@;
        i = 0;
        while i < self.entries.len()
            invariant
                i <= self.entries.len(),
                table == self@,
                second == fallback(filetype@, requested),
                contents(head) == table.filter(preferred(filetype@, requested)),
                contents(list@) =~= contents(head) + table.take(i as int).filter(second),
            decreases self.entries.len() - i,
        {
            let entry = &self.entries[i];
            proof {
                filter_step(table, second, i as int);
                assert(table[i as int] == entry@);
            }
            if !entry.is_default_for_filetype && entry.eligible(filetype, requested) {
                let ghost shorter = list@;
                list.push(entry);
                assert(contents(list@) =~= contents(shorter).push(entry@));
            }
            i += 1;
        }
        assert(table.take(i as int) =~= table);
        if list.len() == 0 {
            Err(SniprunError::NoBackendAvailable(filetype.clone()))
        } else {
            Ok(list)
        }
    }
}

/// A backend is ranked exactly if it is registered and can serve the request.
pub proof fn ranked_are_the_eligible(
    table: Seq<Descriptor>,
    filetype: Seq<char>,
    requested: SupportLevel,
    d: Descriptor,
)
    ensures
        ranked(table, filetype, requested).contains(d) <==> table.contains(d) && d.eligible(
            filetype,
            requested,
        ),
{
    let first = preferred(filetype, requested);
    let second = fallback(filetype, requested);
    let head = table.filter(first);
    let tail = table.filter(second);
    let all = ranked(table, filetype, requested);
    if all.contains(d) {
        let k = choose|k: int| 0 <= k < all.len() && all[k] == d;
        if k < head.len() {
            assert(head[k] == d);
            table.lemma_filter_pred(first, k);
            table.lemma_filter_contains_rev(first, d);
        } else {
            assert(tail[k - head.len()] == d);
            table.lemma_filter_pred(second, k - head.len());
            table.lemma_filter_contains_rev(second, d);
        }
    }
    if table.contains(d) && d.eligible(filetype, requested) {
        let i = choose|i: int| 0 <= i < table.len() && table[i] == d;
        if d.is_default_for_filetype {
            table.lemma_filter_contains(first, i);
            let k = choose|k: int| 0 <= k < head.len() && head[k] == d;
            assert(all[k] == d);
        } else {
            table.lemma_filter_contains(second, i);
            let k = choose|k: int| 0 <= k < tail.len() && tail[k] == d;
            assert(all[head.len() + k] == d);
        }
    }
}

/// In the ranking no backend marked as default comes after one that is not.
pub proof fn defaults_come_first(
    table: Seq<Descriptor>,
    filetype: Seq<char>,
    requested: SupportLevel,
    i: int,
    j: int,
)
    requires
        0 <= i <= j < ranked(table, filetype, requested).len(),
        ranked(table, filetype, requested)[j].is_default_for_filetype,
    ensures
        ranked(table, filetype, requested)[i].is_default_for_filetype,
{
    let first = preferred(filetype, requested);
    let second = fallback(filetype, requested);
    let head = table.filter(first);
    if j >= head.len() {
        table.lemma_filter_pred(second, j - head.len());
    } else {
        table.lemma_filter_pred(first, i);
    }
}

/// Filtering keeps the order: of two elements that are kept, the one that
/// comes first afterwards came first before. The result names where the two
/// stood.
proof fn filter_keeps_order<A>(s: Seq<A>, keep: spec_fn(A) -> bool, i: int, j: int) -> (at: (
    int,
    int,
))
    requires
        0 <= i < j < s.filter(keep).len(),
    ensures
        0 <= at.0 < at.1 < s.len(),
        s[at.0] == s.filter(keep)[i],
        s[at.1] == s.filter(keep)[j],
    decreases s.len(),
{
    reveal(Seq::filter);
    let rest = s.drop_last();
    let kept = rest.filter(keep);
    if keep(s.last()) && j == kept.len() {
        assert(kept.contains(kept[i]));
        rest.lemma_filter_contains_rev(keep, kept[i]);
        let a = choose|a: int| 0 <= a < rest.len() && rest[a] == kept[i];
        (a, s.len() - 1)
    } else {
        filter_keeps_order(rest, keep, i, j)
    }
}

/// Among the backends marked as default, and among the others, the ranking
/// follows the order of registration.
pub proof fn ranking_keeps_registration_order(
    table: Seq<Descriptor>,
    filetype: Seq<char>,
    requested: SupportLevel,
    i: int,
    j: int,
)
    requires
        0 <= i < j < ranked(table, filetype, requested).len(),
        ranked(table, filetype, requested)[i].is_default_for_filetype == ranked(
            table,
            filetype,
            requested,
        )[j].is_default_for_filetype,
    ensures
        exists|a: int, b: int|
            0 <= a < b < table.len() && #[trigger] table[a] == ranked(table, filetype, requested)[i]
                && #[trigger] table[b] == ranked(table, filetype, requested)[j],
{
    let first = preferred(filetype, requested);
    let second = fallback(filetype, requested);
    let head = table.filter(first);
    if j < head.len() {
        let at = filter_keeps_order(table, first, i, j);
        assert(table[at.0] == head[i] && table[at.1] == head[j]);
    } else if i >= head.len() {
        let at = filter_keeps_order(table, second, i - head.len(), j - head.len());
        assert(table[at.0] == table.filter(second)[i - head.len()]);
        assert(table[at.1] == table.filter(second)[j - head.len()]);
    } else {
        table.lemma_filter_pred(first, i);
        table.lemma_filter_pred(second, j - head.len());
    }
}

/// Where no two registered backends share a name, no two ranked backends do:
/// the ranking lists every backend that can serve the request once.
pub proof fn ranked_names_are_distinct(
    table: Seq<Descriptor>,
    filetype: Seq<char>,
    requested: SupportLevel,
    i: int,
    j: int,
)
    requires
        forall|a: int, b: int|
            0 <= a < b < table.len() ==> #[trigger] table[a].name != #[trigger] table[b].name,
        0 <= i < j < ranked(table, filetype, requested).len(),
    ensures
        ranked(table, filetype, requested)[i].name != ranked(table, filetype, requested)[j].name,
{
    let first = preferred(filetype, requested);
    let second = fallback(filetype, requested);
    let head = table.filter(first);
    let tail = table.filter(second);
    if j < head.len() {
        let at = filter_keeps_order(table, first, i, j);
        assert(table[at.0].name != table[at.1].name);
    } else if i >= head.len() {
        let at = filter_keeps_order(table, second, i - head.len(), j - head.len());
        assert(table[at.0].name != table[at.1].name);
    } else {
        table.lemma_filter_pred(first, i);
        table.lemma_filter_pred(second, j - head.len());
        assert(head.contains(head[i]));
        assert(tail.contains(tail[j - head.len()]));
        table.lemma_filter_contains_rev(first, head[i]);
        table.lemma_filter_contains_rev(second, tail[j - head.len()]);
        let a = choose|a: int| 0 <= a < table.len() && table[a] == head[i];
        let b = choose|b: int| 0 <= b < table.len() && table[b] == tail[j - head.len()];
        if a < b {
            assert(table[a].name != table[b].name);
        } else {
            assert(table[b].name != table[a].name);
        }
    }
}

/// The ranking is empty exactly if no registered backend can serve the
/// request.
pub proof fn none_ranked_iff_none_eligible(
    table: Seq<Descriptor>,
    filetype: Seq<char>,
    requested: SupportLevel,
)
    ensures
        ranked(table, filetype, requested).len() == 0 <==> forall|i: int|
            0 <= i < table.len() ==> !(#[trigger] table[i]).eligible(filetype, requested),
{
    let all = ranked(table, filetype, requested);
    if all.len() > 0 {
        assert(all.contains(all[0]));
        ranked_are_the_eligible(table, filetype, requested, all[0]);
    }
    if exists|i: int| 0 <= i < table.len() && (#[trigger] table[i]).eligible(filetype, requested) {
        let i = choose|i: int|
            0 <= i < table.len() && (#[trigger] table[i]).eligible(filetype, requested);
        assert(table.contains(table[i]));
        ranked_are_the_eligible(table, filetype, requested, table[i]);
    }
}

} // verus!
