//! The registry store: service instances grouped by name, in registration order.

use crate::models::{clone_services, clone_strings, services_view, strings_view, NewService, ServiceView};
use vstd::prelude::*;

verus! {

/// The registry as the contracts see it: one entry per name, in the order in
/// which each name was first registered, holding that name's instances in
/// registration order.
pub type RegistryView = Seq<(Seq<char>, Seq<ServiceView>)>;

/// No name has two entries.
pub open spec fn distinct_names(r: RegistryView) -> bool {
    forall|i: int, j: int|
        0 <= i < r.len() && 0 <= j < r.len() && i != j ==> #[trigger] r[i].0 != #[trigger] r[j].0
}

/// `name` has an entry.
pub open spec fn has_name(r: RegistryView, name: Seq<char>) -> bool {
    exists|i: int| 0 <= i < r.len() && #[trigger] r[i].0 == name
}

/// The position of `name`'s entry, where it has one.
pub open spec fn name_index(r: RegistryView, name: Seq<char>) -> int {
    choose|i: int| 0 <= i < r.len() && #[trigger] r[i].0 == name
}

/// The instances registered under `name`, or `None` where the name is unknown.
pub open spec fn lookup(r: RegistryView, name: Seq<char>) -> Option<Seq<ServiceView>> {
    if has_name(r, name) {
        Some(r[name_index(r, name)].1)
    } else {
        None
    }
}

/// The instances registered under `name`; empty where the name is unknown.
pub open spec fn lookup_or_empty(r: RegistryView, name: Seq<char>) -> Seq<ServiceView> {
    match lookup(r, name) {
        Some(l) => l,
        None => Seq::empty(),
    }
}

/// Every name with an entry, in entry order.
pub open spec fn names_of(r: RegistryView) -> Seq<Seq<char>> {
    r.map_values(|e: (Seq<char>, Seq<ServiceView>)| e.0)
}

/// Some instance under some name has this id.
pub open spec fn holds_id(r: RegistryView, id: Seq<char>) -> bool {
    exists|i: int, j: int| 0 <= i < r.len() && 0 <= j < r[i].1.len() && #[trigger] r[i].1[j].id == id
}

/// The registry after appending `s` to the list of its name, creating it if absent.
pub open spec fn register_spec(r: RegistryView, s: ServiceView) -> RegistryView {
    if has_name(r, s.name) {
        let i = name_index(r, s.name);
        r.update(i, (s.name, r[i].1.push(s)))
    } else {
        r.push((s.name, seq![s]))
    }
}

/// A list without the instances whose id is `id`.
pub open spec fn without_id(l: Seq<ServiceView>, id: Seq<char>) -> Seq<ServiceView> {
    l.filter(|s: ServiceView| s.id != id)
}

/// The registry after removing the instances with id `id` from `name`'s list.
pub open spec fn deregister_spec(r: RegistryView, name: Seq<char>, id: Seq<char>) -> RegistryView {
    if has_name(r, name) {
        let i = name_index(r, name);
        r.update(i, (name, without_id(r[i].1, id)))
    } else {
        r
    }
}

/// A list without the instances whose id is in `ids`.
pub open spec fn without_ids(l: Seq<ServiceView>, ids: Set<Seq<char>>) -> Seq<ServiceView> {
    l.filter(|s: ServiceView| !ids.contains(s.id))
}

/// The registry after removing, from every list, each instance whose id is in `ids`.
pub open spec fn evict_spec(r: RegistryView, ids: Set<Seq<char>>) -> RegistryView {
    r.map_values(|e: (Seq<char>, Seq<ServiceView>)| (e.0, without_ids(e.1, ids)))
}

/// With distinct names, the entry at `i` is the one that `lookup` finds for its name.
pub proof fn lemma_name_index(r: RegistryView, i: int)
    requires
        distinct_names(r),
        0 <= i < r.len(),
    ensures
        has_name(r, r[i].0),
        name_index(r, r[i].0) == i,
        lookup(r, r[i].0) == Some(r[i].1),
{
    assert(has_name(r, r[i].0));
    let k = name_index(r, r[i].0);
    assert(r[k].0 == r[i].0);
}

/// Filtering a sequence extended by one element.
pub proof fn lemma_filter_push<A>(s: Seq<A>, x: A, p: spec_fn(A) -> bool)
    ensures
        s.push(x).filter(p) == (if p(x) {
            s.filter(p).push(x)
        } else {
            s.filter(p)
        }),
{
    reveal(Seq::filter);
    assert(s.push(x).drop_last() =~= s);
}

/// The first `i + 1` elements are the first `i` followed by element `i`.
pub proof fn lemma_take_succ<A>(s: Seq<A>, i: int)
    requires
        0 <= i < s.len(),
    ensures
        s.take(i + 1) == s.take(i).push(s[i]),
{
    assert(s.take(i + 1) =~= s.take(i).push(s[i]));
}

/// Whether some instance of the list has id `id`.
fn list_has_id(services: &Vec<NewService>, id: &String) -> (r: bool)
    ensures
        r == exists|j: int| 0 <= j < services@.len() && #[trigger] services@[j].id@ == id@,
{
    let mut j: usize = 0;
    while j < services.len()
        invariant
            j <= services.len(),
            forall|k: int| 0 <= k < j ==> #[trigger] services@[k].id@ != id@,
        decreases services.len() - j,
    {
        if services[j].id == *id {
            return true;
        }
        j += 1;
    }
    false
}

/// Whether `s` is among `ids`.
fn contains_string(ids: &Vec<String>, s: &String) -> (r: bool)
    ensures
        r == strings_view(ids@).contains(s@),
{
    let mut j: usize = 0;
    while j < ids.len()
        invariant
            j <= ids.len(),
            forall|k: int| 0 <= k < j ==> #[trigger] ids@[k]@ != s@,
        decreases ids.len() - j,
    {
        if ids[j] == *s {
            assert(strings_view(ids@)[j as int] == s@);
            return true;
        }
        j += 1;
    }
    assert forall|k: int| 0 <= k < strings_view(ids@).len() implies strings_view(ids@)[k] != s@ by {
        assert(ids@[k]@ != s@);
    }
    false
}

/// The instances of `v` whose id is not `id`, in order.
fn filter_out_id(v: &Vec<NewService>, id: &String) -> (r: Vec<NewService>)
    ensures
        services_view(r@) == without_id(services_view(v@), id@),
{
    let ghost p = |s: ServiceView| s.id != id@;
    let mut r: Vec<NewService> = Vec::new();
    let mut i: usize = 0;
    while i < v.len()
        invariant
            i <= v.len(),
            p == (|s: ServiceView| s.id != id@),
            services_view(r@) == services_view(v@).take(i as int).filter(p),
        decreases v.len() - i,
    {
        proof {
            lemma_take_succ(services_view(v@), i as int);
            lemma_filter_push(services_view(v@).take(i as int), v@[i as int]@, p);
        }
        let ghost before = r@;
        if v[i].id != *id {
            r.push(v[i].clone());
            assert(services_view(r@) =~= services_view(before).push(v@[i as int]@));
        }
        i += 1;
    }
    assert(services_view(v@).take(v.len() as int) =~= services_view(v@));
    r
}

/// The instances of `v` whose id is not among `ids`, in order.
fn filter_out_ids(v: &Vec<NewService>, ids: &Vec<String>) -> (r: Vec<NewService>)
    ensures
        services_view(r@) == without_ids(services_view(v@), strings_view(ids@).to_set()),
{
    let ghost set = strings_view(ids@).to_set();
    let ghost p = |s: ServiceView| !set.contains(s.id);
    let mut r: Vec<NewService> = Vec::new();
    let mut i: usize = 0;
    while i < v.len()
        invariant
            i <= v.len(),
            set == strings_view(ids@).to_set(),
            p == (|s: ServiceView| !set.contains(s.id)),
            services_view(r@) == services_view(v@).take(i as int).filter(p),
        decreases v.len() - i,
    {
        proof {
            lemma_take_succ(services_view(v@), i as int);
            lemma_filter_push(services_view(v@).take(i as int), v@[i as int]@, p);
        }
        let ghost before = r@;
        if !contains_string(ids, &v[i].id) {
            r.push(v[i].clone());
            assert(services_view(r@) =~= services_view(before).push(v@[i as int]@));
        }
        i += 1;
    }
    assert(services_view(v@).take(v.len() as int) =~= services_view(v@));
    r
}

/// A list of instances stored under one name.
struct ServiceGroup {
    name: String,
    services: Vec<NewService>,
}

/// The registry store: the single source of truth for discovery.
pub struct ServiceRegistry {
    groups: Vec<ServiceGroup>,
}

impl View for ServiceRegistry {
    type V = RegistryView;

    closed spec fn view(&self) -> RegistryView {
        self.groups@.map_values(|g: ServiceGroup| (g.name@, services_view(g.services@)))
    }
}

impl ServiceRegistry {
    /// No name has two groups.
    pub open spec fn wf(&self) -> bool {
        distinct_names(self@)
    }

    /// An empty registry.
    pub fn new() -> (r: Self)
        ensures
            r.wf(),
            r@ == Seq::<(Seq<char>, Seq<ServiceView>)>::empty(),
    {
        let r = ServiceRegistry { groups: Vec::new() };
        assert(r@ =~= Seq::<(Seq<char>, Seq<ServiceView>)>::empty());
        r
    }

    /// The position of `name`'s group.
    fn find(&self, name: &String) -> (r: Option<usize>)
        ensures
            match r {
                Some(i) => i < self@.len() && self@[i as int].0 == name@,
                None => !has_name(self@, name@),
            },
    {
        let mut i: usize = 0;
        while i < self.groups.len()
            invariant
                i <= self.groups.len(),
                forall|j: int| 0 <= j < i ==> #[trigger] self@[j].0 != name@,
            decreases self.groups.len() - i,
        {
            if self.groups[i].name == *name {
                return Some(i);
            }
            i += 1;
        }
        None
    }

    /// Appends `service` to the list of its name, creating the list if absent,
    /// and returns the updated list.
    pub fn register(&mut self, service: NewService) -> (list: Vec<NewService>)
        requires
            old(self).wf(),
        ensures
            final(self).wf(),
            final(self)@ == register_spec(old(self)@, service@),
            lookup(final(self)@, service.name@) == Some(services_view(list@)),
    {
        let ghost s = service@;
        let ghost old_view = self@;
        let ghost old_groups = self.groups@;
        match self.find(&service.name) {
            Some(i) => {
                proof {
                    lemma_name_index(old_view, i as int);
                }
                self.groups[i].services.push(service);
                assert(services_view(self.groups@[i as int].services@) =~= services_view(
                    old_groups[i as int].services@,
                ).push(s));
                assert(self@ =~= register_spec(old_view, s));
                proof {
                    lemma_name_index(self@, i as int);
                }
                clone_services(&self.groups[i].services)
            },
            None => {
                let name = service.name.clone();
                let mut services: Vec<NewService> = Vec::new();
                services.push(service);
                let list = clone_services(&services);
                self.groups.push(ServiceGroup { name, services });
                assert(services_view(services@) =~= seq![s]);
                assert(self@ =~= register_spec(old_view, s));
                proof {
                    lemma_name_index(self@, old_view.len() as int);
                }
                list
            },
        }
    }
}


impl ServiceRegistry {
    /// A copy of the instances registered under `name`; `None` where the name
    /// is unknown, which differs from an empty list.
    pub fn discover(&self, name: &String) -> (r: Option<Vec<NewService>>)
        requires
            self.wf(),
        ensures
            match r {
                Some(v) => lookup(self@, name@) == Some(services_view(v@)),
                None => lookup(self@, name@) is None,
            },
    {
        match self.find(name) {
            Some(i) => {
                proof {
                    lemma_name_index(self@, i as int);
                }
                Some(clone_services(&self.groups[i].services))
            },
            None => None,
        }
    }

    /// Every registered name, each once, in the order in which it first appeared.
    pub fn list_names(&self) -> (r: Vec<String>)
        ensures
            strings_view(r@) == names_of(self@),
    {
        let mut r: Vec<String> = Vec::new();
        let mut i: usize = 0;
        while i < self.groups.len()
            invariant
                i <= self.groups.len(),
                r.len() == i,
                forall|j: int| 0 <= j < i ==> #[trigger] r@[j]@ == self@[j].0,
            decreases self.groups.len() - i,
        {
            r.push(self.groups[i].name.clone());
            i += 1;
        }
        assert(strings_view(r@) =~= names_of(self@));
        r
    }

    /// Removes the instances with id `id` from `name`'s list, which stays
    /// (possibly empty); nothing changes where there is none. Returns the
    /// resulting list, empty where the name is unknown.
    pub fn deregister(&mut self, name: &String, id: &String) -> (list: Vec<NewService>)
        requires
            old(self).wf(),
        ensures
            final(self).wf(),
            final(self)@ == deregister_spec(old(self)@, name@, id@),
            services_view(list@) == lookup_or_empty(final(self)@, name@),
    {
        let ghost old_view = self@;
        match self.find(name) {
            Some(i) => {
                proof {
                    lemma_name_index(old_view, i as int);
                }
                let kept = filter_out_id(&self.groups[i].services, id);
                self.groups[i].services = kept;
                assert(self@ =~= deregister_spec(old_view, name@, id@));
                proof {
                    lemma_name_index(self@, i as int);
                }
                clone_services(&self.groups[i].services)
            },
            None => {
                let list: Vec<NewService> = Vec::new();
                assert(services_view(list@) =~= Seq::<ServiceView>::empty());
                list
            },
        }
    }

    /// `Some(id)` where some instance under any name has id `id`, else `None`.
    pub fn check(&self, id: &String) -> (r: Option<String>)
        ensures
            r is Some <==> holds_id(self@, id@),
            r matches Some(s) ==> s@ == id@,
    {
        let mut i: usize = 0;
        while i < self.groups.len()
            invariant
                i <= self.groups.len(),
                forall|a: int, b: int|
                    0 <= a < i && 0 <= b < self@[a].1.len() ==> #[trigger] self@[a].1[b].id != id@,
            decreases self.groups.len() - i,
        {
            if list_has_id(&self.groups[i].services, id) {
                let ghost j = choose|j: int|
                    0 <= j < self.groups@[i as int].services@.len()
                        && #[trigger] self.groups@[i as int].services@[j].id@ == id@;
                assert(self@[i as int].1[j].id == id@);
                return Some(id.clone());
            }
            assert forall|b: int| 0 <= b < self@[i as int].1.len() implies #[trigger] self@[i as int].1[b].id
                != id@ by {
                assert(self.groups@[i as int].services@[b].id@ != id@);
            }
            i += 1;
        }
        None
    }

    /// Removes, from every list, each instance whose id is among `ids`; the
    /// names stay.
    pub fn evict(&mut self, ids: &Vec<String>)
        requires
            old(self).wf(),
        ensures
            final(self).wf(),
            final(self)@ == evict_spec(old(self)@, strings_view(ids@).to_set()),
    {
        let ghost old_view = self@;
        let ghost set = strings_view(ids@).to_set();
        let mut i: usize = 0;
        while i < self.groups.len()
            invariant
                i <= self.groups.len(),
                self@.len() == old_view.len(),
                set == strings_view(ids@).to_set(),
                forall|j: int| 0 <= j < i ==> #[trigger] self@[j] == (old_view[j].0, without_ids(old_view[j].1, set)),
                forall|j: int| i <= j < self@.len() ==> #[trigger] self@[j] == old_view[j],
            decreases self.groups.len() - i,
        {
            let ghost prev = self@;
            let ghost prev_groups = self.groups@;
            let kept = filter_out_ids(&self.groups[i].services, ids);
            self.groups[i].services = kept;
            assert forall|j: int| 0 <= j < self@.len() && j != i implies #[trigger] self@[j] == prev[j] by {
                assert(self.groups@[j] == prev_groups[j]);
            }
            assert(prev[i as int] == old_view[i as int]);
            assert(self.groups@[i as int].name == prev_groups[i as int].name);
            assert(self@[i as int] == (old_view[i as int].0, without_ids(old_view[i as int].1, set)));
            i += 1;
        }
        assert(self@ =~= evict_spec(old_view, set));
        assert(distinct_names(self@)) by {
            assert forall|a: int, b: int|
                0 <= a < self@.len() && 0 <= b < self@.len() && a != b implies #[trigger] self@[a].0
                != #[trigger] self@[b].0 by {
                assert(self@[a].0 == old_view[a].0);
                assert(self@[b].0 == old_view[b].0);
            }
        }
    }
}

} // verus!
