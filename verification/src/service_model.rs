//! The list of services that the panel shows, kept in the order of their keys, and how
//! it follows the events of the admin service.
use vstd::prelude::*;
use crate::service::{
    key_lt, key_of, lemma_key_lt_order, service_spec, from_query_spec, updated_spec, KeyV,
    QueryResult, QueryV, Rank, ServiceData, ServiceType, ServiceV, VmType,
};
use crate::commands::ConnectionSettings;
use crate::status::{TrustLevel, VMStatus};
use crate::text::str_eq;
use crate::wireguard_vms::WireGuardVMs;

verus! {

/// A change of the list that its viewers are told of: at `position`, `removed` items
/// went and `added` items came.
#[derive(Debug, Clone, Copy, PartialEq, Eq, Structural)]
pub struct ListChange {
    pub position: usize,
    pub removed: usize,
    pub added: usize,
}

/// What the admin service reports about its units.
pub enum Event {
    UnitStatusChanged(QueryResult),
    UnitShutdown(QueryResult),
    UnitRegistered(QueryResult),
}

/// The views of a list of services.
pub open spec fn svc_views(s: Seq<ServiceData>) -> Seq<ServiceV> {
    s.map_values(|x: ServiceData| x@)
}

/// No service stands before one that comes earlier in the list.
pub open spec fn sorted_by_key(s: Seq<ServiceV>) -> bool {
    forall|i: int, j: int| 0 <= i < j < s.len() ==> !key_lt(key_of(s[j]), key_of(s[i]))
}

/// The number of leading services whose key comes before `k`.
pub open spec fn leading_before(s: Seq<ServiceV>, k: KeyV) -> int
    decreases s.len(),
{
    if s.len() > 0 && key_lt(key_of(s[0]), k) {
        1 + leading_before(s.drop_first(), k)
    } else {
        0
    }
}

/// The number of leading services whose key does not come after `k`.
pub open spec fn leading_not_after(s: Seq<ServiceV>, k: KeyV) -> int
    decreases s.len(),
{
    if s.len() > 0 && !key_lt(k, key_of(s[0])) {
        1 + leading_not_after(s.drop_first(), k)
    } else {
        0
    }
}

/// Some service of `s` has the key `k`.
pub open spec fn has_key(s: Seq<ServiceV>, k: KeyV) -> bool {
    exists|i: int| 0 <= i < s.len() && key_of(s[i]) == k
}

/// `x` put in its place among `s`, unless a service with its key is there already.
pub open spec fn insert_unique(s: Seq<ServiceV>, x: ServiceV) -> Seq<ServiceV> {
    if has_key(s, key_of(x)) {
        s
    } else {
        s.insert(leading_before(s, key_of(x)), x)
    }
}

/// The changes that putting `x` among `s` makes.
pub open spec fn insert_changes(s: Seq<ServiceV>, x: ServiceV) -> Seq<ListChange> {
    if has_key(s, key_of(x)) {
        Seq::empty()
    } else {
        seq![ListChange { position: leading_before(s, key_of(x)) as usize, removed: 0, added: 1 }]
    }
}

/// Each of `items` put in its place among `s` in turn.
pub open spec fn extend_spec(s: Seq<ServiceV>, items: Seq<ServiceV>) -> Seq<ServiceV>
    decreases items.len(),
{
    if items.len() == 0 {
        s
    } else {
        extend_spec(insert_unique(s, items[0]), items.drop_first())
    }
}

/// The changes that putting `items` among `s` makes, in order.
pub open spec fn extend_changes(s: Seq<ServiceV>, items: Seq<ServiceV>) -> Seq<ListChange>
    decreases items.len(),
{
    if items.len() == 0 {
        Seq::empty()
    } else {
        insert_changes(s, items[0]) + extend_changes(insert_unique(s, items[0]), items.drop_first())
    }
}

/// `x` put after every service whose key does not come after its own.
pub open spec fn insert_stable(s: Seq<ServiceV>, x: ServiceV) -> Seq<ServiceV> {
    s.insert(leading_not_after(s, key_of(x)), x)
}

/// `s` sorted by key, services with equal keys in the order they had.
pub open spec fn stable_sort(s: Seq<ServiceV>) -> Seq<ServiceV>
    decreases s.len(),
{
    if s.len() == 0 {
        s
    } else {
        insert_stable(stable_sort(s.drop_last()), s.last())
    }
}

/// The entry for the host that the list gets when it is first filled.
pub open spec fn host_spec(wireguard: Seq<Seq<char>>) -> ServiceV {
    service_spec(
        "ghaf-host"@,
        "Host operating system"@,
        VMStatus::Running,
        TrustLevel::Warning,
        ServiceType::VM,
        Some("ghaf-host"@),
        VmType::Host,
        wireguard,
    )
}

/// The list after `items` come in: an empty list takes them and the host entry, sorted; a
/// filled one takes each whose key it does not hold yet, in its place.
pub open spec fn fill_spec(
    s: Seq<ServiceV>,
    items: Seq<ServiceV>,
    wireguard: Seq<Seq<char>>,
) -> Seq<ServiceV> {
    if s.len() == 0 {
        stable_sort(items.push(host_spec(wireguard)))
    } else {
        extend_spec(s, items)
    }
}

/// The changes that `fill_spec` makes.
pub open spec fn fill_changes(
    s: Seq<ServiceV>,
    items: Seq<ServiceV>,
    wireguard: Seq<Seq<char>>,
) -> Seq<ListChange> {
    if s.len() == 0 {
        seq![ListChange { position: 0, removed: 0, added: (items.len() + 1) as usize }]
    } else {
        extend_changes(s, items)
    }
}

/// The index of the first service named `name`.
pub open spec fn find_name(s: Seq<ServiceV>, name: Seq<char>) -> Option<int>
    decreases s.len(),
{
    if s.len() == 0 {
        None
    } else if s[0].name == name {
        Some(0)
    } else {
        match find_name(s.drop_first(), name) {
            Some(i) => Some(i + 1),
            None => None,
        }
    }
}

/// The list after an event, and the changes its viewers are told of.
pub open spec fn event_spec(
    s: Seq<ServiceV>,
    e: EventV,
    wireguard: Seq<Seq<char>>,
) -> (Seq<ServiceV>, Seq<ListChange>) {
    match e {
        EventV::UnitStatusChanged(q) => match find_name(s, q.name) {
            Some(i) => (s.update(i, updated_spec(s[i], q)), Seq::empty()),
            None => (s, Seq::empty()),
        },
        EventV::UnitShutdown(q) => match find_name(s, q.name) {
            Some(i) => if s[i].is_vm {
                (s.update(i, updated_spec(s[i], q)), Seq::empty())
            } else {
                (s.remove(i), seq![ListChange { position: i as usize, removed: 1, added: 0 }])
            },
            None => (s, Seq::empty()),
        },
        EventV::UnitRegistered(q) => (
            fill_spec(s, seq![from_query_spec(q, wireguard)], wireguard),
            fill_changes(s, seq![from_query_spec(q, wireguard)], wireguard),
        ),
    }
}

/// An event as a mathematical value.
pub enum EventV {
    UnitStatusChanged(QueryV),
    UnitShutdown(QueryV),
    UnitRegistered(QueryV),
}

impl View for Event {
    type V = EventV;

    open spec fn view(&self) -> EventV {
        match self {
            Event::UnitStatusChanged(q) => EventV::UnitStatusChanged(q@),
            Event::UnitShutdown(q) => EventV::UnitShutdown(q@),
            Event::UnitRegistered(q) => EventV::UnitRegistered(q@),
        }
    }
}

pub proof fn lemma_leading_before(s: Seq<ServiceV>, k: KeyV)
    ensures
        0 <= leading_before(s, k) <= s.len(),
        forall|j: int| 0 <= j < leading_before(s, k) ==> key_lt(key_of(s[j]), k),
        leading_before(s, k) < s.len() ==> !key_lt(key_of(s[leading_before(s, k)]), k),
    decreases s.len(),
{
    if s.len() > 0 && key_lt(key_of(s[0]), k) {
        let t = s.drop_first();
        lemma_leading_before(t, k);
        assert forall|j: int| 0 <= j < leading_before(s, k) implies key_lt(key_of(s[j]), k) by {
            if j > 0 {
                assert(s[j] == t[j - 1]);
            }
        }
        if leading_before(s, k) < s.len() {
            assert(s[leading_before(s, k)] == t[leading_before(t, k)]);
        }
    }
}

pub proof fn lemma_leading_not_after(s: Seq<ServiceV>, k: KeyV)
    ensures
        0 <= leading_not_after(s, k) <= s.len(),
        forall|j: int| 0 <= j < leading_not_after(s, k) ==> !key_lt(k, key_of(s[j])),
        leading_not_after(s, k) < s.len() ==> key_lt(k, key_of(s[leading_not_after(s, k)])),
    decreases s.len(),
{
    if s.len() > 0 && !key_lt(k, key_of(s[0])) {
        let t = s.drop_first();
        lemma_leading_not_after(t, k);
        assert forall|j: int| 0 <= j < leading_not_after(s, k) implies !key_lt(k, key_of(s[j])) by {
            if j > 0 {
                assert(s[j] == t[j - 1]);
            }
        }
        if leading_not_after(s, k) < s.len() {
            assert(s[leading_not_after(s, k)] == t[leading_not_after(t, k)]);
        }
    }
}

pub proof fn lemma_find_name(s: Seq<ServiceV>, name: Seq<char>)
    ensures
        match find_name(s, name) {
            Some(i) => 0 <= i < s.len() && s[i].name == name && forall|j: int|
                0 <= j < i ==> s[j].name != name,
            None => forall|j: int| 0 <= j < s.len() ==> s[j].name != name,
        },
    decreases s.len(),
{
    if s.len() > 0 && s[0].name != name {
        let t = s.drop_first();
        lemma_find_name(t, name);
        match find_name(t, name) {
            Some(i) => {
                assert forall|j: int| 0 <= j < i + 1 implies s[j].name != name by {
                    if j > 0 {
                        assert(s[j] == t[j - 1]);
                    }
                }
            },
            None => {
                assert forall|j: int| 0 <= j < s.len() implies s[j].name != name by {
                    if j > 0 {
                        assert(s[j] == t[j - 1]);
                    }
                }
            },
        }
    }
}

/// In a sorted list, a key is held exactly when the first service not before it has it,
/// and no service from there on comes before the key.
pub proof fn lemma_sorted_lower_bound(s: Seq<ServiceV>, k: KeyV)
    requires
        sorted_by_key(s),
    ensures
        forall|j: int| leading_before(s, k) <= j < s.len() ==> !key_lt(key_of(s[j]), k),
        has_key(s, k) <==> (leading_before(s, k) < s.len() && key_of(s[leading_before(s, k)])
            == k),
{
    lemma_leading_before(s, k);
    let lb = leading_before(s, k);
    assert forall|j: int| lb <= j < s.len() implies !key_lt(key_of(s[j]), k) by {
        lemma_key_lt_order(key_of(s[lb]), key_of(s[j]), k);
        lemma_key_lt_order(key_of(s[j]), k, k);
        if j > lb {
            lemma_key_lt_order(key_of(s[lb]), key_of(s[j]), key_of(s[j]));
        }
    }
    if has_key(s, k) {
        let i = choose|i: int| 0 <= i < s.len() && key_of(s[i]) == k;
        if i < lb {
            lemma_key_lt_order(k, k, k);
        }
        if i > lb {
            lemma_key_lt_order(key_of(s[lb]), k, k);
        }
    }
}

/// Putting `x` where every service before it does not come after it, and every service
/// after it does not come before it, keeps a list sorted.
pub proof fn lemma_insert_sorted(s: Seq<ServiceV>, x: ServiceV, p: int)
    requires
        sorted_by_key(s),
        0 <= p <= s.len(),
        forall|j: int| 0 <= j < p ==> !key_lt(key_of(x), key_of(s[j])),
        forall|j: int| p <= j < s.len() ==> !key_lt(key_of(s[j]), key_of(x)),
    ensures
        sorted_by_key(s.insert(p, x)),
{
    let t = s.insert(p, x);
    assert forall|i: int, j: int| 0 <= i < j < t.len() implies !key_lt(key_of(t[j]), key_of(t[i])) by {
        if i < p && j < p {
            assert(t[i] == s[i] && t[j] == s[j]);
        } else if i < p && j == p {
            assert(t[i] == s[i] && t[j] == x);
        } else if i < p && j > p {
            assert(t[i] == s[i] && t[j] == s[j - 1]);
            lemma_key_lt_order(key_of(s[j - 1]), key_of(x), key_of(s[i]));
            lemma_key_lt_order(key_of(s[j - 1]), key_of(s[i]), key_of(x));
            lemma_key_lt_order(key_of(x), key_of(s[j - 1]), key_of(s[i]));
        } else if i == p {
            assert(t[i] == x && t[j] == s[j - 1]);
        } else {
            assert(t[i] == s[i - 1] && t[j] == s[j - 1]);
        }
    }
}

pub proof fn lemma_insert_unique_sorted(s: Seq<ServiceV>, x: ServiceV)
    requires
        sorted_by_key(s),
    ensures
        sorted_by_key(insert_unique(s, x)),
        has_key(insert_unique(s, x), key_of(x)),
{
    let k = key_of(x);
    lemma_sorted_lower_bound(s, k);
    lemma_leading_before(s, k);
    if !has_key(s, k) {
        let p = leading_before(s, k);
        assert forall|j: int| 0 <= j < p implies !key_lt(k, key_of(s[j])) by {
            lemma_key_lt_order(key_of(s[j]), k, k);
        }
        lemma_insert_sorted(s, x, p);
        assert(s.insert(p, x)[p] == x);
    }
}

pub proof fn lemma_extend_sorted(s: Seq<ServiceV>, items: Seq<ServiceV>)
    requires
        sorted_by_key(s),
    ensures
        sorted_by_key(extend_spec(s, items)),
    decreases items.len(),
{
    if items.len() > 0 {
        lemma_insert_unique_sorted(s, items[0]);
        lemma_extend_sorted(insert_unique(s, items[0]), items.drop_first());
    }
}

pub proof fn lemma_stable_sort_sorted(s: Seq<ServiceV>)
    ensures
        sorted_by_key(stable_sort(s)),
        stable_sort(s).len() == s.len(),
    decreases s.len(),
{
    if s.len() > 0 {
        let t = stable_sort(s.drop_last());
        lemma_stable_sort_sorted(s.drop_last());
        let k = key_of(s.last());
        lemma_leading_not_after(t, k);
        let p = leading_not_after(t, k);
        assert forall|j: int| p <= j < t.len() implies !key_lt(key_of(t[j]), k) by {
            lemma_key_lt_order(k, key_of(t[p]), key_of(t[j]));
            lemma_key_lt_order(key_of(t[j]), k, key_of(t[p]));
            if j > p {
                lemma_key_lt_order(key_of(t[p]), key_of(t[j]), k);
            }
        }
        lemma_insert_sorted(t, s.last(), p);
    }
}

/// The services of the panel, in the order of their keys.
pub struct ServiceModel {
    services: Vec<ServiceData>,
}

impl View for ServiceModel {
    type V = Seq<ServiceV>;

    closed spec fn view(&self) -> Seq<ServiceV> {
        svc_views(self.services@)
    }
}

/// The index of the first service of `s` whose key is not before that of `x`.
fn lower_position(s: &Vec<ServiceData>, x: &ServiceData) -> (r: usize)
    ensures
        r == leading_before(svc_views(s@), key_of(x@)),
        r <= s@.len(),
{
    let ghost v = svc_views(s@);
    proof {
        lemma_leading_before(v, key_of(x@));
    }
    let mut i: usize = 0;
    while i < s.len() && s[i].key_rank(x) == Rank::Before
        invariant
            i <= s.len(),
            v == svc_views(s@),
            0 <= leading_before(v, key_of(x@)) <= v.len(),
            forall|j: int| 0 <= j < leading_before(v, key_of(x@)) ==> key_lt(key_of(v[j]), key_of(x@)),
            leading_before(v, key_of(x@)) < v.len() ==> !key_lt(key_of(v[leading_before(v, key_of(x@))]), key_of(x@)),
            forall|j: int| 0 <= j < i ==> key_lt(key_of(v[j]), key_of(x@)),
        decreases s.len() - i,
    {
        assert(v[i as int] == s@[i as int]@);
        i = i + 1;
    }
    if i < s.len() {
        assert(v[i as int] == s@[i as int]@);
    }
    i
}

/// The index after the last leading service of `s` whose key does not come after that of `x`.
fn upper_position(s: &Vec<ServiceData>, x: &ServiceData) -> (r: usize)
    ensures
        r == leading_not_after(svc_views(s@), key_of(x@)),
        r <= s@.len(),
{
    let ghost v = svc_views(s@);
    proof {
        lemma_leading_not_after(v, key_of(x@));
    }
    let mut i: usize = 0;
    while i < s.len() && s[i].key_rank(x) != Rank::After
        invariant
            i <= s.len(),
            v == svc_views(s@),
            0 <= leading_not_after(v, key_of(x@)) <= v.len(),
            forall|j: int| 0 <= j < leading_not_after(v, key_of(x@)) ==> !key_lt(key_of(x@), key_of(v[j])),
            leading_not_after(v, key_of(x@)) < v.len() ==> key_lt(key_of(x@), key_of(v[leading_not_after(v, key_of(x@))])),
            forall|j: int| 0 <= j < i ==> !key_lt(key_of(x@), key_of(v[j])),
        decreases s.len() - i,
    {
        assert(v[i as int] == s@[i as int]@);
        i = i + 1;
    }
    if i < s.len() {
        assert(v[i as int] == s@[i as int]@);
    }
    i
}

impl ServiceModel {
    /// An empty list.
    pub fn new() -> (r: Self)
        ensures
            r@ == Seq::<ServiceV>::empty(),
    {
        ServiceModel { services: Vec::new() }
    }

    /// The list is sorted by key.
    pub open spec fn well_formed(&self) -> bool {
        sorted_by_key(self@)
    }

    /// The number of services.
    pub fn n_items(&self) -> (r: usize)
        ensures
            r == self@.len(),
    {
        self.services.len()
    }

    /// The service at `idx`, if there is one.
    pub fn item(&self, idx: usize) -> (r: Option<&ServiceData>)
        ensures
            idx < self@.len() ==> (r matches Some(x) && x@ == self@[idx as int]),
            idx >= self@.len() ==> r is None,
    {
        if idx < self.services.len() {
            Some(&self.services[idx])
        } else {
            None
        }
    }

    /// The index of the first service named `name`.
    pub fn find(&self, name: &str) -> (r: Option<usize>)
        ensures
            r matches Some(i) ==> find_name(self@, name@) == Some(i as int),
            r is None ==> find_name(self@, name@) is None,
    {
        proof {
            lemma_find_name(self@, name@);
        }
        let mut i: usize = 0;
        while i < self.services.len()
            invariant
                i <= self.services.len(),
                self@ == svc_views(self.services@),
                forall|j: int| 0 <= j < i ==> self@[j].name != name@,
                match find_name(self@, name@) {
                    Some(k) => 0 <= k < self@.len() && self@[k].name == name@ && forall|j: int|
                        0 <= j < k ==> self@[j].name != name@,
                    None => forall|j: int| 0 <= j < self@.len() ==> self@[j].name != name@,
                },
            decreases self.services.len() - i,
        {
            if str_eq(self.services[i].name.as_str(), name) {
                assert(self@[i as int].name == name@);
                return Some(i);
            }
            i = i + 1;
        }
        None
    }

    /// The host entry that an empty list gets when it is first filled.
    fn host_entry(wireguard: &WireGuardVMs) -> (r: ServiceData)
        ensures
            r@ == host_spec(wireguard@),
    {
        ServiceData::new(
            "ghaf-host",
            "Host operating system",
            VMStatus::Running,
            TrustLevel::Warning,
            ServiceType::VM,
            Some("ghaf-host"),
            VmType::Host,
            wireguard,
        )
    }

    /// Takes in `items`: an empty list takes them all and the host entry, sorted stably
    /// by key; a filled one takes each whose key it lacks, in its place, and skips the rest.
    /// Returns the changes its viewers are to be told of.
    pub fn extend(&mut self, items: Vec<ServiceData>, wireguard: &WireGuardVMs) -> (r: Vec<
        ListChange,
    >)
        requires
            old(self).well_formed(),
        ensures
            final(self).well_formed(),
            final(self)@ == fill_spec(old(self)@, svc_views(items@), wireguard@),
            r@ == fill_changes(old(self)@, svc_views(items@), wireguard@),
    {
        let ghost iv = svc_views(items@);
        let mut changes: Vec<ListChange> = Vec::new();
        if self.services.len() == 0 {
            let mut all = items;
            all.push(ServiceModel::host_entry(wireguard));
            let ghost av = svc_views(all@);
            assert(av =~= iv.push(host_spec(wireguard@)));
            let mut sorted: Vec<ServiceData> = Vec::new();
            let mut k: usize = 0;
            while k < all.len()
                invariant
                    k <= all.len(),
                    av == svc_views(all@),
                    svc_views(sorted@) == stable_sort(av.take(k as int)),
                decreases all.len() - k,
            {
                let x = all[k].duplicate();
                let p = upper_position(&sorted, &x);
                let ghost before = svc_views(sorted@);
                sorted.insert(p, x);
                proof {
                    assert(av.take(k + 1).drop_last() =~= av.take(k as int));
                    assert(av.take(k + 1).last() == av[k as int]);
                    assert(svc_views(sorted@) =~= before.insert(p as int, av[k as int]));
                }
                k = k + 1;
            }
            proof {
                assert(av.take(all.len() as int) =~= av);
                lemma_stable_sort_sorted(av);
            }
            let n = sorted.len();
            self.services = sorted;
            changes.push(ListChange { position: 0, removed: 0, added: n });
            proof {
                assert(changes@ =~= fill_changes(Seq::empty(), iv, wireguard@));
            }
        } else {
            let ghost s0 = self@;
            let mut k: usize = 0;
            proof {
                assert(iv.skip(0) =~= iv);
                assert(changes@ + extend_changes(s0, iv) =~= extend_changes(s0, iv));
            }
            while k < items.len()
                invariant
                    k <= items.len(),
                    iv == svc_views(items@),
                    sorted_by_key(self@),
                    extend_spec(s0, iv) == extend_spec(self@, iv.skip(k as int)),
                    extend_changes(s0, iv) == changes@ + extend_changes(self@, iv.skip(k as int)),
                decreases items.len() - k,
            {
                let x = items[k].duplicate();
                let ghost cur = self@;
                let ghost rest = iv.skip(k as int);
                proof {
                    assert(rest[0] == x@);
                    assert(rest.drop_first() =~= iv.skip(k + 1));
                    lemma_sorted_lower_bound(cur, key_of(x@));
                    lemma_leading_before(cur, key_of(x@));
                    lemma_insert_unique_sorted(cur, x@);
                }
                let p = lower_position(&self.services, &x);
                let present = p < self.services.len() && self.services[p].key_rank(&x) == Rank::Same;
                if present {
                    proof {
                        assert(cur[p as int] == self.services@[p as int]@);
                        assert(insert_changes(cur, x@) =~= Seq::empty());
                        assert(changes@ + Seq::<ListChange>::empty() =~= changes@);
                    }
                } else {
                    proof {
                        if p < cur.len() {
                            assert(cur[p as int] == self.services@[p as int]@);
                        }
                    }
                    let ghost before_changes = changes@;
                    self.services.insert(p, x);
                    changes.push(ListChange { position: p, removed: 0, added: 1 });
                    proof {
                        assert(self@ =~= cur.insert(p as int, x@));
                        assert(changes@ =~= before_changes + insert_changes(cur, x@));
                    }
                }
                proof {
                    assert(self@ == insert_unique(cur, x@));
                    assert(changes@ + extend_changes(self@, iv.skip(k + 1)) =~= changes@ + extend_changes(insert_unique(cur, x@), rest.drop_first()));
                }
                k = k + 1;
            }
            proof {
                assert(iv.skip(items.len() as int) =~= Seq::<ServiceV>::empty());
                assert(changes@ + Seq::<ListChange>::empty() =~= changes@);
            }
        }
        changes
    }
}


/// A report on a unit changes no key, so an update keeps a list sorted.
proof fn lemma_update_sorted(s: Seq<ServiceV>, i: int, q: QueryV)
    requires
        sorted_by_key(s),
        0 <= i < s.len(),
    ensures
        sorted_by_key(s.update(i, updated_spec(s[i], q))),
        key_of(updated_spec(s[i], q)) == key_of(s[i]),
{
    let t = s.update(i, updated_spec(s[i], q));
    assert forall|a: int, b: int| 0 <= a < b < t.len() implies !key_lt(key_of(t[b]), key_of(t[a])) by {
        assert(key_of(t[a]) == key_of(s[a]));
        assert(key_of(t[b]) == key_of(s[b]));
    }
}

/// Taking a service out keeps a list sorted.
proof fn lemma_remove_sorted(s: Seq<ServiceV>, i: int)
    requires
        sorted_by_key(s),
        0 <= i < s.len(),
    ensures
        sorted_by_key(s.remove(i)),
{
    let t = s.remove(i);
    assert forall|a: int, b: int| 0 <= a < b < t.len() implies !key_lt(key_of(t[b]), key_of(t[a])) by {
        let a0 = if a < i { a } else { a + 1 };
        let b0 = if b < i { b } else { b + 1 };
        assert(t[a] == s[a0] && t[b] == s[b0]);
    }
}

/// Law: every event of the admin service leaves the list sorted by key.
pub proof fn law_event_keeps_order(s: Seq<ServiceV>, e: EventV, wireguard: Seq<Seq<char>>)
    requires
        sorted_by_key(s),
    ensures
        sorted_by_key(event_spec(s, e, wireguard).0),
{
    match e {
        EventV::UnitStatusChanged(q) => {
            lemma_find_name(s, q.name);
            if let Some(i) = find_name(s, q.name) {
                lemma_update_sorted(s, i, q);
            }
        },
        EventV::UnitShutdown(q) => {
            lemma_find_name(s, q.name);
            if let Some(i) = find_name(s, q.name) {
                lemma_update_sorted(s, i, q);
                lemma_remove_sorted(s, i);
            }
        },
        EventV::UnitRegistered(q) => {
            let items = seq![from_query_spec(q, wireguard)];
            if s.len() == 0 {
                lemma_stable_sort_sorted(items.push(host_spec(wireguard)));
            } else {
                lemma_extend_sorted(s, items);
            }
        },
    }
}

/// Law: once a unit is registered with a filled list, the list holds a service with its
/// key; if it held one already, the list and its viewers are left as they were.
pub proof fn law_register_holds_unit(s: Seq<ServiceV>, q: QueryV, wireguard: Seq<Seq<char>>)
    requires
        sorted_by_key(s),
        s.len() > 0,
    ensures
        has_key(event_spec(s, EventV::UnitRegistered(q), wireguard).0, key_of(from_query_spec(q, wireguard))),
        has_key(s, key_of(from_query_spec(q, wireguard))) ==> event_spec(s, EventV::UnitRegistered(q), wireguard)
            == (s, Seq::<ListChange>::empty()),
{
    let x = from_query_spec(q, wireguard);
    let items = seq![x];
    lemma_insert_unique_sorted(s, x);
    assert(items.drop_first() =~= Seq::<ServiceV>::empty());
    assert(extend_spec(s, items) == extend_spec(insert_unique(s, x), Seq::<ServiceV>::empty()));
    assert(extend_changes(s, items) == insert_changes(s, x) + extend_changes(insert_unique(s, x), Seq::<ServiceV>::empty()));
    if has_key(s, key_of(x)) {
        assert(insert_changes(s, x) + Seq::<ListChange>::empty() =~= Seq::<ListChange>::empty());
    }
}

/// Law: a status report changes the description and state of the first service with the
/// unit's name, and nothing else; the list keeps its length, names and keys.
pub proof fn law_status_change_keeps_services(s: Seq<ServiceV>, q: QueryV, wireguard: Seq<Seq<char>>)
    ensures
        ({
            let t = event_spec(s, EventV::UnitStatusChanged(q), wireguard).0;
            &&& t.len() == s.len()
            &&& forall|j: int| 0 <= j < s.len() ==> t[j].name == s[j].name && key_of(t[j]) == key_of(s[j])
            &&& forall|j: int| 0 <= j < s.len() && t[j] != s[j] ==> t[j] == updated_spec(s[j], q) && s[j].name == q.name
        }),
{
    lemma_find_name(s, q.name);
}

/// Law: when a unit that is no VM shuts down, its service leaves the list and its viewers
/// are told so; a VM that shuts down stays, with its new state.
pub proof fn law_shutdown(s: Seq<ServiceV>, q: QueryV, wireguard: Seq<Seq<char>>)
    requires
        find_name(s, q.name) is Some,
    ensures
        ({
            let i = find_name(s, q.name)->0;
            let (t, changes) = event_spec(s, EventV::UnitShutdown(q), wireguard);
            &&& s[i].is_vm ==> t.len() == s.len() && t[i] == updated_spec(s[i], q) && changes.len() == 0
            &&& !s[i].is_vm ==> t.len() == s.len() - 1 && t == s.remove(i) && changes == seq![ListChange { position: i as usize, removed: 1, added: 0 }]
        }),
{
    lemma_find_name(s, q.name);
}

/// Law: filling an empty list gives every reported unit and the host entry, in the order of
/// their keys.
pub proof fn law_first_fill(items: Seq<ServiceV>, wireguard: Seq<Seq<char>>)
    ensures
        sorted_by_key(fill_spec(Seq::empty(), items, wireguard)),
        fill_spec(Seq::empty(), items, wireguard).len() == items.len() + 1,
{
    lemma_stable_sort_sorted(items.push(host_spec(wireguard)));
}

/// No two services share a key, and keys rise along the list.
pub open spec fn strictly_sorted(s: Seq<ServiceV>) -> bool {
    forall|i: int, j: int| 0 <= i < j < s.len() ==> key_lt(key_of(s[i]), key_of(s[j]))
}

proof fn lemma_strict_is_sorted(s: Seq<ServiceV>)
    requires
        strictly_sorted(s),
    ensures
        sorted_by_key(s),
{
    assert forall|i: int, j: int| 0 <= i < j < s.len() implies !key_lt(key_of(s[j]), key_of(s[i])) by {
        lemma_key_lt_order(key_of(s[i]), key_of(s[j]), key_of(s[i]));
    }
}

proof fn lemma_insert_unique_strict(s: Seq<ServiceV>, x: ServiceV)
    requires
        strictly_sorted(s),
    ensures
        strictly_sorted(insert_unique(s, x)),
        forall|k: KeyV| has_key(insert_unique(s, x), k) <==> (has_key(s, k) || k == key_of(x)),
        forall|i: int| 0 <= i < s.len() ==> insert_unique(s, x).contains(#[trigger] s[i]),
        forall|i: int|
            0 <= i < insert_unique(s, x).len() ==> s.contains(#[trigger] insert_unique(s, x)[i])
                || insert_unique(s, x)[i] == x,
{
    let k = key_of(x);
    lemma_strict_is_sorted(s);
    lemma_sorted_lower_bound(s, k);
    lemma_leading_before(s, k);
    if has_key(s, k) {
        assert forall|i: int| 0 <= i < s.len() implies s.contains(#[trigger] s[i]) by {}
    } else {
        let p = leading_before(s, k);
        let t = s.insert(p, x);
        assert forall|j: int| p <= j < s.len() implies key_lt(k, key_of(#[trigger] s[j])) by {
            lemma_key_lt_order(key_of(s[j]), k, k);
            if key_of(s[j]) == k {
                assert(has_key(s, k));
            }
        }
        assert forall|i: int, j: int| 0 <= i < j < t.len() implies key_lt(key_of(t[i]), key_of(t[j])) by {
            if j < p {
                assert(t[i] == s[i] && t[j] == s[j]);
            } else if j == p {
                assert(t[i] == s[i] && t[j] == x);
            } else if i < p {
                assert(t[i] == s[i] && t[j] == s[j - 1]);
            } else if i == p {
                assert(t[i] == x && t[j] == s[j - 1]);
            } else {
                assert(t[i] == s[i - 1] && t[j] == s[j - 1]);
            }
        }
        assert forall|kk: KeyV| has_key(t, kk) <==> (has_key(s, kk) || kk == k) by {
            if has_key(t, kk) {
                let j = choose|j: int| 0 <= j < t.len() && key_of(t[j]) == kk;
                if j < p {
                    assert(t[j] == s[j]);
                } else if j > p {
                    assert(t[j] == s[j - 1]);
                }
            }
            if has_key(s, kk) {
                let j = choose|j: int| 0 <= j < s.len() && key_of(s[j]) == kk;
                if j < p {
                    assert(t[j] == s[j]);
                } else {
                    assert(t[j + 1] == s[j]);
                }
            }
            if kk == k {
                assert(t[p] == x);
            }
        }
        assert forall|i: int| 0 <= i < s.len() implies t.contains(#[trigger] s[i]) by {
            if i < p {
                assert(t[i] == s[i]);
            } else {
                assert(t[i + 1] == s[i]);
            }
        }
        assert forall|i: int| 0 <= i < t.len() implies s.contains(#[trigger] t[i]) || t[i] == x by {
            if i < p {
                assert(t[i] == s[i]);
            } else if i > p {
                assert(t[i] == s[i - 1]);
            }
        }
    }
}

/// Law: taking in units keeps a strictly sorted list strictly sorted; every service stays;
/// every service is an old one or one of the units; and a key is held afterwards exactly
/// when it was held before or is the key of a unit, so each new key gets exactly one
/// service and units with a key already held are dropped; the viewers are told of one
/// insertion per service added.
pub proof fn law_extend_strict(s: Seq<ServiceV>, items: Seq<ServiceV>)
    requires
        strictly_sorted(s),
    ensures
        strictly_sorted(extend_spec(s, items)),
        forall|i: int| 0 <= i < s.len() ==> extend_spec(s, items).contains(#[trigger] s[i]),
        forall|i: int|
            0 <= i < extend_spec(s, items).len() ==> s.contains(#[trigger] extend_spec(s, items)[i])
                || items.contains(extend_spec(s, items)[i]),
        forall|k: KeyV|
            has_key(extend_spec(s, items), k) <==> (has_key(s, k) || exists|j: int|
                0 <= j < items.len() && #[trigger] key_of(items[j]) == k),
        extend_changes(s, items).len() == extend_spec(s, items).len() - s.len(),
        forall|i: int|
            0 <= i < extend_changes(s, items).len() ==> (#[trigger] extend_changes(s, items)[i]).removed == 0
                && extend_changes(s, items)[i].added == 1,
    decreases items.len(),
{
    if items.len() == 0 {
        assert forall|i: int| 0 <= i < s.len() implies s.contains(#[trigger] s[i]) by {}
    } else {
        lemma_leading_before(s, key_of(items[0]));
        let x = items[0];
        let rest = items.drop_first();
        let t = insert_unique(s, x);
        lemma_insert_unique_strict(s, x);
        law_extend_strict(t, rest);
        let r = extend_spec(s, items);
        assert(r == extend_spec(t, rest));
        assert forall|i: int| 0 <= i < s.len() implies r.contains(#[trigger] s[i]) by {
            let j = choose|j: int| 0 <= j < t.len() && t[j] == s[i];
            assert(r.contains(t[j]));
        }
        assert forall|i: int| 0 <= i < r.len() implies s.contains(#[trigger] r[i]) || items.contains(r[i]) by {
            if t.contains(r[i]) {
                let j = choose|j: int| 0 <= j < t.len() && t[j] == r[i];
                assert(s.contains(t[j]) || t[j] == x);
                if t[j] == x {
                    assert(items[0] == r[i]);
                }
            } else {
                let j = choose|j: int| 0 <= j < rest.len() && rest[j] == r[i];
                assert(items[j + 1] == r[i]);
            }
        }
        assert forall|k: KeyV| has_key(r, k) <==> (has_key(s, k) || exists|j: int|
            0 <= j < items.len() && #[trigger] key_of(items[j]) == k) by {
            assert(has_key(extend_spec(t, rest), k) <==> (has_key(t, k) || exists|j: int|
                0 <= j < rest.len() && #[trigger] key_of(rest[j]) == k));
            assert(has_key(t, k) <==> (has_key(s, k) || k == key_of(x)));
            if k == key_of(x) {
                assert(key_of(items[0]) == k);
            }
            if exists|j: int| 0 <= j < rest.len() && #[trigger] key_of(rest[j]) == k {
                let j = choose|j: int| 0 <= j < rest.len() && #[trigger] key_of(rest[j]) == k;
                assert(key_of(items[j + 1]) == k);
            }
            if exists|j: int| 0 <= j < items.len() && #[trigger] key_of(items[j]) == k {
                let j = choose|j: int| 0 <= j < items.len() && #[trigger] key_of(items[j]) == k;
                if j > 0 {
                    assert(key_of(rest[j - 1]) == k);
                }
            }
        }
        let ic = insert_changes(s, x);
        let cs = extend_changes(s, items);
        assert(cs == ic + extend_changes(t, rest));
        assert forall|i: int| 0 <= i < cs.len() implies (#[trigger] cs[i]).removed == 0 && cs[i].added == 1 by {
            if i >= ic.len() {
                assert(cs[i] == extend_changes(t, rest)[i - ic.len()]);
            }
        }
    }
}

impl ServiceModel {
    /// Follows an event of the admin service: a status report updates the first service of
    /// that name; a shutdown updates a VM and takes anything else out; a registration
    /// takes the unit in as [`ServiceModel::extend`] does. Returns the changes its viewers
    /// are to be told of.
    pub fn apply_event(&mut self, event: Event, wireguard: &WireGuardVMs) -> (r: Vec<ListChange>)
        requires
            old(self).well_formed(),
        ensures
            final(self).well_formed(),
            (final(self)@, r@) == event_spec(old(self)@, event@, wireguard@),
    {
        let ghost s0 = self@;
        proof {
            law_event_keeps_order(s0, event@, wireguard@);
        }
        match event {
            Event::UnitStatusChanged(q) => {
                proof {
                    lemma_find_name(s0, q@.name);
                }
                match self.find(q.name.as_str()) {
                    Some(i) => {
                        let mut x = self.services.remove(i);
                        x.update(&q);
                        self.services.insert(i, x);
                        proof {
                            assert(self@ =~= s0.update(i as int, updated_spec(s0[i as int], q@)));
                        }
                    },
                    None => {},
                }
                Vec::new()
            },
            Event::UnitShutdown(q) => {
                proof {
                    lemma_find_name(s0, q@.name);
                }
                match self.find(q.name.as_str()) {
                    Some(i) => {
                        if self.services[i].is_vm {
                            let mut x = self.services.remove(i);
                            x.update(&q);
                            self.services.insert(i, x);
                            proof {
                                assert(self@ =~= s0.update(i as int, updated_spec(s0[i as int], q@)));
                            }
                            Vec::new()
                        } else {
                            self.services.remove(i);
                            proof {
                                assert(self@ =~= s0.remove(i as int));
                            }
                            let mut changes = Vec::new();
                            changes.push(ListChange { position: i, removed: 1, added: 0 });
                            proof {
                                assert(changes@ =~= seq![ListChange { position: i, removed: 1, added: 0 }]);
                            }
                            changes
                        }
                    },
                    None => Vec::new(),
                }
            },
            Event::UnitRegistered(q) => {
                let x = ServiceData::from_query(&q, wireguard);
                let mut items = Vec::new();
                items.push(x);
                proof {
                    assert(svc_views(items@) =~= seq![from_query_spec(q@, wireguard@)]);
                }
                self.extend(items, wireguard)
            },
        }
    }

    /// Starts over from the units the admin service reported on connecting: the list is
    /// emptied (its viewers told so when it held anything) and filled as
    /// [`ServiceModel::extend`] fills an empty list.
    pub fn replace_all(&mut self, initial: Vec<ServiceData>, wireguard: &WireGuardVMs) -> (r: Vec<ListChange>)
        ensures
            final(self).well_formed(),
            final(self)@ == fill_spec(Seq::empty(), svc_views(initial@), wireguard@),
            r@ == (if old(self)@.len() > 0 {
                seq![ListChange { position: 0, removed: old(self)@.len() as usize, added: 0 }]
            } else {
                Seq::empty()
            }) + fill_changes(Seq::empty(), svc_views(initial@), wireguard@),
    {
        let n = self.services.len();
        let mut changes: Vec<ListChange> = Vec::new();
        if n > 0 {
            self.services.clear();
            changes.push(ListChange { position: 0, removed: n, added: 0 });
        }
        proof {
            assert(self@ =~= Seq::<ServiceV>::empty());
        }
        let more = self.extend(initial, wireguard);
        let ghost c0 = changes@;
        let mut k: usize = 0;
        while k < more.len()
            invariant
                k <= more.len(),
                changes@ == c0 + more@.take(k as int),
            decreases more.len() - k,
        {
            changes.push(more[k]);
            proof {
                assert(more@.take(k + 1) =~= more@.take(k as int).push(more@[k as int]));
                assert(c0 + more@.take(k + 1) =~= (c0 + more@.take(k as int)).push(more@[k as int]));
            }
            k = k + 1;
        }
        proof {
            assert(more@.take(more.len() as int) =~= more@);
            if n > 0 {
                assert(c0 =~= seq![ListChange { position: 0, removed: n, added: 0 }]);
            } else {
                assert(c0 =~= Seq::<ListChange>::empty());
            }
        }
        changes
    }

    /// The list's part of connecting again to the admin service: without an address and a
    /// port nothing happens; when the watch gave no initial units (it failed or timed out)
    /// the list stays; otherwise the list starts over from the initial units.
    pub fn reconnect(
        &mut self,
        settings: &ConnectionSettings,
        initial: Option<Vec<ServiceData>>,
        wireguard: &WireGuardVMs,
    ) -> (r: Vec<ListChange>)
        ensures
            (settings.address@.len() == 0 || settings.port == 0 || initial is None) ==> (final(self)@
                == old(self)@ && r@.len() == 0),
            (settings.address@.len() > 0 && settings.port != 0 && initial is Some) ==> ({
                let l = svc_views(initial->0@);
                &&& final(self).well_formed()
                &&& final(self)@ == fill_spec(Seq::empty(), l, wireguard@)
                &&& r@ == (if old(self)@.len() > 0 {
                    seq![ListChange { position: 0, removed: old(self)@.len() as usize, added: 0 }]
                } else {
                    Seq::empty()
                }) + fill_changes(Seq::empty(), l, wireguard@)
            }),
    {
        if !settings.can_connect() {
            return Vec::new();
        }
        match initial {
            Some(l) => self.replace_all(l, wireguard),
            None => Vec::new(),
        }
    }
}

/// The list after a run of events.
pub open spec fn events_spec(s: Seq<ServiceV>, es: Seq<EventV>, wireguard: Seq<Seq<char>>) -> Seq<ServiceV>
    decreases es.len(),
{
    if es.len() == 0 {
        s
    } else {
        events_spec(event_spec(s, es[0], wireguard).0, es.drop_first(), wireguard)
    }
}

proof fn lemma_events_keep_order(s: Seq<ServiceV>, es: Seq<EventV>, wireguard: Seq<Seq<char>>)
    requires
        sorted_by_key(s),
    ensures
        sorted_by_key(events_spec(s, es, wireguard)),
    decreases es.len(),
{
    if es.len() > 0 {
        law_event_keeps_order(s, es[0], wireguard);
        lemma_events_keep_order(event_spec(s, es[0], wireguard).0, es.drop_first(), wireguard);
    }
}

/// Law: after connecting, the list holds the initial units and the host entry in the order
/// of their keys, and stays in that order through any run of events that follows.
pub proof fn law_reconnect_list(initial: Seq<ServiceV>, es: Seq<EventV>, wireguard: Seq<Seq<char>>)
    ensures
        fill_spec(Seq::empty(), initial, wireguard).len() == initial.len() + 1,
        sorted_by_key(fill_spec(Seq::empty(), initial, wireguard)),
        sorted_by_key(events_spec(fill_spec(Seq::empty(), initial, wireguard), es, wireguard)),
{
    law_first_fill(initial, wireguard);
    lemma_events_keep_order(fill_spec(Seq::empty(), initial, wireguard), es, wireguard);
}
} // verus!
