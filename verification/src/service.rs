//! A service of the system as the panel shows it: a VM, an application in a VM, or a
//! system service, with the order in which the panel lists them.
use vstd::prelude::*;
use crate::status::{TrustLevel, VMStatus};
use crate::text::{
    chars_of, is_ascii_digit, is_digit, owned, rsplit_once, rsplit_once_spec, str_eq,
    strip_suffix, strip_suffix_spec,
};
use crate::wireguard_vms::WireGuardVMs;

verus! {

/// What kind of unit a service is.
#[derive(Debug, Clone, Copy, PartialEq, Eq, Structural)]
pub enum ServiceType {
    App,
    VM,
    Svc,
    Mgr,
}

/// What kind of machine a VM is.
#[derive(Debug, Clone, Copy, PartialEq, Eq, Structural)]
pub enum VmType {
    Host,
    AdmVM,
    SysVM,
    AppVM,
}

/// A unit as the admin service reports it.
pub struct QueryResult {
    pub name: String,
    pub description: String,
    pub status: VMStatus,
    pub trust_level: TrustLevel,
    pub service_type: ServiceType,
    pub vm_name: Option<String>,
    pub vm_type: VmType,
}

/// A service as the panel holds it.
pub struct ServiceData {
    /// Unique unit name, used as id.
    pub name: String,
    /// User-friendly name.
    pub display_name: String,
    pub is_vm: bool,
    pub is_app: bool,
    /// The VM that the service runs in.
    pub vm_name: String,
    pub vm_type: VmType,
    pub details: String,
    pub status: VMStatus,
    pub trust_level: TrustLevel,
    pub has_wireguard: bool,
}

/// The panel's object for a service.
pub type ServiceGObject = ServiceData;

/// A service as a mathematical value: its strings as character sequences.
pub struct ServiceV {
    pub name: Seq<char>,
    pub display_name: Seq<char>,
    pub is_vm: bool,
    pub is_app: bool,
    pub vm_name: Seq<char>,
    pub vm_type: VmType,
    pub details: Seq<char>,
    pub status: VMStatus,
    pub trust_level: TrustLevel,
    pub has_wireguard: bool,
}

impl View for ServiceData {
    type V = ServiceV;

    open spec fn view(&self) -> ServiceV {
        ServiceV {
            name: self.name@,
            display_name: self.display_name@,
            is_vm: self.is_vm,
            is_app: self.is_app,
            vm_name: self.vm_name@,
            vm_type: self.vm_type,
            details: self.details@,
            status: self.status,
            trust_level: self.trust_level,
            has_wireguard: self.has_wireguard,
        }
    }
}

/// A reported unit as a mathematical value.
pub struct QueryV {
    pub name: Seq<char>,
    pub description: Seq<char>,
    pub status: VMStatus,
    pub trust_level: TrustLevel,
    pub service_type: ServiceType,
    pub vm_name: Option<Seq<char>>,
    pub vm_type: VmType,
}

impl View for QueryResult {
    type V = QueryV;

    open spec fn view(&self) -> QueryV {
        QueryV {
            name: self.name@,
            description: self.description@,
            status: self.status,
            trust_level: self.trust_level,
            service_type: self.service_type,
            vm_name: match self.vm_name {
                Some(v) => Some(v@),
                None => None,
            },
            vm_type: self.vm_type,
        }
    }
}

/// The service that the panel makes of a unit named `name`, described by `details`.
pub open spec fn service_spec(
    name: Seq<char>,
    details: Seq<char>,
    status: VMStatus,
    trust_level: TrustLevel,
    service_type: ServiceType,
    vm_name: Option<Seq<char>>,
    vm_type: VmType,
    wireguard: Seq<Seq<char>>,
) -> ServiceV {
    let is_vm = service_type == ServiceType::VM;
    let is_app = service_type == ServiceType::App;
    ServiceV {
        name,
        display_name: display_name_spec(name, is_vm, is_app, vm_name),
        is_vm,
        is_app,
        vm_name: match vm_name {
            Some(v) => v,
            None => Seq::empty(),
        },
        vm_type,
        details,
        status,
        trust_level,
        has_wireguard: is_vm && vm_name is Some && wireguard.contains(vm_name->0),
    }
}

/// The service that the panel makes of a reported unit.
pub open spec fn from_query_spec(q: QueryV, wireguard: Seq<Seq<char>>) -> ServiceV {
    service_spec(
        q.name,
        q.description,
        q.status,
        q.trust_level,
        q.service_type,
        q.vm_name,
        q.vm_type,
        wireguard,
    )
}

/// A service after a new report on it: the description and the state change.
pub open spec fn updated_spec(s: ServiceV, q: QueryV) -> ServiceV {
    ServiceV { details: q.description, status: q.status, ..s }
}

impl Default for ServiceData {
    fn default() -> (r: Self)
        ensures
            r.name@.len() == 0,
            r.display_name@.len() == 0,
            !r.is_vm,
            !r.is_app,
            r.vm_name@.len() == 0,
            r.vm_type == VmType::Host,
            r.details@.len() == 0,
            r.status == VMStatus::PoweredOff,
            r.trust_level == TrustLevel::Warning,
            !r.has_wireguard,
    {
        ServiceData {
            name: String::new(),
            display_name: String::new(),
            is_vm: false,
            is_app: false,
            vm_name: String::new(),
            vm_type: VmType::Host,
            details: String::new(),
            status: VMStatus::PoweredOff,
            trust_level: TrustLevel::Warning,
            has_wireguard: false,
        }
    }
}

/// Every character of `s` is an ASCII digit (true of the empty sequence).
pub open spec fn all_digits(s: Seq<char>) -> bool {
    forall|i: int| 0 <= i < s.len() ==> is_ascii_digit(s[i])
}

/// The name an application unit `<app>@<number>.service` is shown by: `<app>`, or
/// nothing when the unit name has another shape.
pub open spec fn app_display_name(name: Seq<char>) -> Seq<char> {
    match strip_suffix_spec(name, ".service"@) {
        Some(base) => match rsplit_once_spec(base, '@') {
            Some(parts) => if all_digits(parts.1) {
                parts.0
            } else {
                Seq::empty()
            },
            None => Seq::empty(),
        },
        None => Seq::empty(),
    }
}

/// The name a service is shown by: a VM by the VM's name, an application by its
/// application name, anything else by nothing.
pub open spec fn display_name_spec(
    name: Seq<char>,
    is_vm: bool,
    is_app: bool,
    vm_name: Option<Seq<char>>,
) -> Seq<char> {
    if is_vm {
        match vm_name {
            Some(v) => v,
            None => Seq::empty(),
        }
    } else if is_app {
        app_display_name(name)
    } else {
        Seq::empty()
    }
}

/// The view of an optional string.
pub open spec fn opt_view(s: Option<&str>) -> Option<Seq<char>> {
    match s {
        Some(x) => Some(x@),
        None => None,
    }
}

/// The key by which services are listed: the host first, then by VM, VMs before what
/// runs in them, then by unit name.
pub type KeyV = (bool, Seq<char>, bool, Seq<char>);

pub open spec fn key_of(s: ServiceV) -> KeyV {
    (s.vm_name != "ghaf-host"@, s.vm_name, !s.is_vm, s.name)
}

/// Lexicographic order of character sequences, by code point: the order of `String`.
pub open spec fn seq_lt(a: Seq<char>, b: Seq<char>) -> bool
    decreases a.len(),
{
    if a.len() == 0 {
        b.len() > 0
    } else if b.len() == 0 {
        false
    } else if a[0] != b[0] {
        a[0] < b[0]
    } else {
        seq_lt(a.drop_first(), b.drop_first())
    }
}

/// The order of keys: component by component, `false` before `true`.
pub open spec fn key_lt(x: KeyV, y: KeyV) -> bool {
    if x.0 != y.0 {
        !x.0 && y.0
    } else if x.1 != y.1 {
        seq_lt(x.1, y.1)
    } else if x.2 != y.2 {
        !x.2 && y.2
    } else {
        seq_lt(x.3, y.3)
    }
}

/// How one key stands to another.
#[derive(Debug, Clone, Copy, PartialEq, Eq, Structural)]
pub enum Rank {
    Before,
    Same,
    After,
}

pub proof fn lemma_seq_lt_irreflexive(a: Seq<char>)
    ensures
        !seq_lt(a, a),
    decreases a.len(),
{
    if a.len() > 0 {
        lemma_seq_lt_irreflexive(a.drop_first());
    }
}

pub proof fn lemma_seq_lt_asymmetric(a: Seq<char>, b: Seq<char>)
    ensures
        seq_lt(a, b) ==> !seq_lt(b, a),
    decreases a.len(),
{
    if a.len() > 0 && b.len() > 0 && a[0] == b[0] {
        lemma_seq_lt_asymmetric(a.drop_first(), b.drop_first());
    }
}

pub proof fn lemma_seq_lt_transitive(a: Seq<char>, b: Seq<char>, c: Seq<char>)
    ensures
        seq_lt(a, b) && seq_lt(b, c) ==> seq_lt(a, c),
    decreases a.len(),
{
    if a.len() > 0 && b.len() > 0 && c.len() > 0 && a[0] == b[0] && b[0] == c[0] {
        lemma_seq_lt_transitive(a.drop_first(), b.drop_first(), c.drop_first());
    }
}

pub proof fn lemma_seq_lt_total(a: Seq<char>, b: Seq<char>)
    ensures
        a != b ==> seq_lt(a, b) || seq_lt(b, a),
    decreases a.len(),
{
    if a.len() == 0 && b.len() == 0 {
        assert(a =~= b);
    } else if a.len() > 0 && b.len() > 0 && a[0] == b[0] {
        lemma_seq_lt_total(a.drop_first(), b.drop_first());
        if a.drop_first() == b.drop_first() {
            assert(a =~= seq![a[0]] + a.drop_first());
            assert(b =~= seq![b[0]] + b.drop_first());
        }
    }
}

/// After a common prefix of length `k`, the order is that of the rests.
pub proof fn lemma_seq_lt_skip(a: Seq<char>, b: Seq<char>, k: int)
    requires
        0 <= k <= a.len(),
        k <= b.len(),
        forall|j: int| 0 <= j < k ==> a[j] == b[j],
    ensures
        seq_lt(a, b) == seq_lt(a.skip(k), b.skip(k)),
    decreases k,
{
    if k == 0 {
        assert(a.skip(0) =~= a);
        assert(b.skip(0) =~= b);
    } else {
        assert(a[0] == b[0]);
        let a1 = a.drop_first();
        let b1 = b.drop_first();
        assert forall|j: int| 0 <= j < k - 1 implies a1[j] == b1[j] by {
            assert(a1[j] == a[j + 1]);
            assert(b1[j] == b[j + 1]);
        }
        lemma_seq_lt_skip(a1, b1, k - 1);
        assert(a1.skip(k - 1) =~= a.skip(k));
        assert(b1.skip(k - 1) =~= b.skip(k));
    }
}

pub proof fn lemma_key_lt_order(x: KeyV, y: KeyV, z: KeyV)
    ensures
        !key_lt(x, x),
        key_lt(x, y) ==> !key_lt(y, x),
        key_lt(x, y) && key_lt(y, z) ==> key_lt(x, z),
        x != y ==> key_lt(x, y) || key_lt(y, x),
{
    lemma_seq_lt_irreflexive(x.1);
    lemma_seq_lt_irreflexive(x.3);
    lemma_seq_lt_asymmetric(x.1, y.1);
    lemma_seq_lt_asymmetric(x.3, y.3);
    lemma_seq_lt_transitive(x.1, y.1, z.1);
    lemma_seq_lt_transitive(x.3, y.3, z.3);
    lemma_seq_lt_total(x.1, y.1);
    lemma_seq_lt_total(x.3, y.3);
    if key_lt(x, y) && key_lt(y, z) {
        if x.1 == y.1 && y.1 != z.1 {
        }
        if x.1 != y.1 && y.1 == z.1 {
        }
        if x.1 != y.1 && y.1 != z.1 && x.0 == y.0 && y.0 == z.0 {
            lemma_seq_lt_asymmetric(z.1, x.1);
            if x.1 == z.1 {
                lemma_seq_lt_asymmetric(x.1, y.1);
            }
        }
        if x.0 == y.0 && y.0 == z.0 && x.1 == y.1 && y.1 == z.1 && x.2 == y.2 && y.2 == z.2 {
            if x.3 == z.3 {
                lemma_seq_lt_asymmetric(x.3, y.3);
            }
        }
    }
}

/// How `a` stands to `b` in the order of strings.
pub fn str_rank(a: &str, b: &str) -> (r: Rank)
    ensures
        r == Rank::Before <==> seq_lt(a@, b@),
        r == Rank::Same <==> a@ == b@,
        r == Rank::After <==> seq_lt(b@, a@),
{
    let va = chars_of(a);
    let vb = chars_of(b);
    proof {
        lemma_seq_lt_irreflexive(a@);
        lemma_seq_lt_asymmetric(a@, b@);
        lemma_seq_lt_total(a@, b@);
    }
    let mut k: usize = 0;
    while k < va.len() && k < vb.len()
        invariant
            k <= va.len(),
            k <= vb.len(),
            va@ == a@,
            vb@ == b@,
            forall|j: int| 0 <= j < k ==> a@[j] == b@[j],
        decreases va.len() - k,
    {
        if va[k] != vb[k] {
            proof {
                lemma_seq_lt_skip(a@, b@, k as int);
                lemma_seq_lt_skip(b@, a@, k as int);
                assert(a@.skip(k as int)[0] == a@[k as int]);
                assert(b@.skip(k as int)[0] == b@[k as int]);
            }
            if va[k] < vb[k] {
                return Rank::Before;
            } else {
                return Rank::After;
            }
        }
        k = k + 1;
    }
    proof {
        lemma_seq_lt_skip(a@, b@, k as int);
        lemma_seq_lt_skip(b@, a@, k as int);
    }
    if va.len() == vb.len() {
        assert(a@ =~= b@);
        Rank::Same
    } else if k == va.len() {
        Rank::Before
    } else {
        Rank::After
    }
}

/// How `a` stands to `b`: `false` before `true`.
fn bool_rank(a: bool, b: bool) -> (r: Rank)
    ensures
        r == Rank::Same <==> a == b,
        r == Rank::Before <==> (!a && b),
        r == Rank::After <==> (a && !b),
{
    if a == b {
        Rank::Same
    } else if !a {
        Rank::Before
    } else {
        Rank::After
    }
}

impl ServiceData {
    /// A service from a unit's name, description, state, trust level, kind, VM and VM kind;
    /// `wireguard` lists the VMs that have WireGuard.
    pub fn new(
        name: &str,
        details: &str,
        status: VMStatus,
        trust_level: TrustLevel,
        service_type: ServiceType,
        vm_name: Option<&str>,
        vm_type: VmType,
        wireguard: &WireGuardVMs,
    ) -> (r: Self)
        ensures
            r@ == service_spec(
                name@,
                details@,
                status,
                trust_level,
                service_type,
                opt_view(vm_name),
                vm_type,
                wireguard@,
            ),
    {
        let is_vm = service_type == ServiceType::VM;
        let is_app = service_type == ServiceType::App;
        let display_name = if is_vm {
            match vm_name {
                Some(v) => owned(v),
                None => String::new(),
            }
        } else if is_app {
            app_name_of_unit(name)
        } else {
            String::new()
        };
        let has_wireguard = is_vm && match vm_name {
            Some(v) => wireguard.contains(v),
            None => false,
        };
        ServiceData {
            name: owned(name),
            display_name,
            is_vm,
            is_app,
            vm_name: match vm_name {
                Some(v) => owned(v),
                None => String::new(),
            },
            vm_type,
            details: owned(details),
            status,
            trust_level,
            has_wireguard,
        }
    }

    /// The service that a unit reported by the admin service stands for.
    pub fn from_query(q: &QueryResult, wireguard: &WireGuardVMs) -> (r: Self)
        ensures
            r@ == from_query_spec(q@, wireguard@),
    {
        let vm = match &q.vm_name {
            Some(v) => Some(v.as_str()),
            None => None,
        };
        ServiceData::new(
            q.name.as_str(),
            q.description.as_str(),
            q.status,
            q.trust_level,
            q.service_type,
            vm,
            q.vm_type,
            wireguard,
        )
    }

    /// Takes the description and state of a new report on the unit.
    pub fn update(&mut self, q: &QueryResult)
        ensures
            final(self)@ == updated_spec(old(self)@, q@),
    {
        self.details = q.description.clone();
        self.status = q.status;
    }

    /// The service is a VM that runs.
    pub fn is_vm_running(&self) -> (r: bool)
        ensures
            r == (self.is_vm && self.status == VMStatus::Running),
    {
        self.is_vm && self.status == VMStatus::Running
    }

    /// The service is neither a VM nor an application.
    pub fn is_service(&self) -> (r: bool)
        ensures
            r == (!self.is_vm && !self.is_app),
    {
        !self.is_vm && !self.is_app
    }

    /// The key by which the service is listed.
    pub fn sort_key(&self) -> (r: (bool, String, bool, String))
        ensures
            (r.0, r.1@, r.2, r.3@) == key_of(self@),
    {
        (!str_eq(self.vm_name.as_str(), "ghaf-host"), self.vm_name.clone(), !self.is_vm, self.name.clone())
    }

    /// How the key of `self` stands to the key of `other`.
    pub fn key_rank(&self, other: &ServiceData) -> (r: Rank)
        ensures
            r == Rank::Before <==> key_lt(key_of(self@), key_of(other@)),
            r == Rank::Same <==> key_of(self@) == key_of(other@),
            r == Rank::After <==> key_lt(key_of(other@), key_of(self@)),
    {
        proof {
            lemma_key_lt_order(key_of(self@), key_of(other@), key_of(self@));
        }
        let a0 = !str_eq(self.vm_name.as_str(), "ghaf-host");
        let b0 = !str_eq(other.vm_name.as_str(), "ghaf-host");
        let r0 = bool_rank(a0, b0);
        if r0 != Rank::Same {
            return r0;
        }
        let r1 = str_rank(self.vm_name.as_str(), other.vm_name.as_str());
        if r1 != Rank::Same {
            return r1;
        }
        let r2 = bool_rank(!self.is_vm, !other.is_vm);
        if r2 != Rank::Same {
            return r2;
        }
        str_rank(self.name.as_str(), other.name.as_str())
    }

    /// A copy of the service.
    pub fn duplicate(&self) -> (r: Self)
        ensures
            r@ == self@,
    {
        ServiceData {
            name: self.name.clone(),
            display_name: self.display_name.clone(),
            is_vm: self.is_vm,
            is_app: self.is_app,
            vm_name: self.vm_name.clone(),
            vm_type: self.vm_type,
            details: self.details.clone(),
            status: self.status,
            trust_level: self.trust_level,
            has_wireguard: self.has_wireguard,
        }
    }
}

/// The application name of a unit `<app>@<number>.service`, or the empty string.
pub fn app_name_of_unit(name: &str) -> (r: String)
    ensures
        r@ == app_display_name(name@),
{
    match strip_suffix(name, ".service") {
        Some(base) => match rsplit_once(base.as_str(), '@') {
            Some((app, number)) => {
                let v = chars_of(number.as_str());
                let mut k: usize = 0;
                while k < v.len()
                    invariant
                        k <= v.len(),
                        v@ == number@,
                        strip_suffix_spec(name@, ".service"@) == Some(base@),
                        rsplit_once_spec(base@, '@') == Some((app@, number@)),
                        forall|j: int| 0 <= j < k ==> is_ascii_digit(number@[j]),
                    decreases v.len() - k,
                {
                    if !is_digit(v[k]) {
                        assert(!is_ascii_digit(number@[k as int]));
                        return String::new();
                    }
                    k = k + 1;
                }
                app
            },
            None => String::new(),
        },
        None => String::new(),
    }
}


/// A service offers WireGuard only when it is a VM whose name the WireGuard list holds,
/// and every such VM offers it: a VM left out of the list, or a service that is no VM,
/// never does.
pub proof fn law_wireguard_only_listed(
    name: Seq<char>,
    details: Seq<char>,
    status: VMStatus,
    trust_level: TrustLevel,
    service_type: ServiceType,
    vm_name: Option<Seq<char>>,
    vm_type: VmType,
    wireguard: Seq<Seq<char>>,
)
    ensures
        ({
            let s = service_spec(name, details, status, trust_level, service_type, vm_name, vm_type, wireguard);
            &&& s.has_wireguard ==> s.is_vm && vm_name is Some && wireguard.contains(s.vm_name)
            &&& (vm_name matches Some(v) && !wireguard.contains(v)) ==> !s.has_wireguard
            &&& vm_name is None ==> !s.has_wireguard
            &&& service_type == ServiceType::VM ==> ((vm_name matches Some(v) && wireguard.contains(v))
                ==> s.has_wireguard)
        }),
{
}

} // verus!
