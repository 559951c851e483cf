//! A plain service store of the panel: a list in arrival order that follows the
//! admin service's events, and the commands it sends for a service named by the user.
use vstd::prelude::*;
use crate::commands::{seq_views, AdminCommand, AdminCommandV};
use crate::service::{
    from_query_spec, service_spec, updated_spec, QueryV, ServiceData, ServiceType, ServiceV, VmType,
};
use crate::service_model::{find_name, lemma_find_name, svc_views, Event, EventV};
use crate::status::{TrustLevel, VMStatus};
use crate::text::{owned, str_eq};
use crate::wireguard_vms::WireGuardVMs;

verus! {

/// The list after an event: a status report updates the first service of that name; a
/// shutdown updates a VM and takes anything else out; a registration appends the unit.
pub open spec fn store_event_spec(s: Seq<ServiceV>, e: EventV, wireguard: Seq<Seq<char>>) -> Seq<ServiceV> {
    match e {
        EventV::UnitStatusChanged(q) => match find_name(s, q.name) {
            Some(i) => s.update(i, updated_spec(s[i], q)),
            None => s,
        },
        EventV::UnitShutdown(q) => match find_name(s, q.name) {
            Some(i) => if s[i].is_vm {
                s.update(i, updated_spec(s[i], q))
            } else {
                s.remove(i)
            },
            None => s,
        },
        EventV::UnitRegistered(q) => s.push(from_query_spec(q, wireguard)),
    }
}

/// The command that starts the service named `name`: a VM by that name, an application
/// by its name in its VM, any other unit by its name; nothing when no service has it.
pub open spec fn store_start_spec(s: Seq<ServiceV>, name: Seq<char>) -> Option<AdminCommandV> {
    match find_name(s, name) {
        Some(i) => Some(
            if s[i].is_vm {
                AdminCommandV::StartVm { vm: name }
            } else if s[i].is_app {
                AdminCommandV::StartApp { app: s[i].display_name, vm: s[i].vm_name, args: Seq::empty() }
            } else {
                AdminCommandV::StartService { name, vm: s[i].vm_name }
            },
        ),
        None => None,
    }
}

/// A service store in arrival order, with the address of the admin service.
pub struct DataProvider {
    pub store: Vec<ServiceData>,
    pub status: bool,
    pub address: String,
    pub port: u16,
}

impl DataProvider {
    /// The store with its three sample services, to reach the admin service at `addr`.
    pub fn new(addr: String, port: u16, wireguard: &WireGuardVMs) -> (r: Self)
        ensures
            svc_views(r.store@) == seq![
                service_spec("microvm@zathura-vm.service"@, "This is the file.pdf and very very long description"@,
                    VMStatus::Running, TrustLevel::NotSecure, ServiceType::VM, Some("zathura-vm"@), VmType::AppVM,
                    wireguard@),
                service_spec("chrome@1.service"@, "Google Chrome"@, VMStatus::Paused, TrustLevel::Secure,
                    ServiceType::App, Some("TestVM"@), VmType::AppVM, wireguard@),
                service_spec("appflowy@1.service"@, "AppFlowy"@, VMStatus::Running, TrustLevel::Secure,
                    ServiceType::Svc, None, VmType::AppVM, wireguard@),
            ],
            !r.status,
            r.address@ == addr@,
            r.port == port,
    {
        let mut store: Vec<ServiceData> = Vec::new();
        store.push(ServiceData::new("microvm@zathura-vm.service", "This is the file.pdf and very very long description",
            VMStatus::Running, TrustLevel::NotSecure, ServiceType::VM, Some("zathura-vm"), VmType::AppVM, wireguard));
        store.push(ServiceData::new("chrome@1.service", "Google Chrome", VMStatus::Paused, TrustLevel::Secure,
            ServiceType::App, Some("TestVM"), VmType::AppVM, wireguard));
        store.push(ServiceData::new("appflowy@1.service", "AppFlowy", VMStatus::Running, TrustLevel::Secure,
            ServiceType::Svc, None, VmType::AppVM, wireguard));
        let r = DataProvider { store, status: false, address: addr, port };
        assert(svc_views(r.store@) =~= seq![
            service_spec("microvm@zathura-vm.service"@, "This is the file.pdf and very very long description"@,
                VMStatus::Running, TrustLevel::NotSecure, ServiceType::VM, Some("zathura-vm"@), VmType::AppVM,
                wireguard@),
            service_spec("chrome@1.service"@, "Google Chrome"@, VMStatus::Paused, TrustLevel::Secure,
                ServiceType::App, Some("TestVM"@), VmType::AppVM, wireguard@),
            service_spec("appflowy@1.service"@, "AppFlowy"@, VMStatus::Running, TrustLevel::Secure,
                ServiceType::Svc, None, VmType::AppVM, wireguard@),
        ]);
        r
    }

    /// The index of the first service named `name`.
    fn find(&self, name: &str) -> (r: Option<usize>)
        ensures
            find_name(svc_views(self.store@), name@) == match r {
                Some(i) => Some(i as int),
                None => None::<int>,
            },
            r matches Some(i) ==> i < self.store@.len(),
    {
        let ghost s = svc_views(self.store@);
        proof {
            lemma_find_name(s, name@);
        }
        let mut i: usize = 0;
        while i < self.store.len()
            invariant
                i <= self.store.len(),
                s == svc_views(self.store@),
                forall|j: int| 0 <= j < i ==> s[j].name != name@,
                match find_name(s, name@) {
                    Some(k) => 0 <= k < s.len() && s[k].name == name@ && forall|j: int|
                        0 <= j < k ==> s[j].name != name@,
                    None => forall|j: int| 0 <= j < s.len() ==> s[j].name != name@,
                },
            decreases self.store.len() - i,
        {
            if str_eq(self.store[i].name.as_str(), name) {
                assert(s[i as int].name == name@);
                proof {
                    match find_name(s, name@) {
                        Some(k) => {
                            if k < i {
                                assert(s[k].name != name@);
                            }
                            if k > i {
                                assert(s[i as int].name != name@);
                            }
                        },
                        None => {
                            assert(s[i as int].name != name@);
                        },
                    }
                }
                return Some(i);
            }
            assert(s[i as int].name != name@);
            i = i + 1;
        }
        None
    }

    /// Follows an event of the admin service.
    pub fn apply_event(&mut self, event: Event, wireguard: &WireGuardVMs)
        ensures
            svc_views(final(self).store@) == store_event_spec(svc_views(old(self).store@), event@, wireguard@),
            final(self).address@ == old(self).address@,
            final(self).port == old(self).port,
            final(self).status == old(self).status,
    {
        let ghost s0 = svc_views(self.store@);
        match event {
            Event::UnitStatusChanged(q) => {
                match self.find(q.name.as_str()) {
                    Some(i) => {
                        let mut x = self.store.remove(i);
                        x.update(&q);
                        self.store.insert(i, x);
                        assert(svc_views(self.store@) =~= s0.update(i as int, updated_spec(s0[i as int], q@)));
                    },
                    None => {},
                }
            },
            Event::UnitShutdown(q) => {
                match self.find(q.name.as_str()) {
                    Some(i) => {
                        if self.store[i].is_vm {
                            let mut x = self.store.remove(i);
                            x.update(&q);
                            self.store.insert(i, x);
                            assert(svc_views(self.store@) =~= s0.update(i as int, updated_spec(s0[i as int], q@)));
                        } else {
                            self.store.remove(i);
                            assert(svc_views(self.store@) =~= s0.remove(i as int));
                        }
                    },
                    None => {},
                }
            },
            Event::UnitRegistered(q) => {
                let x = ServiceData::from_query(&q, wireguard);
                self.store.push(x);
                assert(svc_views(self.store@) =~= s0.push(from_query_spec(q@, wireguard@)));
            },
        }
    }

    /// Starts over from the units the admin service reported on connecting.
    pub fn replace_all(&mut self, initial: Vec<ServiceData>)
        ensures
            svc_views(final(self).store@) == svc_views(initial@),
            final(self).address@ == old(self).address@,
            final(self).port == old(self).port,
    {
        self.store = initial;
    }

    /// Appends a VM to the store.
    pub fn add_vm(&mut self, vm: ServiceData)
        ensures
            svc_views(final(self).store@) == svc_views(old(self).store@).push(vm@),
            final(self).address@ == old(self).address@,
            final(self).port == old(self).port,
    {
        let ghost s0 = svc_views(self.store@);
        self.store.push(vm);
        assert(svc_views(self.store@) =~= s0.push(vm@));
    }

    /// The address and port of the admin service.
    pub fn get_current_service_address(&self) -> (r: (String, u16))
        ensures
            r.0@ == self.address@,
            r.1 == self.port,
    {
        (owned(self.address.as_str()), self.port)
    }

    pub fn set_service_address(&mut self, addr: String, port: u16)
        ensures
            final(self).address@ == addr@,
            final(self).port == port,
            svc_views(final(self).store@) == svc_views(old(self).store@),
    {
        self.address = addr;
        self.port = port;
    }

    /// Before connecting again, a new address replaces the old one when one is given.
    pub fn reconnect(&mut self, addr: Option<(String, u16)>)
        ensures
            match addr {
                Some(a) => final(self).address@ == a.0@ && final(self).port == a.1,
                None => final(self).address@ == old(self).address@ && final(self).port == old(self).port,
            },
            svc_views(final(self).store@) == svc_views(old(self).store@),
    {
        match addr {
            Some((a, p)) => self.set_service_address(a, p),
            None => {},
        }
    }

    /// The command that starts the service named `name`, if the store holds one.
    pub fn start_service(&self, name: &str) -> (r: Option<AdminCommand>)
        ensures
            store_start_spec(svc_views(self.store@), name@) == match r {
                Some(c) => Some(c@),
                None => None::<AdminCommandV>,
            },
    {
        let ghost s = svc_views(self.store@);
        match self.find(name) {
            Some(i) => {
                let obj = &self.store[i];
                assert(s[i as int] == obj@);
                if obj.is_vm {
                    Some(AdminCommand::StartVm { vm: owned(name) })
                } else if obj.is_app {
                    let args: Vec<String> = Vec::new();
                    assert(seq_views(args@) =~= Seq::<Seq<char>>::empty());
                    Some(AdminCommand::StartApp {
                        app: owned(obj.display_name.as_str()),
                        vm: owned(obj.vm_name.as_str()),
                        args,
                    })
                } else {
                    Some(AdminCommand::StartService { name: owned(name), vm: owned(obj.vm_name.as_str()) })
                }
            },
            None => None,
        }
    }
}

/// A registration appends exactly one service, the reported unit, and keeps the others.
pub proof fn law_store_register(s: Seq<ServiceV>, q: QueryV, wireguard: Seq<Seq<char>>)
    ensures
        store_event_spec(s, EventV::UnitRegistered(q), wireguard).len() == s.len() + 1,
        store_event_spec(s, EventV::UnitRegistered(q), wireguard).drop_last() == s,
        store_event_spec(s, EventV::UnitRegistered(q), wireguard).last() == from_query_spec(q, wireguard),
{
    assert(s.push(from_query_spec(q, wireguard)).drop_last() =~= s);
}

/// A shutdown never takes a VM out of the store: when the service it names is a VM, the
/// store keeps its length; otherwise at most that one service leaves.
pub proof fn law_store_shutdown_keeps_vms(s: Seq<ServiceV>, q: QueryV, wireguard: Seq<Seq<char>>)
    ensures
        store_event_spec(s, EventV::UnitShutdown(q), wireguard).len() >= s.len() - 1,
        (find_name(s, q.name) matches Some(i) && s[i].is_vm) ==> store_event_spec(
            s,
            EventV::UnitShutdown(q),
            wireguard,
        ).len() == s.len(),
{
    lemma_find_name(s, q.name);
}

} // verus!
