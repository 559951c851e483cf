use ctrl_panel::service::{app_name_of_unit, QueryResult, ServiceData, ServiceType, VmType};
use ctrl_panel::commands::ConnectionSettings;
use ctrl_panel::service_model::{Event, ListChange, ServiceModel};
use ctrl_panel::status::{TrustLevel, VMStatus};
use ctrl_panel::wireguard_vms::{initialize_wvm_list, static_contains, WireGuardVMs};

fn wg() -> WireGuardVMs {
    WireGuardVMs::new(Some("business-vm\nchrome-vm\n"))
}

fn query(name: &str, desc: &str, status: VMStatus, t: ServiceType, vm: Option<&str>) -> QueryResult {
    QueryResult {
        name: name.to_string(),
        description: desc.to_string(),
        status,
        trust_level: TrustLevel::Secure,
        service_type: t,
        vm_name: vm.map(|v| v.to_string()),
        vm_type: VmType::AppVM,
    }
}

#[test]
fn wireguard_list_lines() {
    let w = wg();
    assert!(w.contains("business-vm"));
    assert!(w.contains("chrome-vm"));
    assert!(!w.contains("busi"));
    assert!(!WireGuardVMs::new(None).contains("business-vm"));
}

#[test]
fn wireguard_first_list_stays() {
    let mut slot = None;
    initialize_wvm_list(&mut slot, Some("a-vm"));
    initialize_wvm_list(&mut slot, Some("b-vm"));
    assert!(static_contains(&slot, "a-vm"));
    assert!(!static_contains(&slot, "b-vm"));
}

#[test]
fn app_display_names() {
    assert_eq!(app_name_of_unit("zathura@1.service"), "zathura");
    assert_eq!(app_name_of_unit("google-chrome@12.service"), "google-chrome");
    assert_eq!(app_name_of_unit("zathura@x1.service"), "");
    assert_eq!(app_name_of_unit("zathura.service"), "");
    assert_eq!(app_name_of_unit("a@b@3.service"), "a@b");
}

#[test]
fn service_of_vm_with_wireguard() {
    let s = ServiceData::new(
        "microvm@business-vm.service",
        "Business",
        VMStatus::Running,
        TrustLevel::Secure,
        ServiceType::VM,
        Some("business-vm"),
        VmType::AppVM,
        &wg(),
    );
    assert!(s.is_vm && !s.is_app);
    assert_eq!(s.display_name, "business-vm");
    assert!(s.has_wireguard);
    assert!(s.is_vm_running());
    assert!(!s.is_service());
}

#[test]
fn service_of_app_without_wireguard() {
    let s = ServiceData::new(
        "chrome@1.service",
        "Chrome",
        VMStatus::Paused,
        TrustLevel::Warning,
        ServiceType::App,
        Some("chrome-vm"),
        VmType::AppVM,
        &wg(),
    );
    assert_eq!(s.display_name, "chrome");
    assert!(!s.has_wireguard);
    assert!(!s.is_vm_running());
}

#[test]
fn service_update_takes_description_and_status() {
    let mut s = ServiceData::from_query(&query("x.service", "old", VMStatus::Running, ServiceType::Svc, None), &wg());
    assert!(s.is_service());
    s.update(&query("x.service", "new", VMStatus::Paused, ServiceType::Svc, None));
    assert_eq!(s.details, "new");
    assert_eq!(s.status, VMStatus::Paused);
}

fn names(m: &ServiceModel) -> Vec<String> {
    (0..m.n_items()).map(|i| m.item(i).unwrap().name.clone()).collect()
}

#[test]
fn first_fill_adds_host_and_sorts() {
    let w = wg();
    let mut m = ServiceModel::new();
    let items = vec![
        ServiceData::from_query(&query("zathura@1.service", "Zathura", VMStatus::Running, ServiceType::App, Some("zathura-vm")), &w),
        ServiceData::from_query(&query("microvm@zathura-vm.service", "VM", VMStatus::Running, ServiceType::VM, Some("zathura-vm")), &w),
        ServiceData::from_query(&query("microvm@business-vm.service", "VM", VMStatus::Running, ServiceType::VM, Some("business-vm")), &w),
    ];
    let changes = m.extend(items, &w);
    assert_eq!(changes, vec![ListChange { position: 0, removed: 0, added: 4 }]);
    assert_eq!(
        names(&m),
        vec!["ghaf-host", "microvm@business-vm.service", "microvm@zathura-vm.service", "zathura@1.service"]
    );
}

#[test]
fn later_extend_skips_known_and_inserts_in_place() {
    let w = wg();
    let mut m = ServiceModel::new();
    m.extend(
        vec![ServiceData::from_query(&query("microvm@zathura-vm.service", "VM", VMStatus::Running, ServiceType::VM, Some("zathura-vm")), &w)],
        &w,
    );
    let changes = m.extend(
        vec![
            ServiceData::from_query(&query("microvm@zathura-vm.service", "again", VMStatus::Running, ServiceType::VM, Some("zathura-vm")), &w),
            ServiceData::from_query(&query("microvm@chrome-vm.service", "VM", VMStatus::Running, ServiceType::VM, Some("chrome-vm")), &w),
        ],
        &w,
    );
    assert_eq!(changes, vec![ListChange { position: 1, removed: 0, added: 1 }]);
    assert_eq!(names(&m), vec!["ghaf-host", "microvm@chrome-vm.service", "microvm@zathura-vm.service"]);
    assert_eq!(m.find("microvm@chrome-vm.service"), Some(1));
    assert_eq!(m.find("nothing"), None);
}

#[test]
fn events_update_remove_register() {
    let w = wg();
    let mut m = ServiceModel::new();
    m.extend(
        vec![
            ServiceData::from_query(&query("microvm@chrome-vm.service", "VM", VMStatus::Running, ServiceType::VM, Some("chrome-vm")), &w),
            ServiceData::from_query(&query("chrome@1.service", "Chrome", VMStatus::Running, ServiceType::App, Some("chrome-vm")), &w),
        ],
        &w,
    );
    let c = m.apply_event(Event::UnitStatusChanged(query("chrome@1.service", "Paused now", VMStatus::Paused, ServiceType::App, Some("chrome-vm"))), &w);
    assert!(c.is_empty());
    let i = m.find("chrome@1.service").unwrap();
    assert_eq!(m.item(i).unwrap().details, "Paused now");
    assert_eq!(m.item(i).unwrap().status, VMStatus::Paused);

    let c = m.apply_event(Event::UnitShutdown(query("microvm@chrome-vm.service", "off", VMStatus::PoweredOff, ServiceType::VM, Some("chrome-vm"))), &w);
    assert!(c.is_empty());
    assert_eq!(m.n_items(), 3);

    let c = m.apply_event(Event::UnitShutdown(query("chrome@1.service", "gone", VMStatus::PoweredOff, ServiceType::App, Some("chrome-vm"))), &w);
    assert_eq!(c, vec![ListChange { position: 2, removed: 1, added: 0 }]);
    assert_eq!(m.n_items(), 2);

    let c = m.apply_event(Event::UnitRegistered(query("chrome@2.service", "Chrome", VMStatus::Running, ServiceType::App, Some("chrome-vm"))), &w);
    assert_eq!(c, vec![ListChange { position: 2, removed: 0, added: 1 }]);
    assert_eq!(names(&m), vec!["ghaf-host", "microvm@chrome-vm.service", "chrome@2.service"]);
}

#[test]
fn replace_all_starts_over() {
    let w = wg();
    let mut m = ServiceModel::new();
    m.extend(vec![ServiceData::from_query(&query("a.service", "", VMStatus::Running, ServiceType::Svc, Some("x")), &w)], &w);
    let c = m.replace_all(Vec::new(), &w);
    assert_eq!(
        c,
        vec![ListChange { position: 0, removed: 2, added: 0 }, ListChange { position: 0, removed: 0, added: 1 }]
    );
    assert_eq!(names(&m), vec!["ghaf-host"]);
}

#[test]
fn reconnect_without_address_keeps_list() {
    let w = wg();
    let mut m = ServiceModel::new();
    m.extend(vec![ServiceData::from_query(&query("a.service", "", VMStatus::Running, ServiceType::Svc, Some("x")), &w)], &w);
    let no_addr = ConnectionSettings { address: String::new(), port: 9001 };
    let fresh = vec![ServiceData::from_query(&query("b.service", "", VMStatus::Running, ServiceType::Svc, Some("x")), &w)];
    assert!(m.reconnect(&no_addr, Some(fresh), &w).is_empty());
    assert_eq!(names(&m), vec!["ghaf-host", "a.service"]);
    let ok = ConnectionSettings::new(None, None);
    assert!(m.reconnect(&ok, None, &w).is_empty());
    assert_eq!(names(&m), vec!["ghaf-host", "a.service"]);
}

#[test]
fn reconnect_starts_over_from_initial_units() {
    let w = wg();
    let mut m = ServiceModel::new();
    m.extend(vec![ServiceData::from_query(&query("a.service", "", VMStatus::Running, ServiceType::Svc, Some("x")), &w)], &w);
    let ok = ConnectionSettings::new(Some("10.0.0.1".into()), Some(9001));
    let fresh = vec![
        ServiceData::from_query(&query("zz.service", "", VMStatus::Running, ServiceType::Svc, Some("x")), &w),
        ServiceData::from_query(&query("microvm@chrome-vm.service", "VM", VMStatus::Running, ServiceType::VM, Some("chrome-vm")), &w),
    ];
    let c = m.reconnect(&ok, Some(fresh), &w);
    assert_eq!(
        c,
        vec![ListChange { position: 0, removed: 2, added: 0 }, ListChange { position: 0, removed: 0, added: 3 }]
    );
    assert_eq!(names(&m), vec!["ghaf-host", "microvm@chrome-vm.service", "zz.service"]);
}

#[test]
fn extend_keeps_keys_unique() {
    let w = wg();
    let mut m = ServiceModel::new();
    m.extend(vec![ServiceData::from_query(&query("b.service", "1", VMStatus::Running, ServiceType::Svc, Some("x")), &w)], &w);
    let c = m.extend(
        vec![
            ServiceData::from_query(&query("b.service", "2", VMStatus::Running, ServiceType::Svc, Some("x")), &w),
            ServiceData::from_query(&query("a.service", "3", VMStatus::Running, ServiceType::Svc, Some("x")), &w),
            ServiceData::from_query(&query("a.service", "4", VMStatus::Running, ServiceType::Svc, Some("x")), &w),
        ],
        &w,
    );
    assert_eq!(c, vec![ListChange { position: 1, removed: 0, added: 1 }]);
    assert_eq!(names(&m), vec!["ghaf-host", "a.service", "b.service"]);
    assert_eq!(m.item(1).unwrap().details, "3");
}

#[test]
fn first_fill_keeps_every_item() {
    let w = wg();
    let mut m = ServiceModel::new();
    m.extend(
        vec![
            ServiceData::from_query(&query("b.service", "1", VMStatus::Running, ServiceType::Svc, Some("x")), &w),
            ServiceData::from_query(&query("b.service", "2", VMStatus::Running, ServiceType::Svc, Some("x")), &w),
        ],
        &w,
    );
    assert_eq!(names(&m), vec!["ghaf-host", "b.service", "b.service"]);
    assert_eq!(m.item(1).unwrap().details, "1");
}
