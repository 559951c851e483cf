use ctrl_panel::display::{countdown_text, countdown_tick, ApplyOutcome, DisplaySettingsPage};
use ctrl_panel::service::{QueryResult, ServiceType, VmType};
use ctrl_panel::status::{TrustLevel, VMStatus};
use ctrl_panel::status::VMControlAction;
use ctrl_panel::vm::{vm_control_request, vm_pane, VMData};

const WLR: &str = "eDP-1 \"BOE 0x0BCA (eDP-1)\"
  Physical size: 300x190 mm
  Enabled: yes
  Modes:
    1920x1200 px, 60.002998 Hz (preferred)
    1936x1203 px, 60.000000 Hz (current)
  Position: 0,0
  Transform: normal
  Scale: 1.250000
";

#[test]
fn current_resolution_from_wlr_randr() {
    assert_eq!(DisplaySettingsPage::current_resolution_index(WLR), Some(1));
    assert_eq!(DisplaySettingsPage::current_resolution_index("HDMI-1\n 1920x1200 px (current)"), None);
    let other = WLR.replace("1936x1203", "2560x1600");
    assert_eq!(DisplaySettingsPage::current_resolution_index(&other), None);
}

#[test]
fn current_scale_from_wlr_randr() {
    assert_eq!(DisplaySettingsPage::current_scale_text(WLR), Some(String::from("1.250000")));
    assert_eq!(DisplaySettingsPage::scale_index(125), Some(1));
    assert_eq!(DisplaySettingsPage::scale_index(100), Some(0));
    assert_eq!(DisplaySettingsPage::scale_index(150), Some(2));
    assert_eq!(DisplaySettingsPage::scale_index(175), None);
}

#[test]
fn offered_settings() {
    assert_eq!(DisplaySettingsPage::supported_resolutions(), vec!["1920x1200", "1936x1203", "1952x1217", "2104x1236"]);
    assert_eq!(DisplaySettingsPage::supported_scales(), vec!["100%", "125%", "150%"]);
    let list = DisplaySettingsPage::supported_scales();
    assert_eq!(DisplaySettingsPage::index_of(&list, "150%"), Some(2));
    assert_eq!(DisplaySettingsPage::index_of(&list, "15%"), None);
}

#[test]
fn wlr_randr_arguments() {
    assert_eq!(DisplaySettingsPage::resolution_args(0), vec!["--output", "eDP-1", "--mode", "1920x1200"]);
    assert_eq!(DisplaySettingsPage::resolution_args(3), vec!["--output", "eDP-1", "--custom-mode", "2104x1236@60"]);
    assert_eq!(DisplaySettingsPage::scale_args(1), vec!["--output", "eDP-1", "--scale", "1.25"]);
    assert_eq!(DisplaySettingsPage::scale_args(2), vec!["--output", "eDP-1", "--scale", "1.5"]);
    assert_eq!(DisplaySettingsPage::scale_args(0), vec!["--output", "eDP-1", "--scale", "1"]);
    assert_eq!(DisplaySettingsPage::scale_args(9), vec!["--output", "eDP-1", "--scale", "1"]);
}

#[test]
fn apply_outcomes() {
    assert_eq!(DisplaySettingsPage::apply_outcome(1, 0, true, false), ApplyOutcome::Error);
    assert_eq!(DisplaySettingsPage::apply_outcome(1, 0, true, true), ApplyOutcome::Changed);
    assert_eq!(DisplaySettingsPage::apply_outcome(0, 2, true, true), ApplyOutcome::Changed);
    assert_eq!(DisplaySettingsPage::apply_outcome(0, 0, true, true), ApplyOutcome::Unchanged);
}

#[test]
fn countdown() {
    assert_eq!(countdown_text(15), "Closing in: 15 seconds");
    assert_eq!(countdown_tick(2), (1, false));
    assert_eq!(countdown_tick(1), (0, true));
}

#[test]
fn vm_names() {
    let v = VMData::try_new("microvm@chrome-vm.service".into(), "d".into(), VMStatus::Running, TrustLevel::Secure).unwrap();
    assert!(v.is_app_vm);
    assert_eq!(v.app_name, "chrome");
    assert_eq!(v.status, 0);
    let v = VMData::try_new("business".into(), "d".into(), VMStatus::Running, TrustLevel::Secure).unwrap();
    assert!(!v.is_app_vm);
    assert_eq!(v.app_name, "");
    assert!(VMData::try_new("microvm@foo".into(), "d".into(), VMStatus::Running, TrustLevel::Secure).is_none());
}

#[test]
fn vm_equality_and_update() {
    let mut a = VMData::new("microvm@gala-vm.service".into(), "x".into(), VMStatus::Paused, TrustLevel::Warning);
    assert_eq!(a.app_name, "gala");
    let b = VMData::new("microvm@gala-vm.service".into(), "y".into(), VMStatus::Running, TrustLevel::Secure);
    assert!(a.is_equal_to(&b));
    a.update(QueryResult {
        name: "n".into(),
        description: "new details".into(),
        status: VMStatus::Running,
        trust_level: TrustLevel::Secure,
        service_type: ServiceType::VM,
        vm_name: None,
        vm_type: VmType::AppVM,
    });
    assert_eq!(a.details, "new details");
    assert_eq!(a.name, "microvm@gala-vm.service");
}

#[test]
fn vm_pane_of_app_vm() {
    let mut v = VMData::new("microvm@chrome-vm.service".into(), "runs chrome".into(), VMStatus::Paused, TrustLevel::Warning);
    v.status = 2;
    v.trust_level = 1;
    let p = vm_pane(&v);
    assert_eq!(p.title, "chrome");
    assert_eq!(p.full_name, "microvm@chrome-vm.service");
    assert_eq!(p.status_label, "Paused");
    assert_eq!(p.status_icon, "/org/gnome/controlpanelgui/icons/ellipse_yellow.svg");
    assert_eq!(p.details, "runs chrome");
    assert_eq!(p.security_icon, "/ae/tii/ghaf/controlpanelgui/icons/security_attention.svg");
    assert_eq!(p.security_label, "Security warning!");
    assert_eq!(p.control_label, "VM Controls");
    assert!(p.audio_visible);
}

#[test]
fn vm_pane_of_other_vm() {
    let mut v = VMData::new("business".into(), "d".into(), VMStatus::PoweredOff, TrustLevel::Secure);
    v.status = 1;
    let p = vm_pane(&v);
    assert_eq!(p.title, "business");
    assert_eq!(p.full_name, "");
    assert_eq!(p.status_label, "Powered off");
    assert_eq!(p.status_icon, "/org/gnome/controlpanelgui/icons/ellipse_red.svg");
    assert_eq!(p.security_label, "Secure!");
    assert_eq!(p.control_label, "Service Controls");
    assert!(!p.audio_visible);
    let mut v = VMData::new("gui".into(), "d".into(), VMStatus::Running, TrustLevel::NotSecure);
    v.trust_level = 2;
    let p = vm_pane(&v);
    assert_eq!(p.status_label, "Running");
    assert_eq!(p.status_icon, "/org/gnome/controlpanelgui/icons/ellipse_green.svg");
    assert_eq!(p.security_label, "Security alert!");
    v.status = 7;
    assert_eq!(vm_pane(&v).status_label, "Powered off");
}

#[test]
fn vm_control_request_names_pane() {
    let v = VMData::new("microvm@gala-vm.service".into(), "d".into(), VMStatus::Running, TrustLevel::Secure);
    let p = vm_pane(&v);
    let (a, title, unit) = vm_control_request(VMControlAction::Pause, &p);
    assert_eq!(a, VMControlAction::Pause);
    assert_eq!(title, "gala");
    assert_eq!(unit, "microvm@gala-vm.service");
}
