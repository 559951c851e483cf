use ctrl_panel::about::HostSysinfoStatus;
use ctrl_panel::commands::{Expected, Response};
use ctrl_panel::admin_service::{ApplicationRequest, Empty, MyAdminService, RegistryRequest, RegistryResponse};
use ctrl_panel::commands::{
    client_cmd, control_service, memory_used_needed, mock_services, mock_stats, open_wireguard,
    perform_setting_action, set_locale_timezone, start_service, AdminCommand, AppAction, CommandError,
    ConnectionSettings, MemoryStats,
};
use ctrl_panel::audio::{AudioCall, AudioControl, ConnectionState, ProxyStep};
use ctrl_panel::data_provider::DataProvider;
use ctrl_panel::status::AudioDeviceType;
use ctrl_panel::pages::{
    ActionMenu, AdminSettingsPage, InfoSettingsPage, LanguageRegionSettingsPage, ServiceSettings, Settings,
};
use ctrl_panel::service::{QueryResult, ServiceData, ServiceType, VmType};
use ctrl_panel::service_model::Event;
use ctrl_panel::settings_action::SettingsAction;
use ctrl_panel::status::{ControlAction, TrustLevel, VMStatus};
use ctrl_panel::wireguard_vms::WireGuardVMs;

fn wg() -> WireGuardVMs {
    WireGuardVMs::new(Some("business-vm"))
}

fn svc(name: &str, t: ServiceType, vm: Option<&str>, vt: VmType) -> ServiceData {
    ServiceData::new(name, "details", VMStatus::Running, TrustLevel::Secure, t, vm, vt, &wg())
}

#[test]
fn start_commands_by_kind() {
    match start_service(&svc("microvm@business-vm.service", ServiceType::VM, Some("business-vm"), VmType::AppVM)) {
        AdminCommand::StartVm { vm } => assert_eq!(vm, "business-vm"),
        _ => panic!("expected a VM start"),
    }
    match start_service(&svc("chrome@1.service", ServiceType::App, Some("chrome-vm"), VmType::AppVM)) {
        AdminCommand::StartApp { app, vm, args } => {
            assert_eq!(app, "chrome");
            assert_eq!(vm, "chrome-vm");
            assert!(args.is_empty());
        }
        _ => panic!("expected an app start"),
    }
    match start_service(&svc("x.service", ServiceType::Svc, None, VmType::AppVM)) {
        AdminCommand::StartService { name, vm } => {
            assert_eq!(name, "x.service");
            assert_eq!(vm, "");
        }
        _ => panic!("expected a service start"),
    }
}

#[test]
fn controls_of_service() {
    let s = svc("chrome@1.service", ServiceType::App, Some("chrome-vm"), VmType::AppVM);
    assert!(matches!(control_service(ControlAction::Restart, &s), Err(CommandError::NotImplemented)));
    match control_service(ControlAction::Shutdown, &s) {
        Ok(AdminCommand::Stop { name }) => assert_eq!(name, "chrome@1.service"),
        _ => panic!("expected a stop"),
    }
    assert!(matches!(control_service(ControlAction::Pause, &s), Ok(AdminCommand::Pause { .. })));
    assert!(matches!(control_service(ControlAction::Resume, &s), Ok(AdminCommand::Resume { .. })));
}

#[test]
fn commands_need_a_link() {
    assert!(matches!(client_cmd(false, AdminCommand::Sysinfo), Err(CommandError::NotConnected)));
    assert!(matches!(client_cmd(true, AdminCommand::Sysinfo), Ok(AdminCommand::Sysinfo)));
    assert_eq!(CommandError::NotConnected.message(), "Not connected");
}

#[test]
fn settings_actions() {
    match perform_setting_action(SettingsAction::RegionNLanguage { locale: "fi_FI.utf8".into(), timezone: "UTC".into() }, &AudioControl::new()) {
        AppAction::SetLocaleTimezone { locale, timezone } => {
            assert_eq!(locale, "fi_FI.utf8");
            assert_eq!(timezone, "UTC");
        }
        _ => panic!("expected locale and time zone"),
    }
    assert!(matches!(perform_setting_action(SettingsAction::UpdateRequest, &AudioControl::new()), AppAction::Update));
    let vm = svc("microvm@business-vm.service", ServiceType::VM, Some("business-vm"), VmType::AppVM);
    match perform_setting_action(SettingsAction::OpenWireGuard { vm }, &AudioControl::new()) {
        AppAction::Run { command: AdminCommand::StartApp { app, vm, .. } } => {
            assert_eq!(app, "wireguard-gui");
            assert_eq!(vm, "business-vm");
        }
        _ => panic!("expected the WireGuard start"),
    }
    assert!(matches!(open_wireguard(&svc("a@1.service", ServiceType::App, Some("v"), VmType::AppVM)), AppAction::Nothing));
    let (a, b) = set_locale_timezone("C".into(), "UTC".into());
    assert!(matches!(a, AdminCommand::SetLocale { .. }));
    assert!(matches!(b, AdminCommand::SetTimezone { .. }));
}

#[test]
fn connection_settings() {
    let mut c = ConnectionSettings::new(None, None);
    assert_eq!(c.address, "192.168.101.10");
    assert_eq!(c.port, 9001);
    assert!(c.can_connect());
    c.set_port(70000);
    assert_eq!(c.port, 0);
    assert_eq!(c.get_port(), 0);
    assert!(!c.can_connect());
    c.set_port(8080);
    c.set_address(String::new());
    assert!(!c.can_connect());
    let c = ConnectionSettings::new(Some("10.0.0.1".into()), Some(1));
    assert_eq!(c.address, "10.0.0.1");
    assert_eq!(c.port, 1);
}

#[test]
fn stats_figures() {
    let s = mock_stats();
    let m = s.memory.unwrap();
    assert_eq!(memory_used_needed(m), Some((150_000_000, 100_000_000)));
    assert_eq!(memory_used_needed(MemoryStats { total: 1, available: 2, free: 0 }), None);
    assert_eq!(s.process.unwrap().total_cycles, 200_000);
}

#[test]
fn sample_services() {
    let v = mock_services(&wg());
    let names: Vec<&str> = v.iter().map(|s| s.name.as_str()).collect();
    assert_eq!(names, vec!["microvm@zathura-vm.service", "zathura@1.service", "chrome@1.service", "appflowy@1.service", "microvm@admin-vm.service"]);
    assert_eq!(v[4].vm_type, VmType::AdmVM);
}

#[test]
fn service_pane() {
    let v = ServiceSettings::bind(&svc("microvm@business-vm.service", ServiceType::VM, Some("business-vm"), VmType::AdmVM));
    assert!(v.wireguard_visible && v.resources_visible && v.shows_stats && v.audio_visible);
    assert!(!v.actions_sensitive);
    assert_eq!(v.action_menu, ActionMenu::Vm);
    assert_eq!(v.title, "business-vm");
    assert_eq!(v.full_name, "microvm@business-vm.service");
    assert_eq!(v.control_label, "VM Controls");
    assert_eq!(v.extra_info, "The app is in the business-vm");
    let v = ServiceSettings::bind(&svc("x.service", ServiceType::Svc, None, VmType::AppVM));
    assert_eq!(v.title, "x.service");
    assert_eq!(v.full_name, "");
    assert_eq!(v.control_label, "Service Controls");
    assert_eq!(v.action_menu, ActionMenu::Other);
    assert!(!v.arrow_visible);
}

#[test]
fn small_pages() {
    match LanguageRegionSettingsPage::on_apply_clicked(None, None) {
        SettingsAction::RegionNLanguage { locale, timezone } => {
            assert_eq!(locale, "C");
            assert_eq!(timezone, "UTC");
        }
        _ => panic!("expected a region request"),
    }
    match Settings::on_locale_timezone_default() {
        SettingsAction::RegionNLanguage { locale, timezone } => {
            assert_eq!(locale, "en_US.utf8");
            assert_eq!(timezone, "UTC");
        }
        _ => panic!("expected a region request"),
    }
    assert_eq!(InfoSettingsPage::logging_id_label(None), "Logging ID:    Not found");
    assert_eq!(InfoSettingsPage::logging_id_label(Some("abc\n".into())), "Logging ID:    abc\n");
    let l = AdminSettingsPage::on_update_clicked();
    assert_eq!(l.version, "Version: 1.0.1");
    assert!(l.content_visible);
}

fn q(name: &str, t: ServiceType, vm: Option<&str>) -> QueryResult {
    QueryResult {
        name: name.into(),
        description: "desc".into(),
        status: VMStatus::Running,
        trust_level: TrustLevel::Secure,
        service_type: t,
        vm_name: vm.map(|x| x.to_string()),
        vm_type: VmType::AppVM,
    }
}

#[test]
fn data_provider_store() {
    let w = wg();
    let mut d = DataProvider::new("1.2.3.4".into(), 9000, &w);
    assert_eq!(d.store.len(), 3);
    d.apply_event(Event::UnitRegistered(q("new@1.service", ServiceType::App, Some("v"))), &w);
    assert_eq!(d.store.len(), 4);
    assert_eq!(d.store[3].name, "new@1.service");
    d.apply_event(Event::UnitShutdown(q("chrome@1.service", ServiceType::App, Some("TestVM"))), &w);
    assert_eq!(d.store.len(), 3);
    d.apply_event(Event::UnitShutdown(q("microvm@zathura-vm.service", ServiceType::VM, Some("zathura-vm"))), &w);
    assert_eq!(d.store.len(), 3);
    assert_eq!(d.store[0].details, "desc");
    match d.start_service("microvm@zathura-vm.service") {
        Some(AdminCommand::StartVm { vm }) => assert_eq!(vm, "microvm@zathura-vm.service"),
        _ => panic!("expected a VM start"),
    }
    assert!(d.start_service("missing").is_none());
    d.reconnect(Some(("5.6.7.8".into(), 1)));
    assert_eq!(d.get_current_service_address(), (String::from("5.6.7.8"), 1));
    d.reconnect(None);
    assert_eq!(d.port, 1);
}

#[test]
fn stand_in_admin_service() {
    let s = MyAdminService::default();
    assert_eq!(s.register_service(RegistryRequest), RegistryResponse);
    let st = s.application_status(ApplicationRequest { app_name: "zathura".into() });
    assert_eq!(st.name, "zathura");
    assert_eq!(st.description, "Test");
    assert_eq!(st.active_state, "unknown");
    let l = s.list_applications(Empty);
    assert_eq!(l.applications.len(), 2);
    assert_eq!(l.applications[1].description, "Google Chrome");
    assert_eq!(s.reboot(Empty), Empty);
}

#[test]
fn answers_of_admin_service() {
    assert_eq!(Response::Stats(mock_stats()).into_stats(), Ok(mock_stats()));
    assert_eq!(Response::Error("down".into()).into_stats(), Err(String::from("down")));
    assert_eq!(Response::Empty.into_stats(), Err(String::from("Unexpected response")));
    assert_eq!(Response::Empty.into_empty(), Ok(()));
    assert_eq!(Response::Start.into_empty(), Err(String::from("Unexpected response")));
    assert_eq!(Response::RegistryChangelog("log".into()).into_changelog(), Ok(String::from("log")));
    let s = Response::SysinfoStatus(HostSysinfoStatus { ghaf_version: "1".into(), secure_boot: None, disk_encryption: Some(true) })
        .into_sysinfo()
        .ok()
        .unwrap();
    assert_eq!(s.ghaf_version, "1");
    assert!(Response::Start.expect(Expected::Start).is_ok());
    assert_eq!(Response::Start.expect(Expected::Stats).err(), Some(String::from("Unexpected response")));
    assert_eq!(Response::Error("x".into()).expect(Expected::Start).err(), Some(String::from("x")));
}

#[test]
fn service_pane_requests() {
    let s = svc("microvm@business-vm.service", ServiceType::VM, Some("business-vm"), VmType::AppVM);
    match ServiceSettings::on_wireguard_button_clicked(Some(&s)) {
        Some(SettingsAction::OpenWireGuard { vm }) => assert_eq!(vm.name, "microvm@business-vm.service"),
        _ => panic!("expected the WireGuard request"),
    }
    assert!(ServiceSettings::on_wireguard_button_clicked(None).is_none());
    let (a, v) = ServiceSettings::emit_control_action(Some(&s), ControlAction::Pause).unwrap();
    assert_eq!(a, ControlAction::Pause);
    assert_eq!(v.vm_name, "business-vm");
    assert!(ServiceSettings::emit_control_action(None, ControlAction::Pause).is_none());
    assert_eq!(ServiceSettings::open_info(true), (true, "pan-up-symbolic"));
    assert_eq!(ServiceSettings::open_info(false), (false, "pan-down-symbolic"));
}

#[test]
fn audio_settings_actions() {
    let mut audio = AudioControl::new();
    audio.connection = ConnectionState::after_connect(true, true);
    let run = |a: SettingsAction, audio: &AudioControl| match perform_setting_action(a, audio) {
        AppAction::Audio { step, call } => (step, call),
        _ => panic!("expected an audio call"),
    };
    assert_eq!(
        run(SettingsAction::Speaker { id: 4, dev_type: AudioDeviceType::Sink }, &audio),
        (ProxyStep::Send, AudioCall::MakeDeviceDefault { id: 4, dev_type: 0 })
    );
    assert_eq!(
        run(SettingsAction::Mic { id: 7, dev_type: AudioDeviceType::Source }, &audio).1,
        AudioCall::MakeDeviceDefault { id: 7, dev_type: 1 }
    );
    assert_eq!(
        run(SettingsAction::SpeakerMute { id: 4, dev_type: AudioDeviceType::Sink, muted: true }, &audio).1,
        AudioCall::SetDeviceMute { id: 4, dev_type: 0, mute: true }
    );
    assert_eq!(
        run(SettingsAction::MicMute { id: 7, dev_type: AudioDeviceType::SourceOutput, muted: false }, &audio).1,
        AudioCall::SetDeviceMute { id: 7, dev_type: 3, mute: false }
    );
    assert_eq!(
        run(SettingsAction::SpeakerVolume { id: 4, dev_type: AudioDeviceType::SinkInput, volume: 35 }, &audio).1,
        AudioCall::SetDeviceVolume { id: 4, dev_type: 2, value: 35 }
    );
    assert_eq!(
        run(SettingsAction::MicVolume { id: 7, dev_type: AudioDeviceType::Source, volume: 80 }, &audio).1,
        AudioCall::SetDeviceVolume { id: 7, dev_type: 1, value: 80 }
    );
    assert_eq!(run(SettingsAction::OpenAdvancedAudioSettingsWidget, &audio).1, AudioCall::Open);
    assert_eq!(run(SettingsAction::OpenAdvancedAudioSettingsWidget, &AudioControl::new()).0, ProxyStep::Wait);
}
