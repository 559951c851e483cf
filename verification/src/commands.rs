//! What the panel asks of the admin service and of itself: the command for each control
//! of a service, the work behind each settings request, and the address of the service.
use vstd::prelude::*;
use crate::service::{service_spec, ServiceData, ServiceType, ServiceV, VmType};
use crate::settings_action::{AuthModeV, SettingsAction, SettingsActionV, UpdateServerAuthMode};
use crate::status::{ControlAction, TrustLevel, VMStatus};
use crate::about::HostSysinfoStatus;
use crate::audio::{step_of, AudioCall, AudioControl, ConnectionState, ProxyStep};
use crate::status::device_type_code;
use crate::text::owned;
use crate::update_flow::AvailableUpdate;
use crate::wireguard_vms::WireGuardVMs;

verus! {

/// A request to the admin service.
pub enum AdminCommand {
    StartVm { vm: String },
    StartApp { app: String, vm: String, args: Vec<String> },
    StartService { name: String, vm: String },
    Stop { name: String },
    Pause { name: String },
    Resume { name: String },
    SetLocale { locale: String },
    SetTimezone { timezone: String },
    GetStats { vm: String },
    Sysinfo,
}

/// A request to the admin service as a mathematical value.
pub enum AdminCommandV {
    StartVm { vm: Seq<char> },
    StartApp { app: Seq<char>, vm: Seq<char>, args: Seq<Seq<char>> },
    StartService { name: Seq<char>, vm: Seq<char> },
    Stop { name: Seq<char> },
    Pause { name: Seq<char> },
    Resume { name: Seq<char> },
    SetLocale { locale: Seq<char> },
    SetTimezone { timezone: Seq<char> },
    GetStats { vm: Seq<char> },
    Sysinfo,
}

/// The views of a list of strings.
pub open spec fn seq_views(v: Seq<String>) -> Seq<Seq<char>> {
    v.map_values(|s: String| s@)
}

impl View for AdminCommand {
    type V = AdminCommandV;

    open spec fn view(&self) -> AdminCommandV {
        match self {
            AdminCommand::StartVm { vm } => AdminCommandV::StartVm { vm: vm@ },
            AdminCommand::StartApp { app, vm, args } => AdminCommandV::StartApp {
                app: app@,
                vm: vm@,
                args: seq_views(args@),
            },
            AdminCommand::StartService { name, vm } => AdminCommandV::StartService { name: name@, vm: vm@ },
            AdminCommand::Stop { name } => AdminCommandV::Stop { name: name@ },
            AdminCommand::Pause { name } => AdminCommandV::Pause { name: name@ },
            AdminCommand::Resume { name } => AdminCommandV::Resume { name: name@ },
            AdminCommand::SetLocale { locale } => AdminCommandV::SetLocale { locale: locale@ },
            AdminCommand::SetTimezone { timezone } => AdminCommandV::SetTimezone { timezone: timezone@ },
            AdminCommand::GetStats { vm } => AdminCommandV::GetStats { vm: vm@ },
            AdminCommand::Sysinfo => AdminCommandV::Sysinfo,
        }
    }
}

/// Why a command was not sent.
#[derive(Debug, Clone, Copy, PartialEq, Eq, Structural)]
pub enum CommandError {
    /// There is no link to the admin service.
    NotConnected,
    /// The admin service cannot do this.
    NotImplemented,
}

impl CommandError {
    /// The text of the error.
    pub fn message(&self) -> (r: String)
        ensures
            r@ == match *self {
                CommandError::NotConnected => "Not connected"@,
                CommandError::NotImplemented => "not implemented"@,
            },
    {
        match self {
            CommandError::NotConnected => owned("Not connected"),
            CommandError::NotImplemented => owned("not implemented"),
        }
    }
}

/// The command that starts a service: a VM by its name, an application by its name in its
/// VM, any other unit by its unit name.
pub open spec fn start_spec(s: ServiceV) -> AdminCommandV {
    if s.is_vm {
        AdminCommandV::StartVm { vm: s.vm_name }
    } else if s.is_app {
        AdminCommandV::StartApp { app: s.display_name, vm: s.vm_name, args: Seq::empty() }
    } else {
        AdminCommandV::StartService { name: s.name, vm: s.vm_name }
    }
}

/// The command for a control of a service; a restart cannot be asked of the admin service.
pub open spec fn control_spec(action: ControlAction, s: ServiceV) -> Result<AdminCommandV, CommandError> {
    match action {
        ControlAction::Start => Ok(start_spec(s)),
        ControlAction::Restart => Err(CommandError::NotImplemented),
        ControlAction::Pause => Ok(AdminCommandV::Pause { name: s.name }),
        ControlAction::Resume => Ok(AdminCommandV::Resume { name: s.name }),
        ControlAction::Shutdown => Ok(AdminCommandV::Stop { name: s.name }),
    }
}

/// The view of a command result.
pub open spec fn cmd_result_view(r: Result<AdminCommand, CommandError>) -> Result<AdminCommandV, CommandError> {
    match r {
        Ok(c) => Ok(c@),
        Err(e) => Err(e),
    }
}

/// The command that starts a service.
pub fn start_service(obj: &ServiceData) -> (r: AdminCommand)
    ensures
        r@ == start_spec(obj@),
{
    if obj.is_vm {
        AdminCommand::StartVm { vm: owned(obj.vm_name.as_str()) }
    } else if obj.is_app {
        let args: Vec<String> = Vec::new();
        let r = AdminCommand::StartApp {
            app: owned(obj.display_name.as_str()),
            vm: owned(obj.vm_name.as_str()),
            args,
        };
        assert(seq_views(args@) =~= Seq::<Seq<char>>::empty());
        r
    } else {
        AdminCommand::StartService { name: owned(obj.name.as_str()), vm: owned(obj.vm_name.as_str()) }
    }
}

/// The command for a control of a service.
pub fn control_service(action: ControlAction, obj: &ServiceData) -> (r: Result<AdminCommand, CommandError>)
    ensures
        cmd_result_view(r) == control_spec(action, obj@),
{
    match action {
        ControlAction::Start => Ok(start_service(obj)),
        ControlAction::Restart => Err(CommandError::NotImplemented),
        ControlAction::Pause => Ok(AdminCommand::Pause { name: owned(obj.name.as_str()) }),
        ControlAction::Resume => Ok(AdminCommand::Resume { name: owned(obj.name.as_str()) }),
        ControlAction::Shutdown => Ok(AdminCommand::Stop { name: owned(obj.name.as_str()) }),
    }
}

/// A command is sent only over a link to the admin service.
pub fn client_cmd(connected: bool, cmd: AdminCommand) -> (r: Result<AdminCommand, CommandError>)
    ensures
        connected ==> (r matches Ok(c) && c@ == cmd@),
        !connected ==> r == Err::<AdminCommand, CommandError>(CommandError::NotConnected),
{
    if connected {
        Ok(cmd)
    } else {
        Err(CommandError::NotConnected)
    }
}

/// What the application does for a settings request.
pub enum AppAction {
    SetLocaleTimezone { locale: String, timezone: String },
    ShowError { message: String },
    Run { command: AdminCommand },
    CheckForUpdate { reference: String, auth_mode: UpdateServerAuthMode, insecure: bool },
    DownloadUpdate { reference: String, auth_mode: UpdateServerAuthMode, insecure: bool },
    Update,
    /// A call to the audio service, and what the link's state does with it.
    Audio { step: ProxyStep, call: AudioCall },
    Nothing,
}

/// What the application does, as a mathematical value.
pub enum AppActionV {
    SetLocaleTimezone { locale: Seq<char>, timezone: Seq<char> },
    ShowError { message: Seq<char> },
    Run { command: AdminCommandV },
    CheckForUpdate { reference: Seq<char>, auth_mode: AuthModeV, insecure: bool },
    DownloadUpdate { reference: Seq<char>, auth_mode: AuthModeV, insecure: bool },
    Update,
    Audio { step: ProxyStep, call: AudioCall },
    Nothing,
}

impl View for AppAction {
    type V = AppActionV;

    open spec fn view(&self) -> AppActionV {
        match self {
            AppAction::SetLocaleTimezone { locale, timezone } => AppActionV::SetLocaleTimezone {
                locale: locale@,
                timezone: timezone@,
            },
            AppAction::ShowError { message } => AppActionV::ShowError { message: message@ },
            AppAction::Run { command } => AppActionV::Run { command: command@ },
            AppAction::CheckForUpdate { reference, auth_mode, insecure } => AppActionV::CheckForUpdate {
                reference: reference@,
                auth_mode: auth_mode@,
                insecure: *insecure,
            },
            AppAction::DownloadUpdate { reference, auth_mode, insecure } => AppActionV::DownloadUpdate {
                reference: reference@,
                auth_mode: auth_mode@,
                insecure: *insecure,
            },
            AppAction::Update => AppActionV::Update,
            AppAction::Audio { step, call } => AppActionV::Audio { step: *step, call: *call },
            AppAction::Nothing => AppActionV::Nothing,
        }
    }
}

/// The WireGuard application is started in a VM; for anything but a VM nothing happens.
pub open spec fn wireguard_spec(vm: ServiceV) -> AppActionV {
    if vm.is_vm {
        AppActionV::Run {
            command: AdminCommandV::StartApp { app: "wireguard-gui"@, vm: vm.vm_name, args: Seq::empty() },
        }
    } else {
        AppActionV::Nothing
    }
}

/// A call to the audio service in a state of its link.
pub open spec fn audio_action(c: ConnectionState, call: AudioCall) -> AppActionV {
    AppActionV::Audio { step: step_of(c), call }
}

/// What the application does for each settings request, with the audio link in state `c`:
/// choosing a speaker or microphone makes it the default device, muting and volume go to
/// that device, and the advanced settings open the audio service's own window.
pub open spec fn setting_action_spec(a: SettingsActionV, c: ConnectionState) -> AppActionV {
    match a {
        SettingsActionV::RegionNLanguage { locale, timezone } => AppActionV::SetLocaleTimezone { locale, timezone },
        SettingsActionV::ShowErrorPopup { message } => AppActionV::ShowError { message },
        SettingsActionV::OpenWireGuard { vm } => wireguard_spec(vm),
        SettingsActionV::CheckForUpdateRequest { reference, auth_mode, insecure } => AppActionV::CheckForUpdate {
            reference,
            auth_mode,
            insecure,
        },
        SettingsActionV::DownloadUpdateRequest { reference, auth_mode, insecure } => AppActionV::DownloadUpdate {
            reference,
            auth_mode,
            insecure,
        },
        SettingsActionV::UpdateRequest => AppActionV::Update,
        SettingsActionV::Speaker { id, dev_type } | SettingsActionV::Mic { id, dev_type } => audio_action(
            c,
            AudioCall::MakeDeviceDefault { id, dev_type: device_type_code(dev_type) },
        ),
        SettingsActionV::SpeakerMute { id, dev_type, muted } | SettingsActionV::MicMute { id, dev_type, muted } =>
            audio_action(c, AudioCall::SetDeviceMute { id, dev_type: device_type_code(dev_type), mute: muted }),
        SettingsActionV::SpeakerVolume { id, dev_type, volume } | SettingsActionV::MicVolume { id, dev_type, volume } =>
            audio_action(c, AudioCall::SetDeviceVolume { id, dev_type: device_type_code(dev_type), value: volume }),
        SettingsActionV::OpenAdvancedAudioSettingsWidget => audio_action(c, AudioCall::Open),
    }
}

/// The WireGuard application started in the VM.
pub fn open_wireguard(vm: &ServiceData) -> (r: AppAction)
    ensures
        r@ == wireguard_spec(vm@),
{
    if vm.is_vm {
        let args: Vec<String> = Vec::new();
        let command = AdminCommand::StartApp {
            app: owned("wireguard-gui"),
            vm: owned(vm.vm_name.as_str()),
            args,
        };
        assert(seq_views(args@) =~= Seq::<Seq<char>>::empty());
        AppAction::Run { command }
    } else {
        AppAction::Nothing
    }
}

/// The work behind a settings request; the audio requests go to `audio`.
pub fn perform_setting_action(action: SettingsAction, audio: &AudioControl) -> (r: AppAction)
    ensures
        r@ == setting_action_spec(action@, audio.connection),
{
    match action {
        SettingsAction::RegionNLanguage { locale, timezone } => AppAction::SetLocaleTimezone { locale, timezone },
        SettingsAction::ShowErrorPopup { message } => AppAction::ShowError { message },
        SettingsAction::OpenWireGuard { vm } => open_wireguard(&vm),
        SettingsAction::CheckForUpdateRequest { reference, auth_mode, insecure } => AppAction::CheckForUpdate {
            reference,
            auth_mode,
            insecure,
        },
        SettingsAction::DownloadUpdateRequest { reference, auth_mode, insecure } => AppAction::DownloadUpdate {
            reference,
            auth_mode,
            insecure,
        },
        SettingsAction::UpdateRequest => AppAction::Update,
        SettingsAction::Speaker { id, dev_type } | SettingsAction::Mic { id, dev_type } => {
            let (step, call) = audio.set_default_device(id, dev_type.to_repr());
            AppAction::Audio { step, call }
        },
        SettingsAction::SpeakerMute { id, dev_type, muted } | SettingsAction::MicMute { id, dev_type, muted } => {
            let (step, call) = audio.set_device_mute(id, dev_type.to_repr(), muted);
            AppAction::Audio { step, call }
        },
        SettingsAction::SpeakerVolume { id, dev_type, volume } | SettingsAction::MicVolume { id, dev_type, volume } => {
            let (step, call) = audio.set_device_volume(id, dev_type.to_repr(), volume);
            AppAction::Audio { step, call }
        },
        SettingsAction::OpenAdvancedAudioSettingsWidget => {
            let (step, call) = audio.open_advanced_settings_widget();
            AppAction::Audio { step, call }
        },
    }
}

/// The commands that set the locale and then the time zone.
pub fn set_locale_timezone(locale: String, timezone: String) -> (r: (AdminCommand, AdminCommand))
    ensures
        r.0@ == (AdminCommandV::SetLocale { locale: locale@ }),
        r.1@ == (AdminCommandV::SetTimezone { timezone: timezone@ }),
{
    (AdminCommand::SetLocale { locale }, AdminCommand::SetTimezone { timezone })
}

/// The address of the admin service.
pub struct ConnectionSettings {
    pub address: String,
    pub port: u16,
}

/// The address of the admin service when none is given.
pub open spec fn default_address() -> Seq<char> {
    "192.168.101.10"@
}

/// The port of the admin service when none is given.
pub const ADMIN_SERVICE_PORT: u16 = 9001;

impl ConnectionSettings {
    /// The address and port given on the command line, or the defaults.
    pub fn new(addr: Option<String>, port: Option<u16>) -> (r: Self)
        ensures
            r.address@ == match addr {
                Some(a) => a@,
                None => default_address(),
            },
            r.port == match port {
                Some(p) => p,
                None => ADMIN_SERVICE_PORT,
            },
    {
        let address = match addr {
            Some(a) => a,
            None => owned("192.168.101.10"),
        };
        let port = match port {
            Some(p) => p,
            None => ADMIN_SERVICE_PORT,
        };
        ConnectionSettings { address, port }
    }

    pub fn set_address(&mut self, address: String)
        ensures
            final(self).address@ == address@,
            final(self).port == old(self).port,
    {
        self.address = address;
    }

    /// A port that does not fit in 16 bits is taken as no port.
    pub fn set_port(&mut self, port: u32)
        ensures
            final(self).address@ == old(self).address@,
            final(self).port == (if port <= u16::MAX {
                port as u16
            } else {
                0u16
            }),
    {
        self.port = if port <= 65535 {
            port as u16
        } else {
            0
        };
    }

    pub fn get_port(&self) -> (r: u32)
        ensures
            r == self.port,
    {
        self.port as u32
    }

    /// A link is made only to a given address and a given port.
    pub fn can_connect(&self) -> (r: bool)
        ensures
            r == (self.address@.len() > 0 && self.port != 0),
    {
        !self.address.as_str().is_empty() && self.port != 0
    }
}

/// Memory figures of a VM.
#[derive(Debug, Clone, Copy, PartialEq, Eq, Structural)]
pub struct MemoryStats {
    pub total: u64,
    pub available: u64,
    pub free: u64,
}

/// Processor figures of a VM.
#[derive(Debug, Clone, Copy, PartialEq, Eq, Structural)]
pub struct ProcessStats {
    pub user_cycles: u64,
    pub sys_cycles: u64,
    pub total_cycles: u64,
}

/// The figures of a VM.
#[derive(Debug, Clone, Copy, PartialEq, Eq, Structural)]
pub struct StatsResponse {
    pub memory: Option<MemoryStats>,
    pub process: Option<ProcessStats>,
}

/// The figures the panel shows when it runs without the admin service.
pub fn mock_stats() -> (r: StatsResponse)
    ensures
        r == (StatsResponse {
            memory: Some(MemoryStats { total: 200_000_000, available: 100_000_000, free: 50_000_000 }),
            process: Some(ProcessStats { user_cycles: 100_000, sys_cycles: 50_000, total_cycles: 200_000 }),
        }),
{
    StatsResponse {
        memory: Some(MemoryStats { total: 200_000_000, available: 100_000_000, free: 50_000_000 }),
        process: Some(ProcessStats { user_cycles: 100_000, sys_cycles: 50_000, total_cycles: 200_000 }),
    }
}

/// Used and needed memory of a VM: total less free, total less available, when the
/// figures are consistent.
pub fn memory_used_needed(m: MemoryStats) -> (r: Option<(u64, u64)>)
    ensures
        r == (if m.free <= m.total && m.available <= m.total {
            Some(((m.total - m.free) as u64, (m.total - m.available) as u64))
        } else {
            None::<(u64, u64)>
        }),
{
    if m.free <= m.total && m.available <= m.total {
        Some((m.total - m.free, m.total - m.available))
    } else {
        None
    }
}

/// The services the panel shows when it runs without the admin service.
pub fn mock_services(wireguard: &WireGuardVMs) -> (r: Vec<ServiceData>)
    ensures
        r@.len() == 5,
        r@[0]@ == service_spec("microvm@zathura-vm.service"@, "This is the file.pdf and very very long description"@,
            VMStatus::Running, TrustLevel::NotSecure, ServiceType::VM, Some("zathura-vm"@), VmType::AppVM, wireguard@),
        r@[1]@ == service_spec("zathura@1.service"@, "Zathura"@, VMStatus::Paused, TrustLevel::Secure,
            ServiceType::App, Some("zathura-vm"@), VmType::AppVM, wireguard@),
        r@[2]@ == service_spec("chrome@1.service"@, "Google Chrome"@, VMStatus::Paused, TrustLevel::Secure,
            ServiceType::App, Some("TestVM"@), VmType::AppVM, wireguard@),
        r@[3]@ == service_spec("appflowy@1.service"@, "AppFlowy"@, VMStatus::Running, TrustLevel::Secure,
            ServiceType::Svc, Some("appflowy-vm"@), VmType::AppVM, wireguard@),
        r@[4]@ == service_spec("microvm@admin-vm.service"@, "AdminVM"@, VMStatus::Running, TrustLevel::Secure,
            ServiceType::VM, Some("admin-vm"@), VmType::AdmVM, wireguard@),
{
    let mut v: Vec<ServiceData> = Vec::new();
    v.push(ServiceData::new("microvm@zathura-vm.service", "This is the file.pdf and very very long description",
        VMStatus::Running, TrustLevel::NotSecure, ServiceType::VM, Some("zathura-vm"), VmType::AppVM, wireguard));
    v.push(ServiceData::new("zathura@1.service", "Zathura", VMStatus::Paused, TrustLevel::Secure,
        ServiceType::App, Some("zathura-vm"), VmType::AppVM, wireguard));
    v.push(ServiceData::new("chrome@1.service", "Google Chrome", VMStatus::Paused, TrustLevel::Secure,
        ServiceType::App, Some("TestVM"), VmType::AppVM, wireguard));
    v.push(ServiceData::new("appflowy@1.service", "AppFlowy", VMStatus::Running, TrustLevel::Secure,
        ServiceType::Svc, Some("appflowy-vm"), VmType::AppVM, wireguard));
    v.push(ServiceData::new("microvm@admin-vm.service", "AdminVM", VMStatus::Running, TrustLevel::Secure,
        ServiceType::VM, Some("admin-vm"), VmType::AdmVM, wireguard));
    v
}

/// What the admin service answered a command with.
pub enum Response {
    Empty,
    Stats(StatsResponse),
    Start,
    SysinfoStatus(HostSysinfoStatus),
    RegistryUpdates(Vec<AvailableUpdate>),
    RegistryChangelog(String),
    RegistryPullResult(String),
    Error(String),
}

/// Which answer a command waits for.
#[derive(Debug, Clone, Copy, PartialEq, Eq, Structural)]
pub enum Expected {
    Empty,
    Stats,
    Start,
    SysinfoStatus,
    RegistryUpdates,
    RegistryChangelog,
    RegistryPullResult,
}

/// The answer is of the kind expected.
pub open spec fn answers(r: Response, e: Expected) -> bool {
    match (r, e) {
        (Response::Empty, Expected::Empty) => true,
        (Response::Stats(_), Expected::Stats) => true,
        (Response::Start, Expected::Start) => true,
        (Response::SysinfoStatus(_), Expected::SysinfoStatus) => true,
        (Response::RegistryUpdates(_), Expected::RegistryUpdates) => true,
        (Response::RegistryChangelog(_), Expected::RegistryChangelog) => true,
        (Response::RegistryPullResult(_), Expected::RegistryPullResult) => true,
        _ => false,
    }
}

impl Response {
    /// The answer when it is of the kind expected; the failure that came back, or
    /// "Unexpected response" for an answer of another kind.
    pub fn expect(self, e: Expected) -> (r: Result<Response, String>)
        ensures
            match self {
                Response::Error(m) => r matches Err(x) && x@ == m@,
                _ => if answers(self, e) {
                    r is Ok
                } else {
                    r matches Err(x) && x@ == "Unexpected response"@
                },
            },
            r matches Ok(v) ==> v == self,
    {
        match self {
            Response::Error(m) => Err(m),
            _ => {
                let ok = match (&self, e) {
                    (Response::Empty, Expected::Empty) => true,
                    (Response::Stats(_), Expected::Stats) => true,
                    (Response::Start, Expected::Start) => true,
                    (Response::SysinfoStatus(_), Expected::SysinfoStatus) => true,
                    (Response::RegistryUpdates(_), Expected::RegistryUpdates) => true,
                    (Response::RegistryChangelog(_), Expected::RegistryChangelog) => true,
                    (Response::RegistryPullResult(_), Expected::RegistryPullResult) => true,
                    _ => false,
                };
                if ok {
                    Ok(self)
                } else {
                    Err(owned("Unexpected response"))
                }
            },
        }
    }

    /// The figures of a `Stats` answer.
    pub fn into_stats(self) -> (r: Result<StatsResponse, String>)
        ensures
            match self {
                Response::Stats(s) => r == Ok::<StatsResponse, String>(s),
                Response::Error(m) => r matches Err(x) && x@ == m@,
                _ => r matches Err(x) && x@ == "Unexpected response"@,
            },
    {
        match self {
            Response::Stats(s) => Ok(s),
            Response::Error(m) => Err(m),
            _ => Err(owned("Unexpected response")),
        }
    }

    /// The status of a `SysinfoStatus` answer.
    pub fn into_sysinfo(self) -> (r: Result<HostSysinfoStatus, String>)
        ensures
            match self {
                Response::SysinfoStatus(s) => r matches Ok(x) && x == s,
                Response::Error(m) => r matches Err(x) && x@ == m@,
                _ => r matches Err(x) && x@ == "Unexpected response"@,
            },
    {
        match self {
            Response::SysinfoStatus(s) => Ok(s),
            Response::Error(m) => Err(m),
            _ => Err(owned("Unexpected response")),
        }
    }

    /// The text of a `RegistryChangelog` answer.
    pub fn into_changelog(self) -> (r: Result<String, String>)
        ensures
            match self {
                Response::RegistryChangelog(c) => r matches Ok(x) && x@ == c@,
                Response::Error(m) => r matches Err(x) && x@ == m@,
                _ => r matches Err(x) && x@ == "Unexpected response"@,
            },
    {
        match self {
            Response::RegistryChangelog(c) => Ok(c),
            Response::Error(m) => Err(m),
            _ => Err(owned("Unexpected response")),
        }
    }

    /// An `Empty` answer.
    pub fn into_empty(self) -> (r: Result<(), String>)
        ensures
            match self {
                Response::Empty => r is Ok,
                Response::Error(m) => r matches Err(x) && x@ == m@,
                _ => r matches Err(x) && x@ == "Unexpected response"@,
            },
    {
        match self {
            Response::Empty => Ok(()),
            Response::Error(m) => Err(m),
            _ => Err(owned("Unexpected response")),
        }
    }
}

/// Every control of a service but a restart yields a command; a restart is refused.
pub proof fn law_controls_yield_commands(action: ControlAction, s: ServiceV)
    ensures
        control_spec(action, s) is Err <==> action == ControlAction::Restart,
        action == ControlAction::Restart ==> control_spec(action, s) == Err::<AdminCommandV, CommandError>(
            CommandError::NotImplemented,
        ),
{
}


/// Pausing, resuming and stopping address the service by its own unit name, whatever VM it
/// runs in; a restart is refused as not implemented.
pub proof fn law_controls_address_unit(s: ServiceV)
    ensures
        control_spec(ControlAction::Pause, s) matches Ok(AdminCommandV::Pause { name }) && name == s.name,
        control_spec(ControlAction::Resume, s) matches Ok(AdminCommandV::Resume { name }) && name == s.name,
        control_spec(ControlAction::Shutdown, s) matches Ok(AdminCommandV::Stop { name }) && name == s.name,
        control_spec(ControlAction::Restart, s) == Err::<AdminCommandV, CommandError>(CommandError::NotImplemented),
{
}


/// Starting a VM starts it by its VM name; an application is started by its name in its VM,
/// with no arguments; any other service by its unit name in its VM.
pub proof fn law_start_addresses(s: ServiceV)
    ensures
        s.is_vm ==> control_spec(ControlAction::Start, s) == Ok::<AdminCommandV, CommandError>(
            AdminCommandV::StartVm { vm: s.vm_name },
        ),
        !s.is_vm && s.is_app ==> (control_spec(ControlAction::Start, s) matches Ok(
            AdminCommandV::StartApp { app, vm, args },
        ) && app == s.display_name && vm == s.vm_name && args.len() == 0),
        !s.is_vm && !s.is_app ==> (control_spec(ControlAction::Start, s) matches Ok(
            AdminCommandV::StartService { name, vm },
        ) && name == s.name && vm == s.vm_name),
{
}

} // verus!
