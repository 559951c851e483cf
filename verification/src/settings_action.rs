//! Requests that the settings pages hand to the application, and the credentials they
//! carry for the update server.
use vstd::prelude::*;
use crate::service::{ServiceData, ServiceV};
use crate::status::AudioDeviceType;

verus! {

/// How the panel signs in to the update server.
pub enum UpdateServerAuthMode {
    Anonymous,
    UserPass { username: String, password: String },
    OAuth { token: String },
}

/// A sign-in mode as a mathematical value.
pub enum AuthModeV {
    Anonymous,
    UserPass { username: Seq<char>, password: Seq<char> },
    OAuth { token: Seq<char> },
}

impl View for UpdateServerAuthMode {
    type V = AuthModeV;

    open spec fn view(&self) -> AuthModeV {
        match self {
            UpdateServerAuthMode::Anonymous => AuthModeV::Anonymous,
            UpdateServerAuthMode::UserPass { username, password } => AuthModeV::UserPass {
                username: username@,
                password: password@,
            },
            UpdateServerAuthMode::OAuth { token } => AuthModeV::OAuth { token: token@ },
        }
    }
}

impl UpdateServerAuthMode {
    /// A copy of the mode.
    pub fn duplicate(&self) -> (r: Self)
        ensures
            r@ == self@,
    {
        match self {
            UpdateServerAuthMode::Anonymous => UpdateServerAuthMode::Anonymous,
            UpdateServerAuthMode::UserPass { username, password } => UpdateServerAuthMode::UserPass {
                username: username.clone(),
                password: password.clone(),
            },
            UpdateServerAuthMode::OAuth { token } => UpdateServerAuthMode::OAuth {
                token: token.clone(),
            },
        }
    }
}

/// What the settings pages ask the application to do.
pub enum SettingsAction {
    RegionNLanguage { locale: String, timezone: String },
    ShowErrorPopup { message: String },
    OpenWireGuard { vm: ServiceData },
    CheckForUpdateRequest { reference: String, auth_mode: UpdateServerAuthMode, insecure: bool },
    DownloadUpdateRequest { reference: String, auth_mode: UpdateServerAuthMode, insecure: bool },
    UpdateRequest,
    /// The output device to use by default.
    Speaker { id: i32, dev_type: AudioDeviceType },
    SpeakerMute { id: i32, dev_type: AudioDeviceType, muted: bool },
    SpeakerVolume { id: i32, dev_type: AudioDeviceType, volume: i32 },
    /// The input device to use by default.
    Mic { id: i32, dev_type: AudioDeviceType },
    MicMute { id: i32, dev_type: AudioDeviceType, muted: bool },
    MicVolume { id: i32, dev_type: AudioDeviceType, volume: i32 },
    OpenAdvancedAudioSettingsWidget,
}

/// A request as a mathematical value.
pub enum SettingsActionV {
    RegionNLanguage { locale: Seq<char>, timezone: Seq<char> },
    ShowErrorPopup { message: Seq<char> },
    OpenWireGuard { vm: ServiceV },
    CheckForUpdateRequest { reference: Seq<char>, auth_mode: AuthModeV, insecure: bool },
    DownloadUpdateRequest { reference: Seq<char>, auth_mode: AuthModeV, insecure: bool },
    UpdateRequest,
    Speaker { id: i32, dev_type: AudioDeviceType },
    SpeakerMute { id: i32, dev_type: AudioDeviceType, muted: bool },
    SpeakerVolume { id: i32, dev_type: AudioDeviceType, volume: i32 },
    Mic { id: i32, dev_type: AudioDeviceType },
    MicMute { id: i32, dev_type: AudioDeviceType, muted: bool },
    MicVolume { id: i32, dev_type: AudioDeviceType, volume: i32 },
    OpenAdvancedAudioSettingsWidget,
}

impl View for SettingsAction {
    type V = SettingsActionV;

    open spec fn view(&self) -> SettingsActionV {
        match self {
            SettingsAction::RegionNLanguage { locale, timezone } => SettingsActionV::RegionNLanguage {
                locale: locale@,
                timezone: timezone@,
            },
            SettingsAction::ShowErrorPopup { message } => SettingsActionV::ShowErrorPopup {
                message: message@,
            },
            SettingsAction::OpenWireGuard { vm } => SettingsActionV::OpenWireGuard { vm: vm@ },
            SettingsAction::CheckForUpdateRequest { reference, auth_mode, insecure } =>
                SettingsActionV::CheckForUpdateRequest {
                reference: reference@,
                auth_mode: auth_mode@,
                insecure: *insecure,
            },
            SettingsAction::DownloadUpdateRequest { reference, auth_mode, insecure } =>
                SettingsActionV::DownloadUpdateRequest {
                reference: reference@,
                auth_mode: auth_mode@,
                insecure: *insecure,
            },
            SettingsAction::UpdateRequest => SettingsActionV::UpdateRequest,
            SettingsAction::Speaker { id, dev_type } => SettingsActionV::Speaker { id: *id, dev_type: *dev_type },
            SettingsAction::SpeakerMute { id, dev_type, muted } => SettingsActionV::SpeakerMute {
                id: *id,
                dev_type: *dev_type,
                muted: *muted,
            },
            SettingsAction::SpeakerVolume { id, dev_type, volume } => SettingsActionV::SpeakerVolume {
                id: *id,
                dev_type: *dev_type,
                volume: *volume,
            },
            SettingsAction::Mic { id, dev_type } => SettingsActionV::Mic { id: *id, dev_type: *dev_type },
            SettingsAction::MicMute { id, dev_type, muted } => SettingsActionV::MicMute {
                id: *id,
                dev_type: *dev_type,
                muted: *muted,
            },
            SettingsAction::MicVolume { id, dev_type, volume } => SettingsActionV::MicVolume {
                id: *id,
                dev_type: *dev_type,
                volume: *volume,
            },
            SettingsAction::OpenAdvancedAudioSettingsWidget => SettingsActionV::OpenAdvancedAudioSettingsWidget,
        }
    }
}

} // verus!
