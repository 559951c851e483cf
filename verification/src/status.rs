//! Trust levels, run states and control actions of services, with the icons and labels
//! that stand for them.
use vstd::prelude::*;

verus! {

/// How far a service is trusted.
#[derive(Debug, Clone, Copy, PartialEq, Eq, Structural)]
pub enum TrustLevel {
    Secure,
    Warning,
    NotSecure,
}

impl Default for TrustLevel {
    fn default() -> (r: Self)
        ensures
            r == TrustLevel::Warning,
    {
        TrustLevel::Warning
    }
}

impl TrustLevel {
    /// The icon resource of the level.
    pub fn icon(self) -> (r: &'static str)
        ensures
            r@ == match self {
                TrustLevel::Warning => "/org/gnome/controlpanelgui/icons/security_attention.svg"@,
                TrustLevel::NotSecure => "/org/gnome/controlpanelgui/icons/security_alert.svg"@,
                TrustLevel::Secure => "/org/gnome/controlpanelgui/icons/security_well.svg"@,
            },
    {
        match self {
            TrustLevel::Warning => "/org/gnome/controlpanelgui/icons/security_attention.svg",
            TrustLevel::NotSecure => "/org/gnome/controlpanelgui/icons/security_alert.svg",
            TrustLevel::Secure => "/org/gnome/controlpanelgui/icons/security_well.svg",
        }
    }
}

/// The run state of a service.
#[derive(Debug, Clone, Copy, PartialEq, Eq, Structural)]
pub enum VMStatus {
    Running,
    PoweredOff,
    Paused,
}

impl Default for VMStatus {
    fn default() -> (r: Self)
        ensures
            r == VMStatus::PoweredOff,
    {
        VMStatus::PoweredOff
    }
}

impl VMStatus {
    /// The icon resource of the state.
    pub fn icon(self) -> (r: &'static str)
        ensures
            r@ == match self {
                VMStatus::Running => "/org/gnome/controlpanelgui/icons/ellipse_green.svg"@,
                VMStatus::PoweredOff => "/org/gnome/controlpanelgui/icons/ellipse_yellow.svg"@,
                VMStatus::Paused => "/org/gnome/controlpanelgui/icons/ellipse_red.svg"@,
            },
    {
        match self {
            VMStatus::Running => "/org/gnome/controlpanelgui/icons/ellipse_green.svg",
            VMStatus::PoweredOff => "/org/gnome/controlpanelgui/icons/ellipse_yellow.svg",
            VMStatus::Paused => "/org/gnome/controlpanelgui/icons/ellipse_red.svg",
        }
    }

    /// The name of the state as it is shown and logged.
    pub fn as_str(self) -> (r: &'static str)
        ensures
            r@ == match self {
                VMStatus::Running => "Running"@,
                VMStatus::PoweredOff => "Powered off"@,
                VMStatus::Paused => "Paused"@,
            },
    {
        match self {
            VMStatus::Running => "Running",
            VMStatus::PoweredOff => "Powered off",
            VMStatus::Paused => "Paused",
        }
    }
}

/// The icon and label that show a trust level.
#[derive(Debug, Clone, Copy, PartialEq, Eq, Structural)]
pub struct SecurityIcon {
    pub trust_level: TrustLevel,
    pub show_label: bool,
}

impl SecurityIcon {
    /// An icon for `trust_level`, without its label.
    pub fn new(trust_level: TrustLevel) -> (r: Self)
        ensures
            r.trust_level == trust_level,
            !r.show_label,
    {
        SecurityIcon { trust_level, show_label: false }
    }

    /// The image resource shown for the level.
    pub fn resource(&self) -> (r: &'static str)
        ensures
            r@ == match self.trust_level {
                TrustLevel::Warning => "/ae/tii/ghaf/controlpanelgui/icons/security_attention.svg"@,
                TrustLevel::NotSecure => "/ae/tii/ghaf/controlpanelgui/icons/security_alert.svg"@,
                TrustLevel::Secure => "/ae/tii/ghaf/controlpanelgui/icons/security_well.svg"@,
            },
    {
        match self.trust_level {
            TrustLevel::Warning => "/ae/tii/ghaf/controlpanelgui/icons/security_attention.svg",
            TrustLevel::NotSecure => "/ae/tii/ghaf/controlpanelgui/icons/security_alert.svg",
            TrustLevel::Secure => "/ae/tii/ghaf/controlpanelgui/icons/security_well.svg",
        }
    }

    /// The text shown beside the image.
    pub fn label(&self) -> (r: &'static str)
        ensures
            r@ == match self.trust_level {
                TrustLevel::Secure => "Secure!"@,
                TrustLevel::Warning => "Security warning!"@,
                TrustLevel::NotSecure => "Security alert!"@,
            },
    {
        match self.trust_level {
            TrustLevel::Secure => "Secure!",
            TrustLevel::Warning => "Security warning!",
            TrustLevel::NotSecure => "Security alert!",
        }
    }
}

/// The dot and label that show a run state.
#[derive(Debug, Clone, Copy, PartialEq, Eq, Structural)]
pub struct StatusIcon {
    pub vm_status: VMStatus,
}

impl StatusIcon {
    /// The image resource shown for the state.
    pub fn resource(&self) -> (r: &'static str)
        ensures
            r@ == match self.vm_status {
                VMStatus::Running => "/ae/tii/ghaf/controlpanelgui/icons/ellipse_green.svg"@,
                VMStatus::PoweredOff => "/ae/tii/ghaf/controlpanelgui/icons/ellipse_yellow.svg"@,
                VMStatus::Paused => "/ae/tii/ghaf/controlpanelgui/icons/ellipse_red.svg"@,
            },
    {
        match self.vm_status {
            VMStatus::Running => "/ae/tii/ghaf/controlpanelgui/icons/ellipse_green.svg",
            VMStatus::PoweredOff => "/ae/tii/ghaf/controlpanelgui/icons/ellipse_yellow.svg",
            VMStatus::Paused => "/ae/tii/ghaf/controlpanelgui/icons/ellipse_red.svg",
        }
    }

    /// The text shown beside the image.
    pub fn label(&self) -> (r: &'static str)
        ensures
            r@ == match self.vm_status {
                VMStatus::Running => "Running"@,
                VMStatus::PoweredOff => "Powered off"@,
                VMStatus::Paused => "Paused"@,
            },
    {
        match self.vm_status {
            VMStatus::Running => "Running",
            VMStatus::PoweredOff => "Powered off",
            VMStatus::Paused => "Paused",
        }
    }
}

/// What a user can ask of a service.
#[derive(Debug, Clone, Copy, PartialEq, Eq, Structural)]
pub enum ControlAction {
    Start,
    Restart,
    Pause,
    Resume,
    Shutdown,
}

/// The same actions as [`ControlAction`], passed around as a number.
#[derive(Debug, Clone, Copy, PartialEq, Eq, Structural)]
pub enum VMControlAction {
    Start,
    Restart,
    Pause,
    Resume,
    Shutdown,
}

/// The number that carries an action.
pub open spec fn action_code(a: VMControlAction) -> u8 {
    match a {
        VMControlAction::Start => 0,
        VMControlAction::Restart => 1,
        VMControlAction::Pause => 2,
        VMControlAction::Resume => 3,
        VMControlAction::Shutdown => 4,
    }
}

impl VMControlAction {
    /// The number that carries the action.
    pub fn to_value(&self) -> (r: u8)
        ensures
            r == action_code(*self),
    {
        match self {
            VMControlAction::Start => 0,
            VMControlAction::Restart => 1,
            VMControlAction::Pause => 2,
            VMControlAction::Resume => 3,
            VMControlAction::Shutdown => 4,
        }
    }

    /// The action carried by `v`.
    pub fn from_value(v: u8) -> (r: Self)
        requires
            v <= 4,
        ensures
            action_code(r) == v,
    {
        match v {
            0 => VMControlAction::Start,
            1 => VMControlAction::Restart,
            2 => VMControlAction::Pause,
            3 => VMControlAction::Resume,
            _ => VMControlAction::Shutdown,
        }
    }
}

/// An action read back from its number is the action itself.
pub proof fn law_control_action_round_trip(a: VMControlAction)
    ensures
        action_code(a) <= 4,
        forall|b: VMControlAction| action_code(b) == action_code(a) ==> b == a,
{
}

/// The kind of an audio device.
#[derive(Debug, Clone, Copy, PartialEq, Eq, Structural)]
pub enum AudioDeviceType {
    Sink,
    Source,
    SinkInput,
    SourceOutput,
}

/// The number that stands for a device kind on the audio service.
pub open spec fn device_type_code(t: AudioDeviceType) -> i32 {
    match t {
        AudioDeviceType::Sink => 0,
        AudioDeviceType::Source => 1,
        AudioDeviceType::SinkInput => 2,
        AudioDeviceType::SourceOutput => 3,
    }
}

/// The device kind that the number `v` stands for, if any.
pub open spec fn device_type_of(v: i32) -> Option<AudioDeviceType> {
    if v == 0 {
        Some(AudioDeviceType::Sink)
    } else if v == 1 {
        Some(AudioDeviceType::Source)
    } else if v == 2 {
        Some(AudioDeviceType::SinkInput)
    } else if v == 3 {
        Some(AudioDeviceType::SourceOutput)
    } else {
        None
    }
}

impl Default for AudioDeviceType {
    fn default() -> (r: Self)
        ensures
            r == AudioDeviceType::Sink,
    {
        AudioDeviceType::Sink
    }
}

impl AudioDeviceType {
    /// The kind that the number `v` stands for, if any.
    pub fn from_repr(v: i32) -> (r: Option<Self>)
        ensures
            r == device_type_of(v),
            r matches Some(t) ==> device_type_code(t) == v,
            r is None <==> !(0 <= v <= 3),
    {
        match v {
            0 => Some(AudioDeviceType::Sink),
            1 => Some(AudioDeviceType::Source),
            2 => Some(AudioDeviceType::SinkInput),
            3 => Some(AudioDeviceType::SourceOutput),
            _ => None,
        }
    }

    /// The number that stands for the kind.
    pub fn to_repr(self) -> (r: i32)
        ensures
            r == device_type_code(self),
    {
        match self {
            AudioDeviceType::Sink => 0,
            AudioDeviceType::Source => 1,
            AudioDeviceType::SinkInput => 2,
            AudioDeviceType::SourceOutput => 3,
        }
    }

    /// The name of the kind.
    pub fn as_str(self) -> (r: &'static str)
        ensures
            r@ == match self {
                AudioDeviceType::Sink => "Sink"@,
                AudioDeviceType::Source => "Source"@,
                AudioDeviceType::SinkInput => "SinkInput"@,
                AudioDeviceType::SourceOutput => "SourceOutput"@,
            },
    {
        match self {
            AudioDeviceType::Sink => "Sink",
            AudioDeviceType::Source => "Source",
            AudioDeviceType::SinkInput => "SinkInput",
            AudioDeviceType::SourceOutput => "SourceOutput",
        }
    }
}

/// A device kind read back from its number is the kind itself.
pub proof fn law_device_type_round_trip(t: AudioDeviceType)
    ensures
        0 <= device_type_code(t) <= 3,
        forall|u: AudioDeviceType| device_type_code(u) == device_type_code(t) ==> u == t,
{
}

} // verus!
