use ctrl_panel::status::{
    AudioDeviceType, ControlAction, SecurityIcon, StatusIcon, TrustLevel, VMControlAction, VMStatus,
};

#[test]
fn trust_level_icons() {
    assert_eq!(TrustLevel::Secure.icon(), "/org/gnome/controlpanelgui/icons/security_well.svg");
    assert_eq!(TrustLevel::Warning.icon(), "/org/gnome/controlpanelgui/icons/security_attention.svg");
    assert_eq!(TrustLevel::NotSecure.icon(), "/org/gnome/controlpanelgui/icons/security_alert.svg");
}

#[test]
fn trust_level_default_is_warning() {
    assert_eq!(TrustLevel::default(), TrustLevel::Warning);
}

#[test]
fn vm_status_icons_and_names() {
    assert_eq!(VMStatus::Running.icon(), "/org/gnome/controlpanelgui/icons/ellipse_green.svg");
    assert_eq!(VMStatus::PoweredOff.icon(), "/org/gnome/controlpanelgui/icons/ellipse_yellow.svg");
    assert_eq!(VMStatus::Paused.icon(), "/org/gnome/controlpanelgui/icons/ellipse_red.svg");
    assert_eq!(VMStatus::PoweredOff.as_str(), "Powered off");
    assert_eq!(VMStatus::default(), VMStatus::PoweredOff);
}

#[test]
fn security_icon_label_and_resource() {
    let icon = SecurityIcon::new(TrustLevel::NotSecure);
    assert!(!icon.show_label);
    assert_eq!(icon.label(), "Security alert!");
    assert_eq!(icon.resource(), "/ae/tii/ghaf/controlpanelgui/icons/security_alert.svg");
    assert_eq!(SecurityIcon::new(TrustLevel::Secure).label(), "Secure!");
    assert_eq!(SecurityIcon::new(TrustLevel::Warning).label(), "Security warning!");
}

#[test]
fn status_icon_label_and_resource() {
    let icon = StatusIcon { vm_status: VMStatus::Paused };
    assert_eq!(icon.label(), "Paused");
    assert_eq!(icon.resource(), "/ae/tii/ghaf/controlpanelgui/icons/ellipse_red.svg");
}

#[test]
fn control_action_numbers_round_trip() {
    for a in [
        VMControlAction::Start,
        VMControlAction::Restart,
        VMControlAction::Pause,
        VMControlAction::Resume,
        VMControlAction::Shutdown,
    ] {
        assert_eq!(VMControlAction::from_value(a.to_value()), a);
    }
    assert_eq!(VMControlAction::Shutdown.to_value(), 4);
    let _ = ControlAction::Start;
}

#[test]
fn audio_device_type_numbers() {
    assert_eq!(AudioDeviceType::from_repr(1), Some(AudioDeviceType::Source));
    assert_eq!(AudioDeviceType::from_repr(4), None);
    assert_eq!(AudioDeviceType::from_repr(-1), None);
    assert_eq!(AudioDeviceType::SourceOutput.to_repr(), 3);
    assert_eq!(AudioDeviceType::SinkInput.as_str(), "SinkInput");
    assert_eq!(AudioDeviceType::default(), AudioDeviceType::Sink);
}

