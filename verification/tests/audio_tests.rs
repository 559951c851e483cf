use ctrl_panel::audio::{
    AudioCall, AudioControl, AudioDeviceData, AudioRequest, AudioSettings, ConnectionState, DeviceUpdate, ProxyStep,
};
use ctrl_panel::status::AudioDeviceType;

fn upd(id: i32, t: i32, name: &str, volume: i32, event: i32) -> DeviceUpdate {
    DeviceUpdate {
        id,
        device_type: t,
        name: name.to_string(),
        volume,
        is_muted: false,
        is_default: false,
        event,
    }
}

fn ids(c: &AudioControl) -> Vec<(i32, AudioDeviceType)> {
    c.get_devices_list().iter().map(|d| (d.id, d.dev_type)).collect()
}

#[test]
fn device_added_updated_removed() {
    let mut c = AudioControl::new();
    assert_eq!(c.connection, ConnectionState::Connecting);
    c.apply_device_update(upd(1, 0, "Speakers", 50, 0));
    c.apply_device_update(upd(1, 1, "Mic", 70, 0));
    assert_eq!(ids(&c), vec![(1, AudioDeviceType::Sink), (1, AudioDeviceType::Source)]);
    c.apply_device_update(upd(1, 1, "Mic 2", 20, 1));
    assert_eq!(c.devices[1].name, "Mic 2");
    assert_eq!(c.devices[1].volume, 20);
    assert_eq!(c.devices[0].name, "Speakers");
    c.apply_device_update(upd(1, 0, "Speakers", 0, 2));
    assert_eq!(ids(&c), vec![(1, AudioDeviceType::Source)]);
}

#[test]
fn monitors_and_unknown_events_ignored() {
    let mut c = AudioControl::new();
    c.apply_device_update(upd(3, 0, "Built-in Audio MONITOR", 50, 0));
    c.apply_device_update(upd(4, 0, "Speakers", 50, 7));
    c.apply_device_update(upd(5, 9, "Odd kind", 50, 0));
    assert!(c.devices.is_empty());
    c.apply_device_update(upd(4, 0, "Speakers", 50, 1));
    assert!(c.devices.is_empty());
}

#[test]
fn mock_devices_and_selection() {
    let mut c = AudioControl::new();
    c.fill_by_mock_data();
    assert_eq!(c.devices.len(), 4);
    let sel = AudioSettings::set_audio_devices(&c.devices);
    let speakers: Vec<&str> = sel.speakers.iter().map(|d| d.name.as_str()).collect();
    let mics: Vec<&str> = sel.mics.iter().map(|d| d.name.as_str()).collect();
    assert_eq!(speakers, vec!["Speakers", "Headphones"]);
    assert_eq!(mics, vec!["Microphone", "External Mic"]);
    assert_eq!(sel.speaker_selected, Some(1));
    assert_eq!(sel.mic_selected, Some(0));
    assert!(sel.mics[0].is_source());
}

#[test]
fn no_default_device() {
    let devs = vec![AudioDeviceData::new(1, AudioDeviceType::Sink, "a".into(), 1, false, false)];
    assert_eq!(AudioSettings::default_position(&devs), None);
    assert!(AudioSettings::devices_of_type(&devs, AudioDeviceType::Source).is_empty());
}

#[test]
fn device_update_keeps_id() {
    let mut d = AudioDeviceData::default();
    assert_eq!(d.name, "default");
    d.update(AudioDeviceType::Source, "x".into(), 9, true, true);
    assert_eq!(d.id, 0);
    assert!(d.is_source() && d.muted && d.is_default);
}

#[test]
fn volume_and_mute_requests() {
    let d = AudioDeviceData::new(2, AudioDeviceType::Sink, "a".into(), 40, false, true);
    assert_eq!(
        AudioSettings::volume_changed(Some(&d), 60),
        Some(AudioRequest::SetVolume { id: 2, dev_type: AudioDeviceType::Sink, value: 60 })
    );
    assert_eq!(AudioSettings::volume_changed(Some(&d), 40), None);
    assert_eq!(AudioSettings::volume_changed(None, 40), None);
    assert_eq!(
        AudioSettings::mute_changed(Some(&d), true),
        Some(AudioRequest::SetMute { id: 2, dev_type: AudioDeviceType::Sink, mute: true })
    );
    assert_eq!(AudioSettings::mute_changed(Some(&d), false), None);
}

#[test]
fn connection_steps() {
    assert_eq!(ConnectionState::after_connect(true, true), ConnectionState::Connected);
    assert_eq!(ConnectionState::after_connect(true, false), ConnectionState::Disconnected);
    assert_eq!(ConnectionState::after_connect(false, true), ConnectionState::Disconnected);
    assert_eq!(ConnectionState::Connected.step(), ProxyStep::Send);
    assert_eq!(ConnectionState::Connecting.step(), ProxyStep::Wait);
    assert_eq!(ConnectionState::Disconnected.step(), ProxyStep::Drop);
    assert!(ConnectionState::Connected.proxy());
    assert!(!ConnectionState::default().proxy());
}

#[test]
fn audio_service_calls() {
    let mut c = AudioControl::new();
    assert_eq!(c.set_device_volume(1, 0, 30), (ProxyStep::Wait, AudioCall::SetDeviceVolume { id: 1, dev_type: 0, value: 30 }));
    c.connection = ConnectionState::Connected;
    assert_eq!(c.set_device_mute(2, 1, true), (ProxyStep::Send, AudioCall::SetDeviceMute { id: 2, dev_type: 1, mute: true }));
    assert_eq!(c.set_default_device(2, 1), (ProxyStep::Send, AudioCall::MakeDeviceDefault { id: 2, dev_type: 1 }));
    c.connection = ConnectionState::Disconnected;
    assert_eq!(c.open_advanced_settings_widget(), (ProxyStep::Drop, AudioCall::Open));
    assert_eq!(c.unsubscribe_from_updates().1, AudioCall::UnsubscribeFromDeviceUpdatedSignal);
}
