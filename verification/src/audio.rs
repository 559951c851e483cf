//! Audio devices: the list that follows the updates of the audio service, and what the
//! audio page shows and asks of it.
use vstd::prelude::*;
use crate::status::{device_type_code, device_type_of, AudioDeviceType};
use crate::text::{contains_str, has_infix, lowercase_of, owned, to_lowercase};

verus! {

/// An audio device as the audio service reports it.
pub struct AudioDeviceData {
    pub id: i32,
    pub dev_type: AudioDeviceType,
    pub name: String,
    pub volume: i32,
    pub muted: bool,
    pub is_default: bool,
}

/// The list items of the audio page are plain device records.
pub type AudioDeviceGObject = AudioDeviceData;

/// The mathematical value of a device.
pub struct AudioDeviceV {
    pub id: i32,
    pub dev_type: AudioDeviceType,
    pub name: Seq<char>,
    pub volume: i32,
    pub muted: bool,
    pub is_default: bool,
}

impl View for AudioDeviceData {
    type V = AudioDeviceV;

    open spec fn view(&self) -> AudioDeviceV {
        AudioDeviceV {
            id: self.id,
            dev_type: self.dev_type,
            name: self.name@,
            volume: self.volume,
            muted: self.muted,
            is_default: self.is_default,
        }
    }
}

/// The views of a list of devices.
pub open spec fn dev_views(s: Seq<AudioDeviceData>) -> Seq<AudioDeviceV> {
    s.map_values(|d: AudioDeviceData| d@)
}

impl AudioDeviceData {
    pub fn new(
        id: i32,
        dev_type: AudioDeviceType,
        name: String,
        volume: i32,
        muted: bool,
        is_default: bool,
    ) -> (r: Self)
        ensures
            r@ == (AudioDeviceV { id, dev_type, name: name@, volume, muted, is_default }),
    {
        AudioDeviceData { id, dev_type, name, volume, muted, is_default }
    }

    /// Takes the reported state of the device; its id stays.
    pub fn update(
        &mut self,
        dev_type: AudioDeviceType,
        name: String,
        volume: i32,
        muted: bool,
        is_default: bool,
    )
        ensures
            final(self)@ == (AudioDeviceV {
                id: old(self).id,
                dev_type,
                name: name@,
                volume,
                muted,
                is_default,
            }),
    {
        self.dev_type = dev_type;
        self.name = name;
        self.volume = volume;
        self.muted = muted;
        self.is_default = is_default;
    }

    /// The device is an input.
    pub fn is_source(&self) -> (r: bool)
        ensures
            r == (self.dev_type == AudioDeviceType::Source),
    {
        match self.dev_type {
            AudioDeviceType::Source => true,
            _ => false,
        }
    }

    /// A copy of the device.
    pub fn duplicate(&self) -> (r: Self)
        ensures
            r@ == self@,
    {
        AudioDeviceData {
            id: self.id,
            dev_type: self.dev_type,
            name: owned(self.name.as_str()),
            volume: self.volume,
            muted: self.muted,
            is_default: self.is_default,
        }
    }
}

impl Default for AudioDeviceData {
    fn default() -> (r: Self)
        ensures
            r@ == (AudioDeviceV {
                id: 0,
                dev_type: AudioDeviceType::Sink,
                name: "default"@,
                volume: 0,
                muted: false,
                is_default: false,
            }),
    {
        AudioDeviceData {
            id: 0,
            dev_type: AudioDeviceType::Sink,
            name: owned("default"),
            volume: 0,
            muted: false,
            is_default: false,
        }
    }
}

/// A `DeviceUpdated` signal of the audio service. `event` is 0 for a device that came,
/// 1 for one that changed and 2 for one that went.
pub struct DeviceUpdate {
    pub id: i32,
    pub device_type: i32,
    pub name: String,
    pub volume: i32,
    pub is_muted: bool,
    pub is_default: bool,
    pub event: i32,
}

/// The mathematical value of a signal.
pub struct DeviceUpdateV {
    pub id: i32,
    pub device_type: i32,
    pub name: Seq<char>,
    pub volume: i32,
    pub is_muted: bool,
    pub is_default: bool,
    pub event: i32,
}

impl View for DeviceUpdate {
    type V = DeviceUpdateV;

    open spec fn view(&self) -> DeviceUpdateV {
        DeviceUpdateV {
            id: self.id,
            device_type: self.device_type,
            name: self.name@,
            volume: self.volume,
            is_muted: self.is_muted,
            is_default: self.is_default,
            event: self.event,
        }
    }
}

/// The device has the id and the kind number: the two together identify a device.
pub open spec fn same_device(d: AudioDeviceV, id: i32, code: i32) -> bool {
    d.id == id && device_type_code(d.dev_type) == code
}

/// The index of the first device with the id and the kind number.
pub open spec fn first_device(devs: Seq<AudioDeviceV>, id: i32, code: i32) -> Option<int>
    decreases devs.len(),
{
    if devs.len() == 0 {
        None
    } else if same_device(devs[0], id, code) {
        Some(0)
    } else {
        match first_device(devs.drop_first(), id, code) {
            Some(i) => Some(i + 1),
            None => None,
        }
    }
}

pub proof fn lemma_first_device(devs: Seq<AudioDeviceV>, id: i32, code: i32)
    ensures
        match first_device(devs, id, code) {
            Some(i) => 0 <= i < devs.len() && same_device(devs[i], id, code) && forall|j: int|
                0 <= j < i ==> !same_device(#[trigger] devs[j], id, code),
            None => forall|j: int| 0 <= j < devs.len() ==> !same_device(#[trigger] devs[j], id, code),
        },
    decreases devs.len(),
{
    if devs.len() > 0 && !same_device(devs[0], id, code) {
        let t = devs.drop_first();
        lemma_first_device(t, id, code);
        assert forall|j: int| 0 < j < devs.len() implies devs[j] == t[j - 1] by {}
    }
}

/// The device name is that of a monitor, which the page does not list.
pub open spec fn is_monitor_name(name: Seq<char>) -> bool {
    has_infix(lowercase_of(name), "monitor"@)
}

/// The device list after a signal: monitors are ignored; a device that came is appended
/// when its kind is known; one that changed takes the reported state, if it is listed; all
/// listed devices with the id and kind of one that went leave; other events change nothing.
pub open spec fn device_update_spec(devs: Seq<AudioDeviceV>, u: DeviceUpdateV) -> Seq<AudioDeviceV> {
    if is_monitor_name(u.name) {
        devs
    } else if u.event == 0 {
        match device_type_of(u.device_type) {
            Some(t) => devs.push(
                AudioDeviceV {
                    id: u.id,
                    dev_type: t,
                    name: u.name,
                    volume: u.volume,
                    muted: u.is_muted,
                    is_default: u.is_default,
                },
            ),
            None => devs,
        }
    } else if u.event == 1 {
        match (first_device(devs, u.id, u.device_type), device_type_of(u.device_type)) {
            (Some(i), Some(t)) => devs.update(
                i,
                AudioDeviceV {
                    id: devs[i].id,
                    dev_type: t,
                    name: u.name,
                    volume: u.volume,
                    muted: u.is_muted,
                    is_default: u.is_default,
                },
            ),
            _ => devs,
        }
    } else if u.event == 2 {
        devs.filter(|d: AudioDeviceV| !same_device(d, u.id, u.device_type))
    } else {
        devs
    }
}

/// A signal about a monitor leaves the device list as it was.
pub proof fn law_monitor_ignored(devs: Seq<AudioDeviceV>, u: DeviceUpdateV)
    requires
        is_monitor_name(u.name),
    ensures
        device_update_spec(devs, u) == devs,
{
}

/// Once a device went, no device with its id and kind is listed, and the others stay in
/// their order.
pub proof fn law_removed_device_gone(devs: Seq<AudioDeviceV>, u: DeviceUpdateV)
    requires
        !is_monitor_name(u.name),
        u.event == 2,
    ensures
        forall|j: int|
            0 <= j < device_update_spec(devs, u).len() ==> !same_device(
                #[trigger] device_update_spec(devs, u)[j],
                u.id,
                u.device_type,
            ),
        device_update_spec(devs, u) == devs.filter(|d: AudioDeviceV| !same_device(d, u.id, u.device_type)),
{
    let pred = |d: AudioDeviceV| !same_device(d, u.id, u.device_type);
    assert forall|j: int| 0 <= j < devs.filter(pred).len() implies !same_device(
        #[trigger] devs.filter(pred)[j],
        u.id,
        u.device_type,
    ) by {
        devs.lemma_filter_pred(pred, j);
    }
}

/// A change of a device keeps the list's length and the ids of its devices.
pub proof fn law_update_keeps_ids(devs: Seq<AudioDeviceV>, u: DeviceUpdateV)
    requires
        u.event == 1,
    ensures
        device_update_spec(devs, u).len() == devs.len(),
        forall|j: int| 0 <= j < devs.len() ==> (#[trigger] device_update_spec(devs, u)[j]).id == devs[j].id,
{
    lemma_first_device(devs, u.id, u.device_type);
}

/// A device that came is listed last, with the reported state.
pub proof fn law_added_device_last(devs: Seq<AudioDeviceV>, u: DeviceUpdateV)
    requires
        !is_monitor_name(u.name),
        u.event == 0,
        0 <= u.device_type <= 3,
    ensures
        device_update_spec(devs, u).len() == devs.len() + 1,
        device_update_spec(devs, u).drop_last() == devs,
        same_device(device_update_spec(devs, u).last(), u.id, u.device_type),
        device_update_spec(devs, u).last().name == u.name,
        device_update_spec(devs, u).last().volume == u.volume,
        device_update_spec(devs, u).last().muted == u.is_muted,
        device_update_spec(devs, u).last().is_default == u.is_default,
{
    assert(device_update_spec(devs, u).drop_last() =~= devs);
}

/// A change signal for a listed device that is no monitor gives the first device with its id
/// and kind the reported name, volume, mute state and default flag; the list keeps its
/// length and every other device stays as it was.
pub proof fn law_changed_device_takes_signal(devs: Seq<AudioDeviceV>, u: DeviceUpdateV, i: int)
    requires
        !is_monitor_name(u.name),
        u.event == 1,
        0 <= i < devs.len(),
        same_device(devs[i], u.id, u.device_type),
        forall|j: int| 0 <= j < i ==> !same_device(#[trigger] devs[j], u.id, u.device_type),
    ensures
        device_update_spec(devs, u).len() == devs.len(),
        same_device(device_update_spec(devs, u)[i], u.id, u.device_type),
        device_update_spec(devs, u)[i].muted == u.is_muted,
        device_update_spec(devs, u)[i].volume == u.volume,
        device_update_spec(devs, u)[i].name == u.name,
        device_update_spec(devs, u)[i].is_default == u.is_default,
        forall|j: int| 0 <= j < devs.len() && j != i ==> #[trigger] device_update_spec(devs, u)[j] == devs[j],
{
    lemma_first_device(devs, u.id, u.device_type);
    match first_device(devs, u.id, u.device_type) {
        Some(k) => {
            if k < i {
                assert(!same_device(devs[k], u.id, u.device_type));
            }
            if k > i {
                assert(!same_device(devs[i], u.id, u.device_type));
            }
            assert(k == i);
        },
        None => {
            assert(!same_device(devs[i], u.id, u.device_type));
        },
    }
    assert(device_type_of(u.device_type) == Some(devs[i].dev_type));
}

/// Where the link to the audio service stands.
#[derive(Debug, Clone, Copy, PartialEq, Eq, Structural)]
pub enum ConnectionState {
    Disconnected,
    Connecting,
    Connected,
}

impl Default for ConnectionState {
    fn default() -> (r: Self)
        ensures
            r == ConnectionState::Disconnected,
    {
        ConnectionState::Disconnected
    }
}

/// What a request to the audio service does next.
#[derive(Debug, Clone, Copy, PartialEq, Eq, Structural)]
pub enum ProxyStep {
    /// There is no link: the request is dropped.
    Drop,
    /// The link is up: the request is sent.
    Send,
    /// The link is being made: the request waits for it and looks again.
    Wait,
}

impl ConnectionState {
    /// The state once the attempt to reach the session bus and the service is over.
    pub fn after_connect(bus_ok: bool, proxy_ok: bool) -> (r: Self)
        ensures
            r == (if bus_ok && proxy_ok {
                ConnectionState::Connected
            } else {
                ConnectionState::Disconnected
            }),
    {
        if bus_ok && proxy_ok {
            ConnectionState::Connected
        } else {
            ConnectionState::Disconnected
        }
    }

    /// The link is up.
    pub fn proxy(&self) -> (r: bool)
        ensures
            r == (*self == ConnectionState::Connected),
    {
        match self {
            ConnectionState::Connected => true,
            _ => false,
        }
    }

    /// What a request does in this state.
    pub fn step(&self) -> (r: ProxyStep)
        ensures
            r == match *self {
                ConnectionState::Disconnected => ProxyStep::Drop,
                ConnectionState::Connected => ProxyStep::Send,
                ConnectionState::Connecting => ProxyStep::Wait,
            },
    {
        match self {
            ConnectionState::Disconnected => ProxyStep::Drop,
            ConnectionState::Connected => ProxyStep::Send,
            ConnectionState::Connecting => ProxyStep::Wait,
        }
    }
}

/// The audio devices and the link to the audio service.
pub struct AudioControl {
    pub devices: Vec<AudioDeviceData>,
    pub connection: ConnectionState,
}

impl AudioControl {
    /// No devices yet; the link is being made.
    pub fn new() -> (r: Self)
        ensures
            r.devices@.len() == 0,
            r.connection == ConnectionState::Connecting,
    {
        AudioControl { devices: Vec::new(), connection: ConnectionState::Connecting }
    }

    /// The devices, as the audio page lists them.
    pub fn get_devices_list(&self) -> (r: &Vec<AudioDeviceData>)
        ensures
            r@ == self.devices@,
    {
        &self.devices
    }

    /// The fixed devices shown when the panel runs without the audio service.
    pub fn fill_by_mock_data(&mut self)
        ensures
            final(self).connection == old(self).connection,
            dev_views(final(self).devices@) == dev_views(old(self).devices@) + seq![
                AudioDeviceV { id: 1, dev_type: AudioDeviceType::Sink, name: "Speakers"@, volume: 75, muted: false, is_default: false },
                AudioDeviceV { id: 2, dev_type: AudioDeviceType::Sink, name: "Headphones"@, volume: 50, muted: true, is_default: true },
                AudioDeviceV { id: 3, dev_type: AudioDeviceType::Source, name: "Microphone"@, volume: 100, muted: false, is_default: true },
                AudioDeviceV { id: 4, dev_type: AudioDeviceType::Source, name: "External Mic"@, volume: 85, muted: true, is_default: false },
            ],
    {
        let ghost before = dev_views(self.devices@);
        self.devices.push(AudioDeviceData::new(1, AudioDeviceType::Sink, owned("Speakers"), 75, false, false));
        self.devices.push(AudioDeviceData::new(2, AudioDeviceType::Sink, owned("Headphones"), 50, true, true));
        self.devices.push(AudioDeviceData::new(3, AudioDeviceType::Source, owned("Microphone"), 100, false, true));
        self.devices.push(AudioDeviceData::new(4, AudioDeviceType::Source, owned("External Mic"), 85, true, false));
        assert(dev_views(self.devices@) =~= before + seq![
            AudioDeviceV { id: 1, dev_type: AudioDeviceType::Sink, name: "Speakers"@, volume: 75, muted: false, is_default: false },
            AudioDeviceV { id: 2, dev_type: AudioDeviceType::Sink, name: "Headphones"@, volume: 50, muted: true, is_default: true },
            AudioDeviceV { id: 3, dev_type: AudioDeviceType::Source, name: "Microphone"@, volume: 100, muted: false, is_default: true },
            AudioDeviceV { id: 4, dev_type: AudioDeviceType::Source, name: "External Mic"@, volume: 85, muted: true, is_default: false },
        ]);
    }

    /// The index of the first listed device with the id and kind number.
    fn find_device(&self, id: i32, code: i32) -> (r: Option<usize>)
        ensures
            r matches Some(k) ==> k < self.devices@.len(),
            first_device(dev_views(self.devices@), id, code) == match r {
                Some(k) => Some(k as int),
                None => None::<int>,
            },
    {
        let ghost ds = dev_views(self.devices@);
        proof {
            lemma_first_device(ds, id, code);
        }
        let mut k: usize = 0;
        while k < self.devices.len()
            invariant
                k <= self.devices.len(),
                ds == dev_views(self.devices@),
                forall|j: int| 0 <= j < k ==> !same_device(#[trigger] ds[j], id, code),
                match first_device(ds, id, code) {
                    Some(i) => 0 <= i < ds.len() && same_device(ds[i], id, code) && forall|j: int|
                        0 <= j < i ==> !same_device(#[trigger] ds[j], id, code),
                    None => forall|j: int| 0 <= j < ds.len() ==> !same_device(#[trigger] ds[j], id, code),
                },
            decreases self.devices.len() - k,
        {
            let d = &self.devices[k];
            if d.id == id && d.dev_type.to_repr() == code {
                assert(same_device(ds[k as int], id, code));
                proof {
                    match first_device(ds, id, code) {
                        Some(i) => {
                            if i < k {
                                assert(!same_device(ds[i], id, code));
                            }
                            if i > k {
                                assert(!same_device(ds[k as int], id, code));
                            }
                        },
                        None => {
                            assert(!same_device(ds[k as int], id, code));
                        },
                    }
                }
                return Some(k);
            }
            assert(!same_device(ds[k as int], id, code));
            k = k + 1;
        }
        None
    }

    /// Follows one `DeviceUpdated` signal of the audio service.
    pub fn apply_device_update(&mut self, u: DeviceUpdate)
        ensures
            final(self).connection == old(self).connection,
            dev_views(final(self).devices@) == device_update_spec(dev_views(old(self).devices@), u@),
    {
        let ghost before = dev_views(self.devices@);
        let low = to_lowercase(u.name.as_str());
        if contains_str(low.as_str(), "monitor") {
            return;
        }
        if u.event == 0 {
            match AudioDeviceType::from_repr(u.device_type) {
                Some(t) => {
                    let d = AudioDeviceData::new(u.id, t, u.name, u.volume, u.is_muted, u.is_default);
                    self.devices.push(d);
                    assert(dev_views(self.devices@) =~= before.push(d@));
                    assert(dev_views(self.devices@) == device_update_spec(before, u@));
                },
                None => {},
            }
        } else if u.event == 1 {
            let found = self.find_device(u.id, u.device_type);
            match (found, AudioDeviceType::from_repr(u.device_type)) {
                (Some(i), Some(t)) => {
                    let d = AudioDeviceData::new(
                        self.devices[i].id,
                        t,
                        u.name,
                        u.volume,
                        u.is_muted,
                        u.is_default,
                    );
                    let ghost dv = d@;
                    assert(first_device(before, u.id, u.device_type) == Some(i as int));
                    assert(dv.id == before[i as int].id);
                    self.devices.remove(i);
                    self.devices.insert(i, d);
                    assert(dev_views(self.devices@) =~= before.update(i as int, dv));
                    assert(dev_views(self.devices@) == device_update_spec(before, u@));
                },
                _ => {},
            }
        } else if u.event == 2 {
            let mut kept: Vec<AudioDeviceData> = Vec::new();
            let mut k: usize = 0;
            let ghost pred = |d: AudioDeviceV| !same_device(d, u.id, u.device_type);
            proof {
                reveal(Seq::filter);
                assert(dev_views(kept@) =~= before.take(0).filter(pred));
            }
            while k < self.devices.len()
                invariant
                    k <= self.devices.len(),
                    before == dev_views(self.devices@),
                    pred == (|d: AudioDeviceV| !same_device(d, u.id, u.device_type)),
                    dev_views(kept@) == before.take(k as int).filter(pred),
                decreases self.devices.len() - k,
            {
                let d = &self.devices[k];
                proof {
                    reveal(Seq::filter);
                    assert(before.take(k + 1).drop_last() =~= before.take(k as int));
                    assert(before.take(k + 1).last() == d@);
                }
                if !(d.id == u.id && d.dev_type.to_repr() == u.device_type) {
                    let ghost kv = dev_views(kept@);
                    kept.push(d.duplicate());
                    assert(dev_views(kept@) =~= kv.push(before[k as int]));
                }
                k = k + 1;
            }
            assert(before.take(self.devices.len() as int) =~= before);
            assert(dev_views(kept@) == device_update_spec(before, u@));
            self.devices = kept;
        }
    }
}

/// A call to the audio service; kinds are passed by their numbers.
#[derive(Debug, Clone, Copy, PartialEq, Eq, Structural)]
pub enum AudioCall {
    SetDeviceVolume { id: i32, dev_type: i32, value: i32 },
    SetDeviceMute { id: i32, dev_type: i32, mute: bool },
    MakeDeviceDefault { id: i32, dev_type: i32 },
    Open,
    UnsubscribeFromDeviceUpdatedSignal,
}

impl AudioControl {
    /// The call that sets a device's volume, and what happens to it in the link's state.
    pub fn set_device_volume(&self, id: i32, dev_type: i32, value: i32) -> (r: (ProxyStep, AudioCall))
        ensures
            r.0 == step_of(self.connection),
            r.1 == (AudioCall::SetDeviceVolume { id, dev_type, value }),
    {
        (self.connection.step(), AudioCall::SetDeviceVolume { id, dev_type, value })
    }

    /// The call that mutes or unmutes a device.
    pub fn set_device_mute(&self, id: i32, dev_type: i32, mute: bool) -> (r: (ProxyStep, AudioCall))
        ensures
            r.0 == step_of(self.connection),
            r.1 == (AudioCall::SetDeviceMute { id, dev_type, mute }),
    {
        (self.connection.step(), AudioCall::SetDeviceMute { id, dev_type, mute })
    }

    /// The call that makes a device the default of its kind.
    pub fn set_default_device(&self, id: i32, dev_type: i32) -> (r: (ProxyStep, AudioCall))
        ensures
            r.0 == step_of(self.connection),
            r.1 == (AudioCall::MakeDeviceDefault { id, dev_type }),
    {
        (self.connection.step(), AudioCall::MakeDeviceDefault { id, dev_type })
    }

    /// The call that opens the audio service's own settings.
    pub fn open_advanced_settings_widget(&self) -> (r: (ProxyStep, AudioCall))
        ensures
            r.0 == step_of(self.connection),
            r.1 == AudioCall::Open,
    {
        (self.connection.step(), AudioCall::Open)
    }

    /// The call made when the control goes away: no more device updates.
    pub fn unsubscribe_from_updates(&self) -> (r: (ProxyStep, AudioCall))
        ensures
            r.0 == step_of(self.connection),
            r.1 == AudioCall::UnsubscribeFromDeviceUpdatedSignal,
    {
        (self.connection.step(), AudioCall::UnsubscribeFromDeviceUpdatedSignal)
    }
}

/// What a request does in a state of the link.
pub open spec fn step_of(c: ConnectionState) -> ProxyStep {
    match c {
        ConnectionState::Disconnected => ProxyStep::Drop,
        ConnectionState::Connected => ProxyStep::Send,
        ConnectionState::Connecting => ProxyStep::Wait,
    }
}

/// The devices of one kind, in list order.
pub open spec fn of_type(devs: Seq<AudioDeviceV>, t: AudioDeviceType) -> Seq<AudioDeviceV> {
    devs.filter(|d: AudioDeviceV| d.dev_type == t)
}

/// The index of the first default device.
pub open spec fn first_default(devs: Seq<AudioDeviceV>) -> Option<int>
    decreases devs.len(),
{
    if devs.len() == 0 {
        None
    } else if devs[0].is_default {
        Some(0)
    } else {
        match first_default(devs.drop_first()) {
            Some(i) => Some(i + 1),
            None => None,
        }
    }
}

pub proof fn lemma_first_default(devs: Seq<AudioDeviceV>)
    ensures
        match first_default(devs) {
            Some(i) => 0 <= i < devs.len() && devs[i].is_default && forall|j: int|
                0 <= j < i ==> !(#[trigger] devs[j]).is_default,
            None => forall|j: int| 0 <= j < devs.len() ==> !(#[trigger] devs[j]).is_default,
        },
    decreases devs.len(),
{
    if devs.len() > 0 && !devs[0].is_default {
        let t = devs.drop_first();
        lemma_first_default(t);
        assert forall|j: int| 0 < j < devs.len() implies devs[j] == t[j - 1] by {}
    }
}

/// A request to the audio service that a control of the audio page makes.
#[derive(Debug, Clone, Copy, PartialEq, Eq, Structural)]
pub enum AudioRequest {
    SetVolume { id: i32, dev_type: AudioDeviceType, value: i32 },
    SetMute { id: i32, dev_type: AudioDeviceType, mute: bool },
}

/// What the audio page shows: the outputs and inputs, and the default of each selected.
pub struct AudioSelection {
    pub speakers: Vec<AudioDeviceData>,
    pub speaker_selected: Option<usize>,
    pub mics: Vec<AudioDeviceData>,
    pub mic_selected: Option<usize>,
}

/// The audio page.
pub struct AudioSettings;

impl AudioSettings {
    /// The devices of kind `t`, in list order.
    pub fn devices_of_type(devs: &Vec<AudioDeviceData>, t: AudioDeviceType) -> (r: Vec<AudioDeviceData>)
        ensures
            dev_views(r@) == of_type(dev_views(devs@), t),
    {
        let ghost all = dev_views(devs@);
        let ghost pred = |d: AudioDeviceV| d.dev_type == t;
        let mut out: Vec<AudioDeviceData> = Vec::new();
        let mut k: usize = 0;
        proof {
            reveal(Seq::filter);
            assert(dev_views(out@) =~= all.take(0).filter(pred));
        }
        while k < devs.len()
            invariant
                k <= devs.len(),
                all == dev_views(devs@),
                pred == (|d: AudioDeviceV| d.dev_type == t),
                dev_views(out@) == all.take(k as int).filter(pred),
            decreases devs.len() - k,
        {
            let d = &devs[k];
            proof {
                reveal(Seq::filter);
                assert(all.take(k + 1).drop_last() =~= all.take(k as int));
                assert(all.take(k + 1).last() == d@);
            }
            if d.dev_type == t {
                let ghost ov = dev_views(out@);
                out.push(d.duplicate());
                assert(dev_views(out@) =~= ov.push(all[k as int]));
            }
            k = k + 1;
        }
        assert(all.take(devs.len() as int) =~= all);
        out
    }

    /// The position of the first default device.
    pub fn default_position(devs: &Vec<AudioDeviceData>) -> (r: Option<usize>)
        ensures
            first_default(dev_views(devs@)) == match r {
                Some(k) => Some(k as int),
                None => None::<int>,
            },
    {
        let ghost ds = dev_views(devs@);
        proof {
            lemma_first_default(ds);
        }
        let mut k: usize = 0;
        while k < devs.len()
            invariant
                k <= devs.len(),
                ds == dev_views(devs@),
                forall|j: int| 0 <= j < k ==> !(#[trigger] ds[j]).is_default,
                match first_default(ds) {
                    Some(i) => 0 <= i < ds.len() && ds[i].is_default && forall|j: int|
                        0 <= j < i ==> !(#[trigger] ds[j]).is_default,
                    None => forall|j: int| 0 <= j < ds.len() ==> !(#[trigger] ds[j]).is_default,
                },
            decreases devs.len() - k,
        {
            if devs[k].is_default {
                assert(ds[k as int].is_default);
                proof {
                    match first_default(ds) {
                        Some(i) => {
                            if i < k {
                                assert(!ds[i].is_default);
                            }
                            if i > k {
                                assert(!ds[k as int].is_default);
                            }
                        },
                        None => {
                            assert(!ds[k as int].is_default);
                        },
                    }
                }
                return Some(k);
            }
            assert(!ds[k as int].is_default);
            k = k + 1;
        }
        None
    }

    /// The outputs and inputs to offer, each with its default device selected.
    pub fn set_audio_devices(devs: &Vec<AudioDeviceData>) -> (r: AudioSelection)
        ensures
            dev_views(r.speakers@) == of_type(dev_views(devs@), AudioDeviceType::Sink),
            dev_views(r.mics@) == of_type(dev_views(devs@), AudioDeviceType::Source),
            first_default(of_type(dev_views(devs@), AudioDeviceType::Sink)) == match r.speaker_selected {
                Some(k) => Some(k as int),
                None => None::<int>,
            },
            first_default(of_type(dev_views(devs@), AudioDeviceType::Source)) == match r.mic_selected {
                Some(k) => Some(k as int),
                None => None::<int>,
            },
    {
        let speakers = AudioSettings::devices_of_type(devs, AudioDeviceType::Sink);
        let speaker_selected = AudioSettings::default_position(&speakers);
        let mics = AudioSettings::devices_of_type(devs, AudioDeviceType::Source);
        let mic_selected = AudioSettings::default_position(&mics);
        AudioSelection { speakers, speaker_selected, mics, mic_selected }
    }

    /// The request that moving a volume slider to `value` makes: none when no device is
    /// selected or its volume is already `value`.
    pub fn volume_changed(selected: Option<&AudioDeviceData>, value: i32) -> (r: Option<AudioRequest>)
        ensures
            r == match selected {
                Some(d) => if d.volume != value {
                    Some(AudioRequest::SetVolume { id: d.id, dev_type: d.dev_type, value })
                } else {
                    None
                },
                None => None,
            },
    {
        match selected {
            Some(d) => if d.volume != value {
                Some(AudioRequest::SetVolume { id: d.id, dev_type: d.dev_type, value })
            } else {
                None
            },
            None => None,
        }
    }

    /// The request that toggling a mute button to `value` makes: none when no device is
    /// selected or it already is in that state.
    pub fn mute_changed(selected: Option<&AudioDeviceData>, value: bool) -> (r: Option<AudioRequest>)
        ensures
            r == match selected {
                Some(d) => if d.muted != value {
                    Some(AudioRequest::SetMute { id: d.id, dev_type: d.dev_type, mute: value })
                } else {
                    None
                },
                None => None,
            },
    {
        match selected {
            Some(d) => if d.muted != value {
                Some(AudioRequest::SetMute { id: d.id, dev_type: d.dev_type, mute: value })
            } else {
                None
            },
            None => None,
        }
    }
}

} // verus!
