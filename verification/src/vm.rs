//! A virtual machine as the VM list shows it; an application VM's unit name
//! `microvm@<app>-<rest>` carries the name of its application.
use vstd::prelude::*;
use crate::display::{regex_capture, regex_capture_spec};
use crate::service::QueryResult;
use crate::status::{SecurityIcon, TrustLevel, VMControlAction, VMStatus};
use crate::text::{has_prefix, owned, str_eq, strip_prefix};

verus! {

/// A virtual machine of the VM list.
pub struct VMData {
    pub name: String,
    pub app_name: String,
    pub is_app_vm: bool,
    pub details: String,
    pub status: u8,
    pub trust_level: u8,
}

/// The items of the VM list are plain records.
pub type VMGObject = VMData;

/// A virtual machine as a mathematical value.
pub struct VMV {
    pub name: Seq<char>,
    pub app_name: Seq<char>,
    pub is_app_vm: bool,
    pub details: Seq<char>,
    pub status: u8,
    pub trust_level: u8,
}

impl View for VMData {
    type V = VMV;

    open spec fn view(&self) -> VMV {
        VMV {
            name: self.name@,
            app_name: self.app_name@,
            is_app_vm: self.is_app_vm,
            details: self.details@,
            status: self.status,
            trust_level: self.trust_level,
        }
    }
}

/// The pattern that takes the application name out of an application VM's unit name.
pub open spec fn app_vm_pattern() -> Seq<char> {
    "^microvm@([^@-]+)-.+$"@
}

/// The name is that of an application VM.
pub open spec fn is_app_vm_name(name: Seq<char>) -> bool {
    has_prefix(name, "microvm@"@)
}

/// A VM of the list: an application VM has the application name that the pattern finds;
/// its status and trust level start at zero.
pub open spec fn vm_spec(name: Seq<char>, app_name: Seq<char>, details: Seq<char>) -> VMV {
    VMV { name, app_name, is_app_vm: is_app_vm_name(name), details, status: 0, trust_level: 0 }
}

/// The application name of a VM name whose form the pattern accepts, or the empty name
/// for other VMs.
pub open spec fn app_name_spec(name: Seq<char>) -> Option<Seq<char>> {
    if is_app_vm_name(name) {
        regex_capture_spec(app_vm_pattern(), name, 1)
    } else {
        Some(Seq::empty())
    }
}

impl VMData {
    /// The VM named `name`; an application VM's name must have the form that the
    /// application name is taken from.
    pub fn new(name: String, details: String, status: VMStatus, trust_level: TrustLevel) -> (r: Self)
        requires
            app_name_spec(name@) is Some,
        ensures
            r@ == vm_spec(name@, app_name_spec(name@).unwrap(), details@),
    {
        let is_app_vm = match strip_prefix(name.as_str(), "microvm@") {
            Some(_) => true,
            None => false,
        };
        let app_name = if is_app_vm {
            let pattern = "^microvm@([^@-]+)-.+$";
            proof {
                assert(pattern@ == app_vm_pattern());
            }
            match regex_capture(pattern, name.as_str(), 1) {
                Some(a) => a,
                None => String::new(),
            }
        } else {
            String::new()
        };
        VMData { name, app_name, is_app_vm, details, status: 0, trust_level: 0 }
    }

    /// The VM named `name`, or `None` when it is an application VM whose name does not
    /// have the form that the application name is taken from.
    pub fn try_new(name: String, details: String, status: VMStatus, trust_level: TrustLevel) -> (r: Option<Self>)
        ensures
            match app_name_spec(name@) {
                Some(a) => r matches Some(v) && v@ == vm_spec(name@, a, details@),
                None => r is None,
            },
    {
        let is_app_vm = match strip_prefix(name.as_str(), "microvm@") {
            Some(_) => true,
            None => false,
        };
        if is_app_vm {
            let pattern = "^microvm@([^@-]+)-.+$";
            proof {
                assert(pattern@ == app_vm_pattern());
            }
            match regex_capture(pattern, name.as_str(), 1) {
                Some(_) => {},
                None => return None,
            }
        }
        Some(VMData::new(name, details, status, trust_level))
    }

    /// Two entries stand for the same VM when their names are equal.
    pub fn is_equal_to(&self, other: &VMData) -> (r: bool)
        ensures
            r == (self.name@ == other.name@),
    {
        str_eq(self.name.as_str(), other.name.as_str())
    }

    /// Takes the description of a status report as the VM's details.
    pub fn update(&mut self, query_result: QueryResult)
        ensures
            final(self)@ == (VMV { details: query_result.description@, ..old(self)@ }),
    {
        self.details = query_result.description;
    }
}

/// The trust level that a VM's trust number stands for on the VM pane: 1 a warning, 2 an
/// alert, anything else secure.
pub open spec fn pane_trust(code: u8) -> TrustLevel {
    if code == 1 {
        TrustLevel::Warning
    } else if code == 2 {
        TrustLevel::NotSecure
    } else {
        TrustLevel::Secure
    }
}

/// The status text of a VM's status number: 0 running, 2 paused, anything else powered off.
pub open spec fn pane_status_label(code: u8) -> Seq<char> {
    if code == 0 {
        "Running"@
    } else if code == 2 {
        "Paused"@
    } else {
        "Powered off"@
    }
}

/// The status icon of a VM's status number: green when running, yellow when paused, red
/// otherwise.
pub open spec fn pane_status_icon(code: u8) -> Seq<char> {
    if code == 0 {
        "/org/gnome/controlpanelgui/icons/ellipse_green.svg"@
    } else if code == 2 {
        "/org/gnome/controlpanelgui/icons/ellipse_yellow.svg"@
    } else {
        "/org/gnome/controlpanelgui/icons/ellipse_red.svg"@
    }
}

/// The security icon of a trust level.
pub open spec fn security_icon_of(t: TrustLevel) -> Seq<char> {
    match t {
        TrustLevel::Warning => "/ae/tii/ghaf/controlpanelgui/icons/security_attention.svg"@,
        TrustLevel::NotSecure => "/ae/tii/ghaf/controlpanelgui/icons/security_alert.svg"@,
        TrustLevel::Secure => "/ae/tii/ghaf/controlpanelgui/icons/security_well.svg"@,
    }
}

/// The security text of a trust level.
pub open spec fn security_label_of(t: TrustLevel) -> Seq<char> {
    match t {
        TrustLevel::Secure => "Secure!"@,
        TrustLevel::Warning => "Security warning!"@,
        TrustLevel::NotSecure => "Security alert!"@,
    }
}

/// What the VM pane shows.
pub struct VmPaneView {
    pub title: String,
    pub full_name: String,
    pub status_label: String,
    pub status_icon: String,
    pub details: String,
    pub security_icon: String,
    pub security_label: String,
    pub control_label: String,
    pub audio_visible: bool,
}

/// What the VM pane shows, as a mathematical value.
pub struct VmPaneViewV {
    pub title: Seq<char>,
    pub full_name: Seq<char>,
    pub status_label: Seq<char>,
    pub status_icon: Seq<char>,
    pub details: Seq<char>,
    pub security_icon: Seq<char>,
    pub security_label: Seq<char>,
    pub control_label: Seq<char>,
    pub audio_visible: bool,
}

impl View for VmPaneView {
    type V = VmPaneViewV;

    open spec fn view(&self) -> VmPaneViewV {
        VmPaneViewV {
            title: self.title@,
            full_name: self.full_name@,
            status_label: self.status_label@,
            status_icon: self.status_icon@,
            details: self.details@,
            security_icon: self.security_icon@,
            security_label: self.security_label@,
            control_label: self.control_label@,
            audio_visible: self.audio_visible,
        }
    }
}

/// The VM pane for a VM: an application VM is titled by its application with the unit name
/// beneath and shows VM controls and audio settings; any other by its name alone, with
/// service controls.
pub open spec fn vm_pane_spec(v: VMV) -> VmPaneViewV {
    VmPaneViewV {
        title: if v.is_app_vm {
            v.app_name
        } else {
            v.name
        },
        full_name: if v.is_app_vm {
            v.name
        } else {
            Seq::empty()
        },
        status_label: pane_status_label(v.status),
        status_icon: pane_status_icon(v.status),
        details: v.details,
        security_icon: security_icon_of(pane_trust(v.trust_level)),
        security_label: security_label_of(pane_trust(v.trust_level)),
        control_label: if v.is_app_vm {
            "VM Controls"@
        } else {
            "Service Controls"@
        },
        audio_visible: v.is_app_vm,
    }
}

/// What the VM pane shows for `vm`.
pub fn vm_pane(vm: &VMData) -> (r: VmPaneView)
    ensures
        r@ == vm_pane_spec(vm@),
{
    let trust = if vm.trust_level == 1 {
        TrustLevel::Warning
    } else if vm.trust_level == 2 {
        TrustLevel::NotSecure
    } else {
        TrustLevel::Secure
    };
    let icon = SecurityIcon::new(trust);
    let status_label = if vm.status == 0 {
        "Running"
    } else if vm.status == 2 {
        "Paused"
    } else {
        "Powered off"
    };
    let status_icon = if vm.status == 0 {
        "/org/gnome/controlpanelgui/icons/ellipse_green.svg"
    } else if vm.status == 2 {
        "/org/gnome/controlpanelgui/icons/ellipse_yellow.svg"
    } else {
        "/org/gnome/controlpanelgui/icons/ellipse_red.svg"
    };
    VmPaneView {
        title: if vm.is_app_vm {
            owned(vm.app_name.as_str())
        } else {
            owned(vm.name.as_str())
        },
        full_name: if vm.is_app_vm {
            owned(vm.name.as_str())
        } else {
            String::new()
        },
        status_label: owned(status_label),
        status_icon: owned(status_icon),
        details: owned(vm.details.as_str()),
        security_icon: owned(icon.resource()),
        security_label: owned(icon.label()),
        control_label: if vm.is_app_vm {
            owned("VM Controls")
        } else {
            owned("Service Controls")
        },
        audio_visible: vm.is_app_vm,
    }
}

/// The control action a VM pane button asks for, with the pane's title and unit name.
pub fn vm_control_request(action: VMControlAction, pane: &VmPaneView) -> (r: (VMControlAction, String, String))
    ensures
        r.0 == action,
        r.1@ == pane.title@,
        r.2@ == pane.full_name@,
{
    (action, owned(pane.title.as_str()), owned(pane.full_name.as_str()))
}

} // verus!
