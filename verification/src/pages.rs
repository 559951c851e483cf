//! What the smaller settings pages show and send: the service details pane, the language
//! page, the info page and the admin page.
use vstd::prelude::*;
use crate::service::{ServiceData, ServiceV, VmType};
use crate::settings_action::{SettingsAction, SettingsActionV};
use crate::status::{ControlAction, TrustLevel, VMStatus};
use crate::text::{concat, owned};

verus! {

/// Which action menu the service pane offers.
#[derive(Debug, Clone, Copy, PartialEq, Eq, Structural)]
pub enum ActionMenu {
    /// The menu for VMs.
    Vm,
    /// The menu for applications and services.
    Other,
}

/// What the service pane shows for a service.
pub struct ServiceSettingsView {
    pub wireguard_visible: bool,
    pub resources_visible: bool,
    pub actions_sensitive: bool,
    pub action_menu: ActionMenu,
    pub shows_stats: bool,
    pub title: String,
    pub full_name: String,
    pub arrow_visible: bool,
    pub extra_info: String,
    pub status: VMStatus,
    pub details: String,
    pub trust_level: TrustLevel,
    pub control_label: String,
    pub audio_visible: bool,
}

/// What the service pane shows, as a mathematical value.
pub struct ServiceSettingsViewV {
    pub wireguard_visible: bool,
    pub resources_visible: bool,
    pub actions_sensitive: bool,
    pub action_menu: ActionMenu,
    pub shows_stats: bool,
    pub title: Seq<char>,
    pub full_name: Seq<char>,
    pub arrow_visible: bool,
    pub extra_info: Seq<char>,
    pub status: VMStatus,
    pub details: Seq<char>,
    pub trust_level: TrustLevel,
    pub control_label: Seq<char>,
    pub audio_visible: bool,
}

impl View for ServiceSettingsView {
    type V = ServiceSettingsViewV;

    open spec fn view(&self) -> ServiceSettingsViewV {
        ServiceSettingsViewV {
            wireguard_visible: self.wireguard_visible,
            resources_visible: self.resources_visible,
            actions_sensitive: self.actions_sensitive,
            action_menu: self.action_menu,
            shows_stats: self.shows_stats,
            title: self.title@,
            full_name: self.full_name@,
            arrow_visible: self.arrow_visible,
            extra_info: self.extra_info@,
            status: self.status,
            details: self.details@,
            trust_level: self.trust_level,
            control_label: self.control_label@,
            audio_visible: self.audio_visible,
        }
    }
}

/// The pane for a service: VMs and applications are titled by their display name with
/// the unit name beneath, other services by their unit name; the admin VM cannot be
/// controlled; only VMs show resources, statistics and audio settings.
pub open spec fn service_view_spec(s: ServiceV) -> ServiceSettingsViewV {
    let vm_or_app = s.is_vm || s.is_app;
    ServiceSettingsViewV {
        wireguard_visible: s.has_wireguard,
        resources_visible: s.is_vm,
        actions_sensitive: s.vm_type != VmType::AdmVM,
        action_menu: if s.is_vm {
            ActionMenu::Vm
        } else {
            ActionMenu::Other
        },
        shows_stats: s.is_vm,
        title: if vm_or_app {
            s.display_name
        } else {
            s.name
        },
        full_name: if vm_or_app {
            s.name
        } else {
            Seq::empty()
        },
        arrow_visible: s.is_app,
        extra_info: "The app is in the "@ + s.vm_name,
        status: s.status,
        details: s.details,
        trust_level: s.trust_level,
        control_label: if s.is_vm {
            "VM Controls"@
        } else {
            "Service Controls"@
        },
        audio_visible: s.is_vm,
    }
}

/// The service pane.
pub struct ServiceSettings;

impl ServiceSettings {
    /// What the pane shows once it is bound to `object`.
    pub fn bind(object: &ServiceData) -> (r: ServiceSettingsView)
        ensures
            r@ == service_view_spec(object@),
    {
        let vm_or_app = object.is_vm || object.is_app;
        let actions_sensitive = match object.vm_type {
            VmType::AdmVM => false,
            _ => true,
        };
        ServiceSettingsView {
            wireguard_visible: object.has_wireguard,
            resources_visible: object.is_vm,
            actions_sensitive,
            action_menu: if object.is_vm {
                ActionMenu::Vm
            } else {
                ActionMenu::Other
            },
            shows_stats: object.is_vm,
            title: if vm_or_app {
                owned(object.display_name.as_str())
            } else {
                owned(object.name.as_str())
            },
            full_name: if vm_or_app {
                owned(object.name.as_str())
            } else {
                String::new()
            },
            arrow_visible: object.is_app,
            extra_info: concat("The app is in the ", object.vm_name.as_str()),
            status: object.status,
            details: owned(object.details.as_str()),
            trust_level: object.trust_level,
            control_label: if object.is_vm {
                owned("VM Controls")
            } else {
                owned("Service Controls")
            },
            audio_visible: object.is_vm,
        }
    }
}

impl ServiceSettings {
    /// The request that the WireGuard button makes for the service shown, if any.
    pub fn on_wireguard_button_clicked(service: Option<&ServiceData>) -> (r: Option<SettingsAction>)
        ensures
            match service {
                Some(s) => r matches Some(a) && a@ == SettingsActionV::OpenWireGuard { vm: s@ },
                None => r is None,
            },
    {
        match service {
            Some(s) => Some(SettingsAction::OpenWireGuard { vm: s.duplicate() }),
            None => None,
        }
    }

    /// The control action a button asks for, with the service shown, if any.
    pub fn emit_control_action(service: Option<&ServiceData>, action: ControlAction) -> (r: Option<(ControlAction, ServiceData)>)
        ensures
            match service {
                Some(s) => r matches Some(p) && p.0 == action && p.1@ == s@,
                None => r is None,
            },
    {
        match service {
            Some(s) => Some((action, s.duplicate())),
            None => None,
        }
    }

    /// Whether the details are revealed and the arrow's icon, for the state of the arrow.
    pub fn open_info(active: bool) -> (r: (bool, &'static str))
        ensures
            r.0 == active,
            r.1@ == (if active {
                "pan-up-symbolic"@
            } else {
                "pan-down-symbolic"@
            }),
    {
        if active {
            (true, "pan-up-symbolic")
        } else {
            (false, "pan-down-symbolic")
        }
    }
}

/// The language page.
pub struct LanguageRegionSettingsPage;

impl LanguageRegionSettingsPage {
    /// The locale and time zone that applying the page sets: the selected ones, or "C" and
    /// "UTC" when none is selected.
    pub fn on_apply_clicked(locale: Option<String>, timezone: Option<String>) -> (r: SettingsAction)
        ensures
            r@ == (SettingsActionV::RegionNLanguage {
                locale: match locale {
                    Some(l) => l@,
                    None => "C"@,
                },
                timezone: match timezone {
                    Some(t) => t@,
                    None => "UTC"@,
                },
            }),
    {
        let locale = match locale {
            Some(l) => l,
            None => owned("C"),
        };
        let timezone = match timezone {
            Some(t) => t,
            None => owned("UTC"),
        };
        SettingsAction::RegionNLanguage { locale, timezone }
    }
}

/// The settings window.
pub struct Settings;

impl Settings {
    /// The request that restores the default language and time zone.
    pub fn on_locale_timezone_default() -> (r: SettingsAction)
        ensures
            r@ == (SettingsActionV::RegionNLanguage { locale: "en_US.utf8"@, timezone: "UTC"@ }),
    {
        SettingsAction::RegionNLanguage { locale: owned("en_US.utf8"), timezone: owned("UTC") }
    }
}

/// The info page.
pub struct InfoSettingsPage;

impl InfoSettingsPage {
    /// The logging id line, from the content of the device id file, or "Not found".
    pub fn logging_id_label(content: Option<String>) -> (r: String)
        ensures
            r@ == "Logging ID:    "@ + match content {
                Some(c) => c@,
                None => "Not found"@,
            },
    {
        match content {
            Some(c) => concat("Logging ID:    ", c.as_str()),
            None => concat("Logging ID:    ", "Not found"),
        }
    }
}

/// What the admin page shows after its update button was pressed.
pub struct AdminUpdateLabels {
    pub status: String,
    pub version: String,
    pub size: String,
    pub button: String,
    pub content_visible: bool,
}

/// The admin page.
pub struct AdminSettingsPage;

impl AdminSettingsPage {
    /// The labels the page shows once an update was asked for.
    pub fn on_update_clicked() -> (r: AdminUpdateLabels)
        ensures
            r.status@ == "Update available"@,
            r.version@ == "Version: 1.0.1"@,
            r.size@ == "Size: 100 Mb"@,
            r.button@ == "Update"@,
            r.content_visible,
    {
        AdminUpdateLabels {
            status: owned("Update available"),
            version: owned("Version: 1.0.1"),
            size: owned("Size: 100 Mb"),
            button: owned("Update"),
            content_visible: true,
        }
    }
}

/// The admin VM can never be controlled from the pane, and only a VM shows statistics.
pub proof fn law_admin_vm_not_controlled(s: ServiceV)
    ensures
        s.vm_type == VmType::AdmVM ==> !service_view_spec(s).actions_sensitive,
        service_view_spec(s).shows_stats == s.is_vm,
        service_view_spec(s).audio_visible == service_view_spec(s).resources_visible,
{
}

} // verus!
