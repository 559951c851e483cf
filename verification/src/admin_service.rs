//! A stand-in admin service for trying the panel without a running system: it accepts
//! every request and answers with fixed data.
use vstd::prelude::*;
use crate::text::owned;

verus! {

/// A request to register a service (its fields are not read).
pub struct RegistryRequest;

/// The answer to a registration, with its default content.
#[derive(Debug, Clone, Copy, PartialEq, Eq, Structural)]
pub struct RegistryResponse;

/// A request about one application.
pub struct ApplicationRequest {
    pub app_name: String,
}

/// The answer to a request about an application, with its default content.
#[derive(Debug, Clone, Copy, PartialEq, Eq, Structural)]
pub struct ApplicationResponse;

/// The empty message.
#[derive(Debug, Clone, Copy, PartialEq, Eq, Structural)]
pub struct Empty;

/// The state of a unit.
pub struct UnitStatus {
    pub name: String,
    pub description: String,
    pub load_state: String,
    pub active_state: String,
    pub path: String,
}

/// The state of a unit as a mathematical value.
pub struct UnitStatusV {
    pub name: Seq<char>,
    pub description: Seq<char>,
    pub load_state: Seq<char>,
    pub active_state: Seq<char>,
    pub path: Seq<char>,
}

impl View for UnitStatus {
    type V = UnitStatusV;

    open spec fn view(&self) -> UnitStatusV {
        UnitStatusV {
            name: self.name@,
            description: self.description@,
            load_state: self.load_state@,
            active_state: self.active_state@,
            path: self.path@,
        }
    }
}

/// The applications that are known.
pub struct ApplicationList {
    pub applications: Vec<UnitStatus>,
}

/// The views of a list of units.
pub open spec fn unit_views(s: Seq<UnitStatus>) -> Seq<UnitStatusV> {
    s.map_values(|u: UnitStatus| u@)
}

/// The two applications that the stand-in service lists.
pub open spec fn listed_applications() -> Seq<UnitStatusV> {
    seq![
        UnitStatusV {
            name: "VM1"@,
            description: "This is file.pdf!"@,
            load_state: "Loaded"@,
            active_state: "active"@,
            path: "/test/path"@,
        },
        UnitStatusV {
            name: "VM2"@,
            description: "Google Chrome"@,
            load_state: "Loaded"@,
            active_state: "active"@,
            path: "/test/path2"@,
        },
    ]
}

/// The stand-in admin service.
#[derive(Debug, Default)]
pub struct MyAdminService {}

impl MyAdminService {
    /// Accepts every registration.
    pub fn register_service(&self, request: RegistryRequest) -> (r: RegistryResponse)
        ensures
            r == RegistryResponse,
    {
        RegistryResponse
    }

    /// Accepts every start.
    pub fn start_application(&self, request: ApplicationRequest) -> (r: ApplicationResponse)
        ensures
            r == ApplicationResponse,
    {
        ApplicationResponse
    }

    /// Accepts every pause.
    pub fn pause_application(&self, request: ApplicationRequest) -> (r: ApplicationResponse)
        ensures
            r == ApplicationResponse,
    {
        ApplicationResponse
    }

    /// Accepts every resume.
    pub fn resume_application(&self, request: ApplicationRequest) -> (r: ApplicationResponse)
        ensures
            r == ApplicationResponse,
    {
        ApplicationResponse
    }

    /// Accepts every stop.
    pub fn stop_application(&self, request: ApplicationRequest) -> (r: ApplicationResponse)
        ensures
            r == ApplicationResponse,
    {
        ApplicationResponse
    }

    /// The state of the named application: always a test unit of that name in an unknown
    /// state.
    pub fn application_status(&self, request: ApplicationRequest) -> (r: UnitStatus)
        ensures
            r@ == (UnitStatusV {
                name: request.app_name@,
                description: "Test"@,
                load_state: "unknown"@,
                active_state: "unknown"@,
                path: "test"@,
            }),
    {
        UnitStatus {
            name: request.app_name,
            description: owned("Test"),
            load_state: owned("unknown"),
            active_state: owned("unknown"),
            path: owned("test"),
        }
    }

    /// Accepts a power-off and does nothing.
    pub fn poweroff(&self, request: Empty) -> (r: Empty)
        ensures
            r == Empty,
    {
        Empty
    }

    /// Accepts a reboot and does nothing.
    pub fn reboot(&self, request: Empty) -> (r: Empty)
        ensures
            r == Empty,
    {
        Empty
    }

    /// The fixed list of two applications.
    pub fn list_applications(&self, request: Empty) -> (r: ApplicationList)
        ensures
            unit_views(r.applications@) == listed_applications(),
    {
        let mut apps: Vec<UnitStatus> = Vec::new();
        apps.push(
            UnitStatus {
                name: owned("VM1"),
                description: owned("This is file.pdf!"),
                load_state: owned("Loaded"),
                active_state: owned("active"),
                path: owned("/test/path"),
            },
        );
        apps.push(
            UnitStatus {
                name: owned("VM2"),
                description: owned("Google Chrome"),
                load_state: owned("Loaded"),
                active_state: owned("active"),
                path: owned("/test/path2"),
            },
        );
        assert(unit_views(apps@) =~= listed_applications());
        ApplicationList { applications: apps }
    }
}

} // verus!
