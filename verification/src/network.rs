//! Windows network enforcement: reading Windows service states from `sc`
//! output, deciding WFP backend readiness, building `sc` command lines,
//! describing each readiness state for `nono setup`, interpreting the WFP
//! service's runtime replies, and driving the WFP service and driver
//! lifecycles through caller-supplied command runners.
use crate::error::{err_of, error_view, result_view, ErrorKind, ErrorView, NonoError};
use crate::text::{
    debug_str, debug_string, decimal, decimal_string, has_infix, i32_string, int_decimal, join,
    join_strings, join_strs, str_contains, str_eq, str_views, trim, trimmed, upper_contains,
    upper_seq, views,
};
use vstd::prelude::*;

verus! {

/// The Base Filtering Engine platform service.
pub const WINDOWS_WFP_PLATFORM_SERVICE: &'static str = "BFE";

/// The user-mode WFP backend service.
pub const WINDOWS_WFP_BACKEND_SERVICE: &'static str = "nono-wfp-service";

/// The kernel driver service registration.
pub const WINDOWS_WFP_BACKEND_DRIVER: &'static str = "nono-wfp-driver";

/// The state of a Windows service as reported by `sc query`.
#[derive(Debug, Clone, Copy, PartialEq, Eq, Structural)]
pub enum WindowsServiceState {
    Running,
    Stopped,
    Missing,
    Unknown,
}

/// Readiness of the WFP backend components.
#[derive(Debug, Clone, Copy, PartialEq, Eq, Structural)]
pub enum WfpProbeStatus {
    Ready,
    BackendBinaryMissing,
    PlatformServiceMissing,
    PlatformServiceStopped,
    BackendServiceMissing,
    BackendServiceStopped,
    BackendDriverBinaryMissing,
    BackendDriverMissing,
    BackendDriverStopped,
}

/// Names and paths of the WFP backend components.
#[derive(Debug, Clone)]
pub struct WfpProbeConfig {
    pub platform_service: String,
    pub backend_service: String,
    pub backend_driver: String,
    pub backend_binary_path: String,
    pub backend_driver_binary_path: String,
    pub backend_service_args: Vec<String>,
}

// ---------------------------------------------------------------------------
// Service state and readiness
// ---------------------------------------------------------------------------

/// The service state an `sc query` output reports, read case-insensitively:
/// error 1060 or "does not exist" is missing; a STATE line saying RUNNING is
/// running; a STATE line saying STOPPED or STOP_PENDING is stopped;
/// anything else is unknown.
pub open spec fn service_state(output: Seq<char>) -> WindowsServiceState {
    let n = upper_seq(output);
    if has_infix(n, "FAILED 1060"@) || has_infix(n, "DOES NOT EXIST"@) {
        WindowsServiceState::Missing
    } else if has_infix(n, "STATE"@) && has_infix(n, "RUNNING"@) {
        WindowsServiceState::Running
    } else if has_infix(n, "STATE"@) && (has_infix(n, "STOPPED"@) || has_infix(n, "STOP_PENDING"@)) {
        WindowsServiceState::Stopped
    } else {
        WindowsServiceState::Unknown
    }
}

/// Reads the service state from `sc query` output.
pub fn parse_windows_service_state(output: &str) -> (r: WindowsServiceState)
    ensures
        r == service_state(output@),
{
    if upper_contains(output, "FAILED 1060") || upper_contains(output, "DOES NOT EXIST") {
        WindowsServiceState::Missing
    } else if upper_contains(output, "STATE") && upper_contains(output, "RUNNING") {
        WindowsServiceState::Running
    } else if upper_contains(output, "STATE") && (upper_contains(output, "STOPPED") || upper_contains(
        output,
        "STOP_PENDING",
    )) {
        WindowsServiceState::Stopped
    } else {
        WindowsServiceState::Unknown
    }
}

/// `sc create` failed because the service is already registered (error
/// 1073, "already exists", or "marked for deletion"), read case-insensitively.
pub open spec fn create_conflict(output: Seq<char>) -> bool {
    let n = upper_seq(output);
    has_infix(n, "FAILED 1073"@) || has_infix(n, "ALREADY EXISTS"@) || has_infix(n, "MARKED FOR DELETION"@)
}

/// Whether a failed `sc create` output says the service is already registered.
pub fn sc_create_conflict_is_registered(output: &str) -> (r: bool)
    ensures
        r == create_conflict(output@),
{
    upper_contains(output, "FAILED 1073") || upper_contains(output, "ALREADY EXISTS")
        || upper_contains(output, "MARKED FOR DELETION")
}

/// Readiness from the backend binary's presence and the two service states:
/// the binary must exist, then the platform service must run, then the
/// backend service must run. The kernel driver is not required.
pub open spec fn probe_status_spec(
    backend_binary_exists: bool,
    platform_service: WindowsServiceState,
    backend_service: WindowsServiceState,
) -> WfpProbeStatus {
    if !backend_binary_exists {
        WfpProbeStatus::BackendBinaryMissing
    } else {
        match platform_service {
            WindowsServiceState::Missing | WindowsServiceState::Unknown => WfpProbeStatus::PlatformServiceMissing,
            WindowsServiceState::Stopped => WfpProbeStatus::PlatformServiceStopped,
            WindowsServiceState::Running => match backend_service {
                WindowsServiceState::Missing | WindowsServiceState::Unknown => WfpProbeStatus::BackendServiceMissing,
                WindowsServiceState::Stopped => WfpProbeStatus::BackendServiceStopped,
                WindowsServiceState::Running => WfpProbeStatus::Ready,
            },
        }
    }
}

/// Determines WFP readiness from the observed system state.
pub fn build_wfp_probe_status(
    backend_binary_exists: bool,
    platform_service: WindowsServiceState,
    backend_service: WindowsServiceState,
) -> (r: WfpProbeStatus)
    ensures
        r == probe_status_spec(backend_binary_exists, platform_service, backend_service),
{
    if !backend_binary_exists {
        return WfpProbeStatus::BackendBinaryMissing;
    }
    match platform_service {
        WindowsServiceState::Missing | WindowsServiceState::Unknown => {
            return WfpProbeStatus::PlatformServiceMissing;
        },
        WindowsServiceState::Stopped => return WfpProbeStatus::PlatformServiceStopped,
        WindowsServiceState::Running => {},
    }
    match backend_service {
        WindowsServiceState::Missing | WindowsServiceState::Unknown => {
            return WfpProbeStatus::BackendServiceMissing;
        },
        WindowsServiceState::Stopped => return WfpProbeStatus::BackendServiceStopped,
        WindowsServiceState::Running => {},
    }
    WfpProbeStatus::Ready
}

// ---------------------------------------------------------------------------
// `sc` command lines
// ---------------------------------------------------------------------------

/// The service startup command: the quoted binary path, a space, and the
/// service arguments joined by spaces.
pub open spec fn service_command(cfg: WfpProbeConfig) -> Seq<char> {
    "\""@ + cfg.backend_binary_path@ + "\" "@ + join(views(cfg.backend_service_args@), " "@)
}

/// Formats the service startup command.
pub fn format_wfp_service_command(config: &WfpProbeConfig) -> (r: String)
    ensures
        r@ == service_command(*config),
{
    let mut r = String::from_str("\"");
    r.append(config.backend_binary_path.as_str());
    r.append("\" ");
    let args = join_strings(config.backend_service_args.as_slice(), " ");
    r.append(args.as_str());
    r
}

pub open spec fn service_description() -> Seq<char> {
    "nono Windows Filtering Platform service. Enforces kernel-level network blocking for supervised nono runs via WFP ALE_AUTH filters. Start this service before issuing `nono run` with network.block:true."@
}

pub open spec fn driver_description() -> Seq<char> {
    "Placeholder kernel-driver registration for the future nono Windows WFP backend. Registration is supported; enforcement is not implemented yet."@
}

pub open spec fn service_create_args(cfg: WfpProbeConfig) -> Seq<Seq<char>> {
    seq![
        "create"@,
        cfg.backend_service@,
        "binPath="@,
        service_command(cfg),
        "start="@,
        "auto"@,
        "type="@,
        "own"@,
        "DisplayName="@,
        "nono WFP Service"@,
    ]
}

pub open spec fn driver_create_args(cfg: WfpProbeConfig) -> Seq<Seq<char>> {
    seq![
        "create"@,
        cfg.backend_driver@,
        "binPath="@,
        "\""@ + cfg.backend_driver_binary_path@ + "\""@,
        "type="@,
        "kernel"@,
        "start="@,
        "demand"@,
        "DisplayName="@,
        "nono WFP Driver"@,
    ]
}

/// `sc create` arguments registering the backend service.
pub fn build_wfp_service_create_args(config: &WfpProbeConfig) -> (r: Vec<String>)
    ensures
        views(r@) == service_create_args(*config),
{
    let r = vec![
        String::from_str("create"),
        config.backend_service.clone(),
        String::from_str("binPath="),
        format_wfp_service_command(config),
        String::from_str("start="),
        String::from_str("auto"),
        String::from_str("type="),
        String::from_str("own"),
        String::from_str("DisplayName="),
        String::from_str("nono WFP Service"),
    ];
    assert(views(r@) =~= service_create_args(*config));
    r
}

/// `sc description` arguments for the backend service.
pub fn build_wfp_service_description_args(config: &WfpProbeConfig) -> (r: Vec<String>)
    ensures
        views(r@) == seq!["description"@, config.backend_service@, service_description()],
{
    let r = vec![
        String::from_str("description"),
        config.backend_service.clone(),
        String::from_str(
            "nono Windows Filtering Platform service. Enforces kernel-level network blocking for supervised nono runs via WFP ALE_AUTH filters. Start this service before issuing `nono run` with network.block:true.",
        ),
    ];
    assert(views(r@) =~= seq!["description"@, config.backend_service@, service_description()]);
    r
}

/// `sc create` arguments registering the kernel driver, with the image path quoted.
pub fn build_wfp_driver_create_args(config: &WfpProbeConfig) -> (r: Vec<String>)
    ensures
        views(r@) == driver_create_args(*config),
{
    let mut path = String::from_str("\"");
    path.append(config.backend_driver_binary_path.as_str());
    path.append("\"");
    let r = vec![
        String::from_str("create"),
        config.backend_driver.clone(),
        String::from_str("binPath="),
        path,
        String::from_str("type="),
        String::from_str("kernel"),
        String::from_str("start="),
        String::from_str("demand"),
        String::from_str("DisplayName="),
        String::from_str("nono WFP Driver"),
    ];
    assert(views(r@) =~= driver_create_args(*config));
    r
}

/// `sc description` arguments for the kernel driver.
pub fn build_wfp_driver_description_args(config: &WfpProbeConfig) -> (r: Vec<String>)
    ensures
        views(r@) == seq!["description"@, config.backend_driver@, driver_description()],
{
    let r = vec![
        String::from_str("description"),
        config.backend_driver.clone(),
        String::from_str(
            "Placeholder kernel-driver registration for the future nono Windows WFP backend. Registration is supported; enforcement is not implemented yet.",
        ),
    ];
    assert(views(r@) =~= seq!["description"@, config.backend_driver@, driver_description()]);
    r
}

fn verb_args(verb: &str, name: &String) -> (r: Vec<String>)
    ensures
        views(r@) == seq![verb@, name@],
{
    let r = vec![String::from_str(verb), name.clone()];
    assert(views(r@) =~= seq![verb@, name@]);
    r
}

/// `sc start` arguments for the backend service.
pub fn build_wfp_service_start_args(config: &WfpProbeConfig) -> (r: Vec<String>)
    ensures
        views(r@) == seq!["start"@, config.backend_service@],
{
    verb_args("start", &config.backend_service)
}

/// `sc start` arguments for the kernel driver.
pub fn build_wfp_driver_start_args(config: &WfpProbeConfig) -> (r: Vec<String>)
    ensures
        views(r@) == seq!["start"@, config.backend_driver@],
{
    verb_args("start", &config.backend_driver)
}

/// `sc stop` arguments for the backend service.
pub fn build_wfp_service_stop_args(config: &WfpProbeConfig) -> (r: Vec<String>)
    ensures
        views(r@) == seq!["stop"@, config.backend_service@],
{
    verb_args("stop", &config.backend_service)
}

/// `sc delete` arguments for the backend service.
pub fn build_wfp_service_delete_args(config: &WfpProbeConfig) -> (r: Vec<String>)
    ensures
        views(r@) == seq!["delete"@, config.backend_service@],
{
    verb_args("delete", &config.backend_service)
}

/// `sc stop` arguments for the kernel driver.
pub fn build_wfp_driver_stop_args(config: &WfpProbeConfig) -> (r: Vec<String>)
    ensures
        views(r@) == seq!["stop"@, config.backend_driver@],
{
    verb_args("stop", &config.backend_driver)
}

/// `sc delete` arguments for the kernel driver.
pub fn build_wfp_driver_delete_args(config: &WfpProbeConfig) -> (r: Vec<String>)
    ensures
        views(r@) == seq!["delete"@, config.backend_driver@],
{
    verb_args("delete", &config.backend_driver)
}


// ---------------------------------------------------------------------------
// Setup descriptions of each readiness state
// ---------------------------------------------------------------------------

/// The readiness details `nono setup` prints for each state.
pub open spec fn probe_status_details(cfg: WfpProbeConfig, status: WfpProbeStatus) -> Seq<char> {
    match status {
        WfpProbeStatus::Ready => "WFP backend components are present (service binary: "@ + cfg.backend_binary_path@ + ", driver binary: "@ + cfg.backend_driver_binary_path@ + ", service: "@ + cfg.backend_service@ + ", driver: "@ + cfg.backend_driver@ + "), and live network-policy activation now depends on the service-host runtime transport. Expected service command: "@ + service_command(cfg) + "."@,
        WfpProbeStatus::BackendBinaryMissing => "Expected WFP backend service binary is missing: "@ + cfg.backend_binary_path@ + ". Expected service: "@ + cfg.backend_service@ + ". Expected driver: "@ + cfg.backend_driver@ + ". Expected driver binary: "@ + cfg.backend_driver_binary_path@ + ". Expected registration/start command: "@ + service_command(cfg) + "."@,
        WfpProbeStatus::PlatformServiceMissing => "Base Filtering Engine service ("@ + cfg.platform_service@ + ") is missing or could not be queried."@,
        WfpProbeStatus::PlatformServiceStopped => "Base Filtering Engine service ("@ + cfg.platform_service@ + ") is not running."@,
        WfpProbeStatus::BackendServiceMissing => "WFP backend service is missing: "@ + cfg.backend_service@ + ". Register it to launch "@ + cfg.backend_service@ + " with: "@ + service_command(cfg) + "."@,
        WfpProbeStatus::BackendServiceStopped => "WFP backend service is installed but not running: "@ + cfg.backend_service@ + ". Its expected startup command remains: "@ + service_command(cfg) + "."@,
        WfpProbeStatus::BackendDriverBinaryMissing => "WFP backend driver binary is missing: "@ + cfg.backend_driver_binary_path@ + ". Expected driver registration name: "@ + cfg.backend_driver@ + "."@,
        WfpProbeStatus::BackendDriverMissing => "WFP backend driver is not registered: "@ + cfg.backend_driver@ + ". Expected driver binary: "@ + cfg.backend_driver_binary_path@ + "."@,
        WfpProbeStatus::BackendDriverStopped => "WFP backend driver is installed but not running: "@ + cfg.backend_driver@ + ". Expected driver binary: "@ + cfg.backend_driver_binary_path@ + "."@,
    }
}

/// Describes the overall WFP readiness state for `nono setup`.
pub fn describe_wfp_probe_status_for_setup(config: &WfpProbeConfig, status: WfpProbeStatus) -> (r: String)
    ensures
        r@ == probe_status_details(*config, status),
{
    let cmd = format_wfp_service_command(config);
    match status {
        WfpProbeStatus::Ready => {
            let mut r = String::from_str("WFP backend components are present (service binary: ");
            r.append(config.backend_binary_path.as_str());
            r.append(", driver binary: ");
            r.append(config.backend_driver_binary_path.as_str());
            r.append(", service: ");
            r.append(config.backend_service.as_str());
            r.append(", driver: ");
            r.append(config.backend_driver.as_str());
            r.append("), and live network-policy activation now depends on the service-host runtime transport. Expected service command: ");
            r.append(cmd.as_str());
            r.append(".");
            r
        },
        WfpProbeStatus::BackendBinaryMissing => {
            let mut r = String::from_str("Expected WFP backend service binary is missing: ");
            r.append(config.backend_binary_path.as_str());
            r.append(". Expected service: ");
            r.append(config.backend_service.as_str());
            r.append(". Expected driver: ");
            r.append(config.backend_driver.as_str());
            r.append(". Expected driver binary: ");
            r.append(config.backend_driver_binary_path.as_str());
            r.append(". Expected registration/start command: ");
            r.append(cmd.as_str());
            r.append(".");
            r
        },
        WfpProbeStatus::PlatformServiceMissing => {
            let mut r = String::from_str("Base Filtering Engine service (");
            r.append(config.platform_service.as_str());
            r.append(") is missing or could not be queried.");
            r
        },
        WfpProbeStatus::PlatformServiceStopped => {
            let mut r = String::from_str("Base Filtering Engine service (");
            r.append(config.platform_service.as_str());
            r.append(") is not running.");
            r
        },
        WfpProbeStatus::BackendServiceMissing => {
            let mut r = String::from_str("WFP backend service is missing: ");
            r.append(config.backend_service.as_str());
            r.append(". Register it to launch ");
            r.append(config.backend_service.as_str());
            r.append(" with: ");
            r.append(cmd.as_str());
            r.append(".");
            r
        },
        WfpProbeStatus::BackendServiceStopped => {
            let mut r = String::from_str("WFP backend service is installed but not running: ");
            r.append(config.backend_service.as_str());
            r.append(". Its expected startup command remains: ");
            r.append(cmd.as_str());
            r.append(".");
            r
        },
        WfpProbeStatus::BackendDriverBinaryMissing => {
            let mut r = String::from_str("WFP backend driver binary is missing: ");
            r.append(config.backend_driver_binary_path.as_str());
            r.append(". Expected driver registration name: ");
            r.append(config.backend_driver.as_str());
            r.append(".");
            r
        },
        WfpProbeStatus::BackendDriverMissing => {
            let mut r = String::from_str("WFP backend driver is not registered: ");
            r.append(config.backend_driver.as_str());
            r.append(". Expected driver binary: ");
            r.append(config.backend_driver_binary_path.as_str());
            r.append(".");
            r
        },
        WfpProbeStatus::BackendDriverStopped => {
            let mut r = String::from_str("WFP backend driver is installed but not running: ");
            r.append(config.backend_driver.as_str());
            r.append(". Expected driver binary: ");
            r.append(config.backend_driver_binary_path.as_str());
            r.append(".");
            r
        },
    }
}

/// The backend service line `nono setup` prints for each state. (label)
pub open spec fn service_status_label(status: WfpProbeStatus) -> Seq<char> {
    match status {
        WfpProbeStatus::Ready => "ready"@,
        WfpProbeStatus::BackendBinaryMissing => "missing binary"@,
        WfpProbeStatus::PlatformServiceMissing => "blocked by bfe"@,
        WfpProbeStatus::PlatformServiceStopped => "blocked by bfe"@,
        WfpProbeStatus::BackendServiceMissing => "not registered"@,
        WfpProbeStatus::BackendServiceStopped => "stopped"@,
        WfpProbeStatus::BackendDriverBinaryMissing => "ready"@,
        WfpProbeStatus::BackendDriverMissing => "ready"@,
        WfpProbeStatus::BackendDriverStopped => "ready"@,
    }
}

/// The backend service line `nono setup` prints for each state. (details)
pub open spec fn service_status_details(cfg: WfpProbeConfig, status: WfpProbeStatus) -> Seq<char> {
    match status {
        WfpProbeStatus::Ready => "WFP backend service "@ + cfg.backend_service@ + " is present and running. Expected startup command: "@ + service_command(cfg) + "."@,
        WfpProbeStatus::BackendBinaryMissing => "WFP backend service binary is missing: "@ + cfg.backend_binary_path@ + ". Expected service registration name: "@ + cfg.backend_service@ + ". Expected startup command: "@ + service_command(cfg) + "."@,
        WfpProbeStatus::PlatformServiceMissing => "WFP backend service readiness is blocked because the Base Filtering Engine service ("@ + cfg.platform_service@ + ") is missing or could not be queried."@,
        WfpProbeStatus::PlatformServiceStopped => "WFP backend service readiness is blocked because the Base Filtering Engine service ("@ + cfg.platform_service@ + ") is not running."@,
        WfpProbeStatus::BackendServiceMissing => "WFP backend service is not registered: "@ + cfg.backend_service@ + ". Register it to launch "@ + cfg.backend_service@ + " with: "@ + service_command(cfg) + "."@,
        WfpProbeStatus::BackendServiceStopped => "WFP backend service is registered but not running: "@ + cfg.backend_service@ + ". Its expected startup command remains: "@ + service_command(cfg) + "."@,
        WfpProbeStatus::BackendDriverBinaryMissing => "WFP backend service "@ + cfg.backend_service@ + " is present and running. Expected startup command: "@ + service_command(cfg) + "."@,
        WfpProbeStatus::BackendDriverMissing => "WFP backend service "@ + cfg.backend_service@ + " is present and running. Expected startup command: "@ + service_command(cfg) + "."@,
        WfpProbeStatus::BackendDriverStopped => "WFP backend service "@ + cfg.backend_service@ + " is present and running. Expected startup command: "@ + service_command(cfg) + "."@,
    }
}

/// Describes the backend service state for `nono setup`: a status label and details. The driver states report the service as ready.
pub fn describe_wfp_service_status_for_setup(config: &WfpProbeConfig, status: WfpProbeStatus) -> (r: (&'static str, String))
    ensures
        r.0@ == service_status_label(status),
        r.1@ == service_status_details(*config, status),
{
    let cmd = format_wfp_service_command(config);
    match status {
        WfpProbeStatus::Ready => ("ready", {
            let mut r = String::from_str("WFP backend service ");
            r.append(config.backend_service.as_str());
            r.append(" is present and running. Expected startup command: ");
            r.append(cmd.as_str());
            r.append(".");
            r
        }),
        WfpProbeStatus::BackendBinaryMissing => ("missing binary", {
            let mut r = String::from_str("WFP backend service binary is missing: ");
            r.append(config.backend_binary_path.as_str());
            r.append(". Expected service registration name: ");
            r.append(config.backend_service.as_str());
            r.append(". Expected startup command: ");
            r.append(cmd.as_str());
            r.append(".");
            r
        }),
        WfpProbeStatus::PlatformServiceMissing => ("blocked by bfe", {
            let mut r = String::from_str("WFP backend service readiness is blocked because the Base Filtering Engine service (");
            r.append(config.platform_service.as_str());
            r.append(") is missing or could not be queried.");
            r
        }),
        WfpProbeStatus::PlatformServiceStopped => ("blocked by bfe", {
            let mut r = String::from_str("WFP backend service readiness is blocked because the Base Filtering Engine service (");
            r.append(config.platform_service.as_str());
            r.append(") is not running.");
            r
        }),
        WfpProbeStatus::BackendServiceMissing => ("not registered", {
            let mut r = String::from_str("WFP backend service is not registered: ");
            r.append(config.backend_service.as_str());
            r.append(". Register it to launch ");
            r.append(config.backend_service.as_str());
            r.append(" with: ");
            r.append(cmd.as_str());
            r.append(".");
            r
        }),
        WfpProbeStatus::BackendServiceStopped => ("stopped", {
            let mut r = String::from_str("WFP backend service is registered but not running: ");
            r.append(config.backend_service.as_str());
            r.append(". Its expected startup command remains: ");
            r.append(cmd.as_str());
            r.append(".");
            r
        }),
        WfpProbeStatus::BackendDriverBinaryMissing => ("ready", {
            let mut r = String::from_str("WFP backend service ");
            r.append(config.backend_service.as_str());
            r.append(" is present and running. Expected startup command: ");
            r.append(cmd.as_str());
            r.append(".");
            r
        }),
        WfpProbeStatus::BackendDriverMissing => ("ready", {
            let mut r = String::from_str("WFP backend service ");
            r.append(config.backend_service.as_str());
            r.append(" is present and running. Expected startup command: ");
            r.append(cmd.as_str());
            r.append(".");
            r
        }),
        WfpProbeStatus::BackendDriverStopped => ("ready", {
            let mut r = String::from_str("WFP backend service ");
            r.append(config.backend_service.as_str());
            r.append(" is present and running. Expected startup command: ");
            r.append(cmd.as_str());
            r.append(".");
            r
        }),
    }
}

/// The kernel driver line `nono setup` prints for each state. (label)
pub open spec fn driver_status_label(status: WfpProbeStatus) -> Seq<char> {
    match status {
        WfpProbeStatus::Ready => "ready"@,
        WfpProbeStatus::BackendBinaryMissing => "blocked by service"@,
        WfpProbeStatus::PlatformServiceMissing => "blocked by bfe"@,
        WfpProbeStatus::PlatformServiceStopped => "blocked by bfe"@,
        WfpProbeStatus::BackendServiceMissing => "blocked by service"@,
        WfpProbeStatus::BackendServiceStopped => "blocked by service"@,
        WfpProbeStatus::BackendDriverBinaryMissing => "missing binary"@,
        WfpProbeStatus::BackendDriverMissing => "not registered"@,
        WfpProbeStatus::BackendDriverStopped => "stopped"@,
    }
}

/// The kernel driver line `nono setup` prints for each state. (details)
pub open spec fn driver_status_details(cfg: WfpProbeConfig, status: WfpProbeStatus) -> Seq<char> {
    match status {
        WfpProbeStatus::Ready => "WFP backend driver "@ + cfg.backend_driver@ + " is present and running from binary "@ + cfg.backend_driver_binary_path@ + "."@,
        WfpProbeStatus::BackendBinaryMissing => "WFP backend driver readiness is blocked until the service binary "@ + cfg.backend_binary_path@ + " is available."@,
        WfpProbeStatus::PlatformServiceMissing => "WFP backend driver readiness is blocked because the Base Filtering Engine service ("@ + cfg.platform_service@ + ") is missing or could not be queried."@,
        WfpProbeStatus::PlatformServiceStopped => "WFP backend driver readiness is blocked because the Base Filtering Engine service ("@ + cfg.platform_service@ + ") is not running."@,
        WfpProbeStatus::BackendServiceMissing => "WFP backend driver readiness is blocked until the service "@ + cfg.backend_service@ + " is registered."@,
        WfpProbeStatus::BackendServiceStopped => "WFP backend driver readiness is blocked until the service "@ + cfg.backend_service@ + " is running."@,
        WfpProbeStatus::BackendDriverBinaryMissing => "WFP backend driver binary is missing: "@ + cfg.backend_driver_binary_path@ + ". Expected driver registration name: "@ + cfg.backend_driver@ + "."@,
        WfpProbeStatus::BackendDriverMissing => "WFP backend driver is not registered: "@ + cfg.backend_driver@ + ". Expected driver binary: "@ + cfg.backend_driver_binary_path@ + "."@,
        WfpProbeStatus::BackendDriverStopped => "WFP backend driver is registered but not running: "@ + cfg.backend_driver@ + ". Expected driver binary: "@ + cfg.backend_driver_binary_path@ + "."@,
    }
}

/// Describes the kernel driver state for `nono setup`: a status label and details.
pub fn describe_wfp_driver_status_for_setup(config: &WfpProbeConfig, status: WfpProbeStatus) -> (r: (&'static str, String))
    ensures
        r.0@ == driver_status_label(status),
        r.1@ == driver_status_details(*config, status),
{
    match status {
        WfpProbeStatus::Ready => ("ready", {
            let mut r = String::from_str("WFP backend driver ");
            r.append(config.backend_driver.as_str());
            r.append(" is present and running from binary ");
            r.append(config.backend_driver_binary_path.as_str());
            r.append(".");
            r
        }),
        WfpProbeStatus::BackendBinaryMissing => ("blocked by service", {
            let mut r = String::from_str("WFP backend driver readiness is blocked until the service binary ");
            r.append(config.backend_binary_path.as_str());
            r.append(" is available.");
            r
        }),
        WfpProbeStatus::PlatformServiceMissing => ("blocked by bfe", {
            let mut r = String::from_str("WFP backend driver readiness is blocked because the Base Filtering Engine service (");
            r.append(config.platform_service.as_str());
            r.append(") is missing or could not be queried.");
            r
        }),
        WfpProbeStatus::PlatformServiceStopped => ("blocked by bfe", {
            let mut r = String::from_str("WFP backend driver readiness is blocked because the Base Filtering Engine service (");
            r.append(config.platform_service.as_str());
            r.append(") is not running.");
            r
        }),
        WfpProbeStatus::BackendServiceMissing => ("blocked by service", {
            let mut r = String::from_str("WFP backend driver readiness is blocked until the service ");
            r.append(config.backend_service.as_str());
            r.append(" is registered.");
            r
        }),
        WfpProbeStatus::BackendServiceStopped => ("blocked by service", {
            let mut r = String::from_str("WFP backend driver readiness is blocked until the service ");
            r.append(config.backend_service.as_str());
            r.append(" is running.");
            r
        }),
        WfpProbeStatus::BackendDriverBinaryMissing => ("missing binary", {
            let mut r = String::from_str("WFP backend driver binary is missing: ");
            r.append(config.backend_driver_binary_path.as_str());
            r.append(". Expected driver registration name: ");
            r.append(config.backend_driver.as_str());
            r.append(".");
            r
        }),
        WfpProbeStatus::BackendDriverMissing => ("not registered", {
            let mut r = String::from_str("WFP backend driver is not registered: ");
            r.append(config.backend_driver.as_str());
            r.append(". Expected driver binary: ");
            r.append(config.backend_driver_binary_path.as_str());
            r.append(".");
            r
        }),
        WfpProbeStatus::BackendDriverStopped => ("stopped", {
            let mut r = String::from_str("WFP backend driver is registered but not running: ");
            r.append(config.backend_driver.as_str());
            r.append(". Expected driver binary: ");
            r.append(config.backend_driver_binary_path.as_str());
            r.append(".");
            r
        }),
    }
}

/// The next action `nono setup` suggests for each state.
pub open spec fn next_action_text(cfg: WfpProbeConfig, status: WfpProbeStatus) -> Seq<char> {
    match status {
        WfpProbeStatus::Ready => "Next action: Windows WFP components are present and the service can activate kernel WFP filters; runtime activation will proceed."@,
        WfpProbeStatus::BackendBinaryMissing => "Next action: build the Windows backend artifacts first with `cargo build -p nono-cli --bins` so `"@ + cfg.backend_binary_path@ + "` exists."@,
        WfpProbeStatus::PlatformServiceMissing => "Next action: verify that the Windows Base Filtering Engine service `"@ + cfg.platform_service@ + "` is available on this machine."@,
        WfpProbeStatus::PlatformServiceStopped => "Next action: start the Windows Base Filtering Engine service `"@ + cfg.platform_service@ + "` before retrying WFP setup or activation."@,
        WfpProbeStatus::BackendServiceMissing => "Next action: run `nono setup --install-wfp-service`."@,
        WfpProbeStatus::BackendServiceStopped => "Next action: run `nono setup --start-wfp-service`."@,
        WfpProbeStatus::BackendDriverBinaryMissing => "Next action: build the Windows backend artifacts first with `cargo build -p nono-cli --bins` so `"@ + cfg.backend_driver_binary_path@ + "` exists."@,
        WfpProbeStatus::BackendDriverMissing => "Next action: run `nono setup --install-wfp-driver`."@,
        WfpProbeStatus::BackendDriverStopped => "Next action: run `nono setup --start-wfp-driver`."@,
    }
}

/// Suggests the next setup action for a readiness state; every state has one.
pub fn describe_wfp_next_action_for_setup(config: &WfpProbeConfig, status: WfpProbeStatus) -> (r: Option<String>)
    ensures
        r matches Some(t) && t@ == next_action_text(*config, status),
{
    match status {
        WfpProbeStatus::Ready => Some({
            let mut r = String::from_str("Next action: Windows WFP components are present and the service can activate kernel WFP filters; runtime activation will proceed.");
            r
        }),
        WfpProbeStatus::BackendBinaryMissing => Some({
            let mut r = String::from_str("Next action: build the Windows backend artifacts first with `cargo build -p nono-cli --bins` so `");
            r.append(config.backend_binary_path.as_str());
            r.append("` exists.");
            r
        }),
        WfpProbeStatus::PlatformServiceMissing => Some({
            let mut r = String::from_str("Next action: verify that the Windows Base Filtering Engine service `");
            r.append(config.platform_service.as_str());
            r.append("` is available on this machine.");
            r
        }),
        WfpProbeStatus::PlatformServiceStopped => Some({
            let mut r = String::from_str("Next action: start the Windows Base Filtering Engine service `");
            r.append(config.platform_service.as_str());
            r.append("` before retrying WFP setup or activation.");
            r
        }),
        WfpProbeStatus::BackendServiceMissing => Some({
            let mut r = String::from_str("Next action: run `nono setup --install-wfp-service`.");
            r
        }),
        WfpProbeStatus::BackendServiceStopped => Some({
            let mut r = String::from_str("Next action: run `nono setup --start-wfp-service`.");
            r
        }),
        WfpProbeStatus::BackendDriverBinaryMissing => Some({
            let mut r = String::from_str("Next action: build the Windows backend artifacts first with `cargo build -p nono-cli --bins` so `");
            r.append(config.backend_driver_binary_path.as_str());
            r.append("` exists.");
            r
        }),
        WfpProbeStatus::BackendDriverMissing => Some({
            let mut r = String::from_str("Next action: run `nono setup --install-wfp-driver`.");
            r
        }),
        WfpProbeStatus::BackendDriverStopped => Some({
            let mut r = String::from_str("Next action: run `nono setup --start-wfp-driver`.");
            r
        }),
    }
}

/// The overall readiness label for each state.
pub open spec fn readiness_label(status: WfpProbeStatus) -> Seq<char> {
    match status {
        WfpProbeStatus::Ready => "ready"@,
        WfpProbeStatus::BackendBinaryMissing => "missing binary"@,
        WfpProbeStatus::PlatformServiceMissing => "missing bfe"@,
        WfpProbeStatus::PlatformServiceStopped => "bfe stopped"@,
        WfpProbeStatus::BackendServiceMissing => "missing service"@,
        WfpProbeStatus::BackendServiceStopped => "service stopped"@,
        WfpProbeStatus::BackendDriverBinaryMissing => "missing driver binary"@,
        WfpProbeStatus::BackendDriverMissing => "driver not registered"@,
        WfpProbeStatus::BackendDriverStopped => "driver stopped"@,
    }
}

/// The overall readiness label of a state.
pub fn readiness_status_label(status: WfpProbeStatus) -> (r: &'static str)
    ensures
        r@ == readiness_label(status),
{
    match status {
        WfpProbeStatus::Ready => "ready",
        WfpProbeStatus::BackendBinaryMissing => "missing binary",
        WfpProbeStatus::PlatformServiceMissing => "missing bfe",
        WfpProbeStatus::PlatformServiceStopped => "bfe stopped",
        WfpProbeStatus::BackendServiceMissing => "missing service",
        WfpProbeStatus::BackendServiceStopped => "service stopped",
        WfpProbeStatus::BackendDriverBinaryMissing => "missing driver binary",
        WfpProbeStatus::BackendDriverMissing => "driver not registered",
        WfpProbeStatus::BackendDriverStopped => "driver stopped",
    }
}


// ---------------------------------------------------------------------------
// Runtime activation replies
// ---------------------------------------------------------------------------

/// The argument the service binary takes to run one runtime probe.
pub const WINDOWS_WFP_RUNTIME_PROBE_ARG: &'static str = "--runtime-probe";

/// The WFP service's reply to a runtime request.
#[derive(Debug, Clone)]
pub struct WfpRuntimeActivationResponse {
    pub protocol_version: u32,
    pub status: String,
    pub details: String,
}

/// One runtime exchange with the WFP service.
#[derive(Debug, Clone)]
pub struct WfpRuntimeProbeOutput {
    pub status_code: Option<i32>,
    pub response: WfpRuntimeActivationResponse,
    pub stderr: String,
}

/// The accepted runtime activation states.
#[derive(Debug, Clone, Copy, PartialEq, Eq, Structural)]
pub enum WfpRuntimeActivationProbeStatus {
    Ready,
    AcceptedButNotEnforced,
    EnforcedPendingCleanup,
    CleanupSucceeded,
    FilteringProbeSucceeded,
    NotImplemented,
}

/// `Debug` rendering of an optional exit status.
pub open spec fn debug_status_code(c: Option<i32>) -> Seq<char> {
    match c {
        Some(n) => "Some("@ + int_decimal(n as int) + ")"@,
        None => "None"@,
    }
}

/// `Debug` rendering of a runtime reply.
pub open spec fn debug_response(r: WfpRuntimeActivationResponse) -> Seq<char> {
    "WfpRuntimeActivationResponse { protocol_version: "@ + decimal(r.protocol_version as nat)
        + ", status: "@ + debug_str(r.status@) + ", details: "@ + debug_str(r.details@) + " }"@
}

fn format_status_code(c: Option<i32>) -> (r: String)
    ensures
        r@ == debug_status_code(c),
{
    match c {
        Some(n) => {
            let mut r = String::from_str("Some(");
            let d = i32_string(n);
            r.append(d.as_str());
            r.append(")");
            r
        },
        None => String::from_str("None"),
    }
}

pub fn format_response(resp: &WfpRuntimeActivationResponse) -> (r: String)
    ensures
        r@ == debug_response(*resp),
{
    let mut r = String::from_str("WfpRuntimeActivationResponse { protocol_version: ");
    let v = decimal_string(resp.protocol_version as u64);
    r.append(v.as_str());
    r.append(", status: ");
    let st = debug_string(resp.status.as_str());
    r.append(st.as_str());
    r.append(", details: ");
    let de = debug_string(resp.details.as_str());
    r.append(de.as_str());
    r.append(" }");
    r
}

/// How a runtime reply is read: each known accepted status maps to its
/// state, each known refusal to an error carrying the reply's details, and
/// anything else to an error quoting the whole exchange.
pub open spec fn runtime_status_spec(o: WfpRuntimeProbeOutput) -> Result<WfpRuntimeActivationProbeStatus, ErrorView> {
    let st = o.response.status@;
    let d = o.response.details@;
    if st == "ready"@ {
        Ok(WfpRuntimeActivationProbeStatus::Ready)
    } else if st == "accepted-but-not-enforced"@ {
        Ok(WfpRuntimeActivationProbeStatus::AcceptedButNotEnforced)
    } else if st == "enforced-pending-cleanup"@ {
        Ok(WfpRuntimeActivationProbeStatus::EnforcedPendingCleanup)
    } else if st == "cleanup-succeeded"@ {
        Ok(WfpRuntimeActivationProbeStatus::CleanupSucceeded)
    } else if st == "filtering-probe-succeeded"@ {
        Ok(WfpRuntimeActivationProbeStatus::FilteringProbeSucceeded)
    } else if st == "not-implemented"@ {
        Ok(WfpRuntimeActivationProbeStatus::NotImplemented)
    } else if st == "invalid-request"@ {
        Err(err_of(ErrorKind::UnsupportedPlatform, "Windows WFP service rejected the runtime activation request: "@ + d))
    } else if st == "protocol-mismatch"@ {
        Err(err_of(ErrorKind::SandboxInit, "Windows WFP activation protocol mismatch: "@ + d))
    } else if st == "prerequisites-missing"@ {
        Err(err_of(ErrorKind::UnsupportedPlatform, "Windows WFP activation prerequisites are missing: "@ + d))
    } else if st == "filtering-probe-failed"@ {
        Err(err_of(ErrorKind::UnsupportedPlatform, "Windows WFP service could not install its network-policy filtering probe: "@ + d))
    } else if st == "cleanup-failed"@ {
        Err(err_of(ErrorKind::UnsupportedPlatform, "Windows WFP service could not clean up target-attached network-policy enforcement: "@ + d))
    } else {
        Err(err_of(ErrorKind::SandboxInit, "Windows WFP runtime probe returned unexpected response (status: "@ + debug_status_code(o.status_code)
            + ", response: "@ + debug_response(o.response) + ", stderr: "@ + debug_str(o.stderr@) + ")"@))
    }
}

/// Reads the state of a runtime reply.
pub fn parse_wfp_runtime_probe_status(output: &WfpRuntimeProbeOutput) -> (r: Result<WfpRuntimeActivationProbeStatus, NonoError>)
    ensures
        result_view(r) == runtime_status_spec(*output),
{
    let st = output.response.status.as_str();
    let details = output.response.details.as_str();
    if str_eq(st, "ready") {
        return Ok(WfpRuntimeActivationProbeStatus::Ready);
    }
    if str_eq(st, "accepted-but-not-enforced") {
        return Ok(WfpRuntimeActivationProbeStatus::AcceptedButNotEnforced);
    }
    if str_eq(st, "enforced-pending-cleanup") {
        return Ok(WfpRuntimeActivationProbeStatus::EnforcedPendingCleanup);
    }
    if str_eq(st, "cleanup-succeeded") {
        return Ok(WfpRuntimeActivationProbeStatus::CleanupSucceeded);
    }
    if str_eq(st, "filtering-probe-succeeded") {
        return Ok(WfpRuntimeActivationProbeStatus::FilteringProbeSucceeded);
    }
    if str_eq(st, "not-implemented") {
        return Ok(WfpRuntimeActivationProbeStatus::NotImplemented);
    }
    if str_eq(st, "invalid-request") {
        let mut m = String::from_str("Windows WFP service rejected the runtime activation request: ");
        m.append(details);
        return Err(NonoError::UnsupportedPlatform(m));
    }
    if str_eq(st, "protocol-mismatch") {
        let mut m = String::from_str("Windows WFP activation protocol mismatch: ");
        m.append(details);
        return Err(NonoError::SandboxInit(m));
    }
    if str_eq(st, "prerequisites-missing") {
        let mut m = String::from_str("Windows WFP activation prerequisites are missing: ");
        m.append(details);
        return Err(NonoError::UnsupportedPlatform(m));
    }
    if str_eq(st, "filtering-probe-failed") {
        let mut m = String::from_str("Windows WFP service could not install its network-policy filtering probe: ");
        m.append(details);
        return Err(NonoError::UnsupportedPlatform(m));
    }
    if str_eq(st, "cleanup-failed") {
        let mut m = String::from_str("Windows WFP service could not clean up target-attached network-policy enforcement: ");
        m.append(details);
        return Err(NonoError::UnsupportedPlatform(m));
    }
    let mut m = String::from_str("Windows WFP runtime probe returned unexpected response (status: ");
    let code = format_status_code(output.status_code);
    m.append(code.as_str());
    m.append(", response: ");
    let resp = format_response(&output.response);
    m.append(resp.as_str());
    m.append(", stderr: ");
    let se = debug_string(output.stderr.as_str());
    m.append(se.as_str());
    m.append(")");
    Err(NonoError::SandboxInit(m))
}

/// The description of a runtime exchange in an unexpected state.
pub open spec fn runtime_probe_failure_text(cfg: WfpProbeConfig, o: WfpRuntimeProbeOutput) -> Seq<char> {
    "the WFP service probe `"@ + cfg.backend_binary_path@ + "` "@ + WINDOWS_WFP_RUNTIME_PROBE_ARG@
        + " reported an unexpected runtime activation state (status: "@ + debug_status_code(o.status_code)
        + ", response: "@ + debug_response(o.response) + ", stderr: "@ + debug_str(o.stderr@) + ")"@
}

/// Describes a runtime exchange that ended in an unexpected state.
pub fn describe_wfp_runtime_probe_failure(config: &WfpProbeConfig, output: &WfpRuntimeProbeOutput) -> (r: String)
    ensures
        r@ == runtime_probe_failure_text(*config, *output),
{
    let mut m = String::from_str("the WFP service probe `");
    m.append(config.backend_binary_path.as_str());
    m.append("` ");
    m.append(WINDOWS_WFP_RUNTIME_PROBE_ARG);
    m.append(" reported an unexpected runtime activation state (status: ");
    let code = format_status_code(output.status_code);
    m.append(code.as_str());
    m.append(", response: ");
    let resp = format_response(&output.response);
    m.append(resp.as_str());
    m.append(", stderr: ");
    let se = debug_string(output.stderr.as_str());
    m.append(se.as_str());
    m.append(")");
    m
}

// ---------------------------------------------------------------------------
// Firewall rule failures
// ---------------------------------------------------------------------------

pub open spec fn firewall_elevation_detail() -> Seq<char> {
    "Windows blocked-network enforcement currently uses temporary Windows Firewall rules and requires an elevated administrator session on this machine. The long-term Windows backend target is WFP."@
}

pub open spec fn firewall_silent_detail() -> Seq<char> {
    "Windows Firewall did not return diagnostic output. The current blocked-network backend uses temporary Windows Firewall rules; the long-term backend target is WFP."@
}

/// The detail of a failed firewall command: elevation is required when the
/// output says so or reports access denied; a blank output says nothing was
/// reported; otherwise the trimmed output is quoted.
pub open spec fn firewall_failure_detail(output: Seq<char>) -> Seq<char> {
    if has_infix(output, "requires elevation"@) || has_infix(output, "Access is denied"@) {
        firewall_elevation_detail()
    } else if trim(output).len() == 0 {
        firewall_silent_detail()
    } else {
        trim(output) + " (current backend: Windows Firewall rules; preferred backend: WFP)"@
    }
}

/// The error for a failed firewall rule command.
pub open spec fn firewall_failure_spec(args: Seq<Seq<char>>, output: Seq<char>) -> ErrorView {
    err_of(
        ErrorKind::SandboxInit,
        "Failed to apply Windows blocked-network rule (args: "@ + join(args, " "@) + "): "@
            + firewall_failure_detail(output),
    )
}

/// Classifies the failure of a firewall rule command from its output.
pub fn classify_netsh_firewall_failure(args: &[&str], output: &str) -> (r: NonoError)
    ensures
        error_view(r) == firewall_failure_spec(str_views(args@), output@),
{
    let detail = if str_contains(output, "requires elevation") || str_contains(output, "Access is denied") {
        String::from_str(
            "Windows blocked-network enforcement currently uses temporary Windows Firewall rules and requires an elevated administrator session on this machine. The long-term Windows backend target is WFP.",
        )
    } else {
        let t = trimmed(output);
        if t.as_str().is_empty() {
            String::from_str(
                "Windows Firewall did not return diagnostic output. The current blocked-network backend uses temporary Windows Firewall rules; the long-term backend target is WFP.",
            )
        } else {
            let mut d = t;
            d.append(" (current backend: Windows Firewall rules; preferred backend: WFP)");
            d
        }
    };
    let mut m = String::from_str("Failed to apply Windows blocked-network rule (args: ");
    let joined = join_strs(args, " ");
    m.append(joined.as_str());
    m.append("): ");
    m.append(detail.as_str());
    NonoError::SandboxInit(m)
}



// ---------------------------------------------------------------------------
// Service lifecycle through caller-supplied runners
// ---------------------------------------------------------------------------

/// The query runner, asked about the service `name`, may answer `o`.
pub open spec fn query_gives<Q: Fn(&str) -> Result<String, NonoError>>(q: Q, name: Seq<char>, o: Result<String, NonoError>) -> bool {
    exists|s: &str| s@ == name && #[trigger] call_ensures(q, (s,), o)
}

/// The command runner, given the arguments `args`, may answer `o`.
pub open spec fn run_gives<R: Fn(&[String]) -> Result<String, NonoError>>(r: R, args: Seq<Seq<char>>, o: Result<String, NonoError>) -> bool {
    exists|a: &[String]| views(a@) == args && #[trigger] call_ensures(r, (a,), o)
}

/// One answer of the service manager, in the order given.
#[derive(Debug)]
pub enum ScAnswer {
    /// The answer to a query of a service's state.
    Queried(Result<String, NonoError>),
    /// The answer to a command.
    Ran(Result<String, NonoError>),
}

/// What an operation does next with the service manager.
#[derive(Debug)]
pub enum ScStep {
    /// Query the state of the named service.
    Query(String),
    /// Run the command with these arguments.
    Run(Vec<String>),
    /// The operation is over, with this outcome.
    Finish(Result<WindowsWfpReport, NonoError>),
    /// The answers given do not arise from this operation.
    Invalid,
}

/// A step by its plain values; an outcome is a label and details, or an
/// error by kind and detail.
pub enum ScStepView {
    Query(Seq<char>),
    Run(Seq<Seq<char>>),
    Finish(Result<(Seq<char>, Seq<char>), ErrorView>),
    Invalid,
}

/// An outcome by its plain values.
pub open spec fn outcome_view(r: Result<WindowsWfpReport, NonoError>) -> Result<(Seq<char>, Seq<char>), ErrorView> {
    match r {
        Ok(rep) => Ok((rep.status_label@, rep.details@)),
        Err(e) => Err(error_view(e)),
    }
}

pub open spec fn step_view(s: ScStep) -> ScStepView {
    match s {
        ScStep::Query(n) => ScStepView::Query(n@),
        ScStep::Run(a) => ScStepView::Run(views(a@)),
        ScStep::Finish(r) => ScStepView::Finish(outcome_view(r)),
        ScStep::Invalid => ScStepView::Invalid,
    }
}

/// The answer `a` is one the runners may give to the step `s`.
pub open spec fn fits<Q: Fn(&str) -> Result<String, NonoError>, R: Fn(&[String]) -> Result<String, NonoError>>(
    q: Q,
    r: R,
    s: ScStepView,
    a: ScAnswer,
) -> bool {
    match s {
        ScStepView::Query(n) => a matches ScAnswer::Queried(o) && query_gives(q, n, o),
        ScStepView::Run(args) => a matches ScAnswer::Ran(o) && run_gives(r, args, o),
        _ => false,
    }
}

/// `h` is a conversation that `next` leads: each answer fits the step that
/// `next` decides on the answers before it.
pub open spec fn is_run<Q: Fn(&str) -> Result<String, NonoError>, R: Fn(&[String]) -> Result<String, NonoError>>(
    q: Q,
    r: R,
    next: spec_fn(Seq<ScAnswer>) -> ScStepView,
    h: Seq<ScAnswer>,
) -> bool {
    forall|i: int| 0 <= i < h.len() ==> #[trigger] fits(q, r, next(h.take(i)), h[i])
}

/// The step that ends with `s` when exactly `n` answers were given.
pub open spec fn last_step(h: Seq<ScAnswer>, n: nat, s: ScStepView) -> ScStepView {
    if h.len() == n {
        s
    } else {
        ScStepView::Invalid
    }
}

pub open spec fn fail_with(e: NonoError) -> ScStepView {
    ScStepView::Finish(Err(error_view(e)))
}

pub open spec fn finish_err(kind: ErrorKind, m: Seq<char>) -> ScStepView {
    ScStepView::Finish(Err(err_of(kind, m)))
}

pub open spec fn finish_ok(label: Seq<char>, details: Seq<char>) -> ScStepView {
    ScStepView::Finish(Ok((label, details)))
}

proof fn lemma_run_extends<Q: Fn(&str) -> Result<String, NonoError>, R: Fn(&[String]) -> Result<String, NonoError>>(
    q: Q,
    r: R,
    next: spec_fn(Seq<ScAnswer>) -> ScStepView,
    h: Seq<ScAnswer>,
    a: ScAnswer,
)
    requires
        is_run(q, r, next, h),
        fits(q, r, next(h), a),
    ensures
        is_run(q, r, next, h.push(a)),
{
    let g = h.push(a);
    assert forall|i: int| 0 <= i < g.len() implies #[trigger] fits(q, r, next(g.take(i)), g[i]) by {
        if i < h.len() {
            assert(g.take(i) =~= h.take(i));
            assert(fits(q, r, next(h.take(i)), h[i]));
        } else {
            assert(g.take(i) =~= h);
        }
    }
}

/// Holds the conversation with the service manager that `step` decides:
/// each step is queried of `step` with the answers so far, performed with
/// the runners, and its answer recorded, until `step` finishes.
fn converse<S, Q, R>(
    step: S,
    next: Ghost<spec_fn(Seq<ScAnswer>) -> ScStepView>,
    bound: usize,
    query_service: &Q,
    run_service_command: &R,
) -> (res: Result<WindowsWfpReport, NonoError>)
    where
        S: Fn(&[ScAnswer]) -> ScStep,
        Q: Fn(&str) -> Result<String, NonoError>,
        R: Fn(&[String]) -> Result<String, NonoError>,
    requires
        forall|h: &[ScAnswer]| call_requires(step, (h,)),
        forall|h: &[ScAnswer], s: ScStep| call_ensures(step, (h,), s) ==> step_view(s) == next@(h@),
        forall|h: Seq<ScAnswer>| #![trigger next@(h)] (next@(h) is Query || next@(h) is Run) ==> h.len() < bound,
        forall|h: Seq<ScAnswer>| #[trigger] is_run(*query_service, *run_service_command, next@, h) ==> !(next@(h) is Invalid),
        forall|s: &str| call_requires(*query_service, (s,)),
        forall|a: &[String]| call_requires(*run_service_command, (a,)),
    ensures
        exists|h: Seq<ScAnswer>| #[trigger] is_run(*query_service, *run_service_command, next@, h)
            && next@(h) == ScStepView::Finish(outcome_view(res)),
{
    let mut history: Vec<ScAnswer> = Vec::new();
    assert(is_run(*query_service, *run_service_command, next@, history@));
    loop
        invariant
            forall|h: &[ScAnswer]| call_requires(step, (h,)),
            forall|h: &[ScAnswer], s: ScStep| call_ensures(step, (h,), s) ==> step_view(s) == next@(h@),
            forall|h: Seq<ScAnswer>| #![trigger next@(h)] (next@(h) is Query || next@(h) is Run) ==> h.len() < bound,
            forall|h: Seq<ScAnswer>| #[trigger] is_run(*query_service, *run_service_command, next@, h) ==> !(next@(h) is Invalid),
            forall|s: &str| call_requires(*query_service, (s,)),
            forall|a: &[String]| call_requires(*run_service_command, (a,)),
            is_run(*query_service, *run_service_command, next@, history@),
            history@.len() <= bound,
        decreases bound - history@.len(),
    {
        let s = step(history.as_slice());
        let ghost h0 = history@;
        assert(step_view(s) == next@(h0));
        match s {
            ScStep::Query(name) => {
                let o = query_service(name.as_str());
                assert(query_gives(*query_service, name@, o));
                let a = ScAnswer::Queried(o);
                proof {
                    lemma_run_extends(*query_service, *run_service_command, next@, h0, a);
                }
                history.push(a);
            },
            ScStep::Run(args) => {
                let o = run_service_command(args.as_slice());
                assert(run_gives(*run_service_command, views(args@), o));
                let a = ScAnswer::Ran(o);
                proof {
                    lemma_run_extends(*query_service, *run_service_command, next@, h0, a);
                }
                history.push(a);
            },
            ScStep::Finish(res) => {
                return res;
            },
            ScStep::Invalid => {
                // A conversation that `step` leads always has a next step.
                assert(false);
                return Err(NonoError::NoCommand);
            },
        }
    }
}

fn copy_strings(v: &[String]) -> (r: Vec<String>)
    ensures
        views(r@) == views(v@),
{
    let mut r: Vec<String> = Vec::new();
    let mut i: usize = 0;
    while i < v.len()
        invariant
            i <= v.len(),
            views(r@) == views(v@).take(i as int),
        decreases v.len() - i,
    {
        let ghost rv = views(r@);
        r.push(v[i].clone());
        proof {
            assert(views(r@) =~= rv.push(v@[i as int]@));
            assert(views(v@).take(i + 1) =~= views(v@).take(i as int).push(v@[i as int]@));
        }
        i = i + 1;
    }
    proof {
        assert(views(v@).take(v.len() as int) =~= views(v@));
    }
    r
}

/// The removal conversation once the service is known to be installed
/// and, if it was running, the stop was run: `k` answers were given.
pub open spec fn remove_after_stop(name: Seq<char>, delete: Seq<Seq<char>>, h: Seq<ScAnswer>, k: nat) -> ScStepView {
    if h.len() == k {
        ScStepView::Run(delete)
    } else {
        match h[k as int] {
            ScAnswer::Ran(Err(e)) => last_step(h, k + 1, fail_with(e)),
            ScAnswer::Ran(Ok(_)) => if h.len() == k + 1 {
                ScStepView::Query(name)
            } else {
                match h[(k + 1) as int] {
                    ScAnswer::Queried(Err(e)) => last_step(h, k + 2, fail_with(e)),
                    ScAnswer::Queried(Ok(s3)) => last_step(
                        h,
                        k + 2,
                        finish_ok(
                            if service_state(s3@) == WindowsServiceState::Missing {
                                "removed"@
                            } else {
                                "removed (pending handle close)"@
                            },
                            Seq::empty(),
                        ),
                    ),
                    _ => ScStepView::Invalid,
                }
            },
            _ => ScStepView::Invalid,
        }
    }
}

/// The conversation of removing one service: a missing service is "not
/// installed" and untouched; otherwise a running service is stopped (its
/// answer ignored), the service is deleted, and a follow-up query tells
/// "removed" from "removed (pending handle close)". A failing query or
/// delete ends it. No command but the stop and the delete is run.
pub open spec fn remove_next(name: Seq<char>, stop: Seq<Seq<char>>, delete: Seq<Seq<char>>, h: Seq<ScAnswer>) -> ScStepView {
    if h.len() == 0 {
        ScStepView::Query(name)
    } else {
        match h[0] {
            ScAnswer::Queried(Err(e)) => last_step(h, 1, fail_with(e)),
            ScAnswer::Queried(Ok(s1)) => if service_state(s1@) == WindowsServiceState::Missing {
                last_step(h, 1, finish_ok("not installed"@, Seq::empty()))
            } else if service_state(s1@) == WindowsServiceState::Running {
                if h.len() == 1 {
                    ScStepView::Run(stop)
                } else {
                    match h[1] {
                        ScAnswer::Ran(_) => remove_after_stop(name, delete, h, 2),
                        _ => ScStepView::Invalid,
                    }
                }
            } else {
                remove_after_stop(name, delete, h, 1)
            },
            _ => ScStepView::Invalid,
        }
    }
}

/// The removal conversation as a function of the answers so far.
pub open spec fn remove_conversation(name: Seq<char>, stop: Seq<Seq<char>>, delete: Seq<Seq<char>>) -> spec_fn(Seq<ScAnswer>) -> ScStepView {
    |g: Seq<ScAnswer>| remove_next(name, stop, delete, g)
}

/// A removal outcome by its plain values: the label, or the error.
pub open spec fn label_outcome(res: Result<&'static str, NonoError>) -> Result<(Seq<char>, Seq<char>), ErrorView> {
    match res {
        Ok(l) => Ok((l@, Seq::empty())),
        Err(e) => Err(error_view(e)),
    }
}

/// What removing one service gives, for the runners' answers: the
/// conversation [`remove_next`] leads, ending in `res`.
pub open spec fn remove_service_spec<Q: Fn(&str) -> Result<String, NonoError>, R: Fn(&[String]) -> Result<String, NonoError>>(
    name: Seq<char>,
    stop: Seq<Seq<char>>,
    delete: Seq<Seq<char>>,
    q: Q,
    r: R,
    res: Result<&'static str, NonoError>,
) -> bool {
    exists|h: Seq<ScAnswer>|
        #[trigger] is_run(q, r, remove_conversation(name, stop, delete), h)
            && remove_next(name, stop, delete, h) == ScStepView::Finish(label_outcome(res))
}

/// A removal conversation never takes more than four answers, and one that
/// [`remove_next`] leads always has a next step.
pub proof fn lemma_remove_conversation_is_bounded<
    Q: Fn(&str) -> Result<String, NonoError>,
    R: Fn(&[String]) -> Result<String, NonoError>,
>(name: Seq<char>, stop: Seq<Seq<char>>, delete: Seq<Seq<char>>, q: Q, r: R, h: Seq<ScAnswer>)
    ensures
        remove_next(name, stop, delete, h) is Query || remove_next(name, stop, delete, h) is Run ==> h.len() < 4,
        is_run(q, r, remove_conversation(name, stop, delete), h) ==> !(remove_next(name, stop, delete, h) is Invalid),
{
    let next = remove_conversation(name, stop, delete);
    if is_run(q, r, next, h) {
        if h.len() > 0 {
            assert(fits(q, r, next(h.take(0)), h[0]));
        }
        if h.len() > 1 {
            assert(fits(q, r, next(h.take(1)), h[1]));
        }
        if h.len() > 2 {
            assert(fits(q, r, next(h.take(2)), h[2]));
        }
        if h.len() > 3 {
            assert(fits(q, r, next(h.take(3)), h[3]));
        }
        assert(h.take(0) =~= Seq::<ScAnswer>::empty());
        if h.len() > 1 {
            assert(h.take(1) =~= seq![h[0]]);
        }
        if h.len() > 2 {
            assert(h.take(2) =~= seq![h[0], h[1]]);
        }
        if h.len() > 3 {
            assert(h.take(3) =~= seq![h[0], h[1], h[2]]);
        }
        if h.len() > 4 {
            assert(h.take(4) =~= seq![h[0], h[1], h[2], h[3]]);
            assert(fits(q, r, next(h.take(4)), h[4]));
        }
    }
}

fn remove_after_stop_step(service_name: &str, delete_args: &[String], history: &[ScAnswer], k: usize) -> (r: ScStep)
    requires
        k <= history@.len(),
    ensures
        step_view(r) == remove_after_stop(service_name@, views(delete_args@), history@, k as nat),
{
    let n = history.len();
    if n == k {
        return ScStep::Run(copy_strings(delete_args));
    }
    match &history[k] {
        ScAnswer::Ran(Err(e)) => return if n == k + 1 { ScStep::Finish(Err(e.duplicate())) } else { ScStep::Invalid },
        ScAnswer::Ran(Ok(_)) => {},
        _ => return ScStep::Invalid,
    }
    if n == k + 1 {
        return ScStep::Query(String::from_str(service_name));
    }
    match &history[k + 1] {
        ScAnswer::Queried(Err(e)) => if n == k + 2 { ScStep::Finish(Err(e.duplicate())) } else { ScStep::Invalid },
        ScAnswer::Queried(Ok(s3)) => if n != k + 2 {
            ScStep::Invalid
        } else {
            let label = match parse_windows_service_state(s3.as_str()) {
                WindowsServiceState::Missing => "removed",
                _ => "removed (pending handle close)",
            };
            ScStep::Finish(Ok(WindowsWfpReport { status_label: label, details: String::new() }))
        },
        _ => ScStep::Invalid,
    }
}

/// Decides the next step of removing one service.
pub fn remove_step(service_name: &str, stop_args: &[String], delete_args: &[String], history: &[ScAnswer]) -> (r: ScStep)
    ensures
        step_view(r) == remove_next(service_name@, views(stop_args@), views(delete_args@), history@),
{
    let n = history.len();
    if n == 0 {
        return ScStep::Query(String::from_str(service_name));
    }
    match &history[0] {
        ScAnswer::Queried(Err(e)) => if n == 1 { ScStep::Finish(Err(e.duplicate())) } else { ScStep::Invalid },
        ScAnswer::Queried(Ok(s1)) => {
            let state = parse_windows_service_state(s1.as_str());
            if state == WindowsServiceState::Missing {
                if n == 1 {
                    ScStep::Finish(Ok(WindowsWfpReport { status_label: "not installed", details: String::new() }))
                } else {
                    ScStep::Invalid
                }
            } else if state == WindowsServiceState::Running {
                if n == 1 {
                    ScStep::Run(copy_strings(stop_args))
                } else {
                    match &history[1] {
                        ScAnswer::Ran(_) => remove_after_stop_step(service_name, delete_args, history, 2),
                        _ => ScStep::Invalid,
                    }
                }
            } else {
                remove_after_stop_step(service_name, delete_args, history, 1)
            }
        },
        _ => ScStep::Invalid,
    }
}

/// Stops (best-effort) and deletes one service by name; a service that is
/// not installed is reported and skipped.
pub fn remove_single_windows_service<Q, R>(
    service_name: &str,
    stop_args: &[String],
    delete_args: &[String],
    query_service: &Q,
    run_service_command: &R,
) -> (res: Result<&'static str, NonoError>)
    where
        Q: Fn(&str) -> Result<String, NonoError>,
        R: Fn(&[String]) -> Result<String, NonoError>,
    requires
        forall|s: &str| call_requires(*query_service, (s,)),
        forall|a: &[String]| call_requires(*run_service_command, (a,)),
    ensures
        remove_service_spec(service_name@, views(stop_args@), views(delete_args@), *query_service, *run_service_command, res),
{
    let ghost next = remove_conversation(service_name@, views(stop_args@), views(delete_args@));
    let step = |h: &[ScAnswer]| -> (r: ScStep)
        ensures
            step_view(r) == remove_next(service_name@, views(stop_args@), views(delete_args@), h@),
        { remove_step(service_name, stop_args, delete_args, h) };
    proof {
        assert forall|g: Seq<ScAnswer>| #![trigger next(g)] (next(g) is Query || next(g) is Run) implies g.len() < 4 by {
            lemma_remove_conversation_is_bounded(service_name@, views(stop_args@), views(delete_args@), *query_service, *run_service_command, g);
        }
        assert forall|g: Seq<ScAnswer>| #[trigger] is_run(*query_service, *run_service_command, next, g) implies !(next(g) is Invalid) by {
            lemma_remove_conversation_is_bounded(service_name@, views(stop_args@), views(delete_args@), *query_service, *run_service_command, g);
        }
    }
    let outcome = converse(step, Ghost(next), 4, query_service, run_service_command);
    match outcome {
        Ok(report) => {
            assert(report.details@ == Seq::<char>::empty());
            Ok(report.status_label)
        },
        Err(e) => Err(e),
    }
}


/// The outcome of a WFP service or driver lifecycle operation.
#[derive(Debug, Clone)]
pub struct WindowsWfpReport {
    pub status_label: &'static str,
    pub details: String,
}

pub type WindowsWfpInstallReport = WindowsWfpReport;

pub type WindowsWfpDriverInstallReport = WindowsWfpReport;

pub type WindowsWfpStartReport = WindowsWfpReport;

pub type WindowsWfpDriverStartReport = WindowsWfpReport;

pub type WindowsWfpUninstallReport = WindowsWfpReport;

/// `res` is the error of `kind` with the detail `m`.
pub open spec fn fails_with<T>(res: Result<T, NonoError>, kind: ErrorKind, m: Seq<char>) -> bool {
    res matches Err(e) && error_view(e) == err_of(kind, m)
}

/// `res` is a report with this label and these details.
pub open spec fn reports(res: Result<WindowsWfpReport, NonoError>, label: Seq<char>, details: Seq<char>) -> bool {
    res matches Ok(rep) && rep.status_label@ == label && rep.details@ == details
}

/// A two-word `sc` command line.
pub open spec fn verb_args_spec(verb: Seq<char>, name: Seq<char>) -> Seq<Seq<char>> {
    seq![verb, name]
}

/// The purge runner, given the backend binary path, may answer `o`.
pub open spec fn purge_gives<P: Fn(&str) -> Result<String, NonoError>>(p: P, path: Seq<char>, o: Result<String, NonoError>) -> bool {
    exists|s: &str| s@ == path && #[trigger] call_ensures(p, (s,), o)
}

/// What uninstalling has learnt so far, in order.
#[derive(Debug)]
pub enum UninstallEvent {
    /// The WFP objects were purged, with the runner's answer.
    Purged(Result<String, NonoError>),
    /// One service was removed, with the removal's label or error.
    Removed(Result<&'static str, NonoError>),
}

/// What uninstalling does next.
#[derive(Debug)]
pub enum UninstallStep {
    /// Purge the WFP objects of the backend binary at this path.
    Purge(String),
    /// Remove the service of this name with these stop and delete commands.
    Remove { name: String, stop: Vec<String>, delete: Vec<String> },
    /// Uninstalling is over, with this outcome.
    Finish(Result<WindowsWfpReport, NonoError>),
    /// The events do not arise from uninstalling.
    Invalid,
}

/// A step by its plain values.
pub enum UninstallStepView {
    Purge(Seq<char>),
    Remove(Seq<char>, Seq<Seq<char>>, Seq<Seq<char>>),
    Finish(Result<(Seq<char>, Seq<char>), ErrorView>),
    Invalid,
}

pub open spec fn uninstall_step_view(s: UninstallStep) -> UninstallStepView {
    match s {
        UninstallStep::Purge(p) => UninstallStepView::Purge(p@),
        UninstallStep::Remove { name, stop, delete } => UninstallStepView::Remove(name@, views(stop@), views(delete@)),
        UninstallStep::Finish(r) => UninstallStepView::Finish(outcome_view(r)),
        UninstallStep::Invalid => UninstallStepView::Invalid,
    }
}

/// The report of a finished uninstall: "nothing to remove" when neither
/// the service nor the driver was installed, else "removed", with what the
/// purge and each removal did.
pub open spec fn uninstall_report(cfg: WfpProbeConfig, purged: bool, l1: Seq<char>, l2: Seq<char>) -> (Seq<char>, Seq<char>) {
    (
        if l1 == "not installed"@ && l2 == "not installed"@ {
            "nothing to remove"@
        } else {
            "removed"@
        },
        "purge: "@ + (if purged {
            "wfp objects purged"@
        } else {
            "wfp object purge skipped (best-effort)"@
        }) + "; user-mode service "@ + cfg.backend_service@ + ": "@ + l1 + "; kernel driver "@ + cfg.backend_driver@ + ": "@
            + l2,
    )
}

/// The course of uninstalling: the WFP objects are purged first, once, and
/// a failed purge is only noted; then the backend service is removed, then
/// the driver, the first failing removal ending it. Only the two configured
/// names are ever removed.
pub open spec fn uninstall_next(cfg: WfpProbeConfig, h: Seq<UninstallEvent>) -> UninstallStepView {
    let service = UninstallStepView::Remove(
        cfg.backend_service@,
        verb_args_spec("stop"@, cfg.backend_service@),
        verb_args_spec("delete"@, cfg.backend_service@),
    );
    let driver = UninstallStepView::Remove(
        cfg.backend_driver@,
        verb_args_spec("stop"@, cfg.backend_driver@),
        verb_args_spec("delete"@, cfg.backend_driver@),
    );
    if h.len() == 0 {
        UninstallStepView::Purge(cfg.backend_binary_path@)
    } else {
        match h[0] {
            UninstallEvent::Purged(op) => if h.len() == 1 {
                service
            } else {
                match h[1] {
                    UninstallEvent::Removed(Err(e)) => if h.len() == 2 {
                        UninstallStepView::Finish(Err(error_view(e)))
                    } else {
                        UninstallStepView::Invalid
                    },
                    UninstallEvent::Removed(Ok(l1)) => if h.len() == 2 {
                        driver
                    } else {
                        match h[2] {
                            UninstallEvent::Removed(Err(e)) => if h.len() == 3 {
                                UninstallStepView::Finish(Err(error_view(e)))
                            } else {
                                UninstallStepView::Invalid
                            },
                            UninstallEvent::Removed(Ok(l2)) => if h.len() == 3 {
                                UninstallStepView::Finish(Ok(uninstall_report(cfg, op is Ok, l1@, l2@)))
                            } else {
                                UninstallStepView::Invalid
                            },
                            _ => UninstallStepView::Invalid,
                        }
                    },
                    _ => UninstallStepView::Invalid,
                }
            },
            _ => UninstallStepView::Invalid,
        }
    }
}

/// Decides the next step of uninstalling.
pub fn uninstall_step(config: &WfpProbeConfig, history: &[UninstallEvent]) -> (r: UninstallStep)
    ensures
        uninstall_step_view(r) == uninstall_next(*config, history@),
{
    let n = history.len();
    if n == 0 {
        return UninstallStep::Purge(config.backend_binary_path.clone());
    }
    let purge_note = match &history[0] {
        UninstallEvent::Purged(Ok(_)) => "wfp objects purged",
        UninstallEvent::Purged(Err(_)) => "wfp object purge skipped (best-effort)",
        _ => return UninstallStep::Invalid,
    };
    if n == 1 {
        return UninstallStep::Remove {
            name: config.backend_service.clone(),
            stop: build_wfp_service_stop_args(config),
            delete: build_wfp_service_delete_args(config),
        };
    }
    let service_outcome = match &history[1] {
        UninstallEvent::Removed(Err(e)) => return if n == 2 { UninstallStep::Finish(Err(e.duplicate())) } else { UninstallStep::Invalid },
        UninstallEvent::Removed(Ok(l)) => *l,
        _ => return UninstallStep::Invalid,
    };
    if n == 2 {
        return UninstallStep::Remove {
            name: config.backend_driver.clone(),
            stop: build_wfp_driver_stop_args(config),
            delete: build_wfp_driver_delete_args(config),
        };
    }
    let driver_outcome = match &history[2] {
        UninstallEvent::Removed(Err(e)) => return if n == 3 { UninstallStep::Finish(Err(e.duplicate())) } else { UninstallStep::Invalid },
        UninstallEvent::Removed(Ok(l)) => *l,
        _ => return UninstallStep::Invalid,
    };
    if n != 3 {
        return UninstallStep::Invalid;
    }
    let status_label = if str_eq(service_outcome, "not installed") && str_eq(driver_outcome, "not installed") {
        "nothing to remove"
    } else {
        "removed"
    };
    let mut details = String::from_str("purge: ");
    details.append(purge_note);
    details.append("; user-mode service ");
    details.append(config.backend_service.as_str());
    details.append(": ");
    details.append(service_outcome);
    details.append("; kernel driver ");
    details.append(config.backend_driver.as_str());
    details.append(": ");
    details.append(driver_outcome);
    UninstallStep::Finish(Ok(WindowsWfpReport { status_label, details }))
}

/// The event `ev` is one the runners may give to the step `s`.
pub open spec fn uninstall_event_fits<
    Q: Fn(&str) -> Result<String, NonoError>,
    R: Fn(&[String]) -> Result<String, NonoError>,
    P: Fn(&str) -> Result<String, NonoError>,
>(q: Q, r: R, p: P, s: UninstallStepView, ev: UninstallEvent) -> bool {
    match s {
        UninstallStepView::Purge(path) => ev matches UninstallEvent::Purged(o) && purge_gives(p, path, o),
        UninstallStepView::Remove(name, stop, delete) => ev matches UninstallEvent::Removed(o) && remove_service_spec(
            name,
            stop,
            delete,
            q,
            r,
            o,
        ),
        _ => false,
    }
}

/// `h` is a history that [`uninstall_next`] leads.
pub open spec fn uninstall_history_fits<
    Q: Fn(&str) -> Result<String, NonoError>,
    R: Fn(&[String]) -> Result<String, NonoError>,
    P: Fn(&str) -> Result<String, NonoError>,
>(q: Q, r: R, p: P, cfg: WfpProbeConfig, h: Seq<UninstallEvent>) -> bool {
    forall|i: int| 0 <= i < h.len() ==> #[trigger] uninstall_event_fits(q, r, p, uninstall_next(cfg, h.take(i)), h[i])
}

/// What uninstalling gives: the course [`uninstall_next`] leads, ending in
/// `res`.
pub open spec fn uninstall_spec<
    Q: Fn(&str) -> Result<String, NonoError>,
    R: Fn(&[String]) -> Result<String, NonoError>,
    P: Fn(&str) -> Result<String, NonoError>,
>(cfg: WfpProbeConfig, q: Q, r: R, p: P, res: Result<WindowsWfpReport, NonoError>) -> bool {
    exists|h: Seq<UninstallEvent>|
        #[trigger] uninstall_history_fits(q, r, p, cfg, h) && uninstall_next(cfg, h) == UninstallStepView::Finish(outcome_view(res))
}

/// An uninstall history that [`uninstall_next`] leads never reaches an
/// invalid step, and asks for a purge or a removal only while it holds
/// fewer than three events; the purge is asked only first.
pub proof fn lemma_uninstall_course_is_bounded<
    Q: Fn(&str) -> Result<String, NonoError>,
    R: Fn(&[String]) -> Result<String, NonoError>,
    P: Fn(&str) -> Result<String, NonoError>,
>(cfg: WfpProbeConfig, q: Q, r: R, p: P, h: Seq<UninstallEvent>)
    ensures
        uninstall_next(cfg, h) is Purge ==> h.len() == 0,
        uninstall_next(cfg, h) is Remove ==> h.len() < 3,
        uninstall_history_fits(q, r, p, cfg, h) ==> !(uninstall_next(cfg, h) is Invalid),
{
    if uninstall_history_fits(q, r, p, cfg, h) {
        if h.len() > 0 {
            assert(h.take(0) =~= Seq::<UninstallEvent>::empty());
            assert(uninstall_event_fits(q, r, p, uninstall_next(cfg, h.take(0)), h[0]));
        }
        if h.len() > 1 {
            assert(h.take(1) =~= seq![h[0]]);
            assert(uninstall_event_fits(q, r, p, uninstall_next(cfg, h.take(1)), h[1]));
        }
        if h.len() > 2 {
            assert(h.take(2) =~= seq![h[0], h[1]]);
            assert(uninstall_event_fits(q, r, p, uninstall_next(cfg, h.take(2)), h[2]));
        }
        if h.len() > 3 {
            assert(h.take(3) =~= seq![h[0], h[1], h[2]]);
            assert(uninstall_event_fits(q, r, p, uninstall_next(cfg, h.take(3)), h[3]));
        }
    }
}

proof fn lemma_uninstall_history_extends<
    Q: Fn(&str) -> Result<String, NonoError>,
    R: Fn(&[String]) -> Result<String, NonoError>,
    P: Fn(&str) -> Result<String, NonoError>,
>(q: Q, r: R, p: P, cfg: WfpProbeConfig, h: Seq<UninstallEvent>, ev: UninstallEvent)
    requires
        uninstall_history_fits(q, r, p, cfg, h),
        uninstall_event_fits(q, r, p, uninstall_next(cfg, h), ev),
    ensures
        uninstall_history_fits(q, r, p, cfg, h.push(ev)),
{
    let g = h.push(ev);
    assert forall|i: int| 0 <= i < g.len() implies #[trigger] uninstall_event_fits(q, r, p, uninstall_next(cfg, g.take(i)), g[i]) by {
        if i < h.len() {
            assert(g.take(i) =~= h.take(i));
            assert(uninstall_event_fits(q, r, p, uninstall_next(cfg, h.take(i)), h[i]));
        } else {
            assert(g.take(i) =~= h);
        }
    }
}

/// Purges the WFP objects (fail-open), then stops and deletes the backend
/// service and the kernel driver service, each runner called only when
/// [`uninstall_step`] asks for it. Only the two configured names are ever
/// touched.
pub fn uninstall_windows_wfp_with_runner<Q, R, P>(
    config: &WfpProbeConfig,
    query_service: Q,
    run_service_command: R,
    run_purge: P,
) -> (res: Result<WindowsWfpUninstallReport, NonoError>)
    where
        Q: Fn(&str) -> Result<String, NonoError>,
        R: Fn(&[String]) -> Result<String, NonoError>,
        P: Fn(&str) -> Result<String, NonoError>,
    requires
        forall|s: &str| call_requires(query_service, (s,)),
        forall|a: &[String]| call_requires(run_service_command, (a,)),
        forall|s: &str| call_requires(run_purge, (s,)),
    ensures
        uninstall_spec(*config, query_service, run_service_command, run_purge, res),
{
    let ghost cfg = *config;
    let mut history: Vec<UninstallEvent> = Vec::new();
    assert(uninstall_history_fits(query_service, run_service_command, run_purge, cfg, history@));
    loop
        invariant
            cfg == *config,
            forall|s: &str| call_requires(query_service, (s,)),
            forall|a: &[String]| call_requires(run_service_command, (a,)),
            forall|s: &str| call_requires(run_purge, (s,)),
            uninstall_history_fits(query_service, run_service_command, run_purge, cfg, history@),
            history@.len() <= 3,
        decreases 3 - history@.len(),
    {
        let step = uninstall_step(config, history.as_slice());
        let ghost h0 = history@;
        proof {
            lemma_uninstall_course_is_bounded(cfg, query_service, run_service_command, run_purge, h0);
        }
        match step {
            UninstallStep::Purge(path) => {
                let op = run_purge(path.as_str());
                assert(purge_gives(run_purge, path@, op));
                let ev = UninstallEvent::Purged(op);
                proof {
                    lemma_uninstall_history_extends(query_service, run_service_command, run_purge, cfg, h0, ev);
                }
                history.push(ev);
            },
            UninstallStep::Remove { name, stop, delete } => {
                let o = remove_single_windows_service(
                    name.as_str(),
                    stop.as_slice(),
                    delete.as_slice(),
                    &query_service,
                    &run_service_command,
                );
                let ev = UninstallEvent::Removed(o);
                proof {
                    lemma_uninstall_history_extends(query_service, run_service_command, run_purge, cfg, h0, ev);
                }
                history.push(ev);
            },
            UninstallStep::Finish(res) => {
                return res;
            },
            UninstallStep::Invalid => {
                // A history that the step leads always has a next step.
                assert(false);
                return Err(NonoError::NoCommand);
            },
        }
    }
}


/// The texts an install operation reports.
pub struct InstallTexts {
    pub missing_binary: String,
    pub bfe_stopped: String,
    pub bfe_missing: String,
    pub already_installed: String,
    pub not_persisted: String,
    pub installed: String,
}

/// The conversation of registering a component: a missing binary fails
/// before any query; the platform service must be running; an already
/// registered component is reported as such; otherwise it is created (a
/// failing create is forgiven only when a follow-up query finds it
/// registered and the failure reports a registration conflict), described,
/// and queried again to confirm the registration persisted. Nothing else
/// is run: no command but the create and the describe, each at most once.
pub open spec fn install_next(
    platform: Seq<char>,
    component: Seq<char>,
    binary_exists: bool,
    create: Seq<Seq<char>>,
    describe: Seq<Seq<char>>,
    t: TextsView,
    h: Seq<ScAnswer>,
) -> ScStepView {
    if !binary_exists {
        last_step(h, 0, finish_err(ErrorKind::Setup, t.missing_binary))
    } else if h.len() == 0 {
        ScStepView::Query(platform)
    } else {
        match h[0] {
            ScAnswer::Queried(Err(e)) => last_step(h, 1, fail_with(e)),
            ScAnswer::Queried(Ok(s1)) => match service_state(s1@) {
                WindowsServiceState::Stopped => last_step(h, 1, finish_err(ErrorKind::Setup, t.bfe_stopped)),
                WindowsServiceState::Missing | WindowsServiceState::Unknown => last_step(
                    h,
                    1,
                    finish_err(ErrorKind::Setup, t.bfe_missing),
                ),
                WindowsServiceState::Running => if h.len() == 1 {
                    ScStepView::Query(component)
                } else {
                    match h[1] {
                        ScAnswer::Queried(Err(e)) => last_step(h, 2, fail_with(e)),
                        ScAnswer::Queried(Ok(s2)) => if service_state(s2@) != WindowsServiceState::Missing {
                            last_step(h, 2, finish_ok("already installed"@, t.already))
                        } else if h.len() == 2 {
                            ScStepView::Run(create)
                        } else {
                            match h[2] {
                                ScAnswer::Ran(Err(ec)) => if h.len() == 3 {
                                    ScStepView::Query(component)
                                } else {
                                    match h[3] {
                                        ScAnswer::Queried(oq) => last_step(
                                            h,
                                            4,
                                            if oq matches Ok(sq) && service_state(sq@) != WindowsServiceState::Missing
                                                && create_conflict(crate::error::error_detail(ec)) {
                                                finish_ok("already installed"@, t.already)
                                            } else {
                                                fail_with(ec)
                                            },
                                        ),
                                        _ => ScStepView::Invalid,
                                    }
                                },
                                ScAnswer::Ran(Ok(_)) => if h.len() == 3 {
                                    ScStepView::Run(describe)
                                } else {
                                    match h[3] {
                                        ScAnswer::Ran(Err(e)) => last_step(h, 4, fail_with(e)),
                                        ScAnswer::Ran(Ok(_)) => if h.len() == 4 {
                                            ScStepView::Query(component)
                                        } else {
                                            match h[4] {
                                                ScAnswer::Queried(Err(e)) => last_step(h, 5, fail_with(e)),
                                                ScAnswer::Queried(Ok(s4)) => last_step(
                                                    h,
                                                    5,
                                                    if service_state(s4@) == WindowsServiceState::Missing {
                                                        finish_err(ErrorKind::Setup, t.not_done)
                                                    } else {
                                                        finish_ok("installed"@, t.done)
                                                    },
                                                ),
                                                _ => ScStepView::Invalid,
                                            }
                                        },
                                        _ => ScStepView::Invalid,
                                    }
                                },
                                _ => ScStepView::Invalid,
                            }
                        },
                        _ => ScStepView::Invalid,
                    }
                },
            },
            _ => ScStepView::Invalid,
        }
    }
}

/// The registration conversation as a function of the answers so far.
pub open spec fn install_conversation(
    platform: Seq<char>,
    component: Seq<char>,
    binary_exists: bool,
    create: Seq<Seq<char>>,
    describe: Seq<Seq<char>>,
    t: TextsView,
) -> spec_fn(Seq<ScAnswer>) -> ScStepView {
    |g: Seq<ScAnswer>| install_next(platform, component, binary_exists, create, describe, t, g)
}

/// What registering a component gives, for the runners' answers: the
/// conversation [`install_next`] leads, ending in `res`.
pub open spec fn install_spec<Q: Fn(&str) -> Result<String, NonoError>, R: Fn(&[String]) -> Result<String, NonoError>>(
    platform: Seq<char>,
    component: Seq<char>,
    binary_exists: bool,
    create: Seq<Seq<char>>,
    describe: Seq<Seq<char>>,
    t: TextsView,
    q: Q,
    r: R,
    res: Result<WindowsWfpReport, NonoError>,
) -> bool {
    exists|h: Seq<ScAnswer>|
        #[trigger] is_run(q, r, install_conversation(platform, component, binary_exists, create, describe, t), h)
            && install_next(platform, component, binary_exists, create, describe, t, h) == ScStepView::Finish(outcome_view(res))
}

/// A conversation of registering never takes more than five answers, and
/// one that [`install_next`] leads always has a next step.
pub proof fn lemma_install_conversation_is_bounded<
    Q: Fn(&str) -> Result<String, NonoError>,
    R: Fn(&[String]) -> Result<String, NonoError>,
>(
    platform: Seq<char>,
    component: Seq<char>,
    binary_exists: bool,
    create: Seq<Seq<char>>,
    describe: Seq<Seq<char>>,
    t: TextsView,
    q: Q,
    r: R,
    h: Seq<ScAnswer>,
)
    ensures
        install_next(platform, component, binary_exists, create, describe, t, h) is Query
            || install_next(platform, component, binary_exists, create, describe, t, h) is Run ==> h.len() < 5,
        is_run(q, r, install_conversation(platform, component, binary_exists, create, describe, t), h)
            ==> !(install_next(platform, component, binary_exists, create, describe, t, h) is Invalid),
{
    let next = install_conversation(platform, component, binary_exists, create, describe, t);
    if is_run(q, r, next, h) {
        if h.len() > 0 {
            assert(fits(q, r, next(h.take(0)), h[0]));
        }
        if h.len() > 1 {
            assert(fits(q, r, next(h.take(1)), h[1]));
        }
        if h.len() > 2 {
            assert(fits(q, r, next(h.take(2)), h[2]));
        }
        if h.len() > 3 {
            assert(fits(q, r, next(h.take(3)), h[3]));
        }
        if h.len() > 4 {
            assert(fits(q, r, next(h.take(4)), h[4]));
        }
        assert(h.take(0) =~= Seq::<ScAnswer>::empty());
        if h.len() > 1 {
            assert(h.take(1) =~= seq![h[0]]);
        }
        if h.len() > 2 {
            assert(h.take(2) =~= seq![h[0], h[1]]);
        }
        if h.len() > 3 {
            assert(h.take(3) =~= seq![h[0], h[1], h[2]]);
        }
        if h.len() > 4 {
            assert(h.take(4) =~= seq![h[0], h[1], h[2], h[3]]);
        }
        if h.len() > 5 {
            assert(h.take(5) =~= seq![h[0], h[1], h[2], h[3], h[4]]);
            assert(fits(q, r, next(h.take(5)), h[5]));
        }
    }
}

/// Decides the next step of registering a component.
pub fn install_step(
    platform: &str,
    component: &str,
    binary_exists: bool,
    create: &[String],
    describe: &[String],
    t: &InstallTexts,
    history: &[ScAnswer],
) -> (r: ScStep)
    ensures
        step_view(r) == install_next(platform@, component@, binary_exists, views(create@), views(describe@), install_texts_view(*t), history@),
{
    let n = history.len();
    if !binary_exists {
        return if n == 0 { ScStep::Finish(Err(NonoError::Setup(t.missing_binary.clone()))) } else { ScStep::Invalid };
    }
    if n == 0 {
        return ScStep::Query(String::from_str(platform));
    }
    let already = ScStep::Finish(Ok(WindowsWfpReport { status_label: "already installed", details: t.already_installed.clone() }));
    match &history[0] {
        ScAnswer::Queried(Err(e)) => return if n == 1 { ScStep::Finish(Err(e.duplicate())) } else { ScStep::Invalid },
        ScAnswer::Queried(Ok(s1)) => match parse_windows_service_state(s1.as_str()) {
            WindowsServiceState::Stopped => {
                return if n == 1 { ScStep::Finish(Err(NonoError::Setup(t.bfe_stopped.clone()))) } else { ScStep::Invalid };
            },
            WindowsServiceState::Missing | WindowsServiceState::Unknown => {
                return if n == 1 { ScStep::Finish(Err(NonoError::Setup(t.bfe_missing.clone()))) } else { ScStep::Invalid };
            },
            WindowsServiceState::Running => {},
        },
        _ => return ScStep::Invalid,
    }
    if n == 1 {
        return ScStep::Query(String::from_str(component));
    }
    match &history[1] {
        ScAnswer::Queried(Err(e)) => return if n == 2 { ScStep::Finish(Err(e.duplicate())) } else { ScStep::Invalid },
        ScAnswer::Queried(Ok(s2)) => if parse_windows_service_state(s2.as_str()) != WindowsServiceState::Missing {
            return if n == 2 { already } else { ScStep::Invalid };
        },
        _ => return ScStep::Invalid,
    }
    if n == 2 {
        return ScStep::Run(copy_strings(create));
    }
    match &history[2] {
        ScAnswer::Ran(Err(ec)) => {
            if n == 3 {
                return ScStep::Query(String::from_str(component));
            }
            match &history[3] {
                ScAnswer::Queried(oq) => {
                    if n != 4 {
                        return ScStep::Invalid;
                    }
                    let registered = match oq {
                        Ok(sq) => parse_windows_service_state(sq.as_str()) != WindowsServiceState::Missing,
                        Err(_) => false,
                    };
                    let detail = ec.detail();
                    if registered && sc_create_conflict_is_registered(detail.as_str()) {
                        return already;
                    }
                    return ScStep::Finish(Err(ec.duplicate()));
                },
                _ => return ScStep::Invalid,
            }
        },
        ScAnswer::Ran(Ok(_)) => {},
        _ => return ScStep::Invalid,
    }
    if n == 3 {
        return ScStep::Run(copy_strings(describe));
    }
    match &history[3] {
        ScAnswer::Ran(Err(e)) => return if n == 4 { ScStep::Finish(Err(e.duplicate())) } else { ScStep::Invalid },
        ScAnswer::Ran(Ok(_)) => {},
        _ => return ScStep::Invalid,
    }
    if n == 4 {
        return ScStep::Query(String::from_str(component));
    }
    match &history[4] {
        ScAnswer::Queried(Err(e)) => if n == 5 { ScStep::Finish(Err(e.duplicate())) } else { ScStep::Invalid },
        ScAnswer::Queried(Ok(s4)) => if n != 5 {
            ScStep::Invalid
        } else if parse_windows_service_state(s4.as_str()) == WindowsServiceState::Missing {
            ScStep::Finish(Err(NonoError::Setup(t.not_persisted.clone())))
        } else {
            ScStep::Finish(Ok(WindowsWfpReport { status_label: "installed", details: t.installed.clone() }))
        },
        _ => ScStep::Invalid,
    }
}

fn install_component<Q, R>(
    platform: &str,
    component: &str,
    binary_exists: bool,
    create: &[String],
    describe: &[String],
    t: InstallTexts,
    query_service: &Q,
    run_service_command: &R,
) -> (res: Result<WindowsWfpReport, NonoError>)
    where
        Q: Fn(&str) -> Result<String, NonoError>,
        R: Fn(&[String]) -> Result<String, NonoError>,
    requires
        forall|s: &str| call_requires(*query_service, (s,)),
        forall|a: &[String]| call_requires(*run_service_command, (a,)),
    ensures
        install_spec(platform@, component@, binary_exists, views(create@), views(describe@), install_texts_view(t), *query_service, *run_service_command, res),
{
    let ghost tv = install_texts_view(t);
    let ghost next = install_conversation(platform@, component@, binary_exists, views(create@), views(describe@), tv);
    let texts = &t;
    let step = |h: &[ScAnswer]| -> (r: ScStep)
        ensures
            step_view(r) == install_next(platform@, component@, binary_exists, views(create@), views(describe@), install_texts_view(*texts), h@),
        { install_step(platform, component, binary_exists, create, describe, texts, h) };
    proof {
        assert forall|g: Seq<ScAnswer>| #![trigger next(g)] (next(g) is Query || next(g) is Run) implies g.len() < 5 by {
            lemma_install_conversation_is_bounded(platform@, component@, binary_exists, views(create@), views(describe@), tv, *query_service, *run_service_command, g);
        }
        assert forall|g: Seq<ScAnswer>| #[trigger] is_run(*query_service, *run_service_command, next, g) implies !(next(g) is Invalid) by {
            lemma_install_conversation_is_bounded(platform@, component@, binary_exists, views(create@), views(describe@), tv, *query_service, *run_service_command, g);
        }
    }
    converse(step, Ghost(next), 5, query_service, run_service_command)
}

/// The texts an operation reports, by their characters.
pub struct TextsView {
    pub missing_binary: Seq<char>,
    pub bfe_stopped: Seq<char>,
    pub bfe_missing: Seq<char>,
    pub already: Seq<char>,
    pub not_done: Seq<char>,
    pub done: Seq<char>,
}

pub open spec fn install_texts_view(t: InstallTexts) -> TextsView {
    TextsView {
        missing_binary: t.missing_binary@,
        bfe_stopped: t.bfe_stopped@,
        bfe_missing: t.bfe_missing@,
        already: t.already_installed@,
        not_done: t.not_persisted@,
        done: t.installed@,
    }
}

/// The texts of registering the backend service.
pub open spec fn service_install_texts(cfg: WfpProbeConfig) -> TextsView {
    TextsView {
        missing_binary: "Cannot register Windows WFP service because the backend binary is missing: "@
            + cfg.backend_binary_path@ + ". Build nono-wfp-service first."@,
        bfe_stopped: "Cannot register Windows WFP service because the Base Filtering Engine service ("@
            + cfg.platform_service@ + ") is not running."@,
        bfe_missing: "Cannot register Windows WFP service because the Base Filtering Engine service ("@
            + cfg.platform_service@ + ") is missing or could not be queried."@,
        already: "Windows WFP service "@ + cfg.backend_service@ + " is already registered. Expected startup command: "@
            + service_command(cfg)
            + ". The service host is used for blocked-mode activation, but unsupported states still fail closed until full backend parity is implemented."@,
        not_done: "Windows WFP service registration did not persist for "@ + cfg.backend_service@
            + ". Expected startup command: "@ + service_command(cfg) + "."@,
        done: "Registered Windows WFP service "@ + cfg.backend_service@ + " with startup command: "@
            + service_command(cfg)
            + ". Service startup is not attempted automatically because explicit lifecycle control is still required before live WFP activation."@,
    }
}

/// The texts of registering the kernel driver.
pub open spec fn driver_install_texts(cfg: WfpProbeConfig) -> TextsView {
    TextsView {
        missing_binary: "Cannot register Windows WFP driver because the driver binary is missing: "@
            + cfg.backend_driver_binary_path@
            + ". Build nono-cli so the placeholder driver artifact is staged first."@,
        bfe_stopped: "Cannot register Windows WFP driver because the Base Filtering Engine service ("@
            + cfg.platform_service@ + ") is not running."@,
        bfe_missing: "Cannot register Windows WFP driver because the Base Filtering Engine service ("@
            + cfg.platform_service@ + ") is missing or could not be queried."@,
        already: "Windows WFP driver "@ + cfg.backend_driver@ + " is already registered. Expected driver binary path: "@
            + cfg.backend_driver_binary_path@ + ". Driver startup is not attempted automatically."@,
        not_done: "Windows WFP driver registration did not persist for "@ + cfg.backend_driver@
            + ". Expected driver binary path: "@ + cfg.backend_driver_binary_path@ + "."@,
        done: "Registered Windows WFP driver "@ + cfg.backend_driver@ + " with binary path "@
            + cfg.backend_driver_binary_path@
            + ". Driver startup is not attempted automatically because this branch still does not ship a working WFP driver."@,
    }
}

fn three(a: &str, b: &str, c: &str) -> (r: String)
    ensures
        r@ == a@ + b@ + c@,
{
    let mut r = String::from_str(a);
    r.append(b);
    r.append(c);
    r
}

fn five(a: &str, b: &str, c: &str, d: &str, e: &str) -> (r: String)
    ensures
        r@ == a@ + b@ + c@ + d@ + e@,
{
    let mut r = String::from_str(a);
    r.append(b);
    r.append(c);
    r.append(d);
    r.append(e);
    r
}

/// Registers the WFP backend service with the Windows service manager.
/// `backend_binary_exists` tells whether the service binary is present.
pub fn install_windows_wfp_service_with_runner<Q, R>(
    config: &WfpProbeConfig,
    backend_binary_exists: bool,
    query_service: Q,
    run_service_command: R,
) -> (res: Result<WindowsWfpInstallReport, NonoError>)
    where
        Q: Fn(&str) -> Result<String, NonoError>,
        R: Fn(&[String]) -> Result<String, NonoError>,
    requires
        forall|s: &str| call_requires(query_service, (s,)),
        forall|a: &[String]| call_requires(run_service_command, (a,)),
    ensures
        install_spec(
            config.platform_service@,
            config.backend_service@,
            backend_binary_exists,
            service_create_args(*config),
            seq!["description"@, config.backend_service@, service_description()],
            service_install_texts(*config),
            query_service,
            run_service_command,
            res,
        ),
{
    let cmd = format_wfp_service_command(config);
    let ps = config.platform_service.as_str();
    let bs = config.backend_service.as_str();
    let t = InstallTexts {
        missing_binary: three(
            "Cannot register Windows WFP service because the backend binary is missing: ",
            config.backend_binary_path.as_str(),
            ". Build nono-wfp-service first.",
        ),
        bfe_stopped: three(
            "Cannot register Windows WFP service because the Base Filtering Engine service (",
            ps,
            ") is not running.",
        ),
        bfe_missing: three(
            "Cannot register Windows WFP service because the Base Filtering Engine service (",
            ps,
            ") is missing or could not be queried.",
        ),
        already_installed: five(
            "Windows WFP service ",
            bs,
            " is already registered. Expected startup command: ",
            cmd.as_str(),
            ". The service host is used for blocked-mode activation, but unsupported states still fail closed until full backend parity is implemented.",
        ),
        not_persisted: five(
            "Windows WFP service registration did not persist for ",
            bs,
            ". Expected startup command: ",
            cmd.as_str(),
            ".",
        ),
        installed: five(
            "Registered Windows WFP service ",
            bs,
            " with startup command: ",
            cmd.as_str(),
            ". Service startup is not attempted automatically because explicit lifecycle control is still required before live WFP activation.",
        ),
    };
    assert(install_texts_view(t) == service_install_texts(*config));
    let create = build_wfp_service_create_args(config);
    let describe = build_wfp_service_description_args(config);
    let res = install_component(
        ps,
        bs,
        backend_binary_exists,
        create.as_slice(),
        describe.as_slice(),
        t,
        &query_service,
        &run_service_command,
    );
    res
}


/// Registers the WFP kernel driver with the Windows service manager.
/// `driver_binary_exists` tells whether the driver binary is present.
pub fn install_windows_wfp_driver_with_runner<Q, R>(
    config: &WfpProbeConfig,
    driver_binary_exists: bool,
    query_service: Q,
    run_service_command: R,
) -> (res: Result<WindowsWfpDriverInstallReport, NonoError>)
    where
        Q: Fn(&str) -> Result<String, NonoError>,
        R: Fn(&[String]) -> Result<String, NonoError>,
    requires
        forall|s: &str| call_requires(query_service, (s,)),
        forall|a: &[String]| call_requires(run_service_command, (a,)),
    ensures
        install_spec(
            config.platform_service@,
            config.backend_driver@,
            driver_binary_exists,
            driver_create_args(*config),
            seq!["description"@, config.backend_driver@, driver_description()],
            driver_install_texts(*config),
            query_service,
            run_service_command,
            res,
        ),
{
    let ps = config.platform_service.as_str();
    let bd = config.backend_driver.as_str();
    let dp = config.backend_driver_binary_path.as_str();
    let t = InstallTexts {
        missing_binary: three(
            "Cannot register Windows WFP driver because the driver binary is missing: ",
            dp,
            ". Build nono-cli so the placeholder driver artifact is staged first.",
        ),
        bfe_stopped: three(
            "Cannot register Windows WFP driver because the Base Filtering Engine service (",
            ps,
            ") is not running.",
        ),
        bfe_missing: three(
            "Cannot register Windows WFP driver because the Base Filtering Engine service (",
            ps,
            ") is missing or could not be queried.",
        ),
        already_installed: five(
            "Windows WFP driver ",
            bd,
            " is already registered. Expected driver binary path: ",
            dp,
            ". Driver startup is not attempted automatically.",
        ),
        not_persisted: five(
            "Windows WFP driver registration did not persist for ",
            bd,
            ". Expected driver binary path: ",
            dp,
            ".",
        ),
        installed: five(
            "Registered Windows WFP driver ",
            bd,
            " with binary path ",
            dp,
            ". Driver startup is not attempted automatically because this branch still does not ship a working WFP driver.",
        ),
    };
    assert(install_texts_view(t) == driver_install_texts(*config));
    let create = build_wfp_driver_create_args(config);
    let describe = build_wfp_driver_description_args(config);
    install_component(
        ps,
        bd,
        driver_binary_exists,
        create.as_slice(),
        describe.as_slice(),
        t,
        &query_service,
        &run_service_command,
    )
}

/// The texts a start operation reports.
pub struct StartTexts {
    pub missing_binary: String,
    pub bfe_stopped: String,
    pub bfe_missing: String,
    pub already_running: String,
    pub not_registered: String,
    pub running: String,
    /// Before the trimmed start output, when the component did not reach RUNNING.
    pub not_running_head: String,
    /// After the trimmed start output.
    pub not_running_tail: String,
}

/// The texts a start operation reports, by their characters.
pub struct StartTextsView {
    pub missing_binary: Seq<char>,
    pub bfe_stopped: Seq<char>,
    pub bfe_missing: Seq<char>,
    pub already_running: Seq<char>,
    pub not_registered: Seq<char>,
    pub running: Seq<char>,
    pub not_running_head: Seq<char>,
    pub not_running_tail: Seq<char>,
}

pub open spec fn start_texts_view(t: StartTexts) -> StartTextsView {
    StartTextsView {
        missing_binary: t.missing_binary@,
        bfe_stopped: t.bfe_stopped@,
        bfe_missing: t.bfe_missing@,
        already_running: t.already_running@,
        not_registered: t.not_registered@,
        running: t.running@,
        not_running_head: t.not_running_head@,
        not_running_tail: t.not_running_tail@,
    }
}

/// The conversation of starting a component: a missing binary fails
/// before any query; the platform service must be running; a running
/// component is "already running"; an unregistered one fails; a stopped one
/// is started and queried again, and must then be running, else the error
/// quotes the trimmed start output. The start command is the only command
/// run, at most once.
pub open spec fn start_next(
    platform: Seq<char>,
    component: Seq<char>,
    binary_exists: bool,
    start: Seq<Seq<char>>,
    t: StartTextsView,
    h: Seq<ScAnswer>,
) -> ScStepView {
    if !binary_exists {
        last_step(h, 0, finish_err(ErrorKind::Setup, t.missing_binary))
    } else if h.len() == 0 {
        ScStepView::Query(platform)
    } else {
        match h[0] {
            ScAnswer::Queried(Err(e)) => last_step(h, 1, fail_with(e)),
            ScAnswer::Queried(Ok(s1)) => match service_state(s1@) {
                WindowsServiceState::Stopped => last_step(h, 1, finish_err(ErrorKind::Setup, t.bfe_stopped)),
                WindowsServiceState::Missing | WindowsServiceState::Unknown => last_step(
                    h,
                    1,
                    finish_err(ErrorKind::Setup, t.bfe_missing),
                ),
                WindowsServiceState::Running => if h.len() == 1 {
                    ScStepView::Query(component)
                } else {
                    match h[1] {
                        ScAnswer::Queried(Err(e)) => last_step(h, 2, fail_with(e)),
                        ScAnswer::Queried(Ok(s2)) => match service_state(s2@) {
                            WindowsServiceState::Running => last_step(h, 2, finish_ok("already running"@, t.already_running)),
                            WindowsServiceState::Missing | WindowsServiceState::Unknown => last_step(
                                h,
                                2,
                                finish_err(ErrorKind::Setup, t.not_registered),
                            ),
                            WindowsServiceState::Stopped => if h.len() == 2 {
                                ScStepView::Run(start)
                            } else {
                                match h[2] {
                                    ScAnswer::Ran(Err(e)) => last_step(h, 3, fail_with(e)),
                                    ScAnswer::Ran(Ok(out)) => if h.len() == 3 {
                                        ScStepView::Query(component)
                                    } else {
                                        match h[3] {
                                            ScAnswer::Queried(Err(e)) => last_step(h, 4, fail_with(e)),
                                            ScAnswer::Queried(Ok(s4)) => last_step(
                                                h,
                                                4,
                                                if service_state(s4@) == WindowsServiceState::Running {
                                                    finish_ok("running"@, t.running)
                                                } else {
                                                    finish_err(
                                                        ErrorKind::Setup,
                                                        t.not_running_head + trim(out@) + t.not_running_tail,
                                                    )
                                                },
                                            ),
                                            _ => ScStepView::Invalid,
                                        }
                                    },
                                    _ => ScStepView::Invalid,
                                }
                            },
                        },
                        _ => ScStepView::Invalid,
                    }
                },
            },
            _ => ScStepView::Invalid,
        }
    }
}

/// The start conversation as a function of the answers so far.
pub open spec fn start_conversation(
    platform: Seq<char>,
    component: Seq<char>,
    binary_exists: bool,
    start: Seq<Seq<char>>,
    t: StartTextsView,
) -> spec_fn(Seq<ScAnswer>) -> ScStepView {
    |g: Seq<ScAnswer>| start_next(platform, component, binary_exists, start, t, g)
}

/// What starting a component gives, for the runners' answers: the
/// conversation [`start_next`] leads, ending in `res`.
pub open spec fn start_spec<Q: Fn(&str) -> Result<String, NonoError>, R: Fn(&[String]) -> Result<String, NonoError>>(
    platform: Seq<char>,
    component: Seq<char>,
    binary_exists: bool,
    start: Seq<Seq<char>>,
    t: StartTextsView,
    q: Q,
    r: R,
    res: Result<WindowsWfpReport, NonoError>,
) -> bool {
    exists|h: Seq<ScAnswer>|
        #[trigger] is_run(q, r, start_conversation(platform, component, binary_exists, start, t), h)
            && start_next(platform, component, binary_exists, start, t, h) == ScStepView::Finish(outcome_view(res))
}

/// A start conversation never takes more than four answers, and one that
/// [`start_next`] leads always has a next step.
pub proof fn lemma_start_conversation_is_bounded<
    Q: Fn(&str) -> Result<String, NonoError>,
    R: Fn(&[String]) -> Result<String, NonoError>,
>(
    platform: Seq<char>,
    component: Seq<char>,
    binary_exists: bool,
    start: Seq<Seq<char>>,
    t: StartTextsView,
    q: Q,
    r: R,
    h: Seq<ScAnswer>,
)
    ensures
        start_next(platform, component, binary_exists, start, t, h) is Query
            || start_next(platform, component, binary_exists, start, t, h) is Run ==> h.len() < 4,
        is_run(q, r, start_conversation(platform, component, binary_exists, start, t), h)
            ==> !(start_next(platform, component, binary_exists, start, t, h) is Invalid),
{
    let next = start_conversation(platform, component, binary_exists, start, t);
    if is_run(q, r, next, h) {
        if h.len() > 0 {
            assert(fits(q, r, next(h.take(0)), h[0]));
        }
        if h.len() > 1 {
            assert(fits(q, r, next(h.take(1)), h[1]));
        }
        if h.len() > 2 {
            assert(fits(q, r, next(h.take(2)), h[2]));
        }
        if h.len() > 3 {
            assert(fits(q, r, next(h.take(3)), h[3]));
        }
        assert(h.take(0) =~= Seq::<ScAnswer>::empty());
        if h.len() > 1 {
            assert(h.take(1) =~= seq![h[0]]);
        }
        if h.len() > 2 {
            assert(h.take(2) =~= seq![h[0], h[1]]);
        }
        if h.len() > 3 {
            assert(h.take(3) =~= seq![h[0], h[1], h[2]]);
        }
        if h.len() > 4 {
            assert(h.take(4) =~= seq![h[0], h[1], h[2], h[3]]);
            assert(fits(q, r, next(h.take(4)), h[4]));
        }
    }
}

/// Decides the next step of starting a component.
pub fn start_step(
    platform: &str,
    component: &str,
    binary_exists: bool,
    start: &[String],
    t: &StartTexts,
    history: &[ScAnswer],
) -> (r: ScStep)
    ensures
        step_view(r) == start_next(platform@, component@, binary_exists, views(start@), start_texts_view(*t), history@),
{
    let n = history.len();
    if !binary_exists {
        return if n == 0 { ScStep::Finish(Err(NonoError::Setup(t.missing_binary.clone()))) } else { ScStep::Invalid };
    }
    if n == 0 {
        return ScStep::Query(String::from_str(platform));
    }
    match &history[0] {
        ScAnswer::Queried(Err(e)) => return if n == 1 { ScStep::Finish(Err(e.duplicate())) } else { ScStep::Invalid },
        ScAnswer::Queried(Ok(s1)) => match parse_windows_service_state(s1.as_str()) {
            WindowsServiceState::Stopped => {
                return if n == 1 { ScStep::Finish(Err(NonoError::Setup(t.bfe_stopped.clone()))) } else { ScStep::Invalid };
            },
            WindowsServiceState::Missing | WindowsServiceState::Unknown => {
                return if n == 1 { ScStep::Finish(Err(NonoError::Setup(t.bfe_missing.clone()))) } else { ScStep::Invalid };
            },
            WindowsServiceState::Running => {},
        },
        _ => return ScStep::Invalid,
    }
    if n == 1 {
        return ScStep::Query(String::from_str(component));
    }
    match &history[1] {
        ScAnswer::Queried(Err(e)) => return if n == 2 { ScStep::Finish(Err(e.duplicate())) } else { ScStep::Invalid },
        ScAnswer::Queried(Ok(s2)) => match parse_windows_service_state(s2.as_str()) {
            WindowsServiceState::Running => {
                return if n == 2 {
                    ScStep::Finish(Ok(WindowsWfpReport { status_label: "already running", details: t.already_running.clone() }))
                } else {
                    ScStep::Invalid
                };
            },
            WindowsServiceState::Missing | WindowsServiceState::Unknown => {
                return if n == 2 { ScStep::Finish(Err(NonoError::Setup(t.not_registered.clone()))) } else { ScStep::Invalid };
            },
            WindowsServiceState::Stopped => {},
        },
        _ => return ScStep::Invalid,
    }
    if n == 2 {
        return ScStep::Run(copy_strings(start));
    }
    let start_output = match &history[2] {
        ScAnswer::Ran(Err(e)) => return if n == 3 { ScStep::Finish(Err(e.duplicate())) } else { ScStep::Invalid },
        ScAnswer::Ran(Ok(out)) => out,
        _ => return ScStep::Invalid,
    };
    if n == 3 {
        return ScStep::Query(String::from_str(component));
    }
    match &history[3] {
        ScAnswer::Queried(Err(e)) => if n == 4 { ScStep::Finish(Err(e.duplicate())) } else { ScStep::Invalid },
        ScAnswer::Queried(Ok(s4)) => if n != 4 {
            ScStep::Invalid
        } else if parse_windows_service_state(s4.as_str()) == WindowsServiceState::Running {
            ScStep::Finish(Ok(WindowsWfpReport { status_label: "running", details: t.running.clone() }))
        } else {
            let mut m = t.not_running_head.clone();
            let trimmed_output = trimmed(start_output.as_str());
            m.append(trimmed_output.as_str());
            m.append(t.not_running_tail.as_str());
            ScStep::Finish(Err(NonoError::Setup(m)))
        },
        _ => ScStep::Invalid,
    }
}

fn start_component<Q, R>(
    platform: &str,
    component: &str,
    binary_exists: bool,
    start: &[String],
    t: StartTexts,
    query_service: &Q,
    run_service_command: &R,
) -> (res: Result<WindowsWfpReport, NonoError>)
    where
        Q: Fn(&str) -> Result<String, NonoError>,
        R: Fn(&[String]) -> Result<String, NonoError>,
    requires
        forall|s: &str| call_requires(*query_service, (s,)),
        forall|a: &[String]| call_requires(*run_service_command, (a,)),
    ensures
        start_spec(platform@, component@, binary_exists, views(start@), start_texts_view(t), *query_service, *run_service_command, res),
{
    let ghost tv = start_texts_view(t);
    let ghost next = start_conversation(platform@, component@, binary_exists, views(start@), tv);
    let texts = &t;
    let step = |h: &[ScAnswer]| -> (r: ScStep)
        ensures
            step_view(r) == start_next(platform@, component@, binary_exists, views(start@), start_texts_view(*texts), h@),
        { start_step(platform, component, binary_exists, start, texts, h) };
    proof {
        assert forall|g: Seq<ScAnswer>| #![trigger next(g)] (next(g) is Query || next(g) is Run) implies g.len() < 4 by {
            lemma_start_conversation_is_bounded(platform@, component@, binary_exists, views(start@), tv, *query_service, *run_service_command, g);
        }
        assert forall|g: Seq<ScAnswer>| #[trigger] is_run(*query_service, *run_service_command, next, g) implies !(next(g) is Invalid) by {
            lemma_start_conversation_is_bounded(platform@, component@, binary_exists, views(start@), tv, *query_service, *run_service_command, g);
        }
    }
    converse(step, Ghost(next), 4, query_service, run_service_command)
}

/// The texts of starting the backend service.
pub open spec fn service_start_texts(cfg: WfpProbeConfig) -> StartTextsView {
    StartTextsView {
        missing_binary: "Cannot start Windows WFP service because the backend binary is missing: "@
            + cfg.backend_binary_path@ + ". Build nono-wfp-service first."@,
        bfe_stopped: "Cannot start Windows WFP service because the Base Filtering Engine service ("@
            + cfg.platform_service@ + ") is not running."@,
        bfe_missing: "Cannot start Windows WFP service because the Base Filtering Engine service ("@
            + cfg.platform_service@ + ") is missing or could not be queried."@,
        already_running: "Windows WFP service "@ + cfg.backend_service@ + " is already running. Its registered startup command is "@
            + service_command(cfg)
            + ". Network enforcement is still not active until the real WFP backend is implemented."@,
        not_registered: "Cannot start Windows WFP service because it is not registered: "@ + cfg.backend_service@
            + ". Run `nono setup --install-wfp-service` first."@,
        running: "Windows WFP service "@ + cfg.backend_service@ + " is running with startup command "@
            + service_command(cfg) + ". The service is ready to activate WFP filters on request."@,
        not_running_head: "Windows WFP service "@ + cfg.backend_service@
            + " did not reach RUNNING after an explicit start attempt. Startup command: "@ + service_command(cfg)
            + ". Current host output: "@,
        not_running_tail: "."@,
    }
}

/// The texts of starting the kernel driver.
pub open spec fn driver_start_texts(cfg: WfpProbeConfig) -> StartTextsView {
    StartTextsView {
        missing_binary: "Cannot start Windows WFP driver because the driver binary is missing: "@
            + cfg.backend_driver_binary_path@
            + ". Build nono-cli so the placeholder driver artifact is staged first."@,
        bfe_stopped: "Cannot start Windows WFP driver because the Base Filtering Engine service ("@
            + cfg.platform_service@ + ") is not running."@,
        bfe_missing: "Cannot start Windows WFP driver because the Base Filtering Engine service ("@
            + cfg.platform_service@ + ") is missing or could not be queried."@,
        already_running: "Windows WFP driver "@ + cfg.backend_driver@ + " is already running from binary "@
            + cfg.backend_driver_binary_path@
            + ". Network enforcement is still not active until the real WFP backend is implemented."@,
        not_registered: "Cannot start Windows WFP driver because it is not registered: "@ + cfg.backend_driver@
            + ". Run `nono setup --install-wfp-driver` first."@,
        running: "Windows WFP driver "@ + cfg.backend_driver@ + " is running from binary "@
            + cfg.backend_driver_binary_path@
            + ". The placeholder driver still does not provide network enforcement yet."@,
        not_running_head: "Windows WFP driver "@ + cfg.backend_driver@
            + " did not reach RUNNING after an explicit start attempt. Driver binary: "@
            + cfg.backend_driver_binary_path@ + ". Current host output: "@,
        not_running_tail: ". This is expected while the placeholder driver still fails closed."@,
    }
}

/// Starts the WFP backend service. `backend_binary_exists` tells whether
/// the service binary is present.
pub fn start_windows_wfp_service_with_runner<Q, R>(
    config: &WfpProbeConfig,
    backend_binary_exists: bool,
    query_service: Q,
    run_service_command: R,
) -> (res: Result<WindowsWfpStartReport, NonoError>)
    where
        Q: Fn(&str) -> Result<String, NonoError>,
        R: Fn(&[String]) -> Result<String, NonoError>,
    requires
        forall|s: &str| call_requires(query_service, (s,)),
        forall|a: &[String]| call_requires(run_service_command, (a,)),
    ensures
        start_spec(
            config.platform_service@,
            config.backend_service@,
            backend_binary_exists,
            verb_args_spec("start"@, config.backend_service@),
            service_start_texts(*config),
            query_service,
            run_service_command,
            res,
        ),
{
    let cmd = format_wfp_service_command(config);
    let ps = config.platform_service.as_str();
    let bs = config.backend_service.as_str();
    let head = five(
        "Windows WFP service ",
        bs,
        " did not reach RUNNING after an explicit start attempt. Startup command: ",
        cmd.as_str(),
        ". Current host output: ",
    );
    let t = StartTexts {
        missing_binary: three(
            "Cannot start Windows WFP service because the backend binary is missing: ",
            config.backend_binary_path.as_str(),
            ". Build nono-wfp-service first.",
        ),
        bfe_stopped: three(
            "Cannot start Windows WFP service because the Base Filtering Engine service (",
            ps,
            ") is not running.",
        ),
        bfe_missing: three(
            "Cannot start Windows WFP service because the Base Filtering Engine service (",
            ps,
            ") is missing or could not be queried.",
        ),
        already_running: five(
            "Windows WFP service ",
            bs,
            " is already running. Its registered startup command is ",
            cmd.as_str(),
            ". Network enforcement is still not active until the real WFP backend is implemented.",
        ),
        not_registered: three(
            "Cannot start Windows WFP service because it is not registered: ",
            bs,
            ". Run `nono setup --install-wfp-service` first.",
        ),
        running: five(
            "Windows WFP service ",
            bs,
            " is running with startup command ",
            cmd.as_str(),
            ". The service is ready to activate WFP filters on request.",
        ),
        not_running_head: head,
        not_running_tail: String::from_str("."),
    };
    assert(start_texts_view(t) == service_start_texts(*config));
    let start = build_wfp_service_start_args(config);
    start_component(ps, bs, backend_binary_exists, start.as_slice(), t, &query_service, &run_service_command)
}

/// Starts the WFP kernel driver. `driver_binary_exists` tells whether the
/// driver binary is present.
pub fn start_windows_wfp_driver_with_runner<Q, R>(
    config: &WfpProbeConfig,
    driver_binary_exists: bool,
    query_service: Q,
    run_service_command: R,
) -> (res: Result<WindowsWfpDriverStartReport, NonoError>)
    where
        Q: Fn(&str) -> Result<String, NonoError>,
        R: Fn(&[String]) -> Result<String, NonoError>,
    requires
        forall|s: &str| call_requires(query_service, (s,)),
        forall|a: &[String]| call_requires(run_service_command, (a,)),
    ensures
        start_spec(
            config.platform_service@,
            config.backend_driver@,
            driver_binary_exists,
            verb_args_spec("start"@, config.backend_driver@),
            driver_start_texts(*config),
            query_service,
            run_service_command,
            res,
        ),
{
    let ps = config.platform_service.as_str();
    let bd = config.backend_driver.as_str();
    let dp = config.backend_driver_binary_path.as_str();
    let t = StartTexts {
        missing_binary: three(
            "Cannot start Windows WFP driver because the driver binary is missing: ",
            dp,
            ". Build nono-cli so the placeholder driver artifact is staged first.",
        ),
        bfe_stopped: three(
            "Cannot start Windows WFP driver because the Base Filtering Engine service (",
            ps,
            ") is not running.",
        ),
        bfe_missing: three(
            "Cannot start Windows WFP driver because the Base Filtering Engine service (",
            ps,
            ") is missing or could not be queried.",
        ),
        already_running: five(
            "Windows WFP driver ",
            bd,
            " is already running from binary ",
            dp,
            ". Network enforcement is still not active until the real WFP backend is implemented.",
        ),
        not_registered: three(
            "Cannot start Windows WFP driver because it is not registered: ",
            bd,
            ". Run `nono setup --install-wfp-driver` first.",
        ),
        running: five(
            "Windows WFP driver ",
            bd,
            " is running from binary ",
            dp,
            ". The placeholder driver still does not provide network enforcement yet.",
        ),
        not_running_head: five(
            "Windows WFP driver ",
            bd,
            " did not reach RUNNING after an explicit start attempt. Driver binary: ",
            dp,
            ". Current host output: ",
        ),
        not_running_tail: String::from_str(". This is expected while the placeholder driver still fails closed."),
    };
    assert(start_texts_view(t) == driver_start_texts(*config));
    let start = build_wfp_driver_start_args(config);
    start_component(ps, bd, driver_binary_exists, start.as_slice(), t, &query_service, &run_service_command)
}


// ---------------------------------------------------------------------------
// Readiness probing
// ---------------------------------------------------------------------------

/// What probing readiness gives, for the query runner's answers: a forced
/// ready state (test layouts) takes both services as running; otherwise a
/// missing backend binary is reported without querying; otherwise the
/// platform and backend services are queried in turn, a failing query being
/// the result.
pub open spec fn probe_spec<Q: Fn(&str) -> Result<String, NonoError>>(
    cfg: WfpProbeConfig,
    force_ready: bool,
    binary_exists: bool,
    q: Q,
    res: Result<WfpProbeStatus, NonoError>,
) -> bool {
    if force_ready {
        res == Ok::<WfpProbeStatus, NonoError>(
            probe_status_spec(binary_exists, WindowsServiceState::Running, WindowsServiceState::Running),
        )
    } else if !binary_exists {
        res == Ok::<WfpProbeStatus, NonoError>(WfpProbeStatus::BackendBinaryMissing)
    } else {
        exists|o1: Result<String, NonoError>| #[trigger] query_gives(q, cfg.platform_service@, o1) && match o1 {
            Err(e) => res == Err::<WfpProbeStatus, NonoError>(e),
            Ok(s1) => exists|o2: Result<String, NonoError>| #[trigger] query_gives(q, cfg.backend_service@, o2) && match o2 {
                Err(e) => res == Err::<WfpProbeStatus, NonoError>(e),
                Ok(s2) => res == Ok::<WfpProbeStatus, NonoError>(
                    probe_status_spec(true, service_state(s1@), service_state(s2@)),
                ),
            },
        }
    }
}

/// Probes WFP readiness through the query runner. `force_ready` is the
/// test-layout override; `backend_binary_exists` tells whether the service
/// binary is present.
pub fn probe_wfp_backend_status_with_config<Q>(
    config: &WfpProbeConfig,
    force_ready: bool,
    backend_binary_exists: bool,
    query_service: Q,
) -> (res: Result<WfpProbeStatus, NonoError>)
    where
        Q: Fn(&str) -> Result<String, NonoError>,
    requires
        forall|s: &str| call_requires(query_service, (s,)),
    ensures
        probe_spec(*config, force_ready, backend_binary_exists, query_service, res),
{
    if force_ready {
        return Ok(
            build_wfp_probe_status(backend_binary_exists, WindowsServiceState::Running, WindowsServiceState::Running),
        );
    }
    if !backend_binary_exists {
        return Ok(WfpProbeStatus::BackendBinaryMissing);
    }
    let o1 = query_service(config.platform_service.as_str());
    assert(query_gives(query_service, config.platform_service@, o1));
    let out1 = match o1 {
        Ok(s) => s,
        Err(e) => return Err(e),
    };
    let platform_state = parse_windows_service_state(out1.as_str());
    let o2 = query_service(config.backend_service.as_str());
    assert(query_gives(query_service, config.backend_service@, o2));
    let out2 = match o2 {
        Ok(s) => s,
        Err(e) => return Err(e),
    };
    let backend_state = parse_windows_service_state(out2.as_str());
    Ok(build_wfp_probe_status(true, platform_state, backend_state))
}

/// What `nono setup` reports about WFP readiness.
#[derive(Debug, Clone)]
pub struct WindowsWfpReadinessReport {
    pub status_label: &'static str,
    pub details: String,
    pub next_action: Option<String>,
    pub service_status_label: &'static str,
    pub service_details: String,
    pub driver_status_label: &'static str,
    pub driver_details: String,
}

/// The readiness report for a probe outcome: each line describes the probed
/// state, and a failed probe is reported on every line with its detail.
pub open spec fn readiness_report_spec(cfg: WfpProbeConfig, probed: Result<WfpProbeStatus, NonoError>, r: WindowsWfpReadinessReport) -> bool {
    match probed {
        Ok(status) => {
            &&& r.status_label@ == readiness_label(status)
            &&& r.details@ == probe_status_details(cfg, status)
            &&& r.next_action matches Some(t) && t@ == next_action_text(cfg, status)
            &&& r.service_status_label@ == service_status_label(status)
            &&& r.service_details@ == service_status_details(cfg, status)
            &&& r.driver_status_label@ == driver_status_label(status)
            &&& r.driver_details@ == driver_status_details(cfg, status)
        },
        Err(e) => {
            &&& r.status_label@ == "probe failed"@
            &&& r.details@ == "Failed to probe Windows WFP readiness: "@ + crate::error::error_detail(e)
            &&& r.next_action is None
            &&& r.service_status_label@ == "probe failed"@
            &&& r.service_details@ == "Failed to probe Windows WFP service readiness: "@ + crate::error::error_detail(e)
            &&& r.driver_status_label@ == "probe failed"@
            &&& r.driver_details@ == "Failed to probe Windows WFP driver readiness: "@ + crate::error::error_detail(e)
        },
    }
}

/// Builds the readiness report from a probe outcome.
pub fn describe_wfp_readiness(config: &WfpProbeConfig, probed: Result<WfpProbeStatus, NonoError>) -> (r: WindowsWfpReadinessReport)
    ensures
        readiness_report_spec(*config, probed, r),
{
    match probed {
        Ok(status) => {
            let (service_status_label, service_details) = describe_wfp_service_status_for_setup(config, status);
            let (driver_status_label, driver_details) = describe_wfp_driver_status_for_setup(config, status);
            WindowsWfpReadinessReport {
                status_label: readiness_status_label(status),
                details: describe_wfp_probe_status_for_setup(config, status),
                next_action: describe_wfp_next_action_for_setup(config, status),
                service_status_label,
                service_details,
                driver_status_label,
                driver_details,
            }
        },
        Err(err) => {
            let d = err.detail();
            let mut details = String::from_str("Failed to probe Windows WFP readiness: ");
            details.append(d.as_str());
            let mut service_details = String::from_str("Failed to probe Windows WFP service readiness: ");
            service_details.append(d.as_str());
            let mut driver_details = String::from_str("Failed to probe Windows WFP driver readiness: ");
            driver_details.append(d.as_str());
            WindowsWfpReadinessReport {
                status_label: "probe failed",
                details,
                next_action: None,
                service_status_label: "probe failed",
                service_details,
                driver_status_label: "probe failed",
                driver_details,
            }
        },
    }
}

/// The report when the component paths cannot be resolved.
pub open spec fn unresolved_report_spec(r: WindowsWfpReadinessReport) -> bool {
    &&& r.status_label@ == "probe failed"@
    &&& r.details@ == "Failed to resolve expected WFP backend component paths from the current executable layout."@
    &&& r.next_action is None
    &&& r.service_status_label@ == "probe failed"@
    &&& r.service_details@ == "Failed to resolve expected WFP backend service component paths from the current executable layout."@
    &&& r.driver_status_label@ == "probe failed"@
    &&& r.driver_details@ == "Failed to resolve expected WFP backend driver component paths from the current executable layout."@
}

/// Probes WFP readiness for `nono setup`. `config` is `None` when the
/// component paths could not be resolved from the executable layout.
pub fn probe_windows_wfp_readiness<Q>(
    config: Option<&WfpProbeConfig>,
    force_ready: bool,
    backend_binary_exists: bool,
    query_service: Q,
) -> (r: WindowsWfpReadinessReport)
    where
        Q: Fn(&str) -> Result<String, NonoError>,
    requires
        forall|s: &str| call_requires(query_service, (s,)),
    ensures
        match config {
            None => unresolved_report_spec(r),
            Some(cfg) => exists|p: Result<WfpProbeStatus, NonoError>|
                #[trigger] probe_spec(*cfg, force_ready, backend_binary_exists, query_service, p)
                    && readiness_report_spec(*cfg, p, r),
        },
{
    match config {
        None => WindowsWfpReadinessReport {
            status_label: "probe failed",
            details: String::from_str("Failed to resolve expected WFP backend component paths from the current executable layout."),
            next_action: None,
            service_status_label: "probe failed",
            service_details: String::from_str(
                "Failed to resolve expected WFP backend service component paths from the current executable layout.",
            ),
            driver_status_label: "probe failed",
            driver_details: String::from_str(
                "Failed to resolve expected WFP backend driver component paths from the current executable layout.",
            ),
        },
        Some(cfg) => {
            let p = probe_wfp_backend_status_with_config(cfg, force_ready, backend_binary_exists, query_service);
            let ghost gp = p;
            let r = describe_wfp_readiness(cfg, p);
            assert(probe_spec(*cfg, force_ready, backend_binary_exists, query_service, gp));
            r
        },
    }
}

} // verus!
