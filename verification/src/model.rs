//! The plan a supervisor runs, the release catalog's programs, and the
//! durable state of their processes.
use vstd::prelude::*;
use crate::decision::Policy;
use crate::execution::{Requirements, ResourceHistory, Status as ExecutionStatus};
use crate::registration::TimePoint;
use crate::use_assessment::ReadinessContract;

verus! {

/// A site's process selection. Processes have distinct identities.
#[derive(Clone, Debug)]
pub struct Plan {
    pub schema: String,
    pub id: String,
    pub environment: Environment,
    pub profiles: Vec<String>,
    pub processes: Vec<Process>,
}

#[derive(Clone, Copy, Debug, PartialEq, Eq, Structural)]
pub enum Environment {
    Simulation,
    Physical,
}

/// One selected process: its program, parameters (by name, each once),
/// dependencies and timing policy.
#[derive(Clone, Debug)]
pub struct Process {
    pub id: String,
    pub program: String,
    pub parameters: Vec<(String, String)>,
    pub depends_on: Vec<String>,
    pub startup_timeout_ms: u64,
    pub shutdown_timeout_ms: u64,
    pub restart_limit: u64,
    pub restart_backoff_ms: u64,
}

#[derive(Clone, Copy, Debug, PartialEq, Eq, Structural)]
pub enum Effect {
    NonActuating,
    RequiresPlatformAuthority,
    ProtocolGuardedService,
}

/// Supplied by the release catalog, never by the site's selection.
#[derive(Clone, Debug)]
pub struct Program {
    pub id: String,
    pub effect: Effect,
    pub executable: String,
    pub executable_sha256: String,
    pub files: Vec<(String, String)>,
    pub fixed_arguments: Vec<String>,
    /// Arguments by name, each name once.
    pub arguments: Vec<(String, Argument)>,
    pub ready: ReadyProbe,
    pub execution_requirements: Option<Requirements>,
    pub functional_readiness: Option<ReadinessContract>,
    pub decision_policy: Option<Policy>,
}

#[derive(Clone, Debug)]
pub enum Argument {
    Choice { flag: String, values: Vec<String> },
    Port { flag: String },
}

/// Where a guarded service reports its status, and what it must report.
#[derive(Clone, Debug)]
pub enum GuardedStatusBinding {
    Host { path: String, installation: String, host: String, installation_identity: String },
    Executor { path: String, installation: String, cell: String, service_journal: String, configuration_digest: String },
}

impl GuardedStatusBinding {
    pub open spec fn spec_path(&self) -> String {
        match *self {
            GuardedStatusBinding::Host { path, .. } => path,
            GuardedStatusBinding::Executor { path, .. } => path,
        }
    }

    pub fn path(&self) -> (r: &String)
        ensures
            *r == self.spec_path(),
    {
        match self {
            GuardedStatusBinding::Host { path, .. } => path,
            GuardedStatusBinding::Executor { path, .. } => path,
        }
    }

    /// The same binding with its status at `path`.
    pub fn with_path(&self, path: String) -> (r: Self)
        ensures
            r.spec_path() == path,
            match (*self, r) {
                (GuardedStatusBinding::Host { installation: a, host: b, installation_identity: c, .. },
                 GuardedStatusBinding::Host { installation: x, host: y, installation_identity: z, .. }) => a == x && b == y && c == z,
                (GuardedStatusBinding::Executor { installation: a, cell: b, service_journal: c, configuration_digest: d, .. },
                 GuardedStatusBinding::Executor { installation: w, cell: x, service_journal: y, configuration_digest: z, .. }) =>
                    a == w && b == x && c == y && d == z,
                _ => false,
            },
    {
        match self {
            GuardedStatusBinding::Host { installation, host, installation_identity, .. } => GuardedStatusBinding::Host {
                path,
                installation: installation.clone(),
                host: host.clone(),
                installation_identity: installation_identity.clone(),
            },
            GuardedStatusBinding::Executor { installation, cell, service_journal, configuration_digest, .. } => GuardedStatusBinding::Executor {
                path,
                installation: installation.clone(),
                cell: cell.clone(),
                service_journal: service_journal.clone(),
                configuration_digest: configuration_digest.clone(),
            },
        }
    }
}

#[derive(Clone, Debug)]
pub enum ReadyProbe {
    AliveOnly,
    HttpStatus { port_parameter: String },
    GuardedStatus(GuardedStatusBinding),
}

impl GuardedStatusBinding {
    pub fn duplicate(&self) -> (r: Self)
        ensures
            r == *self,
    {
        match self {
            GuardedStatusBinding::Host { path, installation, host, installation_identity } => GuardedStatusBinding::Host {
                path: path.clone(),
                installation: installation.clone(),
                host: host.clone(),
                installation_identity: installation_identity.clone(),
            },
            GuardedStatusBinding::Executor { path, installation, cell, service_journal, configuration_digest } => GuardedStatusBinding::Executor {
                path: path.clone(),
                installation: installation.clone(),
                cell: cell.clone(),
                service_journal: service_journal.clone(),
                configuration_digest: configuration_digest.clone(),
            },
        }
    }
}

impl ReadyProbe {
    pub fn duplicate(&self) -> (r: Self)
        ensures
            r == *self,
    {
        match self {
            ReadyProbe::AliveOnly => ReadyProbe::AliveOnly,
            ReadyProbe::HttpStatus { port_parameter } => ReadyProbe::HttpStatus { port_parameter: port_parameter.clone() },
            ReadyProbe::GuardedStatus(b) => ReadyProbe::GuardedStatus(b.duplicate()),
        }
    }
}

/// Everything one start of a process needs.
#[derive(Clone, Debug)]
pub struct Launch {
    /// The current plan selection, never a registration or OS identity.
    pub selection: String,
    pub instance: String,
    pub effect: Effect,
    pub executable: String,
    pub executable_sha256: String,
    pub files: Vec<(String, String)>,
    pub arguments: Vec<String>,
    pub ready: ReadyProbe,
    pub port: Option<u16>,
}

#[derive(Clone, Copy, Debug, PartialEq, Eq, Structural)]
pub enum Phase {
    Pending,
    Prepared,
    SpawnEntered,
    Starting,
    ProcessReady,
    Unready,
    StopRequested,
    Exited,
    Skipped,
    StartFailed,
    Unknown,
}

/// How a guarded service's exit was confirmed, if it was.
#[derive(Clone, Debug)]
pub enum GuardedExit {
    Confirmed { reconciliation_required: bool, sequence: u64, observed_at: TimePoint, payload_digest: String },
    Unconfirmed { reason: String },
}

/// The durable record of one process.
#[derive(Clone, Debug)]
pub struct Record {
    pub id: String,
    pub instance: Option<String>,
    pub phase: Phase,
    pub attempts: u64,
    pub pid: Option<u32>,
    pub exit_code: Option<i32>,
    pub error: Option<String>,
    pub guarded_exit: Option<GuardedExit>,
    /// Historical resource observations never restore a current receipt.
    pub resources: Option<ResourceHistory>,
}

/// The durable supervisor state: records by process, in plan order.
#[derive(Clone, Debug)]
pub struct State {
    pub schema: String,
    pub plan: String,
    pub plan_digest: String,
    pub stop_requested: bool,
    pub records: Vec<(String, Record)>,
}

/// What one supervision step found.
#[derive(Debug)]
pub struct Status {
    pub schema: String,
    pub state: State,
    pub blocked: Vec<String>,
    pub all_exited: bool,
    pub control_prepared: bool,
    pub physical_shutdown_assessed: bool,
    pub guarded_shutdown_confirmed: bool,
    pub reconciliation_required: bool,
    pub execution_admission: Vec<(String, ExecutionStatus)>,
}

/// The platform's lifecycle authority for control owners. Nothing a site
/// supplies can implement it.
pub trait LifecycleAuthority {
    fn may_start(&self, plan: &Plan, process: &Process, launch: &Launch) -> bool;
    fn may_stop(&self, plan: &Plan, process: &Process, launch: &Launch) -> bool;
}

/// Permits non-actuating software only.
pub struct SoftwareOnly;

pub open spec fn software_permitted(launch: Launch) -> bool {
    launch.effect == Effect::NonActuating
}

impl LifecycleAuthority for SoftwareOnly {
    fn may_start(&self, plan: &Plan, process: &Process, launch: &Launch) -> (r: bool)
        ensures
            r == software_permitted(*launch),
    {
        launch.effect == Effect::NonActuating
    }

    fn may_stop(&self, plan: &Plan, process: &Process, launch: &Launch) -> (r: bool)
        ensures
            r == software_permitted(*launch),
    {
        launch.effect == Effect::NonActuating
    }
}

/// Release-catalog software boot and guarded shutdown; never a physical
/// lifecycle.
pub struct GuardedServices;

pub open spec fn guarded_permitted(launch: Launch) -> bool {
    launch.effect == Effect::NonActuating || (launch.effect == Effect::ProtocolGuardedService
        && launch.ready is GuardedStatus)
}

impl LifecycleAuthority for GuardedServices {
    fn may_start(&self, plan: &Plan, process: &Process, launch: &Launch) -> (r: bool)
        ensures
            r == guarded_permitted(*launch),
    {
        launch.effect == Effect::NonActuating || (launch.effect == Effect::ProtocolGuardedService
            && match launch.ready {
            ReadyProbe::GuardedStatus(_) => true,
            _ => false,
        })
    }

    fn may_stop(&self, plan: &Plan, process: &Process, launch: &Launch) -> (r: bool)
        ensures
            r == guarded_permitted(*launch),
    {
        launch.effect == Effect::NonActuating || (launch.effect == Effect::ProtocolGuardedService
            && match launch.ready {
            ReadyProbe::GuardedStatus(_) => true,
            _ => false,
        })
    }
}

} // verus!
