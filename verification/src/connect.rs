//! The command to connect to a server: what to do next, and what to make of the outcome.

use crate::config::{
    build_xray_config, config_text, text_outcome, ACTIVE_SOCKS_PORT, ACTIVE_TUN_INTERFACE,
};
use crate::manager::{
    given_up, proxy_writes, set_system_proxy, set_tun_route, stop_plan, tun_writes, write_models,
    ManagerModel, RegistryModel, RegistryWrite, StopModel, StopPlan, XrayManager,
};
use crate::platform::Platform;
use crate::probe::ExitReport;
use crate::text::{decimal, decimal_text, unit_outcome};
use crate::uri::{parse_vless_uri, vless_of, VlessModel};
use crate::xray_log::{log_summary, summarize_xray_log};
use vstd::prelude::*;
use vstd::string::*;

verus! {

/// What the files of the connection are called after.
pub const ACTIVE_TAG: &'static str = "active";

/// How long a new Xray process is left alone before it is looked at, in milliseconds.
pub const SETTLE_MS: u64 = 1400;

/// How often the VPN service is asked whether it runs.
pub const RUNNING_POLLS: u8 = 180;

/// How long to wait before the VPN service is asked again, in milliseconds.
pub const POLL_MS: u64 = 250;

/// The addresses that are reached without the proxy of the system.
pub const BYPASS_LIST: &'static str = "localhost;127.*;10.*;172.16.*;172.17.*;172.18.*;172.19.*;172.20.*;172.21.*;172.22.*;172.23.*;172.24.*;172.25.*;172.26.*;172.27.*;172.28.*;172.29.*;172.30.*;172.31.*;192.168.*";

/// Where a command to connect stands: what it waits for.
#[derive(Clone, Copy, Debug, PartialEq, Eq, Structural)]
pub enum ConnectPhase {
    /// The files of the Xray process.
    Preparing,
    /// The Xray process.
    Spawning,
    /// The end of the time that the Xray process is left alone.
    Settling,
    /// Whether the Xray process still runs.
    Checking,
    /// The settings of the system.
    Routing,
    /// The call that starts the VPN service.
    Calling,
    /// Whether the VPN service runs; it did not, the given number of times.
    Polling(u8),
    /// The time to ask the VPN service again; it did not run, the given number of times.
    Pausing(u8),
    /// Nothing; the command is over.
    Over,
}

/// Where the files of an Xray process are kept.
pub struct AssetPaths {
    pub config_path: String,
    pub log_path: String,
}

/// A command to connect.
pub struct ConnectTask {
    pub uri: String,
    pub tunnel_mode: bool,
    pub platform: Platform,
    /// Where the configuration of the Xray process is kept, once it was written.
    pub config_path: String,
    /// Where the log of the Xray process is kept, once the configuration was written.
    pub log_path: String,
    pub phase: ConnectPhase,
}

/// A command to connect, as mathematical values.
pub struct ConnectModel {
    pub uri: Seq<char>,
    pub tunnel_mode: bool,
    pub platform: Platform,
    pub config_path: Seq<char>,
    pub log_path: Seq<char>,
    pub phase: ConnectPhase,
}

impl View for ConnectTask {
    type V = ConnectModel;

    open spec fn view(&self) -> ConnectModel {
        ConnectModel {
            uri: self.uri@,
            tunnel_mode: self.tunnel_mode,
            platform: self.platform,
            config_path: self.config_path@,
            log_path: self.log_path@,
            phase: self.phase,
        }
    }
}

impl ConnectModel {
    /// What holds of a command to connect at any time: an Xray process is run on Windows, a
    /// service on Android, always for all traffic, and is asked so often at most.
    pub open spec fn well_formed(self) -> bool {
        &&& self.platform == Platform::Android ==> self.tunnel_mode
        &&& match self.phase {
            ConnectPhase::Calling => self.platform == Platform::Android,
            ConnectPhase::Polling(polls) => self.platform == Platform::Android && polls
                < RUNNING_POLLS,
            ConnectPhase::Pausing(polls) => self.platform == Platform::Android && polls
                <= RUNNING_POLLS,
            ConnectPhase::Over => true,
            _ => self.platform == Platform::Windows,
        }
    }
}

/// What a command to connect waited for.
pub enum ConnectEvent {
    /// The files of the Xray process are there, or could not be written.
    Prepared(Result<AssetPaths, String>),
    /// The Xray process was started, or could not be.
    Spawned(Result<(), String>),
    /// The time to wait is over.
    Waited,
    /// The Xray process has ended, or still runs, or is gone.
    Checked(Option<ExitReport>),
    /// The settings of the system were made, or could not be.
    Routed(Result<(), String>),
    /// The call that starts the VPN service was made, or could not be.
    Called(Result<(), String>),
    /// The VPN service was asked whether it runs.
    Polled(Result<bool, String>),
}

/// What a command to connect waited for, as a mathematical value.
pub enum ConnectEventModel {
    Prepared(Result<(Seq<char>, Seq<char>), Seq<char>>),
    Spawned(Result<(), Seq<char>>),
    Waited,
    Checked(Option<(Seq<char>, Seq<char>)>),
    Routed(Result<(), Seq<char>>),
    Called(Result<(), Seq<char>>),
    Polled(Result<bool, Seq<char>>),
}

impl View for ConnectEvent {
    type V = ConnectEventModel;

    open spec fn view(&self) -> ConnectEventModel {
        match self {
            ConnectEvent::Prepared(Ok(paths)) => ConnectEventModel::Prepared(
                Ok((paths.config_path@, paths.log_path@)),
            ),
            ConnectEvent::Prepared(Err(error)) => ConnectEventModel::Prepared(Err(error@)),
            ConnectEvent::Spawned(result) => ConnectEventModel::Spawned(unit_outcome(*result)),
            ConnectEvent::Waited => ConnectEventModel::Waited,
            ConnectEvent::Checked(Some(report)) => ConnectEventModel::Checked(
                Some((report.status@, report.log@)),
            ),
            ConnectEvent::Checked(None) => ConnectEventModel::Checked(None),
            ConnectEvent::Routed(result) => ConnectEventModel::Routed(unit_outcome(*result)),
            ConnectEvent::Called(result) => ConnectEventModel::Called(unit_outcome(*result)),
            ConnectEvent::Polled(Ok(running)) => ConnectEventModel::Polled(Ok(*running)),
            ConnectEvent::Polled(Err(error)) => ConnectEventModel::Polled(Err(error@)),
        }
    }
}

/// What a command to connect asks for.
pub enum ConnectAction {
    /// Write the files of an Xray process.
    Prepare {
        tag: String,
        config: String,
    },
    /// Start the Xray process.
    Spawn,
    /// Clear away what was there before, then wait for so many milliseconds.
    Settle {
        before: StopPlan,
        ms: u64,
    },
    /// See whether the Xray process has ended.
    CheckExit,
    /// Write to the registry.
    Route(Vec<RegistryWrite>),
    /// Start the VPN service.
    Call {
        config: String,
        tunnel_mode: bool,
    },
    /// Ask the VPN service whether it runs.
    Poll,
    /// Wait for so many milliseconds.
    Sleep(u64),
    /// End the command.
    Finish {
        outcome: Result<(), String>,
        /// What is left to do, where the connection was given up.
        stop: Option<StopPlan>,
    },
}

/// What a command to connect asks for, as a mathematical value.
pub enum ConnectActionModel {
    Prepare(Seq<char>, Seq<char>),
    Spawn,
    Settle(StopModel, u64),
    CheckExit,
    Route(Seq<(Seq<char>, RegistryModel)>),
    Call(Seq<char>, bool),
    Poll,
    Sleep(u64),
    Finish {
        outcome: Result<(), Seq<char>>,
        stop: Option<StopModel>,
    },
}

impl View for ConnectAction {
    type V = ConnectActionModel;

    open spec fn view(&self) -> ConnectActionModel {
        match self {
            ConnectAction::Prepare { tag, config } => ConnectActionModel::Prepare(tag@, config@),
            ConnectAction::Spawn => ConnectActionModel::Spawn,
            ConnectAction::Settle { before, ms } => ConnectActionModel::Settle(before@, *ms),
            ConnectAction::CheckExit => ConnectActionModel::CheckExit,
            ConnectAction::Route(writes) => ConnectActionModel::Route(write_models(writes@)),
            ConnectAction::Call { config, tunnel_mode } => ConnectActionModel::Call(
                config@,
                *tunnel_mode,
            ),
            ConnectAction::Poll => ConnectActionModel::Poll,
            ConnectAction::Sleep(ms) => ConnectActionModel::Sleep(*ms),
            ConnectAction::Finish { outcome, stop } => ConnectActionModel::Finish {
                outcome: unit_outcome(*outcome),
                stop: match stop {
                    Some(plan) => Some(plan@),
                    None => None,
                },
            },
        }
    }
}

/// Tells whether all traffic goes through the server.
pub open spec fn effective_mode(tunnel_mode: bool, platform: Platform) -> bool {
    tunnel_mode || platform == Platform::Android
}

/// The configuration of the connection, for what a URI was found to say.
pub open spec fn connect_config(
    parsed: Result<VlessModel, Seq<char>>,
    tunnel_mode: bool,
    platform: Platform,
) -> Result<Seq<char>, Seq<char>> {
    match parsed {
        Err(error) => Err(error),
        Ok(parsed) => config_text(
            parsed,
            ACTIVE_SOCKS_PORT,
            effective_mode(tunnel_mode, platform),
            ACTIVE_TUN_INTERFACE@,
        ),
    }
}

/// The action that ends a command without a connection.
pub open spec fn failed(error: Seq<char>) -> ConnectActionModel {
    ConnectActionModel::Finish { outcome: Err(error), stop: None }
}

/// The beginning of a command to connect.
pub open spec fn connect_begin(
    uri: Seq<char>,
    config: Result<Seq<char>, Seq<char>>,
    tunnel_mode: bool,
    platform: Platform,
) -> (Option<ConnectModel>, ConnectActionModel) {
    let mode = effective_mode(tunnel_mode, platform);
    match config {
        Err(error) => (None, failed(error)),
        Ok(config) => (
            Some(
                ConnectModel {
                    uri,
                    tunnel_mode: mode,
                    platform,
                    config_path: Seq::empty(),
                    log_path: Seq::empty(),
                    phase: match platform {
                        Platform::Windows => ConnectPhase::Preparing,
                        Platform::Android => ConnectPhase::Calling,
                    },
                },
            ),
            match platform {
                Platform::Windows => ConnectActionModel::Prepare(ACTIVE_TAG@, config),
                Platform::Android => ConnectActionModel::Call(config, mode),
            },
        ),
    }
}

/// The view of the beginning of a command to connect.
pub open spec fn connect_begun(begun: (Option<ConnectTask>, ConnectAction)) -> (
    Option<ConnectModel>,
    ConnectActionModel,
) {
    (
        match begun.0 {
            Some(task) => Some(task@),
            None => None,
        },
        begun.1@,
    )
}

/// A step of a command to connect: how it stands afterwards, what the connection is, and what
/// the command asks for.
pub struct ConnectStep {
    pub task: ConnectModel,
    pub manager: ManagerModel,
    pub action: ConnectActionModel,
}

/// The step that leads to the given phase.
pub open spec fn proceed(
    task: ConnectModel,
    manager: ManagerModel,
    phase: ConnectPhase,
    action: ConnectActionModel,
) -> ConnectStep {
    ConnectStep { task: ConnectModel { phase, ..task }, manager, action }
}

/// The step that ends a command with an error and leaves the connection as it is.
pub open spec fn fail(task: ConnectModel, manager: ManagerModel, error: Seq<char>) -> ConnectStep {
    proceed(task, manager, ConnectPhase::Over, failed(error))
}

/// The step that ends a command with success.
pub open spec fn succeed(task: ConnectModel, manager: ManagerModel) -> ConnectStep {
    proceed(
        task,
        manager,
        ConnectPhase::Over,
        ConnectActionModel::Finish { outcome: Ok(()), stop: None },
    )
}

/// The connection that an Xray process makes.
pub open spec fn established(task: ConnectModel) -> ManagerModel {
    ManagerModel {
        child: true,
        config_path: Some(task.config_path),
        log_path: Some(task.log_path),
        connected_uri: Some(task.uri),
        tunnel_mode: task.tunnel_mode,
    }
}

/// The message for an Xray process that has ended.
pub open spec fn exit_message(status: Seq<char>, log: Seq<char>) -> Seq<char> {
    "Xray exited unexpectedly with status "@ + status + ". "@ + log_summary(log)
}

/// The server that the proxy of the system is set to.
pub open spec fn proxy_server() -> Seq<char> {
    "socks=127.0.0.1:"@ + decimal(ACTIVE_SOCKS_PORT as nat)
}

/// The settings of the system that go with a connection.
pub open spec fn route_writes(tunnel_mode: bool) -> Seq<(Seq<char>, RegistryModel)> {
    if tunnel_mode {
        tun_writes(true)
    } else {
        proxy_writes(true, proxy_server(), BYPASS_LIST@)
    }
}

/// What the message of an error begins with that came up with the settings of the system.
pub open spec fn route_error(tunnel_mode: bool) -> Seq<char> {
    if tunnel_mode {
        "Failed to enable TUN route: "@
    } else {
        "Failed to enable system proxy: "@
    }
}

/// The message for a VPN service that does not run.
pub open spec fn not_running() -> Seq<char> {
    "Android VPN permission was not granted or VPN service did not start"@
}

/// The step that follows the wait.
pub open spec fn waited_step(task: ConnectModel, manager: ManagerModel) -> ConnectStep {
    match task.phase {
        ConnectPhase::Pausing(polls) => if polls < RUNNING_POLLS {
            proceed(task, manager, ConnectPhase::Polling(polls), ConnectActionModel::Poll)
        } else {
            fail(task, manager, not_running())
        },
        _ => proceed(task, manager, ConnectPhase::Checking, ConnectActionModel::CheckExit),
    }
}

/// The step that follows the question whether the VPN service runs.
pub open spec fn polled_step(
    task: ConnectModel,
    manager: ManagerModel,
    result: Result<bool, Seq<char>>,
) -> ConnectStep {
    match result {
        Err(error) => fail(task, manager, error),
        Ok(running) => if running {
            succeed(
                task,
                ManagerModel {
                    connected_uri: Some(task.uri),
                    tunnel_mode: task.tunnel_mode,
                    ..manager
                },
            )
        } else {
            proceed(
                task,
                manager,
                ConnectPhase::Pausing((task.phase->Polling_0 + 1) as u8),
                ConnectActionModel::Sleep(POLL_MS),
            )
        },
    }
}

/// The step of a command to connect that follows what it waited for.
pub open spec fn connect_step(
    task: ConnectModel,
    manager: ManagerModel,
    event: ConnectEventModel,
) -> ConnectStep {
    match event {
        ConnectEventModel::Prepared(Err(error)) => fail(task, manager, error),
        ConnectEventModel::Prepared(Ok((config_path, log_path))) => proceed(
            ConnectModel { config_path, log_path, ..task },
            manager,
            ConnectPhase::Spawning,
            ConnectActionModel::Spawn,
        ),
        ConnectEventModel::Spawned(Err(error)) => fail(task, manager, error),
        ConnectEventModel::Spawned(Ok(_)) => proceed(
            task,
            established(task),
            ConnectPhase::Settling,
            ConnectActionModel::Settle(stop_plan(manager, task.platform), SETTLE_MS),
        ),
        ConnectEventModel::Waited => waited_step(task, manager),
        ConnectEventModel::Checked(Some((status, log))) => proceed(
            task,
            given_up(manager, task.platform),
            ConnectPhase::Over,
            ConnectActionModel::Finish {
                outcome: Err(exit_message(status, log)),
                stop: Some(stop_plan(manager, task.platform)),
            },
        ),
        ConnectEventModel::Checked(None) => proceed(
            task,
            manager,
            ConnectPhase::Routing,
            ConnectActionModel::Route(route_writes(task.tunnel_mode)),
        ),
        ConnectEventModel::Routed(Err(error)) => fail(
            task,
            manager,
            route_error(task.tunnel_mode) + error,
        ),
        ConnectEventModel::Routed(Ok(_)) => succeed(
            task,
            if task.tunnel_mode {
                ManagerModel { tunnel_mode: true, ..manager }
            } else {
                manager
            },
        ),
        ConnectEventModel::Called(Err(error)) => fail(task, manager, error),
        ConnectEventModel::Called(Ok(_)) => proceed(
            task,
            manager,
            ConnectPhase::Polling(0),
            ConnectActionModel::Poll,
        ),
        ConnectEventModel::Polled(result) => polled_step(task, manager, result),
    }
}

/// Tells whether a command to connect waits for the event.
pub open spec fn expects(phase: ConnectPhase, event: ConnectEventModel) -> bool {
    match event {
        ConnectEventModel::Prepared(_) => phase == ConnectPhase::Preparing,
        ConnectEventModel::Spawned(_) => phase == ConnectPhase::Spawning,
        ConnectEventModel::Waited => phase == ConnectPhase::Settling || phase is Pausing,
        ConnectEventModel::Checked(_) => phase == ConnectPhase::Checking,
        ConnectEventModel::Routed(_) => phase == ConnectPhase::Routing,
        ConnectEventModel::Called(_) => phase == ConnectPhase::Calling,
        ConnectEventModel::Polled(_) => phase is Polling,
    }
}

/// Begins a command to connect, for the configuration that was made of the URI. There is no
/// task where there is no configuration: then the command is over at once.
pub fn begin_connect(
    uri: &str,
    config: Result<String, String>,
    tunnel_mode: bool,
    platform: Platform,
) -> (begun: (Option<ConnectTask>, ConnectAction))
    ensures
        connect_begun(begun) == connect_begin(uri@, text_outcome(config), tunnel_mode, platform),
        begun.0 matches Some(task) ==> task@.well_formed(),
{
    let config = match config {
        Ok(config) => config,
        Err(error) => {
            return (None, ConnectAction::Finish { outcome: Err(error), stop: None });
        },
    };
    let config_path = "".to_owned();
    let log_path = "".to_owned();
    proof {
        reveal_strlit("");
    }
    assert(config_path@ =~= Seq::empty());
    assert(log_path@ =~= Seq::empty());
    match platform {
        Platform::Windows => (
            Some(
                ConnectTask {
                    uri: uri.to_owned(),
                    tunnel_mode,
                    platform,
                    config_path,
                    log_path,
                    phase: ConnectPhase::Preparing,
                },
            ),
            ConnectAction::Prepare { tag: ACTIVE_TAG.to_owned(), config },
        ),
        Platform::Android => (
            Some(
                ConnectTask {
                    uri: uri.to_owned(),
                    tunnel_mode: true,
                    platform,
                    config_path,
                    log_path,
                    phase: ConnectPhase::Calling,
                },
            ),
            ConnectAction::Call { config, tunnel_mode: true },
        ),
    }
}

/// Begins a command to connect. There is no task where the URI describes no server: then the
/// command is over at once.
pub fn connect_profile(uri: &str, tunnel_mode: bool, platform: Platform) -> (begun: (
    Option<ConnectTask>,
    ConnectAction,
))
    ensures
        connect_begun(begun) == connect_begin(
            uri@,
            connect_config(vless_of(uri@), tunnel_mode, platform),
            tunnel_mode,
            platform,
        ),
        begun.0 is Some == vless_of(uri@) is Ok,
        begun.0 matches Some(task) ==> task@.well_formed(),
{
    let mode = match platform {
        Platform::Windows => tunnel_mode,
        Platform::Android => true,
    };
    let config = match parse_vless_uri(uri) {
        Err(error) => Err(error),
        Ok(parsed) => build_xray_config(&parsed, ACTIVE_SOCKS_PORT, mode, ACTIVE_TUN_INTERFACE),
    };
    begin_connect(uri, config, tunnel_mode, platform)
}

impl ConnectTask {
    /// Ends the command with an error and leaves the connection as it is.
    fn fail(&mut self, error: String) -> (action: ConnectAction)
        ensures
            forall|manager: ManagerModel| #[trigger]
                fail(old(self)@, manager, error@) == (ConnectStep {
                    task: final(self)@,
                    manager,
                    action: action@,
                }),
    {
        self.phase = ConnectPhase::Over;
        ConnectAction::Finish { outcome: Err(error), stop: None }
    }

    /// Goes on from the start of the Xray process.
    fn after_spawn(&mut self, manager: &mut XrayManager) -> (action: ConnectAction)
        requires
            old(self)@.platform == Platform::Windows,
        ensures
            (ConnectStep { task: final(self)@, manager: final(manager)@, action: action@ })
                == connect_step(
                old(self)@,
                old(manager)@,
                ConnectEventModel::Spawned(Ok(())),
            ),
    {
        let before = manager.stop(self.platform);
        manager.child = true;
        manager.config_path = Some(self.config_path.clone());
        manager.log_path = Some(self.log_path.clone());
        manager.connected_uri = Some(self.uri.clone());
        manager.tunnel_mode = self.tunnel_mode;
        self.phase = ConnectPhase::Settling;
        ConnectAction::Settle { before, ms: SETTLE_MS }
    }

    /// Goes on from the wait.
    fn after_wait(&mut self) -> (action: ConnectAction)
        ensures
            forall|manager: ManagerModel| #[trigger]
                waited_step(old(self)@, manager) == (ConnectStep {
                    task: final(self)@,
                    manager,
                    action: action@,
                }),
    {
        match self.phase {
            ConnectPhase::Pausing(polls) => {
                if polls < RUNNING_POLLS {
                    self.phase = ConnectPhase::Polling(polls);
                    ConnectAction::Poll
                } else {
                    self.fail(
                        "Android VPN permission was not granted or VPN service did not start".to_owned(),
                    )
                }
            },
            _ => {
                self.phase = ConnectPhase::Checking;
                ConnectAction::CheckExit
            },
        }
    }

    /// Goes on from the look at the Xray process.
    fn after_check(&mut self, manager: &mut XrayManager, report: Option<ExitReport>) -> (action:
        ConnectAction)
        ensures
            (ConnectStep { task: final(self)@, manager: final(manager)@, action: action@ })
                == connect_step(
                old(self)@,
                old(manager)@,
                ConnectEvent::Checked(report)@,
            ),
    {
        match report {
            Some(report) => {
                let mut message = "Xray exited unexpectedly with status ".to_owned();
                message.append(report.status.as_str());
                message.append(". ");
                message.append(summarize_xray_log(report.log.as_str()).as_str());
                let stop = manager.stop(self.platform);
                self.phase = ConnectPhase::Over;
                ConnectAction::Finish { outcome: Err(message), stop: Some(stop) }
            },
            None => {
                let writes = if self.tunnel_mode {
                    set_tun_route(true)
                } else {
                    let mut server = "socks=127.0.0.1:".to_owned();
                    server.append(decimal_text(ACTIVE_SOCKS_PORT as u128).as_str());
                    set_system_proxy(true, server.as_str(), BYPASS_LIST)
                };
                self.phase = ConnectPhase::Routing;
                ConnectAction::Route(writes)
            },
        }
    }

    /// Goes on from the settings of the system.
    fn after_route(&mut self, manager: &mut XrayManager, result: Result<(), String>) -> (action:
        ConnectAction)
        ensures
            (ConnectStep { task: final(self)@, manager: final(manager)@, action: action@ })
                == connect_step(
                old(self)@,
                old(manager)@,
                ConnectEvent::Routed(result)@,
            ),
    {
        match result {
            Err(error) => {
                let mut message = if self.tunnel_mode {
                    "Failed to enable TUN route: ".to_owned()
                } else {
                    "Failed to enable system proxy: ".to_owned()
                };
                message.append(error.as_str());
                self.fail(message)
            },
            Ok(_) => {
                if self.tunnel_mode {
                    manager.tunnel_mode = true;
                }
                self.phase = ConnectPhase::Over;
                ConnectAction::Finish { outcome: Ok(()), stop: None }
            },
        }
    }

    /// Goes on from the question whether the VPN service runs.
    fn after_poll(
        &mut self,
        manager: &mut XrayManager,
        polls: u8,
        result: Result<bool, String>,
    ) -> (action: ConnectAction)
        requires
            old(self)@.phase == ConnectPhase::Polling(polls),
            polls < RUNNING_POLLS,
        ensures
            (ConnectStep { task: final(self)@, manager: final(manager)@, action: action@ })
                == connect_step(
                old(self)@,
                old(manager)@,
                ConnectEvent::Polled(result)@,
            ),
    {
        match result {
            Err(error) => self.fail(error),
            Ok(running) => {
                if running {
                    manager.connected_uri = Some(self.uri.clone());
                    manager.tunnel_mode = self.tunnel_mode;
                    self.phase = ConnectPhase::Over;
                    ConnectAction::Finish { outcome: Ok(()), stop: None }
                } else {
                    self.phase = ConnectPhase::Pausing(polls + 1);
                    ConnectAction::Sleep(POLL_MS)
                }
            },
        }
    }

    /// Takes the step of the command that follows what it waited for.
    pub fn step(&mut self, manager: &mut XrayManager, event: ConnectEvent) -> (action:
        ConnectAction)
        requires
            old(self)@.well_formed(),
            expects(old(self)@.phase, event@),
        ensures
            (ConnectStep { task: final(self)@, manager: final(manager)@, action: action@ })
                == connect_step(old(self)@, old(manager)@, event@),
            final(self)@.well_formed(),
            (final(self)@.phase == ConnectPhase::Over) == (action is Finish),
    {
        match event {
            ConnectEvent::Prepared(Err(error)) => self.fail(error),
            ConnectEvent::Prepared(Ok(paths)) => {
                self.config_path = paths.config_path;
                self.log_path = paths.log_path;
                self.phase = ConnectPhase::Spawning;
                ConnectAction::Spawn
            },
            ConnectEvent::Spawned(Err(error)) => self.fail(error),
            ConnectEvent::Spawned(Ok(_)) => self.after_spawn(manager),
            ConnectEvent::Waited => self.after_wait(),
            ConnectEvent::Checked(report) => self.after_check(manager, report),
            ConnectEvent::Routed(result) => self.after_route(manager, result),
            ConnectEvent::Called(Err(error)) => self.fail(error),
            ConnectEvent::Called(Ok(_)) => {
                self.phase = ConnectPhase::Polling(0);
                ConnectAction::Poll
            },
            ConnectEvent::Polled(result) => {
                let polls: u8 = match self.phase {
                    ConnectPhase::Polling(polls) => polls,
                    _ => 0,
                };
                self.after_poll(manager, polls, result)
            },
        }
    }
}

} // verus!
