//! The probe of one server: what to do next, and what to make of the outcome.

use crate::config::{
    build_xray_config, config_text, text_outcome, ACTIVE_TUN_INTERFACE,
};
use crate::platform::Platform;
use crate::scan::{
    note_test_result, with_result, ProfileModel, ScanModel, ScanState, ServerProfile,
};
use crate::scan_task::PROBE_TARGET_URL;
use crate::text::{decimal, decimal_text, signed_decimal, signed_decimal_text, unit_outcome};
use crate::uri::{parse_outcome, parse_vless_uri, vless_of, ParsedVless, VlessModel};
use crate::xray_log::{log_summary, summarize_xray_log};
use vstd::prelude::*;
use vstd::string::*;

verus! {

/// The local port of the configuration that a delay is measured with.
pub const ANDROID_PROBE_SOCKS_PORT: u16 = 20808;

/// The local port of the first probe.
pub const FIRST_PROBE_PORT: u16 = 16080;

/// How often a probe waits for its Xray process to come up.
pub const WARM_UP_ROUNDS: u8 = 18;

/// How long a probe waits each time for its Xray process to come up, in milliseconds.
pub const WARM_UP_MS: u64 = 100;

/// What came of an attempt to connect to a server.
pub enum TcpOutcome {
    /// The connection was made, after so many milliseconds.
    Connected(u128),
    /// The connection was refused.
    Failed(String),
    /// The connection was not made in time.
    TimedOut,
}

/// A number of milliseconds, or the message of an error.
pub open spec fn latency_outcome(result: Result<u128, String>) -> Result<u128, Seq<char>> {
    match result {
        Ok(latency) => Ok(latency),
        Err(error) => Err(error@),
    }
}

/// How long it took to connect to a server, or why it did not work.
pub fn tcp_connect_latency(outcome: TcpOutcome) -> (latency: Result<u128, String>)
    ensures
        latency_outcome(latency) == match outcome {
            TcpOutcome::Connected(latency) => Ok::<u128, Seq<char>>(latency),
            TcpOutcome::Failed(error) => Err("TCP connection failed: "@ + error@),
            TcpOutcome::TimedOut => Err("TCP connection timed out"@),
        },
{
    match outcome {
        TcpOutcome::Connected(latency) => Ok(latency),
        TcpOutcome::Failed(error) => {
            let mut message = "TCP connection failed: ".to_owned();
            message.append(error.as_str());
            Err(message)
        },
        TcpOutcome::TimedOut => Err("TCP connection timed out".to_owned()),
    }
}

/// A host and a port, as an address.
pub open spec fn address_of(host: Seq<char>, port: u16) -> Seq<char> {
    host + ":"@ + decimal(port as nat)
}

/// A host and a port, as an address.
pub fn address_text(host: &str, port: u16) -> (address: String)
    ensures
        address@ == address_of(host@, port),
{
    let mut address = host.to_owned();
    address.append(":");
    address.append(decimal_text(port as u128).as_str());
    address
}

/// How long a connection to a server may take, in milliseconds.
pub open spec fn connect_timeout_ms(platform: Platform) -> u64 {
    match platform {
        Platform::Android => 1500,
        Platform::Windows => 3000,
    }
}

/// Where a probe stands: what it waits for.
#[derive(Clone, Copy, Debug, PartialEq, Eq, Structural)]
pub enum ProbePhase {
    /// A connection to the server.
    Connecting,
    /// The delay that the VPN service measures.
    Measuring,
    /// The files of the Xray process.
    Preparing,
    /// The Xray process.
    Spawning,
    /// The end of the given round of waiting for the Xray process to come up.
    Warming(u8),
    /// Whether the Xray process still runs.
    Checking,
    /// The client for the request through the server.
    BuildingClient,
    /// The answer to the request through the server.
    Requesting,
    /// Nothing; the probe is over.
    Over,
}

/// The probe of one server.
pub struct ProbeTask {
    pub index: usize,
    pub platform: Platform,
    pub parsed: ParsedVless,
    /// How long it took to connect to the server, in milliseconds.
    pub tcp_latency: u128,
    pub phase: ProbePhase,
}

/// The probe of one server, as mathematical values.
pub struct ProbeModel {
    pub index: nat,
    pub platform: Platform,
    pub parsed: VlessModel,
    pub tcp_latency: u128,
    pub phase: ProbePhase,
}

impl View for ProbeTask {
    type V = ProbeModel;

    open spec fn view(&self) -> ProbeModel {
        ProbeModel {
            index: self.index as nat,
            platform: self.platform,
            parsed: self.parsed@,
            tcp_latency: self.tcp_latency,
            phase: self.phase,
        }
    }
}

/// How an Xray process came to its end.
pub struct ExitReport {
    /// The exit status, in words.
    pub status: String,
    /// What the process wrote to its log.
    pub log: String,
}

/// The answer to a request.
pub struct Answer {
    /// The status code.
    pub code: u16,
    /// The status, in words.
    pub status: String,
}

/// What a probe waited for.
pub enum ProbeEvent {
    /// The connection to the server was made, or was not.
    Connected(Result<u128, String>),
    /// The VPN service measured the delay, or could not.
    Measured(Result<i64, String>),
    /// The task that measures the delay broke down.
    MeasureBroken(String),
    /// The files of the Xray process are there, or could not be written.
    Prepared(Result<(), String>),
    /// The Xray process was started, or could not be.
    Spawned(Result<(), String>),
    /// A round of waiting is over.
    Waited,
    /// The Xray process has ended, or still runs.
    Checked(Option<ExitReport>),
    /// The client is there.
    ClientBuilt,
    /// The client could not be built, for want of a proxy.
    ProxyInvalid(String),
    /// The client could not be built.
    ClientInvalid(String),
    /// The request was answered, or was not, after so many milliseconds; the Xray process was
    /// killed, its files were removed, and this is what it had written to its log.
    Requested {
        answer: Result<Answer, String>,
        latency_ms: u128,
        log: String,
    },
}

/// What a probe waited for, as a mathematical value.
pub enum ProbeEventModel {
    Connected(Result<u128, Seq<char>>),
    Measured(Result<i64, Seq<char>>),
    MeasureBroken(Seq<char>),
    Prepared(Result<(), Seq<char>>),
    Spawned(Result<(), Seq<char>>),
    Waited,
    Checked(Option<(Seq<char>, Seq<char>)>),
    ClientBuilt,
    ProxyInvalid(Seq<char>),
    ClientInvalid(Seq<char>),
    Requested(Result<(u16, Seq<char>), Seq<char>>, u128, Seq<char>),
}

impl View for ProbeEvent {
    type V = ProbeEventModel;

    open spec fn view(&self) -> ProbeEventModel {
        match self {
            ProbeEvent::Connected(result) => ProbeEventModel::Connected(latency_outcome(*result)),
            ProbeEvent::Measured(Ok(delay)) => ProbeEventModel::Measured(Ok(*delay)),
            ProbeEvent::Measured(Err(error)) => ProbeEventModel::Measured(Err(error@)),
            ProbeEvent::MeasureBroken(error) => ProbeEventModel::MeasureBroken(error@),
            ProbeEvent::Prepared(result) => ProbeEventModel::Prepared(unit_outcome(*result)),
            ProbeEvent::Spawned(result) => ProbeEventModel::Spawned(unit_outcome(*result)),
            ProbeEvent::Waited => ProbeEventModel::Waited,
            ProbeEvent::Checked(Some(report)) => ProbeEventModel::Checked(
                Some((report.status@, report.log@)),
            ),
            ProbeEvent::Checked(None) => ProbeEventModel::Checked(None),
            ProbeEvent::ClientBuilt => ProbeEventModel::ClientBuilt,
            ProbeEvent::ProxyInvalid(error) => ProbeEventModel::ProxyInvalid(error@),
            ProbeEvent::ClientInvalid(error) => ProbeEventModel::ClientInvalid(error@),
            ProbeEvent::Requested { answer, latency_ms, log } => ProbeEventModel::Requested(
                match answer {
                    Ok(answer) => Ok((answer.code, answer.status@)),
                    Err(error) => Err(error@),
                },
                *latency_ms,
                log@,
            ),
        }
    }
}

/// What a probe asks for.
pub enum ProbeAction {
    /// Connect to the server.
    Connect {
        address: String,
        timeout_ms: u64,
    },
    /// Have the VPN service measure the delay.
    Measure {
        config: String,
        url: String,
    },
    /// Write the files of an Xray process.
    Prepare {
        tag: String,
        config: String,
    },
    /// Start the Xray process.
    Spawn,
    /// Wait for so many milliseconds.
    Sleep(u64),
    /// See whether the Xray process has ended.
    CheckExit,
    /// Build a client that goes through the given proxy.
    BuildClient {
        proxy_url: String,
    },
    /// Request the given address; then kill the Xray process and remove its files.
    Request {
        url: String,
    },
    /// End the probe.
    Finish {
        outcome: Result<Option<ServerProfile>, String>,
        /// Kill the Xray process.
        kill: bool,
        /// Remove the files of the Xray process.
        remove_files: bool,
    },
}

/// What a probe asks for, as a mathematical value.
pub enum ProbeActionModel {
    Connect(Seq<char>, u64),
    Measure(Seq<char>, Seq<char>),
    Prepare(Seq<char>, Seq<char>),
    Spawn,
    Sleep(u64),
    CheckExit,
    BuildClient(Seq<char>),
    Request(Seq<char>),
    Finish {
        outcome: Result<Option<ProfileModel>, Seq<char>>,
        kill: bool,
        remove_files: bool,
    },
}

/// The view of the outcome of a probe.
pub open spec fn probe_outcome(outcome: Result<Option<ServerProfile>, String>) -> Result<
    Option<ProfileModel>,
    Seq<char>,
> {
    match outcome {
        Ok(Some(profile)) => Ok(Some(profile@)),
        Ok(None) => Ok(None),
        Err(error) => Err(error@),
    }
}

impl View for ProbeAction {
    type V = ProbeActionModel;

    open spec fn view(&self) -> ProbeActionModel {
        match self {
            ProbeAction::Connect { address, timeout_ms } => ProbeActionModel::Connect(
                address@,
                *timeout_ms,
            ),
            ProbeAction::Measure { config, url } => ProbeActionModel::Measure(config@, url@),
            ProbeAction::Prepare { tag, config } => ProbeActionModel::Prepare(tag@, config@),
            ProbeAction::Spawn => ProbeActionModel::Spawn,
            ProbeAction::Sleep(ms) => ProbeActionModel::Sleep(*ms),
            ProbeAction::CheckExit => ProbeActionModel::CheckExit,
            ProbeAction::BuildClient { proxy_url } => ProbeActionModel::BuildClient(proxy_url@),
            ProbeAction::Request { url } => ProbeActionModel::Request(url@),
            ProbeAction::Finish { outcome, kill, remove_files } => ProbeActionModel::Finish {
                outcome: probe_outcome(*outcome),
                kill: *kill,
                remove_files: *remove_files,
            },
        }
    }
}

/// Tells whether there is a local port for the probe with the given number.
pub open spec fn has_probe_port(index: nat) -> bool {
    FIRST_PROBE_PORT + index % 65536 <= u16::MAX
}

/// The local port of the probe with the given number.
pub open spec fn probe_port_of(index: nat) -> u16 {
    (FIRST_PROBE_PORT + index % 65536) as u16
}

/// Tells whether there is a local port for the probe with the given number.
pub fn probe_port_exists(index: usize) -> (exists_port: bool)
    ensures
        exists_port == has_probe_port(index as nat),
{
    index % 65536 <= (u16::MAX - FIRST_PROBE_PORT) as usize
}

/// The local port of the probe with the given number.
pub fn probe_port(index: usize) -> (port: u16)
    requires
        has_probe_port(index as nat),
    ensures
        port == probe_port_of(index as nat),
{
    FIRST_PROBE_PORT + (index % 65536) as u16
}

/// The greater of two latencies.
pub open spec fn greater(a: u128, b: u128) -> u128 {
    if a >= b {
        a
    } else {
        b
    }
}

/// A server that was found to work.
pub open spec fn profile_of(parsed: VlessModel, latency_ms: u128) -> ProfileModel {
    ProfileModel {
        id: parsed.host + "-"@ + decimal(parsed.port as nat),
        uri: parsed.uri,
        label: parsed.label,
        host: parsed.host,
        port: parsed.port,
        latency_ms,
        network: parsed.network,
        security: parsed.security,
    }
}

/// What a line of the log begins with that tells the outcome of a probe.
pub open spec fn line_start(task: ProbeModel) -> Seq<char> {
    "#"@ + decimal(task.index) + " "@ + task.parsed.host + ":"@ + decimal(task.parsed.port as nat)
}

/// The line of the log for a URI that describes no server.
pub open spec fn invalid_line(index: nat, error: Seq<char>) -> Seq<char> {
    "#"@ + decimal(index) + " skipped: invalid URI ("@ + error + ")"@
}

/// The line of the log for a server that works.
pub open spec fn working_line(task: ProbeModel, latency_ms: u128) -> Seq<char> {
    line_start(task) + " OK "@ + decimal(latency_ms as nat) + " ms ["@ + task.parsed.network
        + " / "@ + task.parsed.security + "]"@
}

/// A step of a probe: how it stands afterwards, what the state of the scan is, and what the
/// probe asks for.
pub struct ProbeStep {
    pub task: ProbeModel,
    pub state: ScanModel,
    pub action: ProbeActionModel,
}

/// The step that leads to the given phase.
pub open spec fn go_on(
    task: ProbeModel,
    state: ScanModel,
    phase: ProbePhase,
    action: ProbeActionModel,
) -> ProbeStep {
    ProbeStep { task: ProbeModel { phase, ..task }, state, action }
}

/// The step that ends a probe which says nothing about the server.
pub open spec fn give_up(
    task: ProbeModel,
    state: ScanModel,
    outcome: Result<Option<ProfileModel>, Seq<char>>,
    cleanup: bool,
) -> ProbeStep {
    go_on(
        task,
        state,
        ProbePhase::Over,
        ProbeActionModel::Finish { outcome, kill: cleanup, remove_files: cleanup },
    )
}

/// The step that ends the probe of a server that does not work.
pub open spec fn reject(
    task: ProbeModel,
    state: ScanModel,
    reason: Seq<char>,
    remove_files: bool,
) -> ProbeStep {
    go_on(
        task,
        with_result(state, line_start(task) + reason, false),
        ProbePhase::Over,
        ProbeActionModel::Finish { outcome: Ok(None), kill: false, remove_files },
    )
}

/// The step that ends the probe of a server that works.
pub open spec fn accept(task: ProbeModel, state: ScanModel, latency_ms: u128) -> ProbeStep {
    go_on(
        task,
        with_result(state, working_line(task, latency_ms), true),
        ProbePhase::Over,
        ProbeActionModel::Finish {
            outcome: Ok(Some(profile_of(task.parsed, latency_ms))),
            kill: false,
            remove_files: false,
        },
    )
}

/// The local port of the configuration that a server is probed with.
pub open spec fn config_port(task: ProbeModel) -> u16 {
    match task.platform {
        Platform::Android => ANDROID_PROBE_SOCKS_PORT,
        Platform::Windows => probe_port_of(task.index),
    }
}

/// The step that follows the making of the configuration.
pub open spec fn configured_step(
    task: ProbeModel,
    state: ScanModel,
    config: Result<Seq<char>, Seq<char>>,
) -> ProbeStep {
    match config {
        Err(error) => give_up(task, state, Err(error), false),
        Ok(config) => match task.platform {
            Platform::Android => go_on(
                task,
                state,
                ProbePhase::Measuring,
                ProbeActionModel::Measure(config, PROBE_TARGET_URL@),
            ),
            Platform::Windows => go_on(
                task,
                state,
                ProbePhase::Preparing,
                ProbeActionModel::Prepare("probe-"@ + decimal(task.index), config),
            ),
        },
    }
}

/// The step that follows a connection to the server.
pub open spec fn connected_step(
    task: ProbeModel,
    state: ScanModel,
    result: Result<u128, Seq<char>>,
) -> ProbeStep {
    match result {
        Err(error) => reject(task, state, " skipped: TCP failed ("@ + error + ")"@, false),
        Ok(latency) => {
            configured_step(
                ProbeModel { tcp_latency: latency, ..task },
                state,
                config_text(task.parsed, config_port(task), false, ACTIVE_TUN_INTERFACE@),
            )
        },
    }
}

/// The step that follows the measurement of the delay.
pub open spec fn measured_step(
    task: ProbeModel,
    state: ScanModel,
    result: Result<i64, Seq<char>>,
    cancelled: bool,
) -> ProbeStep {
    match result {
        Err(error) => give_up(task, state, Err(error), false),
        Ok(delay) => if cancelled {
            give_up(task, state, Ok(None), false)
        } else if delay < 0 {
            reject(
                task,
                state,
                " failed: Android delay probe returned "@ + signed_decimal(delay as int),
                false,
            )
        } else {
            accept(task, state, greater(delay as u128, task.tcp_latency))
        },
    }
}

/// The step that follows so many rounds of waiting for the Xray process to come up.
pub open spec fn warm_step(
    task: ProbeModel,
    state: ScanModel,
    rounds: u8,
    cancelled: bool,
) -> ProbeStep {
    if rounds >= WARM_UP_ROUNDS {
        go_on(task, state, ProbePhase::Checking, ProbeActionModel::CheckExit)
    } else if cancelled {
        give_up(task, state, Ok(None), true)
    } else {
        go_on(
            task,
            state,
            ProbePhase::Warming((rounds + 1) as u8),
            ProbeActionModel::Sleep(WARM_UP_MS),
        )
    }
}

/// The step that follows the look at the Xray process.
pub open spec fn checked_step(
    task: ProbeModel,
    state: ScanModel,
    report: Option<(Seq<char>, Seq<char>)>,
) -> ProbeStep {
    match report {
        Some((status, log)) => reject(
            task,
            state,
            " failed: Xray exited with "@ + status + " ("@ + log_summary(log) + ")"@,
            true,
        ),
        None => go_on(
            task,
            state,
            ProbePhase::BuildingClient,
            ProbeActionModel::BuildClient(
                "socks5h://127.0.0.1:"@ + decimal(probe_port_of(task.index) as nat),
            ),
        ),
    }
}

/// Tells whether a status code means success or redirection.
pub open spec fn is_good_status(code: u16) -> bool {
    200 <= code < 400
}

/// The step that follows the request through the server.
pub open spec fn requested_step(
    task: ProbeModel,
    state: ScanModel,
    answer: Result<(u16, Seq<char>), Seq<char>>,
    latency_ms: u128,
    log: Seq<char>,
) -> ProbeStep {
    match answer {
        Err(error) => reject(
            task,
            state,
            " failed: Instagram probe error ("@ + error + ")"@,
            false,
        ),
        Ok((code, status)) => if is_good_status(code) {
            accept(task, state, greater(latency_ms, task.tcp_latency))
        } else {
            reject(
                task,
                state,
                " failed: Instagram returned "@ + status + " ("@ + log_summary(log) + ")"@,
                false,
            )
        },
    }
}

/// The step of a probe that follows what it waited for. `cancelled` tells whether the scan is
/// cancelled by then.
pub open spec fn probe_step(
    task: ProbeModel,
    state: ScanModel,
    event: ProbeEventModel,
    cancelled: bool,
) -> ProbeStep {
    match event {
        ProbeEventModel::Connected(result) => connected_step(task, state, result),
        ProbeEventModel::Measured(result) => measured_step(task, state, result, cancelled),
        ProbeEventModel::MeasureBroken(error) => give_up(
            task,
            state,
            Err("Android delay probe task failed: "@ + error),
            false,
        ),
        ProbeEventModel::Prepared(Err(error)) => give_up(task, state, Err(error), false),
        ProbeEventModel::Prepared(Ok(_)) => go_on(
            task,
            state,
            ProbePhase::Spawning,
            ProbeActionModel::Spawn,
        ),
        ProbeEventModel::Spawned(Err(error)) => give_up(task, state, Err(error), false),
        ProbeEventModel::Spawned(Ok(_)) => warm_step(task, state, 0, cancelled),
        ProbeEventModel::Waited => warm_step(task, state, task.phase->Warming_0, cancelled),
        ProbeEventModel::Checked(report) => checked_step(task, state, report),
        ProbeEventModel::ClientBuilt => go_on(
            task,
            state,
            ProbePhase::Requesting,
            ProbeActionModel::Request(PROBE_TARGET_URL@),
        ),
        ProbeEventModel::ProxyInvalid(error) => give_up(
            task,
            state,
            Err("Invalid proxy: "@ + error),
            false,
        ),
        ProbeEventModel::ClientInvalid(error) => give_up(
            task,
            state,
            Err("Failed to build probe client: "@ + error),
            false,
        ),
        ProbeEventModel::Requested(answer, latency_ms, log) => requested_step(
            task,
            state,
            answer,
            latency_ms,
            log,
        ),
    }
}

/// Tells whether a probe waits for the event.
pub open spec fn awaits(phase: ProbePhase, event: ProbeEventModel) -> bool {
    match event {
        ProbeEventModel::Connected(_) => phase == ProbePhase::Connecting,
        ProbeEventModel::Measured(_) => phase == ProbePhase::Measuring,
        ProbeEventModel::MeasureBroken(_) => phase == ProbePhase::Measuring,
        ProbeEventModel::Prepared(_) => phase == ProbePhase::Preparing,
        ProbeEventModel::Spawned(_) => phase == ProbePhase::Spawning,
        ProbeEventModel::Waited => phase is Warming,
        ProbeEventModel::Checked(_) => phase == ProbePhase::Checking,
        ProbeEventModel::ClientBuilt => phase == ProbePhase::BuildingClient,
        ProbeEventModel::ProxyInvalid(_) => phase == ProbePhase::BuildingClient,
        ProbeEventModel::ClientInvalid(_) => phase == ProbePhase::BuildingClient,
        ProbeEventModel::Requested(_, _, _) => phase == ProbePhase::Requesting,
    }
}

impl ProbeModel {
    /// What holds of a probe at any time: the delay is measured on Android; an Xray process is
    /// run on Windows, with a local port, and is waited for so often at most.
    pub open spec fn well_formed(self) -> bool {
        match self.phase {
            ProbePhase::Connecting => true,
            ProbePhase::Measuring => self.platform == Platform::Android,
            ProbePhase::Warming(rounds) => self.platform == Platform::Windows && has_probe_port(
                self.index,
            ) && rounds <= WARM_UP_ROUNDS,
            ProbePhase::Over => true,
            _ => self.platform == Platform::Windows && has_probe_port(self.index),
        }
    }
}

/// The beginning of the probe with the given number, for what its URI was found to say.
pub open spec fn probe_begin(
    parsed: Result<VlessModel, Seq<char>>,
    index: nat,
    platform: Platform,
    state: ScanModel,
) -> (Option<ProbeModel>, ScanModel, ProbeActionModel) {
    match parsed {
        Err(error) => (
            None,
            with_result(state, invalid_line(index, error), false),
            ProbeActionModel::Finish { outcome: Ok(None), kill: false, remove_files: false },
        ),
        Ok(parsed) => (
            Some(
                ProbeModel {
                    index,
                    platform,
                    parsed,
                    tcp_latency: 0,
                    phase: ProbePhase::Connecting,
                },
            ),
            state,
            ProbeActionModel::Connect(
                address_of(parsed.host, parsed.port),
                connect_timeout_ms(platform),
            ),
        ),
    }
}

/// Begins the probe of a server, for what its URI was found to say. There is no task where
/// the URI describes no server: then the probe is over at once.
pub fn begin_probe(
    parsed: Result<ParsedVless, String>,
    index: usize,
    platform: Platform,
    state: &mut ScanState,
) -> (begun: (Option<ProbeTask>, ProbeAction))
    requires
        old(state).scanned_count < usize::MAX,
    ensures
        probe_begin(parse_outcome(parsed), index as nat, platform, old(state)@) == (
            match begun.0 {
                Some(task) => Some(task@),
                None => None,
            },
            final(state)@,
            begun.1@,
        ),
        begun.0 matches Some(task) ==> task@.well_formed(),
{
    match parsed {
        Err(error) => {
            let mut line = "#".to_owned();
            line.append(decimal_text(index as u128).as_str());
            line.append(" skipped: invalid URI (");
            line.append(error.as_str());
            line.append(")");
            note_test_result(state, line, false);
            (None, ProbeAction::Finish { outcome: Ok(None), kill: false, remove_files: false })
        },
        Ok(parsed) => {
            let address = address_text(parsed.host.as_str(), parsed.port);
            let timeout_ms: u64 = match platform {
                Platform::Android => 1500,
                Platform::Windows => 3000,
            };
            let task = ProbeTask {
                index,
                platform,
                parsed,
                tcp_latency: 0,
                phase: ProbePhase::Connecting,
            };
            (Some(task), ProbeAction::Connect { address, timeout_ms })
        },
    }
}

/// Begins the probe of a server. There is no task where the URI describes no server: then
/// the probe is over at once.
pub fn test_profile(uri: &str, index: usize, platform: Platform, state: &mut ScanState) -> (begun: (
    Option<ProbeTask>,
    ProbeAction,
))
    requires
        old(state).scanned_count < usize::MAX,
    ensures
        probe_begin(vless_of(uri@), index as nat, platform, old(state)@) == (
            match begun.0 {
                Some(task) => Some(task@),
                None => None,
            },
            final(state)@,
            begun.1@,
        ),
        begun.0 matches Some(task) ==> task@.well_formed(),
{
    begin_probe(parse_vless_uri(uri), index, platform, state)
}

impl ProbeTask {
    /// What a line of the log begins with that tells the outcome of the probe.
    fn start_line(&self) -> (line: String)
        ensures
            line@ == line_start(self@),
    {
        let mut line = "#".to_owned();
        line.append(decimal_text(self.index as u128).as_str());
        line.append(" ");
        line.append(self.parsed.host.as_str());
        line.append(":");
        line.append(decimal_text(self.parsed.port as u128).as_str());
        line
    }

    /// Ends a probe which says nothing about the server.
    fn give_up(
        &mut self,
        outcome: Result<Option<ServerProfile>, String>,
        cleanup: bool,
    ) -> (action: ProbeAction)
        ensures
            forall|state: ScanModel| #[trigger]
                give_up(old(self)@, state, probe_outcome(outcome), cleanup) == (ProbeStep {
                    task: final(self)@,
                    state,
                    action: action@,
                }),
    {
        self.phase = ProbePhase::Over;
        ProbeAction::Finish { outcome, kill: cleanup, remove_files: cleanup }
    }

    /// Ends the probe of a server that does not work.
    fn reject(&mut self, state: &mut ScanState, reason: &str, remove_files: bool) -> (action:
        ProbeAction)
        requires
            old(state).scanned_count < usize::MAX,
        ensures
            (ProbeStep { task: final(self)@, state: final(state)@, action: action@ }) == reject(
                old(self)@,
                old(state)@,
                reason@,
                remove_files,
            ),
    {
        let mut line = self.start_line();
        line.append(reason);
        note_test_result(state, line, false);
        self.phase = ProbePhase::Over;
        ProbeAction::Finish { outcome: Ok(None), kill: false, remove_files }
    }

    /// Ends the probe of a server that works.
    fn accept(&mut self, state: &mut ScanState, latency_ms: u128) -> (action: ProbeAction)
        requires
            old(state).scanned_count < usize::MAX,
            old(state).working_count < usize::MAX,
        ensures
            (ProbeStep { task: final(self)@, state: final(state)@, action: action@ }) == accept(
                old(self)@,
                old(state)@,
                latency_ms,
            ),
    {
        let mut line = self.start_line();
        line.append(" OK ");
        line.append(decimal_text(latency_ms).as_str());
        line.append(" ms [");
        line.append(self.parsed.network.as_str());
        line.append(" / ");
        line.append(self.parsed.security.as_str());
        line.append("]");
        note_test_result(state, line, true);
        let mut id = self.parsed.host.clone();
        id.append("-");
        id.append(decimal_text(self.parsed.port as u128).as_str());
        let profile = ServerProfile {
            id,
            uri: self.parsed.uri.clone(),
            label: self.parsed.label.clone(),
            host: self.parsed.host.clone(),
            port: self.parsed.port,
            latency_ms,
            network: self.parsed.network.clone(),
            security: self.parsed.security.clone(),
        };
        self.phase = ProbePhase::Over;
        ProbeAction::Finish { outcome: Ok(Some(profile)), kill: false, remove_files: false }
    }

    /// Goes on from a connection to the server.
    fn after_connect(&mut self, state: &mut ScanState, result: Result<u128, String>) -> (action:
        ProbeAction)
        requires
            old(state).scanned_count < usize::MAX,
            result is Ok && old(self)@.platform == Platform::Windows ==> has_probe_port(
                old(self)@.index,
            ),
        ensures
            (ProbeStep { task: final(self)@, state: final(state)@, action: action@ })
                == connected_step(old(self)@, old(state)@, latency_outcome(result)),
            result is Ok ==> !(action is Finish),
    {
        let latency = match result {
            Ok(latency) => latency,
            Err(error) => {
                let mut reason = " skipped: TCP failed (".to_owned();
                reason.append(error.as_str());
                reason.append(")");
                return self.reject(state, reason.as_str(), false);
            },
        };
        self.tcp_latency = latency;
        let port: u16 = match self.platform {
            Platform::Android => ANDROID_PROBE_SOCKS_PORT,
            Platform::Windows => probe_port(self.index),
        };
        let config = build_xray_config(&self.parsed, port, false, ACTIVE_TUN_INTERFACE);
        self.after_config(config)
    }

    /// Goes on from the making of the configuration.
    pub fn after_config(&mut self, config: Result<String, String>) -> (action: ProbeAction)
        ensures
            forall|state: ScanModel| #[trigger]
                configured_step(old(self)@, state, text_outcome(config)) == (ProbeStep {
                    task: final(self)@,
                    state,
                    action: action@,
                }),
            config is Ok ==> !(action is Finish),
    {
        match config {
            Err(error) => self.give_up(Err(error), false),
            Ok(config) => match self.platform {
                Platform::Android => {
                    self.phase = ProbePhase::Measuring;
                    ProbeAction::Measure { config, url: PROBE_TARGET_URL.to_owned() }
                },
                Platform::Windows => {
                    self.phase = ProbePhase::Preparing;
                    let mut tag = "probe-".to_owned();
                    tag.append(decimal_text(self.index as u128).as_str());
                    ProbeAction::Prepare { tag, config }
                },
            },
        }
    }

    /// Goes on from the measurement of the delay.
    fn after_measure(&mut self, state: &mut ScanState, delay: i64, cancelled: bool) -> (action:
        ProbeAction)
        requires
            old(state).scanned_count < usize::MAX,
            old(state).working_count < usize::MAX,
        ensures
            (ProbeStep { task: final(self)@, state: final(state)@, action: action@ })
                == measured_step(old(self)@, old(state)@, Ok(delay), cancelled),
    {
        if cancelled {
            return self.give_up(Ok(None), false);
        }
        if delay < 0 {
            let mut reason = " failed: Android delay probe returned ".to_owned();
            reason.append(signed_decimal_text(delay).as_str());
            return self.reject(state, reason.as_str(), false);
        }
        let delay = delay as u128;
        let latency = if delay >= self.tcp_latency {
            delay
        } else {
            self.tcp_latency
        };
        self.accept(state, latency)
    }

    /// Goes on from so many rounds of waiting for the Xray process to come up.
    fn after_rounds(&mut self, rounds: u8, cancelled: bool) -> (action: ProbeAction)
        requires
            rounds <= WARM_UP_ROUNDS,
        ensures
            forall|state: ScanModel| #[trigger]
                warm_step(old(self)@, state, rounds, cancelled) == (ProbeStep {
                    task: final(self)@,
                    state,
                    action: action@,
                }),
    {
        if rounds >= WARM_UP_ROUNDS {
            self.phase = ProbePhase::Checking;
            ProbeAction::CheckExit
        } else if cancelled {
            self.phase = ProbePhase::Over;
            ProbeAction::Finish { outcome: Ok(None), kill: true, remove_files: true }
        } else {
            self.phase = ProbePhase::Warming(rounds + 1);
            ProbeAction::Sleep(WARM_UP_MS)
        }
    }

    /// Goes on from the look at the Xray process.
    fn after_check(&mut self, state: &mut ScanState, report: Option<ExitReport>) -> (action:
        ProbeAction)
        requires
            old(state).scanned_count < usize::MAX,
            has_probe_port(old(self)@.index),
        ensures
            (ProbeStep { task: final(self)@, state: final(state)@, action: action@ })
                == checked_step(
                old(self)@,
                old(state)@,
                match report {
                    Some(report) => Some((report.status@, report.log@)),
                    None => None,
                },
            ),
    {
        match report {
            Some(report) => {
                let mut reason = " failed: Xray exited with ".to_owned();
                reason.append(report.status.as_str());
                reason.append(" (");
                reason.append(summarize_xray_log(report.log.as_str()).as_str());
                reason.append(")");
                self.reject(state, reason.as_str(), true)
            },
            None => {
                let mut proxy_url = "socks5h://127.0.0.1:".to_owned();
                proxy_url.append(decimal_text(probe_port(self.index) as u128).as_str());
                self.phase = ProbePhase::BuildingClient;
                ProbeAction::BuildClient { proxy_url }
            },
        }
    }

    /// Goes on from the request through the server.
    fn after_request(
        &mut self,
        state: &mut ScanState,
        answer: Result<Answer, String>,
        latency_ms: u128,
        log: String,
    ) -> (action: ProbeAction)
        requires
            old(state).scanned_count < usize::MAX,
            old(state).working_count < usize::MAX,
        ensures
            (ProbeStep { task: final(self)@, state: final(state)@, action: action@ })
                == requested_step(
                old(self)@,
                old(state)@,
                match answer {
                    Ok(answer) => Ok((answer.code, answer.status@)),
                    Err(error) => Err(error@),
                },
                latency_ms,
                log@,
            ),
    {
        match answer {
            Err(error) => {
                let mut reason = " failed: Instagram probe error (".to_owned();
                reason.append(error.as_str());
                reason.append(")");
                self.reject(state, reason.as_str(), false)
            },
            Ok(answer) => {
                if 200 <= answer.code && answer.code < 400 {
                    let latency = if latency_ms >= self.tcp_latency {
                        latency_ms
                    } else {
                        self.tcp_latency
                    };
                    self.accept(state, latency)
                } else {
                    let mut reason = " failed: Instagram returned ".to_owned();
                    reason.append(answer.status.as_str());
                    reason.append(" (");
                    reason.append(summarize_xray_log(log.as_str()).as_str());
                    reason.append(")");
                    self.reject(state, reason.as_str(), false)
                }
            },
        }
    }

    /// Takes the step of the probe that follows what it waited for. `cancelled` tells whether
    /// the scan is cancelled by then.
    pub fn step(&mut self, state: &mut ScanState, event: ProbeEvent, cancelled: bool) -> (action:
        ProbeAction)
        requires
            old(self)@.well_formed(),
            awaits(old(self)@.phase, event@),
            old(state).scanned_count < usize::MAX,
            old(state).working_count < usize::MAX,
            event@ matches ProbeEventModel::Connected(Ok(_)) && old(self)@.platform
                == Platform::Windows ==> has_probe_port(old(self)@.index),
        ensures
            (ProbeStep { task: final(self)@, state: final(state)@, action: action@ })
                == probe_step(old(self)@, old(state)@, event@, cancelled),
            final(self)@.well_formed(),
            (final(self)@.phase == ProbePhase::Over) == (action is Finish),
            event@ matches ProbeEventModel::Connected(Ok(_)) ==> !(action is Finish),
    {
        match event {
            ProbeEvent::Connected(result) => self.after_connect(state, result),
            ProbeEvent::Measured(Ok(delay)) => self.after_measure(state, delay, cancelled),
            ProbeEvent::Measured(Err(error)) => self.give_up(Err(error), false),
            ProbeEvent::MeasureBroken(error) => {
                let mut message = "Android delay probe task failed: ".to_owned();
                message.append(error.as_str());
                self.give_up(Err(message), false)
            },
            ProbeEvent::Prepared(Err(error)) => self.give_up(Err(error), false),
            ProbeEvent::Prepared(Ok(_)) => {
                self.phase = ProbePhase::Spawning;
                ProbeAction::Spawn
            },
            ProbeEvent::Spawned(Err(error)) => self.give_up(Err(error), false),
            ProbeEvent::Spawned(Ok(_)) => self.after_rounds(0, cancelled),
            ProbeEvent::Waited => {
                let rounds: u8 = match self.phase {
                    ProbePhase::Warming(rounds) => rounds,
                    _ => WARM_UP_ROUNDS,
                };
                self.after_rounds(rounds, cancelled)
            },
            ProbeEvent::Checked(report) => self.after_check(state, report),
            ProbeEvent::ClientBuilt => {
                self.phase = ProbePhase::Requesting;
                ProbeAction::Request { url: PROBE_TARGET_URL.to_owned() }
            },
            ProbeEvent::ProxyInvalid(error) => {
                let mut message = "Invalid proxy: ".to_owned();
                message.append(error.as_str());
                self.give_up(Err(message), false)
            },
            ProbeEvent::ClientInvalid(error) => {
                let mut message = "Failed to build probe client: ".to_owned();
                message.append(error.as_str());
                self.give_up(Err(message), false)
            },
            ProbeEvent::Requested { answer, latency_ms, log } => self.after_request(
                state,
                answer,
                latency_ms,
                log,
            ),
        }
    }
}

} // verus!
