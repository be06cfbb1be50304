//! What holds of the probe of a server.

use crate::config::{stream_tree, ACTIVE_TUN_INTERFACE};
use crate::json::{pretty_text, JsonTree};
use crate::laws::config::{law_config_leads_to_server, leads_to, offers_port, outbound_stream};
use crate::laws::text::law_decimal_stands_for_number;
use crate::platform::Platform;
use crate::probe::{
    awaits, has_probe_port, probe_begin, probe_port_of, probe_step, profile_of, ProbeActionModel,
    ProbeEventModel, ProbeModel, ProbePhase, ProbeStep, WARM_UP_ROUNDS,
};
use crate::scan::{with_line, with_result, ProfileModel, ScanModel};
use crate::text::{decimal, signed_decimal};
use crate::uri::VlessModel;
use crate::xray_log::log_summary;
use vstd::prelude::*;

verus! {

/// Tells whether the probe can go on from the event.
pub open spec fn probe_can_step(task: ProbeModel, event: ProbeEventModel) -> bool {
    &&& task.well_formed()
    &&& awaits(task.phase, event)
    &&& (event matches ProbeEventModel::Connected(Ok(_)) && task.platform == Platform::Windows
        ==> has_probe_port(task.index))
}

/// How many steps a probe takes at most from a phase on.
pub open spec fn steps_left(phase: ProbePhase) -> int {
    match phase {
        ProbePhase::Connecting => WARM_UP_ROUNDS + 6,
        ProbePhase::Measuring => 1,
        ProbePhase::Preparing => WARM_UP_ROUNDS + 5,
        ProbePhase::Spawning => WARM_UP_ROUNDS + 4,
        ProbePhase::Warming(rounds) => WARM_UP_ROUNDS + 4 - rounds,
        ProbePhase::Checking => 3,
        ProbePhase::BuildingClient => 2,
        ProbePhase::Requesting => 1,
        ProbePhase::Over => 0,
    }
}

/// A probe comes to its end: each step leaves fewer steps to take.
pub proof fn law_probe_comes_to_its_end(
    task: ProbeModel,
    state: ScanModel,
    event: ProbeEventModel,
    cancelled: bool,
)
    requires
        probe_can_step(task, event),
    ensures
        0 <= steps_left(probe_step(task, state, event, cancelled).task.phase) < steps_left(
            task.phase,
        ),
        steps_left(task.phase) <= WARM_UP_ROUNDS + 6,
{
}

/// Nothing is counted and nothing is logged before a probe ends. A server that works is counted
/// once as probed and once as working; one that does not work is counted once as probed; a
/// probe that was cancelled or could not be made is not counted at all.
pub proof fn law_probe_counts_once(
    task: ProbeModel,
    state: ScanModel,
    event: ProbeEventModel,
    cancelled: bool,
)
    requires
        probe_can_step(task, event),
    ensures
        ({
            let step = probe_step(task, state, event, cancelled);
            match step.action {
                ProbeActionModel::Finish { outcome, .. } => match outcome {
                    Ok(Some(_)) => exists|line: Seq<char>|
                        step.state == #[trigger] with_result(state, line, true),
                    Ok(None) => step.state == state && cancelled || exists|line: Seq<char>|
                        step.state == #[trigger] with_result(state, line, false),
                    Err(_) => step.state == state,
                },
                _ => step.state == state,
            }
        }),
{
}

/// A server that is found to work is the one that was probed, and its latency is at least the
/// time that it took to connect.
pub proof fn law_found_server_is_the_probed_one(
    task: ProbeModel,
    state: ScanModel,
    event: ProbeEventModel,
    cancelled: bool,
)
    requires
        probe_can_step(task, event),
    ensures
        probe_step(task, state, event, cancelled).action matches ProbeActionModel::Finish {
            outcome: Ok(Some(profile)),
            ..
        } ==> {
            &&& profile == profile_of(task.parsed, profile.latency_ms)
            &&& profile.latency_ms >= task.tcp_latency
        },
{
}

/// A probe does not change which server it is for.
pub proof fn law_probe_keeps_its_server(
    task: ProbeModel,
    state: ScanModel,
    event: ProbeEventModel,
    cancelled: bool,
)
    ensures
        probe_step(task, state, event, cancelled).task.parsed == task.parsed,
        probe_step(task, state, event, cancelled).task.index == task.index,
        probe_step(task, state, event, cancelled).task.platform == task.platform,
{
}

/// The files of two probes are called after different names.
pub proof fn law_probe_tags_differ(a: nat, b: nat)
    requires
        a != b,
    ensures
        "probe-"@ + decimal(a) != "probe-"@ + decimal(b),
{
    law_decimal_stands_for_number(a);
    law_decimal_stands_for_number(b);
    let start = "probe-"@;
    if start + decimal(a) == start + decimal(b) {
        assert((start + decimal(a)).skip(start.len() as int) =~= decimal(a));
        assert((start + decimal(b)).skip(start.len() as int) =~= decimal(b));
    }
}

/// Two probes do not use the same local port, as long as they are not so far apart that the
/// ports have to be used again.
pub proof fn law_probe_ports_differ(a: nat, b: nat)
    requires
        has_probe_port(a),
        has_probe_port(b),
        a < b < a + 65536,
    ensures
        probe_port_of(a) != probe_port_of(b),
{
    assert(a % 65536 != b % 65536) by (nonlinear_arith)
        requires
            a < b < a + 65536,
    ;
}

/// Tells whether one more probe was counted, as working or not, with the given line in the log,
/// and nothing else of the state has changed.
pub open spec fn counted(
    before: ScanModel,
    after: ScanModel,
    line: Seq<char>,
    works: bool,
) -> bool {
    &&& after.scanned_count == before.scanned_count + 1
    &&& works ==> after.working_count == before.working_count + 1
    &&& !works ==> after.working_count == before.working_count
    &&& after.lines.len() > 0
    &&& after.lines.last() == line
    &&& after.lines.len() <= before.lines.len() + 1
    &&& after.profiles == before.profiles
    &&& after.total_count == before.total_count
    &&& after.source_count == before.source_count
    &&& after.is_scanning == before.is_scanning
    &&& after.is_paused == before.is_paused
    &&& after.error == before.error
}

/// Counting a probe adds one to the servers that were probed, one to those that work if it
/// works, and one line to the log, as logging does.
pub proof fn law_result_is_counted(state: ScanModel, line: Seq<char>, works: bool)
    ensures
        counted(state, with_result(state, line, works), line, works),
        with_result(state, line, works).lines == with_line(state, line).lines,
{
}

/// What the line for a server begins with: its number and its address.
pub open spec fn named(task: ProbeModel) -> Seq<char> {
    "#"@ + decimal(task.index) + " "@ + task.parsed.host + ":"@ + decimal(task.parsed.port as nat)
}

/// The line for a server that works: its name, its latency, its transport and its security.
pub open spec fn praised(task: ProbeModel, latency_ms: u128) -> Seq<char> {
    named(task) + " OK "@ + decimal(latency_ms as nat) + " ms ["@ + task.parsed.network + " / "@
        + task.parsed.security + "]"@
}

/// Tells whether the step ends the probe with the finding that the server does not work.
pub open spec fn finds_nothing(state: ScanModel, step: ProbeStep, line: Seq<char>) -> bool {
    &&& step.task.phase == ProbePhase::Over
    &&& step.action matches ProbeActionModel::Finish { outcome: Ok(None), .. }
    &&& counted(state, step.state, line, false)
}

/// Tells whether the step ends the probe with the finding that the server works, with the given
/// latency.
pub open spec fn finds_server(
    task: ProbeModel,
    state: ScanModel,
    step: ProbeStep,
    latency_ms: u128,
) -> bool {
    &&& step.task.phase == ProbePhase::Over
    &&& counted(state, step.state, praised(task, latency_ms), true)
    &&& step.action is Finish
    &&& step.action->outcome is Ok
    &&& step.action->outcome->Ok_0 is Some
    &&& {
        let profile = step.action->outcome->Ok_0->Some_0;
        &&& profile.uri == task.parsed.uri
        &&& profile.label == task.parsed.label
        &&& profile.host == task.parsed.host
        &&& profile.port == task.parsed.port
        &&& profile.network == task.parsed.network
        &&& profile.security == task.parsed.security
        &&& profile.id == task.parsed.host + "-"@ + decimal(task.parsed.port as nat)
        &&& profile.latency_ms == latency_ms
    }
}

/// Tells whether the step ends the probe without a finding, with the given outcome.
pub open spec fn ends_unfound(
    state: ScanModel,
    step: ProbeStep,
    outcome: Result<Option<ProfileModel>, Seq<char>>,
    cleanup: bool,
) -> bool {
    &&& step.task.phase == ProbePhase::Over
    &&& step.state == state
    &&& step.action is Finish
    &&& step.action->outcome == outcome
    &&& step.action->kill == cleanup
    &&& step.action->remove_files == cleanup
}

/// Tells whether a latency is the greater of two.
pub open spec fn is_greater_of(latency_ms: u128, a: int, b: int) -> bool {
    &&& latency_ms >= a
    &&& latency_ms >= b
    &&& latency_ms == a || latency_ms == b
}

/// After a request through the server, the server works exactly if it was answered with a status
/// from 200 to 399; its latency is that of the request or of the connection, whichever is
/// greater. Any other answer, and none, is a finding that it does not work.
pub proof fn law_answer_decides(
    task: ProbeModel,
    state: ScanModel,
    answer: Result<(u16, Seq<char>), Seq<char>>,
    latency_ms: u128,
    log: Seq<char>,
    cancelled: bool,
)
    ensures
        ({
            let event = ProbeEventModel::Requested(answer, latency_ms, log);
            let step = probe_step(task, state, event, cancelled);
            match answer {
                Ok((code, status)) => {
                    &&& 200 <= code <= 399 ==> exists|latency: u128|
                        #[trigger]
                        is_greater_of(latency, latency_ms as int, task.tcp_latency as int)
                            && finds_server(task, state, step, latency)
                    &&& code < 200 || code > 399 ==> finds_nothing(
                        state,
                        step,
                        named(task) + (" failed: Instagram returned "@ + status + " ("@
                            + log_summary(log) + ")"@),
                    )
                },
                Err(error) => finds_nothing(
                    state,
                    step,
                    named(task) + (" failed: Instagram probe error ("@ + error + ")"@),
                ),
            }
        }),
{
    let latency = if latency_ms >= task.tcp_latency {
        latency_ms
    } else {
        task.tcp_latency
    };
    assert(is_greater_of(latency, latency_ms as int, task.tcp_latency as int));
}

/// After the delay was measured, the server works exactly if the delay is not negative, unless
/// the scan was cancelled; its latency is the delay or that of the connection, whichever is
/// greater. A delay that could not be measured is an error.
pub proof fn law_delay_decides(
    task: ProbeModel,
    state: ScanModel,
    result: Result<i64, Seq<char>>,
    cancelled: bool,
)
    ensures
        ({
            let step = probe_step(task, state, ProbeEventModel::Measured(result), cancelled);
            match result {
                Ok(delay) => {
                    &&& cancelled ==> ends_unfound(state, step, Ok(None), false)
                    &&& !cancelled && delay >= 0 ==> exists|latency: u128|
                        #[trigger]
                        is_greater_of(latency, delay as int, task.tcp_latency as int)
                            && finds_server(task, state, step, latency)
                    &&& !cancelled && delay < 0 ==> finds_nothing(
                        state,
                        step,
                        named(task) + (" failed: Android delay probe returned "@ + signed_decimal(
                            delay as int,
                        )),
                    )
                },
                Err(error) => ends_unfound(state, step, Err(error), false),
            }
        }),
{
    if let Ok(delay) = result {
        if delay >= 0 {
            let latency = if delay as u128 >= task.tcp_latency {
                delay as u128
            } else {
                task.tcp_latency
            };
            assert(is_greater_of(latency, delay as int, task.tcp_latency as int));
        }
    }
}

/// The probe begins with a connection to the address and the port of the server. A URI that
/// describes no server is counted as one that does not work.
pub proof fn law_probe_begins_with_connection(
    parsed: Result<VlessModel, Seq<char>>,
    index: nat,
    platform: Platform,
    state: ScanModel,
)
    ensures
        ({
            let (task, after, action) = probe_begin(parsed, index, platform, state);
            match parsed {
                Ok(server) => {
                    &&& task is Some
                    &&& task->Some_0.parsed == server
                    &&& task->Some_0.index == index
                    &&& task->Some_0.platform == platform
                    &&& task->Some_0.phase == ProbePhase::Connecting
                    &&& after == state
                    &&& action is Connect
                    &&& action->Connect_0 == server.host + ":"@ + decimal(server.port as nat)
                    &&& platform == Platform::Android ==> action->Connect_1 == 1500
                    &&& platform == Platform::Windows ==> action->Connect_1 == 3000
                },
                Err(error) => {
                    &&& task is None
                    &&& action is Finish
                    &&& action->outcome == Ok::<Option<ProfileModel>, Seq<char>>(None)
                    &&& counted(
                        state,
                        after,
                        "#"@ + decimal(index) + " skipped: invalid URI ("@ + error + ")"@,
                        false,
                    )
                },
            }
        }),
{
}

/// A server that cannot be connected to does not work.
pub proof fn law_refused_connection_decides(
    task: ProbeModel,
    state: ScanModel,
    error: Seq<char>,
    cancelled: bool,
)
    ensures
        finds_nothing(
            state,
            probe_step(task, state, ProbeEventModel::Connected(Err(error)), cancelled),
            named(task) + (" skipped: TCP failed ("@ + error + ")"@),
        ),
{
}

/// The local port that a server is probed through.
pub open spec fn local_port(task: ProbeModel) -> nat {
    match task.platform {
        Platform::Android => 20808,
        Platform::Windows => 16080 + task.index % 65536,
    }
}

/// The text that is handed over to be run.
pub open spec fn handed_over(action: ProbeActionModel) -> Option<Seq<char>> {
    match action {
        ProbeActionModel::Measure(config, _) => Some(config),
        ProbeActionModel::Prepare(_, config) => Some(config),
        _ => None,
    }
}

/// A server that can be connected to is probed through a configuration that leads to that very
/// server and is offered at the local port of the probe; the time that the connection took is
/// kept.
pub proof fn law_probe_goes_through_server(
    task: ProbeModel,
    state: ScanModel,
    latency_ms: u128,
    cancelled: bool,
)
    requires
        probe_can_step(task, ProbeEventModel::Connected(Ok(latency_ms))),
    ensures
        ({
            let step = probe_step(
                task,
                state,
                ProbeEventModel::Connected(Ok(latency_ms)),
                cancelled,
            );
            &&& step.state == state
            &&& step.task.tcp_latency == latency_ms
            &&& step.task.parsed == task.parsed
            &&& handed_over(step.action) matches Some(text) ==> exists|config: JsonTree|
                {
                    &&& #[trigger] pretty_text(config) == Ok::<Seq<char>, Seq<char>>(text)
                    &&& leads_to(config, task.parsed)
                    &&& offers_port(config, local_port(task) as u16)
                    &&& outbound_stream(config) == stream_tree(task.parsed)
                }
            &&& handed_over(step.action) is Some ==> match task.platform {
                Platform::Android => step.action matches ProbeActionModel::Measure(_, url) && url
                    == "https://www.gstatic.com/generate_204"@,
                Platform::Windows => step.action matches ProbeActionModel::Prepare(tag, _) && tag
                    == "probe-"@ + decimal(task.index),
            }
            &&& handed_over(step.action) is None ==> step.action matches ProbeActionModel::Finish {
                outcome: Err(_),
                ..
            }
        }),
{
    law_config_leads_to_server(
        task.parsed,
        local_port(task) as u16,
        false,
        ACTIVE_TUN_INTERFACE@,
    );
}

/// An Xray process that still runs is gone through at the local port that its configuration is
/// offered at; one that has ended is a finding that the server does not work, and its files are
/// removed.
pub proof fn law_process_decides(
    task: ProbeModel,
    state: ScanModel,
    report: Option<(Seq<char>, Seq<char>)>,
    cancelled: bool,
)
    requires
        has_probe_port(task.index),
    ensures
        ({
            let step = probe_step(task, state, ProbeEventModel::Checked(report), cancelled);
            match report {
                None => {
                    &&& step.state == state
                    &&& step.task.phase == ProbePhase::BuildingClient
                    &&& step.action == ProbeActionModel::BuildClient(
                        "socks5h://127.0.0.1:"@ + decimal((16080 + task.index % 65536) as nat),
                    )
                },
                Some((status, log)) => {
                    &&& finds_nothing(
                        state,
                        step,
                        named(task) + (" failed: Xray exited with "@ + status + " ("@
                            + log_summary(log) + ")"@),
                    )
                    &&& step.action->remove_files
                    &&& !step.action->kill
                },
            }
        }),
{
}

/// What goes wrong with the means of a probe says nothing about the server: the error is the
/// outcome, and nothing is counted.
pub proof fn law_broken_probe_finds_nothing(
    task: ProbeModel,
    state: ScanModel,
    error: Seq<char>,
    cancelled: bool,
)
    ensures
        ends_unfound(
            state,
            probe_step(task, state, ProbeEventModel::MeasureBroken(error), cancelled),
            Err("Android delay probe task failed: "@ + error),
            false,
        ),
        ends_unfound(
            state,
            probe_step(task, state, ProbeEventModel::Prepared(Err(error)), cancelled),
            Err(error),
            false,
        ),
        ends_unfound(
            state,
            probe_step(task, state, ProbeEventModel::Spawned(Err(error)), cancelled),
            Err(error),
            false,
        ),
        ends_unfound(
            state,
            probe_step(task, state, ProbeEventModel::ProxyInvalid(error), cancelled),
            Err("Invalid proxy: "@ + error),
            false,
        ),
        ends_unfound(
            state,
            probe_step(task, state, ProbeEventModel::ClientInvalid(error), cancelled),
            Err("Failed to build probe client: "@ + error),
            false,
        ),
{
}

/// A probe on Windows waits eighteen times for its Xray process, then looks at it and makes its
/// request. If the scan is cancelled while it waits, the process is killed and its files are
/// removed.
pub proof fn law_probe_waits_for_process(
    task: ProbeModel,
    state: ScanModel,
    cancelled: bool,
)
    ensures
        ({
            let step = probe_step(task, state, ProbeEventModel::Prepared(Ok(())), cancelled);
            step.state == state && step.task.phase == ProbePhase::Spawning && step.action
                == ProbeActionModel::Spawn
        }),
        ({
            let step = probe_step(task, state, ProbeEventModel::Spawned(Ok(())), cancelled);
            if cancelled {
                ends_unfound(state, step, Ok(None), true)
            } else {
                step.state == state && step.task.phase == ProbePhase::Warming(1) && step.action
                    == ProbeActionModel::Sleep(100)
            }
        }),
        task.phase matches ProbePhase::Warming(rounds) ==> {
            let step = probe_step(task, state, ProbeEventModel::Waited, cancelled);
            if rounds >= 18 {
                step.state == state && step.task.phase == ProbePhase::Checking && step.action
                    == ProbeActionModel::CheckExit
            } else if cancelled {
                ends_unfound(state, step, Ok(None), true)
            } else {
                step.state == state && step.task.phase == ProbePhase::Warming((rounds + 1) as u8)
                    && step.action == ProbeActionModel::Sleep(100)
            }
        },
        ({
            let step = probe_step(task, state, ProbeEventModel::ClientBuilt, cancelled);
            step.state == state && step.task.phase == ProbePhase::Requesting && step.action
                == ProbeActionModel::Request("https://www.gstatic.com/generate_204"@)
        }),
{
}

/// Probes have local ports from 16080 on, one after the other, until there are none left.
pub proof fn law_probe_ports(index: nat)
    requires
        index < 65536,
    ensures
        has_probe_port(index) <==> index <= 49455,
        index <= 49455 ==> probe_port_of(index) == 16080 + index,
{
}

} // verus!
