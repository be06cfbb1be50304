//! What holds of a scan: of its log, of the commands that steer it, and of the order in which
//! servers are probed and shown.

use crate::platform::{probe_limit, Platform};
use crate::scan::{
    ended, most_recent, no_scan, paused, resumed, started, stopped, with_line, ProfileModel, RuntimeModel,
    ScanControl, ScanModel, MAX_LINES,
};
use crate::scan_task::{
    by_latency, join_logged, joined, loaded, placed, scan_of, scan_step, scanned_uris, OutcomeModel,
    ScanActionModel, ScanPhase, TaskModel,
};
use crate::text::decimal;
use vstd::prelude::*;
use vstd::seq_lib::group_to_multiset_ensures;

verus! {

/// The state with further lines in its log.
pub open spec fn with_lines(state: ScanModel, added: Seq<Seq<char>>) -> ScanModel
    decreases added.len(),
{
    if added.len() == 0 {
        state
    } else {
        with_line(with_lines(state, added.drop_last()), added.last())
    }
}

/// However many lines go to the log, it holds the most recent ones, in their order, and never
/// more than so many; nothing else of the state changes.
pub proof fn law_log_keeps_most_recent(state: ScanModel, added: Seq<Seq<char>>)
    requires
        state.lines.len() <= 320,
    ensures
        ({
            let all = state.lines + added;
            &&& all.len() <= 320 ==> with_lines(state, added).lines == all
            &&& all.len() > 320 ==> with_lines(state, added).lines == all.skip(all.len() - 320)
        }),
        with_lines(state, added).lines.len() <= 320,
        with_lines(state, added) == (ScanModel { lines: with_lines(state, added).lines, ..state }),
    decreases added.len(),
{
    let limit = MAX_LINES as nat;
    if added.len() == 0 {
        assert(state.lines + added =~= state.lines);
    } else {
        let before = state.lines + added.drop_last();
        law_log_keeps_most_recent(state, added.drop_last());
        assert(state.lines + added =~= before.push(added.last()));
        assert(most_recent(most_recent(before, limit).push(added.last()), limit) =~= most_recent(
            before.push(added.last()),
            limit,
        ));
    }
}

/// Going on undoes a pause.
pub proof fn law_resume_undoes_pause(runtime: RuntimeModel)
    requires
        !runtime.control.paused,
        !runtime.state.is_paused,
    ensures
        resumed(paused(runtime)) == runtime,
{
}

/// Tells whether the same was found, logged and counted.
pub open spec fn same_findings(a: ScanModel, b: ScanModel) -> bool {
    &&& a.lines == b.lines
    &&& a.profiles == b.profiles
    &&& a.scanned_count == b.scanned_count
    &&& a.working_count == b.working_count
    &&& a.total_count == b.total_count
    &&& a.source_count == b.source_count
}

/// Pausing, going on and stopping leave what was found, logged and counted as it is.
pub proof fn law_commands_keep_findings(runtime: RuntimeModel)
    ensures
        same_findings(paused(runtime).state, runtime.state),
        same_findings(resumed(runtime).state, runtime.state),
        same_findings(stopped(runtime).state, runtime.state),
{
}

/// Stopping twice is the same as stopping once, and a pause does not outlast a stop.
pub proof fn law_stop_is_final(runtime: RuntimeModel)
    ensures
        stopped(stopped(runtime)) == stopped(runtime),
        stopped(paused(runtime)) == stopped(runtime),
        stopped(resumed(runtime)) == stopped(runtime),
{
}

/// A stopped scan shows that it was stopped, whether or not its task still comes to an end of
/// its own.
pub proof fn law_stop_outlasts_end(runtime: RuntimeModel)
    ensures
        ended(stopped(runtime), None).state == stopped(runtime).state,
        ended(stopped(runtime), Some("Scan stopped"@)).state == stopped(runtime).state,
        ended(stopped(runtime), None).control.cancelled,
{
}

/// What is logged and counted has no influence on what a scan does next.
pub proof fn law_state_does_not_steer(
    task: TaskModel,
    a: ScanModel,
    b: ScanModel,
    control: ScanControl,
)
    ensures
        scan_step(task, a, control).task == scan_step(task, b, control).task,
        scan_step(task, a, control).action == scan_step(task, b, control).action,
{
}

/// A scan that is stopped probes no further server; one that is about to take up a server ends
/// at once and says why, even if it is paused.
pub proof fn law_stopped_scan_probes_no_more(
    task: TaskModel,
    state: ScanModel,
    control: ScanControl,
)
    requires
        control.cancelled,
    ensures
        !(scan_step(task, state, control).action is Probe),
        task.phase == ScanPhase::Gate && task.next < task.uris.len() ==> scan_step(
            task,
            state,
            control,
        ).action == ScanActionModel::Finish(Err("Scan stopped"@)),
        task.phase == ScanPhase::Gate && task.next < task.uris.len() ==> scan_step(
            task,
            state,
            control,
        ).state == state,
{
}

/// A paused scan takes up no further server, shows that it is paused, and goes on where it was
/// once the pause is over.
pub proof fn law_paused_scan_waits(task: TaskModel, state: ScanModel)
    requires
        task.phase == ScanPhase::Gate,
        task.next < task.uris.len(),
    ensures
        ({
            let control = ScanControl { cancelled: false, paused: true };
            let step = scan_step(task, state, control);
            &&& step.action == ScanActionModel::Wait
            &&& step.task == task
            &&& step.state == (ScanModel { is_paused: true, ..state })
        }),
{
}

/// What happens to a scan.
pub enum ScanTurn {
    /// It takes a step, under the given control.
    Step(ScanControl),
    /// One of its probes ends.
    Joined(OutcomeModel),
}

/// A scan together with what happened to it.
pub struct ScanRun {
    pub task: TaskModel,
    /// The servers that it asked to be probed, with their numbers.
    pub probed: Seq<(nat, Seq<char>)>,
    /// How many probes ended.
    pub ended: nat,
    /// The servers that were found to work, in the order in which they were found.
    pub found: Seq<ProfileModel>,
    /// Tells whether it was cancelled at any time.
    pub cancelled: bool,
}

/// What becomes of a scan.
pub open spec fn run_of(task: TaskModel, turns: Seq<ScanTurn>) -> ScanRun
    decreases turns.len(),
{
    if turns.len() == 0 {
        ScanRun { task, probed: Seq::empty(), ended: 0, found: Seq::empty(), cancelled: false }
    } else {
        let run = run_of(task, turns.drop_last());
        match turns.last() {
            ScanTurn::Step(control) => {
                let step = scan_step(run.task, no_scan(), control);
                ScanRun {
                    task: step.task,
                    probed: match step.action {
                        ScanActionModel::Probe(index, uri) => run.probed.push((index, uri)),
                        _ => run.probed,
                    },
                    cancelled: run.cancelled || control.cancelled,
                    ..run
                }
            },
            ScanTurn::Joined(outcome) => ScanRun {
                task: joined(run.task, outcome),
                ended: run.ended + 1,
                found: match outcome {
                    OutcomeModel::Working(profile) => run.found.push(profile),
                    _ => run.found,
                },
                ..run
            },
        }
    }
}

/// Tells whether it can happen so: a scan takes steps until it is over, and probes end that run.
pub open spec fn can_happen(task: TaskModel, turns: Seq<ScanTurn>) -> bool
    decreases turns.len(),
{
    turns.len() > 0 ==> {
        let before = run_of(task, turns.drop_last()).task;
        &&& can_happen(task, turns.drop_last())
        &&& before.phase != ScanPhase::Over
        &&& turns.last() is Joined ==> before.in_flight > 0
    }
}

/// The servers of a list, with their numbers, up to the given one.
pub open spec fn numbered(uris: Seq<Seq<char>>, count: nat) -> Seq<(nat, Seq<char>)> {
    Seq::new(count, |i: int| (i as nat, uris[i]))
}

/// What holds throughout a scan.
proof fn lemma_run(text: Seq<char>, platform: Platform, turns: Seq<ScanTurn>)
    requires
        can_happen(scan_of(text, platform), turns),
    ensures
        ({
            let run = run_of(scan_of(text, platform), turns);
            &&& run.task.well_formed()
            &&& run.task.uris == scanned_uris(text)
            &&& run.task.limit == probe_limit(platform)
            &&& run.probed == numbered(scanned_uris(text), run.task.next)
            &&& run.ended + run.task.in_flight == run.task.next
            &&& run.task.phase != ScanPhase::Over ==> run.task.profiles == run.found
            &&& run.task.phase == ScanPhase::Drain && !run.cancelled ==> run.task.next
                == scanned_uris(text).len()
        }),
    decreases turns.len(),
{
    let start = scan_of(text, platform);
    let run = run_of(start, turns);
    if turns.len() == 0 {
        assert(run.probed =~= numbered(scanned_uris(text), 0));
    } else {
        let before = run_of(start, turns.drop_last());
        lemma_run(text, platform, turns.drop_last());
        law_by_latency_is_permutation(before.task.profiles);
        match turns.last() {
            ScanTurn::Step(control) => {
                let step = scan_step(before.task, no_scan(), control);
                if step.action is Probe {
                    assert(run.probed =~= numbered(scanned_uris(text), run.task.next));
                }
            },
            ScanTurn::Joined(outcome) => {},
        }
    }
}

/// Whatever happens, the servers are probed in the order of the list, each once; no more probes
/// run at the same time than may; and each probe that was asked for runs or has ended.
pub proof fn law_servers_are_probed_in_order(
    text: Seq<char>,
    platform: Platform,
    turns: Seq<ScanTurn>,
)
    requires
        can_happen(scan_of(text, platform), turns),
    ensures
        ({
            let run = run_of(scan_of(text, platform), turns);
            &&& run.probed.len() <= scanned_uris(text).len()
            &&& run.probed == numbered(scanned_uris(text), run.probed.len())
            &&& run.task.in_flight <= probe_limit(platform)
            &&& run.ended + run.task.in_flight == run.probed.len()
        }),
{
    lemma_run(text, platform, turns);
}

/// A scan that comes to its end has waited for all its probes, shows all servers that were found
/// to work, and no others, by their latency, and counts them; unless it was cancelled, all
/// servers were probed.
pub proof fn law_finished_scan_is_complete(
    text: Seq<char>,
    platform: Platform,
    turns: Seq<ScanTurn>,
    state: ScanModel,
    control: ScanControl,
)
    requires
        can_happen(scan_of(text, platform), turns),
        run_of(scan_of(text, platform), turns).task.phase != ScanPhase::Over,
        scan_step(run_of(scan_of(text, platform), turns).task, state, control).action
            == ScanActionModel::Finish(Ok(())),
    ensures
        ({
            let run = run_of(scan_of(text, platform), turns);
            let end = scan_step(run.task, state, control).state;
            &&& run.ended == run.probed.len()
            &&& !run.cancelled && !control.cancelled ==> run.probed.len()
                == scanned_uris(text).len()
            &&& end.profiles == by_latency(run.found)
            &&& end.working_count == run.found.len()
            &&& !end.is_scanning
            &&& !end.is_paused
            &&& end.error is None
        }),
{
    lemma_run(text, platform, turns);
    law_by_latency_is_permutation(run_of(scan_of(text, platform), turns).found);
}

/// Putting a server into a list keeps the order of the latencies.
proof fn lemma_placed_sorted(sorted: Seq<ProfileModel>, profile: ProfileModel)
    requires
        forall|i: int, j: int|
            0 <= i <= j < sorted.len() ==> sorted[i].latency_ms <= sorted[j].latency_ms,
    ensures
        ({
            let all = placed(sorted, profile);
            &&& all.to_multiset() == sorted.to_multiset().insert(profile)
            &&& all.len() == sorted.len() + 1
            &&& forall|i: int, j: int|
                0 <= i <= j < all.len() ==> all[i].latency_ms <= all[j].latency_ms
            &&& all.last().latency_ms == if sorted.len() > 0 && sorted.last().latency_ms
                > profile.latency_ms {
                sorted.last().latency_ms
            } else {
                profile.latency_ms
            }
        }),
    decreases sorted.len(),
{
    broadcast use group_to_multiset_ensures;

    if sorted.len() > 0 && sorted.last().latency_ms > profile.latency_ms {
        let fewer = sorted.drop_last();
        let last = sorted.last();
        lemma_placed_sorted(fewer, profile);
        assert(fewer.push(last) =~= sorted);
        assert(placed(sorted, profile).to_multiset() =~= sorted.to_multiset().insert(profile));
    }
}

/// The servers are shown by their latency, the fastest first.
pub proof fn law_by_latency_is_sorted(profiles: Seq<ProfileModel>)
    ensures
        forall|i: int, j: int|
            0 <= i <= j < by_latency(profiles).len() ==> by_latency(profiles)[i].latency_ms
                <= by_latency(profiles)[j].latency_ms,
    decreases profiles.len(),
{
    if profiles.len() > 0 {
        law_by_latency_is_sorted(profiles.drop_last());
        lemma_placed_sorted(by_latency(profiles.drop_last()), profiles.last());
    }
}

/// Sorting neither loses nor adds nor repeats a server.
pub proof fn law_by_latency_is_permutation(profiles: Seq<ProfileModel>)
    ensures
        by_latency(profiles).to_multiset() == profiles.to_multiset(),
        by_latency(profiles).len() == profiles.len(),
    decreases profiles.len(),
{
    broadcast use group_to_multiset_ensures;

    if profiles.len() > 0 {
        let fewer = profiles.drop_last();
        law_by_latency_is_permutation(fewer);
        law_by_latency_is_sorted(fewer);
        lemma_placed_sorted(by_latency(fewer), profiles.last());
        assert(fewer.push(profiles.last()) =~= profiles);
    } else {
        assert(by_latency(profiles) =~= profiles);
    }
}

/// The servers with the given latency, in their order.
pub open spec fn with_latency(profiles: Seq<ProfileModel>, latency_ms: u128) -> Seq<ProfileModel> {
    profiles.filter(|profile: ProfileModel| profile.latency_ms == latency_ms)
}

/// One more server adds to those with its latency.
proof fn lemma_with_latency_push(
    profiles: Seq<ProfileModel>,
    profile: ProfileModel,
    latency_ms: u128,
)
    ensures
        with_latency(profiles.push(profile), latency_ms) == if profile.latency_ms == latency_ms {
            with_latency(profiles, latency_ms).push(profile)
        } else {
            with_latency(profiles, latency_ms)
        },
{
    reveal(Seq::filter);
    assert(profiles.push(profile).drop_last() =~= profiles);
}

/// Putting a server into a list puts it behind those with the same latency.
proof fn lemma_placed_stable(
    sorted: Seq<ProfileModel>,
    profile: ProfileModel,
    latency_ms: u128,
)
    ensures
        with_latency(placed(sorted, profile), latency_ms) == with_latency(
            sorted.push(profile),
            latency_ms,
        ),
    decreases sorted.len(),
{
    if sorted.len() > 0 && sorted.last().latency_ms > profile.latency_ms {
        let fewer = sorted.drop_last();
        let last = sorted.last();
        lemma_placed_stable(fewer, profile, latency_ms);
        lemma_with_latency_push(placed(fewer, profile), last, latency_ms);
        lemma_with_latency_push(fewer, profile, latency_ms);
        lemma_with_latency_push(fewer, last, latency_ms);
        assert(fewer.push(last) =~= sorted);
        lemma_with_latency_push(sorted, profile, latency_ms);
    }
}

/// Servers with the same latency are shown in the order in which they were found.
pub proof fn law_by_latency_is_stable(profiles: Seq<ProfileModel>, latency_ms: u128)
    ensures
        with_latency(by_latency(profiles), latency_ms) == with_latency(profiles, latency_ms),
    decreases profiles.len(),
{
    if profiles.len() > 0 {
        let fewer = profiles.drop_last();
        let last = profiles.last();
        law_by_latency_is_stable(fewer, latency_ms);
        lemma_placed_stable(by_latency(fewer), last, latency_ms);
        lemma_with_latency_push(by_latency(fewer), last, latency_ms);
        lemma_with_latency_push(fewer, last, latency_ms);
        assert(fewer.push(last) =~= profiles);
    } else {
        assert(by_latency(profiles) =~= profiles);
    }
}

/// A pause turns the pause on, going on turns it off, both in what is shown and in what steers
/// the task; whether the scan is cancelled, and whether a task runs it, stays as it is.
pub proof fn law_pause_and_resume(runtime: RuntimeModel)
    ensures
        paused(runtime).state == (ScanModel { is_paused: true, ..runtime.state }),
        paused(runtime).control == (ScanControl { paused: true, ..runtime.control }),
        paused(runtime).task == runtime.task,
        resumed(runtime).state == (ScanModel { is_paused: false, ..runtime.state }),
        resumed(runtime).control == (ScanControl { paused: false, ..runtime.control }),
        resumed(runtime).task == runtime.task,
{
}

/// A stopped scan is cancelled and not paused, has no task, and shows that it was stopped.
pub proof fn law_stop(runtime: RuntimeModel)
    ensures
        stopped(runtime).control == (ScanControl { cancelled: true, paused: false }),
        !stopped(runtime).task,
        stopped(runtime).state == (ScanModel {
            is_scanning: false,
            is_paused: false,
            error: Some("Scan stopped"@),
            ..runtime.state
        }),
{
}

/// A scan starts with nothing found, nothing logged and nothing counted but its lists.
pub proof fn law_start(source_count: nat)
    ensures
        ({
            let runtime = started(source_count);
            &&& runtime.task
            &&& runtime.control == (ScanControl { cancelled: false, paused: false })
            &&& runtime.state.is_scanning
            &&& !runtime.state.is_paused
            &&& runtime.state.error is None
            &&& runtime.state.lines.len() == 0
            &&& runtime.state.profiles.len() == 0
            &&& runtime.state.scanned_count == 0
            &&& runtime.state.working_count == 0
            &&& runtime.state.total_count == 0
            &&& runtime.state.source_count == source_count
        }),
{
}

/// A task that ends leaves what was found, logged and counted, and its error if it has one; an
/// error that is shown already is not wiped out.
pub proof fn law_end(runtime: RuntimeModel, error: Option<Seq<char>>)
    ensures
        ({
            let after = ended(runtime, error);
            &&& same_findings(after.state, runtime.state)
            &&& !after.state.is_scanning
            &&& !after.state.is_paused
            &&& !after.task
            &&& after.control == runtime.control
            &&& error is Some ==> after.state.error == error
            &&& error is None ==> after.state.error == runtime.state.error
        }),
{
}

/// A scan goes over the servers of its text, one at a time on Android and twelve at a time on
/// Windows; it says so in its log.
pub proof fn law_scan_begins(
    text: Seq<char>,
    platform: Platform,
    state: ScanModel,
    source_count: nat,
)
    ensures
        ({
            let task = scan_of(text, platform);
            &&& task.uris == scanned_uris(text)
            &&& task.next == 0
            &&& task.in_flight == 0
            &&& task.profiles.len() == 0
            &&& task.phase == ScanPhase::Gate
            &&& platform == Platform::Android ==> task.limit == 1
            &&& platform == Platform::Windows ==> task.limit == 12
        }),
        ({
            let count = scanned_uris(text).len();
            let after = loaded(state, count, source_count);
            &&& after == (ScanModel {
                lines: after.lines,
                total_count: count,
                source_count,
                ..state
            })
            &&& after.lines.last() == "Loaded "@ + decimal(count) + " VLESS URIs from "@ + decimal(
                source_count,
            ) + " sources. Testing target: "@ + "https://www.gstatic.com/generate_204"@
        }),
{
}

/// A scan that is neither paused nor stopped takes up the next server as soon as fewer probes
/// run than may; otherwise it waits for one of them to end, and then probes that server.
pub proof fn law_scan_goes_on(task: TaskModel, state: ScanModel, control: ScanControl)
    requires
        task.next < task.uris.len(),
        !control.cancelled,
        task.phase == ScanPhase::Fill || task.phase == ScanPhase::Gate && !control.paused,
    ensures
        ({
            let step = scan_step(task, state, control);
            &&& task.in_flight < task.limit ==> {
                &&& step.action == ScanActionModel::Probe(task.next, task.uris[task.next as int])
                &&& step.task == (TaskModel {
                    next: task.next + 1,
                    in_flight: task.in_flight + 1,
                    phase: ScanPhase::Gate,
                    ..task
                })
            }
            &&& task.in_flight >= task.limit ==> {
                &&& step.action == ScanActionModel::Join
                &&& step.task == (TaskModel { phase: ScanPhase::Fill, ..task })
            }
            &&& task.phase == ScanPhase::Gate ==> step.state == (ScanModel {
                is_paused: false,
                ..state
            })
            &&& task.phase == ScanPhase::Fill ==> step.state == state
        }),
{
}

/// A scan without a further server, or stopped while it waits for a free place, waits for its
/// probes, and comes to its end once none runs.
pub proof fn law_scan_comes_to_its_end(task: TaskModel, state: ScanModel, control: ScanControl)
    requires
        task.phase == ScanPhase::Drain || task.phase == ScanPhase::Fill && control.cancelled
            || task.phase == ScanPhase::Gate && task.next >= task.uris.len(),
    ensures
        ({
            let step = scan_step(task, state, control);
            &&& task.in_flight > 0 ==> step.action == ScanActionModel::Join && step.state == state
                && step.task == (TaskModel { phase: ScanPhase::Drain, ..task })
            &&& task.in_flight == 0 ==> {
                &&& step.action == ScanActionModel::Finish(Ok(()))
                &&& step.task.phase == ScanPhase::Over
                &&& step.state.lines.last() == "Scan finished. "@ + decimal(task.profiles.len())
                    + " working servers found."@
                &&& step.state.scanned_count == state.scanned_count
                &&& step.state.total_count == state.total_count
                &&& step.state.source_count == state.source_count
                &&& step.state.working_count == task.profiles.len()
            }
        }),
{
    law_by_latency_is_permutation(task.profiles);
}

/// A probe that ends makes room for another. A server that it found to work is shown, behind
/// those that were found before, and counted; an error goes to the log.
pub proof fn law_probe_ends(task: TaskModel, state: ScanModel, outcome: OutcomeModel)
    requires
        task.in_flight > 0,
    ensures
        ({
            let after = joined(task, outcome);
            let shown = join_logged(state, task.profiles, outcome);
            &&& after.in_flight == task.in_flight - 1
            &&& after.next == task.next
            &&& after.uris == task.uris
            &&& after.limit == task.limit
            &&& after.phase == task.phase
            &&& match outcome {
                OutcomeModel::Working(profile) => {
                    &&& after.profiles == task.profiles.push(profile)
                    &&& shown == (ScanModel {
                        profiles: task.profiles.push(profile),
                        working_count: task.profiles.len() + 1,
                        ..state
                    })
                },
                OutcomeModel::NotWorking => after.profiles == task.profiles && shown == state,
                OutcomeModel::Failed(error) => {
                    &&& after.profiles == task.profiles
                    &&& shown == (ScanModel { lines: shown.lines, ..state })
                    &&& shown.lines.last() == "Probe error: "@ + error
                },
                OutcomeModel::Broken(error) => {
                    &&& after.profiles == task.profiles
                    &&& shown == (ScanModel { lines: shown.lines, ..state })
                    &&& shown.lines.last() == "Probe task join error: "@ + error
                },
            }
        }),
{
}

} // verus!
