//! The task that runs a scan: which server to probe next, when to wait, and what to make of
//! what the probes found.

use crate::platform::{probe_concurrency, probe_limit, Platform};
use crate::scan::{
    clone_profiles, lemma_profiles_push, profile_models, push_debug_line, with_line, ProfileModel,
    ScanControl, ScanModel, ScanState, ServerProfile,
};
use crate::sources::{server_lines, vless_uris};
use crate::text::{decimal, decimal_text, lines, texts};
use vstd::prelude::*;
use vstd::string::*;

verus! {

/// The address that is requested through a server to see whether it works.
pub const PROBE_TARGET_URL: &'static str = "https://www.gstatic.com/generate_204";

/// A list in the order of the latencies, with one more server put behind those that are not
/// slower.
pub open spec fn placed(sorted: Seq<ProfileModel>, profile: ProfileModel) -> Seq<ProfileModel>
    decreases sorted.len(),
{
    if sorted.len() > 0 && sorted.last().latency_ms > profile.latency_ms {
        placed(sorted.drop_last(), profile).push(sorted.last())
    } else {
        sorted.push(profile)
    }
}

/// The servers in the order of their latencies; those with the same latency stay in the order
/// they had.
pub open spec fn by_latency(profiles: Seq<ProfileModel>) -> Seq<ProfileModel>
    decreases profiles.len(),
{
    if profiles.len() == 0 {
        Seq::empty()
    } else {
        placed(by_latency(profiles.drop_last()), profiles.last())
    }
}

/// Puts one more server into a list in the order of the latencies.
fn place(sorted: &mut Vec<ServerProfile>, profile: ServerProfile)
    ensures
        profile_models(final(sorted)@) == placed(profile_models(old(sorted)@), profile@),
{
    let ghost all = profile_models(sorted@);
    let mut at: usize = sorted.len();
    assert(all.take(at as int) =~= all);
    assert(all.skip(at as int) =~= Seq::empty());
    assert(placed(all, profile@) =~= placed(all.take(at as int), profile@) + all.skip(at as int));
    while at > 0 && sorted[at - 1].latency_ms > profile.latency_ms
        invariant
            at <= sorted.len(),
            all == profile_models(sorted@),
            placed(all, profile@) == placed(all.take(at as int), profile@) + all.skip(at as int),
        decreases at,
    {
        let ghost known = all.take(at as int);
        at -= 1;
        assert(known.drop_last() =~= all.take(at as int));
        assert(known.last() == sorted[at as int]@);
        assert(placed(all, profile@) =~= placed(all.take(at as int), profile@) + all.skip(
            at as int,
        ));
    }
    assert(at > 0 ==> all.take(at as int).last() == sorted[at - 1]@);
    sorted.insert(at, profile);
    assert(profile_models(sorted@) =~= all.take(at as int).push(profile@) + all.skip(at as int));
}

/// The servers in the order of their latencies.
pub fn sort_by_latency(profiles: &Vec<ServerProfile>) -> (sorted: Vec<ServerProfile>)
    ensures
        profile_models(sorted@) == by_latency(profile_models(profiles@)),
{
    let ghost all = profile_models(profiles@);
    let mut sorted: Vec<ServerProfile> = Vec::new();
    let mut i: usize = 0;
    assert(profile_models(sorted@) =~= by_latency(all.take(0)));
    while i < profiles.len()
        invariant
            i <= profiles.len(),
            all == profile_models(profiles@),
            profile_models(sorted@) == by_latency(all.take(i as int)),
        decreases profiles.len() - i,
    {
        assert(all.take(i + 1).drop_last() =~= all.take(i as int));
        assert(all.take(i + 1).last() == profiles[i as int]@);
        place(&mut sorted, profiles[i].clone());
        i += 1;
    }
    assert(all.take(i as int) =~= all);
    sorted
}

/// Where a scan stands.
#[derive(Clone, Copy, Debug, PartialEq, Eq, Structural)]
pub enum ScanPhase {
    /// About to take up the next server, unless the scan is paused or stopped.
    Gate,
    /// The next server was taken up, and waits for a free place among the probes.
    Fill,
    /// No further server is taken up; the running probes are waited for.
    Drain,
    /// The scan is over.
    Over,
}

/// A running scan.
pub struct ScanTask {
    /// The URIs of the servers.
    pub uris: Vec<String>,
    /// How many servers were taken up.
    pub next: usize,
    /// How many probes are running.
    pub in_flight: usize,
    /// How many probes may run at the same time.
    pub limit: usize,
    /// The servers that were found to work, in the order in which they were found.
    pub profiles: Vec<ServerProfile>,
    /// Where the scan stands.
    pub phase: ScanPhase,
}

/// A running scan, as mathematical values.
pub struct TaskModel {
    pub uris: Seq<Seq<char>>,
    pub next: nat,
    pub in_flight: nat,
    pub limit: nat,
    pub profiles: Seq<ProfileModel>,
    pub phase: ScanPhase,
}

impl View for ScanTask {
    type V = TaskModel;

    open spec fn view(&self) -> TaskModel {
        TaskModel {
            uris: texts(self.uris@),
            next: self.next as nat,
            in_flight: self.in_flight as nat,
            limit: self.limit as nat,
            profiles: profile_models(self.profiles@),
            phase: self.phase,
        }
    }
}

impl TaskModel {
    /// What holds of a scan at any time: no more probes run than may, and each probe that ran
    /// was for another server and found one working server at most.
    pub open spec fn well_formed(self) -> bool {
        &&& self.next <= self.uris.len()
        &&& self.in_flight <= self.limit
        &&& self.limit > 0
        &&& self.profiles.len() + self.in_flight <= self.next
        &&& self.phase == ScanPhase::Fill ==> self.next < self.uris.len()
    }
}

/// What the scan asks for next.
pub enum ScanAction {
    /// Wait for a change of the control.
    Wait,
    /// Probe a server.
    Probe {
        index: usize,
        uri: String,
    },
    /// Wait for one of the running probes to end.
    Join,
    /// Stop, with this outcome. The probes that still run are given up.
    Finish(Result<(), String>),
}

/// What the scan asks for next, as a mathematical value.
pub enum ScanActionModel {
    Wait,
    Probe(nat, Seq<char>),
    Join,
    Finish(Result<(), Seq<char>>),
}

impl View for ScanAction {
    type V = ScanActionModel;

    open spec fn view(&self) -> ScanActionModel {
        match self {
            ScanAction::Wait => ScanActionModel::Wait,
            ScanAction::Probe { index, uri } => ScanActionModel::Probe(*index as nat, uri@),
            ScanAction::Join => ScanActionModel::Join,
            ScanAction::Finish(Ok(_)) => ScanActionModel::Finish(Ok(())),
            ScanAction::Finish(Err(error)) => ScanActionModel::Finish(Err(error@)),
        }
    }
}

/// What came of a probe.
pub enum ProbeOutcome {
    /// The server works.
    Working(ServerProfile),
    /// The server does not work, or the probe was cancelled.
    NotWorking,
    /// The probe could not be made.
    Failed(String),
    /// The task of the probe broke down.
    Broken(String),
}

/// What came of a probe, as a mathematical value.
pub enum OutcomeModel {
    Working(ProfileModel),
    NotWorking,
    Failed(Seq<char>),
    Broken(Seq<char>),
}

impl View for ProbeOutcome {
    type V = OutcomeModel;

    open spec fn view(&self) -> OutcomeModel {
        match self {
            ProbeOutcome::Working(profile) => OutcomeModel::Working(profile@),
            ProbeOutcome::NotWorking => OutcomeModel::NotWorking,
            ProbeOutcome::Failed(error) => OutcomeModel::Failed(error@),
            ProbeOutcome::Broken(error) => OutcomeModel::Broken(error@),
        }
    }
}

/// The URIs of a text, as they are scanned.
pub open spec fn scanned_uris(text: Seq<char>) -> Seq<Seq<char>> {
    server_lines(lines(text))
}

/// The scan of the servers of a text, at its beginning.
pub open spec fn scan_of(text: Seq<char>, platform: Platform) -> TaskModel {
    TaskModel {
        uris: scanned_uris(text),
        next: 0,
        in_flight: 0,
        limit: probe_limit(platform),
        profiles: Seq::empty(),
        phase: ScanPhase::Gate,
    }
}

/// The line that opens the log of a scan.
pub open spec fn loaded_line(uri_count: nat, source_count: nat) -> Seq<char> {
    "Loaded "@ + decimal(uri_count) + " VLESS URIs from "@ + decimal(source_count)
        + " sources. Testing target: "@ + PROBE_TARGET_URL@
}

/// The line that closes the log of a scan.
pub open spec fn finished_line(working_count: nat) -> Seq<char> {
    "Scan finished. "@ + decimal(working_count) + " working servers found."@
}

/// The state of the scan once its servers are known.
pub open spec fn loaded(state: ScanModel, uri_count: nat, source_count: nat) -> ScanModel {
    with_line(
        ScanModel { total_count: uri_count, source_count, ..state },
        loaded_line(uri_count, source_count),
    )
}

/// The state of a scan that came to its end.
pub open spec fn completed(state: ScanModel, profiles: Seq<ProfileModel>) -> ScanModel {
    with_line(
        ScanModel {
            profiles: by_latency(profiles),
            working_count: by_latency(profiles).len(),
            is_scanning: false,
            is_paused: false,
            error: None,
            ..state
        },
        finished_line(by_latency(profiles).len()),
    )
}

/// A step of a scan: how it stands afterwards, what its state is, and what it asks for.
pub struct ScanStep {
    pub task: TaskModel,
    pub state: ScanModel,
    pub action: ScanActionModel,
}

/// The step of a scan that takes up no further server.
pub open spec fn drain_step(task: TaskModel, state: ScanModel) -> ScanStep {
    if task.in_flight > 0 {
        ScanStep {
            task: TaskModel { phase: ScanPhase::Drain, ..task },
            state,
            action: ScanActionModel::Join,
        }
    } else {
        ScanStep {
            task: TaskModel {
                profiles: by_latency(task.profiles),
                phase: ScanPhase::Over,
                ..task
            },
            state: completed(state, task.profiles),
            action: ScanActionModel::Finish(Ok(())),
        }
    }
}

/// The step of a scan that took up a server and needs a place for its probe.
pub open spec fn fill_step(task: TaskModel, state: ScanModel, control: ScanControl) -> ScanStep {
    if control.cancelled {
        drain_step(task, state)
    } else if task.in_flight >= task.limit {
        ScanStep {
            task: TaskModel { phase: ScanPhase::Fill, ..task },
            state,
            action: ScanActionModel::Join,
        }
    } else {
        ScanStep {
            task: TaskModel {
                next: task.next + 1,
                in_flight: task.in_flight + 1,
                phase: ScanPhase::Gate,
                ..task
            },
            state,
            action: ScanActionModel::Probe(task.next, task.uris[task.next as int]),
        }
    }
}

/// The step of a scan that is about to take up a server.
pub open spec fn gate_step(task: TaskModel, state: ScanModel, control: ScanControl) -> ScanStep {
    if control.cancelled {
        ScanStep {
            task: TaskModel { phase: ScanPhase::Over, ..task },
            state,
            action: ScanActionModel::Finish(Err("Scan stopped"@)),
        }
    } else if control.paused {
        ScanStep {
            task: TaskModel { phase: ScanPhase::Gate, ..task },
            state: ScanModel { is_paused: true, ..state },
            action: ScanActionModel::Wait,
        }
    } else {
        fill_step(task, ScanModel { is_paused: false, ..state }, control)
    }
}

/// The step of a scan.
pub open spec fn scan_step(task: TaskModel, state: ScanModel, control: ScanControl) -> ScanStep {
    match task.phase {
        ScanPhase::Gate if task.next < task.uris.len() => gate_step(task, state, control),
        ScanPhase::Fill => fill_step(task, state, control),
        _ => drain_step(task, state),
    }
}

/// The scan once one of its probes ended.
pub open spec fn joined(task: TaskModel, outcome: OutcomeModel) -> TaskModel {
    TaskModel {
        in_flight: (task.in_flight - 1) as nat,
        profiles: match outcome {
            OutcomeModel::Working(profile) => task.profiles.push(profile),
            _ => task.profiles,
        },
        ..task
    }
}

/// The state of the scan once one of its probes ended.
pub open spec fn join_logged(
    state: ScanModel,
    profiles: Seq<ProfileModel>,
    outcome: OutcomeModel,
) -> ScanModel {
    match outcome {
        OutcomeModel::Working(profile) => ScanModel {
            profiles: profiles.push(profile),
            working_count: profiles.len() + 1,
            ..state
        },
        OutcomeModel::NotWorking => state,
        OutcomeModel::Failed(error) => with_line(state, "Probe error: "@ + error),
        OutcomeModel::Broken(error) => with_line(state, "Probe task join error: "@ + error),
    }
}

impl ScanTask {
    /// Begins the scan of the servers that a text names, which was collected from so many
    /// lists.
    pub fn begin(
        source_text: &str,
        source_count: usize,
        platform: Platform,
        state: &mut ScanState,
    ) -> (task: ScanTask)
        ensures
            task@ == scan_of(source_text@, platform),
            task@.well_formed(),
            final(state)@ == loaded(
                old(state)@,
                scanned_uris(source_text@).len(),
                source_count as nat,
            ),
    {
        let uris = vless_uris(source_text);
        assert(texts(uris@).len() == uris.len());
        state.total_count = uris.len();
        state.source_count = source_count;
        let mut line = "Loaded ".to_owned();
        line.append(decimal_text(uris.len() as u128).as_str());
        line.append(" VLESS URIs from ");
        line.append(decimal_text(source_count as u128).as_str());
        line.append(" sources. Testing target: ");
        line.append(PROBE_TARGET_URL);
        push_debug_line(state, line);
        let task = ScanTask {
            uris,
            next: 0,
            in_flight: 0,
            limit: probe_concurrency(platform),
            profiles: Vec::new(),
            phase: ScanPhase::Gate,
        };
        assert(profile_models(task.profiles@) =~= Seq::empty());
        task
    }

    /// The step of a scan that takes up no further server.
    fn drain(&mut self, state: &mut ScanState) -> (action: ScanAction)
        requires
            old(self)@.well_formed(),
        ensures
            (ScanStep { task: final(self)@, state: final(state)@, action: action@ }) == drain_step(
                old(self)@,
                old(state)@,
            ),
    {
        if self.in_flight > 0 {
            self.phase = ScanPhase::Drain;
            return ScanAction::Join;
        }
        self.phase = ScanPhase::Over;
        self.profiles = sort_by_latency(&self.profiles);
        state.profiles = clone_profiles(&self.profiles);
        state.working_count = self.profiles.len();
        state.is_scanning = false;
        state.is_paused = false;
        state.error = None;
        assert(profile_models(self.profiles@).len() == self.profiles.len());
        let mut line = "Scan finished. ".to_owned();
        line.append(decimal_text(self.profiles.len() as u128).as_str());
        line.append(" working servers found.");
        push_debug_line(state, line);
        ScanAction::Finish(Ok(()))
    }

    /// The step of a scan that took up a server and needs a place for its probe.
    fn fill(&mut self, state: &mut ScanState, control: &ScanControl) -> (action: ScanAction)
        requires
            old(self)@.well_formed(),
            old(self)@.next < old(self)@.uris.len(),
        ensures
            (ScanStep { task: final(self)@, state: final(state)@, action: action@ }) == fill_step(
                old(self)@,
                old(state)@,
                *control,
            ),
    {
        if control.is_cancelled() {
            return self.drain(state);
        }
        if self.in_flight >= self.limit {
            self.phase = ScanPhase::Fill;
            return ScanAction::Join;
        }
        let index = self.next;
        assert(texts(self.uris@).len() == self.uris.len());
        let uri = self.uris[index].clone();
        self.next += 1;
        self.in_flight += 1;
        self.phase = ScanPhase::Gate;
        ScanAction::Probe { index, uri }
    }

    /// Takes the next step of the scan, under the given control.
    pub fn step(&mut self, state: &mut ScanState, control: &ScanControl) -> (action: ScanAction)
        requires
            old(self)@.well_formed(),
            old(self)@.phase != ScanPhase::Over,
        ensures
            (ScanStep { task: final(self)@, state: final(state)@, action: action@ }) == scan_step(
                old(self)@,
                old(state)@,
                *control,
            ),
            final(self)@.well_formed(),
            (final(self)@.phase == ScanPhase::Over) == (action is Finish),
    {
        proof {
            lemma_by_latency_len(self@.profiles);
        }
        match self.phase {
            ScanPhase::Gate => {
                assert(texts(self.uris@).len() == self.uris.len());
                if self.next < self.uris.len() {
                    if control.is_cancelled() {
                        self.phase = ScanPhase::Over;
                        ScanAction::Finish(Err("Scan stopped".to_owned()))
                    } else if control.is_paused() {
                        state.is_paused = true;
                        ScanAction::Wait
                    } else {
                        state.is_paused = false;
                        self.fill(state, control)
                    }
                } else {
                    self.drain(state)
                }
            },
            ScanPhase::Fill => self.fill(state, control),
            _ => self.drain(state),
        }
    }
}

/// Notes that one of the running probes ended.
pub fn drain_one_probe(task: &mut ScanTask, state: &mut ScanState, outcome: ProbeOutcome)
    requires
        old(task)@.well_formed(),
    ensures
        final(task)@.well_formed(),
        old(task)@.in_flight == 0 ==> final(task)@ == old(task)@ && final(state)@ == old(state)@,
        old(task)@.in_flight > 0 ==> final(task)@ == joined(old(task)@, outcome@),
        old(task)@.in_flight > 0 ==> final(state)@ == join_logged(
            old(state)@,
            old(task)@.profiles,
            outcome@,
        ),
{
    if task.in_flight == 0 {
        return;
    }
    task.in_flight -= 1;
    assert(profile_models(task.profiles@).len() == task.profiles.len());
    match outcome {
        ProbeOutcome::Working(profile) => {
            proof {
                lemma_profiles_push(task.profiles@, profile);
            }
            task.profiles.push(profile);
            state.profiles = clone_profiles(&task.profiles);
            state.working_count = task.profiles.len();
        },
        ProbeOutcome::NotWorking => {},
        ProbeOutcome::Failed(error) => {
            let mut line = "Probe error: ".to_owned();
            line.append(error.as_str());
            push_debug_line(state, line);
        },
        ProbeOutcome::Broken(error) => {
            let mut line = "Probe task join error: ".to_owned();
            line.append(error.as_str());
            push_debug_line(state, line);
        },
    }
}

/// Putting a server into the list makes it longer by one.
proof fn lemma_placed_len(sorted: Seq<ProfileModel>, profile: ProfileModel)
    ensures
        placed(sorted, profile).len() == sorted.len() + 1,
    decreases sorted.len(),
{
    if sorted.len() > 0 && sorted.last().latency_ms > profile.latency_ms {
        lemma_placed_len(sorted.drop_last(), profile);
    }
}

/// Sorting keeps the number of servers.
proof fn lemma_by_latency_len(profiles: Seq<ProfileModel>)
    ensures
        by_latency(profiles).len() == profiles.len(),
    decreases profiles.len(),
{
    if profiles.len() > 0 {
        lemma_by_latency_len(profiles.drop_last());
        lemma_placed_len(by_latency(profiles.drop_last()), profiles.last());
    }
}

} // verus!
