//! The state of a scan for working servers, and the commands that steer it.

use crate::sources::{merge_source_urls, merged_urls};
use crate::text::{clone_opt, clone_texts, lemma_texts_push, opt_text, texts};
use vstd::prelude::*;
use vstd::string::*;

verus! {

/// How many lines of the log are kept.
pub const MAX_LINES: usize = 320;

/// A server that was found to work.
pub struct ServerProfile {
    pub id: String,
    pub uri: String,
    pub label: String,
    pub host: String,
    pub port: u16,
    pub latency_ms: u128,
    pub network: String,
    pub security: String,
}

/// A server that was found to work, as mathematical values.
pub struct ProfileModel {
    pub id: Seq<char>,
    pub uri: Seq<char>,
    pub label: Seq<char>,
    pub host: Seq<char>,
    pub port: u16,
    pub latency_ms: u128,
    pub network: Seq<char>,
    pub security: Seq<char>,
}

impl View for ServerProfile {
    type V = ProfileModel;

    open spec fn view(&self) -> ProfileModel {
        ProfileModel {
            id: self.id@,
            uri: self.uri@,
            label: self.label@,
            host: self.host@,
            port: self.port,
            latency_ms: self.latency_ms,
            network: self.network@,
            security: self.security@,
        }
    }
}

impl Clone for ServerProfile {
    fn clone(&self) -> (copy: Self)
        ensures
            copy@ == self@,
    {
        ServerProfile {
            id: self.id.clone(),
            uri: self.uri.clone(),
            label: self.label.clone(),
            host: self.host.clone(),
            port: self.port,
            latency_ms: self.latency_ms,
            network: self.network.clone(),
            security: self.security.clone(),
        }
    }
}

/// The views of a list of servers.
pub open spec fn profile_models(profiles: Seq<ServerProfile>) -> Seq<ProfileModel> {
    profiles.map_values(|profile: ServerProfile| profile@)
}

/// The view of a list grows by the view of what is pushed.
pub proof fn lemma_profiles_push(profiles: Seq<ServerProfile>, profile: ServerProfile)
    ensures
        profile_models(profiles.push(profile)) == profile_models(profiles).push(profile@),
{
    assert(profile_models(profiles.push(profile)) =~= profile_models(profiles).push(profile@));
}

/// A copy of a list of servers.
pub fn clone_profiles(profiles: &Vec<ServerProfile>) -> (copy: Vec<ServerProfile>)
    ensures
        profile_models(copy@) == profile_models(profiles@),
{
    let mut copy: Vec<ServerProfile> = Vec::new();
    let mut i: usize = 0;
    let ghost all = profile_models(profiles@);
    assert(profile_models(copy@) =~= all.take(0));
    while i < profiles.len()
        invariant
            i <= profiles.len(),
            all == profile_models(profiles@),
            profile_models(copy@) == all.take(i as int),
        decreases profiles.len() - i,
    {
        let profile = profiles[i].clone();
        proof {
            lemma_profiles_push(copy@, profile);
            assert(all.take(i + 1) =~= all.take(i as int).push(profile@));
        }
        copy.push(profile);
        i += 1;
    }
    assert(all.take(i as int) =~= all);
    copy
}

/// The state of a scan.
pub struct ScanState {
    pub lines: Vec<String>,
    pub profiles: Vec<ServerProfile>,
    pub scanned_count: usize,
    pub working_count: usize,
    pub total_count: usize,
    pub source_count: usize,
    pub is_scanning: bool,
    pub is_paused: bool,
    pub error: Option<String>,
}

/// What is shown of the state of a scan.
pub struct ScanSnapshot {
    pub lines: Vec<String>,
    pub profiles: Vec<ServerProfile>,
    pub scanned_count: usize,
    pub working_count: usize,
    pub total_count: usize,
    pub source_count: usize,
    pub is_scanning: bool,
    pub is_paused: bool,
    pub error: Option<String>,
}

/// The state of a scan, as mathematical values.
pub struct ScanModel {
    pub lines: Seq<Seq<char>>,
    pub profiles: Seq<ProfileModel>,
    pub scanned_count: nat,
    pub working_count: nat,
    pub total_count: nat,
    pub source_count: nat,
    pub is_scanning: bool,
    pub is_paused: bool,
    pub error: Option<Seq<char>>,
}

impl View for ScanState {
    type V = ScanModel;

    open spec fn view(&self) -> ScanModel {
        ScanModel {
            lines: texts(self.lines@),
            profiles: profile_models(self.profiles@),
            scanned_count: self.scanned_count as nat,
            working_count: self.working_count as nat,
            total_count: self.total_count as nat,
            source_count: self.source_count as nat,
            is_scanning: self.is_scanning,
            is_paused: self.is_paused,
            error: opt_text(self.error),
        }
    }
}

impl View for ScanSnapshot {
    type V = ScanModel;

    open spec fn view(&self) -> ScanModel {
        ScanModel {
            lines: texts(self.lines@),
            profiles: profile_models(self.profiles@),
            scanned_count: self.scanned_count as nat,
            working_count: self.working_count as nat,
            total_count: self.total_count as nat,
            source_count: self.source_count as nat,
            is_scanning: self.is_scanning,
            is_paused: self.is_paused,
            error: opt_text(self.error),
        }
    }
}

/// The state before any scan.
pub open spec fn no_scan() -> ScanModel {
    ScanModel {
        lines: Seq::empty(),
        profiles: Seq::empty(),
        scanned_count: 0,
        working_count: 0,
        total_count: 0,
        source_count: 0,
        is_scanning: false,
        is_paused: false,
        error: None,
    }
}

/// The last `limit` items of a sequence.
pub open spec fn most_recent(items: Seq<Seq<char>>, limit: nat) -> Seq<Seq<char>> {
    if items.len() > limit {
        items.skip(items.len() - limit)
    } else {
        items
    }
}

/// The state with one more line in its log, of which the most recent lines are kept.
pub open spec fn with_line(state: ScanModel, line: Seq<char>) -> ScanModel {
    ScanModel { lines: most_recent(state.lines.push(line), MAX_LINES as nat), ..state }
}

/// The state with one more probe counted, and its outcome logged.
pub open spec fn with_result(state: ScanModel, line: Seq<char>, success: bool) -> ScanModel {
    ScanModel {
        scanned_count: state.scanned_count + 1,
        working_count: if success {
            state.working_count + 1
        } else {
            state.working_count
        },
        ..with_line(state, line)
    }
}

impl Default for ScanState {
    fn default() -> (state: Self)
        ensures
            state@ == no_scan(),
    {
        let state = ScanState {
            lines: Vec::new(),
            profiles: Vec::new(),
            scanned_count: 0,
            working_count: 0,
            total_count: 0,
            source_count: 0,
            is_scanning: false,
            is_paused: false,
            error: None,
        };
        assert(texts(state.lines@) =~= Seq::empty());
        assert(profile_models(state.profiles@) =~= Seq::empty());
        state
    }
}

impl ScanState {
    /// What is shown of the state.
    pub fn snapshot(&self) -> (snapshot: ScanSnapshot)
        ensures
            snapshot@ == self@,
    {
        ScanSnapshot {
            lines: clone_texts(&self.lines),
            profiles: clone_profiles(&self.profiles),
            scanned_count: self.scanned_count,
            working_count: self.working_count,
            total_count: self.total_count,
            source_count: self.source_count,
            is_scanning: self.is_scanning,
            is_paused: self.is_paused,
            error: clone_opt(&self.error),
        }
    }
}

/// Adds a line to the log of the scan.
pub fn push_debug_line(state: &mut ScanState, line: String)
    ensures
        final(state)@ == with_line(old(state)@, line@),
{
    let ghost all = texts(state.lines@).push(line@);
    proof {
        lemma_texts_push(state.lines@, line);
    }
    state.lines.push(line);
    assert(texts(state.lines@) =~= all.skip(0));
    let ghost mut dropped: int = 0;
    while state.lines.len() > MAX_LINES
        invariant
            0 <= dropped <= all.len(),
            texts(state.lines@) == all.skip(dropped),
            all.len() > MAX_LINES ==> dropped <= all.len() - MAX_LINES,
            all.len() <= MAX_LINES ==> dropped == 0,
            state@ == (ScanModel { lines: texts(state.lines@), ..old(state)@ }),
        decreases state.lines.len(),
    {
        let ghost before = state.lines@;
        assert(texts(before).len() == before.len());
        state.lines.remove(0);
        assert(texts(state.lines@) =~= texts(before).skip(1));
        assert(all.skip(dropped).skip(1) =~= all.skip(dropped + 1));
        proof {
            dropped = dropped + 1;
        }
    }
    assert(texts(state.lines@).len() == state.lines.len());
    assert(all.skip(0) =~= all);
}

/// Counts a probe and adds its outcome to the log of the scan.
pub fn note_test_result(state: &mut ScanState, line: String, success: bool)
    requires
        old(state).scanned_count < usize::MAX,
        success ==> old(state).working_count < usize::MAX,
    ensures
        final(state)@ == with_result(old(state)@, line@, success),
{
    state.scanned_count += 1;
    if success {
        state.working_count += 1;
    }
    push_debug_line(state, line);
}

/// The switches by which a running scan is steered.
#[derive(Clone, Copy, Debug, PartialEq, Eq, Structural)]
pub struct ScanControl {
    pub cancelled: bool,
    pub paused: bool,
}

impl ScanControl {
    /// A control with both switches off.
    pub fn new() -> (control: Self)
        ensures
            control == (ScanControl { cancelled: false, paused: false }),
    {
        ScanControl { cancelled: false, paused: false }
    }

    /// Turns both switches off. The result tells whether those who wait for a change are to
    /// be woken.
    pub fn reset(&mut self) -> (wake: bool)
        ensures
            *final(self) == (ScanControl { cancelled: false, paused: false }),
            wake,
    {
        self.cancelled = false;
        self.paused = false;
        true
    }

    /// Cancels the scan, paused or not. The result tells whether those who wait for a change
    /// are to be woken.
    pub fn cancel(&mut self) -> (wake: bool)
        ensures
            *final(self) == (ScanControl { cancelled: true, paused: false }),
            wake,
    {
        self.cancelled = true;
        self.paused = false;
        true
    }

    /// Pauses the scan. The result tells whether those who wait for a change are to be woken.
    pub fn pause(&mut self) -> (wake: bool)
        ensures
            *final(self) == (ScanControl { paused: true, ..*old(self) }),
            !wake,
    {
        self.paused = true;
        false
    }

    /// Lets the scan go on. The result tells whether those who wait for a change are to be
    /// woken.
    pub fn resume(&mut self) -> (wake: bool)
        ensures
            *final(self) == (ScanControl { paused: false, ..*old(self) }),
            wake,
    {
        self.paused = false;
        true
    }

    /// Tells whether the scan is cancelled.
    pub fn is_cancelled(&self) -> (cancelled: bool)
        ensures
            cancelled == self.cancelled,
    {
        self.cancelled
    }

    /// Tells whether the scan is paused.
    pub fn is_paused(&self) -> (paused: bool)
        ensures
            paused == self.paused,
    {
        self.paused
    }
}

/// A scan with the means to steer it.
pub struct ScanRuntime {
    pub state: ScanState,
    pub control: ScanControl,
    /// Tells whether a task runs the scan.
    pub task: bool,
}

/// A scan with the means to steer it, as mathematical values.
pub struct RuntimeModel {
    pub state: ScanModel,
    pub control: ScanControl,
    pub task: bool,
}

impl View for ScanRuntime {
    type V = RuntimeModel;

    open spec fn view(&self) -> RuntimeModel {
        RuntimeModel { state: self.state@, control: self.control, task: self.task }
    }
}

/// What is left to do once a scan was told to stop.
#[derive(Clone, Copy, Debug, PartialEq, Eq, Structural)]
pub struct TaskStop {
    /// Those who wait for a change of the control are to be woken.
    pub wake: bool,
    /// The task that runs the scan is to be aborted.
    pub abort: bool,
}

/// What is left to do once a scan was started.
pub struct ScanStart {
    /// Those who wait for a change of the control are to be woken.
    pub wake: bool,
    /// The task that ran the scan before is to be aborted.
    pub abort: bool,
    /// The lists that the new task has to read.
    pub sources: Vec<String>,
    /// What is shown of the scan at its start.
    pub snapshot: ScanSnapshot,
}

/// The runtime whose task was told to stop.
pub open spec fn task_stopped(runtime: RuntimeModel) -> RuntimeModel {
    RuntimeModel {
        control: ScanControl { cancelled: true, paused: false },
        task: false,
        ..runtime
    }
}

/// The runtime after the command to pause.
pub open spec fn paused(runtime: RuntimeModel) -> RuntimeModel {
    RuntimeModel {
        state: ScanModel { is_paused: true, ..runtime.state },
        control: ScanControl { paused: true, ..runtime.control },
        ..runtime
    }
}

/// The runtime after the command to go on.
pub open spec fn resumed(runtime: RuntimeModel) -> RuntimeModel {
    RuntimeModel {
        state: ScanModel { is_paused: false, ..runtime.state },
        control: ScanControl { paused: false, ..runtime.control },
        ..runtime
    }
}

/// The runtime after the command to stop.
pub open spec fn stopped(runtime: RuntimeModel) -> RuntimeModel {
    RuntimeModel {
        state: ScanModel {
            is_scanning: false,
            is_paused: false,
            error: Some("Scan stopped"@),
            ..runtime.state
        },
        ..task_stopped(runtime)
    }
}

/// The runtime at the start of a scan of so many lists.
pub open spec fn started(source_count: nat) -> RuntimeModel {
    RuntimeModel {
        state: ScanModel { is_scanning: true, source_count, ..no_scan() },
        control: ScanControl { cancelled: false, paused: false },
        task: true,
    }
}

/// The runtime after its task came to an end.
pub open spec fn ended(runtime: RuntimeModel, error: Option<Seq<char>>) -> RuntimeModel {
    RuntimeModel {
        state: ScanModel {
            is_scanning: false,
            is_paused: false,
            error: if error is Some {
                error
            } else {
                runtime.state.error
            },
            ..runtime.state
        },
        task: false,
        ..runtime
    }
}

impl ScanRuntime {
    /// A runtime that runs no scan.
    pub fn new() -> (runtime: Self)
        ensures
            runtime@ == (RuntimeModel {
                state: no_scan(),
                control: ScanControl { cancelled: false, paused: false },
                task: false,
            }),
    {
        ScanRuntime { state: ScanState::default(), control: ScanControl::new(), task: false }
    }

    /// What is shown of the scan.
    pub fn snapshot(&self) -> (snapshot: ScanSnapshot)
        ensures
            snapshot@ == self@.state,
    {
        self.state.snapshot()
    }

    /// Forgets what was scanned.
    pub fn reset(&mut self)
        ensures
            final(self)@ == (RuntimeModel { state: no_scan(), ..old(self)@ }),
    {
        self.state = ScanState::default();
    }

    /// Tells the task that runs the scan to stop.
    pub fn stop_task(&mut self) -> (stop: TaskStop)
        ensures
            final(self)@ == task_stopped(old(self)@),
            stop == (TaskStop { wake: true, abort: old(self)@.task }),
    {
        let wake = self.control.cancel();
        let abort = self.task;
        self.task = false;
        TaskStop { wake, abort }
    }
}

/// What is shown where the state of the scan cannot be read.
pub fn unreadable_snapshot() -> (snapshot: ScanSnapshot)
    ensures
        snapshot@ == no_scan(),
{
    ScanState::default().snapshot()
}

/// The command to pause the scan. The result tells whether those who wait for a change of the
/// control are to be woken.
pub fn pause_scan(runtime: &mut ScanRuntime) -> (wake: bool)
    ensures
        final(runtime)@ == paused(old(runtime)@),
        !wake,
{
    let wake = runtime.control.pause();
    runtime.state.is_paused = true;
    wake
}

/// The command to go on with the scan. The result tells whether those who wait for a change
/// of the control are to be woken.
pub fn resume_scan(runtime: &mut ScanRuntime) -> (wake: bool)
    ensures
        final(runtime)@ == resumed(old(runtime)@),
        wake,
{
    let wake = runtime.control.resume();
    runtime.state.is_paused = false;
    wake
}

/// The command to stop the scan.
pub fn stop_scan(runtime: &mut ScanRuntime) -> (stop: TaskStop)
    ensures
        final(runtime)@ == stopped(old(runtime)@),
        stop == (TaskStop { wake: true, abort: old(runtime)@.task }),
{
    let stop = runtime.stop_task();
    runtime.state.is_scanning = false;
    runtime.state.is_paused = false;
    runtime.state.error = Some("Scan stopped".to_owned());
    stop
}

/// The command to show the scan.
pub fn get_scan_snapshot(runtime: &ScanRuntime) -> (snapshot: ScanSnapshot)
    ensures
        snapshot@ == runtime@.state,
{
    runtime.snapshot()
}

/// The command to start a scan: stops the one that runs, forgets what it found, and begins
/// anew with the given lists.
pub fn start_scan_inner(runtime: &mut ScanRuntime, source_urls: Vec<String>) -> (start: ScanStart)
    ensures
        final(runtime)@ == started(source_urls@.len()),
        start.wake,
        start.abort == old(runtime)@.task,
        texts(start.sources@) == merged_urls(texts(source_urls@)),
        start.snapshot@ == final(runtime)@.state,
{
    let stop = runtime.stop_task();
    runtime.reset();
    let wake = runtime.control.reset();
    runtime.state.is_scanning = true;
    runtime.state.source_count = source_urls.len();
    let sources = merge_source_urls(source_urls);
    runtime.task = true;
    ScanStart { wake: stop.wake || wake, abort: stop.abort, sources, snapshot: runtime.snapshot() }
}

/// Notes that the task that ran the scan came to an end, with an error or without.
pub fn end_scan(runtime: &mut ScanRuntime, result: Result<(), String>)
    ensures
        final(runtime)@ == ended(
            old(runtime)@,
            match result {
                Ok(_) => None,
                Err(error) => Some(error@),
            },
        ),
{
    runtime.state.is_scanning = false;
    runtime.state.is_paused = false;
    if let Err(error) = result {
        runtime.state.error = Some(error);
    }
    runtime.task = false;
}

} // verus!
