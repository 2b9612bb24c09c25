//! The watch session: a cancelable, optionally repeating cycle of
//! locate, gate, inject and wait-for-exit.
//!
//! The cycle is a state machine. The worker that runs it performs the
//! action that the machine asks for, hands back what came of it as an
//! event, and takes the next action. Every decision is made here; the
//! worker only waits, scans and injects.

use vstd::prelude::*;
use vstd::string::*;

use crate::provision::HachimiVersion;
use crate::text::{decimal, decimal_string};

verus! {

/// Pause between two scans for the process, in milliseconds.
pub const LOCATE_RETRY_MS: u64 = 500;

/// Pause between two scans for a visible window, in milliseconds.
pub const WINDOW_RETRY_MS: u64 = 500;

/// Default longest wait for the process to become idle, in milliseconds.
pub const IDLE_TIMEOUT_MS: u32 = 10000;

/// Default pause after the idle wait, before the first injection, in
/// milliseconds: it absorbs start-up work that neither the window nor the
/// idle wait shows.
pub const SETTLE_MS: u64 = 1000;

/// Length of one wait for the process to exit, in milliseconds.
pub const EXIT_POLL_MS: u32 = 500;

/// Which release of the game to watch for.
#[derive(PartialEq, Eq, Structural, Clone, Copy, Debug)]
pub enum GameVersion {
    Global,
    Japanese,
}

pub open spec fn process_name_of(g: GameVersion) -> Seq<char> {
    match g {
        GameVersion::Global => "UmamusumePrettyDerby.exe"@,
        GameVersion::Japanese => "umamusume.exe"@,
    }
}

impl GameVersion {
    /// The executable name of the game's process.
    pub fn process_name(&self) -> (r: &'static str)
        ensures
            r@ == process_name_of(*self),
    {
        match self {
            GameVersion::Global => "UmamusumePrettyDerby.exe",
            GameVersion::Japanese => "umamusume.exe",
        }
    }
}

// ---------------------------------------------------------------------------
// Status texts
// ---------------------------------------------------------------------------

pub open spec fn idle_text() -> Seq<char> {
    "Idle"@
}

pub open spec fn starting_text() -> Seq<char> {
    "Watching for Umamusume..."@
}

pub open spec fn downloading_text(v: HachimiVersion) -> Seq<char> {
    match v {
        HachimiVersion::Original => "Downloading latest Hachimi..."@,
        HachimiVersion::Edge => "Downloading latest Hachimi Edge..."@,
    }
}

pub open spec fn download_failed_text(reason: Seq<char>) -> Seq<char> {
    "Download failed: "@ + reason
}

pub open spec fn watching_text(g: GameVersion) -> Seq<char> {
    "Watching for "@ + process_name_of(g) + "..."@
}

pub open spec fn process_found_text() -> Seq<char> {
    "Process found! Waiting for window..."@
}

pub open spec fn waiting_idle_text() -> Seq<char> {
    "Waiting for process to become idle..."@
}

pub open spec fn injected_text(succeeded: nat, attempted: nat) -> Seq<char> {
    "Injected "@ + decimal(succeeded) + "/"@ + decimal(attempted) + " DLLs"@
}

pub open spec fn waiting_exit_text() -> Seq<char> {
    "Injected. Waiting for process to exit..."@
}

pub open spec fn stopping_text() -> Seq<char> {
    "Stopping..."@
}

fn downloading_string(v: HachimiVersion) -> (r: String)
    ensures
        r@ == downloading_text(v),
{
    match v {
        HachimiVersion::Original => String::from_str("Downloading latest Hachimi..."),
        HachimiVersion::Edge => String::from_str("Downloading latest Hachimi Edge..."),
    }
}

fn download_failed_string(reason: &String) -> (r: String)
    ensures
        r@ == download_failed_text(reason@),
{
    String::from_str("Download failed: ").concat(reason.as_str())
}

fn watching_string(g: GameVersion) -> (r: String)
    ensures
        r@ == watching_text(g),
{
    String::from_str("Watching for ").concat(g.process_name()).concat("...")
}

/// The status shown once a cycle has tried every library.
pub fn injected_string(succeeded: usize, attempted: usize) -> (r: String)
    ensures
        r@ == injected_text(succeeded as nat, attempted as nat),
{
    let s = decimal_string(succeeded);
    let t = decimal_string(attempted);
    String::from_str("Injected ").concat(s.as_str()).concat("/").concat(t.as_str()).concat(" DLLs")
}


// ---------------------------------------------------------------------------
// Shared watch state
// ---------------------------------------------------------------------------

/// The state that the worker writes and the control surface reads.
///
/// `should_stop` only ever goes from `false` to `true` within one session:
/// no step of the session clears it.
pub struct WatchState {
    pub is_watching: bool,
    pub status: String,
    pub should_stop: bool,
}

pub struct WatchModel {
    pub is_watching: bool,
    pub status: Seq<char>,
    pub should_stop: bool,
}

impl View for WatchState {
    type V = WatchModel;

    open spec fn view(&self) -> WatchModel {
        WatchModel { is_watching: self.is_watching, status: self.status@, should_stop: self.should_stop }
    }
}

pub open spec fn started(w: WatchModel) -> WatchModel {
    WatchModel { is_watching: true, status: starting_text(), should_stop: false }
}

pub open spec fn stopped(w: WatchModel) -> WatchModel {
    WatchModel { is_watching: false, status: stopping_text(), should_stop: true }
}

impl WatchState {
    /// A state with no session running.
    pub fn new() -> (r: WatchState)
        ensures
            r@ == (WatchModel { is_watching: false, status: idle_text(), should_stop: false }),
    {
        WatchState { is_watching: false, status: String::from_str("Idle"), should_stop: false }
    }

    /// Marks a new session as running.
    pub fn start(&mut self)
        ensures
            final(self)@ == started(old(self)@),
    {
        self.is_watching = true;
        self.should_stop = false;
        self.status = String::from_str("Watching for Umamusume...");
    }

    /// Asks the running session, if any, to end at its next checkpoint.
    pub fn stop(&mut self)
        ensures
            final(self)@ == stopped(old(self)@),
    {
        self.should_stop = true;
        self.is_watching = false;
        self.status = String::from_str("Stopping...");
    }
}

// ---------------------------------------------------------------------------
// The session machine
// ---------------------------------------------------------------------------

/// Where a session stands: each phase waits for the outcome of one action.
#[derive(PartialEq, Eq, Structural, Clone, Copy, Debug)]
pub enum Phase {
    Provisioning(HachimiVersion),
    ProvisionFailed(HachimiVersion),
    Locating,
    LocateBackoff,
    WindowWaiting,
    WindowBackoff,
    IdleWaiting,
    Settling,
    Injecting(usize),
    ExitWaiting,
    Done,
    Stopped,
}

/// What the worker is asked to do next.
#[derive(PartialEq, Eq, Structural, Clone, Copy, Debug)]
pub enum Action {
    /// Obtain a path to the given build of the library.
    Provision(HachimiVersion),
    /// Tell the user that the given build could not be provisioned; the
    /// status holds the reason. The session goes on without it.
    ReportProvisionFailure(HachimiVersion),
    /// Scan the process list once for the game's process.
    FindProcess(GameVersion),
    /// Scan the top-level windows once for a visible window of the process.
    CheckWindow,
    /// Sleep for the given number of milliseconds.
    Sleep(u64),
    /// Wait, at most the given number of milliseconds, for the process to idle.
    WaitInputIdle(u32),
    /// Inject the library at this index of the session's queue.
    Inject(usize),
    /// Wait, at most the given number of milliseconds, for the process to exit.
    WaitExit(u32),
    /// End the worker.
    Finish,
}

/// What came of the last action.
pub enum Event {
    Provisioned(Result<String, String>),
    Reported,
    ProcessFound(bool),
    WindowFound(bool),
    Slept,
    IdleWaitEnded,
    Injected(bool),
    ProcessExited(bool),
}

/// The worker's side of one watch session.
pub struct Session {
    pub phase: Phase,
    pub hachimi: bool,
    pub hachimi_edge: bool,
    pub game_version: GameVersion,
    pub custom_dlls: Vec<String>,
    pub auto_restart: bool,
    pub idle_timeout_ms: u32,
    pub settle_ms: u64,
    /// Paths of the libraries provisioned at the start of the session.
    pub downloaded: Vec<String>,
    /// The libraries of the current cycle, in the order they are injected.
    pub queue: Vec<String>,
    /// How many libraries of the current cycle loaded so far.
    pub succeeded: usize,
}

pub struct SessionModel {
    pub phase: Phase,
    pub hachimi: bool,
    pub hachimi_edge: bool,
    pub game: GameVersion,
    pub custom: Seq<Seq<char>>,
    pub auto_restart: bool,
    pub idle_timeout_ms: u32,
    pub settle_ms: u64,
    pub downloaded: Seq<Seq<char>>,
    pub queue: Seq<Seq<char>>,
    pub succeeded: nat,
}

impl View for Session {
    type V = SessionModel;

    open spec fn view(&self) -> SessionModel {
        SessionModel {
            phase: self.phase,
            hachimi: self.hachimi,
            hachimi_edge: self.hachimi_edge,
            game: self.game_version,
            custom: self.custom_dlls.deep_view(),
            auto_restart: self.auto_restart,
            idle_timeout_ms: self.idle_timeout_ms,
            settle_ms: self.settle_ms,
            downloaded: self.downloaded.deep_view(),
            queue: self.queue.deep_view(),
            succeeded: self.succeeded as nat,
        }
    }
}

impl SessionModel {
    /// The counters agree with the queue.
    pub open spec fn wf(self) -> bool {
        match self.phase {
            Phase::Injecting(i) => i < self.queue.len() && self.succeeded <= i,
            _ => self.succeeded <= self.queue.len(),
        }
    }
}

/// The action that a session in this state asks for.
pub open spec fn action_of(s: SessionModel) -> Action {
    match s.phase {
        Phase::Provisioning(v) => Action::Provision(v),
        Phase::ProvisionFailed(v) => Action::ReportProvisionFailure(v),
        Phase::Locating => Action::FindProcess(s.game),
        Phase::LocateBackoff => Action::Sleep(LOCATE_RETRY_MS),
        Phase::WindowWaiting => Action::CheckWindow,
        Phase::WindowBackoff => Action::Sleep(WINDOW_RETRY_MS),
        Phase::IdleWaiting => Action::WaitInputIdle(s.idle_timeout_ms),
        Phase::Settling => Action::Sleep(s.settle_ms),
        Phase::Injecting(i) => Action::Inject(i),
        Phase::ExitWaiting => Action::WaitExit(EXIT_POLL_MS),
        Phase::Done => Action::Finish,
        Phase::Stopped => Action::Finish,
    }
}

pub open spec fn with_phase(s: SessionModel, p: Phase) -> SessionModel {
    SessionModel { phase: p, ..s }
}

pub open spec fn with_status(w: WatchModel, t: Seq<char>) -> WatchModel {
    WatchModel { status: t, ..w }
}

/// A polling checkpoint: a stop request ends the session here, before the
/// phase's action is taken.
pub open spec fn checkpoint(s: SessionModel, w: WatchModel, p: Phase) -> (SessionModel, WatchModel) {
    if w.should_stop {
        (with_phase(s, Phase::Stopped), w)
    } else {
        (with_phase(s, p), w)
    }
}

/// The top of a cycle: announce the process being watched for, then scan.
pub open spec fn enter_cycle(s: SessionModel, w: WatchModel) -> (SessionModel, WatchModel) {
    checkpoint(s, with_status(w, watching_text(s.game)), Phase::Locating)
}

/// After the original build: the edge build if asked for, else the cycle.
pub open spec fn after_original(s: SessionModel, w: WatchModel) -> (SessionModel, WatchModel) {
    if s.hachimi_edge {
        (
            with_phase(s, Phase::Provisioning(HachimiVersion::Edge)),
            with_status(w, downloading_text(HachimiVersion::Edge)),
        )
    } else {
        enter_cycle(s, w)
    }
}

/// After the build `v` was provisioned, or its failure reported.
pub open spec fn after_provision(v: HachimiVersion, s: SessionModel, w: WatchModel) -> (
    SessionModel,
    WatchModel,
) {
    if v == HachimiVersion::Original {
        after_original(s, w)
    } else {
        enter_cycle(s, w)
    }
}

/// The first step of a session.
pub open spec fn begin(s: SessionModel, w: WatchModel) -> (SessionModel, WatchModel) {
    if s.hachimi {
        (
            with_phase(s, Phase::Provisioning(HachimiVersion::Original)),
            with_status(w, downloading_text(HachimiVersion::Original)),
        )
    } else {
        after_original(s, w)
    }
}

/// The end of the injection phase of a cycle.
pub open spec fn finish_cycle(s: SessionModel, w: WatchModel) -> (SessionModel, WatchModel) {
    let w1 = with_status(w, injected_text(s.succeeded, s.queue.len()));
    if !s.auto_restart {
        (with_phase(s, Phase::Done), WatchModel { is_watching: false, ..w1 })
    } else {
        checkpoint(s, with_status(w1, waiting_exit_text()), Phase::ExitWaiting)
    }
}

/// Injects the library at index `i` of the queue, or ends the phase.
pub open spec fn enter_inject(s: SessionModel, w: WatchModel, i: nat) -> (SessionModel, WatchModel) {
    if i < s.queue.len() {
        (with_phase(s, Phase::Injecting(i as usize)), w)
    } else {
        finish_cycle(s, w)
    }
}

/// The provisioned libraries come first, then the user's own.
pub open spec fn cycle_queue(s: SessionModel) -> Seq<Seq<char>> {
    s.downloaded + s.custom
}

/// How a session moves on an event. An event that does not answer the
/// pending action leaves everything as it is.
pub open spec fn next(s: SessionModel, w: WatchModel, e: Event) -> (SessionModel, WatchModel) {
    match s.phase {
        Phase::Provisioning(v) => match e {
            Event::Provisioned(Ok(p)) => after_provision(
                v,
                SessionModel { downloaded: s.downloaded.push(p@), ..s },
                w,
            ),
            Event::Provisioned(Err(m)) => (
                with_phase(s, Phase::ProvisionFailed(v)),
                with_status(w, download_failed_text(m@)),
            ),
            _ => (s, w),
        },
        Phase::ProvisionFailed(v) => match e {
            Event::Reported => after_provision(v, s, w),
            _ => (s, w),
        },
        Phase::Locating => match e {
            Event::ProcessFound(true) => checkpoint(
                s,
                with_status(w, process_found_text()),
                Phase::WindowWaiting,
            ),
            Event::ProcessFound(false) => (with_phase(s, Phase::LocateBackoff), w),
            _ => (s, w),
        },
        Phase::LocateBackoff => match e {
            Event::Slept => checkpoint(s, w, Phase::Locating),
            _ => (s, w),
        },
        Phase::WindowWaiting => match e {
            Event::WindowFound(true) => (
                with_phase(s, Phase::IdleWaiting),
                with_status(w, waiting_idle_text()),
            ),
            Event::WindowFound(false) => (with_phase(s, Phase::WindowBackoff), w),
            _ => (s, w),
        },
        Phase::WindowBackoff => match e {
            Event::Slept => checkpoint(s, w, Phase::WindowWaiting),
            _ => (s, w),
        },
        Phase::IdleWaiting => match e {
            Event::IdleWaitEnded => (with_phase(s, Phase::Settling), w),
            _ => (s, w),
        },
        Phase::Settling => match e {
            Event::Slept => enter_inject(
                SessionModel { queue: cycle_queue(s), succeeded: 0, ..s },
                w,
                0,
            ),
            _ => (s, w),
        },
        Phase::Injecting(i) => match e {
            Event::Injected(ok) => enter_inject(
                SessionModel { succeeded: if ok { s.succeeded + 1 } else { s.succeeded }, ..s },
                w,
                (i + 1) as nat,
            ),
            _ => (s, w),
        },
        Phase::ExitWaiting => match e {
            Event::ProcessExited(true) => enter_cycle(s, w),
            Event::ProcessExited(false) => checkpoint(s, w, Phase::ExitWaiting),
            _ => (s, w),
        },
        Phase::Done => (s, w),
        Phase::Stopped => (s, w),
    }
}


impl Session {
    /// The action that the session asks for in its current state.
    pub fn action(&self) -> (r: Action)
        ensures
            r == action_of(self@),
    {
        match self.phase {
            Phase::Provisioning(v) => Action::Provision(v),
            Phase::ProvisionFailed(v) => Action::ReportProvisionFailure(v),
            Phase::Locating => Action::FindProcess(self.game_version),
            Phase::LocateBackoff => Action::Sleep(LOCATE_RETRY_MS),
            Phase::WindowWaiting => Action::CheckWindow,
            Phase::WindowBackoff => Action::Sleep(WINDOW_RETRY_MS),
            Phase::IdleWaiting => Action::WaitInputIdle(self.idle_timeout_ms),
            Phase::Settling => Action::Sleep(self.settle_ms),
            Phase::Injecting(i) => Action::Inject(i),
            Phase::ExitWaiting => Action::WaitExit(EXIT_POLL_MS),
            Phase::Done => Action::Finish,
            Phase::Stopped => Action::Finish,
        }
    }

    fn checkpoint_to(&mut self, shared: &WatchState, p: Phase)
        ensures
            (final(self)@, shared@) == checkpoint(old(self)@, shared@, p),
    {
        if shared.should_stop {
            self.phase = Phase::Stopped;
        } else {
            self.phase = p;
        }
    }

    fn enter_cycle(&mut self, shared: &mut WatchState)
        ensures
            (final(self)@, final(shared)@) == enter_cycle(old(self)@, old(shared)@),
    {
        shared.status = watching_string(self.game_version);
        self.checkpoint_to(shared, Phase::Locating);
    }

    fn after_original(&mut self, shared: &mut WatchState)
        ensures
            (final(self)@, final(shared)@) == after_original(old(self)@, old(shared)@),
    {
        if self.hachimi_edge {
            self.phase = Phase::Provisioning(HachimiVersion::Edge);
            shared.status = downloading_string(HachimiVersion::Edge);
        } else {
            self.enter_cycle(shared);
        }
    }

    fn after_provision(&mut self, v: HachimiVersion, shared: &mut WatchState)
        ensures
            (final(self)@, final(shared)@) == after_provision(v, old(self)@, old(shared)@),
    {
        if v == HachimiVersion::Original {
            self.after_original(shared);
        } else {
            self.enter_cycle(shared);
        }
    }

    fn finish_cycle(&mut self, shared: &mut WatchState)
        ensures
            (final(self)@, final(shared)@) == finish_cycle(old(self)@, old(shared)@),
    {
        shared.status = injected_string(self.succeeded, self.queue.len());
        if !self.auto_restart {
            self.phase = Phase::Done;
            shared.is_watching = false;
        } else {
            shared.status = String::from_str("Injected. Waiting for process to exit...");
            self.checkpoint_to(shared, Phase::ExitWaiting);
        }
    }

    fn enter_inject(&mut self, shared: &mut WatchState, i: usize)
        ensures
            (final(self)@, final(shared)@) == enter_inject(old(self)@, old(shared)@, i as nat),
    {
        if i < self.queue.len() {
            self.phase = Phase::Injecting(i);
        } else {
            self.finish_cycle(shared);
        }
    }

    fn build_queue(&self) -> (r: Vec<String>)
        ensures
            r.deep_view() == cycle_queue(self@),
    {
        let mut q: Vec<String> = Vec::new();
        let mut i: usize = 0;
        while i < self.downloaded.len()
            invariant
                i <= self.downloaded.len(),
                q@.len() == i,
                q.deep_view() =~= self.downloaded.deep_view().subrange(0, i as int),
            decreases self.downloaded.len() - i,
        {
            let c = self.downloaded[i].clone();
            let ghost before = q@;
            q.push(c);
            assert(q@ =~= before.push(c));
            assert(q.deep_view()[i as int] == self.downloaded.deep_view()[i as int]);
            i = i + 1;
            assert(q.deep_view() =~= self.downloaded.deep_view().subrange(0, i as int));
        }
        let mut j: usize = 0;
        while j < self.custom_dlls.len()
            invariant
                j <= self.custom_dlls.len(),
                q@.len() == self.downloaded@.len() + j,
                q.deep_view() =~= self.downloaded.deep_view() + self.custom_dlls.deep_view().subrange(
                    0,
                    j as int,
                ),
            decreases self.custom_dlls.len() - j,
        {
            let c = self.custom_dlls[j].clone();
            let ghost before = q@;
            let ghost dv_before = q.deep_view();
            q.push(c);
            assert(q@ =~= before.push(c));
            assert(q.deep_view() =~= dv_before.push(self.custom_dlls.deep_view()[j as int]));
            j = j + 1;
            assert(q.deep_view() =~= self.downloaded.deep_view() + self.custom_dlls.deep_view().subrange(
                0,
                j as int,
            ));
        }
        assert(q.deep_view() =~= cycle_queue(self@));
        q
    }

    /// Moves the session on the outcome of its last action and returns the
    /// next action.
    pub fn step(&mut self, shared: &mut WatchState, event: Event) -> (r: Action)
        requires
            old(self)@.wf(),
        ensures
            (final(self)@, final(shared)@) == next(old(self)@, old(shared)@, event),
            final(self)@.wf(),
            r == action_of(final(self)@),
    {
        match self.phase {
            Phase::Provisioning(v) => {
                if let Event::Provisioned(res) = event {
                    match res {
                        Ok(p) => {
                            let ghost before = self.downloaded.deep_view();
                            self.downloaded.push(p);
                            assert(self.downloaded.deep_view() =~= before.push(p@));
                            self.after_provision(v, shared);
                        },
                        Err(m) => {
                            self.phase = Phase::ProvisionFailed(v);
                            shared.status = download_failed_string(&m);
                        },
                    }
                }
            },
            Phase::ProvisionFailed(v) => {
                if let Event::Reported = event {
                    self.after_provision(v, shared);
                }
            },
            Phase::Locating => {
                if let Event::ProcessFound(found) = event {
                    if found {
                        shared.status = String::from_str("Process found! Waiting for window...");
                        self.checkpoint_to(shared, Phase::WindowWaiting);
                    } else {
                        self.phase = Phase::LocateBackoff;
                    }
                }
            },
            Phase::LocateBackoff => {
                if let Event::Slept = event {
                    self.checkpoint_to(shared, Phase::Locating);
                }
            },
            Phase::WindowWaiting => {
                if let Event::WindowFound(found) = event {
                    if found {
                        self.phase = Phase::IdleWaiting;
                        shared.status = String::from_str("Waiting for process to become idle...");
                    } else {
                        self.phase = Phase::WindowBackoff;
                    }
                }
            },
            Phase::WindowBackoff => {
                if let Event::Slept = event {
                    self.checkpoint_to(shared, Phase::WindowWaiting);
                }
            },
            Phase::IdleWaiting => {
                if let Event::IdleWaitEnded = event {
                    self.phase = Phase::Settling;
                }
            },
            Phase::Settling => {
                if let Event::Slept = event {
                    self.queue = self.build_queue();
                    self.succeeded = 0;
                    self.enter_inject(shared, 0);
                }
            },
            Phase::Injecting(i) => {
                if let Event::Injected(ok) = event {
                    let n = self.queue.len();
                    assert(i < n);
                    if ok {
                        self.succeeded = self.succeeded + 1;
                    }
                    self.enter_inject(shared, i + 1);
                }
            },
            Phase::ExitWaiting => {
                if let Event::ProcessExited(exited) = event {
                    if exited {
                        self.enter_cycle(shared);
                    } else {
                        self.checkpoint_to(shared, Phase::ExitWaiting);
                    }
                }
            },
            Phase::Done => {},
            Phase::Stopped => {},
        }
        self.action()
    }
}


fn copy_strings(v: &Vec<String>) -> (r: Vec<String>)
    ensures
        r.deep_view() == v.deep_view(),
{
    let mut r: Vec<String> = Vec::new();
    let mut i: usize = 0;
    while i < v.len()
        invariant
            i <= v.len(),
            r@.len() == i,
            r.deep_view() =~= v.deep_view().subrange(0, i as int),
        decreases v.len() - i,
    {
        let c = v[i].clone();
        let ghost dv_before = r.deep_view();
        let ghost before = r@;
        r.push(c);
        assert(r@ =~= before.push(c));
        assert(r.deep_view() =~= dv_before.push(v.deep_view()[i as int]));
        i = i + 1;
    }
    assert(r.deep_view() =~= v.deep_view());
    r
}

// ---------------------------------------------------------------------------
// The control surface
// ---------------------------------------------------------------------------

/// The control surface's settings and the status it last read.
pub struct TamamoApp {
    pub hachimi_enabled: bool,
    pub hachimi_edge_enabled: bool,
    pub game_version: GameVersion,
    pub custom_dlls: Vec<String>,
    pub auto_restart: bool,
    /// Longest wait for the process to become idle, in milliseconds.
    pub idle_timeout_ms: u32,
    /// Pause after the idle wait, before the first injection, in milliseconds.
    pub settle_ms: u64,
    pub is_watching: bool,
    pub status: String,
}

/// The session that the settings of `a` describe, before its first step
/// (which sets its phase).
pub open spec fn fresh_session(a: &TamamoApp) -> SessionModel {
    SessionModel {
        phase: Phase::Done,
        hachimi: a.hachimi_enabled,
        hachimi_edge: a.hachimi_edge_enabled,
        game: a.game_version,
        custom: a.custom_dlls.deep_view(),
        auto_restart: a.auto_restart,
        idle_timeout_ms: a.idle_timeout_ms,
        settle_ms: a.settle_ms,
        downloaded: Seq::empty(),
        queue: Seq::empty(),
        succeeded: 0,
    }
}

/// The settings of two control surfaces are the same.
pub open spec fn same_settings(a: &TamamoApp, b: &TamamoApp) -> bool {
    &&& a.hachimi_enabled == b.hachimi_enabled
    &&& a.hachimi_edge_enabled == b.hachimi_edge_enabled
    &&& a.game_version == b.game_version
    &&& a.custom_dlls.deep_view() == b.custom_dlls.deep_view()
    &&& a.auto_restart == b.auto_restart
    &&& a.idle_timeout_ms == b.idle_timeout_ms
    &&& a.settle_ms == b.settle_ms
}

impl TamamoApp {
    /// The settings a user starts with: the original build, the global
    /// release, no custom libraries, restarting after the game exits, and
    /// the default waits.
    pub fn new() -> (r: TamamoApp)
        ensures
            r.hachimi_enabled,
            !r.hachimi_edge_enabled,
            r.game_version == GameVersion::Global,
            r.custom_dlls@.len() == 0,
            r.auto_restart,
            r.idle_timeout_ms == IDLE_TIMEOUT_MS,
            r.settle_ms == SETTLE_MS,
            !r.is_watching,
            r.status@ == idle_text(),
    {
        TamamoApp {
            hachimi_enabled: true,
            hachimi_edge_enabled: false,
            game_version: GameVersion::Global,
            custom_dlls: Vec::new(),
            auto_restart: true,
            idle_timeout_ms: IDLE_TIMEOUT_MS,
            settle_ms: SETTLE_MS,
            is_watching: false,
            status: String::from_str("Idle"),
        }
    }

    /// Starts a session with the current settings. The returned session
    /// has taken its first step; its `action` is the worker's first task.
    /// While a session is watching, a second one is refused: nothing
    /// changes and no session is returned.
    pub fn start_watching(&mut self, state: &mut WatchState) -> (r: Option<Session>)
        ensures
            old(state).is_watching ==> r is None && final(state)@ == old(state)@
                && final(self).is_watching == old(self).is_watching,
            !old(state).is_watching ==> r is Some && (r->Some_0@, final(state)@) == begin(
                fresh_session(old(self)),
                started(old(state)@),
            ) && r->Some_0@.wf() && final(self).is_watching,
            same_settings(final(self), old(self)),
            final(self).status@ == old(self).status@,
    {
        if state.is_watching {
            return None;
        }
        state.start();
        self.is_watching = true;
        let mut session = Session {
            phase: Phase::Done,
            hachimi: self.hachimi_enabled,
            hachimi_edge: self.hachimi_edge_enabled,
            game_version: self.game_version,
            custom_dlls: copy_strings(&self.custom_dlls),
            auto_restart: self.auto_restart,
            idle_timeout_ms: self.idle_timeout_ms,
            settle_ms: self.settle_ms,
            downloaded: Vec::new(),
            queue: Vec::new(),
            succeeded: 0,
        };
        assert(session@.downloaded =~= Seq::<Seq<char>>::empty());
        assert(session@.queue =~= Seq::<Seq<char>>::empty());
        if self.hachimi_enabled {
            session.phase = Phase::Provisioning(HachimiVersion::Original);
            state.status = downloading_string(HachimiVersion::Original);
        } else {
            session.after_original(state);
        }
        Some(session)
    }

    /// Asks the running session to stop and shows it as stopped.
    pub fn stop_watching(&mut self, state: &mut WatchState)
        ensures
            final(state)@ == stopped(old(state)@),
            !final(self).is_watching,
            same_settings(final(self), old(self)),
            final(self).status@ == old(self).status@,
    {
        state.stop();
        self.is_watching = false;
    }

    /// Takes over what the session last reported.
    pub fn sync(&mut self, state: &WatchState)
        ensures
            final(self).is_watching == state.is_watching,
            final(self).status@ == state.status@,
            same_settings(final(self), old(self)),
    {
        self.is_watching = state.is_watching;
        self.status = state.status.clone();
    }

    /// Turns the original build on or off; turning it on turns the edge
    /// build off, since only one of them can be loaded.
    pub fn set_hachimi_enabled(&mut self, on: bool)
        ensures
            final(self).hachimi_enabled == on,
            final(self).hachimi_edge_enabled == (old(self).hachimi_edge_enabled && !on),
            final(self).game_version == old(self).game_version,
            final(self).custom_dlls.deep_view() == old(self).custom_dlls.deep_view(),
            final(self).auto_restart == old(self).auto_restart,
    {
        self.hachimi_enabled = on;
        if on {
            self.hachimi_edge_enabled = false;
        }
    }

    /// Turns the edge build on or off; turning it on turns the original
    /// build off.
    pub fn set_hachimi_edge_enabled(&mut self, on: bool)
        ensures
            final(self).hachimi_edge_enabled == on,
            final(self).hachimi_enabled == (old(self).hachimi_enabled && !on),
            final(self).game_version == old(self).game_version,
            final(self).custom_dlls.deep_view() == old(self).custom_dlls.deep_view(),
            final(self).auto_restart == old(self).auto_restart,
    {
        self.hachimi_edge_enabled = on;
        if on {
            self.hachimi_enabled = false;
        }
    }

    /// Adds a library of the user's own to every cycle.
    pub fn add_custom_dll(&mut self, path: String)
        ensures
            final(self).custom_dlls.deep_view() == old(self).custom_dlls.deep_view().push(path@),
    {
        let ghost before = self.custom_dlls@;
        let ghost dv_before = self.custom_dlls.deep_view();
        self.custom_dlls.push(path);
        assert(self.custom_dlls@ =~= before.push(path));
        assert(self.custom_dlls.deep_view() =~= dv_before.push(path@));
    }

    /// Removes the user's library at index `i`.
    pub fn remove_custom_dll(&mut self, i: usize)
        requires
            i < old(self).custom_dlls@.len(),
        ensures
            final(self).custom_dlls.deep_view() == old(self).custom_dlls.deep_view().remove(i as int),
    {
        let ghost before = self.custom_dlls@;
        let ghost dv_before = self.custom_dlls.deep_view();
        self.custom_dlls.remove(i);
        assert(self.custom_dlls@ =~= before.remove(i as int));
        assert(self.custom_dlls.deep_view() =~= dv_before.remove(i as int));
    }
}


// ---------------------------------------------------------------------------
// Laws of the session
// ---------------------------------------------------------------------------

/// The state after the worker hands the session each event of `evs` in turn.
pub open spec fn run(s: SessionModel, w: WatchModel, evs: Seq<Event>) -> (SessionModel, WatchModel)
    decreases evs.len(),
{
    if evs.len() == 0 {
        (s, w)
    } else {
        let n = next(s, w, evs[0]);
        run(n.0, n.1, evs.drop_first())
    }
}

/// What the worker learns while the process is absent: no process was
/// found, or a pause between scans ended.
pub open spec fn absent_process_event(e: Event) -> bool {
    e == Event::ProcessFound(false) || e == Event::Slept
}

/// While the process never appears and no stop is asked for, the session
/// stays in the scan for it, however long it runs.
pub proof fn lemma_absent_process_keeps_locating(s: SessionModel, w: WatchModel, evs: Seq<Event>)
    requires
        s.phase == Phase::Locating || s.phase == Phase::LocateBackoff,
        !w.should_stop,
        forall|k: int| 0 <= k < evs.len() ==> absent_process_event(#[trigger] evs[k]),
    ensures
        run(s, w, evs).0.phase == Phase::Locating || run(s, w, evs).0.phase == Phase::LocateBackoff,
        run(s, w, evs).1 == w,
    decreases evs.len(),
{
    if evs.len() > 0 {
        assert(absent_process_event(evs[0]));
        let n = next(s, w, evs[0]);
        let rest = evs.drop_first();
        assert forall|k: int| 0 <= k < rest.len() implies absent_process_event(#[trigger] rest[k]) by {
            assert(rest[k] == evs[k + 1]);
        }
        lemma_absent_process_keeps_locating(n.0, n.1, rest);
    }
}

/// Once a stop is asked for, a session scanning for the process ends at
/// the next checkpoint: after at most the scan in flight and one pause,
/// it asks the worker to finish, without another scan.
pub proof fn lemma_stop_ends_locating(s: SessionModel, w: WatchModel)
    requires
        s.phase == Phase::Locating || s.phase == Phase::LocateBackoff,
        w.should_stop,
    ensures
        s.phase == Phase::LocateBackoff ==> next(s, w, Event::Slept).0.phase == Phase::Stopped,
        s.phase == Phase::Locating ==> next(s, w, Event::ProcessFound(false)).0.phase
            == Phase::LocateBackoff,
        s.phase == Phase::Locating ==> next(
            next(s, w, Event::ProcessFound(false)).0,
            next(s, w, Event::ProcessFound(false)).1,
            Event::Slept,
        ).0.phase == Phase::Stopped,
        action_of(with_phase(s, Phase::Stopped)) == Action::Finish,
{
}

/// A stopped session stays stopped, whatever the worker reports.
pub proof fn lemma_stopped_is_final(s: SessionModel, w: WatchModel, evs: Seq<Event>)
    requires
        s.phase == Phase::Stopped,
    ensures
        run(s, w, evs) == (s, w),
    decreases evs.len(),
{
    if evs.len() > 0 {
        lemma_stopped_is_final(s, w, evs.drop_first());
    }
}

/// Stopping is idempotent: stopping a stopped session changes nothing, and
/// the session is shown as not watching.
pub proof fn lemma_stop_idempotent(w: WatchModel)
    ensures
        stopped(stopped(w)) == stopped(w),
        !stopped(w).is_watching,
        stopped(w).should_stop,
{
}

/// A library whose provisioning failed is not kept for injection; the
/// failure is shown until the worker has reported it, and the session
/// then goes on as after a success.
pub proof fn lemma_failed_provision_not_kept(s: SessionModel, w: WatchModel, reason: String)
    requires
        s.phase is Provisioning,
    ensures
        next(s, w, Event::Provisioned(Err(reason))).0.downloaded == s.downloaded,
        next(s, w, Event::Provisioned(Err(reason))).1.status == download_failed_text(reason@),
        next(
            next(s, w, Event::Provisioned(Err(reason))).0,
            next(s, w, Event::Provisioned(Err(reason))).1,
            Event::Reported,
        ) == after_provision(s.phase->Provisioning_0, s, w),
{
    let n = next(s, w, Event::Provisioned(Err(reason)));
    assert(with_phase(n.0, s.phase) == s);
}

/// A cycle attempts exactly the libraries that were provisioned and the
/// user's own, in that order, and counts its successes from zero.
pub proof fn lemma_cycle_attempts(s: SessionModel, w: WatchModel)
    requires
        s.phase == Phase::Settling,
    ensures
        next(s, w, Event::Slept).0.queue == s.downloaded + s.custom,
        next(s, w, Event::Slept).0.succeeded == 0,
{
}

/// The configuration of a session never changes while it runs.
pub proof fn lemma_settings_kept(s: SessionModel, w: WatchModel, e: Event)
    ensures
        next(s, w, e).0.auto_restart == s.auto_restart,
        next(s, w, e).0.game == s.game,
        next(s, w, e).0.custom == s.custom,
        next(s, w, e).1.should_stop == w.should_stop,
{
}

/// Without auto-restart, the last injection of a cycle ends the session:
/// it is done and no longer watching.
pub proof fn lemma_no_restart_ends_session(s: SessionModel, w: WatchModel, i: usize, ok: bool)
    requires
        s.wf(),
        !s.auto_restart,
        s.phase == Phase::Injecting(i),
        i + 1 == s.queue.len(),
    ensures
        next(s, w, Event::Injected(ok)).0.phase == Phase::Done,
        !next(s, w, Event::Injected(ok)).1.is_watching,
        next(s, w, Event::Injected(ok)).1.status == injected_text(
            if ok { s.succeeded + 1 } else { s.succeeded },
            s.queue.len(),
        ),
{
}

/// Without auto-restart, a session never waits for the process to exit.
pub proof fn lemma_no_restart_never_waits_for_exit(s: SessionModel, w: WatchModel, evs: Seq<Event>)
    requires
        !s.auto_restart,
        s.phase != Phase::ExitWaiting,
    ensures
        run(s, w, evs).0.phase != Phase::ExitWaiting,
    decreases evs.len(),
{
    if evs.len() > 0 {
        let n = next(s, w, evs[0]);
        lemma_settings_kept(s, w, evs[0]);
        lemma_no_restart_never_waits_for_exit(n.0, n.1, evs.drop_first());
    }
}

/// With auto-restart, a process that exits right after its last injection
/// sends the session back to the scan for it, announcing the watch again.
pub proof fn lemma_restart_after_exit(s: SessionModel, w: WatchModel, i: usize, ok: bool)
    requires
        s.wf(),
        s.auto_restart,
        s.phase == Phase::Injecting(i),
        i + 1 == s.queue.len(),
        !w.should_stop,
    ensures
        next(s, w, Event::Injected(ok)).0.phase == Phase::ExitWaiting,
        next(next(s, w, Event::Injected(ok)).0, next(s, w, Event::Injected(ok)).1, Event::ProcessExited(true)).0.phase
            == Phase::Locating,
        next(next(s, w, Event::Injected(ok)).0, next(s, w, Event::Injected(ok)).1, Event::ProcessExited(true)).1.status
            == watching_text(s.game),
        next(next(s, w, Event::Injected(ok)).0, next(s, w, Event::Injected(ok)).1, Event::ProcessExited(true)).1.is_watching
            == w.is_watching,
{
}

} // verus!
