use vstd::prelude::*;

use crate::config::{Config, ConfigView};
use crate::state::{AppState, CommandView, IpAddress, MonitorCommand};
use crate::text::{decimal, spec_decimal};

verus! {

/// Where the monitor stands between two events: which outside work it waits for.
#[derive(Debug, Clone, Copy)]
pub enum Phase {
    /// Waiting for the next poll tick or a command.
    Idle,
    /// Logging in to qBittorrent.
    LoggingIn,
    /// Fetching the public IP for a poll.
    Polling,
    /// Pausing torrents because the VPN IP could not be determined at startup.
    StartupPausing,
    /// Pausing torrents because the failure streak reached the threshold.
    ThresholdPausing,
    /// While paused: counting torrents that download anyway.
    CheckingActive { ip: Option<IpAddress> },
    /// While paused: pausing again the torrents resumed outside the daemon.
    Repausing { ip: Option<IpAddress>, count: usize },
    /// The VPN IP came back: resuming torrents.
    Resuming,
    /// Fetching the public IP to take it as the new VPN IP.
    Redetecting,
    /// After a re-detection: resuming torrents.
    RedetectResuming { addr: IpAddress },
    /// Pausing at the user's request.
    ManualPausing,
    /// Resuming at the user's request.
    ManualResuming,
}

/// The outside work the monitor asks for next.
#[derive(Debug, Clone, Copy, PartialEq, Eq, Structural)]
pub enum MonitorAction {
    /// Nothing pending: wait for the next poll tick or a command.
    Wait,
    /// Log in to qBittorrent with the current credentials; answer `LoginDone`.
    Login,
    /// Fetch the public IP; answer `IpFetched`.
    FetchIp,
    /// Count the torrents that are downloading; answer `ActiveCount`.
    CountActive,
    /// Pause all torrents; answer `PauseDone`.
    PauseAll,
    /// Resume all torrents; answer `ResumeDone`.
    ResumeAll,
}

/// What happened: a tick, a command, or the outcome of the work last asked for.
#[derive(Debug)]
pub enum MonitorEvent {
    PollDue,
    Command(MonitorCommand),
    LoginDone,
    IpFetched(Option<IpAddress>),
    ActiveCount(Result<usize, String>),
    PauseDone,
    ResumeDone(Result<(), String>),
}

pub enum EventView {
    PollDue,
    Command(CommandView),
    LoginDone,
    IpFetched(Option<IpAddress>),
    ActiveCount(Result<usize, Seq<char>>),
    PauseDone,
    ResumeDone(Result<(), Seq<char>>),
}

impl View for MonitorEvent {
    type V = EventView;

    open spec fn view(&self) -> EventView {
        match self {
            MonitorEvent::PollDue => EventView::PollDue,
            MonitorEvent::Command(c) => EventView::Command(c@),
            MonitorEvent::LoginDone => EventView::LoginDone,
            MonitorEvent::IpFetched(ip) => EventView::IpFetched(*ip),
            MonitorEvent::ActiveCount(r) => EventView::ActiveCount(
                match r {
                    Ok(n) => Ok(*n),
                    Err(e) => Err(e@),
                },
            ),
            MonitorEvent::PauseDone => EventView::PauseDone,
            MonitorEvent::ResumeDone(r) => EventView::ResumeDone(
                match r {
                    Ok(()) => Ok(()),
                    Err(e) => Err(e@),
                },
            ),
        }
    }
}

/// The monitor's answer to an event.
#[derive(Debug)]
pub struct MonitorOutput {
    /// The outside work to do next.
    pub action: MonitorAction,
    /// Publish the VPN IP and the streak counters to the GUI now.
    pub publish: bool,
    /// A transient status message for the GUI.
    pub transient: Option<String>,
    /// The outcome of a re-detection, for the GUI.
    pub redetect: Option<Result<IpAddress, String>>,
}

pub struct OutputView {
    pub action: MonitorAction,
    pub publish: bool,
    pub transient: Option<Seq<char>>,
    pub redetect: Option<Result<IpAddress, Seq<char>>>,
}

impl View for MonitorOutput {
    type V = OutputView;

    open spec fn view(&self) -> OutputView {
        OutputView {
            action: self.action,
            publish: self.publish,
            transient: match self.transient {
                Some(s) => Some(s@),
                None => None,
            },
            redetect: match self.redetect {
                Some(Ok(ip)) => Some(Ok(ip)),
                Some(Err(e)) => Some(Err(e@)),
                None => None,
            },
        }
    }
}

/// The counters and phase of the monitor.
#[derive(Debug, Clone, Copy)]
pub struct MonitorCore {
    pub app_state: AppState,
    /// The confirmed VPN IP; none until the first successful fetch while starting.
    pub vpn_ip: Option<IpAddress>,
    pub fail_streak: u32,
    pub start_fail_streak: u32,
    pub phase: Phase,
}

/// The whole monitor as mathematical values.
pub struct MonitorView {
    pub core: MonitorCore,
    pub config: ConfigView,
    pub password: Seq<char>,
}

/// The decision logic of the monitor task: a state machine fed with events and
/// answering with the next outside work to do.
pub struct MonitorTask {
    core: MonitorCore,
    config: Config,
    password: String,
}

impl View for MonitorTask {
    type V = MonitorView;

    closed spec fn view(&self) -> MonitorView {
        MonitorView { core: self.core, config: self.config@, password: self.password@ }
    }
}

// ── The transition table ──────────────────────────────────────────────────────

pub open spec fn spec_pending(phase: Phase) -> MonitorAction {
    match phase {
        Phase::Idle => MonitorAction::Wait,
        Phase::LoggingIn => MonitorAction::Login,
        Phase::Polling => MonitorAction::FetchIp,
        Phase::Redetecting => MonitorAction::FetchIp,
        Phase::CheckingActive { .. } => MonitorAction::CountActive,
        Phase::StartupPausing => MonitorAction::PauseAll,
        Phase::ThresholdPausing => MonitorAction::PauseAll,
        Phase::Repausing { .. } => MonitorAction::PauseAll,
        Phase::ManualPausing => MonitorAction::PauseAll,
        Phase::Resuming => MonitorAction::ResumeAll,
        Phase::RedetectResuming { .. } => MonitorAction::ResumeAll,
        Phase::ManualResuming => MonitorAction::ResumeAll,
    }
}

pub open spec fn startup_pause_message() -> Seq<char> {
    "Could not determine VPN IP — torrents paused as a precaution"@
}

pub open spec fn repaused_message(count: nat) -> Seq<char> {
    "Re-paused "@ + spec_decimal(count) + " torrent(s) that were manually resumed"@
}

pub open spec fn resume_failed_message(e: Seq<char>) -> Seq<char> {
    "Resume failed: "@ + e
}

pub open spec fn redetect_failed_message() -> Seq<char> {
    "Could not reach any IP check service — try again"@
}

/// Failed fetches tolerated while starting: three times the threshold (saturating),
/// and at least three.
pub open spec fn start_limit(fail_threshold: u32) -> u32 {
    let t: u32 = if fail_threshold as int * 3 > u32::MAX as int {
        u32::MAX
    } else {
        (fail_threshold * 3) as u32
    };
    if t < 3 {
        3
    } else {
        t
    }
}

pub open spec fn output(action: MonitorAction, publish: bool) -> OutputView {
    OutputView { action, publish, transient: None, redetect: None }
}

pub open spec fn with_core(m: MonitorView, core: MonitorCore) -> MonitorView {
    MonitorView { core, ..m }
}

/// After the paused-state enforcement: resume if the fetched IP is the VPN IP.
pub open spec fn recovery_check(m: MonitorView, ip: Option<IpAddress>, transient: Option<Seq<char>>) -> (MonitorView, OutputView) {
    let c = m.core;
    if c.vpn_ip.is_some() && ip == c.vpn_ip {
        (
            with_core(m, MonitorCore { app_state: AppState::Recovery, phase: Phase::Resuming, ..c }),
            OutputView { action: MonitorAction::ResumeAll, publish: true, transient, redetect: None },
        )
    } else {
        (
            with_core(m, MonitorCore { phase: Phase::Idle, ..c }),
            OutputView { action: MonitorAction::Wait, publish: true, transient, redetect: None },
        )
    }
}

/// What a poll does with the fetched IP, by state.
pub open spec fn poll_outcome(m: MonitorView, ip: Option<IpAddress>) -> (MonitorView, OutputView) {
    let c = m.core;
    match c.app_state {
        AppState::Starting => match ip {
            Some(a) => (
                with_core(m, MonitorCore {
                    app_state: AppState::Nominal,
                    vpn_ip: Some(a),
                    fail_streak: 0,
                    start_fail_streak: 0,
                    phase: Phase::Idle,
                }),
                output(MonitorAction::Wait, true),
            ),
            None => {
                let s: u32 = if c.start_fail_streak < u32::MAX {
                    (c.start_fail_streak + 1) as u32
                } else {
                    u32::MAX
                };
                if s >= start_limit(m.config.fail_threshold) {
                    (
                        with_core(m, MonitorCore { start_fail_streak: s, phase: Phase::StartupPausing, ..c }),
                        output(MonitorAction::PauseAll, false),
                    )
                } else {
                    (
                        with_core(m, MonitorCore { start_fail_streak: s, phase: Phase::Idle, ..c }),
                        output(MonitorAction::Wait, true),
                    )
                }
            },
        },
        AppState::Nominal | AppState::Degraded => match c.vpn_ip {
            None => (
                with_core(m, MonitorCore { app_state: AppState::Starting, phase: Phase::Idle, ..c }),
                output(MonitorAction::Wait, true),
            ),
            Some(v) => if ip == Some(v) {
                (
                    with_core(m, MonitorCore {
                        app_state: AppState::Nominal,
                        fail_streak: 0,
                        phase: Phase::Idle,
                        ..c
                    }),
                    output(MonitorAction::Wait, true),
                )
            } else {
                let f = (c.fail_streak + 1) as u32;
                if f >= m.config.fail_threshold {
                    (
                        with_core(m, MonitorCore {
                            app_state: AppState::Degraded,
                            fail_streak: f,
                            phase: Phase::ThresholdPausing,
                            ..c
                        }),
                        output(MonitorAction::PauseAll, false),
                    )
                } else {
                    (
                        with_core(m, MonitorCore {
                            app_state: AppState::Degraded,
                            fail_streak: f,
                            phase: Phase::Idle,
                            ..c
                        }),
                        output(MonitorAction::Wait, true),
                    )
                }
            },
        },
        AppState::Paused | AppState::Recovery => (
            with_core(m, MonitorCore { phase: Phase::CheckingActive { ip }, ..c }),
            output(MonitorAction::CountActive, false),
        ),
    }
}

/// The transition table of the monitor: the state after `e` and the answer to it.
/// An event that the current phase does not wait for changes nothing.
pub open spec fn spec_step(m: MonitorView, e: EventView) -> (MonitorView, OutputView) {
    let c = m.core;
    let ignore = (m, output(spec_pending(c.phase), false));
    match c.phase {
        Phase::Idle => match e {
            EventView::PollDue => (
                with_core(m, MonitorCore { phase: Phase::Polling, ..c }),
                output(MonitorAction::FetchIp, false),
            ),
            EventView::Command(cmd) => match cmd {
                CommandView::RedetectVpnIp => (
                    with_core(m, MonitorCore { phase: Phase::Redetecting, ..c }),
                    output(MonitorAction::FetchIp, false),
                ),
                CommandView::ManualPause => (
                    with_core(m, MonitorCore { phase: Phase::ManualPausing, ..c }),
                    output(MonitorAction::PauseAll, false),
                ),
                CommandView::ManualResume => (
                    with_core(m, MonitorCore { phase: Phase::ManualResuming, ..c }),
                    output(MonitorAction::ResumeAll, false),
                ),
                CommandView::ReloadConfig { config, password } => (
                    MonitorView {
                        core: MonitorCore { phase: Phase::LoggingIn, ..c },
                        config,
                        password,
                    },
                    output(MonitorAction::Login, false),
                ),
            },
            _ => ignore,
        },
        Phase::LoggingIn => match e {
            EventView::LoginDone => (
                with_core(m, MonitorCore { phase: Phase::Idle, ..c }),
                output(MonitorAction::Wait, false),
            ),
            _ => ignore,
        },
        Phase::Polling => match e {
            EventView::IpFetched(ip) => poll_outcome(m, ip),
            _ => ignore,
        },
        Phase::StartupPausing => match e {
            EventView::PauseDone => (
                with_core(m, MonitorCore { app_state: AppState::Paused, phase: Phase::Idle, ..c }),
                OutputView {
                    action: MonitorAction::Wait,
                    publish: true,
                    transient: Some(startup_pause_message()),
                    redetect: None,
                },
            ),
            _ => ignore,
        },
        Phase::ThresholdPausing => match e {
            EventView::PauseDone => (
                with_core(m, MonitorCore { app_state: AppState::Paused, phase: Phase::Idle, ..c }),
                output(MonitorAction::Wait, true),
            ),
            _ => ignore,
        },
        Phase::CheckingActive { ip } => match e {
            EventView::ActiveCount(r) => match r {
                Ok(n) => if n > 0 {
                    (
                        with_core(m, MonitorCore { phase: Phase::Repausing { ip, count: n }, ..c }),
                        output(MonitorAction::PauseAll, false),
                    )
                } else {
                    recovery_check(m, ip, None)
                },
                Err(_) => recovery_check(m, ip, None),
            },
            _ => ignore,
        },
        Phase::Repausing { ip, count } => match e {
            EventView::PauseDone => recovery_check(m, ip, Some(repaused_message(count as nat))),
            _ => ignore,
        },
        Phase::Resuming => match e {
            EventView::ResumeDone(r) => match r {
                Ok(()) => (
                    with_core(m, MonitorCore {
                        app_state: AppState::Nominal,
                        fail_streak: 0,
                        phase: Phase::Idle,
                        ..c
                    }),
                    output(MonitorAction::Wait, true),
                ),
                Err(_) => (
                    with_core(m, MonitorCore { app_state: AppState::Paused, phase: Phase::Idle, ..c }),
                    output(MonitorAction::Wait, true),
                ),
            },
            _ => ignore,
        },
        Phase::Redetecting => match e {
            EventView::IpFetched(ip) => match ip {
                Some(a) => if c.app_state == AppState::Paused || c.app_state == AppState::Degraded {
                    (
                        with_core(m, MonitorCore {
                            vpn_ip: Some(a),
                            fail_streak: 0,
                            phase: Phase::RedetectResuming { addr: a },
                            ..c
                        }),
                        output(MonitorAction::ResumeAll, false),
                    )
                } else {
                    (
                        with_core(m, MonitorCore {
                            app_state: AppState::Nominal,
                            vpn_ip: Some(a),
                            fail_streak: 0,
                            phase: Phase::Idle,
                            ..c
                        }),
                        OutputView {
                            action: MonitorAction::Wait,
                            publish: true,
                            transient: None,
                            redetect: Some(Ok(a)),
                        },
                    )
                },
                None => (
                    with_core(m, MonitorCore { phase: Phase::Idle, ..c }),
                    OutputView {
                        action: MonitorAction::Wait,
                        publish: true,
                        transient: None,
                        redetect: Some(Err(redetect_failed_message())),
                    },
                ),
            },
            _ => ignore,
        },
        Phase::RedetectResuming { addr } => match e {
            EventView::ResumeDone(r) => (
                with_core(m, MonitorCore {
                    app_state: if r is Ok { AppState::Nominal } else { c.app_state },
                    phase: Phase::Idle,
                    ..c
                }),
                OutputView {
                    action: MonitorAction::Wait,
                    publish: true,
                    transient: None,
                    redetect: Some(Ok(addr)),
                },
            ),
            _ => ignore,
        },
        Phase::ManualPausing => match e {
            EventView::PauseDone => (
                with_core(m, MonitorCore { app_state: AppState::Paused, phase: Phase::Idle, ..c }),
                output(MonitorAction::Wait, true),
            ),
            _ => ignore,
        },
        Phase::ManualResuming => match e {
            EventView::ResumeDone(r) => match r {
                Ok(()) => (
                    with_core(m, MonitorCore {
                        app_state: AppState::Nominal,
                        fail_streak: 0,
                        phase: Phase::Idle,
                        ..c
                    }),
                    output(MonitorAction::Wait, true),
                ),
                Err(msg) => (
                    with_core(m, MonitorCore { phase: Phase::Idle, ..c }),
                    OutputView {
                        action: MonitorAction::Wait,
                        publish: true,
                        transient: Some(resume_failed_message(msg)),
                        redetect: None,
                    },
                ),
            },
            _ => ignore,
        },
    }
}

/// The invariant of the monitor's counters and phase.
pub open spec fn core_wf(c: MonitorCore) -> bool {
    // No VPN IP is recorded while starting.
    &&& c.app_state == AppState::Starting ==> c.vpn_ip.is_none()
    // NOMINAL always comes with a zero failure streak.
    &&& c.app_state == AppState::Nominal ==> c.fail_streak == 0
    // RECOVERY is shown exactly while a resume after the VPN's return is in flight.
    &&& (c.app_state == AppState::Recovery <==> c.phase is Resuming)
    &&& c.phase is Resuming ==> c.vpn_ip.is_some()
    // Each pausing or checking phase belongs to its state.
    &&& c.phase is StartupPausing ==> c.app_state == AppState::Starting
    &&& c.phase is ThresholdPausing ==> c.app_state == AppState::Degraded
    &&& c.phase is CheckingActive ==> c.app_state == AppState::Paused
    &&& c.phase is Repausing ==> c.app_state == AppState::Paused
    &&& (c.phase matches Phase::RedetectResuming { addr } ==> c.vpn_ip == Some(addr) && c.fail_streak == 0
        && (c.app_state == AppState::Paused || c.app_state == AppState::Degraded))
    // A streak that can still grow is below the counter's limit.
    &&& (c.app_state == AppState::Degraded && !(c.phase is ThresholdPausing)) ==> c.fail_streak < u32::MAX
}

impl MonitorView {
    pub open spec fn wf(self) -> bool {
        core_wf(self.core)
    }
}

// ── The machine ───────────────────────────────────────────────────────────────

fn out(action: MonitorAction, publish: bool) -> (r: MonitorOutput)
    ensures
        r@ == output(action, publish),
{
    MonitorOutput { action, publish, transient: None, redetect: None }
}

fn pending(phase: Phase) -> (r: MonitorAction)
    ensures
        r == spec_pending(phase),
{
    match phase {
        Phase::Idle => MonitorAction::Wait,
        Phase::LoggingIn => MonitorAction::Login,
        Phase::Polling => MonitorAction::FetchIp,
        Phase::Redetecting => MonitorAction::FetchIp,
        Phase::CheckingActive { .. } => MonitorAction::CountActive,
        Phase::StartupPausing => MonitorAction::PauseAll,
        Phase::ThresholdPausing => MonitorAction::PauseAll,
        Phase::Repausing { .. } => MonitorAction::PauseAll,
        Phase::ManualPausing => MonitorAction::PauseAll,
        Phase::Resuming => MonitorAction::ResumeAll,
        Phase::RedetectResuming { .. } => MonitorAction::ResumeAll,
        Phase::ManualResuming => MonitorAction::ResumeAll,
    }
}

fn limit_for(fail_threshold: u32) -> (r: u32)
    ensures
        r == start_limit(fail_threshold),
        r >= 3,
        fail_threshold >= 1 && 3 * fail_threshold <= u32::MAX ==> r == 3 * fail_threshold,
        3 * fail_threshold > u32::MAX ==> r == u32::MAX,
{
    let t: u32 = if fail_threshold > u32::MAX / 3 {
        u32::MAX
    } else {
        fail_threshold * 3
    };
    if t < 3 {
        3
    } else {
        t
    }
}

fn repaused_text(count: usize) -> (r: String)
    ensures
        r@ == repaused_message(count as nat),
{
    let mut s = String::from_str("Re-paused ");
    let n = decimal(count as u64);
    s.append(n.as_str());
    s.append(" torrent(s) that were manually resumed");
    s
}

impl MonitorTask {
    #[verifier::type_invariant]
    spec fn inv(self) -> bool {
        core_wf(self.core)
    }

    /// The initial view: starting, nothing recorded, logging in first.
    pub open spec fn spec_initial(config: ConfigView, password: Seq<char>) -> MonitorView {
        MonitorView {
            core: MonitorCore {
                app_state: AppState::Starting,
                vpn_ip: None,
                fail_streak: 0,
                start_fail_streak: 0,
                phase: Phase::LoggingIn,
            },
            config,
            password,
        }
    }

    /// A monitor that starts by logging in, then waits in STARTING for its first IP.
    pub fn new(config: Config, password: String) -> (r: Self)
        ensures
            r@ == Self::spec_initial(config@, password@),
            r@.wf(),
    {
        MonitorTask {
            core: MonitorCore {
                app_state: AppState::Starting,
                vpn_ip: None,
                fail_streak: 0,
                start_fail_streak: 0,
                phase: Phase::LoggingIn,
            },
            config,
            password,
        }
    }

    pub fn app_state(&self) -> (r: AppState)
        ensures
            r == self@.core.app_state,
    {
        self.core.app_state
    }

    pub fn vpn_ip(&self) -> (r: Option<IpAddress>)
        ensures
            r == self@.core.vpn_ip,
    {
        self.core.vpn_ip
    }

    pub fn fail_streak(&self) -> (r: u32)
        ensures
            r == self@.core.fail_streak,
    {
        self.core.fail_streak
    }

    pub fn start_fail_streak(&self) -> (r: u32)
        ensures
            r == self@.core.start_fail_streak,
    {
        self.core.start_fail_streak
    }

    pub fn config(&self) -> (r: &Config)
        ensures
            r@ == self@.config,
    {
        &self.config
    }

    pub fn password(&self) -> (r: &String)
        ensures
            r@ == self@.password,
    {
        &self.password
    }

    /// The outside work the monitor waits for.
    pub fn pending_action(&self) -> (r: MonitorAction)
        ensures
            r == spec_pending(self@.core.phase),
    {
        pending(self.core.phase)
    }

    fn recover(&mut self, ip: Option<IpAddress>, transient: Option<String>) -> (r: MonitorOutput)
        requires
            old(self).core.app_state == AppState::Paused,
        ensures
            (final(self)@, r@) == recovery_check(
                old(self)@,
                ip,
                match transient {
                    Some(t) => Some(t@),
                    None => None,
                },
            ),
    {
        proof {
            use_type_invariant(&*self);
        }
        let c = self.core;
        let matches = match (c.vpn_ip, ip) {
            (Some(v), Some(a)) => v == a,
            _ => false,
        };
        if matches {
            self.core = MonitorCore { app_state: AppState::Recovery, phase: Phase::Resuming, ..c };
            MonitorOutput { action: MonitorAction::ResumeAll, publish: true, transient, redetect: None }
        } else {
            self.core = MonitorCore { phase: Phase::Idle, ..c };
            MonitorOutput { action: MonitorAction::Wait, publish: true, transient, redetect: None }
        }
    }

    fn poll(&mut self, ip: Option<IpAddress>) -> (r: MonitorOutput)
        requires
            old(self).core.phase is Polling,
        ensures
            (final(self)@, r@) == poll_outcome(old(self)@, ip),
    {
        proof {
            use_type_invariant(&*self);
        }
        let c = self.core;
        match c.app_state {
            AppState::Starting => match ip {
                Some(a) => {
                    self.core = MonitorCore {
                        app_state: AppState::Nominal,
                        vpn_ip: Some(a),
                        fail_streak: 0,
                        start_fail_streak: 0,
                        phase: Phase::Idle,
                    };
                    out(MonitorAction::Wait, true)
                },
                None => {
                    let s: u32 = if c.start_fail_streak < u32::MAX {
                        c.start_fail_streak + 1
                    } else {
                        u32::MAX
                    };
                    if s >= limit_for(self.config.fail_threshold) {
                        self.core = MonitorCore { start_fail_streak: s, phase: Phase::StartupPausing, ..c };
                        out(MonitorAction::PauseAll, false)
                    } else {
                        self.core = MonitorCore { start_fail_streak: s, phase: Phase::Idle, ..c };
                        out(MonitorAction::Wait, true)
                    }
                },
            },
            AppState::Nominal | AppState::Degraded => match c.vpn_ip {
                None => {
                    self.core = MonitorCore { app_state: AppState::Starting, phase: Phase::Idle, ..c };
                    out(MonitorAction::Wait, true)
                },
                Some(v) => {
                    let same = match ip {
                        Some(a) => a == v,
                        None => false,
                    };
                    if same {
                        self.core = MonitorCore {
                            app_state: AppState::Nominal,
                            fail_streak: 0,
                            phase: Phase::Idle,
                            ..c
                        };
                        out(MonitorAction::Wait, true)
                    } else {
                        let f = c.fail_streak + 1;
                        if f >= self.config.fail_threshold {
                            self.core = MonitorCore {
                                app_state: AppState::Degraded,
                                fail_streak: f,
                                phase: Phase::ThresholdPausing,
                                ..c
                            };
                            out(MonitorAction::PauseAll, false)
                        } else {
                            self.core = MonitorCore {
                                app_state: AppState::Degraded,
                                fail_streak: f,
                                phase: Phase::Idle,
                                ..c
                            };
                            out(MonitorAction::Wait, true)
                        }
                    }
                },
            },
            AppState::Paused | AppState::Recovery => {
                self.core = MonitorCore { phase: Phase::CheckingActive { ip }, ..c };
                out(MonitorAction::CountActive, false)
            },
        }
    }

    /// Feeds one event to the monitor; answers with the work to do next and what to
    /// show. The transition table is `spec_step`.
    pub fn step(&mut self, event: MonitorEvent) -> (r: MonitorOutput)
        ensures
            (final(self)@, r@) == spec_step(old(self)@, event@),
            old(self)@.wf(),
            final(self)@.wf(),
    {
        proof {
            use_type_invariant(&*self);
        }
        let c = self.core;
        match c.phase {
            Phase::Idle => match event {
                MonitorEvent::PollDue => {
                    self.core = MonitorCore { phase: Phase::Polling, ..c };
                    out(MonitorAction::FetchIp, false)
                },
                MonitorEvent::Command(cmd) => match cmd {
                    MonitorCommand::RedetectVpnIp => {
                        self.core = MonitorCore { phase: Phase::Redetecting, ..c };
                        out(MonitorAction::FetchIp, false)
                    },
                    MonitorCommand::ManualPause => {
                        self.core = MonitorCore { phase: Phase::ManualPausing, ..c };
                        out(MonitorAction::PauseAll, false)
                    },
                    MonitorCommand::ManualResume => {
                        self.core = MonitorCore { phase: Phase::ManualResuming, ..c };
                        out(MonitorAction::ResumeAll, false)
                    },
                    MonitorCommand::ReloadConfig { config, password } => {
                        self.core = MonitorCore { phase: Phase::LoggingIn, ..c };
                        self.config = config;
                        self.password = password;
                        out(MonitorAction::Login, false)
                    },
                },
                _ => out(MonitorAction::Wait, false),
            },
            Phase::LoggingIn => match event {
                MonitorEvent::LoginDone => {
                    self.core = MonitorCore { phase: Phase::Idle, ..c };
                    out(MonitorAction::Wait, false)
                },
                _ => out(MonitorAction::Login, false),
            },
            Phase::Polling => match event {
                MonitorEvent::IpFetched(ip) => self.poll(ip),
                _ => out(MonitorAction::FetchIp, false),
            },
            Phase::StartupPausing => match event {
                MonitorEvent::PauseDone => {
                    self.core = MonitorCore { app_state: AppState::Paused, phase: Phase::Idle, ..c };
                    MonitorOutput {
                        action: MonitorAction::Wait,
                        publish: true,
                        transient: Some(String::from_str("Could not determine VPN IP — torrents paused as a precaution")),
                        redetect: None,
                    }
                },
                _ => out(MonitorAction::PauseAll, false),
            },
            Phase::ThresholdPausing => match event {
                MonitorEvent::PauseDone => {
                    self.core = MonitorCore { app_state: AppState::Paused, phase: Phase::Idle, ..c };
                    out(MonitorAction::Wait, true)
                },
                _ => out(MonitorAction::PauseAll, false),
            },
            Phase::CheckingActive { ip } => match event {
                MonitorEvent::ActiveCount(r) => match r {
                    Ok(n) => {
                        if n > 0 {
                            self.core = MonitorCore { phase: Phase::Repausing { ip, count: n }, ..c };
                            out(MonitorAction::PauseAll, false)
                        } else {
                            self.recover(ip, None)
                        }
                    },
                    Err(_) => self.recover(ip, None),
                },
                _ => out(MonitorAction::CountActive, false),
            },
            Phase::Repausing { ip, count } => match event {
                MonitorEvent::PauseDone => {
                    let msg = repaused_text(count);
                    self.recover(ip, Some(msg))
                },
                _ => out(MonitorAction::PauseAll, false),
            },
            Phase::Resuming => match event {
                MonitorEvent::ResumeDone(r) => match r {
                    Ok(()) => {
                        self.core = MonitorCore {
                            app_state: AppState::Nominal,
                            fail_streak: 0,
                            phase: Phase::Idle,
                            ..c
                        };
                        out(MonitorAction::Wait, true)
                    },
                    Err(_) => {
                        self.core = MonitorCore { app_state: AppState::Paused, phase: Phase::Idle, ..c };
                        out(MonitorAction::Wait, true)
                    },
                },
                _ => out(MonitorAction::ResumeAll, false),
            },
            Phase::Redetecting => match event {
                MonitorEvent::IpFetched(ip) => match ip {
                    Some(a) => {
                        let resume = match c.app_state {
                            AppState::Paused | AppState::Degraded => true,
                            _ => false,
                        };
                        if resume {
                            self.core = MonitorCore {
                                vpn_ip: Some(a),
                                fail_streak: 0,
                                phase: Phase::RedetectResuming { addr: a },
                                ..c
                            };
                            out(MonitorAction::ResumeAll, false)
                        } else {
                            self.core = MonitorCore {
                                app_state: AppState::Nominal,
                                vpn_ip: Some(a),
                                fail_streak: 0,
                                phase: Phase::Idle,
                                ..c
                            };
                            MonitorOutput {
                                action: MonitorAction::Wait,
                                publish: true,
                                transient: None,
                                redetect: Some(Ok(a)),
                            }
                        }
                    },
                    None => {
                        self.core = MonitorCore { phase: Phase::Idle, ..c };
                        MonitorOutput {
                            action: MonitorAction::Wait,
                            publish: true,
                            transient: None,
                            redetect: Some(Err(String::from_str("Could not reach any IP check service — try again"))),
                        }
                    },
                },
                _ => out(MonitorAction::FetchIp, false),
            },
            Phase::RedetectResuming { addr } => match event {
                MonitorEvent::ResumeDone(r) => {
                    let state = match r {
                        Ok(()) => AppState::Nominal,
                        Err(_) => c.app_state,
                    };
                    self.core = MonitorCore { app_state: state, phase: Phase::Idle, ..c };
                    MonitorOutput {
                        action: MonitorAction::Wait,
                        publish: true,
                        transient: None,
                        redetect: Some(Ok(addr)),
                    }
                },
                _ => out(MonitorAction::ResumeAll, false),
            },
            Phase::ManualPausing => match event {
                MonitorEvent::PauseDone => {
                    self.core = MonitorCore { app_state: AppState::Paused, phase: Phase::Idle, ..c };
                    out(MonitorAction::Wait, true)
                },
                _ => out(MonitorAction::PauseAll, false),
            },
            Phase::ManualResuming => match event {
                MonitorEvent::ResumeDone(r) => match r {
                    Ok(()) => {
                        self.core = MonitorCore {
                            app_state: AppState::Nominal,
                            fail_streak: 0,
                            phase: Phase::Idle,
                            ..c
                        };
                        out(MonitorAction::Wait, true)
                    },
                    Err(e) => {
                        self.core = MonitorCore { phase: Phase::Idle, ..c };
                        let mut msg = String::from_str("Resume failed: ");
                        msg.append(e.as_str());
                        MonitorOutput {
                            action: MonitorAction::Wait,
                            publish: true,
                            transient: Some(msg),
                            redetect: None,
                        }
                    },
                },
                _ => out(MonitorAction::ResumeAll, false),
            },
        }
    }
}

// ── Laws ──────────────────────────────────────────────────────────────────────

/// Every step keeps the monitor's invariant: no VPN IP while starting, a zero streak
/// while nominal, RECOVERY only while its resume is in flight, and so on.
pub proof fn lemma_step_keeps_invariant(m: MonitorView, e: EventView)
    requires
        m.wf(),
    ensures
        spec_step(m, e).0.wf(),
{
}

/// Whether `phase` waits for events of the kind of `e`.
pub open spec fn accepts(phase: Phase, e: EventView) -> bool {
    match phase {
        Phase::Idle => e is PollDue || e is Command,
        Phase::LoggingIn => e is LoginDone,
        Phase::Polling | Phase::Redetecting => e is IpFetched,
        Phase::CheckingActive { .. } => e is ActiveCount,
        Phase::StartupPausing | Phase::ThresholdPausing | Phase::Repausing { .. } | Phase::ManualPausing => e is PauseDone,
        Phase::Resuming | Phase::RedetectResuming { .. } | Phase::ManualResuming => e is ResumeDone,
    }
}

/// An event that the current phase does not wait for changes nothing, and the
/// monitor asks again for the work it waits for.
pub proof fn lemma_unexpected_event_ignored(m: MonitorView, e: EventView)
    requires
        !accepts(m.core.phase, e),
    ensures
        spec_step(m, e).0 == m,
        spec_step(m, e).1 == output(spec_pending(m.core.phase), false),
{
}

/// While STARTING, a poll never resumes torrents; it pauses them only when the
/// fetch failed and the startup failure streak reached its limit
/// (`max(3 * fail_threshold, 3)`); a successful fetch records the VPN IP and
/// enters NOMINAL with both streaks reset.
pub proof fn lemma_starting_poll(m: MonitorView, ip: Option<IpAddress>)
    requires
        m.wf(),
        m.core.phase is Polling,
        m.core.app_state == AppState::Starting,
    ensures
        ({
            let (m2, o) = spec_step(m, EventView::IpFetched(ip));
            &&& o.action != MonitorAction::ResumeAll
            &&& (o.action == MonitorAction::PauseAll <==> ip is None
                && m2.core.start_fail_streak >= start_limit(m.config.fail_threshold))
            &&& (ip matches Some(a) ==> m2.core.vpn_ip == Some(a) && m2.core.app_state == AppState::Nominal
                && m2.core.fail_streak == 0 && m2.core.start_fail_streak == 0)
            &&& (ip is None ==> m2.core.vpn_ip is None && m2.core.app_state == AppState::Starting)
        }),
{
}

/// While NOMINAL or DEGRADED with a recorded VPN IP: a poll that sees the VPN IP
/// clears the streak and is NOMINAL; any other outcome (another IP, or no IP at
/// all) adds one to the streak, is DEGRADED, and pauses exactly when the streak
/// reached the threshold.
pub proof fn lemma_monitoring_poll(m: MonitorView, ip: Option<IpAddress>)
    requires
        m.wf(),
        m.core.phase is Polling,
        m.core.app_state == AppState::Nominal || m.core.app_state == AppState::Degraded,
        m.core.vpn_ip is Some,
    ensures
        ({
            let (m2, o) = spec_step(m, EventView::IpFetched(ip));
            if ip == m.core.vpn_ip {
                &&& m2.core.app_state == AppState::Nominal
                &&& m2.core.fail_streak == 0
                &&& o.action == MonitorAction::Wait
            } else {
                &&& m2.core.app_state == AppState::Degraded
                &&& m2.core.fail_streak == m.core.fail_streak + 1
                &&& (o.action == MonitorAction::PauseAll <==> m2.core.fail_streak >= m.config.fail_threshold)
                &&& o.action != MonitorAction::ResumeAll
            }
        }),
{
}

/// While PAUSED, every poll first counts the torrents that download anyway, and a
/// positive count makes the monitor pause all torrents again.
pub proof fn lemma_paused_poll_enforces(m: MonitorView, ip: Option<IpAddress>, n: usize)
    requires
        m.wf(),
        m.core.phase is Polling,
        m.core.app_state == AppState::Paused,
    ensures
        ({
            let (m2, o) = spec_step(m, EventView::IpFetched(ip));
            &&& o.action == MonitorAction::CountActive
            &&& m2.core.app_state == AppState::Paused
            &&& (n > 0 ==> spec_step(m2, EventView::ActiveCount(Ok(n))).1.action == MonitorAction::PauseAll)
        }),
{
}

/// Torrents are resumed on the monitor's own initiative only when the poll saw
/// the recorded VPN IP: every step that enters RECOVERY comes from the paused
/// enforcement of a poll whose fetched IP equals the VPN IP.
pub proof fn lemma_recovery_needs_vpn_ip(m: MonitorView, e: EventView)
    requires
        m.wf(),
        spec_step(m, e).0.core.app_state == AppState::Recovery,
        m.core.app_state != AppState::Recovery,
    ensures
        spec_step(m, e).1.action == MonitorAction::ResumeAll,
        m.core.app_state == AppState::Paused,
        m.core.vpn_ip is Some,
        m.core.phase matches Phase::CheckingActive { ip } ==> ip == m.core.vpn_ip,
        m.core.phase matches Phase::Repausing { ip, .. } ==> ip == m.core.vpn_ip,
        m.core.phase is CheckingActive || m.core.phase is Repausing,
{
}

/// A poll while PAUSED keeps the fetched IP for the recovery check.
pub proof fn lemma_paused_poll_keeps_ip(m: MonitorView, ip: Option<IpAddress>)
    requires
        m.wf(),
        m.core.phase is Polling,
        m.core.app_state == AppState::Paused,
    ensures
        spec_step(m, EventView::IpFetched(ip)).0.core.phase == (Phase::CheckingActive { ip }),
{
}

/// The state shows PAUSED only once torrents were paused: every step into PAUSED
/// either completes a pause the monitor asked for, or ends a failed resume after
/// the VPN's return (torrents were paused before).
pub proof fn lemma_paused_after_pause(m: MonitorView, e: EventView)
    requires
        m.wf(),
        m.core.app_state != AppState::Paused,
        spec_step(m, e).0.core.app_state == AppState::Paused,
    ensures
        (e is PauseDone && (m.core.phase is StartupPausing || m.core.phase is ThresholdPausing
            || m.core.phase is ManualPausing)) || (m.core.app_state == AppState::Recovery && e is ResumeDone),
{
}

/// A failed re-detection changes neither the state, the VPN IP nor the streaks,
/// and reports the failure.
pub proof fn lemma_redetect_failure_changes_nothing(m: MonitorView)
    requires
        m.core.phase is Redetecting,
    ensures
        ({
            let (m2, o) = spec_step(m, EventView::IpFetched(None));
            &&& m2.core.app_state == m.core.app_state
            &&& m2.core.vpn_ip == m.core.vpn_ip
            &&& m2.core.fail_streak == m.core.fail_streak
            &&& m2.core.start_fail_streak == m.core.start_fail_streak
            &&& o.redetect == Some(Err::<IpAddress, Seq<char>>(redetect_failed_message()))
        }),
{
}

/// A successful re-detection records the new VPN IP and clears the streak; it
/// resumes torrents when PAUSED or DEGRADED, and is NOMINAL otherwise.
pub proof fn lemma_redetect_success(m: MonitorView, a: IpAddress)
    requires
        m.wf(),
        m.core.phase is Redetecting,
    ensures
        ({
            let (m2, o) = spec_step(m, EventView::IpFetched(Some(a)));
            &&& m2.core.vpn_ip == Some(a)
            &&& m2.core.fail_streak == 0
            &&& (m.core.app_state == AppState::Paused || m.core.app_state == AppState::Degraded
                ==> o.action == MonitorAction::ResumeAll)
            &&& (!(m.core.app_state == AppState::Paused || m.core.app_state == AppState::Degraded)
                ==> m2.core.app_state == AppState::Nominal && o.redetect == Some(Ok::<IpAddress, Seq<char>>(a)))
        }),
{
}

/// After the VPN's return, a successful resume is NOMINAL with the streak
/// cleared; a failed one stays PAUSED and is retried at the next poll.
pub proof fn lemma_recovery_outcome(m: MonitorView, r: Result<(), Seq<char>>)
    requires
        m.wf(),
        m.core.phase is Resuming,
    ensures
        ({
            let (m2, o) = spec_step(m, EventView::ResumeDone(r));
            &&& m2.core.phase is Idle
            &&& o.action == MonitorAction::Wait
            &&& m2.core.vpn_ip == m.core.vpn_ip
            &&& (r is Ok ==> m2.core.app_state == AppState::Nominal && m2.core.fail_streak == 0)
            &&& (r is Err ==> m2.core.app_state == AppState::Paused)
        }),
{
}

/// The resume that follows a re-detection while PAUSED or DEGRADED makes the
/// state NOMINAL when it succeeds and leaves it as it was when it fails; either
/// way the new VPN IP stays recorded and is reported.
pub proof fn lemma_redetect_resume_outcome(m: MonitorView, a: IpAddress, r: Result<(), Seq<char>>)
    requires
        m.wf(),
        m.core.phase == (Phase::RedetectResuming { addr: a }),
    ensures
        ({
            let (m2, o) = spec_step(m, EventView::ResumeDone(r));
            &&& m2.core.vpn_ip == Some(a)
            &&& m2.core.fail_streak == 0
            &&& o.redetect == Some(Ok::<IpAddress, Seq<char>>(a))
            &&& (r is Ok ==> m2.core.app_state == AppState::Nominal)
            &&& (r is Err ==> m2.core.app_state == m.core.app_state)
        }),
{
}

/// A manual pause pauses all torrents and then shows PAUSED, whatever the state.
pub proof fn lemma_manual_pause(m: MonitorView)
    requires
        m.wf(),
        m.core.phase is Idle,
    ensures
        ({
            let (m2, o) = spec_step(m, EventView::Command(CommandView::ManualPause));
            &&& o.action == MonitorAction::PauseAll
            &&& spec_step(m2, EventView::PauseDone).0.core.app_state == AppState::Paused
        }),
{
}

/// A manual resume resumes all torrents; on success the state is NOMINAL with the
/// streak cleared, on failure it is unchanged and the error is shown.
pub proof fn lemma_manual_resume(m: MonitorView, r: Result<(), Seq<char>>)
    requires
        m.wf(),
        m.core.phase is Idle,
    ensures
        ({
            let (m2, o) = spec_step(m, EventView::Command(CommandView::ManualResume));
            let (m3, o3) = spec_step(m2, EventView::ResumeDone(r));
            &&& o.action == MonitorAction::ResumeAll
            &&& (r is Ok ==> m3.core.app_state == AppState::Nominal && m3.core.fail_streak == 0)
            &&& (r matches Err(e) ==> m3.core.app_state == m.core.app_state
                && o3.transient == Some(resume_failed_message(e)))
        }),
{
}

/// Saved settings apply to the running monitor at once: it takes the new
/// configuration and password and logs in with them, keeping its state.
pub proof fn lemma_reload_applies_config(m: MonitorView, config: ConfigView, password: Seq<char>)
    requires
        m.wf(),
        m.core.phase is Idle,
    ensures
        ({
            let (m2, o) = spec_step(m, EventView::Command(CommandView::ReloadConfig { config, password }));
            &&& m2.config == config
            &&& m2.password == password
            &&& o.action == MonitorAction::Login
            &&& m2.core.app_state == m.core.app_state
            &&& m2.core.vpn_ip == m.core.vpn_ip
        }),
{
}

/// One poll: the tick, the fetch answered with `ip`, and the pause it may ask for,
/// completed.
pub open spec fn poll_cycle(m: MonitorView, ip: Option<IpAddress>) -> MonitorView {
    let m1 = spec_step(m, EventView::PollDue).0;
    let (m2, o2) = spec_step(m1, EventView::IpFetched(ip));
    if o2.action == MonitorAction::PauseAll {
        spec_step(m2, EventView::PauseDone).0
    } else {
        m2
    }
}

/// Consecutive polls answered with `ips`, in order.
pub open spec fn poll_cycles(m: MonitorView, ips: Seq<Option<IpAddress>>) -> MonitorView
    decreases ips.len(),
{
    if ips.len() == 0 {
        m
    } else {
        poll_cycles(poll_cycle(m, ips[0]), ips.drop_first())
    }
}

/// A leak is caught after exactly `fail_threshold` consecutive bad polls: from
/// NOMINAL or DEGRADED with a streak below the threshold, polls that never see the
/// VPN IP (another IP, or none at all) leave torrents running, DEGRADED, while the
/// streak is below the threshold, and the poll that brings it to the threshold
/// pauses them: the state is then PAUSED.
pub proof fn lemma_leak_paused_at_threshold(m: MonitorView, ips: Seq<Option<IpAddress>>)
    requires
        m.wf(),
        m.core.phase is Idle,
        m.core.app_state == AppState::Nominal || m.core.app_state == AppState::Degraded,
        m.core.vpn_ip is Some,
        forall|i: int| 0 <= i < ips.len() ==> #[trigger] ips[i] != m.core.vpn_ip,
        m.core.fail_streak + ips.len() <= m.config.fail_threshold,
    ensures
        ({
            let m2 = poll_cycles(m, ips);
            &&& m2.wf()
            &&& m2.core.phase is Idle
            &&& m2.core.vpn_ip == m.core.vpn_ip
            &&& m2.config == m.config
            &&& m2.core.fail_streak == m.core.fail_streak + ips.len()
            &&& (ips.len() > 0 && m.core.fail_streak + ips.len() < m.config.fail_threshold
                ==> m2.core.app_state == AppState::Degraded)
            &&& (ips.len() > 0 && m.core.fail_streak + ips.len() == m.config.fail_threshold
                ==> m2.core.app_state == AppState::Paused)
        }),
    decreases ips.len(),
{
    if ips.len() > 0 {
        let m1 = spec_step(m, EventView::PollDue).0;
        assert(m1.core.phase is Polling);
        assert(ips[0] != m.core.vpn_ip);
        let next = poll_cycle(m, ips[0]);
        let rest = ips.drop_first();
        assert forall|i: int| 0 <= i < rest.len() implies #[trigger] rest[i] != next.core.vpn_ip by {
            assert(rest[i] == ips[i + 1]);
        }
        assert(poll_cycles(m, ips) == poll_cycles(next, rest));
        assert(next.core.phase is Idle);
        assert(next.core.vpn_ip == m.core.vpn_ip);
        assert(next.config == m.config);
        assert(next.core.fail_streak == m.core.fail_streak + 1);
        assert(next.wf());
        if m.core.fail_streak + 1 < m.config.fail_threshold {
            assert(next.core.app_state == AppState::Degraded);
            lemma_leak_paused_at_threshold(next, rest);
        } else {
            assert(next.core.app_state == AppState::Paused);
            assert(rest.len() == 0);
            assert(poll_cycles(next, rest) == next);
        }
    }
}

/// While STARTING, failed fetches leave torrents alone until the startup streak
/// reaches its limit (`max(3 * fail_threshold, 3)`); the failed fetch that reaches
/// it pauses them as a precaution: the state is then PAUSED, still without a VPN IP.
pub proof fn lemma_startup_paused_at_limit(m: MonitorView, n: nat)
    requires
        m.wf(),
        m.core.phase is Idle,
        m.core.app_state == AppState::Starting,
        m.core.start_fail_streak + n <= start_limit(m.config.fail_threshold),
    ensures
        ({
            let m2 = poll_cycles(m, Seq::new(n, |i: int| None::<IpAddress>));
            &&& m2.wf()
            &&& m2.core.phase is Idle
            &&& m2.core.vpn_ip is None
            &&& m2.config == m.config
            &&& m2.core.start_fail_streak == m.core.start_fail_streak + n
            &&& (m.core.start_fail_streak + n < start_limit(m.config.fail_threshold)
                ==> m2.core.app_state == AppState::Starting)
            &&& (n > 0 && m.core.start_fail_streak + n == start_limit(m.config.fail_threshold)
                ==> m2.core.app_state == AppState::Paused)
        }),
    decreases n,
{
    let ips = Seq::new(n, |i: int| None::<IpAddress>);
    if n > 0 {
        let next = poll_cycle(m, None);
        let rest = Seq::new((n - 1) as nat, |i: int| None::<IpAddress>);
        assert(ips[0] is None);
        assert(ips.drop_first() =~= rest);
        assert(poll_cycles(m, ips) == poll_cycles(next, rest));
        assert(next.core.phase is Idle);
        assert(next.core.vpn_ip is None);
        assert(next.config == m.config);
        assert(next.core.start_fail_streak == m.core.start_fail_streak + 1);
        assert(next.wf());
        if m.core.start_fail_streak + 1 < start_limit(m.config.fail_threshold) {
            assert(next.core.app_state == AppState::Starting);
            lemma_startup_paused_at_limit(next, (n - 1) as nat);
        } else {
            assert(next.core.app_state == AppState::Paused);
            assert(poll_cycles(next, rest) == next);
        }
    } else {
        assert(poll_cycles(m, ips) == m);
    }
}

/// Torrents are resumed only when a poll while PAUSED sees the recorded VPN IP
/// again, or at the user's request (a manual resume, or a successful re-detection
/// while PAUSED or DEGRADED): every awaited event answered with a resume is one of
/// these.
pub proof fn lemma_resume_only_on_vpn_or_request(m: MonitorView, e: EventView)
    requires
        m.wf(),
        accepts(m.core.phase, e),
        spec_step(m, e).1.action == MonitorAction::ResumeAll,
    ensures
        ({
            ||| e == EventView::Command(CommandView::ManualResume)
            ||| (m.core.phase is Redetecting && (e matches EventView::IpFetched(Some(_)))
                && (m.core.app_state == AppState::Paused || m.core.app_state == AppState::Degraded))
            ||| (m.core.app_state == AppState::Paused && m.core.vpn_ip is Some && (
                (m.core.phase matches Phase::CheckingActive { ip } && ip == m.core.vpn_ip)
                || (m.core.phase matches Phase::Repausing { ip, .. } && ip == m.core.vpn_ip)))
        }),
{
}

/// Torrents are paused only when STARTING gave up on finding the VPN IP, when the
/// failure streak reached the threshold, when torrents download while PAUSED, or
/// at the user's request: every awaited event answered with a pause is one of
/// these.
pub proof fn lemma_pause_only_when_documented(m: MonitorView, e: EventView)
    requires
        m.wf(),
        accepts(m.core.phase, e),
        spec_step(m, e).1.action == MonitorAction::PauseAll,
    ensures
        ({
            ||| e == EventView::Command(CommandView::ManualPause)
            ||| (m.core.phase is Polling && m.core.app_state == AppState::Starting && e == EventView::IpFetched(None)
                && spec_step(m, e).0.core.start_fail_streak >= start_limit(m.config.fail_threshold))
            ||| (m.core.phase is Polling && (m.core.app_state == AppState::Nominal
                || m.core.app_state == AppState::Degraded) && m.core.vpn_ip is Some
                && (e matches EventView::IpFetched(ip) && ip != m.core.vpn_ip)
                && spec_step(m, e).0.core.fail_streak >= m.config.fail_threshold)
            ||| (m.core.phase is CheckingActive && (e matches EventView::ActiveCount(Ok(n)) && n > 0))
        }),
{
}

/// The startup limit in numbers: three times the threshold, but at least three,
/// and `u32::MAX` when three times the threshold does not fit in a `u32`.
pub proof fn lemma_start_limit_value(t: u32)
    ensures
        t == 0 ==> start_limit(t) == 3,
        1 <= t && 3 * t <= u32::MAX ==> start_limit(t) == 3 * t,
        3 * t > u32::MAX ==> start_limit(t) == u32::MAX,
        start_limit(t) >= 3,
        start_limit(t) >= t,
{
}

/// While PAUSED with a recorded VPN IP, a poll that fetches the VPN IP resumes
/// torrents in the same poll, whether or not torrents downloading meanwhile had to
/// be paused again first (and whatever the count of them came back as): the state
/// becomes RECOVERY and the monitor asks to resume all torrents.
pub proof fn lemma_paused_poll_recovers(m: MonitorView, count: Result<usize, Seq<char>>)
    requires
        m.wf(),
        m.core.phase is Idle,
        m.core.app_state == AppState::Paused,
        m.core.vpn_ip is Some,
    ensures
        ({
            let m1 = spec_step(m, EventView::PollDue).0;
            let m2 = spec_step(m1, EventView::IpFetched(m.core.vpn_ip)).0;
            let (m3, o3) = spec_step(m2, EventView::ActiveCount(count));
            let (m4, o4) = spec_step(m3, EventView::PauseDone);
            if count matches Ok(n) && n > 0 {
                &&& o3.action == MonitorAction::PauseAll
                &&& o4.action == MonitorAction::ResumeAll
                &&& m4.core.app_state == AppState::Recovery
                &&& m4.core.vpn_ip == m.core.vpn_ip
            } else {
                &&& o3.action == MonitorAction::ResumeAll
                &&& m3.core.app_state == AppState::Recovery
                &&& m3.core.vpn_ip == m.core.vpn_ip
            }
        }),
{
}

/// While PAUSED, a poll that does not fetch the recorded VPN IP never resumes
/// torrents in that poll: the state stays PAUSED.
pub proof fn lemma_paused_poll_without_vpn_stays(m: MonitorView, ip: Option<IpAddress>, count: Result<usize, Seq<char>>)
    requires
        m.wf(),
        m.core.phase is Idle,
        m.core.app_state == AppState::Paused,
        m.core.vpn_ip is None || ip != m.core.vpn_ip,
    ensures
        ({
            let m1 = spec_step(m, EventView::PollDue).0;
            let m2 = spec_step(m1, EventView::IpFetched(ip)).0;
            let (m3, o3) = spec_step(m2, EventView::ActiveCount(count));
            let (m4, o4) = spec_step(m3, EventView::PauseDone);
            if count matches Ok(n) && n > 0 {
                &&& o4.action == MonitorAction::Wait
                &&& m4.core.app_state == AppState::Paused
            } else {
                &&& o3.action == MonitorAction::Wait
                &&& m3.core.app_state == AppState::Paused
            }
        }),
{
}

} // verus!
