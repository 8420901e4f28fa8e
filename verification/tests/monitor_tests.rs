use qbit_killswitch::config::Config;
use qbit_killswitch::monitor::{MonitorAction, MonitorEvent, MonitorTask};
use qbit_killswitch::state::{AppState, IpAddress, MonitorCommand};

const VPN: IpAddress = IpAddress::V4(0xB9_01_02_03);
const LEAK: IpAddress = IpAddress::V4(0x0A_00_00_01);

fn config(threshold: u32) -> Config {
    let mut c = Config::default();
    c.fail_threshold = threshold;
    c
}

/// A monitor that has logged in and is waiting.
fn started(threshold: u32) -> MonitorTask {
    let mut m = MonitorTask::new(config(threshold), "pw".to_string());
    assert_eq!(m.pending_action(), MonitorAction::Login);
    let out = m.step(MonitorEvent::LoginDone);
    assert_eq!(out.action, MonitorAction::Wait);
    m
}

fn poll(m: &mut MonitorTask, ip: Option<IpAddress>) -> MonitorAction {
    assert_eq!(m.step(MonitorEvent::PollDue).action, MonitorAction::FetchIp);
    m.step(MonitorEvent::IpFetched(ip)).action
}

/// A monitor that recorded the VPN IP.
fn nominal(threshold: u32) -> MonitorTask {
    let mut m = started(threshold);
    assert_eq!(poll(&mut m, Some(VPN)), MonitorAction::Wait);
    m
}

#[test]
fn new_monitor_starts_logged_out_and_starting() {
    let m = MonitorTask::new(config(2), "pw".to_string());
    assert_eq!(m.app_state(), AppState::Starting);
    assert_eq!(m.vpn_ip(), None);
    assert_eq!(m.fail_streak(), 0);
    assert_eq!(m.start_fail_streak(), 0);
    assert_eq!(m.password(), "pw");
    assert_eq!(m.config().fail_threshold, 2);
}

#[test]
fn first_ip_while_starting_becomes_the_vpn_ip() {
    let m = nominal(2);
    assert_eq!(m.app_state(), AppState::Nominal);
    assert_eq!(m.vpn_ip(), Some(VPN));
}

#[test]
fn starting_pauses_after_three_times_threshold_failures() {
    let mut m = started(2);
    for i in 1..6u32 {
        assert_eq!(poll(&mut m, None), MonitorAction::Wait);
        assert_eq!(m.start_fail_streak(), i);
        assert_eq!(m.app_state(), AppState::Starting);
    }
    assert_eq!(poll(&mut m, None), MonitorAction::PauseAll);
    let out = m.step(MonitorEvent::PauseDone);
    assert_eq!(out.action, MonitorAction::Wait);
    assert!(out.publish);
    assert_eq!(m.app_state(), AppState::Paused);
    assert_eq!(
        out.transient.as_deref(),
        Some("Could not determine VPN IP — torrents paused as a precaution")
    );
}

#[test]
fn starting_limit_is_at_least_three() {
    let mut m = started(1);
    assert_eq!(poll(&mut m, None), MonitorAction::Wait);
    assert_eq!(poll(&mut m, None), MonitorAction::Wait);
    assert_eq!(poll(&mut m, None), MonitorAction::PauseAll);
}

#[test]
fn mismatch_degrades_then_pauses_at_threshold() {
    let mut m = nominal(2);
    assert_eq!(poll(&mut m, Some(LEAK)), MonitorAction::Wait);
    assert_eq!(m.app_state(), AppState::Degraded);
    assert_eq!(m.fail_streak(), 1);
    assert_eq!(poll(&mut m, None), MonitorAction::PauseAll);
    assert_eq!(m.fail_streak(), 2);
    assert_eq!(m.app_state(), AppState::Degraded);
    m.step(MonitorEvent::PauseDone);
    assert_eq!(m.app_state(), AppState::Paused);
}

#[test]
fn matching_ip_clears_the_streak() {
    let mut m = nominal(3);
    poll(&mut m, Some(LEAK));
    assert_eq!(m.app_state(), AppState::Degraded);
    assert_eq!(poll(&mut m, Some(VPN)), MonitorAction::Wait);
    assert_eq!(m.app_state(), AppState::Nominal);
    assert_eq!(m.fail_streak(), 0);
}

fn paused(threshold: u32) -> MonitorTask {
    let mut m = nominal(threshold);
    for _ in 0..threshold {
        poll(&mut m, Some(LEAK));
    }
    m.step(MonitorEvent::PauseDone);
    assert_eq!(m.app_state(), AppState::Paused);
    m
}

#[test]
fn paused_poll_repauses_torrents_resumed_outside() {
    let mut m = paused(1);
    assert_eq!(poll(&mut m, Some(LEAK)), MonitorAction::CountActive);
    assert_eq!(m.step(MonitorEvent::ActiveCount(Ok(3))).action, MonitorAction::PauseAll);
    let out = m.step(MonitorEvent::PauseDone);
    assert_eq!(out.action, MonitorAction::Wait);
    assert_eq!(out.transient.as_deref(), Some("Re-paused 3 torrent(s) that were manually resumed"));
    assert_eq!(m.app_state(), AppState::Paused);
}

#[test]
fn vpn_return_recovers_and_resumes() {
    let mut m = paused(1);
    assert_eq!(poll(&mut m, Some(VPN)), MonitorAction::CountActive);
    let out = m.step(MonitorEvent::ActiveCount(Ok(0)));
    assert_eq!(out.action, MonitorAction::ResumeAll);
    assert!(out.publish);
    assert_eq!(m.app_state(), AppState::Recovery);
    let out = m.step(MonitorEvent::ResumeDone(Ok(())));
    assert_eq!(out.action, MonitorAction::Wait);
    assert_eq!(m.app_state(), AppState::Nominal);
    assert_eq!(m.fail_streak(), 0);
}

#[test]
fn failed_resume_stays_paused() {
    let mut m = paused(1);
    poll(&mut m, Some(VPN));
    m.step(MonitorEvent::ActiveCount(Err("timeout".to_string())));
    assert_eq!(m.app_state(), AppState::Recovery);
    m.step(MonitorEvent::ResumeDone(Err("POST /api/v2/torrents/resume failed".to_string())));
    assert_eq!(m.app_state(), AppState::Paused);
}

#[test]
fn redetect_records_new_ip_and_resumes_when_paused() {
    let mut m = paused(1);
    let out = m.step(MonitorEvent::Command(MonitorCommand::RedetectVpnIp));
    assert_eq!(out.action, MonitorAction::FetchIp);
    let out = m.step(MonitorEvent::IpFetched(Some(LEAK)));
    assert_eq!(out.action, MonitorAction::ResumeAll);
    assert_eq!(m.vpn_ip(), Some(LEAK));
    let out = m.step(MonitorEvent::ResumeDone(Ok(())));
    assert_eq!(out.redetect, Some(Ok(LEAK)));
    assert_eq!(m.app_state(), AppState::Nominal);
}

#[test]
fn redetect_when_nominal_updates_ip() {
    let mut m = nominal(2);
    m.step(MonitorEvent::Command(MonitorCommand::RedetectVpnIp));
    let out = m.step(MonitorEvent::IpFetched(Some(LEAK)));
    assert_eq!(out.action, MonitorAction::Wait);
    assert_eq!(out.redetect, Some(Ok(LEAK)));
    assert_eq!(m.vpn_ip(), Some(LEAK));
    assert_eq!(m.app_state(), AppState::Nominal);
}

#[test]
fn failed_redetect_changes_nothing() {
    let mut m = nominal(3);
    poll(&mut m, Some(LEAK));
    m.step(MonitorEvent::Command(MonitorCommand::RedetectVpnIp));
    let out = m.step(MonitorEvent::IpFetched(None));
    assert_eq!(
        out.redetect,
        Some(Err("Could not reach any IP check service — try again".to_string()))
    );
    assert_eq!(m.app_state(), AppState::Degraded);
    assert_eq!(m.vpn_ip(), Some(VPN));
    assert_eq!(m.fail_streak(), 1);
}

#[test]
fn manual_pause_and_resume() {
    let mut m = nominal(2);
    assert_eq!(m.step(MonitorEvent::Command(MonitorCommand::ManualPause)).action, MonitorAction::PauseAll);
    m.step(MonitorEvent::PauseDone);
    assert_eq!(m.app_state(), AppState::Paused);
    assert_eq!(m.step(MonitorEvent::Command(MonitorCommand::ManualResume)).action, MonitorAction::ResumeAll);
    let out = m.step(MonitorEvent::ResumeDone(Err("boom".to_string())));
    assert_eq!(out.transient.as_deref(), Some("Resume failed: boom"));
    assert_eq!(m.app_state(), AppState::Paused);
    m.step(MonitorEvent::Command(MonitorCommand::ManualResume));
    m.step(MonitorEvent::ResumeDone(Ok(())));
    assert_eq!(m.app_state(), AppState::Nominal);
}

#[test]
fn nominal_without_vpn_ip_goes_back_to_starting() {
    let mut m = started(2);
    m.step(MonitorEvent::Command(MonitorCommand::ManualResume));
    m.step(MonitorEvent::ResumeDone(Ok(())));
    assert_eq!(m.app_state(), AppState::Nominal);
    assert_eq!(poll(&mut m, Some(VPN)), MonitorAction::Wait);
    assert_eq!(m.app_state(), AppState::Starting);
}

#[test]
fn reload_replaces_config_and_logs_in() {
    let mut m = nominal(2);
    let mut c = config(5);
    c.qbit_user = "bob".to_string();
    let out = m.step(MonitorEvent::Command(MonitorCommand::ReloadConfig { config: c, password: "new".to_string() }));
    assert_eq!(out.action, MonitorAction::Login);
    assert_eq!(m.config().fail_threshold, 5);
    assert_eq!(m.config().qbit_user, "bob");
    assert_eq!(m.password(), "new");
    assert_eq!(m.step(MonitorEvent::LoginDone).action, MonitorAction::Wait);
    assert_eq!(m.app_state(), AppState::Nominal);
}

#[test]
fn unexpected_events_are_ignored() {
    let mut m = nominal(2);
    let out = m.step(MonitorEvent::PauseDone);
    assert_eq!(out.action, MonitorAction::Wait);
    assert!(!out.publish);
    assert_eq!(m.app_state(), AppState::Nominal);
    m.step(MonitorEvent::PollDue);
    let out = m.step(MonitorEvent::PollDue);
    assert_eq!(out.action, MonitorAction::FetchIp);
    assert_eq!(m.pending_action(), MonitorAction::FetchIp);
}

#[test]
fn redetect_keeps_state_when_its_resume_fails() {
    let mut m = nominal(3);
    poll(&mut m, None);
    assert_eq!(m.app_state(), AppState::Degraded);
    m.step(MonitorEvent::Command(MonitorCommand::RedetectVpnIp));
    assert_eq!(m.step(MonitorEvent::IpFetched(Some(LEAK))).action, MonitorAction::ResumeAll);
    let out = m.step(MonitorEvent::ResumeDone(Err("POST /api/v2/torrents/resume failed".to_string())));
    assert_eq!(out.redetect, Some(Ok(LEAK)));
    assert_eq!(m.app_state(), AppState::Degraded);
    assert_eq!(m.vpn_ip(), Some(LEAK));
    assert_eq!(m.fail_streak(), 0);
}
