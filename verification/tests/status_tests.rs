use qbit_killswitch::config::Config;
use qbit_killswitch::form::FormState;
use qbit_killswitch::state::AppState;
use qbit_killswitch::status::{
    apply_auto_launch_result, blink_phase, close_action, menu_action, recovery_dimmed,
    redetect_message, status_line, status_rgb, transient_visible, tray_view, warning_after_save,
    CloseAction, MenuAction,
};

fn ip(t: &str) -> Option<String> {
    Some(t.to_string())
}

#[test]
fn status_line_for_each_state() {
    assert_eq!(status_line(AppState::Starting, &None, false, 0, 2), "STARTING — waiting for VPN…");
    assert_eq!(status_line(AppState::Nominal, &ip("185.1.2.3"), false, 0, 2), "NOMINAL — VPN IP: 185.1.2.3");
    assert_eq!(status_line(AppState::Nominal, &None, false, 0, 2), "NOMINAL — VPN IP: —");
    assert_eq!(
        status_line(AppState::Nominal, &ip("1.1.1.1"), true, 0, 2),
        "⚠ Keychain unavailable — password stored in plaintext"
    );
    assert_eq!(status_line(AppState::Degraded, &None, false, 1, 12), "DEGRADED — streak 1/12");
    assert_eq!(status_line(AppState::Paused, &None, false, 0, 2), "PAUSED — torrents halted");
    assert_eq!(status_line(AppState::Recovery, &None, false, 0, 2), "RECOVERING…");
}

#[test]
fn status_colour_warns_about_keychain() {
    assert_eq!(status_rgb(AppState::Nominal, true), (240, 195, 0));
    assert_eq!(status_rgb(AppState::Nominal, false), (40, 200, 40));
    assert_eq!(status_rgb(AppState::Paused, true), (220, 40, 40));
}

#[test]
fn tray_view_texts_and_resume_item() {
    let v = tray_view(AppState::Paused, &ip("10.0.0.1"), true);
    assert_eq!(v.icon_rgb, (220, 40, 40));
    assert_eq!(v.tooltip, "qbit-killswitch — PAUSED");
    assert_eq!(v.status_text, "Status: PAUSED");
    assert_eq!(v.ip_text, "VPN IP: 10.0.0.1");
    assert!(v.resume_enabled);
    assert!(tray_view(AppState::Degraded, &None, true).resume_enabled);
    assert!(!tray_view(AppState::Nominal, &None, true).resume_enabled);
    assert!(!tray_view(AppState::Starting, &None, true).resume_enabled);
    assert!(tray_view(AppState::Recovery, &None, true).resume_enabled);
    assert_eq!(tray_view(AppState::Starting, &None, true).ip_text, "VPN IP: —");
}

#[test]
fn recovery_blinks_grey() {
    assert_eq!(tray_view(AppState::Recovery, &None, false).icon_rgb, (100, 100, 100));
    assert_eq!(tray_view(AppState::Recovery, &None, true).icon_rgb, (0, 210, 210));
    assert!(recovery_dimmed(AppState::Recovery, false));
    assert!(!recovery_dimmed(AppState::Recovery, true));
    assert!(!recovery_dimmed(AppState::Paused, false));
}

#[test]
fn blink_and_transient_timing() {
    assert!(blink_phase(0));
    assert!(blink_phase(499));
    assert!(!blink_phase(500));
    assert!(blink_phase(1000));
    assert!(transient_visible(2_999_999_999));
    assert!(!transient_visible(3_000_000_000));
}

#[test]
fn redetect_messages() {
    assert_eq!(redetect_message(&Ok("1.2.3.4".to_string())), "VPN IP updated to 1.2.3.4");
    assert_eq!(redetect_message(&Err("no service".to_string())), "no service");
}

#[test]
fn menu_ids() {
    assert_eq!(menu_action("open"), MenuAction::Open);
    assert_eq!(menu_action("quit"), MenuAction::Quit);
    assert_eq!(menu_action("resume"), MenuAction::Resume);
    assert_eq!(menu_action("pause"), MenuAction::Pause);
    assert_eq!(menu_action("redetect"), MenuAction::Redetect);
    assert_eq!(menu_action("status"), MenuAction::Ignore);
}

#[test]
fn close_goes_to_tray_or_asks() {
    let saved = FormState::from(&Config::default(), "pw");
    let same = saved.cloned();
    let mut changed = saved.cloned();
    changed.password = "x".to_string();
    assert_eq!(close_action(true, true, &changed, &saved), CloseAction::Close);
    assert_eq!(close_action(false, false, &changed, &saved), CloseAction::AskUnsaved { then_close: true });
    assert_eq!(close_action(false, true, &changed, &saved), CloseAction::AskUnsaved { then_close: false });
    assert_eq!(close_action(false, true, &same, &saved), CloseAction::HideToTray);
    assert_eq!(close_action(false, false, &same, &saved), CloseAction::Close);
}

#[test]
fn auto_launch_toggle_outcomes() {
    let mut saved = FormState::from(&Config::default(), "pw");
    let mut editing = saved.cloned();
    editing.config.launch_at_startup = true;
    assert_eq!(apply_auto_launch_result(&mut editing, &mut saved, Ok(())), None);
    assert!(saved.config.launch_at_startup);
    assert!(editing.config.launch_at_startup);

    let mut saved = FormState::from(&Config::default(), "pw");
    let mut editing = saved.cloned();
    editing.config.launch_at_startup = true;
    let msg = apply_auto_launch_result(&mut editing, &mut saved, Err("denied".to_string()));
    assert_eq!(msg, Some("Auto-launch error: denied".to_string()));
    assert!(!editing.config.launch_at_startup);
    assert!(!saved.config.launch_at_startup);
}

#[test]
fn keychain_warning_lasts_until_keychain_is_turned_off() {
    assert!(warning_after_save(true, true));
    assert!(!warning_after_save(true, false));
    assert!(!warning_after_save(false, true));
}
