use vstd::prelude::*;

use crate::form::FormState;
use crate::state::AppState;
use crate::text::{concat2, decimal, same_text, spec_decimal};

verus! {

// ── Header status line ────────────────────────────────────────────────────────

/// The text shown for the VPN IP: its address, or a dash when none is recorded.
pub open spec fn spec_ip_text(ip_text: Option<Seq<char>>) -> Seq<char> {
    match ip_text {
        Some(t) => t,
        None => "—"@,
    }
}

fn ip_text_or_dash(ip_text: &Option<String>) -> (r: String)
    ensures
        r@ == spec_ip_text(
            match ip_text {
                Some(t) => Some(t@),
                None => None,
            },
        ),
{
    match ip_text {
        Some(t) => t.clone(),
        None => String::from_str("—"),
    }
}

/// The label of the status bar for a state. With the keychain warning, the
/// NOMINAL label is replaced by the warning.
pub open spec fn spec_status_line(
    state: AppState,
    ip_text: Option<Seq<char>>,
    keychain_warning: bool,
    fail_streak: u32,
    fail_threshold: u32,
) -> Seq<char> {
    match state {
        AppState::Starting => "STARTING — waiting for VPN…"@,
        AppState::Nominal => if keychain_warning {
            "⚠ Keychain unavailable — password stored in plaintext"@
        } else {
            "NOMINAL — VPN IP: "@ + spec_ip_text(ip_text)
        },
        AppState::Degraded => "DEGRADED — streak "@ + spec_decimal(fail_streak as nat) + "/"@ + spec_decimal(
            fail_threshold as nat,
        ),
        AppState::Paused => "PAUSED — torrents halted"@,
        AppState::Recovery => "RECOVERING…"@,
    }
}

/// The label of the status bar. `vpn_ip_text` is the recorded VPN IP as text.
pub fn status_line(
    state: AppState,
    vpn_ip_text: &Option<String>,
    keychain_warning: bool,
    fail_streak: u32,
    fail_threshold: u32,
) -> (r: String)
    ensures
        r@ == spec_status_line(
            state,
            match vpn_ip_text {
                Some(t) => Some(t@),
                None => None,
            },
            keychain_warning,
            fail_streak,
            fail_threshold,
        ),
{
    match state {
        AppState::Starting => String::from_str("STARTING — waiting for VPN…"),
        AppState::Nominal => {
            if keychain_warning {
                String::from_str("⚠ Keychain unavailable — password stored in plaintext")
            } else {
                let ip = ip_text_or_dash(vpn_ip_text);
                concat2("NOMINAL — VPN IP: ", ip.as_str())
            }
        },
        AppState::Degraded => {
            let mut s = String::from_str("DEGRADED — streak ");
            let a = decimal(fail_streak as u64);
            let b = decimal(fail_threshold as u64);
            s.append(a.as_str());
            s.append("/");
            s.append(b.as_str());
            s
        },
        AppState::Paused => String::from_str("PAUSED — torrents halted"),
        AppState::Recovery => String::from_str("RECOVERING…"),
    }
}

/// The keychain warning persists until a restart with a working keychain, or until
/// settings are saved with the keychain turned off.
pub fn warning_after_save(keychain_warning: bool, saved_use_keychain: bool) -> (r: bool)
    ensures
        r == (keychain_warning && saved_use_keychain),
{
    keychain_warning && saved_use_keychain
}

pub open spec fn spec_status_rgb(state: AppState, keychain_warning: bool) -> (u8, u8, u8) {
    if keychain_warning && state == AppState::Nominal {
        (240, 195, 0)
    } else {
        state.spec_rgb()
    }
}

/// Colour of the status label: the state's colour, yellow for the keychain warning.
pub fn status_rgb(state: AppState, keychain_warning: bool) -> (r: (u8, u8, u8))
    ensures
        r == spec_status_rgb(state, keychain_warning),
{
    if keychain_warning && state == AppState::Nominal {
        (240, 195, 0)
    } else {
        state.rgb()
    }
}

// ── Blinking and transient messages ───────────────────────────────────────────

/// The blink phase, which toggles every 500 ms since the window opened.
pub fn blink_phase(elapsed_millis: u128) -> (r: bool)
    ensures
        r == ((elapsed_millis / 500) % 2 == 0),
{
    (elapsed_millis / 500) % 2 == 0
}

/// RECOVERY blinks: in the off phase, the dot and tray icon are dimmed.
pub fn recovery_dimmed(state: AppState, blink_phase: bool) -> (r: bool)
    ensures
        r == (state == AppState::Recovery && !blink_phase),
{
    state == AppState::Recovery && !blink_phase
}

/// A transient message shows for three seconds after it was set.
pub fn transient_visible(elapsed_nanos: u128) -> (r: bool)
    ensures
        r == (elapsed_nanos < 3_000_000_000),
{
    elapsed_nanos < 3_000_000_000
}

pub open spec fn spec_redetect_message(result: Result<Seq<char>, Seq<char>>) -> Seq<char> {
    match result {
        Ok(ip) => "VPN IP updated to "@ + ip,
        Err(e) => e,
    }
}

/// The transient message for the outcome of a re-detection. `Ok` holds the new VPN
/// IP as text.
pub fn redetect_message(result: &Result<String, String>) -> (r: String)
    ensures
        r@ == spec_redetect_message(
            match result {
                Ok(ip) => Ok(ip@),
                Err(e) => Err(e@),
            },
        ),
{
    match result {
        Ok(ip) => concat2("VPN IP updated to ", ip.as_str()),
        Err(e) => e.clone(),
    }
}

// ── Tray ──────────────────────────────────────────────────────────────────────

/// What the tray shows for a state.
#[derive(Debug)]
pub struct TrayView {
    /// Colour of the tray icon.
    pub icon_rgb: (u8, u8, u8),
    pub tooltip: String,
    pub status_text: String,
    pub ip_text: String,
    /// Whether "Resume all torrents" can be clicked.
    pub resume_enabled: bool,
}

pub open spec fn spec_tray_icon_rgb(state: AppState, blink_phase: bool) -> (u8, u8, u8) {
    if state == AppState::Recovery && !blink_phase {
        (100, 100, 100)
    } else {
        state.spec_rgb()
    }
}

/// The tray icon, tooltip and menu texts for a state; the icon blinks grey in
/// RECOVERY, and "Resume" is greyed out while NOMINAL or STARTING.
pub fn tray_view(state: AppState, vpn_ip_text: &Option<String>, blink_phase: bool) -> (r: TrayView)
    ensures
        r.icon_rgb == spec_tray_icon_rgb(state, blink_phase),
        r.tooltip@ == "qbit-killswitch — "@ + state.spec_label(),
        r.status_text@ == "Status: "@ + state.spec_label(),
        r.ip_text@ == "VPN IP: "@ + spec_ip_text(
            match vpn_ip_text {
                Some(t) => Some(t@),
                None => None,
            },
        ),
        r.resume_enabled == !(state == AppState::Nominal || state == AppState::Starting),
{
    let icon_rgb = if state == AppState::Recovery && !blink_phase {
        (100u8, 100u8, 100u8)
    } else {
        state.rgb()
    };
    let label = state.label();
    let ip = ip_text_or_dash(vpn_ip_text);
    TrayView {
        icon_rgb,
        tooltip: concat2("qbit-killswitch — ", label),
        status_text: concat2("Status: ", label),
        ip_text: concat2("VPN IP: ", ip.as_str()),
        resume_enabled: !(state == AppState::Nominal || state == AppState::Starting),
    }
}

/// What a click on a tray menu item asks for.
#[derive(Debug, Clone, Copy, PartialEq, Eq, Structural)]
pub enum MenuAction {
    Open,
    Quit,
    Resume,
    Pause,
    Redetect,
    Ignore,
}

/// The action of the tray menu item with this id.
pub fn menu_action(id: &str) -> (r: MenuAction)
    ensures
        r == (if id@ == "open"@ {
            MenuAction::Open
        } else if id@ == "quit"@ {
            MenuAction::Quit
        } else if id@ == "resume"@ {
            MenuAction::Resume
        } else if id@ == "pause"@ {
            MenuAction::Pause
        } else if id@ == "redetect"@ {
            MenuAction::Redetect
        } else {
            MenuAction::Ignore
        }),
{
    let s = String::from_str(id);
    if same_text(&s, "open") {
        MenuAction::Open
    } else if same_text(&s, "quit") {
        MenuAction::Quit
    } else if same_text(&s, "resume") {
        MenuAction::Resume
    } else if same_text(&s, "pause") {
        MenuAction::Pause
    } else if same_text(&s, "redetect") {
        MenuAction::Redetect
    } else {
        MenuAction::Ignore
    }
}

// ── Closing the window ────────────────────────────────────────────────────────

/// What a request to close the window leads to.
#[derive(Debug, Clone, Copy, PartialEq, Eq, Structural)]
pub enum CloseAction {
    /// Let the window close.
    Close,
    /// Cancel the close and hide the window to the tray.
    HideToTray,
    /// Cancel the close and ask about the unsaved changes; once answered, the window
    /// closes (`then_close`) or goes to the tray.
    AskUnsaved { then_close: bool },
}

/// A forced quit closes at once. Otherwise unsaved changes are asked about first;
/// without any, the window closes, or goes to the tray when minimising to tray is on.
pub fn close_action(force_quit: bool, minimize_to_tray: bool, editing: &FormState, saved: &FormState) -> (r: CloseAction)
    ensures
        r == (if force_quit {
            CloseAction::Close
        } else if crate::form::spec_has_changes(editing@, saved@) {
            CloseAction::AskUnsaved { then_close: !minimize_to_tray }
        } else if minimize_to_tray {
            CloseAction::HideToTray
        } else {
            CloseAction::Close
        }),
{
    if force_quit {
        CloseAction::Close
    } else if editing.has_changes(saved) {
        CloseAction::AskUnsaved { then_close: !minimize_to_tray }
    } else if minimize_to_tray {
        CloseAction::HideToTray
    } else {
        CloseAction::Close
    }
}

pub open spec fn with_launch(c: crate::config::ConfigView, on: bool) -> crate::config::ConfigView {
    crate::config::ConfigView { launch_at_startup: on, ..c }
}

/// Applies the outcome of toggling "Launch at startup": on success the saved form
/// takes the new value; on failure the checkbox reverts and the error is returned
/// for display.
pub fn apply_auto_launch_result(editing: &mut FormState, saved: &mut FormState, result: Result<(), String>) -> (r: Option<String>)
    ensures
        final(editing)@.password == old(editing)@.password,
        final(editing)@.original_user == old(editing)@.original_user,
        final(saved)@.password == old(saved)@.password,
        final(saved)@.original_user == old(saved)@.original_user,
        result is Ok ==> final(saved)@.config == with_launch(old(saved)@.config, old(editing)@.config.launch_at_startup),
        result is Ok ==> final(editing)@.config == old(editing)@.config,
        result is Ok ==> r is None,
        result is Err ==> final(editing)@.config == with_launch(old(editing)@.config, !old(editing)@.config.launch_at_startup),
        result is Err ==> final(saved)@.config == old(saved)@.config,
        result matches Err(e) ==> (r matches Some(m) && m@ == "Auto-launch error: "@ + e@),
{
    match result {
        Ok(()) => {
            saved.config.launch_at_startup = editing.config.launch_at_startup;
            None
        },
        Err(e) => {
            editing.config.launch_at_startup = !editing.config.launch_at_startup;
            Some(concat2("Auto-launch error: ", e.as_str()))
        },
    }
}

/// The keychain warning only ever replaces the NOMINAL label: every other state
/// shows its own text whatever the warning, PAUSED always reading that torrents
/// are halted; with the warning off, NOMINAL shows the VPN IP.
pub proof fn lemma_status_line_warning_only_nominal(
    state: AppState,
    ip_text: Option<Seq<char>>,
    w1: bool,
    w2: bool,
    fail_streak: u32,
    fail_threshold: u32,
)
    ensures
        state != AppState::Nominal ==> spec_status_line(state, ip_text, w1, fail_streak, fail_threshold)
            == spec_status_line(state, ip_text, w2, fail_streak, fail_threshold),
        spec_status_line(AppState::Paused, ip_text, w1, fail_streak, fail_threshold) == "PAUSED — torrents halted"@,
        spec_status_line(AppState::Starting, ip_text, w1, fail_streak, fail_threshold)
            == "STARTING — waiting for VPN…"@,
        spec_status_line(AppState::Recovery, ip_text, w1, fail_streak, fail_threshold) == "RECOVERING…"@,
        spec_status_line(AppState::Degraded, ip_text, w1, fail_streak, fail_threshold) == "DEGRADED — streak "@
            + spec_decimal(fail_streak as nat) + "/"@ + spec_decimal(fail_threshold as nat),
        spec_status_line(AppState::Nominal, Some(ip_text->0), false, fail_streak, fail_threshold)
            == "NOMINAL — VPN IP: "@ + ip_text->0,
        spec_status_line(AppState::Nominal, ip_text, true, fail_streak, fail_threshold)
            == "⚠ Keychain unavailable — password stored in plaintext"@,
{
}

} // verus!
