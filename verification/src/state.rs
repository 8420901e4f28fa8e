use vstd::prelude::*;

use crate::config::{Config, ConfigView};

verus! {

/// Phase of the killswitch as shown to the user.
#[derive(Debug, Clone, Copy, PartialEq, Eq, Structural)]
pub enum AppState {
    Starting,
    Nominal,
    Degraded,
    Paused,
    Recovery,
}

impl AppState {
    /// Upper-case name shown in the status bar and tray.
    pub open spec fn spec_label(self) -> Seq<char> {
        match self {
            AppState::Starting => "STARTING"@,
            AppState::Nominal => "NOMINAL"@,
            AppState::Degraded => "DEGRADED"@,
            AppState::Paused => "PAUSED"@,
            AppState::Recovery => "RECOVERING"@,
        }
    }

    pub fn label(self) -> (r: &'static str)
        ensures
            r@ == self.spec_label(),
    {
        match self {
            AppState::Starting => "STARTING",
            AppState::Nominal => "NOMINAL",
            AppState::Degraded => "DEGRADED",
            AppState::Paused => "PAUSED",
            AppState::Recovery => "RECOVERING",
        }
    }
}

impl AppState {
    /// Colour (red, green, blue) of the status dot and tray icon.
    pub open spec fn spec_rgb(self) -> (u8, u8, u8) {
        match self {
            AppState::Starting => (150, 150, 150),
            AppState::Nominal => (40, 200, 40),
            AppState::Degraded => (240, 195, 0),
            AppState::Paused => (220, 40, 40),
            AppState::Recovery => (0, 210, 210),
        }
    }

    /// RGB tuple used by the GUI to paint dots and generate tray icons.
    pub fn rgb(self) -> (r: (u8, u8, u8))
        ensures
            r == self.spec_rgb(),
    {
        match self {
            AppState::Starting => (150, 150, 150),
            AppState::Nominal => (40, 200, 40),
            AppState::Degraded => (240, 195, 0),
            AppState::Paused => (220, 40, 40),
            AppState::Recovery => (0, 210, 210),
        }
    }
}

/// A public IP address as the echo services report it: IPv4 as its 32-bit value,
/// IPv6 as its 128-bit value.
#[derive(Debug, Clone, Copy, PartialEq, Eq, Structural)]
pub enum IpAddress {
    V4(u32),
    V6(u128),
}

/// Requests from the GUI to the monitor.
#[derive(Debug)]
pub enum MonitorCommand {
    /// Re-detect the VPN IP and resume if currently paused/degraded.
    RedetectVpnIp,
    /// Force-pause all torrents regardless of IP state.
    ManualPause,
    /// Force-resume all torrents (transitions to Nominal).
    ManualResume,
    /// Apply a new config after the user saves settings.
    ReloadConfig { config: Config, password: String },
}

/// A command as mathematical values.
pub enum CommandView {
    RedetectVpnIp,
    ManualPause,
    ManualResume,
    ReloadConfig { config: ConfigView, password: Seq<char> },
}

impl View for MonitorCommand {
    type V = CommandView;

    open spec fn view(&self) -> CommandView {
        match self {
            MonitorCommand::RedetectVpnIp => CommandView::RedetectVpnIp,
            MonitorCommand::ManualPause => CommandView::ManualPause,
            MonitorCommand::ManualResume => CommandView::ManualResume,
            MonitorCommand::ReloadConfig { config, password } => CommandView::ReloadConfig {
                config: config@,
                password: password@,
            },
        }
    }
}

} // verus!
