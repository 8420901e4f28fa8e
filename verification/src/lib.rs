pub mod config;
pub mod form;
pub mod ipcheck;
pub mod monitor;
pub mod qbit;
pub mod state;
pub mod status;
pub mod text;
pub mod updater;
