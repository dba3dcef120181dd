//! A status board: periodic health checks of configured services, the rules
//! that turn raw check results into debounced service states, incident and
//! alert decisions, and the reports served to the dashboard.

pub mod text;
pub mod state;
pub mod telegram;
pub mod config;
pub mod checker;
pub mod time;
pub mod routes;
