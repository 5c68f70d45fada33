//! Choosing the crash monitor.
//!
//! The service reports panics and error-level events to a monitor. The
//! library decides which monitor a configuration names — an unknown name
//! is a fatal configuration error for the caller — and carries the chosen
//! monitor's credentials; the transport lives outside the library.

use vstd::prelude::*;

use crate::config::Monitor as MonitorConfig;

verus! {

/// Picks a monitor implementation by its configured name.
pub struct MonitorProvider;

/// The monitor that swallows every report.
#[derive(Debug, Clone)]
pub struct NullMonitor;

/// The network monitor: the credentials its transport posts reports with.
#[derive(Debug, Clone)]
pub struct Rollbar {
    pub access_token: String,
    pub environment: String,
}

impl MonitorProvider {
    /// The monitor a configuration names: the network monitor for
    /// `rollbar`, nothing for any other name.
    pub fn find_with_config(monitor: &str, config: &MonitorConfig) -> (r: Option<Rollbar>)
        ensures
            (r is Some) == (monitor@ == "rollbar"@),
            match r {
                Some(m) => m.access_token@ == config.access_token@ && m.environment@
                    == config.environment@,
                None => true,
            },
    {
        if crate::text::str_eq(monitor, "rollbar") {
            Some(Rollbar::from_config(config))
        } else {
            None
        }
    }

    /// The monitor that reports nowhere.
    pub fn null_monitor() -> (r: NullMonitor)
        ensures
            !r.is_real_spec(),
    {
        NullMonitor
    }
}

impl NullMonitor {
    pub open spec fn is_real_spec(&self) -> bool {
        false
    }

    /// Whether this monitor reports anywhere.
    pub fn is_real(&self) -> (r: bool)
        ensures
            r == self.is_real_spec(),
    {
        false
    }
}

impl Rollbar {
    /// The network monitor with the configured credentials.
    pub fn from_config(config: &MonitorConfig) -> (r: Rollbar)
        ensures
            r.access_token@ == config.access_token@,
            r.environment@ == config.environment@,
    {
        Rollbar {
            access_token: config.access_token.clone(),
            environment: config.environment.clone(),
        }
    }

    pub open spec fn is_real_spec(&self) -> bool {
        true
    }

    /// Whether this monitor reports anywhere.
    pub fn is_real(&self) -> (r: bool)
        ensures
            r == self.is_real_spec(),
    {
        true
    }
}

} // verus!
