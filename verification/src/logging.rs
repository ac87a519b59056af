//! Logging surface shared with the systems built on this core. The
//! subscriber wiring performs I/O and lives outside the verified core; the
//! format choice it is driven by is specified here.

use vstd::prelude::*;

verus! {

/// Log output format.
#[derive(Debug, Clone, Copy, PartialEq, Eq)]
pub enum LogFormat {
    /// Human-readable pretty format, for development.
    Pretty,
    /// JSON format, for production.
    Json,
    /// Compact format.
    Compact,
}

impl LogFormat {
    /// The format's display name.
    pub fn describe(&self) -> (r: &'static str)
        ensures
            r@ == (match *self {
                LogFormat::Pretty => "pretty"@,
                LogFormat::Json => "json"@,
                LogFormat::Compact => "compact"@,
            }),
    {
        match self {
            LogFormat::Pretty => "pretty",
            LogFormat::Json => "json",
            LogFormat::Compact => "compact",
        }
    }
}

} // verus!
