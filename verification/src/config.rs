//! Logging configuration carried by the process-wide settings. The settings
//! themselves are loaded by an external collaborator at startup.

use vstd::prelude::*;

verus! {

/// How the process logs: a level name and a color mode
/// (always, auto or never).
#[derive(Clone, Debug)]
pub struct LogConfig {
    pub level: String,
    pub color_mode: String,
}

impl Default for LogConfig {
    /// An empty configuration, for settings sources that omit the section.
    fn default() -> (c: Self)
        ensures
            c.level@ =~= Seq::<char>::empty(),
            c.color_mode@ =~= Seq::<char>::empty(),
    {
        LogConfig { level: String::new(), color_mode: String::new() }
    }
}

} // verus!
