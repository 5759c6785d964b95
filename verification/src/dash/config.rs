//! The dashboard's configuration.

use vstd::prelude::*;

verus! {

/// The GitHub app the dashboard acts as.
pub struct Github {
    pub app_id: String,
    pub app_key: String,
}

impl Default for Github {
    /// No app.
    fn default() -> (g: Self)
        ensures
            g.app_id@ == Seq::<char>::empty(),
            g.app_key@ == Seq::<char>::empty(),
    {
        Github { app_id: String::new(), app_key: String::new() }
    }
}

/// The dashboard's own settings.
pub struct Config {
    /// Decides whether to start up a runner task as part of the dashboard
    /// process.
    pub local_runner: bool,
    /// Github app configuration. Allows acessing things like private repos.
    pub github: Option<Github>,
}

impl Default for Config {
    /// No local runner and no GitHub app.
    fn default() -> (c: Self)
        ensures
            !c.local_runner,
            c.github is None,
    {
        Config { local_runner: false, github: None }
    }
}

} // verus!
