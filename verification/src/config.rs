//! The configuration shared by the platform's programs, read from
//! `ruda.toml`, from its secret companion and from the environment.

use vstd::prelude::*;
use crate::runner;

verus! {

/// The file the configuration is read from.
pub const CONFIG_FILE: &'static str = "ruda.toml";

/// The configuration of a program of the platform.
pub struct Config {
    pub name: String,
    pub version: String,
    pub runner: runner::Config,
}

impl Default for Config {
    /// No name or version, and the default runner configuration.
    fn default() -> (c: Self)
        ensures
            c.name@ == Seq::<char>::empty(),
            c.version@ == Seq::<char>::empty(),
            c.runner.platform_address@ == "realtime.ruda.app"@,
            c.runner.code == crate::ids::NIL,
    {
        Config { name: String::new(), version: String::new(), runner: runner::Config::default() }
    }
}

/// Runner settings.
pub struct Runner {
    pub test: String,
}

impl Default for Runner {
    /// An empty test setting.
    fn default() -> (r: Self)
        ensures
            r.test@ == Seq::<char>::empty(),
    {
        Runner { test: String::new() }
    }
}

/// The file holding the secret part of the configuration read from `path`:
/// the same name behind `secret.`, such as `secret.ruda.toml`.
pub fn secret_file_name(path: &str) -> (name: String)
    ensures
        name@ == "secret."@ + path@,
{
    let mut name = "secret.".to_string();
    name.append(path);
    name
}

} // verus!
