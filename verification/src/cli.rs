//! The command-line program: its configuration, the runner it launches and
//! the system service it installs.

use vstd::prelude::*;
use crate::config;
use crate::ids;
use crate::runner;

verus! {

/// The label of the runner's system service.
pub const SERVICE_LABEL: &'static str = "org.ruda.runner";

/// How the command-line program signs in.
pub struct Login {
    pub key: Option<String>,
    pub credentials: Option<(String, String)>,
}

impl Default for Login {
    /// Neither a key nor credentials.
    fn default() -> (l: Self)
        ensures
            l.key is None,
            l.credentials is None,
    {
        Login { key: None, credentials: None }
    }
}

/// The command-line program's configuration.
pub struct Config {
    pub base: config::Config,
    pub login: Login,
}

/// The runner configuration for `runner --code <code>`: the configured one
/// with the machine code read from `code` (a UUID in any form the UUID
/// parser accepts); `None` where `code` is not a UUID. The hyphenated form
/// the dashboard shows a machine's secret in is read back as that secret.
pub fn runner_config(config: Config, code: &str) -> (r: Option<runner::Config>)
    ensures
        match ids::uuid_parse(code@) {
            Some(v) => r matches Some(c) && c.code == v
                && c.platform_address == config.base.runner.platform_address,
            None => r is None,
        },
        forall|v: u128| ids::hyphenated(v) == code@ ==> (r matches Some(c) && c.code == v),
{
    match ids::parse(code) {
        Some(v) => {
            let mut c = config.base.runner;
            c.code = v;
            Some(c)
        },
        None => None,
    }
}

/// The arguments the runner's service is started with:
/// `runner --code <code>`.
pub fn service_args(code: &str) -> (args: Vec<String>)
    ensures
        args@.len() == 3,
        args@[0]@ == "runner"@,
        args@[1]@ == "--code"@,
        args@[2]@ == code@,
{
    let mut args: Vec<String> = Vec::new();
    args.push("runner".to_string());
    args.push("--code".to_string());
    args.push(code.to_string());
    args
}

} // verus!
