//! What the dashboard sets up when it starts: the GitHub app it acts as and
//! the runner it may run itself.

use vstd::prelude::*;
use crate::ids;
use crate::dash::config::Github;
use crate::dash::data::Machine;
use crate::dash::data::machine::{Kind, Status};
use crate::runner;
use crate::dash::realtime::{after_introduction, knows_code, runner_with_stored_secret_is_connected};
use crate::text::{parse_decimal_u64, parsed_u64};

verus! {

/// The identifier of the configured GitHub app, read from its decimal text;
/// `None` where the text is not a number.
pub fn github_app_id(github: &Github) -> (id: Option<u64>)
    ensures
        id == parsed_u64(github.app_id@),
{
    parse_decimal_u64(github.app_id.as_str())
}

/// The machine of the dashboard's own runner, managed by the platform, of
/// the administrator `owner` in `project`, at `localhost`; and the runner's
/// configuration, which calls the local realtime port with the machine's
/// secret.
pub fn local_runner(owner: u128, project: u128) -> (setup: (Machine, runner::Config))
    ensures
        ids::is_random_v4(setup.0.id),
        setup.0.owner == owner,
        setup.0.project == project,
        setup.0.kind == Kind::Managed,
        setup.0.status == Status::Disconnected,
        ids::is_random_v4(setup.0.secret),
        setup.0.address@ == "localhost"@,
        setup.1.platform_address@ == "127.0.0.1:10001"@,
        setup.1.code == setup.0.secret,
{
    let mut machine = Machine::default();
    machine.owner = owner;
    machine.project = project;
    machine.kind = Kind::Managed;
    machine.address = "localhost".to_string();
    let config = runner::Config { platform_address: "127.0.0.1:10001".to_string(), code: machine.secret };
    (machine, config)
}

/// The dashboard's own runner is acknowledged: once the machine made for it
/// is stored with the others, the runner's introduction with its configured
/// code is recognised and leaves a machine with that secret connected.
pub proof fn local_runner_is_acknowledged(stored: Seq<Machine>, machine: Machine, config: runner::Config)
    requires
        config.code == machine.secret,
    ensures
        knows_code(stored.push(machine), config.code),
        exists|j: int|
            0 <= j <= stored.len()
                && (#[trigger] after_introduction(stored.push(machine), config.code)[j]).secret == config.code
                && after_introduction(stored.push(machine), config.code)[j].status == Status::Connected,
{
    let ms = stored.push(machine);
    assert(ms[stored.len() as int] == machine);
    runner_with_stored_secret_is_connected(ms, stored.len() as int, config.code);
}

} // verus!
