//! The runner: the process on a machine that calls back home to the
//! dashboard and answers its requests.

pub mod msg;

use vstd::prelude::*;
use crate::ids;
use crate::text::{decimal, decimal_text, decimal_reads_back, parsed_u64};
use msg::Message;

verus! {

/// Where a runner calls home and the code it introduces itself with.
pub struct Config {
    pub platform_address: String,
    pub code: u128,
}

impl Default for Config {
    /// The public platform address `realtime.ruda.app` and the nil code.
    fn default() -> (c: Self)
        ensures
            c.platform_address@ == "realtime.ruda.app"@,
            c.code == ids::NIL,
    {
        Config { platform_address: "realtime.ruda.app".to_string(), code: ids::NIL }
    }
}

/// What a runner could not do while handling a message.
#[derive(Debug)]
pub enum Error {
    /// The system's information could not be read.
    SystemInfo,
}

/// Calls `sysinfo::System::new_all()` and counts `cpus()`. The count is the
/// machine's, so nothing is stated of it; `None` stands for the error that
/// `new_all` can return.
#[verifier::external_body]
fn cpu_count() -> (n: Option<usize>) {
    match sysinfo::System::new_all() {
        Ok(sys) => Some(sys.cpus().len()),
        Err(_) => None,
    }
}

/// The status report text for a machine with `cpus` processors.
pub open spec fn status_text(cpus: nat) -> Seq<char> {
    "cpus: "@ + decimal(cpus)
}

/// A status report names its count exactly: reports of different counts
/// differ, and the number after `cpus: ` reads back as the count.
pub proof fn status_text_names_the_count(n: u64, m: u64)
    ensures
        status_text(n as nat).skip(6) == decimal(n as nat),
        parsed_u64(status_text(n as nat).skip(6)) == Some(n),
        status_text(n as nat) == status_text(m as nat) ==> n == m,
{
    let prefix = "cpus: "@;
    assert(prefix.len() == 6) by {
        reveal_strlit("cpus: ");
    }
    assert(status_text(n as nat).skip(6) =~= decimal(n as nat));
    assert(status_text(m as nat).skip(6) =~= decimal(m as nat));
    decimal_reads_back(n);
    decimal_reads_back(m);
}

/// The message a runner introduces itself with: its configured code.
pub fn introduction(config: &Config) -> (m: Message)
    ensures
        m == Message::IntroductionRequest(config.code),
{
    Message::IntroductionRequest(config.code)
}

/// The status report of a machine with `cpus` processors.
pub fn status_response(cpus: usize) -> (m: Message)
    ensures
        m matches Message::StatusResponse(s) && s@ == status_text(cpus as nat),
{
    let mut s = "cpus: ".to_string();
    let n = decimal_text(cpus as u64);
    s.append(n.as_str());
    Message::StatusResponse(s)
}

/// Handles a message from the dashboard: a status request is answered with
/// the machine's processor count, an introduction response needs no
/// answer. The runner handles no other message (`requires`).
pub fn handle_msg(msg: Message) -> (r: Result<Option<Message>, Error>)
    requires
        msg is StatusRequest || msg is IntroductionResponse,
    ensures
        msg is IntroductionResponse ==> r matches Ok(None),
        msg is StatusRequest ==> (r is Err || exists|n: nat|
            r matches Ok(Some(Message::StatusResponse(s))) && s@ == #[trigger] status_text(n)),
{
    match msg {
        Message::StatusRequest => {
            match cpu_count() {
                Some(n) => Ok(Some(status_response(n))),
                None => Err(Error::SystemInfo),
            }
        },
        _ => Ok(None),
    }
}

} // verus!
