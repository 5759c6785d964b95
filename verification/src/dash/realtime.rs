//! The realtime link between the dashboard and the runners: routing of
//! requests to the machine an application runs on, and the answer to a
//! runner's introduction.

use vstd::prelude::*;
use crate::dash::data::{App, Machine};
use crate::dash::data::machine::Status;
use crate::runner::msg::Message;

verus! {

/// A request for the runner of an application's machine.
#[derive(Clone, Debug)]
pub enum Request {
    /// Deploy the environment with handle `env`.
    Deploy { env: String },
}

/// The answer to a request.
#[derive(Clone, Copy, Debug, PartialEq, Eq, Structural)]
pub enum Response {
    /// The request was carried out.
    Done,
    NoMachineAssigned,
}

/// Where a request about an application goes.
#[derive(Clone, Copy, Debug, PartialEq, Eq, Structural)]
pub enum Route {
    /// To the runner of this machine.
    Machine(u128),
    /// Nowhere: it is answered at once with this response.
    Answer(Response),
}

/// Routes a request about `app`: to the machine the application is
/// assigned to, or, where it has none, straight back with
/// `NoMachineAssigned`.
pub fn route(app: &App) -> (r: Route)
    ensures
        r == (match app.machine {
            Some(m) => Route::Machine(m),
            None => Route::Answer(Response::NoMachineAssigned),
        }),
{
    match app.machine {
        Some(m) => Route::Machine(m),
        None => Route::Answer(Response::NoMachineAssigned),
    }
}

/// `m` with its runner marked connected.
pub open spec fn connected(m: Machine) -> Machine {
    Machine { status: Status::Connected, ..m }
}

/// Whether some machine of `ms` has the secret `code`.
pub open spec fn knows_code(ms: Seq<Machine>, code: u128) -> bool {
    exists|i: int| 0 <= i < ms.len() && #[trigger] ms[i].secret == code
}

/// Whether `i` is the first machine of `ms` with the secret `code`.
pub open spec fn first_with_code(ms: Seq<Machine>, code: u128, i: int) -> bool {
    &&& 0 <= i < ms.len()
    &&& ms[i].secret == code
    &&& forall|j: int| 0 <= j < i ==> #[trigger] ms[j].secret != code
}

/// The machines after a runner introduced itself with `code`: the first
/// machine with that secret is marked connected, and nothing else changes.
pub open spec fn after_introduction(ms: Seq<Machine>, code: u128) -> Seq<Machine> {
    if knows_code(ms, code) {
        let i = choose|i: int| first_with_code(ms, code, i);
        ms.update(i, connected(ms[i]))
    } else {
        ms
    }
}

/// Where some machine has the secret, a first one has it.
pub proof fn lemma_first_exists(ms: Seq<Machine>, code: u128)
    requires
        knows_code(ms, code),
    ensures
        exists|i: int| first_with_code(ms, code, i),
{
    let k = choose|k: int| 0 <= k < ms.len() && #[trigger] ms[k].secret == code;
    lemma_first_below(ms, code, k);
}

proof fn lemma_first_below(ms: Seq<Machine>, code: u128, k: int)
    requires
        0 <= k < ms.len(),
        ms[k].secret == code,
    ensures
        exists|i: int| first_with_code(ms, code, i),
    decreases k,
{
    if forall|j: int| 0 <= j < k ==> #[trigger] ms[j].secret != code {
        assert(first_with_code(ms, code, k));
    } else {
        let j = choose|j: int| 0 <= j < k && #[trigger] ms[j].secret == code;
        lemma_first_below(ms, code, j);
    }
}

/// There is only one first machine with a secret.
pub proof fn lemma_first_unique(ms: Seq<Machine>, code: u128, i: int, k: int)
    requires
        first_with_code(ms, code, i),
        first_with_code(ms, code, k),
    ensures
        i == k,
{
    if i < k {
        assert(ms[i].secret != code);
    } else if k < i {
        assert(ms[k].secret != code);
    }
}

/// An introduction changes one thing at most: the status of the first
/// machine with the secret, which becomes connected. The machines keep their
/// number and order, and every other machine is left as it was.
pub proof fn introduction_marks_first_connected(ms: Seq<Machine>, code: u128)
    ensures
        after_introduction(ms, code).len() == ms.len(),
        knows_code(ms, code) ==> exists|i: int|
            #![trigger first_with_code(ms, code, i)]
            {
                &&& first_with_code(ms, code, i)
                &&& after_introduction(ms, code)[i] == connected(ms[i])
                &&& forall|j: int|
                    0 <= j < ms.len() && j != i ==> #[trigger] after_introduction(ms, code)[j] == ms[j]
            },
        !knows_code(ms, code) ==> after_introduction(ms, code) == ms,
{
    if knows_code(ms, code) {
        lemma_first_exists(ms, code);
        let i = choose|i: int| first_with_code(ms, code, i);
        assert(first_with_code(ms, code, i));
    }
}

/// Introducing twice with the same code is the same as introducing once:
/// the second introduction is acknowledged too and changes nothing.
pub proof fn introduction_is_idempotent(ms: Seq<Machine>, code: u128)
    ensures
        knows_code(after_introduction(ms, code), code) == knows_code(ms, code),
        after_introduction(after_introduction(ms, code), code) == after_introduction(ms, code),
{
    if knows_code(ms, code) {
        lemma_first_exists(ms, code);
        let i = choose|i: int| first_with_code(ms, code, i);
        let once = after_introduction(ms, code);
        assert(once == ms.update(i, connected(ms[i])));
        assert(first_with_code(once, code, i));
        assert(knows_code(once, code));
        let k = choose|k: int| first_with_code(once, code, k);
        lemma_first_unique(once, code, k, i);
        assert(once.update(i, connected(once[i])) =~= once);
    }
}

/// A runner started with the secret of a stored machine is acknowledged
/// when it introduces itself, and afterwards a machine with that secret is
/// connected.
pub proof fn runner_with_stored_secret_is_connected(ms: Seq<Machine>, m: int, code: u128)
    requires
        0 <= m < ms.len(),
        ms[m].secret == code,
    ensures
        knows_code(ms, code),
        exists|j: int|
            0 <= j < ms.len() && (#[trigger] after_introduction(ms, code)[j]).secret == code
                && after_introduction(ms, code)[j].status == Status::Connected,
{
    assert(knows_code(ms, code));
    lemma_first_exists(ms, code);
    let i = choose|i: int| first_with_code(ms, code, i);
    assert(after_introduction(ms, code)[i] == connected(ms[i]));
}

/// Answers a runner's introduction with `code`: the first machine whose
/// secret is `code` is marked connected and the introduction is
/// acknowledged; where no machine has that secret nothing changes and it is
/// refused.
pub fn introduce(machines: &mut Vec<Machine>, code: u128) -> (ok: bool)
    ensures
        ok == knows_code(old(machines)@, code),
        final(machines)@ == after_introduction(old(machines)@, code),
{
    let mut i: usize = 0;
    while i < machines.len()
        invariant
            i <= machines@.len(),
            machines@ == old(machines)@,
            forall|j: int| 0 <= j < i ==> #[trigger] machines@[j].secret != code,
        decreases machines@.len() - i,
    {
        if machines[i].secret == code {
            let mut m = machines.remove(i);
            m.status = Status::Connected;
            machines.insert(i, m);
            proof {
                let ms = old(machines)@;
                assert(first_with_code(ms, code, i as int));
                assert(knows_code(ms, code));
                let c = choose|c: int| first_with_code(ms, code, c);
                lemma_first_unique(ms, code, c, i as int);
                assert(machines@ =~= ms.update(i as int, connected(ms[i as int])));
            }
            return true;
        }
        i = i + 1;
    }
    proof {
        assert(!knows_code(old(machines)@, code));
    }
    false
}

/// Handles a message a runner sent to the dashboard. The dashboard handles
/// introductions only (`requires`): it answers whether it knows the code,
/// and marks the machine connected (see `introduce`).
pub fn handle_msg(msg: Message, machines: &mut Vec<Machine>) -> (reply: Message)
    requires
        msg is IntroductionRequest,
    ensures
        reply == Message::IntroductionResponse(knows_code(old(machines)@, msg->IntroductionRequest_0)),
        final(machines)@ == after_introduction(old(machines)@, msg->IntroductionRequest_0),
{
    match msg {
        Message::IntroductionRequest(code) => {
            let ok = introduce(machines, code);
            Message::IntroductionResponse(ok)
        },
        _ => Message::IntroductionResponse(false),
    }
}

} // verus!
