//! Messages exchanged between a runner and the dashboard over the realtime
//! websocket.

use vstd::prelude::*;

verus! {

/// A message between a runner and the dashboard.
#[derive(Debug)]
pub enum Message {
    /// A runner introduces itself with its machine's secret code.
    IntroductionRequest(u128),
    /// The dashboard's answer to an introduction: whether it knows the code.
    IntroductionResponse(bool),
    /// The dashboard asks a runner for its status.
    StatusRequest,
    /// A runner's status report.
    StatusResponse(String),
}

} // verus!
