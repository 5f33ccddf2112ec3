//! The steps of opening a libcouchbase handle, and what each outcome leads to.

use vstd::prelude::*;

use crate::couchbase::callback_type::LcbCallbackType;
use crate::couchbase::error::LcbErrorT;

verus! {

/// A libcouchbase call made while a handle is opened.
#[derive(Debug, Clone, Copy, PartialEq, Eq, Structural)]
pub enum ConnectStage {
    /// `lcb_create`: make the handle.
    Create,
    /// `lcb_connect`: schedule the bootstrap.
    Connect,
    /// `lcb_cntl_string("error_thresh_delay", "5.0")`: tune error reporting.
    Configure,
    /// `lcb_wait`: run the bootstrap.
    Wait,
    /// `lcb_get_bootstrap_status`: read how the bootstrap went.
    BootstrapStatus,
}

/// What follows a call made while opening a handle.
#[derive(Debug, Clone, Copy, PartialEq, Eq, Structural)]
pub enum ConnectStep {
    /// Make this call next.
    Next(ConnectStage),
    /// The handle is open.
    Ready,
    /// Opening failed at this call.
    Failed(ConnectStage),
}

/// The name of the libcouchbase function that a stage calls.
pub open spec fn stage_function(stage: ConnectStage) -> Seq<char> {
    match stage {
        ConnectStage::Create => "lcb_create"@,
        ConnectStage::Connect => "lcb_connect"@,
        ConnectStage::Configure => "lcb_cntl_string"@,
        ConnectStage::Wait => "lcb_wait"@,
        ConnectStage::BootstrapStatus => "lcb_get_bootstrap_status"@,
    }
}

/// Each stage calls the libcouchbase function of its own name.
pub proof fn lemma_stage_function_table()
    ensures
        stage_function(ConnectStage::Create) == "lcb_create"@,
        stage_function(ConnectStage::Connect) == "lcb_connect"@,
        stage_function(ConnectStage::Configure) == "lcb_cntl_string"@,
        stage_function(ConnectStage::Wait) == "lcb_wait"@,
        stage_function(ConnectStage::BootstrapStatus) == "lcb_get_bootstrap_status"@,
{
}

impl ConnectStage {
    /// The name of the libcouchbase function that this stage calls.
    pub fn function_name(&self) -> (s: &'static str)
        ensures
            s@ == stage_function(*self),
    {
        match self {
            ConnectStage::Create => "lcb_create",
            ConnectStage::Connect => "lcb_connect",
            ConnectStage::Configure => "lcb_cntl_string",
            ConnectStage::Wait => "lcb_wait",
            ConnectStage::BootstrapStatus => "lcb_get_bootstrap_status",
        }
    }
}

/// How a client goes on after a call: every call but the tuning one must
/// succeed, the tuning result is ignored, and after the bootstrap status
/// the handle is open.
pub open spec fn client_step(stage: ConnectStage, rc: LcbErrorT) -> ConnectStep {
    match stage {
        ConnectStage::Configure => ConnectStep::Next(ConnectStage::Wait),
        _ => if rc != LcbErrorT::LcbSuccess {
            ConnectStep::Failed(stage)
        } else {
            match stage {
                ConnectStage::Create => ConnectStep::Next(ConnectStage::Connect),
                ConnectStage::Connect => ConnectStep::Next(ConnectStage::Configure),
                ConnectStage::Wait => ConnectStep::Next(ConnectStage::BootstrapStatus),
                _ => ConnectStep::Ready,
            }
        },
    }
}

/// How a worker goes on after a call: it makes no tuning call, goes on past
/// failed calls, and gives up only when the bootstrap status is a failure.
pub open spec fn worker_step(stage: ConnectStage, rc: LcbErrorT) -> ConnectStep {
    match stage {
        ConnectStage::Create => ConnectStep::Next(ConnectStage::Connect),
        ConnectStage::Connect => ConnectStep::Next(ConnectStage::Wait),
        ConnectStage::Configure => ConnectStep::Next(ConnectStage::Wait),
        ConnectStage::Wait => ConnectStep::Next(ConnectStage::BootstrapStatus),
        ConnectStage::BootstrapStatus => if rc == LcbErrorT::LcbSuccess {
            ConnectStep::Ready
        } else {
            ConnectStep::Failed(stage)
        },
    }
}

/// The step a client takes after `stage` reported `rc` (see `client_step`).
pub fn client_connect_step(stage: ConnectStage, rc: LcbErrorT) -> (s: ConnectStep)
    ensures
        s == client_step(stage, rc),
{
    match stage {
        ConnectStage::Configure => ConnectStep::Next(ConnectStage::Wait),
        _ => if !rc.is_success() {
            ConnectStep::Failed(stage)
        } else {
            match stage {
                ConnectStage::Create => ConnectStep::Next(ConnectStage::Connect),
                ConnectStage::Connect => ConnectStep::Next(ConnectStage::Configure),
                ConnectStage::Wait => ConnectStep::Next(ConnectStage::BootstrapStatus),
                _ => ConnectStep::Ready,
            }
        },
    }
}

/// The step a worker takes after `stage` reported `rc` (see `worker_step`).
pub fn worker_connect_step(stage: ConnectStage, rc: LcbErrorT) -> (s: ConnectStep)
    ensures
        s == worker_step(stage, rc),
{
    match stage {
        ConnectStage::Create => ConnectStep::Next(ConnectStage::Connect),
        ConnectStage::Connect => ConnectStep::Next(ConnectStage::Wait),
        ConnectStage::Configure => ConnectStep::Next(ConnectStage::Wait),
        ConnectStage::Wait => ConnectStep::Next(ConnectStage::BootstrapStatus),
        ConnectStage::BootstrapStatus => if rc.is_success() {
            ConnectStep::Ready
        } else {
            ConnectStep::Failed(stage)
        },
    }
}

/// The message with which opening fails at `stage`: the function's name,
/// `() - `, then libcouchbase's description of the status.
pub fn connect_error_message(stage: ConnectStage, description: &str) -> (m: String)
    ensures
        m@ == stage_function(stage) + "() - "@ + description@,
{
    let m = String::from_str(stage.function_name());
    let m = m.concat("() - ");
    m.concat(description)
}

/// The callbacks a client installs once its handle is open.
pub fn client_callback_types() -> (v: Vec<LcbCallbackType>)
    ensures
        v@ == seq![
            LcbCallbackType::LcbCallbackGet,
            LcbCallbackType::LcbCallbackRemove,
            LcbCallbackType::LcbCallbackStore,
        ],
{
    let mut v = Vec::new();
    v.push(LcbCallbackType::LcbCallbackGet);
    v.push(LcbCallbackType::LcbCallbackRemove);
    v.push(LcbCallbackType::LcbCallbackStore);
    v
}

/// The callbacks a worker installs once its handle is open.
pub fn worker_callback_types() -> (v: Vec<LcbCallbackType>)
    ensures
        v@ == seq![LcbCallbackType::LcbCallbackGet, LcbCallbackType::LcbCallbackStore],
{
    let mut v = Vec::new();
    v.push(LcbCallbackType::LcbCallbackGet);
    v.push(LcbCallbackType::LcbCallbackStore);
    v
}

/// Where a run of calls leads: starting at `stage`, each status in `rcs`
/// answers the next call, by `step`.
pub open spec fn run_from(
    step: spec_fn(ConnectStage, LcbErrorT) -> ConnectStep,
    stage: ConnectStage,
    rcs: Seq<LcbErrorT>,
) -> ConnectStep
    decreases rcs.len(),
{
    if rcs.len() == 0 {
        ConnectStep::Next(stage)
    } else {
        match step(stage, rcs[0]) {
            ConnectStep::Next(next) => run_from(step, next, rcs.drop_first()),
            other => other,
        }
    }
}

/// A client opens its handle after five calls exactly when creating,
/// connecting, waiting and reading the bootstrap status all succeed (the
/// tuning call's status is ignored); otherwise it fails at the first of
/// these calls that does not succeed.
pub proof fn lemma_client_connect_run(rcs: Seq<LcbErrorT>)
    requires
        rcs.len() == 5,
    ensures
        run_from(|s, r| client_step(s, r), ConnectStage::Create, rcs) == (if rcs[0]
            != LcbErrorT::LcbSuccess {
            ConnectStep::Failed(ConnectStage::Create)
        } else if rcs[1] != LcbErrorT::LcbSuccess {
            ConnectStep::Failed(ConnectStage::Connect)
        } else if rcs[3] != LcbErrorT::LcbSuccess {
            ConnectStep::Failed(ConnectStage::Wait)
        } else if rcs[4] != LcbErrorT::LcbSuccess {
            ConnectStep::Failed(ConnectStage::BootstrapStatus)
        } else {
            ConnectStep::Ready
        }),
{
    reveal_with_fuel(run_from, 6);
    assert(rcs.drop_first().drop_first().drop_first().drop_first() =~= seq![rcs[4]]);
}

/// A worker opens its handle after four calls exactly when the bootstrap
/// status succeeds, whatever the other calls report.
pub proof fn lemma_worker_connect_run(rcs: Seq<LcbErrorT>)
    requires
        rcs.len() == 4,
    ensures
        run_from(|s, r| worker_step(s, r), ConnectStage::Create, rcs) == (if rcs[3]
            == LcbErrorT::LcbSuccess {
            ConnectStep::Ready
        } else {
            ConnectStep::Failed(ConnectStage::BootstrapStatus)
        }),
{
    reveal_with_fuel(run_from, 5);
    assert(rcs.drop_first().drop_first().drop_first() =~= seq![rcs[3]]);
}

} // verus!
