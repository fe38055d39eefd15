//! Handling a request given on the command line.
use vstd::prelude::*;
use crate::common::{Call, Handler, ProfileArgs, ProfilePlan, plan_profile, profile_plan};

verus! {

/// Handles one request given on the command line.
#[derive(Clone, Debug)]
pub struct Caller {
    pub call: Call,
}

/// What is to be done for a request given on the command line.
#[derive(Clone, Debug)]
pub enum CallerPlan {
    /// Nothing.
    Nothing,
    /// Report that a request came that the command line cannot give.
    Unreachable,
    /// Print the logs.
    PrintLogs,
    /// Print the output of `aa-status`.
    PrintStatus,
    /// Print the process list.
    PrintUnconfined,
    /// Carry out a profile request.
    Profile(ProfilePlan),
}

/// The plan for a request given on the command line.
pub open spec fn caller_plan(call: Call) -> CallerPlan {
    match call {
        Call::Idle => CallerPlan::Nothing,
        Call::Daemon => CallerPlan::Unreachable,
        Call::Logs => CallerPlan::PrintLogs,
        Call::Status => CallerPlan::PrintStatus,
        Call::Unconfined => CallerPlan::PrintUnconfined,
        Call::Profile(args) => CallerPlan::Profile(profile_plan(args)),
    }
}

/// Handles a profile request given on the command line.
#[derive(Clone, Debug)]
pub struct ProfileCaller {
    pub args: ProfileArgs,
}

impl Handler for ProfileCaller {
    type Plan = ProfilePlan;

    fn handle(self) -> (plan: ProfilePlan)
        ensures
            plan == profile_plan(self.args),
    {
        plan_profile(self.args)
    }
}

impl Handler for Caller {
    type Plan = CallerPlan;

    fn handle(self) -> (plan: CallerPlan)
        ensures
            plan == caller_plan(self.call),
    {
        match self.call {
            Call::Idle => CallerPlan::Nothing,
            Call::Daemon => CallerPlan::Unreachable,
            Call::Logs => CallerPlan::PrintLogs,
            Call::Status => CallerPlan::PrintStatus,
            Call::Unconfined => CallerPlan::PrintUnconfined,
            Call::Profile(args) => CallerPlan::Profile(ProfileCaller { args }.handle()),
        }
    }
}

/// What each command-line request does: nothing for `Idle`; a report for
/// `Daemon`, which the command line cannot give; printing the logs, the
/// status or the process list for those requests; and the profile plan for a
/// profile request.
pub proof fn lemma_caller_plan_table(args: ProfileArgs)
    ensures
        caller_plan(Call::Idle) == CallerPlan::Nothing,
        caller_plan(Call::Daemon) == CallerPlan::Unreachable,
        caller_plan(Call::Logs) == CallerPlan::PrintLogs,
        caller_plan(Call::Status) == CallerPlan::PrintStatus,
        caller_plan(Call::Unconfined) == CallerPlan::PrintUnconfined,
        caller_plan(Call::Profile(args)) == CallerPlan::Profile(profile_plan(args)),
{
}

} // verus!
