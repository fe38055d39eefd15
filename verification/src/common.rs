//! The requests the helper takes, and the plans it makes for profile
//! requests, which the command line and the server share.
use vstd::prelude::*;

verus! {

/// The log files whose contents make up the logs, in order.
pub const LOG_FILES: [&'static str; 1] = ["/var/log/audit/audit.log"];

/// The state a profile can be switched to.
#[derive(Clone, Copy, PartialEq, Eq, Structural, Debug)]
pub enum ProfStatus {
    Enforce,
    Complain,
    Audit,
    Disabled,
}

/// What is asked of a profile.
#[derive(Clone, Copy, PartialEq, Eq, Structural, Debug)]
pub enum ProfileOp {
    Load,
    Disable,
    Status,
}

/// A request about one profile: its name (or the path of its source file),
/// the operation, and the state asked for, if any.
#[derive(Clone, Debug)]
pub struct ProfileArgs {
    pub profile: String,
    pub op: ProfileOp,
    pub status: Option<ProfStatus>,
}

/// A request to the helper. `Idle` asks for nothing in particular: the
/// command line uses it when no option was given.
#[derive(Clone, Debug)]
pub enum Call {
    Idle,
    Daemon,
    Logs,
    Status,
    Unconfined,
    Profile(ProfileArgs),
}

/// Something that handles a request by deciding what is to be done. Whoever
/// holds the handler carries the plan out.
pub trait Handler: Sized {
    type Plan;

    fn handle(self) -> Self::Plan;
}

/// A handler whose plan is carried out while serving clients, which is done
/// asynchronously.
pub trait AsyncHandler: Sized {
    type Plan;

    fn handle(self) -> Self::Plan;
}

/// What is to be done about a profile request.
#[derive(Clone, Debug)]
pub enum ProfilePlan {
    /// Load the profile in the file at this path.
    Load(String),
    /// Switch the named profile to this state.
    Switch(String, ProfStatus),
    /// The request is not one that is served.
    Malformed,
}

/// The plan for a profile request: `Load` with no state loads the file named
/// by the request, `Disable` with no state disables the profile, `Load` with
/// a state switches the profile to that state; everything else is malformed.
pub open spec fn profile_plan(args: ProfileArgs) -> ProfilePlan {
    match (args.op, args.status) {
        (ProfileOp::Load, None) => ProfilePlan::Load(args.profile),
        (ProfileOp::Disable, None) => ProfilePlan::Switch(args.profile, ProfStatus::Disabled),
        (ProfileOp::Load, Some(status)) => ProfilePlan::Switch(args.profile, status),
        _ => ProfilePlan::Malformed,
    }
}

/// Decides what is to be done about a profile request.
pub fn plan_profile(args: ProfileArgs) -> (plan: ProfilePlan)
    ensures
        plan == profile_plan(args),
        args.op == ProfileOp::Load && args.status is None ==> plan == ProfilePlan::Load(
            args.profile,
        ),
        args.op == ProfileOp::Disable && args.status is None ==> plan == ProfilePlan::Switch(
            args.profile,
            ProfStatus::Disabled,
        ),
        args.op == ProfileOp::Load && args.status is Some ==> plan == ProfilePlan::Switch(
            args.profile,
            args.status->0,
        ),
        args.op == ProfileOp::Status || (args.op == ProfileOp::Disable && args.status is Some)
            ==> plan == ProfilePlan::Malformed,
{
    match args {
        ProfileArgs { profile, op: ProfileOp::Load, status: None } => ProfilePlan::Load(profile),
        ProfileArgs { profile, op: ProfileOp::Disable, status: None } => ProfilePlan::Switch(
            profile,
            ProfStatus::Disabled,
        ),
        ProfileArgs { profile, op: ProfileOp::Load, status: Some(status) } => ProfilePlan::Switch(
            profile,
            status,
        ),
        _ => ProfilePlan::Malformed,
    }
}

/// What each profile request is planned to do: a load with no state loads the
/// named file; a disable with no state switches the profile to `Disabled`; a
/// load with a state switches the profile to exactly that state, whichever of
/// the four it is; a status request, or a disable with a state, is malformed.
pub proof fn lemma_profile_plan_table(profile: String, status: ProfStatus)
    ensures
        profile_plan(ProfileArgs { profile, op: ProfileOp::Load, status: None })
            == ProfilePlan::Load(profile),
        profile_plan(ProfileArgs { profile, op: ProfileOp::Disable, status: None })
            == ProfilePlan::Switch(profile, ProfStatus::Disabled),
        profile_plan(ProfileArgs { profile, op: ProfileOp::Load, status: Some(status) })
            == ProfilePlan::Switch(profile, status),
        profile_plan(ProfileArgs { profile, op: ProfileOp::Load, status: Some(ProfStatus::Enforce) })
            == ProfilePlan::Switch(profile, ProfStatus::Enforce),
        profile_plan(
            ProfileArgs { profile, op: ProfileOp::Load, status: Some(ProfStatus::Complain) },
        ) == ProfilePlan::Switch(profile, ProfStatus::Complain),
        profile_plan(ProfileArgs { profile, op: ProfileOp::Load, status: Some(ProfStatus::Audit) })
            == ProfilePlan::Switch(profile, ProfStatus::Audit),
        profile_plan(
            ProfileArgs { profile, op: ProfileOp::Load, status: Some(ProfStatus::Disabled) },
        ) == ProfilePlan::Switch(profile, ProfStatus::Disabled),
        profile_plan(ProfileArgs { profile, op: ProfileOp::Status, status: None })
            == ProfilePlan::Malformed,
        profile_plan(ProfileArgs { profile, op: ProfileOp::Status, status: Some(status) })
            == ProfilePlan::Malformed,
        profile_plan(ProfileArgs { profile, op: ProfileOp::Disable, status: Some(status) })
            == ProfilePlan::Malformed,
{
}

/// The profile a plan acts on is the profile the request names: no plan
/// loads or switches another.
pub proof fn lemma_plan_keeps_profile(args: ProfileArgs)
    ensures
        profile_plan(args) matches ProfilePlan::Load(path) ==> path == args.profile,
        profile_plan(args) matches ProfilePlan::Switch(name, state) ==> name == args.profile
            && (state == ProfStatus::Disabled || args.status == Some(state)),
{
}

} // verus!
