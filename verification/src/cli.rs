//! What the options on the command line start: the server, a command-line
//! request, or both.
use vstd::prelude::*;
use crate::caller::{Caller, CallerPlan, caller_plan};
use crate::common::{Call, ProfStatus, ProfileArgs, ProfileOp, ProfilePlan, profile_plan};
use crate::server::{Server, ServerPlan, server_plan};

verus! {

/// The options given on the command line.
#[derive(Clone, Debug)]
pub struct Options {
    /// The profile that `prof_load`, `prof_disable` or `prof_status` is about.
    pub profile: Option<String>,
    /// Load the profile.
    pub prof_load: bool,
    /// Disable the profile.
    pub prof_disable: bool,
    /// Switch the profile to this state.
    pub prof_status: Option<ProfStatus>,
    /// Print the logs.
    pub logs: bool,
    /// Print the output of `aa-status`.
    pub status: bool,
    /// Print the process list.
    pub unconfined: bool,
    /// Start the server with this request.
    pub action: Option<Call>,
}

/// What the command line starts.
#[derive(Clone, Debug)]
pub enum Launch {
    /// Run this server.
    Serve(Server),
    /// Handle this command-line request.
    Run(Caller),
    /// Run this server; when it ends, handle this command-line request.
    ServeThenRun(Server, Caller),
}

/// The command-line request that the options give, if they give one: a
/// request to print the logs, the status or the process list, in that order
/// of precedence, or a profile request where a profile is named. A profile
/// named with none of load, disable or a state asks for nothing.
pub open spec fn requested_call(opts: Options) -> Option<Call> {
    if opts.logs {
        Some(Call::Logs)
    } else if opts.status {
        Some(Call::Status)
    } else if opts.unconfined {
        Some(Call::Unconfined)
    } else {
        match opts.profile {
            Some(profile) => Some(
                if opts.prof_load {
                    Call::Profile(ProfileArgs { profile, op: ProfileOp::Load, status: None })
                } else if opts.prof_disable {
                    Call::Profile(ProfileArgs { profile, op: ProfileOp::Disable, status: None })
                } else {
                    match opts.prof_status {
                        Some(status) => Call::Profile(
                            ProfileArgs { profile, op: ProfileOp::Status, status: Some(status) },
                        ),
                        None => Call::Idle,
                    }
                },
            ),
            None => None,
        }
    }
}

/// What the options start: the server with the given action where there is
/// one; else the command-line request they give; else an idle server, and an
/// idle command-line request after it.
pub open spec fn launch_of(opts: Options) -> Launch {
    match opts.action {
        Some(action) => Launch::Serve(Server { call: action }),
        None => match requested_call(opts) {
            Some(call) => Launch::Run(Caller { call }),
            None => Launch::ServeThenRun(Server { call: Call::Idle }, Caller { call: Call::Idle }),
        },
    }
}

/// Decides what the options start.
pub fn launch(opts: Options) -> (res: Launch)
    ensures
        res == launch_of(opts),
        opts.action is Some ==> res == Launch::Serve(Server { call: opts.action->0 }),
{
    match opts.action {
        Some(action) => Launch::Serve(Server { call: action }),
        None => {
            if opts.logs {
                Launch::Run(Caller { call: Call::Logs })
            } else if opts.status {
                Launch::Run(Caller { call: Call::Status })
            } else if opts.unconfined {
                Launch::Run(Caller { call: Call::Unconfined })
            } else {
                match opts.profile {
                    Some(profile) => {
                        let call = if opts.prof_load {
                            Call::Profile(
                                ProfileArgs { profile, op: ProfileOp::Load, status: None },
                            )
                        } else if opts.prof_disable {
                            Call::Profile(
                                ProfileArgs { profile, op: ProfileOp::Disable, status: None },
                            )
                        } else {
                            match opts.prof_status {
                                Some(status) => Call::Profile(
                                    ProfileArgs {
                                        profile,
                                        op: ProfileOp::Status,
                                        status: Some(status),
                                    },
                                ),
                                None => Call::Idle,
                            }
                        };
                        Launch::Run(Caller { call })
                    },
                    None => Launch::ServeThenRun(
                        Server { call: Call::Idle },
                        Caller { call: Call::Idle },
                    ),
                }
            }
        },
    }
}

/// A state asked for on the command line (`-t`) with no load or disable is
/// never carried out: it becomes a profile request with the `Status`
/// operation, which the command-line handler finds malformed.
pub proof fn lemma_state_option_is_malformed(opts: Options)
    requires
        opts.action is None,
        !opts.logs,
        !opts.status,
        !opts.unconfined,
        opts.profile is Some,
        !opts.prof_load,
        !opts.prof_disable,
        opts.prof_status is Some,
    ensures
        launch_of(opts) matches Launch::Run(caller) && caller_plan(caller.call)
            == CallerPlan::Profile(ProfilePlan::Malformed),
{
}

/// With no option the helper listens on its socket, and when the server ends
/// it does nothing more.
pub proof fn lemma_no_option_listens(opts: Options)
    requires
        opts.action is None,
        !opts.logs,
        !opts.status,
        !opts.unconfined,
        opts.profile is None,
    ensures
        launch_of(opts) matches Launch::ServeThenRun(server, caller) && server_plan(server.call)
            == ServerPlan::Listen && caller_plan(caller.call) == CallerPlan::Nothing,
{
}

/// A profile request is planned alike from the command line and when it
/// starts the server.
pub proof fn lemma_profile_plans_agree(args: ProfileArgs)
    ensures
        caller_plan(Call::Profile(args)) == CallerPlan::Profile(profile_plan(args)),
        server_plan(Call::Profile(args)) == ServerPlan::Profile(profile_plan(args)),
{
}

/// A subcommand always starts the server with exactly that request, whatever
/// it is and whatever other options are given.
pub proof fn lemma_action_starts_server(opts: Options, action: Call)
    requires
        opts.action == Some(action),
    ensures
        launch_of(opts) == Launch::Serve(Server { call: action }),
{
}

/// Without a subcommand, the options give a command-line request: the logs,
/// the status and the process list before anything else, in that order; then
/// a load, a disable or a state for the named profile, in that order, the
/// profile request naming exactly that profile.
pub proof fn lemma_options_table(opts: Options)
    requires
        opts.action is None,
    ensures
        opts.logs ==> launch_of(opts) == Launch::Run(Caller { call: Call::Logs }),
        !opts.logs && opts.status ==> launch_of(opts) == Launch::Run(Caller { call: Call::Status }),
        !opts.logs && !opts.status && opts.unconfined ==> launch_of(opts) == Launch::Run(
            Caller { call: Call::Unconfined },
        ),
        !opts.logs && !opts.status && !opts.unconfined && opts.profile is Some ==> {
            let profile = opts.profile->0;
            &&& opts.prof_load ==> launch_of(opts) == Launch::Run(
                Caller {
                    call: Call::Profile(ProfileArgs { profile, op: ProfileOp::Load, status: None }),
                },
            )
            &&& !opts.prof_load && opts.prof_disable ==> launch_of(opts) == Launch::Run(
                Caller {
                    call: Call::Profile(
                        ProfileArgs { profile, op: ProfileOp::Disable, status: None },
                    ),
                },
            )
            &&& !opts.prof_load && !opts.prof_disable && opts.prof_status is Some ==> launch_of(
                opts,
            ) == Launch::Run(
                Caller {
                    call: Call::Profile(
                        ProfileArgs {
                            profile,
                            op: ProfileOp::Status,
                            status: opts.prof_status,
                        },
                    ),
                },
            )
            &&& !opts.prof_load && !opts.prof_disable && opts.prof_status is None ==> launch_of(
                opts,
            ) == Launch::Run(Caller { call: Call::Idle })
        },
        !opts.logs && !opts.status && !opts.unconfined && opts.profile is None ==> launch_of(opts)
            == Launch::ServeThenRun(Server { call: Call::Idle }, Caller { call: Call::Idle }),
{
}

} // verus!
