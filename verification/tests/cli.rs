use aa_caller::caller::{Caller, CallerPlan, ProfileCaller};
use aa_caller::cli::{launch, Launch, Options};
use aa_caller::server::{Server, ServerPlan};
use aa_caller::common::{
    plan_profile, AsyncHandler, Call, Handler, ProfStatus, ProfileArgs, ProfileOp, ProfilePlan,
};

fn no_options() -> Options {
    Options {
        profile: None,
        prof_load: false,
        prof_disable: false,
        prof_status: None,
        logs: false,
        status: false,
        unconfined: false,
        action: None,
    }
}

#[test]
fn no_option_serves_then_does_nothing() {
    match launch(no_options()) {
        Launch::ServeThenRun(server, caller) => {
            assert!(matches!(server.call, Call::Idle));
            assert!(matches!(caller.handle(), CallerPlan::Nothing));
        }
        other => panic!("unexpected launch {:?}", other),
    }
}

#[test]
fn action_starts_server() {
    let opts = Options { action: Some(Call::Daemon), logs: true, ..no_options() };
    assert!(matches!(launch(opts), Launch::Serve(s) if matches!(s.call, Call::Daemon)));
}

#[test]
fn logs_option() {
    let opts = Options { logs: true, status: true, ..no_options() };
    match launch(opts) {
        Launch::Run(caller) => assert!(matches!(caller.handle(), CallerPlan::PrintLogs)),
        other => panic!("unexpected launch {:?}", other),
    }
}

#[test]
fn status_and_unconfined_options() {
    match launch(Options { status: true, unconfined: true, ..no_options() }) {
        Launch::Run(caller) => assert!(matches!(caller.handle(), CallerPlan::PrintStatus)),
        other => panic!("unexpected launch {:?}", other),
    }
    match launch(Options { unconfined: true, ..no_options() }) {
        Launch::Run(caller) => assert!(matches!(caller.handle(), CallerPlan::PrintUnconfined)),
        other => panic!("unexpected launch {:?}", other),
    }
}

#[test]
fn load_option() {
    let opts = Options { profile: Some("/tmp/p".to_string()), prof_load: true, ..no_options() };
    match launch(opts) {
        Launch::Run(caller) => match caller.handle() {
            CallerPlan::Profile(ProfilePlan::Load(path)) => assert_eq!(path, "/tmp/p"),
            other => panic!("unexpected plan {:?}", other),
        },
        other => panic!("unexpected launch {:?}", other),
    }
}

#[test]
fn disable_option() {
    let opts = Options { profile: Some("p".to_string()), prof_disable: true, ..no_options() };
    match launch(opts) {
        Launch::Run(caller) => match caller.handle() {
            CallerPlan::Profile(ProfilePlan::Switch(name, ProfStatus::Disabled)) => assert_eq!(name, "p"),
            other => panic!("unexpected plan {:?}", other),
        },
        other => panic!("unexpected launch {:?}", other),
    }
}

#[test]
fn state_option_is_malformed() {
    let opts = Options {
        profile: Some("p".to_string()),
        prof_status: Some(ProfStatus::Enforce),
        ..no_options()
    };
    match launch(opts) {
        Launch::Run(caller) => {
            match &caller.call {
                Call::Profile(args) => {
                    assert_eq!(args.op, ProfileOp::Status);
                    assert_eq!(args.status, Some(ProfStatus::Enforce));
                }
                other => panic!("unexpected call {:?}", other),
            }
            assert!(matches!(caller.handle(), CallerPlan::Profile(ProfilePlan::Malformed)));
        }
        other => panic!("unexpected launch {:?}", other),
    }
}

#[test]
fn profile_without_operation_does_nothing() {
    let opts = Options { profile: Some("p".to_string()), ..no_options() };
    match launch(opts) {
        Launch::Run(caller) => assert!(matches!(caller.handle(), CallerPlan::Nothing)),
        other => panic!("unexpected launch {:?}", other),
    }
}

#[test]
fn caller_plans() {
    assert!(matches!(Caller { call: Call::Idle }.handle(), CallerPlan::Nothing));
    assert!(matches!(Caller { call: Call::Daemon }.handle(), CallerPlan::Unreachable));
    assert!(matches!(Caller { call: Call::Logs }.handle(), CallerPlan::PrintLogs));
    assert!(matches!(Caller { call: Call::Status }.handle(), CallerPlan::PrintStatus));
    assert!(matches!(Caller { call: Call::Unconfined }.handle(), CallerPlan::PrintUnconfined));
}

#[test]
fn profile_plans() {
    let args = |op, status| ProfileArgs { profile: "p".to_string(), op, status };
    assert!(matches!(plan_profile(args(ProfileOp::Load, None)), ProfilePlan::Load(p) if p == "p"));
    assert!(matches!(
        plan_profile(args(ProfileOp::Disable, None)),
        ProfilePlan::Switch(p, ProfStatus::Disabled) if p == "p"
    ));
    assert!(matches!(
        plan_profile(args(ProfileOp::Load, Some(ProfStatus::Complain))),
        ProfilePlan::Switch(p, ProfStatus::Complain) if p == "p"
    ));
    assert!(matches!(plan_profile(args(ProfileOp::Disable, Some(ProfStatus::Audit))), ProfilePlan::Malformed));
    assert!(matches!(plan_profile(args(ProfileOp::Status, None)), ProfilePlan::Malformed));
    assert!(matches!(
        (ProfileCaller { args: args(ProfileOp::Load, Some(ProfStatus::Audit)) }).handle(),
        ProfilePlan::Switch(_, ProfStatus::Audit)
    ));
}

#[test]
fn caller_and_server_plan_profiles_alike() {
    use_plans(ProfileOp::Load, Some(ProfStatus::Enforce));
    use_plans(ProfileOp::Disable, None);
    use_plans(ProfileOp::Status, Some(ProfStatus::Audit));
}

fn use_plans(op: ProfileOp, status: Option<ProfStatus>) {
    let args = ProfileArgs { profile: "p".to_string(), op, status };
    let from_caller = match (Caller { call: Call::Profile(args.clone()) }).handle() {
        CallerPlan::Profile(plan) => plan,
        other => panic!("unexpected plan {:?}", other),
    };
    let from_server = match (Server { call: Call::Profile(args) }).handle() {
        ServerPlan::Profile(plan) => plan,
        other => panic!("unexpected plan {:?}", other),
    };
    assert_eq!(format!("{:?}", from_caller), format!("{:?}", from_server));
}
