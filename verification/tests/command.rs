use aa_caller::command::profile_target;
use aa_caller::command::{
    join_logs, parser_command, profile_set_command, status_command, status_reply, target_path,
    unconfined_command, unconfined_reply, CommandOutput, LoadAction, LoadEvent, LoadFailure, ProfileLoad,
    PROFILE_DIR, STATUS_FALLBACK,
};
use aa_caller::common::{ProfStatus, LOG_FILES};

#[test]
fn status_command_line() {
    let cmd = status_command();
    assert_eq!(cmd.program, "aa-status");
    assert_eq!(cmd.args, vec!["--json".to_string()]);
}

#[test]
fn unconfined_command_line() {
    let cmd = unconfined_command();
    assert_eq!(cmd.program, "ps");
    assert_eq!(cmd.args, vec!["-A", "--format", "pid,ppid,user,context,comm", "--no-header"]);
}

#[test]
fn profile_set_command_lines() {
    let p = "usr.bin.foo".to_string();
    let cases = [
        (ProfStatus::Audit, "aa-audit"),
        (ProfStatus::Enforce, "aa-enforce"),
        (ProfStatus::Complain, "aa-complain"),
        (ProfStatus::Disabled, "aa-disable"),
    ];
    for (status, program) in cases {
        let cmd = profile_set_command(&p, status);
        assert_eq!(cmd.program, program);
        assert_eq!(cmd.args, vec!["usr.bin.foo".to_string()]);
    }
}

#[test]
fn parser_command_line() {
    let cmd = parser_command(&"/etc/apparmor.d/x".to_string());
    assert_eq!(cmd.program, "apparmor_parser");
    assert_eq!(cmd.args, vec!["-r", "/etc/apparmor.d/x"]);
}

#[test]
fn status_reply_cases() {
    let ok = CommandOutput { success: true, stdout: b"{}".to_vec() };
    assert_eq!(status_reply(Some(ok)), b"{}".to_vec());
    let failed = CommandOutput { success: false, stdout: b"junk".to_vec() };
    assert_eq!(status_reply(Some(failed)), b"{\"processes\": {}, \"profiles\": {}}".to_vec());
    assert_eq!(status_reply(None), STATUS_FALLBACK.as_bytes().to_vec());
}

#[test]
fn unconfined_reply_cases() {
    let ok = CommandOutput { success: true, stdout: b"1 0 root".to_vec() };
    assert_eq!(unconfined_reply(Some(ok)), b"1 0 root".to_vec());
    let failed = CommandOutput { success: false, stdout: b"x".to_vec() };
    assert_eq!(unconfined_reply(Some(failed)), Vec::<u8>::new());
    assert_eq!(unconfined_reply(None), Vec::<u8>::new());
}

#[test]
fn logs_are_joined_in_order() {
    let reads = vec![Some(b"ab".to_vec()), None, Some(b"c".to_vec()), Some(Vec::new())];
    assert_eq!(join_logs(reads), b"abc".to_vec());
    assert_eq!(join_logs(vec![None, None]), Vec::<u8>::new());
    assert_eq!(join_logs(Vec::new()), Vec::<u8>::new());
}

#[test]
fn log_file_location() {
    assert_eq!(LOG_FILES, ["/var/log/audit/audit.log"]);
}

#[test]
fn target_paths() {
    assert_eq!(PROFILE_DIR, "/etc/apparmor.d/");
    assert_eq!(target_path(&"/home/u/usr.bin.foo".to_string()), Some("/etc/apparmor.d/usr.bin.foo".to_string()));
    assert_eq!(target_path(&"local".to_string()), Some("/etc/apparmor.d/local".to_string()));
    assert_eq!(target_path(&"dir/sub/".to_string()), Some("/etc/apparmor.d/sub".to_string()));
    assert_eq!(target_path(&"..".to_string()), None);
    assert_eq!(target_path(&"a/..".to_string()), None);
    assert_eq!(target_path(&"/".to_string()), None);
}

#[test]
fn load_that_succeeds() {
    let (state, action) = ProfileLoad::start("/home/u/prof".to_string());
    assert!(matches!(&action, LoadAction::Read(p) if p == "/home/u/prof"));
    assert!(!state.is_done());
    let (state, action) = state.step(LoadEvent::Read(Some(b"profile x {}".to_vec())));
    assert!(matches!(&action, LoadAction::Create(p) if p == "/etc/apparmor.d/prof"));
    let (state, action) = state.step(LoadEvent::Created(true));
    assert!(matches!(&action, LoadAction::Write(b) if b == b"profile x {}"));
    let (state, action) = state.step(LoadEvent::Written(true));
    match &action {
        LoadAction::Run(cmd) => {
            assert_eq!(cmd.program, "apparmor_parser");
            assert_eq!(cmd.args, vec!["-r", "/etc/apparmor.d/prof"]);
        }
        other => panic!("unexpected action {:?}", other),
    }
    let (state, action) = state.step(LoadEvent::Ran(true));
    assert!(matches!(action, LoadAction::Stop));
    assert!(state.is_done());
}

#[test]
fn load_reports_the_failed_step() {
    let (state, _) = ProfileLoad::start("/x/p".to_string());
    let (state, action) = state.step(LoadEvent::Read(None));
    assert!(matches!(action, LoadAction::Failed(LoadFailure::ReadSource)));
    assert!(state.is_done());

    let (state, _) = ProfileLoad::start("/x/p".to_string());
    let (state, _) = state.step(LoadEvent::Read(Some(vec![1])));
    let (state, action) = state.step(LoadEvent::Created(false));
    assert!(matches!(action, LoadAction::Failed(LoadFailure::CreateTarget)));
    assert!(state.is_done());

    let (state, _) = ProfileLoad::start("/x/p".to_string());
    let (state, _) = state.step(LoadEvent::Read(Some(vec![1])));
    let (state, _) = state.step(LoadEvent::Created(true));
    let (state, action) = state.step(LoadEvent::Written(false));
    assert!(matches!(action, LoadAction::Failed(LoadFailure::WriteTarget)));
    assert!(state.is_done());

    let (state, _) = ProfileLoad::start("/x/p".to_string());
    let (state, _) = state.step(LoadEvent::Read(Some(vec![1])));
    let (state, _) = state.step(LoadEvent::Created(true));
    let (state, _) = state.step(LoadEvent::Written(true));
    let (state, action) = state.step(LoadEvent::Ran(false));
    assert!(matches!(action, LoadAction::Failed(LoadFailure::RunParser)));
    assert!(state.is_done());
}

#[test]
fn load_without_file_name() {
    let (state, _) = ProfileLoad::start("..".to_string());
    let (state, action) = state.step(LoadEvent::Read(Some(vec![1])));
    assert!(matches!(action, LoadAction::NoFileName));
    assert!(state.is_done());
}

#[test]
fn profile_target_from_name() {
    assert_eq!(profile_target(Some("x".to_string())), Some("/etc/apparmor.d/x".to_string()));
    assert_eq!(profile_target(None), None);
}

#[test]
fn single_log_file() {
    assert_eq!(join_logs(vec![Some(b"type=AVC msg=audit".to_vec())]), b"type=AVC msg=audit".to_vec());
    assert_eq!(join_logs(vec![None]), Vec::<u8>::new());
}

#[test]
fn logs_of_two_lists_concatenate() {
    let first = vec![Some(b"a".to_vec()), None];
    let second = vec![Some(b"bc".to_vec())];
    let mut both = first.clone();
    both.extend(second.clone());
    let mut expected = join_logs(first);
    expected.extend(join_logs(second));
    assert_eq!(join_logs(both), expected);
}
