//! The outside programs and files the helper uses, and what it makes of their
//! results. Running a program, reading and writing files are left to the
//! caller of this module; it says which program to run with which arguments,
//! and what to answer from what came back. A failure of a program or a file
//! operation gives an empty or fallback answer, or, while loading a profile,
//! an action that names the step that failed, for the caller to report.
use vstd::prelude::*;
use vstd::string::StringSliceAdditionalSpecFns;
use crate::common::ProfStatus;

verus! {

/// The answer to a status request when `aa-status` gives nothing usable.
pub const STATUS_FALLBACK: &'static str = "{\"processes\": {}, \"profiles\": {}}";

/// The directory that loaded profiles are copied into.
pub const PROFILE_DIR: &'static str = "/etc/apparmor.d/";

/// A program and its arguments.
#[derive(Clone, Debug)]
pub struct CommandLine {
    pub program: String,
    pub args: Vec<String>,
}

impl View for CommandLine {
    type V = (Seq<char>, Seq<Seq<char>>);

    open spec fn view(&self) -> (Seq<char>, Seq<Seq<char>>) {
        (self.program@, self.args@.map_values(|a: String| a@))
    }
}

/// How a program ended: whether it exited successfully, and what it wrote to
/// its standard output.
#[derive(Clone, Debug)]
pub struct CommandOutput {
    pub success: bool,
    pub stdout: Vec<u8>,
}

fn command_line(program: &str, args: Vec<String>) -> (cmd: CommandLine)
    ensures
        cmd@ == (program@, args@.map_values(|a: String| a@)),
{
    CommandLine { program: String::from_str(program), args }
}

fn push_arg(args: &mut Vec<String>, arg: &str)
    ensures
        final(args)@.map_values(|a: String| a@) == old(args)@.map_values(|a: String| a@).push(
            arg@,
        ),
{
    push_string(args, String::from_str(arg));
}

fn push_string(args: &mut Vec<String>, arg: String)
    ensures
        final(args)@.map_values(|a: String| a@) == old(args)@.map_values(|a: String| a@).push(
            arg@,
        ),
{
    args.push(arg);
    assert(final(args)@.map_values(|a: String| a@) =~= old(args)@.map_values(|a: String| a@).push(
        arg@,
    ));
}

/// `aa-status --json`: the state of every profile and confined process.
pub fn status_command() -> (cmd: CommandLine)
    ensures
        cmd@ == ("aa-status"@, seq!["--json"@]),
{
    let mut args: Vec<String> = Vec::new();
    assert(args@.map_values(|a: String| a@) =~= Seq::<Seq<char>>::empty());
    push_arg(&mut args, "--json");
    command_line("aa-status", args)
}

/// `ps` listing every process with its security context.
pub fn unconfined_command() -> (cmd: CommandLine)
    ensures
        cmd@ == ("ps"@, seq!["-A"@, "--format"@, "pid,ppid,user,context,comm"@, "--no-header"@]),
{
    let mut args: Vec<String> = Vec::new();
    assert(args@.map_values(|a: String| a@) =~= Seq::<Seq<char>>::empty());
    push_arg(&mut args, "-A");
    push_arg(&mut args, "--format");
    push_arg(&mut args, "pid,ppid,user,context,comm");
    push_arg(&mut args, "--no-header");
    command_line("ps", args)
}

/// The program that switches a profile to the given state.
pub open spec fn status_program(status: ProfStatus) -> Seq<char> {
    match status {
        ProfStatus::Audit => "aa-audit"@,
        ProfStatus::Enforce => "aa-enforce"@,
        ProfStatus::Complain => "aa-complain"@,
        ProfStatus::Disabled => "aa-disable"@,
    }
}

/// Each state is switched to by its own program: `aa-enforce`,
/// `aa-complain`, `aa-audit` and `aa-disable`.
pub proof fn lemma_status_program_table()
    ensures
        status_program(ProfStatus::Enforce) == "aa-enforce"@,
        status_program(ProfStatus::Complain) == "aa-complain"@,
        status_program(ProfStatus::Audit) == "aa-audit"@,
        status_program(ProfStatus::Disabled) == "aa-disable"@,
{
}

/// The command that switches `profile` to `status`.
pub fn profile_set_command(profile: &String, status: ProfStatus) -> (cmd: CommandLine)
    ensures
        cmd@ == (status_program(status), seq![profile@]),
{
    let mut args: Vec<String> = Vec::new();
    assert(args@.map_values(|a: String| a@) =~= Seq::<Seq<char>>::empty());
    args.push(profile.clone());
    assert(args@.map_values(|a: String| a@) =~= seq![profile@]);
    let program = match status {
        ProfStatus::Audit => "aa-audit",
        ProfStatus::Enforce => "aa-enforce",
        ProfStatus::Complain => "aa-complain",
        ProfStatus::Disabled => "aa-disable",
    };
    command_line(program, args)
}

/// `apparmor_parser -r target`: loads (or replaces) the profile in `target`.
pub fn parser_command(target: &String) -> (cmd: CommandLine)
    ensures
        cmd@ == ("apparmor_parser"@, seq!["-r"@, target@]),
{
    let mut args: Vec<String> = Vec::new();
    assert(args@.map_values(|a: String| a@) =~= Seq::<Seq<char>>::empty());
    push_arg(&mut args, "-r");
    assert(args@.map_values(|a: String| a@) =~= seq!["-r"@]);
    push_string(&mut args, target.clone());
    assert(args@.map_values(|a: String| a@) =~= seq!["-r"@, target@]);
    command_line("apparmor_parser", args)
}

/// The answer to a status request: what `aa-status` printed where it ran
/// and succeeded, else `STATUS_FALLBACK`.
pub fn status_reply(outcome: Option<CommandOutput>) -> (reply: Vec<u8>)
    ensures
        reply@ == match outcome {
            Some(out) => if out.success {
                out.stdout@
            } else {
                STATUS_FALLBACK.spec_bytes()
            },
            None => STATUS_FALLBACK.spec_bytes(),
        },
{
    match outcome {
        Some(out) => if out.success {
            out.stdout
        } else {
            vstd::slice::slice_to_vec(STATUS_FALLBACK.as_bytes())
        },
        None => vstd::slice::slice_to_vec(STATUS_FALLBACK.as_bytes()),
    }
}

/// The answer to a request for the process list: what `ps` printed where it
/// ran and succeeded, else nothing.
pub fn unconfined_reply(outcome: Option<CommandOutput>) -> (reply: Vec<u8>)
    ensures
        reply@ == match outcome {
            Some(out) => if out.success {
                out.stdout@
            } else {
                Seq::<u8>::empty()
            },
            None => Seq::<u8>::empty(),
        },
{
    match outcome {
        Some(out) => if out.success {
            out.stdout
        } else {
            Vec::new()
        },
        None => Vec::new(),
    }
}

/// The contents of the files that could be read, one after the other in
/// order; a file that could not be read (`None`) adds nothing.
pub open spec fn joined_logs(reads: Seq<Option<Seq<u8>>>) -> Seq<u8>
    decreases reads.len(),
{
    if reads.len() == 0 {
        Seq::empty()
    } else {
        joined_logs(reads.drop_last()) + match reads.last() {
            Some(contents) => contents,
            None => Seq::empty(),
        }
    }
}

/// The view of the results of reading some files.
pub open spec fn reads_view(reads: Seq<Option<Vec<u8>>>) -> Seq<Option<Seq<u8>>> {
    reads.map_values(|r: Option<Vec<u8>>| match r {
        Some(v) => Some(v@),
        None => None,
    })
}

/// Puts together the logs from the results of reading the log files.
pub fn join_logs(reads: Vec<Option<Vec<u8>>>) -> (log: Vec<u8>)
    ensures
        log@ == joined_logs(reads_view(reads@)),
{
    let ghost all = reads@;
    let count = reads.len();
    assert(all.len() == count);
    let mut rest = reads;
    let mut log: Vec<u8> = Vec::new();
    let mut i: usize = 0;
    while rest.len() > 0
        invariant
            i + rest@.len() == all.len(),
            all.len() <= usize::MAX,
            rest@ == all.subrange(i as int, all.len() as int),
            log@ == joined_logs(reads_view(all.subrange(0, i as int))),
        decreases rest@.len(),
    {
        let read = rest.remove(0);
        let ghost before = log@;
        match read {
            Some(contents) => {
                let mut contents = contents;
                log.append(&mut contents);
            },
            None => {},
        }
        proof {
            assert(reads_view(all.subrange(0, i + 1)).drop_last() =~= reads_view(
                all.subrange(0, i as int),
            ));
            assert(all.subrange(0, i + 1).last() == all[i as int]);
        }
        i = i + 1;
        assert(rest@ =~= all.subrange(i as int, all.len() as int));
    }
    assert(all.subrange(0, i as int) =~= all);
    log
}

/// What `std::path::Path::file_name` gives for the path `path`: its final
/// component, if it has one.
pub uninterp spec fn final_component(path: Seq<char>) -> Option<Seq<char>>;

/// Whether the path ends in the component `..`.
pub open spec fn ends_in_parent(path: Seq<char>) -> bool {
    &&& path.len() >= 2
    &&& path.subrange(path.len() - 2, path.len() as int) == ".."@
    &&& (path.len() == 2 || path[path.len() - 3] == '/')
}

/// Calls `std::path::Path::file_name` on `path`. Trusted: the result is the
/// name `final_component` of the path, and `None` for a path that ends in the
/// component `..`, as the documentation of `file_name` says.
#[verifier::external_body]
fn file_name(path: &str) -> (res: Option<String>)
    ensures
        match res {
            Some(name) => final_component(path@) == Some(name@),
            None => final_component(path@) is None,
        },
        ends_in_parent(path@) ==> res is None,
{
    match std::path::Path::new(path).file_name() {
        Some(name) => Some(name.to_string_lossy().into_owned()),
        None => None,
    }
}

/// Where a profile read from `source` is copied to: the final component of
/// `source` in `PROFILE_DIR`, if `source` has a final component.
pub open spec fn load_target(source: Seq<char>) -> Option<Seq<char>> {
    match final_component(source) {
        Some(name) => Some(PROFILE_DIR@ + name),
        None => None,
    }
}

/// Where a profile whose source has the final component `name` is copied to:
/// `name` in `PROFILE_DIR`; nowhere where there is no final component.
pub fn profile_target(name: Option<String>) -> (res: Option<String>)
    ensures
        match name {
            Some(n) => res matches Some(target) && target@ == PROFILE_DIR@ + n@,
            None => res is None,
        },
{
    match name {
        Some(name) => {
            let mut target = String::from_str(PROFILE_DIR);
            target.append(name.as_str());
            Some(target)
        },
        None => None,
    }
}

/// Where a profile read from `source` is copied to, if `source` has a final
/// component.
pub fn target_path(source: &String) -> (res: Option<String>)
    ensures
        match res {
            Some(target) => load_target(source@) == Some(target@),
            None => load_target(source@) is None,
        },
        ends_in_parent(source@) ==> res is None,
{
    profile_target(file_name(source.as_str()))
}

/// Loading a profile from a file: read the file, copy it into `PROFILE_DIR`
/// under its own name, then have `apparmor_parser` load the copy. The first
/// step that fails ends the load.
#[derive(Debug)]
pub enum ProfileLoad {
    /// The source file is being read.
    Reading { source: String },
    /// The copy is being created; the source held `contents`.
    Creating { target: String, contents: Vec<u8> },
    /// `contents` are being written to the copy.
    Writing { target: String },
    /// `apparmor_parser` is running on the copy.
    Running,
    /// Nothing more is done.
    Done,
}

/// What came of the last action of a load.
#[derive(Debug)]
pub enum LoadEvent {
    /// The source file was read (`Some` with its contents) or could not be.
    Read(Option<Vec<u8>>),
    /// The copy was created, or could not be.
    Created(bool),
    /// The contents were written to the copy, or could not be.
    Written(bool),
    /// `apparmor_parser` ran, or could not be started.
    Ran(bool),
}

/// The step of a load that failed.
#[derive(Clone, Copy, PartialEq, Eq, Structural, Debug)]
pub enum LoadFailure {
    /// The source file could not be read.
    ReadSource,
    /// The copy could not be created.
    CreateTarget,
    /// The contents could not be written to the copy.
    WriteTarget,
    /// `apparmor_parser` could not be started.
    RunParser,
}

/// What to do next in a load.
#[derive(Debug)]
pub enum LoadAction {
    /// Read the file at this path.
    Read(String),
    /// Create (or truncate) the file at this path.
    Create(String),
    /// Write these bytes to the file just created.
    Write(Vec<u8>),
    /// Run this command and wait for it to end.
    Run(CommandLine),
    /// The source path has no final component to name the copy by: the load
    /// cannot go on.
    NoFileName,
    /// The load is over: this step failed, which is to be reported.
    Failed(LoadFailure),
    /// The load is over, every step having succeeded.
    Stop,
}

/// The state of a load, in plain values.
pub enum LoadModel {
    Reading(Seq<char>),
    Creating(Seq<char>, Seq<u8>),
    Writing(Seq<char>),
    Running,
    Done,
}

/// An event of a load, in plain values.
pub enum LoadEventModel {
    Read(Option<Seq<u8>>),
    Created(bool),
    Written(bool),
    Ran(bool),
}

/// An action of a load, in plain values.
pub enum LoadActionModel {
    Read(Seq<char>),
    Create(Seq<char>),
    Write(Seq<u8>),
    Run((Seq<char>, Seq<Seq<char>>)),
    NoFileName,
    Failed(LoadFailure),
    Stop,
}

impl View for ProfileLoad {
    type V = LoadModel;

    open spec fn view(&self) -> LoadModel {
        match self {
            ProfileLoad::Reading { source } => LoadModel::Reading(source@),
            ProfileLoad::Creating { target, contents } => LoadModel::Creating(target@, contents@),
            ProfileLoad::Writing { target } => LoadModel::Writing(target@),
            ProfileLoad::Running => LoadModel::Running,
            ProfileLoad::Done => LoadModel::Done,
        }
    }
}

impl View for LoadEvent {
    type V = LoadEventModel;

    open spec fn view(&self) -> LoadEventModel {
        match self {
            LoadEvent::Read(r) => LoadEventModel::Read(
                match r {
                    Some(v) => Some(v@),
                    None => None,
                },
            ),
            LoadEvent::Created(ok) => LoadEventModel::Created(*ok),
            LoadEvent::Written(ok) => LoadEventModel::Written(*ok),
            LoadEvent::Ran(ok) => LoadEventModel::Ran(*ok),
        }
    }
}

impl View for LoadAction {
    type V = LoadActionModel;

    open spec fn view(&self) -> LoadActionModel {
        match self {
            LoadAction::Read(path) => LoadActionModel::Read(path@),
            LoadAction::Create(path) => LoadActionModel::Create(path@),
            LoadAction::Write(bytes) => LoadActionModel::Write(bytes@),
            LoadAction::Run(cmd) => LoadActionModel::Run(cmd@),
            LoadAction::NoFileName => LoadActionModel::NoFileName,
            LoadAction::Failed(step) => LoadActionModel::Failed(*step),
            LoadAction::Stop => LoadActionModel::Stop,
        }
    }
}

/// Whether a load in state `state` waits for an event of the kind of `event`.
pub open spec fn load_accepts(state: LoadModel, event: LoadEventModel) -> bool {
    match (state, event) {
        (LoadModel::Reading(_), LoadEventModel::Read(_)) => true,
        (LoadModel::Creating(_, _), LoadEventModel::Created(_)) => true,
        (LoadModel::Writing(_), LoadEventModel::Written(_)) => true,
        (LoadModel::Running, LoadEventModel::Ran(_)) => true,
        _ => false,
    }
}

/// The next state of a load and its next action, after `event`: the next
/// step where this one succeeded, the report of the failed step where it
/// failed.
pub open spec fn load_next(state: LoadModel, event: LoadEventModel) -> (LoadModel, LoadActionModel) {
    match (state, event) {
        (LoadModel::Reading(_), LoadEventModel::Read(None)) => (
            LoadModel::Done,
            LoadActionModel::Failed(LoadFailure::ReadSource),
        ),
        (LoadModel::Reading(source), LoadEventModel::Read(Some(contents))) => match load_target(
            source,
        ) {
            Some(target) => (LoadModel::Creating(target, contents), LoadActionModel::Create(target)),
            None => (LoadModel::Done, LoadActionModel::NoFileName),
        },
        (LoadModel::Creating(target, contents), LoadEventModel::Created(true)) => (
            LoadModel::Writing(target),
            LoadActionModel::Write(contents),
        ),
        (LoadModel::Creating(_, _), LoadEventModel::Created(false)) => (
            LoadModel::Done,
            LoadActionModel::Failed(LoadFailure::CreateTarget),
        ),
        (LoadModel::Writing(target), LoadEventModel::Written(true)) => (
            LoadModel::Running,
            LoadActionModel::Run(("apparmor_parser"@, seq!["-r"@, target])),
        ),
        (LoadModel::Writing(_), LoadEventModel::Written(false)) => (
            LoadModel::Done,
            LoadActionModel::Failed(LoadFailure::WriteTarget),
        ),
        (LoadModel::Running, LoadEventModel::Ran(false)) => (
            LoadModel::Done,
            LoadActionModel::Failed(LoadFailure::RunParser),
        ),
        _ => (LoadModel::Done, LoadActionModel::Stop),
    }
}

impl ProfileLoad {
    /// Starts loading the profile in the file at `source`.
    pub fn start(source: String) -> (res: (ProfileLoad, LoadAction))
        ensures
            res.0@ == LoadModel::Reading(source@),
            res.1@ == LoadActionModel::Read(source@),
    {
        let path = source.clone();
        (ProfileLoad::Reading { source }, LoadAction::Read(path))
    }

    /// Whether the load is over.
    pub fn is_done(&self) -> (res: bool)
        ensures
            res == (self@ is Done),
    {
        match self {
            ProfileLoad::Done => true,
            _ => false,
        }
    }

    /// The next state and action after `event`, which must be the outcome of
    /// the last action.
    pub fn step(self, event: LoadEvent) -> (res: (ProfileLoad, LoadAction))
        requires
            load_accepts(self@, event@),
        ensures
            (res.0@, res.1@) == load_next(self@, event@),
    {
        match (self, event) {
            (ProfileLoad::Reading { .. }, LoadEvent::Read(None)) => (
                ProfileLoad::Done,
                LoadAction::Failed(LoadFailure::ReadSource),
            ),
            (ProfileLoad::Creating { .. }, LoadEvent::Created(false)) => (
                ProfileLoad::Done,
                LoadAction::Failed(LoadFailure::CreateTarget),
            ),
            (ProfileLoad::Writing { .. }, LoadEvent::Written(false)) => (
                ProfileLoad::Done,
                LoadAction::Failed(LoadFailure::WriteTarget),
            ),
            (ProfileLoad::Running, LoadEvent::Ran(false)) => (
                ProfileLoad::Done,
                LoadAction::Failed(LoadFailure::RunParser),
            ),
            (ProfileLoad::Reading { source }, LoadEvent::Read(Some(contents))) => {
                match target_path(&source) {
                    Some(target) => {
                        let path = target.clone();
                        (ProfileLoad::Creating { target, contents }, LoadAction::Create(path))
                    },
                    None => (ProfileLoad::Done, LoadAction::NoFileName),
                }
            },
            (ProfileLoad::Creating { target, contents }, LoadEvent::Created(true)) => {
                (ProfileLoad::Writing { target }, LoadAction::Write(contents))
            },
            (ProfileLoad::Writing { target }, LoadEvent::Written(true)) => {
                let cmd = parser_command(&target);
                (ProfileLoad::Running, LoadAction::Run(cmd))
            },
            _ => (ProfileLoad::Done, LoadAction::Stop),
        }
    }
}

/// A load whose every step succeeds copies the bytes read from `source` into
/// the file named after the final component of `source` in `PROFILE_DIR`,
/// then runs `apparmor_parser -r` on that copy, and ends.
pub proof fn lemma_load_succeeds(source: Seq<char>, contents: Seq<u8>)
    requires
        final_component(source) is Some,
    ensures
        ({
            let target = PROFILE_DIR@ + final_component(source)->0;
            &&& load_next(LoadModel::Reading(source), LoadEventModel::Read(Some(contents))) == (
                LoadModel::Creating(target, contents),
                LoadActionModel::Create(target),
            )
            &&& load_next(LoadModel::Creating(target, contents), LoadEventModel::Created(true)) == (
                LoadModel::Writing(target),
                LoadActionModel::Write(contents),
            )
            &&& load_next(LoadModel::Writing(target), LoadEventModel::Written(true)) == (
                LoadModel::Running,
                LoadActionModel::Run(("apparmor_parser"@, seq!["-r"@, target])),
            )
            &&& load_next(LoadModel::Running, LoadEventModel::Ran(true)) == (
                LoadModel::Done,
                LoadActionModel::Stop,
            )
        }),
{
}

/// How many events a load in this state may still take.
pub open spec fn load_steps_left(state: LoadModel) -> nat {
    match state {
        LoadModel::Reading(_) => 4,
        LoadModel::Creating(_, _) => 3,
        LoadModel::Writing(_) => 2,
        LoadModel::Running => 1,
        LoadModel::Done => 0,
    }
}

/// Every load ends: each event brings it closer to `Done`, which takes no
/// event, so a load takes at most four events.
pub proof fn lemma_load_ends(state: LoadModel, event: LoadEventModel)
    ensures
        load_accepts(state, event) ==> load_steps_left(load_next(state, event).0) < load_steps_left(
            state,
        ),
        state is Done ==> !load_accepts(state, event),
{
}

/// The first step of a load that fails ends it, and the step is reported:
/// nothing more is done.
pub proof fn lemma_failed_step_is_reported(state: LoadModel, event: LoadEventModel)
    requires
        load_accepts(state, event),
        event == LoadEventModel::Read(None) || event == LoadEventModel::Created(false) || event
            == LoadEventModel::Written(false) || event == LoadEventModel::Ran(false),
    ensures
        load_next(state, event).0 == LoadModel::Done,
        load_next(state, event).1 == LoadActionModel::Failed(
            match event {
                LoadEventModel::Read(_) => LoadFailure::ReadSource,
                LoadEventModel::Created(_) => LoadFailure::CreateTarget,
                LoadEventModel::Written(_) => LoadFailure::WriteTarget,
                LoadEventModel::Ran(_) => LoadFailure::RunParser,
            },
        ),
{
}

/// A load that ends without a report of failure (and with a final component
/// to name the copy by) ended because every step succeeded: only a parser
/// run that started ends it with `Stop`.
pub proof fn lemma_stop_only_after_parser(state: LoadModel, event: LoadEventModel)
    requires
        load_accepts(state, event),
        load_next(state, event).1 == LoadActionModel::Stop,
    ensures
        state == LoadModel::Running,
        event == LoadEventModel::Ran(true),
{
}

/// A load writes only what it read, creates and writes only files in
/// `PROFILE_DIR`, and runs the parser only after a write that succeeded, on
/// the file written.
pub proof fn lemma_load_acts_on_its_copy(state: LoadModel, event: LoadEventModel)
    requires
        load_accepts(state, event),
    ensures
        load_next(state, event).1 matches LoadActionModel::Write(bytes) ==> state matches LoadModel::Creating(_, contents) && bytes == contents,
        load_next(state, event).1 matches LoadActionModel::Create(path) ==> state matches LoadModel::Reading(source) && load_target(source) == Some(path),
        load_next(state, event).0 matches LoadModel::Creating(target, contents) ==> state matches LoadModel::Reading(source) && load_target(source) == Some(target) && event == LoadEventModel::Read(Some(contents)),
        load_next(state, event).1 matches LoadActionModel::Run(cmd) ==> state matches LoadModel::Writing(target) && event == LoadEventModel::Written(true) && cmd == ("apparmor_parser"@, seq!["-r"@, target]),
{
}

/// The logs of two lists of files, one after the other, are the logs of the
/// first list followed by those of the second: each file adds its contents
/// in its place.
pub proof fn lemma_joined_logs_append(first: Seq<Option<Seq<u8>>>, second: Seq<Option<Seq<u8>>>)
    ensures
        joined_logs(first + second) == joined_logs(first) + joined_logs(second),
    decreases second.len(),
{
    if second.len() == 0 {
        assert(first + second =~= first);
        assert(joined_logs(first) + Seq::<u8>::empty() =~= joined_logs(first));
    } else {
        let last = match second.last() {
            Some(contents) => contents,
            None => Seq::<u8>::empty(),
        };
        lemma_joined_logs_append(first, second.drop_last());
        assert((first + second).drop_last() =~= first + second.drop_last());
        assert((first + second).last() == second.last());
        assert(joined_logs(first) + joined_logs(second.drop_last()) + last =~= joined_logs(first)
            + (joined_logs(second.drop_last()) + last));
    }
}

/// With the one log file there is, the logs are its contents, or nothing
/// where it cannot be read.
pub proof fn lemma_single_log_file(contents: Option<Seq<u8>>)
    ensures
        joined_logs(seq![contents]) == match contents {
            Some(bytes) => bytes,
            None => Seq::<u8>::empty(),
        },
{
    assert(seq![contents].drop_last() =~= Seq::<Option<Seq<u8>>>::empty());
    assert(joined_logs(Seq::<Option<Seq<u8>>>::empty()) == Seq::<u8>::empty());
    assert(seq![contents].last() == contents);
    assert(Seq::<u8>::empty() + match contents {
        Some(bytes) => bytes,
        None => Seq::<u8>::empty(),
    } =~= match contents {
        Some(bytes) => bytes,
        None => Seq::<u8>::empty(),
    });
}

/// Files that cannot be read add nothing to the logs: where none can be
/// read, the logs are empty.
pub proof fn lemma_unreadable_logs_are_empty(reads: Seq<Option<Seq<u8>>>)
    requires
        forall|i: int| 0 <= i < reads.len() ==> reads[i] is None,
    ensures
        joined_logs(reads) == Seq::<u8>::empty(),
    decreases reads.len(),
{
    if reads.len() > 0 {
        lemma_unreadable_logs_are_empty(reads.drop_last());
        assert(reads.last() is None);
        assert(Seq::<u8>::empty() + Seq::<u8>::empty() =~= Seq::<u8>::empty());
    }
}

} // verus!
