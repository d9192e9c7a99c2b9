use vstd::prelude::*;

use crate::capability::{capabilities, capability_list, Capability};
use crate::platform::Platform;
use crate::report::{
    dialog_prefix, dialog_text_of, failure_prefix, lemma_failure_line_parts,
    dialog_args, dialog_args_of, dialog_program, dialog_program_name, failure_line,
    failure_line_of, StartupFailure,
};

verus! {

/// One step that the host performs on behalf of the bootstrapper.
#[derive(Debug, PartialEq, Eq)]
pub enum Action {
    /// Register a capability plugin with the runtime being built.
    Register(Capability),
    /// Start the runtime and block on its event loop until it returns.
    RunEventLoop,
    /// Write one line to standard error.
    WriteStderr(String),
    /// Spawn a process without waiting for it.
    SpawnProcess { program: String, args: Vec<String> },
    /// End the process with this status.
    Exit(i32),
}

/// An action with its text as sequences of characters.
pub enum ActionModel {
    Register(Capability),
    RunEventLoop,
    WriteStderr(Seq<char>),
    SpawnProcess { program: Seq<char>, args: Seq<Seq<char>> },
    Exit(int),
}

impl View for Action {
    type V = ActionModel;

    open spec fn view(&self) -> ActionModel {
        match self {
            Action::Register(c) => ActionModel::Register(*c),
            Action::RunEventLoop => ActionModel::RunEventLoop,
            Action::WriteStderr(line) => ActionModel::WriteStderr(line@),
            Action::SpawnProcess { program, args } => ActionModel::SpawnProcess {
                program: program@,
                args: args@.map_values(|s: String| s@),
            },
            Action::Exit(code) => ActionModel::Exit(*code as int),
        }
    }
}

/// The models of a sequence of actions.
pub open spec fn models(actions: Seq<Action>) -> Seq<ActionModel> {
    actions.map_values(|a: Action| a@)
}

/// The steps before the runtime returns: every capability registered, then the event loop.
pub open spec fn launch_plan() -> Seq<ActionModel> {
    capability_list().map_values(|c: Capability| ActionModel::Register(c)).push(
        ActionModel::RunEventLoop,
    )
}

/// The steps after the runtime returned, with `failure` the message it failed with, if any.
pub open spec fn finish_plan(platform: Platform, failure: Option<Seq<char>>) -> Seq<ActionModel> {
    match failure {
        None => Seq::empty(),
        Some(message) => {
            let report = seq![ActionModel::WriteStderr(failure_line_of(message))];
            let dialog = if platform.spec_shows_dialog() {
                seq![
                    ActionModel::SpawnProcess {
                        program: dialog_program_name(),
                        args: dialog_args_of(message),
                    },
                ]
            } else {
                Seq::empty()
            };
            report + dialog + seq![ActionModel::Exit(1)]
        },
    }
}

/// The message of a failed outcome of the runtime, none on success.
pub open spec fn failure_of(outcome: Result<(), StartupFailure>) -> Option<Seq<char>> {
    match outcome {
        Ok(()) => None,
        Err(f) => Some(f.message@),
    }
}

/// All the steps of one start of the application.
pub open spec fn run_trace(platform: Platform, failure: Option<Seq<char>>) -> Seq<ActionModel> {
    launch_plan() + finish_plan(platform, failure)
}

/// The status the process ends with: that of its last step if it exits, else 0 (a normal return).
pub open spec fn exit_status(trace: Seq<ActionModel>) -> int {
    if trace.len() > 0 && trace.last() is Exit {
        trace.last()->Exit_0
    } else {
        0
    }
}

/// Whether `a` stands at exactly one place in `s`.
pub open spec fn occurs_once(s: Seq<ActionModel>, a: ActionModel) -> bool {
    exists|i: int|
        0 <= i < s.len() && s[i] == a && forall|j: int| 0 <= j < s.len() && s[j] == a ==> j == i
}

/// The steps to take before the runtime returns.
pub fn launch_actions() -> (r: Vec<Action>)
    ensures
        models(r@) == launch_plan(),
{
    let caps = capabilities();
    let mut r: Vec<Action> = Vec::new();
    let mut i: usize = 0;
    while i < caps.len()
        invariant
            caps@ == capability_list(),
            i <= caps.len(),
            r@.len() == i,
            forall|j: int| 0 <= j < i ==> r@[j]@ == ActionModel::Register(caps@[j]),
        decreases caps.len() - i,
    {
        r.push(Action::Register(caps[i]));
        i = i + 1;
    }
    r.push(Action::RunEventLoop);
    proof {
        assert(models(r@) =~= launch_plan());
    }
    r
}

/// The steps to take once the runtime has returned with `outcome` on `platform`.
pub fn on_run_finished(platform: Platform, outcome: &Result<(), StartupFailure>) -> (r: Vec<Action>)
    ensures
        models(r@) == finish_plan(platform, failure_of(*outcome)),
{
    let mut r: Vec<Action> = Vec::new();
    match outcome {
        Ok(()) => {},
        Err(failure) => {
            let message = failure.message();
            r.push(Action::WriteStderr(failure_line(message)));
            if platform.shows_dialog() {
                r.push(Action::SpawnProcess { program: dialog_program(), args: dialog_args(message) });
            }
            r.push(Action::Exit(1));
        },
    }
    proof {
        assert(models(r@) =~= finish_plan(platform, failure_of(*outcome)));
    }
    r
}

/// The launch steps written out one by one.
proof fn lemma_launch_plan_steps()
    ensures
        launch_plan() == seq![
            ActionModel::Register(Capability::Filesystem),
            ActionModel::Register(Capability::Notification),
            ActionModel::Register(Capability::Http),
            ActionModel::RunEventLoop,
        ],
{
    assert(launch_plan() =~= seq![
        ActionModel::Register(Capability::Filesystem),
        ActionModel::Register(Capability::Notification),
        ActionModel::Register(Capability::Http),
        ActionModel::RunEventLoop,
    ]);
}

/// When the runtime starts, the bootstrapper only blocks on the event loop, reports nothing,
/// and the process ends with status 0 once the loop returns.
pub proof fn law_success_ends_normally(platform: Platform)
    ensures
        run_trace(platform, None) == launch_plan(),
        run_trace(platform, None).last() == ActionModel::RunEventLoop,
        forall|i: int|
            0 <= i < run_trace(platform, None).len() ==> !(run_trace(platform, None)[i] is WriteStderr)
                && !(run_trace(platform, None)[i] is SpawnProcess),
        exit_status(run_trace(platform, None)) == 0,
{
    lemma_launch_plan_steps();
    assert(run_trace(platform, None) =~= launch_plan());
}

/// When the runtime fails to start with `message`, a line made of the fixed prefix and the
/// message goes to standard error, on Windows the dialog program is spawned with the message
/// among its arguments, and the process ends with status 1 on every platform.
pub proof fn law_failure_reported(platform: Platform, message: Seq<char>)
    ensures
        ({
            let t = run_trace(platform, Some(message));
            &&& occurs_once(t, ActionModel::WriteStderr(failure_line_of(message)))
            &&& failure_line_of(message).subrange(0, failure_prefix().len() as int)
                == failure_prefix()
            &&& failure_line_of(message).subrange(
                failure_prefix().len() as int,
                failure_line_of(message).len() as int,
            ) == message
            &&& platform is Windows ==> exists|i: int|
                0 <= i < t.len() && t[i] == (ActionModel::SpawnProcess {
                    program: dialog_program_name(),
                    args: dialog_args_of(message),
                })
            &&& dialog_args_of(message).last().subrange(
                dialog_prefix().len() as int,
                dialog_args_of(message).last().len() as int,
            ) == message
            &&& exit_status(t) == 1
        }),
{
    lemma_launch_plan_steps();
    lemma_failure_line_parts(message);
    let t = run_trace(platform, Some(message));
    let line = ActionModel::WriteStderr(failure_line_of(message));
    let spawn = ActionModel::SpawnProcess {
        program: dialog_program_name(),
        args: dialog_args_of(message),
    };
    let f = finish_plan(platform, Some(message));
    if platform is Windows {
        assert(f =~= seq![line, spawn, ActionModel::Exit(1)]);
        assert(t[5] == spawn);
    } else {
        assert(f =~= seq![line, ActionModel::Exit(1)]);
    }
    assert(t[4] == line);
    assert forall|j: int| 0 <= j < t.len() && t[j] == line implies j == 4 by {
        if j >= 4 {
            assert(t[j] == f[j - 4]);
        }
    }
    assert(dialog_args_of(message).last() == dialog_text_of(message));
    assert(dialog_text_of(message).subrange(
        dialog_prefix().len() as int,
        dialog_text_of(message).len() as int,
    ) =~= message);
}

/// On a desktop other than Windows no process is spawned, whatever the outcome.
pub proof fn law_no_dialog_off_windows(platform: Platform, failure: Option<Seq<char>>)
    requires
        platform.spec_is_desktop(),
        !(platform is Windows),
    ensures
        forall|i: int|
            0 <= i < run_trace(platform, failure).len() ==> !(run_trace(
                platform,
                failure,
            )[i] is SpawnProcess),
{
    lemma_launch_plan_steps();
    let t = run_trace(platform, failure);
    match failure {
        None => {
            assert(t =~= launch_plan());
        },
        Some(message) => {
            assert(t =~= launch_plan() + seq![
                ActionModel::WriteStderr(failure_line_of(message)),
                ActionModel::Exit(1),
            ]);
        },
    }
}

/// Each capability is registered exactly once, on the success path and on the failure path.
pub proof fn law_capabilities_registered_once(
    platform: Platform,
    failure: Option<Seq<char>>,
    capability: Capability,
)
    ensures
        occurs_once(run_trace(platform, failure), ActionModel::Register(capability)),
{
    lemma_launch_plan_steps();
    let t = run_trace(platform, failure);
    let a = ActionModel::Register(capability);
    assert forall|j: int| 4 <= j < t.len() implies !(t[j] is Register) by {
        match failure {
            None => {},
            Some(message) => {
                let f = finish_plan(platform, failure);
                assert(t[j] == f[j - 4]);
                if platform.spec_shows_dialog() {
                    assert(f =~= seq![
                        ActionModel::WriteStderr(failure_line_of(message)),
                        ActionModel::SpawnProcess {
                            program: dialog_program_name(),
                            args: dialog_args_of(message),
                        },
                        ActionModel::Exit(1),
                    ]);
                } else {
                    assert(f =~= seq![
                        ActionModel::WriteStderr(failure_line_of(message)),
                        ActionModel::Exit(1),
                    ]);
                }
            },
        }
    }
    let i: int = match capability {
        Capability::Filesystem => 0,
        Capability::Notification => 1,
        Capability::Http => 2,
    };
    assert(t[i] == a);
}

} // verus!
