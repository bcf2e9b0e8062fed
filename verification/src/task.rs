use crate::client::DownloadEvent;
use crate::client::GenResponse;
use crate::client::download_err_spec;
use crate::client::gen_outcome_spec;
use crate::client::generation_outcome;
use crate::errors::describe_spec;
use crate::naming::name_for;
use crate::naming::name_spec;
use crate::naming::path_spec;
use crate::naming::unique_path;
use crate::naming::valid_suffix;
use vstd::prelude::*;
use vstd::string::StringExecFns;

verus! {

/// The terminal state of one task: the written path on success, or a
/// report of what failed, confined to that one task.
#[derive(Debug, Clone, PartialEq, Eq)]
pub enum TaskOutcome {
    Success(String),
    GenerationFailed(String),
    DownloadFailed(String),
}

/// The lifecycle of one prompt's task. It only ever advances: Generating,
/// then Downloading, then exactly one terminal outcome.
#[derive(Debug, Clone, PartialEq, Eq)]
pub enum TaskState {
    Generating { name: String },
    Downloading { name: String, url: String, path: String },
    Terminal { outcome: TaskOutcome },
}

/// How far a task has advanced; a step never lowers it.
pub open spec fn rank(t: TaskState) -> int {
    match t {
        TaskState::Generating { .. } => 0,
        TaskState::Downloading { .. } => 1,
        TaskState::Terminal { .. } => 2,
    }
}

/// A task's progress advances strictly through three levels and stops at
/// the terminal one.
pub proof fn lemma_rank_bounds(t: TaskState)
    ensures
        0 <= rank(t) <= 2,
        rank(t) == 2 <==> t is Terminal,
{
}

/// Begin the task for one resolved prompt: derive its display name and
/// enter the `Generating` state.
pub fn task_begin(prompt: String) -> (t: TaskState)
    ensures
        (t matches TaskState::Generating { name } && name@ == name_spec(prompt@)),
{
    TaskState::Generating { name: name_for(prompt) }
}

/// Advance a generating task on the outcome of its generation call. On
/// success the task keeps its name, records the returned URL and a freshly
/// composed unique output path, and moves to `Downloading`; on any error it
/// terminates as `GenerationFailed` with the error's description, touching
/// no other task.
pub fn task_on_generation(t: TaskState, resp: GenResponse) -> (u: TaskState)
    requires
        t is Generating,
    ensures
        rank(u) > rank(t),
        (gen_outcome_spec(resp) matches Ok(url) ==> {
            &&& u matches TaskState::Downloading { name, url: got, path }
            &&& name == t->Generating_name
            &&& got@ == url
            &&& exists|sfx: Seq<char>|
                #[trigger] valid_suffix(sfx) && path@ == path_spec(name@, sfx)
        }),
        (gen_outcome_spec(resp) matches Err(e) ==> {
            &&& u matches TaskState::Terminal { outcome: TaskOutcome::GenerationFailed(m) }
            &&& m@ == describe_spec(e)
        }),
{
    let name = match t {
        TaskState::Generating { name } => name,
        _ => vstd::pervasive::unreached(),
    };
    match generation_outcome(resp) {
        Ok(url) => {
            let path = unique_path(name.clone());
            TaskState::Downloading { name, url, path }
        },
        Err(e) => {
            TaskState::Terminal { outcome: TaskOutcome::GenerationFailed(e.describe()) }
        },
    }
}

/// Advance a downloading task on the outcome of its download. The task
/// terminates either way: `Success` carrying its output path exactly when
/// every byte was written and flushed, else `DownloadFailed` with the
/// error's description. A partial file is never reported as success.
pub fn task_on_download(t: TaskState, ev: DownloadEvent) -> (u: TaskState)
    requires
        t is Downloading,
    ensures
        rank(u) > rank(t),
        u is Terminal,
        (ev is Completed ==> (u matches TaskState::Terminal {
            outcome: TaskOutcome::Success(p),
        } && p == t->Downloading_path)),
        (ev !is Completed ==> (u matches TaskState::Terminal {
            outcome: TaskOutcome::DownloadFailed(m),
        } && m@ == describe_spec(download_err_spec(ev)))),
{
    let path = match t {
        TaskState::Downloading { path, .. } => path,
        _ => vstd::pervasive::unreached(),
    };
    match crate::client::download_outcome(ev) {
        Ok(()) => TaskState::Terminal { outcome: TaskOutcome::Success(path) },
        Err(e) => TaskState::Terminal { outcome: TaskOutcome::DownloadFailed(e.describe()) },
    }
}

/// The progress line shown for a task in each state: the derived name while
/// working, and the output path or the failure description once terminal.
pub open spec fn message_spec(t: TaskState) -> Seq<char> {
    match t {
        TaskState::Generating { name } => "[generating] "@ + name@,
        TaskState::Downloading { name, .. } => "[downloading] "@ + name@,
        TaskState::Terminal { outcome } => match outcome {
            TaskOutcome::Success(p) => "[done] "@ + p@,
            TaskOutcome::GenerationFailed(m) => "[error-gen] "@ + m@,
            TaskOutcome::DownloadFailed(m) => "[error-down] "@ + m@,
        },
    }
}

/// Render the progress line for a task's current state.
pub fn progress_message(t: &TaskState) -> (s: String)
    ensures
        s@ == message_spec(*t),
{
    match t {
        TaskState::Generating { name } => {
            let mut s = "[generating] ".to_owned();
            s.append(name.as_str());
            s
        },
        TaskState::Downloading { name, .. } => {
            let mut s = "[downloading] ".to_owned();
            s.append(name.as_str());
            s
        },
        TaskState::Terminal { outcome } => match outcome {
            TaskOutcome::Success(p) => {
                let mut s = "[done] ".to_owned();
                s.append(p.as_str());
                s
            },
            TaskOutcome::GenerationFailed(m) => {
                let mut s = "[error-gen] ".to_owned();
                s.append(m.as_str());
                s
            },
            TaskOutcome::DownloadFailed(m) => {
                let mut s = "[error-down] ".to_owned();
                s.append(m.as_str());
                s
            },
        },
    }
}

} // verus!
