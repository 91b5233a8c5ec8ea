//! The decisions the daemon takes when it starts: whether another instance
//! already runs, and whether a stale socket may be cleared.
//!
//! The daemon records its process id in a file. At start it reads that
//! file; when it holds an id, the daemon looks for that process; and it
//! claims the file when no other instance is alive. The reading, the
//! looking and the writing are done by the program around the library,
//! which hands each outcome to the functions here and does what they answer.

use vstd::prelude::*;

use crate::text::{concat, concat3, is_trim_of, trim};

verus! {

/// Where the daemon records its process id.
pub fn pid_file_path() -> (p: String)
    ensures
        p@ == "/tmp/waydim.pid"@,
{
    "/tmp/waydim.pid".to_owned()
}

/// Where the daemon listens for its clients.
pub fn socket_path() -> (p: String)
    ensures
        p@ == "/tmp/waydim.sock"@,
{
    "/tmp/waydim.sock".to_owned()
}

/// What reading the process-id file gave.
#[derive(Debug)]
pub enum PidFileRead {
    /// The file was read; this is its whole text.
    Contents(String),
    /// There is no such file.
    NotFound,
    /// Reading failed otherwise; the text is the cause.
    Failed(String),
}

/// What to do after reading the process-id file.
#[derive(Debug)]
pub enum PidFileStep {
    /// Look whether the recorded process is alive, by testing `proc_path`.
    CheckProcess { pid: String, proc_path: String },
    /// No instance is recorded: write the own process id to the file.
    Claim,
    /// Stop with an error.
    Fail { context: String, cause: String },
}

/// What looking for the recorded process gave.
#[derive(Debug)]
pub enum ProcessCheck {
    Running,
    NotRunning,
    /// The look failed; the text is the cause.
    Failed(String),
}

/// What to do after looking for the recorded process.
#[derive(Debug)]
pub enum ProcessStep {
    /// Another instance is alive: report `message` and exit with status 1.
    AlreadyRunning { message: String },
    /// The recorded instance is gone: write the own process id to the file.
    Claim,
    /// Stop with an error.
    Fail { cause: String },
}

/// What removing a stale socket file gave.
#[derive(Debug)]
pub enum SocketRemoval {
    Removed,
    NotFound,
    /// Removal failed otherwise; the text is the cause.
    Failed(String),
}

/// The path under which the kernel shows the process `pid`.
pub open spec fn spec_proc_path(pid: Seq<char>) -> Seq<char> {
    "/proc/"@ + pid
}

/// The context given when the process-id file cannot be read.
pub open spec fn pid_file_context() -> Seq<char> {
    "Trying to know if another waydim is running by looking at PID file `/tmp/waydim.pid`"@
}

/// Returns the path under which the kernel shows the process `pid`.
pub fn proc_path(pid: &str) -> (p: String)
    ensures
        p@ == spec_proc_path(pid@),
        p@ == "/proc/"@ + pid@,
{
    concat("/proc/", pid)
}

/// The path of a process is `/proc/` followed by the whole process id: it is
/// six characters longer than the id, starts with `/proc/`, and the id,
/// unshortened, follows.
pub proof fn proc_path_holds_whole_pid(pid: &str, p: String)
    requires
        call_ensures(proc_path, (pid,), p),
    ensures
        p@.len() == pid@.len() + 6,
        p@.subrange(0, 6) == "/proc/"@,
        p@.subrange(6, p@.len() as int) == pid@,
        forall|i: int| 0 <= i < pid@.len() ==> p@[i + 6] == pid@[i],
{
    reveal_strlit("/proc/");
    assert(p@.subrange(0, 6) =~= "/proc/"@);
    assert(p@.subrange(6, p@.len() as int) =~= pid@);
}

/// The process looked for after reading the process-id file is the one whose
/// id the file holds: its path is `/proc/` followed by the whole recorded id,
/// stripped of surrounding white space.
pub proof fn pid_file_names_recorded_process(text: String, step: PidFileStep)
    requires
        call_ensures(pid_file_step, (PidFileRead::Contents(text),), step),
    ensures
        step matches PidFileStep::CheckProcess { pid, proc_path } && is_trim_of(text@, pid@)
            && proc_path@.len() == pid@.len() + 6
            && proc_path@.subrange(6, proc_path@.len() as int) == pid@,
{
    reveal_strlit("/proc/");
    if let PidFileStep::CheckProcess { pid, proc_path } = step {
        assert(proc_path@.subrange(6, proc_path@.len() as int) =~= pid@);
    }
}

/// Decides what follows the reading of the process-id file: a recorded id,
/// stripped of surrounding white space, is looked for; a missing file is
/// claimed; any other failure stops the daemon.
pub fn pid_file_step(read: PidFileRead) -> (step: PidFileStep)
    ensures
        match read {
            PidFileRead::Contents(text) => step matches PidFileStep::CheckProcess { pid, proc_path }
                && is_trim_of(text@, pid@) && proc_path@ == spec_proc_path(pid@)
                && proc_path@ == "/proc/"@ + pid@,
            PidFileRead::NotFound => step is Claim,
            PidFileRead::Failed(cause) => step matches PidFileStep::Fail { context, cause: c }
                && context@ == pid_file_context() && c == cause
                && context@ == "Trying to know if another waydim is running by looking at PID file `/tmp/waydim.pid`"@,
        },
{
    match read {
        PidFileRead::Contents(text) => {
            let pid = trim(text.as_str());
            let path = proc_path(pid);
            PidFileStep::CheckProcess { pid: pid.to_owned(), proc_path: path }
        },
        PidFileRead::NotFound => PidFileStep::Claim,
        PidFileRead::Failed(cause) => PidFileStep::Fail {
            context: "Trying to know if another waydim is running by looking at PID file `/tmp/waydim.pid`".to_owned(),
            cause,
        },
    }
}

/// Decides what follows the look for the recorded process `pid`: a live
/// process means another instance runs, a gone one lets this instance claim
/// the file, and a failed look stops the daemon.
pub fn process_step(pid: &str, check: ProcessCheck) -> (step: ProcessStep)
    ensures
        match check {
            ProcessCheck::Running => step matches ProcessStep::AlreadyRunning { message }
                && message@ == "Another waydim with PID "@ + pid@ + " is already running"@,
            ProcessCheck::NotRunning => step is Claim,
            ProcessCheck::Failed(cause) => step == ProcessStep::Fail { cause },
        },
{
    match check {
        ProcessCheck::Running => ProcessStep::AlreadyRunning {
            message: concat3("Another waydim with PID ", pid, " is already running"),
        },
        ProcessCheck::NotRunning => ProcessStep::Claim,
        ProcessCheck::Failed(cause) => ProcessStep::Fail { cause },
    }
}

/// Decides whether the daemon may go on after clearing its socket file: a
/// removed or absent file is fine; any other failure is returned as the
/// context to report and its cause.
pub fn socket_cleanup_step(removal: SocketRemoval) -> (r: Result<(), (String, String)>)
    ensures
        match removal {
            SocketRemoval::Failed(cause) => r matches Err((context, c))
                && context@ == "Cannot remove file /tmp/waydim.sock"@ && c == cause,
            _ => r is Ok,
        },
{
    match removal {
        SocketRemoval::Removed => Ok(()),
        SocketRemoval::NotFound => Ok(()),
        SocketRemoval::Failed(cause) => Err(("Cannot remove file /tmp/waydim.sock".to_owned(), cause)),
    }
}

} // verus!
