use vstd::prelude::*;

use crate::config::ConfigView;
use crate::handler::{
    body_of, fault_of, line_of, plan, response_after, status_of, FaultKind, Response, StepView,
};

verus! {

/// The text of the log file at `path`; a path that `files` does not hold
/// names a file not yet created, which reads as empty.
pub open spec fn file_text(files: Map<Seq<char>, Seq<char>>, path: Seq<char>) -> Seq<char> {
    if files.contains_key(path) {
        files[path]
    } else {
        Seq::empty()
    }
}

/// The log files once `step` is carried out: a successful append adds its
/// line at the end of its file and changes nothing else; a failed append
/// and a reply change nothing.
pub open spec fn files_after(
    files: Map<Seq<char>, Seq<char>>,
    step: StepView,
    appended: bool,
) -> Map<Seq<char>, Seq<char>> {
    match step {
        StepView::Append { path, line } => if appended {
            files.insert(path, file_text(files, path) + line)
        } else {
            files
        },
        StepView::Reply(_) => files,
    }
}

/// A request for a registered client appends exactly its message and one
/// newline to `basedir/clients/<id>/<log_path>`, touches no other file, and,
/// when the append succeeds, is answered with success and the body "Logged".
pub proof fn registered_client_is_logged(
    config: ConfigView,
    client_id: Seq<char>,
    message: Seq<char>,
    files: Map<Seq<char>, Seq<char>>,
)
    requires
        config.clients.contains_key(client_id),
    ensures
        ({
            let step = plan(Some(config), client_id, message);
            let path = config.log_path(client_id);
            &&& step == StepView::Append { path, line: message + "\n"@ }
            &&& files_after(files, step, true) == files.insert(
                path,
                file_text(files, path) + message + "\n"@,
            )
            &&& response_after(step, true) == Response::Logged
            &&& status_of(response_after(step, true)) == 200
            &&& body_of(response_after(step, true)) == "Logged"@
        }),
{
    let path = config.log_path(client_id);
    let before = file_text(files, path);
    assert(before + (message + "\n"@) =~= before + message + "\n"@);
}

/// A request for a client that is not registered is a client fault, answered
/// with "Invalid client ID", whatever its message, and no file is touched.
pub proof fn unknown_client_is_refused(
    config: ConfigView,
    client_id: Seq<char>,
    message: Seq<char>,
    files: Map<Seq<char>, Seq<char>>,
    appended: bool,
)
    requires
        !config.clients.contains_key(client_id),
    ensures
        ({
            let step = plan(Some(config), client_id, message);
            &&& step == StepView::Reply(Response::UnknownClient)
            &&& fault_of(response_after(step, appended)) == Some(FaultKind::Client)
            &&& status_of(response_after(step, appended)) == 400
            &&& body_of(response_after(step, appended)) == "Invalid client ID"@
            &&& files_after(files, step, appended) == files
        }),
{
}

/// When the configuration cannot be loaded, every request is a server fault
/// answered with "Failed to read config", and no file is touched.
pub proof fn unreadable_config_is_server_fault(
    client_id: Seq<char>,
    message: Seq<char>,
    files: Map<Seq<char>, Seq<char>>,
    appended: bool,
)
    ensures
        ({
            let step = plan(None, client_id, message);
            &&& step == StepView::Reply(Response::ConfigUnreadable)
            &&& fault_of(response_after(step, appended)) == Some(FaultKind::Server)
            &&& status_of(response_after(step, appended)) == 500
            &&& body_of(response_after(step, appended)) == "Failed to read config"@
            &&& files_after(files, step, appended) == files
        }),
{
}

/// When the append fails (as it does where the log file's directory does not
/// exist), a request for a registered client is a server fault answered with
/// "Failed to log message", and no file is changed.
pub proof fn failed_append_is_server_fault(
    config: ConfigView,
    client_id: Seq<char>,
    message: Seq<char>,
    files: Map<Seq<char>, Seq<char>>,
)
    requires
        config.clients.contains_key(client_id),
    ensures
        ({
            let step = plan(Some(config), client_id, message);
            &&& response_after(step, false) == Response::AppendFailed
            &&& fault_of(response_after(step, false)) == Some(FaultKind::Server)
            &&& status_of(response_after(step, false)) == 500
            &&& body_of(response_after(step, false)) == "Failed to log message"@
            &&& files_after(files, step, false) == files
        }),
{
}

/// Requests are not deduplicated: the same request handled twice, with both
/// appends succeeding, leaves its line twice at the end of the log file.
pub proof fn repeated_request_appends_twice(
    config: ConfigView,
    client_id: Seq<char>,
    message: Seq<char>,
    files: Map<Seq<char>, Seq<char>>,
)
    requires
        config.clients.contains_key(client_id),
    ensures
        ({
            let step = plan(Some(config), client_id, message);
            let path = config.log_path(client_id);
            let twice = files_after(files_after(files, step, true), step, true);
            &&& file_text(twice, path) == file_text(files, path) + line_of(message) + line_of(
                message,
            )
            &&& twice == files.insert(path, file_text(twice, path))
        }),
{
    let step = plan(Some(config), client_id, message);
    let path = config.log_path(client_id);
    let once = files_after(files, step, true);
    let twice = files_after(once, step, true);
    assert(file_text(once, path) == file_text(files, path) + line_of(message));
    assert(twice =~= files.insert(path, file_text(twice, path)));
}

} // verus!
