//! apiclient is a client for interacting with the Bottlerocket Update API.
//! Brupop volume mounts apiclient binary into the agent container.
//!
//! Bottlerocket Update API: https://github.com/bottlerocket-os/bottlerocket/tree/develop/sources/updater
//! Bottlerocket apiclient: https://github.com/bottlerocket-os/bottlerocket/tree/develop/sources/api/apiclient

use vstd::prelude::*;
use vstd::string::*;

use super::apiclient_error::Error;
use crate::retry::{backoff, exponential_delays};
use crate::text::{copy_texts, str_eq, texts};
use crate::version::Version;

verus! {

pub const API_CLIENT_BIN: &'static str = "apiclient";

pub const UPDATE_API_BUSY_STATUSCODE: &'static str = "423";

pub const ACTIVATE_UPDATES_URI: &'static str = "/actions/activate-update";

pub const OS_URI: &'static str = "/os";

pub const PREPARE_UPDATES_URI: &'static str = "/actions/prepare-update";

pub const REBOOT_URI: &'static str = "/actions/reboot";

pub const REFRESH_UPDATES_URI: &'static str = "/actions/refresh-updates";

pub const UPDATES_STATUS_URI: &'static str = "/updates/status";

/// Wait time, in milliseconds, between invoking the Bottlerocket API
pub const RETRY_BASE_DELAY: u64 = 10_000;

pub const RETRY_MAX_DELAY: u64 = 60_000;

/// Number of retries while invoking the Bottlerocket API
pub const NUM_RETRIES: usize = 5;

/// What is known of an update.
#[derive(Debug)]
pub struct UpdateStatus {
    pub update_state: UpdateState,
    pub chosen_update: Option<UpdateImage>,
    pub most_recent_command: CommandResult,
}

/// UpdateState represents four states during system update process
#[derive(Debug, Clone, Copy, PartialEq, Eq, Structural, Hash)]
pub enum UpdateState {
    // Idle: Unknown
    Idle,
    // Available: available versions system can update to
    Available,
    // Staged: processing system update (refresh, prepare, activate)
    Staged,
    // Ready: successfully complete update commands, ready to reboot
    Ready,
}

/// An image that the system can be updated to.
#[derive(Debug)]
pub struct UpdateImage {
    pub arch: String,
    pub version: Version,
    pub variant: String,
}

/// UpdateCommand represents three commands to update system
#[derive(Debug, Clone, Copy, PartialEq, Eq, Structural, Hash)]
pub enum UpdateCommand {
    // Refresh: refresh the list of available updates
    Refresh,
    // Prepare: request that the update be downloaded and applied to disk
    Prepare,
    // Activate: proceed to "activate" the update
    Activate,
}

/// CommandStatus represents three status after running update command
#[derive(Debug, Clone, Copy, PartialEq, Eq, Structural, Hash)]
pub enum CommandStatus {
    Success,
    Failed,
    Unknown,
}

/// The outcome of the last command.
#[derive(Debug, Clone, Copy, PartialEq, Eq, Structural)]
pub struct CommandResult {
    pub cmd_type: UpdateCommand,
    pub cmd_status: CommandStatus,
}

/// The operating system of the node.
#[derive(Debug)]
pub struct OsInfo {
    pub version_id: Version,
}

/// The update that a refresh has chosen. It counts only where the last command was a refresh
/// that succeeded.
pub fn get_chosen_update(update_status: UpdateStatus) -> (r: Result<Option<UpdateImage>, Error>)
    ensures
        match r {
            Ok(chosen) => {
                &&& update_status.most_recent_command.cmd_type == UpdateCommand::Refresh
                &&& update_status.most_recent_command.cmd_status == CommandStatus::Success
                &&& chosen == update_status.chosen_update
            },
            Err(e) => {
                &&& update_status.most_recent_command.cmd_type != UpdateCommand::Refresh
                    || update_status.most_recent_command.cmd_status != CommandStatus::Success
                &&& e is RefreshUpdate
            },
        },
{
    if update_status.most_recent_command.cmd_type == UpdateCommand::Refresh
        && update_status.most_recent_command.cmd_status == CommandStatus::Success {
        Ok(update_status.chosen_update)
    } else {
        Err(Error::RefreshUpdate)
    }
}

/// An action on an update.
#[derive(Debug, Clone, Copy, PartialEq, Eq, Structural)]
pub enum UpdateAction {
    Prepare,
    Activate,
    Reboot,
}

/// Whether an action may be started in a state: an available or staged update is prepared, a
/// staged one activated, and the host is rebooted into one that is ready.
pub open spec fn may_start(action: UpdateAction, state: UpdateState) -> bool {
    match action {
        UpdateAction::Prepare => state == UpdateState::Available || state == UpdateState::Staged,
        UpdateAction::Activate => state == UpdateState::Staged,
        UpdateAction::Reboot => state == UpdateState::Ready,
    }
}

/// The states in which an action may be started, in words.
pub open spec fn expected_state(action: UpdateAction) -> Seq<char> {
    match action {
        UpdateAction::Prepare => "Available or Staged"@,
        UpdateAction::Activate => "Staged"@,
        UpdateAction::Reboot => "Ready"@,
    }
}

/// Whether an action may be started; the error tells what was expected.
pub fn check_update_state(action: UpdateAction, update_state: UpdateState) -> (r: Result<
    (),
    Error,
>)
    ensures
        match r {
            Ok(_) => may_start(action, update_state),
            Err(e) => {
                &&& !may_start(action, update_state)
                &&& e is UpdateStage
                &&& e->expect_state@ == expected_state(action)
                &&& e->update_state == update_state
            },
        },
{
    match action {
        UpdateAction::Prepare => {
            if update_state == UpdateState::Available || update_state == UpdateState::Staged {
                Ok(())
            } else {
                Err(
                    Error::UpdateStage {
                        expect_state: String::from_str("Available or Staged"),
                        update_state,
                    },
                )
            }
        },
        UpdateAction::Activate => {
            if update_state == UpdateState::Staged {
                Ok(())
            } else {
                Err(
                    Error::UpdateStage {
                        expect_state: String::from_str("Staged"),
                        update_state,
                    },
                )
            }
        },
        UpdateAction::Reboot => {
            if update_state == UpdateState::Ready {
                Ok(())
            } else {
                Err(Error::UpdateStage { expect_state: String::from_str("Ready"), update_state })
            }
        },
    }
}

/// Raise error if failed to prepare update or update action performed out of band
pub fn prepare_update(recent_command: CommandResult) -> (r: Result<(), Error>)
    ensures
        r is Ok <==> recent_command.cmd_type == UpdateCommand::Prepare && recent_command.cmd_status
            == CommandStatus::Success,
        r is Err ==> r->Err_0 is PrepareUpdate,
{
    if recent_command.cmd_type == UpdateCommand::Prepare && recent_command.cmd_status
        == CommandStatus::Success {
        Ok(())
    } else {
        Err(Error::PrepareUpdate)
    }
}

/// Raise error if failed to activate update or update action performed out of band
pub fn activate_update(recent_command: CommandResult) -> (r: Result<(), Error>)
    ensures
        r is Ok <==> recent_command.cmd_type == UpdateCommand::Activate && recent_command.cmd_status
            == CommandStatus::Success,
        r is Err ==> r->Err_0 is Update,
{
    if recent_command.cmd_type == UpdateCommand::Activate && recent_command.cmd_status
        == CommandStatus::Success {
        Ok(())
    } else {
        Err(Error::Update)
    }
}

/// The arguments of a raw command.
pub fn get_raw_args(args: Vec<String>) -> (r: Vec<String>)
    ensures
        texts(r@) == seq!["raw"@, "-u"@] + texts(args@),
{
    let mut args = args;
    let ghost rest = args@;
    let mut subcommand_args: Vec<String> = Vec::new();
    subcommand_args.push(String::from_str("raw"));
    subcommand_args.push(String::from_str("-u"));
    let ghost head = subcommand_args@;
    assert(texts(head) =~= seq!["raw"@, "-u"@]);
    subcommand_args.append(&mut args);
    assert(texts(head + rest) =~= texts(head) + texts(rest));
    subcommand_args
}

/// The arguments of a request that changes something.
fn post_args(uri: &str) -> (r: Vec<String>)
    ensures
        texts(r@) == seq!["raw"@, "-u"@, uri@, "-m"@, "POST"@],
{
    let mut raw_args: Vec<String> = Vec::new();
    raw_args.push(String::from_str(uri));
    raw_args.push(String::from_str("-m"));
    raw_args.push(String::from_str("POST"));
    assert(texts(raw_args@) =~= seq![uri@, "-m"@, "POST"@]);
    let r = get_raw_args(raw_args);
    assert(texts(r@) =~= seq!["raw"@, "-u"@, uri@, "-m"@, "POST"@]);
    r
}

/// The arguments of a request that reads something.
fn get_args(uri: &str) -> (r: Vec<String>)
    ensures
        texts(r@) == seq!["raw"@, "-u"@, uri@],
{
    let mut raw_args: Vec<String> = Vec::new();
    raw_args.push(String::from_str(uri));
    assert(texts(raw_args@) =~= seq![uri@]);
    let r = get_raw_args(raw_args);
    assert(texts(r@) =~= seq!["raw"@, "-u"@, uri@]);
    r
}

/// A request to the Bottlerocket update API.
#[derive(Debug, Clone, Copy, PartialEq, Eq, Structural)]
pub enum UpdateApiRequest {
    RefreshUpdates,
    PrepareUpdate,
    ActivateUpdate,
    GetUpdateStatus,
    Reboot,
    GetOsInfo,
}

/// The arguments with which the apiclient makes a request.
pub open spec fn request_texts(request: UpdateApiRequest) -> Seq<Seq<char>> {
    match request {
        UpdateApiRequest::RefreshUpdates => seq![
            "raw"@,
            "-u"@,
            REFRESH_UPDATES_URI@,
            "-m"@,
            "POST"@,
        ],
        UpdateApiRequest::PrepareUpdate => seq![
            "raw"@,
            "-u"@,
            PREPARE_UPDATES_URI@,
            "-m"@,
            "POST"@,
        ],
        UpdateApiRequest::ActivateUpdate => seq![
            "raw"@,
            "-u"@,
            ACTIVATE_UPDATES_URI@,
            "-m"@,
            "POST"@,
        ],
        UpdateApiRequest::GetUpdateStatus => seq!["raw"@, "-u"@, UPDATES_STATUS_URI@],
        UpdateApiRequest::Reboot => seq!["raw"@, "-u"@, REBOOT_URI@, "-m"@, "POST"@],
        UpdateApiRequest::GetOsInfo => seq!["raw"@, "-u"@, OS_URI@],
    }
}

/// The arguments with which the apiclient makes a request, and whether the rate of such requests
/// is limited: a reboot and a look at the operating system are not.
pub fn request_args(request: UpdateApiRequest) -> (r: (Vec<String>, bool))
    ensures
        texts(r.0@) == request_texts(request),
        r.1 == !(request == UpdateApiRequest::Reboot || request == UpdateApiRequest::GetOsInfo),
{
    match request {
        UpdateApiRequest::RefreshUpdates => (post_args(REFRESH_UPDATES_URI), true),
        UpdateApiRequest::PrepareUpdate => (post_args(PREPARE_UPDATES_URI), true),
        UpdateApiRequest::ActivateUpdate => (post_args(ACTIVATE_UPDATES_URI), true),
        UpdateApiRequest::GetUpdateStatus => (get_args(UPDATES_STATUS_URI), true),
        UpdateApiRequest::Reboot => (post_args(REBOOT_URI), false),
        UpdateApiRequest::GetOsInfo => (get_args(OS_URI), false),
    }
}

/// Whether a character is white space in the sense of Unicode.
pub open spec fn is_blank(c: char) -> bool {
    ||| '\u{9}' <= c <= '\u{d}'
    ||| c == ' '
    ||| c == '\u{85}'
    ||| c == '\u{a0}'
    ||| c == '\u{1680}'
    ||| '\u{2000}' <= c <= '\u{200a}'
    ||| c == '\u{2028}'
    ||| c == '\u{2029}'
    ||| c == '\u{202f}'
    ||| c == '\u{205f}'
    ||| c == '\u{3000}'
}

fn blank(c: char) -> (r: bool)
    ensures
        r == is_blank(c),
{
    ('\u{9}' <= c && c <= '\u{d}') || c == ' ' || c == '\u{85}' || c == '\u{a0}' || c == '\u{1680}'
        || ('\u{2000}' <= c && c <= '\u{200a}') || c == '\u{2028}' || c == '\u{2029}' || c
        == '\u{202f}' || c == '\u{205f}' || c == '\u{3000}'
}

/// Whether the word `Status` stands at a place of a text.
pub open spec fn status_at(s: Seq<char>, i: int) -> bool {
    0 <= i && i + 6 <= s.len() && s.subrange(i, i + 6) == seq!['S', 't', 'a', 't', 'u', 's']
}

/// Whether a status code stands from `from` to `to` in an error: it is the first word after the
/// first `Status`, and ends at white space, at another `Status` or at the end of the text.
pub open spec fn status_code_at(s: Seq<char>, status: int, from: int, to: int) -> bool {
    &&& status_at(s, status)
    &&& forall|i: int| 0 <= i < status ==> !status_at(s, i)
    &&& status + 6 <= from < to <= s.len()
    &&& forall|i: int| status + 6 <= i < from ==> is_blank(#[trigger] s[i])
    &&& forall|i: int| from <= i < to ==> !is_blank(#[trigger] s[i])
    &&& forall|i: int| status + 6 <= i < to ==> !status_at(s, i)
    &&& to == s.len() || is_blank(s[to]) || status_at(s, to)
}

/// Whether an error holds a status code.
pub open spec fn has_status_code(s: Seq<char>) -> bool {
    exists|status: int, from: int, to: int| status_code_at(s, status, from, to)
}

fn is_status_at(s: &str, n: usize, i: usize) -> (r: bool)
    requires
        n == s@.len(),
        i <= n,
    ensures
        r == status_at(s@, i as int),
{
    if n - i < 6 {
        return false;
    }
    let a: bool = s.get_char(i) == 'S';
    let b: bool = s.get_char(i + 1) == 't';
    let c: bool = s.get_char(i + 2) == 'a';
    let d: bool = s.get_char(i + 3) == 't';
    let e: bool = s.get_char(i + 4) == 'u';
    let f: bool = s.get_char(i + 5) == 's';
    proof {
        let w = s@.subrange(i as int, i + 6);
        assert(w[0] == s@[i as int] && w[1] == s@[i + 1] && w[2] == s@[i + 2] && w[3] == s@[i + 3]
            && w[4] == s@[i + 4] && w[5] == s@[i + 5]);
        if a && b && c && d && e && f {
            assert(w =~= seq!['S', 't', 'a', 't', 'u', 's']);
        }
    }
    a && b && c && d && e && f
}

/// The status code in an error, if there is one.
pub fn find_status_code(error: &str) -> (r: Option<&str>)
    ensures
        match r {
            Some(code) => exists|status: int, from: int, to: int| #[trigger]
                status_code_at(error@, status, from, to) && code@ == error@.subrange(from, to),
            None => !has_status_code(error@),
        },
{
    let n: usize = error.unicode_len();
    let mut status: usize = 0;
    while status < n && !is_status_at(error, n, status)
        invariant
            n == error@.len(),
            status <= n,
            forall|i: int| 0 <= i < status ==> !status_at(error@, i),
        decreases n - status,
    {
        status = status + 1;
    }
    if status == n {
        return None;
    }
    let start: usize = status + 6;
    let mut from: usize = start;
    while from < n && blank(error.get_char(from)) && !is_status_at(error, n, from)
        invariant
            n == error@.len(),
            start <= from <= n,
            forall|i: int| start <= i < from ==> is_blank(#[trigger] error@[i]),
            forall|i: int| start <= i < from ==> !status_at(error@, i),
        decreases n - from,
    {
        from = from + 1;
    }
    let ghost st = status as int;
    let ghost fr = from as int;
    if from == n || is_status_at(error, n, from) {
        proof {
            assert forall|a: int, b: int, c: int| !status_code_at(error@, a, b, c) by {
                if status_code_at(error@, a, b, c) {
                    assert(a == st) by {
                        if a < st {
                            assert(!status_at(error@, a));
                        }
                        if st < a {
                            assert(!status_at(error@, st));
                        }
                    }
                    if b < fr {
                        assert(is_blank(error@[b]));
                    } else {
                        assert(!status_at(error@, fr));
                    }
                }
            }
        }
        return None;
    }
    let mut to: usize = from;
    while to < n && !blank(error.get_char(to)) && !is_status_at(error, n, to)
        invariant
            n == error@.len(),
            start <= from <= to <= n,
            forall|i: int| from <= i < to ==> !is_blank(#[trigger] error@[i]),
            forall|i: int| start <= i < to ==> !status_at(error@, i),
        decreases n - to,
    {
        to = to + 1;
    }
    proof {
        assert(status_code_at(error@, status as int, from as int, to as int));
    }
    Some(error.substring_char(from, to))
}

/// Extract error statuscode from stderr string
/// Error Example:
/// "Failed POST request to '/actions/refresh-updates': Status 423 when POSTing /actions/refresh-updates: Update lock held\n"
pub fn extract_status_code_from_error(error: &str) -> (r: &str)
    requires
        has_status_code(error@),
    ensures
        exists|status: int, from: int, to: int| #[trigger]
            status_code_at(error@, status, from, to) && r@ == error@.subrange(from, to),
{
    find_status_code(error).unwrap()
}

/// There is at most one status code in an error.
pub proof fn status_code_is_unique(
    s: Seq<char>,
    status1: int,
    from1: int,
    to1: int,
    status2: int,
    from2: int,
    to2: int,
)
    requires
        status_code_at(s, status1, from1, to1),
        status_code_at(s, status2, from2, to2),
    ensures
        status1 == status2,
        from1 == from2,
        to1 == to2,
{
    if status1 < status2 {
        assert(!status_at(s, status1));
    }
    if status2 < status1 {
        assert(!status_at(s, status2));
    }
    if from1 < from2 {
        assert(is_blank(s[from1]));
    }
    if from2 < from1 {
        assert(is_blank(s[from2]));
    }
    if to1 < to2 {
        assert(!is_blank(s[to1]) && !status_at(s, to1));
    }
    if to2 < to1 {
        assert(!is_blank(s[to2]) && !status_at(s, to2));
    }
}

/// The delays, in milliseconds, between attempts to use the Bottlerocket API, before they are
/// spread at random.
pub fn retry_strategy() -> (r: Vec<u64>)
    ensures
        r@.len() == NUM_RETRIES,
        forall|i: int| 0 <= i < NUM_RETRIES ==> (#[trigger] r@[i]) == backoff(
            RETRY_BASE_DELAY as nat,
            RETRY_MAX_DELAY as nat,
            i as nat,
        ),
{
    exponential_delays(RETRY_BASE_DELAY, RETRY_MAX_DELAY, NUM_RETRIES)
}

/// What a run of the apiclient comes to.
#[derive(Debug)]
pub enum Invocation {
    /// The command succeeded.
    Success,
    /// The process was ended by a signal: the node reboots, and the agent exits.
    Rebooting,
    /// The command failed.
    Failed(Error),
}

/// What a run of the apiclient comes to, from its exit status and its error output.
///
/// Return value `exit status` is Option. When the value has `some` value, we need extract error info from stderr and handle those errors.
/// Otherwise, on Unix, this will return `None` if the process was terminated by a signal. Signal termination is not considered a success.
/// Apiclient `Reboot` command will send signal to terminate the process, so we have to consider this situation and have extra logic to recognize
/// return value `None` as success and terminate the process properly.
pub fn invoke_apiclient(
    args: &Vec<String>,
    success: bool,
    code: Option<i32>,
    error_content: &str,
) -> (r: Invocation)
    requires
        !success && code is Some ==> has_status_code(error_content@),
    ensures
        success ==> r is Success,
        !success && code is None ==> r is Rebooting,
        !success && code is Some ==> ({
            &&& r is Failed
            &&& exists|status: int, from: int, to: int|
                {
                    &&& #[trigger] status_code_at(error_content@, status, from, to)
                    &&& if error_content@.subrange(from, to) == UPDATE_API_BUSY_STATUSCODE@ {
                        &&& r->0 is UpdateApiUnavailable
                        &&& texts(r->0->UpdateApiUnavailable_args@) == texts(args@)
                    } else {
                        &&& r->0 is BadHttpResponse
                        &&& texts(r->0->BadHttpResponse_args@) == texts(args@)
                        &&& r->0->error_content@ == error_content@
                        &&& r->0->statuscode@ == error_content@.subrange(from, to)
                    }
                }
        }),
{
    if success {
        return Invocation::Success;
    }
    match code {
        // when return value has `some` code, this part will handle those errors properly.
        Some(_) => {
            let error_statuscode = extract_status_code_from_error(error_content);
            if str_eq(error_statuscode, UPDATE_API_BUSY_STATUSCODE) {
                // The lock for the update API is held by another process.
                Invocation::Failed(Error::UpdateApiUnavailable { args: copy_texts(args) })
            } else {
                // API response was a non-transient error, bail out
                Invocation::Failed(
                    Error::BadHttpResponse {
                        args: copy_texts(args),
                        error_content: String::from_str(error_content),
                        statuscode: String::from_str(error_statuscode),
                    },
                )
            }
        },
        // when it returns `None`, the agent exits gracefully.
        None => Invocation::Rebooting,
    }
}

/// What comes after a run of the apiclient.
#[derive(Debug)]
pub enum InvocationStep {
    /// The output of the run is the answer.
    Finish,
    /// The node reboots, and the agent exits.
    Exit,
    /// The apiclient is run again after some milliseconds, which are spread at random.
    Retry(u64),
    /// The call fails.
    Fail(Error),
}

/// Whether an error may pass: the update API is busy, or the apiclient could not be run.
pub open spec fn is_transient(e: Error) -> bool {
    e is UpdateApiUnavailable || e is ApiClientRawCommand
}

/// Whether an error may pass.
fn may_pass(e: &Error) -> (r: bool)
    ensures
        r == is_transient(*e),
{
    match e {
        Error::UpdateApiUnavailable { .. } => true,
        Error::ApiClientRawCommand { .. } => true,
        _ => false,
    }
}

/// What comes after a run of the apiclient that was made after some retries, and the number of
/// retries then. A run is repeated where the error may pass, and that at most `NUM_RETRIES` times;
/// any other error ends the call.
pub open spec fn invocation_step(retries: nat, r: Invocation) -> (nat, InvocationStep) {
    match r {
        Invocation::Success => (retries, InvocationStep::Finish),
        Invocation::Rebooting => (retries, InvocationStep::Exit),
        Invocation::Failed(e) => if is_transient(e) && retries < NUM_RETRIES {
            (
                retries + 1,
                InvocationStep::Retry(
                    backoff(RETRY_BASE_DELAY as nat, RETRY_MAX_DELAY as nat, retries) as u64,
                ),
            )
        } else {
            (retries, InvocationStep::Fail(e))
        },
    }
}

/// Decides what comes after a run of the apiclient.
pub fn after_invocation(retries: usize, r: Invocation) -> (s: (usize, InvocationStep))
    ensures
        (s.0 as nat, s.1) == invocation_step(retries as nat, r),
{
    match r {
        Invocation::Success => (retries, InvocationStep::Finish),
        Invocation::Rebooting => (retries, InvocationStep::Exit),
        Invocation::Failed(e) => {
            if may_pass(&e) && retries < NUM_RETRIES {
                let delays = retry_strategy();
                (retries + 1, InvocationStep::Retry(delays[retries]))
            } else {
                // A non-transient error, or one that did not pass: bail out
                (retries, InvocationStep::Fail(e))
            }
        },
    }
}

/// A call of the apiclient ends: the number of retries grows with each, never passes
/// `NUM_RETRIES`, and any error fails the call once that many were made.
pub proof fn invocations_end(retries: nat, r: Invocation)
    requires
        retries <= NUM_RETRIES,
    ensures
        invocation_step(retries, r).1 is Retry ==> retries < invocation_step(retries, r).0
            <= NUM_RETRIES,
        retries == NUM_RETRIES && r is Failed ==> invocation_step(retries, r).1
            == InvocationStep::Fail(r->0),
{
}

/// Only errors that may pass are followed by another run: any other one, such as a bad response
/// of the update API, ends the call at once, whatever the number of retries.
pub proof fn only_transient_errors_are_retried(retries: nat, r: Invocation)
    requires
        r is Failed,
        !is_transient(r->0),
    ensures
        invocation_step(retries, r) == (retries, InvocationStep::Fail(r->0)),
{
}

/// The actions follow one another: what a successful preparation leaves behind, a staged update,
/// can be activated, and a reboot needs an update that is ready, which neither of the other
/// actions accepts.
pub proof fn update_actions_are_ordered(state: UpdateState)
    ensures
        may_start(UpdateAction::Prepare, UpdateState::Staged),
        may_start(UpdateAction::Activate, state) ==> may_start(UpdateAction::Prepare, state),
        may_start(UpdateAction::Reboot, state) ==> !may_start(UpdateAction::Prepare, state)
            && !may_start(UpdateAction::Activate, state),
{
}

} // verus!
