//! The update API of a node: which requests are made, when they may be, and when they are made again.

use vstd::prelude::*;
use vstd::string::*;

use super::draining::delays_are_powers_up_to_a_limit;
use crate::agent::apiclient::{
    activate_update, check_update_state, expected_state, find_status_code, get_chosen_update,
    get_raw_args, invocation_step, invoke_apiclient, is_blank, is_transient, may_start,
    prepare_update, request_args, request_texts, retry_strategy, status_at, status_code_at,
    status_code_is_unique, CommandResult, Invocation, InvocationStep, UpdateAction,
    UpdateApiRequest, UpdateImage, UpdateState, UpdateStatus,
};
use crate::agent::apiclient_error::Error;
use crate::retry::backoff;
use crate::text::texts;

verus! {

/// An update is prepared where the most recent command was to prepare one, and succeeded; it is
/// activated where that command was to activate it, and succeeded.
pub proof fn commands_succeed(
    command: CommandResult,
    prepared: Result<(), Error>,
    activated: Result<(), Error>,
)
    requires
        call_ensures(prepare_update, (command,), prepared),
        call_ensures(activate_update, (command,), activated),
    ensures
        prepared is Ok <==> command.cmd_type is Prepare && command.cmd_status is Success,
        prepared is Err ==> prepared->Err_0 is PrepareUpdate,
        activated is Ok <==> command.cmd_type is Activate && command.cmd_status is Success,
        activated is Err ==> activated->Err_0 is Update,
{
}

/// The chosen update is the one of the status, where the most recent command was to refresh the
/// updates, and succeeded.
pub proof fn refreshed_status_tells_the_update(
    status: UpdateStatus,
    r: Result<Option<UpdateImage>, Error>,
)
    requires
        call_ensures(get_chosen_update, (status,), r),
    ensures
        r is Ok <==> status.most_recent_command.cmd_type is Refresh
            && status.most_recent_command.cmd_status is Success,
        r is Ok ==> r->Ok_0 == status.chosen_update,
        r is Err ==> r->Err_0 is RefreshUpdate,
{
}

/// An update is prepared where one is available or staged, is activated where it is staged, and is
/// rebooted into where it is ready. Anything else is told with the state that was expected and the
/// one that was found.
pub proof fn update_actions_need_their_state(
    action: UpdateAction,
    state: UpdateState,
    r: Result<(), Error>,
)
    requires
        call_ensures(check_update_state, (action, state), r),
    ensures
        r is Ok <==> (action is Prepare && (state is Available || state is Staged)) || (
        action is Activate && state is Staged) || (action is Reboot && state is Ready),
        r is Err ==> r->Err_0 is UpdateStage && r->Err_0->update_state == state
            && r->Err_0->expect_state@ == if action is Prepare {
            "Available or Staged"@
        } else if action is Activate {
            "Staged"@
        } else {
            "Ready"@
        },
        r is Ok <==> may_start(action, state),
        r is Err ==> r->Err_0->expect_state@ == expected_state(action),
{
}

/// A request is made with the raw command and the address of what it is about; it is posted where it
/// changes something.
pub proof fn requests_to_the_update_api(request: UpdateApiRequest)
    ensures
        ({
            let made = request_texts(request);
            let uri = made[2];
            let posted = made.len() == 5 && made[3] == "-m"@ && made[4] == "POST"@;
            &&& made[0] == "raw"@
            &&& made[1] == "-u"@
            &&& if request is GetUpdateStatus || request is GetOsInfo {
                made.len() == 3
            } else {
                posted
            }
            &&& request is RefreshUpdates ==> uri == "/actions/refresh-updates"@
            &&& request is PrepareUpdate ==> uri == "/actions/prepare-update"@
            &&& request is ActivateUpdate ==> uri == "/actions/activate-update"@
            &&& request is GetUpdateStatus ==> uri == "/updates/status"@
            &&& request is Reboot ==> uri == "/actions/reboot"@
            &&& request is GetOsInfo ==> uri == "/os"@
        }),
{
}

/// All requests but the reboot and that for the description of the system are limited in their rate.
pub proof fn requests_are_limited(request: UpdateApiRequest, r: (Vec<String>, bool))
    requires
        call_ensures(request_args, (request,), r),
    ensures
        r.1 <==> request is RefreshUpdates || request is PrepareUpdate || request is ActivateUpdate
            || request is GetUpdateStatus,
        texts(r.0@) == request_texts(request),
{
}

/// A failed run is made again where the API was busy or the client could not be run, five times; any
/// other failure is final, and so is the one after the last retry.
pub proof fn runs_are_made_again(retries: nat, e: Error)
    ensures
        ({
            let (used, step) = invocation_step(retries, Invocation::Failed(e));
            let passes = e is UpdateApiUnavailable || e is ApiClientRawCommand;
            &&& passes && retries < 5 ==> step is Retry && used == retries + 1
            &&& !passes || retries >= 5 ==> step == InvocationStep::Fail(e) && used == retries
            &&& is_transient(e) <==> passes
        }),
{
}

/// A run that succeeds gives the answer, and one that is ended by a signal ends the agent.
pub proof fn runs_end(retries: nat)
    ensures
        invocation_step(retries, Invocation::Success) == (retries, InvocationStep::Finish),
        invocation_step(retries, Invocation::Rebooting) == (retries, InvocationStep::Exit),
{
}

proof fn lemma_minute(retries: nat)
    ensures
        backoff(10_000, 60_000, retries) == if retries == 0 {
            10_000int
        } else {
            60_000
        },
    decreases retries,
{
    if retries == 0 {
        delays_are_powers_up_to_a_limit(10_000, 60_000, 0);
    } else {
        lemma_minute((retries - 1) as nat);
        delays_are_powers_up_to_a_limit(10_000, 60_000, (retries - 1) as nat);
    }
}

/// The waits before further runs: ten seconds, and then a minute each time.
pub proof fn waits_between_runs(retries: nat, e: Error, delays: Vec<u64>, i: int)
    requires
        retries < 5,
        e is UpdateApiUnavailable || e is ApiClientRawCommand,
        call_ensures(retry_strategy, (), delays),
        0 <= i < 5,
    ensures
        invocation_step(retries, Invocation::Failed(e)).1 == InvocationStep::Retry(
            if retries == 0 {
                10_000
            } else {
                60_000
            },
        ),
        delays@.len() == 5,
        delays@[i] == if i == 0 {
            10_000u64
        } else {
            60_000
        },
{
    lemma_minute(retries);
    lemma_minute(i as nat);
}

/// Of the ASCII characters the space and the five that move the position on are blank, and no others.
pub proof fn blanks_in_ascii(c: char)
    requires
        c as u32 <= 127,
    ensures
        is_blank(c) <==> c == ' ' || 9 <= c as u32 <= 13,
{
}

/// Beyond ASCII the other characters that Unicode counts as white space are blank.
pub proof fn blanks_beyond_ascii(c: char)
    requires
        c as u32 > 127,
    ensures
        is_blank(c) <==> c as u32 == 0x85 || c as u32 == 0xa0 || c as u32 == 0x1680 || 0x2000 <= c as u32
            <= 0x200a || c as u32 == 0x2028 || c as u32 == 0x2029 || c as u32 == 0x202f || c as u32
            == 0x205f || c as u32 == 0x3000,
{
}

/// The arguments of a raw request follow the command for it.
pub proof fn raw_requests_begin_with_their_command(args: Vec<String>, r: Vec<String>)
    requires
        call_ensures(get_raw_args, (args,), r),
    ensures
        texts(r@) == seq!["raw"@, "-u"@] + texts(args@),
{
}

/// Whether the word before a status code stands at a place of a text.
pub open spec fn has_status_word(s: Seq<char>, i: int) -> bool {
    &&& 0 <= i && i + 6 <= s.len()
    &&& s[i] == 'S' && s[i + 1] == 't' && s[i + 2] == 'a' && s[i + 3] == 't' && s[i + 4] == 'u' && s[i
        + 5] == 's'
}

proof fn lemma_status_word(s: Seq<char>, i: int)
    ensures
        has_status_word(s, i) == status_at(s, i),
{
    if 0 <= i && i + 6 <= s.len() {
        let w = s.subrange(i, i + 6);
        let status = seq!['S', 't', 'a', 't', 'u', 's'];
        if has_status_word(s, i) {
            assert(w =~= status);
        }
        if w == status {
            assert(w[0] == s[i] && w[1] == s[i + 1] && w[2] == s[i + 2] && w[3] == s[i + 3] && w[4]
                == s[i + 4] && w[5] == s[i + 5]);
        }
    }
}

proof fn lemma_layout(
    s: Seq<char>,
    head: Seq<char>,
    gap: Seq<char>,
    code: Seq<char>,
    tail: Seq<char>,
)
    requires
        s == head + seq!['S', 't', 'a', 't', 'u', 's'] + gap + code + tail,
    ensures
        ({
            let status = head.len() as int;
            let from = status + 6 + gap.len();
            let to = from + code.len();
            &&& to + tail.len() == s.len()
            &&& has_status_word(s, status)
            &&& s.subrange(status + 6, from) == gap
            &&& s.subrange(from, to) == code
            &&& tail.len() > 0 ==> s[to] == tail[0]
        }),
{
    let status = head.len() as int;
    let from = status + 6 + gap.len();
    let to = from + code.len();
    assert(s.subrange(status + 6, from) =~= gap);
    assert(s.subrange(from, to) =~= code);
}

proof fn lemma_blanks(s: Seq<char>, from: int, to: int)
    requires
        0 <= from <= to <= s.len(),
    ensures
        (forall|i: int|
            0 <= i < to - from ==> #[trigger] s.subrange(from, to)[i] == ' ' || '\t' <= s.subrange(
                from,
                to,
            )[i] <= '\r') ==> forall|i: int| from <= i < to ==> is_blank(#[trigger] s[i]),
        (forall|i: int| 0 <= i < to - from ==> '!' <= #[trigger] s.subrange(from, to)[i] <= '~')
            ==> forall|i: int| from <= i < to ==> !is_blank(#[trigger] s[i]),
{
    let part = s.subrange(from, to);
    assert forall|i: int| from <= i < to implies #[trigger] s[i] == part[i - from] by {}
}

proof fn lemma_code_at(s: Seq<char>, status: int, from: int, to: int)
    requires
        0 <= status,
        status + 6 <= from < to <= s.len(),
        has_status_word(s, status),
        forall|i: int| 0 <= i < status ==> !(#[trigger] has_status_word(s, i)),
        forall|i: int| status + 6 <= i < to ==> !(#[trigger] has_status_word(s, i)),
        forall|i: int| status + 6 <= i < from ==> is_blank(#[trigger] s[i]),
        forall|i: int| from <= i < to ==> !is_blank(#[trigger] s[i]),
        to == s.len() || is_blank(s[to]),
    ensures
        status_code_at(s, status, from, to),
{
    lemma_status_word(s, status);
    assert forall|i: int| 0 <= i < status implies !status_at(s, i) by {
        lemma_status_word(s, i);
    }
    assert forall|i: int| status + 6 <= i < to implies !status_at(s, i) by {
        lemma_status_word(s, i);
    }
}

/// The status code in an error is what follows the first word for it, behind any blanks and up to the
/// next one.
pub proof fn status_code_follows_its_word(
    error: &str,
    head: Seq<char>,
    gap: Seq<char>,
    code: Seq<char>,
    tail: Seq<char>,
    r: Option<&str>,
)
    requires
        call_ensures(find_status_code, (error,), r),
        error@ == head + seq!['S', 't', 'a', 't', 'u', 's'] + gap + code + tail,
        forall|i: int| 0 <= i < head.len() ==> !(#[trigger] has_status_word(error@, i)),
        forall|i: int| 0 <= i < gap.len() ==> #[trigger] gap[i] == ' ' || '\t' <= gap[i] <= '\r',
        code.len() > 0,
        forall|i: int| 0 <= i < code.len() ==> '!' <= #[trigger] code[i] <= '~',
        forall|i: int|
            head.len() + 6 <= i < head.len() + 6 + gap.len() + code.len() ==> !(#[trigger] has_status_word(
                error@,
                i,
            )),
        tail.len() == 0 || tail[0] == ' ' || '\t' <= tail[0] <= '\r',
    ensures
        r is Some,
        r->0@ == code,
{
    let s = error@;
    let status = head.len() as int;
    let from = status + 6 + gap.len();
    let to = from + code.len();
    lemma_layout(s, head, gap, code, tail);
    lemma_blanks(s, status + 6, from);
    lemma_blanks(s, from, to);
    lemma_code_at(s, status, from, to);
    if r is Some {
        let (a, b, c) = choose|a: int, b: int, c: int| #[trigger]
            status_code_at(s, a, b, c) && r->0@ == s.subrange(b, c);
        status_code_is_unique(s, a, b, c, status, from, to);
    }
}

/// An error without the word for a status code has none.
pub proof fn errors_without_the_word_have_no_code(error: &str, r: Option<&str>)
    requires
        call_ensures(find_status_code, (error,), r),
        forall|i: int| 0 <= i < error@.len() ==> !(#[trigger] has_status_word(error@, i)),
    ensures
        r is None,
{
    if r is Some {
        let (a, b, c) = choose|a: int, b: int, c: int| #[trigger]
            status_code_at(error@, a, b, c) && r->0@ == error@.subrange(b, c);
        lemma_status_word(error@, a);
    }
}

/// A run that was ended by a signal means a reboot. One that failed means that the API is busy where
/// the status code is 423, and else an error with that code. The error tells the arguments.
pub proof fn failed_runs_are_told_apart(
    args: &Vec<String>,
    success: bool,
    code: Option<i32>,
    error: &str,
    status: int,
    from: int,
    to: int,
    r: Invocation,
)
    requires
        status_code_at(error@, status, from, to),
        call_ensures(invoke_apiclient, (args, success, code, error), r),
    ensures
        success <==> r is Success,
        !success && code is None <==> r is Rebooting,
        !success && code is Some ==> if error@.subrange(from, to) == "423"@ {
            r->0 is UpdateApiUnavailable && texts(r->0->UpdateApiUnavailable_args@) == texts(args@)
        } else {
            &&& r->0 is BadHttpResponse
            &&& texts(r->0->BadHttpResponse_args@) == texts(args@)
            &&& r->0->error_content@ == error@
            &&& r->0->statuscode@ == error@.subrange(from, to)
        },
{
    if !success && code is Some {
        let (a, b, c) = choose|a: int, b: int, c: int|
            {
                &&& #[trigger] status_code_at(error@, a, b, c)
                &&& if error@.subrange(b, c) == "423"@ {
                    &&& r->0 is UpdateApiUnavailable
                    &&& texts(r->0->UpdateApiUnavailable_args@) == texts(args@)
                } else {
                    &&& r->0 is BadHttpResponse
                    &&& texts(r->0->BadHttpResponse_args@) == texts(args@)
                    &&& r->0->error_content@ == error@
                    &&& r->0->statuscode@ == error@.subrange(b, c)
                }
            };
        status_code_is_unique(error@, a, b, c, status, from, to);
    }
}

} // verus!
