//! What becomes of a sign-in session, from its start to the credential that it brings.

use vstd::prelude::*;

use crate::admin::poll::{
    can_happen, poll_step, ActionView, PhaseView, PollAction, PollEvent, PollView,
};
use crate::admin::sso::{
    begun, cancelled, is_cancelled, kept, plain_url, request_problem, time_to_live, updated,
    Checked, PollContext, SessionView, SsoSessionResponse, SsoStatus, SsoUpdate,
    StartSsoSessionRequest,
};
use crate::clock::{rfc3339_text, Moment, NANOS_PER_SECOND};
use crate::kiro::sso_oidc::{CreateTokenPoll, RegisterClientResponse, StartDeviceAuthResponse};
use crate::text::{law_run_at_the_end_is_cut, maybe_text, trimmed};

verus! {

/// What is recorded of a session that was not cancelled shows: its status is the recorded
/// one, whichever that is and whatever comes with it. A credential or an error shows where
/// one is recorded, and stays where none is. A session that was cancelled shows nothing of
/// it.
pub proof fn law_record_shows(session: SessionView, update: SsoUpdate)
    ensures
        session.status != SsoStatus::Cancelled ==> {
            let after = updated(session, update@);
            &&& after.status == update.status
            &&& update.credential_id is Some ==> after.credential_id == update.credential_id
            &&& update.credential_id is None ==> after.credential_id == session.credential_id
            &&& update.error is Some ==> after.error == Some(update.error->0@)
            &&& update.error is None ==> after.error == session.error
            &&& after.email == session.email
            &&& after.locked == session.locked
        },
        session.status == SsoStatus::Cancelled ==> updated(session, update@) == session,
{
}

/// A session that waits for its user can be cancelled, which changes nothing but its status.
/// A cancelled session, and one that is gone, counts as cancelled, and no other does.
pub proof fn law_cancelling_cancels(
    sessions: Map<Seq<char>, SessionView>,
    id: Seq<char>,
    session: SessionView,
)
    ensures
        session.status == SsoStatus::Pending ==> {
            let after = cancelled(session);
            &&& after.status == SsoStatus::Cancelled
            &&& after.locked == session.locked
            &&& after.credential_id == session.credential_id
            &&& after.email == session.email
            &&& after.error == session.error
        },
        !sessions.dom().contains(id) ==> is_cancelled(sessions, id),
        sessions.dom().contains(id) ==> (is_cancelled(sessions, id) <==> sessions[id].status
            == SsoStatus::Cancelled),
{
}

/// A finished session is kept for an hour after it began, and dropped after that.
pub proof fn law_finished_sessions_are_kept_for_an_hour(
    sessions: Map<Seq<char>, SessionView>,
    at: Moment,
    id: Seq<char>,
)
    requires
        sessions.dom().contains(id),
        sessions[id].status != SsoStatus::Pending,
    ensures
        kept(sessions, at).dom().contains(id) <==> at.instant()
            - sessions[id].locked.created_at.instant() < 3600 * NANOS_PER_SECOND,
{
    let age = at.instant() - sessions[id].locked.created_at.instant();
    if age >= 0 {
        assert(age / 1_000_000_000 < 3600 <==> age < 3600 * 1_000_000_000);
    } else {
        assert((-age) / 1_000_000_000 >= 0);
    }
}

/// A request to start a session is accepted exactly where its start URL is one of HTTP once
/// it has been trimmed, it names a region to sign in at, and one of the two regions that the
/// interface is offered in.
pub proof fn law_request_is_checked(request: StartSsoSessionRequest)
    ensures
        request_problem(request) is None <==> {
            let url = plain_url(request.start_url@);
            &&& "https://"@.is_prefix_of(url) || "http://"@.is_prefix_of(url)
            &&& trimmed(request.auth_region@).len() > 0
            &&& trimmed(request.api_region@) == "us-east-1"@ || trimmed(request.api_region@)
                == "eu-central-1"@
        },
{
    reveal_strlit("http://");
    reveal_strlit("https://");
    assert("http://"@.len() == 7 && "https://"@.len() == 8);
}

/// A session that begins is shown to the client with the address and the regions that were
/// checked, the codes of the device, and its end; it waits for its user, and nothing has
/// come of it.
pub proof fn law_session_begins_as_asked(
    id: Seq<char>,
    checked: Checked,
    device: StartDeviceAuthResponse,
    at: Moment,
    response: SsoSessionResponse,
)
    requires
        response.tells_of(id, begun(checked, device, at)),
    ensures
        response.session_id@ == id,
        response.status == SsoStatus::Pending,
        response.start_url@ == checked.start_url@,
        response.auth_region@ == checked.auth_region@,
        response.api_region@ == checked.api_region@,
        response.user_code@ == device.user_code@,
        maybe_text(response.verification_uri) == maybe_text(device.verification_uri),
        maybe_text(response.verification_uri_complete) == maybe_text(
            device.verification_uri_complete,
        ),
        response.credential_id is None,
        response.email is None,
        response.error is None,
        ({
            let end = begun(checked, device, at).locked.expires_at;
            response.expires_at@ == rfc3339_text(end.secs, end.nanos)
        }),
{
    assert(maybe_text(response.email) is None);
    assert(maybe_text(response.error) is None);
}

/// A client that looks at a session sees how it stands: what was recorded of it, and what it
/// was started with.
pub proof fn law_client_sees_the_session(
    id: Seq<char>,
    before: SessionView,
    update: SsoUpdate,
    first: SsoSessionResponse,
    second: SsoSessionResponse,
)
    requires
        before.status == SsoStatus::Pending,
        first.tells_of(id, before),
        second.tells_of(id, updated(before, update@)),
    ensures
        second.status == update.status,
        update.credential_id is Some ==> second.credential_id == update.credential_id,
        update.error is Some ==> maybe_text(second.error) == maybe_text(update.error),
        second.session_id@ == first.session_id@,
        second.start_url@ == first.start_url@,
        second.auth_region@ == first.auth_region@,
        second.api_region@ == first.api_region@,
        second.user_code@ == first.user_code@,
        maybe_text(second.verification_uri) == maybe_text(first.verification_uri),
        maybe_text(second.verification_uri_complete) == maybe_text(
            first.verification_uri_complete,
        ),
        second.expires_at@ == first.expires_at@,
{
}

/// A task asks with the registered client for the token of the device, at the region of its
/// session, until the session ends, as often as the device says and at most once a second.
pub proof fn law_task_serves_its_session(
    id: Seq<char>,
    request: StartSsoSessionRequest,
    checked: Checked,
    registered: RegisterClientResponse,
    device: StartDeviceAuthResponse,
    at: Moment,
    context: PollContext,
)
    requires
        context.serves(id, request, checked, registered, device, at),
    ensures
        context.session_id@ == id,
        context.client_id@ == registered.client_id@,
        context.client_secret@ == registered.client_secret@,
        context.device_code@ == device.device_code@,
        context.auth_region@ == checked.auth_region@,
        context.start_url@ == checked.start_url@,
        context.deadline == begun(checked, device, at).locked.expires_at,
        context.interval >= 1,
        device.interval matches Some(seconds) ==> (seconds >= 1 ==> context.interval == seconds),
        device.interval is None ==> context.interval == 5,
{
}

/// The credential that a session brings is the one that was granted to it: with its refresh
/// token, the client that was registered for it, and the regions, the priority and the
/// endpoint that it was started with.
pub proof fn law_credential_is_the_one_asked_for(
    id: Seq<char>,
    request: StartSsoSessionRequest,
    checked: Checked,
    registered: RegisterClientResponse,
    device: StartDeviceAuthResponse,
    at: Moment,
    context: PollContext,
    poll: PollView,
    event: PollEvent,
    action: PollAction,
)
    requires
        context.serves(id, request, checked, registered, device, at),
        can_happen(poll, event),
        action@ == poll_step(context, poll, event).1,
        action is Add,
    ensures
        action->Add_0.auth_method@ == "idc"@,
        poll.phase matches PhaseView::BeforeAdd(Some(token)) && token.len() > 0
            && action->Add_0.refresh_token@ == token,
        action->Add_0.client_id@ == registered.client_id@,
        action->Add_0.client_secret@ == registered.client_secret@,
        action->Add_0.auth_region@ == checked.auth_region@,
        action->Add_0.api_region@ == checked.api_region@,
        action->Add_0.priority == request.priority,
        maybe_text(action->Add_0.endpoint) == maybe_text(request.endpoint),
{
}

/// What a task hears decides on its session: it ends as denied where the user refuses, as
/// expired where the code does, as failed where asking or adding fails or where no refresh
/// token came, each with a reason; and as completed with the credential that was added.
pub proof fn law_outcome_reaches_the_session(
    context: PollContext,
    poll: PollView,
    event: PollEvent,
    session: SessionView,
)
    requires
        session.status == SsoStatus::Pending,
        can_happen(poll, event),
    ensures
        ({
            let (next, action) = poll_step(context, poll, event);
            let shown = match action {
                ActionView::End(Some(update)) => Some(updated(session, update)),
                _ => None,
            };
            match event {
                PollEvent::Asked(Ok(CreateTokenPoll::Denied)) => shown matches Some(after)
                    && after.status == SsoStatus::Denied && after.error is Some
                    && after.credential_id == session.credential_id,
                PollEvent::Asked(Ok(CreateTokenPoll::Expired)) => shown matches Some(after)
                    && after.status == SsoStatus::Expired && after.error is Some
                    && after.credential_id == session.credential_id,
                PollEvent::Asked(Err(error)) => shown matches Some(after) && after.status
                    == SsoStatus::Failed && (after.error matches Some(told) && error@.is_suffix_of(
                    told,
                )),
                PollEvent::Added(Ok(id)) => shown matches Some(after) && after.status
                    == SsoStatus::Completed && after.credential_id == Some(id) && after.error
                    == session.error,
                PollEvent::Added(Err(error)) => shown matches Some(after) && after.status
                    == SsoStatus::Failed && (after.error matches Some(told) && error@.is_suffix_of(
                    told,
                )),
                PollEvent::Looked { cancelled, now } => !cancelled && (
                poll.phase matches PhaseView::BeforeAdd(token) && (token is None || token->0.len()
                    == 0)) ==> (shown matches Some(after) && after.status == SsoStatus::Failed
                    && after.error is Some),
                _ => true,
            }
        }),
{
    match event {
        PollEvent::Asked(Err(error)) => {
            let told = "轮询失败: "@ + error@;
            assert(told.subrange(told.len() - error@.len(), told.len() as int) =~= error@);
        },
        PollEvent::Added(Err(error)) => {
            let told = "添加凭据失败: "@ + error@;
            assert(told.subrange(told.len() - error@.len(), told.len() as int) =~= error@);
        },
        _ => {},
    }
}

/// While the user has not decided, a task asks again: it waits as long as before, or five
/// seconds longer where it is told to slow down. A token that is granted is used next.
pub proof fn law_task_asks_again(context: PollContext, poll: PollView, event: PollEvent)
    requires
        can_happen(poll, event),
    ensures
        ({
            let (next, action) = poll_step(context, poll, event);
            match event {
                PollEvent::Asked(Ok(CreateTokenPoll::Pending)) => next.phase is Start
                    && next.interval == poll.interval && action is Look,
                PollEvent::Asked(Ok(CreateTokenPoll::SlowDown)) => next.phase is Start
                    && next.interval == poll.interval + 5 && action is Look,
                PollEvent::Asked(Ok(CreateTokenPoll::Token(token))) => next.phase
                    == PhaseView::BeforeAdd(maybe_text(token.refresh_token)) && action is Look,
                PollEvent::Slept => poll.phase matches PhaseView::Waiting(slept) && next.phase
                    == PhaseView::Waiting((slept + 1) as i64) && action is Look && next.interval
                    == poll.interval,
                _ => next.interval == poll.interval,
            }
        }),
{
}

/// A task whose session has neither been cancelled nor run out of time waits second by
/// second for as long as it has to, then asks; and uses a token that it has been granted.
pub proof fn law_task_goes_on(context: PollContext, poll: PollView, now: Moment)
    requires
        can_happen(poll, PollEvent::Looked { cancelled: false, now }),
        now.instant() < context.deadline.instant(),
    ensures
        ({
            let (next, action) = poll_step(
                context,
                poll,
                PollEvent::Looked { cancelled: false, now },
            );
            match poll.phase {
                PhaseView::Start => next.phase == PhaseView::Waiting(0) && action is Look,
                PhaseView::Waiting(slept) => if slept < poll.interval {
                    next.phase == poll.phase && action is Sleep
                } else {
                    next.phase is BeforeAsk && action is Look
                },
                PhaseView::BeforeAsk => next.phase is Asking && action is Ask,
                PhaseView::BeforeAdd(Some(token)) => token.len() > 0 ==> next.phase is Adding
                    && action is Add,
                _ => true,
            }
        }),
{
}

/// The start URL of a session is the one that was given, without the white space around it
/// and the slashes at its end.
pub proof fn law_start_url_is_plain(url: Seq<char>)
    ensures
        plain_url(url).is_prefix_of(trimmed(url)),
        forall|i: int|
            plain_url(url).len() <= i < trimmed(url).len() ==> #[trigger] trimmed(url)[i] == '/',
        plain_url(url).len() > 0 ==> plain_url(url).last() != '/',
{
    law_run_at_the_end_is_cut(trimmed(url), '/');
}

/// A session that would last too long lasts fifteen minutes, and one that would not last at
/// all lasts a second.
pub proof fn law_length_of_a_session_is_bounded(expires_in: i64)
    ensures
        expires_in >= 900 ==> time_to_live(Some(expires_in)) == 900,
        expires_in <= 1 ==> time_to_live(Some(expires_in)) == 1,
{
}

} // verus!
