//! What calls on sign-in sessions bring about, one after the other.

use vstd::prelude::*;

use crate::admin::poll::{Phase, Poll, PollAction, PollEvent};
use crate::admin::sso::{
    check_request, global_proxy, plain_url, Checked, PollContext, ProxySettings, SsoError,
    SsoSessionManager, SsoSessionResponse, SsoStatus, SsoUpdate, StartSsoSessionRequest,
};
use crate::clock::{Moment, LAST_SECOND};
use crate::kiro::sso_oidc::{
    device_authorization_url, device_request, oidc_host, register_request, register_url,
    token_outcome, token_request, token_url, CreateTokenPoll, CreateTokenRequest,
    CreateTokenResponse, RegisterClientRequest, RegisterClientResponse, StartDeviceAuthRequest,
    StartDeviceAuthResponse,
};
use crate::text::{maybe_text, texts, trimmed};

verus! {

/// Two looks at a session that see it started with the same.
pub open spec fn same_start(a: SsoSessionResponse, b: SsoSessionResponse) -> bool {
    &&& a.session_id@ == b.session_id@
    &&& a.start_url@ == b.start_url@
    &&& a.auth_region@ == b.auth_region@
    &&& a.api_region@ == b.api_region@
    &&& a.user_code@ == b.user_code@
    &&& maybe_text(a.verification_uri) == maybe_text(b.verification_uri)
    &&& maybe_text(a.verification_uri_complete) == maybe_text(b.verification_uri_complete)
    &&& a.expires_at@ == b.expires_at@
}

/// Two looks at a session between which nothing has happened to it.
pub open spec fn same_state(a: SsoSessionResponse, b: SsoSessionResponse) -> bool {
    &&& same_start(a, b)
    &&& a.status == b.status
    &&& a.credential_id == b.credential_id
    &&& maybe_text(a.email) == maybe_text(b.email)
    &&& maybe_text(a.error) == maybe_text(b.error)
}

/// A session that was begun is found under its id, as it was shown when it began: pending,
/// with the address and the regions that were checked and the codes of the device.
pub proof fn law_begun_session_is_found(
    manager: &mut SsoSessionManager,
    id: &str,
    request: &StartSsoSessionRequest,
    checked: &Checked,
    registered: &RegisterClientResponse,
    device: &StartDeviceAuthResponse,
    at: Moment,
    begun: (SsoSessionResponse, PollContext),
    later: SsoSessionManager,
    found: Result<SsoSessionResponse, SsoError>,
)
    requires
        call_ensures(
            SsoSessionManager::begin_session_with,
            (manager, id, request, checked, registered, device, at),
            begun,
        ),
        later == *final(manager),
        call_ensures(SsoSessionManager::get_session, (&later, id), found),
    ensures
        found matches Ok(shown) && {
            &&& same_state(shown, begun.0)
            &&& shown.session_id@ == id@
            &&& shown.status == SsoStatus::Pending
            &&& shown.start_url@ == checked.start_url@
            &&& shown.auth_region@ == checked.auth_region@
            &&& shown.api_region@ == checked.api_region@
            &&& shown.user_code@ == device.user_code@
            &&& maybe_text(shown.verification_uri) == maybe_text(device.verification_uri)
            &&& maybe_text(shown.verification_uri_complete) == maybe_text(
                device.verification_uri_complete,
            )
            &&& shown.credential_id is None
            &&& maybe_text(shown.email) is None
            &&& maybe_text(shown.error) is None
        },
        begun.1.session_id@ == id@,
        begun.1.device_code@ == device.device_code@,
        begun.1.client_id@ == registered.client_id@,
        begun.1.client_secret@ == registered.client_secret@,
        begun.1.auth_region@ == checked.auth_region@,
        begun.1.api_region@ == checked.api_region@,
        begun.1.priority == request.priority,
        maybe_text(begun.1.endpoint) == maybe_text(request.endpoint),
        begun.1.deadline.nanos == at.nanos,
        device.expires_in is None && at.secs + 600 <= LAST_SECOND ==> begun.1.deadline.secs
            == at.secs + 600,
        device.expires_in matches Some(seconds) ==> (1 <= seconds <= 900 && at.secs + seconds
            <= LAST_SECOND ==> begun.1.deadline.secs == at.secs + seconds),
{
}

/// What is recorded of a session is what is found of it: its status, whichever that is, and
/// the credential and the error that come with it. What it was started with stays. A session
/// that was cancelled stays as it is, and so does every other session.
pub proof fn law_recorded_status_is_found(
    manager: &mut SsoSessionManager,
    id: &str,
    update: SsoUpdate,
    other: &str,
    first: Result<SsoSessionResponse, SsoError>,
    later: SsoSessionManager,
    second: Result<SsoSessionResponse, SsoError>,
)
    requires
        call_ensures(SsoSessionManager::get_session, (&*old(manager), other), first),
        call_ensures(SsoSessionManager::set_session_status, (manager, id, update), ()),
        later == *final(manager),
        call_ensures(SsoSessionManager::get_session, (&later, other), second),
    ensures
        first is Ok <==> second is Ok,
        first is Ok ==> same_start(second->Ok_0, first->Ok_0),
        first is Ok && other@ != id@ ==> same_state(second->Ok_0, first->Ok_0),
        first is Ok && first->Ok_0.status == SsoStatus::Cancelled ==> same_state(
            second->Ok_0,
            first->Ok_0,
        ),
        first is Ok && other@ == id@ && first->Ok_0.status != SsoStatus::Cancelled ==> {
            let shown = second->Ok_0;
            &&& shown.status == update.status
            &&& update.credential_id is Some ==> shown.credential_id == update.credential_id
            &&& update.credential_id is None ==> shown.credential_id == first->Ok_0.credential_id
            &&& update.error is Some ==> maybe_text(shown.error) == maybe_text(update.error)
            &&& update.error is None ==> maybe_text(shown.error) == maybe_text(first->Ok_0.error)
        },
{
}

/// A session that is cancelled while it waits for its user is found cancelled. A finished one
/// stays as it is, and so does every other session. Who cancels is shown what is found.
pub proof fn law_cancelled_session_is_found(
    manager: &mut SsoSessionManager,
    id: &str,
    other: &str,
    first: Result<SsoSessionResponse, SsoError>,
    told: Result<SsoSessionResponse, SsoError>,
    later: SsoSessionManager,
    second: Result<SsoSessionResponse, SsoError>,
)
    requires
        call_ensures(SsoSessionManager::get_session, (&*old(manager), other), first),
        call_ensures(SsoSessionManager::cancel_session, (manager, id), told),
        later == *final(manager),
        call_ensures(SsoSessionManager::get_session, (&later, other), second),
    ensures
        first is Ok <==> second is Ok,
        first is Ok ==> same_start(second->Ok_0, first->Ok_0),
        first is Ok && (other@ != id@ || first->Ok_0.status != SsoStatus::Pending) ==> same_state(
            second->Ok_0,
            first->Ok_0,
        ),
        first is Ok && other@ == id@ && first->Ok_0.status == SsoStatus::Pending
            ==> second->Ok_0.status == SsoStatus::Cancelled,
        other@ == id@ ==> (told is Ok <==> second is Ok),
        other@ == id@ && told is Ok ==> same_state(told->Ok_0, second->Ok_0),
{
}

/// Sessions that wait for their users are found after the old ones were dropped, and so are
/// those that have finished less than an hour after they began; the others are gone.
pub proof fn law_old_sessions_are_gone(
    manager: &mut SsoSessionManager,
    at: Moment,
    id: &str,
    first: Result<SsoSessionResponse, SsoError>,
    later: SsoSessionManager,
    second: Result<SsoSessionResponse, SsoError>,
)
    requires
        call_ensures(SsoSessionManager::get_session, (&*old(manager), id), first),
        call_ensures(SsoSessionManager::purge_finished_at, (manager, at), ()),
        later == *final(manager),
        call_ensures(SsoSessionManager::get_session, (&later, id), second),
    ensures
        second is Ok ==> first is Ok && same_state(second->Ok_0, first->Ok_0),
        first is Ok && first->Ok_0.status == SsoStatus::Pending ==> second is Ok,
{
}

/// The background task sees a session cancelled exactly where a client finds it cancelled, or
/// does not find it.
pub proof fn law_task_sees_what_a_client_finds(
    manager: &SsoSessionManager,
    id: &str,
    found: Result<SsoSessionResponse, SsoError>,
    seen: PollEvent,
)
    requires
        call_ensures(SsoSessionManager::get_session, (manager, id), found),
        call_ensures(SsoSessionManager::look, (manager, id), seen),
    ensures
        seen matches PollEvent::Looked { cancelled, now } && now.wf() && (cancelled <==> match found {
            Ok(shown) => shown.status == SsoStatus::Cancelled,
            Err(_) => true,
        }),
{
}

/// A request that is accepted is checked: its values are those that were given, trimmed, and
/// the region is one of the two that the interface is offered in.
pub proof fn law_accepted_values_are_those_given(
    request: &StartSsoSessionRequest,
    r: Result<Checked, SsoError>,
)
    requires
        call_ensures(check_request, (request,), r),
    ensures
        match r {
            Ok(checked) => {
                &&& checked.start_url@ == plain_url(request.start_url@)
                &&& checked.auth_region@ == trimmed(request.auth_region@)
                &&& checked.auth_region@.len() > 0
                &&& checked.api_region@ == trimmed(request.api_region@)
                &&& checked.api_region@ == "us-east-1"@ || checked.api_region@ == "eu-central-1"@
                &&& "https://"@.is_prefix_of(checked.start_url@) || "http://"@.is_prefix_of(
                    checked.start_url@,
                )
            },
            Err(error) => error is InvalidRequest,
        },
{
}

/// A proxy is the one that is named, used under a name only with a password.
pub proof fn law_proxy_is_the_one_named(
    url: &Option<String>,
    username: &Option<String>,
    password: &Option<String>,
    r: Option<ProxySettings>,
)
    requires
        call_ensures(global_proxy, (url, username, password), r),
    ensures
        match r {
            Some(proxy) => {
                &&& url matches Some(named) && proxy.url@ == named@
                &&& match proxy.login {
                    Some((name, word)) => maybe_text(*username) == Some(name@) && maybe_text(
                        *password,
                    ) == Some(word@),
                    None => username is None || password is None,
                }
            },
            None => url is None,
        },
{
}

/// The background task begins where it waits, for as long as its session says. A credential
/// that it has added is that of its session and of the token that it was granted.
pub proof fn law_task_adds_the_credential_of_its_session(
    context: &PollContext,
    begun: Poll,
    poll: &mut Poll,
    event: PollEvent,
    action: PollAction,
)
    requires
        call_ensures(Poll::new, (context,), begun),
        call_ensures(Poll::step, (poll, context, event), action),
    ensures
        begun.phase is Start,
        begun.interval == context.interval,
        action matches PollAction::Add(credential) ==> {
            &&& old(poll).phase matches Phase::BeforeAdd(Some(token)) && credential.refresh_token@
                == token@ && token@.len() > 0
            &&& credential.client_id@ == context.client_id@
            &&& credential.client_secret@ == context.client_secret@
            &&& credential.auth_region@ == context.auth_region@
            &&& credential.api_region@ == context.api_region@
            &&& credential.priority == context.priority
            &&& maybe_text(credential.endpoint) == maybe_text(context.endpoint)
            &&& credential.auth_method@ == "idc"@
        },
        action is Ask ==> old(poll).phase is BeforeAsk && final(poll).phase is Asking,
        event matches PollEvent::Added(Ok(id)) ==> (action matches PollAction::End(Some(update))
            && update.status == SsoStatus::Completed && update.credential_id == Some(id)
            && maybe_text(update.error) is None),
        event matches PollEvent::Asked(Ok(CreateTokenPoll::Denied)) ==> (
        action matches PollAction::End(Some(update)) && update.status == SsoStatus::Denied),
        event matches PollEvent::Asked(Ok(CreateTokenPoll::Expired)) ==> (
        action matches PollAction::End(Some(update)) && update.status == SsoStatus::Expired),
        event matches PollEvent::Asked(Err(_)) ==> (action matches PollAction::End(Some(update))
            && update.status == SsoStatus::Failed),
        event matches PollEvent::Asked(Ok(CreateTokenPoll::Token(token))) ==> (
        final(poll).phase matches Phase::BeforeAdd(kept) && maybe_text(kept) == maybe_text(
            token.refresh_token,
        )),
{
}

/// What is sent to the sign-in service is what was given: the scopes, the client and its
/// secret, the address, and the code of the device.
pub proof fn law_requests_hold_what_was_given(
    scopes: &Vec<String>,
    client_id: &str,
    client_secret: &str,
    start_url: &str,
    device_code: &str,
    registering: RegisterClientRequest,
    starting: StartDeviceAuthRequest,
    asking: CreateTokenRequest,
)
    requires
        call_ensures(register_request, (scopes,), registering),
        call_ensures(device_request, (client_id, client_secret, start_url), starting),
        call_ensures(token_request, (client_id, client_secret, device_code), asking),
    ensures
        texts(registering.scopes@) == texts(scopes@),
        registering.client_type@ == "public"@,
        texts(registering.grant_types@).contains(asking.grant_type@),
        texts(registering.grant_types@).contains("refresh_token"@),
        starting.client_id@ == client_id@,
        starting.client_secret@ == client_secret@,
        starting.start_url@ == start_url@,
        asking.client_id@ == client_id@,
        asking.client_secret@ == client_secret@,
        asking.device_code@ == device_code@,
        asking.grant_type@ == "urn:ietf:params:oauth:grant-type:device_code"@,
{
    let grants = texts(registering.grant_types@);
    assert(grants[0] == asking.grant_type@);
    assert(grants[1] == "refresh_token"@);
}

/// The requests of one region go to one host, each to a path of its own.
pub proof fn law_requests_go_to_one_host(
    region: &str,
    host: String,
    registering: String,
    starting: String,
    asking: String,
)
    requires
        call_ensures(oidc_host, (region,), host),
        call_ensures(register_url, (region,), registering),
        call_ensures(device_authorization_url, (region,), starting),
        call_ensures(token_url, (region,), asking),
    ensures
        host@ == "oidc."@ + region@ + ".amazonaws.com"@,
        registering@ == "https://"@ + host@ + "/client/register"@,
        starting@ == "https://"@ + host@ + "/device_authorization"@,
        asking@ == "https://"@ + host@ + "/token"@,
{
}

/// An answer that is granted brings the token that was read from it; one that is refused
/// brings what its code says.
pub proof fn law_answer_brings_the_token(
    status: u16,
    status_text: &str,
    body: &str,
    token: Result<CreateTokenResponse, String>,
    error_code: Option<String>,
    r: Result<CreateTokenPoll, String>,
)
    requires
        call_ensures(token_outcome, (status, status_text, body, token, error_code), r),
    ensures
        status / 100 == 2 ==> match token {
            Ok(read) => r matches Ok(CreateTokenPoll::Token(found)) && *found == read,
            Err(error) => r == Err::<CreateTokenPoll, String>(error),
        },
        status / 100 != 2 ==> {
            &&& !(r matches Ok(CreateTokenPoll::Token(_)))
            &&& maybe_text(error_code) == Some("authorization_pending"@) ==> r == Ok::<
                CreateTokenPoll,
                String,
            >(CreateTokenPoll::Pending)
            &&& maybe_text(error_code) == Some("slow_down"@) ==> r == Ok::<
                CreateTokenPoll,
                String,
            >(CreateTokenPoll::SlowDown)
            &&& maybe_text(error_code) == Some("expired_token"@) ==> r == Ok::<
                CreateTokenPoll,
                String,
            >(CreateTokenPoll::Expired)
            &&& maybe_text(error_code) == Some("access_denied"@) ==> r == Ok::<
                CreateTokenPoll,
                String,
            >(CreateTokenPoll::Denied)
            &&& error_code is None ==> r is Err
        },
{
    reveal_strlit("authorization_pending");
    reveal_strlit("slow_down");
    reveal_strlit("expired_token");
    reveal_strlit("access_denied");
    reveal_strlit("");
    assert("authorization_pending"@.len() == 21 && "slow_down"@.len() == 9 && "expired_token"@.len()
        == 13 && "access_denied"@.len() == 13 && ""@.len() == 0);
    assert("expired_token"@[0] == 'e' && "access_denied"@[0] == 'a');
}

/// A session that begins now is found under the id that it was given.
pub proof fn law_session_that_begins_now_is_found(
    manager: &mut SsoSessionManager,
    request: &StartSsoSessionRequest,
    checked: &Checked,
    registered: &RegisterClientResponse,
    device: &StartDeviceAuthResponse,
    begun: (SsoSessionResponse, PollContext),
    later: SsoSessionManager,
    id: &str,
    found: Result<SsoSessionResponse, SsoError>,
)
    requires
        call_ensures(
            SsoSessionManager::begin_session,
            (manager, request, checked, registered, device),
            begun,
        ),
        later == *final(manager),
        id@ == begun.0.session_id@,
        call_ensures(SsoSessionManager::get_session, (&later, id), found),
    ensures
        found matches Ok(shown) && same_state(shown, begun.0) && shown.status == SsoStatus::Pending
            && shown.start_url@ == checked.start_url@ && shown.auth_region@ == checked.auth_region@
            && shown.api_region@ == checked.api_region@ && shown.user_code@ == device.user_code@,
        begun.1.session_id@ == begun.0.session_id@,
        begun.1.device_code@ == device.device_code@,
        begun.1.client_id@ == registered.client_id@,
        begun.1.client_secret@ == registered.client_secret@,
{
}

/// A request that is prepared for is checked as any other, and drops old sessions whether it
/// is accepted or not: one that waits for its user stays as it is.
pub proof fn law_prepared_request_is_checked(
    manager: &mut SsoSessionManager,
    request: &StartSsoSessionRequest,
    at: Moment,
    checked: Result<Checked, SsoError>,
    r: Result<Checked, SsoError>,
    id: &str,
    first: Result<SsoSessionResponse, SsoError>,
    later: SsoSessionManager,
    second: Result<SsoSessionResponse, SsoError>,
)
    requires
        call_ensures(check_request, (request,), checked),
        call_ensures(SsoSessionManager::get_session, (&*old(manager), id), first),
        call_ensures(SsoSessionManager::prepare_at, (manager, request, at), r),
        later == *final(manager),
        call_ensures(SsoSessionManager::get_session, (&later, id), second),
    ensures
        r is Ok <==> checked is Ok,
        r is Ok ==> r->Ok_0.start_url@ == checked->Ok_0.start_url@ && r->Ok_0.auth_region@
            == checked->Ok_0.auth_region@ && r->Ok_0.api_region@ == checked->Ok_0.api_region@,
        r is Err ==> r->Err_0@ == checked->Err_0@,
        second is Ok ==> first is Ok && same_state(second->Ok_0, first->Ok_0),
        first is Ok && first->Ok_0.status == SsoStatus::Pending ==> second is Ok,
{
}

} // verus!
