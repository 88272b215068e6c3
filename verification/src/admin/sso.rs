//! Sign-in sessions: a device is authorized by its user in a browser, and a credential is
//! added once the user has approved.
//!
//! What a session was started with is locked: its start URL, its regions and its codes stay
//! as they are until the session is gone. A client names a session by its id, and can do
//! no more than look at it or cancel it.

use vstd::prelude::*;

use crate::admin::poll::PollEvent;
use crate::clock::{now, rfc3339, rfc3339_text, whole_seconds, Moment, LAST_SECOND, NANOS_PER_SECOND};
use crate::ids::{fresh_uuid, is_uuid};
use crate::kiro::sso_oidc::{RegisterClientResponse, StartDeviceAuthResponse};
use crate::table::Table;
use crate::text::{
    copy_maybe, join2, maybe_text, same, starts_with, texts, trim, trim_end_of, trimmed,
    without_trailing,
};

verus! {

/// How long a device code is good for where the service does not say, in seconds.
pub const DEFAULT_DEVICE_EXPIRES_IN: i64 = 600;

/// How long a session lasts at most, in seconds.
pub const MAX_SESSION_TTL_SECS: i64 = 900;

/// How long to wait between two polls where the service does not say, in seconds.
pub const DEFAULT_POLL_INTERVAL_SECS: i64 = 5;

/// How long a finished session is kept, in seconds.
pub const FINISHED_SESSION_RETENTION_SECS: i64 = 3600;

/// How a session stands.
#[derive(Debug, Clone, Copy, PartialEq, Eq, Structural)]
pub enum SsoStatus {
    /// The user has not decided.
    Pending,
    /// The user has approved, and the credential has been added.
    Completed,
    /// Something went wrong.
    Failed,
    /// The user has not decided in time.
    Expired,
    /// The user has refused.
    Denied,
    /// The session was cancelled.
    Cancelled,
}

impl SsoStatus {
    /// Whether nothing more happens to the session.
    pub fn is_finished(self) -> (r: bool)
        ensures
            r == (self != SsoStatus::Pending),
    {
        self != SsoStatus::Pending
    }
}

/// The state of a session.
#[derive(Debug)]
pub struct SsoSessionState {
    pub status: SsoStatus,
    pub start_url: String,
    pub auth_region: String,
    pub api_region: String,
    pub user_code: String,
    pub verification_uri: Option<String>,
    pub verification_uri_complete: Option<String>,
    pub created_at: Moment,
    pub expires_at: Moment,
    pub credential_id: Option<u64>,
    pub email: Option<String>,
    pub error: Option<String>,
}

/// What a session was started with, as plain values.
pub struct LockedView {
    pub start_url: Seq<char>,
    pub auth_region: Seq<char>,
    pub api_region: Seq<char>,
    pub user_code: Seq<char>,
    pub verification_uri: Option<Seq<char>>,
    pub verification_uri_complete: Option<Seq<char>>,
    pub created_at: Moment,
    pub expires_at: Moment,
}

/// The state of a session as plain values.
pub struct SessionView {
    pub locked: LockedView,
    pub status: SsoStatus,
    pub credential_id: Option<u64>,
    pub email: Option<Seq<char>>,
    pub error: Option<Seq<char>>,
}

impl View for SsoSessionState {
    type V = SessionView;

    open spec fn view(&self) -> SessionView {
        SessionView {
            locked: LockedView {
                start_url: self.start_url@,
                auth_region: self.auth_region@,
                api_region: self.api_region@,
                user_code: self.user_code@,
                verification_uri: maybe_text(self.verification_uri),
                verification_uri_complete: maybe_text(self.verification_uri_complete),
                created_at: self.created_at,
                expires_at: self.expires_at,
            },
            status: self.status,
            credential_id: self.credential_id,
            email: maybe_text(self.email),
            error: maybe_text(self.error),
        }
    }
}

/// What a client is told of a session.
#[derive(Debug)]
pub struct SsoSessionResponse {
    pub session_id: String,
    pub status: SsoStatus,
    pub start_url: String,
    pub auth_region: String,
    pub api_region: String,
    pub user_code: String,
    pub verification_uri: Option<String>,
    pub verification_uri_complete: Option<String>,
    pub expires_at: String,
    pub credential_id: Option<u64>,
    pub email: Option<String>,
    pub error: Option<String>,
}

impl SsoSessionResponse {
    /// The response tells of this session under this id.
    pub open spec fn tells_of(self, id: Seq<char>, session: SessionView) -> bool {
        &&& self.session_id@ == id
        &&& self.status == session.status
        &&& self.start_url@ == session.locked.start_url
        &&& self.auth_region@ == session.locked.auth_region
        &&& self.api_region@ == session.locked.api_region
        &&& self.user_code@ == session.locked.user_code
        &&& maybe_text(self.verification_uri) == session.locked.verification_uri
        &&& maybe_text(self.verification_uri_complete) == session.locked.verification_uri_complete
        &&& self.expires_at@ == rfc3339_text(
            session.locked.expires_at.secs,
            session.locked.expires_at.nanos,
        )
        &&& self.credential_id == session.credential_id
        &&& maybe_text(self.email) == session.email
        &&& maybe_text(self.error) == session.error
    }
}

/// A request to start a session.
#[derive(Debug)]
pub struct StartSsoSessionRequest {
    pub start_url: String,
    pub auth_region: String,
    pub api_region: String,
    pub priority: u32,
    pub endpoint: Option<String>,
}

/// Why a session could not be started, found or cancelled.
#[derive(Debug)]
pub enum SsoError {
    /// The request is at fault.
    InvalidRequest(String),
    /// There is no such session.
    NotFound(String),
    /// The sign-in service is at fault.
    Upstream(String),
}

/// An error as plain values.
pub enum SsoErrorView {
    InvalidRequest(Seq<char>),
    NotFound(Seq<char>),
    Upstream(Seq<char>),
}

impl View for SsoError {
    type V = SsoErrorView;

    open spec fn view(&self) -> SsoErrorView {
        match *self {
            SsoError::InvalidRequest(message) => SsoErrorView::InvalidRequest(message@),
            SsoError::NotFound(message) => SsoErrorView::NotFound(message@),
            SsoError::Upstream(message) => SsoErrorView::Upstream(message@),
        }
    }
}

/// What a session is started with, once it has been checked.
#[derive(Debug)]
pub struct Checked {
    pub start_url: String,
    pub auth_region: String,
    pub api_region: String,
}

/// The start URL of a request: without the white space around it and the slashes at its
/// end.
pub open spec fn plain_url(url: Seq<char>) -> Seq<char> {
    without_trailing(trimmed(url), '/')
}

/// The regions that the interface is offered in.
pub const ALLOWED_API_REGIONS: [&'static str; 2] = ["us-east-1", "eu-central-1"];

/// Whether the interface is offered in a region.
pub open spec fn is_api_region(region: Seq<char>) -> bool {
    region == ALLOWED_API_REGIONS[0]@ || region == ALLOWED_API_REGIONS[1]@
}

/// The first thing that is wrong with a request to start a session.
pub open spec fn request_problem(request: StartSsoSessionRequest) -> Option<Seq<char>> {
    let url = plain_url(request.start_url@);
    if url.len() == 0 {
        Some("Start URL 不能为空"@)
    } else if !("https://"@.is_prefix_of(url) || "http://"@.is_prefix_of(url)) {
        Some("Start URL 必须以 http(s):// 开头"@)
    } else if trimmed(request.auth_region@).len() == 0 {
        Some("Auth Region 不能为空"@)
    } else if !is_api_region(trimmed(request.api_region@)) {
        Some("API Region 仅支持 [\"us-east-1\", \"eu-central-1\"]"@)
    } else {
        None
    }
}

/// Whether a session is kept at a moment: while it is pending, and for a while after.
pub open spec fn is_kept(session: SessionView, at: Moment) -> bool {
    session.status == SsoStatus::Pending || whole_seconds(
        at.instant() - session.locked.created_at.instant(),
    ) < FINISHED_SESSION_RETENTION_SECS
}

/// How long a session lasts: as long as its device code, within bounds.
pub open spec fn time_to_live(expires_in: Option<i64>) -> i64 {
    let asked = match expires_in {
        Some(seconds) => seconds,
        None => DEFAULT_DEVICE_EXPIRES_IN,
    };
    if asked > MAX_SESSION_TTL_SECS {
        MAX_SESSION_TTL_SECS
    } else if asked < 1 {
        1
    } else {
        asked
    }
}

/// How long to wait between two polls.
pub open spec fn poll_interval(interval: Option<i64>) -> i64 {
    let asked = match interval {
        Some(seconds) => seconds,
        None => DEFAULT_POLL_INTERVAL_SECS,
    };
    if asked < 1 {
        1
    } else {
        asked
    }
}

/// The moment a number of seconds after another, but no second later than the last that has
/// a calendar date.
pub open spec fn end_of(at: Moment, seconds: i64) -> Moment {
    if at.secs + seconds <= LAST_SECOND {
        Moment { secs: (at.secs + seconds) as i64, nanos: at.nanos }
    } else {
        Moment { secs: LAST_SECOND, nanos: at.nanos }
    }
}

/// A session that begins at a moment.
pub open spec fn begun(checked: Checked, device: StartDeviceAuthResponse, at: Moment) -> SessionView {
    SessionView {
        locked: LockedView {
            start_url: checked.start_url@,
            auth_region: checked.auth_region@,
            api_region: checked.api_region@,
            user_code: device.user_code@,
            verification_uri: maybe_text(device.verification_uri),
            verification_uri_complete: maybe_text(device.verification_uri_complete),
            created_at: at,
            expires_at: end_of(at, time_to_live(device.expires_in)),
        },
        status: SsoStatus::Pending,
        credential_id: None,
        email: None,
        error: None,
    }
}

/// A session lasts as many seconds as its device code, but at least 1 and at most 900, and
/// 600 where nothing is said of the code. Left out are the moments so late that the session
/// would outlast the calendar.
pub proof fn law_session_lasts_its_time(
    checked: Checked,
    device: StartDeviceAuthResponse,
    at: Moment,
)
    requires
        at.wf(),
        at.secs + time_to_live(device.expires_in) <= LAST_SECOND,
    ensures
        ({
            let locked = begun(checked, device, at).locked;
            &&& locked.created_at == at
            &&& locked.expires_at.wf()
            &&& locked.expires_at.instant() == at.instant() + time_to_live(device.expires_in)
                * NANOS_PER_SECOND
            &&& 1 <= time_to_live(device.expires_in) <= 900
            &&& device.expires_in is None ==> time_to_live(device.expires_in) == 600
            &&& device.expires_in matches Some(seconds) ==> (1 <= seconds <= 900
                ==> time_to_live(device.expires_in) == seconds)
        }),
{
}

/// What comes of a session: its status, and what goes with it.
#[derive(Debug)]
pub struct SsoUpdate {
    pub status: SsoStatus,
    pub credential_id: Option<u64>,
    pub error: Option<String>,
}

/// What comes of a session, as plain values.
pub struct UpdateView {
    pub status: SsoStatus,
    pub credential_id: Option<u64>,
    pub error: Option<Seq<char>>,
}

impl View for SsoUpdate {
    type V = UpdateView;

    open spec fn view(&self) -> UpdateView {
        UpdateView {
            status: self.status,
            credential_id: self.credential_id,
            error: maybe_text(self.error),
        }
    }
}

/// A session with what has come of it. One that was cancelled stays as it is.
pub open spec fn updated(session: SessionView, update: UpdateView) -> SessionView {
    if session.status == SsoStatus::Cancelled {
        session
    } else {
        SessionView {
            status: update.status,
            credential_id: if update.credential_id is Some {
                update.credential_id
            } else {
                session.credential_id
            },
            error: if update.error is Some {
                update.error
            } else {
                session.error
            },
            ..session
        }
    }
}

/// A session that was told to be cancelled. One that has finished stays as it is.
pub open spec fn cancelled(session: SessionView) -> SessionView {
    if session.status == SsoStatus::Pending {
        SessionView { status: SsoStatus::Cancelled, ..session }
    } else {
        session
    }
}

/// Nothing that happens to a session changes what it was started with.
pub proof fn law_parameters_stay_locked(session: SessionView, update: UpdateView)
    ensures
        updated(session, update).locked == session.locked,
        cancelled(session).locked == session.locked,
{
}

/// A session that was cancelled while it was pending stays cancelled, and a finished one
/// cannot be cancelled.
pub proof fn law_cancellation_is_final(session: SessionView, update: UpdateView)
    ensures
        session.status == SsoStatus::Pending ==> updated(cancelled(session), update)
            == cancelled(session),
        cancelled(cancelled(session)) == cancelled(session),
        session.status != SsoStatus::Pending ==> cancelled(session) == session,
{
}

/// The sessions by their ids, as plain values.
pub open spec fn sessions_view(sessions: Map<Seq<char>, SsoSessionState>) -> Map<
    Seq<char>,
    SessionView,
> {
    sessions.map_values(|state: SsoSessionState| state@)
}

/// The sessions that are kept at a moment.
pub open spec fn kept(sessions: Map<Seq<char>, SessionView>, at: Moment) -> Map<
    Seq<char>,
    SessionView,
> {
    sessions.restrict(
        Set::new(
            |id: Seq<char>| sessions.dom().contains(id) && is_kept(sessions[id], at),
        ),
    )
}

/// A session that waits for its user is never dropped, and what is not dropped stays as
/// it is.
pub proof fn law_pending_sessions_are_kept(
    sessions: Map<Seq<char>, SessionView>,
    at: Moment,
    id: Seq<char>,
)
    requires
        sessions.dom().contains(id),
    ensures
        sessions[id].status == SsoStatus::Pending ==> kept(sessions, at).dom().contains(id),
        kept(sessions, at).dom().contains(id) ==> kept(sessions, at)[id] == sessions[id],
{
}

/// The times of sessions have a calendar date.
spec fn have_dates(sessions: Map<Seq<char>, SsoSessionState>) -> bool {
    forall|id: Seq<char>| #[trigger]
        sessions.dom().contains(id) ==> sessions[id].created_at.wf()
            && sessions[id].expires_at.wf()
}

/// The sessions.
#[derive(Debug)]
pub struct SsoSessionManager {
    sessions: Table<SsoSessionState>,
}

impl View for SsoSessionManager {
    type V = Map<Seq<char>, SessionView>;

    closed spec fn view(&self) -> Map<Seq<char>, SessionView> {
        sessions_view(self.sessions@)
    }
}

/// What a client is told of a session.
fn to_response(session_id: &str, state: &SsoSessionState) -> (r: SsoSessionResponse)
    requires
        state.expires_at.wf(),
    ensures
        r.tells_of(session_id@, state@),
{
    SsoSessionResponse {
        session_id: session_id.to_owned(),
        status: state.status,
        start_url: state.start_url.clone(),
        auth_region: state.auth_region.clone(),
        api_region: state.api_region.clone(),
        user_code: state.user_code.clone(),
        verification_uri: copy_maybe(&state.verification_uri),
        verification_uri_complete: copy_maybe(&state.verification_uri_complete),
        expires_at: rfc3339(state.expires_at),
        credential_id: state.credential_id,
        email: copy_maybe(&state.email),
        error: copy_maybe(&state.error),
    }
}

/// The checked values of a request, or what is wrong with it.
pub fn check_request(request: &StartSsoSessionRequest) -> (r: Result<Checked, SsoError>)
    ensures
        match request_problem(*request) {
            Some(problem) => r matches Err(error) && error@ == SsoErrorView::InvalidRequest(
                problem,
            ),
            None => r matches Ok(checked) && checked.start_url@ == plain_url(request.start_url@)
                && checked.auth_region@ == trimmed(request.auth_region@) && checked.api_region@
                == trimmed(request.api_region@),
        },
{
    let start_url = trim_end_of(trim(request.start_url.as_str()), '/');
    let auth_region = trim(request.auth_region.as_str());
    let api_region = trim(request.api_region.as_str());
    if start_url.is_empty() {
        return Err(SsoError::InvalidRequest("Start URL 不能为空".to_owned()));
    }
    if !(starts_with(start_url, "https://") || starts_with(start_url, "http://")) {
        return Err(SsoError::InvalidRequest("Start URL 必须以 http(s):// 开头".to_owned()));
    }
    if auth_region.is_empty() {
        return Err(SsoError::InvalidRequest("Auth Region 不能为空".to_owned()));
    }
    if !(same(api_region, ALLOWED_API_REGIONS[0]) || same(api_region, ALLOWED_API_REGIONS[1])) {
        return Err(
            SsoError::InvalidRequest(
                "API Region 仅支持 [\"us-east-1\", \"eu-central-1\"]".to_owned(),
            ),
        );
    }
    Ok(
        Checked {
            start_url: start_url.to_owned(),
            auth_region: auth_region.to_owned(),
            api_region: api_region.to_owned(),
        },
    )
}

/// A proxy, and who it is used as.
#[derive(Debug)]
pub struct ProxySettings {
    pub url: String,
    pub login: Option<(String, String)>,
}

/// The proxy that a configuration names, with a login where both halves of it are there.
pub fn global_proxy(
    url: &Option<String>,
    username: &Option<String>,
    password: &Option<String>,
) -> (r: Option<ProxySettings>)
    ensures
        r is Some == url is Some,
        r matches Some(proxy) ==> proxy.url@ == url->0@ && match (*username, *password) {
            (Some(username), Some(password)) => proxy.login matches Some(login) && login.0@
                == username@ && login.1@ == password@,
            _ => proxy.login is None,
        },
{
    match url {
        Some(url) => Some(
            ProxySettings {
                url: url.clone(),
                login: match (username, password) {
                    (Some(username), Some(password)) => Some((username.clone(), password.clone())),
                    _ => None,
                },
            },
        ),
        None => None,
    }
}

/// A background task's view of a session: all that it needs, locked.
#[derive(Debug)]
pub struct PollContext {
    pub session_id: String,
    pub auth_region: String,
    pub api_region: String,
    pub start_url: String,
    pub client_id: String,
    pub client_secret: String,
    pub device_code: String,
    pub interval: i64,
    pub deadline: Moment,
    pub priority: u32,
    pub endpoint: Option<String>,
}

impl SsoSessionManager {
    /// The times of every session have a calendar date.
    #[verifier::type_invariant]
    spec fn times_have_dates(self) -> bool {
        have_dates(self.sessions@)
    }

    /// No sessions.
    pub fn new() -> (r: SsoSessionManager)
        ensures
            r@ == Map::<Seq<char>, SessionView>::empty(),
    {
        let r = SsoSessionManager { sessions: Table::new() };
        assert(r@ =~= Map::<Seq<char>, SessionView>::empty());
        r
    }

    /// Drops the sessions that are not kept at a moment.
    pub fn purge_finished_at(&mut self, at: Moment)
        requires
            at.wf(),
        ensures
            final(self)@ == kept(old(self)@, at),
    {
        proof {
            use_type_invariant(&*self);
        }
        let mut sessions: Table<SsoSessionState> = Table::new();
        std::mem::swap(&mut sessions, &mut self.sessions);
        let ghost before = sessions@;
        let ids = sessions.names();
        let ghost all = texts(ids@);
        for i in 0..ids.len()
            invariant
                have_dates(sessions@),
                at.wf(),
                all == texts(ids@),
                all.to_set() == before.dom(),
                forall|id: Seq<char>| #[trigger]
                    sessions@.dom().contains(id) ==> before.dom().contains(id)
                        && sessions@[id] == before[id] && (all.take(i as int).contains(id)
                        ==> is_kept(before[id]@, at)),
                forall|id: Seq<char>| #[trigger]
                    before.dom().contains(id) && (!all.take(i as int).contains(id) || is_kept(
                        before[id]@,
                        at,
                    )) ==> sessions@.dom().contains(id),
        {
            let ghost earlier = sessions@;
            let id = ids[i].as_str();
            assert(all[i as int] == id@);
            let drop = match sessions.get(id) {
                Some(state) => state.status.is_finished() && at.seconds_since(state.created_at)
                    >= FINISHED_SESSION_RETENTION_SECS,
                None => false,
            };
            if drop {
                sessions.remove(id);
            }
            proof {
                let next = all.take(i + 1);
                assert forall|other: Seq<char>| next.contains(other) <==> (all.take(
                    i as int,
                ).contains(other) || other == id@) by {
                    if next.contains(other) {
                        let k = choose|k: int| 0 <= k < next.len() && next[k] == other;
                        if k < i {
                            assert(all.take(i as int)[k] == other);
                        }
                    }
                    if all.take(i as int).contains(other) {
                        let k = choose|k: int|
                            0 <= k < all.take(i as int).len() && all.take(i as int)[k] == other;
                        assert(next[k] == other);
                    }
                    assert(next[i as int] == id@);
                }
            }
        }
        proof {
            assert(all.take(all.len() as int) =~= all);
            assert forall|id: Seq<char>| before.dom().contains(id) implies all.contains(id) by {
                assert(all.to_set().contains(id));
            }
            assert(sessions_view(sessions@) =~= kept(sessions_view(before), at));
        }
        self.sessions = sessions;
    }

    /// Drops the sessions that are no longer kept, and checks a request to start one.
    pub fn prepare_at(&mut self, request: &StartSsoSessionRequest, at: Moment) -> (r: Result<
        Checked,
        SsoError,
    >)
        requires
            at.wf(),
        ensures
            final(self)@ == kept(old(self)@, at),
            match request_problem(*request) {
                Some(problem) => r matches Err(error) && error@ == SsoErrorView::InvalidRequest(
                    problem,
                ),
                None => r matches Ok(checked) && checked.start_url@ == plain_url(
                    request.start_url@,
                ) && checked.auth_region@ == trimmed(request.auth_region@) && checked.api_region@
                    == trimmed(request.api_region@),
            },
    {
        self.purge_finished_at(at);
        check_request(request)
    }

    /// Drops the sessions that are no longer kept, and checks a request to start one, now.
    pub fn prepare(&mut self, request: &StartSsoSessionRequest) -> (r: Result<Checked, SsoError>)
        ensures
            exists|at: Moment| at.wf() && final(self)@ == #[trigger] kept(old(self)@, at),
            match request_problem(*request) {
                Some(problem) => r matches Err(error) && error@ == SsoErrorView::InvalidRequest(
                    problem,
                ),
                None => r matches Ok(checked) && checked.start_url@ == plain_url(
                    request.start_url@,
                ) && checked.auth_region@ == trimmed(request.auth_region@) && checked.api_region@
                    == trimmed(request.api_region@),
            },
    {
        self.prepare_at(request, now())
    }

    /// Begins a session under an id, at a moment: what the client is told of it, and what
    /// the background task needs.
    pub fn begin_session_with(
        &mut self,
        session_id: &str,
        request: &StartSsoSessionRequest,
        checked: &Checked,
        registered: &RegisterClientResponse,
        device: &StartDeviceAuthResponse,
        at: Moment,
    ) -> (r: (SsoSessionResponse, PollContext))
        requires
            at.wf(),
        ensures
            final(self)@ == old(self)@.insert(session_id@, begun(*checked, *device, at)),
            r.0.tells_of(session_id@, begun(*checked, *device, at)),
            r.1.serves(session_id@, *request, *checked, *registered, *device, at),
            r.1.deadline.wf(),
    {
        let ttl: i64 = match device.expires_in {
            Some(seconds) => if seconds > MAX_SESSION_TTL_SECS {
                MAX_SESSION_TTL_SECS
            } else if seconds < 1 {
                1
            } else {
                seconds
            },
            None => DEFAULT_DEVICE_EXPIRES_IN,
        };
        let interval: i64 = match device.interval {
            Some(seconds) => if seconds < 1 {
                1
            } else {
                seconds
            },
            None => DEFAULT_POLL_INTERVAL_SECS,
        };
        let left: i64 = LAST_SECOND - at.secs;
        let expires_at = at.plus_seconds(
            if ttl <= left {
                ttl
            } else {
                left
            },
        );
        let state = SsoSessionState {
            status: SsoStatus::Pending,
            start_url: checked.start_url.clone(),
            auth_region: checked.auth_region.clone(),
            api_region: checked.api_region.clone(),
            user_code: device.user_code.clone(),
            verification_uri: copy_maybe(&device.verification_uri),
            verification_uri_complete: copy_maybe(&device.verification_uri_complete),
            created_at: at,
            expires_at,
            credential_id: None,
            email: None,
            error: None,
        };
        let response = to_response(session_id, &state);
        let ghost view = state@;
        proof {
            use_type_invariant(&*self);
        }
        let mut sessions: Table<SsoSessionState> = Table::new();
        std::mem::swap(&mut sessions, &mut self.sessions);
        sessions.insert(session_id.to_owned(), state);
        self.sessions = sessions;
        assert(self@ =~= old(self)@.insert(session_id@, view));
        let context = PollContext {
            session_id: session_id.to_owned(),
            auth_region: checked.auth_region.clone(),
            api_region: checked.api_region.clone(),
            start_url: checked.start_url.clone(),
            client_id: registered.client_id.clone(),
            client_secret: registered.client_secret.clone(),
            device_code: device.device_code.clone(),
            interval,
            deadline: expires_at,
            priority: request.priority,
            endpoint: copy_maybe(&request.endpoint),
        };
        (response, context)
    }

    /// Begins a session now, under an id of its own.
    pub fn begin_session(
        &mut self,
        request: &StartSsoSessionRequest,
        checked: &Checked,
        registered: &RegisterClientResponse,
        device: &StartDeviceAuthResponse,
    ) -> (r: (SsoSessionResponse, PollContext))
        ensures
            exists|id: Seq<char>, at: Moment| #[trigger]
                is_uuid(id) && #[trigger] at.wf() && {
                    &&& final(self)@ == old(self)@.insert(id, begun(*checked, *device, at))
                    &&& r.0.tells_of(id, begun(*checked, *device, at))
                    &&& r.1.serves(id, *request, *checked, *registered, *device, at)
                    &&& r.1.deadline.wf()
                },
    {
        let at = now();
        let session_id = fresh_uuid();
        assert(is_uuid(session_id@) && at.wf());
        self.begin_session_with(session_id.as_str(), request, checked, registered, device, at)
    }

    /// What a client is told of a session.
    pub fn get_session(&self, session_id: &str) -> (r: Result<SsoSessionResponse, SsoError>)
        ensures
            if self@.dom().contains(session_id@) {
                r matches Ok(response) && response.tells_of(session_id@, self@[session_id@])
            } else {
                r matches Err(error) && error@ == no_session(session_id@)
            },
    {
        proof {
            use_type_invariant(self);
        }
        match self.sessions.get(session_id) {
            Some(state) => Ok(to_response(session_id, state)),
            None => Err(SsoError::NotFound(join2("会话不存在: ", session_id))),
        }
    }

    /// Cancels a session that is pending, and says how it stands.
    pub fn cancel_session(&mut self, session_id: &str) -> (r: Result<SsoSessionResponse, SsoError>)
        ensures
            if old(self)@.dom().contains(session_id@) {
                &&& final(self)@ == old(self)@.insert(
                    session_id@,
                    cancelled(old(self)@[session_id@]),
                )
                &&& r matches Ok(response) && response.tells_of(
                    session_id@,
                    cancelled(old(self)@[session_id@]),
                )
            } else {
                &&& final(self)@ == old(self)@
                &&& r matches Err(error) && error@ == no_session(session_id@)
            },
    {
        proof {
            use_type_invariant(&*self);
        }
        let mut sessions: Table<SsoSessionState> = Table::new();
        std::mem::swap(&mut sessions, &mut self.sessions);
        match sessions.remove(session_id) {
            Some(state) => {
                let mut state = state;
                if !state.status.is_finished() {
                    state.status = SsoStatus::Cancelled;
                }
                let response = to_response(session_id, &state);
                let ghost view = state@;
                sessions.insert(session_id.to_owned(), state);
                self.sessions = sessions;
                assert(self@ =~= old(self)@.insert(session_id@, view));
                Ok(response)
            },
            None => {
                self.sessions = sessions;
                assert(self@ =~= old(self)@);
                Err(SsoError::NotFound(join2("会话不存在: ", session_id)))
            },
        }
    }

    /// Records what has come of a session. One that was cancelled, or is gone, stays as it
    /// is.
    pub fn set_session_status(&mut self, session_id: &str, update: SsoUpdate)
        ensures
            final(self)@ == if old(self)@.dom().contains(session_id@) {
                old(self)@.insert(session_id@, updated(old(self)@[session_id@], update@))
            } else {
                old(self)@
            },
    {
        proof {
            use_type_invariant(&*self);
        }
        let mut sessions: Table<SsoSessionState> = Table::new();
        std::mem::swap(&mut sessions, &mut self.sessions);
        match sessions.remove(session_id) {
            Some(state) => {
                let mut state = state;
                if state.status != SsoStatus::Cancelled {
                    state.status = update.status;
                    if update.credential_id.is_some() {
                        state.credential_id = update.credential_id;
                    }
                    if update.error.is_some() {
                        state.error = update.error;
                    }
                }
                let ghost view = state@;
                sessions.insert(session_id.to_owned(), state);
                self.sessions = sessions;
                assert(self@ =~= old(self)@.insert(session_id@, view));
            },
            None => {
                self.sessions = sessions;
                assert(self@ =~= old(self)@);
            },
        }
    }

    /// What the background task of a session sees when it looks: whether the session was
    /// cancelled, and the time. A session that is gone was cancelled before.
    pub fn look(&self, session_id: &str) -> (r: PollEvent)
        ensures
            r matches PollEvent::Looked { cancelled, now } && now.wf() && cancelled
                == is_cancelled(self@, session_id@),
    {
        let cancelled = match self.sessions.get(session_id) {
            Some(state) => state.status == SsoStatus::Cancelled,
            None => true,
        };
        PollEvent::Looked { cancelled, now: now() }
    }
}

/// A session was cancelled, or is gone.
pub open spec fn is_cancelled(sessions: Map<Seq<char>, SessionView>, id: Seq<char>) -> bool {
    sessions.dom().contains(id) ==> sessions[id].status == SsoStatus::Cancelled
}

/// The error for a session that is not there.
pub open spec fn no_session(id: Seq<char>) -> SsoErrorView {
    SsoErrorView::NotFound("会话不存在: "@ + id)
}

impl PollContext {
    /// The task serves this session.
    pub open spec fn serves(
        self,
        id: Seq<char>,
        request: StartSsoSessionRequest,
        checked: Checked,
        registered: RegisterClientResponse,
        device: StartDeviceAuthResponse,
        at: Moment,
    ) -> bool {
        &&& self.session_id@ == id
        &&& self.auth_region@ == checked.auth_region@
        &&& self.api_region@ == checked.api_region@
        &&& self.start_url@ == checked.start_url@
        &&& self.client_id@ == registered.client_id@
        &&& self.client_secret@ == registered.client_secret@
        &&& self.device_code@ == device.device_code@
        &&& self.interval == poll_interval(device.interval)
        &&& self.deadline == begun(checked, device, at).locked.expires_at
        &&& self.priority == request.priority
        &&& maybe_text(self.endpoint) == maybe_text(request.endpoint)
    }
}

} // verus!
