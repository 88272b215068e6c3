//! The background task of a sign-in session: it asks for a token until the user has
//! decided, and has the credential added.
//!
//! The task itself is run elsewhere. Here stands what it does next, after whatever happened.

use vstd::prelude::*;

use crate::admin::sso::{PollContext, SsoStatus, SsoUpdate, UpdateView};
use crate::clock::Moment;
use crate::kiro::sso_oidc::{CreateTokenPoll, CreateTokenResponse};
use crate::text::{copy_maybe, join2, maybe_text};

verus! {

/// How much longer to wait once the service wants to be asked less often, in seconds.
pub const SLOW_DOWN_BACKOFF_SECS: i64 = 5;

/// Where the background task of a session stands.
#[derive(Debug)]
pub enum Phase {
    /// It is about to wait.
    Start,
    /// It has waited for a number of seconds.
    Waiting(i64),
    /// It is about to ask for a token.
    BeforeAsk,
    /// It has asked for a token.
    Asking,
    /// It has a token, and is about to add the credential.
    BeforeAdd(Option<String>),
    /// It has the credential added.
    Adding,
    /// It has ended.
    Ended,
}

/// Where the background task of a session stands, as plain values.
pub enum PhaseView {
    Start,
    Waiting(i64),
    BeforeAsk,
    Asking,
    BeforeAdd(Option<Seq<char>>),
    Adding,
    Ended,
}

/// The background task of a session: how long it waits between two polls, and where it
/// stands.
#[derive(Debug)]
pub struct Poll {
    pub interval: i64,
    pub phase: Phase,
}

/// The background task of a session as plain values.
pub struct PollView {
    pub interval: i64,
    pub phase: PhaseView,
}

impl View for Poll {
    type V = PollView;

    open spec fn view(&self) -> PollView {
        PollView {
            interval: self.interval,
            phase: match self.phase {
                Phase::Start => PhaseView::Start,
                Phase::Waiting(slept) => PhaseView::Waiting(slept),
                Phase::BeforeAsk => PhaseView::BeforeAsk,
                Phase::Asking => PhaseView::Asking,
                Phase::BeforeAdd(token) => PhaseView::BeforeAdd(maybe_text(token)),
                Phase::Adding => PhaseView::Adding,
                Phase::Ended => PhaseView::Ended,
            },
        }
    }
}

/// What happens to the background task of a session.
#[derive(Debug)]
pub enum PollEvent {
    /// It looked whether the session was cancelled, and at the clock.
    Looked { cancelled: bool, now: Moment },
    /// It slept for a second.
    Slept,
    /// It asked for a token.
    Asked(Result<CreateTokenPoll, String>),
    /// It had a credential added.
    Added(Result<u64, String>),
}

/// A credential that is added for a session.
#[derive(Debug)]
pub struct NewCredential {
    pub auth_method: String,
    pub refresh_token: String,
    pub client_id: String,
    pub client_secret: String,
    pub auth_region: String,
    pub api_region: String,
    pub priority: u32,
    pub endpoint: Option<String>,
}

/// A credential as plain values.
pub struct CredentialView {
    pub auth_method: Seq<char>,
    pub refresh_token: Seq<char>,
    pub client_id: Seq<char>,
    pub client_secret: Seq<char>,
    pub auth_region: Seq<char>,
    pub api_region: Seq<char>,
    pub priority: u32,
    pub endpoint: Option<Seq<char>>,
}

/// What the background task of a session does next.
#[derive(Debug)]
pub enum PollAction {
    /// Look whether the session was cancelled, and at the clock.
    Look,
    /// Sleep for a second.
    Sleep,
    /// Ask for a token.
    Ask,
    /// Have a credential added.
    Add(NewCredential),
    /// End, and record what has come of the session.
    End(Option<SsoUpdate>),
}

/// What the background task of a session does next, as plain values.
pub enum ActionView {
    Look,
    Sleep,
    Ask,
    Add(CredentialView),
    End(Option<UpdateView>),
}

impl View for PollAction {
    type V = ActionView;

    open spec fn view(&self) -> ActionView {
        match *self {
            PollAction::Look => ActionView::Look,
            PollAction::Sleep => ActionView::Sleep,
            PollAction::Ask => ActionView::Ask,
            PollAction::Add(credential) => ActionView::Add(
                CredentialView {
                    auth_method: credential.auth_method@,
                    refresh_token: credential.refresh_token@,
                    client_id: credential.client_id@,
                    client_secret: credential.client_secret@,
                    auth_region: credential.auth_region@,
                    api_region: credential.api_region@,
                    priority: credential.priority,
                    endpoint: maybe_text(credential.endpoint),
                },
            ),
            PollAction::End(update) => ActionView::End(
                match update {
                    Some(update) => Some(update@),
                    None => None,
                },
            ),
        }
    }
}

/// The credential that is added for a session with a refresh token.
pub open spec fn credential_for(context: PollContext, refresh_token: Seq<char>) -> CredentialView {
    CredentialView {
        auth_method: "idc"@,
        refresh_token,
        client_id: context.client_id@,
        client_secret: context.client_secret@,
        auth_region: context.auth_region@,
        api_region: context.api_region@,
        priority: context.priority,
        endpoint: maybe_text(context.endpoint),
    }
}

/// The end of a session with a status and a reason.
pub open spec fn ended(status: SsoStatus, reason: Seq<char>) -> ActionView {
    ActionView::End(Some(UpdateView { status, credential_id: None, error: Some(reason) }))
}

/// An event that can happen in a phase.
pub open spec fn can_happen(poll: PollView, event: PollEvent) -> bool {
    match event {
        PollEvent::Looked { cancelled, now } => now.wf() && (poll.phase is Start || poll.phase is
            Waiting || poll.phase is BeforeAsk || poll.phase is BeforeAdd),
        PollEvent::Slept => poll.phase matches PhaseView::Waiting(slept) && slept < poll.interval,
        PollEvent::Asked(outcome) => poll.phase is Asking && (outcome matches Ok(
            CreateTokenPoll::SlowDown,
        ) ==> poll.interval <= i64::MAX - SLOW_DOWN_BACKOFF_SECS),
        PollEvent::Added(_) => poll.phase is Adding,
    }
}

/// What a look does: a task whose session was cancelled ends, one past its deadline ends
/// its session; else it waits, second by second, and then asks.
pub open spec fn looked(
    context: PollContext,
    poll: PollView,
    cancelled: bool,
    now: Moment,
) -> (PollView, ActionView) {
    let late = now.instant() >= context.deadline.instant();
    let end = PollView { phase: PhaseView::Ended, ..poll };
    match poll.phase {
        PhaseView::Start => if cancelled {
            (end, ActionView::End(None))
        } else if late {
            (end, ended(SsoStatus::Expired, "等待用户授权超时"@))
        } else {
            (PollView { phase: PhaseView::Waiting(0), ..poll }, ActionView::Look)
        },
        PhaseView::Waiting(slept) => if slept >= poll.interval || cancelled || late {
            (PollView { phase: PhaseView::BeforeAsk, ..poll }, ActionView::Look)
        } else {
            (poll, ActionView::Sleep)
        },
        PhaseView::BeforeAsk => if cancelled {
            (end, ActionView::End(None))
        } else {
            (PollView { phase: PhaseView::Asking, ..poll }, ActionView::Ask)
        },
        PhaseView::BeforeAdd(token) => if cancelled {
            (end, ActionView::End(None))
        } else {
            match token {
                Some(token) if token.len() > 0 => (
                    PollView { phase: PhaseView::Adding, ..poll },
                    ActionView::Add(credential_for(context, token)),
                ),
                _ => (end, ended(SsoStatus::Failed, "授权成功但未返回 Refresh Token"@)),
            }
        },
        _ => (poll, ActionView::Look),
    }
}

/// What the answer to a question for a token does.
pub open spec fn asked(
    poll: PollView,
    outcome: Result<CreateTokenPoll, String>,
) -> (PollView, ActionView) {
    let end = PollView { phase: PhaseView::Ended, ..poll };
    let again = PollView { phase: PhaseView::Start, ..poll };
    match outcome {
        Ok(CreateTokenPoll::Token(token)) => (
            PollView { phase: PhaseView::BeforeAdd(maybe_text(token.refresh_token)), ..poll },
            ActionView::Look,
        ),
        Ok(CreateTokenPoll::Pending) => (again, ActionView::Look),
        Ok(CreateTokenPoll::SlowDown) => (
            PollView {
                interval: (poll.interval + SLOW_DOWN_BACKOFF_SECS) as i64,
                phase: PhaseView::Start,
            },
            ActionView::Look,
        ),
        Ok(CreateTokenPoll::Expired) => (
            end,
            ended(SsoStatus::Expired, "设备码已过期，请重新发起"@),
        ),
        Ok(CreateTokenPoll::Denied) => (end, ended(SsoStatus::Denied, "用户拒绝了授权"@)),
        Err(error) => (end, ended(SsoStatus::Failed, "轮询失败: "@ + error@)),
    }
}

/// What an event does to the background task of a session.
pub open spec fn poll_step(context: PollContext, poll: PollView, event: PollEvent) -> (
    PollView,
    ActionView,
) {
    let end = PollView { phase: PhaseView::Ended, ..poll };
    match event {
        PollEvent::Looked { cancelled, now } => looked(context, poll, cancelled, now),
        PollEvent::Slept => (
            PollView {
                phase: PhaseView::Waiting(
                    match poll.phase {
                        PhaseView::Waiting(slept) => (slept + 1) as i64,
                        _ => 0,
                    },
                ),
                ..poll
            },
            ActionView::Look,
        ),
        PollEvent::Asked(outcome) => asked(poll, outcome),
        PollEvent::Added(outcome) => (
            end,
            match outcome {
                Ok(id) => ActionView::End(
                    Some(
                        UpdateView {
                            status: SsoStatus::Completed,
                            credential_id: Some(id),
                            error: None,
                        },
                    ),
                ),
                Err(error) => ended(SsoStatus::Failed, "添加凭据失败: "@ + error@),
            },
        ),
    }
}

/// A task that sees its session cancelled neither sleeps, nor asks for a token, nor adds a
/// credential: it ends, or looks once more and then ends.
pub proof fn law_cancelled_task_ends(
    context: PollContext,
    poll: PollView,
    first: Moment,
    second: Moment,
)
    requires
        can_happen(poll, PollEvent::Looked { cancelled: true, now: first }),
    ensures
        ({
            let (next, action) = poll_step(
                context,
                poll,
                PollEvent::Looked { cancelled: true, now: first },
            );
            ||| action == ActionView::End(None)
            ||| {
                &&& action == ActionView::Look
                &&& poll_step(
                    context,
                    next,
                    PollEvent::Looked { cancelled: true, now: second },
                ).1 == ActionView::End(None)
            }
        }),
{
}

/// A task that finds its deadline past before it waits ends its session as expired.
pub proof fn law_deadline_ends_the_session(context: PollContext, poll: PollView, at: Moment)
    requires
        poll.phase is Start,
        at.wf(),
        at.instant() >= context.deadline.instant(),
    ensures
        poll_step(context, poll, PollEvent::Looked { cancelled: false, now: at }).1 matches
            ActionView::End(Some(update)) && update.status == SsoStatus::Expired,
{
}

/// A task asks for a token only once it has waited as long as it has to, unless the session
/// was cancelled or has run out of time.
pub proof fn law_waits_before_asking(
    context: PollContext,
    poll: PollView,
    cancelled: bool,
    at: Moment,
)
    requires
        poll.phase is Waiting,
        poll_step(context, poll, PollEvent::Looked { cancelled, now: at }).0.phase is BeforeAsk,
    ensures
        poll.phase->Waiting_0 >= poll.interval || cancelled || at.instant()
            >= context.deadline.instant(),
{
}

/// A credential is added only for a token that was granted, with the regions that the
/// session was started with.
pub proof fn law_credential_matches_session(context: PollContext, poll: PollView, event: PollEvent)
    requires
        can_happen(poll, event),
        poll_step(context, poll, event).1 is Add,
    ensures
        poll.phase matches PhaseView::BeforeAdd(Some(token)) && token.len() > 0
            && poll_step(context, poll, event).1->Add_0 == credential_for(context, token),
{
}

/// The end of a session with a status and a reason.
fn end_with(status: SsoStatus, reason: &str) -> (r: PollAction)
    ensures
        r@ == ended(status, reason@),
{
    PollAction::End(
        Some(SsoUpdate { status, credential_id: None, error: Some(reason.to_owned()) }),
    )
}

impl Poll {
    /// The background task of a session, before it waits for the first time.
    pub fn new(context: &PollContext) -> (r: Poll)
        ensures
            r@ == (PollView { interval: context.interval, phase: PhaseView::Start }),
    {
        Poll { interval: context.interval, phase: Phase::Start }
    }

    /// What a look does.
    fn after_look(&mut self, context: &PollContext, cancelled: bool, now: Moment) -> (r: PollAction)
        requires
            now.wf(),
            context.deadline.wf(),
            old(self).phase is Start || old(self).phase is Waiting || old(self).phase is BeforeAsk
                || old(self).phase is BeforeAdd,
        ensures
            (final(self)@, r@) == looked(*context, old(self)@, cancelled, now),
    {
        let late = now.reached(context.deadline);
        match &self.phase {
            Phase::Start => {
                if cancelled {
                    self.phase = Phase::Ended;
                    PollAction::End(None)
                } else if late {
                    self.phase = Phase::Ended;
                    end_with(SsoStatus::Expired, "等待用户授权超时")
                } else {
                    self.phase = Phase::Waiting(0);
                    PollAction::Look
                }
            },
            Phase::Waiting(slept) => {
                if *slept >= self.interval || cancelled || late {
                    self.phase = Phase::BeforeAsk;
                    PollAction::Look
                } else {
                    PollAction::Sleep
                }
            },
            Phase::BeforeAsk => {
                if cancelled {
                    self.phase = Phase::Ended;
                    PollAction::End(None)
                } else {
                    self.phase = Phase::Asking;
                    PollAction::Ask
                }
            },
            Phase::BeforeAdd(token) => {
                if cancelled {
                    self.phase = Phase::Ended;
                    return PollAction::End(None);
                }
                let token = copy_maybe(token);
                match token {
                    Some(token) if !token.as_str().is_empty() => {
                        self.phase = Phase::Adding;
                        PollAction::Add(
                            NewCredential {
                                auth_method: "idc".to_owned(),
                                refresh_token: token,
                                client_id: context.client_id.clone(),
                                client_secret: context.client_secret.clone(),
                                auth_region: context.auth_region.clone(),
                                api_region: context.api_region.clone(),
                                priority: context.priority,
                                endpoint: copy_maybe(&context.endpoint),
                            },
                        )
                    },
                    _ => {
                        self.phase = Phase::Ended;
                        end_with(SsoStatus::Failed, "授权成功但未返回 Refresh Token")
                    },
                }
            },
            _ => PollAction::Look,
        }
    }

    /// What the answer to a question for a token does.
    fn after_ask(&mut self, outcome: Result<CreateTokenPoll, String>) -> (r: PollAction)
        requires
            outcome matches Ok(CreateTokenPoll::SlowDown) ==> old(self).interval <= i64::MAX
                - SLOW_DOWN_BACKOFF_SECS,
        ensures
            (final(self)@, r@) == asked(old(self)@, outcome),
    {
        match outcome {
            Ok(CreateTokenPoll::Token(token)) => {
                let granted: CreateTokenResponse = *token;
                self.phase = Phase::BeforeAdd(granted.refresh_token);
                PollAction::Look
            },
            Ok(CreateTokenPoll::Pending) => {
                self.phase = Phase::Start;
                PollAction::Look
            },
            Ok(CreateTokenPoll::SlowDown) => {
                self.interval = self.interval + SLOW_DOWN_BACKOFF_SECS;
                self.phase = Phase::Start;
                PollAction::Look
            },
            Ok(CreateTokenPoll::Expired) => {
                self.phase = Phase::Ended;
                end_with(SsoStatus::Expired, "设备码已过期，请重新发起")
            },
            Ok(CreateTokenPoll::Denied) => {
                self.phase = Phase::Ended;
                end_with(SsoStatus::Denied, "用户拒绝了授权")
            },
            Err(error) => {
                self.phase = Phase::Ended;
                end_with(SsoStatus::Failed, join2("轮询失败: ", error.as_str()).as_str())
            },
        }
    }

    /// Takes what happened, and says what to do next.
    pub fn step(&mut self, context: &PollContext, event: PollEvent) -> (r: PollAction)
        requires
            context.deadline.wf(),
            can_happen(old(self)@, event),
        ensures
            (final(self)@, r@) == poll_step(*context, old(self)@, event),
    {
        match event {
            PollEvent::Looked { cancelled, now } => self.after_look(context, cancelled, now),
            PollEvent::Slept => {
                let slept: i64 = match self.phase {
                    Phase::Waiting(slept) => slept + 1,
                    _ => 0,
                };
                self.phase = Phase::Waiting(slept);
                PollAction::Look
            },
            PollEvent::Asked(outcome) => self.after_ask(outcome),
            PollEvent::Added(outcome) => {
                self.phase = Phase::Ended;
                match outcome {
                    Ok(id) => PollAction::End(
                        Some(
                            SsoUpdate {
                                status: SsoStatus::Completed,
                                credential_id: Some(id),
                                error: None,
                            },
                        ),
                    ),
                    Err(error) => end_with(
                        SsoStatus::Failed,
                        join2("添加凭据失败: ", error.as_str()).as_str(),
                    ),
                }
            },
        }
    }
}

} // verus!
