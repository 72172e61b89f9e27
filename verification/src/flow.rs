//! The authorization-flow coordinator.
//!
//! `start` issues a sign-in link and remembers its anti-forgery state.
//! `callback` checks the provider's redirect against what was issued and
//! hands out the token request to perform. The caller performs it and
//! reports what came back; the steps that follow store the token, prepare
//! the session event, and choose the reply.

use crate::csrf::{generate_state, is_auth_state};
use crate::event::{
    create_user_event, fresh_event_id, payload_text, SessionEvent, SessionEventView, UserProfile,
    EVENT_ID_BOUND,
};
use crate::http::{plain_reply, redirect_reply, HttpReply, HttpReplyView};
use crate::provider::{authorization_url, ProviderConfig, ProviderView};
use crate::service::redis::{notify_result, NotifyError, PublishOutcome};
use crate::service::token_storage::{slot_after_set, TokenStorage};
use vstd::prelude::*;

verus! {

/// Why a callback is turned away.
#[derive(Debug, Clone, Copy, PartialEq, Eq, Structural)]
pub enum FlowError {
    /// The redirect carries no authorization code.
    MissingCode,
    /// The redirect's state is none of the outstanding ones.
    StateMismatch,
    /// The provider did not grant a token for the code.
    TokenExchangeFailed,
}

/// The status code that reports `error`.
pub open spec fn error_status(error: FlowError) -> u16 {
    match error {
        FlowError::MissingCode => 400,
        FlowError::StateMismatch => 403,
        FlowError::TokenExchangeFailed => 502,
    }
}

/// The short text that reports `error`.
pub open spec fn error_message(error: FlowError) -> Seq<char> {
    match error {
        FlowError::MissingCode => "Missing authorization code"@,
        FlowError::StateMismatch => "State mismatch"@,
        FlowError::TokenExchangeFailed => "Token exchange failed"@,
    }
}

/// The reply that reports `error`.
pub open spec fn error_reply(error: FlowError) -> HttpReplyView {
    plain_reply(error_status(error), error_message(error))
}

impl FlowError {
    /// The reply that reports this error to the HTTP client.
    pub fn reply(&self) -> (reply: HttpReply)
        ensures
            reply@ == error_reply(*self),
    {
        match self {
            FlowError::MissingCode => HttpReply::plain(400, "Missing authorization code"),
            FlowError::StateMismatch => HttpReply::plain(403, "State mismatch"),
            FlowError::TokenExchangeFailed => HttpReply::plain(502, "Token exchange failed"),
        }
    }
}

/// Whether a state issued at `issued_at` can still be redeemed at `now`:
/// no more than `ttl` has passed since. A clock that stepped back behind
/// the time of issue expires nothing.
pub open spec fn is_live(issued_at: u64, now: u64, ttl: u64) -> bool {
    now - issued_at <= ttl
}

/// The part of `pending` that can still be redeemed at `now`.
pub open spec fn live_part(pending: Map<Seq<char>, u64>, now: u64, ttl: u64) -> Map<Seq<char>, u64> {
    Map::new(
        |state: Seq<char>| pending.contains_key(state) && is_live(pending[state], now, ttl),
        |state: Seq<char>| pending[state],
    )
}

/// Whether `state` was issued, was not redeemed, and has not expired.
pub open spec fn is_outstanding(pending: Map<Seq<char>, u64>, state: Seq<char>, now: u64, ttl: u64) -> bool {
    pending.contains_key(state) && is_live(pending[state], now, ttl)
}

/// The verdict on a callback: the code must be there, and the state must
/// be an outstanding one.
pub open spec fn callback_verdict(
    pending: Map<Seq<char>, u64>,
    ttl: u64,
    code: Option<Seq<char>>,
    state: Option<Seq<char>>,
    now: u64,
) -> Result<(), FlowError> {
    if code is None {
        Err(FlowError::MissingCode)
    } else if state is None || !is_outstanding(pending, state.unwrap(), now, ttl) {
        Err(FlowError::StateMismatch)
    } else {
        Ok(())
    }
}

/// The outstanding states after a callback: an accepted callback uses its
/// state up, a rejected one changes nothing.
pub open spec fn pending_after_callback(
    pending: Map<Seq<char>, u64>,
    ttl: u64,
    code: Option<Seq<char>>,
    state: Option<Seq<char>>,
    now: u64,
) -> Map<Seq<char>, u64> {
    if callback_verdict(pending, ttl, code, state, now) is Ok {
        pending.remove(state.unwrap())
    } else {
        pending
    }
}

/// The parameters of the redirect that the provider sends the user back
/// with.
#[derive(Debug, Clone)]
pub struct CallbackQuery {
    pub code: Option<String>,
    pub state: Option<String>,
}

impl CallbackQuery {
    /// The code of the query, as a sequence of characters.
    pub open spec fn code_view(&self) -> Option<Seq<char>> {
        match self.code {
            Some(code) => Some(code@),
            None => None,
        }
    }

    /// The state of the query, as a sequence of characters.
    pub open spec fn state_view(&self) -> Option<Seq<char>> {
        match self.state {
            Some(state) => Some(state@),
            None => None,
        }
    }
}

/// What a [`TokenRequest`] holds.
pub struct TokenRequestView {
    pub token_url: Seq<char>,
    pub grant_type: Seq<char>,
    pub code: Seq<char>,
    pub client_id: Seq<char>,
    pub client_secret: Seq<char>,
    pub redirect_uri: Seq<char>,
}

/// The request that exchanges an authorization code for an access token:
/// where to post it, and the fields of its form.
#[derive(Clone)]
pub struct TokenRequest {
    pub token_url: String,
    pub grant_type: String,
    pub code: String,
    pub client_id: String,
    pub client_secret: String,
    pub redirect_uri: String,
}

impl View for TokenRequest {
    type V = TokenRequestView;

    open spec fn view(&self) -> TokenRequestView {
        TokenRequestView {
            token_url: self.token_url@,
            grant_type: self.grant_type@,
            code: self.code@,
            client_id: self.client_id@,
            client_secret: self.client_secret@,
            redirect_uri: self.redirect_uri@,
        }
    }
}

/// The token request for `code` at `provider`.
pub open spec fn token_request_for(provider: ProviderView, code: Seq<char>) -> TokenRequestView {
    TokenRequestView {
        token_url: provider.token_url,
        grant_type: "authorization_code"@,
        code,
        client_id: provider.client_id,
        client_secret: provider.client_secret,
        redirect_uri: provider.redirect_url,
    }
}

/// What the provider's token endpoint answered.
#[derive(Clone)]
pub enum ExchangeOutcome {
    /// The provider granted a token.
    Granted { access_token: String },
    /// The provider refused the code, or could not be asked.
    Failed,
}

impl ExchangeOutcome {
    /// The token that was granted, if one was.
    pub open spec fn granted(&self) -> Option<Seq<char>> {
        match self {
            ExchangeOutcome::Granted { access_token } => Some(access_token@),
            ExchangeOutcome::Failed => None,
        }
    }
}

/// The token store's slot after an exchange: a granted token is written
/// to it, a failed exchange leaves it as it was.
pub open spec fn slot_after_exchange(slot: Option<Seq<char>>, granted: Option<Seq<char>>) -> Option<Seq<char>> {
    match granted {
        Some(token) => slot_after_set(slot, token),
        None => slot,
    }
}

/// The reply to a callback whose token was stored, given the notifier's
/// result: 200 where the event went out, 500 where it did not.
pub open spec fn publish_reply(result: Result<(), NotifyError>) -> HttpReplyView {
    match result {
        Ok(_) => plain_reply(200, "User Created Successfully!"@),
        Err(_) => plain_reply(500, "Failed to send event to Redis"@),
    }
}

/// A sign-in link and the state it carries.
#[derive(Debug, Clone)]
pub struct AuthorizationRequest {
    pub url: String,
    pub state: String,
}

impl AuthorizationRequest {
    /// The reply that sends the user to the provider.
    pub fn redirect(&self) -> (reply: HttpReply)
        ensures
            reply@ == redirect_reply(self.url@),
    {
        HttpReply::redirect(self.url.as_str())
    }
}

/// A state that was issued and not redeemed yet, with its time of issue.
struct PendingAttempt {
    state: String,
    issued_at: u64,
}

/// The mapping that a list of attempts stands for.
spec fn as_map(entries: Seq<PendingAttempt>) -> Map<Seq<char>, u64>
    decreases entries.len(),
{
    if entries.len() == 0 {
        Map::empty()
    } else {
        as_map(entries.drop_last()).insert(entries.last().state@, entries.last().issued_at)
    }
}

/// Whether one of `entries` is for `state`.
spec fn has_state(entries: Seq<PendingAttempt>, state: Seq<char>) -> bool {
    exists|j: int| 0 <= j < entries.len() && (#[trigger] entries[j]).state@ == state
}

/// Whether no state occurs twice in `entries`.
spec fn distinct(entries: Seq<PendingAttempt>) -> bool {
    forall|i: int, j: int|
        0 <= i < j < entries.len() ==> (#[trigger] entries[i]).state@ != (#[trigger] entries[j]).state@
}

/// The mapping of a list knows exactly the states of the list.
proof fn lemma_as_map_dom(entries: Seq<PendingAttempt>)
    ensures
        forall|state: Seq<char>| #[trigger]
            as_map(entries).contains_key(state) <==> has_state(entries, state),
    decreases entries.len(),
{
    if entries.len() > 0 {
        let init = entries.drop_last();
        let last = entries.last();
        lemma_as_map_dom(init);
        assert forall|state: Seq<char>| #[trigger]
            as_map(entries).contains_key(state) <==> has_state(entries, state) by {
            if has_state(entries, state) {
                let j = choose|j: int| 0 <= j < entries.len() && (#[trigger] entries[j]).state@ == state;
                if j < entries.len() - 1 {
                    assert(init[j].state@ == state);
                    assert(has_state(init, state));
                    assert(as_map(init).contains_key(state));
                }
            }
            if as_map(entries).contains_key(state) {
                if state == last.state@ {
                    assert(entries[entries.len() - 1].state@ == state);
                } else {
                    assert(as_map(init).contains_key(state));
                    assert(has_state(init, state));
                    let j = choose|j: int| 0 <= j < init.len() && (#[trigger] init[j]).state@ == state;
                    assert(entries[j].state@ == state);
                }
            }
        }
    }
}

/// An entry for a state that the list does not know can be added at its
/// end: no state occurs twice then, and the mapping gains the entry.
proof fn lemma_push_fresh(entries: Seq<PendingAttempt>, entry: PendingAttempt)
    requires
        distinct(entries),
        !as_map(entries).contains_key(entry.state@),
    ensures
        distinct(entries.push(entry)),
        as_map(entries.push(entry)) == as_map(entries).insert(entry.state@, entry.issued_at),
{
    let grown = entries.push(entry);
    lemma_as_map_dom(entries);
    assert(grown.drop_last() =~= entries);
    assert forall|i: int, j: int| 0 <= i < j < grown.len() implies (#[trigger] grown[i]).state@ != (
    #[trigger] grown[j]).state@ by {
        if j == entries.len() {
            if grown[i].state@ == entry.state@ {
                assert(entries[i].state@ == entry.state@);
                assert(has_state(entries, entry.state@));
            }
        } else {
            assert(entries[i].state@ != entries[j].state@);
        }
    }
}

/// The time of issue that `pending` has for `state`, if any.
spec fn time_of_issue(pending: Map<Seq<char>, u64>, state: Seq<char>) -> Option<u64> {
    if pending.contains_key(state) {
        Some(pending[state])
    } else {
        None
    }
}

/// Whether a state issued at `issued_at` can still be redeemed at `now`.
fn live_at(issued_at: u64, now: u64, ttl: u64) -> (live: bool)
    ensures
        live == is_live(issued_at, now, ttl),
{
    now <= issued_at || now - issued_at <= ttl
}

/// The time at which `state` was issued, if `entries` know it.
fn find(entries: &Vec<PendingAttempt>, state: &String) -> (found: Option<u64>)
    ensures
        found == time_of_issue(as_map(entries@), state@),
{
    let mut found: Option<u64> = None;
    let mut i: usize = 0;
    while i < entries.len()
        invariant
            i <= entries.len(),
            found == time_of_issue(as_map(entries@.take(i as int)), state@),
        decreases entries.len() - i,
    {
        proof {
            assert(entries@.take(i + 1).drop_last() =~= entries@.take(i as int));
        }
        if entries[i].state == *state {
            found = Some(entries[i].issued_at);
        }
        i += 1;
    }
    proof {
        assert(entries@.take(i as int) =~= entries@);
    }
    found
}

/// Copies `entries` without the one of `skip` and, where `purge` is set,
/// without the expired ones.
fn sweep(entries: &Vec<PendingAttempt>, skip: &String, purge: bool, now: u64, ttl: u64) -> (kept: Vec<
    PendingAttempt,
>)
    requires
        distinct(entries@),
    ensures
        distinct(kept@),
        purge ==> as_map(kept@) == live_part(as_map(entries@), now, ttl).remove(skip@),
        !purge ==> as_map(kept@) == as_map(entries@).remove(skip@),
{
    let mut kept: Vec<PendingAttempt> = Vec::new();
    let mut i: usize = 0;
    assert(as_map(kept@) =~= live_part(as_map(entries@.take(0)), now, ttl).remove(skip@));
    assert(as_map(kept@) =~= as_map(entries@.take(0)).remove(skip@));
    while i < entries.len()
        invariant
            i <= entries.len(),
            distinct(entries@),
            distinct(kept@),
            purge ==> as_map(kept@) == live_part(as_map(entries@.take(i as int)), now, ttl).remove(
                skip@,
            ),
            !purge ==> as_map(kept@) == as_map(entries@.take(i as int)).remove(skip@),
        decreases entries.len() - i,
    {
        let entry = &entries[i];
        let ghost seen = entries@.take(i as int);
        let ghost grown = as_map(seen).insert(entry.state@, entry.issued_at);
        proof {
            assert(entries@.take(i + 1).drop_last() =~= seen);
            assert(as_map(entries@.take(i + 1)) == grown);
            lemma_as_map_dom(seen);
            if has_state(seen, entry.state@) {
                let j = choose|j: int| 0 <= j < seen.len() && (#[trigger] seen[j]).state@ == entry.state@;
                assert(entries@[j].state@ == entries@[i as int].state@);
            }
            assert(!as_map(seen).contains_key(entry.state@));
        }
        if entry.state == *skip {
            proof {
                assert(as_map(seen).remove(skip@) =~= grown.remove(skip@));
                assert(live_part(as_map(seen), now, ttl).remove(skip@) =~= live_part(
                    grown,
                    now,
                    ttl,
                ).remove(skip@));
            }
        } else if !purge || live_at(entry.issued_at, now, ttl) {
            let copy = PendingAttempt { state: entry.state.clone(), issued_at: entry.issued_at };
            proof {
                lemma_push_fresh(kept@, copy);
                if purge {
                    assert(live_part(as_map(seen), now, ttl).remove(skip@).insert(
                        entry.state@,
                        entry.issued_at,
                    ) =~= live_part(grown, now, ttl).remove(skip@));
                } else {
                    assert(as_map(seen).remove(skip@).insert(entry.state@, entry.issued_at)
                        =~= grown.remove(skip@));
                }
            }
            kept.push(copy);
        } else {
            proof {
                assert(live_part(as_map(seen), now, ttl).remove(skip@) =~= live_part(
                    grown,
                    now,
                    ttl,
                ).remove(skip@));
            }
        }
        i += 1;
    }
    proof {
        assert(entries@.take(i as int) =~= entries@);
    }
    kept
}

/// The coordinator of the authorization flow: it knows which states are
/// outstanding, and for how long a state can be redeemed.
pub struct Coordinator {
    ttl: u64,
    pending: Vec<PendingAttempt>,
}

impl Coordinator {
    #[verifier::type_invariant]
    spec fn no_state_twice(self) -> bool {
        distinct(self.pending@)
    }

    /// The states that were issued and not redeemed, each with its time of
    /// issue.
    pub closed spec fn pending(&self) -> Map<Seq<char>, u64> {
        as_map(self.pending@)
    }

    /// For how long a state can be redeemed.
    pub closed spec fn lifetime(&self) -> u64 {
        self.ttl
    }

    /// A coordinator with no outstanding state, whose states can be
    /// redeemed for `ttl` units of the caller's clock.
    pub fn new(ttl: u64) -> (coordinator: Coordinator)
        ensures
            coordinator.pending() == Map::<Seq<char>, u64>::empty(),
            coordinator.lifetime() == ttl,
    {
        Coordinator { ttl, pending: Vec::new() }
    }

    /// Whether `state` is outstanding at `now`.
    pub fn outstanding(&self, state: &str, now: u64) -> (yes: bool)
        ensures
            yes == is_outstanding(self.pending(), state@, now, self.lifetime()),
    {
        let wanted = state.to_owned();
        match find(&self.pending, &wanted) {
            Some(issued_at) => live_at(issued_at, now, self.ttl),
            None => false,
        }
    }

    /// Issues the sign-in link that carries `state`, and remembers the
    /// state as issued at `now`. States that have expired by `now` are
    /// forgotten on the way.
    pub fn issue(&mut self, provider: &ProviderConfig, state: String, now: u64) -> (request:
        AuthorizationRequest)
        ensures
            request.state@ == state@,
            request.url@ == authorization_url(
                provider@.auth_url,
                provider@.client_id,
                provider@.redirect_url,
                state@,
            ),
            final(self).pending() == live_part(old(self).pending(), now, old(self).lifetime()).insert(
                state@,
                now,
            ),
            final(self).lifetime() == old(self).lifetime(),
    {
        proof {
            use_type_invariant(&*self);
        }
        let url = provider.sign_in_link(state.as_str());
        let mut kept = sweep(&self.pending, &state, true, now, self.ttl);
        let attempt = PendingAttempt { state: state.clone(), issued_at: now };
        proof {
            lemma_push_fresh(kept@, attempt);
            assert(as_map(kept@.push(attempt)) =~= live_part(
                old(self).pending(),
                now,
                old(self).lifetime(),
            ).insert(state@, now));
        }
        kept.push(attempt);
        self.pending = kept;
        AuthorizationRequest { url, state }
    }

    /// Starts an authorization attempt: draws a fresh state, and issues
    /// the sign-in link that carries it.
    pub fn start(&mut self, provider: &ProviderConfig, now: u64) -> (request: AuthorizationRequest)
        ensures
            is_auth_state(request.state@),
            request.url@ == authorization_url(
                provider@.auth_url,
                provider@.client_id,
                provider@.redirect_url,
                request.state@,
            ),
            final(self).pending() == live_part(old(self).pending(), now, old(self).lifetime()).insert(
                request.state@,
                now,
            ),
            final(self).lifetime() == old(self).lifetime(),
    {
        let state = generate_state();
        self.issue(provider, state, now)
    }

    /// Checks the provider's redirect.
    ///
    /// A query without a code is turned away as `MissingCode`; one whose
    /// state is missing, unknown, redeemed or expired as `StateMismatch`.
    /// Neither changes anything. An accepted callback uses its state up
    /// and yields the step that holds the token request to perform.
    pub fn callback(&mut self, provider: &ProviderConfig, query: &CallbackQuery, now: u64) -> (res:
        Result<ExchangeStep, FlowError>)
        ensures
            match res {
                Ok(step) => {
                    &&& callback_verdict(
                        old(self).pending(),
                        old(self).lifetime(),
                        query.code_view(),
                        query.state_view(),
                        now,
                    ) is Ok
                    &&& step@ == token_request_for(provider@, query.code_view().unwrap())
                },
                Err(e) => callback_verdict(
                    old(self).pending(),
                    old(self).lifetime(),
                    query.code_view(),
                    query.state_view(),
                    now,
                ) == Err::<(), FlowError>(e),
            },
            final(self).pending() == pending_after_callback(
                old(self).pending(),
                old(self).lifetime(),
                query.code_view(),
                query.state_view(),
                now,
            ),
            final(self).lifetime() == old(self).lifetime(),
    {
        proof {
            use_type_invariant(&*self);
        }
        let code = match &query.code {
            Some(code) => code,
            None => return Err(FlowError::MissingCode),
        };
        let state = match &query.state {
            Some(state) => state,
            None => return Err(FlowError::StateMismatch),
        };
        let redeemable = match find(&self.pending, state) {
            Some(issued_at) => live_at(issued_at, now, self.ttl),
            None => false,
        };
        if !redeemable {
            return Err(FlowError::StateMismatch);
        }
        self.pending = sweep(&self.pending, state, false, now, self.ttl);
        let request = TokenRequest {
            token_url: provider.token_url().to_owned(),
            grant_type: "authorization_code".to_owned(),
            code: code.clone(),
            client_id: provider.client_id().to_owned(),
            client_secret: provider.client_secret().to_owned(),
            redirect_uri: provider.redirect_url().to_owned(),
        };
        Ok(ExchangeStep { request })
    }
}

/// An accepted callback that waits for its token.
pub struct ExchangeStep {
    request: TokenRequest,
}

impl View for ExchangeStep {
    type V = TokenRequestView;

    closed spec fn view(&self) -> TokenRequestView {
        self.request@
    }
}

impl ExchangeStep {
    /// The token request to perform.
    pub fn request(&self) -> (request: &TokenRequest)
        ensures
            request@ == self@,
    {
        &self.request
    }

    /// Takes what the token endpoint answered, with `id` as the event's
    /// identifier.
    ///
    /// A granted token is written to `store`, and the step that follows
    /// holds the `create_user` event for `profile`. A failed exchange is
    /// reported as `TokenExchangeFailed` and leaves the store as it was.
    pub fn complete_with_id(
        self,
        outcome: ExchangeOutcome,
        profile: &UserProfile,
        store: &mut TokenStorage,
        id: u32,
    ) -> (res: Result<PublishStep, FlowError>)
        ensures
            final(store)@ == slot_after_exchange(old(store)@, outcome.granted()),
            match res {
                Ok(step) => outcome.granted() is Some && step@ == create_user_event(
                    id,
                    profile.username@,
                    profile.email@,
                ),
                Err(e) => outcome.granted() is None && e == FlowError::TokenExchangeFailed,
            },
    {
        match outcome {
            ExchangeOutcome::Granted { access_token } => {
                store.set(access_token);
                let event = SessionEvent::create_user(
                    id,
                    profile.username.as_str(),
                    profile.email.as_str(),
                );
                Ok(PublishStep { event })
            },
            ExchangeOutcome::Failed => Err(FlowError::TokenExchangeFailed),
        }
    }

    /// Takes what the token endpoint answered, and draws the identifier of
    /// the event.
    pub fn complete(self, outcome: ExchangeOutcome, profile: &UserProfile, store: &mut TokenStorage) -> (res:
        Result<PublishStep, FlowError>)
        ensures
            final(store)@ == slot_after_exchange(old(store)@, outcome.granted()),
            match res {
                Ok(step) => {
                    &&& outcome.granted() is Some
                    &&& step@.id < EVENT_ID_BOUND
                    &&& step@ == create_user_event(step@.id, profile.username@, profile.email@)
                },
                Err(e) => outcome.granted() is None && e == FlowError::TokenExchangeFailed,
            },
    {
        let id = fresh_event_id();
        self.complete_with_id(outcome, profile, store, id)
    }
}

/// A callback whose token is stored and whose event waits to go out.
pub struct PublishStep {
    event: SessionEvent,
}

impl View for PublishStep {
    type V = SessionEventView;

    closed spec fn view(&self) -> SessionEventView {
        self.event@
    }
}

impl PublishStep {
    /// The event to publish.
    pub fn event(&self) -> (event: &SessionEvent)
        ensures
            event@ == self@,
    {
        &self.event
    }

    /// Takes the notifier's result and chooses the reply: 200 where the
    /// event went out, 500 where it did not. The token store is out of this
    /// step's reach, so what was stored stays stored.
    pub fn finish(self, result: Result<(), NotifyError>) -> (reply: HttpReply)
        ensures
            reply@ == publish_reply(result),
    {
        match result {
            Ok(_) => HttpReply::plain(200, "User Created Successfully!"),
            Err(_) => HttpReply::plain(500, "Failed to send event to Redis"),
        }
    }
}

/// Everything that the handling of one callback depends on: what the
/// coordinator and the token store hold, what the redirect carries, and
/// what the provider and the message backend are going to answer.
pub struct CallbackCase {
    pub provider: ProviderView,
    pub pending: Map<Seq<char>, u64>,
    pub ttl: u64,
    pub code: Option<Seq<char>>,
    pub state: Option<Seq<char>>,
    pub now: u64,
    pub slot: Option<Seq<char>>,
    pub granted: Option<Seq<char>>,
    pub id: u32,
    pub username: Seq<char>,
    pub email: Seq<char>,
    pub publish: PublishOutcome,
}

/// What the handling of one callback comes to: the reply, what the
/// coordinator and the token store hold afterwards, the token request
/// that was handed out, and the payload that was handed to the notifier.
pub struct CallbackCourse {
    pub reply: HttpReplyView,
    pub pending: Map<Seq<char>, u64>,
    pub slot: Option<Seq<char>>,
    pub exchange: Option<TokenRequestView>,
    pub published: Option<Seq<char>>,
}

/// The course of a callback whose steps are taken one after the other:
/// [`Coordinator::callback`], then [`ExchangeStep::complete_with_id`] with
/// the provider's answer, then [`PublishStep::finish`] with the notifier's
/// result. A step that fails ends the course with the reply for its error.
pub open spec fn callback_course(case: CallbackCase) -> CallbackCourse {
    match callback_verdict(case.pending, case.ttl, case.code, case.state, case.now) {
        Err(e) => CallbackCourse {
            reply: error_reply(e),
            pending: pending_after_callback(case.pending, case.ttl, case.code, case.state, case.now),
            slot: case.slot,
            exchange: None,
            published: None,
        },
        Ok(_) => {
            let request = token_request_for(case.provider, case.code.unwrap());
            let pending = pending_after_callback(
                case.pending,
                case.ttl,
                case.code,
                case.state,
                case.now,
            );
            let slot = slot_after_exchange(case.slot, case.granted);
            match case.granted {
                None => CallbackCourse {
                    reply: error_reply(FlowError::TokenExchangeFailed),
                    pending,
                    slot,
                    exchange: Some(request),
                    published: None,
                },
                Some(_) => CallbackCourse {
                    reply: publish_reply(notify_result(case.publish)),
                    pending,
                    slot,
                    exchange: Some(request),
                    published: Some(
                        payload_text(create_user_event(case.id, case.username, case.email)),
                    ),
                },
            }
        },
    }
}

/// A callback without a code is answered with the reply for `MissingCode`.
/// No token request is handed out, nothing reaches the notifier, and the
/// token store and the outstanding states stay as they were.
pub proof fn lemma_missing_code_reaches_nothing(case: CallbackCase)
    requires
        case.code is None,
    ensures
        callback_verdict(case.pending, case.ttl, case.code, case.state, case.now) == Err::<
            (),
            FlowError,
        >(FlowError::MissingCode),
        callback_course(case).reply == error_reply(FlowError::MissingCode),
        callback_course(case).exchange is None,
        callback_course(case).published is None,
        callback_course(case).slot == case.slot,
        callback_course(case).pending == case.pending,
{
}

/// A callback with a code whose state is not an outstanding one is
/// answered with the reply for `StateMismatch`. No token request is handed
/// out, and nothing else changes either.
pub proof fn lemma_unknown_state_is_not_exchanged(case: CallbackCase)
    requires
        case.code is Some,
        case.state is None || !is_outstanding(case.pending, case.state.unwrap(), case.now, case.ttl),
    ensures
        callback_verdict(case.pending, case.ttl, case.code, case.state, case.now) == Err::<
            (),
            FlowError,
        >(FlowError::StateMismatch),
        callback_course(case).reply == error_reply(FlowError::StateMismatch),
        callback_course(case).exchange is None,
        callback_course(case).published is None,
        callback_course(case).slot == case.slot,
        callback_course(case).pending == case.pending,
{
}

/// Where the exchange grants a token and the notifier then fails, the
/// reply has status 500 and the token store holds the granted token all
/// the same.
pub proof fn lemma_token_kept_when_notifier_fails(case: CallbackCase)
    requires
        callback_verdict(case.pending, case.ttl, case.code, case.state, case.now) is Ok,
        case.granted is Some,
        case.publish != PublishOutcome::Delivered,
    ensures
        callback_course(case).slot == case.granted,
        callback_course(case).reply.status == 500,
        callback_course(case).published is Some,
{
}

/// A state is redeemed once: after an accepted callback, a second callback
/// with the same state is turned away as `StateMismatch`, whatever its code
/// and whenever it comes.
pub proof fn lemma_state_redeemed_once(case: CallbackCase, code: Seq<char>, later: u64)
    requires
        callback_verdict(case.pending, case.ttl, case.code, case.state, case.now) is Ok,
    ensures
        callback_verdict(callback_course(case).pending, case.ttl, Some(code), case.state, later)
            == Err::<(), FlowError>(FlowError::StateMismatch),
{
}

/// A state that was just issued is outstanding, and stays so for as long
/// as the coordinator's lifetime says.
pub proof fn lemma_issued_state_is_outstanding(
    pending: Map<Seq<char>, u64>,
    ttl: u64,
    state: Seq<char>,
    now: u64,
    later: u64,
)
    requires
        later - now <= ttl,
    ensures
        is_outstanding(live_part(pending, now, ttl).insert(state, now), state, later, ttl),
{
}

} // verus!
