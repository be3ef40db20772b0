//! Token introspection against the identity provider, with a cache in front.
//!
//! The cache store and the provider are reached by the caller. The functions
//! here decide: each returns a `Step` that says what to do next, and takes the
//! answer to the previous step. A cache that cannot be read counts as a miss,
//! and a cache that cannot be written never fails a call.

pub use crate::claims::{decode_introspection_result, TokenInfo};

use crate::claims::{decoded, Claims, DecodeError, DecodeFailure};
use crate::context::{Context, ContextModel};
use crate::header::{second_field, second_field_of};
use crate::json::{json_model, parse_json, parsed_json};
use vstd::prelude::*;
use vstd::string::*;

verus! {

/// Why an introspection failed.
#[derive(Clone, Debug, PartialEq, Eq)]
pub enum IntrospectionError {
    /// The request carries no `Authorization` header.
    MissingAuthHeader,
    /// The header has no second field.
    MalformedAuthHeader,
    /// The cached text is not JSON.
    CorruptCacheEntry,
    /// The provider could not be reached or refused; the text says why.
    ProviderUnavailable(String),
    /// The provider's response is not JSON.
    CorruptProviderResponse,
    /// The document, cached or fresh, does not decode.
    Decode(DecodeError),
}

/// The model of an `IntrospectionError`.
pub enum IntrospectionFailure {
    MissingAuthHeader,
    MalformedAuthHeader,
    CorruptCacheEntry,
    ProviderUnavailable(Seq<char>),
    CorruptProviderResponse,
    Decode(DecodeFailure),
}

impl View for IntrospectionError {
    type V = IntrospectionFailure;

    open spec fn view(&self) -> IntrospectionFailure {
        match *self {
            IntrospectionError::MissingAuthHeader => IntrospectionFailure::MissingAuthHeader,
            IntrospectionError::MalformedAuthHeader => IntrospectionFailure::MalformedAuthHeader,
            IntrospectionError::CorruptCacheEntry => IntrospectionFailure::CorruptCacheEntry,
            IntrospectionError::ProviderUnavailable(text) => IntrospectionFailure::ProviderUnavailable(
                text@,
            ),
            IntrospectionError::CorruptProviderResponse => IntrospectionFailure::CorruptProviderResponse,
            IntrospectionError::Decode(error) => IntrospectionFailure::Decode(error@),
        }
    }
}

impl IntrospectionFailure {
    /// The failure in words, for the service's own records.
    pub open spec fn message(self) -> Seq<char> {
        match self {
            IntrospectionFailure::MissingAuthHeader => "The Authorization header not found"@,
            IntrospectionFailure::MalformedAuthHeader => "The Authorization header has invalid format"@,
            IntrospectionFailure::CorruptCacheEntry => "The cached introspection result is not JSON"@,
            IntrospectionFailure::ProviderUnavailable(text) => text,
            IntrospectionFailure::CorruptProviderResponse => "The introspection response is not JSON"@,
            IntrospectionFailure::Decode(failure) => failure.message(),
        }
    }
}

impl IntrospectionError {
    /// What a client is told: the same for every failure, so that nothing of
    /// the provider or of the cache store shows.
    pub fn client_message(&self) -> (text: &'static str)
        ensures
            text@ == "authorization failed"@,
    {
        "authorization failed"
    }

    /// The failure in words, for the service's own records.
    pub fn message(&self) -> (text: String)
        ensures
            text@ == self@.message(),
    {
        match self {
            IntrospectionError::MissingAuthHeader => String::from_str(
                "The Authorization header not found",
            ),
            IntrospectionError::MalformedAuthHeader => String::from_str(
                "The Authorization header has invalid format",
            ),
            IntrospectionError::CorruptCacheEntry => String::from_str(
                "The cached introspection result is not JSON",
            ),
            IntrospectionError::ProviderUnavailable(text) => text.clone(),
            IntrospectionError::CorruptProviderResponse => String::from_str(
                "The introspection response is not JSON",
            ),
            IntrospectionError::Decode(error) => error.message(),
        }
    }
}

/// The introspection call to make: a POST to `url` with the `Authorization`
/// header `authorization` and the form field `token`.
#[derive(Clone, Debug, PartialEq, Eq)]
pub struct ProviderRequest {
    pub url: String,
    pub authorization: String,
    pub token: String,
}

/// The model of a `ProviderRequest`.
pub struct ProviderRequestModel {
    pub url: Seq<char>,
    pub authorization: Seq<char>,
    pub token: Seq<char>,
}

impl View for ProviderRequest {
    type V = ProviderRequestModel;

    open spec fn view(&self) -> ProviderRequestModel {
        ProviderRequestModel {
            url: self.url@,
            authorization: self.authorization@,
            token: self.token@,
        }
    }
}

/// What the caller is to do next.
#[derive(Debug, PartialEq, Eq)]
pub enum Step {
    /// Read `key` from the cache store and report with `cache_answered`.
    ReadCache { token: String, key: String },
    /// Send `request` to the provider and report with
    /// `introspect_and_persist_token`.
    AskProvider { token: String, request: ProviderRequest },
    /// Store `value` under `key`, to expire at UNIX second `expires_at`, and
    /// report with `cache_written`.
    WriteCache { key: String, value: String, expires_at: usize, info: TokenInfo },
    /// The call is over.
    Done(Result<TokenInfo, IntrospectionError>),
}

/// The model of a `Step`.
pub enum StepModel {
    ReadCache { token: Seq<char>, key: Seq<char> },
    AskProvider { token: Seq<char>, request: ProviderRequestModel },
    WriteCache { key: Seq<char>, value: Seq<char>, expires_at: int, info: Claims },
    Done(Result<Claims, IntrospectionFailure>),
}

/// The model of an introspection result.
pub open spec fn outcome(r: Result<TokenInfo, IntrospectionError>) -> Result<
    Claims,
    IntrospectionFailure,
> {
    match r {
        Ok(info) => Ok(info@),
        Err(error) => Err(error@),
    }
}

impl View for Step {
    type V = StepModel;

    open spec fn view(&self) -> StepModel {
        match *self {
            Step::ReadCache { token, key } => StepModel::ReadCache { token: token@, key: key@ },
            Step::AskProvider { token, request } => StepModel::AskProvider {
                token: token@,
                request: request@,
            },
            Step::WriteCache { key, value, expires_at, info } => StepModel::WriteCache {
                key: key@,
                value: value@,
                expires_at: expires_at as int,
                info: info@,
            },
            Step::Done(r) => StepModel::Done(outcome(r)),
        }
    }
}

impl Step {
    /// Every record that the step carries lists no role twice.
    pub open spec fn wf(&self) -> bool {
        match *self {
            Step::WriteCache { info, .. } => info.wf(),
            Step::Done(Ok(info)) => info.wf(),
            _ => true,
        }
    }
}

/// The cache key of a token: the token itself behind a fixed prefix.
pub open spec fn cache_key(token: Seq<char>) -> Seq<char> {
    "user_token:"@ + token
}

/// The token that a request presents: the second field of its header.
pub open spec fn bearer_token(header: Option<Seq<char>>) -> Result<Seq<char>, IntrospectionFailure> {
    match header {
        None => Err(IntrospectionFailure::MissingAuthHeader),
        Some(text) => match second_field(text) {
            Some(token) => Ok(token),
            None => Err(IntrospectionFailure::MalformedAuthHeader),
        },
    }
}

/// The call that validates `token` with the provider.
pub open spec fn provider_request(context: ContextModel, token: Seq<char>) -> ProviderRequestModel {
    ProviderRequestModel {
        url: context.auth_base_url + "/oauth/v2/introspect"@,
        authorization: "Basic "@ + context.auth_server_token,
        token,
    }
}

/// What a cached text yields. The text is parsed and decoded anew each time.
pub open spec fn cached_outcome(text: Seq<char>, project_id: Seq<char>) -> Result<
    Claims,
    IntrospectionFailure,
> {
    match parsed_json(text) {
        None => Err(IntrospectionFailure::CorruptCacheEntry),
        Some(json) => match decoded(json, project_id) {
            Ok(claims) => Ok(claims),
            Err(failure) => Err(IntrospectionFailure::Decode(failure)),
        },
    }
}

/// What the provider's answer yields: `Ok` holds the response body, `Err` the
/// reason for which no response was had.
pub open spec fn provider_outcome(
    response: Result<Seq<char>, Seq<char>>,
    project_id: Seq<char>,
) -> Result<Claims, IntrospectionFailure> {
    match response {
        Err(reason) => Err(IntrospectionFailure::ProviderUnavailable(reason)),
        Ok(body) => match parsed_json(body) {
            None => Err(IntrospectionFailure::CorruptProviderResponse),
            Some(json) => match decoded(json, project_id) {
                Ok(claims) => Ok(claims),
                Err(failure) => Err(IntrospectionFailure::Decode(failure)),
            },
        },
    }
}

/// The first step of a cache-preferring introspection.
pub open spec fn first_step(context: ContextModel) -> StepModel {
    match bearer_token(context.auth_header) {
        Err(failure) => StepModel::Done(Err(failure)),
        Ok(token) => StepModel::ReadCache { token, key: cache_key(token) },
    }
}

/// The first step of a cache-bypassing introspection.
pub open spec fn first_forced_step(context: ContextModel) -> StepModel {
    match bearer_token(context.auth_header) {
        Err(failure) => StepModel::Done(Err(failure)),
        Ok(token) => StepModel::AskProvider { token, request: provider_request(context, token) },
    }
}

/// The step after the cache was read: a hit ends the call, with no write; a
/// miss, or a store that could not be read, turns to the provider.
pub open spec fn step_after_lookup(
    context: ContextModel,
    token: Seq<char>,
    found: Option<Seq<char>>,
) -> StepModel {
    match found {
        Some(text) => StepModel::Done(cached_outcome(text, context.auth_project_id)),
        None => StepModel::AskProvider { token, request: provider_request(context, token) },
    }
}

/// The step after the provider answered: a failure ends the call; a decoded
/// record is to be cached as the verbatim response body, to expire at the
/// token's own expiry, unless the store cannot represent that instant.
pub open spec fn step_after_provider(
    context: ContextModel,
    token: Seq<char>,
    response: Result<Seq<char>, Seq<char>>,
) -> StepModel {
    match provider_outcome(response, context.auth_project_id) {
        Err(failure) => StepModel::Done(Err(failure)),
        Ok(info) => if info.expires_at <= usize::MAX {
            StepModel::WriteCache {
                key: cache_key(token),
                value: response->Ok_0,
                expires_at: info.expires_at as int,
                info,
            }
        } else {
            StepModel::Done(Ok(info))
        },
    }
}

/// The step after the cache was written, or not: the record is returned
/// either way.
pub open spec fn step_after_write(info: Claims, written: bool) -> StepModel {
    StepModel::Done(Ok(info))
}

/// How the collaborators answer during one call: what the cache store holds
/// under each key (`None` where it holds nothing or cannot be read), what the
/// provider answers to each request, and whether the cache store takes writes.
pub struct Collaborators {
    pub cached: spec_fn(Seq<char>) -> Option<Seq<char>>,
    pub provider: spec_fn(ProviderRequestModel) -> Result<Seq<char>, Seq<char>>,
    pub takes_writes: bool,
}

/// The step that follows `step` once the collaborators have answered it.
pub open spec fn next_step(context: ContextModel, step: StepModel, world: Collaborators) -> StepModel {
    match step {
        StepModel::ReadCache { token, key } => step_after_lookup(
            context,
            token,
            (world.cached)(key),
        ),
        StepModel::AskProvider { token, request } => step_after_provider(
            context,
            token,
            (world.provider)(request),
        ),
        StepModel::WriteCache { info, .. } => step_after_write(info, world.takes_writes),
        StepModel::Done(r) => StepModel::Done(r),
    }
}

/// Where a call that starts with `first` stands after three answers.
pub open spec fn settled(context: ContextModel, first: StepModel, world: Collaborators) -> StepModel {
    next_step(context, next_step(context, next_step(context, first, world), world), world)
}

/// How many of the steps up to `settled` turn to the provider.
pub open spec fn provider_calls(context: ContextModel, first: StepModel, world: Collaborators) -> nat {
    let second = next_step(context, first, world);
    let third = next_step(context, second, world);
    let count = |step: StepModel| if step is AskProvider { 1nat } else { 0nat };
    count(first) + count(second) + count(third)
}

/// How many of the steps up to `settled` write to the cache store.
pub open spec fn cache_writes(context: ContextModel, first: StepModel, world: Collaborators) -> nat {
    let second = next_step(context, first, world);
    let third = next_step(context, second, world);
    let count = |step: StepModel| if step is WriteCache { 1nat } else { 0nat };
    count(first) + count(second) + count(third)
}

/// Distinct tokens have distinct cache keys.
pub proof fn lemma_cache_keys_differ(first: Seq<char>, second: Seq<char>)
    requires
        cache_key(first) == cache_key(second),
    ensures
        first == second,
{
    let prefix = "user_token:"@;
    assert(first =~= cache_key(first).subrange(prefix.len() as int, cache_key(first).len() as int));
    assert(second =~= cache_key(second).subrange(
        prefix.len() as int,
        cache_key(second).len() as int,
    ));
}

/// Every call is over after three answers at most, whichever way it started.
pub proof fn lemma_calls_settle(context: ContextModel, world: Collaborators)
    ensures
        settled(context, first_step(context), world) is Done,
        settled(context, first_forced_step(context), world) is Done,
{
}

/// A forced introspection makes one provider call, and its result is what the
/// provider's answer yields: neither the cache's content nor the fate of the
/// cache write has any part in it.
pub proof fn lemma_forced_result(context: ContextModel, world: Collaborators)
    requires
        bearer_token(context.auth_header) is Ok,
    ensures
        settled(context, first_forced_step(context), world) == StepModel::Done(
            provider_outcome(
                (world.provider)(
                    provider_request(context, bearer_token(context.auth_header)->Ok_0),
                ),
                context.auth_project_id,
            ),
        ),
        provider_calls(context, first_forced_step(context), world) == 1,
{
}

/// A request without a usable header fails at once: nothing is read, asked
/// or written.
pub proof fn lemma_unusable_header_ends_call(context: ContextModel, world: Collaborators)
    requires
        bearer_token(context.auth_header) is Err,
    ensures
        first_step(context) == StepModel::Done(
            Err::<Claims, IntrospectionFailure>(bearer_token(context.auth_header)->Err_0),
        ),
        first_forced_step(context) == first_step(context),
        provider_calls(context, first_step(context), world) == 0,
        cache_writes(context, first_step(context), world) == 0,
{
}

/// Two forced introspections of one request, to both of which the provider
/// answers the same, give the same result, whatever became of the cache in
/// between.
pub proof fn lemma_forced_introspection_repeats(
    context: ContextModel,
    first: Collaborators,
    second: Collaborators,
)
    requires
        bearer_token(context.auth_header) matches Ok(token) ==> (first.provider)(
            provider_request(context, token),
        ) == (second.provider)(provider_request(context, token)),
    ensures
        settled(context, first_forced_step(context), first) == settled(
            context,
            first_forced_step(context),
            second,
        ),
{
}

/// Where the cache has nothing under the token's key, the cache-preferring
/// introspection gives the result of the forced one, and like it makes one
/// provider call.
pub proof fn lemma_miss_falls_back_to_provider(context: ContextModel, world: Collaborators)
    requires
        bearer_token(context.auth_header) matches Ok(token) && (world.cached)(cache_key(token))
            is None,
    ensures
        settled(context, first_step(context), world) == settled(
            context,
            first_forced_step(context),
            world,
        ),
        provider_calls(context, first_step(context), world) == 1,
        provider_calls(context, first_forced_step(context), world) == 1,
{
}

/// Where the cache holds a text under the token's key, the result is what
/// that text yields: the provider is not asked and the cache is not written.
pub proof fn lemma_hit_spares_provider(context: ContextModel, world: Collaborators)
    requires
        bearer_token(context.auth_header) matches Ok(token) && (world.cached)(cache_key(token))
            is Some,
    ensures
        settled(context, first_step(context), world) == StepModel::Done(
            cached_outcome(
                (world.cached)(cache_key(bearer_token(context.auth_header)->Ok_0))->0,
                context.auth_project_id,
            ),
        ),
        provider_calls(context, first_step(context), world) == 0,
        cache_writes(context, first_step(context), world) == 0,
{
}

/// A cache store that takes no writes changes no result: where the
/// provider's answer decodes, the call succeeds with that record.
pub proof fn lemma_failed_write_is_harmless(context: ContextModel, world: Collaborators)
    ensures
        settled(
            context,
            first_forced_step(context),
            Collaborators { takes_writes: false, ..world },
        ) == settled(context, first_forced_step(context), world),
        settled(context, first_step(context), Collaborators { takes_writes: false, ..world })
            == settled(context, first_step(context), world),
        bearer_token(context.auth_header) matches Ok(token) ==> (provider_outcome(
            (world.provider)(provider_request(context, token)),
            context.auth_project_id,
        ) matches Ok(info) ==> settled(
            context,
            first_forced_step(context),
            Collaborators { takes_writes: false, ..world },
        ) == StepModel::Done(Ok::<Claims, IntrospectionFailure>(info))),
{
}

/// A response that decodes is cached as it came, under the token's key, to
/// expire at the second that its `exp` claim names.
pub proof fn lemma_fresh_response_is_cached(
    context: ContextModel,
    token: Seq<char>,
    body: Seq<char>,
)
    requires
        provider_outcome(Ok(body), context.auth_project_id) is Ok,
    ensures
        step_after_provider(context, token, Ok(body)) == (StepModel::WriteCache {
            key: cache_key(token),
            value: body,
            expires_at: provider_outcome(Ok(body), context.auth_project_id)->Ok_0.expires_at as int,
            info: provider_outcome(Ok(body), context.auth_project_id)->Ok_0,
        }),
{
}

/// What was cached for a response that decodes, decodes on a later hit to the
/// record that the response gave.
pub proof fn lemma_cached_response_decodes_alike(body: Seq<char>, project_id: Seq<char>)
    requires
        provider_outcome(Ok(body), project_id) is Ok,
    ensures
        cached_outcome(body, project_id) == provider_outcome(Ok(body), project_id),
{
}

/// Builds the cache key of a token.
pub fn user_token_key(user_token: &str) -> (key: String)
    ensures
        key@ == cache_key(user_token@),
{
    String::from_str("user_token:").concat(user_token)
}

fn extract_user_token(context: &Context) -> (r: Result<String, IntrospectionError>)
    ensures
        match r {
            Ok(token) => bearer_token(context@.auth_header) == Ok::<
                Seq<char>,
                IntrospectionFailure,
            >(token@),
            Err(error) => bearer_token(context@.auth_header) == Err::<
                Seq<char>,
                IntrospectionFailure,
            >(error@),
        },
{
    match &context.auth_header {
        None => Err(IntrospectionError::MissingAuthHeader),
        Some(header) => match second_field_of(header.as_str()) {
            Some(user_token) => Ok(user_token),
            None => Err(IntrospectionError::MalformedAuthHeader),
        },
    }
}

fn introspection_request(context: &Context, user_token: &String) -> (request: ProviderRequest)
    ensures
        request@ == provider_request(context@, user_token@),
{
    ProviderRequest {
        url: context.auth_base_url.clone().concat("/oauth/v2/introspect"),
        authorization: String::from_str("Basic ").concat(context.auth_server_token.as_str()),
        token: user_token.clone(),
    }
}

/// Starts an introspection that prefers the cache.
pub fn introspect_token(context: &Context) -> (step: Step)
    ensures
        step@ == first_step(context@),
        step.wf(),
{
    match extract_user_token(context) {
        Err(error) => Step::Done(Err(error)),
        Ok(user_token) => {
            let key = user_token_key(user_token.as_str());
            Step::ReadCache { token: user_token, key }
        },
    }
}

/// Starts an introspection that bypasses the cache.
pub fn force_introspect_token(context: &Context) -> (step: Step)
    ensures
        step@ == first_forced_step(context@),
        step.wf(),
{
    match extract_user_token(context) {
        Err(error) => Step::Done(Err(error)),
        Ok(user_token) => {
            let request = introspection_request(context, &user_token);
            Step::AskProvider { token: user_token, request }
        },
    }
}

/// Takes the answer of the cache store for the key of `user_token`: the text
/// found, or `None` where there is no entry or the store failed.
pub fn cache_answered(context: &Context, user_token: String, found: Option<String>) -> (step: Step)
    ensures
        step@ == step_after_lookup(context@, user_token@, option_text(found)),
        step.wf(),
{
    match found {
        Some(cached_introspection_result_string) => {
            match parse_json(cached_introspection_result_string.as_str()) {
                Err(_) => Step::Done(Err(IntrospectionError::CorruptCacheEntry)),
                Ok(json_value) => match decode_introspection_result(
                    &json_value,
                    &context.auth_project_id,
                ) {
                    Ok(token_info) => Step::Done(Ok(token_info)),
                    Err(error) => Step::Done(Err(IntrospectionError::Decode(error))),
                },
            }
        },
        None => {
            let request = introspection_request(context, &user_token);
            Step::AskProvider { token: user_token, request }
        },
    }
}

/// The model of an optional text.
pub open spec fn option_text(text: Option<String>) -> Option<Seq<char>> {
    match text {
        Some(text) => Some(text@),
        None => None,
    }
}

/// The model of the provider's answer.
pub open spec fn response_text(response: Result<String, String>) -> Result<Seq<char>, Seq<char>> {
    match response {
        Ok(body) => Ok(body@),
        Err(reason) => Err(reason@),
    }
}

/// Takes the provider's answer for `user_token`: the response body, or the
/// reason for which none was had.
pub fn introspect_and_persist_token(
    context: &Context,
    user_token: &String,
    response: Result<String, String>,
) -> (step: Step)
    ensures
        step@ == step_after_provider(context@, user_token@, response_text(response)),
        step.wf(),
{
    let body = match response {
        Ok(body) => body,
        Err(reason) => { return Step::Done(Err(IntrospectionError::ProviderUnavailable(reason))); },
    };
    let json_value = match parse_json(body.as_str()) {
        Ok(json_value) => json_value,
        Err(_) => { return Step::Done(Err(IntrospectionError::CorruptProviderResponse)); },
    };
    let token_info = match decode_introspection_result(&json_value, &context.auth_project_id) {
        Ok(token_info) => token_info,
        Err(error) => { return Step::Done(Err(IntrospectionError::Decode(error))); },
    };
    if token_info.expires_at as u64 <= usize::MAX as u64 {
        let exp_timestamp_seconds = token_info.expires_at as usize;
        Step::WriteCache {
            key: user_token_key(user_token.as_str()),
            value: body,
            expires_at: exp_timestamp_seconds,
            info: token_info,
        }
    } else {
        Step::Done(Ok(token_info))
    }
}

/// Takes the result of the cache write. The record is returned whether the
/// write succeeded or not.
pub fn cache_written(info: TokenInfo, written: bool) -> (step: Step)
    ensures
        step@ == step_after_write(info@, written),
        info.wf() ==> step.wf(),
{
    Step::Done(Ok(info))
}

} // verus!
