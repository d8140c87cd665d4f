use vstd::prelude::*;
use vstd::string::StringExecFns;
use crate::config::ContentApis;
use crate::content::{to_uppercase, uppercased, ContentType};
use crate::dto::ValidationResult;
use crate::errors::DomainError;
use crate::ids::{uuid_text, ContentId};
use crate::keys::content_validation_key;

verus! {

/// What to do with an answer of an outside validation service: read its body,
/// or fail with an error.
#[derive(Debug)]
pub enum ResponseOutcome {
    ReadBody,
    Fail(DomainError),
}

/// Whether an HTTP status is a success (2xx).
pub open spec fn is_success(status: u16) -> bool {
    200 <= status && status <= 299
}

/// The name under which the profile service appears in errors.
pub fn profile_service_name() -> (s: String)
    ensures
        s@ == "Profile API"@,
{
    String::from_str("Profile API")
}

/// The token-validation address of the profile service.
pub fn profile_validate_url(base: &str) -> (u: String)
    ensures
        u@ == base@ + "/v1/auth/validate"@,
{
    let mut u = String::from_str(base);
    u.append("/v1/auth/validate");
    u
}

/// What an answer of the profile service means: a success is read, "not
/// found" is a missing dependency answer, anything else means the service is
/// unavailable (which the circuit breaker counts).
pub fn profile_response_outcome(status: u16) -> (r: ResponseOutcome)
    ensures
        is_success(status) ==> r is ReadBody,
        status == 404 ==> (r matches ResponseOutcome::Fail(DomainError::DependencyNotFound { service })
            && service@ == "Profile API"@),
        (!is_success(status) && status != 404) ==> (r matches ResponseOutcome::Fail(
            DomainError::DependencyUnavailable { service }) && service@ == "Profile API"@),
{
    if 200 <= status && status <= 299 {
        ResponseOutcome::ReadBody
    } else if status == 404 {
        ResponseOutcome::Fail(DomainError::DependencyNotFound { service: profile_service_name() })
    } else {
        ResponseOutcome::Fail(DomainError::DependencyUnavailable { service: profile_service_name() })
    }
}

/// The name under which a content service appears in errors: its type in
/// upper case, then ` API`.
pub fn content_service_name(c_type: &ContentType) -> (s: String)
    ensures
        s@ == uppercased(c_type@) + " API"@,
{
    let mut s = to_uppercase(c_type.as_str());
    s.append(" API");
    s
}

/// The address at which a content item is checked:
/// `<base>/v1/<type>/<id>`, the base being the one configured for the type;
/// an unconfigured type is unknown.
pub fn content_api_url(apis: &ContentApis, c_type: &ContentType, c_id: &ContentId) -> (r: Result<String, DomainError>)
    requires
        apis.wf(),
    ensures
        !apis.view().dom().contains(c_type@) ==> (r matches Err(DomainError::UnknownContentType { content_type })
            && content_type@ == c_type@),
        apis.view().dom().contains(c_type@) ==> (r matches Ok(u) && u@ == apis.view()[c_type@] + "/v1/"@
            + c_type@ + "/"@ + uuid_text(c_id.0)),
{
    match apis.get(c_type.as_str()) {
        None => Err(DomainError::UnknownContentType { content_type: c_type.to_text() }),
        Some(base) => {
            let mut u = base.clone();
            u.append("/v1/");
            u.append(c_type.as_str());
            u.append("/");
            let id = c_id.to_text();
            u.append(id.as_str());
            Ok(u)
        },
    }
}

/// What an answer of a content service means: a success is read, "not
/// found" means the item does not exist, anything else means the service is
/// unavailable (which the circuit breaker counts).
pub fn content_response_outcome(status: u16, c_type: &ContentType, c_id: &ContentId, service: &String) -> (r: ResponseOutcome)
    ensures
        is_success(status) ==> r is ReadBody,
        status == 404 ==> (r matches ResponseOutcome::Fail(DomainError::ContentNotFound { content_type, content_id })
            && content_type@ == c_type@ && content_id@ == uuid_text(c_id.0)),
        (!is_success(status) && status != 404) ==> (r matches ResponseOutcome::Fail(
            DomainError::DependencyUnavailable { service: s }) && s@ == service@),
{
    if 200 <= status && status <= 299 {
        ResponseOutcome::ReadBody
    } else if status == 404 {
        ResponseOutcome::Fail(DomainError::ContentNotFound { content_type: c_type.to_text(), content_id: c_id.to_text() })
    } else {
        ResponseOutcome::Fail(DomainError::DependencyUnavailable { service: service.clone() })
    }
}

/// The error of an answer whose body could not be read.
pub fn body_error(service: &String) -> (e: DomainError)
    ensures
        e matches DomainError::DependencyDeserializeError { service: s } && s@ == service@,
{
    DomainError::DependencyDeserializeError { service: service.clone() }
}

/// What a cached user validation answers: a valid user, or the profile
/// service's "not found" for a user it did not know.
pub fn user_from_cache(cached: Option<ValidationResult>) -> (r: Option<Result<u128, DomainError>>)
    ensures
        match cached {
            Some(ValidationResult::Valid(u)) => r == Some(Ok::<u128, DomainError>(u)),
            Some(ValidationResult::NotFound) => r matches Some(Err(DomainError::DependencyNotFound { service }))
                && service@ == "Profile API"@,
            None => r is None,
        },
{
    match cached {
        Some(ValidationResult::Valid(u)) => Some(Ok(u)),
        Some(ValidationResult::NotFound) => Some(Err(DomainError::DependencyNotFound { service: profile_service_name() })),
        None => None,
    }
}

/// What a user validation leaves in the cache, and for how long (seconds):
/// a valid user, and a user the profile service did not find, each for five
/// minutes; nothing after any other error.
pub fn user_cache_entry(r: &Result<u128, DomainError>) -> (e: Option<(ValidationResult, u64)>)
    ensures
        e == (match r {
            Ok(u) => Some((ValidationResult::Valid(*u), 300u64)),
            Err(DomainError::DependencyNotFound { .. }) => Some((ValidationResult::NotFound, 300u64)),
            Err(_) => None,
        }),
{
    match r {
        Ok(u) => Some((ValidationResult::Valid(*u), 300)),
        Err(DomainError::DependencyNotFound { .. }) => Some((ValidationResult::NotFound, 300)),
        Err(_) => None,
    }
}

/// What a content validation leaves in the cache, and for how long
/// (seconds): a valid item for an hour, a missing one for five minutes,
/// nothing after any other error.
pub open spec fn content_cache_entry_of(r: Result<u128, DomainError>) -> Option<(ValidationResult, u64)> {
    match r {
        Ok(u) => Some((ValidationResult::Valid(u), 3600u64)),
        Err(DomainError::ContentNotFound { .. }) => Some((ValidationResult::NotFound, 300u64)),
        Err(_) => None,
    }
}

/// What a content validation leaves in the cache, and for how long.
pub fn content_cache_entry(r: &Result<u128, DomainError>) -> (e: Option<(ValidationResult, u64)>)
    ensures
        e == content_cache_entry_of(*r),
{
    match r {
        Ok(u) => Some((ValidationResult::Valid(*u), 3600)),
        Err(DomainError::ContentNotFound { .. }) => Some((ValidationResult::NotFound, 300)),
        Err(_) => None,
    }
}

/// Where a content validation stands.
#[derive(Debug, Clone, Copy, PartialEq, Eq, Structural)]
pub enum ValidationState {
    /// The cached validation is read.
    CheckingCache,
    /// The single-flight claim on the validation is tried.
    Claiming,
    /// Another request holds the claim: wait a little, then look again.
    Waiting,
    /// The content service is asked (through the circuit breaker).
    Calling,
    /// The answer is stored in the cache.
    Storing,
    /// The validation is over.
    Finished,
}

/// What the outside world answered to the last action of a content validation.
#[derive(Debug)]
pub enum ValidationEvent {
    CacheRead(Option<ValidationResult>),
    Claimed(bool),
    Waited,
    Called(Result<u128, DomainError>),
    Stored,
}

/// What a content validation asks the outside world to do next.
#[derive(Debug)]
pub enum ValidationAction {
    /// Read the cached validation under the flow's key.
    ReadCache,
    /// Try to claim the validation (insert the key in the in-flight set).
    Claim,
    /// Sleep fifty milliseconds.
    Wait,
    /// Ask the content service.
    CallService,
    /// Store a validation under the flow's key for that many seconds.
    Store(ValidationResult, u64),
    /// The validation's result; with `release`, the claim is given back.
    Finish { result: Result<u128, DomainError>, release: bool },
}

/// A validation of a content item: cached answers first, one caller at a
/// time asks the content service.
#[derive(Debug)]
pub struct ContentValidationFlow {
    pub c_type: ContentType,
    pub c_id: ContentId,
    pub key: String,
    pub outcome: Option<Result<u128, DomainError>>,
    pub state: ValidationState,
}

/// Whether a result is the one a cached validation gives (the identifier of a
/// missing item is given as its hyphenated text).
pub open spec fn gives_cached(r: Result<u128, DomainError>, v: ValidationResult, c_type: ContentType, c_id: ContentId) -> bool {
    match v {
        ValidationResult::Valid(u) => r == Ok::<u128, DomainError>(u),
        ValidationResult::NotFound => r matches Err(DomainError::ContentNotFound { content_type, content_id })
            && content_type@ == c_type@ && content_id@ == uuid_text(c_id.0),
    }
}

/// Whether a validation in a state takes an event.
pub open spec fn validation_expects(s: ValidationState, ev: ValidationEvent) -> bool {
    match s {
        ValidationState::CheckingCache => ev is CacheRead,
        ValidationState::Claiming => ev is Claimed,
        ValidationState::Waiting => ev is Waited,
        ValidationState::Calling => ev is Called,
        ValidationState::Storing => ev is Stored,
        ValidationState::Finished => false,
    }
}

/// The next step of a content validation, as a relation between the flow
/// before, the event, the flow after and the action.
pub open spec fn validation_step(f: ContentValidationFlow, ev: ValidationEvent, g: ContentValidationFlow, a: ValidationAction) -> bool {
    &&& g.c_type == f.c_type
    &&& g.c_id == f.c_id
    &&& g.key == f.key
    &&& match f.state {
        ValidationState::CheckingCache => match ev->CacheRead_0 {
            Some(v) => g.state == ValidationState::Finished && (a matches ValidationAction::Finish { result, release: false }
                && gives_cached(result, v, f.c_type, f.c_id)),
            None => g.state == ValidationState::Claiming && a is Claim,
        },
        ValidationState::Claiming => if ev->Claimed_0 {
            g.state == ValidationState::Calling && a is CallService
        } else {
            g.state == ValidationState::Waiting && a is Wait
        },
        ValidationState::Waiting => g.state == ValidationState::CheckingCache && a is ReadCache,
        ValidationState::Calling => {
            let r = ev->Called_0;
            match content_cache_entry_of(r) {
                Some((v, ttl)) => g.state == ValidationState::Storing && g.outcome == Some(r) && a == ValidationAction::Store(v, ttl),
                None => g.state == ValidationState::Finished && a == (ValidationAction::Finish { result: r, release: true }),
            }
        },
        ValidationState::Storing => g.state == ValidationState::Finished && f.outcome is Some
            && a == (ValidationAction::Finish { result: f.outcome->Some_0, release: true }),
        ValidationState::Finished => false,
    }
}

impl ContentValidationFlow {
    /// Starts a validation: the cache is read first, under
    /// `val:content:<type>:<id>`.
    pub fn start(c_type: &ContentType, c_id: &ContentId) -> (r: (ContentValidationFlow, ValidationAction))
        ensures
            r.0.c_type == *c_type,
            r.0.c_id == *c_id,
            r.0.key@ == "val:content:"@ + c_type@ + ":"@ + uuid_text(c_id.0),
            r.0.outcome is None,
            r.0.state == ValidationState::CheckingCache,
            r.1 is ReadCache,
    {
        (
            ContentValidationFlow {
                c_type: c_type.clone(),
                c_id: *c_id,
                key: content_validation_key(c_type, c_id),
                outcome: None,
                state: ValidationState::CheckingCache,
            },
            ValidationAction::ReadCache,
        )
    }

    /// Whether the validation takes an event now.
    pub fn accepts(&self, ev: &ValidationEvent) -> (b: bool)
        ensures
            b == validation_expects(self.state, *ev),
    {
        match (self.state, ev) {
            (ValidationState::CheckingCache, ValidationEvent::CacheRead(_)) => true,
            (ValidationState::Claiming, ValidationEvent::Claimed(_)) => true,
            (ValidationState::Waiting, ValidationEvent::Waited) => true,
            (ValidationState::Calling, ValidationEvent::Called(_)) => true,
            (ValidationState::Storing, ValidationEvent::Stored) => true,
            _ => false,
        }
    }

    /// Takes the outside world's answer and gives the next action.
    pub fn step(&mut self, ev: ValidationEvent) -> (a: ValidationAction)
        requires
            validation_expects(old(self).state, ev),
            old(self).state == ValidationState::Storing ==> old(self).outcome is Some,
        ensures
            validation_step(*old(self), ev, *final(self), a),
            final(self).state == ValidationState::Storing ==> final(self).outcome is Some,
    {
        match (self.state, ev) {
            (ValidationState::CheckingCache, ValidationEvent::CacheRead(c)) => match c {
                Some(ValidationResult::Valid(u)) => {
                    self.state = ValidationState::Finished;
                    ValidationAction::Finish { result: Ok(u), release: false }
                },
                Some(ValidationResult::NotFound) => {
                    self.state = ValidationState::Finished;
                    ValidationAction::Finish {
                        result: Err(DomainError::ContentNotFound {
                            content_type: self.c_type.to_text(),
                            content_id: self.c_id.to_text(),
                        }),
                        release: false,
                    }
                },
                None => {
                    self.state = ValidationState::Claiming;
                    ValidationAction::Claim
                },
            },
            (ValidationState::Claiming, ValidationEvent::Claimed(won)) => {
                if won {
                    self.state = ValidationState::Calling;
                    ValidationAction::CallService
                } else {
                    self.state = ValidationState::Waiting;
                    ValidationAction::Wait
                }
            },
            (ValidationState::Waiting, ValidationEvent::Waited) => {
                self.state = ValidationState::CheckingCache;
                ValidationAction::ReadCache
            },
            (ValidationState::Calling, ValidationEvent::Called(r)) => match content_cache_entry(&r) {
                Some((v, ttl)) => {
                    self.state = ValidationState::Storing;
                    self.outcome = Some(r);
                    ValidationAction::Store(v, ttl)
                },
                None => {
                    self.state = ValidationState::Finished;
                    ValidationAction::Finish { result: r, release: true }
                },
            },
            (ValidationState::Storing, ValidationEvent::Stored) => {
                self.state = ValidationState::Finished;
                let mut taken: Option<Result<u128, DomainError>> = None;
                std::mem::swap(&mut taken, &mut self.outcome);
                match taken {
                    Some(r) => ValidationAction::Finish { result: r, release: true },
                    None => ValidationAction::ReadCache,
                }
            },
            _ => ValidationAction::ReadCache,
        }
    }
}

/// A validation that asked the content service hands back its claim; one
/// answered from the cache never took it.
pub proof fn law_claim_released(f: ContentValidationFlow, ev: ValidationEvent, g: ContentValidationFlow, a: ValidationAction)
    requires
        validation_expects(f.state, ev),
        validation_step(f, ev, g, a),
    ensures
        a matches ValidationAction::Finish { release, .. } ==> (release <==> f.state != ValidationState::CheckingCache),
{
}

/// Only a found or a missing item is remembered; an unreachable service is
/// never cached.
pub proof fn law_unavailable_not_cached(service: String)
    ensures
        content_cache_entry_of(Err(DomainError::DependencyUnavailable { service })) is None,
{
}

/// What a content validation answers, over all answers of the cache and the
/// service: a cached valid item gives its identifier; a cached missing item
/// gives "not found" for the item's type and identifier text; the service's
/// valid answer is kept for an hour and its "not found" for five minutes
/// before they are answered; any other answer of the service is answered at
/// once and kept nowhere.
pub proof fn law_content_validation_answers(f: ContentValidationFlow, ev: ValidationEvent, g: ContentValidationFlow, a: ValidationAction)
    requires
        validation_expects(f.state, ev),
        validation_step(f, ev, g, a),
    ensures
        (f.state == ValidationState::CheckingCache && ev == ValidationEvent::CacheRead(Some(ValidationResult::Valid(
            ev->CacheRead_0->Some_0->Valid_0)))) ==> (a matches ValidationAction::Finish { result: Ok(u), release: false }
            && u == ev->CacheRead_0->Some_0->Valid_0),
        (f.state == ValidationState::CheckingCache && ev == ValidationEvent::CacheRead(Some(ValidationResult::NotFound)))
            ==> (a matches ValidationAction::Finish { result: Err(DomainError::ContentNotFound { content_type, content_id }),
            release: false } && content_type@ == f.c_type@ && content_id@ == uuid_text(f.c_id.0)),
        f.state == ValidationState::Calling ==> match ev->Called_0 {
            Ok(u) => a == ValidationAction::Store(ValidationResult::Valid(u), 3600) && g.outcome == Some(
                Ok::<u128, DomainError>(u)),
            Err(DomainError::ContentNotFound { .. }) => a == ValidationAction::Store(ValidationResult::NotFound, 300)
                && g.outcome == Some(ev->Called_0),
            Err(e) => a == (ValidationAction::Finish { result: Err(e), release: true }),
        },
        (f.state == ValidationState::Storing && f.outcome is Some) ==> a == (ValidationAction::Finish {
            result: f.outcome->Some_0, release: true }),
{
}

} // verus!
