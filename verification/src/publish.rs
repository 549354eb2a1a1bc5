use vstd::prelude::*;
use vstd::string::StringExecFns;
use crate::auth::{
    build_session, derived_identity, is_valid_key, AuthError, HandshakeOutcome, SessionHandshake,
};
use crate::lifecycle::{spec_handle_event, DesktopLifecycleController, LifecycleEvent};

verus! {

/// A pointer marking a new post as a reply to an existing one.
#[derive(Debug)]
pub struct ParentReference {
    /// The identifier of the post being replied to.
    pub cast_id: String,
    /// The identity of that post's author.
    pub author_id: u64,
}

/// One user-initiated post: created per user action, immutable, discarded
/// after handling.
#[derive(Debug)]
pub struct PublishRequest {
    /// The secret key authorizing the post, encoded as text.
    pub secret_key: String,
    /// The message text to publish.
    pub message: String,
    /// Present when the post is a reply.
    pub parent_reference: Option<ParentReference>,
}

/// Why a publish call failed. Errors are terminal for the invocation that
/// raised them; nothing is retried.
#[derive(Debug)]
pub enum PublishError {
    /// Session building failed before or during the handshake.
    Auth(AuthError),
    /// The remote endpoint rejected the submission, with its reason.
    Remote(String),
}

/// The remote endpoint's answer to a submission.
#[derive(Debug)]
pub enum SubmitOutcome {
    Accepted,
    Rejected(String),
}

/// The authenticated network write a publish call owes the endpoint once the
/// session handshake has been accepted.
#[derive(Debug)]
pub struct Submission {
    /// The identity the session presents.
    pub identity: u64,
    /// The endpoint the submission goes to.
    pub network_endpoint: String,
    /// The message text.
    pub message: String,
    /// The reply relationship, if any.
    pub parent_reference: Option<ParentReference>,
}

/// Whether two optional parent references point at the same post and author.
pub open spec fn parent_matches(a: Option<ParentReference>, b: Option<ParentReference>) -> bool {
    match (a, b) {
        (None, None) => true,
        (Some(x), Some(y)) => x.cast_id@ == y.cast_id@ && x.author_id == y.author_id,
        _ => false,
    }
}

/// What a publish call returns, as a function of the request's key and of the
/// two answers the network gives: first the handshake, then the submission.
/// An invalid key decides the call by itself — the outcomes are never reached.
pub open spec fn spec_publish_result(
    key: Seq<char>,
    handshake: HandshakeOutcome,
    submit: SubmitOutcome,
) -> Result<(), PublishError> {
    if !is_valid_key(key) {
        Err(PublishError::Auth(AuthError::InvalidKey))
    } else if handshake is Rejected {
        Err(PublishError::Auth(AuthError::SessionInitFailed))
    } else {
        match submit {
            SubmitOutcome::Accepted => Ok(()),
            SubmitOutcome::Rejected(reason) => Err(PublishError::Remote(reason)),
        }
    }
}

/// First step of a publish call: build the session for the request's key.
/// Returns the handshake owed to the endpoint, or `PublishError::Auth` with
/// `AuthError::InvalidKey` — and then no network interaction happens, since no
/// `SessionHandshake` comes into existence.
pub fn start_publish(req: &PublishRequest, network_endpoint: &str) -> (r: Result<
    SessionHandshake,
    PublishError,
>)
    ensures
        r is Ok <==> is_valid_key(req.secret_key@),
        r matches Ok(h) ==> h.identity == derived_identity(req.secret_key@)
            && h.network_endpoint@ == network_endpoint@,
        r matches Err(e) ==> e == PublishError::Auth(AuthError::InvalidKey),
{
    match build_session(req.secret_key.as_str(), network_endpoint) {
        Ok(h) => Ok(h),
        Err(e) => Err(PublishError::Auth(e)),
    }
}

/// Second step: fold in the endpoint's answer to the handshake. Acceptance
/// yields the submission to write — the request's message and reply reference
/// under the session's identity; rejection is `AuthError::SessionInitFailed`.
pub fn on_handshake(
    handshake: SessionHandshake,
    outcome: HandshakeOutcome,
    req: &PublishRequest,
) -> (r: Result<Submission, PublishError>)
    ensures
        outcome is Accepted ==> (r matches Ok(s) && s.identity == handshake.identity
            && s.network_endpoint@ == handshake.network_endpoint@ && s.message@ == req.message@
            && parent_matches(s.parent_reference, req.parent_reference)),
        outcome is Rejected ==> (r matches Err(e) && e == PublishError::Auth(
            AuthError::SessionInitFailed,
        )),
{
    match outcome {
        HandshakeOutcome::Accepted => {
            let parent = match &req.parent_reference {
                None => None,
                Some(p) => Some(
                    ParentReference { cast_id: p.cast_id.clone(), author_id: p.author_id },
                ),
            };
            Ok(
                Submission {
                    identity: handshake.identity,
                    network_endpoint: handshake.network_endpoint,
                    message: req.message.clone(),
                    parent_reference: parent,
                },
            )
        },
        HandshakeOutcome::Rejected => Err(PublishError::Auth(AuthError::SessionInitFailed)),
    }
}

/// Last step: fold in the endpoint's answer to the submission. Acceptance is
/// success with no payload; rejection carries the endpoint's reason.
pub fn on_submit(outcome: SubmitOutcome) -> (r: Result<(), PublishError>)
    ensures
        outcome is Accepted ==> r == Result::<(), PublishError>::Ok(()),
        outcome matches SubmitOutcome::Rejected(reason) ==> r == Result::<(), PublishError>::Err(
            PublishError::Remote(reason),
        ),
{
    match outcome {
        SubmitOutcome::Accepted => Ok(()),
        SubmitOutcome::Rejected(reason) => Err(PublishError::Remote(reason)),
    }
}

/// The whole publish decision for one request, with the network's two answers
/// supplied by the driver: one session build, one submission, no retry. The
/// submission contents are fixed by `on_handshake`; this composition returns
/// what the call reports to its caller.
pub fn publish(
    req: &PublishRequest,
    network_endpoint: &str,
    handshake: HandshakeOutcome,
    submit: SubmitOutcome,
) -> (r: Result<(), PublishError>)
    ensures
        r == spec_publish_result(req.secret_key@, handshake, submit),
{
    match start_publish(req, network_endpoint) {
        Err(e) => Err(e),
        Ok(h) => match on_handshake(h, handshake, req) {
            Err(e) => Err(e),
            Ok(_submission) => on_submit(submit),
        },
    }
}

/// Law: the publish flow and the desktop lifecycle flow are independent. A
/// publish decision is a function of the request's key and the network's
/// answers alone — no lifecycle state is among its inputs — and a lifecycle
/// transition is a function of the controller and the event alone. So the same
/// publish result is obtained whether it is decided before or after any
/// lifecycle event, and the transition is the same around any publish.
pub proof fn lemma_flows_independent(
    c: DesktopLifecycleController,
    e: LifecycleEvent,
    key: Seq<char>,
    handshake: HandshakeOutcome,
    submit: SubmitOutcome,
)
    ensures
        ({
            let decided_before = spec_publish_result(key, handshake, submit);
            let stepped = spec_handle_event(c, e);
            let decided_after = spec_publish_result(key, handshake, submit);
            &&& decided_before == decided_after
            &&& stepped == spec_handle_event(c, e)
        }),
{
}

} // verus!
