use vstd::prelude::*;
use vstd::string::StringExecFns;
use crate::auth::{AuthError, HandshakeOutcome};
use crate::publish::{
    publish, spec_publish_result, PublishError, PublishRequest, SubmitOutcome,
};

verus! {

/// The fixed endpoint of the remote social network node.
pub fn default_network_endpoint() -> (r: &'static str)
    ensures
        r@ == "https://social-node.example:443"@,
{
    "https://social-node.example:443"
}

/// The opaque text a structured publish error is flattened to at the command
/// boundary. Internal callers keep the structured taxonomy; only the outermost
/// adapter sees this text.
pub open spec fn spec_flattened_error(e: PublishError) -> Seq<char> {
    match e {
        PublishError::Auth(AuthError::InvalidKey) => "authentication failed: invalid key"@,
        PublishError::Auth(
            AuthError::SessionInitFailed,
        ) => "authentication failed: session initialization failed"@,
        PublishError::Remote(reason) => "cast rejected: "@ + reason@,
    }
}

/// Flattens a structured publish error to its boundary text.
pub fn flatten_publish_error(e: PublishError) -> (r: String)
    ensures
        r@ == spec_flattened_error(e),
{
    match e {
        PublishError::Auth(AuthError::InvalidKey) => String::from_str(
            "authentication failed: invalid key",
        ),
        PublishError::Auth(AuthError::SessionInitFailed) => String::from_str(
            "authentication failed: session initialization failed",
        ),
        PublishError::Remote(reason) => {
            let mut text = String::from_str("cast rejected: ");
            text.append(reason.as_str());
            text
        },
    }
}

/// The command surface invoked by the UI layer: publish `message` under
/// `secret_key` to the fixed endpoint, flattening any failure to opaque text.
/// The driver supplies the network's two answers; an invalid key decides the
/// call before either is consulted, so no network interaction happens then.
pub fn send_cast(
    secret_key: &str,
    message: &str,
    handshake: HandshakeOutcome,
    submit: SubmitOutcome,
) -> (r: Result<(), String>)
    ensures
        ({
            match spec_publish_result(secret_key@, handshake, submit) {
                Ok(()) => r is Ok,
                Err(e) => r matches Err(text) && text@ == spec_flattened_error(e),
            }
        }),
{
    let req = PublishRequest {
        secret_key: String::from_str(secret_key),
        message: String::from_str(message),
        parent_reference: None,
    };
    match publish(&req, default_network_endpoint(), handshake, submit) {
        Ok(()) => Ok(()),
        Err(e) => Err(flatten_publish_error(e)),
    }
}

} // verus!
