//! Failures that reach the top level, and the one line that is logged for
//! each. A request that the service's bot protection blocked is a variant of
//! its own: its message is replaced by advice to the user.

use vstd::prelude::*;
use vstd::string::*;

verus! {

/// A failure of the streaming service's client, or of anything else that a
/// command ran into.
#[derive(Clone, Debug, PartialEq, Eq)]
pub enum RemoteFailure {
    /// The request was blocked by the service's bot protection.
    Blocked { message: String, body: String, url: String },
    /// The service answered a request with an error. `url` is `n/a` where the
    /// failure has no address.
    Request { message: String, url: String },
    /// Any other failure, by its message.
    Other { message: String },
}

/// A failure as plain text values.
pub enum FailureModel {
    Blocked { message: Seq<char>, body: Seq<char>, url: Seq<char> },
    Request { message: Seq<char>, url: Seq<char> },
    Other { message: Seq<char> },
}

impl View for RemoteFailure {
    type V = FailureModel;

    open spec fn view(&self) -> FailureModel {
        match *self {
            RemoteFailure::Blocked { message, body, url } => FailureModel::Blocked {
                message: message@,
                body: body@,
                url: url@,
            },
            RemoteFailure::Request { message, url } => FailureModel::Request {
                message: message@,
                url: url@,
            },
            RemoteFailure::Other { message } => FailureModel::Other { message: message@ },
        }
    }
}

/// The address that stands for "no address" in a request failure.
pub open spec fn no_url() -> Seq<char> {
    "n/a"@
}

/// The text of a failure.
pub open spec fn rendered(failure: FailureModel) -> Seq<char> {
    match failure {
        FailureModel::Blocked { message, body, url } => message + " ("@ + url + "): "@ + body,
        FailureModel::Request { message, url } => if url == no_url() {
            message
        } else {
            message + " ("@ + url + ")"@
        },
        FailureModel::Other { message } => message,
    }
}

/// Writes a failure as the service's client does: the failure becomes the
/// `crunchyroll_rs::error::Error` of the same variant (`Other` becomes
/// `Internal`, a request carries no status), and the result is what its
/// `Display` writes. The contract states that text as the client's source
/// gives it for these three variants.
#[verifier::external_body]
pub(crate) fn display_remote(failure: &RemoteFailure) -> (r: String)
    ensures
        r@ == rendered(failure@),
{
    let error = match failure.clone() {
        RemoteFailure::Blocked { message, body, url } => {
            crunchyroll_rs::error::Error::Block { message, body, url }
        },
        RemoteFailure::Request { message, url } => {
            crunchyroll_rs::error::Error::Request { message, status: None, url }
        },
        RemoteFailure::Other { message } => crunchyroll_rs::error::Error::Internal { message },
    };
    error.to_string()
}

/// What a user is told when the bot protection blocked a request.
pub open spec fn blocked_advice() -> Seq<char> {
    "Triggered Cloudflare bot protection. Try again later or use a VPN or proxy to spoof your location"@
}

/// What the logged line of a failed command begins with.
pub open spec fn failure_prefix() -> Seq<char> {
    "An error occurred: "@
}

/// The failure as it is shown: a blocked request with its message replaced
/// by the advice, every other failure unchanged.
pub open spec fn translated(failure: FailureModel) -> FailureModel {
    match failure {
        FailureModel::Blocked { message, body, url } => FailureModel::Blocked {
            message: blocked_advice(),
            body,
            url,
        },
        _ => failure,
    }
}

/// Rewrites a blocked request into advice to the user and leaves every other
/// failure as it is.
pub fn translate(failure: RemoteFailure) -> (r: RemoteFailure)
    ensures
        r@ == translated(failure@),
{
    match failure {
        RemoteFailure::Blocked { message: _, body, url } => RemoteFailure::Blocked {
            message: 
            "Triggered Cloudflare bot protection. Try again later or use a VPN or proxy to spoof your location".to_owned(),
            body,
            url,
        },
        other => other,
    }
}

/// The one line that is logged when a command failed: the prefix, then the
/// text of the translated failure.
pub fn failure_report(failure: RemoteFailure) -> (r: String)
    ensures
        r@ == failure_prefix() + rendered(translated(failure@)),
{
    let shown = translate(failure);
    let text = display_remote(&shown);
    let mut line = "An error occurred: ".to_owned();
    line.append(text.as_str());
    line
}

/// Translation touches blocked requests only, and doing it twice changes
/// nothing more.
pub proof fn lemma_translated(failure: FailureModel)
    ensures
        !(failure is Blocked) ==> translated(failure) == failure,
        failure is Blocked ==> translated(failure) is Blocked,
        translated(translated(failure)) == translated(failure),
{
}

/// A blocked request is logged as the advice, the address and the body of
/// the answer; nothing of its own message is left.
pub proof fn lemma_blocked_report(message: Seq<char>, body: Seq<char>, url: Seq<char>)
    ensures
        rendered(translated(FailureModel::Blocked { message, body, url })) == blocked_advice()
            + " ("@ + url + "): "@ + body,
{
}

} // verus!
