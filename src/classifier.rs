use vstd::prelude::*;

verus! {

/// The remote classification endpoint.
pub const ENDPOINT: &'static str =
    "https://api-inference.huggingface.co/models/cardiffnlp/twitter-roberta-base-sentiment-latest";

/// The harmless text sent to check that a candidate credential is accepted.
pub const PROBE_TEXT: &'static str =
    "Hello, I will make money, retire my parents, and escape from the rat race. Then I'll learn mandarin.";

/// One call to make: the text to classify, and the bearer credential.
#[derive(Clone, Debug, PartialEq, Eq)]
pub struct ClassificationRequest {
    pub text: String,
    pub credential: String,
}

impl ClassificationRequest {
    /// A field-by-field copy.
    pub fn duplicate(&self) -> (r: ClassificationRequest)
        ensures
            r == *self,
    {
        ClassificationRequest { text: self.text.clone(), credential: self.credential.clone() }
    }
}

/// Why a classification failed.
#[derive(Clone, Debug, PartialEq, Eq)]
pub enum ClassifyError {
    /// The service answered with a status code outside the success range.
    ServiceRejected { status: u16 },
    /// No answer came back: DNS, TCP, TLS, a timeout, an unreadable body.
    Transport { detail: String },
}

impl ClassifyError {
    /// A field-by-field copy.
    pub fn duplicate(&self) -> (r: ClassifyError)
        ensures
            r == *self,
    {
        match self {
            ClassifyError::ServiceRejected { status } => ClassifyError::ServiceRejected {
                status: *status,
            },
            ClassifyError::Transport { detail } => ClassifyError::Transport {
                detail: detail.clone(),
            },
        }
    }
}

/// What the single round trip of a classification produced.
#[derive(Clone, Debug, PartialEq, Eq)]
pub enum HttpReply {
    /// The service answered with this status code and this body.
    Answered { status: u16, body: String },
    /// The request did not complete.
    Unreachable { detail: String },
}

/// A status code in the 2xx range.
pub open spec fn is_success_status(status: u16) -> bool {
    200 <= status < 300
}

/// Whether an HTTP status code means success (200 to 299).
pub fn is_success(status: u16) -> (r: bool)
    ensures
        r == is_success_status(status),
{
    200 <= status && status < 300
}

/// A successful answer carries its body verbatim; any other status is a
/// rejection, and a request that did not complete is a transport failure.
pub open spec fn outcome_of(reply: HttpReply) -> Result<String, ClassifyError> {
    match reply {
        HttpReply::Answered { status, body } => if is_success_status(status) {
            Ok(body)
        } else {
            Err(ClassifyError::ServiceRejected { status })
        },
        HttpReply::Unreachable { detail } => Err(ClassifyError::Transport { detail }),
    }
}

/// Turns the result of one round trip into a classification outcome.
pub fn interpret_reply(reply: HttpReply) -> (r: Result<String, ClassifyError>)
    ensures
        r == outcome_of(reply),
{
    match reply {
        HttpReply::Answered { status, body } => {
            if is_success(status) {
                Ok(body)
            } else {
                Err(ClassifyError::ServiceRejected { status })
            }
        },
        HttpReply::Unreachable { detail } => Err(ClassifyError::Transport { detail }),
    }
}

/// The JSON string literal that serde_json writes for a text.
pub uninterp spec fn json_string_of(text: Seq<char>) -> Seq<char>;

#[verifier::external_type_specification]
#[verifier::external_body]
pub struct ExJsonError(serde_json::Error);

/// Relies on serde_json::to_string: on a `str` it writes the quoted and
/// escaped JSON string, and it fails only for a `Serialize` impl that fails
/// or a map with non-string keys, neither of which a `str` is.
#[verifier::external_body]
fn json_string(text: &str) -> (r: Result<String, serde_json::Error>)
    ensures
        r is Ok,
        r is Ok ==> r->Ok_0@ == json_string_of(text@),
{
    serde_json::to_string(text)
}

/// The JSON body `{"inputs":<text>}` for a classification.
pub open spec fn body_of(text: Seq<char>) -> Seq<char> {
    "{\"inputs\":"@ + json_string_of(text) + "}"@
}

/// The JSON body of the request that classifies `text`.
pub fn request_body(text: &str) -> (r: String)
    ensures
        r@ == body_of(text@),
{
    let encoded = json_string(text);
    match encoded {
        Ok(value) => {
            let body = String::from_str("{\"inputs\":");
            let body = body.concat(value.as_str());
            body.concat("}")
        },
        Err(_) => {
            proof {
                assert(false);
            }
            String::new()
        },
    }
}

} // verus!
