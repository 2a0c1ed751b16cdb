use crate::config::Config;
use crate::error::GatewayError;
use crate::response::{opt_bytes, outcome_model, ImageModel, ImageResponse};
use vstd::prelude::*;
use vstd::string::StringExecFns;
use vstd::utf8::{
    decode_utf8, encode_utf8, encode_utf8_decode_utf8, encode_utf8_valid_utf8,
    is_ascii_chars_encode_utf8, valid_utf8,
};

verus! {

/// The origin address for a token: the base, then the token, then `.jpg`.
pub open spec fn upstream_url_of(base: Seq<char>, token: Seq<char>) -> Seq<char> {
    base + token + ".jpg"@
}

/// The content type used when the origin gives none that can be read.
pub open spec fn default_content_type() -> Seq<char> {
    "image/jpeg"@
}

/// A byte that a header value may hold and still be read as text.
pub open spec fn is_visible_ascii(b: u8) -> bool {
    (32 <= b && b < 127) || b == 9
}

/// A header value that reads as text.
pub open spec fn is_text_header(b: Seq<u8>) -> bool {
    forall|i: int| 0 <= i < b.len() ==> is_visible_ascii(#[trigger] b[i])
}

/// The characters of an ASCII byte sequence.
pub open spec fn ascii_chars(b: Seq<u8>) -> Seq<char> {
    b.map_values(|x: u8| x as char)
}

/// The content type relayed for the origin's `content-type` header: the
/// header's text when it is present and readable, otherwise `image/jpeg`.
pub open spec fn header_content_type(raw: Option<Seq<u8>>) -> Seq<char> {
    match raw {
        Some(b) => if is_text_header(b) {
            ascii_chars(b)
        } else {
            default_content_type()
        },
        None => default_content_type(),
    }
}

/// A status in the success range.
pub open spec fn is_success_status(status: u16) -> bool {
    200 <= status && status < 300
}

/// Relies on std's `String::from_utf8`: it succeeds exactly on valid UTF-8,
/// and then holds the characters that the bytes encode.
#[verifier::external_body]
fn text_from_bytes(b: Vec<u8>) -> (r: Option<String>)
    ensures
        r is Some <==> valid_utf8(b@),
        r matches Some(s) ==> s@ == decode_utf8(b@),
{
    String::from_utf8(b).ok()
}

proof fn lemma_text_header_decodes(b: Seq<u8>)
    requires
        is_text_header(b),
    ensures
        valid_utf8(b),
        decode_utf8(b) == ascii_chars(b),
{
    let chars = ascii_chars(b);
    assert forall|i: int| 0 <= i < chars.len() implies '\0' <= #[trigger] chars[i] <= '\u{7f}' by {
        assert(is_visible_ascii(b[i]));
    }
    is_ascii_chars_encode_utf8(chars);
    assert(encode_utf8(chars) =~= b);
    encode_utf8_valid_utf8(chars);
    encode_utf8_decode_utf8(chars);
}

/// The content type to relay, from the raw bytes of the origin's
/// `content-type` header, if it sent one.
pub fn content_type_from_header(raw: Option<Vec<u8>>) -> (r: String)
    ensures
        r@ == header_content_type(opt_bytes(raw)),
{
    match raw {
        Some(b) => {
            let mut readable = true;
            let mut i: usize = 0;
            while i < b.len()
                invariant
                    i <= b@.len(),
                    readable == (forall|j: int| 0 <= j < i ==> is_visible_ascii(#[trigger] b@[j])),
                decreases b@.len() - i,
            {
                let x = b[i];
                if !((32 <= x && x < 127) || x == 9) {
                    readable = false;
                }
                i = i + 1;
            }
            if readable {
                proof {
                    lemma_text_header_decodes(b@);
                }
                match text_from_bytes(b) {
                    Some(s) => s,
                    None => String::from_str("image/jpeg"),
                }
            } else {
                String::from_str("image/jpeg")
            }
        },
        None => String::from_str("image/jpeg"),
    }
}

/// The origin address to fetch for a token. The token is not escaped.
pub fn upstream_url(cfg: &Config, token: &str) -> (r: String)
    ensures
        r@ == upstream_url_of(cfg.origin_base_url@, token@),
{
    cfg.origin_base_url.clone().concat(token).concat(".jpg")
}

/// Where one proxy request stands. A request starts by connecting; once the
/// origin's headers have been accepted it streams the body into a buffer, and
/// it ends complete or failed. No state leads back to the start.
pub enum ProxyState {
    /// The request to `url` is about to be sent.
    Connecting { url: String },
    /// The origin answered with success; `body` holds what has arrived.
    Streaming { content_type: String, body: Vec<u8> },
    /// The whole body arrived.
    Complete(ImageResponse),
    /// The request failed; no bytes are relayed.
    Failed(GatewayError),
}

/// What happened at the origin since the last step.
pub enum OriginEvent {
    /// The request could not be delivered (DNS, refused connection, timeout).
    TransportFailed,
    /// The origin answered with a status and, perhaps, a `content-type` header.
    Headers { status: u16, content_type: Option<Vec<u8>> },
    /// One more piece of the body arrived.
    Chunk(Vec<u8>),
    /// Reading the body failed part way through.
    ChunkFailed,
    /// The body ended.
    Finished,
}

/// A `ProxyState` as mathematical values.
pub ghost enum ProxyModel {
    Connecting { url: Seq<char> },
    Streaming { content_type: Seq<char>, body: Seq<u8> },
    Complete(ImageModel),
    Failed(GatewayError),
}

/// An `OriginEvent` as mathematical values.
pub ghost enum EventModel {
    TransportFailed,
    Headers { status: u16, content_type: Option<Seq<u8>> },
    Chunk(Seq<u8>),
    ChunkFailed,
    Finished,
}

impl View for ProxyState {
    type V = ProxyModel;

    open spec fn view(&self) -> ProxyModel {
        match self {
            ProxyState::Connecting { url } => ProxyModel::Connecting { url: url@ },
            ProxyState::Streaming { content_type, body } => ProxyModel::Streaming {
                content_type: content_type@,
                body: body@,
            },
            ProxyState::Complete(img) => ProxyModel::Complete(img@),
            ProxyState::Failed(e) => ProxyModel::Failed(*e),
        }
    }
}

impl View for OriginEvent {
    type V = EventModel;

    open spec fn view(&self) -> EventModel {
        match self {
            OriginEvent::TransportFailed => EventModel::TransportFailed,
            OriginEvent::Headers { status, content_type } => EventModel::Headers {
                status: *status,
                content_type: opt_bytes(*content_type),
            },
            OriginEvent::Chunk(c) => EventModel::Chunk(c@),
            OriginEvent::ChunkFailed => EventModel::ChunkFailed,
            OriginEvent::Finished => EventModel::Finished,
        }
    }
}

/// One transition of a proxy request. An event that does not apply to the
/// current state leaves it as it is; the end states never change.
pub open spec fn next_state(s: ProxyModel, e: EventModel) -> ProxyModel {
    match s {
        ProxyModel::Connecting { url } => match e {
            EventModel::TransportFailed => ProxyModel::Failed(GatewayError::UpstreamUnavailable),
            EventModel::Headers { status, content_type } => if is_success_status(status) {
                ProxyModel::Streaming {
                    content_type: header_content_type(content_type),
                    body: Seq::empty(),
                }
            } else {
                ProxyModel::Failed(GatewayError::UpstreamError(status))
            },
            _ => s,
        },
        ProxyModel::Streaming { content_type, body } => match e {
            EventModel::Chunk(c) => ProxyModel::Streaming { content_type, body: body + c },
            EventModel::ChunkFailed => ProxyModel::Failed(GatewayError::BadUpstreamBody),
            EventModel::Finished => ProxyModel::Complete(ImageModel { content_type, body }),
            _ => s,
        },
        _ => s,
    }
}

/// The state reached from `s` after the events, in order.
pub open spec fn run_events(s: ProxyModel, events: Seq<EventModel>) -> ProxyModel
    decreases events.len(),
{
    if events.len() == 0 {
        s
    } else {
        run_events(next_state(s, events[0]), events.drop_first())
    }
}

/// The outcome of a request in an end state; none while it is under way.
pub open spec fn state_outcome(s: ProxyModel) -> Option<Result<ImageModel, GatewayError>> {
    match s {
        ProxyModel::Complete(img) => Some(Ok(img)),
        ProxyModel::Failed(e) => Some(Err(e)),
        _ => None,
    }
}

impl ProxyState {
    /// The state in which a proxy request for `token` begins.
    pub fn start(cfg: &Config, token: &str) -> (r: ProxyState)
        ensures
            r@ == (ProxyModel::Connecting {
                url: upstream_url_of(cfg.origin_base_url@, token@),
            }),
    {
        ProxyState::Connecting { url: upstream_url(cfg, token) }
    }

    /// Takes the request one step on from what happened at the origin.
    pub fn step(self, event: OriginEvent) -> (r: ProxyState)
        ensures
            r@ == next_state(self@, event@),
    {
        match self {
            ProxyState::Connecting { url } => match event {
                OriginEvent::TransportFailed => ProxyState::Failed(
                    GatewayError::UpstreamUnavailable,
                ),
                OriginEvent::Headers { status, content_type } => {
                    if 200 <= status && status < 300 {
                        ProxyState::Streaming {
                            content_type: content_type_from_header(content_type),
                            body: Vec::new(),
                        }
                    } else {
                        ProxyState::Failed(GatewayError::UpstreamError(status))
                    }
                },
                _ => ProxyState::Connecting { url },
            },
            ProxyState::Streaming { content_type, body } => match event {
                OriginEvent::Chunk(chunk) => {
                    let mut body = body;
                    let mut chunk = chunk;
                    body.append(&mut chunk);
                    ProxyState::Streaming { content_type, body }
                },
                OriginEvent::ChunkFailed => ProxyState::Failed(GatewayError::BadUpstreamBody),
                OriginEvent::Finished => ProxyState::Complete(ImageResponse { content_type, body }),
                _ => ProxyState::Streaming { content_type, body },
            },
            other => other,
        }
    }

    /// Whether the request has ended, complete or failed.
    pub fn is_finished(&self) -> (r: bool)
        ensures
            r == (state_outcome(self@) is Some),
    {
        match self {
            ProxyState::Complete(_) | ProxyState::Failed(_) => true,
            _ => false,
        }
    }

    /// The outcome of an ended request; `None` while it is under way.
    pub fn into_outcome(self) -> (r: Option<Result<ImageResponse, GatewayError>>)
        ensures
            match r {
                Some(o) => state_outcome(self@) == Some(outcome_model(o)),
                None => state_outcome(self@) is None,
            },
    {
        match self {
            ProxyState::Complete(img) => Some(Ok(img)),
            ProxyState::Failed(e) => Some(Err(e)),
            _ => None,
        }
    }
}

} // verus!
