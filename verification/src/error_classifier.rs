//! Classification of stream failures.
//!
//! A failure is known by its rendered text alone. The text is lower-cased and
//! searched for a few words, in a fixed order of precedence, and falls into
//! one of five kinds. Each kind has a tag, a fallback message in English and a
//! key under which a presentation layer finds its translation.

use vstd::prelude::*;
use crate::text::{chars_of, contains, contains_seq};

verus! {

/// The kinds of stream failure.
#[derive(Clone, Copy, Debug, PartialEq, Eq, Structural)]
pub enum ErrorKind {
    /// The request ran out of time.
    Timeout,
    /// The connection could not be made or was lost.
    Connection,
    /// What arrived could not be decoded.
    Decode,
    /// The stream or its body failed in transit.
    Stream,
    /// None of the above.
    Unknown,
}

impl ErrorKind {
    /// The tag of the kind.
    pub open spec fn tag_seq(self) -> Seq<char> {
        match self {
            ErrorKind::Timeout => "timeout_error"@,
            ErrorKind::Connection => "connection_error"@,
            ErrorKind::Decode => "decode_error"@,
            ErrorKind::Stream => "stream_error"@,
            ErrorKind::Unknown => "unknown_error"@,
        }
    }

    /// The fallback message of the kind.
    pub open spec fn message_seq(self) -> Seq<char> {
        match self {
            ErrorKind::Timeout => "Request timeout, please check your network connection"@,
            ErrorKind::Connection =>
                "Connection failed, please check your network or proxy settings"@,
            ErrorKind::Decode =>
                "Network unstable, data transmission interrupted. Try: 1) Check network 2) Switch proxy 3) Retry"@,
            ErrorKind::Stream => "Stream transmission error, please retry later"@,
            ErrorKind::Unknown => "Unknown error occurred"@,
        }
    }

    /// The localization key of the kind.
    pub open spec fn key_seq(self) -> Seq<char> {
        match self {
            ErrorKind::Timeout => "errors.stream.timeout_error"@,
            ErrorKind::Connection => "errors.stream.connection_error"@,
            ErrorKind::Decode => "errors.stream.decode_error"@,
            ErrorKind::Stream => "errors.stream.stream_error"@,
            ErrorKind::Unknown => "errors.stream.unknown_error"@,
        }
    }

    /// The tag of the kind, for logs and error codes.
    pub fn tag(self) -> (r: &'static str)
        ensures
            r@ == self.tag_seq(),
    {
        match self {
            ErrorKind::Timeout => "timeout_error",
            ErrorKind::Connection => "connection_error",
            ErrorKind::Decode => "decode_error",
            ErrorKind::Stream => "stream_error",
            ErrorKind::Unknown => "unknown_error",
        }
    }

    /// The fallback message of the kind, in English.
    pub fn message(self) -> (r: &'static str)
        ensures
            r@ == self.message_seq(),
    {
        match self {
            ErrorKind::Timeout => "Request timeout, please check your network connection",
            ErrorKind::Connection =>
                "Connection failed, please check your network or proxy settings",
            ErrorKind::Decode =>
                "Network unstable, data transmission interrupted. Try: 1) Check network 2) Switch proxy 3) Retry",
            ErrorKind::Stream => "Stream transmission error, please retry later",
            ErrorKind::Unknown => "Unknown error occurred",
        }
    }

    /// The localization key of the kind.
    pub fn localization_key(self) -> (r: &'static str)
        ensures
            r@ == self.key_seq(),
            r@ == "errors.stream."@ + self.tag_seq(),
    {
        proof {
            lemma_key_is_namespaced_tag(self);
        }
        match self {
            ErrorKind::Timeout => "errors.stream.timeout_error",
            ErrorKind::Connection => "errors.stream.connection_error",
            ErrorKind::Decode => "errors.stream.decode_error",
            ErrorKind::Stream => "errors.stream.stream_error",
            ErrorKind::Unknown => "errors.stream.unknown_error",
        }
    }
}

/// The localization key of every kind is its tag under the namespace
/// `errors.stream.`.
pub proof fn lemma_key_is_namespaced_tag(kind: ErrorKind)
    ensures
        kind.key_seq() == "errors.stream."@ + kind.tag_seq(),
{
    reveal_strlit("errors.stream.");
    reveal_strlit("timeout_error");
    reveal_strlit("connection_error");
    reveal_strlit("decode_error");
    reveal_strlit("stream_error");
    reveal_strlit("unknown_error");
    reveal_strlit("errors.stream.timeout_error");
    reveal_strlit("errors.stream.connection_error");
    reveal_strlit("errors.stream.decode_error");
    reveal_strlit("errors.stream.stream_error");
    reveal_strlit("errors.stream.unknown_error");
    assert(kind.key_seq() =~= "errors.stream."@ + kind.tag_seq());
}

/// The kind of a failure whose lower-cased text is `lower`. The order of the
/// tests is the order of precedence: a text that speaks of a timeout and of a
/// connection is a timeout.
pub open spec fn kind_of_lowered(lower: Seq<char>) -> ErrorKind {
    if contains_seq(lower, "timeout"@) || contains_seq(lower, "deadline"@) {
        ErrorKind::Timeout
    } else if contains_seq(lower, "connection"@) || contains_seq(lower, "connect"@)
        || contains_seq(lower, "dns"@) {
        ErrorKind::Connection
    } else if contains_seq(lower, "decode"@) || contains_seq(lower, "parse"@) {
        ErrorKind::Decode
    } else if contains_seq(lower, "stream"@) || contains_seq(lower, "body"@) {
        ErrorKind::Stream
    } else {
        ErrorKind::Unknown
    }
}

/// The lower-case form that `str::to_lowercase` gives a text.
pub uninterp spec fn lowercase_of(text: Seq<char>) -> Seq<char>;

/// The kind of a failure whose rendered text is `text`.
pub open spec fn kind_of_text(text: Seq<char>) -> ErrorKind {
    kind_of_lowered(lowercase_of(text))
}

/// The lower-case form of `text`.
///
/// Trusted: `str::to_lowercase` returns the lower-case equivalent of the
/// text; it depends on the text alone.
#[verifier::external_body]
fn to_lowercase(text: &str) -> (r: String)
    ensures
        r@ == lowercase_of(text@),
{
    text.to_lowercase()
}

/// Whether `word` occurs in `hay`.
fn mentions(hay: &[char], word: &str) -> (b: bool)
    ensures
        b == contains_seq(hay@, word@),
{
    let needle = chars_of(word);
    contains(hay, needle.as_slice())
}

/// Classifies a failure by its text, already in lower case.
pub fn classify_lowered(lower: &str) -> (kind: ErrorKind)
    ensures
        kind == kind_of_lowered(lower@),
{
    let chars = chars_of(lower);
    let hay = chars.as_slice();
    if mentions(hay, "timeout") || mentions(hay, "deadline") {
        ErrorKind::Timeout
    } else if mentions(hay, "connection") || mentions(hay, "connect") || mentions(hay, "dns") {
        ErrorKind::Connection
    } else if mentions(hay, "decode") || mentions(hay, "parse") {
        ErrorKind::Decode
    } else if mentions(hay, "stream") || mentions(hay, "body") {
        ErrorKind::Stream
    } else {
        ErrorKind::Unknown
    }
}

/// Classifies a failure by its rendered text.
pub fn classify_text(text: &str) -> (kind: ErrorKind)
    ensures
        kind == kind_of_text(text@),
{
    let lower = to_lowercase(text);
    classify_lowered(lower.as_str())
}

/// Classifies a stream failure and returns its tag, its fallback message and
/// its localization key.
///
/// The failure is rendered as text and then classified as `kind_of_text`
/// says. The function has no effect besides its result, and the failure
/// itself is left as it was.
pub fn classify_stream_error<E: std::fmt::Display>(error: &E) -> (r: (
    &'static str,
    &'static str,
    &'static str,
))
    ensures
        exists|rendered: String|
            {
                &&& #[trigger] vstd::string::to_string_from_display_ensures::<E>(error, rendered)
                &&& r.0@ == kind_of_text(rendered@).tag_seq()
                &&& r.1@ == kind_of_text(rendered@).message_seq()
                &&& r.2@ == kind_of_text(rendered@).key_seq()
            },
        r.2@ == "errors.stream."@ + r.0@,
{
    let rendered = error.to_string();
    let kind = classify_text(rendered.as_str());
    (kind.tag(), kind.message(), kind.localization_key())
}

} // verus!
