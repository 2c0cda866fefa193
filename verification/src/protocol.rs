//! The wire protocol around one stream: the connection URL the handshake is
//! made with, classification of the handshake reply, and the framing of the
//! per-line and end-of-stream messages.
//!
//! JSON quoting and JSON field extraction are delegated to `serde_json`, and
//! query-parameter escaping to `urlencoding`, each behind a trusted wrapper;
//! everything around those calls — the reply's ordered field fallback, the
//! message shapes, the URL layout — is verified.

use vstd::prelude::*;
use vstd::string::*;

use crate::config::StreamConfig;

verus! {

/// The string value of the given field of the given JSON text, if the text
/// parses as a JSON object carrying that field with a string value.
pub uninterp spec fn json_str_field(text: Seq<char>, key: Seq<char>) -> Option<Seq<char>>;

/// The JSON string literal (quotes and escapes included) encoding the given
/// characters.
pub uninterp spec fn json_quoted(s: Seq<char>) -> Seq<char>;

/// The URL query-parameter encoding of the given characters.
pub uninterp spec fn url_encoded(s: Seq<char>) -> Seq<char>;

/// Relies on serde_json: `from_str` parses the text as JSON, `Value::get`
/// looks the field up in the parsed object, and `Value::as_str` yields it
/// only when it is a string. The composition depends on the two arguments
/// alone.
#[verifier::external_body]
fn json_string_field(text: &str, key: &str) -> (r: Option<String>)
    ensures
        r is Some <==> json_str_field(text@, key@) is Some,
        r matches Some(s) ==> json_str_field(text@, key@) == Some(s@),
{
    match serde_json::from_str::<serde_json::Value>(text) {
        Ok(v) => v.get(key).and_then(|f| f.as_str()).map(|s| s.to_string()),
        Err(_) => None,
    }
}

/// Relies on serde_json: the `Display` rendering of a JSON string value is
/// the quoted, escaped JSON string literal for it, a function of the
/// characters alone.
#[verifier::external_body]
fn json_quote(s: &str) -> (r: String)
    ensures
        r@ == json_quoted(s@),
{
    serde_json::Value::String(s.to_string()).to_string()
}

/// Relies on urlencoding::encode: percent-encodes everything but the
/// unreserved characters, a function of the characters alone.
#[verifier::external_body]
fn url_encode(s: &str) -> (r: String)
    ensures
        r@ == url_encoded(s@),
{
    urlencoding::encode(s).into_owned()
}

/// An error that ends the run. None is retried; the only adaptive response
/// is the pacing backoff recorded before the error is surfaced.
#[derive(Debug)]
pub enum StreamError {
    /// The handshake reply assigned no stream identifier. Carries the
    /// server's error text, or the raw reply when it had neither field.
    Protocol(String),
    /// Sending a line or the end-of-stream message failed.
    Transmit,
    /// The peer closed the connection mid-operation.
    ConnectionClosed,
    /// A message was requested before the handshake assigned a stream
    /// identifier.
    NotOpened,
}

/// The stream identifier the handshake reply assigns, looked up as the
/// string field `streamId` first and `stream_id` second.
pub open spec fn spec_handshake_id(text: Seq<char>) -> Option<Seq<char>> {
    match json_str_field(text, "streamId"@) {
        Some(id) => Some(id),
        None => json_str_field(text, "stream_id"@),
    }
}

/// The text a rejected handshake reply is reported with: the reply's string
/// field `error` if it has one, otherwise the raw reply.
pub open spec fn spec_handshake_failure_text(text: Seq<char>) -> Seq<char> {
    match json_str_field(text, "error"@) {
        Some(msg) => msg,
        None => text,
    }
}

/// The per-line message referencing the given stream identifier.
pub open spec fn spec_line_message(id: Seq<char>, content: Seq<char>) -> Seq<char> {
    "{\"type\": \"line\", \"stream_id\": "@ + json_quoted(id) + ", \"content\": "@ + json_quoted(
        content,
    ) + "}"@
}

/// The end-of-stream message referencing the given stream identifier.
pub open spec fn spec_end_message(id: Seq<char>) -> Seq<char> {
    "{\"type\": \"end_stream\", \"stream_id\": "@ + json_quoted(id) + "}"@
}

/// One stream's protocol state: the identifier the handshake assigned, if
/// it has. The identifier is set at most once per run; line and
/// end-of-stream messages are refused until it is set, and then always
/// reference that exact value.
pub struct StreamSession {
    pub stream_id: Option<String>,
}

impl StreamSession {
    /// Whether the handshake has assigned a stream identifier.
    pub open spec fn opened(self) -> bool {
        self.stream_id is Some
    }

    /// The assigned stream identifier.
    pub open spec fn spec_id(self) -> Seq<char>
        recommends
            self.opened(),
    {
        self.stream_id->0@
    }

    /// A session that has not completed its handshake yet.
    pub fn new() -> (r: Self)
        ensures
            !r.opened(),
    {
        StreamSession { stream_id: None }
    }

    /// Classify the one handshake reply message: adopt the stream
    /// identifier it assigns — field `streamId` checked before
    /// `stream_id` — or report the reply as a protocol error carrying the
    /// server's error text, or the raw reply when it has neither field.
    pub fn open_from_reply(&mut self, text: &str) -> (r: Result<String, StreamError>)
        requires
            !old(self).opened(),
        ensures
            match spec_handshake_id(text@) {
                Some(id) => {
                    &&& (r matches Ok(got) && got@ == id)
                    &&& final(self).opened()
                    &&& final(self).spec_id() == id
                },
                None => {
                    &&& (r matches Err(StreamError::Protocol(m)) && m@
                        == spec_handshake_failure_text(text@))
                    &&& !final(self).opened()
                },
            },
    {
        let id_opt = match json_string_field(text, "streamId") {
            Some(id) => Some(id),
            None => json_string_field(text, "stream_id"),
        };
        match id_opt {
            Some(id) => {
                let out = id.clone();
                self.stream_id = Some(id);
                Ok(out)
            },
            None => match json_string_field(text, "error") {
                Some(msg) => Err(StreamError::Protocol(msg)),
                None => Err(StreamError::Protocol(text.to_owned())),
            },
        }
    }

    /// Frame one buffered line as the per-line message, referencing the
    /// assigned stream identifier; refused while the session is unopened.
    pub fn line_message(&self, content: &str) -> (r: Result<String, StreamError>)
        ensures
            self.opened() ==> (r matches Ok(m) && m@ == spec_line_message(
                self.spec_id(),
                content@,
            )),
            !self.opened() ==> (r matches Err(StreamError::NotOpened)),
    {
        match &self.stream_id {
            Some(id) => {
                let mut m = String::from_str("{\"type\": \"line\", \"stream_id\": ");
                let quoted_id = json_quote(id.as_str());
                m.append(quoted_id.as_str());
                m.append(", \"content\": ");
                let quoted_content = json_quote(content);
                m.append(quoted_content.as_str());
                m.append("}");
                proof {
                    assert(m@ =~= spec_line_message(self.spec_id(), content@));
                }
                Ok(m)
            },
            None => Err(StreamError::NotOpened),
        }
    }

    /// Frame the end-of-stream message, referencing the assigned stream
    /// identifier; refused while the session is unopened.
    pub fn end_message(&self) -> (r: Result<String, StreamError>)
        ensures
            self.opened() ==> (r matches Ok(m) && m@ == spec_end_message(self.spec_id())),
            !self.opened() ==> (r matches Err(StreamError::NotOpened)),
    {
        match &self.stream_id {
            Some(id) => {
                let mut m = String::from_str("{\"type\": \"end_stream\", \"stream_id\": ");
                let quoted_id = json_quote(id.as_str());
                m.append(quoted_id.as_str());
                m.append("}");
                proof {
                    assert(m@ =~= spec_end_message(self.spec_id()));
                }
                Ok(m)
            },
            None => Err(StreamError::NotOpened),
        }
    }
}

/// The given characters with every trailing `/` removed.
pub open spec fn spec_trim_trailing_slashes(s: Seq<char>) -> Seq<char>
    decreases s.len(),
{
    if s.len() > 0 && s[s.len() - 1] == '/' {
        spec_trim_trailing_slashes(s.drop_last())
    } else {
        s
    }
}

fn trim_trailing_slashes<'a>(s: &'a str) -> (r: &'a str)
    ensures
        r@ == spec_trim_trailing_slashes(s@),
{
    let len = s.unicode_len();
    let mut end: usize = len;
    proof {
        assert(s@.subrange(0, end as int) =~= s@);
    }
    while end > 0 && s.get_char(end - 1) == '/'
        invariant
            end <= len,
            len == s@.len(),
            spec_trim_trailing_slashes(s@) == spec_trim_trailing_slashes(
                s@.subrange(0, end as int),
            ),
        decreases end,
    {
        proof {
            assert(s@.subrange(0, end as int).drop_last() =~= s@.subrange(0, end - 1));
        }
        end = end - 1;
    }
    let r = s.substring_char(0, end);
    proof {
        assert(r@ == s@.subrange(0, end as int));
    }
    r
}

/// The URL the connection handshake is opened against: the base URL with
/// trailing slashes trimmed, the fixed endpoint path, the raw token, the
/// encoded stream name, and the encoded description when there is one.
pub open spec fn spec_connection_url(base: Seq<char>, token: Seq<char>, config: StreamConfig) -> Seq<
    char,
> {
    spec_trim_trailing_slashes(base) + "/api/stream/ws?token="@ + token + "&name="@ + url_encoded(
        config.name@,
    ) + (match config.description {
        Some(d) => "&description="@ + url_encoded(d@),
        None => Seq::<char>::empty(),
    })
}

/// Build the connection URL that encodes the stream parameters and the
/// authentication token for the handshake.
pub fn connection_url(base: &str, token: &str, config: &StreamConfig) -> (r: String)
    ensures
        r@ == spec_connection_url(base@, token@, *config),
{
    let mut url = String::new();
    let trimmed = trim_trailing_slashes(base);
    url.append(trimmed);
    url.append("/api/stream/ws?token=");
    url.append(token);
    url.append("&name=");
    let enc_name = url_encode(config.name.as_str());
    url.append(enc_name.as_str());
    match &config.description {
        Some(d) => {
            url.append("&description=");
            let enc_d = url_encode(d.as_str());
            url.append(enc_d.as_str());
        },
        None => {},
    }
    proof {
        assert(url@ =~= spec_connection_url(base@, token@, *config));
    }
    url
}

} // verus!
