//! The Qwen-ASR Realtime protocol: configuration checks, the WebSocket
//! endpoint, the client events that carry the audio, and how server events
//! end a session.
use crate::json::{json_error_text, json_literal, json_string_literal};
use crate::text::{
    decimal, decimal_spec, is_blank, starts_with, starts_with_spec, str_eq, trim, trim_end_char,
    trim_end_char_spec, trim_spec,
};
use vstd::prelude::*;
use vstd::string::StringExecFns;

verus! {

broadcast use vstd::string::group_string_axioms;

/// Connection settings for the online recogniser.
pub struct QwenAsrConfig {
    pub api_key: String,
    pub model: String,
    pub url: String,
    pub language: String,
}

/// Final text of an online transcription.
pub struct QwenAsrTranscript {
    pub text: String,
}

/// Why a configuration cannot be used.
#[derive(Debug, Clone, Copy, PartialEq, Eq, Structural)]
pub enum QwenConfigError {
    MissingApiKey,
    MissingModel,
    MissingUrl,
    NotWss,
}

impl QwenConfigError {
    pub open spec fn message_spec(self) -> Seq<char> {
        match self {
            QwenConfigError::MissingApiKey => "请先填写 DashScope API Key。"@,
            QwenConfigError::MissingModel => "请先填写 Qwen-ASR 模型名。"@,
            QwenConfigError::MissingUrl => "请先填写 Qwen-ASR WebSocket 地址。"@,
            QwenConfigError::NotWss => "Qwen-ASR WebSocket 地址需要以 wss:// 开头。"@,
        }
    }

    /// The message shown for this error.
    pub fn message(self) -> (r: &'static str)
        ensures
            r@ == self.message_spec(),
    {
        match self {
            QwenConfigError::MissingApiKey => "请先填写 DashScope API Key。",
            QwenConfigError::MissingModel => "请先填写 Qwen-ASR 模型名。",
            QwenConfigError::MissingUrl => "请先填写 Qwen-ASR WebSocket 地址。",
            QwenConfigError::NotWss => "Qwen-ASR WebSocket 地址需要以 wss:// 开头。",
        }
    }
}

/// The first problem of a configuration, checked in order: API key, model,
/// address, and the address's `wss://` scheme.
pub open spec fn config_problem(c: QwenAsrConfig) -> Option<QwenConfigError> {
    if trim_spec(c.api_key@).len() == 0 {
        Some(QwenConfigError::MissingApiKey)
    } else if trim_spec(c.model@).len() == 0 {
        Some(QwenConfigError::MissingModel)
    } else if trim_spec(c.url@).len() == 0 {
        Some(QwenConfigError::MissingUrl)
    } else if !starts_with_spec(trim_spec(c.url@), "wss://"@) {
        Some(QwenConfigError::NotWss)
    } else {
        None
    }
}

/// Checks that the key, model and address are filled in and that the
/// address is a secure WebSocket one.
pub fn validate_config(config: &QwenAsrConfig) -> (r: Result<(), QwenConfigError>)
    ensures
        r is Ok <==> config_problem(*config) is None,
        r is Err ==> config_problem(*config) == Some(r->Err_0),
{
    if is_blank(config.api_key.as_str()) {
        return Err(QwenConfigError::MissingApiKey);
    }
    if is_blank(config.model.as_str()) {
        return Err(QwenConfigError::MissingModel);
    }
    if is_blank(config.url.as_str()) {
        return Err(QwenConfigError::MissingUrl);
    }
    let url = trim(config.url.as_str());
    if !starts_with(url.as_str(), "wss://") {
        return Err(QwenConfigError::NotWss);
    }
    Ok(())
}

/// The WebSocket address: the trimmed address without trailing slashes,
/// then `?` (or `&` when it already has a query), then `model=` and the
/// trimmed model name.
pub open spec fn endpoint_spec(url: Seq<char>, model: Seq<char>) -> Seq<char> {
    let base = trim_end_char_spec(trim_spec(url), '/');
    let sep = if base.contains('?') {
        "&"@
    } else {
        "?"@
    };
    base + sep + "model="@ + trim_spec(model)
}

/// Value of the `Authorization` header.
pub open spec fn authorization_spec(api_key: Seq<char>) -> Seq<char> {
    "bearer "@ + trim_spec(api_key)
}

/// What opening a session needs.
pub struct QwenSession {
    pub endpoint: String,
    pub authorization: String,
    pub language: String,
}

pub open spec fn empty_audio_message() -> Seq<char> {
    "录音音频为空。"@
}

/// Prepares a session for `sample_count` samples of audio: the configuration
/// must be usable and the audio non-empty.
pub fn plan_session(config: &QwenAsrConfig, sample_count: usize) -> (r: Result<QwenSession, String>)
    ensures
        config_problem(*config) matches Some(e) ==> r is Err && r->Err_0@ == e.message_spec(),
        config_problem(*config) is None && sample_count == 0 ==> r is Err && r->Err_0@
            == empty_audio_message(),
        config_problem(*config) is None && sample_count > 0 ==> (r matches Ok(s) && s.endpoint@
            == endpoint_spec(config.url@, config.model@) && s.authorization@
            == authorization_spec(config.api_key@) && s.language@ == trim_spec(
            config.language@,
        )),
{
    if let Err(e) = validate_config(config) {
        return Err(String::from_str(e.message()));
    }
    if sample_count == 0 {
        return Err(String::from_str("录音音频为空。"));
    }
    let url = trim(config.url.as_str());
    let base = trim_end_char(url.as_str(), '/');
    let has_query = crate::text::contains_char(base.as_str(), '?');
    let mut endpoint = base;
    if has_query {
        endpoint.append("&");
    } else {
        endpoint.append("?");
    }
    endpoint.append("model=");
    endpoint.append(trim(config.model.as_str()).as_str());
    let mut authorization = String::from_str("bearer ");
    authorization.append(trim(config.api_key.as_str()).as_str());
    Ok(QwenSession { endpoint, authorization, language: trim(config.language.as_str()) })
}

// ------------------------------------------------------------ client events

/// Identifier of a client event: the prefix, `_` and the time in milliseconds.
pub open spec fn event_id_spec(prefix: Seq<char>, millis: nat) -> Seq<char> {
    prefix + "_"@ + decimal_spec(millis)
}

/// Identifier of a client event sent at `millis` (milliseconds since the Unix epoch).
pub fn event_id(prefix: &str, millis: u64) -> (r: String)
    ensures
        r@ == event_id_spec(prefix@, millis as nat),
{
    let mut r = String::from_str(prefix);
    r.append("_");
    r.append(decimal(millis).as_str());
    r
}

/// `session.update`: 16 kHz PCM input in the given language, no server-side
/// turn detection. Keys are in the order `serde_json` writes them.
pub open spec fn session_update_spec(event_id: Seq<char>, language: Seq<char>) -> Seq<char> {
    "{\"event_id\":"@ + json_literal(event_id)
        + ",\"session\":{\"input_audio_format\":\"pcm\",\"input_audio_transcription\":{\"language\":"@
        + json_literal(language) + "},\"sample_rate\":16000,\"turn_detection\":null},\"type\":\"session.update\"}"@
}

/// The `session.update` event that opens a session.
pub fn session_update_event(event_id: &str, language: &str) -> (r: String)
    ensures
        r@ == session_update_spec(event_id@, language@),
{
    let mut r = String::from_str("{\"event_id\":");
    r.append(json_string_literal(event_id).as_str());
    r.append(
        ",\"session\":{\"input_audio_format\":\"pcm\",\"input_audio_transcription\":{\"language\":",
    );
    r.append(json_string_literal(language).as_str());
    r.append("},\"sample_rate\":16000,\"turn_detection\":null},\"type\":\"session.update\"}");
    r
}

/// An event that only carries its identifier and type.
pub open spec fn bare_event_spec(event_id: Seq<char>, event_type: Seq<char>) -> Seq<char> {
    "{\"event_id\":"@ + json_literal(event_id) + ",\"type\":"@ + json_literal(event_type) + "}"@
}

/// `input_audio_buffer.commit`: the audio sent so far is complete.
pub fn commit_event(event_id: &str) -> (r: String)
    ensures
        r@ == bare_event_spec(event_id@, "input_audio_buffer.commit"@),
{
    let mut r = String::from_str("{\"event_id\":");
    r.append(json_string_literal(event_id).as_str());
    r.append(",\"type\":");
    r.append(json_string_literal("input_audio_buffer.commit").as_str());
    r.append("}");
    r
}

/// `session.finish`: the client has nothing more to send.
pub fn finish_event(event_id: &str) -> (r: String)
    ensures
        r@ == bare_event_spec(event_id@, "session.finish"@),
{
    let mut r = String::from_str("{\"event_id\":");
    r.append(json_string_literal(event_id).as_str());
    r.append(",\"type\":");
    r.append(json_string_literal("session.finish").as_str());
    r.append("}");
    r
}

/// Character of the standard base64 alphabet for `n < 64`.
pub open spec fn base64_char(n: nat) -> char {
    if n < 26 {
        (65 + n) as char
    } else if n < 52 {
        (71 + n) as char
    } else if n < 62 {
        (n - 4) as char
    } else if n == 62 {
        '+'
    } else {
        '/'
    }
}

/// Standard base64 with `=` padding (RFC 4648): each group of three bytes
/// becomes four characters.
pub open spec fn base64_spec(b: Seq<u8>) -> Seq<char>
    decreases b.len(),
{
    if b.len() == 0 {
        Seq::empty()
    } else if b.len() == 1 {
        seq![base64_char((b[0] / 4) as nat), base64_char(((b[0] % 4) * 16) as nat), '=', '=']
    } else if b.len() == 2 {
        seq![
            base64_char((b[0] / 4) as nat),
            base64_char(((b[0] % 4) * 16 + b[1] / 16) as nat),
            base64_char(((b[1] % 16) * 4) as nat),
            '=',
        ]
    } else {
        seq![
            base64_char((b[0] / 4) as nat),
            base64_char(((b[0] % 4) * 16 + b[1] / 16) as nat),
            base64_char(((b[1] % 16) * 4 + b[2] / 64) as nat),
            base64_char((b[2] % 64) as nat),
        ] + base64_spec(b.skip(3))
    }
}

/// `base64::engine::general_purpose::STANDARD.encode`: claimed to be the
/// standard padded encoding `base64_spec` of RFC 4648, which the crate
/// documents. The crate panics when the encoded length overflows `usize`,
/// which the bound rules out.
#[verifier::external_body]
fn base64_standard(bytes: &[u8]) -> (r: String)
    requires
        bytes@.len() <= usize::MAX / 2,
    ensures
        r@ == base64_spec(bytes@),
{
    base64::Engine::encode(&base64::engine::general_purpose::STANDARD, bytes)
}

/// Most bytes of audio in one `input_audio_buffer.append` event.
pub const MAX_APPEND_BYTES: usize = 524288;

/// The byte ranges `[start, end)` that split `len` bytes of audio into
/// events: consecutive, each `MAX_APPEND_BYTES` long except the last.
pub fn audio_chunks(len: usize) -> (r: Vec<(usize, usize)>)
    ensures
        r@.len() == (len + MAX_APPEND_BYTES - 1) / (MAX_APPEND_BYTES as int),
        forall|k: int|
            0 <= k < r@.len() ==> (#[trigger] r@[k]).0 == k * MAX_APPEND_BYTES && r@[k].1 == if (k
                + 1) * MAX_APPEND_BYTES <= len {
                (k + 1) * MAX_APPEND_BYTES
            } else {
                len as int
            },
{
    let mut r: Vec<(usize, usize)> = Vec::new();
    let mut start: usize = 0;
    while start < len
        invariant
            start <= len,
            r@.len() == 0 ==> start == 0,
            r@.len() > 0 ==> (r@.len() - 1) * MAX_APPEND_BYTES < start <= r@.len()
                * MAX_APPEND_BYTES,
            start < len ==> start == r@.len() * MAX_APPEND_BYTES,
            forall|k: int|
                0 <= k < r@.len() ==> (#[trigger] r@[k]).0 == k * MAX_APPEND_BYTES && r@[k].1
                    == if (k + 1) * MAX_APPEND_BYTES <= len {
                    (k + 1) * MAX_APPEND_BYTES
                } else {
                    len as int
                },
        decreases len - start,
    {
        let end = if len - start > MAX_APPEND_BYTES {
            start + MAX_APPEND_BYTES
        } else {
            len
        };
        r.push((start, end));
        start = end;
    }
    let ghost n = r@.len();
    assert(n == (len + MAX_APPEND_BYTES - 1) / (MAX_APPEND_BYTES as int)) by (nonlinear_arith)
        requires
            n == 0 ==> len == 0,
            n > 0 ==> (n - 1) * MAX_APPEND_BYTES < len <= n * MAX_APPEND_BYTES,
    ;
    r
}

/// `input_audio_buffer.append` carrying `chunk` base64-encoded.
pub open spec fn append_event_spec(event_id: Seq<char>, chunk: Seq<u8>) -> Seq<char> {
    "{\"audio\":"@ + json_literal(base64_spec(chunk)) + ",\"event_id\":"@ + json_literal(event_id)
        + ",\"type\":\"input_audio_buffer.append\"}"@
}

/// The event that sends one chunk of 16-bit little-endian PCM audio.
pub fn audio_append_event(event_id: &str, chunk: &[u8]) -> (r: String)
    requires
        chunk@.len() <= MAX_APPEND_BYTES,
    ensures
        r@ == append_event_spec(event_id@, chunk@),
{
    let audio = base64_standard(chunk);
    let mut r = String::from_str("{\"audio\":");
    r.append(json_string_literal(audio.as_str()).as_str());
    r.append(",\"event_id\":");
    r.append(json_string_literal(event_id).as_str());
    r.append(",\"type\":\"input_audio_buffer.append\"}");
    r
}

/// One client event of a session.
#[derive(Debug, Clone, Copy, PartialEq, Eq, Structural)]
pub enum ClientEvent {
    /// `session.update`.
    SessionUpdate,
    /// `input_audio_buffer.append` with the audio bytes `[start, end)`.
    Append { start: usize, end: usize },
    /// `input_audio_buffer.commit`.
    Commit,
    /// `session.finish`.
    Finish,
}

/// End of the `k`-th chunk of `len` bytes of audio.
pub open spec fn chunk_end(k: int, len: int) -> int {
    if (k + 1) * MAX_APPEND_BYTES <= len {
        (k + 1) * MAX_APPEND_BYTES
    } else {
        len
    }
}

/// Number of chunks that `len` bytes of audio are sent in.
pub open spec fn chunk_count(len: int) -> int {
    (len + MAX_APPEND_BYTES - 1) / (MAX_APPEND_BYTES as int)
}

/// The events a session sends for `len` bytes of audio, in order: the
/// `session.update`, one append per chunk (see `audio_chunks`), the commit
/// and the finish.
pub fn session_events(len: usize) -> (r: Vec<ClientEvent>)
    ensures
        r@.len() == chunk_count(len as int) + 3,
        r@[0] == ClientEvent::SessionUpdate,
        forall|k: int|
            1 <= k <= chunk_count(len as int) ==> (#[trigger] r@[k]) == (ClientEvent::Append {
                start: ((k - 1) * MAX_APPEND_BYTES) as usize,
                end: chunk_end(k - 1, len as int) as usize,
            }),
        r@[chunk_count(len as int) + 1] == ClientEvent::Commit,
        r@[chunk_count(len as int) + 2] == ClientEvent::Finish,
{
    let chunks = audio_chunks(len);
    let mut r: Vec<ClientEvent> = Vec::new();
    r.push(ClientEvent::SessionUpdate);
    let mut i: usize = 0;
    while i < chunks.len()
        invariant
            i <= chunks@.len(),
            chunks@.len() == chunk_count(len as int),
            r@.len() == i + 1,
            r@[0] == ClientEvent::SessionUpdate,
            forall|k: int|
                0 <= k < chunks@.len() ==> (#[trigger] chunks@[k]).0 == k * MAX_APPEND_BYTES
                    && chunks@[k].1 == chunk_end(k, len as int),
            forall|k: int|
                1 <= k <= i ==> (#[trigger] r@[k]) == (ClientEvent::Append {
                    start: ((k - 1) * MAX_APPEND_BYTES) as usize,
                    end: chunk_end(k - 1, len as int) as usize,
                }),
        decreases chunks@.len() - i,
    {
        let (start, end) = chunks[i];
        assert(chunks@[i as int].0 == i * MAX_APPEND_BYTES);
        r.push(ClientEvent::Append { start, end });
        i = i + 1;
    }
    r.push(ClientEvent::Commit);
    r.push(ClientEvent::Finish);
    r
}

/// The text of a client event sent at `millis` (milliseconds since the Unix
/// epoch), for a session in `language` sending the audio `pcm`. Each event
/// is identified by its kind (`session`, `audio`, `commit`, `finish`) and
/// the time.
pub fn client_event_text(event: ClientEvent, language: &str, pcm: &[u8], millis: u64) -> (r: String)
    requires
        event matches ClientEvent::Append { start, end } ==> start <= end <= pcm@.len() && end
            - start <= MAX_APPEND_BYTES,
    ensures
        match event {
            ClientEvent::SessionUpdate => r@ == session_update_spec(
                event_id_spec("session"@, millis as nat),
                language@,
            ),
            ClientEvent::Append { start, end } => r@ == append_event_spec(
                event_id_spec("audio"@, millis as nat),
                pcm@.subrange(start as int, end as int),
            ),
            ClientEvent::Commit => r@ == bare_event_spec(
                event_id_spec("commit"@, millis as nat),
                "input_audio_buffer.commit"@,
            ),
            ClientEvent::Finish => r@ == bare_event_spec(
                event_id_spec("finish"@, millis as nat),
                "session.finish"@,
            ),
        },
{
    match event {
        ClientEvent::SessionUpdate => session_update_event(
            event_id("session", millis).as_str(),
            language,
        ),
        ClientEvent::Append { start, end } => {
            let chunk = vstd::slice::slice_subrange(pcm, start, end);
            audio_append_event(event_id("audio", millis).as_str(), chunk)
        },
        ClientEvent::Commit => commit_event(event_id("commit", millis).as_str()),
        ClientEvent::Finish => finish_event(event_id("finish", millis).as_str()),
    }
}

// ------------------------------------------------------------ server events

/// The `code`, `message` and `param` members of an error object, each kept
/// only when it is a string.
pub struct ErrorFields {
    pub code: Option<String>,
    pub message: Option<String>,
    pub param: Option<String>,
}

/// What the client reads from a server event: its `type` and `transcript`
/// (when they are strings), the fields of its `error` member when it has
/// one, and the same fields read from the event itself.
pub struct ServerEvent {
    pub event_type: Option<String>,
    pub transcript: Option<String>,
    pub error_member: Option<ErrorFields>,
    pub top_level: ErrorFields,
}

/// Plain-value model of `ErrorFields`.
pub struct ErrorFieldsView {
    pub code: Option<Seq<char>>,
    pub message: Option<Seq<char>>,
    pub param: Option<Seq<char>>,
}

/// Plain-value model of `ServerEvent`.
pub struct ServerEventView {
    pub event_type: Option<Seq<char>>,
    pub transcript: Option<Seq<char>>,
    pub error_member: Option<ErrorFieldsView>,
    pub top_level: ErrorFieldsView,
}

pub open spec fn opt_string_view(o: Option<String>) -> Option<Seq<char>> {
    match o {
        Some(s) => Some(s@),
        None => None,
    }
}

impl View for ErrorFields {
    type V = ErrorFieldsView;

    open spec fn view(&self) -> ErrorFieldsView {
        ErrorFieldsView {
            code: opt_string_view(self.code),
            message: opt_string_view(self.message),
            param: opt_string_view(self.param),
        }
    }
}

impl View for ServerEvent {
    type V = ServerEventView;

    open spec fn view(&self) -> ServerEventView {
        ServerEventView {
            event_type: opt_string_view(self.event_type),
            transcript: opt_string_view(self.transcript),
            error_member: match self.error_member {
                Some(f) => Some(f@),
                None => None,
            },
            top_level: self.top_level@,
        }
    }
}

/// What `serde_json` reads from the text of a server message, or `None`
/// when the text is not JSON.
pub uninterp spec fn qwen_server_event(text: Seq<char>) -> Option<ServerEventView>;

/// `serde_json::from_str::<Value>` followed by `Value::get` and
/// `Value::as_str` on the members the client reads. Claimed: it succeeds
/// exactly when `qwen_server_event` gives an event, and returns that event;
/// what the members are for a given text is left to `serde_json`.
#[verifier::external_body]
fn parse_server_event(text: &str) -> (r: Result<ServerEvent, serde_json::Error>)
    ensures
        r is Ok <==> qwen_server_event(text@) is Some,
        r is Ok ==> r->Ok_0@ == qwen_server_event(text@)->0,
{
    let v: serde_json::Value = serde_json::from_str(text)?;
    let s = |x: Option<&serde_json::Value>| x.and_then(serde_json::Value::as_str).map(String::from);
    let f = |x: &serde_json::Value| ErrorFields { code: s(x.get("code")), message: s(x.get("message")), param: s(x.get("param")) };
    Ok(ServerEvent { event_type: s(v.get("type")), transcript: s(v.get("transcript")), error_member: v.get("error").map(f), top_level: f(&v) })
}

/// The error report of a server event: the fields of its `error` member
/// (or of the event itself when it has none), with `unknown` and `未知错误`
/// standing in for a missing code and message, and the parameter appended
/// in brackets when present and non-empty.
pub open spec fn qwen_error_spec(e: ServerEventView) -> Seq<char> {
    let f = match e.error_member {
        Some(m) => m,
        None => e.top_level,
    };
    let code = match f.code {
        Some(c) => c,
        None => "unknown"@,
    };
    let message = match f.message {
        Some(m) => m,
        None => "未知错误"@,
    };
    let param = match f.param {
        Some(p) => p,
        None => Seq::empty(),
    };
    if param.len() == 0 {
        "Qwen-ASR 返回错误: "@ + code + ": "@ + message
    } else {
        "Qwen-ASR 返回错误: "@ + code + ": "@ + message + " ("@ + param + ")"@
    }
}

/// Formats the error carried by a server event.
pub fn format_qwen_error(event: &ServerEvent) -> (r: String)
    ensures
        r@ == qwen_error_spec(event@),
{
    let f = match &event.error_member {
        Some(m) => m,
        None => &event.top_level,
    };
    let mut r = String::from_str("Qwen-ASR 返回错误: ");
    match &f.code {
        Some(c) => r.append(c.as_str()),
        None => r.append("unknown"),
    }
    r.append(": ");
    match &f.message {
        Some(m) => r.append(m.as_str()),
        None => r.append("未知错误"),
    }
    match &f.param {
        Some(p) => {
            if !p.as_str().is_empty() {
                r.append(" (");
                r.append(p.as_str());
                r.append(")");
            }
        },
        None => {},
    }
    r
}

/// How receiving continues after a server message.
pub enum ReceiveStep {
    /// Keep reading.
    Continue,
    /// The server closed the session: stop reading.
    Finished,
    /// The session failed with this message.
    Failed(String),
}

pub open spec fn completed_event_type() -> Seq<char> {
    "conversation.item.input_audio_transcription.completed"@
}

pub open spec fn failed_event_type() -> Seq<char> {
    "conversation.item.input_audio_transcription.failed"@
}

pub open spec fn parse_failure_prefix(text: Seq<char>) -> Seq<char> {
    "解析 Qwen-ASR 响应失败: "@ + text + ": "@
}

pub open spec fn no_final_text_message() -> Seq<char> {
    "Qwen-ASR 没有返回最终识别文本。"@
}

/// The receiving end of a session: the final transcript seen so far.
pub struct QwenReceiver {
    pub final_text: String,
}

/// Reading a session ends only at `session.finished`: a server event
/// fails the session exactly when it is `error` or a failed transcription;
/// a completed transcription carrying a transcript makes its trimmed text
/// the final text; every other event (such as
/// `input_audio_buffer.committed`) lets reading go on and leaves the final
/// text as it was.
pub proof fn law_receiving_ends_at_session_finished(
    e: ServerEventView,
    before: Seq<char>,
    step: ReceiveStep,
    after: Seq<char>,
)
    requires
        QwenReceiver::handles(e, before, step, after),
    ensures
        step is Finished <==> e.event_type == Some("session.finished"@),
        step is Failed <==> (e.event_type == Some("error"@) || e.event_type == Some(
            "conversation.item.input_audio_transcription.failed"@,
        )),
        e.event_type == Some("conversation.item.input_audio_transcription.completed"@) ==> (
        step is Continue && after == match e.transcript {
            Some(x) => trim_spec(x),
            None => before,
        }),
        !(e.event_type == Some("error"@) || e.event_type == Some(
            "conversation.item.input_audio_transcription.failed"@,
        ) || e.event_type == Some("conversation.item.input_audio_transcription.completed"@)
            || e.event_type == Some("session.finished"@)) ==> (step is Continue && after
            == before),
{
    reveal_strlit("session.finished");
    reveal_strlit("error");
    reveal_strlit("conversation.item.input_audio_transcription.failed");
    reveal_strlit("conversation.item.input_audio_transcription.completed");
    assert("session.finished"@.len() == 16);
    assert("error"@.len() == 5);
    assert("conversation.item.input_audio_transcription.failed"@.len() == 50);
    assert("conversation.item.input_audio_transcription.completed"@.len() == 53);
    assert(Seq::<char>::empty().len() == 0);
}

impl QwenReceiver {
    /// A receiver that has seen no transcript.
    pub fn new() -> (r: QwenReceiver)
        ensures
            r.final_text@ == Seq::<char>::empty(),
    {
        QwenReceiver { final_text: String::new() }
    }

    /// Whether handling the event `e` with final text `before` gives `step`
    /// and final text `after`. An `error` or failed transcription event
    /// fails the session; a completed transcription replaces the final text
    /// by its trimmed transcript; `session.finished` ends the session; other
    /// events are skipped.
    pub open spec fn handles(e: ServerEventView, before: Seq<char>, step: ReceiveStep, after: Seq<char>) -> bool {
        let t = match e.event_type {
            Some(t) => t,
            None => Seq::empty(),
        };
        if t == "error"@ || t == failed_event_type() {
            step matches ReceiveStep::Failed(m) && m@ == qwen_error_spec(e) && after == before
        } else if t == completed_event_type() {
            step is Continue && after == match e.transcript {
                Some(x) => trim_spec(x),
                None => before,
            }
        } else if t == "session.finished"@ {
            step is Finished && after == before
        } else {
            step is Continue && after == before
        }
    }

    /// Handles one parsed server event (see `handles`).
    pub fn on_event(&mut self, event: &ServerEvent) -> (step: ReceiveStep)
        ensures
            Self::handles(event@, old(self).final_text@, step, final(self).final_text@),
    {
        let t = match &event.event_type {
            Some(t) => t.clone(),
            None => String::new(),
        };
        if str_eq(t.as_str(), "error") || str_eq(
            t.as_str(),
            "conversation.item.input_audio_transcription.failed",
        ) {
            ReceiveStep::Failed(format_qwen_error(event))
        } else if str_eq(t.as_str(), "conversation.item.input_audio_transcription.completed") {
            match &event.transcript {
                Some(x) => {
                    self.final_text = trim(x.as_str());
                },
                None => {},
            }
            ReceiveStep::Continue
        } else if str_eq(t.as_str(), "session.finished") {
            ReceiveStep::Finished
        } else {
            ReceiveStep::Continue
        }
    }

    /// Handles the text of one server message: text that is not JSON fails
    /// the session; otherwise the parsed event is handled by `on_event`.
    pub fn on_text_message(&mut self, text: &str) -> (step: ReceiveStep)
        ensures
            match qwen_server_event(text@) {
                None => step matches ReceiveStep::Failed(m) && parse_failure_prefix(text@).len()
                    <= m@.len() && m@.take(parse_failure_prefix(text@).len() as int)
                    == parse_failure_prefix(text@) && final(self).final_text@
                    == old(self).final_text@,
                Some(e) => Self::handles(e, old(self).final_text@, step, final(self).final_text@),
            },
    {
        match parse_server_event(text) {
            Ok(event) => self.on_event(&event),
            Err(err) => {
                let mut m = String::from_str("解析 Qwen-ASR 响应失败: ");
                m.append(text);
                m.append(": ");
                let ghost prefix = m@;
                m.append(json_error_text(&err).as_str());
                assert(m@.take(prefix.len() as int) =~= prefix);
                ReceiveStep::Failed(m)
            },
        }
    }

    /// The transcript once the session has finished; refused when the server
    /// returned no final text.
    pub fn finish(self) -> (r: Result<QwenAsrTranscript, String>)
        ensures
            self.final_text@.len() == 0 ==> r is Err && r->Err_0@ == no_final_text_message(),
            self.final_text@.len() > 0 ==> (r matches Ok(t) && t.text@ == self.final_text@),
    {
        if self.final_text.as_str().is_empty() {
            Err(String::from_str("Qwen-ASR 没有返回最终识别文本。"))
        } else {
            Ok(QwenAsrTranscript { text: self.final_text })
        }
    }
}

} // verus!
