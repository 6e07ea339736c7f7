//! One LLM round trip as the orchestrator sees it: what the chat completions reply
//! says, and the decision with its trace lines. The HTTP exchange and the timing
//! are the edge's; what they yield is handed in here.

use vstd::prelude::*;
use vstd::utf8::encode_utf8;
use crate::json::json_text_value;
use crate::llm::{
    ChatResponse, LlmToolPayload, ToolParseError, extracted_payload,
    opt_payload_result, parse_tool_sequence, tool_sequence,
};
use crate::text::{decimal, push_decimal, push_str, string_views};

verus! {

/// One LLM round trip and the reading of its reply (no drone step applied).
#[derive(Debug)]
pub struct LlmToolDecisionOutcome {
    /// Full LLM HTTP round trip including the body read.
    pub llm_latency_ms: u64,
    pub llm_http_ms: u64,
    pub llm_parse_ms: u64,
    /// Set when the HTTP request failed before a body was read.
    pub transport_error: Option<String>,
    pub http_status: Option<u16>,
    /// Raw HTTP body from the chat completions endpoint.
    pub llm_envelope_raw: String,
    /// Assistant `message.content` when the envelope parsed.
    pub assistant_content: String,
    /// Set when the HTTP body is not a chat completions envelope.
    pub chat_parse_error: Option<String>,
    /// The plan read from the assistant content; `None` only when the transport
    /// failed or the envelope did not parse.
    pub tool_payload: Option<Result<LlmToolPayload, ToolParseError>>,
    /// Trace lines of the exchange, in order.
    pub trace: Vec<String>,
}


/// What the assistant's reply holds.
#[derive(Debug)]
pub struct ReplyReading {
    /// The first choice's `message.content` (empty when there is none or the
    /// envelope did not parse).
    pub assistant_content: String,
    /// The envelope reader's message when the body is not a chat completions reply.
    pub chat_parse_error: Option<String>,
    /// The tool plan read from the content; `None` when the envelope did not parse.
    pub tool_payload: Option<Result<LlmToolPayload, ToolParseError>>,
}

/// The first choice's content of a parsed envelope.
pub open spec fn first_content(c: ChatResponse) -> Seq<char> {
    if c.choices@.len() > 0 { c.choices@[0].message.content@ } else { Seq::empty() }
}

/// Reads the reply: `chat` is the chat completions envelope read from the body
/// (or the reader's message). The plan is [`parse_tool_sequence`] of the first
/// choice's content.
pub fn read_reply(chat: Result<ChatResponse, String>) -> (r: ReplyReading)
    ensures
        match chat {
            Ok(c) => {
                &&& r.assistant_content@ == first_content(c)
                &&& r.chat_parse_error is None
                &&& r.tool_payload matches Some(p)
                    && opt_payload_result(p) == tool_sequence(json_text_value(extracted_payload(first_content(c))))
            },
            Err(e) => {
                &&& r.assistant_content@ == Seq::<char>::empty()
                &&& r.chat_parse_error matches Some(m) && m@ == e@
                &&& r.tool_payload is None
            },
        },
{
    match chat {
        Ok(c) => {
            let content = c.assistant_content();
            let p = parse_tool_sequence(content.as_str());
            ReplyReading { assistant_content: content, chat_parse_error: None, tool_payload: Some(p) }
        },
        Err(e) => ReplyReading { assistant_content: String::new(), chat_parse_error: Some(e), tool_payload: None },
    }
}

fn line(prefix: &str, tail: &str) -> (r: String)
    ensures
        r@ == prefix@ + tail@,
{
    let mut l = String::from_str(prefix);
    push_str(&mut l, tail);
    l
}

fn number_line(prefix: &str, n: u64) -> (r: String)
    ensures
        r@ == prefix@ + decimal(n as nat),
{
    let mut l = String::from_str(prefix);
    push_decimal(&mut l, n);
    l
}

/// The decision when the request to `llm_url` failed before a body was read.
pub fn transport_failed_decision(llm_url: &str, error: String, llm_latency_ms: u64) -> (d: LlmToolDecisionOutcome)
    ensures
        d.llm_latency_ms == llm_latency_ms,
        d.llm_http_ms == 0 && d.llm_parse_ms == 0,
        d.transport_error matches Some(e) && e@ == error@,
        d.http_status is None,
        d.llm_envelope_raw@ == Seq::<char>::empty(),
        d.assistant_content@ == Seq::<char>::empty(),
        d.chat_parse_error is None,
        d.tool_payload is None,
        string_views(d.trace@) == seq![
            "stage=llm_http_post url="@ + llm_url@,
            "stage=llm_http_transport_failed err="@ + error@,
            "stage=llm_http_done ms="@ + decimal(llm_latency_ms as nat),
        ],
{
    let mut trace: Vec<String> = Vec::new();
    trace.push(line("stage=llm_http_post url=", llm_url));
    trace.push(line("stage=llm_http_transport_failed err=", error.as_str()));
    trace.push(number_line("stage=llm_http_done ms=", llm_latency_ms));
    assert(string_views(trace@) =~= seq![
        "stage=llm_http_post url="@ + llm_url@,
        "stage=llm_http_transport_failed err="@ + error@,
        "stage=llm_http_done ms="@ + decimal(llm_latency_ms as nat),
    ]);
    LlmToolDecisionOutcome {
        llm_latency_ms,
        llm_http_ms: 0,
        llm_parse_ms: 0,
        transport_error: Some(error),
        http_status: None,
        llm_envelope_raw: String::new(),
        assistant_content: String::new(),
        chat_parse_error: None,
        tool_payload: None,
        trace,
    }
}

/// The trace line that reports the reading: the content's length in UTF-8 bytes,
/// or the envelope reader's message.
pub open spec fn reading_line(content: Seq<char>, chat_parse_error: Option<String>) -> Seq<char> {
    match chat_parse_error {
        Some(e) => "stage=llm_envelope_parse_failed err="@ + e@,
        None => "stage=llm_content_len chars="@ + decimal((encode_utf8(content).len() as usize) as nat),
    }
}

/// The decision when `llm_url` answered `http_status` with `body` (read after
/// `llm_http_ms`), the reply reads as `reading` (read in `llm_parse_ms`) and the
/// whole exchange took `llm_latency_ms`.
pub fn replied_decision(
    llm_url: &str,
    http_status: u16,
    body: String,
    reading: ReplyReading,
    llm_http_ms: u64,
    llm_parse_ms: u64,
    llm_latency_ms: u64,
) -> (d: LlmToolDecisionOutcome)
    ensures
        d.llm_latency_ms == llm_latency_ms,
        d.llm_http_ms == llm_http_ms,
        d.llm_parse_ms == llm_parse_ms,
        d.transport_error is None,
        d.http_status == Some(http_status),
        d.llm_envelope_raw@ == body@,
        d.assistant_content == reading.assistant_content,
        d.chat_parse_error == reading.chat_parse_error,
        d.tool_payload == reading.tool_payload,
        string_views(d.trace@) == seq![
            "stage=llm_http_post url="@ + llm_url@,
            "stage=llm_http_response http_status="@ + decimal(http_status as nat),
            "stage=llm_body_read_done ms="@ + decimal(llm_http_ms as nat),
            reading_line(reading.assistant_content@, reading.chat_parse_error),
            "stage=llm_tool_parse_done ms="@ + decimal(llm_parse_ms as nat),
            "stage=llm_http_done ms="@ + decimal(llm_latency_ms as nat),
        ],
{
    let ReplyReading { assistant_content, chat_parse_error, tool_payload } = reading;
    let mut trace: Vec<String> = Vec::new();
    trace.push(line("stage=llm_http_post url=", llm_url));
    trace.push(number_line("stage=llm_http_response http_status=", http_status as u64));
    trace.push(number_line("stage=llm_body_read_done ms=", llm_http_ms));
    let l = match &chat_parse_error {
        Some(e) => line("stage=llm_envelope_parse_failed err=", e.as_str()),
        None => number_line("stage=llm_content_len chars=", assistant_content.as_str().len() as u64),
    };
    trace.push(l);
    trace.push(number_line("stage=llm_tool_parse_done ms=", llm_parse_ms));
    trace.push(number_line("stage=llm_http_done ms=", llm_latency_ms));
    assert(string_views(trace@) =~= seq![
        "stage=llm_http_post url="@ + llm_url@,
        "stage=llm_http_response http_status="@ + decimal(http_status as nat),
        "stage=llm_body_read_done ms="@ + decimal(llm_http_ms as nat),
        reading_line(assistant_content@, chat_parse_error),
        "stage=llm_tool_parse_done ms="@ + decimal(llm_parse_ms as nat),
        "stage=llm_http_done ms="@ + decimal(llm_latency_ms as nat),
    ]);
    LlmToolDecisionOutcome {
        llm_latency_ms,
        llm_http_ms,
        llm_parse_ms,
        transport_error: None,
        http_status: Some(http_status),
        llm_envelope_raw: body,
        assistant_content,
        chat_parse_error,
        tool_payload,
        trace,
    }
}

} // verus!
