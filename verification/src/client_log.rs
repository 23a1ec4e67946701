//! The record the control plane appends to its client log for a report from a browser:
//! each text field trimmed and bounded, blank optional fields left out.
use vstd::prelude::*;

use crate::protocol::{entries_view, json_str, push_member, JsonValue, JsonView};
use crate::states::{client_log_level_name, format_client_log_level, ClientLogLevel};
use crate::text::{bounded, trim, trim_str, truncate_chars};

verus! {

/// The longest a text field of a client log record is kept, in characters.
pub const MAX_CLIENT_LOG_FIELD_CHARS: usize = 2000;

/// The longest the serialized detail of a client log record is kept, in characters.
pub const MAX_CLIENT_LOG_DETAIL_CHARS: usize = 8000;

/// A log report from a client, its times in RFC 3339.
pub struct ClientLogRequest {
    pub level: ClientLogLevel,
    pub source: String,
    pub message: String,
    pub route: Option<String>,
    pub user_agent: Option<String>,
    pub occurred_at: String,
}

/// A field as kept: trimmed, then bounded.
pub open spec fn kept(s: Seq<char>) -> Seq<char> {
    bounded(trim(s), MAX_CLIENT_LOG_FIELD_CHARS as nat)
}

/// An optional field is kept when it holds more than whitespace.
pub open spec fn kept_nonblank(o: Option<Seq<char>>) -> Option<Seq<char>> {
    if o is Some && trim(o->0).len() > 0 {
        Some(kept(o->0))
    } else {
        None
    }
}

/// The user agent recorded: the one the client reported unless it is blank, else the
/// request's header unless it is empty; kept as any field.
pub open spec fn user_agent_spec(reported: Option<Seq<char>>, header: Option<Seq<char>>) -> Option<
    Seq<char>,
> {
    if reported is Some && trim(reported->0).len() > 0 {
        Some(kept(reported->0))
    } else if header is Some && header->0.len() > 0 {
        Some(kept(header->0))
    } else {
        None
    }
}

pub open spec fn opt_json(o: Option<Seq<char>>) -> JsonView {
    match o {
        Some(s) => JsonView::Str(s),
        None => JsonView::Null,
    }
}

pub open spec fn opt_seq(o: Option<String>) -> Option<Seq<char>> {
    match o {
        Some(s) => Some(s@),
        None => None,
    }
}

/// The record for a client report accepted at `accepted_at`, with the request's
/// `User-Agent` header and the report's detail as JSON text.
pub open spec fn client_log_record_spec(
    accepted_at: Seq<char>,
    r: ClientLogRequest,
    header_user_agent: Option<Seq<char>>,
    detail_json: Seq<char>,
) -> JsonView {
    JsonView::Object(
        seq![
            ("accepted_at"@, JsonView::Str(accepted_at)),
            ("occurred_at"@, JsonView::Str(r.occurred_at@)),
            ("level"@, JsonView::Str(client_log_level_name(r.level))),
            ("source"@, JsonView::Str(kept(r.source@))),
            ("message"@, JsonView::Str(kept(r.message@))),
            ("route"@, opt_json(kept_nonblank(opt_seq(r.route)))),
            ("user_agent"@, opt_json(user_agent_spec(opt_seq(r.user_agent), header_user_agent))),
            ("detail"@, JsonView::Str(bounded(detail_json, MAX_CLIENT_LOG_DETAIL_CHARS as nat))),
        ],
    )
}

fn keep(s: &str) -> (r: String)
    ensures
        r@ == kept(s@),
{
    let t = trim_str(s);
    truncate_chars(t.as_str(), MAX_CLIENT_LOG_FIELD_CHARS)
}

fn opt_value(o: Option<String>) -> (r: JsonValue)
    ensures
        r@ == opt_json(opt_seq(o)),
{
    match o {
        Some(s) => JsonValue::Str(s),
        None => JsonValue::Null,
    }
}

fn keep_nonblank(o: &Option<String>) -> (r: Option<String>)
    ensures
        opt_seq(r) == kept_nonblank(opt_seq(*o)),
{
    match o {
        Some(v) => {
            let t = trim_str(v.as_str());
            if !t.as_str().is_empty() {
                Some(truncate_chars(t.as_str(), MAX_CLIENT_LOG_FIELD_CHARS))
            } else {
                None
            }
        },
        None => None,
    }
}

pub fn client_user_agent(reported: &Option<String>, header: Option<&str>) -> (r: Option<String>)
    ensures
        opt_seq(r) == user_agent_spec(
            opt_seq(*reported),
            match header {
                Some(h) => Some(h@),
                None => None,
            },
        ),
{
    let chosen = keep_nonblank(reported);
    if chosen.is_some() {
        return chosen;
    }
    match header {
        Some(h) => {
            if h.is_empty() {
                None
            } else {
                Some(keep(h))
            }
        },
        None => None,
    }
}

pub fn client_log_record(
    accepted_at: &str,
    request: &ClientLogRequest,
    header_user_agent: Option<&str>,
    detail_json: &str,
) -> (r: JsonValue)
    ensures
        r@ == client_log_record_spec(
            accepted_at@,
            *request,
            match header_user_agent {
                Some(h) => Some(h@),
                None => None,
            },
            detail_json@,
        ),
{
    let mut es: Vec<(String, JsonValue)> = Vec::new();
    assert(entries_view(es@, 0) =~= seq![]);
    push_member(&mut es, "accepted_at", json_str(accepted_at));
    push_member(&mut es, "occurred_at", json_str(request.occurred_at.as_str()));
    push_member(&mut es, "level", json_str(format_client_log_level(request.level)));
    push_member(&mut es, "source", JsonValue::Str(keep(request.source.as_str())));
    push_member(&mut es, "message", JsonValue::Str(keep(request.message.as_str())));
    push_member(&mut es, "route", opt_value(keep_nonblank(&request.route)));
    push_member(&mut es, "user_agent", opt_value(client_user_agent(&request.user_agent, header_user_agent)));
    push_member(
        &mut es,
        "detail",
        JsonValue::Str(truncate_chars(detail_json, MAX_CLIENT_LOG_DETAIL_CHARS)),
    );
    let ghost ev = entries_view(es@, es@.len());
    let r = crate::protocol::json_object(es);
    assert(ev =~= match client_log_record_spec(
        accepted_at@,
        *request,
        match header_user_agent {
            Some(h) => Some(h@),
            None => None,
        },
        detail_json@,
    ) {
        JsonView::Object(e) => e,
        _ => seq![],
    });
    r
}

} // verus!
