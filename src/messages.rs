//! Outgoing messages: a webhook request and a desktop notification.
use vstd::prelude::*;
use crate::params::{filled_field, filled_member, json_accepts, text_field, text_member, ParamDoc, ParamError};

verus! {

/// The time a webhook request may take before it counts as failed.
pub const WEBHOOK_TIMEOUT_SECS: u64 = 10;

/// The notification title where the invocation gives none.
pub const DEFAULT_NOTICE_TITLE: &'static str = "MXU";

/// `url` is required and not blank.
pub open spec fn webhook_url_of(text: Seq<char>) -> Result<Seq<char>, ParamError> {
    if !json_accepts(text) {
        Err(ParamError::MalformedJson)
    } else {
        match filled_member(text, "url"@) {
            None => Err(ParamError::MissingUrl),
            Some(u) => Ok(u),
        }
    }
}

pub fn decode_webhook(param: &str) -> (r: Result<String, ParamError>)
    ensures
        r matches Ok(u) ==> webhook_url_of(param@) == Ok::<Seq<char>, ParamError>(u@),
        r matches Err(e) ==> webhook_url_of(param@) == Err::<Seq<char>, ParamError>(e),
{
    let doc = match ParamDoc::parse(param) {
        Some(d) => d,
        None => return Err(ParamError::MalformedJson),
    };
    match filled_field(&doc, "url") {
        None => Err(ParamError::MissingUrl),
        Some(u) => Ok(u),
    }
}

/// A webhook is delivered once any response came back, whatever its status
/// code; `None` stands for a failure to get a response at all.
pub fn webhook_delivered(response_status: Option<u16>) -> (r: bool)
    ensures
        r == response_status is Some,
{
    match response_status {
        Some(_) => true,
        None => false,
    }
}

/// A desktop notification.
#[derive(Debug)]
pub struct Notice {
    pub title: String,
    pub body: String,
}

/// `title` defaults to the product name and `body` to empty text, where
/// either is absent or no string.
pub open spec fn notice_of(text: Seq<char>) -> Result<(Seq<char>, Seq<char>), ParamError> {
    if !json_accepts(text) {
        Err(ParamError::MalformedJson)
    } else {
        Ok(
            (
                match text_member(text, "title"@) {
                    Some(t) => t,
                    None => DEFAULT_NOTICE_TITLE@,
                },
                match text_member(text, "body"@) {
                    Some(b) => b,
                    None => seq![],
                },
            ),
        )
    }
}

pub fn decode_notify(param: &str) -> (r: Result<Notice, ParamError>)
    ensures
        r matches Ok(n) ==> notice_of(param@) == Ok::<(Seq<char>, Seq<char>), ParamError>(
            (n.title@, n.body@),
        ),
        r matches Err(e) ==> notice_of(param@) == Err::<(Seq<char>, Seq<char>), ParamError>(e),
{
    let doc = match ParamDoc::parse(param) {
        Some(d) => d,
        None => return Err(ParamError::MalformedJson),
    };
    let title = match text_field(&doc, "title") {
        Some(t) => t,
        None => DEFAULT_NOTICE_TITLE.to_string(),
    };
    let body = match text_field(&doc, "body") {
        Some(b) => b,
        None => String::new(),
    };
    Ok(Notice { title, body })
}

} // verus!
