//! Messages of an inbox: parsing the JSON body of a `readMessage` response
//! into a structured record.

use crate::date::{parse_date, spec_parse_date, DateTime};
use crate::error::MailError;
use crate::json::{json_of, lookup, lookup_field, parse_json, Json};
use vstd::prelude::*;

verus! {

/// One received message. Constructed only by parsing a response body.
#[derive(Debug)]
pub struct Email {
    pub from: String,
    pub date: DateTime,
    pub id: i64,
    pub subject: String,
    pub text_body: String,
    pub html_body: String,
    pub body: String,
}

/// The string under `key`, `None` where the field is missing or no string.
pub open spec fn str_field(fields: Seq<(String, Json)>, key: Seq<char>) -> Option<Seq<char>> {
    match lookup(fields, key) {
        Some(Json::Str(s)) => Some(s@),
        _ => None,
    }
}

/// The integer under `key`, `None` where the field is missing or no integer.
pub open spec fn int_field(fields: Seq<(String, Json)>, key: Seq<char>) -> Option<i64> {
    match lookup(fields, key) {
        Some(Json::Int(i)) => Some(i),
        _ => None,
    }
}

/// The string under `key` or under its alias `alias`: the field may stand
/// under either name, but not under both at once.
pub open spec fn aliased_str_field(
    fields: Seq<(String, Json)>,
    key: Seq<char>,
    alias: Seq<char>,
) -> Option<Seq<char>> {
    if lookup(fields, key) is Some && lookup(fields, alias) is Some {
        None
    } else if lookup(fields, key) is Some {
        str_field(fields, key)
    } else {
        str_field(fields, alias)
    }
}

/// The field list holds every field of a message, each of the right type,
/// the date in the fixed format.
pub open spec fn email_parseable(fields: Seq<(String, Json)>) -> bool {
    &&& str_field(fields, "from"@) is Some
    &&& (str_field(fields, "date"@) matches Some(d) && spec_parse_date(d) is Some)
    &&& int_field(fields, "id"@) is Some
    &&& str_field(fields, "subject"@) is Some
    &&& aliased_str_field(fields, "text_body"@, "textBody"@) is Some
    &&& aliased_str_field(fields, "html_body"@, "htmlBody"@) is Some
    &&& str_field(fields, "body"@) is Some
}

/// `e` holds exactly what the field list says.
pub open spec fn email_matches(fields: Seq<(String, Json)>, e: Email) -> bool {
    &&& str_field(fields, "from"@) == Some(e.from@)
    &&& (str_field(fields, "date"@) matches Some(d) && spec_parse_date(d) == Some(e.date))
    &&& int_field(fields, "id"@) == Some(e.id)
    &&& str_field(fields, "subject"@) == Some(e.subject@)
    &&& aliased_str_field(fields, "text_body"@, "textBody"@) == Some(e.text_body@)
    &&& aliased_str_field(fields, "html_body"@, "htmlBody"@) == Some(e.html_body@)
    &&& str_field(fields, "body"@) == Some(e.body@)
}

/// The document is an object from which a message can be read.
pub open spec fn doc_parseable(doc: Json) -> bool {
    doc matches Json::Obj(fs) && email_parseable(fs@)
}

/// `e` holds exactly what the document says.
pub open spec fn doc_matches(doc: Json, e: Email) -> bool {
    doc matches Json::Obj(fs) && email_matches(fs@, e)
}

/// The response body is an object from which a message can be read.
pub open spec fn message_parseable(doc: Option<Json>) -> bool {
    doc matches Some(d) && doc_parseable(d)
}

/// `e` holds exactly what the response body says.
pub open spec fn message_matches(doc: Option<Json>, e: Email) -> bool {
    doc matches Some(d) && doc_matches(d, e)
}

/// Finds the string field named `key`.
fn get_str<'a>(fields: &'a Vec<(String, Json)>, key: &str) -> (r: Option<&'a String>)
    ensures
        match r {
            Some(s) => str_field(fields@, key@) == Some(s@),
            None => str_field(fields@, key@) is None,
        },
{
    match lookup_field(fields, key) {
        Some(Json::Str(s)) => Some(s),
        _ => None,
    }
}

/// Finds the integer field named `key`.
fn get_int(fields: &Vec<(String, Json)>, key: &str) -> (r: Option<i64>)
    ensures
        r == int_field(fields@, key@),
{
    match lookup_field(fields, key) {
        Some(Json::Int(i)) => Some(*i),
        _ => None,
    }
}

/// Finds the string field named `key` or `alias`, under exactly one of them.
fn get_aliased_str<'a>(fields: &'a Vec<(String, Json)>, key: &str, alias: &str) -> (r: Option<
    &'a String,
>)
    ensures
        match r {
            Some(s) => aliased_str_field(fields@, key@, alias@) == Some(s@),
            None => aliased_str_field(fields@, key@, alias@) is None,
        },
{
    let k = lookup_field(fields, key);
    let a = lookup_field(fields, alias);
    match (k, a) {
        (Some(_), Some(_)) => None,
        (Some(Json::Str(s)), None) => Some(s),
        (None, Some(Json::Str(s))) => Some(s),
        _ => None,
    }
}

impl Email {
    /// A well-formed message: its date is a real calendar date.
    pub open spec fn wf(&self) -> bool {
        self.date.wf()
    }

    /// Parses the JSON body of a `readMessage` response: the body must be
    /// valid JSON, and an object as `from_doc` asks.
    pub fn from_json(s: &str) -> (r: Result<Email, MailError>)
        ensures
            r matches Ok(e) ==> message_parseable(json_of(s@)) && message_matches(json_of(s@), e)
                && e.wf(),
            r matches Err(err) ==> err == MailError::Parse && !message_parseable(json_of(s@)),
    {
        let doc = match parse_json(s) {
            Some(d) => d,
            None => {
                return Err(MailError::Parse);
            },
        };
        Email::from_doc(&doc)
    }

    /// Reads a message out of a parsed document. Succeeds exactly on a JSON
    /// object holding every message field with its type — the bodies under
    /// their canonical names or their aliases — and a date in the fixed
    /// format `YYYY-MM-DD HH:MM:SS`; the record then holds exactly those
    /// fields.
    pub fn from_doc(doc: &Json) -> (r: Result<Email, MailError>)
        ensures
            r matches Ok(e) ==> doc_parseable(*doc) && doc_matches(*doc, e) && e.wf(),
            r matches Err(err) ==> err == MailError::Parse && !doc_parseable(*doc),
    {
        let fields = match doc {
            Json::Obj(fs) => fs,
            _ => {
                return Err(MailError::Parse);
            },
        };
        let from = match get_str(fields, "from") {
            Some(s) => s.clone(),
            None => {
                return Err(MailError::Parse);
            },
        };
        let date_s = match get_str(fields, "date") {
            Some(s) => s,
            None => {
                return Err(MailError::Parse);
            },
        };
        let date = match parse_date(date_s.as_str()) {
            Some(d) => d,
            None => {
                return Err(MailError::Parse);
            },
        };
        let id = match get_int(fields, "id") {
            Some(i) => i,
            None => {
                return Err(MailError::Parse);
            },
        };
        let subject = match get_str(fields, "subject") {
            Some(s) => s.clone(),
            None => {
                return Err(MailError::Parse);
            },
        };
        let text_body = match get_aliased_str(fields, "text_body", "textBody") {
            Some(s) => s.clone(),
            None => {
                return Err(MailError::Parse);
            },
        };
        let html_body = match get_aliased_str(fields, "html_body", "htmlBody") {
            Some(s) => s.clone(),
            None => {
                return Err(MailError::Parse);
            },
        };
        let body = match get_str(fields, "body") {
            Some(s) => s.clone(),
            None => {
                return Err(MailError::Parse);
            },
        };
        Ok(Email { from, date, id, subject, text_body, html_body, body })
    }
}

} // verus!

