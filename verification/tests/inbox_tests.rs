use std::cell::RefCell;
use std::rc::Rc;
use temporary_mail::client::{list_query, read_query};
use temporary_mail::{EmailAddr, MailError, TempEmail, Transport, API_URL};

/// A transport stub: it answers the listing request with a fixed body and
/// builds a message body for each hydration request, while logging every
/// request's query; chosen ids can be made to fail or to return garbage.
struct StubTransport {
    log: Rc<RefCell<Vec<Vec<(String, String)>>>>,
    listing: Option<String>,
    fail_read_ids: Vec<String>,
    garbled_read_ids: Vec<String>,
}

impl StubTransport {
    fn new(listing: Option<&str>) -> StubTransport {
        StubTransport {
            log: Rc::new(RefCell::new(Vec::new())),
            listing: listing.map(|s| s.to_owned()),
            fail_read_ids: Vec::new(),
            garbled_read_ids: Vec::new(),
        }
    }

    fn param(query: &[(String, String)], key: &str) -> Option<String> {
        query.iter().find(|p| p.0 == key).map(|p| p.1.clone())
    }
}

impl Transport for StubTransport {
    fn http_get(&self, url: &str, query: &Vec<(String, String)>) -> Option<String> {
        assert_eq!(url, API_URL);
        self.log.borrow_mut().push(query.clone());
        let action = Self::param(query, "action")?;
        if action == "getMessages" {
            return self.listing.clone();
        }
        let id = Self::param(query, "id")?;
        if self.fail_read_ids.contains(&id) {
            return None;
        }
        if self.garbled_read_ids.contains(&id) {
            return Some("][".to_owned());
        }
        Some(format!(
            r#"{{"from":"a@b.c","date":"2022-02-23 12:50:18","id":{},"subject":"s","text_body":"t","html_body":"h","body":"b"}}"#,
            id
        ))
    }
}

#[test]
fn fetch_aborts_on_first_hydration_failure() {
    let mut stub = StubTransport::new(Some(r#"[{"id":1},{"id":2}]"#));
    stub.fail_read_ids.push("1".to_owned());
    let log = Rc::clone(&stub.log);
    let mailbox = TempEmail::new(stub);
    let result = mailbox.get_inbox();
    assert_eq!(result.unwrap_err(), MailError::Transport);
    let calls = log.borrow();
    assert_eq!(calls.len(), 2);
    assert_eq!(StubTransport::param(&calls[0], "action").unwrap(), "getMessages");
    assert_eq!(StubTransport::param(&calls[1], "action").unwrap(), "readMessage");
    assert_eq!(StubTransport::param(&calls[1], "id").unwrap(), "1");
    assert!(calls.iter().all(|q| StubTransport::param(q, "id") != Some("2".to_owned())));
}

#[test]
fn fetch_happy_path_keeps_listing_order() {
    let stub = StubTransport::new(Some(r#"[{"id":41},{"id":7}]"#));
    let mailbox = TempEmail::new(stub);
    let inbox = mailbox.get_inbox().unwrap();
    assert_eq!(inbox.len(), 2);
    assert_eq!(inbox[0].id, 41);
    assert_eq!(inbox[1].id, 7);
    assert_eq!(inbox[0].from, "a@b.c");
    assert_eq!(inbox[0].text_body, "t");
}

#[test]
fn failed_listing_is_transport_error() {
    let stub = StubTransport::new(None);
    let mailbox = TempEmail::new(stub);
    assert_eq!(mailbox.get_inbox().unwrap_err(), MailError::Transport);
}

#[test]
fn object_listing_makes_no_hydration_call() {
    let stub = StubTransport::new(Some(r#"{"id":1}"#));
    let mailbox = TempEmail::new(stub);
    assert_eq!(mailbox.get_inbox().unwrap_err(), MailError::Transport);
}

#[test]
fn garbled_message_body_is_parse_error() {
    let mut stub = StubTransport::new(Some(r#"[{"id":5}]"#));
    stub.garbled_read_ids.push("5".to_owned());
    let mailbox = TempEmail::new(stub);
    assert_eq!(mailbox.get_inbox().unwrap_err(), MailError::Parse);
}

#[test]
fn list_query_names_the_address() {
    let addr = EmailAddr::new();
    let q = list_query(&addr);
    assert_eq!(q.len(), 3);
    assert_eq!(q[0], ("action".to_owned(), "getMessages".to_owned()));
    assert_eq!(q[1], ("login".to_owned(), addr.user().to_owned()));
    assert_eq!(q[2], ("domain".to_owned(), addr.domain().to_owned()));
}

#[test]
fn read_query_carries_the_decimal_id() {
    let addr = EmailAddr::new();
    let q = read_query(&addr, 29471701);
    assert_eq!(q.len(), 4);
    assert_eq!(q[0], ("action".to_owned(), "readMessage".to_owned()));
    assert_eq!(q[1], ("login".to_owned(), addr.user().to_owned()));
    assert_eq!(q[2], ("domain".to_owned(), addr.domain().to_owned()));
    assert_eq!(q[3], ("id".to_owned(), "29471701".to_owned()));
    assert_eq!(read_query(&addr, 0)[3].1, "0");
    assert_eq!(read_query(&addr, -5)[3].1, "-5");
    assert_eq!(read_query(&addr, i64::MIN)[3].1, "-9223372036854775808");
    assert_eq!(read_query(&addr, i64::MAX)[3].1, "9223372036854775807");
}
