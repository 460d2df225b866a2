use temporary_mail::client::ids_from_body;
use temporary_mail::date::parse_date;
use temporary_mail::{DateTime, Email, MailError};

#[test]
fn email_from_json() {
    let email: Result<Email, _> = Email::from_json(
        r#"{
            "from": "user@gmail.com",
            "date": "2022-02-23 12:50:18",
            "id": 29471701,
            "subject": "HI!",
            "text_body": "Hi, buddy",
            "html_body": "<div dir=\"ltr\">Hi, buddy</div>\n",
            "body": "<div dir=\"ltr\">Hi, buddy</div>\n" }"#,
    );
    assert!(email.is_ok());
}

#[test]
fn round_trip_literal_message() {
    let email = Email::from_json(
        r#"{"from":"user@gmail.com","date":"2022-02-23 12:50:18","id":29471701,"subject":"HI!","text_body":"Hi, buddy","html_body":"<div dir=\"ltr\">Hi, buddy</div>\n","body":"<div dir=\"ltr\">Hi, buddy</div>\n"}"#,
    )
    .unwrap();
    assert_eq!(email.id, 29471701);
    assert_eq!(email.from, "user@gmail.com");
    assert_eq!(
        email.date,
        DateTime { year: 2022, month: 2, day: 23, hour: 12, minute: 50, second: 18 }
    );
    assert_eq!(email.subject, "HI!");
    assert_eq!(email.text_body, "Hi, buddy");
    assert_eq!(email.html_body, "<div dir=\"ltr\">Hi, buddy</div>\n");
    assert_eq!(email.body, "<div dir=\"ltr\">Hi, buddy</div>\n");
}

#[test]
fn alias_field_names_accepted() {
    let email = Email::from_json(
        r#"{"from":"a@b.c","date":"2021-12-31 23:59:59","id":7,"subject":"s","textBody":"t","htmlBody":"h","body":"b"}"#,
    )
    .unwrap();
    assert_eq!(email.text_body, "t");
    assert_eq!(email.html_body, "h");
    assert_eq!(
        email.date,
        DateTime { year: 2021, month: 12, day: 31, hour: 23, minute: 59, second: 59 }
    );
}

#[test]
fn both_alias_names_rejected() {
    let email = Email::from_json(
        r#"{"from":"a@b.c","date":"2021-12-31 23:59:59","id":7,"subject":"s","text_body":"t","textBody":"t2","htmlBody":"h","body":"b"}"#,
    );
    assert_eq!(email.unwrap_err(), MailError::Parse);
}

#[test]
fn malformed_date_is_parse_error() {
    let email = Email::from_json(
        r#"{"from":"a@b.c","date":"23-02-2022 12:50:18","id":7,"subject":"s","text_body":"t","html_body":"h","body":"b"}"#,
    );
    assert_eq!(email.unwrap_err(), MailError::Parse);
}

#[test]
fn impossible_date_is_parse_error() {
    let email = Email::from_json(
        r#"{"from":"a@b.c","date":"2023-02-29 00:00:00","id":7,"subject":"s","text_body":"t","html_body":"h","body":"b"}"#,
    );
    assert_eq!(email.unwrap_err(), MailError::Parse);
}

#[test]
fn missing_field_is_parse_error() {
    let email = Email::from_json(
        r#"{"from":"a@b.c","date":"2021-12-31 23:59:59","id":7,"subject":"s","text_body":"t","html_body":"h"}"#,
    );
    assert_eq!(email.unwrap_err(), MailError::Parse);
}

#[test]
fn wrongly_typed_id_is_parse_error() {
    let email = Email::from_json(
        r#"{"from":"a@b.c","date":"2021-12-31 23:59:59","id":"7","subject":"s","text_body":"t","html_body":"h","body":"b"}"#,
    );
    assert_eq!(email.unwrap_err(), MailError::Parse);
}

#[test]
fn invalid_json_body_is_parse_error() {
    assert_eq!(Email::from_json("not json").unwrap_err(), MailError::Parse);
}

#[test]
fn date_parsing_exact_values() {
    assert_eq!(
        parse_date("2024-02-29 00:00:00"),
        Some(DateTime { year: 2024, month: 2, day: 29, hour: 0, minute: 0, second: 0 })
    );
    assert_eq!(parse_date("1900-02-29 00:00:00"), None);
    assert_eq!(
        parse_date("2000-02-29 13:07:09"),
        Some(DateTime { year: 2000, month: 2, day: 29, hour: 13, minute: 7, second: 9 })
    );
    assert_eq!(parse_date("2022-02-23 12:50:60"), None);
    assert_eq!(parse_date("2022-00-01 00:00:00"), None);
    assert_eq!(parse_date("2022-01-00 00:00:00"), None);
    assert_eq!(parse_date("2022-04-31 00:00:00"), None);
    assert_eq!(parse_date("2022-02-23 24:00:00"), None);
    assert_eq!(parse_date("2022-02-23 12:50:1"), None);
    assert_eq!(parse_date("2022-02-23T12:50:18"), None);
    assert_eq!(parse_date(""), None);
}

#[test]
fn listing_extracts_ids_in_order() {
    let ids = ids_from_body(r#"[{"id":1},{"id":2},{"subject":"no id"},{"id":"x"},5,{"id":3}]"#)
        .unwrap();
    assert_eq!(ids, vec![1, 2, 3]);
}

#[test]
fn listing_of_empty_array_is_empty() {
    assert_eq!(ids_from_body("[]").unwrap(), Vec::<i64>::new());
}

#[test]
fn object_listing_is_transport_error() {
    assert_eq!(ids_from_body(r#"{"id":1}"#).unwrap_err(), MailError::Transport);
}

#[test]
fn invalid_json_listing_is_transport_error() {
    assert_eq!(ids_from_body("oops").unwrap_err(), MailError::Transport);
}

#[test]
fn parsed_documents_can_be_read_directly() {
    let doc = temporary_mail::json::Json::Arr(vec![
        temporary_mail::json::Json::Obj(vec![(
            "id".to_owned(),
            temporary_mail::json::Json::Int(9),
        )]),
        temporary_mail::json::Json::Null,
    ]);
    assert_eq!(temporary_mail::client::ids_from_doc(&doc).unwrap(), vec![9]);
    let not_array = temporary_mail::json::Json::Obj(Vec::new());
    assert_eq!(
        temporary_mail::client::ids_from_doc(&not_array).unwrap_err(),
        MailError::Transport
    );
    assert_eq!(Email::from_doc(&not_array).unwrap_err(), MailError::Parse);
}
