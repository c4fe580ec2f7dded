use lettre::transport::smtp::response::Category;
use lettre::transport::smtp::response::Code;
use lettre::transport::smtp::response::Detail;
use lettre::transport::smtp::response::Response;
use lettre::transport::smtp::response::Severity;
use lettre::Message;
use mb_mail_service::dispatch::dispatch_bulk;
use mb_mail_service::dispatch::dispatch_single;
use mb_mail_service::locale::Locale;
use mb_mail_service::send::SendResponse;
use mb_mail_service::send::SendTemplateItem;
use mb_mail_service::templates::Template;
use mb_mail_service::templates::TemplateError;
use mb_mail_service::Locales;
use mrml::mjml::Mjml;
use serde_json::Value;

fn locales() -> Locales {
    Locales::new(vec!["en".to_string(), "fr".to_string()], 0).unwrap()
}

fn build(template: Template, _params: Value, locale: Locale) -> Result<Mjml, TemplateError> {
    match template {
        Template::Basic => {
            let words = if locale.as_str() == "fr" { "Bonjour !" } else { "Hello world in English!" };
            let source = format!("<mjml><mj-body><mj-button>{}</mj-button></mj-body></mjml>", words);
            Ok(mrml::parse(source).unwrap())
        }
        _ => Err(TemplateError::SerdeJson("missing field `to_name`".to_string())),
    }
}

/// A relay that accepts every message and names its recipient.
fn accepting(message: Message) -> Result<Response, lettre::transport::smtp::Error> {
    let code = Code::new(Severity::PositiveCompletion, Category::MailSystem, Detail::Zero);
    Ok(Response::new(code, vec![format!("queued for {}", message.envelope().to()[0])]))
}

/// A relay that cannot be reached.
fn unreachable_relay(_message: Message) -> Result<Response, lettre::transport::smtp::Error> {
    Err("not a reply".parse::<Response>().unwrap_err())
}

/// A relay that must not be asked.
fn forbidden(_message: Message) -> Result<Response, lettre::transport::smtp::Error> {
    panic!("the transport was asked")
}

fn item(template_id: &str, to: &str) -> SendTemplateItem {
    SendTemplateItem {
        template_id: template_id.to_string(),
        from: "noreply@musicbrainz.org".to_string(),
        sender: None,
        to: to.to_string(),
        reply_to: None,
        lang: Some("en".to_string()),
        params: Value::Null,
        message_id: None,
        in_reply_to: Vec::new(),
        references: Vec::new(),
    }
}

fn message_of(response: &SendResponse) -> String {
    match response {
        SendResponse::Success { message, .. } => message.clone(),
        SendResponse::Error { message } => message.clone(),
    }
}

#[test]
fn single_request_reports_the_reply_of_the_relay() {
    match dispatch_single(item("basic", "jade@example.com"), &locales(), build, accepting) {
        SendResponse::Success { code, message } => {
            assert_eq!(code, 250);
            assert_eq!(message, "queued for jade@example.com\n");
        }
        other => panic!("unexpected report: {:?}", other),
    }
}

#[test]
fn single_request_reports_a_transport_failure_as_an_error() {
    let words = "not a reply".parse::<Response>().unwrap_err().to_string();
    match dispatch_single(item("basic", "jade@example.com"), &locales(), build, unreachable_relay) {
        SendResponse::Error { message } => {
            assert_eq!(message, format!("Failed to send mail: {}", words));
        }
        other => panic!("unexpected report: {:?}", other),
    }
}

#[test]
fn single_request_that_cannot_be_composed_never_reaches_the_transport() {
    let mut bad_locale = item("basic", "jade@example.com");
    bad_locale.lang = Some("tlh".to_string());
    match dispatch_single(bad_locale, &locales(), build, forbidden) {
        SendResponse::Error { message } => assert_eq!(
            message,
            "Failed to render template: Unsupported or invalid language: tlh"
        ),
        other => panic!("unexpected report: {:?}", other),
    }
    match dispatch_single(item("does-not-exist", "jade@example.com"), &locales(), build, forbidden) {
        SendResponse::Error { message } => {
            assert_eq!(message, "Failed to render template: TemplateNotFound: does-not-exist")
        }
        other => panic!("unexpected report: {:?}", other),
    }
    match dispatch_single(item("subscription", "jade@example.com"), &locales(), build, forbidden) {
        SendResponse::Error { message } => assert_eq!(
            message,
            "Failed to render template: Failed to render template: Failed to parse parameters: missing field `to_name`"
        ),
        other => panic!("unexpected report: {:?}", other),
    }
    match dispatch_single(item("basic", "not-an-email"), &locales(), build, forbidden) {
        SendResponse::Error { message } => assert_eq!(message, "Bad email address: Invalid input"),
        other => panic!("unexpected report: {:?}", other),
    }
}

#[test]
fn bulk_of_nothing_reports_nothing() {
    assert!(dispatch_bulk(Vec::new(), &locales(), build, forbidden).is_empty());
}

#[test]
fn bulk_reports_every_request_at_its_index() {
    for total in [1usize, 2, 15, 16, 17, 33] {
        let requests: Vec<SendTemplateItem> =
            (0..total).map(|i| item("basic", &format!("user{}@example.com", i))).collect();
        let report = dispatch_bulk(requests, &locales(), build, accepting);
        assert_eq!(report.len(), total);
        for (i, response) in report.iter().enumerate() {
            assert_eq!(message_of(response), format!("queued for user{}@example.com\n", i));
        }
    }
}

#[test]
fn bulk_with_one_invalid_request_among_five() {
    let requests = vec![
        item("basic", "user0@example.com"),
        item("basic", "user1@example.com"),
        item("does-not-exist", "user2@example.com"),
        item("basic", "user3@example.com"),
        item("basic", "user4@example.com"),
    ];
    let report = dispatch_bulk(requests, &locales(), build, accepting);
    assert_eq!(report.len(), 5);
    for i in [0usize, 1, 3, 4] {
        match &report[i] {
            SendResponse::Success { code, message } => {
                assert_eq!(*code, 250);
                assert_eq!(message, &format!("queued for user{}@example.com\n", i));
            }
            other => panic!("unexpected report: {:?}", other),
        }
    }
    assert!(matches!(&report[2], SendResponse::Error { message } if message.contains("TemplateNotFound")));
}

#[test]
fn bulk_of_three_is_success_error_error() {
    let requests = vec![
        item("basic", "jade@example.com"),
        item("does-not-exist", "jade@example.com"),
        item("basic", "not-an-email"),
    ];
    let report = dispatch_bulk(requests, &locales(), build, accepting);
    assert_eq!(report.len(), 3);
    assert!(matches!(&report[0], SendResponse::Success { code: 250, .. }));
    match &report[1] {
        SendResponse::Error { message } => assert!(message.contains("TemplateNotFound")),
        other => panic!("unexpected report: {:?}", other),
    }
    match &report[2] {
        SendResponse::Error { message } => assert_eq!(message, "Bad email address: Invalid input"),
        other => panic!("unexpected report: {:?}", other),
    }
}

#[test]
fn bulk_with_an_unreachable_relay_reports_an_error_for_every_request() {
    let requests = vec![item("basic", "a@example.com"), item("basic", "b@example.com")];
    let report = dispatch_bulk(requests, &locales(), build, unreachable_relay);
    assert_eq!(report.len(), 2);
    for response in &report {
        assert!(matches!(response, SendResponse::Error { message } if message.starts_with("Failed to send mail: ")));
    }
}

#[test]
fn bulk_serves_each_request_in_its_own_locale() {
    let mut french = item("basic", "b@example.com");
    french.lang = Some("fr".to_string());
    let mut absent = item("basic", "c@example.com");
    absent.lang = None;
    let seen = |message: Message| -> Result<Response, lettre::transport::smtp::Error> {
        let wire = String::from_utf8(message.formatted()).unwrap();
        let line = if wire.contains("Bonjour !") { "fr" } else { "en" };
        let code = Code::new(Severity::PositiveCompletion, Category::MailSystem, Detail::Zero);
        Ok(Response::new(code, vec![line.to_string()]))
    };
    let report = dispatch_bulk(vec![item("basic", "a@example.com"), french, absent], &locales(), build, seen);
    assert_eq!(message_of(&report[0]), "en\n");
    assert_eq!(message_of(&report[1]), "fr\n");
    assert_eq!(message_of(&report[2]), "en\n");
}
