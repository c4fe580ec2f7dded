use lettre::transport::smtp::response::Category;
use lettre::transport::smtp::response::Code;
use lettre::transport::smtp::response::Detail;
use lettre::transport::smtp::response::Response;
use lettre::transport::smtp::response::Severity;
use mb_mail_service::bulk::BulkDispatch;
use mb_mail_service::bulk::PAR_SENDERS;
use mb_mail_service::locale::Locale;
use mb_mail_service::send::delivered;
use mb_mail_service::send::send_mail_bulk_route;
use mb_mail_service::send::send_mail_template;
use mb_mail_service::send::SendResponse;
use mb_mail_service::send::SendTemplateItem;
use mb_mail_service::templates::Template;
use mb_mail_service::templates::TemplateError;
use mb_mail_service::Locales;
use mrml::mjml::Mjml;
use serde_json::Value;

fn locales() -> Locales {
    Locales::new(vec!["en".to_string()], 0).unwrap()
}

fn build(template: Template, _params: Value, _locale: Locale) -> Result<Mjml, TemplateError> {
    match template {
        Template::Basic => Ok(mrml::parse(
            "<mjml><mj-body><mj-button>Hello world in English!</mj-button></mj-body></mjml>",
        )
        .unwrap()),
        _ => Err(TemplateError::SerdeJson("missing field `to_name`".to_string())),
    }
}

fn item(template_id: &str, to: &str) -> SendTemplateItem {
    SendTemplateItem {
        template_id: template_id.to_string(),
        from: "noreply@musicbrainz.org".to_string(),
        sender: None,
        to: to.to_string(),
        reply_to: None,
        lang: Some("en".to_string()),
        params: Value::Null,
        message_id: None,
        in_reply_to: Vec::new(),
        references: Vec::new(),
    }
}

/// Sends one request as a worker of the service does, with a relay that
/// accepts whatever it is handed and names the recipient in its answer.
fn send(request: SendTemplateItem) -> SendResponse {
    let outcome = match send_mail_template(request, &locales(), build) {
        Ok(message) => {
            let to = message.envelope().to()[0].to_string();
            let code = Code::new(Severity::PositiveCompletion, Category::MailSystem, Detail::Zero);
            delivered(Ok(Response::new(code, vec![format!("queued for {}", to)])))
        }
        Err(error) => Err(error),
    };
    SendResponse::report(&outcome)
}

/// Drives a batch to its end. Of the requests in flight, the one that
/// `pick` chooses finishes next. Returns the report and the largest number
/// of requests that were in flight at once.
fn run(mut engine: BulkDispatch, pick: fn(usize) -> usize) -> (Vec<SendResponse>, usize) {
    let mut flying: Vec<(usize, SendTemplateItem)> = Vec::new();
    let mut most = 0;
    while !engine.is_complete() {
        while let Some(job) = engine.launch() {
            flying.push(job);
        }
        assert_eq!(engine.in_flight(), flying.len());
        assert!(flying.len() <= engine.budget());
        most = most.max(flying.len());
        let (index, request) = flying.remove(pick(flying.len()));
        assert!(engine.record(index, send(request)));
    }
    (engine.collect().unwrap(), most)
}

fn oldest(_flying: usize) -> usize {
    0
}

fn newest(flying: usize) -> usize {
    flying - 1
}

fn middle(flying: usize) -> usize {
    flying / 2
}

fn message_of(response: &SendResponse) -> String {
    match response {
        SendResponse::Success { message, .. } => message.clone(),
        SendResponse::Error { message } => message.clone(),
    }
}

#[test]
fn empty_batch_is_complete_at_once_and_reports_nothing() {
    let mut engine = send_mail_bulk_route(Vec::new());
    assert_eq!(engine.total(), 0);
    assert!(engine.is_complete());
    assert!(engine.launch().is_none());
    assert_eq!(engine.collect().unwrap().len(), 0);
}

#[test]
fn service_budget_is_sixteen() {
    assert_eq!(PAR_SENDERS, 16);
    let engine = send_mail_bulk_route(vec![item("basic", "a@example.com")]);
    assert_eq!(engine.budget(), 16);
    assert_eq!(engine.total(), 1);
    assert_eq!(engine.in_flight(), 0);
    assert!(!engine.is_complete());
}

#[test]
fn report_has_one_entry_per_request_in_the_order_of_the_requests() {
    for total in [1usize, 2, 3, 16, 17, 40] {
        for pick in [oldest as fn(usize) -> usize, newest, middle] {
            let requests: Vec<SendTemplateItem> =
                (0..total).map(|i| item("basic", &format!("user{}@example.com", i))).collect();
            let (report, _) = run(send_mail_bulk_route(requests), pick);
            assert_eq!(report.len(), total);
            for (i, response) in report.iter().enumerate() {
                assert_eq!(message_of(response), format!("queued for user{}@example.com\n", i));
            }
        }
    }
}

#[test]
fn requests_are_handed_out_once_each_in_order_with_their_index() {
    let requests: Vec<SendTemplateItem> =
        (0..5).map(|i| item("basic", &format!("user{}@example.com", i))).collect();
    let mut engine = BulkDispatch::new(requests, 5);
    for expected in 0..5 {
        let (index, request) = engine.launch().unwrap();
        assert_eq!(index, expected);
        assert_eq!(request.to, format!("user{}@example.com", expected));
    }
    assert!(engine.launch().is_none());
    assert_eq!(engine.in_flight(), 5);
}

#[test]
fn no_more_requests_are_in_flight_than_the_budget_allows() {
    for budget in [1usize, 2, 3, 16] {
        let requests: Vec<SendTemplateItem> =
            (0..40).map(|i| item("basic", &format!("user{}@example.com", i))).collect();
        let (report, most) = run(BulkDispatch::new(requests, budget), middle);
        assert_eq!(report.len(), 40);
        assert_eq!(most, budget);
    }
    let few: Vec<SendTemplateItem> = (0..3).map(|_| item("basic", "a@example.com")).collect();
    let (_, most) = run(send_mail_bulk_route(few), newest);
    assert_eq!(most, 3);
}

#[test]
fn launch_waits_for_a_free_slot() {
    let requests: Vec<SendTemplateItem> = (0..3).map(|_| item("basic", "a@example.com")).collect();
    let mut engine = BulkDispatch::new(requests, 2);
    let (first, _) = engine.launch().unwrap();
    let (second, _) = engine.launch().unwrap();
    assert_eq!((first, second), (0, 1));
    assert!(engine.launch().is_none());
    assert_eq!(engine.in_flight(), 2);
    assert!(engine.record(1, SendResponse::Error { message: "late".to_string() }));
    assert_eq!(engine.in_flight(), 1);
    let (third, _) = engine.launch().unwrap();
    assert_eq!(third, 2);
    assert!(engine.launch().is_none());
}

#[test]
fn budget_of_zero_starts_nothing() {
    let mut engine = BulkDispatch::new(vec![item("basic", "a@example.com")], 0);
    assert!(engine.launch().is_none());
    assert!(!engine.is_complete());
    assert!(engine.collect().is_none());
}

#[test]
fn outcome_is_taken_only_for_a_request_in_flight() {
    let requests: Vec<SendTemplateItem> = (0..2).map(|_| item("basic", "a@example.com")).collect();
    let mut engine = BulkDispatch::new(requests, 1);
    assert!(!engine.record(0, SendResponse::Error { message: "early".to_string() }));
    engine.launch().unwrap();
    assert!(!engine.record(1, SendResponse::Error { message: "not started".to_string() }));
    assert!(!engine.record(7, SendResponse::Error { message: "no such".to_string() }));
    assert!(engine.record(0, SendResponse::Error { message: "first".to_string() }));
    assert!(!engine.record(0, SendResponse::Error { message: "again".to_string() }));
    assert_eq!(engine.in_flight(), 0);
    engine.launch().unwrap();
    assert!(engine.record(1, SendResponse::Error { message: "second".to_string() }));
    let report = engine.collect().unwrap();
    assert_eq!(message_of(&report[0]), "first");
    assert_eq!(message_of(&report[1]), "second");
}

#[test]
fn no_report_is_given_while_a_request_is_outstanding() {
    let requests: Vec<SendTemplateItem> = (0..2).map(|_| item("basic", "a@example.com")).collect();
    let mut engine = BulkDispatch::new(requests, 2);
    engine.launch().unwrap();
    engine.launch().unwrap();
    assert!(engine.record(1, SendResponse::Error { message: "x".to_string() }));
    assert!(!engine.is_complete());
    assert!(engine.collect().is_none());
}

#[test]
fn failing_request_leaves_the_others_alone() {
    let batch = |third: &str| -> Vec<SendTemplateItem> {
        vec![
            item("basic", "user0@example.com"),
            item("basic", "user1@example.com"),
            item(third, "user2@example.com"),
            item("basic", "user3@example.com"),
            item("basic", "user4@example.com"),
        ]
    };
    let (broken, _) = run(BulkDispatch::new(batch("does-not-exist"), 2), newest);
    let (sound, _) = run(BulkDispatch::new(batch("basic"), 2), newest);
    assert_eq!(broken.len(), 5);
    for i in [0usize, 1, 3, 4] {
        assert!(matches!(broken[i], SendResponse::Success { code: 250, .. }));
        assert_eq!(message_of(&broken[i]), message_of(&sound[i]));
    }
    assert!(matches!(broken[2], SendResponse::Error { .. }));
    assert!(matches!(sound[2], SendResponse::Success { code: 250, .. }));
}

#[test]
fn batch_of_three_reports_success_then_two_errors() {
    let requests = vec![
        item("basic", "jade@example.com"),
        item("does-not-exist", "jade@example.com"),
        item("basic", "not-an-email"),
    ];
    let (report, _) = run(send_mail_bulk_route(requests), oldest);
    assert_eq!(report.len(), 3);
    match &report[0] {
        SendResponse::Success { code, message } => {
            assert_eq!(*code, 250);
            assert_eq!(message, "queued for jade@example.com\n");
        }
        other => panic!("unexpected report: {:?}", other),
    }
    match &report[1] {
        SendResponse::Error { message } => {
            assert!(message.contains("TemplateNotFound"));
            assert_eq!(message, "Failed to render template: TemplateNotFound: does-not-exist");
        }
        other => panic!("unexpected report: {:?}", other),
    }
    match &report[2] {
        SendResponse::Error { message } => {
            assert_eq!(message, "Bad email address: Invalid input");
        }
        other => panic!("unexpected report: {:?}", other),
    }
}
