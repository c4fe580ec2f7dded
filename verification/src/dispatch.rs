//! The boundary of the service for callers whose transport answers in
//! place: one request, or a batch of them, from the request to its report.
//!
//! A transport here is any function from a composed message to what the
//! relay made of it. Callers whose transport has to be awaited drive the
//! engine of [`crate::bulk`] themselves and use the same steps.

use vstd::prelude::*;
use crate::bulk::lemma_complete_has_all;
use crate::bulk::lemma_launch_within_budget;
use crate::bulk::lemma_record_isolated;
use crate::bulk::lemma_recorded_below_admitted;
use crate::bulk::send_mail_bulk_route;
use crate::bulk::PAR_SENDERS;
use crate::locale::optional_text;
use crate::locale::Locale;
use crate::locale::Locales;
use crate::render::localized_for;
use crate::render::table_renders;
use crate::render::EngineError;
use crate::send::composed_from;
use crate::send::delivered;
use crate::send::failure_code;
use crate::send::reply_report;
use crate::send::send_mail_template;
use crate::send::Report;
use crate::send::SendError;
use crate::send::SendFault;
use crate::send::SendResponse;
use crate::send::SendTemplateItem;
use crate::templates::Template;
use crate::templates::TemplateError;

verus! {

/// What is reported of a message that was handed to the transport: the
/// reply of the relay, or an SMTP error in the transport's words.
pub open spec fn delivery_report(
    sent: Result<lettre::transport::smtp::response::Response, lettre::transport::smtp::Error>,
    report: Report,
) -> bool {
    match sent {
        Ok(reply) => report == reply_report(reply),
        Err(fault) => exists|words: Seq<char>|
            report == (Report::Error {
                message: #[trigger] (SendFault::SmtpError {
                    code: failure_code(fault),
                    words,
                }).text(),
            }),
    }
}

/// What is reported of a request once the message for it has been composed
/// or not: a failure to compose is reported as an error in its own words
/// and the transport is not asked; a message is handed to the transport
/// once, and what comes back is reported.
pub open spec fn composed_report<T>(
    transport: T,
    composed: Result<lettre::Message, SendError>,
    report: Report,
) -> bool where
    T: Fn(lettre::Message) -> Result<
        lettre::transport::smtp::response::Response,
        lettre::transport::smtp::Error,
    >,
 {
    match composed {
        Err(fault) => report == (Report::Error { message: fault@.text() }),
        Ok(message) => exists|
            sent: Result<
                lettre::transport::smtp::response::Response,
                lettre::transport::smtp::Error,
            >,
        |
            #![trigger call_ensures(transport, (message,), sent)]
            call_ensures(transport, (message,), sent) && delivery_report(sent, report),
    }
}

/// What is reported of one request: the outcome of rendering it, of
/// composing the message for it and of handing that message to the
/// transport, each step as the sender describes it.
pub open spec fn request_report<F, T>(
    build: F,
    transport: T,
    locales: Locales,
    item: SendTemplateItem,
    report: Report,
) -> bool where
    F: Fn(Template, serde_json::Value, Locale) -> Result<mrml::mjml::Mjml, TemplateError>,
    T: Fn(lettre::Message) -> Result<
        lettre::transport::smtp::response::Response,
        lettre::transport::smtp::Error,
    >,
 {
    exists|
        page: Result<(String, Option<String>), EngineError>,
        composed: Result<lettre::Message, SendError>,
    |
        #![trigger composed_from(page, item.headers(), composed)]
        localized_for(
            build,
            locales,
            item.template_id@,
            item.params,
            optional_text(item.lang),
            page,
        ) && composed_from(page, item.headers(), composed) && composed_report(
            transport,
            composed,
            report,
        )
}

/// Whether what is reported of a request is settled by the request: the
/// table of templates, the mail library and the transport leave no choice
/// between two reports.
pub open spec fn settled<F, T>(
    build: F,
    transport: T,
    locales: Locales,
    item: SendTemplateItem,
) -> bool where
    F: Fn(Template, serde_json::Value, Locale) -> Result<mrml::mjml::Mjml, TemplateError>,
    T: Fn(lettre::Message) -> Result<
        lettre::transport::smtp::response::Response,
        lettre::transport::smtp::Error,
    >,
 {
    forall|one: Report, other: Report|
        #![trigger request_report(build, transport, locales, item, one), request_report(build, transport, locales, item, other)]
        request_report(build, transport, locales, item, one) && request_report(
            build,
            transport,
            locales,
            item,
            other,
        ) ==> one == other
}

/// A request fares the same in whatever company: where two batches hold
/// the same request at one index, and what is reported of that request is
/// settled by the request, the reports of the two batches agree at that
/// index, whatever the other requests are and whatever comes of them.
pub proof fn lemma_same_request_same_report<F, T>(
    build: F,
    transport: T,
    locales: Locales,
    first_batch: Seq<SendTemplateItem>,
    second_batch: Seq<SendTemplateItem>,
    first: Seq<Report>,
    second: Seq<Report>,
    index: int,
) where
    F: Fn(Template, serde_json::Value, Locale) -> Result<mrml::mjml::Mjml, TemplateError>,
    T: Fn(lettre::Message) -> Result<
        lettre::transport::smtp::response::Response,
        lettre::transport::smtp::Error,
    >,

    requires
        0 <= index < first_batch.len(),
        index < second_batch.len(),
        first.len() == first_batch.len(),
        second.len() == second_batch.len(),
        first_batch[index] == second_batch[index],
        settled(build, transport, locales, first_batch[index]),
        forall|i: int|
            0 <= i < first_batch.len() ==> request_report(
                build,
                transport,
                locales,
                first_batch[i],
                #[trigger] first[i],
            ),
        forall|i: int|
            0 <= i < second_batch.len() ==> request_report(
                build,
                transport,
                locales,
                second_batch[i],
                #[trigger] second[i],
            ),
    ensures
        first[index] == second[index],
{
}

/// Sends one request and reports what came of it. Whatever fails, fails
/// for this request alone and ends up in the report: nothing is handed on
/// as an error.
pub fn dispatch_single<F, T>(
    item: SendTemplateItem,
    locales: &Locales,
    build: F,
    transport: T,
) -> (response: SendResponse) where
    F: Fn(Template, serde_json::Value, Locale) -> Result<mrml::mjml::Mjml, TemplateError>,
    T: Fn(lettre::Message) -> Result<
        lettre::transport::smtp::response::Response,
        lettre::transport::smtp::Error,
    >,

    requires
        locales.wf(),
        table_renders(build),
        forall|template: Template, lang: Locale|
            call_requires(build, (template, item.params, lang)),
        forall|message: lettre::Message| call_requires(transport, (message,)),
    ensures
        request_report(build, transport, *locales, item, response@),
{
    let composed = send_mail_template(item, locales, build);
    let ghost page = choose|page: Result<(String, Option<String>), EngineError>|
        localized_for(
            build,
            *locales,
            item.template_id@,
            item.params,
            optional_text(item.lang),
            page,
        ) && composed_from(page, item.headers(), composed);
    match composed {
        Err(fault) => {
            let response = SendResponse::failure(&fault);
            assert(composed_report(transport, composed, response@));
            assert(composed_from(page, item.headers(), composed));
            response
        },
        Ok(message) => {
            let sent = transport(message);
            let outcome = delivered(sent);
            let response = SendResponse::report(&outcome);
            proof {
                if sent is Err {
                    let words = outcome->Err_0@->SmtpError_words;
                    assert(response@ == (Report::Error {
                        message: (SendFault::SmtpError {
                            code: failure_code(sent->Err_0),
                            words,
                        }).text(),
                    }));
                }
                assert(delivery_report(sent, response@));
                assert(call_ensures(transport, (message,), sent));
                assert(composed_report(transport, composed, response@));
                assert(composed_from(page, item.headers(), composed));
            }
            response
        },
    }
}

/// Sends a batch of requests and reports what came of each. The report has
/// one entry for every request, at the index of the request, whatever came
/// of the others; the report of an empty batch is empty. The requests pass
/// through the engine of the service, one at a time.
pub fn dispatch_bulk<F, T>(
    items: Vec<SendTemplateItem>,
    locales: &Locales,
    build: F,
    transport: T,
) -> (report: Vec<SendResponse>) where
    F: Fn(Template, serde_json::Value, Locale) -> Result<mrml::mjml::Mjml, TemplateError> + Copy,
    T: Fn(lettre::Message) -> Result<
        lettre::transport::smtp::response::Response,
        lettre::transport::smtp::Error,
    > + Copy,

    requires
        locales.wf(),
        table_renders(build),
        forall|params: serde_json::Value, template: Template, lang: Locale|
            call_requires(build, (template, params, lang)),
        forall|message: lettre::Message| call_requires(transport, (message,)),
    ensures
        report@.len() == items@.len(),
        forall|i: int|
            0 <= i < items@.len() ==> request_report(
                build,
                transport,
                *locales,
                items@[i],
                (#[trigger] report@[i])@,
            ),
{
    let mut engine = send_mail_bulk_route(items);
    let mut started = engine.launch();
    while started.is_some()
        invariant
            locales.wf(),
            table_renders(build),
            forall|params: serde_json::Value, template: Template, lang: Locale|
                call_requires(build, (template, params, lang)),
            forall|message: lettre::Message| call_requires(transport, (message,)),
            engine.wf(),
            engine@.requests == items@,
            engine@.budget == PAR_SENDERS,
            started matches Some(job) ==> engine@.awaits(job.0) && job.1 == items@[job.0 as int]
                && engine@.in_flight() == 1,
            started is None ==> engine@.in_flight() == 0 && !engine@.can_launch(),
            forall|i: usize| #[trigger]
                engine@.results.contains_key(i) ==> request_report(
                    build,
                    transport,
                    *locales,
                    items@[i as int],
                    engine@.results[i],
                ),
        decreases items@.len() - engine@.admitted + (if started is Some { 1int } else { 0int }),
    {
        let (index, item) = started.unwrap();
        let response = dispatch_single(item, locales, build, transport);
        proof {
            lemma_record_isolated(engine@, index, response@);
        }
        let taken = engine.record(index, response);
        proof {
            lemma_recorded_below_admitted(engine@);
            if engine@.can_launch() {
                lemma_launch_within_budget(engine@);
            }
        }
        started = engine.launch();
    }
    let ghost batch = engine@;
    proof {
        lemma_recorded_below_admitted(batch);
        lemma_complete_has_all(batch);
    }
    match engine.collect() {
        Some(report) => {
            assert forall|i: int| 0 <= i < items@.len() implies request_report(
                build,
                transport,
                *locales,
                items@[i],
                (#[trigger] report@[i])@,
            ) by {
                assert(batch.results.contains_key(i as usize));
            }
            report
        },
        None => vstd::pervasive::unreached(),
    }
}

} // verus!
