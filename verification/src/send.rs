//! The single-item sender: the requests of the service, the message that is
//! composed for one of them, and what is reported of its delivery.

use vstd::prelude::*;
use vstd::string::StringExecFns;
pub use crate::bulk::send_mail_bulk_route;
use crate::locale::optional_text;
use crate::locale::Locale;
use crate::locale::Locales;
use crate::render::page_text;
use crate::render::mjml_rendered;
use crate::render::page_outcome;
use crate::render::render_mjml;
use crate::render::localized_for;
use crate::render::render_localized;
use crate::render::render_text;
use crate::render::table_renders;
use crate::render::text_renders;
use crate::render::EngineError;
use crate::render::EngineFault;
use crate::strings::join_lines;
use crate::strings::join_spaced;
use crate::strings::lines_text;
use crate::strings::spaced;
use crate::strings::texts;
use crate::templates::Template;
use crate::templates::TemplateError;

verus! {

/// Trusted: `lettre::message::Mailbox`, an address that lettre has parsed.
#[verifier::external_type_specification]
#[verifier::external_body]
pub struct ExMailbox(lettre::message::Mailbox);

/// Trusted: `lettre::message::MessageBuilder`, the headers of a message
/// that is being put together.
#[verifier::external_type_specification]
#[verifier::external_body]
pub struct ExMessageBuilder(lettre::message::MessageBuilder);

/// Trusted: `lettre::message::MultiPart`, a body of several parts.
#[verifier::external_type_specification]
#[verifier::external_body]
pub struct ExMultiPart(lettre::message::MultiPart);

/// Trusted: `lettre::Message`, a message ready for a transport.
#[verifier::external_type_specification]
#[verifier::external_body]
pub struct ExMessage(lettre::Message);

/// Trusted: `lettre::transport::smtp::response::Response`, the reply of an
/// SMTP relay: a three-digit code and the lines of its message.
#[verifier::external_type_specification]
#[verifier::external_body]
pub struct ExResponse(lettre::transport::smtp::response::Response);

/// Trusted: `lettre::transport::smtp::Error`, the failure of an SMTP
/// exchange.
#[verifier::external_type_specification]
#[verifier::external_body]
pub struct ExSmtpError(lettre::transport::smtp::Error);

/// The headers of a message that the sender sets.
#[derive(Clone, Copy, Debug, PartialEq, Eq, Structural)]
pub enum Field {
    From,
    To,
    Sender,
    ReplyTo,
    Subject,
    MessageId,
    InReplyTo,
    References,
}

/// The words with which lettre rejects `src` as a mailbox, if it does.
pub uninterp spec fn address_fault(src: Seq<char>) -> Option<Seq<char>>;

/// What a builder holds of the headers that the sender sets: under each of
/// them that is present, its value as it was given, before any encoding.
/// Headers are told apart by their names, whatever the case of the letters.
pub uninterp spec fn builder_fields(builder: lettre::message::MessageBuilder) -> Map<
    Field,
    Seq<char>,
>;

/// What a message holds of the headers that the sender sets, read as in
/// [`builder_fields`].
pub uninterp spec fn message_fields(message: lettre::Message) -> Map<Field, Seq<char>>;

/// No header at all.
pub open spec fn no_fields() -> Map<Field, Seq<char>> {
    Map::empty()
}

/// Whether headers can be closed over a body: the `From` header, where
/// there is one, reads as a mailbox that can be written does.
pub open spec fn closable(fields: Map<Field, Seq<char>>) -> bool {
    fields.contains_key(Field::From) ==> exists|mbox: lettre::message::Mailbox|
        writable(mbox) && fields[Field::From] == #[trigger] mailbox_text(mbox)
}

/// The text of a mailbox as the mail library writes it: the address, after
/// the name in angle brackets where the mailbox has a name.
pub uninterp spec fn mailbox_text(mbox: lettre::message::Mailbox) -> Seq<char>;

/// Whether the mail library can write the mailbox into a header: it
/// cannot where the name of the mailbox holds a line break.
pub uninterp spec fn writable(mbox: lettre::message::Mailbox) -> bool;

/// The text, as in [`mailbox_text`], of the mailbox that the mail library
/// makes of `src`. It says nothing of text that the library rejects.
pub uninterp spec fn parsed_address(src: Seq<char>) -> Seq<char>;

/// The words with which the mail library refuses to close a builder over
/// a body, if it does: it refuses headers without an originator or without
/// a recipient, whatever the body.
pub uninterp spec fn closing_fault(builder: lettre::message::MessageBuilder) -> Option<Seq<char>>;

/// The parts of a body in order: the media type of each, and its content
/// before it is encoded for transfer.
pub uninterp spec fn body_parts(body: lettre::message::MultiPart) -> Seq<(Seq<char>, Seq<char>)>;

/// The parts of the body of a message, read as in [`body_parts`].
pub uninterp spec fn message_parts(message: lettre::Message) -> Seq<(Seq<char>, Seq<char>)>;

/// The media type of the plain-text part of a message.
pub const PLAIN_TYPE: &'static str = "text/plain; charset=utf-8";

/// The media type of the HTML part of a message.
pub const HTML_TYPE: &'static str = "text/html; charset=utf-8";

/// `text` with the line endings of mail: a carriage return in front of
/// every line feed that has none.
pub open spec fn crlf(text: Seq<char>) -> Seq<char>
    decreases text.len(),
{
    if text.len() == 0 {
        Seq::empty()
    } else if text.last() == '\n' && (text.len() == 1 || text[text.len() - 2] != '\r') {
        crlf(text.drop_last()) + seq!['\r', '\n']
    } else {
        crlf(text.drop_last()).push(text.last())
    }
}

/// The two parts of a message of the service: the plain text first, then
/// the HTML page, each with the line endings of mail.
pub open spec fn two_parts(text: Seq<char>, html: Seq<char>) -> Seq<(Seq<char>, Seq<char>)> {
    seq![(PLAIN_TYPE@, crlf(text)), (HTML_TYPE@, crlf(html))]
}

/// The lines of the message of a relay's reply, in order.
pub uninterp spec fn reply_lines(reply: lettre::transport::smtp::response::Response) -> Seq<
    Seq<char>,
>;

/// The three-digit code of a relay's reply, as a number.
pub uninterp spec fn reply_code(reply: lettre::transport::smtp::response::Response) -> u16;

/// The three-digit code with which the relay refused, where the failure of
/// an SMTP exchange is a refusal of the relay.
pub uninterp spec fn failure_code(error: lettre::transport::smtp::Error) -> Option<u16>;

/// Trusted: `Mailbox::from_str` of lettre, reached through `str::parse`.
/// Whether the text is accepted, the words of the rejection, and the
/// mailbox that is made of accepted text, depend on the text alone. The
/// parser takes no line break into a name, so what it makes can be
/// written.
#[verifier::external_body]
fn parse_mailbox(src: &str) -> (parsed: Result<lettre::message::Mailbox, String>)
    ensures
        parsed is Err <==> address_fault(src@) is Some,
        parsed matches Err(words) ==> address_fault(src@) == Some(words@),
        parsed matches Ok(mbox) ==> mailbox_text(mbox) == parsed_address(src@),
        parsed matches Ok(mbox) ==> writable(mbox),
{
    src.parse::<lettre::message::Mailbox>().map_err(|e| e.to_string())
}

/// Trusted: `Message::builder` of lettre, a builder without headers.
pub assume_specification[ lettre::Message::builder ]() -> (builder: lettre::message::MessageBuilder)
    ensures
        builder_fields(builder) == no_fields(),
;

/// Trusted: `MessageBuilder::from` of lettre, for a mailbox that can be
/// written. Afterwards the `From` header is present and every other header
/// is as it was. Where the header was
/// not there, it now reads as the mailbox does; where it was, the mailbox
/// joins those it held.
pub assume_specification[ lettre::message::MessageBuilder::from ](
    builder: lettre::message::MessageBuilder,
    mbox: lettre::message::Mailbox,
) -> (next: lettre::message::MessageBuilder)
    requires
        writable(mbox),
    ensures
        builder_fields(next).contains_key(Field::From),
        !builder_fields(builder).contains_key(Field::From) ==> builder_fields(next)[Field::From]
            == mailbox_text(mbox),
        builder_fields(next).remove(Field::From) == builder_fields(builder).remove(Field::From),
;

/// Trusted: `MessageBuilder::to` of lettre, for a mailbox that can be
/// written. Afterwards the `To` header is present and every other header
/// is as it was. Where the header was
/// not there, it now reads as the mailbox does; where it was, the mailbox
/// joins those it held.
pub assume_specification[ lettre::message::MessageBuilder::to ](
    builder: lettre::message::MessageBuilder,
    mbox: lettre::message::Mailbox,
) -> (next: lettre::message::MessageBuilder)
    requires
        writable(mbox),
    ensures
        builder_fields(next).contains_key(Field::To),
        !builder_fields(builder).contains_key(Field::To) ==> builder_fields(next)[Field::To]
            == mailbox_text(mbox),
        builder_fields(next).remove(Field::To) == builder_fields(builder).remove(Field::To),
;

/// Trusted: `MessageBuilder::sender` of lettre, for a mailbox that can be
/// written. Afterwards the `Sender` header reads as the mailbox does and
/// every other header is as it was.
pub assume_specification[ lettre::message::MessageBuilder::sender ](
    builder: lettre::message::MessageBuilder,
    mbox: lettre::message::Mailbox,
) -> (next: lettre::message::MessageBuilder)
    requires
        writable(mbox),
    ensures
        builder_fields(next).contains_key(Field::Sender),
        builder_fields(next)[Field::Sender] == mailbox_text(mbox),
        builder_fields(next).remove(Field::Sender) == builder_fields(builder).remove(Field::Sender),
;

/// Trusted: `MessageBuilder::reply_to` of lettre, for a mailbox that can be
/// written. Afterwards the `Reply-To` header is present and every other header
/// is as it was. Where the header was
/// not there, it now reads as the mailbox does; where it was, the mailbox
/// joins those it held.
pub assume_specification[ lettre::message::MessageBuilder::reply_to ](
    builder: lettre::message::MessageBuilder,
    mbox: lettre::message::Mailbox,
) -> (next: lettre::message::MessageBuilder)
    requires
        writable(mbox),
    ensures
        builder_fields(next).contains_key(Field::ReplyTo),
        !builder_fields(builder).contains_key(Field::ReplyTo) ==> builder_fields(next)[Field::ReplyTo]
            == mailbox_text(mbox),
        builder_fields(next).remove(Field::ReplyTo) == builder_fields(builder).remove(Field::ReplyTo),
;

/// Trusted: `MessageBuilder::message_id` of lettre, which sets the
/// `Message-ID` header to the given identifier, or to one that lettre makes
/// up where none is given. Every other header is as it was.
pub assume_specification[ lettre::message::MessageBuilder::message_id ](
    builder: lettre::message::MessageBuilder,
    id: Option<String>,
) -> (next: lettre::message::MessageBuilder)
    ensures
        builder_fields(next).contains_key(Field::MessageId),
        id matches Some(given) ==> builder_fields(next)[Field::MessageId] == given@,
        builder_fields(next).remove(Field::MessageId) == builder_fields(builder).remove(
            Field::MessageId,
        ),
;

/// Trusted: `MessageBuilder::in_reply_to` of lettre, which sets the
/// `In-Reply-To` header to the given text and leaves every other header as it
/// was.
pub assume_specification[ lettre::message::MessageBuilder::in_reply_to ](
    builder: lettre::message::MessageBuilder,
    id: String,
) -> (next: lettre::message::MessageBuilder)
    ensures
        builder_fields(next) == builder_fields(builder).insert(Field::InReplyTo, id@),
;

/// Trusted: `MessageBuilder::references` of lettre, which sets the
/// `References` header to the given text and leaves every other header as it
/// was.
pub assume_specification[ lettre::message::MessageBuilder::references ](
    builder: lettre::message::MessageBuilder,
    id: String,
) -> (next: lettre::message::MessageBuilder)
    ensures
        builder_fields(next) == builder_fields(builder).insert(Field::References, id@),
;

/// Trusted: `MessageBuilder::subject` of lettre, which sets the `Subject`
/// header to the given text and leaves every other header as it was.
#[verifier::external_body]
fn with_subject(builder: lettre::message::MessageBuilder, subject: String) -> (next:
    lettre::message::MessageBuilder)
    ensures
        builder_fields(next) == builder_fields(builder).insert(Field::Subject, subject@),
{
    builder.subject(subject)
}

/// Trusted: `MultiPart::alternative_plain_html` of lettre, a body of two
/// alternatives: the plain text first, then the HTML page, each under its
/// media type and with its line endings turned into those of mail.
#[verifier::external_body]
fn two_part_body(text: String, html: String) -> (body: lettre::message::MultiPart)
    ensures
        body_parts(body) == two_parts(text@, html@),
{
    lettre::message::MultiPart::alternative_plain_html(text, html)
}

/// Trusted: `MessageBuilder::multipart` of lettre, which closes the
/// builder over a body. The message has the headers of the builder, and of
/// its own making a date and the MIME version, and the parts of the body.
/// Whether lettre refuses the headers, and with which words, depends on
/// the builder alone. The builder's `From` header, where it has one, reads
/// as a mailbox does: lettre does not return on one that names nobody.
#[verifier::external_body]
fn close_message(builder: lettre::message::MessageBuilder, body: lettre::message::MultiPart) -> (made:
    Result<lettre::Message, String>)
    requires
        closable(builder_fields(builder)),
    ensures
        made is Err <==> closing_fault(builder) is Some,
        made matches Err(words) ==> closing_fault(builder) == Some(words@),
        made matches Ok(message) ==> message_fields(message) == builder_fields(builder),
        made matches Ok(message) ==> message_parts(message) == body_parts(body),
{
    builder.multipart(body).map_err(|e| e.to_string())
}

/// Trusted: `Response::code` of lettre and the conversion of the code to a
/// number, which puts its three digits side by side.
#[verifier::external_body]
fn code_of(reply: &lettre::transport::smtp::response::Response) -> (code: u16)
    ensures
        code == reply_code(*reply),
{
    reply.code().into()
}

/// Trusted: `Response::message` of lettre, the lines of the reply in order.
#[verifier::external_body]
fn lines_of(reply: &lettre::transport::smtp::response::Response) -> (lines: Vec<String>)
    ensures
        texts(lines@) == reply_lines(*reply),
{
    reply.message().map(str::to_owned).collect()
}

/// Trusted: `Response::is_positive` of lettre, which holds when the first
/// digit of the code is 2 or 3.
#[verifier::external_body]
fn is_positive(reply: &lettre::transport::smtp::response::Response) -> (positive: bool)
    ensures
        positive == (200 <= reply_code(*reply) < 400),
{
    reply.is_positive()
}

/// Trusted: the `Display` text of lettre's SMTP error. The text ends in
/// that of the error's source, which for a failure of the network is the
/// operating system's own message: nothing is claimed of it.
#[verifier::external_body]
fn transport_words(error: &lettre::transport::smtp::Error) -> (words: String) {
    error.to_string()
}

/// Trusted: `Error::status` of lettre's SMTP error, the code of the reply
/// with which the relay refused, transiently or for good, and the
/// conversion of the code to a number.
#[verifier::external_body]
fn status_of(error: &lettre::transport::smtp::Error) -> (code: Option<u16>)
    ensures
        code == failure_code(*error),
{
    error.status().map(|code| code.into())
}

/// Why a mail was not sent.
#[derive(Debug)]
pub enum SendError {
    /// The page could not be rendered.
    FailedTemplate(EngineError),
    /// The relay, or the way to it, failed; holds the code with which the
    /// relay refused, where it did, and the transport's words.
    SmtpError { code: Option<u16>, words: String },
    /// An address of the request is not one; holds the mail library's
    /// words.
    AddressError(String),
    /// The mail library refused to close the message over its headers;
    /// holds its words.
    Envelope(String),
}

/// What a [`SendError`] holds, as plain text.
pub enum SendFault {
    FailedTemplate(EngineFault),
    SmtpError { code: Option<u16>, words: Seq<char> },
    AddressError(Seq<char>),
    Envelope(Seq<char>),
}

impl View for SendError {
    type V = SendFault;

    open spec fn view(&self) -> SendFault {
        match self {
            SendError::FailedTemplate(inner) => SendFault::FailedTemplate(inner@),
            SendError::SmtpError { code, words } => SendFault::SmtpError {
                code: *code,
                words: words@,
            },
            SendError::AddressError(words) => SendFault::AddressError(words@),
            SendError::Envelope(words) => SendFault::Envelope(words@),
        }
    }
}

impl SendFault {
    /// The sentence that describes the fault.
    pub open spec fn text(self) -> Seq<char> {
        match self {
            SendFault::FailedTemplate(inner) => "Failed to render template: "@ + inner.text(),
            SendFault::SmtpError { words, .. } => "Failed to send mail: "@ + words,
            SendFault::AddressError(words) => "Bad email address: "@ + words,
            SendFault::Envelope(words) => "Failed to build email: "@ + words,
        }
    }

    /// The HTTP status under which the fault is reported: that of the
    /// render fault where there is one, an internal error otherwise.
    pub open spec fn status(self) -> u16 {
        match self {
            SendFault::FailedTemplate(inner) => inner.status(),
            _ => 500,
        }
    }

    /// The body under which the fault is reported: the sentence of the
    /// render fault where there is one, the fault's own otherwise.
    pub open spec fn body(self) -> Seq<char> {
        match self {
            SendFault::FailedTemplate(inner) => inner.text(),
            _ => self.text(),
        }
    }
}

impl SendError {
    /// The sentence that describes the error.
    pub fn message(&self) -> (text: String)
        ensures
            text@ == self@.text(),
    {
        match self {
            SendError::FailedTemplate(inner) => {
                let mut text = "Failed to render template: ".to_owned();
                text.append(inner.message().as_str());
                text
            },
            SendError::SmtpError { words, .. } => {
                let mut text = "Failed to send mail: ".to_owned();
                text.append(words.as_str());
                text
            },
            SendError::AddressError(words) => {
                let mut text = "Bad email address: ".to_owned();
                text.append(words.as_str());
                text
            },
            SendError::Envelope(words) => {
                let mut text = "Failed to build email: ".to_owned();
                text.append(words.as_str());
                text
            },
        }
    }

    /// The HTTP status under which the error is reported.
    pub fn status(&self) -> (code: u16)
        ensures
            code == self@.status(),
    {
        match self {
            SendError::FailedTemplate(inner) => inner.status(),
            _ => 500,
        }
    }

    /// The body under which the error is reported.
    pub fn body(&self) -> (text: String)
        ensures
            text@ == self@.body(),
    {
        match self {
            SendError::FailedTemplate(inner) => inner.message(),
            _ => self.message(),
        }
    }

    /// A failure of the transport, with the code of the relay's refusal
    /// where there was one and told in the given words, as an error of the
    /// sender.
    pub fn undelivered(code: Option<u16>, words: String) -> (e: SendError)
        ensures
            e@ == (SendFault::SmtpError { code, words: words@ }),
    {
        SendError::SmtpError { code, words }
    }

    /// The failure of the transport as an error of the sender: an SMTP
    /// error with the code of the relay's refusal, where the relay
    /// refused, and the transport's words.
    pub fn from_transport(error: &lettre::transport::smtp::Error) -> (e: SendError)
        ensures
            e@ matches SendFault::SmtpError { code, .. } && code == failure_code(*error),
    {
        SendError::undelivered(status_of(error), transport_words(error))
    }
}

/// All the data needed to send a single email based on a template.
#[derive(Debug)]
pub struct SendTemplateItem {
    /// Template to send.
    pub template_id: String,
    /// The address the email is from.
    pub from: String,
    /// The address ultimately sending the email. Not set where it is the
    /// same as the from address.
    pub sender: Option<String>,
    /// Address to send mail to.
    pub to: String,
    /// Reply-To email header.
    pub reply_to: Option<String>,
    /// Language to render the template with.
    pub lang: Option<String>,
    /// Data to pass to the template.
    pub params: serde_json::Value,
    /// A unique identifier for the email.
    pub message_id: Option<String>,
    /// The unique identifiers of the emails to which this is replying.
    pub in_reply_to: Vec<String>,
    /// The unique identifiers of the emails that this email references.
    pub references: Vec<String>,
}

/// All the data needed to send a single email given as MJML text.
#[derive(Debug)]
pub struct SendMjmlItem {
    /// The MJML body to render and send.
    pub mjml_text: String,
    /// The address the email is from.
    pub from: String,
    /// The address ultimately sending the email. Not set where it is the
    /// same as the from address.
    pub sender: Option<String>,
    /// Address to send mail to.
    pub to: String,
    /// Reply-To email header.
    pub reply_to: Option<String>,
    /// A unique identifier for the email.
    pub message_id: Option<String>,
    /// The unique identifiers of the emails to which this is replying.
    pub in_reply_to: Vec<String>,
    /// The unique identifiers of the emails that this email references.
    pub references: Vec<String>,
}

/// What a request says of the message apart from its content.
#[derive(Debug)]
pub struct MailHeaders {
    pub from: String,
    pub sender: Option<String>,
    pub to: String,
    pub reply_to: Option<String>,
    pub message_id: Option<String>,
    pub in_reply_to: Vec<String>,
    pub references: Vec<String>,
}

impl MailHeaders {
    /// The words with which the first address that is no address is
    /// rejected. The addresses are looked at in the order from, to, sender,
    /// reply-to; the last two only where they are given.
    pub open spec fn first_fault(&self) -> Option<Seq<char>> {
        if address_fault(self.from@) is Some {
            address_fault(self.from@)
        } else if address_fault(self.to@) is Some {
            address_fault(self.to@)
        } else if self.sender is Some && address_fault(self.sender->0@) is Some {
            address_fault(self.sender->0@)
        } else if self.reply_to is Some && address_fault(self.reply_to->0@) is Some {
            address_fault(self.reply_to->0@)
        } else {
            None
        }
    }
}

/// The identifiers of a threading header in one line, or nothing where
/// there is none.
pub open spec fn thread_line(ids: Seq<Seq<char>>) -> Option<Seq<char>> {
    if ids.len() == 0 {
        None
    } else {
        Some(spaced(ids))
    }
}

/// A message whose addresses have been accepted, before it is handed to the
/// mail library: two renditions of one page, and the headers that go with
/// them.
#[derive(Debug)]
pub struct Draft {
    pub from: lettre::message::Mailbox,
    pub to: lettre::message::Mailbox,
    pub sender: Option<lettre::message::Mailbox>,
    pub reply_to: Option<lettre::message::Mailbox>,
    pub subject: Option<String>,
    pub message_id: Option<String>,
    pub in_reply_to: Option<String>,
    pub references: Option<String>,
    pub text: String,
    pub html: String,
}

impl Draft {
    /// Every address of the draft can be written into a header.
    pub open spec fn wf(&self) -> bool {
        &&& writable(self.from)
        &&& writable(self.to)
        &&& self.sender matches Some(mbox) ==> writable(mbox)
        &&& self.reply_to matches Some(mbox) ==> writable(mbox)
    }
}

/// The text of a mailbox that may be there.
pub open spec fn optional_mailbox(mbox: Option<lettre::message::Mailbox>) -> Option<Seq<char>> {
    match mbox {
        None => None,
        Some(mbox) => Some(mailbox_text(mbox)),
    }
}

/// The text of the mailbox made of an address that may be given.
pub open spec fn optional_address(src: Option<String>) -> Option<Seq<char>> {
    match src {
        None => None,
        Some(src) => Some(parsed_address(src@)),
    }
}

/// What a [`Draft`] says: its addresses as the mail library writes them,
/// its other headers, and its two renditions.
pub struct DraftView {
    pub from: Seq<char>,
    pub to: Seq<char>,
    pub sender: Option<Seq<char>>,
    pub reply_to: Option<Seq<char>>,
    pub subject: Option<Seq<char>>,
    pub message_id: Option<Seq<char>>,
    pub in_reply_to: Option<Seq<char>>,
    pub references: Option<Seq<char>>,
    pub text: Seq<char>,
    pub html: Seq<char>,
}

impl View for Draft {
    type V = DraftView;

    open spec fn view(&self) -> DraftView {
        DraftView {
            from: mailbox_text(self.from),
            to: mailbox_text(self.to),
            sender: optional_mailbox(self.sender),
            reply_to: optional_mailbox(self.reply_to),
            subject: optional_text(self.subject),
            message_id: optional_text(self.message_id),
            in_reply_to: optional_text(self.in_reply_to),
            references: optional_text(self.references),
            text: self.text@,
            html: self.html@,
        }
    }
}

/// What the draft for a page and the headers of a request says: each
/// address as the mail library makes it of the request's text, the page in
/// both renditions, the title as subject, the message identifier as given,
/// and each threading header with all its identifiers in the order given,
/// separated by one space.
pub open spec fn drafted(
    headers: MailHeaders,
    html: Seq<char>,
    title: Option<Seq<char>>,
    text: Seq<char>,
) -> DraftView {
    DraftView {
        from: parsed_address(headers.from@),
        to: parsed_address(headers.to@),
        sender: optional_address(headers.sender),
        reply_to: optional_address(headers.reply_to),
        subject: title,
        message_id: optional_text(headers.message_id),
        in_reply_to: thread_line(texts(headers.in_reply_to@)),
        references: thread_line(texts(headers.references@)),
        text,
        html,
    }
}

fn thread_header(ids: &Vec<String>) -> (line: Option<String>)
    ensures
        optional_text(line) == thread_line(texts(ids@)),
{
    if ids.len() == 0 {
        None
    } else {
        Some(join_spaced(ids))
    }
}

/// Puts a rendered page and the headers of a request together. The
/// addresses are validated in the order from, to, sender, reply-to, and the
/// first that is rejected ends the attempt with the mail library's words.
/// Otherwise the draft says what [`drafted`] says.
pub fn draft(
    headers: MailHeaders,
    html: String,
    title: Option<String>,
    text: String,
) -> (r: Result<Draft, SendError>)
    ensures
        headers.first_fault() matches Some(words) ==> (r matches Err(e) && e@
            == SendFault::AddressError(words)),
        headers.first_fault() is None ==> (r matches Ok(made) && made@ == drafted(
            headers,
            html@,
            optional_text(title),
            text@,
        )),
        r matches Ok(made) ==> made.wf(),
{
    let from = match parse_mailbox(headers.from.as_str()) {
        Ok(mbox) => mbox,
        Err(words) => {
            return Err(SendError::AddressError(words));
        },
    };
    let to = match parse_mailbox(headers.to.as_str()) {
        Ok(mbox) => mbox,
        Err(words) => {
            return Err(SendError::AddressError(words));
        },
    };
    let sender = match &headers.sender {
        None => None,
        Some(src) => match parse_mailbox(src.as_str()) {
            Ok(mbox) => Some(mbox),
            Err(words) => {
                return Err(SendError::AddressError(words));
            },
        },
    };
    let reply_to = match &headers.reply_to {
        None => None,
        Some(src) => match parse_mailbox(src.as_str()) {
            Ok(mbox) => Some(mbox),
            Err(words) => {
                return Err(SendError::AddressError(words));
            },
        },
    };
    let in_reply_to = thread_header(&headers.in_reply_to);
    let references = thread_header(&headers.references);
    Ok(
        Draft {
            from,
            to,
            sender,
            reply_to,
            subject: title,
            message_id: headers.message_id,
            in_reply_to,
            references,
            text,
            html,
        },
    )
}

fn subject_opt(builder: lettre::message::MessageBuilder, subject: Option<String>) -> (next:
    lettre::message::MessageBuilder)
    ensures
        builder_fields(next) == with_field(
            builder_fields(builder),
            Field::Subject,
            optional_text(subject),
        ),
{
    if let Some(subject) = subject {
        with_subject(builder, subject)
    } else {
        builder
    }
}

/// The headers with `field` set to `value`, where there is one.
pub open spec fn with_field(
    fields: Map<Field, Seq<char>>,
    field: Field,
    value: Option<Seq<char>>,
) -> Map<Field, Seq<char>> {
    match value {
        Some(text) => fields.insert(field, text),
        None => fields,
    }
}

/// The value of `field` among the headers, where it is present.
pub open spec fn field_of(fields: Map<Field, Seq<char>>, field: Field) -> Option<Seq<char>> {
    if fields.contains_key(field) {
        Some(fields[field])
    } else {
        None
    }
}

/// Whether the headers are those that a draft asks for: the two addresses
/// that every message has; a sender and a reply-to address exactly where
/// the draft has them, each reading as the draft's does; the subject and
/// the threading headers exactly where the draft has them, with the
/// draft's text; and a message identifier in any case, the draft's own
/// where it has one.
pub open spec fn carried(fields: Map<Field, Seq<char>>, draft: DraftView) -> bool {
    &&& field_of(fields, Field::From) == Some(draft.from)
    &&& field_of(fields, Field::To) == Some(draft.to)
    &&& field_of(fields, Field::Sender) == draft.sender
    &&& field_of(fields, Field::ReplyTo) == draft.reply_to
    &&& field_of(fields, Field::Subject) == draft.subject
    &&& fields.contains_key(Field::MessageId)
    &&& draft.message_id matches Some(id) ==> fields[Field::MessageId] == id
    &&& field_of(fields, Field::InReplyTo) == draft.in_reply_to
    &&& field_of(fields, Field::References) == draft.references
}

/// What handing a draft to the mail library comes to. The library is
/// handed a builder with the headers that the draft asks for. Where it
/// refuses them, its words come back as an envelope error. Otherwise there
/// is a message, which has those headers and the two parts of the draft,
/// the plain text first.
pub open spec fn assembled(draft: DraftView, r: Result<lettre::Message, SendError>) -> bool {
    exists|builder: lettre::message::MessageBuilder|
        #![trigger closing_fault(builder)]
        carried(builder_fields(builder), draft) && match closing_fault(builder) {
            Some(words) => r matches Err(e) && e@ == SendFault::Envelope(words),
            None => r matches Ok(message) && carried(message_fields(message), draft)
                && message_parts(message) == two_parts(draft.text, draft.html),
        }
}

/// The threading headers of a request reach the message unchanged: a
/// message that carries what the draft for the request asks for has the
/// message identifier of the request, where it names one, and each
/// threading header with exactly the identifiers of the request, in their
/// order, or not at all where the request names none.
pub proof fn lemma_threading_headers_round_trip(
    fields: Map<Field, Seq<char>>,
    headers: MailHeaders,
    html: Seq<char>,
    title: Option<Seq<char>>,
    text: Seq<char>,
)
    requires
        carried(fields, drafted(headers, html, title, text)),
    ensures
        headers.message_id matches Some(id) ==> field_of(fields, Field::MessageId) == Some(id@),
        headers.in_reply_to@.len() > 0 ==> field_of(fields, Field::InReplyTo) == Some(
            spaced(texts(headers.in_reply_to@)),
        ),
        headers.in_reply_to@.len() == 0 ==> !fields.contains_key(Field::InReplyTo),
        headers.references@.len() > 0 ==> field_of(fields, Field::References) == Some(
            spaced(texts(headers.references@)),
        ),
        headers.references@.len() == 0 ==> !fields.contains_key(Field::References),
        field_of(fields, Field::Subject) == title,
{
}

/// Headers that agree once one of them is set aside agree on every other
/// one.
proof fn lemma_others_kept(before: Map<Field, Seq<char>>, after: Map<Field, Seq<char>>, field: Field)
    requires
        after.remove(field) == before.remove(field),
    ensures
        forall|other: Field|
            other != field ==> #[trigger] after.contains_key(other) == before.contains_key(other),
        forall|other: Field| other != field ==> #[trigger] after[other] == before[other],
{
    assert forall|other: Field| other != field implies #[trigger] after.contains_key(other)
        == before.contains_key(other) by {
        assert(after.remove(field).dom() == after.dom().remove(field));
        assert(before.remove(field).dom() == before.dom().remove(field));
        assert(after.dom().remove(field).contains(other) == after.dom().contains(other));
        assert(before.dom().remove(field).contains(other) == before.dom().contains(other));
    }
    assert forall|other: Field| other != field implies #[trigger] after[other]
        == before[other] by {
        assert(after.remove(field)[other] == after[other]);
        assert(before.remove(field)[other] == before[other]);
    }
}

/// Hands a draft to the mail library: a message of two alternative parts,
/// the plain text first, under the draft's headers: see [`assembled`]. The
/// addresses of the draft are such as the mail library can write, as
/// those of every draft that [`draft`] makes are.
pub fn assemble(draft: Draft) -> (r: Result<lettre::Message, SendError>)
    requires
        draft.wf(),
    ensures
        assembled(draft@, r),
{
    let empty = lettre::Message::builder();
    let from = empty.from(draft.from);
    let to = from.to(draft.to);
    let titled = subject_opt(to, draft.subject);
    let named = titled.message_id(draft.message_id);
    proof {
        lemma_others_kept(builder_fields(empty), builder_fields(from), Field::From);
        lemma_others_kept(builder_fields(from), builder_fields(to), Field::To);
        lemma_others_kept(builder_fields(titled), builder_fields(named), Field::MessageId);
    }
    let sent = match draft.sender {
        Some(sender) => {
            let sent = named.sender(sender);
            proof {
                lemma_others_kept(builder_fields(named), builder_fields(sent), Field::Sender);
            }
            sent
        },
        None => named,
    };
    let answered = match draft.reply_to {
        Some(reply_to) => {
            let answered = sent.reply_to(reply_to);
            proof {
                lemma_others_kept(builder_fields(sent), builder_fields(answered), Field::ReplyTo);
            }
            answered
        },
        None => sent,
    };
    let replying = match draft.in_reply_to {
        Some(ids) => answered.in_reply_to(ids),
        None => answered,
    };
    let threaded = match draft.references {
        Some(ids) => replying.references(ids),
        None => replying,
    };
    assert(carried(builder_fields(threaded), draft@));
    assert(closable(builder_fields(threaded))) by {
        assert(builder_fields(threaded)[Field::From] == mailbox_text(draft.from));
    }
    let r = match close_message(threaded, two_part_body(draft.text, draft.html)) {
        Ok(message) => Ok(message),
        Err(words) => Err(SendError::Envelope(words)),
    };
    assert(assembled(draft@, r)) by {
        assert(closing_fault(threaded) is Some || closing_fault(threaded) is None);
    }
    r
}

impl SendTemplateItem {
    /// What the request says of the message apart from its content.
    pub open spec fn headers(&self) -> MailHeaders {
        MailHeaders {
            from: self.from,
            sender: self.sender,
            to: self.to,
            reply_to: self.reply_to,
            message_id: self.message_id,
            in_reply_to: self.in_reply_to,
            references: self.references,
        }
    }
}

impl SendMjmlItem {
    /// What the request says of the message apart from its content.
    pub open spec fn headers(&self) -> MailHeaders {
        MailHeaders {
            from: self.from,
            sender: self.sender,
            to: self.to,
            reply_to: self.reply_to,
            message_id: self.message_id,
            in_reply_to: self.in_reply_to,
            references: self.references,
        }
    }
}

/// How the outcome of rendering a page shows in the outcome of composing
/// the message for it. A page that was not rendered is reported as a failed
/// template. A page that the converter cannot turn into text is reported as
/// a failed text conversion. Then the first address that is rejected is
/// reported. Where none is, the draft for the page is handed to the mail
/// library: see [`assembled`].
pub open spec fn composed_from(
    page: Result<(String, Option<String>), EngineError>,
    headers: MailHeaders,
    r: Result<lettre::Message, SendError>,
) -> bool {
    match page {
        Err(fault) => r matches Err(e) && e@ == SendFault::FailedTemplate(fault@),
        Ok(rendered) => match page_text(rendered.0@) {
            Err(words) => r matches Err(e) && e@ == SendFault::FailedTemplate(
                EngineFault::FailedTextConversion(words),
            ),
            Ok(text) => match headers.first_fault() {
                Some(words) => r matches Err(e) && e@ == SendFault::AddressError(words),
                None => assembled(
                    drafted(headers, rendered.0@, optional_text(rendered.1), text),
                    r,
                ),
            },
        },
    }
}

/// An address error is reported of a rejected address and of nothing
/// else: composing ends in one exactly when the page was rendered and
/// converted and one of the addresses of the request is rejected, and it
/// then holds the words of the first rejection.
pub proof fn lemma_address_error_means_rejected_address(
    page: Result<(String, Option<String>), EngineError>,
    headers: MailHeaders,
    r: Result<lettre::Message, SendError>,
)
    requires
        composed_from(page, headers, r),
    ensures
        (r matches Err(e) && e@ is AddressError) <==> (page matches Ok(rendered) && page_text(
            rendered.0@,
        ) is Ok && headers.first_fault() is Some),
        (r matches Err(e) && e@ is AddressError) ==> r->Err_0@ == SendFault::AddressError(
            headers.first_fault()->0,
        ),
{
}

/// Messages composed for the same page under the same headers have the
/// same parts, the same subject and the same addresses, whatever else the
/// mail library put into them.
pub proof fn lemma_same_page_same_parts(
    first_page: Result<(String, Option<String>), EngineError>,
    second_page: Result<(String, Option<String>), EngineError>,
    headers: MailHeaders,
    first: lettre::Message,
    second: lettre::Message,
)
    requires
        page_outcome(first_page) == page_outcome(second_page),
        composed_from(first_page, headers, Ok(first)),
        composed_from(second_page, headers, Ok(second)),
    ensures
        message_parts(first) == message_parts(second),
        field_of(message_fields(first), Field::Subject) == field_of(
            message_fields(second),
            Field::Subject,
        ),
        field_of(message_fields(first), Field::From) == field_of(
            message_fields(second),
            Field::From,
        ),
        field_of(message_fields(first), Field::To) == field_of(message_fields(second), Field::To),
{
}

/// Composes the message for a page that the render pipeline has produced,
/// or reports why there is none: see [`composed_from`].
pub fn send_rendered(
    page: Result<(String, Option<String>), EngineError>,
    headers: MailHeaders,
) -> (r: Result<lettre::Message, SendError>)
    ensures
        composed_from(page, headers, r),
{
    match page {
        Err(fault) => Err(SendError::FailedTemplate(fault)),
        Ok((html, title)) => {
            match render_text(html.as_str()) {
                Err(fault) => Err(SendError::FailedTemplate(fault)),
                Ok(text) => {
                    match draft(headers, html, title, text) {
                        Err(fault) => Err(fault),
                        Ok(made) => assemble(made),
                    }
                },
            }
        },
    }
}

/// Composes the message for a request that names a template: resolves the
/// locale, renders the template, converts the page to text, validates the
/// addresses and builds a message of two alternative parts. `build` is the
/// table of templates, as in [`render_template`]. The message is not sent:
/// the caller hands it to the transport. Every failure concerns this
/// request alone and is reported in the order of the steps: first what the
/// render pipeline says of the request, see [`localized_for`], then what
/// becomes of its page, see [`composed_from`].
pub fn send_mail_template<F>(item: SendTemplateItem, locales: &Locales, build: F) -> (r: Result<
    lettre::Message,
    SendError,
>) where F: FnOnce(Template, serde_json::Value, Locale) -> Result<mrml::mjml::Mjml, TemplateError>
    requires
        locales.wf(),
        table_renders(build),
        forall|template: Template, lang: Locale|
            call_requires(build, (template, item.params, lang)),
    ensures
        exists|page: Result<(String, Option<String>), EngineError>|
            #![trigger composed_from(page, item.headers(), r)]
            localized_for(
                build,
                *locales,
                item.template_id@,
                item.params,
                optional_text(item.lang),
                page,
            ) && composed_from(page, item.headers(), r),
{
    let ghost given = item;
    let SendTemplateItem {
        template_id,
        from,
        sender,
        to,
        reply_to,
        lang,
        params,
        message_id,
        in_reply_to,
        references,
    } = item;
    let headers = MailHeaders { from, sender, to, reply_to, message_id, in_reply_to, references };
    let page = render_localized(template_id, params, lang, locales, build);
    let r = send_rendered(page, headers);
    assert(localized_for(
        build,
        *locales,
        given.template_id@,
        given.params,
        optional_text(given.lang),
        page,
    ) && composed_from(page, given.headers(), r));
    r
}

/// Composes the message for a request that brings its own MJML text:
/// renders the text, converts the page to text, validates the addresses
/// and builds a message of two alternative parts. The message is not sent:
/// the caller hands it to the transport. What comes of rendering the text
/// is what [`mjml_rendered`] says, and what becomes of the page is what
/// [`composed_from`] says.
pub fn send_mail_mjml(item: SendMjmlItem) -> (r: Result<lettre::Message, SendError>)
    requires
        text_renders(item.mjml_text@),
    ensures
        exists|page: Result<(String, Option<String>), EngineError>|
            #![trigger composed_from(page, item.headers(), r)]
            mjml_rendered(item.mjml_text@, page) && composed_from(page, item.headers(), r),
{
    let ghost given = item;
    let SendMjmlItem {
        mjml_text,
        from,
        sender,
        to,
        reply_to,
        message_id,
        in_reply_to,
        references,
    } = item;
    let headers = MailHeaders { from, sender, to, reply_to, message_id, in_reply_to, references };
    let page = render_mjml(mjml_text);
    let r = send_rendered(page, headers);
    assert(mjml_rendered(given.mjml_text@, page) && composed_from(page, given.headers(), r));
    r
}

/// The outcome of one request as the service reports it.
#[derive(Debug)]
pub enum SendResponse {
    /// The relay answered; holds the code of its reply and the lines of its
    /// message, each closed by a line feed.
    Success { code: u16, message: String },
    /// The request failed; holds the sentence that says why.
    Error { message: String },
}

/// What a [`SendResponse`] holds, as plain text.
pub enum Report {
    Success { code: u16, message: Seq<char> },
    Error { message: Seq<char> },
}

impl View for SendResponse {
    type V = Report;

    open spec fn view(&self) -> Report {
        match self {
            SendResponse::Success { code, message } => Report::Success {
                code: *code,
                message: message@,
            },
            SendResponse::Error { message } => Report::Error { message: message@ },
        }
    }
}

impl Clone for SendResponse {
    fn clone(&self) -> (copy: SendResponse)
        ensures
            copy@ == self@,
    {
        match self {
            SendResponse::Success { code, message } => SendResponse::Success {
                code: *code,
                message: message.clone(),
            },
            SendResponse::Error { message } => SendResponse::Error { message: message.clone() },
        }
    }
}

/// What is reported of a reply of the relay: its code, and its lines, each
/// closed by a line feed.
pub open spec fn reply_report(reply: lettre::transport::smtp::response::Response) -> Report {
    Report::Success { code: reply_code(reply), message: lines_text(reply_lines(reply)) }
}

/// What is reported of the outcome of one request in a batch: the reply of
/// the relay, or the sentence of the error.
pub open spec fn outcome_report(
    outcome: Result<lettre::transport::smtp::response::Response, SendError>,
) -> Report {
    match outcome {
        Ok(reply) => reply_report(reply),
        Err(fault) => Report::Error { message: fault@.text() },
    }
}

/// The HTTP status under which a reply of the relay is passed on: 200 for
/// a positive reply, whose code begins with 2 or 3, and 500 otherwise.
pub open spec fn reply_status(reply: lettre::transport::smtp::response::Response) -> u16 {
    if 200 <= reply_code(reply) < 400 {
        200
    } else {
        500
    }
}

impl SendResponse {
    /// The report of a reply with the given code and lines.
    pub fn success(code: u16, lines: &Vec<String>) -> (response: SendResponse)
        ensures
            response@ == (Report::Success { code, message: lines_text(texts(lines@)) }),
    {
        SendResponse::Success { code, message: join_lines(lines) }
    }

    /// The report of a reply of the relay.
    pub fn from_reply(reply: &lettre::transport::smtp::response::Response) -> (response:
        SendResponse)
        ensures
            response@ == reply_report(*reply),
    {
        let lines = lines_of(reply);
        SendResponse::success(code_of(reply), &lines)
    }

    /// The report of a failed request.
    pub fn failure(error: &SendError) -> (response: SendResponse)
        ensures
            response@ == (Report::Error { message: error@.text() }),
    {
        SendResponse::Error { message: error.message() }
    }

    /// The report of the outcome of one request in a batch. A failure is
    /// kept as a report of its own: it is not handed on as an error.
    pub fn report(outcome: &Result<lettre::transport::smtp::response::Response, SendError>) -> (response:
        SendResponse)
        ensures
            response@ == outcome_report(*outcome),
    {
        match outcome {
            Ok(reply) => SendResponse::from_reply(reply),
            Err(fault) => SendResponse::failure(fault),
        }
    }
}

/// What the transport returned, as an outcome of the sender: the reply, or
/// the transport's failure as an SMTP error.
pub fn delivered(
    sent: Result<lettre::transport::smtp::response::Response, lettre::transport::smtp::Error>,
) -> (outcome: Result<lettre::transport::smtp::response::Response, SendError>)
    ensures
        sent matches Ok(reply) ==> outcome == Ok::<
            lettre::transport::smtp::response::Response,
            SendError,
        >(reply),
        sent matches Err(fault) ==> (outcome matches Err(e) && (e@ matches SendFault::SmtpError {
            code,
            ..
        } && code == failure_code(fault))),
{
    match sent {
        Ok(reply) => Ok(reply),
        Err(fault) => Err(SendError::from_transport(&fault)),
    }
}

/// What the service answers to a request for a single mail, given the
/// outcome of sending it. A reply of the relay is passed on with its code
/// and message, under status 200 when it is positive and 500 when it is
/// not. A failure is handed on as the error it is.
pub fn send_mail_route(
    outcome: Result<lettre::transport::smtp::response::Response, SendError>,
) -> (r: Result<(u16, SendResponse), SendError>)
    ensures
        match outcome {
            Ok(reply) => r matches Ok(answer) && answer.0 == reply_status(reply) && answer.1@
                == reply_report(reply),
            Err(fault) => r matches Err(e) && e == fault,
        },
{
    match outcome {
        Ok(reply) => {
            let status: u16 = if is_positive(&reply) {
                200
            } else {
                500
            };
            Ok((status, SendResponse::from_reply(&reply)))
        },
        Err(fault) => Err(fault),
    }
}

/// What the service answers to a request for a single mail given as MJML
/// text: the same as for one that names a template.
pub fn send_mail_mjml_route(
    outcome: Result<lettre::transport::smtp::response::Response, SendError>,
) -> (r: Result<(u16, SendResponse), SendError>)
    ensures
        match outcome {
            Ok(reply) => r matches Ok(answer) && answer.0 == reply_status(reply) && answer.1@
                == reply_report(reply),
            Err(fault) => r matches Err(e) && e == fault,
        },
{
    send_mail_route(outcome)
}

} // verus!
