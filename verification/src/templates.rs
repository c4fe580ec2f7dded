//! The templates that the service knows, and the identifiers under which
//! requests name them.

use vstd::prelude::*;
use vstd::string::StringExecFns;

verus! {

/// One of the mail templates of the service.
#[derive(Clone, Copy, Debug, PartialEq, Eq, Structural)]
pub enum Template {
    Basic,
    Subscription,
    EditNote,
    EditorMessage,
    VerifyEmail,
    EmailInUse,
    ResetPassword,
    LostUsername,
    NoVote,
    EditorReport,
}

/// Why a template could not be built from the parameters it was given.
#[derive(Debug)]
pub enum TemplateError {
    /// The parameters do not have the shape that the template expects; the
    /// text says where they differ.
    SerdeJson(String),
}

/// What a [`TemplateError`] holds, as plain text.
pub enum TemplateFault {
    SerdeJson(Seq<char>),
}

impl View for TemplateError {
    type V = TemplateFault;

    open spec fn view(&self) -> TemplateFault {
        match self {
            TemplateError::SerdeJson(detail) => TemplateFault::SerdeJson(detail@),
        }
    }
}

impl TemplateFault {
    /// The sentence that describes the fault.
    pub open spec fn text(self) -> Seq<char> {
        match self {
            TemplateFault::SerdeJson(detail) => "Failed to parse parameters: "@ + detail,
        }
    }
}

impl TemplateError {
    /// The sentence that describes the error.
    pub fn message(&self) -> (text: String)
        ensures
            text@ == self@.text(),
    {
        match self {
            TemplateError::SerdeJson(detail) => {
                let mut text = "Failed to parse parameters: ".to_owned();
                text.append(detail.as_str());
                text
            },
        }
    }
}

impl Template {
    /// The identifier under which requests name this template.
    pub open spec fn name(self) -> Seq<char> {
        match self {
            Template::Basic => "basic"@,
            Template::Subscription => "subscription"@,
            Template::EditNote => "edit-note"@,
            Template::EditorMessage => "editor-message"@,
            Template::VerifyEmail => "verify-email"@,
            Template::EmailInUse => "email-in-use"@,
            Template::ResetPassword => "reset-password"@,
            Template::LostUsername => "lost-username"@,
            Template::NoVote => "no-vote"@,
            Template::EditorReport => "editor-report"@,
        }
    }

    /// The identifier under which requests name this template.
    pub fn id(self) -> (id: &'static str)
        ensures
            id@ == self.name(),
    {
        match self {
            Template::Basic => "basic",
            Template::Subscription => "subscription",
            Template::EditNote => "edit-note",
            Template::EditorMessage => "editor-message",
            Template::VerifyEmail => "verify-email",
            Template::EmailInUse => "email-in-use",
            Template::ResetPassword => "reset-password",
            Template::LostUsername => "lost-username",
            Template::NoVote => "no-vote",
            Template::EditorReport => "editor-report",
        }
    }
}

/// The template that the identifier `id` names, if it names one. Identifiers
/// are matched letter for letter.
pub open spec fn template_named(id: Seq<char>) -> Option<Template> {
    if id == "basic"@ {
        Some(Template::Basic)
    } else if id == "subscription"@ {
        Some(Template::Subscription)
    } else if id == "edit-note"@ {
        Some(Template::EditNote)
    } else if id == "editor-message"@ {
        Some(Template::EditorMessage)
    } else if id == "verify-email"@ {
        Some(Template::VerifyEmail)
    } else if id == "email-in-use"@ {
        Some(Template::EmailInUse)
    } else if id == "reset-password"@ {
        Some(Template::ResetPassword)
    } else if id == "lost-username"@ {
        Some(Template::LostUsername)
    } else if id == "no-vote"@ {
        Some(Template::NoVote)
    } else if id == "editor-report"@ {
        Some(Template::EditorReport)
    } else {
        None
    }
}

/// Looks a template up by its identifier. An identifier that names no
/// template gives `None`; nothing else is consulted.
pub fn get(template_id: &str) -> (found: Option<Template>)
    ensures
        found == template_named(template_id@),
{
    if template_id.eq("basic") {
        Some(Template::Basic)
    } else if template_id.eq("subscription") {
        Some(Template::Subscription)
    } else if template_id.eq("edit-note") {
        Some(Template::EditNote)
    } else if template_id.eq("editor-message") {
        Some(Template::EditorMessage)
    } else if template_id.eq("verify-email") {
        Some(Template::VerifyEmail)
    } else if template_id.eq("email-in-use") {
        Some(Template::EmailInUse)
    } else if template_id.eq("reset-password") {
        Some(Template::ResetPassword)
    } else if template_id.eq("lost-username") {
        Some(Template::LostUsername)
    } else if template_id.eq("no-vote") {
        Some(Template::NoVote)
    } else if template_id.eq("editor-report") {
        Some(Template::EditorReport)
    } else {
        None
    }
}

/// Every template is found again under its own identifier: no two templates
/// share one, and none is shadowed by another.
pub proof fn lemma_template_found_by_its_name(template: Template)
    ensures
        template_named(template.name()) == Some(template),
{
    reveal_strlit("basic");
    reveal_strlit("subscription");
    reveal_strlit("edit-note");
    reveal_strlit("editor-message");
    reveal_strlit("verify-email");
    reveal_strlit("email-in-use");
    reveal_strlit("reset-password");
    reveal_strlit("lost-username");
    reveal_strlit("no-vote");
    reveal_strlit("editor-report");
    assert("basic"@[0] == 'b');
    assert("subscription"@[0] == 's');
    assert("edit-note"@[0] == 'e' && "edit-note"@.len() == 9);
    assert("editor-message"@[0] == 'e' && "editor-message"@.len() == 14);
    assert("verify-email"@[0] == 'v');
    assert("email-in-use"@[0] == 'e' && "email-in-use"@.len() == 12);
    assert("reset-password"@[0] == 'r');
    assert("lost-username"@[0] == 'l');
    assert("no-vote"@[0] == 'n');
    assert("editor-report"@[0] == 'e' && "editor-report"@.len() == 13);
}

/// An identifier resolves to a template only if it is that template's own.
pub proof fn lemma_template_name_of_found(id: Seq<char>)
    ensures
        template_named(id) matches Some(template) ==> template.name() == id,
{
}

} // verus!
