use mb_mail_service::templates::get;
use mb_mail_service::templates::Template;
use mb_mail_service::templates::TemplateError;

#[test]
fn every_template_is_found_under_its_identifier() {
    assert_eq!(get("basic"), Some(Template::Basic));
    assert_eq!(get("subscription"), Some(Template::Subscription));
    assert_eq!(get("edit-note"), Some(Template::EditNote));
    assert_eq!(get("editor-message"), Some(Template::EditorMessage));
    assert_eq!(get("verify-email"), Some(Template::VerifyEmail));
    assert_eq!(get("email-in-use"), Some(Template::EmailInUse));
    assert_eq!(get("reset-password"), Some(Template::ResetPassword));
    assert_eq!(get("lost-username"), Some(Template::LostUsername));
    assert_eq!(get("no-vote"), Some(Template::NoVote));
    assert_eq!(get("editor-report"), Some(Template::EditorReport));
}

#[test]
fn unknown_identifiers_name_no_template() {
    assert_eq!(get("does-not-exist"), None);
    assert_eq!(get(""), None);
    assert_eq!(get("Basic"), None);
    assert_eq!(get("basic "), None);
    assert_eq!(get("edit_note"), None);
    assert_eq!(get("personal-recommendation"), None);
}

#[test]
fn identifier_of_a_template_leads_back_to_it() {
    let all = [
        Template::Basic,
        Template::Subscription,
        Template::EditNote,
        Template::EditorMessage,
        Template::VerifyEmail,
        Template::EmailInUse,
        Template::ResetPassword,
        Template::LostUsername,
        Template::NoVote,
        Template::EditorReport,
    ];
    for template in all {
        assert_eq!(get(template.id()), Some(template));
    }
}

#[test]
fn template_error_says_that_the_parameters_did_not_parse() {
    let error = TemplateError::SerdeJson("missing field `to_name`".to_string());
    assert_eq!(error.message(), "Failed to parse parameters: missing field `to_name`");
}
