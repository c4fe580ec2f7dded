use mb_mail_service::locale::Locale;
use mb_mail_service::render::agent_rules;
use mb_mail_service::render::render_document;
use mb_mail_service::render::render_html_route_get;
use mb_mail_service::render::render_html_route_post;
use mb_mail_service::render::render_localized;
use mb_mail_service::render::render_mjml;
use mb_mail_service::render::render_template;
use mb_mail_service::render::render_text;
use mb_mail_service::render::render_text_route_get;
use mb_mail_service::render::render_text_route_post;
use mb_mail_service::render::EngineError;
use mb_mail_service::templates::Template;
use mb_mail_service::templates::TemplateError;
use mb_mail_service::Locales;
use mrml::mjml::Mjml;
use serde_json::Value;

const GREETING: &str = "<mjml><mj-head><mj-title>Welcome</mj-title></mj-head><mj-body><mj-section><mj-column><mj-text>Hi there</mj-text></mj-column></mj-section></mj-body></mjml>";

fn locales() -> Locales {
    Locales::new(vec!["en".to_string(), "fr".to_string()], 0).unwrap()
}

/// A table of two templates: `basic` greets in the language of the locale,
/// and `subscription` wants a name among its parameters.
fn build(template: Template, params: Value, locale: Locale) -> Result<Mjml, TemplateError> {
    match template {
        Template::Basic => {
            let words = if locale.as_str() == "fr" {
                "Bonjour le monde !"
            } else {
                "Hello world in English!"
            };
            let source = format!("<mjml><mj-body><mj-button>{}</mj-button></mj-body></mjml>", words);
            Ok(mrml::parse(source).unwrap())
        }
        _ => match params.get("to_name").and_then(|name| name.as_str()) {
            Some(name) => {
                let source = format!(
                    "<mjml><mj-head><mj-title>For {}</mj-title></mj-head><mj-body><mj-section><mj-column><mj-text>Dear {}</mj-text></mj-column></mj-section></mj-body></mjml>",
                    name, name
                );
                Ok(mrml::parse(source).unwrap())
            }
            None => Err(TemplateError::SerdeJson("missing field `to_name`".to_string())),
        },
    }
}

fn named(name: &str) -> Value {
    let mut fields = serde_json::Map::new();
    fields.insert("to_name".to_string(), Value::String(name.to_string()));
    Value::Object(fields)
}

#[test]
fn text_folds_emphasis_into_asterisks() {
    let text = render_text("<p>Hello <em>world</em> and <strong>all</strong></p>").unwrap();
    assert_eq!(text, "Hello *world* and **all**\n");
}

#[test]
fn text_keeps_link_targets_as_numbered_footnotes() {
    let html = "<h1>Title</h1><h2>Sub</h2><ul><li>one</li><li>two</li></ul><p><a href=\"https://example.com/a\">first</a> and <a href=\"https://example.com/b\">second</a></p>";
    let text = render_text(html).unwrap();
    assert_eq!(
        text,
        "# Title\n\n## Sub\n* one\n* two\n\n[first][1] and [second][2]\n\n[1]: https://example.com/a\n[2]: https://example.com/b\n"
    );
}

#[test]
fn text_drops_the_logo_and_leaves_no_footnote_for_it() {
    let html = "<p>See <a href=\"https://musicbrainz.org\"><img src=\"https://static.metabrainz.org/logos/MusicBrainz_logo_mini.png\" alt=\"MusicBrainz\"></a> and <a href=\"https://example.com\">that</a></p>";
    let text = render_text(html).unwrap();
    assert_eq!(text, "See and [that][1]\n\n[1]: https://example.com\n");
    assert!(!text.contains("MusicBrainz"));
    assert!(!text.contains("musicbrainz.org"));
}

#[test]
fn text_shows_other_images_by_their_alternative_text() {
    let text = render_text("<p><img src=\"x.png\" alt=\"MusicBrainz\"> text <img src=\"y.png\" alt=\"Cover\"></p>").unwrap();
    assert_eq!(text, "text [Cover]\n");
}

#[test]
fn text_is_wrapped_at_76_columns_unless_marked_otherwise() {
    let html = "<p class=\"text-no-wrap\">line one\nline two</p><p>aaaaaaaaaa bbbbbbbbbb cccccccccc dddddddddd eeeeeeeeee ffffffffff gggggggggg hhhhhhhhhh iiiiiiiiii</p>";
    let text = render_text(html).unwrap();
    assert_eq!(
        text,
        "line one\nline two\n\naaaaaaaaaa bbbbbbbbbb cccccccccc dddddddddd eeeeeeeeee ffffffffff gggggggggg\nhhhhhhhhhh iiiiiiiiii\n"
    );
}

#[test]
fn text_of_an_empty_page_is_empty() {
    assert_eq!(render_text("").unwrap(), "");
}

#[test]
fn text_of_the_same_page_is_the_same_twice() {
    let html = "<h3>Edits</h3><p><a href=\"https://example.com/prefs\">Change</a> your <em>settings</em></p>";
    let first = render_text(html).unwrap();
    let second = render_text(html).unwrap();
    assert_eq!(first, second);
    assert_eq!(first, "### Edits\n\n[Change][1] your *settings*\n\n[1]: https://example.com/prefs\n");
}

#[test]
fn mjml_text_is_rendered_to_a_page_with_its_title() {
    let (html, title) = render_mjml(GREETING.to_string()).unwrap();
    assert!(html.starts_with("<!doctype html>"));
    assert!(html.contains("Hi there"));
    assert!(html.contains("<title>Welcome</title>"));
    assert_eq!(title, Some("Welcome".to_string()));
    assert_eq!(render_text(&html).unwrap(), "Hi there\n");
}

#[test]
fn mjml_text_without_a_title_has_none() {
    let (_, title) = render_mjml("<mjml><mj-body></mj-body></mjml>".to_string()).unwrap();
    assert_eq!(title, None);
}

#[test]
fn mjml_text_renders_the_same_twice() {
    let first = render_mjml(GREETING.to_string()).unwrap();
    let second = render_mjml(GREETING.to_string()).unwrap();
    assert_eq!(first, second);
}

#[test]
fn mjml_text_that_does_not_parse_is_a_parse_error() {
    match render_mjml("<mjml><mj-body>".to_string()) {
        Err(EngineError::Parse(words)) => assert_eq!(words, "unexpected end of stream"),
        other => panic!("unexpected outcome: {:?}", other),
    }
    match render_mjml(String::new()) {
        Err(EngineError::Parse(words)) => assert_eq!(words, "no root node found"),
        other => panic!("unexpected outcome: {:?}", other),
    }
}

#[test]
fn document_is_rendered_with_its_title() {
    let root = mrml::parse(GREETING).unwrap();
    let (html, title) = render_document(&root).unwrap();
    assert!(html.contains("Hi there"));
    assert_eq!(title, Some("Welcome".to_string()));
}

#[test]
fn template_is_rendered_in_the_locale_given() {
    let all = locales();
    let english = all.find("en").unwrap();
    let (html, title) = render_template("basic".to_string(), Value::Null, english, build).unwrap();
    assert!(html.starts_with("<!doctype html>"));
    assert!(html.contains("Hello world in English!"));
    assert_eq!(title, None);
    let french = all.find("fr").unwrap();
    let (page, _) = render_template("basic".to_string(), Value::Null, french, build).unwrap();
    assert!(page.contains("Bonjour le monde !"));
}

#[test]
fn template_renders_the_same_twice() {
    let all = locales();
    let first = render_template("subscription".to_string(), named("Jade"), all.find("en").unwrap(), build);
    let second = render_template("subscription".to_string(), named("Jade"), all.find("en").unwrap(), build);
    let first = first.unwrap();
    assert_eq!(first, second.unwrap());
    assert_eq!(first.1, Some("For Jade".to_string()));
    let text = render_text(&first.0).unwrap();
    assert_eq!(text, render_text(&first.0).unwrap());
    assert_eq!(text, "Dear Jade\n");
}

#[test]
fn unknown_template_is_not_found_and_the_table_is_not_asked() {
    let all = locales();
    let asked = |_: Template, _: Value, _: Locale| -> Result<Mjml, TemplateError> {
        panic!("the table of templates was asked")
    };
    match render_template("does-not-exist".to_string(), Value::Null, all.default_locale(), asked) {
        Err(error) => {
            assert!(matches!(&error, EngineError::TemplateNotFound(id) if id == "does-not-exist"));
            assert_eq!(error.message(), "TemplateNotFound: does-not-exist");
            assert_eq!(error.status(), 404);
        }
        Ok(_) => panic!("rendered a template that does not exist"),
    }
}

#[test]
fn parameters_that_a_template_rejects_are_a_template_error() {
    let all = locales();
    match render_template("subscription".to_string(), Value::Null, all.default_locale(), build) {
        Err(error) => {
            assert!(matches!(&error, EngineError::Template(TemplateError::SerdeJson(_))));
            assert_eq!(
                error.message(),
                "Failed to render template: Failed to parse parameters: missing field `to_name`"
            );
            assert_eq!(error.status(), 400);
        }
        Ok(_) => panic!("rendered without the parameters"),
    }
}

#[test]
fn localized_rendering_rejects_a_bad_code_before_the_template() {
    let all = locales();
    match render_localized("does-not-exist".to_string(), Value::Null, Some("xx".to_string()), &all, build) {
        Err(EngineError::BadLanguageCode(code)) => assert_eq!(code, "xx"),
        other => panic!("unexpected outcome: {:?}", other),
    }
    match render_localized("does-not-exist".to_string(), Value::Null, None, &all, build) {
        Err(EngineError::TemplateNotFound(id)) => assert_eq!(id, "does-not-exist"),
        other => panic!("unexpected outcome: {:?}", other),
    }
}

#[test]
fn absent_locale_renders_the_same_page_as_the_default_code() {
    let all = locales();
    let absent = render_localized("basic".to_string(), Value::Null, None, &all, build).unwrap();
    let spelled =
        render_localized("basic".to_string(), Value::Null, Some("en".to_string()), &all, build).unwrap();
    assert_eq!(absent, spelled);
    let other =
        render_localized("basic".to_string(), Value::Null, Some("fr".to_string()), &all, build).unwrap();
    assert_ne!(absent.0, other.0);
}

#[test]
fn engine_errors_say_what_failed() {
    assert_eq!(
        EngineError::BadLanguageCode("xx".to_string()).message(),
        "Unsupported or invalid language: xx"
    );
    assert_eq!(EngineError::Render("boom".to_string()).message(), "Failed to render MJML: boom");
    assert_eq!(EngineError::Parse("boom".to_string()).message(), "Error rendering template: boom");
    assert_eq!(
        EngineError::FailedTextConversion("boom".to_string()).message(),
        "Failed to convert HTML to text: boom"
    );
}

#[test]
fn engine_errors_other_than_the_two_of_the_request_are_internal() {
    assert_eq!(EngineError::BadLanguageCode("xx".to_string()).status(), 500);
    assert_eq!(EngineError::Render("boom".to_string()).status(), 500);
    assert_eq!(EngineError::Parse("boom".to_string()).status(), 500);
    assert_eq!(EngineError::FailedTextConversion("boom".to_string()).status(), 500);
    assert_eq!(EngineError::TemplateNotFound("x".to_string()).status(), 404);
    assert_eq!(EngineError::Template(TemplateError::SerdeJson("x".to_string())).status(), 400);
}

#[test]
fn html_routes_serve_the_page_as_html() {
    let all = locales();
    let got = render_html_route_get("basic".to_string(), None, &all, build).unwrap();
    assert_eq!(got.content_type, "text/html");
    assert!(got.body.contains("Hello world in English!"));
    let posted =
        render_html_route_post("subscription".to_string(), Some("fr".to_string()), named("Jade"), &all, build)
            .unwrap();
    assert_eq!(posted.content_type, "text/html");
    assert!(posted.body.contains("Dear Jade"));
}

#[test]
fn text_routes_serve_the_rendition_as_plain_text() {
    let all = locales();
    let got = render_text_route_get("basic".to_string(), Some("fr".to_string()), &all, build).unwrap();
    assert_eq!(got.content_type, "text/plain; charset=UTF-8");
    assert_eq!(got.body, "Bonjour le monde !\n");
    let posted = render_text_route_post("subscription".to_string(), None, named("Jade"), &all, build).unwrap();
    assert_eq!(posted.content_type, "text/plain; charset=UTF-8");
    assert_eq!(posted.body, "Dear Jade\n");
}

#[test]
fn routes_hand_errors_on() {
    let all = locales();
    assert!(matches!(
        render_html_route_get("nope".to_string(), None, &all, build),
        Err(EngineError::TemplateNotFound(_))
    ));
    assert!(matches!(
        render_text_route_get("basic".to_string(), Some("zz".to_string()), &all, build),
        Err(EngineError::BadLanguageCode(_))
    ));
    assert!(matches!(
        render_html_route_get("subscription".to_string(), None, &all, build),
        Err(EngineError::Template(_))
    ));
    assert!(matches!(
        render_text_route_post("subscription".to_string(), None, Value::Null, &all, build),
        Err(EngineError::Template(_))
    ));
}

#[test]
fn style_rules_keep_marked_text_and_hide_the_logo() {
    assert_eq!(
        agent_rules(),
        "\n.text-no-wrap {\nwhite-space: pre !important;\n}\nimg[alt=\"MusicBrainz\"] {\ndisplay: none !important;\n}"
    );
    assert!(agent_rules().contains(mb_mail_service::text::LOGO_MARKER));
}

#[test]
fn mjml_text_and_its_document_render_to_the_same_page() {
    let from_text = render_mjml(GREETING.to_string()).unwrap();
    let from_document = render_document(&mrml::parse(GREETING).unwrap()).unwrap();
    assert_eq!(from_text, from_document);
}

#[test]
fn get_routes_render_with_the_null_value() {
    let all = locales();
    let seen = |_: Template, params: Value, _: Locale| -> Result<Mjml, TemplateError> {
        assert_eq!(params, Value::Null);
        Ok(mrml::parse("<mjml><mj-body><mj-button>seen</mj-button></mj-body></mjml>").unwrap())
    };
    assert_eq!(render_text_route_get("basic".to_string(), None, &all, seen).unwrap().body, "seen\n");
    assert!(render_html_route_get("basic".to_string(), None, &all, seen).unwrap().body.contains("seen"));
}
