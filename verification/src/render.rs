//! The render pipeline: from a template, its parameters and a locale to an
//! HTML page, and from the page to its plain-text rendition.

use vstd::prelude::*;
use vstd::string::StringExecFns;
use crate::locale::locale_from_optional_code;
use crate::locale::optional_text;
use crate::locale::Locale;
use crate::locale::Locales;
use crate::templates::get;
use crate::templates::template_named;
use crate::templates::Template;
use crate::templates::TemplateError;
use crate::templates::TemplateFault;
use crate::text::LOGO_MARKER;

verus! {

/// Trusted: `serde_json::Value`, the parameters of a template. The library
/// hands them on unread.
#[verifier::external_type_specification]
#[verifier::external_body]
pub struct ExValue(serde_json::Value);

/// Trusted: `mrml::mjml::Mjml`, the root of an MJML document. The library
/// hands it to the renderer unread.
#[verifier::external_type_specification]
#[verifier::external_body]
pub struct ExMjml(mrml::mjml::Mjml);

/// The columns to which the plain-text rendition is wrapped.
pub const TEXT_WIDTH: usize = 76;

/// Whether the plain-text rendition keeps the targets of links, as
/// numbered footnotes after the body.
pub const LINK_FOOTNOTES: bool = true;

/// Whether the plain-text rendition reads tables cell by cell, so that the
/// text of a cell stays together.
pub const RAW_MODE: bool = true;

/// The style rule under which text marked as not to be wrapped keeps its
/// line breaks in the plain-text rendition.
pub const WRAP_RULE: &'static str = "\n.text-no-wrap {\nwhite-space: pre !important;\n}";

/// The style rules that the plain-text rendition adds to those of the page:
/// text marked as not to be wrapped keeps its line breaks, and an image
/// whose alternative text is the logo marker, which is decoration, is left
/// out.
pub open spec fn agent_css() -> Seq<char> {
    WRAP_RULE@ + "\nimg[alt=\""@ + LOGO_MARKER@ + "\"] {\ndisplay: none !important;\n}"@
}

/// The style rules of [`agent_css`] as text.
pub fn agent_rules() -> (css: String)
    ensures
        css@ == agent_css(),
{
    let mut css = WRAP_RULE.to_owned();
    css.append("\nimg[alt=\"");
    css.append(LOGO_MARKER);
    css.append("\"] {\ndisplay: none !important;\n}");
    css
}

/// Why a page could not be rendered.
#[derive(Debug)]
pub enum EngineError {
    /// The request names a locale that is not on offer; holds the code.
    BadLanguageCode(String),
    /// The template rejected its parameters.
    Template(TemplateError),
    /// The renderer failed on the document; holds its words.
    Render(String),
    /// The MJML text is not a document; holds the parser's words.
    Parse(String),
    /// No template goes by this identifier.
    TemplateNotFound(String),
    /// The page could not be turned into plain text; holds the converter's
    /// words.
    FailedTextConversion(String),
}

/// What an [`EngineError`] holds, as plain text.
pub enum EngineFault {
    BadLanguageCode(Seq<char>),
    Template(TemplateFault),
    Render(Seq<char>),
    Parse(Seq<char>),
    TemplateNotFound(Seq<char>),
    FailedTextConversion(Seq<char>),
}

impl View for EngineError {
    type V = EngineFault;

    open spec fn view(&self) -> EngineFault {
        match self {
            EngineError::BadLanguageCode(code) => EngineFault::BadLanguageCode(code@),
            EngineError::Template(inner) => EngineFault::Template(inner@),
            EngineError::Render(detail) => EngineFault::Render(detail@),
            EngineError::Parse(detail) => EngineFault::Parse(detail@),
            EngineError::TemplateNotFound(id) => EngineFault::TemplateNotFound(id@),
            EngineError::FailedTextConversion(detail) => EngineFault::FailedTextConversion(
                detail@,
            ),
        }
    }
}

impl EngineFault {
    /// The sentence that describes the fault.
    pub open spec fn text(self) -> Seq<char> {
        match self {
            EngineFault::BadLanguageCode(code) => "Unsupported or invalid language: "@ + code,
            EngineFault::Template(inner) => "Failed to render template: "@ + inner.text(),
            EngineFault::Render(detail) => "Failed to render MJML: "@ + detail,
            EngineFault::Parse(detail) => "Error rendering template: "@ + detail,
            EngineFault::TemplateNotFound(id) => "TemplateNotFound: "@ + id,
            EngineFault::FailedTextConversion(detail) => "Failed to convert HTML to text: "@
                + detail,
        }
    }

    /// The HTTP status under which the fault is reported: not found for an
    /// unknown template, bad request for parameters that a template
    /// rejects, and an internal error for everything else.
    pub open spec fn status(self) -> u16 {
        match self {
            EngineFault::TemplateNotFound(_) => 404,
            EngineFault::Template(_) => 400,
            _ => 500,
        }
    }
}

impl EngineError {
    /// The sentence that describes the error.
    pub fn message(&self) -> (text: String)
        ensures
            text@ == self@.text(),
    {
        match self {
            EngineError::BadLanguageCode(code) => {
                let mut text = "Unsupported or invalid language: ".to_owned();
                text.append(code.as_str());
                text
            },
            EngineError::Template(inner) => {
                let mut text = "Failed to render template: ".to_owned();
                text.append(inner.message().as_str());
                text
            },
            EngineError::Render(detail) => {
                let mut text = "Failed to render MJML: ".to_owned();
                text.append(detail.as_str());
                text
            },
            EngineError::Parse(detail) => {
                let mut text = "Error rendering template: ".to_owned();
                text.append(detail.as_str());
                text
            },
            EngineError::TemplateNotFound(id) => {
                let mut text = "TemplateNotFound: ".to_owned();
                text.append(id.as_str());
                text
            },
            EngineError::FailedTextConversion(detail) => {
                let mut text = "Failed to convert HTML to text: ".to_owned();
                text.append(detail.as_str());
                text
            },
        }
    }

    /// The HTTP status under which the error is reported.
    pub fn status(&self) -> (code: u16)
        ensures
            code == self@.status(),
    {
        match self {
            EngineError::TemplateNotFound(_) => 404,
            EngineError::Template(_) => 400,
            _ => 500,
        }
    }
}

/// The plain-text rendition that the converter gives of the page `html`
/// under the style rules `css`, wrapped to `width` columns, with or without
/// footnotes for links, in raw mode or not, or the words with which it
/// fails.
pub uninterp spec fn html_text(
    html: Seq<char>,
    css: Seq<char>,
    width: usize,
    footnotes: bool,
    raw: bool,
) -> Result<Seq<char>, Seq<char>>;

/// The words with which the MJML parser rejects `mjml`, if it does.
pub uninterp spec fn mjml_fault(mjml: Seq<char>) -> Option<Seq<char>>;

/// What the renderer makes of the document that the parser makes of the
/// text `mjml`, as [`document_page`] has it of that document. It says
/// nothing of text that the parser rejects.
pub uninterp spec fn mjml_page(mjml: Seq<char>) -> Option<Result<Seq<char>, Seq<char>>>;

/// The content of the title element of the document that the parser makes
/// of the text `mjml`, where it has one.
pub uninterp spec fn mjml_title(mjml: Seq<char>) -> Option<Seq<char>>;

/// What the renderer makes of a document under its default options: the
/// HTML page, or the words with which it fails; and nothing where the
/// renderer returns neither, as it does on a document with a size that is
/// none.
pub uninterp spec fn document_page(root: mrml::mjml::Mjml) -> Option<
    Result<Seq<char>, Seq<char>>,
>;

/// Whether `root` is the document that the parser makes of the text
/// `mjml`.
pub uninterp spec fn parsed_as(mjml: Seq<char>, root: mrml::mjml::Mjml) -> bool;

/// Whether a value is the null value.
pub uninterp spec fn is_null(params: serde_json::Value) -> bool;

/// Whether the renderer takes a document: it returns a page or an error.
pub open spec fn renders(root: mrml::mjml::Mjml) -> bool {
    document_page(root) is Some
}

/// Whether the renderer takes the document that the parser makes of the
/// text `mjml`, where it makes one.
pub open spec fn text_renders(mjml: Seq<char>) -> bool {
    forall|root: mrml::mjml::Mjml| #[trigger] parsed_as(mjml, root) ==> renders(root)
}

/// Whether the renderer takes every document that a table of templates
/// builds.
pub open spec fn table_renders<F>(build: F) -> bool where
    F: FnOnce(Template, serde_json::Value, Locale) -> Result<mrml::mjml::Mjml, TemplateError>,
 {
    forall|
        template: Template,
        params: serde_json::Value,
        lang: Locale,
        built: Result<mrml::mjml::Mjml, TemplateError>,
    | #[trigger]
        call_ensures(build, (template, params, lang), built) ==> (built matches Ok(root)
            ==> renders(root))
}

/// The content of the title element of a document, where it has one.
pub uninterp spec fn document_title(root: mrml::mjml::Mjml) -> Option<Seq<char>>;

/// The views of both sides of a result that holds text either way.
pub open spec fn outcome_text(outcome: Result<String, String>) -> Result<Seq<char>, Seq<char>> {
    match outcome {
        Ok(text) => Ok(text@),
        Err(words) => Err(words@),
    }
}

/// Trusted: html2text's plain configuration (`config::plain`) without table
/// borders, with width overflow allowed and links left unwrapped, with
/// link footnotes and raw mode as asked, extended by `css`
/// (`add_agent_css`), then `parse_html`, `dom_to_render_tree` and
/// `render_to_string` at `width` columns. The style rules are the
/// service's own. The outcome depends on the five arguments alone; an
/// error of any of the steps comes back as its words.
#[verifier::external_body]
fn html_to_text(html: &str, css: &str, width: usize, footnotes: bool, raw: bool) -> (outcome:
    Result<String, String>)
    requires
        css@ == agent_css(),
    ensures
        outcome_text(outcome) == html_text(html@, css@, width, footnotes, raw),
{
    let config = html2text::config::plain()
        .no_table_borders()
        .allow_width_overflow()
        .no_link_wrapping()
        .link_footnotes(footnotes)
        .raw_mode(raw)
        .add_agent_css(css)
        .map_err(|e| e.to_string())?;
    let dom = config.parse_html(html.as_bytes()).map_err(|e| e.to_string())?;
    let tree = config.dom_to_render_tree(&dom).map_err(|e| e.to_string())?;
    config.render_to_string(tree, width).map_err(|e| e.to_string())
}

/// The plain-text rendition of a page as the service makes it: under its
/// own style rules, at its width, with footnotes for links and in raw
/// mode.
pub open spec fn page_text(html: Seq<char>) -> Result<Seq<char>, Seq<char>> {
    html_text(html, agent_css(), TEXT_WIDTH, LINK_FOOTNOTES, RAW_MODE)
}

/// Trusted: `mrml::parse_with_options` with a loader that resolves no
/// include. Whether the text is accepted, the words of the rejection, and
/// the document that is made of accepted text, depend on the text alone:
/// so do the page and the title of that document.
#[verifier::external_body]
fn parse_mjml(mjml: &str) -> (parsed: Result<mrml::mjml::Mjml, String>)
    ensures
        parsed is Err <==> mjml_fault(mjml@) is Some,
        parsed matches Err(words) ==> mjml_fault(mjml@) == Some(words@),
        parsed matches Ok(root) ==> parsed_as(mjml@, root),
        parsed matches Ok(root) ==> document_page(root) == mjml_page(mjml@),
        parsed matches Ok(root) ==> document_title(root) == mjml_title(mjml@),
{
    let loader = Box::<mrml::prelude::parser::noop_loader::NoopIncludeLoader>::default();
    let options = mrml::prelude::parser::ParserOptions { include_loader: loader };
    mrml::parse_with_options(mjml, &options).map_err(|e| e.to_string())
}

/// Trusted: `Mjml::render` of mrml under its default options, for a
/// document that the renderer takes. Gives the HTML page, or the words of
/// the renderer's error. The outcome depends on the document alone.
#[verifier::external_body]
fn render_root(root: &mrml::mjml::Mjml) -> (page: Result<String, String>)
    requires
        renders(*root),
    ensures
        Some(outcome_text(page)) == document_page(*root),
{
    root.render(&mrml::prelude::render::RenderOptions::default()).map_err(|e| e.to_string())
}

/// Trusted: `Mjml::get_title` of mrml, the content of the document's title
/// element where it has one.
#[verifier::external_body]
fn title_of(root: &mrml::mjml::Mjml) -> (title: Option<String>)
    ensures
        optional_text(title) == document_title(*root),
{
    root.get_title()
}

/// Trusted: the variant `Null` of `serde_json::Value`, the parameters of a
/// request that sends none.
#[verifier::external_body]
fn no_params() -> (params: serde_json::Value)
    ensures
        is_null(params),
{
    serde_json::Value::Null
}

/// What the conversion of the page `html` to plain text comes to: the
/// rendition that the converter gives, or a failed text conversion with the
/// converter's words.
pub open spec fn text_of_page(html: Seq<char>, r: Result<String, EngineError>) -> bool {
    match page_text(html) {
        Ok(text) => r matches Ok(out) && out@ == text,
        Err(words) => r matches Err(e) && e@ == EngineFault::FailedTextConversion(words),
    }
}

/// The view of a result that holds text or an error of the pipeline.
pub open spec fn text_outcome(r: Result<String, EngineError>) -> Result<Seq<char>, EngineFault> {
    match r {
        Ok(text) => Ok(text@),
        Err(fault) => Err(fault@),
    }
}

/// Converting a page to text is repeatable: two conversions of the same
/// page come to the same text, or fail with the same words.
pub proof fn lemma_same_page_same_text(
    html: Seq<char>,
    first: Result<String, EngineError>,
    second: Result<String, EngineError>,
)
    requires
        text_of_page(html, first),
        text_of_page(html, second),
    ensures
        text_outcome(first) == text_outcome(second),
{
}

/// Turns a page into its plain-text rendition. A failure of the converter
/// is reported as a failed text conversion with the converter's words.
pub fn render_text(html: &str) -> (r: Result<String, EngineError>)
    ensures
        text_of_page(html@, r),
{
    let css = agent_rules();
    match html_to_text(html, css.as_str(), TEXT_WIDTH, LINK_FOOTNOTES, RAW_MODE) {
        Ok(text) => Ok(text),
        Err(words) => Err(EngineError::FailedTextConversion(words)),
    }
}

/// What rendering a document comes to: the page that the renderer makes of
/// it, together with the document's title where it has one, or a render
/// error with the renderer's words.
pub open spec fn rendered_as(
    root: mrml::mjml::Mjml,
    r: Result<(String, Option<String>), EngineError>,
) -> bool {
    match document_page(root) {
        Some(Ok(page)) => r matches Ok(rendered) && rendered.0@ == page && optional_text(
            rendered.1,
        ) == document_title(root),
        Some(Err(words)) => r matches Err(e) && e@ == EngineFault::Render(words),
        None => false,
    }
}

/// The view of a result that holds a page with its title or an error of
/// the pipeline.
pub open spec fn page_outcome(r: Result<(String, Option<String>), EngineError>) -> Result<
    (Seq<char>, Option<Seq<char>>),
    EngineFault,
> {
    match r {
        Ok(rendered) => Ok((rendered.0@, optional_text(rendered.1))),
        Err(fault) => Err(fault@),
    }
}

/// Rendering a document is repeatable: two renderings of the same
/// document come to the same page and title, or fail with the same words.
pub proof fn lemma_same_document_same_page(
    root: mrml::mjml::Mjml,
    first: Result<(String, Option<String>), EngineError>,
    second: Result<(String, Option<String>), EngineError>,
)
    requires
        rendered_as(root, first),
        rendered_as(root, second),
    ensures
        page_outcome(first) == page_outcome(second),
{
}

/// Renders a document: the HTML page and the document's title, if it has
/// one. The only failure is one of the renderer, which is reported with
/// the renderer's words.
pub fn render_document(root: &mrml::mjml::Mjml) -> (r: Result<(String, Option<String>), EngineError>)
    requires
        renders(*root),
    ensures
        rendered_as(*root, r),
{
    match render_root(root) {
        Ok(page) => Ok((page, title_of(root))),
        Err(words) => Err(EngineError::Render(words)),
    }
}

/// What rendering the MJML text `mjml` comes to. Text that the parser
/// rejects is reported as a parse error with the parser's words. Otherwise
/// the result is the page that the renderer makes of the text, together
/// with the title where the text has one, or a render error with the
/// renderer's words.
pub open spec fn mjml_rendered(mjml: Seq<char>, r: Result<(String, Option<String>), EngineError>) -> bool {
    match mjml_fault(mjml) {
        Some(words) => r matches Err(e) && e@ == EngineFault::Parse(words),
        None => match mjml_page(mjml) {
            Some(Ok(page)) => r matches Ok(rendered) && rendered.0@ == page && optional_text(
                rendered.1,
            ) == mjml_title(mjml),
            Some(Err(words)) => r matches Err(e) && e@ == EngineFault::Render(words),
            None => false,
        },
    }
}

/// Renders MJML text: see [`mjml_rendered`]. The text is such that the
/// renderer takes the document that the parser makes of it.
pub fn render_mjml(mjml_text: String) -> (r: Result<(String, Option<String>), EngineError>)
    requires
        text_renders(mjml_text@),
    ensures
        mjml_rendered(mjml_text@, r),
{
    match parse_mjml(mjml_text.as_str()) {
        Ok(root) => render_document(&root),
        Err(words) => Err(EngineError::Parse(words)),
    }
}

/// How the outcome of building a template shows in the outcome of rendering
/// it: a template that rejects its parameters is reported as such, and a
/// document that was built is rendered, see [`rendered_as`].
pub open spec fn rendered_from(
    built: Result<mrml::mjml::Mjml, TemplateError>,
    r: Result<(String, Option<String>), EngineError>,
) -> bool {
    match built {
        Ok(root) => rendered_as(root, r),
        Err(fault) => r matches Err(e) && e@ == EngineFault::Template(fault@),
    }
}

/// Renders the template that `template_id` names, with the given
/// parameters, in the given locale. `build` is the table of templates: it
/// builds the document of a template. It is called at most once, and only
/// for a template that exists. An identifier that names no template is
/// reported as not found, with the identifier.
pub fn render_template<F>(template_id: String, params: serde_json::Value, lang: Locale, build: F) -> (r:
    Result<(String, Option<String>), EngineError>) where
    F: FnOnce(Template, serde_json::Value, Locale) -> Result<mrml::mjml::Mjml, TemplateError>,

    requires
        template_named(template_id@) matches Some(template) ==> call_requires(
            build,
            (template, params, lang),
        ),
        table_renders(build),
    ensures
        template_named(template_id@) is None ==> (r matches Err(e) && e@
            == EngineFault::TemplateNotFound(template_id@)),
        template_named(template_id@) matches Some(template) ==> exists|
            built: Result<mrml::mjml::Mjml, TemplateError>,
        |
            call_ensures(build, (template, params, lang), built) && rendered_from(built, r),
{
    match get(template_id.as_str()) {
        None => Err(EngineError::TemplateNotFound(template_id)),
        Some(template) => {
            let built = build(template, params, lang);
            let r = match built {
                Ok(root) => render_document(&root),
                Err(fault) => Err(EngineError::Template(fault)),
            };
            assert(call_ensures(build, (template, params, lang), built) && rendered_from(
                built,
                r,
            ));
            r
        },
    }
}

/// How a request for a template in the locale spelled `code` can come out.
/// An identifier that names no template is reported as not found. Otherwise
/// the template is built once, in that locale, and the outcome follows from
/// what was built: see [`rendered_from`].
pub open spec fn rendered_for<F>(
    build: F,
    template_id: Seq<char>,
    params: serde_json::Value,
    code: Seq<char>,
    r: Result<(String, Option<String>), EngineError>,
) -> bool where
    F: FnOnce(Template, serde_json::Value, Locale) -> Result<mrml::mjml::Mjml, TemplateError>,
 {
    match template_named(template_id) {
        None => r matches Err(e) && e@ == EngineFault::TemplateNotFound(template_id),
        Some(template) => exists|lang: Locale, built: Result<mrml::mjml::Mjml, TemplateError>|
            #![trigger call_ensures(build, (template, params, lang), built)]
            lang@ == code && call_ensures(build, (template, params, lang), built)
                && rendered_from(built, r),
    }
}

/// How a request for a template under an optional locale code can come
/// out. A code that names no locale on offer is reported as a bad language
/// code, before the template is looked at. Otherwise the request is served
/// in the locale that the code resolves to: see [`rendered_for`].
pub open spec fn localized_for<F>(
    build: F,
    locales: Locales,
    template_id: Seq<char>,
    params: serde_json::Value,
    lang: Option<Seq<char>>,
    r: Result<(String, Option<String>), EngineError>,
) -> bool where
    F: FnOnce(Template, serde_json::Value, Locale) -> Result<mrml::mjml::Mjml, TemplateError>,
 {
    match locales.resolved(lang) {
        Err(code) => r matches Err(e) && e@ == EngineFault::BadLanguageCode(code),
        Ok(code) => rendered_for(build, template_id, params, code, r),
    }
}

/// Whether a table of templates answers alike whenever it is asked alike:
/// for one template, one set of parameters and one locale code it builds
/// one document, or rejects the parameters in one way.
pub open spec fn answers_alike<F>(build: F) -> bool where
    F: FnOnce(Template, serde_json::Value, Locale) -> Result<mrml::mjml::Mjml, TemplateError>,
 {
    forall|
        template: Template,
        params: serde_json::Value,
        first: Locale,
        second: Locale,
        one: Result<mrml::mjml::Mjml, TemplateError>,
        other: Result<mrml::mjml::Mjml, TemplateError>,
    |
        #![trigger call_ensures(build, (template, params, first), one), call_ensures(build, (template, params, second), other)]
        first@ == second@ && call_ensures(build, (template, params, first), one) && call_ensures(
            build,
            (template, params, second),
            other,
        ) ==> one == other
}

/// Rendering a request is repeatable: with a table of templates that
/// answers alike whenever it is asked alike, two renderings of the same
/// template with the same parameters under the same locale code come to
/// the same page and title, or fail in the same way with the same words.
pub proof fn lemma_same_request_same_page<F>(
    build: F,
    locales: Locales,
    template_id: Seq<char>,
    params: serde_json::Value,
    lang: Option<Seq<char>>,
    first: Result<(String, Option<String>), EngineError>,
    second: Result<(String, Option<String>), EngineError>,
) where F: FnOnce(Template, serde_json::Value, Locale) -> Result<mrml::mjml::Mjml, TemplateError>
    requires
        answers_alike(build),
        localized_for(build, locales, template_id, params, lang, first),
        localized_for(build, locales, template_id, params, lang, second),
    ensures
        page_outcome(first) == page_outcome(second),
{
    if locales.resolved(lang) is Ok && template_named(template_id) is Some {
        let code = locales.resolved(lang)->Ok_0;
        let template = template_named(template_id)->0;
        let (lang1, built1) = choose|lang1: Locale, built1: Result<mrml::mjml::Mjml, TemplateError>|
            lang1@ == code && call_ensures(build, (template, params, lang1), built1)
                && rendered_from(built1, first);
        let (lang2, built2) = choose|lang2: Locale, built2: Result<mrml::mjml::Mjml, TemplateError>|
            lang2@ == code && call_ensures(build, (template, params, lang2), built2)
                && rendered_from(built2, second);
        assert(built1 == built2);
    }
}

/// The locale fallback holds of the page: with a table of templates that
/// answers alike whenever it is asked alike, a request without a locale
/// code and a request that spells out the code of the default locale come
/// to the same page and title, or fail in the same way.
pub proof fn lemma_absent_locale_same_page<F>(
    build: F,
    locales: Locales,
    template_id: Seq<char>,
    params: serde_json::Value,
    absent: Result<(String, Option<String>), EngineError>,
    spelled: Result<(String, Option<String>), EngineError>,
) where F: FnOnce(Template, serde_json::Value, Locale) -> Result<mrml::mjml::Mjml, TemplateError>
    requires
        locales.wf(),
        answers_alike(build),
        localized_for(build, locales, template_id, params, None, absent),
        localized_for(
            build,
            locales,
            template_id,
            params,
            Some(locales.default_code()),
            spelled,
        ),
    ensures
        page_outcome(absent) == page_outcome(spelled),
{
    lemma_absent_locale_renders_as_default(build, locales, template_id, params, spelled);
    lemma_same_request_same_page(build, locales, template_id, params, None, absent, spelled);
}

/// A request without a locale code is rendered as a request that spells
/// out the code of the default locale: whatever can come of the one can
/// come of the other.
pub proof fn lemma_absent_locale_renders_as_default<F>(
    build: F,
    locales: Locales,
    template_id: Seq<char>,
    params: serde_json::Value,
    r: Result<(String, Option<String>), EngineError>,
) where F: FnOnce(Template, serde_json::Value, Locale) -> Result<mrml::mjml::Mjml, TemplateError>
    requires
        locales.wf(),
    ensures
        localized_for(build, locales, template_id, params, None, r) == localized_for(
            build,
            locales,
            template_id,
            params,
            Some(locales.default_code()),
            r,
        ),
{
    crate::locale::lemma_absent_code_means_default(locales);
}

/// Renders a template under the optional locale code of a request:
/// resolves the code, then renders as [`render_template`] does.
pub fn render_localized<F>(
    template_id: String,
    params: serde_json::Value,
    lang: Option<String>,
    locales: &Locales,
    build: F,
) -> (r: Result<(String, Option<String>), EngineError>) where
    F: FnOnce(Template, serde_json::Value, Locale) -> Result<mrml::mjml::Mjml, TemplateError>,

    requires
        locales.wf(),
        table_renders(build),
        forall|template: Template, locale: Locale|
            call_requires(build, (template, params, locale)),
    ensures
        localized_for(build, *locales, template_id@, params, optional_text(lang), r),
{
    let locale = match locale_from_optional_code(lang, locales) {
        Ok(locale) => locale,
        Err(fault) => {
            return Err(fault);
        },
    };
    let ghost chosen = locale;
    let ghost id = template_id@;
    let r = render_template(template_id, params, locale, build);
    proof {
        if template_named(id) is Some {
            let template = template_named(id)->0;
            let built = choose|built: Result<mrml::mjml::Mjml, TemplateError>|
                call_ensures(build, (template, params, chosen), built) && rendered_from(built, r);
            assert(chosen@ == locales.resolved(optional_text(lang))->Ok_0 && call_ensures(
                build,
                (template, params, chosen),
                built,
            ) && rendered_from(built, r));
        }
    }
    r
}

/// The media type under which a rendered page is served.
pub const HTML_CONTENT_TYPE: &'static str = "text/html";

/// The media type under which the plain-text rendition is served.
pub const TEXT_CONTENT_TYPE: &'static str = "text/plain; charset=UTF-8";

/// What the service answers to a request for a rendition: a body and the
/// media type it is served under.
#[derive(Debug)]
pub struct Rendition {
    pub content_type: &'static str,
    pub body: String,
}

/// The page of a render outcome served as HTML; a failure stays what it is.
pub open spec fn served_html(
    page: Result<(String, Option<String>), EngineError>,
    r: Result<Rendition, EngineError>,
) -> bool {
    match page {
        Ok(rendered) => r matches Ok(answer) && answer.content_type@ == HTML_CONTENT_TYPE@
            && answer.body@ == rendered.0@,
        Err(fault) => r matches Err(e) && e@ == fault@,
    }
}

/// The page of a render outcome served as plain text: the rendition that
/// the converter gives of the page, or its failure; a failure of the
/// rendering stays what it is.
pub open spec fn served_text(
    page: Result<(String, Option<String>), EngineError>,
    r: Result<Rendition, EngineError>,
) -> bool {
    match page {
        Ok(rendered) => match page_text(rendered.0@) {
            Ok(text) => r matches Ok(answer) && answer.content_type@ == TEXT_CONTENT_TYPE@
                && answer.body@ == text,
            Err(words) => r matches Err(e) && e@ == EngineFault::FailedTextConversion(words),
        },
        Err(fault) => r matches Err(e) && e@ == fault@,
    }
}

/// Serves the page of a render outcome as HTML.
pub fn serve_html(page: Result<(String, Option<String>), EngineError>) -> (r: Result<
    Rendition,
    EngineError,
>)
    ensures
        served_html(page, r),
{
    match page {
        Ok((content, _title)) => Ok(Rendition { content_type: HTML_CONTENT_TYPE, body: content }),
        Err(fault) => Err(fault),
    }
}

/// Serves the page of a render outcome as plain text.
pub fn serve_text(page: Result<(String, Option<String>), EngineError>) -> (r: Result<
    Rendition,
    EngineError,
>)
    ensures
        served_text(page, r),
{
    match page {
        Ok((html, _title)) => match render_text(html.as_str()) {
            Ok(content) => Ok(Rendition { content_type: TEXT_CONTENT_TYPE, body: content }),
            Err(fault) => Err(fault),
        },
        Err(fault) => Err(fault),
    }
}

/// Answers a request for the HTML rendition of a template without
/// parameters: the template is handed the null value.
pub fn render_html_route_get<F>(
    template_id: String,
    lang: Option<String>,
    locales: &Locales,
    build: F,
) -> (r: Result<Rendition, EngineError>) where
    F: FnOnce(Template, serde_json::Value, Locale) -> Result<mrml::mjml::Mjml, TemplateError>,

    requires
        locales.wf(),
        table_renders(build),
        forall|template: Template, params: serde_json::Value, locale: Locale|
            call_requires(build, (template, params, locale)),
    ensures
        exists|params: serde_json::Value, page: Result<(String, Option<String>), EngineError>|
            #![trigger localized_for(build, *locales, template_id@, params, optional_text(lang), page)]
            is_null(params) && localized_for(
                build,
                *locales,
                template_id@,
                params,
                optional_text(lang),
                page,
            ) && served_html(page, r),
{
    let params = no_params();
    let page = render_localized(template_id, params, lang, locales, build);
    let r = serve_html(page);
    assert(is_null(params) && localized_for(
        build,
        *locales,
        template_id@,
        params,
        optional_text(lang),
        page,
    ) && served_html(page, r));
    r
}

/// Answers a request for the HTML rendition of a template with the
/// parameters of the request's body.
pub fn render_html_route_post<F>(
    template_id: String,
    lang: Option<String>,
    body: serde_json::Value,
    locales: &Locales,
    build: F,
) -> (r: Result<Rendition, EngineError>) where
    F: FnOnce(Template, serde_json::Value, Locale) -> Result<mrml::mjml::Mjml, TemplateError>,

    requires
        locales.wf(),
        table_renders(build),
        forall|template: Template, locale: Locale|
            call_requires(build, (template, body, locale)),
    ensures
        exists|page: Result<(String, Option<String>), EngineError>|
            #![trigger localized_for(build, *locales, template_id@, body, optional_text(lang), page)]
            localized_for(build, *locales, template_id@, body, optional_text(lang), page)
                && served_html(page, r),
{
    let page = render_localized(template_id, body, lang, locales, build);
    let r = serve_html(page);
    assert(localized_for(build, *locales, template_id@, body, optional_text(lang), page)
        && served_html(page, r));
    r
}

/// Answers a request for the plain-text rendition of a template without
/// parameters: the template is handed the null value.
pub fn render_text_route_get<F>(
    template_id: String,
    lang: Option<String>,
    locales: &Locales,
    build: F,
) -> (r: Result<Rendition, EngineError>) where
    F: FnOnce(Template, serde_json::Value, Locale) -> Result<mrml::mjml::Mjml, TemplateError>,

    requires
        locales.wf(),
        table_renders(build),
        forall|template: Template, params: serde_json::Value, locale: Locale|
            call_requires(build, (template, params, locale)),
    ensures
        exists|params: serde_json::Value, page: Result<(String, Option<String>), EngineError>|
            #![trigger localized_for(build, *locales, template_id@, params, optional_text(lang), page)]
            is_null(params) && localized_for(
                build,
                *locales,
                template_id@,
                params,
                optional_text(lang),
                page,
            ) && served_text(page, r),
{
    let params = no_params();
    let page = render_localized(template_id, params, lang, locales, build);
    let r = serve_text(page);
    assert(is_null(params) && localized_for(
        build,
        *locales,
        template_id@,
        params,
        optional_text(lang),
        page,
    ) && served_text(page, r));
    r
}

/// Answers a request for the plain-text rendition of a template with the
/// parameters of the request's body.
pub fn render_text_route_post<F>(
    template_id: String,
    lang: Option<String>,
    body: serde_json::Value,
    locales: &Locales,
    build: F,
) -> (r: Result<Rendition, EngineError>) where
    F: FnOnce(Template, serde_json::Value, Locale) -> Result<mrml::mjml::Mjml, TemplateError>,

    requires
        locales.wf(),
        table_renders(build),
        forall|template: Template, locale: Locale|
            call_requires(build, (template, body, locale)),
    ensures
        exists|page: Result<(String, Option<String>), EngineError>|
            #![trigger localized_for(build, *locales, template_id@, body, optional_text(lang), page)]
            localized_for(build, *locales, template_id@, body, optional_text(lang), page)
                && served_text(page, r),
{
    let page = render_localized(template_id, body, lang, locales, build);
    let r = serve_text(page);
    assert(localized_for(build, *locales, template_id@, body, optional_text(lang), page)
        && served_text(page, r));
    r
}

} // verus!
