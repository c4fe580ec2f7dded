//! How the plain-text rendition marks up what HTML expresses with tags:
//! links as numbered references with their targets in footnotes, emphasis
//! with asterisks, headings with number signs, list items with a prefix.

use vstd::prelude::*;
use vstd::string::StringExecFns;
use crate::strings::decimal;
use crate::strings::push_decimal;
use crate::strings::push_signed_decimal;
use crate::strings::repeat;
use crate::strings::repeated;
use crate::strings::signed_decimal;

verus! {

/// Trusted: `html2text::render::TaggedLine`, a line of text in pieces, each
/// with a tag.
#[verifier::external_type_specification]
#[verifier::external_body]
#[verifier::reject_recursive_types(T)]
pub struct ExTaggedLine<T>(html2text::render::TaggedLine<T>);

/// How a piece of text is to be read.
#[derive(Clone, Copy, Debug, PartialEq, Eq, Structural)]
pub enum TextMode {
    /// The text of a link.
    Link,
    /// Anything else.
    Default,
}

impl Default for TextMode {
    fn default() -> (mode: TextMode)
        ensures
            mode == TextMode::Default,
    {
        TextMode::Default
    }
}

/// The pieces of a line in order: the text of each with its tag.
pub uninterp spec fn tagged_text(line: html2text::render::TaggedLine<TextMode>) -> Seq<
    (Seq<char>, TextMode),
>;

/// Trusted: `TaggedLine::from_string` of html2text, a line of one piece
/// that holds the given text under the given tag.
#[verifier::external_body]
fn tagged_line(text: String, tag: &TextMode) -> (line: html2text::render::TaggedLine<TextMode>)
    ensures
        tagged_text(line) == seq![(text@, *tag)],
{
    html2text::render::TaggedLine::from_string(text, tag)
}

/// The alternative text by which the service's own logo is known. An image
/// that carries it is decoration and leaves no trace in the text.
pub const LOGO_MARKER: &'static str = "MusicBrainz";

/// The reference that closes the `n`-th link of a document.
pub open spec fn link_reference(n: nat) -> Seq<char> {
    "]["@ + decimal(n) + "]"@
}

/// What stands for an image with the alternative text `title`: nothing for
/// the logo, the text in square brackets otherwise.
pub open spec fn image_text(title: Seq<char>) -> Seq<char> {
    if title == LOGO_MARKER@ {
        Seq::empty()
    } else {
        "["@ + title + "]"@
    }
}

/// The prefix of a heading of the given level: one number sign per level,
/// then a space.
pub open spec fn heading_prefix(level: nat) -> Seq<char> {
    repeated("#"@, level) + " "@
}

/// The prefix of the item numbered `i` of an ordered list.
pub open spec fn item_prefix(i: int) -> Seq<char> {
    signed_decimal(i) + ". "@
}

/// The footnote of the link at position `index` among the links of a
/// document, counted from zero: its number, counted from one, and its
/// target.
pub open spec fn footnote(index: nat, url: Seq<char>) -> Seq<char> {
    "["@ + decimal(index + 1) + "]: "@ + url
}

/// Decorates the plain-text rendition of a page. It counts the links it has
/// opened, so that each can be closed with its number.
#[derive(Debug)]
pub struct PlainDecorator {
    nlinks: usize,
}

impl Clone for PlainDecorator {
    fn clone(&self) -> (copy: PlainDecorator)
        ensures
            copy.links() == self.links(),
    {
        PlainDecorator { nlinks: self.nlinks }
    }
}

impl PlainDecorator {
    /// The number of links opened so far.
    pub closed spec fn links(&self) -> nat {
        self.nlinks as nat
    }

    /// The number of links opened so far.
    pub fn link_count(&self) -> (count: usize)
        ensures
            count == self.links(),
    {
        self.nlinks
    }

    /// Create a new `PlainDecorator`, which has opened no link.
    pub fn new() -> (decorator: PlainDecorator)
        ensures
            decorator.links() == 0,
    {
        PlainDecorator { nlinks: 0 }
    }

    /// Opens a link: an opening bracket, tagged as link text. The link is
    /// counted.
    pub fn decorate_link_start(&mut self, _url: &str) -> (start: (String, TextMode))
        requires
            old(self).links() < usize::MAX,
        ensures
            final(self).links() == old(self).links() + 1,
            start.0@ == "["@,
            start.1 == TextMode::Link,
    {
        self.nlinks = self.nlinks + 1;
        ("[".to_owned(), TextMode::Link)
    }

    /// Closes a link with a reference to the footnote of the link opened
    /// last.
    pub fn decorate_link_end(&mut self) -> (end: String)
        ensures
            final(self).links() == old(self).links(),
            end@ == link_reference(old(self).links()),
    {
        let mut end = "][".to_owned();
        push_decimal(&mut end, self.nlinks as u64);
        end.append("]");
        end
    }

    /// Opens emphasis: one asterisk.
    pub fn decorate_em_start(&self) -> (start: (String, TextMode))
        ensures
            start.0@ == "*"@,
            start.1 == TextMode::Default,
    {
        ("*".to_owned(), TextMode::Default)
    }

    /// Closes emphasis: one asterisk.
    pub fn decorate_em_end(&self) -> (end: String)
        ensures
            end@ == "*"@,
    {
        "*".to_owned()
    }

    /// Opens strong emphasis: two asterisks.
    pub fn decorate_strong_start(&self) -> (start: (String, TextMode))
        ensures
            start.0@ == "**"@,
            start.1 == TextMode::Default,
    {
        ("**".to_owned(), TextMode::Default)
    }

    /// Closes strong emphasis: two asterisks.
    pub fn decorate_strong_end(&self) -> (end: String)
        ensures
            end@ == "**"@,
    {
        "**".to_owned()
    }

    /// Opens struck-out text, which is not marked.
    pub fn decorate_strikeout_start(&self) -> (start: (String, TextMode))
        ensures
            start.0@ == ""@,
            start.1 == TextMode::Default,
    {
        ("".to_owned(), TextMode::Default)
    }

    /// Closes struck-out text, which is not marked.
    pub fn decorate_strikeout_end(&self) -> (end: String)
        ensures
            end@ == ""@,
    {
        "".to_owned()
    }

    /// Opens code: a backtick.
    pub fn decorate_code_start(&self) -> (start: (String, TextMode))
        ensures
            start.0@ == "`"@,
            start.1 == TextMode::Default,
    {
        ("`".to_owned(), TextMode::Default)
    }

    /// Closes code: a backtick.
    pub fn decorate_code_end(&self) -> (end: String)
        ensures
            end@ == "`"@,
    {
        "`".to_owned()
    }

    /// The tag of the first line of preformatted text.
    pub fn decorate_preformat_first(&self) -> (mode: TextMode)
        ensures
            mode == TextMode::Default,
    {
        TextMode::Default
    }

    /// The tag of a further line of preformatted text.
    pub fn decorate_preformat_cont(&self) -> (mode: TextMode)
        ensures
            mode == TextMode::Default,
    {
        TextMode::Default
    }

    /// Stands in for an image: its alternative text in square brackets,
    /// and nothing at all for the logo.
    pub fn decorate_image(&mut self, _src: &str, title: &str) -> (image: (String, TextMode))
        ensures
            final(self).links() == old(self).links(),
            image.0@ == image_text(title@),
            image.1 == TextMode::Default,
    {
        if title.eq(LOGO_MARKER) {
            (String::new(), TextMode::Default)
        } else {
            let mut text = "[".to_owned();
            text.append(title);
            text.append("]");
            (text, TextMode::Default)
        }
    }

    /// The prefix of a heading of the given level.
    pub fn header_prefix(&self, level: usize) -> (prefix: String)
        ensures
            prefix@ == heading_prefix(level as nat),
    {
        let mut prefix = repeat("#", level);
        prefix.append(" ");
        prefix
    }

    /// The prefix of a quoted line.
    pub fn quote_prefix(&self) -> (prefix: String)
        ensures
            prefix@ == "> "@,
    {
        "> ".to_owned()
    }

    /// The prefix of an item of an unordered list.
    pub fn unordered_item_prefix(&self) -> (prefix: String)
        ensures
            prefix@ == "* "@,
    {
        "* ".to_owned()
    }

    /// The prefix of the item numbered `i` of an ordered list.
    pub fn ordered_item_prefix(&self, i: i64) -> (prefix: String)
        ensures
            prefix@ == item_prefix(i as int),
    {
        let mut prefix = String::new();
        push_signed_decimal(&mut prefix, i);
        prefix.append(". ");
        prefix
    }

    /// Closes a document: one footnote for each link target, in the order
    /// given and numbered from one, each a line of its own.
    pub fn finalise(&mut self, links: Vec<String>) -> (lines: Vec<
        html2text::render::TaggedLine<TextMode>,
    >)
        ensures
            final(self).links() == old(self).links(),
            lines@.len() == links@.len(),
            forall|i: int|
                0 <= i < links@.len() ==> tagged_text(#[trigger] lines@[i]) == seq![
                    (footnote(i as nat, links@[i]@), TextMode::Default),
                ],
    {
        let mut lines: Vec<html2text::render::TaggedLine<TextMode>> = Vec::new();
        let mut idx: usize = 0;
        while idx < links.len()
            invariant
                idx <= links.len(),
                lines@.len() == idx,
                forall|i: int|
                    0 <= i < idx ==> tagged_text(#[trigger] lines@[i]) == seq![
                        (footnote(i as nat, links@[i]@), TextMode::Default),
                    ],
            decreases links.len() - idx,
        {
            let mut text = "[".to_owned();
            push_decimal(&mut text, (idx + 1) as u64);
            text.append("]: ");
            text.append(links[idx].as_str());
            let tag = TextMode::Default;
            lines.push(tagged_line(text, &tag));
            idx = idx + 1;
        }
        lines
    }

    /// A decorator for a block inside the current one. It starts from the
    /// count of this decorator.
    pub fn make_subblock_decorator(&self) -> (inner: PlainDecorator)
        ensures
            inner.links() == self.links(),
    {
        self.clone()
    }

    /// Opens superscript text.
    pub fn decorate_superscript_start(&self) -> (start: (String, TextMode))
        ensures
            start.0@ == "^{"@,
            start.1 == TextMode::Default,
    {
        ("^{".to_owned(), TextMode::Default)
    }

    /// Closes superscript text.
    pub fn decorate_superscript_end(&self) -> (end: String)
        ensures
            end@ == "}"@,
    {
        "}".to_owned()
    }
}

} // verus!
