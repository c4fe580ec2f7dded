//! Locale codes: which ones the service offers, and how the optional code of
//! a request is resolved to one of them.

use vstd::prelude::*;
use crate::render::EngineError;
use crate::render::EngineFault;
use crate::strings::texts;

verus! {

/// Whether `c` has Unicode's `White_Space` property.
pub open spec fn is_white_space(c: char) -> bool {
    let n = c as u32;
    ||| 0x09 <= n <= 0x0D
    ||| n == 0x20
    ||| n == 0x85
    ||| n == 0xA0
    ||| n == 0x1680
    ||| 0x2000 <= n <= 0x200A
    ||| n == 0x2028
    ||| n == 0x2029
    ||| n == 0x202F
    ||| n == 0x205F
    ||| n == 0x3000
}

/// `s` without the white space at its start.
pub open spec fn trim_start(s: Seq<char>) -> Seq<char>
    decreases s.len(),
{
    if s.len() > 0 && is_white_space(s.first()) {
        trim_start(s.drop_first())
    } else {
        s
    }
}

/// `s` without the white space at its end.
pub open spec fn trim_end(s: Seq<char>) -> Seq<char>
    decreases s.len(),
{
    if s.len() > 0 && is_white_space(s.last()) {
        trim_end(s.drop_last())
    } else {
        s
    }
}

/// `s` without the white space at either end.
pub open spec fn trimmed(s: Seq<char>) -> Seq<char> {
    trim_end(trim_start(s))
}

/// A code that can stand in a table of locales: it is not empty and carries
/// no white space at either end, so that it is found under its own spelling.
pub open spec fn clean(code: Seq<char>) -> bool {
    code.len() > 0 && trimmed(code) == code
}

/// Trusted: `str::trim` of std, which returns the slice that is left when
/// leading and trailing characters with the `White_Space` property are
/// removed.
#[verifier::external_body]
fn trim(code: &str) -> (rest: &str)
    ensures
        rest@ == trimmed(code@),
{
    code.trim()
}

/// A locale of the service, known by its code.
#[derive(Debug)]
pub struct Locale {
    code: String,
}

impl View for Locale {
    type V = Seq<char>;

    closed spec fn view(&self) -> Seq<char> {
        self.code@
    }
}

impl Clone for Locale {
    fn clone(&self) -> (copy: Locale)
        ensures
            copy@ == self@,
    {
        Locale { code: self.code.clone() }
    }
}

impl Locale {
    /// The code of the locale.
    pub fn as_str(&self) -> (code: &str)
        ensures
            code@ == self@,
    {
        self.code.as_str()
    }
}

/// The locales that the service offers, in the order in which they were
/// configured, and the one that is used when a request names none.
#[derive(Debug)]
pub struct Locales {
    codes: Vec<String>,
    base: usize,
}

impl Locales {
    /// The codes of the locales on offer, in order.
    pub closed spec fn codes(&self) -> Seq<Seq<char>> {
        texts(self.codes@)
    }

    /// The position of the default locale among the codes.
    pub closed spec fn base(&self) -> int {
        self.base as int
    }

    /// The table names its default locale, and every code in it is clean.
    pub open spec fn wf(&self) -> bool {
        &&& 0 <= self.base() < self.codes().len()
        &&& forall|i: int| 0 <= i < self.codes().len() ==> clean(#[trigger] self.codes()[i])
    }

    /// The code of the default locale.
    pub open spec fn default_code(&self) -> Seq<char> {
        self.codes()[self.base()]
    }

    /// The locale that a request's optional code stands for: the default one
    /// when the code is absent or empty, the one spelled like the code
    /// without the white space around it when there is one, and otherwise
    /// none, in which case the code is handed back as it was given.
    pub open spec fn resolved(&self, lang: Option<Seq<char>>) -> Result<Seq<char>, Seq<char>> {
        match lang {
            None => Ok(self.default_code()),
            Some(code) => if code.len() == 0 {
                Ok(self.default_code())
            } else if self.codes().contains(trimmed(code)) {
                Ok(trimmed(code))
            } else {
                Err(code)
            },
        }
    }

    /// A table of the given codes whose default is the one at `base`. There
    /// is no such table when `base` is not a position in `codes`, or when a
    /// code is empty or has white space at either end.
    pub fn new(codes: Vec<String>, base: usize) -> (made: Option<Locales>)
        ensures
            made is Some <==> base < codes.len() && forall|i: int|
                0 <= i < codes.len() ==> clean(#[trigger] codes[i]@),
            made matches Some(table) ==> (table.wf() && table.codes() == texts(codes@)
                && table.base() == base),
    {
        if base >= codes.len() {
            return None;
        }
        let mut i: usize = 0;
        while i < codes.len()
            invariant
                i <= codes.len(),
                forall|j: int| 0 <= j < i ==> clean(#[trigger] codes[j]@),
            decreases codes.len() - i,
        {
            let code = codes[i].as_str();
            if code.is_empty() || !trim(code).eq(code) {
                return None;
            }
            i = i + 1;
        }
        Some(Locales { codes, base })
    }

    /// The codes of the locales on offer, in order.
    pub fn all_codes(&self) -> (codes: &Vec<String>)
        ensures
            texts(codes@) == self.codes(),
    {
        &self.codes
    }

    /// The default locale.
    pub fn default_locale(&self) -> (locale: Locale)
        requires
            self.wf(),
        ensures
            locale@ == self.default_code(),
    {
        Locale { code: self.codes[self.base].clone() }
    }

    /// The locale spelled `code`, if the table offers it.
    pub fn find(&self, code: &str) -> (found: Option<Locale>)
        ensures
            found is Some <==> self.codes().contains(code@),
            found matches Some(locale) ==> locale@ == code@,
    {
        let mut i: usize = 0;
        while i < self.codes.len()
            invariant
                i <= self.codes.len(),
                forall|j: int| 0 <= j < i ==> self.codes()[j] != code@,
            decreases self.codes.len() - i,
        {
            if self.codes[i].as_str().eq(code) {
                assert(self.codes()[i as int] == code@);
                return Some(Locale { code: self.codes[i].clone() });
            }
            i = i + 1;
        }
        None
    }
}

/// The view of an optional string.
pub open spec fn optional_text(text: Option<String>) -> Option<Seq<char>> {
    match text {
        None => None,
        Some(text) => Some(text@),
    }
}

/// Resolves the optional locale code of a request. Without a code, or with
/// an empty one, the default locale is used. A code that names no locale on
/// offer is rejected as a bad language code, which carries the code as it
/// was given.
pub fn locale_from_optional_code(lang: Option<String>, locales: &Locales) -> (r: Result<
    Locale,
    EngineError,
>)
    requires
        locales.wf(),
    ensures
        match locales.resolved(optional_text(lang)) {
            Ok(code) => r matches Ok(locale) && locale@ == code,
            Err(code) => r matches Err(e) && e@ == EngineFault::BadLanguageCode(code),
        },
{
    match lang {
        None => Ok(locales.default_locale()),
        Some(code) => {
            if code.as_str().is_empty() {
                Ok(locales.default_locale())
            } else {
                match locales.find(trim(code.as_str())) {
                    Some(locale) => Ok(locale),
                    None => Err(EngineError::BadLanguageCode(code)),
                }
            }
        },
    }
}

/// A request without a locale code is served in the same locale as a
/// request that spells out the code of the default locale.
pub proof fn lemma_absent_code_means_default(locales: Locales)
    requires
        locales.wf(),
    ensures
        locales.resolved(None) == locales.resolved(Some(locales.default_code())),
        locales.resolved(None) == Ok::<Seq<char>, Seq<char>>(locales.default_code()),
{
    let code = locales.default_code();
    assert(clean(locales.codes()[locales.base()]));
    assert(locales.codes().contains(code));
}

/// Every code on offer resolves to itself.
pub proof fn lemma_offered_code_resolves(locales: Locales, i: int)
    requires
        locales.wf(),
        0 <= i < locales.codes().len(),
    ensures
        locales.resolved(Some(locales.codes()[i])) == Ok::<Seq<char>, Seq<char>>(
            locales.codes()[i],
        ),
{
    assert(clean(locales.codes()[i]));
    assert(locales.codes().contains(locales.codes()[i]));
}

} // verus!
