//! The locale of a request: a country and an optional language, which
//! together select the subdomain that serves it.

use vstd::prelude::*;

verus! {

/// A country code (or `world`) and an optional language code.
///
/// The codes are taken as given: lowercase ISO 3166-1 alpha-2 and ISO 639-1
/// codes are expected, and nothing else is checked here. A code that cannot
/// stand in a host name makes URL composition fail later.
#[derive(Debug, Clone, PartialEq, Eq)]
pub struct Locale {
    /// The country code, or `world`.
    pub country: String,
    /// The language code, if any.
    pub language: Option<String>,
}

/// Whether `c` is a lowercase letter of the basic Latin alphabet.
pub open spec fn is_lowercase_letter(c: char) -> bool {
    'a' as u32 <= c as u32 && c as u32 <= 'z' as u32
}

/// Whether `s` has the shape of an ISO two-letter code in lowercase.
pub open spec fn is_code(s: Seq<char>) -> bool {
    s.len() == 2 && is_lowercase_letter(s[0]) && is_lowercase_letter(s[1])
}

/// Whether `s` has the shape of an ISO two-letter code in lowercase.
pub fn is_code_text(s: &str) -> (ok: bool)
    ensures
        ok == is_code(s@),
{
    if s.unicode_len() != 2 {
        return false;
    }
    let first = s.get_char(0) as u32;
    let second = s.get_char(1) as u32;
    'a' as u32 <= first && first <= 'z' as u32 && 'a' as u32 <= second && second <= 'z' as u32
}

/// The subdomain text of a country and an optional language: the country
/// alone, or the country, a hyphen and the language.
pub open spec fn locale_text(country: Seq<char>, language: Option<Seq<char>>) -> Seq<char> {
    match language {
        Some(l) => country + "-"@ + l,
        None => country,
    }
}

impl Locale {
    /// The characters of the language code, if there is one.
    pub open spec fn language_text(&self) -> Option<Seq<char>> {
        match self.language {
            Some(l) => Some(l@),
            None => None,
        }
    }

    /// The subdomain text of this locale.
    pub open spec fn rendered(&self) -> Seq<char> {
        locale_text(self.country@, self.language_text())
    }

    /// Whether this is the locale of the world-wide site.
    pub open spec fn is_world(&self) -> bool {
        self.country@ == "world"@ && self.language is None
    }

    /// Whether the codes have the expected shape: the country is `world` or
    /// a lowercase two-letter code, and the language, if there is one, is a
    /// lowercase two-letter code.
    pub open spec fn well_formed(&self) -> bool {
        &&& self.country@ == "world"@ || is_code(self.country@)
        &&& self.language matches Some(l) ==> is_code(l@)
    }

    /// Whether the codes have the expected shape.
    pub fn is_well_formed(&self) -> (ok: bool)
        ensures
            ok == self.well_formed(),
    {
        let country = crate::text::same_text(self.country.as_str(), "world") || is_code_text(
            self.country.as_str(),
        );
        let language = match &self.language {
            Some(l) => is_code_text(l.as_str()),
            None => true,
        };
        country && language
    }

    /// A locale of the given country and language.
    pub fn new(country: &str, language: Option<&str>) -> (locale: Locale)
        ensures
            locale.country@ == country@,
            locale.language_text() == match language {
                Some(l) => Some(l@),
                None => None,
            },
    {
        let language = match language {
            Some(l) => Some(String::from_str(l)),
            None => None,
        };
        Locale { country: String::from_str(country), language }
    }

    /// The subdomain text of this locale.
    pub fn render(&self) -> (s: String)
        ensures
            s@ == self.rendered(),
    {
        let mut s = self.country.clone();
        match &self.language {
            Some(l) => {
                s.append("-");
                s.append(l.as_str());
            },
            None => {},
        }
        s
    }
}

impl Default for Locale {
    /// The locale of the world-wide site: country `world`, no language.
    fn default() -> (locale: Locale)
        ensures
            locale.is_world(),
            locale.well_formed(),
    {
        Locale { country: String::from_str("world"), language: None }
    }
}

/// Rendering adds nothing but the hyphen: every character of the subdomain
/// text is a character of the country code or of the language code, or the
/// one hyphen between them. No case is changed and no other separator used.
pub proof fn lemma_rendered_chars(locale: Locale, i: int)
    requires
        0 <= i < locale.rendered().len(),
    ensures
        match locale.language {
            Some(l) => {
                let c = locale.country@.len() as int;
                &&& locale.rendered().len() == c + 1 + l@.len()
                &&& i < c ==> locale.rendered()[i] == locale.country@[i]
                &&& i == c ==> locale.rendered()[i] == '-'
                &&& i > c ==> locale.rendered()[i] == l@[i - c - 1]
            },
            None => locale.rendered()[i] == locale.country@[i],
        },
{
    reveal_strlit("-");
}

/// The rendering of a well-formed locale holds lowercase letters and at most
/// one hyphen, the one before the language: no uppercase letter and no other
/// separator.
pub proof fn lemma_well_formed_rendered(locale: Locale, i: int)
    requires
        locale.well_formed(),
        0 <= i < locale.rendered().len(),
    ensures
        is_lowercase_letter(locale.rendered()[i]) || (locale.language is Some && i
            == locale.country@.len() && locale.rendered()[i] == '-'),
{
    reveal_strlit("-");
    reveal_strlit("world");
    lemma_rendered_chars(locale, i);
}

/// The world locale renders as `world`.
pub proof fn lemma_world_rendered(locale: Locale)
    requires
        locale.is_world(),
    ensures
        locale.rendered() == "world"@,
{
}

} // verus!
