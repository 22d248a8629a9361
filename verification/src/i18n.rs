use vstd::prelude::*;

verus! {

/// The language the user picked for the interface.
#[derive(Clone, Copy, PartialEq, Eq, Debug, Structural)]
pub enum UiLanguage {
    /// Follow the operating system's locale.
    System,
    /// English.
    English,
    /// Russian.
    Russian,
}

impl Default for UiLanguage {
    fn default() -> (r: Self)
        ensures
            r == UiLanguage::System,
    {
        UiLanguage::System
    }
}

/// The locales the interface is translated into.
#[derive(Clone, Copy, PartialEq, Eq, Debug, Structural)]
pub enum SupportedLocale {
    /// English (United States), `en-US`; also the fallback.
    EnUs,
    /// Russian (Russia), `ru-RU`.
    RuRu,
}

impl SupportedLocale {
    /// The locale's language tag.
    pub open spec fn spec_tag(self) -> Seq<char> {
        match self {
            SupportedLocale::EnUs => "en-US"@,
            SupportedLocale::RuRu => "ru-RU"@,
        }
    }

    /// The locale's language tag, `en-US` or `ru-RU`.
    pub fn tag(self) -> (t: &'static str)
        ensures
            t@ == self.spec_tag(),
    {
        match self {
            SupportedLocale::EnUs => "en-US",
            SupportedLocale::RuRu => "ru-RU",
        }
    }
}

/// The language subtag of the BCP 47 identifier that
/// `unic_langid::LanguageIdentifier::from_str` parses from the text, or
/// `None` where it refuses the text.
pub uninterp spec fn language_subtag(locale: Seq<char>) -> Option<Seq<char>>;

/// Parses `locale` with `unic_langid::LanguageIdentifier::from_str` and hands
/// back the language subtag of the identifier (`Language::as_str`), or `None`
/// where the parser refuses the text. The contract names the result
/// `language_subtag(locale@)` and says nothing more of it.
#[verifier::external_body]
fn parse_language_subtag(locale: &str) -> (subtag: Option<String>)
    ensures
        match subtag {
            Some(s) => language_subtag(locale@) == Some(s@),
            None => language_subtag(locale@) is None,
        },
{
    match locale.parse::<unic_langid::LanguageIdentifier>() {
        Ok(id) => Some(id.language.as_str().to_string()),
        Err(_) => None,
    }
}

/// The character in ASCII lower case; other characters stay.
pub open spec fn ascii_lower(c: char) -> char {
    if 'A' <= c <= 'Z' {
        ((c as u32) + 32) as char
    } else {
        c
    }
}

/// Whether the text starts with `ru` in any ASCII letter case.
pub open spec fn starts_with_ru(s: Seq<char>) -> bool {
    s.len() >= 2 && ascii_lower(s[0]) == 'r' && ascii_lower(s[1]) == 'u'
}

/// The supported locale for a system locale whose parsed language subtag is
/// `subtag`: Russian when the subtag is `ru`, or else when the text starts
/// with `ru` in any case; English otherwise.
pub open spec fn supported_locale(subtag: Option<Seq<char>>, locale: Seq<char>) -> SupportedLocale {
    if subtag == Some("ru"@) || starts_with_ru(locale) {
        SupportedLocale::RuRu
    } else {
        SupportedLocale::EnUs
    }
}

/// Whether the string is `ru`.
fn is_ru(s: &str) -> (b: bool)
    ensures
        b == (s@ == "ru"@),
{
    proof {
        reveal_strlit("ru");
    }
    if s.unicode_len() != 2 {
        return false;
    }
    let first = s.get_char(0);
    let second = s.get_char(1);
    let b = first == 'r' && second == 'u';
    proof {
        if b {
            assert(s@ =~= "ru"@);
        }
    }
    b
}

/// The supported locale for a system locale, given the language subtag the
/// identifier parser found in it (`None` where it refused the text).
pub fn supported_locale_from(subtag: Option<String>, locale: &str) -> (l: SupportedLocale)
    ensures
        l == supported_locale(
            match subtag {
                Some(s) => Some(s@),
                None => None,
            },
            locale@,
        ),
{
    let parsed_ru = match &subtag {
        Some(s) => is_ru(s.as_str()),
        None => false,
    };
    if parsed_ru {
        return SupportedLocale::RuRu;
    }
    let n = locale.unicode_len();
    if n >= 2 {
        let first = locale.get_char(0);
        let second = locale.get_char(1);
        if (first == 'r' || first == 'R') && (second == 'u' || second == 'U') {
            return SupportedLocale::RuRu;
        }
    }
    SupportedLocale::EnUs
}

/// The supported locale for the system locale `locale`: Russian when it is
/// a Russian language identifier or starts with `ru` in any case, English
/// otherwise.
pub fn parse_locale_to_supported(locale: &str) -> (l: SupportedLocale)
    ensures
        l == supported_locale(language_subtag(locale@), locale@),
{
    let subtag = parse_language_subtag(locale);
    supported_locale_from(subtag, locale)
}

/// The locale to use for the user's choice, where `system_locale` is the
/// operating system's locale.
pub fn resolve_language(selection: UiLanguage, system_locale: &str) -> (l: SupportedLocale)
    ensures
        selection == UiLanguage::System ==> l == supported_locale(
            language_subtag(system_locale@),
            system_locale@,
        ),
        selection == UiLanguage::English ==> l == SupportedLocale::EnUs,
        selection == UiLanguage::Russian ==> l == SupportedLocale::RuRu,
{
    match selection {
        UiLanguage::System => parse_locale_to_supported(system_locale),
        UiLanguage::English => SupportedLocale::EnUs,
        UiLanguage::Russian => SupportedLocale::RuRu,
    }
}

/// A system locale is taken as Russian exactly when its parsed language is
/// `ru` or its first two characters are `r` and `u` in either case; every
/// other locale falls back to English.
pub proof fn lemma_russian_locales(subtag: Option<Seq<char>>, locale: Seq<char>)
    ensures
        subtag == Some("ru"@) ==> supported_locale(subtag, locale) == SupportedLocale::RuRu,
        locale.len() >= 2 && (locale[0] == 'r' || locale[0] == 'R') && (locale[1] == 'u'
            || locale[1] == 'U') ==> supported_locale(subtag, locale) == SupportedLocale::RuRu,
        subtag != Some("ru"@) && (locale.len() < 2 || (locale[0] != 'r' && locale[0] != 'R')
            || (locale[1] != 'u' && locale[1] != 'U')) ==> supported_locale(subtag, locale)
            == SupportedLocale::EnUs,
{
}

} // verus!
