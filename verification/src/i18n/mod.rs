//! Localized messages: the supported locales, the message catalog and the
//! filling of `{}` placeholders.

pub mod catalog;
pub mod template;

use vstd::prelude::*;
use crate::text::{ascii_lowercase, owned, str_eq, to_lowercase, lowercase};
use vstd::utf8::is_ascii_chars;
use catalog::{catalog, catalog_entry, lemma_catalog_consistent, lemma_catalog_injective};
use template::{fill, fill_placeholders, placeholder_count, views_of};

verus! {

/// A language the messages are available in.
#[derive(Debug, Clone, Copy, PartialEq, Eq, Structural)]
pub enum Locale {
    En,
    ZhTw,
    ZhCn,
}

/// The locale that an already lowercased name stands for; English for any
/// name that is not recognized.
pub open spec fn locale_named(name: Seq<char>) -> Locale {
    if name == "zh-tw"@ || name == "zh-hant"@ || name == "zh-hant-tw"@ {
        Locale::ZhTw
    } else if name == "zh-cn"@ || name == "zh-hans"@ || name == "zh"@ {
        Locale::ZhCn
    } else {
        Locale::En
    }
}

/// The tag of a locale.
pub open spec fn locale_tag(locale: Locale) -> Seq<char> {
    match locale {
        Locale::En => "en"@,
        Locale::ZhTw => "zh-tw"@,
        Locale::ZhCn => "zh-cn"@,
    }
}

/// The catalog text of `key` in `locale`, when the catalog knows the key.
pub open spec fn localized(locale: Locale, key: Seq<char>) -> Option<Seq<char>> {
    match catalog(key) {
        Some(t) => Some(
            match locale {
                Locale::En => t.0,
                Locale::ZhTw => t.1,
                Locale::ZhCn => t.2,
            },
        ),
        None => None,
    }
}

/// What a lookup of `key` shows in `locale`: its localized text, or the key itself.
pub open spec fn text_for(locale: Locale, key: Seq<char>) -> Seq<char> {
    match localized(locale, key) {
        Some(t) => t,
        None => key,
    }
}

impl Default for Locale {
    fn default() -> (r: Self)
        ensures
            r == Locale::En,
    {
        Locale::En
    }
}

impl Locale {
    /// Parses a locale name, ignoring case; unknown names give English.
    pub fn from_str(s: &str) -> (r: Locale)
        ensures
            r == locale_named(lowercase(s@)),
            is_ascii_chars(s@) ==> r == locale_named(ascii_lowercase(s@)),
    {
        let lower = to_lowercase(s);
        Locale::from_lowercase(lower.as_str())
    }

    /// The locale that an already lowercased name stands for.
    pub fn from_lowercase(name: &str) -> (r: Locale)
        ensures
            r == locale_named(name@),
            r == Locale::ZhCn ==> name@ == "zh-cn"@ || name@ == "zh-hans"@ || name@ == "zh"@,
            r == Locale::ZhTw ==> name@ == "zh-tw"@ || name@ == "zh-hant"@ || name@ == "zh-hant-tw"@,
    {
        proof {
            law_locale_names(name@);
        }
        if str_eq(name, "zh-tw") || str_eq(name, "zh-hant") || str_eq(name, "zh-hant-tw") {
            Locale::ZhTw
        } else if str_eq(name, "zh-cn") || str_eq(name, "zh-hans") || str_eq(name, "zh") {
            Locale::ZhCn
        } else {
            Locale::En
        }
    }

    /// The locale named by the value of the locale environment variable, when
    /// it is set; English otherwise.
    pub fn from_env_value(value: Option<String>) -> (r: Locale)
        ensures
            r == match value {
                Some(v) => locale_named(lowercase(v@)),
                None => Locale::En,
            },
    {
        match value {
            Some(v) => Locale::from_str(v.as_str()),
            None => Locale::default(),
        }
    }

    /// The tag of the locale.
    pub fn as_str(&self) -> (r: &'static str)
        ensures
            r@ == locale_tag(*self),
    {
        match self {
            Locale::En => "en",
            Locale::ZhTw => "zh-tw",
            Locale::ZhCn => "zh-cn",
        }
    }
}

/// The text of `key` in `locale`, or the key itself when the catalog does not know it.
pub fn lookup(locale: Locale, key: &str) -> (r: String)
    ensures
        r@ == text_for(locale, key@),
{
    match catalog_entry(key) {
        Some(t) => match locale {
            Locale::En => owned(t.0),
            Locale::ZhTw => owned(t.1),
            Locale::ZhCn => owned(t.2),
        },
        None => owned(key),
    }
}

/// A message localizer for one locale.
#[derive(Debug, Clone)]
pub struct I18n {
    locale: Locale,
}

impl Default for I18n {
    fn default() -> (r: Self)
        ensures
            r.locale() == Locale::En,
    {
        I18n { locale: Locale::En }
    }
}

impl I18n {
    /// The locale messages are given in.
    pub closed spec fn locale(&self) -> Locale {
        self.locale
    }

    pub fn new(locale: Locale) -> (r: Self)
        ensures
            r.locale() == locale,
    {
        I18n { locale }
    }

    /// The localizer for the locale named by the locale environment variable's value.
    pub fn from_env_value(value: Option<String>) -> (r: Self)
        ensures
            r.locale() == match value {
                Some(v) => locale_named(lowercase(v@)),
                None => Locale::En,
            },
    {
        I18n { locale: Locale::from_env_value(value) }
    }

    pub fn set_locale(&mut self, locale: Locale)
        ensures
            final(self).locale() == locale,
    {
        self.locale = locale;
    }

    /// The text of `key` in this localizer's locale, or the key itself.
    pub fn t(&self, key: &str) -> (r: String)
        ensures
            r@ == text_for(self.locale(), key@),
    {
        lookup(self.locale, key)
    }

    /// The text of `key` with its `{}` placeholders filled by `args`, in order.
    pub fn t_with_args(&self, key: &str, args: &[String]) -> (r: String)
        ensures
            r@ == fill_placeholders(text_for(self.locale(), key@), views_of(args@)),
    {
        let template = self.t(key);
        if args.len() == 0 {
            template
        } else {
            fill(template, args)
        }
    }
}

/// The text of `key` in the process-wide `locale`, or the key itself.
pub fn tr(locale: Locale, key: &str) -> (r: String)
    ensures
        r@ == text_for(locale, key@),
{
    lookup(locale, key)
}

/// The text of `key` in the process-wide `locale`, with its placeholders filled by `args`.
pub fn tr_with_args(locale: Locale, key: &str, args: &[String]) -> (r: String)
    ensures
        r@ == fill_placeholders(text_for(locale, key@), views_of(args@)),
{
    let template = tr(locale, key);
    if args.len() == 0 {
        template
    } else {
        fill(template, args)
    }
}

/// A key has a text in one locale exactly when it has one in every locale.
pub proof fn law_catalog_same_keys(key: Seq<char>, a: Locale, b: Locale)
    ensures
        localized(a, key) is Some <==> localized(b, key) is Some,
{
}

/// Every key of the catalog has a text in every locale; that text differs
/// from the key and holds as many `{}` placeholders as the English text.
pub proof fn law_catalog_complete(key: Seq<char>, locale: Locale)
    requires
        catalog(key) is Some,
    ensures
        localized(locale, key) is Some,
        text_for(locale, key) != key,
        placeholder_count(text_for(locale, key)) == placeholder_count(text_for(Locale::En, key)),
{
    lemma_catalog_consistent(key);
}

/// A key the catalog does not know is shown as itself, in every locale.
pub proof fn law_unknown_key_shown_as_is(locale: Locale, key: Seq<char>)
    requires
        catalog(key) is None,
    ensures
        text_for(locale, key) == key,
{
}

/// A locale's tag names that locale again.
pub proof fn law_tag_names_its_locale(locale: Locale)
    ensures
        locale_named(locale_tag(locale)) == locale,
{
    reveal_strlit("en");
    reveal_strlit("zh-tw");
    reveal_strlit("zh-cn");
    reveal_strlit("zh-hant");
    reveal_strlit("zh-hant-tw");
    reveal_strlit("zh-hans");
    reveal_strlit("zh");
    assert("en"@.len() == 2);
    assert("zh"@.len() == 2);
    assert("zh"@[0] == 'z');
    assert("en"@[0] == 'e');
    assert("zh-tw"@.len() == 5);
    assert("zh-cn"@.len() == 5);
    assert("zh-hant"@.len() == 7);
    assert("zh-hans"@.len() == 7);
    assert("zh-hant-tw"@.len() == 10);
    assert("zh-tw"@[3] == 't');
    assert("zh-cn"@[3] == 'c');
    assert("en"@ != "zh"@);
    assert("zh-cn"@ != "zh-tw"@);
}

/// Filling without arguments gives the text of the key unchanged, so that
/// `t_with_args` with no arguments agrees with `t`.
pub proof fn law_no_arguments_is_plain_lookup(locale: Locale, key: Seq<char>)
    ensures
        fill_placeholders(text_for(locale, key), views_of(Seq::<String>::empty())) == text_for(locale, key),
{
    assert(views_of(Seq::<String>::empty()) =~= Seq::<Seq<char>>::empty());
}

/// Distinct keys of the catalog show distinct texts, in every locale: no key
/// shows the text of another.
pub proof fn law_catalog_injective(key: Seq<char>, other: Seq<char>, locale: Locale)
    requires
        catalog(key) is Some,
        catalog(other) is Some,
        key != other,
    ensures
        text_for(locale, key) != text_for(locale, other),
{
    lemma_catalog_injective(key, other);
}

/// Exactly the names `zh-tw`, `zh-hant` and `zh-hant-tw` name Traditional
/// Chinese, exactly `zh-cn`, `zh-hans` and `zh` name Simplified Chinese, and
/// every other name gives English.
pub proof fn law_locale_names(name: Seq<char>)
    ensures
        locale_named(name) == Locale::ZhTw <==> (name == "zh-tw"@ || name == "zh-hant"@ || name
            == "zh-hant-tw"@),
        locale_named(name) == Locale::ZhCn <==> (name == "zh-cn"@ || name == "zh-hans"@ || name
            == "zh"@),
        locale_named(name) == Locale::En <==> !(name == "zh-tw"@ || name == "zh-hant"@ || name
            == "zh-hant-tw"@ || name == "zh-cn"@ || name == "zh-hans"@ || name == "zh"@),
{
    reveal_strlit("zh-tw");
    reveal_strlit("zh-hant");
    reveal_strlit("zh-hant-tw");
    reveal_strlit("zh-cn");
    reveal_strlit("zh-hans");
    reveal_strlit("zh");
    assert("zh-tw"@.len() == 5);
    assert("zh-cn"@.len() == 5);
    assert("zh-hant"@.len() == 7);
    assert("zh-hans"@.len() == 7);
    assert("zh-hant-tw"@.len() == 10);
    assert("zh"@.len() == 2);
    assert("zh-tw"@[3] != "zh-cn"@[3]);
    assert("zh-hant"@[6] != "zh-hans"@[6]);
}

} // verus!
