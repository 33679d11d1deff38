use vstd::prelude::*;
use vstd::string::StringExecFns;
use crate::i18n::Language;
use crate::text::{chars_of_str, chars_eq, lower_chars, lower_seq, split_chars, split_on, str_eq, subvec, string_of_chars};

verus! {

/// The persisted user preferences: only the interface language. Reading and
/// writing the preference file is the caller's input/output side.
pub struct Preferences {
    pub language: String,
}

impl Default for Preferences {
    /// Without an environment to consult, the preferences default to English.
    fn default() -> (r: Self)
        ensures
            r.language@ == "en"@,
    {
        Preferences { language: String::from_str("en") }
    }
}

/// The language a stored code names; anything unrecognized falls back to
/// Chinese.
pub open spec fn language_of_stored_code(c: Seq<char>) -> Language {
    if c == "en"@ {
        Language::English
    } else if c == "zh"@ {
        Language::Chinese
    } else if c == "ja"@ {
        Language::Japanese
    } else {
        Language::Chinese
    }
}

impl Preferences {
    pub fn get_language(&self) -> (r: Language)
        ensures
            r == language_of_stored_code(self.language@),
    {
        if str_eq(self.language.as_str(), "en") {
            Language::English
        } else if str_eq(self.language.as_str(), "zh") {
            Language::Chinese
        } else if str_eq(self.language.as_str(), "ja") {
            Language::Japanese
        } else {
            Language::Chinese
        }
    }

    pub fn set_language(&mut self, lang: Language)
        ensures
            final(self).language@ == spec_language_code(lang),
    {
        self.language = lang.code_string();
    }
}

/// The code stored for each language.
pub open spec fn spec_language_code(lang: Language) -> Seq<char> {
    match lang {
        Language::English => "en"@,
        Language::Chinese => "zh"@,
        Language::Japanese => "ja"@,
    }
}

/// The language code inside a locale value such as `zh_CN.UTF-8`: the part
/// before any dot, then before any underscore, lowered.
pub open spec fn locale_language_code(s: Seq<char>) -> Seq<char> {
    lower_seq(split_on(split_on(s, '.')[0], '_')[0])
}

/// The language such a code names; unknown codes read as English.
pub open spec fn language_of_locale_code(c: Seq<char>) -> Language {
    if c == "zh"@ || c == "zh-cn"@ || c == "zh-hans"@ {
        Language::Chinese
    } else if c == "ja"@ || c == "jp"@ {
        Language::Japanese
    } else {
        Language::English
    }
}

/// Read the system locale value that the environment reported.
pub fn detect_system_language(locale: &str) -> (r: Language)
    ensures
        r == language_of_locale_code(locale_language_code(locale@)),
{
    let chars = chars_of_str(locale);
    let dot_parts = split_chars(&chars, '.');
    proof {
        crate::text::lemma_split_on_len(locale@, '.');
        assert(dot_parts@[0]@ =~= split_on(locale@, '.')[0]);
    }
    let us_parts = split_chars(&dot_parts[0], '_');
    proof {
        crate::text::lemma_split_on_len(split_on(locale@, '.')[0], '_');
        assert(us_parts@[0]@ =~= split_on(split_on(locale@, '.')[0], '_')[0]);
    }
    let code = lower_chars(&us_parts[0]);
    let zh = chars_of_str("zh");
    let zh_cn = chars_of_str("zh-cn");
    let zh_hans = chars_of_str("zh-hans");
    let ja = chars_of_str("ja");
    let jp = chars_of_str("jp");
    if chars_eq(&code, &zh) || chars_eq(&code, &zh_cn) || chars_eq(&code, &zh_hans) {
        Language::Chinese
    } else if chars_eq(&code, &ja) || chars_eq(&code, &jp) {
        Language::Japanese
    } else {
        Language::English
    }
}

} // verus!
