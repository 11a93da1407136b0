//! The closed set of display languages.

use vstd::prelude::*;

verus! {

#[derive(Clone, Copy, Debug, PartialEq, Eq, Structural)]
pub enum Language {
    English,
    Chinese,
    French,
    Japanese,
    Spanish,
}

pub open spec fn spec_next_language(l: Language) -> Language {
    match l {
        Language::English => Language::Chinese,
        Language::Chinese => Language::French,
        Language::French => Language::Japanese,
        Language::Japanese => Language::Spanish,
        Language::Spanish => Language::English,
    }
}

pub open spec fn spec_language_label(l: Language) -> Seq<char> {
    match l {
        Language::English => "English"@,
        Language::Chinese => "中文"@,
        Language::French => "Français"@,
        Language::Japanese => "日本語"@,
        Language::Spanish => "Español"@,
    }
}

impl Language {
    /// The next language in the fixed cycling order.
    pub fn next(&self) -> (n: Language)
        ensures
            n == spec_next_language(*self),
    {
        match self {
            Language::English => Language::Chinese,
            Language::Chinese => Language::French,
            Language::French => Language::Japanese,
            Language::Japanese => Language::Spanish,
            Language::Spanish => Language::English,
        }
    }

    /// The display name of the language, in that language.
    pub fn name(&self) -> (r: &'static str)
        ensures
            r@ == spec_language_label(*self),
    {
        match self {
            Language::English => "English",
            Language::Chinese => "中文",
            Language::French => "Français",
            Language::Japanese => "日本語",
            Language::Spanish => "Español",
        }
    }
}

} // verus!
