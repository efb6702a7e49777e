//! Voice-over locales of the games and their names, codes and folders.

use vstd::prelude::*;
use crate::text::{ascii_lower, str_eq};

verus! {

/// A voice-over language pack.
#[derive(Debug, Clone, Copy, PartialEq, Eq, Hash, Structural)]
pub enum VoiceLocale {
    English,
    Japanese,
    Korean,
    Chinese,
}

/// Display name of a locale.
pub open spec fn locale_name(l: VoiceLocale) -> Seq<char> {
    match l {
        VoiceLocale::English => "English"@,
        VoiceLocale::Japanese => "Japanese"@,
        VoiceLocale::Korean => "Korean"@,
        VoiceLocale::Chinese => "Chinese"@,
    }
}

/// Language code of a locale.
pub open spec fn locale_code(l: VoiceLocale) -> Seq<char> {
    match l {
        VoiceLocale::English => "en-us"@,
        VoiceLocale::Japanese => "ja-jp"@,
        VoiceLocale::Korean => "ko-kr"@,
        VoiceLocale::Chinese => "zh-cn"@,
    }
}

/// Folder that holds the audio of a locale.
pub open spec fn locale_folder(l: VoiceLocale) -> Seq<char> {
    match l {
        VoiceLocale::English => "English(US)"@,
        VoiceLocale::Japanese => "Japanese"@,
        VoiceLocale::Korean => "Korean"@,
        VoiceLocale::Chinese => "Chinese"@,
    }
}

/// The spellings that are recognised as a locale: names, lowercased names,
/// folder names and codes.
pub open spec fn locale_from_text(s: Seq<char>) -> Option<VoiceLocale> {
    if s == "English"@ || s == "english"@ || s == "English(US)"@ || s == "en-us"@ {
        Some(VoiceLocale::English)
    } else if s == "Japanese"@ || s == "japanese"@ || s == "ja-jp"@ {
        Some(VoiceLocale::Japanese)
    } else if s == "Korean"@ || s == "korean"@ || s == "ko-kr"@ {
        Some(VoiceLocale::Korean)
    } else if s == "Chinese"@ || s == "chinese"@ || s == "Chinese(PRC)"@ || s == "zh-cn"@ {
        Some(VoiceLocale::Chinese)
    } else {
        None
    }
}

impl VoiceLocale {
    /// All supported locales.
    pub fn list() -> (r: Vec<VoiceLocale>)
        ensures
            r@ == seq![
                VoiceLocale::English,
                VoiceLocale::Japanese,
                VoiceLocale::Korean,
                VoiceLocale::Chinese,
            ],
    {
        let mut v: Vec<VoiceLocale> = Vec::new();
        v.push(VoiceLocale::English);
        v.push(VoiceLocale::Japanese);
        v.push(VoiceLocale::Korean);
        v.push(VoiceLocale::Chinese);
        v
    }

    /// Converts a locale to its name: `English` for `VoiceLocale::English`.
    pub fn to_name(&self) -> (r: &str)
        ensures
            r@ == locale_name(*self),
    {
        match self {
            VoiceLocale::English => "English",
            VoiceLocale::Japanese => "Japanese",
            VoiceLocale::Korean => "Korean",
            VoiceLocale::Chinese => "Chinese",
        }
    }

    /// Converts a locale to its code: `en-us` for `VoiceLocale::English`.
    pub fn to_code(&self) -> (r: &str)
        ensures
            r@ == locale_code(*self),
    {
        match self {
            VoiceLocale::English => "en-us",
            VoiceLocale::Japanese => "ja-jp",
            VoiceLocale::Korean => "ko-kr",
            VoiceLocale::Chinese => "zh-cn",
        }
    }

    /// Converts a locale to its folder name: `English(US)` for `VoiceLocale::English`.
    pub fn to_folder(&self) -> (r: &str)
        ensures
            r@ == locale_folder(*self),
    {
        match self {
            VoiceLocale::English => "English(US)",
            VoiceLocale::Japanese => "Japanese",
            VoiceLocale::Korean => "Korean",
            VoiceLocale::Chinese => "Chinese",
        }
    }

    /// Reads a locale from its name, lowercased name, folder name or code.
    pub fn from_str(s: &str) -> (r: Option<VoiceLocale>)
        ensures
            r == locale_from_text(s@),
    {
        if str_eq(s, "English") || str_eq(s, "english") || str_eq(s, "English(US)") || str_eq(s, "en-us") {
            Some(VoiceLocale::English)
        } else if str_eq(s, "Japanese") || str_eq(s, "japanese") || str_eq(s, "ja-jp") {
            Some(VoiceLocale::Japanese)
        } else if str_eq(s, "Korean") || str_eq(s, "korean") || str_eq(s, "ko-kr") {
            Some(VoiceLocale::Korean)
        } else if str_eq(s, "Chinese") || str_eq(s, "chinese") || str_eq(s, "Chinese(PRC)") || str_eq(s, "zh-cn") {
            Some(VoiceLocale::Chinese)
        } else {
            None
        }
    }
}

/// The recognised spellings, told apart by length and first character.
proof fn lemma_spellings_known()
    ensures
        "English"@.len() == 7,
        "English"@[0] == 'E',
        "english"@.len() == 7,
        "english"@[0] == 'e',
        "English(US)"@.len() == 11,
        "English(US)"@[0] == 'E',
        "en-us"@.len() == 5,
        "en-us"@[0] == 'e',
        "Japanese"@.len() == 8,
        "Japanese"@[0] == 'J',
        "japanese"@.len() == 8,
        "japanese"@[0] == 'j',
        "ja-jp"@.len() == 5,
        "ja-jp"@[0] == 'j',
        "Korean"@.len() == 6,
        "Korean"@[0] == 'K',
        "korean"@.len() == 6,
        "korean"@[0] == 'k',
        "ko-kr"@.len() == 5,
        "ko-kr"@[0] == 'k',
        "Chinese"@.len() == 7,
        "Chinese"@[0] == 'C',
        "chinese"@.len() == 7,
        "chinese"@[0] == 'c',
        "Chinese(PRC)"@.len() == 12,
        "Chinese(PRC)"@[0] == 'C',
        "zh-cn"@.len() == 5,
        "zh-cn"@[0] == 'z',
{
    reveal_strlit("English");
    reveal_strlit("english");
    reveal_strlit("English(US)");
    reveal_strlit("en-us");
    reveal_strlit("Japanese");
    reveal_strlit("japanese");
    reveal_strlit("ja-jp");
    reveal_strlit("Korean");
    reveal_strlit("korean");
    reveal_strlit("ko-kr");
    reveal_strlit("Chinese");
    reveal_strlit("chinese");
    reveal_strlit("Chinese(PRC)");
    reveal_strlit("zh-cn");
}

/// Every locale is read back from its own name.
pub proof fn law_name_round_trip(l: VoiceLocale)
    ensures
        locale_from_text(locale_name(l)) == Some(l),
{
    lemma_spellings_known();
}

/// Every locale is read back from its own code.
pub proof fn law_code_round_trip(l: VoiceLocale)
    ensures
        locale_from_text(locale_code(l)) == Some(l),
{
    lemma_spellings_known();
}

/// Every locale is read back from its own folder name.
pub proof fn law_folder_round_trip(l: VoiceLocale)
    ensures
        locale_from_text(locale_folder(l)) == Some(l),
{
    lemma_spellings_known();
}

/// Every locale is read back from its name written in lowercase.
pub proof fn law_lowercase_name_round_trip(l: VoiceLocale)
    ensures
        locale_from_text(ascii_lower(locale_name(l))) == Some(l),
{
    lemma_spellings_known();
    reveal_strlit("English");
    reveal_strlit("english");
    reveal_strlit("Japanese");
    reveal_strlit("japanese");
    reveal_strlit("Korean");
    reveal_strlit("korean");
    reveal_strlit("Chinese");
    reveal_strlit("chinese");
    match l {
        VoiceLocale::English => assert(ascii_lower("English"@) =~= "english"@),
        VoiceLocale::Japanese => assert(ascii_lower("Japanese"@) =~= "japanese"@),
        VoiceLocale::Korean => assert(ascii_lower("Korean"@) =~= "korean"@),
        VoiceLocale::Chinese => assert(ascii_lower("Chinese"@) =~= "chinese"@),
    }
}

/// Distinct locales have distinct names, codes and folders.
pub proof fn law_locale_texts_distinct(a: VoiceLocale, b: VoiceLocale)
    requires
        a != b,
    ensures
        locale_name(a) != locale_name(b),
        locale_code(a) != locale_code(b),
        locale_folder(a) != locale_folder(b),
{
    law_name_round_trip(a);
    law_name_round_trip(b);
    law_code_round_trip(a);
    law_code_round_trip(b);
    law_folder_round_trip(a);
    law_folder_round_trip(b);
}

} // verus!
