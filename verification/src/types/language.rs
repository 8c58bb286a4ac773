//! The languages in which the service words its messages.

use vstd::prelude::*;

verus! {

/// A language that the service can answer in.
#[derive(Clone, Copy, Debug, PartialEq, Eq, Structural)]
pub enum Language {
    DE,
    EN,
    ES,
    ESMX,
    FR,
    ID,
    IT,
    NL,
    PT,
    PTBR,
}

impl Default for Language {
    fn default() -> (language: Self)
        ensures
            language == Language::EN,
    {
        Language::EN
    }
}

impl Language {
    /// The language tag as the `Accept-Language` header carries it.
    pub open spec fn tag(self) -> Seq<char> {
        match self {
            Language::DE => seq!['d', 'e'],
            Language::EN => seq!['e', 'n'],
            Language::ES => seq!['e', 's'],
            Language::ESMX => seq!['e', 's', '-', 'm', 'x'],
            Language::FR => seq!['f', 'r'],
            Language::ID => seq!['i', 'd'],
            Language::IT => seq!['i', 't'],
            Language::NL => seq!['n', 'l'],
            Language::PT => seq!['p', 't'],
            Language::PTBR => seq!['p', 't', '-', 'b', 'r'],
        }
    }

    /// The language tag.
    pub fn as_str(&self) -> (text: &'static str)
        ensures
            text@ == self.tag(),
    {
        proof {
            reveal_strlit("de");
            reveal_strlit("en");
            reveal_strlit("es");
            reveal_strlit("es-mx");
            reveal_strlit("fr");
            reveal_strlit("id");
            reveal_strlit("it");
            reveal_strlit("nl");
            reveal_strlit("pt");
            reveal_strlit("pt-br");
        }
        let text = match self {
            Language::DE => "de",
            Language::EN => "en",
            Language::ES => "es",
            Language::ESMX => "es-mx",
            Language::FR => "fr",
            Language::ID => "id",
            Language::IT => "it",
            Language::NL => "nl",
            Language::PT => "pt",
            Language::PTBR => "pt-br",
        };
        assert(text@ =~= self.tag());
        text
    }

    /// The language tag, as an owned text.
    pub fn to_string(&self) -> (text: String)
        ensures
            text@ == self.tag(),
    {
        self.as_str().to_owned()
    }
}

} // verus!
