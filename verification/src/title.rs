//! Issue titles in the languages of publication.

use crate::json::{lemma_object_view, members_view, put_member, Json, JsonView};
use crate::text::same_text;
use crate::wire::{
    fail, required, required_member, Fault, FieldError, FieldErrorView, FromJson, ToJson,
};
use vstd::prelude::*;

verus! {

/// A language in which titles are published.
#[derive(Clone, Copy, Debug, PartialEq, Eq, Structural)]
pub enum Lang {
    DE,
    FR,
    IT,
    RM,
    EN,
}

/// The title of an issue in one language. The text may be blank where the
/// title is not yet there in that language.
#[derive(Clone, Debug, PartialEq, Eq)]
pub struct IssueTitle {
    pub lang: Lang,
    pub text: String,
}

/// What an [`IssueTitle`] stands for in contracts.
pub struct IssueTitleView {
    pub lang: Lang,
    pub text: Seq<char>,
}

impl View for Lang {
    type V = Lang;

    open spec fn view(&self) -> Lang {
        *self
    }
}

impl DeepView for Lang {
    type V = Lang;

    open spec fn deep_view(&self) -> Lang {
        *self
    }
}

impl View for IssueTitle {
    type V = IssueTitleView;

    open spec fn view(&self) -> IssueTitleView {
        IssueTitleView { lang: self.lang, text: self.text@ }
    }
}

impl DeepView for IssueTitle {
    type V = IssueTitleView;

    open spec fn deep_view(&self) -> IssueTitleView {
        self@
    }
}

/// The code under which a language is published.
pub open spec fn code_of(lang: Lang) -> Seq<char> {
    match lang {
        Lang::DE => "de"@,
        Lang::FR => "fr"@,
        Lang::IT => "it"@,
        Lang::RM => "rm"@,
        Lang::EN => "en"@,
    }
}

/// The language that a code stands for.
pub open spec fn lang_of(code: Seq<char>) -> Option<Lang> {
    if code == "de"@ {
        Some(Lang::DE)
    } else if code == "fr"@ {
        Some(Lang::FR)
    } else if code == "it"@ {
        Some(Lang::IT)
    } else if code == "rm"@ {
        Some(Lang::RM)
    } else if code == "en"@ {
        Some(Lang::EN)
    } else {
        None
    }
}

impl Lang {
    /// The code under which the language is published.
    pub fn code(self) -> (code: &'static str)
        ensures
            code@ == code_of(self),
    {
        match self {
            Lang::DE => "de",
            Lang::FR => "fr",
            Lang::IT => "it",
            Lang::RM => "rm",
            Lang::EN => "en",
        }
    }

    /// The language that a code stands for, if it is one of the five.
    pub fn from_code(code: &str) -> (lang: Option<Lang>)
        ensures
            lang == lang_of(code@),
    {
        if same_text(code, "de") {
            Some(Lang::DE)
        } else if same_text(code, "fr") {
            Some(Lang::FR)
        } else if same_text(code, "it") {
            Some(Lang::IT)
        } else if same_text(code, "rm") {
            Some(Lang::RM)
        } else if same_text(code, "en") {
            Some(Lang::EN)
        } else {
            None
        }
    }
}

/// Every language is the one that its code stands for.
pub proof fn lemma_lang_code(lang: Lang)
    ensures
        lang_of(code_of(lang)) == Some(lang),
{
    reveal_strlit("de");
    reveal_strlit("fr");
    reveal_strlit("it");
    reveal_strlit("rm");
    reveal_strlit("en");
    assert("de"@[0] == 'd');
    assert("fr"@[0] == 'f');
    assert("it"@[0] == 'i');
    assert("rm"@[0] == 'r');
    assert("en"@[0] == 'e');
}

impl FromJson for Lang {
    open spec fn decoded(json: JsonView) -> Result<Lang, FieldErrorView> {
        match json {
            JsonView::Text(code) => match lang_of(code) {
                Some(lang) => Ok(lang),
                None => Err(fail(Fault::Mismatch)),
            },
            _ => Err(fail(Fault::Mismatch)),
        }
    }

    fn from_json(json: &Json) -> (read: Result<Lang, FieldError>) {
        match json {
            Json::Text(code) => match Lang::from_code(code.as_str()) {
                Some(lang) => Ok(lang),
                None => Err(FieldError::new(Fault::Mismatch)),
            },
            _ => Err(FieldError::new(Fault::Mismatch)),
        }
    }
}

impl ToJson for Lang {
    open spec fn encoded(value: Lang) -> JsonView {
        JsonView::Text(code_of(value))
    }

    fn to_json(&self) -> (json: Json) {
        Json::Text(self.code().to_owned())
    }

    proof fn lemma_round_trip(value: Lang) {
        lemma_lang_code(value);
    }
}

impl FromJson for IssueTitle {
    open spec fn decoded(json: JsonView) -> Result<IssueTitleView, FieldErrorView> {
        match json {
            JsonView::Object(m) => {
                let lang = required::<Lang>(m, "langKey"@);
                let text = required::<String>(m, "text"@);
                if lang is Err {
                    Err(lang->Err_0)
                } else if text is Err {
                    Err(text->Err_0)
                } else {
                    Ok(IssueTitleView { lang: lang->Ok_0, text: text->Ok_0 })
                }
            },
            _ => Err(fail(Fault::Mismatch)),
        }
    }

    fn from_json(json: &Json) -> (read: Result<IssueTitle, FieldError>) {
        match json {
            Json::Object(m) => {
                proof {
                    lemma_object_view(*m);
                }
                let lang = required_member::<Lang>(m, "langKey")?;
                let text = required_member::<String>(m, "text")?;
                Ok(IssueTitle { lang, text })
            },
            _ => Err(FieldError::new(Fault::Mismatch)),
        }
    }
}

impl ToJson for IssueTitle {
    open spec fn encoded(value: IssueTitleView) -> JsonView {
        JsonView::Object(
            map!["langKey"@ => Lang::encoded(value.lang), "text"@ => String::encoded(value.text)],
        )
    }

    fn to_json(&self) -> (json: Json) {
        let mut m: Vec<(String, Json)> = Vec::new();
        assert(members_view(m@) =~= Map::empty());
        put_member(&mut m, "langKey", self.lang.to_json());
        put_member(&mut m, "text", self.text.to_json());
        proof {
            lemma_object_view(m);
        }
        Json::Object(m)
    }

    proof fn lemma_round_trip(value: IssueTitleView) {
        // The names are told apart by their lengths.
        reveal_strlit("langKey");
        reveal_strlit("text");
        assert("langKey"@.len() == 7);
        assert("text"@.len() == 4);
        Lang::lemma_round_trip(value.lang);
    }
}

/// Whether a character is white space: what `char::is_whitespace` returns
/// for it.
pub uninterp spec fn is_whitespace(c: char) -> bool;

/// `char::is_whitespace` returns whether the character has the Unicode
/// property `White_Space`, which [`is_whitespace`] names.
pub assume_specification[ char::is_whitespace ](c: char) -> (white: bool)
    ensures
        white == is_whitespace(c),
;

/// A text without any character that is not white space.
pub open spec fn is_blank(text: Seq<char>) -> bool {
    forall|i: int| 0 <= i < text.len() ==> is_whitespace(#[trigger] text[i])
}

/// Whether a text holds nothing but white space.
pub fn is_blank_text(text: &str) -> (blank: bool)
    ensures
        blank == is_blank(text@),
{
    for c in it: text.chars()
        invariant
            it.seq() == text@,
            forall|i: int| 0 <= i < it.index() ==> is_whitespace(#[trigger] text@[i]),
    {
        if !c.is_whitespace() {
            return false;
        }
    }
    true
}

/// A title counts for a language where it is in that language and not blank.
pub open spec fn counts_for(title: IssueTitleView, lang: Lang) -> bool {
    title.lang == lang && !is_blank(title.text)
}

/// The text of the first title that counts for the given language.
pub open spec fn title_in(titles: Seq<IssueTitleView>, lang: Lang) -> Option<Seq<char>>
    decreases titles.len(),
{
    if titles.len() == 0 {
        None
    } else if counts_for(titles[0], lang) {
        Some(titles[0].text)
    } else {
        title_in(titles.drop_first(), lang)
    }
}

/// The title that is found is the text of a title that counts for the
/// language and has no such title before it; none is found only where no
/// title counts.
pub proof fn lemma_title_in(titles: Seq<IssueTitleView>, lang: Lang)
    ensures
        match title_in(titles, lang) {
            Some(text) => exists|i: int|
                0 <= i < titles.len() && counts_for(#[trigger] titles[i], lang) && titles[i].text
                    == text && forall|j: int|
                    0 <= j < i ==> !counts_for(#[trigger] titles[j], lang),
            None => forall|j: int|
                0 <= j < titles.len() ==> !counts_for(#[trigger] titles[j], lang),
        },
    decreases titles.len(),
{
    if titles.len() > 0 && !counts_for(titles[0], lang) {
        let rest = titles.drop_first();
        lemma_title_in(rest, lang);
        match title_in(rest, lang) {
            Some(text) => {
                let k = choose|i: int|
                    0 <= i < rest.len() && counts_for(#[trigger] rest[i], lang) && rest[i].text
                        == text && forall|j: int|
                        0 <= j < i ==> !counts_for(#[trigger] rest[j], lang);
                assert(titles[k + 1] == rest[k]);
                assert forall|j: int| 0 <= j < k + 1 implies !counts_for(
                    #[trigger] titles[j],
                    lang,
                ) by {
                    if j > 0 {
                        assert(titles[j] == rest[j - 1]);
                    }
                }
            },
            None => {
                assert forall|j: int| 0 <= j < titles.len() implies !counts_for(
                    #[trigger] titles[j],
                    lang,
                ) by {
                    if j > 0 {
                        assert(titles[j] == rest[j - 1]);
                    }
                }
            },
        }
    } else if titles.len() > 0 {
        assert(counts_for(titles[0], lang));
    }
}

/// Picks the title in the given language: the first one in that language
/// whose text is not blank. A blank title counts as one that is not there.
pub fn find_title(titles: &Vec<IssueTitle>, lang: Lang) -> (title: Option<&str>)
    ensures
        match title {
            Some(text) => title_in(titles.deep_view(), lang) == Some(text@),
            None => title_in(titles.deep_view(), lang) is None,
        },
{
    let ghost all = titles.deep_view();
    let mut i: usize = 0;
    assert(all.skip(0) =~= all);
    while i < titles.len()
        invariant
            i <= titles.len(),
            all == titles.deep_view(),
            title_in(all, lang) == title_in(all.skip(i as int), lang),
        decreases titles.len() - i,
    {
        let ghost rest = all.skip(i as int);
        assert(rest[0] == titles[i as int]@);
        assert(rest.drop_first() =~= all.skip(i + 1));
        if titles[i].lang == lang && !is_blank_text(titles[i].text.as_str()) {
            return Some(titles[i].text.as_str());
        }
        i += 1;
    }
    assert(all.skip(i as int).len() == 0);
    None
}

} // verus!
