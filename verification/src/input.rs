//! Which of the texts a run was given are worth sending.
//!
//! A run has up to two texts: the context, piped in on standard input, and the
//! prompt, spelled out as arguments. A text counts only if it holds at least
//! one alphanumeric character, so that an empty pipe or a stray newline is
//! never sent as if it meant something.

use crate::error::Error;
use vstd::prelude::*;
use vstd::string::StringExecFns;

verus! {

/// Whether `c` is alphanumeric in Unicode's sense, as `char::is_alphanumeric`
/// decides it.
pub uninterp spec fn alphanumeric(c: char) -> bool;

/// `char::is_alphanumeric` of the standard library: true for the characters
/// with Unicode's Alphabetic property or of one of its numeric categories.
/// The tables behind it are not spelled out here; the result is only named.
pub assume_specification[ char::is_alphanumeric ](c: char) -> (yes: bool)
    ensures
        yes == alphanumeric(c),
;

/// A text is usable when at least one of its characters is alphanumeric.
pub open spec fn has_alphanumeric(text: Seq<char>) -> bool {
    exists|i: int| 0 <= i < text.len() && alphanumeric(#[trigger] text[i])
}

/// The tokens in order, with one space between neighbours.
pub open spec fn joined(tokens: Seq<Seq<char>>) -> Seq<char>
    decreases tokens.len(),
{
    if tokens.len() == 0 {
        Seq::empty()
    } else if tokens.len() == 1 {
        tokens[0]
    } else {
        joined(tokens.drop_last()) + seq![' '] + tokens.last()
    }
}

/// What becomes of a candidate text: it is there and usable, or there and
/// rejected, or was never there.
pub open spec fn screened(candidate: Option<Seq<char>>, usable: bool) -> Result<Seq<char>, Error> {
    match candidate {
        None => Err(Error::Input),
        Some(text) => if usable {
            Ok(text)
        } else {
            Err(Error::AlphanumericInput)
        },
    }
}

/// The text the prompt is taken from: the arguments if there are any, else
/// the fallback.
pub open spec fn prompt_source(tokens: Seq<Seq<char>>, fallback: Option<Seq<char>>) -> Option<
    Seq<char>,
> {
    if tokens.len() > 0 {
        Some(joined(tokens))
    } else {
        fallback
    }
}

/// Whether a candidate is there and holds an alphanumeric character.
pub open spec fn accepted(candidate: Option<Seq<char>>) -> bool {
    candidate matches Some(text) && has_alphanumeric(text)
}

/// A candidate after screening: itself if accepted, else nothing.
pub open spec fn usable(candidate: Option<Seq<char>>) -> Option<Seq<char>> {
    if accepted(candidate) {
        candidate
    } else {
        None
    }
}

/// The texts of a run after screening.
#[derive(Debug, PartialEq, Eq)]
pub struct Texts {
    /// What was piped in.
    pub context: Option<String>,
    /// What was asked.
    pub prompt: Option<String>,
}

/// [`Texts`] as sequences of characters.
pub ghost struct TextsView {
    pub context: Option<Seq<char>>,
    pub prompt: Option<Seq<char>>,
}

impl View for Texts {
    type V = TextsView;

    open spec fn view(&self) -> TextsView {
        TextsView { context: self.context.deep_view(), prompt: self.prompt.deep_view() }
    }
}

/// The two screened candidates taken together: no texts at all is an error.
pub open spec fn paired(context: Option<Seq<char>>, prompt: Option<Seq<char>>) -> Result<
    TextsView,
    Error,
> {
    if context is None && prompt is None {
        Err(Error::Input)
    } else {
        Ok(TextsView { context, prompt })
    }
}

/// The texts a run sends, from what it was given.
pub open spec fn resolution(
    piped: Option<Seq<char>>,
    tokens: Seq<Seq<char>>,
    fallback: Option<Seq<char>>,
) -> Result<TextsView, Error> {
    paired(usable(piped), usable(prompt_source(tokens, fallback)))
}

/// Whether `text` holds an alphanumeric character anywhere.
pub fn contains_alphanumeric(text: &str) -> (found: bool)
    ensures
        found == has_alphanumeric(text@),
{
    let mut chars = text.chars();
    for c in it: chars
        invariant
            it.seq() == text@,
            forall|j: int| 0 <= j < it.index() ==> !alphanumeric(#[trigger] text@[j]),
    {
        if c.is_alphanumeric() {
            return true;
        }
    }
    false
}

/// Joins the tokens with single spaces.
pub fn join(tokens: &Vec<String>) -> (text: String)
    ensures
        text@ == joined(tokens.deep_view()),
{
    let mut text = String::new();
    let mut i: usize = 0;
    while i < tokens.len()
        invariant
            i <= tokens.len(),
            text@ == joined(tokens.deep_view().take(i as int)),
        decreases tokens.len() - i,
    {
        proof {
            reveal_strlit(" ");
            assert(tokens.deep_view().take(i + 1).drop_last() == tokens.deep_view().take(
                i as int,
            ));
        }
        if i > 0 {
            text.append(" ");
        }
        text.append(tokens[i].as_str());
        i += 1;
    }
    proof {
        assert(tokens.deep_view().take(tokens.len() as int) == tokens.deep_view());
    }
    text
}

/// Screens a candidate given the verdict on its content: an absent candidate
/// is missing input, a present one is kept as it is if `usable` and rejected
/// otherwise.
pub fn judge(candidate: Option<String>, usable: bool) -> (kept: Result<String, Error>)
    ensures
        match kept {
            Ok(text) => candidate == Some(text) && usable,
            Err(e) => screened(candidate.deep_view(), usable) == Err::<Seq<char>, Error>(e),
        },
{
    match candidate {
        None => Err(Error::Input),
        Some(text) => if usable {
            Ok(text)
        } else {
            Err(Error::AlphanumericInput)
        },
    }
}

/// Screens a candidate: it is kept, as it is, exactly if it is there and
/// holds an alphanumeric character.
pub fn screen(candidate: Option<String>) -> (kept: Result<String, Error>)
    ensures
        match kept {
            Ok(text) => candidate == Some(text) && accepted(candidate.deep_view()),
            Err(e) => !accepted(candidate.deep_view()) && screened(candidate.deep_view(), false)
                == Err::<Seq<char>, Error>(e),
        },
{
    let verdict = match &candidate {
        Some(text) => contains_alphanumeric(text.as_str()),
        None => false,
    };
    judge(candidate, verdict)
}

/// Puts the two screened candidates together. A run needs at least one of
/// them; why the other one is missing does not matter.
pub fn pair(context: Result<String, Error>, prompt: Result<String, Error>) -> (texts: Result<
    Texts,
    Error,
>)
    ensures
        match texts {
            Ok(t) => t.context == context.ok() && t.prompt == prompt.ok() && (context is Ok
                || prompt is Ok),
            Err(e) => e == Error::Input && context is Err && prompt is Err,
        },
{
    if context.is_err() && prompt.is_err() {
        return Err(Error::Input);
    }
    Ok(Texts { context: context.ok(), prompt: prompt.ok() })
}

/// Resolves the texts of a run. `piped` is what came in on standard input, if
/// it was piped; `tokens` are the prompt's words; `fallback` stands in for the
/// prompt when there are no words.
pub fn resolve(piped: Option<String>, tokens: &Vec<String>, fallback: Option<String>) -> (texts:
    Result<Texts, Error>)
    ensures
        match texts {
            Ok(t) => resolution(piped.deep_view(), tokens.deep_view(), fallback.deep_view())
                == Ok::<TextsView, Error>(t@),
            Err(e) => resolution(piped.deep_view(), tokens.deep_view(), fallback.deep_view())
                == Err::<TextsView, Error>(e),
        },
{
    let context = screen(piped);
    let source = if tokens.len() > 0 {
        Some(join(tokens))
    } else {
        fallback
    };
    let prompt = screen(source);
    pair(context, prompt)
}

/// Joining one token gives the token; joining two runs of tokens, neither of
/// them empty, gives the two joined texts with one space between them.
pub proof fn joined_splits(left: Seq<Seq<char>>, right: Seq<Seq<char>>)
    requires
        left.len() > 0,
        right.len() > 0,
    ensures
        joined(left + right) == joined(left) + seq![' '] + joined(right),
        joined(seq![left[0]]) == left[0],
    decreases right.len(),
{
    let whole = left + right;
    if right.len() == 1 {
        assert(whole.drop_last() == left);
    } else {
        assert(whole.drop_last() == left + right.drop_last());
        joined_splits(left, right.drop_last());
    }
}

/// A text with an alphanumeric character is kept as it is; a text without
/// one counts as absent.
pub proof fn usable_keeps_or_drops(text: Seq<char>)
    ensures
        has_alphanumeric(text) ==> usable(Some(text)) == Some(text),
        !has_alphanumeric(text) ==> usable(Some(text)) is None,
        usable(None) is None,
{
}

/// Where there are words and their joined text holds an alphanumeric
/// character, resolution succeeds and the prompt is the words joined by
/// single spaces, whatever was piped in and whatever the fallback is.
pub proof fn prompt_is_the_joined_words(
    piped: Option<Seq<char>>,
    tokens: Seq<Seq<char>>,
    fallback: Option<Seq<char>>,
)
    requires
        tokens.len() > 0,
        has_alphanumeric(joined(tokens)),
    ensures
        resolution(piped, tokens, fallback) matches Ok(texts) && texts.prompt == Some(
            joined(tokens),
        ),
{
}

/// With nothing piped in, no words and no fallback, resolution fails for
/// want of input.
pub proof fn nothing_given_is_no_input()
    ensures
        resolution(None, Seq::empty(), None) == Err::<TextsView, Error>(Error::Input),
{
}

/// Resolution fails exactly when neither candidate is accepted, and then for
/// want of input; otherwise each text is the accepted candidate, unchanged.
pub proof fn resolution_is_total(
    piped: Option<Seq<char>>,
    tokens: Seq<Seq<char>>,
    fallback: Option<Seq<char>>,
)
    ensures
        resolution(piped, tokens, fallback) is Err <==> !accepted(piped) && !accepted(
            prompt_source(tokens, fallback),
        ),
        resolution(piped, tokens, fallback) matches Err(e) ==> e == Error::Input,
        resolution(piped, tokens, fallback) matches Ok(texts) ==> {
            &&& texts.context == usable(piped)
            &&& texts.prompt == usable(prompt_source(tokens, fallback))
            &&& texts.context matches Some(text) ==> has_alphanumeric(text)
            &&& texts.prompt matches Some(text) ==> has_alphanumeric(text)
        },
{
}

} // verus!
