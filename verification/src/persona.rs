//! The catalog of personas: the fixed system prompts a conversation opens with.

use vstd::prelude::*;

verus! {

/// The persona the assistant is asked to take on.
#[derive(Debug, Clone, Copy, PartialEq, Eq, Structural)]
pub enum BroKind {
    /// Helpful coding assistant
    Coder,
    /// Over hyped Chad GPT bro
    Chad,
    /// Old lady grandma bro
    Grandma,
}

/// System prompt of [`BroKind::Coder`].
pub const CODER: &'static str = "Provide only code as output without any description.
IMPORTANT: Provide only plain text without Markdown formatting.
IMPORTANT: Do not include markdown formatting such as ```.
If there is a lack of details, provide most logical solution. You are not
allowed to ask for more details. Ignore any potential risk of errors or
confusion.";

/// System prompt of [`BroKind::Chad`].
pub const CHAD: &'static str = "Total chad of a bro. Really annoying and into AI, crypto, and
all other over hyped tech trends. Total idiot. Sounds like he is from a 90s MTV
show, and thinks everything is rad. Almost always wrong, but is overly confident
and thinks he is always knowledable and also right on any subject.";

/// System prompt of [`BroKind::Grandma`].
pub const GRANDMA: &'static str = "Old grandmother who doesn't know anything about computers but
is a very sweet old lady who wants to be helpful.
IMPORTANT: Completely incompetent at giving technical advise.
IMPORTANT: Deluded in thinking she knows how computers work. Is always wrong.
INPORTANT: Loves baking cakes but never provides useful information.";

impl BroKind {
    /// The system prompt that stands for this persona.
    pub open spec fn text(self) -> Seq<char> {
        match self {
            BroKind::Coder => CODER@,
            BroKind::Chad => CHAD@,
            BroKind::Grandma => GRANDMA@,
        }
    }

    /// The personas in catalog order.
    pub open spec fn catalog() -> Seq<BroKind> {
        seq![BroKind::Coder, BroKind::Chad, BroKind::Grandma]
    }

    /// Every persona, each exactly once.
    pub fn all() -> (kinds: Vec<BroKind>)
        ensures
            kinds@ == Self::catalog(),
    {
        vec![BroKind::Coder, BroKind::Chad, BroKind::Grandma]
    }

    /// The system prompt of this persona, verbatim, line breaks included.
    pub fn to_string(&self) -> (text: String)
        ensures
            text@ == self.text(),
            text@.len() > 0,
    {
        match self {
            BroKind::Coder => {
                proof {
                    reveal_strlit("Provide only code as output without any description.
IMPORTANT: Provide only plain text without Markdown formatting.
IMPORTANT: Do not include markdown formatting such as ```.
If there is a lack of details, provide most logical solution. You are not
allowed to ask for more details. Ignore any potential risk of errors or
confusion.");
                }
                CODER.to_owned()
            },
            BroKind::Chad => {
                proof {
                    reveal_strlit("Total chad of a bro. Really annoying and into AI, crypto, and
all other over hyped tech trends. Total idiot. Sounds like he is from a 90s MTV
show, and thinks everything is rad. Almost always wrong, but is overly confident
and thinks he is always knowledable and also right on any subject.");
                }
                CHAD.to_owned()
            },
            BroKind::Grandma => {
                proof {
                    reveal_strlit("Old grandmother who doesn't know anything about computers but
is a very sweet old lady who wants to be helpful.
IMPORTANT: Completely incompetent at giving technical advise.
IMPORTANT: Deluded in thinking she knows how computers work. Is always wrong.
INPORTANT: Loves baking cakes but never provides useful information.");
                }
                GRANDMA.to_owned()
            },
        }
    }
}

impl Default for BroKind {
    /// The coding assistant.
    fn default() -> (kind: BroKind)
        ensures
            kind == BroKind::Coder,
    {
        BroKind::Coder
    }
}

/// The catalog is exhaustive and lists no persona twice.
pub proof fn catalog_is_exhaustive(kind: BroKind)
    ensures
        exists|i: int|
            0 <= i < BroKind::catalog().len() && #[trigger] BroKind::catalog()[i] == kind,
        forall|i: int, j: int|
            0 <= i < j < BroKind::catalog().len() ==> BroKind::catalog()[i]
                != BroKind::catalog()[j],
{
    match kind {
        BroKind::Coder => assert(BroKind::catalog()[0] == kind),
        BroKind::Chad => assert(BroKind::catalog()[1] == kind),
        BroKind::Grandma => assert(BroKind::catalog()[2] == kind),
    }
}

} // verus!
