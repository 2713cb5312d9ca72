//! The models a request can be addressed to.

use vstd::prelude::*;

verus! {

/// The model that answers.
#[derive(Debug, Clone, Copy, PartialEq, Eq, Structural)]
pub enum ModelKind {
    /// GPT 3.5 turbo model
    Gpt3,
    /// GPT 4.0 model
    Gpt4,
}

impl ModelKind {
    /// The identifier the service knows this model by.
    pub open spec fn text(self) -> Seq<char> {
        match self {
            ModelKind::Gpt3 => "gpt-3.5-turbo"@,
            ModelKind::Gpt4 => "gpt-4-1106-preview"@,
        }
    }

    /// The identifier the service knows this model by.
    pub fn to_string(&self) -> (text: String)
        ensures
            text@ == self.text(),
    {
        match self {
            ModelKind::Gpt3 => "gpt-3.5-turbo".to_owned(),
            ModelKind::Gpt4 => "gpt-4-1106-preview".to_owned(),
        }
    }
}

impl Default for ModelKind {
    /// The most capable model of the catalog.
    fn default() -> (kind: ModelKind)
        ensures
            kind == ModelKind::Gpt4,
    {
        ModelKind::Gpt4
    }
}

} // verus!
