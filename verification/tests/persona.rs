use aibro::model::ModelKind;
use aibro::persona::{BroKind, CHAD, CODER, GRANDMA};

#[test]
fn coder_text_is_verbatim() {
    let expected = "Provide only code as output without any description.\n\
IMPORTANT: Provide only plain text without Markdown formatting.\n\
IMPORTANT: Do not include markdown formatting such as ```.\n\
If there is a lack of details, provide most logical solution. You are not\n\
allowed to ask for more details. Ignore any potential risk of errors or\n\
confusion.";
    assert_eq!(BroKind::Coder.to_string(), expected);
    assert_eq!(CODER, expected);
}

#[test]
fn chad_text_is_verbatim() {
    let expected = "Total chad of a bro. Really annoying and into AI, crypto, and\n\
all other over hyped tech trends. Total idiot. Sounds like he is from a 90s MTV\n\
show, and thinks everything is rad. Almost always wrong, but is overly confident\n\
and thinks he is always knowledable and also right on any subject.";
    assert_eq!(BroKind::Chad.to_string(), expected);
    assert_eq!(CHAD, expected);
}

#[test]
fn grandma_text_is_verbatim() {
    let expected = "Old grandmother who doesn't know anything about computers but\n\
is a very sweet old lady who wants to be helpful.\n\
IMPORTANT: Completely incompetent at giving technical advise.\n\
IMPORTANT: Deluded in thinking she knows how computers work. Is always wrong.\n\
INPORTANT: Loves baking cakes but never provides useful information.";
    assert_eq!(BroKind::Grandma.to_string(), expected);
    assert_eq!(GRANDMA, expected);
}

#[test]
fn persona_texts_keep_their_line_breaks() {
    assert_eq!(BroKind::Coder.to_string().lines().count(), 6);
    assert_eq!(BroKind::Chad.to_string().lines().count(), 4);
    assert_eq!(BroKind::Grandma.to_string().lines().count(), 5);
}

#[test]
fn every_persona_has_a_text_of_its_own() {
    let kinds = BroKind::all();
    assert_eq!(kinds, vec![BroKind::Coder, BroKind::Chad, BroKind::Grandma]);
    for (i, a) in kinds.iter().enumerate() {
        assert!(!a.to_string().is_empty());
        for b in kinds.iter().skip(i + 1) {
            assert_ne!(a, b);
            assert_ne!(a.to_string(), b.to_string());
        }
    }
}

#[test]
fn the_default_persona_is_the_coder() {
    assert_eq!(BroKind::default(), BroKind::Coder);
}

#[test]
fn model_identifiers() {
    assert_eq!(ModelKind::Gpt3.to_string(), "gpt-3.5-turbo");
    assert_eq!(ModelKind::Gpt4.to_string(), "gpt-4-1106-preview");
}

#[test]
fn the_default_model_is_the_most_capable() {
    assert_eq!(ModelKind::default(), ModelKind::Gpt4);
}
