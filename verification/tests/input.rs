use aibro::error::Error;
use aibro::input::{contains_alphanumeric, join, judge, pair, resolve, screen, Texts};

fn words(tokens: &[&str]) -> Vec<String> {
    tokens.iter().map(|t| t.to_string()).collect()
}

fn text(s: &str) -> Option<String> {
    Some(s.to_string())
}

#[test]
fn letters_and_digits_are_alphanumeric() {
    assert!(contains_alphanumeric("a"));
    assert!(contains_alphanumeric("Z"));
    assert!(contains_alphanumeric("7"));
    assert!(contains_alphanumeric("-- x --"));
    assert!(contains_alphanumeric("\n\n?\t0"));
}

#[test]
fn letters_and_digits_beyond_ascii_are_alphanumeric() {
    assert!(contains_alphanumeric("é"));
    assert!(contains_alphanumeric("٣"));
    assert!(contains_alphanumeric("京"));
    assert!(contains_alphanumeric("¿qué?"));
}

#[test]
fn symbols_and_blanks_are_not_alphanumeric() {
    assert!(!contains_alphanumeric(""));
    assert!(!contains_alphanumeric(" "));
    assert!(!contains_alphanumeric("\n"));
    assert!(!contains_alphanumeric(" \t\r\n"));
    assert!(!contains_alphanumeric("???"));
    assert!(!contains_alphanumeric("-_-"));
    assert!(!contains_alphanumeric("¿…?"));
    assert!(!contains_alphanumeric("🙂"));
}

#[test]
fn the_last_character_counts() {
    assert!(contains_alphanumeric("??????a"));
    assert!(contains_alphanumeric("a??????"));
}

#[test]
fn join_puts_single_spaces_between_words() {
    assert_eq!(join(&words(&["explain", "this", "code"])), "explain this code");
    assert_eq!(join(&words(&["a", "b"])), "a b");
}

#[test]
fn join_of_one_word_is_the_word() {
    assert_eq!(join(&words(&["hello"])), "hello");
}

#[test]
fn join_of_no_words_is_empty() {
    assert_eq!(join(&words(&[])), "");
}

#[test]
fn join_keeps_each_word_as_it_is() {
    assert_eq!(join(&words(&["two  spaces", " lead", "trail "])), "two  spaces  lead trail ");
    assert_eq!(join(&words(&["", ""])), " ");
    assert_eq!(join(&words(&["", "x", ""])), " x ");
    assert_eq!(join(&words(&["é", "京"])), "é 京");
}

#[test]
fn join_agrees_with_the_standard_library() {
    let tokens = words(&["fix", "the", "bug", "in", "line", "7"]);
    assert_eq!(join(&tokens), tokens.join(" "));
}

#[test]
fn judge_keeps_a_usable_text() {
    assert_eq!(judge(text("hello"), true), Ok("hello".to_string()));
}

#[test]
fn judge_rejects_an_unusable_text() {
    assert_eq!(judge(text("???"), false), Err(Error::AlphanumericInput));
}

#[test]
fn judge_misses_an_absent_text() {
    assert_eq!(judge(None, false), Err(Error::Input));
    assert_eq!(judge(None, true), Err(Error::Input));
}

#[test]
fn screen_keeps_text_as_it_is() {
    assert_eq!(screen(text("  Hello,\tWorld!\n")), Ok("  Hello,\tWorld!\n".to_string()));
    assert_eq!(screen(text("ÉCOLE")), Ok("ÉCOLE".to_string()));
}

#[test]
fn screen_rejects_text_without_letters_or_digits() {
    assert_eq!(screen(text("")), Err(Error::AlphanumericInput));
    assert_eq!(screen(text("\n")), Err(Error::AlphanumericInput));
    assert_eq!(screen(text("?!")), Err(Error::AlphanumericInput));
}

#[test]
fn screen_misses_an_absent_text() {
    assert_eq!(screen(None), Err(Error::Input));
}

#[test]
fn pair_takes_what_is_there() {
    assert_eq!(
        pair(Ok("c".to_string()), Ok("p".to_string())),
        Ok(Texts { context: text("c"), prompt: text("p") })
    );
    assert_eq!(
        pair(Ok("c".to_string()), Err(Error::Input)),
        Ok(Texts { context: text("c"), prompt: None })
    );
    assert_eq!(
        pair(Err(Error::AlphanumericInput), Ok("p".to_string())),
        Ok(Texts { context: None, prompt: text("p") })
    );
}

#[test]
fn pair_of_nothing_is_no_input() {
    assert_eq!(pair(Err(Error::Input), Err(Error::Input)), Err(Error::Input));
    assert_eq!(pair(Err(Error::AlphanumericInput), Err(Error::Input)), Err(Error::Input));
    assert_eq!(pair(Err(Error::Input), Err(Error::AlphanumericInput)), Err(Error::Input));
    assert_eq!(
        pair(Err(Error::AlphanumericInput), Err(Error::AlphanumericInput)),
        Err(Error::Input)
    );
}

#[test]
fn the_prompt_is_the_words_joined() {
    let texts = resolve(None, &words(&["write", "a", "haiku"]), None).unwrap();
    assert_eq!(texts.prompt, text("write a haiku"));
    assert_eq!(texts.context, None);
}

#[test]
fn the_prompt_is_the_words_joined_whatever_else_is_given() {
    let texts = resolve(text("fn main() {}"), &words(&["explain"]), text("ignored")).unwrap();
    assert_eq!(texts.prompt, text("explain"));
    assert_eq!(texts.context, text("fn main() {}"));
}

#[test]
fn nothing_piped_and_no_words_is_no_input() {
    assert_eq!(resolve(None, &words(&[]), None), Err(Error::Input));
}

#[test]
fn piped_text_alone_is_enough() {
    let texts = resolve(text("let x = 1;\n"), &words(&[]), None).unwrap();
    assert_eq!(texts, Texts { context: text("let x = 1;\n"), prompt: None });
}

#[test]
fn an_empty_pipe_is_no_context() {
    let texts = resolve(text(""), &words(&["hello"]), None).unwrap();
    assert_eq!(texts, Texts { context: None, prompt: text("hello") });
    let texts = resolve(text("\n"), &words(&["hello"]), None).unwrap();
    assert_eq!(texts, Texts { context: None, prompt: text("hello") });
}

#[test]
fn an_empty_pipe_and_no_words_is_no_input() {
    assert_eq!(resolve(text("\n"), &words(&[]), None), Err(Error::Input));
    assert_eq!(resolve(text(" - "), &words(&["?", "!"]), None), Err(Error::Input));
}

#[test]
fn words_without_letters_or_digits_are_no_prompt() {
    let texts = resolve(text("code"), &words(&["???"]), None).unwrap();
    assert_eq!(texts, Texts { context: text("code"), prompt: None });
    assert_eq!(resolve(None, &words(&["???"]), None), Err(Error::Input));
}

#[test]
fn the_fallback_stands_in_when_there_are_no_words() {
    let texts = resolve(None, &words(&[]), text("add documentation comments to code")).unwrap();
    assert_eq!(texts, Texts { context: None, prompt: text("add documentation comments to code") });
    let texts = resolve(text("code"), &words(&[]), text("summarise")).unwrap();
    assert_eq!(texts, Texts { context: text("code"), prompt: text("summarise") });
}

#[test]
fn the_fallback_does_not_stand_in_for_words() {
    let texts = resolve(text("code"), &words(&["???"]), text("summarise")).unwrap();
    assert_eq!(texts, Texts { context: text("code"), prompt: None });
    let texts = resolve(None, &words(&["hi"]), text("summarise")).unwrap();
    assert_eq!(texts.prompt, text("hi"));
}

#[test]
fn the_fallback_is_screened_too() {
    assert_eq!(resolve(None, &words(&[]), text("...")), Err(Error::Input));
    let texts = resolve(text("code"), &words(&[]), text("")).unwrap();
    assert_eq!(texts, Texts { context: text("code"), prompt: None });
}
