use nixdoc::harvest::retrieve_doc_comment;
use nixdoc::harvest::Token;
use nixdoc::harvest::TokenKind;

fn comment(text: &str) -> Token {
    Token { kind: TokenKind::Comment, text: String::from(text) }
}

fn ws(text: &str) -> Token {
    Token { kind: TokenKind::Whitespace, text: String::from(text) }
}

fn other(text: &str) -> Token {
    Token { kind: TokenKind::Other, text: String::from(text) }
}

#[test]
fn no_tokens_yields_nothing() {
    let tokens: Vec<Token> = vec![];
    assert_eq!(retrieve_doc_comment(&tokens), None);
}

#[test]
fn only_whitespace_yields_nothing() {
    let tokens = vec![ws("\n")];
    assert_eq!(retrieve_doc_comment(&tokens), None);
}

#[test]
fn non_comment_yields_nothing() {
    let tokens = vec![other("1"), ws("\n")];
    assert_eq!(retrieve_doc_comment(&tokens), None);
}

#[test]
fn blank_line_breaks_attachment() {
    // "# old", a blank line, "# new": only the adjacent block counts.
    let tokens = vec![comment("# old"), ws("\n\n"), comment("# new"), ws("\n")];
    assert_eq!(retrieve_doc_comment(&tokens), Some(String::from("# new")));
}

#[test]
fn adjacent_line_comments_merge() {
    let tokens = vec![comment("# a"), ws("\n"), comment("# b"), ws("\n")];
    assert_eq!(retrieve_doc_comment(&tokens), Some(String::from("# a\n# b")));
}

#[test]
fn merge_keeps_qualifying_whitespace_before_non_comment() {
    // The single-newline whitespace is prepended even when what stands
    // before it is not a comment; the merge then stops.
    let tokens = vec![other("x"), ws("\n  "), comment("# c"), ws("\n")];
    assert_eq!(retrieve_doc_comment(&tokens), Some(String::from("\n  # c")));
}

#[test]
fn block_comment_taken_as_is() {
    let tokens = vec![comment("/* block */"), ws("\n")];
    assert_eq!(retrieve_doc_comment(&tokens), Some(String::from("/* block */")));
}

#[test]
fn block_comment_never_merges_with_line_comment() {
    let tokens = vec![comment("# before"), ws("\n"), comment("/* doc */"), ws("\n")];
    assert_eq!(retrieve_doc_comment(&tokens), Some(String::from("/* doc */")));
}

#[test]
fn block_comment_never_merges_with_block_comment() {
    let tokens = vec![comment("/* first */"), ws("\n"), comment("/* second */")];
    assert_eq!(retrieve_doc_comment(&tokens), Some(String::from("/* second */")));
}

#[test]
fn comment_without_trailing_whitespace_is_found() {
    let tokens = vec![comment("# direct")];
    assert_eq!(retrieve_doc_comment(&tokens), Some(String::from("# direct")));
}

#[test]
fn two_newlines_between_comments_stop_the_merge() {
    let tokens = vec![comment("# far"), ws("\n \n"), comment("# near")];
    assert_eq!(retrieve_doc_comment(&tokens), Some(String::from("# near")));
}
