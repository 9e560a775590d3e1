use nixdoc::collect::make_manual_entry;
use nixdoc::Argument;
use nixdoc::Binding;
use nixdoc::DocComment;
use nixdoc::DocItem;
use nixdoc::Lambda;
use nixdoc::Param;
use nixdoc::PatEntry;
use nixdoc::Token;
use nixdoc::TokenKind;
use nixdoc::collect_entry_information;
use nixdoc::collect_lambda_args;
use nixdoc::retrieve_doc_item;

fn comment(text: &str) -> Token {
    Token { kind: TokenKind::Comment, text: String::from(text) }
}

fn ws(text: &str) -> Token {
    Token { kind: TokenKind::Whitespace, text: String::from(text) }
}

#[test]
fn curry_flattening() {
    // takes `a`, which returns a function taking pattern `{b, c}`,
    // whose body is a non-function value
    let inner = Lambda {
        param: Param::Pattern {
            entries: vec![
                PatEntry { name: String::from("b"), tokens: vec![] },
                PatEntry { name: String::from("c"), tokens: vec![] },
            ],
        },
        body: None,
    };
    let outer = Lambda {
        param: Param::Ident { name: String::from("a"), tokens: vec![] },
        body: Some(Box::new(inner)),
    };
    let args = collect_lambda_args(&outer);
    assert_eq!(args.len(), 2);
    match &args[0] {
        Argument::Flat(s) => {
            assert_eq!(s.name, "a");
            assert_eq!(s.doc, None);
        },
        Argument::Pattern(_) => panic!("first argument should be flat"),
    }
    match &args[1] {
        Argument::Pattern(entries) => {
            assert_eq!(entries.len(), 2);
            assert_eq!(entries[0].name, "b");
            assert_eq!(entries[1].name, "c");
        },
        Argument::Flat(_) => panic!("second argument should be a pattern"),
    }
}

#[test]
fn argument_docs_are_harvested() {
    let l = Lambda {
        param: Param::Ident {
            name: String::from("n"),
            tokens: vec![comment("# the number"), ws("\n")],
        },
        body: None,
    };
    let args = collect_lambda_args(&l);
    assert_eq!(args.len(), 1);
    match &args[0] {
        Argument::Flat(s) => assert_eq!(s.doc, Some(String::from("# the number"))),
        Argument::Pattern(_) => panic!("argument should be flat"),
    }
}

#[test]
fn undocumented_binding_is_excluded() {
    let b = Binding { name: String::from("id"), tokens: vec![], value: None };
    assert!(retrieve_doc_item(&b).is_none());
    assert!(collect_entry_information(&b).is_none());
}

#[test]
fn undocumented_binding_with_lambda_is_still_excluded() {
    let l = Lambda { param: Param::Ident { name: String::from("x"), tokens: vec![] }, body: None };
    let b = Binding { name: String::from("f"), tokens: vec![ws("\n\n")], value: Some(l) };
    assert!(collect_entry_information(&b).is_none());
}

#[test]
fn documented_binding_yields_item() {
    let b = Binding {
        name: String::from("concat"),
        tokens: vec![comment("# Concatenate.\n"), ws("\n")],
        value: None,
    };
    let item = collect_entry_information(&b).expect("documented binding must yield an item");
    assert_eq!(item.name, "concat");
    assert_eq!(item.comment.doc, "# Concatenate.");
    assert_eq!(item.args.len(), 0);
}

#[test]
fn paragraph_splitting_round_trip() {
    let item = DocItem {
        name: String::from("p"),
        comment: DocComment {
            doc: String::from("a\nb\n\nc\nd"),
            doc_type: None,
            example: None,
        },
        args: vec![],
    };
    let entry = make_manual_entry("lists", item);
    assert_eq!(entry.description, vec![String::from("a\nb"), String::from("c\nd")]);
    assert_eq!(entry.category, "lists");
    assert_eq!(entry.name, "p");
}

#[test]
fn empty_description_yields_one_empty_paragraph() {
    let item = DocItem {
        name: String::from("q"),
        comment: DocComment { doc: String::new(), doc_type: None, example: None },
        args: vec![],
    };
    let entry = make_manual_entry("lists", item);
    assert_eq!(entry.description, vec![String::new()]);
}
