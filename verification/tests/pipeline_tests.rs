use nixdoc::assemble_entries;
use nixdoc::render_document;
use nixdoc::Binding;
use nixdoc::Lambda;
use nixdoc::Param;
use nixdoc::Token;
use nixdoc::TokenKind;

fn comment(text: &str) -> Token {
    Token { kind: TokenKind::Comment, text: String::from(text) }
}

fn ws(text: &str) -> Token {
    Token { kind: TokenKind::Whitespace, text: String::from(text) }
}

fn documented(name: &str, doc: &str) -> Binding {
    Binding { name: String::from(name), tokens: vec![comment(doc), ws("\n")], value: None }
}

fn undocumented(name: &str) -> Binding {
    Binding { name: String::from(name), tokens: vec![], value: None }
}

#[test]
fn undocumented_bindings_leave_no_entry() {
    let entries = assemble_entries(
        "trivial",
        vec![documented("id", "# The identity."), undocumented("ghost_free"), documented(
            "const",
            "# The constant function.",
        )],
    );
    assert_eq!(entries.len(), 2);
    assert_eq!(entries[0].name, "id");
    assert_eq!(entries[1].name, "const");
    assert_eq!(entries[0].category, "trivial");
    assert_eq!(entries[0].description, vec![String::from("# The identity.")]);
}

#[test]
fn whole_pipeline_produces_ordered_document() {
    let mut f = documented("compose", "# Compose two functions.\n# In order.");
    f.value = Some(Lambda {
        param: Param::Ident { name: String::from("f"), tokens: vec![] },
        body: Some(Box::new(Lambda {
            param: Param::Ident { name: String::from("g"), tokens: vec![] },
            body: None,
        })),
    });
    let bindings = vec![f, documented("id", "# Identity.")];
    let entries = assemble_entries("trivial", bindings);
    let out = render_document("trivial", "Trivial functions", &entries);
    assert!(out.starts_with("# Trivial functions {#sec-functions-library-trivial}\n\n"));
    let p1 = out.find("## `lib.trivial.compose`").unwrap();
    let p2 = out.find("## `lib.trivial.id`").unwrap();
    assert!(p1 < p2);
    assert!(out.contains("# Compose two functions.\n# In order.\n\n"));
    assert!(out.contains("- `f`: Function argument\n- `g`: Function argument\n"));
}
