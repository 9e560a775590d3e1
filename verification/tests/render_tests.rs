use nixdoc::render_document;
use nixdoc::write_heading;
use nixdoc::Argument;
use nixdoc::ManualEntry;
use nixdoc::SingleArg;

fn entry(name: &str) -> ManualEntry {
    ManualEntry {
        category: String::from("strings"),
        name: String::from(name),
        fn_type: None,
        description: vec![String::from("Does something.")],
        example: None,
        args: vec![],
    }
}

#[test]
fn heading_format() {
    assert_eq!(
        write_heading("strings", "String functions"),
        "# String functions {#sec-functions-library-strings}\n\n"
    );
}

#[test]
fn section_exact_output() {
    let e = ManualEntry {
        category: String::from("strings"),
        name: String::from("concat"),
        fn_type: Some(String::from("concat :: [string] -> string")),
        description: vec![String::from("Concatenate."), String::from("A second paragraph.")],
        example: Some(String::from("concat [ \"a\" ]\n")),
        args: vec![
            Argument::Flat(SingleArg {
                name: String::from("list"),
                doc: Some(String::from("# the list ")),
            }),
        ],
    };
    let expected = "## `lib.strings.concat` {#function-library-lib.strings.concat}\n\n\
Type: `concat :: [string] -> string`\n\n\
Concatenate.\n\n\
A second paragraph.\n\n\
- `list`: # the list\n\
\n\
Example:\n\n```nix\nconcat [ \"a\" ]\n```\n\n";
    assert_eq!(e.write_section(), expected);
}

#[test]
fn pattern_argument_output() {
    let e = ManualEntry {
        category: String::from("attrsets"),
        name: String::from("zip"),
        fn_type: None,
        description: vec![String::new()],
        example: None,
        args: vec![
            Argument::Pattern(vec![
                SingleArg { name: String::from("first"), doc: None },
                SingleArg { name: String::from("second"), doc: Some(String::from("other")) },
            ]),
        ],
    };
    let out = e.write_section();
    let mut expected_args = String::from("- structured function argument\n");
    expected_args.push_str("  - `first`: Function argument\n");
    expected_args.push_str("  - `second`: other\n");
    expected_args.push_str("\n");
    let expected_args = expected_args.as_str();
    assert!(out.contains(expected_args), "unexpected output: {out}");
}

#[test]
fn quote_in_name_is_rewritten_in_anchor_only() {
    let e = entry("foo'");
    let out = e.write_section();
    assert!(out.starts_with(
        "## `lib.strings.foo'` {#function-library-lib.strings.foo-prime}\n\n"
    ));
    // The anchor holds no quote at all.
    let anchor_start = out.find("{#").unwrap();
    let anchor_end = out.find("}\n").unwrap();
    assert!(!out[anchor_start..anchor_end].contains('\''));
}

#[test]
fn entry_order_is_preserved() {
    let entries = vec![entry("one"), entry("two"), entry("three")];
    let out = render_document("strings", "String functions", &entries);
    let p1 = out.find("## `lib.strings.one`").unwrap();
    let p2 = out.find("## `lib.strings.two`").unwrap();
    let p3 = out.find("## `lib.strings.three`").unwrap();
    assert!(p1 < p2 && p2 < p3);
    assert!(out.starts_with("# String functions {#sec-functions-library-strings}\n\n"));
}

#[test]
fn document_is_heading_plus_sections() {
    let entries = vec![entry("solo")];
    let out = render_document("strings", "Strings", &entries);
    let expected = format!(
        "{}{}",
        write_heading("strings", "Strings"),
        entries[0].write_section()
    );
    assert_eq!(out, expected);
}
