use nixdoc::parse::parse_doc_comment;

#[test]
fn plain_description_only() {
    let c = parse_doc_comment("  Just a description.  ");
    assert_eq!(c.doc, "Just a description.");
    assert_eq!(c.doc_type, None);
    assert_eq!(c.example, None);
}

#[test]
fn all_three_sections() {
    let c = parse_doc_comment("Adds one.\n\n  Type: add :: int -> int\n  Example:\n    add 1\n");
    assert_eq!(c.doc, "Adds one.");
    assert_eq!(c.doc_type, Some(String::from("add :: int -> int")));
    assert_eq!(c.example, Some(String::from("\nadd 1\n")));
}

#[test]
fn type_collapses_to_one_line() {
    let c = parse_doc_comment("d\nType: a ->\n  b -> c\n");
    assert_eq!(c.doc, "d");
    assert_eq!(c.doc_type, Some(String::from("a ->b -> c")));
}

#[test]
fn markers_are_sticky() {
    // Once the mode has left the description, prose-looking lines stay
    // in the section that the marker opened.
    let c = parse_doc_comment("desc\nExample:\n  code\nstill example");
    assert_eq!(c.doc, "desc");
    assert_eq!(c.example, Some(String::from("\ncode\nstill example\n")));
}

#[test]
fn type_marker_after_example_switches_sections() {
    let c = parse_doc_comment("d\nExample:\n  one\nType: t\n");
    assert_eq!(c.doc, "d");
    assert_eq!(c.example, Some(String::from("\none\n")));
    assert_eq!(c.doc_type, Some(String::from("t")));
}

#[test]
fn both_markers_on_one_line() {
    let c = parse_doc_comment("Type:Example: x\n");
    assert_eq!(c.doc, "");
    assert_eq!(c.doc_type, None);
    assert_eq!(c.example, Some(String::from("x\n")));
}

#[test]
fn empty_input_gives_empty_doc() {
    let c = parse_doc_comment("");
    assert_eq!(c.doc, "");
    assert_eq!(c.doc_type, None);
    assert_eq!(c.example, None);
}

#[test]
fn lines_are_trimmed_in_description() {
    let c = parse_doc_comment("  a  \n  b  ");
    assert_eq!(c.doc, "a\nb");
}
