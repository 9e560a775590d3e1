use nixdoc::docbook::end;
use nixdoc::docbook::finish;
use nixdoc::docbook::new_docbook_writer;
use nixdoc::docbook::write_sections_xml;
use nixdoc::Argument;
use nixdoc::ManualEntry;
use nixdoc::SingleArg;

fn entry(name: &str) -> ManualEntry {
    ManualEntry {
        category: String::from("strings"),
        name: String::from(name),
        fn_type: Some(String::from("f :: a -> b")),
        description: vec![String::from("Does a thing.")],
        example: Some(String::from("f 1\n")),
        args: vec![
            Argument::Flat(SingleArg {
                name: String::from("x"),
                doc: Some(String::from("the input ")),
            }),
        ],
    }
}

fn render(entries: &Vec<ManualEntry>) -> String {
    let mut w = new_docbook_writer();
    write_sections_xml(entries, &mut w).expect("writing sections must succeed");
    String::from_utf8(finish(w)).expect("the writer emits UTF-8")
}

#[test]
fn section_structure() {
    let out = render(&vec![entry("concat")]);
    assert!(out.contains("<section xml:id=\"function-library-lib.strings.concat\">"),
        "unexpected output: {out}");
    assert!(out.contains("<title><function>lib.strings.concat</function></title>"));
    assert!(out.contains("<xi:include href=\"./overrides/lib.strings.concat.xml\">"));
    assert!(out.contains("<xi:fallback>"));
    assert!(out.contains("<subtitle><literal>f :: a -&gt; b</literal></subtitle>"));
    assert!(out.contains("<para>Does a thing.</para>"));
    assert!(out.contains("<varname>x</varname>"));
    assert!(out.contains("<para>the input</para>"));
    assert!(out.contains("<![CDATA[f 1\n]]>"));
    assert!(out.contains("usage example"));
    assert!(out.contains(
        "<xi:include href=\"./locations.xml\" xpointer=\"lib.strings.concat\" />"
    ) || out.contains(
        "<xi:include href=\"./locations.xml\" xpointer=\"lib.strings.concat\"/>"
    ), "unexpected output: {out}");
}

#[test]
fn quote_rewritten_in_identifier_and_kept_in_title() {
    let out = render(&vec![entry("foo'")]);
    assert!(out.contains("function-library-lib.strings.foo-prime"));
    assert!(out.contains("<function>lib.strings.foo'</function>"));
}

#[test]
fn pattern_argument_nested_list() {
    let mut e = entry("zip");
    e.args = vec![Argument::Pattern(vec![
        SingleArg { name: String::from("a"), doc: None },
        SingleArg { name: String::from("b"), doc: Some(String::from("second")) },
    ])];
    let out = render(&vec![e]);
    assert!(out.contains("<varname>pattern</varname>"));
    assert!(out.contains("<para>Structured function argument</para>"));
    assert!(out.contains("<varname>a</varname>"));
    assert!(out.contains("<para>Function argument</para>"));
    assert!(out.contains("<varname>b</varname>"));
    assert!(out.contains("<para>second</para>"));
}

#[test]
fn entry_order_is_preserved_in_xml() {
    let out = render(&vec![entry("one"), entry("two")]);
    let p1 = out.find("function-library-lib.strings.one").unwrap();
    let p2 = out.find("function-library-lib.strings.two").unwrap();
    assert!(p1 < p2);
}

#[test]
fn characters_are_escaped_but_cdata_is_not() {
    let mut e = entry("esc");
    e.description = vec![String::from("a < b & c")];
    e.example = Some(String::from("if a < b then 1 else 2\n"));
    let out = render(&vec![e]);
    assert!(out.contains("<para>a &lt; b &amp; c</para>"));
    assert!(out.contains("<![CDATA[if a < b then 1 else 2\n]]>"));
}

#[test]
fn ending_with_no_open_element_fails() {
    let mut w = new_docbook_writer();
    assert!(end(&mut w).is_err());
}
