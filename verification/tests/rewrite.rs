use catalog_lib::{
    handle_xml, rewrite_attributes, rewrite_event, rewrite_events, rewrite_value, standard_rules,
    Attribute, AttributeRewriteRule, DocumentVersion, ManifestEvent, OtherEvent, PathDialect,
    QName, RewriteAction, RewriteError,
};

fn text(bytes: Vec<u8>) -> String {
    String::from_utf8(bytes).unwrap()
}

fn slash() -> Vec<AttributeRewriteRule> {
    standard_rules(PathDialect::Slash)
}

#[test]
fn manifest_is_rewritten_end_to_end() {
    let input = br#"<Manifest baseLocation="C:\x"><SoftwareComponent path="a/b/c"/></Manifest>"#;
    let output = handle_xml(input, &slash()).unwrap();
    assert_eq!(
        text(output),
        r#"<Manifest baseLocation=""><SoftwareComponent path="c"/></Manifest>"#
    );
}

#[test]
fn backslash_dialect_keeps_the_second_segment() {
    let input = br#"<Manifest baseLocation="x"><SoftwareComponent path="FOLDER\pkg\file.exe"/></Manifest>"#;
    let output = handle_xml(input, &standard_rules(PathDialect::Backslash)).unwrap();
    assert_eq!(
        text(output),
        r#"<Manifest baseLocation=""><SoftwareComponent path="pkg"/></Manifest>"#
    );
}

#[test]
fn manifest_without_matching_elements_is_reproduced() {
    let input = "<?xml version=\"1.0\" encoding=\"UTF-8\"?>\n<Catalog id=\"7\">\n  <!-- kept -->\n  <Item name=\"a/b/c\" path=\"x/y/z\">text &amp; more</Item>\n  <Empty/>\n  <![CDATA[raw <data>]]>\n</Catalog>";
    let output = handle_xml(input.as_bytes(), &slash()).unwrap();
    assert_eq!(text(output), input);
}

#[test]
fn manifest_without_declaration_gets_none() {
    let input = r#"<a><b k="v">t</b></a>"#;
    let output = handle_xml(input.as_bytes(), &slash()).unwrap();
    assert_eq!(text(output), input);
}

#[test]
fn declaration_is_kept_where_the_manifest_has_one() {
    let input = r#"<?xml version="1.0" encoding="UTF-8"?><Manifest baseLocation="here"/>"#;
    let output = handle_xml(input.as_bytes(), &slash()).unwrap();
    assert_eq!(
        text(output),
        r#"<?xml version="1.0" encoding="UTF-8"?><Manifest baseLocation=""/>"#
    );
}

#[test]
fn other_attributes_keep_value_and_place() {
    let input = r#"<Manifest version="2" baseLocation="C:\x" id="m"><SoftwareComponent name="n" path="a/b/c" size="3"/></Manifest>"#;
    let output = handle_xml(input.as_bytes(), &slash()).unwrap();
    assert_eq!(
        text(output),
        r#"<Manifest version="2" baseLocation="" id="m"><SoftwareComponent name="n" path="c" size="3"/></Manifest>"#
    );
}

#[test]
fn namespaces_are_written_again() {
    let input = r#"<m:Manifest xmlns:m="urn:m" baseLocation="x"><m:SoftwareComponent path="a/b/c"/></m:Manifest>"#;
    let output = handle_xml(input.as_bytes(), &slash()).unwrap();
    assert_eq!(
        text(output),
        r#"<m:Manifest xmlns:m="urn:m" baseLocation=""><m:SoftwareComponent path="c"/></m:Manifest>"#
    );
}

#[test]
fn malformed_manifest_fails_as_a_whole() {
    let input = br#"<Manifest baseLocation="C:\x"><SoftwareComponent path="a/b/c"></Manifest>"#;
    assert_eq!(handle_xml(input, &slash()), Err(RewriteError::MalformedInput));
    assert_eq!(handle_xml(b"", &slash()), Err(RewriteError::MalformedInput));
    assert_eq!(handle_xml(b"<a><b></a>", &slash()), Err(RewriteError::MalformedInput));
    assert_eq!(handle_xml(b"no markup", &slash()), Err(RewriteError::MalformedInput));
}

#[test]
fn rewriting_twice_settles() {
    let input = br#"<Manifest baseLocation="C:\x"><SoftwareComponent path="a/b/c"/></Manifest>"#;
    let once = handle_xml(input, &slash()).unwrap();
    let twice = handle_xml(&once, &slash()).unwrap();
    assert_eq!(
        text(twice.clone()),
        r#"<Manifest baseLocation=""><SoftwareComponent path=""/></Manifest>"#
    );
    let thrice = handle_xml(&twice, &slash()).unwrap();
    assert_eq!(thrice, twice);
}

#[test]
fn segment_is_taken_by_index() {
    let third = RewriteAction::Segment { separator: '/', index: 2 };
    assert_eq!(rewrite_value(third, "a/b/c"), "c");
    assert_eq!(rewrite_value(third, "a/b/c/d"), "c");
    assert_eq!(rewrite_value(third, "a/b/"), "");
    assert_eq!(rewrite_value(third, "a/b"), "");
    assert_eq!(rewrite_value(third, "a//c"), "c");
    assert_eq!(rewrite_value(third, "//"), "");
    assert_eq!(rewrite_value(third, ""), "");
    assert_eq!(rewrite_value(third, "c"), "");
    let first = RewriteAction::Segment { separator: '/', index: 0 };
    assert_eq!(rewrite_value(first, "a/b/c"), "a");
    assert_eq!(rewrite_value(first, "abc"), "abc");
    assert_eq!(rewrite_value(first, "/abc"), "");
    assert_eq!(rewrite_value(first, ""), "");
    let second = RewriteAction::Segment { separator: '\\', index: 1 };
    assert_eq!(rewrite_value(second, "C:\\dir\\file"), "dir");
    assert_eq!(rewrite_value(second, "a/b/c"), "");
    assert_eq!(rewrite_value(second, "é\\ü\\ß"), "ü");
}

#[test]
fn clearing_empties_any_value() {
    assert_eq!(rewrite_value(RewriteAction::Clear, "C:\\x"), "");
    assert_eq!(rewrite_value(RewriteAction::Clear, ""), "");
}

#[test]
fn dialects_name_separator_and_index() {
    assert_eq!(PathDialect::Slash.action(), RewriteAction::Segment { separator: '/', index: 2 });
    assert_eq!(
        PathDialect::Backslash.action(),
        RewriteAction::Segment { separator: '\\', index: 1 }
    );
    let rules = standard_rules(PathDialect::Backslash);
    assert_eq!(rules.len(), 2);
    assert_eq!(rules[0], AttributeRewriteRule::new("Manifest", "baseLocation", RewriteAction::Clear));
    assert_eq!(
        rules[1],
        AttributeRewriteRule::new(
            "SoftwareComponent",
            "path",
            RewriteAction::Segment { separator: '\\', index: 1 }
        )
    );
}

#[test]
fn first_rule_that_names_the_attribute_wins() {
    let rules = vec![
        AttributeRewriteRule::new("software", "path", RewriteAction::Segment { separator: '\\', index: 1 }),
        AttributeRewriteRule::new("software", "path", RewriteAction::Clear),
        AttributeRewriteRule::new("Manufacturer", "baseLocation", RewriteAction::Clear),
    ];
    let attributes = vec![Attribute::new("path", "a\\b\\c"), Attribute::new("baseLocation", "x")];
    let rewritten = rewrite_attributes(&rules, "software", attributes);
    assert_eq!(rewritten, vec![Attribute::new("path", "b"), Attribute::new("baseLocation", "x")]);
    let attributes = vec![Attribute::new("path", "a\\b\\c"), Attribute::new("baseLocation", "x")];
    let rewritten = rewrite_attributes(&rules, "Manufacturer", attributes);
    assert_eq!(rewritten, vec![Attribute::new("path", "a\\b\\c"), Attribute::new("baseLocation", "")]);
}

#[test]
fn names_are_matched_exactly() {
    let rules = slash();
    let attributes = vec![Attribute::new("Path", "a/b/c"), Attribute::new("path ", "a/b/c")];
    let rewritten = rewrite_attributes(&rules, "SoftwareComponent", attributes.clone());
    assert_eq!(rewritten, attributes);
    let attributes = vec![Attribute::new("path", "a/b/c")];
    let rewritten = rewrite_attributes(&rules, "softwarecomponent", attributes.clone());
    assert_eq!(rewritten, attributes);
}

#[test]
fn only_start_tags_are_rewritten() {
    let rules = slash();
    let end = ManifestEvent::EndElement { name: QName::local("Manifest") };
    assert_eq!(
        rewrite_event(&rules, end),
        ManifestEvent::EndElement { name: QName::local("Manifest") }
    );
    let chars = ManifestEvent::Text("a/b/c".to_string());
    assert_eq!(rewrite_event(&rules, chars), ManifestEvent::Text("a/b/c".to_string()));
    let comment = ManifestEvent::Other(OtherEvent::Comment("path=\"a/b/c\"".to_string()));
    assert_eq!(
        rewrite_event(&rules, comment),
        ManifestEvent::Other(OtherEvent::Comment("path=\"a/b/c\"".to_string()))
    );
    let start = ManifestEvent::StartElement {
        name: QName::local("SoftwareComponent"),
        attributes: vec![Attribute::new("path", "a/b/c")],
        namespace: xml::namespace::Namespace::empty(),
    };
    assert_eq!(
        rewrite_event(&rules, start),
        ManifestEvent::StartElement {
            name: QName::local("SoftwareComponent"),
            attributes: vec![Attribute::new("path", "c")],
            namespace: xml::namespace::Namespace::empty(),
        }
    );
}

#[test]
fn declaration_is_dropped_on_request_only() {
    let rules = slash();
    let events = || {
        vec![
            ManifestEvent::Other(OtherEvent::StartDocument {
                version: DocumentVersion::Version10,
                encoding: "UTF-8".to_string(),
                standalone: None,
            }),
            ManifestEvent::StartElement {
                name: QName::local("Manifest"),
                attributes: vec![Attribute::new("baseLocation", "x")],
                namespace: xml::namespace::Namespace::empty(),
            },
            ManifestEvent::EndElement { name: QName::local("Manifest") },
            ManifestEvent::Other(OtherEvent::EndDocument),
        ]
    };
    let kept = rewrite_events(&rules, events(), true);
    assert_eq!(kept.len(), 4);
    assert_eq!(kept[0], events()[0]);
    let dropped = rewrite_events(&rules, events(), false);
    assert_eq!(dropped.len(), 3);
    assert_eq!(
        dropped[0],
        ManifestEvent::StartElement {
            name: QName::local("Manifest"),
            attributes: vec![Attribute::new("baseLocation", "")],
            namespace: xml::namespace::Namespace::empty(),
        }
    );
    assert_eq!(dropped[2], ManifestEvent::Other(OtherEvent::EndDocument));
}

#[test]
fn document_comes_out_in_the_writers_form() {
    let input = "<?xml version='1.0'?>\n<a x='1'>  <b></b><!--c--> <?pi data?> &lt;&#65;&gt; </a>\n";
    let output = handle_xml(input.as_bytes(), &slash()).unwrap();
    assert_eq!(
        text(output),
        "<?xml version=\"1.0\" encoding=\"UTF-8\"?>\n<a x=\"1\">  <b/><!--c--> <?pi data?> &lt;A&gt; </a>"
    );
}

#[test]
fn byte_order_mark_does_not_hide_the_declaration() {
    let input = "\u{feff}<?xml version=\"1.1\" encoding=\"utf-8\" standalone=\"yes\"?><Manifest baseLocation=\"x\"/>";
    let output = handle_xml(input.as_bytes(), &slash()).unwrap();
    assert_eq!(
        text(output),
        "<?xml version=\"1.1\" encoding=\"utf-8\" standalone=\"yes\"?><Manifest baseLocation=\"\"/>"
    );
    let input = "\u{feff}<Manifest baseLocation=\"x\"/>";
    let output = handle_xml(input.as_bytes(), &slash()).unwrap();
    assert_eq!(text(output), "<Manifest baseLocation=\"\"/>");
}

#[test]
fn instruction_at_the_start_is_no_declaration() {
    let input = "<?xml-stylesheet href=\"a.css\"?><Manifest baseLocation=\"x\"/>";
    let output = handle_xml(input.as_bytes(), &slash()).unwrap();
    assert_eq!(text(output), "<?xml-stylesheet href=\"a.css\"?><Manifest baseLocation=\"\"/>");
}

#[test]
fn rewritten_values_are_escaped_again() {
    let input = "<SoftwareComponent path=\"a/b/c&amp;d&quot;&lt;/e\"/>";
    let output = handle_xml(input.as_bytes(), &slash()).unwrap();
    assert_eq!(text(output), "<SoftwareComponent path=\"c&amp;d&quot;&lt;\"/>");
}
