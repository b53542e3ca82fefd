use std::borrow::Cow;

use xml_serde::{
    field_token, Attribute, ChildrenDeserializer, Document, Error, FieldToken, FieldValue, Node,
    NodeKind, TextDeserializer,
};

fn add<'a>(doc: &mut Document<'a>, n: roxmltree::Node<'a, '_>) -> usize {
    let children: Vec<usize> = n.children().map(|c| add(doc, c)).collect();
    let node = Node {
        kind: if n.is_element() { NodeKind::Elem } else { NodeKind::Text },
        tag: n.tag_name().name(),
        namespace: n.tag_name().namespace(),
        attributes: n
            .attributes()
            .map(|a| Attribute { name: a.name(), namespace: a.namespace(), value: a.value() })
            .collect(),
        children,
        text: n.text(),
    };
    doc.push(node)
}

fn build<'a>(parsed: &'a roxmltree::Document) -> (Document<'a>, usize) {
    let mut doc = Document::new();
    let root = add(&mut doc, parsed.root_element());
    (doc, root)
}

fn names<'a>(fields: &[&'a str]) -> Vec<&'a str> {
    fields.to_vec()
}

fn nodes<'d, 'a>(v: Result<FieldValue<'d, 'a>, Error>) -> ChildrenDeserializer<'d, 'a> {
    match v.unwrap() {
        FieldValue::Nodes(c) => c,
        FieldValue::Text(_) => panic!("expected nodes"),
    }
}

fn text<'d, 'a>(v: Result<FieldValue<'d, 'a>, Error>) -> TextDeserializer<'a> {
    match v.unwrap() {
        FieldValue::Text(t) => t,
        FieldValue::Nodes(_) => panic!("expected text"),
    }
}

#[derive(PartialEq, Debug)]
struct Note<'a> {
    to: &'a str,
    from: &'a str,
    heading: &'a str,
    body: &'a str,
}

#[test]
fn parse_simple_xml() {
    let xml = r#"
            <note>
                <to>Tove</to>
                <from>Jani</from>
                <heading>Reminder</heading>
                <body>Don't forget me this weekend!</body>
            </note>"#;
    let parsed = roxmltree::Document::parse(xml).unwrap();
    let (doc, root) = build(&parsed);
    let mut map = ChildrenDeserializer::one(&doc, root)
        .deserialize_struct(names(&["to", "from", "heading", "body"]))
        .unwrap();
    assert_eq!(map.next_key(), Some("to"));
    let to = nodes(map.next_value()).deserialize_str();
    let from = nodes(map.next_value()).deserialize_str();
    let heading = nodes(map.next_value()).deserialize_str();
    let body = nodes(map.next_value()).deserialize_str();
    assert_eq!(map.next_key(), None);
    let note = Note { to, from, heading, body };
    assert_eq!(note, Note {
        to: "Tove",
        from: "Jani",
        heading: "Reminder",
        body: "Don't forget me this weekend!"
    })
}

#[derive(PartialEq, Debug)]
struct DiskId(u64);

#[derive(PartialEq, Debug)]
enum Genre {
    Rock,
    Metal,
}

#[derive(PartialEq, Debug)]
struct Genres {
    values: Vec<Genre>,
}

#[derive(PartialEq, Debug)]
struct Disk<'a> {
    id: DiskId,
    title: Cow<'a, str>,
    genres: Genres,
    price: f32,
    year: i32,
}

#[derive(PartialEq, Debug)]
struct Catalog<'a> {
    disks: Vec<Disk<'a>>,
}

fn read_genre(c: ChildrenDeserializer) -> Genre {
    let access = c.deserialize_enum().unwrap();
    let name = access.variant_seed().deserialize_identifier().unwrap();
    access.unit_variant().unwrap();
    match name {
        "rock" => Genre::Rock,
        "metal" => Genre::Metal,
        other => panic!("unknown variant {other}"),
    }
}

fn read_disk<'a>(c: ChildrenDeserializer<'_, 'a>) -> Disk<'a> {
    let mut map = c
        .deserialize_struct(names(&["id", "title", "genres", "price", "year"]))
        .unwrap();
    let id = DiskId(text(map.next_value()).deserialize_u64().unwrap());
    let title = Cow::Borrowed(nodes(map.next_value()).deserialize_str());
    let mut genres_map = nodes(map.next_value()).deserialize_struct(names(&["$all"])).unwrap();
    let values = nodes(genres_map.next_value())
        .elements()
        .into_iter()
        .map(read_genre)
        .collect();
    let price: f32 = nodes(map.next_value())
        .deserialize_scalar()
        .unwrap()
        .deserialize_str()
        .parse()
        .unwrap();
    let year = nodes(map.next_value()).deserialize_scalar().unwrap().deserialize_i32().unwrap();
    Disk { id, title, genres: Genres { values }, price, year }
}

#[test]
fn parse_array_xml() {
    let xml = r#"
            <catalog>
                <disk id="453678">
                    <title>Empire Burlesque</title>
                    <genres><rock/></genres>
                    <price>10.90</price>
                    <year>1985</year>
                </disk>
                <disk id="845783">
                    <title>Hide your heart</title>
                    <genres><metal/></genres>
                    <price>9.90</price>
                    <year>1988</year>
                </disk>
            </catalog>"#;
    let parsed = roxmltree::Document::parse(xml).unwrap();
    let (doc, root) = build(&parsed);
    let mut map = ChildrenDeserializer::one(&doc, root)
        .deserialize_struct(names(&["disk"]))
        .unwrap();
    let disks = nodes(map.next_value()).elements().into_iter().map(read_disk).collect();
    let catalog = Catalog { disks };
    assert_eq!(catalog, Catalog {
        disks: vec![
            Disk {
                id: DiskId(453678),
                title: Cow::Borrowed("Empire Burlesque"),
                genres: Genres { values: vec![Genre::Rock] },
                price: 10.90,
                year: 1985
            },
            Disk {
                id: DiskId(845783),
                title: Cow::Borrowed("Hide your heart"),
                genres: Genres { values: vec![Genre::Metal] },
                price: 9.90,
                year: 1988
            },
        ]
    })
}

#[test]
fn note_to_and_from() {
    let parsed = roxmltree::Document::parse("<note><to>Tove</to><from>Jani</from></note>").unwrap();
    let (doc, root) = build(&parsed);
    let mut map = ChildrenDeserializer::one(&doc, root)
        .deserialize_struct(names(&["to", "from"]))
        .unwrap();
    assert_eq!(nodes(map.next_value()).deserialize_str(), "Tove");
    assert_eq!(nodes(map.next_value()).deserialize_str(), "Jani");
    assert_eq!(map.next_value().err(), Some(Error::NodesExhausted));
}

#[test]
fn catalog_with_one_disk() {
    let parsed = roxmltree::Document::parse(r#"<catalog><disk id="453678"><title>X</title></disk></catalog>"#).unwrap();
    let (doc, root) = build(&parsed);
    let mut map = ChildrenDeserializer::one(&doc, root)
        .deserialize_struct(names(&["disk"]))
        .unwrap();
    let disks = nodes(map.next_value()).elements();
    assert_eq!(disks.len(), 1);
    let mut disk = disks.into_iter().next().unwrap().deserialize_struct(names(&["id", "title"])).unwrap();
    assert_eq!(text(disk.next_value()).deserialize_u64(), Ok(453678));
    assert_eq!(nodes(disk.next_value()).deserialize_str(), "X");
}

#[test]
fn all_children_as_enum_sequence() {
    let parsed = roxmltree::Document::parse("<genres><rock/></genres>").unwrap();
    let (doc, root) = build(&parsed);
    let mut map = ChildrenDeserializer::one(&doc, root)
        .deserialize_struct(names(&["$all"]))
        .unwrap();
    let values: Vec<Genre> = nodes(map.next_value()).elements().into_iter().map(read_genre).collect();
    assert_eq!(values, vec![Genre::Rock]);
}

#[test]
fn unit_of_empty_and_nonempty_element() {
    let parsed = roxmltree::Document::parse("<item></item>").unwrap();
    let (doc, root) = build(&parsed);
    let mut map = ChildrenDeserializer::one(&doc, root)
        .deserialize_struct(names(&["$all"]))
        .unwrap();
    assert_eq!(nodes(map.next_value()).deserialize_unit(), Ok(()));

    let parsed = roxmltree::Document::parse("<item><x/></item>").unwrap();
    let (doc, root) = build(&parsed);
    let mut map = ChildrenDeserializer::one(&doc, root)
        .deserialize_struct(names(&["$all"]))
        .unwrap();
    assert_eq!(
        nodes(map.next_value()).deserialize_unit(),
        Err(Error::ExpectedUnit(NodeKind::Elem))
    );
}

#[test]
fn missing_field_scalar_is_exhausted() {
    let parsed = roxmltree::Document::parse("<item><other>1</other></item>").unwrap();
    let (doc, root) = build(&parsed);
    let mut map = ChildrenDeserializer::one(&doc, root)
        .deserialize_struct(names(&["missing"]))
        .unwrap();
    let c = nodes(map.next_value());
    assert_eq!(c.deserialize_scalar().err(), Some(Error::NodesExhausted));
}

#[test]
fn absent_string_is_empty_but_absent_integer_fails() {
    let parsed = roxmltree::Document::parse("<item/>").unwrap();
    let (doc, root) = build(&parsed);
    let mut map = ChildrenDeserializer::one(&doc, root)
        .deserialize_struct(names(&["name", "count", "flag"]))
        .unwrap();
    assert_eq!(nodes(map.next_value()).deserialize_str(), "");
    assert_eq!(nodes(map.next_value()).deserialize_scalar().err(), Some(Error::NodesExhausted));
    assert_eq!(nodes(map.next_value()).deserialize_scalar().err(), Some(Error::NodesExhausted));
}

#[test]
fn same_tree_read_twice_gives_same_values() {
    let parsed = roxmltree::Document::parse(r#"<d id="7"><t>a</t><t>b</t></d>"#).unwrap();
    let (doc, root) = build(&parsed);
    let read = || {
        let mut map = ChildrenDeserializer::one(&doc, root)
            .deserialize_struct(names(&["id", "t"]))
            .unwrap();
        let id = text(map.next_value()).deserialize_u32().unwrap();
        let ts: Vec<&str> = nodes(map.next_value())
            .elements()
            .into_iter()
            .map(|c| c.deserialize_str())
            .collect();
        (id, ts)
    };
    assert_eq!(read(), read());
    assert_eq!(read(), (7, vec!["a", "b"]));
}

#[test]
fn tag_lookup_ignores_position_and_keeps_order() {
    let parsed = roxmltree::Document::parse("<r><a>1</a><b>x</b><a>2</a></r>").unwrap();
    let (doc1, r1) = build(&parsed);
    let parsed = roxmltree::Document::parse("<r><b>x</b><a>1</a><a>2</a></r>").unwrap();
    let (doc2, r2) = build(&parsed);
    for (doc, root) in [(&doc1, r1), (&doc2, r2)] {
        let mut map = ChildrenDeserializer::one(doc, root)
            .deserialize_struct(names(&["b", "a"]))
            .unwrap();
        assert_eq!(nodes(map.next_value()).deserialize_str(), "x");
        let a: Vec<&str> = nodes(map.next_value())
            .elements()
            .into_iter()
            .map(|c| c.deserialize_str())
            .collect();
        assert_eq!(a, vec!["1", "2"]);
    }
}

#[test]
fn attribute_wins_over_child() {
    let parsed = roxmltree::Document::parse(r#"<r k="attr"><k>child</k></r>"#).unwrap();
    let (doc, root) = build(&parsed);
    let mut map = ChildrenDeserializer::one(&doc, root)
        .deserialize_struct(names(&["k"]))
        .unwrap();
    assert_eq!(text(map.next_value()).deserialize_str(), "attr");
}

#[test]
fn sequence_consumes_exactly_the_remaining_nodes() {
    let parsed = roxmltree::Document::parse("<r><a>1</a><a>2</a><a>3</a></r>").unwrap();
    let (doc, root) = build(&parsed);
    let mut map = ChildrenDeserializer::one(&doc, root)
        .deserialize_struct(names(&["a", "none"]))
        .unwrap();
    let mut c = nodes(map.next_value());
    let first = c.next_element().unwrap();
    assert_eq!(first.deserialize_str(), "1");
    let rest = c.elements();
    assert_eq!(rest.len(), 2);
    let empty = nodes(map.next_value()).elements();
    assert!(empty.is_empty());
}

#[test]
fn text_marker_and_missing_text() {
    let parsed = roxmltree::Document::parse("<r><v>hello</v><e><x/></e></r>").unwrap();
    let (doc, root) = build(&parsed);
    let mut map = ChildrenDeserializer::one(&doc, root)
        .deserialize_struct(names(&["v", "e"]))
        .unwrap();
    let mut v = nodes(map.next_value()).deserialize_struct(names(&["$text"])).unwrap();
    assert_eq!(text(v.next_value()).deserialize_str(), "hello");
    let mut e = nodes(map.next_value()).deserialize_struct(names(&["$text"])).unwrap();
    assert_eq!(e.next_value().err(), Some(Error::ExpectedText(NodeKind::Elem)));
}

#[test]
fn namespace_filter_takes_any_namespace() {
    let parsed = roxmltree::Document::parse(r#"<r xmlns:p="urn:p"><p:item>1</p:item><item>2</item><p:item>3</p:item></r>"#).unwrap();
    let (doc, root) = build(&parsed);
    let mut map = ChildrenDeserializer::one(&doc, root)
        .deserialize_struct(names(&["$ns:item", "item"]))
        .unwrap();
    let ns: Vec<&str> =
        nodes(map.next_value()).elements().into_iter().map(|c| c.deserialize_str()).collect();
    assert_eq!(ns, vec!["1", "3"]);
    let all: Vec<&str> =
        nodes(map.next_value()).elements().into_iter().map(|c| c.deserialize_str()).collect();
    assert_eq!(all, vec!["1", "2", "3"]);
}

#[test]
fn option_and_identifier() {
    let parsed = roxmltree::Document::parse("<r><a>1</a></r>").unwrap();
    let (doc, root) = build(&parsed);
    let mut map = ChildrenDeserializer::one(&doc, root)
        .deserialize_struct(names(&["a", "b"]))
        .unwrap();
    let a = nodes(map.next_value());
    assert_eq!(a.deserialize_identifier(), Ok("a"));
    let some = a.deserialize_option().unwrap();
    assert_eq!(some.deserialize_str(), "1");
    let b = nodes(map.next_value());
    assert_eq!(b.deserialize_identifier(), Err(Error::NodesExhausted));
    assert!(b.deserialize_option().is_none());
}

#[test]
fn struct_and_enum_of_exhausted_cursor() {
    let parsed = roxmltree::Document::parse("<r/>").unwrap();
    let (doc, root) = build(&parsed);
    let mut map = ChildrenDeserializer::one(&doc, root)
        .deserialize_struct(names(&["a", "b"]))
        .unwrap();
    assert!(matches!(
        nodes(map.next_value()).deserialize_struct(names(&["x"])),
        Err(Error::NodesExhausted)
    ));
    assert!(matches!(nodes(map.next_value()).deserialize_enum(), Err(Error::NodesExhausted)));
}

#[test]
fn enum_payloads() {
    let parsed = roxmltree::Document::parse(r#"<list><pair><v>1</v><v>2</v></pair><named k="9"/><num>5</num></list>"#).unwrap();
    let (doc, root) = build(&parsed);
    let items = ChildrenDeserializer::one(&doc, root)
        .deserialize_struct(names(&["$all"]))
        .map(|mut m| nodes(m.next_value()).elements())
        .unwrap();
    let mut it = items.into_iter();
    let pair = it.next().unwrap().deserialize_enum().unwrap();
    assert_eq!(pair.variant_seed().deserialize_identifier(), Ok("pair"));
    let vals: Vec<&str> =
        pair.tuple_variant().elements().into_iter().map(|c| c.deserialize_str()).collect();
    assert_eq!(vals, vec!["1", "2"]);
    let named = it.next().unwrap().deserialize_enum().unwrap();
    let mut fields = named.struct_variant(names(&["k"]));
    assert_eq!(text(fields.next_value()).deserialize_i64(), Ok(9));
    let num = it.next().unwrap().deserialize_enum().unwrap();
    let v = num.newtype_variant_seed().deserialize_scalar().unwrap().deserialize_u8();
    assert_eq!(v, Ok(5));
}

#[test]
fn leaf_parses_scalars() {
    let t = |s: &'static str| TextDeserializer::new(s);
    assert_eq!(t("true").deserialize_bool(), Ok(true));
    assert_eq!(t("false").deserialize_bool(), Ok(false));
    assert!(matches!(t("yes").deserialize_bool(), Err(Error::ParseError(_))));
    assert_eq!(t("x").deserialize_char(), Ok('x'));
    assert!(matches!(t("xy").deserialize_char(), Err(Error::ParseError(_))));
    assert_eq!(t("255").deserialize_u8(), Ok(255));
    assert!(matches!(t("256").deserialize_u8(), Err(Error::ParseError(_))));
    assert!(matches!(t("-0").deserialize_u8(), Err(Error::ParseError(_))));
    assert_eq!(t("+42").deserialize_u16(), Ok(42));
    assert_eq!(t("-128").deserialize_i8(), Ok(-128));
    assert!(matches!(t("-129").deserialize_i8(), Err(Error::ParseError(_))));
    assert_eq!(t("-32768").deserialize_i16(), Ok(-32768));
    assert_eq!(t("4294967295").deserialize_u32(), Ok(4294967295));
    assert_eq!(t("-2147483648").deserialize_i32(), Ok(-2147483648));
    assert_eq!(t("18446744073709551615").deserialize_u64(), Ok(u64::MAX));
    assert_eq!(t("-9223372036854775808").deserialize_i64(), Ok(i64::MIN));
    assert!(matches!(t("").deserialize_u32(), Err(Error::ParseError(_))));
    assert!(matches!(t(" 1").deserialize_u32(), Err(Error::ParseError(_))));
}

#[test]
fn leaf_rejects_composites_and_handles_unit_and_option() {
    let t = |s: &'static str| TextDeserializer::new(s);
    assert_eq!(t("a").deserialize_seq(), Error::ExpectedArray(NodeKind::Text));
    assert_eq!(t("a").deserialize_map(), Error::ExpectedMap(NodeKind::Text));
    assert_eq!(t("a").deserialize_enum(), Error::ExpectedEnum(NodeKind::Text));
    assert_eq!(t("").deserialize_unit(), Ok(()));
    assert_eq!(t("a").deserialize_unit(), Err(Error::ExpectedUnit(NodeKind::Text)));
    assert!(t("").deserialize_option().is_none());
    assert_eq!(t("a").deserialize_option().unwrap().deserialize_str(), "a");
    assert_eq!(t("abc").deserialize_string(), "abc".to_string());
}

#[test]
fn field_tokens_are_classified() {
    assert!(matches!(field_token("$text"), FieldToken::Text));
    assert!(matches!(field_token("$all"), FieldToken::All));
    match field_token("$ns:item") {
        FieldToken::Namespaced(n) => assert_eq!(n, "item"),
        _ => panic!("expected a namespace filter"),
    }
    match field_token("title") {
        FieldToken::Name(n) => assert_eq!(n, "title"),
        _ => panic!("expected a plain name"),
    }
}

#[test]
fn error_messages() {
    assert_eq!(Error::NodesExhausted.message(), "nodes exhausted");
    assert_eq!(Error::ExpectedUnit(NodeKind::Text).message(), "expected unit, found text node");
    assert_eq!(Error::ExpectedArray(NodeKind::Elem).message(), "expected array, found xml node");
    assert_eq!(Error::ExpectedMap(NodeKind::Text).message(), "expected map, found text node");
    assert_eq!(Error::ExpectedEnum(NodeKind::Elem).message(), "expected enum, found xml node");
    assert_eq!(Error::ExpectedText(NodeKind::Elem).message(), "expected text, found xml node");
    assert_eq!(Error::ParseError("bad".to_string()).message(), "parse error: bad");
    assert_eq!(Error::custom("mine".to_string()), Error::Other("mine".to_string()));
    assert_eq!(Error::Other("mine".to_string()).message(), "mine");
    assert_eq!(NodeKind::Text.message(), "text node");
}

#[test]
fn document_builds_by_push() {
    let mut doc = Document::new();
    assert_eq!(doc.len(), 0);
    let leaf = doc.push(Node {
        kind: NodeKind::Text,
        tag: "",
        namespace: None,
        attributes: vec![],
        children: vec![],
        text: Some("hi"),
    });
    let root = doc.push(Node {
        kind: NodeKind::Elem,
        tag: "r",
        namespace: None,
        attributes: vec![],
        children: vec![leaf],
        text: Some("hi"),
    });
    assert_eq!((leaf, root, doc.len()), (0, 1, 2));
    assert_eq!(doc.node(root).children, vec![leaf]);
    assert_eq!(ChildrenDeserializer::one(&doc, root).into_child(), Some(root));
    assert_eq!(ChildrenDeserializer::new(&doc, vec![leaf, root]).into_text(), Some("hi"));
    assert_eq!(ChildrenDeserializer::one(&doc, leaf).into_text_deser().unwrap().deserialize_str(), "hi");
}
