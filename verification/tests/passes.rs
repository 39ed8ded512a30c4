use d2m::declare::{parse_compound_declaration, parse_index};
use d2m::define::parse_compound_definition;
use d2m::model::{AccessModifier, CompoundKind, ClassVariant, IngestError, Registry};
use d2m::xml::{XmlElement, XmlNode};

fn el(name: &str) -> XmlElement {
    XmlElement::new(name.to_string())
}

fn txt(s: &str) -> XmlNode {
    XmlNode::Text(s.to_string())
}

fn with_text(name: &str, s: &str) -> XmlElement {
    let mut e = el(name);
    e.push_child(txt(s));
    e
}

/// An index declaration of one compound with the given members.
fn compound_decl(refid: &str, kind: &str, name: &str, members: &[(&str, &str)]) -> XmlElement {
    let mut c = el("compound");
    c.push_attr("refid".to_string(), refid.to_string());
    c.push_attr("kind".to_string(), kind.to_string());
    c.push_child(XmlNode::Elem(with_text("name", name)));
    for (mid, mkind) in members {
        let mut m = el("member");
        m.push_attr("refid".to_string(), mid.to_string());
        m.push_attr("kind".to_string(), mkind.to_string());
        c.push_child(XmlNode::Elem(m));
    }
    c
}

fn index_with(compounds: Vec<XmlElement>) -> XmlElement {
    let mut root = el("doxygenindex");
    for c in compounds {
        root.push_child(XmlNode::Elem(c));
    }
    root
}

/// A member-definition element for a function, with the boolean attributes
/// and required text children filled in.
fn function_memberdef(id: &str, prot: &str, name: &str, args: &str) -> XmlElement {
    let mut m = el("memberdef");
    m.push_attr("id".to_string(), id.to_string());
    m.push_attr("kind".to_string(), "function".to_string());
    m.push_attr("prot".to_string(), prot.to_string());
    m.push_attr("static".to_string(), "no".to_string());
    m.push_attr("const".to_string(), "no".to_string());
    m.push_attr("explicit".to_string(), "no".to_string());
    m.push_attr("inline".to_string(), "no".to_string());
    m.push_attr("virt".to_string(), "non-virtual".to_string());
    m.push_child(XmlNode::Elem(with_text("name", name)));
    m.push_child(XmlNode::Elem(with_text("definition", "void f()")));
    m.push_child(XmlNode::Elem(with_text("type", "void")));
    m.push_child(XmlNode::Elem(with_text("argsstring", args)));
    m
}

/// A compound-definition document element holding the given children.
fn compounddef(id: &str, kind: &str, children: Vec<XmlNode>) -> XmlElement {
    let mut e = el("compounddef");
    e.push_attr("kind".to_string(), kind.to_string());
    e.push_attr("id".to_string(), id.to_string());
    for ch in children {
        e.push_child(ch);
    }
    e
}

#[test]
fn declaration_pass_allocates_defaults() {
    let root = index_with(vec![compound_decl(
        "C1",
        "class",
        "ns::C1",
        &[("F1", "function"), ("V1", "variable"), ("E1", "enum"), ("D1", "define")],
    )]);
    let reg = parse_index(&root).unwrap();

    let c = reg.compounds.get("C1").unwrap();
    assert_eq!(c.name, "ns::C1");
    assert_eq!(c.kind, CompoundKind::CLASS);
    assert_eq!(c.title, "?");
    assert_eq!(c.functions, vec!["F1"]);
    assert_eq!(c.variables, vec!["V1"]);
    assert_eq!(c.enums, vec!["E1"]);
    assert_eq!(c.defines, vec!["D1"]);

    let f = reg.functions.get("F1").unwrap();
    assert_eq!(f.name, "");
    assert_eq!(f.access, AccessModifier::PRIVATE);
    assert!(f.is_member);
    assert_eq!(f.parameter_names.len(), 0);

    let v = reg.variables.get("V1").unwrap();
    assert_eq!(v.name, "?");
    assert!(!v.is_static);

    assert_eq!(reg.enums.get("E1").unwrap().name, "?");
    assert_eq!(reg.defines.get("D1").unwrap().name, "?");

    let cl = reg.classes.get("C1").unwrap();
    assert_eq!(cl.unqualified_name, "C1");
    assert_eq!(cl.variant, ClassVariant::CLASS);
    assert_eq!(cl.template_args.len(), 0);
}

#[test]
fn group_members_are_not_class_members() {
    let root = index_with(vec![compound_decl("G1", "group", "core", &[("F1", "function")])]);
    let reg = parse_index(&root).unwrap();
    assert!(!reg.functions.get("F1").unwrap().is_member);
    assert!(reg.classes.get("G1").is_none());
}

#[test]
fn friend_and_typedef_members_are_discarded() {
    let root = index_with(vec![compound_decl(
        "C1",
        "struct",
        "S",
        &[("FR", "friend"), ("TD", "typedef")],
    )]);
    let reg = parse_index(&root).unwrap();
    let c = reg.compounds.get("C1").unwrap();
    assert_eq!(c.functions.len(), 0);
    assert_eq!(c.variables.len(), 0);
    assert!(reg.functions.get("FR").is_none());
    assert_eq!(reg.classes.get("C1").unwrap().variant, ClassVariant::STRUCT);
}

#[test]
fn unknown_compound_kind_is_fatal() {
    let root = index_with(vec![compound_decl("C1", "banana", "X", &[])]);
    assert!(matches!(parse_index(&root), Err(IngestError::UnknownCompoundKind)));
}

#[test]
fn unknown_member_kind_is_fatal() {
    let root = index_with(vec![compound_decl("C1", "class", "X", &[("M1", "gadget")])]);
    assert!(matches!(parse_index(&root), Err(IngestError::UnknownMemberKind)));
}

#[test]
fn duplicate_compound_identifier_is_fatal() {
    let root = index_with(vec![
        compound_decl("C1", "group", "a", &[]),
        compound_decl("C1", "group", "b", &[]),
    ]);
    assert!(matches!(parse_index(&root), Err(IngestError::DuplicateIdentifier)));
}

#[test]
fn declaration_without_refid_is_fatal() {
    let mut c = el("compound");
    c.push_attr("kind".to_string(), "group".to_string());
    let mut reg = Registry::new();
    assert_eq!(
        parse_compound_declaration(&mut reg, &c),
        Err(IngestError::MissingAttribute)
    );
}

#[test]
fn two_pass_round_trip_fills_the_declared_function() {
    let root = index_with(vec![compound_decl("C1", "class", "C1", &[("F1", "function")])]);
    let mut reg = parse_index(&root).unwrap();

    let mut sect = el("sectiondef");
    sect.push_child(XmlNode::Elem(function_memberdef("F1", "public", "start", "(int x)")));
    let doc = compounddef("C1", "class", vec![XmlNode::Elem(sect)]);

    parse_compound_definition(&doc, &mut reg).unwrap();

    let f = reg.functions.get("F1").unwrap();
    assert_eq!(f.access, AccessModifier::PUBLIC);
    assert_eq!(f.name, "start");
    assert_eq!(f.return_type, "void");
    assert!(f.is_member);
    assert_eq!(reg.compounds.get("C1").unwrap().functions, vec!["F1"]);
}

#[test]
fn running_the_definition_pass_twice_changes_nothing() {
    let root = index_with(vec![compound_decl("C1", "class", "C1", &[("F1", "function")])]);
    let mut reg = parse_index(&root).unwrap();

    let mut m = function_memberdef("F1", "protected", "go", "(const int a, const B& b)");
    let mut p1 = el("param");
    p1.push_child(XmlNode::Elem(with_text("declname", "a")));
    m.push_child(XmlNode::Elem(p1));
    let mut p2 = el("param");
    p2.push_child(XmlNode::Elem(with_text("declname", "b")));
    m.push_child(XmlNode::Elem(p2));
    let mut sect = el("sectiondef");
    sect.push_child(XmlNode::Elem(m));
    let mut inner = el("innerclass");
    inner.push_attr("refid".to_string(), "C9".to_string());
    let doc = compounddef(
        "C1",
        "class",
        vec![
            XmlNode::Elem(with_text("title", "The C1 class")),
            XmlNode::Elem(inner),
            XmlNode::Elem(sect),
        ],
    );

    parse_compound_definition(&doc, &mut reg).unwrap();
    let once_args = reg.functions.get("F1").unwrap().args.clone();
    let once_params = reg.functions.get("F1").unwrap().parameter_names.clone();

    parse_compound_definition(&doc, &mut reg).unwrap();
    let f = reg.functions.get("F1").unwrap();
    assert_eq!(f.args, once_args);
    assert_eq!(f.parameter_names, once_params);
    assert_eq!(f.parameter_names, vec!["a", "b"]);
    assert_eq!(f.access, AccessModifier::PROTECTED);
    assert!(f.is_member);

    let c = reg.compounds.get("C1").unwrap();
    assert_eq!(c.title, "The C1 class");
    assert_eq!(c.classes, vec!["C9"]);
}

#[test]
fn file_and_namespace_documents_are_skipped() {
    let root = index_with(vec![compound_decl("C1", "class", "C1", &[])]);
    let mut reg = parse_index(&root).unwrap();
    let doc = compounddef("NOT_DECLARED", "file", vec![XmlNode::Elem(with_text("title", "T"))]);
    parse_compound_definition(&doc, &mut reg).unwrap();
    assert_eq!(reg.compounds.get("C1").unwrap().title, "?");
}

#[test]
fn undeclared_compound_definition_is_fatal() {
    let mut reg = Registry::new();
    let doc = compounddef("GHOST", "class", vec![]);
    assert_eq!(
        parse_compound_definition(&doc, &mut reg),
        Err(IngestError::UnknownIdentifier)
    );
}

#[test]
fn unknown_access_modifier_is_fatal() {
    let root = index_with(vec![compound_decl("C1", "class", "C1", &[("F1", "function")])]);
    let mut reg = parse_index(&root).unwrap();
    let mut m = function_memberdef("F1", "banana", "f", "()");
    m.push_attr("ignored".to_string(), "x".to_string());
    let mut sect = el("sectiondef");
    sect.push_child(XmlNode::Elem(m));
    let doc = compounddef("C1", "class", vec![XmlNode::Elem(sect)]);
    assert_eq!(
        parse_compound_definition(&doc, &mut reg),
        Err(IngestError::UnknownAccessModifier)
    );
}

#[test]
fn memberdef_missing_required_child_is_fatal() {
    let root = index_with(vec![compound_decl("C1", "class", "C1", &[("F1", "function")])]);
    let mut reg = parse_index(&root).unwrap();
    let mut m = el("memberdef");
    m.push_attr("id".to_string(), "F1".to_string());
    m.push_attr("kind".to_string(), "function".to_string());
    m.push_attr("prot".to_string(), "public".to_string());
    m.push_attr("static".to_string(), "no".to_string());
    m.push_attr("const".to_string(), "no".to_string());
    m.push_attr("explicit".to_string(), "no".to_string());
    m.push_attr("inline".to_string(), "no".to_string());
    m.push_attr("virt".to_string(), "non-virtual".to_string());
    let mut sect = el("sectiondef");
    sect.push_child(XmlNode::Elem(m));
    let doc = compounddef("C1", "class", vec![XmlNode::Elem(sect)]);
    assert_eq!(
        parse_compound_definition(&doc, &mut reg),
        Err(IngestError::MissingChild)
    );
}

#[test]
fn title_and_inner_references_fill_the_compound() {
    let root = index_with(vec![
        compound_decl("G1", "group", "core", &[]),
        compound_decl("C1", "class", "C1", &[]),
    ]);
    let mut reg = parse_index(&root).unwrap();

    let mut inner1 = el("innerclass");
    inner1.push_attr("refid".to_string(), "C1".to_string());
    let mut inner2 = el("innerclass");
    inner2.push_attr("refid".to_string(), "C1".to_string());
    let mut inner3 = el("innernamespace");
    inner3.push_attr("refid".to_string(), "N1".to_string());
    let mut inner4 = el("innergroup");
    inner4.push_attr("refid".to_string(), "G2".to_string());
    let doc = compounddef(
        "G1",
        "group",
        vec![
            XmlNode::Elem(with_text("title", "The Core")),
            XmlNode::Elem(inner1),
            XmlNode::Elem(inner2),
            XmlNode::Elem(inner3),
            XmlNode::Elem(inner4),
        ],
    );
    parse_compound_definition(&doc, &mut reg).unwrap();

    let g = reg.compounds.get("G1").unwrap();
    assert_eq!(g.title, "The Core");
    assert_eq!(g.classes, vec!["C1"]);
    assert_eq!(g.namespaces, vec!["N1"]);
    assert_eq!(g.groups, vec!["G2"]);
}

#[test]
fn template_parameters_reach_the_class_entity() {
    let root = index_with(vec![compound_decl("C1", "class", "C1", &[])]);
    let mut reg = parse_index(&root).unwrap();

    let mut tpl = el("templateparamlist");
    let mut p = el("param");
    p.push_child(XmlNode::Elem(with_text("type", "typename T")));
    tpl.push_child(XmlNode::Elem(p));
    let doc = compounddef("C1", "class", vec![XmlNode::Elem(tpl)]);
    parse_compound_definition(&doc, &mut reg).unwrap();

    assert_eq!(reg.classes.get("C1").unwrap().template_args, vec!["typename T"]);
}

#[test]
fn variable_definition_fills_all_fields() {
    let root = index_with(vec![compound_decl("G1", "group", "g", &[("V1", "variable")])]);
    let mut reg = parse_index(&root).unwrap();

    let mut m = el("memberdef");
    m.push_attr("id".to_string(), "V1".to_string());
    m.push_attr("kind".to_string(), "variable".to_string());
    m.push_attr("prot".to_string(), "public".to_string());
    m.push_attr("static".to_string(), "yes".to_string());
    m.push_attr("mutable".to_string(), "no".to_string());
    m.push_child(XmlNode::Elem(with_text("name", "count")));
    m.push_child(XmlNode::Elem(with_text("qualifiedname", "ns::count")));
    m.push_child(XmlNode::Elem(with_text("definition", "int ns::count")));
    let mut sect = el("sectiondef");
    sect.push_child(XmlNode::Elem(m));
    let doc = compounddef("G1", "group", vec![XmlNode::Elem(sect)]);
    parse_compound_definition(&doc, &mut reg).unwrap();

    let v = reg.variables.get("V1").unwrap();
    assert_eq!(v.name, "count");
    assert_eq!(v.qualified_name, "ns::count");
    assert_eq!(v.definition, "int ns::count");
    assert!(v.is_static);
    assert!(!v.is_mutable);
    // constexpr defaults to no when its attribute is absent
    assert!(!v.is_constexpr);
    assert_eq!(v.access, AccessModifier::PUBLIC);
}

#[test]
fn enum_definition_collects_values_and_strips_initializers() {
    let root = index_with(vec![compound_decl("G1", "group", "g", &[("E1", "enum")])]);
    let mut reg = parse_index(&root).unwrap();

    let mut m = el("memberdef");
    m.push_attr("id".to_string(), "E1".to_string());
    m.push_attr("kind".to_string(), "enum".to_string());
    m.push_attr("strong".to_string(), "yes".to_string());
    m.push_child(XmlNode::Elem(with_text("name", "Mode")));
    m.push_child(XmlNode::Elem(with_text("qualifiedname", "ns::Mode")));
    let mut v1 = el("enumvalue");
    v1.push_child(XmlNode::Elem(with_text("name", "On")));
    v1.push_child(XmlNode::Elem(with_text("initializer", "= 1")));
    let mut v2 = el("enumvalue");
    v2.push_child(XmlNode::Elem(with_text("name", "Off")));
    m.push_child(XmlNode::Elem(v1));
    m.push_child(XmlNode::Elem(v2));
    let mut sect = el("sectiondef");
    sect.push_child(XmlNode::Elem(m));
    let doc = compounddef("G1", "group", vec![XmlNode::Elem(sect)]);
    parse_compound_definition(&doc, &mut reg).unwrap();

    let e = reg.enums.get("E1").unwrap();
    assert_eq!(e.name, "Mode");
    assert_eq!(e.qualified_name, "ns::Mode");
    assert!(e.is_scoped);
    assert_eq!(e.values.len(), 2);
    assert_eq!(e.values[0].name, "On");
    assert_eq!(e.values[0].initializer, "1");
    assert_eq!(e.values[1].name, "Off");
    assert_eq!(e.values[1].initializer, "");
}
