use d2m::comment::{extract_comment, extract_text, parse_parameter_list};
use d2m::model::IngestError;
use d2m::xml::{XmlElement, XmlNode};

fn el(name: &str) -> XmlElement {
    XmlElement::new(name.to_string())
}

fn txt(s: &str) -> XmlNode {
    XmlNode::Text(s.to_string())
}

fn with_text(name: &str, s: &str) -> XmlElement {
    let mut e = el(name);
    e.push_child(txt(s));
    e
}

/// A parameter list element with one (name, description) item per pair.
fn parameter_list(kind: &str, entries: &[(&str, &str)]) -> XmlElement {
    let mut pl = el("parameterlist");
    pl.push_attr("kind".to_string(), kind.to_string());
    for (name, desc) in entries {
        let mut item = el("parameteritem");
        let mut name_list = el("parameternamelist");
        name_list.push_child(XmlNode::Elem(with_text("parametername", name)));
        item.push_child(XmlNode::Elem(name_list));
        item.push_child(XmlNode::Elem(with_text("parameterdescription", desc)));
        pl.push_child(XmlNode::Elem(item));
    }
    pl
}

fn simple_section(kind: &str, text: &str) -> XmlElement {
    let mut ss = el("simplesect");
    ss.push_attr("kind".to_string(), kind.to_string());
    ss.push_child(XmlNode::Elem(with_text("para", text)));
    ss
}

/// A member element whose detailed description holds the given paragraphs.
fn member_with_detail(paras: Vec<XmlElement>) -> XmlElement {
    let mut detailed = el("detaileddescription");
    for p in paras {
        detailed.push_child(XmlNode::Elem(p));
    }
    let mut e = el("memberdef");
    e.push_child(XmlNode::Elem(detailed));
    e
}

#[test]
fn plain_text_node_is_trimmed() {
    let e = with_text("para", "  some words  ");
    assert_eq!(extract_text(&e).unwrap(), "some words");
}

#[test]
fn list_items_get_markers_and_line_breaks() {
    let mut list = el("itemizedlist");
    list.push_child(XmlNode::Elem(with_text("listitem", "A")));
    list.push_child(XmlNode::Elem(with_text("listitem", "B")));
    let flat = extract_text(&list).unwrap();
    assert_eq!(flat, "* A\n* B\n");
    let mut para = el("para");
    para.push_child(XmlNode::Elem(list));
    assert_eq!(extract_text(&para).unwrap(), "\n* A\n* B\n");
}

#[test]
fn inline_code_is_back_quoted() {
    let mut para = el("para");
    para.push_child(txt("Call"));
    para.push_child(XmlNode::Elem(with_text("computeroutput", "foo()")));
    para.push_child(txt("now."));
    assert_eq!(extract_text(&para).unwrap(), "Call `foo()` now.");
}

#[test]
fn cross_reference_contributes_its_inner_text() {
    let mut r = with_text("ref", "Widget");
    r.push_attr("refid".to_string(), "class_widget".to_string());
    r.push_attr("kindref".to_string(), "compound".to_string());
    let mut para = el("para");
    para.push_child(txt("See"));
    para.push_child(XmlNode::Elem(r));
    assert_eq!(extract_text(&para).unwrap(), "SeeWidget");
}

#[test]
fn cross_reference_without_identifier_is_fatal() {
    let mut para = el("para");
    para.push_child(XmlNode::Elem(with_text("ref", "Widget")));
    assert_eq!(extract_text(&para), Err(IngestError::MissingAttribute));
}

#[test]
fn unknown_wrappers_are_skipped_without_error() {
    let mut para = el("para");
    para.push_child(txt("kept"));
    para.push_child(XmlNode::Elem(with_text("bold", "dropped")));
    assert_eq!(extract_text(&para).unwrap(), "kept");
}

#[test]
fn brief_takes_only_the_first_paragraph() {
    let mut brief = el("briefdescription");
    brief.push_child(XmlNode::Elem(with_text("para", "Short.")));
    brief.push_child(XmlNode::Elem(with_text("para", "Ignored.")));
    let mut e = el("memberdef");
    e.push_child(XmlNode::Elem(brief));
    let c = extract_comment(&e).unwrap();
    assert_eq!(c.brief, vec!["Short."]);
    assert_eq!(c.details.len(), 0);
}

#[test]
fn each_detail_paragraph_becomes_one_entry() {
    let e = member_with_detail(vec![with_text("para", "First."), with_text("para", "Second.")]);
    let c = extract_comment(&e).unwrap();
    assert_eq!(c.details, vec!["First.", "Second."]);
}

#[test]
fn exception_list_fills_exceptions_and_leaves_parameters_empty() {
    let mut para = with_text("para", "Throws things.");
    para.push_child(XmlNode::Elem(parameter_list("exception", &[("BadInput", "on bad input")])));
    let c = extract_comment(&member_with_detail(vec![para])).unwrap();
    assert_eq!(c.exceptions.get("BadInput"), Some(&"on bad input".to_string()));
    assert_eq!(c.exceptions.len(), 1);
    assert_eq!(c.parameters.len(), 0);
}

#[test]
fn parameter_list_kinds_select_their_mapping() {
    let mut p1 = with_text("para", "docs");
    p1.push_child(XmlNode::Elem(parameter_list("param", &[("x", "the x")])));
    let mut p2 = with_text("para", "more");
    p2.push_child(XmlNode::Elem(parameter_list("templateparam", &[("T", "the type")])));
    let c = extract_comment(&member_with_detail(vec![p1, p2])).unwrap();
    assert_eq!(c.parameters.get("x"), Some(&"the x".to_string()));
    assert_eq!(c.template_parameters.get("T"), Some(&"the type".to_string()));
    assert_eq!(c.exceptions.len(), 0);
}

#[test]
fn repeated_parameter_list_kind_is_a_contract_violation() {
    let mut p1 = with_text("para", "a");
    p1.push_child(XmlNode::Elem(parameter_list("param", &[("x", "one")])));
    let mut p2 = with_text("para", "b");
    p2.push_child(XmlNode::Elem(parameter_list("param", &[("y", "two")])));
    assert!(matches!(
        extract_comment(&member_with_detail(vec![p1, p2])),
        Err(IngestError::DuplicateParameterList)
    ));
}

#[test]
fn parameter_list_without_kind_is_fatal() {
    let mut pl = el("parameterlist");
    pl.push_child(XmlNode::Elem(el("parameteritem")));
    let mut para = with_text("para", "a");
    para.push_child(XmlNode::Elem(pl));
    assert!(matches!(
        extract_comment(&member_with_detail(vec![para])),
        Err(IngestError::MissingAttribute)
    ));
}

#[test]
fn parameter_item_without_name_list_is_fatal() {
    let mut pl = el("parameterlist");
    pl.push_attr("kind".to_string(), "param".to_string());
    pl.push_child(XmlNode::Elem(el("parameteritem")));
    assert!(matches!(parse_parameter_list(&pl), Err(IngestError::MissingChild)));
}

#[test]
fn repeated_parameter_name_keeps_the_later_description() {
    let pl = parameter_list("param", &[("x", "first"), ("x", "second")]);
    let m = parse_parameter_list(&pl).unwrap();
    assert_eq!(m.get("x"), Some(&"second".to_string()));
    assert_eq!(m.len(), 1);
}

#[test]
fn second_return_section_overwrites_the_first() {
    let mut p1 = with_text("para", "a");
    p1.push_child(XmlNode::Elem(simple_section("return", "first value")));
    let mut p2 = with_text("para", "b");
    p2.push_child(XmlNode::Elem(simple_section("return", "second value")));
    let c = extract_comment(&member_with_detail(vec![p1, p2])).unwrap();
    assert_eq!(c.returns, "second value");
}

#[test]
fn recognized_sections_append_in_order() {
    let mut p1 = with_text("para", "a");
    p1.push_child(XmlNode::Elem(simple_section("note", "n1")));
    let mut p2 = with_text("para", "b");
    p2.push_child(XmlNode::Elem(simple_section("remark", "n2")));
    let mut p3 = with_text("para", "c");
    p3.push_child(XmlNode::Elem(simple_section("warning", "w1")));
    let mut p4 = with_text("para", "d");
    p4.push_child(XmlNode::Elem(simple_section("pre", "before")));
    let mut p5 = with_text("para", "e");
    p5.push_child(XmlNode::Elem(simple_section("post", "after")));
    let mut p6 = with_text("para", "f");
    p6.push_child(XmlNode::Elem(simple_section("see", "elsewhere")));
    let c = extract_comment(&member_with_detail(vec![p1, p2, p3, p4, p5, p6])).unwrap();
    assert_eq!(c.notes, vec!["n1", "n2"]);
    assert_eq!(c.warnings, vec!["w1"]);
    assert_eq!(c.pre_conditions, vec!["before"]);
    assert_eq!(c.post_conditions, vec!["after"]);
    assert_eq!(c.see_also, vec!["elsewhere"]);
}

#[test]
fn unrecognized_section_kind_is_ignored() {
    let mut p1 = with_text("para", "a");
    p1.push_child(XmlNode::Elem(simple_section("author", "someone")));
    let c = extract_comment(&member_with_detail(vec![p1])).unwrap();
    assert_eq!(c.details, vec!["a"]);
    assert_eq!(c.notes.len(), 0);
    assert_eq!(c.returns, "");
}
