//! The definition pass: reads every document other than the index, looks up
//! the already-declared entities by identifier and fills them in with full
//! attributes, parsed comments and normalized signatures.

use vstd::prelude::*;

use crate::comment::{comment_extract, extract_comment, text_extract, extract_text};
use crate::model::{
    access_from, AccessModifier, ClassView, CompoundView, Enum, EnumValue, EnumValueView,
    EnumView, Function, FunctionView, IngestError, Registry, RegistryView, Variable,
    VariableView,
};
use crate::signature::{
    collapsed_noexcept, remove_redundant_const_from_function_parameters,
    simplify_function_noexcept_specifier, stripped_args,
};
use crate::text::{contains_string, str_eq};
use crate::xml::{attr_of, child_of, text_of, XmlElement, XmlNode};

verus! {

/// The ordered template parameter type texts of a template-parameter-list
/// element, appended to `acc`: one entry per parameter child's type child;
/// a parameter without a type child is a schema error.
pub open spec fn template_args_extract(nodes: Seq<XmlNode>, acc: Seq<Seq<char>>) -> Result<
    Seq<Seq<char>>,
    IngestError,
>
    decreases nodes,
{
    if nodes.len() == 0 {
        Ok(acc)
    } else {
        match nodes.first() {
            XmlNode::Elem(p) => if p.name@ == "param"@ {
                match child_of(p, "type"@) {
                    None => Err(IngestError::MissingChild),
                    Some(t) => template_args_extract(nodes.drop_first(), acc.push(text_of(t))),
                }
            } else {
                template_args_extract(nodes.drop_first(), acc)
            },
            XmlNode::Text(_) => template_args_extract(nodes.drop_first(), acc),
        }
    }
}

/// The parameter names declared by the parameter children among `nodes`,
/// appended to `acc` with de-duplication against the names already
/// collected.
pub open spec fn collect_params(nodes: Seq<XmlNode>, acc: Seq<Seq<char>>) -> Seq<Seq<char>>
    decreases nodes,
{
    if nodes.len() == 0 {
        acc
    } else {
        match nodes.first() {
            XmlNode::Elem(p) => if p.name@ == "param"@ {
                match child_of(p, "declname"@) {
                    None => collect_params(nodes.drop_first(), acc),
                    Some(d) => collect_params(
                        nodes.drop_first(),
                        if acc.contains(text_of(d)) {
                            acc
                        } else {
                            acc.push(text_of(d))
                        },
                    ),
                }
            } else {
                collect_params(nodes.drop_first(), acc)
            },
            XmlNode::Text(_) => collect_params(nodes.drop_first(), acc),
        }
    }
}

/// The function entity `f` filled in from its member-definition element:
/// access level and boolean modifiers from attributes (the virtual flag is
/// true for anything but the literal "non-virtual", the noexcept flag is
/// aliased by the source format to the const attribute and defaults to no),
/// the text fields from required children, template parameters and
/// parameter names collected, the comment extracted, and the signature
/// normalized last.  Membership is kept as declared.
pub open spec fn function_define(e: XmlElement, f: FunctionView) -> Result<
    FunctionView,
    IngestError,
> {
    match attr_of(e, "prot"@) {
        None => Err(IngestError::MissingAttribute),
        Some(prot) => match access_from(prot) {
            Err(er) => Err(er),
            Ok(access) => match attr_of(e, "static"@) {
                None => Err(IngestError::MissingAttribute),
                Some(st) => match attr_of(e, "const"@) {
                    None => Err(IngestError::MissingAttribute),
                    Some(cst) => match attr_of(e, "explicit"@) {
                        None => Err(IngestError::MissingAttribute),
                        Some(exp) => match attr_of(e, "inline"@) {
                            None => Err(IngestError::MissingAttribute),
                            Some(inl) => match attr_of(e, "virt"@) {
                                None => Err(IngestError::MissingAttribute),
                                Some(virt) => match child_of(e, "name"@) {
                                    None => Err(IngestError::MissingChild),
                                    Some(name_el) => match child_of(e, "definition"@) {
                                        None => Err(IngestError::MissingChild),
                                        Some(def_el) => match child_of(e, "type"@) {
                                            None => Err(IngestError::MissingChild),
                                            Some(type_el) => match child_of(e, "argsstring"@) {
                                                None => Err(IngestError::MissingChild),
                                                Some(args_el) => {
                                                    let tpl_res = match child_of(
                                                        e,
                                                        "templateparamlist"@,
                                                    ) {
                                                        None => Ok(f.template_args),
                                                        Some(tp) => template_args_extract(
                                                            tp.children@,
                                                            Seq::empty(),
                                                        ),
                                                    };
                                                    match tpl_res {
                                                        Err(er) => Err(er),
                                                        Ok(targs) => match comment_extract(e) {
                                                            Err(er) => Err(er),
                                                            Ok(docs) => {
                                                                let f1 = FunctionView {
                                                                    name: text_of(name_el),
                                                                    qualified_name: match child_of(
                                                                        e,
                                                                        "qualifiedname"@,
                                                                    ) {
                                                                        None => f.qualified_name,
                                                                        Some(q) => text_of(q),
                                                                    },
                                                                    return_type: text_of(type_el),
                                                                    args: text_of(args_el),
                                                                    parameter_names:
                                                                        collect_params(
                                                                        e.children@,
                                                                        f.parameter_names,
                                                                    ),
                                                                    template_args: targs,
                                                                    definition: text_of(def_el),
                                                                    access: access,
                                                                    docs: docs,
                                                                    is_static: st == "yes"@,
                                                                    is_const: cst == "yes"@,
                                                                    is_inline: inl == "yes"@,
                                                                    is_noexcept: cst == "yes"@,
                                                                    is_virtual: virt
                                                                        != "non-virtual"@,
                                                                    is_explicit: exp == "yes"@,
                                                                    is_member: f.is_member,
                                                                };
                                                                let f2 = FunctionView {
                                                                    args: stripped_args(f1),
                                                                    ..f1
                                                                };
                                                                Ok(
                                                                    FunctionView {
                                                                        args: collapsed_noexcept(
                                                                            f2.args,
                                                                        ),
                                                                        ..f2
                                                                    },
                                                                )
                                                            },
                                                        },
                                                    }
                                                },
                                            },
                                        },
                                    },
                                },
                            },
                        },
                    },
                },
            },
        },
    }
}

/// The variable entity `v` filled in from its member-definition element.
/// The constexpr flag defaults to no when its attribute is absent; the
/// other attributes and the text children are required.
pub open spec fn variable_define(e: XmlElement, v: VariableView) -> Result<
    VariableView,
    IngestError,
> {
    match attr_of(e, "prot"@) {
        None => Err(IngestError::MissingAttribute),
        Some(prot) => match access_from(prot) {
            Err(er) => Err(er),
            Ok(access) => match attr_of(e, "static"@) {
                None => Err(IngestError::MissingAttribute),
                Some(st) => match attr_of(e, "mutable"@) {
                    None => Err(IngestError::MissingAttribute),
                    Some(mu) => match child_of(e, "name"@) {
                        None => Err(IngestError::MissingChild),
                        Some(name_el) => match child_of(e, "qualifiedname"@) {
                            None => Err(IngestError::MissingChild),
                            Some(qn_el) => match child_of(e, "definition"@) {
                                None => Err(IngestError::MissingChild),
                                Some(def_el) => match comment_extract(e) {
                                    Err(er) => Err(er),
                                    Ok(docs) => Ok(
                                        VariableView {
                                            name: text_of(name_el),
                                            qualified_name: text_of(qn_el),
                                            definition: text_of(def_el),
                                            access: access,
                                            docs: docs,
                                            is_static: st == "yes"@,
                                            is_constexpr: match attr_of(e, "constexpr"@) {
                                                None => false,
                                                Some(cx) => cx == "yes"@,
                                            },
                                            is_mutable: mu == "yes"@,
                                        },
                                    ),
                                },
                            },
                        },
                    },
                },
            },
        },
    }
}

/// An initializer text with a leading "= " stripped if present.
pub open spec fn strip_leading_eq(t: Seq<char>) -> Seq<char> {
    if t.len() >= 2 && t.take(2) == "= "@ {
        t.skip(2)
    } else {
        t
    }
}

/// The ordered enum values among `nodes`, appended to `acc`: each value's
/// name is required, its initializer is optional, and it carries its own
/// comment.
pub open spec fn enum_values_extract(nodes: Seq<XmlNode>, acc: Seq<EnumValueView>) -> Result<
    Seq<EnumValueView>,
    IngestError,
>
    decreases nodes,
{
    if nodes.len() == 0 {
        Ok(acc)
    } else {
        match nodes.first() {
            XmlNode::Elem(v) => if v.name@ == "enumvalue"@ {
                match child_of(v, "name"@) {
                    None => Err(IngestError::MissingChild),
                    Some(nm) => match comment_extract(v) {
                        Err(er) => Err(er),
                        Ok(docs) => enum_values_extract(
                            nodes.drop_first(),
                            acc.push(
                                EnumValueView {
                                    name: text_of(nm),
                                    initializer: match child_of(v, "initializer"@) {
                                        None => Seq::empty(),
                                        Some(ie) => strip_leading_eq(text_of(ie)),
                                    },
                                    docs: docs,
                                },
                            ),
                        ),
                    },
                }
            } else {
                enum_values_extract(nodes.drop_first(), acc)
            },
            XmlNode::Text(_) => enum_values_extract(nodes.drop_first(), acc),
        }
    }
}

/// The enum entity `en` filled in from its member-definition element: name
/// and qualified name from required children, the scoped flag from the
/// required "strong" attribute, its comment, and the ordered sequence of
/// its values.
pub open spec fn enum_define(e: XmlElement, en: EnumView) -> Result<EnumView, IngestError> {
    match child_of(e, "name"@) {
        None => Err(IngestError::MissingChild),
        Some(name_el) => match child_of(e, "qualifiedname"@) {
            None => Err(IngestError::MissingChild),
            Some(qn_el) => match attr_of(e, "strong"@) {
                None => Err(IngestError::MissingAttribute),
                Some(strong) => match comment_extract(e) {
                    Err(er) => Err(er),
                    Ok(docs) => match enum_values_extract(e.children@, Seq::empty()) {
                        Err(er) => Err(er),
                        Ok(vals) => Ok(
                            EnumView {
                                name: text_of(name_el),
                                qualified_name: text_of(qn_el),
                                is_scoped: strong == "yes"@,
                                docs: docs,
                                values: vals,
                            },
                        ),
                    },
                },
            },
        },
    }
}

/// Reads the ordered template parameter type texts of a
/// template-parameter-list element.
pub fn parse_template_args(elem: &XmlElement) -> (r: Result<Vec<String>, IngestError>)
    ensures
        match r {
            Ok(v) => template_args_extract(elem.children@, Seq::empty()) == Ok::<
                Seq<Seq<char>>,
                IngestError,
            >(v.deep_view()),
            Err(e) => template_args_extract(elem.children@, Seq::empty()) == Err::<
                Seq<Seq<char>>,
                IngestError,
            >(e),
        },
{
    let n = elem.children.len();
    let mut args: Vec<String> = Vec::new();
    let mut i: usize = 0;
    proof {
        assert(elem.children@.skip(0) =~= elem.children@);
        assert(args.deep_view() =~= Seq::<Seq<char>>::empty());
    }
    while i < n
        invariant
            0 <= i <= n,
            n == elem.children@.len(),
            template_args_extract(elem.children@, Seq::empty()) == template_args_extract(
                elem.children@.skip(i as int),
                args.deep_view(),
            ),
        decreases n - i,
    {
        proof {
            assert(elem.children@.skip(i as int).first() == elem.children@[i as int]);
            assert(elem.children@.skip(i as int).drop_first() =~= elem.children@.skip(i + 1));
        }
        match &elem.children[i] {
            XmlNode::Elem(p) => {
                if str_eq(p.name.as_str(), "param") {
                    let type_el = match p.get_child("type") {
                        Some(t) => t,
                        None => {
                            return Err(IngestError::MissingChild);
                        },
                    };
                    let ghost dv0 = args.deep_view();
                    args.push(type_el.text_content());
                    proof {
                        assert(args.deep_view() =~= dv0.push(args@.last()@));
                    }
                }
            },
            XmlNode::Text(_) => {},
        }
        i = i + 1;
    }
    proof {
        assert(elem.children@.skip(n as int).len() == 0);
    }
    Ok(args)
}

/// Fills the function entity in from its member-definition element and
/// normalizes its signature.
#[verifier::rlimit(100)]
pub fn parse_function_definition(elem: &XmlElement, func: &mut Function) -> (r: Result<
    (),
    IngestError,
>)
    ensures
        match r {
            Ok(_) => final(func).wf() && function_define(*elem, old(func)@) == Ok::<
                FunctionView,
                IngestError,
            >(final(func)@),
            Err(e) => function_define(*elem, old(func)@) == Err::<FunctionView, IngestError>(e),
        },
{
    let prot = match elem.attr("prot") {
        Some(v) => v,
        None => {
            return Err(IngestError::MissingAttribute);
        },
    };
    let access = match AccessModifier::from_str(prot.as_str()) {
        Ok(a) => a,
        Err(e) => {
            return Err(e);
        },
    };
    let st = match elem.attr("static") {
        Some(v) => v,
        None => {
            return Err(IngestError::MissingAttribute);
        },
    };
    let is_static = str_eq(st.as_str(), "yes");
    let cst = match elem.attr("const") {
        Some(v) => v,
        None => {
            return Err(IngestError::MissingAttribute);
        },
    };
    let is_const = str_eq(cst.as_str(), "yes");
    let exp = match elem.attr("explicit") {
        Some(v) => v,
        None => {
            return Err(IngestError::MissingAttribute);
        },
    };
    let is_explicit = str_eq(exp.as_str(), "yes");
    let inl = match elem.attr("inline") {
        Some(v) => v,
        None => {
            return Err(IngestError::MissingAttribute);
        },
    };
    let is_inline = str_eq(inl.as_str(), "yes");
    let virt = match elem.attr("virt") {
        Some(v) => v,
        None => {
            return Err(IngestError::MissingAttribute);
        },
    };
    let is_virtual = !str_eq(virt.as_str(), "non-virtual");
    let is_noexcept = match elem.attr("const") {
        Some(v) => str_eq(v.as_str(), "yes"),
        None => false,
    };
    let name_el = match elem.get_child("name") {
        Some(x) => x,
        None => {
            return Err(IngestError::MissingChild);
        },
    };
    let def_el = match elem.get_child("definition") {
        Some(x) => x,
        None => {
            return Err(IngestError::MissingChild);
        },
    };
    let type_el = match elem.get_child("type") {
        Some(x) => x,
        None => {
            return Err(IngestError::MissingChild);
        },
    };
    let args_el = match elem.get_child("argsstring") {
        Some(x) => x,
        None => {
            return Err(IngestError::MissingChild);
        },
    };
    let qualified = match elem.get_child("qualifiedname") {
        Some(q) => Some(q.text_content()),
        None => None,
    };
    let template_args = match elem.get_child("templateparamlist") {
        Some(tp) => match parse_template_args(tp) {
            Ok(v) => Some(v),
            Err(e) => {
                return Err(e);
            },
        },
        None => None,
    };
    let docs = match extract_comment(elem) {
        Ok(c) => c,
        Err(e) => {
            return Err(e);
        },
    };
    func.access = access;
    func.is_static = is_static;
    func.is_const = is_const;
    func.is_explicit = is_explicit;
    func.is_inline = is_inline;
    func.is_virtual = is_virtual;
    func.is_noexcept = is_noexcept;
    func.name = name_el.text_content();
    func.definition = def_el.text_content();
    func.return_type = type_el.text_content();
    func.args = args_el.text_content();
    match qualified {
        Some(q) => {
            func.qualified_name = q;
        },
        None => {},
    }
    match template_args {
        Some(t) => {
            func.template_args = t;
        },
        None => {},
    }
    func.docs = docs;
    let ghost fsnap = func@;
    let n = elem.children.len();
    let mut i: usize = 0;
    proof {
        assert(elem.children@.skip(0) =~= elem.children@);
    }
    while i < n
        invariant
            0 <= i <= n,
            n == elem.children@.len(),
            func.wf(),
            func@ == (FunctionView { parameter_names: func.parameter_names.deep_view(), ..fsnap }),
            collect_params(elem.children@, fsnap.parameter_names) == collect_params(
                elem.children@.skip(i as int),
                func.parameter_names.deep_view(),
            ),
        decreases n - i,
    {
        proof {
            assert(elem.children@.skip(i as int).first() == elem.children@[i as int]);
            assert(elem.children@.skip(i as int).drop_first() =~= elem.children@.skip(i + 1));
        }
        match &elem.children[i] {
            XmlNode::Elem(p) => {
                if str_eq(p.name.as_str(), "param") {
                    if let Some(d) = p.get_child("declname") {
                        let nm = d.text_content();
                        if !contains_string(&func.parameter_names, nm.as_str()) {
                            let ghost dv0 = func.parameter_names.deep_view();
                            func.parameter_names.push(nm);
                            proof {
                                assert(func.parameter_names.deep_view() =~= dv0.push(
                                    func.parameter_names@.last()@,
                                ));
                            }
                        }
                    }
                }
            },
            XmlNode::Text(_) => {},
        }
        i = i + 1;
    }
    proof {
        assert(elem.children@.skip(n as int).len() == 0);
        assert(fsnap.parameter_names == old(func)@.parameter_names);
    }
    remove_redundant_const_from_function_parameters(func);
    simplify_function_noexcept_specifier(func);
    proof {
        assert(function_define(*elem, old(func)@) is Ok);
        assert((function_define(*elem, old(func)@)->Ok_0) =~= func@);
    }
    Ok(())
}

/// Fills the variable entity in from its member-definition element.
pub fn parse_variable_definition(elem: &XmlElement, var: &mut Variable) -> (r: Result<
    (),
    IngestError,
>)
    ensures
        match r {
            Ok(_) => final(var).wf() && variable_define(*elem, old(var)@) == Ok::<
                VariableView,
                IngestError,
            >(final(var)@),
            Err(e) => variable_define(*elem, old(var)@) == Err::<VariableView, IngestError>(e),
        },
{
    let prot = match elem.attr("prot") {
        Some(v) => v,
        None => {
            return Err(IngestError::MissingAttribute);
        },
    };
    let access = match AccessModifier::from_str(prot.as_str()) {
        Ok(a) => a,
        Err(e) => {
            return Err(e);
        },
    };
    let st = match elem.attr("static") {
        Some(v) => v,
        None => {
            return Err(IngestError::MissingAttribute);
        },
    };
    let is_static = str_eq(st.as_str(), "yes");
    let mu = match elem.attr("mutable") {
        Some(v) => v,
        None => {
            return Err(IngestError::MissingAttribute);
        },
    };
    let is_mutable = str_eq(mu.as_str(), "yes");
    let is_constexpr = match elem.attr("constexpr") {
        Some(v) => str_eq(v.as_str(), "yes"),
        None => false,
    };
    let name_el = match elem.get_child("name") {
        Some(x) => x,
        None => {
            return Err(IngestError::MissingChild);
        },
    };
    let qn_el = match elem.get_child("qualifiedname") {
        Some(x) => x,
        None => {
            return Err(IngestError::MissingChild);
        },
    };
    let def_el = match elem.get_child("definition") {
        Some(x) => x,
        None => {
            return Err(IngestError::MissingChild);
        },
    };
    let docs = match extract_comment(elem) {
        Ok(c) => c,
        Err(e) => {
            return Err(e);
        },
    };
    var.access = access;
    var.is_static = is_static;
    var.is_mutable = is_mutable;
    var.is_constexpr = is_constexpr;
    var.name = name_el.text_content();
    var.qualified_name = qn_el.text_content();
    var.definition = def_el.text_content();
    var.docs = docs;
    proof {
        assert((variable_define(*elem, old(var)@)->Ok_0) =~= var@);
    }
    Ok(())
}

/// Fills the enum entity in from its member-definition element, including
/// the ordered sequence of its values.
pub fn parse_enum_definition(elem: &XmlElement, e: &mut Enum) -> (r: Result<(), IngestError>)
    ensures
        match r {
            Ok(_) => final(e).wf() && enum_define(*elem, old(e)@) == Ok::<EnumView, IngestError>(
                final(e)@,
            ),
            Err(er) => enum_define(*elem, old(e)@) == Err::<EnumView, IngestError>(er),
        },
{
    let name_el = match elem.get_child("name") {
        Some(x) => x,
        None => {
            return Err(IngestError::MissingChild);
        },
    };
    let qn_el = match elem.get_child("qualifiedname") {
        Some(x) => x,
        None => {
            return Err(IngestError::MissingChild);
        },
    };
    let strong = match elem.attr("strong") {
        Some(v) => v,
        None => {
            return Err(IngestError::MissingAttribute);
        },
    };
    let is_scoped = str_eq(strong.as_str(), "yes");
    let docs = match extract_comment(elem) {
        Ok(c) => c,
        Err(er) => {
            return Err(er);
        },
    };
    let mut values: Vec<EnumValue> = Vec::new();
    let n = elem.children.len();
    let mut i: usize = 0;
    proof {
        assert(elem.children@.skip(0) =~= elem.children@);
        assert(values@.map_values(|v: EnumValue| v@) =~= Seq::<EnumValueView>::empty());
    }
    while i < n
        invariant
            0 <= i <= n,
            n == elem.children@.len(),
            forall|j: int| 0 <= j < values@.len() ==> (#[trigger] values@[j]).wf(),
            child_of(*elem, "name"@) is Some,
            child_of(*elem, "qualifiedname"@) is Some,
            attr_of(*elem, "strong"@) is Some,
            comment_extract(*elem) is Ok,
            enum_values_extract(elem.children@, Seq::empty()) == enum_values_extract(
                elem.children@.skip(i as int),
                values@.map_values(|v: EnumValue| v@),
            ),
        decreases n - i,
    {
        proof {
            assert(elem.children@.skip(i as int).first() == elem.children@[i as int]);
            assert(elem.children@.skip(i as int).drop_first() =~= elem.children@.skip(i + 1));
        }
        match &elem.children[i] {
            XmlNode::Elem(v) => {
                if str_eq(v.name.as_str(), "enumvalue") {
                    let vname_el = match v.get_child("name") {
                        Some(x) => x,
                        None => {
                            return Err(IngestError::MissingChild);
                        },
                    };
                    let vdocs = match extract_comment(v) {
                        Ok(c) => c,
                        Err(er) => {
                            return Err(er);
                        },
                    };
                    let initializer = match v.get_child("initializer") {
                        Some(ie) => {
                            let t = ie.text_content();
                            let tlen = t.unicode_len();
                            if tlen >= 2 {
                                proof {
                                    assert(t@.subrange(0, 2) =~= t@.take(2));
                                }
                                if str_eq(t.as_str().substring_char(0, 2), "= ") {
                                    let stripped = t.as_str().substring_char(2, tlen).to_owned();
                                    proof {
                                        assert(t@.subrange(2, tlen as int) =~= t@.skip(2));
                                    }
                                    stripped
                                } else {
                                    t
                                }
                            } else {
                                t
                            }
                        },
                        None => String::new(),
                    };
                    let value = EnumValue {
                        name: vname_el.text_content(),
                        initializer,
                        docs: vdocs,
                    };
                    let ghost vals0 = values@.map_values(|v: EnumValue| v@);
                    values.push(value);
                    proof {
                        assert(values@.map_values(|v: EnumValue| v@) =~= vals0.push(
                            values@.last()@,
                        ));
                    }
                }
            },
            XmlNode::Text(_) => {},
        }
        i = i + 1;
    }
    proof {
        assert(elem.children@.skip(n as int).len() == 0);
    }
    e.name = name_el.text_content();
    e.qualified_name = qn_el.text_content();
    e.is_scoped = is_scoped;
    e.docs = docs;
    e.values = values;
    proof {
        assert((enum_define(*elem, old(e)@)->Ok_0) =~= e@);
    }
    Ok(())
}

/// `ids` with `id` appended unless already present: membership lists are
/// deduplicated defensively, since the same reference may appear in several
/// documents.
pub open spec fn push_unique(ids: Seq<Seq<char>>, id: Seq<char>) -> Seq<Seq<char>> {
    if ids.contains(id) {
        ids
    } else {
        ids.push(id)
    }
}

/// Applying one member definition of a section to the registry: the member
/// is looked up by its own identifier (never the parent's) and mutated in
/// place; a member that was never declared is a fatal resolution error;
/// member kinds other than function, variable and enum are ignored.
pub open spec fn member_def_apply(m: XmlElement, r: RegistryView) -> Result<
    RegistryView,
    IngestError,
> {
    match attr_of(m, "id"@) {
        None => Err(IngestError::MissingAttribute),
        Some(mid) => match attr_of(m, "kind"@) {
            None => Err(IngestError::MissingAttribute),
            Some(k) => if k == "function"@ {
                if !r.functions.contains_key(mid) {
                    Err(IngestError::UnknownIdentifier)
                } else {
                    match function_define(m, r.functions[mid]) {
                        Err(e) => Err(e),
                        Ok(f) => Ok(RegistryView { functions: r.functions.insert(mid, f), ..r }),
                    }
                }
            } else if k == "variable"@ {
                if !r.variables.contains_key(mid) {
                    Err(IngestError::UnknownIdentifier)
                } else {
                    match variable_define(m, r.variables[mid]) {
                        Err(e) => Err(e),
                        Ok(v) => Ok(RegistryView { variables: r.variables.insert(mid, v), ..r }),
                    }
                }
            } else if k == "enum"@ {
                if !r.enums.contains_key(mid) {
                    Err(IngestError::UnknownIdentifier)
                } else {
                    match enum_define(m, r.enums[mid]) {
                        Err(e) => Err(e),
                        Ok(en) => Ok(RegistryView { enums: r.enums.insert(mid, en), ..r }),
                    }
                }
            } else {
                Ok(r)
            },
        },
    }
}

/// Folds the member definitions of a section over the registry.
pub open spec fn section_members_apply(nodes: Seq<XmlNode>, r: RegistryView) -> Result<
    RegistryView,
    IngestError,
>
    decreases nodes,
{
    if nodes.len() == 0 {
        Ok(r)
    } else {
        match nodes.first() {
            XmlNode::Elem(m) => if m.name@ == "memberdef"@ {
                match member_def_apply(m, r) {
                    Err(e) => Err(e),
                    Ok(r2) => section_members_apply(nodes.drop_first(), r2),
                }
            } else {
                section_members_apply(nodes.drop_first(), r)
            },
            XmlNode::Text(_) => section_members_apply(nodes.drop_first(), r),
        }
    }
}

/// Applying one child of a compound definition to the registry: a title
/// sets the compound's title, inner references supplement the membership
/// lists, a section definition dispatches its member definitions, and a
/// template parameter list on a class-kind compound populates the class
/// entity's template parameters.  Unrecognized children are ignored.
pub open spec fn compound_child_apply(c: XmlElement, r: RegistryView, id: Seq<char>) -> Result<
    RegistryView,
    IngestError,
> {
    let p = r.compounds[id];
    if c.name@ == "title"@ {
        match text_extract(c) {
            Err(e) => Err(e),
            Ok(t) => Ok(
                RegistryView {
                    compounds: r.compounds.insert(id, CompoundView { title: t, ..p }),
                    ..r
                },
            ),
        }
    } else if c.name@ == "innergroup"@ {
        match attr_of(c, "refid"@) {
            None => Ok(r),
            Some(rid) => Ok(
                RegistryView {
                    compounds: r.compounds.insert(
                        id,
                        CompoundView { groups: push_unique(p.groups, rid), ..p },
                    ),
                    ..r
                },
            ),
        }
    } else if c.name@ == "innerclass"@ {
        match attr_of(c, "refid"@) {
            None => Ok(r),
            Some(rid) => Ok(
                RegistryView {
                    compounds: r.compounds.insert(
                        id,
                        CompoundView { classes: push_unique(p.classes, rid), ..p },
                    ),
                    ..r
                },
            ),
        }
    } else if c.name@ == "innernamespace"@ {
        match attr_of(c, "refid"@) {
            None => Ok(r),
            Some(rid) => Ok(
                RegistryView {
                    compounds: r.compounds.insert(
                        id,
                        CompoundView { namespaces: push_unique(p.namespaces, rid), ..p },
                    ),
                    ..r
                },
            ),
        }
    } else if c.name@ == "sectiondef"@ {
        section_members_apply(c.children@, r)
    } else if c.name@ == "templateparamlist"@ {
        if r.classes.contains_key(id) {
            match template_args_extract(c.children@, Seq::empty()) {
                Err(e) => Err(e),
                Ok(tas) => Ok(
                    RegistryView {
                        classes: r.classes.insert(
                            id,
                            ClassView { template_args: tas, ..r.classes[id] },
                        ),
                        ..r
                    },
                ),
            }
        } else {
            Ok(r)
        }
    } else {
        Ok(r)
    }
}

/// Folds the children of a compound definition over the registry.
pub open spec fn compound_children_apply(
    nodes: Seq<XmlNode>,
    r: RegistryView,
    id: Seq<char>,
) -> Result<RegistryView, IngestError>
    decreases nodes,
{
    if nodes.len() == 0 {
        Ok(r)
    } else {
        match nodes.first() {
            XmlNode::Elem(c) => match compound_child_apply(c, r, id) {
                Err(e) => Err(e),
                Ok(r2) => compound_children_apply(nodes.drop_first(), r2, id),
            },
            XmlNode::Text(_) => compound_children_apply(nodes.drop_first(), r, id),
        }
    }
}

/// Applying one compound-definition document to the registry: file and
/// namespace compounds are skipped entirely, every other compound must
/// already be declared, and its children are folded in document order.
pub open spec fn compound_define(e: XmlElement, r: RegistryView) -> Result<
    RegistryView,
    IngestError,
> {
    match attr_of(e, "kind"@) {
        None => Err(IngestError::MissingAttribute),
        Some(k) => if k == "file"@ || k == "namespace"@ {
            Ok(r)
        } else {
            match attr_of(e, "id"@) {
                None => Err(IngestError::MissingAttribute),
                Some(id) => if !r.compounds.contains_key(id) {
                    Err(IngestError::UnknownIdentifier)
                } else {
                    compound_children_apply(e.children@, r, id)
                },
            }
        },
    }
}

/// Applies one section's member definitions to the registry.
fn apply_section(sect: &XmlElement, registry: &mut Registry) -> (r: Result<(), IngestError>)
    requires
        old(registry).wf(),
    ensures
        final(registry).wf(),
        final(registry)@.compounds == old(registry)@.compounds,
        match r {
            Ok(_) => section_members_apply(sect.children@, old(registry)@) == Ok::<
                RegistryView,
                IngestError,
            >(final(registry)@),
            Err(e) => section_members_apply(sect.children@, old(registry)@) == Err::<
                RegistryView,
                IngestError,
            >(e),
        },
{
    let n = sect.children.len();
    let mut i: usize = 0;
    proof {
        assert(sect.children@.skip(0) =~= sect.children@);
    }
    while i < n
        invariant
            0 <= i <= n,
            n == sect.children@.len(),
            registry.wf(),
            registry@.compounds == old(registry)@.compounds,
            section_members_apply(sect.children@, old(registry)@) == section_members_apply(
                sect.children@.skip(i as int),
                registry@,
            ),
        decreases n - i,
    {
        proof {
            assert(sect.children@.skip(i as int).first() == sect.children@[i as int]);
            assert(sect.children@.skip(i as int).drop_first() =~= sect.children@.skip(i + 1));
        }
        let ghost r0 = registry@;
        match &sect.children[i] {
            XmlNode::Elem(m) => {
                if str_eq(m.name.as_str(), "memberdef") {
                    let member_id = match m.attr("id") {
                        Some(v) => v.clone(),
                        None => {
                            return Err(IngestError::MissingAttribute);
                        },
                    };
                    let kind = match m.attr("kind") {
                        Some(v) => v,
                        None => {
                            return Err(IngestError::MissingAttribute);
                        },
                    };
                    if str_eq(kind.as_str(), "function") {
                        let mut func = match registry.functions.remove(member_id.as_str()) {
                            Some(f) => f,
                            None => {
                                return Err(IngestError::UnknownIdentifier);
                            },
                        };
                        match parse_function_definition(m, &mut func) {
                            Ok(_) => {},
                            Err(e) => {
                                return Err(e);
                            },
                        }
                        registry.functions.insert(member_id, func);
                        proof {
                            assert(registry@ =~= (member_def_apply(
                                sect.children@[i as int]->Elem_0,
                                r0,
                            )->Ok_0));
                        }
                    } else if str_eq(kind.as_str(), "variable") {
                        let mut var = match registry.variables.remove(member_id.as_str()) {
                            Some(v) => v,
                            None => {
                                return Err(IngestError::UnknownIdentifier);
                            },
                        };
                        match parse_variable_definition(m, &mut var) {
                            Ok(_) => {},
                            Err(e) => {
                                return Err(e);
                            },
                        }
                        registry.variables.insert(member_id, var);
                        proof {
                            assert(registry@ =~= (member_def_apply(
                                sect.children@[i as int]->Elem_0,
                                r0,
                            )->Ok_0));
                        }
                    } else if str_eq(kind.as_str(), "enum") {
                        let mut en = match registry.enums.remove(member_id.as_str()) {
                            Some(v) => v,
                            None => {
                                return Err(IngestError::UnknownIdentifier);
                            },
                        };
                        match parse_enum_definition(m, &mut en) {
                            Ok(_) => {},
                            Err(e) => {
                                return Err(e);
                            },
                        }
                        registry.enums.insert(member_id, en);
                        proof {
                            assert(registry@ =~= (member_def_apply(
                                sect.children@[i as int]->Elem_0,
                                r0,
                            )->Ok_0));
                        }
                    }
                }
            },
            XmlNode::Text(_) => {},
        }
        i = i + 1;
    }
    proof {
        assert(sect.children@.skip(n as int).len() == 0);
    }
    Ok(())
}

/// Runs one compound-definition document against the registry: file and
/// namespace compounds contribute only structural membership, already
/// captured by the declaration pass, and are skipped; every other compound
/// must already be declared, and its children fill in the compound, its
/// class entity and its members in place.
pub fn parse_compound_definition(element: &XmlElement, registry: &mut Registry) -> (r: Result<
    (),
    IngestError,
>)
    requires
        old(registry).wf(),
    ensures
        final(registry).wf(),
        match r {
            Ok(_) => compound_define(*element, old(registry)@) == Ok::<
                RegistryView,
                IngestError,
            >(final(registry)@),
            Err(e) => compound_define(*element, old(registry)@) == Err::<
                RegistryView,
                IngestError,
            >(e),
        },
{
    let kind = match element.attr("kind") {
        Some(v) => v,
        None => {
            return Err(IngestError::MissingAttribute);
        },
    };
    if str_eq(kind.as_str(), "file") || str_eq(kind.as_str(), "namespace") {
        return Ok(());
    }
    let compound_id = match element.attr("id") {
        Some(v) => v.clone(),
        None => {
            return Err(IngestError::MissingAttribute);
        },
    };
    if !registry.compounds.contains_key(compound_id.as_str()) {
        return Err(IngestError::UnknownIdentifier);
    }
    let n = element.children.len();
    let mut i: usize = 0;
    proof {
        assert(element.children@.skip(0) =~= element.children@);
    }
    while i < n
        invariant
            0 <= i <= n,
            n == element.children@.len(),
            registry.wf(),
            registry@.compounds.contains_key(compound_id@),
            compound_define(*element, old(registry)@) == compound_children_apply(
                element.children@.skip(i as int),
                registry@,
                compound_id@,
            ),
        decreases n - i,
    {
        proof {
            assert(element.children@.skip(i as int).first() == element.children@[i as int]);
            assert(element.children@.skip(i as int).drop_first() =~= element.children@.skip(
                i + 1,
            ));
        }
        let ghost r0 = registry@;
        match &element.children[i] {
            XmlNode::Elem(c) => {
                if str_eq(c.name.as_str(), "title") {
                    let t = match extract_text(c) {
                        Ok(t) => t,
                        Err(e) => {
                            return Err(e);
                        },
                    };
                    let mut comp = match registry.compounds.remove(compound_id.as_str()) {
                        Some(p) => p,
                        None => {
                            proof {
                                assert(false);
                            }
                            return Err(IngestError::UnknownIdentifier);
                        },
                    };
                    comp.title = t;
                    registry.compounds.insert(compound_id.clone(), comp);
                    proof {
                        assert(registry@.compounds =~= r0.compounds.insert(compound_id@, comp@));
                        assert(registry@ =~= (compound_child_apply(
                            element.children@[i as int]->Elem_0,
                            r0,
                            compound_id@,
                        )->Ok_0));
                    }
                } else if str_eq(c.name.as_str(), "innergroup") {
                    if let Some(rid) = c.attr("refid") {
                        let rid = rid.clone();
                        let mut comp = match registry.compounds.remove(compound_id.as_str()) {
                            Some(p) => p,
                            None => {
                                proof {
                                    assert(false);
                                }
                                return Err(IngestError::UnknownIdentifier);
                            },
                        };
                        let ghost g0 = comp.groups.deep_view();
                        if !contains_string(&comp.groups, rid.as_str()) {
                            comp.groups.push(rid);
                            proof {
                                assert(comp.groups.deep_view() =~= g0.push(comp.groups@.last()@));
                            }
                        }
                        registry.compounds.insert(compound_id.clone(), comp);
                        proof {
                            assert(comp@ =~= (CompoundView {
                                groups: push_unique(r0.compounds[compound_id@].groups, rid@),
                                ..r0.compounds[compound_id@]
                            }));
                            assert(registry@ =~= (compound_child_apply(
                                element.children@[i as int]->Elem_0,
                                r0,
                                compound_id@,
                            )->Ok_0));
                        }
                    }
                } else if str_eq(c.name.as_str(), "innerclass") {
                    if let Some(rid) = c.attr("refid") {
                        let rid = rid.clone();
                        let mut comp = match registry.compounds.remove(compound_id.as_str()) {
                            Some(p) => p,
                            None => {
                                proof {
                                    assert(false);
                                }
                                return Err(IngestError::UnknownIdentifier);
                            },
                        };
                        let ghost g0 = comp.classes.deep_view();
                        if !contains_string(&comp.classes, rid.as_str()) {
                            comp.classes.push(rid);
                            proof {
                                assert(comp.classes.deep_view() =~= g0.push(
                                    comp.classes@.last()@,
                                ));
                            }
                        }
                        registry.compounds.insert(compound_id.clone(), comp);
                        proof {
                            assert(comp@ =~= (CompoundView {
                                classes: push_unique(r0.compounds[compound_id@].classes, rid@),
                                ..r0.compounds[compound_id@]
                            }));
                            assert(registry@ =~= (compound_child_apply(
                                element.children@[i as int]->Elem_0,
                                r0,
                                compound_id@,
                            )->Ok_0));
                        }
                    }
                } else if str_eq(c.name.as_str(), "innernamespace") {
                    if let Some(rid) = c.attr("refid") {
                        let rid = rid.clone();
                        let mut comp = match registry.compounds.remove(compound_id.as_str()) {
                            Some(p) => p,
                            None => {
                                proof {
                                    assert(false);
                                }
                                return Err(IngestError::UnknownIdentifier);
                            },
                        };
                        let ghost g0 = comp.namespaces.deep_view();
                        if !contains_string(&comp.namespaces, rid.as_str()) {
                            comp.namespaces.push(rid);
                            proof {
                                assert(comp.namespaces.deep_view() =~= g0.push(
                                    comp.namespaces@.last()@,
                                ));
                            }
                        }
                        registry.compounds.insert(compound_id.clone(), comp);
                        proof {
                            assert(comp@ =~= (CompoundView {
                                namespaces: push_unique(
                                    r0.compounds[compound_id@].namespaces,
                                    rid@,
                                ),
                                ..r0.compounds[compound_id@]
                            }));
                            assert(registry@ =~= (compound_child_apply(
                                element.children@[i as int]->Elem_0,
                                r0,
                                compound_id@,
                            )->Ok_0));
                        }
                    }
                } else if str_eq(c.name.as_str(), "sectiondef") {
                    match apply_section(c, registry) {
                        Ok(_) => {},
                        Err(e) => {
                            return Err(e);
                        },
                    }
                } else if str_eq(c.name.as_str(), "templateparamlist") {
                    let cls_opt = registry.classes.remove(compound_id.as_str());
                    match cls_opt {
                        Some(mut cls) => {
                            let tas = match parse_template_args(c) {
                                Ok(v) => v,
                                Err(e) => {
                                    return Err(e);
                                },
                            };
                            cls.template_args = tas;
                            registry.classes.insert(compound_id.clone(), cls);
                            proof {
                                assert(registry@.classes =~= r0.classes.insert(
                                    compound_id@,
                                    cls@,
                                ));
                                assert(registry@ =~= (compound_child_apply(
                                    element.children@[i as int]->Elem_0,
                                    r0,
                                    compound_id@,
                                )->Ok_0));
                            }
                        },
                        None => {},
                    }
                }
            },
            XmlNode::Text(_) => {},
        }
        i = i + 1;
    }
    proof {
        assert(element.children@.skip(n as int).len() == 0);
    }
    Ok(())
}

} // verus!
