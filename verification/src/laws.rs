//! Properties of the ingestion engine that hold beyond the individual
//! function contracts: pass-level invariants, idempotence of the definition
//! step, and the classification behavior of the comment extractor.

use vstd::prelude::*;

use crate::comment::{
    children_extract, detailed_extract, elem_extract, node_extract, para_extract,
    param_list_extract, plist_apply, ssect_apply, text_extract,
};
use crate::declare::{
    compound_decl_apply, compounds_decl_apply, index_extract, member_decl_apply,
    members_decl_apply,
};
use crate::define::{
    collect_params, enum_define, function_define, variable_define,
};
use crate::model::{
    comment_empty, define_default, enum_default, enum_value_default, function_default,
    variable_default, CommentView, EnumView, FunctionView, IngestError, RegistryView,
    VariableView,
};
use crate::signature::stripped_args;
use crate::text::trimmed;
use crate::xml::{attr_of, child_of, XmlElement, XmlNode};

verus! {

/// Flattening an element that holds a single plain text node yields that
/// text trimmed, whatever the element is called.
pub proof fn lemma_extract_single_text(e: XmlElement, t: String)
    requires
        e.children@ == seq![XmlNode::Text(t)],
    ensures
        text_extract(e) == Ok::<Seq<char>, IngestError>(trimmed(t@)),
{
    let nodes = e.children@;
    assert(nodes.len() == 1);
    assert(nodes.first() == XmlNode::Text(t));
    assert(node_extract(nodes.first()) == Ok::<Seq<char>, IngestError>(trimmed(t@)));
    assert(nodes.drop_first() =~= Seq::<XmlNode>::empty());
    assert(children_extract(nodes.drop_first(), Seq::<char>::empty() + trimmed(t@)) == Ok::<
        Seq<char>,
        IngestError,
    >(Seq::<char>::empty() + trimmed(t@)));
    assert(Seq::<char>::empty() + trimmed(t@) =~= trimmed(t@));
}

/// Flattening a bulleted list of two plain text items yields the first item
/// marked and terminated, followed by the second item marked and
/// terminated.
pub proof fn lemma_extract_list_items(e: XmlElement, li1: XmlElement, li2: XmlElement, a: String, b: String)
    requires
        e.children@ == seq![XmlNode::Elem(li1), XmlNode::Elem(li2)],
        li1.name@ == "listitem"@,
        li1.children@ == seq![XmlNode::Text(a)],
        li2.name@ == "listitem"@,
        li2.children@ == seq![XmlNode::Text(b)],
    ensures
        text_extract(e) == Ok::<Seq<char>, IngestError>(
            ("* "@ + trimmed(a@) + "\n"@) + ("* "@ + trimmed(b@) + "\n"@),
        ),
{
    reveal_strlit("para");
    reveal_strlit("computeroutput");
    reveal_strlit("itemizedlist");
    reveal_strlit("listitem");
    lemma_extract_single_text(li1, a);
    lemma_extract_single_text(li2, b);
    let item1 = "* "@ + trimmed(a@) + "\n"@;
    let item2 = "* "@ + trimmed(b@) + "\n"@;
    assert("para"@.len() == 4);
    assert("computeroutput"@.len() == 14);
    assert("itemizedlist"@.len() == 12);
    assert("listitem"@.len() == 8);
    assert(elem_extract(li1) == Ok::<Seq<char>, IngestError>(item1));
    assert(elem_extract(li2) == Ok::<Seq<char>, IngestError>(item2));
    let rest = e.children@.drop_first();
    assert(rest =~= seq![XmlNode::Elem(li2)]);
    assert(rest.drop_first() =~= Seq::<XmlNode>::empty());
    assert(Seq::<char>::empty() + item1 =~= item1);
    assert(children_extract(rest.drop_first(), item1 + item2) == Ok::<Seq<char>, IngestError>(
        item1 + item2,
    ));
    assert(rest.first() == XmlNode::Elem(li2));
    assert(node_extract(rest.first()) == Ok::<Seq<char>, IngestError>(item2));
    assert(children_extract(rest, item1) == Ok::<Seq<char>, IngestError>(item1 + item2));
    assert(e.children@.first() == XmlNode::Elem(li1));
    assert(node_extract(e.children@.first()) == Ok::<Seq<char>, IngestError>(item1));
    assert(children_extract(e.children@, Seq::empty()) == children_extract(
        rest,
        Seq::<char>::empty() + item1,
    ));
}

/// Signature normalization does not touch the argument text of a function
/// whose parameter-name list is empty, even when the raw text is non-empty.
pub proof fn lemma_strip_const_no_parameters(f: FunctionView)
    requires
        f.parameter_names.len() == 0,
    ensures
        stripped_args(f) == f.args,
{
}

/// A function declared as a class member stays a member through any number
/// of definition steps, in any order: the definition step never changes the
/// membership flag fixed at declaration time.
pub proof fn lemma_define_keeps_membership(e: XmlElement, f: FunctionView, g: FunctionView)
    requires
        function_define(e, f) == Ok::<FunctionView, IngestError>(g),
    ensures
        g.is_member == f.is_member,
{
}

/// Filling a variable entity in depends on the definition element alone,
/// never on the entity's earlier state: running the step twice yields the
/// state of a single run.
pub proof fn lemma_variable_define_stateless(e: XmlElement, v1: VariableView, v2: VariableView)
    ensures
        variable_define(e, v1) == variable_define(e, v2),
{
}

/// Filling an enum entity in depends on the definition element alone,
/// never on the entity's earlier state: its value sequence is overwritten,
/// not accumulated, so running the step twice yields the state of a single
/// run.
pub proof fn lemma_enum_define_stateless(e: XmlElement, en1: EnumView, en2: EnumView)
    ensures
        enum_define(e, en1) == enum_define(e, en2),
{
}

/// A return section sets the single return description, overwriting
/// whatever an earlier section left there: encountering "return" a second
/// time within one comment replaces, never appends.
pub proof fn lemma_return_overwrites(
    p: XmlElement,
    acc: CommentView,
    ss: XmlElement,
    pp: XmlElement,
    t: Seq<char>,
    c: CommentView,
)
    requires
        child_of(p, "simplesect"@) == Some(ss),
        attr_of(ss, "kind"@) == Some("return"@),
        child_of(ss, "para"@) == Some(pp),
        text_extract(pp) == Ok::<Seq<char>, IngestError>(t),
        para_extract(p, acc) == Ok::<CommentView, IngestError>(c),
    ensures
        c.returns == t,
{
}

/// A simple section never touches the three name-to-description mappings.
proof fn lemma_ssect_keeps_maps(p: XmlElement, x: CommentView, c: CommentView)
    requires
        ssect_apply(p, x) == Ok::<CommentView, IngestError>(c),
    ensures
        c.parameters == x.parameters,
        c.exceptions == x.exceptions,
        c.template_parameters == x.template_parameters,
{
}

/// A paragraph whose parameter list is not of kind "param" leaves the
/// ordinary-parameter mapping alone.
proof fn lemma_plist_keeps_parameters(p: XmlElement, x: CommentView, c: CommentView)
    requires
        plist_apply(p, x) == Ok::<CommentView, IngestError>(c),
        match child_of(p, "parameterlist"@) {
            Some(pl) => attr_of(pl, "kind"@) != Some("param"@),
            None => true,
        },
    ensures
        c.parameters == x.parameters,
{
}

/// A parameter list of kind "exception" inside a detailed-description
/// paragraph populates the exception mapping and leaves the
/// ordinary-parameter mapping as it was.
pub proof fn lemma_exception_list_populates(
    p: XmlElement,
    acc: CommentView,
    pl: XmlElement,
    m: Map<Seq<char>, Seq<char>>,
    c: CommentView,
)
    requires
        child_of(p, "parameterlist"@) == Some(pl),
        attr_of(pl, "kind"@) == Some("exception"@),
        param_list_extract(pl) == Ok::<Map<Seq<char>, Seq<char>>, IngestError>(m),
        para_extract(p, acc) == Ok::<CommentView, IngestError>(c),
    ensures
        c.exceptions == m,
        c.parameters == acc.parameters,
{
    reveal_strlit("param");
    reveal_strlit("exception");
    assert("param"@.len() == 5);
    assert("exception"@.len() == 9);
    let c1 = CommentView {
        details: acc.details.push(text_extract(p)->Ok_0),
        ..acc
    };
    assert(plist_apply(p, c1) is Ok);
    let c2 = plist_apply(p, c1)->Ok_0;
    assert(c2.exceptions == m);
    assert(c2.parameters == acc.parameters);
    lemma_ssect_keeps_maps(p, c2, c);
}

/// Whether this node is a paragraph carrying a parameter list of kind
/// "param".
pub open spec fn node_carries_param_list(n: XmlNode) -> bool {
    match n {
        XmlNode::Elem(p) => p.name@ == "para"@ && match child_of(p, "parameterlist"@) {
            Some(pl) => attr_of(pl, "kind"@) == Some("param"@),
            None => false,
        },
        XmlNode::Text(_) => false,
    }
}

/// Whether some paragraph among `nodes` carries a parameter list of kind
/// "param".
pub open spec fn any_param_list(nodes: Seq<XmlNode>) -> bool {
    exists|j: int| 0 <= j < nodes.len() && node_carries_param_list(#[trigger] nodes[j])
}

/// A detailed description without a parameter list of kind "param" leaves
/// the ordinary-parameter mapping empty.
pub proof fn lemma_no_param_list_keeps_parameters_empty(
    nodes: Seq<XmlNode>,
    acc: CommentView,
    c: CommentView,
)
    requires
        detailed_extract(nodes, acc) == Ok::<CommentView, IngestError>(c),
        !any_param_list(nodes),
        acc.parameters == Map::<Seq<char>, Seq<char>>::empty(),
    ensures
        c.parameters == Map::<Seq<char>, Seq<char>>::empty(),
    decreases nodes,
{
    if nodes.len() > 0 {
        let rest = nodes.drop_first();
        assert(!node_carries_param_list(nodes[0]));
        assert(!any_param_list(rest)) by {
            if any_param_list(rest) {
                let j = choose|j: int|
                    0 <= j < rest.len() && node_carries_param_list(#[trigger] rest[j]);
                assert(nodes[j + 1] == rest[j]);
            }
        }
        match nodes.first() {
            XmlNode::Elem(p) => {
                if p.name@ == "para"@ {
                    assert(para_extract(p, acc) is Ok);
                    let c1 = para_extract(p, acc)->Ok_0;
                    let cd = CommentView {
                        details: acc.details.push(text_extract(p)->Ok_0),
                        ..acc
                    };
                    assert(plist_apply(p, cd) is Ok);
                    let c2 = plist_apply(p, cd)->Ok_0;
                    lemma_plist_keeps_parameters(p, cd, c2);
                    lemma_ssect_keeps_maps(p, c2, c1);
                    lemma_no_param_list_keeps_parameters_empty(rest, c1, c);
                } else {
                    lemma_no_param_list_keeps_parameters_empty(rest, acc, c);
                }
            },
            XmlNode::Text(_) => {
                lemma_no_param_list_keeps_parameters_empty(rest, acc, c);
            },
        }
    }
}

/// Every name already collected stays collected.
proof fn lemma_collect_params_monotone(nodes: Seq<XmlNode>, acc: Seq<Seq<char>>, x: Seq<char>)
    requires
        acc.contains(x),
    ensures
        collect_params(nodes, acc).contains(x),
    decreases nodes,
{
    if nodes.len() > 0 {
        let rest = nodes.drop_first();
        match nodes.first() {
            XmlNode::Elem(p) => {
                if p.name@ == "param"@ {
                    match child_of(p, "declname"@) {
                        None => {
                            lemma_collect_params_monotone(rest, acc, x);
                        },
                        Some(d) => {
                            let nm = crate::xml::text_of(d);
                            if acc.contains(nm) {
                                lemma_collect_params_monotone(rest, acc, x);
                            } else {
                                let i = choose|i: int| 0 <= i < acc.len() && acc[i] == x;
                                assert(acc.push(nm)[i] == x);
                                lemma_collect_params_monotone(rest, acc.push(nm), x);
                            }
                        },
                    }
                } else {
                    lemma_collect_params_monotone(rest, acc, x);
                }
            },
            XmlNode::Text(_) => {
                lemma_collect_params_monotone(rest, acc, x);
            },
        }
    }
}

/// Collecting parameter names a second time over the same element adds
/// nothing: de-duplication makes the collection idempotent.
pub proof fn lemma_collect_params_idempotent(nodes: Seq<XmlNode>, acc: Seq<Seq<char>>)
    ensures
        collect_params(nodes, collect_params(nodes, acc)) == collect_params(nodes, acc),
    decreases nodes,
{
    if nodes.len() > 0 {
        let rest = nodes.drop_first();
        match nodes.first() {
            XmlNode::Elem(p) => {
                if p.name@ == "param"@ {
                    match child_of(p, "declname"@) {
                        None => {
                            lemma_collect_params_idempotent(rest, acc);
                        },
                        Some(d) => {
                            let nm = crate::xml::text_of(d);
                            if acc.contains(nm) {
                                lemma_collect_params_monotone(rest, acc, nm);
                                lemma_collect_params_idempotent(rest, acc);
                            } else {
                                assert(acc.push(nm)[acc.len() as int] == nm);
                                assert(acc.push(nm).contains(nm));
                                lemma_collect_params_monotone(rest, acc.push(nm), nm);
                                lemma_collect_params_idempotent(rest, acc.push(nm));
                            }
                        },
                    }
                } else {
                    lemma_collect_params_idempotent(rest, acc);
                }
            },
            XmlNode::Text(_) => {
                lemma_collect_params_idempotent(rest, acc);
            },
        }
    }
}

/// Every entity allocated by the declaration pass still has its default
/// value: entities are filled in only by the definition pass.
pub open spec fn declaration_defaults(m: RegistryView) -> bool {
    &&& forall|id: Seq<char>| #[trigger] m.functions.dom().contains(id)
        ==> m.functions[id] == function_default(m.functions[id].is_member)
    &&& forall|id: Seq<char>| #[trigger] m.variables.dom().contains(id)
        ==> m.variables[id] == variable_default()
    &&& forall|id: Seq<char>| #[trigger] m.defines.dom().contains(id)
        ==> m.defines[id] == define_default()
    &&& forall|id: Seq<char>| #[trigger] m.enums.dom().contains(id)
        ==> m.enums[id] == enum_default()
    &&& forall|id: Seq<char>| #[trigger] m.enum_values.dom().contains(id)
        ==> m.enum_values[id] == enum_value_default()
    &&& forall|id: Seq<char>| #[trigger] m.classes.dom().contains(id)
        ==> m.classes[id].template_args == Seq::<Seq<char>>::empty()
    &&& forall|id: Seq<char>| #[trigger] m.compounds.dom().contains(id)
        ==> m.compounds[id].title == "?"@ && m.compounds[id].docs == comment_empty()
}

/// Every identifier recorded in a compound's member lists is present in the
/// category mapping of its kind: looking a declared member up succeeds.
pub open spec fn membership_linked(m: RegistryView) -> bool {
    forall|cid: Seq<char>| #[trigger] m.compounds.dom().contains(cid) ==> {
        &&& (forall|j: int|
            0 <= j < m.compounds[cid].functions.len() ==> m.functions.dom().contains(
                #[trigger] m.compounds[cid].functions[j],
            ))
        &&& (forall|j: int|
            0 <= j < m.compounds[cid].variables.len() ==> m.variables.dom().contains(
                #[trigger] m.compounds[cid].variables[j],
            ))
        &&& (forall|j: int|
            0 <= j < m.compounds[cid].defines.len() ==> m.defines.dom().contains(
                #[trigger] m.compounds[cid].defines[j],
            ))
        &&& (forall|j: int|
            0 <= j < m.compounds[cid].enums.len() ==> m.enums.dom().contains(
                #[trigger] m.compounds[cid].enums[j],
            ))
        &&& (forall|j: int|
            0 <= j < m.compounds[cid].enum_values.len() ==> m.enum_values.dom().contains(
                #[trigger] m.compounds[cid].enum_values[j],
            ))
    }
}

/// One member declaration keeps both declaration-pass invariants.
proof fn lemma_member_decl_keeps(
    r: RegistryView,
    parent: Seq<char>,
    elem: XmlElement,
    r2: RegistryView,
)
    requires
        member_decl_apply(r, parent, elem) == Ok::<RegistryView, IngestError>(r2),
        declaration_defaults(r),
        membership_linked(r),
    ensures
        declaration_defaults(r2),
        membership_linked(r2),
{
}

/// Folding member declarations keeps both invariants.
proof fn lemma_members_fold_keeps(
    nodes: Seq<XmlNode>,
    r: RegistryView,
    parent: Seq<char>,
    r2: RegistryView,
)
    requires
        members_decl_apply(nodes, r, parent) == Ok::<RegistryView, IngestError>(r2),
        declaration_defaults(r),
        membership_linked(r),
    ensures
        declaration_defaults(r2),
        membership_linked(r2),
    decreases nodes,
{
    if nodes.len() > 0 {
        let rest = nodes.drop_first();
        match nodes.first() {
            XmlNode::Elem(m) => {
                if m.name@ == "member"@ {
                    let rm = member_decl_apply(r, parent, m)->Ok_0;
                    lemma_member_decl_keeps(r, parent, m, rm);
                    lemma_members_fold_keeps(rest, rm, parent, r2);
                } else {
                    lemma_members_fold_keeps(rest, r, parent, r2);
                }
            },
            XmlNode::Text(_) => {
                lemma_members_fold_keeps(rest, r, parent, r2);
            },
        }
    }
}

/// One compound declaration keeps both invariants.
proof fn lemma_compound_decl_keeps(r: RegistryView, elem: XmlElement, r2: RegistryView)
    requires
        compound_decl_apply(r, elem) == Ok::<RegistryView, IngestError>(r2),
        declaration_defaults(r),
        membership_linked(r),
    ensures
        declaration_defaults(r2),
        membership_linked(r2),
{
    let id = attr_of(elem, "refid"@)->Some_0;
    let name = match child_of(elem, "name"@) {
        Some(n) => crate::xml::text_of(n),
        None => "?"@,
    };
    let ks = attr_of(elem, "kind"@)->Some_0;
    let kind = crate::model::compound_kind_from(ks)->Ok_0;
    let class_res = if kind == crate::model::CompoundKind::CLASS {
        crate::declare::class_decl_apply(
            r,
            id,
            name,
            crate::model::class_default(crate::model::ClassVariant::CLASS),
        )
    } else if kind == crate::model::CompoundKind::STRUCT {
        crate::declare::class_decl_apply(
            r,
            id,
            name,
            crate::model::class_default(crate::model::ClassVariant::STRUCT),
        )
    } else if kind == crate::model::CompoundKind::INTERFACE {
        crate::declare::class_decl_apply(
            r,
            id,
            name,
            crate::model::class_default(crate::model::ClassVariant::INTERFACE),
        )
    } else {
        Ok(r)
    };
    let ra = class_res->Ok_0;
    assert(declaration_defaults(ra));
    assert(membership_linked(ra));
    let rb = RegistryView {
        compounds: ra.compounds.insert(id, crate::model::compound_declared(name, kind)),
        ..ra
    };
    assert(declaration_defaults(rb));
    assert(membership_linked(rb));
    lemma_members_fold_keeps(elem.children@, rb, id, r2);
}

/// Folding compound declarations keeps both invariants.
proof fn lemma_compounds_fold_keeps(nodes: Seq<XmlNode>, r: RegistryView, r2: RegistryView)
    requires
        compounds_decl_apply(nodes, r) == Ok::<RegistryView, IngestError>(r2),
        declaration_defaults(r),
        membership_linked(r),
    ensures
        declaration_defaults(r2),
        membership_linked(r2),
    decreases nodes,
{
    if nodes.len() > 0 {
        let rest = nodes.drop_first();
        match nodes.first() {
            XmlNode::Elem(c) => {
                if c.name@ == "compound"@ {
                    let rc = compound_decl_apply(r, c)->Ok_0;
                    lemma_compound_decl_keeps(r, c, rc);
                    lemma_compounds_fold_keeps(rest, rc, r2);
                } else {
                    lemma_compounds_fold_keeps(rest, r, r2);
                }
            },
            XmlNode::Text(_) => {
                lemma_compounds_fold_keeps(rest, r, r2);
            },
        }
    }
}

/// After a successful declaration pass, looking any declared identifier up
/// succeeds -- every identifier in a compound's member lists is present in
/// the category mapping of its kind -- and the entity found still has its
/// default value for its category.
pub proof fn lemma_declaration_pass_defaults(root: XmlElement, m: RegistryView)
    requires
        index_extract(root) == Ok::<RegistryView, IngestError>(m),
    ensures
        declaration_defaults(m),
        membership_linked(m),
{
    lemma_compounds_fold_keeps(root.children@, crate::model::registry_empty(), m);
}

/// Running the definition step twice over the same function element yields
/// the state of a single run: every field is overwritten from the element,
/// and the parameter-name collection is de-duplicating.
pub proof fn lemma_function_define_idempotent(e: XmlElement, f: FunctionView, g: FunctionView)
    requires
        function_define(e, f) == Ok::<FunctionView, IngestError>(g),
    ensures
        function_define(e, g) == Ok::<FunctionView, IngestError>(g),
{
    lemma_collect_params_idempotent(e.children@, f.parameter_names);
    assert(g.parameter_names == collect_params(e.children@, f.parameter_names));
    assert(collect_params(e.children@, g.parameter_names) == g.parameter_names);
    assert(function_define(e, g) is Ok);
    assert((function_define(e, g)->Ok_0) =~= g);
}

/// Supplementing a membership list with a reference it already records adds
/// nothing: the defensive de-duplication makes inner references idempotent
/// across repeated documents.
pub proof fn lemma_push_unique_idempotent(ids: Seq<Seq<char>>, id: Seq<char>)
    ensures
        crate::define::push_unique(crate::define::push_unique(ids, id), id) ==
            crate::define::push_unique(ids, id),
{
    if !ids.contains(id) {
        assert(ids.push(id)[ids.len() as int] == id);
        assert(ids.push(id).contains(id));
    }
}

} // verus!
