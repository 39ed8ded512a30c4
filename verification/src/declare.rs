//! The declaration pass: reads the index document once and, for every
//! compound and member it declares, allocates a default entity in the
//! registry and records parent-to-child membership, so that every identifier
//! the definition pass will resolve already exists.

use vstd::prelude::*;

use crate::model::{
    class_default, compound_declared, compound_kind_from, define_default, enum_default,
    enum_value_default, function_default, registry_empty, variable_default, Class, ClassVariant,
    ClassView, Compound, CompoundKind, CompoundView, Define, Enum, EnumValue, Function,
    IngestError, RefID, Registry, RegistryView, Variable,
};
use crate::text::{last_segment, last_segment_str, str_eq};
use crate::xml::{attr_of, child_of, text_of, XmlElement, XmlNode};

verus! {

/// Declaring the class entity `id`: a fresh class of the given variant
/// whose unqualified name is the last scope segment of the display name.
/// An identifier declared twice is an index error.
pub open spec fn class_decl_apply(
    r: RegistryView,
    id: Seq<char>,
    name: Seq<char>,
    clazz: ClassView,
) -> Result<RegistryView, IngestError> {
    if r.classes.contains_key(id) {
        Err(IngestError::DuplicateIdentifier)
    } else {
        Ok(
            RegistryView {
                classes: r.classes.insert(
                    id,
                    ClassView { unqualified_name: last_segment(name, "::"@), ..clazz },
                ),
                ..r
            },
        )
    }
}

/// Declaring one member of the compound `parent`: the corresponding default
/// entity is allocated and the member's identifier appended to the matching
/// list on the parent.  Friend and typedef members are consumed without
/// being materialized.  A member kind outside the closed enumeration is a
/// schema error.
pub open spec fn member_decl_apply(
    r: RegistryView,
    parent: Seq<char>,
    elem: XmlElement,
) -> Result<RegistryView, IngestError> {
    if !r.compounds.contains_key(parent) {
        Err(IngestError::UnknownIdentifier)
    } else {
        let p = r.compounds[parent];
        match attr_of(elem, "refid"@) {
            None => Err(IngestError::MissingAttribute),
            Some(id) => match attr_of(elem, "kind"@) {
                None => Err(IngestError::MissingAttribute),
                Some(kind) => if kind == "define"@ {
                    if r.defines.contains_key(id) {
                        Err(IngestError::DuplicateIdentifier)
                    } else {
                        Ok(
                            RegistryView {
                                defines: r.defines.insert(id, define_default()),
                                compounds: r.compounds.insert(
                                    parent,
                                    CompoundView { defines: p.defines.push(id), ..p },
                                ),
                                ..r
                            },
                        )
                    }
                } else if kind == "friend"@ || kind == "typedef"@ {
                    Ok(r)
                } else if kind == "variable"@ {
                    if r.variables.contains_key(id) {
                        Err(IngestError::DuplicateIdentifier)
                    } else {
                        Ok(
                            RegistryView {
                                variables: r.variables.insert(id, variable_default()),
                                compounds: r.compounds.insert(
                                    parent,
                                    CompoundView { variables: p.variables.push(id), ..p },
                                ),
                                ..r
                            },
                        )
                    }
                } else if kind == "function"@ {
                    if r.functions.contains_key(id) {
                        Err(IngestError::DuplicateIdentifier)
                    } else {
                        Ok(
                            RegistryView {
                                functions: r.functions.insert(
                                    id,
                                    function_default(
                                        p.kind == CompoundKind::CLASS || p.kind
                                            == CompoundKind::STRUCT,
                                    ),
                                ),
                                compounds: r.compounds.insert(
                                    parent,
                                    CompoundView { functions: p.functions.push(id), ..p },
                                ),
                                ..r
                            },
                        )
                    }
                } else if kind == "enum"@ {
                    if r.enums.contains_key(id) {
                        Err(IngestError::DuplicateIdentifier)
                    } else {
                        Ok(
                            RegistryView {
                                enums: r.enums.insert(id, enum_default()),
                                compounds: r.compounds.insert(
                                    parent,
                                    CompoundView { enums: p.enums.push(id), ..p },
                                ),
                                ..r
                            },
                        )
                    }
                } else if kind == "enumvalue"@ {
                    if r.enum_values.contains_key(id) {
                        Err(IngestError::DuplicateIdentifier)
                    } else {
                        Ok(
                            RegistryView {
                                enum_values: r.enum_values.insert(id, enum_value_default()),
                                compounds: r.compounds.insert(
                                    parent,
                                    CompoundView { enum_values: p.enum_values.push(id), ..p },
                                ),
                                ..r
                            },
                        )
                    }
                } else {
                    Err(IngestError::UnknownMemberKind)
                },
            },
        }
    }
}

/// Folds the member declarations among `nodes` over the registry.
pub open spec fn members_decl_apply(
    nodes: Seq<XmlNode>,
    r: RegistryView,
    parent: Seq<char>,
) -> Result<RegistryView, IngestError>
    decreases nodes,
{
    if nodes.len() == 0 {
        Ok(r)
    } else {
        match nodes.first() {
            XmlNode::Elem(m) => if m.name@ == "member"@ {
                match member_decl_apply(r, parent, m) {
                    Err(e) => Err(e),
                    Ok(r2) => members_decl_apply(nodes.drop_first(), r2, parent),
                }
            } else {
                members_decl_apply(nodes.drop_first(), r, parent)
            },
            XmlNode::Text(_) => members_decl_apply(nodes.drop_first(), r, parent),
        }
    }
}

/// Declaring one compound of the index: its kind is read against the closed
/// enumeration, a class entity is declared for the class kinds, the compound
/// entity itself is declared with its display name, and its member
/// declarations are folded in document order.
pub open spec fn compound_decl_apply(r: RegistryView, elem: XmlElement) -> Result<
    RegistryView,
    IngestError,
> {
    match attr_of(elem, "refid"@) {
        None => Err(IngestError::MissingAttribute),
        Some(id) => {
            let name = match child_of(elem, "name"@) {
                Some(n) => text_of(n),
                None => "?"@,
            };
            match attr_of(elem, "kind"@) {
                None => Err(IngestError::MissingAttribute),
                Some(ks) => match compound_kind_from(ks) {
                    Err(e) => Err(e),
                    Ok(kind) => {
                        let class_res = if kind == CompoundKind::CLASS {
                            class_decl_apply(r, id, name, class_default(ClassVariant::CLASS))
                        } else if kind == CompoundKind::STRUCT {
                            class_decl_apply(r, id, name, class_default(ClassVariant::STRUCT))
                        } else if kind == CompoundKind::INTERFACE {
                            class_decl_apply(r, id, name, class_default(ClassVariant::INTERFACE))
                        } else {
                            Ok(r)
                        };
                        match class_res {
                            Err(e) => Err(e),
                            Ok(r2) => if r2.compounds.contains_key(id) {
                                Err(IngestError::DuplicateIdentifier)
                            } else {
                                members_decl_apply(
                                    elem.children@,
                                    RegistryView {
                                        compounds: r2.compounds.insert(
                                            id,
                                            compound_declared(name, kind),
                                        ),
                                        ..r2
                                    },
                                    id,
                                )
                            },
                        }
                    },
                },
            }
        },
    }
}

/// Folds the compound declarations among `nodes` over the registry.
pub open spec fn compounds_decl_apply(nodes: Seq<XmlNode>, r: RegistryView) -> Result<
    RegistryView,
    IngestError,
>
    decreases nodes,
{
    if nodes.len() == 0 {
        Ok(r)
    } else {
        match nodes.first() {
            XmlNode::Elem(c) => if c.name@ == "compound"@ {
                match compound_decl_apply(r, c) {
                    Err(e) => Err(e),
                    Ok(r2) => compounds_decl_apply(nodes.drop_first(), r2),
                }
            } else {
                compounds_decl_apply(nodes.drop_first(), r)
            },
            XmlNode::Text(_) => compounds_decl_apply(nodes.drop_first(), r),
        }
    }
}

/// The registry declared by an index document: every compound child of the
/// index root, folded in document order over the empty registry.
pub open spec fn index_extract(root: XmlElement) -> Result<RegistryView, IngestError> {
    compounds_decl_apply(root.children@, registry_empty())
}

/// Declares a class entity under `ref_id` whose unqualified name is the
/// last scope segment of `name`.
pub fn parse_class_declaration(
    registry: &mut Registry,
    ref_id: &RefID,
    name: &String,
    clazz: Class,
) -> (r: Result<(), IngestError>)
    requires
        old(registry).wf(),
    ensures
        final(registry).wf(),
        match r {
            Ok(_) => class_decl_apply(old(registry)@, ref_id@, name@, clazz@) == Ok::<
                RegistryView,
                IngestError,
            >(final(registry)@),
            Err(e) => class_decl_apply(old(registry)@, ref_id@, name@, clazz@) == Err::<
                RegistryView,
                IngestError,
            >(e) && final(registry)@ == old(registry)@,
        },
{
    if registry.classes.contains_key(ref_id.as_str()) {
        return Err(IngestError::DuplicateIdentifier);
    }
    let mut clazz = clazz;
    clazz.unqualified_name = last_segment_str(name.as_str(), "::");
    registry.classes.insert(ref_id.clone(), clazz);
    proof {
        assert(registry@ =~= (class_decl_apply(
            old(registry)@,
            ref_id@,
            name@,
            clazz@,
        )->Ok_0));
    }
    Ok(())
}

/// Declares one member of the compound `parent_id` and records it in the
/// parent's matching membership list.
pub fn parse_member_declaration(
    registry: &mut Registry,
    element: &XmlElement,
    parent_id: &RefID,
) -> (r: Result<(), IngestError>)
    requires
        old(registry).wf(),
    ensures
        final(registry).wf(),
        match r {
            Ok(_) => member_decl_apply(old(registry)@, parent_id@, *element) == Ok::<
                RegistryView,
                IngestError,
            >(final(registry)@),
            Err(e) => member_decl_apply(old(registry)@, parent_id@, *element) == Err::<
                RegistryView,
                IngestError,
            >(e),
        },
{
    let mut parent = match registry.compounds.remove(parent_id.as_str()) {
        Some(p) => p,
        None => {
            return Err(IngestError::UnknownIdentifier);
        },
    };
    let parent_kind = parent.kind;
    let member_id = match element.attr("refid") {
        Some(v) => v.clone(),
        None => {
            registry.compounds.insert(parent_id.clone(), parent);
            return Err(IngestError::MissingAttribute);
        },
    };
    let kind = match element.attr("kind") {
        Some(v) => v.clone(),
        None => {
            registry.compounds.insert(parent_id.clone(), parent);
            return Err(IngestError::MissingAttribute);
        },
    };
    proof {
        assert(old(registry)@.compounds.insert(parent_id@, old(registry)@.compounds[parent_id@])
            =~= old(registry)@.compounds);
    }
    if str_eq(kind.as_str(), "define") {
        if registry.defines.contains_key(member_id.as_str()) {
            return Err(IngestError::DuplicateIdentifier);
        }
        registry.defines.insert(member_id.clone(), Define::new());
        parent.defines.push(member_id);
        proof {
            assert(parent.defines.deep_view() =~= old(registry)@.compounds[parent_id@].defines.push(
                parent.defines@.last()@,
            ));
        }
        registry.compounds.insert(parent_id.clone(), parent);
        proof {
            assert(registry@ =~= (member_decl_apply(old(registry)@, parent_id@, *element)->Ok_0));
        }
        Ok(())
    } else if str_eq(kind.as_str(), "friend") || str_eq(kind.as_str(), "typedef") {
        registry.compounds.insert(parent_id.clone(), parent);
        proof {
            assert(registry@ =~= old(registry)@);
        }
        Ok(())
    } else if str_eq(kind.as_str(), "variable") {
        if registry.variables.contains_key(member_id.as_str()) {
            return Err(IngestError::DuplicateIdentifier);
        }
        registry.variables.insert(member_id.clone(), Variable::new());
        parent.variables.push(member_id);
        proof {
            assert(parent.variables.deep_view() =~= old(
                registry,
            )@.compounds[parent_id@].variables.push(parent.variables@.last()@));
        }
        registry.compounds.insert(parent_id.clone(), parent);
        proof {
            assert(registry@ =~= (member_decl_apply(old(registry)@, parent_id@, *element)->Ok_0));
        }
        Ok(())
    } else if str_eq(kind.as_str(), "function") {
        if registry.functions.contains_key(member_id.as_str()) {
            return Err(IngestError::DuplicateIdentifier);
        }
        let is_member = match parent_kind {
            CompoundKind::CLASS => true,
            CompoundKind::STRUCT => true,
            _ => false,
        };
        registry.functions.insert(member_id.clone(), Function::new(is_member));
        parent.functions.push(member_id);
        proof {
            assert(parent.functions.deep_view() =~= old(
                registry,
            )@.compounds[parent_id@].functions.push(parent.functions@.last()@));
        }
        registry.compounds.insert(parent_id.clone(), parent);
        proof {
            assert(registry@ =~= (member_decl_apply(old(registry)@, parent_id@, *element)->Ok_0));
        }
        Ok(())
    } else if str_eq(kind.as_str(), "enum") {
        if registry.enums.contains_key(member_id.as_str()) {
            return Err(IngestError::DuplicateIdentifier);
        }
        registry.enums.insert(member_id.clone(), Enum::new());
        parent.enums.push(member_id);
        proof {
            assert(parent.enums.deep_view() =~= old(registry)@.compounds[parent_id@].enums.push(
                parent.enums@.last()@,
            ));
        }
        registry.compounds.insert(parent_id.clone(), parent);
        proof {
            assert(registry@ =~= (member_decl_apply(old(registry)@, parent_id@, *element)->Ok_0));
        }
        Ok(())
    } else if str_eq(kind.as_str(), "enumvalue") {
        if registry.enum_values.contains_key(member_id.as_str()) {
            return Err(IngestError::DuplicateIdentifier);
        }
        registry.enum_values.insert(member_id.clone(), EnumValue::new());
        parent.enum_values.push(member_id);
        proof {
            assert(parent.enum_values.deep_view() =~= old(
                registry,
            )@.compounds[parent_id@].enum_values.push(parent.enum_values@.last()@));
        }
        registry.compounds.insert(parent_id.clone(), parent);
        proof {
            assert(registry@ =~= (member_decl_apply(old(registry)@, parent_id@, *element)->Ok_0));
        }
        Ok(())
    } else {
        Err(IngestError::UnknownMemberKind)
    }
}

/// Declares one compound of the index and all its members.
pub fn parse_compound_declaration(registry: &mut Registry, element: &XmlElement) -> (r: Result<
    (),
    IngestError,
>)
    requires
        old(registry).wf(),
    ensures
        final(registry).wf(),
        match r {
            Ok(_) => compound_decl_apply(old(registry)@, *element) == Ok::<
                RegistryView,
                IngestError,
            >(final(registry)@),
            Err(e) => compound_decl_apply(old(registry)@, *element) == Err::<
                RegistryView,
                IngestError,
            >(e),
        },
{
    let compound_id = match element.attr("refid") {
        Some(v) => v.clone(),
        None => {
            return Err(IngestError::MissingAttribute);
        },
    };
    let name = match element.get_child("name") {
        Some(n) => n.text_content(),
        None => "?".to_owned(),
    };
    let kind_text = match element.attr("kind") {
        Some(v) => v,
        None => {
            return Err(IngestError::MissingAttribute);
        },
    };
    let kind = match CompoundKind::from_str(kind_text.as_str()) {
        Ok(k) => k,
        Err(e) => {
            return Err(e);
        },
    };
    match kind {
        CompoundKind::CLASS => {
            match parse_class_declaration(registry, &compound_id, &name, Class::new(false)) {
                Ok(_) => {},
                Err(e) => {
                    return Err(e);
                },
            }
        },
        CompoundKind::STRUCT => {
            match parse_class_declaration(registry, &compound_id, &name, Class::new(true)) {
                Ok(_) => {},
                Err(e) => {
                    return Err(e);
                },
            }
        },
        CompoundKind::INTERFACE => {
            match parse_class_declaration(registry, &compound_id, &name, Class::new_interface()) {
                Ok(_) => {},
                Err(e) => {
                    return Err(e);
                },
            }
        },
        _ => {},
    }
    if registry.compounds.contains_key(compound_id.as_str()) {
        return Err(IngestError::DuplicateIdentifier);
    }
    registry.add_compound(compound_id.clone(), kind, name.clone());
    let ghost r3 = registry@;
    let n = element.children.len();
    let mut i: usize = 0;
    proof {
        assert(element.children@.skip(0) =~= element.children@);
    }
    while i < n
        invariant
            0 <= i <= n,
            n == element.children@.len(),
            registry.wf(),
            compound_decl_apply(old(registry)@, *element) == members_decl_apply(
                element.children@.skip(i as int),
                registry@,
                compound_id@,
            ),
        decreases n - i,
    {
        proof {
            assert(element.children@.skip(i as int).first() == element.children@[i as int]);
            assert(element.children@.skip(i as int).drop_first() =~= element.children@.skip(i + 1));
        }
        match &element.children[i] {
            XmlNode::Elem(m) => {
                if str_eq(m.name.as_str(), "member") {
                    match parse_member_declaration(registry, m, &compound_id) {
                        Ok(_) => {},
                        Err(e) => {
                            return Err(e);
                        },
                    }
                }
            },
            XmlNode::Text(_) => {},
        }
        i = i + 1;
    }
    proof {
        assert(element.children@.skip(n as int).len() == 0);
    }
    Ok(())
}

/// Runs the declaration pass: folds every compound declaration of the index
/// root over an empty registry.  After it, every identifier that the
/// definition pass will ever resolve exists with default values.
pub fn parse_index(root: &XmlElement) -> (r: Result<Registry, IngestError>)
    ensures
        match r {
            Ok(reg) => reg.wf() && index_extract(*root) == Ok::<RegistryView, IngestError>(reg@),
            Err(e) => index_extract(*root) == Err::<RegistryView, IngestError>(e),
        },
{
    let mut registry = Registry::new();
    let n = root.children.len();
    let mut i: usize = 0;
    proof {
        assert(root.children@.skip(0) =~= root.children@);
        assert(registry@ =~= registry_empty());
    }
    while i < n
        invariant
            0 <= i <= n,
            n == root.children@.len(),
            registry.wf(),
            index_extract(*root) == compounds_decl_apply(
                root.children@.skip(i as int),
                registry@,
            ),
        decreases n - i,
    {
        proof {
            assert(root.children@.skip(i as int).first() == root.children@[i as int]);
            assert(root.children@.skip(i as int).drop_first() =~= root.children@.skip(i + 1));
        }
        match &root.children[i] {
            XmlNode::Elem(c) => {
                if str_eq(c.name.as_str(), "compound") {
                    match parse_compound_declaration(&mut registry, c) {
                        Ok(_) => {},
                        Err(e) => {
                            return Err(e);
                        },
                    }
                }
            },
            XmlNode::Text(_) => {},
        }
        i = i + 1;
    }
    proof {
        assert(root.children@.skip(n as int).len() == 0);
    }
    Ok(registry)
}

} // verus!
