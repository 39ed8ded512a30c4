//! The comment extractor: recursive flattening of nested documentation
//! markup into plain text, and classification of parameter lists and simple
//! sections into the flat comment structure.

use vstd::prelude::*;

use crate::idmap::IdMap;
use crate::model::{comment_empty, Comment, CommentView, IngestError};
use crate::text::{str_eq, trim, trimmed};
use crate::xml::{attr_of, child_of, XmlElement, XmlNode};

verus! {

/// An executable text result agrees with a specification-level one.
pub open spec fn text_result_models(
    r: Result<String, IngestError>,
    s: Result<Seq<char>, IngestError>,
) -> bool {
    match r {
        Ok(t) => s == Ok::<Seq<char>, IngestError>(t@),
        Err(e) => s == Err::<Seq<char>, IngestError>(e),
    }
}

/// Flattened text of the node sequence `nodes`, appended to `acc`: trimmed
/// text nodes and recognized wrapper elements contribute, all other elements
/// are ignored.  The first failure wins.
pub open spec fn children_extract(nodes: Seq<XmlNode>, acc: Seq<char>) -> Result<
    Seq<char>,
    IngestError,
>
    decreases nodes,
{
    if nodes.len() == 0 {
        Ok(acc)
    } else {
        match node_extract(nodes.first()) {
            Err(e) => Err(e),
            Ok(t) => children_extract(nodes.drop_first(), acc + t),
        }
    }
}

/// Flattened text contributed by one node.
pub open spec fn node_extract(node: XmlNode) -> Result<Seq<char>, IngestError>
    decreases node,
{
    match node {
        XmlNode::Text(t) => Ok(trimmed(t@)),
        XmlNode::Elem(e) => elem_extract(e),
    }
}

/// Flattened text contributed by one child element, dispatched on its name:
/// paragraphs and cross-references recurse transparently, inline code is
/// wrapped in back-quotes, bulleted lists and list items get their markers,
/// everything else is ignored.  A cross-reference without its identifier and
/// kind attributes is a schema violation.
pub open spec fn elem_extract(e: XmlElement) -> Result<Seq<char>, IngestError>
    decreases e,
{
    if e.name@ == "para"@ {
        children_extract(e.children@, Seq::empty())
    } else if e.name@ == "computeroutput"@ {
        match children_extract(e.children@, Seq::empty()) {
            Err(er) => Err(er),
            Ok(t) => Ok(" `"@ + t + "` "@),
        }
    } else if e.name@ == "itemizedlist"@ {
        match children_extract(e.children@, Seq::empty()) {
            Err(er) => Err(er),
            Ok(t) => Ok("\n"@ + t),
        }
    } else if e.name@ == "listitem"@ {
        match children_extract(e.children@, Seq::empty()) {
            Err(er) => Err(er),
            Ok(t) => Ok("* "@ + t + "\n"@),
        }
    } else if e.name@ == "ref"@ {
        if attr_of(e, "refid"@) is None {
            Err(IngestError::MissingAttribute)
        } else if attr_of(e, "kindref"@) is None {
            Err(IngestError::MissingAttribute)
        } else {
            children_extract(e.children@, Seq::empty())
        }
    } else {
        Ok(Seq::empty())
    }
}

/// The flattened text of `e`'s children.
pub open spec fn text_extract(e: XmlElement) -> Result<Seq<char>, IngestError> {
    children_extract(e.children@, Seq::empty())
}

/// Recursively flattens `elem` into plain text: text nodes are trimmed and
/// concatenated, recognized wrappers are rendered, unknown elements are
/// skipped.
pub fn extract_text(elem: &XmlElement) -> (r: Result<String, IngestError>)
    ensures
        text_result_models(r, text_extract(*elem)),
    decreases *elem,
{
    let n = elem.children.len();
    let mut out = String::new();
    let mut i: usize = 0;
    proof {
        assert(elem.children@.skip(0) =~= elem.children@);
    }
    while i < n
        invariant
            0 <= i <= n,
            n == elem.children@.len(),
            children_extract(elem.children@, Seq::empty()) == children_extract(
                elem.children@.skip(i as int),
                out@,
            ),
        decreases n - i,
    {
        proof {
            assert(elem.children@.skip(i as int).first() == elem.children@[i as int]);
            assert(elem.children@.skip(i as int).drop_first() =~= elem.children@.skip(i + 1));
        }
        let ghost out0: Seq<char> = out@;
        match &elem.children[i] {
            XmlNode::Text(t) => {
                let tr = trim(t.as_str());
                out.append(tr.as_str());
            },
            XmlNode::Elem(ch) => {
                proof {
                    assert(decreases_to!(*elem => elem.children));
                    assert(decreases_to!(elem.children => elem.children@));
                    assert(decreases_to!(elem.children@ => elem.children@[i as int]));
                    assert(decreases_to!(elem.children@[i as int] => *ch));
                }
                if str_eq(ch.name.as_str(), "para") {
                    match extract_text(ch) {
                        Ok(t) => out.append(t.as_str()),
                        Err(e) => {
                            proof {
                                assert(elem.children@[i as int] == XmlNode::Elem(*ch));
                                assert(elem_extract(*ch) == Err::<Seq<char>, IngestError>(e));
                                assert(node_extract(elem.children@[i as int]) == Err::<
                                    Seq<char>,
                                    IngestError,
                                >(e));
                                assert(children_extract(elem.children@.skip(i as int), out@)
                                    == Err::<Seq<char>, IngestError>(e));
                            }
                            return Err(e);
                        },
                    }
                } else if str_eq(ch.name.as_str(), "computeroutput") {
                    match extract_text(ch) {
                        Ok(t) => {
                            out.append(" `");
                            out.append(t.as_str());
                            out.append("` ");
                            proof {
                                assert(out@ =~= out0 + (" `"@ + t@ + "` "@));
                            }
                        },
                        Err(e) => {
                            return Err(e);
                        },
                    }
                } else if str_eq(ch.name.as_str(), "itemizedlist") {
                    match extract_text(ch) {
                        Ok(t) => {
                            out.append("\n");
                            out.append(t.as_str());
                            proof {
                                assert(out@ =~= out0 + ("\n"@ + t@));
                            }
                        },
                        Err(e) => {
                            return Err(e);
                        },
                    }
                } else if str_eq(ch.name.as_str(), "listitem") {
                    match extract_text(ch) {
                        Ok(t) => {
                            out.append("* ");
                            out.append(t.as_str());
                            out.append("\n");
                            proof {
                                assert(out@ =~= out0 + ("* "@ + t@ + "\n"@));
                            }
                        },
                        Err(e) => {
                            return Err(e);
                        },
                    }
                } else if str_eq(ch.name.as_str(), "ref") {
                    if ch.attr("refid").is_none() {
                        return Err(IngestError::MissingAttribute);
                    }
                    if ch.attr("kindref").is_none() {
                        return Err(IngestError::MissingAttribute);
                    }
                    match extract_text(ch) {
                        Ok(t) => out.append(t.as_str()),
                        Err(e) => {
                            return Err(e);
                        },
                    }
                }
            },
        }
        proof {
            assert(out@ =~= out0 + (out@.skip(out0.len() as int)));
        }
        i = i + 1;
    }
    proof {
        assert(elem.children@.skip(n as int).len() == 0);
    }
    Ok(out)
}

/// The name/description pair of one parameter item: the first name of its
/// name list, paired with the flattened description.  A missing name list,
/// name or description child is a schema violation.
pub open spec fn param_item_extract(item: XmlElement) -> Result<
    (Seq<char>, Seq<char>),
    IngestError,
> {
    match child_of(item, "parameternamelist"@) {
        None => Err(IngestError::MissingChild),
        Some(list) => match child_of(list, "parametername"@) {
            None => Err(IngestError::MissingChild),
            Some(name_elem) => match text_extract(name_elem) {
                Err(e) => Err(e),
                Ok(name) => match child_of(item, "parameterdescription"@) {
                    None => Err(IngestError::MissingChild),
                    Some(desc_elem) => match text_extract(desc_elem) {
                        Err(e) => Err(e),
                        Ok(desc) => Ok((name, desc)),
                    },
                },
            },
        },
    }
}

/// The name-to-description entries of the parameter items among `nodes`,
/// added to `acc`; a repeated name keeps the later description.
pub open spec fn param_items_extract(
    nodes: Seq<XmlNode>,
    acc: Map<Seq<char>, Seq<char>>,
) -> Result<Map<Seq<char>, Seq<char>>, IngestError>
    decreases nodes,
{
    if nodes.len() == 0 {
        Ok(acc)
    } else {
        match nodes.first() {
            XmlNode::Elem(item) => if item.name@ == "parameteritem"@ {
                match param_item_extract(item) {
                    Err(e) => Err(e),
                    Ok(pair) => param_items_extract(
                        nodes.drop_first(),
                        acc.insert(pair.0, pair.1),
                    ),
                }
            } else {
                param_items_extract(nodes.drop_first(), acc)
            },
            XmlNode::Text(_) => param_items_extract(nodes.drop_first(), acc),
        }
    }
}

/// The name-to-description mapping of a parameter-list element.
pub open spec fn param_list_extract(e: XmlElement) -> Result<
    Map<Seq<char>, Seq<char>>,
    IngestError,
> {
    param_items_extract(e.children@, Map::empty())
}

/// Collects the name-to-description entries of a parameter-list element.
pub fn parse_parameter_list(elem: &XmlElement) -> (r: Result<IdMap<String>, IngestError>)
    requires
        elem.name@ == "parameterlist"@,
    ensures
        match r {
            Ok(m) => m.wf() && param_list_extract(*elem) == Ok::<
                Map<Seq<char>, Seq<char>>,
                IngestError,
            >(m@),
            Err(e) => param_list_extract(*elem) == Err::<
                Map<Seq<char>, Seq<char>>,
                IngestError,
            >(e),
        },
{
    let n = elem.children.len();
    let mut entries: IdMap<String> = IdMap::new();
    let mut i: usize = 0;
    proof {
        assert(elem.children@.skip(0) =~= elem.children@);
    }
    while i < n
        invariant
            0 <= i <= n,
            n == elem.children@.len(),
            entries.wf(),
            param_items_extract(elem.children@, Map::empty()) == param_items_extract(
                elem.children@.skip(i as int),
                entries@,
            ),
        decreases n - i,
    {
        proof {
            assert(elem.children@.skip(i as int).first() == elem.children@[i as int]);
            assert(elem.children@.skip(i as int).drop_first() =~= elem.children@.skip(i + 1));
        }
        match &elem.children[i] {
            XmlNode::Elem(item) => {
                if str_eq(item.name.as_str(), "parameteritem") {
                    let list = match item.get_child("parameternamelist") {
                        Some(l) => l,
                        None => {
                            return Err(IngestError::MissingChild);
                        },
                    };
                    let name_elem = match list.get_child("parametername") {
                        Some(x) => x,
                        None => {
                            return Err(IngestError::MissingChild);
                        },
                    };
                    let name = match extract_text(name_elem) {
                        Ok(t) => t,
                        Err(e) => {
                            return Err(e);
                        },
                    };
                    let desc_elem = match item.get_child("parameterdescription") {
                        Some(x) => x,
                        None => {
                            return Err(IngestError::MissingChild);
                        },
                    };
                    let desc = match extract_text(desc_elem) {
                        Ok(t) => t,
                        Err(e) => {
                            return Err(e);
                        },
                    };
                    entries.insert(name, desc);
                }
            },
            XmlNode::Text(_) => {},
        }
        i = i + 1;
    }
    proof {
        assert(elem.children@.skip(n as int).len() == 0);
    }
    Ok(entries)
}

/// The flattened text of the first paragraph of a simple section, if the
/// section has one.
pub open spec fn ssect_para(ss: XmlElement) -> Result<Option<Seq<char>>, IngestError> {
    match child_of(ss, "para"@) {
        None => Ok(None),
        Some(pp) => match text_extract(pp) {
            Err(e) => Err(e),
            Ok(t) => Ok(Some(t)),
        },
    }
}

/// Applies the parameter list nested in paragraph `p`, if any, to `acc`:
/// its kind selects the ordinary-parameter, exception or template-parameter
/// mapping; a kind whose mapping is already populated is a contract
/// violation of the upstream format; an unrecognized kind is ignored.
pub open spec fn plist_apply(p: XmlElement, acc: CommentView) -> Result<
    CommentView,
    IngestError,
> {
    match child_of(p, "parameterlist"@) {
        None => Ok(acc),
        Some(pl) => match attr_of(pl, "kind"@) {
            None => Err(IngestError::MissingAttribute),
            Some(k) => if k == "param"@ {
                if acc.parameters != Map::<Seq<char>, Seq<char>>::empty() {
                    Err(IngestError::DuplicateParameterList)
                } else {
                    match param_list_extract(pl) {
                        Err(e) => Err(e),
                        Ok(m) => Ok(CommentView { parameters: m, ..acc }),
                    }
                }
            } else if k == "exception"@ {
                if acc.exceptions != Map::<Seq<char>, Seq<char>>::empty() {
                    Err(IngestError::DuplicateParameterList)
                } else {
                    match param_list_extract(pl) {
                        Err(e) => Err(e),
                        Ok(m) => Ok(CommentView { exceptions: m, ..acc }),
                    }
                }
            } else if k == "templateparam"@ {
                if acc.template_parameters != Map::<Seq<char>, Seq<char>>::empty() {
                    Err(IngestError::DuplicateParameterList)
                } else {
                    match param_list_extract(pl) {
                        Err(e) => Err(e),
                        Ok(m) => Ok(CommentView { template_parameters: m, ..acc }),
                    }
                }
            } else {
                Ok(acc)
            },
        },
    }
}

/// Applies the simple section nested in paragraph `p`, if any, to `acc`:
/// "return" overwrites the return description, the other recognized kinds
/// append to their lists, unrecognized kinds are ignored.
pub open spec fn ssect_apply(p: XmlElement, acc: CommentView) -> Result<
    CommentView,
    IngestError,
> {
    match child_of(p, "simplesect"@) {
        None => Ok(acc),
        Some(ss) => match attr_of(ss, "kind"@) {
            None => Err(IngestError::MissingAttribute),
            Some(k) => if k == "return"@ {
                match ssect_para(ss) {
                    Err(e) => Err(e),
                    Ok(None) => Ok(acc),
                    Ok(Some(t)) => Ok(CommentView { returns: t, ..acc }),
                }
            } else if k == "note"@ || k == "remark"@ {
                match ssect_para(ss) {
                    Err(e) => Err(e),
                    Ok(None) => Ok(acc),
                    Ok(Some(t)) => Ok(CommentView { notes: acc.notes.push(t), ..acc }),
                }
            } else if k == "see"@ {
                match ssect_para(ss) {
                    Err(e) => Err(e),
                    Ok(None) => Ok(acc),
                    Ok(Some(t)) => Ok(CommentView { see_also: acc.see_also.push(t), ..acc }),
                }
            } else if k == "warning"@ {
                match ssect_para(ss) {
                    Err(e) => Err(e),
                    Ok(None) => Ok(acc),
                    Ok(Some(t)) => Ok(CommentView { warnings: acc.warnings.push(t), ..acc }),
                }
            } else if k == "pre"@ {
                match ssect_para(ss) {
                    Err(e) => Err(e),
                    Ok(None) => Ok(acc),
                    Ok(Some(t)) => Ok(
                        CommentView { pre_conditions: acc.pre_conditions.push(t), ..acc },
                    ),
                }
            } else if k == "post"@ {
                match ssect_para(ss) {
                    Err(e) => Err(e),
                    Ok(None) => Ok(acc),
                    Ok(Some(t)) => Ok(
                        CommentView { post_conditions: acc.post_conditions.push(t), ..acc },
                    ),
                }
            } else {
                Ok(acc)
            },
        },
    }
}

/// Applies one detailed-description paragraph to `acc`: its flattened text
/// becomes one details entry, then its nested parameter list and simple
/// section, if present, are classified.
pub open spec fn para_extract(p: XmlElement, acc: CommentView) -> Result<
    CommentView,
    IngestError,
> {
    match text_extract(p) {
        Err(e) => Err(e),
        Ok(t) => match plist_apply(p, CommentView { details: acc.details.push(t), ..acc }) {
            Err(e) => Err(e),
            Ok(c) => ssect_apply(p, c),
        },
    }
}

/// Folds the children of a detailed description over `acc`; only paragraph
/// children contribute.
pub open spec fn detailed_extract(nodes: Seq<XmlNode>, acc: CommentView) -> Result<
    CommentView,
    IngestError,
>
    decreases nodes,
{
    if nodes.len() == 0 {
        Ok(acc)
    } else {
        match nodes.first() {
            XmlNode::Elem(p) => if p.name@ == "para"@ {
                match para_extract(p, acc) {
                    Err(e) => Err(e),
                    Ok(c) => detailed_extract(nodes.drop_first(), c),
                }
            } else {
                detailed_extract(nodes.drop_first(), acc)
            },
            XmlNode::Text(_) => detailed_extract(nodes.drop_first(), acc),
        }
    }
}

/// The comment carried by a member- or compound-level element: the first
/// paragraph of the brief description, then every paragraph of the detailed
/// description with its classified sub-blocks.
pub open spec fn comment_extract(e: XmlElement) -> Result<CommentView, IngestError> {
    let brief_res = match child_of(e, "briefdescription"@) {
        None => Ok(comment_empty()),
        Some(b) => match child_of(b, "para"@) {
            None => Ok(comment_empty()),
            Some(p) => match text_extract(p) {
                Err(er) => Err(er),
                Ok(t) => Ok(
                    CommentView { brief: Seq::empty().push(t), ..comment_empty() },
                ),
            },
        },
    };
    match brief_res {
        Err(er) => Err(er),
        Ok(c1) => match child_of(e, "detaileddescription"@) {
            None => Ok(c1),
            Some(d) => detailed_extract(d.children@, c1),
        },
    }
}

/// Applies the parameter list nested in paragraph `p`, if any, to the
/// comment being built.
fn apply_plist(p: &XmlElement, c: &mut Comment) -> (r: Result<(), IngestError>)
    requires
        old(c).wf(),
    ensures
        match r {
            Ok(_) => final(c).wf() && plist_apply(*p, old(c)@) == Ok::<
                CommentView,
                IngestError,
            >(final(c)@),
            Err(e) => plist_apply(*p, old(c)@) == Err::<CommentView, IngestError>(e),
        },
{
    let pl = match p.get_child("parameterlist") {
        Some(pl) => pl,
        None => {
            return Ok(());
        },
    };
    let kind = match pl.attr("kind") {
        Some(k) => k,
        None => {
            return Err(IngestError::MissingAttribute);
        },
    };
    if str_eq(kind.as_str(), "param") {
        if c.parameters.len() > 0 {
            proof {
                lemma_nonempty_map(old(c)@.parameters);
            }
            return Err(IngestError::DuplicateParameterList);
        }
        proof {
            lemma_empty_map(old(c)@.parameters);
        }
        let m = match parse_parameter_list(pl) {
            Ok(m) => m,
            Err(e) => {
                return Err(e);
            },
        };
        c.parameters = m;
        proof {
            assert(c@ =~= (CommentView { parameters: c.parameters@, ..old(c)@ }));
        }
    } else if str_eq(kind.as_str(), "exception") {
        if c.exceptions.len() > 0 {
            proof {
                lemma_nonempty_map(old(c)@.exceptions);
            }
            return Err(IngestError::DuplicateParameterList);
        }
        proof {
            lemma_empty_map(old(c)@.exceptions);
        }
        let m = match parse_parameter_list(pl) {
            Ok(m) => m,
            Err(e) => {
                return Err(e);
            },
        };
        c.exceptions = m;
        proof {
            assert(c@ =~= (CommentView { exceptions: c.exceptions@, ..old(c)@ }));
        }
    } else if str_eq(kind.as_str(), "templateparam") {
        if c.template_parameters.len() > 0 {
            proof {
                lemma_nonempty_map(old(c)@.template_parameters);
            }
            return Err(IngestError::DuplicateParameterList);
        }
        proof {
            lemma_empty_map(old(c)@.template_parameters);
        }
        let m = match parse_parameter_list(pl) {
            Ok(m) => m,
            Err(e) => {
                return Err(e);
            },
        };
        c.template_parameters = m;
        proof {
            assert(c@ =~= (CommentView {
                template_parameters: c.template_parameters@,
                ..old(c)@
            }));
        }
    }
    Ok(())
}

/// Applies the simple section nested in paragraph `p`, if any, to the
/// comment being built.
fn apply_ssect(p: &XmlElement, c: &mut Comment) -> (r: Result<(), IngestError>)
    requires
        old(c).wf(),
    ensures
        match r {
            Ok(_) => final(c).wf() && ssect_apply(*p, old(c)@) == Ok::<
                CommentView,
                IngestError,
            >(final(c)@),
            Err(e) => ssect_apply(*p, old(c)@) == Err::<CommentView, IngestError>(e),
        },
{
    let ss = match p.get_child("simplesect") {
        Some(ss) => ss,
        None => {
            return Ok(());
        },
    };
    let kind = match ss.attr("kind") {
        Some(k) => k,
        None => {
            return Err(IngestError::MissingAttribute);
        },
    };
    if str_eq(kind.as_str(), "return") {
        if let Some(pp) = ss.get_child("para") {
            match extract_text(pp) {
                Ok(t) => {
                    c.returns = t;
                    proof {
                        assert(c@ =~= (CommentView { returns: c.returns@, ..old(c)@ }));
                    }
                },
                Err(e) => {
                    return Err(e);
                },
            }
        }
    } else if str_eq(kind.as_str(), "note") || str_eq(kind.as_str(), "remark") {
        if let Some(pp) = ss.get_child("para") {
            match extract_text(pp) {
                Ok(t) => {
                    c.notes.push(t);
                    proof {
                        assert(c@ =~= (CommentView {
                            notes: old(c)@.notes.push(c.notes@.last()@),
                            ..old(c)@
                        }));
                    }
                },
                Err(e) => {
                    return Err(e);
                },
            }
        }
    } else if str_eq(kind.as_str(), "see") {
        if let Some(pp) = ss.get_child("para") {
            match extract_text(pp) {
                Ok(t) => {
                    c.see_also.push(t);
                    proof {
                        assert(c@ =~= (CommentView {
                            see_also: old(c)@.see_also.push(c.see_also@.last()@),
                            ..old(c)@
                        }));
                    }
                },
                Err(e) => {
                    return Err(e);
                },
            }
        }
    } else if str_eq(kind.as_str(), "warning") {
        if let Some(pp) = ss.get_child("para") {
            match extract_text(pp) {
                Ok(t) => {
                    c.warnings.push(t);
                    proof {
                        assert(c@ =~= (CommentView {
                            warnings: old(c)@.warnings.push(c.warnings@.last()@),
                            ..old(c)@
                        }));
                    }
                },
                Err(e) => {
                    return Err(e);
                },
            }
        }
    } else if str_eq(kind.as_str(), "pre") {
        if let Some(pp) = ss.get_child("para") {
            match extract_text(pp) {
                Ok(t) => {
                    c.pre_conditions.push(t);
                    proof {
                        assert(c@ =~= (CommentView {
                            pre_conditions: old(c)@.pre_conditions.push(
                                c.pre_conditions@.last()@,
                            ),
                            ..old(c)@
                        }));
                    }
                },
                Err(e) => {
                    return Err(e);
                },
            }
        }
    } else if str_eq(kind.as_str(), "post") {
        if let Some(pp) = ss.get_child("para") {
            match extract_text(pp) {
                Ok(t) => {
                    c.post_conditions.push(t);
                    proof {
                        assert(c@ =~= (CommentView {
                            post_conditions: old(c)@.post_conditions.push(
                                c.post_conditions@.last()@,
                            ),
                            ..old(c)@
                        }));
                    }
                },
                Err(e) => {
                    return Err(e);
                },
            }
        }
    }
    Ok(())
}

/// Applies one paragraph of a detailed description to the comment being
/// built.
fn apply_para(p: &XmlElement, c: &mut Comment) -> (r: Result<(), IngestError>)
    requires
        old(c).wf(),
        p.name@ == "para"@,
    ensures
        match r {
            Ok(_) => final(c).wf() && para_extract(*p, old(c)@) == Ok::<
                CommentView,
                IngestError,
            >(final(c)@),
            Err(e) => para_extract(*p, old(c)@) == Err::<CommentView, IngestError>(e),
        },
{
    let t = match extract_text(p) {
        Ok(t) => t,
        Err(e) => {
            return Err(e);
        },
    };
    c.details.push(t);
    proof {
        assert(c@ =~= (CommentView { details: old(c)@.details.push(c.details@.last()@), ..old(
            c,
        )@ }));
    }
    match apply_plist(p, c) {
        Ok(_) => {},
        Err(e) => {
            return Err(e);
        },
    }
    match apply_ssect(p, c) {
        Ok(_) => {},
        Err(e) => {
            return Err(e);
        },
    }
    Ok(())
}

/// A finite map with no entries is the empty map.
proof fn lemma_empty_map(m: Map<Seq<char>, Seq<char>>)
    requires
        m.dom().finite(),
        m.dom().len() == 0,
    ensures
        m == Map::<Seq<char>, Seq<char>>::empty(),
{
    m.dom().lemma_len0_is_empty();
    assert(m =~= Map::<Seq<char>, Seq<char>>::empty());
}

/// A finite map with an entry is not the empty map.
proof fn lemma_nonempty_map(m: Map<Seq<char>, Seq<char>>)
    requires
        m.dom().finite(),
        m.dom().len() > 0,
    ensures
        m != Map::<Seq<char>, Seq<char>>::empty(),
{
    if m == Map::<Seq<char>, Seq<char>>::empty() {
        assert(m.dom() =~= Set::<Seq<char>>::empty());
    }
}

/// Reads the comment carried by a member- or compound-level element: the
/// brief description's first paragraph and every paragraph of the detailed
/// description, with nested parameter lists and simple sections classified.
pub fn extract_comment(elem: &XmlElement) -> (r: Result<Comment, IngestError>)
    ensures
        match r {
            Ok(c) => c.wf() && comment_extract(*elem) == Ok::<CommentView, IngestError>(c@),
            Err(e) => comment_extract(*elem) == Err::<CommentView, IngestError>(e),
        },
{
    let mut comment = Comment::new();
    if let Some(brief) = elem.get_child("briefdescription") {
        if let Some(para) = brief.get_child("para") {
            match extract_text(para) {
                Ok(t) => {
                    comment.brief.push(t);
                    proof {
                        assert(comment@ =~= (CommentView {
                            brief: Seq::empty().push(comment.brief@.last()@),
                            ..comment_empty()
                        }));
                    }
                },
                Err(e) => {
                    return Err(e);
                },
            }
        }
    }
    let ghost c1 = comment@;
    if let Some(detailed) = elem.get_child("detaileddescription") {
        let n = detailed.children.len();
        let mut i: usize = 0;
        proof {
            assert(detailed.children@.skip(0) =~= detailed.children@);
        }
        while i < n
            invariant
                0 <= i <= n,
                n == detailed.children@.len(),
                comment.wf(),
                comment_extract(*elem) == detailed_extract(detailed.children@, c1),
                detailed_extract(detailed.children@, c1) == detailed_extract(
                    detailed.children@.skip(i as int),
                    comment@,
                ),
            decreases n - i,
        {
            proof {
                assert(detailed.children@.skip(i as int).first() == detailed.children@[i as int]);
                assert(detailed.children@.skip(i as int).drop_first() =~= detailed.children@.skip(
                    i + 1,
                ));
            }
            match &detailed.children[i] {
                XmlNode::Elem(p) => {
                    if str_eq(p.name.as_str(), "para") {
                        match apply_para(p, &mut comment) {
                            Ok(_) => {},
                            Err(e) => {
                                return Err(e);
                            },
                        }
                    }
                },
                XmlNode::Text(_) => {},
            }
            i = i + 1;
        }
        proof {
            assert(detailed.children@.skip(n as int).len() == 0);
        }
    }
    Ok(comment)
}

} // verus!
