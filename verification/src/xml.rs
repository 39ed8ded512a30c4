//! The element tree the ingestion engine works on: named elements with
//! ordered attributes and ordered child nodes.  The surrounding application
//! converts whatever its XML library produced into this shape.

use vstd::prelude::*;

use crate::text::str_eq;

verus! {

/// One node of the tree: a text node or a child element.
pub enum XmlNode {
    Text(String),
    Elem(XmlElement),
}

/// An element: name, ordered attributes, ordered children.
pub struct XmlElement {
    pub name: String,
    pub attrs: Vec<(String, String)>,
    pub children: Vec<XmlNode>,
}

/// The attribute list of `e` at the level of character sequences.
pub open spec fn attrs_view(e: XmlElement) -> Seq<(Seq<char>, Seq<char>)> {
    e.attrs@.map_values(|p: (String, String)| (p.0@, p.1@))
}

/// The value paired with the first occurrence of key `k`.
pub open spec fn assoc_first(pairs: Seq<(Seq<char>, Seq<char>)>, k: Seq<char>) -> Option<
    Seq<char>,
>
    decreases pairs.len(),
{
    if pairs.len() == 0 {
        None
    } else if pairs.first().0 == k {
        Some(pairs.first().1)
    } else {
        assoc_first(pairs.drop_first(), k)
    }
}

/// The value of attribute `k` on `e`, if present.
pub open spec fn attr_of(e: XmlElement, k: Seq<char>) -> Option<Seq<char>> {
    assoc_first(attrs_view(e), k)
}

/// The first child element of `children` named `name`, if any.
pub open spec fn first_child_elem(children: Seq<XmlNode>, name: Seq<char>) -> Option<XmlElement>
    decreases children.len(),
{
    if children.len() == 0 {
        None
    } else {
        match children.first() {
            XmlNode::Elem(e) => if e.name@ == name {
                Some(e)
            } else {
                first_child_elem(children.drop_first(), name)
            },
            XmlNode::Text(_) => first_child_elem(children.drop_first(), name),
        }
    }
}

/// The first child element of `e` named `name`, if any.
pub open spec fn child_of(e: XmlElement, name: Seq<char>) -> Option<XmlElement> {
    first_child_elem(e.children@, name)
}

/// The concatenation of the direct text children of `children`.
pub open spec fn direct_texts(children: Seq<XmlNode>) -> Seq<char>
    decreases children.len(),
{
    if children.len() == 0 {
        Seq::empty()
    } else {
        direct_texts(children.drop_last()) + (match children.last() {
            XmlNode::Text(t) => t@,
            XmlNode::Elem(_) => Seq::empty(),
        })
    }
}

/// The text content of `e`: its direct text children concatenated.
pub open spec fn text_of(e: XmlElement) -> Seq<char> {
    direct_texts(e.children@)
}

impl XmlElement {
    /// An element with no attributes and no children.
    pub fn new(name: String) -> (r: XmlElement)
        ensures
            r.name@ == name@,
            attrs_view(r) == Seq::<(Seq<char>, Seq<char>)>::empty(),
            r.children@ == Seq::<XmlNode>::empty(),
    {
        let r = XmlElement { name, attrs: Vec::new(), children: Vec::new() };
        proof {
            assert(attrs_view(r) =~= Seq::<(Seq<char>, Seq<char>)>::empty());
        }
        r
    }

    /// Appends an attribute.
    pub fn push_attr(&mut self, key: String, value: String)
        ensures
            final(self).name == old(self).name,
            final(self).children == old(self).children,
            attrs_view(*final(self)) == attrs_view(*old(self)).push((key@, value@)),
    {
        self.attrs.push((key, value));
        proof {
            assert(attrs_view(*self) =~= attrs_view(*old(self)).push((key@, value@)));
        }
    }

    /// Appends a child node.
    pub fn push_child(&mut self, child: XmlNode)
        ensures
            final(self).name == old(self).name,
            final(self).attrs == old(self).attrs,
            final(self).children@ == old(self).children@.push(child),
    {
        self.children.push(child);
    }

    /// The value of the attribute `name`, if present; the first occurrence
    /// wins.
    pub fn attr(&self, name: &str) -> (r: Option<&String>)
        ensures
            match r {
                Some(v) => attr_of(*self, name@) == Some(v@),
                None => attr_of(*self, name@) is None,
            },
    {
        let n = self.attrs.len();
        let mut i: usize = 0;
        proof {
            assert(attrs_view(*self).skip(0) =~= attrs_view(*self));
        }
        while i < n
            invariant
                0 <= i <= n,
                n == self.attrs@.len(),
                assoc_first(attrs_view(*self), name@) == assoc_first(
                    attrs_view(*self).skip(i as int),
                    name@,
                ),
            decreases n - i,
        {
            proof {
                assert(attrs_view(*self).skip(i as int).first() == (
                    self.attrs@[i as int].0@,
                    self.attrs@[i as int].1@,
                ));
            }
            if str_eq(self.attrs[i].0.as_str(), name) {
                return Some(&self.attrs[i].1);
            }
            proof {
                assert(attrs_view(*self).skip(i as int).drop_first() =~= attrs_view(*self).skip(
                    i + 1,
                ));
            }
            i = i + 1;
        }
        proof {
            assert(attrs_view(*self).skip(n as int).len() == 0);
        }
        None
    }

    /// The first child element named `name`, if any.
    pub fn get_child(&self, name: &str) -> (r: Option<&XmlElement>)
        ensures
            match r {
                Some(e) => child_of(*self, name@) == Some(*e) && e.name@ == name@,
                None => child_of(*self, name@) is None,
            },
    {
        let n = self.children.len();
        let mut i: usize = 0;
        proof {
            assert(self.children@.skip(0) =~= self.children@);
        }
        while i < n
            invariant
                0 <= i <= n,
                n == self.children@.len(),
                child_of(*self, name@) == first_child_elem(
                    self.children@.skip(i as int),
                    name@,
                ),
            decreases n - i,
        {
            proof {
                assert(self.children@.skip(i as int).first() == self.children@[i as int]);
                assert(self.children@.skip(i as int).drop_first() =~= self.children@.skip(i + 1));
            }
            match &self.children[i] {
                XmlNode::Elem(e) => {
                    if str_eq(e.name.as_str(), name) {
                        return Some(e);
                    }
                },
                XmlNode::Text(_) => {},
            }
            i = i + 1;
        }
        None
    }

    /// The concatenation of the direct text children, as the generic XML
    /// library's text accessor returns it.
    pub fn text_content(&self) -> (r: String)
        ensures
            r@ == text_of(*self),
    {
        let n = self.children.len();
        let mut out = String::new();
        let mut i: usize = 0;
        while i < n
            invariant
                0 <= i <= n,
                n == self.children@.len(),
                out@ == direct_texts(self.children@.take(i as int)),
            decreases n - i,
        {
            match &self.children[i] {
                XmlNode::Text(t) => {
                    out.append(t.as_str());
                },
                XmlNode::Elem(_) => {},
            }
            i = i + 1;
            proof {
                assert(self.children@.take(i as int).drop_last() =~= self.children@.take(
                    i - 1,
                ));
                assert(self.children@.take(i as int).last() == self.children@[i - 1]);
            }
        }
        proof {
            assert(self.children@.take(n as int) =~= self.children@);
        }
        out
    }
}

} // verus!
