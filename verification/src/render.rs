//! File-name derivation for the rendered documents: the renderer writes one
//! file per group and per class, named from the compound's display name.

use vstd::prelude::*;

use crate::text::{replace_all, replace_sub};

verus! {

/// What `str::to_lowercase` returns for the given characters: a function of
/// the characters alone.
pub uninterp spec fn lower_of(s: Seq<char>) -> Seq<char>;

/// Relies on `str::to_lowercase`: the Unicode lowercase mapping of the
/// text, named `lower_of`.
#[verifier::external_body]
fn to_lowercase(s: &str) -> (r: String)
    ensures
        r@ == lower_of(s@),
{
    s.to_lowercase()
}

/// The markdown file name of a group: its lowercased display name with
/// blanks replaced by underscores, between the "group_" prefix and the
/// ".md" suffix.
pub fn generate_group_filename(name: &str) -> (r: String)
    ensures
        r@ == "group_"@ + replace_all(lower_of(name@), " "@, "_"@) + ".md"@,
{
    let lower = to_lowercase(name);
    let mid = replace_sub(lower.as_str(), " ", "_");
    let mut out = "group_".to_owned();
    out.append(mid.as_str());
    out.append(".md");
    proof {
        assert(out@ =~= "group_"@ + replace_all(lower_of(name@), " "@, "_"@) + ".md"@);
    }
    out
}

/// The markdown file name of a class: its lowercased display name with
/// scope separators and angle brackets replaced by underscores and blanks
/// removed, between the "class_" prefix and the ".md" suffix.
pub fn get_class_filename(name: &str) -> (r: String)
    ensures
        r@ == "class_"@ + replace_all(
            replace_all(
                replace_all(replace_all(lower_of(name@), "::"@, "_"@), "<"@, "_"@),
                ">"@,
                "_"@,
            ),
            " "@,
            Seq::empty(),
        ) + ".md"@,
{
    let lower = to_lowercase(name);
    let s1 = replace_sub(lower.as_str(), "::", "_");
    let s2 = replace_sub(s1.as_str(), "<", "_");
    let s3 = replace_sub(s2.as_str(), ">", "_");
    let s4 = replace_sub(s3.as_str(), " ", "");
    let mut out = "class_".to_owned();
    out.append(s4.as_str());
    out.append(".md");
    proof {
        reveal_strlit("");
        assert(""@ =~= Seq::<char>::empty());
        assert(out@ =~= "class_"@ + replace_all(
            replace_all(
                replace_all(replace_all(lower_of(name@), "::"@, "_"@), "<"@, "_"@),
                ">"@,
                "_"@,
            ),
            " "@,
            Seq::empty(),
        ) + ".md"@);
    }
    out
}

} // verus!
