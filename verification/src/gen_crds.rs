//! The files that hold the definitions of the custom resources.

use crate::text;
use vstd::prelude::*;
use vstd::string::*;

verus! {

/// The name of the file for the custom resource `plural` of `group`.
pub fn crd_file_name(group: &str, plural: &str) -> (r: String)
    ensures
        r@ == group@ + "_"@ + plural@ + ".yaml"@,
{
    let mut name = group.to_owned();
    name.append("_");
    name.append(plural);
    name.append(".yaml");
    name
}

/// The name of a file begins with the group and ends as a YAML file does. Two resources of
/// one group have files of their own.
pub proof fn lemma_files(group: &str, plural: &str, other: &str, r: String, s: String)
    requires
        call_ensures(crd_file_name, (group, plural), r),
        call_ensures(crd_file_name, (group, other), s),
    ensures
        text::begins_with(r@, group@ + "_"@),
        text::ends_with(r@, plural@ + ".yaml"@),
        r@ == s@ ==> plural@ == other@,
{
    let (start, end) = (group@ + "_"@, ".yaml"@);
    assert(r@.take(start.len() as int) =~= start);
    assert(r@ =~= start + (plural@ + end));
    assert(r@.skip(r@.len() - (plural@ + end).len()) =~= plural@ + end);
    if r@ == s@ {
        assert(r@.len() == start.len() + plural@.len() + end.len());
        assert(s@.len() == start.len() + other@.len() + end.len());
        assert forall|i: int| 0 <= i < plural@.len() implies plural@[i] == other@[i] by {
            assert(r@[start.len() + i] == plural@[i]);
            assert(s@[start.len() + i] == other@[i]);
        }
        assert(plural@ =~= other@);
    }
}

} // verus!
