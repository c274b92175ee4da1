use vstd::prelude::*;
use vstd::string::*;

verus! {

/// The text of the tag that marks the active node.
pub open spec fn active_tag() -> Seq<char> {
    "active"@
}

/// The text of the tag that marks the standby node.
pub open spec fn standby_tag() -> Seq<char> {
    "standby"@
}

/// The tags that a probe output stands for: the active tag when it equals
/// `result_true`, else the standby tag when it equals `result_false`, else none.
/// Comparison is exact, with no trimming and no case folding.
pub open spec fn role_tags(output: Seq<char>, result_true: Seq<char>, result_false: Seq<char>) -> Seq<Seq<char>> {
    if output == result_true {
        seq![active_tag()]
    } else if output == result_false {
        seq![standby_tag()]
    } else {
        Seq::empty()
    }
}

/// The text of each string of a sequence.
pub open spec fn texts(v: Seq<String>) -> Seq<Seq<char>> {
    v.map_values(|s: String| s@)
}

/// Maps the output of the health probe to the role tags it stands for: at
/// most one tag, `active` or `standby`, and none when the output matches
/// neither expected string.
pub fn classify(output: &String, result_true: &String, result_false: &String) -> (tags: Vec<String>)
    ensures
        texts(tags@) == role_tags(output@, result_true@, result_false@),
        tags@.len() <= 1,
{
    let mut tags: Vec<String> = Vec::new();
    if output.eq(result_true) {
        tags.push(String::from_str("active"));
        assert(texts(tags@) =~= seq![active_tag()]);
    } else if output.eq(result_false) {
        tags.push(String::from_str("standby"));
        assert(texts(tags@) =~= seq![standby_tag()]);
    } else {
        assert(texts(tags@) =~= Seq::empty());
    }
    tags
}

} // verus!
