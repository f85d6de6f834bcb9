use vstd::prelude::*;

verus! {

/// Whether `needle` occurs contiguously somewhere in `hay`.
pub open spec fn is_substring(needle: Seq<char>, hay: Seq<char>) -> bool {
    exists|i: int|
        0 <= i && i + needle.len() <= hay.len() && #[trigger] hay.subrange(i, i + needle.len())
            == needle
}

/// A sequence assembled around a middle part contains that part.
pub proof fn lemma_substring_between(
    prefix: Seq<char>,
    needle: Seq<char>,
    suffix: Seq<char>,
    hay: Seq<char>,
)
    requires
        hay == prefix + needle + suffix,
    ensures
        is_substring(needle, hay),
{
    let i = prefix.len() as int;
    assert(hay.subrange(i, i + needle.len()) =~= needle);
}

} // verus!
