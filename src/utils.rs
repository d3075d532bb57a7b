//! Operations on whole modules built from the parsing stages.
use vstd::prelude::*;
use crate::parse::{Skeleton, SkeletonModel};

verus! {

/// Remove the custom sections of a skeleton; every other section stays.
pub fn strip<'a>(skeleton: &mut Skeleton<'a>)
    ensures
        final(skeleton).model() == (SkeletonModel { custom: seq![], ..old(skeleton).model() }),
{
    skeleton.custom = Vec::new();
    assert(skeleton.model().custom =~= seq![]);
}

} // verus!
