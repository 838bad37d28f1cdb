use vstd::prelude::*;

verus! {

/// Compile-time-checked access from an aggregate to the descriptor of leaf
/// `INDEX`. The catalog of modeled leaves is closed: requesting a leaf
/// without an impl fails to type-check rather than at run time.
pub trait Leaf<const INDEX: usize> {
    type Output;

    /// The descriptor this index selects.
    spec fn leaf_spec(&self) -> Self::Output;

    fn leaf(&self) -> (r: &Self::Output)
        ensures
            *r == self.leaf_spec(),
    ;
}

/// Compile-time-checked access from a leaf descriptor to the register set of
/// its sub-leaf `INDEX`; sub-leaves that are not modeled fail to type-check.
pub trait SubLeaf<const INDEX: usize> {
    type Output;

    /// The sub-leaf register set this index selects.
    spec fn sub_leaf_spec(&self) -> Self::Output;

    fn sub_leaf(&self) -> (r: &Self::Output)
        ensures
            *r == self.sub_leaf_spec(),
    ;
}

} // verus!
