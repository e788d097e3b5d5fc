//! Paths into the view tree: the ordered branch choices taken at decision
//! nodes (nodes with more than one child) on the way from the root to a
//! target view. The entries live on the call stack, in a heapless list.

use vstd::prelude::*;

verus! {

#[verifier::external_type_specification]
#[verifier::external_body]
#[verifier::reject_recursive_types(T)]
pub struct ExNode<'a, T>(stack_list::Node<'a, T>);

/// The entries held by a stack list of branch choices, head first.
pub uninterp spec fn node_entries(n: stack_list::Node<'_, usize>) -> Seq<usize>;

/// Relies on stack_list::Node::new: the empty list.
#[verifier::external_body]
fn node_new() -> (r: stack_list::Node<'static, usize>)
    ensures
        node_entries(r) =~= Seq::<usize>::empty(),
{
    stack_list::Node::new()
}

/// Relies on stack_list::Node::prepend: the list holding `data` followed by
/// the entries of `n`.
#[verifier::external_body]
fn node_prepend<'a>(n: &'a stack_list::Node<'a, usize>, data: usize) -> (r: stack_list::Node<
    'a,
    usize,
>)
    ensures
        node_entries(r) =~= seq![data] + node_entries(*n),
{
    n.prepend(data)
}

/// Relies on stack_list::Node::iter: yields the entries head first.
#[verifier::external_body]
fn node_to_vec(n: &stack_list::Node<'_, usize>) -> (r: Vec<usize>)
    ensures
        r@ =~= node_entries(*n),
{
    n.iter().copied().collect()
}

/// A path to a single view in the tree: the branch index chosen at each
/// decision node, root side first. A path is positional and is invalidated
/// by tree shape changes.
pub struct ViewPath<'a> {
    /// The branch choices, root side first.
    pub path: stack_list::Node<'a, usize>,
}

impl<'a> ViewPath<'a> {
    /// The branch choices, root side first, as a spec-level value.
    pub open spec fn entries(self) -> Seq<usize> {
        node_entries(self.path)
    }

    /// An empty path, addressing whatever the decision-free descent from
    /// the root reaches.
    pub fn new() -> (r: Self)
        ensures
            r.entries() =~= Seq::<usize>::empty(),
    {
        ViewPath { path: node_new() }
    }

    /// The path extended with one more branch choice on the root side.
    pub fn add(&'a self, n: usize) -> (r: Self)
        ensures
            r.entries() =~= seq![n] + self.entries(),
    {
        ViewPath { path: node_prepend(&self.path, n) }
    }

    /// The branch choices as an owned vector, root side first; path
    /// lookup walks them front first.
    pub fn to_vec(&self) -> (r: Vec<usize>)
        ensures
            r@ =~= self.entries(),
    {
        node_to_vec(&self.path)
    }
}

impl<'a> Default for ViewPath<'a> {
    /// An empty path.
    fn default() -> (r: Self)
        ensures
            r.entries() =~= Seq::<usize>::empty(),
    {
        ViewPath::new()
    }
}

} // verus!
