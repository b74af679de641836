//! Behavior-tree nodes as actors: leaves, decorators over one child and
//! composites over many. Children are named by identity only.

use vstd::prelude::*;
use crate::actor::ActorId;

verus! {

/// The message that makes a behavior node run once.
#[derive(Clone, Copy, Debug)]
pub struct BehaviorTick;

/// What a behavior node answers to a tick.
#[derive(Clone, Copy, Debug, PartialEq, Eq, Structural)]
pub enum BehaviorStatus {
    Running,
    Success,
    Failure,
}

/// Marks a type as the logic of a behavior node.
pub trait Behavior: Sized {

}

/// A leaf of the tree.
#[derive(Debug)]
pub struct ActionBehavior<B: Behavior> {
    node: B,
}

/// A node that wraps one child.
#[derive(Debug)]
pub struct DecoratorBehavior<B: Behavior> {
    node: B,
    child: ActorId,
}

/// A node that runs several children.
#[derive(Debug)]
pub struct CompositeBehavior<B: Behavior> {
    node: B,
    children: Vec<ActorId>,
}

impl<B: Behavior> ActionBehavior<B> {
    /// The node's logic.
    pub closed spec fn logic(&self) -> B {
        self.node
    }

    /// A leaf that runs `node`.
    pub fn new(node: B) -> (r: Self)
        ensures
            r.logic() == node,
    {
        ActionBehavior { node }
    }

    /// The node's logic.
    pub fn node(&self) -> (r: &B)
        ensures
            *r == self.logic(),
    {
        &self.node
    }
}

impl<B: Behavior> DecoratorBehavior<B> {
    /// The node's logic.
    pub closed spec fn logic(&self) -> B {
        self.node
    }

    /// The address of the wrapped child.
    pub closed spec fn child_address(&self) -> crate::actor::Address {
        self.child@
    }

    /// A decorator that runs `node` over `child`.
    pub fn new(node: B, child: ActorId) -> (r: Self)
        ensures
            r.logic() == node,
            r.child_address() == child@,
    {
        DecoratorBehavior { node, child }
    }

    /// The node's logic.
    pub fn node(&self) -> (r: &B)
        ensures
            *r == self.logic(),
    {
        &self.node
    }

    /// The wrapped child.
    pub fn child(&self) -> (r: &ActorId)
        ensures
            r@ == self.child_address(),
    {
        &self.child
    }
}

impl<B: Behavior> CompositeBehavior<B> {
    /// The node's logic.
    pub closed spec fn logic(&self) -> B {
        self.node
    }

    /// The children, in the order they are run.
    pub closed spec fn child_list(&self) -> Seq<ActorId> {
        self.children@
    }

    /// A composite that runs `node` over `children`.
    pub fn new(node: B, children: Vec<ActorId>) -> (r: Self)
        ensures
            r.logic() == node,
            r.child_list() == children@,
    {
        CompositeBehavior { node, children }
    }

    /// The node's logic.
    pub fn node(&self) -> (r: &B)
        ensures
            *r == self.logic(),
    {
        &self.node
    }

    /// The children, in the order they are run.
    pub fn children(&self) -> (r: &Vec<ActorId>)
        ensures
            r@ == self.child_list(),
    {
        &self.children
    }
}

} // verus!
