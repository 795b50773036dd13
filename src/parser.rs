//! The syntax tree of the language.

use vstd::prelude::*;

verus! {

/// The parser of the language.
pub struct QuantoParser;

/// A syntax tree whose nodes carry metadata of type `M`.
#[derive(Debug, PartialEq)]
pub struct Ast<M>(pub core::marker::PhantomData<M>);

/// A module of the language.
#[derive(Debug, Clone, PartialEq)]
pub struct Module {}

/// A node of the syntax tree: its data, boxed, and its metadata.
#[derive(Debug, Clone, PartialEq)]
pub struct Node<T, M> {
    data: Box<T>,
    meta: M,
}

impl<T, M> Node<T, M> {
    /// The data of the node.
    pub closed spec fn spec_data(&self) -> T {
        *self.data
    }

    /// The metadata of the node.
    pub closed spec fn spec_meta(&self) -> M {
        self.meta
    }

    /// A node holding `data` and `meta`.
    pub fn new(data: T, meta: M) -> (r: Self)
        ensures
            r.spec_data() == data,
            r.spec_meta() == meta,
    {
        Self { data: Box::new(data), meta }
    }

    /// A node is determined by its data and its metadata.
    pub proof fn lemma_ext(a: Self, b: Self)
        requires
            a.spec_data() == b.spec_data(),
            a.spec_meta() == b.spec_meta(),
        ensures
            a == b,
    {
    }

    /// The data of the node.
    pub fn data(&self) -> (r: &T)
        ensures
            *r == self.spec_data(),
    {
        &self.data
    }

    /// The metadata of the node.
    pub fn meta(&self) -> (r: &M)
        ensures
            *r == self.spec_meta(),
    {
        &self.meta
    }
}

} // verus!
