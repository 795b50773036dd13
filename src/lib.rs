//! Runtime components of the Quanto language: a value model, the binary
//! layout of call arguments and results, and the decisions around a call
//! into the simulation engine.

use vstd::prelude::*;

pub mod lexer;
pub mod parser;
pub mod rt;
pub mod value;

use crate::value::Value;

verus! {

/// The source text of a program that takes `N` arguments.
pub struct Program<'a, const N: usize> {
    src: &'a str,
}

impl<'a, const N: usize> View for Program<'a, N> {
    type V = Seq<char>;

    closed spec fn view(&self) -> Seq<char> {
        self.src@
    }
}

impl<'a, const N: usize> Program<'a, N> {
    /// Takes the (already validated) source text of a program.
    pub fn parse(src: &'a str) -> (r: Self)
        ensures
            r@ == src@,
    {
        Self { src }
    }

    /// Binds the program to its arguments.
    pub fn bind(self, args: &'a [(&'a str, Value); N]) -> (r: BoundProgram<'a, N>)
        ensures
            r.program()@ == self@,
            r.arguments() == args@,
    {
        BoundProgram { program: self, args }
    }

    /// The source text.
    pub fn src(&self) -> (r: &'a str)
        ensures
            r@ == self@,
    {
        self.src
    }
}

/// A program together with the arguments of one call.
pub struct BoundProgram<'a, const N: usize> {
    program: Program<'a, N>,
    args: &'a [(&'a str, Value); N],
}

impl<'a, const N: usize> BoundProgram<'a, N> {
    /// The program that was bound.
    pub closed spec fn program(&self) -> Program<'a, N> {
        self.program
    }

    /// The arguments, in order.
    pub closed spec fn arguments(&self) -> Seq<(&'a str, Value)> {
        self.args@
    }

    /// The source text of the program.
    pub fn src(&self) -> (r: &'a str)
        ensures
            r@ == self.program()@,
    {
        self.program.src()
    }

    /// The arguments, in order.
    pub fn args(&self) -> (r: &'a [(&'a str, Value)])
        ensures
            r@ == self.arguments(),
    {
        self.args.as_slice()
    }
}

} // verus!
