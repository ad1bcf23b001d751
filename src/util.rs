//! Small helpers for inspecting values while debugging a pass.

use vstd::prelude::*;
use crate::ir::{BasicBlockData, Body, LocalDecl, Operand, Place, Rvalue, Statement, Terminator};

verus! {

/// A type with a printable name.
pub trait TypeLabel {
    spec fn spec_label() -> Seq<char>;

    fn label() -> (r: &'static str)
        ensures
            r@ == Self::spec_label(),
    ;
}

impl TypeLabel for Body {
    open spec fn spec_label() -> Seq<char> {
        "Body"@
    }

    fn label() -> (r: &'static str) {
        "Body"
    }
}

impl TypeLabel for BasicBlockData {
    open spec fn spec_label() -> Seq<char> {
        "BasicBlockData"@
    }

    fn label() -> (r: &'static str) {
        "BasicBlockData"
    }
}

impl TypeLabel for Statement {
    open spec fn spec_label() -> Seq<char> {
        "Statement"@
    }

    fn label() -> (r: &'static str) {
        "Statement"
    }
}

impl TypeLabel for Terminator {
    open spec fn spec_label() -> Seq<char> {
        "Terminator"@
    }

    fn label() -> (r: &'static str) {
        "Terminator"
    }
}

impl TypeLabel for Place {
    open spec fn spec_label() -> Seq<char> {
        "Place"@
    }

    fn label() -> (r: &'static str) {
        "Place"
    }
}

impl TypeLabel for Operand {
    open spec fn spec_label() -> Seq<char> {
        "Operand"@
    }

    fn label() -> (r: &'static str) {
        "Operand"
    }
}

impl TypeLabel for Rvalue {
    open spec fn spec_label() -> Seq<char> {
        "Rvalue"@
    }

    fn label() -> (r: &'static str) {
        "Rvalue"
    }
}

impl TypeLabel for LocalDecl {
    open spec fn spec_label() -> Seq<char> {
        "LocalDecl"@
    }

    fn label() -> (r: &'static str) {
        "LocalDecl"
    }
}

/// The name of the type of the value given.
pub fn type_of<T: TypeLabel>(_value: &T) -> (r: String)
    ensures
        r@ == T::spec_label(),
{
    T::label().to_owned()
}

} // verus!
