//! A rendered statement: its text, and the values bound to its markers in
//! the order of the markers.

use vstd::prelude::*;
use vstd::string::StringExecFns;

verus! {

/// Where a bound value comes from.
#[derive(Clone, Copy, Debug, PartialEq, Eq, Structural)]
pub enum Origin {
    /// A member of the value the operation is called on.
    Receiver,
    /// A parameter of the operation.
    Parameter,
}

/// One bound value.
pub struct Argument {
    pub origin: Origin,
    pub name: String,
    /// The type the value is cast to before it is bound, if any.
    pub cast_to: Option<String>,
}

pub struct ArgumentView {
    pub origin: Origin,
    pub name: Seq<char>,
    pub cast_to: Option<Seq<char>>,
}

/// A statement and its bound values.
pub struct Statement {
    pub sql: String,
    pub args: Vec<Argument>,
}

pub struct StatementView {
    pub sql: Seq<char>,
    pub args: Seq<ArgumentView>,
}

impl DeepView for Argument {
    type V = ArgumentView;

    open spec fn deep_view(&self) -> ArgumentView {
        ArgumentView { origin: self.origin, name: self.name@, cast_to: self.cast_to.deep_view() }
    }
}

impl View for Argument {
    type V = ArgumentView;

    open spec fn view(&self) -> ArgumentView {
        self.deep_view()
    }
}

impl DeepView for Statement {
    type V = StatementView;

    open spec fn deep_view(&self) -> StatementView {
        StatementView { sql: self.sql@, args: self.args.deep_view() }
    }
}

impl View for Statement {
    type V = StatementView;

    open spec fn view(&self) -> StatementView {
        self.deep_view()
    }
}

/// The parameter `name`, bound as it is.
pub open spec fn parameter(name: Seq<char>) -> ArgumentView {
    ArgumentView { origin: Origin::Parameter, name, cast_to: None }
}

/// The member `name` of the receiver, bound as it is.
pub open spec fn member(name: Seq<char>) -> ArgumentView {
    ArgumentView { origin: Origin::Receiver, name, cast_to: None }
}

impl Argument {
    /// The parameter `name`, bound as it is.
    pub fn parameter(name: &str) -> (out: Argument)
        ensures
            out@ == parameter(name@),
    {
        Argument { origin: Origin::Parameter, name: String::from_str(name), cast_to: None }
    }

    /// The member `name` of the receiver, bound as it is.
    pub fn member(name: &str) -> (out: Argument)
        ensures
            out@ == member(name@),
    {
        Argument { origin: Origin::Receiver, name: String::from_str(name), cast_to: None }
    }
}

} // verus!
