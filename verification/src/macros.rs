//! The boundary to the macro expander.
//!
//! The generator does not expand macros itself. It renders the name of a
//! macro call, hands the name and the argument expressions to an expander,
//! and splices what comes back into the generated text.

use vstd::prelude::*;
use crate::ast::{exprs_view, Expr, ExprView};

verus! {

/// The text that an optional string holds.
pub open spec fn text_of(out: Option<String>) -> Option<Seq<char>> {
    match out {
        Some(s) => Some(s@),
        None => None,
    }
}

/// A registry of macros, looked up by name. What an expander answers
/// depends on nothing but the name and the views of the arguments.
pub trait MacroExpander {
    /// What the macro `name` expands to on the arguments `args`: `None` where
    /// no macro of that name is registered, or where the macro gives up on
    /// these arguments.
    spec fn expansion(&self, name: Seq<char>, args: Seq<ExprView>) -> Option<Seq<char>>;

    /// Looks up the macro `name` and expands it on `args`.
    fn expand(&self, name: &str, args: &Vec<Expr>) -> (out: Option<String>)
        ensures
            text_of(out) == self.expansion(name@, exprs_view(args@)),
    ;
}

/// The empty registry: no name is that of a macro.
pub struct NoMacros;

impl MacroExpander for NoMacros {
    open spec fn expansion(&self, name: Seq<char>, args: Seq<ExprView>) -> Option<Seq<char>> {
        None
    }

    fn expand(&self, name: &str, args: &Vec<Expr>) -> (out: Option<String>) {
        None
    }
}

/// The text that `name` stands for among the first `n` definitions: that of
/// the latest definition of the name, or `None` where it has none.
pub open spec fn defined_text(
    definitions: Seq<(Seq<char>, Seq<char>)>,
    name: Seq<char>,
    n: int,
) -> Option<Seq<char>>
    decreases n,
{
    if 0 < n <= definitions.len() {
        if definitions[n - 1].0 == name {
            Some(definitions[n - 1].1)
        } else {
            defined_text(definitions, name, n - 1)
        }
    } else {
        None
    }
}

/// A registry of macros that take no account of their arguments: each name
/// stands for one fixed text.
pub struct MacroTable {
    definitions: Vec<(String, String)>,
}

impl View for MacroTable {
    type V = Seq<(Seq<char>, Seq<char>)>;

    /// The definitions, oldest first, each as a name and its text.
    closed spec fn view(&self) -> Seq<(Seq<char>, Seq<char>)> {
        Seq::new(
            self.definitions@.len(),
            |i: int| (self.definitions@[i].0@, self.definitions@[i].1@),
        )
    }
}

impl MacroTable {
    /// Creates a registry without definitions.
    pub fn new() -> (table: MacroTable)
        ensures
            table@ == Seq::<(Seq<char>, Seq<char>)>::empty(),
    {
        let table = MacroTable { definitions: Vec::new() };
        assert(table@ =~= Seq::<(Seq<char>, Seq<char>)>::empty());
        table
    }

    /// Lets the macro `name` stand for `text`. A later definition of a name
    /// replaces an earlier one.
    pub fn define(&mut self, name: String, text: String)
        ensures
            final(self)@ == old(self)@.push((name@, text@)),
    {
        self.definitions.push((name, text));
        assert(self@ =~= old(self)@.push((name@, text@)));
    }
}

impl MacroExpander for MacroTable {
    open spec fn expansion(&self, name: Seq<char>, args: Seq<ExprView>) -> Option<Seq<char>> {
        defined_text(self@, name, self@.len() as int)
    }

    fn expand(&self, name: &str, args: &Vec<Expr>) -> (out: Option<String>) {
        let wanted = String::from_str(name);
        let mut n: usize = self.definitions.len();
        while n > 0
            invariant
                n <= self.definitions@.len(),
                wanted@ == name@,
                defined_text(self@, name@, self@.len() as int) == defined_text(
                    self@,
                    name@,
                    n as int,
                ),
            decreases n,
        {
            if self.definitions[n - 1].0 == wanted {
                return Some(self.definitions[n - 1].1.clone());
            }
            n -= 1;
        }
        None
    }
}

} // verus!
