use crate::category::{Category, DiagnosticLevel, Token};
use crate::color::Color;
use vstd::prelude::*;

verus! {

/// A colour scheme: a total assignment of colours to the semantic roles.
///
/// Each query is a pure function of the role: its result is the value of the
/// matching spec function, so asking twice gives the same colour. The queries
/// take no precondition, so an implementation answers for every role.
pub trait Theme {
    spec fn category_of(&self, category: Category) -> Color;

    spec fn token_of(&self, token: Token) -> Color;

    spec fn level_of(&self, level: DiagnosticLevel) -> Color;

    fn category_color(&self, category: Category) -> (r: Color)
        ensures
            r == self.category_of(category),
    ;

    fn token_color(&self, token: Token) -> (r: Color)
        ensures
            r == self.token_of(token),
    ;

    fn diagnostic_level_color(&self, level: DiagnosticLevel) -> (r: Color)
        ensures
            r == self.level_of(level),
    ;
}

} // verus!
