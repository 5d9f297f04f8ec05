//! Scopes of parameter calibration.
use vstd::prelude::*;

verus! {

/// How parameters are grouped during calibration.
#[derive(Debug, Clone, Copy, PartialEq, Eq, Structural)]
pub enum CalibrationScope {
    /// All parameters at once (default).
    Global,
    /// Parameters grouped by term.
    TermByTerm,
    /// Parameters in piecewise segments.
    Piecewise,
}

/// The name of a scope.
pub open spec fn scope_name(s: CalibrationScope) -> &'static str {
    match s {
        CalibrationScope::Global => "Global",
        CalibrationScope::TermByTerm => "Term-by-Term",
        CalibrationScope::Piecewise => "Piecewise",
    }
}

impl Default for CalibrationScope {
    fn default() -> (r: Self)
        ensures
            r == CalibrationScope::Global,
    {
        CalibrationScope::Global
    }
}

impl CalibrationScope {
    /// The name of the scope.
    pub fn name(&self) -> (r: &'static str)
        ensures
            r@ == scope_name(*self)@,
    {
        match self {
            CalibrationScope::Global => "Global",
            CalibrationScope::TermByTerm => "Term-by-Term",
            CalibrationScope::Piecewise => "Piecewise",
        }
    }

    /// True for global calibration.
    pub fn is_global(&self) -> (r: bool)
        ensures
            r == (*self is Global),
    {
        matches!(self, CalibrationScope::Global)
    }
}

} // verus!
