//! The decoded foreign open system, as plain values.
//!
//! A foreign key is held as its text, the form in which it crosses from one
//! format version to the other; a coefficient is carried as it is.

use vstd::prelude::*;
use qoqo_calculator::CalculatorComplex;

verus! {

/// One entry of the foreign Hamiltonian part.
pub struct ForeignTerm {
    /// The foreign key, rendered to text.
    pub key: String,
    /// Its coefficient.
    pub value: CalculatorComplex,
}

/// One entry of the foreign noise part, keyed by an ordered pair.
pub struct ForeignNoiseTerm {
    /// The row key, rendered to text.
    pub left: String,
    /// The column key, rendered to text.
    pub right: String,
    /// Its coefficient.
    pub value: CalculatorComplex,
}

/// A foreign open system: how many subsystems of each species it spans, and
/// the entries of its two parts in the order in which it hands them out.
pub struct ForeignOpenSystem {
    /// Number of spin subsystems.
    pub spin_subsystems: usize,
    /// Number of boson subsystems.
    pub boson_subsystems: usize,
    /// Number of fermion subsystems.
    pub fermion_subsystems: usize,
    /// The Hamiltonian entries.
    pub hamiltonian: Vec<ForeignTerm>,
    /// The noise entries.
    pub noise: Vec<ForeignNoiseTerm>,
}

impl ForeignOpenSystem {
    /// The subsystem numbers, in the order spin, boson, fermion.
    pub open spec fn arity(self) -> (int, int, int) {
        (self.spin_subsystems as int, self.boson_subsystems as int, self.fermion_subsystems as int)
    }
}

} // verus!
