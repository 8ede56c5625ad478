//! The open system as callers hold it, and the migration's entry point.

use vstd::prelude::*;
use qoqo_calculator::CalculatorComplex;
use struqture::mixed_systems::{
    HermitianMixedProduct, MixedDecoherenceProduct, MixedLindbladOpenSystem,
};
use crate::container::{
    countable, current_bosons, current_fermions, current_spins, declared_bosons,
    declared_fermions, declared_spins, is_current, noise_terms, open_system_new, system_terms,
    well_made, Species,
};
use crate::error::MigrationError;
use crate::foreign::ForeignOpenSystem;
use crate::migration::{faultless, first_fault, rebuild, rebuilt};
use crate::version::{check_format, readable, SerialisationMeta};

verus! {

/// A mixed Lindblad open system: a Hamiltonian part and a noise part over
/// spin, boson and fermion subsystems.
pub struct MixedLindbladOpenSystemWrapper {
    /// The container that holds both parts.
    pub internal: MixedLindbladOpenSystem,
}

impl MixedLindbladOpenSystemWrapper {
    /// The Hamiltonian entries.
    pub open spec fn system(self) -> Map<HermitianMixedProduct, CalculatorComplex> {
        system_terms(self.internal)
    }

    /// The noise entries, by (row, column).
    pub open spec fn noise(self) -> Map<
        (MixedDecoherenceProduct, MixedDecoherenceProduct),
        CalculatorComplex,
    > {
        noise_terms(self.internal)
    }

    /// An empty open system with the given counts per subsystem, `None` for
    /// a count that is left to the entries.
    pub fn new(
        number_spins: Vec<Option<usize>>,
        number_bosons: Vec<Option<usize>>,
        number_fermions: Vec<Option<usize>>,
    ) -> (w: Self)
        ensures
            well_made(w.internal),
            countable(w.internal),
            w.system().dom().is_empty(),
            w.noise().dom().is_empty(),
            declared_spins(w.internal) == number_spins@,
            declared_bosons(w.internal) == number_bosons@,
            declared_fermions(w.internal) == number_fermions@,
    {
        Self { internal: open_system_new(number_spins, number_bosons, number_fermions) }
    }

    /// The current number of spins per spin subsystem: what the keys of
    /// both parts reach, whatever was declared.
    pub fn current_number_spins(&self) -> (counts: Vec<usize>)
        requires
            countable(self.internal),
        ensures
            is_current(self.internal, Species::Spin, counts@),
    {
        current_spins(&self.internal)
    }

    /// The current number of modes per boson subsystem: what the keys of
    /// both parts reach, whatever was declared.
    pub fn current_number_bosonic_modes(&self) -> (counts: Vec<usize>)
        requires
            countable(self.internal),
        ensures
            is_current(self.internal, Species::Boson, counts@),
    {
        current_bosons(&self.internal)
    }

    /// The current number of modes per fermion subsystem: what the keys of
    /// both parts reach, whatever was declared.
    pub fn current_number_fermionic_modes(&self) -> (counts: Vec<usize>)
        requires
            countable(self.internal),
        ensures
            is_current(self.internal, Species::Fermion, counts@),
    {
        current_fermions(&self.internal)
    }

    /// Migrates a decoded foreign open system whose metadata is `source`,
    /// read by a reader that publishes `reader`.
    ///
    /// Where the reader cannot take the source's version the result is
    /// `IncompatibleVersion`, whatever the entries are. Otherwise the system
    /// is returned exactly where every entry is without fault, built as
    /// `rebuilt` describes; the error is else the first entry's fault.
    pub fn from_struqture_two(
        reader: &SerialisationMeta,
        source: &SerialisationMeta,
        foreign: &ForeignOpenSystem,
    ) -> (r: Result<MixedLindbladOpenSystemWrapper, MigrationError>)
        ensures
            r is Ok <==> readable(*reader, *source) && faultless(*foreign),
            match r {
                Ok(w) => rebuilt(*foreign, w.internal),
                Err(e) => if readable(*reader, *source) {
                    first_fault(*foreign, e)
                } else {
                    e == MigrationError::IncompatibleVersion
                },
            },
    {
        match check_format(reader, source) {
            Ok(()) => {},
            Err(e) => {
                return Err(e);
            },
        }
        match rebuild(foreign) {
            Ok(sys) => Ok(MixedLindbladOpenSystemWrapper { internal: sys }),
            Err(e) => Err(e),
        }
    }
}

} // verus!
