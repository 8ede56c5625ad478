//! What this crate relies on from `struqture` and `qoqo_calculator`.
//!
//! Nothing in this file is proved. The types are opaque, the spec functions
//! without a body give names to what the outside code holds or returns, and
//! each function states, over those names, what the outside source shows.

use vstd::prelude::*;
use vstd::string::StringSliceAdditionalSpecFns;
use std::str::FromStr;
use crate::key_text::indices_bounded;
use qoqo_calculator::CalculatorComplex;
use struqture::mixed_systems::{
    HermitianMixedProduct, MixedDecoherenceProduct, MixedLindbladOpenSystem,
    OperateOnMixedSystems,
};
use struqture::{OpenSystem, OperateOnDensityMatrix, StruqtureError};

verus! {

/// `qoqo_calculator::CalculatorComplex`, a coefficient; carried, never read.
#[verifier::external_type_specification]
#[verifier::external_body]
pub struct ExCalculatorComplex(qoqo_calculator::CalculatorComplex);

/// `num_complex::Complex`. No contract speaks of it: Verus reads the `Mul`
/// impls of the two key types, whose outputs hold it, and takes the key
/// types only once it is declared.
#[verifier::external_type_specification]
#[verifier::external_body]
#[verifier::reject_recursive_types(T)]
pub struct ExComplex<T>(num_complex::Complex<T>);

/// `struqture::StruqtureError`, the error of the outside operations. No
/// contract speaks of it: Verus reads the `Add`, `Sub` and `Mul` impls of
/// the declared types, whose outputs hold it.
#[verifier::external_type_specification]
#[verifier::external_body]
pub struct ExStruqtureError(struqture::StruqtureError);

/// `struqture::mixed_systems::MixedProduct`, a key without Hermitian
/// folding. No contract speaks of it: the `Mul` impl of the Hamiltonian key
/// gives it out.
#[verifier::external_type_specification]
#[verifier::external_body]
pub struct ExMixedProduct(struqture::mixed_systems::MixedProduct);

/// `struqture::mixed_systems::HermitianMixedProduct`, a Hamiltonian key.
#[verifier::external_type_specification]
#[verifier::external_body]
pub struct ExHermitianMixedProduct(struqture::mixed_systems::HermitianMixedProduct);

/// `struqture::mixed_systems::MixedDecoherenceProduct`, one half of a noise key.
#[verifier::external_type_specification]
#[verifier::external_body]
pub struct ExMixedDecoherenceProduct(struqture::mixed_systems::MixedDecoherenceProduct);

/// `struqture::mixed_systems::MixedLindbladOpenSystem`, the destination.
#[verifier::external_type_specification]
#[verifier::external_body]
pub struct ExMixedLindbladOpenSystem(struqture::mixed_systems::MixedLindbladOpenSystem);

/// The entries of the Hamiltonian part of an open system.
pub uninterp spec fn system_terms(s: MixedLindbladOpenSystem) -> Map<HermitianMixedProduct, CalculatorComplex>;

/// The entries of the noise part of an open system, by (row, column).
pub uninterp spec fn noise_terms(s: MixedLindbladOpenSystem) -> Map<(MixedDecoherenceProduct, MixedDecoherenceProduct), CalculatorComplex>;

/// The spin counts an open system was made with, one per subsystem.
pub uninterp spec fn declared_spins(s: MixedLindbladOpenSystem) -> Seq<Option<usize>>;

/// The boson mode counts an open system was made with.
pub uninterp spec fn declared_bosons(s: MixedLindbladOpenSystem) -> Seq<Option<usize>>;

/// The fermion mode counts an open system was made with.
pub uninterp spec fn declared_fermions(s: MixedLindbladOpenSystem) -> Seq<Option<usize>>;

/// The parts of an open system agree on how many subsystems of each species
/// there are: the Hamiltonian part and the noise part, each with the
/// operator it holds. So it is in every system that `new` made and `set`
/// changed.
pub uninterp spec fn well_made(s: MixedLindbladOpenSystem) -> bool;

/// The Hamiltonian key that a text denotes, `None` where the grammar refuses it.
pub uninterp spec fn hermitian_of_text(text: Seq<char>) -> Option<HermitianMixedProduct>;

/// The noise key half that a text denotes, `None` where the grammar refuses it.
pub uninterp spec fn decoherence_of_text(text: Seq<char>) -> Option<MixedDecoherenceProduct>;

/// What a Hamiltonian key reaches in each of its spin, boson and fermion
/// subsystems: the highest index it names plus one, zero where it names none.
pub uninterp spec fn hermitian_reach(key: HermitianMixedProduct) -> (Seq<nat>, Seq<nat>, Seq<nat>);

/// What a noise key half reaches in each of its spin, boson and fermion
/// subsystems: the highest index it names plus one, zero where it names none.
pub uninterp spec fn decoherence_reach(key: MixedDecoherenceProduct) -> (Seq<nat>, Seq<nat>, Seq<nat>);

/// Whether a coefficient equals the container's zero.
pub uninterp spec fn is_zero(value: CalculatorComplex) -> bool;

/// Whether the Hamiltonian part takes `value` at `key`: it refuses a value
/// that is not zero and has an imaginary part at a key that is its own
/// Hermitian conjugate.
pub uninterp spec fn hermitian_term_allowed(key: HermitianMixedProduct, value: CalculatorComplex) -> bool;

/// No subsystem has a declared bound.
pub open spec fn all_open(counts: Seq<Option<usize>>) -> bool {
    forall|i: int| 0 <= i < counts.len() ==> (#[trigger] counts[i]) is None
}

/// The subsystem numbers of a container, as a key's arity is given.
pub open spec fn container_arity(s: MixedLindbladOpenSystem) -> (int, int, int) {
    (declared_spins(s).len() as int, declared_bosons(s).len() as int, declared_fermions(s).len() as int)
}

/// How many subsystems of each species a reach spans.
pub open spec fn reach_arity(reach: (Seq<nat>, Seq<nat>, Seq<nat>)) -> (int, int, int) {
    (reach.0.len() as int, reach.1.len() as int, reach.2.len() as int)
}

/// How many spin, boson and fermion subsystems a Hamiltonian key spans.
pub open spec fn hermitian_arity(key: HermitianMixedProduct) -> (int, int, int) {
    reach_arity(hermitian_reach(key))
}

/// How many spin, boson and fermion subsystems a noise key half spans.
pub open spec fn decoherence_arity(key: MixedDecoherenceProduct) -> (int, int, int) {
    reach_arity(decoherence_reach(key))
}

/// The three species of subsystems.
#[derive(Clone, Copy, Debug, PartialEq, Eq, Structural)]
pub enum Species {
    Spin,
    Boson,
    Fermion,
}

/// The part of a reach that belongs to one species.
pub open spec fn pick(reach: (Seq<nat>, Seq<nat>, Seq<nat>), species: Species) -> Seq<nat> {
    match species {
        Species::Spin => reach.0,
        Species::Boson => reach.1,
        Species::Fermion => reach.2,
    }
}

/// The counts that a container was made with, for one species.
pub open spec fn declared(s: MixedLindbladOpenSystem, species: Species) -> Seq<Option<usize>> {
    match species {
        Species::Spin => declared_spins(s),
        Species::Boson => declared_bosons(s),
        Species::Fermion => declared_fermions(s),
    }
}

/// A reach has one entry per count and none above its count.
pub open spec fn within(reach: Seq<nat>, counts: Seq<usize>) -> bool {
    reach.len() == counts.len() && forall|slot: int|
        0 <= slot < counts.len() ==> (#[trigger] reach[slot]) <= counts[slot]
}

/// Every entry of a reach fits a `usize`.
pub open spec fn reach_within_usize(reach: (Seq<nat>, Seq<nat>, Seq<nat>)) -> bool {
    forall|species: Species, slot: int|
        0 <= slot < pick(reach, species).len() ==> (#[trigger] pick(reach, species)[slot])
            <= usize::MAX
}

/// A reach has the container's arity and every entry fits a `usize`.
pub open spec fn reach_fits(reach: (Seq<nat>, Seq<nat>, Seq<nat>), s: MixedLindbladOpenSystem) -> bool {
    reach_arity(reach) == container_arity(s) && reach_within_usize(reach)
}

/// A reach goes above a count that the container declares for its slot.
pub open spec fn above_bound(reach: (Seq<nat>, Seq<nat>, Seq<nat>), s: MixedLindbladOpenSystem) -> bool {
    exists|species: Species, slot: int|
        0 <= slot < pick(reach, species).len() && slot < declared(s, species).len() && declared(
            s,
            species,
        )[slot] is Some && (#[trigger] pick(reach, species)[slot]) > declared(s, species)[slot]->0
}

/// A well made container in which every key has the container's arity and
/// a reach within `usize`: of such the current counts can be asked.
pub open spec fn countable(s: MixedLindbladOpenSystem) -> bool {
    &&& well_made(s)
    &&& forall|key: HermitianMixedProduct| #[trigger]
        system_terms(s).dom().contains(key) ==> reach_fits(hermitian_reach(key), s)
    &&& forall|left: MixedDecoherenceProduct, right: MixedDecoherenceProduct| #[trigger]
        noise_terms(s).dom().contains((left, right)) ==> reach_fits(decoherence_reach(left), s)
            && reach_fits(decoherence_reach(right), s)
}

/// What a container does with a pair handed to `set`.
#[derive(Clone, Copy, Debug, PartialEq, Eq, Structural)]
pub enum SetOutcome {
    /// The pair was taken: the entry is replaced, or removed by a zero.
    Stored,
    /// The key has another number of subsystems than the container.
    WrongArity,
    /// The key reaches above a count that the container declares.
    AboveBound,
    /// The value is complex at a key that is its own Hermitian conjugate.
    NotHermitian,
}

/// What the Hamiltonian part does with `value` at `key`: it looks at the
/// arity first, then at the declared counts, then at the value.
pub open spec fn system_set_outcome(
    s: MixedLindbladOpenSystem,
    key: HermitianMixedProduct,
    value: CalculatorComplex,
) -> SetOutcome {
    if hermitian_arity(key) != container_arity(s) {
        SetOutcome::WrongArity
    } else if above_bound(hermitian_reach(key), s) {
        SetOutcome::AboveBound
    } else if !hermitian_term_allowed(key, value) {
        SetOutcome::NotHermitian
    } else {
        SetOutcome::Stored
    }
}

/// What the noise part does with a value at `(left, right)`: it looks at
/// the arities first, then at the declared counts.
pub open spec fn noise_set_outcome(
    s: MixedLindbladOpenSystem,
    left: MixedDecoherenceProduct,
    right: MixedDecoherenceProduct,
) -> SetOutcome {
    if decoherence_arity(left) != container_arity(s) || decoherence_arity(right)
        != container_arity(s) {
        SetOutcome::WrongArity
    } else if above_bound(decoherence_reach(left), s) || above_bound(decoherence_reach(right), s) {
        SetOutcome::AboveBound
    } else {
        SetOutcome::Stored
    }
}

/// Some key of the container reaches exactly `count` in subsystem `slot`.
pub open spec fn attained(s: MixedLindbladOpenSystem, species: Species, slot: int, count: usize) -> bool {
    (exists|key: HermitianMixedProduct| #[trigger]
        system_terms(s).dom().contains(key) && pick(hermitian_reach(key), species)[slot] == count)
        || (exists|left: MixedDecoherenceProduct, right: MixedDecoherenceProduct| #[trigger]
        noise_terms(s).dom().contains((left, right)) && (pick(decoherence_reach(left), species)[slot]
            == count || pick(decoherence_reach(right), species)[slot] == count))
}

/// `counts` are the current counts of one species: one per declared
/// subsystem, each the largest reach of any key of either part there, and
/// zero where no key reaches anything.
pub open spec fn is_current(s: MixedLindbladOpenSystem, species: Species, counts: Seq<usize>) -> bool {
    &&& counts.len() == declared(s, species).len()
    &&& forall|key: HermitianMixedProduct| #[trigger]
        system_terms(s).dom().contains(key) ==> within(pick(hermitian_reach(key), species), counts)
    &&& forall|left: MixedDecoherenceProduct, right: MixedDecoherenceProduct| #[trigger]
        noise_terms(s).dom().contains((left, right)) ==> within(
            pick(decoherence_reach(left), species),
            counts,
        ) && within(pick(decoherence_reach(right), species), counts)
    &&& forall|slot: int|
        0 <= slot < counts.len() ==> (#[trigger] counts[slot]) == 0 || attained(
            s,
            species,
            slot,
            counts[slot],
        )
}

/// `MixedLindbladOpenSystem::new`: both parts are made empty, with the three
/// count lists as given.
#[verifier::external_body]
pub(crate) fn open_system_new(
    number_spins: Vec<Option<usize>>,
    number_bosons: Vec<Option<usize>>,
    number_fermions: Vec<Option<usize>>,
) -> (s: MixedLindbladOpenSystem)
    ensures
        well_made(s),
        system_terms(s) == (Map::<HermitianMixedProduct, CalculatorComplex>::empty()),
        noise_terms(s) == (Map::<(MixedDecoherenceProduct, MixedDecoherenceProduct), CalculatorComplex>::empty()),
        declared_spins(s) == number_spins@,
        declared_bosons(s) == number_bosons@,
        declared_fermions(s) == number_fermions@,
{
    MixedLindbladOpenSystem::new(number_spins, number_bosons, number_fermions)
}

/// `HermitianMixedProduct::from_str`, its error dropped, asked only of a
/// text whose indices are bounded: the parser adds one to an index. The key
/// is a function of the text alone. Every index of the key is one that the
/// text writes, so each entry of its reach fits a `usize`.
#[verifier::external_body]
pub(crate) fn parse_hermitian(text: &str) -> (key: Option<HermitianMixedProduct>)
    requires
        indices_bounded(text.spec_bytes()),
    ensures
        key == hermitian_of_text(text@),
        key is Some ==> reach_within_usize(hermitian_reach(key->0)),
{
    HermitianMixedProduct::from_str(text).ok()
}

/// `MixedDecoherenceProduct::from_str`, its error dropped, asked only of a
/// text whose indices are bounded: the parser adds one to an index. The key
/// is a function of the text alone. Every index of the key is one that the
/// text writes, so each entry of its reach fits a `usize`.
#[verifier::external_body]
pub(crate) fn parse_decoherence(text: &str) -> (key: Option<MixedDecoherenceProduct>)
    requires
        indices_bounded(text.spec_bytes()),
    ensures
        key == decoherence_of_text(text@),
        key is Some ==> reach_within_usize(decoherence_reach(key->0)),
{
    MixedDecoherenceProduct::from_str(text).ok()
}

/// `Clone::clone` of `CalculatorComplex`: the copy is the same value.
#[verifier::external_body]
pub(crate) fn clone_value(value: &CalculatorComplex) -> (copy: CalculatorComplex)
    ensures
        copy == *value,
{
    value.clone()
}

/// `set` on `system_mut()`, asked of a well made container and a key whose
/// reach fits a `usize`. The result is what `system_set_outcome` says, read
/// off the error. A zero that is stored removes the entry, another value
/// that is stored replaces it, and a pair that is not stored changes
/// nothing; the noise part and the declared counts stay as they are.
#[verifier::external_body]
pub(crate) fn system_set(
    s: &mut MixedLindbladOpenSystem,
    key: HermitianMixedProduct,
    value: CalculatorComplex,
) -> (outcome: SetOutcome)
    requires
        well_made(*old(s)),
        reach_within_usize(hermitian_reach(key)),
    ensures
        well_made(*final(s)),
        outcome == system_set_outcome(*old(s), key, value),
        outcome == SetOutcome::Stored ==> hermitian_term_allowed(key, value),
        outcome == SetOutcome::NotHermitian ==> !hermitian_term_allowed(key, value),
        system_terms(*final(s)) == if outcome != SetOutcome::Stored {
            system_terms(*old(s))
        } else if is_zero(value) {
            system_terms(*old(s)).remove(key)
        } else {
            system_terms(*old(s)).insert(key, value)
        },
        noise_terms(*final(s)) == noise_terms(*old(s)),
        declared_spins(*final(s)) == declared_spins(*old(s)),
        declared_bosons(*final(s)) == declared_bosons(*old(s)),
        declared_fermions(*final(s)) == declared_fermions(*old(s)),
{
    match s.system_mut().set(key, value) {
        Ok(_) => SetOutcome::Stored,
        Err(StruqtureError::MissmatchedNumberSubsystems { .. }) => SetOutcome::WrongArity,
        Err(StruqtureError::NonHermitianOperator) => SetOutcome::NotHermitian,
        Err(_) => SetOutcome::AboveBound,
    }
}

/// `set` on `noise_mut()`, asked of a well made container and two halves
/// whose reach fits a `usize`. The result is what `noise_set_outcome` says,
/// read off the error. A zero that is stored removes the entry, another
/// value that is stored replaces it, and a pair that is not stored changes
/// nothing; the Hamiltonian part and the declared counts stay as they are.
#[verifier::external_body]
pub(crate) fn noise_set(
    s: &mut MixedLindbladOpenSystem,
    left: MixedDecoherenceProduct,
    right: MixedDecoherenceProduct,
    value: CalculatorComplex,
) -> (outcome: SetOutcome)
    requires
        well_made(*old(s)),
        reach_within_usize(decoherence_reach(left)),
        reach_within_usize(decoherence_reach(right)),
    ensures
        well_made(*final(s)),
        outcome == noise_set_outcome(*old(s), left, right),
        noise_terms(*final(s)) == if outcome != SetOutcome::Stored {
            noise_terms(*old(s))
        } else if is_zero(value) {
            noise_terms(*old(s)).remove((left, right))
        } else {
            noise_terms(*old(s)).insert((left, right), value)
        },
        system_terms(*final(s)) == system_terms(*old(s)),
        declared_spins(*final(s)) == declared_spins(*old(s)),
        declared_bosons(*final(s)) == declared_bosons(*old(s)),
        declared_fermions(*final(s)) == declared_fermions(*old(s)),
{
    match s.noise_mut().set((left, right), value) {
        Ok(_) => SetOutcome::Stored,
        Err(StruqtureError::MissmatchedNumberSubsystems { .. }) => SetOutcome::WrongArity,
        Err(_) => SetOutcome::AboveBound,
    }
}

/// `current_number_spins` of `MixedLindbladOpenSystem`, asked of a countable
/// one: per spin subsystem the largest reach of any key of either part.
#[verifier::external_body]
pub(crate) fn current_spins(s: &MixedLindbladOpenSystem) -> (counts: Vec<usize>)
    requires
        countable(*s),
    ensures
        is_current(*s, Species::Spin, counts@),
{
    s.current_number_spins()
}

/// `current_number_bosonic_modes` of `MixedLindbladOpenSystem`, asked of a
/// countable one: per boson subsystem the largest reach of any key of
/// either part.
#[verifier::external_body]
pub(crate) fn current_bosons(s: &MixedLindbladOpenSystem) -> (counts: Vec<usize>)
    requires
        countable(*s),
    ensures
        is_current(*s, Species::Boson, counts@),
{
    s.current_number_bosonic_modes()
}

/// `current_number_fermionic_modes` of `MixedLindbladOpenSystem`, asked of
/// a countable one: per fermion subsystem the largest reach of any key of
/// either part.
#[verifier::external_body]
pub(crate) fn current_fermions(s: &MixedLindbladOpenSystem) -> (counts: Vec<usize>)
    requires
        countable(*s),
    ensures
        is_current(*s, Species::Fermion, counts@),
{
    s.current_number_fermionic_modes()
}

} // verus!
