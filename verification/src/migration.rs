//! Reparsing and rebuilding: every foreign key is read again in the current
//! grammar and set into a fresh container, all or nothing.

use vstd::prelude::*;
use qoqo_calculator::CalculatorComplex;
use struqture::mixed_systems::{
    HermitianMixedProduct, MixedDecoherenceProduct, MixedLindbladOpenSystem,
};
use vstd::utf8::encode_utf8;
use crate::container::{
    above_bound, all_open, clone_value, container_arity, countable, declared_bosons,
    declared_fermions, declared_spins, decoherence_arity, decoherence_of_text, decoherence_reach,
    hermitian_arity, hermitian_of_text, hermitian_reach, hermitian_term_allowed, is_zero,
    noise_set, noise_terms, open_system_new, parse_decoherence, parse_hermitian,
    reach_within_usize, system_set, system_terms, well_made, SetOutcome,
};
use crate::error::MigrationError;
use crate::foreign::{ForeignNoiseTerm, ForeignOpenSystem, ForeignTerm};
use crate::key_text::{indices_are_bounded, indices_bounded};

verus! {

/// `n` subsystems, none with a declared bound.
pub open spec fn open_counts_spec(n: usize) -> Seq<Option<usize>> {
    Seq::new(n as nat, |i: int| None::<usize>)
}

/// A count list of `n` open slots.
pub fn open_counts(n: usize) -> (counts: Vec<Option<usize>>)
    ensures
        counts@ == open_counts_spec(n),
        all_open(counts@),
{
    let mut counts: Vec<Option<usize>> = Vec::new();
    let mut i: usize = 0;
    while i < n
        invariant
            i <= n,
            counts@.len() == i,
            forall|j: int| 0 <= j < i ==> (#[trigger] counts@[j]) is None,
        decreases n - i,
    {
        counts.push(None);
        i += 1;
    }
    assert(counts@ =~= open_counts_spec(n));
    counts
}

/// What setting `value` at `key` makes of the Hamiltonian entries: a zero
/// removes the entry, another value replaces it.
pub open spec fn system_after_set(
    m: Map<HermitianMixedProduct, CalculatorComplex>,
    key: HermitianMixedProduct,
    value: CalculatorComplex,
) -> Map<HermitianMixedProduct, CalculatorComplex> {
    if is_zero(value) {
        m.remove(key)
    } else {
        m.insert(key, value)
    }
}

/// What setting `value` at `(left, right)` makes of the noise entries: a
/// zero removes the entry, another value replaces it.
pub open spec fn noise_after_set(
    m: Map<(MixedDecoherenceProduct, MixedDecoherenceProduct), CalculatorComplex>,
    left: MixedDecoherenceProduct,
    right: MixedDecoherenceProduct,
    value: CalculatorComplex,
) -> Map<(MixedDecoherenceProduct, MixedDecoherenceProduct), CalculatorComplex> {
    if is_zero(value) {
        m.remove((left, right))
    } else {
        m.insert((left, right), value)
    }
}

/// Why a reparsed Hamiltonian key cannot go with `value` into a container
/// of `arity`, `None` where it can. A key that did not parse is a conversion
/// error, another arity a dimension mismatch; a value that the Hamiltonian
/// part refuses at the key makes the pair no entry of the current format,
/// which is a conversion error too.
pub open spec fn hermitian_fault(
    parsed: Option<HermitianMixedProduct>,
    value: CalculatorComplex,
    arity: (int, int, int),
) -> Option<MigrationError> {
    match parsed {
        None => Some(MigrationError::KeyConversionError),
        Some(key) => if hermitian_arity(key) != arity {
            Some(MigrationError::DimensionMismatch)
        } else if !hermitian_term_allowed(key, value) {
            Some(MigrationError::KeyConversionError)
        } else {
            None
        },
    }
}

/// Why a reparsed noise key pair cannot go into a container of `arity`,
/// `None` where it can. A half that does not parse counts before an arity.
pub open spec fn decoherence_fault(
    left: Option<MixedDecoherenceProduct>,
    right: Option<MixedDecoherenceProduct>,
    arity: (int, int, int),
) -> Option<MigrationError> {
    if left is None || right is None {
        Some(MigrationError::KeyConversionError)
    } else if decoherence_arity(left->0) != arity || decoherence_arity(right->0) != arity {
        Some(MigrationError::DimensionMismatch)
    } else {
        None
    }
}

/// The Hamiltonian key that a text stands for: none where the text writes
/// an index that is not below `usize::MAX`, else what the grammar makes of
/// it.
pub open spec fn hamiltonian_key_of(text: Seq<char>) -> Option<HermitianMixedProduct> {
    if indices_bounded(encode_utf8(text)) {
        hermitian_of_text(text)
    } else {
        None
    }
}

/// The noise key half that a text stands for: none where the text writes an
/// index that is not below `usize::MAX`, else what the grammar makes of it.
pub open spec fn noise_key_of(text: Seq<char>) -> Option<MixedDecoherenceProduct> {
    if indices_bounded(encode_utf8(text)) {
        decoherence_of_text(text)
    } else {
        None
    }
}

/// The fault of the `i`-th foreign Hamiltonian entry.
pub open spec fn hamiltonian_fault_at(f: ForeignOpenSystem, i: int) -> Option<MigrationError> {
    hermitian_fault(hamiltonian_key_of(f.hamiltonian@[i].key@), f.hamiltonian@[i].value, f.arity())
}

/// The fault of the `i`-th foreign noise entry.
pub open spec fn noise_fault_at(f: ForeignOpenSystem, i: int) -> Option<MigrationError> {
    decoherence_fault(noise_key_of(f.noise@[i].left@), noise_key_of(f.noise@[i].right@), f.arity())
}

/// The first `n` foreign Hamiltonian entries are without fault.
pub open spec fn hamiltonian_sound_up_to(f: ForeignOpenSystem, n: int) -> bool {
    forall|i: int| 0 <= i < n ==> (#[trigger] hamiltonian_fault_at(f, i)) is None
}

/// The first `n` foreign noise entries are without fault.
pub open spec fn noise_sound_up_to(f: ForeignOpenSystem, n: int) -> bool {
    forall|i: int| 0 <= i < n ==> (#[trigger] noise_fault_at(f, i)) is None
}

/// Every foreign entry can be taken over.
pub open spec fn faultless(f: ForeignOpenSystem) -> bool {
    hamiltonian_sound_up_to(f, f.hamiltonian@.len() as int) && noise_sound_up_to(
        f,
        f.noise@.len() as int,
    )
}

/// `e` is the fault of the first foreign entry that has one, the Hamiltonian
/// entries taken before the noise entries.
pub open spec fn first_fault(f: ForeignOpenSystem, e: MigrationError) -> bool {
    (exists|i: int|
        0 <= i < f.hamiltonian@.len() && hamiltonian_sound_up_to(f, i) && #[trigger] hamiltonian_fault_at(f, i)
            == Some(e)) || (hamiltonian_sound_up_to(f, f.hamiltonian@.len() as int) && exists|i: int|
        0 <= i < f.noise@.len() && noise_sound_up_to(f, i) && #[trigger] noise_fault_at(f, i) == Some(e))
}

/// The Hamiltonian entries after the first `n` foreign entries were set in
/// order; an entry whose key does not parse sets nothing.
pub open spec fn hamiltonian_after(terms: Seq<ForeignTerm>, n: nat) -> Map<
    HermitianMixedProduct,
    CalculatorComplex,
>
    decreases n,
{
    if n == 0 {
        Map::empty()
    } else {
        let before = hamiltonian_after(terms, (n - 1) as nat);
        match hamiltonian_key_of(terms[n - 1].key@) {
            Some(key) => system_after_set(before, key, terms[n - 1].value),
            None => before,
        }
    }
}

/// The noise entries after the first `n` foreign entries were set in order;
/// an entry with a half that does not parse sets nothing.
pub open spec fn noise_after(terms: Seq<ForeignNoiseTerm>, n: nat) -> Map<
    (MixedDecoherenceProduct, MixedDecoherenceProduct),
    CalculatorComplex,
>
    decreases n,
{
    if n == 0 {
        Map::empty()
    } else {
        let before = noise_after(terms, (n - 1) as nat);
        match (noise_key_of(terms[n - 1].left@), noise_key_of(terms[n - 1].right@)) {
            (Some(left), Some(right)) => noise_after_set(before, left, right, terms[n - 1].value),
            _ => before,
        }
    }
}

/// `sys` is what a migration of `f` builds: open counts of the foreign
/// widths, and each part holding what setting the foreign entries in order
/// leaves, the last write at a key winning. Its current counts can be
/// asked.
pub open spec fn rebuilt(f: ForeignOpenSystem, sys: MixedLindbladOpenSystem) -> bool {
    &&& countable(sys)
    &&& declared_spins(sys) == open_counts_spec(f.spin_subsystems)
    &&& declared_bosons(sys) == open_counts_spec(f.boson_subsystems)
    &&& declared_fermions(sys) == open_counts_spec(f.fermion_subsystems)
    &&& system_terms(sys) == hamiltonian_after(f.hamiltonian@, f.hamiltonian@.len())
    &&& noise_terms(sys) == noise_after(f.noise@, f.noise@.len())
}

/// Nothing but the Hamiltonian entries of a container may have changed.
pub open spec fn same_but_system(before: MixedLindbladOpenSystem, after: MixedLindbladOpenSystem) -> bool {
    &&& noise_terms(after) == noise_terms(before)
    &&& declared_spins(after) == declared_spins(before)
    &&& declared_bosons(after) == declared_bosons(before)
    &&& declared_fermions(after) == declared_fermions(before)
}

/// Nothing but the noise entries of a container may have changed.
pub open spec fn same_but_noise(before: MixedLindbladOpenSystem, after: MixedLindbladOpenSystem) -> bool {
    &&& system_terms(after) == system_terms(before)
    &&& declared_spins(after) == declared_spins(before)
    &&& declared_bosons(after) == declared_bosons(before)
    &&& declared_fermions(after) == declared_fermions(before)
}

/// Why a reparsed Hamiltonian key cannot go with `value` into the container
/// `s`, `None` where it can: a key that did not parse, one whose arity is
/// not the container's or whose reach is above a declared count, or a value
/// that the Hamiltonian part refuses at the key.
pub open spec fn hermitian_placement_fault(
    s: MixedLindbladOpenSystem,
    parsed: Option<HermitianMixedProduct>,
    value: CalculatorComplex,
) -> Option<MigrationError> {
    match parsed {
        None => Some(MigrationError::KeyConversionError),
        Some(key) => if hermitian_arity(key) != container_arity(s) || above_bound(
            hermitian_reach(key),
            s,
        ) {
            Some(MigrationError::DimensionMismatch)
        } else if !hermitian_term_allowed(key, value) {
            Some(MigrationError::KeyConversionError)
        } else {
            None
        },
    }
}

/// Why a reparsed noise key pair cannot go into the container `s`, `None`
/// where it can: a half that did not parse, or one whose arity is not the
/// container's or whose reach is above a declared count.
pub open spec fn decoherence_placement_fault(
    s: MixedLindbladOpenSystem,
    left: Option<MixedDecoherenceProduct>,
    right: Option<MixedDecoherenceProduct>,
) -> Option<MigrationError> {
    if left is None || right is None {
        Some(MigrationError::KeyConversionError)
    } else if decoherence_arity(left->0) != container_arity(s) || decoherence_arity(right->0)
        != container_arity(s) || above_bound(decoherence_reach(left->0), s) || above_bound(
        decoherence_reach(right->0),
        s,
    ) {
        Some(MigrationError::DimensionMismatch)
    } else {
        None
    }
}

/// Reads a Hamiltonian key from its text: the key that the text stands
/// for, whose reach fits a `usize`. A text with an index that is not below
/// `usize::MAX` is not handed to the grammar and gives no key.
pub fn read_hamiltonian_key(text: &str) -> (key: Option<HermitianMixedProduct>)
    ensures
        key == hamiltonian_key_of(text@),
        key is Some ==> reach_within_usize(hermitian_reach(key->0)),
{
    if indices_are_bounded(text.as_bytes()) {
        parse_hermitian(text)
    } else {
        None
    }
}

/// Reads one half of a noise key from its text: the half that the text
/// stands for, whose reach fits a `usize`. A text with an index that is not
/// below `usize::MAX` is not handed to the grammar and gives no key.
pub fn read_noise_key(text: &str) -> (key: Option<MixedDecoherenceProduct>)
    ensures
        key == noise_key_of(text@),
        key is Some ==> reach_within_usize(decoherence_reach(key->0)),
{
    if indices_are_bounded(text.as_bytes()) {
        parse_decoherence(text)
    } else {
        None
    }
}

/// Sets one reparsed Hamiltonian key with its value into any well made
/// container. Fails, changing nothing, exactly where
/// `hermitian_placement_fault` names a fault; otherwise the entries are what
/// `system_after_set` makes of them. A countable container stays countable.
pub fn place_hamiltonian_term(
    sys: &mut MixedLindbladOpenSystem,
    parsed: Option<HermitianMixedProduct>,
    value: CalculatorComplex,
) -> (r: Result<(), MigrationError>)
    requires
        well_made(*old(sys)),
        parsed is Some ==> reach_within_usize(hermitian_reach(parsed->0)),
    ensures
        match hermitian_placement_fault(*old(sys), parsed, value) {
            Some(e) => r == Err::<(), MigrationError>(e) && system_terms(*final(sys)) == system_terms(
                *old(sys),
            ),
            None => r is Ok && system_terms(*final(sys)) == system_after_set(
                system_terms(*old(sys)),
                parsed->0,
                value,
            ),
        },
        same_but_system(*old(sys), *final(sys)),
        well_made(*final(sys)),
        countable(*old(sys)) ==> countable(*final(sys)),
{
    match parsed {
        None => Err(MigrationError::KeyConversionError),
        Some(key) => match system_set(sys, key, value) {
            SetOutcome::Stored => Ok(()),
            SetOutcome::NotHermitian => Err(MigrationError::KeyConversionError),
            SetOutcome::WrongArity => Err(MigrationError::DimensionMismatch),
            SetOutcome::AboveBound => Err(MigrationError::DimensionMismatch),
        },
    }
}

/// Sets one reparsed noise key pair with its value into any well made
/// container. Fails, changing nothing, exactly where
/// `decoherence_placement_fault` names a fault; otherwise the entries are
/// what `noise_after_set` makes of them. A countable container stays
/// countable.
pub fn place_noise_term(
    sys: &mut MixedLindbladOpenSystem,
    left: Option<MixedDecoherenceProduct>,
    right: Option<MixedDecoherenceProduct>,
    value: CalculatorComplex,
) -> (r: Result<(), MigrationError>)
    requires
        well_made(*old(sys)),
        left is Some ==> reach_within_usize(decoherence_reach(left->0)),
        right is Some ==> reach_within_usize(decoherence_reach(right->0)),
    ensures
        match decoherence_placement_fault(*old(sys), left, right) {
            Some(e) => r == Err::<(), MigrationError>(e) && noise_terms(*final(sys)) == noise_terms(
                *old(sys),
            ),
            None => r is Ok && noise_terms(*final(sys)) == noise_after_set(
                noise_terms(*old(sys)),
                left->0,
                right->0,
                value,
            ),
        },
        same_but_noise(*old(sys), *final(sys)),
        well_made(*final(sys)),
        countable(*old(sys)) ==> countable(*final(sys)),
{
    match (left, right) {
        (Some(row), Some(column)) => match noise_set(sys, row, column, value) {
            SetOutcome::Stored => Ok(()),
            _ => Err(MigrationError::DimensionMismatch),
        },
        _ => Err(MigrationError::KeyConversionError),
    }
}

/// Reads a Hamiltonian key from its text and sets it with its value into
/// any well made container: `place_hamiltonian_term` on the key that the
/// text stands for.
pub fn place_hamiltonian_text(
    sys: &mut MixedLindbladOpenSystem,
    text: &str,
    value: CalculatorComplex,
) -> (r: Result<(), MigrationError>)
    requires
        well_made(*old(sys)),
    ensures
        match hermitian_placement_fault(*old(sys), hamiltonian_key_of(text@), value) {
            Some(e) => r == Err::<(), MigrationError>(e) && system_terms(*final(sys)) == system_terms(
                *old(sys),
            ),
            None => r is Ok && system_terms(*final(sys)) == system_after_set(
                system_terms(*old(sys)),
                hamiltonian_key_of(text@)->0,
                value,
            ),
        },
        same_but_system(*old(sys), *final(sys)),
        well_made(*final(sys)),
        countable(*old(sys)) ==> countable(*final(sys)),
{
    let parsed = read_hamiltonian_key(text);
    place_hamiltonian_term(sys, parsed, value)
}

/// Reads the two halves of a noise key from their texts and sets the pair
/// with its value into any well made container: `place_noise_term` on the
/// halves that the texts stand for.
pub fn place_noise_text(
    sys: &mut MixedLindbladOpenSystem,
    left: &str,
    right: &str,
    value: CalculatorComplex,
) -> (r: Result<(), MigrationError>)
    requires
        well_made(*old(sys)),
    ensures
        match decoherence_placement_fault(*old(sys), noise_key_of(left@), noise_key_of(right@)) {
            Some(e) => r == Err::<(), MigrationError>(e) && noise_terms(*final(sys)) == noise_terms(
                *old(sys),
            ),
            None => r is Ok && noise_terms(*final(sys)) == noise_after_set(
                noise_terms(*old(sys)),
                noise_key_of(left@)->0,
                noise_key_of(right@)->0,
                value,
            ),
        },
        same_but_noise(*old(sys), *final(sys)),
        well_made(*final(sys)),
        countable(*old(sys)) ==> countable(*final(sys)),
{
    let row = read_noise_key(left);
    let column = read_noise_key(right);
    place_noise_term(sys, row, column, value)
}

/// In a container without declared counts no reach is above a bound.
pub proof fn lemma_open_container_has_no_bound(
    s: MixedLindbladOpenSystem,
    reach: (Seq<nat>, Seq<nat>, Seq<nat>),
)
    requires
        all_open(declared_spins(s)),
        all_open(declared_bosons(s)),
        all_open(declared_fermions(s)),
    ensures
        !above_bound(reach, s),
{
}

/// Builds the current-format open system of a decoded foreign one.
///
/// Succeeds exactly where every foreign entry is without fault, and then
/// returns the system that `rebuilt` describes. Otherwise the error is the
/// fault of the first faulty entry, and no system is returned.
pub fn rebuild(foreign: &ForeignOpenSystem) -> (r: Result<MixedLindbladOpenSystem, MigrationError>)
    ensures
        r is Ok <==> faultless(*foreign),
        match r {
            Ok(sys) => rebuilt(*foreign, sys),
            Err(e) => first_fault(*foreign, e),
        },
{
    let mut sys = open_system_new(
        open_counts(foreign.spin_subsystems),
        open_counts(foreign.boson_subsystems),
        open_counts(foreign.fermion_subsystems),
    );
    let mut i: usize = 0;
    while i < foreign.hamiltonian.len()
        invariant
            i <= foreign.hamiltonian@.len(),
            hamiltonian_sound_up_to(*foreign, i as int),
            countable(sys),
            system_terms(sys) == hamiltonian_after(foreign.hamiltonian@, i as nat),
            noise_terms(sys) == noise_after(foreign.noise@, 0),
            declared_spins(sys) == open_counts_spec(foreign.spin_subsystems),
            declared_bosons(sys) == open_counts_spec(foreign.boson_subsystems),
            declared_fermions(sys) == open_counts_spec(foreign.fermion_subsystems),
        decreases foreign.hamiltonian@.len() - i,
    {
        let term = &foreign.hamiltonian[i];
        let value = clone_value(&term.value);
        proof {
            let key = hamiltonian_key_of(term.key@);
            if key is Some {
                lemma_open_container_has_no_bound(sys, hermitian_reach(key->0));
            }
        }
        match place_hamiltonian_text(&mut sys, term.key.as_str(), value) {
            Ok(()) => {},
            Err(e) => {
                assert(hamiltonian_fault_at(*foreign, i as int) == Some(e));
                return Err(e);
            },
        }
        assert(hamiltonian_fault_at(*foreign, i as int) is None);
        i += 1;
    }
    let mut j: usize = 0;
    while j < foreign.noise.len()
        invariant
            j <= foreign.noise@.len(),
            hamiltonian_sound_up_to(*foreign, foreign.hamiltonian@.len() as int),
            noise_sound_up_to(*foreign, j as int),
            countable(sys),
            system_terms(sys) == hamiltonian_after(foreign.hamiltonian@, foreign.hamiltonian@.len()),
            noise_terms(sys) == noise_after(foreign.noise@, j as nat),
            declared_spins(sys) == open_counts_spec(foreign.spin_subsystems),
            declared_bosons(sys) == open_counts_spec(foreign.boson_subsystems),
            declared_fermions(sys) == open_counts_spec(foreign.fermion_subsystems),
        decreases foreign.noise@.len() - j,
    {
        let term = &foreign.noise[j];
        let value = clone_value(&term.value);
        proof {
            let left = noise_key_of(term.left@);
            let right = noise_key_of(term.right@);
            if left is Some {
                lemma_open_container_has_no_bound(sys, decoherence_reach(left->0));
            }
            if right is Some {
                lemma_open_container_has_no_bound(sys, decoherence_reach(right->0));
            }
        }
        match place_noise_text(&mut sys, term.left.as_str(), term.right.as_str(), value) {
            Ok(()) => {},
            Err(e) => {
                assert(noise_fault_at(*foreign, j as int) == Some(e));
                return Err(e);
            },
        }
        assert(noise_fault_at(*foreign, j as int) is None);
        j += 1;
    }
    Ok(sys)
}

} // verus!
