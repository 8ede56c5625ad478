//! What holds of setting entries, whatever the keys and values are.

use vstd::prelude::*;
use qoqo_calculator::CalculatorComplex;
use struqture::mixed_systems::{HermitianMixedProduct, MixedDecoherenceProduct};
use struqture::mixed_systems::MixedLindbladOpenSystem;
use crate::container::{
    attained, declared, decoherence_reach, hermitian_reach, is_current,
    is_zero, noise_terms, pick, system_terms, within, Species,
};
use crate::foreign::ForeignOpenSystem;
use crate::migration::{
    faultless, first_fault, hamiltonian_fault_at, hamiltonian_sound_up_to, noise_after_set,
    noise_fault_at, noise_sound_up_to, system_after_set,
};
use crate::error::MigrationError;

verus! {

/// Setting the same value at the same Hamiltonian key twice leaves what
/// setting it once leaves.
pub proof fn lemma_system_set_idempotent(
    m: Map<HermitianMixedProduct, CalculatorComplex>,
    key: HermitianMixedProduct,
    value: CalculatorComplex,
)
    ensures
        system_after_set(system_after_set(m, key, value), key, value) == system_after_set(
            m,
            key,
            value,
        ),
{
    assert(system_after_set(system_after_set(m, key, value), key, value) =~= system_after_set(
        m,
        key,
        value,
    ));
}

/// Of two values set one after the other at one Hamiltonian key, the second
/// is the one found there; a zero leaves no entry at the key.
pub proof fn lemma_system_last_set_wins(
    m: Map<HermitianMixedProduct, CalculatorComplex>,
    key: HermitianMixedProduct,
    first: CalculatorComplex,
    second: CalculatorComplex,
)
    ensures
        ({
            let after = system_after_set(system_after_set(m, key, first), key, second);
            if is_zero(second) {
                !after.dom().contains(key)
            } else {
                after.dom().contains(key) && after[key] == second
            }
        }),
{
}

/// Setting the same value at the same noise key pair twice leaves what
/// setting it once leaves.
pub proof fn lemma_noise_set_idempotent(
    m: Map<(MixedDecoherenceProduct, MixedDecoherenceProduct), CalculatorComplex>,
    left: MixedDecoherenceProduct,
    right: MixedDecoherenceProduct,
    value: CalculatorComplex,
)
    ensures
        noise_after_set(noise_after_set(m, left, right, value), left, right, value)
            == noise_after_set(m, left, right, value),
{
    assert(noise_after_set(noise_after_set(m, left, right, value), left, right, value)
        =~= noise_after_set(m, left, right, value));
}

/// Of two values set one after the other at one noise key pair, the second
/// is the one found there; a zero leaves no entry at the pair.
pub proof fn lemma_noise_last_set_wins(
    m: Map<(MixedDecoherenceProduct, MixedDecoherenceProduct), CalculatorComplex>,
    left: MixedDecoherenceProduct,
    right: MixedDecoherenceProduct,
    first: CalculatorComplex,
    second: CalculatorComplex,
)
    ensures
        ({
            let after = noise_after_set(noise_after_set(m, left, right, first), left, right, second);
            if is_zero(second) {
                !after.dom().contains((left, right))
            } else {
                after.dom().contains((left, right)) && after[(left, right)] == second
            }
        }),
{
}

/// The noise pair is ordered: setting at `(left, right)` leaves the entry
/// at `(right, left)` as it was, where the two halves differ.
pub proof fn lemma_noise_pair_is_ordered(
    m: Map<(MixedDecoherenceProduct, MixedDecoherenceProduct), CalculatorComplex>,
    left: MixedDecoherenceProduct,
    right: MixedDecoherenceProduct,
    value: CalculatorComplex,
)
    requires
        left != right,
    ensures
        ({
            let after = noise_after_set(m, left, right, value);
            after.dom().contains((right, left)) == m.dom().contains((right, left)) && (
            m.dom().contains((right, left)) ==> after[(right, left)] == m[(right, left)])
        }),
{
}

/// Counts do not fall while no key leaves: where every key of `before` is
/// still a key of `after`, each current count of `after` is at least the
/// count of `before` in the same slot.
pub proof fn lemma_counts_grow_with_keys(
    before: MixedLindbladOpenSystem,
    after: MixedLindbladOpenSystem,
    species: Species,
    counts_before: Seq<usize>,
    counts_after: Seq<usize>,
)
    requires
        forall|k: HermitianMixedProduct| #[trigger]
            system_terms(before).dom().contains(k) ==> system_terms(after).dom().contains(k),
        forall|l: MixedDecoherenceProduct, r: MixedDecoherenceProduct| #[trigger]
            noise_terms(before).dom().contains((l, r)) ==> noise_terms(after).dom().contains((l, r)),
        declared(after, species) == declared(before, species),
        is_current(before, species, counts_before),
        is_current(after, species, counts_after),
    ensures
        counts_after.len() == counts_before.len(),
        forall|slot: int|
            0 <= slot < counts_before.len() ==> counts_before[slot] <= #[trigger] counts_after[slot],
{
    assert forall|slot: int| 0 <= slot < counts_before.len() implies counts_before[slot]
        <= #[trigger] counts_after[slot] by {
        if counts_before[slot] != 0 {
            assert(attained(before, species, slot, counts_before[slot]));
            if exists|k: HermitianMixedProduct| #[trigger]
                system_terms(before).dom().contains(k) && pick(hermitian_reach(k), species)[slot]
                    == counts_before[slot] {
                let k = choose|k: HermitianMixedProduct| #[trigger]
                    system_terms(before).dom().contains(k) && pick(hermitian_reach(k), species)[slot]
                        == counts_before[slot];
                assert(system_terms(after).dom().contains(k));
                assert(within(pick(hermitian_reach(k), species), counts_after));
            } else {
                let (l, r) = choose|l: MixedDecoherenceProduct, r: MixedDecoherenceProduct| #[trigger]
                    noise_terms(before).dom().contains((l, r)) && (pick(
                        decoherence_reach(l),
                        species,
                    )[slot] == counts_before[slot] || pick(decoherence_reach(r), species)[slot]
                        == counts_before[slot]);
                assert(noise_terms(after).dom().contains((l, r)));
                assert(within(pick(decoherence_reach(l), species), counts_after));
                assert(within(pick(decoherence_reach(r), species), counts_after));
            }
        }
    }
}

/// Counts grow with the Hamiltonian part: once a value that is not zero is
/// set at `key`, the current counts of every species are at
/// least what the key reaches, and none is below what it was before.
pub proof fn lemma_counts_grow_with_system_set(
    before: MixedLindbladOpenSystem,
    after: MixedLindbladOpenSystem,
    species: Species,
    key: HermitianMixedProduct,
    value: CalculatorComplex,
    counts_before: Seq<usize>,
    counts_after: Seq<usize>,
)
    requires
        !is_zero(value),
        system_terms(after) == system_after_set(system_terms(before), key, value),
        noise_terms(after) == noise_terms(before),
        declared(after, species) == declared(before, species),
        is_current(before, species, counts_before),
        is_current(after, species, counts_after),
    ensures
        within(pick(hermitian_reach(key), species), counts_after),
        counts_after.len() == counts_before.len(),
        forall|slot: int|
            0 <= slot < counts_before.len() ==> counts_before[slot] <= #[trigger] counts_after[slot],
{
    assert(system_terms(after).dom().contains(key));
    lemma_counts_grow_with_keys(before, after, species, counts_before, counts_after);
}

/// Counts grow with the noise part: once a value that is not zero is set at
/// `(left, right)`, the current counts of every species are at least what
/// either half reaches, and none is below what it was before.
pub proof fn lemma_counts_grow_with_noise_set(
    before: MixedLindbladOpenSystem,
    after: MixedLindbladOpenSystem,
    species: Species,
    left: MixedDecoherenceProduct,
    right: MixedDecoherenceProduct,
    value: CalculatorComplex,
    counts_before: Seq<usize>,
    counts_after: Seq<usize>,
)
    requires
        !is_zero(value),
        noise_terms(after) == noise_after_set(noise_terms(before), left, right, value),
        system_terms(after) == system_terms(before),
        declared(after, species) == declared(before, species),
        is_current(before, species, counts_before),
        is_current(after, species, counts_after),
    ensures
        within(pick(decoherence_reach(left), species), counts_after),
        within(pick(decoherence_reach(right), species), counts_after),
        counts_after.len() == counts_before.len(),
        forall|slot: int|
            0 <= slot < counts_before.len() ==> counts_before[slot] <= #[trigger] counts_after[slot],
{
    assert(noise_terms(after).dom().contains((left, right)));
    lemma_counts_grow_with_keys(before, after, species, counts_before, counts_after);
}

/// One faulty entry is enough: a foreign system with a fault at any
/// Hamiltonian or noise entry is not faultless, so no system comes of it.
pub proof fn lemma_one_fault_fails_all(f: ForeignOpenSystem)
    requires
        (exists|i: int| 0 <= i < f.hamiltonian@.len() && (#[trigger] hamiltonian_fault_at(f, i)) is Some)
            || (exists|i: int| 0 <= i < f.noise@.len() && (#[trigger] noise_fault_at(f, i)) is Some),
    ensures
        !faultless(f),
{
}

/// The error of a migration is determined: two errors that are each the
/// first fault of one foreign system are the same error.
pub proof fn lemma_first_fault_unique(f: ForeignOpenSystem, a: MigrationError, b: MigrationError)
    requires
        first_fault(f, a),
        first_fault(f, b),
    ensures
        a == b,
{
    if hamiltonian_sound_up_to(f, f.hamiltonian@.len() as int) {
        let i = choose|i: int|
            0 <= i < f.noise@.len() && noise_sound_up_to(f, i) && #[trigger] noise_fault_at(f, i)
                == Some(a);
        let j = choose|j: int|
            0 <= j < f.noise@.len() && noise_sound_up_to(f, j) && #[trigger] noise_fault_at(f, j)
                == Some(b);
        if i < j {
            assert(noise_fault_at(f, i) is None);
        } else if j < i {
            assert(noise_fault_at(f, j) is None);
        }
    } else {
        let i = choose|i: int|
            0 <= i < f.hamiltonian@.len() && hamiltonian_sound_up_to(f, i)
                && #[trigger] hamiltonian_fault_at(f, i) == Some(a);
        let j = choose|j: int|
            0 <= j < f.hamiltonian@.len() && hamiltonian_sound_up_to(f, j)
                && #[trigger] hamiltonian_fault_at(f, j) == Some(b);
        if i < j {
            assert(hamiltonian_fault_at(f, i) is None);
        } else if j < i {
            assert(hamiltonian_fault_at(f, j) is None);
        }
    }
}

} // verus!
