//! The mapping from a bin's index to its signed frequency.
//!
//! A spectrum of `n` bins is indexed `0..n`. Read as rotation speeds, the
//! indices would all turn forwards. Centring them around zero gives the mix of
//! forward and backward terms whose sum closes a path: bin `k` turns
//! `signed_frequency(k, n)` times per period.

use vstd::prelude::*;

verus! {

/// The signed frequency of bin `k` among `n` bins: the index itself in the
/// lower half, `k <= n / 2`, and `k - n` above it, so that the upper bins turn
/// backwards.
pub open spec fn signed_frequency(k: int, n: int) -> int {
    if k <= n / 2 {
        k
    } else {
        k - n
    }
}

/// The most negative signed frequency among `n` bins.
pub open spec fn lowest_frequency(n: int) -> int {
    -((n - 1) / 2)
}

/// The largest signed frequency among `n` bins.
pub open spec fn highest_frequency(n: int) -> int {
    n / 2
}

/// The index of the bin that turns at signed frequency `f` among `n` bins.
pub open spec fn frequency_index(f: int, n: int) -> int {
    if f >= 0 {
        f
    } else {
        f + n
    }
}

/// The signed frequency of bin `k` among `n` bins.
pub fn index_to_frequency(k: usize, n: usize) -> (f: isize)
    requires
        k < n,
    ensures
        f == signed_frequency(k as int, n as int),
{
    if k <= n / 2 {
        k as isize
    } else {
        let back: usize = n - k;
        -(back as isize)
    }
}

/// The signed frequencies of all `n` bins, by ascending index.
pub fn frequency_table(n: usize) -> (table: Vec<isize>)
    ensures
        table@.len() == n,
        forall|k: int| 0 <= k < n ==> #[trigger] table@[k] == signed_frequency(k, n as int),
{
    let mut table: Vec<isize> = Vec::new();
    let mut k: usize = 0;
    while k < n
        invariant
            k <= n,
            table@.len() == k,
            forall|j: int| 0 <= j < k ==> #[trigger] table@[j] == signed_frequency(j, n as int),
        decreases n - k,
    {
        table.push(index_to_frequency(k, n));
        k += 1;
    }
    table
}

/// Every signed frequency lies between the lowest and the highest. These two
/// bound a range of exactly `n` integers, centred at zero for an odd `n` and
/// reaching one further forwards than backwards for an even `n`.
pub proof fn lemma_frequency_in_range(k: int, n: int)
    requires
        0 <= k < n,
    ensures
        lowest_frequency(n) <= signed_frequency(k, n) <= highest_frequency(n),
        highest_frequency(n) - lowest_frequency(n) + 1 == n,
        highest_frequency(n) + lowest_frequency(n) == (if n % 2 == 0 { 1int } else { 0int }),
{
}

/// Two different bins never share a signed frequency.
pub proof fn lemma_frequency_injective(k1: int, k2: int, n: int)
    requires
        0 <= k1 < n,
        0 <= k2 < n,
        signed_frequency(k1, n) == signed_frequency(k2, n),
    ensures
        k1 == k2,
{
}

/// Every integer between the lowest and the highest frequency is the signed
/// frequency of a bin, the one that `frequency_index` names.
pub proof fn lemma_frequency_onto(f: int, n: int)
    requires
        lowest_frequency(n) <= f <= highest_frequency(n),
    ensures
        0 <= frequency_index(f, n) < n,
        signed_frequency(frequency_index(f, n), n) == f,
{
}

/// `frequency_index` undoes `signed_frequency` on every bin.
pub proof fn lemma_frequency_index_inverse(k: int, n: int)
    requires
        0 <= k < n,
    ensures
        frequency_index(signed_frequency(k, n), n) == k,
{
}

/// A bin's signed frequency differs from its index by a multiple of `n`:
/// zero or one whole `n`.
pub proof fn lemma_frequency_congruent(k: int, n: int)
    requires
        0 <= k < n,
    ensures
        signed_frequency(k, n) % n == k,
{
    if k > n / 2 {
        vstd::arithmetic::div_mod::lemma_mod_add_multiples_vanish(k - n, n);
    }
    vstd::arithmetic::div_mod::lemma_small_mod(k as nat, n as nat);
}

/// At the sampling instant `j / n`, bin `k` has turned `j * signed_frequency(k, n)`
/// n-ths of a turn. This differs from `j * k` n-ths by whole turns only, so at
/// the sampling instants the centred frequencies place every term where the
/// plain indices would.
pub proof fn lemma_phase_at_sample(j: int, k: int, n: int)
    requires
        0 <= k < n,
    ensures
        (j * signed_frequency(k, n)) % n == (j * k) % n,
{
    if k > n / 2 {
        assert(j * (k - n) == n * (-j) + j * k) by (nonlinear_arith);
        vstd::arithmetic::div_mod::lemma_mod_multiples_vanish(-j, j * k, n);
    }
}

} // verus!
