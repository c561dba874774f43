//! Adaptive sizing: the size of one transfer unit, derived from the
//! throughput that a short calibration transfer measured.

use vstd::prelude::*;

verus! {

/// Upper bound of a transfer unit, in bytes (24 MiB).
pub const MIN_SEND_BYTES: usize = 1024 * 1024 * 24;

/// Number of transfer units that one second of calibrated throughput is
/// divided into.
pub const UNITS_PER_SECOND: u64 = 200;

/// Largest argument whose next power of two still fits in a `u64`.
pub const MAX_POWER_OF_TWO: u64 = 0x8000_0000_0000_0000;

/// `n` is one of 1, 2, 4, 8, ...
pub open spec fn is_power_of_two(n: nat) -> bool
    decreases n,
{
    n == 1 || (n >= 2 && n % 2 == 0 && is_power_of_two(n / 2))
}

/// The least power of two that is not below `n`: twice the least power of
/// two that is not below half of `n`, rounded up.
pub open spec fn next_power_of_two(n: nat) -> nat
    decreases n,
{
    if n <= 1 {
        1
    } else {
        2 * next_power_of_two((n + 1) / 2)
    }
}

/// The size of a transfer unit for a link that moves `bytes_per_sec` bytes
/// in a second.
pub open spec fn transfer_size(bytes_per_sec: nat) -> nat {
    let unit = next_power_of_two(bytes_per_sec / (UNITS_PER_SECOND as nat));
    if unit <= MIN_SEND_BYTES as nat {
        unit
    } else {
        MIN_SEND_BYTES as nat
    }
}

/// `next_power_of_two(n)` is a power of two and not below `n`.
pub proof fn lemma_next_power_of_two_bounds(n: nat)
    ensures
        is_power_of_two(next_power_of_two(n)),
        next_power_of_two(n) >= n,
        next_power_of_two(n) >= 1,
        n >= 1 ==> next_power_of_two(n) < 2 * n,
    decreases n,
{
    if n > 1 {
        lemma_next_power_of_two_bounds((n + 1) / 2);
    }
}

/// A power of two that is not below `n`, and whose half is below `n`, is
/// `next_power_of_two(n)`.
pub proof fn lemma_next_power_of_two_unique(p: nat, n: nat)
    requires
        is_power_of_two(p),
        p >= n,
        p == 1 || p / 2 < n,
    ensures
        p == next_power_of_two(n),
    decreases n,
{
    if n > 1 {
        lemma_next_power_of_two_unique(p / 2, (n + 1) / 2);
    }
}

/// No power of two lies between `n` and `next_power_of_two(n)`: it is the
/// least one that is not below `n`.
pub proof fn lemma_next_power_of_two_least(q: nat, n: nat)
    requires
        is_power_of_two(q),
        q >= n,
    ensures
        next_power_of_two(n) <= q,
    decreases n,
{
    if n > 1 {
        lemma_next_power_of_two_least(q / 2, (n + 1) / 2);
    }
}

/// `next_power_of_two` never decreases when its argument grows.
pub proof fn lemma_next_power_of_two_monotonic(a: nat, b: nat)
    requires
        a <= b,
    ensures
        next_power_of_two(a) <= next_power_of_two(b),
{
    lemma_next_power_of_two_bounds(b);
    lemma_next_power_of_two_least(next_power_of_two(b), a);
}

/// Rounds `n` up to a power of two.
pub fn find_next_power_of_two(n: u64) -> (power_of_two: u64)
    requires
        n <= MAX_POWER_OF_TWO,
    ensures
        power_of_two == next_power_of_two(n as nat),
{
    let mut power_of_two: u64 = 1;
    while power_of_two < n
        invariant
            n <= MAX_POWER_OF_TWO,
            power_of_two >= 1,
            is_power_of_two(power_of_two as nat),
            power_of_two == 1 || power_of_two / 2 < n,
        decreases 2 * n - power_of_two,
    {
        power_of_two = 2 * power_of_two;
    }
    proof {
        lemma_next_power_of_two_unique(power_of_two as nat, n as nat);
    }
    power_of_two
}

/// The transfer unit for a link that was measured at `bytes_per_sec` bytes
/// per second: a two-hundredth of what the link moves in a second, rounded
/// up to a power of two and capped at `MIN_SEND_BYTES`.
pub fn get_transfer_size(bytes_per_sec: u64) -> (size: usize)
    ensures
        size == transfer_size(bytes_per_sec as nat),
        1 <= size <= MIN_SEND_BYTES,
        bytes_per_sec / UNITS_PER_SECOND <= 0x100_0000 ==> is_power_of_two(size as nat),
{
    let unit: u64 = find_next_power_of_two(bytes_per_sec / UNITS_PER_SECOND);
    proof {
        let n = (bytes_per_sec / UNITS_PER_SECOND) as nat;
        lemma_next_power_of_two_bounds(n);
        if n <= 0x100_0000 {
            lemma_power_of_two_16_mib();
            lemma_next_power_of_two_least(0x100_0000, n);
        }
    }
    if unit <= MIN_SEND_BYTES as u64 {
        unit as usize
    } else {
        MIN_SEND_BYTES
    }
}

proof fn lemma_power_of_two_16_mib()
    ensures
        is_power_of_two(0x100_0000),
{
    reveal_with_fuel(is_power_of_two, 25);
}

/// The transfer unit never exceeds the cap, whatever was measured.
pub proof fn lemma_transfer_size_capped(bytes_per_sec: nat)
    ensures
        1 <= transfer_size(bytes_per_sec) <= MIN_SEND_BYTES,
{
    lemma_next_power_of_two_bounds(bytes_per_sec / (UNITS_PER_SECOND as nat));
}

/// Below the cap the transfer unit is a power of two: that is for every
/// throughput whose two-hundredth is at most 16 MiB.
pub proof fn lemma_transfer_size_power_of_two(bytes_per_sec: nat)
    requires
        bytes_per_sec / (UNITS_PER_SECOND as nat) <= 0x100_0000,
    ensures
        is_power_of_two(transfer_size(bytes_per_sec)),
{
    let n = bytes_per_sec / (UNITS_PER_SECOND as nat);
    lemma_next_power_of_two_bounds(n);
    lemma_power_of_two_16_mib();
    lemma_next_power_of_two_least(0x100_0000, n);
}

/// A faster link never gets a smaller transfer unit.
pub proof fn lemma_transfer_size_monotonic(slower: nat, faster: nat)
    requires
        slower <= faster,
    ensures
        transfer_size(slower) <= transfer_size(faster),
{
    let a = slower / (UNITS_PER_SECOND as nat);
    let b = faster / (UNITS_PER_SECOND as nat);
    assert(a <= b) by (nonlinear_arith)
        requires
            slower <= faster,
            a == slower / 200,
            b == faster / 200,
    ;
    lemma_next_power_of_two_monotonic(a, b);
}

} // verus!
