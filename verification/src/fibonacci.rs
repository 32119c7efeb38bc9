//! The reference workload: the Fibonacci sequence that starts 1, 1.
//!
//! Every benchmarked module exports this function as its entry point;
//! the native version here is the baseline the engines are measured against.

use vstd::prelude::*;

verus! {

/// The sequence 1, 1, 2, 3, 5, 8, ... as a mathematical function.
pub open spec fn fib(n: nat) -> nat
    decreases n,
{
    if n < 2 {
        1
    } else {
        fib((n - 1) as nat) + fib((n - 2) as nat)
    }
}

/// The largest argument whose value still fits in 32 bits.
pub const MAX_ARG: u32 = 46;

/// The sequence never decreases.
pub proof fn lemma_fib_monotonic(i: nat, j: nat)
    requires
        i <= j,
    ensures
        fib(i) <= fib(j),
    decreases j,
{
    if i < j {
        lemma_fib_monotonic(i, (j - 1) as nat);
        if j >= 2 {
            assert(fib(j) == fib((j - 1) as nat) + fib((j - 2) as nat));
        } else {
            assert(fib(j) == 1 && fib((j - 1) as nat) == 1);
        }
    }
}

/// The value at `MAX_ARG` fits in a `u32`, and the next one does not.
pub proof fn lemma_fib_limit()
    ensures
        fib(10) == 89,
        fib(46) == 2971215073,
        fib(47) == 4807526976,
{
    assert(fib(0) == 1);
    assert(fib(1) == 1);
    assert(fib(2) == 2);
    assert(fib(3) == 3);
    assert(fib(4) == 5);
    assert(fib(5) == 8);
    assert(fib(6) == 13);
    assert(fib(7) == 21);
    assert(fib(8) == 34);
    assert(fib(9) == 55);
    assert(fib(10) == 89);
    assert(fib(11) == 144);
    assert(fib(12) == 233);
    assert(fib(13) == 377);
    assert(fib(14) == 610);
    assert(fib(15) == 987);
    assert(fib(16) == 1597);
    assert(fib(17) == 2584);
    assert(fib(18) == 4181);
    assert(fib(19) == 6765);
    assert(fib(20) == 10946);
    assert(fib(21) == 17711);
    assert(fib(22) == 28657);
    assert(fib(23) == 46368);
    assert(fib(24) == 75025);
    assert(fib(25) == 121393);
    assert(fib(26) == 196418);
    assert(fib(27) == 317811);
    assert(fib(28) == 514229);
    assert(fib(29) == 832040);
    assert(fib(30) == 1346269);
    assert(fib(31) == 2178309);
    assert(fib(32) == 3524578);
    assert(fib(33) == 5702887);
    assert(fib(34) == 9227465);
    assert(fib(35) == 14930352);
    assert(fib(36) == 24157817);
    assert(fib(37) == 39088169);
    assert(fib(38) == 63245986);
    assert(fib(39) == 102334155);
    assert(fib(40) == 165580141);
    assert(fib(41) == 267914296);
    assert(fib(42) == 433494437);
    assert(fib(43) == 701408733);
    assert(fib(44) == 1134903170);
    assert(fib(45) == 1836311903);
    assert(fib(46) == 2971215073);
    assert(fib(47) == 4807526976);
}

/// An argument is within `MAX_ARG` exactly when its value fits in a `u32`.
pub proof fn lemma_fib_fits(n: nat)
    ensures
        n <= MAX_ARG <==> fib(n) <= u32::MAX,
{
    lemma_fib_limit();
    if n <= 46 {
        lemma_fib_monotonic(n, 46);
    } else {
        lemma_fib_monotonic(47, n);
    }
}

/// The value of the sequence at `n`, by the naive double recursion.
pub fn run(n: u32) -> (r: u32)
    requires
        n <= MAX_ARG,
    ensures
        r == fib(n as nat),
    decreases n,
{
    if n < 2 {
        1
    } else {
        proof {
            lemma_fib_fits(n as nat);
        }
        run(n - 1) + run(n - 2)
    }
}

/// The same function under the name that benchmarked modules export.
pub fn ext_run(n: u32) -> (r: u32)
    requires
        n <= MAX_ARG,
    ensures
        r == fib(n as nat),
{
    run(n)
}

} // verus!
