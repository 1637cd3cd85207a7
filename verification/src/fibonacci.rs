//! Fibonacci numbers in 32-bit wrapping arithmetic.

use vstd::arithmetic::div_mod::lemma_add_mod_noop;
use vstd::prelude::*;

verus! {

/// The `n`-th Fibonacci number, counted from `fib(0) == 0`.
pub open spec fn fib(n: nat) -> nat
    decreases n,
{
    if n < 2 {
        n
    } else {
        fib((n - 1) as nat) + fib((n - 2) as nat)
    }
}

/// What is left of `x` in a `u32` that wraps around.
pub open spec fn wrapped(x: nat) -> nat {
    x % 0x1_0000_0000
}

/// Computes the `n`-th Fibonacci number and the one after it, both wrapped
/// around on overflow.
pub fn fibonacci(n: u32) -> (pair: (u32, u32))
    ensures
        pair.0 == wrapped(fib(n as nat)),
        pair.1 == wrapped(fib(n as nat + 1)),
{
    let mut a: u32 = 0;
    let mut b: u32 = 1;
    for i in 0..n
        invariant
            a == wrapped(fib(i as nat)),
            b == wrapped(fib(i as nat + 1)),
    {
        let c = a.wrapping_add(b);
        proof {
            let x = fib(i as nat);
            let y = fib(i as nat + 1);
            assert(fib(i as nat + 2) == y + x);
            lemma_add_mod_noop(x as int, y as int, 0x1_0000_0000);
        }
        a = b;
        b = c;
    }
    (a, b)
}

} // verus!
