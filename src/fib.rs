use vstd::prelude::*;

verus! {

/// The Fibonacci numbers counted from 1, 1: 1, 1, 2, 3, 5, 8, ...
pub open spec fn fibonacci(n: nat) -> nat
    decreases n,
{
    if n < 2 {
        1
    } else {
        fibonacci((n - 1) as nat) + fibonacci((n - 2) as nat)
    }
}

/// The `n`-th Fibonacci number, computed by the naive recursion. `n` must
/// not be negative, and the number must fit in an `i32` (up to `n == 45`).
pub fn fib(n: i32) -> (r: i32)
    requires
        0 <= n,
        fibonacci(n as nat) <= i32::MAX,
    ensures
        r == fibonacci(n as nat),
    decreases n,
{
    if n < 2 {
        1
    } else {
        fib(n - 1) + fib(n - 2)
    }
}

} // verus!
