use vstd::prelude::*;

verus! {

/// The Fibonacci sequence: `fib(0) == 0`, `fib(1) == 1`.
pub open spec fn fib(n: nat) -> nat
    decreases n,
{
    if n < 2 {
        n
    } else {
        fib((n - 1) as nat) + fib((n - 2) as nat)
    }
}

/// Every term is at most the next one.
pub proof fn lemma_fib_monotone(i: nat, j: nat)
    requires
        i <= j,
    ensures
        fib(i) <= fib(j),
    decreases j,
{
    if i < j {
        if j >= 2 {
            lemma_fib_monotone(i, (j - 1) as nat);
        }
    }
}

/// The `n`-th Fibonacci number, computed iteratively.
pub fn fibonacci(n: usize) -> (r: usize)
    requires
        fib(n as nat) <= usize::MAX,
    ensures
        r == fib(n as nat),
{
    if n < 1 {
        return n;
    }
    let mut prev: usize = 0;
    let mut cur: usize = 1;
    let mut i: usize = 1;
    while i < n
        invariant
            1 <= i <= n,
            prev == fib((i - 1) as nat),
            cur == fib(i as nat),
            fib(n as nat) <= usize::MAX,
        decreases n - i,
    {
        proof {
            lemma_fib_monotone((i + 1) as nat, n as nat);
        }
        let new = cur + prev;
        prev = cur;
        cur = new;
        i = i + 1;
    }
    cur
}

/// The error returned for a negative argument.
#[derive(PartialEq, Eq, Structural, Clone, Copy, Debug)]
pub struct NegativeError;

impl NegativeError {
    pub fn message(&self) -> (r: String) {
        String::from_str("x is negative")
    }
}

/// Accepts `x` when it is zero or positive.
pub fn check_positive(x: i32) -> (r: Result<(), NegativeError>)
    ensures
        r is Err <==> x < 0,
{
    if x < 0 {
        Err(NegativeError)
    } else {
        Ok(())
    }
}

} // verus!
