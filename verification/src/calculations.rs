//! The three supported calculations — factorial, fibonacci, prime check —
//! each proved to return the exact mathematical result as a decimal string.

use vstd::prelude::*;

verus! {

use vstd::string::StringExecFns;
use crate::types::{Operation, TaskError};

/// n!, the factorial of n.
pub open spec fn fact(n: nat) -> nat
    decreases n,
{
    if n == 0 {
        1
    } else {
        n * fact((n - 1) as nat)
    }
}

/// F(n), the n-th Fibonacci number, with F(0) = 0 and F(1) = 1.
pub open spec fn fib(n: nat) -> nat
    decreases n,
{
    if n == 0 {
        0
    } else if n == 1 {
        1
    } else {
        fib((n - 1) as nat) + fib((n - 2) as nat)
    }
}

/// n is prime: at least 2, and no d with 2 <= d < n divides it.
pub open spec fn is_prime(n: nat) -> bool {
    n >= 2 && forall|d: nat| 2 <= d < n ==> #[trigger] (n % d) != 0
}

/// The decimal digit character for d (d < 10).
pub open spec fn digit_char(d: nat) -> char {
    if d == 0 {
        '0'
    } else if d == 1 {
        '1'
    } else if d == 2 {
        '2'
    } else if d == 3 {
        '3'
    } else if d == 4 {
        '4'
    } else if d == 5 {
        '5'
    } else if d == 6 {
        '6'
    } else if d == 7 {
        '7'
    } else if d == 8 {
        '8'
    } else {
        '9'
    }
}

/// The decimal representation of n, most significant digit first, with no
/// leading zeros (except for n = 0 itself).
pub open spec fn dec_digits(n: nat) -> Seq<char>
    decreases n,
{
    if n < 10 {
        seq![digit_char(n)]
    } else {
        dec_digits(n / 10).push(digit_char(n % 10))
    }
}

fn digit_str(d: u64) -> (s: &'static str)
    requires
        d < 10,
    ensures
        s@ =~= seq![digit_char(d as nat)],
{
    proof {
        reveal_strlit("0");
        reveal_strlit("1");
        reveal_strlit("2");
        reveal_strlit("3");
        reveal_strlit("4");
        reveal_strlit("5");
        reveal_strlit("6");
        reveal_strlit("7");
        reveal_strlit("8");
        reveal_strlit("9");
    }
    match d {
        0 => "0",
        1 => "1",
        2 => "2",
        3 => "3",
        4 => "4",
        5 => "5",
        6 => "6",
        7 => "7",
        8 => "8",
        _ => "9",
    }
}

/// Renders n in decimal.
pub fn u64_to_string(n: u64) -> (s: String)
    ensures
        s@ == dec_digits(n as nat),
    decreases n,
{
    if n < 10 {
        String::from_str(digit_str(n))
    } else {
        let mut s = u64_to_string(n / 10);
        s.append(digit_str(n % 10));
        proof {
            assert(s@ =~= dec_digits(n as nat));
        }
        s
    }
}

/// Mathematical calculations: the three supported operations.
pub struct Calculator;

impl Calculator {
    /// Perform the calculation selected by `operation` on `input`.
    ///
    /// Succeeds exactly when the input is within the operation's range
    /// (factorial: 20, fibonacci: 93, prime check: unrestricted), and then
    /// returns the exact result as a decimal or boolean string.
    pub fn calculate(operation: Operation, input: u64) -> (r: Result<String, TaskError>)
        ensures
            match r {
                Ok(s) => calculation_in_range(operation, input) && s@ == calculation_result(
                    operation,
                    input,
                ),
                Err(e) => !calculation_in_range(operation, input) && e is CalculationError,
            },
    {
        match operation {
            Operation::Factorial => Self::factorial(input),
            Operation::Fibonacci => Self::fibonacci(input),
            Operation::PrimeCheck => Self::prime_check(input),
        }
    }

    /// n! as a decimal string, for n <= 20 (larger inputs would overflow
    /// the 64-bit range and are rejected).
    pub fn factorial(n: u64) -> (r: Result<String, TaskError>)
        ensures
            n <= 20 ==> (r matches Ok(s) && s@ == dec_digits(fact(n as nat))),
            n > 20 ==> (r matches Err(e) && e is CalculationError),
    {
        if n > 20 {
            return Err(
                TaskError::CalculationError {
                    message: String::from_str("factorial input too large, maximum is 20"),
                },
            );
        }
        if n == 0 || n == 1 {
            proof {
                reveal_with_fuel(fact, 2);
            }
            return Ok(u64_to_string(1));
        }
        let mut result: u64 = 1;
        let mut i: u64 = 2;
        proof {
            lemma_fact_20();
            reveal_with_fuel(fact, 2);
        }
        while i <= n
            invariant
                2 <= n <= 20,
                2 <= i <= n + 1,
                result == fact((i - 1) as nat),
                fact(20) == 2432902008176640000,
            decreases n + 1 - i,
        {
            proof {
                lemma_fact_monotonic(i as nat, 20);
                assert(fact(i as nat) == i * fact((i - 1) as nat));
                assert(result * i == fact(i as nat)) by (nonlinear_arith)
                    requires
                        result == fact((i - 1) as nat),
                        fact(i as nat) == i * fact((i - 1) as nat),
                ;
            }
            result = result * i;
            i = i + 1;
        }
        Ok(u64_to_string(result))
    }

    /// F(n) as a decimal string, for n <= 93 (the largest Fibonacci number
    /// that fits in 64 bits).
    pub fn fibonacci(n: u64) -> (r: Result<String, TaskError>)
        ensures
            n <= 93 ==> (r matches Ok(s) && s@ == dec_digits(fib(n as nat))),
            n > 93 ==> (r matches Err(e) && e is CalculationError),
    {
        if n > 93 {
            return Err(
                TaskError::CalculationError {
                    message: String::from_str("fibonacci input too large, maximum is 93"),
                },
            );
        }
        if n == 0 {
            return Ok(u64_to_string(0));
        }
        let mut a: u64 = 0;
        let mut b: u64 = 1;
        let mut i: u64 = 1;
        proof {
            lemma_fib_93();
        }
        while i < n
            invariant
                n <= 93,
                1 <= i <= n,
                a == fib((i - 1) as nat),
                b == fib(i as nat),
                fib(93) == 12200160415121876738,
            decreases n - i,
        {
            proof {
                lemma_fib_monotonic((i + 1) as nat, 93);
            }
            let next = a + b;
            a = b;
            b = next;
            i = i + 1;
        }
        Ok(u64_to_string(b))
    }

    /// "true" if n is prime, "false" otherwise, decided by trial division.
    pub fn prime_check(n: u64) -> (r: Result<String, TaskError>)
        ensures
            r matches Ok(s) && s@ == (if is_prime(n as nat) {
                "true"@
            } else {
                "false"@
            }),
    {
        if n < 2 {
            return Ok(String::from_str("false"));
        }
        if n == 2 {
            return Ok(String::from_str("true"));
        }
        if n % 2 == 0 {
            proof {
                assert(2 <= 2 < n as nat && n as nat % 2 == 0);
            }
            return Ok(String::from_str("false"));
        }
        let mut i: u64 = 3;
        while i <= n / i
            invariant
                n >= 3,
                n % 2 != 0,
                3 <= i <= n + 2,
                i % 2 != 0,
                forall|d: nat| 2 <= d < i ==> #[trigger] (n as nat % d) != 0,
            decreases n + 2 - i,
        {
            proof {
                assert((i as nat) * (i as nat) <= n as nat) by (nonlinear_arith)
                    requires
                        i as nat <= (n as nat) / (i as nat),
                        i >= 3,
                ;
                assert(i as nat <= n as nat) by (nonlinear_arith)
                    requires
                        (i as nat) * (i as nat) <= n as nat,
                        i >= 3,
                ;
                assert(i as nat <= 4294967295) by (nonlinear_arith)
                    requires
                        (i as nat) * (i as nat) <= n as nat,
                        n as nat <= 18446744073709551615,
                        i >= 3,
                ;
            }
            if n % i == 0 {
                proof {
                    lemma_div_bound(n as nat, i as nat);
                }
                return Ok(String::from_str("false"));
            }
            proof {
                lemma_odd_skip(n as nat, (i + 1) as nat);
            }
            i = i + 2;
        }
        proof {
            lemma_no_small_divisor_prime(n as nat, i as nat);
        }
        Ok(String::from_str("true"))
    }
}

/// Whether `input` is within `operation`'s accepted range.
pub open spec fn calculation_in_range(operation: Operation, input: u64) -> bool {
    match operation {
        Operation::Factorial => input <= 20,
        Operation::Fibonacci => input <= 93,
        Operation::PrimeCheck => true,
    }
}

/// The exact string a calculation in range produces.
pub open spec fn calculation_result(operation: Operation, input: u64) -> Seq<char> {
    match operation {
        Operation::Factorial => dec_digits(fact(input as nat)),
        Operation::Fibonacci => dec_digits(fib(input as nat)),
        Operation::PrimeCheck => if is_prime(input as nat) {
            "true"@
        } else {
            "false"@
        },
    }
}

/// n! is at least 1.
proof fn lemma_fact_positive(n: nat)
    ensures
        fact(n) >= 1,
    decreases n,
{
    if n > 0 {
        lemma_fact_positive((n - 1) as nat);
        assert(fact(n) == n * fact((n - 1) as nat));
        assert(n * fact((n - 1) as nat) >= 1) by (nonlinear_arith)
            requires
                n >= 1,
                fact((n - 1) as nat) >= 1,
        ;
    }
}

/// The factorial function is monotonic.
proof fn lemma_fact_monotonic(i: nat, j: nat)
    requires
        i <= j,
    ensures
        fact(i) <= fact(j),
    decreases j,
{
    if i < j {
        lemma_fact_monotonic(i, (j - 1) as nat);
        lemma_fact_positive((j - 1) as nat);
        assert(fact(j) == j * fact((j - 1) as nat));
        assert(fact((j - 1) as nat) <= j * fact((j - 1) as nat)) by (nonlinear_arith)
            requires
                j >= 1,
                fact((j - 1) as nat) >= 1,
        ;
    }
}

proof fn lemma_fact_20()
    ensures
        fact(20) == 2432902008176640000,
{
    reveal_with_fuel(fact, 21);
}

/// A pair of consecutive Fibonacci numbers, computed in a linear number of
/// steps so that concrete values are cheap to evaluate.
spec fn fib_pair(n: nat) -> (nat, nat)
    decreases n,
{
    if n == 0 {
        (0, 1)
    } else {
        let (x, y) = fib_pair((n - 1) as nat);
        (y, x + y)
    }
}

proof fn lemma_fib_pair(n: nat)
    ensures
        fib_pair(n).0 == fib(n),
        fib_pair(n).1 == fib(n + 1),
    decreases n,
{
    if n > 0 {
        lemma_fib_pair((n - 1) as nat);
    }
}

/// The Fibonacci function is (non-strictly) monotonic.
proof fn lemma_fib_monotonic(i: nat, j: nat)
    requires
        i <= j,
    ensures
        fib(i) <= fib(j),
    decreases j,
{
    if i < j && j >= 2 {
        lemma_fib_monotonic(i, (j - 1) as nat);
        assert(fib(j) == fib((j - 1) as nat) + fib((j - 2) as nat));
    } else if i < j {
        assert(j == 1 && i == 0);
    }
}

proof fn lemma_fib_pair_31()
    ensures
        fib_pair(31).0 == 1346269,
        fib_pair(31).1 == 2178309,
{
    reveal_with_fuel(fib_pair, 32);
}

proof fn lemma_fib_pair_62()
    ensures
        fib_pair(62).0 == 4052739537881,
        fib_pair(62).1 == 6557470319842,
{
    lemma_fib_pair_31();
    reveal_with_fuel(fib_pair, 32);
}

proof fn lemma_fib_93()
    ensures
        fib(93) == 12200160415121876738,
{
    lemma_fib_pair_62();
    reveal_with_fuel(fib_pair, 32);
    assert(fib_pair(93).0 == 12200160415121876738);
    lemma_fib_pair(93);
}

/// If i divides n and i * i <= n, then n / i is at least i, so i < n.
proof fn lemma_div_bound(n: nat, i: nat)
    requires
        n >= 3,
        i >= 3,
        i <= n / i,
        n % i == 0,
    ensures
        2 <= i < n,
{
    assert(n >= i * i) by (nonlinear_arith)
        requires
            i >= 3,
            i <= n / i,
            n % i == 0,
    ;
    assert(i * i > i) by (nonlinear_arith)
        requires
            i >= 3,
    ;
}

/// An odd number has no even divisors.
proof fn lemma_odd_skip(n: nat, e: nat)
    requires
        n % 2 != 0,
        e >= 2,
        e % 2 == 0,
    ensures
        n % e != 0,
{
    if n % e == 0 {
        let q = n / e;
        let h = e / 2;
        assert(n == e * q) by (nonlinear_arith)
            requires
                e >= 2,
                n % e == 0,
                q == n / e,
        ;
        assert(e == 2 * h) by (nonlinear_arith)
            requires
                e >= 2,
                e % 2 == 0,
                h == e / 2,
        ;
        assert(n == 2 * (h * q)) by (nonlinear_arith)
            requires
                n == e * q,
                e == 2 * h,
        ;
        assert(n % 2 == 0) by (nonlinear_arith)
            requires
                n == 2 * (h * q),
        ;
    }
}

/// Trial division is complete: if no d with 2 <= d < i divides n and
/// i * i > n, then n is prime.
proof fn lemma_no_small_divisor_prime(n: nat, i: nat)
    requires
        n >= 2,
        i >= 2,
        i > n / i,
        forall|d: nat| 2 <= d < i ==> #[trigger] (n % d) != 0,
    ensures
        is_prime(n),
{
    assert(i * i > n) by (nonlinear_arith)
        requires
            i >= 2,
            i > n / i,
    ;
    assert forall|d: nat| 2 <= d < n implies #[trigger] (n % d) != 0 by {
        if n % d == 0 {
            let q = n / d;
            assert(n == d * q) by (nonlinear_arith)
                requires
                    d >= 2,
                    n % d == 0,
                    q == n / d,
            ;
            assert(q >= 2) by (nonlinear_arith)
                requires
                    n == d * q,
                    2 <= d < n,
            ;
            if d < i {
                assert(n % d != 0);
            } else {
                assert(q < i) by (nonlinear_arith)
                    requires
                        n == d * q,
                        d >= i,
                        i * i > n,
                        q >= 2,
                        i >= 2,
                ;
                assert(n % q == 0) by (nonlinear_arith)
                    requires
                        n == d * q,
                        q >= 2,
                ;
                assert(n % q != 0);
            }
        }
    }
}

} // verus!
