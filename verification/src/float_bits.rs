//! The `f32` that an unsigned integer converts to, as a bit pattern.

use vstd::prelude::*;

verus! {

/// Two to the power `k`.
pub open spec fn two_pow(k: nat) -> nat
    decreases k,
{
    if k == 0 {
        1
    } else {
        2 * two_pow((k - 1) as nat)
    }
}

/// The position of the highest set bit of `n` (0 for 0 and 1).
pub open spec fn floor_log2(n: nat) -> nat
    decreases n,
{
    if n < 2 {
        0
    } else {
        1 + floor_log2(n / 2)
    }
}

/// The bit pattern of `n as f32`: the nearest `f32`, ties to the even
/// significand. With `e` the position of the highest set bit, numbers up to
/// 2²⁴ are exact; above that the significand is `n` shifted right by
/// `e - 23` and rounded, and may carry into the next exponent.
pub open spec fn u32_as_f32(n: u32) -> u32 {
    if n == 0 {
        0
    } else {
        let e = floor_log2(n as nat);
        if e <= 23 {
            ((e + 127) * 0x80_0000 + (n * two_pow((23 - e) as nat) - 0x80_0000)) as u32
        } else {
            let s = (e - 23) as nat;
            let q = (n as nat) / two_pow(s);
            let r = (n as nat) % two_pow(s);
            let half = two_pow((s - 1) as nat);
            let q2: nat = if r > half || (r == half && q % 2 == 1) {
                q + 1
            } else {
                q
            };
            if q2 == 0x100_0000 {
                ((e + 128) * 0x80_0000) as u32
            } else {
                ((e + 127) * 0x80_0000 + (q2 - 0x80_0000)) as u32
            }
        }
    }
}

proof fn lemma_two_pow_values()
    ensures
        two_pow(0) == 1,
        two_pow(1) == 2,
        two_pow(23) == 0x80_0000,
        two_pow(31) == 0x8000_0000,
        two_pow(32) == 0x1_0000_0000,
{
    reveal_with_fuel(two_pow, 33);
}

proof fn lemma_two_pow_pos(k: nat)
    ensures
        two_pow(k) >= 1,
    decreases k,
{
    if k > 0 {
        lemma_two_pow_pos((k - 1) as nat);
    }
}

proof fn lemma_two_pow_add(a: nat, b: nat)
    ensures
        two_pow(a + b) == two_pow(a) * two_pow(b),
    decreases a,
{
    if a > 0 {
        let a1 = (a - 1) as nat;
        lemma_two_pow_add(a1, b);
        let x = two_pow(a1);
        let y = two_pow(b);
        assert(two_pow(a) == 2 * x);
        assert(a1 + b + 1 == a + b);
        assert(two_pow(a1 + b + 1) == 2 * two_pow(a1 + b));
        assert(two_pow(a + b) == 2 * (x * y));
        assert(2 * (x * y) == (2 * x) * y) by (nonlinear_arith);
    } else {
        assert(two_pow(0) == 1);
        assert(a + b == b);
    }
}

proof fn lemma_two_pow_mono(a: nat, b: nat)
    requires
        a <= b,
    ensures
        two_pow(a) <= two_pow(b),
{
    lemma_two_pow_add(a, (b - a) as nat);
    lemma_two_pow_pos((b - a) as nat);
    lemma_two_pow_pos(a);
    assert(two_pow(a) * 1 <= two_pow(a) * two_pow((b - a) as nat)) by (nonlinear_arith)
        requires
            two_pow((b - a) as nat) >= 1,
    ;
}

/// `2^e * 2^(23 - e) == 2^23` for `e <= 23`.
proof fn lemma_split23(e: nat)
    requires
        e <= 23,
    ensures
        two_pow((23 - e) as nat) * two_pow(e) == 0x80_0000,
{
    lemma_two_pow_add(e, (23 - e) as nat);
    assert(e + (23 - e) as nat == 23);
    lemma_two_pow_values();
    let x = two_pow(e);
    let y = two_pow((23 - e) as nat);
    assert(y * x == x * y) by (nonlinear_arith);
}

/// `2^floor_log2(n) < 2^(floor_log2(n) + 1)` for `n >= 1`.
proof fn lemma_log2_bounds(n: nat)
    requires
        n >= 1,
    ensures
        two_pow(floor_log2(n)) <= n < 2 * two_pow(floor_log2(n)),
    decreases n,
{
    if n >= 2 {
        lemma_log2_bounds(n / 2);
        assert(floor_log2(n) == 1 + floor_log2(n / 2));
        assert(two_pow(floor_log2(n)) == 2 * two_pow(floor_log2(n / 2)));
    }
}

/// `2^k` for `k <= 31`.
fn two_pow_exec(k: u32) -> (r: u32)
    requires
        k <= 31,
    ensures
        r as nat == two_pow(k as nat),
{
    let mut r: u32 = 1;
    let mut i: u32 = 0;
    while i < k
        invariant
            i <= k <= 31,
            r as nat == two_pow(i as nat),
        decreases k - i,
    {
        proof {
            lemma_two_pow_mono((i + 1) as nat, 31);
            lemma_two_pow_values();
            assert(two_pow((i + 1) as nat) == 2 * two_pow(i as nat));
        }
        r = r * 2;
        i = i + 1;
    }
    r
}

/// The position of the highest set bit of `n`.
fn floor_log2_exec(n: u32) -> (e: u32)
    ensures
        e as nat == floor_log2(n as nat),
        e <= 31,
{
    proof {
        lemma_log2_u32(n);
    }
    let mut e: u32 = 0;
    let mut m: u32 = n;
    while m >= 2
        invariant
            m <= n,
            floor_log2(n as nat) == e + floor_log2(m as nat),
            e + floor_log2(m as nat) <= 31,
        decreases m,
    {
        assert(floor_log2(m as nat) == 1 + floor_log2((m / 2) as nat));
        m = m / 2;
        e = e + 1;
    }
    assert(floor_log2(m as nat) == 0);
    e
}

/// `floor_log2(n) <= 31` for a `u32`.
proof fn lemma_log2_u32(n: u32)
    ensures
        floor_log2(n as nat) <= 31,
{
    if n >= 1 {
        lemma_log2_bounds(n as nat);
        lemma_two_pow_values();
        if floor_log2(n as nat) >= 32 {
            lemma_two_pow_mono(32, floor_log2(n as nat));
        }
    } else {
        assert(floor_log2(0) == 0);
    }
}

/// The bit pattern of `n as f32`, see [`u32_as_f32`].
pub fn u32_as_f32_bits(n: u32) -> (r: u32)
    ensures
        r == u32_as_f32(n),
{
    if n == 0 {
        return 0;
    }
    proof {
        lemma_log2_u32(n);
        lemma_log2_bounds(n as nat);
        lemma_two_pow_values();
    }
    let e = floor_log2_exec(n);
    let p = two_pow_exec(e);
    assert(p as nat <= n && (n as nat) < 2 * p);
    if e <= 23 {
        let f = two_pow_exec(23 - e);
        proof {
            lemma_split23(e as nat);
        }
        assert(f as nat * p == 0x80_0000);
        assert(f as nat * n < 0x100_0000 && f as nat * n >= 0x80_0000) by (nonlinear_arith)
            requires
                f * p == 0x80_0000,
                p <= n,
                n < 2 * p,
        ;
        ((e + 127) * 0x80_0000) + (n * f - 0x80_0000)
    } else {
        let s = e - 23;
        let d = two_pow_exec(s);
        proof {
            lemma_two_pow_add(s as nat, 23);
            lemma_two_pow_pos(s as nat);
            assert(two_pow(s as nat) == 2 * two_pow((s - 1) as nat));
        }
        assert(p as nat == d as nat * 0x80_0000);
        let q = n / d;
        let r = n % d;
        let half = d / 2;
        assert(half as nat == two_pow((s - 1) as nat));
        assert(q >= 0x80_0000 && q < 0x100_0000) by (nonlinear_arith)
            requires
                d > 0,
                q == n / d,
                d * 0x80_0000 <= n,
                n < 2 * (d * 0x80_0000),
        ;
        let up = r > half || (r == half && q % 2 == 1);
        let q2 = if up {
            q + 1
        } else {
            q
        };
        if q2 == 0x100_0000 {
            (e + 128) * 0x80_0000
        } else {
            (e + 127) * 0x80_0000 + (q2 - 0x80_0000)
        }
    }
}

} // verus!
