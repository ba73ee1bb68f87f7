use vstd::prelude::*;

verus! {

#[verifier::external_type_specification]
#[verifier::external_body]
pub struct ExBigInt(num_bigint::BigInt);

/// The integer a `BigInt` holds.
pub uninterp spec fn big_value(b: num_bigint::BigInt) -> int;

/// Division truncated toward zero, the rounding big integers divide with.
pub open spec fn trunc_div(a: int, b: int) -> int {
    if a >= 0 {
        if b >= 0 {
            a / b
        } else {
            -(a / -b)
        }
    } else {
        if b >= 0 {
            -(-a / b)
        } else {
            -a / -b
        }
    }
}

/// The remainder left by `trunc_div`; its sign follows the dividend.
pub open spec fn trunc_rem(a: int, b: int) -> int {
    a - b * trunc_div(a, b)
}

/// A byte string read as a big-endian base-256 integer.
pub open spec fn be_value(s: Seq<u8>) -> int
    decreases s.len(),
{
    if s.len() == 0 {
        0
    } else {
        be_value(s.drop_last()) * 256 + s.last()
    }
}

/// Relies on `BigInt::from(u64)`: the converted integer keeps its value.
#[verifier::external_body]
pub fn big_from_u64(v: u64) -> (r: num_bigint::BigInt)
    ensures
        big_value(r) == v,
{
    num_bigint::BigInt::from(v)
}

/// Relies on `BigInt::from(i64)`: the converted integer keeps its value.
#[verifier::external_body]
pub fn big_from_i64(v: i64) -> (r: num_bigint::BigInt)
    ensures
        big_value(r) == v,
{
    num_bigint::BigInt::from(v)
}

/// Relies on `Add` for `&BigInt`: the sum of the two values.
#[verifier::external_body]
pub fn big_add(a: &num_bigint::BigInt, b: &num_bigint::BigInt) -> (r: num_bigint::BigInt)
    ensures
        big_value(r) == big_value(*a) + big_value(*b),
{
    a + b
}

/// Relies on `Sub` for `&BigInt`: the difference of the two values.
#[verifier::external_body]
pub fn big_sub(a: &num_bigint::BigInt, b: &num_bigint::BigInt) -> (r: num_bigint::BigInt)
    ensures
        big_value(r) == big_value(*a) - big_value(*b),
{
    a - b
}

/// Relies on `Mul` for `&BigInt`: the product of the two values.
#[verifier::external_body]
pub fn big_mul(a: &num_bigint::BigInt, b: &num_bigint::BigInt) -> (r: num_bigint::BigInt)
    ensures
        big_value(r) == big_value(*a) * big_value(*b),
{
    a * b
}

/// Relies on `Div` for `&BigInt`: division truncated toward zero.
#[verifier::external_body]
pub fn big_div(a: &num_bigint::BigInt, b: &num_bigint::BigInt) -> (r: num_bigint::BigInt)
    requires
        big_value(*b) != 0,
    ensures
        big_value(r) == trunc_div(big_value(*a), big_value(*b)),
{
    a / b
}

/// Relies on `Rem` for `&BigInt`: the remainder of truncated division.
#[verifier::external_body]
pub fn big_rem(a: &num_bigint::BigInt, b: &num_bigint::BigInt) -> (r: num_bigint::BigInt)
    requires
        big_value(*b) != 0,
    ensures
        big_value(r) == trunc_rem(big_value(*a), big_value(*b)),
{
    a % b
}

/// Relies on `PartialOrd` for `BigInt`: order of the two values.
#[verifier::external_body]
pub fn big_lt(a: &num_bigint::BigInt, b: &num_bigint::BigInt) -> (r: bool)
    ensures
        r == (big_value(*a) < big_value(*b)),
{
    a < b
}

/// Relies on `PartialOrd` for `BigInt`: order of the two values.
#[verifier::external_body]
pub fn big_le(a: &num_bigint::BigInt, b: &num_bigint::BigInt) -> (r: bool)
    ensures
        r == (big_value(*a) <= big_value(*b)),
{
    a <= b
}

/// Relies on `PartialEq` for `BigInt`: equality of the two values.
#[verifier::external_body]
pub fn big_eq(a: &num_bigint::BigInt, b: &num_bigint::BigInt) -> (r: bool)
    ensures
        r == (big_value(*a) == big_value(*b)),
{
    a == b
}

/// Relies on `num_traits::Zero::is_zero`: whether the value is zero.
#[verifier::external_body]
pub fn big_is_zero(a: &num_bigint::BigInt) -> (r: bool)
    ensures
        r == (big_value(*a) == 0),
{
    num_traits::Zero::is_zero(a)
}

/// Relies on `BigInt::clone`: the copy keeps the value.
#[verifier::external_body]
pub fn big_clone(a: &num_bigint::BigInt) -> (r: num_bigint::BigInt)
    ensures
        big_value(r) == big_value(*a),
{
    a.clone()
}

/// Relies on `num_traits::ToPrimitive::to_u64`: a value within `u64`
/// converts to itself.
#[verifier::external_body]
pub fn big_to_u64(a: &num_bigint::BigInt) -> (r: u64)
    requires
        0 <= big_value(*a) < 0x1_0000_0000_0000_0000,
    ensures
        r as int == big_value(*a),
{
    num_traits::ToPrimitive::to_u64(a).unwrap()
}

/// Relies on `num_traits::ToPrimitive::to_i64`: a value within `i64`
/// converts to itself.
#[verifier::external_body]
pub fn big_to_i64(a: &num_bigint::BigInt) -> (r: i64)
    requires
        -0x8000_0000_0000_0000 <= big_value(*a) < 0x8000_0000_0000_0000,
    ensures
        r as int == big_value(*a),
{
    num_traits::ToPrimitive::to_i64(a).unwrap()
}

/// Relies on `BigInt::to_bytes_be`: a positive value yields its minimal
/// big-endian bytes (never empty, no leading zero) under a positive sign;
/// zero and negative values are reported as not positive.
#[verifier::external_body]
pub fn big_to_bytes_be(a: &num_bigint::BigInt) -> (r: (bool, Vec<u8>))
    ensures
        r.0 == (big_value(*a) > 0),
        r.0 ==> r.1@.len() > 0 && r.1@[0] != 0 && be_value(r.1@) == big_value(*a),
{
    let (sign, digits) = a.to_bytes_be();
    match sign {
        num_bigint::Sign::Plus => (true, digits),
        _ => (false, digits),
    }
}

/// Two hundred and fifty-six raised to `n`.
pub open spec fn pow256(n: nat) -> int
    decreases n,
{
    if n == 0 {
        1
    } else {
        256 * pow256((n - 1) as nat)
    }
}

/// Powers of the byte base are positive and grow with the exponent.
pub proof fn lemma_pow256_increases(a: nat, b: nat)
    requires
        a <= b,
    ensures
        1 <= pow256(a) <= pow256(b),
    decreases b - a,
{
    if a == b {
        lemma_pow256_pos(a);
    } else {
        lemma_pow256_increases(a, (b - 1) as nat);
    }
}

/// Powers of the byte base are positive.
pub proof fn lemma_pow256_pos(n: nat)
    ensures
        pow256(n) >= 1,
    decreases n,
{
    if n > 0 {
        lemma_pow256_pos((n - 1) as nat);
    }
}

/// A byte string's value is nonnegative and below the base to its length;
/// with a nonzero leading byte it reaches the base to one less.
pub proof fn lemma_be_value_bounds(s: Seq<u8>)
    ensures
        0 <= be_value(s) < pow256(s.len()),
        s.len() > 0 && s[0] != 0 ==> be_value(s) >= pow256((s.len() - 1) as nat),
    decreases s.len(),
{
    if s.len() > 0 {
        let d = s.drop_last();
        lemma_be_value_bounds(d);
        assert(be_value(s) == be_value(d) * 256 + s.last());
        assert(be_value(d) * 256 <= (pow256(d.len()) - 1) * 256) by (nonlinear_arith)
            requires
                be_value(d) <= pow256(d.len()) - 1,
        ;
        if s.len() > 1 && s[0] != 0 {
            assert(d[0] == s[0]);
            assert(be_value(d) * 256 >= pow256((d.len() - 1) as nat) * 256) by (nonlinear_arith)
                requires
                    be_value(d) >= pow256((d.len() - 1) as nat),
            ;
        }
    }
}

/// Two nonempty byte strings without leading zeros that stand for the same
/// value are the same string.
pub proof fn lemma_be_value_injective(x: Seq<u8>, y: Seq<u8>)
    requires
        x.len() > 0,
        y.len() > 0,
        x[0] != 0,
        y[0] != 0,
        be_value(x) == be_value(y),
    ensures
        x == y,
    decreases x.len(),
{
    lemma_be_value_bounds(x);
    lemma_be_value_bounds(y);
    if x.len() < y.len() {
        lemma_pow256_increases(x.len(), (y.len() - 1) as nat);
        assert(false);
    } else if y.len() < x.len() {
        lemma_pow256_increases(y.len(), (x.len() - 1) as nat);
        assert(false);
    } else if x.len() == 1 {
        assert(x =~= y);
    } else {
        let dx = x.drop_last();
        let dy = y.drop_last();
        assert(be_value(x) == be_value(dx) * 256 + x.last());
        assert(be_value(y) == be_value(dy) * 256 + y.last());
        assert(be_value(dx) == be_value(dy) && x.last() == y.last()) by (nonlinear_arith)
            requires
                be_value(dx) * 256 + x.last() == be_value(dy) * 256 + y.last(),
                0 <= x.last() < 256,
                0 <= y.last() < 256,
        ;
        assert(dx[0] == x[0]);
        assert(dy[0] == y[0]);
        lemma_be_value_injective(dx, dy);
        assert forall|i: int| 0 <= i < x.len() implies x[i] == y[i] by {
            if i < x.len() - 1 {
                assert(x[i] == dx[i]);
                assert(y[i] == dy[i]);
            } else {
                assert(x[i] == x.last());
                assert(y[i] == y.last());
            }
        }
        assert(x =~= y);
    }
}

/// Two raised to `n`.
pub open spec fn two_pow(n: nat) -> int
    decreases n,
{
    if n == 0 {
        1
    } else {
        2 * two_pow((n - 1) as nat)
    }
}

/// The field's modulus.
pub open spec fn prime() -> int {
    two_pow(251) + 17 * two_pow(192) + 1
}

/// Two to any power is positive.
pub proof fn lemma_two_pow_pos(n: nat)
    ensures
        two_pow(n) >= 1,
    decreases n,
{
    if n > 0 {
        lemma_two_pow_pos((n - 1) as nat);
    }
}

/// Zero and one are already reduced below the modulus.
pub proof fn lemma_small_mod_prime()
    ensures
        prime() > 2,
        0int % prime() == 0,
        1int % prime() == 1,
{
    lemma_two_pow_pos(251);
    lemma_two_pow_pos(192);
    vstd::arithmetic::div_mod::lemma_small_mod(0, prime() as nat);
    vstd::arithmetic::div_mod::lemma_small_mod(1, prime() as nat);
}

/// Builds the field's modulus by repeated doubling.
pub fn get_prime() -> (r: num_bigint::BigInt)
    ensures
        big_value(r) == prime(),
{
    let mut cur: num_bigint::BigInt = big_from_u64(1);
    let mut i: usize = 0;
    while i < 192
        invariant
            i <= 192,
            big_value(cur) == two_pow(i as nat),
        decreases 192 - i,
    {
        cur = big_add(&cur, &cur);
        i += 1;
    }
    let p192: num_bigint::BigInt = big_clone(&cur);
    while i < 251
        invariant
            192 <= i <= 251,
            big_value(cur) == two_pow(i as nat),
            big_value(p192) == two_pow(192),
        decreases 251 - i,
    {
        cur = big_add(&cur, &cur);
        i += 1;
    }
    let seventeen: num_bigint::BigInt = big_from_u64(17);
    let one: num_bigint::BigInt = big_from_u64(1);
    let t: num_bigint::BigInt = big_mul(&seventeen, &p192);
    let s: num_bigint::BigInt = big_add(&cur, &t);
    big_add(&s, &one)
}

} // verus!
