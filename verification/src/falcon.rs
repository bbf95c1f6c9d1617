//! The advice-stack data that lets a Miden program check an RPO-Falcon512 signature:
//! the public key polynomial `h`, the signature polynomial `s2`, their product taken
//! over the integers, and the challenge point derived from all three by hashing.
use vstd::prelude::*;
use crate::field::{all_felts, felt_of, is_felt, hash_elements, reduce, rpo256_hash_elements};

verus! {

/// The degree bound of Falcon-512 polynomials: they have this many coefficients.
pub const N: usize = 512;

/// A polynomial over the base field, as its coefficients' canonical values, lowest
/// degree first.
pub struct Polynomial {
    pub coefficients: Vec<u64>,
}

impl Polynomial {
    /// Every coefficient is the canonical value of a field element.
    pub open spec fn well_formed(&self) -> bool {
        all_felts(self.coefficients@)
    }
}

/// The sum over `i < upto` of `a[i] * b[k - i]`, where only the terms with
/// `0 <= k - i < N` count: the first `upto` rows of the schoolbook product's
/// coefficient `k`.
pub open spec fn product_prefix(a: Seq<u64>, b: Seq<u64>, k: int, upto: int) -> int
    decreases upto,
{
    if upto <= 0 {
        0
    } else {
        product_prefix(a, b, k, upto - 1) + (if 0 <= k - (upto - 1) < N {
            a[upto - 1] * b[k - (upto - 1)]
        } else {
            0
        })
    }
}

/// Coefficient `k` of the product of the first `N` coefficients of `a` and of `b`, taken
/// over the integers (no reduction): the sum of `a[i] * b[j]` over `i + j == k`.
pub open spec fn product_coefficient(a: Seq<u64>, b: Seq<u64>, k: int) -> int {
    product_prefix(a, b, k, N as int)
}

/// No coefficient of the integer product of `a` and `b` exceeds `u64::MAX`.
pub open spec fn product_fits(a: Seq<u64>, b: Seq<u64>) -> bool {
    forall|k: int| 0 <= k < 2 * N ==> #[trigger] product_coefficient(a, b, k) <= u64::MAX
}

/// The terms of `product_prefix` are products of non-negative values, so the partial
/// sums grow with `upto`.
proof fn lemma_product_prefix_monotone(a: Seq<u64>, b: Seq<u64>, k: int, lo: int, hi: int)
    requires
        0 <= lo <= hi,
        a.len() >= N,
        hi <= N,
    ensures
        0 <= product_prefix(a, b, k, lo) <= product_prefix(a, b, k, hi),
    decreases hi - lo,
{
    if lo < hi {
        lemma_product_prefix_monotone(a, b, k, lo, hi - 1);
        if 0 <= k - (hi - 1) < N {
            let x = a[hi - 1];
            let y = b[k - (hi - 1)];
            assert(0 <= x * y) by (nonlinear_arith)
                requires
                    0 <= x,
                    0 <= y,
            ;
        }
    } else {
        lemma_product_prefix_nonneg(a, b, k, lo);
    }
}

proof fn lemma_product_prefix_nonneg(a: Seq<u64>, b: Seq<u64>, k: int, upto: int)
    ensures
        0 <= product_prefix(a, b, k, upto),
    decreases upto,
{
    if upto > 0 {
        lemma_product_prefix_nonneg(a, b, k, upto - 1);
        if 0 <= k - (upto - 1) < N {
            let x = a[upto - 1];
            let y = b[k - (upto - 1)];
            assert(0 <= x * y) by (nonlinear_arith)
                requires
                    0 <= x,
                    0 <= y,
            ;
        }
    }
}

/// The field elements laid out for the advice stack: `h`, then `s2`, then the `2 * N`
/// coefficients of their integer product, each reduced into the field.
pub open spec fn advice_polynomials(h: Seq<u64>, s2: Seq<u64>) -> Seq<u64> {
    h + s2 + Seq::new((2 * N) as nat, |k: int| felt_of(product_coefficient(h, s2, k) as u64))
}

/// The advice stack: the first two elements of the hash of the laid-out polynomials
/// (the challenge point), followed by the polynomials themselves.
pub open spec fn advice_stack(digest: Seq<u64>, polynomials: Seq<u64>) -> Seq<u64> {
    seq![digest[0], digest[1]] + polynomials
}

/// Appends the values of `src` to `dst`.
fn append_values(dst: &mut Vec<u64>, src: &Vec<u64>)
    requires
        old(dst).len() + src.len() <= usize::MAX,
    ensures
        final(dst)@ == old(dst)@ + src@,
{
    let mut i: usize = 0;
    while i < src.len()
        invariant
            i <= src.len(),
            dst@ == old(dst)@ + src@.subrange(0, i as int),
        decreases src.len() - i,
    {
        dst.push(src[i]);
        i = i + 1;
        assert(src@.subrange(0, i as int) == src@.subrange(0, (i - 1) as int).push(src@[i - 1]));
    }
    assert(src@.subrange(0, src.len() as int) == src@);
}

/// The coefficients of a polynomial as a vector of field elements.
fn to_elements(poly: &Polynomial) -> (elements: Vec<u64>)
    ensures
        elements@ == poly.coefficients@,
{
    let mut elements: Vec<u64> = Vec::new();
    append_values(&mut elements, &poly.coefficients);
    elements
}

/// Puts the challenge point, the first two elements of `digest`, in front of the
/// laid-out polynomials.
pub fn assemble_advice_stack(digest: [u64; 4], polynomials: &Vec<u64>) -> (stack: Vec<u64>)
    requires
        polynomials.len() + 2 <= usize::MAX,
    ensures
        stack@ == advice_stack(digest@, polynomials@),
{
    let mut stack: Vec<u64> = Vec::new();
    stack.push(digest[0]);
    stack.push(digest[1]);
    append_values(&mut stack, polynomials);
    stack
}

/// Lays out `h`, `s2` and their product `pi` (reduced into the field), hashes them and
/// puts the challenge point in front.
fn advice_stack_with_product(h: &Polynomial, s2: &Polynomial, pi: Vec<u64>) -> (stack: Vec<u64>)
    requires
        h.well_formed(),
        s2.well_formed(),
        h.coefficients.len() + s2.coefficients.len() + 2 * N + 2 <= usize::MAX,
        pi.len() == 2 * N,
        forall|m: int| 0 <= m < 2 * N ==> pi[m] == product_coefficient(h.coefficients@, s2.coefficients@, m),
    ensures
        stack@ == advice_stack(
            rpo256_hash_elements(advice_polynomials(h.coefficients@, s2.coefficients@)),
            advice_polynomials(h.coefficients@, s2.coefficients@),
        ),
{
    let mut polynomials = to_elements(h);
    append_values(&mut polynomials, &s2.coefficients);
    let ghost before = polynomials@;
    let mut k: usize = 0;
    while k < pi.len()
        invariant
            pi.len() == 2 * N,
            k <= pi.len(),
            forall|m: int| 0 <= m < 2 * N ==> pi[m] == product_coefficient(h.coefficients@, s2.coefficients@, m),
            before == h.coefficients@ + s2.coefficients@,
            before.len() + 2 * N + 2 <= usize::MAX,
            polynomials@ == before + Seq::new(k as nat, |m: int| felt_of(product_coefficient(h.coefficients@, s2.coefficients@, m) as u64)),
        decreases pi.len() - k,
    {
        let value = reduce(pi[k]);
        polynomials.push(value);
        k = k + 1;
        assert(Seq::new(k as nat, |m: int| felt_of(product_coefficient(h.coefficients@, s2.coefficients@, m) as u64))
            =~= Seq::new((k - 1) as nat, |m: int| felt_of(product_coefficient(h.coefficients@, s2.coefficients@, m) as u64)).push(value));
    }
    assert(polynomials@ =~= advice_polynomials(h.coefficients@, s2.coefficients@));
    assert(all_felts(polynomials@)) by {
        assert forall|m: int| 0 <= m < polynomials@.len() implies is_felt(#[trigger] polynomials@[m]) by {
            if m < h.coefficients.len() {
                assert(polynomials@[m] == h.coefficients@[m]);
            } else if m < h.coefficients.len() + s2.coefficients.len() {
                assert(polynomials@[m] == s2.coefficients@[m - h.coefficients.len()]);
            }
        }
    }
    let digest = hash_elements(&polynomials);
    assemble_advice_stack(digest, &polynomials)
}

/// The advice stack for `h` and `s2` is laid out as the checking program reads it: two
/// values, which are the first two elements of the RPO hash of all that follows them; then
/// `h` and `s2` unchanged; then coefficient `k` of their integer product, reduced into the
/// field, for each `k < 2 * N`.
pub proof fn lemma_advice_stack_layout(h: Seq<u64>, s2: Seq<u64>)
    ensures
        ({
            let stack = advice_stack(rpo256_hash_elements(advice_polynomials(h, s2)), advice_polynomials(h, s2));
            &&& stack.len() == 2 + h.len() + s2.len() + 2 * N
            &&& stack[0] == rpo256_hash_elements(stack.skip(2))[0]
            &&& stack[1] == rpo256_hash_elements(stack.skip(2))[1]
            &&& stack.subrange(2, 2int + h.len()) == h
            &&& stack.subrange(2int + h.len(), 2int + h.len() + s2.len()) == s2
            &&& forall|k: int| 0 <= k < 2 * N ==> #[trigger] stack[2 + h.len() + s2.len() + k] == felt_of(product_coefficient(h, s2, k) as u64)
        }),
{
    let polynomials = advice_polynomials(h, s2);
    let stack = advice_stack(rpo256_hash_elements(polynomials), polynomials);
    assert(stack.skip(2) =~= polynomials);
    assert(stack.subrange(2, 2int + h.len()) =~= h);
    assert(stack.subrange(2int + h.len(), 2int + h.len() + s2.len()) =~= s2);
    assert forall|k: int| 0 <= k < 2 * N implies #[trigger] stack[2 + h.len() + s2.len() + k] == felt_of(product_coefficient(h, s2, k) as u64) by {
        assert(stack[2 + h.len() + s2.len() + k] == polynomials[h.len() + s2.len() + k]);
    }
}

/// Builds the advice stack for checking the Falcon signature polynomial `s2` against the
/// public key polynomial `h`: the challenge point (the first two elements of the RPO hash
/// of `h`, `s2` and `h * s2`), then `h`, `s2` and the `2 * N` coefficients of `h * s2`
/// taken over the integers and reduced into the field.
pub fn generate_advice_stack_from_signature(h: Polynomial, s2: Polynomial) -> (stack: Vec<u64>)
    requires
        h.well_formed(),
        s2.well_formed(),
        h.coefficients.len() >= N,
        s2.coefficients.len() >= N,
        product_fits(h.coefficients@, s2.coefficients@),
        h.coefficients.len() + s2.coefficients.len() + 2 * N + 2 <= usize::MAX,
    ensures
        stack@ == advice_stack(
            rpo256_hash_elements(advice_polynomials(h.coefficients@, s2.coefficients@)),
            advice_polynomials(h.coefficients@, s2.coefficients@),
        ),
        stack@.len() == 2 + h.coefficients@.len() + s2.coefficients@.len() + 2 * N,
        stack@[0] == rpo256_hash_elements(stack@.skip(2))[0] && stack@[1] == rpo256_hash_elements(stack@.skip(2))[1],
        stack@.subrange(2, 2int + h.coefficients@.len()) == h.coefficients@,
        stack@.subrange(2int + h.coefficients@.len(), 2int + h.coefficients@.len() + s2.coefficients@.len()) == s2.coefficients@,
        forall|k: int| 0 <= k < 2 * N ==> #[trigger] stack@[2 + h.coefficients@.len() + s2.coefficients@.len() + k] == felt_of(product_coefficient(h.coefficients@, s2.coefficients@, k) as u64),
{
    proof {
        lemma_advice_stack_layout(h.coefficients@, s2.coefficients@);
    }
    match mul_modulo_p(&h, &s2) {
        Some(pi) => advice_stack_with_product(&h, &s2, pi),
        None => {
            assert(false);
            Vec::new()
        },
    }
}

/// Whether every value of `values` is the canonical value of a field element.
fn all_canonical(values: &Vec<u64>) -> (canonical: bool)
    ensures
        canonical == all_felts(values@),
{
    let mut i: usize = 0;
    while i < values.len()
        invariant
            i <= values.len(),
            forall|m: int| 0 <= m < i ==> is_felt(#[trigger] values@[m]),
        decreases values.len() - i,
    {
        if values[i] >= crate::field::FIELD_MODULUS {
            assert(!is_felt(values@[i as int]));
            return false;
        }
        i = i + 1;
    }
    true
}

/// Multiplies the first `N` coefficients of `a` by those of `b` as integer polynomials,
/// with no reduction, returning all `2 * N` coefficients of the product; `None` when one of
/// them exceeds `u64::MAX`.
fn mul_modulo_p(a: &Polynomial, b: &Polynomial) -> (c: Option<Vec<u64>>)
    requires
        a.coefficients.len() >= N,
        b.coefficients.len() >= N,
    ensures
        c is None <==> !product_fits(a.coefficients@, b.coefficients@),
        c matches Some(v) ==> v.len() == 2 * N && forall|k: int|
            0 <= k < 2 * N ==> v[k] == product_coefficient(a.coefficients@, b.coefficients@, k),
{
    let ghost av = a.coefficients@;
    let ghost bv = b.coefficients@;
    let mut c: Vec<u64> = Vec::new();
    let mut z: usize = 0;
    while z < 2 * N
        invariant
            z <= 2 * N,
            c.len() == z,
            forall|k: int| 0 <= k < z ==> c[k] == 0,
        decreases 2 * N - z,
    {
        c.push(0);
        z = z + 1;
    }
    let mut i: usize = 0;
    while i < N
        invariant
            i <= N,
            av == a.coefficients@,
            bv == b.coefficients@,
            av.len() >= N,
            bv.len() >= N,
            c.len() == 2 * N,
            forall|k: int| 0 <= k < 2 * N ==> #[trigger] c[k] == product_prefix(av, bv, k, i as int),
        decreases N - i,
    {
        let mut j: usize = 0;
        while j < N
            invariant
                i < N,
                j <= N,
                av == a.coefficients@,
                bv == b.coefficients@,
                av.len() >= N,
                bv.len() >= N,
                c.len() == 2 * N,
                forall|k: int|
                    0 <= k < 2 * N ==> #[trigger] c[k] == product_prefix(av, bv, k, i as int) + (
                    if i <= k < i + j {
                        av[i as int] * bv[k - i]
                    } else {
                        0
                    }),
            decreases N - j,
        {
            let k = i + j;
            proof {
                assert(product_prefix(av, bv, k as int, (i + 1) as int) == product_prefix(
                    av,
                    bv,
                    k as int,
                    i as int,
                ) + av[i as int] * bv[j as int]);
                lemma_product_prefix_monotone(av, bv, k as int, (i + 1) as int, N as int);
                lemma_product_prefix_nonneg(av, bv, k as int, i as int);
            }
            let term = match a.coefficients[i].checked_mul(b.coefficients[j]) {
                Some(t) => t,
                None => {
                    assert(!product_fits(av, bv)) by {
                        assert(product_coefficient(av, bv, k as int) > u64::MAX);
                    }
                    return None;
                },
            };
            let sum = match c[k].checked_add(term) {
                Some(s) => s,
                None => {
                    assert(!product_fits(av, bv)) by {
                        assert(product_coefficient(av, bv, k as int) > u64::MAX);
                    }
                    return None;
                },
            };
            c.set(k, sum);
            j = j + 1;
        }
        proof {
            assert forall|k: int| 0 <= k < 2 * N implies #[trigger] c[k] == product_prefix(
                av,
                bv,
                k,
                (i + 1) as int,
            ) by {
                assert(product_prefix(av, bv, k, (i + 1) as int) == product_prefix(av, bv, k, i as int)
                    + (if 0 <= k - i < N {
                    av[i as int] * bv[k - i]
                } else {
                    0
                }));
            }
        }
        i = i + 1;
    }
    assert(product_fits(av, bv)) by {
        assert forall|k: int| 0 <= k < 2 * N implies #[trigger] product_coefficient(av, bv, k) <= u64::MAX by {
            assert(c[k] == product_coefficient(av, bv, k));
        }
    }
    Some(c)
}

/// The advice stack of `generate_advice_stack_from_signature`, or `None` on the inputs
/// that function does not take: a polynomial with fewer than `N` coefficients, a
/// coefficient that is not a canonical field element, a product coefficient above
/// `u64::MAX`, or vectors too long to lay out.
pub fn try_generate_advice_stack_from_signature(h: Polynomial, s2: Polynomial) -> (stack: Option<Vec<u64>>)
    ensures
        stack is Some <==> (h.well_formed() && s2.well_formed() && h.coefficients.len() >= N
            && s2.coefficients.len() >= N && product_fits(h.coefficients@, s2.coefficients@)
            && h.coefficients.len() + s2.coefficients.len() + 2 * N + 2 <= usize::MAX),
        stack matches Some(s) ==> s@ == advice_stack(
            rpo256_hash_elements(advice_polynomials(h.coefficients@, s2.coefficients@)),
            advice_polynomials(h.coefficients@, s2.coefficients@),
        ),
        stack matches Some(s) ==> s@.len() == 2 + h.coefficients@.len() + s2.coefficients@.len() + 2 * N,
        stack matches Some(s) ==> s@[0] == rpo256_hash_elements(s@.skip(2))[0] && s@[1] == rpo256_hash_elements(s@.skip(2))[1],
        stack matches Some(s) ==> s@.subrange(2, 2int + h.coefficients@.len()) == h.coefficients@,
        stack matches Some(s) ==> s@.subrange(2int + h.coefficients@.len(), 2int + h.coefficients@.len() + s2.coefficients@.len()) == s2.coefficients@,
        stack matches Some(s) ==> forall|k: int| 0 <= k < 2 * N ==> #[trigger] s@[2 + h.coefficients@.len() + s2.coefficients@.len() + k] == felt_of(product_coefficient(h.coefficients@, s2.coefficients@, k) as u64),
{
    proof {
        lemma_advice_stack_layout(h.coefficients@, s2.coefficients@);
    }
    if h.coefficients.len() < N || s2.coefficients.len() < N {
        return None;
    }
    if s2.coefficients.len() > usize::MAX - 2 * N - 2
        || h.coefficients.len() > usize::MAX - 2 * N - 2 - s2.coefficients.len() {
        return None;
    }
    if !all_canonical(&h.coefficients) || !all_canonical(&s2.coefficients) {
        return None;
    }
    match mul_modulo_p(&h, &s2) {
        Some(pi) => Some(advice_stack_with_product(&h, &s2, pi)),
        None => None,
    }
}

} // verus!
