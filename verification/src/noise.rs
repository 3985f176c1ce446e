//! The integer side of the terrain noise: the lattice hash, the domain offsets that a seed
//! stands for, and noise samples as integers that keep their order.

use vstd::prelude::*;

verus! {

/// `v` reduced to 32 bits, read as a signed integer.
pub open spec fn wrap(v: int) -> i32 {
    if v % 0x1_0000_0000 >= 0x8000_0000 {
        (v % 0x1_0000_0000 - 0x1_0000_0000) as i32
    } else {
        (v % 0x1_0000_0000) as i32
    }
}

/// `v` reduced to 32 bits.
pub open spec fn low_word(v: int) -> u32 {
    (v % 0x1_0000_0000) as u32
}

/// A word with its upper half folded into its lower one.
pub open spec fn folded(word: u32) -> u32 {
    word ^ (word >> 16)
}

/// The factor of the first coordinate in the sum that the hash begins with.
pub const X_FACTOR: i32 = 1_619;

/// The factor of the second coordinate: 31 337 in the upper half of the word. The coordinates of two
/// different points cannot cancel in the sum, unless they lie 16 bits or more apart.
pub const Z_FACTOR: i32 = 0x7A69_0000;

/// The word that a sum of coordinates is scrambled to.
pub open spec fn scrambled(sum: int) -> u32 {
    let mixed = wrap(sum);
    folded(low_word(-1_640_531_527 * (mixed ^ (mixed >> 13))))
}

/// The word that the lattice point `(x, z)` hashes to.
pub open spec fn hash_spec(x: i32, z: i32) -> u32 {
    scrambled(X_FACTOR * x + Z_FACTOR * z)
}

/// Deterministic hash of two integers.
///
/// The noise value of a lattice point is this word divided by `u32::MAX`, a number between zero
/// and one. The last fold works on the unsigned word, so both halves of the range are reached.
pub fn hash(x: i32, z: i32) -> (h: u32)
    ensures
        h == hash_spec(x, z),
{
    let a: i32 = x.wrapping_mul(X_FACTOR);
    let b: i32 = z.wrapping_mul(Z_FACTOR);
    let h: i32 = a.wrapping_add(b);
    assert(h == wrap(X_FACTOR * x + Z_FACTOR * z)) by {
        assert(a == wrap(X_FACTOR * x));
        assert(b == wrap(Z_FACTOR * z));
        assert(h == wrap(a + b));
        lemma_wrapped_sum(X_FACTOR * x, Z_FACTOR * z);
    }
    let g: i32 = (h ^ (h >> 13)).wrapping_mul(-1_640_531_527);
    assert(g == wrap(-1_640_531_527 * (h ^ (h >> 13))));
    let word: u32 = g as u32;
    assert(g as u32 == if g < 0 {
        g + 0x1_0000_0000
    } else {
        g as int
    }) by (bit_vector);
    word ^ (word >> 16)
}

proof fn lemma_wrapped_sum(u: int, v: int)
    ensures
        wrap(wrap(u) + wrap(v)) == wrap(u + v),
{
}

/// The hash can be undone: folding a point's word once more and multiplying by the inverse of the
/// multiplier gives back the point's sum of coordinates, folded the way the hash folds it.
pub proof fn law_hash_can_be_undone(x: i32, z: i32, sum: i32)
    requires
        (sum - (1_619 * x + 65_536 * 31_337 * z)) % 0x1_0000_0000 == 0,
    ensures
        (340_573_321 * (hash_spec(x, z) ^ (hash_spec(x, z) >> 16))) % 0x1_0000_0000 == (sum ^ (sum
            >> 13)) as int,
{
    let exact = X_FACTOR * x + Z_FACTOR * z;
    assert(65_536 * 31_337 * z == Z_FACTOR * z);
    assert(sum == wrap(exact));
    let p = sum ^ (sum >> 13);
    assert(sum ^ (sum >> 13) >= 0) by (bit_vector);
    let w = low_word(-1_640_531_527 * p);
    let h = hash_spec(x, z);
    assert(h == w ^ (w >> 16));
    assert(h ^ (h >> 16) == w) by (bit_vector)
        requires
            h == w ^ (w >> 16),
    ;
    let c = (-1_640_531_527 * p) / 0x1_0000_0000;
    assert(w == -1_640_531_527 * p - 0x1_0000_0000 * c);
    assert(340_573_321 * w == p + 0x1_0000_0000 * (-130_087_433 * p - 340_573_321 * c));
}

/// The offsets by which a seed shifts the noise domain along the two axes.
pub fn domain_offsets(seed: u32) -> (offsets: (u32, u32))
    ensures
        offsets.0 == seed % 0x1_0000,
        offsets.1 == seed / 0x1_0000,
        offsets.0 < 0x1_0000,
        offsets.0 + 0x1_0000 * offsets.1 == seed,
{
    assert(seed & 0xFFFF == seed % 0x1_0000) by (bit_vector);
    assert(seed >> 16 == seed / 0x1_0000) by (bit_vector);
    (seed & 0xFFFF, seed >> 16)
}

/// Different seeds shift the noise domain differently.
pub proof fn law_seeds_shift_apart(a: u32, b: u32)
    requires
        a % 0x1_0000 == b % 0x1_0000,
        a / 0x1_0000 == b / 0x1_0000,
    ensures
        a == b,
{
}

/// The word of the lattice point `(x, z)` in the noise domain of a seed.
pub open spec fn seeded_word(seed: u32, x: int, z: int) -> u32 {
    hash_spec((x + seed % 0x1_0000) as i32, (z + seed / 0x1_0000) as i32)
}

/// The point and its neighbour along the first axis can be shifted by any seed.
pub open spec fn can_be_shifted(x: int, z: int) -> bool {
    &&& i32::MIN <= x
    &&& x + 0x1_0000 <= i32::MAX
    &&& i32::MIN <= z
    &&& z + 0xFFFF <= i32::MAX
}

/// Every seed gives noise of its own: under two different seeds, of any two neighbouring lattice
/// points at least one has another word.
pub proof fn law_seeds_give_other_noise(a: u32, b: u32, x: int, z: int)
    requires
        a != b,
        can_be_shifted(x, z),
    ensures
        seeded_word(a, x, z) != seeded_word(b, x, z) || seeded_word(a, x + 1, z) != seeded_word(
            b,
            x + 1,
            z,
        ),
{
    let ma = X_FACTOR * (x + a % 0x1_0000) + Z_FACTOR * (z + a / 0x1_0000);
    let mb = X_FACTOR * (x + b % 0x1_0000) + Z_FACTOR * (z + b / 0x1_0000);
    let dx = a % 0x1_0000 - b % 0x1_0000;
    let dz = a / 0x1_0000 - b / 0x1_0000;
    assert(ma - mb == X_FACTOR * dx + Z_FACTOR * dz);
    assert(seeded_word(a, x, z) == scrambled(ma));
    assert(seeded_word(b, x, z) == scrambled(mb));
    assert(seeded_word(a, x + 1, z) == scrambled(ma + 1_619));
    assert(seeded_word(b, x + 1, z) == scrambled(mb + 1_619));
    if scrambled(ma) == scrambled(mb) && scrambled(ma + 1_619) == scrambled(mb + 1_619) {
        lemma_equal_neighbours(ma, mb);
        lemma_shifts_do_not_cancel(dx, dz);
    }
}

/// Sums that hash alike, and still do one step further, are equal modulo the range of a word.
proof fn lemma_equal_neighbours(u: int, v: int)
    requires
        scrambled(u) == scrambled(v),
        scrambled(u + 1_619) == scrambled(v + 1_619),
    ensures
        (u - v) % 0x1_0000_0000 == 0,
{
    lemma_equal_words(u, v);
    lemma_equal_words(u + 1_619, v + 1_619);
}

/// The sum that the hash begins with tells apart all points less than 16 bits apart.
proof fn lemma_shifts_do_not_cancel(dx: int, dz: int)
    requires
        -0x1_0000 < dx < 0x1_0000,
        -0x1_0000 < dz < 0x1_0000,
        (X_FACTOR * dx + Z_FACTOR * dz) % 0x1_0000_0000 == 0,
    ensures
        dx == 0,
        dz == 0,
{
    let c = (X_FACTOR * dx + Z_FACTOR * dz) / 0x1_0000_0000;
    assert(1_619 * dx == 0x1_0000 * (0x1_0000 * c - 31_337 * dz));
    // Both factors have an inverse modulo 16 bits.
    assert(dx == 0x1_0000 * (11_739 * (0x1_0000 * c - 31_337 * dz) - 290 * dx));
    assert(31_337 * dz == 0x1_0000 * c);
    assert(dz == 0x1_0000 * (46_553 * c - 22_260 * dz));
}

/// Sums that hash alike are equal or complementary, modulo the range of a word.
proof fn lemma_equal_words(u: int, v: int)
    requires
        scrambled(u) == scrambled(v),
    ensures
        (u - v) % 0x1_0000_0000 == 0 || (u + v + 1) % 0x1_0000_0000 == 0,
{
    let m = wrap(u);
    let n = wrap(v);
    let p = m ^ (m >> 13);
    let q = n ^ (n >> 13);
    let s = low_word(-1_640_531_527 * p);
    let t = low_word(-1_640_531_527 * q);
    assert(s == t) by (bit_vector)
        requires
            s ^ (s >> 16) == t ^ (t >> 16),
    ;
    assert(p == q) by {
        let d = p - q;
        let c = (-1_640_531_527 * p) / 0x1_0000_0000 - (-1_640_531_527 * q) / 0x1_0000_0000;
        assert(-1_640_531_527 * d == 0x1_0000_0000 * c);
        // The multiplier has an inverse modulo the range of a word.
        assert(d == 0x1_0000_0000 * (340_573_321 * c + 130_087_433 * d));
    }
    assert(m == n || m == !n) by (bit_vector)
        requires
            m ^ (m >> 13) == n ^ (n >> 13),
    ;
    assert(!n == -1 - n) by (bit_vector);
}

/// The word of the number one; samples lie between zero and it.
pub const SAMPLE_ONE: u32 = 0x3F80_0000;

/// The value of a non-negative single-precision word, in units of its smallest step
/// (two to the power of -149).
pub open spec fn word_value(bits: u32) -> nat {
    let exponent = bits / 0x80_0000;
    let fraction = bits % 0x80_0000;
    if exponent == 0 {
        fraction as nat
    } else {
        ((0x80_0000 + fraction) * vstd::arithmetic::power2::pow2((exponent - 1) as nat)) as nat
    }
}

/// Small words count the smallest steps; from there on, each step of the exponent doubles the value.
pub proof fn law_word_doubles(bits: u32)
    requires
        bits <= 0x7F00_0000,
    ensures
        bits <= 0x100_0000 ==> word_value(bits) == bits,
        bits >= 0x80_0000 ==> word_value((bits + 0x80_0000) as u32) == 2 * word_value(bits),
{
    let e = (bits / 0x80_0000) as int;
    let f = (bits % 0x80_0000) as int;
    vstd::arithmetic::power2::lemma2_to64();
    if bits >= 0x80_0000 {
        let p = vstd::arithmetic::power2::pow2((e - 1) as nat) as int;
        vstd::arithmetic::power2::lemma_pow2_unfold(e as nat);
        assert((0x80_0000 + f) * (2 * p) == 2 * ((0x80_0000 + f) * p)) by (nonlinear_arith);
        if bits <= 0x100_0000 {
            assert(p == e);
            assert((0x80_0000 + f) * p == if p == 1 {
                0x80_0000 + f
            } else {
                2 * (0x80_0000 + f)
            }) by (nonlinear_arith)
                requires
                    p == 1 || p == 2,
            ;
        }
    }
}

/// The word of the number one stands for one.
pub proof fn law_one()
    ensures
        word_value(SAMPLE_ONE) == vstd::arithmetic::power2::pow2(149),
{
    vstd::arithmetic::power2::lemma_pow2_adds(126, 23);
    vstd::arithmetic::power2::lemma2_to64();
    assert(vstd::arithmetic::power2::pow2(23) == 0x80_0000);
    vstd::arithmetic::mul::lemma_mul_is_commutative(
        vstd::arithmetic::power2::pow2(126) as int,
        0x80_0000,
    );
}

/// Words of larger values are larger: non-negative single-precision numbers are ordered as their
/// words are.
pub proof fn law_word_order(a: u32, b: u32)
    requires
        a <= 0x7F80_0000,
        b <= 0x7F80_0000,
    ensures
        a < b <==> word_value(a) < word_value(b),
{
    if a < b {
        lemma_word_increases(a, b);
    } else if b < a {
        lemma_word_increases(b, a);
    }
}

proof fn lemma_word_increases(a: u32, b: u32)
    requires
        a < b,
    ensures
        word_value(a) < word_value(b),
{
    let ea = (a / 0x80_0000) as int;
    let eb = (b / 0x80_0000) as int;
    let fa = (a % 0x80_0000) as int;
    let fb = (b % 0x80_0000) as int;
    if eb > 0 {
        let pb = vstd::arithmetic::power2::pow2((eb - 1) as nat) as int;
        vstd::arithmetic::power2::lemma_pow2_pos((eb - 1) as nat);
        assert((0x80_0000 + fb) * pb >= 0x80_0000 * pb) by (nonlinear_arith)
            requires
                fb >= 0,
                pb >= 0,
        ;
        if ea == 0 {
            assert(0x80_0000 * pb >= 0x80_0000) by (nonlinear_arith)
                requires
                    pb >= 1,
            ;
        } else {
            let pa = vstd::arithmetic::power2::pow2((ea - 1) as nat) as int;
            vstd::arithmetic::power2::lemma_pow2_pos((ea - 1) as nat);
            if ea == eb {
                assert((0x80_0000 + fa) * pb < (0x80_0000 + fb) * pb) by (nonlinear_arith)
                    requires
                        fa < fb,
                        pb >= 1,
                ;
            } else {
                vstd::arithmetic::power2::lemma_pow2_unfold(ea as nat);
                if ea < eb - 1 {
                    vstd::arithmetic::power2::lemma_pow2_strictly_increases(
                        ea as nat,
                        (eb - 1) as nat,
                    );
                }
                assert(2 * pa <= pb);
                assert((0x80_0000 + fa) * pa < 0x80_0000 * pb) by (nonlinear_arith)
                    requires
                        0 <= fa < 0x80_0000,
                        pa >= 1,
                        2 * pa <= pb,
                ;
            }
        }
    }
}

/// A noise sample between zero and one, held as the word of its single-precision number.
#[derive(Clone, Copy, Debug, PartialEq, Eq)]
pub struct Sample {
    bits: u32,
}

impl Sample {
    #[verifier::type_invariant]
    spec fn at_most_one(self) -> bool {
        self.bits <= SAMPLE_ONE
    }

    /// The word of the sample.
    pub closed spec fn bits(self) -> u32 {
        self.bits
    }

    /// The value of the sample, in the units of [`word_value`].
    pub open spec fn value(self) -> nat {
        word_value(self.bits())
    }

    /// The sample lies between zero and one.
    pub open spec fn wf(self) -> bool {
        self.bits() <= SAMPLE_ONE
    }

    /// The sample with the given word, if the word stands for a number between zero and one.
    pub fn from_bits(bits: u32) -> (s: Option<Sample>)
        ensures
            s is Some <==> bits <= SAMPLE_ONE,
            s matches Some(sample) ==> sample.wf() && sample.bits() == bits,
    {
        if bits <= SAMPLE_ONE {
            Some(Sample { bits })
        } else {
            None
        }
    }

    /// Whether the sample is greater than the number that `bound` is the word of.
    pub fn exceeds(&self, bound: u32) -> (r: bool)
        requires
            bound <= SAMPLE_ONE,
        ensures
            self.wf(),
            r <==> self.value() > word_value(bound),
    {
        proof {
            use_type_invariant(self);
            law_word_order(bound, self.bits);
        }
        self.bits > bound
    }

    /// Whether the sample is less than the number that `bound` is the word of.
    pub fn below(&self, bound: u32) -> (r: bool)
        requires
            bound <= SAMPLE_ONE,
        ensures
            self.wf(),
            r <==> self.value() < word_value(bound),
    {
        proof {
            use_type_invariant(self);
            law_word_order(self.bits, bound);
        }
        self.bits < bound
    }

    /// Twice the sample, rounded down.
    pub open spec fn doubled(self) -> int {
        2 * self.value() as int / vstd::arithmetic::power2::pow2(149) as int
    }

    /// Twice the sample, rounded down.
    pub fn double(&self) -> (r: i32)
        ensures
            self.wf(),
            r == self.doubled(),
            0 <= r <= 2,
            r * vstd::arithmetic::power2::pow2(149) <= 2 * self.value() < (r + 1)
                * vstd::arithmetic::power2::pow2(149),
    {
        proof {
            use_type_invariant(self);
            lemma_doubled(*self);
            let one = vstd::arithmetic::power2::pow2(149) as int;
            let twice = 2 * self.value() as int;
            vstd::arithmetic::power2::lemma_pow2_pos(149);
            vstd::arithmetic::div_mod::lemma_fundamental_div_mod(twice, one);
            vstd::arithmetic::mul::lemma_mul_is_commutative(one, twice / one);
            vstd::arithmetic::mul::lemma_mul_is_distributive_add_other_way(
                one,
                twice / one,
                1,
            );
        }
        if self.bits >= SAMPLE_ONE {
            2
        } else if self.bits >= 0x3F00_0000 {
            1
        } else {
            0
        }
    }
}

/// Where twice a sample, rounded down, takes each of its three values.
pub proof fn lemma_doubled(s: Sample)
    requires
        s.wf(),
    ensures
        s.doubled() == (if s.bits() >= SAMPLE_ONE {
            2int
        } else if s.bits() >= 0x3F00_0000 {
            1int
        } else {
            0int
        }),
{
    let unit = vstd::arithmetic::power2::pow2(125) as int;
    vstd::arithmetic::power2::lemma_pow2_pos(125);
    vstd::arithmetic::power2::lemma_pow2_adds(125, 24);
    vstd::arithmetic::power2::lemma_pow2_unfold(126);
    vstd::arithmetic::power2::lemma2_to64();
    let one = vstd::arithmetic::power2::pow2(149) as int;
    assert(one == unit * 0x100_0000);
    assert(word_value(0x3F00_0000) == 0x80_0000 * unit);
    assert(word_value(SAMPLE_ONE) == 0x80_0000 * (2 * unit));
    law_word_order(s.bits(), SAMPLE_ONE);
    law_word_order(s.bits(), 0x3F00_0000);
    let v = s.value() as int;
    if s.bits() >= SAMPLE_ONE {
        assert(v == one);
        vstd::arithmetic::div_mod::lemma_div_multiples_vanish(2, one);
    } else if s.bits() >= 0x3F00_0000 {
        vstd::arithmetic::div_mod::lemma_fundamental_div_mod_converse(2 * v, one, 1, 2 * v - one);
    } else {
        vstd::arithmetic::div_mod::lemma_fundamental_div_mod_converse(2 * v, one, 0, 2 * v);
    }
}

} // verus!
