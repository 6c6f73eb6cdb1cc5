//! The pseudo random number generators a simulation can run on, and how a
//! generator is chosen and seeded.
use vstd::prelude::*;
use rand::SeedableRng;

verus! {

#[verifier::external_type_specification]
#[verifier::external_body]
pub struct ExPcg32(rand_pcg::Lcg64Xsh32);

#[verifier::external_type_specification]
#[verifier::external_body]
pub struct ExPcg64(rand_pcg::Lcg128Xsl64);

#[verifier::external_type_specification]
#[verifier::external_body]
pub struct ExPcg64Mcg(rand_pcg::Mcg128Xsl64);

#[verifier::external_type_specification]
#[verifier::external_body]
pub struct ExXoshiro256Plus(rand_xoshiro::Xoshiro256Plus);

#[verifier::external_type_specification]
#[verifier::external_body]
pub struct ExXoshiro128Plus(rand_xoshiro::Xoshiro128Plus);

#[verifier::external_type_specification]
#[verifier::external_body]
pub struct ExXoroshiro128Plus(rand_xoshiro::Xoroshiro128Plus);

#[verifier::external_type_specification]
#[verifier::external_body]
pub struct ExXoroshiro128StarStar(rand_xoshiro::Xoroshiro128StarStar);

#[verifier::external_type_specification]
#[verifier::external_body]
pub struct ExXoroshiro64Star(rand_xoshiro::Xoroshiro64Star);

#[verifier::external_type_specification]
#[verifier::external_body]
pub struct ExXoroshiro64StarStar(rand_xoshiro::Xoroshiro64StarStar);

#[verifier::external_type_specification]
#[verifier::external_body]
pub struct ExXorShiftRng(rand_xorshift::XorShiftRng);

/// One of the supported generators, with its state.
pub enum WrappedRng {
    Pcg32(rand_pcg::Lcg64Xsh32),
    Pcg64(rand_pcg::Lcg128Xsl64),
    Pcg64Mcg(rand_pcg::Mcg128Xsl64),
    Xoshiro256Plus(rand_xoshiro::Xoshiro256Plus),
    Xoshiro128Plus(rand_xoshiro::Xoshiro128Plus),
    Xoroshiro128Plus(rand_xoshiro::Xoroshiro128Plus),
    Xoroshiro128StarStar(rand_xoshiro::Xoroshiro128StarStar),
    Xoroshiro64Star(rand_xoshiro::Xoroshiro64Star),
    Xoroshiro64StarStar(rand_xoshiro::Xoroshiro64StarStar),
    XorShiftRng(rand_xorshift::XorShiftRng),
}

/// The kind of a [`WrappedRng`], without its state.
#[derive(PartialEq, Eq, Structural, Clone, Copy, Debug)]
pub enum WrappedRngDiscriminants {
    Pcg32,
    Pcg64,
    Pcg64Mcg,
    Xoshiro256Plus,
    Xoshiro128Plus,
    Xoroshiro128Plus,
    Xoroshiro128StarStar,
    Xoroshiro64Star,
    Xoroshiro64StarStar,
    XorShiftRng,
}

/// The generator that `rand_pcg::Lcg64Xsh32::seed_from_u64` builds from a seed.
pub uninterp spec fn pcg32_from_seed(seed: u64) -> rand_pcg::Lcg64Xsh32;

/// Calls `seed_from_u64` of `rand_pcg::Lcg64Xsh32`, which derives the generator's state
/// from the seed alone; the contract says no more than that.
#[verifier::external_body]
fn seed_pcg32(seed: u64) -> (r: rand_pcg::Lcg64Xsh32)
    ensures
        r == pcg32_from_seed(seed),
{
    rand_pcg::Lcg64Xsh32::seed_from_u64(seed)
}

/// The generator that `rand_pcg::Lcg128Xsl64::seed_from_u64` builds from a seed.
pub uninterp spec fn pcg64_from_seed(seed: u64) -> rand_pcg::Lcg128Xsl64;

/// Calls `seed_from_u64` of `rand_pcg::Lcg128Xsl64`, which derives the generator's state
/// from the seed alone; the contract says no more than that.
#[verifier::external_body]
fn seed_pcg64(seed: u64) -> (r: rand_pcg::Lcg128Xsl64)
    ensures
        r == pcg64_from_seed(seed),
{
    rand_pcg::Lcg128Xsl64::seed_from_u64(seed)
}

/// The generator that `rand_pcg::Mcg128Xsl64::seed_from_u64` builds from a seed.
pub uninterp spec fn pcg64_mcg_from_seed(seed: u64) -> rand_pcg::Mcg128Xsl64;

/// Calls `seed_from_u64` of `rand_pcg::Mcg128Xsl64`, which derives the generator's state
/// from the seed alone; the contract says no more than that.
#[verifier::external_body]
fn seed_pcg64_mcg(seed: u64) -> (r: rand_pcg::Mcg128Xsl64)
    ensures
        r == pcg64_mcg_from_seed(seed),
{
    rand_pcg::Mcg128Xsl64::seed_from_u64(seed)
}

/// The generator that `rand_xoshiro::Xoshiro256Plus::seed_from_u64` builds from a seed.
pub uninterp spec fn xoshiro256_plus_from_seed(seed: u64) -> rand_xoshiro::Xoshiro256Plus;

/// Calls `seed_from_u64` of `rand_xoshiro::Xoshiro256Plus`, which derives the generator's state
/// from the seed alone; the contract says no more than that.
#[verifier::external_body]
fn seed_xoshiro256_plus(seed: u64) -> (r: rand_xoshiro::Xoshiro256Plus)
    ensures
        r == xoshiro256_plus_from_seed(seed),
{
    rand_xoshiro::Xoshiro256Plus::seed_from_u64(seed)
}

/// The generator that `rand_xoshiro::Xoshiro128Plus::seed_from_u64` builds from a seed.
pub uninterp spec fn xoshiro128_plus_from_seed(seed: u64) -> rand_xoshiro::Xoshiro128Plus;

/// Calls `seed_from_u64` of `rand_xoshiro::Xoshiro128Plus`, which derives the generator's state
/// from the seed alone; the contract says no more than that.
#[verifier::external_body]
fn seed_xoshiro128_plus(seed: u64) -> (r: rand_xoshiro::Xoshiro128Plus)
    ensures
        r == xoshiro128_plus_from_seed(seed),
{
    rand_xoshiro::Xoshiro128Plus::seed_from_u64(seed)
}

/// The generator that `rand_xoshiro::Xoroshiro128Plus::seed_from_u64` builds from a seed.
pub uninterp spec fn xoroshiro128_plus_from_seed(seed: u64) -> rand_xoshiro::Xoroshiro128Plus;

/// Calls `seed_from_u64` of `rand_xoshiro::Xoroshiro128Plus`, which derives the generator's state
/// from the seed alone; the contract says no more than that.
#[verifier::external_body]
fn seed_xoroshiro128_plus(seed: u64) -> (r: rand_xoshiro::Xoroshiro128Plus)
    ensures
        r == xoroshiro128_plus_from_seed(seed),
{
    rand_xoshiro::Xoroshiro128Plus::seed_from_u64(seed)
}

/// The generator that `rand_xoshiro::Xoroshiro128StarStar::seed_from_u64` builds from a seed.
pub uninterp spec fn xoroshiro128_star_star_from_seed(seed: u64) -> rand_xoshiro::Xoroshiro128StarStar;

/// Calls `seed_from_u64` of `rand_xoshiro::Xoroshiro128StarStar`, which derives the generator's state
/// from the seed alone; the contract says no more than that.
#[verifier::external_body]
fn seed_xoroshiro128_star_star(seed: u64) -> (r: rand_xoshiro::Xoroshiro128StarStar)
    ensures
        r == xoroshiro128_star_star_from_seed(seed),
{
    rand_xoshiro::Xoroshiro128StarStar::seed_from_u64(seed)
}

/// The generator that `rand_xoshiro::Xoroshiro64Star::seed_from_u64` builds from a seed.
pub uninterp spec fn xoroshiro64_star_from_seed(seed: u64) -> rand_xoshiro::Xoroshiro64Star;

/// Calls `seed_from_u64` of `rand_xoshiro::Xoroshiro64Star`, which derives the generator's state
/// from the seed alone; the contract says no more than that.
#[verifier::external_body]
fn seed_xoroshiro64_star(seed: u64) -> (r: rand_xoshiro::Xoroshiro64Star)
    ensures
        r == xoroshiro64_star_from_seed(seed),
{
    rand_xoshiro::Xoroshiro64Star::seed_from_u64(seed)
}

/// The generator that `rand_xoshiro::Xoroshiro64StarStar::seed_from_u64` builds from a seed.
pub uninterp spec fn xoroshiro64_star_star_from_seed(seed: u64) -> rand_xoshiro::Xoroshiro64StarStar;

/// Calls `seed_from_u64` of `rand_xoshiro::Xoroshiro64StarStar`, which derives the generator's state
/// from the seed alone; the contract says no more than that.
#[verifier::external_body]
fn seed_xoroshiro64_star_star(seed: u64) -> (r: rand_xoshiro::Xoroshiro64StarStar)
    ensures
        r == xoroshiro64_star_star_from_seed(seed),
{
    rand_xoshiro::Xoroshiro64StarStar::seed_from_u64(seed)
}

/// The generator that `rand_xorshift::XorShiftRng::seed_from_u64` builds from a seed.
pub uninterp spec fn xor_shift_rng_from_seed(seed: u64) -> rand_xorshift::XorShiftRng;

/// Calls `seed_from_u64` of `rand_xorshift::XorShiftRng`, which derives the generator's state
/// from the seed alone; the contract says no more than that.
#[verifier::external_body]
fn seed_xor_shift_rng(seed: u64) -> (r: rand_xorshift::XorShiftRng)
    ensures
        r == xor_shift_rng_from_seed(seed),
{
    rand_xorshift::XorShiftRng::seed_from_u64(seed)
}

/// The generator of kind `kind` seeded with `seed`.
pub open spec fn seeded_rng(kind: WrappedRngDiscriminants, seed: u64) -> WrappedRng {
    match kind {
        WrappedRngDiscriminants::Pcg32 => WrappedRng::Pcg32(pcg32_from_seed(seed)),
        WrappedRngDiscriminants::Pcg64 => WrappedRng::Pcg64(pcg64_from_seed(seed)),
        WrappedRngDiscriminants::Pcg64Mcg => WrappedRng::Pcg64Mcg(pcg64_mcg_from_seed(seed)),
        WrappedRngDiscriminants::Xoshiro256Plus => WrappedRng::Xoshiro256Plus(xoshiro256_plus_from_seed(seed)),
        WrappedRngDiscriminants::Xoshiro128Plus => WrappedRng::Xoshiro128Plus(xoshiro128_plus_from_seed(seed)),
        WrappedRngDiscriminants::Xoroshiro128Plus => WrappedRng::Xoroshiro128Plus(xoroshiro128_plus_from_seed(seed)),
        WrappedRngDiscriminants::Xoroshiro128StarStar => WrappedRng::Xoroshiro128StarStar(xoroshiro128_star_star_from_seed(seed)),
        WrappedRngDiscriminants::Xoroshiro64Star => WrappedRng::Xoroshiro64Star(xoroshiro64_star_from_seed(seed)),
        WrappedRngDiscriminants::Xoroshiro64StarStar => WrappedRng::Xoroshiro64StarStar(xoroshiro64_star_star_from_seed(seed)),
        WrappedRngDiscriminants::XorShiftRng => WrappedRng::XorShiftRng(xor_shift_rng_from_seed(seed)),
    }
}

/// The kind of a generator.
pub open spec fn kind_of(rng: WrappedRng) -> WrappedRngDiscriminants {
    match rng {
        WrappedRng::Pcg32(_) => WrappedRngDiscriminants::Pcg32,
        WrappedRng::Pcg64(_) => WrappedRngDiscriminants::Pcg64,
        WrappedRng::Pcg64Mcg(_) => WrappedRngDiscriminants::Pcg64Mcg,
        WrappedRng::Xoshiro256Plus(_) => WrappedRngDiscriminants::Xoshiro256Plus,
        WrappedRng::Xoshiro128Plus(_) => WrappedRngDiscriminants::Xoshiro128Plus,
        WrappedRng::Xoroshiro128Plus(_) => WrappedRngDiscriminants::Xoroshiro128Plus,
        WrappedRng::Xoroshiro128StarStar(_) => WrappedRngDiscriminants::Xoroshiro128StarStar,
        WrappedRng::Xoroshiro64Star(_) => WrappedRngDiscriminants::Xoroshiro64Star,
        WrappedRng::Xoroshiro64StarStar(_) => WrappedRngDiscriminants::Xoroshiro64StarStar,
        WrappedRng::XorShiftRng(_) => WrappedRngDiscriminants::XorShiftRng,
    }
}

/// The name under which a kind is shown.
pub open spec fn display_name_of(kind: WrappedRngDiscriminants) -> Seq<char> {
    match kind {
        WrappedRngDiscriminants::Pcg32 => "Pcg32"@,
        WrappedRngDiscriminants::Pcg64 => "Pcg64"@,
        WrappedRngDiscriminants::Pcg64Mcg => "Pcg64Mcg"@,
        WrappedRngDiscriminants::Xoshiro256Plus => "Xoshiro256Plus"@,
        WrappedRngDiscriminants::Xoshiro128Plus => "Xoshiro128Plus"@,
        WrappedRngDiscriminants::Xoroshiro128Plus => "Xoroshiro128Plus"@,
        WrappedRngDiscriminants::Xoroshiro128StarStar => "Xoroshiro128StarStar"@,
        WrappedRngDiscriminants::Xoroshiro64Star => "Xoroshiro64Star"@,
        WrappedRngDiscriminants::Xoroshiro64StarStar => "Xoroshiro64StarStar"@,
        WrappedRngDiscriminants::XorShiftRng => "XorShiftRng"@,
    }
}

/// The advice shown for a kind.
pub open spec fn explanation_of(kind: WrappedRngDiscriminants) -> Seq<char> {
    match kind {
        WrappedRngDiscriminants::Pcg32 => "Works okay pretty much everywhere"@,
        WrappedRngDiscriminants::Pcg64 => "AFAIK strictly inferior to Pcg64Mcg except on 32bit platforms when generating f64, but since we generate f32, not helpful. Mostly here for completeness"@,
        WrappedRngDiscriminants::Pcg64Mcg => "Better than Pcg32 on 64 bit platforms (which does NOT currently include the web!)"@,
        WrappedRngDiscriminants::Xoshiro256Plus => "Recommended for f64 generation (which is not what we do)."@,
        WrappedRngDiscriminants::Xoshiro128Plus => "Recommended for f32 generation."@,
        WrappedRngDiscriminants::Xoroshiro128Plus => "Recommended for f64 generation (which is not what we do). Smaller state than Xoshiro256Plus"@,
        WrappedRngDiscriminants::Xoroshiro128StarStar => "Recommended for f64 generation (which is not what we do). Smaller state than Xoshiro256Plus. Better scrambling than Plus variant, but more expensive"@,
        WrappedRngDiscriminants::Xoroshiro64Star => "Recommended for f32 generation. Smaller state."@,
        WrappedRngDiscriminants::Xoroshiro64StarStar => "Recommended for f32 generation. Smaller state. Better scrambling than Plus variant, but more expensive"@,
        WrappedRngDiscriminants::XorShiftRng => "Better than Pcg32 on 64 bit platforms (which does NOT currently include the web!)"@,
    }
}

impl WrappedRngDiscriminants {
    /// Every kind, in the order in which they are offered.
    pub fn variants() -> (r: Vec<WrappedRngDiscriminants>)
        ensures
            r@ == seq![
                WrappedRngDiscriminants::Pcg32,
                WrappedRngDiscriminants::Pcg64,
                WrappedRngDiscriminants::Pcg64Mcg,
                WrappedRngDiscriminants::Xoshiro256Plus,
                WrappedRngDiscriminants::Xoshiro128Plus,
                WrappedRngDiscriminants::Xoroshiro128Plus,
                WrappedRngDiscriminants::Xoroshiro128StarStar,
                WrappedRngDiscriminants::Xoroshiro64Star,
                WrappedRngDiscriminants::Xoroshiro64StarStar,
                WrappedRngDiscriminants::XorShiftRng,
            ],
    {
        vec![
            WrappedRngDiscriminants::Pcg32,
            WrappedRngDiscriminants::Pcg64,
            WrappedRngDiscriminants::Pcg64Mcg,
            WrappedRngDiscriminants::Xoshiro256Plus,
            WrappedRngDiscriminants::Xoshiro128Plus,
            WrappedRngDiscriminants::Xoroshiro128Plus,
            WrappedRngDiscriminants::Xoroshiro128StarStar,
            WrappedRngDiscriminants::Xoroshiro64Star,
            WrappedRngDiscriminants::Xoroshiro64StarStar,
            WrappedRngDiscriminants::XorShiftRng,
        ]
    }

    /// A generator of this kind, seeded with `seed`.
    pub fn seed_from_u64(&self, seed: u64) -> (r: WrappedRng)
        ensures
            r == seeded_rng(*self, seed),
            *self == WrappedRngDiscriminants::Pcg32 ==> r == WrappedRng::Pcg32(pcg32_from_seed(seed)),
            *self == WrappedRngDiscriminants::Pcg64 ==> r == WrappedRng::Pcg64(pcg64_from_seed(seed)),
            *self == WrappedRngDiscriminants::Pcg64Mcg ==> r == WrappedRng::Pcg64Mcg(pcg64_mcg_from_seed(seed)),
            *self == WrappedRngDiscriminants::Xoshiro256Plus ==> r == WrappedRng::Xoshiro256Plus(xoshiro256_plus_from_seed(seed)),
            *self == WrappedRngDiscriminants::Xoshiro128Plus ==> r == WrappedRng::Xoshiro128Plus(xoshiro128_plus_from_seed(seed)),
            *self == WrappedRngDiscriminants::Xoroshiro128Plus ==> r == WrappedRng::Xoroshiro128Plus(xoroshiro128_plus_from_seed(seed)),
            *self == WrappedRngDiscriminants::Xoroshiro128StarStar ==> r == WrappedRng::Xoroshiro128StarStar(xoroshiro128_star_star_from_seed(seed)),
            *self == WrappedRngDiscriminants::Xoroshiro64Star ==> r == WrappedRng::Xoroshiro64Star(xoroshiro64_star_from_seed(seed)),
            *self == WrappedRngDiscriminants::Xoroshiro64StarStar ==> r == WrappedRng::Xoroshiro64StarStar(xoroshiro64_star_star_from_seed(seed)),
            *self == WrappedRngDiscriminants::XorShiftRng ==> r == WrappedRng::XorShiftRng(xor_shift_rng_from_seed(seed)),
    {
        match *self {
            WrappedRngDiscriminants::Pcg32 => WrappedRng::Pcg32(seed_pcg32(seed)),
            WrappedRngDiscriminants::Pcg64 => WrappedRng::Pcg64(seed_pcg64(seed)),
            WrappedRngDiscriminants::Pcg64Mcg => WrappedRng::Pcg64Mcg(seed_pcg64_mcg(seed)),
            WrappedRngDiscriminants::Xoshiro256Plus => WrappedRng::Xoshiro256Plus(seed_xoshiro256_plus(seed)),
            WrappedRngDiscriminants::Xoshiro128Plus => WrappedRng::Xoshiro128Plus(seed_xoshiro128_plus(seed)),
            WrappedRngDiscriminants::Xoroshiro128Plus => WrappedRng::Xoroshiro128Plus(seed_xoroshiro128_plus(seed)),
            WrappedRngDiscriminants::Xoroshiro128StarStar => WrappedRng::Xoroshiro128StarStar(seed_xoroshiro128_star_star(seed)),
            WrappedRngDiscriminants::Xoroshiro64Star => WrappedRng::Xoroshiro64Star(seed_xoroshiro64_star(seed)),
            WrappedRngDiscriminants::Xoroshiro64StarStar => WrappedRng::Xoroshiro64StarStar(seed_xoroshiro64_star_star(seed)),
            WrappedRngDiscriminants::XorShiftRng => WrappedRng::XorShiftRng(seed_xor_shift_rng(seed)),
        }
    }

    pub fn display_name(&self) -> (r: &'static str)
        ensures
            r@ == display_name_of(*self),
    {
        match *self {
            WrappedRngDiscriminants::Pcg32 => "Pcg32",
            WrappedRngDiscriminants::Pcg64 => "Pcg64",
            WrappedRngDiscriminants::Pcg64Mcg => "Pcg64Mcg",
            WrappedRngDiscriminants::Xoshiro256Plus => "Xoshiro256Plus",
            WrappedRngDiscriminants::Xoshiro128Plus => "Xoshiro128Plus",
            WrappedRngDiscriminants::Xoroshiro128Plus => "Xoroshiro128Plus",
            WrappedRngDiscriminants::Xoroshiro128StarStar => "Xoroshiro128StarStar",
            WrappedRngDiscriminants::Xoroshiro64Star => "Xoroshiro64Star",
            WrappedRngDiscriminants::Xoroshiro64StarStar => "Xoroshiro64StarStar",
            WrappedRngDiscriminants::XorShiftRng => "XorShiftRng",
        }
    }

    pub fn explanation(&self) -> (r: &'static str)
        ensures
            r@ == explanation_of(*self),
    {
        match *self {
            WrappedRngDiscriminants::Pcg32 => "Works okay pretty much everywhere",
            WrappedRngDiscriminants::Pcg64 => "AFAIK strictly inferior to Pcg64Mcg except on 32bit platforms when generating f64, but since we generate f32, not helpful. Mostly here for completeness",
            WrappedRngDiscriminants::Pcg64Mcg => "Better than Pcg32 on 64 bit platforms (which does NOT currently include the web!)",
            WrappedRngDiscriminants::Xoshiro256Plus => "Recommended for f64 generation (which is not what we do).",
            WrappedRngDiscriminants::Xoshiro128Plus => "Recommended for f32 generation.",
            WrappedRngDiscriminants::Xoroshiro128Plus => "Recommended for f64 generation (which is not what we do). Smaller state than Xoshiro256Plus",
            WrappedRngDiscriminants::Xoroshiro128StarStar => "Recommended for f64 generation (which is not what we do). Smaller state than Xoshiro256Plus. Better scrambling than Plus variant, but more expensive",
            WrappedRngDiscriminants::Xoroshiro64Star => "Recommended for f32 generation. Smaller state.",
            WrappedRngDiscriminants::Xoroshiro64StarStar => "Recommended for f32 generation. Smaller state. Better scrambling than Plus variant, but more expensive",
            WrappedRngDiscriminants::XorShiftRng => "Better than Pcg32 on 64 bit platforms (which does NOT currently include the web!)",
        }
    }
}

impl<'a> From<&'a WrappedRng> for WrappedRngDiscriminants {
    fn from(value: &'a WrappedRng) -> (r: Self) {
        match value {
            WrappedRng::Pcg32(_) => WrappedRngDiscriminants::Pcg32,
            WrappedRng::Pcg64(_) => WrappedRngDiscriminants::Pcg64,
            WrappedRng::Pcg64Mcg(_) => WrappedRngDiscriminants::Pcg64Mcg,
            WrappedRng::Xoshiro256Plus(_) => WrappedRngDiscriminants::Xoshiro256Plus,
            WrappedRng::Xoshiro128Plus(_) => WrappedRngDiscriminants::Xoshiro128Plus,
            WrappedRng::Xoroshiro128Plus(_) => WrappedRngDiscriminants::Xoroshiro128Plus,
            WrappedRng::Xoroshiro128StarStar(_) => WrappedRngDiscriminants::Xoroshiro128StarStar,
            WrappedRng::Xoroshiro64Star(_) => WrappedRngDiscriminants::Xoroshiro64Star,
            WrappedRng::Xoroshiro64StarStar(_) => WrappedRngDiscriminants::Xoroshiro64StarStar,
            WrappedRng::XorShiftRng(_) => WrappedRngDiscriminants::XorShiftRng,
        }
    }
}

impl<'a> vstd::std_specs::convert::FromSpecImpl<&'a WrappedRng> for WrappedRngDiscriminants {
    open spec fn obeys_from_spec() -> bool {
        true
    }

    open spec fn from_spec(v: &'a WrappedRng) -> Self {
        kind_of(*v)
    }
}

/// Seeding a kind gives the rand crate's generator of that kind seeded with
/// exactly the given seed.
pub proof fn lemma_seeded_with_given_seed(seed: u64)
    ensures
        seeded_rng(WrappedRngDiscriminants::Pcg32, seed) == WrappedRng::Pcg32(pcg32_from_seed(seed)),
        seeded_rng(WrappedRngDiscriminants::Pcg64, seed) == WrappedRng::Pcg64(pcg64_from_seed(seed)),
        seeded_rng(WrappedRngDiscriminants::Pcg64Mcg, seed) == WrappedRng::Pcg64Mcg(pcg64_mcg_from_seed(seed)),
        seeded_rng(WrappedRngDiscriminants::Xoshiro256Plus, seed) == WrappedRng::Xoshiro256Plus(xoshiro256_plus_from_seed(seed)),
        seeded_rng(WrappedRngDiscriminants::Xoshiro128Plus, seed) == WrappedRng::Xoshiro128Plus(xoshiro128_plus_from_seed(seed)),
        seeded_rng(WrappedRngDiscriminants::Xoroshiro128Plus, seed) == WrappedRng::Xoroshiro128Plus(xoroshiro128_plus_from_seed(seed)),
        seeded_rng(WrappedRngDiscriminants::Xoroshiro128StarStar, seed) == WrappedRng::Xoroshiro128StarStar(xoroshiro128_star_star_from_seed(seed)),
        seeded_rng(WrappedRngDiscriminants::Xoroshiro64Star, seed) == WrappedRng::Xoroshiro64Star(xoroshiro64_star_from_seed(seed)),
        seeded_rng(WrappedRngDiscriminants::Xoroshiro64StarStar, seed) == WrappedRng::Xoroshiro64StarStar(xoroshiro64_star_star_from_seed(seed)),
        seeded_rng(WrappedRngDiscriminants::XorShiftRng, seed) == WrappedRng::XorShiftRng(xor_shift_rng_from_seed(seed)),
{
}

/// Two seeds give the same generator of a kind exactly when the rand crate
/// makes the same generator from them: seeding neither merges seeds that the
/// crate tells apart nor tells apart seeds that it merges.
pub proof fn lemma_seeds_distinguished_as_by_rand(s1: u64, s2: u64)
    ensures
        seeded_rng(WrappedRngDiscriminants::Pcg32, s1) == seeded_rng(WrappedRngDiscriminants::Pcg32, s2) <==> pcg32_from_seed(s1) == pcg32_from_seed(s2),
        seeded_rng(WrappedRngDiscriminants::Pcg64, s1) == seeded_rng(WrappedRngDiscriminants::Pcg64, s2) <==> pcg64_from_seed(s1) == pcg64_from_seed(s2),
        seeded_rng(WrappedRngDiscriminants::Pcg64Mcg, s1) == seeded_rng(WrappedRngDiscriminants::Pcg64Mcg, s2) <==> pcg64_mcg_from_seed(s1) == pcg64_mcg_from_seed(s2),
        seeded_rng(WrappedRngDiscriminants::Xoshiro256Plus, s1) == seeded_rng(WrappedRngDiscriminants::Xoshiro256Plus, s2) <==> xoshiro256_plus_from_seed(s1) == xoshiro256_plus_from_seed(s2),
        seeded_rng(WrappedRngDiscriminants::Xoshiro128Plus, s1) == seeded_rng(WrappedRngDiscriminants::Xoshiro128Plus, s2) <==> xoshiro128_plus_from_seed(s1) == xoshiro128_plus_from_seed(s2),
        seeded_rng(WrappedRngDiscriminants::Xoroshiro128Plus, s1) == seeded_rng(WrappedRngDiscriminants::Xoroshiro128Plus, s2) <==> xoroshiro128_plus_from_seed(s1) == xoroshiro128_plus_from_seed(s2),
        seeded_rng(WrappedRngDiscriminants::Xoroshiro128StarStar, s1) == seeded_rng(WrappedRngDiscriminants::Xoroshiro128StarStar, s2) <==> xoroshiro128_star_star_from_seed(s1) == xoroshiro128_star_star_from_seed(s2),
        seeded_rng(WrappedRngDiscriminants::Xoroshiro64Star, s1) == seeded_rng(WrappedRngDiscriminants::Xoroshiro64Star, s2) <==> xoroshiro64_star_from_seed(s1) == xoroshiro64_star_from_seed(s2),
        seeded_rng(WrappedRngDiscriminants::Xoroshiro64StarStar, s1) == seeded_rng(WrappedRngDiscriminants::Xoroshiro64StarStar, s2) <==> xoroshiro64_star_star_from_seed(s1) == xoroshiro64_star_star_from_seed(s2),
        seeded_rng(WrappedRngDiscriminants::XorShiftRng, s1) == seeded_rng(WrappedRngDiscriminants::XorShiftRng, s2) <==> xor_shift_rng_from_seed(s1) == xor_shift_rng_from_seed(s2),
{
}

/// Seeding gives a generator of the chosen kind, so the kind read back from
/// a freshly seeded generator is the one that was chosen.
pub proof fn lemma_seeded_kind(kind: WrappedRngDiscriminants, seed: u64)
    ensures
        kind_of(seeded_rng(kind, seed)) == kind,
{
}

/// Seeding is reproducible: the same kind and seed give the same generator,
/// and different kinds never give the same generator.
pub proof fn lemma_seeding_reproducible(
    a: WrappedRngDiscriminants,
    b: WrappedRngDiscriminants,
    seed_a: u64,
    seed_b: u64,
)
    ensures
        a == b && seed_a == seed_b ==> seeded_rng(a, seed_a) == seeded_rng(b, seed_b),
        a != b ==> seeded_rng(a, seed_a) != seeded_rng(b, seed_b),
{
    lemma_seeded_kind(a, seed_a);
    lemma_seeded_kind(b, seed_b);
}

} // verus!

verus! {

/// The uniform distribution on `[0, 1]`, used for acceptance decisions.
#[derive(Clone, Copy, Default, Debug)]
pub struct Percentage;

/// The standard normal distribution, used for proposals.
#[derive(Clone, Copy, Default, Debug)]
pub struct StandardNormal;

} // verus!
