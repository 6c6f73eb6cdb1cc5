use mcmc_demo::simulation::rngs::{WrappedRng, WrappedRngDiscriminants};
use rand::{RngCore, SeedableRng};

fn first_u64(rng: &mut WrappedRng) -> u64 {
    match rng {
        WrappedRng::Pcg32(r) => r.next_u64(),
        WrappedRng::Pcg64(r) => r.next_u64(),
        WrappedRng::Pcg64Mcg(r) => r.next_u64(),
        WrappedRng::Xoshiro256Plus(r) => r.next_u64(),
        WrappedRng::Xoshiro128Plus(r) => r.next_u64(),
        WrappedRng::Xoroshiro128Plus(r) => r.next_u64(),
        WrappedRng::Xoroshiro128StarStar(r) => r.next_u64(),
        WrappedRng::Xoroshiro64Star(r) => r.next_u64(),
        WrappedRng::Xoroshiro64StarStar(r) => r.next_u64(),
        WrappedRng::XorShiftRng(r) => r.next_u64(),
    }
}

#[test]
fn rngs_sizeof_rand() {
    // size of largest prng + discriminant + alignment
    assert!(std::mem::size_of::<WrappedRng>() <= 32 + 8 + 8);
}

#[test]
fn seeding_keeps_kind() {
    for kind in WrappedRngDiscriminants::variants() {
        let rng = kind.seed_from_u64(42);
        assert!(WrappedRngDiscriminants::from(&rng) == kind);
    }
}

#[test]
fn seeding_is_reproducible_and_uses_seed() {
    for kind in WrappedRngDiscriminants::variants() {
        let a = first_u64(&mut kind.seed_from_u64(7));
        let b = first_u64(&mut kind.seed_from_u64(7));
        let c = first_u64(&mut kind.seed_from_u64(8));
        assert_eq!(a, b);
        assert_ne!(a, c);
    }
}

#[test]
fn seeding_matches_rand_crates() {
    let mut expected = rand_pcg::Pcg64Mcg::seed_from_u64(42);
    let mut got = WrappedRngDiscriminants::Pcg64Mcg.seed_from_u64(42);
    assert_eq!(first_u64(&mut got), expected.next_u64());
    let mut expected = rand_xorshift::XorShiftRng::seed_from_u64(3);
    let mut got = WrappedRngDiscriminants::XorShiftRng.seed_from_u64(3);
    assert_eq!(first_u64(&mut got), expected.next_u64());
}

#[test]
fn variants_in_order() {
    let v = WrappedRngDiscriminants::variants();
    assert_eq!(v.len(), 10);
    assert!(v[0] == WrappedRngDiscriminants::Pcg32);
    assert!(v[2] == WrappedRngDiscriminants::Pcg64Mcg);
    assert!(v[9] == WrappedRngDiscriminants::XorShiftRng);
}

#[test]
fn names_and_explanations() {
    assert_eq!(WrappedRngDiscriminants::Pcg32.display_name(), "Pcg32");
    assert_eq!(WrappedRngDiscriminants::Xoroshiro64StarStar.display_name(), "Xoroshiro64StarStar");
    assert_eq!(
        WrappedRngDiscriminants::Pcg32.explanation(),
        "Works okay pretty much everywhere"
    );
    assert_eq!(
        WrappedRngDiscriminants::Xoshiro128Plus.explanation(),
        "Recommended for f32 generation."
    );
    for kind in WrappedRngDiscriminants::variants() {
        assert!(!kind.explanation().is_empty());
    }
}
