use contrafact::sample::{
    Alpha, AlphaData, AlphaId, Beta, BetaId, DeepSecond, E, Ex, Ey, Omega, OmegaId, OmegaPi, Pi,
    PiAlpha, PiBeta, PiBetaMatch,
};
use contrafact::{
    and, brute, build_seq, check_seq, eq, eq_, lens, optical, prism, Bounds, Fact, Generator,
};

/// A deterministic pseudo-random byte buffer standing in for caller-supplied
/// entropy.
fn entropy(n: usize) -> Vec<u8> {
    let mut v = Vec::with_capacity(n);
    let mut x: u32 = 0x9e37_79b9;
    for _ in 0..n {
        x = x.wrapping_mul(1664525).wrapping_add(1013904223);
        v.push((x >> 16) as u8);
    }
    v
}

#[test]
fn test_lens() {
    let x = (1u8, (2u8, (3u8, 4u8)));

    let fact = optical("", DeepSecond, eq_(3u8));
    assert_eq!(fact.check(&x).errors().len(), 1);

    let fact = optical("", DeepSecond, eq_(4u8));
    assert!(fact.check(&x).is_ok());
}

#[test]
fn test() {
    let mut g = Generator::build_from(entropy(4096));

    let f = || {
        and(
            prism("E::x", Ex, eq("must be 1", 1u32)),
            prism("E::y", Ey, eq("must be 2", 2u32)),
        )
    };

    let seq = build_seq(&mut g, 6, f()).unwrap();
    assert!(check_seq(&seq, f()).is_ok());

    assert!(seq.iter().all(|e| match e {
        E::X(x) => *x == 1,
        E::Y(y) => *y == 2,
    }))
}

#[test]
fn lens_roundtrip_eq() {
    let mut g = Generator::build_from(entropy(256));
    let f = lens("Beta::id", BetaId, eq("id", 11u32));
    let b = f.build(&mut g).unwrap();
    assert_eq!(b.id, 11);
    assert!(f.check(&b).is_ok());
    let bad = Beta { id: 3, data: "x".to_string() };
    assert_eq!(f.check(&bad).errors(), vec!["lens(Beta::id) > id".to_string()]);
}

#[test]
fn prism_absent_is_vacuous() {
    let f = prism("E::x", Ex, eq("must be 1", 1u32));
    assert!(f.check(&E::Y(9)).is_ok());
    let mut g = Generator::build_from(entropy(64));
    assert_eq!(f.mutate(E::Y(9), &mut g).unwrap(), E::Y(9));
    assert_eq!(f.mutate(E::X(5), &mut g).unwrap(), E::X(1));
    assert_eq!(f.check(&E::X(5)).errors(), vec!["prism(E::x) > must be 1".to_string()]);
}

#[test]
fn prism_other_variant() {
    let f = prism("E::y", Ey, eq("must be 2", 2u32));
    assert!(f.check(&E::X(0)).is_ok());
    assert!(f.check(&E::Y(2)).is_ok());
    assert_eq!(f.check(&E::Y(3)).count(), 1);
}

/// - All data must be set as specified.
/// - All ids should match each other. If there is a beta, its id should
///   match too.
fn pi_fact(id: u32, data: &str) -> impl Fact<Pi> {
    let alpha_fact = and(
        lens("Alpha::id", AlphaId, eq("id", id)),
        lens("Alpha::data", AlphaData, eq("data", data.to_owned())),
    );
    let beta_fact = lens("Beta::id", BetaId, eq("id", id));
    and(
        and(
            brute("Pi alpha has matching beta iff beta is Some", PiBetaMatch),
            lens("Pi::alpha", PiAlpha, alpha_fact),
        ),
        prism("Pi::beta", PiBeta, beta_fact),
    )
}

/// - All ids should match each other; if there is a beta, its id should
///   match too.
/// - The alpha's variant must correspond to the whole's shape.
/// - All data must be set as specified.
fn omega_fact(id: u32, data: &str) -> impl Fact<Omega> {
    and(
        lens("Omega -> Pi", OmegaPi, pi_fact(id, data)),
        lens("Omega::id", OmegaId, eq("id", id)),
    )
}

#[test]
fn test_omega_fact() {
    let mut g = Generator::build_from(entropy(65536));

    let fact = omega_fact(11, "spartacus");

    let beta = <Beta as Bounds>::generate(&mut g, "beta").unwrap();
    assert_ne!(beta.id, 11);

    let valid1 = Omega::Alpha {
        id: 8,
        alpha: Alpha::Nil { id: 3, data: "cheese".to_string() },
    };

    let valid2 = Omega::AlphaBeta {
        id: 8,
        alpha: Alpha::Nil { id: 3, data: "cheese".to_string() },
        beta: beta.clone(),
    };

    let valid1 = fact.mutate(valid1, &mut g).unwrap();
    assert!(fact.check(&valid1).is_ok());

    let valid2 = fact.mutate(valid2, &mut g).unwrap();
    assert!(fact.check(&valid2).is_ok());

    let invalid1 = Omega::Alpha {
        id: 8,
        alpha: Alpha::Beta { id: 3, data: "cheese".to_string(), beta: beta.clone() },
    };

    let invalid2 = Omega::AlphaBeta {
        id: 8,
        alpha: Alpha::Nil { id: 3, data: "cheese".to_string() },
        beta: beta.clone(),
    };

    // Ensure that check fails for invalid data
    assert_eq!(fact.check(&invalid1).errors().len(), 4);
    let invalid1 = fact.mutate(invalid1, &mut g).unwrap();
    assert!(fact.check(&invalid1).is_ok());

    // Ensure that check fails for invalid data
    assert_eq!(fact.check(&invalid2).errors().len(), 5);
    let invalid2 = fact.mutate(invalid2, &mut g).unwrap();
    assert!(fact.check(&invalid2).is_ok());
}
