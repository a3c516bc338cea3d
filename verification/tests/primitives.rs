use contrafact::sample::{IsEven, NeverHolds};
use contrafact::{
    and, brute, build_seq, check_seq, consecutive, dec_string, eq, in_iter, in_slice, in_slice_,
    ne, or, Fact, Fatal, Generator, MutationError,
};

/// A deterministic pseudo-random byte buffer standing in for caller-supplied
/// entropy.
fn noise_bytes(n: usize) -> Vec<u8> {
    let mut v = Vec::with_capacity(n);
    let mut x: u32 = 0x2545_3321;
    for _ in 0..n {
        x = x.wrapping_mul(1664525).wrapping_add(1013904223);
        v.push((x >> 16) as u8);
    }
    v
}

#[test]
fn eq_fixes_value() {
    let mut g = Generator::build_from(noise_bytes(64));
    let f = eq("must be 5", 5u32);
    assert_eq!(f.mutate(3, &mut g).unwrap(), 5);
    assert_eq!(f.mutate(5, &mut g).unwrap(), 5);
    assert!(f.check(&5).is_ok());
    assert_eq!(f.check(&4).errors(), vec!["must be 5".to_string()]);
}

#[test]
fn ne_redraws_until_different() {
    let mut g = Generator::build_from(noise_bytes(64));
    let f = ne("anything but 7", 7u32);
    assert_ne!(f.mutate(7, &mut g).unwrap(), 7);
    assert_eq!(f.mutate(3, &mut g).unwrap(), 3);
    assert!(f.check(&3).is_ok());
    assert_eq!(f.check(&7).errors(), vec!["anything but 7".to_string()]);
}

#[test]
fn check_replays_mutation_in_check_mode() {
    // Checking is a replay of mutation under a CheckOnly generator: a
    // satisfying value passes through unchanged, and any needed change
    // surfaces as the violation message instead of happening.
    let f = eq("must be 5", 5u32);
    let mut c = Generator::checker();
    match f.mutate(5, &mut c) {
        Ok(v) => assert_eq!(v, 5),
        Err(_) => panic!("satisfying value must replay unchanged"),
    }
    let mut c = Generator::checker();
    match f.mutate(4, &mut c) {
        Err(MutationError::Rejected(msg)) => assert_eq!(msg, "must be 5"),
        _ => panic!("unsatisfied value must be rejected in check mode"),
    }
}

#[test]
fn satisfy_result_passes_check() {
    let mut g = Generator::build_from(noise_bytes(256));
    let f = or(eq("one", 1u32), eq("two", 2u32));
    let v = f.satisfy(9u32, &mut g).unwrap();
    assert!(f.check(&v).is_ok());
}

#[test]
fn membership_build_lands_in_set() {
    let mut g = Generator::build_from(noise_bytes(64));
    let candidates = [10u32, 20, 30];
    let f = in_slice("choose a candidate", &candidates);
    let v = f.build(&mut g).unwrap();
    assert!(candidates.contains(&v));
    assert!(f.check(&20).is_ok());
    assert_eq!(f.check(&7).errors(), vec!["choose a candidate".to_string()]);
}

#[test]
fn membership_default_labels() {
    let f = in_slice_(&[1u32, 2]);
    assert_eq!(f.check(&9).errors(), vec!["in_slice".to_string()]);
    let h = in_iter(vec![5u32]);
    assert_eq!(h.check(&9).errors(), vec!["in_iter".to_string()]);
    assert!(h.check(&5).is_ok());
}

#[test]
fn or_accepts_either_arm() {
    let f = or(eq("one", 1u32), eq("two", 2u32));
    assert!(f.check(&1).is_ok());
    assert!(f.check(&2).is_ok());
    assert_eq!(f.check(&3).count(), 1);
    let mut g = Generator::build_from(noise_bytes(64));
    let v = f.mutate(3, &mut g).unwrap();
    assert!(v == 1 || v == 2);
}

#[test]
fn brute_even_resamples() {
    let mut g = Generator::build_from(noise_bytes(1024));
    let f = brute("value is even", IsEven);
    assert_eq!(f.mutate(3u32, &mut g).unwrap() % 2, 0);
    assert_eq!(f.mutate(8u32, &mut g).unwrap(), 8);
    assert!(f.check(&2).is_ok());
    assert_eq!(f.check(&3).errors(), vec!["value is even".to_string()]);
}

#[test]
fn pipeline_preserves_trailing_member() {
    // Pipelines run left to right: the trailing member's guarantee holds of
    // the result, while what an earlier member arranged may be undone by a
    // later resampling member.
    let mut g = Generator::build_from(noise_bytes(1024));
    let brute_first = and(brute("value is even", IsEven), eq("must be 5", 5u32));
    assert_eq!(brute_first.mutate(3u32, &mut g).unwrap(), 5);

    let brute_last = and(eq("must be 5", 5u32), brute("value is even", IsEven));
    let v = brute_last.mutate(3u32, &mut g).unwrap();
    // The resample undid the equality arranged before it.
    assert_eq!(v % 2, 0);
    assert_ne!(v, 5);
    assert!(!brute_last.check(&v).is_ok());
}

#[test]
fn impossible_brute_fails_fast() {
    let mut g = Generator::build_from(noise_bytes(4096));
    let f = brute("cannot be satisfied", NeverHolds);
    match f.build(&mut g) {
        Err(Fatal::BruteForceExceeded(msg)) => assert_eq!(msg, "cannot be satisfied"),
        _ => panic!("an unsatisfiable brute constraint must fail fatally"),
    }
}

#[test]
fn exhausted_entropy_is_reported() {
    let mut g = Generator::build_from(vec![1u8]);
    let f = eq("must be 5", 5u32);
    match f.build(&mut g) {
        Err(Fatal::Exhausted) => {},
        _ => panic!("an empty buffer must surface as exhaustion"),
    }
}

#[test]
fn check_result_roundtrip() {
    let f = eq("must be 1", 1u32);
    assert!(f.check(&1).result().is_ok());
    assert_eq!(f.check(&0).result().unwrap_err(), vec!["must be 1".to_string()]);
}

#[test]
fn check_seq_tags_positions() {
    let objs = vec![4u32, 7u32];
    let c = check_seq(&objs, eq("must be 4", 4u32));
    assert_eq!(c.errors(), vec!["item 1: must be 4".to_string()]);
}

#[test]
fn consecutive_sequence() {
    let mut g = Generator::build_from(noise_bytes(256));
    let seq = build_seq(&mut g, 5, consecutive("must count up")).unwrap();
    assert_eq!(seq.len(), 5);
    for i in 1..5 {
        assert_eq!(seq[i], seq[i - 1].wrapping_add(1));
    }
    assert!(check_seq(&seq, consecutive("must count up")).is_ok());

    let broken = vec![3u32, 4, 9];
    assert_eq!(
        check_seq(&broken, consecutive("must count up")).errors(),
        vec!["item 2: must count up".to_string()]
    );
}

#[test]
fn decimal_rendering() {
    assert_eq!(dec_string(0), "0");
    assert_eq!(dec_string(7), "7");
    assert_eq!(dec_string(120), "120");
    assert_eq!(dec_string(100030), "100030");
}
