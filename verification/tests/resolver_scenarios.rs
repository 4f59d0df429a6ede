use climb_splitter::resolver::{find, validates, Candidate, PointerResolver, Probe};

fn candidate(chain: Vec<u64>, expected: f32) -> Candidate {
    Candidate { chain, validation_path: vec![0xe8], expected_bits: expected.to_bits() }
}

fn failed_probe() -> Probe {
    Probe { address: None, sentinel: None }
}

#[test]
fn all_failing_table_finds_nothing() {
    let table = vec![
        candidate(vec![0x10, 0x20], 75.0),
        candidate(vec![0x30], 75.0),
        candidate(vec![0x40, 0x50, 0x60], -0.5),
    ];
    let probes = vec![failed_probe(), failed_probe(), failed_probe()];
    assert_eq!(find(&table, &probes), None);
}

#[test]
fn empty_table_finds_nothing() {
    let table: Vec<Candidate> = vec![];
    let probes: Vec<Probe> = vec![];
    assert_eq!(find(&table, &probes), None);
}

#[test]
fn mismatched_sentinels_find_nothing() {
    let table = vec![candidate(vec![0x10], 75.0), candidate(vec![0x20], 75.0)];
    // Both chains resolve, but the sentinel reads back as a different value.
    let probes = vec![
        Probe { address: Some(0x1000), sentinel: Some(74.0f32.to_bits()) },
        Probe { address: Some(0x2000), sentinel: Some(0.0f32.to_bits()) },
    ];
    assert_eq!(find(&table, &probes), None);
}

#[test]
fn first_validating_candidate_wins() {
    let table = vec![
        candidate(vec![0x10], 75.0),
        candidate(vec![0x20], 75.0),
        candidate(vec![0x30], 75.0),
    ];
    let probes = vec![
        failed_probe(),
        Probe { address: Some(0x2000), sentinel: Some(75.0f32.to_bits()) },
        Probe { address: Some(0x3000), sentinel: Some(75.0f32.to_bits()) },
    ];
    let found = find(&table, &probes).expect("second candidate validates");
    assert_eq!(found.index, 1);
    assert_eq!(found.address, 0x2000);
}

#[test]
fn nan_sentinel_never_validates() {
    let c = candidate(vec![0x10], f32::NAN);
    let p = Probe { address: Some(0x1000), sentinel: Some(f32::NAN.to_bits()) };
    assert!(!validates(&c, &p));
}

#[test]
fn resolved_chain_without_sentinel_does_not_validate() {
    let c = candidate(vec![0x10], -0.5);
    let p = Probe { address: Some(0x1000), sentinel: None };
    assert!(!validates(&c, &p));
}

#[test]
fn negative_zero_sentinel_matches_zero() {
    // Exact IEEE-754 equality: -0.0 and 0.0 compare equal.
    let c = candidate(vec![0x10], 0.0);
    let p = Probe { address: Some(0x1000), sentinel: Some((-0.0f32).to_bits()) };
    assert!(validates(&c, &p));
}

#[test]
fn rescan_caches_the_found_object() {
    let table = vec![candidate(vec![0x10], -0.5), candidate(vec![0x20], -0.5)];
    let probes = vec![
        failed_probe(),
        Probe { address: Some(0xbeef), sentinel: Some((-0.5f32).to_bits()) },
    ];
    let mut resolver = PointerResolver::new();
    assert_eq!(resolver.cached, None);
    let found = resolver.rescan(&table, &probes).expect("found");
    assert_eq!(found.index, 1);
    assert_eq!(resolver.cached, Some(found));
}

#[test]
fn failed_rescan_clears_the_cache() {
    let table = vec![candidate(vec![0x10], -0.5)];
    let good = vec![Probe { address: Some(0xbeef), sentinel: Some((-0.5f32).to_bits()) }];
    let bad = vec![failed_probe()];
    let mut resolver = PointerResolver::new();
    resolver.rescan(&table, &good).expect("found");
    assert_eq!(resolver.rescan(&table, &bad), None);
    assert_eq!(resolver.cached, None);
}

#[test]
fn revalidation_keeps_or_drops_the_cache() {
    let table = vec![candidate(vec![0x10], -0.5)];
    let probes = vec![Probe { address: Some(0xbeef), sentinel: Some((-0.5f32).to_bits()) }];
    let mut resolver = PointerResolver::new();
    let found = resolver.rescan(&table, &probes).expect("found");

    // The object still reads back its sentinel: the cache is kept.
    assert!(resolver.revalidate(&table, Some((-0.5f32).to_bits())));
    assert_eq!(resolver.cached, Some(found));

    // The memory was reused by something else: the cache is dropped.
    assert!(!resolver.revalidate(&table, Some(1.25f32.to_bits())));
    assert_eq!(resolver.cached, None);
}

#[test]
fn revalidation_fails_on_unreadable_sentinel() {
    let table = vec![candidate(vec![0x10], -0.5)];
    let probes = vec![Probe { address: Some(0xbeef), sentinel: Some((-0.5f32).to_bits()) }];
    let mut resolver = PointerResolver::new();
    resolver.rescan(&table, &probes).expect("found");
    assert!(!resolver.revalidate(&table, None));
    assert_eq!(resolver.cached, None);
}
