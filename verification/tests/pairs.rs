use orbital_dynamics::pairs::PairCache;

#[test]
fn a_new_cache_holds_no_distance() {
    let cache: PairCache<f64> = PairCache::new(4).expect("six pairs");
    assert_eq!(cache.bodies(), 4);
    for first in 0..4 {
        for second in 0..4 {
            assert_eq!(cache.get(first, second), None);
        }
    }
}

#[test]
fn a_stored_distance_is_found_in_both_directions() {
    let mut cache = PairCache::new(3).expect("three pairs");
    cache.store(0, 2, 1.5);
    assert_eq!(cache.get(0, 2), Some(1.5));
    assert_eq!(cache.get(2, 0), Some(1.5));
    assert_eq!(cache.get(0, 1), None);
    assert_eq!(cache.get(1, 0), None);
    assert_eq!(cache.get(1, 2), None);
    assert_eq!(cache.get(2, 1), None);
}

#[test]
fn storing_in_the_other_direction_replaces_the_distance() {
    let mut cache = PairCache::new(2).expect("one pair");
    cache.store(0, 1, 3);
    cache.store(1, 0, 4);
    assert_eq!(cache.get(0, 1), Some(4));
    assert_eq!(cache.get(1, 0), Some(4));
}

#[test]
fn every_pair_keeps_its_own_distance() {
    let bodies = 7;
    let mut cache = PairCache::new(bodies).expect("twenty-one pairs");
    for first in 0..bodies {
        for second in 0..bodies {
            if first < second {
                cache.store(first, second, 100 * first + second);
            }
        }
    }
    for first in 0..bodies {
        for second in 0..bodies {
            let wanted = if first == second {
                None
            } else {
                Some(100 * first.min(second) + first.max(second))
            };
            assert_eq!(cache.get(first, second), wanted, "pair ({}, {})", first, second);
        }
    }
}

#[test]
fn a_body_has_no_distance_to_itself() {
    let mut cache = PairCache::new(3).expect("three pairs");
    cache.store(0, 1, 1.0);
    cache.store(1, 2, 2.0);
    cache.store(0, 2, 3.0);
    for body in 0..3 {
        assert_eq!(cache.get(body, body), None);
    }
}

#[test]
fn a_body_that_is_not_there_has_no_distance() {
    let mut cache = PairCache::new(2).expect("one pair");
    cache.store(0, 1, 1.0);
    assert_eq!(cache.get(0, 2), None);
    assert_eq!(cache.get(2, 0), None);
    assert_eq!(cache.get(5, 9), None);
    assert_eq!(cache.get(usize::MAX, 0), None);
}

#[test]
fn a_single_body_forms_no_pair() {
    let cache: PairCache<f64> = PairCache::new(1).expect("no pair");
    assert_eq!(cache.bodies(), 1);
    assert_eq!(cache.get(0, 0), None);
    let none: PairCache<f64> = PairCache::new(0).expect("no pair");
    assert_eq!(none.bodies(), 0);
    assert_eq!(none.get(0, 0), None);
}

#[test]
fn more_pairs_than_a_buffer_holds_are_refused() {
    assert!(PairCache::<f64>::new(usize::MAX).is_none());
    assert!(PairCache::<f64>::new(usize::MAX / 2).is_none());
}
