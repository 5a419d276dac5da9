use iter_rationals::Rationals;

#[test]
fn test_speed_is_reasonable() {
    let mut r = Rationals::<u32>::new();
    let nth_rational = r.nth(1_000_000).unwrap();
    println!("{}/{}", nth_rational.numer(), nth_rational.denom());
    let expected: (u32, u32) = (1287, 1096);
    assert_eq!(expected, (nth_rational.numer(), nth_rational.denom()));
}

#[test]
fn test_first_values_are_as_expected() {
    let expected_parts: [(u32, u32); 15] = [
        (1, 1),
        (1, 2),
        (2, 1),
        (1, 3),
        (3, 2),
        (2, 3),
        (3, 1),
        (1, 4),
        (4, 3),
        (3, 5),
        (5, 2),
        (2, 5),
        (5, 3),
        (3, 4),
        (4, 1),
    ];
    let mut r = Rationals::<u32>::new();
    let found = r.take(expected_parts.len());
    assert_eq!(found.len(), expected_parts.len());
    for i in 0..found.len() {
        assert_eq!((found[i].numer(), found[i].denom()), expected_parts[i]);
    }
}

#[test]
fn test_builtin_types() {
    let limit = 32;

    Rationals::<u8>::new().nth(limit).unwrap();
    Rationals::<u16>::new().nth(limit).unwrap();
    Rationals::<u32>::new().nth(limit).unwrap();
    Rationals::<u64>::new().nth(limit).unwrap();
    Rationals::<u128>::new().nth(limit).unwrap();

    Rationals::<i8>::new().nth(limit).unwrap();
    Rationals::<i16>::new().nth(limit).unwrap();
    Rationals::<i32>::new().nth(limit).unwrap();
    Rationals::<i64>::new().nth(limit).unwrap();
    Rationals::<i128>::new().nth(limit).unwrap();

    Rationals::<usize>::new().nth(limit).unwrap();
    Rationals::<isize>::new().nth(limit).unwrap();
}

#[test]
fn test_prefix_values_are_pairwise_distinct() {
    let mut r = Rationals::<u64>::new();
    let values = r.take(200);
    assert_eq!(values.len(), 200);
    for i in 0..values.len() {
        for j in 0..i {
            let same = values[i].numer() == values[j].numer()
                && values[i].denom() == values[j].denom();
            assert!(!same);
        }
    }
}

#[test]
fn test_values_are_in_lowest_terms() {
    let mut r = Rationals::<u32>::new();
    let values = r.take(300);
    assert_eq!(values.len(), 300);
    for v in values.iter() {
        let mut a = v.numer();
        let mut b = v.denom();
        while b != 0 {
            let t = a % b;
            a = b;
            b = t;
        }
        assert_eq!(a, 1);
    }
}

#[test]
fn test_values_are_positive() {
    let mut r = Rationals::<i32>::new();
    let values = r.take(300);
    assert_eq!(values.len(), 300);
    for v in values.iter() {
        assert!(v.numer() > 0);
        assert!(v.denom() > 0);
    }
}

#[test]
fn test_fresh_enumerators_produce_identical_sequences() {
    let mut r1 = Rationals::<u64>::new();
    let mut r2 = Rationals::<u64>::new();
    for _ in 0..1000 {
        let v1 = r1.next().unwrap();
        let v2 = r2.next().unwrap();
        assert_eq!(v1.numer(), v2.numer());
        assert_eq!(v1.denom(), v2.denom());
    }
}

#[test]
fn test_nth_skips_to_the_requested_offset() {
    let mut r = Rationals::<u32>::new();
    let v = r.nth(7).unwrap();
    assert_eq!((v.numer(), v.denom()), (1, 4));
    // nth counts from the current position: the next offset-0 value is the
    // ninth of the sequence.
    let w = r.nth(0).unwrap();
    assert_eq!((w.numer(), w.denom()), (4, 3));
}

#[test]
fn test_narrow_type_exhausts_and_stays_parked() {
    let mut r = Rationals::<u8>::new();
    let mut produced: u32 = 0;
    let mut exhausted = false;
    for _ in 0..100_000 {
        match r.next() {
            Some(v) => {
                assert!(v.numer() >= 1);
                assert!(v.denom() >= 1);
                produced += 1;
            }
            None => {
                exhausted = true;
                break;
            }
        }
    }
    assert!(exhausted);
    assert!(produced > 0);
    // Once the range is exhausted the enumerator keeps refusing.
    assert!(r.next().is_none());
    assert!(r.next().is_none());
}

#[test]
fn test_nth_is_none_once_the_range_is_exhausted() {
    let mut r = Rationals::<u8>::new();
    assert!(r.nth(100_000).is_none());
}

#[test]
fn test_take_stops_at_exhaustion() {
    let mut r = Rationals::<u8>::new();
    let values = r.take(100_000);
    assert!(values.len() < 100_000);
    assert!(values.len() > 0);
    assert!(r.next().is_none());
}
