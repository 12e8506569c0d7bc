use alarm_clock::selector::{BinarySelector, LinearSelector, Selector};

#[test]
fn test_linear_selector() {
    let even = vec![0, 1, 2, 3];
    let odd = vec![0, 1, 2, 3, 4];

    let mut selector_even = LinearSelector::new(even);
    let mut selector_odd = LinearSelector::new(odd);

    assert_eq!(selector_even.curr(), &0);
    assert_eq!(selector_odd.curr(), &0);

    for selector in &mut [&mut selector_even, &mut selector_odd] {
        // test increment through whole selector
        for i in 1..selector.len() {
            assert_eq!(selector.incr(), &i);
        }
        // test increment wrap
        for i in 0..selector.len() {
            assert_eq!(selector.incr(), &i);
        }

        // test decrement through whole selector
        for i in (0..selector.len() - 1).rev() {
            assert_eq!(selector.decr(), &i);
        }
        // test decrement wrap
        for i in (0..selector.len()).rev() {
            assert_eq!(selector.decr(), &i);
        }
    }

    // test reset
    selector_even.reset();
    selector_odd.reset();
    assert_eq!(selector_even.curr(), &0);
    assert_eq!(selector_odd.curr(), &0);
}

#[test]
fn test_binary_selector() {
    let even = (0..10_usize).collect();
    let odd = (0..11_usize).collect();

    let mut selector_even = BinarySelector::new(even);
    let mut selector_odd = BinarySelector::new(odd);

    assert_eq!(selector_even.curr(), &5);
    assert_eq!(selector_odd.curr(), &5);

    // test increment with wrap
    for x in &[8, 9, 0, 1, 2, 3, 4, 5, 6, 7, 8, 9, 0] {
        assert_eq!(selector_even.incr(), x);
    }

    for x in &[8, 10, 0, 1, 2, 3, 4, 5, 6, 7, 8, 9, 10, 0] {
        assert_eq!(selector_odd.incr(), x);
    }

    // reset for next test
    selector_even.reset();
    selector_odd.reset();

    assert_eq!(selector_even.curr(), &5);
    assert_eq!(selector_odd.curr(), &5);

    // test decrement with wrap
    for x in &[2, 1, 0, 9, 8, 7, 6, 5, 4, 3, 2, 1, 0, 9] {
        assert_eq!(selector_even.decr(), x);
    }

    for x in &[2, 1, 0, 10, 9, 8, 7, 6, 5, 4, 3, 2, 1, 0, 10] {
        assert_eq!(selector_odd.decr(), x);
    }

    // reset for next test
    selector_even.reset();
    selector_odd.reset();

    assert_eq!(selector_even.curr(), &5);
    assert_eq!(selector_odd.curr(), &5);

    // test forward and back
    for (f, x) in &[('d', 2), ('i', 4), ('d', 3), ('i', 4)] {
        match f {
            'i' => assert_eq!(selector_even.incr(), x),
            'd' => assert_eq!(selector_even.decr(), x),
            _ => unreachable!(),
        }
    }

    for (f, x) in &[('d', 2), ('i', 4), ('d', 3), ('i', 4)] {
        match f {
            'i' => assert_eq!(selector_odd.incr(), x),
            'd' => assert_eq!(selector_odd.decr(), x),
            _ => unreachable!(),
        }
    }
}

#[test]
fn linear_cycle_from_any_start() {
    // As many steps as there are items always lead back to the start,
    // from any starting index.
    for start in 0..7_usize {
        let mut s = LinearSelector::new((0..7_usize).collect());
        for _ in 0..start {
            s.incr();
        }
        let at = *s.curr();
        for _ in 0..7 {
            s.incr();
        }
        assert_eq!(*s.curr(), at);
        for _ in 0..7 {
            s.decr();
        }
        assert_eq!(*s.curr(), at);
    }
}
