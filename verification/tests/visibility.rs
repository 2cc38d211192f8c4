use lag_metrics::visibility::VisibilityToggle;

#[test]
fn cycles_through_the_four_states() {
    let mut v = VisibilityToggle::new();
    assert_eq!((v.local_is_hidden(), v.remote_is_hidden()), (false, false));
    v.toggle();
    assert_eq!((v.local_is_hidden(), v.remote_is_hidden()), (true, false));
    v.toggle();
    assert_eq!((v.local_is_hidden(), v.remote_is_hidden()), (false, true));
    v.toggle();
    assert_eq!((v.local_is_hidden(), v.remote_is_hidden()), (true, true));
    v.toggle();
    assert_eq!((v.local_is_hidden(), v.remote_is_hidden()), (false, false));
}

#[test]
fn local_bit_alternates_every_press() {
    let mut v = VisibilityToggle::new();
    let mut expected = false;
    for _ in 0..8 {
        v.toggle();
        expected = !expected;
        assert_eq!(v.local_is_hidden(), expected);
    }
}

#[test]
fn remote_bit_alternates_every_second_press() {
    let mut v = VisibilityToggle::new();
    for round in 0..4 {
        v.toggle();
        v.toggle();
        assert_eq!(v.remote_is_hidden(), round % 2 == 0);
    }
}

#[test]
fn counter_wraps_without_breaking_the_cycle() {
    let mut v = VisibilityToggle { counter: u32::MAX };
    assert_eq!((v.local_is_hidden(), v.remote_is_hidden()), (true, true));
    v.toggle();
    assert_eq!(v.counter, 0);
    assert_eq!((v.local_is_hidden(), v.remote_is_hidden()), (false, false));
}
