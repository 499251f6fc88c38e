use fn_zip::FnZip;
use fn_zip::Countdown;
use fn_zip::JoinedPair;
use fn_zip::MaybeDone;
use fn_zip::Pollable;

#[test]
fn countdown_completes_immediately_with_zero_steps() {
    let mut c = Countdown::new(0u64, 42u8);
    assert_eq!(c.poll(), Some(42u8));
}

#[test]
fn countdown_counts_down_before_completing() {
    let mut c = Countdown::new(2u64, 9u16);
    assert_eq!(c.poll(), None);
    assert_eq!(c.poll(), None);
    assert_eq!(c.poll(), Some(9u16));
}

#[test]
fn take_output_hands_value_out_exactly_once() {
    let mut side: MaybeDone<Countdown<u8>> = MaybeDone::Done(5u8);
    assert_eq!(side.take_output(), Some(5u8));
    assert!(matches!(side, MaybeDone::Collected));
    assert_eq!(side.take_output(), None);
    assert!(matches!(side, MaybeDone::Collected));
}

#[test]
fn take_output_on_pending_side_yields_nothing() {
    let mut side: MaybeDone<Countdown<u8>> = MaybeDone::Pending(Countdown::new(1, 5u8));
    assert_eq!(side.take_output(), None);
    assert!(matches!(side, MaybeDone::Pending(_)));
}

#[test]
fn join_ready_exactly_when_slower_side_completes() {
    // Left alone needs 3 drive steps, right alone needs 1: ready on step 3.
    let mut jp = JoinedPair::new(Countdown::new(2u64, 11u8), Countdown::new(0u64, 22u16));
    assert_eq!(jp.poll(), None);
    assert_eq!(jp.poll(), None);
    assert_eq!(jp.poll(), Some((11u8, 22u16)));
}

#[test]
fn join_ready_when_right_side_is_slower() {
    // Left alone needs 1 drive step, right alone needs 4: ready on step 4.
    let mut jp = JoinedPair::new(Countdown::new(0u64, 1u8), Countdown::new(3u64, 2u8));
    assert_eq!(jp.poll(), None);
    assert_eq!(jp.poll(), None);
    assert_eq!(jp.poll(), None);
    assert_eq!(jp.poll(), Some((1u8, 2u8)));
}

#[test]
fn join_of_equally_slow_sides() {
    let mut jp = JoinedPair::new(Countdown::new(1u64, 3u8), Countdown::new(1u64, 4u8));
    assert_eq!(jp.poll(), None);
    assert_eq!(jp.poll(), Some((3u8, 4u8)));
}

#[test]
fn join_starts_with_both_sides_pending() {
    let jp = JoinedPair::new(Countdown::new(1u64, 3u8), Countdown::new(0u64, 4u8));
    assert!(matches!(jp.left, MaybeDone::Pending(_)));
    assert!(matches!(jp.right, MaybeDone::Pending(_)));
}

#[test]
fn join_never_double_collects() {
    let mut jp = JoinedPair::new(Countdown::new(0u64, 7u8), Countdown::new(1u64, 8u8));
    assert_eq!(jp.poll(), None);
    assert_eq!(jp.poll(), Some((7u8, 8u8)));
    // After "ready" both sides are collected and exhausted: no further value
    // can come out of either side.
    assert!(matches!(jp.left, MaybeDone::Collected));
    assert!(matches!(jp.right, MaybeDone::Collected));
    assert_eq!(jp.left.take_output(), None);
    assert_eq!(jp.right.take_output(), None);
}

#[test]
fn zipped_join_tracks_both_sides() {
    let ab = (|x: (u8,)| Countdown::new(2, x.0 + 1)).fn_zip(|y: (u8,)| Countdown::new(0, y.0 * 2));
    let mut join = ab.async_call((4u8, 5u8));
    assert_eq!(join.poll(), None);
    assert_eq!(join.poll(), None);
    assert_eq!(join.poll(), Some((5u8, 10u8)));
    assert!(matches!(join.left, MaybeDone::Collected));
    assert!(matches!(join.right, MaybeDone::Collected));
}

#[test]
fn zipped_join_with_wider_left_argument_list() {
    let ab =
        (|x: (u8, u8)| Countdown::new(1, x.0 + x.1)).fn_zip(|y: (u8,)| Countdown::new(2, y.0 * 3));
    let mut join = ab.async_call_once((2u8, 3u8, 4u8));
    assert_eq!(join.poll(), None);
    assert_eq!(join.poll(), None);
    assert_eq!(join.poll(), Some((5u8, 12u8)));
}

#[test]
fn side_polls_independently_of_other_side() {
    // The right side keeps advancing on every drive step of the pair, also
    // on steps where the left side stays pending.
    let mut jp = JoinedPair::new(Countdown::new(5u64, 1u8), Countdown::new(2u64, 2u8));
    assert_eq!(jp.poll(), None);
    assert_eq!(jp.poll(), None);
    assert_eq!(jp.poll(), None);
    match &jp.right {
        MaybeDone::Done(v) => assert_eq!(*v, 2u8),
        _ => panic!("right side should have completed after three steps"),
    }
    match &jp.left {
        MaybeDone::Pending(c) => assert_eq!(c.remaining, 2u64),
        _ => panic!("left side should still be pending"),
    }
}
