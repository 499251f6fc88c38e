use fn_zip::SplitConcat;

#[test]
fn split_concat_arity_zero() {
    let combined: () = <() as SplitConcat<(), ()>>::concat((), ());
    let (left, right): ((), ()) = combined.split();
    assert_eq!(left, ());
    assert_eq!(right, ());
}

#[test]
fn split_concat_arity_one() {
    let combined: (u8,) = <(u8,) as SplitConcat<(u8,), ()>>::concat((1u8,), ());
    assert_eq!(combined, (1u8,));
    let (left, right): ((u8,), ()) = combined.split();
    assert_eq!(left, (1u8,));
    assert_eq!(right, ());

    let combined: (u8,) = <(u8,) as SplitConcat<(), (u8,)>>::concat((), (2u8,));
    let (left, right): ((), (u8,)) = combined.split();
    assert_eq!(left, ());
    assert_eq!(right, (2u8,));
}

#[test]
fn split_concat_arity_two() {
    let combined: (u8, u16) = <(u8, u16) as SplitConcat<(u8,), (u16,)>>::concat((1u8,), (2u16,));
    assert_eq!(combined, (1u8, 2u16));
    let (left, right): ((u8,), (u16,)) = combined.split();
    assert_eq!(left, (1u8,));
    assert_eq!(right, (2u16,));

    let (left, right): ((), (u8, u16)) = (1u8, 2u16).split();
    assert_eq!(left, ());
    assert_eq!(right, (1u8, 2u16));

    let (left, right): ((u8, u16), ()) = (1u8, 2u16).split();
    assert_eq!(left, (1u8, 2u16));
    assert_eq!(right, ());
}

#[test]
fn split_concat_arity_three() {
    let combined: (u8, u16, u32) =
        <(u8, u16, u32) as SplitConcat<(u8,), (u16, u32)>>::concat((1u8,), (2u16, 3u32));
    assert_eq!(combined, (1u8, 2u16, 3u32));
    let (left, right): ((u8,), (u16, u32)) = combined.split();
    assert_eq!(left, (1u8,));
    assert_eq!(right, (2u16, 3u32));

    let (left, right): ((u8, u16), (u32,)) = (1u8, 2u16, 3u32).split();
    assert_eq!(left, (1u8, 2u16));
    assert_eq!(right, (3u32,));
}

#[test]
fn split_concat_arity_four() {
    let combined: (u8, u16, u32, u64) =
        <(u8, u16, u32, u64) as SplitConcat<(u8, u16), (u32, u64)>>::concat(
            (1u8, 2u16),
            (3u32, 4u64),
        );
    assert_eq!(combined, (1u8, 2u16, 3u32, 4u64));
    let (left, right): ((u8, u16), (u32, u64)) = combined.split();
    assert_eq!(left, (1u8, 2u16));
    assert_eq!(right, (3u32, 4u64));

    let (left, right): ((u8, u16, u32), (u64,)) = (1u8, 2u16, 3u32, 4u64).split();
    assert_eq!(left, (1u8, 2u16, 3u32));
    assert_eq!(right, (4u64,));

    let (left, right): ((u8,), (u16, u32, u64)) = (1u8, 2u16, 3u32, 4u64).split();
    assert_eq!(left, (1u8,));
    assert_eq!(right, (2u16, 3u32, 4u64));
}

#[test]
fn concat_of_split_rebuilds_combined() {
    let combined: (u8, u16, u32) = (7u8, 8u16, 9u32);
    let (left, right): ((u8,), (u16, u32)) = combined.split();
    let rebuilt: (u8, u16, u32) = SplitConcat::concat(left, right);
    assert_eq!(rebuilt, combined);
}
