use jadevid::framenum::FrameNum;
use jadevid::framespan::FrameSpan;
use jadevid::rational::JadeRational;
use std::ops::Range;

#[test]
fn rational_native_round_trip() {
    let r = JadeRational::new(30, 1);
    let (num, den) = r.native_parts();
    assert_eq!(num, 30);
    assert_eq!(den, 1);
    assert_eq!(JadeRational::from_native_parts(num, den), r);
}

#[test]
fn rational_native_round_trip_negative_and_unreduced() {
    for (num, den) in [(-7, 3), (24000, 1001), (0, 1), (6, -4), (i32::MAX, i32::MIN)] {
        let r = JadeRational::new(num, den);
        let (n2, d2) = r.native_parts();
        assert_eq!((n2, d2), (num, den));
        assert_eq!(JadeRational::from_native_parts(n2, d2), r);
    }
}

#[test]
fn span_len_and_contains() {
    let s = FrameSpan { from: FrameNum(2), to_excl: FrameNum(7) };
    assert_eq!(s.len(), 5);
    assert!(!s.contains(FrameNum(1)));
    assert!(s.contains(FrameNum(2)));
    assert!(s.contains(FrameNum(4)));
    assert!(s.contains(FrameNum(6)));
    assert!(!s.contains(FrameNum(7)));
    assert!(!s.contains(FrameNum(100)));
}

#[test]
fn empty_span_is_valid_sentinel() {
    let s = FrameSpan { from: FrameNum(5), to_excl: FrameNum(5) };
    assert_eq!(s.len(), 0);
    for f in [0, 4, 5, 6, u64::MAX] {
        assert!(!s.contains(FrameNum(f)));
    }
}

#[test]
fn malformed_span_saturates_to_empty() {
    let s = FrameSpan { from: FrameNum(9), to_excl: FrameNum(3) };
    assert_eq!(s.len(), 0);
    assert!(!s.contains(FrameNum(5)));
    assert!(!s.contains(FrameNum(9)));
}

#[test]
fn span_range_round_trip() {
    let s = FrameSpan { from: FrameNum(10), to_excl: FrameNum(20) };
    let r: Range<u64> = s.clone().into();
    assert_eq!(r, 10..20);
    let back: FrameSpan = r.into();
    assert_eq!(back, s);

    let r2: Range<u64> = 3..3;
    let s2: FrameSpan = r2.clone().into();
    assert_eq!(s2, FrameSpan { from: FrameNum(3), to_excl: FrameNum(3) });
    let back2: Range<u64> = s2.into();
    assert_eq!(back2, r2);
}

#[test]
fn frame_numbers_are_ordered() {
    assert!(FrameNum(3) < FrameNum(4));
    assert_eq!(FrameNum(3), FrameNum(3));
    let largest = FrameNum(u64::MAX);
    assert!(FrameNum(0) < largest);
}
