use llsc::codec::{Addr, IsUsize, Isu32};
use llsc::Ordering;

// Round trip of the full-word codec, for every supported payload type.
#[test]
fn codec_usize_round_trip() {
    for x in [0usize, 1, 42, usize::MAX / 2, usize::MAX] {
        assert_eq!(usize::from_usize(IsUsize::to_usize(&x)), x);
    }
}

#[test]
fn codec_isize_round_trip() {
    for x in [0isize, 1, -1, 42, -42, isize::MIN, isize::MAX] {
        assert_eq!(<isize as IsUsize>::from_usize(IsUsize::to_usize(&x)), x);
    }
}

#[test]
fn codec_bool_round_trip() {
    assert_eq!(bool::from_usize(IsUsize::to_usize(&true)), true);
    assert_eq!(bool::from_usize(IsUsize::to_usize(&false)), false);
    // The two reserved words, exactly.
    assert_eq!(IsUsize::to_usize(&false), 0);
    assert_eq!(IsUsize::to_usize(&true), 1);
}

#[test]
fn codec_addr_round_trip() {
    for x in [Addr(0), Addr(1), Addr(0xdead_beef), Addr(usize::MAX)] {
        assert_eq!(<Addr as IsUsize>::from_usize(IsUsize::to_usize(&x)), x);
    }
}

// Round trip of the half-word codec used by the tagged backend, on the
// values it can represent.
#[test]
fn codec_half_word_round_trip() {
    for x in [0usize, 1, 42, u32::MAX as usize] {
        assert!(Isu32::fits(&x));
        assert_eq!(usize::from_u32(Isu32::to_u32(&x)), x);
    }
    assert!(!Isu32::fits(&(u32::MAX as usize + 1)));

    for x in [0isize, 1, -1, i32::MIN as isize, i32::MAX as isize] {
        assert!(Isu32::fits(&x));
        assert_eq!(<isize as Isu32>::from_u32(Isu32::to_u32(&x)), x);
    }
    assert!(!Isu32::fits(&(i32::MAX as isize + 1)));
    assert!(!Isu32::fits(&(i32::MIN as isize - 1)));

    for x in [Addr(0), Addr(77), Addr(u32::MAX as usize)] {
        assert!(Isu32::fits(&x));
        assert_eq!(<Addr as Isu32>::from_u32(Isu32::to_u32(&x)), x);
    }
}

// Ordering validity by direction: Release and AcqRel are rejected for a
// load, Acquire and AcqRel for an unconditional store.
#[test]
fn ordering_rejects_invalid_load() {
    assert!(Ordering::Relaxed.valid_for_load());
    assert!(Ordering::Acquire.valid_for_load());
    assert!(Ordering::SeqCst.valid_for_load());
    assert!(!Ordering::Release.valid_for_load());
    assert!(!Ordering::AcqRel.valid_for_load());
}

#[test]
fn ordering_rejects_invalid_store() {
    assert!(Ordering::Relaxed.valid_for_store());
    assert!(Ordering::Release.valid_for_store());
    assert!(Ordering::SeqCst.valid_for_store());
    assert!(!Ordering::Acquire.valid_for_store());
    assert!(!Ordering::AcqRel.valid_for_store());
}
