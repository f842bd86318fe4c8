use brig::bits::{bit_extract, bit_insert, mask};
use brig::emitter::SplitRange;
use brig::registers::PhysicalRegister;
use brig::unary::sign_extend;

#[test]
fn signextend_64() {
    assert_eq!(64, sign_extend(64, 8, 64));
}

#[test]
fn splitrange_low() {
    assert_eq!(
        SplitRange::new(4, 7),
        SplitRange { low_start: 4, low_length: 7, high_start: 0, high_length: 0 }
    );
}

#[test]
fn splitrange_high() {
    assert_eq!(
        SplitRange::new(78, 15),
        SplitRange { low_start: 0, low_length: 0, high_start: 14, high_length: 15 }
    );
}

#[test]
fn splitrange_split_0() {
    assert_eq!(
        SplitRange::new(32, 64),
        SplitRange { low_start: 32, low_length: 32, high_start: 0, high_length: 32 }
    );
}

#[test]
fn splitrange_split_1() {
    assert_eq!(
        SplitRange::new(63, 47),
        SplitRange { low_start: 63, low_length: 1, high_start: 0, high_length: 46 }
    );
}

#[test]
fn reg_index() {
    for i in 0..24usize {
        assert_eq!(i, PhysicalRegister::from_index(i).index());
    }
    for i in 0..24usize {
        let reg = PhysicalRegister::from_index(i);
        assert_eq!(reg, PhysicalRegister::from_index(reg.index()));
    }
}

#[test]
fn ones_smoke() {
    assert_eq!(0, mask(0));
    assert_eq!(1, mask(1));
    assert_eq!(0b111, mask(3));
    assert_eq!(u32::MAX as u64, mask(u32::BITS));
    assert_eq!(u64::MAX, mask(u64::BITS));
}

#[test]
fn ones_extract() {
    for start in 0u64..64 {
        for length in 0u64..64 {
            if start + length <= 64 {
                let value = mask(length as u32) << start;
                assert_eq!(bit_extract(value, start, length), mask(length as u32));
            }
        }
    }
}

#[test]
fn bit_insert_extract_prop() {
    let samples = [0u64, 1, 0xdead_beef_cafe_f00d, u64::MAX, 0x8000_0000_0000_0001];
    for &target in samples.iter() {
        for &source in samples.iter() {
            for start in (0u64..64).step_by(7) {
                for length in (0u64..64).step_by(5) {
                    if start + length <= 64 {
                        let inserted = bit_insert(target, source, start, length);
                        let extracted = bit_extract(inserted, start, length);
                        assert_eq!(extracted, source & mask(length as u32));
                    }
                }
            }
        }
    }
}

#[test]
fn sign_extend_negative_byte() {
    assert_eq!(sign_extend(0x80, 8, 64), 0xffff_ffff_ffff_ff80);
    assert_eq!(sign_extend(0x7f, 8, 64), 0x7f);
    assert_eq!(sign_extend(0, 0, 64), 0);
    assert_eq!(sign_extend(0xffff_ffff, 32, 64), u64::MAX);
}
