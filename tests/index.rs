use column_view::{
    get_bit_raw, BooleanType, IndexOutOfBounds, Int16Type, Int32Type, Int64Type, Int8Type,
    PrimitiveArray, UInt16Type, UInt32Type, UInt64Type, UInt8Type,
};

#[test]
fn int_index() {
    let backing = [0, 0, 0, 42, 0];
    let arr = PrimitiveArray::<Int32Type>::new(&backing, backing.len());
    assert!(arr.value(2) == 0);
    assert!(arr.value(3) == 42);
}

#[test]
fn bool_index() {
    let backing = [8_u8];
    let arr = PrimitiveArray::<BooleanType>::new(&backing, 8);
    assert!(arr.value(2) == false);
    assert!(arr.value(3) == true);
}

#[test]
fn int_index_four_elements() {
    let backing: [i32; 5] = [0, 0, 0, 42, 0];
    let arr = PrimitiveArray::<Int32Type>::new(&backing, 4);
    assert_eq!(arr.len(), 4);
    assert_eq!(arr.value(2), 0);
    assert_eq!(arr.value(3), 42);
    assert_eq!(arr.value_checked(4), Err(IndexOutOfBounds { index: 4, len: 4 }));
}

#[test]
fn bool_single_byte_every_bit() {
    let backing = [8_u8];
    let arr = PrimitiveArray::<BooleanType>::new(&backing, 8);
    for j in 0..8 {
        assert_eq!(arr.value(j), j == 3);
    }
}

#[test]
fn bool_lsb_first_across_bytes() {
    // bits 0, 7, 8 and 13 set
    let backing = [0b1000_0001_u8, 0b0010_0001_u8];
    let arr = PrimitiveArray::<BooleanType>::new(&backing, 16);
    let expected: Vec<bool> = (0..16).map(|j| j == 0 || j == 7 || j == 8 || j == 13).collect();
    assert_eq!(arr.to_vec(), expected);
}

#[test]
fn bool_length_not_multiple_of_eight() {
    // ten elements in two bytes; the high six bits of the second byte are padding
    let backing = [0b0101_0101_u8, 0b1111_1110_u8];
    let arr = PrimitiveArray::<BooleanType>::new(&backing, 10);
    assert_eq!(
        arr.to_vec(),
        vec![true, false, true, false, true, false, true, false, false, true]
    );
    assert_eq!(arr.value_checked(9), Ok(true));
    assert_eq!(arr.value_checked(10), Err(IndexOutOfBounds { index: 10, len: 10 }));
}

#[test]
fn get_bit_raw_masks() {
    let masks: [u8; 8] = [1, 2, 4, 8, 16, 32, 64, 128];
    for (k, m) in masks.iter().enumerate() {
        let data = [0_u8, *m];
        for j in 0..16 {
            assert_eq!(get_bit_raw(&data, j), j == 8 + k);
        }
    }
}

#[test]
fn round_trip_every_native_size() {
    let a: Vec<i8> = vec![-128, -1, 0, 1, 127];
    assert_eq!(PrimitiveArray::<Int8Type>::new(&a, a.len()).to_vec(), a);
    let b: Vec<i16> = vec![i16::MIN, -300, 0, 300, i16::MAX];
    assert_eq!(PrimitiveArray::<Int16Type>::new(&b, b.len()).to_vec(), b);
    let c: Vec<i32> = vec![i32::MIN, -70000, 0, 70000, i32::MAX];
    assert_eq!(PrimitiveArray::<Int32Type>::new(&c, c.len()).to_vec(), c);
    let d: Vec<i64> = vec![i64::MIN, -5_000_000_000, 0, 5_000_000_000, i64::MAX];
    assert_eq!(PrimitiveArray::<Int64Type>::new(&d, d.len()).to_vec(), d);
    let e: Vec<u8> = vec![0, 1, 200, 255];
    assert_eq!(PrimitiveArray::<UInt8Type>::new(&e, e.len()).to_vec(), e);
    let f: Vec<u16> = vec![0, 1, 40000, u16::MAX];
    assert_eq!(PrimitiveArray::<UInt16Type>::new(&f, f.len()).to_vec(), f);
    let g: Vec<u32> = vec![0, 1, 3_000_000_000, u32::MAX];
    assert_eq!(PrimitiveArray::<UInt32Type>::new(&g, g.len()).to_vec(), g);
    let h: Vec<u64> = vec![0, 1, 10_000_000_000_000_000_000, u64::MAX];
    assert_eq!(PrimitiveArray::<UInt64Type>::new(&h, h.len()).to_vec(), h);
}

#[test]
fn round_trip_reads_each_index() {
    let pattern: Vec<u16> = (0..50).map(|k| k * 1000 + 7).collect();
    let arr = PrimitiveArray::<UInt16Type>::new(&pattern, pattern.len());
    for (k, v) in pattern.iter().enumerate() {
        assert_eq!(arr.value(k), *v);
    }
}

#[test]
fn view_shorter_than_buffer() {
    let backing: Vec<i64> = vec![10, 20, 30];
    let arr = PrimitiveArray::<Int64Type>::new(&backing, 2);
    assert_eq!(arr.to_vec(), vec![10, 20]);
    assert_eq!(arr.value_checked(2), Err(IndexOutOfBounds { index: 2, len: 2 }));
}

#[test]
fn repeated_reads_agree() {
    let backing = [0b0110_0000_u8];
    let arr = PrimitiveArray::<BooleanType>::new(&backing, 8);
    for j in 0..8 {
        assert_eq!(arr.value(j), arr.value(j));
    }
    assert_eq!(arr.value(5), true);
    assert_eq!(arr.value(6), true);
    assert_eq!(arr.value(7), false);
    let ints = [5_i32, 6];
    let view = PrimitiveArray::<Int32Type>::new(&ints, 2);
    assert_eq!(view.value(1), view.value(1));
}

#[test]
fn empty_views() {
    let none: [u8; 0] = [];
    let bits = PrimitiveArray::<BooleanType>::new(&none, 0);
    assert!(bits.is_empty());
    assert_eq!(bits.to_vec(), Vec::<bool>::new());
    assert_eq!(bits.value_checked(0), Err(IndexOutOfBounds { index: 0, len: 0 }));
    let nums: [u32; 0] = [];
    let dense = PrimitiveArray::<UInt32Type>::new(&nums, 0);
    assert!(dense.is_empty());
    assert_eq!(dense.len(), 0);
}
