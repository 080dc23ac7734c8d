use libsugar::combin::After;
use libsugar::combin::Before;
use libsugar::combin::With;

#[test]
fn test_combin_tuple() {
    let a: (i32, u8) = 1.with(2u8);
    assert_eq!(a, (1, 2));
    let b: (i32, u8, f64) = a.with(3f64);
    assert_eq!(b, (1, 2, 3.0));
    let c: (usize, i32, u8, f64) = b.after(0usize);
    assert_eq!(c, (0, 1, 2, 3.0));
}

#[test]
fn test_combin_array() {
    let a: [u8; 2] = 1.with(2);
    assert_eq!(a, [1, 2]);
    let b: [u8; 3] = a.with(3);
    assert_eq!(b, [1, 2, 3]);
    let c: [u8; 4] = b.after(0);
    assert_eq!(c, [0, 1, 2, 3]);
}

#[test]
fn base_case_seeds_two_element_array() {
    let p: [i32; 2] = 1.after(2);
    assert_eq!(p, [2, 1]);
    let q: [i32; 2] = 1.before(2);
    assert_eq!(q, [1, 2]);
}

#[test]
fn chained_array_growth() {
    let a: [i32; 2] = 1.before(2);
    assert_eq!(a, [1, 2]);
    let b: [i32; 3] = a.before(3);
    assert_eq!(b, [1, 2, 3]);
    let c: [i32; 4] = b.after(0);
    assert_eq!(c, [0, 1, 2, 3]);
}

#[test]
fn chained_tuple_growth_mixed_types() {
    let a: (i32, u8) = 1i32.before(2u8);
    assert_eq!(a, (1, 2));
    let b: (i32, u8, f64) = a.before(3.0f64);
    assert_eq!(b, (1, 2, 3.0));
    let c: (u64, i32, u8, f64) = b.after(0u64);
    assert_eq!(c, (0, 1, 2, 3.0));
}

#[test]
fn with_agrees_with_before() {
    let a: [u8; 3] = [1, 2].with(3);
    let b: [u8; 3] = [1, 2].before(3);
    assert_eq!(a, b);
    let t1: (u8, i32) = 7u8.with(8i32);
    let t2: (u8, i32) = 7u8.before(8i32);
    assert_eq!(t1, t2);
}

#[test]
fn append_and_prepend_at_arity_eleven() {
    let s: [u8; 11] = [1, 2, 3, 4, 5, 6, 7, 8, 9, 10, 11];
    let r: [u8; 12] = s.before(12);
    assert_eq!(r, [1, 2, 3, 4, 5, 6, 7, 8, 9, 10, 11, 12]);
    let f: [u8; 12] = s.after(0);
    assert_eq!(f, [0, 1, 2, 3, 4, 5, 6, 7, 8, 9, 10, 11]);
}

#[test]
fn round_trip_restores_order() {
    let s: [u8; 3] = [4, 5, 6];
    let grown: [u8; 4] = s.before(7);
    assert_eq!([grown[0], grown[1], grown[2]], s);
    let fronted: [u8; 4] = s.after(3);
    assert_eq!([fronted[1], fronted[2], fronted[3]], s);
}

#[test]
fn tuple_growth_to_maximum_arity() {
    let t2: (u8, u16) = 1u8.with(2u16);
    let t3: (u8, u16, u32) = t2.with(3u32);
    let t4: (u8, u16, u32, u64) = t3.with(4u64);
    let t5: (u8, u16, u32, u64, i8) = t4.with(5i8);
    let t6: (u8, u16, u32, u64, i8, i16) = t5.with(6i16);
    let t7: (u8, u16, u32, u64, i8, i16, i32) = t6.with(7i32);
    let t8: (u8, u16, u32, u64, i8, i16, i32, i64) = t7.with(8i64);
    let t9: (u8, u16, u32, u64, i8, i16, i32, i64, usize) = t8.with(9usize);
    let t10: (u8, u16, u32, u64, i8, i16, i32, i64, usize, bool) = t9.with(true);
    let t11: (u8, u16, u32, u64, i8, i16, i32, i64, usize, bool, char) = t10.with('x');
    let t12: (u16, u8, u16, u32, u64, i8, i16, i32, i64, usize, bool, char) = t11.after(0u16);
    assert_eq!(t12, (0, 1, 2, 3, 4, 5, 6, 7, 8, 9, true, 'x'));
}
