use ov::Over;
use ov::OverDeref;
use ov::OverDerefMut;
use ov::OverMut;
use ov::OverRef;

use std::cell::Cell;
use std::rc::Rc;
use std::sync::Arc;

#[test]
fn by_value_multiplies() {
    let r = 5u64.over(|x: u64| x * 2);
    assert_eq!(r, 10);
}

#[test]
fn by_value_wraps_in_constructor() {
    let r = "foo".to_owned().over(Some);
    assert_eq!(r, Some("foo".to_owned()));
}

#[test]
fn by_ref_reads_and_leaves_receiver() {
    let v: u64 = 5;
    let r = v.over_ref(|x: &u64| *x * 2);
    assert_eq!(r, 10);
    assert_eq!(v, 5);
}

#[test]
fn by_mut_multiplies_then_adds() {
    let mut v: i32 = 5;
    v.over_mut(|n: &mut i32| {
        *n *= 3;
        *n += 1;
    });
    assert_eq!(v, 16);
}

#[test]
fn by_mut_mutates_struct_field() {
    struct S {
        field: i32,
    }
    let mut s = S { field: 5 };
    s.field.over_mut(|n: &mut i32| {
        *n *= 3;
        *n += 1;
    });
    assert_eq!(s.field, 16);
}

#[test]
fn by_mut_returns_function_result_not_receiver() {
    let mut v: i32 = 5;
    let r = v.over_mut(|n: &mut i32| {
        let was = *n;
        *n = 7;
        was
    });
    assert_eq!(r, 5);
    assert_eq!(v, 7);
}

#[test]
fn deref_shared_string_length() {
    let s = String::from("Hello, world!");
    let len = s.over_deref(|my_str: &str| str::len(my_str));
    assert_eq!(len, 13);
    let len = s.over_deref(str::len);
    assert_eq!(len, 13);
}

#[test]
fn deref_shared_box() {
    let b: Box<u64> = Box::new(21);
    let r = b.over_deref(|t: &u64| *t * 2);
    assert_eq!(r, 42);
}

#[test]
fn deref_shared_vec_sees_slice() {
    let v: Vec<u8> = vec![1, 2, 3];
    let r = v.over_deref(|s: &[u8]| s.len());
    assert_eq!(r, 3);
}

#[test]
fn deref_shared_reference() {
    let x: u64 = 9;
    let rx: &u64 = &x;
    let r = rx.over_deref(|t: &u64| *t + 1);
    assert_eq!(r, 10);
}

#[test]
fn deref_shared_rc_and_arc() {
    let rc: Rc<u64> = Rc::new(4);
    assert_eq!(rc.over_deref(|t: &u64| *t * 10), 40);
    let arc: Arc<u64> = Arc::new(6);
    assert_eq!(arc.over_deref(|t: &u64| *t * 10), 60);
}

#[test]
fn deref_mut_string_mutates_contents() {
    let mut s = String::from("abc");
    s.over_deref_mut(|t: &mut str| t.make_ascii_uppercase());
    assert_eq!(s, "ABC");
}

#[test]
fn deref_mut_box_mutates_target() {
    let mut b: Box<u64> = Box::new(5);
    let r = b.over_deref_mut(|m: &mut u64| {
        *m *= 2;
        true
    });
    assert!(r);
    assert_eq!(*b, 10);
}

#[test]
fn deref_mut_vec_mutates_slice() {
    let mut v: Vec<u8> = vec![3, 1, 2];
    v.over_deref_mut(|s: &mut [u8]| s.sort());
    assert_eq!(v, vec![1, 2, 3]);
}

#[test]
fn repeat_by_value_same_result() {
    let r1 = 5u64.over(|x: u64| x * 2);
    let r2 = 5u64.over(|x: u64| x * 2);
    assert_eq!(r1, r2);
}

#[test]
fn repeat_by_ref_same_result() {
    let v: u64 = 5;
    let r1 = v.over_ref(|x: &u64| *x + 1);
    let r2 = v.over_ref(|x: &u64| *x + 1);
    assert_eq!(r1, r2);
}

#[test]
fn repeat_by_mut_non_mutating_same_result() {
    let mut v: u64 = 5;
    let r1 = v.over_mut(|n: &mut u64| *n + 1);
    let r2 = v.over_mut(|n: &mut u64| *n + 1);
    assert_eq!(r1, r2);
    assert_eq!(v, 5);
}

#[test]
fn repeat_deref_same_result() {
    let s = String::from("twice");
    let r1 = s.over_deref(str::len);
    let r2 = s.over_deref(str::len);
    assert_eq!(r1, r2);
}

#[test]
fn repeat_deref_mut_non_mutating_same_result() {
    let mut b: Box<i32> = Box::new(8);
    let r1 = b.over_deref_mut(|m: &mut i32| *m - 1);
    let r2 = b.over_deref_mut(|m: &mut i32| *m - 1);
    assert_eq!(r1, r2);
    assert_eq!(*b, 8);
}

#[test]
fn each_operation_calls_function_exactly_once() {
    let count = Cell::new(0u32);

    5u64.over(|x: u64| {
        count.set(count.get() + 1);
        x
    });
    assert_eq!(count.get(), 1);

    count.set(0);
    5u64.over_ref(|x: &u64| {
        count.set(count.get() + 1);
        *x
    });
    assert_eq!(count.get(), 1);

    count.set(0);
    let mut v: u64 = 5;
    v.over_mut(|n: &mut u64| {
        count.set(count.get() + 1);
        *n
    });
    assert_eq!(count.get(), 1);

    count.set(0);
    let s = String::from("once");
    s.over_deref(|t: &str| {
        count.set(count.get() + 1);
        t.len()
    });
    assert_eq!(count.get(), 1);

    count.set(0);
    let mut b: Box<u8> = Box::new(1);
    b.over_deref_mut(|m: &mut u8| {
        count.set(count.get() + 1);
        *m
    });
    assert_eq!(count.get(), 1);
}
