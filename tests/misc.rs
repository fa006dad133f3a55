use rustlab::cow::{abs_all, Token};
use rustlab::describe::{
    make_lazy_cat, omni_describe, omni_describe_2, omni_describe_3, omni_describe_4, Animal,
    Describe,
};
use rustlab::envelope::{Envelop, Letter};
use rustlab::errors::{ErrorA, ErrorB};
use rustlab::even_number::{even_number, even_number_0};
use rustlab::generic::{MyStruct, MyStruct2};
use rustlab::sample::{same_text, Lib, Sample};
use rustlab::stream::{MySink, MyStream};
use std::borrow::Cow;

#[test]
fn even_numbers_from_zero() {
    let mut it = even_number_0();
    let got: Vec<u32> = (0..4).map(|_| it.next().unwrap()).collect();
    assert_eq!(got, vec![0, 2, 4, 6]);
}

#[test]
fn even_numbers_from_odd_start() {
    let mut it = even_number(Some(3));
    assert_eq!(it.next(), Some(4));
    assert_eq!(it.curr, 5);
    assert_eq!(it.next(), Some(6));
    assert_eq!(even_number(None).curr, 0);
}

#[test]
fn stream_counts_to_max() {
    let mut s = MyStream::new(3);
    assert_eq!(s.next_value(), Some(1));
    assert_eq!(s.next_value(), Some(2));
    assert_eq!(s.next_value(), Some(3));
    assert_eq!(s.next_value(), None);
    assert_eq!(s.current, 3);
}

#[test]
fn sink_keeps_flushed_items() {
    let mut sink = MySink::new();
    sink.start_send(9);
    sink.start_send(4);
    sink.flush();
    sink.start_send(7);
    sink.flush();
    assert_eq!(sink.data, vec![4, 7]);
}

#[test]
fn errors_convert_both_ways() {
    let a: ErrorA = ErrorB {}.into();
    assert_eq!(a, ErrorA::default());
    let b = ErrorB::from(a);
    assert_eq!(b.message(), "ErrorB!");
    assert_eq!(a.message(), "ErrorA!");
    assert_eq!(a.description(), "Description for Error A");
    assert_eq!(b.description(), "Description for Error B");
}

#[test]
fn letter_comes_out_of_envelope_unchanged() {
    let letter = Letter {
        msg: "Hello there!".into(),
        typ: "Very important letter".into(),
        from: "joe".into(),
        to: "john".into(),
    };
    let backup = letter.clone();
    let envelop = Envelop::new(String::from("Very import letter"), letter);
    assert_eq!(envelop.typ, "Very import letter");
    let out: Letter = envelop.into();
    assert_eq!(out, backup);
}

#[test]
fn animals_describe_themselves() {
    let dog = Animal { name: "Woofy".to_string(), class: "dog".to_string() };
    assert_eq!(omni_describe(&dog), "Animal: Woofy, class: dog");
    assert_eq!(omni_describe_2(&dog), "Animal: Woofy, class: dog");
    assert_eq!(omni_describe_3(&dog), "Animal: Woofy, class: dog");
    let cat = make_lazy_cat();
    assert_eq!(cat.describe(), "Animal: garfield, class: cat");
    assert_eq!(
        omni_describe_4(&dog, &cat),
        "entity: Animal: Woofy, class: dog\nentity2: Animal: garfield, class: cat"
    );
    assert_eq!(cat.describe_with_default(), "Dunno!");
}

#[test]
fn abs_all_makes_values_non_negative() {
    let mut v = vec![0, 1, -2];
    abs_all(&mut v);
    assert_eq!(v, vec![0, 1, 2]);
    let mut w = vec![0, 1, 2];
    abs_all(&mut w);
    assert_eq!(w, vec![0, 1, 2]);
}

#[test]
fn tokens_borrow_or_own() {
    let t1 = Token::new("12345");
    assert!(matches!(t1.raw, Cow::Borrowed("12345")));
    let t2 = Token::owned(String::from("9876"));
    assert!(matches!(t2.raw, Cow::Owned(ref s) if s == "9876"));
}

#[test]
fn generic_records_start_empty() {
    let s: MyStruct<u64> = MyStruct::new(806, String::from("33"));
    assert!(s.test_field.is_none());
    assert_eq!((s.age, s.name.as_str()), (806, "33"));
    let s2: MyStruct2<u8> = MyStruct2::new(1, String::from("x"));
    assert!(s2.test_field.is_none());
    assert_eq!(s2.age, 1);
}

#[test]
fn string_libs_by_snake_case_name() {
    assert_eq!(Lib::from_name("std"), Some(Lib::Std));
    assert_eq!(Lib::from_name("smol"), Some(Lib::Smol));
    assert_eq!(Lib::from_name("smart"), Some(Lib::Smart));
    assert_eq!(Lib::from_name("Std"), None);
    assert_eq!(Lib::from_name(""), None);
    for l in [Lib::Std, Lib::Smol, Lib::Smart] {
        assert_eq!(Lib::from_name(l.name()), Some(l));
    }
    let s = Sample { lib: Lib::Smart };
    assert_eq!(s.lib.name(), "smart");
    assert!(same_text("héllo", "héllo"));
    assert!(!same_text("héllo", "hello"));
}
