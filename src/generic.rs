//! Structs with a type parameter.
use vstd::prelude::*;

verus! {

/// A named, aged record with an optional value of any type.
#[derive(Debug)]
pub struct MyStruct<T> {
    pub test_field: Option<T>,
    pub name: String,
    pub age: i32,
}

impl<T> MyStruct<T> {
    /// A record with no value yet.
    pub fn new(new_age: i32, new_name: String) -> (r: Self)
        ensures
            r.test_field is None,
            r.age == new_age,
            r.name == new_name,
    {
        MyStruct { test_field: None, age: new_age, name: new_name }
    }
}

/// As `MyStruct`, for values that can be debug-printed.
#[derive(Debug)]
pub struct MyStruct2<T> {
    pub test_field: Option<T>,
    pub name: String,
    pub age: i32,
}

impl<T> MyStruct2<T> where T: std::fmt::Debug {
    /// A record with no value yet.
    pub fn new(new_age: i32, new_name: String) -> (r: Self)
        ensures
            r.test_field is None,
            r.age == new_age,
            r.name == new_name,
    {
        MyStruct2 { test_field: None, age: new_age, name: new_name }
    }
}

} // verus!
