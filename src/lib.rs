//! Small verified components: a decoder for the marker segments of JPEG streams (with
//! the laws that every scan obeys), and a set of little types and functions — game
//! characters, parsers, text builders, event controllers — each with its contract.
use vstd::prelude::*;

pub mod arith;
pub mod character;
pub mod controller;
pub mod cow;
pub mod datastore;
pub mod describe;
pub mod double;
pub mod envelope;
pub mod errors;
pub mod even_number;
pub mod functions;
pub mod generic;
pub mod image;
pub mod jpeg;
pub mod noise;
pub mod sample;
pub mod scan_laws;
pub mod stream;
pub mod text;
pub mod wait;
pub mod web_event;

verus! {

} // verus!
