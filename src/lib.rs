//! An in-process marketplace engine: providers create supplies, marketers
//! advertise them and buyers consume them, every step checked against the
//! supply lifecycle `Created -> Marketed -> Consumed`.

pub mod caching;
pub mod draw;
pub mod entities;
pub mod file;
pub mod ids;
pub mod laws;
pub mod market;
pub mod tokens;

use vstd::prelude::*;

verus! {

pub const VERSION: &'static str = "0.0.1";

/// The library's version.
pub fn version() -> (r: &'static str)
    ensures
        r@ == VERSION@,
{
    VERSION
}

} // verus!
