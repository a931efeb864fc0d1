//! A benchmark of many concurrent loops that open, bind and release UDP
//! sockets on the loopback address. The library holds the socket opener and
//! the decisions of the bind loops and of the herd that races them; the
//! program around it runs those decisions on an async runtime.
use vstd::prelude::*;

pub mod address;
pub mod bind_loop;
pub mod herd;
pub mod opener;
pub mod resolver;
pub mod strategy;

verus! {

} // verus!
