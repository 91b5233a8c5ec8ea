//! The type of the daemon's request handler. Its request methods are
//! asynchronous remote procedure calls, implemented by the program around
//! the library.

use vstd::prelude::*;

verus! {

/// The daemon's request handler. It holds no state, so copies of it are
/// interchangeable; this type carries no methods of its own here.
#[derive(Clone, Copy, Debug)]
pub struct WayDimServer {}

} // verus!
