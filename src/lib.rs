//! Building and starting Android intents through JNI, with chains of
//! configuration calls whose first error is reported at the end.
use vstd::prelude::*;

pub mod intent;
pub mod jvm;
pub mod model;

pub use intent::{Intent, IntentBuilder};
pub use jvm::Bridge;

verus! {

} // verus!
