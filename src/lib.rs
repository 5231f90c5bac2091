//! Small ownership-oriented building blocks and a bounded random picker.
//!
//! The picker draws an integer uniformly from `1..=bound`; every verified
//! function here states exactly which inputs it accepts and what it returns.
mod boxed;
mod example_data;
mod picker;
mod scope;

pub use boxed::{MyBox, MyStruct};
pub use example_data::{build_copy_data, build_heap_data, MyCopyData};
pub use picker::{pick_random, pick_random_with, PickError};
pub use scope::{consume, pass_thru};
