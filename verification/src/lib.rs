use vstd::prelude::*;

pub mod actions;
pub mod android;
pub mod arguments;
pub mod colors;
pub mod config;
pub mod error;
pub mod file_copy;
pub mod logging;
pub mod messages;
pub mod presets;
pub mod repos;
pub mod services;
pub mod signals;
pub mod sync;
pub mod table;
pub mod text;
pub mod tor;

verus! {

} // verus!
