//! Logic of a Flash Player emulator: SWF filter records, AVM2 scope
//! resolution and native class behaviour, renderer bookkeeping and the
//! desktop front end's decisions.
use vstd::prelude::*;

pub mod backend;
pub mod bitmaps;
pub mod census;
pub mod context_menu;
pub mod crypto;
pub mod desktop;
pub mod fetch;
pub mod filters;
pub mod font;
pub mod game_input;
pub mod indexed;
pub mod mouse;
pub mod null_renderer;
pub mod parse;
pub mod pipelines;
pub mod regexp;
pub mod scope;
pub mod stage;
pub mod system_classes;
pub mod uniform_buffer;
pub mod value;
pub mod video;
pub mod void;
pub mod xml;

verus! {
} // verus!
