//! Core of a terminal viewer for the newest posts of one subreddit: a
//! page-by-page post stream, the buffer that holds what has been seen, the
//! viewport that scrolls over it, and the layout of each rendered line.
use vstd::prelude::*;

pub mod client;
pub mod input;
pub mod layout;
pub mod post;
pub mod screen;
pub mod stream;

verus! {

} // verus!
