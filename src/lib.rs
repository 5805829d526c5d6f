//! Façade logic around an external Chinese-script conversion engine:
//! choosing a conversion configuration, driving one engine session,
//! detecting the dominant script of a text, and remapping quotation marks
//! between mainland and Hong Kong / Taiwan style.
use vstd::prelude::*;

pub mod config;
pub mod detect;
pub mod punct;
pub mod session;
pub mod text;

verus! {

} // verus!
