//! A classify-then-propagate analysis over a function's mid-level IR: it marks
//! the instructions that come from an unsafe lexical scope and flags every local
//! variable that such an instruction touches, so that a points-to analysis run
//! later can track those variables precisely.

pub mod ir;
pub mod mirutil;
pub mod pta_filter;
pub mod mydbg;
pub mod util;
pub mod analysis;
