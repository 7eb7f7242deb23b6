//! Lyrics of the cumulative carol "The Twelve Days of Christmas", rendered
//! verse by verse, together with a few small string, number and shape
//! helpers.
pub mod capitalize;
pub mod verse;
pub mod fib;
pub mod fruit;
pub mod rectangle;
pub mod strings;
