//! A small library around two pieces of logic: the arithmetic mean of a
//! sequence of integers, kept exact as a sum and a count, and a `Person`
//! record that renders a greeting line.

pub mod averager;
pub mod person;
