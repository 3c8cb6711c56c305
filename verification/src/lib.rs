//! Planar geometry with lazily computed, cached attributes.
//!
//! A [`Vector`] is a directed segment between two points, with a length and
//! two angles; a [`Triangle`] is three points, with three side lengths and
//! three interior angles. Every derived attribute starts out unset and is
//! cached once it is known; a cached attribute never changes again.
//!
//! All numbers are IEEE-754 single-precision values, carried as their bit
//! patterns. This crate does no arithmetic on them. An accessor either hands
//! out the cached bits, or names the task that has to be carried out first,
//! together with its exact inputs; the caller carries it out and hands the
//! outcome back with `supply`. What is proved here is the bookkeeping: which
//! inputs go into which formula, which attributes are filled together, in
//! which order, and that a cached value stays what it is.

pub mod point;
pub mod reading;
pub mod triangle;
pub mod vector;

pub use crate::point::{Leg, Legs, Point};
pub use crate::reading::Reading;
pub use crate::triangle::{
    Corner, Corners, InteriorAngles, SideLegs, Sides, Triangle, TriangleAttribute, TriangleOutcome,
    TriangleState, TriangleTask,
};
pub use crate::vector::{
    AcuteAngles, Vector, VectorAttribute, VectorOutcome, VectorState, VectorTask,
};
