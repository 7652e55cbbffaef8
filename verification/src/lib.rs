//! A one-dimensional flexible-box layout solver.
//!
//! A [`flex::Flex`] container arranges an ordered sequence of children — fixed
//! elements, weighted flexible elements, and fixed or weighted spacers — along a
//! major axis, under a box-constraint envelope.  Lengths are whole logical
//! pixels; leftover space is divided with a remainder-carrying rounder so that
//! the emitted amounts sum exactly to the space being divided.
//!
//! Fields are public so that every contract can speak about them directly;
//! the constructors and mutators maintain the well-formedness that
//! [`flex::Flex::layout`] asks of its input.

pub mod alignment;
pub mod axis;
pub mod child;
pub mod constraints;
pub mod element;
pub mod flex;
pub mod geom;
pub mod rounding;
pub mod spacing;
pub mod views;
