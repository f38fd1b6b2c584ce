//! Verified core of a design-system widget library.
//!
//! The library models the logic of the widgets as plain data and pure
//! functions: CSS modifier composition for cards and dropdowns, and the
//! drag-gesture state machine of the slider together with its exact
//! pixel-to-value mapping. Rendering and DOM event wiring are left to the
//! hosting UI layer, which drives these functions and performs the listener
//! actions they return.

pub mod card;
pub mod classes;
pub mod dropdown;
pub mod fraction;
pub mod label;
pub mod slider;

pub use fraction::Fraction;
