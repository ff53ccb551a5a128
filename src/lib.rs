//! Incremental reconciliation of DOM attributes and event listeners.
//!
//! Callers record `add` / `remove` operations in per-category holders while a
//! component renders. Once per render the holders are drained and a
//! [`reconciler::Reconciler`] turns the batch into the native calls that bring
//! the live element in line, while the [`registry::ActiveRegistry`] keeps each
//! installed listener handle alive exactly as long as its id stays active.

pub mod aria_attributes;
pub mod attribute;
pub mod attribute_holder;
pub mod button_attributes;
pub mod errors;
pub mod html_attributes;
pub mod keyed;
pub mod laws;
pub mod listener_holder;
pub mod operation;
pub mod props;
pub mod reconciler;
pub mod registry;
pub mod svg_attributes;
pub mod value;
