//! Verified core of a digital filter design and simulation tool.
//!
//! The library holds the parameter enumerations with the integer codes the
//! numeric core is driven by, the decisions the user interface takes between
//! plots, tables and recomputation, the CSV table writer, the locale
//! resolution, colour shading for the themes, and the integer bookkeeping of
//! the numeric core (random sequence, section layout of the recursive filter,
//! signal buffer lengths and their limits).

pub mod compute;
pub mod i18n;
pub mod models;
pub mod notices;
pub mod numeric;
pub mod operation;
pub mod table;
pub mod themes;
pub mod validation;
pub mod view;
pub mod widgets;
