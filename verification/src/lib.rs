//! Decorated rendering of dataframes inside an immediate-mode GUI.
//!
//! A [`Decorator`](decor::Decorator) describes how one piece of text is
//! painted; a [`DFDesc`](desc::DFDesc) pairs default header/body decorators
//! with an optional per-column override list and resolves, for each cell,
//! which decorator applies. Per-cell helpers fetch a cell's value from a
//! `polars` dataframe, format it, and hand it to a pluggable dispatch hook.

pub mod decor;
pub mod desc;
pub mod frame;
pub mod schema;
