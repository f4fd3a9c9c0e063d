//! The backends.

pub mod js_ts_deno;
