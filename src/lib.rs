//! Control-plane library for Xen virtual machines: a typed `xl.cfg` model with a
//! deterministic renderer, parsers for the `xl` tool's tabular output, argument
//! builders for its subcommands, and the decision logic for address resolution and
//! resource allocation.

pub mod addr;
pub mod allocate;
pub mod config;
pub mod deb;
pub mod neighbor;
pub mod order;
pub mod package;
pub mod parse;
pub mod presets;
pub mod session;
pub mod text;
pub mod xl;
