//! A parser for a restricted WebAssembly binary format.
//!
//! Parsing runs in two stages. The first carves the input into a
//! [`parse::Skeleton`]: the sections with their boundaries, undecoded. The
//! second decodes each section into the typed [`types::Module`]. Floating
//! point types and instructions, multiple return values and start functions
//! are rejected while parsing, so they never reach later stages.
//!
//! Every parser is proved against a function on the mathematical input, so
//! its result, its end position and its error are fixed by the bytes.
//! [`output`] writes a skeleton back out; [`traits`] and
//! [`contract_types`] are the byte streams and handles that contract code
//! uses.
pub mod error;
pub mod leb;
pub mod cursor;
pub mod types;
pub mod parse;
pub mod utils;
pub mod output;
pub mod traits;
pub mod contract_types;
pub mod constants;
