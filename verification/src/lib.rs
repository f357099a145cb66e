//! Rendering of one instruction-level diff as a stream of typed display
//! tokens.
//!
//! Given one decoded instruction together with its diff annotations, the
//! emitter produces the ordered token sequence for that instruction's display
//! line: address, opcode, arguments, relocation references with their
//! architecture-specific wrapper syntax, and branch-link markers. Consumers
//! turn the tokens into colored text; this crate only decides which tokens
//! appear and in what order.

pub mod display;
pub mod hex;
pub mod laws;
pub mod model;
pub mod reloc;
pub mod sink;

pub use display::display_diff;
pub use display::emit_tokens;
pub use model::DiffText;
pub use model::EmitError;
pub use reloc::display_reloc;
pub use reloc::display_reloc_name;
pub use sink::TokenSink;
pub use sink::VecSink;
