//! A minimal binding surface for a host environment: a greeting function,
//! an integer addition function, a text-uppercasing function, and a
//! module-load hook that emits a log line to the host's logging sink.

pub mod arith;
pub mod host;
pub mod text;

pub use arith::add;
pub use host::greet;
pub use host::Module;
pub use text::process_text;
