//! Build process invocations from declaratively described records.
//!
//! A record type registers, once, a declaration: an executable (a fixed
//! program name, or a resolver run against each instance) and an ordered
//! list of fields, each with an argument role (positional, named option,
//! boolean flag, or plain data).  The declaration is validated up front;
//! building the argument vector for an instance is then a pure, total
//! function that walks the fields in declaration order.

pub mod arg;
pub mod assemble;
pub mod decl;
pub mod laws;
pub mod tokens;
pub mod value;
