//! A unified error-reporting model: one error value type, carrying a
//! machine-readable classification code, a human-readable message, and an
//! optional binary payload, together with named constructors, classification
//! predicates, and a bank of lossless conversions from collaborator errors.

pub mod code;
pub mod collab;
pub mod convert;
pub mod errors;
