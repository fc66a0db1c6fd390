//! Internal RAM semantics grouped by subsystem.

pub mod messaging;
pub mod nmi;
pub mod player;
pub mod semantic;
