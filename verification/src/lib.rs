//! Settings of a VPN client daemon: the versioned aggregate, the rules by which
//! it changes, and the structured document it is stored as.

pub mod decimal;
pub mod opaque;
pub mod relay_constraints;
pub mod settings;
