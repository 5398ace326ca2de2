//! Plain-value logic of an addon's side of the host boundary: the addon
//! descriptor's version, flags and update provider, and the nul-terminated
//! strings the host reads.
pub mod addon;
pub mod cstr;
