//! The kinds of resource that can be written.

pub mod icon;
pub mod manifest;
pub mod version_info;
