//! The decisions behind publishing the device as a Homie device: which registers to keep read,
//! which properties a register change touches, and whether a property's published value or
//! target changes.
pub mod enums;
pub mod values;
pub mod property;
pub mod nodes;
pub mod device;
pub mod description;
pub mod actions;
pub mod readings;
pub mod encodings;
pub mod node_properties;
