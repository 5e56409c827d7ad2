//! Versioned, typed access descriptions for the internals of a closed-source
//! host binary. Each supported host build gets one immutable table of named
//! fields (byte offsets or export ordinals); a resolver turns a table plus a
//! runtime module base and export table into a group of typed accessors, all
//! or nothing.

pub mod config;
pub mod descriptor;
pub mod measure;
pub mod registry;
pub mod resolve;
pub mod session;
pub mod table;
pub mod v111b;
pub mod v113d;

pub use descriptor::AddressDescriptor;
pub use descriptor::Convention;
pub use descriptor::FieldSpec;
pub use descriptor::FnSignature;
pub use descriptor::SemanticType;
pub use descriptor::ValueType;
