//! Verified core of a binding generator for a game engine's exported API.
//!
//! The engine describes its classes, methods and enums in a machine-readable
//! manifest. This crate holds the verified heart of the generator that turns
//! that manifest into typed wrapper code: the schema model with its
//! normalization passes, the class-hierarchy queries, and the type mapper
//! that takes every raw schema type string to a type tag and from there to
//! the representations the emitter needs. Parsing the manifest text and
//! rendering the emitted code are left to thin unverified layers around this
//! crate.

pub mod api;
pub mod casing;
pub mod enums;
pub mod rep;
pub mod schema;
pub mod strutil;
pub mod ty;

pub use api::Api;
pub use schema::Constant;
pub use schema::Enum;
pub use schema::EnumVariant;
pub use schema::GodotArgument;
pub use schema::GodotClass;
pub use schema::GodotMethod;
pub use schema::MethodName;
pub use schema::Property;
pub use ty::Ty;
pub use ty::TypePath;

