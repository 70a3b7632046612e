//! A small person record with identity-based equality and ordering, and a
//! trivially copyable variant that borrows its text.
//!
//! - [`person`] holds [`Person`], which owns its name and is identified by
//!   its `uid` alone.
//! - [`relations`] proves what holds of sameness and order on persons.
//! - [`primitive_person`] holds [`PrimitivePerson`], which borrows its name
//!   and is compared field by field.
//! - [`text`] compares borrowed text by content.

pub mod person;
pub mod primitive_person;
pub mod relations;
pub mod text;

pub use person::Person;
pub use person::PersonView;
pub use primitive_person::PrimitivePerson;
pub use primitive_person::PrimitivePersonView;
