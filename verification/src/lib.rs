//! Lowering of a typed, generic program representation into a flat JSON form.
//!
//! A frontend walks the program and hands this library types, function
//! instances, constants and definitions of data types; the library gives each
//! a stable name, interns types so that each is lowered once and referred to
//! by a small number from then on, and records which instances, traits and
//! data types the lowered output refers to, so that the frontend can emit
//! those too.
//!
//! The items that are lowered are in [`types`], with structural equality
//! ([`same`]), deep copies ([`copy`]), instantiation ([`subst`]) and a
//! canonical byte form ([`encode`]) that tells items apart
//! ([`encode_laws`]). Stable names are in [`names`]; they hold a content hash
//! ([`hash`]) and are as distinct as the hashes are ([`name_laws`]).
//!
//! What lowering produces is defined in [`lowered`] as a mathematical
//! function of the session ([`session`]) and the item. The executable
//! lowering of types is in [`ty_lower`], of call targets in [`resolve`], of
//! constants in [`constant`], of instances in [`instance`] with vtable slots
//! in [`vtable`], of data types in [`adt`], of associated items in
//! [`assoc`], of small kinds in [`kinds`]. Each function returns a
//! `serde_json::Value` whose contents ([`json`]) are what the definition in
//! [`lowered`] says, and leaves the session as that definition says.
//!
//! A session only grows ([`growth`]), and it records everything that the
//! lowered output refers to ([`reach`]). What lowering demands of its input
//! can be tested beforehand ([`readable`]).
pub mod json;
pub mod text;
pub mod types;
pub mod same;
pub mod copy;
pub mod subst;
pub mod encode;
pub mod encode_laws;
pub mod hash;
pub mod names;
pub mod name_laws;
pub mod session;
pub mod lowered;
pub mod resolve;
pub mod constant;
pub mod ty_lower;
pub mod vtable;
pub mod instance;
pub mod adt;
pub mod assoc;
pub mod kinds;
pub mod readable;
pub mod growth;
pub mod reach;
