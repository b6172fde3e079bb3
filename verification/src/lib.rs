//! Interface metadata for deployable contracts.
//!
//! The crate models a self-describing interface manifest: a structured
//! record of a contract's constructors, messages and events, together
//! with the types those entities use.  Expanded specifications are
//! assembled through staged builders that enforce required fields, and
//! a compaction pass deduplicates repeated strings and type descriptors
//! into shared interning tables, producing a compact form whose leaves
//! are table indices.

pub mod chain_spec;
pub mod ident;
pub mod registry;
pub mod compact;
pub mod selector;
pub mod specs;

pub use chain_spec::{ChainError, ChainSpec};
pub use compact::{
    CompactConstructorSpec, CompactContractSpec, CompactEventParamSpec, CompactEventSpec,
    CompactMessageParamSpec, CompactMessageSpec, CompactReturnTypeSpec, CompactTypeSpec,
};
pub use registry::{Registry, TypeDescriptor};
pub use selector::serialize_selector;
pub use specs::{
    ConstructorSpec, ConstructorSpecBuilder, ContractSpec, ContractSpecBuilder, DisplayName,
    EventParamSpec, EventParamSpecBuilder, EventSpec, EventSpecBuilder, Invalid, MessageParamSpec,
    MessageParamSpecBuilder, MessageSpec, MessageSpecBuilder, Missing, Mutates, ReturnTypeSpec,
    Returns, Selector, SpecError, TypeSpec, Valid,
};
