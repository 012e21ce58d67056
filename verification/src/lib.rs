//! The Java layer of a type analyser: types, invocation type inference,
//! member selection and access control, body inference and flow analysis,
//! language level checks and unknown-name checks, each with a verified
//! contract.
//!
//! Everything the analysis has to ask about the class path goes through
//! [`db::TyDatabase`]; everything else is computed here from plain values.
pub mod list;
pub mod names;
pub mod ids;
pub mod ty;
pub mod db;
pub mod member;
pub mod inference;
pub mod text;
pub mod class_key;
pub mod items;
pub mod access;
pub mod select;
pub mod selection;
pub mod source_members;
pub mod body;
pub mod walk;
pub mod effectively_final;
pub mod captures;
pub mod syntax;
pub mod level_check;
pub mod range_ctx;
pub mod raw_type;
pub mod release_api;
pub mod workspace;
pub mod name_check;
pub mod plugin;
pub mod facts;
pub mod infer;
