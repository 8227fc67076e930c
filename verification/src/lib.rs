//! Core of an interactive book-collection manager: a list of records
//! browsable in a terminal, editable through a modal add/edit form and
//! filterable through a modal search form.
//!
//! This crate holds the verified core: focus cycling across form slots,
//! per-field validation and parsing, the form state machines that turn
//! key events into committed records or search predicates, and the
//! selection tracker that keeps the highlighted row consistent as the
//! record list changes. Terminal rendering and durable storage live
//! outside this crate; they exchange plain values with it.

pub mod app;
pub mod chars;
pub mod date;
pub mod event;
pub mod focus;
pub mod form;
pub mod handler;
pub mod models;
pub mod num;
pub mod search;
pub mod text;
pub mod validate;
