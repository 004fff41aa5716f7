//! Keeps a Mac awake by holding IOKit power-management assertions.
//!
//! The library tracks which assertions a guard holds and decides, for each
//! operation, which assertion the host must create or release. The host makes
//! the IOKit calls and reports their outcome back.

mod assertion;
mod awake;
mod laws;
mod options;

pub use awake::{Awake, AwakeView, DisplayChange};
pub use laws::{
    lemma_release_all_once, lemma_set_display_mismatch, lemma_set_display_off, lemma_set_display_on,
    lemma_set_display_unchanged, lemma_setup_holds_enabled_kinds,
};
pub use assertion::{AssertionKind, AwakeError, IO_RETURN_SUCCESS};
pub use options::{Builder, BuilderView, DEFAULT_REASON};
