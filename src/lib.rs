//! A registry of named numeric and boolean variables that a program reads
//! while it runs and that outside tools inspect and change without a restart.
//!
//! The store maps (category, name) to a stored variable tagged with its
//! kind. Declarations (`Int32`, `Int64`, `Boolean`) register, read, write and
//! reset their variable through the store; bounded values are clamped on
//! every write. A declarative file and remote clients write into the same
//! store, shared between threads through `SharedTuna`.

pub mod api;
mod asset;
mod boolean;
mod declaration;
mod file;
mod integer;
mod laws;
mod protocol;
mod shared;
mod tuneable;

pub use crate::api::{
    after_register, after_reset, after_write, assigned, entries_map, entry_key, get, is_registered,
    keys_unique, lookup, read_value, register, registered, reset, restored, writable,
    AsTuneable, Entry, Key, TunaState,
};
pub use crate::asset::{content_type, content_type_line, has_suffix};
pub use crate::boolean::Boolean;
pub use crate::declaration::{all_registered, declaration_registered, register_all, Declaration};
pub use crate::file::{
    apply_state, file_applied, file_key, lemma_unknown_entry_skipped, value_applied, value_taken,
    FileEntry, FileValue,
};
pub use crate::integer::{Int32, Int64};
pub use crate::laws::{
    after_writes, declared_by, lemma_kind_mismatch, lemma_last_write_wins,
    lemma_register_idempotent, lemma_reset_restores_default, lemma_unregistered,
};
pub use crate::protocol::{delta_applied, respond, Incoming, Reaction, TunaMessage};
pub use crate::shared::SharedTuna;
pub use crate::tuneable::{
    clamp_i32, clamp_i64, BooleanVariable, Int32Variable, Int64Variable, Tuneable,
};
