//! Supplier intake documents: the classification codes they use, their records, the
//! builders that validate them, and the labels under which they are sent.
pub mod laws;
pub mod mod_plata;
pub mod models;
pub mod text;
pub mod tip_document;
pub mod tva;
pub mod wire;
