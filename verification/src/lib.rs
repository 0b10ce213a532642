//! Licer writes a licence for a project. It finds out who wrote the project
//! and what it is called, from the flags of the command line, from the
//! project's manifests and from the settings of git, and fills the licence's
//! text with the answer.
//!
//! The library reads and writes no file: the caller hands it what it found
//! ([`Sources`]) and writes what it is handed back. Contracts are stated
//! over sequences of characters, the views of the library's types.
//!
//! - [`author`] reads one author from free text, and [`author_form`] shows
//!   that text in the usual form is read as it was meant.
//! - [`git`] reads the user from a listing of git's settings.
//! - [`node`] and [`cargo`] read the two manifests, through [`json_doc`] and
//!   [`toml_doc`], into the records of [`manifest`].
//! - [`resolve`] chooses among the sources and holds the answer against
//!   what the licence needs.
//! - [`license`] knows the licences and fills the text of one, and [`stamp`]
//!   puts the licence's identifier into a manifest.

pub mod author;
pub mod author_form;
pub mod cargo;
pub mod error;
pub mod git;
pub mod json_doc;
pub mod license;
pub mod manifest;
pub mod node;
pub mod resolve;
pub mod source;
pub mod stamp;
pub mod text;
pub mod toml_doc;

pub use crate::author::{parse_author, Author};
pub use crate::cargo::{failed_parse, read_cargo, read_python};
pub use crate::error::CliError;
pub use crate::git::read_git;
pub use crate::license::{fill_license, get_license, license_kind, weave, LicenseKind, Wants};
pub use crate::manifest::PackageInfo;
pub use crate::node::read_node;
pub use crate::resolve::{get_info, resolve, RequirementMask, Sources};
pub use crate::source::SourceFile;
pub use crate::stamp::{write_pkg, Stamp};
