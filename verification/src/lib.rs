//! Input files for the Gaussian16 quantum chemistry package, verified with
//! Verus.
//!
//! A job is described by a [`GaussConfig`]: memory, processor range, an
//! optional GPU assignment, checkpoint file, route keywords, title, charge
//! and multiplicity.  [`Validator`] holds the text fields to small grammars
//! and names the first field at fault.  A configuration that passes becomes
//! a [`Gaussian`], which renders the header of the input file.
//!
//! ```text
//! let job = Gaussian::new(GaussConfig {
//!     mem: "134GB".to_string(),
//!     cpu: "0-39".to_string(),
//!     gpu: None,
//!     checkpoint: "test.chk".to_string(),
//!     key_words: "#p BP86/Def2svp/W06 SCF=XQC".to_string(),
//!     title: "title card".to_string(),
//!     charge: 0,
//!     multiplicity: 1,
//! })?;
//! let header = job.display();
//! ```
//!
//! What is proved:
//!
//! - [`grammar`] says what each grammar accepts, as a predicate on character
//!   sequences, and every matcher decides its predicate.
//! - [`validate`] reports the first violation in a fixed order of fields,
//!   and succeeds exactly where there is none.
//! - [`layout`] says what the header is, line by line, and the renderers of
//!   [`Gaussian`] produce that text and no other.  It also shows where a
//!   header has a `%Gpu=` line and where it cannot have one.
//!
//! Reading a configuration from a file, writing the input file and running
//! `g16` are left to the caller.

pub mod decimal;
pub mod error;
pub mod gaussian;
pub mod grammar;
pub mod layout;
pub mod lines;
pub mod validate;

pub use crate::error::{ConfigError, ConfigErrorKind};
pub use crate::gaussian::{GaussConfig, Gaussian};
pub use crate::validate::Validator;
