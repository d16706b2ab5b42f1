//! Triage of diagnostic log text.
//!
//! A fixed, ordered set of detector rules is run against a block of log text.
//! Every rule that recognises its failure signature contributes one finding:
//! a severity, and the message that a response catalog holds under the rule's
//! key. Findings come in the order of the rules; a rule whose key the catalog
//! lacks stays silent; and the same text with the same catalog always gives
//! the same findings.
//!
//! ```ignore
//! let catalog = Catalog::build(&[("out-of-memory", "Give the game more memory.")]);
//! let engine = Engine::new(catalog)?;
//! let findings = common_mistakes(&engine, "java.lang.OutOfMemoryError: Java heap space");
//! assert_eq!(findings, vec![(Severity::High, "Give the game more memory.".to_string())]);
//! ```
//!
//! - [`text`]: what it means for a literal to occur in a text, and the search
//!   for it.
//! - [`pattern`]: regular expressions, compiled and searched for by the
//!   `regex` crate, behind contracts that are trusted, not proved.
//! - [`catalog`]: the mapping from keys to messages.
//! - [`rules`]: a rule, what it reports on a text, and how a report becomes a
//!   finding.
//! - [`signatures`]: the signatures that are known, and the rule set.
//! - [`engine`]: the rule set made ready, and its evaluation.
//! - [`laws`]: what holds of every evaluation, proved.

pub mod catalog;
pub mod engine;
pub mod laws;
pub mod pattern;
pub mod rules;
pub mod signatures;
pub mod text;

pub use crate::catalog::Catalog;
pub use crate::engine::{common_mistakes, Engine};
pub use crate::rules::Severity;
