//! Command-dispatch and prompt-templating core.
//!
//! The crate covers the configuration-override merge applied to every
//! operating mode, the `{{name}}` template-substitution engine, the
//! conversion of a YAML prompt document into an ordered conversation with
//! promoted base instructions, and the accumulation of input-file content
//! into the template variable buffer.

pub mod input;
pub mod overrides;
pub mod prompt;
pub mod substitution;
