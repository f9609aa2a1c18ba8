//! Rewrites an Options-API component definition into its Composition-API form.
//!
//! The pipeline: the analyzer reads the declared props and injected names,
//! the receiver rewriter resolves every `this.<name>`, the extractor reads
//! the sections of the exported object, the section transformers lower each
//! section into statements, and the assembler builds `defineComponent(...)`.
pub mod ast;
pub mod model;
pub mod text;
pub mod copy;
pub mod script;
pub mod analyze;
pub mod receiver;
pub mod options;
pub mod transform;
pub mod write;
pub mod visitor;
