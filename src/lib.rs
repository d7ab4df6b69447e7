//! Folds the sibling source files of a directory into one aggregate type.
//!
//! The pipeline is: directory layout ([`layout`]), per-file structural
//! extraction over a small syntax model ([`extract`]), a consistency check of
//! the constructors found, and synthesis of the aggregate ([`synth`]).
pub mod errors;
pub mod extract;
pub mod input;
pub mod laws;
pub mod layout;
pub mod naming;
pub mod synth;

pub use errors::{FileParseError, LayoutError, MacroError};
pub use extract::{visit_file, ConstructorStub, ImplMethod, Param, SourceItem};
pub use input::parse_input;
pub use layout::{get_directory_layout, DirEntryName, FileInfos};
pub use synth::{
    get_implem, verify_constructors, AggregateConstructor, AggregateField, FieldInit,
    SynthesizedUnit,
};
