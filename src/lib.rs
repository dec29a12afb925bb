//! A compiler from the Palel language to C: the program tree, the type
//! engine with its memory classes, and the lowering to a C translation unit.

pub mod text;
pub mod palel;
pub mod c;
pub mod transpiler_c_patch;
pub mod type_checking;
pub mod compilation_error;
pub mod toolkit_c;
pub mod transpiler_c;
pub mod renderer_c;
pub mod build_task;
pub mod project;
pub mod parser;
