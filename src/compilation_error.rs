//! The closed set of compilation errors, each with a message and an exit code.
use vstd::prelude::*;

use crate::palel::{expr_type_text, type_text, ExprTypeModel, ExpressionType, Type, TypeModel};
use crate::text::owned;

verus! {

pub const NOOP_ERROR: i32 = 1;

pub const DISK_ERROR: i32 = 2;

pub const PARSE_ERROR: i32 = 3;

pub const LOGIC_ERROR: i32 = 4;

pub const TYPE_ERROR: i32 = 5;

pub const TRANSPILE_ERROR: i32 = 20;

pub const DOWNSTREAM_ERROR: i32 = 21;

/// A call through an interface other than `debug`.
#[derive(Debug, PartialEq)]
pub struct UnknownInterface {
    pub interface: String,
}

#[derive(Debug, PartialEq)]
pub struct NoSourceFiles {
    pub dir: String,
}

#[derive(Debug, PartialEq)]
pub struct FailedToReadSrcFile {
    pub file: String,
}

#[derive(Debug, PartialEq)]
pub struct FailedToWriteToFile {
    pub file: String,
}

#[derive(Debug, PartialEq)]
pub struct FailedToParseSrcFile {
    pub file: String,
}

#[derive(Debug, PartialEq)]
pub struct DownstreamCompileFailed {}

#[derive(Debug, PartialEq)]
pub struct VariableTypeAmbiguous {}

#[derive(Debug, PartialEq)]
pub struct CouldNotTranspileType {}

/// An assignment that the type engine rejects.
#[derive(Debug, PartialEq)]
pub struct IncompatibleTypes {
    pub expected: Type,
    pub actual: ExpressionType,
}

/// `null` stored where the type does not admit it, or has no sentinel for it.
#[derive(Debug, PartialEq)]
pub struct TypeNotNullable {
    pub received_type: Type,
}

#[derive(Debug, PartialEq)]
pub enum CompilationError {
    UnknownInterface(UnknownInterface),
    NoSourceFiles(NoSourceFiles),
    FailedToReadSrcFile(FailedToReadSrcFile),
    FailedToWriteToFile(FailedToWriteToFile),
    FailedToParseSrcFile(FailedToParseSrcFile),
    DownstreamCompileFailed(DownstreamCompileFailed),
    VariableTypeAmbiguous(VariableTypeAmbiguous),
    CouldNotTranspileType(CouldNotTranspileType),
    IncompatibleTypes(IncompatibleTypes),
    TypeNotNullable(TypeNotNullable),
}

pub enum ErrorModel {
    UnknownInterface(Seq<char>),
    NoSourceFiles(Seq<char>),
    FailedToReadSrcFile(Seq<char>),
    FailedToWriteToFile(Seq<char>),
    FailedToParseSrcFile(Seq<char>),
    DownstreamCompileFailed,
    VariableTypeAmbiguous,
    CouldNotTranspileType,
    IncompatibleTypes(TypeModel, ExprTypeModel),
    TypeNotNullable(TypeModel),
}

impl View for CompilationError {
    type V = ErrorModel;

    open spec fn view(&self) -> ErrorModel {
        match self {
            CompilationError::UnknownInterface(e) => ErrorModel::UnknownInterface(e.interface@),
            CompilationError::NoSourceFiles(e) => ErrorModel::NoSourceFiles(e.dir@),
            CompilationError::FailedToReadSrcFile(e) => ErrorModel::FailedToReadSrcFile(e.file@),
            CompilationError::FailedToWriteToFile(e) => ErrorModel::FailedToWriteToFile(e.file@),
            CompilationError::FailedToParseSrcFile(e) => ErrorModel::FailedToParseSrcFile(e.file@),
            CompilationError::DownstreamCompileFailed(_) => ErrorModel::DownstreamCompileFailed,
            CompilationError::VariableTypeAmbiguous(_) => ErrorModel::VariableTypeAmbiguous,
            CompilationError::CouldNotTranspileType(_) => ErrorModel::CouldNotTranspileType,
            CompilationError::IncompatibleTypes(e) => ErrorModel::IncompatibleTypes(
                e.expected@,
                e.actual@,
            ),
            CompilationError::TypeNotNullable(e) => ErrorModel::TypeNotNullable(e.received_type@),
        }
    }
}

/// `'text'`.
pub open spec fn quoted(text: Seq<char>) -> Seq<char> {
    "'"@ + text + "'"@
}

pub open spec fn message_text(e: ErrorModel) -> Seq<char> {
    match e {
        ErrorModel::UnknownInterface(i) => "could not find interface "@ + quoted(i),
        ErrorModel::NoSourceFiles(d) => "no palel source files were found in "@ + d,
        ErrorModel::FailedToReadSrcFile(f) => "failed to read source file "@ + quoted(f),
        ErrorModel::FailedToWriteToFile(f) => "failed to write to file "@ + quoted(f),
        ErrorModel::FailedToParseSrcFile(f) => "failed to parse source file "@ + quoted(f),
        ErrorModel::DownstreamCompileFailed => "downstream compiler failed"@,
        ErrorModel::VariableTypeAmbiguous => "could not determine type of variable"@,
        ErrorModel::CouldNotTranspileType => "could not transpile type"@,
        ErrorModel::IncompatibleTypes(expected, actual) => "incompatible types, expected "@
            + type_text(expected) + ", received "@ + expr_type_text(actual),
        ErrorModel::TypeNotNullable(t) => "type "@ + type_text(t) + " is not nullable"@,
    }
}

pub open spec fn exit_code_of(e: ErrorModel) -> i32 {
    match e {
        ErrorModel::NoSourceFiles(_) => NOOP_ERROR,
        ErrorModel::FailedToReadSrcFile(_) | ErrorModel::FailedToWriteToFile(_) => DISK_ERROR,
        ErrorModel::FailedToParseSrcFile(_) => PARSE_ERROR,
        ErrorModel::VariableTypeAmbiguous => LOGIC_ERROR,
        ErrorModel::IncompatibleTypes(_, _) => TYPE_ERROR,
        ErrorModel::UnknownInterface(_)
        | ErrorModel::CouldNotTranspileType
        | ErrorModel::TypeNotNullable(_) => TRANSPILE_ERROR,
        ErrorModel::DownstreamCompileFailed => DOWNSTREAM_ERROR,
    }
}

fn quote(text: &String) -> (r: String)
    ensures
        r@ == quoted(text@),
{
    let mut r = owned("'");
    r.append(text.as_str());
    r.append("'");
    r
}

fn joined(head: &str, tail: &String) -> (r: String)
    ensures
        r@ == head@ + tail@,
{
    let mut r = owned(head);
    r.append(tail.as_str());
    r
}

impl CompilationError {
    /// The message shown to the user.
    pub fn message(&self) -> (r: String)
        ensures
            r@ == message_text(self@),
    {
        match self {
            CompilationError::UnknownInterface(e) => joined(
                "could not find interface ",
                &quote(&e.interface),
            ),
            CompilationError::NoSourceFiles(e) => joined(
                "no palel source files were found in ",
                &e.dir,
            ),
            CompilationError::FailedToReadSrcFile(e) => joined(
                "failed to read source file ",
                &quote(&e.file),
            ),
            CompilationError::FailedToWriteToFile(e) => joined(
                "failed to write to file ",
                &quote(&e.file),
            ),
            CompilationError::FailedToParseSrcFile(e) => joined(
                "failed to parse source file ",
                &quote(&e.file),
            ),
            CompilationError::DownstreamCompileFailed(_) => owned("downstream compiler failed"),
            CompilationError::VariableTypeAmbiguous(_) => owned(
                "could not determine type of variable",
            ),
            CompilationError::CouldNotTranspileType(_) => owned("could not transpile type"),
            CompilationError::IncompatibleTypes(e) => {
                let mut r = joined("incompatible types, expected ", &e.expected.to_string());
                r.append(", received ");
                r.append(e.actual.to_string().as_str());
                r
            },
            CompilationError::TypeNotNullable(e) => {
                let mut r = joined("type ", &e.received_type.to_string());
                r.append(" is not nullable");
                r
            },
        }
    }

    /// The process exit code for this error.
    pub fn exit_code(&self) -> (r: i32)
        ensures
            r == exit_code_of(self@),
    {
        match self {
            CompilationError::NoSourceFiles(_) => NOOP_ERROR,
            CompilationError::FailedToReadSrcFile(_) => DISK_ERROR,
            CompilationError::FailedToWriteToFile(_) => DISK_ERROR,
            CompilationError::FailedToParseSrcFile(_) => PARSE_ERROR,
            CompilationError::VariableTypeAmbiguous(_) => LOGIC_ERROR,
            CompilationError::IncompatibleTypes(_) => TYPE_ERROR,
            CompilationError::UnknownInterface(_) => TRANSPILE_ERROR,
            CompilationError::CouldNotTranspileType(_) => TRANSPILE_ERROR,
            CompilationError::TypeNotNullable(_) => TRANSPILE_ERROR,
            CompilationError::DownstreamCompileFailed(_) => DOWNSTREAM_ERROR,
        }
    }
}

/// The outcome of a whole compilation: a value, or the first error.
pub enum Of<T> {
    Done(T),
    Error(CompilationError),
}

} // verus!
