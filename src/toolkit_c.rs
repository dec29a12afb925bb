//! The C back end: interface calls, the mapping of types, and the sentinel
//! that stands for `null`.
use vstd::prelude::*;

use crate::c::{
    CCallModel, CExprModel, CExpression, CFunctionCall, CInclude, CLiteral, CLiteralModel,
    CSrcPatch, CType, CTypeModel,
};
use crate::compilation_error::{CompilationError, ErrorModel, TypeNotNullable, UnknownInterface};
use crate::palel::{CallModel, ProcedureCall, SchemaIdModel, SchemaIdentifier, Type, TypeModel};
use crate::text::{owned, str_equal};
use crate::transpiler_c::{lower_args, transpile_expressions, CTranspile, Lowered};
use crate::transpiler_c_patch::{merge_includes, merge_patch};

verus! {

// ---------------------------------------------------------------------------
// Specification
// ---------------------------------------------------------------------------

/// The C name of a built-in value type; none for `Char` and user types.
pub open spec fn c_type_name(id: SchemaIdModel) -> Option<Seq<char>> {
    match id {
        SchemaIdModel::Int32 => Some("int32_t"@),
        SchemaIdModel::Int64 => Some("int64_t"@),
        SchemaIdModel::Float32 => Some("float"@),
        SchemaIdModel::Float64 => Some("double"@),
        SchemaIdModel::Bool => Some("int"@),
        _ => None,
    }
}

/// The headers that the C type of `id` needs.
pub open spec fn c_type_headers(id: SchemaIdModel) -> Seq<Seq<char>> {
    match id {
        SchemaIdModel::Int32 | SchemaIdModel::Int64 => seq!["stdint.h"@],
        _ => Seq::empty(),
    }
}

pub open spec fn schema_c_type(id: SchemaIdModel, pointer: bool) -> (
    Option<CTypeModel>,
    Seq<Seq<char>>,
) {
    match c_type_name(id) {
        Some(n) => (Some(CTypeModel { name: n, is_pointer: pointer }), c_type_headers(id)),
        None => (None, Seq::empty()),
    }
}

/// The C type of a Palel type with the headers it needs; none where C has
/// no direct counterpart.
pub open spec fn c_type_of(t: TypeModel) -> (Option<CTypeModel>, Seq<Seq<char>>) {
    match t {
        TypeModel::Addr(_) => (Some(CTypeModel { name: "void"@, is_pointer: true }), Seq::empty()),
        TypeModel::Ref(s) => schema_c_type(s.identifier, true),
        TypeModel::Dim(s) => schema_c_type(s.identifier, false),
    }
}

pub open spec fn zero_expr() -> CExprModel {
    CExprModel::Literal(CLiteralModel::Number("0"@))
}

/// The expression that stands for `null` in a location of type `t`.
pub open spec fn null_sentinel(t: TypeModel) -> Lowered<CExprModel> {
    match t {
        TypeModel::Addr(_) => Ok((zero_expr(), Seq::empty())),
        TypeModel::Ref(_) => Ok((zero_expr(), Seq::empty())),
        TypeModel::Dim(s) => match s.identifier {
            SchemaIdModel::Int32 => Ok((CExprModel::Variable("INT32_MIN"@), seq!["stdint.h"@])),
            SchemaIdModel::Int64 => Ok((CExprModel::Variable("INT64_MIN"@), seq!["stdint.h"@])),
            SchemaIdModel::Float64 => Ok((CExprModel::Variable("-DBL_MAX"@), seq!["float.h"@])),
            _ => Err(ErrorModel::TypeNotNullable(t)),
        },
    }
}

/// A call through an interface; only `debug` is known, and it needs `stdio.h`.
pub open spec fn interface_call(c: CallModel) -> Lowered<CCallModel> {
    if c.interface != "debug"@ {
        Err(ErrorModel::UnknownInterface(c.interface))
    } else {
        match lower_args(c.arguments) {
            Err(e) => Err(e),
            Ok((args, p)) => Ok(
                (
                    CCallModel { function_name: c.identifier, arguments: args },
                    merge_includes(seq!["stdio.h"@], p),
                ),
            ),
        }
    }
}

pub open spec fn opt_c_type_model(t: Option<CType>) -> Option<CTypeModel> {
    match t {
        Some(t) => Some(t@),
        None => None,
    }
}

// ---------------------------------------------------------------------------
// Executable functions
// ---------------------------------------------------------------------------

/// The C back end.
pub struct CToolKit {}

fn headers(stdint: bool) -> (r: CSrcPatch)
    ensures
        r@ == (if stdint {
            seq!["stdint.h"@]
        } else {
            Seq::empty()
        }),
{
    let mut p = CSrcPatch { includes: Vec::new() };
    if stdint {
        p.includes.push(CInclude { file: owned("stdint.h") });
    }
    assert(p@ =~= (if stdint {
        seq!["stdint.h"@]
    } else {
        Seq::empty()
    }));
    p
}

fn one_header(file: &str) -> (r: CSrcPatch)
    ensures
        r@ == seq![file@],
{
    let mut p = CSrcPatch { includes: Vec::new() };
    p.includes.push(CInclude { file: owned(file) });
    assert(p@ =~= seq![file@]);
    p
}

fn map_type(id: &SchemaIdentifier, pointer: bool) -> (r: (Option<CType>, CSrcPatch))
    ensures
        (opt_c_type_model(r.0), r.1@) == schema_c_type(id@, pointer),
{
    match id {
        SchemaIdentifier::Int32 => (Some(CType { name: owned("int32_t"), is_pointer: pointer }), headers(true)),
        SchemaIdentifier::Int64 => (Some(CType { name: owned("int64_t"), is_pointer: pointer }), headers(true)),
        SchemaIdentifier::Float32 => (Some(CType { name: owned("float"), is_pointer: pointer }), headers(false)),
        SchemaIdentifier::Float64 => (Some(CType { name: owned("double"), is_pointer: pointer }), headers(false)),
        SchemaIdentifier::Bool => (Some(CType { name: owned("int"), is_pointer: pointer }), headers(false)),
        _ => (None, headers(false)),
    }
}

fn zero_literal() -> (r: CLiteral)
    ensures
        CExpression::Literal(r)@ == zero_expr(),
{
    CLiteral::Number(owned("0"))
}

fn int32_min_variable() -> (r: CExpression)
    ensures
        r@ == CExprModel::Variable("INT32_MIN"@),
{
    CExpression::Variable(owned("INT32_MIN"))
}

fn int64_min_variable() -> (r: CExpression)
    ensures
        r@ == CExprModel::Variable("INT64_MIN"@),
{
    CExpression::Variable(owned("INT64_MIN"))
}

impl CToolKit {
    /// Lowers `interface:name(args)` to a C call.
    pub fn transpile_interface_call(&self, input: &ProcedureCall) -> (r: CTranspile<CFunctionCall>)
        ensures
            r@ == interface_call(input@),
    {
        if !str_equal(input.interface.as_str(), "debug") {
            return CTranspile::Error(
                CompilationError::UnknownInterface(
                    UnknownInterface { interface: input.interface.clone() },
                ),
            );
        }
        let mut patch = one_header("stdio.h");
        let expressions = match transpile_expressions(&input.arguments, self) {
            CTranspile::Done(exprs, in_patch) => {
                merge_patch(&mut patch, &in_patch);
                exprs
            },
            CTranspile::Error(e) => {
                return CTranspile::Error(e);
            },
        };
        let function_call = CFunctionCall {
            function_name: input.identifier.clone(),
            arguments: expressions,
        };
        CTranspile::Done(function_call, patch)
    }

    /// The C type of `typ` with the headers it needs; `None` where C has no
    /// direct counterpart. This back end never fails here.
    pub fn transpile_type(&self, typ: &Type) -> (r: CTranspile<Option<CType>>)
        ensures
            r is Done,
            (opt_c_type_model(r->Done_0), r->Done_1@) == c_type_of(typ@),
    {
        match typ {
            Type::Addr(_) => {
                let p = headers(false);
                CTranspile::Done(Some(CType { name: owned("void"), is_pointer: true }), p)
            },
            Type::Ref(s) => {
                let (t, p) = map_type(&s.identifier, true);
                CTranspile::Done(t, p)
            },
            Type::Dim(s) => {
                let (t, p) = map_type(&s.identifier, false);
                CTranspile::Done(t, p)
            },
        }
    }

    /// The expression that stands for `null` in a location of type `typ`.
    pub fn transpile_null(&self, typ: &Type) -> (r: CTranspile<CExpression>)
        ensures
            r@ == null_sentinel(typ@),
    {
        match typ {
            Type::Addr(_) => CTranspile::Done(zero_literal().to_expression(), headers(false)),
            Type::Ref(_) => CTranspile::Done(zero_literal().to_expression(), headers(false)),
            Type::Dim(dimtype) => match dimtype.identifier {
                SchemaIdentifier::Int32 => CTranspile::Done(int32_min_variable(), headers(true)),
                SchemaIdentifier::Int64 => CTranspile::Done(int64_min_variable(), headers(true)),
                SchemaIdentifier::Float64 => CTranspile::Done(
                    CExpression::Variable(owned("-DBL_MAX")),
                    one_header("float.h"),
                ),
                _ => CTranspile::Error(
                    CompilationError::TypeNotNullable(TypeNotNullable { received_type: typ.clone() }),
                ),
            },
        }
    }
}

} // verus!
