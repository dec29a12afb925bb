//! The type engine: the type of an expression, the type of a declared
//! variable, and which assignments are allowed.
use vstd::prelude::*;

use crate::palel::{
    bool_type, charseq_type, float64_type, int32_type, opt_schema_model, opt_type_model,
    promote, schema_of, ExprTypeModel, Expression, ExpressionType, Literal, LiteralModel,
    MemoryModifier, SchemaIdModel, SchemaIdentifier, SchemaModel, SchemaType, Type, TypeFamily,
    TypeModel, TypePostfix,
};
use crate::text::{str_contains_char, str_equal};

verus! {

// ---------------------------------------------------------------------------
// Specification
// ---------------------------------------------------------------------------

/// The type a literal yields. A number is floating-point when its text has a `.`.
pub open spec fn expr_type_of(l: LiteralModel) -> ExprTypeModel {
    match l {
        LiteralModel::Boolean(_) => ExprTypeModel::Dim(schema_of(SchemaIdModel::Bool)),
        LiteralModel::Number(t) => if t.contains('.') {
            ExprTypeModel::Dim(schema_of(SchemaIdModel::Float64))
        } else {
            ExprTypeModel::Dim(schema_of(SchemaIdModel::Int32))
        },
        LiteralModel::String(_) => ExprTypeModel::Dim(schema_of(SchemaIdModel::Char)),
        LiteralModel::Null => ExprTypeModel::Null,
    }
}

/// An expression type seen as a reference; none for an untyped address or null.
pub open spec fn as_ref(t: ExprTypeModel) -> Option<TypeModel> {
    match t {
        ExprTypeModel::Dim(s) => Some(TypeModel::Ref(s)),
        ExprTypeModel::Ref(s) => Some(TypeModel::Ref(s)),
        ExprTypeModel::Addr(Some(s)) => Some(TypeModel::Ref(s)),
        ExprTypeModel::Addr(None) => None,
        ExprTypeModel::Null => None,
    }
}

/// The type of a variable declared with `memory`, an optional schema and an
/// initializer; none where it cannot be decided.
pub open spec fn variable_type(
    memory: MemoryModifier,
    declared: Option<SchemaModel>,
    init: LiteralModel,
) -> Option<TypeModel> {
    match memory {
        MemoryModifier::Addr => Some(TypeModel::Addr(declared)),
        MemoryModifier::Dim | MemoryModifier::Var => match declared {
            Some(s) => Some(TypeModel::Dim(s)),
            None => promote(expr_type_of(init)),
        },
        MemoryModifier::Ref => match declared {
            Some(s) => Some(TypeModel::Ref(s)),
            None => as_ref(expr_type_of(init)),
        },
    }
}

/// A width as a number; an absent width counts as 0.
pub open spec fn width_num(w: Option<i32>) -> int {
    match w {
        Some(x) => x as int,
        None => 0,
    }
}

/// Implicit conversion: identity where a family is `Other`, otherwise the
/// same family and no narrowing.
pub open spec fn schema_compatible(to: SchemaModel, from: SchemaModel) -> bool {
    if to.family == TypeFamily::Other || from.family == TypeFamily::Other {
        to == from
    } else {
        to.family == from.family && width_num(to.width) >= width_num(from.width)
    }
}

pub open spec fn nullable(s: SchemaModel) -> bool {
    s.postfix == TypePostfix::Opt
}

/// Whether a value of type `from` may be stored in a location of type `to`.
pub open spec fn assignable(to: TypeModel, from: ExprTypeModel) -> bool {
    match to {
        TypeModel::Addr(None) => true,
        TypeModel::Addr(Some(s)) => match from {
            ExprTypeModel::Addr(None) => false,
            ExprTypeModel::Addr(Some(t)) => schema_compatible(s, t),
            ExprTypeModel::Dim(t) => schema_compatible(s, t),
            ExprTypeModel::Ref(t) => schema_compatible(s, t),
            ExprTypeModel::Null => nullable(s),
        },
        TypeModel::Ref(s) => match from {
            ExprTypeModel::Ref(t) => schema_compatible(s, t),
            ExprTypeModel::Dim(t) => schema_compatible(s, t),
            ExprTypeModel::Null => nullable(s),
            ExprTypeModel::Addr(_) => false,
        },
        TypeModel::Dim(s) => match from {
            ExprTypeModel::Dim(t) => schema_compatible(s, t),
            ExprTypeModel::Null => nullable(s),
            ExprTypeModel::Addr(_) => false,
            ExprTypeModel::Ref(_) => false,
        },
    }
}

// ---------------------------------------------------------------------------
// Laws
// ---------------------------------------------------------------------------

/// A value may always be stored in a location of its own type.
pub proof fn lemma_same_type_assignable(s: SchemaModel)
    ensures
        assignable(TypeModel::Dim(s), ExprTypeModel::Dim(s)),
        assignable(TypeModel::Ref(s), ExprTypeModel::Ref(s)),
        assignable(TypeModel::Addr(Some(s)), ExprTypeModel::Addr(Some(s))),
{
}

/// Within a family a value may be widened and never narrowed.
pub proof fn lemma_widening(to: SchemaModel, from: SchemaModel)
    requires
        to.wf(),
        from.wf(),
        to.postfix == from.postfix,
        to.family != TypeFamily::Other,
        to.family == from.family,
    ensures
        assignable(TypeModel::Dim(to), ExprTypeModel::Dim(from)) <==> width_num(to.width)
            >= width_num(from.width),
{
}

/// `null` may be stored in a value location exactly when its schema is optional.
pub proof fn lemma_null_needs_optional(s: SchemaModel)
    ensures
        assignable(TypeModel::Dim(s), ExprTypeModel::Null) <==> s.postfix == TypePostfix::Opt,
        assignable(TypeModel::Ref(s), ExprTypeModel::Null) <==> s.postfix == TypePostfix::Opt,
{
}

/// No assignment crosses type families.
pub proof fn lemma_families_do_not_mix(to: SchemaModel, from: SchemaModel)
    requires
        to.family != from.family,
    ensures
        !assignable(TypeModel::Dim(to), ExprTypeModel::Dim(from)),
        !assignable(TypeModel::Ref(to), ExprTypeModel::Ref(from)),
        !assignable(TypeModel::Ref(to), ExprTypeModel::Dim(from)),
        !assignable(TypeModel::Addr(Some(to)), ExprTypeModel::Addr(Some(from))),
{
}

/// An untyped address accepts every value, `null` included.
pub proof fn lemma_untyped_address_accepts_all(from: ExprTypeModel)
    ensures
        assignable(TypeModel::Addr(None), from),
{
}

// ---------------------------------------------------------------------------
// Executable functions
// ---------------------------------------------------------------------------

fn same_identifier(a: &SchemaIdentifier, b: &SchemaIdentifier) -> (r: bool)
    ensures
        r == (a@ == b@),
{
    match (a, b) {
        (SchemaIdentifier::Int32, SchemaIdentifier::Int32) => true,
        (SchemaIdentifier::Int64, SchemaIdentifier::Int64) => true,
        (SchemaIdentifier::Float32, SchemaIdentifier::Float32) => true,
        (SchemaIdentifier::Float64, SchemaIdentifier::Float64) => true,
        (SchemaIdentifier::Bool, SchemaIdentifier::Bool) => true,
        (SchemaIdentifier::Char, SchemaIdentifier::Char) => true,
        (SchemaIdentifier::UserDefined(x), SchemaIdentifier::UserDefined(y)) => str_equal(
            x.as_str(),
            y.as_str(),
        ),
        _ => false,
    }
}

fn same_width(a: Option<i32>, b: Option<i32>) -> (r: bool)
    ensures
        r == (a == b),
{
    match (a, b) {
        (Some(x), Some(y)) => x == y,
        (None, None) => true,
        _ => false,
    }
}

fn same_schema(a: &SchemaType, b: &SchemaType) -> (r: bool)
    ensures
        r == (a@ == b@),
{
    same_identifier(&a.identifier, &b.identifier) && a.postfix == b.postfix && a.family
        == b.family && same_width(a.width, b.width)
}

fn width_or_zero(w: Option<i32>) -> (r: i32)
    ensures
        r as int == width_num(w),
{
    match w {
        Some(x) => x,
        None => 0,
    }
}

/// The type of a variable from its memory class, its declared schema if any,
/// and its initializer; `None` where that is ambiguous.
pub fn determine_variable_type(
    memory: MemoryModifier,
    provided_schema: Option<SchemaType>,
    expr: &Expression,
) -> (r: Option<Type>)
    ensures
        opt_type_model(r) == variable_type(memory, opt_schema_model(provided_schema), expr@),
{
    match memory {
        MemoryModifier::Addr => Some(Type::Addr(provided_schema)),
        MemoryModifier::Dim | MemoryModifier::Var => match provided_schema {
            Some(schema) => Some(Type::Dim(schema)),
            None => match type_of_expression(expr) {
                Some(t) => t.to_type(),
                None => None,
            },
        },
        MemoryModifier::Ref => match provided_schema {
            Some(schema) => Some(Type::Ref(schema)),
            None => match type_of_expression(expr) {
                Some(t) => as_ref_type(t),
                None => None,
            },
        },
    }
}

fn as_ref_type(t: ExpressionType) -> (r: Option<Type>)
    ensures
        opt_type_model(r) == as_ref(t@),
{
    match t {
        ExpressionType::Addr(Some(s)) => Some(Type::Ref(s)),
        ExpressionType::Addr(None) => None,
        ExpressionType::Dim(s) => Some(Type::Ref(s)),
        ExpressionType::Ref(s) => Some(Type::Ref(s)),
        ExpressionType::Null => None,
    }
}

/// The type an expression yields; every literal has one.
pub fn type_of_expression(expr: &Expression) -> (r: Option<ExpressionType>)
    ensures
        r is Some,
        r->Some_0@ == expr_type_of(expr@),
{
    match expr {
        Expression::Literal(literal) => match literal {
            Literal::Boolean(_) => Some(ExpressionType::Dim(bool_type())),
            Literal::Null => Some(ExpressionType::Null),
            Literal::Number(value) => {
                if str_contains_char(value.as_str(), '.') {
                    Some(ExpressionType::Dim(float64_type()))
                } else {
                    Some(ExpressionType::Dim(int32_type()))
                }
            },
            Literal::String(_) => Some(ExpressionType::Dim(charseq_type())),
        },
    }
}

/// Whether a value of type `from` may be stored in a location of type `to`.
pub fn is_valid_expression_assignment(to: &Type, from: &ExpressionType) -> (r: bool)
    ensures
        r == assignable(to@, from@),
{
    match to {
        Type::Addr(None) => true,
        Type::Addr(Some(s)) => match from {
            ExpressionType::Addr(None) => false,
            ExpressionType::Addr(Some(t)) => can_implicitly_convert(s, t),
            ExpressionType::Dim(t) => can_implicitly_convert(s, t),
            ExpressionType::Ref(t) => can_implicitly_convert(s, t),
            ExpressionType::Null => s.postfix == TypePostfix::Opt,
        },
        Type::Ref(s) => match from {
            ExpressionType::Ref(t) => can_implicitly_convert(s, t),
            ExpressionType::Dim(t) => can_implicitly_convert(s, t),
            ExpressionType::Null => s.postfix == TypePostfix::Opt,
            ExpressionType::Addr(_) => false,
        },
        Type::Dim(s) => match from {
            ExpressionType::Dim(t) => can_implicitly_convert(s, t),
            ExpressionType::Null => s.postfix == TypePostfix::Opt,
            ExpressionType::Addr(_) => false,
            ExpressionType::Ref(_) => false,
        },
    }
}

/// Whether a value of schema `from` converts implicitly to schema `to`.
pub fn can_implicitly_convert(to: &SchemaType, from: &SchemaType) -> (r: bool)
    ensures
        r == schema_compatible(to@, from@),
{
    if to.family == TypeFamily::Other || from.family == TypeFamily::Other {
        return same_schema(to, from);
    }
    if to.family != from.family {
        return false;
    }
    width_or_zero(to.width) >= width_or_zero(from.width)
}

} // verus!
