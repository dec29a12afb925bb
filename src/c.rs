//! A minimal C syntax tree: a translation unit of includes and functions.
use vstd::prelude::*;

use crate::text::owned;

verus! {

#[derive(Debug, PartialEq)]
pub struct CSrc {
    pub includes: Vec<CInclude>,
    pub functions: Vec<CFunction>,
}

/// The includes that one part of a lowering needs.
#[derive(Debug, PartialEq)]
pub struct CSrcPatch {
    pub includes: Vec<CInclude>,
}

/// A directive that brings in the header `file`.
#[derive(Debug, PartialEq)]
pub struct CInclude {
    pub file: String,
}

#[derive(Debug, PartialEq)]
pub struct CFunction {
    pub name: String,
    pub return_type: CType,
    pub block: CBlock,
}

#[derive(Debug, PartialEq)]
pub struct CType {
    pub name: String,
    pub is_pointer: bool,
}

#[derive(Debug, PartialEq)]
pub struct CBlock {
    pub statements: Vec<CStatement>,
}

#[derive(Debug, PartialEq)]
pub enum CStatement {
    FunctionCall(CFunctionCall),
    Return(CReturn),
    Variable(CVariableDeclaration),
}

#[derive(Debug, PartialEq)]
pub struct CReturn {
    pub value: Option<CExpression>,
}

#[derive(Debug, PartialEq)]
pub struct CFunctionCall {
    pub function_name: String,
    pub arguments: Vec<CExpression>,
}

#[derive(Debug, PartialEq)]
pub enum CLiteral {
    String(String),
    Number(String),
}

/// A literal, or a bare C identifier such as `INT32_MIN`.
#[derive(Debug, PartialEq)]
pub enum CExpression {
    Literal(CLiteral),
    Variable(String),
}

#[derive(Debug, PartialEq)]
pub struct CVariableDeclaration {
    pub name: String,
    pub var_type: CType,
    pub value: CExpression,
}

// ---------------------------------------------------------------------------
// Models
// ---------------------------------------------------------------------------

pub struct CTypeModel {
    pub name: Seq<char>,
    pub is_pointer: bool,
}

pub enum CLiteralModel {
    String(Seq<char>),
    Number(Seq<char>),
}

pub enum CExprModel {
    Literal(CLiteralModel),
    Variable(Seq<char>),
}

pub struct CCallModel {
    pub function_name: Seq<char>,
    pub arguments: Seq<CExprModel>,
}

pub struct CDeclModel {
    pub name: Seq<char>,
    pub var_type: CTypeModel,
    pub value: CExprModel,
}

pub enum CStatementModel {
    FunctionCall(CCallModel),
    Return(Option<CExprModel>),
    Variable(CDeclModel),
}

pub struct CFunctionModel {
    pub name: Seq<char>,
    pub return_type: CTypeModel,
    pub block: Seq<CStatementModel>,
}

/// A translation unit: the included file names and the functions, in order.
pub struct CSrcModel {
    pub includes: Seq<Seq<char>>,
    pub functions: Seq<CFunctionModel>,
}

impl View for CInclude {
    type V = Seq<char>;

    open spec fn view(&self) -> Seq<char> {
        self.file@
    }
}

/// The file names of a sequence of includes.
pub open spec fn includes_model(v: Seq<CInclude>) -> Seq<Seq<char>> {
    v.map_values(|i: CInclude| i@)
}

impl View for CSrcPatch {
    type V = Seq<Seq<char>>;

    open spec fn view(&self) -> Seq<Seq<char>> {
        includes_model(self.includes@)
    }
}

impl View for CType {
    type V = CTypeModel;

    open spec fn view(&self) -> CTypeModel {
        CTypeModel { name: self.name@, is_pointer: self.is_pointer }
    }
}

impl View for CLiteral {
    type V = CLiteralModel;

    open spec fn view(&self) -> CLiteralModel {
        match self {
            CLiteral::String(s) => CLiteralModel::String(s@),
            CLiteral::Number(s) => CLiteralModel::Number(s@),
        }
    }
}

impl View for CExpression {
    type V = CExprModel;

    open spec fn view(&self) -> CExprModel {
        match self {
            CExpression::Literal(l) => CExprModel::Literal(l@),
            CExpression::Variable(s) => CExprModel::Variable(s@),
        }
    }
}

/// The models of a sequence of expressions.
pub open spec fn c_expressions_model(v: Seq<CExpression>) -> Seq<CExprModel> {
    v.map_values(|e: CExpression| e@)
}

impl View for CFunctionCall {
    type V = CCallModel;

    open spec fn view(&self) -> CCallModel {
        CCallModel {
            function_name: self.function_name@,
            arguments: c_expressions_model(self.arguments@),
        }
    }
}

impl View for CReturn {
    type V = Option<CExprModel>;

    open spec fn view(&self) -> Option<CExprModel> {
        match &self.value {
            Some(e) => Some(e@),
            None => None,
        }
    }
}

impl View for CVariableDeclaration {
    type V = CDeclModel;

    open spec fn view(&self) -> CDeclModel {
        CDeclModel { name: self.name@, var_type: self.var_type@, value: self.value@ }
    }
}

impl View for CStatement {
    type V = CStatementModel;

    open spec fn view(&self) -> CStatementModel {
        match self {
            CStatement::FunctionCall(c) => CStatementModel::FunctionCall(c@),
            CStatement::Return(r) => CStatementModel::Return(r@),
            CStatement::Variable(v) => CStatementModel::Variable(v@),
        }
    }
}

/// The models of a sequence of statements.
pub open spec fn c_statements_model(v: Seq<CStatement>) -> Seq<CStatementModel> {
    v.map_values(|s: CStatement| s@)
}

impl View for CBlock {
    type V = Seq<CStatementModel>;

    open spec fn view(&self) -> Seq<CStatementModel> {
        c_statements_model(self.statements@)
    }
}

impl View for CFunction {
    type V = CFunctionModel;

    open spec fn view(&self) -> CFunctionModel {
        CFunctionModel { name: self.name@, return_type: self.return_type@, block: self.block@ }
    }
}

impl View for CSrc {
    type V = CSrcModel;

    open spec fn view(&self) -> CSrcModel {
        CSrcModel {
            includes: includes_model(self.includes@),
            functions: self.functions@.map_values(|f: CFunction| f@),
        }
    }
}

// ---------------------------------------------------------------------------
// Executable functions
// ---------------------------------------------------------------------------

impl Clone for CInclude {
    fn clone(&self) -> (r: Self)
        ensures
            r@ == self@,
    {
        CInclude { file: self.file.clone() }
    }
}

impl Default for CSrcPatch {
    fn default() -> (r: Self)
        ensures
            r@ == Seq::<Seq<char>>::empty(),
    {
        let r = CSrcPatch { includes: Vec::new() };
        assert(r@ =~= Seq::<Seq<char>>::empty());
        r
    }
}

impl CReturn {
    pub fn to_statement(self) -> (r: CStatement)
        ensures
            r == CStatement::Return(self),
    {
        CStatement::Return(self)
    }
}

impl CFunctionCall {
    pub fn to_statement(self) -> (r: CStatement)
        ensures
            r == CStatement::FunctionCall(self),
    {
        CStatement::FunctionCall(self)
    }
}

impl CLiteral {
    pub fn to_expression(self) -> (r: CExpression)
        ensures
            r == CExpression::Literal(self),
    {
        CExpression::Literal(self)
    }
}

impl CVariableDeclaration {
    pub fn to_statement(self) -> (r: CStatement)
        ensures
            r == CStatement::Variable(self),
    {
        CStatement::Variable(self)
    }
}

/// `void`, or `void*` where `pointer` holds.
pub fn void_type(pointer: bool) -> (r: CType)
    ensures
        r@ == (CTypeModel { name: "void"@, is_pointer: pointer }),
{
    CType { name: owned("void"), is_pointer: pointer }
}

pub fn int_type() -> (r: CType)
    ensures
        r@ == (CTypeModel { name: "int"@, is_pointer: false }),
{
    CType { name: owned("int"), is_pointer: false }
}

pub fn long_type() -> (r: CType)
    ensures
        r@ == (CTypeModel { name: "long"@, is_pointer: false }),
{
    CType { name: owned("long"), is_pointer: false }
}

pub fn float_type() -> (r: CType)
    ensures
        r@ == (CTypeModel { name: "float"@, is_pointer: false }),
{
    CType { name: owned("float"), is_pointer: false }
}

pub fn double_type() -> (r: CType)
    ensures
        r@ == (CTypeModel { name: "double"@, is_pointer: false }),
{
    CType { name: owned("double"), is_pointer: false }
}

} // verus!
