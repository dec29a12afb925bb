//! The Palel program tree and its type vocabulary.
//!
//! Every type that holds text has a view: a model of the same shape whose
//! strings are `Seq<char>`. Contracts across the crate speak of those models.
use vstd::prelude::*;

use crate::text::{owned, str_equal};

verus! {

// ---------------------------------------------------------------------------
// Program tree
// ---------------------------------------------------------------------------

/// A whole input: its programs, in order.
#[derive(Debug, PartialEq)]
pub struct Src {
    pub programs: Vec<Program>,
}

/// The statements of a `do ... end` block, in order.
#[derive(Debug, PartialEq)]
pub struct DoBlock {
    pub statements: Vec<Statement>,
}

/// A `program`: exactly one block.
#[derive(Debug, PartialEq)]
pub struct Program {
    pub do_block: DoBlock,
}

#[derive(Debug, PartialEq)]
pub enum Statement {
    ProcedureCall(ProcedureCall),
    Return(Return),
    Variable(VariableDeclaration),
}

#[derive(Debug, PartialEq)]
pub struct Return {
    pub value: Option<Expression>,
}

/// `interface:identifier(arguments)`; an empty interface means none.
#[derive(Debug, PartialEq)]
pub struct ProcedureCall {
    pub interface: String,
    pub identifier: String,
    pub arguments: Vec<Expression>,
}

/// A literal; numbers keep their surface text.
#[derive(Debug, PartialEq)]
pub enum Literal {
    String(String),
    Number(String),
    Boolean(bool),
    Null,
}

#[derive(Debug, PartialEq)]
pub enum Expression {
    Literal(Literal),
}

/// The storage class of a variable.
#[derive(Debug, PartialEq, Eq, Structural, Clone, Copy)]
pub enum MemoryModifier {
    Dim,
    Var,
    Ref,
    Addr,
}

#[derive(Debug, PartialEq)]
pub struct VariableDeclaration {
    pub memory: MemoryModifier,
    pub identifier: String,
    pub schema_type: Option<SchemaType>,
    pub expression: Expression,
}

// ---------------------------------------------------------------------------
// Type vocabulary
// ---------------------------------------------------------------------------

/// `T?`, `T!` or plain `T`.
#[derive(Debug, PartialEq, Eq, Structural, Clone, Copy)]
pub enum TypePostfix {
    Opt,
    Error,
    Plain,
}

#[derive(Debug, PartialEq, Eq, Structural, Clone, Copy)]
pub enum TypeFamily {
    Int,
    Float,
    Other,
}

/// A value type: an identifier with its postfix, family and bit width.
/// Family and width follow from the identifier (see `SchemaModel::wf`).
#[derive(Debug, PartialEq)]
pub struct SchemaType {
    pub identifier: SchemaIdentifier,
    pub postfix: TypePostfix,
    pub family: TypeFamily,
    pub width: Option<i32>,
}

#[derive(Debug, PartialEq)]
pub enum SchemaIdentifier {
    Int32,
    Int64,
    Float32,
    Float64,
    Bool,
    Char,
    UserDefined(String),
}

/// The type an expression yields.
#[derive(Debug, PartialEq)]
pub enum ExpressionType {
    Addr(Option<SchemaType>),
    Ref(SchemaType),
    Dim(SchemaType),
    Null,
}

/// The type a storage location has; unlike `ExpressionType` it has no `Null`.
#[derive(Debug, PartialEq)]
pub enum Type {
    Addr(Option<SchemaType>),
    Ref(SchemaType),
    Dim(SchemaType),
}

// ---------------------------------------------------------------------------
// Models
// ---------------------------------------------------------------------------

pub enum LiteralModel {
    String(Seq<char>),
    Number(Seq<char>),
    Boolean(bool),
    Null,
}

pub struct CallModel {
    pub interface: Seq<char>,
    pub identifier: Seq<char>,
    pub arguments: Seq<LiteralModel>,
}

pub struct DeclModel {
    pub memory: MemoryModifier,
    pub identifier: Seq<char>,
    pub schema_type: Option<SchemaModel>,
    pub expression: LiteralModel,
}

pub enum StatementModel {
    ProcedureCall(CallModel),
    Return(Option<LiteralModel>),
    Variable(DeclModel),
}

pub enum SchemaIdModel {
    Int32,
    Int64,
    Float32,
    Float64,
    Bool,
    Char,
    UserDefined(Seq<char>),
}

pub struct SchemaModel {
    pub identifier: SchemaIdModel,
    pub postfix: TypePostfix,
    pub family: TypeFamily,
    pub width: Option<i32>,
}

pub enum ExprTypeModel {
    Addr(Option<SchemaModel>),
    Ref(SchemaModel),
    Dim(SchemaModel),
    Null,
}

pub enum TypeModel {
    Addr(Option<SchemaModel>),
    Ref(SchemaModel),
    Dim(SchemaModel),
}

impl View for Literal {
    type V = LiteralModel;

    open spec fn view(&self) -> LiteralModel {
        match self {
            Literal::String(s) => LiteralModel::String(s@),
            Literal::Number(s) => LiteralModel::Number(s@),
            Literal::Boolean(b) => LiteralModel::Boolean(*b),
            Literal::Null => LiteralModel::Null,
        }
    }
}

/// An expression is a literal, so its model is the literal's.
impl View for Expression {
    type V = LiteralModel;

    open spec fn view(&self) -> LiteralModel {
        match self {
            Expression::Literal(l) => l@,
        }
    }
}

/// The models of a sequence of expressions.
pub open spec fn expressions_model(es: Seq<Expression>) -> Seq<LiteralModel> {
    es.map_values(|e: Expression| e@)
}

impl View for ProcedureCall {
    type V = CallModel;

    open spec fn view(&self) -> CallModel {
        CallModel {
            interface: self.interface@,
            identifier: self.identifier@,
            arguments: expressions_model(self.arguments@),
        }
    }
}

impl View for Return {
    type V = Option<LiteralModel>;

    open spec fn view(&self) -> Option<LiteralModel> {
        match &self.value {
            Some(e) => Some(e@),
            None => None,
        }
    }
}

impl View for VariableDeclaration {
    type V = DeclModel;

    open spec fn view(&self) -> DeclModel {
        DeclModel {
            memory: self.memory,
            identifier: self.identifier@,
            schema_type: opt_schema_model(self.schema_type),
            expression: self.expression@,
        }
    }
}

impl View for Statement {
    type V = StatementModel;

    open spec fn view(&self) -> StatementModel {
        match self {
            Statement::ProcedureCall(c) => StatementModel::ProcedureCall(c@),
            Statement::Return(r) => StatementModel::Return(r@),
            Statement::Variable(v) => StatementModel::Variable(v@),
        }
    }
}

/// The models of a sequence of statements.
pub open spec fn statements_model(ss: Seq<Statement>) -> Seq<StatementModel> {
    ss.map_values(|s: Statement| s@)
}

impl View for DoBlock {
    type V = Seq<StatementModel>;

    open spec fn view(&self) -> Seq<StatementModel> {
        statements_model(self.statements@)
    }
}

impl View for Program {
    type V = Seq<StatementModel>;

    open spec fn view(&self) -> Seq<StatementModel> {
        self.do_block@
    }
}

/// The models of a sequence of programs.
pub open spec fn programs_model(ps: Seq<Program>) -> Seq<Seq<StatementModel>> {
    ps.map_values(|p: Program| p@)
}

impl View for Src {
    type V = Seq<Seq<StatementModel>>;

    open spec fn view(&self) -> Seq<Seq<StatementModel>> {
        programs_model(self.programs@)
    }
}

impl View for SchemaIdentifier {
    type V = SchemaIdModel;

    open spec fn view(&self) -> SchemaIdModel {
        match self {
            SchemaIdentifier::Int32 => SchemaIdModel::Int32,
            SchemaIdentifier::Int64 => SchemaIdModel::Int64,
            SchemaIdentifier::Float32 => SchemaIdModel::Float32,
            SchemaIdentifier::Float64 => SchemaIdModel::Float64,
            SchemaIdentifier::Bool => SchemaIdModel::Bool,
            SchemaIdentifier::Char => SchemaIdModel::Char,
            SchemaIdentifier::UserDefined(s) => SchemaIdModel::UserDefined(s@),
        }
    }
}

impl View for SchemaType {
    type V = SchemaModel;

    open spec fn view(&self) -> SchemaModel {
        SchemaModel {
            identifier: self.identifier@,
            postfix: self.postfix,
            family: self.family,
            width: self.width,
        }
    }
}

pub open spec fn opt_schema_model(s: Option<SchemaType>) -> Option<SchemaModel> {
    match s {
        Some(t) => Some(t@),
        None => None,
    }
}

impl View for ExpressionType {
    type V = ExprTypeModel;

    open spec fn view(&self) -> ExprTypeModel {
        match self {
            ExpressionType::Addr(s) => ExprTypeModel::Addr(opt_schema_model(*s)),
            ExpressionType::Ref(s) => ExprTypeModel::Ref(s@),
            ExpressionType::Dim(s) => ExprTypeModel::Dim(s@),
            ExpressionType::Null => ExprTypeModel::Null,
        }
    }
}

impl View for Type {
    type V = TypeModel;

    open spec fn view(&self) -> TypeModel {
        match self {
            Type::Addr(s) => TypeModel::Addr(opt_schema_model(*s)),
            Type::Ref(s) => TypeModel::Ref(s@),
            Type::Dim(s) => TypeModel::Dim(s@),
        }
    }
}

pub open spec fn opt_type_model(t: Option<Type>) -> Option<TypeModel> {
    match t {
        Some(t) => Some(t@),
        None => None,
    }
}

// ---------------------------------------------------------------------------
// Facts about identifiers
// ---------------------------------------------------------------------------

/// `Int32|Int64 -> Int`, `Float32|Float64 -> Float`, otherwise `Other`.
pub open spec fn family_of(id: SchemaIdModel) -> TypeFamily {
    match id {
        SchemaIdModel::Int32 | SchemaIdModel::Int64 => TypeFamily::Int,
        SchemaIdModel::Float32 | SchemaIdModel::Float64 => TypeFamily::Float,
        _ => TypeFamily::Other,
    }
}

/// 32 for `Int32|Float32`, 64 for `Int64|Float64`, absent otherwise.
pub open spec fn width_of(id: SchemaIdModel) -> Option<i32> {
    match id {
        SchemaIdModel::Int32 | SchemaIdModel::Float32 => Some(32),
        SchemaIdModel::Int64 | SchemaIdModel::Float64 => Some(64),
        _ => None,
    }
}

/// The identifier a type name in source text denotes.
pub open spec fn ident_from_name(name: Seq<char>) -> SchemaIdModel {
    if name == "Int32"@ {
        SchemaIdModel::Int32
    } else if name == "Int64"@ {
        SchemaIdModel::Int64
    } else if name == "Float32"@ {
        SchemaIdModel::Float32
    } else if name == "Float64"@ {
        SchemaIdModel::Float64
    } else if name == "Bool"@ {
        SchemaIdModel::Bool
    } else if name == "Char"@ {
        SchemaIdModel::Char
    } else {
        SchemaIdModel::UserDefined(name)
    }
}

/// The schema of `id` with no postfix.
pub open spec fn schema_of(id: SchemaIdModel) -> SchemaModel {
    SchemaModel { identifier: id, postfix: TypePostfix::Plain, family: family_of(id), width: width_of(id) }
}

impl SchemaModel {
    /// Family and width agree with the identifier.
    pub open spec fn wf(self) -> bool {
        self.family == family_of(self.identifier) && self.width == width_of(self.identifier)
    }
}

/// An expression type seen as a storage type; `Null` has none.
pub open spec fn promote(t: ExprTypeModel) -> Option<TypeModel> {
    match t {
        ExprTypeModel::Addr(s) => Some(TypeModel::Addr(s)),
        ExprTypeModel::Ref(s) => Some(TypeModel::Ref(s)),
        ExprTypeModel::Dim(s) => Some(TypeModel::Dim(s)),
        ExprTypeModel::Null => None,
    }
}

// ---------------------------------------------------------------------------
// Text of types, as error messages show them
// ---------------------------------------------------------------------------

pub open spec fn ident_text(id: SchemaIdModel) -> Seq<char> {
    match id {
        SchemaIdModel::Int32 => "Int32"@,
        SchemaIdModel::Int64 => "Int64"@,
        SchemaIdModel::Float32 => "Float32"@,
        SchemaIdModel::Float64 => "Float64"@,
        SchemaIdModel::Bool => "Bool"@,
        SchemaIdModel::Char => "Char"@,
        SchemaIdModel::UserDefined(s) => s,
    }
}

/// `T`, followed by `?` or `!` for those postfixes.
pub open spec fn schema_text(s: SchemaModel) -> Seq<char> {
    ident_text(s.identifier) + match s.postfix {
        TypePostfix::Opt => "?"@,
        TypePostfix::Error => "!"@,
        TypePostfix::Plain => Seq::<char>::empty(),
    }
}

/// `addr T`, or `addr` alone for an untyped address.
pub open spec fn addr_text(s: Option<SchemaModel>) -> Seq<char> {
    match s {
        Some(t) => "addr "@ + schema_text(t),
        None => "addr"@,
    }
}

/// `dim T`, `ref T`, `addr T` or `addr`.
pub open spec fn type_text(t: TypeModel) -> Seq<char> {
    match t {
        TypeModel::Addr(s) => addr_text(s),
        TypeModel::Ref(s) => "ref "@ + schema_text(s),
        TypeModel::Dim(s) => "dim "@ + schema_text(s),
    }
}

/// As `type_text`, and `null` for the null type.
pub open spec fn expr_type_text(t: ExprTypeModel) -> Seq<char> {
    match t {
        ExprTypeModel::Addr(s) => addr_text(s),
        ExprTypeModel::Ref(s) => "ref "@ + schema_text(s),
        ExprTypeModel::Dim(s) => "dim "@ + schema_text(s),
        ExprTypeModel::Null => "null"@,
    }
}

// ---------------------------------------------------------------------------
// Executable functions
// ---------------------------------------------------------------------------

impl Default for Src {
    fn default() -> (r: Src)
        ensures
            r@.len() == 0,
    {
        Src { programs: Vec::new() }
    }
}

impl Return {
    pub fn to_statement(self) -> (r: Statement)
        ensures
            r == Statement::Return(self),
    {
        Statement::Return(self)
    }
}

impl ProcedureCall {
    pub fn to_statement(self) -> (r: Statement)
        ensures
            r == Statement::ProcedureCall(self),
    {
        Statement::ProcedureCall(self)
    }
}

impl Literal {
    pub fn to_expression(self) -> (r: Expression)
        ensures
            r == Expression::Literal(self),
    {
        Expression::Literal(self)
    }
}

impl VariableDeclaration {
    pub fn to_statement(self) -> (r: Statement)
        ensures
            r == Statement::Variable(self),
    {
        Statement::Variable(self)
    }
}

/// The family of the type named `name`.
pub fn type_family_of(name: &String) -> (r: TypeFamily)
    ensures
        r == family_of(ident_from_name(name@)),
{
    let n = name.as_str();
    if str_equal(n, "Int32") || str_equal(n, "Int64") {
        TypeFamily::Int
    } else if str_equal(n, "Float32") || str_equal(n, "Float64") {
        TypeFamily::Float
    } else {
        TypeFamily::Other
    }
}

/// The bit width of the type named `name`.
pub fn type_size_of(name: &String) -> (r: Option<i32>)
    ensures
        r == width_of(ident_from_name(name@)),
{
    let n = name.as_str();
    if str_equal(n, "Int32") {
        Some(32)
    } else if str_equal(n, "Int64") {
        Some(64)
    } else if str_equal(n, "Float32") {
        Some(32)
    } else if str_equal(n, "Float64") {
        Some(64)
    } else {
        None
    }
}

impl SchemaIdentifier {
    pub fn family(&self) -> (r: TypeFamily)
        ensures
            r == family_of(self@),
    {
        match self {
            SchemaIdentifier::Int32 | SchemaIdentifier::Int64 => TypeFamily::Int,
            SchemaIdentifier::Float32 | SchemaIdentifier::Float64 => TypeFamily::Float,
            _ => TypeFamily::Other,
        }
    }

    pub fn size(&self) -> (r: Option<i32>)
        ensures
            r == width_of(self@),
    {
        match self {
            SchemaIdentifier::Int32 | SchemaIdentifier::Float32 => Some(32),
            SchemaIdentifier::Int64 | SchemaIdentifier::Float64 => Some(64),
            _ => None,
        }
    }

    /// The identifier's name as source text writes it.
    pub fn to_string(&self) -> (r: String)
        ensures
            r@ == ident_text(self@),
    {
        match self {
            SchemaIdentifier::Int32 => owned("Int32"),
            SchemaIdentifier::Int64 => owned("Int64"),
            SchemaIdentifier::Float32 => owned("Float32"),
            SchemaIdentifier::Float64 => owned("Float64"),
            SchemaIdentifier::Bool => owned("Bool"),
            SchemaIdentifier::Char => owned("Char"),
            SchemaIdentifier::UserDefined(id) => id.clone(),
        }
    }
}

impl Clone for SchemaIdentifier {
    fn clone(&self) -> (r: Self)
        ensures
            r@ == self@,
    {
        match self {
            SchemaIdentifier::Int32 => SchemaIdentifier::Int32,
            SchemaIdentifier::Int64 => SchemaIdentifier::Int64,
            SchemaIdentifier::Float32 => SchemaIdentifier::Float32,
            SchemaIdentifier::Float64 => SchemaIdentifier::Float64,
            SchemaIdentifier::Bool => SchemaIdentifier::Bool,
            SchemaIdentifier::Char => SchemaIdentifier::Char,
            SchemaIdentifier::UserDefined(id) => SchemaIdentifier::UserDefined(id.clone()),
        }
    }
}

impl Clone for SchemaType {
    fn clone(&self) -> (r: Self)
        ensures
            r@ == self@,
    {
        SchemaType {
            identifier: self.identifier.clone(),
            postfix: self.postfix,
            family: self.family,
            width: self.width,
        }
    }
}

/// A copy of an optional schema.
pub fn clone_opt_schema(s: &Option<SchemaType>) -> (r: Option<SchemaType>)
    ensures
        opt_schema_model(r) == opt_schema_model(*s),
{
    match s {
        Some(t) => Some(t.clone()),
        None => None,
    }
}

impl Clone for Type {
    fn clone(&self) -> (r: Self)
        ensures
            r@ == self@,
    {
        match self {
            Type::Addr(s) => Type::Addr(clone_opt_schema(s)),
            Type::Ref(s) => Type::Ref(s.clone()),
            Type::Dim(s) => Type::Dim(s.clone()),
        }
    }
}

impl Clone for ExpressionType {
    fn clone(&self) -> (r: Self)
        ensures
            r@ == self@,
    {
        match self {
            ExpressionType::Addr(s) => ExpressionType::Addr(clone_opt_schema(s)),
            ExpressionType::Ref(s) => ExpressionType::Ref(s.clone()),
            ExpressionType::Dim(s) => ExpressionType::Dim(s.clone()),
            ExpressionType::Null => ExpressionType::Null,
        }
    }
}

impl SchemaType {
    /// Replaces the identifier, and with it the family and the width.
    pub fn set_identifier(&mut self, new_identifier: SchemaIdentifier)
        ensures
            final(self)@ == (SchemaModel {
                identifier: new_identifier@,
                postfix: old(self).postfix,
                family: family_of(new_identifier@),
                width: width_of(new_identifier@),
            }),
    {
        self.family = new_identifier.family();
        self.width = new_identifier.size();
        self.identifier = new_identifier;
    }

    /// The schema as source text writes it: `T`, `T?` or `T!`.
    pub fn to_string(&self) -> (r: String)
        ensures
            r@ == schema_text(self@),
    {
        let mut output = self.identifier.to_string();
        match self.postfix {
            TypePostfix::Opt => output.append("?"),
            TypePostfix::Error => output.append("!"),
            TypePostfix::Plain => {},
        }
        proof {
            reveal_strlit("?");
            reveal_strlit("!");
        }
        assert(output@ =~= schema_text(self@));
        output
    }
}

fn addr_to_string(s: &Option<SchemaType>) -> (r: String)
    ensures
        r@ == addr_text(opt_schema_model(*s)),
{
    match s {
        Some(t) => {
            let mut output = owned("addr ");
            output.append(t.to_string().as_str());
            output
        },
        None => owned("addr"),
    }
}

/// The identifier that a type name in source text denotes.
pub fn schema_identifier_from_string(value: String) -> (r: SchemaIdentifier)
    ensures
        r@ == ident_from_name(value@),
{
    let v = value.as_str();
    if str_equal(v, "Int32") {
        SchemaIdentifier::Int32
    } else if str_equal(v, "Int64") {
        SchemaIdentifier::Int64
    } else if str_equal(v, "Float32") {
        SchemaIdentifier::Float32
    } else if str_equal(v, "Float64") {
        SchemaIdentifier::Float64
    } else if str_equal(v, "Bool") {
        SchemaIdentifier::Bool
    } else if str_equal(v, "Char") {
        SchemaIdentifier::Char
    } else {
        SchemaIdentifier::UserDefined(value)
    }
}

impl ExpressionType {
    /// The storage type of the same class; `None` for `Null`.
    pub fn to_type(self) -> (r: Option<Type>)
        ensures
            opt_type_model(r) == promote(self@),
    {
        match self {
            ExpressionType::Addr(t) => Some(Type::Addr(t)),
            ExpressionType::Ref(t) => Some(Type::Ref(t)),
            ExpressionType::Dim(t) => Some(Type::Dim(t)),
            ExpressionType::Null => None,
        }
    }

    /// The type as error messages show it.
    pub fn to_string(&self) -> (r: String)
        ensures
            r@ == expr_type_text(self@),
    {
        match self {
            ExpressionType::Addr(s) => addr_to_string(s),
            ExpressionType::Ref(s) => {
                let mut output = owned("ref ");
                output.append(s.to_string().as_str());
                output
            },
            ExpressionType::Dim(s) => {
                let mut output = owned("dim ");
                output.append(s.to_string().as_str());
                output
            },
            ExpressionType::Null => owned("null"),
        }
    }
}

impl Type {
    /// The type as error messages show it.
    pub fn to_string(&self) -> (r: String)
        ensures
            r@ == type_text(self@),
    {
        match self {
            Type::Addr(s) => addr_to_string(s),
            Type::Ref(s) => {
                let mut output = owned("ref ");
                output.append(s.to_string().as_str());
                output
            },
            Type::Dim(s) => {
                let mut output = owned("dim ");
                output.append(s.to_string().as_str());
                output
            },
        }
    }
}

/// The schema of a built-in identifier, with no postfix.
pub fn schema_type(identifier: SchemaIdentifier) -> (r: SchemaType)
    ensures
        r@ == schema_of(identifier@),
        r@.wf(),
{
    let family = identifier.family();
    let width = identifier.size();
    SchemaType { identifier: identifier, postfix: TypePostfix::Plain, family: family, width: width }
}

/// The default type of a string literal: a sequence of `Char`.
pub fn charseq_type() -> (r: SchemaType)
    ensures
        r@ == schema_of(SchemaIdModel::Char),
{
    SchemaType {
        identifier: SchemaIdentifier::Char,
        postfix: TypePostfix::Plain,
        family: TypeFamily::Other,
        width: None,
    }
}

pub fn bool_type() -> (r: SchemaType)
    ensures
        r@ == schema_of(SchemaIdModel::Bool),
{
    schema_type(SchemaIdentifier::Bool)
}

pub fn int32_type() -> (r: SchemaType)
    ensures
        r@ == schema_of(SchemaIdModel::Int32),
{
    schema_type(SchemaIdentifier::Int32)
}

pub fn int64_type() -> (r: SchemaType)
    ensures
        r@ == schema_of(SchemaIdModel::Int64),
{
    schema_type(SchemaIdentifier::Int64)
}

pub fn float32_type() -> (r: SchemaType)
    ensures
        r@ == schema_of(SchemaIdModel::Float32),
{
    schema_type(SchemaIdentifier::Float32)
}

pub fn float64_type() -> (r: SchemaType)
    ensures
        r@ == schema_of(SchemaIdModel::Float64),
{
    schema_type(SchemaIdentifier::Float64)
}

} // verus!
