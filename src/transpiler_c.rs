//! The lowering of a Palel program to a C translation unit.
//!
//! Each step returns its result together with the includes it needs (a
//! patch); the caller merges the patches upward.
use vstd::prelude::*;

use crate::c::{
    c_expressions_model, c_statements_model, int_type, CBlock, CDeclModel, CExprModel,
    CExpression, CFunction, CFunctionCall, CFunctionModel, CLiteral, CLiteralModel, CReturn,
    CSrc, CSrcModel, CSrcPatch, CStatement, CStatementModel, CCallModel, CTypeModel,
    CVariableDeclaration,
};
use crate::compilation_error::{
    CompilationError, CouldNotTranspileType, ErrorModel, IncompatibleTypes, Of,
    TypeNotNullable, VariableTypeAmbiguous,
};
use crate::palel::{
    clone_opt_schema, expressions_model, promote, CallModel, DeclModel, DoBlock, Expression,
    ExpressionType,
    Literal, LiteralModel, Program, ProcedureCall, Return, Src, Statement, StatementModel, Type,
    TypeModel, VariableDeclaration,
};
use crate::text::owned;
use crate::toolkit_c::{c_type_of, interface_call, null_sentinel, CToolKit};
use crate::transpiler_c_patch::{
    lemma_merge_keeps_distinct, merge_includes, merge_patch, patch_src,
};
use crate::type_checking::{
    assignable, determine_variable_type, expr_type_of, is_valid_expression_assignment,
    type_of_expression, variable_type,
};

verus! {

/// A lowered value with the includes it needs, or the error that stopped it.
pub enum CTranspile<T> {
    Done(T, CSrcPatch),
    Error(CompilationError),
}

/// A lowering result at the level of models.
pub type Lowered<V> = Result<(V, Seq<Seq<char>>), ErrorModel>;

impl<T: View> View for CTranspile<T> {
    type V = Lowered<T::V>;

    open spec fn view(&self) -> Lowered<T::V> {
        match self {
            CTranspile::Done(x, p) => Ok((x@, p@)),
            CTranspile::Error(e) => Err(e@),
        }
    }
}

// ---------------------------------------------------------------------------
// Specification
// ---------------------------------------------------------------------------

/// A literal lowered where a location of type `expected` receives it.
pub open spec fn lower_literal(l: LiteralModel, expected: TypeModel) -> Lowered<CExprModel> {
    match l {
        LiteralModel::String(s) => Ok((CExprModel::Literal(CLiteralModel::String(s)), Seq::empty())),
        LiteralModel::Number(n) => Ok((CExprModel::Literal(CLiteralModel::Number(n)), Seq::empty())),
        LiteralModel::Boolean(b) => Ok(
            (
                CExprModel::Literal(CLiteralModel::Number(if b {
                    "1"@
                } else {
                    "0"@
                })),
                Seq::empty(),
            ),
        ),
        LiteralModel::Null => null_sentinel(expected),
    }
}

/// A literal lowered where no type is expected: its own type is used, and
/// `null` is ambiguous.
pub open spec fn lower_unknown(l: LiteralModel) -> Lowered<CExprModel> {
    match promote(expr_type_of(l)) {
        None => Err(ErrorModel::VariableTypeAmbiguous),
        Some(t) => lower_literal(l, t),
    }
}

/// Arguments lowered in order; the first error stops the lowering.
pub open spec fn lower_args(args: Seq<LiteralModel>) -> Lowered<Seq<CExprModel>>
    decreases args.len(),
{
    if args.len() == 0 {
        Ok((Seq::empty(), Seq::empty()))
    } else {
        match lower_args(args.drop_last()) {
            Err(e) => Err(e),
            Ok((es, p)) => match lower_unknown(args.last()) {
                Err(e) => Err(e),
                Ok((x, q)) => Ok((es.push(x), merge_includes(p, q))),
            },
        }
    }
}

/// A procedure call: through the back end when it names an interface,
/// otherwise a plain C call.
pub open spec fn lower_call(c: CallModel) -> Lowered<CCallModel> {
    if c.interface.len() > 0 {
        interface_call(c)
    } else {
        match lower_args(c.arguments) {
            Err(e) => Err(e),
            Ok((args, p)) => Ok(
                (
                    CCallModel { function_name: c.identifier, arguments: args },
                    merge_includes(Seq::empty(), p),
                ),
            ),
        }
    }
}

pub open spec fn lower_return(v: Option<LiteralModel>) -> Lowered<Option<CExprModel>> {
    match v {
        None => Ok((None, Seq::empty())),
        Some(l) => match lower_unknown(l) {
            Err(e) => Err(e),
            Ok((x, p)) => Ok((Some(x), p)),
        },
    }
}

/// A variable declaration: its type is decided, checked against the
/// initializer, and both are lowered. A `null` that the type does not admit
/// makes the type not nullable; any other rejected value is incompatible.
pub open spec fn lower_decl(d: DeclModel) -> Lowered<CDeclModel> {
    match variable_type(d.memory, d.schema_type, d.expression) {
        None => Err(ErrorModel::VariableTypeAmbiguous),
        Some(vt) => {
            let et = expr_type_of(d.expression);
            if !assignable(vt, et) {
                if et is Null {
                    Err(ErrorModel::TypeNotNullable(vt))
                } else {
                    Err(ErrorModel::IncompatibleTypes(vt, et))
                }
            } else {
                match lower_literal(d.expression, vt) {
                    Err(e) => Err(e),
                    Ok((x, p)) => match c_type_of(vt) {
                        (None, _) => Err(ErrorModel::CouldNotTranspileType),
                        (Some(ct), q) => Ok(
                            (
                                CDeclModel { name: d.identifier, var_type: ct, value: x },
                                merge_includes(merge_includes(Seq::empty(), p), q),
                            ),
                        ),
                    },
                }
            }
        },
    }
}

pub open spec fn lower_statement(s: StatementModel) -> Lowered<CStatementModel> {
    match s {
        StatementModel::ProcedureCall(c) => match lower_call(c) {
            Err(e) => Err(e),
            Ok((x, p)) => Ok((CStatementModel::FunctionCall(x), p)),
        },
        StatementModel::Return(v) => match lower_return(v) {
            Err(e) => Err(e),
            Ok((x, p)) => Ok((CStatementModel::Return(x), p)),
        },
        StatementModel::Variable(d) => match lower_decl(d) {
            Err(e) => Err(e),
            Ok((x, p)) => Ok((CStatementModel::Variable(x), p)),
        },
    }
}

/// Statements lowered in order; the first error stops the lowering.
pub open spec fn lower_block(ss: Seq<StatementModel>) -> Lowered<Seq<CStatementModel>>
    decreases ss.len(),
{
    if ss.len() == 0 {
        Ok((Seq::empty(), Seq::empty()))
    } else {
        match lower_block(ss.drop_last()) {
            Err(e) => Err(e),
            Ok((cs, p)) => match lower_statement(ss.last()) {
                Err(e) => Err(e),
                Ok((x, q)) => Ok((cs.push(x), merge_includes(p, q))),
            },
        }
    }
}

/// `return 0;`
pub open spec fn main_return() -> CStatementModel {
    CStatementModel::Return(Some(CExprModel::Literal(CLiteralModel::Number("0"@))))
}

/// A program becomes `int main()` whose block ends in `return 0;`.
pub open spec fn lower_program(ss: Seq<StatementModel>) -> Lowered<CFunctionModel> {
    match lower_block(ss) {
        Err(e) => Err(e),
        Ok((cs, p)) => Ok(
            (
                CFunctionModel {
                    name: "main"@,
                    return_type: CTypeModel { name: "int"@, is_pointer: false },
                    block: cs.push(main_return()),
                },
                merge_includes(Seq::empty(), p),
            ),
        ),
    }
}

/// The translation unit of a whole input. Only the first program is lowered.
pub open spec fn lower_src(programs: Seq<Seq<StatementModel>>) -> Result<CSrcModel, ErrorModel> {
    if programs.len() == 0 {
        Ok(CSrcModel { includes: Seq::empty(), functions: Seq::empty() })
    } else {
        match lower_program(programs[0]) {
            Err(e) => Err(e),
            Ok((f, p)) => Ok(
                CSrcModel { includes: merge_includes(Seq::empty(), p), functions: seq![f] },
            ),
        }
    }
}

// ---------------------------------------------------------------------------
// Laws
// ---------------------------------------------------------------------------

proof fn lemma_args_error_persists(args: Seq<LiteralModel>, i: int)
    requires
        0 <= i <= args.len(),
        lower_args(args.take(i)) is Err,
    ensures
        lower_args(args) == lower_args(args.take(i)),
    decreases args.len(),
{
    if i < args.len() {
        assert(args.drop_last().take(i) =~= args.take(i));
        lemma_args_error_persists(args.drop_last(), i);
    } else {
        assert(args.take(i) =~= args);
    }
}

proof fn lemma_block_error_persists(ss: Seq<StatementModel>, i: int)
    requires
        0 <= i <= ss.len(),
        lower_block(ss.take(i)) is Err,
    ensures
        lower_block(ss) == lower_block(ss.take(i)),
    decreases ss.len(),
{
    if i < ss.len() {
        assert(ss.drop_last().take(i) =~= ss.take(i));
        lemma_block_error_persists(ss.drop_last(), i);
    } else {
        assert(ss.take(i) =~= ss);
    }
}

/// A lowered program is a single `main` returning `int` whose last
/// statement is `return 0;`.
pub proof fn lemma_main_shape(programs: Seq<Seq<StatementModel>>)
    requires
        programs.len() > 0,
        lower_src(programs) is Ok,
    ensures
        lower_src(programs)->Ok_0.functions.len() == 1,
        lower_src(programs)->Ok_0.functions[0].name == "main"@,
        lower_src(programs)->Ok_0.functions[0].return_type == (CTypeModel {
            name: "int"@,
            is_pointer: false,
        }),
        lower_src(programs)->Ok_0.functions[0].block.last() == main_return(),
{
}

/// A translation unit never includes the same file twice, however many
/// parts of the lowering asked for it.
pub proof fn lemma_includes_distinct(programs: Seq<Seq<StatementModel>>)
    requires
        lower_src(programs) is Ok,
    ensures
        lower_src(programs)->Ok_0.includes.no_duplicates(),
{
    if programs.len() > 0 {
        let p = lower_program(programs[0])->Ok_0.1;
        lemma_merge_keeps_distinct(Seq::empty(), p);
    }
}

// ---------------------------------------------------------------------------
// Executable functions
// ---------------------------------------------------------------------------

/// Lowers the first program of `input` to a translation unit; an input with
/// no program gives an empty unit.
pub fn transpile(input: &Src, toolkit: &CToolKit) -> (r: Of<CSrc>)
    ensures
        match r {
            Of::Done(c) => lower_src(input@) == Ok::<CSrcModel, ErrorModel>(c@),
            Of::Error(e) => lower_src(input@) == Err::<CSrcModel, ErrorModel>(e@),
        },
{
    let mut src = CSrc { includes: Vec::new(), functions: Vec::new() };
    assert(src@.includes =~= Seq::<Seq<char>>::empty());
    if input.programs.len() > 0 {
        let program = &input.programs[0];
        match transpile_program(program, toolkit) {
            CTranspile::Error(err) => {
                return Of::Error(err);
            },
            CTranspile::Done(function, patch) => {
                src.functions.push(function);
                patch_src(&mut src, &patch);
            },
        }
        assert(src@.functions =~= seq![src.functions[0]@]);
    } else {
        assert(src@.functions =~= Seq::<CFunctionModel>::empty());
    }
    Of::Done(src)
}

fn transpile_program(input: &Program, toolkit: &CToolKit) -> (r: CTranspile<CFunction>)
    ensures
        r@ == lower_program(input@),
{
    let mut patch = CSrcPatch::default();
    let mut block = match transpile_block(&input.do_block, toolkit) {
        CTranspile::Error(err) => {
            return CTranspile::Error(err);
        },
        CTranspile::Done(block, in_patch) => {
            merge_patch(&mut patch, &in_patch);
            block
        },
    };
    let ret_stmt = Return { value: Some(Literal::Number(owned("0")).to_expression()) };
    proof {
        reveal_strlit("0");
    }
    match transpile_return(&ret_stmt, toolkit) {
        CTranspile::Error(err) => {
            return CTranspile::Error(err);
        },
        CTranspile::Done(ret, in_patch) => {
            merge_patch(&mut patch, &in_patch);
            let ghost before = block.statements@;
            block.statements.push(ret.to_statement());
            assert(c_statements_model(block.statements@) =~= c_statements_model(before).push(
                main_return(),
            ));
        },
    }
    let function = CFunction { name: owned("main"), return_type: int_type(), block: block };
    CTranspile::Done(function, patch)
}

fn transpile_block(input: &DoBlock, toolkit: &CToolKit) -> (r: CTranspile<CBlock>)
    ensures
        r@ == lower_block(input@),
{
    let mut statements: Vec<CStatement> = Vec::new();
    let mut patch = CSrcPatch::default();
    let mut i: usize = 0;
    assert(input@.take(0) =~= Seq::<StatementModel>::empty());
    assert(c_statements_model(statements@) =~= Seq::<CStatementModel>::empty());
    while i < input.statements.len()
        invariant
            i <= input.statements.len(),
            input@.len() == input.statements.len(),
            lower_block(input@.take(i as int)) == Ok::<
                (Seq<CStatementModel>, Seq<Seq<char>>),
                ErrorModel,
            >((c_statements_model(statements@), patch@)),
        decreases input.statements.len() - i,
    {
        let ghost prefix = input@.take(i + 1);
        assert(prefix.drop_last() =~= input@.take(i as int));
        assert(prefix.last() == input.statements[i as int]@);
        match transpile_statement(&input.statements[i], toolkit) {
            CTranspile::Error(err) => {
                proof {
                    lemma_block_error_persists(input@, i + 1);
                }
                return CTranspile::Error(err);
            },
            CTranspile::Done(statement, in_patch) => {
                merge_patch(&mut patch, &in_patch);
                let ghost before = statements@;
                statements.push(statement);
                assert(c_statements_model(statements@) =~= c_statements_model(before).push(
                    statement@,
                ));
            },
        }
        i += 1;
    }
    assert(input@.take(i as int) =~= input@);
    CTranspile::Done(CBlock { statements: statements }, patch)
}

fn transpile_statement(input: &Statement, toolkit: &CToolKit) -> (r: CTranspile<CStatement>)
    ensures
        r@ == lower_statement(input@),
{
    match input {
        Statement::ProcedureCall(procedure_call) => match transpile_procedure_call(
            procedure_call,
            toolkit,
        ) {
            CTranspile::Error(err) => CTranspile::Error(err),
            CTranspile::Done(function_call, in_patch) => CTranspile::Done(
                function_call.to_statement(),
                in_patch,
            ),
        },
        Statement::Return(ret) => match transpile_return(ret, toolkit) {
            CTranspile::Error(err) => CTranspile::Error(err),
            CTranspile::Done(ret, patch) => CTranspile::Done(ret.to_statement(), patch),
        },
        Statement::Variable(variable_declaration) => match transpile_variable_declaration(
            variable_declaration,
            toolkit,
        ) {
            CTranspile::Error(err) => CTranspile::Error(err),
            CTranspile::Done(var, patch) => CTranspile::Done(var.to_statement(), patch),
        },
    }
}

fn transpile_variable_declaration(input: &VariableDeclaration, toolkit: &CToolKit) -> (r:
    CTranspile<CVariableDeclaration>)
    ensures
        r@ == lower_decl(input@),
{
    let variable_type = match determine_variable_type(
        input.memory,
        clone_opt_schema(&input.schema_type),
        &input.expression,
    ) {
        Some(t) => t,
        None => {
            return CTranspile::Error(
                CompilationError::VariableTypeAmbiguous(VariableTypeAmbiguous {  }),
            );
        },
    };
    let expression_type = match type_of_expression(&input.expression) {
        Some(t) => t,
        None => {
            return CTranspile::Error(
                CompilationError::VariableTypeAmbiguous(VariableTypeAmbiguous {  }),
            );
        },
    };
    if !is_valid_expression_assignment(&variable_type, &expression_type) {
        return match expression_type {
            ExpressionType::Null => CTranspile::Error(
                CompilationError::TypeNotNullable(TypeNotNullable { received_type: variable_type }),
            ),
            _ => CTranspile::Error(
                CompilationError::IncompatibleTypes(
                    IncompatibleTypes { expected: variable_type, actual: expression_type },
                ),
            ),
        };
    }
    let mut patch = CSrcPatch::default();
    let expression = match transpile_expression(&input.expression, &variable_type, toolkit) {
        CTranspile::Done(expr, in_patch) => {
            merge_patch(&mut patch, &in_patch);
            expr
        },
        CTranspile::Error(err) => {
            return CTranspile::Error(err);
        },
    };
    let var_type = match toolkit.transpile_type(&variable_type) {
        CTranspile::Done(typ, in_patch) => match typ {
            Some(t) => {
                merge_patch(&mut patch, &in_patch);
                t
            },
            None => {
                return CTranspile::Error(
                    CompilationError::CouldNotTranspileType(CouldNotTranspileType {  }),
                );
            },
        },
        CTranspile::Error(err) => {
            return CTranspile::Error(err);
        },
    };
    let var = CVariableDeclaration {
        name: input.identifier.clone(),
        var_type: var_type,
        value: expression,
    };
    CTranspile::Done(var, patch)
}

fn transpile_return(input: &Return, toolkit: &CToolKit) -> (r: CTranspile<CReturn>)
    ensures
        r@ == lower_return(input@),
{
    match &input.value {
        Some(value) => match transpile_expression_unknown_type(value, toolkit) {
            CTranspile::Done(expr, in_patch) => CTranspile::Done(
                CReturn { value: Some(expr) },
                in_patch,
            ),
            CTranspile::Error(e) => CTranspile::Error(e),
        },
        None => CTranspile::Done(CReturn { value: None }, CSrcPatch::default()),
    }
}

fn transpile_procedure_call(input: &ProcedureCall, toolkit: &CToolKit) -> (r: CTranspile<
    CFunctionCall,
>)
    ensures
        r@ == lower_call(input@),
{
    if input.interface.as_str().unicode_len() > 0 {
        return toolkit.transpile_interface_call(input);
    }
    let mut patch = CSrcPatch::default();
    let expressions = match transpile_expressions(&input.arguments, toolkit) {
        CTranspile::Done(exprs, in_patch) => {
            merge_patch(&mut patch, &in_patch);
            exprs
        },
        CTranspile::Error(e) => {
            return CTranspile::Error(e);
        },
    };
    let function_call = CFunctionCall {
        function_name: input.identifier.clone(),
        arguments: expressions,
    };
    CTranspile::Done(function_call, patch)
}

/// Lowers call arguments in order, each by its own type.
pub fn transpile_expressions(input: &Vec<Expression>, toolkit: &CToolKit) -> (r: CTranspile<
    Vec<CExpression>,
>)
    ensures
        match r {
            CTranspile::Done(es, p) => lower_args(expressions_model(input@)) == Ok::<
                (Seq<CExprModel>, Seq<Seq<char>>),
                ErrorModel,
            >((c_expressions_model(es@), p@)),
            CTranspile::Error(e) => lower_args(expressions_model(input@)) == Err::<
                (Seq<CExprModel>, Seq<Seq<char>>),
                ErrorModel,
            >(e@),
        },
{
    let ghost args = expressions_model(input@);
    let mut patch = CSrcPatch::default();
    let mut expressions: Vec<CExpression> = Vec::new();
    let mut i: usize = 0;
    assert(args.take(0) =~= Seq::<LiteralModel>::empty());
    assert(c_expressions_model(expressions@) =~= Seq::<CExprModel>::empty());
    while i < input.len()
        invariant
            i <= input.len(),
            args == expressions_model(input@),
            args.len() == input.len(),
            lower_args(args.take(i as int)) == Ok::<(Seq<CExprModel>, Seq<Seq<char>>), ErrorModel>(
                (c_expressions_model(expressions@), patch@),
            ),
        decreases input.len() - i,
    {
        let ghost prefix = args.take(i + 1);
        assert(prefix.drop_last() =~= args.take(i as int));
        assert(prefix.last() == input[i as int]@);
        match transpile_expression_unknown_type(&input[i], toolkit) {
            CTranspile::Done(expr, in_patch) => {
                merge_patch(&mut patch, &in_patch);
                let ghost before = expressions@;
                expressions.push(expr);
                assert(c_expressions_model(expressions@) =~= c_expressions_model(before).push(
                    expr@,
                ));
            },
            CTranspile::Error(e) => {
                proof {
                    lemma_args_error_persists(args, i + 1);
                }
                return CTranspile::Error(e);
            },
        }
        i += 1;
    }
    assert(args.take(i as int) =~= args);
    CTranspile::Done(expressions, patch)
}

fn transpile_expression_unknown_type(input: &Expression, toolkit: &CToolKit) -> (r: CTranspile<
    CExpression,
>)
    ensures
        r@ == lower_unknown(input@),
{
    let typ = match type_of_expression(input) {
        Some(t) => match t.to_type() {
            Some(t) => t,
            None => {
                return CTranspile::Error(
                    CompilationError::VariableTypeAmbiguous(VariableTypeAmbiguous {  }),
                );
            },
        },
        None => {
            return CTranspile::Error(
                CompilationError::VariableTypeAmbiguous(VariableTypeAmbiguous {  }),
            );
        },
    };
    match input {
        Expression::Literal(literal) => transpile_literal(literal, &typ, toolkit),
    }
}

fn transpile_expression(input: &Expression, typ: &Type, toolkit: &CToolKit) -> (r: CTranspile<
    CExpression,
>)
    ensures
        r@ == lower_literal(input@, typ@),
{
    match input {
        Expression::Literal(literal) => transpile_literal(literal, typ, toolkit),
    }
}

fn transpile_literal(input: &Literal, typ: &Type, toolkit: &CToolKit) -> (r: CTranspile<
    CExpression,
>)
    ensures
        r@ == lower_literal(input@, typ@),
{
    match input {
        Literal::String(s) => CTranspile::Done(
            CLiteral::String(s.clone()).to_expression(),
            CSrcPatch::default(),
        ),
        Literal::Number(num) => CTranspile::Done(
            CLiteral::Number(num.clone()).to_expression(),
            CSrcPatch::default(),
        ),
        Literal::Boolean(value) => {
            if *value {
                CTranspile::Done(true_literal().to_expression(), CSrcPatch::default())
            } else {
                CTranspile::Done(false_literal().to_expression(), CSrcPatch::default())
            }
        },
        Literal::Null => toolkit.transpile_null(typ),
    }
}

fn true_literal() -> (r: CLiteral)
    ensures
        r@ == CLiteralModel::Number("1"@),
{
    CLiteral::Number(owned("1"))
}

fn false_literal() -> (r: CLiteral)
    ensures
        r@ == CLiteralModel::Number("0"@),
{
    CLiteral::Number(owned("0"))
}

} // verus!
