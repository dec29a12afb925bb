//! C source text of a translation unit.
use vstd::prelude::*;

use crate::c::{
    CBlock, CExprModel, CExpression, CFunction, CFunctionCall, CFunctionModel, CInclude,
    CLiteral, CLiteralModel, CReturn, CSrc, CSrcModel, CStatement, CStatementModel,
    CVariableDeclaration, CDeclModel, CCallModel,
};
use crate::text::owned;

verus! {

// ---------------------------------------------------------------------------
// Specification
// ---------------------------------------------------------------------------

/// The preprocessor line for `file`, with its newline.
pub open spec fn header_text(file: Seq<char>) -> Seq<char> {
    "#include <"@ + file + ">\n"@
}

pub open spec fn expr_text(e: CExprModel) -> Seq<char> {
    match e {
        CExprModel::Literal(CLiteralModel::Number(v)) => v,
        CExprModel::Literal(CLiteralModel::String(v)) => "\""@ + v + "\""@,
        CExprModel::Variable(n) => n,
    }
}

/// Arguments separated by commas.
pub open spec fn args_text(args: Seq<CExprModel>) -> Seq<char>
    decreases args.len(),
{
    if args.len() == 0 {
        Seq::empty()
    } else if args.len() == 1 {
        expr_text(args[0])
    } else {
        args_text(args.drop_last()) + ","@ + expr_text(args.last())
    }
}

pub open spec fn call_text(c: CCallModel) -> Seq<char> {
    c.function_name + "("@ + args_text(c.arguments) + ")"@
}

pub open spec fn return_text(v: Option<CExprModel>) -> Seq<char> {
    match v {
        Some(e) => "return "@ + expr_text(e),
        None => "return"@,
    }
}

/// `type name = value`, with a `*` before the name for a pointer.
pub open spec fn declaration_text(d: CDeclModel) -> Seq<char> {
    d.var_type.name + " "@ + (if d.var_type.is_pointer {
        "*"@
    } else {
        Seq::empty()
    }) + d.name + " = "@ + expr_text(d.value)
}

/// A statement on a line of its own, ended by `;`.
pub open spec fn statement_text(s: CStatementModel) -> Seq<char> {
    let body = match s {
        CStatementModel::FunctionCall(c) => call_text(c),
        CStatementModel::Return(v) => return_text(v),
        CStatementModel::Variable(d) => declaration_text(d),
    };
    body + ";\n"@
}

pub open spec fn statements_text(ss: Seq<CStatementModel>) -> Seq<char>
    decreases ss.len(),
{
    if ss.len() == 0 {
        Seq::empty()
    } else {
        statements_text(ss.drop_last()) + statement_text(ss.last())
    }
}

pub open spec fn function_text(f: CFunctionModel) -> Seq<char> {
    f.return_type.name + " "@ + f.name + "()\n"@ + "{\n"@ + statements_text(f.block) + "}\n"@
}

pub open spec fn functions_text(fs: Seq<CFunctionModel>) -> Seq<char>
    decreases fs.len(),
{
    if fs.len() == 0 {
        Seq::empty()
    } else {
        functions_text(fs.drop_last()) + function_text(fs.last())
    }
}

pub open spec fn headers_text(files: Seq<Seq<char>>) -> Seq<char>
    decreases files.len(),
{
    if files.len() == 0 {
        Seq::empty()
    } else {
        headers_text(files.drop_last()) + header_text(files.last())
    }
}

/// The whole unit: its includes, then its functions.
pub open spec fn src_text(src: CSrcModel) -> Seq<char> {
    headers_text(src.includes) + functions_text(src.functions)
}

// ---------------------------------------------------------------------------
// Executable functions
// ---------------------------------------------------------------------------

/// The C source text of `src`.
pub fn render(src: &CSrc) -> (r: String)
    ensures
        r@ == src_text(src@),
{
    let mut output = String::new();
    let ghost files = src@.includes;
    let mut i: usize = 0;
    while i < src.includes.len()
        invariant
            i <= src.includes.len(),
            files == src@.includes,
            files.len() == src.includes.len(),
            output@ == headers_text(files.take(i as int)),
        decreases src.includes.len() - i,
    {
        assert(files.take(i + 1).drop_last() =~= files.take(i as int));
        output.append(render_include(&src.includes[i]).as_str());
        i += 1;
    }
    assert(files.take(i as int) =~= files);
    let ghost fs = src@.functions;
    let ghost head = output@;
    let mut j: usize = 0;
    assert(fs.take(0) =~= Seq::<CFunctionModel>::empty());
    assert(output@ =~= head + functions_text(fs.take(0)));
    while j < src.functions.len()
        invariant
            j <= src.functions.len(),
            fs == src@.functions,
            fs.len() == src.functions.len(),
            output@ == head + functions_text(fs.take(j as int)),
        decreases src.functions.len() - j,
    {
        assert(fs.take(j + 1).drop_last() =~= fs.take(j as int));
        output.append(render_function(&src.functions[j]).as_str());
        assert(output@ =~= head + functions_text(fs.take(j + 1)));
        j += 1;
    }
    assert(fs.take(j as int) =~= fs);
    output
}

/// The preprocessor line for one include.
pub fn render_include(entry: &CInclude) -> (r: String)
    ensures
        r@ == header_text(entry@),
{
    let mut output = owned("#include <");
    output.append(entry.file.as_str());
    output.append(">\n");
    output
}

fn render_function(function: &CFunction) -> (r: String)
    ensures
        r@ == function_text(function@),
{
    let mut output = function.return_type.name.clone();
    output.append(" ");
    output.append(function.name.as_str());
    output.append("()\n");
    output.append(render_block(&function.block).as_str());
    output
}

fn render_block(block: &CBlock) -> (r: String)
    ensures
        r@ == "{\n"@ + statements_text(block@) + "}\n"@,
{
    let mut output = owned("{\n");
    let ghost ss = block@;
    let mut i: usize = 0;
    assert(ss.take(0) =~= Seq::<CStatementModel>::empty());
    assert(output@ =~= "{\n"@ + statements_text(ss.take(0)));
    while i < block.statements.len()
        invariant
            i <= block.statements.len(),
            ss == block@,
            ss.len() == block.statements.len(),
            output@ == "{\n"@ + statements_text(ss.take(i as int)),
        decreases block.statements.len() - i,
    {
        assert(ss.take(i + 1).drop_last() =~= ss.take(i as int));
        output.append(render_statement(&block.statements[i]).as_str());
        assert(output@ =~= "{\n"@ + statements_text(ss.take(i + 1)));
        i += 1;
    }
    assert(ss.take(i as int) =~= ss);
    output.append("}\n");
    output
}

fn render_statement(statement: &CStatement) -> (r: String)
    ensures
        r@ == statement_text(statement@),
{
    let mut output = match statement {
        CStatement::FunctionCall(function_call) => render_function_call(function_call),
        CStatement::Return(ret) => render_return(ret),
        CStatement::Variable(dec) => render_variable_declaration(dec),
    };
    output.append(";\n");
    output
}

fn render_variable_declaration(vardec: &CVariableDeclaration) -> (r: String)
    ensures
        r@ == declaration_text(vardec@),
{
    let mut output = vardec.var_type.name.clone();
    output.append(" ");
    if vardec.var_type.is_pointer {
        output.append("*");
    }
    output.append(vardec.name.as_str());
    output.append(" = ");
    output.append(render_expression(&vardec.value).as_str());
    proof {
        reveal_strlit("*");
    }
    assert(output@ =~= declaration_text(vardec@));
    output
}

fn render_return(ret: &CReturn) -> (r: String)
    ensures
        r@ == return_text(ret@),
{
    match &ret.value {
        Some(expr) => {
            let mut output = owned("return ");
            output.append(render_expression(expr).as_str());
            output
        },
        None => owned("return"),
    }
}

fn render_function_call(function_call: &CFunctionCall) -> (r: String)
    ensures
        r@ == call_text(function_call@),
{
    let mut output = function_call.function_name.clone();
    output.append("(");
    let ghost head = output@;
    let ghost args = function_call@.arguments;
    let n = function_call.arguments.len();
    let mut i: usize = 0;
    assert(args.take(0) =~= Seq::<CExprModel>::empty());
    assert(output@ =~= head + args_text(args.take(0)));
    while i < n
        invariant
            n == function_call.arguments.len(),
            i <= n,
            args == function_call@.arguments,
            args.len() == n,
            output@ == head + args_text(args.take(i as int)),
        decreases n - i,
    {
        assert(args.take(i + 1).drop_last() =~= args.take(i as int));
        if i > 0 {
            output.append(",");
        }
        output.append(render_expression(&function_call.arguments[i]).as_str());
        assert(output@ =~= head + args_text(args.take(i + 1)));
        i += 1;
    }
    assert(args.take(i as int) =~= args);
    output.append(")");
    output
}

fn render_expression(argument: &CExpression) -> (r: String)
    ensures
        r@ == expr_text(argument@),
{
    match argument {
        CExpression::Literal(literal) => render_literal(literal),
        CExpression::Variable(name) => name.clone(),
    }
}

fn render_literal(literal: &CLiteral) -> (r: String)
    ensures
        r@ == expr_text(CExprModel::Literal(literal@)),
{
    match literal {
        CLiteral::Number(value) => value.clone(),
        CLiteral::String(value) => {
            let mut output = owned("\"");
            output.append(value.as_str());
            output.append("\"");
            output
        },
    }
}

} // verus!
