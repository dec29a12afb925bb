use palelc::c::{
    CBlock, CExpression, CFunction, CFunctionCall, CInclude, CLiteral, CReturn, CSrc, CType,
    CVariableDeclaration,
};
use palelc::compilation_error::{CompilationError, Of};
use palelc::palel::{
    DoBlock, Expression, ExpressionType, Literal, MemoryModifier, ProcedureCall, Program, Return,
    SchemaIdentifier, SchemaType, Src, Statement, Type, TypeFamily, TypePostfix,
    VariableDeclaration,
};
use palelc::toolkit_c::CToolKit;
use palelc::transpiler_c::{transpile, transpile_expressions, CTranspile};

const TOOLKIT: CToolKit = CToolKit {};

fn run(input: &Src) -> CSrc {
    match transpile(&input, &TOOLKIT) {
        Of::Done(value) => value,
        Of::Error(err) => {
            panic!("{}", err.message())
        }
    }
}

fn fail(input: &Src) -> CompilationError {
    match transpile(&input, &TOOLKIT) {
        Of::Done(value) => panic!("expected an error, got {:?}", value),
        Of::Error(err) => err,
    }
}

fn program(statements: Vec<Statement>) -> Src {
    Src { programs: vec![Program { do_block: DoBlock { statements: statements } }] }
}

fn schema(identifier: SchemaIdentifier, postfix: TypePostfix) -> SchemaType {
    let (family, width) = match identifier {
        SchemaIdentifier::Int32 => (TypeFamily::Int, Some(32)),
        SchemaIdentifier::Int64 => (TypeFamily::Int, Some(64)),
        SchemaIdentifier::Float32 => (TypeFamily::Float, Some(32)),
        SchemaIdentifier::Float64 => (TypeFamily::Float, Some(64)),
        _ => (TypeFamily::Other, None),
    };
    SchemaType { identifier: identifier, postfix: postfix, family: family, width: width }
}

fn declare(memory: MemoryModifier, name: &str, ty: Option<SchemaType>, value: Literal) -> Statement {
    VariableDeclaration {
        memory: memory,
        identifier: name.to_string(),
        schema_type: ty,
        expression: value.to_expression(),
    }
    .to_statement()
}

fn number(text: &str) -> Literal {
    Literal::Number(text.to_string())
}

fn c_type(name: &str, is_pointer: bool) -> CType {
    CType { name: name.to_string(), is_pointer: is_pointer }
}

fn c_var(name: &str, ty: CType, value: CExpression) -> palelc::c::CStatement {
    CVariableDeclaration { name: name.to_string(), var_type: ty, value: value }.to_statement()
}

fn c_number(text: &str) -> CExpression {
    CLiteral::Number(text.to_string()).to_expression()
}

fn return_zero() -> palelc::c::CStatement {
    CReturn { value: Some(c_number("0")) }.to_statement()
}

fn main_function(statements: Vec<palelc::c::CStatement>) -> CFunction {
    CFunction { name: "main".to_string(), return_type: c_type("int", false), block: CBlock { statements: statements } }
}

fn includes(files: &[&str]) -> Vec<CInclude> {
    files.iter().map(|f| CInclude { file: f.to_string() }).collect()
}

#[test]
fn test_transpile_hello_world() {
    let src = program(vec![ProcedureCall {
        interface: "debug".to_string(),
        identifier: "printf".to_string(),
        arguments: vec![Literal::String("Hello World".to_string()).to_expression()],
    }
    .to_statement()]);

    let actual = run(&src);
    let expected = CSrc {
        includes: vec![CInclude { file: "stdio.h".to_string() }],
        functions: vec![CFunction {
            name: "main".to_string(),
            return_type: CType { name: "int".to_string(), is_pointer: false },
            block: CBlock {
                statements: vec![
                    CFunctionCall {
                        function_name: "printf".to_string(),
                        arguments: vec![CLiteral::String("Hello World".to_string()).to_expression()],
                    }
                    .to_statement(),
                    CReturn { value: Some(CLiteral::Number("0".to_string()).to_expression()) }
                        .to_statement(),
                ],
            },
        }],
    };
    assert_eq!(actual, expected)
}

#[test]
fn test_transpile_variable_delcarations() {
    let src = program(vec![
        declare(MemoryModifier::Dim, "a", None, number("1")),
        declare(MemoryModifier::Ref, "b", None, number("2")),
        declare(MemoryModifier::Var, "c", None, number("3")),
        declare(MemoryModifier::Addr, "d", None, number("4")),
        declare(MemoryModifier::Dim, "e", Some(schema(SchemaIdentifier::Int32, TypePostfix::Plain)), number("-5")),
        declare(MemoryModifier::Dim, "f", Some(schema(SchemaIdentifier::Float64, TypePostfix::Plain)), number("6.2")),
        declare(MemoryModifier::Dim, "g", Some(schema(SchemaIdentifier::Bool, TypePostfix::Plain)), Literal::Boolean(true)),
        declare(MemoryModifier::Dim, "h", None, number("3.14")),
        declare(MemoryModifier::Dim, "my_z_var", Some(schema(SchemaIdentifier::Int64, TypePostfix::Plain)), number("0")),
        declare(MemoryModifier::Dim, "maybe_num", Some(schema(SchemaIdentifier::Int32, TypePostfix::Opt)), Literal::Null),
    ]);
    let actual = run(&src);
    let expected = CSrc {
        includes: includes(&["stdint.h"]),
        functions: vec![main_function(vec![
            c_var("a", c_type("int32_t", false), c_number("1")),
            c_var("b", c_type("int32_t", true), c_number("2")),
            c_var("c", c_type("int32_t", false), c_number("3")),
            c_var("d", c_type("void", true), c_number("4")),
            c_var("e", c_type("int32_t", false), c_number("-5")),
            c_var("f", c_type("double", false), c_number("6.2")),
            c_var("g", c_type("int", false), c_number("1")),
            c_var("h", c_type("double", false), c_number("3.14")),
            c_var("my_z_var", c_type("int64_t", false), c_number("0")),
            c_var("maybe_num", c_type("int32_t", false), CExpression::Variable("INT32_MIN".to_string())),
            return_zero(),
        ])],
    };
    assert_eq!(actual, expected)
}

#[test]
fn empty_program() {
    let actual = run(&program(vec![]));
    assert_eq!(actual, CSrc { includes: vec![], functions: vec![main_function(vec![return_zero()])] });
}

#[test]
fn no_program_gives_empty_unit() {
    let actual = run(&Src { programs: vec![] });
    assert_eq!(actual, CSrc { includes: vec![], functions: vec![] });
}

#[test]
fn only_first_program_is_lowered() {
    let second = Program {
        do_block: DoBlock { statements: vec![declare(MemoryModifier::Dim, "x", None, number("1"))] },
    };
    let mut src = program(vec![]);
    src.programs.push(second);
    let actual = run(&src);
    assert_eq!(actual.functions, vec![main_function(vec![return_zero()])]);
}

#[test]
fn unknown_interface() {
    let src = program(vec![ProcedureCall {
        interface: "net".to_string(),
        identifier: "send".to_string(),
        arguments: vec![Literal::String("x".to_string()).to_expression()],
    }
    .to_statement()]);
    let err = fail(&src);
    assert_eq!(
        err,
        CompilationError::UnknownInterface(palelc::compilation_error::UnknownInterface {
            interface: "net".to_string()
        })
    );
    assert_eq!(err.exit_code(), 20);
    assert_eq!(err.message(), "could not find interface 'net'");
}

#[test]
fn memory_modifier_lowering() {
    let src = program(vec![
        declare(MemoryModifier::Dim, "a", None, number("1")),
        declare(MemoryModifier::Ref, "b", None, number("2")),
        declare(MemoryModifier::Addr, "d", None, number("4")),
        declare(MemoryModifier::Dim, "e", Some(schema(SchemaIdentifier::Int32, TypePostfix::Plain)), number("-5")),
        declare(MemoryModifier::Dim, "f", Some(schema(SchemaIdentifier::Float64, TypePostfix::Plain)), number("6.2")),
        declare(MemoryModifier::Dim, "g", Some(schema(SchemaIdentifier::Bool, TypePostfix::Plain)), Literal::Boolean(true)),
        declare(MemoryModifier::Dim, "my_z", Some(schema(SchemaIdentifier::Int64, TypePostfix::Plain)), number("0")),
        declare(MemoryModifier::Dim, "maybe_num", Some(schema(SchemaIdentifier::Int32, TypePostfix::Opt)), Literal::Null),
    ]);
    let actual = run(&src);
    assert_eq!(actual.includes, includes(&["stdint.h"]));
    assert_eq!(
        actual.functions,
        vec![main_function(vec![
            c_var("a", c_type("int32_t", false), c_number("1")),
            c_var("b", c_type("int32_t", true), c_number("2")),
            c_var("d", c_type("void", true), c_number("4")),
            c_var("e", c_type("int32_t", false), c_number("-5")),
            c_var("f", c_type("double", false), c_number("6.2")),
            c_var("g", c_type("int", false), c_number("1")),
            c_var("my_z", c_type("int64_t", false), c_number("0")),
            c_var("maybe_num", c_type("int32_t", false), CExpression::Variable("INT32_MIN".to_string())),
            return_zero(),
        ])]
    );
}

#[test]
fn type_mismatch() {
    let src = program(vec![declare(
        MemoryModifier::Dim,
        "x",
        Some(schema(SchemaIdentifier::Int32, TypePostfix::Plain)),
        number("6.2"),
    )]);
    let err = fail(&src);
    assert_eq!(
        err,
        CompilationError::IncompatibleTypes(palelc::compilation_error::IncompatibleTypes {
            expected: Type::Dim(schema(SchemaIdentifier::Int32, TypePostfix::Plain)),
            actual: ExpressionType::Dim(schema(SchemaIdentifier::Float64, TypePostfix::Plain)),
        })
    );
    assert_eq!(err.exit_code(), 5);
    assert_eq!(err.message(), "incompatible types, expected dim Int32, received dim Float64");
}

#[test]
fn null_into_plain_schema_is_rejected() {
    let src = program(vec![declare(
        MemoryModifier::Dim,
        "x",
        Some(schema(SchemaIdentifier::Int32, TypePostfix::Plain)),
        Literal::Null,
    )]);
    let err = fail(&src);
    assert_eq!(
        err,
        CompilationError::TypeNotNullable(palelc::compilation_error::TypeNotNullable {
            received_type: Type::Dim(schema(SchemaIdentifier::Int32, TypePostfix::Plain)),
        })
    );
    assert_eq!(err.exit_code(), 20);
    assert_eq!(err.message(), "type dim Int32 is not nullable");
}

#[test]
fn non_nullable_null() {
    let received = Type::Dim(schema(SchemaIdentifier::Float32, TypePostfix::Plain));
    match TOOLKIT.transpile_null(&received) {
        CTranspile::Done(e, _) => panic!("expected an error, got {:?}", e),
        CTranspile::Error(err) => {
            assert_eq!(
                err,
                CompilationError::TypeNotNullable(palelc::compilation_error::TypeNotNullable {
                    received_type: Type::Dim(schema(SchemaIdentifier::Float32, TypePostfix::Plain)),
                })
            );
            assert_eq!(err.exit_code(), 20);
            assert_eq!(err.message(), "type dim Float32 is not nullable");
        }
    }
}

#[test]
fn optional_schema_without_sentinel() {
    let src = program(vec![declare(
        MemoryModifier::Dim,
        "x",
        Some(schema(SchemaIdentifier::Float32, TypePostfix::Opt)),
        Literal::Null,
    )]);
    let err = fail(&src);
    assert_eq!(
        err,
        CompilationError::TypeNotNullable(palelc::compilation_error::TypeNotNullable {
            received_type: Type::Dim(schema(SchemaIdentifier::Float32, TypePostfix::Opt)),
        })
    );
    assert_eq!(err.exit_code(), 20);
}

#[test]
fn null_sentinels() {
    let cases = vec![
        (Type::Dim(schema(SchemaIdentifier::Int64, TypePostfix::Opt)), CExpression::Variable("INT64_MIN".to_string()), includes(&["stdint.h"])),
        (Type::Dim(schema(SchemaIdentifier::Float64, TypePostfix::Opt)), CExpression::Variable("-DBL_MAX".to_string()), includes(&["float.h"])),
        (Type::Ref(schema(SchemaIdentifier::Bool, TypePostfix::Opt)), c_number("0"), vec![]),
        (Type::Addr(None), c_number("0"), vec![]),
    ];
    for (ty, value, files) in cases {
        match TOOLKIT.transpile_null(&ty) {
            CTranspile::Done(e, p) => {
                assert_eq!(e, value);
                assert_eq!(p.includes, files);
            }
            CTranspile::Error(err) => panic!("{}", err.message()),
        }
    }
}

#[test]
fn type_mapping() {
    let map = |t: Type| match TOOLKIT.transpile_type(&t) {
        CTranspile::Done(ty, p) => (ty, p.includes),
        CTranspile::Error(err) => panic!("{}", err.message()),
    };
    assert_eq!(map(Type::Dim(schema(SchemaIdentifier::Int64, TypePostfix::Plain))), (Some(c_type("int64_t", false)), includes(&["stdint.h"])));
    assert_eq!(map(Type::Dim(schema(SchemaIdentifier::Float32, TypePostfix::Plain))), (Some(c_type("float", false)), vec![]));
    assert_eq!(map(Type::Ref(schema(SchemaIdentifier::Float64, TypePostfix::Plain))), (Some(c_type("double", true)), vec![]));
    assert_eq!(map(Type::Addr(Some(schema(SchemaIdentifier::Int32, TypePostfix::Plain)))), (Some(c_type("void", true)), vec![]));
    let user = SchemaType {
        identifier: SchemaIdentifier::UserDefined("Point".to_string()),
        postfix: TypePostfix::Plain,
        family: TypeFamily::Other,
        width: None,
    };
    assert_eq!(map(Type::Dim(user)), (None, vec![]));
}

#[test]
fn user_type_cannot_be_lowered() {
    let user = SchemaType {
        identifier: SchemaIdentifier::UserDefined("Point".to_string()),
        postfix: TypePostfix::Opt,
        family: TypeFamily::Other,
        width: None,
    };
    let src = program(vec![declare(MemoryModifier::Addr, "p", Some(user), Literal::Null)]);
    let actual = run(&src);
    assert_eq!(actual.functions[0].block.statements[0], c_var("p", c_type("void", true), c_number("0")));

    let user = SchemaType {
        identifier: SchemaIdentifier::UserDefined("Point".to_string()),
        postfix: TypePostfix::Opt,
        family: TypeFamily::Other,
        width: None,
    };
    let err = fail(&program(vec![declare(MemoryModifier::Dim, "p", Some(user), Literal::Null)]));
    match err {
        CompilationError::TypeNotNullable(_) => {}
        other => panic!("unexpected {:?}", other),
    }
    let user = SchemaType {
        identifier: SchemaIdentifier::UserDefined("Point".to_string()),
        postfix: TypePostfix::Plain,
        family: TypeFamily::Other,
        width: None,
    };
    let err = fail(&program(vec![declare(MemoryModifier::Ref, "p", Some(user), Literal::Null)]));
    assert_eq!(err.message(), "type ref Point is not nullable");
    assert_eq!(err.exit_code(), 20);
    let err = fail(&program(vec![declare(MemoryModifier::Dim, "n", Some(schema(SchemaIdentifier::Int32, TypePostfix::Plain)), Literal::Boolean(true))]));
    assert_eq!(err.message(), "incompatible types, expected dim Int32, received dim Bool");
    assert_eq!(err.exit_code(), 5);
}

#[test]
fn string_declaration_has_no_c_type() {
    let err = fail(&program(vec![declare(MemoryModifier::Dim, "s", None, Literal::String("hi".to_string()))]));
    assert_eq!(err, CompilationError::CouldNotTranspileType(palelc::compilation_error::CouldNotTranspileType {}));
    assert_eq!(err.exit_code(), 20);
}

#[test]
fn ambiguous_declarations() {
    for memory in [MemoryModifier::Dim, MemoryModifier::Var, MemoryModifier::Ref] {
        let err = fail(&program(vec![declare(memory, "x", None, Literal::Null)]));
        assert_eq!(err, CompilationError::VariableTypeAmbiguous(palelc::compilation_error::VariableTypeAmbiguous {}));
        assert_eq!(err.exit_code(), 4);
    }
}

#[test]
fn null_argument_is_ambiguous() {
    let args: Vec<Expression> = vec![number("1").to_expression(), Literal::Null.to_expression()];
    match transpile_expressions(&args, &TOOLKIT) {
        CTranspile::Done(e, _) => panic!("expected an error, got {:?}", e),
        CTranspile::Error(err) => assert_eq!(err.message(), "could not determine type of variable"),
    }
}

#[test]
fn plain_call_and_returns() {
    let src = program(vec![
        ProcedureCall {
            interface: "".to_string(),
            identifier: "tick".to_string(),
            arguments: vec![Literal::Boolean(false).to_expression(), number("2.5").to_expression()],
        }
        .to_statement(),
        Return { value: None }.to_statement(),
        Return { value: Some(Literal::Boolean(true).to_expression()) }.to_statement(),
    ]);
    let actual = run(&src);
    assert_eq!(actual.includes, vec![]);
    assert_eq!(
        actual.functions[0].block.statements,
        vec![
            CFunctionCall { function_name: "tick".to_string(), arguments: vec![c_number("0"), c_number("2.5")] }.to_statement(),
            CReturn { value: None }.to_statement(),
            CReturn { value: Some(c_number("1")) }.to_statement(),
            return_zero(),
        ]
    );
}

#[test]
fn first_error_in_source_order() {
    let src = program(vec![
        ProcedureCall { interface: "net".to_string(), identifier: "a".to_string(), arguments: vec![] }.to_statement(),
        declare(MemoryModifier::Dim, "x", None, Literal::Null),
    ]);
    assert_eq!(fail(&src).exit_code(), 20);
}

#[test]
fn includes_are_not_repeated() {
    let call = || {
        ProcedureCall {
            interface: "debug".to_string(),
            identifier: "printf".to_string(),
            arguments: vec![Literal::String("x".to_string()).to_expression()],
        }
        .to_statement()
    };
    let src = program(vec![
        call(),
        declare(MemoryModifier::Dim, "a", Some(schema(SchemaIdentifier::Int32, TypePostfix::Plain)), number("1")),
        call(),
        declare(MemoryModifier::Dim, "b", Some(schema(SchemaIdentifier::Int64, TypePostfix::Opt)), Literal::Null),
        declare(MemoryModifier::Dim, "c", Some(schema(SchemaIdentifier::Float64, TypePostfix::Opt)), Literal::Null),
        call(),
    ]);
    let actual = run(&src);
    assert_eq!(actual.includes, includes(&["stdio.h", "stdint.h", "float.h"]));
    let last = actual.functions[0].block.statements.last().unwrap();
    assert_eq!(*last, return_zero());
    assert_eq!(actual.functions[0].name, "main");
}

#[test]
fn null_into_typed_address_is_not_nullable() {
    let src = program(vec![declare(
        MemoryModifier::Addr,
        "p",
        Some(schema(SchemaIdentifier::Int32, TypePostfix::Plain)),
        Literal::Null,
    )]);
    let err = fail(&src);
    assert_eq!(err.message(), "type addr Int32 is not nullable");
    assert_eq!(err.exit_code(), 20);
}
