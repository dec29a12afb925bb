use palelc::build_task::SrcFile;
use palelc::compilation_error::{CompilationError, FailedToParseSrcFile};
use palelc::palel::{
    DoBlock, Expression, Literal, MemoryModifier, ProcedureCall, Program, SchemaIdentifier,
    SchemaType, Src, TypeFamily, TypePostfix, VariableDeclaration,
};
use palelc::parser::{parse, tokenize, Token};

fn run(input: &str) -> Src {
    let file = SrcFile { file: "./code.palel".to_string(), content: input.to_string() };
    let mut actual = Src::default();
    match parse(&mut actual, &file) {
        Some(err) => {
            panic!("{}", err.message())
        }
        None => {}
    }
    actual
}

#[test]
fn test_simple_debug() {
    let input = r#"
        program do
            debug:print()
        end
        "#;
    let actual = run(input);
    let expected = Src {
        programs: vec![Program {
            do_block: DoBlock {
                statements: vec![ProcedureCall {
                    interface: "debug".to_string(),
                    identifier: "print".to_string(),
                    arguments: Vec::new(),
                }
                .to_statement()],
            },
        }],
    };
    assert_eq!(actual, expected);
}

#[test]
fn test_simple_debug_hello_world() {
    let input = r#"
        program do
            debug:print("Hello World")
        end
        "#;
    let actual = run(&input);
    let expected = Src {
        programs: vec![Program {
            do_block: DoBlock {
                statements: vec![ProcedureCall {
                    interface: "debug".to_string(),
                    identifier: "print".to_string(),
                    arguments: vec![Literal::String("Hello World".to_string()).to_expression()],
                }
                .to_statement()],
            },
        }],
    };
    assert_eq!(actual, expected);
}

fn schema(identifier: SchemaIdentifier, postfix: TypePostfix, family: TypeFamily, width: Option<i32>) -> Option<SchemaType> {
    Some(SchemaType { identifier: identifier, postfix: postfix, family: family, width: width })
}

fn decl(memory: MemoryModifier, name: &str, ty: Option<SchemaType>, value: Expression) -> palelc::palel::Statement {
    VariableDeclaration { memory: memory, identifier: name.to_string(), schema_type: ty, expression: value }
        .to_statement()
}

#[test]
fn parser_test_variable_declarations() {
    let input = r#"
        program do
           dim a = 1
           ref b = 2
           var c = 3
           addr d = 4
           dim e Int32 = -5
           dim f Float64 = 6.2
           dim g Bool = true

           insert_space_here
           insert_space_here

           dim my_z_var Int64 = null

           dim maybe_num Int32? = null
       end
        "#
    .replace("insert_space_here", "   ");

    let actual = run(&input);
    let expected = Src {
        programs: vec![Program {
            do_block: DoBlock {
                statements: vec![
                    decl(MemoryModifier::Dim, "a", None, Expression::Literal(Literal::Number("1".to_string()))),
                    decl(MemoryModifier::Ref, "b", None, Expression::Literal(Literal::Number("2".to_string()))),
                    decl(MemoryModifier::Var, "c", None, Expression::Literal(Literal::Number("3".to_string()))),
                    decl(MemoryModifier::Addr, "d", None, Expression::Literal(Literal::Number("4".to_string()))),
                    decl(
                        MemoryModifier::Dim,
                        "e",
                        schema(SchemaIdentifier::Int32, TypePostfix::Plain, TypeFamily::Int, Some(32)),
                        Expression::Literal(Literal::Number("-5".to_string())),
                    ),
                    decl(
                        MemoryModifier::Dim,
                        "f",
                        schema(SchemaIdentifier::Float64, TypePostfix::Plain, TypeFamily::Float, Some(64)),
                        Expression::Literal(Literal::Number("6.2".to_string())),
                    ),
                    decl(
                        MemoryModifier::Dim,
                        "g",
                        schema(SchemaIdentifier::Bool, TypePostfix::Plain, TypeFamily::Other, None),
                        Expression::Literal(Literal::Boolean(true)),
                    ),
                    decl(
                        MemoryModifier::Dim,
                        "my_z_var",
                        schema(SchemaIdentifier::Int64, TypePostfix::Plain, TypeFamily::Int, Some(64)),
                        Expression::Literal(Literal::Null),
                    ),
                    decl(
                        MemoryModifier::Dim,
                        "maybe_num",
                        schema(SchemaIdentifier::Int32, TypePostfix::Opt, TypeFamily::Int, Some(32)),
                        Expression::Literal(Literal::Null),
                    ),
                ],
            },
        }],
    };
    assert_eq!(actual, expected)
}

#[test]
fn tokens_of_a_line() {
    let toks = tokenize("dim x Int32? = -5 debug:f(\"a b\", 1.5)").unwrap();
    assert_eq!(
        toks,
        vec![
            Token::Word("dim".to_string()),
            Token::Word("x".to_string()),
            Token::Word("Int32".to_string()),
            Token::Question,
            Token::Assign,
            Token::Number("-5".to_string()),
            Token::Word("debug".to_string()),
            Token::Colon,
            Token::Word("f".to_string()),
            Token::Open,
            Token::Text("a b".to_string()),
            Token::Comma,
            Token::Number("1.5".to_string()),
            Token::Close,
        ]
    );
    assert_eq!(tokenize("  \n\t").unwrap(), vec![]);
    assert_eq!(tokenize("\"open"), None);
    assert_eq!(tokenize("a # b"), None);
}

#[test]
fn empty_text_has_no_programs() {
    assert_eq!(run("   \n"), Src { programs: vec![] });
}

#[test]
fn several_programs_and_plain_calls() {
    let actual = run("program do tick() return 1 end program do return end");
    assert_eq!(actual.programs.len(), 2);
    assert_eq!(
        actual.programs[0].do_block.statements,
        vec![
            ProcedureCall { interface: "".to_string(), identifier: "tick".to_string(), arguments: vec![] }
                .to_statement(),
            palelc::palel::Return { value: Some(Literal::Number("1".to_string()).to_expression()) }
                .to_statement(),
        ]
    );
    assert_eq!(
        actual.programs[1].do_block.statements,
        vec![palelc::palel::Return { value: None }.to_statement()]
    );
}

#[test]
fn user_type_and_error_postfix() {
    let actual = run("program do ref p Point! = null end");
    assert_eq!(
        actual.programs[0].do_block.statements,
        vec![decl(
            MemoryModifier::Ref,
            "p",
            schema(SchemaIdentifier::UserDefined("Point".to_string()), TypePostfix::Error, TypeFamily::Other, None),
            Expression::Literal(Literal::Null),
        )]
    );
}

#[test]
fn malformed_sources_are_rejected() {
    for text in [
        "program do",
        "program debug:f() end",
        "program do dim = 1 end",
        "program do dim x Int32 1 end",
        "program do debug:f(1,) end",
        "program do f(x) end",
        "do end",
    ] {
        let file = SrcFile { file: "bad.palel".to_string(), content: text.to_string() };
        let mut src = Src::default();
        let err = parse(&mut src, &file).expect(text);
        assert_eq!(
            err,
            CompilationError::FailedToParseSrcFile(FailedToParseSrcFile { file: "bad.palel".to_string() })
        );
        assert_eq!(err.exit_code(), 3);
        assert_eq!(src, Src::default());
    }
}

#[test]
fn tight_text_is_read() {
    let actual = run("program do dim x Int32?=1 debug:f(1,2.5,\"s\",true,null)end");
    assert_eq!(
        actual.programs[0].do_block.statements,
        vec![
            decl(
                MemoryModifier::Dim,
                "x",
                schema(SchemaIdentifier::Int32, TypePostfix::Opt, TypeFamily::Int, Some(32)),
                Expression::Literal(Literal::Number("1".to_string())),
            ),
            ProcedureCall {
                interface: "debug".to_string(),
                identifier: "f".to_string(),
                arguments: vec![
                    Literal::Number("1".to_string()).to_expression(),
                    Literal::Number("2.5".to_string()).to_expression(),
                    Literal::String("s".to_string()).to_expression(),
                    Literal::Boolean(true).to_expression(),
                    Literal::Null.to_expression(),
                ],
            }
            .to_statement(),
        ]
    );
}
