use palelc::c::{
    CBlock, CExpression, CFunction, CFunctionCall, CInclude, CLiteral, CReturn, CSrc, CType,
    CVariableDeclaration,
};
use palelc::renderer_c::{render, render_include};

fn norm(input: &str) -> String {
    input
        .lines()
        .map(|line| line.trim_start())
        .filter(|line| !line.is_empty())
        .collect::<Vec<_>>()
        .join("\n")
}

fn var(name: &str, ty: &str, is_pointer: bool, value: &str) -> palelc::c::CStatement {
    CVariableDeclaration {
        name: name.to_string(),
        var_type: CType { name: ty.to_string(), is_pointer: is_pointer },
        value: CLiteral::Number(value.to_string()).to_expression(),
    }
    .to_statement()
}

#[test]
fn test_hello_word() {
    let src = CSrc {
        includes: vec![CInclude { file: "stdio.h".to_string() }],
        functions: vec![CFunction {
            name: "main".to_string(),
            return_type: CType { name: "int".to_string(), is_pointer: false },
            block: CBlock {
                statements: vec![
                    CFunctionCall {
                        function_name: "printf".to_string(),
                        arguments: vec![CLiteral::String("Hello World".to_string()).to_expression()],
                    }
                    .to_statement(),
                    CReturn { value: Some(CLiteral::Number("0".to_string()).to_expression()) }
                        .to_statement(),
                ],
            },
        }],
    };

    let expected = r#"
        #include <stdio.h>
        int main()
        {
        printf("Hello World");
        return 0;
        }
        "#;
    let actual = render(&src);

    assert_eq!(norm(&actual), norm(&expected))
}

#[test]
fn renderer_c_test_variable_declarations() {
    let src = CSrc {
        includes: vec![],
        functions: vec![CFunction {
            name: "main".to_string(),
            return_type: CType { name: "int".to_string(), is_pointer: false },
            block: CBlock {
                statements: vec![
                    var("a", "int", false, "1"),
                    var("b", "int", true, "2"),
                    var("c", "int", false, "3"),
                    var("d", "void", true, "4"),
                    var("e", "int", false, "-5"),
                    var("f", "double", false, "6.2"),
                    var("g", "int", false, "0"),
                    var("h", "double", false, "3.14"),
                    var("my_z_var", "long", false, "0"),
                    var("maybe_num", "int", false, "0"),
                    CReturn { value: Some(CLiteral::Number("0".to_string()).to_expression()) }
                        .to_statement(),
                ],
            },
        }],
    };

    let expected = r#"
        int main()
        {
        int a = 1;
        int *b = 2;
        int c = 3;
        void *d = 4;
        int e = -5;
        double f = 6.2;
        int g = 0;
        double h = 3.14;
        long my_z_var = 0;
        int maybe_num = 0;
        return 0;
        }
        "#;
    let actual = render(&src);

    assert_eq!(norm(&actual), norm(&expected))
}

#[test]
fn exact_text_with_arguments_and_identifiers() {
    let src = CSrc {
        includes: vec![CInclude { file: "stdint.h".to_string() }, CInclude { file: "float.h".to_string() }],
        functions: vec![CFunction {
            name: "main".to_string(),
            return_type: CType { name: "int".to_string(), is_pointer: false },
            block: CBlock {
                statements: vec![
                    CFunctionCall {
                        function_name: "f".to_string(),
                        arguments: vec![
                            CLiteral::Number("1".to_string()).to_expression(),
                            CLiteral::String("a".to_string()).to_expression(),
                            CExpression::Variable("INT32_MIN".to_string()),
                        ],
                    }
                    .to_statement(),
                    CFunctionCall { function_name: "g".to_string(), arguments: vec![] }.to_statement(),
                    CReturn { value: None }.to_statement(),
                ],
            },
        }],
    };
    assert_eq!(
        render(&src),
        "#include <stdint.h>\n#include <float.h>\nint main()\n{\nf(1,\"a\",INT32_MIN);\ng();\nreturn;\n}\n"
    );
}

#[test]
fn include_line() {
    assert_eq!(render_include(&CInclude { file: "stdio.h".to_string() }), "#include <stdio.h>\n");
}
