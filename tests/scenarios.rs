use palelc::build_task::{create_build_task, translate, BuildTaskConfig, SrcFile};
use palelc::c::{CInclude, CSrc};
use palelc::compilation_error::{CompilationError, Of};
use palelc::renderer_c::render;

fn compile(text: &str) -> Of<CSrc> {
    let mut task = create_build_task(BuildTaskConfig {
        bin_name: "app".to_string(),
        src_dir: "./src".to_string(),
        dest_dir: "./build".to_string(),
    });
    task.src_files.push(SrcFile { file: "main.palel".to_string(), content: text.to_string() });
    translate(&task)
}

fn c_text(text: &str) -> String {
    match compile(text) {
        Of::Done(c) => render(&c),
        Of::Error(e) => panic!("{}", e.message()),
    }
}

fn error(text: &str) -> CompilationError {
    match compile(text) {
        Of::Done(c) => panic!("expected an error, got {:?}", c),
        Of::Error(e) => e,
    }
}

fn squeeze(s: &str) -> String {
    s.split_whitespace().collect::<Vec<_>>().join(" ")
}

#[test]
fn empty_program_source() {
    match compile("program do end") {
        Of::Done(c) => {
            assert_eq!(c.includes, vec![]);
            assert_eq!(c.functions.len(), 1);
        }
        Of::Error(e) => panic!("{}", e.message()),
    }
    assert_eq!(squeeze(&c_text("program do end")), "int main() { return 0; }");
}

#[test]
fn hello_world_source() {
    let text = "program do debug:printf(\"Hello World\") end";
    match compile(text) {
        Of::Done(c) => assert_eq!(c.includes, vec![CInclude { file: "stdio.h".to_string() }]),
        Of::Error(e) => panic!("{}", e.message()),
    }
    assert_eq!(
        squeeze(&c_text(text)),
        "#include <stdio.h> int main() { printf(\"Hello World\"); return 0; }"
    );
}

#[test]
fn unknown_interface_source() {
    let e = error("program do net:send(\"x\") end");
    assert_eq!(e.message(), "could not find interface 'net'");
    assert_eq!(e.exit_code(), 20);
}

#[test]
fn mixed_declarations_source() {
    let text = "
        program do
          dim a = 1
          ref b = 2
          addr d = 4
          dim e Int32 = -5
          dim f Float64 = 6.2
          dim g Bool = true
          dim my_z Int64 = 0
          dim maybe_num Int32? = null
        end";
    assert_eq!(
        squeeze(&c_text(text)),
        "#include <stdint.h> int main() { int32_t a = 1; int32_t *b = 2; void *d = 4; \
         int32_t e = -5; double f = 6.2; int g = 1; int64_t my_z = 0; \
         int32_t maybe_num = INT32_MIN; return 0; }"
    );
}

#[test]
fn type_mismatch_source() {
    let e = error("program do dim x Int32 = 6.2 end");
    assert_eq!(e.message(), "incompatible types, expected dim Int32, received dim Float64");
    assert_eq!(e.exit_code(), 5);
}

#[test]
fn null_into_plain_int_source() {
    let e = error("program do dim x Int32 = null end");
    assert_eq!(e.message(), "type dim Int32 is not nullable");
    assert_eq!(e.exit_code(), 20);
}

#[test]
fn null_without_sentinel_source() {
    let e = error("program do dim x Float32? = null end");
    assert_eq!(e.message(), "type dim Float32? is not nullable");
    assert_eq!(e.exit_code(), 20);
}

#[test]
fn programs_from_several_files() {
    let mut task = create_build_task(BuildTaskConfig {
        bin_name: "app".to_string(),
        src_dir: "./src".to_string(),
        dest_dir: "./build".to_string(),
    });
    task.src_files.push(SrcFile { file: "a.palel".to_string(), content: "program do debug:puts(\"a\") end".to_string() });
    task.src_files.push(SrcFile { file: "b.palel".to_string(), content: "program do dim x = 1 end".to_string() });
    match translate(&task) {
        Of::Done(c) => assert_eq!(
            squeeze(&render(&c)),
            "#include <stdio.h> int main() { puts(\"a\"); return 0; }"
        ),
        Of::Error(e) => panic!("{}", e.message()),
    }
    task.src_files.push(SrcFile { file: "c.palel".to_string(), content: "program".to_string() });
    match translate(&task) {
        Of::Done(c) => panic!("expected an error, got {:?}", c),
        Of::Error(e) => assert_eq!(e.message(), "failed to parse source file 'c.palel'"),
    }
}
