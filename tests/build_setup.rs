use palelc::build_task::{
    create_build_task, default_dirs, is_palel_file, require_sources, BuildTaskConfig, SrcFile,
};
use palelc::project::Project;

fn config() -> BuildTaskConfig {
    BuildTaskConfig {
        bin_name: "app".to_string(),
        src_dir: "./src".to_string(),
        dest_dir: "./build".to_string(),
    }
}

#[test]
fn palel_file_names() {
    assert!(is_palel_file("main.palel"));
    assert!(is_palel_file("dir/x.palel"));
    assert!(!is_palel_file("main.c"));
    assert!(!is_palel_file("palel"));
    assert!(!is_palel_file(".palel.bak"));
}

#[test]
fn sources_are_required() {
    let mut task = create_build_task(config());
    assert!(task.src_files.is_empty());
    let err = require_sources(&task).unwrap();
    assert_eq!(err.message(), "no palel source files were found in ./src");
    assert_eq!(err.exit_code(), 1);
    task.src_files.push(SrcFile { file: "a.palel".to_string(), content: "".to_string() });
    assert_eq!(require_sources(&task), None);
}

#[test]
fn defaults() {
    let (src_dir, build_dir) = default_dirs();
    assert_eq!(src_dir, "./src");
    assert_eq!(build_dir, "./build");
    let p = Project::default();
    assert_eq!(p.src_dir, "./src");
    assert_eq!(p.build_dir, "./build");
    assert!(p.src_files.is_empty());
}
