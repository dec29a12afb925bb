//! A project: its directories and the sources read from them.
use vstd::prelude::*;

pub use crate::build_task::SrcFile;
use crate::build_task::default_dirs;

verus! {

#[derive(Debug, PartialEq)]
pub struct Project {
    pub src_dir: String,
    pub build_dir: String,
    pub src_files: Vec<SrcFile>,
}

fn default_project() -> (r: Project)
    ensures
        r.src_dir@ == "./src"@,
        r.build_dir@ == "./build"@,
        r.src_files@.len() == 0,
{
    let (src_dir, build_dir) = default_dirs();
    Project { src_dir: src_dir, build_dir: build_dir, src_files: Vec::new() }
}

impl Default for Project {
    fn default() -> (r: Self)
        ensures
            r.src_dir@ == "./src"@,
            r.build_dir@ == "./build"@,
            r.src_files@.len() == 0,
    {
        default_project()
    }
}

} // verus!
