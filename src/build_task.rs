//! A build: where sources are read from and output goes, and the sources read.
use vstd::prelude::*;

use crate::compilation_error::{CompilationError, ErrorModel, NoSourceFiles, Of};
use crate::palel::{Src, StatementModel};
use crate::parser::{parse, parses_as, reads};
use crate::text::owned;
use crate::toolkit_c::CToolKit;
use crate::c::CSrc;
use crate::transpiler_c::{lower_src, transpile};

verus! {

pub struct BuildTaskConfig {
    pub bin_name: String,
    pub src_dir: String,
    pub dest_dir: String,
}

pub struct BuildTask {
    pub config: BuildTaskConfig,
    pub src_files: Vec<SrcFile>,
}

/// A source file: its path relative to the source directory, and its text.
#[derive(Debug, PartialEq)]
pub struct SrcFile {
    pub file: String,
    pub content: String,
}

/// The suffix that marks a Palel source file.
pub open spec fn is_palel_name(name: Seq<char>) -> bool {
    name.len() >= 6 && name.subrange(name.len() - 6, name.len() as int) == ".palel"@
}

/// `ps` are the programs of `files`, read in order, each file's after the
/// previous one's.
pub open spec fn files_parse_as(files: Seq<SrcFile>, ps: Seq<Seq<StatementModel>>) -> bool
    decreases files.len(),
{
    if files.len() == 0 {
        ps.len() == 0
    } else {
        exists|k: int|
            0 <= k <= ps.len() && files_parse_as(files.drop_last(), #[trigger] ps.take(k))
                && parses_as(files.last().content@, ps.skip(k))
    }
}

/// A build with `config` and no sources read yet.
pub fn create_build_task(config: BuildTaskConfig) -> (r: BuildTask)
    ensures
        r.config == config,
        r.src_files@.len() == 0,
{
    BuildTask { config: config, src_files: Vec::new() }
}

/// Whether a file of this name is a Palel source.
pub fn is_palel_file(name: &str) -> (r: bool)
    ensures
        r == is_palel_name(name@),
{
    let n = name.unicode_len();
    if n < 6 {
        return false;
    }
    let suffix = name.substring_char(n - 6, n);
    crate::text::str_equal(suffix, ".palel")
}

/// The error for a build that found no sources, if it found none.
pub fn require_sources(task: &BuildTask) -> (r: Option<CompilationError>)
    ensures
        task.src_files@.len() == 0 <==> r is Some,
        r is Some ==> r->Some_0@ == crate::compilation_error::ErrorModel::NoSourceFiles(
            task.config.src_dir@,
        ),
{
    if task.src_files.len() == 0 {
        Some(CompilationError::NoSourceFiles(NoSourceFiles { dir: task.config.src_dir.clone() }))
    } else {
        None
    }
}

/// Reads every source of the task, in order, and lowers the programs read.
/// A file that cannot be read as programs stops the build with its error.
pub fn translate(task: &BuildTask) -> (r: Of<CSrc>)
    ensures
        match r {
            Of::Done(c) => exists|ps: Seq<Seq<StatementModel>>|
                files_parse_as(task.src_files@, ps) && #[trigger] lower_src(ps) == Ok::<
                    crate::c::CSrcModel,
                    ErrorModel,
                >(c@),
            Of::Error(e) => (exists|i: int|
                0 <= i < task.src_files@.len() && e@ == ErrorModel::FailedToParseSrcFile(
                    #[trigger] task.src_files@[i].file@,
                )) || (exists|ps: Seq<Seq<StatementModel>>|
                files_parse_as(task.src_files@, ps) && #[trigger] lower_src(ps) == Err::<
                    crate::c::CSrcModel,
                    ErrorModel,
                >(e@)),
        },
        (forall|i: int| 0 <= i < task.src_files@.len() ==> reads(#[trigger] task.src_files@[i].content@))
            ==> match r {
            Of::Done(_) => true,
            Of::Error(e) => exists|ps: Seq<Seq<StatementModel>>|
                files_parse_as(task.src_files@, ps) && #[trigger] lower_src(ps) == Err::<
                    crate::c::CSrcModel,
                    ErrorModel,
                >(e@),
        },
{
    let files = &task.src_files;
    let mut src = Src { programs: Vec::new() };
    assert(files@.take(0) =~= Seq::<SrcFile>::empty());
    assert(src@ =~= Seq::<Seq<StatementModel>>::empty());
    let mut i: usize = 0;
    while i < files.len()
        invariant
            files@ == task.src_files@,
            i <= files@.len(),
            files_parse_as(files@.take(i as int), src@),
        decreases files@.len() - i,
    {
        let ghost before = src@;
        match parse(&mut src, &files[i]) {
            Some(e) => {
                assert(reads(files@[i as int].content@) ==> false);
                let r = Of::Error(e);
                assert(0 <= i < task.src_files@.len() && e@ == ErrorModel::FailedToParseSrcFile(
                    task.src_files@[i as int].file@,
                ));
                return r;
            },
            None => {},
        }
        proof {
            let k = before.len() as int;
            let taken = files@.take(i + 1);
            assert(taken.drop_last() =~= files@.take(i as int));
            assert(taken.last() == files@[i as int]);
            assert(src@.take(k) == before);
            assert(0 <= k <= src@.len() && files_parse_as(taken.drop_last(), src@.take(k))
                && parses_as(taken.last().content@, src@.skip(k)));
        }
        i += 1;
    }
    assert(files@.take(i as int) =~= files@);
    let toolkit = CToolKit {  };
    transpile(&src, &toolkit)
}

/// The default source and build directories.
pub fn default_dirs() -> (r: (String, String))
    ensures
        r.0@ == "./src"@,
        r.1@ == "./build"@,
{
    (owned("./src"), owned("./build"))
}

} // verus!
