//! Merging of lists of included files: order of first appearance, one entry per file.
use vstd::prelude::*;

use crate::c::{includes_model, CInclude, CSrc, CSrcPatch};

verus! {

/// `files` with `file` appended, unless it is already there.
pub open spec fn add_include(files: Seq<Seq<char>>, file: Seq<char>) -> Seq<Seq<char>> {
    if files.contains(file) {
        files
    } else {
        files.push(file)
    }
}

/// `dst` with each file of `src` added in turn.
pub open spec fn merge_includes(dst: Seq<Seq<char>>, src: Seq<Seq<char>>) -> Seq<Seq<char>>
    decreases src.len(),
{
    if src.len() == 0 {
        dst
    } else {
        add_include(merge_includes(dst, src.drop_last()), src.last())
    }
}

/// Merging adds no duplicate to a list that has none.
pub proof fn lemma_merge_keeps_distinct(dst: Seq<Seq<char>>, src: Seq<Seq<char>>)
    requires
        dst.no_duplicates(),
    ensures
        merge_includes(dst, src).no_duplicates(),
    decreases src.len(),
{
    if src.len() > 0 {
        lemma_merge_keeps_distinct(dst, src.drop_last());
        let m = merge_includes(dst, src.drop_last());
        if !m.contains(src.last()) {
            assert forall|i: int, j: int|
                0 <= i < m.len() + 1 && 0 <= j < m.len() + 1 && i != j implies
                #[trigger] m.push(src.last())[i] != #[trigger] m.push(src.last())[j] by {
                if i < m.len() && j < m.len() {
                } else if i == m.len() {
                    assert(m[j] == m.push(src.last())[j]);
                } else {
                    assert(m[i] == m.push(src.last())[i]);
                }
            }
        }
    }
}

/// A file is in the merge exactly when it is in one of the two lists.
pub proof fn lemma_merge_contents(dst: Seq<Seq<char>>, src: Seq<Seq<char>>, file: Seq<char>)
    ensures
        merge_includes(dst, src).contains(file) <==> (dst.contains(file) || src.contains(file)),
    decreases src.len(),
{
    if src.len() > 0 {
        lemma_merge_contents(dst, src.drop_last(), file);
        let m = merge_includes(dst, src.drop_last());
        if src.drop_last().contains(file) {
            let k = choose|k: int| 0 <= k < src.drop_last().len() && src.drop_last()[k] == file;
            assert(src[k] == file);
        }
        if src.contains(file) && file != src.last() {
            let k = choose|k: int| 0 <= k < src.len() && src[k] == file;
            assert(src.drop_last()[k] == file);
        }
        if !m.contains(src.last()) {
            assert(m.push(src.last())[m.len() as int] == src.last());
            if m.contains(file) {
                let k = choose|k: int| 0 <= k < m.len() && m[k] == file;
                assert(m.push(src.last())[k] == file);
            }
            if m.push(src.last()).contains(file) && file != src.last() {
                let k = choose|k: int| 0 <= k < m.len() + 1 && m.push(src.last())[k] == file;
                assert(m[k] == file);
            }
        }
        if file == src.last() {
            assert(src[src.len() - 1] == file);
        }
    }
}

fn patch_include(includes: &mut Vec<CInclude>, entry: &CInclude)
    ensures
        includes_model(final(includes)@) == add_include(includes_model(old(includes)@), entry@),
{
    let ghost files = includes_model(includes@);
    let mut i: usize = 0;
    while i < includes.len()
        invariant
            files == includes_model(includes@),
            i <= includes.len(),
            forall|j: int| 0 <= j < i ==> files[j] != entry@,
        decreases includes.len() - i,
    {
        if includes[i].file == entry.file {
            assert(files[i as int] == entry@);
            return;
        }
        i += 1;
    }
    includes.push(entry.clone());
    assert(includes_model(includes@) =~= files.push(entry@));
}

/// Adds the patch's includes to the translation unit, skipping files it
/// already includes.
pub fn patch_src(src: &mut CSrc, patch: &CSrcPatch)
    ensures
        final(src)@.includes == merge_includes(old(src)@.includes, patch@),
        final(src).functions == old(src).functions,
{
    let ghost start = src@.includes;
    let mut i: usize = 0;
    while i < patch.includes.len()
        invariant
            i <= patch.includes.len(),
            src@.includes == merge_includes(start, patch@.take(i as int)),
            src.functions == old(src).functions,
        decreases patch.includes.len() - i,
    {
        patch_include(&mut src.includes, &patch.includes[i]);
        assert(patch@.take(i + 1).drop_last() =~= patch@.take(i as int));
        i += 1;
    }
    assert(patch@.take(patch.includes.len() as int) =~= patch@);
}

/// Adds the includes of `other` to `patch`, skipping files it already has.
pub fn merge_patch(patch: &mut CSrcPatch, other: &CSrcPatch)
    ensures
        final(patch)@ == merge_includes(old(patch)@, other@),
{
    let ghost start = patch@;
    let mut i: usize = 0;
    while i < other.includes.len()
        invariant
            i <= other.includes.len(),
            patch@ == merge_includes(start, other@.take(i as int)),
        decreases other.includes.len() - i,
    {
        patch_include(&mut patch.includes, &other.includes[i]);
        assert(other@.take(i + 1).drop_last() =~= other@.take(i as int));
        i += 1;
    }
    assert(other@.take(other.includes.len() as int) =~= other@);
}

} // verus!
