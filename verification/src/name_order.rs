//! Sorting the files of a listing by their names.

use std::cmp::Ordering;
use rayon::slice::ParallelSliceMut;
use vstd::prelude::*;
use crate::byte_order::{name_before, name_less};
use crate::listing::{files_view, FileInfo, FileInfoView};

verus! {

/// The files of `files` stand in the order of their names.
pub open spec fn sorted_by_name(files: Seq<FileInfoView>) -> bool {
    forall|i: int, j: int|
        0 <= i < j < files.len() ==> !name_before(
            (#[trigger] files[j]).name,
            (#[trigger] files[i]).name,
        )
}

/// `sorted` holds the files of `source`, each once: the file at place `i`
/// of `sorted` is the one at place `order[i]` of `source`.
pub open spec fn rearranges(order: Seq<int>, sorted: Seq<FileInfoView>, source: Seq<FileInfoView>) -> bool {
    &&& order.len() == sorted.len()
    &&& sorted.len() == source.len()
    &&& forall|i: int|
        0 <= i < order.len() ==> 0 <= #[trigger] order[i] < source.len() && sorted[i]
            == source[order[i]]
    &&& forall|i: int, j: int|
        0 <= i < j < order.len() ==> #[trigger] order[i] != #[trigger] order[j]
}

/// Files of one name stand in `sorted` as they stood in `source`.
pub open spec fn keeps_equal_names_in_order(order: Seq<int>, sorted: Seq<FileInfoView>) -> bool {
    forall|i: int, j: int|
        0 <= i < j < order.len() && sorted[i].name == sorted[j].name ==> #[trigger] order[i]
            < #[trigger] order[j]
}

/// `sorted` is `source` sorted by name, files of one name left in their
/// order.
pub open spec fn is_stable_sort_of(sorted: Seq<FileInfoView>, source: Seq<FileInfoView>) -> bool {
    &&& sorted_by_name(sorted)
    &&& exists|order: Seq<int>|
        rearranges(order, sorted, source) && keeps_equal_names_in_order(order, sorted)
}

/// How the names of two files compare.
pub fn by_name(a: &FileInfo, b: &FileInfo) -> (order: Ordering)
    ensures
        match order {
            Ordering::Less => name_before(a.name@, b.name@),
            Ordering::Greater => name_before(b.name@, a.name@),
            Ordering::Equal => !name_before(a.name@, b.name@) && !name_before(b.name@, a.name@),
        },
{
    if name_less(a.name.as_str(), b.name.as_str()) {
        Ordering::Less
    } else if name_less(b.name.as_str(), a.name.as_str()) {
        Ordering::Greater
    } else {
        Ordering::Equal
    }
}

/// `rayon::slice::ParallelSliceMut::par_sort_by` with `by_name`. The crate
/// documents a stable sort for a comparison that is a total order, which
/// `by_name` is (`lemma_names_are_totally_ordered`): the files come out in
/// the order of their names, those of one name in the order in which they
/// stood.
#[verifier::external_body]
pub(crate) fn sort_by_name(files: &mut Vec<FileInfo>)
    ensures
        is_stable_sort_of(files_view(final(files)@), files_view(old(files)@)),
{
    files.par_sort_by(|a, b| by_name(a, b));
}

} // verus!
