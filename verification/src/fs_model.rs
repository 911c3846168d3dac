//! A mathematical model of a file tree.
//!
//! A filesystem state is a map from absolute file paths (sequences of
//! components) to file contents. Directories are implicit: a directory
//! "holds something" exactly when some mapped path lies below it. The two
//! filesystem operations the orchestrator relies on — recursively mirroring
//! one directory into another, and idempotently removing a path — are
//! specified here as functions on this model.

use vstd::prelude::*;
use crate::path::under;
use crate::path::strictly_under;

verus! {

/// A filesystem state: each file's absolute path, mapped to its contents.
pub type FsModel = Map<Seq<Seq<char>>, Seq<u8>>;

/// Nothing is mapped at or below `d`.
pub open spec fn tree_absent(fs: FsModel, d: Seq<Seq<char>>) -> bool {
    forall|p: Seq<Seq<char>>| fs.dom().contains(p) ==> !under(p, d)
}

/// Removal of `d`: every file at or below `d` is gone; all else is kept.
pub open spec fn clear_tree(fs: FsModel, d: Seq<Seq<char>>) -> FsModel {
    Map::new(|p: Seq<Seq<char>>| fs.dom().contains(p) && !under(p, d), |p: Seq<Seq<char>>| fs[p])
}

/// The path of the file that mirroring `src` into `dst` writes for the
/// source file `p`: the same path relative to `dst`.
pub open spec fn rebase(p: Seq<Seq<char>>, src: Seq<Seq<char>>, dst: Seq<Seq<char>>) -> Seq<
    Seq<char>,
> {
    dst + p.skip(src.len() as int)
}

/// Mirroring `src` into `dst`: every file strictly below `src` is copied to
/// the same path relative to `dst`, overwriting what was mapped there; every
/// path that receives no copy keeps its mapping.
pub open spec fn mirror_tree(
    fs: FsModel,
    src: Seq<Seq<char>>,
    dst: Seq<Seq<char>>,
) -> FsModel {
    Map::new(
        |p: Seq<Seq<char>>|
            fs.dom().contains(p) || (strictly_under(p, dst) && fs.dom().contains(
                rebase(p, dst, src),
            )),
        |p: Seq<Seq<char>>|
            if strictly_under(p, dst) && fs.dom().contains(rebase(p, dst, src)) {
                fs[rebase(p, dst, src)]
            } else {
                fs[p]
            },
    )
}

} // verus!
