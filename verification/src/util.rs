//! The order of a walk through a tree of directories.
//!
//! A directory is read one entry at a time by a reader of some type `R`,
//! which the walk does not look into. The walk says whose turn it is: it goes
//! depth first, so a directory that was just entered is read to its end
//! before the directory that holds it is read any further.

use vstd::prelude::*;

verus! {

/// A walk over a directory tree, depth first. It holds the readers of the
/// directories that are open, the innermost last.
pub struct RecursiveDirIterator<R> {
    readers: Vec<R>,
}

impl<R> View for RecursiveDirIterator<R> {
    type V = Seq<R>;

    /// The open readers, from the root of the walk inwards.
    closed spec fn view(&self) -> Seq<R> {
        self.readers@
    }
}

impl<R> RecursiveDirIterator<R> {
    /// A walk that starts in the directory that `root` reads.
    pub fn new(root: R) -> (walk: Self)
        ensures
            walk@ == seq![root],
    {
        let mut readers: Vec<R> = Vec::new();
        readers.push(root);
        RecursiveDirIterator { readers }
    }

    /// Takes out the reader whose turn it is: the innermost one. `None`
    /// where no directory is open any more, which ends the walk. A reader
    /// that has come to its end is dropped by not handing it back.
    pub fn take_reader(&mut self) -> (reader: Option<R>)
        ensures
            old(self)@.len() == 0 ==> reader is None && final(self)@ == old(self)@,
            old(self)@.len() > 0 ==> reader == Some(old(self)@.last()) && final(self)@ == old(
                self,
            )@.drop_last(),
    {
        self.readers.pop()
    }

    /// Hands back the reader that has just given an entry. Where that entry
    /// is a directory, `entered` reads it, and its turn comes first.
    pub fn resume(&mut self, reader: R, entered: Option<R>)
        ensures
            final(self)@ == match entered {
                Some(inner) => old(self)@.push(reader).push(inner),
                None => old(self)@.push(reader),
            },
    {
        self.readers.push(reader);
        match entered {
            Some(inner) => {
                self.readers.push(inner);
            },
            None => {},
        }
    }
}

/// The walk goes depth first. Once a directory has been entered, its reader
/// is the one to be taken next, and when it is not handed back, having come
/// to its end, the turn returns to the reader of the directory that holds
/// it, with all the readers further out untouched.
pub proof fn law_walk_is_depth_first<R>(open: Seq<R>, outer: R, inner: R)
    ensures
        open.push(outer).push(inner).last() == inner,
        open.push(outer).push(inner).drop_last().last() == outer,
        open.push(outer).push(inner).drop_last().drop_last() == open,
{
    assert(open.push(outer).push(inner).drop_last() =~= open.push(outer));
    assert(open.push(outer).drop_last() =~= open);
}

} // verus!
