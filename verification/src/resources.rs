use vstd::prelude::*;
use vstd::string::{StrSliceExecFns, StringExecFns};
use crate::text::{free_of, segment, segment_end};

verus! {

/// The name of a resource: where it lies below the root folder.
#[derive(Debug, Clone, PartialEq, Eq, Hash)]
pub struct Identifier {
    /// The root folder, such as `assets`.
    pub root: String,
    /// The folder inside the root, such as `textures`; empty for a file that
    /// lies in the root itself.
    pub group: String,
    /// The file, with whatever folders lie between the group and it.
    pub id: String,
}

/// The three parts of an identifier.
pub struct IdentifierView {
    pub root: Seq<char>,
    pub group: Seq<char>,
    pub id: Seq<char>,
}

impl View for Identifier {
    type V = IdentifierView;

    open spec fn view(&self) -> IdentifierView {
        IdentifierView { root: self.root@, group: self.group@, id: self.id@ }
    }
}

/// The parts of a path: the root up to the first slash; with a second slash,
/// the group between the two and the rest as the file; with one slash only,
/// no group and all behind the slash as the file. `first` and `second` are
/// the ends of the first two segments.
pub open spec fn parts_of(path: Seq<char>, first: int, second: int) -> IdentifierView {
    if second == path.len() {
        IdentifierView {
            root: path.subrange(0, first),
            group: Seq::empty(),
            id: path.subrange(first + 1, path.len() as int),
        }
    } else {
        IdentifierView {
            root: path.subrange(0, first),
            group: path.subrange(first + 1, second),
            id: path.subrange(second + 1, path.len() as int),
        }
    }
}

/// How an identifier is written out: root, a hyphen, group, a colon, file.
pub open spec fn label_of(identifier: IdentifierView) -> Seq<char> {
    identifier.root + "-"@ + identifier.group + ":"@ + identifier.id
}

impl Identifier {
    /// An identifier from its three parts.
    pub fn new(root: &str, group: &str, id: &str) -> (res: Identifier)
        ensures
            res@ == (IdentifierView { root: root@, group: group@, id: id@ }),
    {
        Identifier { root: root.to_owned(), group: group.to_owned(), id: id.to_owned() }
    }

    /// Reads an identifier out of a path with at least one slash in it.
    pub fn parse_from_str(id: &str) -> (res: Identifier)
        requires
            !free_of(id@, '/', 0, id@.len() as int),
        ensures
            exists|first: int, second: int|
                {
                    &&& segment(id@, '/', 0, first)
                    &&& first < id@.len()
                    &&& segment(id@, '/', first + 1, second)
                    &&& res@ == #[trigger] parts_of(id@, first, second)
                },
    {
        let len: usize = id.unicode_len();
        let first: usize = segment_end(id, '/', 0);
        let second: usize = segment_end(id, '/', first + 1);
        let root: String = id.substring_char(0, first).to_owned();
        if second == len {
            let file: String = id.substring_char(first + 1, len).to_owned();
            let res = Identifier { root, group: String::new(), id: file };
            assert(res@ == parts_of(id@, first as int, second as int));
            res
        } else {
            let group: String = id.substring_char(first + 1, second).to_owned();
            let file: String = id.substring_char(second + 1, len).to_owned();
            let res = Identifier { root, group, id: file };
            assert(res@ == parts_of(id@, first as int, second as int));
            res
        }
    }

    /// The root folder.
    pub fn root(&self) -> (res: String)
        ensures
            res@ == self@.root,
    {
        self.root.clone()
    }

    /// The folder inside the root.
    pub fn group(&self) -> (res: String)
        ensures
            res@ == self@.group,
    {
        self.group.clone()
    }

    /// The file.
    pub fn id(&self) -> (res: String)
        ensures
            res@ == self@.id,
    {
        self.id.clone()
    }

    /// The identifier written out.
    pub fn label(&self) -> (res: String)
        ensures
            res@ == label_of(self@),
    {
        let mut text: String = self.root.clone();
        text.append("-");
        text.append(self.group.as_str());
        text.append(":");
        text.append(self.id.as_str());
        text
    }
}

} // verus!
