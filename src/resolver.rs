//! Turning a path into the list of files it stands for, and each file's bytes
//! into a reference record.

use vstd::prelude::*;
use crate::digest::{content_hash, decode_utf8, hash_hex, utf8_decoded};
use crate::reference::Reference;

verus! {

/// What a path was found to be: the outcome of walking it on disk.
pub enum PathNode {
    /// A path that is not a directory; it stands for itself.
    File { path: String },
    /// A directory outside any repository, with its entries.
    Dir { entries: Vec<PathNode> },
    /// A directory inside a repository, with the files that the repository lists.
    Repo { files: Vec<String> },
}

/// The text of each path in a list.
pub open spec fn texts(v: Seq<String>) -> Seq<Seq<char>> {
    v.map_values(|s: String| s@)
}

/// The files that a walked path stands for, in the order of the walk.
pub open spec fn files_of(node: PathNode) -> Seq<Seq<char>>
    decreases node,
{
    match node {
        PathNode::File { path } => seq![path@],
        PathNode::Repo { files } => texts(files@),
        PathNode::Dir { entries } => entries_files(entries@, entries@.len() as int),
    }
}

/// The files of the first `n` entries of a directory, one entry after another.
pub open spec fn entries_files(entries: Seq<PathNode>, n: int) -> Seq<Seq<char>>
    decreases entries, n,
{
    if n <= 0 || n > entries.len() {
        Seq::empty()
    } else {
        entries_files(entries, n - 1) + files_of(entries[n - 1])
    }
}

/// How many files a walked path contains: one for a plain file, each listed
/// file of a repository, and the files of every entry of a directory.
pub open spec fn file_count(node: PathNode) -> nat
    decreases node,
{
    match node {
        PathNode::File { .. } => 1,
        PathNode::Repo { files } => files@.len(),
        PathNode::Dir { entries } => entries_count(entries@, entries@.len() as int),
    }
}

/// How many files the first `n` entries of a directory contain.
pub open spec fn entries_count(entries: Seq<PathNode>, n: int) -> nat
    decreases entries, n,
{
    if n <= 0 || n > entries.len() {
        0
    } else {
        entries_count(entries, n - 1) + file_count(entries[n - 1])
    }
}

/// A plain file path resolves to exactly itself.
pub proof fn lemma_plain_file_resolves_to_itself(path: String)
    ensures
        files_of(PathNode::File { path }) == seq![path@],
{
}

/// A walked path resolves to one file for each file it contains, recursively.
pub proof fn lemma_one_file_per_contained_file(node: PathNode)
    ensures
        files_of(node).len() == file_count(node),
    decreases node,
{
    match node {
        PathNode::Dir { entries } => {
            assert(decreases_to!(node => entries@));
            lemma_entries_one_file_per_contained_file(entries@, entries@.len() as int);
        },
        _ => {},
    }
}

/// The first `n` entries of a directory resolve to one file for each file
/// they contain.
pub proof fn lemma_entries_one_file_per_contained_file(entries: Seq<PathNode>, n: int)
    ensures
        entries_files(entries, n).len() == entries_count(entries, n),
    decreases entries, n,
{
    if 0 < n <= entries.len() {
        lemma_entries_one_file_per_contained_file(entries, n - 1);
        lemma_one_file_per_contained_file(entries[n - 1]);
    }
}

/// What a path is on disk, as far as deciding whether to resolve it.
pub enum PathKind {
    Dir,
    File,
    /// Missing, or neither a directory nor a regular file.
    Other,
}

/// The type tag of every reference made from a file.
pub open spec fn file_tag() -> Seq<char> {
    "file"@
}

/// A file path that has been resolved, whose contents become a reference.
pub struct ResolvedFilePath {
    pub path: String,
}

impl ResolvedFilePath {
    /// The type tag of the references this path makes.
    pub fn reference_type(&self) -> (r: String)
        ensures
            r@ == file_tag(),
    {
        String::from_str("file")
    }

    /// The reference made from the file's contents, where they could be read
    /// (`Some`) and are valid UTF-8; `None` otherwise, and the file is skipped.
    pub fn create_reference(&self, contents: &Option<Vec<u8>>) -> (r: Option<Reference>)
        ensures
            r is Some <==> usable(*contents),
            r is Some ==> is_reference_of(r->0, self.path@, contents->0@),
    {
        match contents {
            None => None,
            Some(bytes) => {
                let hash = hash_hex(bytes);
                match decode_utf8(bytes) {
                    Some(text) => Some(
                        Reference::new(
                            self.reference_type(),
                            hash,
                            text,
                            bytes.len(),
                            self.path.clone(),
                        ),
                    ),
                    None => None,
                }
            },
        }
    }

    /// The content hash of the file's contents, where they could be read.
    pub fn text_hash(&self, contents: &Option<Vec<u8>>) -> (r: Option<String>)
        ensures
            r is Some <==> contents is Some,
            r is Some ==> r->0@ == content_hash(contents->0@),
    {
        match contents {
            None => None,
            Some(bytes) => Some(hash_hex(bytes)),
        }
    }
}

/// Whether a file's read result gives a reference: it was read, and its bytes
/// are valid UTF-8.
pub open spec fn usable(contents: Option<Vec<u8>>) -> bool {
    contents is Some && utf8_decoded(contents->0@) is Some
}

/// `rf` is the reference of the file at `path` whose bytes are `b`.
pub open spec fn is_reference_of(rf: Reference, path: Seq<char>, b: Seq<u8>) -> bool {
    &&& rf.reference_type@ == file_tag()
    &&& rf.content_hash@ == content_hash(b)
    &&& utf8_decoded(b) == Some(rf.text@)
    &&& rf.size_bytes == b.len()
    &&& rf.path@ == path
}

/// The positions, in order, among the first `n` read results, of those that
/// give a reference.
pub open spec fn kept_positions(contents: Seq<Option<Vec<u8>>>, n: int) -> Seq<int>
    decreases n,
{
    if n <= 0 || n > contents.len() {
        Seq::empty()
    } else if usable(contents[n - 1]) {
        kept_positions(contents, n - 1).push(n - 1)
    } else {
        kept_positions(contents, n - 1)
    }
}

/// The references of a list of files, given what reading each one gave
/// (`None` where it could not be read). A file that cannot be read or is not
/// valid UTF-8 is skipped, and the others are still made, in order.
pub fn create_references(files: &Vec<ResolvedFilePath>, contents: &Vec<Option<Vec<u8>>>) -> (r:
    Vec<Reference>)
    requires
        files@.len() == contents@.len(),
    ensures
        r@.len() == kept_positions(contents@, contents@.len() as int).len(),
        forall|k: int|
            0 <= k < r@.len() ==> {
                let j = #[trigger] kept_positions(contents@, contents@.len() as int)[k];
                is_reference_of(r@[k], files@[j].path@, contents@[j]->0@)
            },
{
    let mut r: Vec<Reference> = Vec::new();
    let mut i: usize = 0;
    while i < files.len()
        invariant
            i <= files@.len(),
            files@.len() == contents@.len(),
            r@.len() == kept_positions(contents@, i as int).len(),
            forall|k: int|
                0 <= k < r@.len() ==> {
                    let j = #[trigger] kept_positions(contents@, i as int)[k];
                    is_reference_of(r@[k], files@[j].path@, contents@[j]->0@)
                },
        decreases files@.len() - i,
    {
        let made = files[i].create_reference(&contents[i]);
        let ghost before = kept_positions(contents@, i as int);
        match made {
            Some(rf) => {
                r.push(rf);
                assert(kept_positions(contents@, i + 1) == before.push(i as int));
            },
            None => {
                assert(kept_positions(contents@, i + 1) == before);
            },
        }
        i = i + 1;
    }
    r
}

/// Exactly the files that were read and are valid UTF-8 give references: one
/// that is not is left out, and does not keep any other from being made.
pub proof fn lemma_only_unusable_files_skipped(contents: Seq<Option<Vec<u8>>>, j: int)
    requires
        0 <= j < contents.len(),
    ensures
        kept_positions(contents, contents.len() as int).contains(j) <==> usable(contents[j]),
{
    lemma_kept_positions(contents, contents.len() as int, j);
}

proof fn lemma_kept_positions(contents: Seq<Option<Vec<u8>>>, n: int, j: int)
    requires
        0 <= n <= contents.len(),
    ensures
        kept_positions(contents, n).contains(j) <==> (0 <= j < n && usable(contents[j])),
        forall|k: int|
            0 <= k < kept_positions(contents, n).len() ==> 0 <= #[trigger] kept_positions(
                contents,
                n,
            )[k] < n,
    decreases n,
{
    if n > 0 {
        lemma_kept_positions(contents, n - 1, j);
        let p = kept_positions(contents, n - 1);
        if usable(contents[n - 1]) {
            assert(p.push(n - 1)[p.len() as int] == n - 1);
            if p.contains(j) {
                let k = choose|k: int| 0 <= k < p.len() && p[k] == j;
                assert(p.push(n - 1)[k] == j);
            }
            let q = p.push(n - 1);
            if q.contains(j) && j != n - 1 {
                let k = choose|k: int| 0 <= k < q.len() && #[trigger] q[k] == j;
                assert(p[k] == j);
            }
        }
    }
}

/// Turns paths into the files they stand for.
pub struct PathResolver {}

impl PathResolver {
    pub fn new() -> (r: PathResolver) {
        PathResolver {  }
    }

    /// The files a walked path stands for: the path itself where it is not a
    /// directory, the repository's list for a directory in a repository, and
    /// otherwise the files of each entry, recursively.
    pub fn extract_files(&self, node: &PathNode) -> (r: Vec<String>)
        ensures
            texts(r@) == files_of(*node),
        decreases node,
    {
        match node {
            PathNode::File { path } => {
                let mut r: Vec<String> = Vec::new();
                r.push(path.clone());
                assert(texts(r@) =~= seq![path@]);
                r
            },
            PathNode::Repo { files } => {
                let mut r: Vec<String> = Vec::new();
                let mut i: usize = 0;
                while i < files.len()
                    invariant
                        i <= files@.len(),
                        texts(r@) =~= texts(files@.take(i as int)),
                    decreases files@.len() - i,
                {
                    let ghost before = r@;
                    r.push(files[i].clone());
                    assert(files@.take(i + 1) =~= files@.take(i as int).push(files@[i as int]));
                    assert(texts(r@) =~= texts(before).push(files@[i as int]@));
                    assert(texts(files@.take(i + 1)) =~= texts(files@.take(i as int)).push(
                        files@[i as int]@,
                    ));
                    i = i + 1;
                }
                assert(files@.take(i as int) =~= files@);
                r
            },
            PathNode::Dir { entries } => {
                let mut r: Vec<String> = Vec::new();
                let mut i: usize = 0;
                while i < entries.len()
                    invariant
                        i <= entries@.len(),
                        *node is Dir,
                        node->Dir_entries == *entries,
                        texts(r@) == entries_files(entries@, i as int),
                    decreases entries@.len() - i,
                {
                    proof {
                        assert(decreases_to!(*node => entries@[i as int]));
                    }
                    let mut sub = self.extract_files(&entries[i]);
                    let ghost before = r@;
                    r.append(&mut sub);
                    assert(texts(r@) =~= texts(before) + files_of(entries@[i as int]));
                    i = i + 1;
                }
                r
            },
        }
    }

    /// Whether a path can be resolved: it is a directory or a regular file.
    pub fn should_resolve(&self, kind: PathKind) -> (r: bool)
        ensures
            r <==> (kind is Dir || kind is File),
    {
        match kind {
            PathKind::Dir => true,
            PathKind::File => true,
            PathKind::Other => false,
        }
    }

    /// One resolved path for each file that the walked path stands for, in
    /// the same order.
    pub fn resolve(&self, node: &PathNode) -> (r: Vec<ResolvedFilePath>)
        ensures
            r@.len() == files_of(*node).len(),
            forall|i: int| 0 <= i < r@.len() ==> (#[trigger] r@[i]).path@ == files_of(*node)[i],
    {
        let files = self.extract_files(node);
        let mut r: Vec<ResolvedFilePath> = Vec::new();
        let mut i: usize = 0;
        while i < files.len()
            invariant
                i <= files@.len(),
                texts(files@) == files_of(*node),
                r@.len() == i,
                forall|j: int| 0 <= j < i ==> (#[trigger] r@[j]).path@ == files@[j]@,
            decreases files@.len() - i,
        {
            r.push(ResolvedFilePath { path: files[i].clone() });
            i = i + 1;
        }
        r
    }
}

} // verus!
