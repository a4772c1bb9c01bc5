//! A snapshot of a directory tree as the filesystem reported it: what came
//! of opening each directory, each entry met while listing it, and the lines
//! of each file.
use vstd::prelude::*;
use vstd::string::*;
use crate::pattern::{Matcher, any_match, any_finds, sources, texts};

verus! {

/// What came of opening a directory and listing it.
pub enum Listing {
    /// Looking the path up, or listing it, was refused for lack of permission.
    Denied,
    /// Looking the path up failed for another reason, given as text.
    LookupFailed(String),
    /// The path exists but is not a directory.
    NotDir,
    /// Listing the directory failed for another reason, given as text.
    ListFailed(String),
    /// The entries, in the order the filesystem listed them.
    Entries(Vec<Entry>),
}

/// One entry of a directory listing.
pub enum Entry {
    /// Reading the entry itself failed, for the reason given as text.
    Broken(String),
    /// A subdirectory.
    Dir(DirNode),
    /// Anything that is not a directory.
    File(FileNode),
}

/// A directory path together with what came of listing it.
pub struct DirNode {
    pub path: String,
    pub listing: Listing,
}

/// A file entry.
pub struct FileNode {
    /// The entry's full path.
    pub path: String,
    /// Its base name, when that is valid text.
    pub name: Option<String>,
    /// Its lines; only consulted when content search is on.
    pub content: FileContent,
}

/// The lines of a file, read up to the first failure, if any.
pub struct FileContent {
    /// The lines read, without their line endings.
    pub lines: Vec<String>,
    /// Why reading stopped before the end of the file.
    pub failure: Option<String>,
}

/// Whether some line is matched in full by one of the expressions.
pub open spec fn some_line_found(lines: Seq<Seq<char>>, srcs: Seq<Seq<char>>) -> bool {
    exists|i: int| 0 <= i < lines.len() && any_finds(srcs, #[trigger] lines[i])
}

/// The outcome of scanning a file's lines: found as soon as one line is
/// matched, the read failure if none is and reading failed, else not found.
pub open spec fn scan_outcome(c: FileContent, srcs: Seq<Seq<char>>) -> Result<bool, Seq<char>> {
    if some_line_found(texts(c.lines@), srcs) {
        Ok(true)
    } else if c.failure is Some {
        Err(c.failure->0@)
    } else {
        Ok(false)
    }
}

/// Scans a file's lines for one that a filter matches.
pub fn scan_content(content: &FileContent, filters: &Vec<Matcher>) -> (r: Result<bool, String>)
    ensures
        r matches Ok(b) ==> scan_outcome(*content, sources(filters@)) == Ok::<bool, Seq<char>>(b),
        r matches Err(e) ==> scan_outcome(*content, sources(filters@)) == Err::<bool, Seq<char>>(e@),
{
    let ghost lines = texts(content.lines@);
    let mut i: usize = 0;
    while i < content.lines.len()
        invariant
            i <= content.lines.len(),
            lines == texts(content.lines@),
            forall|j: int| 0 <= j < i ==> !any_finds(sources(filters@), #[trigger] lines[j]),
        decreases content.lines.len() - i,
    {
        if any_match(filters, content.lines[i].as_str()) {
            assert(any_finds(sources(filters@), lines[i as int]));
            return Ok(true);
        }
        i = i + 1;
    }
    match &content.failure {
        Some(e) => Err(e.clone()),
        None => Ok(false),
    }
}

} // verus!
