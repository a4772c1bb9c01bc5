//! The traversal: selection of files by name and content, and the bottom-up
//! aggregation of matches and errors over a directory snapshot.
use vstd::prelude::*;
use vstd::string::*;
use crate::pattern::{Matcher, any_match, any_finds, compile_all, compiled, sources, texts, regex_finds, anchored, regex_compiles};
use crate::tree::{DirNode, Entry, FileNode, Listing, scan_content, scan_outcome};

verus! {

broadcast use vstd::std_specs::vec::group_vec_axioms, vstd::seq::group_seq_axioms;

/// The settings of one search, fixed for the whole run.
pub struct SearchConfig {
    /// Names this matches are never selected by name.
    pub exclude: Option<Matcher>,
    /// Name filters, also used on lines when content search is on; none means
    /// every name passes.
    pub filters: Vec<Matcher>,
    /// Whether names starting with `.` may be selected by name.
    pub include_hidden: bool,
    /// Whether a file may also be selected by one of its lines.
    pub content_search: bool,
}

/// The mathematical form of a `SearchConfig`.
pub struct Settings {
    pub exclude: Option<Seq<char>>,
    pub filters: Seq<Seq<char>>,
    pub include_hidden: bool,
    pub content_search: bool,
}

impl View for SearchConfig {
    type V = Settings;

    open spec fn view(&self) -> Settings {
        Settings {
            exclude: match self.exclude {
                Some(m) => Some(m@),
                None => None,
            },
            filters: sources(self.filters@),
            include_hidden: self.include_hidden,
            content_search: self.content_search,
        }
    }
}

/// What a traversal found.
pub struct TraversalResult {
    /// Paths of the selected files, depth first, in listing order.
    pub files: Vec<String>,
    /// Directories that could not be opened for lack of permission.
    pub denied: Vec<String>,
    /// Whether any other error occurred.
    pub other_error: bool,
    /// The text of those other errors.
    pub errors: String,
}

/// The mathematical form of a `TraversalResult`.
pub struct Report {
    pub files: Seq<Seq<char>>,
    pub denied: Seq<Seq<char>>,
    pub failed: bool,
    pub log: Seq<char>,
}

impl View for TraversalResult {
    type V = Report;

    open spec fn view(&self) -> Report {
        Report {
            files: texts(self.files@),
            denied: texts(self.denied@),
            failed: self.other_error,
            log: self.errors@,
        }
    }
}

/// A report with nothing in it.
pub open spec fn empty_report() -> Report {
    Report { files: Seq::empty(), denied: Seq::empty(), failed: false, log: Seq::empty() }
}

/// A report holding one generic error.
pub open spec fn error_report(msg: Seq<char>) -> Report {
    Report { files: Seq::empty(), denied: Seq::empty(), failed: true, log: msg }
}

/// The report of `a` followed by that of `b`.
pub open spec fn join(a: Report, b: Report) -> Report {
    Report {
        files: a.files + b.files,
        denied: a.denied + b.denied,
        failed: a.failed || b.failed,
        log: a.log + b.log,
    }
}

/// A subdirectory's report as its parent takes it in: a non-empty error text
/// gets a line break after it.
pub open spec fn nested(r: Report) -> Report {
    Report {
        files: r.files,
        denied: r.denied,
        failed: r.failed,
        log: if r.log.len() == 0 { r.log } else { r.log + "\n"@ },
    }
}

pub open spec fn is_hidden(name: Seq<char>) -> bool {
    name.len() > 0 && name[0] == '.'
}

/// Whether a file is selected by its base name alone.
pub open spec fn name_selected(cfg: Settings, name: Seq<char>) -> bool {
    &&& cfg.include_hidden || !is_hidden(name)
    &&& cfg.filters.len() == 0 || any_finds(cfg.filters, name)
    &&& !(cfg.exclude matches Some(x) && regex_finds(x, name))
}

/// The report of one file entry.
pub open spec fn file_report(f: FileNode, cfg: Settings) -> Report {
    match f.name {
        None => empty_report(),
        Some(n) => {
            let scan = scan_outcome(f.content, cfg.filters);
            let by_content = cfg.content_search && scan == Ok::<bool, Seq<char>>(true);
            let log = if cfg.content_search && scan is Err {
                "Error reading file "@ + f.path@ + ": "@ + scan->Err_0 + "\n"@
            } else {
                Seq::empty()
            };
            Report {
                files: if name_selected(cfg, n@) || by_content { seq![f.path@] } else { Seq::empty() },
                denied: Seq::empty(),
                failed: cfg.content_search && scan is Err,
                log,
            }
        },
    }
}

/// The report of a directory: the outcome of opening it, or the reports of
/// its entries in order.
pub open spec fn dir_report(d: DirNode, cfg: Settings) -> Report
    decreases d,
{
    match d.listing {
        Listing::Denied => Report {
            files: Seq::empty(),
            denied: seq![d.path@],
            failed: false,
            log: Seq::empty(),
        },
        Listing::LookupFailed(c) => error_report("Error accessing "@ + d.path@ + ": "@ + c@),
        Listing::NotDir => error_report("Error: "@ + d.path@ + " is not a directory"@),
        Listing::ListFailed(c) => error_report("Error reading directory "@ + d.path@ + ": "@ + c@),
        Listing::Entries(v) => entries_report(v@, cfg),
    }
}

/// The joined reports of a run of entries.
pub open spec fn entries_report(es: Seq<Entry>, cfg: Settings) -> Report
    decreases es,
{
    if es.len() == 0 {
        empty_report()
    } else {
        join(entries_report(es.drop_last(), cfg), entry_report(es.last(), cfg))
    }
}

/// The report of one entry.
pub open spec fn entry_report(e: Entry, cfg: Settings) -> Report
    decreases e,
{
    match e {
        Entry::Broken(c) => error_report("Error accessing entry: "@ + c@ + "\n"@),
        Entry::Dir(d) => nested(dir_report(d, cfg)),
        Entry::File(f) => file_report(f, cfg),
    }
}

/// The exclude pattern's expression, when it compiles.
pub open spec fn compiled_exclude(p: Option<Seq<char>>) -> Option<Seq<char>> {
    match p {
        Some(x) => if regex_compiles(anchored(x)) { Some(anchored(x)) } else { None },
        None => None,
    }
}

impl SearchConfig {
    /// Compiles the exclude pattern and the filters; patterns that do not
    /// compile are dropped.
    pub fn new(exclude: Option<String>, filters: &Vec<String>, include_hidden: bool, content_search: bool) -> (r: SearchConfig)
        ensures
            r@.exclude == compiled_exclude(match exclude { Some(x) => Some(x@), None => None }),
            r@.filters == compiled(texts(filters@)),
            r@.include_hidden == include_hidden,
            r@.content_search == content_search,
    {
        let ex = match &exclude {
            Some(x) => Matcher::compile(x.as_str()),
            None => None,
        };
        SearchConfig { exclude: ex, filters: compile_all(filters), include_hidden, content_search }
    }

    /// Whether a file with this base name is selected by name.
    pub fn name_matches(&self, name: &str) -> (r: bool)
        ensures
            r == name_selected(self@, name@),
    {
        let hidden_ok = self.include_hidden || name.unicode_len() == 0 || name.get_char(0) != '.';
        if !hidden_ok {
            return false;
        }
        if self.filters.len() > 0 && !any_match(&self.filters, name) {
            return false;
        }
        match &self.exclude {
            Some(m) => !m.is_match(name),
            None => true,
        }
    }
}

/// The four texts one after the other.
fn message(a: &str, b: &str, c: &str, d: &str) -> (r: String)
    ensures
        r@ == a@ + b@ + c@ + d@,
{
    let mut r = String::from_str(a);
    r.append(b);
    r.append(c);
    r.append(d);
    r
}

impl TraversalResult {
    pub fn new() -> (r: TraversalResult)
        ensures
            r@ == empty_report(),
    {
        let r = TraversalResult { files: Vec::new(), denied: Vec::new(), other_error: false, errors: String::new() };
        proof {
            assert(texts(r.files@) =~= Seq::<Seq<char>>::empty());
            assert(texts(r.denied@) =~= Seq::<Seq<char>>::empty());
        }
        r
    }

    fn error(msg: String) -> (r: TraversalResult)
        ensures
            r@ == error_report(msg@),
    {
        let r = TraversalResult { files: Vec::new(), denied: Vec::new(), other_error: true, errors: msg };
        proof {
            assert(texts(r.files@) =~= Seq::<Seq<char>>::empty());
            assert(texts(r.denied@) =~= Seq::<Seq<char>>::empty());
        }
        r
    }

    /// Appends `other` after what this result holds.
    pub fn absorb(&mut self, other: TraversalResult)
        ensures
            final(self)@ == join(old(self)@, other@),
    {
        let mut other = other;
        let ghost f0 = self.files@;
        let ghost d0 = self.denied@;
        let ghost f1 = other.files@;
        let ghost d1 = other.denied@;
        self.files.append(&mut other.files);
        self.denied.append(&mut other.denied);
        self.other_error = self.other_error || other.other_error;
        self.errors.append(other.errors.as_str());
        proof {
            assert(texts(f0 + f1) =~= texts(f0) + texts(f1));
            assert(texts(d0 + d1) =~= texts(d0) + texts(d1));
        }
    }
}

/// Applies the selection rules to one file entry.
pub fn visit_file(f: &FileNode, cfg: &SearchConfig) -> (r: TraversalResult)
    ensures
        r@ == file_report(*f, cfg@),
{
    let mut r = TraversalResult::new();
    match &f.name {
        None => {},
        Some(n) => {
            let by_name = cfg.name_matches(n.as_str());
            let mut by_content = false;
            if cfg.content_search {
                match scan_content(&f.content, &cfg.filters) {
                    Ok(b) => {
                        by_content = b;
                    },
                    Err(e) => {
                        r.other_error = true;
                        r.errors = message("Error reading file ", f.path.as_str(), ": ", e.as_str());
                        r.errors.append("\n");
                    },
                }
            }
            if by_name || by_content {
                r.files.push(f.path.clone());
                proof {
                    assert(texts(r.files@) =~= seq![f.path@]);
                }
            }
        },
    }
    proof {
        assert(texts(r.files@) =~= file_report(*f, cfg@).files);
        assert(texts(r.denied@) =~= Seq::<Seq<char>>::empty());
    }
    r
}

/// The number of directories in a snapshot: the root and every
/// subdirectory listed under it, however deep.
pub open spec fn dirs_in(d: DirNode) -> nat
    decreases d,
{
    match d.listing {
        Listing::Entries(v) => 1 + entries_dirs(v@),
        _ => 1,
    }
}

pub open spec fn entries_dirs(es: Seq<Entry>) -> nat
    decreases es,
{
    if es.len() == 0 {
        0
    } else {
        entries_dirs(es.drop_last()) + entry_dirs(es.last())
    }
}

pub open spec fn entry_dirs(e: Entry) -> nat
    decreases e,
{
    match e {
        Entry::Dir(d) => dirs_in(d),
        _ => 0,
    }
}

/// Walks one entry: a broken entry is a generic error, a subdirectory is
/// walked in turn, a file goes through the selection rules. The ghost count
/// is the number of directory walks this made.
fn visit_entry(e: &Entry, cfg: &SearchConfig) -> (r: (TraversalResult, Ghost<nat>))
    ensures
        r.0@ == entry_report(*e, cfg@),
        r.1@ == entry_dirs(*e),
    decreases e,
{
    match e {
        Entry::Broken(c) => {
            let mut m = message("Error accessing entry: ", c.as_str(), "", "");
            m.append("\n");
            proof {
                reveal_strlit("");
                assert(m@ =~= "Error accessing entry: "@ + c@ + "\n"@);
            }
            (TraversalResult::error(m), Ghost(0))
        },
        Entry::Dir(d) => {
            let (mut r, calls) = walk_counted(d, cfg);
            if !r.errors.as_str().is_empty() {
                r.errors.append("\n");
            }
            (r, calls)
        },
        Entry::File(f) => (visit_file(f, cfg), Ghost(0)),
    }
}

/// Walks a directory snapshot: the outcome of opening it, or the results of
/// its entries joined in listing order. Each call counts itself once in the
/// ghost count, which ends equal to the number of directories in the
/// snapshot: one walk per directory visited, and a single one when the root
/// cannot be listed.
pub fn walk_counted(dir: &DirNode, cfg: &SearchConfig) -> (r: (TraversalResult, Ghost<nat>))
    ensures
        r.0@ == dir_report(*dir, cfg@),
        r.1@ == dirs_in(*dir),
    decreases dir,
{
    let ghost calls: nat = 1;
    match &dir.listing {
        Listing::Denied => {
            let mut r = TraversalResult::new();
            r.denied.push(dir.path.clone());
            proof {
                assert(texts(r.denied@) =~= seq![dir.path@]);
            }
            (r, Ghost(calls))
        },
        Listing::LookupFailed(c) => {
            let r = TraversalResult::error(message("Error accessing ", dir.path.as_str(), ": ", c.as_str()));
            (r, Ghost(calls))
        },
        Listing::NotDir => {
            let m = message("Error: ", dir.path.as_str(), " is not a directory", "");
            proof {
                reveal_strlit("");
                assert(m@ =~= "Error: "@ + dir.path@ + " is not a directory"@);
            }
            (TraversalResult::error(m), Ghost(calls))
        },
        Listing::ListFailed(c) => {
            let r = TraversalResult::error(message("Error reading directory ", dir.path.as_str(), ": ", c.as_str()));
            (r, Ghost(calls))
        },
        Listing::Entries(v) => {
            let mut acc = TraversalResult::new();
            let mut i: usize = 0;
            while i < v.len()
                invariant
                    i <= v.len(),
                    dir.listing == Listing::Entries(*v),
                    acc@ == entries_report(v@.subrange(0, i as int), cfg@),
                    calls == 1 + entries_dirs(v@.subrange(0, i as int)),
                decreases v.len() - i,
            {
                proof {
                    assert(v@.subrange(0, i + 1).drop_last() =~= v@.subrange(0, i as int));
                    assert(decreases_to!(*dir => dir.listing));
                    assert(dir.listing->Entries_0 == *v);
                    assert(decreases_to!(dir.listing => dir.listing->Entries_0));
                    assert(decreases_to!(*v => v@));
                    assert(decreases_to!(v@ => v@[i as int]));
                }
                let (r, sub) = visit_entry(&v[i], cfg);
                acc.absorb(r);
                proof {
                    calls = calls + sub@;
                }
                i = i + 1;
            }
            proof {
                assert(v@.subrange(0, v@.len() as int) =~= v@);
            }
            (acc, Ghost(calls))
        },
    }
}

/// Walks a directory snapshot: the outcome of opening it, or the results of
/// its entries joined in listing order.
pub fn walk(dir: &DirNode, cfg: &SearchConfig) -> (r: TraversalResult)
    ensures
        r@ == dir_report(*dir, cfg@),
{
    walk_counted(dir, cfg).0
}

/// The report of several roots searched one after the other.
pub open spec fn roots_report(roots: Seq<DirNode>, cfg: Settings) -> Report
    decreases roots.len(),
{
    if roots.len() == 0 {
        empty_report()
    } else {
        join(roots_report(roots.drop_last(), cfg), nested(dir_report(roots.last(), cfg)))
    }
}

/// The roots to search: the given ones in order, or the current directory
/// when none is given.
pub fn resolve_roots(dirs: Vec<String>, more: Vec<String>) -> (r: Vec<String>)
    ensures
        texts(r@) == if dirs@.len() + more@.len() == 0 {
            seq![seq!['.']]
        } else {
            texts(dirs@ + more@)
        },
{
    let mut dirs = dirs;
    let mut more = more;
    let ghost all = dirs@ + more@;
    dirs.append(&mut more);
    if dirs.len() == 0 {
        let here = String::from_str(".");
        proof {
            reveal_strlit(".");
            assert(here@ =~= seq!['.']);
        }
        dirs.push(here);
        proof {
            assert(texts(dirs@) =~= seq![seq!['.']]);
        }
    }
    dirs
}

/// Searches each root in turn and concatenates the results; each root's
/// non-empty error text is followed by a line break.
pub fn search(roots: &Vec<DirNode>, cfg: &SearchConfig) -> (r: TraversalResult)
    ensures
        r@ == roots_report(roots@, cfg@),
{
    let mut acc = TraversalResult::new();
    let mut i: usize = 0;
    while i < roots.len()
        invariant
            i <= roots.len(),
            acc@ == roots_report(roots@.subrange(0, i as int), cfg@),
        decreases roots.len() - i,
    {
        proof {
            assert(roots@.subrange(0, i + 1).drop_last() =~= roots@.subrange(0, i as int));
        }
        let mut r = walk(&roots[i], cfg);
        if !r.errors.as_str().is_empty() {
            r.errors.append("\n");
        }
        acc.absorb(r);
        i = i + 1;
    }
    proof {
        assert(roots@.subrange(0, roots@.len() as int) =~= roots@);
    }
    acc
}

} // verus!
