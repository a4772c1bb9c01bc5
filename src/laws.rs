//! Properties of the traversal, stated over its mathematical model.
use vstd::prelude::*;
use crate::pattern::{any_finds, regex_finds};
use crate::tree::{DirNode, Entry, FileNode, scan_outcome};
use crate::walk::{Report, Settings, dir_report, dirs_in, empty_report, entries_report, entry_report, file_report, is_hidden, join, name_selected};

verus! {

broadcast use vstd::seq::group_seq_axioms;

proof fn join_assoc(a: Report, b: Report, c: Report)
    ensures
        join(join(a, b), c) == join(a, join(b, c)),
{
    assert(join(join(a, b), c).files =~= join(a, join(b, c)).files);
    assert(join(join(a, b), c).denied =~= join(a, join(b, c)).denied);
    assert(join(join(a, b), c).log =~= join(a, join(b, c)).log);
}

proof fn join_empty(a: Report)
    ensures
        join(a, empty_report()) == a,
        join(empty_report(), a) == a,
{
    assert(join(a, empty_report()).files =~= a.files);
    assert(join(a, empty_report()).denied =~= a.denied);
    assert(join(a, empty_report()).log =~= a.log);
    assert(join(empty_report(), a).files =~= a.files);
    assert(join(empty_report(), a).denied =~= a.denied);
    assert(join(empty_report(), a).log =~= a.log);
}

/// A directory that cannot be listed is walked once, with no walk below it.
pub proof fn unlistable_dir_walked_once(d: DirNode)
    requires
        !(d.listing is Entries),
    ensures
        dirs_in(d) == 1,
{
}

/// The report of two runs of entries listed one after the other is the report
/// of the first followed by that of the second: matched files, denied
/// directories and error text are concatenated in order.
pub proof fn entries_concat(es1: Seq<Entry>, es2: Seq<Entry>, cfg: Settings)
    ensures
        entries_report(es1 + es2, cfg) == join(entries_report(es1, cfg), entries_report(es2, cfg)),
    decreases es2.len(),
{
    if es2.len() == 0 {
        assert(es1 + es2 =~= es1);
        join_empty(entries_report(es1, cfg));
    } else {
        assert((es1 + es2).drop_last() =~= es1 + es2.drop_last());
        assert((es1 + es2).last() == es2.last());
        entries_concat(es1, es2.drop_last(), cfg);
        join_assoc(entries_report(es1, cfg), entries_report(es2.drop_last(), cfg), entry_report(es2.last(), cfg));
    }
}

/// In a directory whose listing is some files followed by the subdirectories
/// `c1` and `c2`, the matched files are those of its own files, then those
/// under `c1`, then those under `c2`.
pub proof fn children_concat(d: DirNode, own: Seq<Entry>, c1: DirNode, c2: DirNode, cfg: Settings)
    requires
        d.listing is Entries,
        d.listing->Entries_0@ == own + seq![Entry::Dir(c1), Entry::Dir(c2)],
    ensures
        dir_report(d, cfg).files == entries_report(own, cfg).files + dir_report(c1, cfg).files
            + dir_report(c2, cfg).files,
{
    let tail = seq![Entry::Dir(c1), Entry::Dir(c2)];
    entries_concat(own, tail, cfg);
    assert(tail.drop_last() =~= seq![Entry::Dir(c1)]);
    assert(seq![Entry::Dir(c1)].drop_last() =~= Seq::<Entry>::empty());
    assert(tail.last() == Entry::Dir(c2));
    assert(seq![Entry::Dir(c1)].last() == Entry::Dir(c1));
    assert(entries_report(Seq::<Entry>::empty(), cfg) == empty_report());
    join_empty(entry_report(Entry::Dir(c1), cfg));
    assert(entries_report(seq![Entry::Dir(c1)], cfg) == entry_report(Entry::Dir(c1), cfg));
    assert(entries_report(tail, cfg) == join(entry_report(Entry::Dir(c1), cfg), entry_report(Entry::Dir(c2), cfg)));
    assert(entries_report(tail, cfg).files =~= dir_report(c1, cfg).files + dir_report(c2, cfg).files);
}

/// The walk depends on nothing but the snapshot and the settings: walking
/// the same tree twice gives the same files, in the same order, and the same
/// errors.
pub proof fn walk_repeatable(d1: DirNode, d2: DirNode, cfg1: Settings, cfg2: Settings)
    requires
        d1 == d2,
        cfg1 == cfg2,
    ensures
        dir_report(d1, cfg1) == dir_report(d2, cfg2),
{
}

/// Without the hidden flag, a file whose name starts with `.` is never
/// selected by name; only a matching line can select it.
pub proof fn hidden_file_excluded(f: FileNode, cfg: Settings)
    requires
        f.name is Some,
        is_hidden(f.name->0@),
        !cfg.include_hidden,
        !(cfg.content_search && scan_outcome(f.content, cfg.filters) == Ok::<bool, Seq<char>>(true)),
    ensures
        !name_selected(cfg, f.name->0@),
        file_report(f, cfg).files.len() == 0,
{
}

/// With the hidden flag, a file whose name starts with `.` is selected as
/// any other name that passes the filters and is not excluded.
pub proof fn hidden_file_included(f: FileNode, cfg: Settings)
    requires
        f.name is Some,
        cfg.include_hidden,
        cfg.filters.len() == 0 || any_finds(cfg.filters, f.name->0@),
        !(cfg.exclude matches Some(x) && regex_finds(x, f.name->0@)),
    ensures
        name_selected(cfg, f.name->0@),
        file_report(f, cfg).files == seq![f.path@],
{
}

/// A name the exclude pattern matches is not selected by name, whatever the
/// filters; the file stays out unless one of its lines selects it.
pub proof fn exclude_overrides_filters(f: FileNode, cfg: Settings)
    requires
        f.name is Some,
        cfg.exclude matches Some(x) && regex_finds(x, f.name->0@),
        !(cfg.content_search && scan_outcome(f.content, cfg.filters) == Ok::<bool, Seq<char>>(true)),
    ensures
        !name_selected(cfg, f.name->0@),
        file_report(f, cfg).files.len() == 0,
{
}

/// With content search on, a file with a line that a filter matches is
/// selected, whatever its name.
pub proof fn content_selects(f: FileNode, cfg: Settings)
    requires
        f.name is Some,
        cfg.content_search,
        scan_outcome(f.content, cfg.filters) == Ok::<bool, Seq<char>>(true),
    ensures
        file_report(f, cfg).files == seq![f.path@],
{
}

/// A subdirectory that cannot be opened for lack of permission adds its path
/// to the denied list and nothing else: no file, no generic error, no text.
pub proof fn denied_dir_isolated(d: DirNode, cfg: Settings)
    requires
        d.listing is Denied,
    ensures
        entry_report(Entry::Dir(d), cfg) == (Report {
            files: Seq::empty(),
            denied: seq![d.path@],
            failed: false,
            log: Seq::empty(),
        }),
{
}

/// With no filters, a name is selected by name exactly when the hidden rule
/// lets it through and the exclude pattern does not match it.
pub proof fn no_filters_name_rule(cfg: Settings, name: Seq<char>)
    requires
        cfg.filters.len() == 0,
    ensures
        name_selected(cfg, name) == ((cfg.include_hidden || !is_hidden(name)) && !(cfg.exclude matches Some(x)
            && regex_finds(x, name))),
{
}

} // verus!
