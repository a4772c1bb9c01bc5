//! Wildcard patterns: `*` stands for any run of characters, and a pattern
//! must match the whole candidate string.
use vstd::prelude::*;
use vstd::string::*;

verus! {

/// `regex::Regex`, carried opaque inside a `Matcher`.
#[verifier::external_type_specification]
#[verifier::external_body]
pub struct ExRegex(regex::Regex);

/// Whether `regex::Regex::new` accepts the regular expression `src`.
pub uninterp spec fn regex_compiles(src: Seq<char>) -> bool;

/// Whether the regular expression `src`, once compiled, finds a match in `hay`.
pub uninterp spec fn regex_finds(src: Seq<char>, hay: Seq<char>) -> bool;

/// The characters that have a meaning of their own in a regular expression.
pub open spec fn is_meta(c: char) -> bool {
    c == '\\' || c == '.' || c == '+' || c == '*' || c == '?' || c == '(' || c == ')' || c == '|'
        || c == '[' || c == ']' || c == '{' || c == '}' || c == '^' || c == '$' || c == '#' || c == '&'
        || c == '-' || c == '~'
}

/// A character as a literal in a regular expression.
pub open spec fn literal(c: char) -> Seq<char> {
    if is_meta(c) {
        seq!['\\', c]
    } else {
        seq![c]
    }
}

/// A text as a literal in a regular expression: each character that has a
/// meaning of its own gets a backslash before it.
pub open spec fn escaped(s: Seq<char>) -> Seq<char>
    decreases s.len(),
{
    if s.len() == 0 {
        Seq::empty()
    } else {
        escaped(s.drop_last()) + literal(s.last())
    }
}

/// The wildcard expansion of a pattern: each `*` becomes `.*`, every other
/// character becomes a literal.
pub open spec fn star_expand(p: Seq<char>) -> Seq<char>
    decreases p.len(),
{
    if p.len() == 0 {
        Seq::empty()
    } else if p.last() == '*' {
        star_expand(p.drop_last()) + seq!['.', '*']
    } else {
        star_expand(p.drop_last()) + literal(p.last())
    }
}

/// The regular expression a pattern compiles to: the expansion, anchored at
/// both ends.
pub open spec fn anchored(p: Seq<char>) -> Seq<char> {
    seq!['^'] + star_expand(p) + seq!['$']
}

/// A compiled wildcard pattern.
pub struct Matcher {
    source: String,
    re: regex::Regex,
}

impl View for Matcher {
    type V = Seq<char>;

    /// The regular expression this matcher was compiled from.
    closed spec fn view(&self) -> Seq<char> {
        self.source@
    }
}

/// Relies on `regex::Regex::new`: it returns `Ok` exactly when `src` is a
/// regular expression it accepts. The matcher keeps `src` beside the compiled
/// regex, and this is the only place a `Matcher` is built.
#[verifier::external_body]
fn compile_regex(src: String) -> (r: Option<Matcher>)
    ensures
        r.is_some() == regex_compiles(src@),
        r matches Some(m) ==> m@ == src@,
{
    regex::Regex::new(&src).ok().map(|re| Matcher { source: src, re })
}

/// Relies on `regex::Regex::is_match`: whether the compiled regex matches
/// somewhere in `hay`, which depends on the regex's source and `hay` alone.
#[verifier::external_body]
fn regex_is_match(m: &Matcher, hay: &str) -> (r: bool)
    ensures
        r == regex_finds(m@, hay@),
{
    m.re.is_match(hay)
}

/// Relies on `regex::escape`: it puts a backslash before each character for
/// which `regex_syntax::is_meta_character` holds and keeps every other one.
#[verifier::external_body]
fn regex_escape(s: &str) -> (r: String)
    ensures
        r@ == escaped(s@),
{
    regex::escape(s)
}

/// Builds the anchored regular expression for a wildcard pattern.
pub fn anchored_source(pattern: &str) -> (r: String)
    ensures
        r@ == anchored(pattern@),
{
    let n = pattern.unicode_len();
    let mut out = String::from_str("^");
    proof {
        reveal_strlit("^");
    }
    let mut i: usize = 0;
    while i < n
        invariant
            n == pattern@.len(),
            i <= n,
            out@ == seq!['^'] + star_expand(pattern@.subrange(0, i as int)),
        decreases n - i,
    {
        let c = pattern.get_char(i);
        proof {
            assert(pattern@.subrange(0, i + 1).drop_last() == pattern@.subrange(0, i as int));
        }
        if c == '*' {
            out.append(".*");
            proof {
                reveal_strlit(".*");
                assert(seq!['^'] + star_expand(pattern@.subrange(0, i + 1)) =~= seq!['^']
                    + star_expand(pattern@.subrange(0, i as int)) + seq!['.', '*']);
            }
        } else {
            let lit = regex_escape(pattern.substring_char(i, i + 1));
            proof {
                assert(pattern@.subrange(i as int, i + 1) =~= seq![c]);
                assert(seq![c].drop_last() =~= Seq::<char>::empty());
                assert(seq![c].last() == c);
                assert(escaped(Seq::<char>::empty()) == Seq::<char>::empty());
                assert(escaped(seq![c]) == escaped(Seq::<char>::empty()) + literal(c));
                assert(escaped(seq![c]) =~= literal(c));
            }
            out.append(lit.as_str());
            proof {
                assert(seq!['^'] + star_expand(pattern@.subrange(0, i + 1)) =~= seq!['^']
                    + star_expand(pattern@.subrange(0, i as int)) + literal(c));
            }
        }
        i = i + 1;
    }
    out.append("$");
    proof {
        reveal_strlit("$");
        assert(pattern@.subrange(0, n as int) =~= pattern@);
    }
    out
}

impl Matcher {
    /// Compiles a wildcard pattern; `None` when the regex engine refuses the
    /// anchored expansion.
    pub fn compile(pattern: &str) -> (r: Option<Matcher>)
        ensures
            r.is_some() == regex_compiles(anchored(pattern@)),
            r matches Some(m) ==> m@ == anchored(pattern@),
    {
        compile_regex(anchored_source(pattern))
    }

    /// Whether the pattern matches `s`.
    pub fn is_match(&self, s: &str) -> (r: bool)
        ensures
            r == regex_finds(self@, s@),
    {
        regex_is_match(self, s)
    }
}

/// The regular expressions held by a sequence of matchers.
pub open spec fn sources(ms: Seq<Matcher>) -> Seq<Seq<char>> {
    ms.map_values(|m: Matcher| m@)
}

/// The anchored expressions of those patterns that compile, in order; the
/// others are dropped.
pub open spec fn compiled(ps: Seq<Seq<char>>) -> Seq<Seq<char>>
    decreases ps.len(),
{
    if ps.len() == 0 {
        Seq::empty()
    } else if regex_compiles(anchored(ps.last())) {
        compiled(ps.drop_last()).push(anchored(ps.last()))
    } else {
        compiled(ps.drop_last())
    }
}

/// Whether any of the expressions finds a match in `s`; false when there are none.
pub open spec fn any_finds(srcs: Seq<Seq<char>>, s: Seq<char>) -> bool {
    exists|i: int| 0 <= i < srcs.len() && regex_finds(#[trigger] srcs[i], s)
}

/// The views of a sequence of strings.
pub open spec fn texts(v: Seq<String>) -> Seq<Seq<char>> {
    v.map_values(|s: String| s@)
}

/// Compiles each pattern, silently dropping those that do not compile.
pub fn compile_all(patterns: &Vec<String>) -> (r: Vec<Matcher>)
    ensures
        sources(r@) == compiled(texts(patterns@)),
{
    let mut out: Vec<Matcher> = Vec::new();
    let mut i: usize = 0;
    while i < patterns.len()
        invariant
            i <= patterns.len(),
            sources(out@) == compiled(texts(patterns@.subrange(0, i as int))),
        decreases patterns.len() - i,
    {
        let ghost pre = texts(patterns@.subrange(0, i + 1));
        proof {
            assert(pre.drop_last() =~= texts(patterns@.subrange(0, i as int)));
            assert(pre.last() == patterns@[i as int]@);
        }
        match Matcher::compile(patterns[i].as_str()) {
            Some(m) => {
                out.push(m);
                proof {
                    assert(sources(out@) =~= compiled(pre));
                }
            },
            None => {},
        }
        i = i + 1;
    }
    proof {
        assert(patterns@.subrange(0, patterns@.len() as int) =~= patterns@);
    }
    out
}

/// Whether any of the matchers matches `s`.
pub fn any_match(ms: &Vec<Matcher>, s: &str) -> (r: bool)
    ensures
        r == any_finds(sources(ms@), s@),
{
    let mut i: usize = 0;
    while i < ms.len()
        invariant
            i <= ms.len(),
            forall|j: int| 0 <= j < i ==> !regex_finds(#[trigger] sources(ms@)[j], s@),
        decreases ms.len() - i,
    {
        if ms[i].is_match(s) {
            assert(regex_finds(sources(ms@)[i as int], s@));
            return true;
        }
        i = i + 1;
    }
    false
}

} // verus!
