//! File selection: listed paths filtered by include and exclude glob patterns.
use vstd::prelude::*;

verus! {

#[verifier::external_type_specification]
#[verifier::external_body]
pub struct ExPattern(glob::Pattern);

#[verifier::external_type_specification]
#[verifier::external_body]
pub struct ExPatternError(glob::PatternError);

/// Whether glob accepts `pattern` as a shell-style pattern.
pub uninterp spec fn glob_valid(pattern: Seq<char>) -> bool;

/// Whether the glob pattern `pattern` matches the whole of `path`.
pub uninterp spec fn glob_matches(pattern: Seq<char>, path: Seq<char>) -> bool;

/// Relies on glob::Pattern::new: it compiles a pattern or reports a syntax
/// error, depending on the pattern's text alone.
#[verifier::external_body]
fn compile_glob(text: &str) -> (r: Result<glob::Pattern, glob::PatternError>)
    ensures
        r is Ok <==> glob_valid(text@),
{
    glob::Pattern::new(text)
}

/// A compiled glob pattern together with the text it was compiled from.
/// Both fields are set once, from the same text, by `GlobPattern::new`.
#[derive(Debug)]
pub struct GlobPattern {
    text: String,
    compiled: glob::Pattern,
}

impl View for GlobPattern {
    type V = Seq<char>;

    closed spec fn view(&self) -> Seq<char> {
        self.text@
    }
}

/// Relies on glob::Pattern::matches: whether the pattern matches `path`,
/// depending on the pattern's text and the path alone. `p.compiled` is the
/// pattern that glob::Pattern::new made of `p.text`: `GlobPattern::new` is the
/// only place that sets either field.
#[verifier::external_body]
fn glob_match(p: &GlobPattern, path: &str) -> (r: bool)
    ensures
        r == glob_matches(p@, path@),
{
    p.compiled.matches(path)
}

/// A pattern that glob refused, kept with its text.
#[derive(Debug)]
pub struct InvalidPattern {
    pub text: String,
}

impl GlobPattern {
    /// Compiles `text`; fails exactly when glob refuses it.
    pub fn new(text: &str) -> (r: Result<GlobPattern, InvalidPattern>)
        ensures
            r is Ok <==> glob_valid(text@),
            r matches Ok(p) ==> p@ == text@,
            r matches Err(e) ==> e.text@ == text@,
    {
        match compile_glob(text) {
            Ok(compiled) => Ok(GlobPattern { text: String::from_str(text), compiled }),
            Err(_) => Err(InvalidPattern { text: String::from_str(text) }),
        }
    }

    /// The text the pattern was compiled from.
    pub fn as_str(&self) -> (r: &str)
        ensures
            r@ == self@,
    {
        self.text.as_str()
    }

    /// Whether the pattern matches `path`.
    pub fn matches(&self, path: &str) -> (r: bool)
        ensures
            r == glob_matches(self@, path@),
    {
        glob_match(self, path)
    }
}

/// The texts of a list of patterns.
pub open spec fn texts(pats: Seq<GlobPattern>) -> Seq<Seq<char>> {
    pats.map_values(|p: GlobPattern| p@)
}

/// The views of a list of strings.
pub open spec fn views(v: Seq<String>) -> Seq<Seq<char>> {
    v.map_values(|s: String| s@)
}

/// Some pattern of `pats` matches `path`.
pub open spec fn matches_any(pats: Seq<Seq<char>>, path: Seq<char>) -> bool {
    exists|i: int| 0 <= i < pats.len() && glob_matches(#[trigger] pats[i], path)
}

/// A path is selected when some include pattern matches it and no exclude
/// pattern does.
pub open spec fn is_selected(
    includes: Seq<Seq<char>>,
    excludes: Seq<Seq<char>>,
    path: Seq<char>,
) -> bool {
    matches_any(includes, path) && !matches_any(excludes, path)
}

/// The listed paths that are selected, in their original order.
pub open spec fn selection(
    listed: Seq<Seq<char>>,
    includes: Seq<Seq<char>>,
    excludes: Seq<Seq<char>>,
) -> Seq<Seq<char>> {
    listed.filter(|p: Seq<char>| is_selected(includes, excludes, p))
}

/// Compiles each text of `texts`, in order; the first one that glob refuses
/// is reported.
pub fn compile_patterns(texts_in: &Vec<String>) -> (r: Result<Vec<GlobPattern>, InvalidPattern>)
    ensures
        r is Ok <==> forall|i: int| 0 <= i < texts_in@.len() ==> glob_valid(#[trigger] texts_in@[i]@),
        r matches Ok(v) ==> texts(v@) == views(texts_in@),
        r matches Err(e) ==> exists|i: int|
            0 <= i < texts_in@.len() && !glob_valid(#[trigger] texts_in@[i]@) && e.text@
                == texts_in@[i]@ && forall|j: int| 0 <= j < i ==> glob_valid(#[trigger] texts_in@[j]@),
{
    let mut out: Vec<GlobPattern> = Vec::new();
    let mut i: usize = 0;
    while i < texts_in.len()
        invariant
            i <= texts_in@.len(),
            out@.len() == i,
            forall|j: int| 0 <= j < i ==> glob_valid(#[trigger] texts_in@[j]@),
            forall|j: int| 0 <= j < i ==> (#[trigger] out@[j])@ == texts_in@[j]@,
        decreases texts_in@.len() - i,
    {
        match GlobPattern::new(texts_in[i].as_str()) {
            Ok(p) => out.push(p),
            Err(e) => {
                assert(!glob_valid(texts_in@[i as int]@));
                return Err(e);
            },
        }
        i = i + 1;
    }
    assert(texts(out@) =~= views(texts_in@));
    Ok(out)
}

/// Whether some pattern of `pats` matches `path`.
pub fn any_matches(pats: &Vec<GlobPattern>, path: &str) -> (r: bool)
    ensures
        r == matches_any(texts(pats@), path@),
{
    let mut i: usize = 0;
    while i < pats.len()
        invariant
            i <= pats@.len(),
            forall|j: int| 0 <= j < i ==> !glob_matches(#[trigger] pats@[j]@, path@),
        decreases pats@.len() - i,
    {
        if pats[i].matches(path) {
            assert(texts(pats@)[i as int] == pats@[i as int]@);
            return true;
        }
        i = i + 1;
    }
    assert(!matches_any(texts(pats@), path@)) by {
        assert forall|j: int| 0 <= j < texts(pats@).len() implies !glob_matches(
            #[trigger] texts(pats@)[j],
            path@,
        ) by {
            assert(texts(pats@)[j] == pats@[j]@);
        }
    }
    false
}

/// Whether `path` is selected: matched by an include and by no exclude.
pub fn path_selected(includes: &Vec<GlobPattern>, excludes: &Vec<GlobPattern>, path: &str) -> (r:
    bool)
    ensures
        r == is_selected(texts(includes@), texts(excludes@), path@),
{
    any_matches(includes, path) && !any_matches(excludes, path)
}

/// The listed paths that are selected, in the order they were listed.
pub fn select_paths(
    listed: &Vec<String>,
    includes: &Vec<GlobPattern>,
    excludes: &Vec<GlobPattern>,
) -> (r: Vec<String>)
    ensures
        views(r@) == selection(views(listed@), texts(includes@), texts(excludes@)),
{
    let ghost inc = texts(includes@);
    let ghost exc = texts(excludes@);
    let ghost pred = |p: Seq<char>| is_selected(inc, exc, p);
    let mut out: Vec<String> = Vec::new();
    let mut i: usize = 0;
    while i < listed.len()
        invariant
            i <= listed@.len(),
            inc == texts(includes@),
            exc == texts(excludes@),
            pred == (|p: Seq<char>| is_selected(inc, exc, p)),
            views(out@) == views(listed@).subrange(0, i as int).filter(pred),
        decreases listed@.len() - i,
    {
        let ghost before = views(listed@).subrange(0, i as int);
        let ghost after = views(listed@).subrange(0, i as int + 1);
        assert(after.drop_last() =~= before);
        assert(after.last() == listed@[i as int]@);
        reveal(Seq::filter);
        if path_selected(includes, excludes, listed[i].as_str()) {
            out.push(listed[i].clone());
            assert(views(out@) =~= before.filter(pred).push(listed@[i as int]@));
        }
        i = i + 1;
    }
    assert(views(listed@).subrange(0, listed@.len() as int) =~= views(listed@));
    out
}

/// Matching some pattern of a list depends only on which patterns the list
/// holds, not on their order or repetition.
pub proof fn lemma_matches_any_same_set(a: Seq<Seq<char>>, b: Seq<Seq<char>>, path: Seq<char>)
    requires
        a.to_set() == b.to_set(),
    ensures
        matches_any(a, path) == matches_any(b, path),
{
    if matches_any(a, path) {
        let k = choose|k: int| 0 <= k < a.len() && glob_matches(#[trigger] a[k], path);
        assert(a.to_set().contains(a[k]));
        assert(b.contains(a[k]));
        let j = choose|j: int| 0 <= j < b.len() && b[j] == a[k];
        assert(glob_matches(b[j], path));
    }
    if matches_any(b, path) {
        let k = choose|k: int| 0 <= k < b.len() && glob_matches(#[trigger] b[k], path);
        assert(b.to_set().contains(b[k]));
        assert(a.contains(b[k]));
        let j = choose|j: int| 0 <= j < a.len() && a[j] == b[k];
        assert(glob_matches(a[j], path));
    }
}

/// A listed path is in the selection exactly when some include pattern
/// matches it and no exclude pattern does.
pub proof fn lemma_selection_membership(
    listed: Seq<Seq<char>>,
    includes: Seq<Seq<char>>,
    excludes: Seq<Seq<char>>,
    path: Seq<char>,
)
    ensures
        selection(listed, includes, excludes).contains(path) <==> (listed.contains(path)
            && is_selected(includes, excludes, path)),
{
    broadcast use vstd::seq_lib::group_filter_ensures;

    let pred = |p: Seq<char>| is_selected(includes, excludes, p);
    let out = listed.filter(pred);
    if out.contains(path) {
        let k = choose|k: int| 0 <= k < out.len() && out[k] == path;
        assert(pred(out[k]));
        lemma_filter_subset(listed, pred, k);
    }
    if listed.contains(path) && is_selected(includes, excludes, path) {
        let k = choose|k: int| 0 <= k < listed.len() && listed[k] == path;
        assert(out.contains(listed[k]));
    }
}

/// Every element of a filtered sequence comes from the original one.
proof fn lemma_filter_subset(s: Seq<Seq<char>>, pred: spec_fn(Seq<char>) -> bool, k: int)
    requires
        0 <= k < s.filter(pred).len(),
    ensures
        s.contains(s.filter(pred)[k]),
    decreases s.len(),
{
    reveal(Seq::filter);
    let sub = s.drop_last().filter(pred);
    if pred(s.last()) && k == sub.len() {
        assert(s[s.len() - 1] == s.last());
    } else {
        assert(s.filter(pred)[k] == sub[k]);
        lemma_filter_subset(s.drop_last(), pred, k);
        let j = choose|j: int| 0 <= j < s.drop_last().len() && s.drop_last()[j] == sub[k];
        assert(s[j] == sub[k]);
    }
}

/// The selection does not depend on the order of the include patterns or of
/// the exclude patterns: lists with the same members select the same paths,
/// in the same order.
pub proof fn lemma_selection_order_independent(
    listed: Seq<Seq<char>>,
    includes_a: Seq<Seq<char>>,
    excludes_a: Seq<Seq<char>>,
    includes_b: Seq<Seq<char>>,
    excludes_b: Seq<Seq<char>>,
)
    requires
        includes_a.to_set() == includes_b.to_set(),
        excludes_a.to_set() == excludes_b.to_set(),
    ensures
        selection(listed, includes_a, excludes_a) == selection(listed, includes_b, excludes_b),
{
    let pa = |p: Seq<char>| is_selected(includes_a, excludes_a, p);
    let pb = |p: Seq<char>| is_selected(includes_b, excludes_b, p);
    assert forall|p: Seq<char>| #[trigger] pa(p) == pb(p) by {
        lemma_matches_any_same_set(includes_a, includes_b, p);
        lemma_matches_any_same_set(excludes_a, excludes_b, p);
    }
    assert(pa =~= pb);
}

} // verus!
