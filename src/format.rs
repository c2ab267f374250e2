//! The formatting work of a run: which formatter runs on which file, and how.
use vstd::prelude::*;
use vstd::string::*;
use crate::select::{select_paths, selection, texts, views, GlobPattern};

verus! {

/// The external formatters.
#[derive(Clone, Copy, Debug, PartialEq, Eq, Structural)]
pub enum Formatter {
    /// The C/C++ formatter, editing in place.
    ClangFormat,
    /// The Python formatter, which edits in place by default.
    Black,
}

/// One formatter invocation on one file.
#[derive(Clone, Debug)]
pub struct FormatJob {
    pub formatter: Formatter,
    pub path: String,
}

/// The arguments after the formatter binary for one file.
pub open spec fn formatter_args_of(formatter: Formatter, path: Seq<char>) -> Seq<Seq<char>> {
    match formatter {
        Formatter::ClangFormat => seq!["-i"@, path],
        Formatter::Black => seq![path],
    }
}

/// The arguments after the formatter binary for one file.
pub fn formatter_args(formatter: Formatter, path: &str) -> (r: Vec<String>)
    ensures
        views(r@) == formatter_args_of(formatter, path@),
{
    let r = match formatter {
        Formatter::ClangFormat => vec![String::from_str("-i"), String::from_str(path)],
        Formatter::Black => vec![String::from_str(path)],
    };
    assert(views(r@) =~= formatter_args_of(formatter, path@));
    r
}

/// The formatters and paths of a list of jobs.
pub open spec fn jobs_view(jobs: Seq<FormatJob>) -> Seq<(Formatter, Seq<char>)> {
    jobs.map_values(|j: FormatJob| (j.formatter, j.path@))
}

/// Each path paired with one formatter.
pub open spec fn with_formatter(formatter: Formatter, paths: Seq<Seq<char>>) -> Seq<
    (Formatter, Seq<char>),
> {
    paths.map_values(|p: Seq<char>| (formatter, p))
}

/// All the jobs of a run: the C/C++ formatter on each native file, then the
/// Python formatter on each script file. A file selected by both include
/// sets gets both jobs.
pub open spec fn format_plan_of(
    listed: Seq<Seq<char>>,
    native_includes: Seq<Seq<char>>,
    script_includes: Seq<Seq<char>>,
    excludes: Seq<Seq<char>>,
) -> Seq<(Formatter, Seq<char>)> {
    with_formatter(Formatter::ClangFormat, selection(listed, native_includes, excludes))
        + with_formatter(Formatter::Black, selection(listed, script_includes, excludes))
}

fn append_jobs(jobs: &mut Vec<FormatJob>, formatter: Formatter, paths: Vec<String>)
    ensures
        jobs_view(final(jobs)@) == jobs_view(old(jobs)@) + with_formatter(formatter, views(paths@)),
{
    let ghost start = jobs_view(jobs@);
    let mut i: usize = 0;
    while i < paths.len()
        invariant
            i <= paths@.len(),
            jobs_view(jobs@) == start + with_formatter(formatter, views(paths@).subrange(0, i as int)),
        decreases paths@.len() - i,
    {
        let path = paths[i].clone();
        let ghost prev = jobs@;
        jobs.push(FormatJob { formatter, path });
        assert(jobs@ == prev.push(FormatJob { formatter, path }));
        assert(jobs_view(jobs@) =~= jobs_view(prev).push((formatter, paths@[i as int]@)));
        assert(with_formatter(formatter, views(paths@).subrange(0, i as int + 1)) =~= with_formatter(
            formatter,
            views(paths@).subrange(0, i as int),
        ).push((formatter, paths@[i as int]@)));
        assert(jobs_view(jobs@) =~= start + with_formatter(
            formatter,
            views(paths@).subrange(0, i as int + 1),
        ));
        i = i + 1;
    }
    assert(views(paths@).subrange(0, paths@.len() as int) =~= views(paths@));
}

/// Plans the formatting of the listed files.
pub fn format_plan(
    listed: &Vec<String>,
    native_includes: &Vec<GlobPattern>,
    script_includes: &Vec<GlobPattern>,
    excludes: &Vec<GlobPattern>,
) -> (r: Vec<FormatJob>)
    ensures
        jobs_view(r@) == format_plan_of(
            views(listed@),
            texts(native_includes@),
            texts(script_includes@),
            texts(excludes@),
        ),
{
    let mut jobs: Vec<FormatJob> = Vec::new();
    assert(jobs_view(jobs@) =~= Seq::empty());
    let native = select_paths(listed, native_includes, excludes);
    append_jobs(&mut jobs, Formatter::ClangFormat, native);
    let script = select_paths(listed, script_includes, excludes);
    append_jobs(&mut jobs, Formatter::Black, script);
    assert(jobs_view(jobs@) =~= format_plan_of(
        views(listed@),
        texts(native_includes@),
        texts(script_includes@),
        texts(excludes@),
    ));
    jobs
}

} // verus!
