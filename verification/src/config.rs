//! Tool manifest data: the repository being managed, its dependencies,
//! the four lifecycle action lists, and the informational-argument table.
//! Command templates mention the repository through two placeholder
//! tokens; `interpolate` substitutes them in a single pass.
//! Manifests are JSONC; `strip_comments` removes `//` comments line by
//! line, leaving markers inside string literals alone.

use vstd::prelude::*;
use vstd::string::StrSliceExecFns;

use crate::strings::find_first;
use crate::strings::find_idx;
use crate::strings::join_all;
use crate::strings::joined;
use crate::strings::lemma_find_idx;
use crate::strings::lemma_replaced_absent;
use crate::strings::occurs;
use crate::strings::occurs_at;
use crate::strings::replace_all;
use crate::strings::replaced;
use crate::strings::split_lines;
use crate::strings::split_lines_exec;

verus! {

/// One step of a lifecycle sequence: a command template plus metadata.
/// The command must be non-empty to be executable; the runner does not
/// check this, and an empty command fails when launched.
#[derive(Debug, Clone)]
pub struct Action {
    /// Display order of the step; not necessarily gap-free.
    pub seq_id: u32,
    /// Optional human label; not consulted by the execution logic.
    pub name: Option<String>,
    /// Command template, possibly holding placeholder tokens.
    pub command: String,
    /// Text shown when the step executes.
    pub description: String,
    /// Intended execution mode: detached when true, subject to override.
    pub spawn: bool,
}

/// The four ordered action lists, one per lifecycle phase.
#[derive(Debug, Clone)]
pub struct Actions {
    pub installation: Vec<Action>,
    pub update: Vec<Action>,
    pub build: Vec<Action>,
    pub run: Vec<Action>,
}

/// Name of a branch of the repository.
#[derive(Debug, Clone)]
pub struct Branch {
    pub name: String,
}

/// The repository a manifest manages; `name` and `url` feed the
/// placeholder tokens of command templates.
#[derive(Debug, Clone)]
pub struct Repository {
    pub name: String,
    pub url: String,
    pub default_branch: Branch,
}

/// A dependency recorded in a manifest; informational only.
#[derive(Debug, Clone)]
pub struct Dependency {
    pub name: String,
    pub version: String,
    pub url: String,
}

/// A loaded tool manifest.
#[derive(Debug, Clone)]
pub struct Config {
    pub repo: Repository,
    pub dependencies: Vec<Dependency>,
    pub actions: Actions,
    /// Arguments that mark an invocation as informational, so that it is
    /// waited on instead of spawned; when empty, a built-in set applies.
    pub info_args: Vec<String>,
}

/// Placeholder token that stands for the repository URL.
pub open spec fn url_token() -> Seq<char> {
    "[[repo.url]]"@
}

/// Placeholder token that stands for the repository name.
pub open spec fn name_token() -> Seq<char> {
    "[[repo.name]]"@
}

/// Interpolation of a template: every occurrence of the URL token is
/// replaced by the URL, then every occurrence of the name token by the
/// name; all other text is left unchanged.
pub open spec fn spec_interpolate(t: Seq<char>, url: Seq<char>, name: Seq<char>) -> Seq<char> {
    replaced(replaced(t, url_token(), url), name_token(), name)
}

/// A template without either token is returned verbatim.
pub proof fn lemma_interpolate_absent(t: Seq<char>, url: Seq<char>, name: Seq<char>)
    requires
        !occurs(t, url_token()),
        !occurs(t, name_token()),
    ensures
        spec_interpolate(t, url, name) == t,
{
    reveal_strlit("[[repo.url]]");
    reveal_strlit("[[repo.name]]");
    lemma_replaced_absent(t, url_token(), url);
    lemma_replaced_absent(t, name_token(), name);
}

/// Interpolation is idempotent whenever its result holds no further
/// token occurrence (absent token collisions between the metadata values
/// and the surrounding text). Determinism needs no statement: the result
/// is a function of the template and the metadata alone.
pub proof fn lemma_interpolate_idempotent(t: Seq<char>, url: Seq<char>, name: Seq<char>)
    requires
        !occurs(spec_interpolate(t, url, name), url_token()),
        !occurs(spec_interpolate(t, url, name), name_token()),
    ensures
        spec_interpolate(spec_interpolate(t, url, name), url, name) == spec_interpolate(
            t,
            url,
            name,
        ),
{
    lemma_interpolate_absent(spec_interpolate(t, url, name), url, name);
}

/// The marker that opens a JSONC line comment.
pub open spec fn comment_marker() -> Seq<char> {
    "//"@
}

/// Number of double-quote characters in `l`.
pub open spec fn quote_count(l: Seq<char>) -> nat
    decreases l.len(),
{
    if l.len() == 0 {
        0
    } else {
        quote_count(l.drop_last()) + if l.last() == '"' {
            1nat
        } else {
            0nat
        }
    }
}

/// One line after comment stripping: cut just before the first `//`
/// when an even number of `"` precedes it, else kept whole.
pub open spec fn stripped_line(l: Seq<char>) -> Seq<char> {
    let k = find_idx(l, comment_marker());
    if k == l.len() {
        l
    } else if quote_count(l.take(k as int)) % 2 == 0 {
        l.take(k as int)
    } else {
        l
    }
}

/// Strips the comment, if any, from a single line.
fn stripped_line_exec(line: &str) -> (r: String)
    ensures
        r@ == stripped_line(line@),
{
    proof {
        reveal_strlit("//");
        lemma_find_idx(line@, comment_marker());
    }
    match find_first(line, "//") {
        Some(k) => {
            proof {
                let f = find_idx(line@, comment_marker()) as int;
                assert(occurs_at(line@, comment_marker(), k as int));
                assert(occurs(line@, comment_marker()));
                assert(occurs_at(line@, comment_marker(), f));
                if f < k {
                    assert(!occurs_at(line@, comment_marker(), f));
                    assert(false);
                }
                if f > k {
                    assert(!occurs_at(line@, comment_marker(), k as int));
                    assert(false);
                }
                assert(f == k);
                assert(k < line@.len());
            }
            let mut cnt: usize = 0;
            let mut j: usize = 0;
            while j < k
                invariant
                    0 <= j <= k,
                    k < line@.len(),
                    cnt <= j,
                    cnt == quote_count(line@.take(j as int)),
                decreases k - j,
            {
                proof {
                    assert(line@.take(j + 1).drop_last() =~= line@.take(j as int));
                    assert(line@.take(j + 1).last() == line@[j as int]);
                }
                if line.get_char(j) == '"' {
                    cnt += 1;
                }
                j += 1;
            }
            if cnt % 2 == 0 {
                let r = line.substring_char(0, k).to_owned();
                proof {
                    assert(line@.subrange(0, k as int) =~= line@.take(k as int));
                }
                r
            } else {
                line.to_owned()
            }
        },
        None => {
            proof {
                assert(find_idx(line@, comment_marker()) == line@.len());
            }
            line.to_owned()
        },
    }
}

/// The comment stripper: each line of the text is cut at its first `//`
/// marker when that marker stands outside a string literal, judged by
/// the parity of the double quotes before it; the lines are then joined
/// back with newlines.
pub open spec fn spec_strip_comments(t: Seq<char>) -> Seq<char> {
    joined(split_lines(t).map_values(|l: Seq<char>| stripped_line(l)), "\n"@)
}

/// Replaces the repository URL and name tokens in `text` by the given
/// metadata values, in a single pass each, without re-scanning
/// substituted text.
pub fn interpolate_with(text: &str, url: &str, name: &str) -> (r: String)
    ensures
        r@ == spec_interpolate(text@, url@, name@),
{
    let step = replace_all(text, "[[repo.url]]", url);
    replace_all(step.as_str(), "[[repo.name]]", name)
}

impl Config {
    /// Replaces the repository URL and name tokens in `text` by the
    /// repository's metadata, in a single pass each, without re-scanning
    /// substituted text.
    pub fn interpolate(&self, text: &str) -> (r: String)
        ensures
            r@ == spec_interpolate(text@, self.repo.url@, self.repo.name@),
    {
        interpolate_with(text, self.repo.url.as_str(), self.repo.name.as_str())
    }

    /// Removes `//` line comments from JSONC text: a line is cut just
    /// before its first `//` unless an odd number of `"` precedes it
    /// (the marker then sits inside a string and the line is kept).
    pub fn strip_comments(content: &str) -> (r: String)
        ensures
            r@ == spec_strip_comments(content@),
    {
        let lines = split_lines_exec(content);
        let mut out: Vec<String> = Vec::new();
        let n = lines.len();
        let mut idx: usize = 0;
        while idx < n
            invariant
                n == lines.len(),
                lines.deep_view() == split_lines(content@),
                lines.deep_view().len() == n,
                0 <= idx <= n,
                out.deep_view().len() == idx,
                forall|j: int|
                    0 <= j < idx ==> out.deep_view()[j] == stripped_line(
                        split_lines(content@)[j],
                    ),
            decreases n - idx,
        {
            let piece = stripped_line_exec(lines[idx].as_str());
            let ghost old_out = out.deep_view();
            out.push(piece);
            proof {
                assert(lines.deep_view()[idx as int] == lines[idx as int]@);
                assert(out.deep_view() =~= old_out.push(
                    stripped_line(split_lines(content@)[idx as int]),
                ));
            }
            idx += 1;
        }
        proof {
            assert(out.deep_view() =~= split_lines(content@).map_values(
                |l: Seq<char>| stripped_line(l),
            ));
        }
        join_all(&out, "\n")
    }
}

} // verus!
