//! Rendering of the workspace index: the tree shown to the model and the
//! content snapshot written beside it.
//!
//! Walking the filesystem happens outside the library; it hands in the
//! visited entries (depth and name, in walk order) and the files' text.

use vstd::prelude::*;

use crate::text::contains_seq;
use crate::text::first_line;
use crate::text::lines_of;

verus! {

/// One visited entry of the workspace walk.
pub struct TreeEntry {
    pub depth: usize,
    pub name: String,
}

/// `n` copies of a sequence, concatenated.
pub open spec fn repeat_seq(s: Seq<char>, n: int) -> Seq<char>
    decreases n,
{
    if n <= 0 {
        Seq::empty()
    } else {
        repeat_seq(s, n - 1) + s
    }
}

/// The drawing prefix of one tree row: indentation for the depth, then a
/// branch mark that depends on whether the walk just descended.
pub open spec fn row_prefix(depth: int, prev: int) -> Seq<char> {
    if depth <= 0 {
        Seq::empty()
    } else {
        repeat_seq("│   "@, depth - 1) + (if depth > prev {
            "├── "@
        } else {
            "└── "@
        })
    }
}

/// The rows of the rendered tree, one per entry, each tracking the
/// previous entry's depth.
pub open spec fn tree_rows(entries: Seq<TreeEntry>, prev: int) -> Seq<char>
    decreases entries.len(),
{
    if entries.len() == 0 {
        Seq::empty()
    } else {
        row_prefix(entries.first().depth as int, prev) + entries.first().name@ + "\n"@ + tree_rows(
            entries.drop_first(),
            entries.first().depth as int,
        )
    }
}

/// Renders the workspace tree from the visited entries, in walk order.
pub fn build_tree(entries: &Vec<TreeEntry>) -> (r: String)
    ensures
        r@ == ".\n"@ + tree_rows(entries@, 0),
{
    let mut out = ".\n".to_owned();
    let ghost head = out@;
    let n = entries.len();
    let mut i: usize = 0;
    let mut prev: usize = 0;
    proof {
        assert(entries@.skip(0) =~= entries@);
    }
    while i < n
        invariant
            i <= n == entries@.len(),
            out@ + tree_rows(entries@.skip(i as int), prev as int) == head + tree_rows(
                entries@,
                0,
            ),
        decreases n - i,
    {
        let ghost rest = entries@.skip(i as int);
        proof {
            assert(rest.drop_first() =~= entries@.skip(i + 1));
            assert(rest.first() == entries@[i as int]);
        }
        let ghost row_start = out@;
        let depth = entries[i].depth;
        if depth > 0 {
            let mut k: usize = 1;
            while k < depth
                invariant
                    1 <= k <= depth,
                    out@ == row_start + repeat_seq("│   "@, k - 1),
                decreases depth - k,
            {
                out.append("│   ");
                k = k + 1;
            }
            if depth > prev {
                out.append("├── ");
            } else {
                out.append("└── ");
            }
            proof {
                assert(out@ =~= row_start + row_prefix(depth as int, prev as int));
            }
        } else {
            proof {
                assert(out@ =~= row_start + row_prefix(depth as int, prev as int));
            }
        }
        out.append(entries[i].name.as_str());
        out.append("\n");
        proof {
            assert(out@ + tree_rows(entries@.skip(i + 1), depth as int) =~= row_start + tree_rows(
                rest,
                prev as int,
            ));
        }
        prev = depth;
        i = i + 1;
    }
    proof {
        assert(entries@.skip(n as int) =~= Seq::<TreeEntry>::empty());
        assert(out@ + tree_rows(entries@.skip(n as int), prev as int) =~= out@);
    }
    out
}

/// The lines of a file's text, each indented under its snapshot key.
pub open spec fn indented_lines(lines: Seq<Seq<char>>) -> Seq<char>
    decreases lines.len(),
{
    if lines.len() == 0 {
        Seq::empty()
    } else {
        "    "@ + lines.first() + "\n"@ + indented_lines(lines.drop_first())
    }
}

/// The snapshot blocks, one per file: the path as key, then the indented
/// text.
pub open spec fn content_blocks(files: Seq<(String, String)>) -> Seq<char>
    decreases files.len(),
{
    if files.len() == 0 {
        Seq::empty()
    } else {
        "  "@ + files.first().0@ + ": |\n"@ + indented_lines(lines_of(files.first().1@))
            + content_blocks(files.drop_first())
    }
}

/// Appends a file's text, line by line, indented for the snapshot.
fn append_indented(out: &mut String, text: &str)
    ensures
        final(out)@ == old(out)@ + indented_lines(lines_of(text@)),
{
    let tv = crate::text::chars_of(text);
    let nl = crate::text::chars_of("\n");
    proof {
        reveal_strlit("\n");
        assert(nl@ =~= seq!['\n']);
    }
    let tlen = tv.len();
    let mut p: usize = 0;
    proof {
        assert(tv@.skip(0) =~= tv@);
    }
    while p < tlen
        invariant
            p <= tlen == tv@.len(),
            tv@ == text@,
            nl@ == seq!['\n'],
            out@ + indented_lines(lines_of(tv@.skip(p as int))) == old(out)@ + indented_lines(
                lines_of(tv@),
            ),
        decreases tlen - p,
    {
        let ghost rest = tv@.skip(p as int);
        let ghost pre = out@;
        let found = crate::text::find_in_suffix(&tv, p, &nl);
        let ghost k = crate::text::find_index(rest, seq!['\n']);
        let line_end = match found {
            None => tlen,
            Some(i) => {
                if i > p && tv[i - 1] == '\r' {
                    i - 1
                } else {
                    i
                }
            },
        };
        proof {
            assert(tv@.subrange(p as int, line_end as int) =~= first_line(rest));
        }
        out.append("    ");
        out.append(text.substring_char(p, line_end));
        out.append("\n");
        match found {
            None => {
                proof {
                    let line = first_line(rest);
                    assert(rest =~= tv@.subrange(p as int, line_end as int));
                    assert(lines_of(rest) =~= seq![line]);
                    let ls = seq![line];
                    assert(ls.first() == line);
                    assert(ls.drop_first() =~= Seq::<Seq<char>>::empty());
                    assert(indented_lines(ls) == "    "@ + line + "\n"@ + indented_lines(
                        Seq::<Seq<char>>::empty(),
                    ));
                    assert(out@ =~= pre + ("    "@ + line + "\n"@));
                    assert(tv@.skip(tlen as int) =~= Seq::<char>::empty());
                    assert(out@ + indented_lines(lines_of(tv@.skip(tlen as int))) =~= pre
                        + indented_lines(lines_of(rest)));
                }
                p = tlen;
            },
            Some(i) => {
                proof {
                    let line = first_line(rest);
                    let tail_lines = lines_of(rest.skip(k + 1));
                    assert(0 <= k < rest.len());
                    assert(lines_of(rest) == seq![line] + tail_lines);
                    let ls = seq![line] + tail_lines;
                    assert(ls.first() == line);
                    assert(ls.drop_first() =~= tail_lines);
                    assert(indented_lines(ls) == "    "@ + line + "\n"@ + indented_lines(
                        tail_lines,
                    ));
                    assert(rest.skip(k + 1) =~= tv@.skip(i + 1));
                    assert(out@ =~= pre + ("    "@ + line + "\n"@));
                    assert(out@ + indented_lines(lines_of(tv@.skip(i + 1))) =~= pre
                        + indented_lines(lines_of(rest)));
                }
                p = i + 1;
            },
        }
    }
    proof {
        assert(tv@.skip(tlen as int) =~= Seq::<char>::empty());
        assert(out@ + indented_lines(lines_of(tv@.skip(tlen as int))) =~= out@);
    }
}

/// Renders the content snapshot of the workspace: every file's text under
/// its path, in walk order.
pub fn build_content(files: &Vec<(String, String)>) -> (r: String)
    ensures
        r@ == "content:\n"@ + content_blocks(files@),
{
    let mut out = "content:\n".to_owned();
    let ghost head = out@;
    let n = files.len();
    let mut i: usize = 0;
    proof {
        assert(files@.skip(0) =~= files@);
    }
    while i < n
        invariant
            i <= n == files@.len(),
            out@ + content_blocks(files@.skip(i as int)) == head + content_blocks(files@),
        decreases n - i,
    {
        let ghost rest = files@.skip(i as int);
        proof {
            assert(rest.drop_first() =~= files@.skip(i + 1));
            assert(rest.first() == files@[i as int]);
        }
        out.append("  ");
        out.append(files[i].0.as_str());
        out.append(": |\n");
        append_indented(&mut out, files[i].1.as_str());
        proof {
            assert(out@ + content_blocks(files@.skip(i + 1)) =~= head + content_blocks(files@));
        }
        i = i + 1;
    }
    proof {
        assert(files@.skip(n as int) =~= Seq::<(String, String)>::empty());
        assert(out@ + content_blocks(files@.skip(n as int)) =~= out@);
    }
    out
}

/// What the ignore file must hold after initialization: the agent's
/// working directory is added unless it is already mentioned, on a line of
/// its own after any existing content, which is given a final line break
/// first if it lacks one.
pub open spec fn updated_gitignore_spec(existing: Option<Seq<char>>) -> Seq<char> {
    match existing {
        None => ".coder\n"@,
        Some(c) => if contains_seq(c, ".coder"@) {
            c
        } else if c.len() > 0 && c.last() == '\n' {
            c + ".coder\n"@
        } else {
            c + "\n"@ + ".coder\n"@
        },
    }
}

/// Computes the ignore file content after initialization.
pub fn updated_gitignore(existing: Option<&str>) -> (r: String)
    ensures
        r@ == updated_gitignore_spec(match existing {
            Some(c) => Some(c@),
            None => None,
        }),
{
    let c = match existing {
        None => {
            return ".coder\n".to_owned();
        },
        Some(c) => c,
    };
    let v = crate::text::chars_of(c);
    let marker = crate::text::chars_of(".coder");
    if crate::text::contains_chars(&v, &marker) {
        return c.to_owned();
    }
    let mut out = c.to_owned();
    let len = v.len();
    if !(len > 0 && v[len - 1] == '\n') {
        out.append("\n");
    }
    out.append(".coder\n");
    out
}

} // verus!
