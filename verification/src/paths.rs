use vstd::prelude::*;
use vstd::string::*;

verus! {

// Paths in this library are plain character strings with `/` as the
// directory separator. The functions below fix what "parent", "file name",
// "stem" and "extension" mean for such a string; every path the library
// derives is specified in terms of this model.

/// Index of the last occurrence of `c` in `s`, or -1 when `s` does not
/// contain `c`.
pub open spec fn last_index_of(s: Seq<char>, c: char) -> int
    decreases s.len(),
{
    if s.len() == 0 {
        -1
    } else if s.last() == c {
        s.len() - 1
    } else {
        last_index_of(s.drop_last(), c)
    }
}

/// `last_index_of` stays in range, lands on `c`, and nothing after it is `c`.
pub proof fn lemma_last_index_of_props(s: Seq<char>, c: char)
    ensures
        -1 <= last_index_of(s, c) < s.len(),
        last_index_of(s, c) >= 0 ==> s[last_index_of(s, c)] == c,
        forall|j: int| last_index_of(s, c) < j < s.len() ==> s[j] != c,
    decreases s.len(),
{
    if s.len() > 0 && s.last() != c {
        lemma_last_index_of_props(s.drop_last(), c);
        assert forall|j: int| last_index_of(s, c) < j < s.len() implies s[j] != c by {
            if j < s.len() - 1 {
                assert(s.drop_last()[j] == s[j]);
            }
        }
    }
}

/// A position holding `c` with no later occurrence is the last index of `c`.
pub proof fn lemma_last_index_of_found(s: Seq<char>, c: char, k: int)
    requires
        0 <= k < s.len(),
        s[k] == c,
        forall|j: int| k < j < s.len() ==> s[j] != c,
    ensures
        last_index_of(s, c) == k,
    decreases s.len(),
{
    if k < s.len() - 1 {
        assert(s.drop_last()[k] == c);
        assert forall|j: int| k < j < s.drop_last().len() implies s.drop_last()[j] != c by {
            assert(s.drop_last()[j] == s[j]);
        }
        lemma_last_index_of_found(s.drop_last(), c, k);
    }
}

/// When `c` occurs nowhere in `s`, `last_index_of` is -1.
pub proof fn lemma_last_index_of_absent(s: Seq<char>, c: char)
    requires
        forall|j: int| 0 <= j < s.len() ==> s[j] != c,
    ensures
        last_index_of(s, c) == -1,
    decreases s.len(),
{
    if s.len() > 0 {
        assert forall|j: int| 0 <= j < s.drop_last().len() implies s.drop_last()[j] != c by {
            assert(s.drop_last()[j] == s[j]);
        }
        lemma_last_index_of_absent(s.drop_last(), c);
    }
}

/// Everything before the last `/`, or the empty string when there is none.
pub open spec fn spec_parent(p: Seq<char>) -> Seq<char> {
    let k = last_index_of(p, '/');
    if k < 0 {
        Seq::<char>::empty()
    } else {
        p.subrange(0, k)
    }
}

/// Everything after the last `/`; the whole string when there is none.
pub open spec fn spec_file_name(p: Seq<char>) -> Seq<char> {
    p.subrange(last_index_of(p, '/') + 1, p.len() as int)
}

/// Index in `name` of the `.` that separates stem from extension: the last
/// `.` at position 1 or later, or -1 when there is none. A `.` in front
/// (a hidden file) does not start an extension.
pub open spec fn spec_split_dot(name: Seq<char>) -> int {
    if name.len() == 0 {
        -1
    } else {
        let k = last_index_of(name.subrange(1, name.len() as int), '.');
        if k < 0 {
            -1
        } else {
            k + 1
        }
    }
}

/// The file name without its extension; the whole name when it has none.
pub open spec fn spec_stem(name: Seq<char>) -> Seq<char> {
    let k = spec_split_dot(name);
    if k < 0 {
        name
    } else {
        name.subrange(0, k)
    }
}

/// The extension of a file name: what follows the last `.` at position 1 or
/// later, or `None` when there is no such `.`.
pub open spec fn spec_extension(name: Seq<char>) -> Option<Seq<char>> {
    let k = spec_split_dot(name);
    if k < 0 {
        None
    } else {
        Some(name.subrange(k + 1, name.len() as int))
    }
}

/// `dir` and `name` joined with `/`: `name` alone when `dir` is empty, and
/// no separator added when `dir` already ends with one.
pub open spec fn spec_join(dir: Seq<char>, name: Seq<char>) -> Seq<char> {
    if dir.len() == 0 {
        name
    } else if dir.last() == '/' {
        dir + name
    } else {
        dir + seq!['/'] + name
    }
}

/// Base name used for a derived output file: the stem of the input's file
/// name, or the fallback `"output"` when that stem is empty (a path whose
/// file name is empty, such as one ending in `/`).
pub open spec fn spec_output_base(name: Seq<char>) -> Seq<char> {
    if spec_stem(name).len() == 0 {
        "output"@
    } else {
        spec_stem(name)
    }
}

/// The derived output path: the input's base name with the extension
/// `.mp4`, placed under `output_dir` when one is given and beside the input
/// otherwise.
pub open spec fn spec_output_path(input: Seq<char>, output_dir: Option<Seq<char>>) -> Seq<char> {
    let dir = match output_dir {
        Some(d) => d,
        None => spec_parent(input),
    };
    spec_join(dir, spec_output_base(spec_file_name(input)) + ".mp4"@)
}

/// The file-name part of a path contains no separator.
proof fn lemma_file_name_no_slash(p: Seq<char>)
    ensures
        forall|j: int| 0 <= j < spec_file_name(p).len() ==> spec_file_name(p)[j] != '/',
{
    lemma_last_index_of_props(p, '/');
    let k = last_index_of(p, '/');
    let n = spec_file_name(p);
    assert forall|j: int| 0 <= j < n.len() implies n[j] != '/' by {
        assert(n[j] == p[k + 1 + j]);
    }
}

/// The full output file name (base name plus `.mp4`) derived from a path
/// contains no separator.
proof fn lemma_output_file_no_slash(p: Seq<char>)
    ensures
        forall|j: int|
            0 <= j < (spec_output_base(spec_file_name(p)) + ".mp4"@).len() ==> (spec_output_base(
                spec_file_name(p),
            ) + ".mp4"@)[j] != '/',
{
    lemma_file_name_no_slash(p);
    let name = spec_file_name(p);
    let base = spec_output_base(name);
    let file = base + ".mp4"@;
    reveal_strlit(".mp4");
    reveal_strlit("output");
    assert(".mp4"@ =~= seq!['.', 'm', 'p', '4']);
    assert("output"@ =~= seq!['o', 'u', 't', 'p', 'u', 't']);
    assert forall|j: int| 0 <= j < file.len() implies file[j] != '/' by {
        if j < base.len() {
            assert(file[j] == base[j]);
            if spec_stem(name).len() != 0 && spec_split_dot(name) >= 0 {
                lemma_last_index_of_props(name.subrange(1, name.len() as int), '.');
                assert(base[j] == name[j]);
            }
        } else {
            assert(file[j] == ".mp4"@[j - base.len()]);
        }
    }
}

/// Joining a separator-free file name onto a directory that does not end in
/// `/` makes a path whose parent is that directory again.
proof fn lemma_parent_of_join(dir: Seq<char>, name: Seq<char>)
    requires
        forall|j: int| 0 <= j < name.len() ==> name[j] != '/',
        dir.len() == 0 || dir.last() != '/',
    ensures
        spec_parent(spec_join(dir, name)) == dir,
{
    if dir.len() == 0 {
        lemma_last_index_of_absent(name, '/');
        assert(spec_parent(name) =~= dir);
    } else {
        let joined = dir + seq!['/'] + name;
        assert(joined[dir.len() as int] == '/');
        assert forall|j: int| dir.len() < j < joined.len() implies joined[j] != '/' by {
            assert(joined[j] == name[j - dir.len() - 1]);
        }
        lemma_last_index_of_found(joined, '/', dir.len() as int);
        assert(spec_parent(joined) =~= dir);
    }
}

/// Deriving an output path is deterministic, and so idempotent under
/// re-invocation: any two derivations from the same input path and output
/// directory give the same path.
pub proof fn lemma_output_path_deterministic(
    input: Seq<char>,
    output_dir: Option<Seq<char>>,
    r1: Seq<char>,
    r2: Seq<char>,
)
    requires
        r1 == spec_output_path(input, output_dir),
        r2 == spec_output_path(input, output_dir),
    ensures
        r1 == r2,
{
}

/// Without an output directory the derived output path lies in the input's
/// own parent directory. Stated for inputs whose parent does not end in a
/// separator, which holds of every parent this model itself produces.
pub proof fn lemma_output_beside_input(input: Seq<char>)
    requires
        spec_parent(input).len() == 0 || spec_parent(input).last() != '/',
    ensures
        spec_parent(spec_output_path(input, None)) == spec_parent(input),
{
    lemma_output_file_no_slash(input);
    lemma_parent_of_join(
        spec_parent(input),
        spec_output_base(spec_file_name(input)) + ".mp4"@,
    );
}

/// With an output directory the derived output path lies under that
/// directory, wherever the input itself lies. Stated for directories that
/// do not end in a separator.
pub proof fn lemma_output_under_directory(input: Seq<char>, dir: Seq<char>)
    requires
        dir.len() == 0 || dir.last() != '/',
    ensures
        spec_parent(spec_output_path(input, Some(dir))) == dir,
{
    lemma_output_file_no_slash(input);
    lemma_parent_of_join(dir, spec_output_base(spec_file_name(input)) + ".mp4"@);
}

/// Index of the last occurrence of `c` among the characters of `s`, or
/// `None` when `s` does not contain `c`.
pub fn rfind_char(s: &str, c: char) -> (r: Option<usize>)
    ensures
        match r {
            Some(k) => k == last_index_of(s@, c),
            None => last_index_of(s@, c) == -1,
        },
{
    let n = s.unicode_len();
    let mut i = n;
    while i > 0
        invariant
            i <= n,
            n == s@.len(),
            forall|j: int| i <= j < s@.len() ==> s@[j] != c,
        decreases i,
    {
        i = i - 1;
        if s.get_char(i) == c {
            proof {
                lemma_last_index_of_found(s@, c, i as int);
            }
            return Some(i);
        }
    }
    proof {
        lemma_last_index_of_absent(s@, c);
    }
    None
}

/// The file-name part of `path`: everything after the last `/`.
pub fn file_name_part(path: &str) -> (r: &str)
    ensures
        r@ == spec_file_name(path@),
{
    let n = path.unicode_len();
    match rfind_char(path, '/') {
        Some(k) => {
            proof {
                lemma_last_index_of_props(path@, '/');
            }
            path.substring_char(k + 1, n)
        },
        None => path.substring_char(0, n),
    }
}

/// The parent part of `path`: everything before the last `/`, or the empty
/// string when there is none.
pub fn parent_part(path: &str) -> (r: &str)
    ensures
        r@ == spec_parent(path@),
{
    match rfind_char(path, '/') {
        Some(k) => {
            proof {
                lemma_last_index_of_props(path@, '/');
            }
            path.substring_char(0, k)
        },
        None => {
            let r = "";
            proof {
                reveal_strlit("");
                assert(r@ =~= spec_parent(path@));
            }
            r
        },
    }
}

/// The stem of a file name: the part before the last `.` at position 1 or
/// later; the whole name when it has no extension.
pub fn stem_part(name: &str) -> (r: &str)
    ensures
        r@ == spec_stem(name@),
{
    let n = name.unicode_len();
    if n == 0 {
        name
    } else {
        let tail = name.substring_char(1, n);
        match rfind_char(tail, '.') {
            Some(k) => {
                proof {
                    lemma_last_index_of_props(tail@, '.');
                }
                name.substring_char(0, k + 1)
            },
            None => name,
        }
    }
}

/// The extension of a file name, or `None` when it has none.
pub fn extension_part(name: &str) -> (r: Option<&str>)
    ensures
        match r {
            Some(e) => spec_extension(name@) == Some(e@),
            None => spec_extension(name@) is None,
        },
{
    let n = name.unicode_len();
    if n == 0 {
        None
    } else {
        let tail = name.substring_char(1, n);
        match rfind_char(tail, '.') {
            Some(k) => {
                proof {
                    lemma_last_index_of_props(tail@, '.');
                }
                Some(name.substring_char(k + 2, n))
            },
            None => None,
        }
    }
}

/// The base name for an output file derived from the file name `name`.
pub fn output_base_part(name: &str) -> (r: &str)
    ensures
        r@ == spec_output_base(name@),
{
    let stem = stem_part(name);
    if stem.unicode_len() == 0 {
        "output"
    } else {
        stem
    }
}

/// `dir` and `name` joined with `/`.
pub fn join_path(dir: &str, name: &str) -> (r: String)
    ensures
        r@ == spec_join(dir@, name@),
{
    let d = dir.unicode_len();
    if d == 0 {
        String::from_str(name)
    } else {
        let mut out = String::from_str(dir);
        if dir.get_char(d - 1) != '/' {
            out.append("/");
            proof {
                reveal_strlit("/");
                assert(out@ =~= dir@ + seq!['/']);
            }
        }
        out.append(name);
        out
    }
}

} // verus!
