//! Path names, with `/` as the separator: the last component of a path as
//! `Path::file_name` gives it, joining as `Path::join` does, and the names
//! under which uploads and their compressed copies are stored.

use crate::text::{chars_of, push_str, string_from_chars};
use vstd::prelude::*;

verus! {

/// Where `s[..end]` ends once its trailing separators are dropped.
pub open spec fn strip_separators(s: Seq<char>, end: int) -> int
    decreases end,
{
    if end > 0 && s[end - 1] == '/' {
        strip_separators(s, end - 1)
    } else {
        end
    }
}

/// Where the component that ends at `end` starts: just after the last
/// separator before `end`, or at 0.
pub open spec fn component_start(s: Seq<char>, end: int) -> int
    decreases end,
{
    if end > 0 && s[end - 1] != '/' {
        component_start(s, end - 1)
    } else {
        end
    }
}

pub proof fn lemma_strip_separators_bounds(s: Seq<char>, end: int)
    ensures
        end > 0 ==> 0 <= strip_separators(s, end) <= end,
        end <= 0 ==> strip_separators(s, end) == end,
        strip_separators(s, end) > 0 ==> s[strip_separators(s, end) - 1] != '/',
    decreases end,
{
    if end > 0 && s[end - 1] == '/' {
        lemma_strip_separators_bounds(s, end - 1);
    }
}

pub proof fn lemma_component_start_bounds(s: Seq<char>, end: int)
    ensures
        end >= 0 ==> 0 <= component_start(s, end) <= end,
    decreases end,
{
    if end > 0 && s[end - 1] != '/' {
        lemma_component_start_bounds(s, end - 1);
    }
}

/// The last component of `s[..end]` that is not `.`, as `Path::file_name`
/// finds it: separators at the end and `.` components are passed over; a
/// last component `..`, or none at all, gives `None`.
pub open spec fn file_name_before(s: Seq<char>, end: int) -> Option<Seq<char>>
    decreases end,
{
    if end <= 0 {
        None
    } else {
        let e = strip_separators(s, end);
        proof {
            lemma_strip_separators_bounds(s, end);
        }
        if e <= 0 {
            None
        } else {
            let b = component_start(s, e);
            let c = s.subrange(b, e);
            if c == seq!['.'] {
                file_name_before(s, e - 1)
            } else if c == seq!['.', '.'] {
                None
            } else {
                Some(c)
            }
        }
    }
}

/// The final component of path `s`, as `Path::file_name` returns it.
pub open spec fn file_name_of(s: Seq<char>) -> Option<Seq<char>> {
    file_name_before(s, s.len() as int)
}

/// `name` appended to `base` as `Path::join` (that is, `PathBuf::push`)
/// does: an absolute `name` replaces `base`; otherwise a separator is put
/// between them unless `base` is empty or already ends with one.
pub open spec fn join(base: Seq<char>, name: Seq<char>) -> Seq<char> {
    if name.len() > 0 && name[0] == '/' {
        name
    } else if base.len() == 0 || base.last() == '/' {
        base + name
    } else {
        base + seq!['/'] + name
    }
}

/// Finds the final component of the path `cs`: its bounds in `cs`, or
/// `None` where the path has none.
fn file_name_bounds(cs: &Vec<char>) -> (r: Option<(usize, usize)>)
    ensures
        match r {
            Some((b, e)) => b <= e <= cs.len() && file_name_of(cs@) == Some(cs@.subrange(b as int, e as int)),
            None => file_name_of(cs@) is None,
        },
{
    let n = cs.len();
    let mut end = n;
    loop
        invariant
            end <= n == cs.len(),
            file_name_before(cs@, end as int) == file_name_of(cs@),
        decreases end,
    {
        if end == 0 {
            return None;
        }
        let mut e = end;
        while e > 0 && cs[e - 1] == '/'
            invariant
                e <= end <= n == cs.len(),
                strip_separators(cs@, e as int) == strip_separators(cs@, end as int),
            decreases e,
        {
            e = e - 1;
        }
        if e == 0 {
            return None;
        }
        let mut b = e;
        while b > 0 && cs[b - 1] != '/'
            invariant
                b <= e <= n == cs.len(),
                component_start(cs@, b as int) == component_start(cs@, e as int),
            decreases b,
        {
            b = b - 1;
        }
        let ghost c = cs@.subrange(b as int, e as int);
        proof {
            assert(strip_separators(cs@, e as int) == e as int);
            assert(component_start(cs@, b as int) == b as int);
            assert(file_name_before(cs@, end as int) == (if c == seq!['.'] {
                file_name_before(cs@, e - 1)
            } else if c == seq!['.', '.'] {
                None
            } else {
                Some(c)
            }));
        }
        if e - b == 1 && cs[b] == '.' {
            proof {
                assert(c =~= seq!['.']);
            }
            end = e - 1;
        } else if e - b == 2 && cs[b] == '.' && cs[b + 1] == '.' {
            proof {
                assert(c =~= seq!['.', '.']);
            }
            return None;
        } else {
            proof {
                assert(c != seq!['.']) by {
                    if c == seq!['.'] {
                        assert(c.len() == 1);
                        assert(c[0] == cs@[b as int]);
                    }
                }
                assert(c != seq!['.', '.']) by {
                    if c == seq!['.', '.'] {
                        assert(c.len() == 2);
                        assert(c[0] == cs@[b as int]);
                        assert(c[1] == cs@[b + 1]);
                    }
                }
            }
            return Some((b, e));
        }
    }
}

/// The final component of `path`, as `Path::file_name` returns it: `None`
/// for an empty path, the root, `.` or a path that ends in `..`.
pub fn file_name(path: &str) -> (r: Option<String>)
    ensures
        match r {
            Some(n) => file_name_of(path@) == Some(n@),
            None => file_name_of(path@) is None,
        },
{
    let cs = chars_of(path);
    match file_name_bounds(&cs) {
        Some((b, e)) => Some(string_from_chars(&cs, b, e)),
        None => None,
    }
}

/// `base` joined with `name` as `Path::new(base).join(name)` joins them.
pub fn join_path(base: &str, name: &str) -> (r: String)
    ensures
        r@ == join(base@, name@),
{
    let bs = chars_of(base);
    let ns = chars_of(name);
    let mut r = String::new();
    if ns.len() > 0 && ns[0] == '/' {
        push_str(&mut r, name);
    } else if bs.len() == 0 || bs[bs.len() - 1] == '/' {
        push_str(&mut r, base);
        push_str(&mut r, name);
    } else {
        push_str(&mut r, base);
        push_str(&mut r, "/");
        proof {
            reveal_strlit("/");
        }
        push_str(&mut r, name);
    }
    r
}


/// The directory, relative to the working directory, where uploaded files
/// and their compressed copies are stored.
pub open spec fn storage_dir() -> Seq<char> {
    "files"@
}

/// The suffix of a gzip-compressed copy.
pub open spec fn gz_suffix() -> Seq<char> {
    ".gz"@
}

/// The name an uploaded file takes when its path has no final component.
pub open spec fn fallback_upload_name() -> Seq<char> {
    "uploaded_file"@
}

/// Where an uploaded file called `name` is stored:
/// `Path::new("files").join(name)`.
pub fn stored_path(name: &str) -> (r: String)
    ensures
        r@ == join(storage_dir(), name@),
{
    join_path("files", name)
}

/// The name under which a file given on the command line is uploaded: its
/// final component, or `uploaded_file` where the path has none.
pub fn upload_name(path: &str) -> (r: String)
    ensures
        r@ == (match file_name_of(path@) {
            Some(n) => n,
            None => fallback_upload_name(),
        }),
{
    match file_name(path) {
        Some(n) => n,
        None => {
            let mut r = String::new();
            push_str(&mut r, "uploaded_file");
            r
        },
    }
}

/// Where the compressed copy of the file at `input` is written: the file's
/// final component with `.gz` appended, in the storage directory. `None`
/// where the path has no final component.
pub fn compressed_output_path(input: &str) -> (r: Option<String>)
    ensures
        match r {
            Some(o) => file_name_of(input@) matches Some(n) && o@ == join(storage_dir(), n + gz_suffix()),
            None => file_name_of(input@) is None,
        },
{
    match file_name(input) {
        Some(n) => {
            let mut name = n;
            push_str(&mut name, ".gz");
            Some(join_path("files", name.as_str()))
        },
        None => None,
    }
}

/// The compressed copy of `file`, written beside it: `file` with `.gz`
/// appended.
pub fn gz_sibling_path(file: &str) -> (r: String)
    ensures
        r@ == file@ + gz_suffix(),
{
    let mut r = String::new();
    push_str(&mut r, file);
    push_str(&mut r, ".gz");
    r
}

/// Where a file received under `name` in an upload form is stored:
/// `files/` followed by the name.
pub fn upload_target_path(name: &str) -> (r: String)
    ensures
        r@ == storage_dir() + seq!['/'] + name@,
{
    let mut r = String::new();
    push_str(&mut r, "files/");
    proof {
        reveal_strlit("files/");
        reveal_strlit("files");
        assert("files/"@ =~= storage_dir() + seq!['/']);
    }
    push_str(&mut r, name);
    r
}


/// Whether `n` is a single ordinary path component: not empty, without a
/// separator, and neither `.` nor `..`.
pub open spec fn is_plain_component(n: Seq<char>) -> bool {
    &&& n.len() > 0
    &&& forall|i: int| 0 <= i < n.len() ==> #[trigger] n[i] != '/'
    &&& n != seq!['.']
    &&& n != seq!['.', '.']
}

proof fn lemma_component_start_no_separator(s: Seq<char>, e: int)
    requires
        0 <= e <= s.len(),
    ensures
        forall|i: int| component_start(s, e) <= i < e ==> #[trigger] s[i] != '/',
        component_start(s, e) > 0 ==> s[component_start(s, e) - 1] == '/',
    decreases e,
{
    if e > 0 && s[e - 1] != '/' {
        lemma_component_start_no_separator(s, e - 1);
    }
}

proof fn lemma_component_start_after_separator(s: Seq<char>, p: int, k: int)
    requires
        0 <= p,
        0 <= k,
        p + k <= s.len(),
        p == 0 || s[p - 1] == '/',
        forall|i: int| p <= i < p + k ==> #[trigger] s[i] != '/',
    ensures
        component_start(s, p + k) == p,
    decreases k,
{
    if k > 0 {
        lemma_component_start_after_separator(s, p, k - 1);
    }
}

proof fn lemma_file_name_before_plain(s: Seq<char>, end: int)
    requires
        0 <= end <= s.len(),
    ensures
        file_name_before(s, end) matches Some(c) ==> is_plain_component(c),
    decreases end,
{
    if end > 0 {
        let e = strip_separators(s, end);
        lemma_strip_separators_bounds(s, end);
        if e > 0 {
            let b = component_start(s, e);
            lemma_component_start_bounds(s, e);
            lemma_component_start_no_separator(s, e);
            let c = s.subrange(b, e);
            if c == seq!['.'] {
                lemma_file_name_before_plain(s, e - 1);
            } else if c != seq!['.', '.'] {
                assert(s[e - 1] != '/');
                assert(b < e);
                assert forall|i: int| 0 <= i < c.len() implies #[trigger] c[i] != '/' by {
                    assert(c[i] == s[b + i]);
                }
            }
        }
    }
}

/// Law: whatever `Path::file_name` finds is a single ordinary component,
/// never empty, never holding a separator, never `.` or `..`.
pub proof fn law_file_name_is_plain(path: Seq<char>)
    ensures
        file_name_of(path) matches Some(n) ==> is_plain_component(n),
{
    lemma_file_name_before_plain(path, path.len() as int);
}

/// Law: joining an ordinary component to any base and asking for the file
/// name gives the component back.
pub proof fn law_join_then_file_name(base: Seq<char>, name: Seq<char>)
    requires
        is_plain_component(name),
    ensures
        file_name_of(join(base, name)) == Some(name),
{
    let pre = if base.len() == 0 || base.last() == '/' { base } else { base + seq!['/'] };
    let s = join(base, name);
    assert(name[0] != '/');
    assert(s =~= pre + name);
    let p = pre.len() as int;
    let n = s.len() as int;
    assert(s[n - 1] == name[name.len() - 1]);
    assert(strip_separators(s, n) == n);
    assert forall|i: int| p <= i < p + name.len() implies #[trigger] s[i] != '/' by {
        assert(s[i] == name[i - p]);
    }
    if p > 0 {
        assert(s[p - 1] == pre[p - 1]);
    }
    lemma_component_start_after_separator(s, p, name.len() as int);
    assert(s.subrange(p, n) =~= name);
}

/// Law: the compressed copy of a file keeps the file's name with `.gz`
/// appended, and it lies directly in the storage directory.
pub proof fn law_compressed_copy_name(input: Seq<char>)
    ensures
        file_name_of(input) matches Some(n) ==> {
            &&& file_name_of(join(storage_dir(), n + gz_suffix())) == Some(n + gz_suffix())
            &&& join(storage_dir(), n + gz_suffix()) == storage_dir() + seq!['/'] + n + gz_suffix()
        },
{
    law_file_name_is_plain(input);
    if let Some(n) = file_name_of(input) {
        reveal_strlit(".gz");
        reveal_strlit("files");
        let m = n + gz_suffix();
        assert forall|i: int| 0 <= i < m.len() implies #[trigger] m[i] != '/' by {
            if i < n.len() {
                assert(m[i] == n[i]);
            }
        }
        assert(m.len() >= 4);
        assert(m != seq!['.']);
        assert(m != seq!['.', '.']);
        law_join_then_file_name(storage_dir(), m);
        assert(storage_dir().last() == 's');
        assert(join(storage_dir(), m) =~= storage_dir() + seq!['/'] + n + gz_suffix());
    }
}

/// Law: a file uploaded from a path on the command line is stored under the
/// storage directory with a file name equal to the name it was uploaded
/// under.
pub proof fn law_stored_upload_keeps_name(path: Seq<char>)
    ensures
        ({
            let name = match file_name_of(path) {
                Some(n) => n,
                None => fallback_upload_name(),
            };
            file_name_of(join(storage_dir(), name)) == Some(name)
        }),
{
    law_file_name_is_plain(path);
    match file_name_of(path) {
        Some(n) => {
            law_join_then_file_name(storage_dir(), n);
        },
        None => {
            reveal_strlit("uploaded_file");
            let f = fallback_upload_name();
            assert(f.len() == 13);
            assert forall|i: int| 0 <= i < f.len() implies #[trigger] f[i] != '/' by {}
            law_join_then_file_name(storage_dir(), f);
        },
    }
}

} // verus!
