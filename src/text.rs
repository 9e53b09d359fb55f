use vstd::prelude::*;

verus! {

/// Position of the last occurrence of `c` in `s`, or -1 when `c` does not occur.
pub open spec fn last_index_of(s: Seq<char>, c: char) -> int
    decreases s.len(),
{
    if s.len() == 0 {
        -1
    } else if s.last() == c {
        s.len() - 1
    } else {
        last_index_of(s.drop_last(), c)
    }
}

/// `dir` and `name` joined by one path separator (none is added after an
/// empty directory or one that already ends in a separator).
pub open spec fn join_path(dir: Seq<char>, name: Seq<char>) -> Seq<char> {
    if dir.len() == 0 {
        name
    } else if dir.last() == '/' {
        dir + name
    } else {
        dir + seq!['/'] + name
    }
}

/// The last component of a path: everything after its last separator.
pub open spec fn file_name(p: Seq<char>) -> Seq<char> {
    p.subrange(last_index_of(p, '/') + 1, p.len() as int)
}

/// Whether the last component of `p` carries an extension: a dot that is
/// neither its first character nor absent.
pub open spec fn has_extension(p: Seq<char>) -> bool {
    last_index_of(p, '.') > last_index_of(p, '/') + 1
}

/// The extension of the last component of `p`, if it has one.
pub open spec fn extension(p: Seq<char>) -> Option<Seq<char>> {
    if has_extension(p) {
        Some(p.subrange(last_index_of(p, '.') + 1, p.len() as int))
    } else {
        None
    }
}

/// `p` with its extension replaced by `jpg`, or `.jpg` appended where it has none.
pub open spec fn jpg_sibling(p: Seq<char>) -> Seq<char> {
    if has_extension(p) {
        p.subrange(0, last_index_of(p, '.') + 1) + seq!['j', 'p', 'g']
    } else {
        p + seq!['.', 'j', 'p', 'g']
    }
}

/// Whether `pat` occurs in `s` as a contiguous run.
pub open spec fn contains_run(s: Seq<char>, pat: Seq<char>) -> bool {
    exists|i: int| 0 <= i <= s.len() - pat.len() && #[trigger] s.subrange(i, i + pat.len()) == pat
}

pub proof fn lemma_last_index_of(s: Seq<char>, c: char)
    ensures
        -1 <= last_index_of(s, c) < s.len(),
        last_index_of(s, c) >= 0 ==> s[last_index_of(s, c)] == c,
        forall|j: int| last_index_of(s, c) < j < s.len() ==> s[j] != c,
    decreases s.len(),
{
    if s.len() > 0 && s.last() != c {
        lemma_last_index_of(s.drop_last(), c);
        assert forall|j: int| last_index_of(s, c) < j < s.len() implies s[j] != c by {
            if j < s.len() - 1 {
                assert(s[j] == s.drop_last()[j]);
            }
        }
    }
}

/// Finds the last occurrence of `c` in `s`.
pub fn rfind(s: &str, c: char) -> (r: Option<usize>)
    ensures
        match r {
            Some(i) => i == last_index_of(s@, c),
            None => last_index_of(s@, c) == -1,
        },
{
    let n = s.unicode_len();
    let mut i: usize = n;
    assert(s@.subrange(0, n as int) =~= s@);
    while i > 0
        invariant
            i <= n,
            n == s@.len(),
            last_index_of(s@, c) == last_index_of(s@.subrange(0, i as int), c),
        decreases i,
    {
        let ch = s.get_char(i - 1);
        if ch == c {
            return Some(i - 1);
        }
        assert(s@.subrange(0, i as int).drop_last() =~= s@.subrange(0, i - 1));
        i = i - 1;
    }
    None
}

/// Joins a directory and a name with one path separator.
pub fn join(dir: &str, name: &str) -> (r: String)
    ensures
        r@ == join_path(dir@, name@),
{
    let n = dir.unicode_len();
    if n == 0 {
        return String::from_str(name);
    }
    let mut r = String::from_str(dir);
    if dir.get_char(n - 1) != '/' {
        proof {
            reveal_strlit("/");
        }
        r.append("/");
    }
    r.append(name);
    r
}

/// The last component of a path.
pub fn file_name_of(p: &str) -> (r: String)
    ensures
        r@ == file_name(p@),
{
    proof {
        lemma_last_index_of(p@, '/');
    }
    let n = p.unicode_len();
    let start: usize = match rfind(p, '/') {
        Some(i) => i + 1,
        None => 0,
    };
    String::from_str(p.substring_char(start, n))
}

/// The path of the JPEG file that normalising the image at `path` produces:
/// the same name with a `jpg` extension.
pub fn convert_jpg(path: &str) -> (r: String)
    ensures
        r@ == jpg_sibling(path@),
{
    proof {
        lemma_last_index_of(path@, '.');
        lemma_last_index_of(path@, '/');
        reveal_strlit("jpg");
        reveal_strlit(".jpg");
    }
    let n = path.unicode_len();
    let slash = rfind(path, '/');
    match rfind(path, '.') {
        Some(d) => {
            let ext = match slash {
                Some(sl) => d > sl && d - sl > 1,
                None => d > 0,
            };
            if ext {
                let mut r = String::from_str(path.substring_char(0, d + 1));
                r.append("jpg");
                return r;
            }
        },
        None => {},
    }
    let mut r = String::from_str(path);
    r.append(".jpg");
    r
}

/// Whether `pat` occurs in `s`.
pub fn contains_str(s: &str, pat: &str) -> (r: bool)
    ensures
        r == contains_run(s@, pat@),
{
    let n = s.unicode_len();
    let m = pat.unicode_len();
    if m > n {
        return false;
    }
    let mut i: usize = 0;
    while i <= n - m
        invariant
            m <= n,
            n == s@.len(),
            m == pat@.len(),
            forall|k: int| 0 <= k < i ==> #[trigger] s@.subrange(k, k + m) != pat@,
        decreases n - m + 1 - i,
    {
        let mut j: usize = 0;
        let mut same = true;
        while j < m
            invariant
                m <= n,
                i <= n - m,
                n == s@.len(),
                m == pat@.len(),
                j <= m,
                same == (forall|t: int| 0 <= t < j ==> s@[i + t] == pat@[t]),
            decreases m - j,
        {
            if s.get_char(i + j) != pat.get_char(j) {
                same = false;
            }
            j = j + 1;
        }
        if same {
            assert(s@.subrange(i as int, i + m) =~= pat@);
            return true;
        }
        proof {
            let t = choose|t: int| 0 <= t < m && s@[i + t] != pat@[t];
            assert(s@.subrange(i as int, i + m)[t] != pat@[t]);
        }
        i = i + 1;
    }
    false
}

} // verus!
