//! Checks and normalisation of Unity asset paths.
use vstd::prelude::*;

use crate::text::{
    all_white_space, chars_of, concat2, contains, contains_seq, decimal, has_prefix, is_blank,
    join, push_all, starts_with, string_from_chars, usize_to_decimal, utf8_len,
    utf8_len_exceeds,
};

verus! {

/// `/` and `\` both separate the parts of an asset path.
pub open spec fn is_path_sep(c: char) -> bool {
    c == '/' || c == '\\'
}

/// Characters that no asset path may hold.
pub open spec fn is_invalid_path_char(c: char) -> bool {
    c == '<' || c == '>' || c == ':' || c == '"' || c == '|' || c == '?' || c == '*'
}

/// Whether `s` holds a character that no asset path may hold.
pub open spec fn has_invalid_path_char(s: Seq<char>) -> bool {
    exists|i: int| 0 <= i < s.len() && is_invalid_path_char(#[trigger] s[i])
}

/// The first check that `path` fails, as its message, or `None` when it
/// passes them all. `max` is the longest path allowed, in bytes.
pub open spec fn asset_path_error(path: Seq<char>, max: nat) -> Option<Seq<char>> {
    if all_white_space(path) {
        Some("Path cannot be empty"@)
    } else if !has_prefix(path, "Assets/"@) && !has_prefix(path, "Assets\\"@) {
        Some("Path must start with 'Assets/' or 'Assets\\'"@)
    } else if contains_seq(path, "../"@) || contains_seq(path, "..\\"@) {
        Some("Path traversal not allowed"@)
    } else if has_invalid_path_char(path) {
        Some("Path contains invalid characters"@)
    } else if utf8_len(path) > max {
        Some("Path exceeds maximum length of "@ + decimal(max) + " characters"@)
    } else {
        None
    }
}

/// Reading `s` from the left: the parts already closed by a separator, and
/// the part still open.
pub open spec fn path_scan(s: Seq<char>) -> (Seq<Seq<char>>, Seq<char>)
    decreases s.len(),
{
    if s.len() == 0 {
        (Seq::empty(), Seq::empty())
    } else {
        let (done, open) = path_scan(s.drop_last());
        let c = s.last();
        if is_path_sep(c) {
            if open.len() > 0 {
                (done.push(open), Seq::empty())
            } else {
                (done, open)
            }
        } else {
            (done, open.push(c))
        }
    }
}

/// The non-empty parts of `s` between separators, in order.
pub open spec fn path_segments(s: Seq<char>) -> Seq<Seq<char>> {
    let (done, open) = path_scan(s);
    if open.len() > 0 {
        done.push(open)
    } else {
        done
    }
}

/// The normal form of an asset path: its non-empty parts joined by `/`,
/// under `Assets/` unless that is already how it starts.
pub open spec fn normalized_asset_path(s: Seq<char>) -> Seq<char> {
    let joined = join(path_segments(s), "/"@);
    if has_prefix(joined, "Assets/"@) {
        joined
    } else {
        "Assets/"@ + joined
    }
}

/// Whether `v` holds a character that no asset path may hold.
fn holds_invalid_path_char(v: &Vec<char>) -> (r: bool)
    ensures
        r == has_invalid_path_char(v@),
{
    let mut i: usize = 0;
    while i < v.len()
        invariant
            i <= v@.len(),
            forall|k: int| 0 <= k < i ==> !is_invalid_path_char(#[trigger] v@[k]),
        decreases v.len() - i,
    {
        let c = v[i];
        if c == '<' || c == '>' || c == ':' || c == '"' || c == '|' || c == '?' || c == '*' {
            assert(is_invalid_path_char(v@[i as int]));
            return true;
        }
        i = i + 1;
    }
    false
}

/// Checks asset paths against the rules of the Unity project layout.
pub struct AssetPathValidator {
    max_path_length: usize,
}

impl AssetPathValidator {
    /// The longest path the validator accepts, in bytes.
    pub closed spec fn max_len(&self) -> nat {
        self.max_path_length as nat
    }

    /// A validator that accepts paths of up to 260 bytes.
    pub fn new() -> (r: AssetPathValidator)
        ensures
            r.max_len() == 260,
    {
        AssetPathValidator { max_path_length: 260 }
    }

    /// Checks `path`; the error is the message of the first rule it breaks.
    pub fn validate_asset_path(&self, path: &str) -> (r: Result<(), String>)
        ensures
            match r {
                Ok(()) => asset_path_error(path@, self.max_len()) is None,
                Err(m) => asset_path_error(path@, self.max_len()) == Some(m@),
            },
    {
        if is_blank(path) {
            return Err(String::from_str("Path cannot be empty"));
        }
        let v = chars_of(path);
        if !starts_with(&v, "Assets/") && !starts_with(&v, "Assets\\") {
            return Err(String::from_str("Path must start with 'Assets/' or 'Assets\\'"));
        }
        if contains(&v, "../") || contains(&v, "..\\") {
            return Err(String::from_str("Path traversal not allowed"));
        }
        if holds_invalid_path_char(&v) {
            return Err(String::from_str("Path contains invalid characters"));
        }
        if utf8_len_exceeds(&v, self.max_path_length) {
            let n = usize_to_decimal(self.max_path_length);
            let mut m = concat2("Path exceeds maximum length of ", n.as_str());
            m.append(" characters");
            return Err(m);
        }
        Ok(())
    }

    /// The normal form of `path`: separators made `/`, empty parts dropped,
    /// and `Assets/` put in front where the result does not start with it.
    pub fn normalize_path(&self, path: &str) -> (r: Result<String, String>)
        ensures
            r matches Ok(p) && p@ == normalized_asset_path(path@),
    {
        let v = chars_of(path);
        let mut out: Vec<char> = Vec::new();
        let mut open: Vec<char> = Vec::new();
        let mut any: bool = false;
        let mut i: usize = 0;
        while i < v.len()
            invariant
                i <= v@.len(),
                open@ == path_scan(v@.take(i as int)).1,
                out@ == join(path_scan(v@.take(i as int)).0, "/"@),
                any == (path_scan(v@.take(i as int)).0.len() > 0),
            decreases v.len() - i,
        {
            let c = v[i];
            assert(v@.take(i + 1).drop_last() == v@.take(i as int));
            let ghost done = path_scan(v@.take(i as int)).0;
            if c == '/' || c == '\\' {
                if open.len() > 0 {
                    assert(done.push(open@).drop_last() == done);
                    if any {
                        out.push('/');
                        assert("/"@ == seq!['/']) by {
                            reveal_strlit("/");
                        }
                    }
                    push_all(&mut out, &open);
                    open = Vec::new();
                    any = true;
                }
            } else {
                open.push(c);
            }
            i = i + 1;
        }
        assert(v@.take(v.len() as int) == v@);
        let ghost done = path_scan(v@).0;
        if open.len() > 0 {
            assert(done.push(open@).drop_last() == done);
            if any {
                out.push('/');
                assert("/"@ == seq!['/']) by {
                    reveal_strlit("/");
                }
            }
            push_all(&mut out, &open);
        }
        assert(out@ == join(path_segments(v@), "/"@));
        if starts_with(&out, "Assets/") {
            Ok(string_from_chars(&out))
        } else {
            let joined = string_from_chars(&out);
            Ok(concat2("Assets/", joined.as_str()))
        }
    }
}

impl Default for AssetPathValidator {
    fn default() -> (r: AssetPathValidator)
        ensures
            r.max_len() == 260,
    {
        AssetPathValidator::new()
    }
}

/// The non-empty parts of `v` between separators, in order.
pub fn segments_of(v: &Vec<char>) -> (r: Vec<String>)
    ensures
        r@.len() == path_segments(v@).len(),
        forall|k: int| 0 <= k < r@.len() ==> (#[trigger] r@[k])@ == path_segments(v@)[k],
{
    let mut done: Vec<String> = Vec::new();
    let mut open: Vec<char> = Vec::new();
    let mut i: usize = 0;
    while i < v.len()
        invariant
            i <= v@.len(),
            open@ == path_scan(v@.take(i as int)).1,
            done@.len() == path_scan(v@.take(i as int)).0.len(),
            forall|k: int| 0 <= k < done@.len() ==> (#[trigger] done@[k])@ == path_scan(v@.take(i as int)).0[k],
        decreases v.len() - i,
    {
        let c = v[i];
        assert(v@.take(i + 1).drop_last() == v@.take(i as int));
        if c == '/' || c == '\\' {
            if open.len() > 0 {
                done.push(string_from_chars(&open));
                open = Vec::new();
            }
        } else {
            open.push(c);
        }
        i = i + 1;
    }
    assert(v@.take(v.len() as int) == v@);
    if open.len() > 0 {
        done.push(string_from_chars(&open));
    }
    done
}

/// A part of a path: not empty, without separators.
pub open spec fn clean_part(w: Seq<char>) -> bool {
    w.len() > 0 && forall|i: int| 0 <= i < w.len() ==> !is_path_sep(#[trigger] w[i])
}

/// Every part is clean.
pub open spec fn clean_parts(parts: Seq<Seq<char>>) -> bool {
    forall|i: int| 0 <= i < parts.len() ==> clean_part(#[trigger] parts[i])
}

proof fn lemma_scan_clean(s: Seq<char>)
    ensures
        clean_parts(path_scan(s).0),
        forall|i: int| 0 <= i < path_scan(s).1.len() ==> !is_path_sep(#[trigger] path_scan(s).1[i]),
    decreases s.len(),
{
    if s.len() > 0 {
        lemma_scan_clean(s.drop_last());
        let (done, open) = path_scan(s.drop_last());
        let c = s.last();
        if !is_path_sep(c) {
            assert forall|i: int| 0 <= i < open.push(c).len() implies !is_path_sep(#[trigger] open.push(c)[i]) by {
                if i < open.len() {
                    assert(open.push(c)[i] == open[i]);
                }
            }
        } else if open.len() > 0 {
            assert forall|i: int| 0 <= i < done.push(open).len() implies clean_part(#[trigger] done.push(open)[i]) by {
                if i < done.len() {
                    assert(done.push(open)[i] == done[i]);
                }
            }
        }
    }
}

proof fn lemma_segments_clean(s: Seq<char>)
    ensures
        clean_parts(path_segments(s)),
{
    lemma_scan_clean(s);
    let (done, open) = path_scan(s);
    if open.len() > 0 {
        assert forall|i: int| 0 <= i < done.push(open).len() implies clean_part(#[trigger] done.push(open)[i]) by {
            if i < done.len() {
                assert(done.push(open)[i] == done[i]);
            }
        }
    }
}

proof fn lemma_scan_word(x: Seq<char>, w: Seq<char>, d: Seq<Seq<char>>)
    requires
        path_scan(x) == (d, Seq::<char>::empty()),
        forall|i: int| 0 <= i < w.len() ==> !is_path_sep(#[trigger] w[i]),
    ensures
        path_scan(x + w) == (d, w),
    decreases w.len(),
{
    if w.len() == 0 {
        assert(x + w =~= x);
    } else {
        lemma_scan_word(x, w.drop_last(), d);
        assert((x + w).drop_last() =~= x + w.drop_last());
        assert((x + w).last() == w.last());
        assert(w.drop_last().push(w.last()) =~= w);
    }
}

proof fn lemma_scan_sep(y: Seq<char>)
    requires
        path_scan(y).1.len() > 0,
    ensures
        path_scan(y + "/"@) == (path_scan(y).0.push(path_scan(y).1), Seq::<char>::empty()),
{
    reveal_strlit("/");
    assert((y + "/"@).drop_last() =~= y);
    assert((y + "/"@).last() == '/');
}

proof fn lemma_scan_join(x: Seq<char>, d: Seq<Seq<char>>, parts: Seq<Seq<char>>)
    requires
        path_scan(x) == (d, Seq::<char>::empty()),
        parts.len() > 0,
        clean_parts(parts),
    ensures
        path_scan(x + join(parts, "/"@)) == (d + parts.drop_last(), parts.last()),
    decreases parts.len(),
{
    if parts.len() == 1 {
        assert(clean_part(parts[0]));
        lemma_scan_word(x, parts[0], d);
        assert(parts.drop_last() =~= Seq::<Seq<char>>::empty());
        assert(d + parts.drop_last() =~= d);
    } else {
        let front = parts.drop_last();
        assert forall|i: int| 0 <= i < front.len() implies clean_part(#[trigger] front[i]) by {
            assert(front[i] == parts[i]);
        }
        lemma_scan_join(x, d, front);
        let j = join(front, "/"@);
        assert(clean_part(front.last()));
        lemma_scan_sep(x + j);
        assert(x + join(parts, "/"@) =~= ((x + j) + "/"@) + parts.last());
        assert(clean_part(parts[parts.len() - 1]));
        assert((d + front.drop_last()).push(front.last()) =~= d + parts.drop_last());
        lemma_scan_word((x + j) + "/"@, parts.last(), d + parts.drop_last());
    }
}

proof fn lemma_segments_of_join(x: Seq<char>, d: Seq<Seq<char>>, parts: Seq<Seq<char>>)
    requires
        path_scan(x) == (d, Seq::<char>::empty()),
        parts.len() > 0,
        clean_parts(parts),
    ensures
        path_segments(x + join(parts, "/"@)) == d + parts,
{
    lemma_scan_join(x, d, parts);
    assert(clean_part(parts[parts.len() - 1]));
    assert((d + parts.drop_last()).push(parts.last()) =~= d + parts);
}

proof fn lemma_join_front(a: Seq<char>, parts: Seq<Seq<char>>)
    requires
        parts.len() > 0,
    ensures
        join(seq![a] + parts, "/"@) == a + "/"@ + join(parts, "/"@),
    decreases parts.len(),
{
    let all = seq![a] + parts;
    if parts.len() == 1 {
        assert(all.drop_last() =~= seq![a]);
        assert(all.last() == parts[0]);
        assert(join(seq![a], "/"@) == a);
        assert(join(parts, "/"@) == parts[0]);
        assert(join(all, "/"@) == join(all.drop_last(), "/"@) + "/"@ + all.last());
    } else {
        lemma_join_front(a, parts.drop_last());
        assert(all.drop_last() =~= seq![a] + parts.drop_last());
        assert(all.last() == parts.last());
        assert(join(all, "/"@) == join(all.drop_last(), "/"@) + "/"@ + all.last());
        assert(join(parts, "/"@) == join(parts.drop_last(), "/"@) + "/"@ + parts.last());
        assert(a + "/"@ + join(parts, "/"@) =~= (a + "/"@ + join(parts.drop_last(), "/"@)) + "/"@ + parts.last());
    }
}

/// Normalising a normalised path changes nothing, for every path with at
/// least one part (a path of separators only, or an empty one, becomes
/// `Assets/`, which normalises to `Assets/Assets`).
pub proof fn law_normalize_idempotent(path: Seq<char>)
    requires
        path_segments(path).len() > 0,
    ensures
        normalized_asset_path(normalized_asset_path(path)) == normalized_asset_path(path),
{
    let segs = path_segments(path);
    lemma_segments_clean(path);
    let joined = join(segs, "/"@);
    let empty = Seq::<char>::empty();
    assert(path_scan(empty) == (Seq::<Seq<char>>::empty(), empty));
    if has_prefix(joined, "Assets/"@) {
        assert(empty + joined =~= joined);
        lemma_segments_of_join(empty, Seq::<Seq<char>>::empty(), segs);
        assert(Seq::<Seq<char>>::empty() + segs =~= segs);
    } else {
        reveal_strlit("Assets/");
        reveal_strlit("Assets");
        reveal_strlit("/");
        let head = "Assets"@;
        assert(clean_part(head));
        lemma_scan_word(empty, head, Seq::<Seq<char>>::empty());
        assert(empty + head =~= head);
        lemma_scan_sep(head);
        assert(head + "/"@ =~= "Assets/"@);
        let d = seq![head];
        assert(Seq::<Seq<char>>::empty().push(head) =~= d);
        lemma_segments_of_join("Assets/"@, d, segs);
        lemma_join_front(head, segs);
        assert(head + "/"@ + joined =~= "Assets/"@ + joined);
        assert(has_prefix("Assets/"@ + joined, "Assets/"@)) by {
            assert(("Assets/"@ + joined).take(7) =~= "Assets/"@);
        }
    }
}

/// A path in tidy form: not empty, neither starting nor ending with a
/// separator, with no `\` and no two `/` in a row.
pub open spec fn tidy_path(s: Seq<char>) -> bool {
    &&& s.len() > 0
    &&& !is_path_sep(s[0])
    &&& !is_path_sep(s.last())
    &&& forall|i: int| 0 <= i < s.len() ==> #[trigger] s[i] != '\\'
    &&& forall|i: int| 0 <= i < s.len() - 1 ==> !(#[trigger] s[i] == '/' && s[i + 1] == '/')
}

proof fn lemma_tidy_part(w: Seq<char>)
    requires
        clean_part(w),
    ensures
        tidy_path(w),
{
    assert(!is_path_sep(w[0]));
    assert(!is_path_sep(w[w.len() - 1]));
    assert forall|i: int| 0 <= i < w.len() implies #[trigger] w[i] != '\\' by {
        assert(!is_path_sep(w[i]));
    }
    assert forall|i: int| 0 <= i < w.len() - 1 implies !(#[trigger] w[i] == '/' && w[i + 1] == '/') by {
        assert(!is_path_sep(w[i]));
    }
}

proof fn lemma_tidy_concat(a: Seq<char>, b: Seq<char>)
    requires
        tidy_path(a),
        tidy_path(b),
    ensures
        tidy_path(a + "/"@ + b),
{
    reveal_strlit("/");
    let s = a + "/"@ + b;
    let n: int = a.len() as int;
    assert(s[n] == '/');
    assert(s.len() == n + 1 + b.len());
    assert(s[0] == a[0]);
    assert(s.last() == b.last());
    assert forall|i: int| 0 <= i < s.len() implies #[trigger] s[i] != '\\' by {
        if i < n {
            assert(s[i] == a[i]);
        } else if i > n {
            assert(s[i] == b[i - n - 1]);
        }
    }
    assert forall|i: int| 0 <= i < s.len() - 1 implies !(#[trigger] s[i] == '/' && s[i + 1] == '/') by {
        if i < n - 1 {
            assert(s[i] == a[i] && s[i + 1] == a[i + 1]);
        } else if i == n - 1 {
            assert(s[i] == a.last());
        } else if i == n {
            assert(s[i + 1] == b[0]);
        } else {
            assert(s[i] == b[i - n - 1] && s[i + 1] == b[i - n]);
        }
    }
}

proof fn lemma_join_tidy(parts: Seq<Seq<char>>)
    requires
        parts.len() > 0,
        clean_parts(parts),
    ensures
        tidy_path(join(parts, "/"@)),
    decreases parts.len(),
{
    if parts.len() == 1 {
        lemma_tidy_part(parts[0]);
    } else {
        let front = parts.drop_last();
        assert forall|i: int| 0 <= i < front.len() implies clean_part(#[trigger] front[i]) by {
            assert(front[i] == parts[i]);
        }
        lemma_join_tidy(front);
        assert(clean_part(parts[parts.len() - 1]));
        lemma_tidy_part(parts.last());
        lemma_tidy_concat(join(front, "/"@), parts.last());
    }
}

/// The normal form of a path with at least one part starts with
/// `Assets/`, holds no `\`, no two `/` in a row, and does not end with `/`.
pub proof fn law_normalized_path_shape(path: Seq<char>)
    requires
        path_segments(path).len() > 0,
    ensures
        has_prefix(normalized_asset_path(path), "Assets/"@),
        tidy_path(normalized_asset_path(path)),
{
    let segs = path_segments(path);
    lemma_segments_clean(path);
    lemma_join_tidy(segs);
    let joined = join(segs, "/"@);
    if !has_prefix(joined, "Assets/"@) {
        reveal_strlit("Assets/");
        reveal_strlit("Assets");
        reveal_strlit("/");
        let head = "Assets"@;
        assert(clean_part(head));
        lemma_tidy_part(head);
        lemma_tidy_concat(head, joined);
        assert(head + "/"@ + joined =~= "Assets/"@ + joined);
        assert(("Assets/"@ + joined).take(7) =~= "Assets/"@);
    }
}

} // verus!
