//! The credential filename guard run over `git status --porcelain` output before a
//! checkpoint commit.
use vstd::prelude::*;
use vstd::utf8::{is_ascii_chars, is_ascii_chars_encode_utf8, is_continuation_byte};
use crate::text::{
    ascii_lower, lower_byte, bytes_eq, copy_range, ends_with, has_prefix, has_suffix, is_boundary, starts_with,
    str_bytes, to_ascii_lower, utf8,
};

verus! {

/// End of the line that starts at `from`: the index of the next `\n`, or the length.
pub open spec fn next_newline(s: Seq<u8>, from: int) -> int
    decreases s.len() - from,
{
    if from >= s.len() {
        s.len() as int
    } else if s[from] == 10 {
        from
    } else {
        next_newline(s, from + 1)
    }
}

pub proof fn lemma_next_newline(s: Seq<u8>, from: int)
    requires
        0 <= from,
    ensures
        from <= s.len() ==> from <= next_newline(s, from) <= s.len(),
        next_newline(s, from) < s.len() ==> s[next_newline(s, from)] == 10,
        forall|j: int| from <= j < next_newline(s, from) ==> s[j] != 10,
    decreases s.len() - from,
{
    if from < s.len() && s[from] != 10 {
        lemma_next_newline(s, from + 1);
    }
}

/// The line that starts at `start`, as `str::lines` yields it: without its `\n`,
/// and without a `\r` that stands right before that `\n`.
pub open spec fn line_at(s: Seq<u8>, start: int) -> Seq<u8> {
    let e = next_newline(s, start);
    let raw = s.subrange(start, e);
    if e < s.len() && raw.len() > 0 && raw.last() == 13 {
        raw.drop_last()
    } else {
        raw
    }
}

/// The path part of a porcelain status line: the text after its first three bytes
/// (empty when the line is shorter or byte 3 splits a character).
pub open spec fn status_path(l: Seq<u8>) -> Seq<u8> {
    if l.len() >= 3 && is_boundary(l, 3) {
        l.subrange(3, l.len() as int)
    } else {
        seq![]
    }
}

/// The separator of a rename entry.
pub open spec fn arrow() -> Seq<u8> {
    seq![32u8, 45u8, 62u8, 32u8]
}

/// The first index at or after `k` where `pat` occurs in `p`, or -1.
pub open spec fn find_from(p: Seq<u8>, pat: Seq<u8>, k: int) -> int
    decreases p.len() + 1 - k,
{
    if k < 0 || k + pat.len() > p.len() {
        -1
    } else if p.subrange(k, k + pat.len()) == pat {
        k
    } else {
        find_from(p, pat, k + 1)
    }
}

/// The destination of a rename entry (the text after the first ` -> `), or the path.
pub open spec fn rename_target(p: Seq<u8>) -> Seq<u8> {
    let j = find_from(p, arrow(), 0);
    if j >= 0 {
        p.subrange(j + 4, p.len() as int)
    } else {
        p
    }
}

/// The index of the last `/` before `end`, or -1.
pub open spec fn last_slash_before(p: Seq<u8>, end: int) -> int
    decreases end,
{
    if end <= 0 {
        -1
    } else if p[end - 1] == 47 {
        end - 1
    } else {
        last_slash_before(p, end - 1)
    }
}

pub proof fn lemma_last_slash(p: Seq<u8>, end: int)
    ensures
        -1 <= last_slash_before(p, end) < end || (end <= 0 && last_slash_before(p, end) == -1),
        last_slash_before(p, end) >= 0 ==> p[last_slash_before(p, end)] == 47,
        forall|j: int| last_slash_before(p, end) < j < end ==> p[j] != 47,
    decreases end,
{
    if end > 0 && p[end - 1] != 47 {
        lemma_last_slash(p, end - 1);
    }
}

/// The final component of `p[..end]` as `Path::file_name` gives it: trailing
/// slashes and `.` components are skipped; a final `..`, or no component at all,
/// gives the empty name.
pub open spec fn file_name_upto(p: Seq<u8>, end: int) -> Seq<u8>
    decreases end,
{
    if end <= 0 {
        seq![]
    } else if p[end - 1] == 47 {
        file_name_upto(p, end - 1)
    } else {
        let st = last_slash_before(p, end) + 1;
        let seg = p.subrange(st, end);
        if seg == seq![46u8] {
            proof {
                lemma_last_slash(p, end);
            }
            file_name_upto(p, st)
        } else if seg == seq![46u8, 46u8] {
            seq![]
        } else {
            seg
        }
    }
}

/// The file name of the path `p` (empty when it has none).
pub open spec fn file_name(p: Seq<u8>) -> Seq<u8> {
    file_name_upto(p, p.len() as int)
}

/// A file name that the guard refuses to commit (already lower-cased).
pub open spec fn credential_name(n: Seq<u8>) -> bool {
    ||| n == utf8(".env"@)
    ||| starts_with(n, utf8(".env."@))
    ||| starts_with(n, utf8("credentials"@))
    ||| starts_with(n, utf8("secrets"@))
    ||| ends_with(n, utf8(".pem"@))
    ||| ends_with(n, utf8(".key"@))
    ||| n == utf8("id_rsa"@)
    ||| n == utf8("id_ed25519"@)
}

/// A status line whose path names a credential file.
pub open spec fn credential_line(l: Seq<u8>) -> bool {
    credential_name(ascii_lower(file_name(rename_target(status_path(l)))))
}

/// No line of `s` from `start` on names a credential file.
pub open spec fn lines_pass(s: Seq<u8>, start: int) -> bool
    decreases s.len() + 1 - start,
{
    if start < 0 || start >= s.len() {
        true
    } else {
        proof {
            lemma_next_newline(s, start);
        }
        !credential_line(line_at(s, start)) && lines_pass(s, next_newline(s, start) + 1)
    }
}

/// The bytes of an ASCII text are its characters, one byte each.
proof fn lemma_ascii_utf8(chars: Seq<char>)
    requires
        is_ascii_chars(chars),
    ensures
        utf8(chars).len() == chars.len(),
        forall|i: int| 0 <= i < chars.len() ==> #[trigger] utf8(chars)[i] == chars[i] as u8,
{
    is_ascii_chars_encode_utf8(chars);
}

/// The bytes of `.env.`.
proof fn lemma_env_dot_bytes()
    ensures
        utf8(".env."@) == seq![46u8, 101u8, 110u8, 118u8, 46u8],
{
    reveal_strlit(".env.");
    lemma_ascii_utf8(".env."@);
    assert(utf8(".env."@) =~= seq![46u8, 101u8, 110u8, 118u8, 46u8]);
}

/// What the guard refuses, by name (already lower-cased): `.env`, any name that
/// starts with `.env.`, `credentials` or `secrets`, any name that ends with
/// `.pem` or `.key`, and `id_rsa` and `id_ed25519`.
pub proof fn credential_names_are_refused(t: Seq<u8>)
    ensures
        credential_name(utf8(".env."@) + t),
        credential_name(utf8("credentials"@) + t),
        credential_name(utf8("secrets"@) + t),
        credential_name(t + utf8(".pem"@)),
        credential_name(t + utf8(".key"@)),
        credential_name(utf8(".env"@)),
        credential_name(utf8("id_rsa"@)),
        credential_name(utf8("id_ed25519"@)),
{
    assert((utf8(".env."@) + t).subrange(0, utf8(".env."@).len() as int) =~= utf8(".env."@));
    assert((utf8("credentials"@) + t).subrange(0, utf8("credentials"@).len() as int) =~= utf8(
        "credentials"@,
    ));
    assert((utf8("secrets"@) + t).subrange(0, utf8("secrets"@).len() as int) =~= utf8("secrets"@));
    let pem = t + utf8(".pem"@);
    assert(pem.subrange(pem.len() - utf8(".pem"@).len(), pem.len() as int) =~= utf8(".pem"@));
    let key = t + utf8(".key"@);
    assert(key.subrange(key.len() - utf8(".key"@).len(), key.len() as int) =~= utf8(".key"@));
}

/// No match of ` -> ` starts at or after `k` in a text where none stands.
proof fn lemma_no_arrow(p: Seq<u8>, k: int)
    requires
        0 <= k,
        forall|j: int| 0 <= j && j + 4 <= p.len() ==> #[trigger] p.subrange(j, j + 4) != arrow(),
    ensures
        find_from(p, arrow(), k) == -1,
    decreases p.len() + 1 - k,
{
    if k + 4 <= p.len() {
        lemma_no_arrow(p, k + 1);
    }
}

/// A path in `dir` (empty, or ending with `/`) whose name is `e` followed by
/// `t`, where `e` lower-cases to `.env.` and `t` holds no `/`, has a
/// credential name.
proof fn lemma_env_path(dir: Seq<u8>, e: Seq<u8>, t: Seq<u8>)
    requires
        dir.len() == 0 || dir.last() == 47,
        ascii_lower(e) == utf8(".env."@),
        forall|i: int| 0 <= i < t.len() ==> #[trigger] t[i] != 47,
    ensures
        credential_name(ascii_lower(file_name(dir + e + t))),
        e.len() == 5,
        e[0] == 46,
        forall|i: int| 0 <= i < 5 ==> #[trigger] e[i] != 10 && e[i] != 32,
{
    lemma_env_dot_bytes();
    let p = dir + e + t;
    let d = dir.len() as int;
    assert(ascii_lower(e).len() == e.len());
    assert(utf8(".env."@).len() == 5);
    assert forall|i: int| 0 <= i < 5 implies e[i] != 10 && e[i] != 47 && e[i] != 32 by {
        assert(ascii_lower(e)[i] == lower_byte(e[i]));
    }
    assert(ascii_lower(e)[0] == lower_byte(e[0]));
    // The last `/` of the path is the one that ends `dir`.
    assert forall|i: int| d <= i < p.len() implies p[i] != 47 by {
        if i >= d + 5 {
            assert(p[i] == t[i - d - 5]);
        } else {
            assert(p[i] == e[i - d]);
        }
    }
    lemma_last_slash(p, p.len() as int);
    let ls = last_slash_before(p, p.len() as int);
    if d > 0 {
        assert(p[d - 1] == 47);
        assert(ls == d - 1);
    } else {
        assert(ls == -1);
    }
    assert(p.subrange(d, p.len() as int) =~= e + t);
    assert(e + t != seq![46u8]);
    assert(e + t != seq![46u8, 46u8]) by {
        assert((e + t).len() >= 5);
    }
    assert(file_name(p) == e + t);
    // Lower-cased, the name starts with `.env.`.
    let n = ascii_lower(e + t);
    assert(n.subrange(0, 5) =~= utf8(".env."@)) by {
        assert forall|i: int| 0 <= i < 5 implies n.subrange(0, 5)[i] == utf8(".env."@)[i] by {
            assert(n[i] == lower_byte((e + t)[i]));
            assert((e + t)[i] == e[i]);
            assert(ascii_lower(e)[i] == lower_byte(e[i]));
        }
    }
}

/// A status text that is one line (no `\n`) and whose path stands after its
/// first three bytes and is `p`.
proof fn lemma_single_line(x: Seq<u8>, p: Seq<u8>)
    requires
        x.len() == 3,
        forall|i: int| 0 <= i < 3 ==> #[trigger] x[i] != 10,
        forall|i: int| 0 <= i < p.len() ==> #[trigger] p[i] != 10,
        p.len() > 0,
        !is_continuation_byte(p[0]),
    ensures
        !lines_pass(x + p, 0) <== credential_line(x + p),
        line_at(x + p, 0) == x + p,
        status_path(x + p) == p,
{
    let s = x + p;
    assert forall|i: int| 0 <= i < s.len() implies s[i] != 10 by {
        if i >= 3 {
            assert(s[i] == p[i - 3]);
        } else {
            assert(s[i] == x[i]);
        }
    }
    lemma_next_newline(s, 0);
    assert(next_newline(s, 0) == s.len());
    assert(s.subrange(0, s.len() as int) =~= s);
    assert(s[3] == p[0]);
    assert(is_boundary(s, 3));
    assert(s.subrange(3, s.len() as int) =~= p);
}

/// A changed file whose name starts with `.env.` in any case (such as
/// `.env.production` or `.ENV.local`) stops the checkpoint, whatever its status
/// (`x`, such as `?? ` or ` M `), whatever directory `dir` it lies in (empty, or
/// ending with `/`) and whatever follows the prefix in its name (`t`), provided
/// the line holds no line break, `t` no `/`, and the path no ` -> ` (which would
/// make it a rename).
pub proof fn env_files_are_refused(x: Seq<u8>, dir: Seq<u8>, e: Seq<u8>, t: Seq<u8>)
    requires
        x.len() == 3,
        forall|i: int| 0 <= i < 3 ==> #[trigger] x[i] != 10,
        dir.len() == 0 || (dir.last() == 47 && !is_continuation_byte(dir[0])),
        forall|i: int| 0 <= i < dir.len() ==> #[trigger] dir[i] != 10,
        ascii_lower(e) == utf8(".env."@),
        forall|i: int| 0 <= i < t.len() ==> #[trigger] t[i] != 10 && t[i] != 47,
        forall|j: int|
            0 <= j && j + 4 <= (dir + e + t).len() ==> #[trigger] (dir + e + t).subrange(j, j + 4)
                != arrow(),
    ensures
        !lines_pass(x + dir + e + t, 0),
{
    let p = dir + e + t;
    let d = dir.len() as int;
    lemma_env_path(dir, e, t);
    assert forall|i: int| 0 <= i < p.len() implies p[i] != 10 by {
        if i >= d + 5 {
            assert(p[i] == t[i - d - 5]);
        } else if i >= d {
            assert(p[i] == e[i - d]);
        } else {
            assert(p[i] == dir[i]);
        }
    }
    if d > 0 {
        assert(p[0] == dir[0]);
    } else {
        assert(p[0] == e[0]);
    }
    lemma_single_line(x, p);
    assert(x + dir + e + t =~= x + p);
    lemma_no_arrow(p, 0);
    assert(rename_target(p) == p);
    assert(credential_line(x + p));
}

/// A rename whose new name starts with `.env.` in any case stops the checkpoint
/// too, whatever the old path `a` was: the guard judges a rename `a -> b` by
/// `b`. Here the line holds no line break, the first ` -> ` of the path is the
/// one after `a`, `dir` is empty or ends with `/`, and `t` holds no `/`.
pub proof fn env_renames_are_refused(x: Seq<u8>, a: Seq<u8>, dir: Seq<u8>, e: Seq<u8>, t: Seq<u8>)
    requires
        x.len() == 3,
        forall|i: int| 0 <= i < 3 ==> #[trigger] x[i] != 10,
        a.len() == 0 || !is_continuation_byte(a[0]),
        forall|i: int| 0 <= i < a.len() ==> #[trigger] a[i] != 10,
        forall|j: int|
            0 <= j < a.len() ==> #[trigger] (a + arrow() + dir + e + t).subrange(j, j + 4) != arrow(),
        dir.len() == 0 || dir.last() == 47,
        forall|i: int| 0 <= i < dir.len() ==> #[trigger] dir[i] != 10,
        ascii_lower(e) == utf8(".env."@),
        forall|i: int| 0 <= i < t.len() ==> #[trigger] t[i] != 10 && t[i] != 47,
    ensures
        !lines_pass(x + a + arrow() + dir + e + t, 0),
{
    let rest = dir + e + t;
    let p = a + arrow() + rest;
    let n = a.len() as int;
    let d = dir.len() as int;
    lemma_env_path(dir, e, t);
    assert forall|i: int| 0 <= i < p.len() implies p[i] != 10 by {
        if i >= n + 4 + d + 5 {
            assert(p[i] == t[i - n - 4 - d - 5]);
        } else if i >= n + 4 + d {
            assert(p[i] == e[i - n - 4 - d]);
        } else if i >= n + 4 {
            assert(p[i] == dir[i - n - 4]);
        } else if i >= n {
            assert(p[i] == arrow()[i - n]);
        } else {
            assert(p[i] == a[i]);
        }
    }
    if n > 0 {
        assert(p[0] == a[0]);
    } else {
        assert(p[0] == 32);
    }
    lemma_single_line(x, p);
    assert(x + a + arrow() + dir + e + t =~= x + p);
    // The first ` -> ` is the one after `a`.
    assert(a + arrow() + dir + e + t =~= p);
    lemma_find_skips(p, n, n);
    assert(p.subrange(n, n + 4) =~= arrow());
    assert(find_from(p, arrow(), n) == n);
    assert(p.subrange(n + 4, p.len() as int) =~= rest);
    assert(rename_target(p) == rest);
    assert(credential_line(x + p));
}

/// Where no match of ` -> ` starts before `n`, the search from any `k` up to `n`
/// gives what the search from 0 gives.
proof fn lemma_find_skips(p: Seq<u8>, n: int, k: int)
    requires
        0 <= k <= n,
        n + 4 <= p.len(),
        forall|j: int| 0 <= j < n ==> #[trigger] p.subrange(j, j + 4) != arrow(),
    ensures
        find_from(p, arrow(), 0) == find_from(p, arrow(), k),
    decreases k,
{
    if k > 0 {
        lemma_find_skips(p, n, k - 1);
        assert(p.subrange(k - 1, k - 1 + 4) != arrow());
    }
}

/// Line ends found in `b` are found, shifted, in `pre + b`.
proof fn lemma_newline_shift(pre: Seq<u8>, b: Seq<u8>, k: int)
    requires
        0 <= k <= b.len(),
    ensures
        next_newline(pre + b, pre.len() + k) == pre.len() + next_newline(b, k),
    decreases b.len() - k,
{
    let s = pre + b;
    if k < b.len() {
        assert(s[pre.len() + k] == b[k]);
        if b[k] != 10 {
            lemma_newline_shift(pre, b, k + 1);
        }
    }
}

/// The lines of `b` are judged in `pre + b` as they are in `b` alone.
proof fn lemma_lines_shift(pre: Seq<u8>, b: Seq<u8>, k: int)
    requires
        0 <= k,
    ensures
        lines_pass(pre + b, pre.len() + k) == lines_pass(b, k),
    decreases b.len() + 1 - k,
{
    let s = pre + b;
    let off = pre.len() as int;
    if k < b.len() {
        lemma_newline_shift(pre, b, k);
        lemma_next_newline(b, k);
        let e = next_newline(b, k);
        assert(s.subrange(off + k, off + e) =~= b.subrange(k, e));
        assert(line_at(s, off + k) == line_at(b, k));
        lemma_lines_shift(pre, b, e + 1);
        assert(off + e + 1 == off + (e + 1));
    }
}

/// The guard judges a status line by line: a status made of the line `a` and,
/// after its line break, the rest `b` passes exactly when `a` passes alone and
/// `b` passes alone (`a` holds no line break and does not end with `\r`, which
/// a line break after it would strip).
pub proof fn status_is_judged_line_by_line(a: Seq<u8>, b: Seq<u8>)
    requires
        forall|i: int| 0 <= i < a.len() ==> #[trigger] a[i] != 10,
        a.len() == 0 || a.last() != 13,
    ensures
        lines_pass(a + seq![10u8] + b, 0) == (lines_pass(a, 0) && lines_pass(b, 0)),
{
    let pre = a + seq![10u8];
    let s = pre + b;
    assert forall|i: int| 0 <= i < a.len() implies s[i] != 10 by {
        assert(s[i] == a[i]);
    }
    assert(s[a.len() as int] == 10);
    lemma_next_newline(s, 0);
    assert(next_newline(s, 0) == a.len());
    assert(s.subrange(0, a.len() as int) =~= a);
    assert(line_at(s, 0) == a);
    lemma_lines_shift(pre, b, 0);
    assert(pre.len() + 0 == a.len() + 1);
    assert(lines_pass(s, a.len() as int + 1) == lines_pass(b, 0));
    assert(lines_pass(s, 0) == (!credential_line(a) && lines_pass(s, a.len() as int + 1)));
    if a.len() > 0 {
        lemma_next_newline(a, 0);
        assert(next_newline(a, 0) == a.len());
        assert(a.subrange(0, a.len() as int) =~= a);
        assert(line_at(a, 0) == a);
        assert(lines_pass(a, a.len() as int + 1));
        assert(lines_pass(a, 0) == !credential_line(a));
    } else {
        assert(!credential_line(a)) by {
            assert(status_path(a) =~= seq![]);
            assert(find_from(seq![], arrow(), 0) == -1);
            assert(rename_target(seq![]) =~= seq![]);
            assert(file_name(seq![]) =~= seq![]);
            assert(ascii_lower(seq![]) =~= seq![]);
            assert(!credential_name(seq![])) by {
                assert(utf8(".env"@).len() > 0) by { reveal_strlit(".env"); }
                assert(utf8(".env."@).len() > 0) by { reveal_strlit(".env."); }
                assert(utf8("credentials"@).len() > 0) by { reveal_strlit("credentials"); }
                assert(utf8("secrets"@).len() > 0) by { reveal_strlit("secrets"); }
                assert(utf8(".pem"@).len() > 0) by { reveal_strlit(".pem"); }
                assert(utf8(".key"@).len() > 0) by { reveal_strlit(".key"); }
                assert(utf8("id_rsa"@).len() > 0) by { reveal_strlit("id_rsa"); }
                assert(utf8("id_ed25519"@).len() > 0) by { reveal_strlit("id_ed25519"); }
            }
        }
    }
}

/// Why a checkpoint was refused by the guard.
#[derive(Debug, Clone, Copy, PartialEq, Eq)]
pub enum GuardError {
    /// A changed path has a credential-like file name.
    CredentialFilename,
}

impl GuardError {
    /// The message reported for the error.
    pub fn message(&self) -> (r: &'static str)
        ensures
            r@ == "credential filename guard"@,
    {
        "credential filename guard"
    }
}

fn line_end(s: &[u8], start: usize) -> (e: usize)
    requires
        start <= s@.len(),
    ensures
        e == next_newline(s@, start as int),
{
    let mut j = start;
    while j < s.len() && s[j] != 10
        invariant
            start <= j <= s@.len(),
            next_newline(s@, start as int) == next_newline(s@, j as int),
        decreases s@.len() - j,
    {
        j = j + 1;
    }
    j
}

fn status_path_of(l: &[u8]) -> (r: Vec<u8>)
    ensures
        r@ == status_path(l@),
{
    if l.len() >= 3 && (l.len() == 3 || !(0x80 <= l[3] && l[3] <= 0xbf)) {
        copy_range(l, 3, l.len())
    } else {
        Vec::new()
    }
}

fn rename_target_of(p: &[u8]) -> (r: Vec<u8>)
    ensures
        r@ == rename_target(p@),
{
    let pat: [u8; 4] = [32u8, 45u8, 62u8, 32u8];
    assert(pat@ == arrow());
    let mut k: usize = 0;
    while k < p.len() && 4 <= p.len() - k
        invariant
            k <= p@.len(),
            pat@ == arrow(),
            find_from(p@, arrow(), 0) == find_from(p@, arrow(), k as int),
        decreases p@.len() - k,
    {
        let window = copy_range(p, k, k + 4);
        if bytes_eq(window.as_slice(), pat.as_slice()) {
            return copy_range(p, k + 4, p.len());
        }
        k = k + 1;
    }
    copy_range(p, 0, p.len())
}

fn file_name_of(p: &[u8]) -> (r: Vec<u8>)
    ensures
        r@ == file_name(p@),
{
    let mut end = p.len();
    loop
        invariant
            end <= p@.len(),
            file_name(p@) == file_name_upto(p@, end as int),
        decreases end,
    {
        if end == 0 {
            return Vec::new();
        }
        if p[end - 1] == 47 {
            end = end - 1;
        } else {
            let mut st = end - 1;
            while st > 0 && p[st - 1] != 47
                invariant
                    st < end,
                    end <= p@.len(),
                    p@[end - 1] != 47,
                    last_slash_before(p@, end as int) == last_slash_before(p@, st as int),
                decreases st,
            {
                st = st - 1;
            }
            proof {
                lemma_last_slash(p@, end as int);
                assert(st as int == last_slash_before(p@, end as int) + 1);
            }
            let seg = copy_range(p, st, end);
            if seg.len() == 1 && seg[0] == 46 {
                assert(seg@ =~= seq![46u8]);
                end = st;
            } else if seg.len() == 2 && seg[0] == 46 && seg[1] == 46 {
                assert(seg@ =~= seq![46u8, 46u8]);
                return Vec::new();
            } else {
                assert(seg@ != seq![46u8]);
                assert(seg@ != seq![46u8, 46u8]);
                return seg;
            }
        }
    }
}

fn is_credential_name(n: &[u8]) -> (r: bool)
    ensures
        r == credential_name(n@),
{
    let env = str_bytes(".env");
    let id_rsa = str_bytes("id_rsa");
    let id_ed = str_bytes("id_ed25519");
    bytes_eq(n, env.as_slice()) || has_prefix(n, ".env.".as_bytes()) || has_prefix(
        n,
        "credentials".as_bytes(),
    ) || has_prefix(n, "secrets".as_bytes()) || has_suffix(n, ".pem".as_bytes()) || has_suffix(
        n,
        ".key".as_bytes(),
    ) || bytes_eq(n, id_rsa.as_slice()) || bytes_eq(n, id_ed.as_slice())
}

/// Whether one status line names a credential file.
fn line_is_credential(l: &[u8]) -> (r: bool)
    ensures
        r == credential_line(l@),
{
    let p = status_path_of(l);
    let t = rename_target_of(p.as_slice());
    let f = file_name_of(t.as_slice());
    let n = to_ascii_lower(f.as_slice());
    is_credential_name(n.as_slice())
}

/// Refuses a checkpoint when any line of the porcelain status `s` names a file
/// whose lower-cased name is `.env`, starts with `.env.`, `credentials` or
/// `secrets`, ends with `.pem` or `.key`, or is `id_rsa` or `id_ed25519`.
pub fn guard(s: &str) -> (r: Result<(), GuardError>)
    ensures
        r is Ok <==> lines_pass(utf8(s@), 0),
        r is Err ==> r == Err::<(), GuardError>(GuardError::CredentialFilename),
{
    let b = str_bytes(s);
    let mut start: usize = 0;
    while start < b.len()
        invariant
            start <= b@.len() + 1,
            b@ == utf8(s@),
            lines_pass(b@, 0) == lines_pass(b@, start as int),
        decreases b@.len() + 1 - start,
    {
        let e = line_end(b.as_slice(), start);
        proof {
            lemma_next_newline(b@, start as int);
        }
        let mut line = copy_range(b.as_slice(), start, e);
        if e < b.len() && line.len() > 0 && line[line.len() - 1] == 13 {
            line.pop();
        }
        assert(line@ == line_at(b@, start as int));
        if line_is_credential(line.as_slice()) {
            assert(!lines_pass(b@, start as int));
            return Err(GuardError::CredentialFilename);
        }
        proof {
            assert(lines_pass(b@, start as int) == lines_pass(b@, e + 1));
            if e == b@.len() {
                assert(lines_pass(b@, e as int));
                assert(lines_pass(b@, e + 1));
            }
        }
        start = if e < b.len() {
            e + 1
        } else {
            e
        };
    }
    Ok(())
}

} // verus!
