//! Talking to the host's app server about hooks, and the installation doctor.
use vstd::prelude::*;
use vstd::string::StringExecFns;
use crate::text::hex_digit;

verus! {

/// How one character is written inside a JSON string: quote and backslash
/// behind a backslash, the five controls that have one a short escape, the other
/// controls below U+0020 as `\u00` and two lower-case hexadecimal digits, and
/// every other character as it is.
pub open spec fn json_char(c: char) -> Seq<char> {
    if c == '"' {
        seq!['\\', '"']
    } else if c == '\\' {
        seq!['\\', '\\']
    } else if c == '\u{8}' {
        seq!['\\', 'b']
    } else if c == '\t' {
        seq!['\\', 't']
    } else if c == '\n' {
        seq!['\\', 'n']
    } else if c == '\u{c}' {
        seq!['\\', 'f']
    } else if c == '\r' {
        seq!['\\', 'r']
    } else if (c as u32) < 0x20 {
        seq!['\\', 'u', '0', '0', hex_digit((c as u32 / 16) as nat) as char, hex_digit((c as u32 % 16) as nat) as char]
    } else {
        seq![c]
    }
}

/// The characters of `s`, each written as inside a JSON string.
pub open spec fn json_chars(s: Seq<char>) -> Seq<char>
    decreases s.len(),
{
    if s.len() == 0 {
        seq![]
    } else {
        json_chars(s.drop_last()) + json_char(s.last())
    }
}

/// The JSON string literal of `s`: its characters, escaped, between quotes.
pub open spec fn json_string_literal(s: Seq<char>) -> Seq<char> {
    seq!['"'] + json_chars(s) + seq!['"']
}

/// Calls `serde_json::to_string` on a string, which cannot fail for one.
/// Trusted, as the escape table and `write_char_escape` of `serde_json`'s
/// serialiser show, to return [`json_string_literal`] of `s`.
#[verifier::external_body]
fn json_quote(s: &str) -> (r: String)
    ensures
        r@ == json_string_literal(s@),
{
    serde_json::to_string(s).unwrap()
}

/// The lines sent to the app server to list the hooks for the directory `cwd`:
/// `initialize`, `initialized`, then `hooks/list` with `cwd`.
pub open spec fn set_spec(cwd: Seq<char>) -> Seq<Seq<char>> {
    seq![
        "{\"id\":1,\"method\":\"initialize\",\"params\":{}}"@,
        "{\"method\":\"initialized\"}"@,
        "{\"id\":2,\"method\":\"hooks/list\",\"params\":{\"cwd\":"@ + json_string_literal(cwd)
            + "}}"@,
    ]
}

/// The lines (each to be followed by a newline) that make the app server list
/// the hooks of the directory `cwd`, which is how trust is refreshed.
pub fn set(cwd: &str) -> (r: Vec<String>)
    ensures
        r@.map_values(|l: String| l@) == set_spec(cwd@),
{
    let mut r: Vec<String> = Vec::new();
    r.push(String::from_str("{\"id\":1,\"method\":\"initialize\",\"params\":{}}"));
    r.push(String::from_str("{\"method\":\"initialized\"}"));
    let mut list = String::from_str("{\"id\":2,\"method\":\"hooks/list\",\"params\":{\"cwd\":");
    let q = json_quote(cwd);
    list.append(q.as_str());
    list.append("}}");
    r.push(list);
    assert(r@.map_values(|l: String| l@) =~= set_spec(cwd@));
    r
}

/// The name of the `i`-th doctor check, padded to ten columns.
pub open spec fn check_label(i: int) -> Seq<char> {
    if i == 0 {
        "platform  "@
    } else if i == 1 {
        "stock     "@
    } else if i == 2 {
        "binary    "@
    } else if i == 3 {
        "data      "@
    } else {
        "maps      "@
    }
}

/// The name of the `i`-th doctor check.
pub open spec fn check_name(i: int) -> Seq<char> {
    if i == 0 {
        "platform"@
    } else if i == 1 {
        "stock"@
    } else if i == 2 {
        "binary"@
    } else if i == 3 {
        "data"@
    } else {
        "maps"@
    }
}

/// The report line of the `i`-th check.
pub open spec fn check_line(i: int, ok: bool) -> Seq<char> {
    check_label(i) + " "@ + if ok {
        "ok"@
    } else {
        "fail"@
    }
}

/// The first failed check, or the number of checks when all passed.
pub open spec fn first_failure(results: Seq<bool>) -> int
    decreases results.len(),
{
    if results.len() == 0 {
        0
    } else if first_failure(results.drop_last()) < results.len() - 1 {
        first_failure(results.drop_last())
    } else if !results.last() {
        results.len() - 1
    } else {
        results.len() as int
    }
}

/// What the doctor prints and whether it passed.
pub struct DoctorReport {
    /// One line per check, up to and including the first that failed.
    pub lines: Vec<String>,
    /// `doctor: <name>` of the first failed check, if any.
    pub failure: Option<String>,
}

fn label(i: usize) -> (r: &'static str)
    requires
        i < 5,
    ensures
        r@ == check_label(i as int),
{
    if i == 0 {
        "platform  "
    } else if i == 1 {
        "stock     "
    } else if i == 2 {
        "binary    "
    } else if i == 3 {
        "data      "
    } else {
        "maps      "
    }
}

fn name(i: usize) -> (r: &'static str)
    requires
        i < 5,
    ensures
        r@ == check_name(i as int),
{
    if i == 0 {
        "platform"
    } else if i == 1 {
        "stock"
    } else if i == 2 {
        "binary"
    } else if i == 3 {
        "data"
    } else {
        "maps"
    }
}

proof fn lemma_first_failure(results: Seq<bool>)
    ensures
        0 <= first_failure(results) <= results.len(),
        first_failure(results) < results.len() ==> !results[first_failure(results)],
        forall|j: int| 0 <= j < first_failure(results) ==> results[j],
    decreases results.len(),
{
    if results.len() > 0 {
        let init = results.drop_last();
        lemma_first_failure(init);
        assert forall|j: int| 0 <= j < init.len() implies init[j] == results[j] by {}
    }
}

/// The doctor's report on the five checks (platform, stock binary, own binary,
/// data directory, maps directory): a line per check up to the first failure,
/// and that failure.
pub fn doctor(platform: bool, stock: bool, binary: bool, data: bool, maps: bool) -> (r: DoctorReport)
    ensures
        r.lines@.len() == if first_failure(seq![platform, stock, binary, data, maps]) < 5 {
            first_failure(seq![platform, stock, binary, data, maps]) + 1
        } else {
            5
        },
        forall|i: int|
            0 <= i < r.lines@.len() ==> (#[trigger] r.lines@[i])@ == check_line(
                i,
                seq![platform, stock, binary, data, maps][i],
            ),
        first_failure(seq![platform, stock, binary, data, maps]) < 5 ==> (r.failure matches Some(
            m,
        ) && m@ == "doctor: "@ + check_name(first_failure(seq![platform, stock, binary, data, maps]))),
        first_failure(seq![platform, stock, binary, data, maps]) == 5 ==> r.failure is None,
{
    let results: [bool; 5] = [platform, stock, binary, data, maps];
    let ghost rs = seq![platform, stock, binary, data, maps];
    assert(results@ =~= rs);
    proof {
        lemma_first_failure(rs);
    }
    let mut lines: Vec<String> = Vec::new();
    let mut i: usize = 0;
    while i < 5
        invariant
            i <= 5,
            rs == seq![platform, stock, binary, data, maps],
            results@ == rs,
            0 <= first_failure(rs) <= 5,
            first_failure(rs) < 5 ==> !rs[first_failure(rs)],
            forall|j: int| 0 <= j < first_failure(rs) ==> rs[j],
            i <= first_failure(rs),
            lines@.len() == i,
            forall|j: int| 0 <= j < i ==> (#[trigger] lines@[j])@ == check_line(j, rs[j]),
        decreases 5 - i,
    {
        let ok = results[i];
        let mut line = String::from_str(label(i));
        line.append(" ");
        if ok {
            line.append("ok");
        } else {
            line.append("fail");
        }
        assert(line@ == check_line(i as int, rs[i as int]));
        lines.push(line);
        assert(forall|j: int| 0 <= j <= i ==> (#[trigger] lines@[j])@ == check_line(j, rs[j]));
        if !ok {
            let mut m = String::from_str("doctor: ");
            m.append(name(i));
            assert(i as int == first_failure(rs));
            return DoctorReport { lines, failure: Some(m) };
        }
        i = i + 1;
    }
    DoctorReport { lines, failure: None }
}

/// Why hooks cannot be listed through the stock binary.
#[derive(Debug, Clone, Copy, PartialEq, Eq)]
pub enum TrustError {
    /// The stock binary resolves to the plugin itself.
    ResolvesToSelf,
}

impl TrustError {
    /// The message reported for the error.
    pub fn message(&self) -> (r: &'static str)
        ensures
            r@ == "stock codex resolves to CompactVeteran"@,
    {
        "stock codex resolves to CompactVeteran"
    }
}

/// Checks the resolved stock binary before talking to its app server: it must
/// not be the plugin itself.
pub fn check_stock(is_self: bool) -> (r: Result<(), TrustError>)
    ensures
        r is Ok <==> !is_self,
        r is Err ==> r == Err::<(), TrustError>(TrustError::ResolvesToSelf),
{
    if is_self {
        Err(TrustError::ResolvesToSelf)
    } else {
        Ok(())
    }
}

} // verus!
