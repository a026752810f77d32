//! The project map: the handoff document that a fresh session reads to continue
//! at the cursor.
use vstd::prelude::*;
use vstd::utf8::{
    encode_utf8_valid_utf8, is_char_boundary, is_char_boundary_iff_not_is_continuation_byte,
    is_char_boundary_start_end_of_seq, is_leading_byte_width_1, partial_valid_utf8,
    partial_valid_utf8_extend_ascii_block, valid_utf8, valid_utf8_concat, valid_utf8_split,
};
use crate::digest::{sha256_digest, sha256_hex};
use crate::hook_input::{filled, opt_view, HookInputView};
use crate::state::{
    answered_prompt_is_not_pending, merge_spec, new_prompt_is_pending, record_spec, ProjectState, ProjectStateView,
    SessionRef, SessionRefView, SessionState, SessionStateView,
};
use crate::text::{copy_range, decimal, hex_lower, is_boundary, push_bytes, push_decimal, push_str, str_bytes, utf8};

verus! {

/// What replaces the middle of a clipped text.
pub open spec fn clip_marker() -> Seq<u8> {
    utf8("\n[clipped; full text is in the raw transcript]\n"@)
}

/// The largest character boundary of `s` at or below `n`.
pub open spec fn boundary_at_or_below(s: Seq<u8>, n: int) -> int
    decreases n,
{
    if n <= 0 {
        0
    } else if is_boundary(s, n) {
        n
    } else {
        boundary_at_or_below(s, n - 1)
    }
}

/// The largest `u <= t` such that `s.len() - u` is a character boundary of `s`.
pub open spec fn tail_fit(s: Seq<u8>, t: int) -> int
    decreases t,
{
    if t <= 0 {
        0
    } else if is_boundary(s, s.len() - t) {
        t
    } else {
        tail_fit(s, t - 1)
    }
}

/// The room left for text once the marker is placed (zero when it does not fit).
pub open spec fn clip_room(max: nat) -> int {
    if max >= clip_marker().len() {
        max - clip_marker().len()
    } else {
        0
    }
}

/// Where the kept head of a clipped text ends.
pub open spec fn clip_head(s: Seq<u8>, max: nat) -> int {
    boundary_at_or_below(s, clip_room(max) / 2)
}

/// How many bytes of the end of a clipped text are kept.
pub open spec fn clip_tail(s: Seq<u8>, max: nat) -> int {
    tail_fit(s, clip_room(max) - clip_head(s, max))
}

/// `s` itself when it has at most `max` bytes; otherwise its head and its tail,
/// cut at character boundaries and sharing the room left by the marker (the head
/// gets at most half), with the marker between them.
pub open spec fn clip_spec(s: Seq<u8>, max: nat) -> Seq<u8> {
    if s.len() <= max {
        s
    } else {
        s.subrange(0, clip_head(s, max)) + clip_marker() + s.subrange(
            s.len() - clip_tail(s, max),
            s.len() as int,
        )
    }
}

pub proof fn lemma_boundary_at_or_below(s: Seq<u8>, n: int)
    ensures
        n >= 0 ==> 0 <= boundary_at_or_below(s, n) <= n,
        is_boundary(s, boundary_at_or_below(s, n)),
    decreases n,
{
    if n > 0 && !is_boundary(s, n) {
        lemma_boundary_at_or_below(s, n - 1);
    }
}

pub proof fn lemma_tail_fit(s: Seq<u8>, t: int)
    ensures
        t >= 0 ==> 0 <= tail_fit(s, t) <= t,
        is_boundary(s, s.len() - tail_fit(s, t)),
    decreases t,
{
    if t > 0 && !is_boundary(s, s.len() - t) {
        lemma_tail_fit(s, t - 1);
    }
}

proof fn lemma_clip_parts(s: Seq<u8>, max: nat)
    requires
        s.len() > max,
    ensures
        0 <= clip_head(s, max) <= clip_room(max) / 2,
        0 <= clip_tail(s, max) <= clip_room(max) - clip_head(s, max),
        clip_room(max) < s.len(),
        is_boundary(s, clip_head(s, max)),
        is_boundary(s, s.len() - clip_tail(s, max)),
{
    lemma_boundary_at_or_below(s, clip_room(max) / 2);
    lemma_tail_fit(s, clip_room(max) - clip_head(s, max));
}

/// A clipped text never exceeds its limit, as long as the limit leaves room for
/// the marker.
pub proof fn clip_fits(s: Seq<u8>, max: nat)
    requires
        max >= clip_marker().len(),
    ensures
        clip_spec(s, max).len() <= max,
{
    if s.len() > max {
        lemma_clip_parts(s, max);
    }
}

/// A text within its limit is kept whole.
pub proof fn clip_keeps_short_text(s: Seq<u8>, max: nat)
    requires
        s.len() <= max,
    ensures
        clip_spec(s, max) == s,
{
}

proof fn lemma_boundary_is_char_boundary(s: Seq<u8>, i: int)
    requires
        valid_utf8(s),
        is_boundary(s, i),
    ensures
        is_char_boundary(s, i),
{
    is_char_boundary_start_end_of_seq(s);
    if 0 < i < s.len() {
        is_char_boundary_iff_not_is_continuation_byte(s, i);
    }
}

/// Clipping valid UTF-8 gives valid UTF-8: no character is ever cut in two.
pub proof fn clip_keeps_utf8(s: Seq<u8>, max: nat)
    requires
        valid_utf8(s),
    ensures
        valid_utf8(clip_spec(s, max)),
{
    if s.len() > max {
        lemma_clip_parts(s, max);
        let n = clip_head(s, max);
        let t = s.len() - clip_tail(s, max);
        lemma_boundary_is_char_boundary(s, n);
        lemma_boundary_is_char_boundary(s, t);
        valid_utf8_split(s, n);
        valid_utf8_split(s, t);
        encode_utf8_valid_utf8("\n[clipped; full text is in the raw transcript]\n"@);
        valid_utf8_concat(s.subrange(0, n), clip_marker());
        valid_utf8_concat(s.subrange(0, n) + clip_marker(), s.subrange(t, s.len() as int));
    }
}

fn boundary_at(s: &[u8], i: usize) -> (r: bool)
    requires
        i <= s@.len(),
    ensures
        r == is_boundary(s@, i as int),
{
    i == 0 || i == s.len() || !(0x80 <= s[i] && s[i] <= 0xbf)
}

/// Clips `s` to at most `max` bytes around the marker (see [`clip_spec`]).
pub fn clip(s: &str, max: usize) -> (r: Vec<u8>)
    ensures
        r@ == clip_spec(utf8(s@), max as nat),
{
    let b = str_bytes(s);
    if b.len() <= max {
        return b;
    }
    let ghost sb = b@;
    let marker = str_bytes("\n[clipped; full text is in the raw transcript]\n");
    let room = if max >= marker.len() {
        max - marker.len()
    } else {
        0
    };
    assert(room as int == clip_room(max as nat));
    proof {
        lemma_clip_parts(sb, max as nat);
    }
    let mut n = room / 2;
    while !boundary_at(b.as_slice(), n)
        invariant
            b@ == sb,
            n <= room / 2,
            room < sb.len(),
            boundary_at_or_below(sb, (room / 2) as int) == boundary_at_or_below(sb, n as int),
        decreases n,
    {
        n = n - 1;
    }
    let mut tail = room - n;
    while !boundary_at(b.as_slice(), b.len() - tail)
        invariant
            b@ == sb,
            n <= room / 2,
            tail <= room - n,
            room < sb.len(),
            tail_fit(sb, room - n) == tail_fit(sb, tail as int),
        decreases tail,
    {
        tail = tail - 1;
    }
    let mut r = copy_range(b.as_slice(), 0, n);
    push_bytes(&mut r, marker.as_slice());
    let end = copy_range(b.as_slice(), b.len() - tail, b.len());
    push_bytes(&mut r, end.as_slice());
    r
}

/// The largest map that may be written, in bytes.
pub const MAP_LIMIT: usize = 16384;

/// Why a map was not written.
#[derive(Debug, Clone, Copy, PartialEq, Eq)]
pub enum MapError {
    /// The map would exceed [`MAP_LIMIT`] bytes.
    TooLarge,
}

impl MapError {
    /// The message reported for the error.
    pub fn message(&self) -> (r: &'static str)
        ensures
            r@ == "project map exceeds 16384 bytes"@,
    {
        "project map exceeds 16384 bytes"
    }
}

/// What the map reports of the repository and the session's transcript, as
/// gathered by its caller.
pub struct MapInputs {
    /// The canonical root, as displayed.
    pub root: String,
    /// The current branch.
    pub branch: String,
    /// The commit at HEAD.
    pub head: String,
    /// Whether the working tree is clean.
    pub clean: bool,
    /// The last five commits, one per line.
    pub recent_commits: String,
    /// The transcript's bytes, when its path is set and names a file.
    pub transcript: Option<Vec<u8>>,
    /// The project sources that exist, as displayed paths, in order.
    pub sources: Vec<String>,
}

/// The text of an optional field, empty when absent.
pub open spec fn text_or_empty(o: Option<Seq<char>>) -> Seq<char> {
    match o {
        Some(t) => t,
        None => Seq::empty(),
    }
}

/// The objective: the project's when it has one, else the session's last prompt.
pub open spec fn objective_of(p: ProjectStateView, s: SessionStateView) -> Seq<char> {
    if filled(p.objective) {
        p.objective->0
    } else {
        text_or_empty(s.latest_prompt)
    }
}

/// The cursor: the project's last assistant result when it has one, else the
/// session's last assistant message.
pub open spec fn cursor_of(p: ProjectStateView, s: SessionStateView) -> Seq<char> {
    if filled(p.last_assistant_result) {
        p.last_assistant_result->0
    } else {
        text_or_empty(s.last_assistant_message)
    }
}

/// The next action while the objective is still to be answered.
pub open spec fn next_when_pending() -> Seq<char> {
    "Answer the Objective exactly once. Cursor is the prior completed boundary. Do not repeat Cursor work. Use listed project sources or the raw transcript only as needed for a specific ambiguity."@
}

/// The next action once the objective has been answered.
pub open spec fn next_when_answered() -> Seq<char> {
    "The Objective is already answered. Do not answer or restart it. Continue only an explicit unresolved action named by Cursor; if none exists, stop without inventing or retracing work. Use listed project sources or the raw transcript only as needed for a specific ambiguity."@
}

/// The next action for a project.
pub open spec fn next_action(p: ProjectStateView) -> Seq<char> {
    if p.prompt_pending {
        next_when_pending()
    } else {
        next_when_answered()
    }
}

/// The prompt state for a project.
pub open spec fn prompt_state(p: ProjectStateView) -> Seq<char> {
    if p.prompt_pending {
        "pending"@
    } else {
        "completed"@
    }
}

/// The transcript's size in bytes (zero when it was not read).
pub open spec fn transcript_size(t: Option<Vec<u8>>) -> nat {
    match t {
        Some(b) => b@.len(),
        None => 0,
    }
}

/// The transcript's digest (`missing` when it was not read).
pub open spec fn transcript_digest(t: Option<Vec<u8>>) -> Seq<u8> {
    match t {
        Some(b) => hex_lower(sha256_digest(b@)),
        None => utf8("missing"@),
    }
}

/// `true` or `false`.
pub open spec fn bool_text(b: bool) -> Seq<u8> {
    if b {
        utf8("true"@)
    } else {
        utf8("false"@)
    }
}

/// The scope section of the map.
pub open spec fn map_scope(inp: MapInputs, s: SessionStateView, p: ProjectStateView) -> Seq<u8> {
    utf8("# CompactVeteran handoff\n\n## Scope\n\n- canonical root: "@) + utf8(inp.root@)
        + utf8("\n- branch: "@) + utf8(inp.branch@) + utf8("\n- HEAD: "@) + utf8(inp.head@)
        + utf8("\n- clean: "@) + bool_text(inp.clean) + utf8("\n- current session: "@) + utf8(
        s.session_id,
    ) + utf8("\n- transcript: "@) + utf8(text_or_empty(s.transcript_path)) + utf8(
        "\n- transcript prefix bytes: "@,
    ) + decimal(transcript_size(inp.transcript)) + utf8("\n- transcript prefix SHA256: "@)
        + transcript_digest(inp.transcript) + utf8("\n- prompt state: "@) + utf8(prompt_state(p))
}

/// The objective, cursor, next action and recent commits of the map.
pub open spec fn map_body(inp: MapInputs, s: SessionStateView, p: ProjectStateView) -> Seq<u8> {
    utf8("\n\n## Objective\n\n"@) + clip_spec(utf8(objective_of(p, s)), 6000) + utf8(
        "\n\n## Cursor\n\n"@,
    ) + clip_spec(utf8(cursor_of(p, s)), 4000) + utf8("\n\n## Next action\n\n"@) + utf8(
        next_action(p),
    ) + utf8("\n\n## Recent commits\n\n```text\n"@) + utf8(inp.recent_commits@) + utf8(
        "\n```\n\n## Sources\n\n"@,
    )
}

/// One `- <path>` line per source.
pub open spec fn source_lines(sources: Seq<String>) -> Seq<u8>
    decreases sources.len(),
{
    if sources.len() == 0 {
        Seq::empty()
    } else {
        source_lines(sources.drop_last()) + utf8("- "@) + utf8(sources.last()@) + utf8("\n"@)
    }
}

/// The sources section lists every source, one `- <path>` line each, in the
/// order given: no sources give no lines, one more source adds its line at the
/// end, and the lines of two lists joined are the lines of the first followed
/// by those of the second.
pub proof fn every_source_is_listed(sources: Seq<String>, more: Seq<String>, x: String)
    ensures
        source_lines(Seq::<String>::empty()) == Seq::<u8>::empty(),
        source_lines(sources.push(x)) == source_lines(sources) + utf8("- "@) + utf8(x@) + utf8(
            "\n"@,
        ),
        source_lines(sources + more) == source_lines(sources) + source_lines(more),
    decreases more.len(),
{
    assert(sources.push(x).drop_last() =~= sources);
    if more.len() == 0 {
        assert(sources + more =~= sources);
        assert(source_lines(sources) + source_lines(more) =~= source_lines(sources));
    } else {
        let init = more.drop_last();
        every_source_is_listed(sources, init, x);
        assert((sources + more).drop_last() =~= sources + init);
        assert((sources + more).last() == more.last());
        assert(source_lines(sources + more) =~= source_lines(sources) + source_lines(more));
    }
}

/// The recovery pointers that follow the sources.
pub open spec fn map_recovery(inp: MapInputs, s: SessionStateView) -> Seq<u8> {
    utf8("\n## Recovery pointers\n\n- transcript: "@) + utf8(text_or_empty(s.transcript_path))
        + utf8("\n- transcript prefix bytes: "@) + decimal(transcript_size(inp.transcript))
        + utf8("\n- transcript prefix SHA256: "@) + transcript_digest(inp.transcript) + utf8(
        "\n\n### Session lineage\n\n"@,
    )
}

/// One `- <session id>\t<transcript>` line per session.
pub open spec fn lineage_lines(sessions: Seq<SessionRefView>) -> Seq<u8>
    decreases sessions.len(),
{
    if sessions.len() == 0 {
        Seq::empty()
    } else {
        lineage_lines(sessions.drop_last()) + utf8("- "@) + utf8(sessions.last().session_id)
            + utf8("\t"@) + utf8(text_or_empty(sessions.last().transcript_path)) + utf8("\n"@)
    }
}

/// The last (at most three) sessions of a lineage, oldest first.
pub open spec fn recent_sessions(sessions: Seq<SessionRefView>) -> Seq<SessionRefView> {
    if sessions.len() <= 3 {
        sessions
    } else {
        sessions.subrange(sessions.len() - 3, sessions.len() as int)
    }
}

/// The lineage section lists the sessions given, one `- <id>\t<transcript>`
/// line each, in order; and the sessions listed are the last three of the
/// lineage (all of them when there are fewer), oldest first.
pub proof fn lineage_lists_recent_sessions(sessions: Seq<SessionRefView>, x: SessionRefView)
    ensures
        lineage_lines(Seq::<SessionRefView>::empty()) == Seq::<u8>::empty(),
        lineage_lines(sessions.push(x)) == lineage_lines(sessions) + utf8("- "@) + utf8(
            x.session_id,
        ) + utf8("\t"@) + utf8(text_or_empty(x.transcript_path)) + utf8("\n"@),
        recent_sessions(sessions).len() == if sessions.len() < 3 {
            sessions.len()
        } else {
            3
        },
        forall|k: int|
            0 <= k < recent_sessions(sessions).len() ==> #[trigger] recent_sessions(sessions)[k]
                == sessions[sessions.len() - recent_sessions(sessions).len() + k],
{
    assert(sessions.push(x).drop_last() =~= sessions);
}

/// The whole map.
pub open spec fn map_text(inp: MapInputs, s: SessionStateView, p: ProjectStateView) -> Seq<u8> {
    map_scope(inp, s, p) + map_body(inp, s, p) + source_lines(inp.sources@) + map_recovery(inp, s)
        + lineage_lines(
        recent_sessions(p.sessions),
    )
}

/// The map, or [`MapError::TooLarge`] when it would exceed [`MAP_LIMIT`] bytes.
pub open spec fn write_spec(inp: MapInputs, s: SessionStateView, p: ProjectStateView) -> Result<
    Seq<u8>,
    MapError,
> {
    if map_text(inp, s, p).len() > MAP_LIMIT {
        Err(MapError::TooLarge)
    } else {
        Ok(map_text(inp, s, p))
    }
}

/// The view of a map result.
pub open spec fn map_result_view(r: Result<Vec<u8>, MapError>) -> Result<Seq<u8>, MapError> {
    match r {
        Ok(b) => Ok(b@),
        Err(e) => Err(e),
    }
}

fn push_opt(out: &mut Vec<u8>, o: &Option<String>)
    ensures
        final(out)@ == old(out)@ + utf8(text_or_empty(opt_view(*o))),
{
    match o {
        Some(t) => push_str(out, t.as_str()),
        None => {
            assert(utf8(Seq::<char>::empty()) =~= Seq::<u8>::empty());
        },
    }
}

fn push_transcript_facts(out: &mut Vec<u8>, t: &Option<Vec<u8>>, size_label: &str, sha_label: &str)
    ensures
        final(out)@ == old(out)@ + utf8(size_label@) + decimal(transcript_size(*t)) + utf8(
            sha_label@,
        ) + transcript_digest(*t),
{
    push_str(out, size_label);
    match t {
        Some(b) => {
            push_decimal(out, b.len() as u64);
            push_str(out, sha_label);
            let h = sha256_hex(b.as_slice());
            push_bytes(out, h.as_slice());
        },
        None => {
            push_decimal(out, 0);
            push_str(out, sha_label);
            push_str(out, "missing");
        },
    }
}

fn objective_text<'a>(p: &'a ProjectState, s: &'a SessionState) -> (r: &'a str)
    ensures
        r@ == objective_of(p@, s@),
{
    match &p.objective {
        Some(o) => {
            if !o.as_str().is_empty() {
                return o.as_str();
            }
        },
        None => {},
    }
    match &s.latest_prompt {
        Some(x) => x.as_str(),
        None => {
            proof {
                reveal_strlit("");
            }
            ""
        },
    }
}

fn cursor_text<'a>(p: &'a ProjectState, s: &'a SessionState) -> (r: &'a str)
    ensures
        r@ == cursor_of(p@, s@),
{
    match &p.last_assistant_result {
        Some(o) => {
            if !o.as_str().is_empty() {
                return o.as_str();
            }
        },
        None => {},
    }
    match &s.last_assistant_message {
        Some(x) => x.as_str(),
        None => {
            proof {
                reveal_strlit("");
            }
            ""
        },
    }
}

fn push_scope(x: &mut Vec<u8>, inp: &MapInputs, s: &SessionState, p: &ProjectState)
    ensures
        final(x)@ == old(x)@ + map_scope(*inp, s@, p@),
{
    let mut y: Vec<u8> = Vec::new();
    push_str(&mut y, "# CompactVeteran handoff\n\n## Scope\n\n- canonical root: ");
    push_str(&mut y, inp.root.as_str());
    push_str(&mut y, "\n- branch: ");
    push_str(&mut y, inp.branch.as_str());
    push_str(&mut y, "\n- HEAD: ");
    push_str(&mut y, inp.head.as_str());
    push_str(&mut y, "\n- clean: ");
    if inp.clean {
        push_str(&mut y, "true");
    } else {
        push_str(&mut y, "false");
    }
    push_str(&mut y, "\n- current session: ");
    push_str(&mut y, s.session_id.as_str());
    push_str(&mut y, "\n- transcript: ");
    push_opt(&mut y, &s.transcript_path);
    push_transcript_facts(
        &mut y,
        &inp.transcript,
        "\n- transcript prefix bytes: ",
        "\n- transcript prefix SHA256: ",
    );
    push_str(&mut y, "\n- prompt state: ");
    if p.prompt_pending {
        push_str(&mut y, "pending");
    } else {
        push_str(&mut y, "completed");
    }
    assert(y@ == map_scope(*inp, s@, p@));
    push_bytes(x, y.as_slice());
}

fn push_body(x: &mut Vec<u8>, inp: &MapInputs, s: &SessionState, p: &ProjectState)
    ensures
        final(x)@ == old(x)@ + map_body(*inp, s@, p@),
{
    let mut y: Vec<u8> = Vec::new();
    push_str(&mut y, "\n\n## Objective\n\n");
    let objective = clip(objective_text(p, s), 6000);
    push_bytes(&mut y, objective.as_slice());
    push_str(&mut y, "\n\n## Cursor\n\n");
    let cursor = clip(cursor_text(p, s), 4000);
    push_bytes(&mut y, cursor.as_slice());
    push_str(&mut y, "\n\n## Next action\n\n");
    if p.prompt_pending {
        push_str(
            &mut y,
            "Answer the Objective exactly once. Cursor is the prior completed boundary. Do not repeat Cursor work. Use listed project sources or the raw transcript only as needed for a specific ambiguity.",
        );
    } else {
        push_str(
            &mut y,
            "The Objective is already answered. Do not answer or restart it. Continue only an explicit unresolved action named by Cursor; if none exists, stop without inventing or retracing work. Use listed project sources or the raw transcript only as needed for a specific ambiguity.",
        );
    }
    push_str(&mut y, "\n\n## Recent commits\n\n```text\n");
    push_str(&mut y, inp.recent_commits.as_str());
    push_str(&mut y, "\n```\n\n## Sources\n\n");
    assert(y@ == map_body(*inp, s@, p@));
    push_bytes(x, y.as_slice());
}

fn push_sources(x: &mut Vec<u8>, sources: &Vec<String>)
    ensures
        final(x)@ == old(x)@ + source_lines(sources@),
{
    let ghost head = x@;
    let mut k: usize = 0;
    while k < sources.len()
        invariant
            k <= sources@.len(),
            x@ == head + source_lines(sources@.subrange(0, k as int)),
        decreases sources@.len() - k,
    {
        push_str(x, "- ");
        push_str(x, sources[k].as_str());
        push_str(x, "\n");
        k = k + 1;
        assert(sources@.subrange(0, k as int).drop_last() == sources@.subrange(0, k - 1));
    }
    assert(sources@.subrange(0, sources@.len() as int) == sources@);
}

fn push_recovery(x: &mut Vec<u8>, inp: &MapInputs, s: &SessionState)
    ensures
        final(x)@ == old(x)@ + map_recovery(*inp, s@),
{
    let mut y: Vec<u8> = Vec::new();
    push_str(&mut y, "\n## Recovery pointers\n\n- transcript: ");
    push_opt(&mut y, &s.transcript_path);
    push_transcript_facts(
        &mut y,
        &inp.transcript,
        "\n- transcript prefix bytes: ",
        "\n- transcript prefix SHA256: ",
    );
    push_str(&mut y, "\n\n### Session lineage\n\n");
    assert(y@ == map_recovery(*inp, s@));
    push_bytes(x, y.as_slice());
}

fn push_lineage(x: &mut Vec<u8>, sessions: &Vec<SessionRef>)
    ensures
        final(x)@ == old(x)@ + lineage_lines(
            recent_sessions(sessions@.map_values(|r: SessionRef| r@)),
        ),
{
    let ghost before = x@;
    let ghost views = sessions@.map_values(|r: SessionRef| r@);
    let n = sessions.len();
    let start = if n > 3 {
        n - 3
    } else {
        0
    };
    assert(recent_sessions(views) =~= views.subrange(start as int, n as int));
    let mut j = start;
    while j < n
        invariant
            start <= j <= n,
            n == sessions@.len(),
            views == sessions@.map_values(|r: SessionRef| r@),
            x@ == before + lineage_lines(views.subrange(start as int, j as int)),
        decreases n - j,
    {
        let z = &sessions[j];
        push_str(x, "- ");
        push_str(x, z.session_id.as_str());
        push_str(x, "\t");
        push_opt(x, &z.transcript_path);
        push_str(x, "\n");
        j = j + 1;
        assert(views.subrange(start as int, j as int).drop_last() == views.subrange(
            start as int,
            j - 1,
        ));
    }
}

/// Renders the map of the project `p` for the session `s` (see [`map_text`]);
/// refuses a map over [`MAP_LIMIT`] bytes.
pub fn write(inp: &MapInputs, s: &SessionState, p: &ProjectState) -> (r: Result<Vec<u8>, MapError>)
    ensures
        map_result_view(r) == write_spec(*inp, s@, p@),
{
    let mut x: Vec<u8> = Vec::new();
    push_scope(&mut x, inp, s, p);
    push_body(&mut x, inp, s, p);
    push_sources(&mut x, &inp.sources);
    push_recovery(&mut x, inp, s);
    push_lineage(&mut x, &p.sessions);
    assert(x@ =~= map_text(*inp, s@, p@));
    if x.len() > MAP_LIMIT {
        return Err(MapError::TooLarge);
    }
    Ok(x)
}

/// The transcript to fingerprint: the session's transcript path when it is set
/// and not empty (the caller reads it only when it names a file).
pub fn transcript_to_read(s: &SessionState) -> (r: Option<String>)
    ensures
        r is Some <==> filled(s@.transcript_path),
        r matches Some(t) ==> Some(t@) == s@.transcript_path,
{
    match &s.transcript_path {
        Some(t) => {
            if t.as_str().is_empty() {
                None
            } else {
                Some(t.clone())
            }
        },
        None => None,
    }
}

/// A written map never exceeds [`MAP_LIMIT`] bytes.
pub proof fn map_never_exceeds_limit(inp: MapInputs, s: SessionStateView, p: ProjectStateView)
    ensures
        write_spec(inp, s, p) matches Ok(m) ==> m.len() <= MAP_LIMIT,
{
}

/// Once the assistant has answered the prompt in the prompt's own turn, the map
/// that follows tells the next session that the objective is answered and must
/// not be answered again.
pub proof fn answered_prompt_map_says_completed(
    i: HookInputView,
    stored: SessionStateView,
    p: ProjectStateView,
    root: Seq<char>,
)
    requires
        filled(i.session_id),
        filled(i.last_assistant_message),
        !filled(i.prompt),
        stored.prompt_turn_id == i.turn_id,
    ensures
        ({
            let project = record_spec(p, root, merge_spec(i, Some(stored))->Ok_0);
            &&& prompt_state(project) == "completed"@
            &&& next_action(project) == next_when_answered()
        }),
{
    answered_prompt_is_not_pending(i, stored, p, root);
}

/// A new prompt is what the map hands over: once a prompt given in a known
/// turn, other than the last completed one, is merged and the session
/// recorded, the map's objective is that prompt, its prompt state is
/// `pending`, and its next action is to answer the objective exactly once.
pub proof fn new_prompt_map_says_pending(
    i: HookInputView,
    stored: Option<SessionStateView>,
    p: ProjectStateView,
    root: Seq<char>,
)
    requires
        filled(i.session_id),
        filled(i.prompt),
        !filled(i.last_assistant_message),
        i.turn_id is Some,
        i.turn_id != (match stored {
            Some(s) => s.completed_turn_id,
            None => None,
        }),
    ensures
        ({
            let s = merge_spec(i, stored)->Ok_0;
            let project = record_spec(p, root, s);
            &&& objective_of(project, s) == i.prompt->0
            &&& prompt_state(project) == "pending"@
            &&& next_action(project) == next_when_pending()
        }),
{
    new_prompt_is_pending(i, stored, p, root);
}

/// The map's objective is the project's objective when it has one, else the
/// session's last prompt; its cursor is the project's last result when it has
/// one, else the session's last assistant message.
pub proof fn map_objective_and_cursor(p: ProjectStateView, s: SessionStateView)
    ensures
        filled(p.objective) ==> objective_of(p, s) == p.objective->0,
        !filled(p.objective) && s.latest_prompt is Some ==> objective_of(p, s) == s.latest_prompt->0,
        filled(p.last_assistant_result) ==> cursor_of(p, s) == p.last_assistant_result->0,
        !filled(p.last_assistant_result) && s.last_assistant_message is Some ==> cursor_of(p, s)
            == s.last_assistant_message->0,
{
}

proof fn lemma_ascii_is_utf8(b: Seq<u8>)
    requires
        forall|i: int| 0 <= i < b.len() ==> b[i] < 128,
    ensures
        valid_utf8(b),
{
    assert(b.subrange(0, 0) =~= Seq::<u8>::empty());
    assert(partial_valid_utf8(b, 0));
    assert forall|i: int| 0 <= 0 <= i < b.len() <= b.len() implies #[trigger] is_leading_byte_width_1(
        b[i],
    ) by {}
    partial_valid_utf8_extend_ascii_block(b, 0, b.len() as int);
    assert(b.subrange(0, b.len() as int) =~= b);
}

proof fn lemma_decimal_is_ascii(n: nat)
    ensures
        forall|i: int| 0 <= i < decimal(n).len() ==> decimal(n)[i] < 128,
    decreases n,
{
    if n >= 10 {
        lemma_decimal_is_ascii(n / 10);
        let d = decimal(n);
        assert forall|i: int| 0 <= i < d.len() implies d[i] < 128 by {
            if i < d.len() - 1 {
                assert(d[i] == decimal(n / 10)[i]);
            }
        }
    }
}

proof fn lemma_hex_is_ascii(b: Seq<u8>)
    ensures
        forall|i: int| 0 <= i < hex_lower(b).len() ==> hex_lower(b)[i] < 128,
    decreases b.len(),
{
    if b.len() > 0 {
        let init = hex_lower(b.drop_last());
        lemma_hex_is_ascii(b.drop_last());
        let h = hex_lower(b);
        assert forall|i: int| 0 <= i < h.len() implies h[i] < 128 by {
            if i < init.len() {
                assert(h[i] == init[i]);
            }
        }
    }
}

/// The map is valid UTF-8 text: every part of it is, the clipped texts included.
pub proof fn map_is_utf8(inp: MapInputs, s: SessionStateView, p: ProjectStateView)
    ensures
        valid_utf8(map_text(inp, s, p)),
{
    broadcast use encode_utf8_valid_utf8;

    lemma_decimal_is_ascii(transcript_size(inp.transcript));
    lemma_ascii_is_utf8(decimal(transcript_size(inp.transcript)));
    match inp.transcript {
        Some(b) => {
            lemma_hex_is_ascii(sha256_digest(b@));
            lemma_ascii_is_utf8(hex_lower(sha256_digest(b@)));
        },
        None => {},
    }
    assert(valid_utf8(transcript_digest(inp.transcript)));
    assert(valid_utf8(bool_text(inp.clean)));
    clip_keeps_utf8(utf8(objective_of(p, s)), 6000);
    clip_keeps_utf8(utf8(cursor_of(p, s)), 4000);
    lemma_parts_utf8(inp, s, p);
    lemma_source_lines_utf8(inp.sources@);
    lemma_lineage_utf8(recent_sessions(p.sessions));
    let head = map_scope(inp, s, p);
    valid_utf8_concat(head, map_body(inp, s, p));
    let head = head + map_body(inp, s, p);
    valid_utf8_concat(head, source_lines(inp.sources@));
    let head = head + source_lines(inp.sources@);
    valid_utf8_concat(head, map_recovery(inp, s));
    let head = head + map_recovery(inp, s);
    valid_utf8_concat(head, lineage_lines(recent_sessions(p.sessions)));
}

proof fn lemma_parts_utf8(inp: MapInputs, s: SessionStateView, p: ProjectStateView)
    requires
        valid_utf8(decimal(transcript_size(inp.transcript))),
        valid_utf8(transcript_digest(inp.transcript)),
        valid_utf8(clip_spec(utf8(objective_of(p, s)), 6000)),
        valid_utf8(clip_spec(utf8(cursor_of(p, s)), 4000)),
    ensures
        valid_utf8(map_scope(inp, s, p)),
        valid_utf8(map_body(inp, s, p)),
        valid_utf8(map_recovery(inp, s)),
{
    broadcast use encode_utf8_valid_utf8;

    assert(valid_utf8(bool_text(inp.clean)));
    assert(valid_utf8(map_scope(inp, s, p))) by {
        let t = utf8("# CompactVeteran handoff\n\n## Scope\n\n- canonical root: "@);
        valid_utf8_concat(t, utf8(inp.root@));
        let t = t + utf8(inp.root@);
        valid_utf8_concat(t, utf8("\n- branch: "@));
        let t = t + utf8("\n- branch: "@);
        valid_utf8_concat(t, utf8(inp.branch@));
        let t = t + utf8(inp.branch@);
        valid_utf8_concat(t, utf8("\n- HEAD: "@));
        let t = t + utf8("\n- HEAD: "@);
        valid_utf8_concat(t, utf8(inp.head@));
        let t = t + utf8(inp.head@);
        valid_utf8_concat(t, utf8("\n- clean: "@));
        let t = t + utf8("\n- clean: "@);
        valid_utf8_concat(t, bool_text(inp.clean));
        let t = t + bool_text(inp.clean);
        valid_utf8_concat(t, utf8("\n- current session: "@));
        let t = t + utf8("\n- current session: "@);
        valid_utf8_concat(t, utf8(s.session_id));
        let t = t + utf8(s.session_id);
        valid_utf8_concat(t, utf8("\n- transcript: "@));
        let t = t + utf8("\n- transcript: "@);
        valid_utf8_concat(t, utf8(text_or_empty(s.transcript_path)));
        let t = t + utf8(text_or_empty(s.transcript_path));
        valid_utf8_concat(t, utf8("\n- transcript prefix bytes: "@));
        let t = t + utf8("\n- transcript prefix bytes: "@);
        valid_utf8_concat(t, decimal(transcript_size(inp.transcript)));
        let t = t + decimal(transcript_size(inp.transcript));
        valid_utf8_concat(t, utf8("\n- transcript prefix SHA256: "@));
        let t = t + utf8("\n- transcript prefix SHA256: "@);
        valid_utf8_concat(t, transcript_digest(inp.transcript));
        let t = t + transcript_digest(inp.transcript);
        valid_utf8_concat(t, utf8("\n- prompt state: "@));
        let t = t + utf8("\n- prompt state: "@);
        valid_utf8_concat(t, utf8(prompt_state(p)));
        let t = t + utf8(prompt_state(p));
        assert(t == map_scope(inp, s, p));
    }
    assert(valid_utf8(map_body(inp, s, p))) by {
        let t = utf8("\n\n## Objective\n\n"@);
        valid_utf8_concat(t, clip_spec(utf8(objective_of(p, s)), 6000));
        let t = t + clip_spec(utf8(objective_of(p, s)), 6000);
        valid_utf8_concat(t, utf8("\n\n## Cursor\n\n"@));
        let t = t + utf8("\n\n## Cursor\n\n"@);
        valid_utf8_concat(t, clip_spec(utf8(cursor_of(p, s)), 4000));
        let t = t + clip_spec(utf8(cursor_of(p, s)), 4000);
        valid_utf8_concat(t, utf8("\n\n## Next action\n\n"@));
        let t = t + utf8("\n\n## Next action\n\n"@);
        valid_utf8_concat(t, utf8(next_action(p)));
        let t = t + utf8(next_action(p));
        valid_utf8_concat(t, utf8("\n\n## Recent commits\n\n```text\n"@));
        let t = t + utf8("\n\n## Recent commits\n\n```text\n"@);
        valid_utf8_concat(t, utf8(inp.recent_commits@));
        let t = t + utf8(inp.recent_commits@);
        valid_utf8_concat(t, utf8("\n```\n\n## Sources\n\n"@));
        let t = t + utf8("\n```\n\n## Sources\n\n"@);
        assert(t == map_body(inp, s, p));
    }
    assert(valid_utf8(map_recovery(inp, s))) by {
        let t = utf8("\n## Recovery pointers\n\n- transcript: "@);
        valid_utf8_concat(t, utf8(text_or_empty(s.transcript_path)));
        let t = t + utf8(text_or_empty(s.transcript_path));
        valid_utf8_concat(t, utf8("\n- transcript prefix bytes: "@));
        let t = t + utf8("\n- transcript prefix bytes: "@);
        valid_utf8_concat(t, decimal(transcript_size(inp.transcript)));
        let t = t + decimal(transcript_size(inp.transcript));
        valid_utf8_concat(t, utf8("\n- transcript prefix SHA256: "@));
        let t = t + utf8("\n- transcript prefix SHA256: "@);
        valid_utf8_concat(t, transcript_digest(inp.transcript));
        let t = t + transcript_digest(inp.transcript);
        valid_utf8_concat(t, utf8("\n\n### Session lineage\n\n"@));
        let t = t + utf8("\n\n### Session lineage\n\n"@);
        assert(t == map_recovery(inp, s));
    }
}


proof fn lemma_source_lines_utf8(sources: Seq<String>)
    ensures
        valid_utf8(source_lines(sources)),
    decreases sources.len(),
{
    broadcast use encode_utf8_valid_utf8;

    if sources.len() > 0 {
        let init = sources.drop_last();
        lemma_source_lines_utf8(init);
        let t = source_lines(init);
        valid_utf8_concat(t, utf8("- "@));
        let t = t + utf8("- "@);
        valid_utf8_concat(t, utf8(sources.last()@));
        let t = t + utf8(sources.last()@);
        valid_utf8_concat(t, utf8("\n"@));
    } else {
        assert(valid_utf8(source_lines(sources)));
    }
}

proof fn lemma_lineage_utf8(sessions: Seq<SessionRefView>)
    ensures
        valid_utf8(lineage_lines(sessions)),
    decreases sessions.len(),
{
    broadcast use encode_utf8_valid_utf8;

    if sessions.len() > 0 {
        let init = sessions.drop_last();
        let z = sessions.last();
        lemma_lineage_utf8(init);
        let t = lineage_lines(init);
        valid_utf8_concat(t, utf8("- "@));
        let t = t + utf8("- "@);
        valid_utf8_concat(t, utf8(z.session_id));
        let t = t + utf8(z.session_id);
        valid_utf8_concat(t, utf8("\t"@));
        let t = t + utf8("\t"@);
        valid_utf8_concat(t, utf8(text_or_empty(z.transcript_path)));
        let t = t + utf8(text_or_empty(z.transcript_path));
        valid_utf8_concat(t, utf8("\n"@));
    } else {
        assert(valid_utf8(lineage_lines(sessions)));
    }
}

} // verus!
