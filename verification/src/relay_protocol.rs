//! The terminal control block that ends an automation reply from ChatGPT.
//!
//! A valid reply ends with exactly one of `@@@CODEX_PROMPT@@@ … @@@END_CODEX_PROMPT@@@`,
//! `@@@BLOCKED@@@ … @@@END_BLOCKED@@@`, `@@@CODEX_INPUT@@@ … @@@END_CODEX_INPUT@@@`
//! or `@@@MODULE_DONE@@@`.

use crate::text::{
    chars_of, contains, decimal, lemma_rfind, matches_at, decimal_chars, decimal_string, ends_with, rfind, starts_with,
    trim, trim_end, trim_end_index, trim_start_index, window_contains,
    window_ends_with, window_rfind, window_starts_with,
};
use vstd::prelude::*;

verus! {

#[derive(Debug, Clone, PartialEq, Eq)]
pub enum ControlBlock {
    CodexPrompt(String),
    ModuleDone,
    Blocked(String),
    CodexInput(Vec<String>),
}

/// A control block with its texts as character sequences.
pub enum ControlBlockView {
    CodexPrompt(Seq<char>),
    ModuleDone,
    Blocked(Seq<char>),
    CodexInput(Seq<Seq<char>>),
}

pub open spec fn strings_view(v: Seq<String>) -> Seq<Seq<char>> {
    v.map_values(|s: String| s@)
}

impl View for ControlBlock {
    type V = ControlBlockView;

    open spec fn view(&self) -> ControlBlockView {
        match self {
            ControlBlock::CodexPrompt(p) => ControlBlockView::CodexPrompt(p@),
            ControlBlock::ModuleDone => ControlBlockView::ModuleDone,
            ControlBlock::Blocked(b) => ControlBlockView::Blocked(b@),
            ControlBlock::CodexInput(a) => ControlBlockView::CodexInput(strings_view(a@)),
        }
    }
}

pub open spec fn block_result(r: Result<ControlBlock, String>) -> Result<ControlBlockView, Seq<char>> {
    match r {
        Ok(b) => Ok(b@),
        Err(e) => Err(e@),
    }
}

pub open spec fn prompt_start() -> Seq<char> {
    "@@@CODEX_PROMPT@@@"@
}

pub open spec fn prompt_end() -> Seq<char> {
    "@@@END_CODEX_PROMPT@@@"@
}

pub open spec fn blocked_start() -> Seq<char> {
    "@@@BLOCKED@@@"@
}

pub open spec fn blocked_end() -> Seq<char> {
    "@@@END_BLOCKED@@@"@
}

pub open spec fn input_start() -> Seq<char> {
    "@@@CODEX_INPUT@@@"@
}

pub open spec fn input_end() -> Seq<char> {
    "@@@END_CODEX_INPUT@@@"@
}

pub open spec fn module_done_marker() -> Seq<char> {
    "@@@MODULE_DONE@@@"@
}

pub open spec fn block_mark() -> Seq<char> {
    "@@@"@
}

pub open spec fn crlf() -> Seq<char> {
    seq!['\r', '\n']
}

pub open spec fn lf() -> Seq<char> {
    seq!['\n']
}

pub open spec fn several_blocks_error() -> Seq<char> {
    "自动化回复中出现了多个或不完整的控制块"@
}

pub open spec fn empty_block_error() -> Seq<char> {
    "控制块内容不能为空"@
}

pub open spec fn no_pending_input_error() -> Seq<char> {
    "当前没有待回答的 Codex 输入请求"@
}

pub open spec fn one_block_error() -> Seq<char> {
    "自动化回复末尾必须且只能包含一个有效控制块"@
}

pub open spec fn empty_input_error() -> Seq<char> {
    "CODEX_INPUT 不能为空"@
}

/// The prefix an answer numbered `k` must carry: `"k."`.
pub open spec fn answer_label(k: nat) -> Seq<char> {
    decimal(k) + "."@
}

pub open spec fn answer_label_error(k: nat) -> Seq<char> {
    "CODEX_INPUT 第 "@ + decimal(k) + " 项必须以 `"@ + answer_label(k) + "` 开头"@
}

pub open spec fn answer_count_error(expected: nat, actual: nat) -> Seq<char> {
    "CODEX_INPUT 需要 "@ + decimal(expected) + " 项答案，实际为 "@ + decimal(actual) + " 项"@
}

/// `b` without one leading line break (`\r\n` or `\n`).
pub open spec fn strip_leading_break(b: Seq<char>) -> Seq<char> {
    if starts_with(b, crlf()) {
        b.subrange(2, b.len() as int)
    } else if starts_with(b, lf()) {
        b.subrange(1, b.len() as int)
    } else {
        b
    }
}

/// `b` without one trailing line break (`\r\n` or `\n`).
pub open spec fn strip_trailing_break(b: Seq<char>) -> Seq<char> {
    if ends_with(b, crlf()) {
        b.subrange(0, b.len() - 2)
    } else if ends_with(b, lf()) {
        b.subrange(0, b.len() - 1)
    } else {
        b
    }
}

/// The body of a `start … end` block that ends `text`: `Ok(None)` when `text`
/// does not end with such a block, an error when the block is preceded by
/// another marker or its body is blank.
pub open spec fn wrapped_body(text: Seq<char>, start: Seq<char>, end: Seq<char>) -> Result<Option<Seq<char>>, Seq<char>> {
    if !ends_with(text, end) {
        Ok(None)
    } else {
        let prefix = text.subrange(0, text.len() - end.len());
        match rfind(prefix, start) {
            None => Ok(None),
            Some(offset) => if contains(prefix.subrange(0, offset), block_mark()) {
                Err(several_blocks_error())
            } else {
                let body = strip_trailing_break(
                    strip_leading_break(prefix.subrange(offset + start.len(), prefix.len() as int)),
                );
                if trim(body).len() == 0 {
                    Err(empty_block_error())
                } else {
                    Ok(Some(body))
                }
            },
        }
    }
}

/// The index of the first `\n` at or after `i`, or `s.len()`.
pub open spec fn next_newline(s: Seq<char>, i: int) -> int
    decreases s.len() - i,
{
    if i >= s.len() {
        s.len() as int
    } else if s[i] == '\n' {
        i
    } else {
        next_newline(s, i + 1)
    }
}

/// The next line break at or after `i` lies within `s` (or is its end), is a
/// line break, and no line break comes before it.
pub proof fn lemma_next_newline_bounds(s: Seq<char>, i: int)
    requires
        0 <= i,
    ensures
        i <= s.len() ==> i <= next_newline(s, i) <= s.len(),
        i > s.len() ==> next_newline(s, i) == s.len(),
        next_newline(s, i) < s.len() ==> s[next_newline(s, i)] == '\n',
        forall|j: int| i <= j < next_newline(s, i) ==> s[j] != '\n',
    decreases s.len() - i,
{
    if i < s.len() && s[i] != '\n' {
        lemma_next_newline_bounds(s, i + 1);
    }
}

/// A line without the `\r` of a `\r\n` ending.
pub open spec fn strip_carriage_return(l: Seq<char>) -> Seq<char> {
    if l.len() > 0 && l.last() == '\r' {
        l.drop_last()
    } else {
        l
    }
}

/// The lines of `s` from index `i` on, as `str::lines` yields them.
pub open spec fn lines_from(s: Seq<char>, i: int) -> Seq<Seq<char>>
    decreases s.len() - i,
{
    if i < 0 || i >= s.len() {
        seq![]
    } else {
        let k = next_newline(s, i);
        proof {
            lemma_next_newline_bounds(s, i);
        }
        if k < s.len() {
            seq![strip_carriage_return(s.subrange(i, k))] + lines_from(s, k + 1)
        } else {
            seq![s.subrange(i, s.len() as int)]
        }
    }
}

/// The answers on the non-blank lines `ls[i..]`, the next one numbered `n + 1`.
pub open spec fn answers_from(ls: Seq<Seq<char>>, i: int, n: nat) -> Result<Seq<Seq<char>>, Seq<char>>
    decreases ls.len() - i,
{
    if i < 0 || i >= ls.len() {
        Ok(seq![])
    } else if trim(ls[i]).len() == 0 {
        answers_from(ls, i + 1, n)
    } else {
        let line = trim(ls[i]);
        let label = answer_label(n + 1);
        let value = trim(line.subrange(label.len() as int, line.len() as int));
        if starts_with(line, label) && value.len() > 0 {
            match answers_from(ls, i + 1, n + 1) {
                Ok(rest) => Ok(seq![value] + rest),
                Err(e) => Err(e),
            }
        } else {
            Err(answer_label_error(n + 1))
        }
    }
}

proof fn lemma_trim_of_blank(w: Seq<char>)
    requires
        crate::text::is_blank(w),
    ensures
        trim(w).len() == 0,
    decreases w.len(),
{
    if w.len() > 0 {
        assert(crate::text::is_blank(w.drop_last()));
        lemma_trim_of_blank(w.drop_last());
        assert(crate::text::is_space(w.last()));
    }
}

proof fn lemma_answers_shift(p: Seq<Seq<char>>, b: Seq<Seq<char>>, j: int, n: nat)
    requires
        0 <= j,
    ensures
        answers_from(p + b, p.len() + j, n) == answers_from(b, j, n),
    decreases b.len() - j,
{
    if j < b.len() {
        assert((p + b)[p.len() + j] == b[j]);
        lemma_answers_shift(p, b, j + 1, n);
        lemma_answers_shift(p, b, j + 1, n + 1);
    }
}

proof fn lemma_answers_skip_inserted(a: Seq<Seq<char>>, w: Seq<char>, b: Seq<Seq<char>>, i: int, n: nat)
    requires
        0 <= i <= a.len(),
        trim(w).len() == 0,
    ensures
        answers_from(a + seq![w] + b, i, n) == answers_from(a + b, i, n),
    decreases a.len() - i,
{
    let with = a + seq![w] + b;
    if i == a.len() {
        assert(with[i] == w);
        lemma_answers_shift(a + seq![w], b, 0, n);
        lemma_answers_shift(a, b, 0, n);
    } else {
        assert(with[i] == a[i]);
        assert((a + b)[i] == a[i]);
        lemma_answers_skip_inserted(a, w, b, i + 1, n);
        lemma_answers_skip_inserted(a, w, b, i + 1, n + 1);
    }
}

/// Blank lines among the numbered answers are skipped: inserting a blank line
/// anywhere in the lines of a CODEX_INPUT body changes neither the answers read
/// nor the error reported.
pub proof fn lemma_blank_answer_lines_are_skipped(a: Seq<Seq<char>>, w: Seq<char>, b: Seq<Seq<char>>)
    requires
        crate::text::is_blank(w),
    ensures
        answers_from(a + seq![w] + b, 0, 0) == answers_from(a + b, 0, 0),
{
    lemma_trim_of_blank(w);
    lemma_answers_skip_inserted(a, w, b, 0, 0);
}

proof fn lemma_next_newline_prefix(x: Seq<char>, z: Seq<char>, i: int)
    requires
        0 <= i <= x.len(),
    ensures
        next_newline(x + lf() + z, i) == next_newline(x + lf(), i),
    decreases x.len() - i,
{
    let s = x + lf() + z;
    let s1 = x + lf();
    assert(s[i] == s1[i]);
    if i < x.len() && s[i] != '\n' {
        lemma_next_newline_prefix(x, z, i + 1);
    }
}

proof fn lemma_next_newline_shift(p: Seq<char>, z: Seq<char>, j: int)
    requires
        0 <= j,
    ensures
        next_newline(p + z, p.len() + j) == p.len() + next_newline(z, j),
    decreases z.len() - j,
{
    if j < z.len() {
        assert((p + z)[p.len() + j] == z[j]);
        if z[j] != '\n' {
            lemma_next_newline_shift(p, z, j + 1);
        }
    }
}

proof fn lemma_lines_shift(p: Seq<char>, z: Seq<char>, j: int)
    requires
        0 <= j,
    ensures
        lines_from(p + z, p.len() + j) == lines_from(z, j),
    decreases z.len() - j,
{
    if j < z.len() {
        lemma_next_newline_shift(p, z, j);
        lemma_next_newline_bounds(z, j);
        let k = next_newline(z, j);
        assert((p + z).subrange(p.len() + j, p.len() + k) =~= z.subrange(j, k));
        if k < z.len() {
            lemma_lines_shift(p, z, k + 1);
        } else {
            assert((p + z).subrange(p.len() + j, (p + z).len() as int) =~= z.subrange(
                j,
                z.len() as int,
            ));
        }
    }
}

proof fn lemma_lines_split(x: Seq<char>, z: Seq<char>, i: int)
    requires
        0 <= i <= x.len(),
    ensures
        lines_from(x + lf() + z, i) == lines_from(x + lf(), i) + lines_from(z, 0),
    decreases x.len() - i,
{
    let s = x + lf() + z;
    let s1 = x + lf();
    lemma_next_newline_prefix(x, z, i);
    lemma_next_newline_bounds(s1, i);
    assert(s1[x.len() as int] == '\n');
    let k = next_newline(s1, i);
    assert(k <= x.len());
    assert(s.subrange(i, k) =~= s1.subrange(i, k));
    if k < x.len() {
        lemma_lines_split(x, z, k + 1);
        assert(lines_from(s, i) =~= lines_from(s1, i) + lines_from(z, 0));
    } else {
        assert(s =~= s1 + z);
        lemma_lines_shift(s1, z, 0);
        assert(lines_from(s1, k + 1) =~= Seq::<Seq<char>>::empty());
        assert(lines_from(s, i) =~= lines_from(s1, i) + lines_from(z, 0));
    }
}

/// A blank line inserted between two lines of a CODEX_INPUT body changes
/// nothing: the body reads as the same numbered answers, or fails with the
/// same error.
pub proof fn lemma_blank_body_line_is_skipped(x: Seq<char>, w: Seq<char>, z: Seq<char>)
    requires
        crate::text::is_blank(w),
        forall|i: int| 0 <= i < w.len() ==> w[i] != '\n',
    ensures
        numbered_answers(x + lf() + w + lf() + z) == numbered_answers(x + lf() + z),
{
    let rest = w + lf() + z;
    assert(x + lf() + w + lf() + z =~= x + lf() + rest);
    lemma_lines_split(x, rest, 0);
    lemma_lines_split(w, z, 0);
    lemma_lines_split(x, z, 0);
    let wl = w + lf();
    lemma_next_newline_bounds(wl, 0);
    assert(wl[w.len() as int] == '\n');
    assert(next_newline(wl, 0) == w.len());
    assert(wl.subrange(0, w.len() as int) =~= w);
    assert(lines_from(wl, w.len() + 1int) =~= Seq::<Seq<char>>::empty());
    let line = strip_carriage_return(w);
    assert(lines_from(wl, 0) =~= seq![line]);
    assert(crate::text::is_blank(line));
    let a = lines_from(x + lf(), 0);
    let b = lines_from(z, 0);
    assert(lines_from(x + lf() + rest, 0) =~= a + seq![line] + b);
    lemma_blank_answer_lines_are_skipped(a, line, b);
}

/// The numbered answers of a CODEX_INPUT body: every non-blank line is
/// `"k. answer"`, numbered from 1, and there is at least one.
pub open spec fn numbered_answers(body: Seq<char>) -> Result<Seq<Seq<char>>, Seq<char>> {
    match answers_from(lines_from(body, 0), 0, 0) {
        Ok(answers) => if answers.len() == 0 {
            Err(empty_input_error())
        } else {
            Ok(answers)
        },
        Err(e) => Err(e),
    }
}

/// The CODEX_INPUT answers that end `text`, checked against the number of
/// pending questions.
pub open spec fn input_answers(text: Seq<char>, question_count: Option<usize>) -> Result<Option<Seq<Seq<char>>>, Seq<char>> {
    match wrapped_body(text, input_start(), input_end()) {
        Err(e) => Err(e),
        Ok(None) => Ok(None),
        Ok(Some(body)) => match numbered_answers(body) {
            Err(e) => Err(e),
            Ok(answers) => match question_count {
                Some(expected) => if answers.len() != expected {
                    Err(answer_count_error(expected as nat, answers.len()))
                } else {
                    Ok(Some(answers))
                },
                None => Err(no_pending_input_error()),
            },
        },
    }
}

/// `text` ends with one MODULE_DONE marker and nothing before that marker is
/// a marker (so two MODULE_DONE markers in a row are two blocks, not one).
pub open spec fn ends_with_module_done(text: Seq<char>) -> bool {
    ends_with(text, module_done_marker()) && !contains(
        text.subrange(0, text.len() - module_done_marker().len()),
        block_mark(),
    )
}

pub open spec fn optional_block<T>(o: Option<T>, f: spec_fn(T) -> ControlBlockView) -> Seq<ControlBlockView> {
    match o {
        Some(x) => seq![f(x)],
        None => seq![],
    }
}

/// Every control block found at the end of the text, in the order they are looked for.
pub open spec fn found_blocks(
    prompt: Option<Seq<char>>,
    blocked: Option<Seq<char>>,
    input: Option<Seq<Seq<char>>>,
    done: bool,
) -> Seq<ControlBlockView> {
    optional_block(prompt, |p: Seq<char>| ControlBlockView::CodexPrompt(p)) + optional_block(
        blocked,
        |b: Seq<char>| ControlBlockView::Blocked(b),
    ) + optional_block(input, |a: Seq<Seq<char>>| ControlBlockView::CodexInput(a)) + (if done {
        seq![ControlBlockView::ModuleDone]
    } else {
        seq![]
    })
}

/// The control block that ends `reply`, or why there is not exactly one.
pub open spec fn terminal_control_block(reply: Seq<char>, question_count: Option<usize>) -> Result<ControlBlockView, Seq<char>> {
    let text = trim_end(reply);
    match wrapped_body(text, prompt_start(), prompt_end()) {
        Err(e) => Err(e),
        Ok(prompt) => match wrapped_body(text, blocked_start(), blocked_end()) {
            Err(e) => Err(e),
            Ok(blocked) => match input_answers(text, question_count) {
                Err(e) => Err(e),
                Ok(input) => {
                    let found = found_blocks(prompt, blocked, input, ends_with_module_done(text));
                    if found.len() != 1 {
                        Err(one_block_error())
                    } else {
                        Ok(found[0])
                    }
                },
            },
        },
    }
}

/// The markers and line breaks the parser looks for, as character vectors.
struct Markers {
    mark: Vec<char>,
    crlf: Vec<char>,
    lf: Vec<char>,
}

fn markers() -> (m: Markers)
    ensures
        m.mark@ == block_mark(),
        m.crlf@ == crlf(),
        m.lf@ == lf(),
{
    let mut crlf_chars = Vec::new();
    crlf_chars.push('\r');
    crlf_chars.push('\n');
    let mut lf_chars = Vec::new();
    lf_chars.push('\n');
    assert(crlf_chars@ =~= crlf());
    assert(lf_chars@ =~= lf());
    Markers { mark: chars_of("@@@"), crlf: crlf_chars, lf: lf_chars }
}

/// The window `v[a..b]` that remains of `v[lo..hi]` once one leading and one
/// trailing line break are removed.
fn strip_breaks_window(v: &Vec<char>, lo: usize, hi: usize, m: &Markers) -> (r: (usize, usize))
    requires
        lo <= hi <= v@.len(),
        m.crlf@ == crlf(),
        m.lf@ == lf(),
    ensures
        lo <= r.0 <= r.1 <= hi,
        v@.subrange(r.0 as int, r.1 as int) == strip_trailing_break(
            strip_leading_break(v@.subrange(lo as int, hi as int)),
        ),
{
    let ghost raw = v@.subrange(lo as int, hi as int);
    let mut a = lo;
    if window_starts_with(v, lo, hi, &m.crlf) {
        assert(raw.subrange(2, raw.len() as int) =~= v@.subrange(lo + 2, hi as int));
        a = lo + 2;
    } else if window_starts_with(v, lo, hi, &m.lf) {
        assert(raw.subrange(1, raw.len() as int) =~= v@.subrange(lo + 1, hi as int));
        a = lo + 1;
    }
    let ghost leading = strip_leading_break(raw);
    assert(leading == v@.subrange(a as int, hi as int));
    let mut b = hi;
    if window_ends_with(v, a, hi, &m.crlf) {
        assert(leading.subrange(0, leading.len() - 2) =~= v@.subrange(a as int, hi - 2));
        b = hi - 2;
    } else if window_ends_with(v, a, hi, &m.lf) {
        assert(leading.subrange(0, leading.len() - 1) =~= v@.subrange(a as int, hi - 1));
        b = hi - 1;
    }
    (a, b)
}

/// The body window `[a, b)` of the `start … end` block that ends `v[0..te]`.
fn terminal_wrapped(v: &Vec<char>, te: usize, start: &Vec<char>, end: &Vec<char>, m: &Markers) -> (r: Result<Option<(usize, usize)>, String>)
    requires
        te <= v@.len(),
        m.mark@ == block_mark(),
        m.crlf@ == crlf(),
        m.lf@ == lf(),
    ensures
        match r {
            Ok(Some((a, b))) => a <= b <= te && wrapped_body(
                v@.subrange(0, te as int),
                start@,
                end@,
            ) == Ok::<Option<Seq<char>>, Seq<char>>(Some(v@.subrange(a as int, b as int))),
            Ok(None) => wrapped_body(v@.subrange(0, te as int), start@, end@) == Ok::<
                Option<Seq<char>>,
                Seq<char>,
            >(None),
            Err(e) => wrapped_body(v@.subrange(0, te as int), start@, end@) == Err::<
                Option<Seq<char>>,
                Seq<char>,
            >(e@),
        },
{
    let ghost text = v@.subrange(0, te as int);
    if !window_ends_with(v, 0, te, end) {
        return Ok(None);
    }
    let pe = te - end.len();
    let ghost prefix = text.subrange(0, text.len() - end@.len());
    assert(prefix =~= v@.subrange(0, pe as int));
    let found = window_rfind(v, 0, pe, start);
    let offset = match found {
        None => {
            return Ok(None);
        },
        Some(offset) => offset,
    };
    assert(prefix.subrange(0, offset as int) =~= v@.subrange(0, offset as int));
    if window_contains(v, 0, offset, &m.mark) {
        return Err(String::from_str("自动化回复中出现了多个或不完整的控制块"));
    }
    proof {
        lemma_rfind(prefix, start@);
    }
    let ghost raw = prefix.subrange(offset + start@.len(), prefix.len() as int);
    let a0 = offset + start.len();
    assert(raw =~= v@.subrange(a0 as int, pe as int));
    let (a, b) = strip_breaks_window(v, a0, pe, m);
    let ghost body = strip_trailing_break(strip_leading_break(raw));
    let tb = trim_end_index(v, a, b);
    let ts = trim_start_index(v, a, tb);
    assert(trim(body) == v@.subrange(ts as int, tb as int));
    if ts == tb {
        return Err(String::from_str("控制块内容不能为空"));
    }
    Ok(Some((a, b)))
}

/// The texts of the windows `w` of `s`.
pub open spec fn windows_view(s: Seq<char>, w: Seq<(usize, usize)>) -> Seq<Seq<char>> {
    w.map_values(|p: (usize, usize)| s.subrange(p.0 as int, p.1 as int))
}

/// The index of the first `\n` in `v[i..b]`, or `b`.
fn find_newline(v: &Vec<char>, a: usize, i: usize, b: usize) -> (k: usize)
    requires
        a <= i <= b <= v@.len(),
    ensures
        i <= k <= b,
        k - a == next_newline(v@.subrange(a as int, b as int), i - a),
{
    let ghost body = v@.subrange(a as int, b as int);
    let mut k = i;
    while k < b && v[k] != '\n'
        invariant
            a <= i <= k <= b <= v@.len(),
            body == v@.subrange(a as int, b as int),
            next_newline(body, k - a) == next_newline(body, i - a),
        decreases b - k,
    {
        k = k + 1;
    }
    k
}

/// The windows of the lines of `v[a..b]`.
fn line_windows(v: &Vec<char>, a: usize, b: usize) -> (r: Vec<(usize, usize)>)
    requires
        a <= b <= v@.len(),
    ensures
        forall|j: int| 0 <= j < r@.len() ==> a <= (#[trigger] r@[j]).0 <= r@[j].1 <= b,
        windows_view(v@, r@) == lines_from(v@.subrange(a as int, b as int), 0),
{
    let ghost body = v@.subrange(a as int, b as int);
    let mut r: Vec<(usize, usize)> = Vec::new();
    let mut i = a;
    while i < b
        invariant
            a <= i <= b <= v@.len(),
            body == v@.subrange(a as int, b as int),
            forall|j: int| 0 <= j < r@.len() ==> a <= (#[trigger] r@[j]).0 <= r@[j].1 <= b,
            windows_view(v@, r@) + lines_from(body, i - a) == lines_from(body, 0),
        decreases b - i,
    {
        let k = find_newline(v, a, i, b);
        proof {
            lemma_next_newline_bounds(body, i - a);
        }
        let ghost before = windows_view(v@, r@);
        if k < b {
            let end = if k > i && v[k - 1] == '\r' {
                k - 1
            } else {
                k
            };
            assert(body.subrange(i - a, k - a) =~= v@.subrange(i as int, k as int));
            assert(strip_carriage_return(v@.subrange(i as int, k as int)) =~= v@.subrange(
                i as int,
                end as int,
            ));
            r.push((i, end));
            assert(windows_view(v@, r@) =~= before.push(v@.subrange(i as int, end as int)));
            assert(lines_from(body, i - a) == seq![v@.subrange(i as int, end as int)]
                + lines_from(body, k + 1 - a));
            assert(windows_view(v@, r@) + lines_from(body, k + 1 - a) =~= before + lines_from(
                body,
                i - a,
            ));
            i = k + 1;
        } else {
            assert(body.subrange(i - a, body.len() as int) =~= v@.subrange(i as int, b as int));
            r.push((i, b));
            assert(windows_view(v@, r@) =~= before.push(v@.subrange(i as int, b as int)));
            assert(lines_from(body, i - a) == seq![v@.subrange(i as int, b as int)]);
            assert(lines_from(body, b - a) =~= Seq::<Seq<char>>::empty());
            assert(windows_view(v@, r@) + lines_from(body, b - a) =~= before + lines_from(
                body,
                i - a,
            ));
            i = b;
        }
    }
    assert(lines_from(body, i - a) =~= Seq::<Seq<char>>::empty());
    assert(windows_view(v@, r@) =~= windows_view(v@, r@) + lines_from(body, i - a));
    r
}

/// `done` followed by what `rest` yields, or `rest`'s error.
pub open spec fn prepend_answers(done: Seq<Seq<char>>, rest: Result<Seq<Seq<char>>, Seq<char>>) -> Result<Seq<Seq<char>>, Seq<char>> {
    match rest {
        Ok(more) => Ok(done + more),
        Err(e) => Err(e),
    }
}

pub open spec fn answers_result(r: Result<Vec<String>, String>) -> Result<Seq<Seq<char>>, Seq<char>> {
    match r {
        Ok(a) => Ok(strings_view(a@)),
        Err(e) => Err(e@),
    }
}

fn answer_label_error_string(k: u64) -> (e: String)
    ensures
        e@ == answer_label_error(k as nat),
{
    let digits = decimal_string(k);
    let e = String::from_str("CODEX_INPUT 第 ").concat(digits.as_str()).concat(
        " 项必须以 `",
    ).concat(digits.as_str()).concat(".").concat("` 开头");
    assert(e@ =~= answer_label_error(k as nat));
    e
}

/// The numbered answers of the CODEX_INPUT body `v[a..b]`; `v` holds `reply`'s characters.
fn parse_numbered_answers(v: &Vec<char>, reply: &str, a: usize, b: usize) -> (r: Result<Vec<String>, String>)
    requires
        a <= b <= v@.len(),
        v@ == reply@,
    ensures
        answers_result(r) == numbered_answers(v@.subrange(a as int, b as int)),
{
    let ghost body = v@.subrange(a as int, b as int);
    let lines = line_windows(v, a, b);
    let ghost ls = lines_from(body, 0);
    let mut answers: Vec<String> = Vec::new();
    let mut i: usize = 0;
    while i < lines.len()
        invariant
            i <= lines@.len(),
            answers@.len() <= i,
            v@ == reply@,
            b <= v@.len(),
            ls == windows_view(v@, lines@),
            body == v@.subrange(a as int, b as int),
            ls == lines_from(body, 0),
            forall|j: int| 0 <= j < lines@.len() ==> a <= (#[trigger] lines@[j]).0 <= lines@[j].1 <= b,
            answers_from(ls, 0, 0) == prepend_answers(
                strings_view(answers@),
                answers_from(ls, i as int, answers@.len() as nat),
            ),
        decreases lines@.len() - i,
    {
        let (x, y) = lines[i];
        assert(ls[i as int] == v@.subrange(x as int, y as int));
        let te = trim_end_index(v, x, y);
        let ts = trim_start_index(v, x, te);
        let ghost line = trim(ls[i as int]);
        assert(line == v@.subrange(ts as int, te as int));
        let n = answers.len();
        if ts == te {
            assert(answers_from(ls, i as int, n as nat) == answers_from(ls, i + 1, n as nat));
            i = i + 1;
        } else {
            let mut label = decimal_chars((n + 1) as u64);
            label.push('.');
            proof {
                reveal_strlit(".");
            }
            assert(label@ =~= answer_label((n + 1) as nat));
            let starts = window_starts_with(v, ts, te, &label);
            if !starts {
                assert(answers_from(ls, i as int, n as nat) == Err::<Seq<Seq<char>>, Seq<char>>(
                    answer_label_error((n + 1) as nat),
                ));
                let e = answer_label_error_string((n + 1) as u64);
                assert(answers_from(ls, 0, 0) == Err::<Seq<Seq<char>>, Seq<char>>(e@));
                assert(numbered_answers(body) == Err::<Seq<Seq<char>>, Seq<char>>(e@));
                assert(answers_result(Err(e)) == Err::<Seq<Seq<char>>, Seq<char>>(e@));
                return Err(e);
            }
            let vs_end = trim_end_index(v, ts + label.len(), te);
            let vs_start = trim_start_index(v, ts + label.len(), vs_end);
            assert(line.subrange(label@.len() as int, line.len() as int) =~= v@.subrange(
                ts + label@.len(),
                te as int,
            ));
            assert(trim(line.subrange(label@.len() as int, line.len() as int)) == v@.subrange(
                vs_start as int,
                vs_end as int,
            ));
            if vs_start == vs_end {
                assert(answers_from(ls, i as int, n as nat) == Err::<Seq<Seq<char>>, Seq<char>>(
                    answer_label_error((n + 1) as nat),
                ));
                let e = answer_label_error_string((n + 1) as u64);
                assert(answers_from(ls, 0, 0) == Err::<Seq<Seq<char>>, Seq<char>>(e@));
                assert(numbered_answers(body) == Err::<Seq<Seq<char>>, Seq<char>>(e@));
                assert(answers_result(Err(e)) == Err::<Seq<Seq<char>>, Seq<char>>(e@));
                return Err(e);
            }
            let value = String::from_str(reply.substring_char(vs_start, vs_end));
            let ghost prior = strings_view(answers@);
            answers.push(value);
            assert(strings_view(answers@) =~= prior + seq![v@.subrange(vs_start as int, vs_end as int)]);
            proof {
                let vv = v@.subrange(vs_start as int, vs_end as int);
                assert(answers_from(ls, i as int, n as nat) == match answers_from(
                    ls,
                    i + 1,
                    (n + 1) as nat,
                ) {
                    Ok(rest) => Ok(seq![vv] + rest),
                    Err(e) => Err(e),
                });
                match answers_from(ls, i + 1, (n + 1) as nat) {
                    Ok(rest) => {
                        assert(prior + (seq![vv] + rest) =~= (prior + seq![vv]) + rest);
                    },
                    Err(e) => {},
                }
            }
            i = i + 1;
        }
    }
    assert(answers_from(ls, i as int, answers@.len() as nat) == Ok::<Seq<Seq<char>>, Seq<char>>(
        seq![],
    ));
    assert(strings_view(answers@) + seq![] =~= strings_view(answers@));
    if answers.len() == 0 {
        return Err(String::from_str("CODEX_INPUT 不能为空"));
    }
    Ok(answers)
}

fn answer_count_error_string(expected: usize, actual: usize) -> (e: String)
    ensures
        e@ == answer_count_error(expected as nat, actual as nat),
{
    let e = String::from_str("CODEX_INPUT 需要 ").concat(
        decimal_string(expected as u64).as_str(),
    ).concat(" 项答案，实际为 ").concat(decimal_string(actual as u64).as_str()).concat(" 项");
    assert(e@ =~= answer_count_error(expected as nat, actual as nat));
    e
}

/// The control block that ends `reply`.
///
/// `input_question_count` is the number of questions Codex is waiting on, if
/// any; a CODEX_INPUT block must answer exactly that many.
pub fn parse_terminal_control_block(reply: &str, input_question_count: Option<usize>) -> (res: Result<ControlBlock, String>)
    ensures
        block_result(res) == terminal_control_block(reply@, input_question_count),
{
    let v = chars_of(reply);
    let te = trim_end_index(&v, 0, v.len());
    let ghost text = trim_end(reply@);
    assert(v@.subrange(0, v@.len() as int) =~= v@);
    assert(text == v@.subrange(0, te as int));
    let m = markers();
    let mut found: Vec<ControlBlock> = Vec::new();

    let ps = chars_of("@@@CODEX_PROMPT@@@");
    let pe = chars_of("@@@END_CODEX_PROMPT@@@");
    let prompt = match terminal_wrapped(&v, te, &ps, &pe, &m) {
        Err(e) => {
            return Err(e);
        },
        Ok(w) => w,
    };
    let ghost prompt_view = match prompt {
        Some((a, b)) => Some(v@.subrange(a as int, b as int)),
        None => None::<Seq<char>>,
    };
    if let Some((a, b)) = prompt {
        found.push(ControlBlock::CodexPrompt(String::from_str(reply.substring_char(a, b))));
    }
    assert(found@.map_values(|c: ControlBlock| c@) =~= optional_block(
        prompt_view,
        |p: Seq<char>| ControlBlockView::CodexPrompt(p),
    ));

    let bs = chars_of("@@@BLOCKED@@@");
    let be = chars_of("@@@END_BLOCKED@@@");
    let blocked = match terminal_wrapped(&v, te, &bs, &be, &m) {
        Err(e) => {
            return Err(e);
        },
        Ok(w) => w,
    };
    let ghost blocked_view = match blocked {
        Some((a, b)) => Some(v@.subrange(a as int, b as int)),
        None => None::<Seq<char>>,
    };
    let ghost after_prompt = found@.map_values(|c: ControlBlock| c@);
    if let Some((a, b)) = blocked {
        found.push(ControlBlock::Blocked(String::from_str(reply.substring_char(a, b))));
    }
    assert(found@.map_values(|c: ControlBlock| c@) =~= after_prompt + optional_block(
        blocked_view,
        |b: Seq<char>| ControlBlockView::Blocked(b),
    ));

    let is = chars_of("@@@CODEX_INPUT@@@");
    let ie = chars_of("@@@END_CODEX_INPUT@@@");
    let input = match terminal_wrapped(&v, te, &is, &ie, &m) {
        Err(e) => {
            return Err(e);
        },
        Ok(w) => w,
    };
    let ghost after_blocked = found@.map_values(|c: ControlBlock| c@);
    let ghost mut input_view: Option<Seq<Seq<char>>> = None;
    if let Some((a, b)) = input {
        let answers = match parse_numbered_answers(&v, reply, a, b) {
            Err(e) => {
                return Err(e);
            },
            Ok(answers) => answers,
        };
        match input_question_count {
            Some(expected) => {
                if answers.len() != expected {
                    return Err(answer_count_error_string(expected, answers.len()));
                }
            },
            None => {
                return Err(String::from_str("当前没有待回答的 Codex 输入请求"));
            },
        }
        proof {
            input_view = Some(strings_view(answers@));
        }
        found.push(ControlBlock::CodexInput(answers));
    }
    assert(input_answers(text, input_question_count) == Ok::<
        Option<Seq<Seq<char>>>,
        Seq<char>,
    >(input_view));
    assert(found@.map_values(|c: ControlBlock| c@) =~= after_blocked + optional_block(
        input_view,
        |a: Seq<Seq<char>>| ControlBlockView::CodexInput(a),
    ));

    let md = chars_of("@@@MODULE_DONE@@@");
    let ghost after_input = found@.map_values(|c: ControlBlock| c@);
    let mut done = false;
    if window_ends_with(&v, 0, te, &md) {
        let p = te - md.len();
        assert(v@.subrange(0, te as int).subrange(0, p as int) =~= v@.subrange(0, p as int));
        if !window_contains(&v, 0, p, &m.mark) {
            found.push(ControlBlock::ModuleDone);
            done = true;
        }
    }
    assert(done == ends_with_module_done(text));
    assert(found@.map_values(|c: ControlBlock| c@) =~= after_input + (if done {
        seq![ControlBlockView::ModuleDone]
    } else {
        seq![]
    }));
    assert(found@.map_values(|c: ControlBlock| c@) =~= found_blocks(
        prompt_view,
        blocked_view,
        input_view,
        done,
    ));

    if found.len() != 1 {
        return Err(String::from_str("自动化回复末尾必须且只能包含一个有效控制块"));
    }
    let ghost only = found@[0];
    let block = found.pop();
    match block {
        Some(b) => {
            assert(b == only);
            Ok(b)
        },
        None => Err(String::from_str("自动化回复末尾必须且只能包含一个有效控制块")),
    }
}

/// A reply is accepted as CODEX_INPUT only when Codex is waiting on questions,
/// and then only with exactly one answer per question.
pub proof fn lemma_input_answers_every_pending_question(reply: Seq<char>, question_count: Option<usize>)
    ensures
        terminal_control_block(reply, question_count) matches Ok(ControlBlockView::CodexInput(a))
            ==> question_count == Some(a.len() as usize) && a.len() > 0,
{
    let text = trim_end(reply);
    if let Ok(ControlBlockView::CodexInput(a)) = terminal_control_block(reply, question_count) {
        let prompt = wrapped_body(text, prompt_start(), prompt_end())->Ok_0;
        let blocked = wrapped_body(text, blocked_start(), blocked_end())->Ok_0;
        let input = input_answers(text, question_count)->Ok_0;
        let found = found_blocks(prompt, blocked, input, ends_with_module_done(text));
        assert(found[0] == ControlBlockView::CodexInput(a));
        assert(prompt is None);
        assert(blocked is None);
        assert(input == Some(a));
    }
}

/// Trailing whitespace after a text that ends in a visible character is ignored.
pub proof fn lemma_trim_end_blank_suffix(x: Seq<char>, ws: Seq<char>)
    requires
        x.len() > 0,
        !crate::text::is_space(x.last()),
        crate::text::is_blank(ws),
    ensures
        trim_end(x + ws) == x,
    decreases ws.len(),
{
    if ws.len() == 0 {
        assert(x + ws =~= x);
    } else {
        assert((x + ws).drop_last() =~= x + ws.drop_last());
        assert((x + ws).last() == ws[ws.len() - 1]);
        lemma_trim_end_blank_suffix(x, ws.drop_last());
    }
}

/// The body of the block `start \n p \n end` that closes `e + start + \n + p + \n + end`
/// is `p`, verbatim, when nothing before `start` is a marker, `p` cannot be read as
/// another `start`, and `p` is not blank.
#[verifier::spinoff_prover]
#[verifier::rlimit(60)]
pub proof fn lemma_wrapped_block_body(e: Seq<char>, start: Seq<char>, end: Seq<char>, p: Seq<char>)
    requires
        !contains(e, block_mark()),
        !contains(lf() + p, start),
        start.len() > 0,
        forall|i: int| 0 <= i < start.len() ==> start[i] != '\n',
        trim(p).len() > 0,
        !(p.len() > 0 && p.last() == '\r'),
    ensures
        wrapped_body(e + start + lf() + p + lf() + end, start, end) == Ok::<
            Option<Seq<char>>,
            Seq<char>,
        >(Some(p)),
{
    let text = e + start + lf() + p + lf() + end;
    let prefix = e + start + lf() + p + lf();
    assert(text.subrange(text.len() - end.len(), text.len() as int) =~= end);
    assert(text.subrange(0, text.len() - end.len()) =~= prefix);
    let at = e.len() as int;
    let nl = at + start.len();
    assert(prefix[nl] == '\n');
    assert(prefix.subrange(at, at + start.len()) =~= start);
    assert(matches_at(prefix, start, at));
    lemma_rfind(prefix, start);
    let j = rfind(prefix, start)->0;
    assert(j >= at);
    if j > at {
        if j <= nl {
            assert(prefix.subrange(j, j + start.len())[nl - j] == prefix[nl]);
        } else {
            let tail = lf() + p + lf();
            assert(prefix.subrange(nl, prefix.len() as int) =~= tail);
            let lp = lf() + p;
            assert(matches_at(lp, start, j - nl)) by {
                if j + start.len() > nl + lp.len() {
                    assert(prefix[prefix.len() - 1] == '\n');
                    let idx = prefix.len() - 1 - j;
                    assert(0 <= idx < start.len());
                    assert(prefix.subrange(j, j + start.len())[idx] == prefix[prefix.len() - 1]);
                }
                assert(lp.subrange(j - nl, j - nl + start.len()) =~= prefix.subrange(
                    j,
                    j + start.len(),
                ));
            }
        }
    }
    assert(j == at);
    assert(prefix.subrange(0, at) =~= e);
    let raw = prefix.subrange(at + start.len(), prefix.len() as int);
    assert(raw =~= lf() + p + lf());
    assert(!starts_with(raw, crlf())) by {
        if starts_with(raw, crlf()) {
            assert(raw.subrange(0, 2)[0] == crlf()[0]);
        }
    }
    assert(raw.subrange(0, 1) =~= lf());
    let leading = raw.subrange(1, raw.len() as int);
    assert(leading =~= p + lf());
    assert(!ends_with(leading, crlf())) by {
        if ends_with(leading, crlf()) {
            let s2 = leading.subrange(leading.len() - 2, leading.len() as int);
            assert(s2[0] == crlf()[0]);
            if p.len() > 0 {
                assert(s2[0] == p.last());
            } else {
                assert(leading.len() == 1);
            }
        }
    }
    assert(leading.subrange(leading.len() - 1, leading.len() as int) =~= lf());
    assert(leading.subrange(0, leading.len() - 1) =~= p);
}

/// A text that ends with `a` does not end with a `b` that differs from `a`'s
/// tail at index `i`.
proof fn lemma_not_ends_with(text: Seq<char>, a: Seq<char>, b: Seq<char>, i: int)
    requires
        ends_with(text, a),
        b.len() <= a.len(),
        0 <= i < b.len(),
        a[a.len() - b.len() + i] != b[i],
    ensures
        !ends_with(text, b),
{
    let ta = text.subrange(text.len() - a.len(), text.len() as int);
    assert(ta[a.len() - b.len() + i] == a[a.len() - b.len() + i]);
    if ends_with(text, b) {
        let tb = text.subrange(text.len() - b.len(), text.len() as int);
        assert(tb[i] == b[i]);
        assert(tb[i] == ta[a.len() - b.len() + i]);
    }
}

/// `x` followed by a block marker `end` ends with `end`.
proof fn lemma_ends_with_suffix(x: Seq<char>, end: Seq<char>)
    ensures
        ends_with(x + end, end),
{
    assert((x + end).subrange(x.len() as int, (x + end).len() as int) =~= end);
}

/// Bridge hands a CODEX_PROMPT body to Codex unchanged: any explanation without
/// markers, then the block with the body on its own lines, then trailing
/// whitespace, yields exactly that body.
pub proof fn lemma_prompt_body_is_verbatim(e: Seq<char>, p: Seq<char>, ws: Seq<char>, question_count: Option<usize>)
    requires
        !contains(e, block_mark()),
        !contains(lf() + p, prompt_start()),
        trim(p).len() > 0,
        !(p.len() > 0 && p.last() == '\r'),
        crate::text::is_blank(ws),
    ensures
        terminal_control_block(
            e + prompt_start() + lf() + p + lf() + prompt_end() + ws,
            question_count,
        ) == Ok::<ControlBlockView, Seq<char>>(ControlBlockView::CodexPrompt(p)),
{
    reveal_strlit("@@@CODEX_PROMPT@@@");
    reveal_strlit("@@@END_CODEX_PROMPT@@@");
    reveal_strlit("@@@END_BLOCKED@@@");
    reveal_strlit("@@@END_CODEX_INPUT@@@");
    reveal_strlit("@@@MODULE_DONE@@@");
    let text = e + prompt_start() + lf() + p + lf() + prompt_end();
    lemma_trim_end_blank_suffix(text, ws);
    lemma_wrapped_block_body(e, prompt_start(), prompt_end(), p);
    lemma_ends_with_suffix(e + prompt_start() + lf() + p + lf(), prompt_end());
    lemma_not_ends_with(text, prompt_end(), blocked_end(), 0);
    lemma_not_ends_with(text, prompt_end(), input_end(), 2);
    lemma_not_ends_with(text, prompt_end(), module_done_marker(), 0);
    assert(found_blocks(Some(p), None, None, false) =~= seq![ControlBlockView::CodexPrompt(p)]);
}

/// A BLOCKED reason is reported verbatim under the same conditions.
pub proof fn lemma_blocked_reason_is_verbatim(e: Seq<char>, p: Seq<char>, ws: Seq<char>, question_count: Option<usize>)
    requires
        !contains(e, block_mark()),
        !contains(lf() + p, blocked_start()),
        trim(p).len() > 0,
        !(p.len() > 0 && p.last() == '\r'),
        crate::text::is_blank(ws),
    ensures
        terminal_control_block(
            e + blocked_start() + lf() + p + lf() + blocked_end() + ws,
            question_count,
        ) == Ok::<ControlBlockView, Seq<char>>(ControlBlockView::Blocked(p)),
{
    reveal_strlit("@@@BLOCKED@@@");
    reveal_strlit("@@@END_CODEX_PROMPT@@@");
    reveal_strlit("@@@END_BLOCKED@@@");
    reveal_strlit("@@@END_CODEX_INPUT@@@");
    reveal_strlit("@@@MODULE_DONE@@@");
    let text = e + blocked_start() + lf() + p + lf() + blocked_end();
    lemma_trim_end_blank_suffix(text, ws);
    lemma_wrapped_block_body(e, blocked_start(), blocked_end(), p);
    lemma_ends_with_suffix(e + blocked_start() + lf() + p + lf(), blocked_end());
    if ends_with(text, prompt_end()) {
        lemma_not_ends_with(text, prompt_end(), blocked_end(), 0);
    }
    if ends_with(text, input_end()) {
        lemma_not_ends_with(text, input_end(), blocked_end(), 0);
    }
    lemma_not_ends_with(text, blocked_end(), module_done_marker(), 3);
    assert(found_blocks(None, Some(p), None, false) =~= seq![ControlBlockView::Blocked(p)]);
}

/// MODULE_DONE may follow any explanation that holds no marker itself.
pub proof fn lemma_module_done_after_explanation(e: Seq<char>, ws: Seq<char>, question_count: Option<usize>)
    requires
        !contains(e, block_mark()),
        crate::text::is_blank(ws),
    ensures
        terminal_control_block(e + module_done_marker() + ws, question_count) == Ok::<
            ControlBlockView,
            Seq<char>,
        >(ControlBlockView::ModuleDone),
{
    reveal_strlit("@@@END_CODEX_PROMPT@@@");
    reveal_strlit("@@@END_BLOCKED@@@");
    reveal_strlit("@@@END_CODEX_INPUT@@@");
    reveal_strlit("@@@MODULE_DONE@@@");
    reveal_strlit("@@@");
    let text = e + module_done_marker();
    lemma_trim_end_blank_suffix(text, ws);
    lemma_ends_with_suffix(e, module_done_marker());
    if ends_with(text, prompt_end()) {
        lemma_not_ends_with(text, prompt_end(), module_done_marker(), 0);
    }
    if ends_with(text, input_end()) {
        lemma_not_ends_with(text, input_end(), module_done_marker(), 0);
    }
    lemma_not_ends_with(text, module_done_marker(), blocked_end(), 3);
    assert(text.subrange(0, text.len() - module_done_marker().len()) =~= e);
    assert(found_blocks(None, None, None, true) =~= seq![ControlBlockView::ModuleDone]);
}

/// A reply may hold only one control block: two MODULE_DONE markers in a row,
/// after any explanation, are refused.
pub proof fn lemma_double_module_done_is_refused(e: Seq<char>, ws: Seq<char>, question_count: Option<usize>)
    requires
        crate::text::is_blank(ws),
    ensures
        terminal_control_block(e + module_done_marker() + module_done_marker() + ws, question_count) is Err,
{
    reveal_strlit("@@@END_CODEX_PROMPT@@@");
    reveal_strlit("@@@END_BLOCKED@@@");
    reveal_strlit("@@@END_CODEX_INPUT@@@");
    reveal_strlit("@@@MODULE_DONE@@@");
    reveal_strlit("@@@");
    let first = e + module_done_marker();
    let text = first + module_done_marker();
    lemma_trim_end_blank_suffix(text, ws);
    lemma_ends_with_suffix(first, module_done_marker());
    if ends_with(text, prompt_end()) {
        lemma_not_ends_with(text, prompt_end(), module_done_marker(), 0);
    }
    if ends_with(text, input_end()) {
        lemma_not_ends_with(text, input_end(), module_done_marker(), 0);
    }
    lemma_not_ends_with(text, module_done_marker(), blocked_end(), 3);
    assert(text.subrange(0, text.len() - module_done_marker().len()) =~= first);
    assert(first.subrange(e.len() as int, e.len() + 3int) =~= block_mark());
    assert(matches_at(first, block_mark(), e.len() as int));
    assert(contains(first, block_mark()));
    assert(!ends_with_module_done(text));
    assert(found_blocks(None, None, None, false) =~= seq![]);
}

/// A text ending with a marker `a` also ends with `a`'s last three characters.
proof fn lemma_ends_with_mark(text: Seq<char>, a: Seq<char>)
    requires
        ends_with(text, a),
        a.len() >= 3,
        a.subrange(a.len() - 3, a.len() as int) == block_mark(),
    ensures
        ends_with(text, block_mark()),
{
    let ta = text.subrange(text.len() - a.len(), text.len() as int);
    assert(text.subrange(text.len() - 3, text.len() as int) =~= ta.subrange(
        a.len() - 3,
        a.len() as int,
    ));
}

/// A reply that, trailing whitespace aside, does not end with `@@@` holds no
/// control block; quoting a marker inside ordinary text never triggers automation.
pub proof fn lemma_reply_must_end_with_marker(reply: Seq<char>, question_count: Option<usize>)
    requires
        !ends_with(trim_end(reply), block_mark()),
    ensures
        terminal_control_block(reply, question_count) == Err::<ControlBlockView, Seq<char>>(
            one_block_error(),
        ),
{
    reveal_strlit("@@@END_CODEX_PROMPT@@@");
    reveal_strlit("@@@END_BLOCKED@@@");
    reveal_strlit("@@@END_CODEX_INPUT@@@");
    reveal_strlit("@@@MODULE_DONE@@@");
    reveal_strlit("@@@");
    let text = trim_end(reply);
    if ends_with(text, prompt_end()) {
        assert(prompt_end().subrange(19, 22) =~= block_mark());
        lemma_ends_with_mark(text, prompt_end());
    }
    if ends_with(text, blocked_end()) {
        assert(blocked_end().subrange(14, 17) =~= block_mark());
        lemma_ends_with_mark(text, blocked_end());
    }
    if ends_with(text, input_end()) {
        assert(input_end().subrange(18, 21) =~= block_mark());
        lemma_ends_with_mark(text, input_end());
    }
    if ends_with(text, module_done_marker()) {
        assert(module_done_marker().subrange(14, 17) =~= block_mark());
        lemma_ends_with_mark(text, module_done_marker());
    }
    assert(found_blocks(None, None, None, false).len() == 0);
}

} // verus!
