//! Task block extraction and order-preserving reinjection.
//!
//! A `Content` body, once lexed, is an ordered sequence of tokens. A task
//! block is a fenced code block start carrying the reserved label, followed
//! by exactly one text token (the raw payload) and one end token; any other
//! pattern around a labelled start is a scan error naming what was expected
//! and what was found. Extraction splits the token sequence into an ordered
//! run of segments — contiguous literal runs and single task payloads —
//! and reassembly replaces each task segment with its rendered markup while
//! emitting literal runs verbatim, in exactly the original order.

use vstd::prelude::*;

verus! {

/// One token of a lexed `Content` body. Tokens that the scanner does not
/// read are carried as `Other`; the embedding keeps the lexer's own event
/// for each position and reinjects it verbatim for literal runs.
#[derive(Debug, PartialEq, Eq)]
pub enum Token {
    /// Start of a fenced code block, with the fence's label.
    CodeStart { label: String },
    /// A text node; inside a recognized block this is the task payload.
    Text { text: String },
    /// End of a tagged element.
    End,
    /// Any other token, untouched by the scanner.
    Other,
}

/// The kind of a token, used to report what a failed scan found.
#[derive(Debug, Clone, Copy, PartialEq, Eq, Structural)]
pub enum TokenKind {
    /// A fenced code block start.
    Start,
    /// A text node.
    Text,
    /// An end token.
    End,
    /// Anything else.
    Other,
}

/// A malformed task block: the reserved label opened a block that is not
/// shaped start / payload / end. `at` is the index of the offending start
/// token; `found` is the kind of token met where another was expected,
/// or `None` when the body ended instead.
#[derive(Debug, Clone, Copy, PartialEq, Eq)]
pub enum ScanError {
    /// The start token is not immediately followed by a payload text token.
    MissingPayload { at: usize, found: Option<TokenKind> },
    /// The payload is not immediately followed by an end token.
    MissingEnd { at: usize, found: Option<TokenKind> },
}

/// One segment of an extracted body: either a run of untouched tokens or
/// one recognized task block's raw payload. `lo..hi` are the indices the
/// segment spans in the source token sequence.
#[derive(Debug, PartialEq, Eq)]
pub enum Segment {
    /// A contiguous run of tokens copied verbatim.
    Literal { lo: usize, hi: usize },
    /// One task block: its payload and the three indices it spanned.
    Task { payload: String, lo: usize, hi: usize },
}

/// One piece of a reassembled body: tokens copied from the source, or the
/// rendered markup that replaces one task block.
#[derive(Debug, PartialEq, Eq)]
pub enum Piece {
    /// Source tokens `lo..hi`, emitted verbatim.
    Copy { lo: usize, hi: usize },
    /// Rendered markup standing in place of one task block.
    Rendered { html: String },
}

/// Whether a token starts a task block: a fenced code block start whose
/// label is the reserved one.
pub open spec fn is_task_start(t: Token, label: Seq<char>) -> bool {
    match t {
        Token::CodeStart { label: l } => l@ == label,
        _ => false,
    }
}

/// Whether a token is a text node.
pub open spec fn is_text(t: Token) -> bool {
    t is Text
}

/// Whether a token is an end token.
pub open spec fn is_end(t: Token) -> bool {
    t is End
}

/// The kind of a token.
pub open spec fn kind_of(t: Token) -> TokenKind {
    match t {
        Token::CodeStart { .. } => TokenKind::Start,
        Token::Text { .. } => TokenKind::Text,
        Token::End => TokenKind::End,
        Token::Other => TokenKind::Other,
    }
}

/// The task block starting at `i` is well shaped: a payload text token and
/// an end token follow it inside the sequence.
pub open spec fn start_ok(toks: Seq<Token>, i: int) -> bool {
    &&& i + 2 < toks.len()
    &&& is_text(toks[i + 1])
    &&& is_end(toks[i + 2])
}

/// Every task block in the sequence is well shaped.
pub open spec fn blocks_ok(toks: Seq<Token>, label: Seq<char>) -> bool {
    forall|i: int|
        0 <= i < toks.len() && #[trigger] is_task_start(toks[i], label) ==> start_ok(toks, i)
}

/// The lower source index of a segment.
pub open spec fn seg_lo(s: Segment) -> int {
    match s {
        Segment::Literal { lo, .. } => lo as int,
        Segment::Task { lo, .. } => lo as int,
    }
}

/// The upper source index of a segment.
pub open spec fn seg_hi(s: Segment) -> int {
    match s {
        Segment::Literal { hi, .. } => hi as int,
        Segment::Task { hi, .. } => hi as int,
    }
}

/// A segment faithfully describes the tokens it spans: a literal run is
/// nonempty and free of task starts; a task segment spans exactly a well
/// shaped block and carries its payload.
pub open spec fn seg_ok(toks: Seq<Token>, label: Seq<char>, s: Segment) -> bool {
    match s {
        Segment::Literal { lo, hi } => {
            &&& lo < hi <= toks.len()
            &&& forall|j: int| lo <= j < hi ==> !is_task_start(#[trigger] toks[j], label)
        },
        Segment::Task { payload, lo, hi } => {
            &&& hi == lo + 3
            &&& hi <= toks.len()
            &&& is_task_start(toks[lo as int], label)
            &&& toks[lo + 1] matches Token::Text { text } && text@ == payload@
            &&& is_end(toks[lo + 2])
        },
    }
}

/// The segments tile the source indices `0..upto` exactly, in order and
/// without gaps or overlaps.
pub open spec fn covers_prefix(segs: Seq<Segment>, upto: int) -> bool {
    &&& if segs.len() == 0 {
        upto == 0
    } else {
        seg_lo(segs[0]) == 0 && seg_hi(segs[segs.len() - 1]) == upto
    }
    &&& forall|k: int| 0 <= k < segs.len() - 1 ==> seg_hi(#[trigger] segs[k]) == seg_lo(segs[k + 1])
}

/// A correct extraction: every segment faithful to the tokens it spans,
/// and the segments together tiling the whole sequence in source order.
pub open spec fn segments_ok(toks: Seq<Token>, label: Seq<char>, segs: Seq<Segment>) -> bool {
    &&& forall|k: int| 0 <= k < segs.len() ==> seg_ok(toks, label, #[trigger] segs[k])
    &&& covers_prefix(segs, toks.len() as int)
}

/// How many of the first `k` segments are task segments; equally, the
/// position a task segment at index `k` takes among the resolved outputs.
pub open spec fn tasks_before(segs: Seq<Segment>, k: int) -> nat
    decreases k,
{
    if k <= 0 {
        0
    } else {
        tasks_before(segs, k - 1) + if segs[k - 1] is Task {
            1nat
        } else {
            0nat
        }
    }
}

/// Whether a token starts a task block with the given label.
pub fn is_start_token(t: &Token, label: &String) -> (r: bool)
    ensures
        r == is_task_start(*t, label@),
{
    match t {
        Token::CodeStart { label: l } => *l == *label,
        _ => false,
    }
}

/// The kind of a token.
pub fn token_kind(t: &Token) -> (k: TokenKind)
    ensures
        k == kind_of(*t),
{
    match t {
        Token::CodeStart { .. } => TokenKind::Start,
        Token::Text { .. } => TokenKind::Text,
        Token::End => TokenKind::End,
        Token::Other => TokenKind::Other,
    }
}

/// Split a body's token sequence into an ordered run of literal segments
/// and task segments. Succeeds exactly when every occurrence of the
/// reserved label opens a well shaped block; the error names the offending
/// start and what was found in place of the expected token.
pub fn extract_segments(toks: &Vec<Token>, label: &String) -> (r: Result<
    Vec<Segment>,
    ScanError,
>)
    ensures
        r is Ok <==> blocks_ok(toks@, label@),
        r matches Ok(segs) ==> segments_ok(toks@, label@, segs@),
        r matches Err(e) ==> match e {
            ScanError::MissingPayload { at, found } => {
                &&& at < toks@.len()
                &&& is_task_start(toks@[at as int], label@)
                &&& at + 1 == toks@.len() ==> found is None
                &&& at + 1 < toks@.len() ==> found == Some(kind_of(toks@[at + 1])) && !is_text(
                    toks@[at + 1],
                )
            },
            ScanError::MissingEnd { at, found } => {
                &&& at + 1 < toks@.len()
                &&& is_task_start(toks@[at as int], label@)
                &&& is_text(toks@[at + 1])
                &&& at + 2 == toks@.len() ==> found is None
                &&& at + 2 < toks@.len() ==> found == Some(kind_of(toks@[at + 2])) && !is_end(
                    toks@[at + 2],
                )
            },
        },
{
    let n = toks.len();
    let mut segs: Vec<Segment> = Vec::new();
    let mut i: usize = 0;
    let mut lit_lo: usize = 0;
    while i < n
        invariant
            n == toks@.len(),
            lit_lo <= i <= n,
            covers_prefix(segs@, lit_lo as int),
            forall|k: int| 0 <= k < segs@.len() ==> seg_ok(toks@, label@, #[trigger] segs@[k]),
            forall|j: int| lit_lo <= j < i ==> !is_task_start(#[trigger] toks@[j], label@),
            forall|j: int|
                0 <= j < i && #[trigger] is_task_start(toks@[j], label@) ==> start_ok(toks@, j),
        decreases n - i,
    {
        if is_start_token(&toks[i], label) {
            if lit_lo < i {
                let seg = Segment::Literal { lo: lit_lo, hi: i };
                segs.push(seg);
            }
            if i + 1 >= n {
                return Err(ScanError::MissingPayload { at: i, found: None });
            }
            let payload: String = match &toks[i + 1] {
                Token::Text { text } => text.clone(),
                _ => {
                    return Err(
                        ScanError::MissingPayload { at: i, found: Some(token_kind(&toks[i + 1])) },
                    );
                },
            };
            if i + 2 >= n {
                return Err(ScanError::MissingEnd { at: i, found: None });
            }
            match &toks[i + 2] {
                Token::End => {},
                _ => {
                    return Err(
                        ScanError::MissingEnd { at: i, found: Some(token_kind(&toks[i + 2])) },
                    );
                },
            }
            let seg = Segment::Task { payload, lo: i, hi: i + 3 };
            segs.push(seg);
            i = i + 3;
            lit_lo = i;
        } else {
            i = i + 1;
        }
    }
    if lit_lo < n {
        let seg = Segment::Literal { lo: lit_lo, hi: n };
        segs.push(seg);
    }
    Ok(segs)
}

/// A reassembled piece matches its segment: a literal run is copied with
/// its exact source range, and the `t`-th task segment in source order is
/// replaced by the `t`-th resolved output.
pub open spec fn piece_matches(s: Segment, p: Piece, outs: Seq<Seq<char>>, t: nat) -> bool {
    match s {
        Segment::Literal { lo, hi } => p == (Piece::Copy { lo, hi }),
        Segment::Task { .. } => {
            &&& t < outs.len()
            &&& p matches Piece::Rendered { html } && html@ == outs[t as int]
        },
    }
}

/// Replace each task segment with its resolved rendered markup, emitting
/// literal segments verbatim, all in the segments' original order. The
/// `k`-th task segment in source order receives `outputs[k]`, whatever
/// order the outputs were computed in.
pub fn reassemble(segs: &Vec<Segment>, outputs: &Vec<String>) -> (r: Vec<Piece>)
    requires
        outputs@.len() == tasks_before(segs@, segs@.len() as int),
    ensures
        r@.len() == segs@.len(),
        forall|k: int|
            0 <= k < segs@.len() ==> piece_matches(
                segs@[k],
                #[trigger] r@[k],
                outputs@.map_values(|s: String| s@),
                tasks_before(segs@, k),
            ),
{
    let ghost outs: Seq<Seq<char>> = outputs@.map_values(|s: String| s@);
    let n = segs.len();
    let mut pieces: Vec<Piece> = Vec::new();
    let mut t: usize = 0;
    let mut k: usize = 0;
    proof {
        lemma_tasks_before_bound(segs@, segs@.len() as int);
    }
    while k < n
        invariant
            n == segs@.len(),
            outs == outputs@.map_values(|s: String| s@),
            outputs@.len() == tasks_before(segs@, n as int),
            pieces@.len() == k <= n,
            t == tasks_before(segs@, k as int),
            t <= k,
            forall|j: int|
                0 <= j < k ==> piece_matches(
                    segs@[j],
                    #[trigger] pieces@[j],
                    outs,
                    tasks_before(segs@, j),
                ),
        decreases n - k,
    {
        match &segs[k] {
            Segment::Literal { lo, hi } => {
                let piece = Piece::Copy { lo: *lo, hi: *hi };
                pieces.push(piece);
            },
            Segment::Task { .. } => {
                proof {
                    lemma_tasks_before_mono(segs@, k + 1, n as int);
                    assert(tasks_before(segs@, k + 1) == tasks_before(segs@, k as int) + 1);
                    assert(t < outputs@.len());
                }
                let html = outputs[t].clone();
                let piece = Piece::Rendered { html };
                pieces.push(piece);
                t = t + 1;
            },
        }
        k = k + 1;
    }
    pieces
}

/// The count of task segments among the first `k` never exceeds `k` and
/// grows monotonically with `k`.
pub proof fn lemma_tasks_before_mono(segs: Seq<Segment>, a: int, b: int)
    requires
        0 <= a <= b,
    ensures
        tasks_before(segs, a) <= tasks_before(segs, b),
    decreases b - a,
{
    if a < b {
        lemma_tasks_before_mono(segs, a, b - 1);
    }
}

/// At most `k` of the first `k` segments are tasks.
pub proof fn lemma_tasks_before_bound(segs: Seq<Segment>, k: int)
    ensures
        tasks_before(segs, k) <= if k <= 0 {
            0
        } else {
            k
        },
    decreases k,
{
    if k > 0 {
        lemma_tasks_before_bound(segs, k - 1);
    }
}

/// Order preservation: tasks earlier in the source take strictly earlier
/// outputs, so resolved fragments land in exactly their original relative
/// positions however execution interleaves.
pub proof fn lemma_tasks_order(segs: Seq<Segment>, i: int, j: int)
    requires
        0 <= i < j <= segs.len(),
        segs[i] is Task,
    ensures
        tasks_before(segs, i) < tasks_before(segs, j),
    decreases j - i,
{
    if j == i + 1 {
    } else {
        lemma_tasks_order(segs, i, j - 1);
        lemma_tasks_before_mono(segs, j - 1, j);
    }
}

} // verus!
