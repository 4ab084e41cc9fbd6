//! Lexing a body to its event stream and serializing it back.
//!
//! Markdown lexing and serialization are primitives taken from the lexer
//! crates; this module holds the trusted boundary around them and the
//! verified pipeline over it. The lexer's classified token sequence, the
//! events standing for one rendered fragment, and the serializer's
//! acceptance and output are all named pure functions of their inputs, so
//! the pipeline's contracts are exact: scanning succeeds exactly when the
//! body's task blocks are well shaped, and rebuilding serializes exactly
//! the spliced stream — source events verbatim for literal runs, rendered
//! markup in place of each task block, in source order.

use vstd::prelude::*;

use crate::extract::ScanError;
use crate::extract::Segment;
use crate::extract::Token;
use crate::extract::Piece;
use crate::extract::blocks_ok;
use crate::extract::extract_segments;
use crate::extract::is_end;
use crate::extract::is_task_start;
use crate::extract::is_text;
use crate::extract::kind_of;
use crate::extract::piece_matches;
use crate::extract::reassemble;
use crate::extract::seg_lo;
use crate::extract::seg_hi;
use crate::extract::segments_ok;
use crate::extract::tasks_before;
use crate::extract::lemma_tasks_before_mono;
use crate::render::RenderError;
use crate::walker::views;
use pulldown_cmark::CodeBlockKind;
use pulldown_cmark::Event;
use pulldown_cmark::Parser;
use pulldown_cmark::Tag;

verus! {

/// pulldown_cmark's lexer event, carried opaquely between the lexer call,
/// the classifier, and the serializer.
#[verifier::external_type_specification]
#[verifier::external_body]
pub struct ExEvent<'a>(pulldown_cmark::Event<'a>);

/// pulldown_cmark_to_cmark's serialization error.
#[verifier::external_type_specification]
#[verifier::external_body]
pub struct ExCmarkError(pulldown_cmark_to_cmark::Error);

/// The classified token of each lexer event of this body text, in order:
/// the lexer and the classification are both fixed, so the sequence is a
/// pure function of the text alone.
pub uninterp spec fn tokens_of(text: Seq<char>) -> Seq<Token>;

/// The events standing for one rendered markup fragment: a pure function
/// of the markup alone.
pub uninterp spec fn html_events_of(html: Seq<char>) -> Seq<pulldown_cmark::Event<'static>>;

/// Whether the serializer accepts this event stream: a pure function of
/// the events alone.
pub uninterp spec fn serialize_ok(events: Seq<pulldown_cmark::Event<'static>>) -> bool;

/// The markdown text the serializer produces for a stream it accepts: a
/// pure function of the events alone.
pub uninterp spec fn serialized_of(events: Seq<pulldown_cmark::Event<'static>>) -> Seq<char>;

/// Relies on pulldown_cmark::Parser::new_ext with every extension enabled,
/// as the host document tool lexes bodies (Event::into_static only unties
/// the events from the borrowed text), and on the event variants: each
/// event is told apart into the scanner's token, one arm per kind, moving
/// the fence label or the text content out.
#[verifier::external_body]
fn parse_tokens(text: &str) -> (r: (Vec<pulldown_cmark::Event<'static>>, Vec<Token>))
    ensures
        r.1@ == tokens_of(text@),
        r.0@.len() == r.1@.len(),
{
    let events: Vec<Event<'static>> =
        Parser::new_ext(text, pulldown_cmark::Options::all()).map(Event::into_static).collect();
    let tokens = events.iter().map(|e| match e {
        Event::Start(Tag::CodeBlock(CodeBlockKind::Fenced(l))) => Token::CodeStart { label: l.to_string() },
        Event::Text(t) => Token::Text { text: t.to_string() },
        Event::End(_) => Token::End,
        _ => Token::Other,
    }).collect();
    (events, tokens)
}

/// Relies on pulldown_cmark::Event's constructors: rendered markup becomes
/// one balanced paragraph holding a single opaque HTML node, always the
/// same events for the same markup.
#[verifier::external_body]
fn html_events(html: String) -> (r: Vec<pulldown_cmark::Event<'static>>)
    ensures
        r@ == html_events_of(html@),
{
    let mut out: Vec<Event<'static>> = Vec::new();
    out.push(Event::Start(Tag::Paragraph));
    out.push(Event::InlineHtml(html.into()));
    out.push(Event::End(pulldown_cmark::TagEnd::Paragraph));
    out
}

/// Relies on pulldown_cmark::Event's derived Clone: an indistinguishable
/// copy of the event.
#[verifier::external_body]
fn clone_event(e: &pulldown_cmark::Event<'static>) -> (r: pulldown_cmark::Event<'static>)
    ensures
        r == *e,
{
    e.clone()
}

/// Relies on pulldown_cmark_to_cmark::cmark: serializes an event stream
/// back to markdown text, under the same options the lexer used;
/// acceptance and output are deterministic in the events.
#[verifier::external_body]
fn serialize_events(events: &Vec<pulldown_cmark::Event<'static>>) -> (r: Result<
    String,
    pulldown_cmark_to_cmark::Error,
>)
    ensures
        r is Ok <==> serialize_ok(events@),
        r matches Ok(t) ==> t@ == serialized_of(events@),
{
    let mut buf = String::new();
    pulldown_cmark_to_cmark::cmark(events.iter(), &mut buf, pulldown_cmark::Options::all()).map(
        |_| buf,
    )
}

/// Lex one body and split it into literal runs and task blocks. The scan
/// succeeds exactly when every task block among the body's classified
/// tokens is well shaped; on success the events, their tokens (one per
/// event, in order), and a faithful, order-exact tiling of the token
/// sequence come back together, and on failure the error names the
/// offending block and what stood where the expected token was not.
pub fn scan_body(text: &str, label: &String) -> (r: Result<
    (Vec<pulldown_cmark::Event<'static>>, Vec<Token>, Vec<Segment>),
    ScanError,
>)
    ensures
        r is Ok <==> blocks_ok(tokens_of(text@), label@),
        r matches Ok(scan) ==> {
            &&& scan.1@ == tokens_of(text@)
            &&& scan.0@.len() == scan.1@.len()
            &&& segments_ok(scan.1@, label@, scan.2@)
        },
        r matches Err(e) ==> match e {
            ScanError::MissingPayload { at, found } => {
                let toks = tokens_of(text@);
                &&& at < toks.len()
                &&& is_task_start(toks[at as int], label@)
                &&& at + 1 == toks.len() ==> found is None
                &&& at + 1 < toks.len() ==> found == Some(kind_of(toks[at + 1])) && !is_text(
                    toks[at + 1],
                )
            },
            ScanError::MissingEnd { at, found } => {
                let toks = tokens_of(text@);
                &&& at + 1 < toks.len()
                &&& is_task_start(toks[at as int], label@)
                &&& is_text(toks[at + 1])
                &&& at + 2 == toks.len() ==> found is None
                &&& at + 2 < toks.len() ==> found == Some(kind_of(toks[at + 2])) && !is_end(
                    toks[at + 2],
                )
            },
        },
{
    let (events, tokens) = parse_tokens(text);
    match extract_segments(&tokens, label) {
        Ok(segments) => Ok((events, tokens, segments)),
        Err(e) => Err(e),
    }
}

/// The reassembled event stream, from segment `k` on, with `t` outputs
/// already consumed: literal runs are the source events verbatim, and each
/// task segment becomes the events of its rendered markup.
pub open spec fn spliced_from(
    events: Seq<pulldown_cmark::Event<'static>>,
    segs: Seq<Segment>,
    outs: Seq<Seq<char>>,
    k: int,
    t: int,
) -> Seq<pulldown_cmark::Event<'static>>
    decreases segs.len() - k,
{
    if k < 0 || k >= segs.len() {
        Seq::empty()
    } else {
        match segs[k] {
            Segment::Literal { lo, hi } => events.subrange(lo as int, hi as int) + spliced_from(
                events,
                segs,
                outs,
                k + 1,
                t,
            ),
            Segment::Task { .. } => html_events_of(outs[t]) + spliced_from(
                events,
                segs,
                outs,
                k + 1,
                t + 1,
            ),
        }
    }
}

/// The whole reassembled event stream.
pub open spec fn spliced(
    events: Seq<pulldown_cmark::Event<'static>>,
    segs: Seq<Segment>,
    outs: Seq<Seq<char>>,
) -> Seq<pulldown_cmark::Event<'static>> {
    spliced_from(events, segs, outs, 0, 0)
}

/// Splice the resolved outputs back and serialize: the result is exactly
/// the serializer's text for the spliced stream — literal runs verbatim
/// from the source events, the `k`-th task block in source order replaced
/// by the `k`-th rendered output — and it fails exactly where the
/// serializer refuses that stream.
pub fn rebuild_body(
    events: &Vec<pulldown_cmark::Event<'static>>,
    segments: &Vec<Segment>,
    outputs: &Vec<String>,
) -> (r: Result<String, RenderError>)
    requires
        outputs@.len() == tasks_before(segments@, segments@.len() as int),
        forall|k: int|
            0 <= k < segments@.len() ==> seg_lo(#[trigger] segments@[k]) <= seg_hi(segments@[k])
                <= events@.len(),
    ensures
        r is Ok <==> serialize_ok(spliced(events@, segments@, views(outputs@))),
        r matches Ok(text) ==> text@ == serialized_of(
            spliced(events@, segments@, views(outputs@)),
        ),
        r matches Err(e) ==> e == RenderError::Serialize,
{
    let ghost outs: Seq<Seq<char>> = views(outputs@);
    let ghost whole: Seq<pulldown_cmark::Event<'static>> = spliced(events@, segments@, outs);
    let pieces = reassemble(segments, outputs);
    let mut out_events: Vec<pulldown_cmark::Event<'static>> = Vec::new();
    let mut p: usize = 0;
    let mut t: usize = 0;
    proof {
        assert(Seq::<pulldown_cmark::Event<'static>>::empty() + spliced_from(
            events@,
            segments@,
            outs,
            0,
            0,
        ) =~= whole);
    }
    while p < pieces.len()
        invariant
            p <= pieces@.len(),
            pieces@.len() == segments@.len(),
            outs == views(outputs@),
            whole == spliced(events@, segments@, outs),
            outputs@.len() == tasks_before(segments@, segments@.len() as int),
            t == tasks_before(segments@, p as int),
            t <= p,
            forall|k: int|
                0 <= k < segments@.len() ==> seg_lo(#[trigger] segments@[k]) <= seg_hi(
                    segments@[k],
                ) <= events@.len(),
            forall|k: int|
                0 <= k < segments@.len() ==> piece_matches(
                    segments@[k],
                    #[trigger] pieces@[k],
                    outs,
                    tasks_before(segments@, k),
                ),
            out_events@ + spliced_from(events@, segments@, outs, p as int, t as int) == whole,
        decreases pieces@.len() - p,
    {
        proof {
            assert(piece_matches(segments@[p as int], pieces@[p as int], outs, t as nat));
        }
        match &pieces[p] {
            Piece::Copy { lo, hi } => {
                let lo: usize = *lo;
                let hi: usize = *hi;
                let ghost base = out_events@;
                let mut j: usize = lo;
                proof {
                    assert(events@.subrange(lo as int, lo as int) =~= Seq::<
                        pulldown_cmark::Event<'static>,
                    >::empty());
                    assert(base + events@.subrange(lo as int, lo as int) =~= base);
                }
                while j < hi
                    invariant
                        lo <= j <= hi <= events@.len(),
                        out_events@ == base + events@.subrange(lo as int, j as int),
                    decreases hi - j,
                {
                    let e = clone_event(&events[j]);
                    out_events.push(e);
                    proof {
                        assert(events@.subrange(lo as int, j + 1) =~= events@.subrange(
                            lo as int,
                            j as int,
                        ).push(events@[j as int]));
                        assert(out_events@ =~= base + events@.subrange(lo as int, j + 1));
                    }
                    j = j + 1;
                }
                proof {
                    assert(spliced_from(events@, segments@, outs, p as int, t as int)
                        == events@.subrange(lo as int, hi as int) + spliced_from(
                        events@,
                        segments@,
                        outs,
                        p + 1,
                        t as int,
                    ));
                    assert(out_events@ + spliced_from(events@, segments@, outs, p + 1, t as int)
                        =~= base + spliced_from(events@, segments@, outs, p as int, t as int));
                }
            },
            Piece::Rendered { html } => {
                proof {
                    lemma_tasks_before_mono(segments@, p + 1, segments@.len() as int);
                }
                let ghost base = out_events@;
                let mut evs = html_events(html.clone());
                out_events.append(&mut evs);
                proof {
                    assert(spliced_from(events@, segments@, outs, p as int, t as int)
                        == html_events_of(outs[t as int]) + spliced_from(
                        events@,
                        segments@,
                        outs,
                        p + 1,
                        t + 1,
                    ));
                    assert(out_events@ + spliced_from(events@, segments@, outs, p + 1, t + 1)
                        =~= base + spliced_from(events@, segments@, outs, p as int, t as int));
                }
                t = t + 1;
            },
        }
        p = p + 1;
    }
    proof {
        assert(spliced_from(events@, segments@, outs, p as int, t as int) =~= Seq::<
            pulldown_cmark::Event<'static>,
        >::empty());
        assert(out_events@ =~= whole);
    }
    match serialize_events(&out_events) {
        Ok(text) => Ok(text),
        Err(_) => Err(RenderError::Serialize),
    }
}

} // verus!
