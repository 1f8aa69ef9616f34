//! Normalization of raw path segments into a canonical event stream.
//!
//! A raw path is an ordered sequence of [`PathSegment`] values, the shape in
//! which both vector-document paths and font glyph outlines arrive.  The
//! normalizer turns it into a canonical sequence of [`PathEvent`] values in
//! which every subpath is opened by exactly one `Begin` and closed by exactly
//! one `End` before the next `Begin` or the end of the stream.  The `close`
//! flag of an `End` is `true` exactly when an explicit `ClosePath` segment
//! produced it; a subpath abandoned by a following `MoveTo` or by stream
//! exhaustion is ended with `close: false`.
//!
//! A pull-based stream would hold an `End` owed before the `Begin` of a
//! fresh subpath in a one-slot pending field; here both events are appended
//! eagerly, since the whole event sequence is materialized before
//! tessellation consumes it.

use vstd::prelude::*;

use crate::error::RenderError;
use crate::geom::Point;

verus! {

/// One raw segment of a path, as handed in by a document parser or a glyph
/// outline walker.
#[derive(Debug, Clone, Copy, PartialEq, Eq, Structural)]
pub enum PathSegment {
    /// Start a new subpath at a point.
    MoveTo { to: Point },
    /// A straight line to a point.
    LineTo { to: Point },
    /// A quadratic Bezier curve with one control point.
    QuadTo { ctrl: Point, to: Point },
    /// A cubic Bezier curve with two control points.
    CurveTo { ctrl1: Point, ctrl2: Point, to: Point },
    /// Close the current subpath back to its first point.
    ClosePath,
}

/// One canonical event of a normalized path.
#[derive(Debug, Clone, Copy, PartialEq, Eq, Structural)]
pub enum PathEvent {
    /// A subpath starts at a point.
    Begin { at: Point },
    /// A straight edge of the current subpath.
    Line { from: Point, to: Point },
    /// A quadratic Bezier edge of the current subpath.
    Quadratic { from: Point, ctrl: Point, to: Point },
    /// A cubic Bezier edge of the current subpath.
    Cubic { from: Point, ctrl1: Point, ctrl2: Point, to: Point },
    /// The current subpath ends; `close` tells whether an explicit
    /// `ClosePath` segment produced it.
    End { last: Point, first: Point, close: bool },
}

/// The normalizer state between two segments: the previous point, the first
/// point of the current subpath, and whether an `End` is still owed.
pub struct NormState {
    pub prev: Point,
    pub first: Point,
    pub needs_end: bool,
}

/// The state before any segment has been consumed.
pub open spec fn norm_init() -> NormState {
    NormState { prev: Point { x: 0, y: 0 }, first: Point { x: 0, y: 0 }, needs_end: false }
}

/// Whether a segment is acceptable in a given state: drawing or closing is
/// only allowed while a subpath is open, that is after a `MoveTo` and not
/// directly after a `ClosePath`.
pub open spec fn seg_ok(st: NormState, seg: PathSegment) -> bool {
    seg is MoveTo || st.needs_end
}

/// The state after consuming one segment.
pub open spec fn step_state(st: NormState, seg: PathSegment) -> NormState {
    match seg {
        PathSegment::MoveTo { to } => NormState { prev: to, first: to, needs_end: true },
        PathSegment::LineTo { to } => NormState { prev: to, needs_end: true, ..st },
        PathSegment::QuadTo { to, .. } => NormState { prev: to, needs_end: true, ..st },
        PathSegment::CurveTo { to, .. } => NormState { prev: to, needs_end: true, ..st },
        PathSegment::ClosePath => NormState { prev: st.first, needs_end: false, ..st },
    }
}

/// The events emitted for one segment.  A `MoveTo` while an `End` is owed
/// first ends the abandoned subpath, then begins the new one.
pub open spec fn step_events(st: NormState, seg: PathSegment) -> Seq<PathEvent> {
    match seg {
        PathSegment::MoveTo { to } => if st.needs_end {
            seq![
                PathEvent::End { last: st.prev, first: st.first, close: false },
                PathEvent::Begin { at: to },
            ]
        } else {
            seq![PathEvent::Begin { at: to }]
        },
        PathSegment::LineTo { to } => seq![PathEvent::Line { from: st.prev, to }],
        PathSegment::QuadTo { ctrl, to } => seq![
            PathEvent::Quadratic { from: st.prev, ctrl, to },
        ],
        PathSegment::CurveTo { ctrl1, ctrl2, to } => seq![
            PathEvent::Cubic { from: st.prev, ctrl1, ctrl2, to },
        ],
        PathSegment::ClosePath => seq![
            PathEvent::End { last: st.first, first: st.first, close: true },
        ],
    }
}

/// The events emitted for the segments from position `i` on, starting in
/// state `st`, including the final `End` owed at stream exhaustion.
pub open spec fn norm_from(s: Seq<PathSegment>, i: int, st: NormState) -> Seq<PathEvent>
    decreases s.len() - i,
{
    if i < 0 || i >= s.len() {
        if st.needs_end {
            seq![PathEvent::End { last: st.prev, first: st.first, close: false }]
        } else {
            seq![]
        }
    } else {
        step_events(st, s[i]) + norm_from(s, i + 1, step_state(st, s[i]))
    }
}

/// Whether every segment from position `i` on is acceptable when starting in
/// state `st`.
pub open spec fn valid_from(s: Seq<PathSegment>, i: int, st: NormState) -> bool
    decreases s.len() - i,
{
    if i < 0 || i >= s.len() {
        true
    } else {
        seg_ok(st, s[i]) && valid_from(s, i + 1, step_state(st, s[i]))
    }
}

/// Whether a whole segment sequence is well formed: it draws and closes only
/// inside an open subpath.
pub open spec fn segments_valid(s: Seq<PathSegment>) -> bool {
    valid_from(s, 0, norm_init())
}

/// The canonical event stream of a well-formed segment sequence.
pub open spec fn normalized_events(s: Seq<PathSegment>) -> Seq<PathEvent> {
    norm_from(s, 0, norm_init())
}

/// How many elements of a sequence satisfy a predicate.
pub open spec fn count<A>(s: Seq<A>, p: spec_fn(A) -> bool) -> int
    decreases s.len(),
{
    if s.len() == 0 {
        0
    } else {
        (if p(s[0]) {
            1int
        } else {
            0int
        }) + count(s.drop_first(), p)
    }
}

/// The predicate picking `Begin` events.
pub open spec fn begin_pred() -> spec_fn(PathEvent) -> bool {
    |e: PathEvent| e is Begin
}

/// The predicate picking `End` events.
pub open spec fn end_pred() -> spec_fn(PathEvent) -> bool {
    |e: PathEvent| e is End
}

/// The predicate picking `End` events that record an explicit close.
pub open spec fn closed_end_pred() -> spec_fn(PathEvent) -> bool {
    |e: PathEvent| e matches PathEvent::End { close: true, .. }
}

/// How many `ClosePath` segments stand at position `i` or later.
pub open spec fn count_close_from(s: Seq<PathSegment>, i: int) -> int
    decreases s.len() - i,
{
    if i < 0 || i >= s.len() {
        0
    } else {
        (if s[i] is ClosePath {
            1int
        } else {
            0int
        }) + count_close_from(s, i + 1)
    }
}

/// Counting distributes over concatenation.
proof fn lemma_count_add<A>(a: Seq<A>, b: Seq<A>, p: spec_fn(A) -> bool)
    ensures
        count(a + b, p) == count(a, p) + count(b, p),
    decreases a.len(),
{
    if a.len() == 0 {
        assert(a + b =~= b);
    } else {
        assert((a + b)[0] == a[0]);
        assert((a + b).drop_first() =~= a.drop_first() + b);
        lemma_count_add(a.drop_first(), b, p);
    }
}

/// The count over a singleton sequence is decided by its one element.
proof fn lemma_count_one<A>(x: A, p: spec_fn(A) -> bool)
    ensures
        count(seq![x], p) == if p(x) {
            1int
        } else {
            0int
        },
{
    assert(seq![x].drop_first() =~= Seq::<A>::empty());
    assert(count(Seq::<A>::empty(), p) == 0);
}

/// Along any well-formed tail of a segment sequence, the normalized events
/// contain exactly one more `End` than `Begin` when an `End` is owed on
/// entry, and equally many otherwise; and they contain exactly one
/// explicitly-closed `End` per `ClosePath` segment.
proof fn lemma_counts_from(s: Seq<PathSegment>, i: int, st: NormState)
    requires
        0 <= i <= s.len(),
        valid_from(s, i, st),
    ensures
        count(norm_from(s, i, st), end_pred()) == count(norm_from(s, i, st), begin_pred()) + (
        if st.needs_end {
            1int
        } else {
            0int
        }),
        count(norm_from(s, i, st), closed_end_pred()) == count_close_from(s, i),
    decreases s.len() - i,
{
    if i >= s.len() {
        if st.needs_end {
            let e = PathEvent::End { last: st.prev, first: st.first, close: false };
            lemma_count_one(e, end_pred());
            lemma_count_one(e, begin_pred());
            lemma_count_one(e, closed_end_pred());
        }
    } else {
        let st2 = step_state(st, s[i]);
        let ev = step_events(st, s[i]);
        let tail = norm_from(s, i + 1, st2);
        lemma_counts_from(s, i + 1, st2);
        lemma_count_add(ev, tail, end_pred());
        lemma_count_add(ev, tail, begin_pred());
        lemma_count_add(ev, tail, closed_end_pred());
        match s[i] {
            PathSegment::MoveTo { to } => {
                let b = PathEvent::Begin { at: to };
                if st.needs_end {
                    let e = PathEvent::End { last: st.prev, first: st.first, close: false };
                    assert(ev =~= seq![e] + seq![b]);
                    lemma_count_add(seq![e], seq![b], end_pred());
                    lemma_count_add(seq![e], seq![b], begin_pred());
                    lemma_count_add(seq![e], seq![b], closed_end_pred());
                    lemma_count_one(e, end_pred());
                    lemma_count_one(e, begin_pred());
                    lemma_count_one(e, closed_end_pred());
                    lemma_count_one(b, end_pred());
                    lemma_count_one(b, begin_pred());
                    lemma_count_one(b, closed_end_pred());
                } else {
                    lemma_count_one(b, end_pred());
                    lemma_count_one(b, begin_pred());
                    lemma_count_one(b, closed_end_pred());
                }
            }
            PathSegment::ClosePath => {
                let e = PathEvent::End { last: st.first, first: st.first, close: true };
                lemma_count_one(e, end_pred());
                lemma_count_one(e, begin_pred());
                lemma_count_one(e, closed_end_pred());
            }
            _ => {
                assert(ev.len() == 1);
                lemma_count_one(ev[0], end_pred());
                lemma_count_one(ev[0], begin_pred());
                lemma_count_one(ev[0], closed_end_pred());
                assert(ev =~= seq![ev[0]]);
            }
        }
    }
}

/// In the normalized stream of any well-formed segment sequence, subpaths
/// open and close in balance: there are exactly as many `Begin` events as
/// `End` events, and exactly as many `End` events carrying `close: true` as
/// there are explicit `ClosePath` segments.
pub proof fn lemma_begin_end_balance(s: Seq<PathSegment>)
    requires
        segments_valid(s),
    ensures
        count(normalized_events(s), begin_pred()) == count(normalized_events(s), end_pred()),
        count(normalized_events(s), closed_end_pred()) == count_close_from(s, 0),
{
    lemma_counts_from(s, 0, norm_init());
}

/// What well-formedness of a segment sequence amounts to, spelled out:
/// a non-empty sequence starts with a `MoveTo`, and whatever follows a
/// `ClosePath` is again a `MoveTo`.
pub open spec fn segments_shape(s: Seq<PathSegment>) -> bool {
    &&& s.len() > 0 ==> s[0] is MoveTo
    &&& forall|j: int| 0 <= j < s.len() - 1 && s[j] is ClosePath ==> (#[trigger] s[j + 1]) is MoveTo
}

proof fn lemma_valid_from_shape(s: Seq<PathSegment>, i: int, st: NormState)
    requires
        0 <= i <= s.len(),
    ensures
        valid_from(s, i, st) <==> ((!st.needs_end && i < s.len() ==> s[i] is MoveTo) && (forall|
            j: int,
        |
            i <= j < s.len() - 1 && s[j] is ClosePath ==> (#[trigger] s[j + 1]) is MoveTo)),
    decreases s.len() - i,
{
    if i < s.len() {
        lemma_valid_from_shape(s, i + 1, step_state(st, s[i]));
    }
}

/// A segment sequence is well formed exactly when it starts with a `MoveTo`
/// (if it is non-empty) and every `ClosePath` is followed, if by anything,
/// by a `MoveTo`.
pub proof fn lemma_segments_valid_shape(s: Seq<PathSegment>)
    ensures
        segments_valid(s) <==> segments_shape(s),
{
    lemma_valid_from_shape(s, 0, norm_init());
}

/// The path normalization state machine, driven one segment at a time.
pub struct PathEventStream {
    prev: Point,
    first: Point,
    needs_end: bool,
}

impl View for PathEventStream {
    type V = NormState;

    closed spec fn view(&self) -> NormState {
        NormState { prev: self.prev, first: self.first, needs_end: self.needs_end }
    }
}

impl PathEventStream {
    /// A fresh normalizer with no subpath open.
    pub fn new() -> (r: PathEventStream)
        ensures
            r@ == norm_init(),
    {
        PathEventStream { prev: Point::origin(), first: Point::origin(), needs_end: false }
    }

    /// Consume one segment, appending the events that become due.  Returns
    /// `false`, changing nothing, when the segment draws or closes while no
    /// subpath is open.
    pub fn apply(&mut self, seg: &PathSegment, out: &mut Vec<PathEvent>) -> (ok: bool)
        ensures
            ok == seg_ok(old(self)@, *seg),
            ok ==> final(self)@ == step_state(old(self)@, *seg),
            ok ==> final(out)@ == old(out)@ + step_events(old(self)@, *seg),
            !ok ==> final(self)@ == old(self)@ && final(out)@ == old(out)@,
    {
        match seg {
            PathSegment::MoveTo { to } => {
                if self.needs_end {
                    out.push(PathEvent::End { last: self.prev, first: self.first, close: false });
                }
                out.push(PathEvent::Begin { at: *to });
                self.prev = *to;
                self.first = *to;
                self.needs_end = true;
                true
            }
            PathSegment::LineTo { to } => {
                if !self.needs_end {
                    return false;
                }
                out.push(PathEvent::Line { from: self.prev, to: *to });
                self.prev = *to;
                true
            }
            PathSegment::QuadTo { ctrl, to } => {
                if !self.needs_end {
                    return false;
                }
                out.push(PathEvent::Quadratic { from: self.prev, ctrl: *ctrl, to: *to });
                self.prev = *to;
                true
            }
            PathSegment::CurveTo { ctrl1, ctrl2, to } => {
                if !self.needs_end {
                    return false;
                }
                out.push(PathEvent::Cubic {
                    from: self.prev,
                    ctrl1: *ctrl1,
                    ctrl2: *ctrl2,
                    to: *to,
                });
                self.prev = *to;
                true
            }
            PathSegment::ClosePath => {
                if !self.needs_end {
                    return false;
                }
                self.prev = self.first;
                self.needs_end = false;
                out.push(PathEvent::End { last: self.prev, first: self.first, close: true });
                true
            }
        }
    }

    /// End the stream, appending the `End` still owed to an open subpath.
    pub fn finish(&mut self, out: &mut Vec<PathEvent>)
        ensures
            final(self)@ == (NormState { needs_end: false, ..old(self)@ }),
            old(self)@.needs_end ==> final(out)@ == old(out)@ + seq![
                PathEvent::End { last: old(self)@.prev, first: old(self)@.first, close: false },
            ],
            !old(self)@.needs_end ==> final(out)@ == old(out)@,
    {
        if self.needs_end {
            out.push(PathEvent::End { last: self.prev, first: self.first, close: false });
            self.needs_end = false;
        }
    }
}

/// Normalize a whole segment sequence into its canonical event stream, or
/// reject a malformed one that draws or closes outside any subpath.
pub fn normalize(segments: &Vec<PathSegment>) -> (r: Result<Vec<PathEvent>, RenderError>)
    ensures
        segments_valid(segments@) ==> (r matches Ok(events) && events@ == normalized_events(
            segments@,
        )),
        !segments_valid(segments@) ==> r == Err::<Vec<PathEvent>, RenderError>(RenderError::Parse),
{
    let mut out: Vec<PathEvent> = Vec::new();
    let mut stream = PathEventStream::new();
    let mut i: usize = 0;
    while i < segments.len()
        invariant
            0 <= i <= segments@.len(),
            segments_valid(segments@) == valid_from(segments@, i as int, stream@),
            out@ + norm_from(segments@, i as int, stream@) == normalized_events(segments@),
        decreases segments@.len() - i,
    {
        let ok = stream.apply(&segments[i], &mut out);
        if !ok {
            return Err(RenderError::Parse);
        }
        i = i + 1;
    }
    stream.finish(&mut out);
    proof {
        assert(out@ =~= normalized_events(segments@));
    }
    Ok(out)
}

} // verus!
