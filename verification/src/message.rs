//! Messages as lists of segments, the event kinds a bot receives, and the
//! text tests the handlers make on a message.

use vstd::prelude::*;
use crate::text::{
    lemma_trim_start_all_removes_copies, lemma_trim_start_all_strips, repeat, starts_with,
    trim_start_all, trim_start_matches,
};

verus! {

/// One piece of a message.
///
/// `Text` and `Reply` are the pieces the handlers read or write; `Other`
/// stands for any other piece of an incoming message (an image, a mention,
/// ...), named by its position in that message so that it can be sent back
/// as it was.
#[derive(Debug, Clone, PartialEq, Eq)]
pub enum Segment {
    Text { content: String },
    Reply { message_id: String },
    Other { position: usize },
}

/// The mathematical value of a [`Segment`].
pub enum SegmentView {
    Text(Seq<char>),
    Reply(Seq<char>),
    Other(nat),
}

impl View for Segment {
    type V = SegmentView;

    open spec fn view(&self) -> SegmentView {
        match self {
            Segment::Text { content } => SegmentView::Text(content@),
            Segment::Reply { message_id } => SegmentView::Reply(message_id@),
            Segment::Other { position } => SegmentView::Other(*position as nat),
        }
    }
}

/// The views of a list of segments.
pub open spec fn segments_view(segs: Seq<Segment>) -> Seq<SegmentView> {
    segs.map_values(|s: Segment| s@)
}

/// A received message: its id and its segments in order.
#[derive(Debug, Clone, PartialEq, Eq)]
pub struct Message {
    pub id: String,
    pub segments: Vec<Segment>,
}

/// The mathematical value of a [`Message`].
pub struct MessageView {
    pub id: Seq<char>,
    pub segments: Seq<SegmentView>,
}

impl View for Message {
    type V = MessageView;

    open spec fn view(&self) -> MessageView {
        MessageView { id: self.id@, segments: segments_view(self.segments@) }
    }
}

/// The kinds of event a bot delivers.
#[derive(Debug, Clone, Copy, PartialEq, Eq, Structural)]
pub enum EventKind {
    Message,
    Notice,
    Request,
    Interaction,
    Lifecycle,
    Meta,
    Any,
}

/// Whether segment `seg` is a text segment that begins with `text`.
pub open spec fn text_starts_with(seg: SegmentView, text: Seq<char>) -> bool {
    match seg {
        SegmentView::Text(content) => text.is_prefix_of(content),
        _ => false,
    }
}

/// Whether some text segment of `segs` begins with `text`.
pub open spec fn some_text_starts_with(segs: Seq<SegmentView>, text: Seq<char>) -> bool {
    exists|i: int| 0 <= i < segs.len() && text_starts_with(#[trigger] segs[i], text)
}

/// The position of the first text segment of `segs`, at or after `from`,
/// that begins with `text`; `segs.len()` when there is none.
pub open spec fn first_text_from(segs: Seq<SegmentView>, text: Seq<char>, from: int) -> int
    decreases segs.len() - from,
{
    if from < 0 || from >= segs.len() {
        segs.len() as int
    } else if text_starts_with(segs[from], text) {
        from
    } else {
        first_text_from(segs, text, from + 1)
    }
}

/// The position of the first text segment of `segs` that begins with `text`;
/// `segs.len()` when there is none.
pub open spec fn first_text_with(segs: Seq<SegmentView>, text: Seq<char>) -> int {
    first_text_from(segs, text, 0)
}

/// `segs` with the first text segment that begins with `text` stripped of
/// every leading copy of `text`; every other segment as it was.
pub open spec fn trim_head_spec(segs: Seq<SegmentView>, text: Seq<char>) -> Seq<SegmentView> {
    let j = first_text_with(segs, text);
    if j < segs.len() {
        segs.update(j, SegmentView::Text(trim_start_all(segs[j]->Text_0, text)))
    } else {
        segs
    }
}

/// The text segments of `segs` joined in order, all other segments left out.
pub open spec fn raw_text(segs: Seq<SegmentView>) -> Seq<char>
    decreases segs.len(),
{
    if segs.len() == 0 {
        Seq::empty()
    } else {
        raw_text(segs.drop_last()) + match segs.last() {
            SegmentView::Text(content) => content,
            _ => Seq::empty(),
        }
    }
}

/// `first_text_from` finds a qualifying segment exactly when there is one
/// at or after `from`, and nothing qualifies between `from` and what it finds.
proof fn lemma_first_text_from_bounds(segs: Seq<SegmentView>, text: Seq<char>, from: int)
    requires
        0 <= from <= segs.len(),
    ensures
        from <= first_text_from(segs, text, from) <= segs.len(),
        first_text_from(segs, text, from) < segs.len() ==> text_starts_with(
            segs[first_text_from(segs, text, from)],
            text,
        ),
        forall|k: int|
            from <= k < first_text_from(segs, text, from) ==> !text_starts_with(
                #[trigger] segs[k],
                text,
            ),
    decreases segs.len() - from,
{
    if from < segs.len() && !text_starts_with(segs[from], text) {
        lemma_first_text_from_bounds(segs, text, from + 1);
    }
}

/// The first qualifying text segment exists exactly when some text segment
/// qualifies, and nothing before it qualifies.
pub proof fn lemma_first_text_with(segs: Seq<SegmentView>, text: Seq<char>)
    ensures
        0 <= first_text_with(segs, text) <= segs.len(),
        first_text_with(segs, text) < segs.len() <==> some_text_starts_with(segs, text),
        first_text_with(segs, text) < segs.len() ==> text_starts_with(
            segs[first_text_with(segs, text)],
            text,
        ),
        forall|k: int|
            0 <= k < first_text_with(segs, text) ==> !text_starts_with(#[trigger] segs[k], text),
{
    lemma_first_text_from_bounds(segs, text, 0);
    let j = first_text_with(segs, text);
    if some_text_starts_with(segs, text) {
        let i = choose|i: int| 0 <= i < segs.len() && text_starts_with(#[trigger] segs[i], text);
        assert(j <= i);
    }
}

/// Trimming acts on the first text segment that begins with `text`,
/// whichever position it has and however many segments there are: that
/// segment stays a text segment, loses one or more leading copies of
/// `text` and no longer begins with it (for a nonempty `text`); every other
/// segment is kept as it was.
pub proof fn law_trim_head_text(segs: Seq<SegmentView>, text: Seq<char>, j: int)
    requires
        0 <= j < segs.len(),
        text_starts_with(segs[j], text),
        forall|i: int| 0 <= i < j ==> !text_starts_with(#[trigger] segs[i], text),
    ensures
        trim_head_spec(segs, text).len() == segs.len(),
        forall|i: int|
            0 <= i < segs.len() && i != j ==> #[trigger] trim_head_spec(segs, text)[i] == segs[i],
        trim_head_spec(segs, text)[j] is Text,
        text.len() > 0 ==> !text.is_prefix_of(trim_head_spec(segs, text)[j]->Text_0),
        exists|k: nat|
            k >= 1 && segs[j]->Text_0 == #[trigger] repeat(text, k) + trim_head_spec(
                segs,
                text,
            )[j]->Text_0,
{
    lemma_first_text_with(segs, text);
    let f = first_text_with(segs, text);
    assert(f == j) by {
        if f < j {
            assert(!text_starts_with(segs[f], text));
        }
    }
    let content = segs[j]->Text_0;
    let left = trim_start_all(content, text);
    lemma_trim_start_all_strips(content, text);
    if text.len() > 0 {
        let k = lemma_trim_start_all_removes_copies(content, text);
        assert(k >= 1 && content == repeat(text, k) + left);
    } else {
        assert(left == content);
        assert(repeat(text, 1) =~= Seq::<char>::empty()) by {
            assert(repeat(text, 0) =~= Seq::<char>::empty());
        }
        assert(content =~= repeat(text, 1) + left);
    }
}

/// Where no text segment begins with `text`, trimming keeps every segment.
pub proof fn law_trim_head_text_without_match(segs: Seq<SegmentView>, text: Seq<char>)
    requires
        !some_text_starts_with(segs, text),
    ensures
        trim_head_spec(segs, text) == segs,
{
    lemma_first_text_with(segs, text);
}

/// The raw text of two runs of segments one after the other is the raw
/// text of the first followed by that of the second.
pub proof fn law_raw_text_concat(a: Seq<SegmentView>, b: Seq<SegmentView>)
    ensures
        raw_text(a + b) == raw_text(a) + raw_text(b),
    decreases b.len(),
{
    if b.len() == 0 {
        assert(a + b =~= a);
        assert(raw_text(a) + raw_text(b) =~= raw_text(a));
    } else {
        law_raw_text_concat(a, b.drop_last());
        assert((a + b).drop_last() =~= a + b.drop_last());
        assert((a + b).last() == b.last());
        let tail = match b.last() {
            SegmentView::Text(content) => content,
            _ => Seq::empty(),
        };
        assert(raw_text(a) + raw_text(b.drop_last()) + tail =~= raw_text(a) + (raw_text(
            b.drop_last(),
        ) + tail));
    }
}

/// Only text segments make up the raw text: a text segment gives its
/// content, a reply or any other segment gives nothing, wherever it stands.
pub proof fn law_raw_text_of_one_segment(s: Seq<SegmentView>, content: Seq<char>, id: Seq<char>, position: nat)
    ensures
        raw_text(seq![SegmentView::Text(content)]) == content,
        raw_text(seq![SegmentView::Reply(id)]) == Seq::<char>::empty(),
        raw_text(seq![SegmentView::Other(position)]) == Seq::<char>::empty(),
        raw_text(s.push(SegmentView::Reply(id))) == raw_text(s),
        raw_text(seq![SegmentView::Reply(id)] + s) == raw_text(s),
        raw_text(s.push(SegmentView::Other(position))) == raw_text(s),
        raw_text(seq![SegmentView::Other(position)] + s) == raw_text(s),
        raw_text(s.push(SegmentView::Text(content))) == raw_text(s) + content,
{
    let t = seq![SegmentView::Text(content)];
    let r = seq![SegmentView::Reply(id)];
    let o = seq![SegmentView::Other(position)];
    assert(t.drop_last() =~= Seq::<SegmentView>::empty());
    assert(r.drop_last() =~= Seq::<SegmentView>::empty());
    assert(o.drop_last() =~= Seq::<SegmentView>::empty());
    assert(raw_text(Seq::<SegmentView>::empty()) =~= Seq::<char>::empty());
    assert(t.last() == SegmentView::Text(content));
    assert(Seq::<char>::empty() + content =~= content);
    assert(raw_text(t) =~= content);
    assert(raw_text(r) =~= Seq::<char>::empty());
    assert(raw_text(o) =~= Seq::<char>::empty());
    assert(s.push(SegmentView::Reply(id)) =~= s + r);
    assert(s.push(SegmentView::Other(position)) =~= s + o);
    assert(s.push(SegmentView::Text(content)) =~= s + t);
    law_raw_text_concat(s, r);
    law_raw_text_concat(r, s);
    law_raw_text_concat(s, o);
    law_raw_text_concat(o, s);
    law_raw_text_concat(s, t);
    assert(raw_text(s) + Seq::<char>::empty() =~= raw_text(s));
    assert(Seq::<char>::empty() + raw_text(s) =~= raw_text(s));
}

/// A copy of `seg`.
pub fn copy_segment(seg: &Segment) -> (res: Segment)
    ensures
        res@ == seg@,
{
    match seg {
        Segment::Text { content } => Segment::Text { content: content.clone() },
        Segment::Reply { message_id } => Segment::Reply { message_id: message_id.clone() },
        Segment::Other { position } => Segment::Other { position: *position },
    }
}

/// A list holding one text segment with `content`.
pub fn text_only(content: String) -> (res: Vec<Segment>)
    ensures
        segments_view(res@) == seq![SegmentView::Text(content@)],
{
    let ghost c = content@;
    let mut res: Vec<Segment> = Vec::new();
    res.push(Segment::Text { content });
    assert(segments_view(res@) =~= seq![SegmentView::Text(c)]);
    res
}

impl Message {
    /// Whether some text segment of the message begins with `text`.
    pub fn starts_with_text(&self, text: &str) -> (res: bool)
        ensures
            res == some_text_starts_with(self@.segments, text@),
    {
        let n = self.segments.len();
        let mut i: usize = 0;
        while i < n
            invariant
                n == self.segments@.len(),
                i <= n,
                forall|k: int|
                    0 <= k < i ==> !text_starts_with(#[trigger] self@.segments[k], text@),
            decreases n - i,
        {
            match &self.segments[i] {
                Segment::Text { content } => {
                    if starts_with(content.as_str(), text) {
                        assert(text_starts_with(self@.segments[i as int], text@));
                        return true;
                    }
                },
                _ => {},
            }
            i = i + 1;
        }
        false
    }

    /// The segments of the message, with the first text segment that begins
    /// with `text` stripped of every leading copy of `text`.
    pub fn trim_head_text(&self, text: &str) -> (res: Vec<Segment>)
        ensures
            segments_view(res@) == trim_head_spec(self@.segments, text@),
    {
        let ghost segs = self@.segments;
        let n = self.segments.len();
        let mut out: Vec<Segment> = Vec::new();
        let mut i: usize = 0;
        let mut trimmed = false;
        proof {
            lemma_first_text_with(segs, text@);
        }
        let ghost j = first_text_with(segs, text@);
        let ghost target = trim_head_spec(segs, text@);
        assert(target.len() == segs.len());
        while i < n
            invariant
                n == segs.len(),
                segs == self@.segments,
                j == first_text_with(segs, text@),
                target == trim_head_spec(segs, text@),
                target.len() == n,
                0 <= j <= n,
                j < n ==> text_starts_with(segs[j], text@),
                forall|k: int| 0 <= k < j ==> !text_starts_with(#[trigger] segs[k], text@),
                i <= n,
                out@.len() == i,
                trimmed <==> j < i,
                forall|k: int| 0 <= k < i ==> (#[trigger] out@[k])@ == target[k],
            decreases n - i,
        {
            let seg = &self.segments[i];
            let mut next = copy_segment(seg);
            if !trimmed {
                match seg {
                    Segment::Text { content } => {
                        if starts_with(content.as_str(), text) {
                            next = Segment::Text { content: trim_start_matches(content.as_str(), text) };
                            trimmed = true;
                            assert(text_starts_with(segs[i as int], text@));
                        }
                    },
                    _ => {},
                }
            }
            proof {
                if j > i {
                    assert(!text_starts_with(segs[i as int], text@));
                }
            }
            out.push(next);
            i = i + 1;
        }
        proof {
            assert(segments_view(out@) =~= target);
        }
        out
    }

    /// The text of the message: its text segments joined in order.
    pub fn get_raw_text(&self) -> (res: String)
        ensures
            res@ == raw_text(self@.segments),
    {
        let ghost segs = self@.segments;
        let n = self.segments.len();
        let mut out = String::new();
        let mut i: usize = 0;
        while i < n
            invariant
                n == segs.len(),
                segs == self@.segments,
                i <= n,
                out@ == raw_text(segs.subrange(0, i as int)),
            decreases n - i,
        {
            assert(segs.subrange(0, i + 1 as int).drop_last() =~= segs.subrange(0, i as int));
            match &self.segments[i] {
                Segment::Text { content } => {
                    out.append(content.as_str());
                },
                _ => {},
            }
            i = i + 1;
        }
        assert(segs.subrange(0, n as int) =~= segs);
        out
    }
}

} // verus!
