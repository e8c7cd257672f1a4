//! Route-delivery stream checkpoints and replay suppression.
use vstd::prelude::*;

use crate::api::{DeliveryListItem, DeliveryStreamFrame, StreamCursor, frame_cursor_text, opt_cursor_text};

verus! {

/// Abstract state of a stream session: the cursor to resume after, and the cursors whose
/// deliveries were already accepted.
pub struct SessionModel {
    pub resume: Option<Seq<char>>,
    pub seen: Set<Seq<char>>,
}

/// Effect of one frame: the new session state and the delivery row to insert, if any.
///
/// A cursor frame only moves the resume cursor. A delivery frame whose cursor was already
/// seen is a replay and is dropped; otherwise its cursor becomes seen and the resume cursor,
/// and its row is delivered. A delivery without any cursor is always delivered.
pub open spec fn step_frame(m: SessionModel, frame: DeliveryStreamFrame) -> (SessionModel, Option<
    DeliveryListItem,
>) {
    match frame {
        DeliveryStreamFrame::Connected => (m, None),
        DeliveryStreamFrame::Cursor(c) => (SessionModel { resume: Some(c.text()), seen: m.seen }, None),
        DeliveryStreamFrame::Delivery { cursor, item } => match frame_cursor_text(frame) {
            Some(t) => if m.seen.contains(t) {
                (m, None)
            } else {
                (SessionModel { resume: Some(t), seen: m.seen.insert(t) }, Some(item))
            },
            None => (m, Some(item)),
        },
    }
}

/// Effect of a batch of frames, applied in order: the final session state and the rows to
/// insert, in arrival order.
pub open spec fn accept_spec(m: SessionModel, frames: Seq<DeliveryStreamFrame>) -> (SessionModel, Seq<
    DeliveryListItem,
>)
    decreases frames.len(),
{
    if frames.len() == 0 {
        (m, Seq::empty())
    } else {
        let (m1, rows) = accept_spec(m, frames.drop_last());
        let (m2, o) = step_frame(m1, frames.last());
        match o {
            Some(item) => (m2, rows.push(item)),
            None => (m2, rows),
        }
    }
}

/// Cursor texts of the delivery frames of a batch.
pub open spec fn delivery_cursor_texts(frames: Seq<DeliveryStreamFrame>) -> Set<Seq<char>> {
    Set::new(
        |t: Seq<char>|
            exists|i: int|
                0 <= i < frames.len() && (#[trigger] frames[i]) is Delivery && frame_cursor_text(
                    frames[i],
                ) == Some(t),
    )
}

/// Rows of the delivery frames that carry no cursor at all, in order.
pub open spec fn uncursored_rows(frames: Seq<DeliveryStreamFrame>) -> Seq<DeliveryListItem>
    decreases frames.len(),
{
    if frames.len() == 0 {
        Seq::empty()
    } else {
        let rest = uncursored_rows(frames.drop_last());
        match frames.last() {
            DeliveryStreamFrame::Delivery { cursor, item } => if frame_cursor_text(
                frames.last(),
            ) is None {
                rest.push(item)
            } else {
                rest
            },
            _ => rest,
        }
    }
}

/// The first cursor carried by a row of a page, scanning from the top.
pub open spec fn first_row_cursor(rows: Seq<DeliveryListItem>) -> Option<Seq<char>>
    decreases rows.len(),
{
    if rows.len() == 0 {
        None
    } else if rows[0].cursor_text() is Some {
        rows[0].cursor_text()
    } else {
        first_row_cursor(rows.drop_first())
    }
}

/// Cursor texts carried by the rows of a page.
pub open spec fn row_cursor_texts(rows: Seq<DeliveryListItem>) -> Set<Seq<char>> {
    Set::new(
        |t: Seq<char>| exists|i: int| 0 <= i < rows.len() && (#[trigger] rows[i]).cursor_text() == Some(t),
    )
}

/// Owns route-delivery stream checkpoint and replay suppression state.
#[derive(Debug, Default, PartialEq, Eq)]
pub struct DeliveryStreamSession {
    resume_cursor: Option<StreamCursor>,
    seen_cursors: Vec<StreamCursor>,
}

impl DeliveryStreamSession {
    /// Abstract state of the session.
    pub closed spec fn model(&self) -> SessionModel {
        SessionModel {
            resume: opt_cursor_text(self.resume_cursor),
            seen: Set::new(|t: Seq<char>| self.seen_texts().contains(t)),
        }
    }

    /// Seen cursor texts in insertion order.
    pub closed spec fn seen_texts(&self) -> Seq<Seq<char>> {
        self.seen_cursors@.map_values(|c: StreamCursor| c.text())
    }

    /// No cursor is recorded twice.
    pub closed spec fn wf(&self) -> bool {
        self.seen_texts().no_duplicates()
    }

    /// A session that has seen nothing.
    pub fn new() -> (r: Self)
        ensures
            r.wf(),
            r.model().resume is None,
            r.model().seen == Set::<Seq<char>>::empty(),
    {
        let r = DeliveryStreamSession { resume_cursor: None, seen_cursors: Vec::new() };
        assert(r.model().seen =~= Set::<Seq<char>>::empty());
        r
    }

    /// Returns the cursor that should be sent as the next stream `after` value.
    pub fn resume_cursor(&self) -> (r: Option<&StreamCursor>)
        ensures
            r matches Some(c) ==> self.model().resume == Some(c.text()),
            r is None ==> self.model().resume is None,
    {
        match &self.resume_cursor {
            Some(c) => Some(c),
            None => None,
        }
    }

    fn has_seen(&self, cursor: &StreamCursor) -> (r: bool)
        ensures
            r == self.model().seen.contains(cursor.text()),
    {
        let mut i: usize = 0;
        while i < self.seen_cursors.len()
            invariant
                i <= self.seen_cursors.len(),
                forall|j: int| 0 <= j < i ==> self.seen_cursors@[j].text() != cursor.text(),
            decreases self.seen_cursors.len() - i,
        {
            if self.seen_cursors[i].same_as(cursor) {
                assert(self.seen_texts()[i as int] == cursor.text());
                return true;
            }
            i = i + 1;
        }
        assert(!self.seen_texts().contains(cursor.text())) by {
            if self.seen_texts().contains(cursor.text()) {
                let j = choose|j: int| 0 <= j < self.seen_texts().len() && self.seen_texts()[j] == cursor.text();
                assert(self.seen_cursors@[j].text() == cursor.text());
            }
        }
        false
    }

    /// Records a cursor as seen; returns false when it had been seen before.
    fn insert_seen(&mut self, cursor: StreamCursor) -> (r: bool)
        requires
            old(self).wf(),
        ensures
            final(self).wf(),
            r == !old(self).model().seen.contains(cursor.text()),
            final(self).model().seen == old(self).model().seen.insert(cursor.text()),
            final(self).model().resume == old(self).model().resume,
    {
        if self.has_seen(&cursor) {
            proof {
                assert(self.model().seen =~= self.model().seen.insert(cursor.text()));
            }
            return false;
        }
        let ghost before = self.seen_texts();
        self.seen_cursors.push(cursor);
        proof {
            assert(self.seen_texts() =~= before.push(cursor.text()));
            assert(!before.contains(cursor.text()));
            assert forall|i: int, j: int|
                0 <= i < self.seen_texts().len() && 0 <= j < self.seen_texts().len() && i != j
                    implies self.seen_texts()[i] != self.seen_texts()[j] by {
                if i < before.len() && j < before.len() {
                } else if i == before.len() {
                    assert(before[j] != cursor.text());
                } else {
                    assert(before[i] != cursor.text());
                }
            }
            assert forall|t: Seq<char>| #[trigger]
                self.seen_texts().contains(t) == (before.contains(t) || t == cursor.text()) by {
                if self.seen_texts().contains(t) {
                    let k = choose|k: int| 0 <= k < self.seen_texts().len() && self.seen_texts()[k] == t;
                    if k < before.len() {
                        assert(before[k] == t);
                    }
                }
                if before.contains(t) {
                    let k = choose|k: int| 0 <= k < before.len() && before[k] == t;
                    assert(self.seen_texts()[k] == t);
                }
                if t == cursor.text() {
                    assert(self.seen_texts()[before.len() as int] == t);
                }
            }
            assert(self.model().seen =~= old(self).model().seen.insert(cursor.text()));
        }
        true
    }

    /// Seeds replay protection from an initial list page: every cursor on the page becomes
    /// seen, and when no resume cursor is set yet, the first cursor on the page becomes it.
    pub fn track_page_cursors(&mut self, deliveries: &[DeliveryListItem])
        requires
            old(self).wf(),
        ensures
            final(self).wf(),
            final(self).model().seen == old(self).model().seen.union(row_cursor_texts(deliveries@)),
            final(self).model().resume == match old(self).model().resume {
                Some(r) => Some(r),
                None => first_row_cursor(deliveries@),
            },
    {
        let ghost seen0 = self.model().seen;
        let ghost resume0 = self.model().resume;
        let mut latest: Option<StreamCursor> = None;
        let mut i: usize = 0;
        while i < deliveries.len()
            invariant
                i <= deliveries.len(),
                self.wf(),
                self.model().resume == resume0,
                self.model().seen == seen0.union(row_cursor_texts(deliveries@.take(i as int))),
                opt_cursor_text(latest) == first_row_cursor(deliveries@.take(i as int)),
            decreases deliveries.len() - i,
        {
            proof {
                lemma_first_row_cursor_extend(deliveries@, i as int);
                assert(row_cursor_texts(deliveries@.take(i + 1)) =~= row_cursor_texts(
                    deliveries@.take(i as int),
                ).union(
                    match deliveries@[i as int].cursor_text() {
                        Some(t) => Set::empty().insert(t),
                        None => Set::empty(),
                    },
                )) by {
                    assert forall|t: Seq<char>|
                        row_cursor_texts(deliveries@.take(i + 1)).contains(t) implies row_cursor_texts(
                            deliveries@.take(i as int),
                        ).contains(t) || deliveries@[i as int].cursor_text() == Some(t) by {
                        let k = choose|k: int|
                            0 <= k < deliveries@.take(i + 1).len() && (
                            #[trigger] deliveries@.take(i + 1)[k]).cursor_text() == Some(t);
                        if k < i {
                            assert(deliveries@.take(i as int)[k] == deliveries@.take(i + 1)[k]);
                        }
                    }
                    assert forall|t: Seq<char>|
                        row_cursor_texts(deliveries@.take(i as int)).contains(t) implies row_cursor_texts(
                            deliveries@.take(i + 1),
                        ).contains(t) by {
                        let k = choose|k: int|
                            0 <= k < deliveries@.take(i as int).len() && (
                            #[trigger] deliveries@.take(i as int)[k]).cursor_text() == Some(t);
                        assert(deliveries@.take(i + 1)[k] == deliveries@.take(i as int)[k]);
                    }
                    if deliveries@[i as int].cursor_text() is Some {
                        assert(deliveries@.take(i + 1)[i as int] == deliveries@[i as int]);
                    }
                }
            }
            match deliveries[i].cursor() {
                Some(c) => {
                    if latest.is_none() {
                        latest = Some(c.clone());
                    }
                    let _ = self.insert_seen(c.clone());
                },
                None => {},
            }
            proof {
                let s = seen0.union(row_cursor_texts(deliveries@.take(i + 1)));
                assert(self.model().seen =~= s);
            }
            i = i + 1;
        }
        proof {
            assert(deliveries@.take(deliveries@.len() as int) =~= deliveries@);
        }
        if self.resume_cursor.is_none() {
            self.resume_cursor = latest;
        }
    }

    /// Applies stream frames in order and returns the delivery rows that should be inserted,
    /// in arrival order (see `step_frame`).
    pub fn accept_frames(&mut self, frames: Vec<DeliveryStreamFrame>) -> (r: Vec<DeliveryListItem>)
        requires
            old(self).wf(),
        ensures
            final(self).wf(),
            (final(self).model(), r@) == accept_spec(old(self).model(), frames@),
    {
        let ghost m0 = self.model();
        let ghost all = frames@;
        let mut deliveries: Vec<DeliveryListItem> = Vec::new();
        for frame in it: frames
            invariant
                self.wf(),
                it.seq() == all,
                (self.model(), deliveries@) == accept_spec(m0, all.take(it.index() as int)),
        {
            let ghost idx = it.index() as int;
            proof {
                assert(all.take(idx + 1).drop_last() =~= all.take(idx));
                assert(all.take(idx + 1).last() == all[idx]);
                assert(frame == all[idx]);
            }
            let ghost m1 = accept_spec(m0, all.take(idx)).0;
            let ghost rows1 = accept_spec(m0, all.take(idx)).1;
            let ghost stepped = step_frame(m1, all[idx]);
            match frame {
                DeliveryStreamFrame::Connected => {},
                DeliveryStreamFrame::Cursor(cursor) => {
                    self.resume_cursor = Some(cursor);
                    proof {
                        assert(self.model().seen =~= m1.seen);
                        assert(self.model() == stepped.0);
                    }
                },
                DeliveryStreamFrame::Delivery { cursor, item } => {
                    let chosen = match cursor {
                        Some(c) => Some(c),
                        None => match item.cursor() {
                            Some(c) => Some(c.clone()),
                            None => None,
                        },
                    };
                    proof {
                        assert(opt_cursor_text(chosen) == frame_cursor_text(all[idx]));
                    }
                    match chosen {
                        Some(c) => {
                            if self.insert_seen(c.clone()) {
                                self.resume_cursor = Some(c);
                                deliveries.push(item);
                                proof {
                                    assert(self.model().seen =~= m1.seen.insert(c.text()));
                                    assert(self.model() == stepped.0);
                                    assert(deliveries@ =~= rows1.push(item));
                                }
                            } else {
                                proof {
                                    assert(self.model().seen =~= m1.seen);
                                    assert(self.model() == stepped.0);
                                }
                            }
                        },
                        None => {
                            deliveries.push(item);
                            proof {
                                assert(deliveries@ =~= rows1.push(item));
                            }
                        },
                    }
                },
            }
        }
        proof {
            assert(all.take(all.len() as int) =~= all);
        }
        deliveries
    }
}

proof fn lemma_first_row_cursor_extend(rows: Seq<DeliveryListItem>, i: int)
    requires
        0 <= i < rows.len(),
    ensures
        first_row_cursor(rows.take(i + 1)) == match first_row_cursor(rows.take(i)) {
            Some(t) => Some(t),
            None => rows[i].cursor_text(),
        },
    decreases i,
{
    let a = rows.take(i + 1);
    let b = rows.take(i);
    assert(a[0] == rows[0]);
    if i == 0 {
        assert(a.drop_first().len() == 0);
        assert(first_row_cursor(a.drop_first()) is None);
        assert(b.len() == 0);
    } else {
        lemma_first_row_cursor_extend(rows.drop_first(), i - 1);
        assert(a.drop_first() =~= rows.drop_first().take(i));
        assert(b.drop_first() =~= rows.drop_first().take(i - 1));
        assert(b[0] == rows[0]);
        assert(rows.drop_first()[i - 1] == rows[i]);
    }
}

/// Seen cursors only grow, and every delivery-frame cursor of a batch is seen afterwards.
pub proof fn lemma_accept_records_cursors(m: SessionModel, frames: Seq<DeliveryStreamFrame>)
    ensures
        m.seen.union(delivery_cursor_texts(frames)).subset_of(accept_spec(m, frames).0.seen),
    decreases frames.len(),
{
    if frames.len() > 0 {
        let init = frames.drop_last();
        lemma_accept_records_cursors(m, init);
        let m1 = accept_spec(m, init).0;
        assert forall|t: Seq<char>| m.seen.union(delivery_cursor_texts(frames)).contains(t) implies accept_spec(
            m,
            frames,
        ).0.seen.contains(t) by {
            if !m.seen.contains(t) {
                let i = choose|i: int|
                    0 <= i < frames.len() && (#[trigger] frames[i]) is Delivery && frame_cursor_text(
                        frames[i],
                    ) == Some(t);
                if i < frames.len() - 1 {
                    assert(init[i] == frames[i]);
                    assert(delivery_cursor_texts(init).contains(t));
                }
            }
        }
    }
}

/// When every delivery-frame cursor of a batch is already seen, the batch delivers exactly
/// its cursor-less rows.
pub proof fn lemma_accept_all_seen(m: SessionModel, frames: Seq<DeliveryStreamFrame>)
    requires
        delivery_cursor_texts(frames).subset_of(m.seen),
    ensures
        accept_spec(m, frames).1 == uncursored_rows(frames),
        accept_spec(m, frames).0.seen == m.seen,
    decreases frames.len(),
{
    if frames.len() > 0 {
        let init = frames.drop_last();
        assert forall|t: Seq<char>| delivery_cursor_texts(init).contains(t) implies m.seen.contains(t) by {
            let i = choose|i: int|
                0 <= i < init.len() && (#[trigger] init[i]) is Delivery && frame_cursor_text(init[i])
                    == Some(t);
            assert(frames[i] == init[i]);
            assert(delivery_cursor_texts(frames).contains(t));
        }
        lemma_accept_all_seen(m, init);
        let last = frames.last();
        if last is Delivery && frame_cursor_text(last) is Some {
            assert(frames[frames.len() - 1] == last);
            assert(delivery_cursor_texts(frames).contains(frame_cursor_text(last)->0));
        }
    }
}

/// Replaying a batch of frames after it was accepted inserts none of its cursor-bearing
/// deliveries again: only the deliveries that carry no cursor at all come through.
pub proof fn law_replayed_frames_are_suppressed(m: SessionModel, frames: Seq<DeliveryStreamFrame>)
    ensures
        accept_spec(accept_spec(m, frames).0, frames).1 == uncursored_rows(frames),
{
    lemma_accept_records_cursors(m, frames);
    lemma_accept_all_seen(accept_spec(m, frames).0, frames);
}

/// Tracks reconnect checkpoints for the long-lived delivery stream worker.
#[derive(Debug, PartialEq, Eq)]
pub struct DeliveryStreamReconnect {
    resume_cursor: Option<StreamCursor>,
    received_frame: bool,
}

impl DeliveryStreamReconnect {
    /// Cursor the next attempt resumes after.
    pub closed spec fn resume_text(&self) -> Option<Seq<char>> {
        opt_cursor_text(self.resume_cursor)
    }

    /// Whether the current attempt received any frame.
    pub closed spec fn got_frame(&self) -> bool {
        self.received_frame
    }

    /// Starts tracking from the cursor the first attempt resumes after.
    pub fn new(initial_after: Option<StreamCursor>) -> (r: Self)
        ensures
            r.resume_text() == opt_cursor_text(initial_after),
            !r.got_frame(),
    {
        DeliveryStreamReconnect { resume_cursor: initial_after, received_frame: false }
    }

    /// Begins a connection attempt and returns the cursor to resume after.
    pub fn begin_attempt(&mut self) -> (r: Option<StreamCursor>)
        ensures
            opt_cursor_text(r) == old(self).resume_text(),
            final(self).resume_text() == old(self).resume_text(),
            !final(self).got_frame(),
    {
        self.received_frame = false;
        self.resume_cursor.clone()
    }

    /// Records a received frame: its cursor, if any, becomes the resume cursor.
    pub fn accept_frame(&mut self, frame: &DeliveryStreamFrame)
        ensures
            final(self).resume_text() == match frame_cursor_text(*frame) {
                Some(t) => Some(t),
                None => old(self).resume_text(),
            },
            final(self).got_frame(),
    {
        if let Some(cursor) = frame_cursor(frame) {
            self.resume_cursor = Some(cursor);
        }
        self.received_frame = true;
    }

    /// Whether the current attempt received any frame.
    pub fn received_frame(&self) -> (r: bool)
        ensures
            r == self.got_frame(),
    {
        self.received_frame
    }
}

/// Returns the cursor a frame carries (see `frame_cursor_text`).
pub fn frame_cursor(frame: &DeliveryStreamFrame) -> (r: Option<StreamCursor>)
    ensures
        opt_cursor_text(r) == frame_cursor_text(*frame),
{
    match frame {
        DeliveryStreamFrame::Connected => None,
        DeliveryStreamFrame::Cursor(c) => Some(c.clone()),
        DeliveryStreamFrame::Delivery { cursor, item } => match cursor {
            Some(c) => Some(c.clone()),
            None => match item.cursor() {
                Some(c) => Some(c.clone()),
                None => None,
            },
        },
    }
}

} // verus!
