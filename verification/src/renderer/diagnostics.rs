//! Renderer diagnostics: event snapshots and a bounded ring of recent
//! events, plus the world-sync rejection bookkeeping.

use std::collections::VecDeque;

use vstd::prelude::*;

use super::frame::RenderDiagnosticsSummary;
use super::lifecycle::executor::LifecycleExecutionAction;
use super::lifecycle::plan::RendererLifecycleEvent;

verus! {

/// Default number of events kept by the ring.
pub const RENDERER_DIAG_EVENT_CAPACITY: usize = 128;

/// Renderer state captured when an event is recorded.
#[derive(Debug, PartialEq, Eq)]
pub struct RendererDiagEventSnapshot {
    pub frame_index: u32,
    pub lifecycle_trace: Option<Vec<LifecycleExecutionAction>>,
    pub render_summary: Option<RenderDiagnosticsSummary>,
    pub render_trace_len: usize,
    pub resource_version_signature: u64,
    pub world_sync_reject_count: u32,
    pub last_world_sync_reject_reason: String,
    pub chunk_map_dropped_entries: u32,
}

/// A snapshot as plain values.
pub type SnapshotView = (
    u32,
    Option<Seq<LifecycleExecutionAction>>,
    Option<RenderDiagnosticsSummary>,
    usize,
    u64,
    u32,
    Seq<char>,
    u32,
);

impl View for RendererDiagEventSnapshot {
    type V = SnapshotView;

    open spec fn view(&self) -> SnapshotView {
        (
            self.frame_index,
            match self.lifecycle_trace {
                Some(t) => Some(t@),
                None => None,
            },
            self.render_summary,
            self.render_trace_len,
            self.resource_version_signature,
            self.world_sync_reject_count,
            self.last_world_sync_reject_reason@,
            self.chunk_map_dropped_entries,
        )
    }
}

impl Clone for RendererDiagEventSnapshot {
    fn clone(&self) -> (c: RendererDiagEventSnapshot)
        ensures
            c@ == self@,
    {
        let lifecycle_trace = match &self.lifecycle_trace {
            Some(t) => {
                let mut copy: Vec<LifecycleExecutionAction> = Vec::new();
                let mut i: usize = 0;
                while i < t.len()
                    invariant
                        i <= t@.len(),
                        copy@ == t@.take(i as int),
                    decreases t@.len() - i,
                {
                    copy.push(t[i]);
                    assert(t@.take(i + 1) =~= t@.take(i as int).push(t@[i as int]));
                    i += 1;
                }
                assert(t@.take(i as int) =~= t@);
                Some(copy)
            },
            None => None,
        };
        RendererDiagEventSnapshot {
            frame_index: self.frame_index,
            lifecycle_trace,
            render_summary: self.render_summary,
            render_trace_len: self.render_trace_len,
            resource_version_signature: self.resource_version_signature,
            world_sync_reject_count: self.world_sync_reject_count,
            last_world_sync_reject_reason: self.last_world_sync_reject_reason.clone(),
            chunk_map_dropped_entries: self.chunk_map_dropped_entries,
        }
    }
}

#[derive(Debug, PartialEq, Eq)]
pub enum RendererDiagEvent {
    SyncRejected(RendererDiagEventSnapshot),
    SyncSucceeded(RendererDiagEventSnapshot),
    Resize(RendererDiagEventSnapshot),
    Reconfigure(RendererDiagEventSnapshot),
    Render(RendererDiagEventSnapshot),
}

#[derive(Clone, Copy, Debug, PartialEq, Eq, Structural)]
pub enum RendererDiagEventKind {
    SyncRejected,
    SyncSucceeded,
    Resize,
    Reconfigure,
    Render,
}

impl RendererDiagEvent {
    pub open spec fn kind_of(&self) -> RendererDiagEventKind {
        match self {
            RendererDiagEvent::SyncRejected(_) => RendererDiagEventKind::SyncRejected,
            RendererDiagEvent::SyncSucceeded(_) => RendererDiagEventKind::SyncSucceeded,
            RendererDiagEvent::Resize(_) => RendererDiagEventKind::Resize,
            RendererDiagEvent::Reconfigure(_) => RendererDiagEventKind::Reconfigure,
            RendererDiagEvent::Render(_) => RendererDiagEventKind::Render,
        }
    }

    pub open spec fn snapshot_of(&self) -> RendererDiagEventSnapshot {
        match self {
            RendererDiagEvent::SyncRejected(s) => *s,
            RendererDiagEvent::SyncSucceeded(s) => *s,
            RendererDiagEvent::Resize(s) => *s,
            RendererDiagEvent::Reconfigure(s) => *s,
            RendererDiagEvent::Render(s) => *s,
        }
    }

    pub fn snapshot(&self) -> (s: &RendererDiagEventSnapshot)
        ensures
            *s == self.snapshot_of(),
    {
        match self {
            RendererDiagEvent::SyncRejected(s) => s,
            RendererDiagEvent::SyncSucceeded(s) => s,
            RendererDiagEvent::Resize(s) => s,
            RendererDiagEvent::Reconfigure(s) => s,
            RendererDiagEvent::Render(s) => s,
        }
    }

    pub fn kind(&self) -> (k: RendererDiagEventKind)
        ensures
            k == self.kind_of(),
    {
        match self {
            RendererDiagEvent::SyncRejected(_) => RendererDiagEventKind::SyncRejected,
            RendererDiagEvent::SyncSucceeded(_) => RendererDiagEventKind::SyncSucceeded,
            RendererDiagEvent::Resize(_) => RendererDiagEventKind::Resize,
            RendererDiagEvent::Reconfigure(_) => RendererDiagEventKind::Reconfigure,
            RendererDiagEvent::Render(_) => RendererDiagEventKind::Render,
        }
    }
}

impl View for RendererDiagEvent {
    type V = (RendererDiagEventKind, SnapshotView);

    open spec fn view(&self) -> (RendererDiagEventKind, SnapshotView) {
        (self.kind_of(), self.snapshot_of()@)
    }
}

impl Clone for RendererDiagEvent {
    fn clone(&self) -> (c: RendererDiagEvent)
        ensures
            c@ == self@,
    {
        match self {
            RendererDiagEvent::SyncRejected(s) => RendererDiagEvent::SyncRejected(s.clone()),
            RendererDiagEvent::SyncSucceeded(s) => RendererDiagEvent::SyncSucceeded(s.clone()),
            RendererDiagEvent::Resize(s) => RendererDiagEvent::Resize(s.clone()),
            RendererDiagEvent::Reconfigure(s) => RendererDiagEvent::Reconfigure(s.clone()),
            RendererDiagEvent::Render(s) => RendererDiagEvent::Render(s.clone()),
        }
    }
}

pub type EventView = (RendererDiagEventKind, SnapshotView);

/// The last `min(limit, len)` elements of a sequence.
pub open spec fn tail<T>(s: Seq<T>, limit: usize) -> Seq<T> {
    if limit >= s.len() {
        s
    } else {
        s.skip(s.len() - limit)
    }
}

/// Keeping the last `limit` events and then pushing one, again keeping
/// the last `limit`, keeps the last `limit` of everything pushed: a ring
/// always holds the newest events, oldest first.
pub proof fn law_ring_holds_latest<T>(pushed: Seq<T>, e: T, limit: usize)
    requires
        limit >= 1,
    ensures
        tail(tail(pushed, limit).push(e), limit) == tail(pushed.push(e), limit),
{
    let lhs = tail(tail(pushed, limit).push(e), limit);
    let rhs = tail(pushed.push(e), limit);
    assert(lhs.len() == rhs.len());
    assert forall|i: int| 0 <= i < lhs.len() implies lhs[i] == rhs[i] by {}
    assert(lhs =~= rhs);
}

/// Events of one kind, in order.
pub open spec fn of_kind(s: Seq<EventView>, kind: RendererDiagEventKind) -> Seq<EventView>
    decreases s.len(),
{
    if s.len() == 0 {
        seq![]
    } else {
        of_kind(s.drop_last(), kind) + (if s.last().0 == kind { seq![s.last()] } else { seq![] })
    }
}

/// Events recorded at or after `frame_index`, in order.
pub open spec fn since(s: Seq<EventView>, frame_index: u32) -> Seq<EventView>
    decreases s.len(),
{
    if s.len() == 0 {
        seq![]
    } else {
        since(s.drop_last(), frame_index) + (if s.last().1.0 >= frame_index { seq![s.last()] } else { seq![] })
    }
}

/// A bounded FIFO of recent diagnostic events: pushing into a full ring
/// drops the oldest event.
#[derive(Debug)]
pub struct RendererDiagEventRing {
    capacity: usize,
    entries: VecDeque<RendererDiagEvent>,
}

impl RendererDiagEventRing {
    pub closed spec fn cap(self) -> nat {
        self.capacity as nat
    }

    /// Events from oldest to newest.
    pub closed spec fn events(self) -> Seq<EventView> {
        self.entries@.map_values(|e: RendererDiagEvent| e@)
    }

    pub closed spec fn wf(self) -> bool {
        1 <= self.capacity && self.entries@.len() <= self.capacity
    }

    /// An empty ring holding at most `max(capacity, 1)` events.
    pub fn with_capacity(capacity: usize) -> (r: RendererDiagEventRing)
        ensures
            r.wf(),
            r.cap() == if capacity == 0 { 1 } else { capacity as nat },
            r.events() == Seq::<EventView>::empty(),
    {
        let capacity = if capacity == 0 { 1 } else { capacity };
        let r = RendererDiagEventRing { capacity, entries: VecDeque::new() };
        assert(r.events() =~= Seq::<EventView>::empty());
        r
    }

    /// Appends an event, dropping the oldest one when the ring is full.
    pub fn push(&mut self, event: RendererDiagEvent)
        requires
            old(self).wf(),
        ensures
            final(self).wf(),
            final(self).cap() == old(self).cap(),
            final(self).events() == if old(self).events().len() == old(self).cap() {
                old(self).events().drop_first().push(event@)
            } else {
                old(self).events().push(event@)
            },
            final(self).events() == tail(old(self).events().push(event@), old(self).cap() as usize),
    {
        let ghost ev = event@;
        if self.entries.len() == self.capacity {
            let _ = self.entries.pop_front();
        }
        self.entries.push_back(event);
        proof {
            let expected = if old(self).events().len() == old(self).cap() {
                old(self).events().drop_first().push(ev)
            } else {
                old(self).events().push(ev)
            };
            assert(self.events() =~= expected);
            assert(expected =~= tail(old(self).events().push(ev), old(self).cap() as usize));
        }
    }

    /// Number of events held.
    pub fn len(&self) -> (n: usize)
        ensures
            n == self.events().len(),
    {
        self.entries.len()
    }

    fn clone_range(&self, start: usize) -> (out: Vec<RendererDiagEvent>)
        requires
            start <= self.entries@.len(),
        ensures
            out@.map_values(|e: RendererDiagEvent| e@) == self.events().skip(start as int),
    {
        let mut out: Vec<RendererDiagEvent> = Vec::new();
        let mut i = start;
        while i < self.entries.len()
            invariant
                start <= i <= self.entries@.len(),
                out@.map_values(|e: RendererDiagEvent| e@) == self.events().subrange(start as int, i as int),
            decreases self.entries@.len() - i,
        {
            let e = self.entries[i].clone();
            let ghost before = out@;
            out.push(e);
            assert(out@.map_values(|e: RendererDiagEvent| e@) =~= before.map_values(|e: RendererDiagEvent| e@).push(e@));
            assert(self.events().subrange(start as int, i + 1) =~= self.events().subrange(start as int, i as int).push(self.events()[i as int]));
            i += 1;
        }
        assert(self.events().subrange(start as int, i as int) =~= self.events().skip(start as int));
        out
    }

    /// The last `limit` events (all when fewer), oldest first.
    pub fn recent(&self, limit: usize) -> (out: Vec<RendererDiagEvent>)
        ensures
            out@.map_values(|e: RendererDiagEvent| e@) == tail(self.events(), limit),
    {
        if limit == 0 {
            let out: Vec<RendererDiagEvent> = Vec::new();
            assert(out@.map_values(|e: RendererDiagEvent| e@) =~= tail(self.events(), limit));
            return out;
        }
        let len = self.entries.len();
        let skip = if len > limit { len - limit } else { 0 };
        let out = self.clone_range(skip);
        assert(self.events().skip(skip as int) =~= tail(self.events(), limit));
        out
    }

    fn filtered(&self, by_kind: bool, kind: RendererDiagEventKind, frame_index: u32) -> (out: Vec<RendererDiagEvent>)
        ensures
            out@.map_values(|e: RendererDiagEvent| e@) == if by_kind {
                of_kind(self.events(), kind)
            } else {
                since(self.events(), frame_index)
            },
    {
        let mut out: Vec<RendererDiagEvent> = Vec::new();
        let mut i: usize = 0;
        while i < self.entries.len()
            invariant
                i <= self.entries@.len(),
                out@.map_values(|e: RendererDiagEvent| e@) == if by_kind {
                    of_kind(self.events().take(i as int), kind)
                } else {
                    since(self.events().take(i as int), frame_index)
                },
            decreases self.entries@.len() - i,
        {
            let keep = if by_kind {
                self.entries[i].kind() == kind
            } else {
                self.entries[i].snapshot().frame_index >= frame_index
            };
            proof {
                let t = self.events().take(i + 1);
                assert(t.drop_last() =~= self.events().take(i as int));
                assert(t.last() == self.entries@[i as int]@);
            }
            if keep {
                let e = self.entries[i].clone();
                let ghost before = out@;
                out.push(e);
                assert(out@.map_values(|e: RendererDiagEvent| e@) =~= before.map_values(|e: RendererDiagEvent| e@).push(e@));
            }
            i += 1;
        }
        assert(self.events().take(i as int) =~= self.events());
        out
    }

    fn tail_of(v: Vec<RendererDiagEvent>, limit: usize) -> (out: Vec<RendererDiagEvent>)
        ensures
            out@.map_values(|e: RendererDiagEvent| e@) == tail(v@.map_values(|e: RendererDiagEvent| e@), limit),
    {
        let mut v = v;
        let len = v.len();
        if len <= limit {
            return v;
        }
        let skip = len - limit;
        let ghost full = v@;
        let rest = v.split_off(skip);
        assert(rest@ == full.skip(skip as int));
        proof {
            assert(rest@.map_values(|e: RendererDiagEvent| e@) =~= tail(full.map_values(|e: RendererDiagEvent| e@), limit));
        }
        rest
    }

    /// The last `limit` events of `kind`, oldest first.
    pub fn recent_by_kind(&self, limit: usize, kind: RendererDiagEventKind) -> (out: Vec<RendererDiagEvent>)
        ensures
            out@.map_values(|e: RendererDiagEvent| e@) == tail(of_kind(self.events(), kind), limit),
    {
        if limit == 0 {
            let out: Vec<RendererDiagEvent> = Vec::new();
            assert(out@.map_values(|e: RendererDiagEvent| e@) =~= tail(of_kind(self.events(), kind), limit));
            return out;
        }
        let filtered = self.filtered(true, kind, 0);
        Self::tail_of(filtered, limit)
    }

    /// The last `limit` events recorded at or after `frame_index`, oldest first.
    pub fn since_frame(&self, frame_index: u32, limit: usize) -> (out: Vec<RendererDiagEvent>)
        ensures
            out@.map_values(|e: RendererDiagEvent| e@) == tail(since(self.events(), frame_index), limit),
    {
        if limit == 0 {
            let out: Vec<RendererDiagEvent> = Vec::new();
            assert(out@.map_values(|e: RendererDiagEvent| e@) =~= tail(since(self.events(), frame_index), limit));
            return out;
        }
        let filtered = self.filtered(false, RendererDiagEventKind::Render, frame_index);
        Self::tail_of(filtered, limit)
    }
}

impl Default for RendererDiagEventRing {
    fn default() -> (r: RendererDiagEventRing)
        ensures
            r.wf(),
            r.cap() == RENDERER_DIAG_EVENT_CAPACITY,
            r.events() == Seq::<EventView>::empty(),
    {
        Self::with_capacity(RENDERER_DIAG_EVENT_CAPACITY)
    }
}

/// The renderer's latest lifecycle and render diagnostics.
#[derive(Debug, Clone)]
pub struct RendererDiagnostics {
    pub last_lifecycle_event: Option<RendererLifecycleEvent>,
    pub last_lifecycle_trace: Vec<LifecycleExecutionAction>,
    pub last_render_summary: RenderDiagnosticsSummary,
    pub last_render_trace_len: usize,
    pub world_sync_reject_count: u32,
    pub last_world_sync_reject_reason: String,
    pub chunk_map_dropped_entries: u32,
    pub resource_version_signature: u64,
}

/// The diagnostic event recording a lifecycle event: the variant named
/// after the event, carrying `snapshot`.
pub fn lifecycle_diag_event(event: RendererLifecycleEvent, snapshot: RendererDiagEventSnapshot) -> (e: RendererDiagEvent)
    ensures
        e.snapshot_of() == snapshot,
        e.kind_of() == (match event {
            RendererLifecycleEvent::SyncRejected => RendererDiagEventKind::SyncRejected,
            RendererLifecycleEvent::SyncSucceeded => RendererDiagEventKind::SyncSucceeded,
            RendererLifecycleEvent::Resize => RendererDiagEventKind::Resize,
            RendererLifecycleEvent::Reconfigure => RendererDiagEventKind::Reconfigure,
        }),
{
    match event {
        RendererLifecycleEvent::SyncRejected => RendererDiagEvent::SyncRejected(snapshot),
        RendererLifecycleEvent::SyncSucceeded => RendererDiagEvent::SyncSucceeded(snapshot),
        RendererLifecycleEvent::Resize => RendererDiagEvent::Resize(snapshot),
        RendererLifecycleEvent::Reconfigure => RendererDiagEvent::Reconfigure(snapshot),
    }
}

/// Records a rejected world sync: one more rejection (saturating) and its reason.
pub fn record_world_sync_rejection_state(reject_count: &mut u32, last_reason: &mut String, reason: &str)
    ensures
        *final(reject_count) == if *old(reject_count) == u32::MAX { u32::MAX } else { (*old(reject_count) + 1) as u32 },
        final(last_reason)@ == reason@,
{
    *reject_count = reject_count.saturating_add(1);
    *last_reason = reason.to_owned();
}

/// Records a successful world sync: the dropped chunk-map entries, and no
/// rejection reason.
pub fn record_world_sync_success_state(dropped_entries: &mut u32, last_reason: &mut String, dropped: u32)
    ensures
        *final(dropped_entries) == dropped,
        final(last_reason)@ == Seq::<char>::empty(),
{
    *dropped_entries = dropped;
    *last_reason = String::new();
}

} // verus!
