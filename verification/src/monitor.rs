//! The state holder: the latest frame, and a rolling hour of five-minute
//! buckets with the running sums of the frames that fell into each.
//!
//! A bucket is found from the time alone, `(seconds / 300) mod 12`, so an hour
//! later the same bucket comes round again. Nothing sweeps the window: a bucket
//! is emptied when the first frame of a new five minutes falls into it.
//!
//! The holder is a plain value with one owner. Whoever shares it puts it
//! behind a lock or a mailbox, so that recordings follow one another and a
//! query sees a recording whole or not at all.

use crate::clock::unix_seconds;
use crate::frame::Frame;
use crate::stats::{FrameStats, Totals};
use vstd::prelude::*;

verus! {

/// Seconds that one bucket covers.
pub const BUCKET_SECONDS: u64 = 300;

/// Buckets in the window.
pub const BUCKET_COUNT: usize = 12;

/// The bucket into which a frame falls that arrives `now_secs` seconds after
/// the Unix epoch.
pub open spec fn bucket_of(now_secs: int) -> int {
    (now_secs / 300) % 12
}

/// What a monitor holds.
pub struct MonitorState {
    /// The frame recorded last.
    pub last_frame: Option<Frame>,
    /// The bucket into which it fell.
    pub last_bucket: Option<int>,
    /// The 12 buckets: the totals of each, or `None` for one that no frame
    /// has fallen into.
    pub window: Seq<Option<Totals>>,
}

impl MonitorState {
    /// The state before any frame: no frame, and 12 empty buckets.
    pub open spec fn empty() -> MonitorState {
        MonitorState {
            last_frame: None,
            last_bucket: None,
            window: Seq::new(12, |i: int| None::<Totals>),
        }
    }

    /// There are 12 buckets, the bucket written last is one of them and is
    /// populated, and the totals of a populated bucket count a frame at least
    /// and fit an accumulator.
    pub open spec fn wf(self) -> bool {
        &&& self.window.len() == 12
        &&& self.last_bucket matches Some(b) ==> 0 <= b < 12 && self.window[b] is Some
        &&& forall|i: int|
            0 <= i < 12 ==> (#[trigger] self.window[i] matches Some(t) ==> t.samples >= 1
                && t.fits())
    }

    /// A frame that arrives at `now_secs` falls into the bucket written last,
    /// and so adds to it.
    pub open spec fn merges(self, now_secs: int) -> bool {
        self.last_bucket == Some(bucket_of(now_secs))
    }

    /// The totals of the bucket written last still fit an accumulator with
    /// `frame` added.
    pub open spec fn has_room(self, frame: Frame) -> bool {
        self.last_bucket matches Some(b) ==> self.window[b].unwrap().plus(
            Totals::of_frame(frame),
        ).fits()
    }

    /// The state after `frame` is recorded at `now_secs`.
    ///
    /// In the bucket written last the frame adds to the totals. In any other
    /// bucket it starts the totals anew, whatever the bucket held. The other
    /// buckets stay as they are.
    pub open spec fn ingest(self, frame: Frame, now_secs: int) -> MonitorState {
        let b = bucket_of(now_secs);
        let totals = if self.merges(now_secs) {
            self.window[b].unwrap().plus(Totals::of_frame(frame))
        } else {
            Totals::of_frame(frame)
        };
        MonitorState {
            last_frame: Some(frame),
            last_bucket: Some(b),
            window: self.window.update(b, Some(totals)),
        }
    }
}

/// What an accumulator slot stands for.
pub open spec fn slot_totals(slot: Option<FrameStats>) -> Option<Totals> {
    match slot {
        Some(stats) => Some(stats@),
        None => None,
    }
}

/// The holder of the latest frame and of the rolling window.
pub struct Monitor {
    last_frame: Option<Frame>,
    last_5m_slot: Option<usize>,
    slots_5m: Vec<Option<FrameStats>>,
}

/// Asks a monitor to record the frame it carries.
#[derive(Clone, Copy, Debug)]
pub struct NewFrame(pub Frame);

/// Asks a monitor for the frame it recorded last.
#[derive(Clone, Copy, Debug)]
pub struct GetLastFrame;

impl View for Monitor {
    type V = MonitorState;

    closed spec fn view(&self) -> MonitorState {
        MonitorState {
            last_frame: self.last_frame,
            last_bucket: match self.last_5m_slot {
                Some(b) => Some(b as int),
                None => None,
            },
            window: self.slots_5m@.map_values(|slot: Option<FrameStats>| slot_totals(slot)),
        }
    }
}

/// The bucket into which a frame falls that arrives `now_secs` seconds after
/// the Unix epoch.
pub fn bucket_index(now_secs: u64) -> (bucket: usize)
    ensures
        bucket == bucket_of(now_secs as int),
        bucket < 12,
{
    (now_secs / BUCKET_SECONDS % 12) as usize
}

impl Monitor {
    #[verifier::type_invariant]
    spec fn inv(&self) -> bool {
        &&& self.slots_5m@.len() == 12
        &&& self.last_5m_slot matches Some(b) ==> b < 12 && self.slots_5m@[b as int] is Some
        &&& forall|i: int|
            0 <= i < 12 ==> (#[trigger] self.slots_5m@[i] matches Some(stats) ==> stats.samples
                >= 1)
    }

    /// What the invariant says of the fields, said of the state.
    proof fn lemma_inv_is_wf(&self)
        requires
            self.inv(),
        ensures
            self@.wf(),
    {
        assert forall|i: int| 0 <= i < 12 implies (#[trigger] self@.window[i] matches Some(t)
            ==> t.samples >= 1 && t.fits()) by {
            assert(self@.window[i] == slot_totals(self.slots_5m@[i]));
        }
    }

    /// A monitor that has recorded nothing.
    pub fn new() -> (monitor: Monitor)
        ensures
            monitor@ == MonitorState::empty(),
    {
        let mut slots_5m: Vec<Option<FrameStats>> = Vec::new();
        let mut i: usize = 0;
        while i < BUCKET_COUNT
            invariant
                i <= 12,
                slots_5m@.len() == i,
                forall|j: int| 0 <= j < i ==> slots_5m@[j] is None,
            decreases 12 - i,
        {
            slots_5m.push(None);
            i = i + 1;
        }
        let monitor = Monitor { last_frame: None, last_5m_slot: None, slots_5m };
        assert(monitor@.window =~= MonitorState::empty().window);
        monitor
    }

    /// Whether `frame` can be recorded at any time: the totals of the bucket
    /// written last have room for it.
    pub fn has_room(&self, frame: &Frame) -> (room: bool)
        ensures
            room == self@.has_room(*frame),
            self@.wf(),
    {
        proof {
            use_type_invariant(self);
            self.lemma_inv_is_wf();
        }
        match self.last_5m_slot {
            Some(b) => match self.slots_5m[b] {
                Some(stats) => stats.has_room(frame),
                None => true,
            },
            None => true,
        }
    }

    /// Records `frame` as arrived `now_secs` seconds after the Unix epoch.
    ///
    /// Where the frame falls into the bucket written last, that bucket must
    /// have room for it.
    pub fn ingest_at(&mut self, frame: Frame, now_secs: u64)
        requires
            old(self)@.merges(now_secs as int) ==> old(self)@.has_room(frame),
        ensures
            final(self)@ == old(self)@.ingest(frame, now_secs as int),
            final(self)@.wf(),
    {
        proof {
            use_type_invariant(&*self);
            self.lemma_inv_is_wf();
        }
        let bucket: usize = bucket_index(now_secs);
        let merges: bool = match self.last_5m_slot {
            Some(last) => last == bucket,
            None => false,
        };
        let stats: FrameStats = if merges {
            match self.slots_5m[bucket] {
                Some(stats) => stats.add_frame(&frame),
                // The bucket written last is populated.
                None => vstd::pervasive::unreached(),
            }
        } else {
            FrameStats::from_frame(&frame)
        };
        let mut slots: Vec<Option<FrameStats>> = self.slots_5m.clone();
        slots.set(bucket, Some(stats));
        assert(slots@ =~= old(self).slots_5m@.update(bucket as int, Some(stats)));
        self.slots_5m = slots;
        self.last_frame = Some(frame);
        self.last_5m_slot = Some(bucket);
        proof {
            assert(self@.window =~= old(self)@.ingest(frame, now_secs as int).window);
            use_type_invariant(&*self);
            self.lemma_inv_is_wf();
        }
    }

    /// Records `frame` as arrived now, by the system clock, and returns the
    /// seconds since the Unix epoch that the clock gave. While the clock stands
    /// before the epoch nothing is recorded, and `None` is returned.
    ///
    /// The bucket written last must have room for the frame.
    pub fn ingest(&mut self, frame: Frame) -> (at: Option<u64>)
        requires
            old(self)@.has_room(frame),
        ensures
            match at {
                Some(now_secs) => final(self)@ == old(self)@.ingest(frame, now_secs as int),
                None => final(self)@ == old(self)@,
            },
            final(self)@.wf(),
    {
        proof {
            use_type_invariant(&*self);
            self.lemma_inv_is_wf();
        }
        match unix_seconds() {
            Some(now_secs) => {
                self.ingest_at(frame, now_secs);
                Some(now_secs)
            },
            None => None,
        }
    }

    /// The frame recorded last, or `None` before the first. The window is not
    /// touched.
    pub fn snapshot(&self) -> (frame: Option<Frame>)
        ensures
            frame == self@.last_frame,
    {
        self.last_frame
    }

    /// The bucket written last, or `None` before the first frame.
    pub fn last_bucket(&self) -> (bucket: Option<usize>)
        ensures
            match bucket {
                Some(b) => self@.last_bucket == Some(b as int),
                None => self@.last_bucket is None,
            },
    {
        self.last_5m_slot
    }

    /// The accumulator of the bucket `index`; `None` for a bucket that holds
    /// nothing, and for an index that is not one of the 12.
    pub fn bucket(&self, index: usize) -> (stats: Option<FrameStats>)
        ensures
            index < 12 ==> slot_totals(stats) == self@.window[index as int],
            index >= 12 ==> stats is None,
    {
        proof {
            use_type_invariant(self);
            self.lemma_inv_is_wf();
        }
        if index < BUCKET_COUNT {
            self.slots_5m[index]
        } else {
            None
        }
    }

    /// Answers a `NewFrame`: records the frame it carries, as `ingest` does.
    pub fn handle_new_frame(&mut self, msg: NewFrame) -> (at: Option<u64>)
        requires
            old(self)@.has_room(msg.0),
        ensures
            match at {
                Some(now_secs) => final(self)@ == old(self)@.ingest(msg.0, now_secs as int),
                None => final(self)@ == old(self)@,
            },
            final(self)@.wf(),
    {
        self.ingest(msg.0)
    }

    /// Answers a `GetLastFrame`: the frame recorded last, as `snapshot` gives
    /// it.
    pub fn handle_get_last_frame(&self, msg: GetLastFrame) -> (frame: Option<Frame>)
        ensures
            frame == self@.last_frame,
    {
        self.snapshot()
    }
}

/// Recording a frame keeps a state well-formed, where the totals have room.
pub proof fn lemma_ingest_keeps_wf(state: MonitorState, frame: Frame, now_secs: int)
    requires
        state.wf(),
        state.merges(now_secs) ==> state.has_room(frame),
    ensures
        state.ingest(frame, now_secs).wf(),
{
    let next = state.ingest(frame, now_secs);
    let b = bucket_of(now_secs);
    assert(0 <= b < 12);
    assert forall|i: int| 0 <= i < 12 implies (#[trigger] next.window[i] matches Some(t)
        ==> t.samples >= 1 && t.fits()) by {
        if i != b {
            assert(next.window[i] == state.window[i]);
        }
    }
}

/// A frame that falls into the bucket written last adds to it: the samples
/// grow by one and each sum by the frame's value. No other bucket changes.
pub proof fn lemma_same_bucket_accumulates(state: MonitorState, frame: Frame, now_secs: int)
    requires
        state.wf(),
        state.last_bucket == Some(bucket_of(now_secs)),
    ensures
        ({
            let b = bucket_of(now_secs);
            let before = state.window[b].unwrap();
            let after = state.ingest(frame, now_secs).window[b];
            &&& after is Some
            &&& after.unwrap().samples == before.samples + 1
            &&& after.unwrap().pm10_standard_sum == before.pm10_standard_sum + frame.pm10_standard
            &&& after.unwrap().pm25_standard_sum == before.pm25_standard_sum + frame.pm25_standard
        }),
        forall|i: int|
            0 <= i < 12 && i != bucket_of(now_secs) ==> state.ingest(frame, now_secs).window[i]
                == state.window[i],
{
}

/// Two frames in a row that fall into one bucket leave in it the first
/// frame's totals with the second frame added.
pub proof fn lemma_two_in_one_bucket(
    state: MonitorState,
    first: Frame,
    first_secs: int,
    second: Frame,
    second_secs: int,
)
    requires
        state.wf(),
        bucket_of(first_secs) == bucket_of(second_secs),
    ensures
        ({
            let b = bucket_of(first_secs);
            let one = state.ingest(first, first_secs);
            let two = one.ingest(second, second_secs);
            &&& two.window[b] == Some(one.window[b].unwrap().plus(Totals::of_frame(second)))
            &&& !state.merges(first_secs) ==> two.window[b] == Some(
                Totals::of_frame(first).plus(Totals::of_frame(second)),
            )
        }),
{
}

/// A frame that falls into another bucket than the one written last starts
/// that bucket anew: what the bucket held, if anything, is gone. No other
/// bucket changes.
pub proof fn lemma_new_bucket_overwrites(state: MonitorState, frame: Frame, now_secs: int)
    requires
        state.wf(),
        state.last_bucket != Some(bucket_of(now_secs)),
    ensures
        state.ingest(frame, now_secs).window[bucket_of(now_secs)] == Some(Totals::of_frame(frame)),
        forall|i: int|
            0 <= i < 12 && i != bucket_of(now_secs) ==> state.ingest(frame, now_secs).window[i]
                == state.window[i],
{
}

/// The latest frame is the one recorded last: none before the first, the
/// frame after one recording, the second after two.
pub proof fn lemma_snapshot_is_last_ingested(
    state: MonitorState,
    first: Frame,
    first_secs: int,
    second: Frame,
    second_secs: int,
)
    ensures
        MonitorState::empty().last_frame is None,
        state.ingest(first, first_secs).last_frame == Some(first),
        state.ingest(first, first_secs).ingest(second, second_secs).last_frame == Some(second),
{
}

/// The empty state is well-formed, and has room for any frame.
pub proof fn lemma_empty_is_wf(frame: Frame)
    ensures
        MonitorState::empty().wf(),
        MonitorState::empty().has_room(frame),
{
}

} // verus!
