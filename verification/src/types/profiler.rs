use vstd::prelude::*;
use std::time::{Duration, Instant};
use crate::types::clock::{elapsed_since, now, zero_duration};

verus! {

/// A named measure: when it started and how long it took.
pub struct RecordData {
    pub name: String,
    pub start: Instant,
    pub elapsed: Duration,
}

impl Clone for RecordData {
    fn clone(&self) -> (r: Self)
        ensures
            r == *self,
    {
        RecordData { name: self.name.clone(), start: self.start, elapsed: self.elapsed }
    }
}

impl RecordData {
    pub fn duration(&self) -> (r: &Duration)
        ensures
            *r == self.elapsed,
    {
        &self.elapsed
    }
}

/// The measures of the past frames, and of the current frame while profiling is enabled.
pub struct ProfilerState {
    pub history: Seq<Seq<RecordData>>,
    pub current: Option<Seq<RecordData>>,
}

impl ProfilerState {
    /// A new frame: the current frame's measures go to the history and a new frame starts;
    /// nothing happens while profiling is disabled.
    pub open spec fn after_new_frame(self) -> ProfilerState {
        match self.current {
            Some(c) => ProfilerState { history: self.history.push(c), current: Some(Seq::empty()) },
            None => self,
        }
    }

    /// Enabling starts an empty current frame; disabling drops it.
    pub open spec fn after_enable(self, enabled: bool) -> ProfilerState {
        ProfilerState {
            history: self.history,
            current: if enabled { Some(Seq::empty()) } else { None },
        }
    }

    /// Clearing forgets the history and the current frame's measures, and keeps profiling
    /// enabled or disabled.
    pub open spec fn after_clear(self) -> ProfilerState {
        ProfilerState {
            history: Seq::empty(),
            current: if self.current is Some { Some(Seq::empty()) } else { None },
        }
    }

    /// A measure that ends joins the current frame, when profiling is enabled.
    pub open spec fn after_end(self, data: RecordData) -> ProfilerState {
        match self.current {
            Some(c) => ProfilerState { history: self.history, current: Some(c.push(data)) },
            None => self,
        }
    }

    /// The measures of the current frame (none while disabled).
    pub open spec fn current_records(self) -> Seq<RecordData> {
        match self.current {
            Some(c) => c,
            None => Seq::empty(),
        }
    }
}

/// Collects named time measures frame by frame.
pub struct Profiler {
    history: Vec<Vec<RecordData>>,
    current_frame: Option<Vec<RecordData>>,
}

impl Profiler {
    pub closed spec fn spec_state(&self) -> ProfilerState {
        ProfilerState {
            history: self.history@.map_values(|f: Vec<RecordData>| f@),
            current: match self.current_frame {
                Some(c) => Some(c@),
                None => None,
            },
        }
    }

    /// A disabled profiler with no history.
    pub fn new() -> (r: Profiler)
        ensures
            r.spec_state() == (ProfilerState { history: Seq::empty(), current: None }),
    {
        let r = Profiler { history: Vec::new(), current_frame: None };
        assert(r.spec_state().history =~= Seq::<Seq<RecordData>>::empty());
        r
    }

    /// Moves the current frame's measures to the history and starts a new frame.
    pub fn new_frame(&mut self)
        ensures
            final(self).spec_state() == old(self).spec_state().after_new_frame(),
    {
        match self.current_frame.take() {
            Some(current) => {
                self.history.push(current);
                self.current_frame = Some(Vec::new());
                assert(self.spec_state().history =~= old(self).spec_state().history.push(
                    old(self).current_frame.unwrap()@,
                ));
                assert(self.spec_state().current.unwrap() =~= Seq::<RecordData>::empty());
            },
            None => {},
        }
    }

    /// Starts a measure named `name`; it joins the current frame when it ends.
    pub fn record(&self, name: &str) -> (r: Record)
        ensures
            r.spec_data() matches Some(d) && d.name@ == name@,
    {
        Record {
            data: Some(RecordData { name: name.to_owned(), start: now(), elapsed: zero_duration() }),
        }
    }

    /// Enables or disables profiling; either way the current frame starts empty.
    pub fn enable(&mut self, enabled: bool)
        ensures
            final(self).spec_state() == old(self).spec_state().after_enable(enabled),
    {
        if enabled {
            self.current_frame = Some(Vec::new());
        } else {
            self.current_frame = None;
        }
        assert(self.spec_state().history == old(self).spec_state().history);
        if enabled {
            assert(self.spec_state().current.unwrap() =~= Seq::<RecordData>::empty());
        }
    }

    /// The measures of the past frames, oldest first.
    pub fn history(&self) -> (r: &Vec<Vec<RecordData>>)
        ensures
            r@.map_values(|f: Vec<RecordData>| f@) == self.spec_state().history,
    {
        &self.history
    }

    /// A copy of the current frame's measures (none while disabled).
    pub fn current(&self) -> (r: Vec<RecordData>)
        ensures
            r@ == self.spec_state().current_records(),
    {
        match &self.current_frame {
            Some(data) => {
                let mut out: Vec<RecordData> = Vec::new();
                let mut i: usize = 0;
                while i < data.len()
                    invariant
                        i <= data.len(),
                        out@ =~= data@.take(i as int),
                    decreases data.len() - i,
                {
                    out.push(data[i].clone());
                    i = i + 1;
                }
                assert(data@.take(data.len() as int) =~= data@);
                out
            },
            None => Vec::new(),
        }
    }

    /// Forgets the history and the current frame's measures.
    pub fn clear(&mut self)
        ensures
            final(self).spec_state() == old(self).spec_state().after_clear(),
    {
        self.history = Vec::new();
        if self.current_frame.is_some() {
            self.current_frame = Some(Vec::new());
        }
        assert(self.spec_state().history =~= Seq::<Seq<RecordData>>::empty());
        if self.current_frame.is_some() {
            assert(self.spec_state().current.unwrap() =~= Seq::<RecordData>::empty());
        }
    }
}

impl Default for Profiler {
    fn default() -> (r: Self)
        ensures
            r.spec_state() == (ProfilerState { history: Seq::empty(), current: None }),
    {
        Profiler::new()
    }
}

/// A measure in progress.
pub struct Record {
    data: Option<RecordData>,
}

impl Record {
    pub closed spec fn spec_data(&self) -> Option<RecordData> {
        self.data
    }

    /// Ends the measure: its elapsed time is taken now and it joins the current frame of
    /// `profiler` when profiling is enabled.
    pub fn end(self, profiler: &mut Profiler)
        ensures
            match self.spec_data() {
                Some(d) => exists|e: Duration| #[trigger] old(profiler).spec_state().after_end(RecordData { name: d.name, start: d.start, elapsed: e })
                    == final(profiler).spec_state(),
                None => final(profiler).spec_state() == old(profiler).spec_state(),
            },
    {
        let ghost sd = self.data;
        let mut this = self;
        if let Some(mut data) = this.data.take() {
            data.elapsed = elapsed_since(&data.start);
            let ghost d = data;
            if let Some(current_frame) = &mut profiler.current_frame {
                current_frame.push(data);
            }
            proof {
                let w = RecordData { name: sd.unwrap().name, start: sd.unwrap().start, elapsed: d.elapsed };
                assert(w == d);
                if old(profiler).current_frame is Some {
                    assert(profiler.spec_state().current.unwrap() =~= old(profiler).spec_state().current.unwrap().push(d));
                }
                assert(old(profiler).spec_state().after_end(w) == profiler.spec_state());
            }
        }
    }
}

/// The state after the measures `ds` end one after the other.
pub open spec fn after_ends(state: ProfilerState, ds: Seq<RecordData>) -> ProfilerState
    decreases ds.len(),
{
    if ds.len() == 0 {
        state
    } else {
        after_ends(state, ds.drop_last()).after_end(ds.last())
    }
}

/// A disabled profiler ignores new frames and ending measures.
pub proof fn lemma_disabled_is_inert(state: ProfilerState, d: RecordData)
    requires
        state.current is None,
    ensures
        state.after_new_frame() == state,
        state.after_end(d) == state,
        state.current_records() == Seq::<RecordData>::empty(),
{
}

/// Clearing empties the history and the current frame, and keeps the profiler enabled or
/// disabled.
pub proof fn lemma_clear_keeps_mode(state: ProfilerState)
    ensures
        state.after_clear().history == Seq::<Seq<RecordData>>::empty(),
        state.after_clear().current is Some <==> state.current is Some,
        state.after_clear().current_records() == Seq::<RecordData>::empty(),
{
}

/// Enabling or disabling leaves the current frame without measures and the history as it was.
pub proof fn lemma_enable_starts_empty(state: ProfilerState, enabled: bool)
    ensures
        state.after_enable(enabled).current_records() == Seq::<RecordData>::empty(),
        state.after_enable(enabled).history == state.history,
        state.after_enable(enabled).current is Some <==> enabled,
{
}

/// While enabled, the measures that end during a frame are, in the order they ended, the
/// frame that the next new frame adds to the history; the new frame starts empty.
pub proof fn lemma_frame_collects(state: ProfilerState, ds: Seq<RecordData>)
    requires
        state.current is Some,
    ensures
        after_ends(state, ds).current == Some(state.current_records() + ds),
        after_ends(state, ds).history == state.history,
        after_ends(state, ds).after_new_frame() == (ProfilerState {
            history: state.history.push(state.current_records() + ds),
            current: Some(Seq::empty()),
        }),
    decreases ds.len(),
{
    if ds.len() == 0 {
        assert(state.current_records() + ds =~= state.current_records());
    } else {
        lemma_frame_collects(state, ds.drop_last());
        assert(state.current_records() + ds =~= (state.current_records() + ds.drop_last()).push(ds.last()));
    }
}

} // verus!
