//! A slot for a sink that can be put in, replaced and taken out while the
//! pipeline runs.

use vstd::prelude::*;

verus! {

/// Why a sink could not be replaced.
#[derive(Clone, Copy, Debug, PartialEq, Eq, Structural)]
pub enum ReloadError {
    /// The pipeline that owns the slot has been torn down.
    PipelineGone,
}

/// What a slot holds.
pub enum SlotState<T> {
    /// Nothing: events that reach the slot are dropped there.
    Disabled,
    /// A sink, which gets the events that reach the slot.
    Enabled(T),
    /// Nothing, for good: the pipeline that owns the slot is torn down.
    Gone,
}

impl<T> SlotState<T> {
    /// The sink that gets the events, if there is one.
    pub open spec fn sink(self) -> Option<T> {
        match self {
            SlotState::Enabled(sink) => Some(sink),
            _ => None,
        }
    }

    /// The state in which a live slot holds `sink`.
    pub open spec fn holding(sink: Option<T>) -> SlotState<T> {
        match sink {
            Some(sink) => SlotState::Enabled(sink),
            None => SlotState::Disabled,
        }
    }

    /// The state after an attempt to put `sink` in: a slot that is gone
    /// stays gone, any other holds `sink`.
    pub open spec fn reloaded(self, sink: Option<T>) -> SlotState<T> {
        if self is Gone {
            self
        } else {
            SlotState::holding(sink)
        }
    }

    /// What the attempt hands back: what the slot held, or the error if the
    /// slot is gone.
    pub open spec fn reload_result(self) -> Result<Option<T>, ReloadError> {
        if self is Gone {
            Err(ReloadError::PipelineGone)
        } else {
            Ok(self.sink())
        }
    }
}

/// A slot that holds at most one sink of type `T`. It starts disabled. The
/// sink in it can be replaced at any time, until the pipeline is torn down.
pub struct SinkSlot<T> {
    state: SlotState<T>,
}

impl<T> View for SinkSlot<T> {
    type V = SlotState<T>;

    closed spec fn view(&self) -> SlotState<T> {
        self.state
    }
}

impl<T> SinkSlot<T> {
    /// A disabled slot of a live pipeline.
    pub fn new_disabled() -> (r: SinkSlot<T>)
        ensures
            r@ is Disabled,
    {
        SinkSlot { state: SlotState::Disabled }
    }

    pub fn is_enabled(&self) -> (r: bool)
        ensures
            r == (self@ is Enabled),
    {
        match &self.state {
            SlotState::Enabled(_) => true,
            _ => false,
        }
    }

    pub fn is_torn_down(&self) -> (r: bool)
        ensures
            r == (self@ is Gone),
    {
        match &self.state {
            SlotState::Gone => true,
            _ => false,
        }
    }

    /// The sink that an event goes to, if there is one.
    pub fn active(&self) -> (r: Option<&T>)
        ensures
            match r {
                Some(sink) => self@.sink() == Some(*sink),
                None => self@.sink() is None,
            },
    {
        match &self.state {
            SlotState::Enabled(sink) => Some(sink),
            _ => None,
        }
    }

    /// Puts `sink` in the place of what the slot holds and hands back what
    /// it held, so that the caller can release it. `None` disables the slot.
    /// Fails, and changes nothing, once the pipeline is torn down.
    pub fn reload(&mut self, sink: Option<T>) -> (r: Result<Option<T>, ReloadError>)
        ensures
            r == old(self)@.reload_result(),
            final(self)@ == old(self)@.reloaded(sink),
    {
        if self.is_torn_down() {
            return Err(ReloadError::PipelineGone);
        }
        let mut state = match sink {
            Some(sink) => SlotState::Enabled(sink),
            None => SlotState::Disabled,
        };
        std::mem::swap(&mut self.state, &mut state);
        match state {
            SlotState::Enabled(held) => Ok(Some(held)),
            _ => Ok(None),
        }
    }

    /// Empties the slot for good and hands back what it held. A second call
    /// hands back nothing.
    pub fn tear_down(&mut self) -> (r: Option<T>)
        ensures
            r == old(self)@.sink(),
            final(self)@ is Gone,
    {
        let mut state = SlotState::Gone;
        std::mem::swap(&mut self.state, &mut state);
        match state {
            SlotState::Enabled(held) => Some(held),
            _ => None,
        }
    }
}

/// A reload is seen by the next event and by no earlier one: right after
/// it, a live slot holds what was put in, and what it held before is handed
/// back, once. The slot holds one sink at most, so an event meets either the
/// old sink or the new, never both and never two.
pub proof fn lemma_reload_replaces<T>(state: SlotState<T>, sink: Option<T>)
    requires
        !(state is Gone),
    ensures
        state.reloaded(sink).sink() == sink,
        state.reload_result() == Ok::<Option<T>, ReloadError>(state.sink()),
        !(state.reloaded(sink) is Gone),
{
}

/// Once the pipeline is torn down every reload fails and leaves the slot as
/// it is.
pub proof fn lemma_reload_fails_when_gone<T>(state: SlotState<T>, sink: Option<T>)
    requires
        state is Gone,
    ensures
        state.reload_result() == Err::<Option<T>, ReloadError>(ReloadError::PipelineGone),
        state.reloaded(sink) == state,
        state.sink() is None,
{
}

} // verus!
