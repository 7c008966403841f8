//! The subscriber: four sinks in a fixed order, each behind its own filter.
//!
//! The terminal comes first and is always there. The log file and the
//! timeline trace start disabled and can be enabled, or replaced, at any
//! time. The remote trace export is there from the start. The subscriber
//! owns what keeps each optional sink alive and hands it back when the sink
//! is replaced or the pipeline shuts down.

use vstd::prelude::*;

use crate::clock::{is_timestamp, local_timestamp};
use crate::event::{Event, EventModel};
use crate::filter::{option_str_view, FilterModel, SeverityFilter};
use crate::formatter::{
    format_plain, needs_timestamp, plain_line, terminal_line, TurboFormatter,
};
use crate::level::Level;
use crate::otel::OtelConfig;
use crate::slot::{ReloadError, SinkSlot, SlotState};

verus! {

/// The sinks, in the order in which an event reaches them.
#[derive(Clone, Copy, Debug, PartialEq, Eq, Structural)]
pub enum Sink {
    Terminal,
    File,
    Timeline,
    Remote,
}

/// What one sink gets for one event, as mathematics.
pub enum DeliveryModel {
    Terminal(Seq<char>),
    File(Seq<char>),
    Timeline,
    Remote,
}

/// What one sink gets for one event: a line of text for the terminal and
/// for the log file, the event itself for the two trace sinks.
#[derive(Clone, Debug, PartialEq, Eq)]
pub enum Delivery {
    Terminal(String),
    File(String),
    Timeline,
    Remote,
}

impl View for Delivery {
    type V = DeliveryModel;

    open spec fn view(&self) -> DeliveryModel {
        match self {
            Delivery::Terminal(line) => DeliveryModel::Terminal(line@),
            Delivery::File(line) => DeliveryModel::File(line@),
            Delivery::Timeline => DeliveryModel::Timeline,
            Delivery::Remote => DeliveryModel::Remote,
        }
    }
}

impl DeliveryModel {
    pub open spec fn sink(self) -> Sink {
        match self {
            DeliveryModel::Terminal(_) => Sink::Terminal,
            DeliveryModel::File(_) => Sink::File,
            DeliveryModel::Timeline => Sink::Timeline,
            DeliveryModel::Remote => Sink::Remote,
        }
    }
}

/// The views of a list of deliveries, in order.
pub open spec fn deliveries_view(deliveries: Seq<Delivery>) -> Seq<DeliveryModel> {
    Seq::new(deliveries.len(), |i: int| deliveries[i]@)
}

/// One thing to do when the pipeline shuts down. The caller does them in
/// the order in which `shutdown` lists them.
#[derive(Debug, PartialEq, Eq)]
pub enum ShutdownStep<F, C, R> {
    /// Build the profiler's report and write it out.
    WriteProfile,
    /// Release the remote export client, which flushes it.
    ReleaseRemote(R),
    /// Shut the process-wide trace context down.
    ShutdownTraceContext,
    /// Release what keeps the log file's writer alive, which drains it.
    ReleaseFile(F),
    /// Release what keeps the timeline trace's writer alive.
    ReleaseTimeline(C),
}

/// Target prefix of the tool's own events.
pub open spec fn own_target() -> Seq<char> {
    "turborepo"@
}

/// The subscriber, as mathematics.
pub struct SubscriberModel<F, C, R> {
    pub verbosity: usize,
    pub is_ansi: bool,
    pub terminal_filter: FilterModel,
    pub file_filter: FilterModel,
    pub remote_filter: FilterModel,
    pub file: SlotState<F>,
    pub timeline: SlotState<C>,
    pub remote: SlotState<R>,
    pub profiling: bool,
    pub shut_down: bool,
}

impl<F, C, R> SubscriberModel<F, C, R> {
    /// A fresh pipeline. The terminal shows warnings and errors unless told
    /// otherwise; the log file takes informational events from everywhere
    /// and everything from the tool itself; the remote export takes
    /// informational events. The timeline trace has no filter.
    pub open spec fn new(
        verbosity: usize,
        is_ansi: bool,
        env: Option<Seq<char>>,
        remote: R,
        profiling: bool,
    ) -> SubscriberModel<F, C, R> {
        SubscriberModel {
            verbosity,
            is_ansi,
            terminal_filter: FilterModel::build(Level::Warn, verbosity, env),
            file_filter: FilterModel::compose(
                FilterModel::new(Level::Info).with_rule(own_target(), Level::Trace),
                verbosity,
                env,
            ),
            remote_filter: FilterModel::build(Level::Info, verbosity, env),
            file: SlotState::Disabled,
            timeline: SlotState::Disabled,
            remote: SlotState::Enabled(remote),
            profiling,
            shut_down: false,
        }
    }

    /// Whether `sink` gets an event of `level` from `target`: its filter
    /// lets the event through and, for an optional sink, its slot is
    /// enabled.
    pub open spec fn receives(self, sink: Sink, level: Level, target: Seq<char>) -> bool {
        match sink {
            Sink::Terminal => self.terminal_filter.admits(level, target),
            Sink::File => self.file is Enabled && self.file_filter.admits(level, target),
            Sink::Timeline => self.timeline is Enabled,
            Sink::Remote => self.remote is Enabled && self.remote_filter.admits(level, target),
        }
    }

    /// `sink` alone if it gets the event, nothing otherwise.
    pub open spec fn stage(self, sink: Sink, level: Level, target: Seq<char>) -> Seq<Sink> {
        if self.receives(sink, level, target) {
            seq![sink]
        } else {
            Seq::empty()
        }
    }

    /// The sinks that get the event, in pipeline order.
    pub open spec fn route(self, level: Level, target: Seq<char>) -> Seq<Sink> {
        self.stage(Sink::Terminal, level, target) + self.stage(Sink::File, level, target)
            + self.stage(Sink::Timeline, level, target) + self.stage(Sink::Remote, level, target)
    }

    /// What `sink` is handed for the event.
    pub open spec fn delivery(self, sink: Sink, event: EventModel, timestamp: Seq<char>)
        -> DeliveryModel {
        match sink {
            Sink::Terminal => DeliveryModel::Terminal(
                terminal_line(self.is_ansi, event, timestamp),
            ),
            Sink::File => DeliveryModel::File(plain_line(event, timestamp)),
            Sink::Timeline => DeliveryModel::Timeline,
            Sink::Remote => DeliveryModel::Remote,
        }
    }

    /// What the event causes: one delivery for each sink on its route.
    pub open spec fn deliveries(self, event: EventModel, timestamp: Seq<char>) -> Seq<
        DeliveryModel,
    > {
        let route = self.route(event.level, event.target);
        Seq::new(route.len(), |i: int| self.delivery(route[i], event, timestamp))
    }

    /// Whether some line for the event shows the time: the log file's
    /// always does, the terminal's does for debug and trace events.
    pub open spec fn shows_time(self, level: Level, target: Seq<char>) -> bool {
        self.receives(Sink::File, level, target) || (needs_timestamp(level) && self.receives(
            Sink::Terminal,
            level,
            target,
        ))
    }

    /// The pipeline after an attempt to enable the log file with `sink`.
    pub open spec fn with_file(self, sink: F) -> SubscriberModel<F, C, R> {
        SubscriberModel { file: self.file.reloaded(Some(sink)), ..self }
    }

    /// The pipeline after an attempt to enable the timeline trace with
    /// `sink`.
    pub open spec fn with_timeline(self, sink: C) -> SubscriberModel<F, C, R> {
        SubscriberModel { timeline: self.timeline.reloaded(Some(sink)), ..self }
    }

    /// What there is to do at shutdown, in order. Nothing, if it was done
    /// before.
    pub open spec fn shutdown_steps(self) -> Seq<ShutdownStep<F, C, R>> {
        if self.shut_down {
            Seq::empty()
        } else {
            (if self.profiling {
                seq![ShutdownStep::WriteProfile]
            } else {
                Seq::empty()
            }) + (match self.remote {
                SlotState::Enabled(remote) => seq![ShutdownStep::ReleaseRemote(remote)],
                _ => Seq::empty(),
            }) + seq![ShutdownStep::ShutdownTraceContext] + (match self.file {
                SlotState::Enabled(file) => seq![ShutdownStep::ReleaseFile(file)],
                _ => Seq::empty(),
            }) + (match self.timeline {
                SlotState::Enabled(timeline) => seq![ShutdownStep::ReleaseTimeline(timeline)],
                _ => Seq::empty(),
            })
        }
    }

    /// The pipeline after shutdown: every slot is gone.
    pub open spec fn after_shutdown(self) -> SubscriberModel<F, C, R> {
        SubscriberModel {
            file: SlotState::Gone,
            timeline: SlotState::Gone,
            remote: SlotState::Gone,
            shut_down: true,
            ..self
        }
    }
}

/// The subscriber. `F`, `C` and `R` are what keeps the log file, the
/// timeline trace and the remote export alive.
pub struct TurboSubscriber<F, C, R> {
    verbosity: usize,
    formatter: TurboFormatter,
    terminal_filter: SeverityFilter,
    file_filter: SeverityFilter,
    remote_filter: SeverityFilter,
    file: SinkSlot<F>,
    timeline: SinkSlot<C>,
    remote: SinkSlot<R>,
    profiling: bool,
    shut_down: bool,
}

impl<F, C, R> View for TurboSubscriber<F, C, R> {
    type V = SubscriberModel<F, C, R>;

    closed spec fn view(&self) -> SubscriberModel<F, C, R> {
        SubscriberModel {
            verbosity: self.verbosity,
            is_ansi: self.formatter.is_ansi(),
            terminal_filter: self.terminal_filter@,
            file_filter: self.file_filter@,
            remote_filter: self.remote_filter@,
            file: self.file@,
            timeline: self.timeline@,
            remote: self.remote@,
            profiling: self.profiling,
            shut_down: self.shut_down,
        }
    }
}

impl<F, C, R> TurboSubscriber<F, C, R> {
    /// Sets the pipeline up.
    ///
    /// - Colours are used unless `should_strip_ansi` says otherwise.
    /// - `env` is the directive string of the environment, if it is set.
    ///   Without it the terminal shows warnings and errors.
    /// - `verbosity`, where it is not 0, raises the default threshold of
    ///   every filter; it does not touch the rules for single targets.
    /// - `remote` keeps the remote export alive; the caller has built it.
    /// - `profiling` says whether a profiler runs beside the pipeline.
    pub fn new_with_verbosity(
        verbosity: usize,
        should_strip_ansi: bool,
        env: Option<&str>,
        remote: R,
        profiling: bool,
    ) -> (r: TurboSubscriber<F, C, R>)
        ensures
            r@ == SubscriberModel::<F, C, R>::new(
                verbosity,
                !should_strip_ansi,
                option_str_view(env),
                remote,
                profiling,
            ),
    {
        let terminal_filter = SeverityFilter::build(Level::Warn, verbosity, env);
        let mut file_base = SeverityFilter::new(Level::Info);
        file_base.set_rule("turborepo", Level::Trace);
        let file_filter = SeverityFilter::compose(file_base, verbosity, env);
        let remote_filter = SeverityFilter::build(Level::Info, verbosity, env);
        let mut remote_slot: SinkSlot<R> = SinkSlot::new_disabled();
        let _ = remote_slot.reload(Some(remote));
        TurboSubscriber {
            verbosity,
            formatter: TurboFormatter::new_with_ansi(!should_strip_ansi),
            terminal_filter,
            file_filter,
            remote_filter,
            file: SinkSlot::new_disabled(),
            timeline: SinkSlot::new_disabled(),
            remote: remote_slot,
            profiling,
            shut_down: false,
        }
    }

    pub fn verbosity(&self) -> (r: usize)
        ensures
            r == self@.verbosity,
    {
        self.verbosity
    }

    pub fn formatter(&self) -> (r: TurboFormatter)
        ensures
            r.is_ansi() == self@.is_ansi,
    {
        self.formatter
    }

    pub fn is_shut_down(&self) -> (r: bool)
        ensures
            r == self@.shut_down,
    {
        self.shut_down
    }

    /// What keeps the log file alive, if it is enabled.
    pub fn file_sink(&self) -> (r: Option<&F>)
        ensures
            match r {
                Some(sink) => self@.file.sink() == Some(*sink),
                None => self@.file.sink() is None,
            },
    {
        self.file.active()
    }

    /// What keeps the timeline trace alive, if it is enabled.
    pub fn timeline_sink(&self) -> (r: Option<&C>)
        ensures
            match r {
                Some(sink) => self@.timeline.sink() == Some(*sink),
                None => self@.timeline.sink() is None,
            },
    {
        self.timeline.active()
    }

    /// What keeps the remote export alive, until shutdown.
    pub fn remote_sink(&self) -> (r: Option<&R>)
        ensures
            match r {
                Some(sink) => self@.remote.sink() == Some(*sink),
                None => self@.remote.sink() is None,
            },
    {
        self.remote.active()
    }

    /// Enables logging to a file, or replaces the file that is logged to.
    /// `sink` keeps the new file's writer alive. What kept the previous one
    /// alive is handed back for release; from now on only the new file gets
    /// events. After shutdown this fails and changes nothing.
    pub fn set_daemon_logger(&mut self, sink: F) -> (r: Result<Option<F>, ReloadError>)
        ensures
            r == old(self)@.file.reload_result(),
            final(self)@ == old(self)@.with_file(sink),
    {
        self.file.reload(Some(sink))
    }

    /// Enables the timeline trace, or replaces the one that is written.
    /// Works as `set_daemon_logger` does.
    pub fn enable_chrome_tracing(&mut self, sink: C) -> (r: Result<Option<C>, ReloadError>)
        ensures
            r == old(self)@.timeline.reload_result(),
            final(self)@ == old(self)@.with_timeline(sink),
    {
        self.timeline.reload(Some(sink))
    }

    /// Accepts a configuration for the remote export and does nothing with
    /// it: the export runs as it was set up, whatever `config` holds.
    pub fn enable_opentelemetry_tracing(&self, config: &OtelConfig) -> (r: Result<(), ReloadError>)
        ensures
            r is Ok,
    {
        let _ = config;
        Ok(())
    }

    /// Whether `sink` gets an event of `level` from `target`.
    pub fn receives(&self, sink: Sink, level: Level, target: &str) -> (r: bool)
        ensures
            r == self@.receives(sink, level, target@),
    {
        match sink {
            Sink::Terminal => self.terminal_filter.allows(level, target),
            Sink::File => self.file.is_enabled() && self.file_filter.allows(level, target),
            Sink::Timeline => self.timeline.is_enabled(),
            Sink::Remote => self.remote.is_enabled() && self.remote_filter.allows(level, target),
        }
    }

    /// The sinks that get an event of `level` from `target`, in pipeline
    /// order.
    pub fn route(&self, level: Level, target: &str) -> (r: Vec<Sink>)
        ensures
            r@ == self@.route(level, target@),
    {
        let mut route: Vec<Sink> = Vec::new();
        if self.receives(Sink::Terminal, level, target) {
            route.push(Sink::Terminal);
        }
        if self.receives(Sink::File, level, target) {
            route.push(Sink::File);
        }
        if self.receives(Sink::Timeline, level, target) {
            route.push(Sink::Timeline);
        }
        if self.receives(Sink::Remote, level, target) {
            route.push(Sink::Remote);
        }
        assert(route@ =~= self@.route(level, target@));
        route
    }

    /// Runs `event` through the pipeline: for each sink on its route, what
    /// that sink is handed. `timestamp` is the local time as text.
    pub fn emit(&self, event: &Event, timestamp: &str) -> (r: Vec<Delivery>)
        ensures
            deliveries_view(r@) == self@.deliveries(event@, timestamp@),
    {
        let route = self.route(event.level, event.target.as_str());
        let mut out: Vec<Delivery> = Vec::new();
        let mut i: usize = 0;
        while i < route.len()
            invariant
                i <= route.len(),
                out.len() == i,
                route@ == self@.route(event@.level, event@.target),
                forall|j: int|
                    0 <= j < i ==> (#[trigger] out@[j])@ == self@.delivery(
                        route@[j],
                        event@,
                        timestamp@,
                    ),
            decreases route.len() - i,
        {
            let delivery = match route[i] {
                Sink::Terminal => {
                    let mut line = String::new();
                    self.formatter.format_event(&mut line, event, timestamp);
                    assert(line@ =~= terminal_line(self@.is_ansi, event@, timestamp@));
                    Delivery::Terminal(line)
                },
                Sink::File => {
                    let mut line = String::new();
                    format_plain(&mut line, event, timestamp);
                    assert(line@ =~= plain_line(event@, timestamp@));
                    Delivery::File(line)
                },
                Sink::Timeline => Delivery::Timeline,
                Sink::Remote => Delivery::Remote,
            };
            out.push(delivery);
            i += 1;
        }
        assert(deliveries_view(out@) =~= self@.deliveries(event@, timestamp@));
        out
    }

    /// Runs `event` through the pipeline with the time that the clock
    /// shows. The clock is read only if a line for the event shows the time;
    /// otherwise what the sinks get is the same whatever the time.
    pub fn emit_now(&self, event: &Event) -> (r: Vec<Delivery>)
        ensures
            exists|timestamp: Seq<char>|
                (self@.shows_time(event@.level, event@.target) ==> is_timestamp(timestamp))
                    && deliveries_view(r@) == #[trigger] self@.deliveries(event@, timestamp),
            !self@.shows_time(event@.level, event@.target) ==> deliveries_view(r@)
                == self@.deliveries(event@, Seq::empty()),
    {
        let target = event.target.as_str();
        let timed = self.receives(Sink::File, event.level, target) || (match event.level {
            Level::Debug | Level::Trace => self.receives(Sink::Terminal, event.level, target),
            _ => false,
        });
        if timed {
            let now = local_timestamp();
            self.emit(event, now.as_str())
        } else {
            proof {
                reveal_strlit("");
            }
            let r = self.emit(event, "");
            assert(""@ =~= Seq::<char>::empty());
            r
        }
    }

    /// Shuts the pipeline down and says what is left to do, in order: write
    /// the profile if a profiler ran, release the remote export, shut the
    /// trace context down, release the log file and the timeline trace.
    /// Every slot is gone afterwards. A second call changes nothing and
    /// leaves nothing to do.
    pub fn shutdown(&mut self) -> (r: Vec<ShutdownStep<F, C, R>>)
        ensures
            r@ == old(self)@.shutdown_steps(),
            final(self)@ == old(self)@.after_shutdown(),
    {
        let mut steps: Vec<ShutdownStep<F, C, R>> = Vec::new();
        let remote = self.remote.tear_down();
        let file = self.file.tear_down();
        let timeline = self.timeline.tear_down();
        if self.shut_down {
            return steps;
        }
        self.shut_down = true;
        if self.profiling {
            steps.push(ShutdownStep::WriteProfile);
        }
        match remote {
            Some(remote) => steps.push(ShutdownStep::ReleaseRemote(remote)),
            None => {},
        }
        steps.push(ShutdownStep::ShutdownTraceContext);
        match file {
            Some(file) => steps.push(ShutdownStep::ReleaseFile(file)),
            None => {},
        }
        match timeline {
            Some(timeline) => steps.push(ShutdownStep::ReleaseTimeline(timeline)),
            None => {},
        }
        assert(steps@ =~= old(self)@.shutdown_steps());
        steps
    }
}

/// Each sink gets an event at most once, and exactly once if its filter
/// lets the event through and its slot is enabled: the route holds no sink
/// twice, holds exactly the sinks that receive the event, and every sink on
/// it is handed one delivery, its own.
pub proof fn lemma_each_sink_once<F, C, R>(
    m: SubscriberModel<F, C, R>,
    event: EventModel,
    timestamp: Seq<char>,
    sink: Sink,
)
    ensures
        m.route(event.level, event.target).no_duplicates(),
        m.route(event.level, event.target).contains(sink) <==> m.receives(
            sink,
            event.level,
            event.target,
        ),
        m.deliveries(event, timestamp).len() == m.route(event.level, event.target).len(),
        forall|i: int|
            0 <= i < m.route(event.level, event.target).len() ==> (#[trigger] m.deliveries(
                event,
                timestamp,
            )[i]).sink() == m.route(event.level, event.target)[i],
{
    let level = event.level;
    let target = event.target;
    let route = m.route(level, target);
    let a = m.stage(Sink::Terminal, level, target);
    let b = m.stage(Sink::File, level, target);
    let c = m.stage(Sink::Timeline, level, target);
    let d = m.stage(Sink::Remote, level, target);
    assert(route =~= a + b + c + d);
    assert forall|i: int, j: int| 0 <= i < j < route.len() implies route[i] != route[j] by {
        lemma_route_is_ordered(m, level, target, i, j);
    }
    if m.receives(sink, level, target) {
        match sink {
            Sink::Terminal => {
                assert(route[0] == sink);
            },
            Sink::File => {
                assert(route[a.len() as int] == sink);
            },
            Sink::Timeline => {
                assert(route[(a.len() + b.len()) as int] == sink);
            },
            Sink::Remote => {
                assert(route[(a.len() + b.len() + c.len()) as int] == sink);
            },
        }
    }
    if route.contains(sink) {
        let i = choose|i: int| 0 <= i < route.len() && route[i] == sink;
        lemma_route_holds_receivers(m, level, target, i);
    }
}

/// Position of a sink in the pipeline.
pub open spec fn stage_index(sink: Sink) -> int {
    match sink {
        Sink::Terminal => 0,
        Sink::File => 1,
        Sink::Timeline => 2,
        Sink::Remote => 3,
    }
}

/// The route follows the pipeline: a sink that comes later on the route is
/// a later stage.
pub proof fn lemma_route_is_ordered<F, C, R>(
    m: SubscriberModel<F, C, R>,
    level: Level,
    target: Seq<char>,
    i: int,
    j: int,
)
    requires
        0 <= i < j < m.route(level, target).len(),
    ensures
        stage_index(m.route(level, target)[i]) < stage_index(m.route(level, target)[j]),
{
    let a = m.stage(Sink::Terminal, level, target);
    let b = m.stage(Sink::File, level, target);
    let c = m.stage(Sink::Timeline, level, target);
    let d = m.stage(Sink::Remote, level, target);
    assert(m.route(level, target) =~= a + b + c + d);
}

/// Every sink on the route receives the event.
pub proof fn lemma_route_holds_receivers<F, C, R>(
    m: SubscriberModel<F, C, R>,
    level: Level,
    target: Seq<char>,
    i: int,
)
    requires
        0 <= i < m.route(level, target).len(),
    ensures
        m.receives(m.route(level, target)[i], level, target),
{
    let a = m.stage(Sink::Terminal, level, target);
    let b = m.stage(Sink::File, level, target);
    let c = m.stage(Sink::Timeline, level, target);
    let d = m.stage(Sink::Remote, level, target);
    assert(m.route(level, target) =~= a + b + c + d);
}

/// Enabling the log file is seen by the events that follow and by no
/// earlier one. While the slot is disabled no event is delivered to the log
/// file; right after the slot is enabled, an event is delivered to it
/// exactly when the file's filter lets it through. A delivery depends on
/// the event at hand and the pipeline as it is then, so nothing that was
/// emitted earlier is replayed. The other sinks get what they got before.
pub proof fn lemma_file_sink_sees_later_events<F, C, R>(
    m: SubscriberModel<F, C, R>,
    sink: F,
    event: EventModel,
    timestamp: Seq<char>,
    other: Sink,
)
    requires
        m.file is Disabled,
        other != Sink::File,
    ensures
        !m.route(event.level, event.target).contains(Sink::File),
        m.with_file(sink).file.sink() == Some(sink),
        m.with_file(sink).route(event.level, event.target).contains(Sink::File)
            <==> m.file_filter.admits(event.level, event.target),
        m.with_file(sink).receives(other, event.level, event.target) == m.receives(
            other,
            event.level,
            event.target,
        ),
{
    lemma_each_sink_once(m, event, timestamp, Sink::File);
    lemma_each_sink_once(m.with_file(sink), event, timestamp, Sink::File);
}

/// The same for the timeline trace, which has no filter: once enabled it
/// gets every event.
pub proof fn lemma_timeline_sink_sees_later_events<F, C, R>(
    m: SubscriberModel<F, C, R>,
    sink: C,
    event: EventModel,
    timestamp: Seq<char>,
)
    requires
        m.timeline is Disabled,
    ensures
        !m.route(event.level, event.target).contains(Sink::Timeline),
        m.with_timeline(sink).timeline.sink() == Some(sink),
        m.with_timeline(sink).route(event.level, event.target).contains(Sink::Timeline),
{
    lemma_each_sink_once(m, event, timestamp, Sink::Timeline);
    lemma_each_sink_once(m.with_timeline(sink), event, timestamp, Sink::Timeline);
}

/// Of two log files enabled one after the other, the second takes the
/// place of the first: the second call hands back what kept the first
/// alive, the slot holds the second alone, and the pipeline is as if the
/// first had never been enabled.
pub proof fn lemma_second_file_replaces_first<F, C, R>(
    m: SubscriberModel<F, C, R>,
    first: F,
    second: F,
)
    requires
        !(m.file is Gone),
    ensures
        m.with_file(first).file.reload_result() == Ok::<Option<F>, ReloadError>(Some(first)),
        m.with_file(first).with_file(second).file == SlotState::Enabled(second),
        m.with_file(first).with_file(second) == m.with_file(second),
{
}

/// A failed attempt leaves the pipeline as it was: after shutdown, enabling
/// a sink returns the error and changes nothing.
pub proof fn lemma_reload_after_shutdown_fails<F, C, R>(
    m: SubscriberModel<F, C, R>,
    file: F,
    timeline: C,
)
    ensures
        m.after_shutdown().file.reload_result() == Err::<Option<F>, ReloadError>(
            ReloadError::PipelineGone,
        ),
        m.after_shutdown().timeline.reload_result() == Err::<Option<C>, ReloadError>(
            ReloadError::PipelineGone,
        ),
        m.after_shutdown().with_file(file) == m.after_shutdown(),
        m.after_shutdown().with_timeline(timeline) == m.after_shutdown(),
{
}

/// Shutting down twice is shutting down once: the second time nothing is
/// left to do and nothing changes.
pub proof fn lemma_shutdown_is_idempotent<F, C, R>(m: SubscriberModel<F, C, R>)
    ensures
        m.after_shutdown().shutdown_steps() == Seq::<ShutdownStep<F, C, R>>::empty(),
        m.after_shutdown().after_shutdown() == m.after_shutdown(),
{
}

/// The first shutdown releases whatever the pipeline holds, each once, and
/// shuts the trace context down after the remote export is released.
pub proof fn lemma_shutdown_releases_what_is_held<F, C, R>(m: SubscriberModel<F, C, R>)
    requires
        !m.shut_down,
    ensures
        m.profiling <==> m.shutdown_steps().contains(ShutdownStep::WriteProfile),
        m.shutdown_steps().contains(ShutdownStep::ShutdownTraceContext),
        forall|remote: R|
            m.remote == SlotState::Enabled(remote) <==> #[trigger] m.shutdown_steps().contains(
                ShutdownStep::ReleaseRemote(remote),
            ),
        forall|file: F|
            m.file == SlotState::Enabled(file) <==> #[trigger] m.shutdown_steps().contains(
                ShutdownStep::ReleaseFile(file),
            ),
        forall|timeline: C|
            m.timeline == SlotState::Enabled(timeline) <==> #[trigger] m.shutdown_steps().contains(
                ShutdownStep::ReleaseTimeline(timeline),
            ),
        m.shutdown_steps().no_duplicates(),
{
    let steps = m.shutdown_steps();
    let a: Seq<ShutdownStep<F, C, R>> = if m.profiling {
        seq![ShutdownStep::WriteProfile]
    } else {
        Seq::empty()
    };
    let b: Seq<ShutdownStep<F, C, R>> = match m.remote {
        SlotState::Enabled(remote) => seq![ShutdownStep::ReleaseRemote(remote)],
        _ => Seq::empty(),
    };
    let c: Seq<ShutdownStep<F, C, R>> = seq![ShutdownStep::ShutdownTraceContext];
    let d: Seq<ShutdownStep<F, C, R>> = match m.file {
        SlotState::Enabled(file) => seq![ShutdownStep::ReleaseFile(file)],
        _ => Seq::empty(),
    };
    let e: Seq<ShutdownStep<F, C, R>> = match m.timeline {
        SlotState::Enabled(timeline) => seq![ShutdownStep::ReleaseTimeline(timeline)],
        _ => Seq::empty(),
    };
    assert(steps =~= a + b + c + d + e);
    if m.profiling {
        assert(steps[0] == ShutdownStep::<F, C, R>::WriteProfile);
    }
    assert(steps[(a.len() + b.len()) as int] == ShutdownStep::<F, C, R>::ShutdownTraceContext);
    if m.remote is Enabled {
        assert(steps[a.len() as int] == b[0]);
    }
    if m.file is Enabled {
        assert(steps[(a.len() + b.len() + 1) as int] == d[0]);
    }
    if m.timeline is Enabled {
        assert(steps[(a.len() + b.len() + 1 + d.len()) as int] == e[0]);
    }
}

/// The time matters only where a line shows it: for an event that reaches
/// neither the log file nor, as a debug or trace event, the terminal, the
/// sinks get the same at any time.
pub proof fn lemma_time_matters_only_where_shown<F, C, R>(
    m: SubscriberModel<F, C, R>,
    event: EventModel,
    one: Seq<char>,
    other: Seq<char>,
)
    requires
        !m.shows_time(event.level, event.target),
    ensures
        m.deliveries(event, one) == m.deliveries(event, other),
{
    let route = m.route(event.level, event.target);
    assert forall|i: int| 0 <= i < route.len() implies m.delivery(route[i], event, one)
        == m.delivery(route[i], event, other) by {
        lemma_route_holds_receivers(m, event.level, event.target, i);
    }
    assert(m.deliveries(event, one) =~= m.deliveries(event, other));
}

} // verus!
