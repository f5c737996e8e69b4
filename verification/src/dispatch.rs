//! The decisions of the dispatch loop.
//!
//! The loop that polls the host belongs to the worker that owns the
//! connection. What it decides stands here: which channels and callbacks it
//! knows, when it stops, and where each record it polled goes. The worker
//! hands in what happened and carries out what comes back.

use crate::errors::DecodeError;
use crate::recv_data::record_of;
use crate::recv_data::RecvDataEvent;
use crate::recv_data::RecvDataEventView;
use crate::recv_data::RecvSimData;
use crate::recv_data::RecvSimDataView;
use crate::recv_data::RecvSystemState;
use crate::recv_data::RecvSystemStateView;
use crate::sim_events::lemma_system_event_codes;
use crate::sim_events::SystemEvent;
use crate::sim_events::SystemEventDataHolder;
use crate::sim_events::SystemEventDataHolderView;
use std::collections::HashMap;
use vstd::prelude::*;
use vstd::std_specs::hash::*;

verus! {

broadcast use vstd::std_specs::hash::group_hash_axioms;

/// How long the loop sleeps between two polls that found nothing, in
/// milliseconds, unless the client asks for another interval.
pub const DEFAULT_POLL_INTERVAL: u64 = 1000;

/// The interval a client gets that asked for `requested`.
pub open spec fn poll_interval_of(requested: Option<u64>) -> u64 {
    match requested {
        Some(interval) => interval,
        None => DEFAULT_POLL_INTERVAL,
    }
}

/// What the dispatch loop knows: the sender of each registered channel, by
/// registration id; the callback of each subscribed event; its poll interval;
/// and whether it has seen the stop signal.
pub struct Dispatcher<S, C> {
    data_map: HashMap<u32, S>,
    callback_map: HashMap<u32, C>,
    poll_interval: u64,
    stopped: bool,
}

/// The dispatch loop as contracts see it: channels by registration id,
/// callbacks by event.
pub struct DispatcherView<S, C> {
    pub channels: Map<u32, S>,
    pub callbacks: Map<SystemEvent, C>,
    pub poll_interval: u64,
    pub stopped: bool,
}

/// The callbacks by event, given the callbacks by event number.
pub open spec fn by_event<C>(by_number: Map<u32, C>) -> Map<SystemEvent, C> {
    Map::new(
        |event: SystemEvent| by_number.contains_key(event.code() as u32),
        |event: SystemEvent| by_number[event.code() as u32],
    )
}

impl<S, C> View for Dispatcher<S, C> {
    type V = DispatcherView<S, C>;

    closed spec fn view(&self) -> DispatcherView<S, C> {
        DispatcherView {
            channels: self.data_map@,
            callbacks: by_event(self.callback_map@),
            poll_interval: self.poll_interval,
            stopped: self.stopped,
        }
    }
}

/// What the loop does with one poll of the host.
pub enum Dispatch<'a, S, C> {
    /// Nothing was waiting: sleep for so many milliseconds, then poll again.
    Sleep(u64),
    /// Send the values through the channel registered for their id.
    Deliver(&'a S, RecvSimData),
    /// Call the callback subscribed to the event.
    Invoke(&'a C, SystemEventDataHolder),
    /// Hand the state to whoever asked for it.
    State(RecvSystemState),
    /// Nothing to do but take note: an acknowledgement, a quit, an empty
    /// record, values nobody registered a channel for, or an event nobody
    /// subscribed to.
    Ignored(RecvDataEvent),
    /// The record could not be decoded. It is skipped; the loop goes on.
    Malformed(DecodeError),
}

/// A decision of the loop as contracts see it.
pub enum DispatchView<S, C> {
    Sleep(u64),
    Deliver(S, RecvSimDataView),
    Invoke(C, SystemEventDataHolderView),
    State(RecvSystemStateView),
    Ignored(RecvDataEventView),
    Malformed(DecodeError),
}

impl<'a, S, C> View for Dispatch<'a, S, C> {
    type V = DispatchView<S, C>;

    open spec fn view(&self) -> DispatchView<S, C> {
        match self {
            Dispatch::Sleep(interval) => DispatchView::Sleep(*interval),
            Dispatch::Deliver(sender, values) => DispatchView::Deliver(**sender, values@),
            Dispatch::Invoke(callback, event) => DispatchView::Invoke(**callback, event@),
            Dispatch::State(state) => DispatchView::State(state@),
            Dispatch::Ignored(record) => DispatchView::Ignored(record@),
            Dispatch::Malformed(e) => DispatchView::Malformed(*e),
        }
    }
}

/// Whether a poll brought a record: the host call succeeded and the record
/// has a size.
pub open spec fn record_available(hr: i32, data: Seq<u8>) -> bool {
    hr == 0 && data.len() > 0
}

/// Where a decoded record goes.
pub open spec fn route_of<S, C>(
    channels: Map<u32, S>,
    callbacks: Map<SystemEvent, C>,
    record: RecvDataEventView,
) -> DispatchView<S, C> {
    match record {
        RecvDataEventView::Data(values) => if channels.contains_key(values.data_id) {
            DispatchView::Deliver(channels[values.data_id], values)
        } else {
            DispatchView::Ignored(record)
        },
        RecvDataEventView::Event(event) => if callbacks.contains_key(event.system_event) {
            DispatchView::Invoke(callbacks[event.system_event], event)
        } else {
            DispatchView::Ignored(record)
        },
        RecvDataEventView::SystemState(state) => DispatchView::State(state),
        _ => DispatchView::Ignored(record),
    }
}

/// What the loop does with a poll that returned the status `hr` and the
/// record `data`. Without a record it sleeps for its poll interval; with one
/// it never sleeps, whatever becomes of the record.
pub open spec fn dispatch_of<S, C>(
    dispatcher: DispatcherView<S, C>,
    hr: i32,
    data: Seq<u8>,
) -> DispatchView<S, C> {
    if !record_available(hr, data) {
        DispatchView::Sleep(dispatcher.poll_interval)
    } else {
        match record_of(data) {
            Err(e) => DispatchView::Malformed(e),
            Ok(record) => route_of(dispatcher.channels, dispatcher.callbacks, record),
        }
    }
}

impl<S, C> Dispatcher<S, C> {
    /// A loop that knows no channel and no callback yet, and has not been
    /// told to stop.
    pub fn new(poll_interval: Option<u64>) -> (dispatcher: Dispatcher<S, C>)
        ensures
            dispatcher@ == (DispatcherView::<S, C> {
                channels: Map::empty(),
                callbacks: Map::empty(),
                poll_interval: poll_interval_of(poll_interval),
                stopped: false,
            }),
    {
        let interval = match poll_interval {
            Some(interval) => interval,
            None => DEFAULT_POLL_INTERVAL,
        };
        let dispatcher = Dispatcher {
            data_map: HashMap::new(),
            callback_map: HashMap::new(),
            poll_interval: interval,
            stopped: false,
        };
        assert(by_event(dispatcher.callback_map@) =~= Map::<SystemEvent, C>::empty());
        dispatcher
    }

    /// Takes note of the channel a client announced for a registration id. A
    /// channel announced earlier for the same id is replaced.
    pub fn register_channel(&mut self, data_id: u32, sender: S)
        ensures
            final(self)@ == (DispatcherView {
                channels: old(self)@.channels.insert(data_id, sender),
                ..old(self)@
            }),
    {
        self.data_map.insert(data_id, sender);
    }

    /// Takes note of a subscription or of its end. With `insert` the callback
    /// replaces the one the event had, and no callback leaves things as they
    /// are; without `insert` the event loses its callback.
    pub fn update_callback(&mut self, event: SystemEvent, callback: Option<C>, insert: bool)
        ensures
            final(self)@ == (DispatcherView {
                callbacks: if insert {
                    match callback {
                        Some(callback) => old(self)@.callbacks.insert(event, callback),
                        None => old(self)@.callbacks,
                    }
                } else {
                    old(self)@.callbacks.remove(event)
                },
                ..old(self)@
            }),
    {
        let number = u32::from(event);
        proof {
            assert forall|other: SystemEvent| other.code() == event.code() implies other
                == event by {
                lemma_system_event_codes(other, 0);
                lemma_system_event_codes(event, 0);
            }
        }
        if insert {
            if let Some(callback) = callback {
                self.callback_map.insert(number, callback);
                assert(by_event(self.callback_map@) =~= by_event(old(self).callback_map@).insert(
                    event,
                    callback,
                ));
            }
        } else {
            self.callback_map.remove(&number);
            assert(by_event(self.callback_map@) =~= by_event(old(self).callback_map@).remove(
                event,
            ));
        }
    }

    /// The top of an iteration: looks at the stop signal and says whether the
    /// loop goes on to poll the host. Once the signal was seen the answer is
    /// no, now and ever after.
    pub fn begin_iteration(&mut self, should_quit: bool) -> (poll: bool)
        ensures
            poll == !stopped_now(old(self)@.stopped, should_quit),
            final(self)@ == (DispatcherView {
                stopped: stopped_now(old(self)@.stopped, should_quit),
                ..old(self)@
            }),
    {
        if should_quit {
            self.stopped = true;
        }
        !self.stopped
    }

    /// Whether the stop signal was seen.
    pub fn is_stopped(&self) -> (stopped: bool)
        ensures
            stopped == self@.stopped,
    {
        self.stopped
    }

    /// The interval between two polls that found nothing, in milliseconds.
    pub fn poll_interval(&self) -> (interval: u64)
        ensures
            interval == self@.poll_interval,
    {
        self.poll_interval
    }

    /// Decides what to do with one poll of the host: `hr` is the status of
    /// the call and `data` the record it brought, empty if it brought none.
    pub fn dispatch(&self, hr: i32, data: &[u8]) -> (action: Dispatch<'_, S, C>)
        ensures
            action@ == dispatch_of(self@, hr, data@),
    {
        if hr != 0 || data.len() == 0 {
            return Dispatch::Sleep(self.poll_interval);
        }
        match RecvDataEvent::from_pointer(data) {
            Err(e) => Dispatch::Malformed(e),
            Ok(record) => self.route(record),
        }
    }

    /// Decides where a decoded record goes.
    pub fn route(&self, record: RecvDataEvent) -> (action: Dispatch<'_, S, C>)
        ensures
            action@ == route_of(self@.channels, self@.callbacks, record@),
    {
        match record {
            RecvDataEvent::SystemState(state) => Dispatch::State(state),
            RecvDataEvent::Data(data) => {
                let data_id = data.get_id();
                match self.data_map.get(&data_id) {
                    Some(sender) => Dispatch::Deliver(sender, data),
                    None => Dispatch::Ignored(RecvDataEvent::Data(data)),
                }
            },
            RecvDataEvent::Event(evt_type) => {
                let number = u32::from(evt_type.system_event);
                match self.callback_map.get(&number) {
                    Some(callback) => Dispatch::Invoke(callback, evt_type),
                    None => Dispatch::Ignored(RecvDataEvent::Event(evt_type)),
                }
            },
            RecvDataEvent::Null => Dispatch::Ignored(RecvDataEvent::Null),
            RecvDataEvent::Open(open) => Dispatch::Ignored(RecvDataEvent::Open(open)),
            RecvDataEvent::Quit => Dispatch::Ignored(RecvDataEvent::Quit),
        }
    }
}

/// Whether the loop has stopped once the top of an iteration has looked at
/// the stop signal.
pub open spec fn stopped_now(stopped: bool, should_quit: bool) -> bool {
    stopped || should_quit
}

/// Whether the loop has stopped after the tops of its iterations have looked
/// at each of `signals` in turn.
pub open spec fn stopped_after(stopped: bool, signals: Seq<bool>) -> bool
    decreases signals.len(),
{
    if signals.len() == 0 {
        stopped
    } else {
        stopped_now(stopped_after(stopped, signals.drop_last()), signals.last())
    }
}

/// Once the stop signal was seen the loop never polls the host again: if the
/// signal is set at the top of one iteration, the loop has stopped after that
/// iteration and after every later one, whatever the signal says then.
pub proof fn lemma_stop_is_final(stopped: bool, signals: Seq<bool>, seen: int, later: int)
    requires
        0 <= seen <= later < signals.len(),
        signals[seen],
    ensures
        stopped_after(stopped, signals.take(later + 1)),
    decreases later - seen,
{
    let upto = signals.take(later + 1);
    assert(upto.last() == signals[later]);
    if seen < later {
        lemma_stop_is_final(stopped, signals, seen, later - 1);
        assert(upto.drop_last() =~= signals.take(later));
    }
}

} // verus!
