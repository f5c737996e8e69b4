//! The bookkeeping behind the client facade.
//!
//! A connection has three things to keep in order: which structure is
//! registered under which id, what the dispatch loop has delivered for each
//! of them, and which answers to state requests are waiting. This module
//! keeps them and works out the arguments of every host call the facade
//! makes; making the calls is the business of whoever owns the connection.

use crate::channel::DeliveryChannel;
use crate::data_definitions;
use crate::definition_of;
use crate::dispatch::poll_interval_of;
use crate::dispatch::DEFAULT_POLL_INTERVAL;
use crate::errors::check_hr;
use crate::errors::status_outcome;
use crate::errors::SimConnectError;
use crate::internals::encode_name;
use crate::internals::has_nul;
use crate::internals::is_c_string;
use crate::internals::wire_name;
use crate::internals::ToSimConnect;
use crate::recv_data::RecvSimData;
use crate::recv_data::RecvSystemState;
use crate::registration::id_of;
use crate::registration::lemma_id_of;
use crate::registration::lemma_registering_is_permanent;
use crate::registration::RegistrationTable;
use crate::sim_event_args::SimObjectType;
use crate::sim_event_args::SimStateArgs;
use crate::sim_events::SystemEvent;
use crate::sim_input_events::InputEvent;
use crate::DataDefinition;
use crate::DataDefinitionView;
use crate::SimConnectDatum;
use vstd::prelude::*;
use vstd::string::StringExecFns;
use vstd::utf8::*;

verus! {

/// Everything a connection keeps track of.
pub struct SimConnect {
    program_name: String,
    type_map: RegistrationTable,
    data_event_map: Vec<DeliveryChannel<RecvSimData>>,
    state_request_receiver: DeliveryChannel<RecvSystemState>,
    poll_interval: u64,
}

/// The bookkeeping of a connection as contracts see it.
pub struct SimConnectView {
    /// The name the client opened the connection under.
    pub program_name: Seq<char>,
    /// The identities registered, each at the position that is its id.
    pub type_map: Seq<Seq<char>>,
    /// What waits for each registered structure, oldest first.
    pub data_event_map: Seq<Seq<RecvSimData>>,
    /// The answers to state requests that wait, oldest first.
    pub state_requests: Seq<RecvSystemState>,
    /// The interval between two polls that found nothing, in milliseconds.
    pub poll_interval: u64,
}

/// The arguments of the host call that asks for the values of a structure on
/// the user's own aircraft.
#[derive(Debug, Clone, Copy, PartialEq, Eq, Structural)]
pub struct DataRequest {
    pub request_id: u32,
    pub define_id: u32,
    pub radius: u32,
    pub object_type: SimObjectType,
}

/// The arguments of a host call that goes by a number and a name: a
/// subscription to an event, or a request for a state.
#[derive(Debug, Clone, PartialEq, Eq)]
pub struct NamedRequest {
    pub id: u32,
    pub name: Vec<u8>,
}

/// What it takes to register a structure.
#[derive(Debug, Clone, PartialEq, Eq)]
pub enum Registration {
    /// Nothing: the structure is registered under this id.
    Known(u32),
    /// These host calls, in this order; if all of them succeed, the structure
    /// is to be registered under this id.
    Pending(u32, Vec<DataDefinition>),
}

impl SimConnectView {
    /// What holds of the bookkeeping of every connection: no identity is
    /// registered twice, every id has its channel, and there are no more
    /// identities than ids.
    pub open spec fn wf(self) -> bool {
        &&& self.type_map.no_duplicates()
        &&& self.type_map.len() == self.data_event_map.len()
        &&& self.type_map.len() <= u32::MAX
        &&& !has_nul(self.program_name)
    }

    /// What a connection keeps track of right after it was opened.
    pub open spec fn opened(program_name: Seq<char>, poll_interval: Option<u64>) -> SimConnectView {
        SimConnectView {
            program_name,
            type_map: Seq::empty(),
            data_event_map: Seq::empty(),
            state_requests: Seq::empty(),
            poll_interval: poll_interval_of(poll_interval),
        }
    }

    /// The identity of a structure: the program's name and, right behind it,
    /// the name of the structure's type.
    pub open spec fn identity(self, struct_name: Seq<char>) -> Seq<char> {
        self.program_name + struct_name
    }

    /// The id the structure is registered under, if it is registered.
    pub open spec fn id(self, struct_name: Seq<char>) -> Option<int> {
        id_of(self.type_map, self.identity(struct_name))
    }

    /// The connection after the structure was registered: as it was if the
    /// structure was registered already; else with one more identity, and one
    /// more channel in which nothing waits.
    pub open spec fn registered(self, struct_name: Seq<char>) -> SimConnectView {
        if self.id(struct_name) is Some {
            self
        } else {
            SimConnectView {
                type_map: self.type_map.push(self.identity(struct_name)),
                data_event_map: self.data_event_map.push(Seq::empty()),
                ..self
            }
        }
    }

    /// Whether a channel is registered for the id.
    pub open spec fn has_channel(self, data_id: u32) -> bool {
        data_id < self.data_event_map.len()
    }

    /// The connection after `data` was routed: it waits in the channel of its
    /// id, behind everything that waited there; without such a channel it is
    /// dropped.
    pub open spec fn delivered(self, data: RecvSimData) -> SimConnectView {
        let data_id = data@.data_id;
        if self.has_channel(data_id) {
            SimConnectView {
                data_event_map: self.data_event_map.update(
                    data_id as int,
                    self.data_event_map[data_id as int].push(data),
                ),
                ..self
            }
        } else {
            self
        }
    }

    /// Whether anything waits for the structure.
    pub open spec fn has_data(self, struct_name: Seq<char>) -> bool {
        match self.id(struct_name) {
            Some(id) => self.data_event_map[id].len() > 0,
            None => false,
        }
    }

    /// What a caller gets who asks for the latest values of the structure.
    /// A structure that was never registered is an error. Of the values that
    /// wait, the caller gets the newest. Where none wait the caller gets
    /// nothing while the dispatch loop is listening, and learns that the
    /// channel is closed once it is not.
    pub open spec fn latest_data(self, struct_name: Seq<char>, listening: bool) -> Result<
        Option<RecvSimData>,
        SimConnectError,
    > {
        match self.id(struct_name) {
            None => Err(SimConnectError::NotRegistered),
            Some(id) => if self.data_event_map[id].len() > 0 {
                Ok(Some(self.data_event_map[id].last()))
            } else if listening {
                Ok(None)
            } else {
                Err(SimConnectError::ChannelClosed)
            },
        }
    }

    /// The connection after a caller took the latest values of the structure:
    /// nothing waits for it any more.
    pub open spec fn drained(self, struct_name: Seq<char>) -> SimConnectView {
        match self.id(struct_name) {
            Some(id) => SimConnectView {
                data_event_map: self.data_event_map.update(id, Seq::empty()),
                ..self
            },
            None => self,
        }
    }
}

/// The newest of the answers in `queue` that answers a request for `kind`.
pub open spec fn latest_answer(queue: Seq<RecvSystemState>, kind: SimStateArgs) -> Option<
    RecvSystemState,
>
    decreases queue.len(),
{
    if queue.len() == 0 {
        None
    } else if queue.last().state_arg == kind {
        Some(queue.last())
    } else {
        latest_answer(queue.drop_last(), kind)
    }
}

/// What a caller gets who asks for the answer to a request for `kind`: the
/// newest answer that fits; or nothing while the dispatch loop is listening;
/// or the news that the channel is closed.
pub open spec fn state_answer(
    queue: Seq<RecvSystemState>,
    kind: SimStateArgs,
    listening: bool,
) -> Result<Option<RecvSystemState>, SimConnectError> {
    match latest_answer(queue, kind) {
        Some(state) => Ok(Some(state)),
        None => if listening {
            Ok(None)
        } else {
            Err(SimConnectError::ChannelClosed)
        },
    }
}

/// The host call that asks for the values of the structure registered under
/// `define_id`.
pub open spec fn data_request_of(define_id: u32) -> DataRequest {
    DataRequest { request_id: 0, define_id, radius: 0, object_type: SimObjectType::User }
}

/// The views of a list of host calls.
pub open spec fn definition_views(calls: Seq<DataDefinition>) -> Seq<DataDefinitionView> {
    Seq::new(calls.len(), |i: int| calls[i]@)
}

/// The host calls that declare the fields of a structure under `define_id`.
pub open spec fn definitions_of(define_id: u32, fields: Seq<SimConnectDatum>) -> Seq<
    DataDefinitionView,
> {
    Seq::new(fields.len(), |i: int| definition_of(define_id, fields[i]))
}

/// When a structure has data. Right after it was registered for the first
/// time it has none. Values routed to another id change nothing for it.
/// Values routed to its own id give it data. And once a caller has taken its
/// latest values it has none again.
pub proof fn lemma_has_data(connection: SimConnectView, struct_name: Seq<char>, data: RecvSimData)
    requires
        connection.wf(),
    ensures
        connection.id(struct_name) is None ==> !connection.registered(struct_name).has_data(
            struct_name,
        ),
        connection.id(struct_name) != Some(data@.data_id as int) ==> connection.delivered(
            data,
        ).has_data(struct_name) == connection.has_data(struct_name),
        connection.id(struct_name) == Some(data@.data_id as int) ==> connection.delivered(
            data,
        ).has_data(struct_name),
        !connection.drained(struct_name).has_data(struct_name),
{
    let identity = connection.identity(struct_name);
    lemma_id_of(connection.type_map, identity);
    lemma_registering_is_permanent(connection.type_map, identity, identity);
}

impl View for SimConnect {
    type V = SimConnectView;

    closed spec fn view(&self) -> SimConnectView {
        SimConnectView {
            program_name: self.program_name@,
            type_map: self.type_map@,
            data_event_map: Seq::new(
                self.data_event_map@.len(),
                |i: int| self.data_event_map@[i]@,
            ),
            state_requests: self.state_request_receiver@,
            poll_interval: self.poll_interval,
        }
    }
}

impl SimConnect {
    /// What holds of every connection: no identity is registered twice, and
    /// every id has its channel.
    pub closed spec fn wf(&self) -> bool {
        &&& self.type_map.wf()
        &&& self.data_event_map@.len() == self.type_map@.len()
        &&& !has_nul(self.program_name@)
    }

    /// The bookkeeping of a connection is always in order.
    pub proof fn lemma_wf(&self)
        requires
            self.wf(),
        ensures
            self@.wf(),
    {
        self.type_map.lemma_wf();
    }

    /// Starts the bookkeeping of a new connection. A program name that holds
    /// a zero byte cannot be handed to the host, so the connection fails. A
    /// client that names no poll interval gets one second.
    pub fn open(program_name: &str, poll_interval: Option<u64>) -> (r: Result<
        SimConnect,
        SimConnectError,
    >)
        ensures
            match r {
                Ok(connection) => !has_nul(program_name@) && connection.wf() && connection@
                    == SimConnectView::opened(program_name@, poll_interval),
                Err(e) => has_nul(program_name@) && e == SimConnectError::ConnectionFailed,
            },
    {
        let bytes = program_name.as_bytes();
        let mut i: usize = 0;
        while i < bytes.len()
            invariant
                i <= bytes.len(),
                bytes@ == encode_utf8(program_name@),
                forall|j: int| 0 <= j < i ==> bytes@[j] != 0,
            decreases bytes.len() - i,
        {
            if bytes[i] == 0 {
                return Err(SimConnectError::ConnectionFailed);
            }
            i += 1;
        }
        let interval = match poll_interval {
            Some(interval) => interval,
            None => DEFAULT_POLL_INTERVAL,
        };
        let connection = SimConnect {
            program_name: program_name.to_owned(),
            type_map: RegistrationTable::new(),
            data_event_map: Vec::new(),
            state_request_receiver: DeliveryChannel::new(),
            poll_interval: interval,
        };
        assert(connection@.data_event_map =~= Seq::empty());
        Ok(connection)
    }

    /// The program's name as the host call that opens the connection wants
    /// it: terminated, and with no zero byte before the terminator.
    pub fn program_name(&self) -> (bytes: Vec<u8>)
        requires
            self.wf(),
        ensures
            bytes@ == wire_name(self@.program_name),
            is_c_string(bytes@),
    {
        encode_name(self.program_name.as_str())
    }

    /// The interval between two polls that found nothing, in milliseconds.
    pub fn poll_interval(&self) -> (interval: u64)
        ensures
            interval == self@.poll_interval,
    {
        self.poll_interval
    }

    /// The number of structures registered so far, which is the id the next
    /// new structure gets.
    pub fn len(&self) -> (n: usize)
        ensures
            n == self@.type_map.len(),
    {
        self.type_map.len()
    }

    /// The identity of the structure whose type has the given name.
    pub fn get_client_data_name(&self, name: &str) -> (identity: String)
        ensures
            identity@ == self@.identity(name@),
    {
        self.program_name.clone().concat(name)
    }

    /// The id the structure is registered under, if it is registered.
    pub fn lookup(&self, struct_name: &str) -> (id: Option<u32>)
        requires
            self.wf(),
        ensures
            match id {
                Some(id) => self@.id(struct_name@) == Some(id as int),
                None => self@.id(struct_name@) is None,
            },
    {
        let data_name = self.get_client_data_name(struct_name);
        self.type_map.lookup(data_name.as_str())
    }

    /// Works out what it takes to register the structure. Nothing is
    /// registered yet: the host has to accept the fields first.
    pub fn register_struct(&self, struct_name: &str, fields: &Vec<SimConnectDatum>) -> (r:
        Registration)
        requires
            self.wf(),
            self@.type_map.len() < u32::MAX,
        ensures
            match r {
                Registration::Known(id) => self@.id(struct_name@) == Some(id as int),
                Registration::Pending(id, calls) => self@.id(struct_name@) is None && id
                    == self@.type_map.len() && definition_views(calls@) == definitions_of(
                    id,
                    fields@,
                ),
            },
    {
        match self.lookup(struct_name) {
            Some(id) => Registration::Known(id),
            None => {
                let new_data_id: u32 = self.type_map.len() as u32;
                let calls = data_definitions(new_data_id, fields);
                assert(definition_views(calls@) =~= definitions_of(new_data_id, fields@));
                Registration::Pending(new_data_id, calls)
            },
        }
    }

    /// Registers the structure once the host has answered: `hr` is the status
    /// of the last host call made for it, which is the first that failed if
    /// one did. After a failure nothing is registered. After success the
    /// structure has its id and a channel in which nothing waits.
    pub fn finish_registration(&mut self, struct_name: &str, hr: i32) -> (r: Result<
        u32,
        SimConnectError,
    >)
        requires
            old(self).wf(),
            old(self)@.type_map.len() < u32::MAX,
        ensures
            final(self).wf(),
            match r {
                Ok(id) => {
                    &&& hr == 0
                    &&& final(self)@ == old(self)@.registered(struct_name@)
                    &&& final(self)@.id(struct_name@) == Some(id as int)
                },
                Err(e) => status_outcome(hr) == Err::<(), _>(e) && final(self)@ == old(self)@,
            },
    {
        match check_hr(hr) {
            Err(e) => Err(e),
            Ok(()) => {
                let data_name = self.get_client_data_name(struct_name);
                let ghost before = self@;
                proof {
                    lemma_registering_is_permanent(
                        self.type_map@,
                        data_name@,
                        data_name@,
                    );
                }
                let known = self.type_map.len();
                let id = self.type_map.register(data_name.as_str());
                if self.type_map.len() > known {
                    self.data_event_map.push(DeliveryChannel::new());
                }
                assert(self@.data_event_map =~= before.registered(struct_name@).data_event_map);
                Ok(id)
            },
        }
    }

    /// Whether anything waits for the structure. Nothing is taken out.
    pub fn has_data(&self, struct_name: &str) -> (waiting: bool)
        requires
            self.wf(),
        ensures
            waiting == self@.has_data(struct_name@),
    {
        match self.lookup(struct_name) {
            Some(id) => {
                proof {
                    lemma_id_of(self.type_map@, self@.identity(struct_name@));
                }
                self.data_event_map[id as usize].has_data()
            },
            None => false,
        }
    }

    /// Puts values the dispatch loop routed into the channel of their id.
    /// Values for which no channel is registered are dropped; the answer
    /// says whether they were kept.
    pub fn deliver(&mut self, data: RecvSimData) -> (kept: bool)
        requires
            old(self).wf(),
        ensures
            final(self).wf(),
            kept == old(self)@.has_channel(data@.data_id),
            final(self)@ == old(self)@.delivered(data),
    {
        let data_id = data.get_id() as usize;
        if data_id < self.data_event_map.len() {
            let ghost before = self@;
            self.data_event_map[data_id].send(data);
            assert(self@.data_event_map =~= before.delivered(data).data_event_map);
            true
        } else {
            false
        }
    }

    /// The host call that asks for the values of the structure. A structure
    /// that was never registered cannot be asked for.
    pub fn request_data_on_self_object(&self, struct_name: &str) -> (r: Result<
        DataRequest,
        SimConnectError,
    >)
        requires
            self.wf(),
        ensures
            r == match self@.id(struct_name@) {
                Some(id) => Ok::<_, SimConnectError>(data_request_of(id as u32)),
                None => Err(SimConnectError::NotRegistered),
            },
    {
        match self.lookup(struct_name) {
            Some(object_id) => Ok(
                DataRequest {
                    request_id: 0,
                    define_id: object_id,
                    radius: 0,
                    object_type: SimObjectType::User,
                },
            ),
            None => Err(SimConnectError::NotRegistered),
        }
    }

    /// Takes the latest values of the structure: of everything that waits for
    /// it, the newest is returned and the rest is dropped. Where nothing
    /// waits, nothing is returned, and the caller has to wait for the dispatch
    /// loop to deliver; unless the loop is gone, for then nothing will ever
    /// come and the channel counts as closed.
    pub fn get_latest_data(&mut self, struct_name: &str, listening: bool) -> (r: Result<
        Option<RecvSimData>,
        SimConnectError,
    >)
        requires
            old(self).wf(),
        ensures
            final(self).wf(),
            final(self)@ == old(self)@.drained(struct_name@),
            r == old(self)@.latest_data(struct_name@, listening),
    {
        match self.lookup(struct_name) {
            None => Err(SimConnectError::NotRegistered),
            Some(data_id) => {
                proof {
                    lemma_id_of(self.type_map@, self@.identity(struct_name@));
                }
                let ghost before = self@;
                let latest = self.data_event_map[data_id as usize].recv_latest();
                assert(self@.data_event_map =~= before.drained(struct_name@).data_event_map);
                match latest {
                    Some(data) => Ok(Some(data)),
                    None => if listening {
                        Ok(None)
                    } else {
                        Err(SimConnectError::ChannelClosed)
                    },
                }
            },
        }
    }

    /// The host call that asks for a state of the host: it goes by the
    /// state's number and its name.
    pub fn request_system_state(&self, state_request: SimStateArgs) -> (request: NamedRequest)
        ensures
            request.id == state_request.code(),
            request.name@ == wire_name(state_request.name()),
            is_c_string(request.name@),
    {
        NamedRequest { id: u32::from(state_request), name: state_request.sc_string() }
    }

    /// Keeps an answer to a state request until somebody asks for it.
    pub fn deliver_state(&mut self, state: RecvSystemState)
        requires
            old(self).wf(),
        ensures
            final(self).wf(),
            final(self)@ == (SimConnectView {
                state_requests: old(self)@.state_requests.push(state),
                ..old(self)@
            }),
    {
        self.state_request_receiver.send(state);
    }

    /// Takes the answer to a request for `state_request`: of the answers that
    /// wait, the newest that answers such a request. Every answer that waited
    /// is dropped. Where none of them fits, nothing is returned, and the
    /// caller has to wait for the next; unless the dispatch loop is gone, for
    /// then the channel counts as closed.
    pub fn take_system_state(&mut self, state_request: SimStateArgs, listening: bool) -> (r:
        Result<Option<RecvSystemState>, SimConnectError>)
        requires
            old(self).wf(),
        ensures
            final(self).wf(),
            r == state_answer(old(self)@.state_requests, state_request, listening),
            final(self)@ == (SimConnectView { state_requests: Seq::empty(), ..old(self)@ }),
    {
        let mut found: Option<RecvSystemState> = None;
        let ghost all = self.state_request_receiver@;
        let ghost mut seen: Seq<RecvSystemState> = Seq::empty();
        loop
            invariant
                self.wf(),
                self.program_name == old(self).program_name,
                self.type_map == old(self).type_map,
                self.data_event_map == old(self).data_event_map,
                self.poll_interval == old(self).poll_interval,
                all == old(self).state_request_receiver@,
                seen + self.state_request_receiver@ == all,
                found == latest_answer(seen, state_request),
            ensures
                self.state_request_receiver@.len() == 0,
                seen == all,
            decreases self.state_request_receiver@.len(),
        {
            let ghost waiting = self.state_request_receiver@;
            match self.state_request_receiver.try_recv() {
                None => {
                    assert(seen =~= seen + waiting);
                    break ;
                },
                Some(state) => {
                    proof {
                        let longer = seen.push(state);
                        assert(longer.drop_last() =~= seen);
                        assert(longer + self.state_request_receiver@ =~= seen + waiting);
                        seen = longer;
                    }
                    if state.state_arg == state_request {
                        found = Some(state);
                    }
                },
            }
        }
        assert(self.state_request_receiver@ =~= Seq::empty());
        match found {
            Some(state) => Ok(Some(state)),
            None => if listening {
                Ok(None)
            } else {
                Err(SimConnectError::ChannelClosed)
            },
        }
    }

    /// The host call that subscribes to a system event: it goes by the
    /// event's number and its name.
    pub fn subscribe_to_system_event(&self, event: SystemEvent) -> (request: NamedRequest)
        ensures
            request.id == event.code(),
            request.name@ == wire_name(event.name()),
            is_c_string(request.name@),
    {
        NamedRequest { id: u32::from(event), name: event.sc_string() }
    }

    /// The host call that ends the subscription to a system event: it goes by
    /// the event's number.
    pub fn unsubscribe_from_system_event(&self, event: SystemEvent) -> (evt_id: u32)
        ensures
            evt_id == event.code(),
    {
        u32::from(event)
    }

    /// Input events need no bookkeeping: the subscription is accepted and
    /// nothing changes.
    pub fn subscribe_to_input_event<E: InputEvent>(&mut self, input_event: E) -> (r: Result<
        (),
        SimConnectError,
    >)
        ensures
            r is Ok,
            *final(self) == *old(self),
    {
        Ok(())
    }
}

} // verus!
