//! Decoding the records the host hands to a client.
//!
//! A record is a tightly packed, little-endian buffer. It starts with a header
//! of three 32-bit numbers (size, version, kind); what follows depends on the
//! kind. Every decoder here copies what it needs out of the buffer, so the
//! buffer can be given back to the host as soon as the decoder returns.

use crate::errors::viewed;
use crate::errors::DecodeError;
use crate::sim_event_args::SimStateArgs;
use crate::sim_events::event_data_of;
use crate::sim_events::event_holder_of;
use crate::sim_events::SystemEventData;
use crate::sim_struct::field_views;
use crate::sim_struct::parse_struct;
use crate::sim_struct::struct_of;
use crate::sim_struct::FieldValue;
use crate::sim_struct::FieldValueView;
use crate::sim_var_types::ScalarType;
use crate::sim_events::SystemEventDataHolder;
use crate::sim_events::SystemEventDataHolderView;
use crate::sim_events::SystemEventDataView;
use crate::wire::c_string_at;
use crate::wire::in_bounds;
use crate::wire::read_c_string;
use crate::wire::read_u32;
use crate::wire::u32_at;
use vstd::prelude::*;
use vstd::slice::slice_subrange;
use vstd::slice::slice_to_vec;

verus! {

/// Where the kind of a record stands, and where its header ends.
pub const RECV_ID_AT: usize = 8;

pub const HEADER_LEN: usize = 12;

/// The kinds of record this client tells apart. Every other kind is read as
/// an empty record.
pub const RECV_ID_NULL: u32 = 0;

pub const RECV_ID_OPEN: u32 = 2;

pub const RECV_ID_QUIT: u32 = 3;

pub const RECV_ID_EVENT: u32 = 4;

pub const RECV_ID_SIMOBJECT_DATA: u32 = 8;

pub const RECV_ID_SIMOBJECT_DATA_BYTYPE: u32 = 9;

pub const RECV_ID_SYSTEM_STATE: u32 = 15;

/// The layout of an open acknowledgement: the application's name in a field
/// of fixed width, then four pairs of major and minor numbers.
pub const OPEN_NAME_AT: usize = 12;

pub const OPEN_NAME_WIDTH: usize = 256;

pub const APPLICATION_VERSION_AT: usize = 268;

pub const APPLICATION_BUILD_AT: usize = 276;

pub const SIM_CONNECT_VERSION_AT: usize = 284;

pub const SIM_CONNECT_BUILD_AT: usize = 292;

pub const OPEN_LEN: usize = 300;

/// The layout of an event: group, event number and one number of data. An
/// event that carries a file name has it behind these, in a field of fixed
/// width; one that speaks of an object has the object's type there.
pub const EVENT_ID_AT: usize = 16;

pub const EVENT_DATA_AT: usize = 20;

pub const EVENT_LEN: usize = 24;

pub const FILE_NAME_AT: usize = 24;

pub const FILE_NAME_WIDTH: usize = 260;

pub const OBJECT_TYPE_AT: usize = 24;

/// The layout of object data: seven numbers, the third of which is the
/// registration id, and then the values themselves.
pub const DEFINE_ID_AT: usize = 20;

pub const DATA_AT: usize = 40;

/// The layout of a system state: the request's number, an integer, a
/// floating point number and a string in a field of fixed width.
pub const STATE_REQUEST_ID_AT: usize = 12;

pub const STATE_INTEGER_AT: usize = 16;

pub const STATE_STRING_AT: usize = 24;

pub const STATE_STRING_WIDTH: usize = 260;

/// A value that can be decoded from a record.
pub trait FromPtr: Sized + View {
    /// What the record decodes to, or why it does not.
    spec fn decoded(data: Seq<u8>) -> Result<Self::V, DecodeError>;

    /// Decodes the record that starts at the first byte of `data`.
    fn from_pointer(data: &[u8]) -> (r: Result<Self, DecodeError>)
        ensures
            viewed(r) == Self::decoded(data@),
    ;
}

/// A version of three numbers, as semantic versioning writes them.
#[derive(Debug, Clone, Copy, Hash, PartialEq, Eq, Structural)]
pub struct Version {
    pub major: u64,
    pub minor: u64,
    pub patch: u64,
}

impl Version {
    pub fn new(major: u64, minor: u64, patch: u64) -> (v: Version)
        ensures
            v == (Version { major, minor, patch }),
    {
        Version { major, minor, patch }
    }
}

/// The version a record states as a pair of numbers at `at`: major, then
/// minor. The patch number is always zero.
pub open spec fn version_at(data: Seq<u8>, at: int) -> Version {
    Version { major: u32_at(data, at) as u64, minor: u32_at(data, at + 4) as u64, patch: 0 }
}

fn read_version(data: &[u8], at: usize) -> (r: Result<Version, DecodeError>)
    requires
        at + 8 <= usize::MAX,
    ensures
        match r {
            Ok(v) => in_bounds(data@, at as int, 8) && v == version_at(data@, at as int),
            Err(e) => !in_bounds(data@, at as int, 8) && e == DecodeError::Truncated,
        },
{
    let major = read_u32(data, at)?;
    let minor = read_u32(data, at + 4)?;
    Ok(Version::new(major as u64, minor as u64, 0))
}

/// The host's acknowledgement of a new connection.
#[derive(Debug, Clone, PartialEq, Eq)]
pub struct RecVOpen {
    pub application_name: String,
    pub sim_connect_version: Version,
    pub sim_connect_build_version: Version,
    pub application_version: Version,
    pub application_build_version: Version,
}

/// An open acknowledgement as contracts see it: the name as a text.
pub struct RecVOpenView {
    pub application_name: Seq<char>,
    pub sim_connect_version: Version,
    pub sim_connect_build_version: Version,
    pub application_version: Version,
    pub application_build_version: Version,
}

impl View for RecVOpen {
    type V = RecVOpenView;

    open spec fn view(&self) -> RecVOpenView {
        RecVOpenView {
            application_name: self.application_name@,
            sim_connect_version: self.sim_connect_version,
            sim_connect_build_version: self.sim_connect_build_version,
            application_version: self.application_version,
            application_build_version: self.application_build_version,
        }
    }
}

/// What an open acknowledgement decodes to: the application's name and the
/// four versions, each made of the pair of numbers the record holds for it.
pub open spec fn open_of(data: Seq<u8>) -> Result<RecVOpenView, DecodeError> {
    if data.len() < OPEN_LEN {
        Err(DecodeError::Truncated)
    } else {
        match c_string_at(data, OPEN_NAME_AT as int, OPEN_NAME_WIDTH as int) {
            Err(e) => Err(e),
            Ok(name) => Ok(
                RecVOpenView {
                    application_name: name,
                    sim_connect_version: version_at(data, SIM_CONNECT_VERSION_AT as int),
                    sim_connect_build_version: version_at(data, SIM_CONNECT_BUILD_AT as int),
                    application_version: version_at(data, APPLICATION_VERSION_AT as int),
                    application_build_version: version_at(data, APPLICATION_BUILD_AT as int),
                },
            ),
        }
    }
}

impl FromPtr for RecVOpen {
    open spec fn decoded(data: Seq<u8>) -> Result<RecVOpenView, DecodeError> {
        open_of(data)
    }

    fn from_pointer(data: &[u8]) -> (r: Result<RecVOpen, DecodeError>) {
        if data.len() < OPEN_LEN {
            return Err(DecodeError::Truncated);
        }
        let application_name = read_c_string(data, OPEN_NAME_AT, OPEN_NAME_WIDTH)?;
        let sim_connect_version = read_version(data, SIM_CONNECT_VERSION_AT)?;
        let sim_connect_build_version = read_version(data, SIM_CONNECT_BUILD_AT)?;
        let application_version = read_version(data, APPLICATION_VERSION_AT)?;
        let application_build_version = read_version(data, APPLICATION_BUILD_AT)?;
        Ok(
            RecVOpen {
                application_name,
                sim_connect_version,
                application_version,
                application_build_version,
                sim_connect_build_version,
            },
        )
    }
}

/// The values of one registered structure, still packed as the host sent
/// them. They are interpreted later, against the layout of the structure.
#[derive(Debug, Clone, PartialEq, Eq)]
pub struct RecvSimData {
    data: Vec<u8>,
    data_id: u32,
}

/// Object data as contracts see it: the packed values as a sequence of bytes.
pub struct RecvSimDataView {
    pub data: Seq<u8>,
    pub data_id: u32,
}

impl View for RecvSimData {
    type V = RecvSimDataView;

    closed spec fn view(&self) -> RecvSimDataView {
        RecvSimDataView { data: self.data@, data_id: self.data_id }
    }
}

impl RecvSimData {
    /// The registration id the values were sent under.
    pub fn get_id(&self) -> (id: u32)
        ensures
            id == self@.data_id,
    {
        self.data_id
    }

    /// The packed values.
    pub fn get_pointer(&self) -> (data: &[u8])
        ensures
            data@ == self@.data,
    {
        self.data.as_slice()
    }

    /// Reads the values as those of a structure with the given fields.
    pub fn to_struct(&self, fields: &[ScalarType]) -> (r: Result<Vec<FieldValue>, DecodeError>)
        ensures
            match r {
                Ok(values) => struct_of(fields@, self@.data) == Ok::<_, DecodeError>(
                    field_views(values@),
                ),
                Err(e) => struct_of(fields@, self@.data) == Err::<Seq<FieldValueView>, _>(e),
            },
    {
        parse_struct(fields, self.data.as_slice())
    }
}

/// What a record of object data decodes to: the registration id, and the
/// packed values, which are everything behind the record's own fields.
pub open spec fn sim_data_of(data: Seq<u8>) -> Result<RecvSimDataView, DecodeError> {
    if data.len() < DATA_AT {
        Err(DecodeError::Truncated)
    } else {
        Ok(
            RecvSimDataView {
                data: data.subrange(DATA_AT as int, data.len() as int),
                data_id: u32_at(data, DEFINE_ID_AT as int) as u32,
            },
        )
    }
}

impl FromPtr for RecvSimData {
    open spec fn decoded(data: Seq<u8>) -> Result<RecvSimDataView, DecodeError> {
        sim_data_of(data)
    }

    fn from_pointer(data: &[u8]) -> (r: Result<RecvSimData, DecodeError>) {
        if data.len() < DATA_AT {
            return Err(DecodeError::Truncated);
        }
        let data_id = read_u32(data, DEFINE_ID_AT)?;
        let values = slice_to_vec(slice_subrange(data, DATA_AT, data.len()));
        Ok(RecvSimData { data: values, data_id })
    }
}

/// What a system event carries, without the event's number.
#[derive(Debug, Clone, PartialEq, Eq)]
pub struct RecvSystemEvent(pub SystemEventData);

impl View for RecvSystemEvent {
    type V = SystemEventDataView;

    open spec fn view(&self) -> SystemEventDataView {
        self.0@
    }
}

impl FromPtr for RecvSystemEvent {
    open spec fn decoded(data: Seq<u8>) -> Result<SystemEventDataView, DecodeError> {
        event_data_of(data)
    }

    fn from_pointer(data: &[u8]) -> (r: Result<RecvSystemEvent, DecodeError>) {
        Ok(RecvSystemEvent(SystemEventData::from_pointer(data)?))
    }
}

/// The host's answer to a request for one of its states. Of the five
/// optional fields exactly the one that `state_arg` names is filled.
#[derive(Debug, Clone, PartialEq, Eq)]
pub struct RecvSystemState {
    pub state_arg: SimStateArgs,
    pub aircraft_loaded: Option<String>,
    pub dialog_mode: Option<bool>,
    pub flight_loaded: Option<String>,
    pub flight_plan: Option<String>,
    pub sim: Option<bool>,
}

/// A system state as contracts see it: strings as texts.
pub struct RecvSystemStateView {
    pub state_arg: SimStateArgs,
    pub aircraft_loaded: Option<Seq<char>>,
    pub dialog_mode: Option<bool>,
    pub flight_loaded: Option<Seq<char>>,
    pub flight_plan: Option<Seq<char>>,
    pub sim: Option<bool>,
}

/// An optional string seen as an optional text.
pub open spec fn text_of(s: Option<String>) -> Option<Seq<char>> {
    match s {
        Some(s) => Some(s@),
        None => None,
    }
}

impl View for RecvSystemState {
    type V = RecvSystemStateView;

    open spec fn view(&self) -> RecvSystemStateView {
        RecvSystemStateView {
            state_arg: self.state_arg,
            aircraft_loaded: text_of(self.aircraft_loaded),
            dialog_mode: self.dialog_mode,
            flight_loaded: text_of(self.flight_loaded),
            flight_plan: text_of(self.flight_plan),
            sim: self.sim,
        }
    }
}

/// An answer with none of its optional fields filled.
pub open spec fn blank_state(state_arg: SimStateArgs) -> RecvSystemStateView {
    RecvSystemStateView {
        state_arg,
        aircraft_loaded: None,
        dialog_mode: None,
        flight_loaded: None,
        flight_plan: None,
        sim: None,
    }
}

/// The string of a system state.
pub open spec fn state_string(data: Seq<u8>) -> Result<Seq<char>, DecodeError> {
    c_string_at(data, STATE_STRING_AT as int, STATE_STRING_WIDTH as int)
}

/// The integer of a system state, read as a flag: anything but zero is true.
pub open spec fn state_flag(data: Seq<u8>) -> bool {
    u32_at(data, STATE_INTEGER_AT as int) != 0
}

/// The answer to a request of the given kind: a string for the three kinds
/// that name a file, a flag for the other two.
pub open spec fn state_of(state_arg: SimStateArgs, data: Seq<u8>) -> Result<
    RecvSystemStateView,
    DecodeError,
> {
    match state_arg {
        SimStateArgs::AircraftLoaded => match state_string(data) {
            Ok(name) => Ok(
                RecvSystemStateView { aircraft_loaded: Some(name), ..blank_state(state_arg) },
            ),
            Err(e) => Err(e),
        },
        SimStateArgs::DialogMode => Ok(
            RecvSystemStateView { dialog_mode: Some(state_flag(data)), ..blank_state(state_arg) },
        ),
        SimStateArgs::FlightLoaded => match state_string(data) {
            Ok(name) => Ok(
                RecvSystemStateView { flight_loaded: Some(name), ..blank_state(state_arg) },
            ),
            Err(e) => Err(e),
        },
        SimStateArgs::FlightPlan => match state_string(data) {
            Ok(name) => Ok(
                RecvSystemStateView { flight_plan: Some(name), ..blank_state(state_arg) },
            ),
            Err(e) => Err(e),
        },
        SimStateArgs::Sim => Ok(
            RecvSystemStateView { sim: Some(state_flag(data)), ..blank_state(state_arg) },
        ),
    }
}

/// What a record of system state decodes to: the request's number says which
/// state was asked for, and that says which field of the record is the answer.
pub open spec fn system_state_of(data: Seq<u8>) -> Result<RecvSystemStateView, DecodeError> {
    if data.len() < STATE_STRING_AT {
        Err(DecodeError::Truncated)
    } else {
        match SimStateArgs::from_code(u32_at(data, STATE_REQUEST_ID_AT as int)) {
            None => Err(DecodeError::UnknownDiscriminant),
            Some(state_arg) => state_of(state_arg, data),
        }
    }
}

impl FromPtr for RecvSystemState {
    open spec fn decoded(data: Seq<u8>) -> Result<RecvSystemStateView, DecodeError> {
        system_state_of(data)
    }

    fn from_pointer(data: &[u8]) -> (r: Result<RecvSystemState, DecodeError>) {
        if data.len() < STATE_STRING_AT {
            return Err(DecodeError::Truncated);
        }
        let request_id = read_u32(data, STATE_REQUEST_ID_AT)?;
        let arg_type = SimStateArgs::try_from_primitive(request_id)?;
        match arg_type {
            SimStateArgs::AircraftLoaded => {
                let name = read_c_string(data, STATE_STRING_AT, STATE_STRING_WIDTH)?;
                Ok(
                    RecvSystemState {
                        aircraft_loaded: Some(name),
                        dialog_mode: None,
                        flight_loaded: None,
                        flight_plan: None,
                        sim: None,
                        state_arg: arg_type,
                    },
                )
            },
            SimStateArgs::DialogMode => {
                let integer = read_u32(data, STATE_INTEGER_AT)?;
                Ok(
                    RecvSystemState {
                        aircraft_loaded: None,
                        dialog_mode: Some(integer != 0),
                        flight_loaded: None,
                        flight_plan: None,
                        sim: None,
                        state_arg: arg_type,
                    },
                )
            },
            SimStateArgs::FlightLoaded => {
                let flight_name = read_c_string(data, STATE_STRING_AT, STATE_STRING_WIDTH)?;
                Ok(
                    RecvSystemState {
                        aircraft_loaded: None,
                        dialog_mode: None,
                        flight_loaded: Some(flight_name),
                        flight_plan: None,
                        sim: None,
                        state_arg: arg_type,
                    },
                )
            },
            SimStateArgs::FlightPlan => {
                let flight_plan = read_c_string(data, STATE_STRING_AT, STATE_STRING_WIDTH)?;
                Ok(
                    RecvSystemState {
                        aircraft_loaded: None,
                        dialog_mode: None,
                        flight_loaded: None,
                        flight_plan: Some(flight_plan),
                        sim: None,
                        state_arg: arg_type,
                    },
                )
            },
            SimStateArgs::Sim => {
                let integer = read_u32(data, STATE_INTEGER_AT)?;
                Ok(
                    RecvSystemState {
                        aircraft_loaded: None,
                        dialog_mode: None,
                        flight_loaded: None,
                        flight_plan: None,
                        sim: Some(integer != 0),
                        state_arg: arg_type,
                    },
                )
            },
        }
    }
}

/// A record of the host, told apart by its kind.
#[derive(Debug, Clone, PartialEq, Eq)]
pub enum RecvDataEvent {
    Null,
    Open(RecVOpen),
    Data(RecvSimData),
    Event(SystemEventDataHolder),
    SystemState(RecvSystemState),
    Quit,
}

/// A record as contracts see it.
pub enum RecvDataEventView {
    Null,
    Open(RecVOpenView),
    Data(RecvSimDataView),
    Event(SystemEventDataHolderView),
    SystemState(RecvSystemStateView),
    Quit,
}

impl View for RecvDataEvent {
    type V = RecvDataEventView;

    open spec fn view(&self) -> RecvDataEventView {
        match self {
            RecvDataEvent::Null => RecvDataEventView::Null,
            RecvDataEvent::Open(open) => RecvDataEventView::Open(open@),
            RecvDataEvent::Data(data) => RecvDataEventView::Data(data@),
            RecvDataEvent::Event(event) => RecvDataEventView::Event(event@),
            RecvDataEvent::SystemState(state) => RecvDataEventView::SystemState(state@),
            RecvDataEvent::Quit => RecvDataEventView::Quit,
        }
    }
}

/// The kind of a record: the third number of its header.
pub open spec fn record_kind(data: Seq<u8>) -> int {
    u32_at(data, RECV_ID_AT as int)
}

/// What a record decodes to. A record too short for a header is an error;
/// a kind this client does not know is an empty record, not an error; a kind
/// it knows decodes as that kind does.
pub open spec fn record_of(data: Seq<u8>) -> Result<RecvDataEventView, DecodeError> {
    if data.len() < HEADER_LEN {
        Err(DecodeError::Truncated)
    } else if record_kind(data) == RECV_ID_OPEN {
        match open_of(data) {
            Ok(open) => Ok(RecvDataEventView::Open(open)),
            Err(e) => Err(e),
        }
    } else if record_kind(data) == RECV_ID_SIMOBJECT_DATA || record_kind(data)
        == RECV_ID_SIMOBJECT_DATA_BYTYPE {
        match sim_data_of(data) {
            Ok(values) => Ok(RecvDataEventView::Data(values)),
            Err(e) => Err(e),
        }
    } else if record_kind(data) == RECV_ID_SYSTEM_STATE {
        match system_state_of(data) {
            Ok(state) => Ok(RecvDataEventView::SystemState(state)),
            Err(e) => Err(e),
        }
    } else if record_kind(data) == RECV_ID_EVENT {
        match event_holder_of(data) {
            Ok(event) => Ok(RecvDataEventView::Event(event)),
            Err(e) => Err(e),
        }
    } else if record_kind(data) == RECV_ID_QUIT {
        Ok(RecvDataEventView::Quit)
    } else {
        Ok(RecvDataEventView::Null)
    }
}

impl RecvDataEvent {
    /// Decodes the record that starts at the first byte of `data`.
    pub fn from_pointer(data: &[u8]) -> (r: Result<RecvDataEvent, DecodeError>)
        ensures
            viewed(r) == record_of(data@),
    {
        if data.len() < HEADER_LEN {
            return Err(DecodeError::Truncated);
        }
        let data_id = read_u32(data, RECV_ID_AT)?;
        Ok(
            match data_id {
                RECV_ID_OPEN => RecvDataEvent::Open(RecVOpen::from_pointer(data)?),
                RECV_ID_SIMOBJECT_DATA => RecvDataEvent::Data(RecvSimData::from_pointer(data)?),
                RECV_ID_SIMOBJECT_DATA_BYTYPE => RecvDataEvent::Data(
                    RecvSimData::from_pointer(data)?,
                ),
                RECV_ID_NULL => RecvDataEvent::Null,
                RECV_ID_QUIT => RecvDataEvent::Quit,
                RECV_ID_SYSTEM_STATE => RecvDataEvent::SystemState(
                    RecvSystemState::from_pointer(data)?,
                ),
                RECV_ID_EVENT => RecvDataEvent::Event(SystemEventDataHolder::from_pointer(data)?),
                _ => RecvDataEvent::Null,
            },
        )
    }
}

} // verus!
