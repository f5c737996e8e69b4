//! The system events a client can subscribe to, and what each one carries.

use crate::errors::viewed;
use crate::errors::DecodeError;
use crate::internals::names_of;
use crate::internals::name_position;
use crate::internals::parse_name;
use crate::internals::IterEnum;
use crate::internals::lemma_plain_name;
use crate::internals::ToSimConnect;
use crate::internals::UnknownName;
use crate::recv_data::FromPtr;
use crate::recv_data::EVENT_DATA_AT;
use crate::recv_data::EVENT_ID_AT;
use crate::recv_data::EVENT_LEN;
use crate::recv_data::FILE_NAME_AT;
use crate::recv_data::FILE_NAME_WIDTH;
use crate::sim_event_args::object_type_of;
use crate::sim_event_args::SimObjectType;
use crate::sim_event_args::SimViewType;
use crate::wire::c_string_at;
use crate::wire::read_c_string;
use crate::wire::read_u32;
use crate::wire::u32_at;
use vstd::prelude::*;
use vstd::std_specs::convert::FromSpecImpl;

verus! {

/// A named notification of the host. A client subscribes under the event's
/// number and the host reports the event under the same number.
#[derive(Debug, Copy, Clone, Hash, PartialEq, Eq, Structural)]
pub enum SystemEvent {
    OneSec,
    FourSec,
    SixHz,
    AircraftLoaded,
    Crashed,
    CrashReset,
    FlightLoaded,
    FlightSaved,
    FlightPlanActivated,
    FlightPlanDeactivated,
    Frame,
    ObjectAdded,
    ObjectRemoved,
    Pause,
    PauseEX1,
    Paused,
    PauseFrame,
    PositionChanged,
    Sim,
    SimStart,
    SimStop,
    Sound,
    Unpaused,
    View,
}

impl SystemEvent {
    /// The number the host knows the variant by.
    pub open spec fn code(self) -> int {
        match self {
            SystemEvent::OneSec => 0,
            SystemEvent::FourSec => 1,
            SystemEvent::SixHz => 2,
            SystemEvent::AircraftLoaded => 3,
            SystemEvent::Crashed => 4,
            SystemEvent::CrashReset => 5,
            SystemEvent::FlightLoaded => 6,
            SystemEvent::FlightSaved => 7,
            SystemEvent::FlightPlanActivated => 8,
            SystemEvent::FlightPlanDeactivated => 9,
            SystemEvent::Frame => 10,
            SystemEvent::ObjectAdded => 11,
            SystemEvent::ObjectRemoved => 12,
            SystemEvent::Pause => 13,
            SystemEvent::PauseEX1 => 14,
            SystemEvent::Paused => 15,
            SystemEvent::PauseFrame => 16,
            SystemEvent::PositionChanged => 17,
            SystemEvent::Sim => 18,
            SystemEvent::SimStart => 19,
            SystemEvent::SimStop => 20,
            SystemEvent::Sound => 21,
            SystemEvent::Unpaused => 22,
            SystemEvent::View => 23,
        }
    }

    /// The variant with the given number, if there is one.
    pub open spec fn from_code(number: int) -> Option<SystemEvent> {
        if 0 <= number < Self::variants().len() {
            Some(Self::variants()[number])
        } else {
            None
        }
    }

    /// The host's spelling of the variant.
    pub open spec fn name(self) -> Seq<char> {
        match self {
            SystemEvent::OneSec => "1sec"@,
            SystemEvent::FourSec => "4sec"@,
            SystemEvent::SixHz => "6Hz"@,
            SystemEvent::AircraftLoaded => "AircraftLoaded"@,
            SystemEvent::Crashed => "Crashed"@,
            SystemEvent::CrashReset => "CrashReset"@,
            SystemEvent::FlightLoaded => "FlightLoaded"@,
            SystemEvent::FlightSaved => "FlightSaved"@,
            SystemEvent::FlightPlanActivated => "FlightPlanActivated"@,
            SystemEvent::FlightPlanDeactivated => "FlightPlanDeactivated"@,
            SystemEvent::Frame => "Frame"@,
            SystemEvent::ObjectAdded => "ObjectAdded"@,
            SystemEvent::ObjectRemoved => "ObjectRemoved"@,
            SystemEvent::Pause => "Pause"@,
            SystemEvent::PauseEX1 => "PauseEX1"@,
            SystemEvent::Paused => "Paused"@,
            SystemEvent::PauseFrame => "PauseFrame"@,
            SystemEvent::PositionChanged => "PositionChanged"@,
            SystemEvent::Sim => "Sim"@,
            SystemEvent::SimStart => "SimStart"@,
            SystemEvent::SimStop => "SimStop"@,
            SystemEvent::Sound => "Sound"@,
            SystemEvent::Unpaused => "Unpaused"@,
            SystemEvent::View => "View"@,
        }
    }

    pub fn as_str(&self) -> (s: &'static str)
        ensures
            s@ == self.name(),
    {
        match self {
            SystemEvent::OneSec => "1sec",
            SystemEvent::FourSec => "4sec",
            SystemEvent::SixHz => "6Hz",
            SystemEvent::AircraftLoaded => "AircraftLoaded",
            SystemEvent::Crashed => "Crashed",
            SystemEvent::CrashReset => "CrashReset",
            SystemEvent::FlightLoaded => "FlightLoaded",
            SystemEvent::FlightSaved => "FlightSaved",
            SystemEvent::FlightPlanActivated => "FlightPlanActivated",
            SystemEvent::FlightPlanDeactivated => "FlightPlanDeactivated",
            SystemEvent::Frame => "Frame",
            SystemEvent::ObjectAdded => "ObjectAdded",
            SystemEvent::ObjectRemoved => "ObjectRemoved",
            SystemEvent::Pause => "Pause",
            SystemEvent::PauseEX1 => "PauseEX1",
            SystemEvent::Paused => "Paused",
            SystemEvent::PauseFrame => "PauseFrame",
            SystemEvent::PositionChanged => "PositionChanged",
            SystemEvent::Sim => "Sim",
            SystemEvent::SimStart => "SimStart",
            SystemEvent::SimStop => "SimStop",
            SystemEvent::Sound => "Sound",
            SystemEvent::Unpaused => "Unpaused",
            SystemEvent::View => "View",
        }
    }

    /// Resolves a number against the enumeration.
    pub fn try_from_primitive(number: u32) -> (r: Result<SystemEvent, DecodeError>)
        ensures
            r == match Self::from_code(number as int) {
                Some(v) => Ok::<SystemEvent, DecodeError>(v),
                None => Err(DecodeError::UnknownDiscriminant),
            },
            r matches Ok(v) ==> v.code() == number,
    {
        match number {
            0 => Ok(SystemEvent::OneSec),
            1 => Ok(SystemEvent::FourSec),
            2 => Ok(SystemEvent::SixHz),
            3 => Ok(SystemEvent::AircraftLoaded),
            4 => Ok(SystemEvent::Crashed),
            5 => Ok(SystemEvent::CrashReset),
            6 => Ok(SystemEvent::FlightLoaded),
            7 => Ok(SystemEvent::FlightSaved),
            8 => Ok(SystemEvent::FlightPlanActivated),
            9 => Ok(SystemEvent::FlightPlanDeactivated),
            10 => Ok(SystemEvent::Frame),
            11 => Ok(SystemEvent::ObjectAdded),
            12 => Ok(SystemEvent::ObjectRemoved),
            13 => Ok(SystemEvent::Pause),
            14 => Ok(SystemEvent::PauseEX1),
            15 => Ok(SystemEvent::Paused),
            16 => Ok(SystemEvent::PauseFrame),
            17 => Ok(SystemEvent::PositionChanged),
            18 => Ok(SystemEvent::Sim),
            19 => Ok(SystemEvent::SimStart),
            20 => Ok(SystemEvent::SimStop),
            21 => Ok(SystemEvent::Sound),
            22 => Ok(SystemEvent::Unpaused),
            23 => Ok(SystemEvent::View),
            _ => Err(DecodeError::UnknownDiscriminant),
        }
    }

    /// Parses a name without regard to case; of two variants that the text
    /// matches, the one declared first wins.
    pub fn from_str(text: &str) -> (r: Result<SystemEvent, UnknownName>)
        ensures
            r == match name_position(names_of(Self::variants()), text@) {
                Some(i) => Ok::<SystemEvent, UnknownName>(Self::variants()[i]),
                None => Err(UnknownName),
            },
    {
        parse_name::<SystemEvent>(text)
    }
}

impl IterEnum for SystemEvent {
    type Item = SystemEvent;

    open spec fn variants() -> Seq<SystemEvent> {
        seq![
            SystemEvent::OneSec,
            SystemEvent::FourSec,
            SystemEvent::SixHz,
            SystemEvent::AircraftLoaded,
            SystemEvent::Crashed,
            SystemEvent::CrashReset,
            SystemEvent::FlightLoaded,
            SystemEvent::FlightSaved,
            SystemEvent::FlightPlanActivated,
            SystemEvent::FlightPlanDeactivated,
            SystemEvent::Frame,
            SystemEvent::ObjectAdded,
            SystemEvent::ObjectRemoved,
            SystemEvent::Pause,
            SystemEvent::PauseEX1,
            SystemEvent::Paused,
            SystemEvent::PauseFrame,
            SystemEvent::PositionChanged,
            SystemEvent::Sim,
            SystemEvent::SimStart,
            SystemEvent::SimStop,
            SystemEvent::Sound,
            SystemEvent::Unpaused,
            SystemEvent::View,
        ]
    }

    fn iter_enum() -> (all: Vec<SystemEvent>) {
        vec![
            SystemEvent::OneSec,
            SystemEvent::FourSec,
            SystemEvent::SixHz,
            SystemEvent::AircraftLoaded,
            SystemEvent::Crashed,
            SystemEvent::CrashReset,
            SystemEvent::FlightLoaded,
            SystemEvent::FlightSaved,
            SystemEvent::FlightPlanActivated,
            SystemEvent::FlightPlanDeactivated,
            SystemEvent::Frame,
            SystemEvent::ObjectAdded,
            SystemEvent::ObjectRemoved,
            SystemEvent::Pause,
            SystemEvent::PauseEX1,
            SystemEvent::Paused,
            SystemEvent::PauseFrame,
            SystemEvent::PositionChanged,
            SystemEvent::Sim,
            SystemEvent::SimStart,
            SystemEvent::SimStop,
            SystemEvent::Sound,
            SystemEvent::Unpaused,
            SystemEvent::View,
        ]
    }
}

impl ToSimConnect for SystemEvent {
    open spec fn sim_name(&self) -> Seq<char> {
        self.name()
    }

    proof fn lemma_sim_name(&self) {
        match self {
            SystemEvent::OneSec => reveal_strlit("1sec"),
            SystemEvent::FourSec => reveal_strlit("4sec"),
            SystemEvent::SixHz => reveal_strlit("6Hz"),
            SystemEvent::AircraftLoaded => reveal_strlit("AircraftLoaded"),
            SystemEvent::Crashed => reveal_strlit("Crashed"),
            SystemEvent::CrashReset => reveal_strlit("CrashReset"),
            SystemEvent::FlightLoaded => reveal_strlit("FlightLoaded"),
            SystemEvent::FlightSaved => reveal_strlit("FlightSaved"),
            SystemEvent::FlightPlanActivated => reveal_strlit("FlightPlanActivated"),
            SystemEvent::FlightPlanDeactivated => reveal_strlit("FlightPlanDeactivated"),
            SystemEvent::Frame => reveal_strlit("Frame"),
            SystemEvent::ObjectAdded => reveal_strlit("ObjectAdded"),
            SystemEvent::ObjectRemoved => reveal_strlit("ObjectRemoved"),
            SystemEvent::Pause => reveal_strlit("Pause"),
            SystemEvent::PauseEX1 => reveal_strlit("PauseEX1"),
            SystemEvent::Paused => reveal_strlit("Paused"),
            SystemEvent::PauseFrame => reveal_strlit("PauseFrame"),
            SystemEvent::PositionChanged => reveal_strlit("PositionChanged"),
            SystemEvent::Sim => reveal_strlit("Sim"),
            SystemEvent::SimStart => reveal_strlit("SimStart"),
            SystemEvent::SimStop => reveal_strlit("SimStop"),
            SystemEvent::Sound => reveal_strlit("Sound"),
            SystemEvent::Unpaused => reveal_strlit("Unpaused"),
            SystemEvent::View => reveal_strlit("View"),
        }
        lemma_plain_name(self.name());
    }

    fn to_string(&self) -> (s: String) {
        self.as_str().to_owned()
    }
}

impl From<SystemEvent> for u32 {
    fn from(v: SystemEvent) -> (n: u32) {
        match v {
            SystemEvent::OneSec => 0,
            SystemEvent::FourSec => 1,
            SystemEvent::SixHz => 2,
            SystemEvent::AircraftLoaded => 3,
            SystemEvent::Crashed => 4,
            SystemEvent::CrashReset => 5,
            SystemEvent::FlightLoaded => 6,
            SystemEvent::FlightSaved => 7,
            SystemEvent::FlightPlanActivated => 8,
            SystemEvent::FlightPlanDeactivated => 9,
            SystemEvent::Frame => 10,
            SystemEvent::ObjectAdded => 11,
            SystemEvent::ObjectRemoved => 12,
            SystemEvent::Pause => 13,
            SystemEvent::PauseEX1 => 14,
            SystemEvent::Paused => 15,
            SystemEvent::PauseFrame => 16,
            SystemEvent::PositionChanged => 17,
            SystemEvent::Sim => 18,
            SystemEvent::SimStart => 19,
            SystemEvent::SimStop => 20,
            SystemEvent::Sound => 21,
            SystemEvent::Unpaused => 22,
            SystemEvent::View => 23,
        }
    }
}

impl FromSpecImpl<SystemEvent> for u32 {
    open spec fn obeys_from_spec() -> bool {
        true
    }

    open spec fn from_spec(v: SystemEvent) -> u32 {
        v.code() as u32
    }
}

/// Numbers and variants stand for each other: a variant's number resolves
/// to the variant, and a number resolves only to the variant that carries it.
pub proof fn lemma_system_event_codes(v: SystemEvent, number: int)
    ensures
        SystemEvent::from_code(v.code()) == Some(v),
        SystemEvent::from_code(number) == Some(v) ==> v.code() == number,
{
}

/// A system event together with what it carries: a file name, a flag, a view
/// or the type of an object, or nothing.
#[derive(Debug, Clone, PartialEq, Eq)]
pub enum SystemEventData {
    OneSec,
    FourSec,
    SixHz,
    AircraftLoaded(String),
    Crashed,
    CrashReset,
    FlightLoaded(String),
    FlightSaved(String),
    FlightPlanActivated(String),
    FlightPlanDeactivated,
    Frame,
    ObjectAdded(SimObjectType),
    ObjectRemoved(SimObjectType),
    Pause,
    PauseEX1,
    Paused,
    PauseFrame,
    PositionChanged,
    Sim(bool),
    SimStart,
    SimStop,
    Sound,
    Unpaused,
    View(SimViewType),
}

/// What an event carries as contracts see it: file names as texts.
pub enum SystemEventDataView {
    OneSec,
    FourSec,
    SixHz,
    AircraftLoaded(Seq<char>),
    Crashed,
    CrashReset,
    FlightLoaded(Seq<char>),
    FlightSaved(Seq<char>),
    FlightPlanActivated(Seq<char>),
    FlightPlanDeactivated,
    Frame,
    ObjectAdded(SimObjectType),
    ObjectRemoved(SimObjectType),
    Pause,
    PauseEX1,
    Paused,
    PauseFrame,
    PositionChanged,
    Sim(bool),
    SimStart,
    SimStop,
    Sound,
    Unpaused,
    View(SimViewType),
}

impl View for SystemEventData {
    type V = SystemEventDataView;

    open spec fn view(&self) -> SystemEventDataView {
        match self {
            SystemEventData::OneSec => SystemEventDataView::OneSec,
            SystemEventData::FourSec => SystemEventDataView::FourSec,
            SystemEventData::SixHz => SystemEventDataView::SixHz,
            SystemEventData::AircraftLoaded(name) => SystemEventDataView::AircraftLoaded(name@),
            SystemEventData::Crashed => SystemEventDataView::Crashed,
            SystemEventData::CrashReset => SystemEventDataView::CrashReset,
            SystemEventData::FlightLoaded(name) => SystemEventDataView::FlightLoaded(name@),
            SystemEventData::FlightSaved(name) => SystemEventDataView::FlightSaved(name@),
            SystemEventData::FlightPlanActivated(name) => SystemEventDataView::FlightPlanActivated(
                name@,
            ),
            SystemEventData::FlightPlanDeactivated => SystemEventDataView::FlightPlanDeactivated,
            SystemEventData::Frame => SystemEventDataView::Frame,
            SystemEventData::ObjectAdded(kind) => SystemEventDataView::ObjectAdded(*kind),
            SystemEventData::ObjectRemoved(kind) => SystemEventDataView::ObjectRemoved(*kind),
            SystemEventData::Pause => SystemEventDataView::Pause,
            SystemEventData::PauseEX1 => SystemEventDataView::PauseEX1,
            SystemEventData::Paused => SystemEventDataView::Paused,
            SystemEventData::PauseFrame => SystemEventDataView::PauseFrame,
            SystemEventData::PositionChanged => SystemEventDataView::PositionChanged,
            SystemEventData::Sim(on) => SystemEventDataView::Sim(*on),
            SystemEventData::SimStart => SystemEventDataView::SimStart,
            SystemEventData::SimStop => SystemEventDataView::SimStop,
            SystemEventData::Sound => SystemEventDataView::Sound,
            SystemEventData::Unpaused => SystemEventDataView::Unpaused,
            SystemEventData::View(view) => SystemEventDataView::View(*view),
        }
    }
}

/// The file name an event carries, in a field of fixed width behind the
/// event's own fields.
pub open spec fn file_name_of(data: Seq<u8>) -> Result<Seq<char>, DecodeError> {
    c_string_at(data, FILE_NAME_AT as int, FILE_NAME_WIDTH as int)
}

/// The number of data an event carries.
pub open spec fn event_data(data: Seq<u8>) -> int {
    u32_at(data, EVENT_DATA_AT as int)
}

/// What a record carries if it reports `event`: the file name of the four
/// events that have one, the object type of the two that speak of an object,
/// the data as a flag (anything but zero is true) for `Sim`, the data as a
/// view for `View`, and nothing for the rest.
pub open spec fn payload_of(event: SystemEvent, data: Seq<u8>) -> Result<
    SystemEventDataView,
    DecodeError,
> {
    match event {
        SystemEvent::OneSec => Ok(SystemEventDataView::OneSec),
        SystemEvent::FourSec => Ok(SystemEventDataView::FourSec),
        SystemEvent::SixHz => Ok(SystemEventDataView::SixHz),
        SystemEvent::AircraftLoaded => match file_name_of(data) {
            Ok(name) => Ok(SystemEventDataView::AircraftLoaded(name)),
            Err(e) => Err(e),
        },
        SystemEvent::Crashed => Ok(SystemEventDataView::Crashed),
        SystemEvent::CrashReset => Ok(SystemEventDataView::CrashReset),
        SystemEvent::FlightLoaded => match file_name_of(data) {
            Ok(name) => Ok(SystemEventDataView::FlightLoaded(name)),
            Err(e) => Err(e),
        },
        SystemEvent::FlightSaved => match file_name_of(data) {
            Ok(name) => Ok(SystemEventDataView::FlightSaved(name)),
            Err(e) => Err(e),
        },
        SystemEvent::FlightPlanActivated => match file_name_of(data) {
            Ok(name) => Ok(SystemEventDataView::FlightPlanActivated(name)),
            Err(e) => Err(e),
        },
        SystemEvent::FlightPlanDeactivated => Ok(SystemEventDataView::FlightPlanDeactivated),
        SystemEvent::Frame => Ok(SystemEventDataView::Frame),
        SystemEvent::ObjectAdded => match object_type_of(data) {
            Ok(kind) => Ok(SystemEventDataView::ObjectAdded(kind)),
            Err(e) => Err(e),
        },
        SystemEvent::ObjectRemoved => match object_type_of(data) {
            Ok(kind) => Ok(SystemEventDataView::ObjectRemoved(kind)),
            Err(e) => Err(e),
        },
        SystemEvent::Pause => Ok(SystemEventDataView::Pause),
        SystemEvent::PauseEX1 => Ok(SystemEventDataView::PauseEX1),
        SystemEvent::Paused => Ok(SystemEventDataView::Paused),
        SystemEvent::PauseFrame => Ok(SystemEventDataView::PauseFrame),
        SystemEvent::PositionChanged => Ok(SystemEventDataView::PositionChanged),
        SystemEvent::Sim => Ok(SystemEventDataView::Sim(event_data(data) != 0)),
        SystemEvent::SimStart => Ok(SystemEventDataView::SimStart),
        SystemEvent::SimStop => Ok(SystemEventDataView::SimStop),
        SystemEvent::Sound => Ok(SystemEventDataView::Sound),
        SystemEvent::Unpaused => Ok(SystemEventDataView::Unpaused),
        SystemEvent::View => match SimViewType::from_code(event_data(data)) {
            Some(view) => Ok(SystemEventDataView::View(view)),
            None => Err(DecodeError::UnknownDiscriminant),
        },
    }
}

/// The event a record reports: its event number, resolved against the
/// enumeration.
pub open spec fn event_of(data: Seq<u8>) -> Result<SystemEvent, DecodeError> {
    if data.len() < EVENT_LEN {
        Err(DecodeError::Truncated)
    } else {
        match SystemEvent::from_code(u32_at(data, EVENT_ID_AT as int)) {
            Some(event) => Ok(event),
            None => Err(DecodeError::UnknownDiscriminant),
        }
    }
}

fn read_event(data: &[u8]) -> (r: Result<SystemEvent, DecodeError>)
    ensures
        r == event_of(data@),
{
    if data.len() < EVENT_LEN {
        return Err(DecodeError::Truncated);
    }
    let event_id = read_u32(data, EVENT_ID_AT)?;
    SystemEvent::try_from_primitive(event_id)
}

fn extract_name_from_filename(data: &[u8]) -> (r: Result<String, DecodeError>)
    ensures
        viewed(r) == file_name_of(data@),
{
    read_c_string(data, FILE_NAME_AT, FILE_NAME_WIDTH)
}

/// What a record of an event carries: the payload of the event it reports.
pub open spec fn event_data_of(data: Seq<u8>) -> Result<SystemEventDataView, DecodeError> {
    match event_of(data) {
        Err(e) => Err(e),
        Ok(event) => payload_of(event, data),
    }
}

impl FromPtr for SystemEventData {
    open spec fn decoded(data: Seq<u8>) -> Result<SystemEventDataView, DecodeError> {
        event_data_of(data)
    }

    fn from_pointer(data: &[u8]) -> (r: Result<SystemEventData, DecodeError>) {
        let event = read_event(data)?;
        Ok(
            match event {
                SystemEvent::OneSec => SystemEventData::OneSec,
                SystemEvent::FourSec => SystemEventData::FourSec,
                SystemEvent::SixHz => SystemEventData::SixHz,
                SystemEvent::AircraftLoaded => SystemEventData::AircraftLoaded(
                    extract_name_from_filename(data)?,
                ),
                SystemEvent::Crashed => SystemEventData::Crashed,
                SystemEvent::CrashReset => SystemEventData::CrashReset,
                SystemEvent::FlightLoaded => SystemEventData::FlightLoaded(
                    extract_name_from_filename(data)?,
                ),
                SystemEvent::FlightSaved => SystemEventData::FlightSaved(
                    extract_name_from_filename(data)?,
                ),
                SystemEvent::FlightPlanActivated => SystemEventData::FlightPlanActivated(
                    extract_name_from_filename(data)?,
                ),
                SystemEvent::FlightPlanDeactivated => SystemEventData::FlightPlanDeactivated,
                SystemEvent::Frame => SystemEventData::Frame,
                SystemEvent::ObjectAdded => SystemEventData::ObjectAdded(
                    SimObjectType::from_pointer(data)?,
                ),
                SystemEvent::ObjectRemoved => SystemEventData::ObjectRemoved(
                    SimObjectType::from_pointer(data)?,
                ),
                SystemEvent::Pause => SystemEventData::Pause,
                SystemEvent::PauseEX1 => SystemEventData::PauseEX1,
                SystemEvent::Paused => SystemEventData::Paused,
                SystemEvent::PauseFrame => SystemEventData::PauseFrame,
                SystemEvent::PositionChanged => SystemEventData::PositionChanged,
                SystemEvent::Sim => {
                    let state = read_u32(data, EVENT_DATA_AT)? != 0;
                    SystemEventData::Sim(state)
                },
                SystemEvent::SimStart => SystemEventData::SimStart,
                SystemEvent::SimStop => SystemEventData::SimStop,
                SystemEvent::Sound => SystemEventData::Sound,
                SystemEvent::Unpaused => SystemEventData::Unpaused,
                SystemEvent::View => {
                    let view = SimViewType::try_from_primitive(read_u32(data, EVENT_DATA_AT)?)?;
                    SystemEventData::View(view)
                },
            },
        )
    }
}

/// An event as it reaches a callback: which event it is, and what it carries.
#[derive(Debug, Clone, PartialEq, Eq)]
pub struct SystemEventDataHolder {
    pub system_event: SystemEvent,
    pub event_data: SystemEventData,
}

/// An event as contracts see it.
pub struct SystemEventDataHolderView {
    pub system_event: SystemEvent,
    pub event_data: SystemEventDataView,
}

impl View for SystemEventDataHolder {
    type V = SystemEventDataHolderView;

    open spec fn view(&self) -> SystemEventDataHolderView {
        SystemEventDataHolderView { system_event: self.system_event, event_data: self.event_data@ }
    }
}

/// What a record of an event decodes to: the event it reports and what the
/// event carries.
pub open spec fn event_holder_of(data: Seq<u8>) -> Result<SystemEventDataHolderView, DecodeError> {
    match event_of(data) {
        Err(e) => Err(e),
        Ok(event) => match payload_of(event, data) {
            Err(e) => Err(e),
            Ok(event_data) => Ok(SystemEventDataHolderView { system_event: event, event_data }),
        },
    }
}

impl FromPtr for SystemEventDataHolder {
    open spec fn decoded(data: Seq<u8>) -> Result<SystemEventDataHolderView, DecodeError> {
        event_holder_of(data)
    }

    fn from_pointer(data: &[u8]) -> (r: Result<SystemEventDataHolder, DecodeError>) {
        let event = read_event(data)?;
        let event_data = SystemEventData::from_pointer(data)?;
        Ok(SystemEventDataHolder { event_data, system_event: event })
    }
}

} // verus!
