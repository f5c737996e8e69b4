//! Client-side core of a SimConnect binding: the wire codec, the record
//! decoder, the registration table, the dispatch state machine and the
//! bookkeeping behind the client facade.
//!
//! Nothing here touches the host. Records arrive as byte slices, host calls
//! leave as plain values, and every function states in its contract what it
//! returns.

pub mod channel;
pub mod dispatch;
pub mod errors;
pub mod internals;
pub mod recv_data;
pub mod registration;
pub mod sim_connect;
pub mod sim_event_args;
pub mod sim_events;
pub mod sim_input_events;
pub mod sim_struct;
pub mod sim_units;
pub mod sim_var_types;
pub mod sim_vars;
pub mod wire;

pub use internals::ToSimConnect;

use internals::encode_name;
use internals::has_nul;
use internals::is_c_string;
use internals::wire_name;
use sim_units::SimUnit;
use sim_var_types::ScalarType;
use sim_var_types::SimVarType;
use sim_vars::SimVar;
use vstd::prelude::*;

verus! {

/// A structure whose fields can be declared to the host.
pub trait StructToSimConnect: Clone + Sized {
    fn get_fields() -> Vec<SimConnectDatum>;
}

/// A structure that can be read back from the packed values the host sends
/// for it.
pub trait SimConnectToStruct: StructToSimConnect {
    type Error;

    type ReturnType;

    fn parse_struct(data: &[u8]) -> Result<Self::ReturnType, Self::Error>;
}

/// One field of a structure as the host is told of it: its place among the
/// fields, the variable it is bound to, the unit it is wanted in (if any) and
/// its representation on the wire.
pub struct SimConnectDatum {
    pub id: u32,
    pub sim_var: SimVar,
    pub sim_unit: Option<Box<dyn SimUnit>>,
    pub data_type: SimVarType,
}

/// One field of a structure as its author declares it.
pub struct FieldDeclaration {
    pub sim_var: SimVar,
    pub sim_unit: Option<Box<dyn SimUnit>>,
    pub data_type: ScalarType,
}

/// The description of the field declared at position `index`.
pub open spec fn described(index: int, field: FieldDeclaration) -> SimConnectDatum {
    SimConnectDatum {
        id: index as u32,
        sim_var: field.sim_var,
        sim_unit: field.sim_unit,
        data_type: field.data_type.wire_type(),
    }
}

/// Describes the fields of a structure to the host: one description for each
/// field, in declaration order, numbered from zero.
pub fn describe(fields: Vec<FieldDeclaration>) -> (data: Vec<SimConnectDatum>)
    requires
        fields@.len() <= u32::MAX,
    ensures
        data@.len() == fields@.len(),
        forall|i: int| 0 <= i < fields@.len() ==> data@[i] == described(i, fields@[i]),
        forall|i: int| 0 <= i < data@.len() ==> data@[i].id == i,
{
    let mut data: Vec<SimConnectDatum> = Vec::new();
    for field in it: fields
        invariant
            it.seq() == fields@,
            it.seq().len() <= u32::MAX,
            data@.len() == it.index(),
            forall|i: int| 0 <= i < data@.len() ==> data@[i] == described(i, it.seq()[i]),
    {
        let id: u32 = data.len() as u32;
        data.push(
            SimConnectDatum {
                id,
                sim_var: field.sim_var,
                sim_unit: field.sim_unit,
                data_type: field.data_type.into_sim_var(),
            },
        );
    }
    data
}

/// The arguments of the host call that adds one field to a data definition.
#[derive(Debug, Clone, PartialEq, Eq)]
pub struct DataDefinition {
    /// The registration id of the structure.
    pub define_id: u32,
    /// The variable's name, terminated.
    pub datum_name: Vec<u8>,
    /// The unit's name, terminated; an empty name where no unit is wanted.
    pub units_name: Vec<u8>,
    /// The number of the wire type.
    pub datum_type: i32,
    /// The field's place among the fields.
    pub datum_id: u32,
}

/// The arguments of the host call as contracts see them: names as sequences of
/// bytes.
pub struct DataDefinitionView {
    pub define_id: u32,
    pub datum_name: Seq<u8>,
    pub units_name: Seq<u8>,
    pub datum_type: i32,
    pub datum_id: u32,
}

impl View for DataDefinition {
    type V = DataDefinitionView;

    open spec fn view(&self) -> DataDefinitionView {
        DataDefinitionView {
            define_id: self.define_id,
            datum_name: self.datum_name@,
            units_name: self.units_name@,
            datum_type: self.datum_type,
            datum_id: self.datum_id,
        }
    }
}

/// The name of the unit a field is wanted in; empty where none is.
pub open spec fn unit_name(sim_unit: Option<Box<dyn SimUnit>>) -> Seq<char> {
    match sim_unit {
        Some(unit) => unit.unit_name(),
        None => Seq::empty(),
    }
}

/// The host call that declares `datum` as a field of the structure registered
/// under `define_id`.
pub open spec fn definition_of(define_id: u32, datum: SimConnectDatum) -> DataDefinitionView {
    DataDefinitionView {
        define_id,
        datum_name: wire_name(datum.sim_var.name()),
        units_name: wire_name(unit_name(datum.sim_unit)),
        datum_type: datum.data_type.code() as i32,
        datum_id: datum.id,
    }
}

/// The host calls that declare a structure: one for each field, in the order
/// of the fields.
pub fn data_definitions(define_id: u32, fields: &Vec<SimConnectDatum>) -> (calls: Vec<
    DataDefinition,
>)
    ensures
        calls@.len() == fields@.len(),
        forall|i: int| 0 <= i < fields@.len() ==> calls@[i]@ == definition_of(define_id, fields@[i]),
        forall|i: int|
            0 <= i < calls@.len() ==> is_c_string(#[trigger] calls@[i].datum_name@) && is_c_string(
                calls@[i].units_name@,
            ),
{
    let mut calls: Vec<DataDefinition> = Vec::new();
    let mut i: usize = 0;
    while i < fields.len()
        invariant
            i <= fields.len(),
            calls@.len() == i,
            forall|j: int| 0 <= j < i ==> calls@[j]@ == definition_of(define_id, fields@[j]),
            forall|j: int|
                0 <= j < i ==> is_c_string(#[trigger] calls@[j].datum_name@) && is_c_string(
                    calls@[j].units_name@,
                ),
        decreases fields.len() - i,
    {
        let field = &fields[i];
        let units_name = match &field.sim_unit {
            Some(unit) => unit.unit_string(),
            None => {
                proof {
                    reveal_strlit("");
                }
                assert(""@ =~= Seq::<char>::empty());
                assert(!has_nul(""@));
                encode_name("")
            },
        };
        calls.push(
            DataDefinition {
                define_id,
                datum_name: field.sim_var.sc_string(),
                units_name,
                datum_type: i32::from(field.data_type),
                datum_id: field.id,
            },
        );
        i += 1;
    }
    calls
}

} // verus!
