//! Wire-level data model of the daemon's HTTP API: the response envelope,
//! its status-code enumeration and the payload variants.
use vstd::prelude::*;

verus! {

/// Response envelope returned by every endpoint of the daemon.
#[derive(Clone, Debug)]
pub struct Response {
    /// Status of the response.
    pub code: ResponseCode,
    /// Human-readable mirror of [`Response::code`].
    pub description: String,
    /// The actual response data from the server.
    pub response: ResponseT,
}

/// Closed enumeration of daemon status codes. On the wire each value is a
/// small integer; see [`code_value`] for the mapping.
/// [`ResponseCode::Success`] is the sole non-error code.
#[derive(Clone, Copy, Debug, PartialEq, Eq, Structural)]
pub enum ResponseCode {
    /// Everything went OK.
    Success,
    /// A mandatory argument was passed NULL.
    NullArgument,
    /// A bad pipeline description was provided.
    BadDescription,
    /// The name trying to be used already exists.
    ExistingName,
    /// Missing initialization.
    MissingInitialization,
    /// The requested pipeline was not found.
    NoPipeline,
    /// The requested resource was not found.
    NoResource,
    /// Cannot create a resource in the given property.
    NoCreate,
    /// The resource to create already exists.
    ExistingResource,
    /// Cannot update the given property.
    NoUpdate,
    /// Unknown command.
    BadCommand,
    /// Cannot read the given resource.
    NoRead,
    /// Cannot connect.
    NoConnection,
    /// The given value is incorrect.
    BadValue,
    /// Failed to change state of a pipeline.
    StateError,
    /// Failed to start IPC.
    IpcError,
    /// Unknown event.
    EventError,
    /// Incomplete arguments in user input.
    MissingArgument,
    /// Missing name of the pipeline.
    MissingName,
}

/// The wire value of each status code.
pub open spec fn code_value(c: ResponseCode) -> u8 {
    match c {
        ResponseCode::Success => 0,
        ResponseCode::NullArgument => 1,
        ResponseCode::BadDescription => 2,
        ResponseCode::ExistingName => 3,
        ResponseCode::MissingInitialization => 4,
        ResponseCode::NoPipeline => 5,
        ResponseCode::NoResource => 6,
        ResponseCode::NoCreate => 7,
        ResponseCode::ExistingResource => 8,
        ResponseCode::NoUpdate => 9,
        ResponseCode::BadCommand => 10,
        ResponseCode::NoRead => 11,
        ResponseCode::NoConnection => 12,
        ResponseCode::BadValue => 13,
        ResponseCode::StateError => 14,
        ResponseCode::IpcError => 15,
        ResponseCode::EventError => 16,
        ResponseCode::MissingArgument => 17,
        ResponseCode::MissingName => 18,
    }
}

/// The status code a wire value stands for, if any.
pub open spec fn code_of(v: int) -> Option<ResponseCode> {
    if v == 0 {
        Some(ResponseCode::Success)
    } else if v == 1 {
        Some(ResponseCode::NullArgument)
    } else if v == 2 {
        Some(ResponseCode::BadDescription)
    } else if v == 3 {
        Some(ResponseCode::ExistingName)
    } else if v == 4 {
        Some(ResponseCode::MissingInitialization)
    } else if v == 5 {
        Some(ResponseCode::NoPipeline)
    } else if v == 6 {
        Some(ResponseCode::NoResource)
    } else if v == 7 {
        Some(ResponseCode::NoCreate)
    } else if v == 8 {
        Some(ResponseCode::ExistingResource)
    } else if v == 9 {
        Some(ResponseCode::NoUpdate)
    } else if v == 10 {
        Some(ResponseCode::BadCommand)
    } else if v == 11 {
        Some(ResponseCode::NoRead)
    } else if v == 12 {
        Some(ResponseCode::NoConnection)
    } else if v == 13 {
        Some(ResponseCode::BadValue)
    } else if v == 14 {
        Some(ResponseCode::StateError)
    } else if v == 15 {
        Some(ResponseCode::IpcError)
    } else if v == 16 {
        Some(ResponseCode::EventError)
    } else if v == 17 {
        Some(ResponseCode::MissingArgument)
    } else if v == 18 {
        Some(ResponseCode::MissingName)
    } else {
        None
    }
}

/// Executable form of [`code_of`].
pub fn response_code_from_value(v: i64) -> (r: Option<ResponseCode>)
    ensures
        r == code_of(v as int),
{
    if v == 0 {
        Some(ResponseCode::Success)
    } else if v == 1 {
        Some(ResponseCode::NullArgument)
    } else if v == 2 {
        Some(ResponseCode::BadDescription)
    } else if v == 3 {
        Some(ResponseCode::ExistingName)
    } else if v == 4 {
        Some(ResponseCode::MissingInitialization)
    } else if v == 5 {
        Some(ResponseCode::NoPipeline)
    } else if v == 6 {
        Some(ResponseCode::NoResource)
    } else if v == 7 {
        Some(ResponseCode::NoCreate)
    } else if v == 8 {
        Some(ResponseCode::ExistingResource)
    } else if v == 9 {
        Some(ResponseCode::NoUpdate)
    } else if v == 10 {
        Some(ResponseCode::BadCommand)
    } else if v == 11 {
        Some(ResponseCode::NoRead)
    } else if v == 12 {
        Some(ResponseCode::NoConnection)
    } else if v == 13 {
        Some(ResponseCode::BadValue)
    } else if v == 14 {
        Some(ResponseCode::StateError)
    } else if v == 15 {
        Some(ResponseCode::IpcError)
    } else if v == 16 {
        Some(ResponseCode::EventError)
    } else if v == 17 {
        Some(ResponseCode::MissingArgument)
    } else if v == 18 {
        Some(ResponseCode::MissingName)
    } else {
        None
    }
}

/// Executable form of [`code_value`].
pub fn response_code_value(c: ResponseCode) -> (r: u8)
    ensures
        r == code_value(c),
{
    match c {
        ResponseCode::Success => 0,
        ResponseCode::NullArgument => 1,
        ResponseCode::BadDescription => 2,
        ResponseCode::ExistingName => 3,
        ResponseCode::MissingInitialization => 4,
        ResponseCode::NoPipeline => 5,
        ResponseCode::NoResource => 6,
        ResponseCode::NoCreate => 7,
        ResponseCode::ExistingResource => 8,
        ResponseCode::NoUpdate => 9,
        ResponseCode::BadCommand => 10,
        ResponseCode::NoRead => 11,
        ResponseCode::NoConnection => 12,
        ResponseCode::BadValue => 13,
        ResponseCode::StateError => 14,
        ResponseCode::IpcError => 15,
        ResponseCode::EventError => 16,
        ResponseCode::MissingArgument => 17,
        ResponseCode::MissingName => 18,
    }
}

/// The wire mapping of status codes is a bijection between the enumeration
/// and the integers it uses: encoding a code and reading it back yields the
/// same code, and any integer that decodes at all decodes to the unique code
/// that encodes to it.
pub proof fn lemma_code_value_roundtrip(c: ResponseCode, v: int)
    ensures
        code_of(code_value(c) as int) == Some(c),
        code_of(v) matches Some(d) ==> code_value(d) == v,
{
}

/// Payload of the envelope: one of several shapes, mutually exclusive,
/// discriminated by structure rather than by an explicit tag.
#[derive(Clone, Debug)]
pub enum ResponseT {
    /// A bus message, or `None` when no message is currently available.
    Bus(Option<Bus>),
    /// A collection of properties together with child-node references.
    Properties(Properties),
    /// A single property.
    Property(Property),
}

/// Descriptor of a property: free-text description, type name and access mode.
#[derive(Clone, Debug)]
pub struct Param {
    pub description: String,
    pub param_type: String,
    pub access: String,
}

/// Properties of a resource together with the names of its child resources.
#[derive(Clone, Debug)]
pub struct Properties {
    pub properties: Vec<Property>,
    /// Child-node references; empty when the daemon sends none.
    pub nodes: Vec<Node>,
}

/// Name-only reference to a child resource such as an element.
#[derive(Clone, Debug)]
pub struct Node {
    pub name: String,
}

/// A single named property with its loosely-typed value and its descriptor.
#[derive(Clone, Debug)]
pub struct Property {
    pub name: String,
    pub value: PropertyValue,
    pub param: Param,
}

/// A property value: a string, an integer or a boolean.
#[derive(Clone, Debug)]
pub enum PropertyValue {
    String(String),
    Integer(i64),
    Bool(bool),
}

/// A message read from a pipeline's bus.
#[derive(Clone, Debug)]
pub struct Bus {
    pub message_type: String,
    pub source: String,
    pub timestamp: String,
    pub seqnum: i64,
    pub message: String,
    pub debug: String,
}

/// How a seek positions the stream.
#[derive(Clone, Copy, Debug, PartialEq, Eq, Structural)]
pub enum SeekType {
    NoSeek,
    Absolute,
    Relative,
}

/// The wire value of each [`SeekType`].
pub open spec fn seek_type_value(t: SeekType) -> i32 {
    match t {
        SeekType::NoSeek => 0,
        SeekType::Absolute => 1,
        SeekType::Relative => 2,
    }
}

/// Executable form of [`seek_type_value`].
pub fn seek_type_wire_value(t: SeekType) -> (r: i32)
    ensures
        r == seek_type_value(t),
{
    match t {
        SeekType::NoSeek => 0,
        SeekType::Absolute => 1,
        SeekType::Relative => 2,
    }
}

/// Units in which stream positions and durations are expressed.
#[derive(Clone, Copy, Debug, PartialEq, Eq, Structural)]
pub enum GstFormat {
    Undefined,
    Default,
    Bytes,
    TimeInNanoseconds,
    Buffers,
    Percent,
}

/// The wire value of each [`GstFormat`].
pub open spec fn gst_format_value(f: GstFormat) -> i32 {
    match f {
        GstFormat::Undefined => 0,
        GstFormat::Default => 1,
        GstFormat::Bytes => 2,
        GstFormat::TimeInNanoseconds => 3,
        GstFormat::Buffers => 4,
        GstFormat::Percent => 5,
    }
}

/// Executable form of [`gst_format_value`].
pub fn gst_format_wire_value(f: GstFormat) -> (r: i32)
    ensures
        r == gst_format_value(f),
{
    match f {
        GstFormat::Undefined => 0,
        GstFormat::Default => 1,
        GstFormat::Bytes => 2,
        GstFormat::TimeInNanoseconds => 3,
        GstFormat::Buffers => 4,
        GstFormat::Percent => 5,
    }
}

/// Flags that modify how a seek is performed.
#[derive(Clone, Copy, Debug, PartialEq, Eq, Structural)]
pub enum SeekFlags {
    NoFlags,
    Flush,
    Accurate,
    KeyUnit,
    Segment,
    TrickMode,
    SnapBefore,
    SnapAfter,
    SnapNearest,
    TrickModeKeyUnits,
    TrickModeNoAudio,
    TrickModeForwardPredicted,
    InstantRateChange,
}

/// The wire value of each [`SeekFlags`] flag.
pub open spec fn seek_flags_value(f: SeekFlags) -> i32 {
    match f {
        SeekFlags::NoFlags => 0,
        SeekFlags::Flush => 1,
        SeekFlags::Accurate => 2,
        SeekFlags::KeyUnit => 4,
        SeekFlags::Segment => 8,
        SeekFlags::TrickMode => 16,
        SeekFlags::SnapBefore => 32,
        SeekFlags::SnapAfter => 64,
        SeekFlags::SnapNearest => 96,
        SeekFlags::TrickModeKeyUnits => 128,
        SeekFlags::TrickModeNoAudio => 256,
        SeekFlags::TrickModeForwardPredicted => 512,
        SeekFlags::InstantRateChange => 1024,
    }
}

/// Executable form of [`seek_flags_value`].
pub fn seek_flags_wire_value(f: SeekFlags) -> (r: i32)
    ensures
        r == seek_flags_value(f),
{
    match f {
        SeekFlags::NoFlags => 0,
        SeekFlags::Flush => 1,
        SeekFlags::Accurate => 2,
        SeekFlags::KeyUnit => 4,
        SeekFlags::Segment => 8,
        SeekFlags::TrickMode => 16,
        SeekFlags::SnapBefore => 32,
        SeekFlags::SnapAfter => 64,
        SeekFlags::SnapNearest => 96,
        SeekFlags::TrickModeKeyUnits => 128,
        SeekFlags::TrickModeNoAudio => 256,
        SeekFlags::TrickModeForwardPredicted => 512,
        SeekFlags::InstantRateChange => 1024,
    }
}

/// Mathematical model of a [`Response`].
pub struct ResponseData {
    pub code: ResponseCode,
    pub description: Seq<char>,
    pub response: ResponseTData,
}

/// Mathematical model of a [`ResponseT`].
pub enum ResponseTData {
    Bus(Option<BusData>),
    Properties(PropertiesData),
    Property(PropertyData),
}

/// Mathematical model of a [`Properties`].
pub struct PropertiesData {
    pub properties: Seq<PropertyData>,
    pub nodes: Seq<NodeData>,
}

/// Mathematical model of a [`Node`].
pub struct NodeData {
    pub name: Seq<char>,
}

/// Mathematical model of a [`Property`].
pub struct PropertyData {
    pub name: Seq<char>,
    pub value: PropertyValueData,
    pub param: ParamData,
}

/// Mathematical model of a [`PropertyValue`].
pub enum PropertyValueData {
    String(Seq<char>),
    Integer(i64),
    Bool(bool),
}

/// Mathematical model of a [`Param`].
pub struct ParamData {
    pub description: Seq<char>,
    pub param_type: Seq<char>,
    pub access: Seq<char>,
}

/// Mathematical model of a [`Bus`].
pub struct BusData {
    pub message_type: Seq<char>,
    pub source: Seq<char>,
    pub timestamp: Seq<char>,
    pub seqnum: i64,
    pub message: Seq<char>,
    pub debug: Seq<char>,
}

impl View for Param {
    type V = ParamData;

    open spec fn view(&self) -> ParamData {
        ParamData {
            description: self.description@,
            param_type: self.param_type@,
            access: self.access@,
        }
    }
}

impl View for Node {
    type V = NodeData;

    open spec fn view(&self) -> NodeData {
        NodeData { name: self.name@ }
    }
}

impl View for PropertyValue {
    type V = PropertyValueData;

    open spec fn view(&self) -> PropertyValueData {
        match self {
            PropertyValue::String(s) => PropertyValueData::String(s@),
            PropertyValue::Integer(i) => PropertyValueData::Integer(*i),
            PropertyValue::Bool(b) => PropertyValueData::Bool(*b),
        }
    }
}

impl View for Property {
    type V = PropertyData;

    open spec fn view(&self) -> PropertyData {
        PropertyData { name: self.name@, value: self.value@, param: self.param@ }
    }
}

/// Models of a vector of properties.
pub open spec fn props_model(ps: Seq<Property>) -> Seq<PropertyData> {
    Seq::new(ps.len(), |i: int| if 0 <= i < ps.len() { ps[i]@ } else { PropertyData { name: Seq::empty(), value: PropertyValueData::Bool(false), param: ParamData { description: Seq::empty(), param_type: Seq::empty(), access: Seq::empty() } } })
}

/// Models of a vector of nodes.
pub open spec fn nodes_model(ns: Seq<Node>) -> Seq<NodeData> {
    Seq::new(ns.len(), |i: int| if 0 <= i < ns.len() { ns[i]@ } else { NodeData { name: Seq::empty() } })
}

impl View for Properties {
    type V = PropertiesData;

    open spec fn view(&self) -> PropertiesData {
        PropertiesData { properties: props_model(self.properties@), nodes: nodes_model(self.nodes@) }
    }
}

impl View for Bus {
    type V = BusData;

    open spec fn view(&self) -> BusData {
        BusData {
            message_type: self.message_type@,
            source: self.source@,
            timestamp: self.timestamp@,
            seqnum: self.seqnum,
            message: self.message@,
            debug: self.debug@,
        }
    }
}

impl View for ResponseT {
    type V = ResponseTData;

    open spec fn view(&self) -> ResponseTData {
        match self {
            ResponseT::Bus(None) => ResponseTData::Bus(None),
            ResponseT::Bus(Some(b)) => ResponseTData::Bus(Some(b@)),
            ResponseT::Properties(p) => ResponseTData::Properties(p@),
            ResponseT::Property(p) => ResponseTData::Property(p@),
        }
    }
}

impl View for Response {
    type V = ResponseData;

    open spec fn view(&self) -> ResponseData {
        ResponseData { code: self.code, description: self.description@, response: self.response@ }
    }
}

} // verus!
