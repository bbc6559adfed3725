//! The envelope decoder: from a parsed JSON value to a [`Response`].
//!
//! The daemon returns one untyped envelope whose payload shape depends on the
//! endpoint and on runtime content, with no discriminator tag. The decoder
//! resolves the shape structurally, trying the variants in a fixed,
//! documented order: first the bus message (where JSON `null`, an absent
//! `response` field and an empty object all mean "no message available"),
//! then the properties collection, then the single property. The first
//! structural match wins; shape resolution order is a contract of this
//! module, not an accident.
use vstd::prelude::*;
use crate::gstd_types::{
    Bus, BusData, Node, NodeData, Param, ParamData, Properties, PropertiesData, Property,
    PropertyData, PropertyValue, PropertyValueData, Response, ResponseData, ResponseT,
    ResponseTData, code_of, nodes_model, props_model,
};
use crate::json::{JsonData, JsonValue, arr_model, json_parse, obj_model, parse_json_text};
use crate::errors::Error;
use crate::gstd_types::ResponseCode;
use vstd::string::*;

verus! {

/// How often a key occurs among the members at or after position `i`.
pub open spec fn key_count_from(ms: Seq<(Seq<char>, JsonData)>, k: Seq<char>, i: int) -> int
    decreases ms.len() - i,
{
    if !(0 <= i && i < ms.len()) {
        0
    } else {
        (if ms[i].0 == k {
            1int
        } else {
            0int
        }) + key_count_from(ms, k, i + 1)
    }
}

/// The value under the first occurrence of a key at or after position `i`.
pub open spec fn field_from(ms: Seq<(Seq<char>, JsonData)>, k: Seq<char>, i: int) -> Option<
    JsonData,
>
    decreases ms.len() - i,
{
    if !(0 <= i && i < ms.len()) {
        None
    } else if ms[i].0 == k {
        Some(ms[i].1)
    } else {
        field_from(ms, k, i + 1)
    }
}

/// The value of a field that occurs exactly once; a missing or repeated key
/// yields `None`.
pub open spec fn field(ms: Seq<(Seq<char>, JsonData)>, k: Seq<char>) -> Option<JsonData> {
    if key_count_from(ms, k, 0) == 1 {
        field_from(ms, k, 0)
    } else {
        None
    }
}

/// A string-valued field.
pub open spec fn str_field(ms: Seq<(Seq<char>, JsonData)>, k: Seq<char>) -> Option<Seq<char>> {
    match field(ms, k) {
        Some(JsonData::Str(s)) => Some(s),
        _ => None,
    }
}

/// An integer-valued field.
pub open spec fn int_field(ms: Seq<(Seq<char>, JsonData)>, k: Seq<char>) -> Option<i64> {
    match field(ms, k) {
        Some(JsonData::Int(v)) => Some(v),
        _ => None,
    }
}

/// The bus-message shape: an object with the six bus fields.
pub open spec fn bus_of(ms: Seq<(Seq<char>, JsonData)>) -> Option<BusData> {
    match (
        str_field(ms, "type"@),
        str_field(ms, "source"@),
        str_field(ms, "timestamp"@),
        int_field(ms, "seqnum"@),
        str_field(ms, "message"@),
        str_field(ms, "debug"@),
    ) {
        (Some(t), Some(src), Some(ts), Some(sq), Some(m), Some(d)) => Some(
            BusData {
                message_type: t,
                source: src,
                timestamp: ts,
                seqnum: sq,
                message: m,
                debug: d,
            },
        ),
        _ => None,
    }
}

/// The shapes that mean "no message available": JSON `null` and the empty
/// object (an absent `response` field is handled by [`envelope_of`]).
pub open spec fn no_message(j: JsonData) -> bool {
    j == JsonData::Null || (j matches JsonData::Obj(ms) && ms.len() == 0)
}

/// A property value: a string, an integer or a boolean, tried in that order.
pub open spec fn value_of(j: JsonData) -> Option<PropertyValueData> {
    match j {
        JsonData::Str(s) => Some(PropertyValueData::String(s)),
        JsonData::Int(v) => Some(PropertyValueData::Integer(v)),
        JsonData::Bool(b) => Some(PropertyValueData::Bool(b)),
        _ => None,
    }
}

/// The descriptor shape: description, type name and access mode.
pub open spec fn param_of(ms: Seq<(Seq<char>, JsonData)>) -> Option<ParamData> {
    match (str_field(ms, "description"@), str_field(ms, "type"@), str_field(ms, "access"@)) {
        (Some(d), Some(t), Some(a)) => Some(
            ParamData { description: d, param_type: t, access: a },
        ),
        _ => None,
    }
}

/// The single-property shape: name, loosely-typed value and descriptor.
pub open spec fn property_of(ms: Seq<(Seq<char>, JsonData)>) -> Option<PropertyData> {
    match (str_field(ms, "name"@), field(ms, "value"@), field(ms, "param"@)) {
        (Some(n), Some(vj), Some(JsonData::Obj(pms))) => match (value_of(vj), param_of(pms)) {
            (Some(vd), Some(pd)) => Some(PropertyData { name: n, value: vd, param: pd }),
            _ => None,
        },
        _ => None,
    }
}

/// The node shape: an object with a name.
pub open spec fn node_of(j: JsonData) -> Option<NodeData> {
    match j {
        JsonData::Obj(ms) => match str_field(ms, "name"@) {
            Some(n) => Some(NodeData { name: n }),
            None => None,
        },
        _ => None,
    }
}

/// All elements at or after `i` decoded as nodes, or `None` if any fails.
pub open spec fn nodes_from(es: Seq<JsonData>, i: int) -> Option<Seq<NodeData>>
    decreases es.len() - i,
{
    if !(0 <= i && i < es.len()) {
        Some(Seq::<NodeData>::empty())
    } else {
        match node_of(es[i]) {
            Some(n) => match nodes_from(es, i + 1) {
                Some(rest) => Some(seq![n] + rest),
                None => None,
            },
            None => None,
        }
    }
}

/// All elements at or after `i` decoded as properties, or `None`.
pub open spec fn props_from(es: Seq<JsonData>, i: int) -> Option<Seq<PropertyData>>
    decreases es.len() - i,
{
    if !(0 <= i && i < es.len()) {
        Some(Seq::<PropertyData>::empty())
    } else {
        match es[i] {
            JsonData::Obj(pms) => match property_of(pms) {
                Some(p) => match props_from(es, i + 1) {
                    Some(rest) => Some(seq![p] + rest),
                    None => None,
                },
                None => None,
            },
            _ => None,
        }
    }
}

/// The properties-collection shape: a `properties` array of properties, and
/// an optional `nodes` array of nodes that defaults to empty when absent.
pub open spec fn properties_of(ms: Seq<(Seq<char>, JsonData)>) -> Option<PropertiesData> {
    match field(ms, "properties"@) {
        Some(JsonData::Arr(es)) => match props_from(es, 0) {
            Some(ps) => if key_count_from(ms, "nodes"@, 0) == 0 {
                Some(PropertiesData { properties: ps, nodes: Seq::<NodeData>::empty() })
            } else {
                match field(ms, "nodes"@) {
                    Some(JsonData::Arr(ns)) => match nodes_from(ns, 0) {
                        Some(nd) => Some(PropertiesData { properties: ps, nodes: nd }),
                        None => None,
                    },
                    _ => None,
                }
            },
            None => None,
        },
        _ => None,
    }
}

/// Resolves the payload shape, in the fixed order: bus message (including
/// its "no message" forms), then properties collection, then single
/// property. The first structural match wins.
pub open spec fn payload_of(j: JsonData) -> Option<ResponseTData> {
    if no_message(j) {
        Some(ResponseTData::Bus(None))
    } else {
        match j {
            JsonData::Obj(ms) => if bus_of(ms) is Some {
                Some(ResponseTData::Bus(Some(bus_of(ms)->Some_0)))
            } else if properties_of(ms) is Some {
                Some(ResponseTData::Properties(properties_of(ms)->Some_0))
            } else if property_of(ms) is Some {
                Some(ResponseTData::Property(property_of(ms)->Some_0))
            } else {
                None
            },
            _ => None,
        }
    }
}

/// The envelope shape: an object with an enumerated `code`, a string
/// `description`, and a `response` payload whose absence means "no message
/// available".
pub open spec fn envelope_of(j: JsonData) -> Option<ResponseData> {
    match j {
        JsonData::Obj(ms) => match (int_field(ms, "code"@), str_field(ms, "description"@)) {
            (Some(cv), Some(desc)) => match code_of(cv as int) {
                Some(code) => if key_count_from(ms, "response"@, 0) == 0 {
                    Some(
                        ResponseData {
                            code,
                            description: desc,
                            response: ResponseTData::Bus(None),
                        },
                    )
                } else {
                    match field(ms, "response"@) {
                        Some(pj) => match payload_of(pj) {
                            Some(p) => Some(
                                ResponseData { code, description: desc, response: p },
                            ),
                            None => None,
                        },
                        None => None,
                    }
                },
                None => None,
            },
            _ => None,
        },
        _ => None,
    }
}


proof fn lemma_key_count_bounds(ms: Seq<(Seq<char>, JsonData)>, k: Seq<char>, i: int)
    requires
        0 <= i <= ms.len(),
    ensures
        0 <= key_count_from(ms, k, i) <= ms.len() - i,
    decreases ms.len() - i,
{
    if i < ms.len() {
        lemma_key_count_bounds(ms, k, i + 1);
    }
}

proof fn lemma_key_count_field(ms: Seq<(Seq<char>, JsonData)>, k: Seq<char>, i: int)
    requires
        key_count_from(ms, k, i) > 0,
    ensures
        field_from(ms, k, i) is Some,
    decreases ms.len() - i,
{
    if 0 <= i && i < ms.len() && ms[i].0 != k {
        lemma_key_count_field(ms, k, i + 1);
    }
}

/// Character-for-character string equality.
fn str_eq(a: &str, b: &str) -> (r: bool)
    ensures
        r == (a@ == b@),
{
    let na = a.unicode_len();
    let nb = b.unicode_len();
    if na != nb {
        return false;
    }
    let mut i: usize = 0;
    while i < na
        invariant
            i <= na,
            na == a@.len(),
            nb == b@.len(),
            na == nb,
            forall|k: int| 0 <= k < i ==> a@[k] == b@[k],
        decreases na - i,
    {
        if a.get_char(i) != b.get_char(i) {
            return false;
        }
        i = i + 1;
    }
    proof {
        assert(a@ =~= b@);
    }
    true
}

/// How often a key occurs among an object's members.
fn field_count(ms: &Vec<(String, JsonValue)>, k: &str) -> (n: usize)
    ensures
        n as int == key_count_from(obj_model(ms@), k@, 0),
{
    let mut n: usize = 0;
    let mut j: usize = 0;
    while j < ms.len()
        invariant
            j <= ms.len(),
            n <= j,
            key_count_from(obj_model(ms@), k@, 0) == n + key_count_from(
                obj_model(ms@),
                k@,
                j as int,
            ),
        decreases ms.len() - j,
    {
        if str_eq(ms[j].0.as_str(), k) {
            n = n + 1;
        }
        j = j + 1;
    }
    n
}

/// The value of a field that occurs exactly once, if any.
fn get_field<'a>(ms: &'a Vec<(String, JsonValue)>, k: &str) -> (r: Option<&'a JsonValue>)
    ensures
        r matches Some(v) ==> field(obj_model(ms@), k@) == Some(v.model()),
        r is None ==> field(obj_model(ms@), k@) is None,
{
    let n = field_count(ms, k);
    if n != 1 {
        return None;
    }
    let mut j: usize = 0;
    while j < ms.len()
        invariant
            j <= ms.len(),
            key_count_from(obj_model(ms@), k@, 0) == 1,
            field_from(obj_model(ms@), k@, 0) == field_from(obj_model(ms@), k@, j as int),
        decreases ms.len() - j,
    {
        if str_eq(ms[j].0.as_str(), k) {
            return Some(&ms[j].1);
        }
        j = j + 1;
    }
    proof {
        lemma_key_count_field(obj_model(ms@), k@, 0);
        assert(false);
    }
    None
}

/// A string-valued field, copied out.
fn get_str_field(ms: &Vec<(String, JsonValue)>, k: &str) -> (r: Option<String>)
    ensures
        r matches Some(s) ==> str_field(obj_model(ms@), k@) == Some(s@),
        r is None ==> str_field(obj_model(ms@), k@) is None,
{
    match get_field(ms, k) {
        Some(v) => match v {
            JsonValue::Str(s) => Some(s.clone()),
            _ => None,
        },
        None => None,
    }
}

/// An integer-valued field.
fn get_int_field(ms: &Vec<(String, JsonValue)>, k: &str) -> (r: Option<i64>)
    ensures
        r matches Some(v) ==> int_field(obj_model(ms@), k@) == Some(v),
        r is None ==> int_field(obj_model(ms@), k@) is None,
{
    match get_field(ms, k) {
        Some(v) => match v {
            JsonValue::Int(i) => Some(*i),
            _ => None,
        },
        None => None,
    }
}

/// Decodes the bus-message shape.
fn decode_bus(ms: &Vec<(String, JsonValue)>) -> (r: Option<Bus>)
    ensures
        r matches Some(b) ==> bus_of(obj_model(ms@)) == Some(b@),
        r is None ==> bus_of(obj_model(ms@)) is None,
{
    let t = get_str_field(ms, "type");
    let src = get_str_field(ms, "source");
    let ts = get_str_field(ms, "timestamp");
    let sq = get_int_field(ms, "seqnum");
    let m = get_str_field(ms, "message");
    let d = get_str_field(ms, "debug");
    match (t, src, ts, sq, m, d) {
        (Some(t), Some(src), Some(ts), Some(sq), Some(m), Some(d)) => Some(
            Bus {
                message_type: t,
                source: src,
                timestamp: ts,
                seqnum: sq,
                message: m,
                debug: d,
            },
        ),
        _ => None,
    }
}

/// Decodes a property value: a string, an integer or a boolean.
fn decode_value(j: &JsonValue) -> (r: Option<PropertyValue>)
    ensures
        r matches Some(v) ==> value_of(j.model()) == Some(v@),
        r is None ==> value_of(j.model()) is None,
{
    match j {
        JsonValue::Str(s) => Some(PropertyValue::String(s.clone())),
        JsonValue::Int(i) => Some(PropertyValue::Integer(*i)),
        JsonValue::Bool(b) => Some(PropertyValue::Bool(*b)),
        _ => None,
    }
}

/// Decodes the descriptor shape.
fn decode_param(ms: &Vec<(String, JsonValue)>) -> (r: Option<Param>)
    ensures
        r matches Some(p) ==> param_of(obj_model(ms@)) == Some(p@),
        r is None ==> param_of(obj_model(ms@)) is None,
{
    let d = get_str_field(ms, "description");
    let t = get_str_field(ms, "type");
    let a = get_str_field(ms, "access");
    match (d, t, a) {
        (Some(d), Some(t), Some(a)) => Some(Param { description: d, param_type: t, access: a }),
        _ => None,
    }
}

/// Decodes the single-property shape.
fn decode_property(ms: &Vec<(String, JsonValue)>) -> (r: Option<Property>)
    ensures
        r matches Some(p) ==> property_of(obj_model(ms@)) == Some(p@),
        r is None ==> property_of(obj_model(ms@)) is None,
{
    let n = get_str_field(ms, "name");
    let vj = get_field(ms, "value");
    let pj = get_field(ms, "param");
    match (n, vj, pj) {
        (Some(n), Some(vj), Some(pj)) => match pj {
            JsonValue::Obj(pms) => match (decode_value(vj), decode_param(pms)) {
                (Some(vd), Some(pd)) => Some(Property { name: n, value: vd, param: pd }),
                _ => None,
            },
            _ => None,
        },
        _ => None,
    }
}

/// Decodes the node shape.
fn decode_node(j: &JsonValue) -> (r: Option<Node>)
    ensures
        r matches Some(n) ==> node_of(j.model()) == Some(n@),
        r is None ==> node_of(j.model()) is None,
{
    match j {
        JsonValue::Obj(ms) => match get_str_field(ms, "name") {
            Some(n) => Some(Node { name: n }),
            None => None,
        },
        _ => None,
    }
}

/// The decoded tail of a node list, with a prefix already decoded.
pub open spec fn prepend_nodes(p: Seq<NodeData>, r: Option<Seq<NodeData>>) -> Option<
    Seq<NodeData>,
> {
    match r {
        Some(x) => Some(p + x),
        None => None,
    }
}

proof fn lemma_prepend_nodes_assoc(p: Seq<NodeData>, n: NodeData, r: Option<Seq<NodeData>>)
    ensures
        prepend_nodes(p, prepend_nodes(seq![n], r)) == prepend_nodes(p.push(n), r),
{
    match r {
        Some(x) => {
            assert(p + (seq![n] + x) =~= p.push(n) + x);
        },
        None => {},
    }
}

/// Decodes every element of an array as a node.
fn decode_nodes(es: &Vec<JsonValue>) -> (r: Option<Vec<Node>>)
    ensures
        r matches Some(v) ==> nodes_from(arr_model(es@), 0) == Some(nodes_model(v@)),
        r is None ==> nodes_from(arr_model(es@), 0) is None,
{
    let mut out: Vec<Node> = Vec::new();
    let mut j: usize = 0;
    proof {
        assert(nodes_model(out@) =~= Seq::<NodeData>::empty());
    }
    while j < es.len()
        invariant
            j <= es.len(),
            nodes_from(arr_model(es@), 0) == prepend_nodes(
                nodes_model(out@),
                nodes_from(arr_model(es@), j as int),
            ),
        decreases es.len() - j,
    {
        match decode_node(&es[j]) {
            Some(n) => {
                proof {
                    let m = arr_model(es@);
                    assert(nodes_from(m, j as int) == prepend_nodes(
                        seq![n@],
                        nodes_from(m, j as int + 1),
                    ));
                    lemma_prepend_nodes_assoc(nodes_model(out@), n@, nodes_from(m, j as int + 1));
                    assert(nodes_model(out@.push(n)) =~= nodes_model(out@).push(n@));
                }
                out.push(n);
                j = j + 1;
            },
            None => {
                return None;
            },
        }
    }
    proof {
        assert(nodes_model(out@) + Seq::<NodeData>::empty() =~= nodes_model(out@));
    }
    Some(out)
}

/// The decoded tail of a property list, with a prefix already decoded.
pub open spec fn prepend_props(p: Seq<PropertyData>, r: Option<Seq<PropertyData>>) -> Option<
    Seq<PropertyData>,
> {
    match r {
        Some(x) => Some(p + x),
        None => None,
    }
}

proof fn lemma_prepend_props_assoc(p: Seq<PropertyData>, n: PropertyData, r: Option<
    Seq<PropertyData>,
>)
    ensures
        prepend_props(p, prepend_props(seq![n], r)) == prepend_props(p.push(n), r),
{
    match r {
        Some(x) => {
            assert(p + (seq![n] + x) =~= p.push(n) + x);
        },
        None => {},
    }
}

/// Decodes every element of an array as a property.
fn decode_props(es: &Vec<JsonValue>) -> (r: Option<Vec<Property>>)
    ensures
        r matches Some(v) ==> props_from(arr_model(es@), 0) == Some(props_model(v@)),
        r is None ==> props_from(arr_model(es@), 0) is None,
{
    let mut out: Vec<Property> = Vec::new();
    let mut j: usize = 0;
    proof {
        assert(props_model(out@) =~= Seq::<PropertyData>::empty());
    }
    while j < es.len()
        invariant
            j <= es.len(),
            props_from(arr_model(es@), 0) == prepend_props(
                props_model(out@),
                props_from(arr_model(es@), j as int),
            ),
        decreases es.len() - j,
    {
        match &es[j] {
            JsonValue::Obj(pms) => {
                match decode_property(pms) {
                    Some(p) => {
                        proof {
                            let m = arr_model(es@);
                            assert(props_from(m, j as int) == prepend_props(
                                seq![p@],
                                props_from(m, j as int + 1),
                            ));
                            lemma_prepend_props_assoc(
                                props_model(out@),
                                p@,
                                props_from(m, j as int + 1),
                            );
                            assert(props_model(out@.push(p)) =~= props_model(out@).push(p@));
                        }
                        out.push(p);
                        j = j + 1;
                    },
                    None => {
                        return None;
                    },
                }
            },
            _ => {
                return None;
            },
        }
    }
    proof {
        assert(props_model(out@) + Seq::<PropertyData>::empty() =~= props_model(out@));
    }
    Some(out)
}

/// Decodes the properties-collection shape.
fn decode_properties(ms: &Vec<(String, JsonValue)>) -> (r: Option<Properties>)
    ensures
        r matches Some(p) ==> properties_of(obj_model(ms@)) == Some(p@),
        r is None ==> properties_of(obj_model(ms@)) is None,
{
    match get_field(ms, "properties") {
        Some(v) => match v {
            JsonValue::Arr(es) => match decode_props(es) {
                Some(ps) => {
                    let nk = field_count(ms, "nodes");
                    if nk == 0 {
                        let nd: Vec<Node> = Vec::new();
                        proof {
                            assert(nodes_model(nd@) =~= Seq::<NodeData>::empty());
                        }
                        Some(Properties { properties: ps, nodes: nd })
                    } else {
                        match get_field(ms, "nodes") {
                            Some(v2) => match v2 {
                                JsonValue::Arr(ns) => match decode_nodes(ns) {
                                    Some(nd) => Some(Properties { properties: ps, nodes: nd }),
                                    None => None,
                                },
                                _ => None,
                            },
                            None => None,
                        }
                    }
                },
                None => None,
            },
            _ => None,
        },
        None => None,
    }
}

/// Resolves the payload shape, in the fixed order bus, properties, property.
fn decode_payload(j: &JsonValue) -> (r: Option<ResponseT>)
    ensures
        r matches Some(p) ==> payload_of(j.model()) == Some(p@),
        r is None ==> payload_of(j.model()) is None,
{
    let nm = match j {
        JsonValue::Null => true,
        JsonValue::Obj(ms) => ms.len() == 0,
        _ => false,
    };
    if nm {
        return Some(ResponseT::Bus(None));
    }
    match j {
        JsonValue::Obj(ms) => {
            match decode_bus(ms) {
                Some(b) => {
                    return Some(ResponseT::Bus(Some(b)));
                },
                None => {},
            }
            match decode_properties(ms) {
                Some(p) => {
                    return Some(ResponseT::Properties(p));
                },
                None => {},
            }
            match decode_property(ms) {
                Some(p) => {
                    return Some(ResponseT::Property(p));
                },
                None => {},
            }
            None
        },
        _ => None,
    }
}

/// Decodes the envelope shape from a parsed JSON value.
pub fn decode_envelope(j: &JsonValue) -> (r: Option<Response>)
    ensures
        r matches Some(resp) ==> envelope_of(j.model()) == Some(resp@),
        r is None ==> envelope_of(j.model()) is None,
{
    match j {
        JsonValue::Obj(ms) => {
            let cv = get_int_field(ms, "code");
            let desc = get_str_field(ms, "description");
            match (cv, desc) {
                (Some(cv), Some(desc)) => match crate::gstd_types::response_code_from_value(cv) {
                    Some(code) => {
                        let rk = field_count(ms, "response");
                        if rk == 0 {
                            Some(
                                Response {
                                    code,
                                    description: desc,
                                    response: ResponseT::Bus(None),
                                },
                            )
                        } else {
                            match get_field(ms, "response") {
                                Some(pj) => match decode_payload(pj) {
                                    Some(p) => Some(
                                        Response { code, description: desc, response: p },
                                    ),
                                    None => None,
                                },
                                None => None,
                            }
                        }
                    },
                    None => None,
                },
                _ => None,
            }
        },
        _ => None,
    }
}


/// An HTTP status of the success class.
pub open spec fn status_success(status: u16) -> bool {
    200 <= status && status < 300
}

/// What decoding a raw response must yield, layer by layer: a non-2xx
/// status fails with that status before the body is looked at; a body that
/// is not JSON, or whose JSON matches no envelope shape, is malformed; an
/// envelope whose code is not `Success` is a domain failure carrying that
/// code; and only a success-coded envelope is returned.
pub open spec fn decodes_to(status: u16, body: Seq<char>, r: Result<Response, Error>) -> bool {
    &&& (!status_success(status) ==> (r matches Err(e) && e matches Error::UnsuccessfulHttpStatus(
        s,
    ) && s == status))
    &&& (status_success(status) ==> (json_parse(body) is None ==> (r matches Err(e)
        && e is MalformedBody)))
    &&& (status_success(status) ==> (json_parse(body) matches Some(j) ==> (envelope_of(j) is None
        ==> (r matches Err(e) && e is MalformedBody))))
    &&& (status_success(status) ==> (json_parse(body) matches Some(j) ==> (envelope_of(j)
        matches Some(env) ==> (env.code != ResponseCode::Success ==> (r matches Err(e)
        && e matches Error::DomainFailure(c) && c == env.code)))))
    &&& (status_success(status) ==> (json_parse(body) matches Some(j) ==> (envelope_of(j)
        matches Some(env) ==> (env.code == ResponseCode::Success ==> (r matches Ok(resp)
        && resp@ == env)))))
}

/// Decodes a raw response body against its HTTP status: status first, then
/// the JSON envelope with its structural payload resolution, then the
/// domain status code.
pub fn decode_response(status: u16, body: &str) -> (r: Result<Response, Error>)
    ensures
        decodes_to(status, body@, r),
{
    if !(200 <= status && status < 300) {
        return Err(Error::UnsuccessfulHttpStatus(status));
    }
    match parse_json_text(body) {
        None => Err(Error::MalformedBody(String::from_str("the body is not valid JSON"))),
        Some(j) => match decode_envelope(&j) {
            None => Err(
                Error::MalformedBody(String::from_str("the body matches no envelope shape")),
            ),
            Some(resp) => {
                let code = resp.code;
                if code == ResponseCode::Success {
                    Ok(resp)
                } else {
                    Err(Error::DomainFailure(code))
                }
            },
        },
    }
}

} // verus!
