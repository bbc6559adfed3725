//! The resource-addressing layer: stateless handles that compose request
//! paths for pipelines, their elements, element properties, the global debug
//! subsystem and a pipeline's bus.
//!
//! Each handle holds only the identifying path fragments; it owns no remote
//! state. Every operation yields a [`Request`] — the HTTP verb and the
//! percent-encoded relative path — which the embedding application sends
//! through the transport and decodes with the envelope pipeline.
use vstd::prelude::*;
use vstd::string::*;
use crate::gstd_types::{PropertyValue, PropertyValueData};
use crate::percent::{encode_component, is_query_delimiter, lemma_find_char_at, lemma_find_char_none, lemma_pct_no_delimiters, lemma_pct_roundtrip, pct_text, two_params};
use vstd::utf8::encode_utf8;

verus! {

/// An HTTP verb.
#[derive(Clone, Copy, Debug, PartialEq, Eq, Structural)]
pub enum Verb {
    Get,
    Post,
    Put,
    Delete,
}

/// A request to the daemon: a verb and a relative path (with query).
#[derive(Clone, Debug)]
pub struct Request {
    pub verb: Verb,
    pub path: String,
}

/// The decimal digit character for a value below 10.
pub open spec fn digit_char(d: u8) -> char {
    (0x30 + d) as char
}

/// The decimal text of a nonnegative number.
pub open spec fn dec_str(n: nat) -> Seq<char>
    decreases n,
{
    if n < 10 {
        seq![digit_char(n as u8)]
    } else {
        dec_str(n / 10).push(digit_char((n % 10) as u8))
    }
}

/// The decimal text of an integer, with a leading minus when negative.
pub open spec fn int_text(v: i64) -> Seq<char> {
    if v >= 0 {
        dec_str(v as nat)
    } else {
        seq!['-'] + dec_str((-(v as int)) as nat)
    }
}

/// How a property value is written into a query: a string is
/// percent-encoded, an integer is written in decimal, a boolean as `true`
/// or `false`.
pub open spec fn value_text(v: PropertyValueData) -> Seq<char> {
    match v {
        PropertyValueData::String(s) => pct_text(s),
        PropertyValueData::Integer(i) => int_text(i),
        PropertyValueData::Bool(b) => if b {
            "true"@
        } else {
            "false"@
        },
    }
}

fn u64_text(n: u64) -> (r: String)
    ensures
        r@ == dec_str(n as nat),
    decreases n,
{
    if n < 10 {
        let mut s = String::new();
        s.push((0x30 + (n as u8)) as char);
        proof {
            assert(s@ =~= seq![digit_char(n as u8)]);
        }
        s
    } else {
        let mut s = u64_text(n / 10);
        s.push((0x30 + ((n % 10) as u8)) as char);
        s
    }
}

fn i64_text(v: i64) -> (r: String)
    ensures
        r@ == int_text(v),
{
    if v >= 0 {
        u64_text(v as u64)
    } else {
        let m: u64 = if v == i64::MIN {
            0x8000_0000_0000_0000u64
        } else {
            (-v) as u64
        };
        let mut s = String::new();
        s.push('-');
        let t = u64_text(m);
        s.append(t.as_str());
        proof {
            assert(s@ =~= seq!['-'] + dec_str(m as nat));
        }
        s
    }
}

/// Writes a property value for a query parameter, per its variant.
pub fn encode_value(v: &PropertyValue) -> (r: String)
    ensures
        r@ == value_text(v@),
{
    match v {
        PropertyValue::String(s) => encode_component(s.as_str()),
        PropertyValue::Integer(i) => i64_text(*i),
        PropertyValue::Bool(b) => String::from_str(
            if *b {
                "true"
            } else {
                "false"
            },
        ),
    }
}

/// Path of the pipeline collection.
pub open spec fn pipelines_path() -> Seq<char> {
    "pipelines"@
}

/// Path and query that create a pipeline.
pub open spec fn create_path(name: Seq<char>, description: Seq<char>) -> Seq<char> {
    "pipelines?name="@ + pct_text(name) + "&description="@ + pct_text(description)
}

/// Path and query that destroy a pipeline.
pub open spec fn destroy_path(name: Seq<char>) -> Seq<char> {
    "pipelines?name="@ + pct_text(name)
}

/// Path of one pipeline.
pub open spec fn pipeline_path(name: Seq<char>) -> Seq<char> {
    "pipelines/"@ + pct_text(name)
}

/// Path of a pipeline's graph.
pub open spec fn graph_path(name: Seq<char>) -> Seq<char> {
    pipeline_path(name) + "/graph"@
}

/// Path of a pipeline's elements.
pub open spec fn elements_path(name: Seq<char>) -> Seq<char> {
    pipeline_path(name) + "/elements"@
}

/// Path and query that change a pipeline's state.
pub open spec fn state_path(name: Seq<char>, state: Seq<char>) -> Seq<char> {
    pipeline_path(name) + "/state?name="@ + state
}

/// Path that reads the next pending message of a pipeline's bus.
pub open spec fn bus_read_path(name: Seq<char>) -> Seq<char> {
    pipeline_path(name) + "/bus/message"@
}

/// Path of one property of one element of one pipeline.
pub open spec fn property_path(pipeline: Seq<char>, element: Seq<char>, prop: Seq<char>) -> Seq<
    char,
> {
    "pipelines/"@ + pct_text(pipeline) + "/elements/"@ + pct_text(element) + "/properties/"@
        + pct_text(prop)
}

/// Path and query that set one property to a value.
pub open spec fn set_property_path(
    pipeline: Seq<char>,
    element: Seq<char>,
    prop: Seq<char>,
    v: PropertyValueData,
) -> Seq<char> {
    property_path(pipeline, element, prop) + "?name="@ + value_text(v)
}

/// Path and query that switch the debug subsystem on or off.
pub open spec fn debug_enable_path(on: bool) -> Seq<char> {
    "debug/enable?name="@ + (if on {
        "true"@
    } else {
        "false"@
    })
}

/// Path and query that set the debug threshold.
pub open spec fn debug_threshold_path(level: Seq<char>) -> Seq<char> {
    "debug/threshold?name="@ + pct_text(level)
}

/// Path and query that switch colored debug output on or off.
pub open spec fn debug_color_path(on: bool) -> Seq<char> {
    "debug/color?name="@ + (if on {
        "true"@
    } else {
        "false"@
    })
}

/// A handle on one named pipeline.
#[derive(Clone, Debug)]
pub struct Pipeline {
    pub name: String,
}

impl Pipeline {
    /// A handle on the pipeline of this name.
    pub fn new(name: &str) -> (r: Pipeline)
        ensures
            r.name@ == name@,
    {
        Pipeline { name: String::from_str(name) }
    }

    /// The request that creates this pipeline from a textual description:
    /// `POST /pipelines?name=<name>&description=<description>`, both values
    /// percent-encoded.
    pub fn create(&self, description: &str) -> (r: Request)
        ensures
            r.verb == Verb::Post,
            r.path@ == create_path(self.name@, description@),
    {
        let mut p = String::from_str("pipelines?name=");
        let n = encode_component(self.name.as_str());
        p.append(n.as_str());
        p.append("&description=");
        let d = encode_component(description);
        p.append(d.as_str());
        proof {
            assert(p@ =~= create_path(self.name@, description@));
        }
        Request { verb: Verb::Post, path: p }
    }

    /// The request that destroys this pipeline.
    pub fn destroy(&self) -> (r: Request)
        ensures
            r.verb == Verb::Delete,
            r.path@ == destroy_path(self.name@),
    {
        let mut p = String::from_str("pipelines?name=");
        let n = encode_component(self.name.as_str());
        p.append(n.as_str());
        proof {
            assert(p@ =~= destroy_path(self.name@));
        }
        Request { verb: Verb::Delete, path: p }
    }

    fn state_request(&self, state: &str) -> (r: Request)
        ensures
            r.verb == Verb::Put,
            r.path@ == state_path(self.name@, state@),
    {
        let mut p = String::from_str("pipelines/");
        let n = encode_component(self.name.as_str());
        p.append(n.as_str());
        p.append("/state?name=");
        p.append(state);
        proof {
            assert(p@ =~= state_path(self.name@, state@));
        }
        Request { verb: Verb::Put, path: p }
    }

    /// The request that starts playback of this pipeline.
    pub fn play(&self) -> (r: Request)
        ensures
            r.verb == Verb::Put,
            r.path@ == state_path(self.name@, "playing"@),
    {
        self.state_request("playing")
    }

    /// The request that pauses this pipeline.
    pub fn pause(&self) -> (r: Request)
        ensures
            r.verb == Verb::Put,
            r.path@ == state_path(self.name@, "paused"@),
    {
        self.state_request("paused")
    }

    /// The request that stops this pipeline.
    pub fn stop(&self) -> (r: Request)
        ensures
            r.verb == Verb::Put,
            r.path@ == state_path(self.name@, "null"@),
    {
        self.state_request("null")
    }

    /// The request that retrieves this pipeline's graph.
    pub fn graph(&self) -> (r: Request)
        ensures
            r.verb == Verb::Get,
            r.path@ == graph_path(self.name@),
    {
        let mut p = String::from_str("pipelines/");
        let n = encode_component(self.name.as_str());
        p.append(n.as_str());
        p.append("/graph");
        proof {
            assert(p@ =~= graph_path(self.name@));
        }
        Request { verb: Verb::Get, path: p }
    }

    /// The request that lists this pipeline's elements; the decoded payload
    /// is properties-shaped, its nodes naming the elements.
    pub fn elements(&self) -> (r: Request)
        ensures
            r.verb == Verb::Get,
            r.path@ == elements_path(self.name@),
    {
        let mut p = String::from_str("pipelines/");
        let n = encode_component(self.name.as_str());
        p.append(n.as_str());
        p.append("/elements");
        proof {
            assert(p@ =~= elements_path(self.name@));
        }
        Request { verb: Verb::Get, path: p }
    }

    /// The request that retrieves this pipeline's properties.
    pub fn properties(&self) -> (r: Request)
        ensures
            r.verb == Verb::Get,
            r.path@ == pipeline_path(self.name@),
    {
        let mut p = String::from_str("pipelines/");
        let n = encode_component(self.name.as_str());
        p.append(n.as_str());
        proof {
            assert(p@ =~= pipeline_path(self.name@));
        }
        Request { verb: Verb::Get, path: p }
    }

    /// A handle on one element of this pipeline.
    pub fn element(&self, name: &str) -> (r: Element)
        ensures
            r.pipeline@ == self.name@,
            r.name@ == name@,
    {
        Element { pipeline: self.name.clone(), name: String::from_str(name) }
    }

    /// A handle on this pipeline's bus.
    pub fn bus(&self) -> (r: Bus)
        ensures
            r.pipeline@ == self.name@,
    {
        Bus { pipeline: self.name.clone() }
    }
}

/// A handle on one named element of one pipeline.
#[derive(Clone, Debug)]
pub struct Element {
    pub pipeline: String,
    pub name: String,
}

impl Element {
    /// A handle on one property of this element.
    pub fn property(&self, name: &str) -> (r: Property)
        ensures
            r.pipeline@ == self.pipeline@,
            r.element@ == self.name@,
            r.name@ == name@,
    {
        Property {
            pipeline: self.pipeline.clone(),
            element: self.name.clone(),
            name: String::from_str(name),
        }
    }
}

/// A handle on one property of one element of one pipeline.
#[derive(Clone, Debug)]
pub struct Property {
    pub pipeline: String,
    pub element: String,
    pub name: String,
}

impl Property {
    fn path_string(&self) -> (r: String)
        ensures
            r@ == property_path(self.pipeline@, self.element@, self.name@),
    {
        let mut p = String::from_str("pipelines/");
        let a = encode_component(self.pipeline.as_str());
        p.append(a.as_str());
        p.append("/elements/");
        let b = encode_component(self.element.as_str());
        p.append(b.as_str());
        p.append("/properties/");
        let c = encode_component(self.name.as_str());
        p.append(c.as_str());
        proof {
            assert(p@ =~= property_path(self.pipeline@, self.element@, self.name@));
        }
        p
    }

    /// The request that reads this property.
    pub fn get(&self) -> (r: Request)
        ensures
            r.verb == Verb::Get,
            r.path@ == property_path(self.pipeline@, self.element@, self.name@),
    {
        Request { verb: Verb::Get, path: self.path_string() }
    }

    /// The request that sets this property, the new value encoded per its
    /// variant.
    pub fn set(&self, value: &PropertyValue) -> (r: Request)
        ensures
            r.verb == Verb::Put,
            r.path@ == set_property_path(self.pipeline@, self.element@, self.name@, value@),
    {
        let mut p = self.path_string();
        p.append("?name=");
        let v = encode_value(value);
        p.append(v.as_str());
        proof {
            assert(p@ =~= set_property_path(self.pipeline@, self.element@, self.name@, value@));
        }
        Request { verb: Verb::Put, path: p }
    }
}

/// A handle on the daemon's global debug subsystem.
#[derive(Clone, Debug)]
pub struct Debug {}

impl Debug {
    /// A handle on the debug subsystem.
    pub fn new() -> (r: Debug) {
        Debug {  }
    }

    fn switch_request(&self, path: &str, on: bool) -> (r: Request)
        ensures
            r.verb == Verb::Put,
            r.path@ == path@ + (if on {
                "true"@
            } else {
                "false"@
            }),
    {
        let mut p = String::from_str(path);
        p.append(
            if on {
                "true"
            } else {
                "false"
            },
        );
        proof {
            assert(p@ =~= path@ + (if on {
                "true"@
            } else {
                "false"@
            }));
        }
        Request { verb: Verb::Put, path: p }
    }

    /// The request that switches debugging on.
    pub fn enable(&self) -> (r: Request)
        ensures
            r.verb == Verb::Put,
            r.path@ == debug_enable_path(true),
    {
        self.switch_request("debug/enable?name=", true)
    }

    /// The request that switches debugging off.
    pub fn disable(&self) -> (r: Request)
        ensures
            r.verb == Verb::Put,
            r.path@ == debug_enable_path(false),
    {
        self.switch_request("debug/enable?name=", false)
    }

    /// The request that sets the debug threshold.
    pub fn threshold(&self, level: &str) -> (r: Request)
        ensures
            r.verb == Verb::Put,
            r.path@ == debug_threshold_path(level@),
    {
        let mut p = String::from_str("debug/threshold?name=");
        let l = encode_component(level);
        p.append(l.as_str());
        proof {
            assert(p@ =~= debug_threshold_path(level@));
        }
        Request { verb: Verb::Put, path: p }
    }

    /// The request that switches colored debug output on or off.
    pub fn color_output(&self, on: bool) -> (r: Request)
        ensures
            r.verb == Verb::Put,
            r.path@ == debug_color_path(on),
    {
        self.switch_request("debug/color?name=", on)
    }
}

/// A handle on one pipeline's event bus.
#[derive(Clone, Debug)]
pub struct Bus {
    pub pipeline: String,
}

impl Bus {
    /// The request that reads the next pending message; the decoded payload
    /// is the optional bus variant, absence meaning no message is queued.
    pub fn read(&self) -> (r: Request)
        ensures
            r.verb == Verb::Get,
            r.path@ == bus_read_path(self.pipeline@),
    {
        let mut p = String::from_str("pipelines/");
        let n = encode_component(self.pipeline.as_str());
        p.append(n.as_str());
        p.append("/bus/message");
        proof {
            assert(p@ =~= bus_read_path(self.pipeline@));
        }
        Request { verb: Verb::Get, path: p }
    }
}


/// The query part of a create request.
pub open spec fn create_query(name: Seq<char>, description: Seq<char>) -> Seq<char> {
    "name="@ + pct_text(name) + seq!['&'] + "description="@ + pct_text(description)
}

/// The create request addresses the pipeline collection and carries exactly
/// two query parameters, `name` and `description`, in that order, and
/// percent-decoding each value yields exactly the UTF-8 bytes of the name
/// and of the description given — whatever characters they hold.
pub proof fn lemma_create_request_query(name: Seq<char>, description: Seq<char>)
    ensures
        create_path(name, description) == "pipelines?"@ + create_query(name, description),
        two_params(create_query(name, description)) == Some(
            (("name"@, encode_utf8(name)), ("description"@, encode_utf8(description))),
        ),
        vstd::utf8::decode_utf8(encode_utf8(name)) == name,
        vstd::utf8::decode_utf8(encode_utf8(description)) == description,
{
    vstd::utf8::encode_utf8_decode_utf8(name);
    vstd::utf8::encode_utf8_decode_utf8(description);
    reveal_strlit("pipelines?name=");
    reveal_strlit("pipelines?");
    reveal_strlit("name=");
    reveal_strlit("name");
    reveal_strlit("&description=");
    reveal_strlit("description=");
    reveal_strlit("description");
    let a_lit = "name="@;
    let b_lit = "description="@;
    let p = pct_text(name);
    let d = pct_text(description);
    lemma_pct_no_delimiters(encode_utf8(name));
    lemma_pct_no_delimiters(encode_utf8(description));
    lemma_pct_roundtrip(encode_utf8(name));
    lemma_pct_roundtrip(encode_utf8(description));
    let q = create_query(name, description);
    assert(create_path(name, description) =~= "pipelines?"@ + q);
    assert(a_lit.len() == 5);
    assert(b_lit.len() == 12);
    let a = a_lit.len() + p.len();
    assert(q.len() == a + 1 + b_lit.len() + d.len());
    assert(q[a as int] == '&');
    assert forall|k: int| 0 <= k < a implies q[k] != '&' by {
        if k < 5 {
            assert(q[k] == a_lit[k]);
        } else {
            assert(q[k] == p[k - 5]);
            assert(!is_query_delimiter(p[k - 5]));
        }
    }
    lemma_find_char_at(q, '&', 0, a as int);
    let first = q.take(a as int);
    let second = q.skip(a as int + 1);
    assert(first =~= a_lit + p);
    assert(second =~= b_lit + d);

    // first parameter: `name=` then the encoded name
    assert(first[4] == '=');
    assert forall|k: int| 0 <= k < 4 implies first[k] != '=' by {
        assert(first[k] == a_lit[k]);
    }
    lemma_find_char_at(first, '=', 0, 4);
    assert(first.take(4) =~= "name"@);
    assert(first.skip(5) =~= p);

    // second parameter: `description=` then the encoded description
    assert(second[11] == '=');
    assert forall|k: int| 0 <= k < 11 implies second[k] != '=' by {
        assert(second[k] == b_lit[k]);
    }
    lemma_find_char_at(second, '=', 0, 11);
    assert(second.take(11) =~= "description"@);
    assert(second.skip(12) =~= d);

    // no further separator after the one ampersand
    assert forall|k: int| 0 <= k < second.len() implies second[k] != '&' by {
        if k < 12 {
            assert(second[k] == b_lit[k]);
        } else {
            assert(second[k] == d[k - 12]);
            assert(!is_query_delimiter(d[k - 12]));
        }
    }
    lemma_find_char_none(second, '&', 0);
}

} // verus!
