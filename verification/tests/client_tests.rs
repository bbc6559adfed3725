use gst_client::client::{GstClient, DEFAULT_BASE_ADDRESS};
use gst_client::errors::Error;
use gst_client::gstd_types::PropertyValue;
use gst_client::resources::Verb;

const BASE_URL: &str = "http://127.0.0.1:5000";
const PIPELINE_NAME: &str = "test_pipeline";
const PIPELINE_DESC: &str = "videotestsrc pattern=ball";

fn expect_url() -> url::Url {
    url::Url::parse(BASE_URL).unwrap()
}

#[test]
fn create_client_with_build() {
    let client = GstClient::build(BASE_URL).unwrap();
    assert_eq!(client.base_address(), expect_url().as_str());

    let owned = String::from(BASE_URL);
    let client = GstClient::build(owned.as_str()).unwrap();
    assert_eq!(client.base_address(), expect_url().as_str());
}

#[test]
fn create_client_from() {
    let url = expect_url();
    let client = GstClient::from_url(&url);
    assert_eq!(client.base_address(), expect_url().as_str());

    let client = GstClient::from_url(&expect_url());
    assert_eq!(client.base_address(), expect_url().as_str());
}

#[test]
fn base_address_round_trips() {
    let client = GstClient::build(BASE_URL).unwrap();
    let reparsed = url::Url::parse(client.base_address()).unwrap();
    assert_eq!(reparsed.as_str(), client.base_address());
}

#[test]
fn invalid_base_address_is_rejected() {
    let res = GstClient::build("missing scheme");
    assert!(matches!(res, Err(Error::InvalidBaseAddress(_))));

    let res = GstClient::build("127.0.0.1:5000");
    assert!(matches!(res, Err(Error::InvalidBaseAddress(_))));
}

#[test]
fn default_client_points_at_localhost() {
    let client = GstClient::default();
    assert_eq!(client.base_address(), DEFAULT_BASE_ADDRESS);
    assert_eq!(client.base_address(), "http://127.0.0.1:5000/");
}

#[test]
fn request_url_resolves_against_base() {
    let client = GstClient::build(BASE_URL).unwrap();
    let url = client.request_url("pipelines").unwrap();
    assert_eq!(url, "http://127.0.0.1:5000/pipelines");
}

#[test]
fn pipelines_request_shape() {
    let client = GstClient::build(BASE_URL).unwrap();
    let req = client.pipelines();
    assert_eq!(req.verb, Verb::Get);
    assert_eq!(req.path, "pipelines");
}

#[test]
fn create_pipeline_request_query_parameters() {
    let client = GstClient::build(BASE_URL).unwrap();
    let req = client.pipeline("p").create(PIPELINE_DESC);
    assert_eq!(req.verb, Verb::Post);
    let url = url::Url::parse(BASE_URL).unwrap().join(&req.path).unwrap();
    assert_eq!(url.path(), "/pipelines");
    let pairs: Vec<(String, String)> = url
        .query_pairs()
        .map(|(k, v)| (k.into_owned(), v.into_owned()))
        .collect();
    assert_eq!(
        pairs,
        vec![
            ("name".to_string(), "p".to_string()),
            ("description".to_string(), PIPELINE_DESC.to_string()),
        ]
    );
}

#[test]
fn create_pipeline_request_encodes_reserved_characters() {
    let client = GstClient::build(BASE_URL).unwrap();
    let req = client.pipeline(PIPELINE_NAME).create(PIPELINE_DESC);
    assert_eq!(
        req.path,
        "pipelines?name=test_pipeline&description=videotestsrc%20pattern%3Dball"
    );
}

#[test]
fn destroy_pipeline_request() {
    let client = GstClient::build(BASE_URL).unwrap();
    let req = client.pipeline(PIPELINE_NAME).destroy();
    assert_eq!(req.verb, Verb::Delete);
    assert_eq!(req.path, "pipelines?name=test_pipeline");
}

#[test]
fn state_change_requests() {
    let client = GstClient::build(BASE_URL).unwrap();
    let pipeline = client.pipeline(PIPELINE_NAME);
    let play = pipeline.play();
    assert_eq!(play.verb, Verb::Put);
    assert_eq!(play.path, "pipelines/test_pipeline/state?name=playing");
    assert_eq!(pipeline.pause().path, "pipelines/test_pipeline/state?name=paused");
    assert_eq!(pipeline.stop().path, "pipelines/test_pipeline/state?name=null");
}

#[test]
fn pipeline_introspection_requests() {
    let client = GstClient::build(BASE_URL).unwrap();
    let pipeline = client.pipeline(PIPELINE_NAME);
    let graph = pipeline.graph();
    assert_eq!(graph.verb, Verb::Get);
    assert_eq!(graph.path, "pipelines/test_pipeline/graph");
    let elements = pipeline.elements();
    assert_eq!(elements.verb, Verb::Get);
    assert_eq!(elements.path, "pipelines/test_pipeline/elements");
    let properties = pipeline.properties();
    assert_eq!(properties.verb, Verb::Get);
    assert_eq!(properties.path, "pipelines/test_pipeline");
}

#[test]
fn element_property_get_request() {
    let client = GstClient::build(BASE_URL).unwrap();
    let req = client
        .pipeline(PIPELINE_NAME)
        .element("videotestsrc0")
        .property("is-live")
        .get();
    assert_eq!(req.verb, Verb::Get);
    assert_eq!(
        req.path,
        "pipelines/test_pipeline/elements/videotestsrc0/properties/is-live"
    );
}

#[test]
fn element_property_set_requests_encode_each_variant() {
    let client = GstClient::build(BASE_URL).unwrap();
    let prop = client.pipeline("p").element("e").property("pattern");
    let s = prop.set(&PropertyValue::String(String::from("a b")));
    assert_eq!(s.verb, Verb::Put);
    assert_eq!(s.path, "pipelines/p/elements/e/properties/pattern?name=a%20b");
    let i = prop.set(&PropertyValue::Integer(18));
    assert_eq!(i.path, "pipelines/p/elements/e/properties/pattern?name=18");
    let n = prop.set(&PropertyValue::Integer(-7));
    assert_eq!(n.path, "pipelines/p/elements/e/properties/pattern?name=-7");
    let b = prop.set(&PropertyValue::Bool(true));
    assert_eq!(b.path, "pipelines/p/elements/e/properties/pattern?name=true");
}

#[test]
fn pipeline_name_is_percent_encoded() {
    let client = GstClient::build(BASE_URL).unwrap();
    let req = client.pipeline("my pipe/1").graph();
    assert_eq!(req.path, "pipelines/my%20pipe%2F1/graph");
    let url = url::Url::parse(BASE_URL).unwrap().join(&req.path).unwrap();
    let segments: Vec<&str> = url.path_segments().unwrap().collect();
    assert_eq!(segments, vec!["pipelines", "my%20pipe%2F1", "graph"]);
}

#[test]
fn debug_requests() {
    let client = GstClient::build(BASE_URL).unwrap();
    let debug = client.debug();
    let enable = debug.enable();
    assert_eq!(enable.verb, Verb::Put);
    assert_eq!(enable.path, "debug/enable?name=true");
    assert_eq!(debug.disable().path, "debug/enable?name=false");
    let threshold = debug.threshold("*:3");
    assert_eq!(threshold.verb, Verb::Put);
    assert_eq!(threshold.path, "debug/threshold?name=%2A%3A3");
    assert_eq!(debug.color_output(true).path, "debug/color?name=true");
    assert_eq!(debug.color_output(false).path, "debug/color?name=false");
}

#[test]
fn bus_read_request() {
    let client = GstClient::build(BASE_URL).unwrap();
    let req = client.pipeline(PIPELINE_NAME).bus().read();
    assert_eq!(req.verb, Verb::Get);
    assert_eq!(req.path, "pipelines/test_pipeline/bus/message");
}

#[test]
fn encode_component_keeps_unreserved_text() {
    assert_eq!(gst_client::percent::encode_component("abc-XYZ_0.9~"), "abc-XYZ_0.9~");
    assert_eq!(gst_client::percent::encode_component(""), "");
}

#[test]
fn encode_component_encodes_utf8_bytes() {
    assert_eq!(gst_client::percent::encode_component("café"), "caf%C3%A9");
    assert_eq!(gst_client::percent::encode_component("a&b=c"), "a%26b%3Dc");
}
