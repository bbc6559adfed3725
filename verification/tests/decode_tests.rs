use gst_client::client::GstClient;
use gst_client::errors::Error;
use gst_client::gstd_types::{PropertyValue, ResponseCode, ResponseT};
use gst_client::gstd_types::{response_code_from_value, response_code_value};
use gst_client::json::JsonValue;
use gst_client::gstd_types::{seek_flags_wire_value, SeekFlags};
use gst_client::gstd_types::{gst_format_wire_value, seek_type_wire_value, GstFormat, SeekType};

const BASE_URL: &str = "http://127.0.0.1:5000";

fn client() -> GstClient {
    GstClient::build(BASE_URL).unwrap()
}

#[test]
fn response_code_wire_mapping() {
    assert_eq!(response_code_from_value(0), Some(ResponseCode::Success));
    assert_eq!(response_code_from_value(3), Some(ResponseCode::ExistingName));
    assert_eq!(response_code_from_value(18), Some(ResponseCode::MissingName));
    assert_eq!(response_code_from_value(19), None);
    assert_eq!(response_code_from_value(-1), None);
    assert_eq!(response_code_value(ResponseCode::ExistingName), 3);
    assert_eq!(
        response_code_from_value(response_code_value(ResponseCode::NoConnection) as i64),
        Some(ResponseCode::NoConnection)
    );
}

#[test]
fn decode_success_with_empty_node_list() {
    let body = r#"{"code":0,"description":"Success","response":{"properties":[],"nodes":[]}}"#;
    let resp = client().process_resp(200, body).unwrap();
    assert_eq!(resp.code, ResponseCode::Success);
    match resp.response {
        ResponseT::Properties(props) => {
            assert!(props.properties.is_empty());
            assert!(props.nodes.is_empty());
        }
        _ => panic!("unexpected payload shape"),
    }
}

#[test]
fn decode_success_with_absent_node_list() {
    let body = r#"{"code":0,"description":"Success","response":{"properties":[]}}"#;
    let resp = client().process_resp(200, body).unwrap();
    match resp.response {
        ResponseT::Properties(props) => assert!(props.nodes.is_empty()),
        _ => panic!("unexpected payload shape"),
    }
}

#[test]
fn decode_success_with_one_node() {
    let body = r#"{"code":0,"description":"Success","response":{"properties":[],"nodes":[{"name":"test_pipeline"}]}}"#;
    let resp = client().process_resp(200, body).unwrap();
    match resp.response {
        ResponseT::Properties(props) => {
            assert_eq!(props.nodes.len(), 1);
            assert_eq!(props.nodes[0].name.as_str(), "test_pipeline");
        }
        _ => panic!("unexpected payload shape"),
    }
}

#[test]
fn decode_domain_failure_regardless_of_payload() {
    let body = r#"{"code":3,"description":"the name already exists","response":{"properties":[],"nodes":[{"name":"test_pipeline"}]}}"#;
    let res = client().process_resp(200, body);
    assert!(matches!(res, Err(Error::DomainFailure(ResponseCode::ExistingName))));

    let body = r#"{"code":5,"description":"no pipeline","response":null}"#;
    let res = client().process_resp(200, body);
    assert!(matches!(res, Err(Error::DomainFailure(ResponseCode::NoPipeline))));
}

#[test]
fn decode_unknown_code_is_malformed() {
    let body = r#"{"code":19,"description":"?","response":null}"#;
    let res = client().process_resp(200, body);
    assert!(matches!(res, Err(Error::MalformedBody(_))));
}

#[test]
fn non_success_status_skips_the_body() {
    let valid = r#"{"code":0,"description":"Success","response":null}"#;
    let res = client().process_resp(404, valid);
    assert!(matches!(res, Err(Error::UnsuccessfulHttpStatus(404))));
    let res = client().process_resp(500, "definitely not json");
    assert!(matches!(res, Err(Error::UnsuccessfulHttpStatus(500))));
    let res = client().process_resp(199, valid);
    assert!(matches!(res, Err(Error::UnsuccessfulHttpStatus(199))));
    let res = client().process_resp(300, valid);
    assert!(matches!(res, Err(Error::UnsuccessfulHttpStatus(300))));
    assert!(client().process_resp(299, valid).is_ok());
}

#[test]
fn malformed_bodies_are_reported() {
    let res = client().process_resp(200, "not json at all");
    assert!(matches!(res, Err(Error::MalformedBody(_))));
    let res = client().process_resp(200, r#"{"description":"no code","response":null}"#);
    assert!(matches!(res, Err(Error::MalformedBody(_))));
    let res = client().process_resp(200, r#"{"code":0,"response":null}"#);
    assert!(matches!(res, Err(Error::MalformedBody(_))));
    let res = client().process_resp(200, r#"[0,1,2]"#);
    assert!(matches!(res, Err(Error::MalformedBody(_))));
    // a repeated field is ambiguous, so it is malformed
    let res = client().process_resp(200, r#"{"code":0,"code":0,"description":"d","response":null}"#);
    assert!(matches!(res, Err(Error::MalformedBody(_))));
}

#[test]
fn decode_boolean_property_value() {
    let body = r#"{"code":0,"description":"Success","response":{"name":"is-live","value":false,"param":{"description":"Whether to act as a live source","type":"gboolean","access":"READ | WRITE"}}}"#;
    let resp = client().process_resp(200, body).unwrap();
    match resp.response {
        ResponseT::Property(p) => {
            assert_eq!(p.name.as_str(), "is-live");
            assert!(matches!(p.value, PropertyValue::Bool(false)));
            assert_eq!(p.param.param_type.as_str(), "gboolean");
        }
        _ => panic!("unexpected payload shape"),
    }
}

#[test]
fn decode_string_and_integer_property_values() {
    let body = r#"{"code":0,"description":"Success","response":{"name":"pattern","value":"ball","param":{"description":"d","type":"GstVideoTestSrcPattern","access":"READ"}}}"#;
    let resp = client().process_resp(200, body).unwrap();
    match resp.response {
        ResponseT::Property(p) => assert!(matches!(p.value, PropertyValue::String(s) if s == "ball")),
        _ => panic!("unexpected payload shape"),
    }

    let body = r#"{"code":0,"description":"Success","response":{"name":"timeout","value":-25,"param":{"description":"d","type":"gint64","access":"READ"}}}"#;
    let resp = client().process_resp(200, body).unwrap();
    match resp.response {
        ResponseT::Property(p) => assert!(matches!(p.value, PropertyValue::Integer(-25))),
        _ => panic!("unexpected payload shape"),
    }
}

#[test]
fn decode_bus_message_and_its_absence() {
    let body = r#"{"code":0,"description":"Success","response":{"type":"eos","source":"p","timestamp":"99:99:99.999999999","seqnum":1276,"message":"end of stream","debug":""}}"#;
    let resp = client().process_resp(200, body).unwrap();
    match resp.response {
        ResponseT::Bus(Some(bus)) => {
            assert_eq!(bus.message_type.as_str(), "eos");
            assert_eq!(bus.seqnum, 1276);
            assert_eq!(bus.message.as_str(), "end of stream");
        }
        _ => panic!("unexpected payload shape"),
    }

    // JSON null, an absent field and an empty object all mean "no message"
    let resp = client().process_resp(200, r#"{"code":0,"description":"Success","response":null}"#).unwrap();
    assert!(matches!(resp.response, ResponseT::Bus(None)));
    let resp = client().process_resp(200, r#"{"code":0,"description":"Success"}"#).unwrap();
    assert!(matches!(resp.response, ResponseT::Bus(None)));
    let resp = client().process_resp(200, r#"{"code":0,"description":"Success","response":{}}"#).unwrap();
    assert!(matches!(resp.response, ResponseT::Bus(None)));
}

#[test]
fn payload_shapes_resolve_in_the_documented_order() {
    // an object carrying both the bus fields and the single-property fields
    // resolves as a bus message: the bus shape is tried first
    let body = r#"{"code":0,"description":"Success","response":{"type":"eos","source":"p","timestamp":"0","seqnum":1,"message":"m","debug":"","name":"n","value":1,"param":{"description":"d","type":"t","access":"a"}}}"#;
    let resp = client().process_resp(200, body).unwrap();
    assert!(matches!(resp.response, ResponseT::Bus(Some(_))));
}

#[test]
fn unknown_fields_are_ignored() {
    let body = r#"{"code":0,"description":"Success","extra":[1,2],"response":{"properties":[],"unrelated":true,"nodes":[{"name":"n","weight":3}]}}"#;
    let resp = client().process_resp(200, body).unwrap();
    match resp.response {
        ResponseT::Properties(props) => {
            assert_eq!(props.nodes.len(), 1);
            assert_eq!(props.nodes[0].name.as_str(), "n");
        }
        _ => panic!("unexpected payload shape"),
    }
}

#[test]
fn parser_accepts_the_json_subset() {
    match gst_client::json::parse_json_text(" [null, true, false, \"a\\u0041b\", -12, {\"k\": 7}] ") {
        Some(JsonValue::Arr(items)) => {
            assert!(matches!(items[0], JsonValue::Null));
            assert!(matches!(items[1], JsonValue::Bool(true)));
            assert!(matches!(items[2], JsonValue::Bool(false)));
            assert!(matches!(&items[3], JsonValue::Str(s) if s.as_str() == "aAb"));
            assert!(matches!(items[4], JsonValue::Int(-12)));
            match &items[5] {
                JsonValue::Obj(members) => {
                    assert_eq!(members.len(), 1);
                    assert_eq!(members[0].0.as_str(), "k");
                    assert!(matches!(members[0].1, JsonValue::Int(7)));
                }
                _ => panic!("expected an object"),
            }
        }
        _ => panic!("expected an array"),
    }
}

#[test]
fn parser_integer_range_and_escapes() {
    assert!(matches!(
        gst_client::json::parse_json_text("9223372036854775807"),
        Some(JsonValue::Int(i64::MAX))
    ));
    assert!(matches!(
        gst_client::json::parse_json_text("-9223372036854775808"),
        Some(JsonValue::Int(i64::MIN))
    ));
    // numbers beyond i64, or with a fraction or exponent, are out of the model
    assert!(matches!(
        gst_client::json::parse_json_text("9223372036854775808"),
        Some(JsonValue::OtherNum)
    ));
    assert!(matches!(gst_client::json::parse_json_text("1.5"), Some(JsonValue::OtherNum)));
    assert!(matches!(gst_client::json::parse_json_text("2e10"), Some(JsonValue::OtherNum)));
    assert!(matches!(
        gst_client::json::parse_json_text("\"\\uD83D\\uDE00\""),
        Some(JsonValue::Str(s)) if s == "\u{1F600}"
    ));
    assert!(matches!(
        gst_client::json::parse_json_text(r#""\n\t\\\"""#),
        Some(JsonValue::Str(s)) if s == "\n\t\\\""
    ));
}

#[test]
fn parser_rejects_ill_formed_text() {
    assert!(gst_client::json::parse_json_text("").is_none());
    assert!(gst_client::json::parse_json_text("{").is_none());
    assert!(gst_client::json::parse_json_text("01").is_none());
    assert!(gst_client::json::parse_json_text("1 2").is_none());
    assert!(gst_client::json::parse_json_text("\"\\uD83D\"").is_none());
    assert!(gst_client::json::parse_json_text("{\"a\":1,}").is_none());
    assert!(gst_client::json::parse_json_text("nul").is_none());
}

#[test]
fn seek_flags_wire_values() {
    assert_eq!(seek_flags_wire_value(SeekFlags::NoFlags), 0);
    assert_eq!(seek_flags_wire_value(SeekFlags::Flush), 1);
    assert_eq!(seek_flags_wire_value(SeekFlags::SnapNearest), 96);
    assert_eq!(seek_flags_wire_value(SeekFlags::InstantRateChange), 1024);
    assert_eq!(seek_type_wire_value(SeekType::NoSeek), 0);
    assert_eq!(seek_type_wire_value(SeekType::Relative), 2);
    assert_eq!(gst_format_wire_value(GstFormat::Undefined), 0);
    assert_eq!(gst_format_wire_value(GstFormat::TimeInNanoseconds), 3);
    assert_eq!(gst_format_wire_value(GstFormat::Percent), 5);
}
