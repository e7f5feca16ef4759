//! Record decoding against the wire schema: one payload in, one typed event
//! or one typed error out.

use slop_streamer::adapter::{decode_record, DecodeError};
use slop_streamer::event::{
    Annotation, ContentPart, ItemStatus, OutputItem, ResponseStatus, StreamEvent, SummaryContent,
};
use slop_streamer::text::Text;

fn payload(s: &str) -> Text {
    Text::from_handle(
        bytes_utils::Str::from_inner(bytes::Bytes::copy_from_slice(s.as_bytes())).unwrap(),
    )
}

fn decode(s: &str) -> Result<StreamEvent, DecodeError> {
    decode_record(&payload(s))
}

#[test]
fn decodes_response_created() {
    let ev = decode(
        "{\"type\":\"response.created\",\"response\":{\"id\":\"x\",\"status\":\"in_progress\"},\"sequence_number\":0}",
    )
    .unwrap();
    match ev {
        StreamEvent::ResponseCreated(d) => {
            assert_eq!(d.sequence_number, 0);
            assert_eq!(d.response.id.as_str(), "x");
            assert!(matches!(d.response.status, ResponseStatus::InProgress));
            assert!(d.response.usage.is_none());
        }
        _ => panic!("wrong variant"),
    }
}

#[test]
fn decodes_output_text_delta_with_escape() {
    let ev = decode(
        "{\"type\":\"response.output_text.delta\",\"output_index\":0,\"item_id\":\"i1\",\"content_index\":2,\"delta\":\"a\\nb\",\"sequence_number\":7}",
    )
    .unwrap();
    match ev {
        StreamEvent::ResponseOutputTextDelta(d) => {
            assert_eq!(d.output_index, 0);
            assert_eq!(d.content_index, 2);
            assert_eq!(d.sequence_number, 7);
            assert_eq!(d.item_id.as_str(), "i1");
            assert_eq!(d.delta.as_str(), "a\nb");
        }
        _ => panic!("wrong variant"),
    }
}

#[test]
fn decodes_unicode_escapes_and_surrogate_pairs() {
    let ev = decode(
        "{\"type\":\"response.output_text.delta\",\"output_index\":0,\"item_id\":\"i\",\"content_index\":0,\"delta\":\"\\u00e9\\ud83d\\ude00x\",\"sequence_number\":1}",
    )
    .unwrap();
    match ev {
        StreamEvent::ResponseOutputTextDelta(d) => {
            assert_eq!(d.delta.as_str(), "\u{e9}\u{1F600}x");
        }
        _ => panic!("wrong variant"),
    }
}

#[test]
fn lone_surrogate_is_a_syntax_error() {
    let r = decode(
        "{\"type\":\"response.output_text.delta\",\"output_index\":0,\"item_id\":\"i\",\"content_index\":0,\"delta\":\"\\ud83d\",\"sequence_number\":1}",
    );
    assert!(matches!(r, Err(DecodeError::Syntax { .. })));
}

#[test]
fn decodes_output_item_added_with_message() {
    let ev = decode(
        "{\"type\":\"response.output_item.added\",\"output_index\":1,\"item\":{\"type\":\"message\",\"id\":\"m\",\"status\":\"completed\",\"content\":[{\"type\":\"output_text\",\"text\":\"hi\"}]},\"sequence_number\":4}",
    )
    .unwrap();
    match ev {
        StreamEvent::ResponseOutputItemAdded(d) => {
            assert_eq!(d.output_index, 1);
            match d.item {
                OutputItem::Message(m) => {
                    assert_eq!(m.id.as_str(), "m");
                    assert!(matches!(m.status, ItemStatus::Completed));
                    assert_eq!(m.content.len(), 1);
                    match &m.content[0] {
                        ContentPart::OutputText(p) => {
                            assert_eq!(p.text.as_str(), "hi");
                            assert_eq!(p.annotations.len(), 0);
                        }
                        _ => panic!("wrong part"),
                    }
                }
                _ => panic!("wrong item"),
            }
        }
        _ => panic!("wrong variant"),
    }
}

#[test]
fn message_content_defaults_to_empty() {
    let ev = decode(
        "{\"type\":\"response.output_item.added\",\"output_index\":0,\"item\":{\"type\":\"message\",\"id\":\"m\",\"status\":\"in_progress\"},\"sequence_number\":1}",
    )
    .unwrap();
    match ev {
        StreamEvent::ResponseOutputItemAdded(d) => match d.item {
            OutputItem::Message(m) => assert_eq!(m.content.len(), 0),
            _ => panic!("wrong item"),
        },
        _ => panic!("wrong variant"),
    }
}

#[test]
fn decodes_reasoning_item_with_summary_and_null_optional() {
    let ev = decode(
        "{\"type\":\"response.output_item.done\",\"output_index\":0,\"item\":{\"type\":\"reasoning\",\"id\":\"r\",\"summary\":[{\"type\":\"summary_text\",\"text\":\"s\"}],\"encrypted_content\":null},\"sequence_number\":2}",
    )
    .unwrap();
    match ev {
        StreamEvent::ResponseOutputItemDone(d) => match d.item {
            OutputItem::Reasoning(r) => {
                assert_eq!(r.id.as_str(), "r");
                assert!(r.encrypted_content.is_none());
                assert_eq!(r.summary.len(), 1);
                match &r.summary[0].content {
                    SummaryContent::SummaryText(t) => assert_eq!(t.text.as_str(), "s"),
                }
            }
            _ => panic!("wrong item"),
        },
        _ => panic!("wrong variant"),
    }
}

#[test]
fn decodes_function_call_arguments_done() {
    let ev = decode(
        "{\"type\":\"response.function_call_arguments.done\",\"item_id\":\"f\",\"output_index\":3,\"name\":\"lookup\",\"arguments\":\"{}\",\"sequence_number\":9}",
    )
    .unwrap();
    match ev {
        StreamEvent::ResponseFunctionCallArgumentsDone(d) => {
            assert_eq!(d.name.as_str(), "lookup");
            assert_eq!(d.arguments.as_str(), "{}");
            assert_eq!(d.output_index, 3);
        }
        _ => panic!("wrong variant"),
    }
}

#[test]
fn decodes_annotation_added() {
    let ev = decode(
        "{\"type\":\"response.output_text.annotation.added\",\"output_index\":0,\"item_id\":\"i\",\"content_index\":0,\"sequence_number\":5,\"annotation_index\":0,\"annotation\":{\"type\":\"url_citation\",\"url\":\"https://example.com\",\"title\":\"t\",\"start_index\":1,\"end_index\":2}}",
    )
    .unwrap();
    match ev {
        StreamEvent::ResponseOutputTextAnnotationAdded(d) => match d.annotation {
            Annotation::UrlCitation(u) => {
                assert_eq!(u.url.as_str(), "https://example.com");
                assert_eq!(u.title.as_str(), "t");
                assert_eq!(u.start_index, 1);
                assert_eq!(u.end_index, 2);
            }
        },
        _ => panic!("wrong variant"),
    }
}

#[test]
fn decodes_completed_with_usage_and_cost_token() {
    let ev = decode(
        "{\"type\":\"response.completed\",\"response\":{\"id\":\"x\",\"status\":\"completed\",\"usage\":{\"input_tokens\":10,\"output_tokens\":20,\"total_tokens\":30,\"cost\":0.25}},\"sequence_number\":11}",
    )
    .unwrap();
    match ev {
        StreamEvent::ResponseCompleted(d) => {
            assert!(matches!(d.response.status, ResponseStatus::Completed));
            let usage = d.response.usage.unwrap();
            assert_eq!(usage.input_tokens, 10);
            assert_eq!(usage.output_tokens, 20);
            assert_eq!(usage.total_tokens, 30);
            assert_eq!(usage.cost.unwrap().as_str(), "0.25");
        }
        _ => panic!("wrong variant"),
    }
}

#[test]
fn unknown_discriminator_is_a_schema_error() {
    let r = decode("{\"type\":\"response.unknown\",\"sequence_number\":0}");
    assert!(matches!(r, Err(DecodeError::Schema)));
}

#[test]
fn missing_discriminator_is_a_schema_error() {
    let r = decode("{\"sequence_number\":0}");
    assert!(matches!(r, Err(DecodeError::Schema)));
}

#[test]
fn missing_required_field_is_a_schema_error() {
    let r = decode("{\"type\":\"response.in_progress\"}");
    assert!(matches!(r, Err(DecodeError::Schema)));
}

#[test]
fn duplicate_field_is_a_schema_error() {
    let r = decode("{\"type\":\"response.in_progress\",\"sequence_number\":1,\"sequence_number\":2}");
    assert!(matches!(r, Err(DecodeError::Schema)));
}

#[test]
fn wrong_field_type_is_a_schema_error() {
    let r = decode("{\"type\":\"response.in_progress\",\"sequence_number\":\"1\"}");
    assert!(matches!(r, Err(DecodeError::Schema)));
}

#[test]
fn unknown_fields_are_ignored() {
    let ev = decode("{\"type\":\"response.in_progress\",\"extra\":{\"deep\":[1,2,3]},\"sequence_number\":6}")
        .unwrap();
    match ev {
        StreamEvent::ResponseInProgress(d) => assert_eq!(d.sequence_number, 6),
        _ => panic!("wrong variant"),
    }
}

#[test]
fn indices_wider_than_32_bits_are_a_schema_error() {
    let r = decode(
        "{\"type\":\"response.output_text.delta\",\"output_index\":4294967296,\"item_id\":\"i\",\"content_index\":0,\"delta\":\"d\",\"sequence_number\":0}",
    );
    assert!(matches!(r, Err(DecodeError::Schema)));
}

#[test]
fn sequence_number_spans_the_full_64_bits() {
    let ev = decode(
        "{\"type\":\"response.in_progress\",\"sequence_number\":18446744073709551615}",
    )
    .unwrap();
    match ev {
        StreamEvent::ResponseInProgress(d) => assert_eq!(d.sequence_number, u64::MAX),
        _ => panic!("wrong variant"),
    }
    let over = decode(
        "{\"type\":\"response.in_progress\",\"sequence_number\":18446744073709551616}",
    );
    assert!(matches!(over, Err(DecodeError::Schema)));
}

#[test]
fn fractional_or_negative_counters_are_a_schema_error() {
    assert!(matches!(
        decode("{\"type\":\"response.in_progress\",\"sequence_number\":1.0}"),
        Err(DecodeError::Schema)
    ));
    assert!(matches!(
        decode("{\"type\":\"response.in_progress\",\"sequence_number\":-1}"),
        Err(DecodeError::Schema)
    ));
}

#[test]
fn non_json_payloads_are_a_syntax_error() {
    for bad in [
        "",
        "   ",
        "not json",
        "{",
        "{\"type\":}",
        "{\"type\":\"response.in_progress\",}",
        "{\"type\":\"response.in_progress\"} trailing",
        "{\"a\":01}",
        "\"unterminated",
    ] {
        let r = decode(bad);
        assert!(
            matches!(r, Err(DecodeError::Syntax { .. })),
            "expected a syntax error for {:?}",
            bad
        );
    }
}

#[test]
fn whitespace_around_the_value_is_accepted() {
    let ev = decode("  \t\r\n {\"type\" : \"response.in_progress\" , \"sequence_number\" : 8 } \n ")
        .unwrap();
    match ev {
        StreamEvent::ResponseInProgress(d) => assert_eq!(d.sequence_number, 8),
        _ => panic!("wrong variant"),
    }
}

#[test]
fn nesting_beyond_the_depth_cap_is_a_syntax_error() {
    let mut s = String::from("{\"type\":\"response.in_progress\",\"sequence_number\":1,\"x\":");
    for _ in 0..200 {
        s.push('[');
    }
    for _ in 0..200 {
        s.push(']');
    }
    s.push('}');
    let r = decode(&s);
    assert!(matches!(r, Err(DecodeError::Syntax { .. })));
}

#[test]
fn sentinel_text_is_not_an_event() {
    let r = decode("[DONE]");
    assert!(matches!(r, Err(DecodeError::Syntax { .. })));
}

#[test]
fn non_object_json_is_a_schema_error() {
    assert!(matches!(decode("42"), Err(DecodeError::Schema)));
    assert!(matches!(decode("[1,2,3]"), Err(DecodeError::Schema)));
    assert!(matches!(decode("\"response.created\""), Err(DecodeError::Schema)));
    assert!(matches!(decode("null"), Err(DecodeError::Schema)));
}
