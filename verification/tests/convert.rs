//! The borrowed-to-owned conversion: value preservation and the zero-copy
//! path (an unescaped leaf's owned handle shares the record buffer's
//! allocation instead of copying its bytes).

use bytes::Bytes;

use slop_streamer::adapter::decode_record;
use slop_streamer::event::StreamEvent;
use slop_streamer::text::{own_text, RawText, Text, TextFault};

fn payload(s: &str) -> Text {
    Text::from_handle(
        bytes_utils::Str::from_inner(Bytes::copy_from_slice(s.as_bytes())).unwrap(),
    )
}

#[test]
fn unescaped_delta_shares_the_record_buffer() {
    let text = "{\"type\":\"response.output_text.delta\",\"output_index\":0,\"item_id\":\"i\",\"content_index\":0,\"delta\":\"a plain run of text\",\"sequence_number\":0}";
    let parent: Bytes = Bytes::copy_from_slice(text.as_bytes());
    let buf = Text::from_handle(bytes_utils::Str::from_inner(parent.clone()).unwrap());
    let ev = decode_record(&buf).unwrap();
    match ev {
        StreamEvent::ResponseOutputTextDelta(d) => {
            assert_eq!(d.delta.as_str(), "a plain run of text");
            // `Bytes::slice_ref` panics unless the given slice lies within
            // the parent allocation: reaching the assert below proves the
            // owned handle references the same storage, not a copy.
            let child = d.delta.into_handle().into_inner();
            let within = parent.slice_ref(child.as_ref());
            assert_eq!(within.as_ref(), b"a plain run of text");
        }
        _ => panic!("wrong variant"),
    }
}

#[test]
fn escaped_delta_takes_the_copying_path_and_unescapes() {
    let text = "{\"type\":\"response.output_text.delta\",\"output_index\":0,\"item_id\":\"i\",\"content_index\":0,\"delta\":\"line\\nbreak\",\"sequence_number\":0}";
    let buf = payload(text);
    let ev = decode_record(&buf).unwrap();
    match ev {
        StreamEvent::ResponseOutputTextDelta(d) => {
            assert_eq!(d.delta.as_str(), "line\nbreak");
        }
        _ => panic!("wrong variant"),
    }
}

#[test]
fn window_leaves_become_subslice_handles() {
    let buf = payload("hello world");
    let t = own_text(RawText::Window { start: 6, end: 11 }, &buf).unwrap();
    assert_eq!(t.as_str(), "world");
}

#[test]
fn fresh_leaves_adopt_their_allocation() {
    let buf = payload("irrelevant");
    let t = own_text(RawText::Fresh(b"taken over".to_vec()), &buf).unwrap();
    assert_eq!(t.as_str(), "taken over");
}

#[test]
fn window_not_on_char_boundaries_is_refused() {
    // "é" is two bytes; a window splitting it cannot become a text handle.
    let buf = payload("ab\u{e9}cd");
    let r = own_text(RawText::Window { start: 2, end: 3 }, &buf);
    assert!(matches!(r, Err(TextFault)));
}

#[test]
fn fresh_bytes_that_are_not_text_are_refused() {
    let buf = payload("x");
    let r = own_text(RawText::Fresh(vec![0xFF, 0xFE]), &buf);
    assert!(matches!(r, Err(TextFault)));
}

#[test]
fn conversion_preserves_every_field_of_a_nested_event() {
    let text = "{\"type\":\"response.content_part.added\",\"item_id\":\"item-7\",\"output_index\":3,\"content_index\":4,\"part\":{\"type\":\"output_text\",\"text\":\"body\",\"annotations\":[{\"type\":\"url_citation\",\"url\":\"u\",\"title\":\"t\",\"start_index\":0,\"end_index\":1}]},\"sequence_number\":12}";
    let ev = decode_record(&payload(text)).unwrap();
    match ev {
        StreamEvent::ResponseContentPartAdded(d) => {
            assert_eq!(d.item_id.as_str(), "item-7");
            assert_eq!(d.output_index, 3);
            assert_eq!(d.content_index, 4);
            assert_eq!(d.sequence_number, 12);
            match d.part {
                slop_streamer::event::ContentPart::OutputText(p) => {
                    assert_eq!(p.text.as_str(), "body");
                    assert_eq!(p.annotations.len(), 1);
                }
                _ => panic!("wrong part"),
            }
        }
        _ => panic!("wrong variant"),
    }
}

#[test]
fn text_handles_round_trip_their_bytes() {
    let t = Text::adopt(b"round trip".to_vec()).unwrap();
    assert_eq!(t.as_bytes(), b"round trip");
    let handle = t.into_handle();
    let again = Text::from_handle(handle);
    assert_eq!(again.as_str(), "round trip");
}
