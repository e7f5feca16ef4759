//! The request-side model types.

use slop_streamer::request::{Request, Role, Status};
use slop_streamer::tool_choice::{ToolChoiceAllowedToolMode, ToolChoiceMode};

#[test]
fn tool_choice_modes_have_their_wire_spelling() {
    assert_eq!(ToolChoiceMode::Disabled.label(), "none");
    assert_eq!(ToolChoiceMode::Auto.label(), "auto");
    assert_eq!(ToolChoiceMode::Required.label(), "required");
}

#[test]
fn allowed_tool_modes_have_their_wire_spelling() {
    assert_eq!(ToolChoiceAllowedToolMode::Auto.label(), "auto");
    assert_eq!(ToolChoiceAllowedToolMode::Required.label(), "required");
}

#[test]
fn roles_and_statuses_compare_by_variant() {
    assert_eq!(Role::User, Role::User);
    assert_ne!(Role::Assistant, Role::System);
    assert_ne!(Status::InProgress, Status::Incomplete);
}

#[test]
fn a_request_carries_its_parts() {
    let req = Request {
        input: vec![String::from("hello")],
        model: String::from("some-model"),
        parallel_tool_calls: true,
        stream: false,
    };
    assert_eq!(req.input.len(), 1);
    assert_eq!(req.model, "some-model");
    assert!(req.parallel_tool_calls);
    assert!(!req.stream);
}
