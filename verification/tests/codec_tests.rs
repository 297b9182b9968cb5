//! The wire codec: request printing, reply parsing, event-frame
//! disambiguation and the encode-decode round trip.

use niri_spacer::codec::{
    classify_frame, decode_request, decode_response, encode_request, filter_event_frames,
    FrameClass,
};
use niri_spacer::ops::{
    interpret_action_response, interpret_windows_response, interpret_workspaces_response,
    parse_response_line, ActionErrorKind,
};
use niri_spacer::error::NiriSpacerError;
use niri_spacer::wire::{
    NiriAction, NiriEvent, NiriRequest, NiriResponse, ResponseData, SizeChange, Window,
    WindowLayout, Workspace, WorkspaceReferenceArg,
};

fn all_actions() -> Vec<NiriAction> {
    vec![
        NiriAction::Spawn {
            command: vec!["foot".to_string(), "-e".to_string(), "say \"hi\\there\"".to_string()],
        },
        NiriAction::Spawn { command: vec![] },
        NiriAction::SetWindowWidth { id: Some(12), change: SizeChange::SetFixed(1) },
        NiriAction::SetWindowWidth { id: None, change: SizeChange::SetProportion(500) },
        NiriAction::SetWindowHeight { id: Some(3), change: SizeChange::AdjustFixed(-10) },
        NiriAction::SetWindowHeight { id: None, change: SizeChange::AdjustProportion(-250) },
        NiriAction::MoveWindowToWorkspace {
            window_id: Some(77),
            reference: WorkspaceReferenceArg::Index(4),
            focus: false,
        },
        NiriAction::MoveWindowToWorkspace {
            window_id: None,
            reference: WorkspaceReferenceArg::Name("mail".to_string()),
            focus: true,
        },
        NiriAction::FocusWindow { id: 9 },
        NiriAction::MoveColumnLeft {},
        NiriAction::MoveColumnToFirst {},
        NiriAction::FocusWorkspace { reference: WorkspaceReferenceArg::Index(2) },
        NiriAction::FocusColumnRight {},
        NiriAction::FocusColumnLeft {},
        NiriAction::CenterColumn {},
        NiriAction::SetColumnWidth { change: SizeChange::AdjustProportion(125) },
        NiriAction::MaximizeColumn {},
    ]
}

#[test]
fn test_encode_request_lines() {
    assert_eq!(encode_request(&NiriRequest::Workspaces), "\"Workspaces\"");
    assert_eq!(encode_request(&NiriRequest::Windows), "\"Windows\"");
    assert_eq!(encode_request(&NiriRequest::EventStream), "\"EventStream\"");
    assert_eq!(
        encode_request(&NiriRequest::Action(NiriAction::FocusWindow { id: 5 })),
        "{\"Action\":{\"FocusWindow\":{\"id\":5}}}"
    );
    assert_eq!(
        encode_request(&NiriRequest::Action(NiriAction::SetWindowWidth {
            id: Some(12),
            change: SizeChange::SetFixed(1),
        })),
        "{\"Action\":{\"SetWindowWidth\":{\"id\":12,\"change\":{\"SetFixed\":1}}}}"
    );
    assert_eq!(
        encode_request(&NiriRequest::Action(NiriAction::SetWindowWidth {
            id: None,
            change: SizeChange::SetProportion(500),
        })),
        "{\"Action\":{\"SetWindowWidth\":{\"id\":null,\"change\":{\"SetProportion\":0.500}}}}"
    );
    assert_eq!(
        encode_request(&NiriRequest::Action(NiriAction::MoveWindowToWorkspace {
            window_id: Some(77),
            reference: WorkspaceReferenceArg::Index(4),
            focus: false,
        })),
        "{\"Action\":{\"MoveWindowToWorkspace\":{\"window_id\":77,\"reference\":{\"Index\":4},\"focus\":false}}}"
    );
}

#[test]
fn test_encode_escapes_strings() {
    let line = encode_request(&NiriRequest::Action(NiriAction::Spawn {
        command: vec!["say \"hi\"".to_string(), "back\\slash".to_string()],
    }));
    assert_eq!(
        line,
        "{\"Action\":{\"Spawn\":{\"command\":[\"say \\\"hi\\\"\",\"back\\\\slash\"]}}}"
    );
}

#[test]
fn test_action_round_trip_every_variant() {
    for action in all_actions() {
        let req = NiriRequest::Action(action);
        let line = encode_request(&req);
        let back = decode_request(&line);
        assert_eq!(back, Some(req), "round trip failed for line {}", line);
    }
    for req in [NiriRequest::Workspaces, NiriRequest::Windows, NiriRequest::EventStream] {
        let line = encode_request(&req);
        assert_eq!(decode_request(&line), Some(req));
    }
}

#[test]
fn test_decode_request_rejects_trailing_text() {
    assert_eq!(decode_request("\"Workspaces\" "), None);
    assert_eq!(decode_request("nonsense"), None);
}

#[test]
fn test_decode_workspaces_response() {
    let line = "{\"Ok\":{\"Workspaces\":[\
{\"id\":7,\"idx\":1,\"name\":null,\"output\":\"eDP-1\",\"is_urgent\":false,\
\"is_active\":true,\"is_focused\":true,\"active_window_id\":12},\
{\"id\":9,\"idx\":2,\"name\":\"mail\",\"output\":null,\"is_urgent\":false,\
\"is_active\":false,\"is_focused\":false,\"active_window_id\":null}\
]}}";
    let resp = decode_response(line).unwrap();
    match resp {
        NiriResponse::Success(ResponseData::Workspaces(ws)) => {
            assert_eq!(ws.len(), 2);
            assert_eq!(ws[0].id, 7);
            assert_eq!(ws[0].idx, 1);
            assert_eq!(ws[0].name, None);
            assert_eq!(ws[0].output.as_deref(), Some("eDP-1"));
            assert!(ws[0].is_focused);
            assert_eq!(ws[0].active_window_id, Some(12));
            assert_eq!(ws[1].name.as_deref(), Some("mail"));
            assert_eq!(ws[1].active_window_id, None);
        },
        other => panic!("unexpected response {:?}", other),
    }
}

#[test]
fn test_decode_windows_response_with_layout() {
    let line = "{\"Ok\":{\"Windows\":[\
{\"id\":31,\"title\":\"niri-spacer window 1\",\"app_id\":\"sp-1\",\"pid\":100,\
\"workspace_id\":7,\"is_focused\":false,\"is_floating\":false,\"is_urgent\":false,\
\"layout\":{\"pos_in_scrolling_layout\":[1,0]}},\
{\"id\":32,\"title\":\"editor\",\"app_id\":\"ed\",\"pid\":101,\
\"workspace_id\":7,\"is_focused\":true,\"is_floating\":false,\"is_urgent\":false,\
\"layout\":{\"pos_in_scrolling_layout\":null}},\
{\"id\":33,\"title\":\"old\",\"app_id\":\"old\",\"pid\":102,\
\"workspace_id\":8,\"is_focused\":false,\"is_floating\":false,\"is_urgent\":false}\
]}}";
    let resp = decode_response(line).unwrap();
    match resp {
        NiriResponse::Success(ResponseData::Windows(ws)) => {
            assert_eq!(ws.len(), 3);
            assert_eq!(
                ws[0].layout,
                Some(WindowLayout { pos_in_scrolling_layout: Some((1, 0)) })
            );
            assert_eq!(ws[1].layout, Some(WindowLayout { pos_in_scrolling_layout: None }));
            assert_eq!(ws[2].layout, None);
        },
        other => panic!("unexpected response {:?}", other),
    }
}

#[test]
fn test_decode_error_and_ack_responses() {
    assert_eq!(
        decode_response("{\"Err\":\"no such window\"}"),
        Some(NiriResponse::Error("no such window".to_string()))
    );
    assert_eq!(
        decode_response("{\"Ok\":\"Handled\"}"),
        Some(NiriResponse::Success(ResponseData::Empty))
    );
    assert_eq!(decode_response("not json"), None);
}

#[test]
fn test_decode_event_payload_response() {
    let line = "{\"Ok\":{\"Event\":{\"WindowFocusChanged\":{\"id\":31}}}}";
    assert_eq!(
        decode_response(line),
        Some(NiriResponse::Success(ResponseData::Event(NiriEvent::WindowFocusChanged {
            id: 31,
        })))
    );
}

#[test]
fn test_event_frame_disambiguation() {
    // Handshake acknowledgments are never yielded as events.
    assert_eq!(classify_frame("{\"Ok\":null}"), FrameClass::Ack);
    assert_eq!(classify_frame("{\"Err\":\"refused\"}"), FrameClass::Ack);

    // Recognized event tags decode to the matching variant.
    assert_eq!(
        classify_frame("{\"WindowFocusChanged\":{\"id\":31}}"),
        FrameClass::Event(NiriEvent::WindowFocusChanged { id: 31 })
    );
    assert_eq!(
        classify_frame("{\"WindowClosed\":{\"window_id\":8}}"),
        FrameClass::Event(NiriEvent::WindowClosed { window_id: 8 })
    );
    assert_eq!(
        classify_frame(
            "{\"WorkspaceActiveWindowChanged\":{\"workspace_id\":2,\"active_window_id\":5}}"
        ),
        FrameClass::Event(NiriEvent::WorkspaceActiveWindowChanged {
            workspace_id: 2,
            active_window_id: 5,
        })
    );

    // Unparseable lines are dropped, not fatal.
    assert_eq!(classify_frame("garbage"), FrameClass::Drop);
    assert_eq!(classify_frame(""), FrameClass::Drop);
}

#[test]
fn test_filter_event_frames_batch() {
    let lines = vec![
        "{\"Ok\":null}".to_string(),
        "{\"WindowFocusChanged\":{\"id\":31}}".to_string(),
        "junk".to_string(),
        "{\"Err\":\"oops\"}".to_string(),
        "{\"WindowClosed\":{\"window_id\":8}}".to_string(),
    ];
    let events = filter_event_frames(&lines);
    assert_eq!(
        events,
        vec![
            NiriEvent::WindowFocusChanged { id: 31 },
            NiriEvent::WindowClosed { window_id: 8 },
        ]
    );
}

#[test]
fn test_interpret_action_responses() {
    let ok = NiriResponse::Success(ResponseData::Empty);
    assert!(interpret_action_response(ok, ActionErrorKind::Resize).is_ok());

    let e = NiriResponse::Error("bad".to_string());
    assert_eq!(
        interpret_action_response(e.clone(), ActionErrorKind::Resize),
        Err(NiriSpacerError::WindowResize("bad".to_string()))
    );
    assert_eq!(
        interpret_action_response(e.clone(), ActionErrorKind::Move),
        Err(NiriSpacerError::WindowMove("bad".to_string()))
    );
    assert_eq!(
        interpret_action_response(e.clone(), ActionErrorKind::Focus),
        Err(NiriSpacerError::WindowFocus("bad".to_string()))
    );
    assert_eq!(
        interpret_action_response(e, ActionErrorKind::Generic),
        Err(NiriSpacerError::NiriError("bad".to_string()))
    );
}

#[test]
fn test_interpret_list_responses() {
    let ws = Workspace {
        id: 1,
        idx: 1,
        name: None,
        output: None,
        is_urgent: false,
        is_active: true,
        is_focused: true,
        active_window_id: None,
    };
    let good = NiriResponse::Success(ResponseData::Workspaces(vec![ws.clone()]));
    assert_eq!(interpret_workspaces_response(good).unwrap(), vec![ws]);

    let mismatched = NiriResponse::Success(ResponseData::Empty);
    assert_eq!(
        interpret_workspaces_response(mismatched),
        Err(NiriSpacerError::UnexpectedResponse)
    );
    let failed = NiriResponse::Error("down".to_string());
    assert_eq!(
        interpret_windows_response(failed),
        Err(NiriSpacerError::NiriError("down".to_string()))
    );

    let w = Window {
        id: 4,
        title: "t".to_string(),
        app_id: "a".to_string(),
        pid: 9,
        workspace_id: 1,
        is_focused: false,
        is_floating: false,
        is_urgent: false,
        layout: None,
    };
    let good_w = NiriResponse::Success(ResponseData::Windows(vec![w.clone()]));
    assert_eq!(interpret_windows_response(good_w).unwrap(), vec![w]);
}

#[test]
fn test_parse_response_line_errors() {
    assert!(parse_response_line("{\"Ok\":\"Handled\"}").is_ok());
    match parse_response_line("???") {
        Err(NiriSpacerError::JsonSerialization(m)) => assert_eq!(m, "???"),
        other => panic!("unexpected {:?}", other),
    }
}
