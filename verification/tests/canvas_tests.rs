use departure_board::canvas::rotate_clockwise;
use departure_board::canvas::white_canvas;
use departure_board::error_board::error_commands;
use departure_board::output_dimensions;
use departure_board::DrawCmd;
use departure_board::ErrorValue;
use departure_board::FontKind;
use departure_board::RenderTarget;

#[test]
fn kindle_output_swaps_the_canvas_sides() {
    assert_eq!(output_dimensions(RenderTarget::Kindle, 400, 300), (300, 400));
}

#[test]
fn other_output_keeps_the_canvas_sides() {
    assert_eq!(output_dimensions(RenderTarget::Other, 400, 300), (400, 300));
}

#[test]
fn fresh_canvas_is_all_white() {
    let v = white_canvas(4, 3).unwrap();
    assert_eq!(v.len(), 12);
    assert!(v.iter().all(|&p| p == 255));
}

#[test]
fn quarter_turn_permutes_pixels_clockwise() {
    // a 3 x 2 canvas [[a, b, c], [d, e, f]] turns into the 2 x 3 canvas
    // [[d, a], [e, b], [f, c]]
    let src = vec![10u8, 20, 30, 40, 50, 60];
    let out = rotate_clockwise(&src, 3, 2);
    assert_eq!(out, vec![40u8, 10, 50, 20, 60, 30]);
}

#[test]
fn rotating_twice_reverses_both_axes() {
    let src = vec![1u8, 2, 3, 4, 5, 6];
    let once = rotate_clockwise(&src, 3, 2);
    let twice = rotate_clockwise(&once, 2, 3);
    assert_eq!(twice, vec![6u8, 5, 4, 3, 2, 1]);
}

#[test]
fn error_board_places_headline_and_cause_chain() {
    let error = ErrorValue {
        messages: vec!["one".to_string(), "two".to_string(), "three".to_string()],
    };
    let cmds = error_commands(&error);
    let expected = vec![
        DrawCmd::Text { x: 100, y: 200, text: "ERROR".to_string(), font: FontKind::ErrorHeadline },
        DrawCmd::Text { x: 100, y: 250, text: "one".to_string(), font: FontKind::ErrorBody },
        DrawCmd::Text { x: 100, y: 270, text: "two".to_string(), font: FontKind::ErrorBody },
        DrawCmd::Text { x: 100, y: 290, text: "three".to_string(), font: FontKind::ErrorBody },
    ];
    assert_eq!(cmds, expected);
}

#[test]
fn error_board_with_no_causes_is_headline_only() {
    let cmds = error_commands(&ErrorValue { messages: Vec::new() });
    assert_eq!(
        cmds,
        vec![DrawCmd::Text {
            x: 100,
            y: 200,
            text: "ERROR".to_string(),
            font: FontKind::ErrorHeadline,
        }]
    );
}
