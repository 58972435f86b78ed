use departure_board::layout::board_commands;
use departure_board::layout::section_commands;
use departure_board::Color;
use departure_board::DrawCmd;
use departure_board::AgencyEntry;
use departure_board::DirectionEntry;
use departure_board::LayoutConfig;
use departure_board::LineInfo;
use departure_board::SectionSpec;
use departure_board::StopData;
use departure_board::Upcoming;
use departure_board::Warning;

fn s(x: &str) -> String {
    x.to_string()
}

fn line(label: &str, destination: &str, minutes: &[i64]) -> (LineInfo, Vec<Upcoming>) {
    (
        LineInfo { line: s(label), destination: s(destination) },
        minutes.iter().map(|&m| Upcoming { minutes: m }).collect(),
    )
}

fn sample_data() -> StopData {
    StopData {
        agencies: vec![AgencyEntry {
            agency: s("bart"),
            directions: vec![
                DirectionEntry {
                    direction: s("north"),
                    lines: vec![
                        line("Red", "Richmond", &[3, 11]),
                        line("Yellow", "Antioch", &[7]),
                    ],
                },
                DirectionEntry { direction: s("south"), lines: vec![line("Blue", "Dublin", &[5])] },
            ],
        }],
    }
}

fn section(agency: &str, direction: &str) -> SectionSpec {
    SectionSpec { agency: s(agency), direction: s(direction) }
}

#[test]
fn empty_stop_data_renders_empty_board_with_warnings() {
    let data = StopData { agencies: Vec::new() };
    let config = LayoutConfig {
        width: 400,
        height: 300,
        left: vec![section("bart", "north"), section("muni", "inbound")],
        right: vec![section("bart", "south")],
    };
    let (cmds, warnings) = board_commands(&data, &config).unwrap();
    assert!(cmds.is_empty());
    assert_eq!(
        warnings,
        vec![
            Warning { agency: s("bart"), direction: None },
            Warning { agency: s("muni"), direction: None },
            Warning { agency: s("bart"), direction: None },
        ]
    );
}

#[test]
fn missing_section_is_skipped_without_advancing_cursor() {
    let data = sample_data();
    let config = LayoutConfig {
        width: 400,
        height: 300,
        left: vec![
            section("bart", "north"),
            section("bart", "west"),
            section("bart", "south"),
        ],
        right: Vec::new(),
    };
    let (cmds, warnings) = board_commands(&data, &config).unwrap();
    let expected = vec![
        // first section: two rows starting at the top margin y = 38
        DrawCmd::Row {
            x: 20,
            y: 38,
            label: s("Red"),
            destination: s("Richmond"),
            times: s("3, 11 min"),
            right_edge: 200,
        },
        DrawCmd::Segment { x1: 40, y1: 53, x2: 160, y2: 53, color: Color::Grey },
        DrawCmd::Row {
            x: 20,
            y: 78,
            label: s("Yellow"),
            destination: s("Antioch"),
            times: s("7 min"),
            right_edge: 200,
        },
        DrawCmd::Segment { x1: 0, y1: 93, x2: 200, y2: 93, color: Color::Black },
        // the missing (bart, west) section draws nothing and keeps the
        // cursor at 121 = 38 + 40 + 15 + 28, where the third section begins
        DrawCmd::Row {
            x: 20,
            y: 121,
            label: s("Blue"),
            destination: s("Dublin"),
            times: s("5 min"),
            right_edge: 200,
        },
        DrawCmd::Segment { x1: 0, y1: 136, x2: 200, y2: 136, color: Color::Black },
    ];
    assert_eq!(cmds, expected);
    assert_eq!(warnings, vec![Warning { agency: s("bart"), direction: Some(s("west")) }]);
}

#[test]
fn right_panel_draws_divider_and_uses_right_half() {
    let data = sample_data();
    let config = LayoutConfig {
        width: 400,
        height: 300,
        left: Vec::new(),
        right: vec![section("bart", "south")],
    };
    let (cmds, warnings) = board_commands(&data, &config).unwrap();
    let expected = vec![
        DrawCmd::Segment { x1: 200, y1: 0, x2: 200, y2: 300, color: Color::Black },
        DrawCmd::Row {
            x: 220,
            y: 38,
            label: s("Blue"),
            destination: s("Dublin"),
            times: s("5 min"),
            right_edge: 400,
        },
        DrawCmd::Segment { x1: 200, y1: 53, x2: 400, y2: 53, color: Color::Black },
    ];
    assert_eq!(cmds, expected);
    assert!(warnings.is_empty());
}

#[test]
fn resolved_section_with_no_lines_draws_only_closing_separator() {
    let data = StopData {
        agencies: vec![AgencyEntry {
            agency: s("bart"),
            directions: vec![DirectionEntry { direction: s("north"), lines: Vec::new() }],
        }],
    };
    let out = section_commands(&data, &section("bart", "north"), 0, 200, 300, 38).unwrap();
    assert_eq!(out.0, vec![DrawCmd::Segment { x1: 0, y1: 38, x2: 200, y2: 38, color: Color::Black }]);
    assert!(out.1.is_empty());
    assert_eq!(out.2, 38 + 28);
}

#[test]
fn identical_inputs_give_identical_command_lists() {
    let data = sample_data();
    let config = LayoutConfig {
        width: 400,
        height: 300,
        left: vec![section("bart", "north")],
        right: vec![section("bart", "south")],
    };
    let first = board_commands(&data, &config).unwrap();
    let second = board_commands(&data, &config).unwrap();
    assert_eq!(first.0, second.0);
    assert_eq!(first.1, second.1);
}
