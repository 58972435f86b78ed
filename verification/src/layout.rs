use vstd::prelude::*;

use crate::commands::Color;
use crate::commands::DrawCmd;
use crate::commands::DrawCmdV;
use crate::model::AgencyEntryV;
use crate::model::DirectionEntryV;
use crate::model::LayoutConfig;
use crate::model::LayoutConfigV;
use crate::model::SectionSpec;
use crate::model::SectionSpecV;
use crate::model::StopData;
use crate::model::Warning;
use crate::model::WarningV;
use crate::model::find_agency;
use crate::model::find_direction;
use crate::model::LineInfoV;
use crate::text::time_label;
use crate::text::time_text;

verus! {

/// Commands for one section's departure rows, and the cursor after them.
/// Every row starts at `x1 + 20`; its time string ends at `x2`. A row that
/// is not the last is followed by a soft separator at `y + 15` and advances
/// the cursor by 40; the last row advances it by 15.
pub open spec fn lines_render(
    lines: Seq<(LineInfoV, Seq<int>)>,
    x1: int,
    x2: int,
    y: int,
) -> (Seq<DrawCmdV>, int)
    decreases lines.len(),
{
    if lines.len() == 0 {
        (Seq::<DrawCmdV>::empty(), y)
    } else {
        let row = DrawCmdV::Row {
            x: x1 + 20,
            y: y,
            label: lines[0].0.line,
            destination: lines[0].0.destination,
            times: time_label(lines[0].1),
            right_edge: x2,
        };
        if lines.len() == 1 {
            (seq![row], y + 15)
        } else {
            let sep = DrawCmdV::Segment {
                x1: x1 + 40,
                y1: y + 15,
                x2: x2 - 40,
                y2: y + 15,
                color: Color::Grey,
            };
            let rest = lines_render(lines.drop_first(), x1, x2, y + 40);
            (seq![row, sep] + rest.0, rest.1)
        }
    }
}

/// Commands for one configured section, its warnings, and the cursor after
/// it. A section whose (agency, direction) pair is absent from the dataset
/// produces no commands, one warning, and leaves the cursor untouched.
/// A resolved section in the right panel (`x1 > 0`) first draws a full-height
/// divider at `x1`; after its rows it draws a black closing separator across
/// `[x1, x2]` at the cursor and advances the cursor by 28.
pub open spec fn section_render(
    sd: Seq<AgencyEntryV>,
    sec: SectionSpecV,
    x1: int,
    x2: int,
    height: int,
    y: int,
) -> (Seq<DrawCmdV>, Seq<WarningV>, int) {
    match find_agency(sd, sec.agency) {
        Option::None => (
            Seq::<DrawCmdV>::empty(),
            seq![WarningV { agency: sec.agency, direction: Option::None }],
            y,
        ),
        Option::Some(ag) => match find_direction(ag.directions, sec.direction) {
            Option::None => (
                Seq::<DrawCmdV>::empty(),
                seq![WarningV { agency: sec.agency, direction: Option::Some(sec.direction) }],
                y,
            ),
            Option::Some(dir) => {
                let divider: Seq<DrawCmdV> = if x1 > 0 {
                    seq![
                        DrawCmdV::Segment { x1: x1, y1: 0, x2: x1, y2: height, color: Color::Black },
                    ]
                } else {
                    Seq::<DrawCmdV>::empty()
                };
                let body = lines_render(dir.lines, x1, x2, y);
                let closing = DrawCmdV::Segment {
                    x1: x1,
                    y1: body.1,
                    x2: x2,
                    y2: body.1,
                    color: Color::Black,
                };
                (divider + body.0 + seq![closing], Seq::<WarningV>::empty(), body.1 + 28)
            },
        },
    }
}

/// Commands and warnings for one panel: its sections rendered in order,
/// each starting at the cursor the previous one left.
pub open spec fn panel_render(
    sd: Seq<AgencyEntryV>,
    sections: Seq<SectionSpecV>,
    x1: int,
    x2: int,
    height: int,
    y: int,
) -> (Seq<DrawCmdV>, Seq<WarningV>, int)
    decreases sections.len(),
{
    if sections.len() == 0 {
        (Seq::<DrawCmdV>::empty(), Seq::<WarningV>::empty(), y)
    } else {
        let first = section_render(sd, sections[0], x1, x2, height, y);
        let rest = panel_render(sd, sections.drop_first(), x1, x2, height, first.2);
        (first.0 + rest.0, first.1 + rest.1, rest.2)
    }
}

/// The whole board: the left panel over `[0, width / 2]` and the right
/// panel over `[width / 2, width]`, each from its own cursor at 38, with
/// the left panel's commands and warnings first.
pub open spec fn board_render(sd: Seq<AgencyEntryV>, config: LayoutConfigV) -> (
    Seq<DrawCmdV>,
    Seq<WarningV>,
) {
    let lp = panel_render(sd, config.left, 0, config.width / 2, config.height, 38);
    let rp = panel_render(sd, config.right, config.width / 2, config.width, config.height, 38);
    (lp.0 + rp.0, lp.1 + rp.1)
}

/// True when both panels' cursors stay inside the `i64` coordinate range,
/// so the board's command list is representable.
pub open spec fn board_fits(sd: Seq<AgencyEntryV>, config: LayoutConfigV) -> bool {
    panel_render(sd, config.left, 0, config.width / 2, config.height, 38).2 <= i64::MAX
        && panel_render(sd, config.right, config.width / 2, config.width, config.height, 38).2
        <= i64::MAX
}

/// The cursor never moves up: rendering rows leaves it at or below where
/// it started.
pub proof fn lemma_lines_cursor_monotone(lines: Seq<(LineInfoV, Seq<int>)>, x1: int, x2: int, y: int)
    ensures
        lines_render(lines, x1, x2, y).1 >= y,
    decreases lines.len(),
{
    if lines.len() > 1 {
        lemma_lines_cursor_monotone(lines.drop_first(), x1, x2, y + 40);
    }
}

/// The cursor never moves up across a whole section.
pub proof fn lemma_section_cursor_monotone(
    sd: Seq<AgencyEntryV>,
    sec: SectionSpecV,
    x1: int,
    x2: int,
    height: int,
    y: int,
)
    ensures
        section_render(sd, sec, x1, x2, height, y).2 >= y,
{
    match find_agency(sd, sec.agency) {
        Option::None => {},
        Option::Some(ag) => match find_direction(ag.directions, sec.direction) {
            Option::None => {},
            Option::Some(dir) => {
                lemma_lines_cursor_monotone(dir.lines, x1, x2, y);
            },
        },
    }
}

/// The cursor never moves up across a whole panel.
pub proof fn lemma_panel_cursor_monotone(
    sd: Seq<AgencyEntryV>,
    sections: Seq<SectionSpecV>,
    x1: int,
    x2: int,
    height: int,
    y: int,
)
    ensures
        panel_render(sd, sections, x1, x2, height, y).2 >= y,
    decreases sections.len(),
{
    if sections.len() > 0 {
        lemma_section_cursor_monotone(sd, sections[0], x1, x2, height, y);
        lemma_panel_cursor_monotone(
            sd,
            sections.drop_first(),
            x1,
            x2,
            height,
            section_render(sd, sections[0], x1, x2, height, y).2,
        );
    }
}

/// Rendering is deterministic: the board's command list and warnings are a
/// function of the dataset and the layout alone, so two renders of equal
/// inputs agree. Together with the contract of `board_commands`, whose
/// result is pinned to `board_render` of its arguments' views, repeated
/// calls on identical inputs yield identical command lists.
pub proof fn lemma_board_deterministic(
    sd1: Seq<AgencyEntryV>,
    config1: LayoutConfigV,
    sd2: Seq<AgencyEntryV>,
    config2: LayoutConfigV,
)
    requires
        sd1 == sd2,
        config1 == config2,
    ensures
        board_render(sd1, config1) == board_render(sd2, config2),
{
}

/// A section whose agency is absent from the dataset, or whose direction
/// is absent within its agency, renders nothing: no commands, exactly one
/// warning naming its agency, and an unchanged cursor.
pub proof fn lemma_missing_section_skipped(
    sd: Seq<AgencyEntryV>,
    sec: SectionSpecV,
    x1: int,
    x2: int,
    height: int,
    y: int,
)
    requires
        find_agency(sd, sec.agency) is None || (find_agency(sd, sec.agency) matches Option::Some(
            ag,
        ) && find_direction(ag.directions, sec.direction) is None),
    ensures
        section_render(sd, sec, x1, x2, height, y).0 =~= Seq::<DrawCmdV>::empty(),
        section_render(sd, sec, x1, x2, height, y).1.len() == 1,
        section_render(sd, sec, x1, x2, height, y).1[0].agency == sec.agency,
        section_render(sd, sec, x1, x2, height, y).2 == y,
{
}

/// On a panel rendered from an empty dataset every section is skipped: no
/// commands, one warning per section, and the cursor stays where it began.
pub proof fn lemma_empty_data_panel(
    sd: Seq<AgencyEntryV>,
    sections: Seq<SectionSpecV>,
    x1: int,
    x2: int,
    height: int,
    y: int,
)
    requires
        sd.len() == 0,
    ensures
        panel_render(sd, sections, x1, x2, height, y).0 =~= Seq::<DrawCmdV>::empty(),
        panel_render(sd, sections, x1, x2, height, y).1.len() == sections.len(),
        panel_render(sd, sections, x1, x2, height, y).2 == y,
    decreases sections.len(),
{
    if sections.len() > 0 {
        lemma_missing_section_skipped(sd, sections[0], x1, x2, height, y);
        lemma_empty_data_panel(sd, sections.drop_first(), x1, x2, height, y);
        assert(panel_render(sd, sections, x1, x2, height, y).0 =~= Seq::<DrawCmdV>::empty());
    }
}

/// On an empty dataset the whole board renders: it fits the coordinate
/// range, draws nothing, and emits exactly one warning per configured
/// section, left panel first.
pub proof fn lemma_empty_data_board(sd: Seq<AgencyEntryV>, config: LayoutConfigV)
    requires
        sd.len() == 0,
    ensures
        board_fits(sd, config),
        board_render(sd, config).0 =~= Seq::<DrawCmdV>::empty(),
        board_render(sd, config).1.len() == config.left.len() + config.right.len(),
{
    lemma_empty_data_panel(sd, config.left, 0, config.width / 2, config.height, 38);
    lemma_empty_data_panel(sd, config.right, config.width / 2, config.width, config.height, 38);
    assert(board_render(sd, config).0 =~= Seq::<DrawCmdV>::empty());
}

/// Rendering n >= 1 rows advances the cursor by exactly 40 for each row
/// but the last, and by 15 for the last.
pub proof fn lemma_lines_advance(lines: Seq<(LineInfoV, Seq<int>)>, x1: int, x2: int, y: int)
    requires
        lines.len() >= 1,
    ensures
        lines_render(lines, x1, x2, y).1 == y + 40 * (lines.len() - 1) + 15,
    decreases lines.len(),
{
    if lines.len() > 1 {
        lemma_lines_advance(lines.drop_first(), x1, x2, y + 40);
    }
}

/// A section that resolves to n >= 1 rows advances the cursor by exactly
/// 40 * (n - 1) + 15 for its rows plus 28 for the section gap; so a 2-row
/// section started at y hands the next section the cursor y + 40 + 15 + 28.
pub proof fn lemma_section_advance(
    sd: Seq<AgencyEntryV>,
    sec: SectionSpecV,
    ag: AgencyEntryV,
    dir: DirectionEntryV,
    x1: int,
    x2: int,
    height: int,
    y: int,
)
    requires
        find_agency(sd, sec.agency) == Option::Some(ag),
        find_direction(ag.directions, sec.direction) == Option::Some(dir),
        dir.lines.len() >= 1,
    ensures
        section_render(sd, sec, x1, x2, height, y).2 == y + 40 * (dir.lines.len() - 1) + 15 + 28,
{
    lemma_lines_advance(dir.lines, x1, x2, y);
}

/// One section's drawing commands and warnings, starting at cursor `y0`.
/// Returns `None` exactly when the section's final cursor would leave the
/// `i64` range.
#[verifier::loop_isolation(false)]
pub fn section_commands(
    stop_data: &StopData,
    section: &SectionSpec,
    x1: i64,
    x2: i64,
    height: i64,
    y0: i64,
) -> (r: Option<(Vec<DrawCmd>, Vec<Warning>, i64)>)
    requires
        0 <= x1 <= x2 <= i32::MAX as i64,
        0 <= height,
        0 <= y0,
    ensures
        ({
            let sr = section_render(
                stop_data.deep_view(),
                section.deep_view(),
                x1 as int,
                x2 as int,
                height as int,
                y0 as int,
            );
            match r {
                Option::Some(out) => sr.2 <= i64::MAX && out.0.deep_view() == sr.0
                    && out.1.deep_view() == sr.1 && out.2 == sr.2,
                Option::None => sr.2 > i64::MAX,
            }
        }),
{
    let ghost sdv = stop_data.deep_view();
    let ghost secv = section.deep_view();
    let ghost sr = section_render(sdv, secv, x1 as int, x2 as int, height as int, y0 as int);
    let mut cmds: Vec<DrawCmd> = Vec::new();
    let mut warnings: Vec<Warning> = Vec::new();
    let ai = match stop_data.agency_index(&section.agency) {
        Option::None => {
            warnings.push(Warning { agency: section.agency.clone(), direction: Option::None });
            proof {
                assert(cmds.deep_view() =~= sr.0);
                assert(warnings.deep_view() =~= sr.1);
            }
            return Option::Some((cmds, warnings, y0));
        },
        Option::Some(ai) => ai,
    };
    let ag = &stop_data.agencies[ai];
    let di = match ag.direction_index(&section.direction) {
        Option::None => {
            warnings.push(
                Warning {
                    agency: section.agency.clone(),
                    direction: Option::Some(section.direction.clone()),
                },
            );
            proof {
                assert(cmds.deep_view() =~= sr.0);
                assert(warnings.deep_view() =~= sr.1);
            }
            return Option::Some((cmds, warnings, y0));
        },
        Option::Some(di) => di,
    };
    let dir = &ag.directions[di];
    proof {
        assert(find_agency(sdv, secv.agency) == Option::Some(ag.deep_view()));
        assert(find_direction(ag.directions.deep_view(), secv.direction) == Option::Some(
            dir.deep_view(),
        ));
    }
    if x1 > 0 {
        cmds.push(DrawCmd::Segment { x1: x1, y1: 0, x2: x1, y2: height, color: Color::Black });
    }
    let ghost base = cmds.deep_view();
    let ghost linesv = dir.lines.deep_view();
    let ghost lr = lines_render(linesv, x1 as int, x2 as int, y0 as int);
    let mut line_cmds: Vec<DrawCmd> = Vec::new();
    let mut y = y0;
    let n = dir.lines.len();
    let mut idx: usize = 0;
    proof {
        assert(linesv.skip(0) =~= linesv);
        assert(line_cmds.deep_view() =~= Seq::<DrawCmdV>::empty());
    }
    while idx < n
        invariant
            idx <= n,
            n == dir.lines@.len(),
            linesv == dir.lines.deep_view(),
            0 <= y0 <= y,
            lr == lines_render(linesv, x1 as int, x2 as int, y0 as int),
            lr.0 == line_cmds.deep_view() + lines_render(
                linesv.skip(idx as int),
                x1 as int,
                x2 as int,
                y as int,
            ).0,
            lr.1 == lines_render(linesv.skip(idx as int), x1 as int, x2 as int, y as int).1,
        decreases n - idx,
    {
        proof {
            assert(linesv.skip(idx as int)[0] == linesv[idx as int]);
            assert(linesv[idx as int] == dir.lines@[idx as int].deep_view());
            assert(linesv.skip(idx as int).drop_first() =~= linesv.skip(idx as int + 1));
        }
        let entry = &dir.lines[idx];
        let tt = time_text(&entry.1);
        let ghost before = line_cmds.deep_view();
        line_cmds.push(
            DrawCmd::Row {
                x: x1 + 20,
                y: y,
                label: entry.0.line.clone(),
                destination: entry.0.destination.clone(),
                times: tt,
                right_edge: x2,
            },
        );
        if idx + 1 < n {
            match y.checked_add(40) {
                Option::Some(y_next) => {
                    line_cmds.push(
                        DrawCmd::Segment {
                            x1: x1 + 40,
                            y1: y + 15,
                            x2: x2 - 40,
                            y2: y + 15,
                            color: Color::Grey,
                        },
                    );
                    proof {
                        assert(line_cmds.deep_view() =~= before + seq![
                            lines_render(linesv.skip(idx as int), x1 as int, x2 as int, y as int).0[0],
                            lines_render(linesv.skip(idx as int), x1 as int, x2 as int, y as int).0[1],
                        ]);
                        assert(lr.0 =~= line_cmds.deep_view() + lines_render(
                            linesv.skip(idx as int + 1),
                            x1 as int,
                            x2 as int,
                            y_next as int,
                        ).0);
                    }
                    y = y_next;
                },
                Option::None => {
                    proof {
                        lemma_lines_cursor_monotone(
                            linesv.skip(idx as int + 1),
                            x1 as int,
                            x2 as int,
                            y as int + 40,
                        );
                        assert(lr.1 > i64::MAX);
                        assert(sr.2 == lr.1 + 28);
                    }
                    return Option::None;
                },
            }
        } else {
            match y.checked_add(15) {
                Option::Some(y_next) => {
                    proof {
                        assert(linesv.skip(idx as int).len() == 1);
                        assert(line_cmds.deep_view() =~= before + seq![
                            lines_render(linesv.skip(idx as int), x1 as int, x2 as int, y as int).0[0],
                        ]);
                        assert(lr.0 =~= line_cmds.deep_view() + lines_render(
                            linesv.skip(idx as int + 1),
                            x1 as int,
                            x2 as int,
                            y_next as int,
                        ).0);
                    }
                    y = y_next;
                },
                Option::None => {
                    proof {
                        assert(linesv.skip(idx as int).len() == 1);
                        assert(lr.1 > i64::MAX);
                        assert(sr.2 == lr.1 + 28);
                    }
                    return Option::None;
                },
            }
        }
        idx += 1;
    }
    proof {
        assert(linesv.skip(n as int) =~= Seq::<(LineInfoV, Seq<int>)>::empty());
        assert(line_cmds.deep_view() =~= lr.0);
        assert(y as int == lr.1);
    }
    let ghost lcv = line_cmds.deep_view();
    cmds.append(&mut line_cmds);
    cmds.push(DrawCmd::Segment { x1: x1, y1: y, x2: x2, y2: y, color: Color::Black });
    proof {
        assert(cmds.deep_view() =~= base + lcv + seq![
            DrawCmdV::Segment {
                x1: x1 as int,
                y1: lr.1,
                x2: x2 as int,
                y2: lr.1,
                color: Color::Black,
            },
        ]);
        assert(cmds.deep_view() =~= sr.0);
    }
    match y.checked_add(28) {
        Option::Some(y_end) => {
            proof {
                assert(warnings.deep_view() =~= sr.1);
            }
            Option::Some((cmds, warnings, y_end))
        },
        Option::None => {
            proof {
                assert(sr.2 > i64::MAX);
            }
            Option::None
        },
    }
}

/// One panel's commands and warnings, its sections stacked from the top
/// margin at cursor 38. Returns `None` exactly when the panel's final
/// cursor would leave the `i64` range.
#[verifier::loop_isolation(false)]
pub fn panel_commands(
    stop_data: &StopData,
    sections: &Vec<SectionSpec>,
    x1: i64,
    x2: i64,
    height: i64,
) -> (r: Option<(Vec<DrawCmd>, Vec<Warning>, i64)>)
    requires
        0 <= x1 <= x2 <= i32::MAX as i64,
        0 <= height,
    ensures
        ({
            let pr = panel_render(
                stop_data.deep_view(),
                sections.deep_view(),
                x1 as int,
                x2 as int,
                height as int,
                38,
            );
            match r {
                Option::Some(out) => pr.2 <= i64::MAX && out.0.deep_view() == pr.0
                    && out.1.deep_view() == pr.1 && out.2 == pr.2,
                Option::None => pr.2 > i64::MAX,
            }
        }),
{
    let ghost sdv = stop_data.deep_view();
    let ghost secsv = sections.deep_view();
    let ghost pr = panel_render(sdv, secsv, x1 as int, x2 as int, height as int, 38);
    let mut cmds: Vec<DrawCmd> = Vec::new();
    let mut warnings: Vec<Warning> = Vec::new();
    let mut y: i64 = 38;
    let nsec = sections.len();
    let mut k: usize = 0;
    proof {
        assert(secsv.skip(0) =~= secsv);
        assert(cmds.deep_view() =~= Seq::<DrawCmdV>::empty());
        assert(warnings.deep_view() =~= Seq::<WarningV>::empty());
    }
    while k < nsec
        invariant
            k <= nsec,
            38 <= y,
            pr.0 == cmds.deep_view() + panel_render(
                sdv,
                secsv.skip(k as int),
                x1 as int,
                x2 as int,
                height as int,
                y as int,
            ).0,
            pr.1 == warnings.deep_view() + panel_render(
                sdv,
                secsv.skip(k as int),
                x1 as int,
                x2 as int,
                height as int,
                y as int,
            ).1,
            pr.2 == panel_render(
                sdv,
                secsv.skip(k as int),
                x1 as int,
                x2 as int,
                height as int,
                y as int,
            ).2,
        decreases nsec - k,
    {
        proof {
            assert(secsv.skip(k as int)[0] == secsv[k as int]);
            assert(secsv[k as int] == sections@[k as int].deep_view());
            assert(secsv.skip(k as int).drop_first() =~= secsv.skip(k as int + 1));
        }
        let ghost sr = section_render(
            sdv,
            secsv[k as int],
            x1 as int,
            x2 as int,
            height as int,
            y as int,
        );
        match section_commands(stop_data, &sections[k], x1, x2, height, y) {
            Option::Some(out) => {
                let (mut c, mut w, y_next) = out;
                let ghost cv = c.deep_view();
                let ghost wv = w.deep_view();
                let ghost old_cmds = cmds.deep_view();
                let ghost old_warnings = warnings.deep_view();
                cmds.append(&mut c);
                warnings.append(&mut w);
                proof {
                    assert(cmds.deep_view() =~= old_cmds + cv);
                    assert(warnings.deep_view() =~= old_warnings + wv);
                    lemma_section_cursor_monotone(
                        sdv,
                        secsv[k as int],
                        x1 as int,
                        x2 as int,
                        height as int,
                        y as int,
                    );
                    assert(pr.0 =~= cmds.deep_view() + panel_render(
                        sdv,
                        secsv.skip(k as int + 1),
                        x1 as int,
                        x2 as int,
                        height as int,
                        y_next as int,
                    ).0);
                    assert(pr.1 =~= warnings.deep_view() + panel_render(
                        sdv,
                        secsv.skip(k as int + 1),
                        x1 as int,
                        x2 as int,
                        height as int,
                        y_next as int,
                    ).1);
                }
                y = y_next;
            },
            Option::None => {
                proof {
                    lemma_panel_cursor_monotone(
                        sdv,
                        secsv.skip(k as int + 1),
                        x1 as int,
                        x2 as int,
                        height as int,
                        sr.2,
                    );
                    assert(pr.2 > i64::MAX);
                }
                return Option::None;
            },
        }
        k += 1;
    }
    proof {
        assert(secsv.skip(nsec as int) =~= Seq::<SectionSpecV>::empty());
        assert(cmds.deep_view() =~= pr.0);
        assert(warnings.deep_view() =~= pr.1);
    }
    Option::Some((cmds, warnings, y))
}

/// The layout engine's whole output for one render call: the display list
/// and the warnings for both panels, the left panel first. Each panel's
/// vertical cursor starts at 38 and is never shared with the other panel.
/// Returns `None` exactly when a panel's cursor would leave the `i64`
/// coordinate range.
pub fn board_commands(stop_data: &StopData, config: &LayoutConfig) -> (r: Option<
    (Vec<DrawCmd>, Vec<Warning>),
>)
    requires
        config.width > 0,
        config.height > 0,
    ensures
        ({
            let br = board_render(stop_data.deep_view(), config.deep_view());
            match r {
                Option::Some(out) => board_fits(stop_data.deep_view(), config.deep_view())
                    && out.0.deep_view() == br.0 && out.1.deep_view() == br.1,
                Option::None => !board_fits(stop_data.deep_view(), config.deep_view()),
            }
        }),
{
    let halfway = (config.width / 2) as i64;
    let w = config.width as i64;
    let h = config.height as i64;
    let left = match panel_commands(stop_data, &config.left, 0, halfway, h) {
        Option::Some(out) => out,
        Option::None => {
            return Option::None;
        },
    };
    let right = match panel_commands(stop_data, &config.right, halfway, w, h) {
        Option::Some(out) => out,
        Option::None => {
            return Option::None;
        },
    };
    let (mut cmds, mut warnings, _) = left;
    let (mut rc, mut rw, _) = right;
    let ghost lcv = cmds.deep_view();
    let ghost lwv = warnings.deep_view();
    let ghost rcv = rc.deep_view();
    let ghost rwv = rw.deep_view();
    cmds.append(&mut rc);
    warnings.append(&mut rw);
    proof {
        assert(cmds.deep_view() =~= lcv + rcv);
        assert(warnings.deep_view() =~= lwv + rwv);
    }
    Option::Some((cmds, warnings))
}

} // verus!
