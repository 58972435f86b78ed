use vstd::prelude::*;
use vstd::string::StringExecFns;

use crate::commands::DrawCmd;
use crate::commands::DrawCmdV;
use crate::commands::FontKind;

verus! {

/// Any failure value from upstream, reduced to what the degraded-mode
/// board shows: the cause chain's human-readable messages in source order.
pub struct ErrorValue {
    pub messages: Vec<String>,
}

impl DeepView for ErrorValue {
    type V = Seq<Seq<char>>;

    open spec fn deep_view(&self) -> Seq<Seq<char>> {
        self.messages.deep_view()
    }
}

/// The display list of the degraded-mode board: the fixed headline at
/// (100, 200) in the large font, then one body line per cause message at
/// x = 100, the first at y = 250 and each further one 20 lower.
#[verifier::loop_isolation(false)]
pub fn error_commands(error: &ErrorValue) -> (r: Vec<DrawCmd>)
    requires
        250 + 20 * error.messages@.len() <= i64::MAX,
    ensures
        r@.len() == 1 + error.messages@.len(),
        (r.deep_view()[0] matches DrawCmdV::Text { x, y, text, font } && x == 100 && y == 200
            && text == "ERROR"@ && font == FontKind::ErrorHeadline),
        forall|i: int|
            0 <= i < error.messages@.len() ==> r.deep_view()[i + 1] == (DrawCmdV::Text {
                x: 100,
                y: 250 + 20 * i,
                text: error.messages@[i]@,
                font: FontKind::ErrorBody,
            }),
{
    let mut cmds: Vec<DrawCmd> = Vec::new();
    cmds.push(
        DrawCmd::Text {
            x: 100,
            y: 200,
            text: String::from_str("ERROR"),
            font: FontKind::ErrorHeadline,
        },
    );
    let n = error.messages.len();
    let mut i: usize = 0;
    let mut y: i64 = 250;
    while i < n
        invariant
            i <= n,
            y == 250 + 20 * i,
            cmds@.len() == 1 + i,
            (cmds.deep_view()[0] matches DrawCmdV::Text { x, y, text, font } && x == 100 && y
                == 200 && text == "ERROR"@ && font == FontKind::ErrorHeadline),
            forall|j: int|
                0 <= j < i ==> cmds.deep_view()[j + 1] == (DrawCmdV::Text {
                    x: 100,
                    y: 250 + 20 * j,
                    text: error.messages@[j]@,
                    font: FontKind::ErrorBody,
                }),
        decreases n - i,
    {
        cmds.push(
            DrawCmd::Text {
                x: 100,
                y: y,
                text: error.messages[i].clone(),
                font: FontKind::ErrorBody,
            },
        );
        y = y + 20;
        i += 1;
    }
    cmds
}

} // verus!
