//! The per-record decision shared by every renderer: a record that the
//! filter admits is rendered once, any other produces nothing.

use vstd::prelude::*;
use crate::record::{Record, RecordView};
use crate::{clean, ndjson, pretty};
use crate::clean::plain_text;
use crate::ndjson::{json_members, json_quoted, json_text, level_code};
use crate::pretty::{glyph, level_color, message_block, pretty_pairs, pretty_text};
use crate::style::{decorate, underline_code};
use crate::text::decimal;

verus! {

/// The three output formats.
#[derive(Clone, Copy, Debug, PartialEq, Eq, Structural)]
pub enum Renderer {
    Plain,
    Pretty,
    Structured,
}

/// The text that `renderer` writes for a record. `colors` matters to Pretty
/// alone, `time` to Structured alone.
pub open spec fn rendered(renderer: Renderer, r: RecordView, colors: bool, time: nat) -> Seq<
    char,
> {
    match renderer {
        Renderer::Plain => plain_text(r),
        Renderer::Pretty => pretty_text(r, colors),
        Renderer::Structured => json_text(r, time),
    }
}

/// Handles one record: `admitted` is the filter's verdict on it. An admitted
/// record yields its rendering as one unit of output; any other yields none.
pub fn emit(renderer: Renderer, admitted: bool, record: &Record, colors: bool, time_ms: u128) -> (r:
    Option<String>)
    ensures
        r is Some <==> admitted,
        r matches Some(t) ==> t@ == rendered(renderer, record@, colors, time_ms as nat),
{
    if !admitted {
        return None;
    }
    match renderer {
        Renderer::Plain => Some(clean::render(record)),
        Renderer::Pretty => Some(pretty::render(record, colors)),
        Renderer::Structured => Some(ndjson::render(record, time_ms)),
    }
}

/// Rendering depends on the record alone (and, for Structured, on the time
/// stamp): two records with the same content render to the same text, so
/// rendering one record twice gives identical output.
pub proof fn lemma_render_deterministic(
    renderer: Renderer,
    a: RecordView,
    b: RecordView,
    colors: bool,
    time: nat,
)
    requires
        a == b,
    ensures
        rendered(renderer, a, colors, time) == rendered(renderer, b, colors, time),
{
}

/// The structured object of a record has exactly `level`, `time` and `msg`
/// followed by one member per attribute, named by the attribute's key; the
/// `level` member holds the severity's numeric code.
pub proof fn lemma_json_members(r: RecordView, time: nat)
    ensures
        json_members(r, time).len() == 3 + r.key_values.len(),
        json_members(r, time)[0] == (json_quoted("level"@), decimal(level_code(r.level) as nat)),
        json_members(r, time)[1] == (json_quoted("time"@), decimal(time)),
        json_members(r, time)[2] == (json_quoted("msg"@), json_quoted(r.message)),
        forall|i: int|
            0 <= i < r.key_values.len() ==> #[trigger] json_members(r, time)[3 + i] == (
                json_quoted(r.key_values[i].0),
                json_quoted(r.key_values[i].1),
            ),
        r.key_values.len() == 0 ==> json_members(r, time).len() == 3,
{
}

/// A pretty record with neither location nor attributes is its message block
/// and nothing else.
pub proof fn lemma_pretty_message_only(r: RecordView, colors: bool)
    requires
        r.file is None,
        r.line is None,
        r.key_values.len() == 0,
    ensures
        pretty_text(r, colors) == message_block(r.level, r.message, colors),
{
    assert(pretty_text(r, colors) =~= message_block(r.level, r.message, colors));
}

/// With a known file and line, the location line `   file:line` directly
/// follows the message block, whatever the attributes. The block ends with
/// its only line break whenever the message holds none, so the location is
/// then the second line, with colours on or off.
pub proof fn lemma_pretty_location_second(r: RecordView, colors: bool)
    requires
        r.file is Some,
        r.line is Some,
    ensures
        pretty_text(r, colors) == message_block(r.level, r.message, colors) + "   "@
            + r.file->0 + ":"@ + decimal(r.line->0 as nat) + "\n"@ + pretty_pairs(
            r.key_values,
            colors,
        ),
        message_block(r.level, r.message, colors).last() == '\n',
        !r.message.contains('\n') ==> !message_block(r.level, r.message, colors).drop_last().contains(
            '\n',
        ),
{
    reveal_strlit("\n");
    reveal_strlit("  ");
    reveal_strlit("\u{1b}[");
    reveal_strlit("m");
    reveal_strlit("\u{1b}[0m");
    reveal_strlit("4");
    reveal_strlit("31");
    reveal_strlit("32");
    reveal_strlit("33");
    reveal_strlit("◯");
    reveal_strlit("◎");
    reveal_strlit("●");
    reveal_strlit("⌿");
    reveal_strlit("✖");
    let line = decorate(
        colors,
        level_color(r.level),
        glyph(r.level) + "  "@ + decorate(colors, underline_code(), r.message),
    );
    assert(message_block(r.level, r.message, colors).drop_last() =~= line);
    assert(pretty_text(r, colors) =~= message_block(r.level, r.message, colors) + "   "@
        + r.file->0 + ":"@ + decimal(r.line->0 as nat) + "\n"@ + pretty_pairs(
        r.key_values,
        colors,
    ));
    if !r.message.contains('\n') {
        let u = decorate(colors, underline_code(), r.message);
        assert(!u.contains('\n')) by {
            if colors {
                if u.contains('\n') {
                    let k = choose|k: int| 0 <= k < u.len() && u[k] == '\n';
                    let n = r.message.len();
                    if 3 <= k < 3 + n {
                        assert(r.message[k - 3] == '\n');
                    }
                }
            }
        }
        assert(!line.contains('\n')) by {
            if line.contains('\n') {
                let k = choose|k: int| 0 <= k < line.len() && line[k] == '\n';
                let g = glyph(r.level) + "  "@ + u;
                if colors {
                    let c = level_color(r.level);
                    if 2 + c.len() + 1 <= k < 2 + c.len() + 1 + g.len() {
                        let kk = k - (2 + c.len() + 1);
                        if 3 <= kk {
                            assert(u[kk - 3] == '\n');
                        }
                    }
                } else {
                    if 3 <= k {
                        assert(u[k - 3] == '\n');
                    }
                }
            }
        }
    }
}

} // verus!
