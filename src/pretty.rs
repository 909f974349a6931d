//! Pretty rendering: a coloured message line with a severity glyph, the
//! source location, and one line per attribute.

use vstd::prelude::*;
use crate::record::{Level, Record, RecordView, pairs_view};
use crate::style::{
    decorate, green, green_code, magenta, magenta_code, red, red_code, underline_code,
    underlined, yellow, yellow_code,
};
use crate::text::{decimal, decimal_text};

verus! {

/// The glyph that marks each severity.
pub open spec fn glyph(level: Level) -> Seq<char> {
    match level {
        Level::Trace => "◯"@,
        Level::Debug => "◎"@,
        Level::Info => "●"@,
        Level::Warn => "⌿"@,
        Level::Error => "✖"@,
    }
}

/// The colour of the message line: green up to Info, yellow for Warn, red
/// for Error.
pub open spec fn level_color(level: Level) -> Seq<char> {
    match level {
        Level::Warn => yellow_code(),
        Level::Error => red_code(),
        _ => green_code(),
    }
}

/// The message block: glyph, two spaces and the underlined message, in the
/// severity's colour, closed before the newline that ends the line.
pub open spec fn message_block(level: Level, message: Seq<char>, colors: bool) -> Seq<char> {
    decorate(colors, level_color(level), glyph(level) + "  "@ + decorate(colors, underline_code(), message))
        + "\n"@
}

/// The location line, present only when both file and line are known.
pub open spec fn location_line(file: Option<Seq<char>>, line: Option<u32>) -> Seq<char> {
    match (file, line) {
        (Some(f), Some(n)) => "   "@ + f + ":"@ + decimal(n as nat) + "\n"@,
        _ => Seq::empty(),
    }
}

/// One line `   › key: value` per attribute, the key in magenta.
pub open spec fn pretty_pairs(kvs: Seq<(Seq<char>, Seq<char>)>, colors: bool) -> Seq<char>
    decreases kvs.len(),
{
    if kvs.len() == 0 {
        Seq::empty()
    } else {
        pretty_pairs(kvs.drop_last(), colors) + "   › "@ + decorate(
            colors,
            magenta_code(),
            kvs.last().0,
        ) + ": "@ + kvs.last().1 + "\n"@
    }
}

/// The pretty block of a record.
pub open spec fn pretty_text(r: RecordView, colors: bool) -> Seq<char> {
    message_block(r.level, r.message, colors) + location_line(r.file, r.line) + pretty_pairs(
        r.key_values,
        colors,
    )
}

fn glyph_str(level: Level) -> (r: &'static str)
    ensures
        r@ == glyph(level),
{
    match level {
        Level::Trace => "◯",
        Level::Debug => "◎",
        Level::Info => "●",
        Level::Warn => "⌿",
        Level::Error => "✖",
    }
}

fn in_level_color(level: Level, s: &str) -> (r: String)
    ensures
        r@ == decorate(true, level_color(level), s@),
{
    match level {
        Level::Warn => yellow(s),
        Level::Error => red(s),
        _ => green(s),
    }
}

/// The message block of `record`.
pub fn format_message(record: &Record, colors: bool) -> (r: String)
    ensures
        r@ == message_block(record.level, record@.message, colors),
{
    let mut line = String::from_str(glyph_str(record.level));
    line.append("  ");
    if colors {
        let msg = underlined(record.message.as_str());
        line.append(msg.as_str());
    } else {
        line.append(record.message.as_str());
    }
    let mut block = if colors {
        in_level_color(record.level, line.as_str())
    } else {
        line
    };
    block.append("\n");
    block
}

/// The location line of `record`: `   file:line` and a newline when both are
/// known, empty otherwise.
pub fn format_line(record: &Record) -> (r: String)
    ensures
        r@ == location_line(record@.file, record@.line),
{
    match (&record.file, record.line) {
        (Some(file), Some(line)) => {
            let mut s = String::from_str("   ");
            s.append(file.as_str());
            s.append(":");
            let n = decimal_text(line as u128);
            s.append(n.as_str());
            s.append("\n");
            s
        },
        _ => String::new(),
    }
}

/// The attribute lines of `record`, in delivered order.
pub fn format_kv_pairs(record: &Record, colors: bool) -> (r: String)
    ensures
        r@ == pretty_pairs(record@.key_values, colors),
{
    let mut s = String::new();
    let n = record.key_values.len();
    let ghost kvs = record@.key_values;
    let mut i: usize = 0;
    while i < n
        invariant
            n == record.key_values@.len(),
            kvs == pairs_view(record.key_values@),
            i <= n,
            s@ == pretty_pairs(kvs.take(i as int), colors),
        decreases n - i,
    {
        let pair = &record.key_values[i];
        s.append("   › ");
        if colors {
            let key = magenta(pair.0.as_str());
            s.append(key.as_str());
        } else {
            s.append(pair.0.as_str());
        }
        s.append(": ");
        s.append(pair.1.as_str());
        s.append("\n");
        proof {
            assert(kvs.take(i + 1).drop_last() =~= kvs.take(i as int));
        }
        i = i + 1;
    }
    proof {
        assert(kvs.take(n as int) =~= kvs);
    }
    s
}

/// The pretty block of `record`; `colors` says whether the output takes
/// terminal decoration.
pub fn render(record: &Record, colors: bool) -> (r: String)
    ensures
        r@ == pretty_text(record@, colors),
{
    let mut s = format_message(record, colors);
    let location = format_line(record);
    s.append(location.as_str());
    let pairs = format_kv_pairs(record, colors);
    s.append(pairs.as_str());
    s
}

} // verus!
