//! Structured rendering: one JSON object per line, with `level`, `time`,
//! `msg`, and each attribute as a sibling field.

use vstd::prelude::*;
use crate::record::{Level, Record, RecordView, pair_view, pairs_view};
use crate::text::{decimal, decimal_text, digit_text};

verus! {

/// A lower-case hexadecimal digit.
pub open spec fn hex_digit(d: nat) -> char {
    "0123456789abcdef"@[d as int]
}

/// How serde_json writes one character inside a string: `"` and `\\` and the
/// control characters are escaped, the short forms where JSON has one and
/// `\u00xx` otherwise; every other character stands as it is.
pub open spec fn escaped_char(c: char) -> Seq<char> {
    if c == '"' {
        "\\\""@
    } else if c == '\\' {
        "\\\\"@
    } else if c == '\u{8}' {
        "\\b"@
    } else if c == '\t' {
        "\\t"@
    } else if c == '\n' {
        "\\n"@
    } else if c == '\u{c}' {
        "\\f"@
    } else if c == '\r' {
        "\\r"@
    } else if (c as u32) < 0x20 {
        "\\u00"@ + seq![hex_digit((c as u32) as nat / 16), hex_digit((c as u32) as nat % 16)]
    } else {
        seq![c]
    }
}

/// The characters of a text, each escaped.
pub open spec fn json_escaped(s: Seq<char>) -> Seq<char>
    decreases s.len(),
{
    if s.len() == 0 {
        Seq::empty()
    } else {
        json_escaped(s.drop_last()) + escaped_char(s.last())
    }
}

/// The JSON string literal of a text: its escaped characters between quotes.
pub open spec fn json_quoted(s: Seq<char>) -> Seq<char> {
    "\""@ + json_escaped(s) + "\""@
}

/// The text holds no line break.
pub open spec fn no_newline(s: Seq<char>) -> bool {
    forall|i: int| 0 <= i < s.len() ==> s[i] != '\n'
}

proof fn lemma_concat_no_newline(a: Seq<char>, b: Seq<char>)
    requires
        no_newline(a),
        no_newline(b),
    ensures
        no_newline(a + b),
{
    assert forall|i: int| 0 <= i < (a + b).len() implies (a + b)[i] != '\n' by {
        if i >= a.len() {
            assert((a + b)[i] == b[i - a.len()]);
        }
    }
}

proof fn lemma_escaped_char_no_newline(c: char)
    ensures
        no_newline(escaped_char(c)),
{
    reveal_strlit("\\\"");
    reveal_strlit("\\\\");
    reveal_strlit("\\b");
    reveal_strlit("\\t");
    reveal_strlit("\\n");
    reveal_strlit("\\f");
    reveal_strlit("\\r");
    reveal_strlit("\\u00");
    reveal_strlit("0123456789abcdef");
    if (c as u32) < 0x20 && c != '\u{8}' && c != '\t' && c != '\n' && c != '\u{c}' && c
        != '\r' {
        let hi = (c as u32) as nat / 16;
        let lo = (c as u32) as nat % 16;
        assert(hi < 16 && lo < 16);
        let digits = "0123456789abcdef"@;
        assert(no_newline(digits));
        let tail = seq![hex_digit(hi), hex_digit(lo)];
        assert(no_newline(tail));
        lemma_concat_no_newline("\\u00"@, tail);
    }
}

proof fn lemma_escaped_no_newline(s: Seq<char>)
    ensures
        no_newline(json_escaped(s)),
    decreases s.len(),
{
    if s.len() > 0 {
        lemma_escaped_no_newline(s.drop_last());
        lemma_escaped_char_no_newline(s.last());
        lemma_concat_no_newline(json_escaped(s.drop_last()), escaped_char(s.last()));
    }
}

/// A JSON string literal never holds a raw line break.
pub proof fn lemma_quoted_no_newline(s: Seq<char>)
    ensures
        no_newline(json_quoted(s)),
{
    reveal_strlit("\"");
    lemma_escaped_no_newline(s);
    lemma_concat_no_newline("\""@, json_escaped(s));
    lemma_concat_no_newline("\""@ + json_escaped(s), "\""@);
}

proof fn lemma_decimal_no_newline(n: nat)
    ensures
        no_newline(decimal(n)),
    decreases n,
{
    reveal_strlit("0");
    reveal_strlit("1");
    reveal_strlit("2");
    reveal_strlit("3");
    reveal_strlit("4");
    reveal_strlit("5");
    reveal_strlit("6");
    reveal_strlit("7");
    reveal_strlit("8");
    reveal_strlit("9");
    if n >= 10 {
        lemma_decimal_no_newline(n / 10);
        lemma_concat_no_newline(decimal(n / 10), digit_text(n % 10));
    }
}

proof fn lemma_members_no_newline(ms: Seq<(Seq<char>, Seq<char>)>)
    requires
        forall|i: int| 0 <= i < ms.len() ==> no_newline(#[trigger] ms[i].0) && no_newline(ms[i].1),
    ensures
        no_newline(members_text(ms)),
    decreases ms.len(),
{
    reveal_strlit(":");
    reveal_strlit(",");
    if ms.len() > 0 {
        let m = ms.last();
        assert(no_newline(ms[ms.len() - 1].0));
        lemma_concat_no_newline(m.0, ":"@);
        lemma_concat_no_newline(m.0 + ":"@, m.1);
        if ms.len() > 1 {
            let rest = ms.drop_last();
            assert forall|i: int| 0 <= i < rest.len() implies no_newline(#[trigger] rest[i].0)
                && no_newline(rest[i].1) by {
                assert(rest[i] == ms[i]);
            }
            lemma_members_no_newline(rest);
            lemma_concat_no_newline(members_text(rest), ","@);
            lemma_concat_no_newline(members_text(rest) + ","@, member(m));
        } else {
            assert(ms[0] == m);
        }
    }
}

/// Relies on `serde_json::to_string` on a `str`: the text between quotes,
/// each character escaped as `format_escaped_str` does. Its only error path
/// is a failed write, which a `Vec` writer never reports.
#[verifier::external_body]
fn quote(s: &str) -> (r: String)
    ensures
        r@ == json_quoted(s@),
{
    serde_json::to_string(s).unwrap_or_default()
}

/// The numeric code of each severity.
pub open spec fn level_code(level: Level) -> u8 {
    match level {
        Level::Trace => 10,
        Level::Debug => 20,
        Level::Info => 30,
        Level::Warn => 40,
        Level::Error => 50,
    }
}

/// The numeric code of `level`: Trace 10, Debug 20, Info 30, Warn 40, Error 50.
pub fn get_level(level: Level) -> (r: u8)
    ensures
        r == level_code(level),
{
    match level {
        Level::Trace => 10,
        Level::Debug => 20,
        Level::Info => 30,
        Level::Warn => 40,
        Level::Error => 50,
    }
}

/// One member of an object, from its encoded name and encoded value.
pub open spec fn member(m: (Seq<char>, Seq<char>)) -> Seq<char> {
    m.0 + ":"@ + m.1
}

/// The members separated by commas.
pub open spec fn members_text(ms: Seq<(Seq<char>, Seq<char>)>) -> Seq<char>
    decreases ms.len(),
{
    if ms.len() == 0 {
        Seq::empty()
    } else if ms.len() == 1 {
        member(ms[0])
    } else {
        members_text(ms.drop_last()) + ","@ + member(ms.last())
    }
}

/// A JSON object with the given encoded members, in order, on one line.
pub open spec fn object_text(ms: Seq<(Seq<char>, Seq<char>)>) -> Seq<char> {
    "{"@ + members_text(ms) + "}"@
}

/// An attribute as a member: its key and its value as JSON strings.
pub open spec fn encoded_pair(p: (Seq<char>, Seq<char>)) -> (Seq<char>, Seq<char>) {
    (json_quoted(p.0), json_quoted(p.1))
}

pub open spec fn encoded_pairs(kvs: Seq<(Seq<char>, Seq<char>)>) -> Seq<(Seq<char>, Seq<char>)> {
    kvs.map_values(|p: (Seq<char>, Seq<char>)| encoded_pair(p))
}

/// The members of a record's object: `level`, `time` and `msg`, then each
/// attribute at top level.
pub open spec fn json_members(r: RecordView, time: nat) -> Seq<(Seq<char>, Seq<char>)> {
    seq![
        (json_quoted("level"@), decimal(level_code(r.level) as nat)),
        (json_quoted("time"@), decimal(time)),
        (json_quoted("msg"@), json_quoted(r.message)),
    ] + encoded_pairs(r.key_values)
}

/// Every member of a record's object is free of line breaks, so its line
/// holds exactly one, at the end.
pub proof fn lemma_json_one_line(r: RecordView, time: nat)
    ensures
        json_text(r, time).last() == '\n',
        no_newline(json_text(r, time).drop_last()),
{
    reveal_strlit("\n");
    reveal_strlit("{");
    reveal_strlit("}");
    let ms = json_members(r, time);
    lemma_quoted_no_newline("level"@);
    lemma_quoted_no_newline("time"@);
    lemma_quoted_no_newline("msg"@);
    lemma_quoted_no_newline(r.message);
    lemma_decimal_no_newline(level_code(r.level) as nat);
    lemma_decimal_no_newline(time);
    assert forall|i: int| 0 <= i < ms.len() implies no_newline(#[trigger] ms[i].0) && no_newline(
        ms[i].1,
    ) by {
        if i >= 3 {
            lemma_quoted_no_newline(r.key_values[i - 3].0);
            lemma_quoted_no_newline(r.key_values[i - 3].1);
        }
    }
    lemma_members_no_newline(ms);
    lemma_concat_no_newline("{"@, members_text(ms));
    lemma_concat_no_newline("{"@ + members_text(ms), "}"@);
    assert(json_text(r, time).drop_last() =~= object_text(ms));
}

/// The line of a record: its object and a newline.
pub open spec fn json_text(r: RecordView, time: nat) -> Seq<char> {
    object_text(json_members(r, time)) + "\n"@
}

/// Writes an object from already encoded members, in order.
pub fn json_object(members: &Vec<(String, String)>) -> (r: String)
    ensures
        r@ == object_text(pairs_view(members@)),
{
    let ghost ms = pairs_view(members@);
    let mut s = String::from_str("{");
    let n = members.len();
    let mut i: usize = 0;
    while i < n
        invariant
            n == members@.len(),
            ms == pairs_view(members@),
            i <= n,
            s@ == "{"@ + members_text(ms.take(i as int)),
        decreases n - i,
    {
        let m = &members[i];
        if i > 0 {
            s.append(",");
        }
        s.append(m.0.as_str());
        s.append(":");
        s.append(m.1.as_str());
        proof {
            assert(ms.take(i + 1).drop_last() =~= ms.take(i as int));
            assert(ms.take(i + 1).last() == ms[i as int]);
            if i == 0 {
                assert(ms.take(0) =~= Seq::<(Seq<char>, Seq<char>)>::empty());
            }
        }
        i = i + 1;
    }
    proof {
        assert(ms.take(n as int) =~= ms);
    }
    s.append("}");
    s
}

/// The attributes of `record` as encoded members, in delivered order.
pub fn format_kv_pairs(record: &Record) -> (r: Vec<(String, String)>)
    ensures
        pairs_view(r@) == encoded_pairs(record@.key_values),
{
    let ghost kvs = record@.key_values;
    let mut out: Vec<(String, String)> = Vec::new();
    let n = record.key_values.len();
    let mut i: usize = 0;
    while i < n
        invariant
            n == record.key_values@.len(),
            kvs == pairs_view(record.key_values@),
            i <= n,
            pairs_view(out@) =~= encoded_pairs(kvs.take(i as int)),
        decreases n - i,
    {
        let pair = &record.key_values[i];
        let k = quote(pair.0.as_str());
        let v = quote(pair.1.as_str());
        let ghost prev = out@;
        out.push((k, v));
        proof {
            assert(out@ =~= prev.push((k, v)));
            assert(pairs_view(out@) =~= pairs_view(prev).push(pair_view((k, v))));
            assert(kvs.take(i + 1) =~= kvs.take(i as int).push(kvs[i as int]));
            assert(encoded_pairs(kvs.take(i + 1)) =~= encoded_pairs(kvs.take(i as int)).push(
                encoded_pair(kvs[i as int]),
            ));
        }
        i = i + 1;
    }
    proof {
        assert(kvs.take(n as int) =~= kvs);
    }
    out
}

/// The JSON line of `record`, stamped with `time_ms` milliseconds since the
/// Unix epoch.
pub fn render(record: &Record, time_ms: u128) -> (r: String)
    ensures
        r@ == json_text(record@, time_ms as nat),
{
    let mut members: Vec<(String, String)> = Vec::new();
    let level = decimal_text(get_level(record.level) as u128);
    members.push((quote("level"), level));
    members.push((quote("time"), decimal_text(time_ms)));
    members.push((quote("msg"), quote(record.message.as_str())));
    let mut pairs = format_kv_pairs(record);
    members.append(&mut pairs);
    proof {
        assert(pairs_view(members@) =~= json_members(record@, time_ms as nat));
    }
    let mut s = json_object(&members);
    s.append("\n");
    s
}

} // verus!
