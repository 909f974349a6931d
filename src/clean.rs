//! Plain rendering: the message followed by its attributes, without decoration.

use vstd::prelude::*;
use crate::record::{Record, RecordView, pairs_view};

verus! {

/// The attribute suffix: ` ,key=value` for each pair, in delivered order.
pub open spec fn plain_pairs(kvs: Seq<(Seq<char>, Seq<char>)>) -> Seq<char>
    decreases kvs.len(),
{
    if kvs.len() == 0 {
        Seq::empty()
    } else {
        plain_pairs(kvs.drop_last()) + " ,"@ + kvs.last().0 + "="@ + kvs.last().1
    }
}

/// The plain line of a record.
pub open spec fn plain_text(r: RecordView) -> Seq<char> {
    r.message + plain_pairs(r.key_values) + "\n"@
}

/// Visitor that folds attribute pairs into the plain suffix; it holds no
/// text until the first pair arrives.
pub struct KeyValues {
    output: Option<String>,
}

impl KeyValues {
    /// The text gathered so far; empty when no pair was visited.
    pub closed spec fn text(&self) -> Seq<char> {
        match self.output {
            Some(s) => s@,
            None => Seq::empty(),
        }
    }

    /// Whether some pair has been visited.
    pub closed spec fn visited(&self) -> bool {
        self.output is Some
    }

    /// Appends ` ,key=value` to the gathered text.
    pub fn visit_pair(&mut self, key: &str, val: &str)
        ensures
            final(self).text() == old(self).text() + " ,"@ + key@ + "="@ + val@,
            final(self).visited(),
    {
        let mut s = match self.output.take() {
            Some(s) => s,
            None => String::new(),
        };
        s.append(" ,");
        s.append(key);
        s.append("=");
        s.append(val);
        self.output = Some(s);
    }

    /// The attribute suffix of `record`: empty when it has no attributes.
    pub fn fmt(record: &Record) -> (r: String)
        ensures
            r@ == plain_pairs(record@.key_values),
    {
        let mut visitor = KeyValues { output: None };
        let n = record.key_values.len();
        let ghost kvs = record@.key_values;
        let mut i: usize = 0;
        while i < n
            invariant
                n == record.key_values@.len(),
                kvs == pairs_view(record.key_values@),
                i <= n,
                visitor.text() == plain_pairs(kvs.take(i as int)),
            decreases n - i,
        {
            let pair = &record.key_values[i];
            visitor.visit_pair(pair.0.as_str(), pair.1.as_str());
            proof {
                assert(kvs.take(i + 1).drop_last() =~= kvs.take(i as int));
            }
            i = i + 1;
        }
        proof {
            assert(kvs.take(n as int) =~= kvs);
        }
        match visitor.output {
            Some(output) => output,
            None => String::new(),
        }
    }
}

/// The plain line of `record`: its message, its attribute suffix, a newline.
pub fn render(record: &Record) -> (r: String)
    ensures
        r@ == plain_text(record@),
{
    let mut s = record.message.clone();
    let suffix = KeyValues::fmt(record);
    s.append(suffix.as_str());
    s.append("\n");
    s
}

} // verus!
