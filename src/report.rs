use vstd::prelude::*;

use crate::text::{digit_char, lemma_join_one_line, one_line};

verus! {

/// A lower-case hexadecimal digit.
pub open spec fn hex_lower(d: u32) -> char {
    if d < 10 {
        digit_char(d as nat)
    } else if d == 10 {
        'a'
    } else if d == 11 {
        'b'
    } else if d == 12 {
        'c'
    } else if d == 13 {
        'd'
    } else if d == 14 {
        'e'
    } else {
        'f'
    }
}

/// How one character is written inside a JSON string: quote and backslash
/// after a backslash, the five usual control characters by their short
/// escapes, the other control characters as `\u00XX`, and every other
/// character as it is.
pub open spec fn json_escape(c: char) -> Seq<char> {
    if c == '"' {
        seq!['\\', '"']
    } else if c == '\\' {
        seq!['\\', '\\']
    } else if c == '\x08' {
        seq!['\\', 'b']
    } else if c == '\t' {
        seq!['\\', 't']
    } else if c == '\n' {
        seq!['\\', 'n']
    } else if c == '\x0c' {
        seq!['\\', 'f']
    } else if c == '\r' {
        seq!['\\', 'r']
    } else if (c as u32) < 0x20 {
        seq!['\\', 'u', '0', '0', hex_lower((c as u32) / 16), hex_lower((c as u32) % 16)]
    } else {
        seq![c]
    }
}

/// The escaped characters of a JSON string, without its quotes.
pub open spec fn json_body(s: Seq<char>) -> Seq<char>
    decreases s.len(),
{
    if s.len() == 0 {
        Seq::empty()
    } else {
        json_body(s.drop_last()) + json_escape(s.last())
    }
}

/// The JSON string literal of a text, quotes included.
pub open spec fn json_quoted(s: Seq<char>) -> Seq<char> {
    seq!['"'] + json_body(s) + seq!['"']
}

/// Relies on `serde_json::to_string` on a `str`: it writes the JSON string
/// literal of `s`, escaping by serde_json's `ESCAPE` table and lower-case
/// `\u00XX` for the other control characters. Its only error comes from the
/// writer, and the writer there is an in-memory `Vec<u8>`, which never fails.
#[verifier::external_body]
fn json_string(s: &str) -> (r: String)
    ensures
        r@ == json_quoted(s@),
{
    serde_json::to_string(s).unwrap_or_default()
}

/// The topic a metric is published under: `tln/<name>/<key>`.
pub open spec fn topic_of(name: Seq<char>, key: Seq<char>) -> Seq<char> {
    "tln/"@ + name + "/"@ + key
}

/// The wire form of a report: a flat JSON object with the string fields
/// `topic` and `payload`, in that order, without spaces.
pub open spec fn record_text(topic: Seq<char>, payload: Seq<char>) -> Seq<char> {
    "{\"topic\":"@ + json_quoted(topic) + ",\"payload\":"@ + json_quoted(payload) + "}"@
}

/// The line that asks the host to publish a record.
pub open spec fn command_text(record: Seq<char>) -> Seq<char> {
    "send plugin mqtt report '"@ + record + "'"@
}

/// The command line for the metric `key` of the plugin configured as `name`.
pub open spec fn report_command_text(name: Seq<char>, key: Seq<char>, payload: Seq<char>) -> Seq<char> {
    command_text(record_text(topic_of(name, key), payload))
}

/// One published metric: where it goes and what it says.
pub struct Report {
    pub topic: String,
    pub payload: String,
}

impl Report {
    /// The report of metric `key`, for the plugin configured as `name`.
    pub fn new(name: &str, key: &str, payload: String) -> (r: Report)
        ensures
            r.topic@ == topic_of(name@, key@),
            r.payload@ == payload@,
    {
        let mut topic = String::from_str("tln/");
        topic.append(name);
        topic.append("/");
        topic.append(key);
        Report { topic, payload }
    }

    /// The JSON record of this report.
    pub fn encode(&self) -> (r: String)
        ensures
            r@ == record_text(self.topic@, self.payload@),
    {
        let mut r = String::from_str("{\"topic\":");
        let t = json_string(self.topic.as_str());
        r.append(t.as_str());
        r.append(",\"payload\":");
        let p = json_string(self.payload.as_str());
        r.append(p.as_str());
        r.append("}");
        r
    }

    /// The outbound command line that carries this report to the host.
    pub fn command(&self) -> (r: String)
        ensures
            r@ == command_text(record_text(self.topic@, self.payload@)),
    {
        let mut r = String::from_str("send plugin mqtt report '");
        let record = self.encode();
        r.append(record.as_str());
        r.append("'");
        r
    }
}

/// The command line for the metric `key` with `payload`, for the plugin
/// configured as `name`.
pub fn report_command(name: &str, key: &str, payload: String) -> (r: String)
    ensures
        r@ == report_command_text(name@, key@, payload@),
{
    Report::new(name, key, payload).command()
}

proof fn lemma_json_body_one_line(s: Seq<char>)
    ensures
        one_line(json_body(s)),
    decreases s.len(),
{
    if s.len() > 0 {
        lemma_json_body_one_line(s.drop_last());
        let c = s.last();
        let e = json_escape(c);
        if (c as u32) < 0x20 && c != '\x08' && c != '\t' && c != '\n' && c != '\x0c' && c != '\r' {
            let hi = hex_lower((c as u32) / 16);
            let lo = hex_lower((c as u32) % 16);
            assert(hi != '\n' && lo != '\n');
        }
        assert(one_line(e));
        lemma_join_one_line(json_body(s.drop_last()), e);
    }
}

/// Every text, written as a JSON string, holds no line break: a line break
/// in it is escaped.
pub proof fn lemma_json_quoted_one_line(s: Seq<char>)
    ensures
        one_line(json_quoted(s)),
{
    lemma_json_body_one_line(s);
    lemma_join_one_line(seq!['"'], json_body(s));
    lemma_join_one_line(seq!['"'] + json_body(s), seq!['"']);
}

/// Each report goes to the host as exactly one line: the command holds no
/// line break, whatever the name, key and payload hold.
pub proof fn lemma_report_command_one_line(name: Seq<char>, key: Seq<char>, payload: Seq<char>)
    ensures
        one_line(report_command_text(name, key, payload)),
{
    reveal_strlit("{\"topic\":");
    reveal_strlit(",\"payload\":");
    reveal_strlit("}");
    reveal_strlit("send plugin mqtt report '");
    reveal_strlit("'");
    let topic = topic_of(name, key);
    lemma_json_quoted_one_line(topic);
    lemma_json_quoted_one_line(payload);
    let a = "{\"topic\":"@;
    let b = ",\"payload\":"@;
    let c = "}"@;
    let d = "send plugin mqtt report '"@;
    let e = "'"@;
    assert(one_line(a));
    assert(one_line(b));
    assert(one_line(c));
    assert(one_line(d));
    assert(one_line(e));
    lemma_join_one_line(a, json_quoted(topic));
    lemma_join_one_line(a + json_quoted(topic), b);
    lemma_join_one_line(a + json_quoted(topic) + b, json_quoted(payload));
    lemma_join_one_line(a + json_quoted(topic) + b + json_quoted(payload), c);
    let record = record_text(topic, payload);
    lemma_join_one_line(d, record);
    lemma_join_one_line(d + record, e);
}

} // verus!
