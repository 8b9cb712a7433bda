//! The JSON document posted for each log entry.
use vstd::prelude::*;
use crate::metadata::LogContextMetadata;
use crate::record::LogRecord;

verus! {

/// The address that entries are posted to.
pub const INGESTION_URL: &'static str = "https://logging.googleapis.com/v2/entries:write";

/// The lowercase hexadecimal digit of `d`, for `d` below 16.
pub open spec fn hex_digit(d: nat) -> char {
    seq!['0', '1', '2', '3', '4', '5', '6', '7', '8', '9', 'a', 'b', 'c', 'd', 'e', 'f'][d as int]
}

/// How one character stands inside a JSON string literal: `"` and `\` get a
/// backslash, the control characters with a short escape use it, the other
/// control characters become `\u00` and two hex digits, and every other
/// character stands as it is.
pub open spec fn escape_char(c: char) -> Seq<char> {
    if c == '"' {
        seq!['\\', '"']
    } else if c == '\\' {
        seq!['\\', '\\']
    } else if c == '\u{8}' {
        seq!['\\', 'b']
    } else if c == '\t' {
        seq!['\\', 't']
    } else if c == '\n' {
        seq!['\\', 'n']
    } else if c == '\u{c}' {
        seq!['\\', 'f']
    } else if c == '\r' {
        seq!['\\', 'r']
    } else if (c as u32) < 0x20 {
        seq!['\\', 'u', '0', '0', hex_digit((c as u32 / 16) as nat), hex_digit((c as u32 % 16) as nat)]
    } else {
        seq![c]
    }
}

/// The characters of `s`, each escaped.
pub open spec fn escaped(s: Seq<char>) -> Seq<char>
    decreases s.len(),
{
    if s.len() == 0 {
        Seq::empty()
    } else {
        escape_char(s[0]) + escaped(s.drop_first())
    }
}

/// The JSON string literal of a text: its characters escaped, between quotes.
pub open spec fn json_quoted(s: Seq<char>) -> Seq<char> {
    seq!['"'] + escaped(s) + seq!['"']
}

/// The value of a hexadecimal digit, either case; none for another character.
pub open spec fn hex_value(c: char) -> Option<nat> {
    if '0' <= c <= '9' {
        Some((c as u32 - '0' as u32) as nat)
    } else if 'a' <= c <= 'f' {
        Some((c as u32 - 'a' as u32 + 10) as nat)
    } else if 'A' <= c <= 'F' {
        Some((c as u32 - 'A' as u32 + 10) as nat)
    } else {
        None
    }
}

/// Whether `e` is one way that JSON writes the character `c` inside a string
/// literal: `c` itself where it needs no escape, a two-character escape, or
/// `\u` and four hex digits giving its code (surrogate pairs aside).
pub open spec fn denotes(e: Seq<char>, c: char) -> bool {
    ||| e.len() == 1 && e[0] == c && c != '"' && c != '\\' && c as u32 >= 0x20
    ||| e.len() == 2 && e[0] == '\\' && (e[1] == c && (c == '"' || c == '\\' || c == '/')
        || e[1] == 'b' && c == '\u{8}' || e[1] == 'f' && c == '\u{c}' || e[1] == 'n' && c == '\n'
        || e[1] == 'r' && c == '\r' || e[1] == 't' && c == '\t')
    ||| e.len() == 6 && e[0] == '\\' && e[1] == 'u' && hex_value(e[2]) is Some && hex_value(e[3]) is Some
        && hex_value(e[4]) is Some && hex_value(e[5]) is Some && c as u32 == 4096 * hex_value(e[2])->0
        + 256 * hex_value(e[3])->0 + 16 * hex_value(e[4])->0 + hex_value(e[5])->0
}

/// Whether the body `t` of a JSON string literal decodes to the text `s`.
pub open spec fn decodes_to(t: Seq<char>, s: Seq<char>) -> bool
    decreases s.len(),
{
    if s.len() == 0 {
        t.len() == 0
    } else {
        exists|k: int|
            0 < k <= t.len() && #[trigger] denotes(t.subrange(0, k), s[0]) && decodes_to(
                t.subrange(k, t.len() as int),
                s.drop_first(),
            )
    }
}

proof fn lemma_hex_digit(d: nat)
    requires
        d < 16,
    ensures
        hex_value(hex_digit(d)) == Some(d),
{
    let digits = seq!['0', '1', '2', '3', '4', '5', '6', '7', '8', '9', 'a', 'b', 'c', 'd', 'e', 'f'];
    assert(digits[0] == '0' && digits[1] == '1' && digits[2] == '2' && digits[3] == '3');
    assert(digits[4] == '4' && digits[5] == '5' && digits[6] == '6' && digits[7] == '7');
    assert(digits[8] == '8' && digits[9] == '9' && digits[10] == 'a' && digits[11] == 'b');
    assert(digits[12] == 'c' && digits[13] == 'd' && digits[14] == 'e' && digits[15] == 'f');
}

proof fn lemma_escape_char_denotes(c: char)
    ensures
        denotes(escape_char(c), c),
{
    let e = escape_char(c);
    if c != '"' && c != '\\' && c != '\u{8}' && c != '\t' && c != '\n' && c != '\u{c}' && c != '\r'
        && (c as u32) < 0x20 {
        let hi = (c as u32 / 16) as nat;
        let lo = (c as u32 % 16) as nat;
        lemma_hex_digit(hi);
        lemma_hex_digit(lo);
        lemma_hex_digit(0);
        assert(e[2] == '0' && e[3] == '0' && e[4] == hex_digit(hi) && e[5] == hex_digit(lo));
    }
}

/// Every text comes back from its escaped form: the body of the JSON string
/// literal that `json_quote` writes decodes to the text itself.
pub proof fn lemma_escaped_decodes(s: Seq<char>)
    ensures
        decodes_to(escaped(s), s),
    decreases s.len(),
{
    if s.len() > 0 {
        let e = escape_char(s[0]);
        let rest = escaped(s.drop_first());
        let t = escaped(s);
        lemma_escaped_decodes(s.drop_first());
        lemma_escape_char_denotes(s[0]);
        let k = e.len() as int;
        assert(t =~= e + rest);
        assert(t.subrange(0, k) =~= e);
        assert(t.subrange(k, t.len() as int) =~= rest);
    }
}

/// The JSON string literal of a text is a quote, a body that decodes to the
/// text, and a quote.
pub proof fn lemma_json_quoted_decodes(s: Seq<char>)
    ensures
        json_quoted(s).len() >= 2,
        json_quoted(s)[0] == '"',
        json_quoted(s).last() == '"',
        decodes_to(json_quoted(s).subrange(1, json_quoted(s).len() - 1), s),
{
    lemma_escaped_decodes(s);
    let q = json_quoted(s);
    assert(q.subrange(1, q.len() - 1) =~= escaped(s));
}

/// Relies on `serde_json::to_string` applied to a `str`: the JSON string
/// literal of `s`, escaped as its `ESCAPE` table and `HEX_DIGITS` say. Writing a `str` into memory cannot fail, so the default
/// is never taken.
#[verifier::external_body]
fn json_quote(s: &str) -> (r: String)
    ensures
        r@ == json_quoted(s@),
{
    serde_json::to_string(s).unwrap_or_default()
}

/// The fields of an entry, each already written as a JSON string literal.
pub struct QuotedEntry {
    pub log_name: String,
    pub severity: String,
    pub message: String,
    pub instance_id: String,
    pub instance_name: String,
    pub project_id: String,
    pub zone: String,
    /// The container's id and name, where there is a container
    pub container: Option<(String, String)>,
}

/// The log name of a project.
pub open spec fn log_name(project_id: Seq<char>) -> Seq<char> {
    "projects/"@ + project_id + "/logs/proxie"@
}

/// The container object, or `null` where there is none.
pub open spec fn container_json(container: Option<(Seq<char>, Seq<char>)>) -> Seq<char> {
    match container {
        Some((id, name)) => "{\"id\":"@ + id + ",\"name\":"@ + name + "}"@,
        None => "null"@,
    }
}

/// The request body that carries one entry, its keys in sorted order, built
/// from fields already written as JSON string literals.
pub open spec fn entry_json(
    log_name: Seq<char>,
    severity: Seq<char>,
    message: Seq<char>,
    instance_id: Seq<char>,
    instance_name: Seq<char>,
    project_id: Seq<char>,
    zone: Seq<char>,
    container: Option<(Seq<char>, Seq<char>)>,
) -> Seq<char> {
    "{\"entries\":[{\"jsonPayload\":{\"container\":"@ + container_json(container)
        + ",\"instance\":{\"id\":"@ + instance_id + ",\"name\":"@ + instance_name
        + ",\"project_id\":"@ + project_id + ",\"zone\":"@ + zone + "},\"message\":"@ + message
        + "},\"logName\":"@ + log_name + ",\"resource\":{\"labels\":{\"instance_id\":"@
        + instance_id + ",\"project_id\":"@ + project_id + ",\"zone\":"@ + zone
        + "},\"type\":\"gce_instance\"},\"severity\":"@ + severity + "}]}"@
}

pub open spec fn quoted_container(q: Option<(String, String)>) -> Option<(Seq<char>, Seq<char>)> {
    match q {
        Some((id, name)) => Some((id@, name@)),
        None => None,
    }
}

pub open spec fn meta_container(meta: LogContextMetadata) -> Option<(Seq<char>, Seq<char>)> {
    match meta.container {
        Some(c) => Some((json_quoted(c.id@), json_quoted(c.name@))),
        None => None,
    }
}

/// The request body that delivers `record` from the environment `meta`.
pub open spec fn entry_body_of(meta: LogContextMetadata, record: LogRecord) -> Seq<char> {
    entry_json(
        json_quoted(log_name(meta.instance.project_id@)),
        json_quoted(record.severity@),
        json_quoted(record.message@),
        json_quoted(meta.instance.id@),
        json_quoted(meta.instance.name@),
        json_quoted(meta.instance.project_id@),
        json_quoted(meta.instance.zone@),
        meta_container(meta),
    )
}

/// Lays out the request body from fields already written as JSON string
/// literals.
pub fn render_entry(q: &QuotedEntry) -> (r: String)
    ensures
        r@ == entry_json(
            q.log_name@,
            q.severity@,
            q.message@,
            q.instance_id@,
            q.instance_name@,
            q.project_id@,
            q.zone@,
            quoted_container(q.container),
        ),
{
    let mut s = String::from_str("{\"entries\":[{\"jsonPayload\":{\"container\":");
    match &q.container {
        Some((id, name)) => {
            s.append("{\"id\":");
            s.append(id.as_str());
            s.append(",\"name\":");
            s.append(name.as_str());
            s.append("}");
        },
        None => s.append("null"),
    }
    s.append(",\"instance\":{\"id\":");
    s.append(q.instance_id.as_str());
    s.append(",\"name\":");
    s.append(q.instance_name.as_str());
    s.append(",\"project_id\":");
    s.append(q.project_id.as_str());
    s.append(",\"zone\":");
    s.append(q.zone.as_str());
    s.append("},\"message\":");
    s.append(q.message.as_str());
    s.append("},\"logName\":");
    s.append(q.log_name.as_str());
    s.append(",\"resource\":{\"labels\":{\"instance_id\":");
    s.append(q.instance_id.as_str());
    s.append(",\"project_id\":");
    s.append(q.project_id.as_str());
    s.append(",\"zone\":");
    s.append(q.zone.as_str());
    s.append("},\"type\":\"gce_instance\"},\"severity\":");
    s.append(q.severity.as_str());
    s.append("}]}");
    s
}

/// Builds the request body that delivers `record` from the environment
/// `meta`.
pub fn entry_body(meta: &LogContextMetadata, record: &LogRecord) -> (r: String)
    ensures
        r@ == entry_body_of(*meta, *record),
{
    let mut name = String::from_str("projects/");
    name.append(meta.instance.project_id.as_str());
    name.append("/logs/proxie");
    let container = match &meta.container {
        Some(c) => Some((json_quote(c.id.as_str()), json_quote(c.name.as_str()))),
        None => None,
    };
    let q = QuotedEntry {
        log_name: json_quote(name.as_str()),
        severity: json_quote(record.severity.as_str()),
        message: json_quote(record.message.as_str()),
        instance_id: json_quote(meta.instance.id.as_str()),
        instance_name: json_quote(meta.instance.name.as_str()),
        project_id: json_quote(meta.instance.project_id.as_str()),
        zone: json_quote(meta.instance.zone.as_str()),
        container,
    };
    render_entry(&q)
}

} // verus!
