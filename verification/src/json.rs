//! The outgoing JSON payload: a fixed projection of a record, built and
//! escaped by verified code.  String contents are escaped the way JSON
//! requires: the quote, the backslash, and every control character; the
//! conventional short escapes where they exist, `\u00..` otherwise.

use vstd::prelude::*;
use crate::decode::AdsbMessage;
use crate::numbers::{dchar, dec_repr, u32_dec, digit_str};

verus! {

/// The lowercase hexadecimal digit character for `d`.
pub open spec fn hex_char(d: int) -> char {
    if d < 10 {
        ((48 + d) as u8) as char
    } else {
        ((87 + d) as u8) as char
    }
}

/// A character that cannot stand verbatim inside a JSON string literal.
pub open spec fn needs_escape(c: char) -> bool {
    c == '"' || c == '\\' || (c as int) < 32
}

/// The JSON encoding of one character inside a string literal.
pub open spec fn esc(c: char) -> Seq<char> {
    if c == '"' {
        "\\\""@
    } else if c == '\\' {
        "\\\\"@
    } else if c as int == 8 {
        "\\b"@
    } else if c as int == 9 {
        "\\t"@
    } else if c as int == 10 {
        "\\n"@
    } else if c as int == 12 {
        "\\f"@
    } else if c as int == 13 {
        "\\r"@
    } else if (c as int) < 32 {
        "\\u00"@ + seq![hex_char(c as int / 16), hex_char(c as int % 16)]
    } else {
        seq![c]
    }
}

/// The JSON encoding of a whole string's contents.
pub open spec fn json_escaped(s: Seq<char>) -> Seq<char>
    decreases s.len(),
{
    if s.len() == 0 {
        Seq::empty()
    } else {
        esc(s[0]) + json_escaped(s.drop_first())
    }
}

/// Escaping distributes over concatenation.
pub proof fn lemma_json_escaped_concat(a: Seq<char>, b: Seq<char>)
    ensures
        json_escaped(a + b) == json_escaped(a) + json_escaped(b),
    decreases a.len(),
{
    if a.len() == 0 {
        assert(a + b =~= b);
        assert(json_escaped(a) + json_escaped(b) =~= json_escaped(b));
    } else {
        assert((a + b).drop_first() =~= a.drop_first() + b);
        lemma_json_escaped_concat(a.drop_first(), b);
        assert(json_escaped(a + b) =~= json_escaped(a) + json_escaped(b));
    }
}

/// A string without characters to escape encodes as itself.
pub proof fn lemma_json_escaped_plain(s: Seq<char>)
    requires
        forall|j: int| 0 <= j < s.len() ==> !needs_escape(s[j]),
    ensures
        json_escaped(s) == s,
    decreases s.len(),
{
    if s.len() != 0 {
        assert(!needs_escape(s[0]));
        assert(esc(s[0]) =~= seq![s[0]]);
        assert(forall|j: int| 0 <= j < s.drop_first().len() ==> !needs_escape(s.drop_first()[j]));
        lemma_json_escaped_plain(s.drop_first());
        assert(json_escaped(s) =~= s);
    }
}

/// The one-character string for a lowercase hexadecimal digit.
fn hex_str(d: u32) -> (s: &'static str)
    requires
        d < 16,
    ensures
        s@ == seq![hex_char(d as int)],
{
    if d < 10 {
        let s = digit_str(d);
        proof {
            assert(dchar(d as int) == hex_char(d as int));
        }
        s
    } else {
        let s: &'static str = if d == 10 {
            proof {
                reveal_strlit("a");
            }
            "a"
        } else if d == 11 {
            proof {
                reveal_strlit("b");
            }
            "b"
        } else if d == 12 {
            proof {
                reveal_strlit("c");
            }
            "c"
        } else if d == 13 {
            proof {
                reveal_strlit("d");
            }
            "d"
        } else if d == 14 {
            proof {
                reveal_strlit("e");
            }
            "e"
        } else {
            proof {
                reveal_strlit("f");
            }
            "f"
        };
        proof {
            assert(s@ =~= seq![hex_char(d as int)]);
        }
        s
    }
}

/// The encoding of one character that cannot stand verbatim.
fn escape_char_str(c: char) -> (t: String)
    requires
        needs_escape(c),
    ensures
        t@ == esc(c),
{
    let u = c as u32;
    if c == '"' {
        String::from_str("\\\"")
    } else if c == '\\' {
        String::from_str("\\\\")
    } else if u == 8 {
        String::from_str("\\b")
    } else if u == 9 {
        String::from_str("\\t")
    } else if u == 10 {
        String::from_str("\\n")
    } else if u == 12 {
        String::from_str("\\f")
    } else if u == 13 {
        String::from_str("\\r")
    } else {
        let mut t = String::from_str("\\u00");
        t.append(hex_str(u / 16));
        t.append(hex_str(u % 16));
        proof {
            assert(t@ =~= esc(c));
        }
        t
    }
}

/// Encode the contents of `s` for a JSON string literal.
pub fn json_escape(s: &str) -> (r: String)
    ensures
        r@ == json_escaped(s@),
{
    let n = s.unicode_len();
    let mut out = String::new();
    let mut start: usize = 0;
    let mut i: usize = 0;
    proof {
        assert(s@.subrange(0, 0) =~= Seq::<char>::empty());
        assert(out@ =~= json_escaped(s@.subrange(0, 0)));
    }
    while i < n
        invariant
            0 <= start <= i <= n,
            n == s@.len(),
            out@ == json_escaped(s@.subrange(0, start as int)),
            forall|j: int| start <= j < i ==> !needs_escape(s@[j]),
        decreases n - i,
    {
        let c = s.get_char(i);
        if c == '"' || c == '\\' || (c as u32) < 32 {
            let ghost pre = s@.subrange(0, start as int);
            let ghost run = s@.subrange(start as int, i as int);
            out.append(s.substring_char(start, i));
            out.append(escape_char_str(c).as_str());
            proof {
                assert(forall|j: int| 0 <= j < run.len() ==> !needs_escape(run[j]));
                lemma_json_escaped_plain(run);
                lemma_json_escaped_concat(pre, run);
                assert(pre + run =~= s@.subrange(0, i as int));
                lemma_json_escaped_concat(s@.subrange(0, i as int), seq![c]);
                assert(s@.subrange(0, i as int) + seq![c] =~= s@.subrange(0, i as int + 1));
                assert(seq![c].drop_first() =~= Seq::<char>::empty());
                assert(esc(c) + json_escaped(Seq::<char>::empty()) =~= esc(c));
                assert(json_escaped(seq![c]) =~= esc(c));
                assert(out@ =~= json_escaped(s@.subrange(0, i as int + 1)));
            }
            start = i + 1;
        }
        i += 1;
    }
    let ghost pre = s@.subrange(0, start as int);
    let ghost run = s@.subrange(start as int, n as int);
    out.append(s.substring_char(start, n));
    proof {
        assert(forall|j: int| 0 <= j < run.len() ==> !needs_escape(run[j]));
        lemma_json_escaped_plain(run);
        lemma_json_escaped_concat(pre, run);
        assert(pre + run =~= s@);
    }
    out
}

/// An optional integer attribute in the payload: a number or `null`.
pub open spec fn opt_u32_json(o: Option<u32>) -> Seq<char> {
    match o {
        Some(v) => dec_repr(v as int),
        None => "null"@,
    }
}

/// An optional numeric attribute kept as text: its text or `null`.
pub open spec fn opt_num_json(o: Option<String>) -> Seq<char> {
    match o {
        Some(t) => t@,
        None => "null"@,
    }
}

/// The payload published for a record: a fixed projection down to the
/// identifier, the transmission type and the five numeric attributes; the
/// correlation and timestamp fields are deliberately left out.
pub open spec fn payload_model(m: AdsbMessage) -> Seq<char> {
    "{\"identifier\":\""@ + json_escaped(m.hex_ident@) + "\",\"transmissionType\":"@ + dec_repr(
        m.transmission_type as int,
    ) + ",\"altitude\":"@ + opt_u32_json(m.altitude) + ",\"latitude\":"@ + opt_num_json(m.latitude)
        + ",\"longitude\":"@ + opt_num_json(m.longitude) + ",\"groundSpeed\":"@ + opt_num_json(
        m.ground_speed,
    ) + ",\"track\":"@ + opt_num_json(m.track) + "}"@
}

/// Build the payload document for `m`.
pub fn payload_json(m: &AdsbMessage) -> (r: String)
    ensures
        r@ == payload_model(*m),
{
    let mut out = String::from_str("{\"identifier\":\"");
    out.append(json_escape(m.hex_ident.as_str()).as_str());
    out.append("\",\"transmissionType\":");
    out.append(u32_dec(m.transmission_type as u32).as_str());
    out.append(",\"altitude\":");
    match &m.altitude {
        Some(v) => out.append(u32_dec(*v).as_str()),
        None => out.append("null"),
    }
    out.append(",\"latitude\":");
    match &m.latitude {
        Some(t) => out.append(t.as_str()),
        None => out.append("null"),
    }
    out.append(",\"longitude\":");
    match &m.longitude {
        Some(t) => out.append(t.as_str()),
        None => out.append("null"),
    }
    out.append(",\"groundSpeed\":");
    match &m.ground_speed {
        Some(t) => out.append(t.as_str()),
        None => out.append("null"),
    }
    out.append(",\"track\":");
    match &m.track {
        Some(t) => out.append(t.as_str()),
        None => out.append("null"),
    }
    out.append("}");
    proof {
        assert(out@ =~= payload_model(*m));
    }
    out
}

} // verus!
