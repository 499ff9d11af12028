//! Outbound feed protocol: the subscription handshake.
//!
//! On connecting, the layer sends one subscription request per instrument,
//! a JSON text of the shape
//! `{"type":"subscribe","channel":"book","assets_ids":["<id>"]}`.

use vstd::prelude::*;
use vstd::string::StringExecFns;

use crate::chars::digit_char;
use crate::chars::push_char;

verus! {

/// The hexadecimal digit character for a value below sixteen.
pub open spec fn hex_char(d: int) -> char {
    if d < 10 {
        digit_char(d)
    } else if d == 10 {
        'a'
    } else if d == 11 {
        'b'
    } else if d == 12 {
        'c'
    } else if d == 13 {
        'd'
    } else if d == 14 {
        'e'
    } else {
        'f'
    }
}

/// How one character appears inside a JSON string literal: quotes and
/// backslashes are escaped, control characters take the `\u00XX` form,
/// everything else stands as itself.
pub open spec fn json_escaped(c: char) -> Seq<char> {
    if c == '"' {
        seq!['\\', '"']
    } else if c == '\\' {
        seq!['\\', '\\']
    } else if (c as u32) < 32 {
        seq!['\\', 'u', '0', '0', hex_char((c as u32) as int / 16), hex_char((c as u32) as int % 16)]
    } else {
        seq![c]
    }
}

/// A text escaped for use inside a JSON string literal.
pub open spec fn escape_text(s: Seq<char>) -> Seq<char>
    decreases s.len(),
{
    if s.len() == 0 {
        Seq::empty()
    } else {
        json_escaped(s[0]) + escape_text(s.skip(1))
    }
}

/// Escaping distributes over concatenation.
pub proof fn lemma_escape_append(a: Seq<char>, b: Seq<char>)
    ensures
        escape_text(a + b) == escape_text(a) + escape_text(b),
    decreases a.len(),
{
    if a.len() == 0 {
        assert(a + b =~= b);
        assert(escape_text(a) + escape_text(b) =~= escape_text(b));
    } else {
        assert((a + b).skip(1) =~= a.skip(1) + b);
        lemma_escape_append(a.skip(1), b);
        assert((a + b)[0] == a[0]);
        assert(escape_text(a + b) =~= escape_text(a) + escape_text(b));
    }
}

/// Escaping one more character appends its escape.
pub proof fn lemma_escape_snoc(s: Seq<char>, i: int)
    requires
        0 <= i < s.len(),
    ensures
        escape_text(s.take(i + 1)) == escape_text(s.take(i)) + json_escaped(s[i]),
{
    assert(s.take(i + 1) =~= s.take(i) + seq![s[i]]);
    lemma_escape_append(s.take(i), seq![s[i]]);
    assert(seq![s[i]].skip(1) =~= Seq::<char>::empty());
    assert(escape_text(Seq::<char>::empty()) =~= Seq::<char>::empty());
    assert(escape_text(seq![s[i]]) =~= json_escaped(seq![s[i]][0]) + escape_text(
        seq![s[i]].skip(1),
    ));
    assert(escape_text(seq![s[i]]) =~= json_escaped(s[i]));
}

/// The subscription request for one instrument identifier.
pub open spec fn subscribe_text(token: Seq<char>) -> Seq<char> {
    "{\"type\":\"subscribe\",\"channel\":\"book\",\"assets_ids\":[\""@ + escape_text(token)
        + "\"]}"@
}

/// Appends the JSON escape of one character, exactly as [`json_escaped`]
/// describes it.
#[verifier::loop_isolation(false)]
fn push_escaped(out: &mut String, c: char)
    ensures
        final(out)@ == old(out)@ + json_escaped(c),
{
    if c == '"' {
        push_char(out, '\\');
        push_char(out, '"');
    } else if c == '\\' {
        push_char(out, '\\');
        push_char(out, '\\');
    } else if (c as u32) < 32 {
        let v = c as u32;
        push_char(out, '\\');
        push_char(out, 'u');
        push_char(out, '0');
        push_char(out, '0');
        push_char(out, if v / 16 == 0 {
            '0'
        } else {
            '1'
        });
        let lo = v % 16;
        let lo_c = if lo == 0 {
            '0'
        } else if lo == 1 {
            '1'
        } else if lo == 2 {
            '2'
        } else if lo == 3 {
            '3'
        } else if lo == 4 {
            '4'
        } else if lo == 5 {
            '5'
        } else if lo == 6 {
            '6'
        } else if lo == 7 {
            '7'
        } else if lo == 8 {
            '8'
        } else if lo == 9 {
            '9'
        } else if lo == 10 {
            'a'
        } else if lo == 11 {
            'b'
        } else if lo == 12 {
            'c'
        } else if lo == 13 {
            'd'
        } else if lo == 14 {
            'e'
        } else {
            'f'
        };
        push_char(out, lo_c);
    } else {
        push_char(out, c);
    }
    proof {
        assert(out@ =~= old(out)@ + json_escaped(c));
    }
}

/// Builds the subscription request for one instrument, exactly as
/// [`subscribe_text`] describes it.
#[verifier::loop_isolation(false)]
pub fn subscribe_message(token: &str) -> (r: String)
    ensures
        r@ == subscribe_text(token@),
{
    let cs = crate::chars::chars_vec(token);
    let mut out = String::new();
    out.append("{\"type\":\"subscribe\",\"channel\":\"book\",\"assets_ids\":[\"");
    let ghost prefix = "{\"type\":\"subscribe\",\"channel\":\"book\",\"assets_ids\":[\""@;
    proof {
        assert(out@ =~= prefix);
        assert(token@.take(0) =~= Seq::<char>::empty());
    }
    let n = cs.len();
    let mut i: usize = 0;
    while i < n
        invariant
            i <= n,
            out@ == prefix + escape_text(token@.take(i as int)),
        decreases n - i,
    {
        push_escaped(&mut out, cs[i]);
        proof {
            lemma_escape_snoc(token@, i as int);
        }
        i = i + 1;
    }
    proof {
        assert(token@.take(n as int) =~= token@);
    }
    out.append("\"]}");
    proof {
        assert(out@ =~= subscribe_text(token@));
    }
    out
}

} // verus!
