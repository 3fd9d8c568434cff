//! The rule serializer: a device rule rendered in the kernel's device-rule
//! grammar `"<t> <maj>:<min> <access>"`, with `t` one of `a`/`b`/`c`, each
//! bound rendered as its decimal value or `*` when absent, and the access
//! string copied verbatim.

use crate::rule::{is_access_char, DeviceRule, DeviceType};
use vstd::prelude::*;

verus! {

/// The character that renders a single decimal digit.
pub open spec fn digit_char(d: int) -> char {
    if d == 0 {
        '0'
    } else if d == 1 {
        '1'
    } else if d == 2 {
        '2'
    } else if d == 3 {
        '3'
    } else if d == 4 {
        '4'
    } else if d == 5 {
        '5'
    } else if d == 6 {
        '6'
    } else if d == 7 {
        '7'
    } else if d == 8 {
        '8'
    } else {
        '9'
    }
}

/// The decimal rendering of `n`: most significant digit first, no sign, no
/// leading zeros (a single `'0'` for zero).
pub open spec fn dec_digits(n: nat) -> Seq<char>
    decreases n,
{
    if n < 10 {
        seq![digit_char(n as int)]
    } else {
        dec_digits(n / 10).push(digit_char((n % 10) as int))
    }
}

/// How one bound of a rule (major or minor) renders: its decimal value if
/// present, else the literal `*`.
pub open spec fn bound_text(b: Option<u64>) -> Seq<char> {
    match b {
        Option::None => seq!['*'],
        Option::Some(n) => dec_digits(n as nat),
    }
}

/// The device-type letter: `a` for all, `b` for block, `c` for character.
pub open spec fn type_char(t: DeviceType) -> char {
    match t {
        DeviceType::All => 'a',
        DeviceType::Block => 'b',
        DeviceType::Character => 'c',
    }
}

/// The canonical kernel rule string for `r`.
pub open spec fn spec_serialize(r: DeviceRule) -> Seq<char> {
    seq![type_char(r.device_type), ' '] + bound_text(r.major) + seq![':'] + bound_text(r.minor)
        + seq![' '] + r.access@
}

/// Appends the single decimal digit `d` to `s`.
fn append_digit(s: &mut String, d: u64)
    requires
        d < 10,
    ensures
        final(s)@ == old(s)@ + seq![digit_char(d as int)],
{
    if d == 0 {
        proof {
            reveal_strlit("0");
            assert("0"@ =~= seq!['0']);
        }
        s.append("0");
    } else if d == 1 {
        proof {
            reveal_strlit("1");
            assert("1"@ =~= seq!['1']);
        }
        s.append("1");
    } else if d == 2 {
        proof {
            reveal_strlit("2");
            assert("2"@ =~= seq!['2']);
        }
        s.append("2");
    } else if d == 3 {
        proof {
            reveal_strlit("3");
            assert("3"@ =~= seq!['3']);
        }
        s.append("3");
    } else if d == 4 {
        proof {
            reveal_strlit("4");
            assert("4"@ =~= seq!['4']);
        }
        s.append("4");
    } else if d == 5 {
        proof {
            reveal_strlit("5");
            assert("5"@ =~= seq!['5']);
        }
        s.append("5");
    } else if d == 6 {
        proof {
            reveal_strlit("6");
            assert("6"@ =~= seq!['6']);
        }
        s.append("6");
    } else if d == 7 {
        proof {
            reveal_strlit("7");
            assert("7"@ =~= seq!['7']);
        }
        s.append("7");
    } else if d == 8 {
        proof {
            reveal_strlit("8");
            assert("8"@ =~= seq!['8']);
        }
        s.append("8");
    } else {
        proof {
            reveal_strlit("9");
            assert("9"@ =~= seq!['9']);
        }
        s.append("9");
    }
}

/// Appends the decimal rendering of `n` to `s`.
fn append_dec(s: &mut String, n: u64)
    ensures
        final(s)@ == old(s)@ + dec_digits(n as nat),
    decreases n,
{
    if n >= 10 {
        append_dec(s, n / 10);
        append_digit(s, n % 10);
        proof {
            assert(final(s)@ =~= old(s)@ + dec_digits(n as nat));
        }
    } else {
        append_digit(s, n);
    }
}

/// The decimal rendering of a signed number: a `-` sign when negative, then
/// the digits of its magnitude.
pub open spec fn dec_signed(n: int) -> Seq<char> {
    if n < 0 {
        seq!['-'] + dec_digits((-n) as nat)
    } else {
        dec_digits(n as nat)
    }
}

/// Renders `n` in decimal, as the attachment write needs for a process id.
pub fn signed_decimal(n: i32) -> (r: String)
    ensures
        r@ == dec_signed(n as int),
{
    let mut s = String::new();
    if n < 0 {
        proof {
            reveal_strlit("-");
            assert("-"@ =~= seq!['-']);
        }
        s.append("-");
        let m: u64 = (-(n as i64)) as u64;
        proof {
            assert(m as nat == (-(n as int)) as nat);
        }
        append_dec(&mut s, m);
        proof {
            assert(s@ =~= dec_signed(n as int));
        }
    } else {
        append_dec(&mut s, n as u64);
    }
    s
}

/// Renders `rule` in the kernel's device-rule grammar. Total: every rule has
/// a rendering, and the result is exactly [`spec_serialize`] of the rule.
pub fn serialize(rule: &DeviceRule) -> (r: String)
    ensures
        r@ == spec_serialize(*rule),
{
    let mut s = String::new();
    match rule.device_type {
        DeviceType::All => {
            proof {
                reveal_strlit("a");
            }
            s.append("a");
        },
        DeviceType::Block => {
            proof {
                reveal_strlit("b");
            }
            s.append("b");
        },
        DeviceType::Character => {
            proof {
                reveal_strlit("c");
            }
            s.append("c");
        },
    }
    proof {
        assert(s@ =~= seq![type_char(rule.device_type)]);
    }
    proof {
        reveal_strlit(" ");
        reveal_strlit(":");
        reveal_strlit("*");
    }
    s.append(" ");
    match rule.major {
        Option::None => {
            s.append("*");
        },
        Option::Some(m) => {
            append_dec(&mut s, m);
        },
    }
    proof {
        assert(s@ =~= seq![type_char(rule.device_type), ' '] + bound_text(rule.major));
    }
    s.append(":");
    match rule.minor {
        Option::None => {
            s.append("*");
        },
        Option::Some(m) => {
            append_dec(&mut s, m);
        },
    }
    s.append(" ");
    s.append(rule.access.as_str());
    proof {
        assert(s@ =~= spec_serialize(*rule));
    }
    s
}

/// `\d+` or the literal `*`: how a rendered bound may look.
pub open spec fn num_or_star(s: Seq<char>) -> bool {
    s =~= seq!['*'] || (s.len() > 0 && (forall|i: int|
        0 <= i < s.len() ==> is_dec_digit(#[trigger] s[i])))
}

/// A decimal digit character.
pub open spec fn is_dec_digit(c: char) -> bool {
    c == '0' || c == '1' || c == '2' || c == '3' || c == '4' || c == '5' || c == '6' || c == '7'
        || c == '8' || c == '9'
}

/// A string over the access alphabet: `[rwm]*`.
pub open spec fn access_text(s: Seq<char>) -> bool {
    forall|i: int| 0 <= i < s.len() ==> is_access_char(#[trigger] s[i])
}

/// One decomposition of `s` as type letter, major, minor, and access parts of
/// the kernel grammar.
pub open spec fn grammar_parts(s: Seq<char>, t: char, maj: Seq<char>, min: Seq<char>, acc: Seq<char>) -> bool {
    &&& (t == 'a' || t == 'b' || t == 'c')
    &&& num_or_star(maj)
    &&& num_or_star(min)
    &&& access_text(acc)
    &&& s =~= seq![t, ' '] + maj + seq![':'] + min + seq![' '] + acc
}

/// The kernel device-rule grammar `^[abc] (\d+|\*):(\d+|\*) [rwm]*$`.
pub open spec fn matches_rule_grammar(s: Seq<char>) -> bool {
    exists|t: char, maj: Seq<char>, min: Seq<char>, acc: Seq<char>|
        grammar_parts(s, t, maj, min, acc)
}

/// The decimal rendering of any number is a nonempty string of digits.
pub proof fn lemma_dec_digits_wf(n: nat)
    ensures
        dec_digits(n).len() > 0,
        forall|i: int| 0 <= i < dec_digits(n).len() ==> is_dec_digit(#[trigger] dec_digits(n)[i]),
    decreases n,
{
    if n < 10 {
        assert(is_dec_digit(digit_char(n as int)));
    } else {
        lemma_dec_digits_wf(n / 10);
        assert(is_dec_digit(digit_char((n % 10) as int)));
    }
}

/// Law: the serializer's output always matches the kernel grammar
/// `^[abc] (\d+|\*):(\d+|\*) [rwm]*$`, for every rule whose access string
/// stays within the `{r, w, m}` alphabet.
pub proof fn lemma_serialize_matches_grammar(r: DeviceRule)
    requires
        r.access_wf(),
    ensures
        matches_rule_grammar(spec_serialize(r)),
{
    let t = type_char(r.device_type);
    let maj = bound_text(r.major);
    let min = bound_text(r.minor);
    let acc = r.access@;
    match r.major {
        Option::None => {
            assert(num_or_star(maj));
        },
        Option::Some(m) => {
            lemma_dec_digits_wf(m as nat);
        },
    }
    match r.minor {
        Option::None => {
            assert(num_or_star(min));
        },
        Option::Some(m) => {
            lemma_dec_digits_wf(m as nat);
        },
    }
    assert(grammar_parts(spec_serialize(r), t, maj, min, acc));
}

} // verus!
