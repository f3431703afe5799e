//! Character-level JSON primitives: escaping, quoted strings, booleans,
//! and a lenient scanner that finds the end of one value of any shape.
//!
//! Every parser consumes from the front of a character sequence and returns
//! what it read together with the remaining input.  The spec functions are
//! the definition of the stored format; the executable functions mirror
//! them index by index over a `Vec<char>`.

use vstd::prelude::*;

verus! {

broadcast use vstd::seq_lib::lemma_seq_skip_of_skip;

/// JSON insignificant whitespace.
pub open spec fn is_ws(c: char) -> bool {
    c == ' ' || c == '\n' || c == '\t' || c == '\r'
}

/// The input with its leading whitespace removed.
pub open spec fn skip_ws(s: Seq<char>) -> Seq<char>
    decreases s.len(),
{
    if s.len() > 0 && is_ws(s[0]) {
        skip_ws(s.skip(1))
    } else {
        s
    }
}

/// The character denoted by the escape `\x`, for the escapes this format
/// accepts.
pub open spec fn unescape_char(x: char) -> Option<char> {
    if x == '"' {
        Some('"')
    } else if x == '\\' {
        Some('\\')
    } else if x == '/' {
        Some('/')
    } else if x == 'n' {
        Some('\n')
    } else if x == 'r' {
        Some('\r')
    } else if x == 't' {
        Some('\t')
    } else if x == 'b' {
        Some('\u{8}')
    } else if x == 'f' {
        Some('\u{c}')
    } else {
        None
    }
}

/// How one character is written inside a quoted string: quotes, backslashes
/// and the common control characters take a two-character escape; every
/// other character stands for itself.
pub open spec fn escape_char(c: char) -> Seq<char> {
    if c == '"' {
        seq!['\\', '"']
    } else if c == '\\' {
        seq!['\\', '\\']
    } else if c == '\n' {
        seq!['\\', 'n']
    } else if c == '\r' {
        seq!['\\', 'r']
    } else if c == '\t' {
        seq!['\\', 't']
    } else {
        seq![c]
    }
}

/// A whole string escaped character by character.
pub open spec fn escape_string(s: Seq<char>) -> Seq<char>
    decreases s.len(),
{
    if s.len() == 0 {
        Seq::empty()
    } else {
        escape_char(s[0]) + escape_string(s.skip(1))
    }
}

/// A string value as it is written: quoted and escaped.
pub open spec fn quoted(s: Seq<char>) -> Seq<char> {
    seq!['"'] + escape_string(s) + seq!['"']
}

/// Read a string body up to and over its closing quote; the opening quote
/// has already been consumed.  Returns the unescaped content and the rest.
pub open spec fn parse_str_body(s: Seq<char>) -> Option<(Seq<char>, Seq<char>)>
    decreases s.len(),
{
    if s.len() == 0 {
        None
    } else if s[0] == '"' {
        Some((Seq::empty(), s.skip(1)))
    } else if s[0] == '\\' {
        if s.len() < 2 {
            None
        } else {
            match unescape_char(s[1]) {
                Some(c) => match parse_str_body(s.skip(2)) {
                    Some(p) => Some((seq![c] + p.0, p.1)),
                    None => None,
                },
                None => None,
            }
        }
    } else {
        match parse_str_body(s.skip(1)) {
            Some(p) => Some((seq![s[0]] + p.0, p.1)),
            None => None,
        }
    }
}

/// Read a quoted string value.
pub open spec fn parse_string(s: Seq<char>) -> Option<(Seq<char>, Seq<char>)> {
    if s.len() > 0 && s[0] == '"' {
        parse_str_body(s.skip(1))
    } else {
        None
    }
}

pub open spec fn lit_true() -> Seq<char> {
    seq!['t', 'r', 'u', 'e']
}

pub open spec fn lit_false() -> Seq<char> {
    seq!['f', 'a', 'l', 's', 'e']
}

/// The text of a boolean value.
pub open spec fn bool_text(b: bool) -> Seq<char> {
    if b {
        lit_true()
    } else {
        lit_false()
    }
}

/// Read a boolean value.
pub open spec fn parse_bool(s: Seq<char>) -> Option<(bool, Seq<char>)> {
    if lit_true().is_prefix_of(s) {
        Some((true, s.skip(4)))
    } else if lit_false().is_prefix_of(s) {
        Some((false, s.skip(5)))
    } else {
        None
    }
}

/// Characters that structure the text around an unquoted atom.
pub open spec fn is_structural(c: char) -> bool {
    c == ',' || c == ':' || c == '{' || c == '}' || c == '[' || c == ']' || c == '"'
}

/// A character that may stand inside an unquoted atom (a number or a
/// literal such as `null`).
pub open spec fn is_atom_char(c: char) -> bool {
    !is_structural(c) && !is_ws(c)
}

/// Skip over the rest of an unquoted atom.
pub open spec fn scan_atom(s: Seq<char>) -> Seq<char>
    decreases s.len(),
{
    if s.len() > 0 && is_atom_char(s[0]) {
        scan_atom(s.skip(1))
    } else {
        s
    }
}

/// Skip to just past the bracket that closes the object or array whose
/// opening bracket was just consumed.  Quoted strings are skipped whole.
/// The two bracket kinds are not told apart: this scanner only decides
/// where a value ends, never whether it is well formed in every detail.
pub open spec fn scan_brackets(s: Seq<char>) -> Option<Seq<char>>
    decreases s.len(),
{
    if s.len() == 0 {
        None
    } else if s[0] == '}' || s[0] == ']' {
        Some(s.skip(1))
    } else if s[0] == '"' {
        match parse_str_body(s.skip(1)) {
            Some(p) => if p.1.len() < s.len() {
                scan_brackets(p.1)
            } else {
                None
            },
            None => None,
        }
    } else if s[0] == '{' || s[0] == '[' {
        match scan_brackets(s.skip(1)) {
            Some(r) => if r.len() < s.len() {
                scan_brackets(r)
            } else {
                None
            },
            None => None,
        }
    } else {
        scan_brackets(s.skip(1))
    }
}

/// Skip one value of any shape; returns the input just past it.
pub open spec fn scan_value(s: Seq<char>) -> Option<Seq<char>> {
    if s.len() == 0 {
        None
    } else if s[0] == '"' {
        match parse_str_body(s.skip(1)) {
            Some(p) => Some(p.1),
            None => None,
        }
    } else if s[0] == '{' || s[0] == '[' {
        scan_brackets(s.skip(1))
    } else if is_atom_char(s[0]) {
        Some(scan_atom(s.skip(1)))
    } else {
        None
    }
}

/// Skipping whitespace over input that starts with none is the identity.
pub proof fn lemma_skip_ws_clean(s: Seq<char>)
    requires
        s.len() == 0 || !is_ws(s[0]),
    ensures
        skip_ws(s) == s,
{
}

/// A string body always consumes at least its closing quote.
pub proof fn lemma_parse_str_body_len(s: Seq<char>)
    ensures
        parse_str_body(s) matches Some(p) ==> p.1.len() < s.len(),
    decreases s.len(),
{
    if s.len() == 0 {
    } else if s[0] == '"' {
    } else if s[0] == '\\' {
        if s.len() >= 2 {
            lemma_parse_str_body_len(s.skip(2));
        }
    } else {
        lemma_parse_str_body_len(s.skip(1));
    }
}

/// The two shapes an escape can take, and that unescaping undoes escaping.
pub proof fn lemma_escape_char_cases(c: char)
    ensures
        escape_char(c).len() == 1 || escape_char(c).len() == 2,
        escape_char(c).len() == 2 ==> escape_char(c)[0] == '\\' && unescape_char(
            escape_char(c)[1],
        ) == Some(c),
        escape_char(c).len() == 1 ==> escape_char(c)[0] == c && c != '"' && c != '\\',
{
}

/// Reading back an escaped string body recovers the original string and
/// leaves exactly the input that followed the closing quote.
pub proof fn lemma_str_body_round_trip(v: Seq<char>, rest: Seq<char>)
    ensures
        parse_str_body(escape_string(v) + seq!['"'] + rest) == Some((v, rest)),
    decreases v.len(),
{
    let s = escape_string(v) + seq!['"'] + rest;
    if v.len() == 0 {
        assert(s =~= seq!['"'] + rest);
        assert(s.skip(1) =~= rest);
        assert(parse_str_body(s) == Some((Seq::<char>::empty(), rest)));
        assert(v =~= Seq::<char>::empty());
    } else {
        let c = v[0];
        let e = escape_char(c);
        let tail = escape_string(v.skip(1)) + seq!['"'] + rest;
        assert(escape_string(v) == e + escape_string(v.skip(1)));
        assert(s =~= e + tail);
        lemma_escape_char_cases(c);
        lemma_str_body_round_trip(v.skip(1), rest);
        if e.len() == 2 {
            assert(s[0] == '\\');
            assert(s[1] == e[1]);
            assert(s.skip(2) =~= tail);
            assert(parse_str_body(s) == Some((seq![c] + v.skip(1), rest)));
            assert(seq![c] + v.skip(1) =~= v);
        } else {
            assert(s[0] == c);
            assert(s.skip(1) =~= tail);
            assert(parse_str_body(s) == Some((seq![s[0]] + v.skip(1), rest)));
            assert(seq![s[0]] + v.skip(1) =~= v);
        }
    }
}

/// Reading back a quoted string recovers the original string.
pub proof fn lemma_string_round_trip(v: Seq<char>, rest: Seq<char>)
    ensures
        parse_string(quoted(v) + rest) == Some((v, rest)),
{
    let s = quoted(v) + rest;
    assert(s[0] == '"');
    assert(s.skip(1) =~= escape_string(v) + seq!['"'] + rest);
    lemma_str_body_round_trip(v, rest);
}

/// Escaping distributes over concatenation.
pub proof fn lemma_escape_string_app(a: Seq<char>, b: Seq<char>)
    ensures
        escape_string(a + b) == escape_string(a) + escape_string(b),
    decreases a.len(),
{
    if a.len() == 0 {
        assert(a + b =~= b);
        assert(escape_string(a) + escape_string(b) =~= escape_string(b));
    } else {
        assert((a + b)[0] == a[0]);
        assert((a + b).skip(1) =~= a.skip(1) + b);
        lemma_escape_string_app(a.skip(1), b);
        assert(escape_char(a[0]) + (escape_string(a.skip(1)) + escape_string(b)) =~= (escape_char(
            a[0],
        ) + escape_string(a.skip(1))) + escape_string(b));
    }
}

/// The characters of a string slice as a vector.
pub fn str_to_chars(s: &str) -> (v: Vec<char>)
    ensures
        v@ == s@,
{
    let n = s.unicode_len();
    let mut v: Vec<char> = Vec::new();
    proof {
        assert(v@ =~= s@.take(0));
    }
    let mut i: usize = 0;
    while i < n
        invariant
            i <= n,
            n == s@.len(),
            v@ == s@.take(i as int),
        decreases n - i,
    {
        let c = s.get_char(i);
        v.push(c);
        proof {
            assert(s@.take(i as int).push(c) =~= s@.take(i as int + 1));
        }
        i += 1;
    }
    proof {
        assert(s@.take(n as int) =~= s@);
    }
    v
}

/// Character-for-character equality of two string slices.
pub fn str_eq(a: &str, b: &str) -> (r: bool)
    ensures
        r == (a@ == b@),
{
    let na = a.unicode_len();
    let nb = b.unicode_len();
    if na != nb {
        proof {
            if a@ == b@ {
                assert(a@.len() == b@.len());
            }
        }
        return false;
    }
    let mut i: usize = 0;
    while i < na
        invariant
            i <= na,
            na == a@.len(),
            nb == b@.len(),
            na == nb,
            forall|j: int| 0 <= j < i ==> a@[j] == b@[j],
        decreases na - i,
    {
        let ca = a.get_char(i);
        let cb = b.get_char(i);
        if ca != cb {
            return false;
        }
        i += 1;
    }
    proof {
        assert(a@ =~= b@);
    }
    true
}

/// Relies on String::push: appends the given character to the end of the
/// string.
#[verifier::external_body]
pub(crate) fn push_char(s: &mut String, c: char)
    ensures
        final(s)@ == old(s)@.push(c),
{
    s.push(c);
}

fn is_ws_char(c: char) -> (b: bool)
    ensures
        b == is_ws(c),
{
    c == ' ' || c == '\n' || c == '\t' || c == '\r'
}

fn is_atom_char_exec(c: char) -> (b: bool)
    ensures
        b == is_atom_char(c),
{
    !(c == ',' || c == ':' || c == '{' || c == '}' || c == '[' || c == ']' || c == '"')
        && !(c == ' ' || c == '\n' || c == '\t' || c == '\r')
}

fn unescape_char_exec(x: char) -> (r: Option<char>)
    ensures
        r == unescape_char(x),
{
    if x == '"' {
        Some('"')
    } else if x == '\\' {
        Some('\\')
    } else if x == '/' {
        Some('/')
    } else if x == 'n' {
        Some('\n')
    } else if x == 'r' {
        Some('\r')
    } else if x == 't' {
        Some('\t')
    } else if x == 'b' {
        Some('\u{8}')
    } else if x == 'f' {
        Some('\u{c}')
    } else {
        None
    }
}

/// Move the cursor past any whitespace.
pub fn skip_ws_at(s: &Vec<char>, i: usize) -> (j: usize)
    requires
        i <= s@.len(),
    ensures
        i <= j <= s@.len(),
        skip_ws(s@.skip(i as int)) == s@.skip(j as int),
{
    let n = s.len();
    let mut j = i;
    while j < n && is_ws_char(s[j])
        invariant
            i <= j <= n,
            n == s@.len(),
            skip_ws(s@.skip(i as int)) == skip_ws(s@.skip(j as int)),
        decreases n - j,
    {
        proof {
            assert(s@.skip(j as int).skip(1) =~= s@.skip(j as int + 1));
        }
        j += 1;
    }
    j
}

/// Read a quoted string value at the cursor.
pub fn parse_string_at(s: &Vec<char>, i: usize) -> (r: Option<(String, usize)>)
    requires
        i <= s@.len(),
    ensures
        match r {
            Some(p) => {
                &&& i < p.1 <= s@.len()
                &&& parse_string(s@.skip(i as int)) == Some((p.0@, s@.skip(p.1 as int)))
            },
            None => parse_string(s@.skip(i as int)) is None,
        },
{
    let n = s.len();
    if i == n || s[i] != '"' {
        return None;
    }
    let mut acc = String::new();
    let mut k = i + 1;
    loop
        invariant
            i + 1 <= k <= n,
            n == s@.len(),
            s@[i as int] == '"',
            match parse_str_body(s@.skip(k as int)) {
                Some(p) => parse_str_body(s@.skip(i as int + 1)) == Some((acc@ + p.0, p.1)),
                None => parse_str_body(s@.skip(i as int + 1)) is None,
            },
        decreases n - k,
    {
        if k == n {
            return None;
        }
        let c = s[k];
        if c == '"' {
            proof {
                assert(s@.skip(k as int).skip(1) =~= s@.skip(k as int + 1));
                assert(acc@ + Seq::<char>::empty() =~= acc@);
            }
            return Some((acc, k + 1));
        } else if c == '\\' {
            if n - k < 2 {
                return None;
            }
            let x = s[k + 1];
            match unescape_char_exec(x) {
                Some(u) => {
                    proof {
                        assert(s@.skip(k as int).skip(2) =~= s@.skip(k as int + 2));
                    }
                    let ghost acc0 = acc@;
                    push_char(&mut acc, u);
                    proof {
                        match parse_str_body(s@.skip(k as int + 2)) {
                            Some(p) => {
                                assert(acc0 + (seq![u] + p.0) =~= acc@ + p.0);
                            },
                            None => {},
                        }
                    }
                    k += 2;
                },
                None => {
                    return None;
                },
            }
        } else {
            let ghost acc0 = acc@;
            push_char(&mut acc, c);
            proof {
                assert(s@.skip(k as int).skip(1) =~= s@.skip(k as int + 1));
                match parse_str_body(s@.skip(k as int + 1)) {
                    Some(p) => {
                        assert(acc0 + (seq![c] + p.0) =~= acc@ + p.0);
                    },
                    None => {},
                }
            }
            k += 1;
        }
    }
}

/// Read a boolean value at the cursor.
pub fn parse_bool_at(s: &Vec<char>, i: usize) -> (r: Option<(bool, usize)>)
    requires
        i <= s@.len(),
    ensures
        match r {
            Some(p) => {
                &&& i < p.1 <= s@.len()
                &&& parse_bool(s@.skip(i as int)) == Some((p.0, s@.skip(p.1 as int)))
            },
            None => parse_bool(s@.skip(i as int)) is None,
        },
{
    let n = s.len();
    let ghost sk = s@.skip(i as int);
    let true_here = n - i >= 4 && s[i] == 't' && s[i + 1] == 'r' && s[i + 2] == 'u' && s[i + 3]
        == 'e';
    proof {
        assert(true_here == lit_true().is_prefix_of(sk)) by {
            if sk.len() >= 4 && sk[0] == 't' && sk[1] == 'r' && sk[2] == 'u' && sk[3] == 'e' {
                assert(lit_true() =~= sk.subrange(0, 4));
            }
            if lit_true().is_prefix_of(sk) {
                assert(sk.subrange(0, 4) =~= lit_true());
            }
        }
    }
    if true_here {
        proof {
            assert(sk.skip(4) =~= s@.skip(i as int + 4));
        }
        return Some((true, i + 4));
    }
    let false_here = n - i >= 5 && s[i] == 'f' && s[i + 1] == 'a' && s[i + 2] == 'l' && s[i + 3]
        == 's' && s[i + 4] == 'e';
    proof {
        assert(false_here == lit_false().is_prefix_of(sk)) by {
            if sk.len() >= 5 && sk[0] == 'f' && sk[1] == 'a' && sk[2] == 'l' && sk[3] == 's'
                && sk[4] == 'e' {
                assert(lit_false() =~= sk.subrange(0, 5));
            }
            if lit_false().is_prefix_of(sk) {
                assert(sk.subrange(0, 5) =~= lit_false());
            }
        }
    }
    if false_here {
        proof {
            assert(sk.skip(5) =~= s@.skip(i as int + 5));
        }
        return Some((false, i + 5));
    }
    None
}

/// Move the cursor past the rest of an unquoted atom.
pub fn scan_atom_at(s: &Vec<char>, i: usize) -> (j: usize)
    requires
        i <= s@.len(),
    ensures
        i <= j <= s@.len(),
        scan_atom(s@.skip(i as int)) == s@.skip(j as int),
{
    let n = s.len();
    let mut j = i;
    while j < n && is_atom_char_exec(s[j])
        invariant
            i <= j <= n,
            n == s@.len(),
            scan_atom(s@.skip(i as int)) == scan_atom(s@.skip(j as int)),
        decreases n - j,
    {
        proof {
            assert(s@.skip(j as int).skip(1) =~= s@.skip(j as int + 1));
        }
        j += 1;
    }
    j
}

/// Move the cursor past the bracket closing the object or array whose
/// opening bracket the cursor has just passed.
pub fn scan_brackets_at(s: &Vec<char>, i: usize) -> (r: Option<usize>)
    requires
        i <= s@.len(),
    ensures
        match r {
            Some(j) => {
                &&& i < j <= s@.len()
                &&& scan_brackets(s@.skip(i as int)) == Some(s@.skip(j as int))
            },
            None => scan_brackets(s@.skip(i as int)) is None,
        },
    decreases s@.len() - i,
{
    let n = s.len();
    let mut k = i;
    loop
        invariant
            i <= k <= n,
            n == s@.len(),
            scan_brackets(s@.skip(i as int)) == scan_brackets(s@.skip(k as int)),
        decreases n - k,
    {
        if k == n {
            return None;
        }
        let c = s[k];
        if c == '}' || c == ']' {
            proof {
                assert(s@.skip(k as int).skip(1) =~= s@.skip(k as int + 1));
            }
            return Some(k + 1);
        } else if c == '"' {
            match parse_string_at(s, k) {
                Some(p) => {
                    proof {
                        assert(s@.skip(k as int).skip(1) =~= s@.skip(k as int + 1));
                        lemma_parse_str_body_len(s@.skip(k as int + 1));
                    }
                    k = p.1;
                },
                None => {
                    proof {
                        assert(s@.skip(k as int).skip(1) =~= s@.skip(k as int + 1));
                    }
                    return None;
                },
            }
        } else if c == '{' || c == '[' {
            match scan_brackets_at(s, k + 1) {
                Some(j) => {
                    proof {
                        assert(s@.skip(k as int).skip(1) =~= s@.skip(k as int + 1));
                    }
                    k = j;
                },
                None => {
                    proof {
                        assert(s@.skip(k as int).skip(1) =~= s@.skip(k as int + 1));
                    }
                    return None;
                },
            }
        } else {
            proof {
                assert(s@.skip(k as int).skip(1) =~= s@.skip(k as int + 1));
            }
            k += 1;
        }
    }
}

/// Move the cursor past one value of any shape.
pub fn scan_value_at(s: &Vec<char>, i: usize) -> (r: Option<usize>)
    requires
        i <= s@.len(),
    ensures
        match r {
            Some(j) => {
                &&& i < j <= s@.len()
                &&& scan_value(s@.skip(i as int)) == Some(s@.skip(j as int))
            },
            None => scan_value(s@.skip(i as int)) is None,
        },
{
    let n = s.len();
    if i == n {
        return None;
    }
    let c = s[i];
    if c == '"' {
        proof {
            assert(s@.skip(i as int).skip(1) =~= s@.skip(i as int + 1));
        }
        match parse_string_at(s, i) {
            Some(p) => Some(p.1),
            None => None,
        }
    } else if c == '{' || c == '[' {
        proof {
            assert(s@.skip(i as int).skip(1) =~= s@.skip(i as int + 1));
        }
        scan_brackets_at(s, i + 1)
    } else if is_atom_char_exec(c) {
        proof {
            assert(s@.skip(i as int).skip(1) =~= s@.skip(i as int + 1));
        }
        let j = scan_atom_at(s, i + 1);
        Some(j)
    } else {
        None
    }
}

/// Reading back a written boolean recovers it.
pub proof fn lemma_bool_round_trip(b: bool, rest: Seq<char>)
    ensures
        parse_bool(bool_text(b) + rest) == Some((b, rest)),
{
    let s = bool_text(b) + rest;
    if b {
        assert(lit_true().is_prefix_of(s)) by {
            assert(lit_true() =~= s.subrange(0, 4));
        }
        assert(s.skip(4) =~= rest);
    } else {
        assert(!lit_true().is_prefix_of(s)) by {
            if lit_true().is_prefix_of(s) {
                assert(s.subrange(0, 4)[0] == s[0]);
            }
        }
        assert(lit_false().is_prefix_of(s)) by {
            assert(lit_false() =~= s.subrange(0, 5));
        }
        assert(s.skip(5) =~= rest);
    }
}

} // verus!
