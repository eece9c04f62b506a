//! Byte strings: equality, the order of keys, and the scan for whitespace
//! between JSON tokens.

use vstd::prelude::*;
use vstd::string::StringSliceAdditionalSpecFns;
use vstd::utf8::{encode_utf8, encode_utf8_decode_utf8, is_ascii_chars, is_ascii_chars_encode_utf8};

verus! {

/// `a` comes before `b` when both are read byte by byte: at the first place
/// where they differ `a` has the smaller byte, or `a` ends there and `b` goes on.
pub open spec fn lex_lt(a: Seq<u8>, b: Seq<u8>) -> bool
    decreases a.len(),
{
    if b.len() == 0 {
        false
    } else if a.len() == 0 {
        true
    } else if a[0] != b[0] {
        a[0] < b[0]
    } else {
        lex_lt(a.drop_first(), b.drop_first())
    }
}

/// The order of keys: that of their UTF-8 bytes.
pub open spec fn key_lt(a: Seq<char>, b: Seq<char>) -> bool {
    lex_lt(encode_utf8(a), encode_utf8(b))
}

/// How one key stands to another.
#[derive(Debug, Clone, Copy, PartialEq, Eq)]
pub enum Order {
    Before,
    Same,
    After,
}

/// Nothing comes before itself.
pub proof fn lemma_lex_lt_irreflexive(a: Seq<u8>)
    ensures
        !lex_lt(a, a),
    decreases a.len(),
{
    if a.len() > 0 {
        lemma_lex_lt_irreflexive(a.drop_first());
    }
}

/// The order is transitive.
pub proof fn lemma_lex_lt_transitive(a: Seq<u8>, b: Seq<u8>, c: Seq<u8>)
    requires
        lex_lt(a, b),
        lex_lt(b, c),
    ensures
        lex_lt(a, c),
    decreases a.len(),
{
    if a.len() > 0 && a[0] == b[0] && b[0] == c[0] {
        lemma_lex_lt_transitive(a.drop_first(), b.drop_first(), c.drop_first());
    }
}

/// Of two byte strings that differ, one comes before the other.
pub proof fn lemma_lex_lt_total(a: Seq<u8>, b: Seq<u8>)
    ensures
        a == b || lex_lt(a, b) || lex_lt(b, a),
    decreases a.len(),
{
    if a.len() == 0 || b.len() == 0 {
        if a.len() == 0 && b.len() == 0 {
            assert(a =~= b);
        }
    } else if a[0] == b[0] {
        lemma_lex_lt_total(a.drop_first(), b.drop_first());
        if a.drop_first() == b.drop_first() {
            assert(a =~= seq![a[0]] + a.drop_first());
            assert(b =~= seq![b[0]] + b.drop_first());
        }
    }
}

/// Two byte strings with a common prefix stand to each other as their rests do.
proof fn lemma_lex_lt_common_prefix(a: Seq<u8>, b: Seq<u8>, n: int)
    requires
        0 <= n <= a.len(),
        n <= b.len(),
        forall|j: int| 0 <= j < n ==> a[j] == b[j],
    ensures
        lex_lt(a, b) == lex_lt(a.skip(n), b.skip(n)),
    decreases n,
{
    if n == 0 {
        assert(a.skip(0) =~= a);
        assert(b.skip(0) =~= b);
    } else {
        assert(a[0] == b[0]);
        assert(a.drop_first().skip(n - 1) =~= a.skip(n));
        assert(b.drop_first().skip(n - 1) =~= b.skip(n));
        lemma_lex_lt_common_prefix(a.drop_first(), b.drop_first(), n - 1);
    }
}

/// Texts with the same UTF-8 bytes are the same text.
pub proof fn lemma_encoding_is_injective(a: Seq<char>, b: Seq<char>)
    requires
        encode_utf8(a) == encode_utf8(b),
    ensures
        a == b,
{
    encode_utf8_decode_utf8(a);
    encode_utf8_decode_utf8(b);
}

/// The order of keys is transitive and nothing comes before itself.
pub proof fn lemma_key_lt_is_strict(a: Seq<char>, b: Seq<char>, c: Seq<char>)
    ensures
        !key_lt(a, a),
        key_lt(a, b) && key_lt(b, c) ==> key_lt(a, c),
{
    lemma_lex_lt_irreflexive(encode_utf8(a));
    if key_lt(a, b) && key_lt(b, c) {
        lemma_lex_lt_transitive(encode_utf8(a), encode_utf8(b), encode_utf8(c));
    }
}

/// Of two keys that differ, one comes before the other.
pub proof fn lemma_key_lt_total(a: Seq<char>, b: Seq<char>)
    ensures
        a == b || key_lt(a, b) || key_lt(b, a),
{
    lemma_lex_lt_total(encode_utf8(a), encode_utf8(b));
    if encode_utf8(a) == encode_utf8(b) {
        lemma_encoding_is_injective(a, b);
    }
}

/// Of two ASCII keys that agree in their first `n` characters, the one that
/// ends there, or has the smaller character there, comes first.
pub proof fn lemma_key_lt_ascii(a: Seq<char>, b: Seq<char>, n: int)
    requires
        is_ascii_chars(a),
        is_ascii_chars(b),
        0 <= n <= a.len(),
        n < b.len(),
        forall|j: int| 0 <= j < n ==> a[j] == b[j],
        n == a.len() || a[n] < b[n],
    ensures
        key_lt(a, b),
{
    is_ascii_chars_encode_utf8(a);
    is_ascii_chars_encode_utf8(b);
    let x = encode_utf8(a);
    let y = encode_utf8(b);
    assert forall|j: int| 0 <= j < n implies x[j] == y[j] by {
        assert(a[j] as u8 == x[j] && b[j] as u8 == y[j]);
    }
    lemma_lex_lt_common_prefix(x, y, n);
    assert(y.skip(n)[0] == y[n]);
    if n < a.len() {
        assert(x.skip(n)[0] == x[n]);
        assert(a[n] as u8 == x[n] && b[n] as u8 == y[n]);
    }
}

/// Compares two byte strings.
pub fn order_of_bytes(a: &[u8], b: &[u8]) -> (r: Order)
    ensures
        r == Order::Before <==> lex_lt(a@, b@),
        r == Order::Same <==> a@ == b@,
        r == Order::After <==> lex_lt(b@, a@),
{
    let mut i: usize = 0;
    while i < a.len() && i < b.len() && a[i] == b[i]
        invariant
            i <= a.len(),
            i <= b.len(),
            forall|j: int| 0 <= j < i ==> a@[j] == b@[j],
        decreases a.len() - i,
    {
        i = i + 1;
    }
    proof {
        lemma_lex_lt_common_prefix(a@, b@, i as int);
        lemma_lex_lt_common_prefix(b@, a@, i as int);
        lemma_lex_lt_irreflexive(a@);
        if a@ == b@ {
            assert(i == a.len() && i == b.len());
        }
    }
    if i == a.len() {
        if i == b.len() {
            assert(a@ =~= b@);
            Order::Same
        } else {
            Order::Before
        }
    } else if i == b.len() {
        Order::After
    } else if a[i] < b[i] {
        assert(a@.skip(i as int)[0] == a@[i as int]);
        assert(b@.skip(i as int)[0] == b@[i as int]);
        Order::Before
    } else {
        assert(a@.skip(i as int)[0] == a@[i as int]);
        assert(b@.skip(i as int)[0] == b@[i as int]);
        Order::After
    }
}

/// Compares two keys.
pub fn order_of_keys(a: &str, b: &str) -> (r: Order)
    ensures
        r == Order::Before <==> key_lt(a@, b@),
        r == Order::Same <==> a@ == b@,
        r == Order::After <==> key_lt(b@, a@),
{
    proof {
        if encode_utf8(a@) == encode_utf8(b@) {
            lemma_encoding_is_injective(a@, b@);
        }
    }
    order_of_bytes(a.as_bytes(), b.as_bytes())
}

/// Whether two texts are the same.
pub fn same_text(a: &str, b: &str) -> (r: bool)
    ensures
        r == (a@ == b@),
{
    match order_of_keys(a, b) {
        Order::Same => true,
        _ => false,
    }
}

/// Where a scan of JSON text stands: between tokens, inside a string, or
/// inside a string just after a backslash.
pub enum Scan {
    Outside,
    Inside,
    Escaped,
}

/// The state after one more byte.
pub open spec fn scan_step(state: Scan, byte: u8) -> Scan {
    match state {
        Scan::Outside => if byte == 0x22 { Scan::Inside } else { Scan::Outside },
        Scan::Inside => if byte == 0x5c {
            Scan::Escaped
        } else if byte == 0x22 {
            Scan::Outside
        } else {
            Scan::Inside
        },
        Scan::Escaped => Scan::Inside,
    }
}

/// The state in which the byte at `at` is read: that after the `at` bytes before it.
pub open spec fn scan_state(bytes: Seq<u8>, at: int) -> Scan
    decreases at,
{
    if at <= 0 {
        Scan::Outside
    } else {
        scan_step(scan_state(bytes, at - 1), bytes[at - 1])
    }
}

/// A space, a tab, a line feed or a carriage return.
pub open spec fn is_blank(byte: u8) -> bool {
    byte == 0x20 || byte == 0x09 || byte == 0x0a || byte == 0x0d
}

/// The byte at `at` is whitespace outside every string.
pub open spec fn whitespace_at(bytes: Seq<u8>, at: int) -> bool {
    0 <= at < bytes.len() && scan_state(bytes, at) is Outside && is_blank(bytes[at])
}

/// The place of the first whitespace outside every string, if there is any.
pub open spec fn first_whitespace(bytes: Seq<u8>) -> Option<int> {
    if exists|at: int| whitespace_at(bytes, at) {
        Some(
            choose|at: int|
                whitespace_at(bytes, at) && forall|before: int|
                    0 <= before < at ==> !whitespace_at(bytes, before),
        )
    } else {
        None
    }
}

/// Finds the first whitespace that stands outside every string.
pub fn find_whitespace(bytes: &[u8]) -> (r: Option<usize>)
    ensures
        match r {
            Some(at) => first_whitespace(bytes@) == Some(at as int),
            None => first_whitespace(bytes@) is None,
        },
        r matches Some(at) ==> whitespace_at(bytes@, at as int) && forall|before: int|
            0 <= before < at ==> !whitespace_at(bytes@, before),
        r is None ==> forall|at: int| !whitespace_at(bytes@, at),
{
    let mut state = Scan::Outside;
    let mut i: usize = 0;
    while i < bytes.len()
        invariant
            i <= bytes.len(),
            state == scan_state(bytes@, i as int),
            forall|before: int| 0 <= before < i ==> !whitespace_at(bytes@, before),
        decreases bytes.len() - i,
    {
        let byte = bytes[i];
        match state {
            Scan::Outside => {
                if byte == 0x20 || byte == 0x09 || byte == 0x0a || byte == 0x0d {
                    assert(whitespace_at(bytes@, i as int));
                    return Some(i);
                }
                if byte == 0x22 {
                    state = Scan::Inside;
                }
            },
            Scan::Inside => {
                if byte == 0x5c {
                    state = Scan::Escaped;
                } else if byte == 0x22 {
                    state = Scan::Outside;
                }
            },
            Scan::Escaped => {
                state = Scan::Inside;
            },
        }
        i = i + 1;
    }
    None
}

} // verus!
