use vstd::prelude::*;

verus! {

/// Appends one character to a string.
///
/// Trusted: calls `String::push`, which std documents as appending the given
/// `char` to the end of the `String`.
#[verifier::external_body]
pub(crate) fn push_char(s: &mut String, c: char)
    ensures
        final(s)@ == old(s)@.push(c),
{
    s.push(c);
}

/// The lowercase hexadecimal digit of `n` (below 16).
pub open spec fn hex_digit(n: u8) -> char {
    if n < 10 {
        (48 + n) as char
    } else {
        (87 + n) as char
    }
}

/// How `u8::escape_ascii` writes one byte: `\t`, `\r`, `\n`, `\\`, `\'` and
/// `\"` for those six, printable ASCII as itself, any other byte as `\xNN`.
pub open spec fn escaped_byte(b: u8) -> Seq<char> {
    if b == 9 {
        seq!['\\', 't']
    } else if b == 13 {
        seq!['\\', 'r']
    } else if b == 10 {
        seq!['\\', 'n']
    } else if b == 92 {
        seq!['\\', '\\']
    } else if b == 39 {
        seq!['\\', '\'']
    } else if b == 34 {
        seq!['\\', '"']
    } else if 0x20 <= b <= 0x7e {
        seq![b as char]
    } else {
        seq!['\\', 'x', hex_digit(b / 16), hex_digit(b % 16)]
    }
}

/// The bytes escaped one after the other.
pub open spec fn escaped_bytes(s: Seq<u8>) -> Seq<char>
    decreases s.len(),
{
    if s.len() == 0 {
        Seq::empty()
    } else {
        escaped_bytes(s.drop_last()) + escaped_byte(s.last())
    }
}

/// How `{:?}` writes a C string: its bytes escaped, between double quotes.
pub open spec fn debug_text(s: Seq<u8>) -> Seq<char> {
    seq!['"'] + escaped_bytes(s) + seq!['"']
}

/// The character is printable ASCII (space to `~`).
pub open spec fn is_printable_ascii(c: char) -> bool {
    0x20 <= c as u32 <= 0x7e
}

/// Every character of `s` is printable ASCII.
pub open spec fn all_printable_ascii(s: Seq<char>) -> bool {
    forall|i: int| 0 <= i < s.len() ==> #[trigger] is_printable_ascii(s[i])
}

/// Appends the escape of one byte.
fn push_escaped_byte(out: &mut String, b: u8)
    ensures
        final(out)@ == old(out)@ + escaped_byte(b),
{
    let ghost start = out@;
    if b == 9 {
        push_char(out, '\\');
        push_char(out, 't');
    } else if b == 13 {
        push_char(out, '\\');
        push_char(out, 'r');
    } else if b == 10 {
        push_char(out, '\\');
        push_char(out, 'n');
    } else if b == 92 {
        push_char(out, '\\');
        push_char(out, '\\');
    } else if b == 39 {
        push_char(out, '\\');
        push_char(out, '\'');
    } else if b == 34 {
        push_char(out, '\\');
        push_char(out, '"');
    } else if 0x20 <= b && b <= 0x7e {
        push_char(out, b as char);
    } else {
        push_char(out, '\\');
        push_char(out, 'x');
        let hi = b / 16;
        let lo = b % 16;
        let hc = if hi < 10 { (48 + hi) as char } else { (87 + hi) as char };
        let lc = if lo < 10 { (48 + lo) as char } else { (87 + lo) as char };
        push_char(out, hc);
        push_char(out, lc);
    }
    assert(out@ =~= start + escaped_byte(b));
}

/// Appends `{:?}` of the C string with bytes `bytes` to `out`.
pub fn push_debug_text(out: &mut String, bytes: &[u8])
    ensures
        final(out)@ == old(out)@ + debug_text(bytes@),
{
    let ghost start = out@;
    push_char(out, '"');
    for i in 0..bytes.len()
        invariant
            out@ == start + seq!['"'] + escaped_bytes(bytes@.subrange(0, i as int)),
    {
        let ghost before = out@;
        push_escaped_byte(out, bytes[i]);
        assert(bytes@.subrange(0, i + 1).drop_last() =~= bytes@.subrange(0, i as int));
        assert(out@ =~= start + seq!['"'] + escaped_bytes(bytes@.subrange(0, i + 1)));
    }
    assert(bytes@.subrange(0, bytes@.len() as int) =~= bytes@);
    push_char(out, '"');
    assert(out@ =~= start + debug_text(bytes@));
}

/// The escape of a byte is printable ASCII.
pub proof fn lemma_escaped_byte_printable(b: u8)
    ensures
        all_printable_ascii(escaped_byte(b)),
{
    let e = escaped_byte(b);
    if !(b == 9 || b == 13 || b == 10 || b == 92 || b == 39 || b == 34 || (0x20 <= b <= 0x7e)) {
        let hi = b / 16;
        let lo = b % 16;
        assert(is_printable_ascii(hex_digit(hi)));
        assert(is_printable_ascii(hex_digit(lo)));
    }
    assert forall|i: int| 0 <= i < e.len() implies #[trigger] is_printable_ascii(e[i]) by {}
}

/// Law: `{:?}` of a C string is printable ASCII, so it holds no NUL and can
/// always be made into a C string again.
pub proof fn lemma_debug_text_printable(s: Seq<u8>)
    ensures
        all_printable_ascii(debug_text(s)),
    decreases s.len(),
{
    lemma_escaped_bytes_printable(s);
    let d = debug_text(s);
    let e = escaped_bytes(s);
    assert forall|i: int| 0 <= i < d.len() implies #[trigger] is_printable_ascii(d[i]) by {
        if 1 <= i < d.len() - 1 {
            assert(d[i] == e[i - 1]);
        }
    }
}

proof fn lemma_escaped_bytes_printable(s: Seq<u8>)
    ensures
        all_printable_ascii(escaped_bytes(s)),
    decreases s.len(),
{
    if s.len() > 0 {
        lemma_escaped_bytes_printable(s.drop_last());
        lemma_escaped_byte_printable(s.last());
        let a = escaped_bytes(s.drop_last());
        let b = escaped_byte(s.last());
        let e = escaped_bytes(s);
        assert(e == a + b);
        assert forall|i: int| 0 <= i < e.len() implies #[trigger] is_printable_ascii(e[i]) by {
            if i < a.len() {
                assert(e[i] == a[i]);
            } else {
                assert(e[i] == b[i - a.len()]);
            }
        }
    }
}

/// The byte is printable ASCII other than the backslash and the two quotes.
pub open spec fn is_plain_byte(b: u8) -> bool {
    0x20 <= b <= 0x7e && b != 92 && b != 39 && b != 34
}

/// Law: a printable ASCII byte other than the backslash and the two quotes
/// is written as itself.
pub proof fn lemma_plain_byte_verbatim(b: u8)
    requires
        is_plain_byte(b),
    ensures
        escaped_byte(b) == seq![b as char],
{
}

/// Law: a C string of such bytes (a name of letters, digits, `_`, `-` and the
/// like) is written by `{:?}` as its own characters between double quotes.
pub proof fn lemma_plain_text_verbatim(s: Seq<u8>)
    requires
        forall|i: int| 0 <= i < s.len() ==> is_plain_byte(#[trigger] s[i]),
    ensures
        escaped_bytes(s) == s.map_values(|b: u8| b as char),
        debug_text(s) == seq!['"'] + s.map_values(|b: u8| b as char) + seq!['"'],
    decreases s.len(),
{
    if s.len() > 0 {
        let d = s.drop_last();
        assert forall|i: int| 0 <= i < d.len() implies is_plain_byte(#[trigger] d[i]) by {
            assert(d[i] == s[i]);
        }
        lemma_plain_text_verbatim(d);
        assert(is_plain_byte(s[s.len() - 1]));
        lemma_plain_byte_verbatim(s.last());
        assert(escaped_bytes(s) =~= s.map_values(|b: u8| b as char));
    } else {
        assert(escaped_bytes(s) =~= s.map_values(|b: u8| b as char));
    }
}

} // verus!
