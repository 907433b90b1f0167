use vstd::prelude::*;

verus! {

/// The byte is an ASCII decimal digit.
pub open spec fn is_digit(b: u8) -> bool {
    48 <= b <= 57
}

/// Every byte of `s` is an ASCII decimal digit.
pub open spec fn all_digits(s: Seq<u8>) -> bool {
    forall|i: int| 0 <= i < s.len() ==> #[trigger] is_digit(s[i])
}

/// The number that a string of decimal digits denotes.
pub open spec fn digits_value(s: Seq<u8>) -> int
    decreases s.len(),
{
    if s.len() == 0 {
        0
    } else {
        digits_value(s.drop_last()) * 10 + (s.last() - 48)
    }
}

/// The decimal digits of `n`, most significant first, without leading zeros.
pub open spec fn decimal_digits(n: nat) -> Seq<u8>
    decreases n,
{
    if n < 10 {
        seq![(48 + n) as u8]
    } else {
        decimal_digits(n / 10).push((48 + n % 10) as u8)
    }
}

/// The decimal text of an integer, with a leading `-` when it is negative.
pub open spec fn decimal_text(v: int) -> Seq<u8> {
    if v < 0 {
        seq![45u8] + decimal_digits((-v) as nat)
    } else {
        decimal_digits(v as nat)
    }
}

/// What reading `s` as a decimal `i32` gives: an optional sign (`+` or `-`),
/// then one or more ASCII digits, denoting a value in the range of `i32`.
pub open spec fn parsed_i32(s: Seq<u8>) -> Option<i32> {
    let neg = s.len() > 0 && s[0] == 45u8;
    let signed = s.len() > 0 && (s[0] == 45u8 || s[0] == 43u8);
    let ds = if signed { s.drop_first() } else { s };
    let v = if neg { -digits_value(ds) } else { digits_value(ds) };
    if ds.len() == 0 || !all_digits(ds) || v < i32::MIN || v > i32::MAX {
        None
    } else {
        Some(v as i32)
    }
}

/// Reads a file descriptor number from the text of a widget argument, as
/// `str::parse::<RawFd>` reads it (bytes that are not UTF-8 are not digits,
/// so they make it fail as they do there).
pub fn parse_fd(s: &[u8]) -> (res: Option<i32>)
    ensures
        res == parsed_i32(s@),
{
    let len = s.len();
    if len == 0 {
        return None;
    }
    let neg = s[0] == 45u8;
    let start: usize = if s[0] == 45u8 || s[0] == 43u8 {
        1
    } else {
        0
    };
    let ghost ds = if start == 1 {
        s@.drop_first()
    } else {
        s@
    };
    assert(ds =~= s@.subrange(start as int, len as int));
    if start == len {
        return None;
    }
    // The value of the digits read so far, capped just above the largest magnitude.
    let cap: i64 = 0x8000_0001;
    let mut acc: i64 = 0;
    let mut i: usize = start;
    while i < len
        invariant
            start <= i <= len,
            len == s@.len(),
            len > 0,
            start == (if s@[0] == 45u8 || s@[0] == 43u8 { 1usize } else { 0usize }),
            neg == (s@[0] == 45u8),
            ds == (if start == 1 { s@.drop_first() } else { s@ }),
            ds =~= s@.subrange(start as int, len as int),
            all_digits(s@.subrange(start as int, i as int)),
            acc == if digits_value(s@.subrange(start as int, i as int)) < cap {
                digits_value(s@.subrange(start as int, i as int))
            } else {
                cap as int
            },
            0 <= acc <= cap,
            cap == 0x8000_0001,
        decreases len - i,
    {
        let b = s[i];
        if b < 48 || b > 57 {
            assert(ds[i - start] == s@[i as int]);
            assert(!is_digit(ds[i - start]));
            assert(!all_digits(ds));
            return None;
        }
        let ghost pre = s@.subrange(start as int, i as int);
        let ghost post = s@.subrange(start as int, i + 1);
        assert(post.drop_last() =~= pre);
        assert(digits_value(pre) >= 0) by {
            lemma_digits_value_nonneg(pre);
        }
        let next = acc * 10 + (b - 48) as i64;
        acc = if next < cap {
            next
        } else {
            cap
        };
        i = i + 1;
        assert forall|k: int| 0 <= k < post.len() implies #[trigger] is_digit(post[k]) by {
            if k < pre.len() {
                assert(post[k] == pre[k]);
            }
        }
    }
    assert(s@.subrange(start as int, len as int) =~= ds);
    let mag = acc;
    if neg {
        if mag > 0x8000_0000 {
            None
        } else {
            Some((-mag) as i32)
        }
    } else {
        if mag > 0x7fff_ffff {
            None
        } else {
            Some(mag as i32)
        }
    }
}

/// Appends the decimal digits of `n` to `out`.
fn push_decimal_digits(n: u64, out: &mut Vec<u8>)
    ensures
        final(out)@ == old(out)@ + decimal_digits(n as nat),
    decreases n,
{
    if n >= 10 {
        push_decimal_digits(n / 10, out);
    }
    out.push((48 + n % 10) as u8);
    proof {
        if n >= 10 {
            assert(decimal_digits(n as nat) == decimal_digits((n / 10) as nat).push((48 + n % 10) as u8));
        }
    }
}

/// The decimal text of a file descriptor number, as `i32::to_string` writes it.
pub fn format_fd(fd: i32) -> (text: Vec<u8>)
    ensures
        text@ == decimal_text(fd as int),
{
    let mut out: Vec<u8> = Vec::new();
    if fd < 0 {
        out.push(45u8);
        let mag: u64 = (-(fd as i64)) as u64;
        push_decimal_digits(mag, &mut out);
    } else {
        push_decimal_digits(fd as u64, &mut out);
    }
    assert(out@ =~= decimal_text(fd as int));
    out
}

/// Number of option letters in zsh's `struct options` (`MAX_OPS`).
pub const MAX_OPS: usize = 128;

/// The option table of `zle -w -F`: the options `w` and `F` are on, no other.
pub open spec fn zle_fd_option_table() -> Seq<u8> {
    Seq::new(MAX_OPS as nat, |i: int| if i == 119 || i == 70 { 1u8 } else { 0u8 })
}

/// The option table that `bind_filedesc` hands to zsh's `bin_zle`, so that it
/// runs as `zle -w -F fd widget`: a widget is called when `fd` is readable.
pub fn zle_fd_option_flags() -> (ind: Vec<u8>)
    ensures
        ind@ == zle_fd_option_table(),
{
    let mut ind: Vec<u8> = Vec::new();
    for i in 0..MAX_OPS
        invariant
            ind@.len() == i,
            forall|j: int| 0 <= j < i ==> #[trigger] ind@[j] == zle_fd_option_table()[j],
    {
        if i == 119 || i == 70 {
            ind.push(1u8);
        } else {
            ind.push(0u8);
        }
    }
    assert(ind@ =~= zle_fd_option_table());
    ind
}

/// The decimal digits of a number are digits, and denote it.
pub proof fn lemma_decimal_digits(n: nat)
    ensures
        all_digits(decimal_digits(n)),
        digits_value(decimal_digits(n)) == n,
        decimal_digits(n).len() > 0,
        decimal_digits(n)[0] != 45u8,
        decimal_digits(n)[0] != 43u8,
    decreases n,
{
    let d = decimal_digits(n);
    if n >= 10 {
        lemma_decimal_digits(n / 10);
        let p = decimal_digits(n / 10);
        assert(d.drop_last() =~= p);
        assert forall|i: int| 0 <= i < d.len() implies #[trigger] is_digit(d[i]) by {
            if i < p.len() {
                assert(d[i] == p[i]);
            }
        }
        assert(d[0] == p[0]);
        assert(d.last() == 48 + n % 10);
        assert(digits_value(d) == digits_value(p) * 10 + (d.last() - 48));
        assert((n / 10) * 10 + n % 10 == n);
    } else {
        assert(d.drop_last() =~= Seq::<u8>::empty());
        assert(d.last() == 48 + n);
        assert(digits_value(d) == digits_value(d.drop_last()) * 10 + (d.last() - 48));
    }
}

/// Law: reading back the text that `format_fd` writes for a descriptor gives
/// that descriptor (the number given to a widget by `zle -F` is the one the
/// widget finds in its first argument).
pub proof fn lemma_fd_text_round_trip(fd: i32)
    ensures
        parsed_i32(decimal_text(fd as int)) == Some(fd),
{
    if fd < 0 {
        let m = (-(fd as int)) as nat;
        lemma_decimal_digits(m);
        let t = decimal_text(fd as int);
        assert(t.drop_first() =~= decimal_digits(m));
    } else {
        lemma_decimal_digits(fd as nat);
    }
}

/// The value of a digit string is never negative.
pub proof fn lemma_digits_value_nonneg(s: Seq<u8>)
    requires
        all_digits(s),
    ensures
        digits_value(s) >= 0,
    decreases s.len(),
{
    if s.len() > 0 {
        assert(is_digit(s[s.len() - 1]));
        lemma_digits_value_nonneg(s.drop_last());
    }
}

} // verus!
