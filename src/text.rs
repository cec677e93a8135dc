use vstd::prelude::*;
use vstd::string::StringSliceAdditionalSpecFns;
use vstd::utf8::{encode_utf8, is_char_boundary};

verus! {

/// The decimal digit character for `d` (`0 <= d < 10`).
pub open spec fn digit_char(d: int) -> char {
    if d == 0 {
        '0'
    } else if d == 1 {
        '1'
    } else if d == 2 {
        '2'
    } else if d == 3 {
        '3'
    } else if d == 4 {
        '4'
    } else if d == 5 {
        '5'
    } else if d == 6 {
        '6'
    } else if d == 7 {
        '7'
    } else if d == 8 {
        '8'
    } else {
        '9'
    }
}

/// Decimal text of a natural number, most significant digit first, no leading zeros.
pub open spec fn nat_text(n: nat) -> Seq<char>
    decreases n,
{
    if n < 10 {
        seq![digit_char(n as int)]
    } else {
        nat_text(n / 10) + seq![digit_char((n % 10) as int)]
    }
}

/// Decimal text of an integer, with a leading `-` when it is negative.
pub open spec fn int_text(n: int) -> Seq<char> {
    if n < 0 {
        seq!['-'] + nat_text((-n) as nat)
    } else {
        nat_text(n as nat)
    }
}

fn digit_str(d: u64) -> (r: &'static str)
    requires
        d < 10,
    ensures
        r@ == seq![digit_char(d as int)],
{
    proof {
        reveal_strlit("0");
        reveal_strlit("1");
        reveal_strlit("2");
        reveal_strlit("3");
        reveal_strlit("4");
        reveal_strlit("5");
        reveal_strlit("6");
        reveal_strlit("7");
        reveal_strlit("8");
        reveal_strlit("9");
    }
    if d == 0 {
        "0"
    } else if d == 1 {
        "1"
    } else if d == 2 {
        "2"
    } else if d == 3 {
        "3"
    } else if d == 4 {
        "4"
    } else if d == 5 {
        "5"
    } else if d == 6 {
        "6"
    } else if d == 7 {
        "7"
    } else if d == 8 {
        "8"
    } else {
        "9"
    }
}

fn append_nat_text(out: &mut String, n: u64)
    ensures
        final(out)@ == old(out)@ + nat_text(n as nat),
    decreases n,
{
    if n >= 10 {
        append_nat_text(out, n / 10);
    }
    out.append(digit_str(n % 10));
    proof {
        assert(old(out)@ + nat_text(n as nat) =~= final(out)@) by {
            if n >= 10 {
                assert(nat_text(n as nat) == nat_text((n / 10) as nat) + seq![digit_char((n % 10) as int)]);
            }
        }
    }
}

/// Appends the decimal text of `n` to `out`.
pub fn append_int_text(out: &mut String, n: i64)
    ensures
        final(out)@ == old(out)@ + int_text(n as int),
{
    if n < 0 {
        proof {
            reveal_strlit("-");
        }
        out.append("-");
        let magnitude: u64 = ((0 - (n + 1)) as u64) + 1;
        append_nat_text(out, magnitude);
        assert(final(out)@ =~= old(out)@ + int_text(n as int));
    } else {
        append_nat_text(out, n as u64);
    }
}

/// The decimal text of `n`, as `i64::to_string` writes it.
pub fn int_to_text(n: i64) -> (r: String)
    ensures
        r@ == int_text(n as int),
{
    let mut out = String::new();
    append_int_text(&mut out, n);
    assert(out@ =~= int_text(n as int));
    out
}

/// The UTF-8 bytes of a text shortened for display: the first `max_len`
/// bytes, followed by `...` when anything was cut; all of them when the
/// text is short enough.
pub open spec fn truncated_bytes(bytes: Seq<u8>, max_len: nat) -> Seq<u8> {
    if bytes.len() <= max_len {
        bytes
    } else {
        bytes.subrange(0, max_len as int) + encode_utf8("..."@)
    }
}

proof fn lemma_encode_utf8_concat(a: Seq<char>, b: Seq<char>)
    ensures
        encode_utf8(a + b) == encode_utf8(a) + encode_utf8(b),
    decreases a.len(),
{
    if a.len() == 0 {
        assert(a + b =~= b);
        assert(encode_utf8(a) + encode_utf8(b) =~= encode_utf8(b));
    } else {
        assert((a + b).drop_first() =~= a.drop_first() + b);
        assert((a + b)[0] == a[0]);
        lemma_encode_utf8_concat(a.drop_first(), b);
        assert(encode_utf8(a + b) =~= encode_utf8(a) + encode_utf8(b));
    }
}

/// Shortens a text for display: at most `max_len` bytes of it are kept,
/// and an ellipsis marks a cut. A cut must fall between two characters.
pub fn truncate(s: &str, max_len: usize) -> (r: String)
    requires
        s.spec_bytes().len() > max_len ==> is_char_boundary(s.spec_bytes(), max_len as int),
    ensures
        encode_utf8(r@) == truncated_bytes(s.spec_bytes(), max_len as nat),
{
    let n = s.as_bytes().len();
    if n <= max_len {
        assert(s.spec_bytes().len() <= max_len);
        String::from_str(s)
    } else {
        let (head, _) = s.split_at(max_len);
        let r = String::from_str(head).concat("...");
        proof {
            lemma_encode_utf8_concat(head@, "..."@);
            assert(r@ == head@ + "..."@);
            assert(head.spec_bytes() == encode_utf8(head@));
            assert(encode_utf8(head@) == s.spec_bytes().subrange(0, max_len as int));
        }
        r
    }
}

/// `s` without the `/` characters at its end.
pub open spec fn trim_end_slashes(s: Seq<char>) -> Seq<char>
    decreases s.len(),
{
    if s.len() > 0 && s.last() == '/' {
        trim_end_slashes(s.drop_last())
    } else {
        s
    }
}

/// `s` without the `/` characters at its start.
pub open spec fn trim_start_slashes(s: Seq<char>) -> Seq<char>
    decreases s.len(),
{
    if s.len() > 0 && s[0] == '/' {
        trim_start_slashes(s.drop_first())
    } else {
        s
    }
}

/// The address of `path` under `base`: exactly one `/` between them.
pub open spec fn join_url(base: Seq<char>, path: Seq<char>) -> Seq<char> {
    trim_end_slashes(base) + seq!['/'] + trim_start_slashes(path)
}

/// Joins a base address and a path with exactly one `/` between them.
pub fn join_url_text(base: &str, path: &str) -> (r: String)
    ensures
        r@ == join_url(base@, path@),
{
    let mut end = base.unicode_len();
    assert(base@.subrange(0, end as int) =~= base@);
    while end > 0 && base.get_char(end - 1) == '/'
        invariant
            end <= base@.len(),
            trim_end_slashes(base@) == trim_end_slashes(base@.subrange(0, end as int)),
        decreases end,
    {
        assert(base@.subrange(0, end as int).drop_last() =~= base@.subrange(0, end - 1));
        end = end - 1;
    }
    let len = path.unicode_len();
    let mut start: usize = 0;
    assert(path@.subrange(0, len as int) =~= path@);
    while start < len && path.get_char(start) == '/'
        invariant
            start <= len,
            len == path@.len(),
            trim_start_slashes(path@) == trim_start_slashes(path@.subrange(start as int, len as int)),
        decreases len - start,
    {
        assert(path@.subrange(start as int, len as int).drop_first() =~= path@.subrange(
            start + 1,
            len as int,
        ));
        start = start + 1;
    }
    let mut out = String::from_str(base.substring_char(0, end));
    proof {
        reveal_strlit("/");
    }
    out.append("/");
    out.append(path.substring_char(start, len));
    assert(out@ =~= join_url(base@, path@));
    out
}

} // verus!
