use vstd::prelude::*;
use vstd::string::*;

verus! {

/// Decimal digit character for a value below ten.
pub open spec fn dec_digit(d: int) -> char {
    if d == 0 {
        '0'
    } else if d == 1 {
        '1'
    } else if d == 2 {
        '2'
    } else if d == 3 {
        '3'
    } else if d == 4 {
        '4'
    } else if d == 5 {
        '5'
    } else if d == 6 {
        '6'
    } else if d == 7 {
        '7'
    } else if d == 8 {
        '8'
    } else {
        '9'
    }
}

/// Decimal representation of n, most significant digit first, without leading zeros.
pub open spec fn dec_digits(n: nat) -> Seq<char>
    decreases n,
{
    if n < 10 {
        seq![dec_digit(n as int)]
    } else {
        dec_digits(n / 10).push(dec_digit((n % 10) as int))
    }
}

fn digit_str(d: u8) -> (r: &'static str)
    requires
        d < 10,
    ensures
        r@ == seq![dec_digit(d as int)],
{
    proof {
        reveal_strlit("0");
        reveal_strlit("1");
        reveal_strlit("2");
        reveal_strlit("3");
        reveal_strlit("4");
        reveal_strlit("5");
        reveal_strlit("6");
        reveal_strlit("7");
        reveal_strlit("8");
        reveal_strlit("9");
    }
    let r = match d {
        0 => "0",
        1 => "1",
        2 => "2",
        3 => "3",
        4 => "4",
        5 => "5",
        6 => "6",
        7 => "7",
        8 => "8",
        _ => "9",
    };
    proof {
        assert(r@ =~= seq![dec_digit(d as int)]);
    }
    r
}

/// Render a number in decimal.
pub fn u64_dec(n: u64) -> (r: String)
    ensures
        r@ == dec_digits(n as nat),
    decreases n,
{
    if n < 10 {
        String::from_str(digit_str(n as u8))
    } else {
        let mut s = u64_dec(n / 10);
        let d = digit_str((n % 10) as u8);
        s.append(d);
        proof {
            assert(s@ =~= dec_digits(n as nat));
        }
        s
    }
}

/// The characters of a nonempty all-digit string.
pub open spec fn is_dec_string(s: Seq<char>) -> bool {
    s.len() > 0 && forall|i: int| 0 <= i < s.len() ==> '0' <= #[trigger] s[i] <= '9'
}

/// Numeric value of a digit string, most significant digit first.
pub open spec fn dec_val(s: Seq<char>) -> int
    decreases s.len(),
{
    if s.len() == 0 {
        0
    } else {
        dec_val(s.drop_last()) * 10 + ((s.last() as u32) - 48)
    }
}

proof fn lemma_dec_val_nonneg(s: Seq<char>, i: int)
    requires
        0 <= i <= s.len(),
        forall|k: int| 0 <= k < i ==> '0' <= #[trigger] s[k] <= '9',
    ensures
        dec_val(s.subrange(0, i)) >= 0,
    decreases i,
{
    if i > 0 {
        lemma_dec_val_nonneg(s, i - 1);
        assert(s.subrange(0, i).drop_last() =~= s.subrange(0, i - 1));
    }
}

proof fn lemma_dec_val_mono(s: Seq<char>, i: int, j: int)
    requires
        0 <= i <= j <= s.len(),
        forall|k: int| 0 <= k < j ==> '0' <= #[trigger] s[k] <= '9',
    ensures
        dec_val(s.subrange(0, j)) >= dec_val(s.subrange(0, i)),
    decreases j - i,
{
    if i < j {
        lemma_dec_val_mono(s, i, j - 1);
        lemma_dec_val_nonneg(s, j - 1);
        assert(s.subrange(0, j).drop_last() =~= s.subrange(0, j - 1));
    }
}

/// Parse a nonempty all-digit string as a 16-bit port number, as the
/// process configuration requires.
pub fn parse_u16(s: &str) -> (r: Option<u16>)
    ensures
        match r {
            Some(v) => is_dec_string(s@) && dec_val(s@) <= 65535 && v as int == dec_val(s@),
            None => !(is_dec_string(s@) && dec_val(s@) <= 65535),
        },
{
    let n = s.unicode_len();
    if n == 0 {
        return None;
    }
    let mut acc: u32 = 0;
    let mut i: usize = 0;
    while i < n
        invariant
            0 < n == s@.len(),
            0 <= i <= n,
            forall|j: int| 0 <= j < i ==> '0' <= #[trigger] s@[j] <= '9',
            acc as int == dec_val(s@.subrange(0, i as int)),
            acc <= 65535,
        decreases n - i,
    {
        let c = s.get_char(i);
        if c < '0' || c > '9' {
            return None;
        }
        let d = (c as u32) - 48;
        let newacc = acc * 10 + d;
        proof {
            assert(s@.subrange(0, i + 1).drop_last() =~= s@.subrange(0, i as int));
            assert(dec_val(s@.subrange(0, i + 1)) == newacc);
        }
        if newacc > 65535 {
            proof {
                if is_dec_string(s@) {
                    lemma_dec_val_mono(s@, i + 1, n as int);
                    assert(s@.subrange(0, n as int) =~= s@);
                }
            }
            return None;
        }
        acc = newacc;
        i = i + 1;
    }
    proof {
        assert(s@.subrange(0, n as int) =~= s@);
    }
    Some(acc as u16)
}

/// What `String::from_utf8_lossy` returns for the given bytes: a pure
/// function of the byte sequence alone.
pub uninterp spec fn utf8_lossy_of(b: Seq<u8>) -> Seq<char>;

/// Relies on `String::from_utf8_lossy`: decodes bytes as UTF-8, replacing
/// invalid sequences; valid UTF-8 input decodes exactly.
#[verifier::external_body]
pub fn from_utf8_lossy(b: &[u8]) -> (r: String)
    ensures
        r@ == utf8_lossy_of(b@),
        vstd::utf8::valid_utf8(b@) ==> r@ == vstd::utf8::decode_utf8(b@),
{
    String::from_utf8_lossy(b).into_owned()
}

/// Decode the bytes of `data` in `[from, to)` as lossy UTF-8.
pub fn vec_range_text(data: &Vec<u8>, from: usize, to: usize) -> (r: String)
    requires
        from <= to <= data@.len(),
    ensures
        r@ == utf8_lossy_of(data@.subrange(from as int, to as int)),
{
    let sl = vstd::slice::slice_subrange(data.as_slice(), from, to);
    from_utf8_lossy(sl)
}

} // verus!
