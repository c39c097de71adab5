//! ASCII text handling for the wire protocol: decimal rendering of small
//! integers, whitespace trimming of response lines, decimal integer parsing
//! with the silent zero fallback, and the `Token` type for command arguments.
use vstd::prelude::*;
use vstd::string::StrSliceExecFns;
use vstd::string::StringSliceAdditionalSpecFns;

verus! {

/// The character a single byte turns into when a response line is
/// accumulated one byte at a time.
pub open spec fn byte_char(b: u8) -> char {
    b as char
}

/// The characters of a whole byte sequence, in order.
pub open spec fn chars_of_bytes(bs: Seq<u8>) -> Seq<char> {
    bs.map_values(|b: u8| b as char)
}

/// Whether `c` is trimmed from the ends of a response line. Response bytes
/// are turned into characters below U+0100; on that range this predicate
/// agrees with Rust's `char::is_whitespace`, which `str::trim` uses.
pub open spec fn is_line_ws(c: char) -> bool {
    c as u32 == 9 || c as u32 == 10 || c as u32 == 11 || c as u32 == 12 || c as u32 == 13
        || c as u32 == 32 || c as u32 == 0x85 || c as u32 == 0xa0
}

/// `s` without its leading whitespace.
pub open spec fn trim_front(s: Seq<char>) -> Seq<char>
    decreases s.len(),
{
    if s.len() > 0 && is_line_ws(s[0]) {
        trim_front(s.drop_first())
    } else {
        s
    }
}

/// `s` without its trailing whitespace.
pub open spec fn trim_back(s: Seq<char>) -> Seq<char>
    decreases s.len(),
{
    if s.len() > 0 && is_line_ws(s.last()) {
        trim_back(s.drop_last())
    } else {
        s
    }
}

/// `s` without leading and trailing whitespace.
pub open spec fn trimmed(s: Seq<char>) -> Seq<char> {
    trim_back(trim_front(s))
}

proof fn lemma_trim_front_is_skip(s: Seq<char>, k: int)
    requires
        0 <= k <= s.len(),
        forall|j: int| 0 <= j < k ==> is_line_ws(s[j]),
        k < s.len() ==> !is_line_ws(s[k]),
    ensures
        trim_front(s) == s.skip(k),
    decreases k,
{
    if k == 0 {
        assert(s.skip(0) =~= s);
    } else {
        assert(is_line_ws(s[0]));
        let t = s.drop_first();
        assert(t =~= s.skip(1));
        lemma_trim_front_is_skip(t, k - 1);
        assert(t.skip(k - 1) =~= s.skip(k));
    }
}

proof fn lemma_trim_back_is_take(s: Seq<char>, k: int)
    requires
        0 <= k <= s.len(),
        forall|j: int| k <= j < s.len() ==> is_line_ws(s[j]),
        k > 0 ==> !is_line_ws(s[k - 1]),
    ensures
        trim_back(s) == s.take(k),
    decreases s.len(),
{
    if k == s.len() {
        if k > 0 {
            assert(s.take(k) =~= s);
        } else {
            assert(s.take(0) =~= s);
        }
    } else {
        assert(is_line_ws(s.last()));
        let t = s.drop_last();
        lemma_trim_back_is_take(t, k);
        assert(t.take(k) =~= s.take(k));
    }
}

fn is_line_ws_exec(c: char) -> (b: bool)
    ensures
        b == is_line_ws(c),
{
    let u = c as u32;
    u == 9 || u == 10 || u == 11 || u == 12 || u == 13 || u == 32 || u == 0x85 || u == 0xa0
}

/// A copy of `s` with surrounding whitespace removed, exactly as `str::trim`
/// removes it.
pub fn trim_line(s: &str) -> (r: String)
    ensures
        r@ == trimmed(s@),
{
    let n = s.unicode_len();
    let mut start: usize = 0;
    while start < n && is_line_ws_exec(s.get_char(start))
        invariant
            0 <= start <= n,
            n == s@.len(),
            forall|j: int| 0 <= j < start ==> is_line_ws(s@[j]),
        decreases n - start,
    {
        start = start + 1;
    }
    let mut end: usize = n;
    while end > start && is_line_ws_exec(s.get_char(end - 1))
        invariant
            start <= end <= n,
            n == s@.len(),
            forall|j: int| end <= j < n ==> is_line_ws(s@[j]),
        decreases end,
    {
        end = end - 1;
    }
    proof {
        lemma_trim_front_is_skip(s@, start as int);
        let t = s@.skip(start as int);
        assert(forall|j: int|
            end - start <= j < t.len() ==> is_line_ws(#[trigger] t[j]));
        lemma_trim_back_is_take(t, end - start);
        assert(t.take(end - start) =~= s@.subrange(start as int, end as int));
    }
    let piece = s.substring_char(start, end);
    piece.to_owned()
}

/// Relies on `String::push`: appends exactly the given character.
pub assume_specification[ String::push ](s: &mut String, c: char)
    ensures
        final(s)@ == old(s)@ + seq![c],
;

/// Whether `c` is an ASCII decimal digit.
pub open spec fn is_dec_digit(c: char) -> bool {
    48 <= c as u32 && c as u32 <= 57
}

/// The numeric value of a digit character.
pub open spec fn dec_digit_val(c: char) -> int {
    c as u32 - 48
}

pub open spec fn all_dec_digits(s: Seq<char>) -> bool {
    forall|j: int| 0 <= j < s.len() ==> is_dec_digit(#[trigger] s[j])
}

/// The value of a digit string read left to right.
pub open spec fn digits_val(s: Seq<char>) -> int
    decreases s.len(),
{
    if s.len() == 0 {
        0
    } else {
        digits_val(s.drop_last()) * 10 + dec_digit_val(s.last())
    }
}

/// Whether `c` is the minus or the plus sign.
pub open spec fn is_minus(c: char) -> bool {
    c as u32 == 45
}

pub open spec fn is_plus(c: char) -> bool {
    c as u32 == 43
}

/// What `str::parse::<i32>` accepts: an optional single sign, then one or
/// more decimal digits, whose value must fit in an `i32`.
pub open spec fn parse_i32_chars(s: Seq<char>) -> Option<i32> {
    let neg = s.len() > 0 && is_minus(s[0]);
    let ds = if s.len() > 0 && (is_minus(s[0]) || is_plus(s[0])) {
        s.drop_first()
    } else {
        s
    };
    if ds.len() == 0 || !all_dec_digits(ds) {
        None
    } else {
        let m = if neg {
            -digits_val(ds)
        } else {
            digits_val(ds)
        };
        if i32::MIN <= m <= i32::MAX {
            Some(m as i32)
        } else {
            None
        }
    }
}

/// The silent fallback policy: an unparseable response counts as zero.
pub open spec fn parse_or_zero(s: Seq<char>) -> i32 {
    match parse_i32_chars(s) {
        Some(v) => v,
        None => 0,
    }
}

proof fn lemma_digits_val_nonneg(s: Seq<char>)
    requires
        all_dec_digits(s),
    ensures
        digits_val(s) >= 0,
    decreases s.len(),
{
    if s.len() > 0 {
        let t = s.drop_last();
        assert(forall|j: int| 0 <= j < t.len() ==> is_dec_digit(#[trigger] t[j]));
        lemma_digits_val_nonneg(t);
        assert(is_dec_digit(s.last()));
    }
}

proof fn lemma_digits_val_prefix(s: Seq<char>, m: int)
    requires
        0 <= m <= s.len(),
        all_dec_digits(s),
    ensures
        digits_val(s.take(m)) <= digits_val(s),
    decreases s.len(),
{
    if m == s.len() {
        assert(s.take(m) =~= s);
    } else {
        let t = s.drop_last();
        assert(forall|j: int| 0 <= j < t.len() ==> is_dec_digit(#[trigger] t[j]));
        lemma_digits_val_prefix(t, m);
        lemma_digits_val_nonneg(t);
        assert(is_dec_digit(s.last()));
        assert(t.take(m) =~= s.take(m));
        assert(digits_val(s) == digits_val(t) * 10 + dec_digit_val(s.last()));
        assert(digits_val(t) * 10 >= digits_val(t)) by {
            lemma_digits_val_nonneg(t);
        }
    }
}

/// Parses a trimmed response as an `i32` the way `str::parse` does, with
/// the protocol's fallback: anything unparseable is reported as zero.
#[verifier::loop_isolation(false)]
pub fn parse_i32_or_zero(s: &str) -> (r: i32)
    ensures
        r == parse_or_zero(s@),
{
    let n = s.unicode_len();
    if n == 0 {
        return 0;
    }
    let first = s.get_char(0);
    let u0 = first as u32;
    let neg = u0 == 45;
    let start: usize = if u0 == 45 || u0 == 43 {
        1
    } else {
        0
    };
    let ghost ds = if start == 1 {
        s@.drop_first()
    } else {
        s@
    };
    proof {
        if start == 1 {
            assert(ds =~= s@.skip(1));
        } else {
            assert(ds =~= s@.skip(0));
        }
    }
    if start >= n {
        return 0;
    }
    let limit: u64 = if neg {
        2147483648
    } else {
        2147483647
    };
    let mut acc: u64 = 0;
    let mut i: usize = start;
    while i < n
        invariant
            start <= i <= n,
            n == s@.len(),
            start == 0 || start == 1,
            start == 1 ==> n >= 1,
            ds == s@.skip(start as int),
            acc <= limit,
            limit == 2147483647 || limit == 2147483648,
            acc == digits_val(ds.take(i - start)),
            forall|j: int| 0 <= j < i - start ==> is_dec_digit(#[trigger] ds[j]),
        decreases n - i,
    {
        let c = s.get_char(i);
        let u = c as u32;
        proof {
            assert(ds[i - start] == s@[i as int]);
        }
        if !(48 <= u && u <= 57) {
            proof {
                assert(!is_dec_digit(ds[i - start]));
                assert(!all_dec_digits(ds));
            }
            return 0;
        }
        let d: u64 = (u - 48) as u64;
        let next: u64 = acc * 10 + d;
        proof {
            let m = i - start;
            assert(ds.take(m + 1).drop_last() =~= ds.take(m));
            assert(ds.take(m + 1).last() == ds[m]);
            assert(digits_val(ds.take(m + 1)) == digits_val(ds.take(m)) * 10 + dec_digit_val(ds[m]));
        }
        if next > limit {
            proof {
                if all_dec_digits(ds) {
                    lemma_digits_val_prefix(ds, i - start + 1);
                    assert(digits_val(ds) >= next > limit);
                }
            }
            return 0;
        }
        acc = next;
        i = i + 1;
    }
    proof {
        assert(ds.take(n - start) =~= ds);
        assert(all_dec_digits(ds));
        assert(digits_val(ds) == acc);
    }
    if neg {
        if acc == 2147483648 {
            i32::MIN
        } else {
            -(acc as i32)
        }
    } else {
        acc as i32
    }
}

/// The decimal rendering of a nonnegative integer, most significant digit
/// first, as `u8` formatting writes it.
pub open spec fn dec_rep(n: int) -> Seq<u8>
    decreases n,
{
    if n < 10 {
        seq![(48 + n) as u8]
    } else {
        dec_rep(n / 10) + seq![(48 + n % 10) as u8]
    }
}

/// Renders a byte-sized integer in decimal.
pub fn fmt_u8(n: u8) -> (v: Vec<u8>)
    ensures
        v@ == dec_rep(n as int),
{
    let mut v: Vec<u8> = Vec::new();
    if n >= 100 {
        v.push(48 + n / 100);
    }
    if n >= 10 {
        v.push(48 + (n / 10) % 10);
    }
    v.push(48 + n % 10);
    proof {
        let m = n as int;
        if m < 10 {
            assert(v@ =~= dec_rep(m));
        } else if m < 100 {
            assert(m / 10 < 10);
            assert(dec_rep(m) == dec_rep(m / 10) + seq![(48 + m % 10) as u8]);
            assert(v@ =~= dec_rep(m));
        } else {
            assert(m / 10 >= 10);
            assert(m / 10 < 100);
            assert(m / 10 / 10 == m / 100);
            assert(dec_rep(m) == dec_rep(m / 10) + seq![(48 + m % 10) as u8]);
            assert(dec_rep(m / 10) == dec_rep(m / 10 / 10) + seq![(48 + (m / 10) % 10) as u8]);
            assert(m / 100 < 10);
            assert(v@ =~= dec_rep(m));
        }
    }
    v
}

/// Appends a copy of `src` to `dst`.
pub fn extend_bytes(dst: &mut Vec<u8>, src: &Vec<u8>)
    ensures
        final(dst)@ == old(dst)@ + src@,
{
    let mut i: usize = 0;
    while i < src.len()
        invariant
            i <= src.len(),
            dst@ == old(dst)@ + src@.take(i as int),
        decreases src.len() - i,
    {
        dst.push(src[i]);
        proof {
            assert(old(dst)@ + src@.take(i as int) + seq![src@[i as int]] =~= old(dst)@ + src@.take(
                i as int + 1,
            ));
        }
        i = i + 1;
    }
    proof {
        assert(old(dst)@ + src@.take(src@.len() as int) =~= old(dst)@ + src@);
    }
}

/// Whether a byte may stand in a command argument: printable ASCII with no
/// whitespace, so an argument can neither split a command field nor end the
/// line early.
pub open spec fn is_arg_byte(b: u8) -> bool {
    33 <= b <= 126
}

/// What a well-formed argument looks like: at least one byte, all of them
/// printable, none of them whitespace.
pub open spec fn arg_bytes_ok(bs: Seq<u8>) -> bool {
    bs.len() > 0 && forall|i: int| 0 <= i < bs.len() ==> is_arg_byte(#[trigger] bs[i])
}

/// One space-free ASCII field of a command line: a rendered number or a
/// property path. Keeping arguments in this form lets every command writer
/// promise the exact bytes that go on the wire.
pub struct Token {
    bytes: Vec<u8>,
}

impl View for Token {
    type V = Seq<u8>;

    closed spec fn view(&self) -> Seq<u8> {
        self.bytes@
    }
}

impl Token {
    /// A token is well formed when its bytes could come from rendering a
    /// number or naming a property: nonempty, printable, whitespace-free.
    pub open spec fn wf(&self) -> bool {
        arg_bytes_ok(self@)
    }

    /// The token the protocol substitutes for an omitted argument.
    pub fn zero() -> (t: Token)
        ensures
            t@ == seq![48u8],
            t.wf(),
    {
        let mut bytes: Vec<u8> = Vec::new();
        bytes.push(48);
        proof {
            assert(bytes@ =~= seq![48u8]);
        }
        Token { bytes }
    }

    /// Accepts `s` as an argument when every character is printable ASCII
    /// and there is at least one; rejects anything that would break the
    /// line framing.
    pub fn from_text(s: &str) -> (r: Option<Token>)
        ensures
            match r {
                Some(t) => t@ == s.spec_bytes() && t.wf(),
                None => !arg_bytes_ok(s.spec_bytes()),
            },
    {
        let bytes = s.as_bytes_vec();
        if bytes.len() == 0 {
            return None;
        }
        let mut i: usize = 0;
        while i < bytes.len()
            invariant
                i <= bytes.len(),
                bytes@ == s.spec_bytes(),
                forall|j: int| 0 <= j < i ==> is_arg_byte(#[trigger] bytes@[j]),
            decreases bytes.len() - i,
        {
            let b = bytes[i];
            if !(33 <= b && b <= 126) {
                return None;
            }
            i = i + 1;
        }
        Some(Token { bytes })
    }

    /// The token's bytes, as they will appear on the wire.
    pub fn as_bytes(&self) -> (r: &Vec<u8>)
        ensures
            r@ == self@,
    {
        &self.bytes
    }
}

} // verus!
