//! Fresh symbol names: a prefix, a dot, and a counter written in base 62.
use vstd::prelude::*;
use vstd::string::StrSliceExecFns;
use vstd::string::StringExecFns;

verus! {

/// The base in which generated names write their counter: digits and
/// letters only.
pub const ALPHANUMERIC_ONLY: u64 = 62;

/// The digits of bases up to 64, in order.
pub open spec fn base_64_digits() -> Seq<char> {
    seq![
        '0', '1', '2', '3', '4', '5', '6', '7', '8', '9',
        'a', 'b', 'c', 'd', 'e', 'f', 'g', 'h', 'i', 'j', 'k', 'l', 'm',
        'n', 'o', 'p', 'q', 'r', 's', 't', 'u', 'v', 'w', 'x', 'y', 'z',
        'A', 'B', 'C', 'D', 'E', 'F', 'G', 'H', 'I', 'J', 'K', 'L', 'M',
        'N', 'O', 'P', 'Q', 'R', 'S', 'T', 'U', 'V', 'W', 'X', 'Y', 'Z',
        '@', '$',
    ]
}

/// The value of a digit character of `base_64_digits`.
pub open spec fn digit_value(c: char) -> int {
    let x = c as int;
    if 48 <= x < 58 {
        x - 48
    } else if 97 <= x < 123 {
        x - 97 + 10
    } else if 65 <= x < 91 {
        x - 65 + 36
    } else if c == '@' {
        62
    } else {
        63
    }
}

/// The value of a sequence of digit characters, most significant first.
pub open spec fn digits_value(s: Seq<char>, base: int) -> int
    decreases s.len(),
{
    if s.len() == 0 {
        0
    } else {
        digits_value(s.drop_last(), base) * base + digit_value(s.last())
    }
}

spec fn digit_char(d: int) -> char {
    if d < 10 {
        (d + 48) as char
    } else if d < 36 {
        (d - 10 + 97) as char
    } else if d < 62 {
        (d - 36 + 65) as char
    } else if d == 62 {
        '@'
    } else {
        '$'
    }
}

/// Each digit character stands for its position.
pub proof fn lemma_digit_value(d: int)
    requires
        0 <= d < 64,
    ensures
        digit_value(base_64_digits()[d]) == d,
{
    assert(base_64_digits() =~= Seq::new(64, |i: int| digit_char(i)));
}

/// Reading `n` written in `base` gives `n` back.
pub proof fn lemma_in_base_value(n: nat, base: nat)
    requires
        2 <= base <= 64,
    ensures
        digits_value(in_base(n, base), base as int) == n,
    decreases n,
{
    let s = in_base(n, base);
    if n < base {
        lemma_digit_value(n as int);
        assert(s.drop_last() =~= Seq::<char>::empty());
        assert(digits_value(s.drop_last(), base as int) == 0);
        assert(digits_value(s, base as int) == digits_value(s.drop_last(), base as int) * base
            + digit_value(s.last()));
    } else {
        lemma_div_smaller(n, base);
        lemma_in_base_value(n / base, base);
        lemma_digit_value((n % base) as int);
        assert(s.drop_last() =~= in_base(n / base, base));
        assert(s.last() == base_64_digits()[(n % base) as int]);
        assert(digits_value(s, base as int) == digits_value(s.drop_last(), base as int) * base
            + digit_value(s.last()));
        vstd::arithmetic::div_mod::lemma_fundamental_div_mod(n as int, base as int);
    }
}

/// Reading `n` written in base 62 gives `n` back.
pub proof fn lemma_base_62_value(n: nat)
    ensures
        digits_value(base_62(n), 62) == n,
{
    lemma_in_base_value(n, 62);
}

/// Division by a base of at least 2 makes a positive number smaller.
pub proof fn lemma_div_smaller(n: nat, base: nat)
    requires
        2 <= base <= n,
    ensures
        n / base < n,
        n % base < base,
        n / base * base + n % base == n,
{
    vstd::arithmetic::div_mod::lemma_fundamental_div_mod(n as int, base as int);
    assert(n / base < n) by (nonlinear_arith)
        requires
            2 <= base <= n,
            n / base * base + n % base == n,
            0 <= n % base,
    ;
}

/// `n` written in `base` with the digits of `base_64_digits`, most
/// significant digit first; zero is "0".
pub open spec fn in_base(n: nat, base: nat) -> Seq<char>
    decreases n,
{
    if n < base || base < 2 {
        seq![base_64_digits()[n as int]]
    } else {
        proof {
            lemma_div_smaller(n, base);
        }
        in_base(n / base, base).push(base_64_digits()[(n % base) as int])
    }
}

/// `n` written in base 62.
pub open spec fn base_62(n: nat) -> Seq<char> {
    in_base(n, 62)
}

/// `n` written in `base`, for bases from 2 to 64.
pub fn to_base(n: u128, base: u128) -> (s: String)
    requires
        2 <= base <= 64,
    ensures
        s@ == in_base(n as nat, base as nat),
{
    let digits_str = "0123456789abcdefghijklmnopqrstuvwxyzABCDEFGHIJKLMNOPQRSTUVWXYZ@$";
    proof {
        reveal_strlit("0123456789abcdefghijklmnopqrstuvwxyzABCDEFGHIJKLMNOPQRSTUVWXYZ@$");
        assert(digits_str@ =~= base_64_digits());
    }
    let ghost b = base as nat;
    // Collect the digits least significant first, then write them out.
    let mut digits: Vec<u128> = Vec::new();
    let mut m: u128 = n;
    loop
        invariant
            m <= n,
            2 <= base <= 64,
            b == base,
            digits_str@ == base_64_digits(),
            forall|k: int| 0 <= k < digits@.len() ==> digits@[k] < base,
            in_base(n as nat, b) == in_base(m as nat, b) + Seq::new(
                digits@.len(),
                |k: int| base_64_digits()[digits@[digits@.len() - 1 - k] as int],
            ),
        ensures
            m < base,
        decreases m,
    {
        if m < base {
            break;
        }
        proof {
            lemma_div_smaller(m as nat, b);
        }
        digits.push(m % base);
        proof {
            let q = (m / base) as nat;
            assert(in_base(m as nat, b) == in_base(q, b).push(base_64_digits()[(m % base) as int]));
            assert(in_base(n as nat, b) =~= in_base(q, b) + Seq::new(
                digits@.len(),
                |k: int| base_64_digits()[digits@[digits@.len() - 1 - k] as int],
            ));
        }
        m = m / base;
    }
    let mut s = digits_str.substring_char(m as usize, m as usize + 1).to_owned();
    assert(s@ =~= in_base(m as nat, b));
    let mut i: usize = digits.len();
    while i > 0
        invariant
            i <= digits@.len(),
            2 <= base <= 64,
            b == base,
            forall|k: int| 0 <= k < digits@.len() ==> digits@[k] < base,
            digits_str@ == base_64_digits(),
            in_base(n as nat, b) == in_base(m as nat, b) + Seq::new(
                digits@.len(),
                |k: int| base_64_digits()[digits@[digits@.len() - 1 - k] as int],
            ),
            s@ =~= in_base(m as nat, b) + Seq::new(
                (digits@.len() - i) as nat,
                |k: int| base_64_digits()[digits@[digits@.len() - 1 - k] as int],
            ),
        decreases i,
    {
        i = i - 1;
        let d = digits[i] as usize;
        let digit = digits_str.substring_char(d, d + 1);
        s.append(digit);
        assert(s@ =~= in_base(m as nat, b) + Seq::new(
            (digits@.len() - i) as nat,
            |k: int| base_64_digits()[digits@[digits@.len() - 1 - k] as int],
        ));
    }
    assert(s@ =~= in_base(n as nat, b));
    s
}

/// `n` written in base 62.
pub fn to_base_62(n: u64) -> (s: String)
    ensures
        s@ == base_62(n as nat),
{
    to_base(n as u128, ALPHANUMERIC_ONLY as u128)
}

/// A fresh name: the prefix, a dot, and the counter in base 62.
pub open spec fn generated_name(prefix: Seq<char>, idx: nat) -> Seq<char> {
    prefix + seq!['.'] + base_62(idx)
}

/// Writes `prefix`, a dot and `idx` in base 62. The dot keeps generated
/// names apart from names that users write.
pub fn symbol_name(prefix: &str, idx: usize) -> (name: String)
    ensures
        name@ == generated_name(prefix@, idx as nat),
{
    let mut name = prefix.to_owned();
    name.append(".");
    let digits = to_base_62(idx as u64);
    name.append(digits.as_str());
    proof {
        reveal_strlit(".");
    }
    assert(name@ =~= generated_name(prefix@, idx as nat));
    name
}

/// The lowest four bits of `v` shifted right by `shift`.
pub open spec fn nibble(v: u128, shift: int) -> int {
    ((v >> (shift as u128)) & 15u128) as int
}

/// `v` as 32 lower-case hexadecimal digits, most significant first.
pub open spec fn hex_32(v: u128) -> Seq<char> {
    Seq::new(32, |i: int| base_64_digits()[nibble(v, 4 * (31 - i))])
}

/// Writes `v` as 32 lower-case hexadecimal digits.
pub fn to_hex_32(v: u128) -> (s: String)
    ensures
        s@ == hex_32(v),
{
    let digits_str = "0123456789abcdefghijklmnopqrstuvwxyzABCDEFGHIJKLMNOPQRSTUVWXYZ@$";
    proof {
        reveal_strlit("0123456789abcdefghijklmnopqrstuvwxyzABCDEFGHIJKLMNOPQRSTUVWXYZ@$");
        assert(digits_str@ =~= base_64_digits());
    }
    let mut s = String::new();
    let mut i: u32 = 0;
    while i < 32
        invariant
            i <= 32,
            digits_str@ == base_64_digits(),
            s@ =~= hex_32(v).take(i as int),
        decreases 32 - i,
    {
        let shift: u32 = 4 * (31 - i);
        let d = ((v >> (shift as u128)) & 15u128) as usize;
        assert(((v >> (shift as u128)) & 15u128) < 16u128) by (bit_vector);
        let digit = digits_str.substring_char(d, d + 1);
        s.append(digit);
        i = i + 1;
        assert(s@ =~= hex_32(v).take(i as int));
    }
    assert(hex_32(v).take(32) =~= hex_32(v));
    s
}

/// The name of a global that holds an anonymous allocation: `alloc_` and
/// the allocation's hash in 32 hexadecimal digits.
pub open spec fn alloc_name(hash: u128) -> Seq<char> {
    "alloc_"@ + hex_32(hash)
}

pub fn alloc_symbol_name(hash: u128) -> (name: String)
    ensures
        name@ == alloc_name(hash),
{
    let mut name = "alloc_".to_owned();
    let digits = to_hex_32(hash);
    name.append(digits.as_str());
    name
}

} // verus!
