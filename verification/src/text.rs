//! Text helpers shared by the contracts: blank checks and decimal rendering.

use vstd::prelude::*;

verus! {

/// Decimal rendering of a signed integer, with a leading `-` when negative.
pub open spec fn signed_decimal(n: int) -> Seq<char> {
    if n < 0 {
        seq!['-'] + decimal((-n) as nat)
    } else {
        decimal(n as nat)
    }
}

/// Some entry of `v` equals `s`.
pub open spec fn contains_str(v: Seq<String>, s: Seq<char>) -> bool {
    exists|i: int| 0 <= i < v.len() && v[i]@ == s
}

/// The Unicode `White_Space` property (PropList.txt), which is what
/// `char::is_whitespace` tests.
pub open spec fn is_white_space(c: char) -> bool {
    let u = c as u32;
    ||| 0x9 <= u <= 0xD
    ||| u == 0x20
    ||| u == 0x85
    ||| u == 0xA0
    ||| u == 0x1680
    ||| 0x2000 <= u <= 0x200A
    ||| u == 0x2028
    ||| u == 0x2029
    ||| u == 0x202F
    ||| u == 0x205F
    ||| u == 0x3000
}

/// A string is blank when trimming it leaves nothing: every char is white space.
pub open spec fn is_blank_spec(s: Seq<char>) -> bool {
    forall|i: int| 0 <= i < s.len() ==> is_white_space(#[trigger] s[i])
}

/// The ASCII digit for `d < 10`.
pub open spec fn digit_char(d: nat) -> char {
    ((48 + d) as u32) as char
}

/// Decimal rendering of a natural number, most significant digit first.
pub open spec fn decimal(n: nat) -> Seq<char>
    decreases n,
{
    if n < 10 {
        seq![digit_char(n)]
    } else {
        decimal(n / 10).push(digit_char(n % 10))
    }
}

/// `char::is_whitespace`: true exactly for the chars with the Unicode
/// `White_Space` property.
#[verifier::external_body]
fn char_is_white_space(c: char) -> (r: bool)
    ensures
        r == is_white_space(c),
{
    c.is_whitespace()
}

/// `<u64 as ToString>::to_string`: the decimal rendering of `n`.
#[verifier::external_body]
pub(crate) fn u64_to_string(n: u64) -> (s: String)
    ensures
        s@ == decimal(n as nat),
{
    n.to_string()
}

/// `<usize as ToString>::to_string`: the decimal rendering of `n`.
#[verifier::external_body]
pub(crate) fn usize_to_string(n: usize) -> (s: String)
    ensures
        s@ == decimal(n as nat),
{
    n.to_string()
}

/// `<i32 as ToString>::to_string`: the decimal rendering of `n`, signed.
#[verifier::external_body]
pub(crate) fn i32_to_string(n: i32) -> (s: String)
    ensures
        s@ == signed_decimal(n as int),
{
    n.to_string()
}

/// `<u128 as ToString>::to_string`: the decimal rendering of `n`.
#[verifier::external_body]
pub(crate) fn u128_to_string(n: u128) -> (s: String)
    ensures
        s@ == decimal(n as nat),
{
    n.to_string()
}

/// `true` or `false`, as `bool` displays.
pub open spec fn bool_text(b: bool) -> Seq<char> {
    if b {
        "true"@
    } else {
        "false"@
    }
}

/// `<bool as ToString>::to_string`.
pub fn bool_to_string(b: bool) -> (s: String)
    ensures
        s@ == bool_text(b),
{
    if b {
        String::from_str("true")
    } else {
        String::from_str("false")
    }
}

/// The `Debug` rendering of a string: quoted, with `\`, `"` and control
/// characters escaped.
pub uninterp spec fn debug_str(s: Seq<char>) -> Seq<char>;

/// `format!("{:?}", s)` for a string.
#[verifier::external_body]
pub(crate) fn debug_text(s: &String) -> (r: String)
    ensures
        r@ == debug_str(s@),
{
    format!("{:?}", s)
}

/// Whether `v` holds a string equal to `s`, as `Vec::contains` answers.
pub fn contains_string(v: &Vec<String>, s: &String) -> (r: bool)
    ensures
        r == contains_str(v@, s@),
{
    let n = v.len();
    let mut i: usize = 0;
    while i < n
        invariant
            n == v@.len(),
            i <= n,
            forall|k: int| 0 <= k < i ==> v@[k]@ != s@,
        decreases n - i,
    {
        if v[i] == *s {
            return true;
        }
        i = i + 1;
    }
    false
}

/// Whether `s.trim()` is empty, i.e. `s` holds white space only.
pub fn is_blank(s: &str) -> (r: bool)
    ensures
        r == is_blank_spec(s@),
{
    let n = s.unicode_len();
    let mut i: usize = 0;
    while i < n
        invariant
            n == s@.len(),
            i <= n,
            forall|j: int| 0 <= j < i ==> is_white_space(#[trigger] s@[j]),
        decreases n - i,
    {
        let c = s.get_char(i);
        if !char_is_white_space(c) {
            return false;
        }
        i = i + 1;
    }
    true
}

/// `a ++ b` for owned strings.
pub(crate) fn concat_str(a: &str, b: &str) -> (r: String)
    ensures
        r@ == a@ + b@,
{
    let s = String::from_str(a);
    s.concat(b)
}

/// `a` followed by the decimal rendering of `n`.
pub(crate) fn str_num(a: &str, n: u64) -> (r: String)
    ensures
        r@ == a@ + decimal(n as nat),
{
    let d = u64_to_string(n);
    concat_str(a, d.as_str())
}

/// `a`, the decimal rendering of `n`, then `b`.
pub(crate) fn str_num_str(a: &str, n: u64, b: &str) -> (r: String)
    ensures
        r@ == a@ + decimal(n as nat) + b@,
{
    let s = str_num(a, n);
    s.concat(b)
}

/// `a`, `n`, `b`, `m`: text and decimals, one after another.
pub(crate) fn str_num_str_num(a: &str, n: u64, b: &str, m: u64) -> (r: String)
    ensures
        r@ == a@ + decimal(n as nat) + b@ + decimal(m as nat),
{
    let s = str_num_str(a, n, b);
    let d = u64_to_string(m);
    s.concat(d.as_str())
}

/// `a`, `n`, `b`, `m`, `c` in decimal and text, one after another.
pub(crate) fn str_num_str_num_str(a: &str, n: u64, b: &str, m: u64, c: &str) -> (r: String)
    ensures
        r@ == a@ + decimal(n as nat) + b@ + decimal(m as nat) + c@,
{
    let s = str_num_str(a, n, b);
    let d = u64_to_string(m);
    let s = s.concat(d.as_str());
    s.concat(c)
}

/// The `Debug` rendering of a list of addresses: `[Addr("a"), Addr("b")]`.
pub open spec fn addr_list_text(v: Seq<String>) -> Seq<char> {
    "["@ + addr_items_text(v) + "]"@
}

/// The listed addresses, each as `Addr("..")`, separated by `, `.
pub open spec fn addr_items_text(v: Seq<String>) -> Seq<char>
    decreases v.len(),
{
    if v.len() == 0 {
        Seq::empty()
    } else if v.len() == 1 {
        "Addr("@ + debug_str(v[0]@) + ")"@
    } else {
        addr_items_text(v.drop_last()) + ", "@ + "Addr("@ + debug_str(v.last()@) + ")"@
    }
}

/// `format!("{:?}", addrs)` for a list of validated addresses.
pub fn addr_list_debug(v: &Vec<String>) -> (r: String)
    ensures
        r@ == addr_list_text(v@),
{
    let mut s = String::from_str("[");
    let ghost head = s@;
    let n = v.len();
    let mut i: usize = 0;
    while i < n
        invariant
            n == v@.len(),
            i <= n,
            head == "["@,
            s@ == head + addr_items_text(v@.take(i as int)),
        decreases n - i,
    {
        if i > 0 {
            s.append(", ");
        }
        s.append("Addr(");
        let d = debug_text(&v[i]);
        s.append(d.as_str());
        s.append(")");
        proof {
            let pre = v@.take(i as int + 1);
            assert(pre.drop_last() =~= v@.take(i as int));
            assert(pre.last() == v@[i as int]);
            if i == 0 {
                assert(v@.take(0) =~= Seq::<String>::empty());
            }
            assert(s@ =~= head + addr_items_text(pre));
        }
        i = i + 1;
    }
    assert(v@.take(n as int) =~= v@);
    s.append("]");
    s
}

} // verus!
