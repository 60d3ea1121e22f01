use vstd::prelude::*;
use vstd::relations::{sorted_by, total_ordering};
use vstd::utf8::encode_utf8;

verus! {

broadcast use vstd::string::group_string_axioms;

/// `String::push`: appends one character to the string.
#[verifier::external_body]
pub(crate) fn push_char(s: &mut String, c: char)
    ensures
        final(s)@ == old(s)@.push(c),
{
    s.push(c);
}

/// The characters of a string slice, in order.
pub fn chars_of(s: &str) -> (out: Vec<char>)
    ensures
        out@ == s@,
{
    let mut out: Vec<char> = Vec::new();
    for c in it: s.chars()
        invariant
            out@ == it.seq().take(it.index() as int),
    {
        out.push(c);
    }
    out
}

/// A string made of the first `k` of the given characters.
pub fn string_of_prefix(cs: &Vec<char>, k: usize) -> (out: String)
    requires
        k <= cs@.len(),
    ensures
        out@ == cs@.take(k as int),
{
    let mut out = String::new();
    let mut i: usize = 0;
    while i < k
        invariant
            i <= k <= cs@.len(),
            out@ == cs@.take(i as int),
        decreases k - i,
    {
        push_char(&mut out, cs[i]);
        assert(cs@.take(i + 1) =~= cs@.take(i as int).push(cs@[i as int]));
        i += 1;
    }
    out
}

} // verus!

verus! {

/// Unicode `White_Space`, the set that `char::is_whitespace` and `str::trim` use.
pub open spec fn is_white_space(c: char) -> bool {
    let u = c as u32;
    ||| 0x09 <= u <= 0x0D
    ||| u == 0x20
    ||| u == 0x85
    ||| u == 0xA0
    ||| u == 0x1680
    ||| 0x2000 <= u <= 0x200A
    ||| u == 0x2028
    ||| u == 0x2029
    ||| u == 0x202F
    ||| u == 0x205F
    ||| u == 0x3000
}

/// `s` without its leading white space.
pub open spec fn trim_start(s: Seq<char>) -> Seq<char>
    decreases s.len(),
{
    if s.len() > 0 && is_white_space(s[0]) {
        trim_start(s.drop_first())
    } else {
        s
    }
}

/// `s` without its trailing white space.
pub open spec fn trim_end(s: Seq<char>) -> Seq<char>
    decreases s.len(),
{
    if s.len() > 0 && is_white_space(s.last()) {
        trim_end(s.drop_last())
    } else {
        s
    }
}

/// `s` without leading and trailing white space, as `str::trim` gives it.
pub open spec fn trim(s: Seq<char>) -> Seq<char> {
    trim_end(trim_start(s))
}

/// Whether `c` is white space.
pub fn is_white_space_char(c: char) -> (b: bool)
    ensures
        b == is_white_space(c),
{
    let u = c as u32;
    (0x09 <= u && u <= 0x0D) || u == 0x20 || u == 0x85 || u == 0xA0 || u == 0x1680 || (0x2000
        <= u && u <= 0x200A) || u == 0x2028 || u == 0x2029 || u == 0x202F || u == 0x205F || u
        == 0x3000
}

proof fn lemma_trim_start_at(s: Seq<char>, i: int)
    requires
        0 <= i <= s.len(),
        forall|k: int| 0 <= k < i ==> is_white_space(#[trigger] s[k]),
        i == s.len() || !is_white_space(s[i]),
    ensures
        trim_start(s) == s.subrange(i, s.len() as int),
    decreases i,
{
    if i == 0 {
        assert(s.subrange(0, s.len() as int) =~= s);
    } else {
        let t = s.drop_first();
        assert forall|k: int| 0 <= k < i - 1 implies is_white_space(#[trigger] t[k]) by {
            assert(t[k] == s[k + 1]);
        }
        lemma_trim_start_at(t, i - 1);
        assert(t.subrange(i - 1, t.len() as int) =~= s.subrange(i, s.len() as int));
    }
}

proof fn lemma_trim_end_at(s: Seq<char>, e: int)
    requires
        0 <= e <= s.len(),
        forall|k: int| e <= k < s.len() ==> is_white_space(#[trigger] s[k]),
        e == 0 || !is_white_space(s[e - 1]),
    ensures
        trim_end(s) == s.subrange(0, e),
    decreases s.len() - e,
{
    if e == s.len() {
        assert(s.subrange(0, e) =~= s);
    } else {
        let t = s.drop_last();
        assert forall|k: int| e <= k < t.len() implies is_white_space(#[trigger] t[k]) by {
            assert(t[k] == s[k]);
        }
        lemma_trim_end_at(t, e);
        assert(t.subrange(0, e) =~= s.subrange(0, e));
    }
}

/// The characters of `s` without leading and trailing white space.
pub fn trimmed(s: &str) -> (out: String)
    ensures
        out@ == trim(s@),
{
    let cs = chars_of(s);
    let n = cs.len();
    let mut a: usize = 0;
    while a < n && is_white_space_char(cs[a])
        invariant
            a <= n,
            n == cs@.len(),
            forall|k: int| 0 <= k < a ==> is_white_space(#[trigger] cs@[k]),
        decreases n - a,
    {
        a += 1;
    }
    proof {
        lemma_trim_start_at(cs@, a as int);
    }
    let ghost rest = cs@.subrange(a as int, n as int);
    let mut e: usize = n;
    while e > a && is_white_space_char(cs[e - 1])
        invariant
            a <= e <= n,
            n == cs@.len(),
            forall|k: int| e <= k < n ==> is_white_space(#[trigger] cs@[k]),
        decreases e,
    {
        e -= 1;
    }
    proof {
        assert forall|k: int| e - a <= k < rest.len() implies is_white_space(#[trigger] rest[k]) by {
            assert(rest[k] == cs@[k + a]);
        }
        if e > a {
            assert(rest[e - a - 1] == cs@[e - 1]);
        }
        lemma_trim_end_at(rest, e - a);
        assert(rest.subrange(0, e - a) =~= cs@.subrange(a as int, e as int));
    }
    let mut out = String::new();
    let mut i: usize = a;
    while i < e
        invariant
            a <= i <= e <= n,
            n == cs@.len(),
            out@ == cs@.subrange(a as int, i as int),
        decreases e - i,
    {
        push_char(&mut out, cs[i]);
        assert(cs@.subrange(a as int, i + 1) =~= cs@.subrange(a as int, i as int).push(cs@[i as int]));
        i += 1;
    }
    out
}

/// `c` mapped to its ASCII upper-case form; other characters unchanged.
pub open spec fn ascii_upper(c: char) -> char {
    if 'a' <= c && c <= 'z' {
        ((c as u8) - 32) as u8 as char
    } else {
        c
    }
}

/// The characters of `s` in ASCII upper case, as `str::to_ascii_uppercase` gives them.
pub open spec fn ascii_uppercase(s: Seq<char>) -> Seq<char> {
    s.map_values(|c: char| ascii_upper(c))
}

/// `s` in ASCII upper case.
pub fn to_ascii_uppercase(s: &str) -> (out: String)
    ensures
        out@ == ascii_uppercase(s@),
{
    let cs = chars_of(s);
    let mut out = String::new();
    let mut i: usize = 0;
    while i < cs.len()
        invariant
            i <= cs.len(),
            cs@ == s@,
            out@ == ascii_uppercase(cs@.take(i as int)),
        decreases cs.len() - i,
    {
        let c = cs[i];
        let u = if 'a' <= c && c <= 'z' {
            ((c as u8) - 32) as char
        } else {
            c
        };
        push_char(&mut out, u);
        assert(ascii_uppercase(cs@.take(i + 1)) =~= ascii_uppercase(cs@.take(i as int)).push(
            ascii_upper(cs@[i as int]),
        ));
        i += 1;
    }
    assert(cs@.take(cs.len() as int) =~= cs@);
    out
}

} // verus!

verus! {

/// The digit character for `d` in base 16, lower case (`0`-`9`, `a`-`f`).
pub open spec fn hex_digit(d: nat) -> char {
    if d < 10 {
        (d + 48) as u8 as char
    } else {
        (d + 87) as u8 as char
    }
}

/// `n` written in base `base` (10 or 16) with no leading zeros, as `{}` and `{:x}` write it.
pub open spec fn radix_text(n: nat, base: nat) -> Seq<char>
    recommends
        base == 10 || base == 16,
    decreases n,
{
    if base < 2 || n < base {
        seq![hex_digit(n)]
    } else {
        proof {
            assert(n / base < n) by (nonlinear_arith)
                requires
                    base >= 2,
                    n >= base,
            ;
        }
        radix_text(n / base, base).push(hex_digit(n % base))
    }
}

/// `n` in decimal.
pub open spec fn decimal_text(n: nat) -> Seq<char> {
    radix_text(n, 10)
}

/// `n` in lower-case hexadecimal.
pub open spec fn lower_hex_text(n: nat) -> Seq<char> {
    radix_text(n, 16)
}

fn digit_char(d: u64) -> (c: char)
    requires
        d < 16,
    ensures
        c == hex_digit(d as nat),
{
    let b = d as u8;
    if b < 10 {
        (b + 48) as char
    } else {
        (b + 87) as char
    }
}

pub(crate) fn push_radix(out: &mut String, n: u64, base: u64)
    requires
        base == 10 || base == 16,
    ensures
        final(out)@ == old(out)@ + radix_text(n as nat, base as nat),
    decreases n,
{
    if n < base {
        push_char(out, digit_char(n));
        assert(old(out)@.push(hex_digit(n as nat)) =~= old(out)@ + seq![hex_digit(n as nat)]);
    } else {
        push_radix(out, n / base, base);
        push_char(out, digit_char(n % base));
        assert(radix_text(n as nat, base as nat) == radix_text((n / base) as nat, base as nat).push(
            hex_digit((n % base) as nat),
        ));
        assert(old(out)@ + radix_text(n as nat, base as nat) =~= (old(out)@ + radix_text(
            (n / base) as nat,
            base as nat,
        )).push(hex_digit((n % base) as nat)));
    }
}

/// `n` in decimal, as `n.to_string()` writes it.
pub fn usize_decimal(n: usize) -> (out: String)
    ensures
        out@ == decimal_text(n as nat),
{
    let mut out = String::new();
    push_radix(&mut out, n as u64, 10);
    assert(Seq::<char>::empty() + radix_text(n as nat, 10) =~= radix_text(n as nat, 10));
    out
}

/// `n` in lower-case hexadecimal, as `format!("{:x}", n)` writes it.
pub fn u64_lower_hex(n: u64) -> (out: String)
    ensures
        out@ == lower_hex_text(n as nat),
{
    let mut out = String::new();
    push_radix(&mut out, n, 16);
    assert(Seq::<char>::empty() + radix_text(n as nat, 16) =~= radix_text(n as nat, 16));
    out
}

/// The two lower-case hexadecimal digits of a byte, as `{:02x}` writes them.
pub open spec fn byte_hex(b: u8) -> Seq<char> {
    seq![hex_digit((b / 16) as nat), hex_digit((b % 16) as nat)]
}

/// Every byte of `bytes` as two lower-case hexadecimal digits, in order.
pub open spec fn bytes_hex(bytes: Seq<u8>) -> Seq<char>
    decreases bytes.len(),
{
    if bytes.len() == 0 {
        Seq::empty()
    } else {
        bytes_hex(bytes.drop_last()) + byte_hex(bytes.last())
    }
}

/// The first `chars` characters of the hexadecimal form of `bytes` (all of it when it is shorter).
pub open spec fn hex_prefix_text(bytes: Seq<u8>, chars: nat) -> Seq<char> {
    let h = bytes_hex(bytes);
    if chars < h.len() {
        h.take(chars as int)
    } else {
        h
    }
}

proof fn lemma_bytes_hex_len(bytes: Seq<u8>)
    ensures
        bytes_hex(bytes).len() == 2 * bytes.len(),
    decreases bytes.len(),
{
    if bytes.len() > 0 {
        lemma_bytes_hex_len(bytes.drop_last());
    }
}

/// The hexadecimal form of `bytes`, cut to its first `chars` characters.
pub fn hex_prefix(bytes: &[u8], chars: usize) -> (out: String)
    ensures
        out@ == hex_prefix_text(bytes@, chars as nat),
        out@.len() == if chars < 2 * bytes@.len() { chars as int } else { 2 * bytes@.len() as int },
{
    let mut hex: Vec<char> = Vec::new();
    let mut i: usize = 0;
    while i < bytes.len()
        invariant
            i <= bytes@.len(),
            hex@ == bytes_hex(bytes@.take(i as int)),
        decreases bytes.len() - i,
    {
        let b = bytes[i];
        hex.push(digit_char((b / 16) as u64));
        hex.push(digit_char((b % 16) as u64));
        assert(bytes@.take(i + 1).drop_last() =~= bytes@.take(i as int));
        assert(bytes_hex(bytes@.take(i + 1)) =~= bytes_hex(bytes@.take(i as int)) + byte_hex(b));
        i += 1;
    }
    assert(bytes@.take(bytes@.len() as int) =~= bytes@);
    proof {
        lemma_bytes_hex_len(bytes@);
    }
    let keep = if chars < hex.len() {
        chars
    } else {
        hex.len()
    };
    let out = string_of_prefix(&hex, keep);
    assert(hex@.take(hex@.len() as int) =~= hex@);
    out
}

} // verus!

verus! {

/// Lexicographic order on byte strings, as `[u8]`'s `Ord` compares them.
pub open spec fn bytes_le(a: Seq<u8>, b: Seq<u8>) -> bool
    decreases a.len(),
{
    if a.len() == 0 {
        true
    } else if b.len() == 0 {
        false
    } else if a[0] != b[0] {
        a[0] < b[0]
    } else {
        bytes_le(a.drop_first(), b.drop_first())
    }
}

/// The order of `String`'s `Ord`: the order of the UTF-8 bytes.
pub open spec fn text_le(a: Seq<char>, b: Seq<char>) -> bool {
    bytes_le(encode_utf8(a), encode_utf8(b))
}

/// `text_le` as a relation.
pub open spec fn text_order() -> spec_fn(Seq<char>, Seq<char>) -> bool {
    |a: Seq<char>, b: Seq<char>| text_le(a, b)
}

/// The characters of each string.
pub open spec fn texts(v: Seq<String>) -> Seq<Seq<char>> {
    v.map_values(|s: String| s@)
}

proof fn lemma_bytes_le_total(a: Seq<u8>, b: Seq<u8>)
    ensures
        bytes_le(a, b) || bytes_le(b, a),
        bytes_le(a, a),
        bytes_le(a, b) && bytes_le(b, a) ==> a == b,
    decreases a.len(),
{
    if a.len() > 0 && b.len() > 0 {
        lemma_bytes_le_total(a.drop_first(), b.drop_first());
        lemma_bytes_le_total(a.drop_first(), a.drop_first());
        if bytes_le(a, b) && bytes_le(b, a) {
            assert(a =~= seq![a[0]] + a.drop_first());
            assert(b =~= seq![b[0]] + b.drop_first());
        }
    } else if a.len() > 0 {
        lemma_bytes_le_total(a.drop_first(), a.drop_first());
    }
}

proof fn lemma_bytes_le_trans(a: Seq<u8>, b: Seq<u8>, c: Seq<u8>)
    requires
        bytes_le(a, b),
        bytes_le(b, c),
    ensures
        bytes_le(a, c),
    decreases a.len(),
{
    if a.len() > 0 && b.len() > 0 && c.len() > 0 && a[0] == b[0] && b[0] == c[0] {
        lemma_bytes_le_trans(a.drop_first(), b.drop_first(), c.drop_first());
    }
}

/// `text_le` is a total order.
pub proof fn lemma_text_order_total()
    ensures
        total_ordering(text_order()),
{
    assert forall|a: Seq<char>, b: Seq<char>| #[trigger] text_order()(a, b) || #[trigger] text_order()(b, a) by {
        lemma_bytes_le_total(encode_utf8(a), encode_utf8(b));
    }
    assert forall|a: Seq<char>| #[trigger] text_order()(a, a) by {
        lemma_bytes_le_total(encode_utf8(a), encode_utf8(a));
    }
    assert forall|a: Seq<char>, b: Seq<char>| #[trigger] text_order()(a, b) && #[trigger] text_order()(b, a) implies a == b by {
        lemma_bytes_le_total(encode_utf8(a), encode_utf8(b));
        vstd::utf8::encode_utf8_decode_utf8(a);
        vstd::utf8::encode_utf8_decode_utf8(b);
    }
    assert forall|a: Seq<char>, b: Seq<char>, c: Seq<char>| #[trigger] text_order()(a, b) && #[trigger] text_order()(b, c) implies text_order()(a, c) by {
        lemma_bytes_le_trans(encode_utf8(a), encode_utf8(b), encode_utf8(c));
    }
}

/// Whether `a` sorts before or with `b` under `String`'s order.
pub fn text_le_exec(a: &str, b: &str) -> (r: bool)
    ensures
        r == text_le(a@, b@),
{
    let x = a.as_bytes();
    let y = b.as_bytes();
    let mut i: usize = 0;
    assert(x@.skip(0) =~= x@);
    assert(y@.skip(0) =~= y@);
    while i < x.len() && i < y.len() && x[i] == y[i]
        invariant
            i <= x@.len(),
            i <= y@.len(),
            x@ == encode_utf8(a@),
            y@ == encode_utf8(b@),
            bytes_le(x@, y@) == bytes_le(x@.skip(i as int), y@.skip(i as int)),
        decreases x.len() - i,
    {
        assert(x@.skip(i as int).drop_first() =~= x@.skip(i + 1));
        assert(y@.skip(i as int).drop_first() =~= y@.skip(i + 1));
        i += 1;
    }
    if i == x.len() {
        true
    } else if i == y.len() {
        false
    } else {
        x[i] < y[i]
    }
}

proof fn lemma_insert_multiset<A>(s: Seq<A>, p: int, x: A)
    requires
        0 <= p <= s.len(),
    ensures
        s.insert(p, x).to_multiset() =~= s.to_multiset().insert(x),
{
    broadcast use vstd::seq_lib::group_to_multiset_ensures;
    let l = s.take(p);
    let r = s.skip(p);
    assert(s.insert(p, x) =~= l.push(x) + r);
    assert(s =~= l + r);
    vstd::seq_lib::lemma_multiset_commutative(l.push(x), r);
    vstd::seq_lib::lemma_multiset_commutative(l, r);
}

/// A copy of `v` in `String`'s order.
pub fn sorted_texts(v: &[String]) -> (out: Vec<String>)
    ensures
        texts(out@) == texts(v@).sort_by(text_order()),
{
    proof {
        lemma_text_order_total();
    }
    let ghost leq = text_order();
    let mut out: Vec<String> = Vec::new();
    let mut i: usize = 0;
    proof {
        broadcast use vstd::seq_lib::group_to_multiset_ensures;
        assert(texts(v@.take(0)) =~= texts(out@));
    }
    while i < v.len()
        invariant
            i <= v@.len(),
            leq == text_order(),
            total_ordering(leq),
            sorted_by(texts(out@), leq),
            texts(out@).to_multiset() == texts(v@.take(i as int)).to_multiset(),
        decreases v.len() - i,
    {
        let x = v[i].clone();
        let mut p: usize = 0;
        while p < out.len()
            invariant
                p <= out@.len(),
                total_ordering(leq),
                leq == text_order(),
                forall|k: int| 0 <= k < p ==> leq(#[trigger] texts(out@)[k], x@),
            ensures
                p <= out@.len(),
                forall|k: int| 0 <= k < p ==> leq(#[trigger] texts(out@)[k], x@),
                p < out@.len() ==> !leq(texts(out@)[p as int], x@),
            decreases out.len() - p,
        {
            if !text_le_exec(out[p].as_str(), x.as_str()) {
                break;
            }
            p += 1;
        }
        let ghost before = texts(out@);
        out.insert(p, x);
        proof {
            assert(texts(out@) =~= before.insert(p as int, x@));
            lemma_insert_multiset(before, p as int, x@);
            assert(v@.take(i + 1) =~= v@.take(i as int).push(v@[i as int]));
            assert(texts(v@.take(i + 1)) =~= texts(v@.take(i as int)).push(x@));
            broadcast use vstd::seq_lib::group_to_multiset_ensures;
            if p < before.len() {
                assert(leq(x@, before[p as int]));
            }
            assert forall|a: int, b: int| 0 <= a < b < texts(out@).len() implies #[trigger] leq(
                texts(out@)[a],
                texts(out@)[b],
            ) by {
                let t = texts(out@);
                if b < p {
                    assert(t[a] == before[a] && t[b] == before[b]);
                } else if a < p && b == p {
                } else if a < p {
                    assert(t[a] == before[a] && t[b] == before[b - 1]);
                    assert(leq(before[a], before[b - 1]));
                } else if a == p {
                    assert(t[b] == before[b - 1]);
                    if b - 1 > p {
                        assert(leq(before[p as int], before[b - 1]));
                    }
                } else {
                    assert(t[a] == before[a - 1] && t[b] == before[b - 1]);
                }
            }
        }
        i += 1;
    }
    proof {
        assert(v@.take(v@.len() as int) =~= v@);
        texts(v@).lemma_sort_by_ensures(leq);
        vstd::seq_lib::lemma_sorted_unique(texts(out@), texts(v@).sort_by(leq), leq);
    }
    out
}

} // verus!

verus! {

/// An owned copy of `s`.
pub fn string_from(s: &str) -> (out: String)
    ensures
        out@ == s@,
{
    s.to_owned()
}

} // verus!

verus! {

proof fn lemma_trim_start_shape(s: Seq<char>)
    ensures
        trim_start(s).len() == 0 || !is_white_space(trim_start(s)[0]),
        trim_start(s).len() <= s.len(),
    decreases s.len(),
{
    if s.len() > 0 && is_white_space(s[0]) {
        lemma_trim_start_shape(s.drop_first());
    }
}

proof fn lemma_trim_end_shape(s: Seq<char>)
    ensures
        trim_end(s).len() == 0 || !is_white_space(trim_end(s).last()),
        trim_end(s).len() <= s.len(),
        trim_end(s) == s.take(trim_end(s).len() as int),
        s.len() > 0 && !is_white_space(s[0]) ==> trim_end(s).len() > 0,
    decreases s.len(),
{
    if s.len() > 0 && is_white_space(s.last()) {
        lemma_trim_end_shape(s.drop_last());
        let t = trim_end(s.drop_last());
        assert(s.drop_last().take(t.len() as int) =~= s.take(t.len() as int));
    } else {
        assert(s.take(s.len() as int) =~= s);
    }
}

/// Trimming twice trims no more than trimming once.
pub proof fn lemma_trim_idempotent(s: Seq<char>)
    ensures
        trim(trim(s)) == trim(s),
        trim(s).len() == 0 || (!is_white_space(trim(s)[0]) && !is_white_space(trim(s).last())),
{
    let a = trim_start(s);
    lemma_trim_start_shape(s);
    lemma_trim_end_shape(a);
    let u = trim_end(a);
    if u.len() > 0 {
        assert(u[0] == a[0]);
        assert(trim_start(u) == u);
        assert(trim_end(u) == u);
    } else {
        assert(trim_start(u) == u);
        assert(trim_end(u) == u);
    }
}

/// Upper-casing keeps what is white space and what is not, and doing it twice changes nothing
/// more.
pub proof fn lemma_ascii_uppercase_facts(s: Seq<char>)
    ensures
        ascii_uppercase(ascii_uppercase(s)) == ascii_uppercase(s),
        ascii_uppercase(s).len() == s.len(),
        forall|k: int|
            0 <= k < s.len() ==> is_white_space(#[trigger] ascii_uppercase(s)[k]) == is_white_space(
                s[k],
            ),
{
    assert forall|k: int| 0 <= k < s.len() implies is_white_space(#[trigger] ascii_uppercase(s)[k])
        == is_white_space(s[k]) by {
        let c = s[k];
        if 'a' <= c && c <= 'z' {
            assert((c as u8) as u32 == c as u32);
        }
    }
    assert forall|k: int| 0 <= k < s.len() implies #[trigger] ascii_uppercase(ascii_uppercase(s))[k]
        == ascii_uppercase(s)[k] by {
        let c = s[k];
        if 'a' <= c && c <= 'z' {
            assert((c as u8) as u32 == c as u32);
        }
    }
    assert(ascii_uppercase(ascii_uppercase(s)) =~= ascii_uppercase(s));
}

} // verus!

verus! {

/// A sequence that neither starts nor ends with white space is its own trim.
pub proof fn lemma_trim_of_clean(u: Seq<char>)
    requires
        u.len() > 0,
        !is_white_space(u[0]),
        !is_white_space(u.last()),
    ensures
        trim(u) == u,
{
}

} // verus!
