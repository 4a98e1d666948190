use vstd::prelude::*;
use vstd::string::*;
use vstd::utf8::{
    decode_utf8, decode_utf8_encode_utf8, encode_utf8, encode_utf8_decode_utf8,
    encode_utf8_valid_utf8, is_char_boundary, valid_utf8,
};

verus! {

/// The Unicode `White_Space` property, which `char::is_whitespace` tests.
pub open spec fn is_ws(c: char) -> bool {
    let u = c as u32;
    ||| 0x09 <= u <= 0x0d
    ||| u == 0x20
    ||| u == 0x85
    ||| u == 0xa0
    ||| u == 0x1680
    ||| 0x2000 <= u <= 0x200a
    ||| u == 0x2028
    ||| u == 0x2029
    ||| u == 0x202f
    ||| u == 0x205f
    ||| u == 0x3000
}

/// Tests one character for the `White_Space` property.
pub fn is_whitespace(c: char) -> (r: bool)
    ensures
        r == is_ws(c),
{
    let u = c as u32;
    (0x09 <= u && u <= 0x0d) || u == 0x20 || u == 0x85 || u == 0xa0 || u == 0x1680 || (0x2000
        <= u && u <= 0x200a) || u == 0x2028 || u == 0x2029 || u == 0x202f || u == 0x205f || u
        == 0x3000
}

/// Appends one character to a string (`String::push`).
#[verifier::external_body]
pub(crate) fn push_char(s: &mut String, c: char)
    ensures
        final(s)@ == old(s)@.push(c),
{
    s.push(c)
}

/// The characters of a string, in order.
pub fn chars_of(s: &str) -> (r: Vec<char>)
    ensures
        r@ == s@,
{
    let mut v: Vec<char> = Vec::new();
    for c in it: s.chars()
        invariant
            v@ == it.seq().take(it.index() as int),
    {
        v.push(c);
    }
    v
}

/// The digit character of a number below ten.
pub open spec fn digit(d: nat) -> char {
    (48 + d) as char
}

/// The decimal representation of a natural number.
pub open spec fn dec_nat(n: nat) -> Seq<char>
    decreases n,
{
    if n < 10 {
        seq![digit(n)]
    } else {
        dec_nat(n / 10).push(digit(n % 10))
    }
}

/// The decimal representation of an integer, with a leading `-` when negative.
pub open spec fn dec_int(i: int) -> Seq<char> {
    if i < 0 {
        seq!['-'] + dec_nat((-i) as nat)
    } else {
        dec_nat(i as nat)
    }
}

/// The number that a text of decimal digits stands for, read from the left; `None` when
/// the text is empty or holds anything but the digits `0` to `9`.
pub open spec fn digits_value(s: Seq<char>) -> Option<nat>
    decreases s.len(),
{
    if s.len() == 0 || !('0' <= s.last() && s.last() <= '9') {
        None
    } else {
        let d = (s.last() as u32 - 48) as nat;
        if s.len() == 1 {
            Some(d)
        } else {
            match digits_value(s.drop_last()) {
                Some(v) => Some(v * 10 + d),
                None => None,
            }
        }
    }
}

/// The integer that a signed decimal text stands for: digits, after a `-` for a negative
/// number.
pub open spec fn signed_value(s: Seq<char>) -> Option<int> {
    if s.len() > 0 && s[0] == '-' {
        match digits_value(s.drop_first()) {
            Some(v) => Some(-(v as int)),
            None => None,
        }
    } else {
        match digits_value(s) {
            Some(v) => Some(v as int),
            None => None,
        }
    }
}

/// The decimal text of a natural number reads back as that number.
pub proof fn lemma_dec_nat_value(n: nat)
    ensures
        digits_value(dec_nat(n)) == Some(n),
        dec_nat(n).len() > 0,
        dec_nat(n)[0] != '-',
    decreases n,
{
    if n >= 10 {
        lemma_dec_nat_value(n / 10);
        let s = dec_nat(n);
        assert(s.drop_last() =~= dec_nat(n / 10));
        assert(s[0] == dec_nat(n / 10)[0]);
    }
}

/// The signed decimal text of an integer reads back as that integer, and is negative
/// exactly when it starts with `-`.
pub proof fn lemma_dec_int_value(i: int)
    ensures
        signed_value(dec_int(i)) == Some(i),
        (dec_int(i)[0] == '-') == (i < 0),
{
    if i < 0 {
        lemma_dec_nat_value((-i) as nat);
        assert(dec_int(i).drop_first() =~= dec_nat((-i) as nat));
    } else {
        lemma_dec_nat_value(i as nat);
    }
}

fn digit_char(d: u64) -> (c: char)
    requires
        d < 10,
    ensures
        c == digit(d as nat),
{
    ((48 + d) as u8) as char
}

/// Appends the decimal representation of `n`.
pub fn push_dec(s: &mut String, n: u64)
    ensures
        final(s)@ == old(s)@ + dec_nat(n as nat),
    decreases n,
{
    if n < 10 {
        push_char(s, digit_char(n));
    } else {
        push_dec(s, n / 10);
        push_char(s, digit_char(n % 10));
    }
}


/// Appends the decimal representation of `i`, with a `-` when it is negative.
pub fn push_dec_signed(s: &mut String, i: i64)
    ensures
        final(s)@ == old(s)@ + dec_int(i as int),
{
    if i < 0 {
        push_char(s, '-');
        let m: u64 = ((-(i + 1)) as u64) + 1;
        push_dec(s, m);
        assert(final(s)@ =~= old(s)@ + dec_int(i as int));
    } else {
        push_dec(s, i as u64);
    }
}

/// Appends a string slice.
pub fn push_str(s: &mut String, t: &str)
    ensures
        final(s)@ == old(s)@ + t@,
{
    s.append(t);
}

/// `s` with its leading `White_Space` characters removed.
pub open spec fn trim_start(s: Seq<char>) -> Seq<char>
    decreases s.len(),
{
    if s.len() > 0 && is_ws(s[0]) {
        trim_start(s.drop_first())
    } else {
        s
    }
}

/// `s` with its trailing `White_Space` characters removed.
pub open spec fn trim_end(s: Seq<char>) -> Seq<char>
    decreases s.len(),
{
    if s.len() > 0 && is_ws(s.last()) {
        trim_end(s.drop_last())
    } else {
        s
    }
}

/// `s` with both its leading and trailing `White_Space` characters removed (`str::trim`).
pub open spec fn trim(s: Seq<char>) -> Seq<char> {
    trim_end(trim_start(s))
}

/// `trim_start` leaves no white space at the front and only removes characters from it.
pub proof fn lemma_trim_start(s: Seq<char>)
    ensures
        trim_start(s).len() > 0 ==> !is_ws(trim_start(s)[0]),
        s.len() >= trim_start(s).len(),
        trim_start(s) == s.subrange(s.len() - trim_start(s).len(), s.len() as int),
    decreases s.len(),
{
    if s.len() > 0 && is_ws(s[0]) {
        lemma_trim_start(s.drop_first());
        assert(s.drop_first().subrange(
            s.drop_first().len() - trim_start(s).len(),
            s.drop_first().len() as int,
        ) =~= s.subrange(s.len() - trim_start(s).len(), s.len() as int));
    } else {
        assert(s.subrange(0, s.len() as int) =~= s);
    }
}

/// `trim_end` leaves no white space at the back and only removes characters from it.
pub proof fn lemma_trim_end(s: Seq<char>)
    ensures
        trim_end(s).len() > 0 ==> !is_ws(trim_end(s).last()),
        trim_end(s).len() <= s.len(),
        trim_end(s) == s.subrange(0, trim_end(s).len() as int),
        trim_end(s).len() > 0 && s.len() > 0 ==> trim_end(s)[0] == s[0],
    decreases s.len(),
{
    if s.len() > 0 && is_ws(s.last()) {
        lemma_trim_end(s.drop_last());
        assert(s.drop_last().subrange(0, trim_end(s).len() as int) =~= s.subrange(
            0,
            trim_end(s).len() as int,
        ));
    } else {
        assert(s.subrange(0, s.len() as int) =~= s);
    }
}

/// A trimmed text is a piece of the given one that is empty or begins and ends with a
/// character that is no white space (`str::trim`).
pub proof fn lemma_trim_ends(s: Seq<char>)
    ensures
        trim(s).len() > 0 ==> !is_ws(trim(s)[0]) && !is_ws(trim(s).last()),
        contains(s, trim(s)),
{
    lemma_trim_start(s);
    lemma_trim_end(trim_start(s));
    let t = trim_start(s);
    let i = s.len() - t.len();
    assert(s.subrange(i, s.len() as int).subrange(0, trim(s).len() as int) =~= s.subrange(
        i,
        i + trim(s).len(),
    ));
    assert(trim(s) == s.subrange(i, i + trim(s).len()));
    assert(occurs_at(s, trim(s), i));
}

/// The characters of `s` from index `i` to index `j`, as a string.
pub fn slice_chars(s: &[char], i: usize, j: usize) -> (r: String)
    requires
        i <= j <= s@.len(),
    ensures
        r@ == s@.subrange(i as int, j as int),
{
    let mut r = String::new();
    let mut k = i;
    while k < j
        invariant
            i <= k <= j <= s@.len(),
            r@ == s@.subrange(i as int, k as int),
        decreases j - k,
    {
        push_char(&mut r, s[k]);
        assert(s@.subrange(i as int, k as int).push(s@[k as int]) =~= s@.subrange(
            i as int,
            k + 1,
        ));
        k = k + 1;
    }
    r
}

/// Trims the `White_Space` characters at both ends (`str::trim`).
pub fn trim_chars(v: &[char]) -> (r: String)
    ensures
        r@ == trim(v@),
{
    let n = v.len();
    let mut i: usize = 0;
    assert(v@.subrange(0, n as int) =~= v@);
    while i < n && is_whitespace(v[i])
        invariant
            i <= n == v@.len(),
            trim_start(v@) == trim_start(v@.subrange(i as int, n as int)),
        decreases n - i,
    {
        assert(v@.subrange(i as int, n as int).drop_first() =~= v@.subrange(i + 1, n as int));
        i = i + 1;
    }
    assert(trim_start(v@) == v@.subrange(i as int, n as int));
    let mut j: usize = n;
    while j > i && is_whitespace(v[j - 1])
        invariant
            i <= j <= n == v@.len(),
            trim(v@) == trim_end(v@.subrange(i as int, j as int)),
        decreases j - i,
    {
        assert(v@.subrange(i as int, j as int).drop_last() =~= v@.subrange(i as int, j - 1));
        j = j - 1;
    }
    slice_chars(v, i, j)
}

/// Trims the `White_Space` characters at both ends of a string (`str::trim`).
pub fn trim_str(s: &str) -> (r: String)
    ensures
        r@ == trim(s@),
{
    let v = chars_of(s);
    trim_chars(v.as_slice())
}

/// Whether `s` begins with `p`.
pub open spec fn starts_with(s: Seq<char>, p: Seq<char>) -> bool {
    p.len() <= s.len() && s.subrange(0, p.len() as int) == p
}

/// Whether `p` occurs in `s` at index `k`.
pub open spec fn occurs_at(s: Seq<char>, p: Seq<char>, k: int) -> bool {
    0 <= k && k + p.len() <= s.len() && s.subrange(k, k + p.len()) == p
}

/// Whether `p` occurs anywhere in `s` (`str::contains`).
pub open spec fn contains(s: Seq<char>, p: Seq<char>) -> bool {
    exists|k: int| occurs_at(s, p, k)
}

/// Tests for `p` at index `k` of `s`.
pub fn matches_at(s: &[char], p: &[char], k: usize) -> (r: bool)
    requires
        k <= s@.len(),
    ensures
        r == occurs_at(s@, p@, k as int),
{
    if p.len() > s.len() - k {
        return false;
    }
    let mut i: usize = 0;
    while i < p.len()
        invariant
            k + p@.len() <= s@.len(),
            s@.len() == s.len(),
            p@.len() == p.len(),
            i <= p@.len(),
            forall|t: int| 0 <= t < i ==> s@[k + t] == p@[t],
        decreases p@.len() - i,
    {
        if s[k + i] != p[i] {
            assert(s@.subrange(k as int, k + p@.len())[i as int] != p@[i as int]);
            return false;
        }
        i = i + 1;
    }
    assert(s@.subrange(k as int, k + p@.len()) =~= p@);
    true
}

/// Whether `s` begins with `p` (`str::starts_with`).
pub fn has_prefix(s: &str, p: &str) -> (r: bool)
    ensures
        r == starts_with(s@, p@),
{
    let sv = chars_of(s);
    let pv = chars_of(p);
    matches_at(sv.as_slice(), pv.as_slice(), 0)
}

/// Whether `p` occurs in `s` (`str::contains`).
pub fn contains_str(s: &str, p: &str) -> (r: bool)
    ensures
        r == contains(s@, p@),
{
    let sv = chars_of(s);
    let pv = chars_of(p);
    if pv.len() == 0 {
        assert(s@.subrange(0, 0) =~= p@);
        assert(occurs_at(s@, p@, 0));
        return true;
    }
    let mut k: usize = 0;
    while k < sv.len()
        invariant
            sv@ == s@,
            pv@ == p@,
            p@.len() > 0,
            k <= sv@.len(),
            forall|t: int| 0 <= t < k ==> !occurs_at(s@, p@, t),
        decreases sv@.len() - k,
    {
        if matches_at(sv.as_slice(), pv.as_slice(), k) {
            return true;
        }
        k = k + 1;
    }
    assert forall|t: int| !occurs_at(s@, p@, t) by {
        if 0 <= t < k {
        } else if t >= k {
            assert(t + p@.len() > s@.len());
        }
    }
    false
}

/// Removes the prefix `p` from `s`, when `s` begins with it (`str::strip_prefix`).
pub fn strip_prefix(s: &str, p: &str) -> (r: Option<String>)
    ensures
        r is Some <==> starts_with(s@, p@),
        r matches Some(t) ==> t@ == s@.subrange(p@.len() as int, s@.len() as int),
{
    let sv = chars_of(s);
    let pv = chars_of(p);
    if matches_at(sv.as_slice(), pv.as_slice(), 0) {
        Some(slice_chars(sv.as_slice(), pv.len(), sv.len()))
    } else {
        None
    }
}

/// Whether two strings hold the same characters.
pub fn str_eq(a: &str, b: &str) -> (r: bool)
    ensures
        r == (a@ == b@),
{
    let av = chars_of(a);
    let bv = chars_of(b);
    if av.len() != bv.len() {
        return false;
    }
    let r = matches_at(av.as_slice(), bv.as_slice(), 0);
    proof {
        assert(a@ =~= a@.subrange(0, b@.len() as int));
    }
    r
}

/// The first `n` characters of `s`, or all of it when it is shorter.
pub open spec fn take_chars(s: Seq<char>, n: nat) -> Seq<char> {
    if n < s.len() {
        s.take(n as int)
    } else {
        s
    }
}

/// The first `n` characters of a string (`s.chars().take(n).collect()`).
pub fn prefix_chars(s: &str, n: usize) -> (r: String)
    ensures
        r@ == take_chars(s@, n as nat),
{
    let v = chars_of(s);
    let m = if n < v.len() {
        n
    } else {
        v.len()
    };
    let r = slice_chars(v.as_slice(), 0, m);
    assert(v@.subrange(0, m as int) =~= take_chars(s@, n as nat));
    r
}


/// The text that `format!("{:?}", s)` writes for a string: a quoted literal with escapes.
pub uninterp spec fn debug_string_lit(s: Seq<char>) -> Seq<char>;

/// Writes a string as `Debug` formats it (`format!("{:?}", s)`). The contract names
/// the result and says nothing more of it.
#[verifier::external_body]
pub(crate) fn debug_quote(s: &str) -> (r: String)
    ensures
        r@ == debug_string_lit(s@),
{
    format!("{:?}", s)
}


/// The text that `String::from_utf8_lossy` makes of a byte sequence that is not valid
/// UTF-8.
pub uninterp spec fn lossy_utf8(bytes: Seq<u8>) -> Seq<char>;

/// The text that `String::from_utf8_lossy` makes of a byte sequence: the decoded text when
/// the bytes are valid UTF-8, as its documentation states, and otherwise the named result.
pub open spec fn lossy_text(bytes: Seq<u8>) -> Seq<char> {
    if valid_utf8(bytes) {
        decode_utf8(bytes)
    } else {
        lossy_utf8(bytes)
    }
}

/// UTF-8 encoding distributes over joining texts.
pub proof fn lemma_encode_utf8_add(a: Seq<char>, b: Seq<char>)
    ensures
        encode_utf8(a + b) == encode_utf8(a) + encode_utf8(b),
    decreases a.len(),
{
    if a.len() == 0 {
        assert(a + b =~= b);
        assert(encode_utf8(a) + encode_utf8(b) =~= encode_utf8(b));
    } else {
        assert((a + b).drop_first() =~= a.drop_first() + b);
        lemma_encode_utf8_add(a.drop_first(), b);
        assert(encode_utf8(a + b) =~= encode_utf8(a) + encode_utf8(b));
    }
}

/// Two valid UTF-8 byte sequences join into a valid one, whose text is the two texts
/// joined.
pub proof fn lemma_decode_utf8_add(a: Seq<u8>, b: Seq<u8>)
    requires
        valid_utf8(a),
        valid_utf8(b),
    ensures
        valid_utf8(a + b),
        decode_utf8(a + b) == decode_utf8(a) + decode_utf8(b),
{
    decode_utf8_encode_utf8(a);
    decode_utf8_encode_utf8(b);
    lemma_encode_utf8_add(decode_utf8(a), decode_utf8(b));
    encode_utf8_valid_utf8(decode_utf8(a) + decode_utf8(b));
    encode_utf8_decode_utf8(decode_utf8(a) + decode_utf8(b));
}

/// Decodes bytes as UTF-8, putting U+FFFD in place of invalid sequences
/// (`String::from_utf8_lossy`). The contract names the result and says nothing more of it.
#[verifier::external_body]
pub(crate) fn utf8_lossy(bytes: &[u8]) -> (r: String)
    ensures
        valid_utf8(bytes@) ==> r@ == decode_utf8(bytes@),
        !valid_utf8(bytes@) ==> r@ == lossy_utf8(bytes@),
        r@ == lossy_text(bytes@),
{
    String::from_utf8_lossy(bytes).into_owned()
}

/// Reads bytes as UTF-8 text (`std::str::from_utf8`): as its documentation states, the
/// text when the bytes are valid UTF-8, and nothing when they are not.
#[verifier::external_body]
pub(crate) fn utf8_text(bytes: &[u8]) -> (r: Option<&str>)
    ensures
        r is Some <==> valid_utf8(bytes@),
        r matches Some(t) ==> t@ == decode_utf8(bytes@),
{
    std::str::from_utf8(bytes).ok()
}

/// The index of the first line feed in `s`, or its length when there is none.
pub open spec fn nl_index(s: Seq<char>) -> nat
    decreases s.len(),
{
    if s.len() == 0 {
        0
    } else if s[0] == '\n' {
        0
    } else {
        1 + nl_index(s.drop_first())
    }
}

/// `nl_index` is at most the length, and points at a line feed with none before it.
pub proof fn lemma_nl_index(s: Seq<char>)
    ensures
        nl_index(s) <= s.len(),
        nl_index(s) < s.len() ==> s[nl_index(s) as int] == '\n',
        forall|k: int| 0 <= k < nl_index(s) ==> s[k] != '\n',
    decreases s.len(),
{
    if s.len() > 0 && s[0] != '\n' {
        lemma_nl_index(s.drop_first());
        assert forall|k: int| 0 <= k < nl_index(s) implies s[k] != '\n' by {
            if k > 0 {
                assert(s[k] == s.drop_first()[k - 1]);
            }
        }
    }
}

/// A position with no line feed before it and a line feed (or the end) at it is `nl_index`.
pub proof fn lemma_nl_index_at(s: Seq<char>, i: int)
    requires
        0 <= i <= s.len(),
        forall|k: int| 0 <= k < i ==> s[k] != '\n',
        i < s.len() ==> s[i] == '\n',
    ensures
        nl_index(s) == i,
    decreases s.len(),
{
    if s.len() > 0 && s[0] != '\n' {
        assert forall|k: int| 0 <= k < i - 1 implies s.drop_first()[k] != '\n' by {
            assert(s.drop_first()[k] == s[k + 1]);
        }
        lemma_nl_index_at(s.drop_first(), i - 1);
    }
}

/// Finds the first line feed in `v`.
pub fn find_newline(v: &[char]) -> (r: usize)
    ensures
        r == nl_index(v@),
{
    let mut i: usize = 0;
    while i < v.len() && v[i] != '\n'
        invariant
            i <= v@.len(),
            forall|k: int| 0 <= k < i ==> v@[k] != '\n',
        decreases v@.len() - i,
    {
        i = i + 1;
    }
    proof {
        lemma_nl_index_at(v@, i as int);
    }
    i
}

/// The characters of `v` from index `k` on.
pub fn chars_from(v: &[char], k: usize) -> (r: Vec<char>)
    requires
        k <= v@.len(),
    ensures
        r@ == v@.subrange(k as int, v@.len() as int),
{
    let mut r: Vec<char> = Vec::new();
    let mut i = k;
    while i < v.len()
        invariant
            k <= i <= v@.len(),
            r@ == v@.subrange(k as int, i as int),
        decreases v@.len() - i,
    {
        r.push(v[i]);
        assert(v@.subrange(k as int, i as int).push(v@[i as int]) =~= v@.subrange(
            k as int,
            i + 1,
        ));
        i = i + 1;
    }
    r
}

/// The concatenation of a sequence of texts.
pub open spec fn concat_all(s: Seq<Seq<char>>) -> Seq<char>
    decreases s.len(),
{
    if s.len() == 0 {
        Seq::empty()
    } else {
        s[0] + concat_all(s.drop_first())
    }
}

/// Concatenating a sequence with one more text at its end appends that text.
pub proof fn lemma_concat_all_push(s: Seq<Seq<char>>, t: Seq<char>)
    ensures
        concat_all(s.push(t)) == concat_all(s) + t,
    decreases s.len(),
{
    if s.len() == 0 {
        let e = s.push(t).drop_first();
        assert(e =~= Seq::<Seq<char>>::empty());
        assert(concat_all(e) == Seq::<char>::empty());
        assert(s.push(t)[0] == t);
        assert(concat_all(s.push(t)) == t + concat_all(e));
        assert(concat_all(s.push(t)) =~= t);
        assert(concat_all(s) =~= Seq::<char>::empty());
    } else {
        assert(s.push(t).drop_first() =~= s.drop_first().push(t));
        lemma_concat_all_push(s.drop_first(), t);
        assert(concat_all(s.push(t)) =~= concat_all(s) + t);
    }
}

/// The texts that a sequence of strings holds.
pub open spec fn views(v: Seq<String>) -> Seq<Seq<char>> {
    v.map_values(|s: String| s@)
}


/// The number of bytes that `&s[..n.min(s.len())]` keeps of the UTF-8 encoding of `s`.
pub open spec fn byte_cut(s: Seq<char>, n: nat) -> int {
    if n < encode_utf8(s).len() {
        n as int
    } else {
        encode_utf8(s).len() as int
    }
}

/// Whether cutting `s` after `n` bytes (or at its end) falls between two characters,
/// as slicing a `str` requires.
pub open spec fn cut_on_boundary(s: Seq<char>, n: nat) -> bool {
    is_char_boundary(encode_utf8(s), byte_cut(s, n))
}

/// The text of the first `n` bytes of `s` (or all of it): `&s[..n.min(s.len())]`.
pub open spec fn byte_prefix(s: Seq<char>, n: nat) -> Seq<char> {
    decode_utf8(encode_utf8(s).subrange(0, byte_cut(s, n)))
}

/// Tests whether cutting `s` after `n` bytes falls between two characters.
pub fn cut_ok(s: &str, n: usize) -> (r: bool)
    ensures
        r == cut_on_boundary(s@, n as nat),
{
    let len = s.as_bytes().len();
    let k = if n < len {
        n
    } else {
        len
    };
    s.is_char_boundary(k)
}

/// The first `n` bytes of `s`, or all of it: `&s[..n.min(s.len())]`, which panics when
/// the cut falls inside a character.
pub fn str_byte_prefix(s: &str, n: usize) -> (r: String)
    requires
        cut_on_boundary(s@, n as nat),
    ensures
        r@ == byte_prefix(s@, n as nat),
{
    let len = s.as_bytes().len();
    let k = if n < len {
        n
    } else {
        len
    };
    let (a, _b) = s.split_at(k);
    proof {
        encode_utf8_decode_utf8(a@);
    }
    a.to_owned()
}

/// `s` with every trailing `c` removed (`str::trim_end_matches` with a character).
pub open spec fn trim_end_char(s: Seq<char>, c: char) -> Seq<char>
    decreases s.len(),
{
    if s.len() > 0 && s.last() == c {
        trim_end_char(s.drop_last(), c)
    } else {
        s
    }
}

/// After `trim_end_matches`, the text no longer ends with that character, and it is a
/// prefix of the given one.
pub proof fn lemma_trim_end_char(s: Seq<char>, c: char)
    ensures
        trim_end_char(s, c).len() > 0 ==> trim_end_char(s, c).last() != c,
        trim_end_char(s, c).len() <= s.len(),
        trim_end_char(s, c) == s.subrange(0, trim_end_char(s, c).len() as int),
        forall|j: int| trim_end_char(s, c).len() <= j < s.len() ==> s[j] == c,
    decreases s.len(),
{
    if s.len() > 0 && s.last() == c {
        lemma_trim_end_char(s.drop_last(), c);
        assert forall|j: int| trim_end_char(s, c).len() <= j < s.len() implies s[j] == c by {
            if j < s.len() - 1 {
                assert(s[j] == s.drop_last()[j]);
            }
        }
        assert(s.drop_last().subrange(0, trim_end_char(s, c).len() as int) =~= s.subrange(
            0,
            trim_end_char(s, c).len() as int,
        ));
    } else {
        assert(s.subrange(0, s.len() as int) =~= s);
    }
}

/// Removes every trailing `c` from `s` (`str::trim_end_matches` with a character).
pub fn trim_end_matches_char(s: &str, c: char) -> (r: String)
    ensures
        r@ == trim_end_char(s@, c),
{
    let v = chars_of(s);
    let mut j = v.len();
    assert(v@.subrange(0, j as int) =~= v@);
    while j > 0 && v[j - 1] == c
        invariant
            j <= v@.len(),
            trim_end_char(v@, c) == trim_end_char(v@.subrange(0, j as int), c),
        decreases j,
    {
        assert(v@.subrange(0, j as int).drop_last() =~= v@.subrange(0, j - 1));
        j = j - 1;
    }
    slice_chars(v.as_slice(), 0, j)
}

/// What follows the last `sep` in `s`, or all of `s` when it holds none
/// (`s.rsplit(sep).next()`).
pub open spec fn after_last(s: Seq<char>, sep: char) -> Seq<char>
    decreases s.len(),
{
    if s.len() == 0 {
        s
    } else if s.last() == sep {
        Seq::empty()
    } else {
        after_last(s.drop_last(), sep).push(s.last())
    }
}

/// What follows the last `sep` in `s`, or all of `s` when it holds none.
pub fn last_segment(s: &str, sep: char) -> (r: String)
    ensures
        r@ == after_last(s@, sep),
{
    let v = chars_of(s);
    let n = v.len();
    let mut j = n;
    assert(v@.subrange(0, n as int) =~= v@);
    assert(v@.subrange(n as int, n as int) =~= Seq::<char>::empty());
    assert(v@ + Seq::<char>::empty() =~= v@);
    assert(after_last(v@, sep) + Seq::<char>::empty() =~= after_last(v@, sep));
    while j > 0 && v[j - 1] != sep
        invariant
            j <= n == v@.len(),
            after_last(v@, sep) == after_last(v@.subrange(0, j as int), sep) + v@.subrange(
                j as int,
                n as int,
            ),
        decreases j,
    {
        let ghost w = v@.subrange(0, j as int);
        assert(w.drop_last() =~= v@.subrange(0, j - 1));
        assert(after_last(w, sep) == after_last(w.drop_last(), sep).push(w.last()));
        assert(v@.subrange(j - 1, n as int) =~= seq![w.last()] + v@.subrange(j as int, n as int));
        assert(after_last(w.drop_last(), sep).push(w.last()) + v@.subrange(j as int, n as int)
            =~= after_last(w.drop_last(), sep) + v@.subrange(j - 1, n as int));
        j = j - 1;
    }
    assert(after_last(v@.subrange(0, j as int), sep) =~= Seq::<char>::empty());
    assert(after_last(v@, sep) =~= v@.subrange(j as int, n as int));
    slice_chars(v.as_slice(), j, n)
}

} // verus!
