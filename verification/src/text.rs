//! Text as the rest of the library sees it: a `&str` or a `String` is the
//! sequence of its characters, ordered by the bytes of its UTF-8 encoding.
use vstd::prelude::*;
use vstd::string::StringExecFns;
use vstd::utf8::*;

verus! {

broadcast use {vstd::string::group_string_axioms, vstd::utf8::group_utf8_lib};

/// `String::push` of std: the given character is appended to the end of the
/// string, and nothing else of it changes.
pub assume_specification[ String::push ](s: &mut String, c: char)
    ensures
        final(s)@ == old(s)@.push(c),
;

/// The characters of every string of a list.
pub open spec fn texts(list: Seq<String>) -> Seq<Seq<char>> {
    list.map_values(|s: String| s@)
}

/// The characters of a text that may be absent.
pub open spec fn opt(s: Option<String>) -> Option<Seq<char>> {
    match s {
        Some(t) => Some(t@),
        None => None,
    }
}

/// The characters of a borrowed text that may be absent.
pub open spec fn opt_str(s: Option<&str>) -> Option<Seq<char>> {
    match s {
        Some(t) => Some(t@),
        None => None,
    }
}

/// Two texts with the same encoding are the same text.
pub proof fn encoding_is_injective(a: Seq<char>, b: Seq<char>)
    ensures
        encode_utf8(a) == encode_utf8(b) ==> a == b,
{
    encode_utf8_decode_utf8(a);
    encode_utf8_decode_utf8(b);
}

/// Whether two texts hold the same characters.
pub fn same(a: &str, b: &str) -> (r: bool)
    ensures
        r == (a@ == b@),
{
    let x = a.as_bytes();
    let y = b.as_bytes();
    proof {
        encoding_is_injective(a@, b@);
    }
    if x.len() != y.len() {
        return false;
    }
    let mut i: usize = 0;
    while i < x.len()
        invariant
            i <= x.len(),
            x.len() == y.len(),
            forall|j: int| 0 <= j < i ==> x@[j] == y@[j],
            x@ == encode_utf8(a@),
            y@ == encode_utf8(b@),
        decreases x.len() - i,
    {
        if x[i] != y[i] {
            return false;
        }
        i = i + 1;
    }
    assert(x@ =~= y@);
    true
}

/// Whether two texts that may be absent are both absent or the same.
pub fn same_opt(a: Option<&str>, b: Option<&str>) -> (r: bool)
    ensures
        r == (opt_str(a) == opt_str(b)),
{
    match (a, b) {
        (None, None) => true,
        (Some(x), Some(y)) => same(x, y),
        _ => false,
    }
}

/// A text that may be absent, borrowed.
pub fn as_opt_str(s: &Option<String>) -> (r: Option<&str>)
    ensures
        opt_str(r) == opt(*s),
{
    match s {
        Some(t) => Some(t.as_str()),
        None => None,
    }
}

/// A copy of a text that may be absent.
pub fn copy_opt(s: &Option<String>) -> (r: Option<String>)
    ensures
        r == *s,
{
    match s {
        Some(t) => Some(t.clone()),
        None => None,
    }
}

/// A text that may be absent, owned.
pub fn own_opt(s: Option<&str>) -> (r: Option<String>)
    ensures
        opt(r) == opt_str(s),
{
    match s {
        Some(t) => Some(t.to_owned()),
        None => None,
    }
}

/// A copy of a list of texts.
pub fn copy_list(list: &[String]) -> (r: Vec<String>)
    ensures
        r@ == list@,
{
    let mut out: Vec<String> = Vec::new();
    let mut i: usize = 0;
    while i < list.len()
        invariant
            i <= list.len(),
            out@ == list@.take(i as int),
        decreases list.len() - i,
    {
        out.push(list[i].clone());
        assert(out@ =~= list@.take(i as int + 1));
        i = i + 1;
    }
    assert(out@ =~= list@);
    out
}

/// The characters of a text, one by one.
pub fn chars_of(s: &str) -> (r: Vec<char>)
    ensures
        r@ == s@,
{
    let mut out: Vec<char> = Vec::new();
    for c in it: s.chars()
        invariant
            out@ == s@.subrange(0, it.index() as int),
            it.seq() == s@,
    {
        out.push(c);
        assert(out@ =~= s@.subrange(0, it.index() as int + 1));
    }
    assert(s@.subrange(0, s@.len() as int) =~= s@);
    out
}

/// The text made of the characters `from..to` of a list.
pub fn text_of(chars: &[char], from: usize, to: usize) -> (r: String)
    requires
        from <= to <= chars@.len(),
    ensures
        r@ == chars@.subrange(from as int, to as int),
{
    let mut out = String::new();
    let mut i: usize = from;
    while i < to
        invariant
            from <= i <= to <= chars@.len(),
            out@ == chars@.subrange(from as int, i as int),
        decreases to - i,
    {
        out.push(chars[i]);
        i = i + 1;
        assert(out@ =~= chars@.subrange(from as int, i as int));
    }
    out
}

/// Two texts, one behind the other.
pub fn plus(a: String, b: &str) -> (r: String)
    ensures
        r@ == a@ + b@,
{
    let mut out = a;
    out.append(b);
    out
}

/// A control character: U+0000 to U+001F and U+007F to U+009F.
pub open spec fn is_control(c: char) -> bool {
    c as u32 <= 0x1f || 0x7f <= c as u32 <= 0x9f
}

/// An identity: not empty, at most 128 bytes, no control character.
pub open spec fn is_identity(s: Seq<char>) -> bool {
    &&& s.len() > 0
    &&& encode_utf8(s).len() <= 128
    &&& forall|i: int| 0 <= i < s.len() ==> !is_control(#[trigger] s[i])
}

/// Whether a text is an identity.
pub fn identity(s: &str) -> (r: bool)
    ensures
        r == is_identity(s@),
{
    let chars = chars_of(s);
    if chars.len() == 0 || s.as_bytes().len() > 128 {
        return false;
    }
    let mut i: usize = 0;
    while i < chars.len()
        invariant
            i <= chars.len(),
            chars@ == s@,
            forall|j: int| 0 <= j < i ==> !is_control(#[trigger] s@[j]),
        decreases chars.len() - i,
    {
        let code: u32 = chars[i] as u32;
        if code <= 0x1f || (0x7f <= code && code <= 0x9f) {
            assert(is_control(s@[i as int]));
            return false;
        }
        i = i + 1;
    }
    true
}

/// A lower-case hexadecimal digit.
pub open spec fn is_hex_digit(b: u8) -> bool {
    0x30 <= b <= 0x39 || 0x61 <= b <= 0x66
}

/// A digest in text form: 64 bytes, each a lower-case hexadecimal digit.
pub open spec fn is_hex(s: Seq<char>) -> bool {
    &&& encode_utf8(s).len() == 64
    &&& forall|i: int| 0 <= i < 64 ==> is_hex_digit(#[trigger] encode_utf8(s)[i])
}

/// Whether a text is a digest in text form.
pub fn hex(s: &str) -> (r: bool)
    ensures
        r == is_hex(s@),
{
    let bytes = s.as_bytes();
    if bytes.len() != 64 {
        return false;
    }
    let mut i: usize = 0;
    while i < 64
        invariant
            i <= 64,
            bytes@.len() == 64,
            bytes@ == encode_utf8(s@),
            forall|j: int| 0 <= j < i ==> is_hex_digit(#[trigger] encode_utf8(s@)[j]),
        decreases 64 - i,
    {
        let b: u8 = bytes[i];
        if !((0x30 <= b && b <= 0x39) || (0x61 <= b && b <= 0x66)) {
            assert(!is_hex_digit(encode_utf8(s@)[i as int]));
            return false;
        }
        i = i + 1;
    }
    true
}

/// A character with the Unicode property `White_Space`.
pub open spec fn is_space(c: char) -> bool {
    let n = c as u32;
    ||| 0x9 <= n <= 0xd
    ||| n == 0x20
    ||| n == 0x85
    ||| n == 0xa0
    ||| n == 0x1680
    ||| 0x2000 <= n <= 0x200a
    ||| n == 0x2028
    ||| n == 0x2029
    ||| n == 0x202f
    ||| n == 0x205f
    ||| n == 0x3000
}

fn space(c: char) -> (r: bool)
    ensures
        r == is_space(c),
{
    let n: u32 = c as u32;
    (0x9 <= n && n <= 0xd) || n == 0x20 || n == 0x85 || n == 0xa0 || n == 0x1680 || (0x2000 <= n
        && n <= 0x200a) || n == 0x2028 || n == 0x2029 || n == 0x202f || n == 0x205f || n == 0x3000
}

/// `inner` is `s` without the characters at both ends that satisfy `drop`.
pub open spec fn is_trimmed(s: Seq<char>, inner: Seq<char>, drop: spec_fn(char) -> bool) -> bool {
    exists|from: int, to: int| #[trigger] trimmed_at(s, inner, drop, from, to)
}

/// `inner` is `s[from..to]`, all that is cut off satisfies `drop`, and neither end of
/// `inner` does.
pub open spec fn trimmed_at(
    s: Seq<char>,
    inner: Seq<char>,
    drop: spec_fn(char) -> bool,
    from: int,
    to: int,
) -> bool {
    &&& 0 <= from <= to <= s.len()
    &&& inner == s.subrange(from, to)
    &&& forall|i: int| 0 <= i < from ==> drop(#[trigger] s[i])
    &&& forall|i: int| to <= i < s.len() ==> drop(#[trigger] s[i])
    &&& inner.len() > 0 ==> !drop(inner[0]) && !drop(inner.last())
}

/// There is only one text that is `s` trimmed.
pub proof fn trimming_is_unique(
    s: Seq<char>,
    a: Seq<char>,
    b: Seq<char>,
    drop: spec_fn(char) -> bool,
)
    requires
        is_trimmed(s, a, drop),
        is_trimmed(s, b, drop),
    ensures
        a == b,
{
    let (f, t) = choose|f: int, t: int| #[trigger] trimmed_at(s, a, drop, f, t);
    let (g, u) = choose|g: int, u: int| #[trigger] trimmed_at(s, b, drop, g, u);
    if a.len() > 0 {
        assert(a[0] == s[f] && a.last() == s[t - 1]);
        assert(g <= f);
        assert(t <= u);
    }
    if b.len() > 0 {
        assert(b[0] == s[g] && b.last() == s[u - 1]);
        assert(f <= g);
        assert(u <= t);
    }
    assert(a =~= b);
}

/// White space, as a predicate on characters.
pub open spec fn white() -> spec_fn(char) -> bool {
    |c: char| is_space(c)
}

/// One character, as a predicate on characters.
pub open spec fn only(wanted: char) -> spec_fn(char) -> bool {
    |c: char| c == wanted
}

/// `s` without the white space at both ends.
pub open spec fn trimmed(s: Seq<char>) -> Seq<char> {
    choose|inner: Seq<char>| is_trimmed(s, inner, white())
}

/// The text without the white space at both ends.
pub fn trim(s: &str) -> (r: String)
    ensures
        r@ == trimmed(s@),
        is_trimmed(s@, r@, white()),
{
    let chars = chars_of(s);
    let mut from: usize = 0;
    while from < chars.len() && space(chars[from])
        invariant
            from <= chars.len(),
            chars@ == s@,
            forall|i: int| 0 <= i < from ==> is_space(#[trigger] s@[i]),
        decreases chars.len() - from,
    {
        from = from + 1;
    }
    let mut to: usize = chars.len();
    while to > from && space(chars[to - 1])
        invariant
            from <= to <= chars.len(),
            chars@ == s@,
            forall|i: int| to <= i < s@.len() ==> is_space(#[trigger] s@[i]),
        decreases to,
    {
        to = to - 1;
    }
    let r = text_of(chars.as_slice(), from, to);
    proof {
        assert(trimmed_at(s@, r@, white(), from as int, to as int));
        assert(is_trimmed(s@, r@, white()));
        trimming_is_unique(s@, r@, trimmed(s@), white());
    }
    r
}

/// Whether a text holds only white space, or nothing.
pub open spec fn is_blank(s: Seq<char>) -> bool {
    forall|i: int| 0 <= i < s.len() ==> is_space(#[trigger] s[i])
}

/// Whether a text holds only white space, or nothing.
pub fn blank(s: &str) -> (r: bool)
    ensures
        r == is_blank(s@),
{
    let chars = chars_of(s);
    let mut i: usize = 0;
    while i < chars.len()
        invariant
            i <= chars.len(),
            chars@ == s@,
            forall|j: int| 0 <= j < i ==> is_space(#[trigger] s@[j]),
        decreases chars.len() - i,
    {
        if !space(chars[i]) {
            assert(!is_space(s@[i as int]));
            return false;
        }
        i = i + 1;
    }
    true
}

/// `needle` stands in `hay` from position `at` on.
pub open spec fn stands_at(hay: Seq<char>, needle: Seq<char>, at: int) -> bool {
    &&& 0 <= at <= hay.len() - needle.len()
    &&& forall|j: int| 0 <= j < needle.len() ==> #[trigger] hay[at + j] == needle[j]
}

/// `needle` stands somewhere in `hay`.
pub open spec fn holds(hay: Seq<char>, needle: Seq<char>) -> bool {
    exists|at: int| #[trigger] stands_at(hay, needle, at)
}

/// Whether `needle` stands somewhere in `hay`.
pub fn contains(hay: &[char], needle: &str) -> (r: bool)
    ensures
        r == holds(hay@, needle@),
{
    let wanted = chars_of(needle);
    if wanted.len() > hay.len() {
        return false;
    }
    let last: usize = hay.len() - wanted.len();
    let mut at: usize = 0;
    loop
        invariant
            at <= last,
            last == hay.len() - wanted.len(),
            wanted@ == needle@,
            forall|i: int| 0 <= i < at ==> !stands_at(hay@, needle@, i),
        decreases last - at,
    {
        let mut j: usize = 0;
        let mut equal = true;
        while j < wanted.len() && equal
            invariant
                at <= last,
                last == hay.len() - wanted.len(),
                wanted@ == needle@,
                j <= wanted.len(),
                equal ==> forall|k: int|
                    0 <= k < j ==> #[trigger] hay@[at + k] == needle@[k],
                !equal ==> !stands_at(hay@, needle@, at as int),
            decreases wanted.len() - j, (if equal { 1int } else { 0int }),
        {
            if hay[at + j] != wanted[j] {
                assert(hay@[at + j] != needle@[j as int]);
                equal = false;
            } else {
                j = j + 1;
            }
        }
        if equal {
            assert(stands_at(hay@, needle@, at as int));
            return true;
        }
        if at == last {
            return false;
        }
        at = at + 1;
    }
}

/// An ASCII capital letter in its small form; any other character as it is.
pub open spec fn lower(c: char) -> char {
    if 'A' <= c <= 'Z' {
        (c as u32 + 32) as char
    } else {
        c
    }
}

/// A text with its ASCII capital letters in their small form.
pub open spec fn lowered(s: Seq<char>) -> Seq<char> {
    s.map_values(|c: char| lower(c))
}

/// The characters of a text with the ASCII capital letters in their small form.
pub fn lower_chars(s: &str) -> (r: Vec<char>)
    ensures
        r@ == lowered(s@),
{
    let mut out = chars_of(s);
    let mut i: usize = 0;
    while i < out.len()
        invariant
            i <= out.len(),
            out.len() == s@.len(),
            forall|j: int| 0 <= j < i ==> out@[j] == lower(s@[j]),
            forall|j: int| i <= j < out.len() ==> out@[j] == s@[j],
        decreases out.len() - i,
    {
        let c: char = out[i];
        if 'A' <= c && c <= 'Z' {
            let n: u8 = c as u8;
            out.set(i, (n + 32) as char);
        }
        i = i + 1;
    }
    assert(out@ =~= lowered(s@));
    out
}

/// The decimal form of a natural number.
pub open spec fn digits(n: nat) -> Seq<char>
    decreases n,
{
    if n < 10 {
        seq![(48 + n) as char]
    } else {
        digits(n / 10).push((48 + n % 10) as char)
    }
}

/// The decimal form of an integer.
pub open spec fn decimal_form(n: int) -> Seq<char> {
    if n < 0 {
        seq!['-'] + digits((-n) as nat)
    } else {
        digits(n as nat)
    }
}

fn push_digits(out: &mut String, n: u64)
    ensures
        final(out)@ == old(out)@ + digits(n as nat),
    decreases n,
{
    if n >= 10 {
        push_digits(out, n / 10);
    }
    let d: u8 = (n % 10) as u8;
    out.push((48 + d) as char);
    assert(out@ =~= old(out)@ + digits(n as nat));
}

/// The decimal form of an integer.
pub fn decimal(n: i64) -> (r: String)
    ensures
        r@ == decimal_form(n as int),
{
    let mut out = String::new();
    if n < 0 {
        out.push('-');
        let m: u64 = (-(n as i128)) as u64;
        push_digits(&mut out, m);
    } else {
        push_digits(&mut out, n as u64);
    }
    assert(out@ =~= decimal_form(n as int));
    out
}

/// The decimal form of a count.
pub fn decimal_count(n: u64) -> (r: String)
    ensures
        r@ == digits(n as nat),
{
    let mut out = String::new();
    push_digits(&mut out, n);
    assert(out@ =~= digits(n as nat));
    out
}

/// A decimal digit.
pub open spec fn is_digit(c: char) -> bool {
    '0' <= c <= '9'
}

/// One or more decimal digits, and nothing else.
pub open spec fn all_digits(s: Seq<char>) -> bool {
    s.len() > 0 && forall|i: int| 0 <= i < s.len() ==> is_digit(#[trigger] s[i])
}

/// The number that digits write.
pub open spec fn digits_value(s: Seq<char>) -> nat
    decreases s.len(),
{
    if s.len() == 0 {
        0
    } else {
        (digits_value(s.drop_last()) * 10 + (s.last() as u32 - 48)) as nat
    }
}

/// A number without its sign.
pub open spec fn unsigned_part(s: Seq<char>) -> Seq<char> {
    if s.len() > 1 && (s[0] == '+' || s[0] == '-') {
        s.drop_first()
    } else {
        s
    }
}

/// The 64-bit integer that a text writes in decimal form, with or without a sign.
pub open spec fn parsed_int(s: Seq<char>) -> Option<int> {
    let u = unsigned_part(s);
    let v = if s.len() > 1 && s[0] == '-' {
        -(digits_value(u) as int)
    } else {
        digits_value(u) as int
    };
    if all_digits(u) && i64::MIN <= v <= i64::MAX {
        Some(v)
    } else {
        None
    }
}

proof fn digits_value_grows(s: Seq<char>, k: int)
    requires
        0 <= k <= s.len(),
        forall|i: int| 0 <= i < s.len() ==> is_digit(#[trigger] s[i]),
    ensures
        digits_value(s.take(k)) <= digits_value(s),
    decreases s.len() - k,
{
    if k < s.len() {
        digits_value_grows(s, k + 1);
        let next = s.take(k + 1);
        assert(next.drop_last() =~= s.take(k));
        assert(is_digit(s[k]));
        assert(next.last() == s[k]);
    } else {
        assert(s.take(k) =~= s);
    }
}

/// The 64-bit integer that a text writes in decimal form.
pub fn parse_int(s: &str) -> (r: Option<i64>)
    ensures
        match r {
            Some(n) => parsed_int(s@) == Some(n as int),
            None => parsed_int(s@) is None,
        },
{
    let chars = chars_of(s);
    let signed = chars.len() > 1 && (chars[0] == '+' || chars[0] == '-');
    let negative = signed && chars[0] == '-';
    let from: usize = if signed {
        1
    } else {
        0
    };
    let ghost u = unsigned_part(s@);
    assert(u =~= s@.subrange(from as int, s@.len() as int));
    if chars.len() == 0 {
        return None;
    }
    let mut value: i128 = 0;
    let mut i: usize = from;
    assert(u.take(0) =~= Seq::empty());
    while i < chars.len()
        invariant
            from <= i <= chars.len(),
            chars@ == s@,
            u == unsigned_part(s@),
            u == s@.subrange(from as int, s@.len() as int),
            0 <= value <= 0x8000_0000_0000_0000,
            value == digits_value(u.take(i - from)),
            forall|j: int| 0 <= j < i - from ==> is_digit(#[trigger] u[j]),
        decreases chars.len() - i,
    {
        let c: char = chars[i];
        let ghost k = i - from;
        assert(u[k] == c);
        if !('0' <= c && c <= '9') {
            assert(!is_digit(u[k]));
            return None;
        }
        let d: i128 = (c as u32 - 48) as i128;
        proof {
            assert(u.take(k + 1).drop_last() =~= u.take(k));
            assert(u.take(k + 1).last() == c);
        }
        value = value * 10 + d;
        if value > 0x8000_0000_0000_0000 {
            proof {
                if all_digits(u) {
                    digits_value_grows(u, k + 1);
                }
            }
            return None;
        }
        i = i + 1;
    }
    assert(u.take(i - from) =~= u);
    if negative {
        return Some((-value) as i64);
    }
    if value > 0x7fff_ffff_ffff_ffff {
        return None;
    }
    Some(value as i64)
}

proof fn digits_have_their_value(n: nat)
    ensures
        digits_value(digits(n)) == n,
        all_digits(digits(n)),
    decreases n,
{
    if n < 10 {
        let d = (48 + n) as char;
        assert(digits(n).drop_last() =~= Seq::empty());
        assert(digits(n).last() == d);
        assert(digits_value(Seq::<char>::empty()) == 0);
        assert(digits_value(digits(n)) == n);
    } else {
        digits_have_their_value(n / 10);
        let d = (48 + n % 10) as char;
        let head = digits(n / 10);
        assert(digits(n).drop_last() =~= head);
        assert(digits(n).last() == d);
        assert forall|i: int| 0 <= i < digits(n).len() implies is_digit(#[trigger] digits(n)[i]) by {
            if i < head.len() {
                assert(is_digit(head[i]));
            }
        }
        assert(digits_value(digits(n)) == n);
    }
}

/// An integer that was written in decimal form is read back as it was.
pub proof fn integers_read_back(n: i64)
    ensures
        parsed_int(decimal_form(n as int)) == Some(n as int),
        n >= 0 ==> decimal_form(n as int) == digits(n as nat),
        n < 0 ==> decimal_form(n as int)[0] == '-',
{
    if n < 0 {
        let m = (-(n as int)) as nat;
        digits_have_their_value(m);
        assert(decimal_form(n as int).drop_first() =~= digits(m));
        assert(digits(m).len() > 0);
    } else {
        let m = n as nat;
        digits_have_their_value(m);
        let s = digits(m);
        assert(is_digit(s[0]));
        assert(unsigned_part(s) == s);
    }
}

/// A text that is read as an integer has digits only, behind a sign or none, and the integer that it is
/// read as is no larger than 64 bits hold.
pub proof fn only_digits_are_integers(s: Seq<char>, i: int)
    requires
        parsed_int(s) is Some,
        0 <= i < s.len(),
    ensures
        '0' <= s[i] <= '9' || (i == 0 && s.len() > 1 && (s[0] == '-' || s[0] == '+')),
        i64::MIN <= parsed_int(s)->Some_0 <= i64::MAX,
        s[0] == '-' ==> parsed_int(s)->Some_0 <= 0,
        s[0] != '-' ==> parsed_int(s)->Some_0 >= 0,
{
    let u = unsigned_part(s);
    if u == s {
        assert(is_digit(u[i]));
        assert(is_digit(u[0]));
    } else if i > 0 {
        assert(is_digit(u[i - 1]));
    }
}

/// A trimmed text is what stands between the white space at both ends.
pub proof fn white_space_is_trimmed(before: Seq<char>, inner: Seq<char>, after: Seq<char>)
    requires
        forall|i: int| 0 <= i < before.len() ==> is_space(#[trigger] before[i]),
        forall|i: int| 0 <= i < after.len() ==> is_space(#[trigger] after[i]),
        inner.len() > 0 ==> !is_space(inner[0]) && !is_space(inner.last()),
    ensures
        trimmed(before + inner + after) == inner,
{
    let s = before + inner + after;
    let from = before.len() as int;
    let to = from + inner.len();
    assert(s.subrange(from, to) =~= inner);
    assert forall|i: int| 0 <= i < from implies white()(#[trigger] s[i]) by {
        assert(s[i] == before[i]);
    }
    assert forall|i: int| to <= i < s.len() implies white()(#[trigger] s[i]) by {
        assert(s[i] == after[i - to]);
    }
    assert(trimmed_at(s, inner, white(), from, to));
    assert(is_trimmed(s, inner, white()));
    trimming_is_unique(s, inner, trimmed(s), white());
}

/// White space is the space, the tab, the ends of lines and pages, and the other spaces of Unicode; no
/// letter, digit or sign of ASCII is.
pub proof fn letters_are_no_white_space(c: char)
    ensures
        c == ' ' || c == '\t' || c == '\n' || c == '\r' || c == '\u{b}' || c == '\u{c}' || c == '\u{85}'
            || c == '\u{a0}' || c == '\u{3000}' ==> is_space(c),
        '!' <= c <= '~' ==> !is_space(c),
{
}

/// A text is blank exactly where it has no character but white space.
pub proof fn blank_texts_are_white(s: Seq<char>, i: int)
    requires
        0 <= i < s.len(),
    ensures
        !is_space(s[i]) ==> !is_blank(s),
        is_blank(Seq::empty()),
        is_blank(s) ==> is_space(s[i]),
{
}

/// A text names something exactly where it is not empty, has at most 128 bytes and no control
/// character.
pub proof fn names_are_short_and_printable(s: Seq<char>, i: int)
    requires
        0 <= i < s.len(),
    ensures
        is_identity(s) ==> encode_utf8(s).len() <= 128 && !(s[i] as u32 <= 0x1f || 0x7f <= s[i] as u32
            <= 0x9f),
        !is_identity(Seq::empty()),
        encode_utf8(s).len() > 128 ==> !is_identity(s),
        s[i] == '\n' || s[i] == '\0' || s[i] == '\u{7f}' ==> !is_identity(s),
        encode_utf8(s).len() <= 128 && (forall|j: int|
            0 <= j < s.len() ==> ' ' <= #[trigger] s[j] <= '~') ==> is_identity(s),
{
}

/// 64 digits of lower-case hexadecimal are a digest, and nothing of another length is.
pub proof fn digests_are_hexadecimal(s: Seq<char>)
    ensures
        s.len() == 64 && (forall|i: int|
            0 <= i < 64 ==> '0' <= #[trigger] s[i] <= '9' || 'a' <= s[i] <= 'f') ==> is_hex(s),
        encode_utf8(s).len() != 64 ==> !is_hex(s),
        is_hex(s) ==> forall|i: int|
            0 <= i < 64 ==> 0x30 <= #[trigger] encode_utf8(s)[i] <= 0x39 || 0x61 <= encode_utf8(s)[i]
                <= 0x66,
{
    if s.len() == 64 && (forall|i: int|
        0 <= i < 64 ==> '0' <= #[trigger] s[i] <= '9' || 'a' <= s[i] <= 'f') {
        assert(is_ascii_chars(s)) by {
            assert forall|i: int| 0 <= i < s.len() implies 0 <= #[trigger] s[i] as u32 <= 127 by {
                assert('0' <= s[i] <= '9' || 'a' <= s[i] <= 'f');
            }
        }
        is_ascii_chars_encode_utf8(s);
        assert forall|i: int| 0 <= i < 64 implies is_hex_digit(#[trigger] encode_utf8(s)[i]) by {
            assert('0' <= s[i] <= '9' || 'a' <= s[i] <= 'f');
            assert(encode_utf8(s)[i] == s[i] as u8);
        }
    }
}

/// Lower case changes the capital letters of ASCII, and nothing else.
pub proof fn lower_case_keeps_the_rest(s: Seq<char>, i: int)
    requires
        0 <= i < s.len(),
    ensures
        lowered(s).len() == s.len(),
        !('A' <= s[i] <= 'Z') ==> lowered(s)[i] == s[i],
        'A' <= s[i] <= 'Z' ==> lowered(s)[i] as u32 == s[i] as u32 + 32,
        !('A' <= lowered(s)[i] <= 'Z'),
{
}

/// A text holds another exactly where it is made of something, the other, and something.
pub proof fn texts_hold_their_parts(before: Seq<char>, needle: Seq<char>, after: Seq<char>)
    ensures
        holds(before + needle + after, needle),
        holds(needle, needle),
        before.len() < needle.len() ==> !holds(before, needle),
{
    let hay = before + needle + after;
    assert(stands_at(hay, needle, before.len() as int));
    assert(stands_at(needle, needle, 0));
}

/// The texts of a list stand in the order of the list, and a text that may be absent is absent or the
/// text.
pub proof fn texts_are_of_their_list(list: Seq<String>, i: int)
    requires
        0 <= i < list.len(),
    ensures
        texts(list).len() == list.len(),
        texts(list)[i] == list[i]@,
        opt(Some(list[i])) == Some(list[i]@),
        opt(None) is None,
        opt_str(None) is None,
{
}

} // verus!
