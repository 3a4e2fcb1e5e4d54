//! String operations with exact contracts over sequences of characters.

use vstd::prelude::*;
use vstd::utf8::*;

verus! {

/// Whether `c` has the Unicode `White_Space` property.
pub open spec fn is_white(c: char) -> bool {
    let u = c as u32;
    ||| 0x9 <= u <= 0xd
    ||| u == 0x20
    ||| u == 0x85
    ||| u == 0xa0
    ||| u == 0x1680
    ||| 0x2000 <= u <= 0x200a
    ||| u == 0x2028
    ||| u == 0x2029
    ||| u == 0x202f
    ||| u == 0x205f
    ||| u == 0x3000
}

/// `s` without its leading white space.
pub open spec fn trim_front(s: Seq<char>) -> Seq<char>
    decreases s.len(),
{
    if s.len() > 0 && is_white(s[0]) {
        trim_front(s.drop_first())
    } else {
        s
    }
}

/// `s` without its trailing white space.
pub open spec fn trim_back(s: Seq<char>) -> Seq<char>
    decreases s.len(),
{
    if s.len() > 0 && is_white(s.last()) {
        trim_back(s.drop_last())
    } else {
        s
    }
}

/// `s` without leading and trailing white space.
pub open spec fn trimmed(s: Seq<char>) -> Seq<char> {
    trim_back(trim_front(s))
}

/// Whether `s` holds nothing but white space.
pub open spec fn is_blank(s: Seq<char>) -> bool {
    trimmed(s).len() == 0
}

/// The decimal digit that `d` stands for.
pub open spec fn digit_char(d: nat) -> char {
    (d + 48) as char
}

/// Decimal notation of `n`, without leading zeros.
pub open spec fn decimal(n: nat) -> Seq<char>
    decreases n,
{
    if n < 10 {
        seq![digit_char(n)]
    } else {
        decimal(n / 10).push(digit_char(n % 10))
    }
}

/// Whether `c` is one of the ten ASCII digits.
pub open spec fn is_digit(c: char) -> bool {
    48 <= c as u32 <= 57
}

/// The number that a run of digits denotes.
pub open spec fn digits_value(s: Seq<char>) -> nat
    decreases s.len(),
{
    if s.len() == 0 {
        0
    } else {
        digits_value(s.drop_last()) * 10 + (s.last() as u32 - 48) as nat
    }
}

/// Whether `s` is one or more ASCII digits.
pub open spec fn all_digits(s: Seq<char>) -> bool {
    s.len() > 0 && forall|i: int| 0 <= i < s.len() ==> is_digit(#[trigger] s[i])
}

/// `s` without one leading plus sign.
pub open spec fn without_plus(s: Seq<char>) -> Seq<char> {
    if s.len() > 0 && s[0] == '+' {
        s.drop_first()
    } else {
        s
    }
}

/// The number written in `s`: an optional plus sign, then digits, within `usize`.
pub open spec fn parsed_usize(s: Seq<char>) -> Option<usize> {
    let d = without_plus(s);
    if all_digits(d) && digits_value(d) <= usize::MAX {
        Some(digits_value(d) as usize)
    } else {
        None
    }
}

/// Whether `s` begins with `p`.
pub open spec fn has_prefix(s: Seq<char>, p: Seq<char>) -> bool {
    p.len() <= s.len() && s.subrange(0, p.len() as int) == p
}

/// Whether `p` occurs in `s` at position `i`.
pub open spec fn occurs_at(s: Seq<char>, p: Seq<char>, i: int) -> bool {
    0 <= i && i + p.len() <= s.len() && s.subrange(i, i + p.len()) == p
}

/// Whether `p` occurs somewhere in `s`.
pub open spec fn has_substring(s: Seq<char>, p: Seq<char>) -> bool {
    exists|i: int| occurs_at(s, p, i)
}

/// `parts` put together with `sep` between neighbours.
pub open spec fn joined(parts: Seq<Seq<char>>, sep: Seq<char>) -> Seq<char>
    decreases parts.len(),
{
    if parts.len() == 0 {
        Seq::empty()
    } else if parts.len() == 1 {
        parts[0]
    } else {
        joined(parts.drop_last(), sep) + sep + parts.last()
    }
}

/// The character sequences that the strings of `v` hold.
pub open spec fn views(v: Seq<String>) -> Seq<Seq<char>> {
    v.map_values(|s: String| s@)
}

/// What an optional string holds.
pub open spec fn opt_view(o: Option<String>) -> Option<Seq<char>> {
    match o {
        Some(s) => Some(s@),
        None => None,
    }
}

/// What an optional string slice holds.
pub open spec fn opt_str_view(o: Option<&str>) -> Option<Seq<char>> {
    match o {
        Some(s) => Some(s@),
        None => None,
    }
}

/// Whether two string slices hold the same characters.
pub fn str_eq(a: &str, b: &str) -> (r: bool)
    ensures
        r == (a@ == b@),
{
    let x = a.as_bytes();
    let y = b.as_bytes();
    proof {
        encode_utf8_decode_utf8(a@);
        encode_utf8_decode_utf8(b@);
    }
    if x.len() != y.len() {
        return false;
    }
    let mut i: usize = 0;
    while i < x.len()
        invariant
            i <= x@.len(),
            x@.len() == y@.len(),
            x@ == encode_utf8(a@),
            y@ == encode_utf8(b@),
            forall|j: int| 0 <= j < i ==> x@[j] == y@[j],
        decreases x@.len() - i,
    {
        if x[i] != y[i] {
            assert(x@ != y@);
            return false;
        }
        i = i + 1;
    }
    assert(x@ =~= y@);
    true
}

/// Whether `s` holds `p` when both are read as string slices of a `String`.
pub fn string_is(s: &String, p: &str) -> (r: bool)
    ensures
        r == (s@ == p@),
{
    str_eq(s.as_str(), p)
}

/// The characters of `s`, in order.
pub fn chars_of(s: &str) -> (v: Vec<char>)
    ensures
        v@ == s@,
{
    let mut v: Vec<char> = Vec::new();
    for c in it: s.chars()
        invariant
            v@ == it.seq().take(it.index() as int),
    {
        v.push(c);
    }
    v
}

/// Whether `c` is white space.
pub fn is_white_char(c: char) -> (r: bool)
    ensures
        r == is_white(c),
{
    let u = c as u32;
    (u >= 0x9 && u <= 0xd) || u == 0x20 || u == 0x85 || u == 0xa0 || u == 0x1680 || (u >= 0x2000 && u
        <= 0x200a) || u == 0x2028 || u == 0x2029 || u == 0x202f || u == 0x205f || u == 0x3000
}

proof fn lemma_trim_front_at(s: Seq<char>, i: int)
    requires
        0 <= i <= s.len(),
        forall|j: int| 0 <= j < i ==> is_white(#[trigger] s[j]),
        i < s.len() ==> !is_white(s[i]),
    ensures
        trim_front(s) == s.subrange(i, s.len() as int),
    decreases i,
{
    if i == 0 {
        assert(s.subrange(0, s.len() as int) =~= s);
    } else {
        assert(is_white(s[0]));
        let t = s.drop_first();
        assert forall|j: int| 0 <= j < i - 1 implies is_white(#[trigger] t[j]) by {
            assert(t[j] == s[j + 1]);
        }
        lemma_trim_front_at(t, i - 1);
        assert(t.subrange(i - 1, t.len() as int) =~= s.subrange(i, s.len() as int));
    }
}

proof fn lemma_trim_back_at(s: Seq<char>, n: int)
    requires
        0 <= n <= s.len(),
        forall|j: int| n <= j < s.len() ==> is_white(#[trigger] s[j]),
        n > 0 ==> !is_white(s[n - 1]),
    ensures
        trim_back(s) == s.subrange(0, n),
    decreases s.len() - n,
{
    if n == s.len() {
        assert(s.subrange(0, n) =~= s);
    } else {
        assert(is_white(s[s.len() - 1]));
        let t = s.drop_last();
        assert forall|j: int| n <= j < t.len() implies is_white(#[trigger] t[j]) by {
            assert(t[j] == s[j]);
        }
        lemma_trim_back_at(t, n);
        assert(t.subrange(0, n) =~= s.subrange(0, n));
    }
}

/// `s` without leading and trailing white space.
pub fn trim(s: &str) -> (r: &str)
    ensures
        r@ == trimmed(s@),
{
    let v = chars_of(s);
    let mut i: usize = 0;
    while i < v.len() && is_white_char(v[i])
        invariant
            i <= v@.len(),
            forall|j: int| 0 <= j < i ==> is_white(#[trigger] v@[j]),
        decreases v@.len() - i,
    {
        i = i + 1;
    }
    let mut n: usize = v.len();
    while n > i && is_white_char(v[n - 1])
        invariant
            i <= n <= v@.len(),
            forall|j: int| n <= j < v@.len() ==> is_white(#[trigger] v@[j]),
        decreases n,
    {
        n = n - 1;
    }
    proof {
        lemma_trim_front_at(v@, i as int);
        let t = v@.subrange(i as int, v@.len() as int);
        assert forall|j: int| n - i <= j < t.len() implies is_white(#[trigger] t[j]) by {
            assert(t[j] == v@[j + i]);
        }
        lemma_trim_back_at(t, n - i);
        assert(t.subrange(0, n - i) =~= v@.subrange(i as int, n as int));
    }
    s.substring_char(i, n)
}

/// Whether `s` is empty or white space only.
pub fn blank(s: &str) -> (r: bool)
    ensures
        r == is_blank(s@),
{
    trim(s).is_empty()
}

/// What follows `p` in `s`, where `s` begins with `p`.
pub fn strip_prefix<'a>(s: &'a str, p: &str) -> (r: Option<&'a str>)
    ensures
        match r {
            Some(rest) => has_prefix(s@, p@) && rest@ == s@.subrange(p@.len() as int, s@.len() as int),
            None => !has_prefix(s@, p@),
        },
{
    let n: usize = s.unicode_len();
    let k: usize = p.unicode_len();
    if k > n {
        return None;
    }
    if str_eq(s.substring_char(0, k), p) {
        Some(s.substring_char(k, n))
    } else {
        None
    }
}

/// The first position at which `p` occurs in `s`, counted in characters.
pub fn find(s: &str, p: &str) -> (r: Option<usize>)
    ensures
        match r {
            Some(i) => occurs_at(s@, p@, i as int) && forall|j: int| 0 <= j < i ==> !occurs_at(s@, p@, j),
            None => !has_substring(s@, p@),
        },
{
    let n: usize = s.unicode_len();
    let k: usize = p.unicode_len();
    if k > n {
        assert forall|i: int| !occurs_at(s@, p@, i) by {}
        return None;
    }
    let mut i: usize = 0;
    loop
        invariant
            n == s@.len(),
            k == p@.len(),
            k <= n,
            i <= n - k,
            forall|j: int| 0 <= j < i ==> !occurs_at(s@, p@, j),
        decreases n - k - i,
    {
        if str_eq(s.substring_char(i, i + k), p) {
            return Some(i);
        }
        if i == n - k {
            assert forall|j: int| !occurs_at(s@, p@, j) by {}
            return None;
        }
        i = i + 1;
    }
}

/// Whether `p` occurs in `s`.
pub fn contains(s: &str, p: &str) -> (r: bool)
    ensures
        r == has_substring(s@, p@),
{
    match find(s, p) {
        Some(i) => {
            assert(occurs_at(s@, p@, i as int));
            true
        },
        None => false,
    }
}

fn digit_text(d: u64) -> (r: &'static str)
    requires
        d < 10,
    ensures
        r@ == seq![digit_char(d as nat)],
{
    proof {
        reveal_strlit("0");
        reveal_strlit("1");
        reveal_strlit("2");
        reveal_strlit("3");
        reveal_strlit("4");
        reveal_strlit("5");
        reveal_strlit("6");
        reveal_strlit("7");
        reveal_strlit("8");
        reveal_strlit("9");
    }
    if d == 0 {
        "0"
    } else if d == 1 {
        "1"
    } else if d == 2 {
        "2"
    } else if d == 3 {
        "3"
    } else if d == 4 {
        "4"
    } else if d == 5 {
        "5"
    } else if d == 6 {
        "6"
    } else if d == 7 {
        "7"
    } else if d == 8 {
        "8"
    } else {
        "9"
    }
}

/// Decimal notation of `n`.
pub fn decimal_u64(n: u64) -> (r: String)
    ensures
        r@ == decimal(n as nat),
    decreases n,
{
    if n < 10 {
        digit_text(n).to_owned()
    } else {
        let mut r = decimal_u64(n / 10);
        r.append(digit_text(n % 10));
        assert(decimal(n as nat) =~= decimal(n as nat / 10) + seq![digit_char(n as nat % 10)]);
        r
    }
}

/// Decimal notation of `n`.
pub fn decimal_text(n: usize) -> (r: String)
    ensures
        r@ == decimal(n as nat),
{
    decimal_u64(n as u64)
}

/// Decimal notation of a signed number.
pub open spec fn signed_decimal(n: int) -> Seq<char> {
    if n < 0 {
        "-"@ + decimal((-n) as nat)
    } else {
        decimal(n as nat)
    }
}

/// Decimal notation of a signed number.
pub fn decimal_i64(n: i64) -> (r: String)
    ensures
        r@ == signed_decimal(n as int),
{
    if n < 0 {
        let m: u64 = (-(n + 1)) as u64 + 1;
        let mut r = "-".to_owned();
        r.append(decimal_u64(m).as_str());
        r
    } else {
        decimal_u64(n as u64)
    }
}

proof fn lemma_digits_value_grows(s: Seq<char>, k: int)
    requires
        0 <= k <= s.len(),
    ensures
        digits_value(s.subrange(0, k)) <= digits_value(s),
    decreases s.len() - k,
{
    if k == s.len() {
        assert(s.subrange(0, k) =~= s);
    } else {
        lemma_digits_value_grows(s, k + 1);
        let t = s.subrange(0, k + 1);
        assert(t.drop_last() =~= s.subrange(0, k));
    }
}

/// The number written in `s`, as `str::parse::<usize>` reads it.
pub fn parse_usize(s: &str) -> (r: Option<usize>)
    ensures
        r == parsed_usize(s@),
{
    let v = chars_of(s);
    let start: usize = if v.len() > 0 && v[0] == '+' {
        1
    } else {
        0
    };
    let ghost d = without_plus(s@);
    assert(d =~= v@.subrange(start as int, v@.len() as int));
    if start >= v.len() {
        return None;
    }
    let mut value: usize = 0;
    let mut i: usize = start;
    while i < v.len()
        invariant
            start <= i <= v@.len(),
            start < v@.len(),
            d == v@.subrange(start as int, v@.len() as int),
            d == without_plus(s@),
            forall|j: int| 0 <= j < i - start ==> is_digit(#[trigger] d[j]),
            value == digits_value(d.subrange(0, i - start)),
        decreases v@.len() - i,
    {
        let u = v[i] as u32;
        assert(d[i - start] == v@[i as int]);
        if u < 48 || u > 57 {
            assert(!all_digits(d));
            return None;
        }
        let digit: usize = (u - 48) as usize;
        proof {
            let t = d.subrange(0, i - start + 1);
            assert(t.drop_last() =~= d.subrange(0, i - start));
            assert(digits_value(t) == value * 10 + digit);
            lemma_digits_value_grows(d, i - start + 1);
        }
        if value > usize::MAX / 10 || value * 10 > usize::MAX - digit {
            return None;
        }
        value = value * 10 + digit;
        i = i + 1;
    }
    assert(d.subrange(0, v@.len() - start) =~= d);
    Some(value)
}

/// The decimal notation of a number is a run of digits that denotes it.
pub proof fn lemma_decimal_digits(n: nat)
    ensures
        all_digits(decimal(n)),
        digits_value(decimal(n)) == n,
    decreases n,
{
    if n < 10 {
        let s = decimal(n);
        assert(s.drop_last() =~= Seq::<char>::empty());
        assert(digits_value(s.drop_last()) == 0);
    } else {
        lemma_decimal_digits(n / 10);
        let s = decimal(n);
        assert(s.drop_last() =~= decimal(n / 10));
        assert forall|i: int| 0 <= i < s.len() implies is_digit(#[trigger] s[i]) by {
            if i < s.len() - 1 {
                assert(s[i] == decimal(n / 10)[i]);
            }
        }
    }
}

/// Reading back the decimal notation of a `usize` gives the number.
pub proof fn lemma_parse_decimal(n: usize)
    ensures
        parsed_usize(decimal(n as nat)) == Some(n),
{
    lemma_decimal_digits(n as nat);
    let s = decimal(n as nat);
    assert(is_digit(s[0]));
    assert(without_plus(s) == s);
}

/// The strings of `parts` with `sep` between neighbours.
pub fn join(parts: &Vec<String>, sep: &str) -> (r: String)
    ensures
        r@ == joined(views(parts@), sep@),
{
    let mut r = String::new();
    let mut i: usize = 0;
    while i < parts.len()
        invariant
            i <= parts@.len(),
            r@ == joined(views(parts@.subrange(0, i as int)), sep@),
        decreases parts@.len() - i,
    {
        let ghost before = views(parts@.subrange(0, i as int));
        let ghost after = views(parts@.subrange(0, i + 1));
        assert(after.drop_last() =~= before);
        assert(after.last() == parts@[i as int]@);
        if i > 0 {
            r.append(sep);
        }
        r.append(parts[i].as_str());
        proof {
            if i == 0 {
                assert(r@ =~= after[0]);
            }
        }
        i = i + 1;
    }
    assert(parts@.subrange(0, parts@.len() as int) =~= parts@);
    r
}

/// Whether `v` holds a string equal to `s`.
pub fn list_contains(v: &Vec<String>, s: &str) -> (r: bool)
    ensures
        r == views(v@).contains(s@),
{
    let mut i: usize = 0;
    while i < v.len()
        invariant
            i <= v@.len(),
            forall|j: int| 0 <= j < i ==> v@[j]@ != s@,
        decreases v@.len() - i,
    {
        if string_is(&v[i], s) {
            assert(views(v@)[i as int] == s@);
            return true;
        }
        i = i + 1;
    }
    assert forall|j: int| 0 <= j < views(v@).len() implies views(v@)[j] != s@ by {}
    false
}

/// A copy of `v` that holds the same strings.
pub fn clone_list(v: &Vec<String>) -> (r: Vec<String>)
    ensures
        r@ == v@,
        views(r@) == views(v@),
{
    let mut r: Vec<String> = Vec::new();
    let mut i: usize = 0;
    while i < v.len()
        invariant
            i <= v@.len(),
            r@ == v@.subrange(0, i as int),
        decreases v@.len() - i,
    {
        r.push(v[i].clone());
        i = i + 1;
    }
    assert(r@ =~= v@);
    r
}

/// A copy of an optional string.
pub fn clone_opt(o: &Option<String>) -> (r: Option<String>)
    ensures
        r == *o,
        opt_view(r) == opt_view(*o),
{
    match o {
        Some(s) => Some(s.clone()),
        None => None,
    }
}

/// Two string slices, one after the other.
pub fn concat2(a: &str, b: &str) -> (r: String)
    ensures
        r@ == a@ + b@,
{
    let mut r = a.to_owned();
    r.append(b);
    r
}

/// Three string slices, one after the other.
pub fn concat3(a: &str, b: &str, c: &str) -> (r: String)
    ensures
        r@ == a@ + b@ + c@,
{
    let mut r = a.to_owned();
    r.append(b);
    r.append(c);
    r
}

/// What `{:?}` prints for a string: it in quotes, with characters escaped.
pub uninterp spec fn quoted(s: Seq<char>) -> Seq<char>;

/// Calls the `Debug` formatter of `str`. The result is named [`quoted`].
#[verifier::external_body]
fn debug_str(s: &str) -> (r: String)
    ensures
        r@ == quoted(s@),
{
    format!("{:?}", s)
}

/// A string in quotes, with characters escaped.
pub fn quote(s: &str) -> (r: String)
    ensures
        r@ == quoted(s@),
{
    debug_str(s)
}

proof fn lemma_trim_front_cuts(s: Seq<char>)
    ensures
        exists|i: int|
            {
                &&& 0 <= i <= s.len()
                &&& trim_front(s) == #[trigger] s.skip(i)
                &&& forall|k: int| 0 <= k < i ==> is_white(#[trigger] s[k])
                &&& i < s.len() ==> !is_white(s[i])
            },
    decreases s.len(),
{
    if s.len() > 0 && is_white(s[0]) {
        let rest = s.drop_first();
        lemma_trim_front_cuts(rest);
        let i = choose|i: int|
            {
                &&& 0 <= i <= rest.len()
                &&& trim_front(rest) == #[trigger] rest.skip(i)
                &&& forall|k: int| 0 <= k < i ==> is_white(#[trigger] rest[k])
                &&& i < rest.len() ==> !is_white(rest[i])
            };
        assert(rest.skip(i) =~= s.skip(i + 1));
        assert forall|k: int| 0 <= k < i + 1 implies is_white(#[trigger] s[k]) by {
            if k > 0 {
                assert(rest[k - 1] == s[k]);
            }
        }
    } else {
        assert(s.skip(0) =~= s);
    }
}

proof fn lemma_trim_back_cuts(s: Seq<char>)
    ensures
        exists|n: int|
            {
                &&& 0 <= n <= s.len()
                &&& trim_back(s) == #[trigger] s.take(n)
                &&& forall|k: int| n <= k < s.len() ==> is_white(#[trigger] s[k])
                &&& n > 0 ==> !is_white(s[n - 1])
            },
    decreases s.len(),
{
    if s.len() > 0 && is_white(s.last()) {
        let rest = s.drop_last();
        lemma_trim_back_cuts(rest);
        let n = choose|n: int|
            {
                &&& 0 <= n <= rest.len()
                &&& trim_back(rest) == #[trigger] rest.take(n)
                &&& forall|k: int| n <= k < rest.len() ==> is_white(#[trigger] rest[k])
                &&& n > 0 ==> !is_white(rest[n - 1])
            };
        assert(rest.take(n) =~= s.take(n));
        assert forall|k: int| n <= k < s.len() implies is_white(#[trigger] s[k]) by {
            if k < rest.len() {
                assert(rest[k] == s[k]);
            }
        }
    } else {
        assert(s.take(s.len() as int) =~= s);
    }
}

/// Trimming cuts white space off both ends and nothing else: what is left stands in the
/// text as it was, neither begins nor ends with white space, and only white space was cut.
pub proof fn law_trimming_cuts_white_space_only(s: Seq<char>)
    ensures
        exists|i: int, j: int|
            {
                &&& 0 <= i <= j <= s.len()
                &&& trimmed(s) == #[trigger] s.subrange(i, j)
                &&& forall|k: int| 0 <= k < i || j <= k < s.len() ==> is_white(#[trigger] s[k])
                &&& i < j ==> !is_white(s[i]) && !is_white(s[j - 1])
            },
        is_blank(s) <==> forall|k: int| 0 <= k < s.len() ==> is_white(#[trigger] s[k]),
{
    lemma_trim_front_cuts(s);
    let i = choose|i: int|
        {
            &&& 0 <= i <= s.len()
            &&& trim_front(s) == #[trigger] s.skip(i)
            &&& forall|k: int| 0 <= k < i ==> is_white(#[trigger] s[k])
            &&& i < s.len() ==> !is_white(s[i])
        };
    let t = s.skip(i);
    lemma_trim_back_cuts(t);
    let n = choose|n: int|
        {
            &&& 0 <= n <= t.len()
            &&& trim_back(t) == #[trigger] t.take(n)
            &&& forall|k: int| n <= k < t.len() ==> is_white(#[trigger] t[k])
            &&& n > 0 ==> !is_white(t[n - 1])
        };
    assert(t.take(n) =~= s.subrange(i, i + n));
    assert forall|k: int| 0 <= k < i || i + n <= k < s.len() implies is_white(#[trigger] s[k]) by {
        if k >= i {
            assert(t[k - i] == s[k]);
        }
    }
    if n > 0 {
        assert(t[n - 1] == s[i + n - 1]);
        assert(!is_white(s[i + n - 1]));
    }
}

/// Joining lists of texts one behind the other is joining their joined texts, with the
/// separator between; one text alone stays as it is, and none gives none.
pub proof fn law_joining_keeps_order(a: Seq<Seq<char>>, b: Seq<Seq<char>>, sep: Seq<char>)
    ensures
        joined(Seq::empty(), sep) == Seq::<char>::empty(),
        a.len() == 1 ==> joined(a, sep) == a[0],
        a.len() > 0 && b.len() > 0 ==> joined(a + b, sep) == joined(a, sep) + sep + joined(b, sep),
    decreases b.len(),
{
    if a.len() > 0 && b.len() > 0 {
        let short = b.drop_last();
        assert((a + b).drop_last() =~= a + short);
        if b.len() == 1 {
            assert(a + short =~= a);
        } else {
            law_joining_keeps_order(a, short, sep);
            assert(joined(a, sep) + sep + joined(short, sep) + sep + b.last() =~= joined(a, sep) + sep + (joined(
                short,
                sep,
            ) + sep + b.last()));
        }
    }
}

/// The decimal notation of a number is made of digits, reads back as the number, and has
/// no zero in front.
pub proof fn law_decimal_reads_back(n: nat)
    ensures
        decimal(n).len() > 0,
        forall|i: int| 0 <= i < decimal(n).len() ==> 48 <= (#[trigger] decimal(n)[i]) as u32 <= 57,
        digits_value(decimal(n)) == n,
        n > 0 ==> decimal(n)[0] != '0',
        n <= usize::MAX ==> parsed_usize(decimal(n)) == Some(n as usize),
{
    lemma_decimal_digits(n);
    lemma_decimal_front(n);
    if n <= usize::MAX {
        lemma_parse_decimal(n as usize);
    }
}

proof fn lemma_decimal_front(n: nat)
    ensures
        n > 0 ==> decimal(n)[0] != '0',
    decreases n,
{
    if n >= 10 {
        lemma_decimal_front(n / 10);
        lemma_decimal_digits(n / 10);
        assert(decimal(n)[0] == decimal(n / 10)[0]);
    }
}

/// Numbers with different notations differ, and so do their notations: no two numbers
/// are written alike.
pub proof fn law_decimal_is_unique(m: nat, n: nat)
    requires
        decimal(m) == decimal(n),
    ensures
        m == n,
{
    lemma_decimal_digits(m);
    lemma_decimal_digits(n);
}

/// A number below zero is written with a minus in front of its size, any other without.
pub proof fn law_minus_is_written_in_front(n: int)
    ensures
        n >= 0 ==> signed_decimal(n) == decimal(n as nat),
        n < 0 ==> signed_decimal(n).len() == decimal((-n) as nat).len() + 1 && signed_decimal(n)[0] == '-'
            && signed_decimal(n).drop_first() == decimal((-n) as nat),
{
    reveal_strlit("-");
    if n < 0 {
        assert(signed_decimal(n).drop_first() =~= decimal((-n) as nat));
    }
}

/// A number is read from digits alone, with one plus in front at most; anything else, no
/// digit at all, and what is too large are not read.
pub proof fn law_only_digits_are_read(s: Seq<char>)
    ensures
        s.len() == 0 ==> parsed_usize(s) is None,
        (exists|i: int| 1 <= i < s.len() && !(48 <= (#[trigger] s[i]) as u32 <= 57)) ==> parsed_usize(s) is None,
        s.len() > 0 && s[0] != '+' && !(48 <= s[0] as u32 <= 57) ==> parsed_usize(s) is None,
        s.len() == 1 && s[0] == '+' ==> parsed_usize(s) is None,
        s.len() > 0 && s[0] != '+' && (forall|i: int| 0 <= i < s.len() ==> 48 <= (#[trigger] s[i]) as u32 <= 57)
            && digits_value(s) <= usize::MAX ==> parsed_usize(s) == Some(digits_value(s) as usize),
        s.len() > 0 && s[0] == '+' ==> parsed_usize(s) == (if s.len() > 1 && s[1] == '+' {
            None
        } else {
            parsed_usize(s.drop_first())
        }),
        digits_value(without_plus(s)) > usize::MAX ==> parsed_usize(s) is None,
{
    let d = without_plus(s);
    if exists|i: int| 1 <= i < s.len() && !(48 <= (#[trigger] s[i]) as u32 <= 57) {
        let i = choose|i: int| 1 <= i < s.len() && !(48 <= (#[trigger] s[i]) as u32 <= 57);
        if s[0] == '+' {
            assert(d[i - 1] == s[i]);
            assert(!is_digit(d[i - 1]));
        } else {
            assert(!is_digit(d[i]));
        }
    }
    if s.len() > 0 && s[0] != '+' && !(48 <= s[0] as u32 <= 57) {
        assert(!is_digit(d[0]));
    }
    if s.len() > 1 && s[0] == '+' && s[1] == '+' {
        assert(d[0] == '+');
        assert(!is_digit(d[0]));
    }
    if s.len() > 0 && (forall|i: int| 0 <= i < s.len() ==> 48 <= (#[trigger] s[i]) as u32 <= 57) {
        assert(all_digits(s));
    }
}

/// A text occurs in another exactly where it stands somewhere in it.
pub proof fn law_substring_stands_somewhere(front: Seq<char>, p: Seq<char>, back: Seq<char>)
    ensures
        has_substring(front + p + back, p),
        has_prefix(p + back, p),
{
    let s = front + p + back;
    assert(s.subrange(front.len() as int, (front.len() + p.len()) as int) =~= p);
    assert(occurs_at(s, p, front.len() as int));
    assert((p + back).subrange(0, p.len() as int) =~= p);
}

/// Blanks, tabs and line ends are white space, and no letter, digit or sign of ASCII is.
pub proof fn law_blanks_and_line_ends_are_white(c: char)
    ensures
        c == ' ' || c == '\t' || c == '\n' || c == '\r' ==> is_white(c),
        0x21 <= c as u32 <= 0x7e ==> !is_white(c),
        (c as u32) < 0x9 || 0xe <= c as u32 <= 0x1f ==> !is_white(c),
        c as u32 == 0xa0 || c as u32 == 0x85 || c as u32 == 0x3000 || 0x2000 <= c as u32 <= 0x200a ==> is_white(c),
{
}

} // verus!
