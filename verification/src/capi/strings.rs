//! C strings and fixed-size character fields.

use vstd::prelude::*;
use vstd::utf8::{
    decode_utf8, encode_utf8, encode_utf8_decode_utf8, encode_utf8_valid_utf8, is_char_boundary, valid_utf8,
    valid_utf8_split,
};

use crate::text::opt_view;

verus! {

/// What `String::from_utf8_lossy` makes of bytes that are not UTF-8.
pub uninterp spec fn lossy_text(bytes: Seq<u8>) -> Seq<char>;

/// Calls `String::from_utf8_lossy`. Bytes that are UTF-8 give their text; what other
/// bytes give is named [`lossy_text`].
#[verifier::external_body]
fn decode_lossy(bytes: &[u8]) -> (r: String)
    ensures
        valid_utf8(bytes@) ==> r@ == decode_utf8(bytes@),
        !valid_utf8(bytes@) ==> r@ == lossy_text(bytes@),
{
    String::from_utf8_lossy(bytes).into_owned()
}

/// Calls `std::str::from_utf8`. It succeeds on UTF-8 alone, with the text that the
/// bytes encode.
#[verifier::external_body]
fn decode_strict(bytes: &[u8]) -> (r: Option<String>)
    ensures
        match r {
            Some(s) => valid_utf8(bytes@) && s@ == decode_utf8(bytes@),
            None => !valid_utf8(bytes@),
        },
{
    match std::str::from_utf8(bytes) {
        Ok(s) => Some(s.to_owned()),
        Err(_) => None,
    }
}

/// The text of bytes, with a substitute where they are not UTF-8.
pub open spec fn lossy(bytes: Seq<u8>) -> Seq<char> {
    if valid_utf8(bytes) {
        decode_utf8(bytes)
    } else {
        lossy_text(bytes)
    }
}

/// The text of bytes, where they are UTF-8.
pub open spec fn strict(bytes: Seq<u8>) -> Option<Seq<char>> {
    if valid_utf8(bytes) {
        Some(decode_utf8(bytes))
    } else {
        None
    }
}

/// What an optional list of bytes holds.
pub open spec fn bytes_opt(p: Option<Vec<u8>>) -> Option<Seq<u8>> {
    match p {
        Some(b) => Some(b@),
        None => None,
    }
}

/// The text of a C string, nothing for a null pointer.
pub open spec fn c_opt(p: Option<Vec<u8>>) -> Option<Seq<char>> {
    match p {
        Some(b) => Some(lossy(b@)),
        None => None,
    }
}

/// The text of a C string, empty for a null pointer.
pub open spec fn c_str(p: Option<Vec<u8>>) -> Seq<char> {
    match p {
        Some(b) => lossy(b@),
        None => Seq::empty(),
    }
}

/// The text of a C string that is there and is UTF-8.
pub open spec fn c_input(p: Option<Vec<u8>>) -> Option<Seq<char>> {
    match p {
        Some(b) => strict(b@),
        None => None,
    }
}

/// The text of a C string that is there, is UTF-8 and is not empty.
pub open spec fn c_nonempty(p: Option<Vec<u8>>) -> Option<Seq<char>> {
    match c_input(p) {
        Some(s) => if s.len() > 0 {
            Some(s)
        } else {
            None
        },
        None => None,
    }
}

/// The text of bytes, with a substitute where they are not UTF-8.
pub fn lossy_string(bytes: &Vec<u8>) -> (r: String)
    ensures
        r@ == lossy(bytes@),
{
    decode_lossy(bytes.as_slice())
}

/// The text of a C string, nothing for a null pointer.
pub fn cstr_opt(p: &Option<Vec<u8>>) -> (r: Option<String>)
    ensures
        opt_view(r) == c_opt(*p),
{
    match p {
        Some(b) => Some(lossy_string(b)),
        None => None,
    }
}

/// The text of a C string, empty for a null pointer.
pub fn cstr_str(p: &Option<Vec<u8>>) -> (r: String)
    ensures
        r@ == c_str(*p),
{
    match p {
        Some(b) => lossy_string(b),
        None => {
            let r = String::new();
            assert(r@ =~= Seq::<char>::empty());
            r
        },
    }
}

/// The text of a C string that is there and is UTF-8.
pub fn cstr_input(p: &Option<Vec<u8>>) -> (r: Option<String>)
    ensures
        opt_view(r) == c_input(*p),
{
    match p {
        Some(b) => decode_strict(b.as_slice()),
        None => None,
    }
}

/// The text of a C string that is there, is UTF-8 and is not empty.
pub fn cstr_nonempty(p: &Option<Vec<u8>>) -> (r: Option<String>)
    ensures
        opt_view(r) == c_nonempty(*p),
{
    match cstr_input(p) {
        Some(s) => if s.as_str().is_empty() {
            None
        } else {
            Some(s)
        },
        None => None,
    }
}

/// The bytes before the first zero.
pub open spec fn before_zero(bytes: Seq<u8>) -> Seq<u8>
    decreases bytes.len(),
{
    if bytes.len() == 0 || bytes[0] == 0 {
        Seq::empty()
    } else {
        seq![bytes[0]] + before_zero(bytes.drop_first())
    }
}

proof fn lemma_before_zero(bytes: Seq<u8>, n: int)
    requires
        0 <= n <= bytes.len(),
        forall|i: int| 0 <= i < n ==> #[trigger] bytes[i] != 0,
        n < bytes.len() ==> bytes[n] == 0,
    ensures
        before_zero(bytes) == bytes.take(n),
    decreases n,
{
    if n == 0 {
        assert(bytes.take(0) =~= Seq::<u8>::empty());
    } else {
        assert(bytes[0] != 0);
        let rest = bytes.drop_first();
        assert forall|i: int| 0 <= i < n - 1 implies #[trigger] rest[i] != 0 by {
            assert(rest[i] == bytes[i + 1]);
        }
        lemma_before_zero(rest, n - 1);
        assert(seq![bytes[0]] + rest.take(n - 1) =~= bytes.take(n));
    }
}

/// The bytes before the first zero.
pub fn until_zero(bytes: &Vec<u8>) -> (r: Vec<u8>)
    ensures
        r@ == before_zero(bytes@),
{
    let mut r: Vec<u8> = Vec::new();
    let mut i: usize = 0;
    while i < bytes.len() && bytes[i] != 0
        invariant
            i <= bytes@.len(),
            r@ == bytes@.take(i as int),
            forall|j: int| 0 <= j < i ==> #[trigger] bytes@[j] != 0,
        decreases bytes@.len() - i,
    {
        r.push(bytes[i]);
        i = i + 1;
        assert(r@ =~= bytes@.take(i as int));
    }
    proof {
        lemma_before_zero(bytes@, i as int);
    }
    r
}

/// The text in a character field.
pub fn read_carr(arr: &Vec<u8>) -> (r: String)
    ensures
        r@ == lossy(before_zero(arr@)),
{
    lossy_string(&until_zero(arr))
}

/// The bytes that a text is handed to C as: none of it where it holds a zero.
pub open spec fn c_bytes(s: Seq<char>) -> Seq<u8> {
    if encode_utf8(s).contains(0) {
        Seq::empty()
    } else {
        encode_utf8(s)
    }
}

fn bytes_without_zero(s: &str) -> (r: Option<Vec<u8>>)
    ensures
        match r {
            Some(b) => b@ == encode_utf8(s@) && !encode_utf8(s@).contains(0),
            None => encode_utf8(s@).contains(0),
        },
{
    let bytes = s.as_bytes();
    let mut r: Vec<u8> = Vec::new();
    let mut i: usize = 0;
    while i < bytes.len()
        invariant
            i <= bytes@.len(),
            bytes@ == encode_utf8(s@),
            r@ == bytes@.take(i as int),
            forall|j: int| 0 <= j < i ==> #[trigger] bytes@[j] != 0,
        decreases bytes@.len() - i,
    {
        if bytes[i] == 0 {
            assert(bytes@[i as int] == 0);
            return None;
        }
        r.push(bytes[i]);
        i = i + 1;
        assert(r@ =~= bytes@.take(i as int));
    }
    assert(r@ =~= bytes@);
    Some(r)
}

/// The bytes that a text is handed to C as.
pub fn cstring(s: &str) -> (r: Vec<u8>)
    ensures
        r@ == c_bytes(s@),
{
    match bytes_without_zero(s) {
        Some(b) => b,
        None => Vec::new(),
    }
}

/// What an optional text is handed to C as: a null pointer where there is none.
pub open spec fn c_bytes_opt(o: Option<String>) -> Option<Seq<u8>> {
    match o {
        Some(s) => Some(c_bytes(s@)),
        None => None,
    }
}

/// What an optional text is handed to C as: a null pointer where there is none.
pub fn opt_cstr(o: &Option<String>) -> (r: Option<Vec<u8>>)
    ensures
        bytes_opt(r) == c_bytes_opt(*o),
{
    match o {
        Some(s) => Some(cstring(s.as_str())),
        None => None,
    }
}

/// What an optional text is given away to C as: a null pointer also where the text
/// holds a zero.
pub open spec fn c_owned(o: Option<String>) -> Option<Seq<u8>> {
    match o {
        Some(s) => if encode_utf8(s@).contains(0) {
            None
        } else {
            Some(encode_utf8(s@))
        },
        None => None,
    }
}

/// What an optional text is given away to C as.
pub fn opt_into_raw(o: &Option<String>) -> (r: Option<Vec<u8>>)
    ensures
        bytes_opt(r) == c_owned(*o),
{
    match o {
        Some(s) => bytes_without_zero(s.as_str()),
        None => None,
    }
}

/// A buffer after a text and its terminator were put at its start.
pub open spec fn filled(dst: Seq<u8>, text: Seq<u8>) -> Seq<u8> {
    Seq::new(
        dst.len(),
        |i: int|
            if i < text.len() {
                text[i]
            } else if i == text.len() {
                0u8
            } else {
                dst[i]
            },
    )
}

fn fill(dst: &mut Vec<u8>, text: &[u8], n: usize)
    requires
        n <= text@.len(),
        n < old(dst)@.len(),
    ensures
        final(dst)@ == filled(old(dst)@, text@.take(n as int)),
{
    let mut i: usize = 0;
    while i < n
        invariant
            i <= n,
            n <= text@.len(),
            n < old(dst)@.len(),
            dst@.len() == old(dst)@.len(),
            forall|j: int| 0 <= j < i ==> dst@[j] == text@[j],
            forall|j: int| i <= j < dst@.len() ==> dst@[j] == old(dst)@[j],
        decreases n - i,
    {
        dst.set(i, text[i]);
        i = i + 1;
    }
    dst.set(n, 0);
    assert(dst@ =~= filled(old(dst)@, text@.take(n as int)));
}

/// What of a text fits before the terminator of a field: bytes, whatever they mean.
pub open spec fn fitting_bytes(s: Seq<char>, len: nat) -> Seq<u8> {
    let b = encode_utf8(s);
    if b.len() < len {
        b
    } else {
        b.take(len - 1)
    }
}

/// Copies a text into a field, as many bytes of it as fit, with a terminator.
pub fn copy_field(dst: &mut Vec<u8>, src: &str)
    requires
        old(dst)@.len() > 0,
    ensures
        final(dst)@ == filled(old(dst)@, fitting_bytes(src@, old(dst)@.len())),
{
    let bytes = src.as_bytes();
    let max: usize = dst.len() - 1;
    let n: usize = if bytes.len() < max {
        bytes.len()
    } else {
        max
    };
    fill(dst, bytes, n);
    proof {
        if bytes@.len() <= max {
            assert(bytes@.take(n as int) =~= bytes@);
        }
    }
}

/// Copies a text into a buffer as [`copy_field`] does; a buffer of no size is left alone.
pub fn write_output(output: &mut Vec<u8>, s: &str)
    ensures
        old(output)@.len() == 0 ==> final(output)@ == old(output)@,
        old(output)@.len() > 0 ==> final(output)@ == filled(old(output)@, fitting_bytes(s@, old(output)@.len())),
{
    if output.len() == 0 {
        return ;
    }
    copy_field(output, s);
}

/// The last place at or before `n` where a character of the text begins, or its end.
pub open spec fn cut_at(bytes: Seq<u8>, n: nat) -> nat
    decreases n,
{
    if n == 0 || is_char_boundary(bytes, n as int) {
        n
    } else {
        cut_at(bytes, (n - 1) as nat)
    }
}

/// What of a text fits before the terminator of a buffer, in whole characters.
pub open spec fn fitting_text(s: Seq<char>, len: nat) -> Seq<u8> {
    let b = encode_utf8(s);
    b.take(
        cut_at(
            b,
            if b.len() < len {
                b.len()
            } else {
                (len - 1) as nat
            },
        ) as int,
    )
}

fn fitting_len(s: &str, len: usize) -> (r: usize)
    requires
        len > 0,
    ensures
        r < len,
        r <= encode_utf8(s@).len(),
        fitting_text(s@, len as nat) == encode_utf8(s@).take(r as int),
{
    let bytes = s.as_bytes();
    let mut end: usize = if bytes.len() < len {
        bytes.len()
    } else {
        len - 1
    };
    let ghost start = end;
    while end > 0 && !s.is_char_boundary(end)
        invariant
            end <= start,
            start < len,
            start <= bytes@.len(),
            bytes@ == encode_utf8(s@),
            cut_at(bytes@, end as nat) == cut_at(bytes@, start as nat),
        decreases end,
    {
        end = end - 1;
    }
    end
}

/// Copies a text into a buffer, as many whole characters of it as fit, with a
/// terminator; a buffer of no size is left alone.
pub fn write_c_buf(dst: &mut Vec<u8>, s: &str)
    ensures
        old(dst)@.len() == 0 ==> final(dst)@ == old(dst)@,
        old(dst)@.len() > 0 ==> final(dst)@ == filled(old(dst)@, fitting_text(s@, old(dst)@.len())),
{
    if dst.len() == 0 {
        return ;
    }
    let n: usize = fitting_len(s, dst.len());
    fill(dst, s.as_bytes(), n);
}

/// A field of a size that holds a text, the rest zero.
pub open spec fn field_of(s: Seq<char>, len: nat) -> Seq<u8> {
    filled(Seq::new(len, |i: int| 0u8), fitting_text(s, len))
}

/// A field of a size that holds as many whole characters of a text as fit, the rest zero.
pub fn write_carr(s: &str, len: usize) -> (r: Vec<u8>)
    ensures
        r@ == field_of(s@, len as nat),
{
    let mut r: Vec<u8> = Vec::new();
    let mut i: usize = 0;
    while i < len
        invariant
            i <= len,
            r@ == Seq::new(i as nat, |j: int| 0u8),
        decreases len - i,
    {
        r.push(0);
        i = i + 1;
        assert(r@ =~= Seq::new(i as nat, |j: int| 0u8));
    }
    write_c_buf(&mut r, s);
    r
}

proof fn lemma_end_is_boundary(bytes: Seq<u8>)
    requires
        valid_utf8(bytes),
    ensures
        is_char_boundary(bytes, bytes.len() as int),
    decreases bytes.len(),
{
    reveal_with_fuel(valid_utf8, 1);
    if bytes.len() > 0 {
        lemma_end_is_boundary(vstd::utf8::pop_first_scalar(bytes));
    }
}

proof fn lemma_cut_boundary(bytes: Seq<u8>, n: nat)
    requires
        valid_utf8(bytes),
    ensures
        cut_at(bytes, n) <= n,
        is_char_boundary(bytes, cut_at(bytes, n) as int),
    decreases n,
{
    if n > 0 && !is_char_boundary(bytes, n as int) {
        lemma_cut_boundary(bytes, (n - 1) as nat);
    }
}

/// What a buffer gets of a text is never a broken character.
pub proof fn law_cut_text_is_text(s: Seq<char>, len: nat)
    requires
        len > 0,
    ensures
        valid_utf8(fitting_text(s, len)),
        fitting_text(s, len).len() < len,
        fitting_text(s, len).is_prefix_of(encode_utf8(s)),
{
    let b = encode_utf8(s);
    encode_utf8_valid_utf8(s);
    let n = if b.len() < len {
        b.len()
    } else {
        (len - 1) as nat
    };
    lemma_cut_boundary(b, n);
    valid_utf8_split(b, cut_at(b, n) as int);
    assert(b.take(cut_at(b, n) as int) =~= b.subrange(0, cut_at(b, n) as int));
}

/// A text that fits into a field and holds no zero reads back from it.
pub proof fn law_field_reads_back(s: Seq<char>, len: nat)
    requires
        encode_utf8(s).len() < len,
        !encode_utf8(s).contains(0),
    ensures
        lossy(before_zero(field_of(s, len))) == s,
{
    let b = encode_utf8(s);
    encode_utf8_valid_utf8(s);
    encode_utf8_decode_utf8(s);
    lemma_end_is_boundary(b);
    assert(b.take(b.len() as int) =~= b);
    assert(fitting_text(s, len) == b);
    let f = field_of(s, len);
    assert forall|i: int| 0 <= i < b.len() implies #[trigger] f[i] != 0 by {
        assert(f[i] == b[i]);
        assert(b.contains(b[i]));
    }
    lemma_before_zero(f, b.len() as int);
    assert(f.take(b.len() as int) =~= b);
}

/// Whether a C string is there and holds the bytes of a text.
pub open spec fn holds_text(p: Option<Vec<u8>>, text: Seq<char>) -> bool {
    p matches Some(b) && b@ == encode_utf8(text)
}

/// A C string that holds a text reads as that text, whichever way it is read; one that is
/// not there reads as nothing, and one that is no text is no input.
pub proof fn law_text_reads_as_written(p: Option<Vec<u8>>, text: Seq<char>)
    ensures
        holds_text(p, text) ==> c_opt(p) == Some(text) && c_str(p) == text && c_input(p) == Some(text),
        holds_text(p, text) && text.len() > 0 ==> c_nonempty(p) == Some(text),
        holds_text(p, text) && text.len() == 0 ==> c_nonempty(p) is None,
        p is None ==> c_opt(p) is None && c_str(p).len() == 0 && c_input(p) is None && c_nonempty(p) is None,
        p matches Some(b) && !valid_utf8(b@) ==> c_input(p) is None && c_nonempty(p) is None,
        p is Some <==> c_opt(p) is Some,
{
    encode_utf8_valid_utf8(text);
    encode_utf8_decode_utf8(text);
}

/// A text without zeros is handed to C as its own bytes; one with a zero is handed over
/// empty, and is not there where C is to own it.
pub proof fn law_text_is_handed_over_as_its_bytes(text: Seq<char>, o: Option<String>)
    ensures
        !encode_utf8(text).contains(0) ==> c_bytes(text) == encode_utf8(text),
        encode_utf8(text).contains(0) ==> c_bytes(text).len() == 0,
        o is None ==> c_bytes_opt(o) is None && c_owned(o) is None,
        o matches Some(s) ==> c_bytes_opt(o) == Some(c_bytes(s@)),
        o matches Some(s) ==> !encode_utf8(s@).contains(0) ==> c_owned(o) == Some(encode_utf8(s@)),
        o matches Some(s) && encode_utf8(s@).contains(0) ==> c_owned(o) is None,
{
}

/// What stands before the first zero of a field is the whole of it up to there.
pub proof fn law_field_ends_at_its_first_zero(bytes: Seq<u8>)
    ensures
        before_zero(bytes).is_prefix_of(bytes),
        !before_zero(bytes).contains(0),
        before_zero(bytes).len() < bytes.len() ==> bytes[before_zero(bytes).len() as int] == 0,
    decreases bytes.len(),
{
    if bytes.len() > 0 && bytes[0] != 0 {
        let rest = bytes.drop_first();
        law_field_ends_at_its_first_zero(rest);
        let got = before_zero(bytes);
        assert(got =~= seq![bytes[0]] + before_zero(rest));
        assert forall|i: int| 0 <= i < got.len() implies got[i] == bytes[i] && got[i] != 0 by {
            if i > 0 {
                assert(got[i] == before_zero(rest)[i - 1]);
                assert(before_zero(rest)[i - 1] == rest[i - 1]);
                assert(before_zero(rest).contains(before_zero(rest)[i - 1]));
            }
        }
    }
}

/// A text that is written into a buffer stands at its start, ends in a zero, and leaves
/// the rest of the buffer as it was.
pub proof fn law_written_text_ends_in_a_zero(dst: Seq<u8>, text: Seq<u8>, i: int)
    requires
        text.len() < dst.len(),
    ensures
        filled(dst, text).len() == dst.len(),
        text.is_prefix_of(filled(dst, text)),
        filled(dst, text)[text.len() as int] == 0,
        text.len() < i < dst.len() ==> filled(dst, text)[i] == dst[i],
{
}

/// A text is cut where the buffer ends, one byte before it, and only where it must be.
pub proof fn law_long_text_is_cut_to_fit(s: Seq<char>, len: nat)
    requires
        len > 0,
    ensures
        fitting_bytes(s, len).is_prefix_of(encode_utf8(s)),
        encode_utf8(s).len() < len ==> fitting_bytes(s, len) == encode_utf8(s),
        encode_utf8(s).len() >= len ==> fitting_bytes(s, len).len() == len - 1,
        encode_utf8(s).len() < len ==> fitting_text(s, len) == encode_utf8(s),
{
    let b = encode_utf8(s);
    encode_utf8_valid_utf8(s);
    lemma_end_is_boundary(b);
    assert(b.take(b.len() as int) =~= b);
}

} // verus!
