//! Documents: JSON texts that are read field by field.
//!
//! A document is an object with a member for each field, or a list of the fields in
//! order. A field that is known is given once; a member that is not known is passed
//! over, whatever it holds. `serde_json` says what is JSON, and it reads each name and
//! each value: here it is only found where they stand in a text that it accepted.

use vstd::prelude::*;

use crate::json::{items_view, json_parse, parse_json, Json, JsonV, Num};
use crate::text::{blank, chars_of, is_blank, opt_view, string_is, views};

verus! {

/// What `serde_json::from_str` for `serde::de::IgnoredAny` says against a text: the
/// text of its error, or nothing where it accepts the text.
pub uninterp spec fn json_complaint(text: Seq<char>) -> Option<Seq<char>>;

/// Calls `serde_json::from_str` for `serde::de::IgnoredAny`, which accepts any JSON
/// and keeps nothing of it. The text of its error is named [`json_complaint`].
#[verifier::external_body]
pub(crate) fn complaint(text: &str) -> (r: Option<String>)
    ensures
        opt_view(r) == json_complaint(text@),
{
    serde_json::from_str::<serde::de::IgnoredAny>(text).err().map(|e| e.to_string())
}

/// How far a text has been cut into the parts between its outer brackets.
#[verifier::ext_equal]
pub struct Cut {
    /// How many brackets are open.
    pub depth: nat,
    /// Whether a string is open, and whether its next character is escaped.
    pub quoted: bool,
    pub escaped: bool,
    /// The outer bracket.
    pub outer: Option<char>,
    /// The parts that are complete, and the one that is not.
    pub parts: Seq<Seq<char>>,
    pub part: Seq<char>,
}

impl Cut {
    /// After one more character. Commas and colons between the outer brackets separate
    /// parts; those in strings and in inner brackets do not.
    pub open spec fn step(self, c: char) -> Cut {
        let kept = if self.depth > 0 {
            Cut { part: self.part.push(c), ..self }
        } else {
            self
        };
        if self.quoted {
            Cut { quoted: self.escaped || c != '"', escaped: !self.escaped && c == '\\', ..kept }
        } else if c == '"' {
            Cut { quoted: true, ..kept }
        } else if c == '{' || c == '[' {
            if self.depth == 0 {
                Cut { depth: 1, outer: Some(c), part: Seq::empty(), ..self }
            } else {
                Cut { depth: self.depth + 1, ..kept }
            }
        } else if c == '}' || c == ']' {
            if self.depth <= 1 {
                Cut { depth: 0, ..self }
            } else {
                Cut { depth: (self.depth - 1) as nat, ..kept }
            }
        } else if self.depth == 1 && (c == ',' || c == ':') {
            Cut { parts: self.parts.push(self.part), part: Seq::empty(), ..self }
        } else {
            kept
        }
    }

    /// The parts of a text that has been cut to its end.
    pub open spec fn all(self) -> Seq<Seq<char>> {
        if self.parts.len() == 0 && is_blank(self.part) {
            Seq::empty()
        } else {
            self.parts.push(self.part)
        }
    }
}

/// How far the first `n` characters of a text cut it.
pub open spec fn cut(t: Seq<char>, n: nat) -> Cut
    decreases n,
{
    if n == 0 || n > t.len() {
        Cut {
            depth: 0,
            quoted: false,
            escaped: false,
            outer: None,
            parts: Seq::empty(),
            part: Seq::empty(),
        }
    } else {
        cut(t, (n - 1) as nat).step(t[n - 1])
    }
}

/// A document as it was taken apart.
#[derive(Debug, PartialEq, Eq)]
pub enum Doc {
    /// The members of an object: their names, and the texts of their values.
    Members(Vec<(String, String)>),
    /// The texts of the elements of a list.
    Items(Vec<String>),
}

/// What a [`Doc`] holds.
pub enum DocV {
    Members(Seq<(Seq<char>, Seq<char>)>),
    Items(Seq<Seq<char>>),
}

/// What members hold.
pub open spec fn pair_views(s: Seq<(String, String)>) -> Seq<(Seq<char>, Seq<char>)> {
    s.map_values(|p: (String, String)| (p.0@, p.1@))
}

impl View for Doc {
    type V = DocV;

    open spec fn view(&self) -> DocV {
        match *self {
            Doc::Members(m) => DocV::Members(pair_views(m@)),
            Doc::Items(s) => DocV::Items(views(s@)),
        }
    }
}

/// The name that a text is, where it is a string.
pub open spec fn name_in(parsed: Result<JsonV, Seq<char>>) -> Option<Seq<char>> {
    match parsed {
        Ok(JsonV::Str(s)) => Some(s),
        _ => None,
    }
}

/// The first `n` members that parts make, name and value in turn, where every name is one.
pub open spec fn paired(parts: Seq<Seq<char>>, n: nat) -> Option<Seq<(Seq<char>, Seq<char>)>>
    decreases n,
{
    if n == 0 || 2 * n > parts.len() {
        Some(Seq::empty())
    } else {
        match (paired(parts, (n - 1) as nat), name_in(json_parse(parts[2 * n - 2]))) {
            (Some(m), Some(name)) => Some(m.push((name, parts[2 * n - 1]))),
            _ => None,
        }
    }
}

/// The document that a text is. A text that is neither an object nor a list is none,
/// and neither is an object with a name that cannot be read.
pub open spec fn doc_of(t: Seq<char>) -> Option<DocV> {
    let done = cut(t, t.len());
    match done.outer {
        Some(c) => if c == '{' {
            match paired(done.all(), done.all().len() / 2) {
                Some(m) => Some(DocV::Members(m)),
                None => None,
            }
        } else {
            Some(DocV::Items(done.all()))
        },
        None => None,
    }
}

proof fn lemma_paired_fails(parts: Seq<Seq<char>>, n: nat, k: nat)
    requires
        n <= k,
        2 * k <= parts.len(),
        paired(parts, n) is None,
    ensures
        paired(parts, k) is None,
    decreases k - n,
{
    if n < k {
        lemma_paired_fails(parts, n, (k - 1) as nat);
    }
}

/// Cuts a text into its outer bracket and the parts behind it.
fn cut_text(text: &str) -> (r: (Option<char>, Vec<String>))
    ensures
        r.0 == cut(text@, text@.len()).outer,
        views(r.1@) == cut(text@, text@.len()).all(),
{
    let t = chars_of(text);
    let mut depth: usize = 0;
    let mut quoted = false;
    let mut escaped = false;
    let mut outer: Option<char> = None;
    let mut parts: Vec<String> = Vec::new();
    let mut start: usize = 0;
    let mut stop: usize = 0;
    let mut i: usize = 0;
    assert(views(parts@) =~= Seq::<Seq<char>>::empty());
    assert(t@.subrange(0, 0) =~= Seq::<char>::empty());
    while i < t.len()
        invariant
            t@ == text@,
            i <= t@.len(),
            depth <= i,
            start <= stop <= i,
            depth > 0 ==> stop == i,
            cut(t@, i as nat) == (Cut {
                depth: depth as nat,
                quoted,
                escaped,
                outer,
                parts: views(parts@),
                part: t@.subrange(start as int, stop as int),
            }),
        decreases t@.len() - i,
    {
        let c = t[i];
        let ghost before = cut(t@, i as nat);
        let ghost was = parts@;
        assert(cut(t@, (i + 1) as nat) == before.step(c));
        let mut keep = depth > 0;
        if quoted {
            quoted = escaped || c != '"';
            escaped = !escaped && c == '\\';
        } else if c == '"' {
            quoted = true;
        } else if c == '{' || c == '[' {
            if depth == 0 {
                outer = Some(c);
                start = i + 1;
                stop = i + 1;
                keep = false;
            }
            depth = depth + 1;
        } else if c == '}' || c == ']' {
            if depth <= 1 {
                depth = 0;
                keep = false;
            } else {
                depth = depth - 1;
            }
        } else if depth == 1 && (c == ',' || c == ':') {
            parts.push(text.substring_char(start, stop).to_owned());
            assert(views(parts@) =~= views(was).push(before.part));
            start = i + 1;
            stop = i + 1;
            keep = false;
        }
        if keep {
            stop = i + 1;
        }
        proof {
            let part = t@.subrange(start as int, stop as int);
            if keep {
                assert(part =~= before.part.push(c));
            } else if start == i + 1 {
                assert(part =~= Seq::<char>::empty());
            }
        }
        i = i + 1;
    }
    let last = text.substring_char(start, stop);
    if parts.len() > 0 || !blank(last) {
        let ghost was = parts@;
        parts.push(last.to_owned());
        assert(views(parts@) =~= views(was).push(last@));
    }
    (outer, parts)
}

/// Takes a document apart.
pub fn open_doc(text: &str) -> (r: Option<Doc>)
    ensures
        match r {
            Some(d) => doc_of(text@) == Some(d@),
            None => doc_of(text@) is None,
        },
{
    let (outer, parts) = cut_text(text);
    let bracket = match outer {
        Some(c) => c,
        None => {
            return None;
        },
    };
    if bracket != '{' {
        return Some(Doc::Items(parts));
    }
    let ghost given = views(parts@);
    let total: usize = parts.len();
    let pairs: usize = total / 2;
    let mut members: Vec<(String, String)> = Vec::new();
    let mut i: usize = 0;
    assert(pair_views(members@) =~= Seq::<(Seq<char>, Seq<char>)>::empty());
    while i < pairs
        invariant
            given == views(parts@),
            total == parts@.len(),
            pairs == total / 2,
            i <= pairs,
            paired(given, i as nat) == Some(pair_views(members@)),
            doc_of(text@) == (match paired(given, pairs as nat) {
                Some(m) => Some(DocV::Members(m)),
                None => None,
            }),
        decreases pairs - i,
    {
        let ghost n = (i + 1) as nat;
        assert(given[2 * n - 2] == parts@[2 * i as int]@);
        assert(given[2 * n - 1] == parts@[2 * i + 1]@);
        match parse_json(parts[2 * i].as_str()) {
            Ok(Json::Str(name)) => {
                let ghost was = members@;
                let ghost key = name@;
                members.push((name, parts[2 * i + 1].clone()));
                assert(pair_views(members@) =~= pair_views(was).push((key, given[2 * n - 1])));
            },
            _ => {
                proof {
                    lemma_paired_fails(given, n, pairs as nat);
                }
                return None;
            },
        }
        i = i + 1;
    }
    Some(Doc::Members(members))
}

/// The values of the members of a name, among the first `n`.
pub open spec fn named(m: Seq<(Seq<char>, Seq<char>)>, name: Seq<char>, n: nat) -> Seq<Seq<char>>
    decreases n,
{
    if n == 0 || n > m.len() {
        Seq::empty()
    } else {
        let before = named(m, name, (n - 1) as nat);
        if m[n - 1].0 == name {
            before.push(m[n - 1].1)
        } else {
            before
        }
    }
}

/// What a document gives for a field: the member of its name, or the element at its place.
pub open spec fn given(d: DocV, name: Seq<char>, at: int) -> Seq<Seq<char>> {
    match d {
        DocV::Members(m) => named(m, name, m.len()),
        DocV::Items(s) => if 0 <= at < s.len() {
            seq![s[at]]
        } else {
            Seq::empty()
        },
    }
}

/// Whether a document has no element behind its last field.
pub open spec fn fits(d: DocV, fields: nat) -> bool {
    d matches DocV::Items(s) ==> s.len() <= fields
}

/// A field as it was found: what reading its value gave, where it is given once.
#[derive(Debug, PartialEq)]
pub enum Found {
    Missing,
    Repeated,
    Value(Result<Json, String>),
}

/// What a [`Found`] holds.
pub enum FoundV {
    Missing,
    Repeated,
    Value(Result<JsonV, Seq<char>>),
}

impl View for Found {
    type V = FoundV;

    open spec fn view(&self) -> FoundV {
        match *self {
            Found::Missing => FoundV::Missing,
            Found::Repeated => FoundV::Repeated,
            Found::Value(Ok(j)) => FoundV::Value(Ok(j@)),
            Found::Value(Err(e)) => FoundV::Value(Err(e@)),
        }
    }
}

/// A field of a document.
pub open spec fn field(d: DocV, name: Seq<char>, at: int) -> FoundV {
    let texts = given(d, name, at);
    if texts.len() == 0 {
        FoundV::Missing
    } else if texts.len() == 1 {
        FoundV::Value(json_parse(texts[0]))
    } else {
        FoundV::Repeated
    }
}

/// A field of a document that is a document of at most so many fields itself.
pub open spec fn block(d: DocV, name: Seq<char>, at: int, fields: nat) -> Option<DocV> {
    let texts = given(d, name, at);
    if texts.len() == 1 {
        match doc_of(texts[0]) {
            Some(b) => if fits(b, fields) {
                Some(b)
            } else {
                None
            },
            None => None,
        }
    } else {
        None
    }
}

impl Doc {
    fn given(&self, name: &str, at: usize) -> (r: Vec<String>)
        ensures
            views(r@) == given(self@, name@, at as int),
    {
        let mut out: Vec<String> = Vec::new();
        assert(views(out@) =~= Seq::<Seq<char>>::empty());
        match self {
            Doc::Items(s) => {
                if at < s.len() {
                    out.push(s[at].clone());
                    assert(views(out@) =~= seq![views(s@)[at as int]]);
                }
            },
            Doc::Members(m) => {
                let ghost all = pair_views(m@);
                let mut i: usize = 0;
                while i < m.len()
                    invariant
                        all == pair_views(m@),
                        i <= m@.len(),
                        views(out@) == named(all, name@, i as nat),
                    decreases m@.len() - i,
                {
                    assert(all[i as int] == (m@[i as int].0@, m@[i as int].1@));
                    if string_is(&m[i].0, name) {
                        let ghost was = out@;
                        out.push(m[i].1.clone());
                        assert(views(out@) =~= views(was).push(all[i as int].1));
                    }
                    i = i + 1;
                }
            },
        }
        out
    }

    /// Whether the document has no element behind its last field.
    pub fn fits(&self, fields: usize) -> (r: bool)
        ensures
            r == fits(self@, fields as nat),
    {
        match self {
            Doc::Items(s) => s.len() <= fields,
            Doc::Members(_) => true,
        }
    }

    /// A field: the member of its name, or the element at its place.
    pub fn field(&self, name: &str, at: usize) -> (r: Found)
        ensures
            r@ == field(self@, name@, at as int),
    {
        let texts = self.given(name, at);
        if texts.len() == 0 {
            Found::Missing
        } else if texts.len() == 1 {
            assert(views(texts@)[0] == texts@[0]@);
            Found::Value(parse_json(texts[0].as_str()))
        } else {
            Found::Repeated
        }
    }

    /// A field that is a document of at most so many fields itself.
    pub fn block(&self, name: &str, at: usize, fields: usize) -> (r: Option<Doc>)
        ensures
            match r {
                Some(b) => block(self@, name@, at as int, fields as nat) == Some(b@),
                None => block(self@, name@, at as int, fields as nat) is None,
            },
    {
        let texts = self.given(name, at);
        if texts.len() != 1 {
            return None;
        }
        assert(views(texts@)[0] == texts@[0]@);
        match open_doc(texts[0].as_str()) {
            Some(b) => if b.fits(fields) {
                Some(b)
            } else {
                None
            },
            None => None,
        }
    }
}

/// A field that is a text.
pub open spec fn text_found(f: FoundV) -> Option<Seq<char>> {
    match f {
        FoundV::Value(Ok(JsonV::Str(s))) => Some(s),
        _ => None,
    }
}

/// A field that may be a text: missing and null are nothing, and anything else but a
/// text is a mistake.
pub open spec fn optional_text(f: FoundV) -> Option<Option<Seq<char>>> {
    match f {
        FoundV::Missing => Some(None),
        FoundV::Value(Ok(JsonV::Null)) => Some(None),
        FoundV::Value(Ok(JsonV::Str(s))) => Some(Some(s)),
        _ => None,
    }
}

/// A field that is a truth value.
pub open spec fn bool_found(f: FoundV) -> Option<bool> {
    match f {
        FoundV::Value(Ok(JsonV::Bool(b))) => Some(b),
        _ => None,
    }
}

/// A JSON value as a 32-bit number.
pub open spec fn u32_of(v: JsonV) -> Option<u32> {
    match v {
        JsonV::Num(Num::Unsigned(n)) => if n <= u32::MAX {
            Some(n as u32)
        } else {
            None
        },
        _ => None,
    }
}

/// A field that is a 32-bit number.
pub open spec fn u32_found(f: FoundV) -> Option<u32> {
    match f {
        FoundV::Value(Ok(v)) => u32_of(v),
        _ => None,
    }
}

/// A field that may be a 32-bit number: missing and null are none, and anything else
/// but a number is a mistake.
pub open spec fn optional_u32(f: FoundV) -> Option<Option<u32>> {
    match f {
        FoundV::Missing => Some(None),
        FoundV::Value(Ok(JsonV::Null)) => Some(None),
        _ => match u32_found(f) {
            Some(n) => Some(Some(n)),
            None => None,
        },
    }
}

/// Whether all values are texts.
pub open spec fn all_texts(items: Seq<JsonV>) -> bool {
    forall|i: int| 0 <= i < items.len() ==> (#[trigger] items[i]) is Str
}

/// A field that is a list of texts.
pub open spec fn texts_found(f: FoundV) -> Option<Seq<Seq<char>>> {
    match f {
        FoundV::Value(Ok(JsonV::Arr(items))) => if all_texts(items) {
            Some(items.map_values(|x: JsonV| x->Str_0))
        } else {
            None
        },
        _ => None,
    }
}

impl Found {
    /// The text that the field is.
    pub fn text(&self) -> (r: Option<String>)
        ensures
            opt_view(r) == text_found(self@),
    {
        match self {
            Found::Value(Ok(Json::Str(s))) => Some(s.clone()),
            _ => None,
        }
    }

    /// The text that the field may be.
    pub fn optional_text(&self) -> (r: Option<Option<String>>)
        ensures
            match r {
                Some(o) => optional_text(self@) == Some(opt_view(o)),
                None => optional_text(self@) is None,
            },
    {
        match self {
            Found::Missing => Some(None),
            Found::Value(Ok(Json::Null)) => Some(None),
            Found::Value(Ok(Json::Str(s))) => Some(Some(s.clone())),
            _ => None,
        }
    }

    /// The truth value that the field is.
    pub fn truth(&self) -> (r: Option<bool>)
        ensures
            r == bool_found(self@),
    {
        match self {
            Found::Value(Ok(Json::Bool(b))) => Some(*b),
            _ => None,
        }
    }

    /// The 32-bit number that the field is.
    pub fn number(&self) -> (r: Option<u32>)
        ensures
            r == u32_found(self@),
    {
        match self {
            Found::Value(Ok(j)) => match j.as_u64() {
                Some(n) => if n <= u32::MAX as u64 {
                    Some(n as u32)
                } else {
                    None
                },
                None => None,
            },
            _ => None,
        }
    }

    /// The 32-bit number that the field may be.
    pub fn optional_number(&self) -> (r: Option<Option<u32>>)
        ensures
            r == optional_u32(self@),
    {
        match self {
            Found::Missing => Some(None),
            Found::Value(Ok(Json::Null)) => Some(None),
            _ => match self.number() {
                Some(n) => Some(Some(n)),
                None => None,
            },
        }
    }

    /// The list of texts that the field is.
    pub fn texts(&self) -> (r: Option<Vec<String>>)
        ensures
            match r {
                Some(texts) => texts_found(self@) == Some(views(texts@)),
                None => texts_found(self@) is None,
            },
    {
        let items = match self {
            Found::Value(Ok(Json::Arr(items))) => items,
            _ => {
                return None;
            },
        };
        let ghost all = items_view(items@);
        assert(self@->Value_0->Ok_0->Arr_0 =~= all);
        let mut out: Vec<String> = Vec::new();
        let mut i: usize = 0;
        while i < items.len()
            invariant
                all == items_view(items@),
                self@ == FoundV::Value(Ok(JsonV::Arr(all))),
                i <= items@.len(),
                out@.len() == i,
                forall|k: int| 0 <= k < i ==> (#[trigger] all[k]) == JsonV::Str(out@[k]@),
            decreases items@.len() - i,
        {
            assert(all[i as int] == items@[i as int]@);
            match items[i].as_str() {
                Some(s) => {
                    out.push(s.to_owned());
                },
                None => {
                    assert(!(all[i as int] is Str));
                    return None;
                },
            }
            i = i + 1;
        }
        assert(all_texts(all));
        assert(views(out@) =~= all.map_values(|x: JsonV| x->Str_0));
        Some(out)
    }
}

proof fn lemma_named_prefix(a: Seq<(Seq<char>, Seq<char>)>, b: Seq<(Seq<char>, Seq<char>)>, name: Seq<char>, n: nat)
    requires
        n <= a.len(),
        n <= b.len(),
        forall|i: int| 0 <= i < n ==> (#[trigger] a[i]) == b[i],
    ensures
        named(a, name, n) == named(b, name, n),
    decreases n,
{
    if n > 0 {
        assert(a[n - 1] == b[n - 1]);
        lemma_named_prefix(a, b, name, (n - 1) as nat);
    }
}

proof fn lemma_named_past(
    m: Seq<(Seq<char>, Seq<char>)>,
    other: (Seq<char>, Seq<char>),
    place: int,
    name: Seq<char>,
    n: nat,
)
    requires
        0 <= place <= n <= m.len(),
        other.0 != name,
    ensures
        named(m.insert(place, other), name, n + 1) == named(m, name, n),
    decreases n,
{
    let more = m.insert(place, other);
    if n == place {
        lemma_named_prefix(more, m, name, n);
        assert(more[n as int] == other);
    } else {
        lemma_named_past(m, other, place, name, (n - 1) as nat);
        assert(more[n as int] == m[n - 1]);
    }
}

/// A member of another name, wherever it stands and whatever it holds, changes nothing
/// about a field; a second member of its own name spoils it.
pub proof fn law_only_its_own_members_make_a_field(
    m: Seq<(Seq<char>, Seq<char>)>,
    extra: (Seq<char>, Seq<char>),
    place: int,
    name: Seq<char>,
    at: int,
)
    requires
        0 <= place <= m.len(),
    ensures
        extra.0 != name ==> field(DocV::Members(m.insert(place, extra)), name, at) == field(DocV::Members(m), name, at),
        extra.0 == name && field(DocV::Members(m), name, at) != FoundV::Missing ==> field(
            DocV::Members(m.insert(place, extra)),
            name,
            at,
        ) == FoundV::Repeated,
{
    if extra.0 != name {
        lemma_named_past(m, extra, place, name, m.len());
    } else {
        lemma_named_more(m, extra, place, m.len());
    }
}

proof fn lemma_named_more(m: Seq<(Seq<char>, Seq<char>)>, extra: (Seq<char>, Seq<char>), place: int, n: nat)
    requires
        0 <= place <= n <= m.len(),
    ensures
        named(m.insert(place, extra), extra.0, n + 1).len() == named(m, extra.0, n).len() + 1,
    decreases n,
{
    let more = m.insert(place, extra);
    if n == place {
        lemma_named_prefix(more, m, extra.0, n);
        assert(more[n as int] == extra);
    } else {
        lemma_named_more(m, extra, place, (n - 1) as nat);
        assert(more[n as int] == m[n - 1]);
    }
}

/// What is said against a text that is not the document that it should be: what
/// reading it as a value gave, where that failed, and otherwise `own`.
pub open spec fn refusal(text: Seq<char>, own: Seq<char>) -> Seq<char> {
    match json_parse(text) {
        Err(e) => e,
        Ok(_) => own,
    }
}

/// Says what is said against a text that is not the document that it should be.
pub fn refuse(text: &str, own: String) -> (r: String)
    ensures
        r@ == refusal(text@, own@),
{
    match parse_json(text) {
        Err(e) => e,
        Ok(_) => own,
    }
}

/// A field of an object is the one member of its name, read as JSON; a field of a list is
/// the item at its place. One that is not there is missing, and a member that occurs twice
/// is no field.
pub proof fn law_field_is_its_one_member(m: Seq<(Seq<char>, Seq<char>)>, items: Seq<Seq<char>>, name: Seq<char>, at: int, i: int)
    ensures
        (forall|k: int| 0 <= k < m.len() ==> (#[trigger] m[k]).0 != name) ==> field(DocV::Members(m), name, at)
            == FoundV::Missing,
        0 <= i < m.len() && m[i].0 == name && (forall|k: int|
            0 <= k < m.len() && k != i ==> (#[trigger] m[k]).0 != name) ==> field(DocV::Members(m), name, at)
            == FoundV::Value(json_parse(m[i].1)),
        0 <= at < items.len() ==> field(DocV::Items(items), name, at) == FoundV::Value(json_parse(items[at])),
        at < 0 || at >= items.len() ==> field(DocV::Items(items), name, at) == FoundV::Missing,
{
    if forall|k: int| 0 <= k < m.len() ==> (#[trigger] m[k]).0 != name {
        lemma_named_none(m, name, m.len());
    }
    if 0 <= i < m.len() && m[i].0 == name && (forall|k: int|
        0 <= k < m.len() && k != i ==> (#[trigger] m[k]).0 != name) {
        lemma_named_one(m, name, m.len(), i);
    }
}

proof fn lemma_named_none(m: Seq<(Seq<char>, Seq<char>)>, name: Seq<char>, n: nat)
    requires
        n <= m.len(),
        forall|k: int| 0 <= k < n ==> (#[trigger] m[k]).0 != name,
    ensures
        named(m, name, n).len() == 0,
    decreases n,
{
    if n > 0 {
        lemma_named_none(m, name, (n - 1) as nat);
    }
}

proof fn lemma_named_one(m: Seq<(Seq<char>, Seq<char>)>, name: Seq<char>, n: nat, i: int)
    requires
        0 <= i < n <= m.len(),
        m[i].0 == name,
        forall|k: int| 0 <= k < n && k != i ==> (#[trigger] m[k]).0 != name,
    ensures
        named(m, name, n) == seq![m[i].1],
    decreases n,
{
    if i < n - 1 {
        lemma_named_one(m, name, (n - 1) as nat, i);
    } else {
        lemma_named_none(m, name, (n - 1) as nat);
        assert(named(m, name, (n - 1) as nat) =~= Seq::<Seq<char>>::empty());
        assert(named(m, name, n) =~= seq![m[i].1]);
    }
}

/// A list fits where it has no more items than there are fields; an object always fits.
pub proof fn law_list_fits_its_fields(d: DocV, fields: nat)
    ensures
        d is Members ==> fits(d, fields),
        d matches DocV::Items(s) ==> (fits(d, fields) <==> s.len() <= fields),
{
}

/// The members of an object are its parts two by two, in order: a name, read as a text,
/// and what stands under it.
pub proof fn law_members_are_pairs_in_order(parts: Seq<Seq<char>>, n: nat, i: int, m: Seq<(Seq<char>, Seq<char>)>)
    requires
        0 <= i < n,
        2 * n <= parts.len(),
        paired(parts, n) == Some(m),
    ensures
        m.len() == n,
        json_parse(parts[2 * i]) == Ok::<JsonV, Seq<char>>(JsonV::Str(m[i].0)),
        m[i].1 == parts[2 * i + 1],
    decreases n,
{
    let short = paired(parts, (n - 1) as nat)->Some_0;
    lemma_paired_len(parts, n);
    lemma_paired_len(parts, (n - 1) as nat);
    if i < n - 1 {
        law_members_are_pairs_in_order(parts, (n - 1) as nat, i, short);
    }
}

proof fn lemma_paired_len(parts: Seq<Seq<char>>, n: nat)
    requires
        2 * n <= parts.len(),
    ensures
        paired(parts, n) matches Some(m) ==> m.len() == n,
    decreases n,
{
    if n > 0 {
        lemma_paired_len(parts, (n - 1) as nat);
    }
}

/// What is found under a field counts as what it is, and as nothing else: a text as a
/// text, a truth as a truth, a number that fits as a number, and a list of texts as their
/// list.
pub proof fn law_found_counts_as_what_it_is(f: FoundV, i: int)
    ensures
        text_found(f) matches Some(s) ==> f == FoundV::Value(Ok::<JsonV, Seq<char>>(JsonV::Str(s))),
        f matches FoundV::Value(Ok(JsonV::Str(s))) ==> text_found(f) == Some(s) && optional_text(f) == Some(Some(s)),
        bool_found(f) matches Some(b) ==> f == FoundV::Value(Ok::<JsonV, Seq<char>>(JsonV::Bool(b))),
        f matches FoundV::Value(Ok(JsonV::Bool(b))) ==> bool_found(f) == Some(b),
        u32_found(f) matches Some(n) ==> f == FoundV::Value(
            Ok::<JsonV, Seq<char>>(JsonV::Num(Num::Unsigned(n as u64))),
        ),
        f matches FoundV::Value(Ok(JsonV::Num(Num::Unsigned(n)))) ==> n <= u32::MAX ==> u32_found(f) == Some(n as u32)
            && optional_u32(f) == Some(Some(n as u32)),
        f == FoundV::Missing || f == FoundV::Value(Ok::<JsonV, Seq<char>>(JsonV::Null)) ==> optional_text(f) == Some(
            None::<Seq<char>>,
        ) && optional_u32(f) == Some(None::<u32>),
        f == FoundV::Repeated ==> text_found(f) is None && optional_text(f) is None && bool_found(f) is None
            && u32_found(f) is None && optional_u32(f) is None && texts_found(f) is None,
        f == FoundV::Missing ==> text_found(f) is None && bool_found(f) is None && u32_found(f) is None && texts_found(
            f,
        ) is None,
        texts_found(f) matches Some(texts) ==> (f matches FoundV::Value(Ok(JsonV::Arr(items))) && texts.len()
            == items.len() && (0 <= i < items.len() ==> items[i] == JsonV::Str(texts[i]))),
{
    if texts_found(f) is Some {
        let items = f->Value_0->Ok_0->Arr_0;
        if 0 <= i < items.len() {
            assert(items[i] is Str);
        }
    }
}

/// What is wrong with a document that is no JSON is what its reader says; with any other
/// it is what the caller says.
pub proof fn law_refusal_says_what_is_wrong(text: Seq<char>, own: Seq<char>)
    ensures
        json_parse(text) is Ok ==> refusal(text, own) == own,
        json_parse(text) matches Err(e) ==> refusal(text, own) == e,
{
}

/// A document is cut into its parts by the commas and colons of its outermost level alone:
/// what stands in quotes, and what stands deeper, is kept in its part as it is. A quote
/// that is escaped does not end what is quoted.
pub proof fn law_parts_are_cut_at_the_outermost_level(at: Cut, c: char)
    ensures
        at.quoted && (at.escaped || c != '"') ==> at.step(c).quoted,
        at.quoted && !at.escaped && c == '"' ==> !at.step(c).quoted,
        at.quoted ==> at.step(c).parts == at.parts && at.step(c).depth == at.depth && at.step(c).outer == at.outer,
        at.quoted ==> (at.step(c).escaped <==> !at.escaped && c == '\\'),
        !at.quoted && c == '"' ==> at.step(c).quoted && at.step(c).parts == at.parts && at.step(c).depth == at.depth,
        at.depth > 0 && (at.quoted || c == '"') ==> at.step(c).part == at.part.push(c),
        !at.quoted && at.depth == 1 && (c == ',' || c == ':') ==> at.step(c).parts == at.parts.push(at.part)
            && at.step(c).part.len() == 0 && at.step(c).depth == 1,
        !at.quoted && at.depth > 1 && (c == ',' || c == ':') ==> at.step(c).parts == at.parts && at.step(c).part
            == at.part.push(c) && at.step(c).depth == at.depth,
        !at.quoted && at.depth > 0 && (c == '{' || c == '[') ==> at.step(c).depth == at.depth + 1 && at.step(c).part
            == at.part.push(c) && at.step(c).parts == at.parts,
        !at.quoted && at.depth > 1 && (c == '}' || c == ']') ==> at.step(c).depth == at.depth - 1 && at.step(c).part
            == at.part.push(c) && at.step(c).parts == at.parts,
        !at.quoted && at.depth == 1 && (c == '}' || c == ']') ==> at.step(c).depth == 0 && at.step(c).part == at.part
            && at.step(c).parts == at.parts,
        !at.quoted && at.depth == 0 && (c == '{' || c == '[') ==> at.step(c).depth == 1 && at.step(c).outer == Some(c)
            && at.step(c).part.len() == 0,
{
}

/// A document is cut letter by letter, from its first to its last.
pub proof fn law_document_is_cut_letter_by_letter(t: Seq<char>, n: nat)
    requires
        n < t.len(),
    ensures
        cut(t, n + 1) == cut(t, n).step(t[n as int]),
        cut(t, 0).depth == 0 && !cut(t, 0).quoted && !cut(t, 0).escaped && cut(t, 0).outer is None && cut(
            t,
            0,
        ).parts.len() == 0 && cut(t, 0).part.len() == 0,
{
}

/// A document is an object where it opens with a brace, a list where it opens with a
/// bracket, and none where it opens with neither; an empty one has no parts.
pub proof fn law_document_is_what_it_opens_with(t: Seq<char>)
    ensures
        ({
            let done = cut(t, t.len());
            &&& done.outer is None ==> doc_of(t) is None
            &&& done.outer == Some('[') ==> doc_of(t) == Some(DocV::Items(done.all()))
            &&& done.outer == Some('{') ==> (doc_of(t) matches Some(d) ==> d is Members)
            &&& done.parts.len() == 0 && is_blank(done.part) ==> done.all().len() == 0
            &&& done.parts.len() > 0 || !is_blank(done.part) ==> done.all() == done.parts.push(done.part)
        }),
{
}

/// A block of a document is the document that stands under its name, where one does and
/// it fits.
pub proof fn law_block_is_the_document_under_its_name(d: DocV, name: Seq<char>, at: int, fields: nat, text: Seq<char>)
    requires
        given(d, name, at) == seq![text],
    ensures
        doc_of(text) is None ==> block(d, name, at, fields) is None,
        doc_of(text) matches Some(b) ==> (fits(b, fields) ==> block(d, name, at, fields) == Some(b)) && (!fits(b, fields)
            ==> block(d, name, at, fields) is None),
{
}

} // verus!
