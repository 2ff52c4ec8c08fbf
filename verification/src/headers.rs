//! Ordered header sets and their normalization for outgoing requests.
//!
//! A header set is an ordered sequence of (name, value) string pairs;
//! duplicate names are permitted and insertion order is preserved. Name
//! lookups are ASCII-case-insensitive, matching wire semantics.
use vstd::prelude::*;
use vstd::string::*;

verus! {

/// The ASCII-lowercase code of a character; names compare equal when their
/// characters agree under this folding.
pub open spec fn lower_code(c: char) -> int {
    let u = c as u32;
    if 65 <= u && u <= 90 {
        u as int + 32
    } else {
        u as int
    }
}

/// ASCII-case-insensitive equality of two header names.
pub open spec fn name_eq_ci(a: Seq<char>, b: Seq<char>) -> bool {
    a.len() == b.len() && forall|i: int| 0 <= i < a.len() ==> lower_code(a[i]) == lower_code(b[i])
}

/// Whether a header set holds an entry with this name, case-insensitively.
pub open spec fn has_name(hs: Seq<(Seq<char>, Seq<char>)>, name: Seq<char>) -> bool {
    exists|i: int| 0 <= i < hs.len() && name_eq_ci((#[trigger] hs[i]).0, name)
}

/// How many entries of a header set carry this name.
pub open spec fn count_name(hs: Seq<(Seq<char>, Seq<char>)>, name: Seq<char>) -> nat
    decreases hs.len(),
{
    if hs.len() == 0 {
        0
    } else {
        (if name_eq_ci(hs[0].0, name) {
            1nat
        } else {
            0nat
        }) + count_name(hs.drop_first(), name)
    }
}

/// A header set with every entry of the given name removed and everything
/// else kept in order.
pub open spec fn strip_name(hs: Seq<(Seq<char>, Seq<char>)>, name: Seq<char>) -> Seq<
    (Seq<char>, Seq<char>),
>
    decreases hs.len(),
{
    if hs.len() == 0 {
        hs
    } else if name_eq_ci(hs[0].0, name) {
        strip_name(hs.drop_first(), name)
    } else {
        seq![hs[0]] + strip_name(hs.drop_first(), name)
    }
}

fn char_eq_ci(a: char, b: char) -> (r: bool)
    ensures
        r == (lower_code(a) == lower_code(b)),
{
    let x = a as u32;
    let y = b as u32;
    let xl = if x >= 65 && x <= 90 {
        x + 32
    } else {
        x
    };
    let yl = if y >= 65 && y <= 90 {
        y + 32
    } else {
        y
    };
    xl == yl
}

/// ASCII-case-insensitive comparison of two names.
pub fn str_eq_ci(a: &str, b: &str) -> (r: bool)
    ensures
        r == name_eq_ci(a@, b@),
{
    let la = a.unicode_len();
    let lb = b.unicode_len();
    if la != lb {
        return false;
    }
    let mut i: usize = 0;
    while i < la
        invariant
            la == a@.len(),
            lb == b@.len(),
            la == lb,
            i <= la,
            forall|j: int| 0 <= j < i ==> lower_code(a@[j]) == lower_code(b@[j]),
        decreases la - i,
    {
        if !char_eq_ci(a.get_char(i), b.get_char(i)) {
            return false;
        }
        i += 1;
    }
    true
}

/// An ordered header set: (name, value) pairs, duplicates permitted,
/// insertion order preserved.
#[derive(Debug)]
pub struct Headers {
    pairs: Vec<(String, String)>,
}

impl View for Headers {
    type V = Seq<(Seq<char>, Seq<char>)>;

    closed spec fn view(&self) -> Seq<(Seq<char>, Seq<char>)> {
        self.pairs@.map_values(|p: (String, String)| (p.0@, p.1@))
    }
}

impl Default for Headers {
    fn default() -> (h: Headers)
        ensures
            h@ == Seq::<(Seq<char>, Seq<char>)>::empty(),
    {
        Headers::new()
    }
}

/// Script supplies headers either as ordered pairs or as a single-valued
/// key-ordered mapping; both collapse to one ordered-pairs representation.
/// The host's boundary adapter turns the mapping's entries into a vector in
/// key order before handing them over.
pub enum HeaderInput {
    Pairs(Vec<(String, String)>),
    Mapping(Vec<(String, String)>),
}

impl Headers {
    pub fn new() -> (h: Headers)
        ensures
            h@ == Seq::<(Seq<char>, Seq<char>)>::empty(),
    {
        let h = Headers { pairs: Vec::new() };
        proof {
            assert(h@ =~= Seq::<(Seq<char>, Seq<char>)>::empty());
        }
        h
    }

    pub fn from_pairs(pairs: Vec<(String, String)>) -> (h: Headers)
        ensures
            h@ == pairs@.map_values(|p: (String, String)| (p.0@, p.1@)),
    {
        Headers { pairs }
    }

    /// Collapses either accepted input shape into the canonical pairs.
    pub fn from_input(input: HeaderInput) -> (h: Headers)
        ensures
            h@ == match input {
                HeaderInput::Pairs(v) => v@.map_values(|p: (String, String)| (p.0@, p.1@)),
                HeaderInput::Mapping(v) => v@.map_values(|p: (String, String)| (p.0@, p.1@)),
            },
    {
        match input {
            HeaderInput::Pairs(v) => Headers { pairs: v },
            HeaderInput::Mapping(v) => Headers { pairs: v },
        }
    }

    pub fn len(&self) -> (n: usize)
        ensures
            n == self@.len(),
    {
        self.pairs.len()
    }

    pub fn name_at(&self, i: usize) -> (r: &String)
        requires
            i < self@.len(),
        ensures
            r@ == self@[i as int].0,
    {
        &self.pairs[i].0
    }

    pub fn value_at(&self, i: usize) -> (r: &String)
        requires
            i < self@.len(),
        ensures
            r@ == self@[i as int].1,
    {
        &self.pairs[i].1
    }

    pub fn push(&mut self, name: String, value: String)
        ensures
            final(self)@ == old(self)@.push((name@, value@)),
    {
        let ghost pre = self@;
        self.pairs.push((name, value));
        proof {
            assert(self@ =~= pre.push((name@, value@)));
        }
    }

    /// Whether an entry with this name is present, case-insensitively.
    pub fn contains_name(&self, name: &str) -> (r: bool)
        ensures
            r == has_name(self@, name@),
    {
        let n = self.pairs.len();
        let mut i: usize = 0;
        while i < n
            invariant
                n == self@.len(),
                i <= n,
                forall|j: int| 0 <= j < i ==> !name_eq_ci((#[trigger] self@[j]).0, name@),
            decreases n - i,
        {
            if str_eq_ci(self.pairs[i].0.as_str(), name) {
                proof {
                    assert(self@[i as int].0 == self.pairs@[i as int].0@);
                }
                return true;
            }
            i += 1;
        }
        false
    }

    /// Removes every entry with this name, keeping everything else in
    /// order.
    pub fn remove_name(&mut self, name: &str)
        ensures
            final(self)@ == strip_name(old(self)@, name@),
    {
        let ghost hs = self@;
        let n = self.pairs.len();
        let mut kept: Vec<(String, String)> = Vec::new();
        let mut i: usize = 0;
        proof {
            assert(hs.skip(0) =~= hs);
            assert(kept@.map_values(|p: (String, String)| (p.0@, p.1@)) =~= Seq::<
                (Seq<char>, Seq<char>),
            >::empty());
        }
        while i < n
            invariant
                n == self@.len(),
                hs == self@,
                i <= n,
                strip_name(hs, name@) == kept@.map_values(|p: (String, String)| (p.0@, p.1@))
                    + strip_name(hs.skip(i as int), name@),
            decreases n - i,
        {
            let ghost kv = kept@.map_values(|p: (String, String)| (p.0@, p.1@));
            proof {
                lemma_strip_step(hs, name@, i as int);
            }
            if !str_eq_ci(self.pairs[i].0.as_str(), name) {
                let pair = (self.pairs[i].0.clone(), self.pairs[i].1.clone());
                kept.push(pair);
                proof {
                    assert(kept@.map_values(|p: (String, String)| (p.0@, p.1@)) =~= kv.push(
                        (hs[i as int].0, hs[i as int].1),
                    ));
                    assert(kv.push((hs[i as int].0, hs[i as int].1)) =~= kv + seq![
                        hs[i as int],
                    ]);
                    assert(kv + seq![hs[i as int]] + strip_name(hs.skip(i + 1), name@) =~= kv
                        + (seq![hs[i as int]] + strip_name(hs.skip(i + 1), name@)));
                }
            }
            i += 1;
        }
        proof {
            assert(hs.skip(n as int) =~= Seq::<(Seq<char>, Seq<char>)>::empty());
            assert(kept@.map_values(|p: (String, String)| (p.0@, p.1@)) + Seq::<
                (Seq<char>, Seq<char>),
            >::empty() =~= kept@.map_values(|p: (String, String)| (p.0@, p.1@)));
        }
        self.pairs = kept;
    }
}

/// The character of one decimal digit.
pub open spec fn digit(d: int) -> char {
    ((48 + d) as u8) as char
}

/// The decimal rendering of a non-negative number, most significant digit
/// first, without leading zeros.
pub open spec fn dec_chars(n: int) -> Seq<char>
    recommends
        n >= 0,
    decreases n,
{
    if n < 10 {
        seq![digit(n)]
    } else {
        dec_chars(n / 10).push(digit(n % 10))
    }
}

fn digit_str(d: usize) -> (r: &'static str)
    requires
        d < 10,
    ensures
        r@ == seq![digit(d as int)],
{
    proof {
        reveal_strlit("0");
        reveal_strlit("1");
        reveal_strlit("2");
        reveal_strlit("3");
        reveal_strlit("4");
        reveal_strlit("5");
        reveal_strlit("6");
        reveal_strlit("7");
        reveal_strlit("8");
        reveal_strlit("9");
    }
    match d {
        0 => "0",
        1 => "1",
        2 => "2",
        3 => "3",
        4 => "4",
        5 => "5",
        6 => "6",
        7 => "7",
        8 => "8",
        _ => "9",
    }
}

/// Renders a byte count in decimal, as a `Content-Length` value is written.
pub fn usize_to_string(n: usize) -> (s: String)
    ensures
        s@ == dec_chars(n as int),
    decreases n,
{
    if n < 10 {
        String::from_str(digit_str(n))
    } else {
        let mut s = usize_to_string(n / 10);
        s.append(digit_str(n % 10));
        proof {
            assert(s@ =~= dec_chars(n as int / 10).push(digit(n as int % 10)));
        }
        s
    }
}

/// The outgoing header set for one request: the script's headers in order;
/// `Host` (from the URL authority) and a default `User-Agent` injected when
/// absent; every caller-supplied `Accept-Encoding` stripped, because the
/// bridge performs no transparent response decompression; and, for a
/// non-streamed body whose size is known, `Content-Length` injected when
/// not already present.
pub open spec fn spec_normalize(
    hs: Seq<(Seq<char>, Seq<char>)>,
    host: Seq<char>,
    content_length: Option<int>,
) -> Seq<(Seq<char>, Seq<char>)> {
    let h1 = if has_name(hs, "Host"@) {
        hs
    } else {
        hs.push(("Host"@, host))
    };
    let h2 = if has_name(h1, "User-Agent"@) {
        h1
    } else {
        h1.push(("User-Agent"@, "WapoJS/0.1.0"@))
    };
    let h3 = strip_name(h2, "Accept-Encoding"@);
    match content_length {
        None => h3,
        Some(n) => if has_name(h3, "Content-Length"@) {
            h3
        } else {
            h3.push(("Content-Length"@, dec_chars(n)))
        },
    }
}

impl Headers {
    /// Normalizes this header set for sending, as `spec_normalize` states.
    /// `content_length` is the exact byte length of a non-streamed body,
    /// or `None` when the body is streamed.
    pub fn normalize_for_request(&mut self, host: &str, content_length: Option<usize>)
        ensures
            final(self)@ == spec_normalize(
                old(self)@,
                host@,
                match content_length {
                    Some(n) => Some(n as int),
                    None => None,
                },
            ),
    {
        if !self.contains_name("Host") {
            self.push(String::from_str("Host"), String::from_str(host));
        }
        if !self.contains_name("User-Agent") {
            self.push(String::from_str("User-Agent"), String::from_str("WapoJS/0.1.0"));
        }
        self.remove_name("Accept-Encoding");
        match content_length {
            None => {},
            Some(n) => {
                if !self.contains_name("Content-Length") {
                    let value = usize_to_string(n);
                    self.push(String::from_str("Content-Length"), value);
                }
            },
        }
    }
}

/// Appending one pair finds a name exactly when the set already had it or
/// the new pair carries it.
pub proof fn lemma_has_name_push(
    hs: Seq<(Seq<char>, Seq<char>)>,
    p: (Seq<char>, Seq<char>),
    name: Seq<char>,
)
    ensures
        has_name(hs.push(p), name) <==> (has_name(hs, name) || name_eq_ci(p.0, name)),
{
    if has_name(hs, name) {
        let i = choose|i: int| 0 <= i < hs.len() && name_eq_ci((#[trigger] hs[i]).0, name);
        assert(hs.push(p)[i] == hs[i]);
    }
    if name_eq_ci(p.0, name) {
        assert(hs.push(p)[hs.len() as int] == p);
    }
    if has_name(hs.push(p), name) && !name_eq_ci(p.0, name) {
        let i = choose|i: int|
            0 <= i < hs.push(p).len() && name_eq_ci((#[trigger] hs.push(p)[i]).0, name);
        if i < hs.len() {
            assert(hs[i] == hs.push(p)[i]);
        } else {
            assert(hs.push(p)[i] == p);
        }
    }
}

/// Stripping a name removes every entry carrying it.
pub proof fn lemma_strip_removes(hs: Seq<(Seq<char>, Seq<char>)>, name: Seq<char>)
    ensures
        !has_name(strip_name(hs, name), name),
    decreases hs.len(),
{
    if hs.len() > 0 {
        lemma_strip_removes(hs.drop_first(), name);
        if !name_eq_ci(hs[0].0, name) {
            let s = seq![hs[0]] + strip_name(hs.drop_first(), name);
            if has_name(s, name) {
                let i = choose|i: int| 0 <= i < s.len() && name_eq_ci((#[trigger] s[i]).0, name);
                if i > 0 {
                    assert(s[i] == strip_name(hs.drop_first(), name)[i - 1]);
                }
            }
        }
    }
}

/// Stripping one name never introduces another: a name found afterwards
/// was already there.
pub proof fn lemma_strip_subset(hs: Seq<(Seq<char>, Seq<char>)>, name: Seq<char>, other: Seq<char>)
    ensures
        has_name(strip_name(hs, name), other) ==> has_name(hs, other),
    decreases hs.len(),
{
    if hs.len() > 0 {
        lemma_strip_subset(hs.drop_first(), name, other);
        if has_name(hs.drop_first(), other) {
            let i = choose|i: int|
                0 <= i < hs.drop_first().len() && name_eq_ci(
                    (#[trigger] hs.drop_first()[i]).0,
                    other,
                );
            assert(hs[i + 1] == hs.drop_first()[i]);
        }
        if !name_eq_ci(hs[0].0, name) {
            let s = seq![hs[0]] + strip_name(hs.drop_first(), name);
            if has_name(s, other) {
                let i = choose|i: int| 0 <= i < s.len() && name_eq_ci((#[trigger] s[i]).0, other);
                if i == 0 {
                    assert(hs[0] == s[0]);
                } else {
                    assert(s[i] == strip_name(hs.drop_first(), name)[i - 1]);
                }
            }
        }
    }
}

/// Appending one pair raises the count of its name by one and leaves every
/// other count alone.
pub proof fn lemma_count_push(
    hs: Seq<(Seq<char>, Seq<char>)>,
    p: (Seq<char>, Seq<char>),
    name: Seq<char>,
)
    ensures
        count_name(hs.push(p), name) == count_name(hs, name) + (if name_eq_ci(p.0, name) {
            1nat
        } else {
            0nat
        }),
    decreases hs.len(),
{
    if hs.len() == 0 {
        assert(hs.push(p)[0] == p);
        assert(hs.push(p).drop_first() =~= hs);
    } else {
        assert(hs.push(p)[0] == hs[0]);
        assert(hs.push(p).drop_first() =~= hs.drop_first().push(p));
        lemma_count_push(hs.drop_first(), p, name);
    }
}

/// A name that is absent has count zero.
pub proof fn lemma_count_zero(hs: Seq<(Seq<char>, Seq<char>)>, name: Seq<char>)
    requires
        !has_name(hs, name),
    ensures
        count_name(hs, name) == 0,
    decreases hs.len(),
{
    if hs.len() > 0 {
        assert(!name_eq_ci(hs[0].0, name));
        assert(!has_name(hs.drop_first(), name)) by {
            if has_name(hs.drop_first(), name) {
                let i = choose|i: int|
                    0 <= i < hs.drop_first().len() && name_eq_ci(
                        (#[trigger] hs.drop_first()[i]).0,
                        name,
                    );
                assert(hs[i + 1] == hs.drop_first()[i]);
            }
        }
        lemma_count_zero(hs.drop_first(), name);
    }
}

/// Stripping a name that is absent changes nothing.
pub proof fn lemma_strip_noop(hs: Seq<(Seq<char>, Seq<char>)>, name: Seq<char>)
    requires
        !has_name(hs, name),
    ensures
        strip_name(hs, name) == hs,
    decreases hs.len(),
{
    if hs.len() > 0 {
        assert(!name_eq_ci(hs[0].0, name));
        assert(!has_name(hs.drop_first(), name)) by {
            if has_name(hs.drop_first(), name) {
                let i = choose|i: int|
                    0 <= i < hs.drop_first().len() && name_eq_ci(
                        (#[trigger] hs.drop_first()[i]).0,
                        name,
                    );
                assert(hs[i + 1] == hs.drop_first()[i]);
            }
        }
        lemma_strip_noop(hs.drop_first(), name);
        assert(seq![hs[0]] + hs.drop_first() =~= hs);
    }
}

/// Script headers that carry none of the bridge's special names pass
/// through untouched and in order, ahead of the injected `Host`,
/// `User-Agent` and `Content-Length`.
pub proof fn law_script_headers_kept_in_order(
    hs: Seq<(Seq<char>, Seq<char>)>,
    host: Seq<char>,
    n: int,
)
    requires
        forall|i: int| 0 <= i < hs.len() ==> !name_eq_ci((#[trigger] hs[i]).0, "Host"@),
        forall|i: int| 0 <= i < hs.len() ==> !name_eq_ci((#[trigger] hs[i]).0, "User-Agent"@),
        forall|i: int| 0 <= i < hs.len() ==> !name_eq_ci((#[trigger] hs[i]).0, "Accept-Encoding"@),
        forall|i: int| 0 <= i < hs.len() ==> !name_eq_ci((#[trigger] hs[i]).0, "Content-Length"@),
    ensures
        ({
            let r = spec_normalize(hs, host, Some(n));
            &&& r.len() == hs.len() + 3
            &&& r.take(hs.len() as int) == hs
        }),
{
    reveal_strlit("Host");
    reveal_strlit("User-Agent");
    reveal_strlit("Accept-Encoding");
    reveal_strlit("Content-Length");
    reveal_strlit("WapoJS/0.1.0");
    let hp = ("Host"@, host);
    let up = ("User-Agent"@, "WapoJS/0.1.0"@);
    let cp = ("Content-Length"@, dec_chars(n));
    assert(!has_name(hs, "Host"@));
    let h1 = hs.push(hp);
    lemma_has_name_push(hs, hp, "User-Agent"@);
    assert(!name_eq_ci("Host"@, "User-Agent"@));
    assert(!has_name(h1, "User-Agent"@));
    let h2 = h1.push(up);
    lemma_has_name_push(hs, hp, "Accept-Encoding"@);
    lemma_has_name_push(h1, up, "Accept-Encoding"@);
    assert(!name_eq_ci("Host"@, "Accept-Encoding"@));
    assert(!name_eq_ci("User-Agent"@, "Accept-Encoding"@));
    assert(!has_name(h2, "Accept-Encoding"@));
    lemma_strip_noop(h2, "Accept-Encoding"@);
    lemma_has_name_push(hs, hp, "Content-Length"@);
    lemma_has_name_push(h1, up, "Content-Length"@);
    assert(!name_eq_ci("Host"@, "Content-Length"@));
    assert(!name_eq_ci("User-Agent"@, "Content-Length"@));
    assert(!has_name(h2, "Content-Length"@));
    let r = spec_normalize(hs, host, Some(n));
    assert(r == h2.push(cp));
    assert(r.take(hs.len() as int) =~= hs);
}

/// A caller-supplied `Accept-Encoding` header is never present in the
/// outgoing header set, regardless of its input value.
pub proof fn law_accept_encoding_never_present(
    hs: Seq<(Seq<char>, Seq<char>)>,
    host: Seq<char>,
    content_length: Option<int>,
)
    ensures
        !has_name(spec_normalize(hs, host, content_length), "Accept-Encoding"@),
{
    reveal_strlit("Accept-Encoding");
    reveal_strlit("Content-Length");
    let h1 = if has_name(hs, "Host"@) {
        hs
    } else {
        hs.push(("Host"@, host))
    };
    let h2 = if has_name(h1, "User-Agent"@) {
        h1
    } else {
        h1.push(("User-Agent"@, "WapoJS/0.1.0"@))
    };
    let h3 = strip_name(h2, "Accept-Encoding"@);
    lemma_strip_removes(h2, "Accept-Encoding"@);
    match content_length {
        None => {},
        Some(n) => {
            if !has_name(h3, "Content-Length"@) {
                assert(!name_eq_ci("Content-Length"@, "Accept-Encoding"@));
                lemma_has_name_push(h3, ("Content-Length"@, dec_chars(n)), "Accept-Encoding"@);
            }
        },
    }
}

/// For a non-streamed body of `n` bytes without a caller-supplied
/// `Content-Length`, the outgoing set holds `Content-Length: n` exactly:
/// one such entry, its value the decimal rendering of `n`, at the end.
pub proof fn law_content_length_exact(hs: Seq<(Seq<char>, Seq<char>)>, host: Seq<char>, n: int)
    requires
        !has_name(hs, "Content-Length"@),
    ensures
        ({
            let r = spec_normalize(hs, host, Some(n));
            &&& count_name(r, "Content-Length"@) == 1
            &&& r.len() > 0
            &&& r.last() == ("Content-Length"@, dec_chars(n))
        }),
{
    reveal_strlit("Host");
    reveal_strlit("User-Agent");
    reveal_strlit("Content-Length");
    reveal_strlit("Accept-Encoding");
    let cl = "Content-Length"@;
    let h1 = if has_name(hs, "Host"@) {
        hs
    } else {
        hs.push(("Host"@, host))
    };
    let h2 = if has_name(h1, "User-Agent"@) {
        h1
    } else {
        h1.push(("User-Agent"@, "WapoJS/0.1.0"@))
    };
    let h3 = strip_name(h2, "Accept-Encoding"@);
    assert(!name_eq_ci("Host"@, cl));
    assert(!name_eq_ci("User-Agent"@, cl));
    lemma_has_name_push(hs, ("Host"@, host), cl);
    lemma_has_name_push(h1, ("User-Agent"@, "WapoJS/0.1.0"@), cl);
    assert(!has_name(h2, cl));
    lemma_strip_subset(h2, "Accept-Encoding"@, cl);
    assert(!has_name(h3, cl));
    lemma_count_zero(h3, cl);
    lemma_count_push(h3, (cl, dec_chars(n)), cl);
    assert(spec_normalize(hs, host, Some(n)) == h3.push((cl, dec_chars(n))));
    assert(h3.push((cl, dec_chars(n))).last() == (cl, dec_chars(n)));
}

/// Unfolds `strip_name` one position into a suffix of the set.
proof fn lemma_strip_step(hs: Seq<(Seq<char>, Seq<char>)>, name: Seq<char>, i: int)
    requires
        0 <= i < hs.len(),
    ensures
        strip_name(hs.skip(i), name) == if name_eq_ci(hs[i].0, name) {
            strip_name(hs.skip(i + 1), name)
        } else {
            seq![hs[i]] + strip_name(hs.skip(i + 1), name)
        },
{
    assert(hs.skip(i).len() > 0);
    assert(hs.skip(i)[0] == hs[i]);
    assert(hs.skip(i).drop_first() =~= hs.skip(i + 1));
}

} // verus!
