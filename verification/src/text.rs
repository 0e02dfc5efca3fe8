//! Text helpers shared by the command parser, the handlers and the renderers:
//! Unicode whitespace, whitespace-separated words, joining, prefix stripping,
//! and decimal / hexadecimal rendering of integers.

use vstd::prelude::*;
use vstd::string::StrSliceExecFns;
use vstd::string::StringExecFns;

verus! {

/// The Unicode `White_Space` property, as `char::is_whitespace` reports it.
pub open spec fn is_ws(c: char) -> bool {
    let v = c as u32;
    ||| 0x09 <= v <= 0x0d
    ||| v == 0x20
    ||| v == 0x85
    ||| v == 0xa0
    ||| v == 0x1680
    ||| 0x2000 <= v <= 0x200a
    ||| v == 0x2028
    ||| v == 0x2029
    ||| v == 0x202f
    ||| v == 0x205f
    ||| v == 0x3000
}

/// Executable `is_ws`.
pub fn is_whitespace(c: char) -> (r: bool)
    ensures
        r == is_ws(c),
{
    let v = c as u32;
    (0x09 <= v && v <= 0x0d) || v == 0x20 || v == 0x85 || v == 0xa0 || v == 0x1680 || (0x2000
        <= v && v <= 0x200a) || v == 0x2028 || v == 0x2029 || v == 0x202f || v == 0x205f || v
        == 0x3000
}

/// One step of splitting at whitespace: the words finished so far and the word in progress.
pub open spec fn word_step(st: (Seq<Seq<char>>, Seq<char>), c: char) -> (Seq<Seq<char>>, Seq<char>) {
    if is_ws(c) {
        if st.1.len() > 0 {
            (st.0.push(st.1), Seq::empty())
        } else {
            st
        }
    } else {
        (st.0, st.1.push(c))
    }
}

/// Reading `s` from the left: the words closed by whitespace, and the word still open.
pub open spec fn word_scan(s: Seq<char>) -> (Seq<Seq<char>>, Seq<char>)
    decreases s.len(),
{
    if s.len() == 0 {
        (Seq::empty(), Seq::empty())
    } else {
        word_step(word_scan(s.drop_last()), s.last())
    }
}

/// The maximal runs of non-whitespace characters of `s`, in order
/// (what `str::split_whitespace` yields).
pub open spec fn words(s: Seq<char>) -> Seq<Seq<char>> {
    let st = word_scan(s);
    if st.1.len() > 0 {
        st.0.push(st.1)
    } else {
        st.0
    }
}

/// The first word of `s`, or the empty sequence when `s` has none.
pub open spec fn first_word_of(s: Seq<char>) -> Seq<char> {
    if words(s).len() > 0 {
        words(s)[0]
    } else {
        Seq::empty()
    }
}

/// The words of `s` after the first one.
pub open spec fn rest_words_of(s: Seq<char>) -> Seq<Seq<char>> {
    if words(s).len() > 0 {
        words(s).drop_first()
    } else {
        Seq::empty()
    }
}

/// A word: nonempty, with no whitespace in it.
pub open spec fn is_word(w: Seq<char>) -> bool {
    w.len() > 0 && forall|i: int| 0 <= i < w.len() ==> !is_ws(#[trigger] w[i])
}

/// The words joined by single spaces.
pub open spec fn join_spaced(ws: Seq<Seq<char>>) -> Seq<char>
    decreases ws.len(),
{
    if ws.len() == 0 {
        Seq::empty()
    } else if ws.len() == 1 {
        ws[0]
    } else {
        join_spaced(ws.drop_last()) + seq![' '] + ws.last()
    }
}

/// A word-list joined by spaces starts with the first word's first char.
pub proof fn lemma_join_spaced_first(ws: Seq<Seq<char>>)
    requires
        ws.len() > 0,
        ws[0].len() > 0,
    ensures
        join_spaced(ws).len() > 0,
        join_spaced(ws)[0] == ws[0][0],
    decreases ws.len(),
{
    if ws.len() > 1 {
        lemma_join_spaced_first(ws.drop_last());
    }
}

/// `s` with every leading `c` removed (what `str::trim_start_matches(c)` yields).
pub open spec fn trim_leading(s: Seq<char>, c: char) -> Seq<char>
    decreases s.len(),
{
    if s.len() > 0 && s[0] == c {
        trim_leading(s.drop_first(), c)
    } else {
        s
    }
}

/// `s` with the prefix `p` removed, repeatedly (what `str::trim_start_matches(p)` yields).
pub open spec fn trim_prefix_repeated(s: Seq<char>, p: Seq<char>) -> Seq<char>
    decreases s.len(),
{
    if p.len() > 0 && p.len() <= s.len() && s.subrange(0, p.len() as int) == p {
        trim_prefix_repeated(s.subrange(p.len() as int, s.len() as int), p)
    } else {
        s
    }
}

/// The spans of the words of `s`, by char index.
pub open spec fn spans_text(s: Seq<char>, spans: Seq<(usize, usize)>) -> Seq<Seq<char>> {
    spans.map_values(|p: (usize, usize)| s.subrange(p.0 as int, p.1 as int))
}

pub open spec fn spans_in_range(len: nat, spans: Seq<(usize, usize)>) -> bool {
    forall|k: int| 0 <= k < spans.len() ==> #[trigger] spans[k].0 <= spans[k].1 <= len
}

proof fn lemma_scan_words(s: Seq<char>)
    ensures
        forall|k: int| 0 <= k < word_scan(s).0.len() ==> is_word(#[trigger] word_scan(s).0[k]),
        forall|i: int| 0 <= i < word_scan(s).1.len() ==> !is_ws(#[trigger] word_scan(s).1[i]),
    decreases s.len(),
{
    if s.len() > 0 {
        lemma_scan_words(s.drop_last());
        let st = word_scan(s.drop_last());
        assert forall|k: int| 0 <= k < word_scan(s).0.len() implies is_word(
            #[trigger] word_scan(s).0[k],
        ) by {
            if k < st.0.len() {
                assert(word_scan(s).0[k] == st.0[k]);
            }
        }
        assert forall|i: int| 0 <= i < word_scan(s).1.len() implies !is_ws(
            #[trigger] word_scan(s).1[i],
        ) by {
            if !is_ws(s.last()) && i < st.1.len() {
                assert(word_scan(s).1[i] == st.1[i]);
            }
        }
    }
}

/// Every word of a text is nonempty and free of whitespace.
pub proof fn lemma_words_are_words(s: Seq<char>)
    ensures
        forall|k: int| 0 <= k < words(s).len() ==> is_word(#[trigger] words(s)[k]),
{
    lemma_scan_words(s);
    let st = word_scan(s);
    assert forall|k: int| 0 <= k < words(s).len() implies is_word(#[trigger] words(s)[k]) by {
        if k < st.0.len() {
            assert(words(s)[k] == st.0[k]);
        }
    }
}

/// Scanning a word that follows a finished state extends the open word by it.
proof fn lemma_scan_append_word(p: Seq<char>, w: Seq<char>)
    requires
        forall|i: int| 0 <= i < w.len() ==> !is_ws(#[trigger] w[i]),
    ensures
        word_scan(p + w) == (word_scan(p).0, word_scan(p).1 + w),
    decreases w.len(),
{
    if w.len() == 0 {
        assert(p + w =~= p);
        assert(word_scan(p).1 + w =~= word_scan(p).1);
    } else {
        let w0 = w.drop_last();
        assert((p + w).drop_last() =~= p + w0);
        assert((p + w).last() == w.last());
        lemma_scan_append_word(p, w0);
        assert(word_scan(p).1 + w0 + seq![w.last()] =~= word_scan(p).1 + w);
        assert((word_scan(p).1 + w0).push(w.last()) =~= word_scan(p).1 + w);
    }
}

/// Splitting words that were joined by single spaces gives the words back.
pub proof fn lemma_words_of_join(ws: Seq<Seq<char>>)
    requires
        forall|k: int| 0 <= k < ws.len() ==> is_word(#[trigger] ws[k]),
    ensures
        words(join_spaced(ws)) == ws,
        ws.len() > 0 ==> word_scan(join_spaced(ws)) == (ws.drop_last(), ws.last()),
    decreases ws.len(),
{
    if ws.len() == 0 {
        assert(words(join_spaced(ws)) =~= ws);
    } else if ws.len() == 1 {
        assert(is_word(ws[0]));
        lemma_scan_append_word(Seq::empty(), ws[0]);
        assert(Seq::<char>::empty() + ws[0] =~= ws[0]);
        assert(Seq::<char>::empty() + ws[0] =~= join_spaced(ws));
        assert(ws.drop_last() =~= Seq::<Seq<char>>::empty());
        assert(words(join_spaced(ws)) =~= ws);
    } else {
        let init = ws.drop_last();
        assert forall|k: int| 0 <= k < init.len() implies is_word(#[trigger] init[k]) by {
            assert(init[k] == ws[k]);
        }
        lemma_words_of_join(init);
        let j = join_spaced(init);
        let js = j + seq![' '];
        assert(js.drop_last() =~= j);
        assert(js.last() == ' ');
        assert(is_word(init.last()));
        assert(word_scan(js) == (init.drop_last().push(init.last()), Seq::<char>::empty()));
        assert(init.drop_last().push(init.last()) =~= init);
        assert(is_word(ws.last()));
        lemma_scan_append_word(js, ws.last());
        assert(Seq::<char>::empty() + ws.last() =~= ws.last());
        assert(join_spaced(ws) == js + ws.last());
        assert(words(join_spaced(ws)) =~= init.push(ws.last()));
        assert(init.push(ws.last()) =~= ws);
    }
}

/// The char-index spans of the words of `s`.
pub fn word_spans(s: &str) -> (r: Vec<(usize, usize)>)
    ensures
        spans_in_range(s@.len(), r@),
        spans_text(s@, r@) == words(s@),
{
    let ghost sv = s@;
    let n = s.unicode_len();
    let mut found: Vec<(usize, usize)> = Vec::new();
    let mut open: bool = false;
    let mut start: usize = 0;
    let mut i: usize = 0;
    for c in it: s.chars()
        invariant
            it.seq() == sv,
            n == sv.len(),
            i == it.index(),
            i <= sv.len(),
            start <= i,
            spans_in_range(sv.len(), found@),
            spans_text(sv, found@) == word_scan(sv.take(i as int)).0,
            open ==> sv.subrange(start as int, i as int) == word_scan(sv.take(i as int)).1,
            open ==> start < i,
            !open ==> word_scan(sv.take(i as int)).1.len() == 0,
    {
        assert(sv.take((i + 1) as int).drop_last() =~= sv.take(i as int));
        assert(sv.take((i + 1) as int).last() == c);
        let ws = is_whitespace(c);
        if ws {
            if open {
                let ghost old_found = found@;
                found.push((start, i));
                assert(spans_text(sv, found@) =~= spans_text(sv, old_found).push(
                    sv.subrange(start as int, i as int),
                ));
                open = false;
            }
        } else {
            if !open {
                open = true;
                start = i;
                assert(sv.subrange(start as int, (i + 1) as int) =~= seq![c]);
                assert(Seq::<char>::empty().push(c) =~= seq![c]);
            } else {
                assert(sv.subrange(start as int, (i + 1) as int) =~= sv.subrange(
                    start as int,
                    i as int,
                ).push(c));
            }
        }
        i = i + 1;
    }
    assert(sv.take(sv.len() as int) =~= sv);
    if open {
        let ghost old_found = found@;
        found.push((start, i));
        assert(spans_text(sv, found@) =~= spans_text(sv, old_found).push(
            sv.subrange(start as int, i as int),
        ));
    }
    found
}


/// The words of `s` as owned strings.
pub fn split_words(s: &str) -> (r: Vec<String>)
    ensures
        r@.map_values(|w: String| w@) == words(s@),
{
    let spans = word_spans(s);
    let mut out: Vec<String> = Vec::new();
    let mut k: usize = 0;
    while k < spans.len()
        invariant
            k <= spans@.len(),
            spans_in_range(s@.len(), spans@),
            spans_text(s@, spans@) == words(s@),
            out@.map_values(|w: String| w@) == spans_text(s@, spans@).take(k as int),
        decreases spans@.len() - k,
    {
        let (a, b) = spans[k];
        assert(spans@[k as int].0 <= spans@[k as int].1 <= s@.len());
        let w = String::from_str(s.substring_char(a, b));
        let ghost before = out@;
        out.push(w);
        assert(out@.map_values(|w: String| w@) =~= before.map_values(|w: String| w@).push(w@));
        assert(spans_text(s@, spans@).take((k + 1) as int) =~= spans_text(s@, spans@).take(
            k as int,
        ).push(spans_text(s@, spans@)[k as int]));
        k = k + 1;
    }
    assert(spans_text(s@, spans@).take(k as int) =~= spans_text(s@, spans@));
    out
}

/// The first word of `s` (borrowed from it), or the empty string when `s` has none.
pub fn first_word(s: &str) -> (r: &str)
    ensures
        r@ == first_word_of(s@),
{
    let spans = word_spans(s);
    if spans.len() > 0 {
        let (a, b) = spans[0];
        assert(spans@[0].0 <= spans@[0].1 <= s@.len());
        assert(spans_text(s@, spans@)[0] == s@.subrange(a as int, b as int));
        s.substring_char(a, b)
    } else {
        let e = s.substring_char(0, 0);
        assert(e@ =~= Seq::<char>::empty());
        e
    }
}

/// Whether `s` starts with the char `c`.
pub fn starts_with_char(s: &str, c: char) -> (r: bool)
    ensures
        r == (s@.len() > 0 && s@[0] == c),
{
    let n = s.unicode_len();
    n > 0 && s.get_char(0) == c
}

/// `s` without its first `k` chars.
pub fn skip_chars(s: &str, k: usize) -> (r: &str)
    requires
        k <= s@.len(),
    ensures
        r@ == s@.subrange(k as int, s@.len() as int),
{
    let n = s.unicode_len();
    s.substring_char(k, n)
}

/// `s` with every leading `c` removed.
pub fn trim_start_char(s: &str, c: char) -> (r: &str)
    ensures
        r@ == trim_leading(s@, c),
{
    let n = s.unicode_len();
    let mut i: usize = 0;
    assert(s@.subrange(0, n as int) =~= s@);
    while i < n && s.get_char(i) == c
        invariant
            n == s@.len(),
            i <= n,
            trim_leading(s@, c) == trim_leading(s@.subrange(i as int, n as int), c),
        decreases n - i,
    {
        let ghost t = s@.subrange(i as int, n as int);
        assert(t.drop_first() =~= s@.subrange((i + 1) as int, n as int));
        i = i + 1;
    }
    s.substring_char(i, n)
}

/// `s` with every leading copy of `p` removed, as `str::trim_start_matches`
/// does with a text pattern.
pub fn trim_prefix_str<'a>(s: &'a str, p: &str) -> (r: &'a str)
    ensures
        r@ == trim_prefix_repeated(s@, p@),
{
    let plen = p.unicode_len();
    if plen == 0 {
        return s;
    }
    let mut rest = s;
    loop
        invariant
            plen as nat == p@.len(),
            plen > 0,
            trim_prefix_repeated(rest@, p@) == trim_prefix_repeated(s@, p@),
        decreases rest@.len(),
    {
        let n = rest.unicode_len();
        if plen <= n {
            let head = rest.substring_char(0, plen);
            if str_eq(head, p) {
                rest = rest.substring_char(plen, n);
                continue;
            }
        }
        return rest;
    }
}

/// Char-wise equality of two strings.
pub fn str_eq(a: &str, b: &str) -> (r: bool)
    ensures
        r == (a@ == b@),
{
    let x = String::from_str(a);
    let y = String::from_str(b);
    x == y
}

/// The strings joined by single spaces.
pub fn join_with_spaces(parts: &[&str]) -> (r: String)
    ensures
        r@ == join_spaced(parts@.map_values(|p: &str| p@)),
{
    let ghost pv = parts@.map_values(|p: &str| p@);
    let mut out = String::new();
    let mut k: usize = 0;
    while k < parts.len()
        invariant
            k <= parts@.len(),
            pv == parts@.map_values(|p: &str| p@),
            out@ == join_spaced(pv.take(k as int)),
        decreases parts@.len() - k,
    {
        if k > 0 {
            out.append(" ");
        }
        out.append(parts[k]);
        proof {
            let t = pv.take((k + 1) as int);
            assert(t.drop_last() =~= pv.take(k as int));
            assert(t.last() == parts@[k as int]@);
            if k == 0 {
                assert(pv.take(0) =~= Seq::<Seq<char>>::empty());
                assert(out@ =~= t[0]);
            } else {
                reveal_strlit(" ");
                assert(out@ =~= join_spaced(pv.take(k as int)) + seq![' '] + t.last());
            }
        }
        k = k + 1;
    }
    assert(pv.take(k as int) =~= pv);
    out
}

/// The decimal digit `d` as a char.
pub open spec fn digit_char(d: nat) -> char {
    if d == 0 { '0' }
    else if d == 1 { '1' }
    else if d == 2 { '2' }
    else if d == 3 { '3' }
    else if d == 4 { '4' }
    else if d == 5 { '5' }
    else if d == 6 { '6' }
    else if d == 7 { '7' }
    else if d == 8 { '8' }
    else if d == 9 { '9' }
    else if d == 10 { 'a' }
    else if d == 11 { 'b' }
    else if d == 12 { 'c' }
    else if d == 13 { 'd' }
    else if d == 14 { 'e' }
    else { 'f' }
}

/// The decimal representation of `n`, without leading zeros.
pub open spec fn decimal(n: nat) -> Seq<char>
    decreases n,
{
    if n < 10 {
        seq![digit_char(n)]
    } else {
        decimal(n / 10).push(digit_char(n % 10))
    }
}

/// The last `k` lowercase hexadecimal digits of `n`, zero-padded.
pub open spec fn hex_digits(n: nat, k: nat) -> Seq<char>
    decreases k,
{
    if k == 0 {
        Seq::empty()
    } else {
        hex_digits(n / 16, (k - 1) as nat).push(digit_char(n % 16))
    }
}

fn digit_str(d: u32) -> (r: &'static str)
    requires
        d < 16,
    ensures
        r@ == seq![digit_char(d as nat)],
{
    proof {
        reveal_strlit("0");
        reveal_strlit("1");
        reveal_strlit("2");
        reveal_strlit("3");
        reveal_strlit("4");
        reveal_strlit("5");
        reveal_strlit("6");
        reveal_strlit("7");
        reveal_strlit("8");
        reveal_strlit("9");
        reveal_strlit("a");
        reveal_strlit("b");
        reveal_strlit("c");
        reveal_strlit("d");
        reveal_strlit("e");
        reveal_strlit("f");
    }
    if d == 0 { "0" }
    else if d == 1 { "1" }
    else if d == 2 { "2" }
    else if d == 3 { "3" }
    else if d == 4 { "4" }
    else if d == 5 { "5" }
    else if d == 6 { "6" }
    else if d == 7 { "7" }
    else if d == 8 { "8" }
    else if d == 9 { "9" }
    else if d == 10 { "a" }
    else if d == 11 { "b" }
    else if d == 12 { "c" }
    else if d == 13 { "d" }
    else if d == 14 { "e" }
    else { "f" }
}

/// The decimal representation of `n`.
pub fn decimal_string(n: u64) -> (r: String)
    ensures
        r@ == decimal(n as nat),
    decreases n,
{
    if n < 10 {
        String::from_str(digit_str(n as u32))
    } else {
        let mut s = decimal_string(n / 10);
        s.append(digit_str((n % 10) as u32));
        s
    }
}

/// The last `k` hexadecimal digits of `n`, lowercase and zero-padded.
pub fn hex_string(n: u128, k: u32) -> (r: String)
    ensures
        r@ == hex_digits(n as nat, k as nat),
    decreases k,
{
    if k == 0 {
        String::new()
    } else {
        let mut s = hex_string(n / 16, k - 1);
        let d = (n % 16) as u32;
        s.append(digit_str(d));
        s
    }
}


/// The lowercase form of a text under Unicode's lowercase mapping, as
/// `str::to_lowercase` computes it.
pub uninterp spec fn lowercase(s: Seq<char>) -> Seq<char>;

/// `str::to_lowercase`: the result is the lowercase mapping of the text,
/// a function of the text alone. What that mapping is char by char is left
/// to Unicode and not stated here.
#[verifier::external_body]
pub(crate) fn lowercase_string(s: &str) -> (r: String)
    ensures
        r@ == lowercase(s@),
{
    s.to_lowercase()
}

/// `needle` occurs in `hay` as a contiguous run.
pub open spec fn contains_seq(hay: Seq<char>, needle: Seq<char>) -> bool {
    exists|i: int|
        0 <= i && i + needle.len() <= hay.len() && #[trigger] hay.subrange(i, i + needle.len())
            == needle
}

/// The chars of a string.
pub fn chars_of(s: &str) -> (r: Vec<char>)
    ensures
        r@ == s@,
{
    let ghost sv = s@;
    let mut out: Vec<char> = Vec::new();
    for c in it: s.chars()
        invariant
            it.seq() == sv,
            out@ == sv.take(it.index() as int),
    {
        assert(sv.take(it.index() + 1) =~= sv.take(it.index() as int).push(c));
        out.push(c);
    }
    assert(sv.take(sv.len() as int) =~= sv);
    out
}

fn occurs_at(hay: &Vec<char>, needle: &Vec<char>, i: usize) -> (r: bool)
    requires
        i + needle@.len() <= hay@.len(),
    ensures
        r == (hay@.subrange(i as int, i + needle@.len()) == needle@),
{
    let hl = hay.len();
    let mut k: usize = 0;
    while k < needle.len()
        invariant
            hl == hay@.len(),
            i + needle@.len() <= hay@.len(),
            k <= needle@.len(),
            forall|j: int| 0 <= j < k ==> hay@[i + j] == needle@[j],
        decreases needle@.len() - k,
    {
        if hay[i + k] != needle[k] {
            assert(hay@.subrange(i as int, i + needle@.len())[k as int] != needle@[k as int]);
            return false;
        }
        k = k + 1;
    }
    assert(hay@.subrange(i as int, i + needle@.len()) =~= needle@);
    true
}

/// Whether `needle` occurs in `hay`.
pub fn str_contains(hay: &str, needle: &str) -> (r: bool)
    ensures
        r == contains_seq(hay@, needle@),
{
    let h = chars_of(hay);
    let n = chars_of(needle);
    if n.len() > h.len() {
        return false;
    }
    let last = h.len() - n.len();
    let mut i: usize = 0;
    loop
        invariant
            h@ == hay@,
            n@ == needle@,
            last == h@.len() - n@.len(),
            n@.len() <= h@.len(),
            i <= last,
            forall|j: int| 0 <= j < i ==> #[trigger] h@.subrange(j, j + n@.len()) != n@,
        decreases last - i,
    {
        if occurs_at(&h, &n, i) {
            return true;
        }
        if i == last {
            return false;
        }
        i = i + 1;
    }
}


/// `String::push`: appends the char at the end.
#[verifier::external_body]
pub(crate) fn push_char(s: &mut String, c: char)
    ensures
        final(s)@ == old(s)@.push(c),
{
    s.push(c)
}

/// `String::pop`: removes the last char, if any (the removed char is not returned here).
#[verifier::external_body]
pub(crate) fn pop_char(s: &mut String)
    ensures
        final(s)@ == if old(s)@.len() > 0 {
            old(s)@.drop_last()
        } else {
            old(s)@
        },
{
    s.pop();
}

/// The width in terminal cells of a text, as the `unicode-width` crate
/// measures it (Unicode Standard Annex #11, ambiguous characters one cell
/// wide). It depends on the text alone.
pub uninterp spec fn display_width(s: Seq<char>) -> nat;

/// `unicode_width::UnicodeWidthStr::width`: the text's width in terminal
/// cells. The contract names the result and states nothing of the width
/// tables themselves.
#[verifier::external_body]
pub(crate) fn text_width(s: &str) -> (r: usize)
    ensures
        r as nat == display_width(s@),
{
    unicode_width::UnicodeWidthStr::width(s)
}

} // verus!
