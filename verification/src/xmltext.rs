//! XML text building blocks: escaping, decimal rendering, and writers for
//! elements and attributes, each with an exact contract over `Seq<char>`.

use vstd::prelude::*;
use vstd::string::StrSliceExecFns;
use vstd::string::StringExecFns;

verus! {

/// Relies on `String::push` from std: appends the one character to the string.
pub assume_specification[ String::push ](s: &mut String, c: char)
    ensures
        final(s)@ == old(s)@.push(c),
;

/// What one character escapes to in XML text and attribute values.
pub open spec fn esc_char(c: char) -> Seq<char> {
    if c == '&' {
        "&amp;"@
    } else if c == '<' {
        "&lt;"@
    } else if c == '>' {
        "&gt;"@
    } else if c == '"' {
        "&quot;"@
    } else if c == '\'' {
        "&apos;"@
    } else {
        seq![c]
    }
}

/// XML-escaped form of a string: every character replaced by its escape.
pub open spec fn esc(s: Seq<char>) -> Seq<char>
    decreases s.len(),
{
    if s.len() == 0 {
        Seq::empty()
    } else {
        esc(s.drop_last()) + esc_char(s.last())
    }
}

/// Escapes `&`, `<`, `>`, `"` and `'` for use in XML text or attribute values.
pub fn escape_str(s: &str) -> (r: String)
    ensures
        r@ == esc(s@),
{
    let len = s.unicode_len();
    let mut r = String::new();
    let mut i: usize = 0;
    while i < len
        invariant
            len == s@.len(),
            i <= len,
            r@ == esc(s@.take(i as int)),
        decreases len - i,
    {
        let c = s.get_char(i);
        if c == '&' {
            r.append("&amp;");
        } else if c == '<' {
            r.append("&lt;");
        } else if c == '>' {
            r.append("&gt;");
        } else if c == '"' {
            r.append("&quot;");
        } else if c == '\'' {
            r.append("&apos;");
        } else {
            r.push(c);
        }
        proof {
            assert(s@.take(i + 1).drop_last() =~= s@.take(i as int));
            assert(s@.take(i + 1).last() == s@[i as int]);
            assert(r@ =~= esc(s@.take(i as int)) + esc_char(s@[i as int]));
        }
        i = i + 1;
    }
    proof {
        assert(s@.take(len as int) =~= s@);
    }
    r
}

/// The decimal digit character for a value below ten.
pub open spec fn spec_digit(d: nat) -> char {
    if d == 0 {
        '0'
    } else if d == 1 {
        '1'
    } else if d == 2 {
        '2'
    } else if d == 3 {
        '3'
    } else if d == 4 {
        '4'
    } else if d == 5 {
        '5'
    } else if d == 6 {
        '6'
    } else if d == 7 {
        '7'
    } else if d == 8 {
        '8'
    } else {
        '9'
    }
}

/// Decimal rendering of a number, without leading zeros.
pub open spec fn spec_dec(n: nat) -> Seq<char>
    decreases n,
{
    if n < 10 {
        seq![spec_digit(n)]
    } else {
        spec_dec(n / 10) + seq![spec_digit(n % 10)]
    }
}

/// Two decimal digits, zero-padded.
pub open spec fn spec_pad2(n: nat) -> Seq<char> {
    seq![spec_digit(n / 10 % 10), spec_digit(n % 10)]
}

/// Four decimal digits, zero-padded.
pub open spec fn spec_pad4(n: nat) -> Seq<char> {
    seq![
        spec_digit(n / 1000 % 10),
        spec_digit(n / 100 % 10),
        spec_digit(n / 10 % 10),
        spec_digit(n % 10),
    ]
}

fn digit_char(d: u64) -> (c: char)
    requires
        d < 10,
    ensures
        c == spec_digit(d as nat),
{
    if d == 0 {
        '0'
    } else if d == 1 {
        '1'
    } else if d == 2 {
        '2'
    } else if d == 3 {
        '3'
    } else if d == 4 {
        '4'
    } else if d == 5 {
        '5'
    } else if d == 6 {
        '6'
    } else if d == 7 {
        '7'
    } else if d == 8 {
        '8'
    } else {
        '9'
    }
}

/// Renders a number in decimal, without leading zeros.
pub fn u64_to_dec(n: u64) -> (r: String)
    ensures
        r@ == spec_dec(n as nat),
    decreases n,
{
    if n < 10 {
        let mut r = String::new();
        r.push(digit_char(n));
        proof {
            assert(r@ =~= spec_dec(n as nat));
        }
        r
    } else {
        let mut r = u64_to_dec(n / 10);
        r.push(digit_char(n % 10));
        proof {
            assert(r@ =~= spec_dec((n / 10) as nat) + seq![spec_digit((n % 10) as nat)]);
        }
        r
    }
}

/// Appends a number to `out`, zero-padded to two digits.
pub fn push_pad2(out: &mut String, n: u64)
    requires
        n < 100,
    ensures
        final(out)@ == old(out)@ + spec_pad2(n as nat),
{
    out.push(digit_char(n / 10));
    out.push(digit_char(n % 10));
    proof {
        assert(out@ =~= old(out)@ + spec_pad2(n as nat));
    }
}

/// Appends a number to `out`, zero-padded to four digits.
pub fn push_pad4(out: &mut String, n: u64)
    requires
        n < 10000,
    ensures
        final(out)@ == old(out)@ + spec_pad4(n as nat),
{
    out.push(digit_char(n / 1000));
    out.push(digit_char(n / 100 % 10));
    out.push(digit_char(n / 10 % 10));
    out.push(digit_char(n % 10));
    proof {
        assert(out@ =~= old(out)@ + spec_pad4(n as nat));
    }
}

/// `<tag>` as written at the start of an element.
pub open spec fn open_tag(tag: Seq<char>) -> Seq<char> {
    "<"@ + tag + ">"@
}

/// `</tag>` as written at the end of an element.
pub open spec fn close_tag(tag: Seq<char>) -> Seq<char> {
    "</"@ + tag + ">"@
}

/// An element holding escaped text content.
pub open spec fn text_elem(tag: Seq<char>, text: Seq<char>) -> Seq<char> {
    open_tag(tag) + esc(text) + close_tag(tag)
}

/// An optional element: absent fields leave no trace in the output.
pub open spec fn opt_text_elem(tag: Seq<char>, text: Option<Seq<char>>) -> Seq<char> {
    match text {
        Some(t) => text_elem(tag, t),
        None => Seq::empty(),
    }
}

/// An attribute ` name="value"` with the value escaped.
pub open spec fn attr(name: Seq<char>, value: Seq<char>) -> Seq<char> {
    " "@ + name + "=\""@ + esc(value) + "\""@
}

/// An attribute ` name="digits"` holding a decimal number.
pub open spec fn num_attr(name: Seq<char>, n: nat) -> Seq<char> {
    " "@ + name + "=\""@ + spec_dec(n) + "\""@
}

/// An element `<tag>digits</tag>` holding a decimal number.
pub open spec fn num_elem(tag: Seq<char>, n: nat) -> Seq<char> {
    open_tag(tag) + spec_dec(n) + close_tag(tag)
}

/// The view of an optional string, for stating contracts.
pub open spec fn view_opt(o: Option<String>) -> Option<Seq<char>> {
    match o {
        Some(s) => Some(s@),
        None => None,
    }
}

/// Appends `<tag>escaped text</tag>` to `out`.
pub fn write_text_elem(out: &mut String, tag: &str, text: &str)
    ensures
        final(out)@ == old(out)@ + text_elem(tag@, text@),
{
    out.append("<");
    out.append(tag);
    out.append(">");
    let e = escape_str(text);
    out.append(e.as_str());
    out.append("</");
    out.append(tag);
    out.append(">");
    proof {
        assert(out@ =~= old(out)@ + text_elem(tag@, text@));
    }
}

/// Appends the element when the text is present, nothing when it is absent.
pub fn write_opt_text_elem(out: &mut String, tag: &str, text: &Option<String>)
    ensures
        final(out)@ == old(out)@ + opt_text_elem(tag@, view_opt(*text)),
{
    match text {
        Some(t) => write_text_elem(out, tag, t.as_str()),
        None => (),
    }
}

/// Whether the needle occurs in the hay starting at position `i`.
pub open spec fn match_at(hay: Seq<char>, needle: Seq<char>, i: int) -> bool {
    &&& 0 <= i
    &&& i + needle.len() <= hay.len()
    &&& hay.subrange(i, i + needle.len()) == needle
}

/// At how many positions of the hay the needle occurs.
pub open spec fn occurrences(hay: Seq<char>, needle: Seq<char>) -> nat
    decreases hay.len(),
{
    if needle.len() == 0 || hay.len() < needle.len() {
        0
    } else {
        (if match_at(hay, needle, 0) {
            1nat
        } else {
            0nat
        }) + occurrences(hay.skip(1), needle)
    }
}

proof fn lemma_match_at_skip(hay: Seq<char>, needle: Seq<char>, i: int)
    requires
        needle.len() > 0,
        hay.len() >= 1,
        0 <= i,
    ensures
        match_at(hay.skip(1), needle, i) == match_at(hay, needle, i + 1),
{
    if i + needle.len() <= hay.len() - 1 {
        assert(hay.skip(1).subrange(i, i + needle.len() as int) =~= hay.subrange(
            i + 1,
            i + 1 + needle.len() as int,
        ));
    }
}

/// Occurrence counting agrees with matching: a needle that matches nowhere
/// occurs zero times.
pub proof fn lemma_occurrences_none(hay: Seq<char>, needle: Seq<char>)
    requires
        needle.len() > 0,
        forall|i: int| !match_at(hay, needle, i),
    ensures
        occurrences(hay, needle) == 0,
    decreases hay.len(),
{
    if hay.len() >= needle.len() {
        assert forall|i: int| !match_at(hay.skip(1), needle, i) by {
            if i >= 0 {
                lemma_match_at_skip(hay, needle, i);
            }
        }
        lemma_occurrences_none(hay.skip(1), needle);
    }
}

/// Occurrence counting agrees with a unique match position: a needle that
/// matches at exactly one position occurs exactly once.
pub proof fn lemma_occurrences_single(hay: Seq<char>, needle: Seq<char>, p: int)
    requires
        needle.len() > 0,
        match_at(hay, needle, p),
        forall|i: int| i != p ==> !match_at(hay, needle, i),
    ensures
        occurrences(hay, needle) == 1,
    decreases hay.len(),
{
    if p == 0 {
        assert forall|i: int| !match_at(hay.skip(1), needle, i) by {
            if i >= 0 {
                lemma_match_at_skip(hay, needle, i);
            }
        }
        lemma_occurrences_none(hay.skip(1), needle);
    } else {
        assert(!match_at(hay, needle, 0));
        assert forall|i: int| i != p - 1 implies !match_at(hay.skip(1), needle, i) by {
            if i >= 0 {
                lemma_match_at_skip(hay, needle, i);
            }
        }
        lemma_match_at_skip(hay, needle, p - 1);
        lemma_occurrences_single(hay.skip(1), needle, p - 1);
    }
}

proof fn lemma_esc_char_no_markup(c: char)
    ensures
        forall|k: int|
            0 <= k < esc_char(c).len() ==> esc_char(c)[k] != '<' && esc_char(c)[k] != '"',
{
    reveal_strlit("&amp;");
    reveal_strlit("&lt;");
    reveal_strlit("&gt;");
    reveal_strlit("&quot;");
    reveal_strlit("&apos;");
}

/// Escaped text holds no raw `<` and no raw `"`: markup can only come from
/// the serializer itself, never from field values.
pub proof fn lemma_esc_no_markup(s: Seq<char>)
    ensures
        forall|k: int| 0 <= k < esc(s).len() ==> esc(s)[k] != '<' && esc(s)[k] != '"',
    decreases s.len(),
{
    if s.len() > 0 {
        lemma_esc_no_markup(s.drop_last());
        lemma_esc_char_no_markup(s.last());
        let head = esc(s.drop_last());
        let tail = esc_char(s.last());
        assert forall|k: int| 0 <= k < esc(s).len() implies esc(s)[k] != '<' && esc(s)[k]
            != '"' by {
            if k < head.len() {
                assert(esc(s)[k] == head[k]);
            } else {
                assert(esc(s)[k] == tail[k - head.len()]);
            }
        }
    }
}

/// A needle that holds `>` nowhere before its last character, as every
/// opening tag does.
pub open spec fn interior_no_gt(needle: Seq<char>) -> bool {
    forall|k: int| 0 <= k < needle.len() - 1 ==> #[trigger] needle[k] != '>'
}

/// Two tag names that differ at some shared position, so that neither's
/// opening tag can begin the other's element.
pub open spec fn tags_differ(t1: Seq<char>, t2: Seq<char>) -> bool {
    exists|j: int| 0 <= j < t1.len() && j < t2.len() && #[trigger] t1[j] != #[trigger] t2[j]
}

/// Occurrences distribute over concatenation at an element boundary: with
/// the left part ending in `>` and the needle holding `>` only at its end,
/// no match can straddle the boundary.
pub proof fn lemma_occurrences_concat(a: Seq<char>, b: Seq<char>, needle: Seq<char>)
    requires
        needle.len() > 0,
        interior_no_gt(needle),
        a.len() == 0 || a.last() == '>',
    ensures
        occurrences(a + b, needle) == occurrences(a, needle) + occurrences(b, needle),
    decreases a.len(),
{
    let ab = a + b;
    if a.len() == 0 {
        assert(ab =~= b);
    } else if ab.len() < needle.len() {
        assert(occurrences(ab, needle) == 0);
        assert(occurrences(a, needle) == 0);
        assert(occurrences(b, needle) == 0);
    } else {
        if a.len() >= needle.len() {
            assert(ab.subrange(0, needle.len() as int) =~= a.subrange(0, needle.len() as int));
            assert(match_at(ab, needle, 0) == match_at(a, needle, 0));
        } else {
            if match_at(ab, needle, 0) {
                assert(ab.subrange(0, needle.len() as int)[a.len() - 1] == ab[a.len() - 1]);
                assert(needle[a.len() - 1] == a.last());
                assert(false);
            }
            assert(occurrences(a, needle) == 0);
            assert(occurrences(a.skip(1), needle) == 0);
        }
        assert(ab.skip(1) =~= a.skip(1) + b);
        if a.len() > 1 {
            assert(a.skip(1).last() == a.last());
        }
        lemma_occurrences_concat(a.skip(1), b, needle);
    }
}

/// A string that is empty or ends in `>`, as every serialized element does.
pub open spec fn gt_terminated(s: Seq<char>) -> bool {
    s.len() == 0 || s.last() == '>'
}

/// Concatenation preserves ending in `>`.
pub proof fn lemma_gt_terminated_concat(a: Seq<char>, b: Seq<char>)
    requires
        gt_terminated(a),
        gt_terminated(b),
    ensures
        gt_terminated(a + b),
{
    if b.len() > 0 {
        assert((a + b).last() == b.last());
    } else {
        assert(a + b =~= a);
    }
}

/// An optional element's fragment is empty or ends in `>`.
pub proof fn lemma_opt_text_elem_gt(tag: Seq<char>, o: Option<Seq<char>>)
    ensures
        gt_terminated(opt_text_elem(tag, o)),
{
    reveal_strlit(">");
    match o {
        Some(t) => {
            assert(close_tag(tag).last() == '>');
            assert(text_elem(tag, t).last() == close_tag(tag).last());
        },
        None => (),
    }
}

/// An element carries no opening tag of another name: in `<tag2>text</tag2>`
/// a differing tag's opening tag occurs nowhere, whatever the text.
pub proof fn lemma_other_tag_no_element(tag1: Seq<char>, tag2: Seq<char>, t: Seq<char>)
    requires
        tag_wf(tag1),
        tag_wf(tag2),
        tags_differ(tag1, tag2),
    ensures
        occurrences(text_elem(tag2, t), open_tag(tag1)) == 0,
{
    let hay = text_elem(tag2, t);
    let needle = open_tag(tag1);
    reveal_strlit("<");
    reveal_strlit(">");
    reveal_strlit("</");
    lemma_esc_no_markup(t);
    let n = tag2.len() as int;
    let e = esc(t).len() as int;
    let j = choose|j: int| 0 <= j < tag1.len() && j < tag2.len() && tag1[j] != tag2[j];
    assert(needle.len() == tag1.len() + 2);
    assert(hay.len() == (n + 2) + e + (n + 3));
    assert(needle[0] == '<');
    assert(hay[0] == '<');
    assert forall|k: int| 1 <= k <= n implies hay[k] == tag2[k - 1] by {}
    assert(hay[n + 1] == '>');
    assert forall|k: int| n + 2 <= k < n + 2 + e implies hay[k] == esc(t)[k - n - 2] by {}
    assert(hay[n + 2 + e] == '<');
    assert(hay[n + 3 + e] == '/');
    assert forall|k: int| n + 4 + e <= k < 2 * n + 4 + e implies hay[k] == tag2[k - n - 4 - e] by {}
    assert(hay[2 * n + 4 + e] == '>');
    assert forall|i: int| !match_at(hay, needle, i) by {
        if 0 <= i && i + needle.len() <= hay.len() {
            if hay.subrange(i, i + needle.len() as int) == needle {
                assert(hay[i] == needle[0]);
                if i == 0 {
                    assert(hay[j + 1] == needle[j + 1]);
                    assert(hay[j + 1] == tag2[j]);
                    assert(needle[j + 1] == tag1[j]);
                    assert(false);
                } else if i == n + 2 + e {
                    assert(hay[i + 1] == needle[1]);
                    assert(hay[i + 1] == '/');
                    assert(needle[1] == tag1[0]);
                    assert(false);
                } else {
                    assert(hay[i] != '<');
                    assert(false);
                }
            }
        }
    }
    lemma_occurrences_none(hay, needle);
}

/// Neither the opening nor the closing tag of one name contains the opening
/// tag of a differing name.
pub proof fn lemma_frame_no_foreign_tag(tag1: Seq<char>, tag2: Seq<char>)
    requires
        tag_wf(tag1),
        tag_wf(tag2),
        tags_differ(tag1, tag2),
    ensures
        occurrences(open_tag(tag2), open_tag(tag1)) == 0,
        occurrences(close_tag(tag2), open_tag(tag1)) == 0,
{
    reveal_strlit("<");
    reveal_strlit(">");
    reveal_strlit("</");
    let needle = open_tag(tag1);
    let j = choose|j: int| 0 <= j < tag1.len() && j < tag2.len() && tag1[j] != tag2[j];
    assert(needle[0] == '<');
    assert(needle[1] == tag1[0]);
    assert(needle[j + 1] == tag1[j]);
    let open = open_tag(tag2);
    let n = tag2.len() as int;
    assert(open[0] == '<');
    assert forall|k: int| 1 <= k <= n implies open[k] == tag2[k - 1] by {}
    assert(open[n + 1] == '>');
    assert forall|i: int| !match_at(open, needle, i) by {
        if 0 <= i && i + needle.len() <= open.len() {
            if open.subrange(i, i + needle.len() as int) == needle {
                assert(open[i] == needle[0]);
                if i == 0 {
                    assert(open[j + 1] == needle[j + 1]);
                    assert(open[j + 1] == tag2[j]);
                    assert(false);
                } else {
                    assert(open[i] != '<');
                    assert(false);
                }
            }
        }
    }
    lemma_occurrences_none(open, needle);
    let close = close_tag(tag2);
    assert(close[0] == '<');
    assert(close[1] == '/');
    assert forall|k: int| 2 <= k <= n + 1 implies close[k] == tag2[k - 2] by {}
    assert(close[n + 2] == '>');
    assert forall|i: int| !match_at(close, needle, i) by {
        if 0 <= i && i + needle.len() <= close.len() {
            if close.subrange(i, i + needle.len() as int) == needle {
                assert(close[i] == needle[0]);
                if i == 0 {
                    assert(close[1] == needle[1]);
                    assert(false);
                } else {
                    assert(close[i] != '<');
                    assert(false);
                }
            }
        }
    }
    lemma_occurrences_none(close, needle);
}

/// A frame's own opening tag occurs once in it, and not at all in its
/// closing tag.
pub proof fn lemma_frame_own_tag(tag: Seq<char>)
    requires
        tag_wf(tag),
    ensures
        occurrences(open_tag(tag), open_tag(tag)) == 1,
        occurrences(close_tag(tag), open_tag(tag)) == 0,
{
    reveal_strlit("<");
    reveal_strlit(">");
    reveal_strlit("</");
    let needle = open_tag(tag);
    let n = tag.len() as int;
    assert(needle[0] == '<');
    assert(needle[1] == tag[0]);
    assert forall|k: int| 1 <= k <= n implies needle[k] == tag[k - 1] by {}
    assert(needle[n + 1] == '>');
    assert(needle.subrange(0, needle.len() as int) =~= needle);
    assert(match_at(needle, needle, 0));
    assert forall|i: int| i != 0 implies !match_at(needle, needle, i) by {
        if 0 <= i && i + needle.len() <= needle.len() {
            assert(i == 0);
        }
    }
    lemma_occurrences_single(needle, needle, 0);
    let close = close_tag(tag);
    assert(close[0] == '<');
    assert(close[1] == '/');
    assert forall|k: int| 2 <= k <= n + 1 implies close[k] == tag[k - 2] by {}
    assert(close[n + 2] == '>');
    assert forall|i: int| !match_at(close, needle, i) by {
        if 0 <= i && i + needle.len() <= close.len() {
            if close.subrange(i, i + needle.len() as int) == needle {
                assert(close[i] == needle[0]);
                if i == 0 {
                    assert(close[1] == needle[1]);
                    assert(false);
                } else {
                    assert(close[i] != '<');
                    assert(false);
                }
            }
        }
    }
    lemma_occurrences_none(close, needle);
}

/// A numeric element of one name holds exactly one occurrence of its own
/// opening tag: digits bring no markup of their own.
pub proof fn lemma_num_elem_own_tag(tag: Seq<char>, n: nat)
    requires
        tag_wf(tag),
    ensures
        occurrences(num_elem(tag, n), open_tag(tag)) == 1,
{
    let hay = num_elem(tag, n);
    let needle = open_tag(tag);
    reveal_strlit("<");
    reveal_strlit(">");
    reveal_strlit("</");
    lemma_dec_digits(n);
    let tn = tag.len() as int;
    let d = spec_dec(n).len() as int;
    assert(hay.subrange(0, tn + 2) =~= needle);
    assert(match_at(hay, needle, 0));
    assert(hay[0] == '<');
    assert forall|k: int| 1 <= k <= tn implies hay[k] == tag[k - 1] by {}
    assert(hay[tn + 1] == '>');
    assert forall|k: int| tn + 2 <= k < tn + 2 + d implies hay[k] == spec_dec(n)[k - tn - 2] by {}
    assert(hay[tn + 2 + d] == '<');
    assert(hay[tn + 3 + d] == '/');
    assert forall|k: int| tn + 4 + d <= k < 2 * tn + 4 + d implies hay[k] == tag[k - tn - 4
        - d] by {}
    assert(hay[2 * tn + 4 + d] == '>');
    assert forall|i: int| i != 0 implies !match_at(hay, needle, i) by {
        if 0 <= i && i + needle.len() <= hay.len() {
            if hay.subrange(i, i + needle.len() as int) == needle {
                assert(hay[i] == needle[0]);
                if i == tn + 2 + d {
                    assert(hay[i + 1] == needle[1]);
                    assert(hay[i + 1] == '/');
                    assert(needle[1] == tag[0]);
                    assert(false);
                } else if i != 0 {
                    assert(hay[i] != '<');
                    assert(false);
                }
            }
        }
    }
    lemma_occurrences_single(hay, needle, 0);
}

/// A numeric element carries no opening tag of another name.
pub proof fn lemma_num_elem_no_foreign_tag(tag1: Seq<char>, tag2: Seq<char>, n: nat)
    requires
        tag_wf(tag1),
        tag_wf(tag2),
        tags_differ(tag1, tag2),
    ensures
        occurrences(num_elem(tag2, n), open_tag(tag1)) == 0,
{
    let hay = num_elem(tag2, n);
    let needle = open_tag(tag1);
    reveal_strlit("<");
    reveal_strlit(">");
    reveal_strlit("</");
    lemma_dec_digits(n);
    let j = choose|j: int| 0 <= j < tag1.len() && j < tag2.len() && tag1[j] != tag2[j];
    let tn = tag2.len() as int;
    let d = spec_dec(n).len() as int;
    assert(needle[0] == '<');
    assert(needle[1] == tag1[0]);
    assert(needle[j + 1] == tag1[j]);
    assert(hay[0] == '<');
    assert forall|k: int| 1 <= k <= tn implies hay[k] == tag2[k - 1] by {}
    assert(hay[tn + 1] == '>');
    assert forall|k: int| tn + 2 <= k < tn + 2 + d implies hay[k] == spec_dec(n)[k - tn - 2] by {}
    assert(hay[tn + 2 + d] == '<');
    assert(hay[tn + 3 + d] == '/');
    assert forall|k: int| tn + 4 + d <= k < 2 * tn + 4 + d implies hay[k] == tag2[k - tn - 4
        - d] by {}
    assert(hay[2 * tn + 4 + d] == '>');
    assert forall|i: int| !match_at(hay, needle, i) by {
        if 0 <= i && i + needle.len() <= hay.len() {
            if hay.subrange(i, i + needle.len() as int) == needle {
                assert(hay[i] == needle[0]);
                if i == 0 {
                    assert(hay[j + 1] == needle[j + 1]);
                    assert(hay[j + 1] == tag2[j]);
                    assert(false);
                } else if i == tn + 2 + d {
                    assert(hay[i + 1] == needle[1]);
                    assert(hay[i + 1] == '/');
                    assert(false);
                } else {
                    assert(hay[i] != '<');
                    assert(false);
                }
            }
        }
    }
    lemma_occurrences_none(hay, needle);
}

/// The optional form of the law above: an absent field gives an empty
/// fragment, a present one an element of its own name only.
pub proof fn lemma_opt_other_tag_no_element(tag1: Seq<char>, tag2: Seq<char>, o: Option<Seq<char>>)
    requires
        tag_wf(tag1),
        tag_wf(tag2),
        tags_differ(tag1, tag2),
    ensures
        occurrences(opt_text_elem(tag2, o), open_tag(tag1)) == 0,
{
    match o {
        Some(t) => lemma_other_tag_no_element(tag1, tag2, t),
        None => (),
    }
}

proof fn lemma_esc_char_no_eq(c: char)
    requires
        c != '=',
    ensures
        forall|k: int| 0 <= k < esc_char(c).len() ==> esc_char(c)[k] != '=',
{
    reveal_strlit("&amp;");
    reveal_strlit("&lt;");
    reveal_strlit("&gt;");
    reveal_strlit("&quot;");
    reveal_strlit("&apos;");
}

/// Escaping neither removes nor introduces `=`: text without one stays
/// without one.
pub proof fn lemma_esc_no_eq(s: Seq<char>)
    requires
        forall|k: int| 0 <= k < s.len() ==> s[k] != '=',
    ensures
        forall|k: int| 0 <= k < esc(s).len() ==> esc(s)[k] != '=',
    decreases s.len(),
{
    if s.len() > 0 {
        lemma_esc_no_eq(s.drop_last());
        lemma_esc_char_no_eq(s.last());
        let head = esc(s.drop_last());
        let tail = esc_char(s.last());
        assert forall|k: int| 0 <= k < esc(s).len() implies esc(s)[k] != '=' by {
            if k < head.len() {
                assert(esc(s)[k] == head[k]);
            } else {
                assert(esc(s)[k] == tail[k - head.len()]);
            }
        }
    }
}

/// Decimal renderings hold digit characters only.
pub proof fn lemma_dec_digits(n: nat)
    ensures
        forall|k: int| 0 <= k < spec_dec(n).len() ==> '0' <= #[trigger] spec_dec(n)[k] <= '9',
    decreases n,
{
    if n >= 10 {
        lemma_dec_digits(n / 10);
        let head = spec_dec(n / 10);
        assert forall|k: int| 0 <= k < spec_dec(n).len() implies '0' <= #[trigger] spec_dec(n)[k]
            <= '9' by {
            if k < head.len() {
                assert(spec_dec(n)[k] == head[k]);
            } else {
                assert(spec_dec(n)[k] == spec_digit(n % 10));
            }
        }
    }
}

/// A tag name fit for the laws below: nonempty, letters only.
pub open spec fn tag_wf(tag: Seq<char>) -> bool {
    &&& tag.len() > 0
    &&& forall|k: int|
        0 <= k < tag.len() ==> ('a' <= #[trigger] tag[k] <= 'z' || 'A' <= tag[k] <= 'Z')
}

/// Law: an optional field left unset serializes to nothing at all, so its
/// fragment holds zero occurrences of the field's opening tag.
pub proof fn lemma_absent_field_no_element(tag: Seq<char>)
    requires
        tag_wf(tag),
    ensures
        occurrences(opt_text_elem(tag, None), open_tag(tag)) == 0,
{
}

/// Law: an optional field that was set serializes to exactly one element:
/// its fragment holds exactly one occurrence of the field's opening tag,
/// whatever the field's text.
pub proof fn lemma_present_field_one_element(tag: Seq<char>, t: Seq<char>)
    requires
        tag_wf(tag),
    ensures
        occurrences(opt_text_elem(tag, Some(t)), open_tag(tag)) == 1,
{
    let hay = text_elem(tag, t);
    let needle = open_tag(tag);
    reveal_strlit("<");
    reveal_strlit(">");
    reveal_strlit("</");
    lemma_esc_no_markup(t);
    let n = tag.len() as int;
    let e = esc(t).len() as int;
    assert(needle.len() == n + 2);
    assert(hay.len() == (n + 2) + e + (n + 3));
    assert(needle[0] == '<');
    assert(needle[1] == tag[0]);
    // Where each character of the fragment comes from.
    assert(hay[0] == '<');
    assert forall|k: int| 1 <= k <= n implies hay[k] == tag[k - 1] by {}
    assert(hay[n + 1] == '>');
    assert forall|k: int| n + 2 <= k < n + 2 + e implies hay[k] == esc(t)[k - n - 2] by {}
    assert(hay[n + 2 + e] == '<');
    assert(hay[n + 3 + e] == '/');
    assert forall|k: int| n + 4 + e <= k < 2 * n + 4 + e implies hay[k] == tag[k - n - 4 - e] by {}
    assert(hay[2 * n + 4 + e] == '>');
    // The needle matches at the front ...
    assert(hay.subrange(0, n + 2) =~= needle);
    assert(match_at(hay, needle, 0));
    // ... and nowhere else: a match needs `<`, which stands only at the
    // front and at the closing tag, where `/` follows instead of the tag.
    assert forall|i: int| i >= 1 implies !match_at(hay, needle, i) by {
        if i + needle.len() <= hay.len() {
            if i == n + 2 + e {
                assert(hay.subrange(i, i + needle.len() as int)[1] == hay[i + 1]);
                assert(hay[i + 1] == '/');
                assert(needle[1] != '/');
            } else {
                assert(hay.subrange(i, i + needle.len() as int)[0] == hay[i]);
                assert(hay[i] != '<');
            }
        }
    }
    lemma_occurrences_single(hay, needle, 0);
}

/// Appends ` name="digits"` to `out`.
pub fn write_num_attr(out: &mut String, name: &str, n: u64)
    ensures
        final(out)@ == old(out)@ + num_attr(name@, n as nat),
{
    out.append(" ");
    out.append(name);
    out.append("=\"");
    let d = u64_to_dec(n);
    out.append(d.as_str());
    out.append("\"");
    proof {
        assert(out@ =~= old(out)@ + num_attr(name@, n as nat));
    }
}

/// Appends `<tag>digits</tag>` to `out`.
pub fn write_num_elem(out: &mut String, tag: &str, n: u64)
    ensures
        final(out)@ == old(out)@ + num_elem(tag@, n as nat),
{
    out.append("<");
    out.append(tag);
    out.append(">");
    let d = u64_to_dec(n);
    out.append(d.as_str());
    out.append("</");
    out.append(tag);
    out.append(">");
    proof {
        assert(out@ =~= old(out)@ + num_elem(tag@, n as nat));
    }
}

/// Appends ` name="escaped value"` to `out`.
pub fn write_attr(out: &mut String, name: &str, value: &str)
    ensures
        final(out)@ == old(out)@ + attr(name@, value@),
{
    out.append(" ");
    out.append(name);
    out.append("=\"");
    let e = escape_str(value);
    out.append(e.as_str());
    out.append("\"");
    proof {
        assert(out@ =~= old(out)@ + attr(name@, value@));
    }
}

} // verus!
