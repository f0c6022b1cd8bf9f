//! Character-level helpers shared by the identifier extractors and the
//! client configurations.

use vstd::prelude::*;
use vstd::string::StrSliceExecFns;
use vstd::string::StringSliceAdditionalSpecFns;
use vstd::utf8::encode_utf8;

verus! {

/// The ASCII lower-case form of `c`; every other character is left alone.
pub open spec fn ascii_lower(c: char) -> char {
    if 'A' <= c && c <= 'Z' {
        ((c as u8) + 32) as char
    } else {
        c
    }
}

/// Computes [`ascii_lower`].
pub fn to_ascii_lower(c: char) -> (r: char)
    ensures
        r == ascii_lower(c),
{
    if 'A' <= c && c <= 'Z' {
        ((c as u8) + 32) as char
    } else {
        c
    }
}

/// `s` without the longest run of characters satisfying `drop` at its end.
pub open spec fn strip_end(s: Seq<char>, drop: spec_fn(char) -> bool) -> Seq<char>
    decreases s.len(),
{
    if s.len() > 0 && drop(s.last()) {
        strip_end(s.drop_last(), drop)
    } else {
        s
    }
}

/// `s` without the longest run of characters satisfying `drop` at its start.
pub open spec fn strip_start(s: Seq<char>, drop: spec_fn(char) -> bool) -> Seq<char>
    decreases s.len(),
{
    if s.len() > 0 && drop(s.first()) {
        strip_start(s.drop_first(), drop)
    } else {
        s
    }
}

/// A cut point `keep` with only dropped characters behind it and a kept
/// character right before it is where [`strip_end`] cuts.
pub proof fn lemma_strip_end_cut(s: Seq<char>, drop: spec_fn(char) -> bool, keep: int)
    requires
        0 <= keep <= s.len(),
        forall|i: int| keep <= i < s.len() ==> drop(#[trigger] s[i]),
        keep > 0 ==> !drop(s[keep - 1]),
    ensures
        strip_end(s, drop) == s.take(keep),
    decreases s.len(),
{
    if keep == s.len() {
        assert(s.take(keep) =~= s);
    } else {
        let t = s.drop_last();
        assert(drop(s[s.len() - 1]));
        assert forall|i: int| keep <= i < t.len() implies drop(#[trigger] t[i]) by {
            assert(t[i] == s[i]);
        }
        lemma_strip_end_cut(t, drop, keep);
        assert(t.take(keep) =~= s.take(keep));
    }
}

/// A cut point `lead` with only dropped characters before it and a kept
/// character at it is where [`strip_start`] cuts.
pub proof fn lemma_strip_start_cut(s: Seq<char>, drop: spec_fn(char) -> bool, lead: int)
    requires
        0 <= lead <= s.len(),
        forall|i: int| 0 <= i < lead ==> drop(#[trigger] s[i]),
        lead < s.len() ==> !drop(s[lead]),
    ensures
        strip_start(s, drop) == s.skip(lead),
    decreases s.len(),
{
    if lead == 0 {
        assert(s.skip(0) =~= s);
    } else {
        let t = s.drop_first();
        assert(drop(s[0]));
        assert forall|i: int| 0 <= i < lead - 1 implies drop(#[trigger] t[i]) by {
            assert(t[i] == s[i + 1]);
        }
        lemma_strip_start_cut(t, drop, lead - 1);
        assert(t.skip(lead - 1) =~= s.skip(lead));
    }
}

/// What [`strip_end`] leaves is a prefix that does not end in a dropped
/// character, and every character behind it is a dropped one.
pub proof fn lemma_strip_end_shape(s: Seq<char>, drop: spec_fn(char) -> bool)
    ensures
        strip_end(s, drop).len() <= s.len(),
        strip_end(s, drop) == s.take(strip_end(s, drop).len() as int),
        strip_end(s, drop).len() > 0 ==> !drop(strip_end(s, drop).last()),
        forall|i: int| strip_end(s, drop).len() <= i < s.len() ==> drop(#[trigger] s[i]),
    decreases s.len(),
{
    if s.len() > 0 && drop(s.last()) {
        let t = s.drop_last();
        lemma_strip_end_shape(t, drop);
        let k = strip_end(t, drop).len() as int;
        assert(t.take(k) =~= s.take(k));
        assert forall|i: int| k <= i < s.len() implies drop(#[trigger] s[i]) by {
            if i < t.len() {
                assert(s[i] == t[i]);
            }
        }
    } else {
        assert(s.take(s.len() as int) =~= s);
    }
}

/// The length of the longest run of characters satisfying `keep` at the
/// start of `s`.
pub open spec fn leading_run(s: Seq<char>, keep: spec_fn(char) -> bool) -> nat
    decreases s.len(),
{
    if s.len() > 0 && keep(s.first()) {
        1 + leading_run(s.drop_first(), keep)
    } else {
        0
    }
}

/// A position `run` with only kept characters before it and none at it is
/// where the leading run ends.
pub proof fn lemma_leading_run_cut(s: Seq<char>, keep: spec_fn(char) -> bool, run: int)
    requires
        0 <= run <= s.len(),
        forall|i: int| 0 <= i < run ==> keep(#[trigger] s[i]),
        run < s.len() ==> !keep(s[run]),
    ensures
        leading_run(s, keep) == run,
    decreases s.len(),
{
    if run > 0 {
        let t = s.drop_first();
        assert(keep(s[0]));
        assert forall|i: int| 0 <= i < run - 1 implies keep(#[trigger] t[i]) by {
            assert(t[i] == s[i + 1]);
        }
        lemma_leading_run_cut(t, keep, run - 1);
    }
}

/// The leading run is a run of kept characters, and it ends at the end of
/// `s` or before a character that is not kept.
pub proof fn lemma_leading_run_shape(s: Seq<char>, keep: spec_fn(char) -> bool)
    ensures
        leading_run(s, keep) <= s.len(),
        forall|i: int| 0 <= i < leading_run(s, keep) ==> keep(#[trigger] s[i]),
        leading_run(s, keep) < s.len() ==> !keep(s[leading_run(s, keep) as int]),
    decreases s.len(),
{
    if s.len() > 0 && keep(s.first()) {
        let t = s.drop_first();
        lemma_leading_run_shape(t, keep);
        assert forall|i: int| 0 <= i < leading_run(s, keep) implies keep(#[trigger] s[i]) by {
            if i > 0 {
                assert(s[i] == t[i - 1]);
            }
        }
        if leading_run(s, keep) < s.len() {
            assert(s[leading_run(s, keep) as int] == t[leading_run(t, keep) as int]);
        }
    }
}

/// White space, as Unicode's `White_Space` property has it.
pub open spec fn is_white_space(c: char) -> bool {
    let u = c as u32;
    ||| 0x09 <= u <= 0x0d
    ||| u == 0x20
    ||| u == 0x85
    ||| u == 0xa0
    ||| u == 0x1680
    ||| 0x2000 <= u <= 0x200a
    ||| u == 0x2028
    ||| u == 0x2029
    ||| u == 0x202f
    ||| u == 0x205f
    ||| u == 0x3000
}

/// [`is_white_space`] as a predicate value.
pub open spec fn white_space() -> spec_fn(char) -> bool {
    |c: char| is_white_space(c)
}

/// Decides [`is_white_space`].
pub fn white_space_char(c: char) -> (r: bool)
    ensures
        r == is_white_space(c),
{
    let u: u32 = c as u32;
    (0x09 <= u && u <= 0x0d) || u == 0x20 || u == 0x85 || u == 0xa0 || u == 0x1680 || (0x2000 <= u
        && u <= 0x200a) || u == 0x2028 || u == 0x2029 || u == 0x202f || u == 0x205f || u == 0x3000
}

/// `s` without the white space at its start and at its end.
pub open spec fn trimmed(s: Seq<char>) -> Seq<char> {
    strip_start(strip_end(s, white_space()), white_space())
}

/// Whether `s` holds nothing but white space.
pub open spec fn is_blank(s: Seq<char>) -> bool {
    forall|i: int| 0 <= i < s.len() ==> is_white_space(#[trigger] s[i])
}

/// Blank text is the text of which trimming leaves nothing.
pub proof fn lemma_blank_trims_to_nothing(s: Seq<char>)
    ensures
        is_blank(s) <==> trimmed(s).len() == 0,
{
    let e = strip_end(s, white_space());
    lemma_strip_end_shape(s, white_space());
    if is_blank(s) {
        if e.len() > 0 {
            assert(e.last() == s[e.len() - 1]);
        }
        assert(e.len() == 0);
    } else {
        let i = choose|i: int| 0 <= i < s.len() && !is_white_space(#[trigger] s[i]);
        assert(i < e.len());
        let run = leading_run(e, white_space());
        lemma_leading_run_shape(e, white_space());
        lemma_strip_start_cut(e, white_space(), run as int);
        assert(!is_white_space(e.last()));
        assert(run < e.len());
    }
}

/// Removes the white space at both ends of `s`.
pub fn trim(s: &str) -> (r: &str)
    ensures
        r@ == trimmed(s@),
{
    let total: usize = s.unicode_len();
    let mut lead: usize = 0;
    let mut keep: usize = 0;
    let mut seen: usize = 0;
    for c in it: s.chars()
        invariant
            seen == it.index(),
            it.seq() == s@,
            total == s@.len(),
            lead <= keep <= seen,
            forall|i: int| keep <= i < seen ==> is_white_space(#[trigger] s@[i]),
            keep > 0 ==> !is_white_space(s@[keep - 1]),
            forall|i: int| 0 <= i < lead ==> is_white_space(#[trigger] s@[i]),
            keep > 0 ==> lead < keep && !is_white_space(s@[lead as int]),
            keep == 0 ==> lead == 0,
    {
        if !white_space_char(c) {
            if keep == 0 {
                lead = seen;
            }
            keep = seen + 1;
        }
        seen = seen + 1;
    }
    proof {
        lemma_strip_end_cut(s@, white_space(), keep as int);
        let e = s@.take(keep as int);
        assert forall|i: int| 0 <= i < lead implies white_space()(#[trigger] e[i]) by {
            assert(e[i] == s@[i]);
        }
        lemma_strip_start_cut(e, white_space(), lead as int);
        assert(e.skip(lead as int) =~= s@.subrange(lead as int, keep as int));
    }
    s.substring_char(lead, keep)
}

/// What an optional setting says: its text without the white space around
/// it, unless nothing is set or nothing is left.
pub open spec fn configured(setting: Option<String>) -> Option<Seq<char>> {
    match setting {
        Some(text) => if is_blank(text@) {
            None
        } else {
            Some(trimmed(text@))
        },
        None => None,
    }
}

/// Reads an optional setting, as [`configured`] defines it.
pub fn configured_text(setting: &Option<String>) -> (value: Option<&str>)
    ensures
        match value {
            Some(text) => configured(*setting) == Some(text@),
            None => configured(*setting) is None,
        },
{
    match setting {
        Some(text) => {
            let kept = trim(text.as_str());
            proof {
                lemma_blank_trims_to_nothing(text@);
            }
            if kept.is_empty() {
                None
            } else {
                Some(kept)
            }
        },
        None => None,
    }
}

/// Removes every `/` at the end of `s`.
pub fn trim_trailing_slashes(s: &str) -> (r: &str)
    ensures
        r@ == strip_end(s@, slash()),
{
    let total: usize = s.unicode_len();
    let mut keep: usize = 0;
    let mut seen: usize = 0;
    for c in it: s.chars()
        invariant
            seen == it.index(),
            it.seq() == s@,
            total == s@.len(),
            keep <= seen,
            forall|i: int| keep <= i < seen ==> #[trigger] s@[i] == '/',
            keep > 0 ==> s@[keep - 1] != '/',
    {
        if c != '/' {
            keep = seen + 1;
        }
        seen = seen + 1;
    }
    proof {
        lemma_strip_end_cut(s@, slash(), keep as int);
    }
    s.substring_char(0, keep)
}

/// "Is a `/`", as a predicate value.
pub open spec fn slash() -> spec_fn(char) -> bool {
    |c: char| c == '/'
}

/// The closing punctuation that prose and brackets leave behind an
/// identifier: `. , ; : ) ] }`.
pub open spec fn is_trailing_punctuation(c: char) -> bool {
    c == '.' || c == ',' || c == ';' || c == ':' || c == ')' || c == ']' || c == '}'
}

/// [`is_trailing_punctuation`] as a predicate value.
pub open spec fn punctuation() -> spec_fn(char) -> bool {
    |c: char| is_trailing_punctuation(c)
}

/// Decides [`is_trailing_punctuation`].
pub fn trailing_punctuation(c: char) -> (r: bool)
    ensures
        r == is_trailing_punctuation(c),
{
    c == '.' || c == ',' || c == ';' || c == ':' || c == ')' || c == ']' || c == '}'
}

/// `s` with every trailing punctuation character removed.
pub open spec fn without_trailing_punctuation(s: Seq<char>) -> Seq<char> {
    strip_end(s, punctuation())
}

/// Whatever punctuation is put behind a text that does not end in
/// punctuation, one mark or many in any order, stripping gives the text
/// back.
pub proof fn lemma_trailing_punctuation_is_stripped(text: Seq<char>, marks: Seq<char>)
    requires
        text.len() > 0 ==> !is_trailing_punctuation(text.last()),
        forall|i: int| 0 <= i < marks.len() ==> is_trailing_punctuation(#[trigger] marks[i]),
    ensures
        without_trailing_punctuation(text + marks) == text,
{
    let all = text + marks;
    assert forall|i: int| text.len() <= i < all.len() implies punctuation()(#[trigger] all[i]) by {
        assert(all[i] == marks[i - text.len()]);
    }
    lemma_strip_end_cut(all, punctuation(), text.len() as int);
    assert(all.take(text.len() as int) =~= text);
}

/// Stripping leaves a prefix that does not end in punctuation, and takes
/// nothing away but punctuation.
pub proof fn lemma_only_trailing_punctuation_goes(s: Seq<char>)
    ensures
        without_trailing_punctuation(s).len() <= s.len(),
        without_trailing_punctuation(s) == s.take(without_trailing_punctuation(s).len() as int),
        without_trailing_punctuation(s).len() > 0 ==> !is_trailing_punctuation(
            without_trailing_punctuation(s).last(),
        ),
        forall|i: int|
            without_trailing_punctuation(s).len() <= i < s.len() ==> is_trailing_punctuation(
                #[trigger] s[i],
            ),
{
    lemma_strip_end_shape(s, punctuation());
}

/// Removes the punctuation that trails `s`, however often it repeats.
pub fn strip_trailing_punctuation(s: &str) -> (r: &str)
    ensures
        r@ == without_trailing_punctuation(s@),
{
    let total: usize = s.unicode_len();
    let mut keep: usize = 0;
    let mut seen: usize = 0;
    for c in it: s.chars()
        invariant
            seen == it.index(),
            it.seq() == s@,
            total == s@.len(),
            keep <= seen,
            forall|i: int| keep <= i < seen ==> is_trailing_punctuation(#[trigger] s@[i]),
            keep > 0 ==> !is_trailing_punctuation(s@[keep - 1]),
    {
        if !trailing_punctuation(c) {
            keep = seen + 1;
        }
        seen = seen + 1;
    }
    proof {
        lemma_strip_end_cut(s@, punctuation(), keep as int);
    }
    s.substring_char(0, keep)
}

/// The characters of `s`, one by one.
pub fn to_chars(s: &str) -> (v: Vec<char>)
    ensures
        v@ == s@,
{
    let mut v: Vec<char> = Vec::new();
    for c in it: s.chars()
        invariant
            v@ == it.seq().take(it.index() as int),
    {
        v.push(c);
    }
    v
}

/// Whether `value` ends with `suffix` once the ASCII letters of that end are
/// lower-cased: `suffix` itself is compared as it stands.
pub open spec fn ends_with_ignoring_ascii_case(value: Seq<char>, suffix: Seq<char>) -> bool {
    &&& suffix.len() <= value.len()
    &&& forall|i: int|
        0 <= i < suffix.len() ==> ascii_lower(value[value.len() - suffix.len() + i])
            == #[trigger] suffix[i]
}

/// Decides [`ends_with_ignoring_ascii_case`].
pub fn ends_with_ascii_case_insensitive(value: &str, suffix: &str) -> (r: bool)
    ensures
        r == ends_with_ignoring_ascii_case(value@, suffix@),
{
    let n: usize = value.unicode_len();
    let wanted = to_chars(suffix);
    let m: usize = wanted.len();
    if n < m {
        return false;
    }
    let tail = value.substring_char(n - m, n);
    let mut same = true;
    let mut seen: usize = 0;
    for c in it: tail.chars()
        invariant
            seen == it.index(),
            it.seq() == tail@,
            tail@ == value@.subrange(n - m, n as int),
            wanted@ == suffix@,
            m == wanted@.len(),
            n == value@.len(),
            m <= n,
            same == (forall|i: int|
                0 <= i < seen ==> ascii_lower(value@[n - m + i]) == #[trigger] suffix@[i]),
    {
        assert(c == value@[n - m + seen]);
        if to_ascii_lower(c) != wanted[seen] {
            same = false;
        }
        seen = seen + 1;
    }
    same
}

/// `.pdf`, as characters.
pub open spec fn dot_pdf() -> Seq<char> {
    seq!['.', 'p', 'd', 'f']
}

/// `/pdf`, as characters.
pub open spec fn slash_pdf() -> Seq<char> {
    seq!['/', 'p', 'd', 'f']
}

/// `s` without a `.pdf` or `/pdf` at its end, in any mix of case.
pub open spec fn without_file_suffix(s: Seq<char>) -> Seq<char> {
    if ends_with_ignoring_ascii_case(s, dot_pdf()) || ends_with_ignoring_ascii_case(
        s,
        slash_pdf(),
    ) {
        s.take(s.len() - 4)
    } else {
        s
    }
}

/// Removes one trailing `.pdf` or `/pdf`, matched without regard to ASCII
/// case, where `s` ends in one.
pub fn strip_trailing_file_suffix(s: &str) -> (r: &str)
    ensures
        r@ == without_file_suffix(s@),
{
    proof {
        reveal_strlit(".pdf");
        reveal_strlit("/pdf");
        assert(".pdf"@ =~= dot_pdf());
        assert("/pdf"@ =~= slash_pdf());
    }
    if ends_with_ascii_case_insensitive(s, ".pdf") || ends_with_ascii_case_insensitive(s, "/pdf") {
        let n: usize = s.unicode_len();
        s.substring_char(0, n - 4)
    } else {
        s
    }
}

/// `part` stands in `text` in one piece.
pub open spec fn is_part_of(part: Seq<char>, text: Seq<char>) -> bool {
    exists|from: int|
        0 <= from && from + part.len() <= text.len() && #[trigger] text.subrange(
            from,
            from + part.len(),
        ) == part
}

/// The start of a part of a text is a part of that text.
pub proof fn lemma_start_of_part(start: Seq<char>, part: Seq<char>, text: Seq<char>)
    requires
        start.is_prefix_of(part),
        is_part_of(part, text),
    ensures
        is_part_of(start, text),
{
    let from = choose|from: int|
        0 <= from && from + part.len() <= text.len() && #[trigger] text.subrange(
            from,
            from + part.len(),
        ) == part;
    assert(text.subrange(from, from + start.len()) =~= start);
}

/// Stripping punctuation and a file suffix leaves a start of the text.
pub proof fn lemma_stripped_is_a_start(s: Seq<char>)
    ensures
        without_trailing_punctuation(s).is_prefix_of(s),
        without_file_suffix(s).is_prefix_of(s),
        without_file_suffix(without_trailing_punctuation(s)).is_prefix_of(s),
{
    lemma_strip_end_shape(s, punctuation());
    let kept = without_trailing_punctuation(s);
    assert(kept.is_prefix_of(s));
    assert(without_file_suffix(s).is_prefix_of(s));
    assert(without_file_suffix(kept).is_prefix_of(kept));
    assert(without_file_suffix(kept).is_prefix_of(s));
}

/// The number of bytes that `s` takes in UTF-8.
pub open spec fn byte_len(s: Seq<char>) -> nat {
    encode_utf8(s).len()
}

/// Whether two strings hold the same text.
pub fn same_text(a: &str, b: &str) -> (r: bool)
    ensures
        r == (a@ == b@),
{
    broadcast use vstd::utf8::encode_utf8_decode_utf8;

    let x = a.as_bytes();
    let y = b.as_bytes();
    if x.len() != y.len() {
        return false;
    }
    let n: usize = x.len();
    let mut i: usize = 0;
    while i < n
        invariant
            i <= n,
            n == x@.len(),
            n == y@.len(),
            x@ == encode_utf8(a@),
            y@ == encode_utf8(b@),
            forall|j: int| 0 <= j < i ==> x@[j] == y@[j],
        decreases n - i,
    {
        if x[i] != y[i] {
            return false;
        }
        i = i + 1;
    }
    proof {
        assert(x@ =~= y@);
        assert(vstd::utf8::decode_utf8(encode_utf8(a@)) == a@);
        assert(vstd::utf8::decode_utf8(encode_utf8(b@)) == b@);
    }
    true
}

/// `String::push` of std: the string grows by the one character `c`, at its
/// end.
#[verifier::external_body]
pub(crate) fn push_char(s: &mut String, c: char)
    ensures
        final(s)@ == old(s)@.push(c),
{
    s.push(c);
}

} // verus!
