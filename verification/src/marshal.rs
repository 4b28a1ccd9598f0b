//! Marshalling between the host's wide-character buffers and native text.
//!
//! The host hands strings over as fixed-size buffers of UTF-16 code units,
//! terminated by an embedded NUL when the text is shorter than the buffer,
//! and expects NUL-terminated (sometimes doubly terminated) wide buffers in
//! return.  The NUL scanning and framing here is verified exactly; the
//! UTF-16 and UTF-8 transcoding itself is delegated to the standard
//! library under named, deterministic results.

use vstd::prelude::*;
use crate::error::XwfError;

verus! {

/// The text that UTF-16 decoding (with replacement of invalid sequences)
/// yields for the given code units.
pub uninterp spec fn utf16_decoded(units: Seq<u16>) -> Seq<char>;

/// The UTF-16 code units that encoding yields for the given text.
pub uninterp spec fn utf16_encoded(text: Seq<char>) -> Seq<u16>;

/// The text that lossy UTF-8 decoding yields for the given bytes.
pub uninterp spec fn utf8_lossy_decoded(bytes: Seq<u8>) -> Seq<char>;

/// Relies on String::from_utf16_lossy: the result depends on the code
/// units alone, and an empty input gives an empty string.
#[verifier::external_body]
fn decode_utf16_units(units: &[u16]) -> (r: String)
    ensures
        r@ == utf16_decoded(units@),
        units@.len() == 0 ==> r@.len() == 0,
{
    String::from_utf16_lossy(units)
}

/// Relies on str::encode_utf16: the result depends on the characters
/// alone, and an empty string gives no code units.
#[verifier::external_body]
fn encode_utf16_units(s: &str) -> (r: Vec<u16>)
    ensures
        r@ == utf16_encoded(s@),
        s@.len() == 0 ==> r@.len() == 0,
{
    s.encode_utf16().collect()
}

/// Relies on String::from_utf8_lossy: the result depends on the bytes
/// alone, and an empty input gives an empty string.
#[verifier::external_body]
fn decode_utf8_bytes_lossy(bytes: &[u8]) -> (r: String)
    ensures
        r@ == utf8_lossy_decoded(bytes@),
        bytes@.len() == 0 ==> r@.len() == 0,
{
    String::from_utf8_lossy(bytes).into_owned()
}

/// Reads raw bytes as lossy UTF-8 text.
pub fn buf_to_utf8_string(bytes: &[u8]) -> (r: String)
    ensures
        r@ == utf8_lossy_decoded(bytes@),
{
    decode_utf8_bytes_lossy(bytes)
}

/// Position of the first NUL code unit, or the length when there is none.
pub open spec fn spec_first_nul(units: Seq<u16>) -> int
    decreases units.len(),
{
    if units.len() == 0 {
        0
    } else if units[0] == 0 {
        0
    } else {
        1 + spec_first_nul(units.drop_first())
    }
}

/// The first-NUL position is the unique scan result: everything before it
/// is non-NUL, and it either sits on a NUL or at the end of the buffer.
pub proof fn lemma_first_nul(units: Seq<u16>)
    ensures
        0 <= spec_first_nul(units) <= units.len(),
        spec_first_nul(units) < units.len() ==> units[spec_first_nul(units)] == 0,
        forall|j: int| 0 <= j < spec_first_nul(units) ==> units[j] != 0,
    decreases units.len(),
{
    if units.len() > 0 && units[0] != 0 {
        lemma_first_nul(units.drop_first());
        assert forall|j: int| 0 <= j < spec_first_nul(units) implies units[j] != 0 by {
            if j > 0 {
                assert(units.drop_first()[j - 1] != 0);
            }
        }
    }
}

/// A scan that stopped at position `k` under the scan's rules found the
/// first NUL.
pub proof fn lemma_first_nul_at(units: Seq<u16>, k: int)
    requires
        0 <= k <= units.len(),
        forall|j: int| 0 <= j < k ==> units[j] != 0,
        k < units.len() ==> units[k] == 0,
    ensures
        spec_first_nul(units) == k,
    decreases units.len(),
{
    if units.len() > 0 && units[0] != 0 {
        assert(k >= 1);
        lemma_first_nul_at(units.drop_first(), k - 1);
    }
}

/// The prefix of the buffer before its first NUL code unit; the whole
/// buffer when no NUL is embedded.
pub open spec fn spec_nul_prefix(units: Seq<u16>) -> Seq<u16> {
    units.take(spec_first_nul(units))
}

/// Decodes a wide-character buffer: exactly the text before the first
/// embedded NUL, or the whole buffer when no NUL terminator is present.
pub fn wchar_str_to_string(buf: &[u16]) -> (r: String)
    ensures
        r@ == utf16_decoded(spec_nul_prefix(buf@)),
{
    proof {
        lemma_first_nul(buf@);
    }
    let mut i: usize = 0;
    while i < buf.len() && buf[i] != 0
        invariant
            0 <= i <= buf@.len(),
            forall|j: int| 0 <= j < i ==> buf@[j] != 0,
        decreases buf@.len() - i,
    {
        i += 1;
    }
    proof {
        lemma_first_nul_at(buf@, i as int);
    }
    let prefix: &[u16] = vstd::slice::slice_subrange(buf, 0, i);
    decode_utf16_units(prefix)
}

/// Encodes text as a wide-character buffer with a single trailing NUL,
/// ready to be handed to a host call.
pub fn string_to_wchar_cstr(s: &String) -> (r: Vec<u16>)
    ensures
        r@ == utf16_encoded(s@).push(0u16),
{
    let mut v = encode_utf16_units(s.as_str());
    v.push(0);
    v
}

/// Encodes raw bytes, read as lossy UTF-8 text, as a wide-character
/// buffer with a double trailing NUL.
pub fn buf_to_wchar_cstr(buf: &[u8]) -> (r: Vec<u16>)
    ensures
        r@ == utf16_encoded(utf8_lossy_decoded(buf@)).push(0u16).push(0u16),
{
    let msg = decode_utf8_bytes_lossy(buf);
    let mut v = encode_utf16_units(msg.as_str());
    v.push(0);
    v.push(0);
    v
}

/// Position of the first occurrence of `c`, or the length when `c` does
/// not occur.
pub open spec fn spec_first_pos(s: Seq<char>, c: char) -> int
    decreases s.len(),
{
    if s.len() == 0 {
        0
    } else if s[0] == c {
        0
    } else {
        1 + spec_first_pos(s.drop_first(), c)
    }
}

/// A scan that stopped at position `k` under the scan's rules found the
/// first occurrence.
pub proof fn lemma_first_pos_at(s: Seq<char>, c: char, k: int)
    requires
        0 <= k <= s.len(),
        forall|j: int| 0 <= j < k ==> s[j] != c,
        k == s.len() || s[k] == c,
    ensures
        spec_first_pos(s, c) == k,
    decreases s.len(),
{
    if s.len() > 0 && s[0] != c {
        assert(k >= 1);
        lemma_first_pos_at(s.drop_first(), c, k - 1);
    }
}

/// The pieces of the text between occurrences of the separator character,
/// in order; a text without the separator is a single piece, even when it
/// is empty.
pub open spec fn spec_split_char(s: Seq<char>, c: char) -> Seq<Seq<char>>
    decreases s.len(),
{
    let i = spec_first_pos(s, c);
    if 0 <= i < s.len() && s[i] == c {
        seq![s.take(i)] + spec_split_char(s.skip(i + 1), c)
    } else {
        seq![s]
    }
}

/// Splits a string at every occurrence of the separator character.
pub fn split_char(input: &str, sep: char) -> (r: Vec<String>)
    ensures
        r.deep_view() == spec_split_char(input@, sep),
{
    let n = input.unicode_len();
    let mut pieces: Vec<String> = Vec::new();
    let mut start: usize = 0;
    let mut i: usize = 0;
    proof {
        assert(input@.skip(0) =~= input@);
        assert(pieces.deep_view() =~= Seq::<Seq<char>>::empty());
        assert(spec_split_char(input@, sep) == pieces.deep_view() + spec_split_char(
            input@.skip(start as int),
            sep,
        ));
    }
    while i < n
        invariant
            input@.len() == n,
            start <= i <= n,
            forall|j: int| start <= j < i ==> input@[j] != sep,
            spec_split_char(input@, sep) == pieces.deep_view() + spec_split_char(
                input@.skip(start as int),
                sep,
            ),
        decreases n - i,
    {
        let c = input.get_char(i);
        if c == sep {
            let piece = input.substring_char(start, i).to_owned();
            proof {
                let t = input@.skip(start as int);
                let k = i - start;
                assert forall|j: int| 0 <= j < k implies t[j] != sep by {
                    assert(t[j] == input@[start + j]);
                }
                assert(t[k] == input@[i as int]);
                lemma_first_pos_at(t, sep, k);
                assert(t.take(k) =~= input@.subrange(start as int, i as int));
                assert(t.skip(k + 1) =~= input@.skip(i + 1));
                assert(spec_split_char(t, sep) == seq![input@.subrange(start as int, i as int)]
                    + spec_split_char(input@.skip(i + 1), sep));
            }
            let ghost pieces_before = pieces.deep_view();
            pieces.push(piece);
            proof {
                assert(pieces.deep_view() =~= pieces_before.push(
                    input@.subrange(start as int, i as int),
                ));
                assert(pieces_before.push(input@.subrange(start as int, i as int))
                    + spec_split_char(input@.skip(i + 1), sep) =~= pieces_before + (seq![
                    input@.subrange(start as int, i as int),
                ] + spec_split_char(input@.skip(i + 1), sep)));
            }
            start = i + 1;
            i = i + 1;
        } else {
            i += 1;
        }
    }
    let last = input.substring_char(start, n).to_owned();
    proof {
        let t = input@.skip(start as int);
        assert forall|j: int| 0 <= j < t.len() implies t[j] != sep by {
            assert(t[j] == input@[start + j]);
        }
        lemma_first_pos_at(t, sep, t.len() as int);
        assert(spec_split_char(t, sep) == seq![t]);
        assert(t =~= input@.subrange(start as int, n as int));
        assert(last@ == t);
    }
    let ghost pieces_before = pieces.deep_view();
    pieces.push(last);
    proof {
        assert(pieces.deep_view() =~= pieces_before.push(input@.skip(start as int)));
        assert(pieces_before.push(input@.skip(start as int)) =~= pieces_before + seq![
            input@.skip(start as int),
        ]);
        assert(pieces.deep_view() == spec_split_char(input@, sep));
    }
    pieces
}

/// The pieces joined back together, with nothing between them.
pub open spec fn spec_concat_seqs(parts: Seq<Seq<char>>) -> Seq<char>
    decreases parts.len(),
{
    if parts.len() == 0 {
        Seq::empty()
    } else {
        parts[0] + spec_concat_seqs(parts.drop_first())
    }
}

/// Splitting at a character and concatenating the pieces removes exactly
/// the occurrences of that character.
pub proof fn lemma_concat_split_char(s: Seq<char>, c: char)
    ensures
        spec_concat_seqs(spec_split_char(s, c)) == s.filter(|x: char| x != c),
    decreases s.len(),
{
    reveal(Seq::filter);
    let i = spec_first_pos(s, c);
    if 0 <= i < s.len() && s[i] == c {
        lemma_concat_split_char(s.skip(i + 1), c);
        let parts = seq![s.take(i)] + spec_split_char(s.skip(i + 1), c);
        assert(parts.drop_first() =~= spec_split_char(s.skip(i + 1), c));
        assert(spec_concat_seqs(spec_split_char(s, c)) == s.take(i) + s.skip(i + 1).filter(
            |x: char| x != c,
        ));
        lemma_first_pos_props(s, c);
        lemma_filter_all_kept(s.take(i), c);
        assert(s =~= s.take(i) + seq![c] + s.skip(i + 1));
        lemma_filter_append(s.take(i), seq![c] + s.skip(i + 1), c);
        lemma_filter_append(seq![c], s.skip(i + 1), c);
        assert(Seq::<char>::empty().filter(|x: char| x != c) =~= Seq::<char>::empty());
        assert((seq![c]).drop_last() =~= Seq::<char>::empty());
        assert((seq![c]).last() == c);
        assert((seq![c]).filter(|x: char| x != c) =~= Seq::<char>::empty());
        assert((s.take(i) + seq![c] + s.skip(i + 1)) =~= (s.take(i) + (seq![c] + s.skip(i + 1))));
        assert(s.filter(|x: char| x != c) == s.take(i).filter(|x: char| x != c) + s.skip(i
            + 1).filter(|x: char| x != c));
        assert(s.take(i).filter(|x: char| x != c) == s.take(i));
    } else {
        lemma_first_pos_props(s, c);
        assert(spec_split_char(s, c) == seq![s]);
        assert((seq![s]).drop_first() =~= Seq::<Seq<char>>::empty());
        assert(spec_concat_seqs(Seq::<Seq<char>>::empty()) =~= Seq::<char>::empty());
        assert((seq![s])[0] == s);
        assert(spec_concat_seqs(seq![s]) == s + Seq::<char>::empty());
        assert(s + Seq::<char>::empty() =~= s);
        assert(i == s.len());
        lemma_filter_all_kept(s, c);
    }
}

/// Everything before the first occurrence differs from the character, and
/// the first occurrence, when inside the text, really is one.
pub proof fn lemma_first_pos_props(s: Seq<char>, c: char)
    ensures
        0 <= spec_first_pos(s, c) <= s.len(),
        spec_first_pos(s, c) < s.len() ==> s[spec_first_pos(s, c)] == c,
        forall|j: int| 0 <= j < spec_first_pos(s, c) ==> s[j] != c,
    decreases s.len(),
{
    if s.len() > 0 && s[0] != c {
        lemma_first_pos_props(s.drop_first(), c);
        assert forall|j: int| 0 <= j < spec_first_pos(s, c) implies s[j] != c by {
            if j > 0 {
                assert(s.drop_first()[j - 1] != c);
            }
        }
    }
}

/// A text without the character is left unchanged by the filter.
proof fn lemma_filter_all_kept(s: Seq<char>, c: char)
    requires
        forall|j: int| 0 <= j < s.len() ==> s[j] != c,
    ensures
        s.filter(|x: char| x != c) == s,
    decreases s.len(),
{
    reveal(Seq::filter);
    if s.len() > 0 {
        assert forall|j: int| 0 <= j < s.drop_last().len() implies s.drop_last()[j] != c by {
            assert(s[j] != c);
        }
        lemma_filter_all_kept(s.drop_last(), c);
        assert(s.drop_last().push(s.last()) =~= s);
    }
}

/// Filtering distributes over concatenation.
proof fn lemma_filter_append(a: Seq<char>, b: Seq<char>, c: char)
    ensures
        (a + b).filter(|x: char| x != c) == a.filter(|x: char| x != c) + b.filter(
            |x: char| x != c,
        ),
{
    Seq::<char>::filter_distributes_over_add(a, b, |x: char| x != c);
}

/// Appending one more piece extends the concatenation by that piece.
pub proof fn lemma_concat_snoc(parts: Seq<Seq<char>>, x: Seq<char>)
    ensures
        spec_concat_seqs(parts.push(x)) == spec_concat_seqs(parts) + x,
    decreases parts.len(),
{
    if parts.len() == 0 {
        assert(parts.push(x)[0] == x);
        assert(parts.push(x).drop_first() =~= Seq::<Seq<char>>::empty());
        assert(spec_concat_seqs(Seq::<Seq<char>>::empty()) =~= Seq::<char>::empty());
        assert(spec_concat_seqs(parts.push(x)) == x + Seq::<char>::empty());
        assert(x + Seq::<char>::empty() =~= x);
        assert(spec_concat_seqs(parts) + x =~= x);
    } else {
        lemma_concat_snoc(parts.drop_first(), x);
        assert(parts.push(x)[0] == parts[0]);
        assert(parts.push(x).drop_first() =~= parts.drop_first().push(x));
        assert(spec_concat_seqs(parts.push(x)) == parts[0] + (spec_concat_seqs(
            parts.drop_first(),
        ) + x));
        assert(parts[0] + (spec_concat_seqs(parts.drop_first()) + x) =~= (parts[0]
            + spec_concat_seqs(parts.drop_first())) + x);
    }
}

/// The ASCII lowercase form of a character; anything but an ASCII
/// capital letter is left alone.
pub open spec fn spec_char_lower(c: char) -> char {
    if 'A' <= c && c <= 'Z' {
        ((c as u32) + 32) as char
    } else {
        c
    }
}

/// The text with every ASCII capital letter lowered.
pub open spec fn spec_lower(s: Seq<char>) -> Seq<char> {
    s.map_values(|c: char| spec_char_lower(c))
}

/// The ASCII lowercase form of a character.
pub fn char_lower(c: char) -> (r: char)
    ensures
        r == spec_char_lower(c),
{
    match c {
        'A' => 'a',
        'B' => 'b',
        'C' => 'c',
        'D' => 'd',
        'E' => 'e',
        'F' => 'f',
        'G' => 'g',
        'H' => 'h',
        'I' => 'i',
        'J' => 'j',
        'K' => 'k',
        'L' => 'l',
        'M' => 'm',
        'N' => 'n',
        'O' => 'o',
        'P' => 'p',
        'Q' => 'q',
        'R' => 'r',
        'S' => 's',
        'T' => 't',
        'U' => 'u',
        'V' => 'v',
        'W' => 'w',
        'X' => 'x',
        'Y' => 'y',
        'Z' => 'z',
        _ => c,
    }
}

/// True when the two texts agree up to ASCII letter case.
pub fn eq_ignore_ascii_case(a: &str, b: &str) -> (r: bool)
    ensures
        r == (spec_lower(a@) == spec_lower(b@)),
{
    let na = a.unicode_len();
    let nb = b.unicode_len();
    if na != nb {
        proof {
            assert(spec_lower(a@).len() == a@.len());
            assert(spec_lower(b@).len() == b@.len());
        }
        return false;
    }
    let mut i: usize = 0;
    while i < na
        invariant
            a@.len() == na,
            b@.len() == nb,
            na == nb,
            i <= na,
            forall|j: int| 0 <= j < i ==> spec_lower(a@)[j] == spec_lower(b@)[j],
        decreases na - i,
    {
        let ca = char_lower(a.get_char(i));
        let cb = char_lower(b.get_char(i));
        if ca != cb {
            proof {
                assert(spec_lower(a@)[i as int] == spec_char_lower(a@[i as int]));
                assert(spec_lower(b@)[i as int] == spec_char_lower(b@[i as int]));
            }
            return false;
        }
        proof {
            assert(spec_lower(a@)[i as int] == spec_char_lower(a@[i as int]));
            assert(spec_lower(b@)[i as int] == spec_char_lower(b@[i as int]));
        }
        i += 1;
    }
    proof {
        assert(spec_lower(a@) =~= spec_lower(b@));
    }
    true
}

/// True when the list separator starts at position `i` of the text.
pub open spec fn spec_sep_at(s: Seq<char>, i: int) -> bool {
    0 <= i && i + 1 < s.len() && s[i] == ',' && s[i + 1] == ' '
}

/// Position of the first list separator, or the length when there is none.
pub open spec fn spec_first_sep(s: Seq<char>) -> int
    decreases s.len(),
{
    if s.len() < 2 {
        s.len() as int
    } else if s[0] == ',' && s[1] == ' ' {
        0
    } else {
        1 + spec_first_sep(s.drop_first())
    }
}

/// A scan that stopped at position `k` under the scan's rules found the
/// first separator.
pub proof fn lemma_first_sep_at(s: Seq<char>, k: int)
    requires
        0 <= k <= s.len(),
        forall|j: int| 0 <= j < k ==> !spec_sep_at(s, j),
        k == s.len() || spec_sep_at(s, k),
    ensures
        spec_first_sep(s) == k,
    decreases s.len(),
{
    if s.len() < 2 {
        assert(k == s.len());
    } else if s[0] == ',' && s[1] == ' ' {
        assert(spec_sep_at(s, 0));
        assert(k == 0);
    } else {
        assert(!spec_sep_at(s, 0));
        assert(k >= 1);
        let t = s.drop_first();
        assert forall|j: int| 0 <= j < k - 1 implies !spec_sep_at(t, j) by {
            assert(!spec_sep_at(s, j + 1));
            assert(t[j] == s[j + 1]);
            if 0 <= j && j + 1 < t.len() {
                assert(t[j + 1] == s[j + 2]);
            }
        }
        if k < s.len() {
            assert(spec_sep_at(s, k));
            assert(t[k - 1] == s[k]);
            assert(t[k] == s[k + 1]);
            assert(spec_sep_at(t, k - 1));
        }
        lemma_first_sep_at(t, k - 1);
    }
}

/// The pieces of the text between its list separators, in order; a text
/// without a separator is a single piece, even when it is empty.
pub open spec fn spec_split_commas(s: Seq<char>) -> Seq<Seq<char>>
    decreases s.len(),
{
    let i = spec_first_sep(s);
    if 0 <= i && i + 2 <= s.len() && spec_sep_at(s, i) {
        seq![s.take(i)] + spec_split_commas(s.skip(i + 2))
    } else {
        seq![s]
    }
}

/// Splits the comma-and-space separated list the host wrote into a
/// buffer.  The host also reports how many entries it wrote; a mismatch
/// means the buffer was too small for the content and is rejected.
pub fn split_values_by_comma(input: &String, num_expected: usize) -> (r: Result<
    Vec<String>,
    XwfError,
>)
    ensures
        r is Ok <==> spec_split_commas(input@).len() == num_expected,
        r matches Ok(v) ==> v.deep_view() == spec_split_commas(input@),
        r is Err ==> r == Err::<Vec<String>, XwfError>(XwfError::GivenBufferToSmallForContent),
{
    let s = input.as_str();
    let n = s.unicode_len();
    let mut pieces: Vec<String> = Vec::new();
    let mut start: usize = 0;
    let mut i: usize = 0;
    proof {
        assert(input@.skip(0) =~= input@);
        assert(pieces.deep_view() =~= Seq::<Seq<char>>::empty());
        assert(spec_split_commas(input@) == pieces.deep_view() + spec_split_commas(
            input@.skip(start as int),
        ));
    }
    while i < n
        invariant
            input@.len() == n,
            s@ == input@,
            start <= i <= n,
            forall|j: int| start <= j < i ==> !spec_sep_at(input@, j),
            spec_split_commas(input@) == pieces.deep_view() + spec_split_commas(
                input@.skip(start as int),
            ),
        decreases n - i,
    {
        let c = s.get_char(i);
        if c == ',' && i + 1 < n && s.get_char(i + 1) == ' ' {
            let piece = s.substring_char(start, i).to_owned();
            proof {
                let t = input@.skip(start as int);
                let k = i - start;
                assert forall|j: int| 0 <= j < k implies !spec_sep_at(t, j) by {
                    assert(!spec_sep_at(input@, start + j));
                    assert(t[j] == input@[start + j]);
                    if j + 1 < t.len() {
                        assert(t[j + 1] == input@[start + j + 1]);
                    }
                }
                assert(t[k] == input@[i as int]);
                assert(t[k + 1] == input@[i + 1]);
                assert(spec_sep_at(t, k));
                lemma_first_sep_at(t, k);
                assert(t.take(k) =~= input@.subrange(start as int, i as int));
                assert(t.skip(k + 2) =~= input@.skip(i + 2));
                assert(spec_split_commas(t) == seq![input@.subrange(start as int, i as int)]
                    + spec_split_commas(input@.skip(i + 2)));
                assert(piece@ == input@.subrange(start as int, i as int));
                let old_pieces = pieces.deep_view();
                assert((pieces@.push(piece)).len() == pieces@.len() + 1);
            }
            let ghost pieces_before = pieces.deep_view();
            pieces.push(piece);
            proof {
                assert(pieces.deep_view() =~= pieces_before.push(
                    input@.subrange(start as int, i as int),
                ));
                assert(pieces_before.push(input@.subrange(start as int, i as int))
                    + spec_split_commas(input@.skip(i + 2)) =~= pieces_before + (seq![
                    input@.subrange(start as int, i as int),
                ] + spec_split_commas(input@.skip(i + 2))));
            }
            start = i + 2;
            i = i + 2;
        } else {
            proof {
                if spec_sep_at(input@, i as int) {
                    assert(input@[i as int] == ',');
                    assert(input@[i + 1] == ' ');
                    assert(false);
                }
            }
            i += 1;
        }
    }
    let last = s.substring_char(start, n).to_owned();
    proof {
        let t = input@.skip(start as int);
        assert forall|j: int| 0 <= j < t.len() implies !spec_sep_at(t, j) by {
            assert(!spec_sep_at(input@, start + j));
            assert(t[j] == input@[start + j]);
            if j + 1 < t.len() {
                assert(t[j + 1] == input@[start + j + 1]);
            }
        }
        lemma_first_sep_at(t, t.len() as int);
        assert(spec_split_commas(t) == seq![t]);
        assert(t =~= input@.subrange(start as int, n as int));
        assert(last@ == t);
    }
    let ghost pieces_before = pieces.deep_view();
    pieces.push(last);
    proof {
        assert(pieces.deep_view() =~= pieces_before.push(input@.skip(start as int)));
        assert(pieces_before.push(input@.skip(start as int)) =~= pieces_before + seq![
            input@.skip(start as int),
        ]);
        assert(pieces.deep_view() == spec_split_commas(input@));
    }
    if pieces.len() != num_expected {
        Err(XwfError::GivenBufferToSmallForContent)
    } else {
        Ok(pieces)
    }
}

} // verus!
