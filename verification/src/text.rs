//! Text: concatenation, joining, decimal numbers, comparison and byte lengths.

use vstd::prelude::*;
use vstd::utf8::*;

verus! {

/// Appends one character to a `String` (`String::push`): the contents grow by that
/// character at the end.
pub assume_specification[ String::push ](s: &mut String, c: char)
    ensures
        final(s)@ == old(s)@.push(c),
;

/// The contents of each of several strings.
pub open spec fn texts(items: Seq<String>) -> Seq<Seq<char>> {
    items.map_values(|s: String| s@)
}

/// The contents of each of several string slices.
pub open spec fn strs(items: Seq<&str>) -> Seq<Seq<char>> {
    items.map_values(|s: &str| s@)
}

/// The contents of a text that may be missing.
pub open spec fn text_of(text: Option<&str>) -> Option<Seq<char>> {
    match text {
        Some(text) => Some(text@),
        None => None,
    }
}

/// The contents of a string that may be missing.
pub open spec fn string_of(text: Option<String>) -> Option<Seq<char>> {
    match text {
        Some(text) => Some(text@),
        None => None,
    }
}

/// A string that may be missing, as a slice.
pub fn as_text(text: &Option<String>) -> (slice: Option<&str>)
    ensures
        text_of(slice) == string_of(*text),
{
    match text {
        Some(text) => Some(text.as_str()),
        None => None,
    }
}

/// Adding a string adds its contents.
pub broadcast proof fn lemma_texts_push(items: Seq<String>, item: String)
    ensures
        #[trigger] texts(items.push(item)) == texts(items).push(item@),
{
    assert(texts(items.push(item)) =~= texts(items).push(item@));
}

/// Number of bytes that a text takes in UTF-8.
pub open spec fn byte_len(s: Seq<char>) -> nat {
    encode_utf8(s).len()
}

/// The bytes of two texts in a row are the bytes of the one and then those of the other.
pub proof fn lemma_encode_concat(a: Seq<char>, b: Seq<char>)
    ensures
        encode_utf8(a + b) == encode_utf8(a) + encode_utf8(b),
    decreases a.len(),
{
    if a.len() == 0 {
        assert(a + b =~= b);
    } else {
        lemma_encode_concat(a.drop_first(), b);
        assert((a + b).drop_first() =~= a.drop_first() + b);
        assert((a + b)[0] == a[0]);
    }
}

/// Byte lengths add up.
pub proof fn lemma_byte_len_concat(a: Seq<char>, b: Seq<char>)
    ensures
        byte_len(a + b) == byte_len(a) + byte_len(b),
{
    lemma_encode_concat(a, b);
}

/// Texts with the same bytes are the same text.
pub proof fn lemma_encode_injective(a: Seq<char>, b: Seq<char>)
    requires
        encode_utf8(a) == encode_utf8(b),
    ensures
        a == b,
{
    encode_utf8_decode_utf8(a);
    encode_utf8_decode_utf8(b);
}

/// Number of bytes of a text.
pub fn byte_length(s: &str) -> (len: usize)
    ensures
        len == byte_len(s@),
{
    s.as_bytes().len()
}

/// Whether two texts are the same.
pub fn same_text(a: &str, b: &str) -> (same: bool)
    ensures
        same == (a@ == b@),
{
    let left: &[u8] = a.as_bytes();
    let right: &[u8] = b.as_bytes();
    if left.len() != right.len() {
        return false;
    }
    let mut i: usize = 0;
    while i < left.len()
        invariant
            i <= left@.len(),
            left@.len() == right@.len(),
            left@ == encode_utf8(a@),
            right@ == encode_utf8(b@),
            forall|k: int| 0 <= k < i ==> left@[k] == right@[k],
        decreases left@.len() - i,
    {
        if left[i] != right[i] {
            return false;
        }
        i += 1;
    }
    proof {
        assert(left@ =~= right@);
        lemma_encode_injective(a@, b@);
    }
    true
}

/// An owned copy of a text.
pub fn owned(s: &str) -> (copy: String)
    ensures
        copy@ == s@,
{
    s.to_owned()
}

/// Two texts in a row.
pub fn concat2(a: &str, b: &str) -> (whole: String)
    ensures
        whole@ == a@ + b@,
{
    let mut whole = a.to_owned();
    whole.append(b);
    whole
}

/// Three texts in a row.
pub fn concat3(a: &str, b: &str, c: &str) -> (whole: String)
    ensures
        whole@ == a@ + b@ + c@,
{
    let mut whole = concat2(a, b);
    whole.append(c);
    whole
}

/// Four texts in a row.
pub fn concat4(a: &str, b: &str, c: &str, d: &str) -> (whole: String)
    ensures
        whole@ == a@ + b@ + c@ + d@,
{
    let mut whole = concat3(a, b, c);
    whole.append(d);
    whole
}

/// Five texts in a row.
pub fn concat5(a: &str, b: &str, c: &str, d: &str, e: &str) -> (whole: String)
    ensures
        whole@ == a@ + b@ + c@ + d@ + e@,
{
    let mut whole = concat4(a, b, c, d);
    whole.append(e);
    whole
}

/// Texts joined by a separator that stands between neighbours only.
pub open spec fn join(parts: Seq<Seq<char>>, separator: Seq<char>) -> Seq<char>
    decreases parts.len(),
{
    if parts.len() == 0 {
        Seq::empty()
    } else if parts.len() == 1 {
        parts[0]
    } else {
        join(parts.drop_last(), separator) + separator + parts.last()
    }
}

/// Joins strings by a separator.
pub fn join_texts(parts: &Vec<String>, separator: &str) -> (whole: String)
    ensures
        whole@ == join(texts(parts@), separator@),
{
    let mut whole = String::new();
    let mut i: usize = 0;
    while i < parts.len()
        invariant
            i <= parts@.len(),
            whole@ == join(texts(parts@).take(i as int), separator@),
        decreases parts@.len() - i,
    {
        proof {
            let next = texts(parts@).take(i + 1);
            assert(next.drop_last() =~= texts(parts@).take(i as int));
            assert(next.last() == parts@[i as int]@);
            if i == 0 {
                assert(next[0] == parts@[0]@);
                assert(whole@ + parts@[0]@ =~= parts@[0]@);
            }
        }
        if i > 0 {
            whole.append(separator);
        }
        whole.append(parts[i].as_str());
        i += 1;
    }
    assert(texts(parts@).take(i as int) =~= texts(parts@));
    whole
}

/// Owned copies of texts, in order.
pub fn owned_all(parts: &[&str]) -> (copies: Vec<String>)
    ensures
        texts(copies@) == strs(parts@),
{
    let mut copies: Vec<String> = Vec::new();
    let mut i: usize = 0;
    while i < parts.len()
        invariant
            i <= parts@.len(),
            texts(copies@) == strs(parts@).take(i as int),
        decreases parts@.len() - i,
    {
        broadcast use lemma_texts_push;

        copies.push(parts[i].to_owned());
        i += 1;
        assert(texts(copies@) =~= strs(parts@).take(i as int));
    }
    assert(texts(copies@) =~= strs(parts@));
    copies
}

/// Copies of strings, in order.
pub fn copied(parts: &Vec<String>) -> (copies: Vec<String>)
    ensures
        texts(copies@) == texts(parts@),
{
    let mut copies: Vec<String> = Vec::new();
    let mut i: usize = 0;
    while i < parts.len()
        invariant
            i <= parts@.len(),
            texts(copies@) == texts(parts@).take(i as int),
        decreases parts@.len() - i,
    {
        broadcast use lemma_texts_push;

        copies.push(parts[i].clone());
        i += 1;
        assert(texts(copies@) =~= texts(parts@).take(i as int));
    }
    assert(texts(copies@) =~= texts(parts@));
    copies
}

/// Whether a text is among several.
pub fn contains_text(items: &Vec<String>, text: &str) -> (found: bool)
    ensures
        found == texts(items@).contains(text@),
{
    let mut i: usize = 0;
    while i < items.len()
        invariant
            i <= items@.len(),
            forall|k: int| 0 <= k < i ==> texts(items@)[k] != text@,
        decreases items@.len() - i,
    {
        assert(texts(items@)[i as int] == items@[i as int]@);
        if same_text(items[i].as_str(), text) {
            return true;
        }
        i += 1;
    }
    false
}

/// A decimal digit.
pub open spec fn digit(n: nat) -> char {
    if n == 0 {
        '0'
    } else if n == 1 {
        '1'
    } else if n == 2 {
        '2'
    } else if n == 3 {
        '3'
    } else if n == 4 {
        '4'
    } else if n == 5 {
        '5'
    } else if n == 6 {
        '6'
    } else if n == 7 {
        '7'
    } else if n == 8 {
        '8'
    } else {
        '9'
    }
}

/// A number in decimal, without leading zeros.
pub open spec fn decimal(n: nat) -> Seq<char>
    decreases n,
{
    if n < 10 {
        seq![digit(n)]
    } else {
        decimal(n / 10).push(digit(n % 10))
    }
}

/// The character of a decimal digit.
fn digit_char(n: u64) -> (c: char)
    requires
        n < 10,
    ensures
        c == digit(n as nat),
{
    if n == 0 {
        '0'
    } else if n == 1 {
        '1'
    } else if n == 2 {
        '2'
    } else if n == 3 {
        '3'
    } else if n == 4 {
        '4'
    } else if n == 5 {
        '5'
    } else if n == 6 {
        '6'
    } else if n == 7 {
        '7'
    } else if n == 8 {
        '8'
    } else {
        '9'
    }
}

/// Writes a long number in decimal.
pub fn long_decimal_text(n: u64) -> (text: String)
    ensures
        text@ == decimal(n as nat),
    decreases n,
{
    if n < 10 {
        let mut text = String::new();
        text.push(digit_char(n));
        assert(text@ =~= decimal(n as nat));
        text
    } else {
        let mut text = long_decimal_text(n / 10);
        text.push(digit_char(n % 10));
        text
    }
}

/// Writes a number in decimal.
pub fn decimal_text(n: usize) -> (text: String)
    ensures
        text@ == decimal(n as nat),
{
    long_decimal_text(n as u64)
}

/// Whether a character is white space (Unicode's `White_Space`).
pub open spec fn is_white_space(c: char) -> bool {
    ||| '\u{9}' <= c <= '\u{d}'
    ||| c == ' '
    ||| c == '\u{85}'
    ||| c == '\u{a0}'
    ||| c == '\u{1680}'
    ||| '\u{2000}' <= c <= '\u{200a}'
    ||| c == '\u{2028}'
    ||| c == '\u{2029}'
    ||| c == '\u{202f}'
    ||| c == '\u{205f}'
    ||| c == '\u{3000}'
}

/// Whether a character is white space.
pub fn white_space(c: char) -> (white: bool)
    ensures
        white == is_white_space(c),
{
    ('\u{9}' <= c && c <= '\u{d}') || c == ' ' || c == '\u{85}' || c == '\u{a0}' || c == '\u{1680}'
        || ('\u{2000}' <= c && c <= '\u{200a}') || c == '\u{2028}' || c == '\u{2029}' || c
        == '\u{202f}' || c == '\u{205f}' || c == '\u{3000}'
}

/// The characters of a text.
pub fn chars_of(s: &str) -> (chars: Vec<char>)
    ensures
        chars@ == s@,
{
    let mut chars: Vec<char> = Vec::new();
    for c in it: s.chars()
        invariant
            it.seq() == s@,
            chars@ == s@.take(it.index() as int),
    {
        chars.push(c);
        assert(chars@ =~= s@.take(it.index() + 1));
    }
    assert(chars@ =~= s@);
    chars
}

/// The text of some characters.
pub fn text_of_chars(chars: &[char]) -> (text: String)
    ensures
        text@ == chars@,
{
    let mut text = String::new();
    let mut i: usize = 0;
    while i < chars.len()
        invariant
            i <= chars@.len(),
            text@ == chars@.take(i as int),
        decreases chars@.len() - i,
    {
        text.push(chars[i]);
        i += 1;
        assert(text@ =~= chars@.take(i as int));
    }
    assert(text@ =~= chars@);
    text
}

/// The rest of a text behind a prefix, where it starts with it.
pub fn strip_prefix(s: &str, prefix: &str) -> (rest: Option<String>)
    ensures
        match rest {
            Some(rest) => prefix@.is_prefix_of(s@) && rest@ == s@.skip(prefix@.len() as int),
            None => !prefix@.is_prefix_of(s@),
        },
{
    let mut chars = chars_of(s);
    let start = chars_of(prefix);
    if start.len() > chars.len() {
        return None;
    }
    let mut i: usize = 0;
    while i < start.len()
        invariant
            i <= start@.len() <= chars@.len(),
            chars@ == s@,
            start@ == prefix@,
            forall|k: int| 0 <= k < i ==> chars@[k] == start@[k],
        decreases start@.len() - i,
    {
        if chars[i] != start[i] {
            assert(s@.subrange(0, prefix@.len() as int)[i as int] != prefix@[i as int]);
            return None;
        }
        i += 1;
    }
    assert(prefix@ =~= s@.subrange(0, prefix@.len() as int));
    let rest = chars.split_off(start.len());
    assert(rest@ =~= s@.skip(prefix@.len() as int));
    Some(text_of_chars(rest.as_slice()))
}

/// A text without the white space at its end.
pub open spec fn trimmed_end(s: Seq<char>) -> Seq<char>
    decreases s.len(),
{
    if s.len() > 0 && is_white_space(s.last()) {
        trimmed_end(s.drop_last())
    } else {
        s
    }
}

/// A text without the white space at its start.
pub open spec fn trimmed_start(s: Seq<char>) -> Seq<char>
    decreases s.len(),
{
    if s.len() > 0 && is_white_space(s[0]) {
        trimmed_start(s.drop_first())
    } else {
        s
    }
}

/// A text without the white space at both ends.
pub open spec fn trimmed(s: Seq<char>) -> Seq<char> {
    trimmed_end(trimmed_start(s))
}

/// Drops the white space at the end.
pub fn trim_end(s: &str) -> (chars: Vec<char>)
    ensures
        chars@ == trimmed_end(s@),
{
    let mut chars = chars_of(s);
    while chars.len() > 0 && white_space(chars[chars.len() - 1])
        invariant
            trimmed_end(chars@) == trimmed_end(s@),
        decreases chars@.len(),
    {
        let ghost before = chars@;
        chars.pop();
        assert(chars@ =~= before.drop_last());
    }
    chars
}

/// Drops the white space at both ends.
pub fn trim(s: &str) -> (chars: Vec<char>)
    ensures
        chars@ == trimmed(s@),
{
    let mut chars = chars_of(s);
    let mut start: usize = 0;
    assert(s@.skip(0) =~= s@);
    while start < chars.len() && white_space(chars[start])
        invariant
            chars@ == s@,
            start <= chars@.len(),
            trimmed_start(s@.skip(start as int)) == trimmed_start(s@),
        decreases chars@.len() - start,
    {
        assert(s@.skip(start as int).drop_first() =~= s@.skip(start + 1));
        start += 1;
    }
    let rest = chars.split_off(start);
    assert(rest@ =~= s@.skip(start as int));
    trim_end(text_of_chars(rest.as_slice()).as_str())
}

/// The text that bytes stand for, as the standard library reads them where they need not be
/// UTF-8.
pub uninterp spec fn lossy_text(bytes: Seq<u8>) -> Seq<char>;

/// Whether bytes, where they are UTF-8, are read as the text that they encode.
pub open spec fn keeps_utf8(bytes: Seq<u8>) -> bool {
    valid_utf8(bytes) ==> encode_utf8(lossy_text(bytes)) == bytes
}

/// Reads bytes as text with `String::from_utf8_lossy`.
///
/// Claimed of it: the text is a function of the bytes, and bytes that are UTF-8 are kept.
#[verifier::external_body]
pub(crate) fn read_lossy(bytes: &[u8]) -> (text: String)
    ensures
        text@ == lossy_text(bytes@),
        valid_utf8(bytes@) ==> encode_utf8(text@) == bytes@,
{
    String::from_utf8_lossy(bytes).into_owned()
}

/// Finds the next zero byte.
pub(crate) fn record_end(output: &[u8], start: usize) -> (end: usize)
    requires
        start <= output@.len(),
    ensures
        start <= end <= output@.len(),
        output@.skip(start as int).index_of_first(0u8) == (if end < output@.len() {
            Some(end - start)
        } else {
            None
        }),
{
    let ghost rest = output@.skip(start as int);
    let mut end: usize = start;
    while end < output.len()
        invariant
            start <= end <= output@.len(),
            rest == output@.skip(start as int),
            forall|k: int| 0 <= k < end - start ==> rest[k] != 0u8,
        decreases output@.len() - end,
    {
        if output[end] == 0 {
            proof {
                rest.index_of_first_ensures(0u8);
                assert(rest[end - start] == 0u8);
                assert(rest.contains(0u8));
            }
            return end;
        }
        assert(rest[end - start] == output@[end as int]);
        end += 1;
    }
    proof {
        rest.index_of_first_ensures(0u8);
    }
    end
}

/// The pieces of a sequence between its separators.
pub open spec fn split<T>(items: Seq<T>, separator: T) -> Seq<Seq<T>>
    decreases items.len(),
    via split_decreases::<T>
{
    match items.index_of_first(separator) {
        None => seq![items],
        Some(at) => seq![items.take(at)] + split(items.skip(at + 1), separator),
    }
}

#[via_fn]
proof fn split_decreases<T>(items: Seq<T>, separator: T) {
    items.index_of_first_ensures(separator);
}

/// Whether a text comes before another: by the first character in which they differ, the
/// shorter one first where there is none. On UTF-8 this is the order of the bytes.
pub open spec fn precedes(a: Seq<char>, b: Seq<char>) -> bool
    decreases a.len(),
{
    if b.len() == 0 {
        false
    } else if a.len() == 0 {
        true
    } else if a[0] == b[0] {
        precedes(a.drop_first(), b.drop_first())
    } else {
        a[0] < b[0]
    }
}

/// No text comes before itself, and of two texts one comes first.
pub proof fn lemma_precedes_total(a: Seq<char>, b: Seq<char>)
    ensures
        precedes(a, b) || precedes(b, a) || a == b,
        !(precedes(a, b) && precedes(b, a)),
        a == b ==> !precedes(a, b),
    decreases a.len(),
{
    if a.len() > 0 && b.len() > 0 && a[0] == b[0] {
        lemma_precedes_total(a.drop_first(), b.drop_first());
        if a.drop_first() == b.drop_first() {
            assert(a =~= seq![a[0]] + a.drop_first());
            assert(b =~= seq![b[0]] + b.drop_first());
        }
    } else if a.len() == 0 && b.len() == 0 {
        assert(a =~= b);
    }
}

/// Coming before is transitive.
pub proof fn lemma_precedes_transitive(a: Seq<char>, b: Seq<char>, c: Seq<char>)
    requires
        precedes(a, b),
        precedes(b, c),
    ensures
        precedes(a, c),
    decreases a.len(),
{
    if a.len() > 0 && b.len() > 0 && c.len() > 0 && a[0] == b[0] && b[0] == c[0] {
        lemma_precedes_transitive(a.drop_first(), b.drop_first(), c.drop_first());
    }
}

/// Whether texts stand in order, each of them once.
pub open spec fn ascending(items: Seq<Seq<char>>) -> bool {
    forall|i: int, j: int| 0 <= i < j < items.len() ==> precedes(#[trigger] items[i], #[trigger] items[j])
}

/// Whether a text comes before another.
pub fn comes_before(a: &str, b: &str) -> (before: bool)
    ensures
        before == precedes(a@, b@),
{
    let left = chars_of(a);
    let right = chars_of(b);
    let mut i: usize = 0;
    assert(a@.skip(0) =~= a@);
    assert(b@.skip(0) =~= b@);
    while i < left.len() && i < right.len() && left[i] == right[i]
        invariant
            left@ == a@,
            right@ == b@,
            i <= left@.len(),
            i <= right@.len(),
            precedes(a@, b@) == precedes(a@.skip(i as int), b@.skip(i as int)),
        decreases left@.len() - i,
    {
        assert(a@.skip(i as int).drop_first() =~= a@.skip(i + 1));
        assert(b@.skip(i as int).drop_first() =~= b@.skip(i + 1));
        i += 1;
    }
    if i == right.len() {
        false
    } else if i == left.len() {
        true
    } else {
        left[i] < right[i]
    }
}

/// Puts a text into a list that stands in order, unless it is there.
pub fn insert_in_order(items: &mut Vec<String>, item: &str)
    requires
        ascending(texts(old(items)@)),
    ensures
        ascending(texts(final(items)@)),
        forall|text: Seq<char>|
            texts(final(items)@).contains(text) <==> texts(old(items)@).contains(text) || text
                == item@,
{
    let ghost all = texts(items@);
    let mut at: usize = 0;
    while at < items.len() && comes_before(items[at].as_str(), item)
        invariant
            all == texts(items@),
            at <= items@.len(),
            forall|k: int| 0 <= k < at ==> precedes(#[trigger] all[k], item@),
        decreases items@.len() - at,
    {
        assert(all[at as int] == items@[at as int]@);
        at += 1;
    }
    if at < items.len() && same_text(items[at].as_str(), item) {
        assert(all[at as int] == item@);
        return;
    }
    items.insert(at, owned(item));
    proof {
        let after = texts(items@);
        assert(after =~= all.insert(at as int, item@));
        if at < all.len() {
            lemma_precedes_total(all[at as int], item@);
        }
        assert forall|i: int, j: int| 0 <= i < j < after.len() implies precedes(
            #[trigger] after[i],
            #[trigger] after[j],
        ) by {
            if i < at && j > at {
                assert(precedes(all[i], all[j - 1]));
            } else if i == at {
                if j - 1 > at {
                    assert(precedes(all[at as int], all[j - 1]));
                    lemma_precedes_transitive(item@, all[at as int], all[j - 1]);
                }
            } else if i > at {
                assert(precedes(all[i - 1], all[j - 1]));
            } else if j < at {
                assert(precedes(all[i], all[j]));
            }
        }
        assert forall|text: Seq<char>| after.contains(text) <==> all.contains(text) || text
            == item@ by {
            if all.contains(text) {
                let k = choose|k: int| 0 <= k < all.len() && all[k] == text;
                if k < at {
                    assert(after[k] == text);
                } else {
                    assert(after[k + 1] == text);
                }
            }
            assert(after[at as int] == item@);
            if after.contains(text) {
                let k = choose|k: int| 0 <= k < after.len() && after[k] == text;
                if k < at {
                    assert(all[k] == text);
                } else if k > at {
                    assert(all[k - 1] == text);
                }
            }
        }
    }
}

/// The contents of pieces of text.
pub open spec fn pieces_of(pieces: Seq<Vec<char>>) -> Seq<Seq<char>> {
    pieces.map_values(|piece: Vec<char>| piece@)
}

/// Cuts characters at a separator.
pub fn split_chars(chars: &[char], separator: char) -> (pieces: Vec<Vec<char>>)
    ensures
        pieces_of(pieces@) == split(chars@, separator),
{
    let ghost whole = split(chars@, separator);
    let mut pieces: Vec<Vec<char>> = Vec::new();
    let mut piece: Vec<char> = Vec::new();
    let ghost mut start: int = 0;
    let mut i: usize = 0;
    proof {
        assert(chars@.skip(0) =~= chars@);
        assert(pieces_of(pieces@) + split(chars@.skip(0), separator) =~= whole);
    }
    while i < chars.len()
        invariant
            i <= chars@.len(),
            0 <= start <= i,
            whole == split(chars@, separator),
            piece@ == chars@.subrange(start, i as int),
            !piece@.contains(separator),
            whole == pieces_of(pieces@) + split(chars@.skip(start), separator),
        decreases chars@.len() - i,
    {
        let c = chars[i];
        let ghost rest = chars@.skip(start);
        let ghost done = pieces_of(pieces@);
        if c == separator {
            proof {
                rest.index_of_first_ensures(separator);
                assert(rest[i - start] == separator);
                assert(rest.contains(separator));
                let at = rest.index_of_first(separator)->0;
                if at < i - start {
                    assert(piece@[at] == rest[at]);
                }
                assert(at == i - start);
                assert(rest.take(at) =~= piece@);
                assert(rest.skip(at + 1) =~= chars@.skip(i + 1));
                assert(split(rest, separator) == seq![rest.take(at)] + split(
                    rest.skip(at + 1),
                    separator,
                ));
            }
            let mut next: Vec<char> = Vec::new();
            std::mem::swap(&mut next, &mut piece);
            pieces.push(next);
            proof {
                start = i + 1;
                assert(pieces_of(pieces@) =~= done.push(next@));
                assert(whole =~= pieces_of(pieces@) + split(chars@.skip(start), separator));
                assert(piece@ =~= chars@.subrange(start, i + 1));
            }
        } else {
            let ghost before = piece@;
            piece.push(c);
            proof {
                assert(piece@ =~= chars@.subrange(start, i + 1));
                if piece@.contains(separator) {
                    let k = choose|k: int| 0 <= k < piece@.len() && piece@[k] == separator;
                    assert(k < before.len());
                    assert(before[k] == separator);
                }
            }
        }
        i += 1;
    }
    proof {
        let rest = chars@.skip(start);
        assert(rest =~= piece@);
        rest.index_of_first_ensures(separator);
        assert(split(rest, separator) =~= seq![rest]);
    }
    let ghost done = pieces_of(pieces@);
    pieces.push(piece);
    assert(pieces_of(pieces@) =~= done.push(piece@));
    assert(pieces_of(pieces@) =~= whole);
    pieces
}

/// Whether a character is a decimal digit.
pub open spec fn is_digit(c: char) -> bool {
    '0' <= c <= '9'
}

/// The number that decimal digits stand for.
pub open spec fn digits_value(digits: Seq<char>) -> nat
    decreases digits.len(),
{
    if digits.len() == 0 {
        0
    } else {
        digits_value(digits.drop_last()) * 10 + (digits.last() as nat - '0' as nat) as nat
    }
}

/// Whether all characters of a text are decimal digits.
pub open spec fn all_digits(text: Seq<char>) -> bool {
    forall|i: int| 0 <= i < text.len() ==> is_digit(#[trigger] text[i])
}

/// A text without the plus sign that it may start with.
pub open spec fn without_plus(text: Seq<char>) -> Seq<char> {
    if text.len() > 0 && text[0] == '+' {
        text.skip(1)
    } else {
        text
    }
}

/// The number that a text stands for: decimal digits, behind a plus sign or not, whose value
/// fits.
pub open spec fn number_of(text: Seq<char>) -> Option<usize> {
    let digits = without_plus(text);
    if digits.len() > 0 && all_digits(digits) && digits_value(digits) <= usize::MAX {
        Some(digits_value(digits) as usize)
    } else {
        None
    }
}

/// Reads a number.
pub fn parse_number(text: &str) -> (number: Option<usize>)
    ensures
        number == number_of(text@),
{
    let chars = chars_of(text);
    let start: usize = if chars.len() > 0 && chars[0] == '+' {
        1
    } else {
        0
    };
    let ghost digits = text@.skip(start as int);
    assert(digits =~= without_plus(text@));
    if start == chars.len() {
        return None;
    }
    let mut value: usize = 0;
    let mut i: usize = start;
    let mut fits = true;
    while i < chars.len()
        invariant
            chars@ == text@,
            start <= i <= chars@.len(),
            start <= 1,
            digits == text@.skip(start as int),
            digits == without_plus(text@),
            forall|k: int| 0 <= k < i - start ==> is_digit(#[trigger] digits[k]),
            fits ==> value == digits_value(digits.take(i - start)),
            !fits ==> digits_value(digits.take(i - start)) > usize::MAX,
        decreases chars@.len() - i,
    {
        let c = chars[i];
        assert(digits[i - start] == c);
        if !('0' <= c && c <= '9') {
            assert(!is_digit(digits[i - start]));
            return None;
        }
        proof {
            assert(digits.take(i - start + 1).drop_last() =~= digits.take(i - start));
            assert(digits.take(i - start + 1).last() == c);
        }
        if fits {
            let digit: usize = (c as u32 - 0x30) as usize;
            match value.checked_mul(10) {
                Some(tens) => match tens.checked_add(digit) {
                    Some(next) => {
                        value = next;
                    },
                    None => {
                        fits = false;
                    },
                },
                None => {
                    fits = false;
                },
            }
        }
        i += 1;
    }
    assert(digits.take(i - start) =~= digits);
    if fits {
        Some(value)
    } else {
        None
    }
}

/// The parts of a POSIX path that name something. The slash is the only separator.
pub open spec fn path_parts(path: Seq<char>) -> Seq<Seq<char>> {
    split(path, '/').filter(|part: Seq<char>| part.len() > 0 && part != "."@)
}

/// Whether two texts are the same POSIX path: they start alike, at the root or at the current
/// directory or elsewhere, and name the same parts. Repeated and trailing slashes, and single
/// dots inside, make no difference. A backslash is a character like any other, and no text
/// names a drive.
pub open spec fn are_same_path(a: Seq<char>, b: Seq<char>) -> bool {
    &&& (a.len() > 0 && a[0] == '/') == (b.len() > 0 && b[0] == '/')
    &&& (split(a, '/')[0] == "."@) == (split(b, '/')[0] == "."@)
    &&& path_parts(a) == path_parts(b)
}

/// The parts of a path that name something, from its pieces.
fn named_parts(pieces: &Vec<Vec<char>>) -> (parts: Vec<String>)
    ensures
        texts(parts@) == pieces_of(pieces@).filter(
            |part: Seq<char>| part.len() > 0 && part != "."@,
        ),
{
    let ghost all = pieces_of(pieces@);
    let ghost named = |part: Seq<char>| part.len() > 0 && part != "."@;
    let mut parts: Vec<String> = Vec::new();
    let mut i: usize = 0;
    proof {
        reveal(Seq::filter);
        assert(texts(parts@) =~= all.take(0).filter(named));
    }
    while i < pieces.len()
        invariant
            i <= pieces@.len(),
            all == pieces_of(pieces@),
            named == (|part: Seq<char>| part.len() > 0 && part != "."@),
            texts(parts@) == all.take(i as int).filter(named),
        decreases pieces@.len() - i,
    {
        broadcast use lemma_texts_push;

        proof {
            reveal(Seq::filter);
            assert(all.take(i + 1).drop_last() =~= all.take(i as int));
            assert(all.take(i + 1).last() == pieces@[i as int]@);
        }
        let part = text_of_chars(pieces[i].as_slice());
        if pieces[i].len() > 0 && !same_text(part.as_str(), ".") {
            parts.push(part);
        }
        i += 1;
    }
    assert(all.take(i as int) =~= all);
    parts
}

/// A sequence has a piece before its first separator.
pub proof fn lemma_split_nonempty<T>(items: Seq<T>, separator: T)
    ensures
        split(items, separator).len() > 0,
{
    items.index_of_first_ensures(separator);
}

/// Whether two texts are the same POSIX path.
pub fn same_path(a: &str, b: &str) -> (same: bool)
    ensures
        same == are_same_path(a@, b@),
{
    let left = chars_of(a);
    let right = chars_of(b);
    let left_root = left.len() > 0 && left[0] == '/';
    let right_root = right.len() > 0 && right[0] == '/';
    let left_pieces = split_chars(left.as_slice(), '/');
    let right_pieces = split_chars(right.as_slice(), '/');
    proof {
        lemma_split_nonempty(a@, '/');
        lemma_split_nonempty(b@, '/');
        assert(pieces_of(left_pieces@).len() == left_pieces@.len());
        assert(pieces_of(right_pieces@).len() == right_pieces@.len());
    }
    let left_start = text_of_chars(left_pieces[0].as_slice());
    let right_start = text_of_chars(right_pieces[0].as_slice());
    let left_dot = same_text(left_start.as_str(), ".");
    let right_dot = same_text(right_start.as_str(), ".");
    let left_parts = named_parts(&left_pieces);
    let right_parts = named_parts(&right_pieces);
    proof {
        assert(split(a@, '/')[0] == left_pieces@[0]@);
        assert(split(b@, '/')[0] == right_pieces@[0]@);
        assert(texts(left_parts@).len() == left_parts@.len());
        assert(texts(right_parts@).len() == right_parts@.len());
    }
    if left_root != right_root || left_dot != right_dot || left_parts.len() != right_parts.len() {
        return false;
    }
    let mut i: usize = 0;
    while i < left_parts.len()
        invariant
            i <= left_parts@.len() == right_parts@.len(),
            texts(left_parts@) == path_parts(a@),
            texts(right_parts@) == path_parts(b@),
            forall|k: int| 0 <= k < i ==> texts(left_parts@)[k] == texts(right_parts@)[k],
        decreases left_parts@.len() - i,
    {
        if !same_text(left_parts[i].as_str(), right_parts[i].as_str()) {
            assert(texts(left_parts@)[i as int] != texts(right_parts@)[i as int]);
            return false;
        }
        i += 1;
    }
    assert(texts(left_parts@) =~= texts(right_parts@));
    true
}

/// A line without the carriage return that its end may start with.
pub open spec fn without_return(line: Seq<char>) -> Seq<char> {
    if line.len() > 0 && line.last() == '\r' {
        line.drop_last()
    } else {
        line
    }
}

/// The lines of a text: what stands before each line end, and what stands behind the last one,
/// where anything does.
pub open spec fn lines_of(text: Seq<char>) -> Seq<Seq<char>> {
    let pieces = split(text, '\n');
    let ended = pieces.drop_last().map_values(|line: Seq<char>| without_return(line));
    if pieces.last().len() == 0 {
        ended
    } else {
        ended.push(pieces.last())
    }
}

/// Cuts a text into its lines.
pub fn lines(text: &str) -> (found: Vec<Vec<char>>)
    ensures
        pieces_of(found@) == lines_of(text@),
{
    let chars = chars_of(text);
    let mut pieces = split_chars(chars.as_slice(), '\n');
    let ghost all = split(text@, '\n');
    proof {
        lemma_split_nonempty(text@, '\n');
        assert(pieces_of(pieces@).len() == pieces@.len());
    }
    let last: usize = pieces.len() - 1;
    let mut i: usize = 0;
    while i < last
        invariant
            i <= last,
            pieces@.len() == last + 1,
            all.len() == last + 1,
            forall|k: int| 0 <= k < i ==> (#[trigger] pieces@[k])@ == without_return(all[k]),
            forall|k: int| i <= k <= last ==> (#[trigger] pieces@[k])@ == all[k],
        decreases last - i,
    {
        let length: usize = pieces[i].len();
        if length > 0 && pieces[i][length - 1] == '\r' {
            let mut line: Vec<char> = Vec::new();
            std::mem::swap(&mut line, &mut pieces[i]);
            line.pop();
            assert(line@ =~= all[i as int].drop_last());
            pieces.set(i, line);
        }
        i += 1;
    }
    if pieces[last].len() == 0 {
        pieces.pop();
    }
    assert(pieces_of(pieces@) =~= lines_of(text@));
    pieces
}

/// A character that is in no part and not in the separator is not in the whole.
pub proof fn lemma_join_without(parts: Seq<Seq<char>>, separator: Seq<char>, c: char)
    requires
        forall|i: int| 0 <= i < parts.len() ==> !(#[trigger] parts[i]).contains(c),
        !separator.contains(c),
    ensures
        !join(parts, separator).contains(c),
    decreases parts.len(),
{
    if parts.len() > 1 {
        let before = join(parts.drop_last(), separator);
        lemma_join_without(parts.drop_last(), separator, c);
        let whole = join(parts, separator);
        if whole.contains(c) {
            let k = choose|k: int| 0 <= k < whole.len() && whole[k] == c;
            if k < before.len() {
                assert(before.contains(before[k]));
            } else if k < before.len() + separator.len() {
                assert(separator.contains(separator[k - before.len()]));
            } else {
                let rest = k - before.len() - separator.len();
                assert(parts.last().contains(parts.last()[rest]));
            }
        }
    }
}

/// Cutting a text behind which a separator and a piece without one were written.
proof fn lemma_split_append(text: Seq<char>, piece: Seq<char>, c: char)
    requires
        !piece.contains(c),
    ensures
        split(text + seq![c] + piece, c) == split(text, c).push(piece),
    decreases text.len(),
{
    let whole = text + seq![c] + piece;
    text.index_of_first_ensures(c);
    whole.index_of_first_ensures(c);
    assert(whole[text.len() as int] == c);
    assert(whole.contains(c));
    let at = whole.index_of_first(c)->0;
    match text.index_of_first(c) {
        None => {
            if at < text.len() {
                assert(text[at] == c);
                assert(text.contains(text[at]));
            }
            assert(at == text.len());
            assert(whole.take(at) =~= text);
            assert(whole.skip(at + 1) =~= piece);
            piece.index_of_first_ensures(c);
            assert(split(piece, c) =~= seq![piece]);
            assert(split(text, c) =~= seq![text]);
            assert(split(whole, c) =~= seq![text] + seq![piece]);
        },
        Some(first) => {
            assert(whole[first] == c);
            if at < first {
                assert(text[at] == whole[at]);
            }
            assert(at == first);
            let rest = text.skip(first + 1);
            assert(whole.take(at) =~= text.take(first));
            assert(whole.skip(at + 1) =~= rest + seq![c] + piece);
            lemma_split_append(rest, piece, c);
            assert(split(whole, c) =~= split(text, c).push(piece));
        },
    }
}

/// Cutting at a separator undoes joining by it, where no part holds it.
pub proof fn lemma_split_join(parts: Seq<Seq<char>>, c: char)
    requires
        parts.len() > 0,
        forall|i: int| 0 <= i < parts.len() ==> !(#[trigger] parts[i]).contains(c),
    ensures
        split(join(parts, seq![c]), c) == parts,
    decreases parts.len(),
{
    let whole = join(parts, seq![c]);
    if parts.len() == 1 {
        whole.index_of_first_ensures(c);
        assert(whole == parts[0]);
        assert(split(whole, c) =~= seq![whole]);
        assert(parts =~= seq![parts[0]]);
    } else {
        let before = parts.drop_last();
        lemma_split_join(before, c);
        lemma_split_append(join(before, seq![c]), parts.last(), c);
        assert(parts =~= before.push(parts.last()));
    }
}

/// What stands before the first separator is the first piece.
pub proof fn lemma_split_first<T>(first: Seq<T>, rest: Seq<T>, separator: T)
    requires
        !first.contains(separator),
    ensures
        split(first + seq![separator] + rest, separator) == seq![first] + split(rest, separator),
{
    let whole = first + seq![separator] + rest;
    whole.index_of_first_ensures(separator);
    assert(whole[first.len() as int] == separator);
    assert(whole.contains(separator));
    let at = whole.index_of_first(separator).unwrap();
    assert(at == first.len()) by {
        if at < first.len() {
            assert(first[at] == separator);
            assert(first.contains(first[at]));
        }
    }
    assert(whole.take(at) =~= first);
    assert(whole.skip(at + 1) =~= rest);
}

/// Records, each with a zero byte behind it.
pub open spec fn recorded(records: Seq<Seq<u8>>) -> Seq<u8>
    decreases records.len(),
{
    if records.len() == 0 {
        Seq::empty()
    } else {
        records[0] + seq![0u8] + recorded(records.drop_first())
    }
}

/// The pieces of records and of what follows them are the records and the pieces of the rest.
pub proof fn lemma_split_recorded(records: Seq<Seq<u8>>, rest: Seq<u8>)
    requires
        forall|i: int| 0 <= i < records.len() ==> !(#[trigger] records[i]).contains(0u8),
    ensures
        split(recorded(records) + rest, 0u8) == records + split(rest, 0u8),
    decreases records.len(),
{
    if records.len() == 0 {
        assert(recorded(records) + rest =~= rest);
        assert(records + split(rest, 0u8) =~= split(rest, 0u8));
    } else {
        let others = records.drop_first();
        assert forall|i: int| 0 <= i < others.len() implies !(#[trigger] others[i]).contains(
            0u8,
        ) by {
            assert(others[i] == records[i + 1]);
        }
        lemma_split_recorded(others, rest);
        lemma_split_first(records[0], recorded(others) + rest, 0u8);
        assert(recorded(records) + rest =~= records[0] + seq![0u8] + (recorded(others) + rest));
        assert(seq![records[0]] + (others + split(rest, 0u8)) =~= records + split(rest, 0u8));
    }
}

/// A number has digits.
pub proof fn lemma_decimal_is_not_empty(n: nat)
    ensures
        decimal(n).len() > 0,
        decimal(n)[0] != '+',
    decreases n,
{
    if n >= 10 {
        lemma_decimal_is_not_empty(n / 10);
    }
}

proof fn lemma_decimal_digits(n: nat)
    ensures
        all_digits(decimal(n)),
        digits_value(decimal(n)) == n,
    decreases n,
{
    if n < 10 {
        assert(decimal(n).drop_last() =~= Seq::empty());
        assert(digits_value(Seq::<char>::empty()) == 0);
        assert(digit(n) as nat - '0' as nat == n);
    } else {
        lemma_decimal_digits(n / 10);
        let shorter = decimal(n / 10);
        assert(decimal(n).drop_last() =~= shorter);
        assert(digit(n % 10) as nat - '0' as nat == n % 10);
        assert forall|i: int| 0 <= i < decimal(n).len() implies is_digit(#[trigger] decimal(n)[i]) by {
            if i < shorter.len() {
                assert(is_digit(shorter[i]));
            }
        }
    }
}

/// A number that is written is read back, with a plus sign before it or without.
pub proof fn law_a_number_is_read_back(n: usize)
    ensures
        number_of(decimal(n as nat)) == Some(n),
        number_of(seq!['+'] + decimal(n as nat)) == Some(n),
{
    lemma_decimal_digits(n as nat);
    lemma_decimal_is_not_empty(n as nat);
    assert(without_plus(decimal(n as nat)) == decimal(n as nat));
    assert((seq!['+'] + decimal(n as nat)).skip(1) =~= decimal(n as nat));
}

/// Two numbers are written alike only where they are the same.
pub proof fn law_numbers_are_written_apart(a: nat, b: nat)
    requires
        decimal(a) == decimal(b),
    ensures
        a == b,
{
    lemma_decimal_digits(a);
    lemma_decimal_digits(b);
}

/// What is left of a text without the blanks at its ends starts and ends with none, and is a part
/// of the text; a text that has none is left as it is.
pub proof fn law_trimming_takes_blanks_only(s: Seq<char>)
    ensures
        trimmed(s).len() > 0 ==> !is_white_space(trimmed(s)[0]) && !is_white_space(trimmed(s).last()),
        s.len() > 0 && !is_white_space(s[0]) && !is_white_space(s.last()) ==> trimmed(s) == s,
{
    let rest = trimmed_start(s);
    lemma_trimmed_start(s);
    lemma_trimmed_end(rest);
}

proof fn lemma_trimmed_start(s: Seq<char>)
    ensures
        trimmed_start(s).len() > 0 ==> !is_white_space(trimmed_start(s)[0]),
    decreases s.len(),
{
    if s.len() > 0 && is_white_space(s[0]) {
        lemma_trimmed_start(s.drop_first());
    }
}

proof fn lemma_trimmed_end(s: Seq<char>)
    ensures
        trimmed_end(s).len() > 0 ==> !is_white_space(trimmed_end(s).last()) && trimmed_end(s)[0]
            == s[0],
    decreases s.len(),
{
    if s.len() > 0 && is_white_space(s.last()) {
        lemma_trimmed_end(s.drop_last());
    }
}

/// A path is the same path as itself, and two paths are the same in either order.
pub proof fn law_paths_are_compared_evenly(a: &str, b: &str, forth: bool, back: bool, own: bool)
    requires
        call_ensures(same_path, (a, b), forth),
        call_ensures(same_path, (b, a), back),
        call_ensures(same_path, (a, a), own),
    ensures
        forth == back,
        own,
        forth ==> (a@.len() > 0 && a@[0] == '/' <==> b@.len() > 0 && b@[0] == '/'),
{
}

/// Texts are ordered by the first character in which they differ, and a text comes before any that
/// goes on where it ends.
pub proof fn law_the_first_difference_decides(
    same: Seq<char>,
    a: char,
    b: char,
    left: Seq<char>,
    right: Seq<char>,
)
    requires
        a != b,
    ensures
        precedes(same + seq![a] + left, same + seq![b] + right) <==> a < b,
        precedes(same, same + seq![a] + left),
    decreases same.len(),
{
    let first = same + seq![a] + left;
    let second = same + seq![b] + right;
    if same.len() > 0 {
        let rest = same.drop_first();
        law_the_first_difference_decides(rest, a, b, left, right);
        assert(first.drop_first() =~= rest + seq![a] + left);
        assert(second.drop_first() =~= rest + seq![b] + right);
    }
}

/// A text is read line by line: what stands before the first line end is its first line, without
/// the carriage return that may stand there, and the rest is read as it would be alone.
pub proof fn law_a_text_is_read_line_by_line(line: Seq<char>, rest: Seq<char>)
    requires
        !line.contains('\n'),
    ensures
        lines_of(line + seq!['\n'] + rest) == seq![without_return(line)] + lines_of(rest),
        lines_of(Seq::empty()).len() == 0,
{
    let whole = line + seq!['\n'] + rest;
    lemma_split_first(line, rest, '\n');
    lemma_split_nonempty(rest, '\n');
    let pieces = split(rest, '\n');
    let all = split(whole, '\n');
    assert(all == seq![line] + pieces);
    assert(all.last() == pieces.last());
    assert(all.drop_last() =~= seq![line] + pieces.drop_last());
    let end = |line: Seq<char>| without_return(line);
    assert(all.drop_last().map_values(end) =~= seq![without_return(line)]
        + pieces.drop_last().map_values(end));
    assert(lines_of(whole) =~= seq![without_return(line)] + lines_of(rest));
    let nothing = Seq::<char>::empty();
    nothing.index_of_first_ensures('\n');
    assert(split(nothing, '\n') == seq![nothing]);
    assert(lines_of(nothing) =~= Seq::empty());
}

/// Spaces, tabs and line ends are blanks, and letters, digits and slashes are not.
pub proof fn law_blanks_are_no_letters(c: char)
    ensures
        c == ' ' || c == '\t' || c == '\n' || c == '\r' ==> is_white_space(c),
        'a' <= c <= 'z' || 'A' <= c <= 'Z' || '0' <= c <= '9' || c == '/' || c == '-'
            ==> !is_white_space(c),
{
}

/// Repeated slashes and a slash at the end make no other path, and neither does a single dot
/// between slashes.
pub proof fn law_slashes_may_repeat(path: Seq<char>, part: Seq<char>)
    requires
        !part.contains('/'),
        part.len() > 0,
        part != "."@,
    ensures
        path_parts(part + seq!['/'] + path) == seq![part] + path_parts(path),
        path_parts(seq!['/'] + path) == path_parts(path),
        path_parts("."@ + seq!['/'] + path) == path_parts(path),
{
    let named = |part: Seq<char>| part.len() > 0 && part != "."@;
    reveal_strlit(".");
    lemma_split_first(part, path, '/');
    lemma_split_first("."@, path, '/');
    lemma_split_first(Seq::<char>::empty(), path, '/');
    assert(Seq::<char>::empty() + seq!['/'] + path =~= seq!['/'] + path);
    let rest = split(path, '/');
    lemma_filter_head(part, rest, named);
    lemma_filter_head("."@, rest, named);
    lemma_filter_head(Seq::<char>::empty(), rest, named);
    assert(!"."@.contains('/'));
}

proof fn lemma_filter_head(
    head: Seq<char>,
    rest: Seq<Seq<char>>,
    pred: spec_fn(Seq<char>) -> bool,
)
    ensures
        (seq![head] + rest).filter(pred) == (if pred(head) {
            seq![head] + rest.filter(pred)
        } else {
            rest.filter(pred)
        }),
{
    Seq::filter_distributes_over_add(seq![head], rest, pred);
    reveal(Seq::filter);
    assert(seq![head].drop_last() =~= Seq::empty());
    assert(seq![head].drop_last().filter(pred) =~= Seq::empty());
    if pred(head) {
        assert(seq![head].filter(pred) =~= seq![head]);
    } else {
        assert(seq![head].filter(pred) =~= Seq::empty());
        assert(Seq::<Seq<char>>::empty() + rest.filter(pred) =~= rest.filter(pred));
    }
}

} // verus!
