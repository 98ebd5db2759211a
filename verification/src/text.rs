//! Text as sequences of characters: white space, trimming, splitting at a
//! separator and joining with one.

use vstd::prelude::*;

verus! {

/// Whether `c` is white space: one of the code points that carry the Unicode
/// property `White_Space`.
pub open spec fn is_whitespace(c: char) -> bool {
    let u = c as u32;
    ||| 0x09 <= u <= 0x0D
    ||| u == 0x20
    ||| u == 0x85
    ||| u == 0xA0
    ||| u == 0x1680
    ||| 0x2000 <= u <= 0x200A
    ||| u == 0x2028
    ||| u == 0x2029
    ||| u == 0x202F
    ||| u == 0x205F
    ||| u == 0x3000
}

/// `s` without the white space it begins with.
pub open spec fn trimmed_start(s: Seq<char>) -> Seq<char>
    decreases s.len(),
{
    if s.len() > 0 && is_whitespace(s.first()) {
        trimmed_start(s.drop_first())
    } else {
        s
    }
}

/// `s` without the white space it ends with.
pub open spec fn trimmed_end(s: Seq<char>) -> Seq<char>
    decreases s.len(),
{
    if s.len() > 0 && is_whitespace(s.last()) {
        trimmed_end(s.drop_last())
    } else {
        s
    }
}

/// `s` without the white space at both of its ends.
pub open spec fn trimmed(s: Seq<char>) -> Seq<char> {
    trimmed_end(trimmed_start(s))
}

/// The position of the first `sep` in `s`, or the length of `s` if it holds none.
pub open spec fn first_index_of(s: Seq<char>, sep: char) -> nat
    decreases s.len(),
{
    if s.len() == 0 || s.first() == sep {
        0
    } else {
        1 + first_index_of(s.drop_first(), sep)
    }
}

/// The pieces that the occurrences of `sep` cut `s` into, in order. There is one
/// piece more than there are separators, so the empty text has one empty piece.
pub open spec fn split_on(s: Seq<char>, sep: char) -> Seq<Seq<char>>
    decreases s.len(),
{
    let at = first_index_of(s, sep) as int;
    if at >= s.len() {
        seq![s]
    } else {
        seq![s.take(at)] + split_on(s.skip(at + 1), sep)
    }
}

/// The pieces one after another, with `sep` between each two neighbours.
pub open spec fn joined(pieces: Seq<Seq<char>>, sep: Seq<char>) -> Seq<char>
    decreases pieces.len(),
{
    if pieces.len() == 0 {
        Seq::empty()
    } else if pieces.len() == 1 {
        pieces[0]
    } else {
        joined(pieces.drop_last(), sep) + sep + pieces.last()
    }
}

/// The texts of a sequence of string slices.
pub open spec fn slice_texts(slices: Seq<&str>) -> Seq<Seq<char>> {
    slices.map_values(|slice: &str| slice@)
}

/// The texts of a sequence of strings.
pub open spec fn string_texts(strings: Seq<String>) -> Seq<Seq<char>> {
    strings.map_values(|string: String| string@)
}

/// `first_index_of` is the one position that holds `sep` with no `sep` before
/// it, or the length where there is no `sep`.
pub proof fn lemma_first_index_of(s: Seq<char>, sep: char, at: int)
    requires
        0 <= at <= s.len(),
        forall|j: int| 0 <= j < at ==> s[j] != sep,
        at < s.len() ==> s[at] == sep,
    ensures
        first_index_of(s, sep) == at,
    decreases at,
{
    if at > 0 {
        let rest = s.drop_first();
        assert forall|j: int| 0 <= j < at - 1 implies rest[j] != sep by {
            assert(rest[j] == s[j + 1]);
        }
        lemma_first_index_of(rest, sep, at - 1);
    }
}

/// There is no `sep` before `first_index_of`, and there is one at it unless it
/// is the length.
pub proof fn lemma_first_index_of_is_first(s: Seq<char>, sep: char)
    ensures
        first_index_of(s, sep) <= s.len(),
        forall|j: int| 0 <= j < first_index_of(s, sep) ==> s[j] != sep,
        first_index_of(s, sep) < s.len() ==> s[first_index_of(s, sep) as int] == sep,
    decreases s.len(),
{
    if s.len() > 0 && s.first() != sep {
        let rest = s.drop_first();
        lemma_first_index_of_is_first(rest, sep);
        assert forall|j: int| 0 <= j < first_index_of(s, sep) implies s[j] != sep by {
            if j > 0 {
                assert(s[j] == rest[j - 1]);
            }
        }
    }
}

/// A piece in front of others is joined to them by one `sep`.
pub proof fn lemma_joined_prepend(piece: Seq<char>, pieces: Seq<Seq<char>>, sep: Seq<char>)
    requires
        pieces.len() > 0,
    ensures
        joined(seq![piece] + pieces, sep) == piece + sep + joined(pieces, sep),
    decreases pieces.len(),
{
    let all = seq![piece] + pieces;
    assert(all.last() == pieces.last());
    if pieces.len() == 1 {
        assert(all.drop_last() =~= seq![piece]);
        assert(joined(seq![piece], sep) == piece);
        assert(joined(pieces, sep) == pieces.last());
        assert(joined(all, sep) =~= piece + sep + joined(pieces, sep));
    } else {
        assert(all.drop_last() =~= seq![piece] + pieces.drop_last());
        lemma_joined_prepend(piece, pieces.drop_last(), sep);
        assert(joined(all, sep) =~= piece + sep + joined(pieces, sep));
    }
}

/// Cutting a text at `sep` loses nothing but the separators: there is at least
/// one piece, no piece holds `sep`, and the pieces joined by `sep` are the text.
pub proof fn lemma_split_then_join(s: Seq<char>, sep: char)
    ensures
        split_on(s, sep).len() >= 1,
        forall|i: int| 0 <= i < split_on(s, sep).len() ==> !(#[trigger] split_on(s, sep)[i]).contains(sep),
        joined(split_on(s, sep), seq![sep]) == s,
    decreases s.len(),
{
    lemma_first_index_of_is_first(s, sep);
    let at = first_index_of(s, sep) as int;
    if at < s.len() {
        let head = s.take(at);
        let tail = split_on(s.skip(at + 1), sep);
        lemma_split_then_join(s.skip(at + 1), sep);
        lemma_joined_prepend(head, tail, seq![sep]);
        assert(head + seq![sep] + s.skip(at + 1) =~= s);
        assert forall|i: int| 0 <= i < split_on(s, sep).len() implies !(#[trigger] split_on(
            s,
            sep,
        )[i]).contains(sep) by {
            if i > 0 {
                assert(split_on(s, sep)[i] == tail[i - 1]);
            }
        }
    }
}

/// Joining pieces that hold no `sep` and cutting the result at `sep` gives the
/// pieces back.
pub proof fn lemma_join_then_split(pieces: Seq<Seq<char>>, sep: char)
    requires
        pieces.len() >= 1,
        forall|i: int| 0 <= i < pieces.len() ==> !(#[trigger] pieces[i]).contains(sep),
    ensures
        split_on(joined(pieces, seq![sep]), sep) == pieces,
    decreases pieces.len(),
{
    let head = pieces[0];
    assert(!head.contains(sep));
    if pieces.len() == 1 {
        lemma_first_index_of(head, sep, head.len() as int);
        assert(split_on(head, sep) =~= pieces);
    } else {
        let others = pieces.drop_first();
        assert forall|i: int| 0 <= i < others.len() implies !(#[trigger] others[i]).contains(
            sep,
        ) by {
            assert(others[i] == pieces[i + 1]);
        }
        lemma_join_then_split(others, sep);
        assert(pieces =~= seq![head] + others);
        lemma_joined_prepend(head, others, seq![sep]);
        let text = joined(pieces, seq![sep]);
        let rest = joined(others, seq![sep]);
        assert(text == head + seq![sep] + rest);
        assert forall|j: int| 0 <= j < head.len() implies text[j] != sep by {
            assert(text[j] == head[j]);
        }
        lemma_first_index_of(text, sep, head.len() as int);
        assert(text.take(head.len() as int) =~= head);
        assert(text.skip(head.len() as int + 1) =~= rest);
    }
}

/// What `trimmed_start` takes away is white space, and all of it: the position
/// where what is left begins is returned.
pub proof fn lemma_trimmed_start(s: Seq<char>) -> (from: int)
    ensures
        0 <= from <= s.len(),
        trimmed_start(s) == s.skip(from),
        forall|j: int| 0 <= j < from ==> is_whitespace(#[trigger] s[j]),
        from < s.len() ==> !is_whitespace(s[from]),
    decreases s.len(),
{
    if s.len() > 0 && is_whitespace(s.first()) {
        let rest = s.drop_first();
        let from = lemma_trimmed_start(rest);
        assert(rest.skip(from) =~= s.skip(from + 1));
        assert forall|j: int| 0 <= j < from + 1 implies is_whitespace(#[trigger] s[j]) by {
            if j > 0 {
                assert(s[j] == rest[j - 1]);
            }
        }
        from + 1
    } else {
        assert(s.skip(0) =~= s);
        0
    }
}

/// What `trimmed_end` takes away is white space, and all of it: the position
/// where what is left ends is returned.
pub proof fn lemma_trimmed_end(s: Seq<char>) -> (to: int)
    ensures
        0 <= to <= s.len(),
        trimmed_end(s) == s.take(to),
        forall|j: int| to <= j < s.len() ==> is_whitespace(#[trigger] s[j]),
        to > 0 ==> !is_whitespace(s[to - 1]),
    decreases s.len(),
{
    if s.len() > 0 && is_whitespace(s.last()) {
        let rest = s.drop_last();
        let to = lemma_trimmed_end(rest);
        assert(rest.take(to) =~= s.take(to));
        assert forall|j: int| to <= j < s.len() implies is_whitespace(#[trigger] s[j]) by {
            if j < s.len() - 1 {
                assert(s[j] == rest[j]);
            }
        }
        to
    } else {
        assert(s.take(s.len() as int) =~= s);
        s.len() as int
    }
}

/// `trimmed(s)` is the part of `s` from its first to its last character that is
/// no white space, and it is empty where `s` holds nothing else. The bounds of
/// that part are returned.
pub proof fn lemma_trimmed(s: Seq<char>) -> (bounds: (int, int))
    ensures
        0 <= bounds.0 <= bounds.1 <= s.len(),
        trimmed(s) == s.subrange(bounds.0, bounds.1),
        forall|j: int| 0 <= j < bounds.0 ==> is_whitespace(#[trigger] s[j]),
        forall|j: int| bounds.1 <= j < s.len() ==> is_whitespace(#[trigger] s[j]),
        bounds.0 < bounds.1 ==> !is_whitespace(s[bounds.0]) && !is_whitespace(s[bounds.1 - 1]),
{
    let from = lemma_trimmed_start(s);
    let left = s.skip(from);
    let to = lemma_trimmed_end(left);
    assert(left.take(to) =~= s.subrange(from, from + to));
    assert forall|j: int| from + to <= j < s.len() implies is_whitespace(#[trigger] s[j]) by {
        assert(s[j] == left[j - from]);
    }
    if to > 0 {
        assert(left[to - 1] == s[from + to - 1]);
        assert(left[0] == s[from]);
    }
    (from, from + to)
}

/// Pieces that are joined begin with the first of them and end with the last.
pub proof fn lemma_joined_ends(pieces: Seq<Seq<char>>, sep: Seq<char>)
    requires
        pieces.len() >= 1,
        pieces.first().len() > 0,
        pieces.last().len() > 0,
    ensures
        joined(pieces, sep).len() > 0,
        joined(pieces, sep).first() == pieces.first().first(),
        joined(pieces, sep).last() == pieces.last().last(),
{
    if pieces.len() > 1 {
        let others = pieces.drop_first();
        assert(pieces =~= seq![pieces.first()] + others);
        lemma_joined_prepend(pieces.first(), others, sep);
    }
}

/// A text that neither begins nor ends with white space is left as it is.
pub proof fn lemma_trimmed_unchanged(s: Seq<char>)
    requires
        s.len() > 0 ==> !is_whitespace(s.first()) && !is_whitespace(s.last()),
    ensures
        trimmed(s) == s,
{
}

/// Decides `is_whitespace` at run time.
pub fn char_is_whitespace(c: char) -> (r: bool)
    ensures
        r == is_whitespace(c),
{
    let u: u32 = c as u32;
    (0x09 <= u && u <= 0x0D) || u == 0x20 || u == 0x85 || u == 0xA0 || u == 0x1680 || (0x2000 <= u
        && u <= 0x200A) || u == 0x2028 || u == 0x2029 || u == 0x202F || u == 0x205F || u == 0x3000
}

/// The characters of `s`, in order.
pub fn chars_of(s: &str) -> (chars: Vec<char>)
    ensures
        chars@ == s@,
{
    let mut chars: Vec<char> = Vec::new();
    for c in iter: s.chars()
        invariant
            iter.seq() == s@,
            chars@ == s@.take(iter.index()),
    {
        chars.push(c);
    }
    chars
}

/// Whether `a` and `b` hold the same text.
pub fn same_text(a: &str, b: &str) -> (r: bool)
    ensures
        r == (a@ == b@),
{
    let x = a.as_bytes();
    let y = b.as_bytes();
    if x.len() != y.len() {
        return false;
    }
    let mut i: usize = 0;
    while i < x.len()
        invariant
            i <= x.len(),
            x.len() == y.len(),
            x@ == vstd::utf8::encode_utf8(a@),
            y@ == vstd::utf8::encode_utf8(b@),
            forall|j: int| 0 <= j < i ==> x@[j] == y@[j],
        decreases x.len() - i,
    {
        if x[i] != y[i] {
            return false;
        }
        i += 1;
    }
    proof {
        assert(x@ =~= y@);
        vstd::utf8::encode_utf8_decode_utf8(a@);
        vstd::utf8::encode_utf8_decode_utf8(b@);
    }
    true
}

/// The part of `s` between its leading and its trailing white space.
pub fn trim(s: &str) -> (r: &str)
    ensures
        r@ == trimmed(s@),
{
    let chars = chars_of(s);
    let n: usize = chars.len();
    let mut start: usize = 0;
    proof {
        assert(chars@.skip(0) =~= chars@);
    }
    while start < n && char_is_whitespace(chars[start])
        invariant
            start <= n,
            n == chars@.len(),
            trimmed_start(chars@) == trimmed_start(chars@.skip(start as int)),
        decreases n - start,
    {
        proof {
            assert(chars@.skip(start as int).drop_first() =~= chars@.skip(start + 1));
        }
        start += 1;
    }
    let mut end: usize = n;
    while end > start && char_is_whitespace(chars[end - 1])
        invariant
            start <= end <= n,
            n == chars@.len(),
            trimmed_end(chars@.skip(start as int)) == trimmed_end(
                chars@.subrange(start as int, end as int),
            ),
        decreases end - start,
    {
        proof {
            assert(chars@.subrange(start as int, end as int).drop_last() =~= chars@.subrange(
                start as int,
                end - 1,
            ));
        }
        end -= 1;
    }
    s.substring_char(start, end)
}

/// The pieces of `s` between the occurrences of `sep`.
pub fn split(s: &str, sep: char) -> (pieces: Vec<&str>)
    ensures
        slice_texts(pieces@) == split_on(s@, sep),
{
    let chars = chars_of(s);
    let n: usize = chars.len();
    let mut pieces: Vec<&str> = Vec::new();
    let mut from: usize = 0;
    let mut i: usize = 0;
    proof {
        assert(s@.skip(0) =~= s@);
        assert(slice_texts(pieces@) + split_on(s@, sep) =~= split_on(s@, sep));
    }
    while i < n
        invariant
            from <= i <= n,
            n == chars@.len(),
            chars@ == s@,
            forall|j: int| from <= j < i ==> chars@[j] != sep,
            split_on(s@, sep) == slice_texts(pieces@) + split_on(s@.skip(from as int), sep),
        decreases n - i,
    {
        if chars[i] == sep {
            let piece = s.substring_char(from, i);
            proof {
                let rest = s@.skip(from as int);
                lemma_first_index_of(rest, sep, i - from);
                assert(rest.take(i - from) =~= piece@);
                assert(rest.skip(i - from + 1) =~= s@.skip(i + 1));
                assert(slice_texts(pieces@.push(piece)) =~= slice_texts(pieces@) + seq![piece@]);
            }
            pieces.push(piece);
            from = i + 1;
        }
        i += 1;
    }
    let piece = s.substring_char(from, n);
    proof {
        let rest = s@.skip(from as int);
        lemma_first_index_of(rest, sep, n - from);
        assert(rest =~= piece@);
        assert(slice_texts(pieces@.push(piece)) =~= slice_texts(pieces@) + seq![piece@]);
    }
    pieces.push(piece);
    pieces
}

/// The strings one after another, with `sep` between each two neighbours.
pub fn join(pieces: &Vec<String>, sep: &str) -> (r: String)
    ensures
        r@ == joined(string_texts(pieces@), sep@),
{
    let mut out = String::new();
    let mut i: usize = 0;
    while i < pieces.len()
        invariant
            i <= pieces.len(),
            out@ == joined(string_texts(pieces@).take(i as int), sep@),
        decreases pieces.len() - i,
    {
        proof {
            let texts = string_texts(pieces@);
            assert(texts.take(i + 1).drop_last() =~= texts.take(i as int));
            assert(texts.take(i + 1).last() == pieces@[i as int]@);
        }
        if i > 0 {
            out.append(sep);
        }
        out.append(pieces[i].as_str());
        i += 1;
    }
    proof {
        let texts = string_texts(pieces@);
        assert(texts.take(pieces.len() as int) =~= texts);
    }
    out
}

} // verus!
