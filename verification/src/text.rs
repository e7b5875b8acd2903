//! Strings and their models.

use vstd::prelude::*;
use vstd::utf8::{decode_utf8, pop_first_scalar, valid_utf8, valid_utf8_concat};

verus! {

/// The models of a sequence of values.
pub open spec fn views<T: View>(values: Seq<T>) -> Seq<T::V> {
    values.map_values(|value: T| value@)
}

/// The model of an optional value.
pub open spec fn opt_view<T: View>(value: Option<T>) -> Option<T::V> {
    match value {
        Some(value) => Some(value@),
        None => None,
    }
}

/// The models of an optional list of values.
pub open spec fn opt_views<T: View>(values: Option<Vec<T>>) -> Option<Seq<T::V>> {
    match values {
        Some(values) => Some(views(values@)),
        None => None,
    }
}

/// What follows the first `separator` in `text`, if there is one.
pub open spec fn after_first(text: Seq<char>, separator: char) -> Option<Seq<char>>
    decreases text.len(),
{
    if text.len() == 0 {
        None
    } else if text[0] == separator {
        Some(text.skip(1))
    } else {
        after_first(text.skip(1), separator)
    }
}

/// The pieces one after the other.
pub open spec fn joined<T>(pieces: Seq<Seq<T>>) -> Seq<T>
    decreases pieces.len(),
{
    if pieces.len() == 0 {
        Seq::empty()
    } else {
        joined(pieces.drop_last()) + pieces.last()
    }
}

/// A sequence of values has as many models, in the same order.
pub proof fn lemma_views<T: View>(values: Seq<T>)
    ensures
        views(values).len() == values.len(),
        forall|i: int| 0 <= i < values.len() ==> #[trigger] views(values)[i] == values[i]@,
{
}

/// An optional value, or list of values, has a model exactly where it is there.
pub proof fn lemma_opt_views<T: View>(value: T, values: Vec<T>)
    ensures
        opt_view(Some(value)) == Some(value@),
        opt_view(None::<T>) is None,
        opt_views(Some(values)) == Some(views(values@)),
        opt_views(None::<Vec<T>>) is None,
{
}

/// One piece joins to itself, and pieces in their order.
pub proof fn lemma_joined<T>(piece: Seq<T>, pieces: Seq<Seq<T>>, later: Seq<Seq<T>>)
    ensures
        joined(Seq::<Seq<T>>::empty()).len() == 0,
        joined(seq![piece]) == piece,
        joined(pieces + later) == joined(pieces) + joined(later),
    decreases later.len(),
{
    reveal_with_fuel(joined, 2);
    assert(seq![piece].drop_last() == Seq::<Seq<T>>::empty());
    if later.len() == 0 {
        assert(pieces + later == pieces);
    } else {
        lemma_joined(piece, pieces, later.drop_last());
        assert((pieces + later).drop_last() == pieces + later.drop_last());
    }
}

/// `after_first` is `None` exactly on a text without the separator, and else leaves out the
/// shortest prefix that ends with one.
pub proof fn lemma_after_first(text: Seq<char>, separator: char)
    ensures
        after_first(text, separator) is None <==> !text.contains(separator),
        after_first(text, separator) matches Some(rest) ==> exists|i: int|
            0 <= i < text.len() && text[i] == separator && rest == text.skip(i + 1) && !(
            #[trigger] text.take(i)).contains(separator),
    decreases text.len(),
{
    if text.len() > 0 {
        if text[0] == separator {
            assert(!text.take(0).contains(separator));
        } else {
            let tail = text.skip(1);
            lemma_after_first(tail, separator);
            if tail.contains(separator) {
                let i = tail.index_of(separator);
                assert(text[i + 1] == separator);
            }
            if text.contains(separator) {
                let i = text.index_of(separator);
                assert(tail[i - 1] == separator);
            }
            if let Some(rest) = after_first(tail, separator) {
                let i = choose|i: int|
                    0 <= i < tail.len() && tail[i] == separator && rest == tail.skip(i + 1) && !(
                    #[trigger] tail.take(i)).contains(separator);
                assert(rest == text.skip(i + 2));
                assert(text[i + 1] == separator);
                assert(!text.take(i + 1).contains(separator)) by {
                    if text.take(i + 1).contains(separator) {
                        let j = text.take(i + 1).index_of(separator);
                        assert(tail.take(i)[j - 1] == separator);
                    }
                }
            }
        }
    }
}

/// A prefix without the separator changes nothing.
pub proof fn lemma_after_first_skips_prefix(prefix: Seq<char>, text: Seq<char>, separator: char)
    requires
        !prefix.contains(separator),
    ensures
        after_first(prefix + text, separator) == after_first(text, separator),
    decreases prefix.len(),
{
    if prefix.len() == 0 {
        assert(prefix + text == text);
    } else {
        let tail = prefix.skip(1);
        assert(prefix.contains(prefix[0]));
        assert(!tail.contains(separator)) by {
            if tail.contains(separator) {
                assert(prefix[tail.index_of(separator) + 1] == separator);
            }
        }
        lemma_after_first_skips_prefix(tail, text, separator);
        assert((prefix + text).skip(1) == tail + text);
    }
}

/// Whether `text` reads as `other`.
pub fn same(text: &String, other: &str) -> (r: bool)
    ensures
        r == (text@ == other@),
{
    *text == other.to_owned()
}

/// What follows the first `separator` in `text`, if there is one.
pub fn split_after(text: &str, separator: char) -> (r: Option<String>)
    ensures
        opt_view(r) == after_first(text@, separator),
{
    let len: usize = text.unicode_len();
    let mut i: usize = 0;
    assert(text@.skip(0) == text@);
    while i < len
        invariant
            i <= len == text@.len(),
            after_first(text@, separator) == after_first(text@.skip(i as int), separator),
        decreases len - i,
    {
        assert(text@.skip(i as int).skip(1) == text@.skip(i + 1));
        if text.get_char(i) == separator {
            let rest = text.substring_char(i + 1, len);
            assert(rest@ == text@.skip(i + 1));
            return Some(rest.to_owned());
        }
        i = i + 1;
    }
    None
}

/// `String::from_utf8` of std: the text that the bytes encode, exactly where they are valid UTF-8.
#[verifier::external_body]
fn string_from_utf8(bytes: Vec<u8>) -> (r: Option<String>)
    ensures
        r is Some <==> valid_utf8(bytes@),
        r matches Some(text) ==> text@ == decode_utf8(bytes@),
{
    match String::from_utf8(bytes) {
        Ok(text) => Some(text),
        Err(_) => None,
    }
}

/// The text that a chunk of output adds: nothing where it could not be read or is not UTF-8.
pub open spec fn chunk_text(chunk: Option<Seq<u8>>) -> Seq<char> {
    match chunk {
        Some(bytes) => if valid_utf8(bytes) {
            decode_utf8(bytes)
        } else {
            Seq::empty()
        },
        None => Seq::empty(),
    }
}

/// The text of an output stream: that of its readable chunks, joined.
pub open spec fn output_text(chunks: Seq<Option<Seq<u8>>>) -> Seq<char> {
    joined(chunks.map_values(|chunk: Option<Seq<u8>>| chunk_text(chunk)))
}

/// The readable chunks of an output stream, joined. A chunk that could not be read (`None`) or
/// that is not UTF-8 by itself is left out.
pub fn join_output(chunks: &Vec<Option<Vec<u8>>>) -> (r: String)
    ensures
        r@ == output_text(chunks@.map_values(|chunk: Option<Vec<u8>>| opt_view(chunk))),
{
    let ghost texts = chunks@.map_values(|chunk: Option<Vec<u8>>| chunk_text(opt_view(chunk)));
    let mut out = String::new();
    let mut i: usize = 0;
    assert(texts.take(0) == Seq::<Seq<char>>::empty());
    while i < chunks.len()
        invariant
            i <= chunks@.len() == texts.len(),
            texts == chunks@.map_values(|chunk: Option<Vec<u8>>| chunk_text(opt_view(chunk))),
            out@ == joined(texts.take(i as int)),
        decreases chunks@.len() - i,
    {
        assert(texts.take(i + 1).drop_last() == texts.take(i as int));
        if let Some(bytes) = &chunks[i] {
            if let Some(text) = string_from_utf8(bytes.clone()) {
                out.append(text.as_str());
            }
        }
        assert(out@ == joined(texts.take(i as int)) + texts[i as int]);
        i = i + 1;
    }
    assert(texts.take(i as int) == texts);
    assert(texts == chunks@.map_values(|chunk: Option<Vec<u8>>| opt_view(chunk)).map_values(
        |chunk: Option<Seq<u8>>| chunk_text(chunk),
    ));
    out
}

/// A chunk of valid UTF-8 adds its text to the output, and one that could not be read or is not
/// UTF-8 adds nothing. What comes before and after it stays.
pub proof fn lemma_chunk_adds_its_text(
    before: Seq<Option<Seq<u8>>>,
    chunk: Option<Seq<u8>>,
    after: Seq<Option<Seq<u8>>>,
)
    ensures
        ({
            let text = output_text(before + seq![chunk] + after);
            &&& (chunk matches Some(bytes) && valid_utf8(bytes)) ==> text == output_text(before)
                + decode_utf8(chunk->0) + output_text(after)
            &&& (chunk matches Some(bytes) ==> !valid_utf8(bytes)) ==> text == output_text(before)
                + output_text(after) && text == output_text(before + after)
        }),
        output_text(seq![]).len() == 0,
{
    let f = |chunk: Option<Seq<u8>>| chunk_text(chunk);
    let all = before + seq![chunk] + after;
    assert(all.map_values(f) == before.map_values(f) + seq![chunk_text(chunk)]
        + after.map_values(f));
    assert((before + after).map_values(f) == before.map_values(f) + after.map_values(f));
    let (text, front, back) = (chunk_text(chunk), before.map_values(f), after.map_values(f));
    lemma_joined(text, front + seq![text], back);
    lemma_joined(text, front, seq![text]);
    lemma_joined(text, front, back);
    assert(Seq::<Option<Seq<u8>>>::empty().map_values(f) == Seq::<Seq<char>>::empty());
}

/// The text of two pieces of valid UTF-8 is that of the one and then that of the other.
proof fn lemma_decode_pieces(first: Seq<u8>, second: Seq<u8>)
    requires
        valid_utf8(first),
        valid_utf8(second),
    ensures
        valid_utf8(first + second),
        decode_utf8(first + second) == decode_utf8(first) + decode_utf8(second),
    decreases first.len(),
{
    valid_utf8_concat(first, second);
    if first.len() == 0 {
        assert(first + second == second);
    } else {
        let rest = pop_first_scalar(first);
        lemma_decode_pieces(rest, second);
        assert(pop_first_scalar(first + second) == rest + second);
    }
}

/// Chunks that could all be read.
pub open spec fn all_read(chunks: Seq<Seq<u8>>) -> Seq<Option<Seq<u8>>> {
    chunks.map_values(|chunk: Seq<u8>| Some(chunk))
}

/// Where each chunk is UTF-8 by itself, the text of the output is that of all the bytes together.
pub proof fn lemma_valid_chunks_read_as_one(chunks: Seq<Seq<u8>>)
    requires
        forall|i: int| 0 <= i < chunks.len() ==> valid_utf8(#[trigger] chunks[i]),
    ensures
        valid_utf8(joined(chunks)),
        output_text(all_read(chunks)) == decode_utf8(joined(chunks)),
    decreases chunks.len(),
{
    let texts = all_read(chunks).map_values(|chunk: Option<Seq<u8>>| chunk_text(chunk));
    if chunks.len() > 0 {
        let front = chunks.drop_last();
        lemma_valid_chunks_read_as_one(front);
        lemma_decode_pieces(joined(front), chunks.last());
        assert(texts.drop_last() == all_read(front).map_values(
            |chunk: Option<Seq<u8>>| chunk_text(chunk),
        ));
        assert(texts.last() == decode_utf8(chunks.last()));
    }
}

/// How valid output is cut into chunks does not matter, as long as no character is cut.
pub proof fn lemma_cuts_do_not_matter(chunks: Seq<Seq<u8>>, others: Seq<Seq<u8>>)
    requires
        joined(chunks) == joined(others),
        forall|i: int| 0 <= i < chunks.len() ==> valid_utf8(#[trigger] chunks[i]),
        forall|i: int| 0 <= i < others.len() ==> valid_utf8(#[trigger] others[i]),
    ensures
        output_text(all_read(chunks)) == output_text(all_read(others)),
{
    lemma_valid_chunks_read_as_one(chunks);
    lemma_valid_chunks_read_as_one(others);
}

} // verus!
