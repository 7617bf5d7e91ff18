//! Form bodies: the text that carries the parameters of a request.
//!
//! A body is a list of entries. Each entry is written as its key, `=` and
//! its value, and neighbouring entries are held apart by `&`. A list without
//! entries is the empty body.
//!
//! Keys and values are written as they are given. A value that holds `&`
//! therefore reads, at the other end, as the start of a further entry;
//! [`unambiguous`] says of which entries a reader finds exactly what was
//! written, and [`lemma_decode_of_encode`] proves it.

use crate::text::{free_of, join, lemma_split_extends_last, lemma_split_of_join, split};
use vstd::prelude::*;
use vstd::string::StringExecFns;

verus! {

/// One entry as it stands in a body: the key, `=`, the value.
pub open spec fn entry_text(entry: (Seq<char>, Seq<char>)) -> Seq<char> {
    entry.0 + seq!['='] + entry.1
}

/// The body that carries `entries`, in their order.
pub open spec fn encode(entries: Seq<(Seq<char>, Seq<char>)>) -> Seq<char> {
    join(entries.map_values(|entry: (Seq<char>, Seq<char>)| entry_text(entry)), '&')
}

/// The body that `body` becomes when one more entry is written at its end.
pub open spec fn with_entry(body: Seq<char>, key: Seq<char>, value: Seq<char>) -> Seq<char> {
    if body.len() == 0 {
        entry_text((key, value))
    } else {
        body + seq!['&'] + entry_text((key, value))
    }
}

/// The key and the value that a reader finds in one entry: what stands
/// before the first `=`, and all that follows it.
pub open spec fn decode_entry(text: Seq<char>) -> (Seq<char>, Seq<char>) {
    let key = split(text, '=')[0];
    (key, text.skip(key.len() as int + 1))
}

/// The entries that a reader finds in `body`.
pub open spec fn decode(body: Seq<char>) -> Seq<(Seq<char>, Seq<char>)> {
    if body.len() == 0 {
        Seq::empty()
    } else {
        split(body, '&').map_values(|text: Seq<char>| decode_entry(text))
    }
}

/// Whether a reader can tell the entries apart again: no key holds `&` or
/// `=`, and no value holds `&`.
pub open spec fn unambiguous(entries: Seq<(Seq<char>, Seq<char>)>) -> bool {
    forall|i: int|
        0 <= i < entries.len() ==> {
            &&& free_of((#[trigger] entries[i]).0, '&')
            &&& free_of(entries[i].0, '=')
            &&& free_of(entries[i].1, '&')
        }
}

/// A body is empty exactly when it carries no entry.
pub proof fn lemma_encode_is_empty(entries: Seq<(Seq<char>, Seq<char>)>)
    ensures
        encode(entries).len() == 0 <==> entries.len() == 0,
{
    if entries.len() == 1 {
        assert(entry_text(entries[0]).len() >= 1);
    }
}

/// Writing one more entry at the end of a body gives the body of the longer
/// list.
pub proof fn lemma_encode_push(
    entries: Seq<(Seq<char>, Seq<char>)>,
    key: Seq<char>,
    value: Seq<char>,
)
    ensures
        encode(entries.push((key, value))) == with_entry(encode(entries), key, value),
{
    let to_text = |entry: (Seq<char>, Seq<char>)| entry_text(entry);
    let longer = entries.push((key, value));
    lemma_encode_is_empty(entries);
    assert(longer.map_values(to_text).drop_last() == entries.map_values(to_text));
}

/// What stands before the first `sep` is the first piece.
proof fn lemma_split_first(head: Seq<char>, rest: Seq<char>, sep: char)
    requires
        free_of(head, sep),
    ensures
        split(head + seq![sep] + rest, sep).len() >= 2,
        split(head + seq![sep] + rest, sep)[0] == head,
    decreases rest.len(),
{
    let whole = head + seq![sep] + rest;
    if rest.len() == 0 {
        lemma_split_extends_last(Seq::empty(), head, sep);
        assert(whole.drop_last() == head);
    } else {
        lemma_split_first(head, rest.drop_last(), sep);
        assert(whole.drop_last() == head + seq![sep] + rest.drop_last());
    }
}

/// A reader finds in one written entry the key and the value it was written
/// from, provided the key holds no `=`.
pub proof fn lemma_decode_entry(key: Seq<char>, value: Seq<char>)
    requires
        free_of(key, '='),
    ensures
        decode_entry(entry_text((key, value))) == (key, value),
{
    lemma_split_first(key, value, '=');
}

/// A reader finds in a body exactly the entries it was written from, in
/// their order, provided they can be told apart.
pub proof fn lemma_decode_of_encode(entries: Seq<(Seq<char>, Seq<char>)>)
    requires
        unambiguous(entries),
    ensures
        decode(encode(entries)) == entries,
{
    let texts = entries.map_values(|entry: (Seq<char>, Seq<char>)| entry_text(entry));
    lemma_encode_is_empty(entries);
    if entries.len() > 0 {
        assert forall|i: int| 0 <= i < texts.len() implies free_of(#[trigger] texts[i], '&') by {
            assert(texts[i] == entry_text(entries[i]));
        }
        lemma_split_of_join(texts, '&');
        let found = decode(encode(entries));
        assert forall|i: int| 0 <= i < entries.len() implies found[i] == entries[i] by {
            lemma_decode_entry(entries[i].0, entries[i].1);
        }
    }
}

/// Writes the entry `key=value` at the end of `body`, after an `&` where an
/// entry stands there already.
pub fn append_entry(body: &mut String, key: &str, value: &str)
    ensures
        final(body)@ == with_entry(old(body)@, key@, value@),
{
    proof {
        reveal_strlit("&");
        reveal_strlit("=");
    }
    if !body.as_str().is_empty() {
        body.append("&");
    }
    body.append(key);
    body.append("=");
    body.append(value);
}

} // verus!
