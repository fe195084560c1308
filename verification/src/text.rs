//! Text as sequences of characters: conversion, decimal numerals and
//! splitting at a separator.

use vstd::prelude::*;

verus! {

/// `String::push` appends one character to the text.
pub assume_specification[ String::push ](text: &mut String, c: char)
    ensures
        final(text)@ == old(text)@.push(c),
;

/// The characters of a text that may be missing.
pub open spec fn text_view(text: Option<String>) -> Option<Seq<char>> {
    match text {
        Some(text) => Some(text@),
        None => None,
    }
}

/// The characters of a text that came about, or the error that came
/// about in its place.
pub open spec fn text_result<E>(r: Result<String, E>) -> Result<Seq<char>, E> {
    match r {
        Ok(text) => Ok(text@),
        Err(e) => Err(e),
    }
}

/// The characters of `s`, in order.
pub fn chars_of(s: &str) -> (v: Vec<char>)
    ensures
        v@ == s@,
{
    let mut v: Vec<char> = Vec::new();
    for c in it: s.chars()
        invariant
            v@ == it.seq().take(it.index()),
            it.seq() == s@,
    {
        v.push(c);
    }
    v
}

/// The text made of `chars`, in order.
pub fn string_of(chars: &Vec<char>) -> (s: String)
    ensures
        s@ == chars@,
{
    let mut s = String::new();
    let mut i: usize = 0;
    while i < chars.len()
        invariant
            i <= chars.len(),
            s@ == chars@.take(i as int),
        decreases chars.len() - i,
    {
        s.push(chars[i]);
        i = i + 1;
    }
    s
}

/// The character that stands for the digit `d` in a decimal numeral.
pub open spec fn digit(d: nat) -> char
    recommends
        d < 10,
{
    ('0' as nat + d) as char
}

/// The decimal numeral of `n`, without sign and without leading zeros.
pub open spec fn decimal(n: nat) -> Seq<char>
    decreases n,
{
    if n < 10 {
        seq![digit(n)]
    } else {
        decimal(n / 10).push(digit(n % 10))
    }
}

/// Appends the decimal numeral of `n` to `text`.
pub fn push_decimal(text: &mut String, n: u64)
    ensures
        final(text)@ == old(text)@ + decimal(n as nat),
    decreases n,
{
    if n >= 10 {
        push_decimal(text, n / 10);
    }
    let d: u8 = (n % 10) as u8;
    text.push((48u8 + d) as char);
}

/// The decimal numeral of `n`.
pub fn decimal_text(n: u64) -> (s: String)
    ensures
        s@ == decimal(n as nat),
{
    let mut s = String::new();
    push_decimal(&mut s, n);
    s
}

/// The pieces into which the separator cuts `s`: one more than `s` holds
/// separators, each free of it, some of them empty where two separators
/// meet or one stands at an end.
pub open spec fn split(s: Seq<char>, sep: char) -> Seq<Seq<char>>
    decreases s.len(),
{
    if s.len() == 0 {
        seq![Seq::<char>::empty()]
    } else {
        let before = split(s.drop_last(), sep);
        if s.last() == sep {
            before.push(Seq::<char>::empty())
        } else {
            before.drop_last().push(before.last().push(s.last()))
        }
    }
}

/// The pieces put together again, with the separator between neighbours.
pub open spec fn join(pieces: Seq<Seq<char>>, sep: char) -> Seq<char>
    decreases pieces.len(),
{
    if pieces.len() == 0 {
        Seq::<char>::empty()
    } else if pieces.len() == 1 {
        pieces[0]
    } else {
        join(pieces.drop_last(), sep).push(sep) + pieces.last()
    }
}

/// Whether one of the pieces of `s` is `word`.
pub open spec fn has_piece(s: Seq<char>, sep: char, word: Seq<char>) -> bool {
    exists|i: int| 0 <= i < split(s, sep).len() && #[trigger] split(s, sep)[i] == word
}

/// The texts of `v` as sequences of characters.
pub open spec fn texts(v: Seq<String>) -> Seq<Seq<char>> {
    Seq::new(v.len(), |i: int| v[i]@)
}

/// Splitting never gives an empty list, and no piece holds the separator.
pub proof fn lemma_split_pieces(s: Seq<char>, sep: char)
    ensures
        split(s, sep).len() >= 1,
        forall|i: int, j: int|
            0 <= i < split(s, sep).len() && 0 <= j < split(s, sep)[i].len() ==> #[trigger] split(
                s,
                sep,
            )[i][j] != sep,
    decreases s.len(),
{
    if s.len() > 0 {
        lemma_split_pieces(s.drop_last(), sep);
    }
}

/// Joining the pieces of a text gives the text back.
pub proof fn lemma_join_split(s: Seq<char>, sep: char)
    ensures
        join(split(s, sep), sep) == s,
    decreases s.len(),
{
    if s.len() > 0 {
        let t = s.drop_last();
        let before = split(t, sep);
        lemma_join_split(t, sep);
        lemma_split_pieces(t, sep);
        if s.last() == sep {
            let all = before.push(Seq::<char>::empty());
            assert(all.drop_last() == before);
            assert(join(all, sep) == join(before, sep).push(sep) + Seq::<char>::empty());
            assert(join(all, sep) == t.push(sep));
            assert(t.push(sep) == s);
        } else {
            let grown = before.last().push(s.last());
            let all = before.drop_last().push(grown);
            assert(all.drop_last() == before.drop_last());
            if before.len() == 1 {
                assert(join(before, sep) == before[0]);
                assert(join(all, sep) == grown);
                assert(grown == t.push(s.last()));
            } else {
                assert(join(before, sep) == join(before.drop_last(), sep).push(sep)
                    + before.last());
                assert(join(all, sep) == join(before.drop_last(), sep).push(sep) + grown);
                assert(join(all, sep) == t.push(s.last()));
            }
            assert(t.push(s.last()) == s);
        }
    }
}

/// Cuts `s` at each occurrence of `sep`.
pub fn split_text(s: &str, sep: char) -> (pieces: Vec<String>)
    ensures
        texts(pieces@) == split(s@, sep),
{
    let chars = chars_of(s);
    let mut pieces: Vec<String> = Vec::new();
    let mut current = String::new();
    let mut i: usize = 0;
    while i < chars.len()
        invariant
            i <= chars.len(),
            chars@ == s@,
            texts(pieces@).push(current@) == split(s@.take(i as int), sep),
        decreases chars.len() - i,
    {
        let c = chars[i];
        proof {
            let done = s@.take(i as int);
            let next = s@.take(i + 1);
            assert(next.drop_last() == done);
            assert(next.last() == c);
            assert(texts(pieces@).push(current@).drop_last() == texts(pieces@));
        }
        if c == sep {
            let ghost before = texts(pieces@);
            pieces.push(current);
            current = String::new();
            assert(texts(pieces@) == before.push(pieces@.last()@));
        } else {
            current.push(c);
        }
        i = i + 1;
    }
    let ghost before = texts(pieces@);
    pieces.push(current);
    assert(texts(pieces@) == before.push(pieces@.last()@));
    assert(s@.take(chars.len() as int) == s@);
    pieces
}

/// Whether two texts hold the same characters.
pub fn same_text(a: &str, b: &str) -> (r: bool)
    ensures
        r == (a@ == b@),
{
    let x = chars_of(a);
    let y = chars_of(b);
    if x.len() != y.len() {
        return false;
    }
    let mut i: usize = 0;
    while i < x.len()
        invariant
            i <= x.len(),
            x.len() == y.len(),
            x@ == a@,
            y@ == b@,
            x@.take(i as int) == y@.take(i as int),
        decreases x.len() - i,
    {
        if x[i] != y[i] {
            return false;
        }
        assert(x@.take(i + 1) == x@.take(i as int).push(x@[i as int]));
        assert(y@.take(i + 1) == y@.take(i as int).push(y@[i as int]));
        i = i + 1;
    }
    assert(x@.take(x.len() as int) == x@);
    assert(y@.take(y.len() as int) == y@);
    true
}

/// A separator between two texts cuts them apart: the pieces of the whole
/// are the pieces of the first followed by the pieces of the second.
pub proof fn lemma_split_around(a: Seq<char>, b: Seq<char>, sep: char)
    ensures
        split(a.push(sep) + b, sep) == split(a, sep) + split(b, sep),
    decreases b.len(),
{
    let whole = a.push(sep) + b;
    if b.len() == 0 {
        assert(whole == a.push(sep));
        assert(whole.drop_last() == a);
        assert(split(b, sep) == seq![Seq::<char>::empty()]);
        assert(split(whole, sep) == split(a, sep).push(Seq::<char>::empty()));
        assert(split(a, sep).push(Seq::<char>::empty()) == split(a, sep) + split(b, sep));
    } else {
        let shorter = b.drop_last();
        lemma_split_around(a, shorter, sep);
        lemma_split_pieces(shorter, sep);
        assert(whole.drop_last() == a.push(sep) + shorter);
        assert(whole.last() == b.last());
        let left = split(a, sep);
        let right = split(shorter, sep);
        let before = left + right;
        if b.last() == sep {
            assert(before.push(Seq::<char>::empty()) == left + right.push(Seq::<char>::empty()));
        } else {
            let grown = right.last().push(b.last());
            assert(before.last() == right.last());
            assert(before.drop_last() == left + right.drop_last());
            assert(before.drop_last().push(grown) == left + right.drop_last().push(grown));
        }
    }
}

/// A text without the separator is a single piece.
pub proof fn lemma_split_whole(s: Seq<char>, sep: char)
    requires
        forall|i: int| 0 <= i < s.len() ==> s[i] != sep,
    ensures
        split(s, sep) == seq![s],
    decreases s.len(),
{
    if s.len() == 0 {
        assert(s == Seq::<char>::empty());
    } else {
        let t = s.drop_last();
        lemma_split_whole(t, sep);
        assert(t.push(s.last()) == s);
        assert(seq![t].drop_last().push(seq![t].last().push(s.last())) == seq![s]);
    }
}

} // verus!
