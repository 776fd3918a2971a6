//! Characters, letter case and separated fields: what every parser of the
//! wire grammar is built from.
use vstd::prelude::*;
use vstd::std_specs::iter::IteratorSpec;
use vstd::string::*;

verus! {

/// `String::push` of the standard library appends one character to the end
/// of the string and leaves what was there before in place.
pub assume_specification[ String::push ](text: &mut String, c: char)
    ensures
        final(text)@ == old(text)@.push(c),
;

/// The upper-case form of an ASCII letter; any other character is itself.
pub open spec fn upper(c: char) -> char {
    if 'a' <= c && c <= 'z' {
        ((c as u8 - 32) as u8) as char
    } else {
        c
    }
}

/// `s` with each ASCII letter in upper case.
pub open spec fn uppercase(s: Seq<char>) -> Seq<char> {
    Seq::new(s.len(), |i: int| upper(s[i]))
}

/// A character that shows on paper: ASCII from the space to the tilde.
pub open spec fn printable(c: char) -> bool {
    ' ' <= c && c <= '~'
}

/// Every character of `s` is printable.
pub open spec fn all_printable(s: Seq<char>) -> bool {
    forall|i: int| 0 <= i < s.len() ==> printable(#[trigger] s[i])
}

/// `s` holds no lower-case ASCII letter.
pub open spec fn no_lowercase(s: Seq<char>) -> bool {
    forall|i: int| 0 <= i < s.len() ==> !('a' <= #[trigger] s[i] && s[i] <= 'z')
}

/// `s` begins with `prefix`.
pub open spec fn has_prefix(s: Seq<char>, prefix: Seq<char>) -> bool {
    prefix.len() <= s.len() && s.take(prefix.len() as int) == prefix
}

/// The pieces of `s` between occurrences of `sep`. There is always at least
/// one piece; a separator at either end leaves an empty piece there.
pub open spec fn split(s: Seq<char>, sep: char) -> Seq<Seq<char>>
    decreases s.len(),
{
    if s.len() == 0 {
        seq![Seq::<char>::empty()]
    } else {
        let before = split(s.drop_last(), sep);
        if s.last() == sep {
            before.push(Seq::<char>::empty())
        } else {
            before.update(before.len() - 1, before.last().push(s.last()))
        }
    }
}

/// The comma-separated fields of `s`.
pub open spec fn fields(s: Seq<char>) -> Seq<Seq<char>> {
    split(s, ',')
}

/// `s` holds no `sep`.
pub open spec fn free_of(s: Seq<char>, sep: char) -> bool {
    forall|i: int| 0 <= i < s.len() ==> #[trigger] s[i] != sep
}

/// The pieces put together again, with `sep` between neighbours.
pub open spec fn join(pieces: Seq<Seq<char>>, sep: char) -> Seq<char>
    decreases pieces.len(),
{
    if pieces.len() == 0 {
        Seq::<char>::empty()
    } else if pieces.len() == 1 {
        pieces[0]
    } else {
        join(pieces.drop_last(), sep).push(sep) + pieces.last()
    }
}

/// The contents of each vector of `pieces`.
pub open spec fn views(pieces: Seq<Vec<char>>) -> Seq<Seq<char>> {
    Seq::new(pieces.len(), |i: int| pieces[i]@)
}

/// Splitting never yields nothing.
pub proof fn lemma_split_nonempty(s: Seq<char>, sep: char)
    ensures
        split(s, sep).len() >= 1,
    decreases s.len(),
{
    if s.len() > 0 {
        lemma_split_nonempty(s.drop_last(), sep);
    }
}

/// No piece holds the separator, and joining the pieces gives `s` back:
/// splitting loses nothing and invents nothing.
pub proof fn lemma_split_join(s: Seq<char>, sep: char)
    ensures
        join(split(s, sep), sep) == s,
        forall|i: int| 0 <= i < split(s, sep).len() ==> free_of(#[trigger] split(s, sep)[i], sep),
    decreases s.len(),
{
    let pieces = split(s, sep);
    lemma_split_nonempty(s, sep);
    if s.len() == 0 {
        assert(pieces[0] =~= s);
    } else {
        let shorter = s.drop_last();
        let before = split(shorter, sep);
        lemma_split_nonempty(shorter, sep);
        lemma_split_join(shorter, sep);
        if s.last() == sep {
            assert(pieces.drop_last() =~= before);
            assert(join(pieces, sep) =~= s);
        } else {
            let grown = before.last().push(s.last());
            if before.len() == 1 {
                assert(join(pieces, sep) =~= s);
            } else {
                assert(pieces.drop_last() =~= before.drop_last());
                let front = join(before.drop_last(), sep).push(sep);
                assert(join(before, sep) == front + before.last());
                assert(join(pieces, sep) == front + grown);
                assert(front + grown =~= (front + before.last()).push(s.last()));
                assert(shorter.push(s.last()) =~= s);
            }
            assert forall|i: int| 0 <= i < pieces.len() implies free_of(
                #[trigger] pieces[i],
                sep,
            ) by {
                if i < before.len() - 1 {
                    assert(pieces[i] == before[i]);
                } else {
                    assert(free_of(before[i], sep));
                    assert(pieces[i] == grown);
                }
            }
        }
    }
}

/// A text without the separator is its own single piece.
pub proof fn lemma_split_free(s: Seq<char>, sep: char)
    requires
        free_of(s, sep),
    ensures
        split(s, sep) == seq![s],
    decreases s.len(),
{
    if s.len() == 0 {
        assert(s =~= Seq::<char>::empty());
    } else {
        lemma_split_free(s.drop_last(), sep);
        assert(s.drop_last().push(s.last()) =~= s);
        assert(split(s, sep) =~= seq![s]);
    }
}

/// Appending a separator and a text without one appends one piece.
pub proof fn lemma_split_append(head: Seq<char>, tail: Seq<char>, sep: char)
    requires
        free_of(tail, sep),
    ensures
        split(head.push(sep) + tail, sep) == split(head, sep).push(tail),
    decreases tail.len(),
{
    let whole = head.push(sep) + tail;
    lemma_split_nonempty(head, sep);
    if tail.len() == 0 {
        assert(whole.drop_last() =~= head);
        assert(tail =~= Seq::<char>::empty());
    } else {
        let shorter = tail.drop_last();
        lemma_split_append(head, shorter, sep);
        assert(whole.drop_last() =~= head.push(sep) + shorter);
        assert(shorter.push(tail.last()) =~= tail);
        assert(split(whole, sep) =~= split(head, sep).push(tail));
    }
}

/// A text without lower-case letters is its own upper-case form.
pub proof fn lemma_uppercase_unchanged(s: Seq<char>)
    requires
        no_lowercase(s),
    ensures
        uppercase(s) == s,
{
    assert(uppercase(s) =~= s);
}

/// An upper-case form holds no lower-case letter: to take the upper-case
/// form twice is to take it once.
pub proof fn lemma_uppercase_idempotent(s: Seq<char>)
    ensures
        no_lowercase(uppercase(s)),
        uppercase(uppercase(s)) == uppercase(s),
{
    assert(uppercase(uppercase(s)) =~= uppercase(s));
}

/// A text made of `prefix` and a rest begins with `prefix`, and the rest
/// follows.
pub proof fn lemma_prefix_of_concat(prefix: Seq<char>, rest: Seq<char>)
    ensures
        has_prefix(prefix + rest, prefix),
        (prefix + rest).skip(prefix.len() as int) == rest,
{
    assert((prefix + rest).take(prefix.len() as int) =~= prefix);
    assert((prefix + rest).skip(prefix.len() as int) =~= rest);
}

/// A text that differs from `prefix` at one place, or ends before it, does
/// not begin with `prefix`.
pub proof fn lemma_not_prefix(s: Seq<char>, prefix: Seq<char>, i: int)
    requires
        0 <= i < prefix.len(),
        i < s.len() ==> s[i] != prefix[i],
    ensures
        !has_prefix(s, prefix),
{
    if prefix.len() <= s.len() {
        assert(s.take(prefix.len() as int)[i] == s[i]);
    }
}

/// A text that begins with `prefix` is `prefix` and then the rest.
pub proof fn lemma_prefix_rest(s: Seq<char>, prefix: Seq<char>)
    requires
        has_prefix(s, prefix),
    ensures
        s == prefix + s.skip(prefix.len() as int),
{
    assert(s =~= s.take(prefix.len() as int) + s.skip(prefix.len() as int));
}

/// A text splits into one piece exactly if it is free of the separator, and
/// the piece is then the text.
pub proof fn lemma_split_single(s: Seq<char>, sep: char)
    ensures
        split(s, sep).len() == 1 <==> free_of(s, sep),
        split(s, sep).len() == 1 ==> split(s, sep)[0] == s,
{
    lemma_split_join(s, sep);
    if free_of(s, sep) {
        lemma_split_free(s, sep);
    }
    if split(s, sep).len() == 1 {
        assert(free_of(split(s, sep)[0], sep));
    }
}

/// A text is `prefix` and then one piece without separator exactly if it
/// begins with `prefix` and the rest splits into that piece alone.
pub proof fn lemma_prefixed_piece(s: Seq<char>, prefix: Seq<char>, piece: Seq<char>, sep: char)
    requires
        free_of(piece, sep),
    ensures
        s == prefix + piece <==> has_prefix(s, prefix) && split(
            s.skip(prefix.len() as int),
            sep,
        ) == seq![piece],
{
    let rest = s.skip(prefix.len() as int);
    if s == prefix + piece {
        assert(s.take(prefix.len() as int) =~= prefix);
        assert(rest =~= piece);
        lemma_split_free(piece, sep);
    }
    if has_prefix(s, prefix) && split(rest, sep) == seq![piece] {
        lemma_prefix_rest(s, prefix);
        lemma_split_single(rest, sep);
        assert(split(rest, sep)[0] == piece);
    }
}

/// The characters of `text`, in order.
pub fn chars_of(text: &str) -> (chars: Vec<char>)
    ensures
        chars@ == text@,
{
    let mut chars: Vec<char> = Vec::new();
    let mut rest = text.chars();
    loop
        invariant
            rest.obeys_prophetic_iter_laws(),
            rest.decrease() is Some,
            chars@ + rest.remaining() == text@,
        ensures
            chars@ == text@,
        decreases rest.decrease()->0,
    {
        let ghost before = rest.remaining();
        match rest.next() {
            Some(c) => {
                chars.push(c);
                assert(chars@ + rest.remaining() =~= text@) by {
                    assert(before =~= seq![c] + before.drop_first());
                }
            },
            None => {
                assert(chars@ =~= text@);
                break ;
            },
        }
    }
    chars
}

/// A string of the given characters.
pub fn text_of(chars: &[char]) -> (text: String)
    ensures
        text@ == chars@,
{
    let mut text = String::new();
    let mut i: usize = 0;
    while i < chars.len()
        invariant
            i <= chars.len(),
            text@ == chars@.take(i as int),
        decreases chars.len() - i,
    {
        text.push(chars[i]);
        assert(chars@.take(i + 1) =~= chars@.take(i as int).push(chars@[i as int]));
        i += 1;
    }
    assert(chars@.take(i as int) =~= chars@);
    text
}

/// The upper-case form of one character.
pub fn to_upper(c: char) -> (u: char)
    ensures
        u == upper(c),
{
    if 'a' <= c && c <= 'z' {
        ((c as u8) - 32) as char
    } else {
        c
    }
}

/// The upper-case form of a text.
pub fn to_uppercase(chars: &[char]) -> (up: Vec<char>)
    ensures
        up@ == uppercase(chars@),
{
    let mut up: Vec<char> = Vec::new();
    let mut i: usize = 0;
    while i < chars.len()
        invariant
            i <= chars.len(),
            up@ == uppercase(chars@.take(i as int)),
        decreases chars.len() - i,
    {
        up.push(to_upper(chars[i]));
        assert(up@ =~= uppercase(chars@.take(i + 1)));
        i += 1;
    }
    assert(chars@.take(i as int) =~= chars@);
    up
}

/// Whether `chars` is exactly the text `word`.
pub fn is_text(chars: &[char], word: &str) -> (same: bool)
    ensures
        same == (chars@ == word@),
{
    let expected = chars_of(word);
    if chars.len() != expected.len() {
        return false;
    }
    let mut i: usize = 0;
    while i < chars.len()
        invariant
            i <= chars.len(),
            chars.len() == expected.len(),
            expected@ == word@,
            chars@.take(i as int) == expected@.take(i as int),
        decreases chars.len() - i,
    {
        if chars[i] != expected[i] {
            return false;
        }
        assert(chars@.take(i + 1) =~= chars@.take(i as int).push(chars@[i as int]));
        assert(expected@.take(i + 1) =~= expected@.take(i as int).push(expected@[i as int]));
        i += 1;
    }
    assert(chars@.take(i as int) =~= chars@);
    assert(expected@.take(i as int) =~= expected@);
    true
}

/// What follows the prefix `word` in `chars`, if `chars` begins with it.
pub fn strip_prefix<'a>(chars: &'a [char], word: &str) -> (rest: Option<&'a [char]>)
    ensures
        has_prefix(chars@, word@) <==> rest is Some,
        rest matches Some(r) ==> r@ == chars@.skip(word@.len() as int),
{
    let expected = chars_of(word);
    let n = expected.len();
    if chars.len() < n {
        return None;
    }
    let head = vstd::slice::slice_subrange(chars, 0, n);
    assert(head@ =~= chars@.take(n as int));
    if is_text(head, word) {
        let rest = vstd::slice::slice_subrange(chars, n, chars.len());
        assert(rest@ =~= chars@.skip(n as int));
        Some(rest)
    } else {
        None
    }
}

/// Whether every character is printable.
pub fn is_printable(chars: &[char]) -> (all: bool)
    ensures
        all == all_printable(chars@),
{
    let mut i: usize = 0;
    while i < chars.len()
        invariant
            i <= chars.len(),
            forall|j: int| 0 <= j < i ==> printable(#[trigger] chars@[j]),
        decreases chars.len() - i,
    {
        let c = chars[i];
        if !(' ' <= c && c <= '~') {
            return false;
        }
        i += 1;
    }
    true
}

/// The pieces of `chars` between occurrences of `sep`.
pub fn split_chars(chars: &[char], sep: char) -> (pieces: Vec<Vec<char>>)
    ensures
        views(pieces@) == split(chars@, sep),
{
    let mut pieces: Vec<Vec<char>> = Vec::new();
    let mut current: Vec<char> = Vec::new();
    let mut i: usize = 0;
    assert(views(pieces@).push(current@) =~= split(chars@.take(0), sep));
    while i < chars.len()
        invariant
            i <= chars.len(),
            views(pieces@).push(current@) == split(chars@.take(i as int), sep),
        decreases chars.len() - i,
    {
        let c = chars[i];
        let ghost done = views(pieces@).push(current@);
        proof {
            let next = chars@.take(i + 1);
            assert(next.drop_last() =~= chars@.take(i as int));
            assert(next.last() == c);
        }
        if c == sep {
            pieces.push(current);
            current = Vec::new();
            assert(views(pieces@).push(current@) =~= done.push(Seq::<char>::empty()));
        } else {
            current.push(c);
            assert(views(pieces@).push(current@) =~= done.update(
                done.len() - 1,
                done.last().push(c),
            ));
        }
        i += 1;
    }
    assert(chars@.take(i as int) =~= chars@);
    let ghost done = views(pieces@).push(current@);
    pieces.push(current);
    assert(views(pieces@) =~= done);
    pieces
}

} // verus!
