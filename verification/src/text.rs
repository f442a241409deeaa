//! Text as a sequence of characters: the few operations on it that the handlers'
//! decisions are made of, each with an exact statement of what it returns.

use vstd::prelude::*;

verus! {

/// Appends one character to a string.
///
/// Trusted: this is `String::push` of the standard library, which is documented to
/// append the given character to the end of the string.
#[verifier::external_body]
fn push_char(text: &mut String, c: char)
    ensures
        final(text)@ == old(text)@.push(c),
{
    text.push(c)
}

/// The characters of `text`, in order.
pub fn chars_of(text: &str) -> (chars: Vec<char>)
    ensures
        chars@ == text@,
{
    let mut chars: Vec<char> = Vec::new();
    let count = text.unicode_len();
    let mut i: usize = 0;
    while i < count
        invariant
            i <= count,
            count == text@.len(),
            chars@ == text@.subrange(0, i as int),
        decreases count - i,
    {
        chars.push(text.get_char(i));
        assert(chars@ =~= text@.subrange(0, i + 1));
        i = i + 1;
    }
    assert(chars@ =~= text@);
    chars
}

/// The string made of `chars`, in order.
pub fn string_of(chars: &Vec<char>) -> (text: String)
    ensures
        text@ == chars@,
{
    let mut text = String::new();
    let mut i: usize = 0;
    while i < chars.len()
        invariant
            i <= chars@.len(),
            text@ == chars@.subrange(0, i as int),
        decreases chars@.len() - i,
    {
        push_char(&mut text, chars[i]);
        assert(text@ =~= chars@.subrange(0, i + 1));
        i = i + 1;
    }
    assert(text@ =~= chars@);
    text
}

/// Whether `c` is white space: the characters with the Unicode property of that name.
pub open spec fn is_whitespace(c: char) -> bool {
    let u = c as u32;
    ||| 0x09 <= u <= 0x0D
    ||| u == 0x20
    ||| u == 0x85
    ||| u == 0xA0
    ||| u == 0x1680
    ||| 0x2000 <= u <= 0x200A
    ||| u == 0x2028
    ||| u == 0x2029
    ||| u == 0x202F
    ||| u == 0x205F
    ||| u == 0x3000
}

/// Whether `c` is white space.
pub fn whitespace(c: char) -> (white: bool)
    ensures
        white == is_whitespace(c),
{
    let u = c as u32;
    (0x09 <= u && u <= 0x0D) || u == 0x20 || u == 0x85 || u == 0xA0 || u == 0x1680 || (0x2000
        <= u && u <= 0x200A) || u == 0x2028 || u == 0x2029 || u == 0x202F || u == 0x205F || u
        == 0x3000
}

/// The number of bytes that `c` takes in UTF-8.
pub open spec fn utf8_width(c: char) -> nat {
    let u = c as u32;
    if u < 0x80 {
        1
    } else if u < 0x800 {
        2
    } else if u < 0x10000 {
        3
    } else {
        4
    }
}

/// The number of bytes that `text` takes in UTF-8.
pub open spec fn byte_len(text: Seq<char>) -> nat
    decreases text.len(),
{
    if text.len() == 0 {
        0
    } else {
        byte_len(text.drop_last()) + utf8_width(text.last())
    }
}

/// The number of bytes that `c` takes in UTF-8.
pub fn width_of(c: char) -> (width: usize)
    ensures
        width == utf8_width(c),
{
    let u = c as u32;
    if u < 0x80 {
        1
    } else if u < 0x800 {
        2
    } else if u < 0x10000 {
        3
    } else {
        4
    }
}

/// Whether the UTF-8 form of `chars` is longer than `limit` bytes.
pub fn longer_than(chars: &Vec<char>, limit: usize) -> (longer: bool)
    ensures
        longer == (byte_len(chars@) > limit),
{
    let mut total: usize = 0;
    let mut i: usize = 0;
    while i < chars.len()
        invariant
            i <= chars@.len(),
            total == byte_len(chars@.take(i as int)),
            total <= limit,
        decreases chars@.len() - i,
    {
        let width = width_of(chars[i]);
        assert(chars@.take(i + 1).drop_last() =~= chars@.take(i as int));
        if width > limit - total {
            proof {
                lemma_byte_len_grows(chars@, i + 1);
            }
            return true;
        }
        total = total + width;
        i = i + 1;
    }
    assert(chars@.take(i as int) =~= chars@);
    false
}

/// A prefix takes no more bytes than the whole.
pub proof fn lemma_byte_len_grows(text: Seq<char>, upto: int)
    requires
        0 <= upto <= text.len(),
    ensures
        byte_len(text.take(upto)) <= byte_len(text),
    decreases text.len() - upto,
{
    if upto < text.len() {
        lemma_byte_len_grows(text, upto + 1);
        assert(text.take(upto + 1).drop_last() =~= text.take(upto));
    } else {
        assert(text.take(upto) =~= text);
    }
}

/// The pieces of `text` between the occurrences of `sep`, in order. A text with
/// `n` separators has `n + 1` pieces, some of which may be empty.
pub open spec fn split(text: Seq<char>, sep: char) -> Seq<Seq<char>>
    decreases text.len(),
{
    if text.len() == 0 {
        seq![Seq::<char>::empty()]
    } else {
        let before = split(text.drop_last(), sep);
        if text.last() == sep {
            before.push(Seq::<char>::empty())
        } else {
            before.update(before.len() - 1, before.last().push(text.last()))
        }
    }
}

/// There is always at least one piece.
pub proof fn lemma_split_nonempty(text: Seq<char>, sep: char)
    ensures
        split(text, sep).len() >= 1,
    decreases text.len(),
{
    if text.len() > 0 {
        lemma_split_nonempty(text.drop_last(), sep);
    }
}

/// The views of a list of strings.
pub open spec fn views(items: Seq<String>) -> Seq<Seq<char>> {
    Seq::new(items.len(), |i: int| items[i]@)
}

/// The pieces of `text` between the occurrences of `sep`.
pub fn split_on(text: &str, sep: char) -> (pieces: Vec<String>)
    ensures
        views(pieces@) == split(text@, sep),
        pieces@.len() >= 1,
{
    let chars = chars_of(text);
    let mut pieces: Vec<String> = Vec::new();
    let mut current: Vec<char> = Vec::new();
    let mut i: usize = 0;
    while i < chars.len()
        invariant
            i <= chars@.len(),
            views(pieces@).push(current@) == split(chars@.take(i as int), sep),
        decreases chars@.len() - i,
    {
        let c = chars[i];
        proof {
            assert(chars@.take(i + 1).drop_last() =~= chars@.take(i as int));
            assert(chars@.take(i + 1).last() == c);
        }
        let ghost before = views(pieces@).push(current@);
        if c == sep {
            pieces.push(string_of(&current));
            current = Vec::new();
            assert(views(pieces@).push(current@) =~= before.push(Seq::<char>::empty()));
        } else {
            current.push(c);
            assert(views(pieces@).push(current@) =~= before.update(
                before.len() - 1,
                before.last().push(c),
            ));
        }
        i = i + 1;
    }
    assert(chars@.take(i as int) =~= chars@);
    let ghost before = views(pieces@).push(current@);
    pieces.push(string_of(&current));
    assert(views(pieces@) =~= before);
    pieces
}

/// The words of `text`: its longest stretches without white space, in order.
pub open spec fn words(text: Seq<char>) -> Seq<Seq<char>>
    decreases text.len(),
{
    if text.len() == 0 {
        Seq::<Seq<char>>::empty()
    } else {
        let before = words(text.drop_last());
        if is_whitespace(text.last()) {
            before
        } else if text.len() >= 2 && !is_whitespace(text[text.len() - 2]) && before.len() > 0 {
            before.update(before.len() - 1, before.last().push(text.last()))
        } else {
            before.push(seq![text.last()])
        }
    }
}

/// No word is empty, and no word holds white space.
pub proof fn lemma_words_are_words(text: Seq<char>, word: int)
    requires
        0 <= word < words(text).len(),
    ensures
        words(text)[word].len() > 0,
        forall|at: int|
            0 <= at < words(text)[word].len() ==> !is_whitespace(#[trigger] words(text)[word][at]),
    decreases text.len(),
{
    if text.len() > 0 {
        let before = words(text.drop_last());
        if is_whitespace(text.last()) {
            lemma_words_are_words(text.drop_last(), word);
        } else if text.len() >= 2 && !is_whitespace(text[text.len() - 2]) && before.len() > 0 {
            lemma_words_are_words(text.drop_last(), word);
        } else if word < before.len() {
            lemma_words_are_words(text.drop_last(), word);
        }
    }
}

/// A text without white space is one word, and a text of white space has none.
pub proof fn lemma_words_of_plain_text(text: Seq<char>)
    ensures
        (forall|i: int| 0 <= i < text.len() ==> !is_whitespace(#[trigger] text[i])) && text.len()
            > 0 ==> words(text) == seq![text],
        (forall|i: int| 0 <= i < text.len() ==> is_whitespace(#[trigger] text[i])) ==> words(
            text,
        ).len() == 0,
    decreases text.len(),
{
    if text.len() > 0 {
        let front = text.drop_last();
        lemma_words_of_plain_text(front);
        if (forall|i: int| 0 <= i < text.len() ==> !is_whitespace(#[trigger] text[i])) {
            assert forall|i: int| 0 <= i < front.len() implies !is_whitespace(
                #[trigger] front[i],
            ) by {
                assert(front[i] == text[i]);
            }
            if front.len() > 0 {
                assert(words(front) == seq![front]);
                assert(words(text) =~= seq![text]) by {
                    assert(front.push(text.last()) =~= text);
                }
            } else {
                assert(seq![text.last()] =~= text);
                assert(words(front) =~= Seq::<Seq<char>>::empty());
                assert(words(text) =~= seq![text]);
            }
        }
        if (forall|i: int| 0 <= i < text.len() ==> is_whitespace(#[trigger] text[i])) {
            assert forall|i: int| 0 <= i < front.len() implies is_whitespace(
                #[trigger] front[i],
            ) by {
                assert(front[i] == text[i]);
            }
        }
    }
}

/// The words of `text`.
pub fn split_words(text: &str) -> (pieces: Vec<String>)
    ensures
        views(pieces@) == words(text@),
{
    let chars = chars_of(text);
    let mut pieces: Vec<String> = Vec::new();
    let mut current: Vec<char> = Vec::new();
    let mut i: usize = 0;
    while i < chars.len()
        invariant
            i <= chars@.len(),
            current@.len() > 0 ==> i > 0 && !is_whitespace(chars@[i - 1]) && views(
                pieces@,
            ).push(current@) == words(chars@.take(i as int)),
            current@.len() == 0 ==> (i == 0 || is_whitespace(chars@[i - 1])) && views(pieces@)
                == words(chars@.take(i as int)),
        decreases chars@.len() - i,
    {
        let c = chars[i];
        let ghost upto = chars@.take(i as int);
        let ghost next = chars@.take(i + 1);
        proof {
            assert(next.drop_last() =~= upto);
            assert(next.last() == c);
            if i > 0 {
                assert(next[next.len() - 2] == chars@[i - 1]);
            }
        }
        if whitespace(c) {
            if current.len() > 0 {
                let ghost before = views(pieces@).push(current@);
                pieces.push(string_of(&current));
                current = Vec::new();
                assert(views(pieces@) =~= before);
            }
        } else {
            let ghost before = views(pieces@).push(current@);
            let ghost closed = views(pieces@);
            let ghost open = current@.len() > 0;
            current.push(c);
            proof {
                if open {
                    assert(views(pieces@).push(current@) =~= before.update(
                        before.len() - 1,
                        before.last().push(c),
                    ));
                } else {
                    assert(current@ =~= seq![c]);
                    assert(views(pieces@).push(current@) =~= closed.push(seq![c]));
                }
            }
        }
        i = i + 1;
    }
    assert(chars@.take(i as int) =~= chars@);
    if current.len() > 0 {
        let ghost before = views(pieces@).push(current@);
        pieces.push(string_of(&current));
        assert(views(pieces@) =~= before);
    }
    pieces
}

/// The pieces put together again, with `sep` between each two of them.
pub open spec fn join(pieces: Seq<Seq<char>>, sep: Seq<char>) -> Seq<char>
    decreases pieces.len(),
{
    if pieces.len() == 0 {
        Seq::<char>::empty()
    } else if pieces.len() == 1 {
        pieces[0]
    } else {
        join(pieces.drop_last(), sep) + sep + pieces.last()
    }
}

/// Taking a text apart at a separator and putting the pieces together again with
/// the same separator gives the text back.
pub proof fn lemma_join_of_split(text: Seq<char>, sep: char)
    ensures
        join(split(text, sep), seq![sep]) == text,
    decreases text.len(),
{
    if text.len() > 0 {
        let front = text.drop_last();
        let before = split(front, sep);
        lemma_split_nonempty(front, sep);
        lemma_join_of_split(front, sep);
        if text.last() == sep {
            let pieces = before.push(Seq::<char>::empty());
            assert(pieces.drop_last() =~= before);
            assert(join(pieces, seq![sep]) =~= front + seq![sep]);
            assert(front + seq![sep] =~= text);
        } else {
            let grown = before.last().push(text.last());
            let pieces = before.update(before.len() - 1, grown);
            if before.len() == 1 {
                assert(join(before, seq![sep]) == before[0]);
                assert(join(pieces, seq![sep]) == grown);
                assert(grown =~= text);
            } else {
                assert(pieces.drop_last() =~= before.drop_last());
                assert(join(pieces, seq![sep]) == join(before.drop_last(), seq![sep]) + seq![sep]
                    + grown);
                assert(join(before, seq![sep]) == join(before.drop_last(), seq![sep]) + seq![sep]
                    + before.last());
                assert(join(pieces, seq![sep]) =~= join(before, seq![sep]).push(text.last()));
                assert(front.push(text.last()) =~= text);
            }
        }
    } else {
        assert(split(text, sep) =~= seq![Seq::<char>::empty()]);
        assert(join(split(text, sep), seq![sep]) =~= text);
    }
}

/// No piece holds the separator.
pub proof fn lemma_pieces_hold_no_separator(text: Seq<char>, sep: char, piece: int, at: int)
    requires
        0 <= piece < split(text, sep).len(),
        0 <= at < split(text, sep)[piece].len(),
    ensures
        split(text, sep)[piece][at] != sep,
    decreases text.len(),
{
    if text.len() > 0 {
        let before = split(text.drop_last(), sep);
        lemma_split_nonempty(text.drop_last(), sep);
        if text.last() == sep {
            lemma_pieces_hold_no_separator(text.drop_last(), sep, piece, at);
        } else if piece < before.len() - 1 {
            lemma_pieces_hold_no_separator(text.drop_last(), sep, piece, at);
        } else if at < before.last().len() {
            lemma_pieces_hold_no_separator(text.drop_last(), sep, piece, at);
        }
    }
}

/// The items from position `from` on; none when there are not that many.
pub open spec fn tail<A>(items: Seq<A>, from: int) -> Seq<A> {
    if 0 <= from <= items.len() {
        items.skip(from)
    } else {
        Seq::empty()
    }
}

/// The pieces from `from` on put together, with `sep` between each two of them.
pub fn join_from(pieces: &Vec<String>, from: usize, sep: &str) -> (joined: String)
    ensures
        joined@ == join(tail(views(pieces@), from as int), sep@),
{
    let mut joined = String::new();
    if from >= pieces.len() {
        assert(tail(views(pieces@), from as int).len() == 0);
        return joined;
    }
    let ghost rest = views(pieces@).skip(from as int);
    let mut i: usize = from;
    while i < pieces.len()
        invariant
            from <= i <= pieces@.len(),
            from < pieces@.len(),
            rest == views(pieces@).skip(from as int),
            joined@ == join(rest.take(i - from), sep@),
        decreases pieces@.len() - i,
    {
        let ghost upto = rest.take(i - from + 1);
        proof {
            assert(upto.drop_last() =~= rest.take(i - from));
            assert(upto.last() == pieces@[i as int]@);
        }
        if i > from {
            joined.append(sep);
        }
        joined.append(pieces[i].as_str());
        proof {
            if i == from {
                assert(upto.len() == 1);
                assert(joined@ =~= upto[0]);
            }
        }
        i = i + 1;
    }
    assert(rest.take(i - from) =~= rest);
    joined
}

/// Whether `pattern` stands in `text` at position `at`.
pub open spec fn occurs_at(text: Seq<char>, pattern: Seq<char>, at: int) -> bool {
    0 <= at && at + pattern.len() <= text.len() && text.subrange(at, at + pattern.len())
        == pattern
}

/// Whether `pattern` stands somewhere in `text`.
pub open spec fn contains(text: Seq<char>, pattern: Seq<char>) -> bool {
    exists|at: int| occurs_at(text, pattern, at)
}

/// Whether `text` begins with `prefix`.
pub open spec fn starts_with(text: Seq<char>, prefix: Seq<char>) -> bool {
    occurs_at(text, prefix, 0)
}

/// Whether `pattern` stands in `text` at position `at`.
pub fn matches_at(text: &Vec<char>, pattern: &Vec<char>, at: usize) -> (found: bool)
    ensures
        found == occurs_at(text@, pattern@, at as int),
{
    if pattern.len() > text.len() || at > text.len() - pattern.len() {
        return false;
    }
    let mut k: usize = 0;
    while k < pattern.len()
        invariant
            k <= pattern@.len(),
            at + pattern@.len() <= text@.len(),
            text@.len() <= usize::MAX,
            forall|j: int| 0 <= j < k ==> text@[at + j] == pattern@[j],
        decreases pattern@.len() - k,
    {
        if text[at + k] != pattern[k] {
            assert(text@.subrange(at as int, at + pattern@.len())[k as int] != pattern@[k as int]);
            return false;
        }
        k = k + 1;
    }
    assert(text@.subrange(at as int, at + pattern@.len()) =~= pattern@);
    true
}

/// Whether `pattern` stands somewhere in `text`.
pub fn has(text: &Vec<char>, pattern: &Vec<char>) -> (found: bool)
    ensures
        found == contains(text@, pattern@),
{
    if pattern.len() > text.len() {
        return false;
    }
    let last = text.len() - pattern.len();
    let mut at: usize = 0;
    loop
        invariant
            at <= last,
            last == text@.len() - pattern@.len(),
            forall|j: int| 0 <= j < at ==> !occurs_at(text@, pattern@, j),
        decreases last - at,
    {
        if matches_at(text, pattern, at) {
            return true;
        }
        if at == last {
            return false;
        }
        at = at + 1;
    }
}

/// Whether `text` is the same text as `other`.
pub fn same(text: &str, other: &str) -> (equal: bool)
    ensures
        equal == (text@ == other@),
{
    let a = String::from_str(text);
    let b = String::from_str(other);
    a == b
}

/// `text` with every occurrence of `pattern` taken out, found from the left and
/// none overlapping another. An empty pattern takes nothing out.
pub open spec fn without(text: Seq<char>, pattern: Seq<char>) -> Seq<char>
    decreases text.len(),
{
    if pattern.len() == 0 || text.len() < pattern.len() {
        text
    } else if occurs_at(text, pattern, 0) {
        without(text.skip(pattern.len() as int), pattern)
    } else {
        seq![text[0]] + without(text.skip(1), pattern)
    }
}

/// `text` with every occurrence of `pattern` taken out.
pub fn remove_all(text: &str, pattern: &str) -> (rest: String)
    ensures
        rest@ == without(text@, pattern@),
{
    let chars = chars_of(text);
    let pat = chars_of(pattern);
    if pat.len() == 0 {
        return string_of(&chars);
    }
    let mut kept: Vec<char> = Vec::new();
    let mut i: usize = 0;
    assert(chars@.skip(0) =~= chars@);
    assert(kept@ + without(chars@, pat@) =~= without(chars@, pat@));
    while i < chars.len()
        invariant
            i <= chars@.len(),
            pat@.len() > 0,
            chars@ == text@,
            pat@ == pattern@,
            kept@ + without(chars@.skip(i as int), pat@) == without(chars@, pat@),
        decreases chars@.len() - i,
    {
        let ghost here = chars@.skip(i as int);
        if matches_at(&chars, &pat, i) {
            proof {
                assert(chars@.subrange(i as int, i + pat@.len()) =~= here.subrange(
                    0,
                    pat@.len() as int,
                ));
                assert(here.skip(pat@.len() as int) =~= chars@.skip(i + pat@.len()));
            }
            i = i + pat.len();
        } else {
            proof {
                if here.len() >= pat@.len() {
                    assert(chars@.subrange(i as int, i + pat@.len()) =~= here.subrange(
                        0,
                        pat@.len() as int,
                    ));
                    assert(here.skip(1) =~= chars@.skip(i + 1));
                    assert(kept@.push(chars@[i as int]) + without(chars@.skip(i + 1), pat@)
                        =~= kept@ + (seq![here[0]] + without(here.skip(1), pat@)));
                }
            }
            if chars.len() - i < pat.len() {
                assert(without(here, pat@) == here);
                let mut j: usize = i;
                while j < chars.len()
                    invariant
                        i <= j <= chars@.len(),
                        kept@ + chars@.skip(j as int) == without(chars@, pat@),
                    decreases chars@.len() - j,
                {
                    let ghost so_far = kept@;
                    kept.push(chars[j]);
                    assert(kept@ + chars@.skip(j + 1) =~= so_far + chars@.skip(j as int)) by {
                        assert(chars@.skip(j as int) =~= seq![chars@[j as int]] + chars@.skip(
                            j + 1,
                        ));
                    }
                    j = j + 1;
                }
                assert(kept@ =~= kept@ + chars@.skip(j as int));
                return string_of(&kept);
            }
            kept.push(chars[i]);
            i = i + 1;
        }
    }
    assert(kept@ =~= kept@ + without(chars@.skip(i as int), pat@));
    string_of(&kept)
}

/// The position of the last `c` in `text`, if there is one.
pub open spec fn last_index_of(text: Seq<char>, c: char) -> Option<int>
    decreases text.len(),
{
    if text.len() == 0 {
        None
    } else if text.last() == c {
        Some(text.len() - 1)
    } else {
        last_index_of(text.drop_last(), c)
    }
}

/// The position of the last `c` in `text`, if there is one.
pub fn rfind(text: &Vec<char>, c: char) -> (found: Option<usize>)
    ensures
        match found {
            Some(at) => last_index_of(text@, c) == Some(at as int) && at < text@.len(),
            None => last_index_of(text@, c) is None,
        },
{
    let mut i: usize = text.len();
    assert(text@.take(i as int) =~= text@);
    while i > 0
        invariant
            i <= text@.len(),
            last_index_of(text@, c) == last_index_of(text@.take(i as int), c),
        decreases i,
    {
        if text[i - 1] == c {
            return Some(i - 1);
        }
        assert(text@.take(i as int).drop_last() =~= text@.take(i - 1));
        i = i - 1;
    }
    assert(text@.take(0).len() == 0);
    None
}

/// The character that stands for the digit `d`.
pub open spec fn digit_char(d: nat) -> char {
    if d == 0 {
        '0'
    } else if d == 1 {
        '1'
    } else if d == 2 {
        '2'
    } else if d == 3 {
        '3'
    } else if d == 4 {
        '4'
    } else if d == 5 {
        '5'
    } else if d == 6 {
        '6'
    } else if d == 7 {
        '7'
    } else if d == 8 {
        '8'
    } else {
        '9'
    }
}

/// The decimal digits of `n`, the most significant first, without leading zeros.
pub open spec fn digits(n: nat) -> Seq<char>
    decreases n,
{
    if n < 10 {
        seq![digit_char(n)]
    } else {
        digits(n / 10).push(digit_char(n % 10))
    }
}

/// The decimal form of `n`, with a minus sign in front of a negative number.
pub open spec fn decimal(n: int) -> Seq<char> {
    if n < 0 {
        seq!['-'] + digits((-n) as nat)
    } else {
        digits(n as nat)
    }
}

fn digit_of(d: u64) -> (c: char)
    requires
        d < 10,
    ensures
        c == digit_char(d as nat),
{
    if d == 0 {
        '0'
    } else if d == 1 {
        '1'
    } else if d == 2 {
        '2'
    } else if d == 3 {
        '3'
    } else if d == 4 {
        '4'
    } else if d == 5 {
        '5'
    } else if d == 6 {
        '6'
    } else if d == 7 {
        '7'
    } else if d == 8 {
        '8'
    } else {
        '9'
    }
}

fn push_digits(n: u64, out: &mut Vec<char>)
    ensures
        final(out)@ == old(out)@ + digits(n as nat),
    decreases n,
{
    if n < 10 {
        out.push(digit_of(n));
        assert(out@ =~= old(out)@ + digits(n as nat));
    } else {
        push_digits(n / 10, out);
        out.push(digit_of(n % 10));
        assert(out@ =~= old(out)@ + digits(n as nat));
    }
}

/// The decimal digits of `n`.
pub fn digits_of(n: u64) -> (text: String)
    ensures
        text@ == digits(n as nat),
{
    let mut out: Vec<char> = Vec::new();
    push_digits(n, &mut out);
    assert(out@ =~= digits(n as nat));
    string_of(&out)
}

/// The decimal form of `n`.
pub fn decimal_of(n: i64) -> (text: String)
    ensures
        text@ == decimal(n as int),
{
    let mut out: Vec<char> = Vec::new();
    if n < 0 {
        out.push('-');
        let magnitude: u64 = (-(n as i128)) as u64;
        push_digits(magnitude, &mut out);
    } else {
        push_digits(n as u64, &mut out);
    }
    assert(out@ =~= decimal(n as int));
    string_of(&out)
}

/// `text` in lower case, as `str::to_lowercase` of the standard library maps it.
pub uninterp spec fn lowercase(text: Seq<char>) -> Seq<char>;

/// `text` in upper case, as `str::to_uppercase` of the standard library maps it.
pub uninterp spec fn uppercase(text: Seq<char>) -> Seq<char>;

/// `text` in lower case.
///
/// Trusted: this is `str::to_lowercase` of the standard library. Its result
/// depends on the text alone, by the case mappings of the Unicode standard, which
/// are not restated here: the contract only gives the result its name.
#[verifier::external_body]
pub(crate) fn to_lower(text: &str) -> (lower: String)
    ensures
        lower@ == lowercase(text@),
{
    text.to_lowercase()
}

/// `text` in upper case.
///
/// Trusted: this is `str::to_uppercase` of the standard library. Its result
/// depends on the text alone, by the case mappings of the Unicode standard, which
/// are not restated here: the contract only gives the result its name.
#[verifier::external_body]
pub(crate) fn to_upper(text: &str) -> (upper: String)
    ensures
        upper@ == uppercase(text@),
{
    text.to_uppercase()
}

/// `text` without the white space at its beginning.
pub open spec fn trimmed_start(text: Seq<char>) -> Seq<char>
    decreases text.len(),
{
    if text.len() > 0 && is_whitespace(text[0]) {
        trimmed_start(text.skip(1))
    } else {
        text
    }
}

/// `text` without the white space at its end.
pub open spec fn trimmed_end(text: Seq<char>) -> Seq<char>
    decreases text.len(),
{
    if text.len() > 0 && is_whitespace(text.last()) {
        trimmed_end(text.drop_last())
    } else {
        text
    }
}

/// `text` without the white space at its beginning and at its end.
pub open spec fn trimmed(text: Seq<char>) -> Seq<char> {
    trimmed_end(trimmed_start(text))
}

/// `text` without the white space at its beginning and at its end.
pub fn trim(text: &Vec<char>) -> (inner: Vec<char>)
    ensures
        inner@ == trimmed(text@),
{
    let mut start: usize = 0;
    assert(text@.skip(0) =~= text@);
    while start < text.len() && whitespace(text[start])
        invariant
            start <= text@.len(),
            trimmed_start(text@) == trimmed_start(text@.skip(start as int)),
        decreases text@.len() - start,
    {
        assert(text@.skip(start as int).skip(1) =~= text@.skip(start + 1));
        start = start + 1;
    }
    assert(trimmed_start(text@) == text@.skip(start as int));
    let mut end: usize = text.len();
    assert(text@.subrange(start as int, end as int) =~= text@.skip(start as int));
    while end > start && whitespace(text[end - 1])
        invariant
            start <= end <= text@.len(),
            trimmed(text@) == trimmed_end(text@.subrange(start as int, end as int)),
        decreases end,
    {
        assert(text@.subrange(start as int, end as int).drop_last() =~= text@.subrange(
            start as int,
            end - 1,
        ));
        end = end - 1;
    }
    let mut inner: Vec<char> = Vec::new();
    let mut i: usize = start;
    while i < end
        invariant
            start <= i <= end <= text@.len(),
            inner@ == text@.subrange(start as int, i as int),
        decreases end - i,
    {
        inner.push(text[i]);
        assert(inner@ =~= text@.subrange(start as int, i + 1));
        i = i + 1;
    }
    inner
}

/// Whether `c` is one of the ten digits.
pub open spec fn is_digit(c: char) -> bool {
    '0' <= c <= '9'
}

/// The number that the digit `c` stands for.
pub open spec fn digit_value(c: char) -> nat {
    (c as u32 - '0' as u32) as nat
}

/// The number that a row of digits stands for.
pub open spec fn number(digits: Seq<char>) -> nat
    decreases digits.len(),
{
    if digits.len() == 0 {
        0
    } else {
        number(digits.drop_last()) * 10 + digit_value(digits.last())
    }
}

/// Whether every character of `text` is a digit.
pub open spec fn all_digits(text: Seq<char>) -> bool {
    forall|i: int| 0 <= i < text.len() ==> is_digit(#[trigger] text[i])
}

/// The number that `text` stands for as a `u32`: an optional plus sign and at
/// least one digit, nothing else, and no more than fits.
pub open spec fn parsed_u32(text: Seq<char>) -> Option<u32> {
    let body = if text.len() > 0 && text[0] == '+' {
        text.skip(1)
    } else {
        text
    };
    if body.len() > 0 && all_digits(body) && number(body) <= u32::MAX {
        Some(number(body) as u32)
    } else {
        None
    }
}

/// A row of digits stands for no less than any of its beginnings.
pub proof fn lemma_number_grows(digits: Seq<char>, upto: int)
    requires
        0 <= upto <= digits.len(),
    ensures
        number(digits.take(upto)) <= number(digits),
    decreases digits.len() - upto,
{
    if upto < digits.len() {
        lemma_number_grows(digits, upto + 1);
        assert(digits.take(upto + 1).drop_last() =~= digits.take(upto));
    } else {
        assert(digits.take(upto) =~= digits);
    }
}

/// The number that `text` stands for as a `u32`, if it stands for one.
pub fn parse_u32(text: &Vec<char>) -> (value: Option<u32>)
    ensures
        value == parsed_u32(text@),
{
    let start: usize = if text.len() > 0 && text[0] == '+' {
        1
    } else {
        0
    };
    if start >= text.len() {
        return None;
    }
    let ghost body = if text@.len() > 0 && text@[0] == '+' {
        text@.skip(1)
    } else {
        text@
    };
    assert(body =~= text@.skip(start as int));
    let mut total: u64 = 0;
    let mut i: usize = start;
    assert(body.take(0) =~= Seq::<char>::empty());
    while i < text.len()
        invariant
            start <= i <= text@.len(),
            start < text@.len(),
            body == text@.skip(start as int),
            body == if text@.len() > 0 && text@[0] == '+' {
                text@.skip(1)
            } else {
                text@
            },
            total == number(body.take(i - start)),
            total <= u32::MAX,
            forall|k: int| 0 <= k < i - start ==> is_digit(#[trigger] body[k]),
        decreases text@.len() - i,
    {
        let c = text[i];
        assert(body[i - start] == c);
        if !('0' <= c && c <= '9') {
            return None;
        }
        let digit = (c as u32 - '0' as u32) as u64;
        assert(body.take(i - start + 1).drop_last() =~= body.take(i - start));
        assert(body.take(i - start + 1).last() == c);
        total = total * 10 + digit;
        if total > 0xFFFF_FFFF {
            proof {
                lemma_number_grows(body, i - start + 1);
            }
            return None;
        }
        i = i + 1;
    }
    assert(body.take(i - start) =~= body);
    Some(total as u32)
}

/// `text` without the white space at its beginning.
pub fn trim_start(text: &str) -> (rest: String)
    ensures
        rest@ == trimmed_start(text@),
{
    let chars = chars_of(text);
    let mut start: usize = 0;
    assert(chars@.skip(0) =~= chars@);
    while start < chars.len() && whitespace(chars[start])
        invariant
            start <= chars@.len(),
            trimmed_start(chars@) == trimmed_start(chars@.skip(start as int)),
        decreases chars@.len() - start,
    {
        assert(chars@.skip(start as int).skip(1) =~= chars@.skip(start + 1));
        start = start + 1;
    }
    let mut rest: Vec<char> = Vec::new();
    let mut i: usize = start;
    while i < chars.len()
        invariant
            start <= i <= chars@.len(),
            rest@ == chars@.subrange(start as int, i as int),
        decreases chars@.len() - i,
    {
        rest.push(chars[i]);
        assert(rest@ =~= chars@.subrange(start as int, i + 1));
        i = i + 1;
    }
    assert(rest@ =~= chars@.skip(start as int));
    string_of(&rest)
}

} // verus!
