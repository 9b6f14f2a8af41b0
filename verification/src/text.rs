//! Text as sequences of characters: the small string operations that the rest of the
//! library decides on, each with the sequence it produces.
use vstd::prelude::*;
use vstd::string::StringExecFns;

verus! {

/// `String::push` of the standard library appends one character and changes nothing else.
pub assume_specification[ String::push ](s: &mut String, c: char)
    ensures
        final(s)@ == old(s)@.push(c),
;

/// The characters with the Unicode property `White_Space`.
pub open spec fn white_space(c: char) -> bool {
    let u = c as int;
    ||| 0x09 <= u <= 0x0D
    ||| u == 0x20
    ||| u == 0x85
    ||| u == 0xA0
    ||| u == 0x1680
    ||| 0x2000 <= u <= 0x200A
    ||| u == 0x2028
    ||| u == 0x2029
    ||| u == 0x202F
    ||| u == 0x205F
    ||| u == 0x3000
}

/// `s` without its leading white space.
pub open spec fn trim_start_seq(s: Seq<char>) -> Seq<char>
    decreases s.len(),
{
    if s.len() > 0 && white_space(s[0]) {
        trim_start_seq(s.drop_first())
    } else {
        s
    }
}

/// `s` without its trailing white space.
pub open spec fn trim_end_seq(s: Seq<char>) -> Seq<char>
    decreases s.len(),
{
    if s.len() > 0 && white_space(s.last()) {
        trim_end_seq(s.drop_last())
    } else {
        s
    }
}

/// `s` without the white space around it.
pub open spec fn trim_seq(s: Seq<char>) -> Seq<char> {
    trim_end_seq(trim_start_seq(s))
}

/// The pieces of `s` between the occurrences of `separator`; there is always at least one.
pub open spec fn pieces_seq(s: Seq<char>, separator: char) -> Seq<Seq<char>>
    decreases s.len(),
{
    if s.len() == 0 {
        seq![Seq::<char>::empty()]
    } else {
        let before = pieces_seq(s.drop_last(), separator);
        if s.last() == separator {
            before.push(Seq::<char>::empty())
        } else {
            before.drop_last().push(before.last().push(s.last()))
        }
    }
}

/// `s` without `suffix` at its end, or `s` itself where it does not end in `suffix`.
pub open spec fn without_suffix_seq(s: Seq<char>, suffix: Seq<char>) -> Seq<char> {
    if suffix.len() <= s.len() && s.skip(s.len() - suffix.len()) == suffix {
        s.take(s.len() - suffix.len())
    } else {
        s
    }
}

/// The texts that a vector of character vectors holds.
pub open spec fn texts(words: Seq<Vec<char>>) -> Seq<Seq<char>> {
    words.map_values(|w: Vec<char>| w@)
}

/// The texts that a vector of strings holds.
pub open spec fn string_texts(words: Seq<String>) -> Seq<Seq<char>> {
    words.map_values(|w: String| w@)
}

/// Tells whether `c` is white space.
pub fn is_white_space(c: char) -> (b: bool)
    ensures
        b == white_space(c),
{
    let u: u32 = c as u32;
    (0x09 <= u && u <= 0x0D) || u == 0x20 || u == 0x85 || u == 0xA0 || u == 0x1680 || (0x2000 <= u
        && u <= 0x200A) || u == 0x2028 || u == 0x2029 || u == 0x202F || u == 0x205F || u == 0x3000
}

/// Tells whether two texts are the same.
pub fn same_text(a: &str, b: &str) -> (same: bool)
    ensures
        same == (a@ == b@),
{
    a.to_owned() == b.to_owned()
}

/// `head` followed by `tail`.
pub fn joined(head: &str, tail: &str) -> (text: String)
    ensures
        text@ == head@ + tail@,
{
    let mut text = head.to_owned();
    text.append(tail);
    text
}

/// The characters of `s`.
pub fn chars_of(s: &str) -> (chars: Vec<char>)
    ensures
        chars@ == s@,
{
    let mut chars: Vec<char> = Vec::new();
    for c in it: s.chars()
        invariant
            chars@ == it.seq().take(it.index()),
            it.seq() == s@,
    {
        chars.push(c);
    }
    chars
}

/// The string made of `chars`.
pub fn string_of(chars: &Vec<char>) -> (s: String)
    ensures
        s@ == chars@,
{
    let mut s = String::new();
    let mut i: usize = 0;
    while i < chars.len()
        invariant
            i <= chars.len(),
            s@ == chars@.take(i as int),
        decreases chars.len() - i,
    {
        s.push(chars[i]);
        i += 1;
    }
    s
}

/// `chars` without the white space around them.
pub fn trim(chars: &Vec<char>) -> (trimmed: Vec<char>)
    ensures
        trimmed@ == trim_seq(chars@),
{
    let mut start: usize = 0;
    assert(chars@.skip(0) == chars@);
    while start < chars.len() && is_white_space(chars[start])
        invariant
            start <= chars.len(),
            trim_start_seq(chars@) == trim_start_seq(chars@.skip(start as int)),
        decreases chars.len() - start,
    {
        assert(chars@.skip(start as int).drop_first() == chars@.skip(start + 1));
        start += 1;
    }
    let ghost rest = chars@.skip(start as int);
    assert(trim_start_seq(chars@) == rest);
    let mut end: usize = chars.len();
    assert(rest == chars@.subrange(start as int, end as int));
    while start < end && is_white_space(chars[end - 1])
        invariant
            start <= end <= chars.len(),
            trim_end_seq(rest) == trim_end_seq(chars@.subrange(start as int, end as int)),
        decreases end - start,
    {
        assert(chars@.subrange(start as int, end as int).drop_last() == chars@.subrange(
            start as int,
            end - 1,
        ));
        end -= 1;
    }
    let ghost kept = chars@.subrange(start as int, end as int);
    assert(trim_end_seq(kept) == kept);
    copy_range(chars, start, end)
}

/// The characters of `chars` from `start` up to `end`.
fn copy_range(chars: &Vec<char>, start: usize, end: usize) -> (part: Vec<char>)
    requires
        start <= end <= chars@.len(),
    ensures
        part@ == chars@.subrange(start as int, end as int),
{
    let mut part: Vec<char> = Vec::new();
    let mut i: usize = start;
    while i < end
        invariant
            start <= i <= end <= chars@.len(),
            part@ == chars@.subrange(start as int, i as int),
        decreases end - i,
    {
        part.push(chars[i]);
        i += 1;
    }
    part
}

/// Tells whether two character vectors hold the same text.
pub fn same_chars(a: &Vec<char>, b: &Vec<char>) -> (same: bool)
    ensures
        same == (a@ == b@),
{
    if a.len() != b.len() {
        return false;
    }
    let mut i: usize = 0;
    while i < a.len()
        invariant
            a@.len() == b@.len(),
            i <= a@.len(),
            a@.take(i as int) == b@.take(i as int),
        decreases a@.len() - i,
    {
        if a[i] != b[i] {
            assert(a@[i as int] != b@[i as int]);
            return false;
        }
        assert(a@.take(i + 1) == a@.take(i as int).push(a@[i as int]));
        assert(b@.take(i + 1) == b@.take(i as int).push(b@[i as int]));
        i += 1;
    }
    assert(a@.take(i as int) == a@);
    assert(b@.take(i as int) == b@);
    true
}

/// `chars` without `suffix` at their end, or all of them where they do not end in it.
pub fn without_suffix(chars: &Vec<char>, suffix: &Vec<char>) -> (rest: Vec<char>)
    ensures
        rest@ == without_suffix_seq(chars@, suffix@),
{
    if suffix.len() <= chars.len() {
        let cut: usize = chars.len() - suffix.len();
        let tail = copy_range(chars, cut, chars.len());
        assert(tail@ == chars@.skip(cut as int));
        if same_chars(&tail, suffix) {
            let rest = copy_range(chars, 0, cut);
            assert(rest@ == chars@.take(cut as int));
            return rest;
        }
    }
    let rest = copy_range(chars, 0, chars.len());
    assert(rest@ == chars@);
    rest
}

/// The pieces of `chars` between the occurrences of `separator`.
pub fn pieces(chars: &Vec<char>, separator: char) -> (parts: Vec<Vec<char>>)
    ensures
        texts(parts@) == pieces_seq(chars@, separator),
        parts@.len() > 0,
{
    let mut parts: Vec<Vec<char>> = Vec::new();
    let mut current: Vec<char> = Vec::new();
    let mut i: usize = 0;
    assert(texts(parts@).push(current@) == pieces_seq(chars@.take(0), separator));
    while i < chars.len()
        invariant
            i <= chars@.len(),
            texts(parts@).push(current@) == pieces_seq(chars@.take(i as int), separator),
        decreases chars@.len() - i,
    {
        let c = chars[i];
        let ghost done = texts(parts@);
        let ghost open_piece = current@;
        assert(chars@.take(i + 1).drop_last() == chars@.take(i as int));
        assert(done.push(open_piece).drop_last() == done);
        if c == separator {
            parts.push(current);
            current = Vec::new();
            assert(texts(parts@) == done.push(open_piece));
        } else {
            current.push(c);
        }
        i += 1;
    }
    assert(chars@.take(i as int) == chars@);
    let ghost done = texts(parts@);
    let ghost last = current@;
    parts.push(current);
    assert(texts(parts@) == done.push(last));
    parts
}

/// A trimmed text has no white space at either end, and trimming it again changes nothing.
pub proof fn law_trimmed_text_is_clean(s: Seq<char>)
    ensures
        trim_seq(s).len() > 0 ==> !white_space(trim_seq(s)[0]) && !white_space(
            trim_seq(s).last(),
        ),
        trim_seq(trim_seq(s)) == trim_seq(s),
{
    lemma_trim_start(s);
    lemma_trim_end(trim_start_seq(s));
}

/// Every character that trimming keeps is a character of the text.
pub proof fn lemma_trim_keeps(s: Seq<char>, c: char)
    requires
        trim_seq(s).contains(c),
    ensures
        s.contains(c),
{
    lemma_trim_start(s);
    lemma_trim_end(trim_start_seq(s));
    let started = trim_start_seq(s);
    let i = choose|i: int| 0 <= i < trim_seq(s).len() && trim_seq(s)[i] == c;
    assert(started[i] == c);
    assert(s[s.len() - started.len() + i] == c);
}

proof fn lemma_trim_start(s: Seq<char>)
    ensures
        trim_start_seq(s).len() <= s.len(),
        trim_start_seq(s) == s.skip(s.len() - trim_start_seq(s).len()),
        trim_start_seq(s).len() > 0 ==> !white_space(trim_start_seq(s)[0]),
        forall|k: int| 0 <= k < s.len() - trim_start_seq(s).len() ==> white_space(#[trigger] s[k]),
    decreases s.len(),
{
    if s.len() > 0 && white_space(s[0]) {
        let rest = s.drop_first();
        lemma_trim_start(rest);
        assert forall|k: int| 0 <= k < s.len() - trim_start_seq(s).len() implies white_space(
            #[trigger] s[k],
        ) by {
            if k > 0 {
                assert(white_space(rest[k - 1]));
            }
        }
        assert(trim_start_seq(s) == s.skip(s.len() - trim_start_seq(s).len()));
    } else {
        assert(s.skip(0) == s);
    }
}

proof fn lemma_trim_end(s: Seq<char>)
    ensures
        trim_end_seq(s).len() <= s.len(),
        trim_end_seq(s) == s.take(trim_end_seq(s).len() as int),
        trim_end_seq(s).len() > 0 ==> !white_space(trim_end_seq(s).last()),
        forall|k: int| trim_end_seq(s).len() <= k < s.len() ==> white_space(#[trigger] s[k]),
    decreases s.len(),
{
    if s.len() > 0 && white_space(s.last()) {
        let rest = s.drop_last();
        lemma_trim_end(rest);
        assert forall|k: int| trim_end_seq(s).len() <= k < s.len() implies white_space(
            #[trigger] s[k],
        ) by {
            if k < rest.len() {
                assert(white_space(rest[k]));
            }
        }
        assert(trim_end_seq(s) == s.take(trim_end_seq(s).len() as int));
    } else {
        assert(s.take(s.len() as int) == s);
    }
}

/// No piece of a text holds the separator.
pub proof fn lemma_pieces_hold_no_separator(s: Seq<char>, separator: char)
    ensures
        pieces_seq(s, separator).len() > 0,
        forall|i: int|
            0 <= i < pieces_seq(s, separator).len() ==> !(#[trigger] pieces_seq(
                s,
                separator,
            )[i]).contains(separator),
    decreases s.len(),
{
    if s.len() > 0 {
        let before = pieces_seq(s.drop_last(), separator);
        lemma_pieces_hold_no_separator(s.drop_last(), separator);
        if s.last() != separator {
            let grown = before.last().push(s.last());
            assert(!before[before.len() - 1].contains(separator));
            assert(!grown.contains(separator)) by {
                if grown.contains(separator) {
                    let k = choose|k: int| 0 <= k < grown.len() && grown[k] == separator;
                    assert(before.last()[k] == separator);
                }
            }
        }
    }
}

/// The white space characters are these twenty-five.
pub proof fn law_white_space_characters(c: char)
    ensures
        white_space(c) <==> set![
            0x09int, 0x0A, 0x0B, 0x0C, 0x0D, 0x20, 0x85, 0xA0, 0x1680, 0x2000, 0x2001, 0x2002,
            0x2003, 0x2004, 0x2005, 0x2006, 0x2007, 0x2008, 0x2009, 0x200A, 0x2028, 0x2029, 0x202F,
            0x205F, 0x3000,
        ].contains(c as int),
{
}

/// Trimming takes away white space at the two ends and nothing else: what is left is one stretch
/// of the text, and everything in front of it and behind it is white space.
pub proof fn law_trim_takes_only_white_space(s: Seq<char>)
    ensures
        exists|i: int, j: int|
            0 <= i <= j <= s.len() && trim_seq(s) == #[trigger] s.subrange(i, j) && (forall|k: int|
                0 <= k < i || j <= k < s.len() ==> white_space(#[trigger] s[k])),
{
    let started = trim_start_seq(s);
    lemma_trim_start(s);
    lemma_trim_end(started);
    let i = s.len() - started.len();
    let j = i + trim_seq(s).len();
    assert(trim_seq(s) == s.subrange(i, j));
    assert forall|k: int| 0 <= k < i || j <= k < s.len() implies white_space(#[trigger] s[k]) by {
        if j <= k {
            assert(white_space(started[k - i]));
        }
    }
}

/// A text without the separator is one piece. In a text with one, what stands in front of the
/// first separator is the first piece, and the others are those of what follows it.
pub proof fn law_text_is_cut_at_separators(first: Seq<char>, rest: Seq<char>, separator: char)
    requires
        !first.contains(separator),
    ensures
        pieces_seq(first, separator) == seq![first],
        pieces_seq(first.push(separator) + rest, separator) == seq![first] + pieces_seq(
            rest,
            separator,
        ),
    decreases first.len() + rest.len(),
{
    let none = Seq::<char>::empty();
    if first.len() > 0 {
        let shorter = first.drop_last();
        assert(!shorter.contains(separator)) by {
            if shorter.contains(separator) {
                let k = choose|k: int| 0 <= k < shorter.len() && shorter[k] == separator;
                assert(first[k] == separator);
            }
        }
        law_text_is_cut_at_separators(shorter, none, separator);
        assert(first[first.len() - 1] == first.last());
        assert(shorter.push(first.last()) == first);
        assert(pieces_seq(first, separator) =~= seq![first]);
    } else {
        assert(first == none);
        assert(pieces_seq(first, separator) =~= seq![first]);
    }
    let whole = first.push(separator) + rest;
    if rest.len() == 0 {
        assert(whole == first.push(separator));
        assert(whole.drop_last() == first);
        assert(rest == none);
        assert(pieces_seq(whole, separator) =~= seq![first] + pieces_seq(rest, separator));
    } else {
        let before = rest.drop_last();
        law_text_is_cut_at_separators(first, before, separator);
        lemma_pieces_hold_no_separator(before, separator);
        assert(whole.drop_last() == first.push(separator) + before);
        assert(whole.last() == rest.last());
        assert(pieces_seq(whole, separator) =~= seq![first] + pieces_seq(rest, separator));
    }
}

/// A suffix is taken off a text that ends in it, and nothing is taken off any other text.
pub proof fn law_suffix_comes_off(s: Seq<char>, suffix: Seq<char>)
    ensures
        without_suffix_seq(s + suffix, suffix) == s,
        (forall|stem: Seq<char>| #[trigger] (stem + suffix) != s) ==> without_suffix_seq(s, suffix)
            == s,
{
    let joined_text = s + suffix;
    assert(joined_text.skip(joined_text.len() - suffix.len()) == suffix);
    assert(joined_text.take(joined_text.len() - suffix.len()) == s);
    if suffix.len() <= s.len() && s.skip(s.len() - suffix.len()) == suffix {
        assert(s.take(s.len() - suffix.len()) + suffix == s);
    }
}

/// The texts of a list of words are those of its words, one for each and in their order.
pub proof fn law_texts_of_words(words: Seq<Vec<char>>, strings: Seq<String>)
    ensures
        texts(words).len() == words.len(),
        forall|i: int| 0 <= i < words.len() ==> #[trigger] texts(words)[i] == words[i]@,
        string_texts(strings).len() == strings.len(),
        forall|i: int|
            0 <= i < strings.len() ==> #[trigger] string_texts(strings)[i] == strings[i]@,
{
}

} // verus!
