//! The words of the user's dictionary, as they are listed and taken in.
use vstd::prelude::*;
use vstd::relations::{sorted_by, total_ordering};
use vstd::multiset::Multiset;

use crate::text::chars_of;
use crate::text::string_of;
#[allow(unused_imports)]
use crate::text::{string_texts, texts};

verus! {

/// Whether `a` comes before `b`, or is `b`, in the order of texts: by the first character in
/// which they differ, and a text comes before any longer one that it begins.
pub open spec fn text_le(a: Seq<char>, b: Seq<char>) -> bool
    decreases a.len(),
{
    if a.len() == 0 {
        true
    } else if b.len() == 0 {
        false
    } else if a[0] != b[0] {
        (a[0] as int) < (b[0] as int)
    } else {
        text_le(a.skip(1), b.skip(1))
    }
}

/// The order of texts.
pub open spec fn text_order() -> spec_fn(Seq<char>, Seq<char>) -> bool {
    |a: Seq<char>, b: Seq<char>| text_le(a, b)
}

/// Every text comes before itself or is itself.
pub proof fn lemma_text_le_reflexive(a: Seq<char>)
    ensures
        text_le(a, a),
    decreases a.len(),
{
    if a.len() > 0 {
        lemma_text_le_reflexive(a.skip(1));
    }
}

proof fn lemma_text_le_total(a: Seq<char>, b: Seq<char>)
    ensures
        text_le(a, b) || text_le(b, a),
    decreases a.len(),
{
    if a.len() > 0 && b.len() > 0 && a[0] == b[0] {
        lemma_text_le_total(a.skip(1), b.skip(1));
    }
}

proof fn lemma_text_le_antisymmetric(a: Seq<char>, b: Seq<char>)
    requires
        text_le(a, b),
        text_le(b, a),
    ensures
        a == b,
    decreases a.len(),
{
    if a.len() == 0 || b.len() == 0 {
        assert(a =~= b);
    } else {
        lemma_text_le_antisymmetric(a.skip(1), b.skip(1));
        assert(a == seq![a[0]] + a.skip(1));
        assert(b == seq![b[0]] + b.skip(1));
    }
}

proof fn lemma_text_le_transitive(a: Seq<char>, b: Seq<char>, c: Seq<char>)
    requires
        text_le(a, b),
        text_le(b, c),
    ensures
        text_le(a, c),
    decreases a.len(),
{
    if a.len() > 0 && a[0] == b[0] && b[0] == c[0] {
        lemma_text_le_transitive(a.skip(1), b.skip(1), c.skip(1));
    }
}

proof fn lemma_text_order_is_total()
    ensures
        total_ordering(text_order()),
{
    let le = text_order();
    assert forall|a: Seq<char>| #[trigger] le(a, a) by {
        lemma_text_le_reflexive(a);
    }
    assert forall|a: Seq<char>, b: Seq<char>| #[trigger] le(a, b) && #[trigger] le(b, a) implies a
        == b by {
        lemma_text_le_antisymmetric(a, b);
    }
    assert forall|a: Seq<char>, b: Seq<char>, c: Seq<char>| #[trigger]
        le(a, b) && #[trigger] le(b, c) implies le(a, c) by {
        lemma_text_le_transitive(a, b, c);
    }
    assert forall|a: Seq<char>, b: Seq<char>| #[trigger] le(a, b) || #[trigger] le(b, a) by {
        lemma_text_le_total(a, b);
    }
}

/// Tells whether `a` comes before `b`, or is `b`.
fn comes_first(a: &Vec<char>, b: &Vec<char>) -> (first: bool)
    ensures
        first == text_le(a@, b@),
{
    let mut i: usize = 0;
    assert(a@.skip(0) == a@);
    assert(b@.skip(0) == b@);
    while i < a.len() && i < b.len() && a[i] == b[i]
        invariant
            i <= a@.len(),
            i <= b@.len(),
            text_le(a@, b@) == text_le(a@.skip(i as int), b@.skip(i as int)),
        decreases a@.len() - i,
    {
        assert(a@.skip(i as int).skip(1) == a@.skip(i + 1));
        assert(b@.skip(i as int).skip(1) == b@.skip(i + 1));
        i += 1;
    }
    if i == a.len() {
        return true;
    }
    if i == b.len() {
        return false;
    }
    a[i] < b[i]
}

/// The number of words in front of which `word` does not belong, in a sorted list.
fn place_for(sorted: &Vec<Vec<char>>, word: &Vec<char>) -> (place: usize)
    requires
        sorted_by(texts(sorted@), text_order()),
    ensures
        place <= sorted@.len(),
        forall|i: int| 0 <= i < place ==> text_le(#[trigger] sorted@[i]@, word@),
        forall|i: int| place <= i < sorted@.len() ==> text_le(word@, #[trigger] sorted@[i]@),
{
    let ghost le = text_order();
    let mut low: usize = 0;
    let mut high: usize = sorted.len();
    while low < high
        invariant
            le == text_order(),
            sorted_by(texts(sorted@), le),
            low <= high <= sorted@.len(),
            forall|i: int| 0 <= i < low ==> text_le(#[trigger] sorted@[i]@, word@),
            forall|i: int| high <= i < sorted@.len() ==> text_le(word@, #[trigger] sorted@[i]@),
        decreases high - low,
    {
        let middle: usize = low + (high - low) / 2;
        let ghost m = middle as int;
        if comes_first(&sorted[middle], word) {
            assert forall|i: int| 0 <= i < m + 1 implies text_le(
                #[trigger] sorted@[i]@,
                word@,
            ) by {
                if i < m {
                    assert(le(texts(sorted@)[i], texts(sorted@)[m]));
                    lemma_text_le_transitive(sorted@[i]@, sorted@[m]@, word@);
                }
            }
            low = middle + 1;
        } else {
            proof {
                lemma_text_le_total(sorted@[m]@, word@);
            }
            assert forall|i: int| m <= i < sorted@.len() implies text_le(
                word@,
                #[trigger] sorted@[i]@,
            ) by {
                if m < i {
                    assert(le(texts(sorted@)[m], texts(sorted@)[i]));
                    lemma_text_le_transitive(word@, sorted@[m]@, sorted@[i]@);
                }
            }
            high = middle;
        }
    }
    low
}

/// The words, in the order of texts.
fn sort_words(words: Vec<Vec<char>>) -> (sorted: Vec<Vec<char>>)
    ensures
        sorted_by(texts(sorted@), text_order()),
        texts(sorted@).to_multiset() == texts(words@).to_multiset(),
{
    broadcast use vstd::seq_lib::group_to_multiset_ensures;

    let ghost le = text_order();
    let mut sorted: Vec<Vec<char>> = Vec::new();
    assert(texts(sorted@) =~= texts(words@.take(0)));
    for word in it: words
        invariant
            it.seq() == words@,
            le == text_order(),
            sorted_by(texts(sorted@), le),
            texts(sorted@).to_multiset() == texts(words@.take(it.index())).to_multiset(),
    {
        broadcast use vstd::seq_lib::group_to_multiset_ensures;

        let ghost k = it.index();
        let ghost before = texts(sorted@);
        let ghost text = word@;
        let place = place_for(&sorted, &word);
        sorted.insert(place, word);
        assert(texts(sorted@) =~= before.insert(place as int, text));
        proof {
            vstd::seq_lib::to_multiset_insert(before, place as int, text);
        }
        assert(texts(words@.take(k + 1)) =~= texts(words@.take(k)).push(text));
        assert forall|i: int, j: int| 0 <= i < j < sorted@.len() implies #[trigger] le(
            texts(sorted@)[i],
            texts(sorted@)[j],
        ) by {
            let i0 = if i < place { i } else { i - 1 };
            let j0 = if j < place { j } else { j - 1 };
            if i != place && j != place {
                assert(le(before[i0], before[j0]));
            }
        }
    }
    assert(words@.take(words@.len() as int) == words@);
    sorted
}

/// The words of the dictionary as they are listed: each as a string, in the order of texts.
pub fn get_dictionary(words: Vec<Vec<char>>) -> (listed: Vec<String>)
    ensures
        sorted_by(string_texts(listed@), text_order()),
        string_texts(listed@).to_multiset() == texts(words@).to_multiset(),
        listed@.map_values(|word: String| word@).to_multiset() == words@.map_values(
            |word: Vec<char>| word@,
        ).to_multiset(),
        forall|i: int, j: int|
            #![trigger listed@[i], listed@[j]]
            0 <= i < j < listed@.len() ==> {
                let one = listed@[i]@;
                let next = listed@[j]@;
                ||| one.is_prefix_of(next)
                ||| exists|k: int|
                    0 <= k < one.len() && k < next.len() && one.take(k) == next.take(k) && (
                    #[trigger] one[k] as int) < (next[k] as int)
            },
{
    let sorted = sort_words(words);
    let mut listed: Vec<String> = Vec::new();
    let mut i: usize = 0;
    while i < sorted.len()
        invariant
            i <= sorted@.len(),
            string_texts(listed@) =~= texts(sorted@.take(i as int)),
        decreases sorted@.len() - i,
    {
        let ghost before = string_texts(listed@);
        listed.push(string_of(&sorted[i]));
        assert(string_texts(listed@) =~= before.push(sorted@[i as int]@));
        assert(texts(sorted@.take(i + 1)) =~= texts(sorted@.take(i as int)).push(
            sorted@[i as int]@,
        ));
        i += 1;
    }
    assert(sorted@.take(i as int) == sorted@);
    let ghost order = text_order();
    assert forall|i: int, j: int|
        #![trigger listed@[i], listed@[j]]
        0 <= i < j < listed@.len() implies {
        let one = listed@[i]@;
        let next = listed@[j]@;
        ||| one.is_prefix_of(next)
        ||| exists|k: int|
            0 <= k < one.len() && k < next.len() && one.take(k) == next.take(k) && (
            #[trigger] one[k] as int) < (next[k] as int)
    } by {
        assert(order(string_texts(listed@)[i], string_texts(listed@)[j]));
        law_order_of_texts(listed@[i]@, listed@[j]@);
    }
    assert(listed@.map_values(|word: String| word@) =~= string_texts(listed@));
    assert(words@.map_values(|word: Vec<char>| word@) =~= texts(words@));
    listed
}

/// The words that a dictionary made of `words` takes in, as characters and in their order.
pub fn set_dictionary(words: Vec<String>) -> (entries: Vec<Vec<char>>)
    ensures
        texts(entries@) == string_texts(words@),
{
    let mut entries: Vec<Vec<char>> = Vec::new();
    let mut i: usize = 0;
    while i < words.len()
        invariant
            i <= words@.len(),
            texts(entries@) =~= string_texts(words@.take(i as int)),
        decreases words@.len() - i,
    {
        let ghost before = texts(entries@);
        entries.push(chars_of(words[i].as_str()));
        assert(texts(entries@) =~= before.push(words@[i as int]@));
        assert(string_texts(words@.take(i + 1)) =~= string_texts(words@.take(i as int)).push(
            words@[i as int]@,
        ));
        i += 1;
    }
    assert(words@.take(i as int) == words@);
    entries
}

/// The list of a dictionary does not depend on the order in which the dictionary gives its
/// words: two sorted lists of the same words are the same list.
pub proof fn law_list_is_independent_of_order(
    words: Multiset<Seq<char>>,
    one: Seq<Seq<char>>,
    other: Seq<Seq<char>>,
)
    requires
        sorted_by(one, text_order()),
        one.to_multiset() == words,
        sorted_by(other, text_order()),
        other.to_multiset() == words,
    ensures
        one == other,
{
    lemma_text_order_is_total();
    vstd::seq_lib::lemma_sorted_unique(one, other, text_order());
}

/// One text comes before another, or is the other, exactly where it begins the other, or where at
/// the first place at which they differ it has the character with the smaller code point.
pub proof fn law_order_of_texts(a: Seq<char>, b: Seq<char>)
    ensures
        text_le(a, b) <==> {
            ||| a.is_prefix_of(b)
            ||| exists|k: int|
                0 <= k < a.len() && k < b.len() && a.take(k) == b.take(k) && (#[trigger] a[k] as int)
                    < (b[k] as int)
        },
    decreases a.len(),
{
    if a.len() == 0 {
        assert(b.take(0) == a);
        assert(a.is_prefix_of(b));
    } else if b.len() == 0 {
        assert(!a.is_prefix_of(b));
    } else if a[0] != b[0] {
        assert(a.take(0) == b.take(0));
        assert(!a.is_prefix_of(b)) by {
            if a.is_prefix_of(b) {
                assert(a[0] == b.take(a.len() as int)[0]);
            }
        }
        assert forall|k: int|
            0 < k < a.len() && k < b.len() implies #[trigger] a.take(k) != b.take(k) by {
            assert(a.take(k)[0] == a[0] && b.take(k)[0] == b[0]);
        }
    } else {
        let a1 = a.skip(1);
        let b1 = b.skip(1);
        law_order_of_texts(a1, b1);
        assert(a == seq![a[0]] + a1);
        assert(b == seq![b[0]] + b1);
        if a1.is_prefix_of(b1) {
            assert(a =~= b.take(a.len() as int));
        }
        if a.is_prefix_of(b) {
            assert forall|i: int| 0 <= i < a1.len() implies a1[i] == b1[i] by {
                assert(a[i + 1] == b.take(a.len() as int)[i + 1]);
            }
            assert(a1 =~= b1.take(a1.len() as int));
        }
        if exists|k: int|
            0 <= k < a1.len() && k < b1.len() && a1.take(k) == b1.take(k) && (#[trigger] a1[k] as int)
                < (b1[k] as int) {
            let k = choose|k: int|
                0 <= k < a1.len() && k < b1.len() && a1.take(k) == b1.take(k) && (
                #[trigger] a1[k] as int) < (b1[k] as int);
            assert(a.take(k + 1) =~= seq![a[0]] + a1.take(k));
            assert(b.take(k + 1) =~= seq![b[0]] + b1.take(k));
            assert(a[k + 1] == a1[k] && b[k + 1] == b1[k]);
        }
        if exists|k: int|
            0 <= k < a.len() && k < b.len() && a.take(k) == b.take(k) && (#[trigger] a[k] as int) < (
            b[k] as int) {
            let k = choose|k: int|
                0 <= k < a.len() && k < b.len() && a.take(k) == b.take(k) && (#[trigger] a[k] as int)
                    < (b[k] as int);
            assert(k > 0);
            assert(a1.take(k - 1) =~= a.take(k).skip(1));
            assert(b1.take(k - 1) =~= b.take(k).skip(1));
            assert(a1[k - 1] == a[k] && b1[k - 1] == b[k]);
        }
    }
}

/// Two words of a sorted list stand in the order of their characters: the earlier one begins the
/// later one, or has the smaller code point at the first place at which they differ.
pub proof fn law_list_ascends(listed: Seq<Seq<char>>, i: int, j: int)
    requires
        sorted_by(listed, text_order()),
        0 <= i < j < listed.len(),
    ensures
        ({
            let one = listed[i];
            let next = listed[j];
            ||| one.is_prefix_of(next)
            ||| exists|k: int|
                0 <= k < one.len() && k < next.len() && one.take(k) == next.take(k) && (
                #[trigger] one[k] as int) < (next[k] as int)
        }),
{
    let order = text_order();
    assert(order(listed[i], listed[j]));
    law_order_of_texts(listed[i], listed[j]);
}

} // verus!
