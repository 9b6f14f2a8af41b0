//! Finding the name under which an application is shown: the Spotlight query for its bundle
//! identifier, and the name read out of the paths that the query answers with.
use vstd::prelude::*;

use crate::text::chars_of;
use crate::text::pieces;
use crate::text::same_chars;
use crate::text::string_of;
use crate::text::trim;
use crate::text::without_suffix;
#[allow(unused_imports)]
use crate::text::{
    law_suffix_comes_off, law_trimmed_text_is_clean, lemma_pieces_hold_no_separator,
    lemma_trim_keeps, pieces_seq, texts, trim_seq, white_space, without_suffix_seq,
};

verus! {

/// Whether a piece of a path is a component of it: the empty pieces around repeated and
/// trailing separators and the pieces that stand for the directory itself are not.
pub open spec fn is_component(piece: Seq<char>) -> bool {
    piece.len() > 0 && piece != seq!['.']
}

/// The last component among the pieces of a path.
pub open spec fn last_component(parts: Seq<Seq<char>>) -> Option<Seq<char>>
    decreases parts.len(),
{
    if parts.len() == 0 {
        None
    } else if is_component(parts.last()) {
        Some(parts.last())
    } else {
        last_component(parts.drop_last())
    }
}

/// The file name at the end of a path: its last component, unless that is the parent
/// directory.
pub open spec fn file_name_seq(path: Seq<char>) -> Option<Seq<char>> {
    match last_component(pieces_seq(path, '/')) {
        Some(name) => if name == seq!['.', '.'] { None } else { Some(name) },
        None => None,
    }
}

/// The ending of the file name of an application bundle.
pub open spec fn app_suffix() -> Seq<char> {
    seq!['.', 'a', 'p', 'p']
}

/// The name under which the application at a path is shown: its file name without the bundle
/// ending and without white space around it, if anything is left.
pub open spec fn display_name_seq(path: Seq<char>) -> Option<Seq<char>> {
    match file_name_seq(path) {
        Some(name) => {
            let shown = trim_seq(without_suffix_seq(name, app_suffix()));
            if shown.len() == 0 {
                None
            } else {
                Some(shown)
            }
        },
        None => None,
    }
}

/// The first name that one of the lines gives, each read without the white space around it.
pub open spec fn first_display_name(lines: Seq<Seq<char>>) -> Option<Seq<char>>
    decreases lines.len(),
{
    if lines.len() == 0 {
        None
    } else {
        match display_name_seq(trim_seq(lines[0])) {
            Some(name) => Some(name),
            None => first_display_name(lines.drop_first()),
        }
    }
}

/// The characters that stand for `c` between the quotes of a query.
pub open spec fn escaped_char(c: char) -> Seq<char> {
    if c == '\\' || c == '"' {
        seq!['\\', c]
    } else {
        seq![c]
    }
}

/// `s` as it is written between the quotes of a query.
pub open spec fn escaped(s: Seq<char>) -> Seq<char>
    decreases s.len(),
{
    if s.len() == 0 {
        Seq::empty()
    } else {
        escaped(s.drop_last()) + escaped_char(s.last())
    }
}

/// The text that stands between the quotes of a query, read from the left: the text up to the
/// first quote that no backslash precedes, or `None` where there is no such quote.
pub open spec fn quoted_text(s: Seq<char>) -> Option<Seq<char>>
    decreases s.len(),
{
    if s.len() == 0 {
        None
    } else if s[0] == '"' {
        Some(Seq::empty())
    } else if s[0] == '\\' {
        if s.len() == 1 {
            None
        } else {
            match quoted_text(s.skip(2)) {
                Some(rest) => Some(seq![s[1]] + rest),
                None => None,
            }
        }
    } else {
        match quoted_text(s.skip(1)) {
            Some(rest) => Some(seq![s[0]] + rest),
            None => None,
        }
    }
}

/// The beginning of the query, up to and with the opening quote.
pub open spec fn query_head() -> Seq<char> {
    "kMDItemCFBundleIdentifier == \""@
}

/// The query for a bundle identifier, read without the white space around it; there is none
/// for a blank one.
pub open spec fn query_seq(bundle_id: Seq<char>) -> Option<Seq<char>> {
    if trim_seq(bundle_id).len() == 0 {
        None
    } else {
        Some(query_head() + escaped(trim_seq(bundle_id)) + seq!['"'])
    }
}

/// The view of an optional string.
pub open spec fn text_of(s: Option<String>) -> Option<Seq<char>> {
    match s {
        Some(s) => Some(s@),
        None => None,
    }
}

/// The file name at the end of a path whose components are separated by slashes.
pub fn file_name(path: &Vec<char>) -> (name: Option<Vec<char>>)
    ensures
        name is Some <==> file_name_seq(path@) is Some,
        name matches Some(name) ==> Some(name@) == file_name_seq(path@),
{
    let mut parts = pieces(path, '/');
    let ghost all = texts(parts@);
    while parts.len() > 0
        invariant
            last_component(all) == last_component(texts(parts@)),
            all == pieces_seq(path@, '/'),
        decreases parts@.len(),
    {
        let ghost seen = parts@;
        let piece = parts.pop().unwrap();
        assert(texts(seen).last() == piece@);
        assert(texts(seen).drop_last() =~= texts(parts@));
        let dot: Vec<char> = vec!['.'];
        assert(dot@ =~= seq!['.']);
        if piece.len() > 0 && !same_chars(&piece, &dot) {
            let parent: Vec<char> = vec!['.', '.'];
            assert(parent@ =~= seq!['.', '.']);
            if same_chars(&piece, &parent) {
                return None;
            }
            return Some(piece);
        }
    }
    None
}

/// The name under which the application at `path` is shown.
pub fn display_name_from_app_path(path: &str) -> (name: Option<String>)
    ensures
        text_of(name) == display_name_seq(path@),
{
    display_name_from_chars(&chars_of(path))
}

/// The name under which the application at a path is shown.
fn display_name_from_chars(path: &Vec<char>) -> (name: Option<String>)
    ensures
        text_of(name) == display_name_seq(path@),
{
    match file_name(path) {
        None => None,
        Some(name) => {
            let suffix: Vec<char> = vec!['.', 'a', 'p', 'p'];
            assert(suffix@ =~= app_suffix());
            let shown = trim(&without_suffix(&name, &suffix));
            if shown.len() == 0 {
                None
            } else {
                Some(string_of(&shown))
            }
        },
    }
}

/// The first name that a line of `output` gives. A carriage return at the end of a line is
/// white space, and a last line without an ending counts as one.
pub fn display_name_from_output(output: &str) -> (name: Option<String>)
    ensures
        text_of(name) == first_display_name(pieces_seq(output@, '\n')),
        name is None <==> forall|i: int|
            0 <= i < pieces_seq(output@, '\n').len() ==> display_name_seq(
                trim_seq(#[trigger] pieces_seq(output@, '\n')[i]),
            ) is None,
        name matches Some(name) ==> exists|i: int|
            0 <= i < pieces_seq(output@, '\n').len() && display_name_seq(
                trim_seq(#[trigger] pieces_seq(output@, '\n')[i]),
            ) == Some(name@) && forall|j: int|
                0 <= j < i ==> display_name_seq(
                    trim_seq(#[trigger] pieces_seq(output@, '\n')[j]),
                ) is None,
{
    let lines = pieces(&chars_of(output), '\n');
    proof {
        law_first_named_line(texts(lines@));
    }
    first_name_of(&lines)
}

/// The first name that a line gives.
fn first_name_of(lines: &Vec<Vec<char>>) -> (name: Option<String>)
    ensures
        text_of(name) == first_display_name(texts(lines@)),
{
    let ghost all = texts(lines@);
    let mut i: usize = 0;
    assert(all.skip(0) == all);
    while i < lines.len()
        invariant
            i <= lines@.len(),
            all == texts(lines@),
            first_display_name(all) == first_display_name(all.skip(i as int)),
        decreases lines@.len() - i,
    {
        let ghost rest = all.skip(i as int);
        assert(rest[0] == lines@[i as int]@);
        assert(rest.drop_first() == all.skip(i + 1));
        let name = display_name_from_chars(&trim(&lines[i]));
        if name.is_some() {
            return name;
        }
        i += 1;
    }
    assert(all.skip(i as int).len() == 0);
    None
}

/// The text that `String::from_utf8_lossy` of the standard library reads out of `bytes`.
pub uninterp spec fn utf8_lossy(bytes: Seq<u8>) -> Seq<char>;

/// `String::from_utf8_lossy` of the standard library, made into an owned string. The text is a
/// function of the bytes; bytes that are valid UTF-8 give the text that they encode. What
/// stands in place of invalid bytes is left to the name.
#[verifier::external_body]
fn read_lossy(bytes: &[u8]) -> (text: String)
    ensures
        text@ == utf8_lossy(bytes@),
        vstd::utf8::valid_utf8(bytes@) ==> text@ == vstd::utf8::decode_utf8(bytes@),
{
    String::from_utf8_lossy(bytes).into_owned()
}

/// The name that the answer to a query gives: none where the query failed, else the first
/// that a line of its output gives.
pub fn display_name_from_answer(succeeded: bool, output: &[u8]) -> (name: Option<String>)
    ensures
        !succeeded ==> name is None,
        succeeded ==> text_of(name) == first_display_name(pieces_seq(utf8_lossy(output@), '\n')),
        succeeded && vstd::utf8::valid_utf8(output@) ==> text_of(name) == first_display_name(
            pieces_seq(vstd::utf8::decode_utf8(output@), '\n'),
        ),
{
    if !succeeded {
        return None;
    }
    let text = read_lossy(output);
    display_name_from_output(text.as_str())
}

/// The Spotlight query for the application with a bundle identifier.
pub fn display_name_query(bundle_id: &str) -> (query: Option<String>)
    ensures
        text_of(query) == query_seq(bundle_id@),
{
    let id = trim(&chars_of(bundle_id));
    if id.len() == 0 {
        return None;
    }
    let mut query = "kMDItemCFBundleIdentifier == \"".to_owned();
    let mut i: usize = 0;
    assert(query@ + escaped(id@.take(0)) == query_head());
    while i < id.len()
        invariant
            i <= id@.len(),
            query@ == query_head() + escaped(id@.take(i as int)),
        decreases id@.len() - i,
    {
        let c = id[i];
        let ghost before = query@;
        if c == '\\' || c == '"' {
            query.push('\\');
        }
        query.push(c);
        assert(query@ == before + escaped_char(c));
        assert(id@.take(i + 1).drop_last() == id@.take(i as int));
        assert(before + escaped_char(c) == query_head() + escaped(id@.take(i + 1)));
        i += 1;
    }
    assert(id@.take(i as int) == id@);
    let ghost before = query@;
    query.push('"');
    assert(query@ == before + seq!['"']);
    Some(query)
}

proof fn lemma_escaped_first(s: Seq<char>)
    requires
        s.len() > 0,
    ensures
        escaped(s) == escaped_char(s[0]) + escaped(s.skip(1)),
    decreases s.len(),
{
    if s.len() == 1 {
        assert(s.drop_last() == Seq::<char>::empty());
        assert(s.skip(1) == Seq::<char>::empty());
        assert(escaped(Seq::<char>::empty()) == Seq::<char>::empty());
        assert(escaped(s) == escaped_char(s[0]) + escaped(s.skip(1)));
    } else {
        lemma_escaped_first(s.drop_last());
        assert(s.drop_last().skip(1) == s.skip(1).drop_last());
        assert(escaped(s) == escaped_char(s[0]) + escaped(s.skip(1)));
    }
}

proof fn lemma_quoting_can_be_undone(s: Seq<char>)
    ensures
        quoted_text(escaped(s) + seq!['"']) == Some(s),
    decreases s.len(),
{
    let written = escaped(s) + seq!['"'];
    if s.len() == 0 {
        assert(written[0] == '"');
        assert(s == Seq::<char>::empty());
    } else {
        lemma_escaped_first(s);
        lemma_quoting_can_be_undone(s.skip(1));
        let head = escaped_char(s[0]);
        assert(written == head + (escaped(s.skip(1)) + seq!['"']));
        assert(written.skip(head.len() as int) == escaped(s.skip(1)) + seq!['"']);
        assert(seq![s[0]] + s.skip(1) == s);
        if s[0] == '\\' || s[0] == '"' {
            assert(written[0] == '\\');
            assert(written[1] == s[0]);
        } else {
            assert(written[0] == s[0]);
        }
    }
}

/// A query asks for the bundle identifier that it was made for, whatever quotes and
/// backslashes that holds: read from the opening quote up to the first quote that is not
/// escaped, it gives back the identifier without the white space around it.
pub proof fn law_query_names_the_bundle(bundle_id: Seq<char>)
    ensures
        query_seq(bundle_id) matches Some(query) ==> {
            &&& query.take(query_head().len() as int) == query_head()
            &&& quoted_text(query.skip(query_head().len() as int)) == Some(trim_seq(bundle_id))
        },
        query_seq(bundle_id) is None <==> trim_seq(bundle_id) == Seq::<char>::empty(),
{
    let id = trim_seq(bundle_id);
    if id.len() > 0 {
        lemma_quoting_can_be_undone(id);
        let query = query_head() + escaped(id) + seq!['"'];
        assert(query.take(query_head().len() as int) == query_head());
        assert(query.skip(query_head().len() as int) == escaped(id) + seq!['"']);
    } else {
        assert(id == Seq::<char>::empty());
    }
}

proof fn lemma_last_component(parts: Seq<Seq<char>>)
    ensures
        match last_component(parts) {
            Some(name) => is_component(name) && exists|i: int|
                0 <= i < parts.len() && #[trigger] parts[i] == name && forall|j: int|
                    i < j < parts.len() ==> !is_component(#[trigger] parts[j]),
            None => forall|j: int| 0 <= j < parts.len() ==> !is_component(#[trigger] parts[j]),
        },
    decreases parts.len(),
{
    if parts.len() > 0 {
        if is_component(parts.last()) {
            assert(parts[parts.len() - 1] == parts.last());
        } else {
            let before = parts.drop_last();
            lemma_last_component(before);
            assert(forall|j: int| 0 <= j < before.len() ==> before[j] == parts[j]);
            if let Some(name) = last_component(before) {
                let i = choose|i: int|
                    0 <= i < before.len() && #[trigger] before[i] == name && forall|j: int|
                        i < j < before.len() ==> !is_component(#[trigger] before[j]);
                assert(parts[i] == name);
                assert forall|j: int| i < j < parts.len() implies !is_component(
                    #[trigger] parts[j],
                ) by {
                    if j < before.len() {
                        assert(!is_component(before[j]));
                    }
                }
            } else {
                assert forall|j: int| 0 <= j < parts.len() implies !is_component(
                    #[trigger] parts[j],
                ) by {
                    if j < before.len() {
                        assert(!is_component(before[j]));
                    }
                }
            }
        }
    }
}

/// The name under which an application is shown is not blank, has no white space at either
/// end, and holds no separator of a path.
pub proof fn law_display_name_is_clean(path: Seq<char>)
    ensures
        display_name_seq(path) matches Some(name) ==> {
            &&& name.len() > 0
            &&& !white_space(name[0])
            &&& !white_space(name.last())
            &&& !name.contains('/')
        },
{
    if let Some(name) = display_name_seq(path) {
        let parts = pieces_seq(path, '/');
        lemma_pieces_hold_no_separator(path, '/');
        lemma_last_component(parts);
        let file = file_name_seq(path)->0;
        let bare = without_suffix_seq(file, app_suffix());
        law_trimmed_text_is_clean(bare);
        let i = choose|i: int| 0 <= i < parts.len() && #[trigger] parts[i] == file;
        assert(!parts[i].contains('/'));
        if name.contains('/') {
            lemma_trim_keeps(bare, '/');
            let k = choose|k: int| 0 <= k < bare.len() && bare[k] == '/';
            assert(file[k] == '/');
        }
    }
}

/// The file name of a path is the last of the pieces between its slashes that is neither empty nor
/// a dot; there is none where that piece is two dots, or where there is no such piece.
pub proof fn law_file_name_ends_the_path(path: Seq<char>)
    ensures
        ({
            let parts = pieces_seq(path, '/');
            match file_name_seq(path) {
                Some(name) => {
                    &&& name.len() > 0
                    &&& name != seq!['.']
                    &&& name != seq!['.', '.']
                    &&& exists|i: int|
                        0 <= i < parts.len() && #[trigger] parts[i] == name && forall|j: int|
                            i < j < parts.len() ==> (#[trigger] parts[j]).len() == 0 || parts[j]
                                == seq!['.']
                },
                None => {
                    ||| forall|j: int|
                        0 <= j < parts.len() ==> (#[trigger] parts[j]).len() == 0 || parts[j]
                            == seq!['.']
                    ||| exists|i: int|
                        0 <= i < parts.len() && #[trigger] parts[i] == seq!['.', '.'] && forall|
                            j: int,
                        |
                            i < j < parts.len() ==> (#[trigger] parts[j]).len() == 0 || parts[j]
                                == seq!['.']
                },
            }
        }),
{
    let parts = pieces_seq(path, '/');
    lemma_last_component(parts);
    if let Some(last) = last_component(parts) {
        let i = choose|i: int|
            0 <= i < parts.len() && #[trigger] parts[i] == last && forall|j: int|
                i < j < parts.len() ==> !is_component(#[trigger] parts[j]);
        assert(parts[i] == last);
        assert forall|j: int| i < j < parts.len() implies (#[trigger] parts[j]).len() == 0
            || parts[j] == seq!['.'] by {
            assert(!is_component(parts[j]));
        }
    } else {
        assert forall|j: int| 0 <= j < parts.len() implies (#[trigger] parts[j]).len() == 0
            || parts[j] == seq!['.'] by {
            assert(!is_component(parts[j]));
        }
    }
}

/// The name of an application is its file name, less the ending of a bundle where the file name
/// has it, without the white space around it; there is none where nothing is left, or where the
/// path has no file name.
pub proof fn law_display_name_comes_from_the_file_name(path: Seq<char>, stem: Seq<char>)
    ensures
        file_name_seq(path) is None ==> display_name_seq(path) is None,
        file_name_seq(path) == Some(stem + seq!['.', 'a', 'p', 'p']) ==> display_name_seq(path) == (
        if trim_seq(stem).len() > 0 {
            Some(trim_seq(stem))
        } else {
            None
        }),
        file_name_seq(path) is Some && !seq!['.', 'a', 'p', 'p'].is_suffix_of(
            file_name_seq(path)->0,
        ) ==> display_name_seq(path) == (if trim_seq(file_name_seq(path)->0).len() > 0 {
            Some(trim_seq(file_name_seq(path)->0))
        } else {
            None
        }),
{
    let ending = seq!['.', 'a', 'p', 'p'];
    assert(app_suffix() =~= ending);
    law_suffix_comes_off(stem, ending);
    if let Some(file) = file_name_seq(path) {
        law_suffix_comes_off(file, ending);
        if !ending.is_suffix_of(file) {
            assert forall|other: Seq<char>| #[trigger] (other + ending) != file by {
                let whole = other + ending;
                assert(whole.subrange(whole.len() - ending.len(), whole.len() as int) == ending);
            }
        }
    }
}

/// The name that lines give is that of the first line that has one, each read without the white
/// space around it, and there is none exactly where no line has one.
pub proof fn law_first_named_line(lines: Seq<Seq<char>>)
    ensures
        first_display_name(lines) is None <==> forall|i: int|
            0 <= i < lines.len() ==> display_name_seq(trim_seq(#[trigger] lines[i])) is None,
        first_display_name(lines) matches Some(name) ==> exists|i: int|
            0 <= i < lines.len() && display_name_seq(trim_seq(#[trigger] lines[i])) == Some(name)
                && forall|j: int|
                0 <= j < i ==> display_name_seq(trim_seq(#[trigger] lines[j])) is None,
    decreases lines.len(),
{
    if lines.len() > 0 {
        let rest = lines.drop_first();
        law_first_named_line(rest);
        assert(forall|i: int| 0 <= i < rest.len() ==> rest[i] == lines[i + 1]);
        if display_name_seq(trim_seq(lines[0])) is None {
            if let Some(name) = first_display_name(rest) {
                let i = choose|i: int|
                    0 <= i < rest.len() && display_name_seq(trim_seq(#[trigger] rest[i])) == Some(
                        name,
                    ) && forall|j: int|
                        0 <= j < i ==> display_name_seq(trim_seq(#[trigger] rest[j])) is None;
                assert(lines[i + 1] == rest[i]);
                assert forall|j: int| 0 <= j < i + 1 implies display_name_seq(
                    trim_seq(#[trigger] lines[j]),
                ) is None by {
                    if j > 0 {
                        assert(display_name_seq(trim_seq(rest[j - 1])) is None);
                    }
                }
            } else {
                assert forall|i: int| 0 <= i < lines.len() implies display_name_seq(
                    trim_seq(#[trigger] lines[i]),
                ) is None by {
                    if i > 0 {
                        assert(display_name_seq(trim_seq(rest[i - 1])) is None);
                    }
                }
            }
        }
    }
}

/// Between the quotes of a query every character stands for itself but for the backslash and the
/// quote, in front of which a backslash is written; texts are written one after the other.
pub proof fn law_quoting_goes_by_characters(a: Seq<char>, b: Seq<char>, c: char)
    ensures
        escaped(Seq::<char>::empty()) == Seq::<char>::empty(),
        escaped(seq![c]) == (if c == '\\' {
            seq!['\\', '\\']
        } else if c == '"' {
            seq!['\\', '"']
        } else {
            seq![c]
        }),
        escaped(a + b) == escaped(a) + escaped(b),
    decreases b.len(),
{
    let none = Seq::<char>::empty();
    assert(escaped(none) == none);
    assert(seq![c].drop_last() == none);
    assert(seq![c].last() == c);
    assert(escaped(seq![c]) == escaped(none) + escaped_char(c));
    assert(none + escaped_char(c) == escaped_char(c));
    assert(escaped(seq![c]) == escaped_char(c));
    if b.len() == 0 {
        assert(a + b == a);
        assert(escaped(a) + escaped(b) == escaped(a));
    } else {
        law_quoting_goes_by_characters(a, b.drop_last(), c);
        assert((a + b).drop_last() == a + b.drop_last());
        assert((a + b).last() == b.last());
        assert(escaped(a + b) == escaped(a) + escaped(b));
    }
}

/// A query asks for items by the key of the bundle identifier, whose value it gives in quotes, as
/// it is written between quotes; a blank identifier has none.
pub proof fn law_query_text(bundle_id: Seq<char>)
    ensures
        query_seq(bundle_id) is Some <==> trim_seq(bundle_id).len() > 0,
        query_seq(bundle_id) matches Some(query) ==> query
            == "kMDItemCFBundleIdentifier == \""@ + escaped(trim_seq(bundle_id)) + seq!['"'],
{
}

/// The text of an optional string is that of the string.
pub proof fn law_text_of_string(s: Option<String>)
    ensures
        s is None <==> text_of(s) is None,
        s matches Some(s) ==> text_of(Some(s)) == Some(s@),
{
}

} // verus!
