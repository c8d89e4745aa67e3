use vstd::prelude::*;
use vstd::string::*;

verus! {

/// Whether `c` has the Unicode property `White_Space`.
pub open spec fn is_whitespace(c: char) -> bool {
    let code = c as u32;
    ||| 0x09 <= code <= 0x0D
    ||| code == 0x20
    ||| code == 0x85
    ||| code == 0xA0
    ||| code == 0x1680
    ||| 0x2000 <= code <= 0x200A
    ||| code == 0x2028
    ||| code == 0x2029
    ||| code == 0x202F
    ||| code == 0x205F
    ||| code == 0x3000
}

/// Length of the run of non-whitespace characters that `s` starts with.
pub open spec fn word_len(s: Seq<char>) -> nat
    decreases s.len(),
{
    if s.len() == 0 || is_whitespace(s[0]) {
        0
    } else {
        1 + word_len(s.skip(1))
    }
}

/// The words of `s`: its maximal runs of non-whitespace characters, in the
/// order in which they occur.
pub open spec fn words(s: Seq<char>) -> Seq<Seq<char>>
    decreases s.len(),
{
    if s.len() == 0 {
        Seq::empty()
    } else if is_whitespace(s[0]) {
        words(s.skip(1))
    } else {
        let n = word_len(s) as int;
        proof {
            lemma_word_len_bounds(s);
        }
        seq![s.take(n)] + words(s.skip(n))
    }
}

/// `path` without the `/` characters that it ends in.
pub open spec fn without_trailing_separators(path: Seq<char>) -> Seq<char>
    decreases path.len(),
{
    if path.len() > 0 && path.last() == '/' {
        without_trailing_separators(path.drop_last())
    } else {
        path
    }
}

/// What follows the last `/` of `path`, or the whole path where it has none.
pub open spec fn last_component(path: Seq<char>) -> Seq<char>
    decreases path.len(),
{
    if path.len() == 0 || path.last() == '/' {
        Seq::empty()
    } else {
        last_component(path.drop_last()).push(path.last())
    }
}

/// The name of what a `/`-separated path leads to: its last component, where
/// a `/` that the path ends in does not count. It is empty only where the
/// path holds nothing but `/`.
pub open spec fn file_name(path: Seq<char>) -> Seq<char> {
    last_component(without_trailing_separators(path))
}

/// The path of the entry `name` of `directory`: the two with a `/` between
/// them, unless `directory` is empty or ends in one.
pub open spec fn child(directory: Seq<char>, name: Seq<char>) -> Seq<char> {
    if directory.len() == 0 || directory.last() == '/' {
        directory + name
    } else {
        directory + seq!['/'] + name
    }
}

/// The extension by which a music file is recognised, with its dot.
pub open spec fn music_suffix() -> Seq<char> {
    seq!['.', 'm', 'p', '3']
}

/// Whether `path` names a music file: its last component is a non-empty stem
/// followed by exactly `.mp3`. The comparison is case-sensitive.
pub open spec fn is_music_file(path: Seq<char>) -> bool {
    let n = path.len() as int;
    &&& n >= 5
    &&& path.subrange(n - 4, n) == music_suffix()
    &&& path[n - 5] != '/'
}

/// A run of non-whitespace characters is never longer than the text it
/// starts, and is not empty where the text starts with such a character.
pub proof fn lemma_word_len_bounds(s: Seq<char>)
    ensures
        word_len(s) <= s.len(),
        s.len() > 0 && !is_whitespace(s[0]) ==> word_len(s) >= 1,
    decreases s.len(),
{
    if s.len() > 0 && !is_whitespace(s[0]) {
        lemma_word_len_bounds(s.skip(1));
    }
}

/// Whether `w` is a word: not empty, and free of whitespace.
pub open spec fn is_word(w: Seq<char>) -> bool {
    &&& w.len() > 0
    &&& forall|j: int| 0 <= j < w.len() ==> !is_whitespace(#[trigger] w[j])
}

/// Every element of `words(s)` is a word.
pub proof fn lemma_words_are_words(s: Seq<char>)
    ensures
        forall|i: int| 0 <= i < words(s).len() ==> is_word(#[trigger] words(s)[i]),
    decreases s.len(),
{
    if s.len() > 0 && is_whitespace(s[0]) {
        lemma_words_are_words(s.skip(1));
        assert(words(s) == words(s.skip(1)));
    } else if s.len() > 0 {
        let n = word_len(s) as int;
        lemma_word_len_bounds(s);
        lemma_word_is_free_of_whitespace(s);
        lemma_words_are_words(s.skip(n));
        let first = s.take(n);
        assert(is_word(first));
        assert forall|i: int| 0 <= i < words(s).len() implies is_word(#[trigger] words(s)[i]) by {
            if i > 0 {
                assert(words(s)[i] == words(s.skip(n))[i - 1]);
            }
        }
    }
}

proof fn lemma_word_is_free_of_whitespace(s: Seq<char>)
    ensures
        word_len(s) <= s.len(),
        forall|j: int| 0 <= j < word_len(s) ==> !is_whitespace(#[trigger] s[j]),
    decreases s.len(),
{
    if s.len() > 0 && !is_whitespace(s[0]) {
        lemma_word_is_free_of_whitespace(s.skip(1));
        assert forall|j: int| 0 <= j < word_len(s) implies !is_whitespace(#[trigger] s[j]) by {
            if j > 0 {
                assert(s[j] == s.skip(1)[j - 1]);
            }
        }
    }
}

/// What an optional text holds, if it is there.
pub open spec fn text_of(text: Option<String>) -> Option<Seq<char>> {
    match text {
        Some(text) => Some(text@),
        None => None,
    }
}

/// The text of an option, or `default` where there is none.
pub open spec fn text_or(text: Option<Seq<char>>, default: Seq<char>) -> Seq<char> {
    match text {
        Some(text) => text,
        None => default,
    }
}

/// The parts of `parts` written one after the other, with `separator`
/// between each two neighbours.
pub open spec fn join(parts: Seq<Seq<char>>, separator: Seq<char>) -> Seq<char>
    decreases parts.len(),
{
    if parts.len() == 0 {
        Seq::empty()
    } else if parts.len() == 1 {
        parts[0]
    } else {
        join(parts.drop_last(), separator) + separator + parts.last()
    }
}

/// How `join` grows when one more part is taken.
pub proof fn lemma_join_next(parts: Seq<Seq<char>>, separator: Seq<char>, i: int)
    requires
        0 <= i < parts.len(),
    ensures
        join(parts.take(i + 1), separator) == if i == 0 {
            parts[0]
        } else {
            join(parts.take(i), separator) + separator + parts[i]
        },
{
    assert(parts.take(i + 1).drop_last() =~= parts.take(i));
}

/// Tells whether `c` is a whitespace character.
pub fn is_whitespace_char(c: char) -> (b: bool)
    ensures
        b == is_whitespace(c),
{
    let code: u32 = c as u32;
    (0x09 <= code && code <= 0x0D) || code == 0x20 || code == 0x85 || code == 0xA0 || code
        == 0x1680 || (0x2000 <= code && code <= 0x200A) || code == 0x2028 || code == 0x2029
        || code == 0x202F || code == 0x205F || code == 0x3000
}

/// The text of `text`, or `default` where there is none.
pub fn text_or_default(text: &Option<String>, default: &str) -> (result: String)
    ensures
        result@ == text_or(text_of(*text), default@),
{
    match text {
        Some(text) => text.clone(),
        None => String::from_str(default),
    }
}

/// Tells whether `a` and `b` hold the same characters.
pub fn same_text(a: &str, b: &str) -> (same: bool)
    ensures
        same == (a@ == b@),
{
    String::from_str(a) == String::from_str(b)
}

/// Writes `parts` one after the other, with `separator` between each two
/// neighbours.
pub fn join_with(parts: &Vec<String>, separator: &str) -> (text: String)
    ensures
        text@ == join(parts.deep_view(), separator@),
{
    let mut text = String::new();
    let mut i: usize = 0;
    while i < parts.len()
        invariant
            i <= parts.len(),
            text@ == join(parts.deep_view().take(i as int), separator@),
        decreases parts.len() - i,
    {
        proof {
            lemma_join_next(parts.deep_view(), separator@, i as int);
        }
        if i > 0 {
            text.append(separator);
        }
        text.append(parts[i].as_str());
        i += 1;
    }
    assert(parts.deep_view().take(parts.len() as int) =~= parts.deep_view());
    text
}

/// Index at which the word that begins at `start` ends.
fn word_end(text: &str, start: usize) -> (end: usize)
    requires
        start <= text@.len(),
    ensures
        end == start + word_len(text@.skip(start as int)),
        end <= text@.len(),
{
    let n = text.unicode_len();
    let mut i = start;
    while i < n && !is_whitespace_char(text.get_char(i))
        invariant
            start <= i <= n,
            n == text@.len(),
            word_len(text@.skip(start as int)) == (i - start) + word_len(text@.skip(i as int)),
        decreases n - i,
    {
        assert(text@.skip(i as int).skip(1) =~= text@.skip(i + 1));
        i += 1;
    }
    i
}

/// Splits `text` into its words, as `str::split_whitespace` does.
pub fn split_whitespace(text: &str) -> (result: Vec<String>)
    ensures
        result.deep_view() == words(text@),
{
    let n = text.unicode_len();
    let mut result: Vec<String> = Vec::new();
    let mut i: usize = 0;
    assert(text@.skip(0) =~= text@);
    while i < n
        invariant
            i <= n,
            n == text@.len(),
            words(text@) == result.deep_view() + words(text@.skip(i as int)),
        decreases n - i,
    {
        let ghost rest = text@.skip(i as int);
        if is_whitespace_char(text.get_char(i)) {
            assert(rest.skip(1) =~= text@.skip(i + 1));
            i += 1;
        } else {
            let end = word_end(text, i);
            proof {
                lemma_word_len_bounds(rest);
                assert(rest.take(end - i) =~= text@.subrange(i as int, end as int));
                assert(rest.skip(end - i) =~= text@.skip(end as int));
            }
            let word = String::from_str(text.substring_char(i, end));
            let ghost before = result.deep_view();
            result.push(word);
            assert(before.push(word@) + words(text@.skip(end as int)) =~= before + (seq![word@]
                + words(text@.skip(end as int))));
            i = end;
        }
    }
    result
}

/// Tells whether `path` names a music file.
pub fn has_music_extension(path: &str) -> (b: bool)
    ensures
        b == is_music_file(path@),
{
    let n = path.unicode_len();
    if n < 5 {
        return false;
    }
    let matches = path.get_char(n - 4) == '.' && path.get_char(n - 3) == 'm' && path.get_char(
        n - 2,
    ) == 'p' && path.get_char(n - 1) == '3' && path.get_char(n - 5) != '/';
    proof {
        if matches {
            assert(path@.subrange(n - 4, n as int) =~= music_suffix());
        }
    }
    matches
}

/// The path of the entry `name` of `directory`.
pub fn child_path(directory: &str, name: &str) -> (path: String)
    ensures
        path@ == child(directory@, name@),
{
    let n = directory.unicode_len();
    let mut path = String::from_str(directory);
    if n > 0 && directory.get_char(n - 1) != '/' {
        proof {
            reveal_strlit("/");
        }
        path.append("/");
    }
    path.append(name);
    path
}

/// The name of what `path` leads to.
pub fn file_name_of(path: &str) -> (name: String)
    ensures
        name@ == file_name(path@),
{
    let n = path.unicode_len();
    let mut end = n;
    assert(path@.take(n as int) =~= path@);
    while end > 0 && path.get_char(end - 1) == '/'
        invariant
            end <= n,
            n == path@.len(),
            without_trailing_separators(path@) == without_trailing_separators(
                path@.take(end as int),
            ),
        decreases end,
    {
        assert(path@.take(end as int).drop_last() =~= path@.take(end - 1));
        end -= 1;
    }
    let ghost trimmed = path@.take(end as int);
    let mut i = end;
    assert(trimmed.take(end as int) =~= trimmed);
    assert(trimmed.subrange(end as int, end as int) =~= Seq::<char>::empty());
    while i > 0 && path.get_char(i - 1) != '/'
        invariant
            i <= end <= n,
            n == path@.len(),
            trimmed == path@.take(end as int),
            last_component(trimmed) == last_component(trimmed.take(i as int)) + trimmed.subrange(
                i as int,
                end as int,
            ),
        decreases i,
    {
        proof {
            let head = trimmed.take(i as int);
            assert(head.drop_last() =~= trimmed.take(i - 1));
            assert(last_component(head.drop_last()).push(head.last()) + trimmed.subrange(
                i as int,
                end as int,
            ) =~= last_component(trimmed.take(i - 1)) + trimmed.subrange(i - 1, end as int));
        }
        i -= 1;
    }
    assert(last_component(trimmed) =~= path@.subrange(i as int, end as int));
    String::from_str(path.substring_char(i, end))
}

} // verus!
