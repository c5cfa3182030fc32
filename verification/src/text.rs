//! Character-level operations on keys, prefixes and the cells of a row.
//!
//! Every string the browser handles is read as its sequence of characters.
//! The spec functions here say what a path component, a parent prefix, a
//! substring match and the width of a text are; the executable functions
//! compute them.

use vstd::prelude::*;
use vstd::string::*;

verus! {

/// `String::push` of the standard library: the character is appended.
pub assume_specification[ String::push ](text: &mut String, ch: char)
    ensures
        final(text)@ == old(text)@.push(ch),
;

/// `String::pop` of the standard library: the last character is removed and
/// returned, or `None` is returned when the string is empty.
pub assume_specification[ String::pop ](text: &mut String) -> (ch: Option<char>)
    ensures
        old(text)@.len() == 0 ==> ch is None && final(text)@ == old(text)@,
        old(text)@.len() > 0 ==> ch == Some(old(text)@.last()) && final(text)@ == old(text)@.drop_last(),
;

/// The delimiter between the levels of a key.
pub const SEPARATOR: char = '/';

/// The index of the last separator of `s` that lies before position `end`,
/// or -1 when there is none.
pub open spec fn last_slash(s: Seq<char>, end: int) -> int
    decreases end,
{
    if end <= 0 {
        -1
    } else if s[end - 1] == SEPARATOR {
        end - 1
    } else {
        last_slash(s, end - 1)
    }
}

/// The index of the first separator of `s` at or after position `from`,
/// or `s.len()` when there is none.
pub open spec fn first_slash(s: Seq<char>, from: int) -> int
    decreases s.len() - from,
{
    if from >= s.len() {
        s.len() as int
    } else if s[from] == SEPARATOR {
        from
    } else {
        first_slash(s, from + 1)
    }
}

/// `last_slash` finds a separator, and no separator follows it before `end`.
pub proof fn lemma_last_slash(s: Seq<char>, end: int)
    requires
        0 <= end <= s.len(),
    ensures
        -1 <= last_slash(s, end) < end,
        last_slash(s, end) >= 0 ==> s[last_slash(s, end)] == SEPARATOR,
        forall|i: int| last_slash(s, end) < i < end ==> s[i] != SEPARATOR,
    decreases end,
{
    if end > 0 && s[end - 1] != SEPARATOR {
        lemma_last_slash(s, end - 1);
    }
}

/// `first_slash` finds a separator, and no separator precedes it from `from` on.
pub proof fn lemma_first_slash(s: Seq<char>, from: int)
    requires
        0 <= from <= s.len(),
    ensures
        from <= first_slash(s, from) <= s.len(),
        first_slash(s, from) < s.len() ==> s[first_slash(s, from)] == SEPARATOR,
        forall|i: int| from <= i < first_slash(s, from) ==> s[i] != SEPARATOR,
    decreases s.len() - from,
{
    if from < s.len() && s[from] != SEPARATOR {
        lemma_first_slash(s, from + 1);
    }
}

/// `last_slash` is the only index with the two properties of
/// `lemma_last_slash`.
pub proof fn lemma_last_slash_is(s: Seq<char>, end: int, at: int)
    requires
        -1 <= at < end <= s.len(),
        at >= 0 ==> s[at] == SEPARATOR,
        forall|i: int| at < i < end ==> s[i] != SEPARATOR,
    ensures
        last_slash(s, end) == at,
    decreases end,
{
    if end > 0 && at < end - 1 {
        lemma_last_slash_is(s, end - 1, at);
    }
}

/// `first_slash` is the only index with the two properties of
/// `lemma_first_slash`.
pub proof fn lemma_first_slash_is(s: Seq<char>, from: int, at: int)
    requires
        0 <= from <= at <= s.len(),
        at < s.len() ==> s[at] == SEPARATOR,
        forall|i: int| from <= i < at ==> s[i] != SEPARATOR,
    ensures
        first_slash(s, from) == at,
    decreases s.len() - from,
{
    if from < at {
        lemma_first_slash_is(s, from + 1, at);
    }
}

/// A text without a separator.
pub open spec fn slash_free(s: Seq<char>) -> bool {
    forall|i: int| 0 <= i < s.len() ==> s[i] != SEPARATOR
}

/// A text that can stand in front of a name: empty, or ending in a
/// separator.
pub open spec fn is_directory(p: Seq<char>) -> bool {
    p.len() == 0 || p.last() == SEPARATOR
}

/// Where the part of `s` that names it begins: one trailing separator is set
/// aside, and the name starts after the last separator that remains.
pub open spec fn component_start(s: Seq<char>) -> int {
    if s.len() > 0 && s.last() == SEPARATOR {
        last_slash(s, s.len() - 1) + 1
    } else {
        last_slash(s, s.len() as int) + 1
    }
}

/// The last component of a key or prefix: its final separator-delimited
/// segment, together with the trailing separator when `s` ends in one.
pub open spec fn last_component_of(s: Seq<char>) -> Seq<char> {
    s.subrange(component_start(s), s.len() as int)
}

/// The prefix one level above `p`: `p` up to and including its
/// second-to-last separator. It is empty when `p` has fewer than two
/// separators, and when nothing stands before the second-to-last one.
pub open spec fn parent_prefix_of(p: Seq<char>) -> Seq<char> {
    let last = last_slash(p, p.len() as int);
    let before = last_slash(p, last);
    if before > 0 {
        p.subrange(0, before + 1)
    } else {
        Seq::empty()
    }
}

/// The longest leading part of `p` that is empty or ends in a separator:
/// what is left of a key once the leaf name is taken off.
pub open spec fn containing_prefix_of(p: Seq<char>) -> Seq<char> {
    p.subrange(0, last_slash(p, p.len() as int) + 1)
}

/// The display name of a key is what follows its last separator.
pub proof fn lemma_last_component_of_key(directory: Seq<char>, name: Seq<char>)
    requires
        is_directory(directory),
        slash_free(name),
        name.len() > 0,
    ensures
        last_component_of(directory + name) == name,
{
    let s = directory + name;
    lemma_last_slash_is(s, s.len() as int, directory.len() - 1);
    assert(s.subrange(directory.len() as int, s.len() as int) =~= name);
}

/// The display name of a prefix is its last segment with the separator
/// that ends it.
pub proof fn lemma_last_component_of_prefix(directory: Seq<char>, name: Seq<char>)
    requires
        is_directory(directory),
        slash_free(name),
    ensures
        last_component_of(directory + name + seq![SEPARATOR]) == name + seq![SEPARATOR],
{
    let s = directory + name + seq![SEPARATOR];
    lemma_last_slash_is(s, s.len() - 1, directory.len() - 1);
    assert(s.subrange(directory.len() as int, s.len() as int) =~= name + seq![SEPARATOR]);
}

/// Going down one level and up again leads back: the parent of
/// `directory` extended by one segment is `directory`. The one directory
/// this fails for is the single separator, whose children have the empty
/// prefix as their parent.
pub proof fn lemma_parent_of_child(directory: Seq<char>, name: Seq<char>)
    requires
        is_directory(directory),
        directory.len() != 1,
        slash_free(name),
    ensures
        parent_prefix_of(directory + name + seq![SEPARATOR]) == directory,
{
    let s = directory + name + seq![SEPARATOR];
    lemma_last_slash_is(s, s.len() as int, s.len() - 1);
    lemma_last_slash_is(s, s.len() - 1, directory.len() - 1);
    if directory.len() > 1 {
        assert(s.subrange(0, directory.len() as int) =~= directory);
    } else {
        assert(directory =~= Seq::<char>::empty());
    }
}

/// Taking the leaf name off a key leaves the directory it stands in.
pub proof fn lemma_containing_prefix(directory: Seq<char>, name: Seq<char>)
    requires
        is_directory(directory),
        slash_free(name),
    ensures
        containing_prefix_of(directory + name) == directory,
{
    let s = directory + name;
    lemma_last_slash_is(s, s.len() as int, directory.len() - 1);
    assert(s.subrange(0, directory.len() as int) =~= directory);
}

/// `needle` stands in `hay` at position `at`.
pub open spec fn occurs_at(hay: Seq<char>, needle: Seq<char>, at: int) -> bool {
    &&& 0 <= at
    &&& at + needle.len() <= hay.len()
    &&& hay.subrange(at, at + needle.len()) == needle
}

/// `needle` stands somewhere in `hay`. Characters are compared exactly.
pub open spec fn has_substring(hay: Seq<char>, needle: Seq<char>) -> bool {
    exists|at: int| occurs_at(hay, needle, at)
}

/// The characters of a string, one by one.
pub fn chars_of(s: &str) -> (chars: Vec<char>)
    ensures
        chars@ == s@,
{
    let mut chars: Vec<char> = Vec::new();
    for c in it: s.chars()
        invariant
            chars@ == it.seq().take(it.index() as int),
    {
        chars.push(c);
    }
    chars
}

/// One past the last separator before `end`, or 0 when there is none. An
/// `end` beyond the text counts as the end of the text.
pub fn after_last_slash(chars: &Vec<char>, end: usize) -> (start: usize)
    ensures
        start == last_slash(
            chars@,
            if end <= chars.len() {
                end as int
            } else {
                chars.len() as int
            },
        ) + 1,
        start <= end,
        start <= chars.len(),
{
    let stop: usize = if end <= chars.len() {
        end
    } else {
        chars.len()
    };
    let mut i: usize = stop;
    while i > 0 && chars[i - 1] != SEPARATOR
        invariant
            i <= stop <= chars.len(),
            last_slash(chars@, stop as int) == last_slash(chars@, i as int),
        decreases i,
    {
        i -= 1;
    }
    i
}

/// The first separator at or after `from`, or the length when there is none.
pub fn find_first_slash(chars: &Vec<char>, from: usize) -> (at: usize)
    ensures
        at == first_slash(chars@, from as int),
        at <= chars.len(),
        from <= chars.len() ==> from <= at,
{
    if from >= chars.len() {
        return chars.len();
    }
    let mut i: usize = from;
    while i < chars.len() && chars[i] != SEPARATOR
        invariant
            from <= i <= chars.len(),
            first_slash(chars@, from as int) == first_slash(chars@, i as int),
        decreases chars.len() - i,
    {
        i += 1;
    }
    i
}

/// The display name of a key or a prefix.
///
/// A trailing separator marks a prefix and is kept; what stands before the
/// name is dropped. The empty string gives the empty string.
pub fn last_component(key_or_prefix: &str) -> (name: String)
    ensures
        name@ == last_component_of(key_or_prefix@),
{
    let chars = chars_of(key_or_prefix);
    let n: usize = chars.len();
    let end: usize = if n > 0 && chars[n - 1] == SEPARATOR {
        n - 1
    } else {
        n
    };
    let start: usize = after_last_slash(&chars, end);
    key_or_prefix.substring_char(start, n).to_owned()
}

/// The prefix one level above `prefix`.
pub fn parent_prefix(prefix: &str) -> (parent: String)
    ensures
        parent@ == parent_prefix_of(prefix@),
{
    let chars = chars_of(prefix);
    let after_last: usize = after_last_slash(&chars, chars.len());
    if after_last == 0 {
        return String::new();
    }
    let after_before: usize = after_last_slash(&chars, after_last - 1);
    if after_before <= 1 {
        return String::new();
    }
    proof {
        lemma_last_slash(prefix@, prefix@.len() as int);
    }
    prefix.substring_char(0, after_before).to_owned()
}

/// `needle` stands in `hay` at position `at`.
pub fn matches_at(hay: &Vec<char>, needle: &Vec<char>, at: usize) -> (found: bool)
    ensures
        found == occurs_at(hay@, needle@, at as int),
{
    if at > hay.len() || needle.len() > hay.len() - at {
        return false;
    }
    let mut k: usize = 0;
    while k < needle.len()
        invariant
            k <= needle.len(),
            at + needle.len() <= hay.len(),
            forall|j: int| 0 <= j < k ==> hay@[at + j] == needle@[j],
        decreases needle.len() - k,
    {
        if hay[at + k] != needle[k] {
            assert(hay@.subrange(at as int, at + needle.len())[k as int] != needle@[k as int]);
            return false;
        }
        k += 1;
    }
    assert(hay@.subrange(at as int, at + needle.len()) =~= needle@);
    true
}

/// Whether `needle` stands somewhere in `hay`.
pub fn contains_chars(hay: &Vec<char>, needle: &Vec<char>) -> (found: bool)
    ensures
        found == has_substring(hay@, needle@),
{
    if needle.len() > hay.len() {
        return false;
    }
    let last: usize = hay.len() - needle.len();
    let mut at: usize = 0;
    loop
        invariant
            at <= last,
            last + needle.len() == hay.len(),
            forall|j: int| 0 <= j < at ==> !occurs_at(hay@, needle@, j),
        decreases last - at,
    {
        if matches_at(hay, needle, at) {
            return true;
        }
        if at == last {
            return false;
        }
        at += 1;
    }
}

/// Whether `text` holds `pattern`. The comparison is case-sensitive.
pub fn contains_text(text: &str, pattern: &str) -> (found: bool)
    ensures
        found == has_substring(text@, pattern@),
{
    let hay = chars_of(text);
    let needle = chars_of(pattern);
    contains_chars(&hay, &needle)
}

/// Whether `chars` begins with `start`.
pub fn starts_with_chars(chars: &Vec<char>, start: &Vec<char>) -> (found: bool)
    ensures
        found == start@.is_prefix_of(chars@),
{
    if start.len() > chars.len() {
        return false;
    }
    matches_at(chars, start, 0)
}

/// The width of a text: the number of its bytes in UTF-8.
pub open spec fn byte_len(text: Seq<char>) -> nat {
    vstd::utf8::encode_utf8(text).len()
}

/// `n` blanks; none where `n` is not positive.
pub open spec fn blanks(n: int) -> Seq<char> {
    Seq::new(
        if n > 0 {
            n as nat
        } else {
            0
        },
        |i: int| ' ',
    )
}

/// The width of two texts in a row is the sum of their widths.
pub proof fn lemma_byte_len_concat(a: Seq<char>, b: Seq<char>)
    ensures
        byte_len(a + b) == byte_len(a) + byte_len(b),
    decreases a.len(),
{
    if a.len() == 0 {
        assert(a + b =~= b);
    } else {
        assert((a + b).drop_first() =~= a.drop_first() + b);
        lemma_byte_len_concat(a.drop_first(), b);
    }
}

/// Blanks are one byte wide each.
pub proof fn lemma_byte_len_blanks(n: int)
    ensures
        byte_len(blanks(n)) == (if n > 0 {
            n
        } else {
            0
        }),
    decreases n,
{
    if n > 0 {
        assert(blanks(n).drop_first() =~= blanks(n - 1));
        assert(blanks(n)[0] == ' ');
        lemma_byte_len_blanks(n - 1);
    }
}

/// The width of a text in bytes.
pub fn width_of(text: &str) -> (width: usize)
    ensures
        width == byte_len(text@),
{
    text.as_bytes().len()
}

/// A string of `n` blanks.
pub fn blank_string(n: usize) -> (text: String)
    ensures
        text@ == blanks(n as int),
{
    let mut text = String::new();
    let mut i: usize = 0;
    while i < n
        invariant
            i <= n,
            text@ == blanks(i as int),
        decreases n - i,
    {
        proof {
            reveal_strlit(" ");
        }
        text.append(" ");
        assert(text@ =~= blanks(i + 1));
        i += 1;
    }
    text
}

} // verus!
