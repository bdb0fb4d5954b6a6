//! Recognising a benchmark request in the text of a message.

use crate::suite::{Variant, CPU_LABEL, DEFAULT_LABEL, IO_LABEL, MEMORY_LABEL};
use vstd::prelude::*;

verus! {

/// A message is a request when it starts with this text.
pub const TRIGGER: &'static str = "?benchmark";

/// The characters with the Unicode property `White_Space`.
pub open spec fn is_whitespace(c: char) -> bool {
    let code = c as u32;
    ||| 0x09 <= code <= 0x0D
    ||| code == 0x20
    ||| code == 0x85
    ||| code == 0xA0
    ||| code == 0x1680
    ||| 0x2000 <= code <= 0x200A
    ||| code == 0x2028
    ||| code == 0x2029
    ||| code == 0x202F
    ||| code == 0x205F
    ||| code == 0x3000
}

/// The end of the longest run of characters that starts at `from` and holds
/// whitespace only (`whitespace` set) or no whitespace at all (not set).
pub open spec fn run_end(s: Seq<char>, from: int, whitespace: bool) -> int
    decreases s.len() - from,
{
    if 0 <= from < s.len() && is_whitespace(s[from]) == whitespace {
        run_end(s, from + 1, whitespace)
    } else {
        from
    }
}

/// The tokens of `s` from the index `from` on: the longest runs of
/// characters that are not whitespace, in the order in which they stand.
pub open spec fn tokens_from(s: Seq<char>, from: int) -> Seq<Seq<char>>
    decreases s.len() - from,
{
    let start = run_end(s, from, true);
    let end = run_end(s, start, false);
    if from <= start < end <= s.len() {
        seq![s.subrange(start, end)] + tokens_from(s, end)
    } else {
        Seq::empty()
    }
}

/// The tokens of `s`: what is left of it when it is cut at whitespace.
pub open spec fn tokens(s: Seq<char>) -> Seq<Seq<char>> {
    tokens_from(s, 0)
}

/// A message is a request when it starts with the trigger, whatever follows.
pub open spec fn is_request(content: Seq<char>) -> bool {
    TRIGGER@.is_prefix_of(content)
}

/// The word that a request writes for its workload: its second token, or
/// the default where it has none.
pub open spec fn requested_label(content: Seq<char>) -> Seq<char> {
    if tokens(content).len() > 1 {
        tokens(content)[1]
    } else {
        DEFAULT_LABEL@
    }
}

/// The workload that a word selects: one of the three single workloads by
/// its own word, and all of them by any other word.
pub open spec fn variant_of(label: Seq<char>) -> Variant {
    if label == CPU_LABEL@ {
        Variant::Cpu
    } else if label == MEMORY_LABEL@ {
        Variant::Memory
    } else if label == IO_LABEL@ {
        Variant::Io
    } else {
        Variant::All
    }
}

/// The workload that a request asks for.
pub open spec fn requested_variant(content: Seq<char>) -> Variant {
    variant_of(requested_label(content))
}

/// The views of a sequence of texts.
pub open spec fn texts(parts: Seq<&str>) -> Seq<Seq<char>> {
    Seq::new(parts.len(), |i: int| parts[i]@)
}

/// A run that starts inside the sequence ends inside it, at or after its
/// start; it holds only characters of its kind, and the character after it,
/// if there is one, is of the other kind.
pub proof fn lemma_run_end(s: Seq<char>, from: int, whitespace: bool)
    requires
        0 <= from <= s.len(),
    ensures
        from <= run_end(s, from, whitespace) <= s.len(),
        forall|j: int|
            from <= j < run_end(s, from, whitespace) ==> is_whitespace(#[trigger] s[j])
                == whitespace,
        run_end(s, from, whitespace) < s.len() ==> is_whitespace(
            s[run_end(s, from, whitespace)],
        ) != whitespace,
    decreases s.len() - from,
{
    if from < s.len() && is_whitespace(s[from]) == whitespace {
        lemma_run_end(s, from + 1, whitespace);
    }
}

/// Every token holds at least one character, and no whitespace.
pub proof fn lemma_tokens_hold_no_whitespace(s: Seq<char>, from: int, i: int)
    requires
        0 <= from <= s.len(),
        0 <= i < tokens_from(s, from).len(),
    ensures
        tokens_from(s, from)[i].len() > 0,
        forall|j: int|
            0 <= j < tokens_from(s, from)[i].len() ==> !is_whitespace(
                #[trigger] tokens_from(s, from)[i][j],
            ),
    decreases s.len() - from,
{
    let start = run_end(s, from, true);
    lemma_run_end(s, from, true);
    let end = run_end(s, start, false);
    lemma_run_end(s, start, false);
    if i > 0 {
        lemma_tokens_hold_no_whitespace(s, end, i - 1);
        assert(tokens_from(s, from)[i] == tokens_from(s, end)[i - 1]);
    }
}

/// A word other than the three that name a single workload selects all of
/// them, and so does the default word.
pub proof fn law_unrecognized_word_selects_all(label: Seq<char>)
    requires
        label != CPU_LABEL@,
        label != MEMORY_LABEL@,
        label != IO_LABEL@,
    ensures
        variant_of(label) == Variant::All,
        variant_of(DEFAULT_LABEL@) == Variant::All,
{
    reveal_strlit("cpu");
    reveal_strlit("memory");
    reveal_strlit("io");
    reveal_strlit("all");
    assert(DEFAULT_LABEL@[0] == 'a');
}

/// Whether `c` is whitespace.
pub fn is_whitespace_char(c: char) -> (whitespace: bool)
    ensures
        whitespace == is_whitespace(c),
{
    let code = c as u32;
    (0x09 <= code && code <= 0x0D) || code == 0x20 || code == 0x85 || code == 0xA0 || code
        == 0x1680 || (0x2000 <= code && code <= 0x200A) || code == 0x2028 || code == 0x2029
        || code == 0x202F || code == 0x205F || code == 0x3000
}

/// The characters of a text, one by one.
pub fn characters(text: &str) -> (chars: Vec<char>)
    ensures
        chars@ == text@,
{
    let mut chars: Vec<char> = Vec::new();
    for c in it: text.chars()
        invariant
            it.seq() == text@,
            chars@ == text@.take(it.index() as int),
    {
        chars.push(c);
        assert(chars@ =~= text@.take(it.index() + 1));
    }
    assert(chars@ =~= text@);
    chars
}

/// Whether two texts hold the same characters.
pub fn same_text(a: &str, b: &str) -> (same: bool)
    ensures
        same == (a@ == b@),
{
    let left = characters(a);
    let right = characters(b);
    if left.len() != right.len() {
        return false;
    }
    for i in 0..left.len()
        invariant
            left@ == a@,
            right@ == b@,
            left@.len() == right@.len(),
            left@.take(i as int) == right@.take(i as int),
    {
        if left[i] != right[i] {
            return false;
        }
        assert(left@.take(i + 1) =~= left@.take(i as int).push(left@[i as int]));
        assert(right@.take(i + 1) =~= right@.take(i as int).push(right@[i as int]));
    }
    assert(left@ =~= left@.take(left@.len() as int));
    assert(right@ =~= right@.take(right@.len() as int));
    true
}

/// Whether `text` starts with `prefix`.
pub fn starts_with(text: &str, prefix: &str) -> (found: bool)
    ensures
        found == prefix@.is_prefix_of(text@),
{
    let whole = characters(text);
    let start = characters(prefix);
    if start.len() > whole.len() {
        return false;
    }
    for i in 0..start.len()
        invariant
            whole@ == text@,
            start@ == prefix@,
            start@.len() <= whole@.len(),
            start@.take(i as int) == whole@.take(i as int),
    {
        if start[i] != whole[i] {
            assert(prefix@[i as int] != text@.subrange(0, prefix@.len() as int)[i as int]);
            return false;
        }
        assert(start@.take(i + 1) =~= start@.take(i as int).push(start@[i as int]));
        assert(whole@.take(i + 1) =~= whole@.take(i as int).push(whole@[i as int]));
    }
    assert(start@ =~= start@.take(start@.len() as int));
    assert(whole@.take(start@.len() as int) =~= whole@.subrange(0, start@.len() as int));
    true
}

/// Finds the end of the run that starts at `from`.
fn find_run_end(chars: &Vec<char>, from: usize, whitespace: bool) -> (to: usize)
    requires
        from <= chars@.len(),
    ensures
        to == run_end(chars@, from as int, whitespace),
        from <= to <= chars@.len(),
{
    let mut at = from;
    while at < chars.len() && is_whitespace_char(chars[at]) == whitespace
        invariant
            from <= at <= chars@.len(),
            run_end(chars@, at as int, whitespace) == run_end(chars@, from as int, whitespace),
        decreases chars@.len() - at,
    {
        at += 1;
    }
    at
}

/// Cuts a text at whitespace and gives the tokens in their order.
pub fn split_whitespace<'a>(content: &'a str) -> (parts: Vec<&'a str>)
    ensures
        texts(parts@) == tokens(content@),
{
    let chars = characters(content);
    let mut parts: Vec<&'a str> = Vec::new();
    let mut at: usize = 0;
    let mut start = find_run_end(&chars, at, true);
    let mut end = find_run_end(&chars, start, false);
    assert(texts(parts@) + tokens_from(content@, at as int) =~= tokens(content@));
    while start < end
        invariant
            chars@ == content@,
            at <= start <= end <= chars@.len(),
            start == run_end(content@, at as int, true),
            end == run_end(content@, start as int, false),
            texts(parts@) + tokens_from(content@, at as int) == tokens(content@),
        decreases chars@.len() - at,
    {
        let ghost before = parts@;
        let part = content.substring_char(start, end);
        parts.push(part);
        assert(texts(parts@) + tokens_from(content@, end as int) =~= texts(before) + tokens_from(
            content@,
            at as int,
        )) by {
            assert(texts(parts@) =~= texts(before).push(part@));
        }
        at = end;
        start = find_run_end(&chars, at, true);
        end = find_run_end(&chars, start, false);
    }
    assert(texts(parts@) =~= tokens(content@));
    parts
}

/// The workload that a word selects.
pub fn select_variant(label: &str) -> (variant: Variant)
    ensures
        variant == variant_of(label@),
{
    if same_text(label, CPU_LABEL) {
        Variant::Cpu
    } else if same_text(label, MEMORY_LABEL) {
        Variant::Memory
    } else if same_text(label, IO_LABEL) {
        Variant::Io
    } else {
        Variant::All
    }
}

/// Reads a message. A message that starts with the trigger is a request; the
/// word that selects its workload is its second token, or the default.
pub fn parse_command(content: &str) -> (command: Option<Variant>)
    ensures
        command is Some <==> is_request(content@),
        command matches Some(variant) ==> variant == requested_variant(content@),
{
    if !starts_with(content, TRIGGER) {
        return None;
    }
    let parts = split_whitespace(content);
    let label = if parts.len() > 1 {
        assert(texts(parts@)[1] == parts@[1]@);
        parts[1]
    } else {
        DEFAULT_LABEL
    };
    Some(select_variant(label))
}

} // verus!
