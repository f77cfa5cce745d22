//! Character-buffer primitives for the text-field engine.
//!
//! The buffer is a plain vector of characters; every offset is a character
//! index. Each mutation states its effect exactly over the sequence view.

use vstd::prelude::*;

verus! {

/// Tab width, in spaces, used when decreasing indentation.
pub const TAB_SIZE: usize = 4;

/// The buffer with the characters of `[start, end)` removed.
pub open spec fn removed(s: Seq<char>, start: int, end: int) -> Seq<char> {
    s.subrange(0, start) + s.subrange(end, s.len() as int)
}

/// How many characters an insertion may still add under `limit`.
pub open spec fn insert_budget(len: nat, limit: usize) -> nat {
    if len <= limit as nat {
        (limit as nat - len) as nat
    } else {
        0
    }
}

/// The prefix of `t` that an insertion into `s` keeps: at most the remaining
/// budget. An unbounded field passes `usize::MAX` as the limit.
pub open spec fn kept_insertion(s: Seq<char>, t: Seq<char>, limit: usize) -> Seq<char> {
    if t.len() <= insert_budget(s.len(), limit) {
        t
    } else {
        t.take(insert_budget(s.len(), limit) as int)
    }
}

/// The buffer after inserting `t` at `at` under the length limit.
pub open spec fn inserted(s: Seq<char>, at: int, t: Seq<char>, limit: usize) -> Seq<char> {
    s.take(at) + kept_insertion(s, t, limit) + s.skip(at)
}

/// Remove the character range `[start, end)` from the buffer.
pub fn delete_char_range(text: &mut Vec<char>, start: usize, end: usize)
    requires
        start <= end <= old(text)@.len(),
    ensures
        final(text)@ == removed(old(text)@, start as int, end as int),
{
    let ghost orig = text@;
    let mut out: Vec<char> = Vec::new();
    let mut i: usize = 0;
    while i < start
        invariant
            i <= start <= end <= text@.len(),
            text@ == orig,
            out@ == orig.subrange(0, i as int),
        decreases start - i,
    {
        out.push(text[i]);
        i = i + 1;
    }
    let mut j: usize = end;
    while j < text.len()
        invariant
            end <= j <= text@.len(),
            text@ == orig,
            out@ == orig.subrange(0, start as int) + orig.subrange(end as int, j as int),
        decreases text@.len() - j,
    {
        out.push(text[j]);
        j = j + 1;
    }
    *text = out;
}

/// Insert the first `take` characters of `t` at offset `at`.
fn insert_prefix_at(text: &mut Vec<char>, at: usize, t: &Vec<char>, take: usize)
    requires
        at <= old(text)@.len(),
        take <= t@.len(),
        old(text)@.len() + take <= usize::MAX,
    ensures
        final(text)@ == old(text)@.take(at as int) + t@.take(take as int) + old(text)@.skip(
            at as int,
        ),
{
    let ghost orig = text@;
    let mut out: Vec<char> = Vec::new();
    let mut i: usize = 0;
    while i < at
        invariant
            i <= at <= text@.len(),
            text@ == orig,
            out@ == orig.subrange(0, i as int),
        decreases at - i,
    {
        out.push(text[i]);
        i = i + 1;
    }
    let mut k: usize = 0;
    while k < take
        invariant
            k <= take <= t@.len(),
            at <= text@.len(),
            text@ == orig,
            out@ == orig.subrange(0, at as int) + t@.subrange(0, k as int),
        decreases take - k,
    {
        out.push(t[k]);
        k = k + 1;
    }
    let mut j: usize = at;
    while j < text.len()
        invariant
            at <= j <= text@.len(),
            take <= t@.len(),
            text@ == orig,
            out@ == orig.subrange(0, at as int) + t@.subrange(0, take as int) + orig.subrange(
                at as int,
                j as int,
            ),
        decreases text@.len() - j,
    {
        out.push(text[j]);
        j = j + 1;
    }
    *text = out;
    proof {
        assert(final(text)@ =~= orig.take(at as int) + t@.take(take as int) + orig.skip(at as int));
    }
}

/// Insert `t` at the caret, truncating what would push the buffer past
/// `char_limit`; the caret moves past the inserted characters.
pub fn insert_text_at(text: &mut Vec<char>, ccursor: usize, t: &Vec<char>, char_limit: usize) -> (c:
    usize)
    requires
        ccursor <= old(text)@.len(),
    ensures
        final(text)@ == inserted(old(text)@, ccursor as int, t@, char_limit),
        c == ccursor + kept_insertion(old(text)@, t@, char_limit).len(),
        c <= final(text)@.len(),
{
    let budget: usize = if text.len() <= char_limit {
        char_limit - text.len()
    } else {
        0
    };
    let take: usize = if t.len() <= budget {
        t.len()
    } else {
        budget
    };
    insert_prefix_at(text, ccursor, t, take);
    proof {
        assert(kept_insertion(old(text)@, t@, char_limit) =~= t@.take(take as int));
    }
    ccursor + take
}

/// Delete the selected range; the caret collapses to its start.
pub fn delete_selected(text: &mut Vec<char>, min: usize, max: usize) -> (c: usize)
    requires
        min <= max <= old(text)@.len(),
    ensures
        final(text)@ == removed(old(text)@, min as int, max as int),
        c == min,
{
    delete_char_range(text, min, max);
    min
}

/// Delete the character before the caret, if any.
pub fn delete_previous_char(text: &mut Vec<char>, ccursor: usize) -> (c: usize)
    requires
        ccursor <= old(text)@.len(),
    ensures
        ccursor > 0 ==> final(text)@ == removed(old(text)@, ccursor - 1, ccursor as int) && c
            == ccursor - 1,
        ccursor == 0 ==> final(text)@ == old(text)@ && c == 0,
{
    if ccursor > 0 {
        delete_char_range(text, ccursor - 1, ccursor);
        proof {
            assert(text@ =~= removed(old(text)@, ccursor - 1, ccursor as int));
        }
        ccursor - 1
    } else {
        proof {
            assert(text@ =~= old(text)@);
        }
        ccursor
    }
}

/// Delete the character after the caret, if any.
pub fn delete_next_char(text: &mut Vec<char>, ccursor: usize) -> (c: usize)
    requires
        ccursor <= old(text)@.len(),
    ensures
        ccursor < old(text)@.len() ==> final(text)@ == removed(
            old(text)@,
            ccursor as int,
            ccursor + 1,
        ),
        ccursor == old(text)@.len() ==> final(text)@ == old(text)@,
        c == ccursor,
{
    if ccursor < text.len() {
        delete_char_range(text, ccursor, ccursor + 1);
    } else {
        proof {
            assert(text@ =~= old(text)@);
        }
    }
    ccursor
}

/// Buffer and caret after inserting `t` at `at` under the length limit.
pub open spec fn insertion_result(s: Seq<char>, at: int, t: Seq<char>, limit: usize) -> (Seq<char>,
    int,
) {
    (inserted(s, at, t, limit), at + kept_insertion(s, t, limit).len())
}

/// Buffer and caret after deleting one character backwards.
pub open spec fn char_delete_back(s: Seq<char>, i: int) -> (Seq<char>, int) {
    if i > 0 {
        (removed(s, i - 1, i), i - 1)
    } else {
        (s, i)
    }
}

/// Buffer and caret after deleting one character forwards.
pub open spec fn char_delete_forward(s: Seq<char>, i: int) -> (Seq<char>, int) {
    if i < s.len() {
        (removed(s, i, i + 1), i)
    } else {
        (s, i)
    }
}

/// Buffer and caret after deleting back to the previous word boundary.
pub open spec fn word_delete_back(s: Seq<char>, i: int) -> (Seq<char>, int) {
    (removed(s, prev_word_boundary(s, i), i), prev_word_boundary(s, i))
}

/// Buffer and caret after deleting forward to the next word boundary.
pub open spec fn word_delete_forward(s: Seq<char>, i: int) -> (Seq<char>, int) {
    (removed(s, i, next_word_boundary(s, i)), i)
}

/// Buffer and caret after a paragraph delete backwards over `[min, max]`.
pub open spec fn paragraph_delete_back(s: Seq<char>, min: int, max: int) -> (Seq<char>, int) {
    let start = line_start(s, min);
    if start == max {
        char_delete_back(s, max)
    } else {
        (removed(s, start, max), start)
    }
}

/// Buffer and caret after a paragraph delete forwards over `[min, max]`.
pub open spec fn paragraph_delete_forward(s: Seq<char>, min: int, max: int) -> (Seq<char>, int) {
    let end = line_end(s, max);
    if min == end {
        char_delete_forward(s, min)
    } else {
        (removed(s, min, end), min)
    }
}

/// Buffer and caret after removing one step of leading indentation from the
/// caret's line.
pub open spec fn indent_decrease(s: Seq<char>, c: int) -> (Seq<char>, int) {
    let ls = line_start(s, c);
    let n = indent_removal_len(s, ls);
    let end = if ls + n <= s.len() {
        ls + n
    } else {
        s.len() as int
    };
    if n == 0 {
        (s, c)
    } else {
        (
            removed(s, ls, end),
            if c == ls {
                c
            } else if c >= n {
                c - n
            } else {
                0
            },
        )
    }
}

/// Law: an insertion that would push the buffer past the limit fills it to
/// exactly the limit, and to no more.
pub proof fn lemma_insert_fills_to_limit(s: Seq<char>, at: int, t: Seq<char>, limit: usize)
    requires
        0 <= at <= s.len(),
        s.len() <= limit,
        s.len() + t.len() > limit,
    ensures
        inserted(s, at, t, limit).len() == limit,
{
    assert(kept_insertion(s, t, limit).len() == limit - s.len());
}

/// Copy out the character range `[start, end)`.
pub fn slice_chars(text: &Vec<char>, start: usize, end: usize) -> (r: Vec<char>)
    requires
        start <= end <= text@.len(),
    ensures
        r@ == text@.subrange(start as int, end as int),
{
    let mut out: Vec<char> = Vec::new();
    let mut i: usize = start;
    while i < end
        invariant
            start <= i <= end <= text@.len(),
            out@ == text@.subrange(start as int, i as int),
        decreases end - i,
    {
        out.push(text[i]);
        i = i + 1;
    }
    out
}

/// What the alphanumeric test of the standard library returns for a
/// character; a pure function of the character alone.
pub uninterp spec fn alphanumeric(c: char) -> bool;

/// Relies on `char::is_alphanumeric` of std: a pure classification of the
/// character by the Unicode tables.
#[verifier::external_body]
fn char_is_alphanumeric(c: char) -> (r: bool)
    ensures
        r == alphanumeric(c),
{
    c.is_alphanumeric()
}

/// A word character: alphanumeric or an underscore.
pub open spec fn is_word_char(c: char) -> bool {
    alphanumeric(c) || c == '_'
}

fn word_char(c: char) -> (r: bool)
    ensures
        r == is_word_char(c),
{
    char_is_alphanumeric(c) || c == '_'
}

/// Largest `j <= i` such that every character of `[j, i)` is a non-word
/// character.
pub open spec fn skip_non_word_back(s: Seq<char>, i: int) -> int
    decreases i,
{
    if i <= 0 {
        0
    } else if !is_word_char(s[i - 1]) {
        skip_non_word_back(s, i - 1)
    } else {
        i
    }
}

/// Largest `j <= i` such that every character of `[j, i)` is a word
/// character.
pub open spec fn skip_word_back(s: Seq<char>, i: int) -> int
    decreases i,
{
    if i <= 0 {
        0
    } else if is_word_char(s[i - 1]) {
        skip_word_back(s, i - 1)
    } else {
        i
    }
}

/// The boundary a word jump to the left lands on: skip separators, then one
/// run of word characters.
pub open spec fn prev_word_boundary(s: Seq<char>, i: int) -> int {
    skip_word_back(s, skip_non_word_back(s, i))
}

/// Smallest `j >= i` such that every character of `[i, j)` is a non-word
/// character.
pub open spec fn skip_non_word_forward(s: Seq<char>, i: int) -> int
    decreases s.len() - i,
{
    if i < 0 || i >= s.len() {
        s.len() as int
    } else if !is_word_char(s[i]) {
        skip_non_word_forward(s, i + 1)
    } else {
        i
    }
}

/// Smallest `j >= i` such that every character of `[i, j)` is a word
/// character.
pub open spec fn skip_word_forward(s: Seq<char>, i: int) -> int
    decreases s.len() - i,
{
    if i < 0 || i >= s.len() {
        s.len() as int
    } else if is_word_char(s[i]) {
        skip_word_forward(s, i + 1)
    } else {
        i
    }
}

/// The boundary a word jump to the right lands on: skip separators, then one
/// run of word characters.
pub open spec fn next_word_boundary(s: Seq<char>, i: int) -> int {
    skip_word_forward(s, skip_non_word_forward(s, i))
}

/// Find where a word jump to the left from `ccursor` lands.
pub fn find_prev_word_boundary(text: &Vec<char>, ccursor: usize) -> (r: usize)
    requires
        ccursor <= text@.len(),
    ensures
        r == prev_word_boundary(text@, ccursor as int),
        r <= ccursor,
{
    let mut j: usize = ccursor;
    while j > 0 && !word_char(text[j - 1])
        invariant
            j <= ccursor <= text@.len(),
            skip_non_word_back(text@, ccursor as int) == skip_non_word_back(text@, j as int),
        decreases j,
    {
        j = j - 1;
    }
    proof {
        assert(skip_non_word_back(text@, j as int) == j);
    }
    while j > 0 && word_char(text[j - 1])
        invariant
            j <= ccursor <= text@.len(),
            skip_word_back(text@, skip_non_word_back(text@, ccursor as int)) == skip_word_back(
                text@,
                j as int,
            ),
        decreases j,
    {
        j = j - 1;
    }
    proof {
        assert(skip_word_back(text@, j as int) == j);
    }
    j
}

/// Find where a word jump to the right from `ccursor` lands.
pub fn find_next_word_boundary(text: &Vec<char>, ccursor: usize) -> (r: usize)
    requires
        ccursor <= text@.len(),
    ensures
        r == next_word_boundary(text@, ccursor as int),
        ccursor <= r <= text@.len(),
{
    let mut j: usize = ccursor;
    while j < text.len() && !word_char(text[j])
        invariant
            ccursor <= j <= text@.len(),
            skip_non_word_forward(text@, ccursor as int) == skip_non_word_forward(text@, j as int),
        decreases text@.len() - j,
    {
        j = j + 1;
    }
    proof {
        assert(skip_non_word_forward(text@, j as int) == j);
    }
    while j < text.len() && word_char(text[j])
        invariant
            ccursor <= j <= text@.len(),
            skip_word_forward(text@, skip_non_word_forward(text@, ccursor as int))
                == skip_word_forward(text@, j as int),
        decreases text@.len() - j,
    {
        j = j + 1;
    }
    proof {
        assert(skip_word_forward(text@, j as int) == j);
    }
    j
}

/// Start of the line holding offset `i`: just after the previous newline.
pub open spec fn line_start(s: Seq<char>, i: int) -> int
    decreases i,
{
    if i <= 0 {
        0
    } else if s[i - 1] == '\n' {
        i
    } else {
        line_start(s, i - 1)
    }
}

/// End of the line holding offset `i`: the next newline, or the end.
pub open spec fn line_end(s: Seq<char>, i: int) -> int
    decreases s.len() - i,
{
    if i < 0 || i >= s.len() {
        s.len() as int
    } else if s[i] == '\n' {
        i
    } else {
        line_end(s, i + 1)
    }
}

/// Delete from the previous word boundary to the caret.
pub fn delete_previous_word(text: &mut Vec<char>, max_ccursor: usize) -> (c: usize)
    requires
        max_ccursor <= old(text)@.len(),
    ensures
        final(text)@ == removed(
            old(text)@,
            prev_word_boundary(old(text)@, max_ccursor as int),
            max_ccursor as int,
        ),
        c == prev_word_boundary(old(text)@, max_ccursor as int),
        c <= max_ccursor,
{
    let min_ccursor = find_prev_word_boundary(text, max_ccursor);
    delete_selected(text, min_ccursor, max_ccursor)
}

/// Delete from the caret to the next word boundary.
pub fn delete_next_word(text: &mut Vec<char>, min_ccursor: usize) -> (c: usize)
    requires
        min_ccursor <= old(text)@.len(),
    ensures
        final(text)@ == removed(
            old(text)@,
            min_ccursor as int,
            next_word_boundary(old(text)@, min_ccursor as int),
        ),
        c == min_ccursor,
        min_ccursor as int <= next_word_boundary(old(text)@, min_ccursor as int)
            <= old(text)@.len(),
{
    let max_ccursor = find_next_word_boundary(text, min_ccursor);
    delete_selected(text, min_ccursor, max_ccursor)
}

/// Delete from the start of the paragraph (the current line) to the end of
/// the selection; with an empty selection at the line start, one character
/// before the caret is deleted instead.
pub fn delete_paragraph_before_cursor(text: &mut Vec<char>, min: usize, max: usize) -> (c: usize)
    requires
        min <= max <= old(text)@.len(),
    ensures
        ({
            let start = line_start(old(text)@, min as int);
            if start == max {
                (max > 0 ==> final(text)@ == removed(old(text)@, max - 1, max as int) && c == max
                    - 1) && (max == 0 ==> final(text)@ == old(text)@ && c == 0)
            } else {
                final(text)@ == removed(old(text)@, start, max as int) && c == start
            }
        }),
        0 <= line_start(old(text)@, min as int) <= min,
{
    let start = find_line_start(text, min);
    if start == max {
        delete_previous_char(text, max)
    } else {
        delete_selected(text, start, max)
    }
}

/// Delete from the start of the selection to the end of the paragraph (the
/// current line); with an empty selection at the line end, one character
/// after the caret is deleted instead.
pub fn delete_paragraph_after_cursor(text: &mut Vec<char>, min: usize, max: usize) -> (c: usize)
    requires
        min <= max <= old(text)@.len(),
    ensures
        ({
            let end = line_end(old(text)@, max as int);
            if min == end {
                (min < old(text)@.len() ==> final(text)@ == removed(old(text)@, min as int, min + 1))
                    && (min == old(text)@.len() ==> final(text)@ == old(text)@) && c == min
            } else {
                final(text)@ == removed(old(text)@, min as int, end) && c == min
            }
        }),
        max as int <= line_end(old(text)@, max as int) <= old(text)@.len(),
{
    let end = find_line_end(text, max);
    if min == end {
        delete_next_char(text, min)
    } else {
        proof {
            assert(line_end(text@, max as int) >= max);
        }
        delete_selected(text, min, end)
    }
}

/// How many characters removing one step of indentation takes off the start
/// of the line: one for a tab, the tab width for spaces (fewer may exist),
/// zero when the line starts with anything else.
pub open spec fn indent_removal_len(s: Seq<char>, ls: int) -> int {
    if 0 <= ls < s.len() && s[ls] == '\t' {
        1
    } else if forall|k: int|
        ls <= k < s.len() && k < ls + TAB_SIZE as int ==> #[trigger] s[k] == ' ' {
        TAB_SIZE as int
    } else {
        0
    }
}

/// Remove one step of leading indentation from the caret's line. The caret
/// moves left by the nominal removal width, saturating at zero, unless it
/// sat exactly on the line start.
pub fn decrease_indentation(text: &mut Vec<char>, ccursor: usize) -> (c: usize)
    requires
        ccursor <= old(text)@.len(),
    ensures
        ({
            let ls = line_start(old(text)@, ccursor as int);
            let n = indent_removal_len(old(text)@, ls);
            let end = if ls + n <= old(text)@.len() {
                ls + n
            } else {
                old(text)@.len() as int
            };
            if n == 0 {
                final(text)@ == old(text)@ && c == ccursor
            } else {
                final(text)@ == removed(old(text)@, ls, end) && c == (if ccursor == ls {
                    ccursor as int
                } else if ccursor >= n {
                    ccursor - n
                } else {
                    0
                })
            }
        }),
        c <= final(text)@.len(),
{
    let ls = find_line_start(text, ccursor);
    let remove_len: usize = if ls < text.len() && text[ls] == '\t' {
        1
    } else {
        let mut k: usize = ls;
        while k < text.len() && k - ls < TAB_SIZE && text[k] == ' '
            invariant
                ls <= k <= text@.len(),
                k - ls <= TAB_SIZE,
                forall|m: int| ls <= m < k ==> #[trigger] text@[m] == ' ',
            decreases text@.len() - k,
        {
            k = k + 1;
        }
        if k == text.len() || k - ls == TAB_SIZE {
            TAB_SIZE
        } else {
            proof {
                assert(text@[k as int] != ' ');
            }
            0
        }
    };
    if remove_len > 0 {
        let end = if text.len() - ls >= remove_len {
            ls + remove_len
        } else {
            text.len()
        };
        delete_char_range(text, ls, end);
        if ccursor == ls {
            ccursor
        } else if ccursor >= remove_len {
            ccursor - remove_len
        } else {
            0
        }
    } else {
        ccursor
    }
}

/// Find the start of the line holding the caret.
pub fn find_line_start(text: &Vec<char>, ccursor: usize) -> (r: usize)
    requires
        ccursor <= text@.len(),
    ensures
        r == line_start(text@, ccursor as int),
        r <= ccursor,
{
    let mut j: usize = ccursor;
    while j > 0 && !(text[j - 1] == '\n')
        invariant
            j <= ccursor <= text@.len(),
            line_start(text@, ccursor as int) == line_start(text@, j as int),
        decreases j,
    {
        j = j - 1;
    }
    j
}

/// Find the end of the line holding the caret.
pub fn find_line_end(text: &Vec<char>, ccursor: usize) -> (r: usize)
    requires
        ccursor <= text@.len(),
    ensures
        r == line_end(text@, ccursor as int),
        ccursor <= r <= text@.len(),
{
    let mut j: usize = ccursor;
    while j < text.len() && !(text[j] == '\n')
        invariant
            ccursor <= j <= text@.len(),
            line_end(text@, ccursor as int) == line_end(text@, j as int),
        decreases text@.len() - j,
    {
        j = j + 1;
    }
    j
}

} // verus!
