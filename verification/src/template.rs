//! Which templates are handed to the renderer.
//!
//! The renderer's operators, filters and functions are not all safe to run on
//! every template: it takes the remainder of two integers without looking for
//! the one pair that overflows, it turns a float that is not finite into a number
//! it cannot hold, and it slices by indexes it has not compared. So a template
//! is rendered only if every tag in it has one of the shapes below, which use
//! none of these; any other template is refused before the renderer sees it.

use crate::text::{chars_of, same_chars};
use vstd::prelude::*;

verus! {

/// How deep `if` blocks may stand inside each other.
pub const NESTING_LIMIT: usize = 16;

/// The white space that the renderer skips inside a tag.
pub open spec fn is_space(c: char) -> bool {
    c == ' ' || c == '\t' || c == '\r' || c == '\n'
}

/// The characters of a name: ASCII letters, digits and the underscore.
pub open spec fn is_word_char(c: char) -> bool {
    ('a' <= c && c <= 'z') || ('A' <= c && c <= 'Z') || ('0' <= c && c <= '9') || c == '_'
}

pub open spec fn is_digit(c: char) -> bool {
    '0' <= c && c <= '9'
}

/// A tag starts at `at`: an opening brace directly followed by `{`, `%` or `#`.
pub open spec fn opens_tag(s: Seq<char>, at: int) -> bool {
    &&& 0 <= at
    &&& at + 1 < s.len()
    &&& s[at] == '{'
    &&& (s[at + 1] == '{' || s[at + 1] == '%' || s[at + 1] == '#')
}

/// No tag starts anywhere in the template: all of it is literal text. A brace
/// that starts no tag is literal text too.
pub open spec fn is_literal(template: Seq<char>) -> bool {
    forall|at: int| !opens_tag(template, at)
}

/// The first index from `at` on that holds no white space.
pub open spec fn after_spaces(s: Seq<char>, at: int) -> int
    decreases s.len() - at,
{
    if 0 <= at < s.len() && is_space(s[at]) {
        after_spaces(s, at + 1)
    } else {
        at
    }
}

/// The first index from `at` on that holds no character of a name.
pub open spec fn after_word(s: Seq<char>, at: int) -> int
    decreases s.len() - at,
{
    if 0 <= at < s.len() && is_word_char(s[at]) {
        after_word(s, at + 1)
    } else {
        at
    }
}

/// The index behind the name that starts at `at`; `at` itself where none
/// starts there. A name does not start with a digit.
pub open spec fn after_name(s: Seq<char>, at: int) -> int {
    if 0 <= at < s.len() && is_word_char(s[at]) && !is_digit(s[at]) {
        after_word(s, at)
    } else {
        at
    }
}

/// The index behind a hyphen at `at`; `at` itself where none stands there.
pub open spec fn after_dash(s: Seq<char>, at: int) -> int {
    if 0 <= at < s.len() && s[at] == '-' {
        at + 1
    } else {
        at
    }
}

/// The index behind the end of a tag whose inside ends at `at`: white space, an
/// optional hyphen, then `mark` and a closing brace. `-1` where something else
/// stands there.
pub open spec fn after_close(s: Seq<char>, at: int, mark: char) -> int {
    let close = after_dash(s, after_spaces(s, at));
    if 0 <= close && close + 1 < s.len() && s[close] == mark && s[close + 1] == '}' {
        close + 2
    } else {
        -1
    }
}

/// The index behind the first `#}` from `at` on, or `-1` where there is none.
pub open spec fn after_comment(s: Seq<char>, at: int) -> int
    decreases s.len() - at,
{
    if at < 0 || at + 1 >= s.len() {
        -1
    } else if s[at] == '#' && s[at + 1] == '}' {
        at + 2
    } else {
        after_comment(s, at + 1)
    }
}

/// The index behind the tag `{{ name }}` that starts at `at`, or `-1` where the
/// tag holds anything but one name.
pub open spec fn after_variable(s: Seq<char>, at: int) -> int {
    let from = after_spaces(s, after_dash(s, at + 2));
    let to = after_name(s, from);
    if to > from {
        after_close(s, to, '}')
    } else {
        -1
    }
}

/// The first word of the tag `{% .. %}` that starts at `at`.
pub open spec fn block_word(s: Seq<char>, at: int) -> Seq<char> {
    let from = after_spaces(s, after_dash(s, at + 2));
    s.subrange(from, after_word(s, from))
}

/// The index behind the tag `{% .. %}` that starts at `at`, or `-1` where it is
/// none of `{% if name %}`, `{% elif name %}`, `{% else %}`, `{% endif %}`.
pub open spec fn after_block(s: Seq<char>, at: int) -> int {
    let word = block_word(s, at);
    let word_end = after_word(s, after_spaces(s, after_dash(s, at + 2)));
    if word == "if"@ || word == "elif"@ {
        let from = after_spaces(s, word_end);
        let to = after_name(s, from);
        if from > word_end && to > from {
            after_close(s, to, '%')
        } else {
            -1
        }
    } else if word == "else"@ || word == "endif"@ {
        after_close(s, word_end, '%')
    } else {
        -1
    }
}

/// The index behind the tag that starts at `at`, or `-1` where the tag has no
/// supported shape. A comment runs to the first `#}`.
pub open spec fn after_tag(s: Seq<char>, at: int) -> int {
    if s[at + 1] == '#' {
        after_comment(s, at + 2)
    } else if s[at + 1] == '{' {
        after_variable(s, at)
    } else {
        after_block(s, at)
    }
}

/// How many `if` blocks are open behind the tag that starts at `at`, where
/// `depth` were open before it.
pub open spec fn depth_after(s: Seq<char>, at: int, depth: int) -> int {
    if s[at + 1] == '%' && block_word(s, at) == "if"@ {
        depth + 1
    } else if s[at + 1] == '%' && block_word(s, at) == "endif"@ && depth > 0 {
        depth - 1
    } else {
        depth
    }
}

/// From `at` on, with `depth` open `if` blocks, the template holds literal text
/// and tags of the supported shapes only, and never more than `NESTING_LIMIT`
/// open `if` blocks.
pub open spec fn supported_from(s: Seq<char>, at: int, depth: int) -> bool
    decreases s.len() - at,
{
    if at < 0 || at >= s.len() {
        true
    } else if !opens_tag(s, at) {
        supported_from(s, at + 1, depth)
    } else if at < after_tag(s, at) <= s.len() && depth_after(s, at, depth) <= NESTING_LIMIT {
        supported_from(s, after_tag(s, at), depth_after(s, at, depth))
    } else {
        false
    }
}

/// The templates that are rendered. Outside its tags a template is free. Each
/// tag is a comment `{# .. #}`, a variable `{{ name }}`, or one of
/// `{% if name %}`, `{% elif name %}`, `{% else %}`, `{% endif %}`. White space
/// inside a tag is free, and a hyphen may stand directly behind the opening or
/// before the closing mark. What is refused is every other tag: operators,
/// numbers, strings, filters, function calls, loops, blocks, macros, includes
/// and raw sections, and `if` blocks nested more than `NESTING_LIMIT` deep.
pub open spec fn supported(template: Seq<char>) -> bool {
    supported_from(template, 0, 0)
}

/// Literal text is supported, wherever the reading of it starts.
pub proof fn lemma_literal_is_supported(template: Seq<char>, at: int, depth: int)
    requires
        is_literal(template),
    ensures
        supported_from(template, at, depth),
    decreases template.len() - at,
{
    if 0 <= at < template.len() {
        assert(!opens_tag(template, at));
        lemma_literal_is_supported(template, at + 1, depth);
    }
}

fn space(c: char) -> (yes: bool)
    ensures
        yes == is_space(c),
{
    c == ' ' || c == '\t' || c == '\r' || c == '\n'
}

fn word_char(c: char) -> (yes: bool)
    ensures
        yes == is_word_char(c),
{
    ('a' <= c && c <= 'z') || ('A' <= c && c <= 'Z') || ('0' <= c && c <= '9') || c == '_'
}

fn opener(s: &Vec<char>, at: usize) -> (yes: bool)
    requires
        at < s.len(),
    ensures
        yes == opens_tag(s@, at as int),
{
    s.len() - at >= 2 && s[at] == '{' && (s[at + 1] == '{' || s[at + 1] == '%' || s[at + 1] == '#')
}

fn skip_spaces(s: &Vec<char>, at: usize) -> (end: usize)
    requires
        at <= s.len(),
    ensures
        end == after_spaces(s@, at as int),
        at <= end <= s.len(),
{
    let mut i: usize = at;
    while i < s.len() && space(s[i])
        invariant
            at <= i <= s.len(),
            after_spaces(s@, at as int) == after_spaces(s@, i as int),
        decreases s.len() - i,
    {
        i += 1;
    }
    i
}

fn skip_word(s: &Vec<char>, at: usize) -> (end: usize)
    requires
        at <= s.len(),
    ensures
        end == after_word(s@, at as int),
        at <= end <= s.len(),
{
    let mut i: usize = at;
    while i < s.len() && word_char(s[i])
        invariant
            at <= i <= s.len(),
            after_word(s@, at as int) == after_word(s@, i as int),
        decreases s.len() - i,
    {
        i += 1;
    }
    i
}

fn skip_name(s: &Vec<char>, at: usize) -> (end: usize)
    requires
        at <= s.len(),
    ensures
        end == after_name(s@, at as int),
        at <= end <= s.len(),
{
    if at < s.len() && word_char(s[at]) && !('0' <= s[at] && s[at] <= '9') {
        skip_word(s, at)
    } else {
        at
    }
}

fn skip_dash(s: &Vec<char>, at: usize) -> (end: usize)
    requires
        at <= s.len(),
    ensures
        end == after_dash(s@, at as int),
        at <= end <= s.len(),
{
    if at < s.len() && s[at] == '-' {
        at + 1
    } else {
        at
    }
}

fn close(s: &Vec<char>, at: usize, mark: char) -> (end: Option<usize>)
    requires
        at <= s.len(),
    ensures
        match end {
            Some(end) => end == after_close(s@, at as int, mark) && at < end <= s.len(),
            None => after_close(s@, at as int, mark) == -1,
        },
{
    let close = skip_dash(s, skip_spaces(s, at));
    if s.len() - close >= 2 && s[close] == mark && s[close + 1] == '}' {
        Some(close + 2)
    } else {
        None
    }
}

fn comment_end(s: &Vec<char>, at: usize) -> (end: Option<usize>)
    requires
        at <= s.len(),
    ensures
        match end {
            Some(end) => end == after_comment(s@, at as int) && at < end <= s.len(),
            None => after_comment(s@, at as int) == -1,
        },
{
    let mut i: usize = at;
    while s.len() - i >= 2
        invariant
            at <= i <= s.len(),
            after_comment(s@, at as int) == after_comment(s@, i as int),
        decreases s.len() - i,
    {
        if s[i] == '#' && s[i + 1] == '}' {
            return Some(i + 2);
        }
        i += 1;
    }
    None
}

fn variable_end(s: &Vec<char>, at: usize) -> (end: Option<usize>)
    requires
        at + 2 <= s.len(),
    ensures
        match end {
            Some(end) => end == after_variable(s@, at as int) && at < end <= s.len(),
            None => after_variable(s@, at as int) == -1,
        },
{
    let from = skip_spaces(s, skip_dash(s, at + 2));
    let to = skip_name(s, from);
    if to > from {
        close(s, to, '}')
    } else {
        None
    }
}

fn word_between(s: &Vec<char>, from: usize, to: usize) -> (word: Vec<char>)
    requires
        from <= to <= s.len(),
    ensures
        word@ == s@.subrange(from as int, to as int),
{
    let mut word: Vec<char> = Vec::new();
    let mut i: usize = from;
    while i < to
        invariant
            from <= i <= to,
            to <= s.len(),
            word@ == s@.subrange(from as int, i as int),
        decreases to - i,
    {
        word.push(s[i]);
        i += 1;
        assert(s@.subrange(from as int, i as int) =~= s@.subrange(from as int, i as int - 1).push(
            s@[i as int - 1],
        ));
    }
    word
}

fn first_word(s: &Vec<char>, at: usize) -> (word: Vec<char>)
    requires
        at + 2 <= s.len(),
    ensures
        word@ == block_word(s@, at as int),
{
    let from = skip_spaces(s, skip_dash(s, at + 2));
    word_between(s, from, skip_word(s, from))
}

fn block_end(s: &Vec<char>, at: usize) -> (end: Option<usize>)
    requires
        at + 2 <= s.len(),
    ensures
        match end {
            Some(end) => end == after_block(s@, at as int) && at < end <= s.len(),
            None => after_block(s@, at as int) == -1,
        },
{
    let word = first_word(s, at);
    let word_end = skip_word(s, skip_spaces(s, skip_dash(s, at + 2)));
    if same_chars(&word, &chars_of("if")) || same_chars(&word, &chars_of("elif")) {
        let from = skip_spaces(s, word_end);
        let to = skip_name(s, from);
        if from > word_end && to > from {
            close(s, to, '%')
        } else {
            None
        }
    } else if same_chars(&word, &chars_of("else")) || same_chars(&word, &chars_of("endif")) {
        close(s, word_end, '%')
    } else {
        None
    }
}

fn tag_end(s: &Vec<char>, at: usize) -> (end: Option<usize>)
    requires
        at + 2 <= s.len(),
    ensures
        match end {
            Some(end) => end == after_tag(s@, at as int) && at < end <= s.len(),
            None => after_tag(s@, at as int) == -1,
        },
{
    if s[at + 1] == '#' {
        comment_end(s, at + 2)
    } else if s[at + 1] == '{' {
        variable_end(s, at)
    } else {
        block_end(s, at)
    }
}

fn next_depth(s: &Vec<char>, at: usize, depth: usize) -> (next: usize)
    requires
        at + 2 <= s.len(),
        depth <= NESTING_LIMIT,
    ensures
        next == depth_after(s@, at as int, depth as int),
{
    if s[at + 1] != '%' {
        return depth;
    }
    let word = first_word(s, at);
    if same_chars(&word, &chars_of("if")) {
        depth + 1
    } else if same_chars(&word, &chars_of("endif")) && depth > 0 {
        depth - 1
    } else {
        depth
    }
}

/// Whether the template is literal text throughout.
pub fn is_literal_text(template: &Vec<char>) -> (yes: bool)
    ensures
        yes == is_literal(template@),
{
    let mut at: usize = 0;
    while at < template.len()
        invariant
            at <= template.len(),
            forall|k: int| k < at ==> !opens_tag(template@, k),
        decreases template.len() - at,
    {
        if opener(template, at) {
            return false;
        }
        at += 1;
    }
    true
}

/// Whether the template is one that is rendered.
pub fn is_supported(template: &Vec<char>) -> (yes: bool)
    ensures
        yes == supported(template@),
{
    let mut at: usize = 0;
    let mut depth: usize = 0;
    while at < template.len()
        invariant
            at <= template.len(),
            depth <= NESTING_LIMIT,
            supported(template@) == supported_from(template@, at as int, depth as int),
        decreases template.len() - at,
    {
        if !opener(template, at) {
            at += 1;
        } else {
            let end = tag_end(template, at);
            let next = next_depth(template, at, depth);
            match end {
                Some(end) => {
                    if next > NESTING_LIMIT {
                        return false;
                    }
                    at = end;
                    depth = next;
                },
                None => {
                    return false;
                },
            }
        }
    }
    true
}

} // verus!
