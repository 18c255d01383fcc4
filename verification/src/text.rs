//! Text as sequences of characters: the searching, trimming and line handling
//! that the summarizer needs, each stated over `Seq<char>`.

use vstd::prelude::*;

verus! {

/// `String::push` appends one character to the end of the string.
pub assume_specification[ String::push ](s: &mut String, ch: char)
    ensures
        final(s)@ == old(s)@.push(ch),
;

/// The characters of `s`, in order.
pub fn chars_of(s: &str) -> (chars: Vec<char>)
    ensures
        chars@ == s@,
{
    let mut chars: Vec<char> = Vec::new();
    for c in it: s.chars()
        invariant
            chars@ == it.seq().take(it.index()),
            it.seq() == s@,
    {
        chars.push(c);
    }
    chars
}

/// The string made of `chars`, in order.
pub fn string_of(chars: &Vec<char>) -> (s: String)
    ensures
        s@ == chars@,
{
    let mut s = String::new();
    let mut i: usize = 0;
    while i < chars.len()
        invariant
            i <= chars.len(),
            s@ == chars@.take(i as int),
        decreases chars.len() - i,
    {
        s.push(chars[i]);
        i += 1;
        assert(chars@.take(i as int) =~= chars@.take(i as int - 1).push(chars@[i as int - 1]));
    }
    assert(chars@.take(chars.len() as int) =~= chars@);
    s
}

/// Appends the characters of `more` to `out`.
pub fn append_chars(out: &mut Vec<char>, more: &Vec<char>)
    ensures
        final(out)@ == old(out)@ + more@,
{
    let mut i: usize = 0;
    while i < more.len()
        invariant
            i <= more.len(),
            out@ == old(out)@ + more@.take(i as int),
        decreases more.len() - i,
    {
        out.push(more[i]);
        i += 1;
        assert(more@.take(i as int) =~= more@.take(i as int - 1).push(more@[i as int - 1]));
    }
    assert(more@.take(more.len() as int) =~= more@);
}

/// Appends the characters of `more` to `out`.
pub fn append_str(out: &mut Vec<char>, more: &str)
    ensures
        final(out)@ == old(out)@ + more@,
{
    let tail = chars_of(more);
    append_chars(out, &tail);
}

/// Whether two character vectors hold the same text.
pub fn same_chars(a: &Vec<char>, b: &Vec<char>) -> (same: bool)
    ensures
        same == (a@ == b@),
{
    if a.len() != b.len() {
        return false;
    }
    let mut i: usize = 0;
    while i < a.len()
        invariant
            a.len() == b.len(),
            i <= a.len(),
            forall|k: int| 0 <= k < i ==> a@[k] == b@[k],
        decreases a.len() - i,
    {
        if a[i] != b[i] {
            return false;
        }
        i += 1;
    }
    assert(a@ =~= b@);
    true
}

/// `pattern` stands in `text` starting at index `at`.
pub open spec fn occurs_at(text: Seq<char>, pattern: Seq<char>, at: int) -> bool {
    &&& 0 <= at
    &&& at + pattern.len() <= text.len()
    &&& text.subrange(at, at + pattern.len()) == pattern
}

/// `pattern` is a contiguous part of `text`. The empty pattern is part of every text.
pub open spec fn contains(text: Seq<char>, pattern: Seq<char>) -> bool {
    exists|at: int| occurs_at(text, pattern, at)
}

fn matches_at(text: &Vec<char>, pattern: &Vec<char>, at: usize) -> (found: bool)
    requires
        at + pattern.len() <= text.len(),
    ensures
        found == occurs_at(text@, pattern@, at as int),
{
    let mut j: usize = 0;
    while j < pattern.len()
        invariant
            j <= pattern.len(),
            at + pattern.len() <= text.len(),
            forall|k: int| 0 <= k < j ==> text@[at + k] == pattern@[k],
        decreases pattern.len() - j,
    {
        if text[at + j] != pattern[j] {
            assert(text@.subrange(at as int, at + pattern.len())[j as int] == text@[at + j]);
            return false;
        }
        j += 1;
    }
    assert(text@.subrange(at as int, at + pattern.len()) =~= pattern@);
    true
}

/// Case-sensitive substring test.
pub fn has_substring(text: &Vec<char>, pattern: &Vec<char>) -> (found: bool)
    ensures
        found == contains(text@, pattern@),
{
    if pattern.len() > text.len() {
        return false;
    }
    let last: usize = text.len() - pattern.len();
    let mut at: usize = 0;
    loop
        invariant
            at <= last,
            last == text.len() - pattern.len(),
            forall|k: int| 0 <= k < at ==> !occurs_at(text@, pattern@, k),
        decreases last - at,
    {
        if matches_at(text, pattern, at) {
            return true;
        }
        if at == last {
            return false;
        }
        at += 1;
    }
}

/// The characters with the Unicode property `White_Space`.
pub open spec fn is_whitespace(c: char) -> bool {
    let n = c as u32;
    ||| 0x09 <= n <= 0x0D
    ||| n == 0x20
    ||| n == 0x85
    ||| n == 0xA0
    ||| n == 0x1680
    ||| 0x2000 <= n <= 0x200A
    ||| n == 0x2028
    ||| n == 0x2029
    ||| n == 0x202F
    ||| n == 0x205F
    ||| n == 0x3000
}

/// Whether `c` is white space.
pub fn whitespace(c: char) -> (yes: bool)
    ensures
        yes == is_whitespace(c),
{
    let n: u32 = c as u32;
    (0x09 <= n && n <= 0x0D) || n == 0x20 || n == 0x85 || n == 0xA0 || n == 0x1680 || (0x2000 <= n
        && n <= 0x200A) || n == 0x2028 || n == 0x2029 || n == 0x202F || n == 0x205F || n == 0x3000
}

/// `s` without its leading white space.
pub open spec fn trim_start(s: Seq<char>) -> Seq<char>
    decreases s.len(),
{
    if s.len() > 0 && is_whitespace(s[0]) {
        trim_start(s.drop_first())
    } else {
        s
    }
}

/// `s` without its trailing white space.
pub open spec fn trim_end(s: Seq<char>) -> Seq<char>
    decreases s.len(),
{
    if s.len() > 0 && is_whitespace(s.last()) {
        trim_end(s.drop_last())
    } else {
        s
    }
}

/// `s` without leading and trailing white space.
pub open spec fn trim(s: Seq<char>) -> Seq<char> {
    trim_end(trim_start(s))
}

/// `text` without leading and trailing white space.
pub fn trimmed(text: &Vec<char>) -> (out: Vec<char>)
    ensures
        out@ == trim(text@),
{
    let n: usize = text.len();
    let mut from: usize = 0;
    assert(text@.skip(0) =~= text@);
    while from < n && whitespace(text[from])
        invariant
            from <= n,
            n == text.len(),
            trim_start(text@) == trim_start(text@.skip(from as int)),
        decreases n - from,
    {
        assert(text@.skip(from as int).drop_first() =~= text@.skip(from as int + 1));
        from += 1;
    }
    let ghost rest = text@.skip(from as int);
    assert(trim_start(text@) == rest);
    let mut to: usize = n;
    assert(rest.take(n - from) =~= rest);
    while to > from && whitespace(text[to - 1])
        invariant
            from <= to <= n,
            n == text.len(),
            rest == text@.skip(from as int),
            trim_end(rest) == trim_end(rest.take(to - from)),
        decreases to - from,
    {
        assert(rest.take(to - from).drop_last() =~= rest.take(to - from - 1));
        to -= 1;
    }
    assert(trim_end(rest) == rest.take(to - from));
    let mut out: Vec<char> = Vec::new();
    let mut i: usize = from;
    while i < to
        invariant
            from <= i <= to,
            to <= text.len(),
            out@ == text@.subrange(from as int, i as int),
        decreases to - i,
    {
        out.push(text[i]);
        i += 1;
        assert(text@.subrange(from as int, i as int) =~= text@.subrange(from as int, i as int - 1).push(
            text@[i as int - 1],
        ));
    }
    assert(text@.subrange(from as int, to as int) =~= rest.take(to - from));
    out
}

/// The lower-case form of an ASCII capital letter; any other character itself.
pub open spec fn ascii_lower(c: char) -> char {
    if 'A' <= c && c <= 'Z' {
        ((c as u8) + 32) as char
    } else {
        c
    }
}

/// `s` with each ASCII capital letter in lower case.
pub open spec fn lowercase(s: Seq<char>) -> Seq<char> {
    Seq::new(s.len(), |i: int| ascii_lower(s[i]))
}

/// `text` with each ASCII capital letter in lower case.
pub fn lowered(text: &Vec<char>) -> (out: Vec<char>)
    ensures
        out@ == lowercase(text@),
{
    let mut out: Vec<char> = Vec::new();
    let mut i: usize = 0;
    while i < text.len()
        invariant
            i <= text.len(),
            out@ == lowercase(text@.take(i as int)),
        decreases text.len() - i,
    {
        let c = text[i];
        let low = if 'A' <= c && c <= 'Z' {
            ((c as u8) + 32) as char
        } else {
            c
        };
        out.push(low);
        i += 1;
        assert(lowercase(text@.take(i as int)) =~= lowercase(text@.take(i as int - 1)).push(low));
    }
    assert(text@.take(text.len() as int) =~= text@);
    out
}

/// The text of each element of `lines`.
pub open spec fn views(lines: Seq<Vec<char>>) -> Seq<Seq<char>> {
    lines.map_values(|line: Vec<char>| line@)
}

/// The index of the first line feed in `s`, or the length of `s` if it holds none.
pub open spec fn first_line_feed(s: Seq<char>) -> int
    decreases s.len(),
{
    if s.len() == 0 || s[0] == '\n' {
        0
    } else {
        1 + first_line_feed(s.drop_first())
    }
}

/// `line` without one trailing carriage return.
pub open spec fn strip_carriage_return(line: Seq<char>) -> Seq<char> {
    if line.len() > 0 && line.last() == '\r' {
        line.drop_last()
    } else {
        line
    }
}

/// The lines of `s`. A line ends at a line feed; the line feed, and a carriage
/// return directly before it, are not part of the line. What follows the last
/// line feed is a line too, unless it is empty.
pub open spec fn lines(s: Seq<char>) -> Seq<Seq<char>>
    decreases s.len(),
{
    let n = first_line_feed(s);
    if s.len() == 0 {
        Seq::empty()
    } else if 0 <= n < s.len() {
        seq![strip_carriage_return(s.take(n))] + lines(s.skip(n + 1))
    } else {
        seq![s]
    }
}

/// `lines` with a line feed between each two neighbours.
pub open spec fn join_lines(lines: Seq<Seq<char>>) -> Seq<char>
    decreases lines.len(),
{
    if lines.len() == 0 {
        Seq::empty()
    } else if lines.len() == 1 {
        lines[0]
    } else {
        join_lines(lines.drop_last()) + seq!['\n'] + lines.last()
    }
}

/// `s` without each element that equals the element directly before it.
pub open spec fn dedup<A>(s: Seq<A>) -> Seq<A>
    decreases s.len(),
{
    if s.len() < 2 {
        s
    } else if s[s.len() - 2] == s.last() {
        dedup(s.drop_last())
    } else {
        dedup(s.drop_last()).push(s.last())
    }
}

/// The text of `s` with every line that repeats the line before it removed.
pub open spec fn dedup_lines(s: Seq<char>) -> Seq<char> {
    join_lines(dedup(lines(s)))
}

/// The first line feed is where nothing before it is a line feed.
proof fn lemma_first_line_feed_is(s: Seq<char>, n: int)
    requires
        0 <= n <= s.len(),
        forall|k: int| 0 <= k < n ==> s[k] != '\n',
        n < s.len() ==> s[n] == '\n',
    ensures
        first_line_feed(s) == n,
    decreases s.len(),
{
    if s.len() == 0 || s[0] == '\n' {
    } else {
        let rest = s.drop_first();
        assert forall|k: int| 0 <= k < n - 1 implies rest[k] != '\n' by {
            assert(rest[k] == s[k + 1]);
        }
        lemma_first_line_feed_is(rest, n - 1);
    }
}

/// The lines of `text`.
pub fn split_lines(text: &Vec<char>) -> (out: Vec<Vec<char>>)
    ensures
        views(out@) == lines(text@),
{
    let n: usize = text.len();
    let mut out: Vec<Vec<char>> = Vec::new();
    let mut pos: usize = 0;
    assert(text@.skip(0) =~= text@);
    assert(views(out@) + lines(text@) =~= lines(text@));
    while pos < n
        invariant
            pos <= n,
            n == text.len(),
            lines(text@) == views(out@) + lines(text@.skip(pos as int)),
        decreases n - pos,
    {
        let ghost rest = text@.skip(pos as int);
        let mut end: usize = pos;
        while end < n && text[end] != '\n'
            invariant
                pos <= end <= n,
                n == text.len(),
                forall|k: int| pos <= k < end ==> text@[k] != '\n',
            decreases n - end,
        {
            end += 1;
        }
        proof {
            lemma_first_line_feed_is(rest, end - pos);
        }
        let mut stop: usize = end;
        if end < n && end > pos && text[end - 1] == '\r' {
            stop = end - 1;
        }
        let mut line: Vec<char> = Vec::new();
        let mut i: usize = pos;
        while i < stop
            invariant
                pos <= i <= stop,
                stop <= text.len(),
                line@ == text@.subrange(pos as int, i as int),
            decreases stop - i,
        {
            line.push(text[i]);
            i += 1;
            assert(text@.subrange(pos as int, i as int) =~= text@.subrange(pos as int, i as int - 1).push(
                text@[i as int - 1],
            ));
        }
        let ghost before = views(out@);
        out.push(line);
        assert(views(out@) =~= before.push(line@));
        proof {
            if end < n {
                assert(rest.take(end - pos) =~= text@.subrange(pos as int, end as int));
                assert(strip_carriage_return(rest.take(end - pos)) =~= line@);
                assert(rest.skip(end - pos + 1) =~= text@.skip(end as int + 1));
                assert(before + (seq![line@] + lines(text@.skip(end as int + 1))) =~= before.push(
                    line@,
                ) + lines(text@.skip(end as int + 1)));
            } else {
                assert(line@ =~= rest);
                assert(text@.skip(n as int) =~= Seq::<char>::empty());
                assert(before + seq![line@] =~= before.push(line@) + lines(text@.skip(n as int)));
            }
        }
        pos = if end < n {
            end + 1
        } else {
            n
        };
    }
    assert(text@.skip(n as int) =~= Seq::<char>::empty());
    assert(views(out@) + lines(text@.skip(n as int)) =~= views(out@));
    out
}

/// The text of `text` with every line that repeats the line before it removed:
/// only a line equal to its direct predecessor goes, a later repeat stays.
pub fn dedup_consecutive_lines(text: &Vec<char>) -> (out: Vec<char>)
    ensures
        out@ == dedup_lines(text@),
{
    let all = split_lines(text);
    let ghost ls = views(all@);
    let mut out: Vec<char> = Vec::new();
    let mut i: usize = 0;
    assert(ls.take(0) =~= Seq::<Seq<char>>::empty());
    while i < all.len()
        invariant
            i <= all.len(),
            ls == views(all@),
            out@ == join_lines(dedup(ls.take(i as int))),
            i > 0 ==> dedup(ls.take(i as int)).len() > 0,
        decreases all.len() - i,
    {
        let ghost head = ls.take(i as int);
        let ghost next = ls.take(i as int + 1);
        assert(next.drop_last() =~= head);
        assert(next.last() == all@[i as int]@);
        let repeats = i > 0 && same_chars(&all[i - 1], &all[i]);
        if i > 0 {
            assert(next[next.len() - 2] == all@[i as int - 1]@);
        }
        if !repeats {
            if i > 0 {
                out.push('\n');
            }
            append_chars(&mut out, &all[i]);
            assert(dedup(next) == dedup(head).push(next.last()));
            assert(dedup(next).drop_last() =~= dedup(head));
        }
        i += 1;
    }
    assert(ls.take(all.len() as int) =~= ls);
    out
}

/// Every character of `s` is white space.
pub open spec fn is_blank(s: Seq<char>) -> bool {
    forall|i: int| 0 <= i < s.len() ==> is_whitespace(#[trigger] s[i])
}

/// White space before a text that does not start with white space is what
/// `trim_start` removes, and nothing else.
pub proof fn lemma_trim_start_padded(pad: Seq<char>, rest: Seq<char>)
    requires
        is_blank(pad),
        rest.len() == 0 || !is_whitespace(rest[0]),
    ensures
        trim_start(pad + rest) == rest,
    decreases pad.len(),
{
    let s = pad + rest;
    if pad.len() == 0 {
        assert(s =~= rest);
    } else {
        assert(s[0] == pad[0]);
        assert(s.drop_first() =~= pad.drop_first() + rest);
        assert forall|i: int| 0 <= i < pad.drop_first().len() implies is_whitespace(
            #[trigger] pad.drop_first()[i],
        ) by {
            assert(pad.drop_first()[i] == pad[i + 1]);
        }
        lemma_trim_start_padded(pad.drop_first(), rest);
    }
}

/// White space behind a text that does not end with white space is what
/// `trim_end` removes, and nothing else.
pub proof fn lemma_trim_end_padded(rest: Seq<char>, pad: Seq<char>)
    requires
        is_blank(pad),
        rest.len() == 0 || !is_whitespace(rest.last()),
    ensures
        trim_end(rest + pad) == rest,
    decreases pad.len(),
{
    let s = rest + pad;
    if pad.len() == 0 {
        assert(s =~= rest);
    } else {
        assert(s.last() == pad.last());
        assert(s.drop_last() =~= rest + pad.drop_last());
        assert forall|i: int| 0 <= i < pad.drop_last().len() implies is_whitespace(
            #[trigger] pad.drop_last()[i],
        ) by {
            assert(pad.drop_last()[i] == pad[i]);
        }
        lemma_trim_end_padded(rest, pad.drop_last());
    }
}

/// Trimming gives back a text that neither starts nor ends with white space,
/// whatever white space stands around it.
pub proof fn lemma_trim_padded(before: Seq<char>, core: Seq<char>, after: Seq<char>)
    requires
        is_blank(before),
        is_blank(after),
        core.len() == 0 || (!is_whitespace(core[0]) && !is_whitespace(core.last())),
    ensures
        trim(before + core + after) == core,
{
    let rest = core + after;
    assert(before + core + after =~= before + rest);
    if core.len() == 0 {
        assert(rest =~= after);
        assert(before + rest =~= (before + after) + Seq::<char>::empty());
        assert forall|i: int| 0 <= i < (before + after).len() implies is_whitespace(
            #[trigger] (before + after)[i],
        ) by {
            if i < before.len() {
                assert((before + after)[i] == before[i]);
            } else {
                assert((before + after)[i] == after[i - before.len()]);
            }
        }
        lemma_trim_start_padded(before + after, Seq::<char>::empty());
        assert(trim_end(Seq::<char>::empty()) =~= core);
    } else {
        assert(rest[0] == core[0]);
        lemma_trim_start_padded(before, rest);
        lemma_trim_end_padded(core, after);
    }
}

/// What is left of a deduplicated sequence starts and ends as the sequence does.
pub proof fn lemma_dedup_ends<A>(s: Seq<A>)
    requires
        s.len() > 0,
    ensures
        dedup(s).len() > 0,
        dedup(s).len() <= s.len(),
        dedup(s)[0] == s[0],
        dedup(s).last() == s.last(),
    decreases s.len(),
{
    if s.len() >= 2 {
        lemma_dedup_ends(s.drop_last());
    }
}

/// No element of a deduplicated sequence equals the element before it.
pub proof fn lemma_dedup_has_no_repeat<A>(s: Seq<A>)
    ensures
        forall|i: int| 0 < i < dedup(s).len() ==> dedup(s)[i - 1] != #[trigger] dedup(s)[i],
    decreases s.len(),
{
    if s.len() >= 2 {
        lemma_dedup_has_no_repeat(s.drop_last());
        lemma_dedup_ends(s.drop_last());
    }
}

/// A sequence in which no element equals the element before it is left as it is.
pub proof fn lemma_dedup_keeps_distinct_neighbours<A>(s: Seq<A>)
    requires
        forall|i: int| 0 < i < s.len() ==> s[i - 1] != #[trigger] s[i],
    ensures
        dedup(s) == s,
    decreases s.len(),
{
    if s.len() >= 2 {
        let front = s.drop_last();
        assert forall|i: int| 0 < i < front.len() implies front[i - 1] != #[trigger] front[i] by {
            assert(front[i] == s[i]);
            assert(front[i - 1] == s[i - 1]);
        }
        lemma_dedup_keeps_distinct_neighbours(front);
        assert(s[s.len() - 2] != s[s.len() - 1]);
        assert(front.push(s.last()) =~= s);
    }
}

/// Deduplicating twice gives what deduplicating once gives.
pub proof fn lemma_dedup_idempotent<A>(s: Seq<A>)
    ensures
        dedup(dedup(s)) == dedup(s),
{
    lemma_dedup_has_no_repeat(s);
    lemma_dedup_keeps_distinct_neighbours(dedup(s));
}

/// An element is in `s.push(last)` if and only if it is in `s` or is `last`.
pub proof fn lemma_push_contains<A>(s: Seq<A>, last: A, x: A)
    ensures
        s.push(last).contains(x) <==> (s.contains(x) || x == last),
{
    let long = s.push(last);
    if long.contains(x) {
        let j = choose|j: int| 0 <= j < long.len() && long[j] == x;
        if j < s.len() {
            assert(s[j] == x);
        }
    }
    if s.contains(x) {
        let j = choose|j: int| 0 <= j < s.len() && s[j] == x;
        assert(long[j] == x);
    }
    assert(long[s.len() as int] == last);
}

/// Deduplicating removes repeats only: every element of the sequence is still
/// there, and nothing else is.
pub proof fn lemma_dedup_keeps_elements<A>(s: Seq<A>)
    ensures
        forall|x: A| #[trigger] s.contains(x) <==> dedup(s).contains(x),
    decreases s.len(),
{
    if s.len() >= 2 {
        let front = s.drop_last();
        let last = s.last();
        let short = dedup(front);
        lemma_dedup_keeps_elements(front);
        assert(s =~= front.push(last));
        assert forall|x: A| #[trigger] s.contains(x) <==> dedup(s).contains(x) by {
            assert(front.contains(x) <==> short.contains(x));
            lemma_push_contains(front, last, x);
            if s[s.len() - 2] == last {
                assert(front[front.len() - 1] == last);
            } else {
                lemma_push_contains(short, last, x);
            }
        }
    }
}

} // verus!
