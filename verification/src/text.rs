use vstd::prelude::*;

verus! {

/// `String::push`: appends one character.
#[verifier::external_body]
pub(crate) fn push_char(s: &mut String, c: char)
    ensures
        final(s)@ == old(s)@.push(c),
{
    s.push(c);
}

/// The characters that MarkdownV2 gives a meaning to.
pub open spec fn is_markdown_special(c: char) -> bool {
    c == '_' || c == '*' || c == '[' || c == ']' || c == '(' || c == ')' || c == '~' || c == '`'
        || c == '>' || c == '#' || c == '+' || c == '-' || c == '=' || c == '|' || c == '{' || c
        == '}' || c == '.' || c == '!'
}

/// One character as it stands in escaped MarkdownV2 text.
pub open spec fn escaped_char(c: char) -> Seq<char> {
    if is_markdown_special(c) {
        seq!['\\', c]
    } else {
        seq![c]
    }
}

/// `s` with a backslash put before each MarkdownV2 special character.
pub open spec fn markdown_escaped(s: Seq<char>) -> Seq<char>
    decreases s.len(),
{
    if s.len() == 0 {
        Seq::empty()
    } else {
        markdown_escaped(s.drop_last()) + escaped_char(s.last())
    }
}

/// `teloxide::utils::markdown::escape`. Its source folds over the characters
/// of `s`, pushing a backslash before each of the eighteen characters
/// `_*[]()~`>#+-=|{}.!` and then the character itself; the contract states that.
#[verifier::external_body]
pub(crate) fn markdown_escape(s: &str) -> (r: String)
    ensures
        r@ == markdown_escaped(s@),
{
    teloxide::utils::markdown::escape(s)
}

/// Every MarkdownV2 special character of escaped text is preceded by a
/// backslash, so none of them keeps a formatting meaning.
pub proof fn lemma_escaped_specials_are_preceded(s: Seq<char>)
    ensures
        forall|i: int|
            0 <= i < markdown_escaped(s).len() && is_markdown_special(
                #[trigger] markdown_escaped(s)[i],
            ) ==> i > 0 && markdown_escaped(s)[i - 1] == '\\',
    decreases s.len(),
{
    if s.len() > 0 {
        lemma_escaped_specials_are_preceded(s.drop_last());
        let p = markdown_escaped(s.drop_last());
        let q = escaped_char(s.last());
        assert(markdown_escaped(s) == p + q);
        assert forall|i: int|
            0 <= i < markdown_escaped(s).len() && is_markdown_special(
                #[trigger] markdown_escaped(s)[i],
            ) implies i > 0 && markdown_escaped(s)[i - 1] == '\\' by {
            if i < p.len() {
                assert(markdown_escaped(s)[i] == p[i]);
                assert(markdown_escaped(s)[i - 1] == p[i - 1]);
            } else {
                assert(markdown_escaped(s)[i] == q[i - p.len()]);
            }
        }
    }
}

/// Escaping text in two parts gives the escaped parts, one after the other.
pub proof fn lemma_escape_append(a: Seq<char>, b: Seq<char>)
    ensures
        markdown_escaped(a + b) == markdown_escaped(a) + markdown_escaped(b),
    decreases b.len(),
{
    if b.len() == 0 {
        assert(a + b == a);
        assert(markdown_escaped(a) + Seq::<char>::empty() == markdown_escaped(a));
    } else {
        lemma_escape_append(a, b.drop_last());
        assert((a + b).drop_last() == a + b.drop_last());
        assert((a + b).last() == b.last());
    }
}

/// A special character is escaped as a backslash and itself; any other
/// character stands for itself.
pub proof fn lemma_escape_char(c: char)
    ensures
        markdown_escaped(seq![c]) == if is_markdown_special(c) {
            seq!['\\', c]
        } else {
            seq![c]
        },
{
    reveal_with_fuel(markdown_escaped, 2);
    assert(seq![c].drop_last() == Seq::<char>::empty());
    assert(markdown_escaped(Seq::<char>::empty()) == Seq::<char>::empty());
    assert(Seq::<char>::empty() + escaped_char(c) == escaped_char(c));
}

/// MarkdownV2 text read back: a backslash before a special character is
/// dropped, every other character is kept.
pub open spec fn markdown_unescaped(t: Seq<char>) -> Seq<char>
    decreases t.len(),
{
    if t.len() == 0 {
        Seq::empty()
    } else if t.len() >= 2 && t[0] == '\\' && is_markdown_special(t[1]) {
        seq![t[1]] + markdown_unescaped(t.subrange(2, t.len() as int))
    } else {
        seq![t[0]] + markdown_unescaped(t.subrange(1, t.len() as int))
    }
}

proof fn lemma_escaped_starts_plain(s: Seq<char>)
    requires
        s.len() > 0,
    ensures
        !is_markdown_special(markdown_escaped(s)[0]),
{
    lemma_escape_append(seq![s[0]], s.subrange(1, s.len() as int));
    assert(seq![s[0]] + s.subrange(1, s.len() as int) == s);
    lemma_escape_char(s[0]);
}

/// Escaping loses nothing: reading the escaped text back gives the text.
pub proof fn lemma_unescape_escaped(s: Seq<char>)
    ensures
        markdown_unescaped(markdown_escaped(s)) == s,
    decreases s.len(),
{
    if s.len() > 0 {
        let c = s[0];
        let rest = s.subrange(1, s.len() as int);
        assert(seq![c] + rest == s);
        lemma_escape_append(seq![c], rest);
        lemma_escape_char(c);
        lemma_unescape_escaped(rest);
        let t = markdown_escaped(s);
        let er = markdown_escaped(rest);
        if is_markdown_special(c) {
            assert(t == seq!['\\', c] + er);
            assert(t.subrange(2, t.len() as int) == er);
        } else {
            assert(t == seq![c] + er);
            assert(t.subrange(1, t.len() as int) == er);
            if t.len() >= 2 {
                lemma_escaped_starts_plain(rest);
                assert(t[1] == er[0]);
            }
        }
    }
}

/// The characters with the Unicode property White_Space.
pub open spec fn is_white_space(c: char) -> bool {
    let v = c as int;
    (0x09 <= v <= 0x0d) || v == 0x20 || v == 0x85 || v == 0xa0 || v == 0x1680 || (0x2000 <= v
        <= 0x200a) || v == 0x2028 || v == 0x2029 || v == 0x202f || v == 0x205f || v == 0x3000
}

/// `char::is_whitespace`, documented as true exactly for the characters with
/// the Unicode property White_Space, which the contract lists.
#[verifier::external_body]
fn char_is_whitespace(c: char) -> (b: bool)
    ensures
        b == is_white_space(c),
{
    c.is_whitespace()
}

/// The words finished so far and the word being read, after reading `s` from
/// left to right.
pub open spec fn split_state(s: Seq<char>) -> (Seq<Seq<char>>, Seq<char>)
    decreases s.len(),
{
    if s.len() == 0 {
        (Seq::empty(), Seq::empty())
    } else {
        let (done, cur) = split_state(s.drop_last());
        let c = s.last();
        if is_white_space(c) {
            if cur.len() == 0 {
                (done, cur)
            } else {
                (done.push(cur), Seq::empty())
            }
        } else {
            (done, cur.push(c))
        }
    }
}

/// The words of `s`: its maximal runs of characters that are not white space.
pub open spec fn words(s: Seq<char>) -> Seq<Seq<char>> {
    let (done, cur) = split_state(s);
    if cur.len() == 0 {
        done
    } else {
        done.push(cur)
    }
}

/// The views of a vector of strings.
pub open spec fn string_views(v: Seq<String>) -> Seq<Seq<char>> {
    v.map_values(|w: String| w@)
}

/// The words of `s`, split at white space.
pub fn split_whitespace(s: &str) -> (r: Vec<String>)
    ensures
        string_views(r@) == words(s@),
{
    broadcast use vstd::string::group_string_axioms;

    let mut done: Vec<String> = Vec::new();
    let mut cur = String::new();
    let ghost mut seen: Seq<char> = Seq::empty();
    for c in it: s.chars()
        invariant
            seen == it.seq().take(it.index()),
            split_state(seen) == (string_views(done@), cur@),
            it.seq() == s@,
    {
        let ghost prefix = it.seq().take(it.index());
        let ghost next = it.seq().take(it.index() + 1);
        assert(next.drop_last() == prefix);
        assert(next.last() == c);
        assert(next == prefix.push(c));
        if char_is_whitespace(c) {
            if !cur.as_str().is_empty() {
                let w = cur;
                cur = String::new();
                done.push(w);
                assert(string_views(done@) == split_state(next).0);
            }
        } else {
            push_char(&mut cur, c);
        }
        assert(split_state(next) == (string_views(done@), cur@));
        proof {
            seen = seen.push(c);
        }
    }
    assert(seen =~= s@);
    assert(split_state(s@) == (string_views(done@), cur@));
    if !cur.as_str().is_empty() {
        done.push(cur);
    }
    assert(string_views(done@) == words(s@));
    done
}

/// Words are never empty and hold no white space.
pub proof fn lemma_words_are_white_space_free(s: Seq<char>)
    ensures
        forall|i: int|
            #![trigger words(s)[i]]
            0 <= i < words(s).len() ==> words(s)[i].len() > 0 && forall|j: int|
                0 <= j < words(s)[i].len() ==> !is_white_space(#[trigger] words(s)[i][j]),
{
    lemma_split_state_words(s);
}

proof fn lemma_split_state_words(s: Seq<char>)
    ensures
        forall|i: int|
            #![trigger split_state(s).0[i]]
            0 <= i < split_state(s).0.len() ==> split_state(s).0[i].len() > 0 && forall|j: int|
                0 <= j < split_state(s).0[i].len() ==> !is_white_space(
                    #[trigger] split_state(s).0[i][j],
                ),
        forall|j: int|
            0 <= j < split_state(s).1.len() ==> !is_white_space(#[trigger] split_state(s).1[j]),
    decreases s.len(),
{
    if s.len() > 0 {
        lemma_split_state_words(s.drop_last());
        let (done, cur) = split_state(s.drop_last());
        let c = s.last();
        if is_white_space(c) && cur.len() > 0 {
            assert forall|i: int| 0 <= i < done.push(cur).len() implies done.push(cur)[i].len() > 0
                && forall|j: int|
                0 <= j < done.push(cur)[i].len() ==> !is_white_space(
                    #[trigger] done.push(cur)[i][j],
                ) by {
                if i < done.len() {
                    assert(done.push(cur)[i] == done[i]);
                } else {
                    assert(done.push(cur)[i] == cur);
                }
            }
        } else if !is_white_space(c) {
            assert forall|j: int| 0 <= j < cur.push(c).len() implies !is_white_space(
                #[trigger] cur.push(c)[j],
            ) by {
                if j < cur.len() {
                    assert(cur.push(c)[j] == cur[j]);
                }
            }
        }
    }
}

/// The concatenation of `parts`.
pub open spec fn concat(parts: Seq<Seq<char>>) -> Seq<char>
    decreases parts.len(),
{
    if parts.len() == 0 {
        Seq::empty()
    } else {
        concat(parts.drop_last()) + parts.last()
    }
}

/// Splitting loses nothing but white space: the words, put back together,
/// are the characters of `s` that are not white space, in order.
pub proof fn lemma_words_keep_other_characters(s: Seq<char>)
    ensures
        concat(words(s)) == s.filter(|c: char| !is_white_space(c)),
{
    lemma_split_state_keeps(s);
    let (done, cur) = split_state(s);
    if cur.len() == 0 {
        assert(concat(done) + cur == concat(done));
    } else {
        assert(done.push(cur).drop_last() == done);
    }
}

proof fn lemma_split_state_keeps(s: Seq<char>)
    ensures
        concat(split_state(s).0) + split_state(s).1 == s.filter(|c: char| !is_white_space(c)),
    decreases s.len(),
{
    reveal(Seq::filter);
    let pred = |c: char| !is_white_space(c);
    if s.len() == 0 {
        assert(concat(Seq::<Seq<char>>::empty()) + Seq::<char>::empty() == Seq::<char>::empty());
    } else {
        lemma_split_state_keeps(s.drop_last());
        let (done, cur) = split_state(s.drop_last());
        let c = s.last();
        assert(s.filter(pred) == if pred(c) {
            s.drop_last().filter(pred).push(c)
        } else {
            s.drop_last().filter(pred)
        });
        if is_white_space(c) {
            if cur.len() > 0 {
                assert(done.push(cur).drop_last() == done);
                assert(concat(done.push(cur)) + Seq::<char>::empty() == concat(done) + cur);
            }
        } else {
            assert(concat(done) + cur.push(c) == (concat(done) + cur).push(c));
        }
    }
}

proof fn lemma_split_state_unbroken(s: Seq<char>)
    requires
        forall|i: int| 0 <= i < s.len() ==> !is_white_space(#[trigger] s[i]),
    ensures
        split_state(s) == (Seq::<Seq<char>>::empty(), s),
    decreases s.len(),
{
    if s.len() > 0 {
        lemma_split_state_unbroken(s.drop_last());
        assert(s.drop_last().push(s.last()) == s);
    }
}

/// Text of one or more characters and no white space is one word, itself.
pub proof fn lemma_word_of_unbroken_text(s: Seq<char>)
    requires
        s.len() > 0,
        forall|i: int| 0 <= i < s.len() ==> !is_white_space(#[trigger] s[i]),
    ensures
        words(s) == seq![s],
{
    lemma_split_state_unbroken(s);
    assert(Seq::<Seq<char>>::empty().push(s) == seq![s]);
}

proof fn lemma_split_state_after_break(a: Seq<char>, w: char, b: Seq<char>)
    requires
        is_white_space(w),
    ensures
        split_state(a.push(w) + b) == (words(a) + split_state(b).0, split_state(b).1),
    decreases b.len(),
{
    if b.len() == 0 {
        assert(a.push(w) + b == a.push(w));
        assert(a.push(w).drop_last() == a);
        assert(words(a) + Seq::<Seq<char>>::empty() == words(a));
    } else {
        let b0 = b.drop_last();
        let x = b.last();
        lemma_split_state_after_break(a, w, b0);
        assert((a.push(w) + b).drop_last() == a.push(w) + b0);
        assert((a.push(w) + b).last() == x);
        let (d, c) = split_state(b0);
        if is_white_space(x) {
            if c.len() > 0 {
                assert((words(a) + d).push(c) == words(a) + d.push(c));
            }
        }
    }
}

/// White space separates words: the words of `a`, then a white-space
/// character, then `b`, are the words of `a` followed by the words of `b`.
pub proof fn lemma_words_split_at_white_space(a: Seq<char>, w: char, b: Seq<char>)
    requires
        is_white_space(w),
    ensures
        words(a.push(w) + b) == words(a) + words(b),
{
    lemma_split_state_after_break(a, w, b);
    let (d, c) = split_state(b);
    if c.len() == 0 {
        assert(words(b) == d);
    } else {
        assert((words(a) + d).push(c) == words(a) + d.push(c));
    }
}

/// The text of lines read from a program's output: each line followed by a
/// newline.
pub open spec fn joined_lines(lines: Seq<Seq<char>>) -> Seq<char>
    decreases lines.len(),
{
    if lines.len() == 0 {
        Seq::empty()
    } else {
        joined_lines(lines.drop_last()) + lines.last() + seq!['\n']
    }
}

/// Collecting the lines of two parts of an output gives the text of the
/// first part followed by that of the second.
pub proof fn lemma_joined_lines_append(a: Seq<Seq<char>>, b: Seq<Seq<char>>)
    ensures
        joined_lines(a + b) == joined_lines(a) + joined_lines(b),
    decreases b.len(),
{
    if b.len() == 0 {
        assert(a + b == a);
        assert(joined_lines(a) + Seq::<char>::empty() == joined_lines(a));
    } else {
        lemma_joined_lines_append(a, b.drop_last());
        assert((a + b).drop_last() == a + b.drop_last());
        assert((a + b).last() == b.last());
    }
}

/// One line read becomes that line followed by one newline.
pub proof fn lemma_joined_line(line: Seq<char>)
    ensures
        joined_lines(seq![line]) == line.push('\n'),
{
    reveal_with_fuel(joined_lines, 2);
    assert(seq![line].drop_last() == Seq::<Seq<char>>::empty());
    assert(joined_lines(Seq::<Seq<char>>::empty()) == Seq::<char>::empty());
    assert(Seq::<char>::empty() + line + seq!['\n'] == line.push('\n'));
}

/// The output text made of `lines`, each followed by a newline.
pub fn join_output_lines(lines: &Vec<String>) -> (r: String)
    ensures
        r@ == joined_lines(string_views(lines@)),
{
    let mut r = String::new();
    for i in 0..lines.len()
        invariant
            r@ == joined_lines(string_views(lines@.take(i as int))),
    {
        assert(string_views(lines@.take(i + 1)).drop_last() == string_views(lines@.take(i as int)));
        r.append(lines[i].as_str());
        push_char(&mut r, '\n');
    }
    assert(lines@.take(lines.len() as int) == lines@);
    r
}

/// The decimal digit for `d` (0 to 9).
pub open spec fn digit_char(d: int) -> char {
    (48 + d) as char
}

/// The decimal numeral of `n`, without leading zeros.
pub open spec fn decimal(n: nat) -> Seq<char>
    decreases n,
{
    if n < 10 {
        seq![digit_char(n as int)]
    } else {
        decimal(n / 10).push(digit_char((n % 10) as int))
    }
}

fn push_decimal(s: &mut String, n: u64)
    ensures
        final(s)@ == old(s)@ + decimal(n as nat),
    decreases n,
{
    if n >= 10 {
        push_decimal(s, n / 10);
    }
    let d: u8 = (n % 10) as u8;
    let c = (48u8 + d) as char;
    assert(c == digit_char((n % 10) as int));
    push_char(s, c);
}

/// The decimal numeral of `n`.
pub fn u64_to_decimal(n: u64) -> (r: String)
    ensures
        r@ == decimal(n as nat),
{
    let mut r = String::new();
    push_decimal(&mut r, n);
    r
}

} // verus!
