//! The line model of a key's value: how a raw value is cut into editor
//! lines, with every line ending (LF, CRLF, lone CR) treated as one break
//! and a single trailing line terminator not opening an extra empty line,
//! and how lines are joined back into the normalized value.

use vstd::prelude::*;

verus! {

/// The lines of `cur + rest`, where `cur` is an unfinished line and every
/// `\n`, `\r\n` or lone `\r` in `rest` closes a line.
pub open spec fn lines_from(cur: Seq<char>, rest: Seq<char>) -> Seq<Seq<char>>
    decreases rest.len(),
{
    if rest.len() == 0 {
        seq![cur]
    } else if rest[0] == '\n' {
        seq![cur] + lines_from(Seq::empty(), rest.skip(1))
    } else if rest[0] == '\r' {
        if rest.len() > 1 && rest[1] == '\n' {
            seq![cur] + lines_from(Seq::empty(), rest.skip(2))
        } else {
            seq![cur] + lines_from(Seq::empty(), rest.skip(1))
        }
    } else {
        lines_from(cur.push(rest[0]), rest.skip(1))
    }
}

/// All lines of a raw value, one per line break.
pub open spec fn raw_lines(s: Seq<char>) -> Seq<Seq<char>> {
    lines_from(Seq::empty(), s)
}

/// The editor lines of a raw value: its line breaks separate lines, except
/// that a single terminator at the very end closes the last line rather than
/// opening an empty one.
pub open spec fn key_lines(s: Seq<char>) -> Seq<Seq<char>> {
    let raw = raw_lines(s);
    if raw.len() > 1 && raw.last().len() == 0 {
        raw.drop_last()
    } else {
        raw
    }
}

/// Lines joined with a single LF between each pair: the normalized form of a
/// value.
pub open spec fn join_lines(ls: Seq<Seq<char>>) -> Seq<char>
    decreases ls.len(),
{
    if ls.len() == 0 {
        Seq::empty()
    } else if ls.len() == 1 {
        ls[0]
    } else {
        ls[0] + seq!['\n'] + join_lines(ls.drop_first())
    }
}

/// However a value is cut, there is at least one line.
pub proof fn lemma_lines_from_at_least_one(cur: Seq<char>, rest: Seq<char>)
    ensures
        lines_from(cur, rest).len() >= 1,
    decreases rest.len(),
{
    if rest.len() == 0 {
    } else if rest[0] == '\n' {
    } else if rest[0] == '\r' {
    } else {
        lemma_lines_from_at_least_one(cur.push(rest[0]), rest.skip(1));
    }
}

/// Joining after appending one more line appends a break and that line.
pub proof fn lemma_join_lines_push(ls: Seq<Seq<char>>, x: Seq<char>)
    ensures
        ls.len() == 0 ==> join_lines(ls.push(x)) == x,
        ls.len() >= 1 ==> join_lines(ls.push(x)) == join_lines(ls) + seq!['\n'] + x,
    decreases ls.len(),
{
    if ls.len() == 0 {
        assert(ls.push(x)[0] == x);
    } else if ls.len() == 1 {
        assert(ls.push(x).drop_first() =~= seq![x]);
        assert(ls.push(x)[0] == ls[0]);
        assert(seq![x][0] == x);
        assert(join_lines(seq![x]) == x);
        assert(join_lines(ls) == ls[0]);
        assert(join_lines(ls.push(x)) =~= join_lines(ls) + seq!['\n'] + x);
    } else {
        lemma_join_lines_push(ls.drop_first(), x);
        assert(ls.push(x).drop_first() =~= ls.drop_first().push(x));
        assert(join_lines(ls.push(x)) =~= join_lines(ls) + seq!['\n'] + x);
    }
}

/// Relies on `str::chars` and on std's `Vec: FromIterator<char>`: collecting
/// a string's characters yields them as a vector, in order.
#[verifier::external_body]
pub fn chars_vec(s: &str) -> (r: Vec<char>)
    ensures
        r@ == s@,
{
    s.chars().collect()
}

/// Relies on std's `String: FromIterator<char>`: collecting characters
/// builds the string of exactly those characters in order.
#[verifier::external_body]
pub fn string_from_chars(v: &Vec<char>) -> (r: String)
    ensures
        r@ == v@,
{
    v.iter().collect()
}

/// Cuts a raw value into its editor lines.
pub fn split_value_lines(chars: &Vec<char>) -> (lines: Vec<Vec<char>>)
    ensures
        lines.deep_view() == key_lines(chars@),
{
    let n = chars.len();
    let mut done: Vec<Vec<char>> = Vec::new();
    let mut cur: Vec<char> = Vec::new();
    let mut i: usize = 0;
    proof {
        assert(chars@.skip(0) =~= chars@);
        assert(done.deep_view() =~= Seq::<Seq<char>>::empty());
        assert(Seq::<Seq<char>>::empty() + raw_lines(chars@) =~= raw_lines(chars@));
        assert(cur@ =~= Seq::<char>::empty());
    }
    while i < n
        invariant
            n == chars@.len(),
            0 <= i <= n,
            raw_lines(chars@) == done.deep_view() + lines_from(cur@, chars@.skip(i as int)),
        decreases n - i,
    {
        let c = chars[i];
        if c == '\n' {
            let ghost pre_dv = done.deep_view();
            proof {
                assert(chars@.skip(i as int).skip(1) =~= chars@.skip(i + 1));
            }
            done.push(cur);
            cur = Vec::new();
            proof {
                assert(done.deep_view() =~~= pre_dv.push(done@.last()@));
                assert(pre_dv + lines_from(done@.last()@, chars@.skip(i as int))
                    =~= done.deep_view() + lines_from(cur@, chars@.skip(i + 1)));
            }
            i = i + 1;
        } else if c == '\r' {
            let skip: usize = if i + 1 < n && chars[i + 1] == '\n' {
                2
            } else {
                1
            };
            let ghost pre_dv = done.deep_view();
            proof {
                assert(chars@.skip(i as int).skip(skip as int) =~= chars@.skip(i + skip));
            }
            done.push(cur);
            cur = Vec::new();
            proof {
                assert(done.deep_view() =~~= pre_dv.push(done@.last()@));
                assert(pre_dv + lines_from(done@.last()@, chars@.skip(i as int))
                    =~= done.deep_view() + lines_from(cur@, chars@.skip(i + skip)));
            }
            i = i + skip;
        } else {
            proof {
                assert(chars@.skip(i as int).skip(1) =~= chars@.skip(i + 1));
            }
            cur.push(c);
            i = i + 1;
        }
    }
    proof {
        assert(chars@.skip(i as int) =~= Seq::<char>::empty());
    }
    let ghost pre_dv = done.deep_view();
    done.push(cur);
    proof {
        assert(done.deep_view() =~~= pre_dv.push(done@.last()@));
        assert(raw_lines(chars@) =~= done.deep_view());
    }
    let raw_count = done.len();
    if raw_count > 1 && done[raw_count - 1].len() == 0 {
        let ghost full_dv = done.deep_view();
        proof {
            assert(full_dv.last() =~= Seq::<char>::empty());
        }
        let _ = done.pop();
        proof {
            assert(done.deep_view() =~~= full_dv.drop_last());
        }
    }
    done
}

/// Turns character lines into strings, keeping their contents.
pub fn lines_to_strings(lines: &Vec<Vec<char>>) -> (r: Vec<String>)
    ensures
        r.deep_view() == lines.deep_view(),
{
    let mut out: Vec<String> = Vec::new();
    let mut i: usize = 0;
    proof {
        assert(out.deep_view() =~= lines.deep_view().take(0));
    }
    while i < lines.len()
        invariant
            0 <= i <= lines@.len(),
            out.deep_view() == lines.deep_view().take(i as int),
        decreases lines@.len() - i,
    {
        let s = string_from_chars(&lines[i]);
        let ghost pre_dv = out.deep_view();
        out.push(s);
        proof {
            assert(out.deep_view() =~~= pre_dv.push(s@));
            assert(s@ == lines.deep_view()[i as int]);
            assert(lines.deep_view().take(i as int).push(lines.deep_view()[i as int]) =~= lines.deep_view().take(
                i + 1,
            ));
        }
        i = i + 1;
    }
    proof {
        assert(lines.deep_view().take(i as int) =~= lines.deep_view());
    }
    out
}

/// Joins lines with a single LF between each pair.
pub fn join_text_lines(lines: &Vec<String>) -> (r: String)
    ensures
        r@ == join_lines(lines.deep_view()),
{
    let mut out: Vec<char> = Vec::new();
    let mut i: usize = 0;
    proof {
        assert(lines.deep_view().take(0) =~= Seq::<Seq<char>>::empty());
    }
    while i < lines.len()
        invariant
            0 <= i <= lines@.len(),
            out@ == join_lines(lines.deep_view().take(i as int)),
        decreases lines@.len() - i,
    {
        let ghost pre = out@;
        if i > 0 {
            out.push('\n');
        }
        let mut cs = chars_vec(lines[i].as_str());
        proof {
            assert(cs@ == lines.deep_view()[i as int]);
        }
        out.append(&mut cs);
        proof {
            lemma_join_lines_push(lines.deep_view().take(i as int), lines.deep_view()[i as int]);
            assert(lines.deep_view().take(i as int).push(lines.deep_view()[i as int]) =~= lines.deep_view().take(
                i + 1,
            ));
            if i == 0 {
                assert(out@ =~= lines.deep_view()[0]);
            } else {
                assert(out@ =~= pre + seq!['\n'] + lines.deep_view()[i as int]);
            }
        }
        i = i + 1;
    }
    proof {
        assert(lines.deep_view().take(i as int) =~= lines.deep_view());
    }
    string_from_chars(&out)
}

} // verus!
