use vstd::prelude::*;

verus! {

/// `String::push`: appends one character.
#[verifier::external_body]
pub(crate) fn string_push(s: &mut String, c: char)
    ensures
        final(s)@ == old(s)@.push(c),
{
    s.push(c);
}

/// `String::pop`: removes the last character and returns it, or returns
/// `None` and leaves the string as it is when it is empty.
#[verifier::external_body]
pub(crate) fn string_pop(s: &mut String) -> (r: Option<char>)
    ensures
        old(s)@.len() == 0 ==> r is None && final(s)@ == old(s)@,
        old(s)@.len() > 0 ==> r == Some(old(s)@.last()) && final(s)@ == old(s)@.drop_last(),
{
    s.pop()
}

/// `String::clear`: removes every character.
#[verifier::external_body]
pub(crate) fn string_clear(s: &mut String)
    ensures
        final(s)@ == Seq::<char>::empty(),
{
    s.clear();
}

/// A line with one carriage return removed from its end, if it has one.
pub open spec fn strip_cr(line: Seq<char>) -> Seq<char> {
    if line.len() > 0 && line.last() == '\r' {
        line.drop_last()
    } else {
        line
    }
}

/// Scanning `s` from the left: the lines already ended by a `'\n'` (each
/// without its terminator) and the characters read since the last `'\n'`.
pub open spec fn line_scan(s: Seq<char>) -> (Seq<Seq<char>>, Seq<char>)
    decreases s.len(),
{
    if s.len() == 0 {
        (Seq::empty(), Seq::empty())
    } else {
        let (done, cur) = line_scan(s.drop_last());
        if s.last() == '\n' {
            (done.push(strip_cr(cur)), Seq::empty())
        } else {
            (done, cur.push(s.last()))
        }
    }
}

/// The lines of `s` as `str::lines` yields them: split at `"\n"` or
/// `"\r\n"`, terminators dropped, the final terminator optional and no
/// empty line after it.
pub open spec fn spec_lines(s: Seq<char>) -> Seq<Seq<char>> {
    let (done, cur) = line_scan(s);
    if cur.len() == 0 {
        done
    } else {
        done.push(cur)
    }
}

pub open spec fn strings_view(v: Seq<String>) -> Seq<Seq<char>> {
    v.map_values(|l: String| l@)
}

/// The lines of `s`, split as `str::lines` splits them.
pub fn lines(s: &str) -> (r: Vec<String>)
    ensures
        strings_view(r@) == spec_lines(s@),
{
    let mut done: Vec<String> = Vec::new();
    let mut cur = String::new();
    let mut cur_ends_cr = false;
    let ghost text = s@;
    for c in it: s.chars()
        invariant
            text == s@,
            it.seq() == text,
            0 <= it.index() <= text.len(),
            strings_view(done@) == line_scan(text.take(it.index())).0,
            cur@ == line_scan(text.take(it.index())).1,
            cur_ends_cr == (cur@.len() > 0 && cur@.last() == '\r'),
    {
        let ghost i = it.index();
        assert(text.take(i + 1).drop_last() == text.take(i));
        assert(text.take(i + 1).last() == c);
        if c == '\n' {
            if cur_ends_cr {
                string_pop(&mut cur);
            }
            let line = cur;
            done.push(line);
            cur = String::new();
            cur_ends_cr = false;
            assert(strings_view(done@) == line_scan(text.take(i)).0.push(strip_cr(line_scan(text.take(i)).1)));
        } else {
            string_push(&mut cur, c);
            cur_ends_cr = c == '\r';
        }
    }
    assert(text.take(text.len() as int) == text);
    if !cur.as_str().is_empty() {
        done.push(cur);
    }
    done
}

} // verus!
