//! Breaking text into lines.
use vstd::prelude::*;

verus! {

/// The lines that `textwrap::wrap` breaks `text` into for a width of `width` columns.
pub uninterp spec fn wrapped_lines(text: Seq<char>, width: usize) -> Seq<Seq<char>>;

/// Relies on `textwrap::wrap(text, width)`: the lines it returns, each copied into
/// a `String`, depend on the text and the width alone.
#[verifier::external_body]
fn wrap_lines(text: &str, width: usize) -> (r: Vec<String>)
    ensures
        r@.len() == wrapped_lines(text@, width).len(),
        forall|i: int| 0 <= i < r@.len() ==> #[trigger] r@[i]@ == wrapped_lines(text@, width)[i],
{
    textwrap::wrap(text, width).iter().map(|s| s.to_string()).collect()
}

/// The lines `string` is wrapped into for a width of `max_width` columns.
pub fn break_string_into_lines(string: &str, max_width: usize) -> (r: Vec<String>)
    ensures
        r@.len() == wrapped_lines(string@, max_width).len(),
        forall|i: int|
            0 <= i < r@.len() ==> #[trigger] r@[i]@ == wrapped_lines(string@, max_width)[i],
{
    wrap_lines(string, max_width)
}

/// The characters of `s`, in order.
pub fn chars_of(s: &str) -> (r: Vec<char>)
    ensures
        r@ == s@,
{
    let mut r: Vec<char> = Vec::new();
    for c in it: s.chars()
        invariant
            it.seq() == s@,
            r@ == it.seq().take(it.index() as int),
    {
        r.push(c);
    }
    r
}

/// `s` cut at every `'\n'`, the newlines left out: one piece more than there are
/// newlines.
pub open spec fn pieces(s: Seq<char>) -> Seq<Seq<char>>
    decreases s.len(),
{
    if s.len() == 0 {
        seq![Seq::empty()]
    } else {
        let p = pieces(s.drop_last());
        if s.last() == '\n' {
            p.push(Seq::empty())
        } else {
            p.update(p.len() - 1, p.last().push(s.last()))
        }
    }
}

/// `line` without the `'\r'` it may end with.
pub open spec fn without_cr(line: Seq<char>) -> Seq<char> {
    if line.len() > 0 && line.last() == '\r' {
        line.drop_last()
    } else {
        line
    }
}

/// The lines of `s`: its pieces between newlines, a `'\r'` before a newline left
/// out, and no empty line after a final newline.
pub open spec fn text_lines(s: Seq<char>) -> Seq<Seq<char>> {
    let p = pieces(s);
    let body = p.drop_last().map_values(|line: Seq<char>| without_cr(line));
    if p.last().len() == 0 {
        body
    } else {
        body.push(p.last())
    }
}

proof fn lemma_pieces_nonempty(s: Seq<char>)
    ensures
        pieces(s).len() >= 1,
    decreases s.len(),
{
    if s.len() > 0 {
        lemma_pieces_nonempty(s.drop_last());
    }
}

/// The characters of each line of `text`.
pub fn split_lines(text: &str) -> (r: Vec<Vec<char>>)
    ensures
        r@.len() == text_lines(text@).len(),
        forall|i: int| 0 <= i < r@.len() ==> #[trigger] r@[i]@ == text_lines(text@)[i],
{
    let chars = chars_of(text);
    let mut done: Vec<Vec<char>> = Vec::new();
    let mut current: Vec<char> = Vec::new();
    for i in 0..chars.len()
        invariant
            chars@ == text@,
            pieces(chars@.take(i as int)).len() == done@.len() + 1,
            forall|k: int|
                0 <= k < done@.len() ==> #[trigger] done@[k]@ == without_cr(
                    pieces(chars@.take(i as int))[k],
                ),
            current@ == pieces(chars@.take(i as int)).last(),
    {
        let ghost prefix = chars@.take(i as int);
        proof {
            lemma_pieces_nonempty(prefix);
            assert(chars@.take(i + 1).drop_last() =~= prefix);
        }
        let c = chars[i];
        if c == '\n' {
            if current.len() > 0 && current[current.len() - 1] == '\r' {
                current.pop();
            }
            done.push(current);
            current = Vec::new();
        } else {
            current.push(c);
        }
        proof {
            let next = chars@.take(i + 1);
            assert(next.last() == c);
            assert forall|k: int| 0 <= k < done@.len() implies #[trigger] done@[k]@ == without_cr(
                pieces(next)[k],
            ) by {
                if c != '\n' {
                    assert(pieces(next)[k] == pieces(prefix)[k]);
                }
            }
        }
    }
    proof {
        assert(chars@.take(chars@.len() as int) =~= text@);
        lemma_pieces_nonempty(text@);
    }
    if current.len() > 0 {
        done.push(current);
    }
    proof {
        let p = pieces(text@);
        let body = p.drop_last().map_values(|line: Seq<char>| without_cr(line));
        assert forall|k: int| 0 <= k < done@.len() implies #[trigger] done@[k]@ == text_lines(
            text@,
        )[k] by {
            if k < body.len() {
                assert(text_lines(text@)[k] == body[k]);
            }
        }
    }
    done
}

} // verus!
