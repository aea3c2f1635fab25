//! Lines of text: how the engine's diagnostics are kept and joined.

use vstd::prelude::*;
use vstd::string::StringExecFns;

verus! {

/// The lines of a vector, each by its characters.
pub open spec fn lines_of(lines: Seq<String>) -> Seq<Seq<char>> {
    Seq::new(lines.len(), |i: int| lines[i]@)
}

/// A text that may be missing, by its characters.
pub open spec fn text_option(text: Option<String>) -> Option<Seq<char>> {
    match text {
        Some(text) => Some(text@),
        None => None,
    }
}

/// The lines joined, with a line feed between each two.
pub open spec fn join_lines(lines: Seq<Seq<char>>) -> Seq<char>
    decreases lines.len(),
{
    if lines.len() == 0 {
        Seq::empty()
    } else if lines.len() == 1 {
        lines[0]
    } else {
        join_lines(lines.drop_last()) + seq!['\n'] + lines.last()
    }
}

/// The last `limit` items of a sequence, or all of it where it has no more.
pub open spec fn last_of<T>(items: Seq<T>, limit: nat) -> Seq<T> {
    if items.len() <= limit {
        items
    } else {
        items.subrange(items.len() - limit, items.len() as int)
    }
}

/// A headline followed, on a new line, by the joined lines.
pub open spec fn headed(headline: Seq<char>, lines: Seq<Seq<char>>) -> Seq<char> {
    headline + seq!['\n'] + join_lines(lines)
}

/// Keeping the last `limit` items while appending one by one is the same as
/// keeping the last `limit` of the whole.
pub proof fn lemma_last_of_push<T>(items: Seq<T>, item: T, limit: nat)
    ensures
        last_of(last_of(items, limit).push(item), limit) == last_of(items.push(item), limit),
{
    let kept = last_of(items, limit);
    let lhs = last_of(kept.push(item), limit);
    let rhs = last_of(items.push(item), limit);
    assert(lhs.len() == rhs.len());
    assert(lhs =~= rhs);
}

/// Joins the lines with a line feed between each two.
pub fn join(lines: &Vec<String>) -> (text: String)
    ensures
        text@ == join_lines(lines_of(lines@)),
{
    let mut text = String::new();
    let mut i: usize = 0;
    proof {
        reveal_strlit("\n");
        assert(lines_of(lines@).take(0) =~= Seq::<Seq<char>>::empty());
    }
    while i < lines.len()
        invariant
            i <= lines.len(),
            "\n"@ == seq!['\n'],
            text@ == join_lines(lines_of(lines@).take(i as int)),
        decreases lines.len() - i,
    {
        let ghost before = text@;
        if i > 0 {
            text.append("\n");
        }
        text.append(lines[i].as_str());
        proof {
            let all = lines_of(lines@);
            let next = all.take(i + 1);
            assert(next.drop_last() =~= all.take(i as int));
            assert(next.last() == lines@[i as int]@);
            if i == 0 {
                assert(before =~= Seq::<char>::empty());
                assert(text@ =~= next[0]);
            }
        }
        i += 1;
    }
    proof {
        assert(lines_of(lines@).take(lines.len() as int) =~= lines_of(lines@));
    }
    text
}

/// Appends a line to a buffer that keeps the last `limit` lines only.
pub fn push_bounded(buffer: &mut Vec<String>, line: String, limit: usize)
    ensures
        final(buffer)@ == last_of(old(buffer)@.push(line), limit as nat),
        final(buffer).len() <= limit,
{
    buffer.push(line);
    let ghost all = buffer@;
    let ghost mut dropped: int = 0;
    while buffer.len() > limit
        invariant
            0 <= dropped <= all.len(),
            buffer@ == all.subrange(dropped, all.len() as int),
            dropped > 0 ==> buffer.len() >= limit,
        decreases buffer.len(),
    {
        let _ = buffer.remove(0);
        proof {
            dropped = dropped + 1;
            assert(buffer@ =~= all.subrange(dropped, all.len() as int));
        }
    }
    assert(buffer@ =~= last_of(all, limit as nat));
}

/// The lines of a buffer after an append are those before it and the new one.
pub proof fn lemma_lines_of_bounded(lines: Seq<String>, line: String, limit: nat)
    ensures
        lines_of(last_of(lines.push(line), limit)) == last_of(lines_of(lines).push(line@), limit),
{
    assert(lines_of(lines.push(line)) =~= lines_of(lines).push(line@));
    assert(lines_of(last_of(lines.push(line), limit)) =~= last_of(
        lines_of(lines.push(line)),
        limit,
    ));
}

/// A headline followed, on a new line, by the joined lines.
pub fn with_lines(headline: &str, lines: &Vec<String>) -> (text: String)
    ensures
        text@ == headed(headline@, lines_of(lines@)),
{
    let mut text = String::from_str(headline);
    proof {
        reveal_strlit("\n");
    }
    text.append("\n");
    let joined = join(lines);
    text.append(joined.as_str());
    text
}

} // verus!
