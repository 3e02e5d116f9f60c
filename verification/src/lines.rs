//! Splitting text into lines.
//!
//! Two collaborators read files line by line: the logger hands back the
//! lines of its current log file, and the tail utility appends the lines
//! found past its last read position. Both work over raw bytes; the newline
//! and carriage-return bytes are plain ASCII, so splitting on bytes agrees
//! with splitting the decoded text.
//!
//! Two flavours are offered. [`split_lines`] behaves as a document read: it
//! keeps interior empty lines, strips one carriage return before each line
//! feed, and produces no line for a final trailing line feed.
//! [`split_tail_lines`] behaves as an append read: it takes each segment up
//! to a line feed as it stands — carriage returns kept — and skips segments
//! that are empty.

use vstd::prelude::*;

verus! {

/// The line-feed byte that ends a line.
pub const LINE_FEED: u8 = 10;

/// The carriage-return byte that may precede a line feed.
pub const CARRIAGE_RETURN: u8 = 13;

/// The byte sequences of a vector of byte lines.
pub open spec fn byte_lines(v: Seq<Vec<u8>>) -> Seq<Seq<u8>> {
    v.map_values(|l: Vec<u8>| l@)
}

/// The segments of `s` between line feeds, in order, the line feeds
/// themselves dropped. There is always at least one segment; a trailing
/// line feed leaves an empty final segment.
pub open spec fn segments_of(s: Seq<u8>) -> Seq<Seq<u8>>
    decreases s.len(),
{
    if s.len() == 0 {
        seq![Seq::<u8>::empty()]
    } else if s.last() == LINE_FEED {
        segments_of(s.drop_last()).push(Seq::<u8>::empty())
    } else {
        let p = segments_of(s.drop_last());
        p.update(p.len() - 1, p.last().push(s.last()))
    }
}

/// `l` with one trailing carriage return removed, if it ends in one.
pub open spec fn carriage_stripped(l: Seq<u8>) -> Seq<u8> {
    if l.len() > 0 && l.last() == CARRIAGE_RETURN {
        l.drop_last()
    } else {
        l
    }
}

/// The lines of the document `s`: every segment, a carriage return stripped
/// before each line feed; a final trailing line feed yields no line, and a
/// final segment without one is kept as it stands.
pub open spec fn lines_of(s: Seq<u8>) -> Seq<Seq<u8>> {
    let segs = segments_of(s);
    if segs.last().len() == 0 {
        segs.drop_last().map_values(|l: Seq<u8>| carriage_stripped(l))
    } else {
        segs.drop_last().map_values(|l: Seq<u8>| carriage_stripped(l)).push(segs.last())
    }
}

/// The appended lines of `s`: every non-empty segment, as it stands.
pub open spec fn tail_lines_of(s: Seq<u8>) -> Seq<Seq<u8>> {
    segments_of(s).filter(|l: Seq<u8>| l.len() > 0)
}

/// There is always at least one segment.
pub proof fn lemma_segments_nonempty(s: Seq<u8>)
    ensures
        segments_of(s).len() > 0,
    decreases s.len(),
{
    if s.len() > 0 {
        lemma_segments_nonempty(s.drop_last());
    }
}

/// `line` with one trailing carriage return removed, if it ends in one.
fn strip_carriage(line: Vec<u8>) -> (r: Vec<u8>)
    ensures
        r@ == carriage_stripped(line@),
{
    let mut line = line;
    if line.len() > 0 && line[line.len() - 1] == CARRIAGE_RETURN {
        line.pop();
    }
    line
}

/// Splits a document into its lines, as a line-by-line read of the whole
/// file returns them.
pub fn split_lines(data: &Vec<u8>) -> (r: Vec<Vec<u8>>)
    ensures
        byte_lines(r@) == lines_of(data@),
{
    let mut done: Vec<Vec<u8>> = Vec::new();
    let mut cur: Vec<u8> = Vec::new();
    let mut i: usize = 0;
    while i < data.len()
        invariant
            i <= data.len(),
            byte_lines(done@) == segments_of(data@.take(i as int)).drop_last()
                .map_values(|l: Seq<u8>| carriage_stripped(l)),
            cur@ == segments_of(data@.take(i as int)).last(),
        decreases data.len() - i,
    {
        let ghost t = data@.take(i as int);
        let ghost t2 = data@.take(i as int + 1);
        proof {
            lemma_segments_nonempty(t);
            assert(t2.drop_last() =~= t);
            assert(t2.last() == data@[i as int]);
        }
        let b = data[i];
        if b == LINE_FEED {
            let finished = strip_carriage(cur);
            cur = Vec::new();
            done.push(finished);
            proof {
                let p = segments_of(t);
                assert(segments_of(t2) =~= p.push(Seq::<u8>::empty()));
                assert(segments_of(t2).drop_last() =~= p);
                assert(p.drop_last().map_values(|l: Seq<u8>| carriage_stripped(l)).push(
                    carriage_stripped(p.last())) =~= p.map_values(
                    |l: Seq<u8>| carriage_stripped(l)));
                assert(byte_lines(done@) =~= p.drop_last().map_values(
                    |l: Seq<u8>| carriage_stripped(l)).push(carriage_stripped(p.last())));
            }
        } else {
            cur.push(b);
            proof {
                let p = segments_of(t);
                assert(segments_of(t2) =~= p.update(p.len() - 1, p.last().push(data@[i as int])));
                assert(segments_of(t2).drop_last() =~= p.drop_last());
                assert(segments_of(t2).drop_last().map_values(|l: Seq<u8>| carriage_stripped(l))
                    == p.drop_last().map_values(|l: Seq<u8>| carriage_stripped(l)));
            }
        }
        i = i + 1;
    }
    proof {
        assert(data@.take(data@.len() as int) =~= data@);
        lemma_segments_nonempty(data@);
    }
    if cur.len() == 0 {
        proof {
            assert(byte_lines(done@) =~= lines_of(data@));
        }
        done
    } else {
        done.push(cur);
        proof {
            assert(byte_lines(done@) =~= lines_of(data@));
        }
        done
    }
}

/// Splits freshly appended text into its lines, as an append read returns
/// them: each segment as it stands, empty segments skipped.
pub fn split_tail_lines(data: &Vec<u8>) -> (r: Vec<Vec<u8>>)
    ensures
        byte_lines(r@) == tail_lines_of(data@),
{
    let mut done: Vec<Vec<u8>> = Vec::new();
    let mut cur: Vec<u8> = Vec::new();
    let mut i: usize = 0;
    while i < data.len()
        invariant
            i <= data.len(),
            byte_lines(done@) == segments_of(data@.take(i as int)).drop_last()
                .filter(|l: Seq<u8>| l.len() > 0),
            cur@ == segments_of(data@.take(i as int)).last(),
        decreases data.len() - i,
    {
        let ghost t = data@.take(i as int);
        let ghost t2 = data@.take(i as int + 1);
        proof {
            reveal(Seq::<_>::filter);
            lemma_segments_nonempty(t);
            assert(t2.drop_last() =~= t);
            assert(t2.last() == data@[i as int]);
        }
        let b = data[i];
        if b == LINE_FEED {
            if cur.len() > 0 {
                done.push(cur);
                cur = Vec::new();
            } else {
                cur = Vec::new();
            }
            proof {
                reveal(Seq::<_>::filter);
                let p = segments_of(t);
                assert(segments_of(t2) =~= p.push(Seq::<u8>::empty()));
                assert(segments_of(t2).drop_last() =~= p);
                assert(p =~= p.drop_last().push(p.last()));
                assert(p.filter(|l: Seq<u8>| l.len() > 0) == if p.last().len() > 0 {
                    p.drop_last().filter(|l: Seq<u8>| l.len() > 0).push(p.last())
                } else {
                    p.drop_last().filter(|l: Seq<u8>| l.len() > 0)
                });
                assert(byte_lines(done@) =~= segments_of(t2).drop_last().filter(
                    |l: Seq<u8>| l.len() > 0));
            }
        } else {
            cur.push(b);
            proof {
                let p = segments_of(t);
                assert(segments_of(t2) =~= p.update(p.len() - 1, p.last().push(data@[i as int])));
                assert(segments_of(t2).drop_last() =~= p.drop_last());
                assert(byte_lines(done@) =~= segments_of(t2).drop_last().filter(
                    |l: Seq<u8>| l.len() > 0));
            }
        }
        i = i + 1;
    }
    proof {
        reveal(Seq::<_>::filter);
        assert(data@.take(data@.len() as int) =~= data@);
        lemma_segments_nonempty(data@);
        let segs = segments_of(data@);
        assert(segs =~= segs.drop_last().push(segs.last()));
        assert(segs.filter(|l: Seq<u8>| l.len() > 0) == if segs.last().len() > 0 {
            segs.drop_last().filter(|l: Seq<u8>| l.len() > 0).push(segs.last())
        } else {
            segs.drop_last().filter(|l: Seq<u8>| l.len() > 0)
        });
    }
    if cur.len() == 0 {
        proof {
            assert(byte_lines(done@) =~= tail_lines_of(data@));
        }
        done
    } else {
        done.push(cur);
        proof {
            assert(byte_lines(done@) =~= tail_lines_of(data@));
        }
        done
    }
}

} // verus!
