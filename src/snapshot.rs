//! Line framing of the persisted snapshot: each encoded record is one line,
//! ended by a newline byte. Reading splits the text back into its lines.

use vstd::prelude::*;

verus! {

/// The byte that ends each line.
pub const NEWLINE: u8 = 10;

/// A line holds no newline byte.
pub open spec fn is_plain_line(l: Seq<u8>) -> bool {
    forall|k: int| 0 <= k < l.len() ==> l[k] != NEWLINE
}

/// Every line of `ls` is plain.
pub open spec fn all_plain(ls: Seq<Seq<u8>>) -> bool {
    forall|i: int| 0 <= i < ls.len() ==> is_plain_line(#[trigger] ls[i])
}

/// The text that holds the lines `ls`, each followed by a newline byte.
pub open spec fn frame(ls: Seq<Seq<u8>>) -> Seq<u8>
    decreases ls.len(),
{
    if ls.len() == 0 {
        Seq::empty()
    } else {
        frame(ls.drop_last()) + ls.last() + seq![NEWLINE]
    }
}

/// `b`, with a newline byte added when its last line is not ended by one.
pub open spec fn terminated(b: Seq<u8>) -> Seq<u8> {
    if b.len() == 0 || b.last() == NEWLINE {
        b
    } else {
        b.push(NEWLINE)
    }
}

/// The contents of each buffer of `v`.
pub open spec fn contents(v: Seq<Vec<u8>>) -> Seq<Seq<u8>> {
    Seq::new(v.len(), |i: int| v[i]@)
}

proof fn lemma_frame_push(ls: Seq<Seq<u8>>, l: Seq<u8>)
    ensures
        frame(ls.push(l)) == frame(ls) + l + seq![NEWLINE],
{
    assert(ls.push(l).drop_last() =~= ls);
}

proof fn lemma_frame_ends(ls: Seq<Seq<u8>>)
    ensures
        frame(ls).len() == 0 <==> ls.len() == 0,
        ls.len() > 0 ==> frame(ls).last() == NEWLINE,
{
}

proof fn lemma_contents_push(v: Seq<Vec<u8>>, b: Vec<u8>)
    ensures
        contents(v.push(b)) == contents(v).push(b@),
{
    assert(contents(v.push(b)) =~= contents(v).push(b@));
}

/// Plain lines are told apart by their framing: two sequences of plain lines
/// with the same text are equal.
pub proof fn lemma_frame_injective(a: Seq<Seq<u8>>, b: Seq<Seq<u8>>)
    requires
        all_plain(a),
        all_plain(b),
        frame(a) == frame(b),
    ensures
        a == b,
    decreases a.len(),
{
    lemma_frame_ends(a);
    lemma_frame_ends(b);
    if a.len() == 0 || b.len() == 0 {
        assert(a =~= b);
    } else {
        let (pa, la) = (a.drop_last(), a.last());
        let (pb, lb) = (b.drop_last(), b.last());
        let x = frame(pa) + la;
        let y = frame(pb) + lb;
        assert(x =~= frame(a).drop_last());
        assert(y =~= frame(b).drop_last());
        assert(is_plain_line(la));
        assert(is_plain_line(lb));
        lemma_frame_ends(pa);
        lemma_frame_ends(pb);
        if la.len() < lb.len() {
            let k = y.len() - lb.len() + (lb.len() - la.len() - 1);
            assert(y[k] == lb[lb.len() - la.len() - 1]);
            if pa.len() == 0 {
                assert(x.len() == la.len());
            } else {
                assert(x[k] == frame(pa).last());
            }
        } else if lb.len() < la.len() {
            let k = x.len() - la.len() + (la.len() - lb.len() - 1);
            assert(x[k] == la[la.len() - lb.len() - 1]);
            if pb.len() == 0 {
                assert(y.len() == lb.len());
            } else {
                assert(y[k] == frame(pb).last());
            }
        }
        assert(la =~= x.subrange(x.len() - la.len(), x.len() as int));
        assert(lb =~= y.subrange(y.len() - lb.len(), y.len() as int));
        assert(frame(pa) =~= x.subrange(0, x.len() - la.len()));
        assert(frame(pb) =~= y.subrange(0, y.len() - lb.len()));
        assert(all_plain(pa));
        assert(all_plain(pb));
        lemma_frame_injective(pa, pb);
        assert(a =~= pa.push(la));
        assert(b =~= pb.push(lb));
    }
}

/// Reading back framed lines gives the same lines in the same order: any
/// sequence of plain lines whose framing is the read text equals the lines
/// that were framed. With no lines, the text is empty and so is what is
/// read back.
pub proof fn lemma_round_trip(lines: Seq<Seq<u8>>, read: Seq<Seq<u8>>)
    requires
        all_plain(lines),
        all_plain(read),
        frame(read) == terminated(frame(lines)),
    ensures
        read == lines,
        lines.len() == 0 ==> frame(lines).len() == 0,
{
    lemma_frame_ends(lines);
    lemma_frame_injective(read, lines);
}

/// Joins `lines` into one text, each line followed by a newline byte.
pub fn frame_lines(lines: &Vec<Vec<u8>>) -> (out: Vec<u8>)
    ensures
        out@ == frame(contents(lines@)),
{
    let mut out: Vec<u8> = Vec::new();
    let mut i: usize = 0;
    while i < lines.len()
        invariant
            i <= lines@.len(),
            out@ == frame(contents(lines@.take(i as int))),
        decreases lines@.len() - i,
    {
        let line = &lines[i];
        let ghost start = out@;
        let mut k: usize = 0;
        while k < line.len()
            invariant
                k <= line@.len(),
                out@ == start + line@.take(k as int),
            decreases line@.len() - k,
        {
            out.push(line[k]);
            proof {
                assert(line@.take(k + 1) =~= line@.take(k as int).push(line@[k as int]));
            }
            k = k + 1;
        }
        out.push(NEWLINE);
        proof {
            assert(line@.take(k as int) =~= line@);
            lemma_contents_push(lines@.take(i as int), *line);
            assert(lines@.take(i + 1) =~= lines@.take(i as int).push(*line));
            lemma_frame_push(contents(lines@.take(i as int)), line@);
        }
        i = i + 1;
    }
    proof {
        assert(lines@.take(i as int) =~= lines@);
    }
    out
}

/// Splits `text` into its lines. Each newline byte ends a line; a last line
/// without one is kept. Framing the result gives back `text`, ended by a
/// newline byte where it had none.
pub fn split_lines(text: &Vec<u8>) -> (r: Vec<Vec<u8>>)
    ensures
        all_plain(contents(r@)),
        frame(contents(r@)) == terminated(text@),
{
    let mut r: Vec<Vec<u8>> = Vec::new();
    let mut cur: Vec<u8> = Vec::new();
    let mut i: usize = 0;
    while i < text.len()
        invariant
            i <= text@.len(),
            all_plain(contents(r@)),
            is_plain_line(cur@),
            frame(contents(r@)) + cur@ == text@.take(i as int),
        decreases text@.len() - i,
    {
        let c = text[i];
        proof {
            assert(text@.take(i + 1) =~= text@.take(i as int).push(c));
        }
        if c == NEWLINE {
            proof {
                lemma_contents_push(r@, cur);
                lemma_frame_push(contents(r@), cur@);
            }
            r.push(cur);
            cur = Vec::new();
            proof {
                assert(frame(contents(r@)) + cur@ =~= text@.take(i + 1));
            }
        } else {
            cur.push(c);
            proof {
                assert(frame(contents(r@)) + cur@ =~= text@.take(i + 1));
            }
        }
        i = i + 1;
    }
    proof {
        assert(text@.take(i as int) =~= text@);
        lemma_frame_ends(contents(r@));
    }
    if cur.len() > 0 {
        proof {
            lemma_contents_push(r@, cur);
            lemma_frame_push(contents(r@), cur@);
            assert(text@.last() == cur@.last());
        }
        r.push(cur);
    } else {
        proof {
            assert(frame(contents(r@)) =~= text@);
        }
    }
    r
}

} // verus!
