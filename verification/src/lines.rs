//! Output of a run, cut into lines and wrapped for display.
//!
//! A chunk of output is a sequence of bytes. A line ends at a line feed; a
//! carriage return just before that line feed belongs to the line ending.
//! What follows the last line feed is a line too, unless it is empty.

use vstd::prelude::*;
use vstd::string::StringSliceAdditionalSpecFns;

verus! {

/// `line` without the carriage return at its end, if it has one.
pub open spec fn without_cr(line: Seq<u8>) -> Seq<u8> {
    if line.len() > 0 && line.last() == 13 {
        line.drop_last()
    } else {
        line
    }
}

/// The lines of `bytes` from `from` on, where the line that `from` lies in
/// began at `start`.
pub open spec fn lines_from(bytes: Seq<u8>, from: int, start: int) -> Seq<Seq<u8>>
    decreases bytes.len() - from,
{
    if from < 0 || from >= bytes.len() {
        if 0 <= start < bytes.len() {
            seq![bytes.subrange(start, bytes.len() as int)]
        } else {
            Seq::empty()
        }
    } else if bytes[from] == 10 {
        seq![without_cr(bytes.subrange(start, from))] + lines_from(bytes, from + 1, from + 1)
    } else {
        lines_from(bytes, from + 1, start)
    }
}

/// The lines of `bytes`, without their line endings.
pub open spec fn lines_of(bytes: Seq<u8>) -> Seq<Seq<u8>> {
    lines_from(bytes, 0, 0)
}

/// One line, wrapped as a preformatted element of the given class and
/// followed by a line feed.
pub open spec fn fragment(class: Seq<u8>, line: Seq<u8>) -> Seq<u8> {
    "<pre class=\"".spec_bytes() + class + "\">".spec_bytes() + line + "</pre>\n".spec_bytes()
}

/// The fragments of `lines`, one after the other.
pub open spec fn fragments(class: Seq<u8>, lines: Seq<Seq<u8>>) -> Seq<u8>
    decreases lines.len(),
{
    if lines.len() == 0 {
        Seq::empty()
    } else {
        fragment(class, lines[0]) + fragments(class, lines.drop_first())
    }
}

/// What `transform_bytes` makes of a chunk.
pub open spec fn wrapped(bytes: Seq<u8>, class: Seq<u8>) -> Seq<u8> {
    fragments(class, lines_of(bytes))
}

fn append_range(out: &mut Vec<u8>, bytes: &[u8], from: usize, to: usize)
    requires
        from <= to <= bytes@.len(),
    ensures
        final(out)@ == old(out)@ + bytes@.subrange(from as int, to as int),
{
    let mut i: usize = from;
    while i < to
        invariant
            from <= i <= to <= bytes@.len(),
            out@ == old(out)@ + bytes@.subrange(from as int, i as int),
        decreases to - i,
    {
        out.push(bytes[i]);
        i += 1;
        assert(out@ =~= old(out)@ + bytes@.subrange(from as int, i as int));
    }
    assert(out@ =~= old(out)@ + bytes@.subrange(from as int, to as int));
}

fn append_fragment(out: &mut Vec<u8>, class: &str, bytes: &[u8], from: usize, to: usize)
    requires
        from <= to <= bytes@.len(),
    ensures
        final(out)@ == old(out)@ + fragment(
            class.spec_bytes(),
            bytes@.subrange(from as int, to as int),
        ),
{
    let open = "<pre class=\"".as_bytes();
    let close = "\">".as_bytes();
    let end = "</pre>\n".as_bytes();
    let name = class.as_bytes();
    append_range(out, open, 0, open.len());
    append_range(out, name, 0, name.len());
    append_range(out, close, 0, close.len());
    append_range(out, bytes, from, to);
    append_range(out, end, 0, end.len());
    proof {
        assert(open@.subrange(0, open@.len() as int) =~= open@);
        assert(name@.subrange(0, name@.len() as int) =~= name@);
        assert(close@.subrange(0, close@.len() as int) =~= close@);
        assert(end@.subrange(0, end@.len() as int) =~= end@);
        assert(out@ =~= old(out)@ + fragment(
            class.spec_bytes(),
            bytes@.subrange(from as int, to as int),
        ));
    }
}

proof fn fragments_of_first(class: Seq<u8>, line: Seq<u8>, rest: Seq<Seq<u8>>)
    ensures
        fragments(class, seq![line] + rest) == fragment(class, line) + fragments(class, rest),
{
    let all = seq![line] + rest;
    assert(all[0] == line);
    assert(all.drop_first() =~= rest);
}

/// Wraps every line of a chunk of output for display: each line becomes one
/// preformatted element of class `class`.
pub fn transform_bytes(bytes: &[u8], class: &str) -> (out: Vec<u8>)
    ensures
        out@ == wrapped(bytes@, class.spec_bytes()),
{
    let n: usize = bytes.len();
    let mut out: Vec<u8> = Vec::new();
    let mut start: usize = 0;
    let mut i: usize = 0;
    while i < n
        invariant
            n == bytes@.len(),
            start <= i <= n,
            wrapped(bytes@, class.spec_bytes()) == out@ + fragments(
                class.spec_bytes(),
                lines_from(bytes@, i as int, start as int),
            ),
        decreases n - i,
    {
        if bytes[i] == 10 {
            let end: usize = if start < i && bytes[i - 1] == 13 {
                i - 1
            } else {
                i
            };
            let ghost before = out@;
            let ghost line = bytes@.subrange(start as int, end as int);
            let ghost rest = lines_from(bytes@, i + 1, i + 1);
            append_fragment(&mut out, class, bytes, start, end);
            proof {
                assert(line =~= without_cr(bytes@.subrange(start as int, i as int)));
                fragments_of_first(class.spec_bytes(), line, rest);
                assert(before + (fragment(class.spec_bytes(), line) + fragments(
                    class.spec_bytes(),
                    rest,
                )) =~= out@ + fragments(class.spec_bytes(), rest));
            }
            start = i + 1;
        }
        i += 1;
    }
    if start < n {
        let ghost before = out@;
        let ghost line = bytes@.subrange(start as int, n as int);
        append_fragment(&mut out, class, bytes, start, n);
        proof {
            fragments_of_first(class.spec_bytes(), line, Seq::empty());
            assert(seq![line] + Seq::<Seq<u8>>::empty() =~= seq![line]);
            assert(fragments(class.spec_bytes(), Seq::<Seq<u8>>::empty()) =~= Seq::<u8>::empty());
            assert(before + fragments(class.spec_bytes(), seq![line]) =~= out@);
        }
    } else {
        assert(out@ + Seq::<u8>::empty() =~= out@);
    }
    out
}

} // verus!
