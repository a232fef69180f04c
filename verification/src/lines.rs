//! Source-position arithmetic: converting byte offsets into the markdown
//! source to 1-based line numbers, used for `data-source-line` annotations.

use vstd::prelude::*;
use vstd::string::StringSliceAdditionalSpecFns;

verus! {

/// The 1-based line number that a byte offset into `bytes` falls on:
/// one more than the number of newline bytes strictly before the offset,
/// with the offset clamped to the length of the text.
pub open spec fn line_of(bytes: Seq<u8>, offset: int) -> int
    decreases offset,
{
    if offset <= 0 {
        1
    } else if offset > bytes.len() {
        line_of(bytes, bytes.len() as int)
    } else {
        line_of(bytes, offset - 1) + if bytes[offset - 1] == 10u8 {
            1int
        } else {
            0int
        }
    }
}

/// Line numbers are 1-based: every offset maps to a line of at least 1.
pub proof fn lemma_line_of_one_based(bytes: Seq<u8>, offset: int)
    ensures
        line_of(bytes, offset) >= 1,
    decreases offset,
{
    if offset <= 0 {
    } else if offset > bytes.len() {
        lemma_line_of_one_based(bytes, bytes.len() as int);
    } else {
        lemma_line_of_one_based(bytes, offset - 1);
    }
}

/// Byte-offset-to-line conversion is monotonic: a later offset never maps
/// to an earlier line.
pub proof fn lemma_line_of_monotonic(bytes: Seq<u8>, o1: int, o2: int)
    requires
        o1 <= o2,
    ensures
        line_of(bytes, o1) <= line_of(bytes, o2),
    decreases o2,
{
    if o2 <= 0 {
    } else if o2 > bytes.len() {
        if bytes.len() < o1 {
        } else {
            lemma_line_of_monotonic(bytes, o1, bytes.len() as int);
        }
    } else if o1 == o2 {
    } else {
        lemma_line_of_monotonic(bytes, o1, o2 - 1);
    }
}

/// Converts a byte offset into `content` to a 1-based line number, counting
/// the newline bytes strictly before the offset; an offset beyond the end of
/// the text is treated as the end of the text. The precondition asks only
/// that the resulting line number is representable, which holds of every
/// text a Rust string can hold.
pub fn byte_offset_to_line(content: &str, offset: usize) -> (line: usize)
    requires
        line_of(content.spec_bytes(), offset as int) <= usize::MAX,
    ensures
        line == line_of(content.spec_bytes(), offset as int),
        line >= 1,
{
    let bytes = content.as_bytes();
    let n = bytes.len();
    let end = if offset < n {
        offset
    } else {
        n
    };
    proof {
        if offset > n {
            assert(line_of(bytes@, offset as int) == line_of(bytes@, end as int));
        }
    }
    let mut count: usize = 0;
    let mut i: usize = 0;
    while i < end
        invariant
            i <= end,
            end <= n,
            end <= offset,
            count <= i,
            n == bytes@.len(),
            line_of(bytes@, i as int) == count + 1,
            line_of(bytes@, end as int) <= usize::MAX,
        decreases end - i,
    {
        if bytes[i] == 10 {
            proof {
                lemma_line_of_monotonic(bytes@, i + 1, end as int);
            }
            count = count + 1;
        }
        i = i + 1;
    }
    count + 1
}

} // verus!
