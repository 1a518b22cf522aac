//! Column layout of a spilled buffer: cumulative end offsets, one per column.
use vstd::prelude::*;

verus! {

/// Start offset of column `i`: the end of the column before it, or zero.
pub open spec fn seg_start(layout: Seq<usize>, i: int) -> int {
    if i <= 0 {
        0
    } else {
        layout[i - 1] as int
    }
}

/// The final cumulative offset, which is the total byte length the layout describes.
pub open spec fn layout_end(layout: Seq<usize>) -> int {
    if layout.len() == 0 {
        0
    } else {
        layout.last() as int
    }
}

/// A layout fits a buffer of `len` bytes when every column is non-empty
/// (offsets strictly increasing from zero) and the final offset is `len`.
pub open spec fn layout_fits(layout: Seq<usize>, len: int) -> bool {
    &&& forall|i: int| 0 <= i < layout.len() ==> seg_start(layout, i) < layout[i]
    &&& layout_end(layout) == len
}

/// The column segments that `layout` cuts out of `buf`, in column order.
pub open spec fn split_spec(buf: Seq<u8>, layout: Seq<usize>) -> Seq<Seq<u8>> {
    Seq::new(layout.len(), |i: int| buf.subrange(seg_start(layout, i), layout[i] as int))
}

/// In a fitting layout the offsets never decrease, so none passes the end.
proof fn lemma_offset_within_end(layout: Seq<usize>, len: int, j: int)
    requires
        layout_fits(layout, len),
        0 <= j < layout.len(),
    ensures
        layout[j] <= len,
    decreases layout.len() - j,
{
    if j + 1 < layout.len() {
        assert(seg_start(layout, j + 1) < layout[j + 1]);
        lemma_offset_within_end(layout, len, j + 1);
    }
}

/// Copies `data[start..end]` into a fresh vector.
fn copy_range(data: &Vec<u8>, start: usize, end: usize) -> (r: Vec<u8>)
    requires
        start <= end <= data.len(),
    ensures
        r@ == data@.subrange(start as int, end as int),
{
    let mut r: Vec<u8> = Vec::with_capacity(end - start);
    let mut k: usize = start;
    while k < end
        invariant
            start <= k <= end <= data.len(),
            r@ == data@.subrange(start as int, k as int),
        decreases end - k,
    {
        r.push(data[k]);
        k = k + 1;
        assert(r@ =~= data@.subrange(start as int, k as int));
    }
    r
}

/// Slices `data` into one segment per column of `layout`. Fails with `None`
/// exactly when the layout does not fit the buffer.
pub fn split_columns(data: &Vec<u8>, layout: &Vec<usize>) -> (r: Option<Vec<Vec<u8>>>)
    ensures
        r is Some <==> layout_fits(layout@, data@.len() as int),
        r is Some ==> columns_view(r->Some_0@) == split_spec(data@, layout@),
{
    let mut columns: Vec<Vec<u8>> = Vec::with_capacity(layout.len());
    let mut begin: usize = 0;
    let mut i: usize = 0;
    while i < layout.len()
        invariant
            0 <= i <= layout.len(),
            begin as int == seg_start(layout@, i as int),
            begin <= data.len(),
            forall|j: int| 0 <= j < i ==> seg_start(layout@, j) < #[trigger] layout@[j],
            columns@.len() == i,
            forall|j: int|
                0 <= j < i ==> (#[trigger] columns@[j])@ == data@.subrange(
                    seg_start(layout@, j),
                    layout@[j] as int,
                ),
        decreases layout.len() - i,
    {
        let end = layout[i];
        if end <= begin {
            assert(!(seg_start(layout@, i as int) < layout@[i as int]));
            return None;
        }
        if end > data.len() {
            proof {
                if layout_fits(layout@, data@.len() as int) {
                    lemma_offset_within_end(layout@, data@.len() as int, i as int);
                }
            }
            return None;
        }
        let segment = copy_range(data, begin, end);
        columns.push(segment);
        begin = end;
        i = i + 1;
    }
    if begin != data.len() {
        assert(layout_end(layout@) == begin);
        return None;
    }
    assert(columns_view(columns@) =~= split_spec(data@, layout@));
    Some(columns)
}

/// The byte contents of each column.
pub open spec fn columns_view(columns: Seq<Vec<u8>>) -> Seq<Seq<u8>> {
    columns.map_values(|c: Vec<u8>| c@)
}

/// The buffer that column segments are written to: their concatenation.
pub open spec fn concat(cols: Seq<Seq<u8>>) -> Seq<u8>
    decreases cols.len(),
{
    if cols.len() == 0 {
        Seq::empty()
    } else {
        concat(cols.drop_last()) + cols.last()
    }
}

/// The layout that column segments are written with: the cumulative end of
/// each, that is the length of the concatenation up to and including it.
pub open spec fn layout_of(cols: Seq<Seq<u8>>) -> Seq<int> {
    Seq::new(cols.len(), |i: int| concat(cols.take(i + 1)).len() as int)
}

/// Concatenating the segments that a fitting layout cuts out of a buffer
/// gives back the buffer.
pub proof fn lemma_concat_split(buf: Seq<u8>, layout: Seq<usize>)
    requires
        layout_fits(layout, buf.len() as int),
    ensures
        concat(split_spec(buf, layout)) == buf,
    decreases layout.len(),
{
    let n = layout.len() as int;
    if n == 0 {
        assert(concat(split_spec(buf, layout)) =~= buf);
    } else {
        let m = seg_start(layout, n - 1);
        let head = buf.subrange(0, m);
        let init = layout.drop_last();
        assert(layout_fits(init, m)) by {
            assert forall|i: int| 0 <= i < init.len() implies seg_start(init, i) < init[i] by {
                assert(seg_start(layout, i) < layout[i]);
            }
        }
        assert forall|i: int| 0 <= i < init.len() implies init[i] <= m by {
            lemma_offset_within_end(init, m, i);
        }
        assert forall|i: int| 0 <= i < init.len() implies split_spec(buf, layout)[i] =~= split_spec(
            head,
            init,
        )[i] by {
            assert(seg_start(init, i) == seg_start(layout, i));
            assert(seg_start(layout, i) < layout[i]);
        }
        assert(split_spec(buf, layout).drop_last() =~= split_spec(head, init));
        lemma_concat_split(head, init);
        assert(concat(split_spec(buf, layout)) =~= buf);
    }
}

/// The first `i + 1` segments concatenate to the buffer up to the end of column `i`.
proof fn lemma_concat_prefix(buf: Seq<u8>, layout: Seq<usize>, i: int)
    requires
        layout_fits(layout, buf.len() as int),
        0 <= i < layout.len(),
    ensures
        concat(split_spec(buf, layout).take(i + 1)) == buf.subrange(0, layout[i] as int),
{
    let prefix = layout.take(i + 1);
    assert(layout_fits(prefix, layout[i] as int)) by {
        assert forall|k: int| 0 <= k < prefix.len() implies seg_start(prefix, k) < prefix[k] by {
            assert(seg_start(layout, k) < layout[k]);
        }
    }
    lemma_offset_within_end(layout, buf.len() as int, i);
    let head = buf.subrange(0, layout[i] as int);
    lemma_concat_split(head, prefix);
    assert forall|k: int| 0 <= k <= i implies split_spec(head, prefix)[k] =~= split_spec(
        buf,
        layout,
    )[k] by {
        assert(seg_start(prefix, k) == seg_start(layout, k));
        assert(seg_start(layout, k) < layout[k]);
        lemma_offset_within_end(prefix, layout[i] as int, k);
    }
    assert(split_spec(head, prefix) =~= split_spec(buf, layout).take(i + 1));
}

/// Decoding and then writing back is the identity on a spilled buffer: the
/// decoded segments, concatenated at their cumulative ends, reproduce both
/// the buffer and its column layout byte for byte.
pub proof fn lemma_split_round_trip(buf: Seq<u8>, layout: Seq<usize>)
    requires
        layout_fits(layout, buf.len() as int),
    ensures
        concat(split_spec(buf, layout)) == buf,
        layout_of(split_spec(buf, layout)) == layout.map_values(|o: usize| o as int),
{
    lemma_concat_split(buf, layout);
    let cols = split_spec(buf, layout);
    assert forall|i: int| 0 <= i < layout.len() implies #[trigger] layout_of(cols)[i] == layout[i] as int by {
        lemma_concat_prefix(buf, layout, i);
        lemma_offset_within_end(layout, buf.len() as int, i);
    }
    assert(layout_of(cols) =~= layout.map_values(|o: usize| o as int));
}

} // verus!
