//! Raster frames and their deltas.

use vstd::prelude::*;
use vstd::arithmetic::div_mod::lemma_fundamental_div_mod_converse;

verus! {

/// A rectangle that a delta changed.
#[derive(Debug, Clone, Copy, PartialEq, Eq, Structural)]
pub struct RasterDamageRect {
    pub x: u32,
    pub y: u32,
    pub width: u32,
    pub height: u32,
}

/// One change of a delta frame.
pub enum RasterDeltaOperation {
    /// Put new pixels into a rectangle.
    Overwrite { x: u32, y: u32, width: u32, height: u32, rgba: Vec<u8> },
    /// Copy a rectangle of the frame to another place in it.
    Copy {
        destination_x: u32,
        destination_y: u32,
        width: u32,
        height: u32,
        source_x: u32,
        source_y: u32,
    },
}

/// What one change of a delta frame is.
pub enum OperationView {
    Overwrite { x: u32, y: u32, width: u32, height: u32, rgba: Seq<u8> },
    Copy {
        destination_x: u32,
        destination_y: u32,
        width: u32,
        height: u32,
        source_x: u32,
        source_y: u32,
    },
}

impl View for RasterDeltaOperation {
    type V = OperationView;

    open spec fn view(&self) -> OperationView {
        match self {
            RasterDeltaOperation::Overwrite { x, y, width, height, rgba } => {
                OperationView::Overwrite {
                    x: *x,
                    y: *y,
                    width: *width,
                    height: *height,
                    rgba: rgba@,
                }
            },
            RasterDeltaOperation::Copy {
                destination_x,
                destination_y,
                width,
                height,
                source_x,
                source_y,
            } => OperationView::Copy {
                destination_x: *destination_x,
                destination_y: *destination_y,
                width: *width,
                height: *height,
                source_x: *source_x,
                source_y: *source_y,
            },
        }
    }
}

/// What changes are, in order.
pub open spec fn operation_views(operations: Seq<RasterDeltaOperation>) -> Seq<OperationView> {
    operations.map_values(|operation: RasterDeltaOperation| operation@)
}

/// A decoded raster frame, four bytes per pixel.
pub struct Frame {
    pub frame_id: u64,
    pub pts_us: i64,
    pub width: u32,
    pub height: u32,
    pub sar_num: u32,
    pub sar_den: u32,
    pub alpha_mode: u64,
    pub rgba: Vec<u8>,
    pub damage: Option<Vec<RasterDamageRect>>,
}

/// Changes to a frame.
pub struct RasterDelta {
    pub frame_id: u64,
    pub base_frame_id: u64,
    pub pts_us: i64,
    pub operations: Vec<RasterDeltaOperation>,
}

/// The bytes of a row.
pub open spec fn stride_of(width: u32) -> int {
    width as int * 4
}

impl Frame {
    /// The pixels fill the frame exactly.
    pub open spec fn wf(&self) -> bool {
        self.rgba@.len() == self.height as int * stride_of(self.width)
    }
}

/// Whether a rectangle lies inside a frame.
pub open spec fn inside(width: u32, height: u32, x: u32, y: u32, w: u32, h: u32) -> bool {
    x + w <= width && y + h <= height
}

/// Whether a rectangle lies inside the rows of a buffer, the last of which may be cut short behind
/// the rectangle.
pub open spec fn holds(length: int, frame_width: u32, x: u32, y: u32, w: u32, h: u32) -> bool {
    &&& x + w <= frame_width
    &&& 0 < h ==> y + h - 1 <= u32::MAX && (y + h - 1) * stride_of(frame_width) + x * 4 + w * 4
        <= length
}

/// Whether an operation stays inside a frame and brings the pixels it needs.
pub open spec fn operation_fits(width: u32, height: u32, operation: OperationView) -> bool {
    match operation {
        OperationView::Overwrite { x, y, width: w, height: h, rgba } => inside(
            width,
            height,
            x,
            y,
            w,
            h,
        ) && rgba.len() == h as int * stride_of(w),
        OperationView::Copy {
            destination_x,
            destination_y,
            width: w,
            height: h,
            source_x,
            source_y,
        } => inside(width, height, destination_x, destination_y, w, h) && inside(
            width,
            height,
            source_x,
            source_y,
            w,
            h,
        ),
    }
}

/// The pixels after some rows of a rectangle were copied, all of them read from the pixels before.
pub open spec fn copied_rows(
    before: Seq<u8>,
    frame_width: u32,
    source_x: u32,
    source_y: u32,
    destination_x: u32,
    destination_y: u32,
    width: u32,
    first: int,
    last: int,
) -> Seq<u8> {
    let stride = stride_of(frame_width);
    Seq::new(
        before.len(),
        |k: int|
            {
                let row = k / stride;
                let column = k % stride;
                if destination_y + first <= row < destination_y + last && destination_x * 4
                    <= column < destination_x * 4 + width * 4 {
                    before[(row - destination_y + source_y) * stride + (column - destination_x * 4
                        + source_x * 4)]
                } else {
                    before[k]
                }
            },
    )
}

/// The pixels after a rectangle was copied as if from a snapshot.
pub open spec fn copied(
    before: Seq<u8>,
    frame_width: u32,
    source_x: u32,
    source_y: u32,
    destination_x: u32,
    destination_y: u32,
    width: u32,
    height: u32,
) -> Seq<u8> {
    copied_rows(
        before,
        frame_width,
        source_x,
        source_y,
        destination_x,
        destination_y,
        width,
        0,
        height as int,
    )
}

/// The pixels after the first rows of a rectangle were overwritten.
pub open spec fn overwritten_rows(
    before: Seq<u8>,
    frame_width: u32,
    x: u32,
    y: u32,
    width: u32,
    replacement: Seq<u8>,
    rows: int,
) -> Seq<u8> {
    let stride = stride_of(frame_width);
    Seq::new(
        before.len(),
        |k: int|
            {
                let row = k / stride;
                let column = k % stride;
                if y <= row < y + rows && x * 4 <= column < x * 4 + width * 4 {
                    replacement[(row - y) * stride_of(width) + (column - x * 4)]
                } else {
                    before[k]
                }
            },
    )
}

/// What one operation makes of the pixels.
pub open spec fn operated(before: Seq<u8>, frame_width: u32, operation: OperationView) -> Seq<
    u8,
> {
    match operation {
        OperationView::Overwrite { x, y, width, height, rgba } => overwritten_rows(
            before,
            frame_width,
            x,
            y,
            width,
            rgba,
            height as int,
        ),
        OperationView::Copy {
            destination_x,
            destination_y,
            width,
            height,
            source_x,
            source_y,
        } => copied(
            before,
            frame_width,
            source_x,
            source_y,
            destination_x,
            destination_y,
            width,
            height,
        ),
    }
}

/// What operations make of the pixels, one after the other.
pub open spec fn operated_all(
    before: Seq<u8>,
    frame_width: u32,
    operations: Seq<OperationView>,
) -> Seq<u8>
    decreases operations.len(),
{
    if operations.len() == 0 {
        before
    } else {
        operated(
            operated_all(before, frame_width, operations.drop_last()),
            frame_width,
            operations.last(),
        )
    }
}

/// The rectangle an operation changes.
pub open spec fn damage_of(operation: OperationView) -> RasterDamageRect {
    match operation {
        OperationView::Overwrite { x, y, width, height, .. } => RasterDamageRect {
            x,
            y,
            width,
            height,
        },
        OperationView::Copy { destination_x, destination_y, width, height, .. } =>
        RasterDamageRect { x: destination_x, y: destination_y, width, height },
    }
}

/// The rectangles that operations change.
pub open spec fn damage_of_all(operations: Seq<OperationView>) -> Seq<RasterDamageRect> {
    operations.map_values(|operation: OperationView| damage_of(operation))
}

/// Where a byte of a row stands, and back.
proof fn lemma_position(stride: int, row: int, column: int)
    requires
        0 <= row,
        0 <= column < stride,
    ensures
        (row * stride + column) / stride == row,
        (row * stride + column) % stride == column,
        row * stride + column < (row + 1) * stride,
        0 <= row * stride,
{
    assert(row * stride + column == stride * row + column) by (nonlinear_arith);
    lemma_fundamental_div_mod_converse(row * stride + column, stride, row, column);
    assert((row + 1) * stride == row * stride + stride) by (nonlinear_arith);
    assert(0 <= row * stride) by (nonlinear_arith)
        requires
            0 <= row,
            0 <= stride,
    ;
}

/// Every byte stands in a row.
proof fn lemma_byte_of(stride: int, k: int)
    requires
        0 < stride,
        0 <= k,
    ensures
        0 <= k / stride,
        0 <= k % stride < stride,
        k == (k / stride) * stride + k % stride,
{
    assert(k < (k + 1) * stride) by (nonlinear_arith)
        requires
            0 < stride,
            0 <= k,
    ;
    lemma_row_of(stride, k + 1, k);
}

/// A byte index of a frame names a row of the frame.
proof fn lemma_row_of(stride: int, height: int, k: int)
    requires
        0 < stride,
        0 <= k < height * stride,
    ensures
        0 <= k / stride < height,
        0 <= k % stride < stride,
        k == (k / stride) * stride + k % stride,
{
    vstd::arithmetic::div_mod::lemma_fundamental_div_mod(k, stride);
    assert(0 <= k % stride < stride) by (nonlinear_arith)
        requires
            0 < stride,
    ;
    assert(k / stride < height) by (nonlinear_arith)
        requires
            0 < stride,
            k == stride * (k / stride) + k % stride,
            0 <= k % stride,
            k < height * stride,
    ;
    assert(0 <= k / stride) by (nonlinear_arith)
        requires
            0 < stride,
            0 <= k,
    ;
    assert(stride * (k / stride) == (k / stride) * stride) by (nonlinear_arith);
}

/// Copy a run of bytes within a buffer, as if from a snapshot.
fn move_run(rgba: &mut Vec<u8>, source: usize, destination: usize, length: usize)
    requires
        source + length <= old(rgba)@.len(),
        destination + length <= old(rgba)@.len(),
    ensures
        final(rgba)@ == Seq::new(
            old(rgba)@.len(),
            |k: int|
                if destination <= k < destination + length {
                    old(rgba)@[source + (k - destination)]
                } else {
                    old(rgba)@[k]
                },
        ),
{
    let mut snapshot: Vec<u8> = Vec::new();
    let total = rgba.len();
    let mut index: usize = 0;
    while index < length
        invariant
            index <= length,
            total == rgba@.len(),
            source + length <= rgba@.len(),
            snapshot@.len() == index,
            forall|i: int| 0 <= i < index ==> snapshot@[i] == rgba@[source + i],
        decreases length - index,
    {
        snapshot.push(rgba[source + index]);
        index = index + 1;
    }
    write_run(rgba, destination, &snapshot, 0, length);
}

/// Write a run of bytes of one buffer into another.
fn write_run(rgba: &mut Vec<u8>, destination: usize, content: &Vec<u8>, start: usize, length: usize)
    requires
        destination + length <= old(rgba)@.len(),
        start + length <= content@.len(),
    ensures
        final(rgba)@ == Seq::new(
            old(rgba)@.len(),
            |k: int|
                if destination <= k < destination + length {
                    content@[start + (k - destination)]
                } else {
                    old(rgba)@[k]
                },
        ),
{
    let ghost before = rgba@;
    let total = rgba.len();
    let available = content.len();
    let mut index: usize = 0;
    while index < length
        invariant
            index <= length,
            total == before.len(),
            available == content@.len(),
            rgba@.len() == before.len(),
            destination + length <= before.len(),
            start + length <= content@.len(),
            forall|k: int|
                0 <= k < before.len() ==> rgba@[k] == (if destination <= k < destination + index {
                    content@[start + (k - destination)]
                } else {
                    before[k]
                }),
        decreases length - index,
    {
        rgba.set(destination + index, content[start + index]);
        index = index + 1;
    }
    assert(rgba@ =~= Seq::new(
        before.len(),
        |k: int|
            if destination <= k < destination + length {
                content@[start + (k - destination)]
            } else {
                before[k]
            },
    ));
}

/// Where a row of a rectangle starts, and that it ends inside the frame.
proof fn lemma_run(frame_width: u32, frame_height: u32, x: u32, row: int, width: u32, length: int)
    requires
        x + width <= frame_width,
        0 <= row < frame_height,
        length == frame_height as int * stride_of(frame_width),
    ensures
        0 <= row * stride_of(frame_width),
        row * stride_of(frame_width) + x * 4 + width * 4 <= length,
{
    let stride = stride_of(frame_width);
    assert(0 <= row * stride) by (nonlinear_arith)
        requires
            0 <= row,
            0 <= stride,
    ;
    assert((row + 1) * stride <= frame_height as int * stride) by (nonlinear_arith)
        requires
            row + 1 <= frame_height as int,
            0 <= stride,
    ;
    assert((row + 1) * stride == row * stride + stride) by (nonlinear_arith);
}

/// A rectangle inside a frame lies inside its rows.
proof fn lemma_inside_holds(
    frame_width: u32,
    frame_height: u32,
    x: u32,
    y: u32,
    width: u32,
    height: u32,
    length: int,
)
    requires
        inside(frame_width, frame_height, x, y, width, height),
        length == frame_height as int * stride_of(frame_width),
    ensures
        holds(length, frame_width, x, y, width, height),
{
    if 0 < height {
        lemma_run(frame_width, frame_height, x, y + height - 1, width, length);
    }
}

/// Every row of a rectangle ends inside the buffer that its last row ends in.
proof fn lemma_held(
    length: int,
    frame_width: u32,
    x: u32,
    y: u32,
    width: u32,
    height: u32,
    row: int,
)
    requires
        holds(length, frame_width, x, y, width, height),
        0 <= row < height,
    ensures
        0 <= (y + row) * stride_of(frame_width),
        (y + row) * stride_of(frame_width) + x * 4 + width * 4 <= length,
{
    let stride = stride_of(frame_width);
    let here = y + row;
    let last = y + height - 1;
    assert(0 <= here * stride <= last * stride) by (nonlinear_arith)
        requires
            0 <= here <= last,
            0 <= stride,
    ;
}

/// The start of a row of a rectangle, as a machine number.
fn run_start(frame_width: u32, x: u32, row: u32, width: u32, length: usize) -> (r: usize)
    requires
        row as int * stride_of(frame_width) + x * 4 + width * 4 <= length,
    ensures
        r == row as int * stride_of(frame_width) + x * 4,
        r + width * 4 <= length,
{
    let stride: u64 = frame_width as u64 * 4;
    assert(0 <= row as int * stride as int) by (nonlinear_arith);
    let start: u64 = row as u64 * stride + x as u64 * 4;
    start as usize
}

/// Copying one more row keeps to the snapshot, as long as its source was not overwritten yet.
proof fn lemma_copied_step(
    before: Seq<u8>,
    now: Seq<u8>,
    later: Seq<u8>,
    frame_width: u32,
    source_x: u32,
    source_y: u32,
    destination_x: u32,
    destination_y: u32,
    width: u32,
    height: u32,
    first: int,
    last: int,
    row: int,
)
    requires
        0 < width,
        holds(before.len() as int, frame_width, source_x, source_y, width, height),
        holds(before.len() as int, frame_width, destination_x, destination_y, width, height),
        0 <= first <= last <= height,
        0 <= row < height,
        (row == last && destination_y <= source_y) || (row == first - 1 && destination_y
            > source_y),
        now == copied_rows(
            before,
            frame_width,
            source_x,
            source_y,
            destination_x,
            destination_y,
            width,
            first,
            last,
        ),
        ({
            let stride = stride_of(frame_width);
            let from = (source_y + row) * stride + source_x * 4;
            let to = (destination_y + row) * stride + destination_x * 4;
            later == Seq::new(
                now.len(),
                |k: int|
                    if to <= k < to + width * 4 {
                        now[from + (k - to)]
                    } else {
                        now[k]
                    },
            )
        }),
    ensures
        later == copied_rows(
            before,
            frame_width,
            source_x,
            source_y,
            destination_x,
            destination_y,
            width,
            if row == last && destination_y <= source_y {
                first
            } else {
                row
            },
            if row == last && destination_y <= source_y {
                row + 1
            } else {
                last
            },
        ),
{
    let stride = stride_of(frame_width);
    let from = (source_y + row) * stride + source_x * 4;
    let to = (destination_y + row) * stride + destination_x * 4;
    let lo = if row == last && destination_y <= source_y {
        first
    } else {
        row
    };
    let hi = if row == last && destination_y <= source_y {
        row + 1
    } else {
        last
    };
    let goal = copied_rows(
        before,
        frame_width,
        source_x,
        source_y,
        destination_x,
        destination_y,
        width,
        lo,
        hi,
    );
    assert forall|k: int| 0 <= k < before.len() implies later[k] == goal[k] by {
        lemma_byte_of(stride, k);
        let r = k / stride;
        let c = k % stride;
        if to <= k < to + width * 4 {
            let column = k - (destination_y + row) * stride;
            lemma_position(stride, destination_y + row, column);
            assert(r == destination_y + row && c == column);
            let origin = from + (k - to);
            let source_column = column - destination_x * 4 + source_x * 4;
            assert(origin == (source_y + row) * stride + source_column);
            lemma_position(stride, source_y + row, source_column);
            lemma_held(
                before.len() as int,
                frame_width,
                source_x,
                source_y,
                width,
                height,
                row,
            );
            assert(origin / stride == source_y + row);
            assert(now[origin] == before[origin]);
            assert((r - destination_y + source_y) * stride == (source_y + row) * stride);
        } else {
            if r == destination_y + row && destination_x * 4 <= c < destination_x * 4 + width * 4 {
                assert(k == r * stride + c);
                assert(false);
            }
        }
    }
    assert(later =~= goal);
}

/// Copy a rectangle of a frame to another place in it, as if from a snapshot, however the two
/// overlap.
pub fn copy_raster_rect(
    rgba: &mut Vec<u8>,
    frame_width: u32,
    source_x: u32,
    source_y: u32,
    destination_x: u32,
    destination_y: u32,
    width: u32,
    height: u32,
)
    requires
        holds(old(rgba)@.len() as int, frame_width, source_x, source_y, width, height),
        holds(old(rgba)@.len() as int, frame_width, destination_x, destination_y, width, height),
    ensures
        final(rgba)@ == copied(
            old(rgba)@,
            frame_width,
            source_x,
            source_y,
            destination_x,
            destination_y,
            width,
            height,
        ),
{
    let ghost before = rgba@;
    if width == 0 {
        assert(copied(
            before,
            frame_width,
            source_x,
            source_y,
            destination_x,
            destination_y,
            width,
            height,
        ) =~= before);
        return;
    }
    let length = rgba.len();
    proof {
        lemma_copied_none(
            before,
            frame_width,
            source_x,
            source_y,
            destination_x,
            destination_y,
            width,
            0,
        );
        lemma_copied_none(
            before,
            frame_width,
            source_x,
            source_y,
            destination_x,
            destination_y,
            width,
            height as int,
        );
    }
    if destination_y > source_y {
        let mut row: u32 = height;
        while row > 0
            invariant
                row <= height,
                0 < width,
                destination_y > source_y,
                length == before.len(),
                holds(length as int, frame_width, source_x, source_y, width, height),
                holds(length as int, frame_width, destination_x, destination_y, width, height),
                rgba@ == copied_rows(
                    before,
                    frame_width,
                    source_x,
                    source_y,
                    destination_x,
                    destination_y,
                    width,
                    row as int,
                    height as int,
                ),
            decreases row,
        {
            row = row - 1;
            proof {
                lemma_held(
                    length as int,
                    frame_width,
                    source_x,
                    source_y,
                    width,
                    height,
                    row as int,
                );
                lemma_held(
                    length as int,
                    frame_width,
                    destination_x,
                    destination_y,
                    width,
                    height,
                    row as int,
                );
            }
            let source = run_start(frame_width, source_x, source_y + row, width, length);
            let destination = run_start(
                frame_width,
                destination_x,
                destination_y + row,
                width,
                length,
            );
            let row_bytes = run_length(width, length);
            let ghost now = rgba@;
            move_run(rgba, source, destination, row_bytes);
            proof {
                lemma_copied_step(
                    before,
                    now,
                    rgba@,
                    frame_width,
                    source_x,
                    source_y,
                    destination_x,
                    destination_y,
                    width,
                    height,
                    row + 1,
                    height as int,
                    row as int,
                );
            }
        }
    } else {
        let mut row: u32 = 0;
        while row < height
            invariant
                row <= height,
                0 < width,
                destination_y <= source_y,
                length == before.len(),
                holds(length as int, frame_width, source_x, source_y, width, height),
                holds(length as int, frame_width, destination_x, destination_y, width, height),
                rgba@ == copied_rows(
                    before,
                    frame_width,
                    source_x,
                    source_y,
                    destination_x,
                    destination_y,
                    width,
                    0,
                    row as int,
                ),
            decreases height - row,
        {
            proof {
                lemma_held(
                    length as int,
                    frame_width,
                    source_x,
                    source_y,
                    width,
                    height,
                    row as int,
                );
                lemma_held(
                    length as int,
                    frame_width,
                    destination_x,
                    destination_y,
                    width,
                    height,
                    row as int,
                );
            }
            let source = run_start(frame_width, source_x, source_y + row, width, length);
            let destination = run_start(
                frame_width,
                destination_x,
                destination_y + row,
                width,
                length,
            );
            let row_bytes = run_length(width, length);
            let ghost now = rgba@;
            move_run(rgba, source, destination, row_bytes);
            proof {
                lemma_copied_step(
                    before,
                    now,
                    rgba@,
                    frame_width,
                    source_x,
                    source_y,
                    destination_x,
                    destination_y,
                    width,
                    height,
                    0,
                    row as int,
                    row as int,
                );
            }
            row = row + 1;
        }
    }
}

/// Copying no rows changes nothing.
proof fn lemma_copied_none(
    before: Seq<u8>,
    frame_width: u32,
    source_x: u32,
    source_y: u32,
    destination_x: u32,
    destination_y: u32,
    width: u32,
    row: int,
)
    ensures
        copied_rows(
            before,
            frame_width,
            source_x,
            source_y,
            destination_x,
            destination_y,
            width,
            row,
            row,
        ) == before,
{
    assert(copied_rows(
        before,
        frame_width,
        source_x,
        source_y,
        destination_x,
        destination_y,
        width,
        row,
        row,
    ) =~= before);
}

/// Overwriting one more row keeps to the replacement.
proof fn lemma_overwritten_step(
    before: Seq<u8>,
    now: Seq<u8>,
    later: Seq<u8>,
    frame_width: u32,
    frame_height: u32,
    x: u32,
    y: u32,
    width: u32,
    height: u32,
    replacement: Seq<u8>,
    row: int,
)
    requires
        0 < width,
        before.len() == frame_height as int * stride_of(frame_width),
        inside(frame_width, frame_height, x, y, width, height),
        0 <= row < height,
        now == overwritten_rows(before, frame_width, x, y, width, replacement, row),
        ({
            let stride = stride_of(frame_width);
            let from = row * stride_of(width);
            let to = (y + row) * stride + x * 4;
            later == Seq::new(
                now.len(),
                |k: int|
                    if to <= k < to + width * 4 {
                        replacement[from + (k - to)]
                    } else {
                        now[k]
                    },
            )
        }),
    ensures
        later == overwritten_rows(before, frame_width, x, y, width, replacement, row + 1),
{
    let stride = stride_of(frame_width);
    let to = (y + row) * stride + x * 4;
    let goal = overwritten_rows(before, frame_width, x, y, width, replacement, row + 1);
    assert forall|k: int| 0 <= k < before.len() implies later[k] == goal[k] by {
        lemma_row_of(stride, frame_height as int, k);
        let r = k / stride;
        let c = k % stride;
        if to <= k < to + width * 4 {
            let column = k - (y + row) * stride;
            lemma_position(stride, y + row, column);
            assert(r == y + row && c == column);
        } else {
            if r == y + row && x * 4 <= c < x * 4 + width * 4 {
                assert(k == r * stride + c);
                assert(false);
            }
        }
    }
    assert(later =~= goal);
}

/// Put new pixels into a rectangle of a frame.
fn overwrite_raster_rect(
    rgba: &mut Vec<u8>,
    frame_width: u32,
    frame_height: u32,
    x: u32,
    y: u32,
    width: u32,
    height: u32,
    replacement: &Vec<u8>,
)
    requires
        old(rgba)@.len() == frame_height as int * stride_of(frame_width),
        inside(frame_width, frame_height, x, y, width, height),
        replacement@.len() == height as int * stride_of(width),
    ensures
        final(rgba)@ == overwritten_rows(
            old(rgba)@,
            frame_width,
            x,
            y,
            width,
            replacement@,
            height as int,
        ),
{
    let ghost before = rgba@;
    assert(overwritten_rows(before, frame_width, x, y, width, replacement@, 0) =~= before);
    if width == 0 {
        assert(overwritten_rows(before, frame_width, x, y, width, replacement@, height as int)
            =~= before);
        return;
    }
    let length = rgba.len();
    let mut row: u32 = 0;
    while row < height
        invariant
            row <= height,
            0 < width,
            length == before.len(),
            before.len() == frame_height as int * stride_of(frame_width),
            inside(frame_width, frame_height, x, y, width, height),
            replacement@.len() == height as int * stride_of(width),
            rgba@ == overwritten_rows(
                before,
                frame_width,
                x,
                y,
                width,
                replacement@,
                row as int,
            ),
        decreases height - row,
    {
        proof {
            lemma_run(frame_width, frame_height, x, y + row, width, length as int);
            lemma_run(width, height, 0, row as int, width, replacement@.len() as int);
        }
        let destination = run_start(frame_width, x, y + row, width, length);
        let start = run_start(width, 0, row, width, replacement.len());
        let row_bytes = run_length(width, length);
        let ghost now = rgba@;
        write_run(rgba, destination, replacement, start, row_bytes);
        proof {
            lemma_overwritten_step(
                before,
                now,
                rgba@,
                frame_width,
                frame_height,
                x,
                y,
                width,
                height,
                replacement@,
                row as int,
            );
        }
        row = row + 1;
    }
}

/// The bytes of a row of a rectangle.
fn run_length(width: u32, length: usize) -> (r: usize)
    requires
        width * 4 <= length,
    ensures
        r == width * 4,
{
    (width as u64 * 4) as usize
}

/// A delta whose base is not the frame it is applied to.
#[derive(Debug, Clone, Copy, PartialEq, Eq, Structural)]
pub struct StaleBase;

/// Apply a delta to the frame it is based on.
pub fn apply_raster_delta(base: &Frame, delta: &RasterDelta) -> (r: Result<Frame, StaleBase>)
    requires
        base.wf(),
        forall|i: int|
            0 <= i < delta.operations@.len() ==> operation_fits(
                base.width,
                base.height,
                (#[trigger] delta.operations@[i])@,
            ),
    ensures
        r is Ok <==> base.frame_id == delta.base_frame_id,
        r matches Ok(frame) ==> {
            &&& frame.wf()
            &&& frame.frame_id == delta.frame_id
            &&& frame.pts_us == delta.pts_us
            &&& frame.width == base.width
            &&& frame.height == base.height
            &&& frame.sar_num == base.sar_num
            &&& frame.sar_den == base.sar_den
            &&& frame.alpha_mode == base.alpha_mode
            &&& frame.rgba@ == operated_all(
                base.rgba@,
                base.width,
                operation_views(delta.operations@),
            )
            &&& frame.damage matches Some(damage) && damage@ == damage_of_all(
                operation_views(delta.operations@),
            )
        },
{
    if base.frame_id != delta.base_frame_id {
        return Err(StaleBase);
    }
    let mut rgba = base.rgba.clone();
    assert(rgba@ =~= base.rgba@);
    let mut damage: Vec<RasterDamageRect> = Vec::new();
    let ghost operations = operation_views(delta.operations@);
    assert(operations.take(0) =~= Seq::<OperationView>::empty());
    assert forall|i: int| 0 <= i < operations.len() implies operation_fits(
        base.width,
        base.height,
        #[trigger] operations[i],
    ) by {
        assert(operations[i] == delta.operations@[i]@);
    }
    let mut index: usize = 0;
    while index < delta.operations.len()
        invariant
            index <= operations.len(),
            operations == operation_views(delta.operations@),
            base.wf(),
            forall|i: int|
                0 <= i < operations.len() ==> operation_fits(
                    base.width,
                    base.height,
                    #[trigger] operations[i],
                ),
            rgba@.len() == base.rgba@.len(),
            rgba@ == operated_all(base.rgba@, base.width, operations.take(index as int)),
            damage@.len() == index,
            forall|i: int| 0 <= i < index ==> #[trigger] damage@[i] == damage_of(operations[i]),
        decreases operations.len() - index,
    {
        assert(operations.take(index + 1).drop_last() =~= operations.take(index as int));
        assert(operations[index as int] == delta.operations@[index as int]@);
        assert(operation_fits(base.width, base.height, operations[index as int]));
        match &delta.operations[index] {
            RasterDeltaOperation::Overwrite { x, y, width, height, rgba: replacement } => {
                overwrite_raster_rect(
                    &mut rgba,
                    base.width,
                    base.height,
                    *x,
                    *y,
                    *width,
                    *height,
                    replacement,
                );
                damage.push(RasterDamageRect { x: *x, y: *y, width: *width, height: *height });
            },
            RasterDeltaOperation::Copy {
                destination_x,
                destination_y,
                width,
                height,
                source_x,
                source_y,
            } => {
                proof {
                    lemma_inside_holds(
                        base.width,
                        base.height,
                        *source_x,
                        *source_y,
                        *width,
                        *height,
                        rgba@.len() as int,
                    );
                    lemma_inside_holds(
                        base.width,
                        base.height,
                        *destination_x,
                        *destination_y,
                        *width,
                        *height,
                        rgba@.len() as int,
                    );
                }
                copy_raster_rect(
                    &mut rgba,
                    base.width,
                    *source_x,
                    *source_y,
                    *destination_x,
                    *destination_y,
                    *width,
                    *height,
                );
                damage.push(
                    RasterDamageRect {
                        x: *destination_x,
                        y: *destination_y,
                        width: *width,
                        height: *height,
                    },
                );
            },
        }
        index = index + 1;
    }
    assert(operations.take(index as int) =~= operations);
    assert(damage@ =~= damage_of_all(operations));
    Ok(
        Frame {
            frame_id: delta.frame_id,
            pts_us: delta.pts_us,
            width: base.width,
            height: base.height,
            sar_num: base.sar_num,
            sar_den: base.sar_den,
            alpha_mode: base.alpha_mode,
            rgba,
            damage: Some(damage),
        },
    )
}

/// A delta changes no byte outside the rectangle it names.
pub proof fn a_delta_leaves_other_pixels_alone(
    before: Seq<u8>,
    frame_width: u32,
    operation: OperationView,
    k: int,
)
    requires
        0 <= k < before.len(),
        ({
            let rect = damage_of(operation);
            let row = k / stride_of(frame_width);
            let column = k % stride_of(frame_width);
            !(rect.y <= row < rect.y + rect.height && rect.x * 4 <= column < rect.x * 4 + rect.width
                * 4)
        }),
    ensures
        operated(before, frame_width, operation)[k] == before[k],
{
}

/// The byte of a pixel's channel in a frame.
pub open spec fn pixel_byte(rgba: Seq<u8>, frame_width: u32, x: int, y: int, channel: int) -> u8 {
    rgba[y * stride_of(frame_width) + x * 4 + channel]
}

/// An overwritten rectangle shows the pixels that were brought, row by row from its top left corner.
pub proof fn an_overwritten_rectangle_shows_what_was_brought(
    before: Seq<u8>,
    frame_width: u32,
    frame_height: u32,
    x: u32,
    y: u32,
    width: u32,
    height: u32,
    rgba: Seq<u8>,
    i: int,
    j: int,
    channel: int,
)
    requires
        before.len() == frame_height as int * stride_of(frame_width),
        inside(frame_width, frame_height, x, y, width, height),
        rgba.len() == height as int * stride_of(width),
        0 <= i < width,
        0 <= j < height,
        0 <= channel < 4,
    ensures
        pixel_byte(
            operated(
                before,
                frame_width,
                OperationView::Overwrite { x, y, width, height, rgba },
            ),
            frame_width,
            x + i,
            y + j,
            channel,
        ) == pixel_byte(rgba, width, i, j, channel),
{
    let stride = stride_of(frame_width);
    let column = (x + i) * 4 + channel;
    lemma_position(stride, y + j, column);
    assert((y + j + 1) * stride <= frame_height as int * stride) by (nonlinear_arith)
        requires
            y + j + 1 <= frame_height,
            0 <= stride,
    ;
    assert((x + i) * 4 == x * 4 + i * 4);
    assert(y + j - y == j);
}

/// A copied rectangle shows the pixels that its source showed before, also where the two overlap.
pub proof fn a_copied_rectangle_shows_its_source(
    before: Seq<u8>,
    frame_width: u32,
    frame_height: u32,
    source_x: u32,
    source_y: u32,
    destination_x: u32,
    destination_y: u32,
    width: u32,
    height: u32,
    i: int,
    j: int,
    channel: int,
)
    requires
        before.len() == frame_height as int * stride_of(frame_width),
        inside(frame_width, frame_height, destination_x, destination_y, width, height),
        inside(frame_width, frame_height, source_x, source_y, width, height),
        0 <= i < width,
        0 <= j < height,
        0 <= channel < 4,
    ensures
        pixel_byte(
            operated(
                before,
                frame_width,
                OperationView::Copy {
                    destination_x,
                    destination_y,
                    width,
                    height,
                    source_x,
                    source_y,
                },
            ),
            frame_width,
            destination_x + i,
            destination_y + j,
            channel,
        ) == pixel_byte(before, frame_width, source_x + i, source_y + j, channel),
{
    let stride = stride_of(frame_width);
    let column = (destination_x + i) * 4 + channel;
    lemma_position(stride, destination_y + j, column);
    assert((destination_y + j + 1) * stride <= frame_height as int * stride) by (nonlinear_arith)
        requires
            destination_y + j + 1 <= frame_height,
            0 <= stride,
    ;
    assert(destination_y + j - destination_y + source_y == source_y + j);
    assert(column - destination_x * 4 + source_x * 4 == (source_x + i) * 4 + channel);
}

/// A delta is taken in the order of its operations, and reports the rectangle that each of them
/// changed.
pub proof fn operations_are_taken_in_order(
    before: Seq<u8>,
    frame_width: u32,
    operations: Seq<OperationView>,
    operation: OperationView,
)
    ensures
        operated_all(before, frame_width, Seq::empty()) == before,
        operated_all(before, frame_width, operations.push(operation)) == operated(
            operated_all(before, frame_width, operations),
            frame_width,
            operation,
        ),
        damage_of_all(operations.push(operation)) == damage_of_all(operations).push(
            damage_of(operation),
        ),
        operation matches OperationView::Overwrite { x, y, width, height, .. } ==> damage_of(
            operation,
        ).x == x && damage_of(operation).y == y && damage_of(operation).width == width && damage_of(
            operation,
        ).height == height,
        operation matches OperationView::Copy { destination_x, destination_y, width, height, .. }
            ==> damage_of(operation).x == destination_x && damage_of(operation).y == destination_y
            && damage_of(operation).width == width && damage_of(operation).height == height,
{
    assert(operations.push(operation).drop_last() =~= operations);
    assert(damage_of_all(operations.push(operation)) =~= damage_of_all(operations).push(
        damage_of(operation),
    ));
}

/// Copying a rectangle brings every pixel of the source to its place, whether or not the two overlap,
/// and leaves every other byte alone.
pub proof fn a_rectangle_is_copied_pixel_by_pixel(
    rgba: &mut Vec<u8>,
    frame_width: u32,
    source_x: u32,
    source_y: u32,
    destination_x: u32,
    destination_y: u32,
    width: u32,
    height: u32,
    x: int,
    y: int,
    channel: int,
)
    requires
        call_ensures(
            copy_raster_rect,
            (
                rgba,
                frame_width,
                source_x,
                source_y,
                destination_x,
                destination_y,
                width,
                height,
            ),
            (),
        ),
        0 <= x < frame_width,
        0 <= y,
        0 <= channel < 4,
        y * stride_of(frame_width) + x * 4 + channel < old(rgba)@.len(),
    ensures
        final(rgba)@.len() == old(rgba)@.len(),
        destination_x <= x < destination_x + width && destination_y <= y < destination_y + height
            ==> pixel_byte(final(rgba)@, frame_width, x, y, channel) == pixel_byte(
            old(rgba)@,
            frame_width,
            x - destination_x + source_x,
            y - destination_y + source_y,
            channel,
        ),
        !(destination_x <= x < destination_x + width && destination_y <= y < destination_y + height)
            ==> pixel_byte(final(rgba)@, frame_width, x, y, channel) == pixel_byte(
            old(rgba)@,
            frame_width,
            x,
            y,
            channel,
        ),
{
    let stride = stride_of(frame_width);
    let column = x * 4 + channel;
    lemma_position(stride, y, column);
    assert(0 <= y * stride) by (nonlinear_arith)
        requires
            0 <= y,
            0 <= stride,
    ;
    assert(column - destination_x * 4 + source_x * 4 == (x - destination_x + source_x) * 4 + channel);
}

} // verus!
