//! The bookkeeping of a raster surface: its pixels as bytes, its transform
//! and the transforms it has saved.
//!
//! This is the part of a surface that needs no drawing. Pixels are written
//! and read back rectangle by rectangle, the transform is set, saved and
//! restored, and a resize starts all of it afresh. What fills, strokes and
//! shapes text lives outside this library: it works on the pixels kept
//! here, and keeps for itself what else it needs to draw.
//!
//! A surface of `width` by `height` pixels holds `4 * width * height`
//! bytes: four for each pixel, row after row from the top, each row from
//! the left.

use crate::geometry::{Rect, Size2D, Transform2D};
use crate::scalar::Single;
use crate::surface::{fills_rect, AnswerView, SurfaceAnswer, SurfaceCall, SurfaceQuery};
use vstd::arithmetic::div_mod::{lemma_fundamental_div_mod, lemma_fundamental_div_mod_converse};
use vstd::prelude::*;

verus! {

/// The state of a surface, laid out for reasoning.
pub struct SurfaceView {
    /// Its size in pixels.
    pub size: Size2D<u64>,
    /// Its bytes.
    pub pixels: Seq<u8>,
    /// Its current transform.
    pub transform: Transform2D<Single>,
    /// The transforms saved and not yet restored, oldest first.
    pub saved: Seq<Transform2D<Single>>,
}

/// The state of a surface.
#[derive(Debug)]
pub struct SurfaceState {
    size: Size2D<u64>,
    pixels: Vec<u8>,
    transform: Transform2D<Single>,
    saved: Vec<Transform2D<Single>>,
}

/// How many bytes a surface of `size` holds.
pub open spec fn byte_len(size: Size2D<u64>) -> int {
    4 * size.width * size.height
}

/// Whether a surface of `size` can be held: each of its sides and the
/// count of its bytes fit a `usize`.
pub open spec fn can_hold(size: Size2D<u64>) -> bool {
    &&& size.width <= usize::MAX
    &&& size.height <= usize::MAX
    &&& byte_len(size) <= usize::MAX
}

/// A cleared surface of `size`: every byte is zero, the transform moves
/// nothing and nothing is saved.
pub open spec fn cleared(size: Size2D<u64>) -> SurfaceView {
    SurfaceView {
        size,
        pixels: Seq::new(byte_len(size) as nat, |i: int| 0u8),
        transform: Transform2D::<Single>::identity(),
        saved: seq![],
    }
}

/// Whether byte `index` of a surface whose rows are `stride` bytes long
/// lies in `rect`.
pub open spec fn covered(rect: Rect<u64>, stride: int, index: int) -> bool {
    &&& rect.origin.y <= index / stride < rect.origin.y + rect.size.height
    &&& 4 * rect.origin.x <= index % stride < 4 * (rect.origin.x + rect.size.width)
}

/// The bytes of `rect`, row after row, in a surface `width` pixels wide.
pub open spec fn region(pixels: Seq<u8>, width: u64, rect: Rect<u64>) -> Seq<u8> {
    Seq::new(
        (4 * rect.size.width * rect.size.height) as nat,
        |i: int|
            pixels[(rect.origin.y + i / (4 * rect.size.width)) * (4 * width) + 4 * rect.origin.x + i
                % (4 * rect.size.width)],
    )
}

/// The bytes of a surface `width` pixels wide after `bytes`, the pixels of
/// `rect` row after row, have been written into `rect`. What of `rect`
/// lies beyond the surface is not written.
pub open spec fn written(pixels: Seq<u8>, width: u64, rect: Rect<u64>, bytes: Seq<u8>) -> Seq<u8> {
    Seq::new(
        pixels.len(),
        |j: int|
            if covered(rect, 4 * width, j) {
                bytes[(j / (4 * width) - rect.origin.y) * (4 * rect.size.width) + (j % (4 * width)
                    - 4 * rect.origin.x)]
            } else {
                pixels[j]
            },
    )
}

impl SurfaceView {
    /// The surface after `call`, as far as the call is bookkeeping: a
    /// write of pixels that fill their rectangle, a change of the
    /// transform, a save, a restore, and a resize to a size that can be
    /// held. Any other call leaves the bookkeeping as it was.
    pub open spec fn after(self, call: SurfaceCall) -> SurfaceView {
        match call {
            SurfaceCall::PutImageData(pixels, rect) => if fills_rect(pixels@.len(), rect) {
                SurfaceView {
                    pixels: written(self.pixels, self.size.width, rect, pixels@),
                    ..self
                }
            } else {
                self
            },
            SurfaceCall::SetTransform(transform) => SurfaceView { transform, ..self },
            SurfaceCall::SaveContextState => SurfaceView {
                saved: self.saved.push(self.transform),
                ..self
            },
            SurfaceCall::RestoreContextState => if self.saved.len() > 0 {
                SurfaceView {
                    transform: self.saved.last(),
                    saved: self.saved.drop_last(),
                    ..self
                }
            } else {
                self
            },
            SurfaceCall::Recreate(size) => if can_hold(size) {
                cleared(size)
            } else {
                self
            },
            _ => self,
        }
    }

    /// Whether the bookkeeping carries out all of `call`, so that nothing
    /// of it is left to whoever draws. That is so of a write of pixels
    /// only: a transform, a save, a restore and a resize are noted here,
    /// and count for what is drawn afterwards as well.
    pub open spec fn keeps(call: SurfaceCall) -> bool {
        call is PutImageData
    }

    /// The surface after `calls`, one after the other.
    pub open spec fn after_all(self, calls: Seq<SurfaceCall>) -> SurfaceView
        decreases calls.len(),
    {
        if calls.len() == 0 {
            self
        } else {
            self.after_all(calls.drop_last()).after(calls.last())
        }
    }

    /// What the bookkeeping answers to `query`: the transform, the bytes
    /// of the part of a rectangle that lies on the surface, all the bytes,
    /// or that a surface without a pixel has nothing to present. The other
    /// questions are not for it.
    pub open spec fn answer(self, query: SurfaceQuery) -> Option<AnswerView> {
        match query {
            SurfaceQuery::GetTransform => Some(AnswerView::Transform(self.transform)),
            SurfaceQuery::ReadPixels(rect, _) => Some(
                AnswerView::Pixels(region(self.pixels, self.size.width, rect.clamp_to(self.size))),
            ),
            SurfaceQuery::GetPixels => Some(AnswerView::AllPixels(self.pixels)),
            SurfaceQuery::GetData => if self.size.width == 0 || self.size.height == 0 {
                Some(AnswerView::Data(None))
            } else {
                None
            },
            SurfaceQuery::IsPointInPath(_, _, _) => None,
        }
    }
}

impl View for SurfaceState {
    type V = SurfaceView;

    closed spec fn view(&self) -> SurfaceView {
        SurfaceView {
            size: self.size,
            pixels: self.pixels@,
            transform: self.transform,
            saved: self.saved@,
        }
    }
}

impl SurfaceState {
    #[verifier::type_invariant]
    spec fn well_formed(self) -> bool {
        &&& can_hold(self.size)
        &&& self.pixels@.len() == byte_len(self.size)
    }

    /// A cleared surface of `size`, or nothing where such a surface cannot
    /// be held.
    pub fn new(size: Size2D<u64>) -> (state: Option<SurfaceState>)
        ensures
            match state {
                Some(state) => can_hold(size) && state@ == cleared(size),
                None => !can_hold(size),
            },
    {
        if size.width > usize::MAX as u64 || size.height > usize::MAX as u64 {
            return None;
        }
        let width = size.width as usize;
        let height = size.height as usize;
        let length = match width.checked_mul(height) {
            Some(area) => match area.checked_mul(4) {
                Some(length) => length,
                None => {
                    assert(byte_len(size) == 4 * (width * height)) by (nonlinear_arith)
                        requires
                            width == size.width,
                            height == size.height,
                    ;
                    return None;
                },
            },
            None => {
                assert(byte_len(size) >= width * height) by (nonlinear_arith)
                    requires
                        width == size.width,
                        height == size.height,
                ;
                return None;
            },
        };
        assert(length == byte_len(size)) by (nonlinear_arith)
            requires
                length == (width * height) * 4,
                width == size.width,
                height == size.height,
        ;
        let pixels = vec![0u8; length];
        let state = SurfaceState {
            size,
            pixels,
            transform: Transform2D::<Single>::identity(),
            saved: Vec::new(),
        };
        assert(state@.pixels =~= cleared(size).pixels);
        assert(state@.saved =~= cleared(size).saved);
        Some(state)
    }

    /// The size of the surface.
    pub fn size(&self) -> (size: Size2D<u64>)
        ensures
            size == self@.size,
    {
        self.size
    }

    /// The current transform.
    pub fn get_transform(&self) -> (transform: Transform2D<Single>)
        ensures
            transform == self@.transform,
    {
        self.transform
    }

    /// All the bytes of the surface.
    pub fn pixels(&self) -> (pixels: &Vec<u8>)
        ensures
            pixels@ == self@.pixels,
    {
        &self.pixels
    }

    /// Carries out what of `call` is bookkeeping, and hands the call back
    /// unless that was all of it.
    pub fn perform(&mut self, call: SurfaceCall) -> (left: Option<SurfaceCall>)
        ensures
            final(self)@ == old(self)@.after(call),
            left == if SurfaceView::keeps(call) {
                None
            } else {
                Some(call)
            },
    {
        match call {
            SurfaceCall::PutImageData(pixels, rect) => {
                let bytes = pixels.into_vec();
                self.put_image_data(&bytes, rect);
                None
            },
            SurfaceCall::SetTransform(transform) => {
                self.set_transform(transform);
                Some(SurfaceCall::SetTransform(transform))
            },
            SurfaceCall::SaveContextState => {
                self.save_context_state();
                Some(SurfaceCall::SaveContextState)
            },
            SurfaceCall::RestoreContextState => {
                self.restore_context_state();
                Some(SurfaceCall::RestoreContextState)
            },
            SurfaceCall::Recreate(size) => {
                self.recreate(size);
                Some(SurfaceCall::Recreate(size))
            },
            other => Some(other),
        }
    }

    /// Answers `query` where the bookkeeping can. A question that is not
    /// for it gets no answer.
    pub fn answer(&self, query: SurfaceQuery) -> (answer: Option<SurfaceAnswer>)
        ensures
            match answer {
                Some(answer) => self@.answer(query) == Some(answer@),
                None => self@.answer(query) is None,
            },
    {
        match query {
            SurfaceQuery::GetTransform => Some(SurfaceAnswer::Transform(self.get_transform())),
            SurfaceQuery::ReadPixels(rect, _) => Some(
                SurfaceAnswer::Pixels(self.read_pixels(rect)),
            ),
            SurfaceQuery::GetPixels => Some(SurfaceAnswer::AllPixels(self.get_pixels())),
            SurfaceQuery::GetData => if self.size.width == 0 || self.size.height == 0 {
                Some(SurfaceAnswer::Data(None))
            } else {
                None
            },
            SurfaceQuery::IsPointInPath(_, _, _) => None,
        }
    }

    /// A surface of no size, to stand in while the real one is worked on.
    fn placeholder() -> (state: SurfaceState)
        ensures
            state@.size == (Size2D { width: 0u64, height: 0u64 }),
    {
        SurfaceState {
            size: Size2D { width: 0, height: 0 },
            pixels: Vec::new(),
            transform: Transform2D::<Single>::identity(),
            saved: Vec::new(),
        }
    }

    /// Sets the current transform.
    pub fn set_transform(&mut self, transform: Transform2D<Single>)
        ensures
            final(self)@ == old(self)@.after(SurfaceCall::SetTransform(transform)),
    {
        let mut state = SurfaceState::placeholder();
        core::mem::swap(self, &mut state);
        proof {
            use_type_invariant(&state);
        }
        let SurfaceState { size, pixels, transform: _, saved } = state;
        *self = SurfaceState { size, pixels, transform, saved };
    }

    /// Saves the current transform.
    pub fn save_context_state(&mut self)
        ensures
            final(self)@ == old(self)@.after(SurfaceCall::SaveContextState),
    {
        let mut state = SurfaceState::placeholder();
        core::mem::swap(self, &mut state);
        proof {
            use_type_invariant(&state);
        }
        let SurfaceState { size, pixels, transform, mut saved } = state;
        saved.push(transform);
        *self = SurfaceState { size, pixels, transform, saved };
    }

    /// Brings back the transform saved last, if one is saved.
    pub fn restore_context_state(&mut self)
        ensures
            final(self)@ == old(self)@.after(SurfaceCall::RestoreContextState),
    {
        let mut state = SurfaceState::placeholder();
        core::mem::swap(self, &mut state);
        proof {
            use_type_invariant(&state);
        }
        let SurfaceState { size, pixels, transform, mut saved } = state;
        let transform = match saved.pop() {
            Some(restored) => restored,
            None => transform,
        };
        *self = SurfaceState { size, pixels, transform, saved };
    }

    /// Starts afresh with a cleared surface of `size`. Where such a
    /// surface cannot be held, the surface stays as it is and `false` is
    /// returned.
    pub fn recreate(&mut self, size: Size2D<u64>) -> (done: bool)
        ensures
            done == can_hold(size),
            final(self)@ == old(self)@.after(SurfaceCall::Recreate(size)),
    {
        match SurfaceState::new(size) {
            Some(state) => {
                *self = state;
                true
            },
            None => false,
        }
    }

    /// The bytes of the part of `rect` that lies on the surface, row after
    /// row.
    pub fn read_pixels(&self, rect: Rect<u64>) -> (bytes: Vec<u8>)
        ensures
            bytes@ == region(self@.pixels, self@.size.width, rect.clamp_to(self@.size)),
    {
        proof {
            use_type_invariant(self);
            rect.lemma_clamp_to(self.size);
        }
        let part = rect.clamp_to(self.size);
        let mut bytes: Vec<u8> = Vec::new();
        if part.is_empty() {
            assert(4 * part.size.width * part.size.height == 0) by (nonlinear_arith)
                requires
                    part.size.width == 0 || part.size.height == 0,
            ;
            assert(bytes@ =~= region(self@.pixels, self@.size.width, part));
            return bytes;
        }
        proof {
            lemma_stride(self.size);
        }
        let stride: usize = self.size.width as usize * 4;
        let left: usize = part.origin.x as usize * 4;
        let top: usize = part.origin.y as usize;
        let row_len: usize = part.size.width as usize * 4;
        let rows: usize = part.size.height as usize;
        let ghost expected = region(self@.pixels, self@.size.width, part);
        assert(expected.len() == rows * row_len) by (nonlinear_arith)
            requires
                expected.len() == 4 * part.size.width * part.size.height,
                rows == part.size.height,
                row_len == part.size.width * 4,
        ;
        let mut row: usize = 0;
        while row < rows
            invariant
                row <= rows,
                0 < row_len,
                left + row_len <= stride,
                top + rows <= self.size.height <= usize::MAX,
                stride == 4 * self.size.width,
                left == 4 * part.origin.x,
                top == part.origin.y,
                row_len == 4 * part.size.width,
                self.pixels@.len() == self.size.height * stride,
                self.pixels@.len() <= usize::MAX,
                expected == region(self.pixels@, self.size.width, part),
                expected.len() == rows * row_len,
                bytes@.len() == row * row_len,
                forall|k: int| 0 <= k < bytes@.len() ==> bytes@[k] == expected[k],
            decreases rows - row,
        {
            let mut column: usize = 0;
            proof {
                lemma_row_lies_within(
                    top + row,
                    left + row_len,
                    self.size.height as int,
                    stride as int,
                );
            }
            let start: usize = (top + row) * stride + left;
            while column < row_len
                invariant
                    row < rows,
                    column <= row_len,
                    left + row_len <= stride,
                    stride == 4 * self.size.width,
                    left == 4 * part.origin.x,
                    top == part.origin.y,
                    row_len == 4 * part.size.width,
                    start == (top + row) * stride + left,
                    start + row_len <= self.pixels@.len() <= usize::MAX,
                    expected == region(self.pixels@, self.size.width, part),
                    expected.len() == rows * row_len,
                    bytes@.len() == row * row_len + column,
                    forall|k: int| 0 <= k < bytes@.len() ==> bytes@[k] == expected[k],
                decreases row_len - column,
            {
                proof {
                    let k = row * row_len + column;
                    lemma_fundamental_div_mod_converse(
                        k,
                        row_len as int,
                        row as int,
                        column as int,
                    );
                    lemma_row_lies_within(row as int, column + 1, rows as int, row_len as int);
                }
                bytes.push(self.pixels[start + column]);
                column += 1;
            }
            proof {
                assert(row * row_len + row_len == (row + 1) * row_len) by (nonlinear_arith);
            }
            row += 1;
        }
        assert(bytes@ =~= expected);
        bytes
    }

    /// All the bytes of the surface, copied.
    pub fn get_pixels(&self) -> (bytes: Vec<u8>)
        ensures
            bytes@ == self@.pixels,
    {
        let bytes = self.pixels.clone();
        assert(bytes@ =~= self.pixels@);
        bytes
    }

    /// Puts `pixels` in the place of the surface's bytes: what was drawn
    /// on a copy becomes the surface. Bytes of another count are refused
    /// and handed back.
    pub fn replace_pixels(&mut self, pixels: Vec<u8>) -> (refused: Option<Vec<u8>>)
        ensures
            match refused {
                None => pixels@.len() == old(self)@.pixels.len() && final(self)@ == (SurfaceView {
                    pixels: pixels@,
                    ..old(self)@
                }),
                Some(back) => pixels@.len() != old(self)@.pixels.len() && back == pixels
                    && final(self)@ == old(self)@,
            },
    {
        proof {
            use_type_invariant(&*self);
        }
        if pixels.len() != self.pixels.len() {
            return Some(pixels);
        }
        let mut state = SurfaceState::placeholder();
        core::mem::swap(self, &mut state);
        let SurfaceState { size, pixels: _, transform, saved } = state;
        *self = SurfaceState { size, pixels, transform, saved };
        None
    }

    /// Writes `bytes`, the pixels of `rect` row after row, into `rect`.
    /// What of `rect` lies beyond the surface is not written. Bytes that
    /// do not fill `rect` are not written at all, and `false` is returned.
    pub fn put_image_data(&mut self, bytes: &Vec<u8>, rect: Rect<u64>) -> (done: bool)
        ensures
            done == fills_rect(bytes@.len(), rect),
            final(self)@ == if done {
                SurfaceView {
                    pixels: written(old(self)@.pixels, old(self)@.size.width, rect, bytes@),
                    ..old(self)@
                }
            } else {
                old(self)@
            },
    {
        proof {
            use_type_invariant(&*self);
            rect.lemma_clamp_to(self.size);
        }
        if !fills(bytes.len(), &rect) {
            return false;
        }
        let part = rect.clamp_to(self.size);
        let ghost before = self.pixels@;
        let ghost goal = written(before, self.size.width, rect, bytes@);
        if part.is_empty() {
            proof {
                lemma_stride(self.size);
                let stride = 4 * self.size.width;
                assert forall|j: int| 0 <= j < before.len() implies !#[trigger] covered(
                    rect,
                    stride,
                    j,
                ) by {
                    lemma_position(j, self.size);
                }
                assert(goal =~= before);
            }
            return true;
        }
        let mut state = SurfaceState::placeholder();
        core::mem::swap(self, &mut state);
        let SurfaceState { size, mut pixels, transform, saved } = state;
        proof {
            lemma_stride(size);
            assert(4 * rect.size.width <= bytes@.len() && bytes@.len() == rect.size.height * (4
                * rect.size.width)) by (nonlinear_arith)
                requires
                    bytes@.len() == rect.size.width * rect.size.height * 4,
                    rect.size.height >= 1,
            ;
            let stride = 4 * size.width;
            assert forall|j: int| 0 <= j < before.len() && #[trigger] covered(
                rect,
                stride,
                j,
            ) implies j / stride < part.origin.y + part.size.height && j % stride < 4 * (
            part.origin.x + part.size.width) by {
                lemma_position(j, size);
            }
        }
        let stride: usize = size.width as usize * 4;
        let left: usize = part.origin.x as usize * 4;
        let top: usize = part.origin.y as usize;
        let row_len: usize = part.size.width as usize * 4;
        let rows: usize = part.size.height as usize;
        let source_len: usize = rect.size.width as usize * 4;
        let mut row: usize = 0;
        while row < rows
            invariant
                row <= rows,
                0 < row_len <= source_len,
                0 < stride,
                left + row_len <= stride,
                top + rows <= size.height <= usize::MAX,
                rows <= rect.size.height,
                stride == 4 * size.width,
                left == 4 * rect.origin.x,
                top == rect.origin.y,
                source_len == 4 * rect.size.width,
                bytes@.len() == rect.size.height * source_len,
                bytes@.len() <= usize::MAX,
                before.len() == size.height * stride,
                before.len() <= usize::MAX,
                pixels@.len() == before.len(),
                forall|j: int|
                    0 <= j < before.len() ==> pixels@[j] == if covered(rect, stride as int, j) && j
                        / (stride as int) < top + row {
                        goal[j]
                    } else {
                        before[j]
                    },
                goal == written(before, size.width, rect, bytes@),
                forall|j: int|
                    0 <= j < before.len() && covered(rect, stride as int, j) ==> j / (stride as int)
                        < top + rows && j % (stride as int) < left + row_len,
            decreases rows - row,
        {
            proof {
                lemma_row_lies_within(top + row, left + row_len, size.height as int, stride as int);
                lemma_row_lies_within(
                    row as int,
                    row_len as int,
                    rect.size.height as int,
                    source_len as int,
                );
            }
            let start: usize = (top + row) * stride + left;
            let source: usize = row * source_len;
            let mut column: usize = 0;
            while column < row_len
                invariant
                    row < rows,
                    column <= row_len <= source_len,
                    0 < stride,
                    left + row_len <= stride,
                    stride == 4 * size.width,
                    left == 4 * rect.origin.x,
                    top == rect.origin.y,
                    source_len == 4 * rect.size.width,
                    start == (top + row) * stride + left,
                    start + row_len <= before.len() <= usize::MAX,
                    source == row * source_len,
                    source + row_len <= bytes@.len() <= usize::MAX,
                    row < rect.size.height,
                    pixels@.len() == before.len(),
                    forall|j: int|
                        0 <= j < before.len() ==> pixels@[j] == if covered(rect, stride as int, j)
                            && (j / (stride as int) < top + row || (j / (stride as int) == top + row
                            && j % (stride as int) < left + column)) {
                            goal[j]
                        } else {
                            before[j]
                        },
                    goal == written(before, size.width, rect, bytes@),
                decreases row_len - column,
            {
                let target: usize = start + column;
                proof {
                    lemma_fundamental_div_mod_converse(
                        target as int,
                        stride as int,
                        top + row,
                        left + column,
                    );
                    assert(covered(rect, stride as int, target as int));
                    assert(goal[target as int] == bytes@[source + column]);
                }
                let ghost earlier = pixels@;
                pixels.set(target, bytes[source + column]);
                proof {
                    assert forall|j: int| 0 <= j < before.len() implies pixels@[j] == if covered(
                        rect,
                        stride as int,
                        j,
                    ) && (j / (stride as int) < top + row || (j / (stride as int) == top + row && j
                        % (stride as int) < left + column + 1)) {
                        goal[j]
                    } else {
                        before[j]
                    } by {
                        if j != target {
                            assert(pixels@[j] == earlier[j]);
                            if j / (stride as int) == top + row && j % (stride as int) == left
                                + column {
                                lemma_fundamental_div_mod(j, stride as int);
                                assert(stride * (top + row) == (top + row) * stride)
                                    by (nonlinear_arith);
                            }
                        }
                    }
                }
                column += 1;
            }
            proof {
                assert forall|j: int| 0 <= j < before.len() implies pixels@[j] == if covered(
                    rect,
                    stride as int,
                    j,
                ) && j / (stride as int) < top + row + 1 {
                    goal[j]
                } else {
                    before[j]
                } by {
                }
            }
            row += 1;
        }
        assert(pixels@ =~= goal);
        *self = SurfaceState { size, pixels, transform, saved };
        true
    }
}

/// What is read from a rectangle right after a write to it is what was
/// written, for a rectangle that lies on the surface.
pub proof fn lemma_region_of_written(
    pixels: Seq<u8>,
    size: Size2D<u64>,
    rect: Rect<u64>,
    bytes: Seq<u8>,
)
    requires
        pixels.len() == byte_len(size),
        rect.within(size),
        fills_rect(bytes.len(), rect),
    ensures
        region(written(pixels, size.width, rect, bytes), size.width, rect) == bytes,
{
    let after = written(pixels, size.width, rect, bytes);
    let read = region(after, size.width, rect);
    let row_len = 4 * rect.size.width;
    let stride = 4 * size.width;
    assert(read.len() == bytes.len()) by (nonlinear_arith)
        requires
            read.len() == 4 * rect.size.width * rect.size.height,
            bytes.len() == rect.size.width * rect.size.height * 4,
    ;
    assert forall|i: int| 0 <= i < read.len() implies read[i] == bytes[i] by {
        assert(row_len > 0) by (nonlinear_arith)
            requires
                0 <= i < 4 * rect.size.width * rect.size.height,
                row_len == 4 * rect.size.width,
        ;
        let row = i / row_len;
        let column = i % row_len;
        lemma_fundamental_div_mod(i, row_len);
        assert(0 <= row < rect.size.height) by (nonlinear_arith)
            requires
                i == row_len * row + column,
                0 <= column < row_len,
                0 <= i < 4 * rect.size.width * rect.size.height,
                row_len == 4 * rect.size.width,
        ;
        let index = (rect.origin.y + row) * stride + 4 * rect.origin.x + column;
        lemma_fundamental_div_mod_converse(
            index,
            stride,
            rect.origin.y + row,
            4 * rect.origin.x + column,
        );
        assert(0 <= index < pixels.len()) by (nonlinear_arith)
            requires
                index == (rect.origin.y + row) * stride + 4 * rect.origin.x + column,
                0 <= rect.origin.y + row < size.height,
                0 <= 4 * rect.origin.x + column < stride,
                pixels.len() == 4 * size.width * size.height,
                stride == 4 * size.width,
        ;
        assert((row * row_len) + column == i) by (nonlinear_arith)
            requires
                i == row_len * row + column,
        ;
    }
    assert(read =~= bytes);
}

/// Whether `length` bytes are exactly the pixels of `rect`.
fn fills(length: usize, rect: &Rect<u64>) -> (fills: bool)
    ensures
        fills == fills_rect(length as nat, *rect),
{
    let width = rect.size.width;
    let height = rect.size.height;
    match width.checked_mul(height) {
        Some(area) => match area.checked_mul(4) {
            Some(expected) => {
                assert(width * height * 4 == area * 4) by (nonlinear_arith)
                    requires
                        area == width * height,
                ;
                length as u64 == expected
            },
            None => {
                assert(width * height * 4 == area * 4) by (nonlinear_arith)
                    requires
                        area == width * height,
                ;
                false
            },
        },
        None => {
            assert(width * height * 4 > u64::MAX) by (nonlinear_arith)
                requires
                    width * height > u64::MAX,
            ;
            false
        },
    }
}

/// Byte `index` of a surface lies in one of its rows and, within that row,
/// on one of its pixels.
proof fn lemma_position(index: int, size: Size2D<u64>)
    requires
        0 <= index < byte_len(size),
    ensures
        0 <= index / (4 * size.width) < size.height,
        0 <= index % (4 * size.width) < 4 * size.width,
{
    let stride = 4 * size.width;
    assert(stride > 0) by (nonlinear_arith)
        requires
            0 <= index < 4 * size.width * size.height,
            stride == 4 * size.width,
    ;
    lemma_fundamental_div_mod(index, stride);
    assert(index / stride < size.height) by (nonlinear_arith)
        requires
            index == stride * (index / stride) + index % stride,
            0 <= index % stride,
            index < stride * size.height,
            stride > 0,
    ;
    assert(0 <= index / stride) by (nonlinear_arith)
        requires
            index == stride * (index / stride) + index % stride,
            index % stride < stride,
            0 <= index,
            stride > 0,
    ;
    assert(byte_len(size) == stride * size.height) by (nonlinear_arith)
        requires
            stride == 4 * size.width,
            byte_len(size) == 4 * size.width * size.height,
    ;
}

/// A surface with a pixel in it has rows that fit a `usize`, and its bytes
/// are its rows.
proof fn lemma_stride(size: Size2D<u64>)
    requires
        can_hold(size),
    ensures
        byte_len(size) == size.height * (4 * size.width),
        size.height > 0 ==> 4 * size.width <= usize::MAX,
{
    assert(byte_len(size) == size.height * (4 * size.width)) by (nonlinear_arith)
        requires
            byte_len(size) == 4 * size.width * size.height,
    ;
    if size.height > 0 {
        assert(4 * size.width <= size.height * (4 * size.width)) by (nonlinear_arith)
            requires
                size.height >= 1,
        ;
    }
}

/// Row `row` of `rows` rows of `stride` bytes each, up to its byte `end`,
/// lies within the rows.
proof fn lemma_row_lies_within(row: int, end: int, rows: int, stride: int)
    requires
        0 <= row < rows,
        0 <= end <= stride,
    ensures
        0 <= row * stride,
        row * stride + end <= rows * stride,
{
    assert(row * stride + stride <= rows * stride) by (nonlinear_arith)
        requires
            0 <= row < rows,
            0 <= stride,
    ;
    assert(0 <= row * stride) by (nonlinear_arith)
        requires
            0 <= row,
            0 <= stride,
    ;
}

} // verus!
