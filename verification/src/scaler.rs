//! Nearest-neighbour resampling of frames to the output size.
use vstd::prelude::*;
use crate::decoder::Frame;

verus! {

/// A frame resampled to the renderer's size; the timestamp is the source
/// frame's `f64` presentation time as its bit pattern.
pub struct ScaledFrame {
    pub data: Vec<u8>,
    pub width: u32,
    pub height: u32,
    pub timestamp_bits: u64,
}

/// The source pixel that destination pixel (`dx`, `dy`) takes: column
/// `dx * sw / dw`, row `dy * sh / dh`; an empty source gives 0.
pub open spec fn nearest_sample(d: Seq<u8>, sw: int, sh: int, dw: int, dh: int, dx: int, dy: int) -> u8 {
    if sw > 0 && sh > 0 {
        d[(dy * sh / dh) * sw + dx * sw / dw]
    } else {
        0
    }
}

/// Destination row `dy`.
pub open spec fn nearest_row(d: Seq<u8>, sw: int, sh: int, dw: int, dh: int, dy: int) -> Seq<u8> {
    Seq::new(dw as nat, |dx: int| nearest_sample(d, sw, sh, dw, dh, dx, dy))
}

/// The first `n` destination rows, row after row.
pub open spec fn nearest_rows(d: Seq<u8>, sw: int, sh: int, dw: int, dh: int, n: nat) -> Seq<u8>
    decreases n,
{
    if n == 0 {
        Seq::empty()
    } else {
        nearest_rows(d, sw, sh, dw, dh, (n - 1) as nat) + nearest_row(d, sw, sh, dw, dh, n - 1)
    }
}

/// The source index read for destination pixel (`dx`, `dy`).
pub open spec fn nearest_index(sw: int, sh: int, dw: int, dh: int, dx: int, dy: int) -> int {
    (dy * sh / dh) * sw + dx * sw / dw
}

/// Every source index that resampling reads lies inside a buffer of `len` bytes.
pub open spec fn nearest_reads_in(len: int, sw: int, sh: int, dw: int, dh: int) -> bool {
    dw == 0 || dh == 0 || sw == 0 || sh == 0 || nearest_index(sw, sh, dw, dh, dw - 1, dh - 1) < len
}

proof fn lemma_nearest_index_bounds(sw: int, sh: int, dw: int, dh: int, dx: int, dy: int)
    requires
        0 < sw,
        0 < sh,
        0 <= dx < dw,
        0 <= dy < dh,
    ensures
        0 <= dx * sw / dw < sw,
        0 <= dy * sh / dh < sh,
        0 <= nearest_index(sw, sh, dw, dh, dx, dy) <= nearest_index(sw, sh, dw, dh, dw - 1, dh - 1),
        nearest_index(sw, sh, dw, dh, dx, dy) < sw * sh,
{
    let sx = dx * sw / dw;
    let sy = dy * sh / dh;
    let mx = (dw - 1) * sw / dw;
    let my = (dh - 1) * sh / dh;
    assert(0 <= sx < sw) by (nonlinear_arith)
        requires
            0 < sw,
            0 <= dx < dw,
            sx == dx * sw / dw,
    {
        vstd::arithmetic::div_mod::lemma_div_is_ordered(dx * sw, dw * sw, dw);
        vstd::arithmetic::div_mod::lemma_div_multiples_vanish(sw, dw);
        vstd::arithmetic::div_mod::lemma_div_by_multiple_is_strongly_ordered(dx * sw, dw * sw, sw, dw);
    }
    assert(0 <= sy < sh) by (nonlinear_arith)
        requires
            0 < sh,
            0 <= dy < dh,
            sy == dy * sh / dh,
    {
        vstd::arithmetic::div_mod::lemma_div_by_multiple_is_strongly_ordered(dy * sh, dh * sh, sh, dh);
    }
    assert(sx <= mx) by {
        vstd::arithmetic::mul::lemma_mul_inequality(dx, dw - 1, sw);
        vstd::arithmetic::div_mod::lemma_div_is_ordered(dx * sw, (dw - 1) * sw, dw);
    }
    assert(sy <= my) by {
        vstd::arithmetic::mul::lemma_mul_inequality(dy, dh - 1, sh);
        vstd::arithmetic::div_mod::lemma_div_is_ordered(dy * sh, (dh - 1) * sh, dh);
    }
    assert(0 <= sy * sw + sx <= my * sw + mx) by (nonlinear_arith)
        requires
            0 <= sx <= mx,
            0 <= sy <= my,
            0 < sw,
    ;
    assert(sy * sw + sx < sw * sh) by (nonlinear_arith)
        requires
            0 <= sx < sw,
            0 <= sy < sh,
    ;
}

proof fn lemma_nearest_rows_index(d: Seq<u8>, sw: int, sh: int, dw: int, dh: int, n: nat)
    requires
        0 <= dw,
    ensures
        nearest_rows(d, sw, sh, dw, dh, n).len() == n * dw,
        forall|dx: int, dy: int|
            0 <= dx < dw && 0 <= dy < n ==> #[trigger] nearest_rows(d, sw, sh, dw, dh, n)[dy * dw + dx]
                == nearest_sample(d, sw, sh, dw, dh, dx, dy),
    decreases n,
{
    if n == 0 {
        assert(n * dw == 0);
    } else {
        let m = (n - 1) as nat;
        lemma_nearest_rows_index(d, sw, sh, dw, dh, m);
        let prev = nearest_rows(d, sw, sh, dw, dh, m);
        let all = nearest_rows(d, sw, sh, dw, dh, n);
        vstd::arithmetic::mul::lemma_mul_is_distributive_add_other_way(dw, m as int, 1);
        assert(n * dw == m * dw + dw);
        assert(all.len() == n * dw);
        assert forall|dx: int, dy: int| 0 <= dx < dw && 0 <= dy < n implies #[trigger] all[dy * dw + dx]
            == nearest_sample(d, sw, sh, dw, dh, dx, dy) by {
            if dy < m {
                assert(dy * dw + dx < m * dw) by (nonlinear_arith)
                    requires
                        0 <= dx < dw,
                        0 <= dy < m,
                ;
                assert(all[dy * dw + dx] == prev[dy * dw + dx]);
            } else {
                assert(dy == m);
            }
        }
    }
}

/// Pixel (`dx`, `dy`) of the resampled image sits at index `dy * dw + dx`
/// and is source pixel (`dx * sw / dw`, `dy * sh / dh`); the image has
/// `dw * dh` pixels.
pub proof fn nearest_pixel_at(d: Seq<u8>, sw: int, sh: int, dw: int, dh: int, dx: int, dy: int)
    requires
        0 <= dx < dw,
        0 <= dy < dh,
    ensures
        nearest_rows(d, sw, sh, dw, dh, dh as nat).len() == dh * dw,
        nearest_rows(d, sw, sh, dw, dh, dh as nat)[dy * dw + dx] == nearest_sample(d, sw, sh, dw, dh, dx, dy),
{
    lemma_nearest_rows_index(d, sw, sh, dw, dh, dh as nat);
}

/// Resizes frames to a fixed output size.
pub struct Scaler {
    target_width: u32,
    target_height: u32,
}

impl Scaler {
    pub closed spec fn spec_target_width(&self) -> u32 {
        self.target_width
    }

    pub closed spec fn spec_target_height(&self) -> u32 {
        self.target_height
    }

    pub fn new(target_width: u32, target_height: u32) -> (r: Self)
        ensures
            r.spec_target_width() == target_width,
            r.spec_target_height() == target_height,
    {
        Scaler { target_width, target_height }
    }

    /// Whether `scale_frame` can take `frame`: the output size fits in a `u32`
    /// and every source index it reads lies inside the frame's data.
    pub fn can_scale(&self, frame: &Frame) -> (r: bool)
        ensures
            r == (self.spec_target_width() * self.spec_target_height() <= u32::MAX && nearest_reads_in(
                frame.data@.len() as int,
                frame.width as int,
                frame.height as int,
                self.spec_target_width() as int,
                self.spec_target_height() as int,
            )),
    {
        let dw = self.target_width as u64;
        let dh = self.target_height as u64;
        let sw = frame.width as u64;
        let sh = frame.height as u64;
        proof {
            assert(dw * dh <= u32::MAX * u32::MAX) by (nonlinear_arith)
                requires
                    dw <= u32::MAX,
                    dh <= u32::MAX,
            ;
        }
        if dw * dh > 0xffff_ffff {
            return false;
        }
        if dw == 0 || dh == 0 || sw == 0 || sh == 0 {
            return true;
        }
        proof {
            assert((dw - 1) * sw <= u32::MAX * u32::MAX) by (nonlinear_arith)
                requires
                    dw <= u32::MAX,
                    sw <= u32::MAX,
            ;
            assert((dh - 1) * sh <= u32::MAX * u32::MAX) by (nonlinear_arith)
                requires
                    dh <= u32::MAX,
                    sh <= u32::MAX,
            ;
        }
        let mx = ((dw - 1) * sw) / dw;
        let my = ((dh - 1) * sh) / dh;
        proof {
            lemma_nearest_index_bounds(sw as int, sh as int, dw as int, dh as int, dw - 1, dh - 1);
            assert(sw * sh <= u32::MAX * u32::MAX) by (nonlinear_arith)
                requires
                    sh <= u32::MAX,
                    sw <= u32::MAX,
            ;
        }
        let last = my * sw + mx;
        (last as u128) < (frame.data.len() as u128)
    }

    /// `frame` resampled to the target size, keeping its timestamp.
    pub fn scale_frame(&self, frame: &Frame) -> (r: ScaledFrame)
        requires
            self.spec_target_width() * self.spec_target_height() <= u32::MAX,
            nearest_reads_in(
                frame.data@.len() as int,
                frame.width as int,
                frame.height as int,
                self.spec_target_width() as int,
                self.spec_target_height() as int,
            ),
        ensures
            r.data@ == nearest_rows(
                frame.data@,
                frame.width as int,
                frame.height as int,
                self.spec_target_width() as int,
                self.spec_target_height() as int,
                self.spec_target_height() as nat,
            ),
            r.width == self.spec_target_width(),
            r.height == self.spec_target_height(),
            r.timestamp_bits == frame.timestamp_bits,
    {
        let scaled_data = self.simple_scale_nearest(
            &frame.data,
            frame.width,
            frame.height,
            self.target_width,
            self.target_height,
        );
        ScaledFrame {
            data: scaled_data,
            width: self.target_width,
            height: self.target_height,
            timestamp_bits: frame.timestamp_bits,
        }
    }

    /// Nearest-neighbour resampling of a `src_width` x `src_height` image to
    /// `dst_width` x `dst_height`, row by row.
    pub fn simple_scale_nearest(
        &self,
        data: &[u8],
        src_width: u32,
        src_height: u32,
        dst_width: u32,
        dst_height: u32,
    ) -> (r: Vec<u8>)
        requires
            dst_width * dst_height <= u32::MAX,
            nearest_reads_in(
                data@.len() as int,
                src_width as int,
                src_height as int,
                dst_width as int,
                dst_height as int,
            ),
        ensures
            r@ == nearest_rows(
                data@,
                src_width as int,
                src_height as int,
                dst_width as int,
                dst_height as int,
                dst_height as nat,
            ),
    {
        let ghost d = data@;
        let ghost sw = src_width as int;
        let ghost sh = src_height as int;
        let ghost dw = dst_width as int;
        let ghost dh = dst_height as int;
        let sw64 = src_width as u64;
        let sh64 = src_height as u64;
        let dw64 = dst_width as u64;
        let dh64 = dst_height as u64;
        let mut output: Vec<u8> = Vec::new();
        let mut dst_y: u64 = 0;
        while dst_y < dh64
            invariant
                dst_y <= dh64,
                d == data@,
                sw == sw64,
                sh == sh64,
                dw == dw64,
                dh == dh64,
                sw64 <= u32::MAX,
                sh64 <= u32::MAX,
                dw64 <= u32::MAX,
                dh64 <= u32::MAX,
                nearest_reads_in(d.len() as int, sw, sh, dw, dh),
                output@ == nearest_rows(d, sw, sh, dw, dh, dst_y as nat),
            decreases dh64 - dst_y,
        {
            let ghost row_start = output@;
            let mut dst_x: u64 = 0;
            while dst_x < dw64
                invariant
                    dst_x <= dw64,
                    dst_y < dh64,
                    d == data@,
                    sw == sw64,
                    sh == sh64,
                    dw == dw64,
                    dh == dh64,
                    sw64 <= u32::MAX,
                    sh64 <= u32::MAX,
                    dw64 <= u32::MAX,
                    dh64 <= u32::MAX,
                    nearest_reads_in(d.len() as int, sw, sh, dw, dh),
                    output@ == row_start + nearest_row(d, sw, sh, dw, dh, dst_y as int).take(dst_x as int),
                decreases dw64 - dst_x,
            {
                let v: u8 = if sw64 > 0 && sh64 > 0 {
                    proof {
                        lemma_nearest_index_bounds(sw, sh, dw, dh, dst_x as int, dst_y as int);
                        assert(dst_x * sw64 <= u32::MAX * u32::MAX) by (nonlinear_arith)
                            requires
                                dst_x <= u32::MAX,
                                sw64 <= u32::MAX,
                        ;
                        assert(dst_y * sh64 <= u32::MAX * u32::MAX) by (nonlinear_arith)
                            requires
                                dst_y <= u32::MAX,
                                sh64 <= u32::MAX,
                        ;
                    }
                    let src_x = (dst_x * sw64) / dw64;
                    let src_y = (dst_y * sh64) / dh64;
                    proof {
                        assert(src_y * sw64 + src_x < sw64 * sh64);
                        assert(sw64 * sh64 <= u32::MAX * u32::MAX) by (nonlinear_arith)
                            requires
                                sh64 <= u32::MAX,
                                sw64 <= u32::MAX,
                        ;
                    }
                    let idx = src_y * sw64 + src_x;
                    data[idx as usize]
                } else {
                    0
                };
                output.push(v);
                proof {
                    let row = nearest_row(d, sw, sh, dw, dh, dst_y as int);
                    assert(row.take(dst_x + 1) == row.take(dst_x as int).push(row[dst_x as int]));
                }
                dst_x = dst_x + 1;
            }
            proof {
                let row = nearest_row(d, sw, sh, dw, dh, dst_y as int);
                assert(row.take(dw) == row);
            }
            dst_y = dst_y + 1;
        }
        output
    }
}

} // verus!
