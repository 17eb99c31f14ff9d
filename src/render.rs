use crate::angle::{
    col_of, normalize_azimuth, normalize_declination, row_of, texel_col, texel_row, wrap,
    SphereAngles, FULL_TURN, HALF_TURN,
};
use crate::frame::Frame;
use crate::texture::packed_color;
use crate::view::App;
use vstd::prelude::*;

verus! {

impl App {
    /// Texel `(row, col)` that the unrotated sphere point `u` shows after the
    /// view's rotation is added and both angles are wrapped into range.
    pub open spec fn texel_at(self, u: SphereAngles) -> (int, int) {
        (
            row_of(
                wrap(u.declination + self.rot_declination, HALF_TURN as int),
                self.layout.height as int,
            ),
            col_of(wrap(u.azimuth + self.rot_azimuth, FULL_TURN as int), self.layout.width as int),
        )
    }

    /// Packed color that the unrotated sphere point `u` shows, read from `globe`.
    pub open spec fn pixel_color(self, globe: Seq<u8>, u: SphereAngles) -> u32 {
        let o = self.layout.offset_of(self.texel_at(u).0, self.texel_at(u).1);
        packed_color(globe[o], globe[o + 1], globe[o + 2])
    }

    /// Half-pixel plane coordinates of pixel `(i, j)` in a `width` by `height`
    /// window: twice `(i - width / 2 - pan_x, j - height / 2 - pan_y)`.
    pub fn plane_point(&self, i: u32, j: u32, width: u32, height: u32) -> (p: (i64, i64))
        ensures
            p.0 == 2 * i - width - 2 * self.pan_x,
            p.1 == 2 * j - height - 2 * self.pan_y,
    {
        (
            2 * (i as i64) - width as i64 - 2 * (self.pan_x as i64),
            2 * (j as i64) - height as i64 - 2 * (self.pan_y as i64),
        )
    }

    /// Rotates, wraps and maps the unrotated sphere point `u` to a texel;
    /// the texel always lies inside the texture.
    pub fn texel_coords(&self, u: SphereAngles) -> (t: (u32, u32))
        requires
            self.wf(),
            self.layout.width > 0,
            self.layout.height > 0,
        ensures
            (t.0 as int, t.1 as int) == self.texel_at(u),
            t.0 < self.layout.height,
            t.1 < self.layout.width,
    {
        let d = normalize_declination(normalize_declination(u.declination) + self.rot_declination);
        let a = normalize_azimuth(normalize_azimuth(u.azimuth) + self.rot_azimuth);
        proof {
            lemma_wrap_shift(u.declination as int, self.rot_declination as int, HALF_TURN as int);
            lemma_wrap_shift(u.azimuth as int, self.rot_azimuth as int, FULL_TURN as int);
        }
        (texel_row(d, self.layout.height), texel_col(a, self.layout.width))
    }

    /// Packed color that the unrotated sphere point `u` shows.
    pub fn shade(&self, globe: &Vec<u8>, u: SphereAngles) -> (c: u32)
        requires
            self.wf(),
            self.layout.fits(globe@.len() as int),
        ensures
            c == self.pixel_color(globe@, u),
    {
        let (row, col) = self.texel_coords(u);
        self.layout.sample(globe, row, col)
    }

    /// Fills every pixel of `frame` from the unrotated sphere point at the
    /// same index of `points`.
    pub fn render(&self, globe: &Vec<u8>, points: &Vec<SphereAngles>, frame: &mut Frame)
        requires
            self.wf(),
            self.layout.fits(globe@.len() as int),
            old(frame).pixels@.len() == points@.len(),
        ensures
            final(frame).width == old(frame).width,
            final(frame).height == old(frame).height,
            final(frame).pixels@.len() == points@.len(),
            forall|k: int|
                0 <= k < points@.len() ==> #[trigger] final(frame).pixels@[k] == self.pixel_color(
                    globe@,
                    points@[k],
                ),
    {
        let n = points.len();
        let mut k: usize = 0;
        while k < n
            invariant
                k <= n,
                n == points@.len(),
                self.wf(),
                self.layout.fits(globe@.len() as int),
                frame.pixels@.len() == n,
                frame.width == old(frame).width,
                frame.height == old(frame).height,
                forall|m: int|
                    0 <= m < k ==> #[trigger] frame.pixels@[m] == self.pixel_color(
                        globe@,
                        points@[m],
                    ),
            decreases n - k,
        {
            let c = self.shade(globe, points[k]);
            frame.pixels.set(k, c);
            k = k + 1;
        }
    }
}

/// Wrapping before a shift by an in-range amount changes nothing.
proof fn lemma_wrap_shift(a: int, r: int, period: int)
    requires
        period > 0,
        0 <= r < period,
    ensures
        wrap(wrap(a, period) + r, period) == wrap(a + r, period),
{
    vstd::arithmetic::div_mod::lemma_small_mod(r as nat, period as nat);
    vstd::arithmetic::div_mod::lemma_add_mod_noop(a, r, period);
}

} // verus!

verus! {

/// Whatever the view and the sphere point, the texel it maps to lies inside
/// the texture.
pub proof fn lemma_texel_in_range(app: App, u: SphereAngles)
    requires
        app.wf(),
        app.layout.width > 0,
        app.layout.height > 0,
    ensures
        0 <= app.texel_at(u).0 < app.layout.height,
        0 <= app.texel_at(u).1 < app.layout.width,
{
    let (h, w) = (app.layout.height as int, app.layout.width as int);
    let d = wrap(u.declination + app.rot_declination, HALF_TURN as int);
    let a = wrap(u.azimuth + app.rot_azimuth, FULL_TURN as int);
    assert(0 <= d * h < HALF_TURN * h) by (nonlinear_arith)
        requires
            0 <= d < HALF_TURN,
            h > 0,
    ;
    assert(0 <= a * w < FULL_TURN * w) by (nonlinear_arith)
        requires
            0 <= a < FULL_TURN,
            w > 0,
    ;
    assert(HALF_TURN * h == h * HALF_TURN) by (nonlinear_arith);
    assert(FULL_TURN * w == w * FULL_TURN) by (nonlinear_arith);
    vstd::arithmetic::div_mod::lemma_div_by_multiple_is_strongly_ordered(
        d * h,
        HALF_TURN * h,
        h,
        HALF_TURN as int,
    );
    vstd::arithmetic::div_mod::lemma_div_by_multiple_is_strongly_ordered(
        a * w,
        FULL_TURN * w,
        w,
        FULL_TURN as int,
    );
    vstd::arithmetic::div_mod::lemma_div_pos_is_pos(d * h, HALF_TURN as int);
    vstd::arithmetic::div_mod::lemma_div_pos_is_pos(a * w, FULL_TURN as int);
}

} // verus!
