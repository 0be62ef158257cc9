use vstd::prelude::*;
use vstd::arithmetic::div_mod::{
    lemma_div_by_multiple, lemma_div_is_ordered, lemma_div_pos_is_pos,
};
use crate::camera::{
    clip_x, clip_y, clip_z, is_ortho_of, vp_wf, CameraOrthographic, VpMatrix, MAX_ZOOM_MILLI,
};
use crate::input::{InputSystem, KEY_A, KEY_D, KEY_E, KEY_Q, KEY_S, KEY_TABLE_SIZE, KEY_W, KEY_Z};
use crate::rat::q_eq;

verus! {

/// Base movement speed in thousandths of a world unit per second.
pub const SPEED_BASE_MILLI: i64 = 1000;

pub const ZOOM_MIN_MILLI: i64 = 100;

pub const ZOOM_MAX_MILLI: i64 = 5000;

pub const ZOOM_SENSITIVITY_MILLI: i64 = 80;

/// The zoom only moves while it is further than this from its target, so it
/// does not jitter at rest.
pub const ZOOM_DEADZONE_MILLI: i64 = 100;

/// The camera position is kept within this range, in thousandths.
pub const POS_LIMIT_MILLI: i64 = 1_000_000_000_000;

/// Bound on a single movement step, in thousandths; follows from the bounds
/// on speed, tick length and zoom.
pub const STEP_LIMIT_MILLI: i64 = 10_000_000_000;

/// Longest tick the controller accepts, so its fixed-point arithmetic stays
/// in range; the loop drives ticks at a fixed rate far below this.
pub const DELTA_LIMIT_MS: u64 = 10_000;

pub open spec fn clamp_spec(v: int, low: int, high: int) -> int {
    if v < low {
        low
    } else if v > high {
        high
    } else {
        v
    }
}

/// Clamp a value into `[low, high]`.
pub fn clamp(v: i64, low: i64, high: i64) -> (r: i64)
    requires
        low <= high,
    ensures
        r == clamp_spec(v as int, low as int, high as int),
{
    if v < low {
        low
    } else if v > high {
        high
    } else {
        v
    }
}

/// Division by 1000 rounding toward zero, the fixed-point counterpart of a
/// floating-point product's magnitude loss.
pub open spec fn trunc_div_milli(a: int) -> int {
    if a >= 0 {
        a / 1000
    } else {
        -((-a) / 1000)
    }
}

/// Linear interpolation from `start` toward `end` by `t` thousandths.
pub open spec fn lerp_spec(start: int, end: int, t: int) -> int {
    start + trunc_div_milli((end - start) * t)
}

/// Move from `start` toward `end` by the fraction `t / 1000`.  For `t` in
/// `[0, 1000]` the result never overshoots: it stays between the endpoints.
pub fn lerp(start: i64, end: i64, t: i64) -> (r: i64)
    requires
        -MAX_ZOOM_MILLI <= start <= MAX_ZOOM_MILLI,
        -MAX_ZOOM_MILLI <= end <= MAX_ZOOM_MILLI,
        0 <= t <= 1000,
    ensures
        r == lerp_spec(start as int, end as int, t as int),
        start <= end ==> start <= r <= end,
        end <= start ==> end <= r <= start,
{
    if end >= start {
        let d: u64 = (end - start) as u64;
        proof {
            assert(0 <= (d as int) * (t as int) <= (d as int) * 1000) by (nonlinear_arith)
                requires
                    0 <= t <= 1000,
                    0 <= d,
            ;
        }
        let prod: u64 = d * (t as u64);
        let step: u64 = prod / 1000;
        proof {
            lemma_div_pos_is_pos(prod as int, 1000);
            lemma_div_is_ordered(prod as int, (d as int) * 1000, 1000);
            lemma_div_by_multiple(d as int, 1000);
            assert(step <= d);
        }
        start + (step as i64)
    } else {
        let d: u64 = (start - end) as u64;
        proof {
            assert(0 <= (d as int) * (t as int) <= (d as int) * 1000) by (nonlinear_arith)
                requires
                    0 <= t <= 1000,
                    0 <= d,
            ;
        }
        let prod: u64 = d * (t as u64);
        let step: u64 = prod / 1000;
        proof {
            lemma_div_pos_is_pos(prod as int, 1000);
            lemma_div_is_ordered(prod as int, (d as int) * 1000, 1000);
            lemma_div_by_multiple(d as int, 1000);
            assert(step <= d);
            assert((end as int - start as int) * (t as int) == -((d as int) * (t as int)))
                by (nonlinear_arith)
                requires
                    d == start as int - end as int,
            ;
        }
        start - (step as i64)
    }
}

/// Whether the controller sees this key as held down.
pub open spec fn key_down(inp: InputSystem, key: u32) -> bool {
    key < KEY_TABLE_SIZE && inp.keyboard@[key as int] is Pressed
}

/// Drives an orthographic camera from input: directional movement scaled by
/// elapsed time and the current zoom (a tighter zoom gives a proportionally
/// smaller step, keeping perceived speed constant), and a zoom that is
/// smoothed toward a scroll-driven target by interpolation with a deadzone.
pub struct CameraController {
    pub speed_base: i64,
    pub pos_x: i64,
    pub pos_y: i64,
    pub pos_z: i64,
    pub camera: CameraOrthographic,
    pub zoom_target: i64,
    pub zoom_min: i64,
    pub zoom_max: i64,
    pub zoom_sensitivity: i64,
}

/// The movement step of one tick, in thousandths of a world unit: base
/// speed times elapsed seconds times the zoom factor.
pub open spec fn step_speed_spec(c: CameraController, delta_ms: u64) -> int {
    (c.speed_base * delta_ms * c.camera.zoom) / 1_000_000
}

/// The whole effect of one controller tick on the controller state.
/// Movement keys shift the clamped position axis by axis; scrolling moves
/// the zoom target within its bounds; outside the deadzone the zoom is
/// interpolated toward the target without overshooting; and the reset key
/// snaps zoom and target back to the base zoom.
pub open spec fn controller_step(c: CameraController, inp: InputSystem, delta_ms: u64) -> CameraController {
    let step = step_speed_spec(c, delta_ms);
    let pz1 = if key_down(inp, KEY_Q) {
        clamp_spec(c.pos_z + step, -POS_LIMIT_MILLI as int, POS_LIMIT_MILLI as int)
    } else {
        c.pos_z as int
    };
    let pz2 = if key_down(inp, KEY_E) {
        clamp_spec(pz1 - step, -POS_LIMIT_MILLI as int, POS_LIMIT_MILLI as int)
    } else {
        pz1
    };
    let py1 = if key_down(inp, KEY_W) {
        clamp_spec(c.pos_y + step, -POS_LIMIT_MILLI as int, POS_LIMIT_MILLI as int)
    } else {
        c.pos_y as int
    };
    let py2 = if key_down(inp, KEY_S) {
        clamp_spec(py1 - step, -POS_LIMIT_MILLI as int, POS_LIMIT_MILLI as int)
    } else {
        py1
    };
    let px1 = if key_down(inp, KEY_A) {
        clamp_spec(c.pos_x - step, -POS_LIMIT_MILLI as int, POS_LIMIT_MILLI as int)
    } else {
        c.pos_x as int
    };
    let px2 = if key_down(inp, KEY_D) {
        clamp_spec(px1 + step, -POS_LIMIT_MILLI as int, POS_LIMIT_MILLI as int)
    } else {
        px1
    };
    let zt = clamp_spec(
        c.zoom_target - inp.scroll_y * ZOOM_SENSITIVITY_MILLI,
        ZOOM_MIN_MILLI as int,
        ZOOM_MAX_MILLI as int,
    );
    let zoom1 = if c.camera.zoom - zt > ZOOM_DEADZONE_MILLI || c.camera.zoom - zt
        < -ZOOM_DEADZONE_MILLI {
        let k = clamp_spec(3 * delta_ms, 0, 1000);
        clamp_spec(lerp_spec(c.camera.zoom as int, zt, k), 0, MAX_ZOOM_MILLI as int)
    } else {
        c.camera.zoom as int
    };
    let zoom2 = if key_down(inp, KEY_Z) {
        c.camera.zoom_base as int
    } else {
        zoom1
    };
    let zt2 = if key_down(inp, KEY_Z) {
        c.camera.zoom_base as int
    } else {
        zt
    };
    CameraController {
        pos_x: px2 as i64,
        pos_y: py2 as i64,
        pos_z: pz2 as i64,
        camera: CameraOrthographic { zoom: zoom2 as i64, ..c.camera },
        zoom_target: zt2 as i64,
        ..c
    }
}

/// The exact view-projection transform of a controller state: the
/// orthographic projection of its camera, composed with the translation by
/// the negated camera position (the look-at view of a camera that looks
/// straight down the negative z axis).
pub open spec fn is_vp_of(m: VpMatrix, c: CameraController) -> bool {
    &&& m.sx.num == 1000 * c.camera.height && m.sx.den == c.camera.width * c.camera.zoom
    &&& m.sy.num == 1000 && m.sy.den == c.camera.zoom
    &&& m.sz.num == -2000 && m.sz.den == c.camera.far - c.camera.near
    &&& m.tx.num == (1000 * c.camera.height) * (-c.pos_x) && m.tx.den == (c.camera.width
        * c.camera.zoom) * 1000
    &&& m.ty.num == 1000 * (-c.pos_y) && m.ty.den == c.camera.zoom * 1000
    &&& m.tz.num == (-(c.camera.far + c.camera.near)) * 1000 + 2000 * c.pos_z && m.tz.den == (
    c.camera.far - c.camera.near) * 1000
}

impl CameraController {
    pub open spec fn wf(self) -> bool {
        &&& self.camera.wf()
        &&& ZOOM_MIN_MILLI <= self.camera.zoom_base <= ZOOM_MAX_MILLI
        &&& self.speed_base == SPEED_BASE_MILLI
        &&& self.zoom_min == ZOOM_MIN_MILLI
        &&& self.zoom_max == ZOOM_MAX_MILLI
        &&& self.zoom_sensitivity == ZOOM_SENSITIVITY_MILLI
        &&& 0 <= self.zoom_target <= MAX_ZOOM_MILLI
        &&& -POS_LIMIT_MILLI <= self.pos_x <= POS_LIMIT_MILLI
        &&& -POS_LIMIT_MILLI <= self.pos_y <= POS_LIMIT_MILLI
        &&& -POS_LIMIT_MILLI <= self.pos_z <= POS_LIMIT_MILLI
    }

    /// A controller two units in front of the origin, looking down the
    /// negative z axis, with the camera's current zoom as its target.  The
    /// camera's base zoom must lie in the controller's zoom range, so the
    /// reset key lands inside it.
    pub fn new(camera: CameraOrthographic) -> (c: Self)
        requires
            camera.wf(),
            ZOOM_MIN_MILLI <= camera.zoom_base <= ZOOM_MAX_MILLI,
        ensures
            c.wf(),
            c.camera == camera,
            c.pos_x == 0 && c.pos_y == 0 && c.pos_z == 2000,
            c.zoom_target == camera.zoom,
    {
        CameraController {
            speed_base: SPEED_BASE_MILLI,
            pos_x: 0,
            pos_y: 0,
            pos_z: 2000,
            camera,
            zoom_target: camera.zoom,
            zoom_min: ZOOM_MIN_MILLI,
            zoom_max: ZOOM_MAX_MILLI,
            zoom_sensitivity: ZOOM_SENSITIVITY_MILLI,
        }
    }

    /// The movement step for a tick of `delta_ms` milliseconds at the
    /// current zoom.
    fn step_speed(&self, delta_ms: u64) -> (r: i64)
        requires
            self.wf(),
            delta_ms <= DELTA_LIMIT_MS,
        ensures
            r == step_speed_spec(*self, delta_ms),
            0 <= r <= STEP_LIMIT_MILLI,
    {
        proof {
            assert(0 <= 1000 * (delta_ms as int) * (self.camera.zoom as int) <= 1000int * 10_000
                * 1_000_000_000) by (nonlinear_arith)
                requires
                    0 <= delta_ms <= 10_000,
                    0 <= self.camera.zoom <= 1_000_000_000,
            ;
        }
        let prod: u64 = (self.speed_base as u64) * delta_ms * (self.camera.zoom as u64);
        proof {
            lemma_div_pos_is_pos(prod as int, 1_000_000);
            lemma_div_is_ordered(prod as int, 1000int * 10_000 * 1_000_000_000, 1_000_000);
        }
        (prod / 1_000_000) as i64
    }

    fn move_forward(&mut self, speed: i64)
        requires
            old(self).wf(),
            0 <= speed <= STEP_LIMIT_MILLI,
        ensures
            *final(self) == (CameraController {
                pos_z: clamp_spec(
                    old(self).pos_z - speed,
                    -POS_LIMIT_MILLI as int,
                    POS_LIMIT_MILLI as int,
                ) as i64,
                ..*old(self)
            }),
            final(self).wf(),
    {
        self.pos_z = clamp(self.pos_z - speed, -POS_LIMIT_MILLI, POS_LIMIT_MILLI);
    }

    fn move_backward(&mut self, speed: i64)
        requires
            old(self).wf(),
            0 <= speed <= STEP_LIMIT_MILLI,
        ensures
            *final(self) == (CameraController {
                pos_z: clamp_spec(
                    old(self).pos_z + speed,
                    -POS_LIMIT_MILLI as int,
                    POS_LIMIT_MILLI as int,
                ) as i64,
                ..*old(self)
            }),
            final(self).wf(),
    {
        self.pos_z = clamp(self.pos_z + speed, -POS_LIMIT_MILLI, POS_LIMIT_MILLI);
    }

    fn move_up(&mut self, speed: i64)
        requires
            old(self).wf(),
            0 <= speed <= STEP_LIMIT_MILLI,
        ensures
            *final(self) == (CameraController {
                pos_y: clamp_spec(
                    old(self).pos_y + speed,
                    -POS_LIMIT_MILLI as int,
                    POS_LIMIT_MILLI as int,
                ) as i64,
                ..*old(self)
            }),
            final(self).wf(),
    {
        self.pos_y = clamp(self.pos_y + speed, -POS_LIMIT_MILLI, POS_LIMIT_MILLI);
    }

    fn move_down(&mut self, speed: i64)
        requires
            old(self).wf(),
            0 <= speed <= STEP_LIMIT_MILLI,
        ensures
            *final(self) == (CameraController {
                pos_y: clamp_spec(
                    old(self).pos_y - speed,
                    -POS_LIMIT_MILLI as int,
                    POS_LIMIT_MILLI as int,
                ) as i64,
                ..*old(self)
            }),
            final(self).wf(),
    {
        self.pos_y = clamp(self.pos_y - speed, -POS_LIMIT_MILLI, POS_LIMIT_MILLI);
    }

    fn move_left(&mut self, speed: i64)
        requires
            old(self).wf(),
            0 <= speed <= STEP_LIMIT_MILLI,
        ensures
            *final(self) == (CameraController {
                pos_x: clamp_spec(
                    old(self).pos_x - speed,
                    -POS_LIMIT_MILLI as int,
                    POS_LIMIT_MILLI as int,
                ) as i64,
                ..*old(self)
            }),
            final(self).wf(),
    {
        self.pos_x = clamp(self.pos_x - speed, -POS_LIMIT_MILLI, POS_LIMIT_MILLI);
    }

    fn move_right(&mut self, speed: i64)
        requires
            old(self).wf(),
            0 <= speed <= STEP_LIMIT_MILLI,
        ensures
            *final(self) == (CameraController {
                pos_x: clamp_spec(
                    old(self).pos_x + speed,
                    -POS_LIMIT_MILLI as int,
                    POS_LIMIT_MILLI as int,
                ) as i64,
                ..*old(self)
            }),
            final(self).wf(),
    {
        self.pos_x = clamp(self.pos_x + speed, -POS_LIMIT_MILLI, POS_LIMIT_MILLI);
    }

    /// One controller tick: read the held keys and the scroll direction,
    /// move the camera, and smooth the zoom toward its target.
    pub fn on_update(&mut self, input: &InputSystem, delta_ms: u64)
        requires
            old(self).wf(),
            input.wf(),
            delta_ms <= DELTA_LIMIT_MS,
        ensures
            final(self).wf(),
            *final(self) == controller_step(*old(self), *input, delta_ms),
    {
        let speed = self.step_speed(delta_ms);

        if input.is_key_pressed(KEY_Q) {
            self.move_backward(speed);
        }
        if input.is_key_pressed(KEY_E) {
            self.move_forward(speed);
        }
        if input.is_key_pressed(KEY_W) {
            self.move_up(speed);
        }
        if input.is_key_pressed(KEY_S) {
            self.move_down(speed);
        }
        if input.is_key_pressed(KEY_A) {
            self.move_left(speed);
        }
        if input.is_key_pressed(KEY_D) {
            self.move_right(speed);
        }

        // scroll moves the zoom target, clamped to its range
        let scroll = input.mouse_scoll_y();
        self.zoom_target = clamp(
            self.zoom_target - (scroll as i64) * ZOOM_SENSITIVITY_MILLI,
            ZOOM_MIN_MILLI,
            ZOOM_MAX_MILLI,
        );

        // outside the deadzone, interpolate the zoom toward the target
        let diff = self.camera.zoom - self.zoom_target;
        if diff > ZOOM_DEADZONE_MILLI || diff < -ZOOM_DEADZONE_MILLI {
            let k = clamp(3 * (delta_ms as i64), 0, 1000);
            let zoomed = lerp(self.camera.zoom, self.zoom_target, k);
            let amount = zoomed - self.camera.zoom;
            self.camera.set_zoom(amount);
        }

        if input.is_key_pressed(KEY_Z) {
            self.camera.reset_zoom();
            self.zoom_target = self.camera.zoom;
        }
    }

    /// The combined view-projection transform for the current camera state,
    /// exact: the orthographic projection applied to camera-relative
    /// coordinates.
    pub fn view_projection_matrix(&self) -> (m: VpMatrix)
        requires
            self.wf(),
            1 <= self.camera.zoom,
        ensures
            vp_wf(m),
            is_vp_of(m, *self),
    {
        let p = self.camera.projection_matrix();
        let px = self.pos_x as i128;
        let py = self.pos_y as i128;
        let pz = self.pos_z as i128;
        proof {
            assert(0 < p.sx.den <= 0x1_0000_0000i128 * 0x3B9A_CA00i128) by (nonlinear_arith)
                requires
                    p.sx.den == (self.camera.width as int) * (self.camera.zoom as int),
                    1 <= self.camera.width <= 0x1_0000_0000u64,
                    1 <= self.camera.zoom <= 0x3B9A_CA00i64,
            ;
            assert(-0x10_0000_0000_0000_0000_0000_0000i128 <= p.sx.num * (-px)
                <= 0x10_0000_0000_0000_0000_0000_0000i128) by (nonlinear_arith)
                requires
                    0 <= p.sx.num <= 0x3E8_0000_0000i128,
                    -0xE8_D4A5_1000i128 <= px <= 0xE8_D4A5_1000i128,
            ;
        }
        VpMatrix {
            sx: p.sx,
            sy: p.sy,
            sz: p.sz,
            tx: crate::rat::Rat { num: p.sx.num * (-px), den: p.sx.den * 1000 },
            ty: crate::rat::Rat { num: 1000 * (-py), den: p.sy.den * 1000 },
            tz: crate::rat::Rat { num: p.tz.num * 1000 + 2000 * pz, den: p.tz.den * 1000 },
        }
    }
}

/// Interpolating by a fraction in [0, 1] never overshoots: the result lies
/// between the two endpoints.
pub proof fn lemma_lerp_spec_bounded(start: int, end: int, t: int)
    requires
        0 <= t <= 1000,
    ensures
        start <= end ==> start <= lerp_spec(start, end, t) <= end,
        end <= start ==> end <= lerp_spec(start, end, t) <= start,
{
    if start <= end {
        let d = end - start;
        assert(0 <= d * t <= d * 1000) by (nonlinear_arith)
            requires
                0 <= t <= 1000,
                0 <= d,
        ;
        lemma_div_pos_is_pos(d * t, 1000);
        lemma_div_is_ordered(d * t, d * 1000, 1000);
        lemma_div_by_multiple(d, 1000);
    } else {
        let d = start - end;
        assert(0 <= d * t <= d * 1000) by (nonlinear_arith)
            requires
                0 <= t <= 1000,
                0 <= d,
        ;
        lemma_div_pos_is_pos(d * t, 1000);
        lemma_div_is_ordered(d * t, d * 1000, 1000);
        lemma_div_by_multiple(d, 1000);
        assert((end - start) * t == -(d * t)) by (nonlinear_arith)
            requires
                d == start - end,
        ;
    }
}

/// Zoom smoothing: while the reset key is up, a controller tick clamps the
/// scroll-driven target into its bounds and moves the camera zoom toward
/// that target without ever overshooting it — and inside the deadzone the
/// zoom does not move at all.
pub proof fn lemma_zoom_moves_toward_target(c: CameraController, inp: InputSystem, delta_ms: u64)
    requires
        c.wf(),
        inp.wf(),
        delta_ms <= DELTA_LIMIT_MS,
        !key_down(inp, KEY_Z),
    ensures
        ({
            let r = controller_step(c, inp, delta_ms);
            let zt = clamp_spec(
                c.zoom_target - inp.scroll_y * ZOOM_SENSITIVITY_MILLI,
                ZOOM_MIN_MILLI as int,
                ZOOM_MAX_MILLI as int,
            );
            &&& r.zoom_target == zt
            &&& (c.camera.zoom <= zt ==> c.camera.zoom <= r.camera.zoom <= zt)
            &&& (zt <= c.camera.zoom ==> zt <= r.camera.zoom <= c.camera.zoom)
            &&& (-ZOOM_DEADZONE_MILLI <= c.camera.zoom - zt <= ZOOM_DEADZONE_MILLI
                ==> r.camera.zoom == c.camera.zoom)
        }),
{
    let zt = clamp_spec(
        c.zoom_target - inp.scroll_y * ZOOM_SENSITIVITY_MILLI,
        ZOOM_MIN_MILLI as int,
        ZOOM_MAX_MILLI as int,
    );
    let k = clamp_spec(3 * delta_ms, 0, 1000);
    lemma_lerp_spec_bounded(c.camera.zoom as int, zt, k);
}

/// The view-projection transform is exactly "translate by the camera
/// position, then project": for every world point, its clip coordinates
/// under the combined transform equal the projection of its camera-relative
/// coordinates.
pub proof fn lemma_view_then_project(
    c: CameraController,
    m: VpMatrix,
    p: VpMatrix,
    x: int,
    y: int,
    z: int,
)
    requires
        c.wf(),
        1 <= c.camera.zoom,
        is_vp_of(m, c),
        is_ortho_of(p, c.camera),
    ensures
        q_eq(clip_x(m, (x, 1000)), clip_x(p, (x - c.pos_x, 1000))),
        q_eq(clip_y(m, (y, 1000)), clip_y(p, (y - c.pos_y, 1000))),
        q_eq(clip_z(m, (z, 1000)), clip_z(p, (z - c.pos_z, 1000))),
{
    let h = c.camera.height as int;
    let w = c.camera.width as int;
    let zoom = c.camera.zoom as int;
    let n = c.camera.near as int;
    let f = c.camera.far as int;
    let px = c.pos_x as int;
    let py = c.pos_y as int;
    let pz = c.pos_z as int;

    let sxn = 1000 * h;
    let sxd = w * zoom;
    let ax = clip_x(m, (x, 1000));
    let bx = clip_x(p, (x - px, 1000));
    assert(ax.0 == (sxn * x) * (sxd * 1000) + (sxn * (-px)) * (sxd * 1000));
    assert(ax.1 == (sxd * 1000) * (sxd * 1000));
    assert(bx.0 == (sxn * (x - px)) * 1 + 0 * (sxd * 1000));
    assert(bx.1 == (sxd * 1000) * 1);
    assert(ax.0 * bx.1 == bx.0 * ax.1) by (nonlinear_arith)
        requires
            ax.0 == (sxn * x) * (sxd * 1000) + (sxn * (-px)) * (sxd * 1000),
            ax.1 == (sxd * 1000) * (sxd * 1000),
            bx.0 == (sxn * (x - px)) * 1 + 0 * (sxd * 1000),
            bx.1 == (sxd * 1000) * 1,
    ;

    let ay = clip_y(m, (y, 1000));
    let by = clip_y(p, (y - py, 1000));
    assert(ay.0 == (1000 * y) * (zoom * 1000) + (1000 * (-py)) * (zoom * 1000));
    assert(ay.1 == (zoom * 1000) * (zoom * 1000));
    assert(by.0 == (1000 * (y - py)) * 1 + 0 * (zoom * 1000));
    assert(by.1 == (zoom * 1000) * 1);
    assert(ay.0 * by.1 == by.0 * ay.1) by (nonlinear_arith)
        requires
            ay.0 == (1000 * y) * (zoom * 1000) + (1000 * (-py)) * (zoom * 1000),
            ay.1 == (zoom * 1000) * (zoom * 1000),
            by.0 == (1000 * (y - py)) * 1 + 0 * (zoom * 1000),
            by.1 == (zoom * 1000) * 1,
    ;

    let dd = f - n;
    let tzn = -(f + n);
    let az = clip_z(m, (z, 1000));
    let bz = clip_z(p, (z - pz, 1000));
    assert(az.0 == ((-2000) * z) * (dd * 1000) + (tzn * 1000 + 2000 * pz) * (dd * 1000));
    assert(az.1 == (dd * 1000) * (dd * 1000));
    assert(bz.0 == ((-2000) * (z - pz)) * dd + tzn * (dd * 1000));
    assert(bz.1 == (dd * 1000) * dd);
    assert(az.0 * bz.1 == bz.0 * az.1) by (nonlinear_arith)
        requires
            az.0 == ((-2000) * z) * (dd * 1000) + (tzn * 1000 + 2000 * pz) * (dd * 1000),
            az.1 == (dd * 1000) * (dd * 1000),
            bz.0 == ((-2000) * (z - pz)) * dd + tzn * (dd * 1000),
            bz.1 == (dd * 1000) * dd,
    ;
}

} // verus!
