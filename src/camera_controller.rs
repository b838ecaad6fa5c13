//! An orbit camera: yaw and pitch from pointer drags, a clamped zoom from the
//! scroll wheel, a focus point that lags behind the tracked target, and a pan
//! offset that grows with the zoom distance.
use vstd::prelude::*;

verus! {

/// One full turn in micro-turns.
pub const FULL_TURN: i64 = 1_000_000;

/// The fraction 1.0 in parts per million.
pub const UNIT: u32 = 1_000_000;

/// A pan offset in µm: `x` to the camera's right, `y` to its up.
#[derive(PartialEq, Eq, Structural, Clone, Copy, Debug)]
pub struct Offset {
    pub x: i64,
    pub y: i64,
}

/// A point in world space, in µm.
#[derive(PartialEq, Eq, Structural, Clone, Copy, Debug)]
pub struct Point3 {
    pub x: i64,
    pub y: i64,
    pub z: i64,
}

/// The configuration of a camera, fixed at construction.
#[derive(PartialEq, Eq, Structural, Clone, Copy, Debug)]
pub struct CameraControllerDescriptor {
    /// Closest zoom distance, in µm.
    pub min_radius: u64,
    /// Farthest zoom distance, in µm.
    pub max_radius: u64,
    /// Pan offset at the farthest zoom.
    pub max_offset: Offset,
    /// Pan offset at the closest zoom.
    pub min_offset: Offset,
    /// Turns per viewport-wide drag, in parts per million.
    pub mouse_sensitivity: u32,
    /// Zoom distance per scroll line, in µm.
    pub zoom_sensitivity: u32,
    /// Fraction of the remaining gap that the focus covers per tick, in parts
    /// per million.
    pub movement_smoothness: u32,
}

/// The state of the orbit camera.
#[derive(PartialEq, Eq, Structural, Clone, Copy, Debug)]
pub struct CameraController {
    /// Rotation about the vertical axis, in micro-turns within one turn.
    pub yaw: i64,
    /// Rotation about the camera's horizontal axis, in micro-turns within one
    /// turn.
    pub pitch: i64,
    /// Current distance from the focus point, in µm.
    pub radius: u64,
    /// Distance that `radius` approaches, in µm.
    pub radius_target: u64,
    pub min_radius: u64,
    pub max_radius: u64,
    pub max_offset: Offset,
    pub min_offset: Offset,
    /// The point the camera orbits.
    pub focus: Point3,
    pub mouse_sensitivity: u32,
    pub zoom_sensitivity: u32,
    pub movement_smoothness: u32,
    /// The distance taken when the focus button went down, restored when it
    /// comes up.
    pub aim_radius: u64,
}

/// `n / d` rounded toward zero, for `d > 0`.
pub open spec fn toward_zero(n: int, d: int) -> int {
    if n >= 0 {
        n / d
    } else {
        -((-n) / d)
    }
}

/// `ppm` parts per million of `d`, rounded toward zero.
pub open spec fn fraction_of(d: int, ppm: int) -> int {
    toward_zero(d * ppm, UNIT as int)
}

/// The angle in micro-turns that a pointer movement of `delta` pixels across
/// a viewport `extent` pixels long turns; nothing for an empty viewport.
pub open spec fn turn_of(delta: int, sensitivity: int, extent: int) -> int {
    if extent == 0 {
        0
    } else {
        toward_zero(delta * sensitivity, extent)
    }
}

/// An angle brought into one turn.
pub open spec fn wrap_angle(a: int) -> int {
    a % (FULL_TURN as int)
}

/// `v` limited to `[lo, hi]`.
pub open spec fn clamp(v: int, lo: int, hi: int) -> int {
    if v < lo {
        lo
    } else if v > hi {
        hi
    } else {
        v
    }
}

/// The zoom target after `scroll` lines; a negative scroll zooms out.
pub open spec fn zoom_step(target: int, scroll: int, sensitivity: int, lo: int, hi: int) -> int {
    clamp(target - scroll * sensitivity, lo, hi)
}

/// Halfway from `radius` to `target`, rounded toward `target`.
pub open spec fn half_step(radius: int, target: int) -> int {
    if target >= radius {
        target - (target - radius) / 2
    } else {
        target + (radius - target) / 2
    }
}

/// Where the zoom distance lies between its bounds, in parts per million;
/// zero when the bounds coincide.
pub open spec fn pan_fraction_spec(radius: int, lo: int, hi: int) -> int {
    if hi == lo {
        0
    } else {
        (radius - lo) * (UNIT as int) / (hi - lo)
    }
}

/// The value `fraction` parts per million of the way from `from` to `to`,
/// rounded toward `from`.
pub open spec fn lerp(from: int, to: int, fraction: int) -> int {
    from + fraction_of(to - from, fraction)
}

/// The zoom distance of a new camera: the middle of its range, rounded down.
pub open spec fn initial_radius(lo: int, hi: int) -> int {
    lo + (hi - lo) / 2
}

impl CameraController {
    /// The zoom bounds are ordered and every distance lies within them, the
    /// smoothness is a fraction, and both angles lie within one turn.
    pub open spec fn wf(&self) -> bool {
        &&& self.min_radius <= self.max_radius
        &&& self.min_radius <= self.radius <= self.max_radius
        &&& self.min_radius <= self.radius_target <= self.max_radius
        &&& self.min_radius <= self.aim_radius <= self.max_radius
        &&& self.movement_smoothness <= UNIT
        &&& 0 <= self.yaw < FULL_TURN
        &&& 0 <= self.pitch < FULL_TURN
    }
}

/// `fraction_of` stays between zero and `d`.
proof fn lemma_fraction_between(d: int, ppm: int)
    requires
        0 <= ppm <= UNIT,
    ensures
        d >= 0 ==> 0 <= fraction_of(d, ppm) <= d,
        d < 0 ==> d <= fraction_of(d, ppm) <= 0,
{
    let u = UNIT as int;
    if d >= 0 {
        assert(0 <= d * ppm <= d * u) by (nonlinear_arith)
            requires
                d >= 0,
                0 <= ppm <= u,
        ;
        assert(d * u / u == d) by (nonlinear_arith)
            requires
                u > 0,
        ;
        assert(0 <= (d * ppm) / u <= (d * u) / u) by (nonlinear_arith)
            requires
                0 <= d * ppm <= d * u,
                u > 0,
        ;
    } else {
        let m = -d;
        assert(d * ppm == -(m * ppm)) by (nonlinear_arith)
            requires
                m == -d,
        ;
        assert(0 <= m * ppm <= m * u) by (nonlinear_arith)
            requires
                m > 0,
                0 <= ppm <= u,
        ;
        assert(m * u / u == m) by (nonlinear_arith)
            requires
                u > 0,
        ;
        assert(0 <= (m * ppm) / u <= (m * u) / u) by (nonlinear_arith)
            requires
                0 <= m * ppm <= m * u,
                u > 0,
        ;
    }
}

/// `ppm` parts per million of `d`, rounded toward zero.
fn fraction(d: i128, ppm: u32) -> (r: i128)
    requires
        -0x1_0000_0000_0000_0000_0000 <= d <= 0x1_0000_0000_0000_0000_0000,
        ppm <= UNIT,
    ensures
        r == fraction_of(d as int, ppm as int),
        d >= 0 ==> 0 <= r <= d,
        d < 0 ==> d <= r <= 0,
{
    proof {
        lemma_fraction_between(d as int, ppm as int);
    }
    let scale: i128 = ppm as i128;
    if d >= 0 {
        assert(0 <= d * scale <= 0x1_0000_0000_0000_0000_0000 * 1_000_000) by (nonlinear_arith)
            requires
                0 <= d <= 0x1_0000_0000_0000_0000_0000,
                0 <= scale <= 1_000_000,
        ;
        (d * scale) / 1_000_000
    } else {
        let m: i128 = -d;
        assert(0 <= m * scale <= 0x1_0000_0000_0000_0000_0000 * 1_000_000) by (nonlinear_arith)
            requires
                0 <= m <= 0x1_0000_0000_0000_0000_0000,
                0 <= scale <= 1_000_000,
        ;
        assert(d * scale == -(m * scale)) by (nonlinear_arith)
            requires
                m == -d,
        ;
        -((m * scale) / 1_000_000)
    }
}

/// `lerp` on machine integers.
fn interpolate(from: i64, to: i64, fraction_ppm: u32) -> (r: i64)
    requires
        fraction_ppm <= UNIT,
    ensures
        r == lerp(from as int, to as int, fraction_ppm as int),
        from <= to ==> from <= r <= to,
        to < from ==> to <= r <= from,
{
    let gap: i128 = (to as i128) - (from as i128);
    let step: i128 = fraction(gap, fraction_ppm);
    ((from as i128) + step) as i64
}

/// The angle that a pointer movement turns, as `turn_of` gives it.
fn turn(delta: i64, sensitivity: u32, extent: u32) -> (r: i128)
    ensures
        r == turn_of(delta as int, sensitivity as int, extent as int),
        -0x1_0000_0000_0000_0000_0000_0000 <= r <= 0x1_0000_0000_0000_0000_0000_0000,
{
    if extent == 0 {
        0
    } else {
        let d: i128 = delta as i128;
        let k: i128 = sensitivity as i128;
        assert(-0x8000_0000_0000_0000 * 0x1_0000_0000 <= d * k <= 0x8000_0000_0000_0000
            * 0x1_0000_0000) by (nonlinear_arith)
            requires
                -0x8000_0000_0000_0000 <= d <= 0x8000_0000_0000_0000,
                0 <= k <= 0x1_0000_0000,
        ;
        let n: i128 = d * k;
        let e: i128 = extent as i128;
        if n >= 0 {
            assert(n / e <= n) by (nonlinear_arith)
                requires
                    n >= 0,
                    e >= 1,
            ;
            n / e
        } else {
            let m: i128 = -n;
            assert(m / e <= m) by (nonlinear_arith)
                requires
                    m >= 0,
                    e >= 1,
            ;
            -(m / e)
        }
    }
}

/// `angle - turn`, brought into one turn.
fn rotate(angle: i64, turn: i128) -> (r: i64)
    requires
        -0x1_0000_0000_0000_0000_0000_0000 <= turn <= 0x1_0000_0000_0000_0000_0000_0000,
    ensures
        r == wrap_angle(angle - turn),
        0 <= r < FULL_TURN,
{
    let a: i128 = (angle as i128) - turn;
    match a.checked_rem_euclid(FULL_TURN as i128) {
        Some(w) => w as i64,
        None => 0,
    }
}

impl CameraController {
    /// A camera at the middle of its zoom range, looking along the default
    /// axes at the origin.
    pub fn new(descriptor: CameraControllerDescriptor) -> (c: CameraController)
        requires
            descriptor.min_radius <= descriptor.max_radius,
            descriptor.movement_smoothness <= UNIT,
        ensures
            c.wf(),
            c.radius == initial_radius(descriptor.min_radius as int, descriptor.max_radius as int),
            c.radius_target == c.radius,
            c.aim_radius == c.radius,
            c.yaw == 0,
            c.pitch == 0,
            c.focus == (Point3 { x: 0, y: 0, z: 0 }),
            c.min_radius == descriptor.min_radius,
            c.max_radius == descriptor.max_radius,
            c.min_offset == descriptor.min_offset,
            c.max_offset == descriptor.max_offset,
            c.mouse_sensitivity == descriptor.mouse_sensitivity,
            c.zoom_sensitivity == descriptor.zoom_sensitivity,
            c.movement_smoothness == descriptor.movement_smoothness,
    {
        let radius: u64 = descriptor.min_radius + (descriptor.max_radius - descriptor.min_radius)
            / 2;
        CameraController {
            yaw: 0,
            pitch: 0,
            radius,
            radius_target: radius,
            min_radius: descriptor.min_radius,
            max_radius: descriptor.max_radius,
            max_offset: descriptor.max_offset,
            min_offset: descriptor.min_offset,
            focus: Point3 { x: 0, y: 0, z: 0 },
            mouse_sensitivity: descriptor.mouse_sensitivity,
            zoom_sensitivity: descriptor.zoom_sensitivity,
            movement_smoothness: descriptor.movement_smoothness,
            aim_radius: radius,
        }
    }

    /// Turns the camera by a pointer drag of `(dx, dy)` pixels over a viewport
    /// of `width` by `height` pixels: a drag across the whole viewport turns
    /// by `mouse_sensitivity` turns. Pitch is not clamped.
    pub fn orbit(&mut self, dx: i64, dy: i64, width: u32, height: u32)
        requires
            old(self).wf(),
        ensures
            final(self).wf(),
            final(self).yaw == wrap_angle(
                old(self).yaw - turn_of(dx as int, old(self).mouse_sensitivity as int, width as int),
            ),
            final(self).pitch == wrap_angle(
                old(self).pitch - turn_of(
                    dy as int,
                    old(self).mouse_sensitivity as int,
                    height as int,
                ),
            ),
            *final(self) == (CameraController {
                yaw: final(self).yaw,
                pitch: final(self).pitch,
                ..*old(self)
            }),
    {
        let yaw_turn: i128 = turn(dx, self.mouse_sensitivity, width);
        let pitch_turn: i128 = turn(dy, self.mouse_sensitivity, height);
        self.yaw = rotate(self.yaw, yaw_turn);
        self.pitch = rotate(self.pitch, pitch_turn);
    }

    /// Moves the zoom target by `scroll` lines, within the zoom bounds; a
    /// negative scroll moves it away.
    pub fn zoom(&mut self, scroll: i64)
        requires
            old(self).wf(),
        ensures
            final(self).wf(),
            final(self).radius_target == zoom_step(
                old(self).radius_target as int,
                scroll as int,
                old(self).zoom_sensitivity as int,
                old(self).min_radius as int,
                old(self).max_radius as int,
            ),
            *final(self) == (CameraController {
                radius_target: final(self).radius_target,
                ..*old(self)
            }),
    {
        let lines: i128 = scroll as i128;
        let k: i128 = self.zoom_sensitivity as i128;
        assert(-0x8000_0000_0000_0000 * 0x1_0000_0000 <= lines * k <= 0x8000_0000_0000_0000
            * 0x1_0000_0000) by (nonlinear_arith)
            requires
                -0x8000_0000_0000_0000 <= lines <= 0x8000_0000_0000_0000,
                0 <= k <= 0x1_0000_0000,
        ;
        let moved: i128 = (self.radius_target as i128) - lines * k;
        if moved < self.min_radius as i128 {
            self.radius_target = self.min_radius;
        } else if moved > self.max_radius as i128 {
            self.radius_target = self.max_radius;
        } else {
            self.radius_target = moved as u64;
        }
    }

    /// The focus button: when it goes down the current distance is kept and
    /// the camera zooms to its closest; when it comes up the kept distance
    /// becomes the target again.
    pub fn focus_with_button(&mut self, just_pressed: bool, just_released: bool)
        requires
            old(self).wf(),
        ensures
            final(self).wf(),
            just_pressed ==> *final(self) == (CameraController {
                aim_radius: old(self).radius,
                radius_target: old(self).min_radius,
                ..*old(self)
            }),
            !just_pressed && just_released ==> *final(self) == (CameraController {
                radius_target: old(self).aim_radius,
                ..*old(self)
            }),
            !just_pressed && !just_released ==> *final(self) == *old(self),
    {
        if just_pressed {
            self.aim_radius = self.radius;
            self.radius_target = self.min_radius;
        } else if just_released {
            self.radius_target = self.aim_radius;
        }
    }

    /// Where the zoom distance lies between its bounds, in parts per million.
    pub fn pan_fraction(&self) -> (p: u32)
        requires
            self.wf(),
        ensures
            p == pan_fraction_spec(
                self.radius as int,
                self.min_radius as int,
                self.max_radius as int,
            ),
            p <= UNIT,
    {
        proof {
            lemma_pan_fraction_in_unit(
                self.radius as int,
                self.min_radius as int,
                self.max_radius as int,
            );
        }
        if self.max_radius == self.min_radius {
            0
        } else {
            let above: u128 = (self.radius - self.min_radius) as u128;
            let span: u128 = (self.max_radius - self.min_radius) as u128;
            assert(above * 1_000_000 <= 0x1_0000_0000_0000_0000 * 1_000_000) by (nonlinear_arith)
                requires
                    above <= 0x1_0000_0000_0000_0000,
            ;
            ((above * 1_000_000) / span) as u32
        }
    }

    /// The pan offset for the current zoom distance: `min_offset` at the
    /// closest zoom, `max_offset` at the farthest, linear in between.
    pub fn pan_offset(&self) -> (o: Offset)
        requires
            self.wf(),
        ensures
            o.x == lerp(
                self.min_offset.x as int,
                self.max_offset.x as int,
                pan_fraction_spec(
                    self.radius as int,
                    self.min_radius as int,
                    self.max_radius as int,
                ),
            ),
            o.y == lerp(
                self.min_offset.y as int,
                self.max_offset.y as int,
                pan_fraction_spec(
                    self.radius as int,
                    self.min_radius as int,
                    self.max_radius as int,
                ),
            ),
    {
        let p: u32 = self.pan_fraction();
        Offset {
            x: interpolate(self.min_offset.x, self.max_offset.x, p),
            y: interpolate(self.min_offset.y, self.max_offset.y, p),
        }
    }

    /// One tick of following `target`: the distance goes halfway to its
    /// target, the focus covers `movement_smoothness` of its gap to `target`,
    /// and the pan offset for the new distance is returned.
    pub fn sync(&mut self, target: &Point3) -> (pan: Offset)
        requires
            old(self).wf(),
        ensures
            final(self).wf(),
            final(self).radius == half_step(
                old(self).radius as int,
                old(self).radius_target as int,
            ),
            final(self).focus.x == lerp(
                old(self).focus.x as int,
                target.x as int,
                old(self).movement_smoothness as int,
            ),
            final(self).focus.y == lerp(
                old(self).focus.y as int,
                target.y as int,
                old(self).movement_smoothness as int,
            ),
            final(self).focus.z == lerp(
                old(self).focus.z as int,
                target.z as int,
                old(self).movement_smoothness as int,
            ),
            *final(self) == (CameraController {
                radius: final(self).radius,
                focus: final(self).focus,
                ..*old(self)
            }),
            pan.x == lerp(
                old(self).min_offset.x as int,
                old(self).max_offset.x as int,
                pan_fraction_spec(
                    final(self).radius as int,
                    old(self).min_radius as int,
                    old(self).max_radius as int,
                ),
            ),
            pan.y == lerp(
                old(self).min_offset.y as int,
                old(self).max_offset.y as int,
                pan_fraction_spec(
                    final(self).radius as int,
                    old(self).min_radius as int,
                    old(self).max_radius as int,
                ),
            ),
    {
        if self.radius_target >= self.radius {
            self.radius = self.radius_target - (self.radius_target - self.radius) / 2;
        } else {
            self.radius = self.radius_target + (self.radius - self.radius_target) / 2;
        }
        let s: u32 = self.movement_smoothness;
        self.focus = Point3 {
            x: interpolate(self.focus.x, target.x, s),
            y: interpolate(self.focus.y, target.y, s),
            z: interpolate(self.focus.z, target.z, s),
        };
        self.pan_offset()
    }
}

/// The pan fraction lies in `[0, 1]` whenever the distance lies within its
/// bounds, and is zero, not undefined, when the bounds coincide.
pub proof fn lemma_pan_fraction_in_unit(radius: int, lo: int, hi: int)
    ensures
        lo <= radius <= hi ==> 0 <= pan_fraction_spec(radius, lo, hi) <= UNIT,
        lo == hi ==> pan_fraction_spec(radius, lo, hi) == 0,
{
    if lo <= radius <= hi && lo != hi {
        let u = UNIT as int;
        let a = radius - lo;
        let s = hi - lo;
        assert(0 <= a * u <= s * u) by (nonlinear_arith)
            requires
                0 <= a <= s,
                u > 0,
        ;
        assert(s * u / s == u) by (nonlinear_arith)
            requires
                s > 0,
        ;
        assert(0 <= (a * u) / s <= (s * u) / s) by (nonlinear_arith)
            requires
                0 <= a * u <= s * u,
                s > 0,
        ;
    }
}

/// The zoom target after each scroll of `scrolls` in turn.
pub open spec fn zoom_all(target: int, scrolls: Seq<int>, sensitivity: int, lo: int, hi: int) -> int
    decreases scrolls.len(),
{
    if scrolls.len() == 0 {
        target
    } else {
        zoom_step(
            zoom_all(target, scrolls.drop_last(), sensitivity, lo, hi),
            scrolls.last(),
            sensitivity,
            lo,
            hi,
        )
    }
}

/// One coordinate of the focus after `n` ticks of following a still target.
pub open spec fn follow_ticks(focus: int, target: int, smoothness: int, n: nat) -> int
    decreases n,
{
    if n == 0 {
        focus
    } else {
        lerp(follow_ticks(focus, target, smoothness, (n - 1) as nat), target, smoothness)
    }
}

/// The distance between two coordinates.
pub open spec fn gap(a: int, b: int) -> int {
    if a >= b {
        a - b
    } else {
        b - a
    }
}

/// Whatever the scrolls, the zoom target stays within the zoom bounds.
pub proof fn lemma_zoom_stays_in_bounds(
    target: int,
    scrolls: Seq<int>,
    sensitivity: int,
    lo: int,
    hi: int,
)
    requires
        lo <= hi,
        lo <= target <= hi,
    ensures
        lo <= zoom_all(target, scrolls, sensitivity, lo, hi) <= hi,
    decreases scrolls.len(),
{
    if scrolls.len() > 0 {
        lemma_zoom_stays_in_bounds(target, scrolls.drop_last(), sensitivity, lo, hi);
    }
}

/// Following a still target, each tick brings a focus coordinate no farther
/// from it and never past it; once the coordinate reaches the target it stays.
pub proof fn lemma_focus_settles(focus: int, target: int, smoothness: int, n: nat)
    requires
        0 <= smoothness <= UNIT,
    ensures
        gap(follow_ticks(focus, target, smoothness, n + 1), target) <= gap(
            follow_ticks(focus, target, smoothness, n),
            target,
        ),
        follow_ticks(focus, target, smoothness, n) <= target ==> follow_ticks(
            focus,
            target,
            smoothness,
            n + 1,
        ) <= target,
        follow_ticks(focus, target, smoothness, n) >= target ==> follow_ticks(
            focus,
            target,
            smoothness,
            n + 1,
        ) >= target,
        follow_ticks(focus, target, smoothness, n) == target ==> follow_ticks(
            focus,
            target,
            smoothness,
            n + 1,
        ) == target,
{
    let f = follow_ticks(focus, target, smoothness, n);
    lemma_fraction_between(target - f, smoothness);
    assert(follow_ticks(focus, target, smoothness, n + 1) == lerp(f, target, smoothness));
}

} // verus!
