//! Mapping pointer hits into a widget's layout space, and the pixel size at
//! which a widget's text is laid out and rasterized.
//!
//! Layout space has its origin at the widget's top-left corner, with y
//! growing downwards, in physical pixels.
use vstd::prelude::*;
use crate::render_target::{
    scan_spec, Point, RenderTargetError, Size, SourceType, Widget,
};

verus! {

/// The logical-to-physical scale factor, as the ratio `num / den`.
#[derive(Clone, Copy, Debug, PartialEq, Eq, Structural)]
pub struct ScaleFactor {
    pub num: u16,
    pub den: u16,
}

/// A point in the sprite's own frame: centered on the quad, y up.
#[derive(Clone, Copy, Debug, PartialEq, Eq, Structural)]
pub struct HitPoint {
    pub x: i32,
    pub y: i32,
    pub z: i32,
}

/// What the picking backend reports of a pointer hit on a sprite.
#[derive(Clone, Copy, Debug, PartialEq, Eq, Structural)]
pub struct HitData {
    pub position: Option<HitPoint>,
    pub normal: Option<HitPoint>,
}

/// A size in physical pixels.
#[derive(Clone, Copy, Debug, PartialEq, Eq, Structural)]
pub struct PhysicalSize {
    pub width: u64,
    pub height: u64,
}

impl ScaleFactor {
    pub open spec fn wf(self) -> bool {
        self.den > 0
    }

    /// The scale factor 1.
    pub fn identity() -> (r: Self)
        ensures
            r.wf(),
            r.num == 1 && r.den == 1,
    {
        ScaleFactor { num: 1, den: 1 }
    }
}

/// `v` logical pixels in physical pixels, rounded down.
pub open spec fn scaled(v: int, s: ScaleFactor) -> int {
    (v * s.num) / (s.den as int)
}

/// A surface normal that faces the camera, as on a flat 2D quad.
pub open spec fn faces_camera(n: HitPoint) -> bool {
    n.x == 0 && n.y == 0 && n.z > 0
}

/// The layout-space point, before scaling, of a hit at `p` on a sprite of
/// size `size`.
pub open spec fn sprite_local(p: HitPoint, size: Size) -> (int, int) {
    (p.x + size.width as int / 2, size.height as int / 2 - p.y)
}

/// Scales `v` by `s`, rounding down, also for negative `v`.
pub fn scale_coord(v: i64, s: ScaleFactor) -> (r: i64)
    requires
        s.wf(),
        -0x1_0000_0000 <= v <= 0x1_0000_0000,
    ensures
        r == scaled(v as int, s),
{
    let num = s.num as i128;
    let den = s.den as i128;
    assert(-0x1_0000_0000_0000 <= v as int * num <= 0x1_0000_0000_0000) by (nonlinear_arith)
        requires
            -0x1_0000_0000 <= v <= 0x1_0000_0000,
            0 <= num <= 0xffff,
    ;
    let p: i128 = v as i128 * num;
    if p >= 0 {
        let q = p / den;
        assert(0 <= q <= p) by (nonlinear_arith)
            requires
                q == p / den,
                p >= 0,
                den >= 1,
        ;
        q as i64
    } else {
        let m: i128 = -p;
        let q: i128 = (m + den - 1) / den;
        proof {
            let mi = m as int;
            let di = den as int;
            let qi = q as int;
            let ri = (mi + di - 1) % di;
            vstd::arithmetic::div_mod::lemma_fundamental_div_mod(mi + di - 1, di);
            vstd::arithmetic::div_mod::lemma_mod_bound(mi + di - 1, di);
            assert(mi + di - 1 == di * qi + ri);
            assert(p as int == di * (-qi) + (di - 1 - ri)) by (nonlinear_arith)
                requires
                    mi + di - 1 == di * qi + ri,
                    p as int == -mi,
            ;
            vstd::arithmetic::div_mod::lemma_fundamental_div_mod_converse(
                p as int,
                di,
                -qi,
                di - 1 - ri,
            );
            assert(0 <= qi <= mi) by (nonlinear_arith)
                requires
                    mi + di - 1 == di * qi + ri,
                    0 <= ri < di,
                    di >= 1,
                    mi >= 1,
            ;
        }
        (-q) as i64
    }
}

/// Physical pixels for a length of `v` logical pixels.
fn scale_length(v: u32, s: ScaleFactor) -> (r: u64)
    requires
        s.wf(),
    ensures
        r == scaled(v as int, s),
{
    assert(0 <= v as int * s.num as int <= 0xffff_ffff * 0xffff) by (nonlinear_arith)
        requires
            0 <= v <= 0xffff_ffff,
            0 <= s.num <= 0xffff,
    ;
    let p: u64 = v as u64 * s.num as u64;
    assert(p == v as int * s.num) by (nonlinear_arith)
        requires
            p == (v as u64 * s.num as u64) as int,
            0 <= v as int * s.num as int <= 0xffff_ffff * 0xffff,
    ;
    p / s.den as u64
}

/// The layout-space point of a pointer hit on `w`, per its backend.
pub open spec fn cursor_to_local_spec(w: Widget, hit: HitData, s: ScaleFactor) -> Result<
    Point,
    RenderTargetError,
> {
    match scan_spec(w) {
        Err(e) => Err(e),
        Ok(SourceType::Sprite) => if hit.position.is_none() {
            Err(RenderTargetError::SpriteExpectedHitdataPosition)
        } else if hit.normal.is_none() || !faces_camera(hit.normal.unwrap()) {
            Err(RenderTargetError::SpriteUnexpectedNormal)
        } else if w.sprite.is_none() || w.sprite.unwrap().custom_size.is_none() {
            Err(RenderTargetError::SpriteCustomSizeNotSet)
        } else {
            let l = sprite_local(hit.position.unwrap(), w.sprite.unwrap().custom_size.unwrap());
            Ok(Point { x: scaled(l.0, s) as i64, y: scaled(l.1, s) as i64 })
        },
        Ok(SourceType::Ui) => match w.relative_cursor_position {
            None => Err(RenderTargetError::UiExpectedCursorPosition),
            Some(p) => Ok(Point { x: scaled(p.x as int, s) as i64, y: scaled(p.y as int, s) as i64 }),
        },
    }
}

/// The pixel size at which `w` is laid out, per its backend.
pub open spec fn widget_size_spec(w: Widget, s: ScaleFactor) -> Result<PhysicalSize, RenderTargetError> {
    match scan_spec(w) {
        Err(e) => Err(e),
        Ok(SourceType::Sprite) => if w.sprite.is_none() || w.sprite.unwrap().custom_size.is_none() {
            Err(RenderTargetError::SpriteCustomSizeNotSet)
        } else {
            let c = w.sprite.unwrap().custom_size.unwrap();
            Ok(
                PhysicalSize {
                    width: scaled(c.width as int, s) as u64,
                    height: scaled(c.height as int, s) as u64,
                },
            )
        },
        Ok(SourceType::Ui) => Ok(
            PhysicalSize { width: w.node_size.width as u64, height: w.node_size.height as u64 },
        ),
    }
}

/// Converts a pointer hit on `w` into its layout space. For a sprite, `hit`
/// is what picking reported; for a UI node, the node's own relative cursor
/// position is used and `hit` is not read.
pub fn cursor_to_local(w: &Widget, hit: &HitData, s: ScaleFactor) -> (r: Result<Point, RenderTargetError>)
    requires
        s.wf(),
        w.relative_cursor_position.is_some() ==> {
            let p = w.relative_cursor_position.unwrap();
            -0x1_0000_0000 <= p.x <= 0x1_0000_0000 && -0x1_0000_0000 <= p.y <= 0x1_0000_0000
        },
    ensures
        r == cursor_to_local_spec(*w, *hit, s),
{
    match w.scan() {
        Err(e) => Err(e),
        Ok(SourceType::Sprite) => {
            let position = match hit.position {
                None => {
                    return Err(RenderTargetError::SpriteExpectedHitdataPosition);
                },
                Some(p) => p,
            };
            match hit.normal {
                Some(n) => {
                    if !(n.x == 0 && n.y == 0 && n.z > 0) {
                        return Err(RenderTargetError::SpriteUnexpectedNormal);
                    }
                },
                None => {
                    return Err(RenderTargetError::SpriteUnexpectedNormal);
                },
            }
            let size = match &w.sprite {
                Some(sprite) => match sprite.custom_size {
                    Some(c) => c,
                    None => {
                        return Err(RenderTargetError::SpriteCustomSizeNotSet);
                    },
                },
                None => {
                    return Err(RenderTargetError::SpriteCustomSizeNotSet);
                },
            };
            let lx: i64 = position.x as i64 + (size.width / 2) as i64;
            let ly: i64 = (size.height / 2) as i64 - position.y as i64;
            Ok(Point { x: scale_coord(lx, s), y: scale_coord(ly, s) })
        },
        Ok(SourceType::Ui) => match w.relative_cursor_position {
            None => Err(RenderTargetError::UiExpectedCursorPosition),
            Some(p) => Ok(Point { x: scale_coord(p.x, s), y: scale_coord(p.y, s) }),
        },
    }
}

/// The pixel size at which the text of `w` is laid out and rasterized.
pub fn widget_size(w: &Widget, s: ScaleFactor) -> (r: Result<PhysicalSize, RenderTargetError>)
    requires
        s.wf(),
    ensures
        r == widget_size_spec(*w, s),
{
    match w.scan() {
        Err(e) => Err(e),
        Ok(SourceType::Sprite) => match &w.sprite {
            Some(sprite) => match sprite.custom_size {
                Some(c) => Ok(
                    PhysicalSize { width: scale_length(c.width, s), height: scale_length(c.height, s) },
                ),
                None => Err(RenderTargetError::SpriteCustomSizeNotSet),
            },
            None => Err(RenderTargetError::SpriteCustomSizeNotSet),
        },
        Ok(SourceType::Ui) => Ok(
            PhysicalSize { width: w.node_size.width as u64, height: w.node_size.height as u64 },
        ),
    }
}

/// A hit at the exact center of a sprite with custom size `size` maps, at
/// scale 1, to the center of the layout space: half the width and half the
/// height, rounded down.
pub proof fn lemma_sprite_center_maps_to_layout_center(w: Widget, size: Size, z: i32)
    requires
        scan_spec(w) == Ok::<SourceType, RenderTargetError>(SourceType::Sprite),
        w.sprite.is_some() && w.sprite.unwrap().custom_size == Some(size),
        z > 0,
    ensures
        cursor_to_local_spec(
            w,
            HitData {
                position: Some(HitPoint { x: 0, y: 0, z: 0 }),
                normal: Some(HitPoint { x: 0, y: 0, z }),
            },
            ScaleFactor { num: 1, den: 1 },
        ) == Ok::<Point, RenderTargetError>(
            Point { x: (size.width / 2) as i64, y: (size.height / 2) as i64 },
        ),
{
}

} // verus!
