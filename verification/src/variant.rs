use vstd::prelude::*;

verus! {

/// The closed set of renderings a stored image can be requested in.
///
/// `Original` is never transformed: it names the byte-for-byte upload
/// payload. Every other variant is a pure policy key carrying a target
/// bounding box (see [`spec_target_box`]).
#[derive(Clone, Copy, Debug, PartialEq, Eq, Structural)]
pub enum Variant {
    Public,
    Embed,
    Thumb,
    Banner,
    Square,
    Original,
}

pub open spec fn spec_variant_name(v: Variant) -> Seq<char> {
    match v {
        Variant::Public => "public"@,
        Variant::Embed => "embed"@,
        Variant::Thumb => "thumb"@,
        Variant::Banner => "banner"@,
        Variant::Square => "square"@,
        Variant::Original => "original"@,
    }
}

pub open spec fn spec_variant_of_name(s: Seq<char>) -> Variant {
    if s == "public"@ {
        Variant::Public
    } else if s == "embed"@ {
        Variant::Embed
    } else if s == "thumb"@ {
        Variant::Thumb
    } else if s == "banner"@ {
        Variant::Banner
    } else if s == "square"@ {
        Variant::Square
    } else {
        Variant::Original
    }
}

/// The fixed bounding box of a non-`Embed`, non-`Original` variant.
pub open spec fn spec_fixed_box(v: Variant) -> (int, int) {
    match v {
        Variant::Public => (1024, 768),
        Variant::Thumb => (256, 256),
        Variant::Banner => (800, 400),
        Variant::Square => (320, 320),
        Variant::Embed => (0, 0),
        Variant::Original => (0, 0),
    }
}

/// Fits a `w` x `h` source into a `bw` x `bh` box: a source already
/// within the box is unchanged (no upscaling), a larger one is scaled
/// down to touch the box on its tighter side, preserving the aspect
/// ratio with floor division — never beyond the box, never cropped.
pub open spec fn spec_fit_box(bw: int, bh: int, w: int, h: int) -> (int, int)
    recommends
        bw >= 1,
        bh >= 1,
        w >= 1,
        h >= 1,
{
    if w <= bw && h <= bh {
        (w, h)
    } else if w * bh >= h * bw {
        (bw, h * bw / w)
    } else {
        (w * bh / h, bh)
    }
}

/// The target dimensions a non-`Original` variant is rendered at, as a
/// pure function of the variant and the source dimensions.
///
/// The fixed-box variants fit the source into their box preserving the
/// source aspect ratio (floor division, no cropping, no upscaling).
/// `Embed` is the same policy with only a width bound: it caps the
/// width at 1024 and scales the height by the same factor. For
/// `Original` no box exists; the result is unused.
pub open spec fn spec_target_box(v: Variant, w: int, h: int) -> (int, int)
    recommends
        !(v is Original),
        w >= 1,
        h >= 1,
{
    match v {
        Variant::Embed => ({
            let dw = if w <= 1024 {
                w
            } else {
                1024
            };
            (dw, h * dw / w)
        }),
        Variant::Original => (0, 0),
        _ => ({
            let (bw, bh) = spec_fixed_box(v);
            spec_fit_box(bw, bh, w, h)
        }),
    }
}

impl Variant {
    /// The lower-case name of the variant, as it appears in storage keys.
    pub fn name(&self) -> (r: &'static str)
        ensures
            r@ == spec_variant_name(*self),
    {
        match self {
            Variant::Public => "public",
            Variant::Embed => "embed",
            Variant::Thumb => "thumb",
            Variant::Banner => "banner",
            Variant::Square => "square",
            Variant::Original => "original",
        }
    }

    /// Parses a variant from its lower-case name; any unknown name maps
    /// to `Original`.
    pub fn from_name(s: &str) -> (v: Variant)
        ensures
            v == spec_variant_of_name(s@),
    {
        let owned = s.to_owned();
        if owned == String::from_str("public") {
            Variant::Public
        } else if owned == String::from_str("embed") {
            Variant::Embed
        } else if owned == String::from_str("thumb") {
            Variant::Thumb
        } else if owned == String::from_str("banner") {
            Variant::Banner
        } else if owned == String::from_str("square") {
            Variant::Square
        } else {
            Variant::Original
        }
    }

    /// Computes the target dimensions for a non-`Original` variant and
    /// source dimensions `w` x `h`, failing exactly when a scaled
    /// dimension leaves `u32` range (zero included: a degenerate
    /// aspect ratio can floor a dimension to nothing).
    pub fn target_box(&self, w: u32, h: u32) -> (r: Option<(u32, u32)>)
        requires
            !(*self is Original),
            w >= 1,
            h >= 1,
        ensures
            ({
                let (dw, dh) = spec_target_box(*self, w as int, h as int);
                match r {
                    Some(p) => p.0 == dw && p.1 == dh && 1 <= dw <= u32::MAX && 1 <= dh
                        <= u32::MAX,
                    None => !(1 <= dw <= u32::MAX && 1 <= dh <= u32::MAX),
                }
            }),
    {
        match self {
            Variant::Public => fit_box(1024, 768, w, h),
            Variant::Thumb => fit_box(256, 256, w, h),
            Variant::Banner => fit_box(800, 400, w, h),
            Variant::Square => fit_box(320, 320, w, h),
            Variant::Embed => {
                let dw: u32 = if w <= 1024 {
                    w
                } else {
                    1024
                };
                proof {
                    lemma_embed_height_bounds(w as int, h as int, dw as int);
                }
                let wide: u64 = (h as u64) * (dw as u64);
                let dh: u64 = wide / (w as u64);
                if dh == 0 || dh > (u32::MAX as u64) {
                    None
                } else {
                    Some((dw, dh as u32))
                }
            },
            Variant::Original => None,
        }
    }
}

/// Fitting into a box keeps each dimension within the box and never
/// enlarges the source.
proof fn lemma_fit_box_bounds(bw: int, bh: int, w: int, h: int)
    requires
        1 <= bw,
        1 <= bh,
        1 <= w,
        1 <= h,
    ensures
        ({
            let (dw, dh) = spec_fit_box(bw, bh, w, h);
            0 <= dw <= bw && 0 <= dh <= bh && dw <= w && dh <= h
        }),
{
    broadcast use vstd::arithmetic::div_mod::lemma_div_is_ordered;

    if w <= bw && h <= bh {
    } else if w * bh >= h * bw {
        assert(w >= bw) by (nonlinear_arith)
            requires
                w * bh >= h * bw && !(w <= bw && h <= bh) && 1 <= bw && 1 <= bh && 1 <= w && 1
                    <= h,
        ;
        assert((h * bw) / w <= (w * bh) / w);
        assert((w * bh) / w == bh) by {
            vstd::arithmetic::div_mod::lemma_div_multiples_vanish(bh, w);
            assert(w * bh == bh * w) by (nonlinear_arith);
        }
        assert(h * bw <= h * w) by (nonlinear_arith)
            requires
                bw <= w && 1 <= h,
        ;
        assert((h * bw) / w <= (h * w) / w);
        assert((h * w) / w == h) by {
            vstd::arithmetic::div_mod::lemma_div_multiples_vanish(h, w);
            assert(h * w == w * h) by (nonlinear_arith);
        }
        assert((h * bw) / w >= 0) by (nonlinear_arith)
            requires
                1 <= w && 1 <= h && 1 <= bw,
        ;
    } else {
        assert(h >= bh) by (nonlinear_arith)
            requires
                w * bh < h * bw && !(w <= bw && h <= bh) && 1 <= bw && 1 <= bh && 1 <= w && 1
                    <= h,
        ;
        assert((w * bh) / h <= (h * bw) / h);
        assert((h * bw) / h == bw) by {
            vstd::arithmetic::div_mod::lemma_div_multiples_vanish(bw, h);
            assert(h * bw == bw * h) by (nonlinear_arith);
        }
        assert(w * bh <= w * h) by (nonlinear_arith)
            requires
                bh <= h && 1 <= w,
        ;
        assert((w * bh) / h <= (w * h) / h);
        assert((w * h) / h == w) by {
            vstd::arithmetic::div_mod::lemma_div_multiples_vanish(w, h);
            assert(w * h == h * w) by (nonlinear_arith);
        }
        assert((w * bh) / h >= 0) by (nonlinear_arith)
            requires
                1 <= w && 1 <= h && 1 <= bh,
        ;
    }
}

/// Fits `w` x `h` into the `bw` x `bh` box (scaling down only),
/// preserving the aspect ratio with floor division; `None` exactly
/// when the scaled dimension floors to zero.
fn fit_box(bw: u32, bh: u32, w: u32, h: u32) -> (r: Option<(u32, u32)>)
    requires
        1 <= bw <= 1024,
        1 <= bh <= 1024,
        w >= 1,
        h >= 1,
    ensures
        ({
            let (dw, dh) = spec_fit_box(bw as int, bh as int, w as int, h as int);
            match r {
                Some(p) => p.0 == dw && p.1 == dh && 1 <= dw && 1 <= dh,
                None => dw < 1 || dh < 1,
            }
        }),
{
    proof {
        lemma_embed_height_bounds(w as int, h as int, bw as int);
        lemma_embed_height_bounds(h as int, w as int, bh as int);
        lemma_fit_box_bounds(bw as int, bh as int, w as int, h as int);
    }
    if w <= bw && h <= bh {
        Some((w, h))
    } else if (w as u64) * (bh as u64) >= (h as u64) * (bw as u64) {
        let dh: u64 = (h as u64) * (bw as u64) / (w as u64);
        if dh == 0 {
            None
        } else {
            Some((bw, dh as u32))
        }
    } else {
        let dw: u64 = (w as u64) * (bh as u64) / (h as u64);
        if dw == 0 {
            None
        } else {
            Some((dw as u32, bh))
        }
    }
}

/// Geometry of `Embed`: the target width is the source width capped at
/// 1024, and the target height scales the source height by the same
/// factor with floor division, so the source aspect ratio is kept.
pub proof fn lemma_embed_geometry(w: int, h: int)
    requires
        1 <= w,
        1 <= h,
    ensures
        ({
            let (dw, dh) = spec_target_box(Variant::Embed, w, h);
            &&& dw == if w <= 1024 {
                w
            } else {
                1024
            }
            &&& dw <= 1024
            &&& dw <= w
            &&& dh == h * dw / w
        }),
{
}

/// Geometry of the fixed-box variants: the target never exceeds the
/// variant's box, never enlarges the source, and keeps the source
/// aspect ratio — a source within the box is unchanged, a larger one
/// has its tighter side touch the box and the other scaled by the same
/// factor with floor division. Nothing is cropped: the whole source is
/// scaled.
pub proof fn lemma_fixed_geometry(v: Variant, w: int, h: int)
    requires
        1 <= w,
        1 <= h,
        v is Public || v is Thumb || v is Banner || v is Square,
    ensures
        ({
            let (bw, bh) = spec_fixed_box(v);
            let (dw, dh) = spec_target_box(v, w, h);
            &&& (dw, dh) == spec_fit_box(bw, bh, w, h)
            &&& dw <= bw && dh <= bh
            &&& dw <= w && dh <= h
            &&& if w <= bw && h <= bh {
                dw == w && dh == h
            } else if w * bh >= h * bw {
                dw == bw && dh == h * bw / w
            } else {
                dh == bh && dw == w * bh / h
            }
        }),
{
    let (bw, bh) = spec_fixed_box(v);
    lemma_fit_box_bounds(bw, bh, w, h);
}

/// The product of the source height and the capped width stays below
/// `u64` range, so the `Embed` height can be computed exactly.
proof fn lemma_embed_height_bounds(w: int, h: int, dw: int)
    requires
        1 <= w,
        1 <= h <= u32::MAX,
        1 <= dw <= 1024,
    ensures
        h * dw <= u32::MAX * 1024,
        h * dw / w >= 0,
{
    assert(h * dw <= u32::MAX * 1024) by (nonlinear_arith)
        requires
            1 <= h <= u32::MAX,
            1 <= dw <= 1024,
    ;
    assert(h * dw / w >= 0) by (nonlinear_arith)
        requires
            1 <= w,
            1 <= h,
            1 <= dw,
    ;
}

} // verus!
