//! The content fingerprint behind the two-pass layout stabilizer.
//!
//! A manager re-measures its overlay only when the rendered content could
//! have changed size. To detect that, every field that affects rendered
//! size — each entity's message and style together with the manager's own
//! configuration — is folded into a 64-bit digest. The digest is a pure
//! function of those values (64-bit FNV-1a steps over a canonical
//! encoding), so byte-identical content always yields the same fingerprint,
//! on every frame and in every process.

use vstd::prelude::*;

use crate::alert::Alert;
use crate::anchor::Anchor;
use crate::style::Rgba;

verus! {

use vstd::string::StrSliceExecFns;

/// Starting value of the digest (the 64-bit FNV offset basis).
pub const FNV_OFFSET_BASIS: u64 = 0xcbf2_9ce4_8422_2325;

/// Multiplier of each digest step (the 64-bit FNV prime).
pub const FNV_PRIME: u64 = 0x100_0000_01b3;

/// One digest step: fold the value `v` into the running digest `h`.
pub open spec fn spec_mix(h: u64, v: u64) -> u64 {
    (((h ^ v) * FNV_PRIME) % 0x1_0000_0000_0000_0000) as u64
}

/// Executable digest step matching [`spec_mix`]; the multiplication is done
/// in 128 bits so the truncation to 64 bits is explicit.
pub fn mix(h: u64, v: u64) -> (r: u64)
    ensures
        r == spec_mix(h, v),
{
    let x: u128 = (h ^ v) as u128;
    let wide: u128 = x * (FNV_PRIME as u128);
    (wide % 0x1_0000_0000_0000_0000u128) as u64
}

/// Fold a natural number into the digest, truncated to 64 bits.
pub open spec fn spec_mix_nat(h: u64, n: nat) -> u64 {
    spec_mix(h, (n % 0x1_0000_0000_0000_0000) as u64)
}

/// Fold every character of `s` into the digest, first to last.
pub open spec fn spec_mix_chars(h: u64, s: Seq<char>) -> u64
    decreases s.len(),
{
    if s.len() == 0 {
        h
    } else {
        spec_mix_chars(spec_mix(h, s[0] as u64), s.drop_first())
    }
}

/// Fold a text into the digest: its length, then every character.
pub open spec fn spec_mix_text(h: u64, s: Seq<char>) -> u64 {
    spec_mix_chars(spec_mix_nat(h, s.len()), s)
}

/// Executable counterpart of [`spec_mix_text`].
pub fn mix_str(h: u64, s: &str) -> (r: u64)
    ensures
        r == spec_mix_text(h, s@),
{
    let len = s.unicode_len();
    let mut r = mix(h, len as u64);
    assert(len as u64 == (s@.len() % 0x1_0000_0000_0000_0000) as u64);
    proof {
        assert(s@.skip(0) =~= s@);
    }
    let mut i: usize = 0;
    while i < len
        invariant
            i <= len,
            len == s@.len(),
            spec_mix_chars(spec_mix_nat(h, s@.len()), s@) == spec_mix_chars(r, s@.skip(i as int)),
        decreases len - i,
    {
        let c = s.get_char(i);
        proof {
            assert(s@.skip(i as int).len() > 0);
            assert(s@.skip(i as int)[0] == s@[i as int]);
            assert(s@.skip(i as int).drop_first() =~= s@.skip(i as int + 1));
        }
        r = mix(r, c as u64);
        i += 1;
    }
    proof {
        assert(s@.skip(len as int) =~= Seq::<char>::empty());
    }
    r
}

/// Encode a signed 8-bit setting as a small non-negative value.
pub open spec fn spec_enc_i8(v: i8) -> u64 {
    (v + 128) as u64
}

/// Fold a signed 8-bit setting into the digest.
pub fn mix_i8(h: u64, v: i8) -> (r: u64)
    ensures
        r == spec_mix(h, spec_enc_i8(v)),
{
    mix(h, ((v as i16) + 128) as u64)
}

/// Fold a flag into the digest.
pub open spec fn spec_mix_bool(h: u64, v: bool) -> u64 {
    spec_mix(h, if v { 1u64 } else { 0u64 })
}

/// Executable counterpart of [`spec_mix_bool`].
pub fn mix_bool(h: u64, v: bool) -> (r: u64)
    ensures
        r == spec_mix_bool(h, v),
{
    mix(h, if v { 1 } else { 0 })
}

/// Fold an optional setting into the digest: a presence tag, then for a set
/// value its encoding.
pub open spec fn spec_mix_opt(h: u64, o: Option<u64>) -> u64 {
    match o {
        None => spec_mix(h, 0),
        Some(v) => spec_mix(spec_mix(h, 1), v),
    }
}

/// Fold an optional signed 8-bit setting into the digest.
pub open spec fn spec_mix_opt_i8(h: u64, o: Option<i8>) -> u64 {
    spec_mix_opt(
        h,
        match o {
            None => None,
            Some(v) => Some(spec_enc_i8(v)),
        },
    )
}

/// Executable counterpart of [`spec_mix_opt_i8`].
pub fn mix_opt_i8(h: u64, o: Option<i8>) -> (r: u64)
    ensures
        r == spec_mix_opt_i8(h, o),
{
    match o {
        None => mix(h, 0),
        Some(v) => mix_i8(mix(h, 1), v),
    }
}

/// Fold an optional unsigned 8-bit setting into the digest.
pub open spec fn spec_mix_opt_u8(h: u64, o: Option<u8>) -> u64 {
    spec_mix_opt(
        h,
        match o {
            None => None,
            Some(v) => Some(v as u64),
        },
    )
}

/// Executable counterpart of [`spec_mix_opt_u8`].
pub fn mix_opt_u8(h: u64, o: Option<u8>) -> (r: u64)
    ensures
        r == spec_mix_opt_u8(h, o),
{
    match o {
        None => mix(h, 0),
        Some(v) => mix(mix(h, 1), v as u64),
    }
}

/// Fold an optional flag into the digest.
pub open spec fn spec_mix_opt_bool(h: u64, o: Option<bool>) -> u64 {
    spec_mix_opt(
        h,
        match o {
            None => None,
            Some(v) => Some(if v { 1u64 } else { 0u64 }),
        },
    )
}

/// Executable counterpart of [`spec_mix_opt_bool`].
pub fn mix_opt_bool(h: u64, o: Option<bool>) -> (r: u64)
    ensures
        r == spec_mix_opt_bool(h, o),
{
    match o {
        None => mix(h, 0),
        Some(v) => mix(mix(h, 1), if v { 1 } else { 0 }),
    }
}

/// Fold an optional 32-bit setting into the digest.
pub open spec fn spec_mix_opt_u32(h: u64, o: Option<u32>) -> u64 {
    spec_mix_opt(
        h,
        match o {
            None => None,
            Some(v) => Some(v as u64),
        },
    )
}

/// Executable counterpart of [`spec_mix_opt_u32`].
pub fn mix_opt_u32(h: u64, o: Option<u32>) -> (r: u64)
    ensures
        r == spec_mix_opt_u32(h, o),
{
    match o {
        None => mix(h, 0),
        Some(v) => mix(mix(h, 1), v as u64),
    }
}

/// Fold a color into the digest, channel by channel.
pub open spec fn spec_mix_rgba(h: u64, c: Rgba) -> u64 {
    spec_mix(
        spec_mix(spec_mix(spec_mix(h, c.red as u64), c.green as u64), c.blue as u64),
        c.alpha as u64,
    )
}

/// Executable counterpart of [`spec_mix_rgba`].
pub fn mix_rgba(h: u64, c: Rgba) -> (r: u64)
    ensures
        r == spec_mix_rgba(h, c),
{
    mix(mix(mix(mix(h, c.red as u64), c.green as u64), c.blue as u64), c.alpha as u64)
}

/// A distinct code for each anchor, folded into the digest.
pub open spec fn spec_anchor_code(a: Anchor) -> u64 {
    match a {
        Anchor::LeftTop => 0,
        Anchor::CenterTop => 1,
        Anchor::RightTop => 2,
        Anchor::LeftCenter => 3,
        Anchor::Center => 4,
        Anchor::RightCenter => 5,
        Anchor::LeftBottom => 6,
        Anchor::CenterBottom => 7,
        Anchor::RightBottom => 8,
    }
}

/// Fold an anchor into the digest.
pub fn mix_anchor(h: u64, a: Anchor) -> (r: u64)
    ensures
        r == spec_mix(h, spec_anchor_code(a)),
{
    let code: u64 = match a {
        Anchor::LeftTop => 0,
        Anchor::CenterTop => 1,
        Anchor::RightTop => 2,
        Anchor::LeftCenter => 3,
        Anchor::Center => 4,
        Anchor::RightCenter => 5,
        Anchor::LeftBottom => 6,
        Anchor::CenterBottom => 7,
        Anchor::RightBottom => 8,
    };
    mix(h, code)
}

/// Encode a signed 32-bit offset as a non-negative value.
pub open spec fn spec_enc_i32(v: i32) -> u64 {
    (v + 0x8000_0000) as u64
}

/// Fold an optional anchor offset into the digest.
pub open spec fn spec_mix_opt_offset(h: u64, o: Option<(i32, i32)>) -> u64 {
    match o {
        None => spec_mix(h, 0),
        Some(p) => spec_mix(spec_mix(spec_mix(h, 1), spec_enc_i32(p.0)), spec_enc_i32(p.1)),
    }
}

/// Executable counterpart of [`spec_mix_opt_offset`].
pub fn mix_opt_offset(h: u64, o: Option<(i32, i32)>) -> (r: u64)
    ensures
        r == spec_mix_opt_offset(h, o),
{
    match o {
        None => mix(h, 0),
        Some(p) => {
            let x: u64 = ((p.0 as i64) + 0x8000_0000) as u64;
            let y: u64 = ((p.1 as i64) + 0x8000_0000) as u64;
            mix(mix(mix(h, 1), x), y)
        },
    }
}

/// Fold every size-affecting field of one alert into the digest.
pub open spec fn spec_mix_alert(h: u64, a: Alert) -> u64 {
    let h = spec_mix_rgba(h, a.color);
    let h = spec_mix_text(h, a.message@);
    let h = spec_mix_opt_i8(h, a.inner_margin);
    let h = spec_mix_opt_i8(h, a.outer_margin);
    let h = spec_mix_opt_u8(h, a.corner_radius);
    let h = spec_mix_opt_bool(h, a.can_close);
    spec_mix_opt_u32(h, a.width)
}

/// Executable counterpart of [`spec_mix_alert`].
pub fn mix_alert(h: u64, a: &Alert) -> (r: u64)
    ensures
        r == spec_mix_alert(h, *a),
{
    let h = mix_rgba(h, a.color);
    let h = mix_str(h, a.message.as_str());
    let h = mix_opt_i8(h, a.inner_margin);
    let h = mix_opt_i8(h, a.outer_margin);
    let h = mix_opt_u8(h, a.corner_radius);
    let h = mix_opt_bool(h, a.can_close);
    mix_opt_u32(h, a.width)
}

/// Fold every alert of a collection into the digest, oldest first.
pub open spec fn spec_mix_alerts(h: u64, s: Seq<Alert>) -> u64
    decreases s.len(),
{
    if s.len() == 0 {
        h
    } else {
        spec_mix_alerts(spec_mix_alert(h, s[0]), s.drop_first())
    }
}

/// Executable counterpart of [`spec_mix_alerts`].
pub fn mix_alerts(h: u64, alerts: &Vec<Alert>) -> (r: u64)
    ensures
        r == spec_mix_alerts(h, alerts@),
{
    let mut r = h;
    proof {
        assert(alerts@.skip(0) =~= alerts@);
    }
    let mut i: usize = 0;
    while i < alerts.len()
        invariant
            i <= alerts@.len(),
            spec_mix_alerts(h, alerts@) == spec_mix_alerts(r, alerts@.skip(i as int)),
        decreases alerts@.len() - i,
    {
        proof {
            assert(alerts@.skip(i as int).len() > 0);
            assert(alerts@.skip(i as int)[0] == alerts@[i as int]);
            assert(alerts@.skip(i as int).drop_first() =~= alerts@.skip(i as int + 1));
        }
        r = mix_alert(r, &alerts[i]);
        i += 1;
    }
    proof {
        assert(alerts@.skip(alerts@.len() as int) =~= Seq::<Alert>::empty());
    }
    r
}

} // verus!
