//! The caller's capture intent and the frame-pool format it selects.

use vstd::prelude::*;
use vstd::string::*;

use crate::color::ColorPixelFormat;

verus! {

/// Capture mode selected by the caller.
///
/// - `Auto`: on an HDR display capture float pixels and tone-map them to 8 bit;
///   on an SDR display capture 8 bit directly.
/// - `Hdr`: always capture float pixels and pass them through untouched.
/// - `Sdr`: always capture 8 bit.
#[derive(Debug, Clone, Copy, PartialEq, Eq, Structural)]
pub enum CapturePolicy {
    Auto,
    Hdr,
    Sdr,
}

impl Default for CapturePolicy {
    fn default() -> (policy: Self)
        ensures
            policy == CapturePolicy::Auto,
    {
        CapturePolicy::Auto
    }
}

/// The policy that a mode string names, if any.
pub open spec fn spec_from_mode(mode: Seq<char>) -> Option<CapturePolicy> {
    if mode == seq!['a', 'u', 't', 'o'] {
        Some(CapturePolicy::Auto)
    } else if mode == seq!['h', 'd', 'r'] {
        Some(CapturePolicy::Hdr)
    } else if mode == seq!['s', 'd', 'r'] {
        Some(CapturePolicy::Sdr)
    } else {
        None
    }
}

/// Frame-pool pixel format for a policy and the display's HDR state.
pub open spec fn spec_pool_format(policy: CapturePolicy, hdr_active: bool) -> ColorPixelFormat {
    match policy {
        CapturePolicy::Sdr => ColorPixelFormat::Bgra8,
        CapturePolicy::Hdr => ColorPixelFormat::Rgba16f,
        CapturePolicy::Auto => if hdr_active {
            ColorPixelFormat::Rgba16f
        } else {
            ColorPixelFormat::Bgra8
        },
    }
}

impl CapturePolicy {
    /// Parse a mode string: exactly `"auto"`, `"hdr"` or `"sdr"`.
    pub fn from_mode(mode: &str) -> (policy: Option<Self>)
        ensures
            policy == spec_from_mode(mode@),
    {
        let n: usize = mode.unicode_len();
        if n == 4 {
            if mode.get_char(0) == 'a' && mode.get_char(1) == 'u' && mode.get_char(2) == 't'
                && mode.get_char(3) == 'o' {
                assert(mode@ =~= seq!['a', 'u', 't', 'o']);
                Some(CapturePolicy::Auto)
            } else {
                assert(seq!['a', 'u', 't', 'o'][0] == 'a');
                assert(seq!['a', 'u', 't', 'o'][1] == 'u');
                assert(seq!['a', 'u', 't', 'o'][2] == 't');
                assert(seq!['a', 'u', 't', 'o'][3] == 'o');
                assert(seq!['h', 'd', 'r'].len() == 3);
                assert(seq!['s', 'd', 'r'].len() == 3);
                None
            }
        } else if n == 3 {
            assert(seq!['a', 'u', 't', 'o'].len() == 4);
            let c0 = mode.get_char(0);
            if (c0 == 'h' || c0 == 's') && mode.get_char(1) == 'd' && mode.get_char(2) == 'r' {
                if c0 == 'h' {
                    assert(mode@ =~= seq!['h', 'd', 'r']);
                    Some(CapturePolicy::Hdr)
                } else {
                    assert(mode@ =~= seq!['s', 'd', 'r']);
                    assert(seq!['h', 'd', 'r'][0] == 'h');
                    Some(CapturePolicy::Sdr)
                }
            } else {
                assert(seq!['h', 'd', 'r'][0] == 'h');
                assert(seq!['h', 'd', 'r'][1] == 'd');
                assert(seq!['h', 'd', 'r'][2] == 'r');
                assert(seq!['s', 'd', 'r'][0] == 's');
                assert(seq!['s', 'd', 'r'][1] == 'd');
                assert(seq!['s', 'd', 'r'][2] == 'r');
                None
            }
        } else {
            assert(seq!['a', 'u', 't', 'o'].len() == 4);
            assert(seq!['h', 'd', 'r'].len() == 3);
            assert(seq!['s', 'd', 'r'].len() == 3);
            None
        }
    }
}

/// Pick the frame-pool format from the policy and the display's HDR state.
///
/// `Sdr` always selects `Bgra8` and `Hdr` always `Rgba16f`; `Auto` follows the
/// display.
pub fn pool_format(policy: CapturePolicy, hdr_active: bool) -> (format: ColorPixelFormat)
    ensures
        format == spec_pool_format(policy, hdr_active),
{
    match (policy, hdr_active) {
        (CapturePolicy::Sdr, _) => ColorPixelFormat::Bgra8,
        (CapturePolicy::Hdr, _) => ColorPixelFormat::Rgba16f,
        (CapturePolicy::Auto, true) => ColorPixelFormat::Rgba16f,
        (CapturePolicy::Auto, false) => ColorPixelFormat::Bgra8,
    }
}

/// A policy that asks for what the display does not give.
#[derive(Debug, Clone, Copy, PartialEq, Eq, Structural)]
pub enum ModeMismatch {
    /// `Hdr` on an SDR display: the capture holds no real HDR data.
    HdrOnSdrDisplay,
    /// `Sdr` on an HDR display: HDR content is clipped without tone mapping.
    SdrOnHdrDisplay,
}

/// Whether the policy is at odds with the display's HDR state, and how. `Auto`
/// never is.
pub fn mode_mismatch(policy: CapturePolicy, hdr_active: bool) -> (mismatch: Option<ModeMismatch>)
    ensures
        mismatch == (if policy == CapturePolicy::Hdr && !hdr_active {
            Some(ModeMismatch::HdrOnSdrDisplay)
        } else if policy == CapturePolicy::Sdr && hdr_active {
            Some(ModeMismatch::SdrOnHdrDisplay)
        } else {
            None
        }),
{
    match (policy, hdr_active) {
        (CapturePolicy::Hdr, false) => Some(ModeMismatch::HdrOnSdrDisplay),
        (CapturePolicy::Sdr, true) => Some(ModeMismatch::SdrOnHdrDisplay),
        _ => None,
    }
}

} // verus!
