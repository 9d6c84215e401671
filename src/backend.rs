//! Which graphics backend families a renderer asks the platform for.

use vstd::prelude::*;

verus! {

/// A graphics API that an adapter can be driven through.
#[derive(Clone, Copy, Debug, PartialEq, Eq, Structural)]
pub enum BackendKind {
    Empty,
    Vulkan,
    Metal,
    Dx12,
    Gl,
    BrowserWebGpu,
}

/// The build-time switches that decide which backend families are requested.
#[derive(Clone, Copy, Debug, PartialEq, Eq, Structural)]
pub struct BackendToggles {
    /// Request the primary GPU API (WebGPU in the browser).
    pub primary_api: bool,
    /// Request the GL-compatible backend (WebGL2 in the browser).
    pub gl_fallback: bool,
    /// Request a software-leaning path; this shares the GL-compatible backend.
    pub cpu_fallback: bool,
}

impl BackendToggles {
    pub fn new(primary_api: bool, gl_fallback: bool, cpu_fallback: bool) -> (r: BackendToggles)
        ensures
            r.primary_api == primary_api,
            r.gl_fallback == gl_fallback,
            r.cpu_fallback == cpu_fallback,
    {
        BackendToggles { primary_api, gl_fallback, cpu_fallback }
    }

    pub open spec fn none_enabled(self) -> bool {
        !self.primary_api && !self.gl_fallback && !self.cpu_fallback
    }
}

/// A set of backend families that an instance is allowed to consider.
#[derive(Clone, Copy, Debug, PartialEq, Eq, Structural)]
pub struct BackendSet {
    primary_api: bool,
    gl: bool,
}

/// The single bit that wgpu uses for the GL-compatible backend.
pub const GL_BIT: u32 = 16;

/// The single bit that wgpu uses for WebGPU in the browser.
pub const BROWSER_WEBGPU_BIT: u32 = 32;

/// Relies on the constant `wgpu::Backends::GL` and on `Backends::bits`:
/// the flag is `1 << Backend::Gl as u32`, with `Backend::Gl = 4`.
#[verifier::external_body]
fn gl_flag_bits() -> (r: u32)
    ensures
        r == GL_BIT,
{
    wgpu::Backends::GL.bits()
}

/// Relies on the constant `wgpu::Backends::BROWSER_WEBGPU` and on `Backends::bits`:
/// the flag is `1 << Backend::BrowserWebGpu as u32`, with `Backend::BrowserWebGpu = 5`.
#[verifier::external_body]
fn browser_webgpu_flag_bits() -> (r: u32)
    ensures
        r == BROWSER_WEBGPU_BIT,
{
    wgpu::Backends::BROWSER_WEBGPU.bits()
}

impl View for BackendSet {
    type V = Set<BackendKind>;

    closed spec fn view(&self) -> Set<BackendKind> {
        Set::new(
            |k: BackendKind|
                (k == BackendKind::BrowserWebGpu && self.primary_api) || (k == BackendKind::Gl
                    && self.gl),
        )
    }
}

/// The primary-API-only set, asked for when no toggle is enabled.
pub open spec fn primary_only() -> Set<BackendKind> {
    set![BackendKind::BrowserWebGpu]
}

/// The families that the enabled toggles contribute, before the default applies.
pub open spec fn requested(t: BackendToggles) -> Set<BackendKind> {
    Set::new(
        |k: BackendKind|
            (k == BackendKind::BrowserWebGpu && t.primary_api) || (k == BackendKind::Gl && (
            t.gl_fallback || t.cpu_fallback)),
    )
}

/// The set that the negotiation asks for: what the toggles request, or the
/// primary API alone when they request nothing.
pub open spec fn selection(t: BackendToggles) -> Set<BackendKind> {
    if t.none_enabled() {
        primary_only()
    } else {
        requested(t)
    }
}

/// The wgpu flag word of a set of families.
pub open spec fn bits_of(s: Set<BackendKind>) -> u32 {
    (if s.contains(BackendKind::BrowserWebGpu) {
        BROWSER_WEBGPU_BIT
    } else {
        0
    }) | (if s.contains(BackendKind::Gl) {
        GL_BIT
    } else {
        0
    })
}

impl BackendSet {
    pub fn contains(&self, kind: BackendKind) -> (r: bool)
        ensures
            r == self@.contains(kind),
    {
        match kind {
            BackendKind::BrowserWebGpu => self.primary_api,
            BackendKind::Gl => self.gl,
            _ => false,
        }
    }

    pub fn is_empty(&self) -> (r: bool)
        ensures
            r == (self@ =~= Set::<BackendKind>::empty()),
    {
        let r = !self.primary_api && !self.gl;
        if !r {
            if self.primary_api {
                assert(self@.contains(BackendKind::BrowserWebGpu));
            } else {
                assert(self@.contains(BackendKind::Gl));
            }
        }
        r
    }

    /// The set as wgpu's `Backends` flag word.
    pub fn bits(&self) -> (r: u32)
        ensures
            r == bits_of(self@),
    {
        let webgpu: u32 = if self.primary_api {
            browser_webgpu_flag_bits()
        } else {
            0
        };
        let gl: u32 = if self.gl {
            gl_flag_bits()
        } else {
            0
        };
        assert(self@.contains(BackendKind::BrowserWebGpu) == self.primary_api);
        assert(self@.contains(BackendKind::Gl) == self.gl);
        webgpu | gl
    }
}

/// The backend families to negotiate with: each enabled toggle adds its family
/// (GL fallback and CPU fallback both add GL), and an empty result falls back to
/// the primary API alone.
pub fn selected_backends(toggles: BackendToggles) -> (r: BackendSet)
    ensures
        r@ == selection(toggles),
        r@ != Set::<BackendKind>::empty(),
        toggles.none_enabled() ==> r@ == primary_only(),
{
    let mut backends = BackendSet { primary_api: false, gl: false };
    if toggles.primary_api {
        backends.primary_api = true;
    }
    if toggles.gl_fallback {
        backends.gl = true;
    }
    if toggles.cpu_fallback {
        backends.gl = true;
    }
    let r = if backends.is_empty() {
        BackendSet { primary_api: true, gl: false }
    } else {
        backends
    };
    proof {
        if toggles.none_enabled() {
            assert(r@ =~= primary_only());
        } else {
            if toggles.primary_api {
                assert(backends@.contains(BackendKind::BrowserWebGpu));
            } else {
                assert(backends@.contains(BackendKind::Gl));
            }
            assert(r@ =~= requested(toggles));
        }
    }
    assert(r@.contains(BackendKind::BrowserWebGpu) || r@.contains(BackendKind::Gl));
    r
}

} // verus!
