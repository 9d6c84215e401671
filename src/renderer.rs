//! Turning the platform's answer to an adapter request into a renderer descriptor.

use vstd::prelude::*;

use crate::backend::{selection, BackendKind, BackendToggles};

verus! {

/// What the platform reported about the adapter it granted.
pub struct AdapterReport {
    /// The graphics API the adapter is driven through.
    pub backend: BackendKind,
    /// The device or driver name, as the platform gave it.
    pub name: String,
    /// The adapter's feature flags, as wgpu's `Features` word.
    pub feature_bits: u64,
}

/// The one way negotiation fails: no adapter matched the requested backends.
#[derive(Clone, Copy, Debug, PartialEq, Eq, Structural)]
pub enum RendererError {
    AdapterUnavailable,
}

/// The fixed text carried by [`RendererError::AdapterUnavailable`].
pub open spec fn adapter_unavailable_message() -> Seq<char> {
    "No compatible WebGPU adapter found"@
}

impl RendererError {
    /// The human-readable message of the error.
    pub fn message(&self) -> (r: String)
        ensures
            r@ == adapter_unavailable_message(),
    {
        match self {
            RendererError::AdapterUnavailable => "No compatible WebGPU adapter found".to_owned(),
        }
    }
}

/// The text of a backend kind: the name of its variant.
pub open spec fn backend_name(kind: BackendKind) -> Seq<char> {
    match kind {
        BackendKind::Empty => "Empty"@,
        BackendKind::Vulkan => "Vulkan"@,
        BackendKind::Metal => "Metal"@,
        BackendKind::Dx12 => "Dx12"@,
        BackendKind::Gl => "Gl"@,
        BackendKind::BrowserWebGpu => "BrowserWebGpu"@,
    }
}

/// The text of a backend kind, as wgpu's `Backend` prints under `{:?}`.
pub fn backend_label(kind: BackendKind) -> (r: String)
    ensures
        r@ == backend_name(kind),
        r@.len() > 0,
{
    proof {
        reveal_strlit("Empty");
        reveal_strlit("Vulkan");
        reveal_strlit("Metal");
        reveal_strlit("Dx12");
        reveal_strlit("Gl");
        reveal_strlit("BrowserWebGpu");
    }
    match kind {
        BackendKind::Empty => "Empty".to_owned(),
        BackendKind::Vulkan => "Vulkan".to_owned(),
        BackendKind::Metal => "Metal".to_owned(),
        BackendKind::Dx12 => "Dx12".to_owned(),
        BackendKind::Gl => "Gl".to_owned(),
        BackendKind::BrowserWebGpu => "BrowserWebGpu".to_owned(),
    }
}

/// The `{:?}` text of wgpu's `Features` holding exactly the given bits.
pub uninterp spec fn features_debug(bits: u64) -> Seq<char>;

/// Relies on the `Debug` that `wgpu::Features` derives (a bitflags type): the
/// text depends on the bits alone and is wrapped in `Features(..)`, so it is
/// never empty.
#[verifier::external_body]
fn features_text(bits: u64) -> (r: String)
    ensures
        r@ == features_debug(bits),
        r@.len() > 0,
{
    format!("{:?}", wgpu::Features::from_bits_retain(bits))
}

/// The three strings a renderer descriptor carries.
pub struct RendererInfoView {
    pub backend: Seq<char>,
    pub adapter_name: Seq<char>,
    pub features: Seq<char>,
}

/// The descriptor of a successful negotiation.
pub struct RendererInfo {
    backend: String,
    adapter_name: String,
    features: String,
}

impl View for RendererInfo {
    type V = RendererInfoView;

    closed spec fn view(&self) -> RendererInfoView {
        RendererInfoView {
            backend: self.backend@,
            adapter_name: self.adapter_name@,
            features: self.features@,
        }
    }
}

/// The descriptor that a reported adapter yields.
pub open spec fn info_of(backend: BackendKind, name: Seq<char>, feature_bits: u64) -> RendererInfoView {
    RendererInfoView {
        backend: backend_name(backend),
        adapter_name: name,
        features: features_debug(feature_bits),
    }
}

impl RendererInfo {
    /// A descriptor holding the three given strings.
    pub fn new(backend: String, adapter_name: String, features: String) -> (r: RendererInfo)
        ensures
            r@ == (RendererInfoView {
                backend: backend@,
                adapter_name: adapter_name@,
                features: features@,
            }),
    {
        RendererInfo { backend, adapter_name, features }
    }

    /// The name of the graphics API that was granted.
    pub fn backend(&self) -> (r: String)
        ensures
            r@ == self@.backend,
    {
        self.backend.clone()
    }

    /// The device or driver name of the granted adapter.
    pub fn adapter_name(&self) -> (r: String)
        ensures
            r@ == self@.adapter_name,
    {
        self.adapter_name.clone()
    }

    /// The textual list of the adapter's capability flags.
    pub fn features(&self) -> (r: String)
        ensures
            r@ == self@.features,
    {
        self.features.clone()
    }
}

/// Packs a granted backend, the adapter's name and its feature text into a descriptor.
pub fn assemble_info(backend: BackendKind, adapter_name: String, features: String) -> (r:
    RendererInfo)
    ensures
        r@ == (RendererInfoView {
            backend: backend_name(backend),
            adapter_name: adapter_name@,
            features: features@,
        }),
{
    RendererInfo::new(backend_label(backend), adapter_name, features)
}

/// Finishes a negotiation: the adapter the platform granted, if any, becomes a
/// descriptor; no adapter is the `AdapterUnavailable` error.
pub fn describe_adapter(report: Option<AdapterReport>) -> (r: Result<RendererInfo, RendererError>)
    ensures
        report is Some <==> r is Ok,
        report is Some ==> r->Ok_0@ == info_of(
            report->0.backend,
            report->0.name@,
            report->0.feature_bits,
        ),
        report is None ==> r->Err_0 == RendererError::AdapterUnavailable,
        r is Ok ==> r->Ok_0@.backend.len() > 0 && r->Ok_0@.features.len() > 0,
        report is Some && report->0.name@.len() > 0 ==> r is Ok && r->Ok_0@.adapter_name.len() > 0,
{
    match report {
        Some(a) => {
            let features = features_text(a.feature_bits);
            let info = assemble_info(a.backend, a.name, features);
            proof {
                backend_label_non_empty(a.backend);
            }
            Ok(info)
        },
        None => Err(RendererError::AdapterUnavailable),
    }
}

/// Negotiation is repeatable: the same toggles select the same backend set, and
/// the same adapter report yields a descriptor with the same backend and adapter
/// name, so two negotiations on an unchanged host agree on both.
pub proof fn lemma_negotiation_repeatable(
    t1: BackendToggles,
    t2: BackendToggles,
    a: AdapterReport,
    b: AdapterReport,
)
    requires
        t1 == t2,
        a.backend == b.backend,
        a.name@ == b.name@,
        a.feature_bits == b.feature_bits,
    ensures
        selection(t1) == selection(t2),
        info_of(a.backend, a.name@, a.feature_bits).backend == info_of(
            b.backend,
            b.name@,
            b.feature_bits,
        ).backend,
        info_of(a.backend, a.name@, a.feature_bits).adapter_name == info_of(
            b.backend,
            b.name@,
            b.feature_bits,
        ).adapter_name,
{
}

proof fn backend_label_non_empty(kind: BackendKind)
    ensures
        backend_name(kind).len() > 0,
{
    reveal_strlit("Empty");
    reveal_strlit("Vulkan");
    reveal_strlit("Metal");
    reveal_strlit("Dx12");
    reveal_strlit("Gl");
    reveal_strlit("BrowserWebGpu");
}

} // verus!
