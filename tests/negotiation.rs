use quickfix_renderer::backend::{selected_backends, BackendKind, BackendToggles};
use quickfix_renderer::renderer::{
    assemble_info, backend_label, describe_adapter, AdapterReport, RendererError,
};

const ALL_KINDS: [BackendKind; 6] = [
    BackendKind::Empty,
    BackendKind::Vulkan,
    BackendKind::Metal,
    BackendKind::Dx12,
    BackendKind::Gl,
    BackendKind::BrowserWebGpu,
];

fn members(toggles: BackendToggles) -> Vec<BackendKind> {
    let set = selected_backends(toggles);
    ALL_KINDS.iter().copied().filter(|k| set.contains(*k)).collect()
}

fn report(backend: BackendKind, name: &str, feature_bits: u64) -> AdapterReport {
    AdapterReport { backend, name: name.to_string(), feature_bits }
}

#[test]
fn every_toggle_combination_selects_something() {
    for mask in 0u8..8 {
        let toggles = BackendToggles::new(mask & 1 != 0, mask & 2 != 0, mask & 4 != 0);
        let set = selected_backends(toggles);
        assert!(!set.is_empty());
        assert!(!members(toggles).is_empty());
    }
}

#[test]
fn no_toggles_selects_primary_api_only() {
    let toggles = BackendToggles::new(false, false, false);
    assert_eq!(members(toggles), vec![BackendKind::BrowserWebGpu]);
    assert_eq!(selected_backends(toggles).bits(), wgpu::Backends::BROWSER_WEBGPU.bits());
}

#[test]
fn cpu_fallback_aliases_gl_fallback() {
    let gl = selected_backends(BackendToggles::new(false, true, false));
    let cpu = selected_backends(BackendToggles::new(false, false, true));
    let both = selected_backends(BackendToggles::new(false, true, true));
    assert_eq!(gl, cpu);
    assert_eq!(gl, both);
    assert_eq!(members(BackendToggles::new(false, false, true)), vec![BackendKind::Gl]);
    assert_eq!(cpu.bits(), wgpu::Backends::GL.bits());
}

#[test]
fn all_toggles_select_webgpu_and_gl() {
    let toggles = BackendToggles::new(true, true, true);
    assert_eq!(members(toggles), vec![BackendKind::Gl, BackendKind::BrowserWebGpu]);
    let expected = wgpu::Backends::BROWSER_WEBGPU | wgpu::Backends::GL;
    assert_eq!(selected_backends(toggles).bits(), expected.bits());
    assert_eq!(selected_backends(toggles).bits(), 48);
}

#[test]
fn primary_toggle_alone_selects_webgpu() {
    let toggles = BackendToggles::new(true, false, false);
    assert_eq!(members(toggles), vec![BackendKind::BrowserWebGpu]);
    assert_eq!(selected_backends(toggles).bits(), 32);
}

#[test]
fn backend_labels_match_wgpu_debug() {
    let pairs = [
        (BackendKind::Empty, wgpu::Backend::Empty),
        (BackendKind::Vulkan, wgpu::Backend::Vulkan),
        (BackendKind::Metal, wgpu::Backend::Metal),
        (BackendKind::Dx12, wgpu::Backend::Dx12),
        (BackendKind::Gl, wgpu::Backend::Gl),
        (BackendKind::BrowserWebGpu, wgpu::Backend::BrowserWebGpu),
    ];
    for (kind, outside) in pairs {
        assert_eq!(backend_label(kind), format!("{:?}", outside));
    }
    assert_eq!(backend_label(BackendKind::Gl), "Gl");
}

#[test]
fn granted_adapter_gives_non_empty_descriptor() {
    let bits = wgpu::Features::DEPTH_CLIP_CONTROL.bits();
    match describe_adapter(Some(report(BackendKind::Vulkan, "Test GPU", bits))) {
        Ok(info) => {
            assert_eq!(info.backend(), "Vulkan");
            assert_eq!(info.adapter_name(), "Test GPU");
            assert_eq!(info.features(), "Features(DEPTH_CLIP_CONTROL)");
            assert!(!info.backend().is_empty());
            assert!(!info.adapter_name().is_empty());
            assert!(!info.features().is_empty());
        }
        Err(_) => panic!("an adapter was granted"),
    }
}

#[test]
fn empty_feature_set_still_has_text() {
    match describe_adapter(Some(report(BackendKind::BrowserWebGpu, "", 0))) {
        Ok(info) => {
            assert_eq!(info.backend(), "BrowserWebGpu");
            assert_eq!(info.adapter_name(), "");
            assert_eq!(info.features(), "Features(0x0)");
        }
        Err(_) => panic!("an adapter was granted"),
    }
}

#[test]
fn no_adapter_is_adapter_unavailable() {
    match describe_adapter(None) {
        Ok(_) => panic!("no adapter was granted"),
        Err(e) => {
            assert_eq!(e, RendererError::AdapterUnavailable);
            assert_eq!(e.message(), "No compatible WebGPU adapter found");
        }
    }
}

#[test]
fn repeated_negotiation_agrees() {
    let toggles = BackendToggles::new(true, false, true);
    assert_eq!(selected_backends(toggles), selected_backends(toggles));
    let bits = wgpu::Features::TIMESTAMP_QUERY.bits();
    let first = describe_adapter(Some(report(BackendKind::Metal, "Apple M1", bits)));
    let second = describe_adapter(Some(report(BackendKind::Metal, "Apple M1", bits)));
    match (first, second) {
        (Ok(a), Ok(b)) => {
            assert_eq!(a.backend(), b.backend());
            assert_eq!(a.adapter_name(), b.adapter_name());
            assert_eq!(a.features(), b.features());
        }
        _ => panic!("both negotiations were granted an adapter"),
    }
}

#[test]
fn gl_fallback_on_software_gpu() {
    let toggles = BackendToggles::new(false, true, false);
    let set = selected_backends(toggles);
    assert!(set.contains(BackendKind::Gl));
    assert!(!set.contains(BackendKind::BrowserWebGpu));
    let bits = wgpu::Features::TEXTURE_COMPRESSION_BC.bits();
    match describe_adapter(Some(report(BackendKind::Gl, "SoftGPU v1", bits))) {
        Ok(info) => {
            assert!(info.backend().contains("Gl"));
            assert_eq!(info.adapter_name(), "SoftGPU v1");
            assert!(info.features().contains("TEXTURE_COMPRESSION"));
        }
        Err(_) => panic!("the GL adapter was granted"),
    }
}

#[test]
fn assembled_info_keeps_its_parts() {
    let info = assemble_info(BackendKind::Dx12, "Radeon".to_string(), "X | Y".to_string());
    assert_eq!(info.backend(), "Dx12");
    assert_eq!(info.adapter_name(), "Radeon");
    assert_eq!(info.features(), "X | Y");
}
