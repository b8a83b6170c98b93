use spirv_cross::error::{check, ErrorCode, STATUS_SUCCESS};
use spirv_cross::reflect::{
    compile_result, decoration_result, entry_point_from_raw, entry_points_from_raw,
    resource_from_raw, resources_from_raw, shader_resources_from_raw, RawEntryPoint, RawResource,
    RawShaderResources,
};
use spirv_cross::spirv::{Decoration, ExecutionModel, ShaderResources, WorkGroupSize};
use spirv_cross::text::decode_name;

fn raw_entry(name: &str, model: u32, x: u32, y: u32, z: u32) -> RawEntryPoint {
    RawEntryPoint {
        name: name.as_bytes().to_vec(),
        execution_model: model,
        work_group_size_x: x,
        work_group_size_y: y,
        work_group_size_z: z,
    }
}

fn raw_resource(id: u32, type_id: u32, base_type_id: u32, name: &[u8]) -> RawResource {
    RawResource { id, type_id, base_type_id, name: name.to_vec() }
}

fn empty_raw_resources() -> RawShaderResources {
    RawShaderResources {
        uniform_buffers: vec![],
        storage_buffers: vec![],
        stage_inputs: vec![],
        stage_outputs: vec![],
        subpass_inputs: vec![],
        storage_images: vec![],
        sampled_images: vec![],
        atomic_counters: vec![],
        push_constant_buffers: vec![],
        separate_images: vec![],
        separate_samplers: vec![],
    }
}

fn categories(s: &ShaderResources) -> Vec<&Vec<spirv_cross::spirv::Resource>> {
    vec![
        &s.uniform_buffers,
        &s.storage_buffers,
        &s.stage_inputs,
        &s.stage_outputs,
        &s.subpass_inputs,
        &s.storage_images,
        &s.sampled_images,
        &s.atomic_counters,
        &s.push_constant_buffers,
        &s.separate_images,
        &s.separate_samplers,
    ]
}

#[test]
fn status_success_is_ok() {
    assert_eq!(check(STATUS_SUCCESS), Ok(()));
}

#[test]
fn every_other_status_is_unhandled() {
    assert_eq!(check(1), Err(ErrorCode::Unhandled));
    assert_eq!(check(2), Err(ErrorCode::Unhandled));
    assert_eq!(check(u32::MAX), Err(ErrorCode::Unhandled));
}

#[test]
fn execution_models_map_to_spirv_enumerants() {
    let all = [
        (ExecutionModel::Vertex, 0),
        (ExecutionModel::TessellationControl, 1),
        (ExecutionModel::TessellationEvaluation, 2),
        (ExecutionModel::Geometry, 3),
        (ExecutionModel::Fragment, 4),
        (ExecutionModel::GlCompute, 5),
        (ExecutionModel::Kernel, 6),
    ];
    for (m, raw) in all.iter() {
        assert_eq!(m.as_raw(), *raw);
        assert_eq!(ExecutionModel::from_raw(*raw), Ok(*m));
    }
}

#[test]
fn unknown_execution_model_is_unhandled() {
    assert_eq!(ExecutionModel::from_raw(7), Err(ErrorCode::Unhandled));
    assert_eq!(ExecutionModel::from_raw(5267), Err(ErrorCode::Unhandled));
    assert_eq!(ExecutionModel::from_raw(u32::MAX), Err(ErrorCode::Unhandled));
}

#[test]
fn decorations_map_to_spirv_enumerants() {
    assert_eq!(Decoration::RelaxedPrecision.as_raw(), 0);
    assert_eq!(Decoration::BuiltIn.as_raw(), 11);
    assert_eq!(Decoration::NoPerspective.as_raw(), 13);
    assert_eq!(Decoration::SaturatedConversion.as_raw(), 28);
    assert_eq!(Decoration::Location.as_raw(), 30);
    assert_eq!(Decoration::Binding.as_raw(), 33);
    assert_eq!(Decoration::DescriptorSet.as_raw(), 34);
    assert_eq!(Decoration::Offset.as_raw(), 35);
    assert_eq!(Decoration::Alignment.as_raw(), 44);
    assert_eq!(Decoration::OverrideCoverageNv.as_raw(), 5248);
    assert_eq!(Decoration::SecondaryViewportRelativeNv.as_raw(), 5256);
}

#[test]
fn distinct_decorations_have_distinct_enumerants() {
    let all = [
        Decoration::Block,
        Decoration::BufferBlock,
        Decoration::Binding,
        Decoration::DescriptorSet,
        Decoration::Location,
        Decoration::Component,
        Decoration::Index,
        Decoration::Offset,
        Decoration::PassthroughNv,
        Decoration::ViewportRelativeNv,
    ];
    for (i, a) in all.iter().enumerate() {
        for (j, b) in all.iter().enumerate() {
            assert_eq!(i == j, a.as_raw() == b.as_raw());
        }
    }
}

#[test]
fn names_decode_as_text() {
    assert_eq!(decode_name(&b"main".to_vec()), Ok("main".to_string()));
    assert_eq!(decode_name(&vec![]), Ok(String::new()));
    assert_eq!(decode_name(&"caf\u{e9}".as_bytes().to_vec()), Ok("caf\u{e9}".to_string()));
}

#[test]
fn invalid_name_bytes_are_unhandled() {
    assert_eq!(decode_name(&vec![0x66, 0xff, 0x6f]), Err(ErrorCode::Unhandled));
    assert_eq!(decode_name(&vec![0xc3]), Err(ErrorCode::Unhandled));
}

#[test]
fn entry_point_converts_all_fields() {
    let e = entry_point_from_raw(&raw_entry("main", 5, 8, 4, 1)).unwrap();
    assert_eq!(e.name, "main");
    assert_eq!(e.execution_model, ExecutionModel::GlCompute);
    assert_eq!(e.work_group_size, WorkGroupSize { x: 8, y: 4, z: 1 });
}

#[test]
fn entry_points_of_module_without_any_are_empty() {
    assert_eq!(entry_points_from_raw(STATUS_SUCCESS, &vec![]), Ok(vec![]));
}

#[test]
fn entry_points_keep_engine_order() {
    let raws = vec![raw_entry("vs_main", 0, 0, 0, 0), raw_entry("fs_main", 4, 0, 0, 0)];
    let eps = entry_points_from_raw(STATUS_SUCCESS, &raws).unwrap();
    assert_eq!(eps.len(), 2);
    assert_eq!(eps[0].name, "vs_main");
    assert_eq!(eps[0].execution_model, ExecutionModel::Vertex);
    assert_eq!(eps[1].name, "fs_main");
    assert_eq!(eps[1].execution_model, ExecutionModel::Fragment);
    assert_eq!(eps[1].work_group_size, WorkGroupSize { x: 0, y: 0, z: 0 });
}

#[test]
fn entry_points_fail_whole_on_unknown_model() {
    let raws = vec![
        raw_entry("a", 0, 0, 0, 0),
        raw_entry("b", 5313, 0, 0, 0),
        raw_entry("c", 4, 0, 0, 0),
    ];
    assert_eq!(entry_points_from_raw(STATUS_SUCCESS, &raws), Err(ErrorCode::Unhandled));
}

#[test]
fn entry_points_fail_whole_on_unreadable_name() {
    let mut bad = raw_entry("x", 4, 0, 0, 0);
    bad.name = vec![0xfe];
    let raws = vec![raw_entry("a", 0, 0, 0, 0), bad];
    assert_eq!(entry_points_from_raw(STATUS_SUCCESS, &raws), Err(ErrorCode::Unhandled));
}

#[test]
fn entry_points_fail_on_engine_status() {
    let raws = vec![raw_entry("a", 0, 0, 0, 0)];
    assert_eq!(entry_points_from_raw(1, &raws), Err(ErrorCode::Unhandled));
}

#[test]
fn resource_keeps_ids() {
    let r = resource_from_raw(&raw_resource(10, 11, 12, b"ubo")).unwrap();
    assert_eq!((r.id, r.type_id, r.base_type_id), (10, 11, 12));
    assert_eq!(r.name, "ubo");
    assert_eq!(resource_from_raw(&raw_resource(1, 2, 3, &[0x80])), Err(ErrorCode::Unhandled));
}

#[test]
fn resources_of_a_category_fail_whole() {
    let raws = vec![raw_resource(1, 2, 3, b"a"), raw_resource(4, 5, 6, &[0xff, 0xff])];
    assert_eq!(resources_from_raw(&raws), Err(ErrorCode::Unhandled));
    let ok = resources_from_raw(&vec![raw_resource(1, 2, 3, b"a"), raw_resource(4, 5, 6, b"b")])
        .unwrap();
    assert_eq!(ok.len(), 2);
    assert_eq!(ok[1].id, 4);
    assert_eq!(ok[1].name, "b");
}

#[test]
fn empty_module_has_eleven_empty_categories() {
    let s = shader_resources_from_raw(STATUS_SUCCESS, &empty_raw_resources()).unwrap();
    let cats = categories(&s);
    assert_eq!(cats.len(), 11);
    assert!(cats.iter().all(|c| c.is_empty()));
}

#[test]
fn shader_resources_keep_categories_disjoint() {
    let mut raw = empty_raw_resources();
    raw.uniform_buffers = vec![raw_resource(20, 21, 22, b"ubo")];
    raw.stage_inputs = vec![raw_resource(30, 31, 32, b"pos"), raw_resource(33, 34, 35, b"uv")];
    raw.separate_samplers = vec![raw_resource(40, 41, 42, b"smp")];
    let s = shader_resources_from_raw(STATUS_SUCCESS, &raw).unwrap();
    assert_eq!(s.uniform_buffers[0].name, "ubo");
    assert_eq!(s.stage_inputs[1].id, 33);
    assert_eq!(s.stage_inputs[1].base_type_id, 35);
    assert_eq!(s.separate_samplers[0].type_id, 41);
    let cats = categories(&s);
    for (i, a) in cats.iter().enumerate() {
        for (j, b) in cats.iter().enumerate() {
            if i != j {
                assert!(a.iter().all(|r| b.iter().all(|q| q.id != r.id)));
            }
        }
    }
}

#[test]
fn shader_resources_fail_on_bad_name_in_last_category() {
    let mut raw = empty_raw_resources();
    raw.uniform_buffers = vec![raw_resource(20, 21, 22, b"ubo")];
    raw.separate_samplers = vec![raw_resource(40, 41, 42, &[0xc0, 0x80])];
    assert_eq!(shader_resources_from_raw(STATUS_SUCCESS, &raw), Err(ErrorCode::Unhandled));
}

#[test]
fn shader_resources_fail_on_engine_status() {
    assert_eq!(shader_resources_from_raw(1, &empty_raw_resources()), Err(ErrorCode::Unhandled));
}

#[test]
fn compile_returns_emitted_text() {
    let src = b"#version 450\nvoid main() {}\n".to_vec();
    assert_eq!(compile_result(STATUS_SUCCESS, &src), Ok("#version 450\nvoid main() {}\n".to_string()));
}

#[test]
fn compile_twice_on_same_output_is_identical() {
    let src = b"layout(binding = 3) uniform UBO { vec4 c; };\n".to_vec();
    let first = compile_result(STATUS_SUCCESS, &src).unwrap();
    let second = compile_result(STATUS_SUCCESS, &src).unwrap();
    assert_eq!(first.as_bytes(), second.as_bytes());
}

#[test]
fn compile_fails_on_invalid_text_or_status() {
    assert_eq!(compile_result(STATUS_SUCCESS, &vec![0x76, 0xff]), Err(ErrorCode::Unhandled));
    assert_eq!(compile_result(2, &b"void main() {}".to_vec()), Err(ErrorCode::Unhandled));
}

#[test]
fn decoration_literal_is_passed_through() {
    assert_eq!(decoration_result(STATUS_SUCCESS, 7), Ok(7));
    assert_eq!(decoration_result(STATUS_SUCCESS, 0), Ok(0));
    assert_eq!(decoration_result(STATUS_SUCCESS, u32::MAX), Ok(u32::MAX));
}

#[test]
fn failed_decoration_read_differs_from_zero() {
    let r = decoration_result(1, 0);
    assert_eq!(r, Err(ErrorCode::Unhandled));
    assert_ne!(r, Ok(0));
}

#[test]
fn release_log_without_releases_is_ok() {
    let log = spirv_cross::error::ReleaseLog::new();
    assert_eq!(log.finish(), Ok(()));
}

#[test]
fn release_log_fails_after_any_failed_release() {
    let mut log = spirv_cross::error::ReleaseLog::new();
    log.record(STATUS_SUCCESS);
    assert_eq!(log.finish(), Ok(()));
    log.record(1);
    log.record(STATUS_SUCCESS);
    assert_eq!(log.finish(), Err(ErrorCode::Unhandled));
}
