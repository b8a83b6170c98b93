//! Conversion of the engine's answers into the public data model.
//!
//! Each function takes the status code of one engine request together with
//! the data copied out of the engine's buffers, and yields the typed result.
//! A request fails as a whole: no caller ever sees a partial list.

use crate::error::{check, ErrorCode, STATUS_SUCCESS};
use crate::spirv::{EntryPoint, ExecutionModel, Resource, ShaderResources, WorkGroupSize};
use crate::text::{decode_name, utf8_text};
use vstd::prelude::*;

verus! {

/// An entry point as the engine reports it: the name's bytes, the SPIR-V
/// execution model enumerant and the work-group size.
#[derive(Clone, Debug, PartialEq, Eq, Hash)]
pub struct RawEntryPoint {
    pub name: Vec<u8>,
    pub execution_model: u32,
    pub work_group_size_x: u32,
    pub work_group_size_y: u32,
    pub work_group_size_z: u32,
}

/// The raw entry point has a public counterpart: its name is text and its
/// execution model is known.
pub open spec fn entry_point_converts(raw: RawEntryPoint) -> bool {
    &&& utf8_text(raw.name@) is Some
    &&& ExecutionModel::spec_from_raw(raw.execution_model) is Some
}

/// `e` is the public counterpart of `raw`.
pub open spec fn entry_point_converted(e: EntryPoint, raw: RawEntryPoint) -> bool {
    &&& utf8_text(raw.name@) == Some(e.name@)
    &&& ExecutionModel::spec_from_raw(raw.execution_model) == Some(e.execution_model)
    &&& e.work_group_size == (WorkGroupSize {
        x: raw.work_group_size_x,
        y: raw.work_group_size_y,
        z: raw.work_group_size_z,
    })
}

/// Converts one entry point record.
pub fn entry_point_from_raw(raw: &RawEntryPoint) -> (r: Result<EntryPoint, ErrorCode>)
    ensures
        r is Ok <==> entry_point_converts(*raw),
        r matches Ok(e) ==> entry_point_converted(e, *raw),
        r is Err ==> r == Err::<EntryPoint, ErrorCode>(ErrorCode::Unhandled),
{
    let name = match decode_name(&raw.name) {
        Ok(n) => n,
        Err(e) => return Err(e),
    };
    let execution_model = match ExecutionModel::from_raw(raw.execution_model) {
        Ok(m) => m,
        Err(e) => return Err(e),
    };
    Ok(EntryPoint {
        name,
        execution_model,
        work_group_size: WorkGroupSize {
            x: raw.work_group_size_x,
            y: raw.work_group_size_y,
            z: raw.work_group_size_z,
        },
    })
}

/// Converts the answer to a request for the module's entry points, keeping
/// the engine's order. The request fails as a whole if the engine reports a
/// failure or if any single record has no public counterpart; a module
/// without entry points gives the empty list.
pub fn entry_points_from_raw(
    status: u32,
    raws: &Vec<RawEntryPoint>,
) -> (r: Result<Vec<EntryPoint>, ErrorCode>)
    ensures
        r is Ok <==> status == STATUS_SUCCESS && forall|i: int|
            0 <= i < raws@.len() ==> entry_point_converts(#[trigger] raws@[i]),
        r matches Ok(v) ==> v@.len() == raws@.len() && forall|i: int|
            0 <= i < raws@.len() ==> entry_point_converted(#[trigger] v@[i], raws@[i]),
        r is Err ==> r == Err::<Vec<EntryPoint>, ErrorCode>(ErrorCode::Unhandled),
        status == STATUS_SUCCESS && raws@.len() == 0 ==> (r matches Ok(v) && v@.len() == 0),
{
    match check(status) {
        Ok(()) => {},
        Err(e) => return Err(e),
    }
    let mut out: Vec<EntryPoint> = Vec::new();
    let mut i: usize = 0;
    while i < raws.len()
        invariant
            0 <= i <= raws@.len(),
            out@.len() == i,
            forall|k: int| 0 <= k < i ==> entry_point_converts(#[trigger] raws@[k]),
            forall|k: int| 0 <= k < i ==> entry_point_converted(#[trigger] out@[k], raws@[k]),
        decreases raws@.len() - i,
    {
        match entry_point_from_raw(&raws[i]) {
            Ok(e) => out.push(e),
            Err(e) => return Err(e),
        }
        i = i + 1;
    }
    Ok(out)
}

/// A resource variable as the engine reports it.
#[derive(Clone, Debug, PartialEq, Eq, Hash)]
pub struct RawResource {
    pub id: u32,
    pub type_id: u32,
    pub base_type_id: u32,
    pub name: Vec<u8>,
}

/// `r` is the public counterpart of `raw`: the same ids, and the text of
/// its name.
pub open spec fn resource_converted(r: Resource, raw: RawResource) -> bool {
    &&& r.id == raw.id
    &&& r.type_id == raw.type_id
    &&& r.base_type_id == raw.base_type_id
    &&& utf8_text(raw.name@) == Some(r.name@)
}

/// Every record of one category has a name that is text.
pub open spec fn resources_convert(raws: Seq<RawResource>) -> bool {
    forall|i: int| 0 <= i < raws.len() ==> utf8_text((#[trigger] raws[i]).name@) is Some
}

/// `rs` is the public counterpart of the category `raws`, record by record
/// and in the same order.
pub open spec fn resources_converted(rs: Seq<Resource>, raws: Seq<RawResource>) -> bool {
    &&& rs.len() == raws.len()
    &&& forall|i: int| 0 <= i < raws.len() ==> resource_converted(#[trigger] rs[i], raws[i])
}

/// Converts one resource record.
pub fn resource_from_raw(raw: &RawResource) -> (r: Result<Resource, ErrorCode>)
    ensures
        r is Ok <==> utf8_text(raw.name@) is Some,
        r matches Ok(res) ==> resource_converted(res, *raw),
        r is Err ==> r == Err::<Resource, ErrorCode>(ErrorCode::Unhandled),
{
    let name = match decode_name(&raw.name) {
        Ok(n) => n,
        Err(e) => return Err(e),
    };
    Ok(Resource { id: raw.id, type_id: raw.type_id, base_type_id: raw.base_type_id, name })
}

/// Converts the records of one resource category, keeping their order; it
/// fails as a whole if any name is not text.
pub fn resources_from_raw(raws: &Vec<RawResource>) -> (r: Result<Vec<Resource>, ErrorCode>)
    ensures
        r is Ok <==> resources_convert(raws@),
        r matches Ok(v) ==> resources_converted(v@, raws@),
        r is Err ==> r == Err::<Vec<Resource>, ErrorCode>(ErrorCode::Unhandled),
{
    let mut out: Vec<Resource> = Vec::new();
    let mut i: usize = 0;
    while i < raws.len()
        invariant
            0 <= i <= raws@.len(),
            out@.len() == i,
            forall|k: int| 0 <= k < i ==> utf8_text((#[trigger] raws@[k]).name@) is Some,
            forall|k: int| 0 <= k < i ==> resource_converted(#[trigger] out@[k], raws@[k]),
        decreases raws@.len() - i,
    {
        match resource_from_raw(&raws[i]) {
            Ok(res) => out.push(res),
            Err(e) => return Err(e),
        }
        i = i + 1;
    }
    Ok(out)
}

/// The resource variables of a module as the engine reports them, in the
/// eleven categories of [`ShaderResources`].
#[derive(Clone, Debug, PartialEq, Eq, Hash)]
pub struct RawShaderResources {
    pub uniform_buffers: Vec<RawResource>,
    pub storage_buffers: Vec<RawResource>,
    pub stage_inputs: Vec<RawResource>,
    pub stage_outputs: Vec<RawResource>,
    pub subpass_inputs: Vec<RawResource>,
    pub storage_images: Vec<RawResource>,
    pub sampled_images: Vec<RawResource>,
    pub atomic_counters: Vec<RawResource>,
    pub push_constant_buffers: Vec<RawResource>,
    pub separate_images: Vec<RawResource>,
    pub separate_samplers: Vec<RawResource>,
}

impl RawShaderResources {
    /// The categories in the order of [`ShaderResources::categories`].
    pub open spec fn categories(&self) -> Seq<Seq<RawResource>> {
        seq![
            self.uniform_buffers@,
            self.storage_buffers@,
            self.stage_inputs@,
            self.stage_outputs@,
            self.subpass_inputs@,
            self.storage_images@,
            self.sampled_images@,
            self.atomic_counters@,
            self.push_constant_buffers@,
            self.separate_images@,
            self.separate_samplers@,
        ]
    }
}

/// Converts the answer to a request for the module's shader resources. The
/// categories are converted in order; the request fails as a whole if the
/// engine reports a failure or if any name in any category is not text.
pub fn shader_resources_from_raw(
    status: u32,
    raw: &RawShaderResources,
) -> (r: Result<ShaderResources, ErrorCode>)
    ensures
        r is Ok <==> status == STATUS_SUCCESS && forall|c: int|
            0 <= c < 11 ==> resources_convert(#[trigger] raw.categories()[c]),
        r matches Ok(s) ==> forall|c: int|
            0 <= c < 11 ==> resources_converted(
                #[trigger] s.categories()[c],
                raw.categories()[c],
            ),
        r is Err ==> r == Err::<ShaderResources, ErrorCode>(ErrorCode::Unhandled),
{
    match check(status) {
        Ok(()) => {},
        Err(e) => return Err(e),
    }
    let uniform_buffers = match resources_from_raw(&raw.uniform_buffers) {
        Ok(v) => v,
        Err(e) => {
            assert(raw.categories()[0] == raw.uniform_buffers@);
            return Err(e);
        },
    };
    let storage_buffers = match resources_from_raw(&raw.storage_buffers) {
        Ok(v) => v,
        Err(e) => {
            assert(raw.categories()[1] == raw.storage_buffers@);
            return Err(e);
        },
    };
    let stage_inputs = match resources_from_raw(&raw.stage_inputs) {
        Ok(v) => v,
        Err(e) => {
            assert(raw.categories()[2] == raw.stage_inputs@);
            return Err(e);
        },
    };
    let stage_outputs = match resources_from_raw(&raw.stage_outputs) {
        Ok(v) => v,
        Err(e) => {
            assert(raw.categories()[3] == raw.stage_outputs@);
            return Err(e);
        },
    };
    let subpass_inputs = match resources_from_raw(&raw.subpass_inputs) {
        Ok(v) => v,
        Err(e) => {
            assert(raw.categories()[4] == raw.subpass_inputs@);
            return Err(e);
        },
    };
    let storage_images = match resources_from_raw(&raw.storage_images) {
        Ok(v) => v,
        Err(e) => {
            assert(raw.categories()[5] == raw.storage_images@);
            return Err(e);
        },
    };
    let sampled_images = match resources_from_raw(&raw.sampled_images) {
        Ok(v) => v,
        Err(e) => {
            assert(raw.categories()[6] == raw.sampled_images@);
            return Err(e);
        },
    };
    let atomic_counters = match resources_from_raw(&raw.atomic_counters) {
        Ok(v) => v,
        Err(e) => {
            assert(raw.categories()[7] == raw.atomic_counters@);
            return Err(e);
        },
    };
    let push_constant_buffers = match resources_from_raw(&raw.push_constant_buffers) {
        Ok(v) => v,
        Err(e) => {
            assert(raw.categories()[8] == raw.push_constant_buffers@);
            return Err(e);
        },
    };
    let separate_images = match resources_from_raw(&raw.separate_images) {
        Ok(v) => v,
        Err(e) => {
            assert(raw.categories()[9] == raw.separate_images@);
            return Err(e);
        },
    };
    let separate_samplers = match resources_from_raw(&raw.separate_samplers) {
        Ok(v) => v,
        Err(e) => {
            assert(raw.categories()[10] == raw.separate_samplers@);
            return Err(e);
        },
    };
    let s = ShaderResources {
        uniform_buffers,
        storage_buffers,
        stage_inputs,
        stage_outputs,
        subpass_inputs,
        storage_images,
        sampled_images,
        atomic_counters,
        push_constant_buffers,
        separate_images,
        separate_samplers,
    };
    assert(forall|c: int| 0 <= c < 11 ==> resources_converted(s.categories()[c], raw.categories()[c]));
    Ok(s)
}

/// No id occurs in two distinct categories of `cats`.
pub open spec fn raw_categories_disjoint(cats: Seq<Seq<RawResource>>) -> bool {
    forall|c1: int, c2: int, i: int, j: int|
        0 <= c1 < cats.len() && 0 <= c2 < cats.len() && c1 != c2 && 0 <= i < cats[c1].len() && 0
            <= j < cats[c2].len() ==> #[trigger] cats[c1][i].id != #[trigger] cats[c2][j].id
}

/// No id occurs in two distinct categories of `cats`.
pub open spec fn categories_disjoint(cats: Seq<Seq<Resource>>) -> bool {
    forall|c1: int, c2: int, i: int, j: int|
        0 <= c1 < cats.len() && 0 <= c2 < cats.len() && c1 != c2 && 0 <= i < cats[c1].len() && 0
            <= j < cats[c2].len() ==> #[trigger] cats[c1][i].id != #[trigger] cats[c2][j].id
}

/// Converted shader resources always come as eleven categories, and where
/// the engine's categories share no id, neither do the converted ones.
pub proof fn lemma_shader_resources_partition(raw: RawShaderResources, s: ShaderResources)
    requires
        forall|c: int|
            0 <= c < 11 ==> resources_converted(#[trigger] s.categories()[c], raw.categories()[c]),
    ensures
        s.categories().len() == 11,
        raw_categories_disjoint(raw.categories()) ==> categories_disjoint(s.categories()),
{
    let cats = s.categories();
    let raws = raw.categories();
    if raw_categories_disjoint(raws) {
        assert forall|c1: int, c2: int, i: int, j: int|
            0 <= c1 < cats.len() && 0 <= c2 < cats.len() && c1 != c2 && 0 <= i < cats[c1].len()
                && 0 <= j < cats[c2].len() implies #[trigger] cats[c1][i].id
            != #[trigger] cats[c2][j].id by {
            assert(resources_converted(cats[c1], raws[c1]));
            assert(resources_converted(cats[c2], raws[c2]));
            assert(raws[c1][i].id != raws[c2][j].id);
        }
    }
}

/// Converts the answer to a compile request into the emitted source text.
/// It fails if the engine reports a failure or if the emitted bytes are not
/// text.
pub fn compile_result(status: u32, source: &Vec<u8>) -> (r: Result<String, ErrorCode>)
    ensures
        r is Ok <==> status == STATUS_SUCCESS && utf8_text(source@) is Some,
        r matches Ok(s) ==> utf8_text(source@) == Some(s@),
        r is Err ==> r == Err::<String, ErrorCode>(ErrorCode::Unhandled),
{
    match check(status) {
        Ok(()) => {},
        Err(e) => return Err(e),
    }
    decode_name(source)
}

/// The text obtained from a compile request is fixed by the engine's answer
/// alone: two requests answered with the same bytes give the same text.
pub proof fn lemma_compile_text_determined(
    source1: Seq<u8>,
    source2: Seq<u8>,
    text1: Seq<char>,
    text2: Seq<char>,
)
    requires
        utf8_text(source1) == Some(text1),
        utf8_text(source2) == Some(text2),
        source1 == source2,
    ensures
        text1 == text2,
{
}

/// Converts the answer to a request for the literal of a decoration: the
/// literal the engine reported, or `Unhandled` when it reported a failure,
/// which callers can never confuse with a literal of zero.
pub fn decoration_result(status: u32, literal: u32) -> (r: Result<u32, ErrorCode>)
    ensures
        status == STATUS_SUCCESS ==> r == Ok::<u32, ErrorCode>(literal),
        status != STATUS_SUCCESS ==> r == Err::<u32, ErrorCode>(ErrorCode::Unhandled),
        status != STATUS_SUCCESS ==> r != Ok::<u32, ErrorCode>(0),
{
    match check(status) {
        Ok(()) => Ok(literal),
        Err(e) => Err(e),
    }
}

} // verus!
