//! The public data model: execution models, decorations, entry points and
//! shader resources, and the correspondence between the public enumerations
//! and the engine's SPIR-V enumerants.

use crate::error::ErrorCode;
use vstd::prelude::*;

verus! {

/// The pipeline stage that an entry point implements.
#[derive(Clone, Copy, Debug, PartialEq, Eq, Hash, Structural)]
pub enum ExecutionModel {
    Vertex,
    TessellationControl,
    TessellationEvaluation,
    Geometry,
    Fragment,
    GlCompute,
    Kernel,
}

impl ExecutionModel {
    /// The SPIR-V enumerant of this execution model.
    pub open spec fn spec_raw(self) -> u32 {
        match self {
            ExecutionModel::Vertex => 0,
            ExecutionModel::TessellationControl => 1,
            ExecutionModel::TessellationEvaluation => 2,
            ExecutionModel::Geometry => 3,
            ExecutionModel::Fragment => 4,
            ExecutionModel::GlCompute => 5,
            ExecutionModel::Kernel => 6,
        }
    }

    /// The execution model whose SPIR-V enumerant is `raw`, if the public
    /// enumeration has one.
    pub open spec fn spec_from_raw(raw: u32) -> Option<ExecutionModel> {
        if raw == 0 {
            Some(ExecutionModel::Vertex)
        } else if raw == 1 {
            Some(ExecutionModel::TessellationControl)
        } else if raw == 2 {
            Some(ExecutionModel::TessellationEvaluation)
        } else if raw == 3 {
            Some(ExecutionModel::Geometry)
        } else if raw == 4 {
            Some(ExecutionModel::Fragment)
        } else if raw == 5 {
            Some(ExecutionModel::GlCompute)
        } else if raw == 6 {
            Some(ExecutionModel::Kernel)
        } else {
            None
        }
    }

    /// Maps an engine enumerant to the public execution model; an enumerant
    /// that the public enumeration does not cover is `Unhandled`.
    pub fn from_raw(raw: u32) -> (r: Result<ExecutionModel, ErrorCode>)
        ensures
            match Self::spec_from_raw(raw) {
                Some(m) => r == Ok::<ExecutionModel, ErrorCode>(m),
                None => r == Err::<ExecutionModel, ErrorCode>(ErrorCode::Unhandled),
            },
    {
        match raw {
            0 => Ok(ExecutionModel::Vertex),
            1 => Ok(ExecutionModel::TessellationControl),
            2 => Ok(ExecutionModel::TessellationEvaluation),
            3 => Ok(ExecutionModel::Geometry),
            4 => Ok(ExecutionModel::Fragment),
            5 => Ok(ExecutionModel::GlCompute),
            6 => Ok(ExecutionModel::Kernel),
            _ => Err(ErrorCode::Unhandled),
        }
    }

    /// The engine enumerant of this execution model.
    pub fn as_raw(&self) -> (r: u32)
        ensures
            r == self.spec_raw(),
    {
        match *self {
            ExecutionModel::Vertex => 0,
            ExecutionModel::TessellationControl => 1,
            ExecutionModel::TessellationEvaluation => 2,
            ExecutionModel::Geometry => 3,
            ExecutionModel::Fragment => 4,
            ExecutionModel::GlCompute => 5,
            ExecutionModel::Kernel => 6,
        }
    }
}

/// A kind of annotation that can be attached to an id; each carries one
/// unsigned literal.
#[derive(Clone, Copy, Debug, PartialEq, Eq, Hash, Structural)]
pub enum Decoration {
    RelaxedPrecision,
    SpecId,
    Block,
    BufferBlock,
    RowMajor,
    ColMajor,
    ArrayStride,
    MatrixStride,
    GlslShared,
    GlslPacked,
    CPacked,
    BuiltIn,
    NoPerspective,
    Flat,
    Patch,
    Centroid,
    Sample,
    Invariant,
    Restrict,
    Aliased,
    Volatile,
    Constant,
    Coherent,
    NonWritable,
    NonReadable,
    Uniform,
    SaturatedConversion,
    Stream,
    Location,
    Component,
    Index,
    Binding,
    DescriptorSet,
    Offset,
    XfbBuffer,
    XfbStride,
    FuncParamAttr,
    FpRoundingMode,
    FpFastMathMode,
    LinkageAttributes,
    NoContraction,
    InputAttachmentIndex,
    Alignment,
    OverrideCoverageNv,
    PassthroughNv,
    ViewportRelativeNv,
    SecondaryViewportRelativeNv,
}

impl Decoration {
    /// The SPIR-V enumerant of this decoration.
    pub open spec fn spec_raw(self) -> u32 {
        match self {
            Decoration::RelaxedPrecision => 0,
            Decoration::SpecId => 1,
            Decoration::Block => 2,
            Decoration::BufferBlock => 3,
            Decoration::RowMajor => 4,
            Decoration::ColMajor => 5,
            Decoration::ArrayStride => 6,
            Decoration::MatrixStride => 7,
            Decoration::GlslShared => 8,
            Decoration::GlslPacked => 9,
            Decoration::CPacked => 10,
            Decoration::BuiltIn => 11,
            Decoration::NoPerspective => 13,
            Decoration::Flat => 14,
            Decoration::Patch => 15,
            Decoration::Centroid => 16,
            Decoration::Sample => 17,
            Decoration::Invariant => 18,
            Decoration::Restrict => 19,
            Decoration::Aliased => 20,
            Decoration::Volatile => 21,
            Decoration::Constant => 22,
            Decoration::Coherent => 23,
            Decoration::NonWritable => 24,
            Decoration::NonReadable => 25,
            Decoration::Uniform => 26,
            Decoration::SaturatedConversion => 28,
            Decoration::Stream => 29,
            Decoration::Location => 30,
            Decoration::Component => 31,
            Decoration::Index => 32,
            Decoration::Binding => 33,
            Decoration::DescriptorSet => 34,
            Decoration::Offset => 35,
            Decoration::XfbBuffer => 36,
            Decoration::XfbStride => 37,
            Decoration::FuncParamAttr => 38,
            Decoration::FpRoundingMode => 39,
            Decoration::FpFastMathMode => 40,
            Decoration::LinkageAttributes => 41,
            Decoration::NoContraction => 42,
            Decoration::InputAttachmentIndex => 43,
            Decoration::Alignment => 44,
            Decoration::OverrideCoverageNv => 5248,
            Decoration::PassthroughNv => 5250,
            Decoration::ViewportRelativeNv => 5252,
            Decoration::SecondaryViewportRelativeNv => 5256,
        }
    }

    /// The decoration whose SPIR-V enumerant is `raw`, if the public
    /// enumeration has one.
    pub open spec fn spec_from_raw(raw: u32) -> Option<Decoration> {
        if raw == 0 {
            Some(Decoration::RelaxedPrecision)
        } else if raw == 1 {
            Some(Decoration::SpecId)
        } else if raw == 2 {
            Some(Decoration::Block)
        } else if raw == 3 {
            Some(Decoration::BufferBlock)
        } else if raw == 4 {
            Some(Decoration::RowMajor)
        } else if raw == 5 {
            Some(Decoration::ColMajor)
        } else if raw == 6 {
            Some(Decoration::ArrayStride)
        } else if raw == 7 {
            Some(Decoration::MatrixStride)
        } else if raw == 8 {
            Some(Decoration::GlslShared)
        } else if raw == 9 {
            Some(Decoration::GlslPacked)
        } else if raw == 10 {
            Some(Decoration::CPacked)
        } else if raw == 11 {
            Some(Decoration::BuiltIn)
        } else if raw == 13 {
            Some(Decoration::NoPerspective)
        } else if raw == 14 {
            Some(Decoration::Flat)
        } else if raw == 15 {
            Some(Decoration::Patch)
        } else if raw == 16 {
            Some(Decoration::Centroid)
        } else if raw == 17 {
            Some(Decoration::Sample)
        } else if raw == 18 {
            Some(Decoration::Invariant)
        } else if raw == 19 {
            Some(Decoration::Restrict)
        } else if raw == 20 {
            Some(Decoration::Aliased)
        } else if raw == 21 {
            Some(Decoration::Volatile)
        } else if raw == 22 {
            Some(Decoration::Constant)
        } else if raw == 23 {
            Some(Decoration::Coherent)
        } else if raw == 24 {
            Some(Decoration::NonWritable)
        } else if raw == 25 {
            Some(Decoration::NonReadable)
        } else if raw == 26 {
            Some(Decoration::Uniform)
        } else if raw == 28 {
            Some(Decoration::SaturatedConversion)
        } else if raw == 29 {
            Some(Decoration::Stream)
        } else if raw == 30 {
            Some(Decoration::Location)
        } else if raw == 31 {
            Some(Decoration::Component)
        } else if raw == 32 {
            Some(Decoration::Index)
        } else if raw == 33 {
            Some(Decoration::Binding)
        } else if raw == 34 {
            Some(Decoration::DescriptorSet)
        } else if raw == 35 {
            Some(Decoration::Offset)
        } else if raw == 36 {
            Some(Decoration::XfbBuffer)
        } else if raw == 37 {
            Some(Decoration::XfbStride)
        } else if raw == 38 {
            Some(Decoration::FuncParamAttr)
        } else if raw == 39 {
            Some(Decoration::FpRoundingMode)
        } else if raw == 40 {
            Some(Decoration::FpFastMathMode)
        } else if raw == 41 {
            Some(Decoration::LinkageAttributes)
        } else if raw == 42 {
            Some(Decoration::NoContraction)
        } else if raw == 43 {
            Some(Decoration::InputAttachmentIndex)
        } else if raw == 44 {
            Some(Decoration::Alignment)
        } else if raw == 5248 {
            Some(Decoration::OverrideCoverageNv)
        } else if raw == 5250 {
            Some(Decoration::PassthroughNv)
        } else if raw == 5252 {
            Some(Decoration::ViewportRelativeNv)
        } else if raw == 5256 {
            Some(Decoration::SecondaryViewportRelativeNv)
        } else {
            None
        }
    }

    /// The engine enumerant of this decoration.
    pub fn as_raw(&self) -> (r: u32)
        ensures
            r == self.spec_raw(),
    {
        match *self {
            Decoration::RelaxedPrecision => 0,
            Decoration::SpecId => 1,
            Decoration::Block => 2,
            Decoration::BufferBlock => 3,
            Decoration::RowMajor => 4,
            Decoration::ColMajor => 5,
            Decoration::ArrayStride => 6,
            Decoration::MatrixStride => 7,
            Decoration::GlslShared => 8,
            Decoration::GlslPacked => 9,
            Decoration::CPacked => 10,
            Decoration::BuiltIn => 11,
            Decoration::NoPerspective => 13,
            Decoration::Flat => 14,
            Decoration::Patch => 15,
            Decoration::Centroid => 16,
            Decoration::Sample => 17,
            Decoration::Invariant => 18,
            Decoration::Restrict => 19,
            Decoration::Aliased => 20,
            Decoration::Volatile => 21,
            Decoration::Constant => 22,
            Decoration::Coherent => 23,
            Decoration::NonWritable => 24,
            Decoration::NonReadable => 25,
            Decoration::Uniform => 26,
            Decoration::SaturatedConversion => 28,
            Decoration::Stream => 29,
            Decoration::Location => 30,
            Decoration::Component => 31,
            Decoration::Index => 32,
            Decoration::Binding => 33,
            Decoration::DescriptorSet => 34,
            Decoration::Offset => 35,
            Decoration::XfbBuffer => 36,
            Decoration::XfbStride => 37,
            Decoration::FuncParamAttr => 38,
            Decoration::FpRoundingMode => 39,
            Decoration::FpFastMathMode => 40,
            Decoration::LinkageAttributes => 41,
            Decoration::NoContraction => 42,
            Decoration::InputAttachmentIndex => 43,
            Decoration::Alignment => 44,
            Decoration::OverrideCoverageNv => 5248,
            Decoration::PassthroughNv => 5250,
            Decoration::ViewportRelativeNv => 5252,
            Decoration::SecondaryViewportRelativeNv => 5256,
        }
    }
}

/// Every execution model comes back unchanged from its engine enumerant.
pub proof fn lemma_execution_model_round_trip(m: ExecutionModel)
    ensures
        ExecutionModel::spec_from_raw(m.spec_raw()) == Some(m),
{
}

/// An engine enumerant that maps to an execution model is that model's
/// enumerant, so the mapping from the engine loses nothing.
pub proof fn lemma_execution_model_from_raw_exact(raw: u32)
    ensures
        ExecutionModel::spec_from_raw(raw) matches Some(m) ==> m.spec_raw() == raw,
{
}

/// Every decoration comes back unchanged from its engine enumerant.
pub proof fn lemma_decoration_round_trip(d: Decoration)
    ensures
        Decoration::spec_from_raw(d.spec_raw()) == Some(d),
{
}

/// Distinct decorations address distinct engine decorations, so setting one
/// kind on an id never touches the literal of another kind.
pub proof fn lemma_decoration_raw_injective(a: Decoration, b: Decoration)
    ensures
        a.spec_raw() == b.spec_raw() ==> a == b,
{
    lemma_decoration_round_trip(a);
    lemma_decoration_round_trip(b);
}

/// The local work-group size of a compute entry point; zero in every
/// dimension for other stages.
#[derive(Clone, Copy, Debug, PartialEq, Eq, Hash, Structural)]
pub struct WorkGroupSize {
    pub x: u32,
    pub y: u32,
    pub z: u32,
}

/// A named, stage-tagged function that the module exposes.
#[derive(Clone, Debug, PartialEq, Eq, Hash)]
pub struct EntryPoint {
    pub name: String,
    pub execution_model: ExecutionModel,
    pub work_group_size: WorkGroupSize,
}

/// A shader-visible variable: its id, its declared type, the underlying
/// type with array and pointer qualifiers stripped, and its name.
#[derive(Clone, Debug, PartialEq, Eq, Hash)]
pub struct Resource {
    pub id: u32,
    pub type_id: u32,
    pub base_type_id: u32,
    pub name: String,
}

/// The resource variables of a module, partitioned into eleven categories.
#[derive(Clone, Debug, PartialEq, Eq, Hash)]
pub struct ShaderResources {
    pub uniform_buffers: Vec<Resource>,
    pub storage_buffers: Vec<Resource>,
    pub stage_inputs: Vec<Resource>,
    pub stage_outputs: Vec<Resource>,
    pub subpass_inputs: Vec<Resource>,
    pub storage_images: Vec<Resource>,
    pub sampled_images: Vec<Resource>,
    pub atomic_counters: Vec<Resource>,
    pub push_constant_buffers: Vec<Resource>,
    pub separate_images: Vec<Resource>,
    pub separate_samplers: Vec<Resource>,
}

impl ShaderResources {
    /// The categories in their fixed order.
    pub open spec fn categories(&self) -> Seq<Seq<Resource>> {
        seq![
            self.uniform_buffers@,
            self.storage_buffers@,
            self.stage_inputs@,
            self.stage_outputs@,
            self.subpass_inputs@,
            self.storage_images@,
            self.sampled_images@,
            self.atomic_counters@,
            self.push_constant_buffers@,
            self.separate_images@,
            self.separate_samplers@,
        ]
    }
}

} // verus!
