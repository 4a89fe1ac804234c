//! What can go wrong while the lighting data are computed.

use vstd::prelude::*;

verus! {

/// An input that no stage can work on.
#[derive(Copy, Clone, Debug, PartialEq, Eq, Structural)]
pub enum InvalidInputError {
    /// The source image has no texels.
    EmptySource,
    /// The source buffer does not hold one RGBA texel of four 32-bit
    /// floats for every pixel of the image.
    SourceSizeMismatch,
    /// The destination has no texels.
    ZeroDestinationSize,
    /// The lookup table has no texels.
    ZeroTableSize,
    /// The mip chain has no level.
    ZeroMipCount,
    /// The base environment is not a cube of six layers.
    NotACubemap,
    /// The list of source pixels does not name one pixel for every texel
    /// of the destination.
    LookupSizeMismatch,
    /// The destination does not fit the machine's memory.
    DestinationTooLarge,
}

/// Parameters that contradict each other.
#[derive(Copy, Clone, Debug, PartialEq, Eq, Structural)]
pub enum PrecomputeError {
    /// The mip chain is longer than the full chain of the destination.
    MipCountExceedsChain,
}

/// A GPU object that could not be created.
#[derive(Copy, Clone, Debug, PartialEq, Eq, Structural)]
pub enum ResourceCreationError {
    Device,
    Texture,
    Pipeline,
}

/// Why a stage failed.
#[derive(Copy, Clone, Debug, PartialEq, Eq, Structural)]
pub enum StageError {
    InvalidInput(InvalidInputError),
    Precompute(PrecomputeError),
    ResourceCreation(ResourceCreationError),
}

/// The stages of the precomputation, in the order in which they run.
#[derive(Copy, Clone, Debug, PartialEq, Eq, Structural)]
pub enum Stage {
    Projection,
    Irradiance,
    Specular,
    BrdfLut,
}

/// The failure of a build: the stage that failed, and why.
#[derive(Copy, Clone, Debug, PartialEq, Eq, Structural)]
pub struct BuildError {
    pub stage: Stage,
    pub error: StageError,
}

impl Stage {
    /// Position of the stage in the order of execution, which is also the
    /// number of stages that have completed when it starts.
    pub open spec fn spec_ordinal(self) -> nat {
        match self {
            Stage::Projection => 0,
            Stage::Irradiance => 1,
            Stage::Specular => 2,
            Stage::BrdfLut => 3,
        }
    }

    /// The stage that runs after this one, if any.
    pub open spec fn spec_next(self) -> Option<Stage> {
        match self {
            Stage::Projection => Some(Stage::Irradiance),
            Stage::Irradiance => Some(Stage::Specular),
            Stage::Specular => Some(Stage::BrdfLut),
            Stage::BrdfLut => None,
        }
    }

    /// Name of the stage in messages.
    pub open spec fn spec_name(self) -> Seq<char> {
        match self {
            Stage::Projection => "cubemap projection"@,
            Stage::Irradiance => "irradiance convolution"@,
            Stage::Specular => "specular prefilter"@,
            Stage::BrdfLut => "BRDF lookup table"@,
        }
    }

    /// Position of the stage in the order of execution.
    pub fn ordinal(self) -> (ordinal: u32)
        ensures
            ordinal == self.spec_ordinal(),
    {
        match self {
            Stage::Projection => 0,
            Stage::Irradiance => 1,
            Stage::Specular => 2,
            Stage::BrdfLut => 3,
        }
    }

    /// The stage that runs after this one, if any.
    pub fn next(self) -> (next: Option<Stage>)
        ensures
            next == self.spec_next(),
    {
        match self {
            Stage::Projection => Some(Stage::Irradiance),
            Stage::Irradiance => Some(Stage::Specular),
            Stage::Specular => Some(Stage::BrdfLut),
            Stage::BrdfLut => None,
        }
    }

    /// Name of the stage in messages.
    pub fn name(self) -> (name: &'static str)
        ensures
            name@ == self.spec_name(),
    {
        match self {
            Stage::Projection => "cubemap projection",
            Stage::Irradiance => "irradiance convolution",
            Stage::Specular => "specular prefilter",
            Stage::BrdfLut => "BRDF lookup table",
        }
    }
}

impl StageError {
    /// What went wrong, in words.
    pub open spec fn spec_description(self) -> Seq<char> {
        match self {
            StageError::InvalidInput(InvalidInputError::EmptySource) => "invalid input: the source image has no texels"@,
            StageError::InvalidInput(InvalidInputError::SourceSizeMismatch) => "invalid input: the source buffer does not match the image size"@,
            StageError::InvalidInput(InvalidInputError::ZeroDestinationSize) => "invalid input: the destination size is zero"@,
            StageError::InvalidInput(InvalidInputError::ZeroTableSize) => "invalid input: the table size is zero"@,
            StageError::InvalidInput(InvalidInputError::ZeroMipCount) => "invalid input: the mip count is zero"@,
            StageError::InvalidInput(InvalidInputError::NotACubemap) => "invalid input: the base environment is not a cubemap"@,
            StageError::InvalidInput(InvalidInputError::LookupSizeMismatch) => "invalid input: the source pixels do not match the destination size"@,
            StageError::InvalidInput(InvalidInputError::DestinationTooLarge) => "invalid input: the destination does not fit in memory"@,
            StageError::Precompute(PrecomputeError::MipCountExceedsChain) => "precompute error: the mip count exceeds the mip chain of the destination"@,
            StageError::ResourceCreation(ResourceCreationError::Device) => "resource creation failed: device"@,
            StageError::ResourceCreation(ResourceCreationError::Texture) => "resource creation failed: texture"@,
            StageError::ResourceCreation(ResourceCreationError::Pipeline) => "resource creation failed: pipeline"@,
        }
    }

    /// What went wrong, in words.
    pub fn description(self) -> (description: &'static str)
        ensures
            description@ == self.spec_description(),
    {
        match self {
            StageError::InvalidInput(InvalidInputError::EmptySource) => "invalid input: the source image has no texels",
            StageError::InvalidInput(InvalidInputError::SourceSizeMismatch) => "invalid input: the source buffer does not match the image size",
            StageError::InvalidInput(InvalidInputError::ZeroDestinationSize) => "invalid input: the destination size is zero",
            StageError::InvalidInput(InvalidInputError::ZeroTableSize) => "invalid input: the table size is zero",
            StageError::InvalidInput(InvalidInputError::ZeroMipCount) => "invalid input: the mip count is zero",
            StageError::InvalidInput(InvalidInputError::NotACubemap) => "invalid input: the base environment is not a cubemap",
            StageError::InvalidInput(InvalidInputError::LookupSizeMismatch) => "invalid input: the source pixels do not match the destination size",
            StageError::InvalidInput(InvalidInputError::DestinationTooLarge) => "invalid input: the destination does not fit in memory",
            StageError::Precompute(PrecomputeError::MipCountExceedsChain) => "precompute error: the mip count exceeds the mip chain of the destination",
            StageError::ResourceCreation(ResourceCreationError::Device) => "resource creation failed: device",
            StageError::ResourceCreation(ResourceCreationError::Texture) => "resource creation failed: texture",
            StageError::ResourceCreation(ResourceCreationError::Pipeline) => "resource creation failed: pipeline",
        }
    }
}

impl BuildError {
    /// The message of the failure: the stage, a colon and a space, and what
    /// went wrong.
    pub open spec fn spec_message(self) -> Seq<char> {
        self.stage.spec_name() + ": "@ + self.error.spec_description()
    }

    /// The message of the failure, which names the stage that failed and
    /// what went wrong in it.
    pub fn message(&self) -> (message: String)
        ensures
            message@ == self.spec_message(),
    {
        join_with_colon(self.stage.name(), self.error.description())
    }
}

/// Formats `head` and `tail` with `format!`, a colon and a space between
/// them. The contract claims that the result is the concatenation of the
/// three, which is what `format!` produces for string arguments.
#[verifier::external_body]
fn join_with_colon(head: &str, tail: &str) -> (joined: String)
    ensures
        joined@ == head@ + ": "@ + tail@,
{
    format!("{}: {}", head, tail)
}

} // verus!
