//! The suite table: which function tables the host is asked for, which are
//! required, and how a round of fetches is judged at load.

use vstd::prelude::*;
use vstd::string::StringSliceAdditionalSpecFns;
use crate::errors::Error;
use crate::types::{Int, PtrVal};

verus! {

/// Every suite this library knows how to request from the host, by name and
/// minimum version. The first ten are required at load; the last three are
/// best-effort extras whose absence is recorded, not fatal.
#[derive(Copy, Clone, Debug, PartialEq, Eq, Structural)]
pub enum SuiteKind {
    ImageEffect,
    Property,
    Parameter,
    Memory,
    MultiThread,
    Message,
    Progress,
    TimeLine,
    MessageV2,
    ProgressV2,
    ParametricParameter,
    OpenGLRender,
}

impl SuiteKind {
    /// The name the suite is requested under.
    pub open spec fn spec_fetch_name(self) -> Seq<char> {
        match self {
            SuiteKind::ImageEffect => "OfxImageEffectSuite"@,
            SuiteKind::Property => "OfxPropertySuite"@,
            SuiteKind::Parameter => "OfxParameterSuite"@,
            SuiteKind::Memory => "OfxMemorySuite"@,
            SuiteKind::MultiThread => "OfxMultiThreadSuite"@,
            SuiteKind::Message => "OfxMessageSuite"@,
            SuiteKind::Progress => "OfxProgressSuite"@,
            SuiteKind::TimeLine => "OfxTimeLineSuite"@,
            SuiteKind::MessageV2 => "OfxMessageSuite"@,
            SuiteKind::ProgressV2 => "OfxProgressSuite"@,
            SuiteKind::ParametricParameter => "OfxParametricParameterSuite"@,
            SuiteKind::OpenGLRender => "OfxImageEffectOpenGLRenderSuite"@,
        }
    }

    pub fn fetch_name(self) -> (r: &'static str)
        ensures
            r@ == self.spec_fetch_name(),
    {
        match self {
            SuiteKind::ImageEffect => "OfxImageEffectSuite",
            SuiteKind::Property => "OfxPropertySuite",
            SuiteKind::Parameter => "OfxParameterSuite",
            SuiteKind::Memory => "OfxMemorySuite",
            SuiteKind::MultiThread => "OfxMultiThreadSuite",
            SuiteKind::Message => "OfxMessageSuite",
            SuiteKind::Progress => "OfxProgressSuite",
            SuiteKind::TimeLine => "OfxTimeLineSuite",
            SuiteKind::MessageV2 => "OfxMessageSuite",
            SuiteKind::ProgressV2 => "OfxProgressSuite",
            SuiteKind::ParametricParameter => "OfxParametricParameterSuite",
            SuiteKind::OpenGLRender => "OfxImageEffectOpenGLRenderSuite",
        }
    }

    /// The version the suite is requested at.
    pub open spec fn spec_fetch_version(self) -> Int {
        match self {
            SuiteKind::MessageV2 => 2,
            SuiteKind::ProgressV2 => 2,
            _ => 1,
        }
    }

    pub fn fetch_version(self) -> (r: Int)
        ensures
            r == self.spec_fetch_version(),
    {
        match self {
            SuiteKind::MessageV2 => 2,
            SuiteKind::ProgressV2 => 2,
            _ => 1,
        }
    }

    /// Whether a null answer for this suite aborts the load.
    pub open spec fn spec_is_required(self) -> bool {
        match self {
            SuiteKind::MessageV2 => false,
            SuiteKind::ProgressV2 => false,
            SuiteKind::ParametricParameter => false,
            SuiteKind::OpenGLRender => false,
            _ => true,
        }
    }

    pub fn is_required(self) -> (r: bool)
        ensures
            r == self.spec_is_required(),
    {
        match self {
            SuiteKind::MessageV2 => false,
            SuiteKind::ProgressV2 => false,
            SuiteKind::ParametricParameter => false,
            SuiteKind::OpenGLRender => false,
            _ => true,
        }
    }
}

/// What the host answered when each known suite was requested: the address
/// it returned, with zero recording a null answer. The unverified shell
/// fills one of these from the host's suite-fetch function and the library
/// judges it.
#[derive(Copy, Clone, Debug, PartialEq, Eq, Structural)]
pub struct SuiteFetchResults {
    pub image_effect_v1: PtrVal,
    pub property_v1: PtrVal,
    pub parameter_v1: PtrVal,
    pub memory_v1: PtrVal,
    pub multi_thread_v1: PtrVal,
    pub message_v1: PtrVal,
    pub message_v2: PtrVal,
    pub progress_v1: PtrVal,
    pub progress_v2: PtrVal,
    pub time_line_v1: PtrVal,
    pub parametric_parameter_v1: PtrVal,
    pub opengl_render_v1: PtrVal,
}

impl SuiteFetchResults {
    /// Whether every suite the loader insists on came back non-null.
    pub open spec fn spec_required_present(self) -> bool {
        &&& self.image_effect_v1 != 0
        &&& self.property_v1 != 0
        &&& self.parameter_v1 != 0
        &&& self.memory_v1 != 0
        &&& self.multi_thread_v1 != 0
        &&& self.message_v1 != 0
        &&& self.progress_v1 != 0
        &&& self.time_line_v1 != 0
    }
}

/// The suite table: one entry per suite kind, each the address of a
/// function-pointer table the host handed over, populated once per load and
/// shared read-only by every wrapper afterwards. Entries for the optional
/// suites hold zero when the host lacks them, and use of such a suite fails
/// at its call site rather than at load.
#[derive(Copy, Clone, Debug, PartialEq, Eq, Structural)]
pub struct Suites {
    pub image_effect: PtrVal,
    pub property: PtrVal,
    pub parameter: PtrVal,
    pub memory: PtrVal,
    pub multi_thread: PtrVal,
    pub message: PtrVal,
    pub message_v2: PtrVal,
    pub progress: PtrVal,
    pub progress_v2: PtrVal,
    pub time_line: PtrVal,
    pub parametric_parameter: PtrVal,
    pub image_effect_opengl_render: PtrVal,
}

impl Suites {
    /// A well-formed table has every required entry non-null.
    pub open spec fn spec_wf(self) -> bool {
        &&& self.image_effect != 0
        &&& self.property != 0
        &&& self.parameter != 0
        &&& self.memory != 0
        &&& self.multi_thread != 0
        &&& self.message != 0
        &&& self.progress != 0
        &&& self.time_line != 0
    }

    /// The table a successful load builds from what the host answered.
    pub open spec fn spec_from_fetch(fetched: SuiteFetchResults) -> Suites {
        Suites {
            image_effect: fetched.image_effect_v1,
            property: fetched.property_v1,
            parameter: fetched.parameter_v1,
            memory: fetched.memory_v1,
            multi_thread: fetched.multi_thread_v1,
            message: fetched.message_v1,
            message_v2: fetched.message_v2,
            progress: fetched.progress_v1,
            progress_v2: fetched.progress_v2,
            time_line: fetched.time_line_v1,
            parametric_parameter: fetched.parametric_parameter_v1,
            image_effect_opengl_render: fetched.opengl_render_v1,
        }
    }

    /// Judges a round of suite fetches: a null answer for any required suite
    /// is fatal, while the optional entries are kept as they came, null or
    /// not.
    pub fn new(fetched: SuiteFetchResults) -> (r: Result<Suites, Error>)
        ensures
            fetched.spec_required_present() ==> r == Ok::<Suites, Error>(
                Suites::spec_from_fetch(fetched),
            ),
            !fetched.spec_required_present() ==> r == Err::<Suites, Error>(Error::InvalidSuite),
            r matches Ok(s) ==> s.spec_wf(),
    {
        if fetched.image_effect_v1 == 0 || fetched.property_v1 == 0 || fetched.parameter_v1 == 0
            || fetched.memory_v1 == 0 || fetched.multi_thread_v1 == 0 || fetched.message_v1 == 0
            || fetched.progress_v1 == 0 || fetched.time_line_v1 == 0 {
            return Err(Error::InvalidSuite);
        }
        Ok(
            Suites {
                image_effect: fetched.image_effect_v1,
                property: fetched.property_v1,
                parameter: fetched.parameter_v1,
                memory: fetched.memory_v1,
                multi_thread: fetched.multi_thread_v1,
                message: fetched.message_v1,
                message_v2: fetched.message_v2,
                progress: fetched.progress_v1,
                progress_v2: fetched.progress_v2,
                time_line: fetched.time_line_v1,
                parametric_parameter: fetched.parametric_parameter_v1,
                image_effect_opengl_render: fetched.opengl_render_v1,
            },
        )
    }

    /// Whether the optional OpenGL-render suite came back at load.
    pub fn has_opengl_render(&self) -> (r: bool)
        ensures
            r == (self.image_effect_opengl_render != 0),
    {
        self.image_effect_opengl_render != 0
    }
}

} // verus!
