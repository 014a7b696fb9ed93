//! The action model: the two protocol name tables and the closed union of
//! typed actions an effect implementation is handed.

use vstd::prelude::*;
use vstd::string::StringSliceAdditionalSpecFns;
use crate::handle::ImageEffectHandle;
use crate::property::{
    BeginInstanceChangedInArgs, BeginSequenceRenderInArgs, DescribeInContextInArgs,
    EndInstanceChangedInArgs, EndSequenceRenderInArgs, GetClipPreferencesOutArgs,
    GetRegionOfDefinitionInArgs, GetRegionOfDefinitionOutArgs, GetRegionsOfInterestInArgs,
    GetRegionsOfInterestOutArgs, GetTimeDomainOutArgs, InstanceChangedInArgs, IsIdentityInArgs,
    IsIdentityOutArgs, RenderInArgs,
};
use crate::text::{c_bytes_of, matches_c_name, matches_name};

verus! {

/// The actions global to the plugin: lifecycle and instance bookkeeping.
#[derive(Copy, Clone, Debug, PartialEq, Eq, Structural)]
pub enum GlobalAction {
    Load,
    Describe,
    Unload,
    PurgeCaches,
    SyncPrivateData,
    CreateInstance,
    DestroyInstance,
    BeginInstanceChanged,
    InstanceChanged,
    EndInstanceChanged,
    BeginInstanceEdit,
    EndInstanceEdit,
    OpenGLContextAttached,
    OpenGLContextDetached,
    Dialog,
}

impl GlobalAction {
    /// The protocol name of this action, without the C terminator. One
    /// irregular value is faithful to the published header: the detach
    /// action's string carries the constant's leading letter.
    pub open spec fn spec_name_str(self) -> Seq<u8> {
        match self {
            GlobalAction::Load => "OfxActionLoad".spec_bytes(),
            GlobalAction::Describe => "OfxActionDescribe".spec_bytes(),
            GlobalAction::Unload => "OfxActionUnload".spec_bytes(),
            GlobalAction::PurgeCaches => "OfxActionPurgeCaches".spec_bytes(),
            GlobalAction::SyncPrivateData => "OfxActionSyncPrivateData".spec_bytes(),
            GlobalAction::CreateInstance => "OfxActionCreateInstance".spec_bytes(),
            GlobalAction::DestroyInstance => "OfxActionDestroyInstance".spec_bytes(),
            GlobalAction::BeginInstanceChanged => "OfxActionBeginInstanceChanged".spec_bytes(),
            GlobalAction::InstanceChanged => "OfxActionInstanceChanged".spec_bytes(),
            GlobalAction::EndInstanceChanged => "OfxActionEndInstanceChanged".spec_bytes(),
            GlobalAction::BeginInstanceEdit => "OfxActionBeginInstanceEdit".spec_bytes(),
            GlobalAction::EndInstanceEdit => "OfxActionEndInstanceEdit".spec_bytes(),
            GlobalAction::OpenGLContextAttached => "OfxActionOpenGLContextAttached".spec_bytes(),
            GlobalAction::OpenGLContextDetached => "kOfxActionOpenGLContextDetached".spec_bytes(),
            GlobalAction::Dialog => "OfxActionDialog".spec_bytes(),
        }
    }

    /// Which global action a raw entry-point name denotes, if any.
    pub open spec fn spec_of_name(name: Seq<u8>) -> Option<GlobalAction> {
        if name == GlobalAction::Load.spec_name_str() {
            Some(GlobalAction::Load)
        } else if name == GlobalAction::Describe.spec_name_str() {
            Some(GlobalAction::Describe)
        } else if name == GlobalAction::Unload.spec_name_str() {
            Some(GlobalAction::Unload)
        } else if name == GlobalAction::PurgeCaches.spec_name_str() {
            Some(GlobalAction::PurgeCaches)
        } else if name == GlobalAction::SyncPrivateData.spec_name_str() {
            Some(GlobalAction::SyncPrivateData)
        } else if name == GlobalAction::CreateInstance.spec_name_str() {
            Some(GlobalAction::CreateInstance)
        } else if name == GlobalAction::DestroyInstance.spec_name_str() {
            Some(GlobalAction::DestroyInstance)
        } else if name == GlobalAction::BeginInstanceChanged.spec_name_str() {
            Some(GlobalAction::BeginInstanceChanged)
        } else if name == GlobalAction::InstanceChanged.spec_name_str() {
            Some(GlobalAction::InstanceChanged)
        } else if name == GlobalAction::EndInstanceChanged.spec_name_str() {
            Some(GlobalAction::EndInstanceChanged)
        } else if name == GlobalAction::BeginInstanceEdit.spec_name_str() {
            Some(GlobalAction::BeginInstanceEdit)
        } else if name == GlobalAction::EndInstanceEdit.spec_name_str() {
            Some(GlobalAction::EndInstanceEdit)
        } else if name == GlobalAction::OpenGLContextAttached.spec_name_str() {
            Some(GlobalAction::OpenGLContextAttached)
        } else if name == GlobalAction::OpenGLContextDetached.spec_name_str() {
            Some(GlobalAction::OpenGLContextDetached)
        } else if name == GlobalAction::Dialog.spec_name_str() {
            Some(GlobalAction::Dialog)
        } else {
            None
        }
    }

    /// Looks a raw entry-point name (no terminator) up in the global table.
    pub fn from_name(name: &[u8]) -> (r: Option<GlobalAction>)
        ensures
            r == GlobalAction::spec_of_name(name@),
    {
        if matches_name("OfxActionLoad", name) {
            Some(GlobalAction::Load)
        } else if matches_name("OfxActionDescribe", name) {
            Some(GlobalAction::Describe)
        } else if matches_name("OfxActionUnload", name) {
            Some(GlobalAction::Unload)
        } else if matches_name("OfxActionPurgeCaches", name) {
            Some(GlobalAction::PurgeCaches)
        } else if matches_name("OfxActionSyncPrivateData", name) {
            Some(GlobalAction::SyncPrivateData)
        } else if matches_name("OfxActionCreateInstance", name) {
            Some(GlobalAction::CreateInstance)
        } else if matches_name("OfxActionDestroyInstance", name) {
            Some(GlobalAction::DestroyInstance)
        } else if matches_name("OfxActionBeginInstanceChanged", name) {
            Some(GlobalAction::BeginInstanceChanged)
        } else if matches_name("OfxActionInstanceChanged", name) {
            Some(GlobalAction::InstanceChanged)
        } else if matches_name("OfxActionEndInstanceChanged", name) {
            Some(GlobalAction::EndInstanceChanged)
        } else if matches_name("OfxActionBeginInstanceEdit", name) {
            Some(GlobalAction::BeginInstanceEdit)
        } else if matches_name("OfxActionEndInstanceEdit", name) {
            Some(GlobalAction::EndInstanceEdit)
        } else if matches_name("OfxActionOpenGLContextAttached", name) {
            Some(GlobalAction::OpenGLContextAttached)
        } else if matches_name("kOfxActionOpenGLContextDetached", name) {
            Some(GlobalAction::OpenGLContextDetached)
        } else if matches_name("OfxActionDialog", name) {
            Some(GlobalAction::Dialog)
        } else {
            None
        }
    }
}

impl crate::enums::IdentifiedEnum for GlobalAction {
    open spec fn spec_name(&self) -> Seq<u8> {
        self.spec_name_str().push(0)
    }

    fn to_bytes(&self) -> (r: Vec<u8>) {
        match *self {
            GlobalAction::Load => c_bytes_of("OfxActionLoad"),
            GlobalAction::Describe => c_bytes_of("OfxActionDescribe"),
            GlobalAction::Unload => c_bytes_of("OfxActionUnload"),
            GlobalAction::PurgeCaches => c_bytes_of("OfxActionPurgeCaches"),
            GlobalAction::SyncPrivateData => c_bytes_of("OfxActionSyncPrivateData"),
            GlobalAction::CreateInstance => c_bytes_of("OfxActionCreateInstance"),
            GlobalAction::DestroyInstance => c_bytes_of("OfxActionDestroyInstance"),
            GlobalAction::BeginInstanceChanged => c_bytes_of("OfxActionBeginInstanceChanged"),
            GlobalAction::InstanceChanged => c_bytes_of("OfxActionInstanceChanged"),
            GlobalAction::EndInstanceChanged => c_bytes_of("OfxActionEndInstanceChanged"),
            GlobalAction::BeginInstanceEdit => c_bytes_of("OfxActionBeginInstanceEdit"),
            GlobalAction::EndInstanceEdit => c_bytes_of("OfxActionEndInstanceEdit"),
            GlobalAction::OpenGLContextAttached => c_bytes_of("OfxActionOpenGLContextAttached"),
            GlobalAction::OpenGLContextDetached => c_bytes_of("kOfxActionOpenGLContextDetached"),
            GlobalAction::Dialog => c_bytes_of("OfxActionDialog"),
        }
    }

    fn from_bytes(ofx_name: &[u8]) -> (r: Option<Self>) {
        if matches_c_name("OfxActionLoad", ofx_name) {
            Some(GlobalAction::Load)
        } else if matches_c_name("OfxActionDescribe", ofx_name) {
            Some(GlobalAction::Describe)
        } else if matches_c_name("OfxActionUnload", ofx_name) {
            Some(GlobalAction::Unload)
        } else if matches_c_name("OfxActionPurgeCaches", ofx_name) {
            Some(GlobalAction::PurgeCaches)
        } else if matches_c_name("OfxActionSyncPrivateData", ofx_name) {
            Some(GlobalAction::SyncPrivateData)
        } else if matches_c_name("OfxActionCreateInstance", ofx_name) {
            Some(GlobalAction::CreateInstance)
        } else if matches_c_name("OfxActionDestroyInstance", ofx_name) {
            Some(GlobalAction::DestroyInstance)
        } else if matches_c_name("OfxActionBeginInstanceChanged", ofx_name) {
            Some(GlobalAction::BeginInstanceChanged)
        } else if matches_c_name("OfxActionInstanceChanged", ofx_name) {
            Some(GlobalAction::InstanceChanged)
        } else if matches_c_name("OfxActionEndInstanceChanged", ofx_name) {
            Some(GlobalAction::EndInstanceChanged)
        } else if matches_c_name("OfxActionBeginInstanceEdit", ofx_name) {
            Some(GlobalAction::BeginInstanceEdit)
        } else if matches_c_name("OfxActionEndInstanceEdit", ofx_name) {
            Some(GlobalAction::EndInstanceEdit)
        } else if matches_c_name("OfxActionOpenGLContextAttached", ofx_name) {
            Some(GlobalAction::OpenGLContextAttached)
        } else if matches_c_name("kOfxActionOpenGLContextDetached", ofx_name) {
            Some(GlobalAction::OpenGLContextDetached)
        } else if matches_c_name("OfxActionDialog", ofx_name) {
            Some(GlobalAction::Dialog)
        } else {
            None
        }
    }
}

/// The actions scoped to one image-effect instance.
#[derive(Copy, Clone, Debug, PartialEq, Eq, Structural)]
pub enum ImageEffectAction {
    GetRegionOfDefinition,
    GetRegionsOfInterest,
    GetTimeDomain,
    GetFramesNeeded,
    GetClipPreferences,
    IsIdentity,
    BeginSequenceRender,
    Render,
    EndSequenceRender,
    DescribeInContext,
    GetInverseDistortion,
    InvokeHelp,
    InvokeAbout,
    VegasKeyframeUplift,
}

impl ImageEffectAction {
    /// The protocol name of this action, without the C terminator.
    pub open spec fn spec_name_str(self) -> Seq<u8> {
        match self {
            ImageEffectAction::GetRegionOfDefinition =>
                "OfxImageEffectActionGetRegionOfDefinition".spec_bytes(),
            ImageEffectAction::GetRegionsOfInterest =>
                "OfxImageEffectActionGetRegionsOfInterest".spec_bytes(),
            ImageEffectAction::GetTimeDomain => "OfxImageEffectActionGetTimeDomain".spec_bytes(),
            ImageEffectAction::GetFramesNeeded =>
                "OfxImageEffectActionGetFramesNeeded".spec_bytes(),
            ImageEffectAction::GetClipPreferences =>
                "OfxImageEffectActionGetClipPreferences".spec_bytes(),
            ImageEffectAction::IsIdentity => "OfxImageEffectActionIsIdentity".spec_bytes(),
            ImageEffectAction::BeginSequenceRender =>
                "OfxImageEffectActionBeginSequenceRender".spec_bytes(),
            ImageEffectAction::Render => "OfxImageEffectActionRender".spec_bytes(),
            ImageEffectAction::EndSequenceRender =>
                "OfxImageEffectActionEndSequenceRender".spec_bytes(),
            ImageEffectAction::DescribeInContext =>
                "OfxImageEffectActionDescribeInContext".spec_bytes(),
            ImageEffectAction::GetInverseDistortion =>
                "OfxImageEffectActionGetInverseDistortion".spec_bytes(),
            ImageEffectAction::InvokeHelp => "OfxImageEffectActionInvokeHelp".spec_bytes(),
            ImageEffectAction::InvokeAbout => "OfxImageEffectActionInvokeAbout".spec_bytes(),
            ImageEffectAction::VegasKeyframeUplift =>
                "OfxImageEffectActionVegasKeyframeUplift".spec_bytes(),
        }
    }

    /// Which instance-scoped action a raw entry-point name denotes, if any.
    pub open spec fn spec_of_name(name: Seq<u8>) -> Option<ImageEffectAction> {
        if name == ImageEffectAction::GetRegionOfDefinition.spec_name_str() {
            Some(ImageEffectAction::GetRegionOfDefinition)
        } else if name == ImageEffectAction::GetRegionsOfInterest.spec_name_str() {
            Some(ImageEffectAction::GetRegionsOfInterest)
        } else if name == ImageEffectAction::GetTimeDomain.spec_name_str() {
            Some(ImageEffectAction::GetTimeDomain)
        } else if name == ImageEffectAction::GetFramesNeeded.spec_name_str() {
            Some(ImageEffectAction::GetFramesNeeded)
        } else if name == ImageEffectAction::GetClipPreferences.spec_name_str() {
            Some(ImageEffectAction::GetClipPreferences)
        } else if name == ImageEffectAction::IsIdentity.spec_name_str() {
            Some(ImageEffectAction::IsIdentity)
        } else if name == ImageEffectAction::BeginSequenceRender.spec_name_str() {
            Some(ImageEffectAction::BeginSequenceRender)
        } else if name == ImageEffectAction::Render.spec_name_str() {
            Some(ImageEffectAction::Render)
        } else if name == ImageEffectAction::EndSequenceRender.spec_name_str() {
            Some(ImageEffectAction::EndSequenceRender)
        } else if name == ImageEffectAction::DescribeInContext.spec_name_str() {
            Some(ImageEffectAction::DescribeInContext)
        } else if name == ImageEffectAction::GetInverseDistortion.spec_name_str() {
            Some(ImageEffectAction::GetInverseDistortion)
        } else if name == ImageEffectAction::InvokeHelp.spec_name_str() {
            Some(ImageEffectAction::InvokeHelp)
        } else if name == ImageEffectAction::InvokeAbout.spec_name_str() {
            Some(ImageEffectAction::InvokeAbout)
        } else if name == ImageEffectAction::VegasKeyframeUplift.spec_name_str() {
            Some(ImageEffectAction::VegasKeyframeUplift)
        } else {
            None
        }
    }

    /// Looks a raw entry-point name (no terminator) up in the instance table.
    pub fn from_name(name: &[u8]) -> (r: Option<ImageEffectAction>)
        ensures
            r == ImageEffectAction::spec_of_name(name@),
    {
        if matches_name("OfxImageEffectActionGetRegionOfDefinition", name) {
            Some(ImageEffectAction::GetRegionOfDefinition)
        } else if matches_name("OfxImageEffectActionGetRegionsOfInterest", name) {
            Some(ImageEffectAction::GetRegionsOfInterest)
        } else if matches_name("OfxImageEffectActionGetTimeDomain", name) {
            Some(ImageEffectAction::GetTimeDomain)
        } else if matches_name("OfxImageEffectActionGetFramesNeeded", name) {
            Some(ImageEffectAction::GetFramesNeeded)
        } else if matches_name("OfxImageEffectActionGetClipPreferences", name) {
            Some(ImageEffectAction::GetClipPreferences)
        } else if matches_name("OfxImageEffectActionIsIdentity", name) {
            Some(ImageEffectAction::IsIdentity)
        } else if matches_name("OfxImageEffectActionBeginSequenceRender", name) {
            Some(ImageEffectAction::BeginSequenceRender)
        } else if matches_name("OfxImageEffectActionRender", name) {
            Some(ImageEffectAction::Render)
        } else if matches_name("OfxImageEffectActionEndSequenceRender", name) {
            Some(ImageEffectAction::EndSequenceRender)
        } else if matches_name("OfxImageEffectActionDescribeInContext", name) {
            Some(ImageEffectAction::DescribeInContext)
        } else if matches_name("OfxImageEffectActionGetInverseDistortion", name) {
            Some(ImageEffectAction::GetInverseDistortion)
        } else if matches_name("OfxImageEffectActionInvokeHelp", name) {
            Some(ImageEffectAction::InvokeHelp)
        } else if matches_name("OfxImageEffectActionInvokeAbout", name) {
            Some(ImageEffectAction::InvokeAbout)
        } else if matches_name("OfxImageEffectActionVegasKeyframeUplift", name) {
            Some(ImageEffectAction::VegasKeyframeUplift)
        } else {
            None
        }
    }
}

/// The closed union of every action this library hands to an effect
/// implementation, each variant carrying exactly the typed handles and
/// property views the action's fixed signature declares. Load and Unload
/// carry nothing: the library handles them itself.
#[derive(Copy, Clone, Debug, PartialEq, Eq, Structural)]
pub enum Action {
    Load,
    Unload,
    Describe(ImageEffectHandle),
    DescribeInContext(ImageEffectHandle, DescribeInContextInArgs),
    GetRegionOfDefinition(
        ImageEffectHandle,
        GetRegionOfDefinitionInArgs,
        GetRegionOfDefinitionOutArgs,
    ),
    GetRegionsOfInterest(ImageEffectHandle, GetRegionsOfInterestInArgs, GetRegionsOfInterestOutArgs),
    GetTimeDomain(ImageEffectHandle, GetTimeDomainOutArgs),
    GetClipPreferences(ImageEffectHandle, GetClipPreferencesOutArgs),
    IsIdentity(ImageEffectHandle, IsIdentityInArgs, IsIdentityOutArgs),
    BeginSequenceRender(ImageEffectHandle, BeginSequenceRenderInArgs),
    Render(ImageEffectHandle, RenderInArgs),
    EndSequenceRender(ImageEffectHandle, EndSequenceRenderInArgs),
    CreateInstance(ImageEffectHandle),
    DestroyInstance(ImageEffectHandle),
    BeginInstanceChanged(ImageEffectHandle, BeginInstanceChangedInArgs),
    InstanceChanged(ImageEffectHandle, InstanceChangedInArgs),
    EndInstanceChanged(ImageEffectHandle, EndInstanceChangedInArgs),
    PurgeCaches(ImageEffectHandle),
    SyncPrivateData(ImageEffectHandle),
    OpenGLContextAttached(ImageEffectHandle),
    OpenGLContextDetached(ImageEffectHandle),
}

} // verus!
