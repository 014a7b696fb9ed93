//! The property system: opaque property-set handles, the typed views an
//! action's signature declares, the name tokens this core touches, and the
//! capability model that makes a token reachable only through views it is
//! legal on.

use vstd::prelude::*;
use crate::types::{Int, PtrVal};

verus! {

/// An opaque, host-owned property set: the address of the bag. The plugin
/// never allocates or frees the underlying set; it is valid only as long as
/// the action that supplied it implies, except for effect, clip and
/// parameter property sets, which live as long as their owner.
#[derive(Copy, Clone, Debug, PartialEq, Eq, Structural)]
pub struct PropertySetHandle {
    pub inner: PtrVal,
}

impl PropertySetHandle {
    pub fn new(inner: PtrVal) -> (r: Self)
        ensures
            r.inner == inner,
    {
        PropertySetHandle { inner }
    }
}

/// Anything that is a typed view over a property set and can say which bag
/// it wraps.
pub trait AsProperties {
    /// The address of the property set under this view.
    spec fn spec_handle(&self) -> PtrVal;

    fn handle(&self) -> (r: PtrVal)
        ensures
            r == self.spec_handle(),
    ;
}

/// Typed views a raw handle can be wrapped into when an action arrives.
pub trait PropertiesNewTypeConstructor: AsProperties + Sized {
    fn build(host: PtrVal) -> (r: Self)
        ensures
            r.spec_handle() == host,
    ;
}

/// Wraps a raw property-set address in the view type an action's fixed
/// signature declares for it.
pub fn build_typed<T: PropertiesNewTypeConstructor>(host: PtrVal) -> (r: T)
    ensures
        r.spec_handle() == host,
{
    T::build(host)
}

/// The property name tokens this core itself reads and writes. Each is a
/// fixed protocol string; the capability model makes the token reachable
/// only through view types it is legal on.
#[derive(Copy, Clone, Debug, PartialEq, Eq, Structural)]
pub enum PropId {
    /// The kind of the object a property set describes.
    PropType,
    /// The pointer-valued slot holding plugin-owned per-instance data.
    InstanceData,
    /// An image's bounds rectangle.
    ImageBounds,
    /// An image's byte stride between rows.
    ImageRowBytes,
    /// An image's pixel base address.
    ImageData,
}

impl PropId {
    /// The protocol name token of this property.
    pub open spec fn spec_name(self) -> Seq<char> {
        match self {
            PropId::PropType => "OfxPropType"@,
            PropId::InstanceData => "OfxPropInstanceData"@,
            PropId::ImageBounds => "OfxImagePropBounds"@,
            PropId::ImageRowBytes => "OfxImagePropRowBytes"@,
            PropId::ImageData => "OfxImagePropData"@,
        }
    }

    pub fn name(self) -> (r: &'static str)
        ensures
            r@ == self.spec_name(),
    {
        match self {
            PropId::PropType => "OfxPropType",
            PropId::InstanceData => "OfxPropInstanceData",
            PropId::ImageBounds => "OfxImagePropBounds",
            PropId::ImageRowBytes => "OfxImagePropRowBytes",
            PropId::ImageData => "OfxImagePropData",
        }
    }
}

/// One pending write of a pointer-valued property, for the shell to perform
/// with the property suite's pointer setter: which bag, which name token,
/// which index, and the exact address to store.
#[derive(Copy, Clone, Debug, PartialEq, Eq, Structural)]
pub struct PropPointerWrite {
    pub property_set: PtrVal,
    pub name: PropId,
    pub index: Int,
    pub value: PtrVal,
}

/// One pending read of a property: which bag, which name token, which index.
#[derive(Copy, Clone, Debug, PartialEq, Eq, Structural)]
pub struct PropRead {
    pub property_set: PtrVal,
    pub name: PropId,
    pub index: Int,
}

/// Typed view over a property set: `HostProperties`.
#[derive(Copy, Clone, Debug, PartialEq, Eq, Structural)]
pub struct HostProperties(pub PropertySetHandle);

impl HostProperties {
    /// The view as a spec value, for contracts that name it.
    pub open spec fn spec_new(host: PtrVal) -> Self {
        HostProperties(PropertySetHandle { inner: host })
    }

    pub fn new(host: PtrVal) -> (r: Self)
        ensures
            r == HostProperties::spec_new(host),
    {
        HostProperties(PropertySetHandle::new(host))
    }
}

impl PropertiesNewTypeConstructor for HostProperties {
    fn build(host: PtrVal) -> (r: Self) {
        HostProperties::new(host)
    }
}

impl AsProperties for HostProperties {
    open spec fn spec_handle(&self) -> PtrVal {
        self.0.inner
    }

    fn handle(&self) -> (r: PtrVal) {
        self.0.inner
    }
}

/// Typed view over a property set: `EffectDescriptor`.
#[derive(Copy, Clone, Debug, PartialEq, Eq, Structural)]
pub struct EffectDescriptor(pub PropertySetHandle);

impl EffectDescriptor {
    /// The view as a spec value, for contracts that name it.
    pub open spec fn spec_new(host: PtrVal) -> Self {
        EffectDescriptor(PropertySetHandle { inner: host })
    }

    pub fn new(host: PtrVal) -> (r: Self)
        ensures
            r == EffectDescriptor::spec_new(host),
    {
        EffectDescriptor(PropertySetHandle::new(host))
    }
}

impl PropertiesNewTypeConstructor for EffectDescriptor {
    fn build(host: PtrVal) -> (r: Self) {
        EffectDescriptor::new(host)
    }
}

impl AsProperties for EffectDescriptor {
    open spec fn spec_handle(&self) -> PtrVal {
        self.0.inner
    }

    fn handle(&self) -> (r: PtrVal) {
        self.0.inner
    }
}

/// Typed view over a property set: `EffectInstance`.
#[derive(Copy, Clone, Debug, PartialEq, Eq, Structural)]
pub struct EffectInstance(pub PropertySetHandle);

impl EffectInstance {
    /// The view as a spec value, for contracts that name it.
    pub open spec fn spec_new(host: PtrVal) -> Self {
        EffectInstance(PropertySetHandle { inner: host })
    }

    pub fn new(host: PtrVal) -> (r: Self)
        ensures
            r == EffectInstance::spec_new(host),
    {
        EffectInstance(PropertySetHandle::new(host))
    }
}

impl PropertiesNewTypeConstructor for EffectInstance {
    fn build(host: PtrVal) -> (r: Self) {
        EffectInstance::new(host)
    }
}

impl AsProperties for EffectInstance {
    open spec fn spec_handle(&self) -> PtrVal {
        self.0.inner
    }

    fn handle(&self) -> (r: PtrVal) {
        self.0.inner
    }
}

/// Typed view over a property set: `ClipDescriptor`.
#[derive(Copy, Clone, Debug, PartialEq, Eq, Structural)]
pub struct ClipDescriptor(pub PropertySetHandle);

impl ClipDescriptor {
    /// The view as a spec value, for contracts that name it.
    pub open spec fn spec_new(host: PtrVal) -> Self {
        ClipDescriptor(PropertySetHandle { inner: host })
    }

    pub fn new(host: PtrVal) -> (r: Self)
        ensures
            r == ClipDescriptor::spec_new(host),
    {
        ClipDescriptor(PropertySetHandle::new(host))
    }
}

impl PropertiesNewTypeConstructor for ClipDescriptor {
    fn build(host: PtrVal) -> (r: Self) {
        ClipDescriptor::new(host)
    }
}

impl AsProperties for ClipDescriptor {
    open spec fn spec_handle(&self) -> PtrVal {
        self.0.inner
    }

    fn handle(&self) -> (r: PtrVal) {
        self.0.inner
    }
}

/// Typed view over a property set: `DescribeInContextInArgs`.
#[derive(Copy, Clone, Debug, PartialEq, Eq, Structural)]
pub struct DescribeInContextInArgs(pub PropertySetHandle);

impl DescribeInContextInArgs {
    /// The view as a spec value, for contracts that name it.
    pub open spec fn spec_new(host: PtrVal) -> Self {
        DescribeInContextInArgs(PropertySetHandle { inner: host })
    }

    pub fn new(host: PtrVal) -> (r: Self)
        ensures
            r == DescribeInContextInArgs::spec_new(host),
    {
        DescribeInContextInArgs(PropertySetHandle::new(host))
    }
}

impl PropertiesNewTypeConstructor for DescribeInContextInArgs {
    fn build(host: PtrVal) -> (r: Self) {
        DescribeInContextInArgs::new(host)
    }
}

impl AsProperties for DescribeInContextInArgs {
    open spec fn spec_handle(&self) -> PtrVal {
        self.0.inner
    }

    fn handle(&self) -> (r: PtrVal) {
        self.0.inner
    }
}

/// Typed view over a property set: `GetRegionOfDefinitionInArgs`.
#[derive(Copy, Clone, Debug, PartialEq, Eq, Structural)]
pub struct GetRegionOfDefinitionInArgs(pub PropertySetHandle);

impl GetRegionOfDefinitionInArgs {
    /// The view as a spec value, for contracts that name it.
    pub open spec fn spec_new(host: PtrVal) -> Self {
        GetRegionOfDefinitionInArgs(PropertySetHandle { inner: host })
    }

    pub fn new(host: PtrVal) -> (r: Self)
        ensures
            r == GetRegionOfDefinitionInArgs::spec_new(host),
    {
        GetRegionOfDefinitionInArgs(PropertySetHandle::new(host))
    }
}

impl PropertiesNewTypeConstructor for GetRegionOfDefinitionInArgs {
    fn build(host: PtrVal) -> (r: Self) {
        GetRegionOfDefinitionInArgs::new(host)
    }
}

impl AsProperties for GetRegionOfDefinitionInArgs {
    open spec fn spec_handle(&self) -> PtrVal {
        self.0.inner
    }

    fn handle(&self) -> (r: PtrVal) {
        self.0.inner
    }
}

/// Typed view over a property set: `GetRegionOfDefinitionOutArgs`.
#[derive(Copy, Clone, Debug, PartialEq, Eq, Structural)]
pub struct GetRegionOfDefinitionOutArgs(pub PropertySetHandle);

impl GetRegionOfDefinitionOutArgs {
    /// The view as a spec value, for contracts that name it.
    pub open spec fn spec_new(host: PtrVal) -> Self {
        GetRegionOfDefinitionOutArgs(PropertySetHandle { inner: host })
    }

    pub fn new(host: PtrVal) -> (r: Self)
        ensures
            r == GetRegionOfDefinitionOutArgs::spec_new(host),
    {
        GetRegionOfDefinitionOutArgs(PropertySetHandle::new(host))
    }
}

impl PropertiesNewTypeConstructor for GetRegionOfDefinitionOutArgs {
    fn build(host: PtrVal) -> (r: Self) {
        GetRegionOfDefinitionOutArgs::new(host)
    }
}

impl AsProperties for GetRegionOfDefinitionOutArgs {
    open spec fn spec_handle(&self) -> PtrVal {
        self.0.inner
    }

    fn handle(&self) -> (r: PtrVal) {
        self.0.inner
    }
}

/// Typed view over a property set: `GetRegionsOfInterestInArgs`.
#[derive(Copy, Clone, Debug, PartialEq, Eq, Structural)]
pub struct GetRegionsOfInterestInArgs(pub PropertySetHandle);

impl GetRegionsOfInterestInArgs {
    /// The view as a spec value, for contracts that name it.
    pub open spec fn spec_new(host: PtrVal) -> Self {
        GetRegionsOfInterestInArgs(PropertySetHandle { inner: host })
    }

    pub fn new(host: PtrVal) -> (r: Self)
        ensures
            r == GetRegionsOfInterestInArgs::spec_new(host),
    {
        GetRegionsOfInterestInArgs(PropertySetHandle::new(host))
    }
}

impl PropertiesNewTypeConstructor for GetRegionsOfInterestInArgs {
    fn build(host: PtrVal) -> (r: Self) {
        GetRegionsOfInterestInArgs::new(host)
    }
}

impl AsProperties for GetRegionsOfInterestInArgs {
    open spec fn spec_handle(&self) -> PtrVal {
        self.0.inner
    }

    fn handle(&self) -> (r: PtrVal) {
        self.0.inner
    }
}

/// Typed view over a property set: `GetRegionsOfInterestOutArgs`.
#[derive(Copy, Clone, Debug, PartialEq, Eq, Structural)]
pub struct GetRegionsOfInterestOutArgs(pub PropertySetHandle);

impl GetRegionsOfInterestOutArgs {
    /// The view as a spec value, for contracts that name it.
    pub open spec fn spec_new(host: PtrVal) -> Self {
        GetRegionsOfInterestOutArgs(PropertySetHandle { inner: host })
    }

    pub fn new(host: PtrVal) -> (r: Self)
        ensures
            r == GetRegionsOfInterestOutArgs::spec_new(host),
    {
        GetRegionsOfInterestOutArgs(PropertySetHandle::new(host))
    }
}

impl PropertiesNewTypeConstructor for GetRegionsOfInterestOutArgs {
    fn build(host: PtrVal) -> (r: Self) {
        GetRegionsOfInterestOutArgs::new(host)
    }
}

impl AsProperties for GetRegionsOfInterestOutArgs {
    open spec fn spec_handle(&self) -> PtrVal {
        self.0.inner
    }

    fn handle(&self) -> (r: PtrVal) {
        self.0.inner
    }
}

/// Typed view over a property set: `GetClipPreferencesOutArgs`.
#[derive(Copy, Clone, Debug, PartialEq, Eq, Structural)]
pub struct GetClipPreferencesOutArgs(pub PropertySetHandle);

impl GetClipPreferencesOutArgs {
    /// The view as a spec value, for contracts that name it.
    pub open spec fn spec_new(host: PtrVal) -> Self {
        GetClipPreferencesOutArgs(PropertySetHandle { inner: host })
    }

    pub fn new(host: PtrVal) -> (r: Self)
        ensures
            r == GetClipPreferencesOutArgs::spec_new(host),
    {
        GetClipPreferencesOutArgs(PropertySetHandle::new(host))
    }
}

impl PropertiesNewTypeConstructor for GetClipPreferencesOutArgs {
    fn build(host: PtrVal) -> (r: Self) {
        GetClipPreferencesOutArgs::new(host)
    }
}

impl AsProperties for GetClipPreferencesOutArgs {
    open spec fn spec_handle(&self) -> PtrVal {
        self.0.inner
    }

    fn handle(&self) -> (r: PtrVal) {
        self.0.inner
    }
}

/// Typed view over a property set: `IsIdentityInArgs`.
#[derive(Copy, Clone, Debug, PartialEq, Eq, Structural)]
pub struct IsIdentityInArgs(pub PropertySetHandle);

impl IsIdentityInArgs {
    /// The view as a spec value, for contracts that name it.
    pub open spec fn spec_new(host: PtrVal) -> Self {
        IsIdentityInArgs(PropertySetHandle { inner: host })
    }

    pub fn new(host: PtrVal) -> (r: Self)
        ensures
            r == IsIdentityInArgs::spec_new(host),
    {
        IsIdentityInArgs(PropertySetHandle::new(host))
    }
}

impl PropertiesNewTypeConstructor for IsIdentityInArgs {
    fn build(host: PtrVal) -> (r: Self) {
        IsIdentityInArgs::new(host)
    }
}

impl AsProperties for IsIdentityInArgs {
    open spec fn spec_handle(&self) -> PtrVal {
        self.0.inner
    }

    fn handle(&self) -> (r: PtrVal) {
        self.0.inner
    }
}

/// Typed view over a property set: `IsIdentityOutArgs`.
#[derive(Copy, Clone, Debug, PartialEq, Eq, Structural)]
pub struct IsIdentityOutArgs(pub PropertySetHandle);

impl IsIdentityOutArgs {
    /// The view as a spec value, for contracts that name it.
    pub open spec fn spec_new(host: PtrVal) -> Self {
        IsIdentityOutArgs(PropertySetHandle { inner: host })
    }

    pub fn new(host: PtrVal) -> (r: Self)
        ensures
            r == IsIdentityOutArgs::spec_new(host),
    {
        IsIdentityOutArgs(PropertySetHandle::new(host))
    }
}

impl PropertiesNewTypeConstructor for IsIdentityOutArgs {
    fn build(host: PtrVal) -> (r: Self) {
        IsIdentityOutArgs::new(host)
    }
}

impl AsProperties for IsIdentityOutArgs {
    open spec fn spec_handle(&self) -> PtrVal {
        self.0.inner
    }

    fn handle(&self) -> (r: PtrVal) {
        self.0.inner
    }
}

/// Typed view over a property set: `BeginInstanceChangedInArgs`.
#[derive(Copy, Clone, Debug, PartialEq, Eq, Structural)]
pub struct BeginInstanceChangedInArgs(pub PropertySetHandle);

impl BeginInstanceChangedInArgs {
    /// The view as a spec value, for contracts that name it.
    pub open spec fn spec_new(host: PtrVal) -> Self {
        BeginInstanceChangedInArgs(PropertySetHandle { inner: host })
    }

    pub fn new(host: PtrVal) -> (r: Self)
        ensures
            r == BeginInstanceChangedInArgs::spec_new(host),
    {
        BeginInstanceChangedInArgs(PropertySetHandle::new(host))
    }
}

impl PropertiesNewTypeConstructor for BeginInstanceChangedInArgs {
    fn build(host: PtrVal) -> (r: Self) {
        BeginInstanceChangedInArgs::new(host)
    }
}

impl AsProperties for BeginInstanceChangedInArgs {
    open spec fn spec_handle(&self) -> PtrVal {
        self.0.inner
    }

    fn handle(&self) -> (r: PtrVal) {
        self.0.inner
    }
}

/// Typed view over a property set: `InstanceChangedInArgs`.
#[derive(Copy, Clone, Debug, PartialEq, Eq, Structural)]
pub struct InstanceChangedInArgs(pub PropertySetHandle);

impl InstanceChangedInArgs {
    /// The view as a spec value, for contracts that name it.
    pub open spec fn spec_new(host: PtrVal) -> Self {
        InstanceChangedInArgs(PropertySetHandle { inner: host })
    }

    pub fn new(host: PtrVal) -> (r: Self)
        ensures
            r == InstanceChangedInArgs::spec_new(host),
    {
        InstanceChangedInArgs(PropertySetHandle::new(host))
    }
}

impl PropertiesNewTypeConstructor for InstanceChangedInArgs {
    fn build(host: PtrVal) -> (r: Self) {
        InstanceChangedInArgs::new(host)
    }
}

impl AsProperties for InstanceChangedInArgs {
    open spec fn spec_handle(&self) -> PtrVal {
        self.0.inner
    }

    fn handle(&self) -> (r: PtrVal) {
        self.0.inner
    }
}

/// Typed view over a property set: `InstanceChangedOutArgs`.
#[derive(Copy, Clone, Debug, PartialEq, Eq, Structural)]
pub struct InstanceChangedOutArgs(pub PropertySetHandle);

impl InstanceChangedOutArgs {
    /// The view as a spec value, for contracts that name it.
    pub open spec fn spec_new(host: PtrVal) -> Self {
        InstanceChangedOutArgs(PropertySetHandle { inner: host })
    }

    pub fn new(host: PtrVal) -> (r: Self)
        ensures
            r == InstanceChangedOutArgs::spec_new(host),
    {
        InstanceChangedOutArgs(PropertySetHandle::new(host))
    }
}

impl PropertiesNewTypeConstructor for InstanceChangedOutArgs {
    fn build(host: PtrVal) -> (r: Self) {
        InstanceChangedOutArgs::new(host)
    }
}

impl AsProperties for InstanceChangedOutArgs {
    open spec fn spec_handle(&self) -> PtrVal {
        self.0.inner
    }

    fn handle(&self) -> (r: PtrVal) {
        self.0.inner
    }
}

/// Typed view over a property set: `EndInstanceChangedInArgs`.
#[derive(Copy, Clone, Debug, PartialEq, Eq, Structural)]
pub struct EndInstanceChangedInArgs(pub PropertySetHandle);

impl EndInstanceChangedInArgs {
    /// The view as a spec value, for contracts that name it.
    pub open spec fn spec_new(host: PtrVal) -> Self {
        EndInstanceChangedInArgs(PropertySetHandle { inner: host })
    }

    pub fn new(host: PtrVal) -> (r: Self)
        ensures
            r == EndInstanceChangedInArgs::spec_new(host),
    {
        EndInstanceChangedInArgs(PropertySetHandle::new(host))
    }
}

impl PropertiesNewTypeConstructor for EndInstanceChangedInArgs {
    fn build(host: PtrVal) -> (r: Self) {
        EndInstanceChangedInArgs::new(host)
    }
}

impl AsProperties for EndInstanceChangedInArgs {
    open spec fn spec_handle(&self) -> PtrVal {
        self.0.inner
    }

    fn handle(&self) -> (r: PtrVal) {
        self.0.inner
    }
}

/// Typed view over a property set: `EndInstanceChangedOutArgs`.
#[derive(Copy, Clone, Debug, PartialEq, Eq, Structural)]
pub struct EndInstanceChangedOutArgs(pub PropertySetHandle);

impl EndInstanceChangedOutArgs {
    /// The view as a spec value, for contracts that name it.
    pub open spec fn spec_new(host: PtrVal) -> Self {
        EndInstanceChangedOutArgs(PropertySetHandle { inner: host })
    }

    pub fn new(host: PtrVal) -> (r: Self)
        ensures
            r == EndInstanceChangedOutArgs::spec_new(host),
    {
        EndInstanceChangedOutArgs(PropertySetHandle::new(host))
    }
}

impl PropertiesNewTypeConstructor for EndInstanceChangedOutArgs {
    fn build(host: PtrVal) -> (r: Self) {
        EndInstanceChangedOutArgs::new(host)
    }
}

impl AsProperties for EndInstanceChangedOutArgs {
    open spec fn spec_handle(&self) -> PtrVal {
        self.0.inner
    }

    fn handle(&self) -> (r: PtrVal) {
        self.0.inner
    }
}

/// Typed view over a property set: `GetTimeDomainOutArgs`.
#[derive(Copy, Clone, Debug, PartialEq, Eq, Structural)]
pub struct GetTimeDomainOutArgs(pub PropertySetHandle);

impl GetTimeDomainOutArgs {
    /// The view as a spec value, for contracts that name it.
    pub open spec fn spec_new(host: PtrVal) -> Self {
        GetTimeDomainOutArgs(PropertySetHandle { inner: host })
    }

    pub fn new(host: PtrVal) -> (r: Self)
        ensures
            r == GetTimeDomainOutArgs::spec_new(host),
    {
        GetTimeDomainOutArgs(PropertySetHandle::new(host))
    }
}

impl PropertiesNewTypeConstructor for GetTimeDomainOutArgs {
    fn build(host: PtrVal) -> (r: Self) {
        GetTimeDomainOutArgs::new(host)
    }
}

impl AsProperties for GetTimeDomainOutArgs {
    open spec fn spec_handle(&self) -> PtrVal {
        self.0.inner
    }

    fn handle(&self) -> (r: PtrVal) {
        self.0.inner
    }
}

/// Typed view over a property set: `BeginSequenceRenderInArgs`.
#[derive(Copy, Clone, Debug, PartialEq, Eq, Structural)]
pub struct BeginSequenceRenderInArgs(pub PropertySetHandle);

impl BeginSequenceRenderInArgs {
    /// The view as a spec value, for contracts that name it.
    pub open spec fn spec_new(host: PtrVal) -> Self {
        BeginSequenceRenderInArgs(PropertySetHandle { inner: host })
    }

    pub fn new(host: PtrVal) -> (r: Self)
        ensures
            r == BeginSequenceRenderInArgs::spec_new(host),
    {
        BeginSequenceRenderInArgs(PropertySetHandle::new(host))
    }
}

impl PropertiesNewTypeConstructor for BeginSequenceRenderInArgs {
    fn build(host: PtrVal) -> (r: Self) {
        BeginSequenceRenderInArgs::new(host)
    }
}

impl AsProperties for BeginSequenceRenderInArgs {
    open spec fn spec_handle(&self) -> PtrVal {
        self.0.inner
    }

    fn handle(&self) -> (r: PtrVal) {
        self.0.inner
    }
}

/// Typed view over a property set: `RenderInArgs`.
#[derive(Copy, Clone, Debug, PartialEq, Eq, Structural)]
pub struct RenderInArgs(pub PropertySetHandle);

impl RenderInArgs {
    /// The view as a spec value, for contracts that name it.
    pub open spec fn spec_new(host: PtrVal) -> Self {
        RenderInArgs(PropertySetHandle { inner: host })
    }

    pub fn new(host: PtrVal) -> (r: Self)
        ensures
            r == RenderInArgs::spec_new(host),
    {
        RenderInArgs(PropertySetHandle::new(host))
    }
}

impl PropertiesNewTypeConstructor for RenderInArgs {
    fn build(host: PtrVal) -> (r: Self) {
        RenderInArgs::new(host)
    }
}

impl AsProperties for RenderInArgs {
    open spec fn spec_handle(&self) -> PtrVal {
        self.0.inner
    }

    fn handle(&self) -> (r: PtrVal) {
        self.0.inner
    }
}

/// Typed view over a property set: `EndSequenceRenderInArgs`.
#[derive(Copy, Clone, Debug, PartialEq, Eq, Structural)]
pub struct EndSequenceRenderInArgs(pub PropertySetHandle);

impl EndSequenceRenderInArgs {
    /// The view as a spec value, for contracts that name it.
    pub open spec fn spec_new(host: PtrVal) -> Self {
        EndSequenceRenderInArgs(PropertySetHandle { inner: host })
    }

    pub fn new(host: PtrVal) -> (r: Self)
        ensures
            r == EndSequenceRenderInArgs::spec_new(host),
    {
        EndSequenceRenderInArgs(PropertySetHandle::new(host))
    }
}

impl PropertiesNewTypeConstructor for EndSequenceRenderInArgs {
    fn build(host: PtrVal) -> (r: Self) {
        EndSequenceRenderInArgs::new(host)
    }
}

impl AsProperties for EndSequenceRenderInArgs {
    open spec fn spec_handle(&self) -> PtrVal {
        self.0.inner
    }

    fn handle(&self) -> (r: PtrVal) {
        self.0.inner
    }
}

/// Typed view over a property set: `ParamDouble`.
#[derive(Copy, Clone, Debug, PartialEq, Eq, Structural)]
pub struct ParamDouble(pub PropertySetHandle);

impl ParamDouble {
    /// The view as a spec value, for contracts that name it.
    pub open spec fn spec_new(host: PtrVal) -> Self {
        ParamDouble(PropertySetHandle { inner: host })
    }

    pub fn new(host: PtrVal) -> (r: Self)
        ensures
            r == ParamDouble::spec_new(host),
    {
        ParamDouble(PropertySetHandle::new(host))
    }
}

impl PropertiesNewTypeConstructor for ParamDouble {
    fn build(host: PtrVal) -> (r: Self) {
        ParamDouble::new(host)
    }
}

impl AsProperties for ParamDouble {
    open spec fn spec_handle(&self) -> PtrVal {
        self.0.inner
    }

    fn handle(&self) -> (r: PtrVal) {
        self.0.inner
    }
}

/// Typed view over a property set: `ParamInt`.
#[derive(Copy, Clone, Debug, PartialEq, Eq, Structural)]
pub struct ParamInt(pub PropertySetHandle);

impl ParamInt {
    /// The view as a spec value, for contracts that name it.
    pub open spec fn spec_new(host: PtrVal) -> Self {
        ParamInt(PropertySetHandle { inner: host })
    }

    pub fn new(host: PtrVal) -> (r: Self)
        ensures
            r == ParamInt::spec_new(host),
    {
        ParamInt(PropertySetHandle::new(host))
    }
}

impl PropertiesNewTypeConstructor for ParamInt {
    fn build(host: PtrVal) -> (r: Self) {
        ParamInt::new(host)
    }
}

impl AsProperties for ParamInt {
    open spec fn spec_handle(&self) -> PtrVal {
        self.0.inner
    }

    fn handle(&self) -> (r: PtrVal) {
        self.0.inner
    }
}

/// Typed view over a property set: `ParamBoolean`.
#[derive(Copy, Clone, Debug, PartialEq, Eq, Structural)]
pub struct ParamBoolean(pub PropertySetHandle);

impl ParamBoolean {
    /// The view as a spec value, for contracts that name it.
    pub open spec fn spec_new(host: PtrVal) -> Self {
        ParamBoolean(PropertySetHandle { inner: host })
    }

    pub fn new(host: PtrVal) -> (r: Self)
        ensures
            r == ParamBoolean::spec_new(host),
    {
        ParamBoolean(PropertySetHandle::new(host))
    }
}

impl PropertiesNewTypeConstructor for ParamBoolean {
    fn build(host: PtrVal) -> (r: Self) {
        ParamBoolean::new(host)
    }
}

impl AsProperties for ParamBoolean {
    open spec fn spec_handle(&self) -> PtrVal {
        self.0.inner
    }

    fn handle(&self) -> (r: PtrVal) {
        self.0.inner
    }
}

/// Typed view over a property set: `ParamString`.
#[derive(Copy, Clone, Debug, PartialEq, Eq, Structural)]
pub struct ParamString(pub PropertySetHandle);

impl ParamString {
    /// The view as a spec value, for contracts that name it.
    pub open spec fn spec_new(host: PtrVal) -> Self {
        ParamString(PropertySetHandle { inner: host })
    }

    pub fn new(host: PtrVal) -> (r: Self)
        ensures
            r == ParamString::spec_new(host),
    {
        ParamString(PropertySetHandle::new(host))
    }
}

impl PropertiesNewTypeConstructor for ParamString {
    fn build(host: PtrVal) -> (r: Self) {
        ParamString::new(host)
    }
}

impl AsProperties for ParamString {
    open spec fn spec_handle(&self) -> PtrVal {
        self.0.inner
    }

    fn handle(&self) -> (r: PtrVal) {
        self.0.inner
    }
}

/// Typed view over a property set: `ParamPage`.
#[derive(Copy, Clone, Debug, PartialEq, Eq, Structural)]
pub struct ParamPage(pub PropertySetHandle);

impl ParamPage {
    /// The view as a spec value, for contracts that name it.
    pub open spec fn spec_new(host: PtrVal) -> Self {
        ParamPage(PropertySetHandle { inner: host })
    }

    pub fn new(host: PtrVal) -> (r: Self)
        ensures
            r == ParamPage::spec_new(host),
    {
        ParamPage(PropertySetHandle::new(host))
    }
}

impl PropertiesNewTypeConstructor for ParamPage {
    fn build(host: PtrVal) -> (r: Self) {
        ParamPage::new(host)
    }
}

impl AsProperties for ParamPage {
    open spec fn spec_handle(&self) -> PtrVal {
        self.0.inner
    }

    fn handle(&self) -> (r: PtrVal) {
        self.0.inner
    }
}

/// Typed view over a property set: `ParamGroup`.
#[derive(Copy, Clone, Debug, PartialEq, Eq, Structural)]
pub struct ParamGroup(pub PropertySetHandle);

impl ParamGroup {
    /// The view as a spec value, for contracts that name it.
    pub open spec fn spec_new(host: PtrVal) -> Self {
        ParamGroup(PropertySetHandle { inner: host })
    }

    pub fn new(host: PtrVal) -> (r: Self)
        ensures
            r == ParamGroup::spec_new(host),
    {
        ParamGroup(PropertySetHandle::new(host))
    }
}

impl PropertiesNewTypeConstructor for ParamGroup {
    fn build(host: PtrVal) -> (r: Self) {
        ParamGroup::new(host)
    }
}

impl AsProperties for ParamGroup {
    open spec fn spec_handle(&self) -> PtrVal {
        self.0.inner
    }

    fn handle(&self) -> (r: PtrVal) {
        self.0.inner
    }
}

/// Typed view over a property set: `ParamPushButton`.
#[derive(Copy, Clone, Debug, PartialEq, Eq, Structural)]
pub struct ParamPushButton(pub PropertySetHandle);

impl ParamPushButton {
    /// The view as a spec value, for contracts that name it.
    pub open spec fn spec_new(host: PtrVal) -> Self {
        ParamPushButton(PropertySetHandle { inner: host })
    }

    pub fn new(host: PtrVal) -> (r: Self)
        ensures
            r == ParamPushButton::spec_new(host),
    {
        ParamPushButton(PropertySetHandle::new(host))
    }
}

impl PropertiesNewTypeConstructor for ParamPushButton {
    fn build(host: PtrVal) -> (r: Self) {
        ParamPushButton::new(host)
    }
}

impl AsProperties for ParamPushButton {
    open spec fn spec_handle(&self) -> PtrVal {
        self.0.inner
    }

    fn handle(&self) -> (r: PtrVal) {
        self.0.inner
    }
}

/// Typed view over a property set: `ParamChoice`.
#[derive(Copy, Clone, Debug, PartialEq, Eq, Structural)]
pub struct ParamChoice(pub PropertySetHandle);

impl ParamChoice {
    /// The view as a spec value, for contracts that name it.
    pub open spec fn spec_new(host: PtrVal) -> Self {
        ParamChoice(PropertySetHandle { inner: host })
    }

    pub fn new(host: PtrVal) -> (r: Self)
        ensures
            r == ParamChoice::spec_new(host),
    {
        ParamChoice(PropertySetHandle::new(host))
    }
}

impl PropertiesNewTypeConstructor for ParamChoice {
    fn build(host: PtrVal) -> (r: Self) {
        ParamChoice::new(host)
    }
}

impl AsProperties for ParamChoice {
    open spec fn spec_handle(&self) -> PtrVal {
        self.0.inner
    }

    fn handle(&self) -> (r: PtrVal) {
        self.0.inner
    }
}

/// Typed view over a property set: `ParameterSet`.
#[derive(Copy, Clone, Debug, PartialEq, Eq, Structural)]
pub struct ParameterSet(pub PropertySetHandle);

impl ParameterSet {
    /// The view as a spec value, for contracts that name it.
    pub open spec fn spec_new(host: PtrVal) -> Self {
        ParameterSet(PropertySetHandle { inner: host })
    }

    pub fn new(host: PtrVal) -> (r: Self)
        ensures
            r == ParameterSet::spec_new(host),
    {
        ParameterSet(PropertySetHandle::new(host))
    }
}

impl PropertiesNewTypeConstructor for ParameterSet {
    fn build(host: PtrVal) -> (r: Self) {
        ParameterSet::new(host)
    }
}

impl AsProperties for ParameterSet {
    open spec fn spec_handle(&self) -> PtrVal {
        self.0.inner
    }

    fn handle(&self) -> (r: PtrVal) {
        self.0.inner
    }
}


/// The capability model in type form: a property token is reachable only
/// through the view types it is legal on, so reading a property outside a
/// view's capability set fails to compile rather than at run time. A view
/// with this capability can ask what kind of object its set describes; the
/// protocol's fixed kind names decode the answer.
pub trait ReadType: AsProperties {
    fn type_read(&self) -> (r: PropRead)
        ensures
            r.property_set == self.spec_handle(),
            r.name == PropId::PropType,
            r.index == 0,
    {
        PropRead { property_set: self.handle(), name: PropId::PropType, index: 0 }
    }
}

impl ReadType for HostProperties {

}

impl ReadType for EffectDescriptor {

}

impl ReadType for EffectInstance {

}

impl ReadType for ClipDescriptor {

}

/// The three reads a pixel-buffer descriptor fetch makes on a raw image
/// property set, in order: bounds, row stride, data address.
pub fn image_descriptor_reads(image: PtrVal) -> (r: (PropRead, PropRead, PropRead))
    ensures
        r.0 == (PropRead { property_set: image, name: PropId::ImageBounds, index: 0 }),
        r.1 == (PropRead { property_set: image, name: PropId::ImageRowBytes, index: 0 }),
        r.2 == (PropRead { property_set: image, name: PropId::ImageData, index: 0 }),
{
    (
        PropRead { property_set: image, name: PropId::ImageBounds, index: 0 },
        PropRead { property_set: image, name: PropId::ImageRowBytes, index: 0 },
        PropRead { property_set: image, name: PropId::ImageData, index: 0 },
    )
}

} // verus!
