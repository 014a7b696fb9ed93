//! Plugin-side core of a host-driven image-effect protocol: action dispatch,
//! typed property marshaling, suite-table loading, and the lifetime rules of
//! host-owned and plugin-owned resources. The library works on plain values;
//! an unverified shell owns the C boundary and hands the host's answers in.

pub mod action;
pub mod enums;
pub mod errors;
pub mod handle;
pub mod image;
pub mod plugin;
pub mod property;
pub mod suites;
pub mod text;
pub mod types;

pub use enums::{
    BitDepth, Change, HostNativeOrigin, IdentifiedEnum, ImageComponent, ImageEffectContext,
    ImageEffectRender, ImageField, ImageFieldExtraction, ImageFieldOrder, ImageType,
    ParamDoubleType, ParamInvalidate, ParamStringType, ParamType, Type,
};
pub use action::{Action, GlobalAction, ImageEffectAction};
pub use errors::Error;
pub use plugin::{
    ApiVersion, Dispatch, Execute, HostDescriptor, Plugin, PluginContext, PluginDescriptor,
    PluginVersion, RawMessage,
};
pub use handle::{
    ClipInstance, HasProperties, Image, ImageEffectHandle, ImageEffectHost, ParamHandle,
    ParamHandleValue, ParamHandleValueDefault, ParamSetHandle,
};
pub use image::{ImageDescriptor, ImageDescriptorMut, ImageTileMut};
pub use property::{AsProperties, PropId, PropertiesNewTypeConstructor, PropertySetHandle};
pub use suites::{SuiteFetchResults, SuiteKind, Suites};
pub use types::{Bool, Double, Int, PtrVal, RectD, RectI, Time, UnsignedInt};

