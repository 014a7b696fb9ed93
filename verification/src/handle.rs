//! The typed handle wrappers: effects, clips, images and parameters, with
//! the ownership and release rules each resource kind obeys.

use vstd::prelude::*;
use vstd::string::StringSliceAdditionalSpecFns;
use vstd::utf8::{decode_utf8, encode_utf8, valid_utf8};
use core::marker::PhantomData;
use crate::errors::{Error, STATUS_OK};
use crate::errors::spec_result_of_status;
use crate::errors::result_of_status;
use crate::image::{ImageDescriptor, ImageDescriptorMut, ImageTileMut};
use crate::property::{
    AsProperties, ClipDescriptor, EffectDescriptor, EffectInstance, PropId, PropPointerWrite,
    PropertiesNewTypeConstructor, PropertySetHandle,
};
use crate::suites::Suites;
use crate::text::{c_bytes_of, spec_c_bytes, spec_has_no_null, string_from_host, to_c_string_bytes};
use crate::types::{Bool, Int, PtrVal, RectD, RectI, Time, UnsignedInt};

verus! {

/// Anything that can hand out a typed property view of itself.
pub trait HasProperties<T>: Sized {
    /// The view this value exposes.
    spec fn spec_properties(&self) -> Result<T, Error>;

    fn properties(&self) -> (r: Result<T, Error>)
        ensures
            r == self.spec_properties(),
    ;
}

/// The host's own descriptor bag, wrapped for property access.
#[derive(Copy, Clone, Debug, PartialEq, Eq, Structural)]
pub struct ImageEffectHost {
    pub inner: PtrVal,
}

impl ImageEffectHost {
    pub fn new(host: PtrVal) -> (r: Self)
        ensures
            r.inner == host,
    {
        ImageEffectHost { inner: host }
    }
}

/// An effect descriptor or instance as the host hands it to an action: the
/// opaque handle, the address of its property set, the pointer currently in
/// its instance-data slot, and the suite table every call on it needs. The
/// unverified shell reads the last three from the host when it wraps the raw
/// handle, and performs the writes this type decides on.
#[derive(Copy, Clone, Debug, PartialEq, Eq, Structural)]
pub struct ImageEffectHandle {
    pub inner: PtrVal,
    pub props: PtrVal,
    pub instance_data: PtrVal,
    pub suites: Suites,
}

/// The property write that attaches a fresh per-instance payload, together
/// with the address of a previously attached payload that must now be freed.
/// The protocol leaves re-attachment before detachment undefined; this
/// library frees the earlier payload rather than leaking it.
#[derive(Copy, Clone, Debug, PartialEq, Eq, Structural)]
pub struct InstanceDataWrite {
    pub write: PropPointerWrite,
    pub free_previous: Option<PtrVal>,
}

/// The outcome of detaching per-instance data: the address to free, if any
/// payload was attached, and the property write that clears the slot so a
/// repeated detach frees nothing.
#[derive(Copy, Clone, Debug, PartialEq, Eq, Structural)]
pub struct InstanceDataRelease {
    pub free: Option<PtrVal>,
    pub clear: PropPointerWrite,
}

impl ImageEffectHandle {
    pub fn new(inner: PtrVal, props: PtrVal, instance_data: PtrVal, suites: Suites) -> (r: Self)
        ensures
            r == (ImageEffectHandle { inner, props, instance_data, suites }),
    {
        ImageEffectHandle { inner, props, instance_data, suites }
    }

    /// Reports whether the host asked this render to abort, from the integer
    /// the abort query returned: the protocol carries the flag as zero or
    /// nonzero.
    pub fn abort(&self, fetched: Int) -> (r: Bool)
        ensures
            r == (fetched != 0),
    {
        fetched != 0
    }

    /// Wraps the parameter set the host returned for this effect, once the
    /// returned status allows it.
    pub fn parameter_set(&self, status: Int, raw: PtrVal) -> (r: Result<ParamSetHandle, Error>)
        ensures
            status == STATUS_OK ==> r == Ok::<ParamSetHandle, Error>(
                ParamSetHandle { inner: raw, suites: self.suites },
            ),
            status != STATUS_OK ==> r == Err::<ParamSetHandle, Error>(
                spec_result_of_status(status)->Err_0,
            ),
    {
        match result_of_status(status) {
            Ok(()) => Ok(ParamSetHandle { inner: raw, suites: self.suites }),
            Err(e) => Err(e),
        }
    }

    /// Wraps a named clip of this effect instance, validating the name before
    /// any call is made and judging the status the lookup returned.
    pub fn get_clip(&self, name: &str, status: Int, clip: PtrVal, clip_props: PtrVal) -> (r:
        Result<ClipInstance, Error>)
        ensures
            !spec_has_no_null(name.spec_bytes()) ==> r == Err::<ClipInstance, Error>(
                Error::StringConversion,
            ),
            spec_has_no_null(name.spec_bytes()) && status != STATUS_OK ==> r == Err::<
                ClipInstance,
                Error,
            >(spec_result_of_status(status)->Err_0),
            spec_has_no_null(name.spec_bytes()) && status == STATUS_OK ==> r == Ok::<
                ClipInstance,
                Error,
            >(ClipInstance { inner: clip, inner_properties: clip_props, suites: self.suites }),
    {
        let name_bytes = to_c_string_bytes(name);
        match name_bytes {
            Err(e) => Err(e),
            Ok(_) => match result_of_status(status) {
                Err(e) => Err(e),
                Ok(()) => Ok(
                    ClipInstance {
                        inner: clip,
                        inner_properties: clip_props,
                        suites: self.suites,
                    },
                ),
            },
        }
    }

    /// Wraps the mandated output clip. Its protocol name is fixed, so no
    /// validation can fail; `output_clip_name` gives the shell the name to
    /// ask the host for.
    pub fn get_output_clip(&self, status: Int, clip: PtrVal, clip_props: PtrVal) -> (r: Result<
        ClipInstance,
        Error,
    >)
        ensures
            status == STATUS_OK ==> r == Ok::<ClipInstance, Error>(
                ClipInstance { inner: clip, inner_properties: clip_props, suites: self.suites },
            ),
            status != STATUS_OK ==> r == Err::<ClipInstance, Error>(
                spec_result_of_status(status)->Err_0,
            ),
    {
        match result_of_status(status) {
            Err(e) => Err(e),
            Ok(()) => Ok(
                ClipInstance { inner: clip, inner_properties: clip_props, suites: self.suites },
            ),
        }
    }

    /// Wraps the conventional single source clip, as `get_output_clip` does
    /// the output.
    pub fn get_simple_input_clip(&self, status: Int, clip: PtrVal, clip_props: PtrVal) -> (r:
        Result<ClipInstance, Error>)
        ensures
            status == STATUS_OK ==> r == Ok::<ClipInstance, Error>(
                ClipInstance { inner: clip, inner_properties: clip_props, suites: self.suites },
            ),
            status != STATUS_OK ==> r == Err::<ClipInstance, Error>(
                spec_result_of_status(status)->Err_0,
            ),
    {
        self.get_output_clip(status, clip, clip_props)
    }

    /// Wraps the clip descriptor a definition call returned, validating the
    /// new clip's name first.
    pub fn new_clip(&self, name: &str, status: Int, descriptor_props: PtrVal) -> (r: Result<
        ClipDescriptor,
        Error,
    >)
        ensures
            !spec_has_no_null(name.spec_bytes()) ==> r == Err::<ClipDescriptor, Error>(
                Error::StringConversion,
            ),
            spec_has_no_null(name.spec_bytes()) && status != STATUS_OK ==> r == Err::<
                ClipDescriptor,
                Error,
            >(spec_result_of_status(status)->Err_0),
            spec_has_no_null(name.spec_bytes()) && status == STATUS_OK ==> (r matches Ok(d)
                && d.spec_handle() == descriptor_props),
    {
        let name_bytes = to_c_string_bytes(name);
        match name_bytes {
            Err(e) => Err(e),
            Ok(_) => match result_of_status(status) {
                Err(e) => Err(e),
                Ok(()) => Ok(ClipDescriptor::new(descriptor_props)),
            },
        }
    }

    /// Wraps the descriptor of a fixed-name clip definition.
    pub fn new_output_clip(&self, status: Int, descriptor_props: PtrVal) -> (r: Result<
        ClipDescriptor,
        Error,
    >)
        ensures
            status == STATUS_OK ==> (r matches Ok(d) && d.spec_handle() == descriptor_props),
            status != STATUS_OK ==> r == Err::<ClipDescriptor, Error>(
                spec_result_of_status(status)->Err_0,
            ),
    {
        match result_of_status(status) {
            Err(e) => Err(e),
            Ok(()) => Ok(ClipDescriptor::new(descriptor_props)),
        }
    }

    /// Wraps the descriptor of the fixed-name source clip definition.
    pub fn new_simple_input_clip(&self, status: Int, descriptor_props: PtrVal) -> (r: Result<
        ClipDescriptor,
        Error,
    >)
        ensures
            status == STATUS_OK ==> (r matches Ok(d) && d.spec_handle() == descriptor_props),
            status != STATUS_OK ==> r == Err::<ClipDescriptor, Error>(
                spec_result_of_status(status)->Err_0,
            ),
    {
        self.new_output_clip(status, descriptor_props)
    }

    /// What attaching a payload does to a handle: the slot takes the new
    /// address, the write stores exactly that address, and any earlier
    /// payload is named for freeing.
    pub open spec fn spec_set_instance_data(h: ImageEffectHandle, data_ptr: PtrVal) -> (
        ImageEffectHandle,
        InstanceDataWrite,
    ) {
        (
            ImageEffectHandle { instance_data: data_ptr, ..h },
            InstanceDataWrite {
                write: PropPointerWrite {
                    property_set: h.props,
                    name: PropId::InstanceData,
                    index: 0,
                    value: data_ptr,
                },
                free_previous: if h.instance_data != 0 {
                    Some(h.instance_data)
                } else {
                    None
                },
            },
        )
    }

    /// What reading the slot yields: exactly what it holds.
    pub open spec fn spec_get_instance_data(h: ImageEffectHandle) -> PtrVal {
        h.instance_data
    }

    /// Attaches a per-instance payload: records the address in the model,
    /// hands the shell the exact property write that stores it, and names the
    /// earlier payload to free when one was already attached.
    pub fn set_instance_data(&mut self, data_ptr: PtrVal) -> (r: InstanceDataWrite)
        ensures
            *final(self) == Self::spec_set_instance_data(*old(self), data_ptr).0,
            r == Self::spec_set_instance_data(*old(self), data_ptr).1,
    {
        let previous = self.instance_data;
        self.instance_data = data_ptr;
        InstanceDataWrite {
            write: PropPointerWrite {
                property_set: self.props,
                name: PropId::InstanceData,
                index: 0,
                value: data_ptr,
            },
            free_previous: if previous != 0 {
                Some(previous)
            } else {
                None
            },
        }
    }

    /// The address currently attached to this instance, exactly as the last
    /// write stored it: reading back yields the identical value.
    pub fn get_instance_data(&self) -> (r: PtrVal)
        ensures
            r == Self::spec_get_instance_data(*self),
    {
        self.instance_data
    }

    /// What detaching the per-instance data does to a handle: the address to
    /// free when a payload is attached, and the slot cleared either way.
    pub open spec fn spec_drop_instance_data(h: ImageEffectHandle) -> (
        ImageEffectHandle,
        InstanceDataRelease,
    ) {
        (
            ImageEffectHandle { instance_data: 0, ..h },
            InstanceDataRelease {
                free: if h.instance_data != 0 {
                    Some(h.instance_data)
                } else {
                    None
                },
                clear: PropPointerWrite {
                    property_set: h.props,
                    name: PropId::InstanceData,
                    index: 0,
                    value: 0,
                },
            },
        )
    }

    /// Detaches the per-instance payload: decides what to free and clears the
    /// slot, so the payload is freed exactly once even when the destroy
    /// action is delivered twice.
    pub fn drop_instance_data(&mut self) -> (r: InstanceDataRelease)
        ensures
            *final(self) == Self::spec_drop_instance_data(*old(self)).0,
            r == Self::spec_drop_instance_data(*old(self)).1,
    {
        let previous = self.instance_data;
        self.instance_data = 0;
        InstanceDataRelease {
            free: if previous != 0 {
                Some(previous)
            } else {
                None
            },
            clear: PropPointerWrite {
                property_set: self.props,
                name: PropId::InstanceData,
                index: 0,
                value: 0,
            },
        }
    }
}

/// Law: however the host drives the destroy action, a payload is freed at
/// most once. The first detach on a handle with a payload frees exactly that
/// payload and clears the slot; a detach on the cleared handle frees
/// nothing.
pub proof fn lemma_instance_data_freed_exactly_once(h: ImageEffectHandle)
    ensures
        ImageEffectHandle::spec_drop_instance_data(h).1.free == (if h.instance_data != 0 {
            Some(h.instance_data)
        } else {
            None::<PtrVal>
        }),
        ImageEffectHandle::spec_drop_instance_data(
            ImageEffectHandle::spec_drop_instance_data(h).0,
        ).1.free is None,
{
}

/// Law: the instance-data slot round-trips addresses unchanged: the write an
/// attach emits stores exactly the address given, and a read after the
/// attach yields that identical address, so a host that keeps pointer
/// properties intact hands the same logical value back.
pub proof fn lemma_instance_data_round_trip(h: ImageEffectHandle, data_ptr: PtrVal)
    ensures
        ImageEffectHandle::spec_set_instance_data(h, data_ptr).1.write.value == data_ptr,
        ImageEffectHandle::spec_get_instance_data(
            ImageEffectHandle::spec_set_instance_data(h, data_ptr).0,
        ) == data_ptr,
{
}

impl HasProperties<EffectInstance> for ImageEffectHandle {
    open spec fn spec_properties(&self) -> Result<EffectInstance, Error> {
        Ok(EffectInstance(PropertySetHandle { inner: self.props }))
    }

    fn properties(&self) -> (r: Result<EffectInstance, Error>) {
        Ok(EffectInstance::new(self.props))
    }
}

impl HasProperties<EffectDescriptor> for ImageEffectHandle {
    open spec fn spec_properties(&self) -> Result<EffectDescriptor, Error> {
        Ok(EffectDescriptor(PropertySetHandle { inner: self.props }))
    }

    fn properties(&self) -> (r: Result<EffectDescriptor, Error>) {
        Ok(EffectDescriptor::new(self.props))
    }
}

/// A clip of a live effect instance: the clip handle, its property set, and
/// the suites its image fetches go through.
#[derive(Copy, Clone, Debug, PartialEq, Eq, Structural)]
pub struct ClipInstance {
    pub inner: PtrVal,
    pub inner_properties: PtrVal,
    pub suites: Suites,
}

/// One pending region-of-definition query on a clip.
#[derive(Copy, Clone, Debug, PartialEq, Eq, Structural)]
pub struct RodRequest {
    pub clip: PtrVal,
    pub time: Time,
}

/// One pending image or texture fetch on a clip: which clip, at what time,
/// over which region (`None` asks for the clip's full region of definition),
/// and through which acquisition path. The path decides the matching release
/// call later.
#[derive(Clone, Copy, Debug, PartialEq, Eq)]
pub struct ImageFetchRequest {
    pub clip: PtrVal,
    pub time: Time,
    pub region: Option<RectD>,
    pub texture: bool,
}

impl ClipInstance {
    pub fn new(inner: PtrVal, inner_properties: PtrVal, suites: Suites) -> (r: Self)
        ensures
            r == (ClipInstance { inner, inner_properties, suites }),
    {
        ClipInstance { inner, inner_properties, suites }
    }

    /// The region-of-definition query for this clip at a time.
    pub fn get_region_of_definition(&self, time: Time) -> (r: RodRequest)
        ensures
            r == (RodRequest { clip: self.inner, time }),
    {
        RodRequest { clip: self.inner, time }
    }

    /// An image fetch over the clip's full region of definition.
    pub fn get_image(&self, time: Time) -> (r: ImageFetchRequest)
        ensures
            r.clip == self.inner,
            r.time == time,
            r.region is None,
            !r.texture,
    {
        self.get_image_rect(time, None)
    }

    /// An image fetch over an explicit region, or the full region when none
    /// is given.
    pub fn get_image_rect(&self, time: Time, region: Option<RectD>) -> (r: ImageFetchRequest)
        ensures
            r.clip == self.inner,
            r.time == time,
            r.region == region,
            !r.texture,
    {
        ImageFetchRequest { clip: self.inner, time, region, texture: false }
    }

    /// The same fetch as `get_image`, for a wrapper the shell hands out
    /// exclusively.
    pub fn get_image_mut(&mut self, time: Time) -> (r: ImageFetchRequest)
        ensures
            r.clip == old(self).inner,
            r.time == time,
            r.region is None,
            !r.texture,
            *final(self) == *old(self),
    {
        self.get_image_rect_mut(time, None)
    }

    /// The same fetch as `get_image_rect`, for a wrapper the shell hands out
    /// exclusively.
    pub fn get_image_rect_mut(&mut self, time: Time, region: Option<RectD>) -> (r:
        ImageFetchRequest)
        ensures
            r.clip == old(self).inner,
            r.time == time,
            r.region == region,
            !r.texture,
            *final(self) == *old(self),
    {
        ImageFetchRequest { clip: self.inner, time, region, texture: false }
    }

    /// A texture fetch through the optional OpenGL-render suite. When that
    /// suite was not available at load, the fetch fails here, at the call
    /// site, with `InvalidSuite`.
    pub fn load_texture(&self, time: Time, region: Option<RectD>) -> (r: Result<
        ImageFetchRequest,
        Error,
    >)
        ensures
            self.suites.image_effect_opengl_render == 0 ==> r == Err::<ImageFetchRequest, Error>(
                Error::InvalidSuite,
            ),
            self.suites.image_effect_opengl_render != 0 ==> (r matches Ok(q) && q.clip
                == self.inner && q.time == time && q.region == region && q.texture),
    {
        if self.suites.image_effect_opengl_render == 0 {
            Err(Error::InvalidSuite)
        } else {
            Ok(ImageFetchRequest { clip: self.inner, time, region, texture: true })
        }
    }

    /// The same fetch as `load_texture`, for a wrapper the shell hands out
    /// exclusively.
    pub fn load_texture_mut(&self, time: Time, region: Option<RectD>) -> (r: Result<
        ImageFetchRequest,
        Error,
    >)
        ensures
            self.suites.image_effect_opengl_render == 0 ==> r == Err::<ImageFetchRequest, Error>(
                Error::InvalidSuite,
            ),
            self.suites.image_effect_opengl_render != 0 ==> (r matches Ok(q) && q.clip
                == self.inner && q.time == time && q.region == region && q.texture),
    {
        self.load_texture(time, region)
    }
}

impl HasProperties<ClipDescriptor> for ClipInstance {
    open spec fn spec_properties(&self) -> Result<ClipDescriptor, Error> {
        Ok(ClipDescriptor(PropertySetHandle { inner: self.inner_properties }))
    }

    fn properties(&self) -> (r: Result<ClipDescriptor, Error>) {
        Ok(ClipDescriptor::new(self.inner_properties))
    }
}

/// The release call an image wrapper owes the host: which property set, and
/// through which suite entry — the texture path frees with the OpenGL
/// suite, the conventional path releases with the image-effect suite.
#[derive(Copy, Clone, Debug, PartialEq, Eq, Structural)]
pub struct ImageReleaseCall {
    pub image: PtrVal,
    pub texture: bool,
}

/// One fetched image or texture: its property set, how it was obtained, the
/// three readings its pixel access needs (bounds, row stride, base address),
/// and whether its single release has been taken yet. The shell reads the
/// three values from the image's property set when wrapping, and its drop
/// glue performs exactly the release this type hands out.
#[derive(Copy, Clone, Debug, PartialEq, Eq, Structural)]
pub struct Image {
    pub inner: PtrVal,
    pub suites: Suites,
    pub is_texture: bool,
    pub bounds: RectI,
    pub row_bytes: Int,
    pub data: PtrVal,
    pub released: bool,
}

impl Image {
    pub fn new(
        inner: PtrVal,
        suites: Suites,
        is_texture: bool,
        bounds: RectI,
        row_bytes: Int,
        data: PtrVal,
    ) -> (r: Self)
        ensures
            r == (Image { inner, suites, is_texture, bounds, row_bytes, data, released: false }),
    {
        Image { inner, suites, is_texture, bounds, row_bytes, data, released: false }
    }

    pub fn get_bounds(&self) -> (r: RectI)
        ensures
            r == self.bounds,
    {
        self.bounds
    }

    pub fn get_row_bytes(&self) -> (r: Int)
        ensures
            r == self.row_bytes,
    {
        self.row_bytes
    }

    pub fn get_data(&self) -> (r: PtrVal)
        ensures
            r == self.data,
    {
        self.data
    }

    /// The read-only pixel-buffer descriptor: bounds, row stride and base
    /// pointer, as the three property reads supplied them.
    pub fn get_descriptor(&self) -> (r: ImageDescriptor)
        ensures
            r == (ImageDescriptor {
                bounds: self.bounds,
                row_bytes: self.row_bytes,
                data: self.data,
            }),
    {
        ImageDescriptor::new(self.bounds, self.row_bytes, self.data)
    }

    /// Splits the mutable buffer into `count` disjoint row bands that cover
    /// the bounds exactly once; see `ImageDescriptorMut::into_tiles` for the
    /// partition the result is proved to be.
    pub fn get_tiles_mut(&mut self, count: usize) -> (r: Result<Vec<ImageTileMut>, Error>)
        ensures
            *final(self) == *old(self),
            r matches Ok(tiles) && ({
                let d = ImageDescriptorMut {
                    bounds: old(self).bounds,
                    row_bytes: old(self).row_bytes,
                    data: old(self).data,
                };
                &&& tiles.len() == d.spec_tile_count(count as int)
                &&& (forall|i: int|
                    0 <= i < tiles.len() ==> d.spec_tile_wf(#[trigger] tiles[i]))
                &&& (tiles.len() > 0 ==> tiles[0].bounds.y1 == d.bounds.y1)
                &&& (tiles.len() > 0 ==> tiles[tiles.len() - 1].bounds.y2 == d.bounds.y2)
                &&& (forall|i: int|
                    0 < i < tiles.len() ==> #[trigger] tiles[i].bounds.y1 == tiles[i
                        - 1].bounds.y2)
            }),
    {
        let d = ImageDescriptorMut::new(self.bounds, self.row_bytes, self.data);
        Ok(d.into_tiles(count))
    }

    /// What one release step does to a wrapper: a wrapper already released
    /// owes nothing; a texture wrapper without the OpenGL suite cannot be
    /// released and reports `InvalidSuite`; otherwise the single matching
    /// release call is handed out and the wrapper is marked released.
    pub open spec fn spec_release_step(img: Image) -> (Image, Result<
        Option<ImageReleaseCall>,
        Error,
    >) {
        if img.released {
            (img, Ok(None))
        } else if img.is_texture && img.suites.image_effect_opengl_render == 0 {
            (img, Err(Error::InvalidSuite))
        } else {
            (
                Image { released: true, ..img },
                Ok(Some(ImageReleaseCall { image: img.inner, texture: img.is_texture })),
            )
        }
    }

    /// Takes the wrapper's single release call, exactly once: the call that
    /// matches how the image was obtained on the first take, nothing on any
    /// later take.
    pub fn drop_image(&mut self) -> (r: Result<Option<ImageReleaseCall>, Error>)
        ensures
            *final(self) == Image::spec_release_step(*old(self)).0,
            r == Image::spec_release_step(*old(self)).1,
    {
        if self.released {
            Ok(None)
        } else if self.is_texture && self.suites.image_effect_opengl_render == 0 {
            Err(Error::InvalidSuite)
        } else {
            let call = ImageReleaseCall { image: self.inner, texture: self.is_texture };
            self.released = true;
            Ok(Some(call))
        }
    }
}

/// Law: per image wrapper, exactly one release call is issued, and it
/// matches how the image was obtained. Once a step has handed out the call,
/// every later step on the wrapper hands out none; and any call handed out
/// names the wrapper's own property set and its own acquisition path.
pub proof fn lemma_image_released_exactly_once(img: Image)
    ensures
        Image::spec_release_step(img).1 matches Ok(c) && c is Some ==> Image::spec_release_step(
            Image::spec_release_step(img).0,
        ).1 == Ok::<Option<ImageReleaseCall>, Error>(None),
        Image::spec_release_step(img).1 matches Ok(c) ==> (c matches Some(call) ==> call.texture
            == img.is_texture && call.image == img.inner),
{
}

/// Marker for the native value types a parameter can carry.
pub trait ParamHandleValue: Sized {

}

impl ParamHandleValue for Int {

}

impl ParamHandleValue for Bool {

}

impl ParamHandleValue for crate::types::Double {

}

impl ParamHandleValue for String {

}

/// The value types that cross the boundary unchanged, with no marshaling.
pub trait ParamHandleValueDefault: ParamHandleValue {

}

impl ParamHandleValueDefault for Int {

}

impl ParamHandleValueDefault for crate::types::Double {

}

/// A typed parameter accessor: the parameter handle, its property set, the
/// suites calls on it go through, and the value type it marshals at compile
/// time.
#[derive(Debug)]
pub struct ParamHandle<T: ParamHandleValue> {
    pub inner: PtrVal,
    pub inner_properties: PtrVal,
    pub suites: Suites,
    pub value_type: PhantomData<T>,
}

impl<T: ParamHandleValue> Clone for ParamHandle<T> {
    fn clone(&self) -> (r: Self)
        ensures
            r.inner == self.inner,
            r.inner_properties == self.inner_properties,
            r.suites == self.suites,
    {
        ParamHandle {
            inner: self.inner,
            inner_properties: self.inner_properties,
            suites: self.suites,
            value_type: PhantomData,
        }
    }
}

/// One pending write of a plainly-marshaled parameter value.
#[derive(Clone, Debug)]
pub struct ParamWrite<T> {
    pub param: PtrVal,
    pub value: T,
}

/// One pending timed write of a plainly-marshaled parameter value.
#[derive(Clone, Debug)]
pub struct ParamWriteAtTime<T> {
    pub param: PtrVal,
    pub time: Time,
    pub value: T,
}

/// One pending write of a boolean parameter, already marshaled to the
/// protocol's integer form.
#[derive(Copy, Clone, Debug, PartialEq, Eq, Structural)]
pub struct ParamIntWrite {
    pub param: PtrVal,
    pub raw: Int,
}

/// One pending timed write of a boolean parameter, already marshaled.
#[derive(Copy, Clone, Debug, PartialEq, Eq, Structural)]
pub struct ParamIntWriteAtTime {
    pub param: PtrVal,
    pub time: Time,
    pub raw: Int,
}

/// One pending write of a string parameter, already in C form.
#[derive(Clone, Debug)]
pub struct ParamBytesWrite {
    pub param: PtrVal,
    pub bytes: Vec<u8>,
}

/// One pending timed write of a string parameter, already in C form.
#[derive(Clone, Debug)]
pub struct ParamBytesWriteAtTime {
    pub param: PtrVal,
    pub time: Time,
    pub bytes: Vec<u8>,
}

/// A keyframe operation on a parameter.
#[derive(Copy, Clone, Debug, PartialEq, Eq, Structural)]
pub enum ParamKeyOp {
    /// How many keys the parameter has.
    CountKeys,
    /// The time of the key at an index.
    KeyTime { nth_key: UnsignedInt },
    /// The index of the key at or beside a time, searched in a direction.
    KeyIndex { time: Time, direction: Int },
    /// Remove the key at a time.
    DeleteKey { time: Time },
    /// Remove every key.
    DeleteAllKeys,
}

/// One pending keyframe operation: which parameter, which operation.
#[derive(Copy, Clone, Debug, PartialEq, Eq, Structural)]
pub struct ParamKeyRequest {
    pub param: PtrVal,
    pub op: ParamKeyOp,
}

/// The protocol's integer form of a boolean: one for true, zero for false.
pub open spec fn spec_marshal_bool(value: bool) -> Int {
    if value {
        1
    } else {
        0
    }
}

impl<T: ParamHandleValue> ParamHandle<T> {
    pub fn new(inner: PtrVal, inner_properties: PtrVal, suites: Suites) -> (r: Self)
        ensures
            r.inner == inner,
            r.inner_properties == inner_properties,
            r.suites == suites,
    {
        ParamHandle { inner, inner_properties, suites, value_type: PhantomData }
    }

    pub fn get_num_keys(&self) -> (r: ParamKeyRequest)
        ensures
            r == (ParamKeyRequest { param: self.inner, op: ParamKeyOp::CountKeys }),
    {
        ParamKeyRequest { param: self.inner, op: ParamKeyOp::CountKeys }
    }

    pub fn get_key_time(&self, nth_key: UnsignedInt) -> (r: ParamKeyRequest)
        ensures
            r == (ParamKeyRequest { param: self.inner, op: ParamKeyOp::KeyTime { nth_key } }),
    {
        ParamKeyRequest { param: self.inner, op: ParamKeyOp::KeyTime { nth_key } }
    }

    pub fn get_key_index(&self, time: Time, direction: Int) -> (r: ParamKeyRequest)
        ensures
            r == (ParamKeyRequest {
                param: self.inner,
                op: ParamKeyOp::KeyIndex { time, direction },
            }),
    {
        ParamKeyRequest { param: self.inner, op: ParamKeyOp::KeyIndex { time, direction } }
    }

    pub fn delete_key(&self, time: Time) -> (r: ParamKeyRequest)
        ensures
            r == (ParamKeyRequest { param: self.inner, op: ParamKeyOp::DeleteKey { time } }),
    {
        ParamKeyRequest { param: self.inner, op: ParamKeyOp::DeleteKey { time } }
    }

    pub fn delete_all_keys(&self) -> (r: ParamKeyRequest)
        ensures
            r == (ParamKeyRequest { param: self.inner, op: ParamKeyOp::DeleteAllKeys }),
    {
        ParamKeyRequest { param: self.inner, op: ParamKeyOp::DeleteAllKeys }
    }
}

impl<T: ParamHandleValueDefault + Copy> ParamHandle<T> {
    /// A plainly-marshaled value crosses the boundary unchanged: the decode
    /// of what the host wrote is the value itself.
    pub fn get_value(&self, fetched: T) -> (r: T)
        ensures
            r == fetched,
    {
        fetched
    }

    /// As `get_value`, for the timed read.
    pub fn get_value_at_time(&self, time: Time, fetched: T) -> (r: T)
        ensures
            r == fetched,
    {
        fetched
    }

    /// The write request for a plainly-marshaled value: the exact value
    /// given, on this parameter.
    pub fn set_value(&self, value: T) -> (r: ParamWrite<T>)
        ensures
            r.param == self.inner,
            r.value == value,
    {
        ParamWrite { param: self.inner, value }
    }

    /// As `set_value`, at an explicit time.
    pub fn set_value_at_time(&self, time: Time, value: T) -> (r: ParamWriteAtTime<T>)
        ensures
            r.param == self.inner,
            r.time == time,
            r.value == value,
    {
        ParamWriteAtTime { param: self.inner, time, value }
    }
}

impl ParamHandle<Bool> {
    /// Unmarshals a boolean from the host's native integer form: any nonzero
    /// integer reads as true.
    pub fn get_value(&self, raw: Int) -> (r: Bool)
        ensures
            r == (raw != 0),
    {
        raw != 0
    }

    /// As `get_value`, for the timed read.
    pub fn get_value_at_time(&self, time: Time, raw: Int) -> (r: Bool)
        ensures
            r == (raw != 0),
    {
        raw != 0
    }

    /// Marshals a boolean write: true travels as a nonzero integer, false as
    /// zero.
    pub fn set_value(&self, value: Bool) -> (r: ParamIntWrite)
        ensures
            r.param == self.inner,
            r.raw == spec_marshal_bool(value),
            (r.raw != 0) == value,
    {
        ParamIntWrite { param: self.inner, raw: if value { 1 } else { 0 } }
    }

    /// As `set_value`, at an explicit time.
    pub fn set_value_at_time(&self, time: Time, value: Bool) -> (r: ParamIntWriteAtTime)
        ensures
            r.param == self.inner,
            r.time == time,
            r.raw == spec_marshal_bool(value),
            (r.raw != 0) == value,
    {
        ParamIntWriteAtTime { param: self.inner, time, raw: if value { 1 } else { 0 } }
    }
}

/// Law: the boolean marshaling round-trips: a written value reads back as
/// itself, true travels as a nonzero integer and false as zero.
pub proof fn lemma_bool_marshal_round_trip(value: bool)
    ensures
        (spec_marshal_bool(value) != 0) == value,
        spec_marshal_bool(true) == 1,
        spec_marshal_bool(false) == 0,
{
}

impl ParamHandle<String> {
    /// Decodes a string read. `None` stands for the null pointer a host
    /// reports for a parameter with no value yet, which yields the empty
    /// string, not an error.
    pub fn get_value(&self, raw: Option<Vec<u8>>) -> (r: Result<String, Error>)
        ensures
            raw is None ==> (r matches Ok(s) && s@ == Seq::<char>::empty()),
            raw matches Some(b) ==> (valid_utf8(b@) ==> (r matches Ok(s) && s@ == decode_utf8(
                b@,
            ))),
            raw matches Some(b) ==> (!valid_utf8(b@) ==> r == Err::<String, Error>(
                Error::StringConversion,
            )),
    {
        string_from_host(raw)
    }

    /// As `get_value`, for the timed read.
    pub fn get_value_at_time(&self, time: Time, raw: Option<Vec<u8>>) -> (r: Result<String, Error>)
        ensures
            raw is None ==> (r matches Ok(s) && s@ == Seq::<char>::empty()),
            raw matches Some(b) ==> (valid_utf8(b@) ==> (r matches Ok(s) && s@ == decode_utf8(
                b@,
            ))),
            raw matches Some(b) ==> (!valid_utf8(b@) ==> r == Err::<String, Error>(
                Error::StringConversion,
            )),
    {
        string_from_host(raw)
    }

    /// Marshals a string write into C form, rejecting embedded nulls before
    /// any call is made.
    pub fn set_value(&self, value: String) -> (r: Result<ParamBytesWrite, Error>)
        ensures
            match r {
                Ok(w) => spec_has_no_null(encode_utf8(value@)) && w.param == self.inner
                    && w.bytes@ == encode_utf8(value@).push(0),
                Err(e) => e == Error::StringConversion && !spec_has_no_null(encode_utf8(value@)),
            },
    {
        match to_c_string_bytes(value.as_str()) {
            Ok(bytes) => Ok(ParamBytesWrite { param: self.inner, bytes }),
            Err(e) => Err(e),
        }
    }

    /// As `set_value`, at an explicit time.
    pub fn set_value_at_time(&self, time: Time, value: String) -> (r: Result<
        ParamBytesWriteAtTime,
        Error,
    >)
        ensures
            match r {
                Ok(w) => spec_has_no_null(encode_utf8(value@)) && w.param == self.inner && w.time
                    == time && w.bytes@ == encode_utf8(value@).push(0),
                Err(e) => e == Error::StringConversion && !spec_has_no_null(encode_utf8(value@)),
            },
    {
        match to_c_string_bytes(value.as_str()) {
            Ok(bytes) => Ok(ParamBytesWriteAtTime { param: self.inner, time, bytes }),
            Err(e) => Err(e),
        }
    }
}

/// The parameter set of an effect: where parameters are defined while
/// describing and looked up while running.
#[derive(Copy, Clone, Debug, PartialEq, Eq, Structural)]
pub struct ParamSetHandle {
    pub inner: PtrVal,
    pub suites: Suites,
}

/// One pending parameter definition: which set, which parameter kind's name
/// token to pass, and the new parameter's name in C form.
#[derive(Clone, Debug)]
pub struct ParamDefineRequest {
    pub param_set: PtrVal,
    pub param_type: crate::enums::ParamType,
    pub name_bytes: Vec<u8>,
}

impl ParamSetHandle {
    pub fn new(inner: PtrVal, suites: Suites) -> (r: Self)
        ensures
            r == (ParamSetHandle { inner, suites }),
    {
        ParamSetHandle { inner, suites }
    }

    /// The definition request for a new parameter of a kind, with the name
    /// validated before any call is made.
    fn param_define(&mut self, param_type: crate::enums::ParamType, name: &str) -> (r: Result<
        ParamDefineRequest,
        Error,
    >)
        ensures
            match r {
                Ok(q) => spec_has_no_null(name.spec_bytes()) && q.param_set == old(self).inner
                    && q.param_type == param_type && q.name_bytes@ == spec_c_bytes(name),
                Err(e) => e == Error::StringConversion && !spec_has_no_null(name.spec_bytes()),
            },
            *final(self) == *old(self),
    {
        match to_c_string_bytes(name) {
            Ok(name_bytes) => Ok(
                ParamDefineRequest { param_set: self.inner, param_type, name_bytes },
            ),
            Err(e) => Err(e),
        }
    }

    /// Wraps what a definition call returned in the typed descriptor view of
    /// the new parameter's kind.
    pub fn param_defined<T: PropertiesNewTypeConstructor>(&self, status: Int, defined: PtrVal) -> (
        r: Result<T, Error>)
        ensures
            status == STATUS_OK ==> (r matches Ok(v) && v.spec_handle() == defined),
            status != STATUS_OK ==> (r matches Err(e) && e == spec_result_of_status(
                status,
            )->Err_0),
    {
        match result_of_status(status) {
            Ok(()) => Ok(T::build(defined)),
            Err(e) => Err(e),
        }
    }

    /// Looks up an existing parameter by name and value type: the name is
    /// validated before any call, a failed lookup keeps the host's verdict
    /// (an unknown name surfaces as the bad-handle error), and a successful
    /// one wraps the returned handles at the requested type.
    pub fn parameter<T: ParamHandleValue>(
        &self,
        name: &str,
        status: Int,
        param: PtrVal,
        param_props: PtrVal,
    ) -> (r: Result<ParamHandle<T>, Error>)
        ensures
            !spec_has_no_null(name.spec_bytes()) ==> (r matches Err(e) && e
                == Error::StringConversion),
            spec_has_no_null(name.spec_bytes()) && status != STATUS_OK ==> (r matches Err(e) && e
                == spec_result_of_status(status)->Err_0),
            spec_has_no_null(name.spec_bytes()) && status == STATUS_OK ==> (r matches Ok(h)
                && h.inner == param && h.inner_properties == param_props && h.suites
                == self.suites),
    {
        match to_c_string_bytes(name) {
            Err(e) => Err(e),
            Ok(_) => match result_of_status(status) {
                Err(e) => Err(e),
                Ok(()) => Ok(ParamHandle::new(param, param_props, self.suites)),
            },
        }
    }

    pub fn param_define_double(&mut self, name: &str) -> (r: Result<ParamDefineRequest, Error>)
        ensures
            match r {
                Ok(q) => spec_has_no_null(name.spec_bytes()) && q.param_set == old(self).inner
                    && q.param_type == crate::enums::ParamType::Double && q.name_bytes@
                    == spec_c_bytes(name),
                Err(e) => e == Error::StringConversion && !spec_has_no_null(name.spec_bytes()),
            },
            *final(self) == *old(self),
    {
        self.param_define(crate::enums::ParamType::Double, name)
    }

    pub fn param_define_int(&mut self, name: &str) -> (r: Result<ParamDefineRequest, Error>)
        ensures
            match r {
                Ok(q) => spec_has_no_null(name.spec_bytes()) && q.param_set == old(self).inner
                    && q.param_type == crate::enums::ParamType::Integer && q.name_bytes@
                    == spec_c_bytes(name),
                Err(e) => e == Error::StringConversion && !spec_has_no_null(name.spec_bytes()),
            },
            *final(self) == *old(self),
    {
        self.param_define(crate::enums::ParamType::Integer, name)
    }

    pub fn param_define_boolean(&mut self, name: &str) -> (r: Result<ParamDefineRequest, Error>)
        ensures
            match r {
                Ok(q) => spec_has_no_null(name.spec_bytes()) && q.param_set == old(self).inner
                    && q.param_type == crate::enums::ParamType::Boolean && q.name_bytes@
                    == spec_c_bytes(name),
                Err(e) => e == Error::StringConversion && !spec_has_no_null(name.spec_bytes()),
            },
            *final(self) == *old(self),
    {
        self.param_define(crate::enums::ParamType::Boolean, name)
    }

    pub fn param_define_string(&mut self, name: &str) -> (r: Result<ParamDefineRequest, Error>)
        ensures
            match r {
                Ok(q) => spec_has_no_null(name.spec_bytes()) && q.param_set == old(self).inner
                    && q.param_type == crate::enums::ParamType::Text && q.name_bytes@
                    == spec_c_bytes(name),
                Err(e) => e == Error::StringConversion && !spec_has_no_null(name.spec_bytes()),
            },
            *final(self) == *old(self),
    {
        self.param_define(crate::enums::ParamType::Text, name)
    }

    pub fn param_define_group(&mut self, name: &str) -> (r: Result<ParamDefineRequest, Error>)
        ensures
            match r {
                Ok(q) => spec_has_no_null(name.spec_bytes()) && q.param_set == old(self).inner
                    && q.param_type == crate::enums::ParamType::Group && q.name_bytes@
                    == spec_c_bytes(name),
                Err(e) => e == Error::StringConversion && !spec_has_no_null(name.spec_bytes()),
            },
            *final(self) == *old(self),
    {
        self.param_define(crate::enums::ParamType::Group, name)
    }

    pub fn param_define_page(&mut self, name: &str) -> (r: Result<ParamDefineRequest, Error>)
        ensures
            match r {
                Ok(q) => spec_has_no_null(name.spec_bytes()) && q.param_set == old(self).inner
                    && q.param_type == crate::enums::ParamType::Page && q.name_bytes@
                    == spec_c_bytes(name),
                Err(e) => e == Error::StringConversion && !spec_has_no_null(name.spec_bytes()),
            },
            *final(self) == *old(self),
    {
        self.param_define(crate::enums::ParamType::Page, name)
    }

    pub fn param_define_button(&mut self, name: &str) -> (r: Result<ParamDefineRequest, Error>)
        ensures
            match r {
                Ok(q) => spec_has_no_null(name.spec_bytes()) && q.param_set == old(self).inner
                    && q.param_type == crate::enums::ParamType::PushButton && q.name_bytes@
                    == spec_c_bytes(name),
                Err(e) => e == Error::StringConversion && !spec_has_no_null(name.spec_bytes()),
            },
            *final(self) == *old(self),
    {
        self.param_define(crate::enums::ParamType::PushButton, name)
    }

    pub fn param_define_choice(&mut self, name: &str) -> (r: Result<ParamDefineRequest, Error>)
        ensures
            match r {
                Ok(q) => spec_has_no_null(name.spec_bytes()) && q.param_set == old(self).inner
                    && q.param_type == crate::enums::ParamType::Choice && q.name_bytes@
                    == spec_c_bytes(name),
                Err(e) => e == Error::StringConversion && !spec_has_no_null(name.spec_bytes()),
            },
            *final(self) == *old(self),
    {
        self.param_define(crate::enums::ParamType::Choice, name)
    }
}

/// The fixed protocol name of the mandated output clip, in C form, for the
/// shell to pass to clip calls.
pub fn output_clip_name() -> (r: Vec<u8>)
    ensures
        r@ == spec_c_bytes("Output"),
{
    c_bytes_of("Output")
}

/// The fixed protocol name of the conventional single source clip, in C
/// form.
pub fn simple_input_clip_name() -> (r: Vec<u8>)
    ensures
        r@ == spec_c_bytes("Source"),
{
    c_bytes_of("Source")
}

} // verus!
