use ofx::errors::{Error, STATUS_ERR_BAD_HANDLE, STATUS_OK};
use ofx::handle::{
    ClipInstance, Image, ImageEffectHandle, ParamHandle, ParamKeyOp, ParamSetHandle,
};
use ofx::handle::HasProperties;
use ofx::enums::ParamType;
use ofx::property::{
    image_descriptor_reads, AsProperties, ClipDescriptor, EffectInstance, ParamDouble, PropId,
    PropertiesNewTypeConstructor, ReadType,
};
use ofx::suites::{SuiteFetchResults, Suites};
use ofx::text::{bytes_eq, c_bytes_of, string_from_host, to_c_string_bytes};
use ofx::types::{Double, RectD, RectI, Time};

fn full_fetch() -> SuiteFetchResults {
    SuiteFetchResults {
        image_effect_v1: 11,
        property_v1: 12,
        parameter_v1: 13,
        memory_v1: 14,
        multi_thread_v1: 15,
        message_v1: 16,
        message_v2: 17,
        progress_v1: 18,
        progress_v2: 19,
        time_line_v1: 20,
        parametric_parameter_v1: 21,
        opengl_render_v1: 22,
    }
}

fn loaded_suites() -> Suites {
    Suites::new(full_fetch()).unwrap()
}

fn suites_without_opengl() -> Suites {
    let mut fetch = full_fetch();
    fetch.opengl_render_v1 = 0;
    Suites::new(fetch).unwrap()
}

#[test]
fn text_round_trips() {
    assert!(bytes_eq(b"abc", b"abc"));
    assert!(!bytes_eq(b"abc", b"abd"));
    assert!(!bytes_eq(b"abc", b"ab"));
    assert_eq!(c_bytes_of("gain"), b"gain\0".to_vec());
    assert_eq!(to_c_string_bytes("gain").unwrap(), b"gain\0".to_vec());
    assert_eq!(to_c_string_bytes("ga\0in"), Err(Error::StringConversion));
    assert_eq!(string_from_host(None).unwrap(), "");
    assert_eq!(string_from_host(Some(b"hello".to_vec())).unwrap(), "hello");
    assert_eq!(
        string_from_host(Some(vec![0xff, 0xfe])),
        Err(Error::StringConversion)
    );
}

#[test]
fn bool_param_marshaling() {
    let p: ParamHandle<bool> = ParamHandle::new(100, 101, loaded_suites());
    let write_true = p.set_value(true);
    assert_eq!(write_true.param, 100);
    assert_eq!(write_true.raw, 1);
    assert!(write_true.raw != 0);
    let write_false = p.set_value(false);
    assert_eq!(write_false.raw, 0);
    // round trip: what a write marshals, a read unmarshals back
    assert_eq!(p.get_value(write_true.raw), true);
    assert_eq!(p.get_value(write_false.raw), false);
    assert_eq!(p.get_value(42), true);
    let timed = p.set_value_at_time(Time { bits: 7 }, true);
    assert_eq!(timed.time, Time { bits: 7 });
    assert_eq!(timed.raw, 1);
    assert_eq!(p.get_value_at_time(Time { bits: 7 }, timed.raw), true);
}

#[test]
fn string_param_null_pointer_reads_empty() {
    let p: ParamHandle<String> = ParamHandle::new(100, 101, loaded_suites());
    assert_eq!(p.get_value(None).unwrap(), "");
    assert_eq!(p.get_value(Some(b"text".to_vec())).unwrap(), "text");
    assert_eq!(
        p.get_value(Some(vec![0x80])),
        Err(Error::StringConversion)
    );
    let w = p.set_value("value".to_string()).unwrap();
    assert_eq!(w.param, 100);
    assert_eq!(w.bytes, b"value\0".to_vec());
    assert_eq!(
        p.set_value("va\0lue".to_string()).unwrap_err(),
        Error::StringConversion
    );
    let wt = p
        .set_value_at_time(Time { bits: 3 }, "v".to_string())
        .unwrap();
    assert_eq!(wt.bytes, b"v\0".to_vec());
}

#[test]
fn int_param_passthrough() {
    let p: ParamHandle<i32> = ParamHandle::new(100, 101, loaded_suites());
    assert_eq!(p.get_value(7), 7);
    assert_eq!(p.get_value_at_time(Time { bits: 0 }, -3), -3);
    let w = p.set_value(9);
    assert_eq!(w.param, 100);
    assert_eq!(w.value, 9);
}

#[test]
fn double_param_passthrough() {
    let p: ParamHandle<Double> = ParamHandle::new(100, 101, loaded_suites());
    let v = Double { bits: (2.5f64).to_bits() };
    let w = p.set_value(v);
    assert_eq!(w.param, 100);
    assert_eq!(w.value, v);
    assert_eq!(p.get_value(v), v);
    assert_eq!(f64::from_bits(p.get_value(v).bits), 2.5);
}

#[test]
fn param_keyframe_requests() {
    let p: ParamHandle<i32> = ParamHandle::new(100, 101, loaded_suites());
    assert_eq!(p.get_num_keys().op, ParamKeyOp::CountKeys);
    assert_eq!(p.get_key_time(4).op, ParamKeyOp::KeyTime { nth_key: 4 });
    assert_eq!(
        p.get_key_index(Time { bits: 8 }, -1).op,
        ParamKeyOp::KeyIndex { time: Time { bits: 8 }, direction: -1 }
    );
    assert_eq!(
        p.delete_key(Time { bits: 8 }).op,
        ParamKeyOp::DeleteKey { time: Time { bits: 8 } }
    );
    assert_eq!(p.delete_all_keys().op, ParamKeyOp::DeleteAllKeys);
    assert_eq!(p.delete_all_keys().param, 100);
}

#[test]
fn param_set_define_and_lookup() {
    let mut set = ParamSetHandle::new(50, loaded_suites());
    let req = set.param_define_double("gain").unwrap();
    assert_eq!(req.param_set, 50);
    assert_eq!(req.param_type, ParamType::Double);
    assert_eq!(req.name_bytes, b"gain\0".to_vec());
    let req = set.param_define_boolean("on").unwrap();
    assert_eq!(req.param_type, ParamType::Boolean);
    let req = set.param_define_string("label").unwrap();
    assert_eq!(req.param_type, ParamType::Text);
    assert_eq!(req.name_bytes, b"label\0".to_vec());
    let req = set.param_define_choice("mode").unwrap();
    assert_eq!(req.param_type, ParamType::Choice);
    assert_eq!(
        set.param_define_int("bad\0name").unwrap_err(),
        Error::StringConversion
    );

    let view: ParamDouble = set.param_defined(STATUS_OK, 77).unwrap();
    assert_eq!(view.handle(), 77);
    let err = set
        .param_defined::<ParamDouble>(STATUS_ERR_BAD_HANDLE, 77)
        .unwrap_err();
    assert_eq!(err, Error::InvalidHandle);

    let p: ParamHandle<bool> = set.parameter("on", STATUS_OK, 60, 61).unwrap();
    assert_eq!(p.inner, 60);
    assert_eq!(p.inner_properties, 61);
    let missing = set.parameter::<bool>("gone", STATUS_ERR_BAD_HANDLE, 0, 0);
    assert_eq!(missing.unwrap_err(), Error::InvalidHandle);
    let invalid = set.parameter::<bool>("ba\0d", STATUS_OK, 60, 61);
    assert_eq!(invalid.unwrap_err(), Error::StringConversion);
}

#[test]
fn clip_image_fetches() {
    let clip = ClipInstance::new(30, 31, loaded_suites());
    let rod = clip.get_region_of_definition(Time { bits: 5 });
    assert_eq!(rod.clip, 30);
    assert_eq!(rod.time, Time { bits: 5 });

    let fetch = clip.get_image(Time { bits: 5 });
    assert_eq!(fetch.clip, 30);
    assert!(fetch.region.is_none());
    assert!(!fetch.texture);

    let region = RectD { x1: 1, y1: 2, x2: 3, y2: 4 };
    let fetch = clip.get_image_rect(Time { bits: 5 }, Some(region));
    assert_eq!(fetch.region, Some(region));

    let tex = clip.load_texture(Time { bits: 5 }, None).unwrap();
    assert!(tex.texture);

    let props: ClipDescriptor = clip.properties().unwrap();
    assert_eq!(props.handle(), 31);
}

#[test]
fn load_texture_without_opengl_suite_fails() {
    let clip = ClipInstance::new(30, 31, suites_without_opengl());
    assert_eq!(
        clip.load_texture(Time { bits: 0 }, None).unwrap_err(),
        Error::InvalidSuite
    );
    assert_eq!(
        clip.load_texture_mut(Time { bits: 0 }, None).unwrap_err(),
        Error::InvalidSuite
    );
}

#[test]
fn image_released_exactly_once() {
    let bounds = RectI { x1: 0, y1: 0, x2: 8, y2: 8 };
    let mut img = Image::new(40, loaded_suites(), false, bounds, 32, 4096);
    let first = img.drop_image().unwrap().unwrap();
    assert_eq!(first.image, 40);
    assert!(!first.texture);
    // the second take, as a misbehaving unwind path would trigger it
    assert_eq!(img.drop_image().unwrap(), None);
    assert_eq!(img.drop_image().unwrap(), None);

    let mut tex = Image::new(41, loaded_suites(), true, bounds, 32, 4096);
    let call = tex.drop_image().unwrap().unwrap();
    assert!(call.texture);
    assert_eq!(tex.drop_image().unwrap(), None);
}

#[test]
fn texture_release_without_opengl_suite_fails() {
    let bounds = RectI { x1: 0, y1: 0, x2: 8, y2: 8 };
    let mut tex = Image::new(41, suites_without_opengl(), true, bounds, 32, 4096);
    assert_eq!(tex.drop_image().unwrap_err(), Error::InvalidSuite);
    // still unreleased: the error did not consume the single release
    assert_eq!(tex.drop_image().unwrap_err(), Error::InvalidSuite);
}

#[test]
fn image_descriptor_readings() {
    let bounds = RectI { x1: 0, y1: 2, x2: 8, y2: 10 };
    let img = Image::new(40, loaded_suites(), false, bounds, -32, 4096);
    assert_eq!(img.get_bounds(), bounds);
    assert_eq!(img.get_row_bytes(), -32);
    assert_eq!(img.get_data(), 4096);
    let d = img.get_descriptor();
    assert_eq!(d.bounds, bounds);
    assert_eq!(d.row_bytes, -32);
    assert_eq!(d.data, 4096);
}

#[test]
fn instance_data_round_trip_and_single_free() {
    let mut effect = ImageEffectHandle::new(70, 71, 0, loaded_suites());
    let attach = effect.set_instance_data(0x1234);
    assert_eq!(attach.write.property_set, 71);
    assert_eq!(attach.write.name, PropId::InstanceData);
    assert_eq!(attach.write.index, 0);
    assert_eq!(attach.write.value, 0x1234);
    assert_eq!(attach.free_previous, None);
    // reading back yields the identical address
    assert_eq!(effect.get_instance_data(), 0x1234);

    // re-attachment frees the earlier payload instead of leaking it
    let second = effect.set_instance_data(0x5678);
    assert_eq!(second.free_previous, Some(0x1234));

    let release = effect.drop_instance_data();
    assert_eq!(release.free, Some(0x5678));
    assert_eq!(release.clear.value, 0);
    assert_eq!(release.clear.name, PropId::InstanceData);
    // a second destroy frees nothing
    let again = effect.drop_instance_data();
    assert_eq!(again.free, None);
}

#[test]
fn effect_handle_wrappers() {
    let effect = ImageEffectHandle::new(70, 71, 0, loaded_suites());
    assert!(effect.abort(1));
    assert!(!effect.abort(0));

    let set = effect.parameter_set(STATUS_OK, 90).unwrap();
    assert_eq!(set.inner, 90);
    assert_eq!(
        effect.parameter_set(STATUS_ERR_BAD_HANDLE, 90).unwrap_err(),
        Error::InvalidHandle
    );

    let clip = effect.get_clip("Source", STATUS_OK, 91, 92).unwrap();
    assert_eq!(clip.inner, 91);
    assert_eq!(clip.inner_properties, 92);
    assert_eq!(
        effect.get_clip("ba\0d", STATUS_OK, 91, 92).unwrap_err(),
        Error::StringConversion
    );
    let out = effect.get_output_clip(STATUS_OK, 93, 94).unwrap();
    assert_eq!(out.inner, 93);

    let desc = effect.new_clip("Extra", STATUS_OK, 95).unwrap();
    assert_eq!(desc.handle(), 95);
    let desc = effect.new_output_clip(STATUS_OK, 96).unwrap();
    assert_eq!(desc.handle(), 96);

    let props: EffectInstance = effect.properties().unwrap();
    assert_eq!(props.handle(), 71);

    assert_eq!(ofx::handle::output_clip_name(), b"Output\0".to_vec());
    assert_eq!(ofx::handle::simple_input_clip_name(), b"Source\0".to_vec());
}

#[test]
fn property_capabilities() {
    let instance = EffectInstance::new(80);
    let read = instance.type_read();
    assert_eq!(read.property_set, 80);
    assert_eq!(read.name, PropId::PropType);
    assert_eq!(read.index, 0);
    assert_eq!(PropId::PropType.name(), "OfxPropType");
    assert_eq!(PropId::InstanceData.name(), "OfxPropInstanceData");

    let built: ClipDescriptor = ofx::property::build_typed(81);
    assert_eq!(built.handle(), 81);

    let (bounds, stride, data) = image_descriptor_reads(82);
    assert_eq!(bounds.name, PropId::ImageBounds);
    assert_eq!(stride.name, PropId::ImageRowBytes);
    assert_eq!(data.name, PropId::ImageData);
    assert_eq!(bounds.property_set, 82);
    assert_eq!(data.property_set, 82);
}
