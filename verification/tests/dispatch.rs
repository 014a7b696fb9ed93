use ofx::action::{Action, GlobalAction, ImageEffectAction};
use ofx::errors::{
    to_status, Error, STATUS_ERR_MISSING_HOST_FEATURE, STATUS_ERR_UNKNOWN, STATUS_FAILED,
    STATUS_OK, STATUS_REPLY_DEFAULT,
};
use ofx::image::ImageDescriptorMut;
use ofx::property::AsProperties;
use ofx::plugin::{
    ApiVersion, Execute, HostDescriptor, PluginContext, PluginDescriptor, PluginVersion,
    RawMessage,
};
use ofx::suites::{SuiteFetchResults, SuiteKind, Suites};
use ofx::types::RectI;

struct CountingEffect {
    calls: usize,
    last_was_create: bool,
}

impl Execute for CountingEffect {
    fn execute(&mut self, _context: &PluginContext, action: &mut Action) -> Result<i32, Error> {
        self.calls += 1;
        self.last_was_create = matches!(action, Action::CreateInstance(_));
        Ok(STATUS_OK)
    }
}

fn full_fetch() -> SuiteFetchResults {
    SuiteFetchResults {
        image_effect_v1: 11,
        property_v1: 12,
        parameter_v1: 13,
        memory_v1: 14,
        multi_thread_v1: 15,
        message_v1: 16,
        message_v2: 0,
        progress_v1: 18,
        progress_v2: 0,
        time_line_v1: 20,
        parametric_parameter_v1: 0,
        opengl_render_v1: 22,
    }
}

fn fresh_plugin() -> PluginDescriptor<CountingEffect> {
    PluginDescriptor::new(
        0,
        "example_module",
        "org.example.effect",
        ApiVersion(1),
        PluginVersion(1, 0),
        CountingEffect { calls: 0, last_was_create: false },
    )
}

fn host_with(fetched: SuiteFetchResults) -> HostDescriptor {
    HostDescriptor { host_props: 5, fetch_suite_available: true, fetched }
}

fn main_entry(name: &[u8]) -> RawMessage {
    RawMessage::MainEntry {
        action: name.to_vec(),
        handle: 1,
        handle_props: 2,
        instance_data: 0,
        in_args: 3,
        out_args: 4,
    }
}

#[test]
fn suite_table_requires_all_required_suites() {
    assert!(Suites::new(full_fetch()).is_ok());
    let mut missing = full_fetch();
    missing.property_v1 = 0;
    assert_eq!(Suites::new(missing), Err(Error::InvalidSuite));
    let mut missing = full_fetch();
    missing.time_line_v1 = 0;
    assert_eq!(Suites::new(missing), Err(Error::InvalidSuite));
    // optional suites may be absent
    let mut partial = full_fetch();
    partial.opengl_render_v1 = 0;
    let table = Suites::new(partial).unwrap();
    assert!(!table.has_opengl_render());
    assert!(Suites::new(full_fetch()).unwrap().has_opengl_render());
}

#[test]
fn suite_fetch_plan() {
    assert_eq!(SuiteKind::ImageEffect.fetch_name(), "OfxImageEffectSuite");
    assert_eq!(SuiteKind::Property.fetch_name(), "OfxPropertySuite");
    assert_eq!(SuiteKind::OpenGLRender.fetch_name(), "OfxImageEffectOpenGLRenderSuite");
    assert_eq!(SuiteKind::MessageV2.fetch_name(), "OfxMessageSuite");
    assert_eq!(SuiteKind::MessageV2.fetch_version(), 2);
    assert_eq!(SuiteKind::Message.fetch_version(), 1);
    assert!(SuiteKind::TimeLine.is_required());
    assert!(!SuiteKind::ParametricParameter.is_required());
    assert!(!SuiteKind::OpenGLRender.is_required());
}

#[test]
fn action_name_lookup() {
    assert_eq!(
        GlobalAction::from_name(b"OfxActionCreateInstance"),
        Some(GlobalAction::CreateInstance)
    );
    assert_eq!(GlobalAction::from_name(b"OfxActionLoad"), Some(GlobalAction::Load));
    // the detach action's published string carries the constant's leading k
    assert_eq!(
        GlobalAction::from_name(b"kOfxActionOpenGLContextDetached"),
        Some(GlobalAction::OpenGLContextDetached)
    );
    assert_eq!(GlobalAction::from_name(b"OfxActionOpenGLContextDetached"), None);
    assert_eq!(GlobalAction::from_name(b"OfxActionRender"), None);
    assert_eq!(
        ImageEffectAction::from_name(b"OfxImageEffectActionRender"),
        Some(ImageEffectAction::Render)
    );
    assert_eq!(
        ImageEffectAction::from_name(b"OfxImageEffectActionGetRegionOfDefinition"),
        Some(ImageEffectAction::GetRegionOfDefinition)
    );
    assert_eq!(ImageEffectAction::from_name(b"OfxActionLoad"), None);
}

#[test]
fn map_action_recognizes_names() {
    let mut plugin = fresh_plugin();
    plugin.dispatch(RawMessage::SetHost { host: host_with(full_fetch()) }).unwrap();
    plugin.dispatch(main_entry(b"OfxActionLoad")).unwrap();

    match plugin.map_action(b"OfxImageEffectActionRender", 1, 2, 0, 3, 4).unwrap() {
        Action::Render(effect, in_args) => {
            assert_eq!(effect.inner, 1);
            assert_eq!(effect.props, 2);
            assert_eq!(in_args.handle(), 3);
        }
        other => panic!("mapped to {:?}", other),
    }
    match plugin.map_action(b"OfxImageEffectActionIsIdentity", 1, 2, 0, 3, 4).unwrap() {
        Action::IsIdentity(_, in_args, out_args) => {
            assert_eq!(in_args.handle(), 3);
            assert_eq!(out_args.handle(), 4);
        }
        other => panic!("mapped to {:?}", other),
    }
    assert!(matches!(
        plugin.map_action(b"OfxActionCreateInstance", 1, 2, 0, 3, 4).unwrap(),
        Action::CreateInstance(_)
    ));
    assert!(matches!(plugin.map_action(b"OfxActionLoad", 1, 2, 0, 3, 4).unwrap(), Action::Load));
    assert!(matches!(
        plugin.map_action(b"OfxActionUnload", 1, 2, 0, 3, 4).unwrap(),
        Action::Unload
    ));

    // recognized names the library deliberately rejects
    assert_eq!(
        plugin.map_action(b"OfxActionDialog", 1, 2, 0, 3, 4),
        Err(Error::InvalidAction)
    );
    assert_eq!(
        plugin.map_action(b"OfxImageEffectActionGetFramesNeeded", 1, 2, 0, 3, 4),
        Err(Error::InvalidAction)
    );
    // names outside both tables
    assert_eq!(
        plugin.map_action(b"OfxActionNoSuchThing", 1, 2, 0, 3, 4),
        Err(Error::InvalidAction)
    );
}

#[test]
fn map_action_needs_loaded_suites() {
    let plugin = fresh_plugin();
    assert_eq!(
        plugin.map_action(b"OfxImageEffectActionRender", 1, 2, 0, 3, 4),
        Err(Error::SuiteNotInitialized)
    );
    // Load itself carries no payload and maps without a table
    assert!(matches!(plugin.map_action(b"OfxActionLoad", 1, 2, 0, 3, 4).unwrap(), Action::Load));
}

#[test]
fn load_without_host_is_not_ready() {
    let mut plugin = fresh_plugin();
    assert_eq!(plugin.dispatch(main_entry(b"OfxActionLoad")), Err(Error::HostNotReady));
    assert!(plugin.suites.is_none());
    assert_eq!(plugin.instance.calls, 0);
}

#[test]
fn load_with_missing_required_suite_fails() {
    let mut plugin = fresh_plugin();
    let mut fetched = full_fetch();
    fetched.memory_v1 = 0;
    plugin.dispatch(RawMessage::SetHost { host: host_with(fetched) }).unwrap();
    let r = plugin.dispatch(main_entry(b"OfxActionLoad"));
    assert_eq!(r, Err(Error::InvalidSuite));
    assert_eq!(to_status(r), STATUS_ERR_MISSING_HOST_FEATURE);
    // the table stays unset, and suite-dependent actions stay no-ops
    assert!(plugin.suites.is_none());
    let r = plugin.dispatch(main_entry(b"OfxImageEffectActionRender"));
    assert_eq!(r, Ok(STATUS_OK));
    assert_eq!(plugin.instance.calls, 0);
}

#[test]
fn create_instance_before_load_is_noop_success() {
    let mut plugin = fresh_plugin();
    plugin.dispatch(RawMessage::SetHost { host: host_with(full_fetch()) }).unwrap();
    // no suites loaded yet: dispatch succeeds without invoking the effect
    let r = plugin.dispatch(main_entry(b"OfxActionCreateInstance"));
    assert_eq!(r, Ok(STATUS_OK));
    assert_eq!(plugin.instance.calls, 0);
}

#[test]
fn load_then_actions_reach_the_implementation() {
    let mut plugin = fresh_plugin();
    plugin.dispatch(RawMessage::SetHost { host: host_with(full_fetch()) }).unwrap();
    assert_eq!(plugin.dispatch(main_entry(b"OfxActionLoad")), Ok(STATUS_OK));
    assert!(plugin.suites.is_some());
    assert_eq!(plugin.instance.calls, 1);

    assert_eq!(plugin.dispatch(main_entry(b"OfxActionCreateInstance")), Ok(STATUS_OK));
    assert_eq!(plugin.instance.calls, 2);
    assert!(plugin.instance.last_was_create);

    assert_eq!(plugin.dispatch(main_entry(b"OfxImageEffectActionRender")), Ok(STATUS_OK));
    assert_eq!(plugin.instance.calls, 3);
    assert!(!plugin.instance.last_was_create);
}

#[test]
fn describe_caches_the_handle() {
    let mut plugin = fresh_plugin();
    plugin.dispatch(RawMessage::SetHost { host: host_with(full_fetch()) }).unwrap();
    plugin.dispatch(main_entry(b"OfxActionLoad")).unwrap();
    assert!(plugin.cached_handle.is_none());
    plugin.dispatch(main_entry(b"OfxActionDescribe")).unwrap();
    let cached = plugin.cached_handle.expect("describe caches the handle");
    assert_eq!(cached.inner, 1);
    assert_eq!(cached.props, 2);
}

#[test]
fn unknown_action_reports_invalid_action() {
    let mut plugin = fresh_plugin();
    plugin.dispatch(RawMessage::SetHost { host: host_with(full_fetch()) }).unwrap();
    plugin.dispatch(main_entry(b"OfxActionLoad")).unwrap();
    let r = plugin.dispatch(main_entry(b"OfxActionMystery"));
    assert_eq!(r, Err(Error::InvalidAction));
    assert_eq!(to_status(r), STATUS_REPLY_DEFAULT);
    // the error never reached the implementation
    assert_eq!(plugin.instance.calls, 1);
}

#[test]
fn destroy_instance_frees_payload_exactly_once() {
    let mut plugin = fresh_plugin();
    plugin.dispatch(RawMessage::SetHost { host: host_with(full_fetch()) }).unwrap();
    plugin.dispatch(main_entry(b"OfxActionLoad")).unwrap();

    // the instance-data slot holds a payload the shell read from the host
    let destroy = RawMessage::MainEntry {
        action: b"OfxActionDestroyInstance".to_vec(),
        handle: 1,
        handle_props: 2,
        instance_data: 0x9a0,
        in_args: 3,
        out_args: 4,
    };
    assert_eq!(plugin.dispatch(destroy), Ok(STATUS_OK));
    let release = plugin.take_pending_release().expect("destroy decides a release");
    assert_eq!(release.free, Some(0x9a0));
    assert_eq!(release.clear.value, 0);
    assert_eq!(release.clear.property_set, 2);
    // taking it clears it
    assert_eq!(plugin.take_pending_release(), None);

    // the host misbehaves and destroys again; the slot was cleared, so
    // nothing is freed a second time
    let destroy_again = RawMessage::MainEntry {
        action: b"OfxActionDestroyInstance".to_vec(),
        handle: 1,
        handle_props: 2,
        instance_data: 0,
        in_args: 3,
        out_args: 4,
    };
    assert_eq!(plugin.dispatch(destroy_again), Ok(STATUS_OK));
    let release = plugin.take_pending_release().expect("destroy decides a release");
    assert_eq!(release.free, None);
}

#[test]
fn status_codes() {
    assert_eq!(ofx::errors::status_of_error(Error::InvalidSuite), STATUS_ERR_MISSING_HOST_FEATURE);
    assert_eq!(ofx::errors::status_of_error(Error::InvalidHandle), 9);
    assert_eq!(ofx::errors::status_of_error(Error::InvalidAction), STATUS_REPLY_DEFAULT);
    assert_eq!(ofx::errors::status_of_error(Error::HostNotReady), STATUS_FAILED);
    assert_eq!(ofx::errors::status_of_error(Error::SuiteNotInitialized), STATUS_FAILED);
    assert_eq!(ofx::errors::status_of_error(Error::StringConversion), 11);
    assert_eq!(ofx::errors::status_of_error(Error::Unimplemented), 5);
    assert_eq!(ofx::errors::status_of_error(Error::UnknownError), STATUS_ERR_UNKNOWN);
    assert_eq!(to_status(Ok(STATUS_OK)), STATUS_OK);
    assert_eq!(ofx::errors::result_of_status(STATUS_OK), Ok(()));
    assert_eq!(ofx::errors::result_of_status(9), Err(Error::InvalidHandle));
    assert_eq!(ofx::errors::result_of_status(1), Err(Error::UnknownError));
}

#[test]
fn tiles_partition_rows_exactly() {
    let d = ImageDescriptorMut::new(RectI { x1: 0, y1: 0, x2: 16, y2: 10 }, 64, 4096);
    let tiles = d.into_tiles(3);
    assert_eq!(tiles.len(), 3);
    // contiguous, covering [0, 10) exactly, remainder spread first
    assert_eq!((tiles[0].bounds.y1, tiles[0].bounds.y2), (0, 4));
    assert_eq!((tiles[1].bounds.y1, tiles[1].bounds.y2), (4, 7));
    assert_eq!((tiles[2].bounds.y1, tiles[2].bounds.y2), (7, 10));
    for t in &tiles {
        assert_eq!(t.bounds.x1, 0);
        assert_eq!(t.bounds.x2, 16);
        assert_eq!(t.row_bytes, 64);
        assert_eq!(t.data, 4096);
        assert_eq!(t.byte_offset, (t.bounds.y1 as i64) * 64);
    }
}

#[test]
fn tiles_edge_cases() {
    // more tiles requested than rows: one tile per row
    let d = ImageDescriptorMut::new(RectI { x1: 0, y1: 2, x2: 4, y2: 7 }, 16, 0);
    let tiles = d.into_tiles(8);
    assert_eq!(tiles.len(), 5);
    for (i, t) in tiles.iter().enumerate() {
        assert_eq!(t.bounds.y1, 2 + i as i32);
        assert_eq!(t.bounds.y2, 3 + i as i32);
    }

    // zero rows, zero tiles
    let empty = ImageDescriptorMut::new(RectI { x1: 0, y1: 5, x2: 4, y2: 5 }, 16, 0);
    assert_eq!(empty.into_tiles(4).len(), 0);

    // zero tiles requested
    let d = ImageDescriptorMut::new(RectI { x1: 0, y1: 0, x2: 4, y2: 4 }, 16, 0);
    assert_eq!(d.into_tiles(0).len(), 0);

    // a bottom-up layout: negative stride scales the offsets
    let flipped = ImageDescriptorMut::new(RectI { x1: 0, y1: 0, x2: 4, y2: 4 }, -16, 1024);
    let tiles = flipped.into_tiles(2);
    assert_eq!(tiles.len(), 2);
    assert_eq!(tiles[0].byte_offset, 0);
    assert_eq!(tiles[1].byte_offset, -32);
}

#[test]
fn plugin_descriptor_identity() {
    let plugin = fresh_plugin();
    assert_eq!(plugin.plugin_index, 0);
    assert_eq!(plugin.module_name, "example_module");
    assert_eq!(plugin.plugin_id, b"org.example.effect\0".to_vec());
    assert_eq!(plugin.api_version, ApiVersion(1));
    assert_eq!(plugin.plugin_version, PluginVersion(1, 0));
    assert!(plugin.host.is_none());
    assert!(plugin.suites.is_none());
}
