//! The dispatch pipeline: the long-lived plugin state, the action mapper,
//! suite loading, the before and after hooks, and the laws that the name
//! tables are recognized exactly.

use vstd::prelude::*;
use vstd::string::{is_ascii, StringExecFns, StringSliceAdditionalSpecFns};
use crate::action::{Action, GlobalAction, ImageEffectAction};
use crate::errors::{Error, STATUS_OK};
use crate::handle::{ImageEffectHandle, ImageEffectHost, InstanceDataRelease};
use crate::property::{
    BeginInstanceChangedInArgs, BeginSequenceRenderInArgs, DescribeInContextInArgs,
    EndInstanceChangedInArgs, EndSequenceRenderInArgs, GetClipPreferencesOutArgs,
    GetRegionOfDefinitionInArgs, GetRegionOfDefinitionOutArgs, GetRegionsOfInterestInArgs,
    GetRegionsOfInterestOutArgs, GetTimeDomainOutArgs, InstanceChangedInArgs, IsIdentityInArgs,
    IsIdentityOutArgs, RenderInArgs,
};
use crate::suites::{SuiteFetchResults, Suites};
use crate::text::{c_bytes_of, spec_c_bytes, spec_has_no_null};
use crate::types::{Int, PtrVal, UnsignedInt};

verus! {

/// The protocol version a plugin declares itself against.
#[derive(Copy, Clone, Debug, PartialEq, Eq, Structural)]
pub struct ApiVersion(pub Int);

/// The plugin's own version pair: major, minor.
#[derive(Copy, Clone, Debug, PartialEq, Eq, Structural)]
pub struct PluginVersion(pub UnsignedInt, pub UnsignedInt);

/// The host as the logic reads it: the host's property bag, whether the
/// descriptor supplied a suite-fetch function, and what that function
/// answered for each suite this library knows. The unverified shell performs
/// the raw fetches and fills this in.
#[derive(Copy, Clone, Debug, PartialEq, Eq, Structural)]
pub struct HostDescriptor {
    pub host_props: PtrVal,
    pub fetch_suite_available: bool,
    pub fetched: SuiteFetchResults,
}

/// One raw call from the host, with every opaque pointer carried by address
/// and the readings the logic needs handed in beside it: the action name
/// without its terminator, the handle with its property set, the current
/// instance-data slot content, and the two argument bags.
#[derive(Clone, Debug)]
pub enum RawMessage {
    SetHost { host: HostDescriptor },
    MainEntry {
        action: Vec<u8>,
        handle: PtrVal,
        handle_props: PtrVal,
        instance_data: PtrVal,
        in_args: PtrVal,
        out_args: PtrVal,
    },
}

/// What a plugin instance executes against: the host view and the loaded
/// suite table.
#[derive(Copy, Clone, Debug, PartialEq, Eq, Structural)]
pub struct PluginContext {
    pub host: ImageEffectHost,
    pub suites: Suites,
}

impl PluginContext {
    pub fn get_host(&self) -> (r: ImageEffectHost)
        ensures
            r == self.host,
    {
        self.host
    }

    /// Decodes the thread-count query: the count the host wrote, once the
    /// returned status allows it.
    pub fn num_threads(&self, status: Int, fetched: UnsignedInt) -> (r: Result<UnsignedInt, Error>)
        ensures
            status == STATUS_OK ==> r == Ok::<UnsignedInt, Error>(fetched),
            status != STATUS_OK ==> r == Err::<UnsignedInt, Error>(
                crate::errors::spec_result_of_status(status)->Err_0,
            ),
    {
        match crate::errors::result_of_status(status) {
            Ok(()) => Ok(fetched),
            Err(e) => Err(e),
        }
    }
}

/// The behavior an effect implementation supplies: one entry per dispatched
/// action. The library calls it once per mapped action, after its own
/// before-hook and before its after-hook.
pub trait Execute: Sized {
    fn execute(&mut self, context: &PluginContext, action: &mut Action) -> Result<Int, Error> {
        Ok(STATUS_OK)
    }
}

/// The long-lived state of one plugin: identity, the host once set, the
/// suite table once loaded, the handle cached by the last describe, the
/// injected effect implementation, and the release the last destroy decided
/// on, which the shell takes and performs.
pub struct PluginDescriptor<E: Execute> {
    pub plugin_index: usize,
    pub module_name: String,
    pub plugin_id: Vec<u8>,
    pub api_version: ApiVersion,
    pub plugin_version: PluginVersion,
    pub host: Option<HostDescriptor>,
    pub suites: Option<Suites>,
    pub cached_handle: Option<ImageEffectHandle>,
    pub instance: E,
    pub pending_release: Option<InstanceDataRelease>,
}

/// Whether this library exposes an instance-scoped action to effect
/// implementations; the remaining names are recognized but deliberately
/// unsupported and rejected.
pub open spec fn spec_supported_instance_action(a: ImageEffectAction) -> bool {
    match a {
        ImageEffectAction::GetFramesNeeded => false,
        ImageEffectAction::GetInverseDistortion => false,
        ImageEffectAction::InvokeHelp => false,
        ImageEffectAction::InvokeAbout => false,
        ImageEffectAction::VegasKeyframeUplift => false,
        _ => true,
    }
}

/// Whether this library exposes a global action; edit brackets and the
/// dialog request are recognized names it deliberately rejects.
pub open spec fn spec_supported_global_action(g: GlobalAction) -> bool {
    match g {
        GlobalAction::BeginInstanceEdit => false,
        GlobalAction::EndInstanceEdit => false,
        GlobalAction::Dialog => false,
        _ => true,
    }
}

/// The variant an instance-scoped action maps to, with the argument bags its
/// fixed signature declares.
pub open spec fn spec_instance_action_variant(
    a: ImageEffectAction,
    effect: ImageEffectHandle,
    in_args: PtrVal,
    out_args: PtrVal,
) -> Action {
    match a {
        ImageEffectAction::DescribeInContext => Action::DescribeInContext(
            effect,
            DescribeInContextInArgs::spec_new(in_args),
        ),
        ImageEffectAction::GetRegionOfDefinition => Action::GetRegionOfDefinition(
            effect,
            GetRegionOfDefinitionInArgs::spec_new(in_args),
            GetRegionOfDefinitionOutArgs::spec_new(out_args),
        ),
        ImageEffectAction::GetRegionsOfInterest => Action::GetRegionsOfInterest(
            effect,
            GetRegionsOfInterestInArgs::spec_new(in_args),
            GetRegionsOfInterestOutArgs::spec_new(out_args),
        ),
        ImageEffectAction::IsIdentity => Action::IsIdentity(
            effect,
            IsIdentityInArgs::spec_new(in_args),
            IsIdentityOutArgs::spec_new(out_args),
        ),
        ImageEffectAction::GetClipPreferences => Action::GetClipPreferences(
            effect,
            GetClipPreferencesOutArgs::spec_new(out_args),
        ),
        ImageEffectAction::GetTimeDomain => Action::GetTimeDomain(
            effect,
            GetTimeDomainOutArgs::spec_new(out_args),
        ),
        ImageEffectAction::BeginSequenceRender => Action::BeginSequenceRender(
            effect,
            BeginSequenceRenderInArgs::spec_new(in_args),
        ),
        ImageEffectAction::Render => Action::Render(effect, RenderInArgs::spec_new(in_args)),
        _ => Action::EndSequenceRender(effect, EndSequenceRenderInArgs::spec_new(in_args)),
    }
}

/// The variant a global action maps to. Load and Unload are handled before
/// this table applies.
pub open spec fn spec_global_action_variant(
    g: GlobalAction,
    effect: ImageEffectHandle,
    in_args: PtrVal,
) -> Action {
    match g {
        GlobalAction::Describe => Action::Describe(effect),
        GlobalAction::SyncPrivateData => Action::SyncPrivateData(effect),
        GlobalAction::PurgeCaches => Action::PurgeCaches(effect),
        GlobalAction::CreateInstance => Action::CreateInstance(effect),
        GlobalAction::DestroyInstance => Action::DestroyInstance(effect),
        GlobalAction::OpenGLContextAttached => Action::OpenGLContextAttached(effect),
        GlobalAction::OpenGLContextDetached => Action::OpenGLContextDetached(effect),
        GlobalAction::BeginInstanceChanged => Action::BeginInstanceChanged(
            effect,
            BeginInstanceChangedInArgs::spec_new(in_args),
        ),
        GlobalAction::InstanceChanged => Action::InstanceChanged(
            effect,
            InstanceChangedInArgs::spec_new(in_args),
        ),
        _ => Action::EndInstanceChanged(effect, EndInstanceChangedInArgs::spec_new(in_args)),
    }
}

/// The typed handle a raw effect handle wraps into, against a loaded table.
pub open spec fn spec_effect_handle(
    suites: Suites,
    handle: PtrVal,
    handle_props: PtrVal,
    instance_data: PtrVal,
) -> ImageEffectHandle {
    ImageEffectHandle { inner: handle, props: handle_props, instance_data, suites }
}

/// The whole action-mapping table: what a raw action name plus raw handles
/// becomes. The instance-scoped table is consulted first, then the global
/// one. A name in neither, or a recognized name this library deliberately
/// rejects, is an invalid action; any payload-carrying action demands a
/// loaded suite table first.
pub open spec fn spec_map_action(
    suites: Option<Suites>,
    name: Seq<u8>,
    handle: PtrVal,
    handle_props: PtrVal,
    instance_data: PtrVal,
    in_args: PtrVal,
    out_args: PtrVal,
) -> Result<Action, Error> {
    if ImageEffectAction::spec_of_name(name) is Some {
        let a = ImageEffectAction::spec_of_name(name)->0;
        if !spec_supported_instance_action(a) {
            Err(Error::InvalidAction)
        } else if suites is None {
            Err(Error::SuiteNotInitialized)
        } else {
            Ok(
                spec_instance_action_variant(
                    a,
                    spec_effect_handle(suites->0, handle, handle_props, instance_data),
                    in_args,
                    out_args,
                ),
            )
        }
    } else if GlobalAction::spec_of_name(name) is Some {
        let g = GlobalAction::spec_of_name(name)->0;
        if g == GlobalAction::Load {
            Ok(Action::Load)
        } else if g == GlobalAction::Unload {
            Ok(Action::Unload)
        } else if !spec_supported_global_action(g) {
            Err(Error::InvalidAction)
        } else if suites is None {
            Err(Error::SuiteNotInitialized)
        } else {
            Ok(
                spec_global_action_variant(
                    g,
                    spec_effect_handle(suites->0, handle, handle_props, instance_data),
                    in_args,
                ),
            )
        }
    } else {
        Err(Error::InvalidAction)
    }
}

impl<E: Execute> PluginDescriptor<E> {
    /// A fresh plugin descriptor: identity recorded, no host, no suites, no
    /// cached handle, nothing pending. The identifier must have a C form.
    pub fn new(
        plugin_index: usize,
        module_name: &str,
        name: &str,
        api_version: ApiVersion,
        plugin_version: PluginVersion,
        instance: E,
    ) -> (r: PluginDescriptor<E>)
        requires
            spec_has_no_null(name.spec_bytes()),
        ensures
            r.plugin_index == plugin_index,
            r.module_name@ == module_name@,
            r.plugin_id@ == spec_c_bytes(name),
            r.api_version == api_version,
            r.plugin_version == plugin_version,
            r.host is None,
            r.suites is None,
            r.cached_handle is None,
            r.pending_release is None,
    {
        PluginDescriptor {
            plugin_index,
            module_name: String::from_str(module_name),
            plugin_id: c_bytes_of(name),
            api_version,
            plugin_version,
            host: None,
            suites: None,
            cached_handle: None,
            instance,
            pending_release: None,
        }
    }

    /// Wraps a raw effect handle with everything calls on it need; before a
    /// successful load there is no table to give it, and the wrap fails.
    pub fn new_image_effect(
        &self,
        handle: PtrVal,
        handle_props: PtrVal,
        instance_data: PtrVal,
    ) -> (r: Result<ImageEffectHandle, Error>)
        ensures
            self.suites is None ==> r == Err::<ImageEffectHandle, Error>(
                Error::SuiteNotInitialized,
            ),
            self.suites matches Some(s) ==> r == Ok::<ImageEffectHandle, Error>(
                spec_effect_handle(s, handle, handle_props, instance_data),
            ),
    {
        match self.suites {
            None => Err(Error::SuiteNotInitialized),
            Some(s) => Ok(ImageEffectHandle::new(handle, handle_props, instance_data, s)),
        }
    }

    /// Translates a raw action invocation into the typed action it stands
    /// for, per the fixed table `spec_map_action`.
    pub fn map_action(
        &self,
        action: &[u8],
        handle: PtrVal,
        handle_props: PtrVal,
        instance_data: PtrVal,
        in_args: PtrVal,
        out_args: PtrVal,
    ) -> (r: Result<Action, Error>)
        ensures
            r == spec_map_action(
                self.suites,
                action@,
                handle,
                handle_props,
                instance_data,
                in_args,
                out_args,
            ),
    {
        if let Some(a) = ImageEffectAction::from_name(action) {
            match a {
                ImageEffectAction::DescribeInContext => {
                    let effect = self.new_image_effect(handle, handle_props, instance_data)?;
                    Ok(Action::DescribeInContext(effect, DescribeInContextInArgs::new(in_args)))
                },
                ImageEffectAction::GetRegionOfDefinition => {
                    let effect = self.new_image_effect(handle, handle_props, instance_data)?;
                    Ok(
                        Action::GetRegionOfDefinition(
                            effect,
                            GetRegionOfDefinitionInArgs::new(in_args),
                            GetRegionOfDefinitionOutArgs::new(out_args),
                        ),
                    )
                },
                ImageEffectAction::GetRegionsOfInterest => {
                    let effect = self.new_image_effect(handle, handle_props, instance_data)?;
                    Ok(
                        Action::GetRegionsOfInterest(
                            effect,
                            GetRegionsOfInterestInArgs::new(in_args),
                            GetRegionsOfInterestOutArgs::new(out_args),
                        ),
                    )
                },
                ImageEffectAction::IsIdentity => {
                    let effect = self.new_image_effect(handle, handle_props, instance_data)?;
                    Ok(
                        Action::IsIdentity(
                            effect,
                            IsIdentityInArgs::new(in_args),
                            IsIdentityOutArgs::new(out_args),
                        ),
                    )
                },
                ImageEffectAction::GetClipPreferences => {
                    let effect = self.new_image_effect(handle, handle_props, instance_data)?;
                    Ok(
                        Action::GetClipPreferences(
                            effect,
                            GetClipPreferencesOutArgs::new(out_args),
                        ),
                    )
                },
                ImageEffectAction::GetTimeDomain => {
                    let effect = self.new_image_effect(handle, handle_props, instance_data)?;
                    Ok(Action::GetTimeDomain(effect, GetTimeDomainOutArgs::new(out_args)))
                },
                ImageEffectAction::BeginSequenceRender => {
                    let effect = self.new_image_effect(handle, handle_props, instance_data)?;
                    Ok(
                        Action::BeginSequenceRender(
                            effect,
                            BeginSequenceRenderInArgs::new(in_args),
                        ),
                    )
                },
                ImageEffectAction::Render => {
                    let effect = self.new_image_effect(handle, handle_props, instance_data)?;
                    Ok(Action::Render(effect, RenderInArgs::new(in_args)))
                },
                ImageEffectAction::EndSequenceRender => {
                    let effect = self.new_image_effect(handle, handle_props, instance_data)?;
                    Ok(Action::EndSequenceRender(effect, EndSequenceRenderInArgs::new(in_args)))
                },
                _ => Err(Error::InvalidAction),
            }
        } else if let Some(g) = GlobalAction::from_name(action) {
            match g {
                GlobalAction::Load => Ok(Action::Load),
                GlobalAction::Unload => Ok(Action::Unload),
                GlobalAction::Describe => {
                    let effect = self.new_image_effect(handle, handle_props, instance_data)?;
                    Ok(Action::Describe(effect))
                },
                GlobalAction::SyncPrivateData => {
                    let effect = self.new_image_effect(handle, handle_props, instance_data)?;
                    Ok(Action::SyncPrivateData(effect))
                },
                GlobalAction::PurgeCaches => {
                    let effect = self.new_image_effect(handle, handle_props, instance_data)?;
                    Ok(Action::PurgeCaches(effect))
                },
                GlobalAction::CreateInstance => {
                    let effect = self.new_image_effect(handle, handle_props, instance_data)?;
                    Ok(Action::CreateInstance(effect))
                },
                GlobalAction::DestroyInstance => {
                    let effect = self.new_image_effect(handle, handle_props, instance_data)?;
                    Ok(Action::DestroyInstance(effect))
                },
                GlobalAction::OpenGLContextAttached => {
                    let effect = self.new_image_effect(handle, handle_props, instance_data)?;
                    Ok(Action::OpenGLContextAttached(effect))
                },
                GlobalAction::OpenGLContextDetached => {
                    let effect = self.new_image_effect(handle, handle_props, instance_data)?;
                    Ok(Action::OpenGLContextDetached(effect))
                },
                GlobalAction::BeginInstanceChanged => {
                    let effect = self.new_image_effect(handle, handle_props, instance_data)?;
                    Ok(
                        Action::BeginInstanceChanged(
                            effect,
                            BeginInstanceChangedInArgs::new(in_args),
                        ),
                    )
                },
                GlobalAction::InstanceChanged => {
                    let effect = self.new_image_effect(handle, handle_props, instance_data)?;
                    Ok(Action::InstanceChanged(effect, InstanceChangedInArgs::new(in_args)))
                },
                GlobalAction::EndInstanceChanged => {
                    let effect = self.new_image_effect(handle, handle_props, instance_data)?;
                    Ok(Action::EndInstanceChanged(effect, EndInstanceChangedInArgs::new(in_args)))
                },
                _ => Err(Error::InvalidAction),
            }
        } else {
            Err(Error::InvalidAction)
        }
    }

    /// What loading does: without a host descriptor or its fetch function it
    /// fails not-ready and changes nothing; with any required suite missing
    /// it fails `InvalidSuite` and leaves the table exactly as it was; and
    /// with every required suite answered it replaces the table wholesale.
    pub open spec fn spec_load_outcome(pre: Self, post: Self, r: Result<Int, Error>) -> bool {
        match pre.host {
            None => r == Err::<Int, Error>(Error::HostNotReady) && post == pre,
            Some(h) => if !h.fetch_suite_available {
                r == Err::<Int, Error>(Error::HostNotReady) && post == pre
            } else if !h.fetched.spec_required_present() {
                r == Err::<Int, Error>(Error::InvalidSuite) && post == pre
            } else {
                r == Ok::<Int, Error>(STATUS_OK) && post == (PluginDescriptor {
                    suites: Some(Suites::spec_from_fetch(h.fetched)),
                    ..pre
                })
            },
        }
    }

    /// Loads the suite table from the recorded host descriptor: no host or no
    /// fetch function is a not-ready error, a missing required suite aborts
    /// with `InvalidSuite` and leaves the table as it was, and success
    /// replaces the table wholesale, as a host reloading suites expects.
    pub fn load(&mut self) -> (r: Result<Int, Error>)
        ensures
            Self::spec_load_outcome(*old(self), *final(self), r),
    {
        let host = match self.host {
            None => {
                return Err(Error::HostNotReady);
            },
            Some(h) => h,
        };
        if !host.fetch_suite_available {
            return Err(Error::HostNotReady);
        }
        match Suites::new(host.fetched) {
            Err(e) => Err(e),
            Ok(table) => {
                self.suites = Some(table);
                Ok(STATUS_OK)
            },
        }
    }

    /// Unloading keeps no bookkeeping of its own.
    pub fn unload(&mut self) -> (r: Result<Int, Error>)
        ensures
            r == Ok::<Int, Error>(STATUS_OK),
            *final(self) == *old(self),
    {
        Ok(STATUS_OK)
    }

    /// Remembers the top-level effect handle the current describe supplied.
    pub fn cache_handle(&mut self, handle: ImageEffectHandle)
        ensures
            *final(self) == (PluginDescriptor { cached_handle: Some(handle), ..*old(self) }),
    {
        self.cached_handle = Some(handle);
    }

    /// The describe hook: caches the handle.
    pub fn describe(&mut self, handle: ImageEffectHandle) -> (r: Result<Int, Error>)
        ensures
            r == Ok::<Int, Error>(STATUS_OK),
            *final(self) == (PluginDescriptor { cached_handle: Some(handle), ..*old(self) }),
    {
        self.cache_handle(handle);
        Ok(STATUS_OK)
    }

    /// The lifecycle bookkeeping that runs before an action reaches the
    /// effect implementation: suites load on Load, handle caching on
    /// Describe, nothing else.
    pub fn before_execute(&mut self, action: &Action) -> (r: Result<Int, Error>)
        ensures
            match action {
                Action::Load => Self::spec_load_outcome(*old(self), *final(self), r),
                Action::Describe(handle) => r == Ok::<Int, Error>(STATUS_OK) && *final(self) == (
                PluginDescriptor { cached_handle: Some(*handle), ..*old(self) }),
                _ => r == Ok::<Int, Error>(STATUS_OK) && *final(self) == *old(self),
            },
    {
        match action {
            Action::Load => self.load(),
            Action::Unload => self.unload(),
            Action::Describe(handle) => self.describe(*handle),
            _ => Ok(STATUS_OK),
        }
    }

    /// The resource cleanup that runs after an action came back from the
    /// effect implementation: the destroy action detaches the instance data
    /// and leaves the decided release for the shell to take; everything else
    /// leaves no trace.
    pub fn after_execute(&mut self, action: &Action) -> (r: Result<Int, Error>)
        ensures
            r == Ok::<Int, Error>(STATUS_OK),
            match action {
                Action::DestroyInstance(effect) => *final(self) == (PluginDescriptor {
                    pending_release: Some(
                        crate::handle::ImageEffectHandle::spec_drop_instance_data(*effect).1,
                    ),
                    ..*old(self)
                }),
                _ => *final(self) == *old(self),
            },
    {
        match action {
            Action::DestroyInstance(effect) => {
                let mut e = *effect;
                let release = e.drop_instance_data();
                self.pending_release = Some(release);
                Ok(STATUS_OK)
            },
            _ => Ok(STATUS_OK),
        }
    }

    /// Hands over the release the last destroy decided on, clearing it, so
    /// the shell frees the payload exactly once.
    pub fn take_pending_release(&mut self) -> (r: Option<InstanceDataRelease>)
        ensures
            r == old(self).pending_release,
            *final(self) == (PluginDescriptor { pending_release: None, ..*old(self) }),
    {
        let r = self.pending_release;
        self.pending_release = None;
        r
    }

    /// One host call against this plugin. Setting the host records it and
    /// nothing more. A main entry maps the action name; an unknown or
    /// rejected name fails with `InvalidAction` untouched. Load and Unload
    /// run their hooks and then reach the implementation like any action. Any
    /// other action arriving before a successful load is answered with plain
    /// success and never reaches the implementation, which tolerates
    /// out-of-order hosts; with suites loaded it is mapped, run through the
    /// hooks and the implementation, and its status returned. Only a destroy
    /// leaves a pending release behind.
    pub fn dispatch(&mut self, message: RawMessage) -> (r: Result<Int, Error>)
        ensures
            message matches RawMessage::SetHost { host } ==> r == Ok::<Int, Error>(STATUS_OK)
                && *final(self) == (PluginDescriptor { host: Some(host), ..*old(self) }),
            message matches RawMessage::MainEntry {
                action,
                handle,
                handle_props,
                instance_data,
                in_args,
                out_args,
            } ==> ({
                let g = GlobalAction::spec_of_name(action@);
                let ie = ImageEffectAction::spec_of_name(action@);
                let effect = if old(self).suites is Some {
                    spec_effect_handle(old(self).suites->0, handle, handle_props, instance_data)
                } else {
                    spec_effect_handle(
                        Suites::spec_from_fetch(
                            match old(self).host {
                                Some(h) => h.fetched,
                                None => arbitrary(),
                            },
                        ),
                        handle,
                        handle_props,
                        instance_data,
                    )
                };
                &&& (ie is None && g is None ==> r == Err::<Int, Error>(Error::InvalidAction)
                    && *final(self) == *old(self))
                &&& (ie matches Some(a) ==> ({
                    &&& (!spec_supported_instance_action(a) ==> r == Err::<Int, Error>(
                        Error::InvalidAction,
                    ) && *final(self) == *old(self))
                    &&& (spec_supported_instance_action(a) ==> ({
                        &&& (old(self).suites is None ==> r == Ok::<Int, Error>(STATUS_OK)
                            && *final(self) == *old(self))
                        &&& (old(self).suites is Some && old(self).host is None ==> r == Ok::<
                            Int,
                            Error,
                        >(STATUS_OK) && *final(self) == *old(self))
                        &&& (old(self).suites is Some && old(self).host is Some ==> ({
                            &&& final(self).suites == old(self).suites
                            &&& final(self).host == old(self).host
                            &&& final(self).cached_handle == old(self).cached_handle
                            &&& final(self).pending_release is None
                        }))
                    }))
                }))
                &&& (ie is None ==> (g matches Some(ga) ==> ({
                    &&& (!spec_supported_global_action(ga) ==> r == Err::<Int, Error>(
                        Error::InvalidAction,
                    ) && *final(self) == *old(self))
                    &&& (ga == GlobalAction::Load ==> ({
                        &&& (old(self).host is None ==> r == Err::<Int, Error>(
                            Error::HostNotReady,
                        ) && *final(self) == *old(self))
                        &&& (old(self).host matches Some(h) ==> ({
                            &&& (!h.fetch_suite_available ==> r == Err::<Int, Error>(
                                Error::HostNotReady,
                            ) && *final(self) == *old(self))
                            &&& (h.fetch_suite_available && !h.fetched.spec_required_present()
                                ==> r == Err::<Int, Error>(Error::InvalidSuite) && *final(self)
                                == *old(self))
                            &&& (h.fetch_suite_available && h.fetched.spec_required_present()
                                ==> ({
                                &&& final(self).suites == Some(Suites::spec_from_fetch(h.fetched))
                                &&& final(self).host == old(self).host
                                &&& final(self).cached_handle == old(self).cached_handle
                                &&& final(self).pending_release is None
                            }))
                        }))
                    }))
                    &&& (ga == GlobalAction::Unload ==> ({
                        &&& final(self).suites == old(self).suites
                        &&& final(self).host == old(self).host
                        &&& final(self).cached_handle == old(self).cached_handle
                        &&& ((old(self).host is None || old(self).suites is None) ==> r == Ok::<
                            Int,
                            Error,
                        >(STATUS_OK) && *final(self) == *old(self))
                        &&& (old(self).host is Some && old(self).suites is Some ==> final(self).pending_release is None)
                    }))
                    &&& (spec_supported_global_action(ga) && ga != GlobalAction::Load && ga
                        != GlobalAction::Unload ==> ({
                        &&& (old(self).suites is None ==> r == Ok::<Int, Error>(STATUS_OK)
                            && *final(self) == *old(self))
                        &&& (old(self).suites is Some && old(self).host is None ==> r == Ok::<
                            Int,
                            Error,
                        >(STATUS_OK) && ({
                            &&& (ga == GlobalAction::Describe ==> *final(self) == (
                            PluginDescriptor { cached_handle: Some(effect), ..*old(self) }))
                            &&& (ga != GlobalAction::Describe ==> *final(self) == *old(self))
                        }))
                        &&& (old(self).suites is Some && old(self).host is Some ==> ({
                            &&& final(self).suites == old(self).suites
                            &&& final(self).host == old(self).host
                            &&& (ga == GlobalAction::Describe ==> final(self).cached_handle
                                == Some(effect))
                            &&& (ga != GlobalAction::Describe ==> final(self).cached_handle
                                == old(self).cached_handle)
                            &&& (ga == GlobalAction::DestroyInstance ==> final(self).pending_release == Some(
                                crate::handle::ImageEffectHandle::spec_drop_instance_data(
                                    effect,
                                ).1,
                            ))
                            &&& (ga != GlobalAction::DestroyInstance ==> final(self).pending_release is None)
                        }))
                    }))
                })))
            }),
    {
        match message {
            RawMessage::SetHost { host } => {
                self.host = Some(host);
                Ok(STATUS_OK)
            },
            RawMessage::MainEntry { action, handle, handle_props, instance_data, in_args, out_args }
                => {
                let name = action.as_slice();
                let ie = ImageEffectAction::from_name(name);
                let g = GlobalAction::from_name(name);
                let is_load = match g {
                    Some(GlobalAction::Load) => ie.is_none(),
                    _ => false,
                };
                let is_unload = match g {
                    Some(GlobalAction::Unload) => ie.is_none(),
                    _ => false,
                };
                // Reject names outside the tables, and recognized names the
                // library does not expose, before anything else.
                match ie {
                    Some(a) => {
                        if matches!(a, ImageEffectAction::GetFramesNeeded)
                            || matches!(a, ImageEffectAction::GetInverseDistortion)
                            || matches!(a, ImageEffectAction::InvokeHelp)
                            || matches!(a, ImageEffectAction::InvokeAbout)
                            || matches!(a, ImageEffectAction::VegasKeyframeUplift) {
                            return Err(Error::InvalidAction);
                        }
                    },
                    None => {
                        match g {
                            None => {
                                return Err(Error::InvalidAction);
                            },
                            Some(ga) => {
                                if matches!(ga, GlobalAction::BeginInstanceEdit)
                                    || matches!(ga, GlobalAction::EndInstanceEdit)
                                    || matches!(ga, GlobalAction::Dialog) {
                                    return Err(Error::InvalidAction);
                                }
                            },
                        }
                    },
                }
                // An instance action before a successful load is a defensive
                // no-op success: there is no table to type its payload with.
                if !is_load && !is_unload && self.suites.is_none() {
                    return Ok(STATUS_OK);
                }
                let mut mapped_action = self.map_action(
                    name,
                    handle,
                    handle_props,
                    instance_data,
                    in_args,
                    out_args,
                )?;
                let hook_action = mapped_action;
                self.before_execute(&hook_action)?;
                if let (Some(host), Some(suites)) = (self.host, self.suites) {
                    let plugin_context = PluginContext {
                        host: ImageEffectHost::new(host.host_props),
                        suites,
                    };
                    let status = self.instance.execute(&plugin_context, &mut mapped_action);
                    self.pending_release = None;
                    self.after_execute(&hook_action)?;
                    status
                } else {
                    Ok(STATUS_OK)
                }
            },
        }
    }
}

/// Host messages reach a plugin through this dispatcher.
pub trait Dispatch {
    fn dispatch(&mut self, message: RawMessage) -> Result<Int, Error> {
        Ok(STATUS_OK)
    }
}

impl<E: Execute> Dispatch for PluginDescriptor<E> {
    fn dispatch(&mut self, message: RawMessage) -> Result<Int, Error> {
        PluginDescriptor::dispatch(self, message)
    }
}

impl<E: Execute> Execute for PluginDescriptor<E> {
    fn execute(&mut self, context: &PluginContext, action: &mut Action) -> Result<Int, Error> {
        self.instance.execute(context, action)
    }
}

/// A plugin as a host driver sees it: dispatchable, executing, and able to
/// hand out its suite table once one is loaded.
pub trait Plugin: Execute {
    /// Whether a successful load has populated the table.
    spec fn spec_suites_loaded(&self) -> bool;

    fn suites(&self) -> &Suites
        requires
            self.spec_suites_loaded(),
    ;
}

impl<E: Execute> Plugin for PluginDescriptor<E> {
    open spec fn spec_suites_loaded(&self) -> bool {
        self.suites is Some
    }

    fn suites(&self) -> &Suites {
        match &self.suites {
            Some(s) => s,
            None => vstd::pervasive::unreached(),
        }
    }
}


/// The byte lengths of every protocol action name this library knows.
#[verifier::rlimit(100)]
pub proof fn lemma_action_name_lengths()
    ensures
        "OfxActionLoad".spec_bytes().len() == 13,
        "OfxActionDescribe".spec_bytes().len() == 17,
        "OfxActionUnload".spec_bytes().len() == 15,
        "OfxActionPurgeCaches".spec_bytes().len() == 20,
        "OfxActionSyncPrivateData".spec_bytes().len() == 24,
        "OfxActionCreateInstance".spec_bytes().len() == 23,
        "OfxActionDestroyInstance".spec_bytes().len() == 24,
        "OfxActionBeginInstanceChanged".spec_bytes().len() == 29,
        "OfxActionInstanceChanged".spec_bytes().len() == 24,
        "OfxActionEndInstanceChanged".spec_bytes().len() == 27,
        "OfxActionBeginInstanceEdit".spec_bytes().len() == 26,
        "OfxActionEndInstanceEdit".spec_bytes().len() == 24,
        "OfxActionOpenGLContextAttached".spec_bytes().len() == 30,
        "kOfxActionOpenGLContextDetached".spec_bytes().len() == 31,
        "OfxActionDialog".spec_bytes().len() == 15,
        "OfxImageEffectActionGetRegionOfDefinition".spec_bytes().len() == 41,
        "OfxImageEffectActionGetRegionsOfInterest".spec_bytes().len() == 40,
        "OfxImageEffectActionGetTimeDomain".spec_bytes().len() == 33,
        "OfxImageEffectActionGetFramesNeeded".spec_bytes().len() == 35,
        "OfxImageEffectActionGetClipPreferences".spec_bytes().len() == 38,
        "OfxImageEffectActionIsIdentity".spec_bytes().len() == 30,
        "OfxImageEffectActionBeginSequenceRender".spec_bytes().len() == 39,
        "OfxImageEffectActionRender".spec_bytes().len() == 26,
        "OfxImageEffectActionEndSequenceRender".spec_bytes().len() == 37,
        "OfxImageEffectActionDescribeInContext".spec_bytes().len() == 37,
        "OfxImageEffectActionGetInverseDistortion".spec_bytes().len() == 40,
        "OfxImageEffectActionInvokeHelp".spec_bytes().len() == 30,
        "OfxImageEffectActionInvokeAbout".spec_bytes().len() == 31,
        "OfxImageEffectActionVegasKeyframeUplift".spec_bytes().len() == 39,
{
    broadcast use vstd::string::is_ascii_spec_bytes;

    reveal_strlit("OfxActionLoad");
    reveal_strlit("OfxActionDescribe");
    reveal_strlit("OfxActionUnload");
    reveal_strlit("OfxActionPurgeCaches");
    reveal_strlit("OfxActionSyncPrivateData");
    reveal_strlit("OfxActionCreateInstance");
    reveal_strlit("OfxActionDestroyInstance");
    reveal_strlit("OfxActionBeginInstanceChanged");
    reveal_strlit("OfxActionInstanceChanged");
    reveal_strlit("OfxActionEndInstanceChanged");
    reveal_strlit("OfxActionBeginInstanceEdit");
    reveal_strlit("OfxActionEndInstanceEdit");
    reveal_strlit("OfxActionOpenGLContextAttached");
    reveal_strlit("kOfxActionOpenGLContextDetached");
    reveal_strlit("OfxActionDialog");
    reveal_strlit("OfxImageEffectActionGetRegionOfDefinition");
    reveal_strlit("OfxImageEffectActionGetRegionsOfInterest");
    reveal_strlit("OfxImageEffectActionGetTimeDomain");
    reveal_strlit("OfxImageEffectActionGetFramesNeeded");
    reveal_strlit("OfxImageEffectActionGetClipPreferences");
    reveal_strlit("OfxImageEffectActionIsIdentity");
    reveal_strlit("OfxImageEffectActionBeginSequenceRender");
    reveal_strlit("OfxImageEffectActionRender");
    reveal_strlit("OfxImageEffectActionEndSequenceRender");
    reveal_strlit("OfxImageEffectActionDescribeInContext");
    reveal_strlit("OfxImageEffectActionGetInverseDistortion");
    reveal_strlit("OfxImageEffectActionInvokeHelp");
    reveal_strlit("OfxImageEffectActionInvokeAbout");
    reveal_strlit("OfxImageEffectActionVegasKeyframeUplift");
    assert(is_ascii("OfxActionLoad"));
    assert(is_ascii("OfxActionDescribe"));
    assert(is_ascii("OfxActionUnload"));
    assert(is_ascii("OfxActionPurgeCaches"));
    assert(is_ascii("OfxActionSyncPrivateData"));
    assert(is_ascii("OfxActionCreateInstance"));
    assert(is_ascii("OfxActionDestroyInstance"));
    assert(is_ascii("OfxActionBeginInstanceChanged"));
    assert(is_ascii("OfxActionInstanceChanged"));
    assert(is_ascii("OfxActionEndInstanceChanged"));
    assert(is_ascii("OfxActionBeginInstanceEdit"));
    assert(is_ascii("OfxActionEndInstanceEdit"));
    assert(is_ascii("OfxActionOpenGLContextAttached"));
    assert(is_ascii("kOfxActionOpenGLContextDetached"));
    assert(is_ascii("OfxActionDialog"));
    assert(is_ascii("OfxImageEffectActionGetRegionOfDefinition"));
    assert(is_ascii("OfxImageEffectActionGetRegionsOfInterest"));
    assert(is_ascii("OfxImageEffectActionGetTimeDomain"));
    assert(is_ascii("OfxImageEffectActionGetFramesNeeded"));
    assert(is_ascii("OfxImageEffectActionGetClipPreferences"));
    assert(is_ascii("OfxImageEffectActionIsIdentity"));
    assert(is_ascii("OfxImageEffectActionBeginSequenceRender"));
    assert(is_ascii("OfxImageEffectActionRender"));
    assert(is_ascii("OfxImageEffectActionEndSequenceRender"));
    assert(is_ascii("OfxImageEffectActionDescribeInContext"));
    assert(is_ascii("OfxImageEffectActionGetInverseDistortion"));
    assert(is_ascii("OfxImageEffectActionInvokeHelp"));
    assert(is_ascii("OfxImageEffectActionInvokeAbout"));
    assert(is_ascii("OfxImageEffectActionVegasKeyframeUplift"));
}

/// Distinctness of the protocol action names that share a byte length: each
/// such pair differs at a known position.
#[verifier::rlimit(100)]
pub proof fn lemma_action_names_distinct()
    ensures
        "OfxActionUnload".spec_bytes() != "OfxActionDialog".spec_bytes(),
        "OfxActionSyncPrivateData".spec_bytes() != "OfxActionDestroyInstance".spec_bytes(),
        "OfxActionSyncPrivateData".spec_bytes() != "OfxActionInstanceChanged".spec_bytes(),
        "OfxActionSyncPrivateData".spec_bytes() != "OfxActionEndInstanceEdit".spec_bytes(),
        "OfxActionDestroyInstance".spec_bytes() != "OfxActionInstanceChanged".spec_bytes(),
        "OfxActionDestroyInstance".spec_bytes() != "OfxActionEndInstanceEdit".spec_bytes(),
        "OfxActionInstanceChanged".spec_bytes() != "OfxActionEndInstanceEdit".spec_bytes(),
        "OfxImageEffectActionGetRegionsOfInterest".spec_bytes() != "OfxImageEffectActionGetInverseDistortion".spec_bytes(),
        "OfxImageEffectActionIsIdentity".spec_bytes() != "OfxImageEffectActionInvokeHelp".spec_bytes(),
        "OfxImageEffectActionBeginSequenceRender".spec_bytes() != "OfxImageEffectActionVegasKeyframeUplift".spec_bytes(),
        "OfxImageEffectActionEndSequenceRender".spec_bytes() != "OfxImageEffectActionDescribeInContext".spec_bytes(),
        "OfxImageEffectActionRender".spec_bytes() != "OfxActionBeginInstanceEdit".spec_bytes(),
        "OfxImageEffectActionIsIdentity".spec_bytes() != "OfxActionOpenGLContextAttached".spec_bytes(),
        "OfxImageEffectActionInvokeHelp".spec_bytes() != "OfxActionOpenGLContextAttached".spec_bytes(),
        "OfxImageEffectActionInvokeAbout".spec_bytes() != "kOfxActionOpenGLContextDetached".spec_bytes(),
{
    broadcast use vstd::string::is_ascii_spec_bytes;

    reveal_strlit("OfxActionLoad");
    reveal_strlit("OfxActionDescribe");
    reveal_strlit("OfxActionUnload");
    reveal_strlit("OfxActionPurgeCaches");
    reveal_strlit("OfxActionSyncPrivateData");
    reveal_strlit("OfxActionCreateInstance");
    reveal_strlit("OfxActionDestroyInstance");
    reveal_strlit("OfxActionBeginInstanceChanged");
    reveal_strlit("OfxActionInstanceChanged");
    reveal_strlit("OfxActionEndInstanceChanged");
    reveal_strlit("OfxActionBeginInstanceEdit");
    reveal_strlit("OfxActionEndInstanceEdit");
    reveal_strlit("OfxActionOpenGLContextAttached");
    reveal_strlit("kOfxActionOpenGLContextDetached");
    reveal_strlit("OfxActionDialog");
    reveal_strlit("OfxImageEffectActionGetRegionOfDefinition");
    reveal_strlit("OfxImageEffectActionGetRegionsOfInterest");
    reveal_strlit("OfxImageEffectActionGetTimeDomain");
    reveal_strlit("OfxImageEffectActionGetFramesNeeded");
    reveal_strlit("OfxImageEffectActionGetClipPreferences");
    reveal_strlit("OfxImageEffectActionIsIdentity");
    reveal_strlit("OfxImageEffectActionBeginSequenceRender");
    reveal_strlit("OfxImageEffectActionRender");
    reveal_strlit("OfxImageEffectActionEndSequenceRender");
    reveal_strlit("OfxImageEffectActionDescribeInContext");
    reveal_strlit("OfxImageEffectActionGetInverseDistortion");
    reveal_strlit("OfxImageEffectActionInvokeHelp");
    reveal_strlit("OfxImageEffectActionInvokeAbout");
    reveal_strlit("OfxImageEffectActionVegasKeyframeUplift");
    assert(is_ascii("OfxActionLoad"));
    assert(is_ascii("OfxActionDescribe"));
    assert(is_ascii("OfxActionUnload"));
    assert(is_ascii("OfxActionPurgeCaches"));
    assert(is_ascii("OfxActionSyncPrivateData"));
    assert(is_ascii("OfxActionCreateInstance"));
    assert(is_ascii("OfxActionDestroyInstance"));
    assert(is_ascii("OfxActionBeginInstanceChanged"));
    assert(is_ascii("OfxActionInstanceChanged"));
    assert(is_ascii("OfxActionEndInstanceChanged"));
    assert(is_ascii("OfxActionBeginInstanceEdit"));
    assert(is_ascii("OfxActionEndInstanceEdit"));
    assert(is_ascii("OfxActionOpenGLContextAttached"));
    assert(is_ascii("kOfxActionOpenGLContextDetached"));
    assert(is_ascii("OfxActionDialog"));
    assert(is_ascii("OfxImageEffectActionGetRegionOfDefinition"));
    assert(is_ascii("OfxImageEffectActionGetRegionsOfInterest"));
    assert(is_ascii("OfxImageEffectActionGetTimeDomain"));
    assert(is_ascii("OfxImageEffectActionGetFramesNeeded"));
    assert(is_ascii("OfxImageEffectActionGetClipPreferences"));
    assert(is_ascii("OfxImageEffectActionIsIdentity"));
    assert(is_ascii("OfxImageEffectActionBeginSequenceRender"));
    assert(is_ascii("OfxImageEffectActionRender"));
    assert(is_ascii("OfxImageEffectActionEndSequenceRender"));
    assert(is_ascii("OfxImageEffectActionDescribeInContext"));
    assert(is_ascii("OfxImageEffectActionGetInverseDistortion"));
    assert(is_ascii("OfxImageEffectActionInvokeHelp"));
    assert(is_ascii("OfxImageEffectActionInvokeAbout"));
    assert(is_ascii("OfxImageEffectActionVegasKeyframeUplift"));
    assert("OfxActionUnload".spec_bytes()[9] == 'U' as u8 && "OfxActionDialog".spec_bytes()[9] == 'D' as u8);
    assert("OfxActionSyncPrivateData".spec_bytes()[9] == 'S' as u8 && "OfxActionDestroyInstance".spec_bytes()[9] == 'D' as u8);
    assert("OfxActionSyncPrivateData".spec_bytes()[9] == 'S' as u8 && "OfxActionInstanceChanged".spec_bytes()[9] == 'I' as u8);
    assert("OfxActionSyncPrivateData".spec_bytes()[9] == 'S' as u8 && "OfxActionEndInstanceEdit".spec_bytes()[9] == 'E' as u8);
    assert("OfxActionDestroyInstance".spec_bytes()[9] == 'D' as u8 && "OfxActionInstanceChanged".spec_bytes()[9] == 'I' as u8);
    assert("OfxActionDestroyInstance".spec_bytes()[9] == 'D' as u8 && "OfxActionEndInstanceEdit".spec_bytes()[9] == 'E' as u8);
    assert("OfxActionInstanceChanged".spec_bytes()[9] == 'I' as u8 && "OfxActionEndInstanceEdit".spec_bytes()[9] == 'E' as u8);
    assert("OfxImageEffectActionGetRegionsOfInterest".spec_bytes()[23] == 'R' as u8 && "OfxImageEffectActionGetInverseDistortion".spec_bytes()[23] == 'I' as u8);
    assert("OfxImageEffectActionIsIdentity".spec_bytes()[21] == 's' as u8 && "OfxImageEffectActionInvokeHelp".spec_bytes()[21] == 'n' as u8);
    assert("OfxImageEffectActionBeginSequenceRender".spec_bytes()[20] == 'B' as u8 && "OfxImageEffectActionVegasKeyframeUplift".spec_bytes()[20] == 'V' as u8);
    assert("OfxImageEffectActionEndSequenceRender".spec_bytes()[20] == 'E' as u8 && "OfxImageEffectActionDescribeInContext".spec_bytes()[20] == 'D' as u8);
    assert("OfxImageEffectActionRender".spec_bytes()[3] == 'I' as u8 && "OfxActionBeginInstanceEdit".spec_bytes()[3] == 'A' as u8);
    assert("OfxImageEffectActionIsIdentity".spec_bytes()[3] == 'I' as u8 && "OfxActionOpenGLContextAttached".spec_bytes()[3] == 'A' as u8);
    assert("OfxImageEffectActionInvokeHelp".spec_bytes()[3] == 'I' as u8 && "OfxActionOpenGLContextAttached".spec_bytes()[3] == 'A' as u8);
    assert("OfxImageEffectActionInvokeAbout".spec_bytes()[0] == 'O' as u8 && "kOfxActionOpenGLContextDetached".spec_bytes()[0] == 'k' as u8);
}

/// Law: against a loaded table, every recognized instance-scoped action name
/// maps to exactly its typed variant, and the instance-scoped names this
/// library deliberately rejects map to the invalid-action error.
#[verifier::rlimit(100)]
pub proof fn lemma_map_action_recognizes_instance_names(
    s: Suites,
    handle: PtrVal,
    handle_props: PtrVal,
    instance_data: PtrVal,
    in_args: PtrVal,
    out_args: PtrVal,
)
    ensures
        spec_map_action(Some(s), ImageEffectAction::GetRegionOfDefinition.spec_name_str(), handle, handle_props, instance_data, in_args, out_args) == Ok::<Action, Error>(spec_instance_action_variant(ImageEffectAction::GetRegionOfDefinition, spec_effect_handle(s, handle, handle_props, instance_data), in_args, out_args)),
        spec_map_action(Some(s), ImageEffectAction::GetRegionsOfInterest.spec_name_str(), handle, handle_props, instance_data, in_args, out_args) == Ok::<Action, Error>(spec_instance_action_variant(ImageEffectAction::GetRegionsOfInterest, spec_effect_handle(s, handle, handle_props, instance_data), in_args, out_args)),
        spec_map_action(Some(s), ImageEffectAction::GetTimeDomain.spec_name_str(), handle, handle_props, instance_data, in_args, out_args) == Ok::<Action, Error>(spec_instance_action_variant(ImageEffectAction::GetTimeDomain, spec_effect_handle(s, handle, handle_props, instance_data), in_args, out_args)),
        spec_map_action(Some(s), ImageEffectAction::GetFramesNeeded.spec_name_str(), handle, handle_props, instance_data, in_args, out_args) == Err::<Action, Error>(Error::InvalidAction),
        spec_map_action(Some(s), ImageEffectAction::GetClipPreferences.spec_name_str(), handle, handle_props, instance_data, in_args, out_args) == Ok::<Action, Error>(spec_instance_action_variant(ImageEffectAction::GetClipPreferences, spec_effect_handle(s, handle, handle_props, instance_data), in_args, out_args)),
        spec_map_action(Some(s), ImageEffectAction::IsIdentity.spec_name_str(), handle, handle_props, instance_data, in_args, out_args) == Ok::<Action, Error>(spec_instance_action_variant(ImageEffectAction::IsIdentity, spec_effect_handle(s, handle, handle_props, instance_data), in_args, out_args)),
        spec_map_action(Some(s), ImageEffectAction::BeginSequenceRender.spec_name_str(), handle, handle_props, instance_data, in_args, out_args) == Ok::<Action, Error>(spec_instance_action_variant(ImageEffectAction::BeginSequenceRender, spec_effect_handle(s, handle, handle_props, instance_data), in_args, out_args)),
        spec_map_action(Some(s), ImageEffectAction::Render.spec_name_str(), handle, handle_props, instance_data, in_args, out_args) == Ok::<Action, Error>(spec_instance_action_variant(ImageEffectAction::Render, spec_effect_handle(s, handle, handle_props, instance_data), in_args, out_args)),
        spec_map_action(Some(s), ImageEffectAction::EndSequenceRender.spec_name_str(), handle, handle_props, instance_data, in_args, out_args) == Ok::<Action, Error>(spec_instance_action_variant(ImageEffectAction::EndSequenceRender, spec_effect_handle(s, handle, handle_props, instance_data), in_args, out_args)),
        spec_map_action(Some(s), ImageEffectAction::DescribeInContext.spec_name_str(), handle, handle_props, instance_data, in_args, out_args) == Ok::<Action, Error>(spec_instance_action_variant(ImageEffectAction::DescribeInContext, spec_effect_handle(s, handle, handle_props, instance_data), in_args, out_args)),
        spec_map_action(Some(s), ImageEffectAction::GetInverseDistortion.spec_name_str(), handle, handle_props, instance_data, in_args, out_args) == Err::<Action, Error>(Error::InvalidAction),
        spec_map_action(Some(s), ImageEffectAction::InvokeHelp.spec_name_str(), handle, handle_props, instance_data, in_args, out_args) == Err::<Action, Error>(Error::InvalidAction),
        spec_map_action(Some(s), ImageEffectAction::InvokeAbout.spec_name_str(), handle, handle_props, instance_data, in_args, out_args) == Err::<Action, Error>(Error::InvalidAction),
        spec_map_action(Some(s), ImageEffectAction::VegasKeyframeUplift.spec_name_str(), handle, handle_props, instance_data, in_args, out_args) == Err::<Action, Error>(Error::InvalidAction),
{
    lemma_action_name_lengths();
    lemma_action_names_distinct();
}

/// Law: against a loaded table, every recognized global action name maps to
/// exactly its typed variant — Load and Unload to the payload-free variants
/// the library handles itself — and the global names this library
/// deliberately rejects map to the invalid-action error.
#[verifier::rlimit(100)]
pub proof fn lemma_map_action_recognizes_global_names(
    s: Suites,
    handle: PtrVal,
    handle_props: PtrVal,
    instance_data: PtrVal,
    in_args: PtrVal,
    out_args: PtrVal,
)
    ensures
        spec_map_action(Some(s), GlobalAction::Load.spec_name_str(), handle, handle_props, instance_data, in_args, out_args) == Ok::<Action, Error>(Action::Load),
        spec_map_action(Some(s), GlobalAction::Describe.spec_name_str(), handle, handle_props, instance_data, in_args, out_args) == Ok::<Action, Error>(spec_global_action_variant(GlobalAction::Describe, spec_effect_handle(s, handle, handle_props, instance_data), in_args)),
        spec_map_action(Some(s), GlobalAction::Unload.spec_name_str(), handle, handle_props, instance_data, in_args, out_args) == Ok::<Action, Error>(Action::Unload),
        spec_map_action(Some(s), GlobalAction::PurgeCaches.spec_name_str(), handle, handle_props, instance_data, in_args, out_args) == Ok::<Action, Error>(spec_global_action_variant(GlobalAction::PurgeCaches, spec_effect_handle(s, handle, handle_props, instance_data), in_args)),
        spec_map_action(Some(s), GlobalAction::SyncPrivateData.spec_name_str(), handle, handle_props, instance_data, in_args, out_args) == Ok::<Action, Error>(spec_global_action_variant(GlobalAction::SyncPrivateData, spec_effect_handle(s, handle, handle_props, instance_data), in_args)),
        spec_map_action(Some(s), GlobalAction::CreateInstance.spec_name_str(), handle, handle_props, instance_data, in_args, out_args) == Ok::<Action, Error>(spec_global_action_variant(GlobalAction::CreateInstance, spec_effect_handle(s, handle, handle_props, instance_data), in_args)),
        spec_map_action(Some(s), GlobalAction::DestroyInstance.spec_name_str(), handle, handle_props, instance_data, in_args, out_args) == Ok::<Action, Error>(spec_global_action_variant(GlobalAction::DestroyInstance, spec_effect_handle(s, handle, handle_props, instance_data), in_args)),
        spec_map_action(Some(s), GlobalAction::BeginInstanceChanged.spec_name_str(), handle, handle_props, instance_data, in_args, out_args) == Ok::<Action, Error>(spec_global_action_variant(GlobalAction::BeginInstanceChanged, spec_effect_handle(s, handle, handle_props, instance_data), in_args)),
        spec_map_action(Some(s), GlobalAction::InstanceChanged.spec_name_str(), handle, handle_props, instance_data, in_args, out_args) == Ok::<Action, Error>(spec_global_action_variant(GlobalAction::InstanceChanged, spec_effect_handle(s, handle, handle_props, instance_data), in_args)),
        spec_map_action(Some(s), GlobalAction::EndInstanceChanged.spec_name_str(), handle, handle_props, instance_data, in_args, out_args) == Ok::<Action, Error>(spec_global_action_variant(GlobalAction::EndInstanceChanged, spec_effect_handle(s, handle, handle_props, instance_data), in_args)),
        spec_map_action(Some(s), GlobalAction::BeginInstanceEdit.spec_name_str(), handle, handle_props, instance_data, in_args, out_args) == Err::<Action, Error>(Error::InvalidAction),
        spec_map_action(Some(s), GlobalAction::EndInstanceEdit.spec_name_str(), handle, handle_props, instance_data, in_args, out_args) == Err::<Action, Error>(Error::InvalidAction),
        spec_map_action(Some(s), GlobalAction::OpenGLContextAttached.spec_name_str(), handle, handle_props, instance_data, in_args, out_args) == Ok::<Action, Error>(spec_global_action_variant(GlobalAction::OpenGLContextAttached, spec_effect_handle(s, handle, handle_props, instance_data), in_args)),
        spec_map_action(Some(s), GlobalAction::OpenGLContextDetached.spec_name_str(), handle, handle_props, instance_data, in_args, out_args) == Ok::<Action, Error>(spec_global_action_variant(GlobalAction::OpenGLContextDetached, spec_effect_handle(s, handle, handle_props, instance_data), in_args)),
        spec_map_action(Some(s), GlobalAction::Dialog.spec_name_str(), handle, handle_props, instance_data, in_args, out_args) == Err::<Action, Error>(Error::InvalidAction),
{
    lemma_action_name_lengths();
    lemma_action_names_distinct();
}

} // verus!
