//! The plugin lifecycle: the contract a plugin implements, the state the
//! entry-point layer keeps for one loaded plugin, and the conversion of
//! every lifecycle outcome into the exact integer the host expects.
//!
//! The host drives the sequence `Init`, then per volume `Prepare`, zero or
//! more `ProcessItem`/`ProcessItemEx` calls and `Finalize`, and at unload
//! `Done`; `About` may come at any time.  A plugin failure is caught here,
//! turned into a diagnostic line and the host's fallback sentinel for that
//! callback, and never crosses the boundary as a fault.

use vstd::prelude::*;
use crate::error::XwfError;
use crate::evidence::Evidence;
use crate::flags::{XtInitFlags, XtPreparePositiveReturnFlags, PREPARE_CALL_PROCESS_ITEM_LATE};
use crate::fntable::FunctionTable;
use crate::item::{Item, ItemHandle};
use crate::types::{
    XtFinalizeReturn, XtInitReturn, XtLicenseInfo, XtPrepareNegativeReturn, XtPrepareOpType,
    XtPrepareReturn, XtProcessItemExReturn, XtProcessItemReturn, spec_op_type_from,
};
use crate::version::{XtVersion, check_supported_xwf_version, spec_version_field,
    spec_version_supported};
use crate::volume::Volume;
use crate::window::Window;

verus! {

/// What a plugin implements.  Every method has the default the host
/// expects from a plugin that does not care about that callback, so an
/// implementation overrides only what it needs.
pub trait XTension: Sized {
    /// The plugin's own error type; failures of lifecycle methods are
    /// logged and converted to sentinels by the entry-point layer.
    type XTensionError;

    /// Builds the plugin's initial state; no host calls happen here.
    fn create() -> Self;

    /// The plugin's own version, for display purposes.
    fn xtension_version(&self) -> (r: (u8, u8, u8)) {
        (0, 1, 0)
    }

    /// The plugin's display name.
    fn xtension_name(&self) -> (r: String) {
        String::new()
    }

    /// A diagnostic line for one of the plugin's errors.
    fn error_text(_err: &Self::XTensionError) -> (r: String) {
        "plugin error".to_owned()
    }

    /// First lifecycle call; the reply declares the threading mode or
    /// refuses this load altogether.
    fn xt_init(
        &mut self,
        _version: XtVersion,
        _flags: XtInitFlags,
        _window: Option<Window>,
        _license: XtLicenseInfo,
    ) -> (r: Result<XtInitReturn, Self::XTensionError>) {
        Ok(XtInitReturn::RunSingleThreaded)
    }

    /// Called once per targeted volume and operation.
    fn xt_prepare(
        &mut self,
        _volume: Option<Volume>,
        _evidence: Option<Evidence>,
        _op_type: XtPrepareOpType,
    ) -> (r: Result<XtPrepareReturn, Self::XTensionError>) {
        Ok(
            XtPrepareReturn::Positive(
                XtPreparePositiveReturnFlags { bits: PREPARE_CALL_PROCESS_ITEM_LATE },
            ),
        )
    }

    /// Called once per item when the `Prepare` reply asked for it.
    fn xt_process_item(&mut self, _item: Item) -> (r: Result<
        XtProcessItemReturn,
        Self::XTensionError,
    >) {
        Ok(XtProcessItemReturn::Continue)
    }

    /// Called once per item with an open handle when the `Prepare`
    /// reply asked for it.
    fn xt_process_item_ex(&mut self, _handle: ItemHandle) -> (r: Result<
        XtProcessItemExReturn,
        Self::XTensionError,
    >) {
        Ok(XtProcessItemExReturn::Continue)
    }

    /// Called once after item processing for a volume completes.
    fn xt_finalize(
        &mut self,
        _volume: Option<Volume>,
        _evidence: Option<Evidence>,
        _op_type: XtPrepareOpType,
    ) -> (r: Result<XtFinalizeReturn, Self::XTensionError>) {
        Ok(XtFinalizeReturn::Finished)
    }

    /// Called exactly once at unload; teardown is best effort.
    fn xt_done(&mut self) {
    }

    /// Called whenever the host wants to show plugin information.
    fn xt_about(&mut self, _window: Option<Window>) {
    }
}

/// Marker for plugins that need nothing beyond the base contract.
pub trait XTensionBase: XTension {

}

/// Where one loaded plugin stands in its lifecycle.
#[derive(Debug, Clone, Copy, PartialEq, Eq, Structural)]
pub enum LifecycleState {
    /// `Init` has not run yet.
    Uninitialized,
    /// `Init` succeeded; the plugin serves callbacks.
    Initialized,
    /// The plugin refused this load, or `Init` failed; every further
    /// call is refused.
    PreventedFurtherUse,
    /// `Done` ran; the plugin and the function table are gone.
    Done,
}

/// What one entry point hands back to its caller: the integer for the
/// host, and a diagnostic line to send through the host's output channel
/// first, when there is one.
pub struct EntryReply {
    pub code: i32,
    pub log: Option<String>,
}

/// True when the resolved addresses would assemble into a full table.
pub open spec fn spec_resolution_ok(resolved: Seq<u64>) -> bool {
    &&& resolved.len() == crate::fntable::FN_COUNT
    &&& forall|i: int| 0 <= i < resolved.len() ==> resolved[i] != 0
}

/// True when the version word decodes to a supported host version.
pub open spec fn spec_version_ok(word: u32) -> bool {
    &&& spec_version_field(word) != 0
    &&& spec_version_supported(
        XtVersion {
            major: (spec_version_field(word) / 100) as u16,
            minor: (spec_version_field(word) % 100) as u16,
            service_release: ((word / 0x100) % 0x100) as u8,
            language: (word % 0x100) as u8,
        },
    )
}

/// The state the entry-point layer keeps for one loaded plugin: the
/// lifecycle position, the plugin instance, and the resolved function
/// table.  The embedding layer owns exactly one runtime per load and
/// serialises access to it; nothing here is shared ambient state.
pub struct XtensionRuntime<P: XTension> {
    state: LifecycleState,
    plugin: Option<P>,
    table: Option<FunctionTable>,
}

impl<P: XTension> XtensionRuntime<P> {
    pub closed spec fn spec_state(&self) -> LifecycleState {
        self.state
    }

    pub closed spec fn spec_has_plugin(&self) -> bool {
        self.plugin is Some
    }

    pub closed spec fn spec_has_table(&self) -> bool {
        self.table is Some
    }

    pub closed spec fn spec_table(&self) -> Option<FunctionTable> {
        self.table
    }

    /// A serving runtime always holds a plugin and a complete table.
    pub open spec fn wf(&self) -> bool {
        self.spec_state() == LifecycleState::Initialized ==> {
            &&& self.spec_has_plugin()
            &&& self.spec_table() matches Some(t) && t.wf()
        }
    }

    /// A fresh runtime: nothing loaded, nothing resolved.
    pub fn new() -> (r: XtensionRuntime<P>)
        ensures
            r.wf(),
            r.spec_state() == LifecycleState::Uninitialized,
            !r.spec_has_plugin(),
            !r.spec_has_table(),
    {
        XtensionRuntime { state: LifecycleState::Uninitialized, plugin: None, table: None }
    }

    /// The `Init` entry point.  It resolves the function table from the
    /// addresses the embedding layer looked up, checks the host version,
    /// builds the plugin and runs its `xt_init`.  Resolution or version
    /// failure is fatal for this load: the reply is the refuse sentinel
    /// and every later call finds the runtime prevented.  Otherwise the
    /// reply is the plugin's declared threading mode, or the refuse
    /// sentinel again when the plugin failed or refused.
    pub fn init(
        &mut self,
        resolved: &Vec<u64>,
        n_version: u32,
        n_flags: u32,
        main_window: u64,
    ) -> (r: EntryReply)
        ensures
            final(self).wf(),
            !spec_resolution_ok(resolved@) ==> r.code == -1 && final(self).spec_state()
                == LifecycleState::PreventedFurtherUse && r.log is Some,
            spec_resolution_ok(resolved@) && !spec_version_ok(n_version) ==> r.code == -1 && final(self).spec_state() == LifecycleState::PreventedFurtherUse && r.log is Some,
            spec_resolution_ok(resolved@) && spec_version_ok(n_version) ==> {
                &&& (r.code == -1 || r.code == 1 || r.code == 2)
                &&& r.code == -1 ==> final(self).spec_state()
                    == LifecycleState::PreventedFurtherUse
                &&& r.code != -1 ==> final(self).spec_state() == LifecycleState::Initialized
                    && final(self).spec_has_plugin() && final(self).spec_has_table()
            },
    {
        let table = match FunctionTable::load(resolved) {
            Ok(t) => t,
            Err(_) => {
                self.state = LifecycleState::PreventedFurtherUse;
                self.plugin = None;
                self.table = None;
                return EntryReply {
                    code: -1,
                    log: Some("failed to resolve required host functions".to_owned()),
                };
            },
        };
        let version = match XtVersion::try_from(n_version) {
            Ok(v) => v,
            Err(_) => {
                self.state = LifecycleState::PreventedFurtherUse;
                self.plugin = None;
                self.table = None;
                return EntryReply {
                    code: -1,
                    log: Some("host version check failed".to_owned()),
                };
            },
        };
        match check_supported_xwf_version(version) {
            Ok(_) => {},
            Err(_) => {
                self.state = LifecycleState::PreventedFurtherUse;
                self.plugin = None;
                self.table = None;
                return EntryReply {
                    code: -1,
                    log: Some("host version check failed".to_owned()),
                };
            },
        }
        let flags = XtInitFlags::from_bits_truncate(n_flags);
        let mut plugin = P::create();
        let res = plugin.xt_init(version, flags, Window::new(main_window), XtLicenseInfo {  });
        match res {
            Ok(ret) => {
                let code = ret.code();
                if code == -1 {
                    self.state = LifecycleState::PreventedFurtherUse;
                    self.plugin = None;
                    self.table = None;
                    EntryReply { code: -1, log: None }
                } else {
                    self.state = LifecycleState::Initialized;
                    self.plugin = Some(plugin);
                    self.table = Some(table);
                    EntryReply { code, log: None }
                }
            },
            Err(e) => {
                self.state = LifecycleState::PreventedFurtherUse;
                self.plugin = None;
                self.table = None;
                let mut msg = "XT_Init error: ".to_owned();
                msg.append(P::error_text(&e).as_str());
                EntryReply { code: -1, log: Some(msg) }
            },
        }
    }

    /// The `Prepare` entry point.  A call outside the serving state is
    /// refused with the prevent sentinel; an operation-type code outside
    /// the defined set yields the just-call-`Finalize` sentinel without
    /// the plugin's `xt_prepare` ever running and leaves the runtime
    /// untouched; otherwise the reply encodes what the plugin returned,
    /// with a plugin failure logged and mapped to the same non-fatal
    /// just-call-`Finalize` sentinel.
    pub fn prepare(&mut self, h_volume: u64, h_evidence: u64, n_op_type: u32) -> (r: EntryReply)
        requires
            old(self).wf(),
        ensures
            final(self).wf(),
            old(self).spec_state() != LifecycleState::Initialized ==> r.code == -3 && *final(self)
                == *old(self),
            old(self).spec_state() == LifecycleState::Initialized && spec_op_type_from(n_op_type)
                is Err ==> r.code == 0 && *final(self) == *old(self),
            old(self).spec_state() == LifecycleState::Initialized ==> final(self).spec_state()
                == LifecycleState::Initialized && final(self).spec_has_plugin(),
    {
        if !matches!(self.state, LifecycleState::Initialized) {
            return EntryReply {
                code: -3,
                log: Some("XT_Prepare called while the plugin is not serving".to_owned()),
            };
        }
        let op_type = match XtPrepareOpType::try_from(n_op_type) {
            Ok(op) => op,
            Err(_) => {
                return EntryReply {
                    code: 0,
                    log: Some("error in parsing nOpType argument".to_owned()),
                };
            },
        };
        let volume = match Volume::new(h_volume) {
            Ok(v) => Some(v),
            Err(_) => None,
        };
        let evidence = Evidence::new(h_evidence);
        let res = match &mut self.plugin {
            Some(p) => p.xt_prepare(volume, evidence, op_type),
            None => {
                return EntryReply {
                    code: -3,
                    log: Some("XT_Prepare called while the plugin is not serving".to_owned()),
                };
            },
        };
        match res {
            Ok(ret) => EntryReply { code: ret.code(), log: None },
            Err(e) => {
                let mut msg = "XT_Prepare error: ".to_owned();
                msg.append(P::error_text(&e).as_str());
                EntryReply { code: 0, log: Some(msg) }
            },
        }
    }

    /// The `ProcessItem` entry point.  A call outside the serving state
    /// is refused with the stop sentinel; a plugin failure is logged and
    /// mapped to the continue sentinel, so one bad item never aborts the
    /// host's whole operation.
    pub fn process_item(&mut self, n_item_id: i32) -> (r: EntryReply)
        requires
            old(self).wf(),
        ensures
            final(self).wf(),
            old(self).spec_state() != LifecycleState::Initialized ==> r.code == -1 && *final(self)
                == *old(self),
            old(self).spec_state() == LifecycleState::Initialized ==> (r.code == -1 || r.code == -2
                || r.code == 0) && final(self).spec_state() == LifecycleState::Initialized && final(self).spec_has_plugin(),
    {
        if !matches!(self.state, LifecycleState::Initialized) {
            return EntryReply {
                code: -1,
                log: Some("XT_ProcessItem called while the plugin is not serving".to_owned()),
            };
        }
        let item = Item::new(n_item_id);
        let res = match &mut self.plugin {
            Some(p) => p.xt_process_item(item),
            None => {
                return EntryReply {
                    code: -1,
                    log: Some(
                        "XT_ProcessItem called while the plugin is not serving".to_owned(),
                    ),
                };
            },
        };
        match res {
            Ok(ret) => EntryReply { code: ret.code(), log: None },
            Err(e) => {
                let mut msg = "XT_ProcessItem error: ".to_owned();
                msg.append(P::error_text(&e).as_str());
                EntryReply { code: 0, log: Some(msg) }
            },
        }
    }

    /// The `ProcessItemEx` entry point.  A null item handle from the
    /// host is refused with the stop sentinel before the plugin runs; a
    /// plugin failure is logged and mapped to the continue sentinel.
    pub fn process_item_ex(&mut self, n_item_id: i32, h_item: u64) -> (r: EntryReply)
        requires
            old(self).wf(),
        ensures
            final(self).wf(),
            old(self).spec_state() != LifecycleState::Initialized ==> r.code == -1 && *final(self)
                == *old(self),
            old(self).spec_state() == LifecycleState::Initialized && h_item == 0 ==> r.code == -1
                && *final(self) == *old(self),
            old(self).spec_state() == LifecycleState::Initialized ==> (r.code == -1 || r.code == 0)
                && final(self).spec_state() == LifecycleState::Initialized && final(self).spec_has_plugin(),
    {
        if !matches!(self.state, LifecycleState::Initialized) {
            return EntryReply {
                code: -1,
                log: Some("XT_ProcessItemEx called while the plugin is not serving".to_owned()),
            };
        }
        let handle = match ItemHandle::new(h_item, Item::new(n_item_id)) {
            Ok(h) => h,
            Err(_) => {
                return EntryReply {
                    code: -1,
                    log: Some("failed to parse hItem Argument".to_owned()),
                };
            },
        };
        let res = match &mut self.plugin {
            Some(p) => p.xt_process_item_ex(handle),
            None => {
                return EntryReply {
                    code: -1,
                    log: Some(
                        "XT_ProcessItemEx called while the plugin is not serving".to_owned(),
                    ),
                };
            },
        };
        match res {
            Ok(ret) => EntryReply { code: ret.code(), log: None },
            Err(e) => {
                let mut msg = "XT_ProcessItemEx error: ".to_owned();
                msg.append(P::error_text(&e).as_str());
                EntryReply { code: 0, log: Some(msg) }
            },
        }
    }

    /// The `Finalize` entry point.  An undefined operation-type code or
    /// a plugin failure is logged and mapped to the ok sentinel; nothing
    /// here is fatal.
    pub fn finalize(&mut self, h_volume: u64, h_evidence: u64, n_op_type: u32) -> (r: EntryReply)
        requires
            old(self).wf(),
        ensures
            final(self).wf(),
            old(self).spec_state() != LifecycleState::Initialized ==> r.code == 0 && *final(self)
                == *old(self),
            old(self).spec_state() == LifecycleState::Initialized && spec_op_type_from(n_op_type)
                is Err ==> r.code == 0 && *final(self) == *old(self),
            old(self).spec_state() == LifecycleState::Initialized ==> (r.code == 0 || r.code == 1)
                && final(self).spec_state() == LifecycleState::Initialized && final(self).spec_has_plugin(),
    {
        if !matches!(self.state, LifecycleState::Initialized) {
            return EntryReply {
                code: 0,
                log: Some("XT_Finalize called while the plugin is not serving".to_owned()),
            };
        }
        let op_type = match XtPrepareOpType::try_from(n_op_type) {
            Ok(op) => op,
            Err(_) => {
                return EntryReply {
                    code: 0,
                    log: Some("error in parsing nOpType argument".to_owned()),
                };
            },
        };
        let volume = match Volume::new(h_volume) {
            Ok(v) => Some(v),
            Err(_) => None,
        };
        let evidence = Evidence::new(h_evidence);
        let res = match &mut self.plugin {
            Some(p) => p.xt_finalize(volume, evidence, op_type),
            None => {
                return EntryReply {
                    code: 0,
                    log: Some("XT_Finalize called while the plugin is not serving".to_owned()),
                };
            },
        };
        match res {
            Ok(ret) => EntryReply { code: ret.code(), log: None },
            Err(e) => {
                let mut msg = "XT_Finalize error: ".to_owned();
                msg.append(P::error_text(&e).as_str());
                EntryReply { code: 0, log: Some(msg) }
            },
        }
    }

    /// The `Done` entry point: best-effort plugin teardown, then the
    /// plugin instance and the function table are released exactly once,
    /// whatever state the runtime was in.
    pub fn done(&mut self) -> (r: EntryReply)
        ensures
            final(self).wf(),
            r.code == 0,
            final(self).spec_state() == LifecycleState::Done,
            !final(self).spec_has_plugin(),
            !final(self).spec_has_table(),
    {
        match &mut self.plugin {
            Some(p) => p.xt_done(),
            None => {},
        }
        self.plugin = None;
        self.table = None;
        self.state = LifecycleState::Done;
        EntryReply { code: 0, log: None }
    }

    /// The `About` entry point: shows plugin information without moving
    /// the lifecycle.
    pub fn about(&mut self, h_parent: u64) -> (r: EntryReply)
        requires
            old(self).wf(),
        ensures
            final(self).wf(),
            r.code == 0,
            final(self).spec_state() == old(self).spec_state(),
            final(self).spec_has_plugin() == old(self).spec_has_plugin(),
            final(self).spec_has_table() == old(self).spec_has_table(),
    {
        match &mut self.plugin {
            Some(p) => p.xt_about(Window::new(h_parent)),
            None => {},
        }
        EntryReply { code: 0, log: None }
    }
}

} // verus!
