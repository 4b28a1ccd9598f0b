use xwf_api::error::XwfError;
use xwf_api::evidence::Evidence;
use xwf_api::fntable::{FunctionTable, FN_COUNT, FN_OUTPUT_MESSAGE, symbol_name};
use xwf_api::item::{Item, ItemHandle};
use xwf_api::lifecycle::{EntryReply, LifecycleState, XTension, XtensionRuntime};
use xwf_api::types::{
    XtFinalizeReturn, XtInitReturn, XtLicenseInfo, XtPrepareNegativeReturn, XtPrepareOpType,
    XtPrepareReturn, XtProcessItemReturn,
};
use xwf_api::flags::XtInitFlags;
use xwf_api::version::XtVersion;
use xwf_api::volume::Volume;
use xwf_api::window::Window;

/// Answers `Prepare` with a reply the entry layer encodes as -4, so a
/// test can see whether that method ran at all.
struct CountingPlugin {}

impl XTension for CountingPlugin {
    type XTensionError = XwfError;

    fn create() -> CountingPlugin {
        CountingPlugin {}
    }

    fn xt_prepare(
        &mut self,
        _volume: Option<Volume>,
        _evidence: Option<Evidence>,
        _op_type: XtPrepareOpType,
    ) -> Result<XtPrepareReturn, XwfError> {
        Ok(XtPrepareReturn::Negative(XtPrepareNegativeReturn::StopWholeOperation))
    }
}

/// Walks the whole lifecycle: enumerates on `Prepare`, then asks only
/// for `Finalize`.
struct ScenarioPlugin {
    items_seen: u32,
}

impl XTension for ScenarioPlugin {
    type XTensionError = XwfError;

    fn create() -> ScenarioPlugin {
        ScenarioPlugin { items_seen: 0 }
    }

    fn xtension_name(&self) -> String {
        String::from("scenario")
    }

    fn xt_init(
        &mut self,
        version: XtVersion,
        flags: XtInitFlags,
        window: Option<Window>,
        _license: XtLicenseInfo,
    ) -> Result<XtInitReturn, XwfError> {
        assert_eq!((version.major, version.minor), (52, 19));
        assert!(flags.contains(xwf_api::flags::INIT_IS_FORENSICS));
        assert!(window.is_none());
        Ok(XtInitReturn::RunSingleThreaded)
    }

    fn xt_prepare(
        &mut self,
        volume: Option<Volume>,
        evidence: Option<Evidence>,
        op_type: XtPrepareOpType,
    ) -> Result<XtPrepareReturn, XwfError> {
        assert!(volume.is_none());
        assert!(evidence.is_none());
        assert_eq!(op_type, XtPrepareOpType::ActionRun);
        // enumerate a small simulated snapshot
        for id in 0..3 {
            self.items_seen += Item::new(id).item_id as u32 + 1;
        }
        assert_eq!(self.items_seen, 6);
        Ok(XtPrepareReturn::Negative(XtPrepareNegativeReturn::JustCallXtFinalize))
    }

    fn xt_finalize(
        &mut self,
        _volume: Option<Volume>,
        _evidence: Option<Evidence>,
        _op_type: XtPrepareOpType,
    ) -> Result<XtFinalizeReturn, XwfError> {
        Ok(XtFinalizeReturn::Finished)
    }
}

/// Fails in every lifecycle method that can fail.
struct FailingPlugin {}

impl XTension for FailingPlugin {
    type XTensionError = XwfError;

    fn create() -> FailingPlugin {
        FailingPlugin {}
    }

    fn error_text(err: &XwfError) -> String {
        err.message()
    }

    fn xt_prepare(
        &mut self,
        _volume: Option<Volume>,
        _evidence: Option<Evidence>,
        _op_type: XtPrepareOpType,
    ) -> Result<XtPrepareReturn, XwfError> {
        Err(XwfError::FailedToSelectVolume)
    }

    fn xt_process_item(&mut self, _item: Item) -> Result<XtProcessItemReturn, XwfError> {
        Err(XwfError::ReadItemDataFailed)
    }
}

fn full_table() -> Vec<u64> {
    (0..FN_COUNT as u64).map(|i| 0x1000 + i).collect()
}

#[test]
fn table_resolution_is_all_or_nothing() {
    let mut resolved = full_table();
    let table = FunctionTable::load(&resolved).unwrap();
    assert_eq!(table.len(), FN_COUNT);
    assert_eq!(table.addr(FN_OUTPUT_MESSAGE), 0x1000);
    resolved[6] = 0;
    assert_eq!(
        FunctionTable::load(&resolved).err(),
        Some(XwfError::XwfFunctionCallFailed("XWF_GetItemSize"))
    );
    let short: Vec<u64> = vec![1, 2, 3];
    assert_eq!(
        FunctionTable::load(&short).err(),
        Some(XwfError::InvalidInputArgument)
    );
}

#[test]
fn symbol_names_follow_table_order() {
    assert_eq!(symbol_name(0), "XWF_OutputMessage");
    assert_eq!(symbol_name(9), "XWF_Read");
    assert_eq!(symbol_name(FN_COUNT - 1), "XWF_CreateFile");
}

#[test]
fn missing_symbol_prevents_the_load() {
    let mut resolved = full_table();
    resolved[0] = 0;
    let mut rt: XtensionRuntime<ScenarioPlugin> = XtensionRuntime::new();
    let reply = rt.init(&resolved, 0x14630000, 1, 0);
    assert_eq!(reply.code, -1);
    assert!(reply.log.is_some());
    // every further call is refused
    assert_eq!(rt.prepare(0, 0, 0).code, -3);
    assert_eq!(rt.process_item(1).code, -1);
}

#[test]
fn unsupported_version_prevents_the_load() {
    let resolved = full_table();
    let mut rt: XtensionRuntime<ScenarioPlugin> = XtensionRuntime::new();
    // version field 1307 decodes to 13.7, below the supported minimum
    let reply = rt.init(&resolved, 0x051B0000, 1, 0);
    assert_eq!(reply.code, -1);
    assert!(reply.log.is_some());
}

#[test]
fn undefined_op_type_skips_the_plugin() {
    let resolved = full_table();
    let mut rt: XtensionRuntime<CountingPlugin> = XtensionRuntime::new();
    assert_eq!(rt.init(&resolved, 0x14630000, 1, 0).code, 1);
    // an undefined operation type yields the just-call-Finalize sentinel;
    // had the plugin's prepare run, the code would have been -4
    let reply = rt.prepare(0, 0, 99);
    assert_eq!(reply.code, 0);
    assert!(reply.log.is_some());
    // a defined operation type reaches the plugin
    assert_eq!(rt.prepare(0, 0, 1).code, -4);
}

#[test]
fn lifecycle_scenario_runs_end_to_end() {
    let resolved = full_table();
    let mut rt: XtensionRuntime<ScenarioPlugin> = XtensionRuntime::new();
    let init = rt.init(&resolved, 0x14630000, 1, 0);
    assert_eq!(init.code, 1);
    assert!(init.log.is_none());
    let prepare = rt.prepare(0, 0, 0);
    assert_eq!(prepare.code, 0);
    assert!(prepare.log.is_none());
    let done = rt.done();
    assert_eq!(done.code, 0);
    // after Done every serving call is refused
    assert_eq!(rt.prepare(0, 0, 0).code, -3);
}

#[test]
fn plugin_failures_become_sentinels_with_logs() {
    let resolved = full_table();
    let mut rt: XtensionRuntime<FailingPlugin> = XtensionRuntime::new();
    assert_eq!(rt.init(&resolved, 0x14630000, 1, 0).code, 1);
    let prepare = rt.prepare(0, 0, 0);
    assert_eq!(prepare.code, 0);
    assert_eq!(
        prepare.log,
        Some(String::from("XT_Prepare error: failed to select volume"))
    );
    let item = rt.process_item(4);
    assert_eq!(item.code, 0);
    assert_eq!(
        item.log,
        Some(String::from("XT_ProcessItem error: failed to read item data"))
    );
}

#[test]
fn process_item_ex_rejects_null_handle() {
    let resolved = full_table();
    let mut rt: XtensionRuntime<ScenarioPlugin> = XtensionRuntime::new();
    assert_eq!(rt.init(&resolved, 0x14630000, 1, 0).code, 1);
    let reply = rt.process_item_ex(3, 0);
    assert_eq!(reply.code, -1);
    assert!(reply.log.is_some());
    assert_eq!(rt.process_item_ex(3, 0x99).code, 0);
}

#[test]
fn finalize_and_about_are_non_fatal() {
    let resolved = full_table();
    let mut rt: XtensionRuntime<ScenarioPlugin> = XtensionRuntime::new();
    assert_eq!(rt.init(&resolved, 0x14630000, 1, 0).code, 1);
    assert_eq!(rt.finalize(0, 0, 99).code, 0);
    assert_eq!(rt.finalize(0, 0, 0).code, 0);
    assert_eq!(rt.about(0).code, 0);
    // about moves nothing: the runtime still serves
    assert_eq!(rt.process_item(1).code, 0);
}

#[test]
fn entry_reply_carries_plain_fields() {
    let r = EntryReply { code: 2, log: None };
    assert_eq!(r.code, 2);
    assert!(matches!(LifecycleState::Initialized, LifecycleState::Initialized));
}

#[test]
fn plugin_defaults_answer_every_callback() {
    let mut p = ScenarioPlugin::create();
    assert!(matches!(
        p.xt_process_item(Item::new(1)),
        Ok(XtProcessItemReturn::Continue)
    ));
    let handle = ItemHandle::new(5, Item::new(1)).unwrap();
    assert!(p.xt_process_item_ex(handle).is_ok());
    p.xt_done();
    p.xt_about(None);
    assert_eq!(p.xtension_version(), (0, 1, 0));
    let lib = xwf_api::example::ExampleLib::create();
    assert_eq!(lib.xtension_name(), "Example Extension");
    assert_eq!(lib.xtension_version(), (0, 1, 0));
}
