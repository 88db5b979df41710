use inputflow::headers::{WRITE_KEYBOARD, WRITE_MOUSE};
use inputflow::layout::{layouts_match, root_layout};
use inputflow::loader::HEADER_SYMBOL;
use inputflow::{
    FeatureSupport, FieldKind, FieldLayout, InputFlowError, LibraryHandle, LoadAction, LoadEvent,
    LoadSession, Loadable, PluginHeader, PluginInner, TypeLayout,
};

struct Device(u8);

impl Loadable for Device {
    fn name(&self) -> String {
        "device".to_string()
    }

    fn capabilities(&self) -> u8 {
        self.0
    }
}

struct Root(Device);

impl PluginInner for Root {
    type Features = Device;

    fn borrow_features(&mut self) -> &mut Device {
        &mut self.0
    }

    fn into_features(self) -> Device {
        self.0
    }
}

fn header(bits: u8, layout: TypeLayout) -> PluginHeader {
    PluginHeader { features: FeatureSupport::from_bits_retain(bits), layout }
}

/// Runs a load against a scripted plugin; returns the outcome and how many
/// times the factory was called.
fn run(name: &str, exe_found: bool, opened: bool, head: Option<PluginHeader>, created: Option<u8>)
    -> (Result<FeatureSupport, InputFlowError>, usize) {
    let mut session = LoadSession::new(name);
    let mut head = head;
    let mut factory_calls = 0;
    let mut action = session.action();
    loop {
        action = match action {
            LoadAction::LocateExecutable => session.step(LoadEvent::ExeLocated(exe_found)),
            LoadAction::OpenLibrary(file) => {
                assert!(file.contains(name));
                session.step(LoadEvent::LibraryOpened(opened))
            }
            LoadAction::ReadHeader => session.step(LoadEvent::HeaderRead(head.take())),
            LoadAction::InvokeFactory => {
                factory_calls += 1;
                session.step(LoadEvent::FactoryReturned(created))
            }
            LoadAction::Finish(r) => return (r, factory_calls),
        }
    }
}

#[test]
fn load_succeeds_with_matching_layout() {
    let bits = WRITE_KEYBOARD | WRITE_MOUSE;
    let (r, calls) = run("plugin", true, true, Some(header(bits, root_layout())), Some(bits));
    assert_eq!(r.map(|f| f.bits()), Ok(bits));
    assert_eq!(calls, 1);
}

#[test]
fn corrupted_layout_is_abi_and_factory_not_called() {
    let mut layout = root_layout();
    layout.fields[2] = FieldLayout { kind: FieldKind::Unsigned, size: 2, align: 2 };
    let (r, calls) = run("plugin", true, true, Some(header(WRITE_MOUSE, layout)), Some(WRITE_MOUSE));
    assert_eq!(r.map(|f| f.bits()), Err(InputFlowError::Abi));
    assert_eq!(calls, 0);
}

#[test]
fn reordered_layout_is_abi() {
    let mut layout = root_layout();
    layout.fields.swap(1, 2);
    let (r, calls) = run("plugin", true, true, Some(header(WRITE_MOUSE, layout)), Some(WRITE_MOUSE));
    assert_eq!(r.map(|f| f.bits()), Err(InputFlowError::Abi));
    assert_eq!(calls, 0);
    let mut shorter = root_layout();
    shorter.fields.pop();
    let (r, calls) = run("plugin", true, true, Some(header(WRITE_MOUSE, shorter)), Some(WRITE_MOUSE));
    assert_eq!(r.map(|f| f.bits()), Err(InputFlowError::Abi));
    assert_eq!(calls, 0);
}

#[test]
fn missing_executable_is_path() {
    let (r, calls) = run("plugin", false, true, Some(header(WRITE_MOUSE, root_layout())), Some(WRITE_MOUSE));
    assert_eq!(r.map(|f| f.bits()), Err(InputFlowError::Path));
    assert_eq!(calls, 0);
}

#[test]
fn unopened_library_is_loading() {
    let (r, _) = run("plugin", true, false, Some(header(WRITE_MOUSE, root_layout())), Some(WRITE_MOUSE));
    assert_eq!(r.map(|f| f.bits()), Err(InputFlowError::Loading));
}

#[test]
fn missing_header_is_symbol() {
    let (r, calls) = run("plugin", true, true, None, Some(WRITE_MOUSE));
    assert_eq!(r.map(|f| f.bits()), Err(InputFlowError::Symbol));
    assert_eq!(calls, 0);
}

#[test]
fn failed_factory_is_loading() {
    let (r, calls) = run("plugin", true, true, Some(header(WRITE_MOUSE, root_layout())), None);
    assert_eq!(r.map(|f| f.bits()), Err(InputFlowError::Loading));
    assert_eq!(calls, 1);
}

#[test]
fn instance_reporting_other_bits_is_abi() {
    let (r, _) = run("plugin", true, true, Some(header(WRITE_MOUSE, root_layout())), Some(WRITE_KEYBOARD));
    assert_eq!(r.map(|f| f.bits()), Err(InputFlowError::Abi));
}

#[test]
fn finished_session_ignores_later_events() {
    let mut session = LoadSession::new("plugin");
    let a = session.step(LoadEvent::ExeLocated(false));
    assert!(matches!(a, LoadAction::Finish(Err(InputFlowError::Path))));
    let a = session.step(LoadEvent::LibraryOpened(true));
    assert!(matches!(a, LoadAction::Finish(Err(InputFlowError::Path))));
    let a = session.step(LoadEvent::FactoryReturned(Some(0)));
    assert!(matches!(a, LoadAction::Finish(Err(InputFlowError::Path))));
}

#[test]
fn out_of_order_event_changes_nothing() {
    let mut session = LoadSession::new("plugin");
    let a = session.step(LoadEvent::FactoryReturned(Some(0)));
    assert!(matches!(a, LoadAction::LocateExecutable));
}

#[test]
fn library_file_name_wraps_plugin_name() {
    let session = LoadSession::new("inputflow_native");
    let file = session.file_name();
    assert!(file.contains("inputflow_native"));
    assert_ne!(file, "inputflow_native");
    assert_eq!(file, libloading::library_filename("inputflow_native").to_str().unwrap());
}

#[test]
fn header_symbol_name() {
    assert_eq!(HEADER_SYMBOL, "IF_PLUGIN_HEAD");
}

#[test]
fn layouts_compare_strictly() {
    assert!(layouts_match(&root_layout(), &root_layout()));
    let p = std::mem::size_of::<usize>();
    let root = root_layout();
    assert_eq!(root.fields.len(), 15);
    assert_eq!(root.fields[0], FieldLayout { kind: FieldKind::Pointer, size: p, align: p });
    assert_eq!(root.fields[2], FieldLayout { kind: FieldKind::Unsigned, size: 1, align: 1 });
    assert_eq!(root.fields[14], FieldLayout { kind: FieldKind::FnPointer, size: p, align: p });
    let mut other = root_layout();
    other.fields[14].kind = FieldKind::Pointer;
    assert!(!layouts_match(&root, &other));
    let empty = TypeLayout { fields: Vec::new() };
    assert!(layouts_match(&empty, &TypeLayout { fields: Vec::new() }));
    assert!(!layouts_match(&empty, &root));
}

#[test]
fn field_kind_codes() {
    assert_eq!(FieldKind::Unsigned.code(), 0);
    assert_eq!(FieldKind::FnPointer.code(), 4);
    assert_eq!(FieldKind::from_code(3), Some(FieldKind::Pointer));
    assert_eq!(FieldKind::from_code(5), Some(FieldKind::EnumTag));
    assert_eq!(FieldKind::from_code(6), None);
}

#[test]
fn finished_load_binds_plugin_with_header_capabilities() {
    let bits = WRITE_MOUSE;
    let mut session = LoadSession::new("plugin");
    session.step(LoadEvent::ExeLocated(true));
    session.step(LoadEvent::LibraryOpened(true));
    let a = session.step(LoadEvent::HeaderRead(Some(header(bits, root_layout()))));
    assert!(matches!(a, LoadAction::InvokeFactory));
    let device = Device(bits);
    let reported = device.capabilities();
    let a = session.step(LoadEvent::FactoryReturned(Some(reported)));
    assert!(matches!(a, LoadAction::Finish(Ok(f)) if f.bits() == bits));
    let plugin = session.into_plugin(Root(device), LibraryHandle::new(7u32)).ok().unwrap();
    assert_eq!(plugin.capabilities(), bits);
    let mut owned = plugin.into_features();
    assert_eq!(owned.library().library(), &7u32);
    assert_eq!(owned.as_mut(FeatureSupport::from_bits_retain(bits)).map(|d| d.name()), Some("device".to_string()));
}

#[test]
fn unfinished_or_failed_load_gives_no_plugin() {
    let session = LoadSession::new("plugin");
    let r = session.into_plugin(Root(Device(0)), LibraryHandle::new(0u32));
    assert_eq!(r.err(), Some(InputFlowError::Loading));
    let mut failed = LoadSession::new("plugin");
    failed.step(LoadEvent::ExeLocated(true));
    failed.step(LoadEvent::LibraryOpened(true));
    failed.step(LoadEvent::HeaderRead(None));
    let r = failed.into_plugin(Root(Device(0)), LibraryHandle::new(0u32));
    assert_eq!(r.err(), Some(InputFlowError::Symbol));
}
