use std::sync::atomic::{AtomicUsize, Ordering};
use std::sync::Arc;

use inputflow::headers::{
    ALL, INTERCEPT_KEYBOARD, INTERCEPT_MOUSE, READ_KEYBOARD, READ_MOUSE, WRITE_KEYBOARD, WRITE_MOUSE,
};
use inputflow::{
    FeatureSupport, InputFlowError, KeyboardKey, KeyboardWriter, LibraryHandle, Loadable,
    MouseButton, MouseWriter, PluginBox, PluginInner, Result,
};

struct CountingLibrary {
    closed: Arc<AtomicUsize>,
}

impl Drop for CountingLibrary {
    fn drop(&mut self) {
        self.closed.fetch_add(1, Ordering::SeqCst);
    }
}

#[derive(Default)]
struct TestDevice {
    moves: Vec<(i32, i32)>,
    keys: Vec<KeyboardKey>,
    bits: u8,
}

impl Loadable for TestDevice {
    fn name(&self) -> String {
        "test_device".to_string()
    }

    fn capabilities(&self) -> u8 {
        self.bits
    }
}

impl MouseWriter for TestDevice {
    fn send_button_down(&mut self, _button: MouseButton) -> Result<()> {
        Ok(())
    }

    fn send_button_up(&mut self, _button: MouseButton) -> Result<()> {
        Ok(())
    }

    fn click_button(&mut self, _button: MouseButton) -> Result<()> {
        Ok(())
    }

    fn clear_buttons(&mut self) -> Result<()> {
        Ok(())
    }

    fn mouse_move_relative(&mut self, x: i32, y: i32) -> Result<()> {
        self.moves.push((x, y));
        Ok(())
    }
}

impl KeyboardWriter for TestDevice {
    fn send_key_down(&mut self, key: KeyboardKey) -> Result<()> {
        self.keys.push(key);
        Ok(())
    }

    fn send_key_up(&mut self, _key: KeyboardKey) -> Result<()> {
        Ok(())
    }

    fn press_key(&mut self, _key: KeyboardKey) -> Result<()> {
        Ok(())
    }

    fn clear_keys(&mut self) -> Result<()> {
        Err(InputFlowError::SendError)
    }
}

struct TestRoot {
    device: TestDevice,
}

impl PluginInner for TestRoot {
    type Features = TestDevice;

    fn borrow_features(&mut self) -> &mut TestDevice {
        &mut self.device
    }

    fn into_features(self) -> TestDevice {
        self.device
    }
}

fn loaded(bits: u8, closed: &Arc<AtomicUsize>) -> PluginBox<TestRoot, CountingLibrary> {
    let library = LibraryHandle::new(CountingLibrary { closed: closed.clone() });
    let root = TestRoot { device: TestDevice { bits, ..Default::default() } };
    PluginBox::new(root, FeatureSupport::from_bits_retain(bits), library)
}

#[test]
fn write_mouse_only_plugin() {
    let closed = Arc::new(AtomicUsize::new(0));
    let mut plugin = loaded(WRITE_MOUSE, &closed);
    let mut borrowed = plugin.borrow_features();
    let mouse = FeatureSupport::from_bits_retain(WRITE_MOUSE);
    let keyboard = FeatureSupport::from_bits_retain(WRITE_KEYBOARD);
    let both = mouse.union(keyboard);
    assert!(borrowed.as_mut(mouse).is_some());
    assert!(borrowed.as_mut(keyboard).is_none());
    assert!(borrowed.as_mut(both).is_none());
    borrowed.as_mut(mouse).unwrap().mouse_move_relative(3, -4).unwrap();
    assert_eq!(borrowed.name(), "test_device");
    drop(borrowed);
    let owned = plugin.into_features();
    assert!(owned.cast(both).is_none());
}

#[test]
fn unset_bit_is_absent_at_every_position() {
    let closed = Arc::new(AtomicUsize::new(0));
    for pos in 0..8u8 {
        let bit = 1u8 << pos;
        let declared = 0xffu8 & !bit;
        let mut plugin = loaded(declared, &closed);
        let mut borrowed = plugin.borrow_features();
        assert!(borrowed.as_mut(FeatureSupport::from_bits_retain(bit)).is_none());
        let mut present = loaded(bit, &closed);
        let mut view = present.borrow_features();
        assert!(view.as_mut(FeatureSupport::from_bits_retain(bit)).is_some());
    }
}

#[test]
fn combination_is_all_or_nothing() {
    let closed = Arc::new(AtomicUsize::new(0));
    let mut plugin = loaded(WRITE_MOUSE | READ_MOUSE, &closed);
    let mut borrowed = plugin.borrow_features();
    let partial = FeatureSupport::from_bits_retain(WRITE_MOUSE | WRITE_KEYBOARD);
    assert!(borrowed.as_mut(partial).is_none());
    let full = FeatureSupport::from_bits_retain(WRITE_MOUSE | READ_MOUSE);
    assert!(borrowed.as_mut(full).is_some());
    assert!(borrowed.as_mut(FeatureSupport::empty()).is_some());
}

#[test]
fn query_can_be_repeated() {
    let closed = Arc::new(AtomicUsize::new(0));
    let mut plugin = loaded(WRITE_MOUSE, &closed);
    let mut borrowed = plugin.borrow_features();
    for _ in 0..3 {
        assert!(borrowed.as_mut(FeatureSupport::from_bits_retain(WRITE_MOUSE)).is_some());
        assert!(borrowed.as_mut(FeatureSupport::from_bits_retain(READ_MOUSE)).is_none());
    }
    assert_eq!(borrowed.capabilities(), WRITE_MOUSE);
}

#[test]
fn owned_view_outlives_its_scope() {
    let closed = Arc::new(AtomicUsize::new(0));
    let mut owned = {
        let plugin = loaded(WRITE_MOUSE | WRITE_KEYBOARD, &closed);
        plugin.into_features()
    };
    let mouse = FeatureSupport::from_bits_retain(WRITE_MOUSE);
    let device = owned.as_mut(mouse).expect("mouse declared");
    device.mouse_move_relative(10, 20).unwrap();
    assert_eq!(device.moves, vec![(10, 20)]);
    assert_eq!(closed.load(Ordering::SeqCst), 0);
    let keyboard = FeatureSupport::from_bits_retain(WRITE_KEYBOARD);
    let mut cast = owned.cast(mouse.union(keyboard)).expect("both declared");
    let device = cast.as_mut(keyboard).unwrap();
    device.send_key_down(KeyboardKey::A).unwrap();
    assert_eq!(device.keys, vec![KeyboardKey::A]);
    assert_eq!(device.clear_keys(), Err(InputFlowError::SendError));
    assert_eq!(cast.name(), "test_device");
    drop(cast);
    assert_eq!(closed.load(Ordering::SeqCst), 1);
}

#[test]
fn library_closes_with_last_view() {
    let closed = Arc::new(AtomicUsize::new(0));
    let plugin = loaded(WRITE_MOUSE, &closed);
    let owned = plugin.into_features();
    let extra = owned.library();
    let another = extra.share();
    drop(owned);
    assert_eq!(closed.load(Ordering::SeqCst), 0);
    drop(extra);
    assert_eq!(closed.load(Ordering::SeqCst), 0);
    drop(another);
    assert_eq!(closed.load(Ordering::SeqCst), 1);
}

#[test]
fn dropping_plugin_box_closes_library() {
    let closed = Arc::new(AtomicUsize::new(0));
    let plugin = loaded(WRITE_MOUSE, &closed);
    assert_eq!(plugin.capabilities(), WRITE_MOUSE);
    drop(plugin);
    assert_eq!(closed.load(Ordering::SeqCst), 1);
}

#[test]
fn capability_constants_and_bits() {
    assert_eq!(READ_MOUSE, 0x01);
    assert_eq!(WRITE_MOUSE, 0x02);
    assert_eq!(READ_KEYBOARD, 0x04);
    assert_eq!(WRITE_KEYBOARD, 0x08);
    assert_eq!(INTERCEPT_MOUSE, 0x10);
    assert_eq!(INTERCEPT_KEYBOARD, 0x20);
    assert_eq!(ALL, 0x3f);
    assert_eq!(FeatureSupport::from_bits(0x0a).map(|f| f.bits()), Some(0x0a));
    assert!(FeatureSupport::from_bits(0x40).is_none());
    assert_eq!(FeatureSupport::from_bits_retain(0xc1).bits(), 0xc1);
    assert_eq!(FeatureSupport::empty().bits(), 0);
    let a = FeatureSupport::from_bits_retain(0x03);
    assert!(a.contains(FeatureSupport::from_bits_retain(0x02)));
    assert!(!a.contains(FeatureSupport::from_bits_retain(0x06)));
    assert_eq!(a.union(FeatureSupport::from_bits_retain(0x08)).bits(), 0x0b);
}

#[test]
fn library_handle_gives_back_library() {
    let closed = Arc::new(AtomicUsize::new(0));
    let handle = LibraryHandle::new(CountingLibrary { closed: closed.clone() });
    let shared = handle.share();
    assert!(Arc::ptr_eq(&handle.library().closed, &shared.library().closed));
}
