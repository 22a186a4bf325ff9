use std::cell::{Cell, RefCell};
use std::rc::Rc;

use chairgap::geo::{Point, Size};
use chairgap::native::{FrameRequest, TitleStyleCommand, TrafficLightPlacement, VisualEffectViewConfig};
use chairgap::window::{
    Event, FocusTracker, Location, WindowIds, TitleStyle, VibrancyConfig, VibrancyUpdate, Window, WindowCommand,
    WindowRef,
};

type PlainWindow = Window<fn(&WindowRef, Event)>;

fn new_window() -> PlainWindow {
    PlainWindow::new(1)
}

#[test]
fn test_resizable() {
    let mut window = new_window();
    assert_eq!(window.resizable(), true);
    window.window_mut().set_resizable(false);
    assert_eq!(window.resizable(), false);
}

#[test]
fn test_closable() {
    let mut window = new_window();
    assert_eq!(window.closable(), true);
    window.window_mut().set_closable(false);
    assert_eq!(window.closable(), false);
}

#[test]
fn test_minimizable() {
    let mut win = new_window();
    assert_eq!(win.minimizable(), true);
    win.window_mut().set_minimizable(false);
    assert_eq!(win.minimizable(), false);
}

#[test]
fn test_visible() {
    let mut win = new_window();
    assert_eq!(win.visible(), false);
    win.window_mut().set_visible(true);
    assert_eq!(win.visible(), true);
    win.window_mut().set_visible(false);
    assert_eq!(win.visible(), false);
}

#[test]
fn test_size() {
    let mut win = new_window();
    assert_eq!(win.size(), Size { width: 800, height: 600 });
    win.window_mut().set_size(Size { width: 123, height: 456 });
    assert_eq!(win.size(), Size { width: 123, height: 456 });
}

#[test]
fn test_min_size() {
    let mut win = new_window();
    assert_eq!(win.min_size(), Size { width: 32, height: 32 });
    win.window_mut().set_min_size(Size { width: 50, height: 60 });
    assert_eq!(win.min_size(), Size { width: 50, height: 60 });
}

#[test]
fn test_max_size() {
    let mut win = new_window();
    assert_eq!(win.max_size(), Size { width: u32::max_value(), height: u32::max_value() });
    win.window_mut().set_max_size(Size { width: 5000, height: 6000 });
    assert_eq!(win.max_size(), Size { width: 5000, height: 6000 });
}

#[test]
fn test_location_exact() {
    let mut win = new_window();
    win.window_mut().set_location(Location::Exact(Point { x: -10, y: 88 }));
    assert_eq!(win.position(), Point { x: -10, y: 88 });
}

#[test]
fn test_set_size_not_changing_position() {
    let mut win = new_window();
    let position = win.position();
    win.window_mut().set_size(Size { width: 123, height: 456 });
    assert_eq!(position, win.position());
}

#[test]
fn test_set_position_not_changing_size() {
    let mut win = new_window();
    let size = win.size();
    win.window_mut().set_location(Location::Exact(Point { x: 123, y: 456 }));
    assert_eq!(size, win.size());
}

#[test]
fn test_title() {
    let mut win = new_window();
    assert_eq!(win.title(), "");
    win.window_mut().set_title("eng \0中文");
    assert_eq!(win.title(), "eng \0中文");
    win.window_mut().set_title("");
    assert_eq!(win.title(), "");
}

#[test]
fn new_window_queues_its_configuration() {
    let mut win = WindowRef::new(7);
    assert_eq!(win.id(), 7);
    let cmds = win.take_commands();
    assert_eq!(cmds.len(), 7);
    assert!(matches!(cmds[0], WindowCommand::SetResizable(true)));
    assert!(matches!(cmds[1], WindowCommand::SetClosable(true)));
    assert!(matches!(cmds[2], WindowCommand::SetMinimizable(true)));
    assert!(matches!(cmds[3], WindowCommand::SetMinSize(Size { width: 32, height: 32 })));
    assert!(matches!(
        cmds[4],
        WindowCommand::SetMaxSize(Size { width: u32::MAX, height: u32::MAX })
    ));
    assert!(matches!(
        cmds[5],
        WindowCommand::SetFrame(FrameRequest {
            position: None,
            center: false,
            size: Some(Size { width: 800, height: 600 })
        })
    ));
    assert!(matches!(
        cmds[6],
        WindowCommand::SetFrame(FrameRequest { position: None, center: true, size: None })
    ));
    assert!(win.take_commands().is_empty());
}

#[test]
fn setters_queue_one_command_each() {
    let mut win = WindowRef::new(1);
    win.take_commands();
    win.set_title("abc");
    win.set_traffic_light_visible(false);
    win.set_location(Location::Exact(Point { x: 3, y: 4 }));
    let cmds = win.take_commands();
    assert_eq!(cmds.len(), 3);
    match &cmds[0] {
        WindowCommand::SetTitle(t) => assert_eq!(t, "abc"),
        _ => panic!("expected a title command"),
    }
    assert!(matches!(cmds[1], WindowCommand::SetTrafficLightVisible(false)));
    assert!(matches!(
        cmds[2],
        WindowCommand::SetFrame(FrameRequest {
            position: Some(Point { x: 3, y: 4 }),
            center: false,
            size: None
        })
    ));
}

#[test]
fn centering_waits_for_the_reported_position() {
    let mut win = WindowRef::new(1);
    win.set_location(Location::Exact(Point { x: 5, y: 6 }));
    assert_eq!(win.position(), Point { x: 5, y: 6 });
    win.set_location(Location::Center);
    win.sync_frame(Point { x: 100, y: 200 }, Size { width: 10, height: 20 });
    assert_eq!(win.position(), Point { x: 100, y: 200 });
    assert_eq!(win.size(), Size { width: 10, height: 20 });
}

// The platform's part (centering on the screen) is played by `sync_frame`,
// which reports where the native window put the window.
#[test]
fn test_location_center() {
    let screen_center = Point { x: 560, y: 240 };
    let mut win = WindowRef::new(1);
    win.sync_frame(screen_center, win.size());
    let center_position = win.position();

    win.set_location(Location::Exact(Point { x: 0, y: 0 }));
    assert_ne!(win.position(), center_position);

    win.set_location(Location::Center);
    win.sync_frame(screen_center, win.size());
    assert_eq!(win.position(), center_position);
}

#[test]
fn window_ids_are_unique() {
    let mut ids = WindowIds::new();
    let a = ids.allocate().unwrap();
    let b = ids.allocate().unwrap();
    let c = ids.allocate().unwrap();
    assert!(a != b && b != c && a != c);
}

#[test]
fn focused_index_lookup() {
    let mut focus = FocusTracker::new();
    let ids = vec![3u64, 8, 8];
    assert_eq!(focus.focused_index(&ids), None);
    focus.handle_event(8, Event::Focus);
    assert_eq!(focus.focused_index(&ids), Some(1));
    focus.handle_event(9, Event::Focus);
    assert_eq!(focus.focused_index(&ids), None);
}

#[test]
fn setting_twice_is_setting_once() {
    let mut a = WindowRef::new(1);
    let mut b = WindowRef::new(1);
    a.set_min_size(Size { width: 1, height: 2 });
    b.set_min_size(Size { width: 1, height: 2 });
    b.set_min_size(Size { width: 1, height: 2 });
    assert_eq!(a.min_size(), b.min_size());
    assert_eq!(a.size(), b.size());
    assert_eq!(a.position(), b.position());
}

#[test]
fn title_style_and_vibrancy_commands() {
    let mut win = WindowRef::new(1);
    win.take_commands();
    win.set_title_style(TitleStyle::Hidden { traffic_light_position: Some(Point { x: 18, y: 36 }) });
    win.set_title_style(TitleStyle::Hidden { traffic_light_position: None });
    win.set_title_style(TitleStyle::Visible);
    win.update_vibrancy(VibrancyUpdate {
        top: None,
        left: Some(VibrancyConfig { size: 200 }),
        bottom: Some(VibrancyConfig { size: u32::MAX }),
        right: Some(VibrancyConfig { size: 0x8000_0000 }),
    });
    let cmds = win.take_commands();
    assert!(matches!(
        cmds[0],
        WindowCommand::SetTitleStyle(TitleStyleCommand {
            title_bar_visible: false,
            traffic_light_placement: Some(TrafficLightPlacement {
                customized: true,
                position: Point { x: 18, y: 36 }
            })
        })
    ));
    assert!(matches!(
        cmds[1],
        WindowCommand::SetTitleStyle(TitleStyleCommand {
            title_bar_visible: false,
            traffic_light_placement: Some(TrafficLightPlacement {
                customized: false,
                position: Point { x: 0, y: 0 }
            })
        })
    ));
    assert!(matches!(
        cmds[2],
        WindowCommand::SetTitleStyle(TitleStyleCommand {
            title_bar_visible: true,
            traffic_light_placement: None
        })
    ));
    match &cmds[3] {
        WindowCommand::UpdateVibrancy(v) => {
            assert_eq!(v.top, VisualEffectViewConfig { size: -1 });
            assert_eq!(v.left, VisualEffectViewConfig { size: 200 });
            assert_eq!(v.bottom, VisualEffectViewConfig { size: -1 });
            assert_eq!(v.right, VisualEffectViewConfig { size: i32::MIN });
        }
        _ => panic!("expected a vibrancy command"),
    }
}

#[test]
fn focus_follows_focus_and_blur() {
    let mut focus = FocusTracker::new();
    assert_eq!(focus.focused(), None);
    focus.handle_event(1, Event::Focus);
    assert_eq!(focus.focused(), Some(1));
    focus.handle_event(2, Event::Blur);
    assert_eq!(focus.focused(), Some(1));
    focus.handle_event(1, Event::Move);
    focus.handle_event(1, Event::Resize);
    focus.handle_event(1, Event::Close);
    assert_eq!(focus.focused(), Some(1));
    focus.handle_event(2, Event::Focus);
    assert_eq!(focus.focused(), Some(2));
    focus.handle_event(2, Event::Blur);
    assert_eq!(focus.focused(), None);
}

#[test]
fn auto_hide_hides_on_close_and_calls_back() {
    let seen: Rc<RefCell<Vec<(bool, Event)>>> = Rc::new(RefCell::new(Vec::new()));
    let seen2 = seen.clone();
    let mut win = Window::new(3);
    win.set_event_callback(move |w: &WindowRef, e: Event| seen2.borrow_mut().push((w.visible(), e)));
    let mut focus = FocusTracker::new();
    win.window_mut().set_visible(true);
    win.handle_event(&mut focus, Event::Close);
    assert!(win.visible());
    assert_eq!(win.auto_hide(), false);
    win.set_auto_hide(true);
    assert_eq!(win.auto_hide(), true);
    win.handle_event(&mut focus, Event::Focus);
    assert_eq!(focus.focused(), Some(3));
    win.handle_event(&mut focus, Event::Close);
    assert!(!win.visible());
    assert_eq!(*seen.borrow(), vec![(true, Event::Close), (true, Event::Focus), (false, Event::Close)]);
}

#[test]
fn default_vibrancy_update_is_empty() {
    let u = VibrancyUpdate::default();
    assert_eq!(u, VibrancyUpdate { top: None, left: None, bottom: None, right: None });
}

struct DropItem {
    is_dropped: Rc<Cell<bool>>,
}

impl Drop for DropItem {
    fn drop(&mut self) {
        self.is_dropped.set(true)
    }
}

#[test]
fn test_window_dropping_event_handler() {
    let is_dropped = Rc::new(Cell::new(false));
    {
        let item = DropItem { is_dropped: is_dropped.clone() };
        let mut win = Window::new(1);
        win.set_event_callback(move |_w: &WindowRef, _evt: Event| {
            let _item = &item;
        });
        win.window_mut().set_resizable(true);
        win.window_mut().set_title("A Test Window");
        let _ = win.title();
    }
    assert!(is_dropped.get());
}

#[test]
fn focused_window_lookup() {
    let windows = vec![WindowRef::new(4), WindowRef::new(9), WindowRef::new(9)];
    let mut focus = FocusTracker::new();
    assert!(focus.focused_window_in(&windows).is_none());
    assert_eq!(focus.with_focused_window(&windows, |w| w.map(|w| w.id())), None);
    focus.handle_event(9, Event::Focus);
    let found = focus.focused_window_in(&windows).unwrap();
    assert!(std::ptr::eq(found, &windows[1]));
    assert_eq!(focus.with_focused_window(&windows, |w| w.map(|w| w.id())), Some(9));
    focus.handle_event(5, Event::Focus);
    assert!(focus.focused_window_in(&windows).is_none());
}

#[test]
fn independent_setters_commute() {
    let mut a = WindowRef::new(1);
    let mut b = WindowRef::new(1);
    a.set_visible(true);
    a.set_size(Size { width: 5, height: 6 });
    a.set_title("t");
    b.set_title("t");
    b.set_size(Size { width: 5, height: 6 });
    b.set_visible(true);
    assert_eq!(a.visible(), b.visible());
    assert_eq!(a.size(), b.size());
    assert_eq!(a.title(), b.title());
    assert_eq!(a.position(), b.position());
}
