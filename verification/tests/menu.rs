use chairgap::menu::{
    check_state_value, native_item_settings, special_menu_slot, AppMenuSlot, NativeItemAction,
    NativeItemSettings, Selector, sel_close, sel_miniaturize, LabelMenuItemTemplate, MacOSSpecialMenuType, Menu, MenuItem,
    MenuItemAction, MenuItemCheckStyle, MenuItemStyle, MenuItemTemplate, MenuTemplate,
    MenuUpdateError,
};

fn label(title: &str, enabled: bool, style: MenuItemStyle, action: MenuItemAction) -> MenuItemTemplate {
    MenuItemTemplate::Label(LabelMenuItemTemplate { label: title.to_string(), enabled, style, action })
}

fn checkable(checked: bool) -> MenuItemStyle {
    MenuItemStyle::Checkable { style: MenuItemCheckStyle::CheckBox, checked }
}

// File | View > [Zoom (checkable), ---, Panels > [Left (radio)]] | ---
fn sample_menu() -> Menu {
    let panels = MenuTemplate {
        items: vec![label(
            "Left",
            true,
            MenuItemStyle::Checkable { style: MenuItemCheckStyle::Radio, checked: false },
            MenuItemAction::Fn(Some(4)),
        )],
        macos_special_menu_type: None,
    };
    let view = MenuTemplate {
        items: vec![
            label("Zoom", true, checkable(true), MenuItemAction::Fn(Some(2))),
            MenuItemTemplate::Separator,
            label("Panels", true, MenuItemStyle::Normal, MenuItemAction::Submenu(panels)),
        ],
        macos_special_menu_type: Some(MacOSSpecialMenuType::Window),
    };
    Menu::new(MenuTemplate {
        items: vec![
            label("File", true, MenuItemStyle::Normal, MenuItemAction::Fn(Some(1))),
            label("View", true, MenuItemStyle::Normal, MenuItemAction::Submenu(view)),
            MenuItemTemplate::Separator,
        ],
        macos_special_menu_type: None,
    })
}

fn label_at<'a>(menu: &'a Menu, path: &[u32]) -> &'a LabelMenuItemTemplate {
    match menu.item(path) {
        Some(MenuItemTemplate::Label(l)) => l,
        _ => panic!("no label item at {:?}", path),
    }
}

#[test]
fn item_lookup_by_path() {
    let menu = sample_menu();
    assert_eq!(label_at(&menu, &[0]).label, "File");
    assert_eq!(label_at(&menu, &[1, 0]).label, "Zoom");
    assert!(matches!(menu.item(&[1, 1]), Some(MenuItemTemplate::Separator)));
    assert_eq!(label_at(&menu, &[1, 2, 0]).label, "Left");
    assert!(menu.item(&[]).is_none());
    assert!(menu.item(&[3]).is_none());
    assert!(menu.item(&[0, 0]).is_none());
    assert!(menu.item(&[2, 0]).is_none());
    assert!(menu.item(&[1, 2, 1]).is_none());
}

#[test]
fn set_enabled_changes_only_that_item() {
    let mut menu = sample_menu();
    assert!(menu.set_enabled(&[1, 2, 0], false).is_ok());
    assert_eq!(label_at(&menu, &[1, 2, 0]).enabled, false);
    assert_eq!(label_at(&menu, &[1, 2]).enabled, true);
    assert_eq!(label_at(&menu, &[1, 0]).enabled, true);
    assert_eq!(label_at(&menu, &[0]).enabled, true);
    assert!(menu.set_enabled(&[0], false).is_ok());
    assert_eq!(label_at(&menu, &[0]).enabled, false);
}

#[test]
fn set_enabled_errors() {
    let mut menu = sample_menu();
    assert_eq!(menu.set_enabled(&[9], false), Err(MenuUpdateError::MenuItemNotFound));
    assert_eq!(menu.set_enabled(&[], false), Err(MenuUpdateError::MenuItemNotFound));
    assert_eq!(menu.set_enabled(&[2], false), Err(MenuUpdateError::InvalidMenuItemType));
    assert_eq!(menu.set_enabled(&[1, 1], false), Err(MenuUpdateError::InvalidMenuItemType));
    assert_eq!(label_at(&menu, &[0]).enabled, true);
}

#[test]
fn set_checked_rules() {
    let mut menu = sample_menu();
    assert!(menu.set_checked(&[1, 0], false).is_ok());
    assert_eq!(label_at(&menu, &[1, 0]).style, checkable(false));
    assert!(menu.set_checked(&[1, 2, 0], true).is_ok());
    assert_eq!(
        label_at(&menu, &[1, 2, 0]).style,
        MenuItemStyle::Checkable { style: MenuItemCheckStyle::Radio, checked: true }
    );
    assert_eq!(menu.set_checked(&[0], true), Err(MenuUpdateError::InvalidMenuItemType));
    assert_eq!(menu.set_checked(&[1, 1], true), Err(MenuUpdateError::InvalidMenuItemType));
    assert_eq!(menu.set_checked(&[1, 5], true), Err(MenuUpdateError::MenuItemNotFound));
    assert_eq!(label_at(&menu, &[0]).style, MenuItemStyle::Normal);
}

#[test]
fn label_item_defaults() {
    let item: MenuItem = MenuItem::label("Quit").into();
    match item.into_template() {
        MenuItemTemplate::Label(l) => {
            assert_eq!(l.label, "Quit");
            assert!(!l.enabled);
            assert_eq!(l.style, MenuItemStyle::Normal);
            assert!(matches!(l.action, MenuItemAction::Fn(None)));
        }
        MenuItemTemplate::Separator => panic!("expected a label"),
    }
    let sep: MenuItem = MenuItem::separator().into();
    assert!(matches!(sep.into_template(), MenuItemTemplate::Separator));
}

#[test]
fn window_selectors() {
    assert_eq!(sel_miniaturize().name, "miniaturize:");
    assert_eq!(sel_close().name, "close:");
}

#[test]
fn native_item_setup() {
    assert!(matches!(native_item_settings(&MenuItemTemplate::Separator), NativeItemSettings::Separator));
    match native_item_settings(&label("Zoom", true, checkable(true), MenuItemAction::Fn(Some(2)))) {
        NativeItemSettings::Label { title, checkable, state, action, enabled } => {
            assert_eq!(title, "Zoom");
            assert!(checkable);
            assert_eq!(state, Some(1));
            assert!(matches!(action, NativeItemAction::Block(Some(2))));
            assert!(enabled);
        }
        _ => panic!("expected a label"),
    }
    let sub = MenuTemplate { items: vec![], macos_special_menu_type: None };
    match native_item_settings(&label("View", false, MenuItemStyle::Normal, MenuItemAction::Submenu(sub))) {
        NativeItemSettings::Label { title, checkable, state, action, enabled } => {
            assert_eq!(title, "View");
            assert!(!checkable);
            assert_eq!(state, None);
            match action {
                NativeItemAction::Submenu { title } => assert_eq!(title, "View"),
                _ => panic!("expected a submenu"),
            }
            assert!(!enabled);
        }
        _ => panic!("expected a label"),
    }
    let sel = MenuItemAction::MacOSSelector(Selector { name: "close:".to_string() });
    match native_item_settings(&label("Close", true, checkable(false), sel)) {
        NativeItemSettings::Label { state, action, .. } => {
            assert_eq!(state, Some(0));
            match action {
                NativeItemAction::Selector(name) => assert_eq!(name, "close:"),
                _ => panic!("expected a selector"),
            }
        }
        _ => panic!("expected a label"),
    }
}

#[test]
fn special_menu_slots() {
    assert_eq!(special_menu_slot(Some(MacOSSpecialMenuType::Services)), Some(AppMenuSlot::ServicesMenu));
    assert_eq!(special_menu_slot(Some(MacOSSpecialMenuType::Window)), Some(AppMenuSlot::WindowsMenu));
    assert_eq!(special_menu_slot(Some(MacOSSpecialMenuType::Help)), None);
    assert_eq!(special_menu_slot(None), None);
    assert_eq!(check_state_value(true), 1);
    assert_eq!(check_state_value(false), 0);
}
