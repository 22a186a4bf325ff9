use vstd::prelude::*;

verus! {

/// A macOS menu that the application menu bar treats specially.
#[derive(Clone, Copy, Debug, PartialEq, Eq, Structural)]
pub enum MacOSSpecialMenuType {
    Services,
    Window,
    Help,
}

/// The name of an Objective-C selector that a menu item sends when chosen.
#[derive(Debug)]
pub struct Selector {
    pub name: String,
}

/// The selector that minimizes the key window.
pub fn sel_miniaturize() -> (r: Selector)
    ensures
        r.name@ == "miniaturize:"@,
{
    Selector { name: "miniaturize:".to_owned() }
}

/// The selector that closes the key window.
pub fn sel_close() -> (r: Selector)
    ensures
        r.name@ == "close:"@,
{
    Selector { name: "close:".to_owned() }
}

/// A menu: its items, and the special role it plays on macOS, if any.
#[derive(Debug)]
pub struct MenuTemplate {
    pub items: Vec<MenuItemTemplate>,
    pub macos_special_menu_type: Option<MacOSSpecialMenuType>,
}

/// One item of a menu.
#[derive(Debug)]
pub enum MenuItemTemplate {
    Separator,
    Label(LabelMenuItemTemplate),
}

/// How a check mark is drawn.
#[derive(Clone, Copy, Debug, PartialEq, Eq, Structural)]
pub enum MenuItemCheckStyle {
    CheckBox,
    Radio,
}

/// Whether an item can be checked, and whether it is.
#[derive(Clone, Copy, Debug, PartialEq, Eq, Structural)]
pub enum MenuItemStyle {
    Normal,
    Checkable { style: MenuItemCheckStyle, checked: bool },
}

/// What choosing an item does: call a handler (identified by the number under
/// which the application registered it; none for an item that does nothing),
/// open a submenu, or send a selector.
#[derive(Debug)]
pub enum MenuItemAction {
    Fn(Option<u64>),
    Submenu(MenuTemplate),
    MacOSSelector(Selector),
}

/// A labelled item.
#[derive(Debug)]
pub struct LabelMenuItemTemplate {
    pub label: String,
    pub enabled: bool,
    pub style: MenuItemStyle,
    pub action: MenuItemAction,
}

/// Why a menu item could not be changed.
#[derive(Clone, Copy, Debug, PartialEq, Eq, Structural)]
pub enum MenuUpdateError {
    /// No item at the path.
    MenuItemNotFound,
    /// The item at the path cannot take the change (a separator, or an item
    /// that cannot be checked).
    InvalidMenuItemType,
}

/// The submenu an item opens, if any.
pub open spec fn submenu_of(item: MenuItemTemplate) -> Option<MenuTemplate> {
    match item {
        MenuItemTemplate::Label(l) => match l.action {
            MenuItemAction::Submenu(m) => Some(m),
            _ => None,
        },
        MenuItemTemplate::Separator => None,
    }
}

/// The item reached by a path of indices: the first index picks an item of
/// `items`, each further index an item of the submenu of the item before.
/// An empty path, an index past the end, or a step through an item without a
/// submenu reaches nothing.
pub open spec fn item_at(items: Seq<MenuItemTemplate>, path: Seq<u32>) -> Option<MenuItemTemplate>
    decreases path.len(),
{
    if path.len() == 0 || path[0] >= items.len() {
        None
    } else if path.len() == 1 {
        Some(items[path[0] as int])
    } else {
        match submenu_of(items[path[0] as int]) {
            Some(m) => item_at(m.items@, path.drop_first()),
            None => None,
        }
    }
}

/// A change to one labelled item.
#[derive(Clone, Copy, Debug, PartialEq, Eq, Structural)]
pub enum LabelChange {
    Enabled(bool),
    Checked(bool),
}

/// A labelled item after a change: enabling changes the enabled flag; checking
/// changes the check state of a checkable item, and nothing else.
pub open spec fn changed_label(l: LabelMenuItemTemplate, change: LabelChange) -> LabelMenuItemTemplate {
    match change {
        LabelChange::Enabled(e) => LabelMenuItemTemplate { enabled: e, ..l },
        LabelChange::Checked(c) => match l.style {
            MenuItemStyle::Checkable { style, checked: _ } => LabelMenuItemTemplate {
                style: MenuItemStyle::Checkable { style, checked: c },
                ..l
            },
            MenuItemStyle::Normal => l,
        },
    }
}

/// `new` is `old` with the labelled item at `path` changed by `change`: every
/// other item at each level stays as it was, and the items on the way keep
/// their label, enabled flag, style and special role.
pub open spec fn changed_at(
    old: Seq<MenuItemTemplate>,
    new: Seq<MenuItemTemplate>,
    path: Seq<u32>,
    change: LabelChange,
) -> bool
    decreases path.len(),
{
    &&& path.len() >= 1
    &&& path[0] < old.len()
    &&& new.len() == old.len()
    &&& forall|j: int| 0 <= j < old.len() && j != path[0] ==> new[j] == old[j]
    &&& if path.len() == 1 {
        &&& old[path[0] as int] matches MenuItemTemplate::Label(l)
        &&& new[path[0] as int] == MenuItemTemplate::Label(changed_label(l, change))
    } else {
        &&& old[path[0] as int] matches MenuItemTemplate::Label(ol)
        &&& new[path[0] as int] matches MenuItemTemplate::Label(nl)
        &&& ol.action matches MenuItemAction::Submenu(om)
        &&& nl.action matches MenuItemAction::Submenu(nm)
        &&& nl.label == ol.label
        &&& nl.enabled == ol.enabled
        &&& nl.style == ol.style
        &&& nm.macos_special_menu_type == om.macos_special_menu_type
        &&& changed_at(om.items@, nm.items@, path.drop_first(), change)
    }
}

/// Finds the item reached by `path[start..]` in `items`.
fn find_item<'a>(items: &'a Vec<MenuItemTemplate>, path: &[u32], start: usize) -> (r: Option<
    &'a MenuItemTemplate,
>)
    requires
        start <= path@.len(),
    ensures
        r matches Some(x) ==> item_at(items@, path@.skip(start as int)) == Some(*x),
        r is None ==> item_at(items@, path@.skip(start as int)) is None,
    decreases path@.len() - start,
{
    let ghost rest = path@.skip(start as int);
    if start == path.len() {
        return None;
    }
    let i = path[start];
    if i as usize >= items.len() {
        return None;
    }
    let item = &items[i as usize];
    if start + 1 == path.len() {
        return Some(item);
    }
    assert(rest.drop_first() =~= path@.skip(start + 1));
    match item {
        MenuItemTemplate::Label(l) => match &l.action {
            MenuItemAction::Submenu(m) => find_item(&m.items, path, start + 1),
            _ => None,
        },
        MenuItemTemplate::Separator => None,
    }
}

fn change_label(l: LabelMenuItemTemplate, change: LabelChange) -> (r: LabelMenuItemTemplate)
    ensures
        r == changed_label(l, change),
{
    let LabelMenuItemTemplate { label, enabled, style, action } = l;
    match change {
        LabelChange::Enabled(e) => LabelMenuItemTemplate { label, enabled: e, style, action },
        LabelChange::Checked(c) => match style {
            MenuItemStyle::Checkable { style: s, checked: _ } => LabelMenuItemTemplate {
                label,
                enabled,
                style: MenuItemStyle::Checkable { style: s, checked: c },
                action,
            },
            MenuItemStyle::Normal => LabelMenuItemTemplate { label, enabled, style, action },
        },
    }
}

/// Changes the labelled item reached by `path[start..]`.
fn change_at(items: &mut Vec<MenuItemTemplate>, path: &[u32], start: usize, change: LabelChange)
    requires
        start < path@.len(),
        item_at(old(items)@, path@.skip(start as int)) matches Some(MenuItemTemplate::Label(_)),
    ensures
        changed_at(old(items)@, final(items)@, path@.skip(start as int), change),
    decreases path@.len() - start,
{
    let ghost rest = path@.skip(start as int);
    let ghost old_items = items@;
    let i = path[start] as usize;
    let item = items.remove(i);
    let new_item = if start + 1 == path.len() {
        match item {
            MenuItemTemplate::Label(l) => MenuItemTemplate::Label(change_label(l, change)),
            MenuItemTemplate::Separator => MenuItemTemplate::Separator,
        }
    } else {
        assert(rest.drop_first() =~= path@.skip(start + 1));
        match item {
            MenuItemTemplate::Label(l) => {
                let LabelMenuItemTemplate { label, enabled, style, action } = l;
                match action {
                    MenuItemAction::Submenu(m) => {
                        let MenuTemplate { items: mut sub_items, macos_special_menu_type } = m;
                        change_at(&mut sub_items, path, start + 1, change);
                        MenuItemTemplate::Label(
                            LabelMenuItemTemplate {
                                label,
                                enabled,
                                style,
                                action: MenuItemAction::Submenu(
                                    MenuTemplate { items: sub_items, macos_special_menu_type },
                                ),
                            },
                        )
                    },
                    other => MenuItemTemplate::Label(
                        LabelMenuItemTemplate { label, enabled, style, action: other },
                    ),
                }
            },
            MenuItemTemplate::Separator => MenuItemTemplate::Separator,
        }
    };
    items.insert(i, new_item);
    assert(items@ =~= old_items.update(i as int, new_item));
}

/// A built menu: the items it shows, with their state, as its template gives
/// them. Items that AppKit adds by itself to the Services and Windows menus
/// are not among them, so a path to one of those items is not found here.
#[derive(Debug)]
pub struct Menu {
    root: MenuTemplate,
}

impl Menu {
    pub closed spec fn items(&self) -> Seq<MenuItemTemplate> {
        self.root.items@
    }

    pub closed spec fn special_type(&self) -> Option<MacOSSpecialMenuType> {
        self.root.macos_special_menu_type
    }

    /// The menu built from a template.
    pub fn new(template: MenuTemplate) -> (r: Menu)
        ensures
            r.items() == template.items@,
            r.special_type() == template.macos_special_menu_type,
    {
        Menu { root: template }
    }

    /// The item reached by `path`, if any.
    pub fn item(&self, path: &[u32]) -> (r: Option<&MenuItemTemplate>)
        ensures
            r matches Some(x) ==> item_at(self.items(), path@) == Some(*x),
            r is None ==> item_at(self.items(), path@) is None,
    {
        assert(path@.skip(0) =~= path@);
        find_item(&self.root.items, path, 0)
    }

    /// Enables or disables the item at `path`: fails with `MenuItemNotFound`
    /// when no item is there and with `InvalidMenuItemType` when it is a
    /// separator, changing nothing then.
    pub fn set_enabled(&mut self, path: &[u32], enabled: bool) -> (r: Result<(), MenuUpdateError>)
        ensures
            final(self).special_type() == old(self).special_type(),
            match item_at(old(self).items(), path@) {
                None => r == Err::<(), MenuUpdateError>(MenuUpdateError::MenuItemNotFound)
                    && final(self).items() == old(self).items(),
                Some(MenuItemTemplate::Separator) => r == Err::<(), MenuUpdateError>(
                    MenuUpdateError::InvalidMenuItemType,
                ) && final(self).items() == old(self).items(),
                Some(MenuItemTemplate::Label(_)) => r is Ok && changed_at(
                    old(self).items(),
                    final(self).items(),
                    path@,
                    LabelChange::Enabled(enabled),
                ),
            },
            r is Ok ==> enabled_reads_back(old(self).items(), final(self).items(), path@, enabled),
    {
        assert(path@.skip(0) =~= path@);
        let valid = match find_item(&self.root.items, path, 0) {
            None => Err(MenuUpdateError::MenuItemNotFound),
            Some(MenuItemTemplate::Separator) => Err(MenuUpdateError::InvalidMenuItemType),
            Some(MenuItemTemplate::Label(_)) => Ok(()),
        };
        if valid.is_ok() {
            let ghost old_items = self.root.items@;
            change_at(&mut self.root.items, path, 0, LabelChange::Enabled(enabled));
            proof {
                lemma_set_enabled_reads_back(old_items, self.root.items@, path@, enabled);
            }
        }
        valid
    }

    /// Checks or unchecks the item at `path`: fails with `MenuItemNotFound`
    /// when no item is there and with `InvalidMenuItemType` when it is a
    /// separator or cannot be checked, changing nothing then.
    pub fn set_checked(&mut self, path: &[u32], checked: bool) -> (r: Result<(), MenuUpdateError>)
        ensures
            final(self).special_type() == old(self).special_type(),
            match item_at(old(self).items(), path@) {
                None => r == Err::<(), MenuUpdateError>(MenuUpdateError::MenuItemNotFound)
                    && final(self).items() == old(self).items(),
                Some(MenuItemTemplate::Label(l)) if l.style is Checkable => r is Ok && changed_at(
                    old(self).items(),
                    final(self).items(),
                    path@,
                    LabelChange::Checked(checked),
                ),
                Some(_) => r == Err::<(), MenuUpdateError>(MenuUpdateError::InvalidMenuItemType)
                    && final(self).items() == old(self).items(),
            },
            r is Ok ==> checked_reads_back(old(self).items(), final(self).items(), path@, checked),
    {
        assert(path@.skip(0) =~= path@);
        let valid = match find_item(&self.root.items, path, 0) {
            None => Err(MenuUpdateError::MenuItemNotFound),
            Some(MenuItemTemplate::Separator) => Err(MenuUpdateError::InvalidMenuItemType),
            Some(MenuItemTemplate::Label(l)) => match l.style {
                MenuItemStyle::Normal => Err(MenuUpdateError::InvalidMenuItemType),
                MenuItemStyle::Checkable { .. } => Ok(()),
            },
        };
        if valid.is_ok() {
            let ghost old_items = self.root.items@;
            change_at(&mut self.root.items, path, 0, LabelChange::Checked(checked));
            proof {
                lemma_set_checked_reads_back(old_items, self.root.items@, path@, checked);
            }
        }
        valid
    }
}

} // verus!

verus! {

/// Two paths lead apart: at some position both have an index, and the
/// indices differ there.
pub open spec fn paths_diverge(p: Seq<u32>, q: Seq<u32>) -> bool
    decreases p.len(),
{
    if p.len() == 0 || q.len() == 0 {
        false
    } else if p[0] != q[0] {
        true
    } else {
        paths_diverge(p.drop_first(), q.drop_first())
    }
}

/// After a change at `path`, the item there reads back as changed.
pub proof fn lemma_change_reads_back(
    old: Seq<MenuItemTemplate>,
    new: Seq<MenuItemTemplate>,
    path: Seq<u32>,
    change: LabelChange,
)
    requires
        changed_at(old, new, path, change),
    ensures
        item_at(old, path) matches Some(MenuItemTemplate::Label(l)) && item_at(new, path) == Some(
            MenuItemTemplate::Label(changed_label(l, change)),
        ),
    decreases path.len(),
{
    if path.len() > 1 {
        let i = path[0] as int;
        match (old[i], new[i]) {
            (MenuItemTemplate::Label(ol), MenuItemTemplate::Label(nl)) => {
                match (ol.action, nl.action) {
                    (MenuItemAction::Submenu(om), MenuItemAction::Submenu(nm)) => {
                        lemma_change_reads_back(om.items@, nm.items@, path.drop_first(), change);
                    },
                    _ => {},
                }
            },
            _ => {},
        }
    }
}

/// A change at `path` leaves every item reached by a path that leads apart
/// from `path` as it was.
pub proof fn lemma_change_keeps_other_items(
    old: Seq<MenuItemTemplate>,
    new: Seq<MenuItemTemplate>,
    path: Seq<u32>,
    other: Seq<u32>,
    change: LabelChange,
)
    requires
        changed_at(old, new, path, change),
        paths_diverge(path, other),
    ensures
        item_at(new, other) == item_at(old, other),
    decreases path.len(),
{
    let i = path[0] as int;
    if other[0] != path[0] {
        if other[0] < old.len() {
            assert(new[other[0] as int] == old[other[0] as int]);
        }
    } else if path.len() > 1 && other.len() > 1 {
        match (old[i], new[i]) {
            (MenuItemTemplate::Label(ol), MenuItemTemplate::Label(nl)) => {
                match (ol.action, nl.action) {
                    (MenuItemAction::Submenu(om), MenuItemAction::Submenu(nm)) => {
                        lemma_change_keeps_other_items(
                            om.items@,
                            nm.items@,
                            path.drop_first(),
                            other.drop_first(),
                            change,
                        );
                    },
                    _ => {},
                }
            },
            _ => {},
        }
    } else {
        assert(path.drop_first().len() == 0 || other.drop_first().len() == 0);
        assert(!paths_diverge(path.drop_first(), other.drop_first()));
    }
}

} // verus!

verus! {

/// A menu item ready to be put in a menu.
#[derive(Debug)]
pub struct MenuItem(MenuItemTemplate);

/// A separator line.
#[derive(Debug)]
pub struct SeparatorMenuItem;

/// A labelled item.
#[derive(Debug)]
pub struct LabelMenuItem(LabelMenuItemTemplate);

impl MenuItem {
    pub closed spec fn template(&self) -> MenuItemTemplate {
        self.0
    }

    /// A separator.
    pub fn separator() -> (r: SeparatorMenuItem) {
        SeparatorMenuItem
    }

    /// A labelled item showing `title`: disabled, not checkable, and doing
    /// nothing when chosen.
    pub fn label(title: &str) -> (r: LabelMenuItem)
        ensures
            r.template().label@ == title@,
            !r.template().enabled,
            r.template().style == MenuItemStyle::Normal,
            r.template().action == MenuItemAction::Fn(None),
    {
        LabelMenuItem(
            LabelMenuItemTemplate {
                label: title.to_owned(),
                enabled: false,
                style: MenuItemStyle::Normal,
                action: MenuItemAction::Fn(None),
            },
        )
    }

    /// The item as a template to build a menu from.
    pub fn into_template(self) -> (r: MenuItemTemplate)
        ensures
            r == self.template(),
    {
        self.0
    }
}

impl LabelMenuItem {
    pub closed spec fn template(&self) -> LabelMenuItemTemplate {
        self.0
    }
}

impl From<SeparatorMenuItem> for MenuItem {
    fn from(item: SeparatorMenuItem) -> (r: MenuItem) {
        MenuItem(MenuItemTemplate::Separator)
    }
}

impl vstd::std_specs::convert::FromSpecImpl<SeparatorMenuItem> for MenuItem {
    open spec fn obeys_from_spec() -> bool {
        true
    }

    closed spec fn from_spec(v: SeparatorMenuItem) -> MenuItem {
        MenuItem(MenuItemTemplate::Separator)
    }
}

impl From<LabelMenuItem> for MenuItem {
    fn from(item: LabelMenuItem) -> (r: MenuItem) {
        MenuItem(MenuItemTemplate::Label(item.0))
    }
}

impl vstd::std_specs::convert::FromSpecImpl<LabelMenuItem> for MenuItem {
    open spec fn obeys_from_spec() -> bool {
        true
    }

    closed spec fn from_spec(v: LabelMenuItem) -> MenuItem {
        MenuItem(MenuItemTemplate::Label(v.0))
    }
}

} // verus!

verus! {

/// Converting a separator or a labelled item into a menu item keeps what it
/// shows: a separator stays a separator, a labelled item keeps its template.
pub proof fn lemma_menu_item_from(separator: SeparatorMenuItem, label: LabelMenuItem)
    ensures
        <MenuItem as vstd::std_specs::convert::FromSpec<SeparatorMenuItem>>::from_spec(
            separator,
        ).template() == MenuItemTemplate::Separator,
        <MenuItem as vstd::std_specs::convert::FromSpec<LabelMenuItem>>::from_spec(label).template()
            == MenuItemTemplate::Label(label.template()),
{
}

} // verus!

verus! {

/// Where in the application the built menu is installed, besides where it is
/// attached.
#[derive(Clone, Copy, Debug, PartialEq, Eq, Structural)]
pub enum AppMenuSlot {
    ServicesMenu,
    WindowsMenu,
}

pub open spec fn special_menu_slot_spec(t: Option<MacOSSpecialMenuType>) -> Option<AppMenuSlot> {
    match t {
        Some(MacOSSpecialMenuType::Services) => Some(AppMenuSlot::ServicesMenu),
        Some(MacOSSpecialMenuType::Window) => Some(AppMenuSlot::WindowsMenu),
        _ => None,
    }
}

/// The application slot a special menu fills: the services menu, the windows
/// menu, or none (a help menu and an ordinary menu fill none).
pub fn special_menu_slot(t: Option<MacOSSpecialMenuType>) -> (r: Option<AppMenuSlot>)
    ensures
        r == special_menu_slot_spec(t),
{
    match t {
        Some(MacOSSpecialMenuType::Services) => Some(AppMenuSlot::ServicesMenu),
        Some(MacOSSpecialMenuType::Window) => Some(AppMenuSlot::WindowsMenu),
        _ => None,
    }
}

/// The check state value of a checked item.
pub const NS_CONTROL_STATE_VALUE_ON: i64 = 1;

/// The check state value of an unchecked item.
pub const NS_CONTROL_STATE_VALUE_OFF: i64 = 0;

/// What choosing a native item does.
#[derive(Debug)]
pub enum NativeItemAction {
    /// Calls the handler with this number, or nothing.
    Block(Option<u64>),
    /// Opens a submenu built from the item's submenu template, titled so.
    Submenu { title: String },
    /// Sends the selector with this name.
    Selector(String),
}

/// How a native menu item is set up.
#[derive(Debug)]
pub enum NativeItemSettings {
    Separator,
    Label {
        title: String,
        checkable: bool,
        /// The check state to set; none for an item that cannot be checked.
        state: Option<i64>,
        action: NativeItemAction,
        enabled: bool,
    },
}

/// The check state a native item of style `style` is given.
pub open spec fn item_state_spec(style: MenuItemStyle) -> Option<i64> {
    match style {
        MenuItemStyle::Normal => None,
        MenuItemStyle::Checkable { checked, .. } => Some(
            if checked {
                NS_CONTROL_STATE_VALUE_ON
            } else {
                NS_CONTROL_STATE_VALUE_OFF
            },
        ),
    }
}

/// Whether `a` is the native action of the template action `t` of an item
/// labelled `label`.
pub open spec fn native_action_matches(t: MenuItemAction, label: Seq<char>, a: NativeItemAction) -> bool {
    match t {
        MenuItemAction::Fn(h) => a == NativeItemAction::Block(h),
        MenuItemAction::Submenu(_) => a matches NativeItemAction::Submenu { title } && title@ == label,
        MenuItemAction::MacOSSelector(sel) => a matches NativeItemAction::Selector(name) && name@
            == sel.name@,
    }
}

/// Whether `r` is how the native item for the template `t` is set up: a
/// separator for a separator; for a labelled item its label as title,
/// checkable exactly when its style is, the check state of its style, its
/// action (a submenu titled with the label), and its enabled flag.
pub open spec fn native_item_settings_spec(t: MenuItemTemplate, r: NativeItemSettings) -> bool {
    match t {
        MenuItemTemplate::Separator => r is Separator,
        MenuItemTemplate::Label(l) => r matches NativeItemSettings::Label {
            title,
            checkable,
            state,
            action,
            enabled,
        } && title@ == l.label@ && checkable == (l.style is Checkable) && state == item_state_spec(
            l.style,
        ) && native_action_matches(l.action, l.label@, action) && enabled == l.enabled,
    }
}

/// How the native item for a template is set up.
pub fn native_item_settings(t: &MenuItemTemplate) -> (r: NativeItemSettings)
    ensures
        native_item_settings_spec(*t, r),
        *t matches MenuItemTemplate::Label(l) ==> (r matches NativeItemSettings::Label {
            title,
            checkable,
            state,
            enabled,
            ..
        } && title@ == l.label@ && enabled == l.enabled && match l.style {
            MenuItemStyle::Checkable { checked: true, .. } => checkable && state == Some(1i64),
            MenuItemStyle::Checkable { checked: false, .. } => checkable && state == Some(0i64),
            MenuItemStyle::Normal => !checkable && state is None,
        }),
{
    match t {
        MenuItemTemplate::Separator => NativeItemSettings::Separator,
        MenuItemTemplate::Label(l) => {
            let (checkable, state) = match l.style {
                MenuItemStyle::Normal => (false, None),
                MenuItemStyle::Checkable { checked, .. } => (
                    true,
                    Some(
                        if checked {
                            NS_CONTROL_STATE_VALUE_ON
                        } else {
                            NS_CONTROL_STATE_VALUE_OFF
                        },
                    ),
                ),
            };
            let action = match &l.action {
                MenuItemAction::Fn(h) => NativeItemAction::Block(*h),
                MenuItemAction::Submenu(_) => NativeItemAction::Submenu { title: l.label.clone() },
                MenuItemAction::MacOSSelector(sel) => NativeItemAction::Selector(sel.name.clone()),
            };
            NativeItemSettings::Label {
                title: l.label.clone(),
                checkable,
                state,
                action,
                enabled: l.enabled,
            }
        },
    }
}

/// The check state value that `set_checked` gives the native item.
pub fn check_state_value(checked: bool) -> (r: i64)
    ensures
        r == (if checked {
            NS_CONTROL_STATE_VALUE_ON
        } else {
            NS_CONTROL_STATE_VALUE_OFF
        }),
{
    if checked {
        NS_CONTROL_STATE_VALUE_ON
    } else {
        NS_CONTROL_STATE_VALUE_OFF
    }
}

} // verus!

verus! {

/// The labelled item at `path` in `new` is the one in `old` with its enabled
/// flag set to `e`: same label, style and action.
pub open spec fn enabled_reads_back(
    old: Seq<MenuItemTemplate>,
    new: Seq<MenuItemTemplate>,
    path: Seq<u32>,
    e: bool,
) -> bool {
    item_at(old, path) matches Some(MenuItemTemplate::Label(ol)) && item_at(new, path) matches Some(
        MenuItemTemplate::Label(nl),
    ) && nl.enabled == e && nl.label == ol.label && nl.style == ol.style && nl.action == ol.action
}

/// The labelled item at `path` in `new` is the checkable one in `old`, now
/// checked exactly when `c` is true, with the same check style, label,
/// enabled flag and action.
pub open spec fn checked_reads_back(
    old: Seq<MenuItemTemplate>,
    new: Seq<MenuItemTemplate>,
    path: Seq<u32>,
    c: bool,
) -> bool {
    item_at(old, path) matches Some(MenuItemTemplate::Label(ol)) && ol.style matches MenuItemStyle::Checkable {
        style,
        checked: _,
    } && item_at(new, path) matches Some(MenuItemTemplate::Label(nl)) && nl.style
        == MenuItemStyle::Checkable { style, checked: c } && nl.label == ol.label && nl.enabled
        == ol.enabled && nl.action == ol.action
}

/// Enabling or disabling an item sets its enabled flag to exactly the value
/// given, whatever it was, and leaves the rest of the item alone.
pub proof fn lemma_set_enabled_reads_back(
    old: Seq<MenuItemTemplate>,
    new: Seq<MenuItemTemplate>,
    path: Seq<u32>,
    e: bool,
)
    requires
        changed_at(old, new, path, LabelChange::Enabled(e)),
    ensures
        enabled_reads_back(old, new, path, e),
{
    lemma_change_reads_back(old, new, path, LabelChange::Enabled(e));
}

/// Checking or unchecking a checkable item sets its check state to exactly
/// the value given (it does not toggle), keeps its check style, and leaves
/// the rest of the item alone.
pub proof fn lemma_set_checked_reads_back(
    old: Seq<MenuItemTemplate>,
    new: Seq<MenuItemTemplate>,
    path: Seq<u32>,
    c: bool,
)
    requires
        changed_at(old, new, path, LabelChange::Checked(c)),
        item_at(old, path) matches Some(MenuItemTemplate::Label(l)) && l.style is Checkable,
    ensures
        checked_reads_back(old, new, path, c),
{
    lemma_change_reads_back(old, new, path, LabelChange::Checked(c));
}

/// The native check state of a checkable item is on exactly when the item is
/// checked, for either check style; an item that cannot be checked gets no
/// state and is not checkable.
pub proof fn lemma_native_check_state(t: MenuItemTemplate, r: NativeItemSettings)
    requires
        native_item_settings_spec(t, r),
    ensures
        t matches MenuItemTemplate::Label(l) ==> (r matches NativeItemSettings::Label {
            checkable,
            state,
            ..
        } && match l.style {
            MenuItemStyle::Checkable { checked: true, .. } => checkable && state == Some(1i64),
            MenuItemStyle::Checkable { checked: false, .. } => checkable && state == Some(0i64),
            MenuItemStyle::Normal => !checkable && state is None,
        }),
        t is Separator ==> r is Separator,
{
}

} // verus!
