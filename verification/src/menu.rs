//! The tray menu: the charms on offer, the items of the menu, and what a
//! click on a menu item asks the application to do.
use vstd::prelude::*;

verus! {

/// The charms the companion can hang from the top of the screen.
#[derive(Clone, Copy, Debug, PartialEq, Eq, Structural)]
pub enum Charm {
    Nazar,
    Hamsa,
    Clover,
    ManekiNeko,
    Scarab,
    Ganesha,
    Fu,
    NimbuMirchi,
    DrishtiBommai,
    PanchangJie,
}

/// The key by which the frontend knows a charm.
pub open spec fn charm_key(c: Charm) -> Seq<char> {
    match c {
        Charm::Nazar => "nazar"@,
        Charm::Hamsa => "hamsa"@,
        Charm::Clover => "clover"@,
        Charm::ManekiNeko => "maneki-neko"@,
        Charm::Scarab => "scarab"@,
        Charm::Ganesha => "ganesha"@,
        Charm::Fu => "fu"@,
        Charm::NimbuMirchi => "nimbu-mirchi"@,
        Charm::DrishtiBommai => "drishti-bommai"@,
        Charm::PanchangJie => "panchang-jie"@,
    }
}

/// The text shown for a charm in the tray menu.
pub open spec fn charm_label(c: Charm) -> Seq<char> {
    match c {
        Charm::Nazar => "🧿 Nazar Boncuğu"@,
        Charm::Hamsa => "🪬 Hamsa"@,
        Charm::Clover => "🍀 Four-Leaf Clover"@,
        Charm::ManekiNeko => "🐱 Maneki-neko"@,
        Charm::Scarab => "🪲 Scarab"@,
        Charm::Ganesha => "🐘 Ganesha"@,
        Charm::Fu => "福 Fu"@,
        Charm::NimbuMirchi => "🌶️🍋 Nimbu-mirchi"@,
        Charm::DrishtiBommai => "👺 Drishti bommai"@,
        Charm::PanchangJie => "🪢 Pánchángjié"@,
    }
}

/// The prefix that marks a menu item as a charm choice.
pub open spec fn charm_prefix() -> Seq<char> {
    "charm_"@
}

/// The menu item id of a charm: the prefix followed by the charm's key.
pub open spec fn charm_item_id(c: Charm) -> Seq<char> {
    charm_prefix() + charm_key(c)
}

/// The charms in the order in which the menu lists them.
pub open spec fn charm_order() -> Seq<Charm> {
    seq![
        Charm::Nazar,
        Charm::Hamsa,
        Charm::Clover,
        Charm::ManekiNeko,
        Charm::Scarab,
        Charm::Ganesha,
        Charm::Fu,
        Charm::NimbuMirchi,
        Charm::DrishtiBommai,
        Charm::PanchangJie,
    ]
}

impl Charm {
    /// The key by which the frontend knows this charm.
    pub fn key(&self) -> (k: &'static str)
        ensures
            k@ == charm_key(*self),
    {
        match self {
            Charm::Nazar => "nazar",
            Charm::Hamsa => "hamsa",
            Charm::Clover => "clover",
            Charm::ManekiNeko => "maneki-neko",
            Charm::Scarab => "scarab",
            Charm::Ganesha => "ganesha",
            Charm::Fu => "fu",
            Charm::NimbuMirchi => "nimbu-mirchi",
            Charm::DrishtiBommai => "drishti-bommai",
            Charm::PanchangJie => "panchang-jie",
        }
    }

    /// The text shown for this charm in the tray menu.
    pub fn label(&self) -> (l: &'static str)
        ensures
            l@ == charm_label(*self),
    {
        match self {
            Charm::Nazar => "🧿 Nazar Boncuğu",
            Charm::Hamsa => "🪬 Hamsa",
            Charm::Clover => "🍀 Four-Leaf Clover",
            Charm::ManekiNeko => "🐱 Maneki-neko",
            Charm::Scarab => "🪲 Scarab",
            Charm::Ganesha => "🐘 Ganesha",
            Charm::Fu => "福 Fu",
            Charm::NimbuMirchi => "🌶️🍋 Nimbu-mirchi",
            Charm::DrishtiBommai => "👺 Drishti bommai",
            Charm::PanchangJie => "🪢 Pánchángjié",
        }
    }

    /// The id of this charm's menu item.
    pub fn item_id(&self) -> (id: String)
        ensures
            id@ == charm_item_id(*self),
    {
        let mut id = String::from_str("charm_");
        id.append(self.key());
        id
    }
}

/// The charms in menu order.
pub fn charm_catalog() -> (v: Vec<Charm>)
    ensures
        v@ == charm_order(),
{
    let v = vec![
        Charm::Nazar,
        Charm::Hamsa,
        Charm::Clover,
        Charm::ManekiNeko,
        Charm::Scarab,
        Charm::Ganesha,
        Charm::Fu,
        Charm::NimbuMirchi,
        Charm::DrishtiBommai,
        Charm::PanchangJie,
    ];
    assert(v@ == charm_order());
    v
}

/// The items of the tray menu other than the charms.
#[derive(Clone, Copy, Debug, PartialEq, Eq, Structural)]
pub enum TrayItem {
    ShowHide,
    Recenter,
    Autostart,
    Reload,
    Quit,
}

/// The id of a tray item.
pub open spec fn tray_item_id(t: TrayItem) -> Seq<char> {
    match t {
        TrayItem::ShowHide => "toggle"@,
        TrayItem::Recenter => "recenter"@,
        TrayItem::Autostart => "autostart"@,
        TrayItem::Reload => "reload"@,
        TrayItem::Quit => "quit"@,
    }
}

/// The text shown for a tray item.
pub open spec fn tray_item_label(t: TrayItem) -> Seq<char> {
    match t {
        TrayItem::ShowHide => "Show/Hide Charm"@,
        TrayItem::Recenter => "Move to Top Center"@,
        TrayItem::Autostart => "Launch at Login"@,
        TrayItem::Reload => "Reload Charm"@,
        TrayItem::Quit => "Quit"@,
    }
}

impl TrayItem {
    /// The id of this item.
    pub fn id(&self) -> (id: &'static str)
        ensures
            id@ == tray_item_id(*self),
    {
        match self {
            TrayItem::ShowHide => "toggle",
            TrayItem::Recenter => "recenter",
            TrayItem::Autostart => "autostart",
            TrayItem::Reload => "reload",
            TrayItem::Quit => "quit",
        }
    }

    /// The text shown for this item.
    pub fn label(&self) -> (l: &'static str)
        ensures
            l@ == tray_item_label(*self),
    {
        match self {
            TrayItem::ShowHide => "Show/Hide Charm",
            TrayItem::Recenter => "Move to Top Center",
            TrayItem::Autostart => "Launch at Login",
            TrayItem::Reload => "Reload Charm",
            TrayItem::Quit => "Quit",
        }
    }
}

/// One row of the tray menu, top to bottom.
#[derive(Clone, Copy, Debug, PartialEq, Eq, Structural)]
pub enum MenuEntry {
    Item(TrayItem),
    Separator,
    /// The "Charms" submenu, holding the charms in catalog order.
    Charms,
    /// The "Launch at Login" check item.
    AutostartCheck,
}

/// The layout of the tray menu.
pub open spec fn tray_layout_spec() -> Seq<MenuEntry> {
    seq![
        MenuEntry::Item(TrayItem::ShowHide),
        MenuEntry::Item(TrayItem::Recenter),
        MenuEntry::Separator,
        MenuEntry::Charms,
        MenuEntry::AutostartCheck,
        MenuEntry::Item(TrayItem::Reload),
        MenuEntry::Separator,
        MenuEntry::Item(TrayItem::Quit),
    ]
}

/// The rows of the tray menu, top to bottom.
pub fn tray_layout() -> (v: Vec<MenuEntry>)
    ensures
        v@ == tray_layout_spec(),
{
    let v = vec![
        MenuEntry::Item(TrayItem::ShowHide),
        MenuEntry::Item(TrayItem::Recenter),
        MenuEntry::Separator,
        MenuEntry::Charms,
        MenuEntry::AutostartCheck,
        MenuEntry::Item(TrayItem::Reload),
        MenuEntry::Separator,
        MenuEntry::Item(TrayItem::Quit),
    ];
    assert(v@ == tray_layout_spec());
    v
}

/// What a click on a tray menu item asks the application to do.
#[derive(Clone, Debug, PartialEq, Eq)]
pub enum MenuCommand {
    /// Show or hide the charm window.
    ToggleVisibility,
    /// Tell the window to move the charm back to the top centre.
    Recenter,
    /// Flip whether the application launches at login.
    ToggleAutostart,
    /// Tell the frontend to switch to the charm with this key.
    SetCharm(String),
    /// Tell the window to reload the charm.
    ReloadCharm,
    /// Quit the application.
    Quit,
    /// An id that no handler knows; it is reported.
    Unhandled(String),
}

/// Whether `p` is a prefix of `s`.
pub open spec fn has_prefix(s: Seq<char>, p: Seq<char>) -> bool {
    p.len() <= s.len() && s.subrange(0, p.len() as int) == p
}

/// The command for a menu item id, checked in this order: the fixed ids
/// "toggle", "recenter" and "autostart"; then any id with the charm prefix,
/// whose remainder names the charm; then "reload" and "quit"; any other id is
/// unhandled.
pub open spec fn command_matches(id: Seq<char>, c: MenuCommand) -> bool {
    if id == "toggle"@ {
        c == MenuCommand::ToggleVisibility
    } else if id == "recenter"@ {
        c == MenuCommand::Recenter
    } else if id == "autostart"@ {
        c == MenuCommand::ToggleAutostart
    } else if has_prefix(id, charm_prefix()) {
        c matches MenuCommand::SetCharm(k) && k@ == id.subrange(
            charm_prefix().len() as int,
            id.len() as int,
        )
    } else if id == "reload"@ {
        c == MenuCommand::ReloadCharm
    } else if id == "quit"@ {
        c == MenuCommand::Quit
    } else {
        c matches MenuCommand::Unhandled(other) && other@ == id
    }
}

/// Whether two strings hold the same characters.
fn same_text(a: &str, b: &str) -> (r: bool)
    ensures
        r == (a@ == b@),
{
    let n = a.unicode_len();
    let m = b.unicode_len();
    if n != m {
        return false;
    }
    let mut i: usize = 0;
    while i < n
        invariant
            n == a@.len(),
            m == b@.len(),
            n == m,
            i <= n,
            forall|k: int| 0 <= k < i ==> a@[k] == b@[k],
        decreases n - i,
    {
        if a.get_char(i) != b.get_char(i) {
            return false;
        }
        i = i + 1;
    }
    assert(a@ =~= b@);
    true
}

/// Whether `s` starts with `p`.
fn starts_with_text(s: &str, p: &str) -> (r: bool)
    ensures
        r == has_prefix(s@, p@),
{
    let n = s.unicode_len();
    let m = p.unicode_len();
    if m > n {
        return false;
    }
    let mut i: usize = 0;
    while i < m
        invariant
            n == s@.len(),
            m == p@.len(),
            m <= n,
            i <= m,
            forall|k: int| 0 <= k < i ==> s@[k] == p@[k],
        decreases m - i,
    {
        if s.get_char(i) != p.get_char(i) {
            assert(s@.subrange(0, m as int)[i as int] != p@[i as int]);
            return false;
        }
        i = i + 1;
    }
    assert(s@.subrange(0, m as int) =~= p@);
    true
}

/// The command that a click on the menu item with this id asks for.
pub fn menu_command(id: &str) -> (c: MenuCommand)
    ensures
        command_matches(id@, c),
{
    if same_text(id, "toggle") {
        MenuCommand::ToggleVisibility
    } else if same_text(id, "recenter") {
        MenuCommand::Recenter
    } else if same_text(id, "autostart") {
        MenuCommand::ToggleAutostart
    } else if starts_with_text(id, "charm_") {
        let from = "charm_".unicode_len();
        let to = id.unicode_len();
        MenuCommand::SetCharm(String::from_str(id.substring_char(from, to)))
    } else if same_text(id, "reload") {
        MenuCommand::ReloadCharm
    } else if same_text(id, "quit") {
        MenuCommand::Quit
    } else {
        MenuCommand::Unhandled(String::from_str(id))
    }
}

/// The command a tray item is meant to trigger.
pub open spec fn tray_item_command(t: TrayItem) -> MenuCommand {
    match t {
        TrayItem::ShowHide => MenuCommand::ToggleVisibility,
        TrayItem::Recenter => MenuCommand::Recenter,
        TrayItem::Autostart => MenuCommand::ToggleAutostart,
        TrayItem::Reload => MenuCommand::ReloadCharm,
        TrayItem::Quit => MenuCommand::Quit,
    }
}

/// Each fixed tray item, clicked, triggers exactly its own command.
pub proof fn lemma_tray_items_dispatch(t: TrayItem, c: MenuCommand)
    ensures
        command_matches(tray_item_id(t), c) <==> c == tray_item_command(t),
{
    reveal_strlit("toggle");
    reveal_strlit("recenter");
    reveal_strlit("autostart");
    reveal_strlit("reload");
    reveal_strlit("quit");
    reveal_strlit("charm_");
    let id = tray_item_id(t);
    assert(!has_prefix(id, charm_prefix())) by {
        if has_prefix(id, charm_prefix()) {
            assert(id.subrange(0, 6)[0] == id[0]);
        }
    }
    if t != TrayItem::ShowHide {
        assert(id[0] != "toggle"@[0] || id.len() != "toggle"@.len());
    }
    if t != TrayItem::Recenter {
        assert(id[0] != "recenter"@[0] || id.len() != "recenter"@.len());
    }
    if t != TrayItem::Autostart {
        assert(id[0] != "autostart"@[0] || id.len() != "autostart"@.len());
    }
    if t != TrayItem::Reload {
        assert(id[0] != "reload"@[0] || id.len() != "reload"@.len());
    }
}

/// Each charm's menu item, clicked, asks the frontend for exactly that charm.
pub proof fn lemma_charm_items_dispatch(ch: Charm, c: MenuCommand)
    ensures
        command_matches(charm_item_id(ch), c) <==> (c matches MenuCommand::SetCharm(k) && k@
            == charm_key(ch)),
{
    reveal_strlit("toggle");
    reveal_strlit("recenter");
    reveal_strlit("autostart");
    reveal_strlit("charm_");
    let id = charm_item_id(ch);
    assert(id[0] == 'c');
    assert(id.subrange(0, charm_prefix().len() as int) =~= charm_prefix());
    assert(id.subrange(charm_prefix().len() as int, id.len() as int) =~= charm_key(ch));
    assert(id != "toggle"@ && id != "recenter"@ && id != "autostart"@) by {
        assert("toggle"@[0] == 't');
        assert("recenter"@[0] == 'r');
        assert("autostart"@[0] == 'a');
    }
}

/// Any id made of the charm prefix and some text asks for the charm named by
/// that text, whatever the text is.
pub proof fn lemma_prefixed_ids_name_charm(k: Seq<char>, c: MenuCommand)
    ensures
        command_matches(charm_prefix() + k, c) <==> (c matches MenuCommand::SetCharm(n) && n@
            == k),
{
    reveal_strlit("toggle");
    reveal_strlit("recenter");
    reveal_strlit("autostart");
    reveal_strlit("charm_");
    let id = charm_prefix() + k;
    assert(id[0] == 'c');
    assert(id.subrange(0, charm_prefix().len() as int) =~= charm_prefix());
    assert(id.subrange(charm_prefix().len() as int, id.len() as int) =~= k);
    assert(id != "toggle"@ && id != "recenter"@ && id != "autostart"@) by {
        assert("toggle"@[0] == 't');
        assert("recenter"@[0] == 'r');
        assert("autostart"@[0] == 'a');
    }
}

/// An id that is none of the fixed item ids and does not start with the
/// charm prefix is reported as unhandled, carrying the id itself.
pub proof fn lemma_unknown_ids_unhandled(id: Seq<char>, c: MenuCommand)
    requires
        forall|t: TrayItem| id != #[trigger] tray_item_id(t),
        !has_prefix(id, charm_prefix()),
    ensures
        command_matches(id, c) <==> (c matches MenuCommand::Unhandled(o) && o@ == id),
{
    assert(id != tray_item_id(TrayItem::ShowHide));
    assert(id != tray_item_id(TrayItem::Recenter));
    assert(id != tray_item_id(TrayItem::Autostart));
    assert(id != tray_item_id(TrayItem::Reload));
    assert(id != tray_item_id(TrayItem::Quit));
}

/// Different charms have different keys, so each charm item names one charm.
pub proof fn lemma_charm_keys_distinct(a: Charm, b: Charm)
    requires
        a != b,
    ensures
        charm_key(a) != charm_key(b),
        charm_item_id(a) != charm_item_id(b),
{
    reveal_strlit("nazar");
    reveal_strlit("hamsa");
    reveal_strlit("clover");
    reveal_strlit("maneki-neko");
    reveal_strlit("scarab");
    reveal_strlit("ganesha");
    reveal_strlit("fu");
    reveal_strlit("nimbu-mirchi");
    reveal_strlit("drishti-bommai");
    reveal_strlit("panchang-jie");
    let ka = charm_key(a);
    let kb = charm_key(b);
    assert(ka.len() != kb.len() || ka[0] != kb[0]);
    if charm_item_id(a) == charm_item_id(b) {
        assert(charm_item_id(a).subrange(charm_prefix().len() as int, charm_item_id(a).len() as int) =~= ka);
        assert(charm_item_id(b).subrange(charm_prefix().len() as int, charm_item_id(b).len() as int) =~= kb);
    }
}

/// The catalog lists every charm, each exactly once.
pub proof fn lemma_catalog_lists_each_charm_once(c: Charm)
    ensures
        charm_order().contains(c),
        forall|i: int, j: int|
            0 <= i < j < charm_order().len() ==> charm_order()[i] != charm_order()[j],
{
    let s = charm_order();
    let i: int = match c {
        Charm::Nazar => 0,
        Charm::Hamsa => 1,
        Charm::Clover => 2,
        Charm::ManekiNeko => 3,
        Charm::Scarab => 4,
        Charm::Ganesha => 5,
        Charm::Fu => 6,
        Charm::NimbuMirchi => 7,
        Charm::DrishtiBommai => 8,
        Charm::PanchangJie => 9,
    };
    assert(s[i] == c);
}

/// What to do to the launch-at-login setting when its menu item is clicked.
#[derive(Clone, Copy, Debug, PartialEq, Eq, Structural)]
pub enum AutostartAction {
    Disable,
    Enable,
}

/// The launch-at-login decision: turn it off when it is known to be on,
/// otherwise turn it on (an unreadable setting counts as off).
pub open spec fn autostart_decision(enabled: Option<bool>) -> AutostartAction {
    if enabled == Some(true) {
        AutostartAction::Disable
    } else {
        AutostartAction::Enable
    }
}

/// Chooses what to do to the launch-at-login setting.
pub fn autostart_action(enabled: Option<bool>) -> (a: AutostartAction)
    ensures
        a == autostart_decision(enabled),
        a == AutostartAction::Disable <==> enabled == Some(true),
{
    match enabled {
        Some(true) => AutostartAction::Disable,
        _ => AutostartAction::Enable,
    }
}

/// Whether the setting is on once an action has been carried out.
pub open spec fn enabled_after(a: AutostartAction) -> bool {
    match a {
        AutostartAction::Disable => false,
        AutostartAction::Enable => true,
    }
}

/// Clicking the launch-at-login item flips a known setting and turns on an unknown one.
pub proof fn lemma_autostart_flips(enabled: bool)
    ensures
        enabled_after(autostart_decision(Some(enabled))) == !enabled,
        enabled_after(autostart_decision(None)),
{
}

} // verus!
