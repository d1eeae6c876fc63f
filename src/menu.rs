use vstd::prelude::*;

verus! {

/// What selecting a menu entry does.
#[derive(Debug, Clone, Copy, PartialEq, Eq, Structural)]
pub enum Action {
    /// Sends a goose.
    OrderGoose,
    /// Cancels the goose.
    CancelGoose,
    /// The toolkit's standard terminate action.
    Terminate,
}

/// One row of the status item's menu.
#[derive(Debug)]
pub struct MenuEntry {
    pub title: String,
    pub action: Option<Action>,
    /// The keyboard equivalent; empty when the entry has none.
    pub key_equivalent: String,
}

/// The mathematical value of a [`MenuEntry`].
pub struct EntryModel {
    pub title: Seq<char>,
    pub action: Option<Action>,
    pub key_equivalent: Seq<char>,
}

impl View for MenuEntry {
    type V = EntryModel;

    open spec fn view(&self) -> EntryModel {
        EntryModel { title: self.title@, action: self.action, key_equivalent: self.key_equivalent@ }
    }
}

/// The dropdown menu of the status item, with a handle on the row whose
/// title is refreshed each time the menu opens, if there is one.
#[derive(Debug)]
pub struct Menu {
    pub entries: Vec<MenuEntry>,
    pub clock_row: Option<usize>,
}

/// The mathematical value of a [`Menu`].
pub struct MenuModel {
    pub entries: Seq<EntryModel>,
    pub clock_row: Option<int>,
}

impl View for Menu {
    type V = MenuModel;

    open spec fn view(&self) -> MenuModel {
        MenuModel {
            entries: self.entries@.map_values(|e: MenuEntry| e@),
            clock_row: match self.clock_row {
                Some(i) => Some(i as int),
                None => None,
            },
        }
    }
}

pub open spec fn entry_model(title: Seq<char>, action: Option<Action>, key: Seq<char>) -> EntryModel {
    EntryModel { title, action, key_equivalent: key }
}

/// The three entries that every menu has, in order.
pub open spec fn action_entries() -> Seq<EntryModel> {
    seq![
        entry_model("Send a Goose"@, Some(Action::OrderGoose), ""@),
        entry_model("Cancel Goose"@, Some(Action::CancelGoose), ""@),
        entry_model("Quit"@, Some(Action::Terminate), "q"@),
    ]
}

/// The menu as built at launch: with the clock row enabled, a status row
/// with no action comes first and is the clock row.
pub open spec fn menu_model(clock_row: bool) -> MenuModel {
    if clock_row {
        MenuModel {
            entries: seq![entry_model("Status"@, None, ""@)] + action_entries(),
            clock_row: Some(0),
        }
    } else {
        MenuModel { entries: action_entries(), clock_row: None }
    }
}

fn new_entry(title: &str, action: Option<Action>, key: &str) -> (r: MenuEntry)
    ensures
        r@ == entry_model(title@, action, key@),
{
    MenuEntry { title: String::from_str(title), action, key_equivalent: String::from_str(key) }
}

/// Builds the menu shown when the status item is clicked.
pub fn build_menu(enable_clock_row: bool) -> (m: Menu)
    ensures
        m@ == menu_model(enable_clock_row),
{
    let mut entries: Vec<MenuEntry> = Vec::new();
    let mut clock_row: Option<usize> = None;
    if enable_clock_row {
        entries.push(new_entry("Status", None, ""));
        clock_row = Some(0);
    }
    entries.push(new_entry("Send a Goose", Some(Action::OrderGoose), ""));
    entries.push(new_entry("Cancel Goose", Some(Action::CancelGoose), ""));
    entries.push(new_entry("Quit", Some(Action::Terminate), "q"));
    let m = Menu { entries, clock_row };
    assert(m@.entries =~= menu_model(enable_clock_row).entries);
    m
}

} // verus!
