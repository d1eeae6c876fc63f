use vstd::prelude::*;

use crate::clock::Instant;
use crate::menu::{build_menu, menu_model, Action, EntryModel, Menu, MenuModel};

verus! {

/// The text on the status item's button: a goose.
pub open spec fn status_title() -> Seq<char> {
    "\u{1FABF}"@
}

/// The line printed when a goose is ordered.
pub open spec fn order_line() -> Seq<char> {
    "A goose is en route to your location!"@
}

/// The line printed when a goose is cancelled.
pub open spec fn cancel_line() -> Seq<char> {
    "Cancelling your goose :("@
}

/// The status item in the system status bar: its button's title and its menu.
#[derive(Debug)]
pub struct StatusItem {
    pub title: String,
    pub menu: Menu,
}

/// The mathematical value of a [`StatusItem`].
pub struct StatusItemModel {
    pub title: Seq<char>,
    pub menu: MenuModel,
}

impl View for StatusItem {
    type V = StatusItemModel;

    open spec fn view(&self) -> StatusItemModel {
        StatusItemModel { title: self.title@, menu: self.menu@ }
    }
}

/// What the host toolkit is asked to do, in the order given.
#[derive(Debug)]
pub enum Command {
    /// Put a square status item in the system status bar, with `title` on
    /// its button and `menu` attached; when the menu has a clock row, the
    /// controller becomes the menu's delegate.
    ShowStatusItem { title: String, menu: Menu },
    /// Run as an accessory: no dock icon and no menu bar of its own.
    BecomeAccessory,
    /// Activate the application.
    Activate,
    /// Set the title of the menu entry at `index`.
    SetEntryTitle { index: usize, title: String },
    /// Write `line` and a line break to standard output.
    PrintLine { line: String },
    /// End the process.
    Terminate,
}

/// The mathematical value of a [`Command`].
pub enum CommandModel {
    ShowStatusItem { title: Seq<char>, menu: MenuModel },
    BecomeAccessory,
    Activate,
    SetEntryTitle { index: int, title: Seq<char> },
    PrintLine { line: Seq<char> },
    Terminate,
}

impl View for Command {
    type V = CommandModel;

    open spec fn view(&self) -> CommandModel {
        match self {
            Command::ShowStatusItem { title, menu } => CommandModel::ShowStatusItem {
                title: title@,
                menu: menu@,
            },
            Command::BecomeAccessory => CommandModel::BecomeAccessory,
            Command::Activate => CommandModel::Activate,
            Command::SetEntryTitle { index, title } => CommandModel::SetEntryTitle {
                index: *index as int,
                title: title@,
            },
            Command::PrintLine { line } => CommandModel::PrintLine { line: line@ },
            Command::Terminate => CommandModel::Terminate,
        }
    }
}

pub open spec fn commands_view(cs: Seq<Command>) -> Seq<CommandModel> {
    cs.map_values(|c: Command| c@)
}

/// Why a hook could not do its work.
#[derive(Debug, Clone, Copy, PartialEq, Eq, Structural)]
pub enum HookError {
    /// The status item was already set by an earlier launch.
    AlreadyLaunched,
    /// The menu opened before the launch hook ran.
    NotLaunched,
    /// The menu opened, but it has no clock row.
    NoClockRow,
    /// The system clock is set outside the supported range of instants.
    ClockOutOfRange,
}

/// The application's controller. It holds the status item, which the
/// launch hook sets once and for all.
#[derive(Debug)]
pub struct Delegate {
    clock_row_enabled: bool,
    status_item: Option<StatusItem>,
}

/// The mathematical value of a [`Delegate`].
pub struct DelegateModel {
    pub clock_row_enabled: bool,
    pub status_item: Option<StatusItemModel>,
}

/// Whether `m` is the menu built at launch but for the clock row's title.
pub open spec fn menu_shape(m: MenuModel, clock_row_enabled: bool) -> bool {
    let built = menu_model(clock_row_enabled);
    &&& m.clock_row == built.clock_row
    &&& m.entries.len() == built.entries.len()
    &&& forall|i: int|
        #![trigger m.entries[i]]
        0 <= i < m.entries.len() ==> {
            &&& m.entries[i].action == built.entries[i].action
            &&& m.entries[i].key_equivalent == built.entries[i].key_equivalent
            &&& m.clock_row != Some(i) ==> m.entries[i].title == built.entries[i].title
        }
}

impl DelegateModel {
    /// Once launched, the status item shows the goose and the menu built at
    /// launch, whose clock row alone may have been retitled since.
    pub open spec fn wf(self) -> bool {
        self.status_item matches Some(item) ==> {
            &&& item.title == status_title()
            &&& menu_shape(item.menu, self.clock_row_enabled)
        }
    }
}

/// The status item as the launch hook builds it.
pub open spec fn launched_item(clock_row_enabled: bool) -> StatusItemModel {
    StatusItemModel { title: status_title(), menu: menu_model(clock_row_enabled) }
}

/// The commands of the launch hook.
pub open spec fn launch_commands(clock_row_enabled: bool) -> Seq<CommandModel> {
    seq![
        CommandModel::ShowStatusItem { title: status_title(), menu: menu_model(clock_row_enabled) },
        CommandModel::BecomeAccessory,
        CommandModel::Activate,
    ]
}

/// The launch hook: the status item is set once; a second launch fails.
pub open spec fn on_launch(d: DelegateModel) -> Result<(DelegateModel, Seq<CommandModel>), HookError> {
    if d.status_item is Some {
        Err(HookError::AlreadyLaunched)
    } else {
        Ok(
            (
                DelegateModel { status_item: Some(launched_item(d.clock_row_enabled)), ..d },
                launch_commands(d.clock_row_enabled),
            ),
        )
    }
}

/// `m` with the title of entry `i` replaced by `title`.
pub open spec fn with_entry_title(m: MenuModel, i: int, title: Seq<char>) -> MenuModel {
    MenuModel { entries: m.entries.update(i, EntryModel { title, ..m.entries[i] }), ..m }
}

/// The menu-open hook, once the time has been turned into `text`: the clock
/// row is retitled to `text`.
pub open spec fn on_clock_text(d: DelegateModel, text: Seq<char>) -> Result<
    (DelegateModel, Seq<CommandModel>),
    HookError,
> {
    match d.status_item {
        None => Err(HookError::NotLaunched),
        Some(item) => match item.menu.clock_row {
            None => Err(HookError::NoClockRow),
            Some(i) => Ok(
                (
                    DelegateModel {
                        status_item: Some(
                            StatusItemModel { menu: with_entry_title(item.menu, i, text), ..item },
                        ),
                        ..d
                    },
                    seq![CommandModel::SetEntryTitle { index: i, title: text }],
                ),
            ),
        },
    }
}

/// The command that selecting an entry with `action` gives.
pub open spec fn action_command(action: Action) -> CommandModel {
    match action {
        Action::OrderGoose => CommandModel::PrintLine { line: order_line() },
        Action::CancelGoose => CommandModel::PrintLine { line: cancel_line() },
        Action::Terminate => CommandModel::Terminate,
    }
}

/// Whether a hook that went from `before` to `after` and returned `r` took
/// `step`: on success the new state and the commands are those of the step;
/// on failure the error is the step's and the state is unchanged.
pub open spec fn took_step(
    before: DelegateModel,
    after: DelegateModel,
    r: Result<Vec<Command>, HookError>,
    step: Result<(DelegateModel, Seq<CommandModel>), HookError>,
) -> bool {
    match step {
        Ok((d, cs)) => r is Ok && after == d && commands_view(r->Ok_0@) == cs,
        Err(e) => r == Err::<Vec<Command>, HookError>(e) && after == before,
    }
}

impl View for Delegate {
    type V = DelegateModel;

    closed spec fn view(&self) -> DelegateModel {
        DelegateModel {
            clock_row_enabled: self.clock_row_enabled,
            status_item: match self.status_item {
                Some(item) => Some(item@),
                None => None,
            },
        }
    }
}

impl Delegate {
    pub open spec fn wf(&self) -> bool {
        self@.wf()
    }

    /// A controller that has not launched yet; `enable_clock_row` asks for a
    /// menu whose first row shows the time each time the menu opens.
    pub fn new(enable_clock_row: bool) -> (d: Delegate)
        ensures
            d@ == (DelegateModel { clock_row_enabled: enable_clock_row, status_item: None }),
            d.wf(),
    {
        Delegate { clock_row_enabled: enable_clock_row, status_item: None }
    }

    /// Whether the launch hook has run.
    pub fn is_launched(&self) -> (r: bool)
        ensures
            r == self@.status_item is Some,
    {
        self.status_item.is_some()
    }

    /// The status item, once launched.
    pub fn status_item(&self) -> (r: Option<&StatusItem>)
        ensures
            r is Some == self@.status_item is Some,
            r matches Some(item) ==> item@ == self@.status_item->0,
    {
        match &self.status_item {
            Some(item) => Some(item),
            None => None,
        }
    }

    /// The launch hook: sets the status item and asks for it to be shown,
    /// then for the application to run as an accessory and be activated.
    pub fn did_finish_launching(&mut self) -> (r: Result<Vec<Command>, HookError>)
        requires
            old(self).wf(),
        ensures
            final(self).wf(),
            took_step(old(self)@, final(self)@, r, on_launch(old(self)@)),
    {
        if self.status_item.is_some() {
            return Err(HookError::AlreadyLaunched);
        }
        let item = StatusItem {
            title: String::from_str("\u{1FABF}"),
            menu: build_menu(self.clock_row_enabled),
        };
        self.status_item = Some(item);
        let mut cmds: Vec<Command> = Vec::new();
        cmds.push(
            Command::ShowStatusItem {
                title: String::from_str("\u{1FABF}"),
                menu: build_menu(self.clock_row_enabled),
            },
        );
        cmds.push(Command::BecomeAccessory);
        cmds.push(Command::Activate);
        assert(commands_view(cmds@) =~= launch_commands(self.clock_row_enabled));
        Ok(cmds)
    }

    /// Retitles the clock row to `text`.
    pub fn set_clock_row_title(&mut self, text: String) -> (r: Result<Vec<Command>, HookError>)
        requires
            old(self).wf(),
        ensures
            final(self).wf(),
            took_step(old(self)@, final(self)@, r, on_clock_text(old(self)@, text@)),
    {
        match &mut self.status_item {
            None => Err(HookError::NotLaunched),
            Some(item) => match item.menu.clock_row {
                None => Err(HookError::NoClockRow),
                Some(i) => {
                    let ghost before = item.menu@;
                    item.menu.entries[i].title = text.clone();
                    assert(item.menu@.entries =~= with_entry_title(before, i as int, text@).entries);
                    let mut cmds: Vec<Command> = Vec::new();
                    cmds.push(Command::SetEntryTitle { index: i, title: text });
                    assert(commands_view(cmds@) =~= seq![
                        CommandModel::SetEntryTitle { index: i as int, title: text@ },
                    ]);
                    Ok(cmds)
                },
            },
        }
    }

    /// The menu-open hook at the instant `now`: the clock row shows `now`.
    pub fn menu_will_open_at(&mut self, now: Instant) -> (r: Result<Vec<Command>, HookError>)
        requires
            old(self).wf(),
        ensures
            final(self).wf(),
            took_step(old(self)@, final(self)@, r, on_clock_text(old(self)@, now.text())),
    {
        let text = now.to_text();
        self.set_clock_row_title(text)
    }

    /// The menu-open hook: the clock row shows the current time. When the
    /// system clock lies outside the supported range, nothing changes.
    pub fn menu_will_open(&mut self) -> (r: Result<Vec<Command>, HookError>)
        requires
            old(self).wf(),
        ensures
            final(self).wf(),
            r == Err::<Vec<Command>, HookError>(HookError::ClockOutOfRange) && final(self)@ == old(self)@
                || exists|now: Instant|
                took_step(old(self)@, final(self)@, r, on_clock_text(old(self)@, #[trigger] now.text())),
    {
        match Instant::now() {
            Some(now) => self.menu_will_open_at(now),
            None => Err(HookError::ClockOutOfRange),
        }
    }

    /// The handler of a menu entry's action.
    pub fn on_action(&self, action: Action) -> (r: Command)
        ensures
            r@ == action_command(action),
    {
        match action {
            Action::OrderGoose => Command::PrintLine {
                line: String::from_str("A goose is en route to your location!"),
            },
            Action::CancelGoose => Command::PrintLine {
                line: String::from_str("Cancelling your goose :("),
            },
            Action::Terminate => Command::Terminate,
        }
    }
}

/// The title of the first menu entry of a launched controller.
pub open spec fn first_entry_title(d: DelegateModel) -> Seq<char> {
    d.status_item->0.menu.entries[0].title
}

/// A launch of a controller that has not launched leaves exactly one status
/// item, the one built at launch; a second launch fails and changes nothing.
pub proof fn lemma_status_item_set_once(d: DelegateModel)
    requires
        d.wf(),
        d.status_item is None,
    ensures
        on_launch(d) matches Ok((after, _)) && {
            &&& after.status_item == Some(launched_item(d.clock_row_enabled))
            &&& after.wf()
            &&& on_launch(after) == Err::<(DelegateModel, Seq<CommandModel>), HookError>(
                HookError::AlreadyLaunched,
            )
        },
{
    let built = menu_model(d.clock_row_enabled);
    assert(menu_shape(built, d.clock_row_enabled));
}

/// With the clock row enabled, opening the menu twice retitles the first
/// entry both times: first to the text of the first instant, then to that
/// of the second, whatever it showed before; the other entries keep their
/// titles.
pub proof fn lemma_clock_row_fresh_each_open(d: DelegateModel, first: Instant, second: Instant)
    requires
        d.wf(),
        d.clock_row_enabled,
        d.status_item is Some,
    ensures
        on_clock_text(d, first.text()) matches Ok((d1, c1)) && {
            &&& d1.wf()
            &&& first_entry_title(d1) == first.text()
            &&& c1 == seq![CommandModel::SetEntryTitle { index: 0, title: first.text() }]
            &&& on_clock_text(d1, second.text()) matches Ok((d2, c2)) && {
                &&& d2.wf()
                &&& first_entry_title(d2) == second.text()
                &&& c2 == seq![CommandModel::SetEntryTitle { index: 0, title: second.text() }]
                &&& forall|i: int|
                    1 <= i < d.status_item->0.menu.entries.len() ==> #[trigger] d2.status_item->0.menu.entries[i]
                        == d.status_item->0.menu.entries[i]
            }
        },
{
}

} // verus!
