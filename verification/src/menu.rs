//! The tray menu: a projection of the selected entities between two fixed
//! control entries, rebuilt as a whole whenever the selection changes.

use vstd::prelude::*;
use vstd::string::*;
use crate::entity::{models, switch_prefix, BooleanEntity, EntityModel};
use crate::selection::{distinct_ids, SelectedEntitySet};
use crate::text::{is_prefix, same_text};

verus! {

/// One entry of the menu.
#[derive(Debug, PartialEq, Eq)]
pub struct MenuEntry {
    pub id: String,
    pub label: String,
}

/// Mathematical model of a [`MenuEntry`].
pub struct EntryModel {
    pub id: Seq<char>,
    pub label: Seq<char>,
}

impl View for MenuEntry {
    type V = EntryModel;

    open spec fn view(&self) -> EntryModel {
        EntryModel { id: self.id@, label: self.label@ }
    }
}

/// The models of a sequence of menu entries.
pub open spec fn entry_models(entries: Seq<MenuEntry>) -> Seq<EntryModel> {
    entries.map_values(|e: MenuEntry| e@)
}

/// The identifier of the entry that opens the settings.
pub open spec fn settings_id() -> Seq<char> {
    "settings"@
}

/// The identifier of the entry that quits.
pub open spec fn quit_id() -> Seq<char> {
    "quit"@
}

/// The leading entry of every menu.
pub open spec fn settings_entry() -> EntryModel {
    EntryModel { id: settings_id(), label: "Settings"@ }
}

/// The trailing entry of every menu.
pub open spec fn quit_entry() -> EntryModel {
    EntryModel { id: quit_id(), label: "Quit"@ }
}

/// The entry that stands for a selected entity.
pub open spec fn entity_entry(entity: EntityModel) -> EntryModel {
    EntryModel { id: entity.id, label: entity.friendly_name }
}

/// The menu for a selection: the settings entry, one entry for each selected
/// entity in the order of the selection, the quit entry.
pub open spec fn menu_of(selection: Seq<EntityModel>) -> Seq<EntryModel> {
    seq![settings_entry()] + selection.map_values(|e: EntityModel| entity_entry(e)) + seq![
        quit_entry(),
    ]
}

/// The menu after a synchronisation: built, whatever was there.
pub open spec fn synced(menu: Option<Seq<EntryModel>>, selection: Seq<EntityModel>) -> Option<
    Seq<EntryModel>,
> {
    Some(menu_of(selection))
}

/// The menu after a rebuild: renewed where one was there, else still absent.
pub open spec fn rebuilt(menu: Option<Seq<EntryModel>>, selection: Seq<EntityModel>) -> Option<
    Seq<EntryModel>,
> {
    if menu.is_some() {
        Some(menu_of(selection))
    } else {
        None
    }
}

/// The shape of a menu: two entries more than the selection, the settings
/// entry first, the quit entry last, the selected entities between them.
pub proof fn law_menu_shape(selection: Seq<EntityModel>)
    ensures
        menu_of(selection).len() == selection.len() + 2,
        menu_of(selection).first() == settings_entry(),
        menu_of(selection).last() == quit_entry(),
        forall|i: int|
            0 <= i < selection.len() ==> #[trigger] menu_of(selection)[i + 1] == entity_entry(
                selection[i],
            ),
{
}

/// Synchronising twice on the same selection gives the same menu as
/// synchronising once; the same holds of a rebuild, and of a rebuild after a
/// synchronisation.
pub proof fn law_sync_idempotent(menu: Option<Seq<EntryModel>>, selection: Seq<EntityModel>)
    ensures
        synced(synced(menu, selection), selection) == synced(menu, selection),
        rebuilt(rebuilt(menu, selection), selection) == rebuilt(menu, selection),
        rebuilt(synced(menu, selection), selection) == synced(menu, selection),
{
}

/// An identifier with the switch prefix is neither of the two reserved
/// identifiers.
pub proof fn law_reserved_ids(id: Seq<char>)
    requires
        is_prefix(switch_prefix(), id),
    ensures
        id != settings_id(),
        id != quit_id(),
{
    reveal_strlit("switch.");
    reveal_strlit("settings");
    reveal_strlit("quit");
    assert(id.subrange(0, 7)[1] == 'w');
    assert(id[1] == 'w');
}

/// Every entity of `selection` has an identifier with the switch prefix.
pub open spec fn all_switches(selection: Seq<EntityModel>) -> bool {
    forall|i: int|
        0 <= i < selection.len() ==> is_prefix(switch_prefix(), (#[trigger] selection[i]).id)
}

/// The menu for a selection of switches holds no identifier twice: the
/// entities differ among themselves, and none has a reserved identifier.
pub proof fn law_menu_ids_distinct(selection: Seq<EntityModel>)
    requires
        distinct_ids(selection),
        all_switches(selection),
    ensures
        forall|i: int, j: int|
            0 <= i < j < menu_of(selection).len() ==> (#[trigger] menu_of(selection)[i]).id != (
            #[trigger] menu_of(selection)[j]).id,
{
    let menu = menu_of(selection);
    law_menu_shape(selection);
    reveal_strlit("settings");
    reveal_strlit("quit");
    assert(settings_id().len() == 8);
    assert(quit_id().len() == 4);
    assert forall|i: int, j: int| 0 <= i < j < menu.len() implies (#[trigger] menu[i]).id != (
    #[trigger] menu[j]).id by {
        if 1 <= i {
            assert(menu[i] == entity_entry(selection[i - 1]));
            law_reserved_ids(selection[i - 1].id);
        }
        if j <= selection.len() {
            assert(menu[j] == entity_entry(selection[j - 1]));
            law_reserved_ids(selection[j - 1].id);
        }
        if 1 <= i && j <= selection.len() {
            assert(selection[i - 1].id != selection[j - 1].id);
        }
    }
}

/// The menu for `entities`.
pub fn build_menu(entities: &Vec<BooleanEntity>) -> (res: Vec<MenuEntry>)
    ensures
        entry_models(res@) == menu_of(models(entities@)),
{
    let mut menu: Vec<MenuEntry> = Vec::new();
    menu.push(MenuEntry { id: "settings".to_string(), label: "Settings".to_string() });
    let mut i: usize = 0;
    assert(entry_models(menu@) =~= seq![settings_entry()] + models(entities@).take(0).map_values(
        |e: EntityModel| entity_entry(e),
    ));
    while i < entities.len()
        invariant
            i <= entities.len(),
            entry_models(menu@) == seq![settings_entry()] + models(entities@).take(
                i as int,
            ).map_values(|e: EntityModel| entity_entry(e)),
        decreases entities.len() - i,
    {
        let entry = MenuEntry {
            id: entities[i].id.clone(),
            label: entities[i].friendly_name.clone(),
        };
        let ghost before = menu@;
        menu.push(entry);
        proof {
            assert(entry@ == entity_entry(entities@[i as int]@));
            assert(entry_models(menu@) =~= entry_models(before).push(entry@));
            assert(models(entities@).take(i + 1).map_values(|e: EntityModel| entity_entry(e))
                =~= models(entities@).take(i as int).map_values(
                |e: EntityModel| entity_entry(e),
            ).push(entry@));
            assert(entry_models(menu@) =~= seq![settings_entry()] + models(entities@).take(
                i + 1,
            ).map_values(|e: EntityModel| entity_entry(e)));
        }
        i += 1;
    }
    let ghost before = menu@;
    menu.push(MenuEntry { id: "quit".to_string(), label: "Quit".to_string() });
    proof {
        assert(models(entities@).take(entities@.len() as int) =~= models(entities@));
        assert(entry_models(menu@) =~= entry_models(before).push(quit_entry()));
        assert(entry_models(menu@) =~= menu_of(models(entities@)));
    }
    menu
}

/// The live menu of the tray: not there yet, or built with its entries.
#[derive(Debug, PartialEq, Eq)]
pub enum MenuState {
    Absent,
    Built(Vec<MenuEntry>),
}

/// What the host has to do with the tray after a synchronisation.
#[derive(Debug, PartialEq, Eq, Clone, Copy)]
pub enum MenuAction {
    /// Create the tray with the menu and attach the event handler.
    Create,
    /// Put the menu on the tray that exists.
    Replace,
}

impl MenuState {
    /// The entries of the live menu, `None` where there is none.
    pub open spec fn model(&self) -> Option<Seq<EntryModel>> {
        match self {
            MenuState::Absent => None,
            MenuState::Built(entries) => Some(entry_models(entries@)),
        }
    }

    /// Brings the menu in line with `selection`. A menu that exists is
    /// renewed in place; where none exists, one is built.
    pub fn sync(&mut self, selection: &SelectedEntitySet) -> (action: MenuAction)
        ensures
            final(self).model() == synced(old(self).model(), selection@),
            action == if old(self).model().is_some() {
                MenuAction::Replace
            } else {
                MenuAction::Create
            },
    {
        let action = match self {
            MenuState::Absent => MenuAction::Create,
            MenuState::Built(_) => MenuAction::Replace,
        };
        let entities = selection.list();
        *self = MenuState::Built(build_menu(&entities));
        action
    }

    /// Renews the menu from `selection` where one exists, and says whether it
    /// did; where none exists, none is built.
    pub fn rebuild(&mut self, selection: &SelectedEntitySet) -> (applied: bool)
        ensures
            final(self).model() == rebuilt(old(self).model(), selection@),
            applied == old(self).model().is_some(),
    {
        match self {
            MenuState::Absent => false,
            MenuState::Built(_) => {
                let entities = selection.list();
                *self = MenuState::Built(build_menu(&entities));
                true
            },
        }
    }

    /// The entries of the live menu, empty where there is none.
    pub fn entries(&self) -> (res: Vec<MenuEntry>)
        ensures
            entry_models(res@) == match self.model() {
                Some(entries) => entries,
                None => Seq::empty(),
            },
    {
        let mut out: Vec<MenuEntry> = Vec::new();
        match self {
            MenuState::Absent => {
                assert(entry_models(out@) =~= Seq::<EntryModel>::empty());
            },
            MenuState::Built(entries) => {
                let mut i: usize = 0;
                while i < entries.len()
                    invariant
                        i <= entries.len(),
                        entry_models(out@) =~= entry_models(entries@).take(i as int),
                    decreases entries.len() - i,
                {
                    let ghost before = out@;
                    let entry = MenuEntry {
                        id: entries[i].id.clone(),
                        label: entries[i].label.clone(),
                    };
                    out.push(entry);
                    proof {
                        assert(entry_models(out@) =~= entry_models(before).push(entry@));
                        assert(entry_models(entries@).take(i + 1) =~= entry_models(entries@).take(
                            i as int,
                        ).push(entries@[i as int]@));
                    }
                    i += 1;
                }
                assert(entry_models(entries@).take(entries@.len() as int) =~= entry_models(
                    entries@,
                ));
            },
        }
        out
    }
}

/// What a click on a menu entry asks for.
#[derive(Debug, PartialEq, Eq)]
pub enum MenuEvent {
    /// Show the settings window.
    OpenSettings,
    /// Leave the program.
    Quit,
    /// Toggle the entity with this identifier.
    Toggle(String),
}

/// What a click on the entry with the identifier `id` asks for: the two
/// reserved identifiers stand for the control entries, any other for the
/// entity of that name.
pub fn menu_event(id: &str) -> (res: MenuEvent)
    ensures
        match res {
            MenuEvent::OpenSettings => id@ == settings_id(),
            MenuEvent::Quit => id@ == quit_id() && id@ != settings_id(),
            MenuEvent::Toggle(entity) => entity@ == id@ && id@ != settings_id() && id@
                != quit_id(),
        },
{
    if same_text(id, "settings") {
        MenuEvent::OpenSettings
    } else if same_text(id, "quit") {
        MenuEvent::Quit
    } else {
        MenuEvent::Toggle(id.to_string())
    }
}

} // verus!
