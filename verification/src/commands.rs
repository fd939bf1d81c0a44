//! The operations that the user interface calls. Each takes what the host
//! read from the store or got from the hub, and says what comes of it; errors
//! reach the caller as one text.

use vstd::prelude::*;
use vstd::string::*;
use crate::entity::{
    law_listed_are_switches, listed, models, stems_from, switch_prefix, BooleanEntity,
    RemoteEntityState,
};
use crate::text::is_prefix;
use crate::menu::{rebuilt, synced, MenuAction, MenuState};
use crate::selection::{
    has_id, occurs_once, restored, with_selected, without, SelectedEntitySet, StoredSelection,
};
use crate::session::{
    answer_of, loaded, status_of, ApiStatus, ApiStatusResponse, Exchange, HomeAssistant,
    RequestError, SettingsError, SettingsModel, StatusModel, StoredSettings,
};

verus! {

/// A session on what the store holds, or the text of the reason why the
/// stored settings could not be loaded.
pub fn load_settings(stored: StoredSettings, client: reqwest::Client) -> (res: Result<
    HomeAssistant,
    String,
>)
    ensures
        match res {
            Ok(session) => loaded(stored) == Ok::<SettingsModel, SettingsError>(session@),
            Err(text) => loaded(stored) matches Err(error) && text@ == error.text(),
        },
{
    match HomeAssistant::load_settings(stored, client) {
        Ok(session) => Ok(session),
        Err(error) => Err(error.message()),
    }
}

/// What happened last in a status check.
#[derive(Debug)]
pub enum CheckEvent {
    /// The store was read for the settings; the client is for the session.
    Loaded(StoredSettings, reqwest::Client),
    /// The host tried to write the settings of this session to the store, and
    /// says whether the write went through.
    Persisted(HomeAssistant, bool),
    /// The exchange of this session with the status endpoint ended.
    Answered(HomeAssistant, Exchange<String>),
}

/// What a status check does next.
#[derive(Debug)]
pub enum CheckStep {
    /// Write the settings of this session to the store.
    Persist(HomeAssistant),
    /// Ask the status endpoint, with the address and token of this session.
    Request(HomeAssistant),
    /// The check is over, with this result.
    Done(Result<ApiStatusResponse, ApiStatusResponse>),
}

/// Mathematical model of a [`CheckStep`].
pub enum StepModel {
    Persist(SettingsModel),
    Request(SettingsModel),
    Done(Result<StatusModel, StatusModel>),
}

impl View for CheckStep {
    type V = StepModel;

    open spec fn view(&self) -> StepModel {
        match self {
            CheckStep::Persist(session) => StepModel::Persist(session@),
            CheckStep::Request(session) => StepModel::Request(session@),
            CheckStep::Done(Ok(response)) => StepModel::Done(Ok(response@)),
            CheckStep::Done(Err(response)) => StepModel::Done(Err(response@)),
        }
    }
}

/// An offline result with the given message.
pub open spec fn offline_with(message: Seq<char>) -> Result<StatusModel, StatusModel> {
    Err(StatusModel { status: ApiStatus::Offline, message })
}

/// The step that follows `event` in a check of the address `app_url` with the
/// token `token`. The check loads the settings, writes the new ones, and asks
/// the hub; the first of these that fails ends it.
pub open spec fn next_step(event: CheckEvent, app_url: Seq<char>, token: Seq<char>) -> StepModel {
    match event {
        CheckEvent::Loaded(stored, _) => match loaded(stored) {
            Ok(_) => StepModel::Persist(SettingsModel { app_url, token }),
            Err(_) => StepModel::Done(offline_with("Unable to load HomeAssistant settings."@)),
        },
        CheckEvent::Persisted(session, true) => StepModel::Request(session@),
        CheckEvent::Persisted(session, false) => StepModel::Done(
            offline_with("Unable to update settings."@),
        ),
        CheckEvent::Answered(session, exchange) => StepModel::Done(status_of(exchange)),
    }
}

/// One step of a status check of the address `app_url` with the token
/// `token`: what to do after `event`.
pub fn check_api_status(event: CheckEvent, app_url: &str, token: &str) -> (res: CheckStep)
    ensures
        res@ == next_step(event, app_url@, token@),
{
    match event {
        CheckEvent::Loaded(stored, client) => match HomeAssistant::load_settings(stored, client) {
            Ok(session) => {
                let mut session = session;
                session.update_settings(app_url, token);
                CheckStep::Persist(session)
            },
            Err(_) => CheckStep::Done(
                Err(ApiStatusResponse::offline("Unable to load HomeAssistant settings.".to_string())),
            ),
        },
        CheckEvent::Persisted(session, saved) => {
            if saved {
                CheckStep::Request(session)
            } else {
                CheckStep::Done(
                    Err(ApiStatusResponse::offline("Unable to update settings.".to_string())),
                )
            }
        },
        CheckEvent::Answered(session, exchange) => CheckStep::Done(session.check_status(exchange)),
    }
}

/// The switch entities in the hub's list of states, or the text of the
/// reason why the exchange gave no list.
pub fn get_switch_entities(session: &HomeAssistant, exchange: Exchange<Vec<RemoteEntityState>>) -> (res:
    Result<Vec<BooleanEntity>, String>)
    ensures
        match res {
            Ok(entities) => answer_of(exchange) matches Ok(states) && models(entities@) == listed(
                states@,
            ),
            Err(text) => answer_of(exchange) matches Err(error) && text@ == error.text(),
        },
        res matches Ok(entities) ==> forall|k: int|
            0 <= k < entities@.len() ==> is_prefix(switch_prefix(), #[trigger] entities@[k]@.id),
        res matches Ok(entities) ==> forall|k: int|
            0 <= k < entities@.len() ==> stems_from(
                answer_of(exchange)->Ok_0@,
                #[trigger] entities@[k]@,
            ),
{
    match session.get_switch_entities(exchange) {
        Ok(entities) => {
            proof {
                let states = answer_of(exchange)->Ok_0@;
                law_listed_are_switches(states);
                assert forall|k: int| 0 <= k < entities@.len() implies is_prefix(
                    switch_prefix(),
                    #[trigger] entities@[k]@.id,
                ) by {
                    assert(listed(states)[k] == entities@[k]@);
                }
                assert forall|k: int| 0 <= k < entities@.len() implies stems_from(
                    states,
                    #[trigger] entities@[k]@,
                ) by {
                    assert(listed(states)[k] == entities@[k]@);
                }
            }
            Ok(entities)
        },
        Err(error) => Err(error.message()),
    }
}

/// The selection after `entity` was selected (`save`) or deselected in what
/// the store holds. The result is what the host writes back. The menu is
/// brought in line with it.
pub fn save_entity_to_store(
    stored: StoredSelection,
    entity: BooleanEntity,
    save: bool,
    menu: &mut MenuState,
) -> (res: (SelectedEntitySet, MenuAction))
    ensures
        res.0.wf(),
        res.0@ == if save {
            with_selected(restored(stored), entity@)
        } else {
            without(restored(stored), entity@.id)
        },
        save ==> occurs_once(res.0@, entity@),
        !save ==> !has_id(res.0@, entity@.id),
        !save && !has_id(restored(stored), entity@.id) ==> res.0@ == restored(stored),
        final(menu).model() == synced(old(menu).model(), res.0@),
        res.1 == if old(menu).model().is_some() {
            MenuAction::Replace
        } else {
            MenuAction::Create
        },
{
    let mut selection = SelectedEntitySet::restore(stored);
    selection.set_selected(entity, save);
    let action = menu.sync(&selection);
    (selection, action)
}

/// The selected entities that the store holds.
pub fn load_entities_from_store(stored: StoredSelection) -> (res: Vec<BooleanEntity>)
    ensures
        models(res@) == restored(stored),
{
    SelectedEntitySet::restore(stored).list()
}

/// Brings the menu in line with the selection that the store holds; a menu
/// is built where none exists.
pub fn build_tray_menu(stored: StoredSelection, menu: &mut MenuState) -> (action: MenuAction)
    ensures
        final(menu).model() == synced(old(menu).model(), restored(stored)),
        action == if old(menu).model().is_some() {
            MenuAction::Replace
        } else {
            MenuAction::Create
        },
{
    let selection = SelectedEntitySet::restore(stored);
    menu.sync(&selection)
}

/// Renews the menu from the selection that the store holds where a menu
/// exists, and says whether it did.
pub fn rebuild_tray_menu(stored: StoredSelection, menu: &mut MenuState) -> (applied: bool)
    ensures
        final(menu).model() == rebuilt(old(menu).model(), restored(stored)),
        applied == old(menu).model().is_some(),
{
    let selection = SelectedEntitySet::restore(stored);
    menu.rebuild(&selection)
}

} // verus!
