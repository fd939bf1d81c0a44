//! The session with the hub: connection settings, the addresses of its three
//! endpoints, and what each exchange with the hub comes to.

use vstd::prelude::*;
use vstd::string::*;
use crate::entity::{listed, models, switch_entities, BooleanEntity, RemoteEntityState};
use crate::request::{build_get, build_post, get_request_builds, post_request_builds};

verus! {

/// Whether the hub answered.
#[derive(Debug, Clone, Copy, PartialEq, Eq, Structural)]
pub enum ApiStatus {
    Online,
    Offline,
}

/// The result of a status check.
#[derive(Debug)]
pub struct ApiStatusResponse {
    status: ApiStatus,
    message: String,
}

/// Mathematical model of an [`ApiStatusResponse`].
pub struct StatusModel {
    pub status: ApiStatus,
    pub message: Seq<char>,
}

impl View for ApiStatusResponse {
    type V = StatusModel;

    closed spec fn view(&self) -> StatusModel {
        StatusModel { status: self.status, message: self.message@ }
    }
}

impl ApiStatusResponse {
    /// An offline result with the given message.
    pub fn offline(message: String) -> (res: Self)
        ensures
            res@ == (StatusModel { status: ApiStatus::Offline, message: message@ }),
    {
        Self { status: ApiStatus::Offline, message }
    }

    /// An online result with the given message.
    pub fn online(message: String) -> (res: Self)
        ensures
            res@ == (StatusModel { status: ApiStatus::Online, message: message@ }),
    {
        Self { status: ApiStatus::Online, message }
    }

    /// The status.
    pub fn status(&self) -> (res: ApiStatus)
        ensures
            res == self@.status,
    {
        self.status
    }

    /// The message.
    pub fn message(&self) -> (res: &str)
        ensures
            res@ == self@.message,
    {
        self.message.as_str()
    }
}

/// The display name in the hub's answer to a toggle.
#[derive(Debug, PartialEq, Eq)]
pub struct ToggleSwitchAttributes {
    pub friendly_name: String,
}

/// One entity state in the hub's answer to a toggle.
#[derive(Debug, PartialEq, Eq)]
pub struct ToggleSwitchResponse {
    pub entity_id: String,
    pub state: String,
    pub attributes: ToggleSwitchAttributes,
}

/// How one exchange with the hub ended.
#[derive(Debug)]
pub enum Exchange<T> {
    /// The hub could not be reached.
    TransportFailed,
    /// The hub's answer did not have the expected shape.
    DecodeFailed,
    /// The hub's answer.
    Received(T),
}

/// Why a request to the hub gave no answer: it could not be put together, the
/// hub could not be reached, or the answer did not have the expected shape.
#[derive(Debug, Clone, Copy, PartialEq, Eq, Structural)]
pub enum RequestError {
    Build,
    Transport,
    Decoding,
}

/// What an exchange comes to: its answer, or the reason for none.
pub open spec fn answer_of<T>(exchange: Exchange<T>) -> Result<T, RequestError> {
    match exchange {
        Exchange::TransportFailed => Err(RequestError::Transport),
        Exchange::DecodeFailed => Err(RequestError::Decoding),
        Exchange::Received(answer) => Ok(answer),
    }
}

/// The answer of an exchange, or the reason for none.
pub fn answer<T>(exchange: Exchange<T>) -> (res: Result<T, RequestError>)
    ensures
        res == answer_of(exchange),
{
    match exchange {
        Exchange::TransportFailed => Err(RequestError::Transport),
        Exchange::DecodeFailed => Err(RequestError::Decoding),
        Exchange::Received(answer) => Ok(answer),
    }
}

impl RequestError {
    /// The text of the error.
    pub open spec fn text(self) -> Seq<char> {
        match self {
            RequestError::Build => "Unable to build request"@,
            RequestError::Transport => "Unable to connect to Home Assistant."@,
            RequestError::Decoding => "Unable to parse response"@,
        }
    }

    /// The error as a text. The three errors have three different texts.
    pub fn message(self) -> (res: String)
        ensures
            res@ == self.text(),
    {
        match self {
            RequestError::Build => "Unable to build request".to_string(),
            RequestError::Transport => "Unable to connect to Home Assistant.".to_string(),
            RequestError::Decoding => "Unable to parse response".to_string(),
        }
    }
}

/// The three request errors have three different texts.
pub proof fn law_error_texts_differ(a: RequestError, b: RequestError)
    requires
        a != b,
    ensures
        a.text() != b.text(),
{
    reveal_strlit("Unable to build request");
    reveal_strlit("Unable to connect to Home Assistant.");
    reveal_strlit("Unable to parse response");
    assert(RequestError::Build.text()[10] == 'b');
    assert(RequestError::Transport.text()[10] == 'c');
    assert(RequestError::Decoding.text()[10] == 'p');
}

/// A request as the client put it together, or the error that it could not
/// be put together.
pub fn built_or_error(built: Result<reqwest::Request, reqwest::Error>) -> (res: Result<
    reqwest::Request,
    RequestError,
>)
    ensures
        match built {
            Ok(request) => res == Ok::<reqwest::Request, RequestError>(request),
            Err(_) => res == Err::<reqwest::Request, RequestError>(RequestError::Build),
        },
{
    match built {
        Ok(request) => Ok(request),
        Err(_) => Err(RequestError::Build),
    }
}

/// What the durable store holds under the key of the settings.
#[derive(Debug)]
pub enum StoredSettings {
    /// The store could not be opened.
    Unreadable,
    /// Nothing was stored yet.
    Absent,
    /// Something is stored that does not read as settings.
    Corrupt,
    /// The stored fields, each of which may be missing.
    Present { app_url: Option<String>, token: Option<String> },
}

/// Why stored settings could not be loaded.
#[derive(Debug, Clone, Copy, PartialEq, Eq, Structural)]
pub enum SettingsError {
    Unreadable,
    Corrupt,
    MissingAppUrl,
    MissingToken,
}

impl SettingsError {
    /// The text of the error.
    pub open spec fn text(self) -> Seq<char> {
        match self {
            SettingsError::Unreadable => "Unable to open the settings store"@,
            SettingsError::Corrupt => "Unable to read the stored settings"@,
            SettingsError::MissingAppUrl => "`app_url` must be initialized"@,
            SettingsError::MissingToken => "`token` must be initialized"@,
        }
    }

    /// The error as a text.
    pub fn message(self) -> (res: String)
        ensures
            res@ == self.text(),
    {
        match self {
            SettingsError::Unreadable => "Unable to open the settings store".to_string(),
            SettingsError::Corrupt => "Unable to read the stored settings".to_string(),
            SettingsError::MissingAppUrl => "`app_url` must be initialized".to_string(),
            SettingsError::MissingToken => "`token` must be initialized".to_string(),
        }
    }
}

/// The connection settings of a session.
pub struct SettingsModel {
    pub app_url: Seq<char>,
    pub token: Seq<char>,
}

/// What stored settings load to: empty settings where nothing is stored, the
/// stored fields where both are there, else the reason for the failure.
pub open spec fn loaded(stored: StoredSettings) -> Result<SettingsModel, SettingsError> {
    match stored {
        StoredSettings::Unreadable => Err(SettingsError::Unreadable),
        StoredSettings::Absent => Ok(SettingsModel { app_url: Seq::empty(), token: Seq::empty() }),
        StoredSettings::Corrupt => Err(SettingsError::Corrupt),
        StoredSettings::Present { app_url: None, token: _ } => Err(SettingsError::MissingAppUrl),
        StoredSettings::Present { app_url: Some(_), token: None } => Err(
            SettingsError::MissingToken,
        ),
        StoredSettings::Present { app_url: Some(url), token: Some(token) } => Ok(
            SettingsModel { app_url: url@, token: token@ },
        ),
    }
}

/// The result of a status check after an exchange with the status endpoint.
pub open spec fn status_of(exchange: Exchange<String>) -> Result<StatusModel, StatusModel> {
    match answer_of(exchange) {
        Ok(message) => Ok(StatusModel { status: ApiStatus::Online, message: message@ }),
        Err(error) => Err(StatusModel { status: ApiStatus::Offline, message: error.text() }),
    }
}

/// The connection settings of one session with the hub.
#[derive(Debug)]
pub struct HomeAssistant {
    app_url: String,
    token: String,
    reqwest_client: reqwest::Client,
}

impl View for HomeAssistant {
    type V = SettingsModel;

    closed spec fn view(&self) -> SettingsModel {
        SettingsModel { app_url: self.app_url@, token: self.token@ }
    }
}

impl HomeAssistant {
    /// The HTTP client of the session.
    pub closed spec fn http_client(&self) -> reqwest::Client {
        self.reqwest_client
    }

    /// A session on what the store holds, with `client` as its HTTP client.
    /// Nothing stored gives a session with an empty address and an empty
    /// token, and no error.
    pub fn load_settings(stored: StoredSettings, client: reqwest::Client) -> (res: Result<
        Self,
        SettingsError,
    >)
        ensures
            match res {
                Ok(session) => loaded(stored) == Ok::<SettingsModel, SettingsError>(session@)
                    && session.http_client() == client,
                Err(error) => loaded(stored) == Err::<SettingsModel, SettingsError>(error),
            },
    {
        match stored {
            StoredSettings::Unreadable => Err(SettingsError::Unreadable),
            StoredSettings::Absent => Ok(
                HomeAssistant {
                    app_url: String::new(),
                    token: String::new(),
                    reqwest_client: client,
                },
            ),
            StoredSettings::Corrupt => Err(SettingsError::Corrupt),
            StoredSettings::Present { app_url, token } => match app_url {
                None => Err(SettingsError::MissingAppUrl),
                Some(url) => match token {
                    None => Err(SettingsError::MissingToken),
                    Some(token) => Ok(
                        HomeAssistant { app_url: url, token, reqwest_client: client },
                    ),
                },
            },
        }
    }

    /// Puts a new address and a new token in place of the old ones.
    pub fn update_settings(&mut self, new_app_url: &str, new_token: &str)
        ensures
            final(self)@ == (SettingsModel { app_url: new_app_url@, token: new_token@ }),
            final(self).http_client() == old(self).http_client(),
    {
        self.app_url = new_app_url.to_string();
        self.token = new_token.to_string();
    }

    /// The address of the hub.
    pub fn app_url(&self) -> (res: &str)
        ensures
            res@ == self@.app_url,
    {
        self.app_url.as_str()
    }

    /// The bearer token.
    pub fn token(&self) -> (res: &str)
        ensures
            res@ == self@.token,
    {
        self.token.as_str()
    }

    /// The address of the status endpoint.
    pub fn status_url(&self) -> (res: String)
        ensures
            res@ == self@.app_url + "/api/"@,
    {
        self.app_url.clone().concat("/api/")
    }

    /// The address of the endpoint that lists all entity states.
    pub fn states_url(&self) -> (res: String)
        ensures
            res@ == self@.app_url + "/api/states"@,
    {
        self.app_url.clone().concat("/api/states")
    }

    /// The address of the endpoint that toggles a switch.
    pub fn toggle_url(&self) -> (res: String)
        ensures
            res@ == self@.app_url + "/api/services/switch/toggle"@,
    {
        self.app_url.clone().concat("/api/services/switch/toggle")
    }

    /// The HTTP client of the session.
    pub fn client(&self) -> (res: &reqwest::Client)
        ensures
            *res == self.http_client(),
    {
        &self.reqwest_client
    }

    /// The request to the status endpoint, or an offline result where the
    /// client cannot put it together.
    pub fn status_request(&self) -> (res: Result<reqwest::Request, ApiStatusResponse>)
        ensures
            res.is_ok() == get_request_builds(self@.app_url + "/api/"@, self@.token),
            res matches Err(response) ==> response@ == (StatusModel {
                status: ApiStatus::Offline,
                message: RequestError::Build.text(),
            }),
    {
        let url = self.status_url();
        match built_or_error(build_get(&self.reqwest_client, url.as_str(), self.token.as_str())) {
            Ok(request) => Ok(request),
            Err(error) => Err(ApiStatusResponse::offline(error.message())),
        }
    }

    /// The request for the list of all entity states.
    pub fn states_request(&self) -> (res: Result<reqwest::Request, RequestError>)
        ensures
            res.is_ok() == get_request_builds(self@.app_url + "/api/states"@, self@.token),
            res matches Err(error) ==> error == RequestError::Build,
    {
        let url = self.states_url();
        built_or_error(build_get(&self.reqwest_client, url.as_str(), self.token.as_str()))
    }

    /// The request that toggles the switch with the identifier `id`: its body
    /// is the JSON object with the one member `entity_id`.
    pub fn toggle_request(&self, id: &str) -> (res: Result<reqwest::Request, RequestError>)
        ensures
            res.is_ok() == post_request_builds(
                self@.app_url + "/api/services/switch/toggle"@,
                self@.token,
                "entity_id"@,
                id@,
            ),
            res matches Err(error) ==> error == RequestError::Build,
    {
        let url = self.toggle_url();
        built_or_error(
            build_post(&self.reqwest_client, url.as_str(), self.token.as_str(), "entity_id", id),
        )
    }

    /// The result of a status check, given how the exchange with the status
    /// endpoint ended: online with the hub's message, or offline with the
    /// text of the failure.
    pub fn check_status(&self, exchange: Exchange<String>) -> (res: Result<
        ApiStatusResponse,
        ApiStatusResponse,
    >)
        ensures
            match res {
                Ok(response) => status_of(exchange) == Ok::<StatusModel, StatusModel>(response@),
                Err(response) => status_of(exchange) == Err::<StatusModel, StatusModel>(
                    response@,
                ),
            },
    {
        match answer(exchange) {
            Ok(message) => Ok(ApiStatusResponse::online(message)),
            Err(error) => Err(ApiStatusResponse::offline(error.message())),
        }
    }

    /// The switch entities in the hub's list of states, or the reason why the
    /// exchange gave no list.
    pub fn get_switch_entities(&self, exchange: Exchange<Vec<RemoteEntityState>>) -> (res: Result<
        Vec<BooleanEntity>,
        RequestError,
    >)
        ensures
            match res {
                Ok(entities) => answer_of(exchange) matches Ok(states) && models(entities@)
                    == listed(states@),
                Err(error) => answer_of(exchange) == Err::<Vec<RemoteEntityState>, RequestError>(
                    error,
                ),
            },
    {
        match answer(exchange) {
            Ok(states) => Ok(switch_entities(states)),
            Err(error) => Err(error),
        }
    }

    /// The hub's acknowledgement of a toggle, or the reason why the exchange
    /// gave none.
    pub fn toggle_switch_entity(&self, exchange: Exchange<Vec<ToggleSwitchResponse>>) -> (res:
        Result<Vec<ToggleSwitchResponse>, RequestError>)
        ensures
            res == answer_of(exchange),
    {
        answer(exchange)
    }
}

} // verus!
