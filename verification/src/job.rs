//! One run of the job, as a state machine. The caller does the outside work
//! (reading the settings, the two HTTP calls) and reports what came of it;
//! [`advance`] decides what happens next. A run starts idle, and any failure
//! ends it at once.

use crate::ai::{decode_ai_response, decoded_response, AiResponse, FactModel, RECEIVE_CONTEXT};
use crate::error::{failure, ErrorKind, ErrorModel, JobError, SEND_CONTEXT};
use crate::prompt::{enriched_request_text, plain_request_text, Templates, TemplatesModel};
use crate::seed::{get_random_seed, is_seed};
use crate::text::texts;
use crate::wiki::{decode_wiki_response, decoded_titles, READ_CONTEXT};
use vstd::prelude::*;

verus! {

/// Where the settings are kept.
pub const SETTINGS_PATH: &'static str = "settings.toml";

/// When the scheduler starts a run: every day at midnight.
pub const SCHEDULE: &'static str = "0 0 0 * * *";

/// Leads the message when the settings file cannot be read.
pub const SETTINGS_READ_CONTEXT: &'static str = "Failed to read settings file: ";

/// Leads the message when the settings file does not hold the settings.
pub const SETTINGS_PARSE_CONTEXT: &'static str = "Failed to parse settings: ";

/// What the operator configures, loaded afresh for every run.
#[derive(Debug, Clone, PartialEq, Eq)]
pub struct Settings {
    /// Who receives the fact.
    pub emails: Vec<String>,
    /// The credential of the generative service.
    pub gemini_key: String,
}

/// The settings as mathematics sees them.
pub struct SettingsModel {
    pub emails: Seq<Seq<char>>,
    pub gemini_key: Seq<char>,
}

impl View for Settings {
    type V = SettingsModel;

    open spec fn view(&self) -> SettingsModel {
        SettingsModel { emails: texts(self.emails@), gemini_key: self.gemini_key@ }
    }
}

/// Which of the two pipelines runs.
#[derive(Debug, Clone, Copy, PartialEq, Eq, Structural)]
pub enum Pipeline {
    /// A seed and article titles are filled into the prompt, and a system
    /// instruction into the request.
    Enriched,
    /// The prompt goes into the request as it is.
    Plain,
}

/// Where a run stands.
#[derive(Debug, Clone, PartialEq, Eq)]
pub enum JobState {
    /// No run is under way.
    Idle,
    /// The settings were asked for.
    LoadingSettings,
    /// The article titles were asked for.
    FetchingTitles { settings: Settings, seed: String },
    /// The request was handed out and the response is awaited.
    Generating,
}

/// What the caller reports.
#[derive(Debug, Clone, PartialEq, Eq)]
pub enum JobEvent {
    /// A run is due: the process started, or the schedule fired.
    Started,
    /// The settings were read.
    SettingsLoaded(Settings),
    /// The settings file could not be read, and why.
    SettingsUnreadable(String),
    /// The settings file does not hold the settings, and why.
    SettingsMalformed(String),
    /// The body of the encyclopedia's response.
    TitlesReceived(String),
    /// The body of the generative service's response.
    CompletionReceived(String),
    /// The pending request could not be sent, and why.
    RequestFailed(String),
    /// The body of the pending response did not arrive, and why.
    ResponseUnreadable(String),
}

/// What the caller is to do next.
#[derive(Debug, Clone, PartialEq, Eq)]
pub enum JobAction {
    /// Read the settings and report them.
    LoadSettings,
    /// Ask the encyclopedia for random titles and report the body.
    FetchTitles,
    /// Post `request` to the generative service with `api_key` and report the
    /// body.
    Generate { api_key: String, request: String },
    /// The run is complete: this is the fact of the day.
    Report(AiResponse),
    /// The run is abandoned, and why.
    Abort(JobError),
    /// The event does not belong to the state: nothing to do.
    Ignore,
}

/// A state as mathematics sees it.
pub enum StateModel {
    Idle,
    LoadingSettings,
    FetchingTitles { settings: SettingsModel, seed: Seq<char> },
    Generating,
}

/// An event as mathematics sees it.
pub enum EventModel {
    Started,
    SettingsLoaded(SettingsModel),
    SettingsUnreadable(Seq<char>),
    SettingsMalformed(Seq<char>),
    TitlesReceived(Seq<char>),
    CompletionReceived(Seq<char>),
    RequestFailed(Seq<char>),
    ResponseUnreadable(Seq<char>),
}

/// An action as mathematics sees it.
pub enum ActionModel {
    LoadSettings,
    FetchTitles,
    Generate { api_key: Seq<char>, request: Seq<char> },
    Report(FactModel),
    Abort(ErrorModel),
    Ignore,
}

impl View for JobState {
    type V = StateModel;

    open spec fn view(&self) -> StateModel {
        match *self {
            JobState::Idle => StateModel::Idle,
            JobState::LoadingSettings => StateModel::LoadingSettings,
            JobState::FetchingTitles { settings, seed } => StateModel::FetchingTitles {
                settings: settings@,
                seed: seed@,
            },
            JobState::Generating => StateModel::Generating,
        }
    }
}

impl View for JobEvent {
    type V = EventModel;

    open spec fn view(&self) -> EventModel {
        match *self {
            JobEvent::Started => EventModel::Started,
            JobEvent::SettingsLoaded(settings) => EventModel::SettingsLoaded(settings@),
            JobEvent::SettingsUnreadable(detail) => EventModel::SettingsUnreadable(detail@),
            JobEvent::SettingsMalformed(detail) => EventModel::SettingsMalformed(detail@),
            JobEvent::TitlesReceived(body) => EventModel::TitlesReceived(body@),
            JobEvent::CompletionReceived(body) => EventModel::CompletionReceived(body@),
            JobEvent::RequestFailed(detail) => EventModel::RequestFailed(detail@),
            JobEvent::ResponseUnreadable(detail) => EventModel::ResponseUnreadable(detail@),
        }
    }
}

impl View for JobAction {
    type V = ActionModel;

    open spec fn view(&self) -> ActionModel {
        match *self {
            JobAction::LoadSettings => ActionModel::LoadSettings,
            JobAction::FetchTitles => ActionModel::FetchTitles,
            JobAction::Generate { api_key, request } => ActionModel::Generate {
                api_key: api_key@,
                request: request@,
            },
            JobAction::Report(fact) => ActionModel::Report(fact@),
            JobAction::Abort(error) => ActionModel::Abort(error@),
            JobAction::Ignore => ActionModel::Ignore,
        }
    }
}

/// The step that abandons a run: back to idle, with the reason.
pub open spec fn abandoned(error: ErrorModel, next: StateModel, action: ActionModel) -> bool {
    next == StateModel::Idle && action == ActionModel::Abort(error)
}

/// The step that hands out the request: on to generating.
pub open spec fn requested(
    api_key: Seq<char>,
    request: Seq<char>,
    next: StateModel,
    action: ActionModel,
) -> bool {
    next == StateModel::Generating && action == (ActionModel::Generate { api_key, request })
}

/// Whether going from `state` to `next` with `action` is the step that
/// `event` calls for. Every step but one is fixed by the state and the
/// event; when the enriched pipeline has its settings, the seed that the
/// next state keeps is some fresh seed.
pub open spec fn steps(
    pipeline: Pipeline,
    templates: TemplatesModel,
    state: StateModel,
    event: EventModel,
    next: StateModel,
    action: ActionModel,
) -> bool {
    match (state, event) {
        (StateModel::Idle, EventModel::Started) => {
            next == StateModel::LoadingSettings && action == ActionModel::LoadSettings
        },
        (StateModel::LoadingSettings, EventModel::SettingsLoaded(settings)) => match pipeline {
            Pipeline::Enriched => {
                &&& action == ActionModel::FetchTitles
                &&& next matches StateModel::FetchingTitles { settings: kept, seed }
                &&& kept == settings
                &&& is_seed(seed)
            },
            Pipeline::Plain => requested(
                settings.gemini_key,
                plain_request_text(templates),
                next,
                action,
            ),
        },
        (StateModel::LoadingSettings, EventModel::SettingsUnreadable(detail)) => abandoned(
            failure(ErrorKind::ConfigRead, SETTINGS_READ_CONTEXT@, detail),
            next,
            action,
        ),
        (StateModel::LoadingSettings, EventModel::SettingsMalformed(detail)) => abandoned(
            failure(ErrorKind::ConfigParse, SETTINGS_PARSE_CONTEXT@, detail),
            next,
            action,
        ),
        (StateModel::FetchingTitles { settings, seed }, EventModel::TitlesReceived(body)) => {
            match decoded_titles(body) {
                Ok(titles) => requested(
                    settings.gemini_key,
                    enriched_request_text(templates, seed, titles),
                    next,
                    action,
                ),
                Err(error) => abandoned(error, next, action),
            }
        },
        (StateModel::FetchingTitles { .. }, EventModel::RequestFailed(detail)) => abandoned(
            failure(ErrorKind::Network, SEND_CONTEXT@, detail),
            next,
            action,
        ),
        (StateModel::FetchingTitles { .. }, EventModel::ResponseUnreadable(detail)) => abandoned(
            failure(ErrorKind::Network, READ_CONTEXT@, detail),
            next,
            action,
        ),
        (StateModel::Generating, EventModel::CompletionReceived(body)) => {
            match decoded_response(body) {
                Ok(fact) => next == StateModel::Idle && action == ActionModel::Report(fact),
                Err(error) => abandoned(error, next, action),
            }
        },
        (StateModel::Generating, EventModel::RequestFailed(detail)) => abandoned(
            failure(ErrorKind::Network, SEND_CONTEXT@, detail),
            next,
            action,
        ),
        (StateModel::Generating, EventModel::ResponseUnreadable(detail)) => abandoned(
            failure(ErrorKind::Network, RECEIVE_CONTEXT@, detail),
            next,
            action,
        ),
        _ => next == state && action == ActionModel::Ignore,
    }
}

/// Whether a run is under way.
pub open spec fn running(state: StateModel) -> bool {
    !(state is Idle)
}

/// A run is not entered twice: while it is under way, a start is ignored.
pub proof fn lemma_run_not_reentered(
    pipeline: Pipeline,
    templates: TemplatesModel,
    state: StateModel,
    next: StateModel,
    action: ActionModel,
)
    requires
        running(state),
        steps(pipeline, templates, state, EventModel::Started, next, action),
    ensures
        next == state,
        action == ActionModel::Ignore,
{
}

/// A run ends where it reports or aborts, and it reports nothing but the
/// fact that the response of the generative service decodes to.
pub proof fn lemma_run_ends_idle(
    pipeline: Pipeline,
    templates: TemplatesModel,
    state: StateModel,
    event: EventModel,
    next: StateModel,
    action: ActionModel,
)
    requires
        steps(pipeline, templates, state, event, next, action),
    ensures
        action is Report || action is Abort ==> next == StateModel::Idle,
        action matches ActionModel::Report(fact) ==> {
            &&& state == StateModel::Generating
            &&& event matches EventModel::CompletionReceived(body)
            &&& decoded_response(body) == Ok::<FactModel, ErrorModel>(fact)
        },
{
}

/// Whether the step is fixed by the state and the event: every step is, but
/// the one that draws the seed.
pub open spec fn determined(pipeline: Pipeline, state: StateModel, event: EventModel) -> bool {
    !(pipeline is Enriched && state is LoadingSettings && event is SettingsLoaded)
}

/// Runs that stand in the same state and see the same event take the same
/// step. So with the same seed kept and the same response bodies reported,
/// the requests that two runs hand out agree character for character.
pub proof fn lemma_step_determined(
    pipeline: Pipeline,
    templates: TemplatesModel,
    state: StateModel,
    event: EventModel,
    next: StateModel,
    action: ActionModel,
    other_next: StateModel,
    other_action: ActionModel,
)
    requires
        determined(pipeline, state, event),
        steps(pipeline, templates, state, event, next, action),
        steps(pipeline, templates, state, event, other_next, other_action),
    ensures
        next == other_next,
        action == other_action,
{
}

fn abandon(kind: ErrorKind, context: &str, detail: &str) -> (out: (JobState, JobAction))
    ensures
        abandoned(failure(kind, context@, detail@), out.0@, out.1@),
{
    (JobState::Idle, JobAction::Abort(JobError::new(kind, context, detail)))
}

/// Takes one step of a run: from `state`, on `event`, to the next state and
/// the action that the caller is to perform.
pub fn advance(pipeline: Pipeline, templates: &Templates, state: JobState, event: JobEvent) -> (out:
    (JobState, JobAction))
    ensures
        steps(pipeline, templates@, state@, event@, out.0@, out.1@),
{
    match state {
        JobState::Idle => match event {
            JobEvent::Started => (JobState::LoadingSettings, JobAction::LoadSettings),
            _ => (JobState::Idle, JobAction::Ignore),
        },
        JobState::LoadingSettings => match event {
            JobEvent::SettingsLoaded(settings) => match pipeline {
                Pipeline::Enriched => {
                    let seed = get_random_seed();
                    (JobState::FetchingTitles { settings, seed }, JobAction::FetchTitles)
                },
                Pipeline::Plain => {
                    let request = templates.plain_request();
                    (
                        JobState::Generating,
                        JobAction::Generate { api_key: settings.gemini_key, request },
                    )
                },
            },
            JobEvent::SettingsUnreadable(detail) => abandon(
                ErrorKind::ConfigRead,
                SETTINGS_READ_CONTEXT,
                detail.as_str(),
            ),
            JobEvent::SettingsMalformed(detail) => abandon(
                ErrorKind::ConfigParse,
                SETTINGS_PARSE_CONTEXT,
                detail.as_str(),
            ),
            _ => (JobState::LoadingSettings, JobAction::Ignore),
        },
        JobState::FetchingTitles { settings, seed } => match event {
            JobEvent::TitlesReceived(body) => match decode_wiki_response(body.as_str()) {
                Ok(response) => {
                    let titles = response.titles();
                    assert(texts(titles@) =~= response@);
                    let request = templates.enriched_request(seed.as_str(), &titles);
                    (
                        JobState::Generating,
                        JobAction::Generate { api_key: settings.gemini_key, request },
                    )
                },
                Err(error) => (JobState::Idle, JobAction::Abort(error)),
            },
            JobEvent::RequestFailed(detail) => abandon(
                ErrorKind::Network,
                SEND_CONTEXT,
                detail.as_str(),
            ),
            JobEvent::ResponseUnreadable(detail) => abandon(
                ErrorKind::Network,
                READ_CONTEXT,
                detail.as_str(),
            ),
            _ => (JobState::FetchingTitles { settings, seed }, JobAction::Ignore),
        },
        JobState::Generating => match event {
            JobEvent::CompletionReceived(body) => match decode_ai_response(body.as_str()) {
                Ok(fact) => (JobState::Idle, JobAction::Report(fact)),
                Err(error) => (JobState::Idle, JobAction::Abort(error)),
            },
            JobEvent::RequestFailed(detail) => abandon(
                ErrorKind::Network,
                SEND_CONTEXT,
                detail.as_str(),
            ),
            JobEvent::ResponseUnreadable(detail) => abandon(
                ErrorKind::Network,
                RECEIVE_CONTEXT,
                detail.as_str(),
            ),
            _ => (JobState::Generating, JobAction::Ignore),
        },
    }
}

} // verus!
