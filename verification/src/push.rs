//! Making an issue for a task that exists, and noting the issue in the task.
use crate::client::{
    create_issue_variables, is_sent, lemma_name_lengths, posts, request_view, sent_variable,
    ApiRequest, ApiRequestView, LinearClient, CREATE_ISSUE_QUERY,
};
use crate::config::Config;
use crate::hooks::{is_modify_start, ModifyStart};
use crate::json::{
    json_of_text, lemma_members_agree, lemma_trees_index, parse_json, reads_back, text_of_json,
    Json, JsonView,
};
use crate::model::LinearIssue;
use crate::task::{LINEAR_DESCRIPTION, LINEAR_ID, LINEAR_IDENTIFIER, LINEAR_URL};
use crate::text::{is_one_line, lossy_text, optional_text, text_from_bytes, texts};
use vstd::pervasive::unreached;
use vstd::prelude::*;

verus! {

/// The error of reading a UUID.
#[verifier::external_type_specification]
#[verifier::external_body]
pub struct ExUuidError(uuid::Error);

/// Whether `c` is a hexadecimal digit.
pub open spec fn is_hex_digit(c: char) -> bool {
    '0' <= c <= '9' || 'a' <= c <= 'f' || 'A' <= c <= 'F'
}

/// Whether `s` is a UUID with its four hyphens.
pub open spec fn is_hyphenated_uuid(s: Seq<char>) -> bool {
    s.len() == 36 && forall|i: int|
        0 <= i < 36 ==> if i == 8 || i == 13 || i == 18 || i == 23 {
            #[trigger] s[i] == '-'
        } else {
            is_hex_digit(s[i])
        }
}

/// Whether `c` is the letter `lower`, or the same letter in upper case.
pub open spec fn is_letter(c: char, lower: char) -> bool {
    c == lower || c as u32 == lower as u32 - 32
}

/// Whether `s` is `urn:uuid:`, in letters of either case.
pub open spec fn is_urn_prefix(s: Seq<char>) -> bool {
    s.len() == 9 && is_letter(s[0], 'u') && is_letter(s[1], 'r') && is_letter(s[2], 'n') && s[3]
        == ':' && is_letter(s[4], 'u') && is_letter(s[5], 'u') && is_letter(s[6], 'i')
        && is_letter(s[7], 'd') && s[8] == ':'
}

/// Whether `s` is a UUID: its digits alone, or with hyphens, which braces or the prefix of a
/// URN may enclose.
pub open spec fn is_uuid(s: Seq<char>) -> bool {
    ||| s.len() == 32 && forall|i: int| 0 <= i < 32 ==> is_hex_digit(#[trigger] s[i])
    ||| is_hyphenated_uuid(s)
    ||| s.len() == 38 && s[0] == '{' && s[37] == '}' && is_hyphenated_uuid(s.subrange(1, 37))
    ||| s.len() == 45 && is_urn_prefix(s.subrange(0, 9)) && is_hyphenated_uuid(
        s.subrange(9, 45),
    )
}

/// Calls `uuid::Uuid::from_str`, which reads the forms that [`is_uuid`] lists and no others.
#[verifier::external_body]
fn read_uuid(text: &str) -> (r: Result<(), uuid::Error>)
    ensures
        r is Ok <==> is_uuid(text@),
{
    match text.parse::<uuid::Uuid>() {
        Ok(_) => Ok(()),
        Err(error) => Err(error),
    }
}

/// Why an issue is not made.
#[derive(Debug)]
pub enum PushError {
    /// The name of the task is no UUID.
    InvalidUuid(uuid::Error),
    /// The export failed; what it complained of.
    ExportFailed(String),
    /// The export is no JSON.
    BadExport(serde_json::Error),
    /// The export is no list.
    ExportNotList,
    /// The export has no task.
    NoTask,
    /// The import failed.
    ImportFailed,
}

/// What an error is.
pub enum PushErrorView {
    InvalidUuid,
    ExportFailed(Seq<char>),
    BadExport,
    ExportNotList,
    NoTask,
    ImportFailed,
}

impl View for PushError {
    type V = PushErrorView;

    open spec fn view(&self) -> PushErrorView {
        match self {
            PushError::InvalidUuid(_) => PushErrorView::InvalidUuid,
            PushError::ExportFailed(complaint) => PushErrorView::ExportFailed(complaint@),
            PushError::BadExport(_) => PushErrorView::BadExport,
            PushError::ExportNotList => PushErrorView::ExportNotList,
            PushError::NoTask => PushErrorView::NoTask,
            PushError::ImportFailed => PushErrorView::ImportFailed,
        }
    }
}

impl PushErrorView {
    /// What the user is told.
    pub open spec fn message(self) -> Seq<char> {
        match self {
            PushErrorView::InvalidUuid => "Invalid UUID"@,
            PushErrorView::ExportFailed(complaint) => "task export failed: "@ + complaint,
            PushErrorView::BadExport => "Failed to parse task export JSON"@,
            PushErrorView::ExportNotList => "Failed to parse task export JSON"@,
            PushErrorView::NoTask => "No task found with that UUID"@,
            PushErrorView::ImportFailed => "task import failed"@,
        }
    }
}

impl PushError {
    /// What the user is told.
    pub fn message(&self) -> (r: String)
        ensures
            r@ == self@.message(),
    {
        match self {
            PushError::InvalidUuid(_) => "Invalid UUID".to_owned(),
            PushError::ExportFailed(complaint) => "task export failed: ".to_owned().concat(
                complaint.as_str(),
            ),
            PushError::BadExport(_) => "Failed to parse task export JSON".to_owned(),
            PushError::ExportNotList => "Failed to parse task export JSON".to_owned(),
            PushError::NoTask => "No task found with that UUID".to_owned(),
            PushError::ImportFailed => "task import failed".to_owned(),
        }
    }
}

/// Refuses a name that is no UUID.
pub fn check_uuid(text: &str) -> (r: Result<(), PushError>)
    ensures
        match r {
            Ok(_) => is_uuid(text@),
            Err(error) => error is InvalidUuid && !is_uuid(text@),
        },
{
    match read_uuid(text) {
        Ok(_) => Ok(()),
        Err(error) => Err(PushError::InvalidUuid(error)),
    }
}

/// The task that an export gives.
pub open spec fn exported_task(export: JsonView) -> Result<JsonView, PushErrorView> {
    match export {
        JsonView::Array(tasks) => if tasks.len() > 0 {
            Ok(tasks[0])
        } else {
            Err(PushErrorView::NoTask)
        },
        _ => Err(PushErrorView::ExportNotList),
    }
}

/// The task that a run of the export gives: whether it succeeded, what it printed, and what it
/// complained of.
pub open spec fn export_outcome(
    success: bool,
    printed: Seq<char>,
    complaint: Seq<char>,
) -> Result<JsonView, PushErrorView> {
    if !success {
        Err(PushErrorView::ExportFailed(complaint))
    } else {
        match json_of_text(printed) {
            Some(export) => exported_task(export),
            None => Err(PushErrorView::BadExport),
        }
    }
}

/// What the outcome of an export is.
pub open spec fn task_view(r: Result<Json, PushError>) -> Result<JsonView, PushErrorView> {
    match r {
        Ok(task) => Ok(task@),
        Err(error) => Err(error@),
    }
}

/// Takes the first task out of an export.
pub fn first_task(export: Json) -> (r: Result<Json, PushError>)
    ensures
        task_view(r) == exported_task(export@),
{
    match export {
        Json::Array(tasks) => {
            proof {
                lemma_trees_index(tasks@);
            }
            let mut rest = tasks;
            if rest.len() == 0 {
                Err(PushError::NoTask)
            } else {
                Ok(rest.swap_remove(0))
            }
        },
        _ => Err(PushError::ExportNotList),
    }
}

/// Reads the texts that a run of the export gave.
pub fn read_export_text(success: bool, printed: &str, complaint: &str) -> (r: Result<
    Json,
    PushError,
>)
    ensures
        task_view(r) == export_outcome(success, printed@, complaint@),
{
    if !success {
        return Err(PushError::ExportFailed(complaint.to_owned()));
    }
    match parse_json(printed) {
        Ok(export) => first_task(export),
        Err(error) => Err(PushError::BadExport(error)),
    }
}

/// Reads what a run of the export gave.
pub fn read_export(success: bool, printed: &[u8], complaint: &[u8]) -> (r: Result<
    Json,
    PushError,
>)
    ensures
        task_view(r) == export_outcome(success, lossy_text(printed@), lossy_text(complaint@)),
{
    let printed_text = text_from_bytes(printed);
    let complaint_text = text_from_bytes(complaint);
    read_export_text(success, printed_text.as_str(), complaint_text.as_str())
}

/// What is to be done for a task.
#[derive(Debug, PartialEq, Eq)]
pub enum PushPlan {
    /// Nothing: it has an issue.
    AlreadyLinked,
    /// Make an issue.
    Create { title: String, description: Option<String> },
}

/// What a plan is.
pub enum PushPlanView {
    AlreadyLinked,
    Create { title: Seq<char>, description: Option<Seq<char>> },
}

impl View for PushPlan {
    type V = PushPlanView;

    open spec fn view(&self) -> PushPlanView {
        match self {
            PushPlan::AlreadyLinked => PushPlanView::AlreadyLinked,
            PushPlan::Create { title, description } => PushPlanView::Create {
                title: title@,
                description: optional_text(*description),
            },
        }
    }
}

/// What is to be done for a task: nothing where it names an issue, and otherwise an issue with
/// the title and the description that it holds.
pub open spec fn push_plan(task: JsonView) -> PushPlanView {
    if task.member(LINEAR_ID@).text() is Some {
        PushPlanView::AlreadyLinked
    } else {
        PushPlanView::Create {
            title: match task.member("description"@).text() {
                Some(title) => title,
                None => "Untitled task"@,
            },
            description: task.member(LINEAR_DESCRIPTION@).text(),
        }
    }
}

/// What is to be done for a task.
pub fn plan_push(task: &Json) -> (plan: PushPlan)
    ensures
        plan@ == push_plan(task@),
{
    if task.member_text(LINEAR_ID).is_some() {
        return PushPlan::AlreadyLinked;
    }
    let title = match task.member_text("description") {
        Some(title) => title.to_owned(),
        None => "Untitled task".to_owned(),
    };
    let description: Option<String> = match task.member_text(LINEAR_DESCRIPTION) {
        Some(description) => Some(description.to_owned()),
        None => None,
    };
    PushPlan::Create { title, description }
}

/// The task with its issue noted in it.
pub open spec fn linked_view(
    task: JsonView,
    id: Seq<char>,
    url: Seq<char>,
    identifier: Seq<char>,
) -> JsonView {
    task.with(LINEAR_ID@, JsonView::Text(id)).with(LINEAR_URL@, JsonView::Text(url)).with(
        LINEAR_IDENTIFIER@,
        JsonView::Text(identifier),
    )
}

/// Notes its issue in a task; a task that is no object stays as it is.
pub fn link_task(task: Json, issue: &LinearIssue) -> (r: Json)
    ensures
        r@ == linked_view(task@, issue.id@, issue.url@, issue.identifier@),
{
    task.with(LINEAR_ID, Json::string(issue.id.as_str())).with(
        LINEAR_URL,
        Json::string(issue.url.as_str()),
    ).with(LINEAR_IDENTIFIER, Json::string(issue.identifier.as_str()))
}

/// The text to import: the task with its issue noted in it.
pub fn linked_text(task: Json, issue: &LinearIssue) -> (r: String)
    ensures
        ({
            let linked = linked_view(task@, issue.id@, issue.url@, issue.identifier@);
            &&& r@ == text_of_json(linked)
            &&& is_one_line(r@)
            &&& reads_back(r@, linked)
        }),
{
    link_task(task, issue).print()
}

/// What the user is told of a task that has an issue.
pub const ALREADY_LINKED_NOTICE: &'static str =
    "linear-sync: task already has a Linear issue, skipping";

/// What the user is told in the end.
pub const LINKED_NOTICE: &'static str = "linear-sync: task updated with Linear IDs";

/// What the user is told of the issue that was made.
pub open spec fn created_text(issue: LinearIssue) -> Seq<char> {
    "linear-sync: created "@ + issue.identifier@ + " — "@ + issue.url@
}

/// What the user is told of the issue that was made.
pub fn created_notice(issue: &LinearIssue) -> (r: String)
    ensures
        r@ == created_text(*issue),
{
    "linear-sync: created ".to_owned().concat(issue.identifier.as_str()).concat(" — ").concat(
        issue.url.as_str(),
    )
}

// ---- making an issue, step by step ----

/// How far it is.
#[derive(Debug, PartialEq)]
pub enum PushState {
    /// Waits for the export of the task.
    Exporting,
    /// Waits for the settings.
    Configuring { task: Json, title: String, description: Option<String> },
    /// Waits for the issue.
    Creating { task: Json },
    /// Waits for the import of the task.
    Importing,
    /// Is over.
    Done,
}

/// What there is to know.
#[derive(Debug)]
pub enum PushEvent {
    /// The export ran.
    Exported { success: bool, printed: Vec<u8>, complaint: Vec<u8> },
    /// The settings were loaded.
    Configured(Config),
    /// The issue was made.
    Created(LinearIssue),
    /// The import ran.
    Imported { success: bool },
}

/// What is to be done.
#[derive(Debug, PartialEq)]
pub enum PushAction {
    /// Export the task.
    Export,
    /// Load the settings.
    LoadConfig,
    /// Send this request, which makes the issue.
    Send(ApiRequest),
    /// Import this text.
    Import(String),
    /// Nothing more.
    Stop,
}

/// How it goes on.
#[derive(Debug)]
pub enum PushTurn {
    Go(PushState, PushAction),
    Fail(PushError),
}

/// One step: the lines to show, and then how it goes on.
#[derive(Debug)]
pub struct PushStep {
    pub notes: Vec<String>,
    pub turn: PushTurn,
}

/// What a state is.
pub enum PushStateView {
    Exporting,
    Configuring { task: JsonView, title: Seq<char>, description: Option<Seq<char>> },
    Creating { task: JsonView },
    Importing,
    Done,
}

/// What an action is.
pub enum PushActionView {
    Export,
    LoadConfig,
    Send(ApiRequestView),
    Import(Seq<char>),
    Stop,
}

/// What a turn is.
pub enum PushTurnView {
    Go(PushStateView, PushActionView),
    Fail(PushErrorView),
}

/// What a step is.
pub struct PushStepView {
    pub notes: Seq<Seq<char>>,
    pub turn: PushTurnView,
}

impl View for PushState {
    type V = PushStateView;

    open spec fn view(&self) -> PushStateView {
        match self {
            PushState::Exporting => PushStateView::Exporting,
            PushState::Configuring { task, title, description } => PushStateView::Configuring {
                task: task@,
                title: title@,
                description: optional_text(*description),
            },
            PushState::Creating { task } => PushStateView::Creating { task: task@ },
            PushState::Importing => PushStateView::Importing,
            PushState::Done => PushStateView::Done,
        }
    }
}

impl View for PushAction {
    type V = PushActionView;

    open spec fn view(&self) -> PushActionView {
        match self {
            PushAction::Export => PushActionView::Export,
            PushAction::LoadConfig => PushActionView::LoadConfig,
            PushAction::Send(request) => PushActionView::Send(request@),
            PushAction::Import(text) => PushActionView::Import(text@),
            PushAction::Stop => PushActionView::Stop,
        }
    }
}

impl View for PushStep {
    type V = PushStepView;

    open spec fn view(&self) -> PushStepView {
        PushStepView {
            notes: texts(self.notes@),
            turn: match self.turn {
                PushTurn::Go(state, action) => PushTurnView::Go(state@, action@),
                PushTurn::Fail(error) => PushTurnView::Fail(error@),
            },
        }
    }
}

/// Whether such an event is waited for.
pub open spec fn fits(state: PushStateView, event: PushEvent) -> bool {
    match state {
        PushStateView::Exporting => event is Exported,
        PushStateView::Configuring { .. } => event is Configured,
        PushStateView::Creating { .. } => event is Created,
        PushStateView::Importing => event is Imported,
        PushStateView::Done => false,
    }
}

/// The first step: exports the task that `uuid` names.
pub open spec fn first_step(uuid: Seq<char>) -> PushStepView {
    PushStepView {
        notes: seq![],
        turn: if is_uuid(uuid) {
            PushTurnView::Go(PushStateView::Exporting, PushActionView::Export)
        } else {
            PushTurnView::Fail(PushErrorView::InvalidUuid)
        },
    }
}

/// The step for a task that was exported.
pub open spec fn task_step(task: JsonView) -> PushStepView {
    match push_plan(task) {
        PushPlanView::AlreadyLinked => PushStepView {
            notes: seq![ALREADY_LINKED_NOTICE@],
            turn: PushTurnView::Go(PushStateView::Done, PushActionView::Stop),
        },
        PushPlanView::Create { title, description } => PushStepView {
            notes: seq![],
            turn: PushTurnView::Go(
                PushStateView::Configuring { task, title, description },
                PushActionView::LoadConfig,
            ),
        },
    }
}

/// What follows on an event that is waited for.
pub open spec fn next_step(state: PushStateView, event: PushEvent) -> PushStepView
    recommends
        fits(state, event),
{
    match (state, event) {
        (PushStateView::Exporting, PushEvent::Exported { success, printed, complaint }) => {
            match export_outcome(success, lossy_text(printed@), lossy_text(complaint@)) {
                Ok(task) => task_step(task),
                Err(error) => PushStepView { notes: seq![], turn: PushTurnView::Fail(error) },
            }
        },
        (
            PushStateView::Configuring { task, title, description },
            PushEvent::Configured(config),
        ) => PushStepView {
            notes: seq![],
            turn: PushTurnView::Go(
                PushStateView::Creating { task },
                PushActionView::Send(
                    request_view(
                        config@.api_token,
                        CREATE_ISSUE_QUERY@,
                        create_issue_variables(
                            title,
                            description,
                            config@.team_id,
                            config@.assignee_id,
                        ),
                    ),
                ),
            ),
        },
        (PushStateView::Creating { task }, PushEvent::Created(issue)) => PushStepView {
            notes: seq![created_text(issue)],
            turn: PushTurnView::Go(
                PushStateView::Importing,
                PushActionView::Import(
                    text_of_json(linked_view(task, issue.id@, issue.url@, issue.identifier@)),
                ),
            ),
        },
        (PushStateView::Importing, PushEvent::Imported { success }) => if success {
            PushStepView {
                notes: seq![LINKED_NOTICE@],
                turn: PushTurnView::Go(PushStateView::Done, PushActionView::Stop),
            }
        } else {
            PushStepView { notes: seq![], turn: PushTurnView::Fail(PushErrorView::ImportFailed) }
        },
        _ => arbitrary(),
    }
}

/// Whether what goes out in a turn reads back: the request as what it asks for, and the text to
/// import as the task with its issue noted in it.
pub open spec fn is_readable(state: PushStateView, event: PushEvent, turn: PushTurn) -> bool {
    match (state, event, turn) {
        (
            PushStateView::Configuring { title, description, .. },
            PushEvent::Configured(config),
            PushTurn::Go(_, PushAction::Send(request)),
        ) => posts(
            request,
            config@.api_token,
            CREATE_ISSUE_QUERY@,
            create_issue_variables(title, description, config@.team_id, config@.assignee_id),
        ),
        (
            PushStateView::Creating { task },
            PushEvent::Created(issue),
            PushTurn::Go(_, PushAction::Import(text)),
        ) => reads_back(text@, linked_view(task, issue.id@, issue.url@, issue.identifier@)),
        _ => true,
    }
}

/// A step without lines.
fn quiet(turn: PushTurn) -> (r: PushStep)
    ensures
        r@.notes == Seq::<Seq<char>>::empty(),
        r.turn == turn,
{
    let step = PushStep { notes: Vec::new(), turn };
    assert(step@.notes =~= Seq::<Seq<char>>::empty());
    step
}

/// A step with one line.
fn noted(note: String, turn: PushTurn) -> (r: PushStep)
    ensures
        r@.notes == seq![note@],
        r.turn == turn,
{
    let mut notes: Vec<String> = Vec::new();
    notes.push(note);
    let step = PushStep { notes, turn };
    assert(step@.notes =~= seq![note@]);
    step
}

/// The step for a task that was exported.
pub fn consider_task(task: Json) -> (r: PushStep)
    ensures
        r@ == task_step(task@),
{
    match plan_push(&task) {
        PushPlan::AlreadyLinked => noted(
            ALREADY_LINKED_NOTICE.to_owned(),
            PushTurn::Go(PushState::Done, PushAction::Stop),
        ),
        PushPlan::Create { title, description } => quiet(
            PushTurn::Go(
                PushState::Configuring { task, title, description },
                PushAction::LoadConfig,
            ),
        ),
    }
}

/// The first step: exports the task that `uuid` names.
pub fn start_push(uuid: &str) -> (r: PushStep)
    ensures
        r@ == first_step(uuid@),
{
    match check_uuid(uuid) {
        Ok(_) => quiet(PushTurn::Go(PushState::Exporting, PushAction::Export)),
        Err(error) => quiet(PushTurn::Fail(error)),
    }
}

impl PushState {
    /// Whether such an event is waited for.
    pub fn expects(&self, event: &PushEvent) -> (r: bool)
        ensures
            r == fits(self@, *event),
    {
        match self {
            PushState::Exporting => matches!(event, PushEvent::Exported { .. }),
            PushState::Configuring { .. } => matches!(event, PushEvent::Configured(_)),
            PushState::Creating { .. } => matches!(event, PushEvent::Created(_)),
            PushState::Importing => matches!(event, PushEvent::Imported { .. }),
            PushState::Done => false,
        }
    }

    /// Goes on with an event that is waited for.
    pub fn advance(self, event: PushEvent) -> (r: PushStep)
        requires
            fits(self@, event),
        ensures
            r@ == next_step(self@, event),
            is_readable(self@, event, r.turn),
    {
        match (self, event) {
            (PushState::Exporting, PushEvent::Exported { success, printed, complaint }) => {
                match read_export(success, printed.as_slice(), complaint.as_slice()) {
                    Ok(task) => consider_task(task),
                    Err(error) => quiet(PushTurn::Fail(error)),
                }
            },
            (
                PushState::Configuring { task, title, description },
                PushEvent::Configured(config),
            ) => {
                let client = LinearClient::new(config.api_token);
                let details: Option<&str> = match &description {
                    Some(text) => Some(text.as_str()),
                    None => None,
                };
                let request = client.create_issue(
                    title.as_str(),
                    details,
                    config.team_id.as_str(),
                    config.assignee_id.as_str(),
                );
                quiet(PushTurn::Go(PushState::Creating { task }, PushAction::Send(request)))
            },
            (PushState::Creating { task }, PushEvent::Created(issue)) => noted(
                created_notice(&issue),
                PushTurn::Go(
                    PushState::Importing,
                    PushAction::Import(linked_text(task, &issue)),
                ),
            ),
            (PushState::Importing, PushEvent::Imported { success }) => if success {
                noted(
                    LINKED_NOTICE.to_owned(),
                    PushTurn::Go(PushState::Done, PushAction::Stop),
                )
            } else {
                quiet(PushTurn::Fail(PushError::ImportFailed))
            },
            _ => unreached(),
        }
    }
}

// ---- laws ----

proof fn lemma_names_differ()
    ensures
        LINEAR_ID@ != LINEAR_URL@,
        LINEAR_ID@ != LINEAR_IDENTIFIER@,
        LINEAR_URL@ != LINEAR_IDENTIFIER@,
{
    reveal_strlit("linearid");
    reveal_strlit("linearurl");
    reveal_strlit("linearidentifier");
    assert(LINEAR_ID@.len() == 8);
    assert(LINEAR_URL@.len() == 9);
    assert(LINEAR_IDENTIFIER@.len() == 16);
}

/// A task in which its issue was noted names that issue, and every other member is as before.
pub proof fn law_link_notes_the_issue(
    task: JsonView,
    id: Seq<char>,
    url: Seq<char>,
    identifier: Seq<char>,
    name: Seq<char>,
)
    requires
        task is Object,
    ensures
        ({
            let linked = linked_view(task, id, url, identifier);
            &&& linked.get(LINEAR_ID@) == Some(JsonView::Text(id))
            &&& linked.get(LINEAR_URL@) == Some(JsonView::Text(url))
            &&& linked.get(LINEAR_IDENTIFIER@) == Some(JsonView::Text(identifier))
            &&& name != LINEAR_ID@ && name != LINEAR_URL@ && name != LINEAR_IDENTIFIER@
                ==> linked.get(name) == task.get(name)
        }),
{
    lemma_names_differ();
}

/// No task gets a second issue: once its issue is noted in it, nothing is to be done.
pub proof fn law_push_makes_one_issue(
    task: JsonView,
    id: Seq<char>,
    url: Seq<char>,
    identifier: Seq<char>,
)
    requires
        task is Object,
    ensures
        push_plan(linked_view(task, id, url, identifier)) == PushPlanView::AlreadyLinked,
{
    law_link_notes_the_issue(task, id, url, identifier, LINEAR_ID@);
}

/// The text that is imported names the issue, whatever numbers the task holds: where it is
/// read, the task that comes out names the issue, gets no second one, and has every other text
/// that it had.
pub proof fn law_imported_text_names_the_issue(
    task: JsonView,
    id: Seq<char>,
    url: Seq<char>,
    identifier: Seq<char>,
    text: Seq<char>,
    name: Seq<char>,
)
    requires
        task is Object,
        reads_back(text, linked_view(task, id, url, identifier)),
    ensures
        json_of_text(text) matches Some(back) ==> {
            &&& back.member(LINEAR_ID@).text() == Some(id)
            &&& back.member(LINEAR_URL@).text() == Some(url)
            &&& back.member(LINEAR_IDENTIFIER@).text() == Some(identifier)
            &&& push_plan(back) == PushPlanView::AlreadyLinked
            &&& name != LINEAR_ID@ && name != LINEAR_URL@ && name != LINEAR_IDENTIFIER@
                ==> back.member(name).text() == task.member(name).text()
        },
{
    if let Some(back) = json_of_text(text) {
        let linked = linked_view(task, id, url, identifier);
        law_link_notes_the_issue(task, id, url, identifier, name);
        lemma_members_agree(back, linked, LINEAR_ID@);
        lemma_members_agree(back, linked, LINEAR_URL@);
        lemma_members_agree(back, linked, LINEAR_IDENTIFIER@);
        lemma_members_agree(back, linked, name);
    }
}

/// Changes of a task in which its issue was noted are brought to that issue.
pub proof fn law_linked_task_is_synced(
    old_task: JsonView,
    task: JsonView,
    id: Seq<char>,
    url: Seq<char>,
    identifier: Seq<char>,
    new_line: Seq<char>,
    start: ModifyStart,
)
    requires
        task is Object,
        is_modify_start(old_task, linked_view(task, id, url, identifier), new_line, start),
    ensures
        start matches ModifyStart::Sync(modification) && modification.issue_id@ == id,
{
    law_link_notes_the_issue(task, id, url, identifier, LINEAR_ID@);
}

/// The settings are loaded, and an issue is asked for, only for a task that names no issue.
pub proof fn law_linked_task_is_left_alone(task: JsonView)
    requires
        task.member(LINEAR_ID@).text() is Some,
    ensures
        task_step(task).turn == PushTurnView::Go(PushStateView::Done, PushActionView::Stop),
{
}

/// How many events can still come.
pub open spec fn events_left(state: PushStateView) -> nat {
    match state {
        PushStateView::Exporting => 4,
        PushStateView::Configuring { .. } => 3,
        PushStateView::Creating { .. } => 2,
        PushStateView::Importing => 1,
        PushStateView::Done => 0,
    }
}

/// Each event brings it nearer to its end, and an issue is asked for at most once: only the
/// event for which the settings were loaded leads there, and nothing leads back to it.
pub proof fn law_one_request_is_sent(state: PushStateView, event: PushEvent)
    requires
        fits(state, event),
    ensures
        next_step(state, event).turn matches PushTurnView::Go(next, action) ==> {
            &&& events_left(next) < events_left(state)
            &&& action is Send ==> state is Configuring && next is Creating
            &&& next is Configuring ==> state is Exporting
            &&& next !is Exporting
        },
{
}

/// What is imported is the task that was exported, with the issue that was made noted in it.
pub proof fn law_exported_task_is_imported(task: JsonView, config: Config, issue: LinearIssue)
    requires
        task.member(LINEAR_ID@).text() is None,
    ensures
        ({
            let s1 = task_step(task).turn->Go_0;
            let s2 = next_step(s1, PushEvent::Configured(config)).turn->Go_0;
            next_step(s2, PushEvent::Created(issue)).turn == PushTurnView::Go(
                PushStateView::Importing,
                PushActionView::Import(
                    text_of_json(linked_view(task, issue.id@, issue.url@, issue.identifier@)),
                ),
            )
        }),
{
}

/// Whether what is to be done brings the event that is waited for, or ends it.
pub open spec fn brings_event(action: PushActionView, state: PushStateView) -> bool {
    match action {
        PushActionView::Export => state is Exporting,
        PushActionView::LoadConfig => state is Configuring,
        PushActionView::Send(_) => state is Creating,
        PushActionView::Import(_) => state is Importing,
        PushActionView::Stop => state is Done,
    }
}

/// What is waited for is what was to be done, from the first step on.
pub proof fn law_push_waits_for_what_it_asks(
    uuid: Seq<char>,
    state: PushStateView,
    event: PushEvent,
)
    requires
        fits(state, event),
    ensures
        first_step(uuid).turn matches PushTurnView::Go(next, action) ==> brings_event(
            action,
            next,
        ),
        next_step(state, event).turn matches PushTurnView::Go(next, action) ==> brings_event(
            action,
            next,
        ),
{
}

// ---- laws on single steps ----

proof fn lemma_notes(step: PushStep)
    ensures
        step@.notes.len() == step.notes@.len(),
        forall|i: int| 0 <= i < step.notes@.len() ==> step@.notes[i] == (#[trigger] step.notes@[i])@,
{
}

/// A task is exported exactly where its name is a UUID.
pub proof fn law_only_uuids_are_exported(uuid: &str, step: PushStep)
    requires
        call_ensures(start_push, (uuid,), step),
    ensures
        is_uuid(uuid@) ==> step.turn matches PushTurn::Go(PushState::Exporting, PushAction::Export),
        !is_uuid(uuid@) ==> step.turn matches PushTurn::Fail(PushError::InvalidUuid(_)),
        step.notes@.len() == 0,
{
    lemma_notes(step);
}

/// A name is refused exactly where it is no UUID.
pub proof fn law_names_are_checked(text: &str, r: Result<(), PushError>)
    requires
        call_ensures(check_uuid, (text,), r),
    ensures
        r is Ok <==> is_uuid(text@),
        r is Err ==> r->Err_0 is InvalidUuid,
{
}

/// The first task of an export is taken, as it is; an export that failed, that is no JSON, no list
/// or an empty list is an error of its own.
pub proof fn law_first_exported_task_is_taken(
    success: bool,
    printed: &str,
    complaint: &str,
    r: Result<Json, PushError>,
)
    requires
        call_ensures(read_export_text, (success, printed, complaint), r),
    ensures
        !success ==> (r matches Err(PushError::ExportFailed(told)) && told@ == complaint@),
        success && json_of_text(printed@) is None ==> r matches Err(PushError::BadExport(_)),
        success && json_of_text(printed@) is Some ==> match json_of_text(printed@)->0 {
            JsonView::Array(tasks) => if tasks.len() == 0 {
                r matches Err(PushError::NoTask)
            } else {
                r is Ok && (r->Ok_0)@ == tasks[0]
            },
            _ => r matches Err(PushError::ExportNotList),
        },
{
}

/// An export is read from its bytes as from the texts that they make.
pub proof fn law_bytes_are_read_as_text(
    success: bool,
    printed: &[u8],
    complaint: &[u8],
    r: Result<Json, PushError>,
    printed_text: &str,
    complaint_text: &str,
    s: Result<Json, PushError>,
)
    requires
        call_ensures(read_export, (success, printed, complaint), r),
        call_ensures(read_export_text, (success, printed_text, complaint_text), s),
        printed_text@ == lossy_text(printed@),
        complaint_text@ == lossy_text(complaint@),
    ensures
        r is Ok <==> s is Ok,
        r is Ok ==> (r->Ok_0)@ == (s->Ok_0)@,
        r is Err ==> (r->Err_0)@ == (s->Err_0)@,
{
}

/// The first task of a list is taken, and nothing else is a list.
pub proof fn law_first_task_is_taken(export: Json, r: Result<Json, PushError>)
    requires
        call_ensures(first_task, (export,), r),
    ensures
        export matches Json::Array(tasks) ==> (if tasks@.len() == 0 {
            r matches Err(PushError::NoTask)
        } else {
            r is Ok && (r->Ok_0)@ == tasks@[0]@
        }),
        export !is Array ==> r matches Err(PushError::ExportNotList),
{
    if let Json::Array(tasks) = export {
        lemma_trees_index(tasks@);
    }
}

/// Whether a task names an issue.
pub open spec fn names_an_issue(task: JsonView) -> bool {
    task.get("linearid"@) matches Some(id) && id is Text
}

/// A task that names an issue gets none; any other gets one with its description for a title, and
/// with its `lineardescription`, each on its own account.
pub proof fn law_task_gets_its_issue(task: &Json, plan: PushPlan)
    requires
        call_ensures(plan_push, (task,), plan),
    ensures
        plan is AlreadyLinked <==> names_an_issue(task@),
        plan matches PushPlan::Create { title, description } ==> {
            &&& task@.get("description"@) matches Some(JsonView::Text(text)) ==> title@ == text
            &&& !(task@.get("description"@) matches Some(JsonView::Text(_))) ==> title@
                == "Untitled task"@
            &&& description is Some <==> (task@.get("lineardescription"@) matches Some(
                JsonView::Text(_),
            ))
            &&& description is Some ==> task@.get("lineardescription"@) == Some(
                JsonView::Text((description->0)@),
            )
        },
{
}

/// A task that was exported is left alone where it names an issue, and the user is told; for any
/// other the settings are loaded.
pub proof fn law_exported_task_is_considered(task: Json, step: PushStep)
    requires
        call_ensures(consider_task, (task,), step),
    ensures
        names_an_issue(task@) ==> (step.turn matches PushTurn::Go(PushState::Done, PushAction::Stop))
            && step.notes@.len() == 1 && step.notes@[0]@
            == "linear-sync: task already has a Linear issue, skipping"@,
        !names_an_issue(task@) ==> (step.turn matches PushTurn::Go(
            PushState::Configuring { task: kept, .. },
            PushAction::LoadConfig,
        ) && kept@ == task@) && step.notes@.len() == 0,
{
    lemma_notes(step);
}

/// What follows on an export is what follows on the task that it gives, or its error.
pub proof fn law_export_is_considered(
    success: bool,
    printed: Vec<u8>,
    complaint: Vec<u8>,
    step: PushStep,
    printed_bytes: &[u8],
    complaint_bytes: &[u8],
    r: Result<Json, PushError>,
    considered: PushStep,
)
    requires
        call_ensures(
            PushState::advance,
            (PushState::Exporting, PushEvent::Exported { success, printed, complaint }),
            step,
        ),
        printed_bytes@ == printed@,
        complaint_bytes@ == complaint@,
        call_ensures(read_export, (success, printed_bytes, complaint_bytes), r),
        r matches Ok(task) ==> call_ensures(consider_task, (task,), considered),
    ensures
        r is Ok ==> step@ == considered@,
        r matches Err(error) ==> (step.turn matches PushTurn::Fail(failed) && failed@ == error@)
            && step.notes@.len() == 0,
{
    lemma_notes(step);
}

/// The issue that is asked for has the description of the task for its title, whatever else the
/// task holds, and its `lineardescription`, or none; it goes to the team and the assignee of the
/// settings, in the name of their token. The task is kept as it is.
pub proof fn law_request_holds_what_the_task_holds(
    task: Json,
    considered: PushStep,
    state: PushState,
    action: PushAction,
    config: Config,
    step: PushStep,
)
    requires
        call_ensures(consider_task, (task,), considered),
        !names_an_issue(task@),
        considered.turn == PushTurn::Go(state, action),
        call_ensures(PushState::advance, (state, PushEvent::Configured(config)), step),
    ensures
        step.turn matches PushTurn::Go(PushState::Creating { task: kept }, PushAction::Send(request))
            && kept@ == task@ && is_sent(request, config.api_token@, CREATE_ISSUE_QUERY@)
            && sent_variable(request, "title"@) == Some(
            match task@.get("description"@) {
                Some(JsonView::Text(title)) => JsonView::Text(title),
                _ => JsonView::Text("Untitled task"@),
            },
        ) && sent_variable(request, "description"@) == Some(
            match task@.get("lineardescription"@) {
                Some(JsonView::Text(description)) => JsonView::Text(description),
                _ => JsonView::Null,
            },
        ) && sent_variable(request, "teamId"@) == Some(JsonView::Text(config.team_id@))
            && sent_variable(request, "assigneeId"@) == Some(JsonView::Text(config.assignee_id@)),
        step.notes@.len() == 0,
{
    lemma_name_lengths();
    lemma_notes(step);
}

/// The issue that was made is noted in the task, which is imported with every other text as it
/// is; the user is told of the issue.
pub proof fn law_issue_is_noted_in_the_import(
    task: Json,
    issue: LinearIssue,
    step: PushStep,
    name: Seq<char>,
)
    requires
        task is Object,
        call_ensures(
            PushState::advance,
            (PushState::Creating { task }, PushEvent::Created(issue)),
            step,
        ),
    ensures
        step.notes@.len() == 1,
        step.notes@[0]@ == "linear-sync: created "@ + issue.identifier@ + " — "@ + issue.url@,
        step.turn matches PushTurn::Go(PushState::Importing, PushAction::Import(text)) && (
        json_of_text(text@) matches Some(back) ==> {
            &&& back.get("linearid"@) == Some(JsonView::Text(issue.id@))
            &&& back.get("linearurl"@) == Some(JsonView::Text(issue.url@))
            &&& back.get("linearidentifier"@) == Some(JsonView::Text(issue.identifier@))
            &&& name != "linearid"@ && name != "linearurl"@ && name != "linearidentifier"@
                ==> back.member(name).text() == task@.member(name).text()
        }),
{
    lemma_notes(step);
    if let PushTurn::Go(_, PushAction::Import(text)) = step.turn {
        law_imported_text_names_the_issue(
            task@,
            issue.id@,
            issue.url@,
            issue.identifier@,
            text@,
            name,
        );
    }
}

/// Noting an issue sets the three members that name it and leaves all others, numbers and all, as
/// they are; what is no object is left alone.
pub proof fn law_issue_is_noted(task: Json, issue: &LinearIssue, r: Json, name: Seq<char>)
    requires
        call_ensures(link_task, (task, issue), r),
    ensures
        task is Object ==> r@.get("linearid"@) == Some(JsonView::Text(issue.id@)) && r@.get(
            "linearurl"@,
        ) == Some(JsonView::Text(issue.url@)) && r@.get("linearidentifier"@) == Some(
            JsonView::Text(issue.identifier@),
        ),
        name != "linearid"@ && name != "linearurl"@ && name != "linearidentifier"@ ==> r@.get(name)
            == task@.get(name),
        task !is Object ==> r@ == task@,
{
    lemma_names_differ();
}

/// The text to import is that of the task with its issue noted.
pub proof fn law_linked_text_is_that_of_the_linked_task(
    task: Json,
    issue: &LinearIssue,
    text: String,
    linked: Json,
    printed: String,
)
    requires
        call_ensures(linked_text, (task, issue), text),
        call_ensures(link_task, (task, issue), linked),
        call_ensures(Json::print, (linked,), printed),
    ensures
        text@ == printed@,
{
}

/// An import that succeeded ends it, and the user is told; one that failed is an error.
pub proof fn law_import_ends_it(success: bool, step: PushStep)
    requires
        call_ensures(
            PushState::advance,
            (PushState::Importing, PushEvent::Imported { success }),
            step,
        ),
    ensures
        success ==> (step.turn matches PushTurn::Go(PushState::Done, PushAction::Stop))
            && step.notes@.len() == 1 && step.notes@[0]@
            == "linear-sync: task updated with Linear IDs"@,
        !success ==> (step.turn matches PushTurn::Fail(PushError::ImportFailed))
            && step.notes@.len() == 0,
{
    lemma_notes(step);
}

/// An event is waited for exactly where its kind is the one that was asked for.
pub proof fn law_expected_push_events(state: &PushState, event: &PushEvent, r: bool)
    requires
        call_ensures(PushState::expects, (state, event), r),
    ensures
        r <==> match *state {
            PushState::Exporting => *event is Exported,
            PushState::Configuring { .. } => *event is Configured,
            PushState::Creating { .. } => *event is Created,
            PushState::Importing => *event is Imported,
            PushState::Done => false,
        },
{
}

/// The user is told what failed, of an export with all that it complained of, and which issue was
/// made.
pub proof fn law_push_is_told(error: &PushError, r: String, issue: &LinearIssue, created: String)
    requires
        call_ensures(PushError::message, (error,), r),
        call_ensures(created_notice, (issue,), created),
    ensures
        match *error {
            PushError::InvalidUuid(_) => r@ == "Invalid UUID"@,
            PushError::ExportFailed(complaint) => r@ == "task export failed: "@ + complaint@,
            PushError::BadExport(_) => r@ == "Failed to parse task export JSON"@,
            PushError::ExportNotList => r@ == "Failed to parse task export JSON"@,
            PushError::NoTask => r@ == "No task found with that UUID"@,
            PushError::ImportFailed => r@ == "task import failed"@,
        },
        created@ == "linear-sync: created "@ + issue.identifier@ + " — "@ + issue.url@,
{
}

/// What is imported is the text of the task with its issue noted, numbers and all.
pub proof fn law_linked_text_is_imported(
    task: Json,
    issue: LinearIssue,
    step: PushStep,
    text: String,
)
    requires
        call_ensures(
            PushState::advance,
            (PushState::Creating { task }, PushEvent::Created(issue)),
            step,
        ),
        call_ensures(linked_text, (task, &issue), text),
    ensures
        step.turn matches PushTurn::Go(PushState::Importing, PushAction::Import(imported))
            && imported@ == text@,
{
}

} // verus!
