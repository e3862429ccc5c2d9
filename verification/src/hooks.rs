//! The hooks that taskwarrior runs when a task is added or changed.
use crate::client::{
    check_issue_state, create_comment_variables, created_comment_of, is_sent, issue_state_variables,
    lemma_name_lengths, part_of, posts, sent_variable, update_issue_variables, ApiError, ApiRequest,
    LinearClient, CREATE_COMMENT_QUERY, SET_ISSUE_STATE_QUERY, UPDATE_ISSUE_QUERY,
};
use crate::config::{Config, ConfigView};
use crate::json::{
    json_of_text, lemma_members_agree, parse_json, reads_back, text_of_json, Json, JsonView,
};
use crate::task::{
    annotations_set, annotations_view, contains_entry, has_entry, is_annotation,
    lemma_annotations_agree, lemma_annotations_are_those, pair_texts, LINEAR_COMMENT,
    LINEAR_DESCRIPTION, LINEAR_ID,
};
use crate::text::{
    is_core, is_one_line, is_white_space, law_trimming_cuts_white_space_only,
    lemma_trimmed_is_one_line, optional_str, same_text, trim, trimmed,
};
use vstd::prelude::*;

verus! {

/// What the hook for a new task passes on: the task as it is.
pub fn on_add(line: &str) -> (output: String)
    ensures
        output@ == trimmed(line@),
{
    trim(line).to_owned()
}

/// A change to an issue.
#[derive(Debug, PartialEq, Eq)]
pub enum Change {
    /// Move it to the state of finished issues.
    Complete { state_id: String },
    /// Move it to the state of started issues.
    Start { state_id: String },
    /// Set its title.
    Title { title: String },
    /// Set its description.
    Description { description: String },
    /// Add a comment.
    Comment { body: String },
}

/// What a change is.
pub enum ChangeView {
    Complete { state_id: Seq<char> },
    Start { state_id: Seq<char> },
    Title { title: Seq<char> },
    Description { description: Seq<char> },
    Comment { body: Seq<char> },
}

impl View for Change {
    type V = ChangeView;

    open spec fn view(&self) -> ChangeView {
        match self {
            Change::Complete { state_id } => ChangeView::Complete { state_id: state_id@ },
            Change::Start { state_id } => ChangeView::Start { state_id: state_id@ },
            Change::Title { title } => ChangeView::Title { title: title@ },
            Change::Description { description } => ChangeView::Description {
                description: description@,
            },
            Change::Comment { body } => ChangeView::Comment { body: body@ },
        }
    }
}

/// A call that brings an issue in step with its task.
#[derive(Debug, PartialEq, Eq)]
pub struct SyncCall {
    pub issue_id: String,
    pub change: Change,
}

/// What a call is.
pub struct SyncCallView {
    pub issue_id: Seq<char>,
    pub change: ChangeView,
}

impl View for SyncCall {
    type V = SyncCallView;

    open spec fn view(&self) -> SyncCallView {
        SyncCallView { issue_id: self.issue_id@, change: self.change@ }
    }
}

/// What a list of calls is.
pub open spec fn call_views(calls: Seq<SyncCall>) -> Seq<SyncCallView> {
    calls.map_values(|c: SyncCall| c@)
}

// ---- what a changed task asks for ----

/// The one call, if it is asked for.
pub open spec fn call_if(
    asked: bool,
    issue_id: Seq<char>,
    change: ChangeView,
) -> Seq<SyncCallView> {
    if asked {
        seq![SyncCallView { issue_id, change }]
    } else {
        seq![]
    }
}

/// Whether the task became completed.
pub open spec fn becomes_completed(old_task: JsonView, new_task: JsonView) -> bool {
    old_task.text_or_empty("status"@) != "completed"@ && new_task.text_or_empty("status"@)
        == "completed"@
}

/// Whether the task was started.
pub open spec fn becomes_active(old_task: JsonView, new_task: JsonView) -> bool {
    old_task.member("start"@).text() is None && new_task.member("start"@).text() is Some
}

/// Whether the text of the member `name` changed to another text that is not empty.
pub open spec fn becomes_other(old_task: JsonView, new_task: JsonView, name: Seq<char>) -> bool {
    old_task.text_or_empty(name) != new_task.text_or_empty(name) && new_task.text_or_empty(
        name,
    ).len() > 0
}

/// The comment that waits in the task to be posted; empty if none does.
pub open spec fn pending_comment(task: JsonView) -> Seq<char> {
    task.text_or_empty(LINEAR_COMMENT@)
}

/// The comments for the annotations in `new` whose entry `old` does not have.
pub open spec fn annotation_calls(
    old: Seq<(Seq<char>, Seq<char>)>,
    new: Seq<(Seq<char>, Seq<char>)>,
    issue_id: Seq<char>,
) -> Seq<SyncCallView>
    decreases new.len(),
{
    if new.len() == 0 {
        seq![]
    } else {
        annotation_calls(old, new.drop_last(), issue_id) + call_if(
            !has_entry(old, new.last().0),
            issue_id,
            ChangeView::Comment { body: new.last().1 },
        )
    }
}

/// The call that moves the issue of a started task, if the settings have a state for it.
pub open spec fn start_calls(
    old_task: JsonView,
    new_task: JsonView,
    issue_id: Seq<char>,
    in_progress_state_id: Option<Seq<char>>,
) -> Seq<SyncCallView> {
    match in_progress_state_id {
        Some(state_id) => call_if(
            becomes_active(old_task, new_task),
            issue_id,
            ChangeView::Start { state_id },
        ),
        None => seq![],
    }
}

/// The calls that a changed task asks for, in order.
pub open spec fn planned_calls(
    old_task: JsonView,
    new_task: JsonView,
    issue_id: Seq<char>,
    config: ConfigView,
) -> Seq<SyncCallView> {
    call_if(
        becomes_completed(old_task, new_task),
        issue_id,
        ChangeView::Complete { state_id: config.done_state_id },
    ) + start_calls(old_task, new_task, issue_id, config.in_progress_state_id) + call_if(
        becomes_other(old_task, new_task, "description"@),
        issue_id,
        ChangeView::Title { title: new_task.text_or_empty("description"@) },
    ) + call_if(
        becomes_other(old_task, new_task, LINEAR_DESCRIPTION@),
        issue_id,
        ChangeView::Description { description: new_task.text_or_empty(LINEAR_DESCRIPTION@) },
    ) + call_if(
        pending_comment(new_task).len() > 0,
        issue_id,
        ChangeView::Comment { body: pending_comment(new_task) },
    ) + annotation_calls(annotations_view(old_task), annotations_view(new_task), issue_id)
}

/// The task that the hook hands back: without the comment that was posted.
pub open spec fn settled_view(task: JsonView) -> JsonView {
    if pending_comment(task).len() > 0 {
        task.without(LINEAR_COMMENT@)
    } else {
        task
    }
}

proof fn lemma_push_call(calls: Seq<SyncCall>, call: SyncCall)
    ensures
        call_views(calls.push(call)) == call_views(calls).push(call@),
{
    assert(call_views(calls.push(call)) =~= call_views(calls).push(call@));
}

/// Adds one call to a list of calls.
fn push_call(calls: &mut Vec<SyncCall>, issue_id: &str, change: Change)
    ensures
        call_views(final(calls)@) == call_views(old(calls)@) + seq![
            SyncCallView { issue_id: issue_id@, change: change@ },
        ],
{
    let call = SyncCall { issue_id: issue_id.to_owned(), change };
    proof {
        lemma_push_call(calls@, call);
    }
    calls.push(call);
    assert(call_views(calls@) =~= call_views(old(calls)@) + seq![
        SyncCallView { issue_id: issue_id@, change: change@ },
    ]);
}

/// The calls that a changed task asks for, in order.
pub fn plan_calls(old_task: &Json, new_task: &Json, issue_id: &str, config: &Config) -> (calls:
    Vec<SyncCall>)
    ensures
        call_views(calls@) == planned_calls(old_task@, new_task@, issue_id@, config@),
{
    let mut calls: Vec<SyncCall> = Vec::new();
    let ghost old_view = old_task@;
    let ghost new_view = new_task@;
    proof {
        assert(call_views(calls@) =~= seq![]);
    }

    let old_status = old_task.text_or_empty("status");
    let new_status = new_task.text_or_empty("status");
    if !same_text(old_status, "completed") && same_text(new_status, "completed") {
        push_call(
            &mut calls,
            issue_id,
            Change::Complete { state_id: config.done_state_id.clone() },
        );
    }
    let ghost done = call_if(
        becomes_completed(old_view, new_view),
        issue_id@,
        ChangeView::Complete { state_id: config@.done_state_id },
    );
    assert(call_views(calls@) =~= done);

    let was_active = old_task.member_text("start").is_some();
    let is_active = new_task.member_text("start").is_some();
    if !was_active && is_active {
        match &config.in_progress_state_id {
            Some(state_id) => {
                push_call(&mut calls, issue_id, Change::Start { state_id: state_id.clone() });
            },
            None => {},
        }
    }
    let ghost started = done + start_calls(
        old_view,
        new_view,
        issue_id@,
        config@.in_progress_state_id,
    );
    assert(call_views(calls@) =~= started);

    let old_title = old_task.text_or_empty("description");
    let new_title = new_task.text_or_empty("description");
    if !same_text(old_title, new_title) && !new_title.is_empty() {
        push_call(&mut calls, issue_id, Change::Title { title: new_title.to_owned() });
    }
    let ghost titled = started + call_if(
        becomes_other(old_view, new_view, "description"@),
        issue_id@,
        ChangeView::Title { title: new_view.text_or_empty("description"@) },
    );
    assert(call_views(calls@) =~= titled);

    let old_description = old_task.text_or_empty(LINEAR_DESCRIPTION);
    let new_description = new_task.text_or_empty(LINEAR_DESCRIPTION);
    if !same_text(old_description, new_description) && !new_description.is_empty() {
        push_call(
            &mut calls,
            issue_id,
            Change::Description { description: new_description.to_owned() },
        );
    }
    let ghost described = titled + call_if(
        becomes_other(old_view, new_view, LINEAR_DESCRIPTION@),
        issue_id@,
        ChangeView::Description { description: new_view.text_or_empty(LINEAR_DESCRIPTION@) },
    );
    assert(call_views(calls@) =~= described);

    let comment = new_task.text_or_empty(LINEAR_COMMENT);
    if !comment.is_empty() {
        push_call(&mut calls, issue_id, Change::Comment { body: comment.to_owned() });
    }
    let ghost commented = described + call_if(
        pending_comment(new_view).len() > 0,
        issue_id@,
        ChangeView::Comment { body: pending_comment(new_view) },
    );
    assert(call_views(calls@) =~= commented);

    let old_annotations = annotations_set(old_task);
    let new_annotations = annotations_set(new_task);
    let ghost old_list = annotations_view(old_view);
    let ghost new_list = annotations_view(new_view);
    assert(new_list.take(0) =~= Seq::empty());
    assert(call_views(calls@) =~= commented + annotation_calls(
        old_list,
        new_list.take(0),
        issue_id@,
    ));
    let mut i: usize = 0;
    while i < new_annotations.len()
        invariant
            i <= new_annotations@.len(),
            pair_texts(old_annotations@) == old_list,
            pair_texts(new_annotations@) == new_list,
            call_views(calls@) == commented + annotation_calls(
                old_list,
                new_list.take(i as int),
                issue_id@,
            ),
        decreases new_annotations@.len() - i,
    {
        assert(new_list.take(i + 1).drop_last() =~= new_list.take(i as int));
        assert(new_list.take(i + 1).last() == (
            new_annotations@[i as int].0@,
            new_annotations@[i as int].1@,
        ));
        if !contains_entry(&old_annotations, new_annotations[i].0.as_str()) {
            push_call(
                &mut calls,
                issue_id,
                Change::Comment { body: new_annotations[i].1.clone() },
            );
        }
        assert(call_views(calls@) =~= commented + annotation_calls(
            old_list,
            new_list.take(i + 1),
            issue_id@,
        ));
        i = i + 1;
    }
    assert(new_list.take(new_list.len() as int) =~= new_list);
    calls
}

/// The task that the hook hands back: without the comment that was posted.
pub fn settled_task(task: Json) -> (r: Json)
    ensures
        r@ == settled_view(task@),
{
    if task.text_or_empty(LINEAR_COMMENT).is_empty() {
        task
    } else {
        task.without(LINEAR_COMMENT)
    }
}

// ---- the hook for a changed task ----

/// Why the hook for a changed task fails.
#[derive(Debug)]
pub enum HookError {
    MissingOriginal,
    MissingModified,
    BadOriginal(serde_json::Error),
    BadModified(serde_json::Error),
}

impl HookError {
    /// The text of [`HookError::message`].
    pub open spec fn message_text(self) -> Seq<char> {
        match self {
            HookError::MissingOriginal => "Missing original task JSON"@,
            HookError::MissingModified => "Missing modified task JSON"@,
            HookError::BadOriginal(_) => "Failed to parse original task"@,
            HookError::BadModified(_) => "Failed to parse modified task"@,
        }
    }

    /// What the user is told.
    pub fn message(&self) -> (r: String)
        ensures
            r@ == self.message_text(),
    {
        match self {
            HookError::MissingOriginal => "Missing original task JSON".to_owned(),
            HookError::MissingModified => "Missing modified task JSON".to_owned(),
            HookError::BadOriginal(_) => "Failed to parse original task".to_owned(),
            HookError::BadModified(_) => "Failed to parse modified task".to_owned(),
        }
    }
}

/// A changed task that has an issue.
#[derive(Debug, PartialEq)]
pub struct Modification {
    pub issue_id: String,
    pub new_line: String,
    pub old_task: Json,
    pub new_task: Json,
}

/// How the hook for a changed task goes on.
#[derive(Debug, PartialEq)]
pub enum ModifyStart {
    /// The task has no issue: print this, and be done.
    PassThrough(String),
    /// The task has an issue: load the settings and go on with [`finish_modify`].
    Sync(Modification),
}

/// Whether `start` is how the hook goes on after it has read the two tasks.
pub open spec fn is_modify_start(
    old_task: JsonView,
    new_task: JsonView,
    new_line: Seq<char>,
    start: ModifyStart,
) -> bool {
    match new_task.member(LINEAR_ID@).text() {
        Some(issue_id) => start matches ModifyStart::Sync(modification) && modification.issue_id@
            == issue_id && modification.new_line@ == new_line && modification.old_task@
            == old_task && modification.new_task@ == new_task,
        None => start matches ModifyStart::PassThrough(output) && output@ == new_line,
    }
}

/// Goes on after the two tasks have been read.
pub fn start_modify(old_task: Json, new_task: Json, new_line: String) -> (start: ModifyStart)
    ensures
        is_modify_start(old_task@, new_task@, new_line@, start),
{
    let issue_id: Option<String> = match new_task.member_text(LINEAR_ID) {
        Some(id) => Some(id.to_owned()),
        None => None,
    };
    match issue_id {
        Some(issue_id) => ModifyStart::Sync(
            Modification { issue_id, new_line, old_task, new_task },
        ),
        None => ModifyStart::PassThrough(new_line),
    }
}

/// Reads the two lines that taskwarrior hands to the hook: the task as it was, and as it is
/// to be. A line that is not there is `None`.
pub fn on_modify(old_line: Option<&str>, new_line: Option<&str>) -> (r: Result<
    ModifyStart,
    HookError,
>)
    ensures
        match (optional_str(old_line), optional_str(new_line)) {
            (None, _) => r matches Err(HookError::MissingOriginal),
            (Some(_), None) => r matches Err(HookError::MissingModified),
            (Some(old_text), Some(new_text)) => match (
                json_of_text(trimmed(old_text)),
                json_of_text(trimmed(new_text)),
            ) {
                (None, _) => r matches Err(HookError::BadOriginal(_)),
                (Some(_), None) => r matches Err(HookError::BadModified(_)),
                (Some(old_task), Some(new_task)) => r matches Ok(start) && is_modify_start(
                    old_task,
                    new_task,
                    trimmed(new_text),
                    start,
                ),
            },
        },
{
    let old_text = match old_line {
        Some(line) => trim(line),
        None => {
            return Err(HookError::MissingOriginal);
        },
    };
    let new_text = match new_line {
        Some(line) => trim(line),
        None => {
            return Err(HookError::MissingModified);
        },
    };
    let old_task = match parse_json(old_text) {
        Ok(task) => task,
        Err(error) => {
            return Err(HookError::BadOriginal(error));
        },
    };
    let new_task = match parse_json(new_text) {
        Ok(task) => task,
        Err(error) => {
            return Err(HookError::BadModified(error));
        },
    };
    Ok(start_modify(old_task, new_task, new_text.to_owned()))
}

/// What is left to do: the calls, in order, and then the line to print.
#[derive(Debug, PartialEq, Eq)]
pub struct ModifyPlan {
    pub calls: Vec<SyncCall>,
    pub output: String,
}

/// Finishes the hook for a changed task that has an issue. Without settings the task passes
/// as it is. With settings the calls are those that the change asks for, whatever becomes of
/// them, and the line holds the settled task.
pub fn finish_modify(modification: Modification, config: Option<&Config>) -> (plan: ModifyPlan)
    ensures
        match config {
            Some(config) => {
                let settled = settled_view(modification.new_task@);
                &&& call_views(plan.calls@) == planned_calls(
                    modification.old_task@,
                    modification.new_task@,
                    modification.issue_id@,
                    config@,
                )
                &&& plan.output@ == text_of_json(settled)
                &&& trimmed(plan.output@) == plan.output@
                &&& is_one_line(plan.output@)
                &&& reads_back(plan.output@, settled)
            },
            None => plan.calls@.len() == 0 && plan.output@ == modification.new_line@,
        },
        is_one_line(modification.new_line@) ==> is_one_line(plan.output@),
{
    match config {
        Some(config) => {
            let calls = plan_calls(
                &modification.old_task,
                &modification.new_task,
                modification.issue_id.as_str(),
                config,
            );
            ModifyPlan { calls, output: settled_task(modification.new_task).print() }
        },
        None => ModifyPlan { calls: Vec::new(), output: modification.new_line },
    }
}

/// What the user is told when the settings cannot be loaded.
pub fn skip_notice(reason: &str) -> (r: String)
    ensures
        r@ == "linear-sync: skipping on-modify ("@ + reason@ + ")"@,
{
    "linear-sync: skipping on-modify (".to_owned().concat(reason).concat(")")
}

// ---- carrying out a call ----

impl SyncCallView {
    /// What the call posts.
    pub open spec fn query(self) -> Seq<char> {
        match self.change {
            ChangeView::Complete { .. } => SET_ISSUE_STATE_QUERY@,
            ChangeView::Start { .. } => SET_ISSUE_STATE_QUERY@,
            ChangeView::Title { .. } => UPDATE_ISSUE_QUERY@,
            ChangeView::Description { .. } => UPDATE_ISSUE_QUERY@,
            ChangeView::Comment { .. } => CREATE_COMMENT_QUERY@,
        }
    }

    /// What goes with it.
    pub open spec fn variables(self) -> JsonView {
        match self.change {
            ChangeView::Complete { state_id } => issue_state_variables(self.issue_id, state_id),
            ChangeView::Start { state_id } => issue_state_variables(self.issue_id, state_id),
            ChangeView::Title { title } => update_issue_variables(
                self.issue_id,
                Some(title),
                None,
            ),
            ChangeView::Description { description } => update_issue_variables(
                self.issue_id,
                None,
                Some(description),
            ),
            ChangeView::Comment { body } => create_comment_variables(self.issue_id, body),
        }
    }

    /// What the user is told when the call was done; only a comment has an id.
    pub open spec fn done_text(self, comment_id: Seq<char>) -> Seq<char> {
        match self.change {
            ChangeView::Complete { .. } => "linear-sync: marked Linear issue as completed"@,
            ChangeView::Start { .. } => "linear-sync: moved Linear issue to in-progress"@,
            ChangeView::Title { .. } => "linear-sync: updated Linear issue title"@,
            ChangeView::Description { .. } => "linear-sync: updated Linear issue description"@,
            ChangeView::Comment { .. } => "linear-sync: added comment "@ + comment_id
                + " to Linear issue"@,
        }
    }

    /// What the user is told when the call failed.
    pub open spec fn failed_text(self, error: Seq<char>) -> Seq<char> {
        (match self.change {
            ChangeView::Complete { .. } => "linear-sync: failed to complete Linear issue: "@,
            ChangeView::Start { .. } => "linear-sync: failed to set in-progress state: "@,
            ChangeView::Title { .. } => "linear-sync: failed to update Linear issue title: "@,
            ChangeView::Description { .. } =>
                "linear-sync: failed to update Linear issue description: "@,
            ChangeView::Comment { .. } => "linear-sync: failed to create Linear comment: "@,
        }) + error
    }
}

impl SyncCall {
    /// The request of the call.
    pub fn request(&self, client: &LinearClient) -> (r: ApiRequest)
        ensures
            posts(r, client.token(), self@.query(), self@.variables()),
    {
        let issue_id = self.issue_id.as_str();
        match &self.change {
            Change::Complete { state_id } => client.set_issue_state(issue_id, state_id.as_str()),
            Change::Start { state_id } => client.set_issue_state(issue_id, state_id.as_str()),
            Change::Title { title } => client.update_issue(issue_id, Some(title.as_str()), None),
            Change::Description { description } => client.update_issue(
                issue_id,
                None,
                Some(description.as_str()),
            ),
            Change::Comment { body } => client.create_comment(issue_id, body.as_str()),
        }
    }

    /// What the data of the reply means: an issue that was moved must say so, and a comment
    /// that was made is handed out.
    pub fn settle(&self, data: Json) -> (r: Result<Option<Json>, ApiError>)
        ensures
            match self.change {
                Change::Complete { .. } | Change::Start { .. } => match r {
                    Ok(made) => made is None && data@.member("issueUpdate"@).member("success"@)
                        == JsonView::Bool(true),
                    Err(error) => error is NotUpdated && data@.member("issueUpdate"@).member(
                        "success"@,
                    ) != JsonView::Bool(true),
                },
                Change::Title { .. } | Change::Description { .. } => r matches Ok(None),
                Change::Comment { .. } => r matches Ok(Some(comment)) && comment@ == data@.member(
                    "commentCreate"@,
                ).member("comment"@),
            },
    {
        match &self.change {
            Change::Complete { .. } | Change::Start { .. } => match check_issue_state(data) {
                Ok(_) => Ok(None),
                Err(error) => Err(error),
            },
            Change::Title { .. } | Change::Description { .. } => Ok(None),
            Change::Comment { .. } => Ok(Some(created_comment_of(data))),
        }
    }

    /// What the user is told when the call was done; only a comment has an id.
    pub fn done_notice(&self, comment_id: &str) -> (r: String)
        ensures
            r@ == self@.done_text(comment_id@),
    {
        match &self.change {
            Change::Complete { .. } => "linear-sync: marked Linear issue as completed".to_owned(),
            Change::Start { .. } => "linear-sync: moved Linear issue to in-progress".to_owned(),
            Change::Title { .. } => "linear-sync: updated Linear issue title".to_owned(),
            Change::Description { .. } =>
                "linear-sync: updated Linear issue description".to_owned(),
            Change::Comment { .. } => "linear-sync: added comment ".to_owned().concat(
                comment_id,
            ).concat(" to Linear issue"),
        }
    }

    /// What the user is told when the call failed.
    pub fn failed_notice(&self, error: &str) -> (r: String)
        ensures
            r@ == self@.failed_text(error@),
    {
        let text = match &self.change {
            Change::Complete { .. } => "linear-sync: failed to complete Linear issue: ",
            Change::Start { .. } => "linear-sync: failed to set in-progress state: ",
            Change::Title { .. } => "linear-sync: failed to update Linear issue title: ",
            Change::Description { .. } =>
                "linear-sync: failed to update Linear issue description: ",
            Change::Comment { .. } => "linear-sync: failed to create Linear comment: ",
        };
        text.to_owned().concat(error)
    }
}

// ---- laws ----

/// A line that holds a task, without white space around it, comes out of the hook for new
/// tasks as it went in; the line break behind it is dropped.
pub proof fn law_added_task_is_unchanged(task: Seq<char>)
    requires
        task.len() > 0,
        !is_white_space(task.first()),
        !is_white_space(task.last()),
    ensures
        trimmed(task) == task,
        trimmed(task.push('\n')) == task,
{
    let line = task.push('\n');
    assert(line.first() == task.first());
    assert(line.last() == '\n');
    assert(line.drop_last() =~= task);
}

/// What the hook for new tasks prints is one line, for a line with or without its line break.
pub proof fn law_added_task_is_one_line(line: Seq<char>)
    requires
        line.len() > 0 ==> is_one_line(line.drop_last()),
    ensures
        is_one_line(trimmed(line)),
{
    lemma_trimmed_is_one_line(line);
}

/// What the hook for changed tasks passes on of a line is one line: as it is printed for a task
/// without issue, and as it is kept for one with an issue. [`finish_modify`] prints one line of
/// that.
pub proof fn law_changed_task_is_one_line(
    old_task: JsonView,
    new_task: JsonView,
    line: Seq<char>,
    start: ModifyStart,
)
    requires
        is_one_line(line),
        is_modify_start(old_task, new_task, trimmed(line), start),
    ensures
        match start {
            ModifyStart::PassThrough(output) => is_one_line(output@),
            ModifyStart::Sync(modification) => is_one_line(modification.new_line@),
        },
{
    lemma_trimmed_is_one_line(line);
}

/// A task that did not change, and that holds no comment to post, asks for nothing.
pub proof fn law_unchanged_task_asks_nothing(
    task: JsonView,
    issue_id: Seq<char>,
    config: ConfigView,
)
    requires
        pending_comment(task).len() == 0,
    ensures
        planned_calls(task, task, issue_id, config) == Seq::<SyncCallView>::empty(),
{
    let list = annotations_view(task);
    lemma_known_annotations_ask_nothing(list, list, issue_id);
    assert(planned_calls(task, task, issue_id, config) =~= Seq::<SyncCallView>::empty());
}

/// The task that the hook hands back asks for nothing more: whatever was posted is not posted
/// again when that task comes in once more, unchanged.
pub proof fn law_settled_task_asks_nothing(
    task: JsonView,
    issue_id: Seq<char>,
    config: ConfigView,
)
    ensures
        planned_calls(settled_view(task), settled_view(task), issue_id, config) == Seq::<
            SyncCallView,
        >::empty(),
{
    law_unchanged_task_asks_nothing(settled_view(task), issue_id, config);
}

/// The numbers in a task make no difference: tasks that agree in all else ask for the same.
pub proof fn law_numbers_make_no_difference(
    old_task: JsonView,
    new_task: JsonView,
    old_other: JsonView,
    new_other: JsonView,
    issue_id: Seq<char>,
    config: ConfigView,
)
    requires
        old_task.agrees(old_other),
        new_task.agrees(new_other),
    ensures
        planned_calls(old_task, new_task, issue_id, config) == planned_calls(
            old_other,
            new_other,
            issue_id,
            config,
        ),
{
    lemma_members_agree(old_task, old_other, "status"@);
    lemma_members_agree(new_task, new_other, "status"@);
    lemma_members_agree(old_task, old_other, "start"@);
    lemma_members_agree(new_task, new_other, "start"@);
    lemma_members_agree(old_task, old_other, "description"@);
    lemma_members_agree(new_task, new_other, "description"@);
    lemma_members_agree(old_task, old_other, LINEAR_DESCRIPTION@);
    lemma_members_agree(new_task, new_other, LINEAR_DESCRIPTION@);
    lemma_members_agree(new_task, new_other, LINEAR_COMMENT@);
    lemma_annotations_agree(old_task, old_other);
    lemma_annotations_agree(new_task, new_other);
}

/// The line that the hook prints asks for nothing more, whatever numbers the task holds: where
/// it is read again as the task before and after a change, nothing is posted again.
pub proof fn law_printed_task_asks_nothing(
    task: JsonView,
    line: Seq<char>,
    issue_id: Seq<char>,
    config: ConfigView,
)
    requires
        reads_back(line, settled_view(task)),
    ensures
        json_of_text(line) matches Some(back) ==> planned_calls(back, back, issue_id, config)
            == Seq::<SyncCallView>::empty(),
{
    if let Some(back) = json_of_text(line) {
        let settled = settled_view(task);
        law_numbers_make_no_difference(back, back, settled, settled, issue_id, config);
        law_settled_task_asks_nothing(task, issue_id, config);
    }
}

/// Settling a task changes no member but the comment, and a settled task settles to itself.
pub proof fn law_settling_keeps_the_rest(task: JsonView, name: Seq<char>)
    ensures
        name != LINEAR_COMMENT@ ==> settled_view(task).get(name) == task.get(name),
        pending_comment(settled_view(task)).len() == 0,
        settled_view(settled_view(task)) == settled_view(task),
{
}

/// Every call is about the issue of the task.
pub proof fn law_calls_name_the_issue(
    old_task: JsonView,
    new_task: JsonView,
    issue_id: Seq<char>,
    config: ConfigView,
    i: int,
)
    requires
        0 <= i < planned_calls(old_task, new_task, issue_id, config).len(),
    ensures
        planned_calls(old_task, new_task, issue_id, config)[i].issue_id == issue_id,
{
    lemma_annotation_calls_comment(
        annotations_view(old_task),
        annotations_view(new_task),
        issue_id,
    );
}

/// The issue is moved to the state of finished issues exactly when the task becomes completed,
/// and then once.
pub proof fn law_completion_is_sent_once(
    old_task: JsonView,
    new_task: JsonView,
    issue_id: Seq<char>,
    config: ConfigView,
)
    ensures
        ({
            let calls = planned_calls(old_task, new_task, issue_id, config);
            &&& becomes_completed(old_task, new_task) ==> calls.len() > 0 && calls[0].change
                == (ChangeView::Complete { state_id: config.done_state_id })
            &&& forall|i: int|
                0 <= i < calls.len() && (#[trigger] calls[i]).change is Complete
                    ==> becomes_completed(old_task, new_task) && i == 0
        }),
{
    lemma_annotation_calls_comment(
        annotations_view(old_task),
        annotations_view(new_task),
        issue_id,
    );
}

/// The issue is moved to the state of started issues only when the task is started and the
/// settings have such a state, and then at most once.
pub proof fn law_start_is_sent_once(
    old_task: JsonView,
    new_task: JsonView,
    issue_id: Seq<char>,
    config: ConfigView,
)
    ensures
        ({
            let calls = planned_calls(old_task, new_task, issue_id, config);
            &&& forall|i: int|
                0 <= i < calls.len() && (#[trigger] calls[i]).change is Start ==> becomes_active(
                    old_task,
                    new_task,
                ) && calls[i].change == (ChangeView::Start {
                    state_id: config.in_progress_state_id->0,
                }) && config.in_progress_state_id is Some
            &&& forall|i: int, j: int|
                0 <= i < calls.len() && 0 <= j < calls.len() && (#[trigger] calls[i]).change is Start
                    && (#[trigger] calls[j]).change is Start ==> i == j
            &&& becomes_active(old_task, new_task) && config.in_progress_state_id is Some
                ==> exists|i: int|
                0 <= i < calls.len() && (#[trigger] calls[i]).change is Start
        }),
{
    lemma_annotation_calls_comment(
        annotations_view(old_task),
        annotations_view(new_task),
        issue_id,
    );
    lemma_planned_pieces(old_task, new_task, issue_id, config);
    let calls = planned_calls(old_task, new_task, issue_id, config);
    let at = one_if(becomes_completed(old_task, new_task));
    let asked = becomes_active(old_task, new_task) && config.in_progress_state_id is Some;
    assert forall|i: int| 0 <= i < calls.len() && (#[trigger] calls[i]).change is Start implies i
        == at && asked by {
    }
    if asked {
        assert(calls[at].change is Start);
    }
}

/// Every annotation with an entry that the task did not have before is posted as a comment.
pub proof fn law_new_annotation_is_posted(
    old_task: JsonView,
    new_task: JsonView,
    issue_id: Seq<char>,
    config: ConfigView,
    k: int,
)
    requires
        0 <= k < annotations_view(new_task).len(),
        !has_entry(annotations_view(old_task), annotations_view(new_task)[k].0),
    ensures
        planned_calls(old_task, new_task, issue_id, config).contains(
            (SyncCallView {
                issue_id,
                change: ChangeView::Comment { body: annotations_view(new_task)[k].1 },
            }),
        ),
{
    let old = annotations_view(old_task);
    let new = annotations_view(new_task);
    let posted = annotation_calls(old, new, issue_id);
    let calls = planned_calls(old_task, new_task, issue_id, config);
    lemma_new_annotation_call(old, new, issue_id, k);
    let i = choose|i: int|
        0 <= i < posted.len() && posted[i] == (SyncCallView {
            issue_id,
            change: ChangeView::Comment { body: new[k].1 },
        });
    let before = calls.len() - posted.len();
    assert(calls[before + i] == posted[i]);
}

/// Every comment that is posted is the one that waited in the task or the body of an annotation
/// with an entry that the task did not have before.
pub proof fn law_comments_are_new(
    old_task: JsonView,
    new_task: JsonView,
    issue_id: Seq<char>,
    config: ConfigView,
    i: int,
)
    requires
        0 <= i < planned_calls(old_task, new_task, issue_id, config).len(),
        planned_calls(old_task, new_task, issue_id, config)[i].change is Comment,
    ensures
        ({
            let body = planned_calls(old_task, new_task, issue_id, config)[i].change->body;
            ||| pending_comment(new_task).len() > 0 && body == pending_comment(new_task)
            ||| exists|k: int|
                0 <= k < annotations_view(new_task).len() && (#[trigger] annotations_view(
                    new_task,
                )[k]).1 == body && !has_entry(
                    annotations_view(old_task),
                    annotations_view(new_task)[k].0,
                )
        }),
{
    let old = annotations_view(old_task);
    let new = annotations_view(new_task);
    let posted = annotation_calls(old, new, issue_id);
    let calls = planned_calls(old_task, new_task, issue_id, config);
    let before = calls.len() - posted.len();
    if i >= before {
        assert(calls[i] == posted[i - before]);
        lemma_annotation_call_source(old, new, issue_id, i - before);
    }
}

/// Exactly the annotations with an entry that the task did not have before are posted, each
/// once and in order.
pub proof fn law_annotations_are_posted_once(
    old: Seq<(Seq<char>, Seq<char>)>,
    new: Seq<(Seq<char>, Seq<char>)>,
    issue_id: Seq<char>,
)
    ensures
        annotation_calls(old, new, issue_id) == new.filter(
            |a: (Seq<char>, Seq<char>)| !has_entry(old, a.0),
        ).map_values(
            |a: (Seq<char>, Seq<char>)|
                (SyncCallView { issue_id, change: ChangeView::Comment { body: a.1 } }),
        ),
    decreases new.len(),
{
    reveal(Seq::filter);
    let is_new = |a: (Seq<char>, Seq<char>)| !has_entry(old, a.0);
    let comment = |a: (Seq<char>, Seq<char>)|
        (SyncCallView { issue_id, change: ChangeView::Comment { body: a.1 } });
    if new.len() > 0 {
        law_annotations_are_posted_once(old, new.drop_last(), issue_id);
    }
    assert(annotation_calls(old, new, issue_id) =~= new.filter(is_new).map_values(comment));
}

proof fn lemma_known_annotations_ask_nothing(
    old: Seq<(Seq<char>, Seq<char>)>,
    new: Seq<(Seq<char>, Seq<char>)>,
    issue_id: Seq<char>,
)
    requires
        forall|k: int| 0 <= k < new.len() ==> has_entry(old, (#[trigger] new[k]).0),
    ensures
        annotation_calls(old, new, issue_id) == Seq::<SyncCallView>::empty(),
    decreases new.len(),
{
    if new.len() > 0 {
        assert(new.last() == new[new.len() - 1]);
        lemma_known_annotations_ask_nothing(old, new.drop_last(), issue_id);
        assert(annotation_calls(old, new, issue_id) =~= Seq::<SyncCallView>::empty());
    }
}

proof fn lemma_annotation_calls_comment(
    old: Seq<(Seq<char>, Seq<char>)>,
    new: Seq<(Seq<char>, Seq<char>)>,
    issue_id: Seq<char>,
)
    ensures
        forall|i: int|
            0 <= i < annotation_calls(old, new, issue_id).len() ==> (#[trigger] annotation_calls(
                old,
                new,
                issue_id,
            )[i]).change is Comment && annotation_calls(old, new, issue_id)[i].issue_id
                == issue_id,
    decreases new.len(),
{
    if new.len() > 0 {
        lemma_annotation_calls_comment(old, new.drop_last(), issue_id);
    }
}

proof fn lemma_new_annotation_call(
    old: Seq<(Seq<char>, Seq<char>)>,
    new: Seq<(Seq<char>, Seq<char>)>,
    issue_id: Seq<char>,
    k: int,
)
    requires
        0 <= k < new.len(),
        !has_entry(old, new[k].0),
    ensures
        annotation_calls(old, new, issue_id).contains(
            (SyncCallView { issue_id, change: ChangeView::Comment { body: new[k].1 } }),
        ),
    decreases new.len(),
{
    let call = SyncCallView { issue_id, change: ChangeView::Comment { body: new[k].1 } };
    let rest = annotation_calls(old, new.drop_last(), issue_id);
    let calls = annotation_calls(old, new, issue_id);
    if k == new.len() - 1 {
        assert(calls[rest.len() as int] == call);
    } else {
        lemma_new_annotation_call(old, new.drop_last(), issue_id, k);
        let i = choose|i: int| 0 <= i < rest.len() && rest[i] == call;
        assert(calls[i] == call);
    }
}

proof fn lemma_annotation_call_source(
    old: Seq<(Seq<char>, Seq<char>)>,
    new: Seq<(Seq<char>, Seq<char>)>,
    issue_id: Seq<char>,
    i: int,
)
    requires
        0 <= i < annotation_calls(old, new, issue_id).len(),
    ensures
        exists|k: int|
            0 <= k < new.len() && annotation_calls(old, new, issue_id)[i] == (SyncCallView {
                issue_id,
                change: ChangeView::Comment { body: (#[trigger] new[k]).1 },
            }) && !has_entry(old, new[k].0),
    decreases new.len(),
{
    let shorter = new.drop_last();
    let rest = annotation_calls(old, shorter, issue_id);
    if i < rest.len() {
        lemma_annotation_call_source(old, shorter, issue_id, i);
        let k = choose|k: int|
            0 <= k < shorter.len() && rest[i] == (SyncCallView {
                issue_id,
                change: ChangeView::Comment { body: (#[trigger] shorter[k]).1 },
            }) && !has_entry(old, shorter[k].0);
        assert(new[k] == shorter[k]);
    } else {
        assert(new[new.len() - 1] == new.last());
    }
}

// ---- laws on what is handed out ----

/// Whether a task has no annotation with this entry.
pub open spec fn is_new_entry(task: JsonView, entry: Seq<char>) -> bool {
    forall|body: Seq<char>| !is_annotation(task, entry, body)
}

/// Whether a value has a member that is this text.
pub open spec fn has_text(task: JsonView, name: Seq<char>, text: Seq<char>) -> bool {
    task.get(name) == Some(JsonView::Text(text))
}

/// Whether a value has a member that is a text.
pub open spec fn has_some_text(task: JsonView, name: Seq<char>) -> bool {
    task.get(name) matches Some(value) && value is Text
}

/// One for what holds, none for what does not.
pub open spec fn one_if(holds: bool) -> int {
    if holds {
        1
    } else {
        0
    }
}

proof fn lemma_planned_pieces(
    old_task: JsonView,
    new_task: JsonView,
    issue_id: Seq<char>,
    config: ConfigView,
)
    ensures
        ({
            let planned = planned_calls(old_task, new_task, issue_id, config);
            let posted = annotation_calls(
                annotations_view(old_task),
                annotations_view(new_task),
                issue_id,
            );
            let title = new_task.text_or_empty("description"@);
            let description = new_task.text_or_empty(LINEAR_DESCRIPTION@);
            let a = one_if(becomes_completed(old_task, new_task));
            let b = a + one_if(
                becomes_active(old_task, new_task) && config.in_progress_state_id is Some,
            );
            let c = b + one_if(becomes_other(old_task, new_task, "description"@));
            let d = c + one_if(becomes_other(old_task, new_task, LINEAR_DESCRIPTION@));
            let e = d + one_if(pending_comment(new_task).len() > 0);
            &&& planned.len() == e + posted.len()
            &&& a > 0 ==> planned[0].change == (ChangeView::Complete {
                state_id: config.done_state_id,
            })
            &&& b > a ==> planned[a].change == (ChangeView::Start {
                state_id: config.in_progress_state_id->0,
            })
            &&& c > b ==> planned[b].change == (ChangeView::Title { title })
            &&& d > c ==> planned[c].change == (ChangeView::Description { description })
            &&& e > d ==> planned[d].change == (ChangeView::Comment {
                body: pending_comment(new_task),
            })
            &&& forall|i: int| e <= i < planned.len() ==> (#[trigger] planned[i]) == posted[i - e]
        }),
{
}

proof fn lemma_plan_pieces(
    old_task: &Json,
    new_task: &Json,
    issue_id: &str,
    config: &Config,
    calls: Vec<SyncCall>,
)
    requires
        call_ensures(plan_calls, (old_task, new_task, issue_id, config), calls),
    ensures
        ({
            let posted = annotation_calls(
                annotations_view(old_task@),
                annotations_view(new_task@),
                issue_id@,
            );
            let title = new_task@.text_or_empty("description"@);
            let description = new_task@.text_or_empty(LINEAR_DESCRIPTION@);
            let a = one_if(becomes_completed(old_task@, new_task@));
            let b = a + one_if(
                becomes_active(old_task@, new_task@) && config@.in_progress_state_id is Some,
            );
            let c = b + one_if(becomes_other(old_task@, new_task@, "description"@));
            let d = c + one_if(becomes_other(old_task@, new_task@, LINEAR_DESCRIPTION@));
            let e = d + one_if(pending_comment(new_task@).len() > 0);
            &&& calls@.len() == e + posted.len()
            &&& forall|i: int|
                0 <= i < calls@.len() ==> (#[trigger] calls@[i])@.issue_id == issue_id@
            &&& a > 0 ==> calls@[0]@.change == (ChangeView::Complete {
                state_id: config@.done_state_id,
            })
            &&& b > a ==> calls@[a]@.change == (ChangeView::Start {
                state_id: config@.in_progress_state_id->0,
            })
            &&& c > b ==> calls@[b]@.change == (ChangeView::Title { title })
            &&& d > c ==> calls@[c]@.change == (ChangeView::Description { description })
            &&& e > d ==> calls@[d]@.change == (ChangeView::Comment {
                body: pending_comment(new_task@),
            })
            &&& forall|i: int| e <= i < calls@.len() ==> (#[trigger] calls@[i])@ == posted[i - e]
        }),
{
    let planned = planned_calls(old_task@, new_task@, issue_id@, config@);
    assert(call_views(calls@) == planned);
    assert(calls@.len() == planned.len());
    assert forall|i: int| 0 <= i < calls@.len() implies (#[trigger] calls@[i])@ == planned[i] by {
        assert(call_views(calls@)[i] == planned[i]);
    }
    lemma_planned_pieces(old_task@, new_task@, issue_id@, config@);
    assert forall|i: int| 0 <= i < calls@.len() implies (#[trigger] calls@[i])@.issue_id
        == issue_id@ by {
        law_calls_name_the_issue(old_task@, new_task@, issue_id@, config@, i);
    }
}

/// Every call that is planned is about the issue of the task.
pub proof fn law_planned_calls_name_the_issue(
    old_task: &Json,
    new_task: &Json,
    issue_id: &str,
    config: &Config,
    calls: Vec<SyncCall>,
    i: int,
)
    requires
        call_ensures(plan_calls, (old_task, new_task, issue_id, config), calls),
        0 <= i < calls@.len(),
    ensures
        calls@[i].issue_id@ == issue_id@,
{
    lemma_plan_pieces(old_task, new_task, issue_id, config, calls);
    assert(calls@[i]@.issue_id == issue_id@);
}

/// A task whose status becomes "completed", whatever else it holds, moves its issue to the state
/// of finished issues, first of all and once; no other change does.
pub proof fn law_completed_task_completes_its_issue(
    old_task: &Json,
    new_task: &Json,
    issue_id: &str,
    config: &Config,
    calls: Vec<SyncCall>,
)
    requires
        call_ensures(plan_calls, (old_task, new_task, issue_id, config), calls),
    ensures
        !has_text(old_task@, "status"@, "completed"@) && has_text(
            new_task@,
            "status"@,
            "completed"@,
        ) ==> calls@.len() > 0 && (calls@[0].change matches Change::Complete { state_id }
            && state_id@ == config.done_state_id@),
        forall|i: int|
            0 <= i < calls@.len() && (#[trigger] calls@[i]).change is Complete ==> i == 0
                && !has_text(old_task@, "status"@, "completed"@) && has_text(
                new_task@,
                "status"@,
                "completed"@,
            ),
{
    reveal_strlit("completed");
    assert("completed"@.len() == 9);
    lemma_plan_pieces(old_task, new_task, issue_id, config, calls);
    lemma_annotation_calls_comment(
        annotations_view(old_task@),
        annotations_view(new_task@),
        issue_id@,
    );
    assert forall|i: int|
        0 <= i < calls@.len() && (#[trigger] calls@[i]).change is Complete implies i == 0
        && becomes_completed(old_task@, new_task@) by {
        assert(calls@[i]@.change is Complete);
    }
    if becomes_completed(old_task@, new_task@) {
        assert(calls@[0]@.change is Complete);
    }
}

/// A task that is started, whatever else it holds, moves its issue to the state of started
/// issues, once, if the settings have such a state; no other change does.
pub proof fn law_started_task_starts_its_issue(
    old_task: &Json,
    new_task: &Json,
    issue_id: &str,
    config: &Config,
    calls: Vec<SyncCall>,
)
    requires
        call_ensures(plan_calls, (old_task, new_task, issue_id, config), calls),
    ensures
        !has_some_text(old_task@, "start"@) && has_some_text(new_task@, "start"@)
            && config.in_progress_state_id is Some ==> exists|i: int|
            0 <= i < calls@.len() && ((#[trigger] calls@[i]).change matches Change::Start {
                state_id,
            } && state_id@ == (config.in_progress_state_id->0)@),
        forall|i: int|
            0 <= i < calls@.len() && (#[trigger] calls@[i]).change is Start ==> !has_some_text(
                old_task@,
                "start"@,
            ) && has_some_text(new_task@, "start"@) && config.in_progress_state_id is Some
                && calls@[i].change->Start_state_id@ == (config.in_progress_state_id->0)@,
        forall|i: int, j: int|
            0 <= i < calls@.len() && 0 <= j < calls@.len() && (#[trigger] calls@[i]).change is Start
                && (#[trigger] calls@[j]).change is Start ==> i == j,
{
    lemma_plan_pieces(old_task, new_task, issue_id, config, calls);
    lemma_annotation_calls_comment(
        annotations_view(old_task@),
        annotations_view(new_task@),
        issue_id@,
    );
    let a = one_if(becomes_completed(old_task@, new_task@));
    let asked = becomes_active(old_task@, new_task@) && config@.in_progress_state_id is Some;
    assert forall|i: int|
        0 <= i < calls@.len() && (#[trigger] calls@[i]).change is Start implies i == a && asked
        && calls@[i].change->Start_state_id@ == (config.in_progress_state_id->0)@ by {
        assert(calls@[i]@.change is Start);
    }
    if asked {
        assert(calls@[a]@.change is Start);
        assert(calls@[a].change is Start);
    }
}

/// A task whose description becomes another text that is not empty gives its issue that title,
/// once; no other change gives it one.
pub proof fn law_new_title_is_sent(
    old_task: &Json,
    new_task: &Json,
    issue_id: &str,
    config: &Config,
    calls: Vec<SyncCall>,
    title: Seq<char>,
)
    requires
        call_ensures(plan_calls, (old_task, new_task, issue_id, config), calls),
    ensures
        title.len() > 0 && has_text(new_task@, "description"@, title) && !has_text(
            old_task@,
            "description"@,
            title,
        ) <==> exists|i: int|
            0 <= i < calls@.len() && ((#[trigger] calls@[i]).change matches Change::Title {
                title: sent,
            } && sent@ == title),
        forall|i: int, j: int|
            0 <= i < calls@.len() && 0 <= j < calls@.len() && (#[trigger] calls@[i]).change is Title
                && (#[trigger] calls@[j]).change is Title ==> i == j,
{
    lemma_plan_pieces(old_task, new_task, issue_id, config, calls);
    lemma_annotation_calls_comment(
        annotations_view(old_task@),
        annotations_view(new_task@),
        issue_id@,
    );
    let b = one_if(becomes_completed(old_task@, new_task@)) + one_if(
        becomes_active(old_task@, new_task@) && config@.in_progress_state_id is Some,
    );
    let asked = becomes_other(old_task@, new_task@, "description"@);
    let text = new_task@.text_or_empty("description"@);
    assert forall|i: int|
        0 <= i < calls@.len() && (#[trigger] calls@[i]).change is Title implies i == b && asked
        && calls@[i].change->title@ == text by {
        assert(calls@[i]@.change is Title);
    }
    if asked {
        assert(calls@[b]@.change is Title);
        assert(calls@[b].change is Title);
        assert(calls@[b].change->title@ == text);
    }
}

/// A task whose `lineardescription` becomes another text that is not empty gives its issue that
/// description, once; no other change gives it one.
pub proof fn law_new_description_is_sent(
    old_task: &Json,
    new_task: &Json,
    issue_id: &str,
    config: &Config,
    calls: Vec<SyncCall>,
    description: Seq<char>,
)
    requires
        call_ensures(plan_calls, (old_task, new_task, issue_id, config), calls),
    ensures
        description.len() > 0 && has_text(new_task@, "lineardescription"@, description)
            && !has_text(old_task@, "lineardescription"@, description) <==> exists|i: int|
            0 <= i < calls@.len() && ((#[trigger] calls@[i]).change matches Change::Description {
                description: sent,
            } && sent@ == description),
        forall|i: int, j: int|
            0 <= i < calls@.len() && 0 <= j < calls@.len() && (#[trigger] calls@[i]).change
                is Description && (#[trigger] calls@[j]).change is Description ==> i == j,
{
    lemma_plan_pieces(old_task, new_task, issue_id, config, calls);
    lemma_annotation_calls_comment(
        annotations_view(old_task@),
        annotations_view(new_task@),
        issue_id@,
    );
    let c = one_if(becomes_completed(old_task@, new_task@)) + one_if(
        becomes_active(old_task@, new_task@) && config@.in_progress_state_id is Some,
    ) + one_if(becomes_other(old_task@, new_task@, "description"@));
    let asked = becomes_other(old_task@, new_task@, LINEAR_DESCRIPTION@);
    let text = new_task@.text_or_empty(LINEAR_DESCRIPTION@);
    assert forall|i: int|
        0 <= i < calls@.len() && (#[trigger] calls@[i]).change is Description implies i == c
        && asked && calls@[i].change->description@ == text by {
        assert(calls@[i]@.change is Description);
    }
    if asked {
        assert(calls@[c]@.change is Description);
        assert(calls@[c].change is Description);
        assert(calls@[c].change->description@ == text);
    }
}

/// A comment that waits in the task is posted, before any other.
pub proof fn law_waiting_comment_is_posted(
    old_task: &Json,
    new_task: &Json,
    issue_id: &str,
    config: &Config,
    calls: Vec<SyncCall>,
    comment: Seq<char>,
)
    requires
        call_ensures(plan_calls, (old_task, new_task, issue_id, config), calls),
        comment.len() > 0,
        has_text(new_task@, "linearcomment"@, comment),
    ensures
        exists|i: int|
            0 <= i < calls@.len() && ((#[trigger] calls@[i]).change matches Change::Comment { body }
                && body@ == comment) && (forall|j: int|
                0 <= j < i ==> (#[trigger] calls@[j]).change !is Comment),
{
    lemma_plan_pieces(old_task, new_task, issue_id, config, calls);
    let d = one_if(becomes_completed(old_task@, new_task@)) + one_if(
        becomes_active(old_task@, new_task@) && config@.in_progress_state_id is Some,
    ) + one_if(becomes_other(old_task@, new_task@, "description"@)) + one_if(
        becomes_other(old_task@, new_task@, LINEAR_DESCRIPTION@),
    );
    assert(pending_comment(new_task@) == comment);
    assert(calls@[d]@.change == (ChangeView::Comment { body: comment }));
    assert(calls@[d].change is Comment);
    assert forall|j: int| 0 <= j < d implies (#[trigger] calls@[j]).change !is Comment by {
        assert(calls@[j]@.change !is Comment);
    }
}

/// The annotations among `set` with an entry that a task does not have.
pub open spec fn new_annotations(old_task: JsonView, set: Seq<(String, String)>) -> Seq<
    (String, String),
> {
    set.filter(|p: (String, String)| is_new_entry(old_task, p.0@))
}

/// The last calls post the annotations with an entry that the task did not have, all of them,
/// each once; and no comment is posted beside these but the one that waits in the task.
pub proof fn law_new_annotations_are_posted(
    old_task: &Json,
    new_task: &Json,
    issue_id: &str,
    config: &Config,
    calls: Vec<SyncCall>,
    set: Vec<(String, String)>,
)
    requires
        call_ensures(plan_calls, (old_task, new_task, issue_id, config), calls),
        call_ensures(annotations_set, (new_task,), set),
    ensures
        ({
            let fresh = new_annotations(old_task@, set@);
            let first = calls@.len() - fresh.len();
            &&& first >= 0
            &&& forall|k: int|
                0 <= k < fresh.len() ==> ((#[trigger] calls@[first + k]).change matches Change::Comment {
                    body,
                } && body@ == fresh[k].1@)
            &&& forall|i: int|
                0 <= i < first && (#[trigger] calls@[i]).change is Comment ==> i == first - 1
                    && calls@[i].change->body@.len() > 0 && has_text(
                    new_task@,
                    "linearcomment"@,
                    calls@[i].change->body@,
                )
        }),
{
    lemma_plan_pieces(old_task, new_task, issue_id, config, calls);
    let posted = annotation_calls(
        annotations_view(old_task@),
        annotations_view(new_task@),
        issue_id@,
    );
    let fresh = new_annotations(old_task@, set@);
    assert(pair_texts(set@) == annotations_view(new_task@));
    lemma_posted_annotations(old_task@, set@, issue_id@);
    let first = calls@.len() - fresh.len();
    assert forall|k: int| 0 <= k < fresh.len() implies ((
    #[trigger] calls@[first + k]).change matches Change::Comment { body } && body@
        == fresh[k].1@) by {
        assert(calls@[first + k]@ == posted[k]);
        assert(posted[k].change == (ChangeView::Comment { body: fresh[k].1@ }));
    }
    assert forall|i: int| 0 <= i < first && (#[trigger] calls@[i]).change is Comment implies i
        == first - 1 && calls@[i].change->body@ == pending_comment(new_task@) && pending_comment(
        new_task@,
    ).len() > 0 by {
        assert(calls@[i]@.change is Comment);
    }
}

proof fn lemma_posted_annotations(
    old_task: JsonView,
    set: Seq<(String, String)>,
    issue_id: Seq<char>,
)
    ensures
        ({
            let posted = annotation_calls(annotations_view(old_task), pair_texts(set), issue_id);
            let fresh = new_annotations(old_task, set);
            &&& posted.len() == fresh.len()
            &&& forall|k: int|
                0 <= k < fresh.len() ==> (#[trigger] posted[k]).change == (ChangeView::Comment {
                    body: fresh[k].1@,
                })
        }),
    decreases set.len(),
{
    reveal(Seq::filter);
    if set.len() > 0 {
        let rest = set.drop_last();
        lemma_posted_annotations(old_task, rest, issue_id);
        assert(pair_texts(set).drop_last() =~= pair_texts(rest));
        assert(pair_texts(set).last() == (set.last().0@, set.last().1@));
        lemma_annotations_are_those(old_task, set.last().0@, set.last().1@);
    }
}

/// As many calls are planned as there are changes: one for each of completion, start, title,
/// description and waiting comment, and one for each new annotation.
pub proof fn law_as_many_calls_as_changes(
    old_task: &Json,
    new_task: &Json,
    issue_id: &str,
    config: &Config,
    calls: Vec<SyncCall>,
    set: Vec<(String, String)>,
)
    requires
        call_ensures(plan_calls, (old_task, new_task, issue_id, config), calls),
        call_ensures(annotations_set, (new_task,), set),
    ensures
        calls@.len() == one_if(
            !has_text(old_task@, "status"@, "completed"@) && has_text(
                new_task@,
                "status"@,
                "completed"@,
            ),
        ) + one_if(
            !has_some_text(old_task@, "start"@) && has_some_text(new_task@, "start"@)
                && config.in_progress_state_id is Some,
        ) + one_if(
            has_some_text(new_task@, "description"@) && !has_text(
                new_task@,
                "description"@,
                Seq::empty(),
            ) && new_task@.get("description"@) != old_task@.get("description"@),
        ) + one_if(
            has_some_text(new_task@, "lineardescription"@) && !has_text(
                new_task@,
                "lineardescription"@,
                Seq::empty(),
            ) && new_task@.get("lineardescription"@) != old_task@.get("lineardescription"@),
        ) + one_if(
            has_some_text(new_task@, "linearcomment"@) && !has_text(
                new_task@,
                "linearcomment"@,
                Seq::empty(),
            ),
        ) + new_annotations(old_task@, set@).len(),
{
    reveal_strlit("completed");
    assert("completed"@.len() == 9);
    lemma_plan_pieces(old_task, new_task, issue_id, config, calls);
    assert(pair_texts(set@) == annotations_view(new_task@));
    lemma_posted_annotations(old_task@, set@, issue_id@);
    lemma_text_is_empty(new_task@, "description"@);
    lemma_text_is_empty(new_task@, "lineardescription"@);
    lemma_text_is_empty(new_task@, "linearcomment"@);
}

proof fn lemma_text_is_empty(task: JsonView, name: Seq<char>)
    ensures
        has_some_text(task, name) && !has_text(task, name, Seq::empty()) <==> task.text_or_empty(
            name,
        ).len() > 0,
{
    if has_some_text(task, name) && task.text_or_empty(name).len() == 0 {
        assert(task.text_or_empty(name) =~= Seq::empty());
    }
}

/// The place of a change in the order of calls.
pub open spec fn place(change: Change) -> int {
    match change {
        Change::Complete { .. } => 0,
        Change::Start { .. } => 1,
        Change::Title { .. } => 2,
        Change::Description { .. } => 3,
        Change::Comment { .. } => 4,
    }
}

/// Completion comes first, then start, title and description, and the comments last.
pub proof fn law_calls_come_in_order(
    old_task: &Json,
    new_task: &Json,
    issue_id: &str,
    config: &Config,
    calls: Vec<SyncCall>,
    i: int,
    j: int,
)
    requires
        call_ensures(plan_calls, (old_task, new_task, issue_id, config), calls),
        0 <= i < j < calls@.len(),
    ensures
        place(calls@[i].change) <= place(calls@[j].change),
{
    lemma_plan_pieces(old_task, new_task, issue_id, config, calls);
    lemma_annotation_calls_comment(
        annotations_view(old_task@),
        annotations_view(new_task@),
        issue_id@,
    );
    let first = calls@[i]@;
    let second = calls@[j]@;
}

/// The task is handed back without the comment that was posted, and with all else as it is; a
/// task without a comment to post is handed back as it is.
pub proof fn law_posted_comment_is_cleared(task: Json, r: Json, name: Seq<char>)
    requires
        call_ensures(settled_task, (task,), r),
    ensures
        has_some_text(task@, "linearcomment"@) && !has_text(
            task@,
            "linearcomment"@,
            Seq::empty(),
        ) ==> r@.get("linearcomment"@) is None,
        !(has_some_text(task@, "linearcomment"@) && !has_text(
            task@,
            "linearcomment"@,
            Seq::empty(),
        )) ==> r@ == task@,
        name != "linearcomment"@ ==> r@.get(name) == task@.get(name),
        task is Object ==> r is Object,
{
    lemma_text_is_empty(task@, "linearcomment"@);
}

/// A new task passes as it is, but for white space at its two ends.
pub proof fn law_added_line_passes(line: &str, output: String)
    requires
        call_ensures(on_add, (line,), output),
    ensures
        exists|i: int, j: int| is_core(line@, output@, i, j),
        output@.len() > 0 ==> !is_white_space(output@.first()) && !is_white_space(output@.last()),
{
    law_trimming_cuts_white_space_only(line@);
}

/// A changed task that names an issue is brought to that issue, with both tasks as they were
/// read; a task that names none passes as its line.
pub proof fn law_task_goes_to_its_issue(
    old_task: Json,
    new_task: Json,
    new_line: String,
    start: ModifyStart,
)
    requires
        call_ensures(start_modify, (old_task, new_task, new_line), start),
    ensures
        start is Sync <==> has_some_text(new_task@, "linearid"@),
        start matches ModifyStart::PassThrough(output) ==> output@ == new_line@,
        start matches ModifyStart::Sync(modification) ==> has_text(
            new_task@,
            "linearid"@,
            modification.issue_id@,
        ) && modification.old_task@ == old_task@ && modification.new_task@ == new_task@
            && modification.new_line@ == new_line@,
{
}

/// The first line is the task as it was and the second the task as it is to be; each missing or
/// broken line has its own error, the first line first.
pub proof fn law_lines_are_read(
    old_line: Option<&str>,
    new_line: Option<&str>,
    r: Result<ModifyStart, HookError>,
)
    requires
        call_ensures(on_modify, (old_line, new_line), r),
    ensures
        (r matches Err(HookError::MissingOriginal)) <==> old_line is None,
        (r matches Err(HookError::MissingModified)) <==> old_line is Some && new_line is None,
        old_line is Some && new_line is Some ==> {
            let old_text = (old_line->0)@;
            let new_text = (new_line->0)@;
            &&& (r matches Err(HookError::BadOriginal(_))) <==> json_of_text(trimmed(old_text))
                is None
            &&& (r matches Err(HookError::BadModified(_))) <==> json_of_text(trimmed(old_text))
                is Some && json_of_text(trimmed(new_text)) is None
            &&& r is Ok <==> json_of_text(trimmed(old_text)) is Some && json_of_text(
                trimmed(new_text),
            ) is Some
            &&& r matches Ok(ModifyStart::PassThrough(output)) ==> output@ == trimmed(new_text)
                && !has_some_text(json_of_text(trimmed(new_text))->0, "linearid"@)
            &&& r matches Ok(ModifyStart::Sync(modification)) ==> json_of_text(trimmed(old_text))
                == Some(modification.old_task@) && json_of_text(trimmed(new_text)) == Some(
                modification.new_task@,
            ) && modification.new_line@ == trimmed(new_text) && has_text(
                modification.new_task@,
                "linearid"@,
                modification.issue_id@,
            )
        },
{
}

/// With settings the hook makes the calls that are planned for the two tasks and the issue, and
/// prints a task that has every text of the new one but for the comment that was posted.
pub proof fn law_hook_makes_the_planned_calls(
    modification: Modification,
    config: &Config,
    plan: ModifyPlan,
    issue_id: &str,
    calls: Vec<SyncCall>,
    name: Seq<char>,
)
    requires
        call_ensures(finish_modify, (modification, Some(config)), plan),
        issue_id@ == modification.issue_id@,
        call_ensures(
            plan_calls,
            (&modification.old_task, &modification.new_task, issue_id, config),
            calls,
        ),
    ensures
        plan.calls@.len() == calls@.len(),
        forall|i: int|
            0 <= i < calls@.len() ==> (#[trigger] plan.calls@[i])@ == calls@[i]@,
        json_of_text(plan.output@) matches Some(back) ==> {
            &&& name != "linearcomment"@ ==> back.member(name).text()
                == modification.new_task@.member(name).text()
            &&& !has_some_text(back, "linearcomment"@) || has_text(
                back,
                "linearcomment"@,
                Seq::empty(),
            )
        },
{
    assert(call_views(plan.calls@) == call_views(calls@));
    assert(call_views(plan.calls@).len() == plan.calls@.len());
    assert forall|i: int| 0 <= i < calls@.len() implies (#[trigger] plan.calls@[i])@
        == calls@[i]@ by {
        assert(call_views(plan.calls@)[i] == call_views(calls@)[i]);
    }
    if let Some(back) = json_of_text(plan.output@) {
        let settled = settled_view(modification.new_task@);
        lemma_members_agree(back, settled, name);
        lemma_members_agree(back, settled, LINEAR_COMMENT@);
        lemma_text_is_empty(back, "linearcomment"@);
    }
}

/// A call is, field by field, what it holds.
pub proof fn law_call_is_what_it_holds(call: SyncCall)
    ensures
        call@.issue_id == call.issue_id@,
        match call.change {
            Change::Complete { state_id } => call@.change == (ChangeView::Complete {
                state_id: state_id@,
            }),
            Change::Start { state_id } => call@.change == (ChangeView::Start {
                state_id: state_id@,
            }),
            Change::Title { title } => call@.change == (ChangeView::Title { title: title@ }),
            Change::Description { description } => call@.change == (ChangeView::Description {
                description: description@,
            }),
            Change::Comment { body } => call@.change == (ChangeView::Comment { body: body@ }),
        },
{
}

/// Without settings nothing is called and the line passes as it is.
pub proof fn law_hook_without_settings_passes(modification: Modification, plan: ModifyPlan)
    requires
        call_ensures(finish_modify, (modification, None), plan),
    ensures
        plan.calls@.len() == 0,
        plan.output@ == modification.new_line@,
{
}

/// A call goes out as the request of its kind, under the id of its issue and with what it holds.
pub proof fn law_call_goes_out(call: &SyncCall, client: &LinearClient, r: ApiRequest)
    requires
        call_ensures(SyncCall::request, (call, client), r),
    ensures
        match call.change {
            Change::Complete { state_id } => is_sent(r, client.token(), SET_ISSUE_STATE_QUERY@)
                && sent_variable(r, "id"@) == Some(JsonView::Text(call.issue_id@))
                && sent_variable(r, "stateId"@) == Some(JsonView::Text(state_id@)),
            Change::Start { state_id } => is_sent(r, client.token(), SET_ISSUE_STATE_QUERY@)
                && sent_variable(r, "id"@) == Some(JsonView::Text(call.issue_id@))
                && sent_variable(r, "stateId"@) == Some(JsonView::Text(state_id@)),
            Change::Title { title } => is_sent(r, client.token(), UPDATE_ISSUE_QUERY@)
                && sent_variable(r, "id"@) == Some(JsonView::Text(call.issue_id@))
                && sent_variable(r, "title"@) == Some(JsonView::Text(title@))
                && sent_variable(r, "description"@) == Some(JsonView::Null),
            Change::Description { description } => is_sent(r, client.token(), UPDATE_ISSUE_QUERY@)
                && sent_variable(r, "id"@) == Some(JsonView::Text(call.issue_id@))
                && sent_variable(r, "title"@) == Some(JsonView::Null)
                && sent_variable(r, "description"@) == Some(JsonView::Text(description@)),
            Change::Comment { body } => is_sent(r, client.token(), CREATE_COMMENT_QUERY@)
                && sent_variable(r, "issueId"@) == Some(JsonView::Text(call.issue_id@))
                && sent_variable(r, "body"@) == Some(JsonView::Text(body@)),
        },
{
    lemma_name_lengths();
}

/// The reply to a move must confirm it, that to a comment gives the comment, and that to another
/// change gives nothing.
pub proof fn law_call_is_settled(call: &SyncCall, data: Json, r: Result<Option<Json>, ApiError>)
    requires
        call_ensures(SyncCall::settle, (call, data), r),
    ensures
        call.change is Complete || call.change is Start ==> (r is Ok <==> (data@.get(
            "issueUpdate"@,
        ) matches Some(update) && update.get("success"@) == Some(JsonView::Bool(true)))),
        call.change is Comment ==> (r matches Ok(Some(comment)) && comment@ == part_of(
            data@,
            "commentCreate"@,
            "comment"@,
        )),
        call.change is Title || call.change is Description ==> r is Ok,
        call.change !is Comment && r is Ok ==> r->Ok_0 is None,
        r is Err ==> r->Err_0 is NotUpdated,
{
}

/// What the user is told of a call that was done names what was done, and of a comment its id.
pub proof fn law_done_calls_are_told(call: &SyncCall, comment_id: &str, r: String)
    requires
        call_ensures(SyncCall::done_notice, (call, comment_id), r),
    ensures
        match call.change {
            Change::Complete { .. } => r@ == "linear-sync: marked Linear issue as completed"@,
            Change::Start { .. } => r@ == "linear-sync: moved Linear issue to in-progress"@,
            Change::Title { .. } => r@ == "linear-sync: updated Linear issue title"@,
            Change::Description { .. } => r@ == "linear-sync: updated Linear issue description"@,
            Change::Comment { .. } => r@ == "linear-sync: added comment "@ + comment_id@
                + " to Linear issue"@,
        },
{
}

/// What the user is told of a call that failed names what failed, and ends with the error.
pub proof fn law_failed_calls_are_told(call: &SyncCall, error: &str, r: String)
    requires
        call_ensures(SyncCall::failed_notice, (call, error), r),
    ensures
        match call.change {
            Change::Complete { .. } => r@ == "linear-sync: failed to complete Linear issue: "@
                + error@,
            Change::Start { .. } => r@ == "linear-sync: failed to set in-progress state: "@
                + error@,
            Change::Title { .. } => r@ == "linear-sync: failed to update Linear issue title: "@
                + error@,
            Change::Description { .. } => r@
                == "linear-sync: failed to update Linear issue description: "@ + error@,
            Change::Comment { .. } => r@ == "linear-sync: failed to create Linear comment: "@
                + error@,
        },
{
}

/// Each error of the hook, and the reason for which it is skipped, is told as it is.
pub proof fn law_hook_errors_are_told(error: &HookError, r: String, reason: &str, skipped: String)
    requires
        call_ensures(HookError::message, (error,), r),
        call_ensures(skip_notice, (reason,), skipped),
    ensures
        match *error {
            HookError::MissingOriginal => r@ == "Missing original task JSON"@,
            HookError::MissingModified => r@ == "Missing modified task JSON"@,
            HookError::BadOriginal(_) => r@ == "Failed to parse original task"@,
            HookError::BadModified(_) => r@ == "Failed to parse modified task"@,
        },
        skipped@ == "linear-sync: skipping on-modify ("@ + reason@ + ")"@,
{
}

/// With settings the hook prints the whole task as it is handed back, numbers and all.
pub proof fn law_hook_prints_the_settled_task(
    modification: Modification,
    config: &Config,
    plan: ModifyPlan,
    settled: Json,
    printed: String,
)
    requires
        call_ensures(finish_modify, (modification, Some(config)), plan),
        call_ensures(settled_task, (modification.new_task,), settled),
        call_ensures(Json::print, (settled,), printed),
    ensures
        plan.output@ == printed@,
{
}

} // verus!
