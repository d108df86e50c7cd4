use vstd::prelude::*;

verus! {

/// A person an issue can be assigned to.
pub struct User {
    pub name: String,
    pub email: String,
}

/// A workflow state such as "In Progress", with its kind
/// (`backlog`, `unstarted`, `started`, `completed`, `canceled`).
pub struct WorkflowState {
    pub name: String,
    pub state_type: String,
}

/// A label attached to an issue.
pub struct IssueLabel {
    pub name: String,
}

/// The labels of an issue, in the order the tracker lists them.
pub struct LabelConnection {
    pub nodes: Vec<IssueLabel>,
}

/// The team an issue belongs to.
pub struct Team {
    pub name: String,
}

/// An issue as the screens show it.
pub struct Issue {
    pub identifier: String,
    pub title: String,
    pub description: Option<String>,
    pub priority: Option<i32>,
    pub url: String,
    pub state: WorkflowState,
    pub assignee: Option<User>,
    pub team: Team,
    pub labels: LabelConnection,
}

/// The screen the interactive mode is in.
#[derive(Clone, Copy, Debug, PartialEq, Eq, Structural)]
pub enum AppMode {
    Normal,
    Search,
    Filter,
    Detail,
    Comment,
    Edit,
    EditField,
    SelectOption,
    ExternalEditor,
    Links,
}

/// The issue field being edited.
#[derive(Clone, Copy, Debug, PartialEq, Eq, Structural)]
pub enum EditField {
    Title,
    Description,
    Status,
    Assignee,
    Priority,
}

/// How the issue list is grouped.
#[derive(Clone, Copy, Debug, PartialEq, Eq, Structural)]
pub enum GroupBy {
    Status,
    Project,
}

} // verus!
