//! User intents that the application state interprets.
use vstd::prelude::*;

use crate::types::Category;

verus! {

/// Direction of a cursor movement.
#[derive(Clone, Copy, Debug, PartialEq, Eq, Structural)]
pub enum Direction {
    Up,
    Down,
    Left,
    Right,
}

/// Visibility of a GitHub repository.
#[derive(Clone, Copy, Debug, PartialEq, Eq, Structural)]
pub enum RepoVisibility {
    Public,
    Private,
}

/// State of a GitHub pull request.
#[derive(Clone, Copy, Debug, PartialEq, Eq, Structural)]
pub enum PullRequestState {
    Open,
    Closed,
    Merged,
}

/// Reason a GitHub notification was sent.
#[derive(Clone, Copy, Debug, PartialEq, Eq, Structural)]
pub enum Reason {
    Mention,
    ReviewRequested,
}

/// Which list a filter acts on.
#[derive(Clone, Copy, Debug, PartialEq, Eq, Structural)]
pub enum FilterLane {
    Feed,
    GithubNotification,
}

/// User intent interpreted by the current application state.
#[derive(Debug, Clone, PartialEq, Eq)]
pub enum Command {
    /// Asks for nothing: what a disabled binding requests.
    Nop,
    Shell(ShellCommand),
    Feeds(FeedsCommand),
    Filter(FilterCommand),
    Gh(GhCommand),
}

#[derive(Debug, Clone, Copy, PartialEq, Eq)]
pub enum ShellCommand {
    Quit,
    Authenticate,
    MoveAuthenticationProvider(Direction),
    MoveTabSelection(Direction),
    RotateTheme,
    ForceRedraw,
}

#[derive(Debug, Clone, Copy, PartialEq, Eq)]
pub enum FeedsCommand {
    MoveSubscribedFeed(Direction),
    MoveSubscribedFeedFirst,
    MoveSubscribedFeedLast,
    PromptFeedSubscription,
    PromptFeedEdition,
    PromptFeedUnsubscription,
    RefreshSelectedFeed,
    MoveFeedUnsubscriptionPopupSelection(Direction),
    SelectFeedUnsubscriptionPopup,
    CancelFeedUnsubscriptionPopup,
    ReloadSubscription,
    OpenFeed,
    ReloadEntries,
    MoveEntry(Direction),
    MoveEntryFirst,
    MoveEntryLast,
    OpenEntry,
    BrowseEntry,
}

#[derive(Debug, Clone, PartialEq, Eq)]
pub enum FilterCommand {
    MoveFilterRequirement(Direction),
    ActivateCategoryFiltering,
    ActivateSearchFiltering,
    PromptInsertChar(char),
    PromptDeleteBackward,
    DeactivateFiltering,
    ToggleFilterCategory { lane: FilterLane, category: Category },
    ActivateAllFilterCategories { lane: FilterLane },
    DeactivateAllFilterCategories { lane: FilterLane },
}

/// One GitHub notification-filter choice toggled by a user command.
#[derive(Debug, Clone, Copy, PartialEq, Eq)]
pub enum GhNotificationFilterOption {
    UnreadOnly,
    ParticipatingOnly,
    Visibility(RepoVisibility),
    PullRequestState(PullRequestState),
    Reason(Reason),
}

#[derive(Debug, Clone, Copy, PartialEq, Eq)]
pub enum GhCommand {
    MoveNotification(Direction),
    MoveNotificationFirst,
    MoveNotificationLast,
    OpenNotification,
    OpenNotificationAndMarkAsDone,
    ReloadNotifications,
    MarkNotificationAsDone,
    MarkAllNotificationsAsDone,
    UnsubscribeThread,
    OpenNotificationFilter,
    CloseNotificationFilter,
    ToggleNotificationFilter(GhNotificationFilterOption),
}

} // verus!
