use vstd::prelude::*;

use crate::command::{
    Command, Direction, FeedsCommand, FilterCommand, GhCommand, GhNotificationFilterOption,
    PullRequestState, Reason, RepoVisibility, ShellCommand,
};
use crate::keymap::error::KeymapError;
use crate::keymap::key::KeyBinding;
use crate::keymap::layer::Layer;
use crate::strings::str_eq;

verus! {

/// Number of registered commands.
pub const COMMAND_COUNT: usize = 56;

/// Stable command identifier accepted by keymap configuration.
#[derive(Clone, Copy, Debug, Default, PartialEq, Eq, Hash, Structural)]
pub enum CommandId {
    #[default]
    NoOp,
    Quit,
    ForceRedraw,
    RotateTheme,
    Authenticate,
    MoveAuthenticationProviderPrev,
    MoveAuthenticationProviderNext,
    MoveTabPrev,
    MoveTabNext,
    MoveEntryPrev,
    MoveEntryNext,
    MoveEntryFirst,
    MoveEntryLast,
    ReloadEntries,
    OpenEntry,
    BrowseEntry,
    MoveSubscribedFeedPrev,
    MoveSubscribedFeedNext,
    MoveSubscribedFeedFirst,
    MoveSubscribedFeedLast,
    PromptFeedSubscription,
    PromptFeedEdition,
    PromptFeedUnsubscription,
    RefreshSelectedFeed,
    ReloadSubscription,
    OpenFeed,
    MoveFeedUnsubscriptionPopupSelectionPrev,
    MoveFeedUnsubscriptionPopupSelectionNext,
    SelectFeedUnsubscriptionPopup,
    CancelFeedUnsubscriptionPopup,
    MoveFilterRequirementPrev,
    MoveFilterRequirementNext,
    ActivateCategoryFiltering,
    ActivateSearchFiltering,
    DeactivateFiltering,
    MoveGithubNotificationPrev,
    MoveGithubNotificationNext,
    MoveGithubNotificationFirst,
    MoveGithubNotificationLast,
    OpenGithubNotification,
    OpenGithubNotificationWithDone,
    ReloadGithubNotifications,
    MarkGithubNotificationAsDone,
    MarkGithubNotificationAsDoneAll,
    UnsubscribeGithubThread,
    OpenGithubNotificationFilterPopup,
    CloseGithubNotificationFilterPopup,
    ToggleGithubNotificationFilterPopupIncludeUnread,
    ToggleGithubNotificationFilterPopupParticipating,
    ToggleGithubNotificationFilterPopupVisibilityPublic,
    ToggleGithubNotificationFilterPopupVisibilityPrivate,
    ToggleGithubNotificationFilterPopupPullRequestOpen,
    ToggleGithubNotificationFilterPopupPullRequestClosed,
    ToggleGithubNotificationFilterPopupPullRequestMerged,
    ToggleGithubNotificationFilterPopupReasonMentioned,
    ToggleGithubNotificationFilterPopupReasonReviewRequested,
}

/// The canonical configuration name of a command.
pub open spec fn command_name(id: CommandId) -> Seq<char> {
    match id {
        CommandId::NoOp => "no_op"@,
        CommandId::Quit => "app.quit"@,
        CommandId::ForceRedraw => "app.redraw"@,
        CommandId::RotateTheme => "theme.rotate"@,
        CommandId::Authenticate => "login.authenticate"@,
        CommandId::MoveAuthenticationProviderPrev => "login.provider.prev"@,
        CommandId::MoveAuthenticationProviderNext => "login.provider.next"@,
        CommandId::MoveTabPrev => "tabs.prev"@,
        CommandId::MoveTabNext => "tabs.next"@,
        CommandId::MoveEntryPrev => "entries.prev"@,
        CommandId::MoveEntryNext => "entries.next"@,
        CommandId::MoveEntryFirst => "entries.first"@,
        CommandId::MoveEntryLast => "entries.last"@,
        CommandId::ReloadEntries => "entries.reload"@,
        CommandId::OpenEntry => "entries.open"@,
        CommandId::BrowseEntry => "entries.browse"@,
        CommandId::MoveSubscribedFeedPrev => "feeds.prev"@,
        CommandId::MoveSubscribedFeedNext => "feeds.next"@,
        CommandId::MoveSubscribedFeedFirst => "feeds.first"@,
        CommandId::MoveSubscribedFeedLast => "feeds.last"@,
        CommandId::PromptFeedSubscription => "feeds.subscribe"@,
        CommandId::PromptFeedEdition => "feeds.edit"@,
        CommandId::PromptFeedUnsubscription => "feeds.unsubscribe"@,
        CommandId::RefreshSelectedFeed => "feeds.refresh-selected"@,
        CommandId::ReloadSubscription => "feeds.reload"@,
        CommandId::OpenFeed => "feeds.open"@,
        CommandId::MoveFeedUnsubscriptionPopupSelectionPrev => "feeds.unsubscribe-popup.prev"@,
        CommandId::MoveFeedUnsubscriptionPopupSelectionNext => "feeds.unsubscribe-popup.next"@,
        CommandId::SelectFeedUnsubscriptionPopup => "feeds.unsubscribe-popup.select"@,
        CommandId::CancelFeedUnsubscriptionPopup => "feeds.unsubscribe-popup.cancel"@,
        CommandId::MoveFilterRequirementPrev => "filter.requirement.prev"@,
        CommandId::MoveFilterRequirementNext => "filter.requirement.next"@,
        CommandId::ActivateCategoryFiltering => "filter.category"@,
        CommandId::ActivateSearchFiltering => "filter.search"@,
        CommandId::DeactivateFiltering => "filter.close"@,
        CommandId::MoveGithubNotificationPrev => "github-notifications.prev"@,
        CommandId::MoveGithubNotificationNext => "github-notifications.next"@,
        CommandId::MoveGithubNotificationFirst => "github-notifications.first"@,
        CommandId::MoveGithubNotificationLast => "github-notifications.last"@,
        CommandId::OpenGithubNotification => "github-notifications.open"@,
        CommandId::OpenGithubNotificationWithDone => "github-notifications.open-and-done"@,
        CommandId::ReloadGithubNotifications => "github-notifications.reload"@,
        CommandId::MarkGithubNotificationAsDone => "github-notifications.mark-done"@,
        CommandId::MarkGithubNotificationAsDoneAll => "github-notifications.mark-all-done"@,
        CommandId::UnsubscribeGithubThread => "github-notifications.unsubscribe-thread"@,
        CommandId::OpenGithubNotificationFilterPopup => "github-notifications.filter.open"@,
        CommandId::CloseGithubNotificationFilterPopup => "github-notifications.filter.close"@,
        CommandId::ToggleGithubNotificationFilterPopupIncludeUnread => "github-notifications.filter.include-unread.toggle"@,
        CommandId::ToggleGithubNotificationFilterPopupParticipating => "github-notifications.filter.participating.toggle"@,
        CommandId::ToggleGithubNotificationFilterPopupVisibilityPublic => "github-notifications.filter.visibility-public.toggle"@,
        CommandId::ToggleGithubNotificationFilterPopupVisibilityPrivate => "github-notifications.filter.visibility-private.toggle"@,
        CommandId::ToggleGithubNotificationFilterPopupPullRequestOpen => "github-notifications.filter.pr-open.toggle"@,
        CommandId::ToggleGithubNotificationFilterPopupPullRequestClosed => "github-notifications.filter.pr-closed.toggle"@,
        CommandId::ToggleGithubNotificationFilterPopupPullRequestMerged => "github-notifications.filter.pr-merged.toggle"@,
        CommandId::ToggleGithubNotificationFilterPopupReasonMentioned => "github-notifications.filter.reason-mentioned.toggle"@,
        CommandId::ToggleGithubNotificationFilterPopupReasonReviewRequested => "github-notifications.filter.reason-review-requested.toggle"@,
    }
}

/// Additional names accepted in configuration besides the canonical one.
pub open spec fn command_aliases(id: CommandId) -> Seq<Seq<char>> {
    match id {
        CommandId::NoOp => seq!["nop"@],
        CommandId::Quit => seq!["quit"@],
        CommandId::ForceRedraw => seq!["force_redraw"@],
        CommandId::RotateTheme => seq!["rotate_theme"@],
        CommandId::Authenticate => seq!["authenticate"@],
        CommandId::MoveAuthenticationProviderPrev => seq!["move_up_authentication_provider"@],
        CommandId::MoveAuthenticationProviderNext => seq!["move_down_authentication_provider"@],
        CommandId::MoveTabPrev => seq!["move_left_tab_selection"@],
        CommandId::MoveTabNext => seq!["move_right_tab_selection"@],
        CommandId::MoveEntryPrev => seq!["move_up_entry"@],
        CommandId::MoveEntryNext => seq!["move_down_entry"@],
        CommandId::MoveEntryFirst => seq!["move_entry_first"@],
        CommandId::MoveEntryLast => seq!["move_entry_last"@],
        CommandId::ReloadEntries => seq!["reload_entries"@],
        CommandId::OpenEntry => seq!["open_entry"@],
        CommandId::BrowseEntry => seq!["browse_entry"@],
        CommandId::MoveSubscribedFeedPrev => seq!["move_up_subscribed_feed"@],
        CommandId::MoveSubscribedFeedNext => seq!["move_down_subscribed_feed"@],
        CommandId::MoveSubscribedFeedFirst => seq!["move_subscribed_feed_first"@],
        CommandId::MoveSubscribedFeedLast => seq!["move_subscribed_feed_last"@],
        CommandId::PromptFeedSubscription => seq!["prompt_feed_subscription"@],
        CommandId::PromptFeedEdition => seq!["prompt_feed_edition"@],
        CommandId::PromptFeedUnsubscription => seq!["prompt_feed_unsubscription"@],
        CommandId::RefreshSelectedFeed => seq!["refresh_selected_feed"@],
        CommandId::ReloadSubscription => seq!["reload_subscription"@],
        CommandId::OpenFeed => seq!["open_feed"@],
        CommandId::MoveFeedUnsubscriptionPopupSelectionPrev => seq!["move_feed_unsubscription_popup_selection_left"@],
        CommandId::MoveFeedUnsubscriptionPopupSelectionNext => seq!["move_feed_unsubscription_popup_selection_right"@],
        CommandId::SelectFeedUnsubscriptionPopup => seq!["select_feed_unsubscription_popup"@],
        CommandId::CancelFeedUnsubscriptionPopup => seq!["cancel_feed_unsubscription_popup"@],
        CommandId::MoveFilterRequirementPrev => seq!["move_filter_requirement_left"@],
        CommandId::MoveFilterRequirementNext => seq!["move_filter_requirement_right"@],
        CommandId::ActivateCategoryFiltering => seq!["activate_category_filtering"@],
        CommandId::ActivateSearchFiltering => seq!["activate_search_filtering"@],
        CommandId::DeactivateFiltering => seq!["deactivate_filtering"@],
        CommandId::MoveGithubNotificationPrev => seq!["move_up_gh_notification"@],
        CommandId::MoveGithubNotificationNext => seq!["move_down_gh_notification"@],
        CommandId::MoveGithubNotificationFirst => seq!["move_gh_notification_first"@],
        CommandId::MoveGithubNotificationLast => seq!["move_gh_notification_last"@],
        CommandId::OpenGithubNotification => seq!["open_gh_notification"@],
        CommandId::OpenGithubNotificationWithDone => seq!["open_gh_notification_with_done"@],
        CommandId::ReloadGithubNotifications => seq!["reload_gh_notifications"@],
        CommandId::MarkGithubNotificationAsDone => seq!["mark_gh_notification_as_done"@],
        CommandId::MarkGithubNotificationAsDoneAll => seq!["mark_gh_notification_as_done_all"@],
        CommandId::UnsubscribeGithubThread => seq!["unsubscribe_gh_thread"@],
        CommandId::OpenGithubNotificationFilterPopup => seq!["open_gh_notification_filter_popup"@],
        CommandId::CloseGithubNotificationFilterPopup => seq!["close_gh_notification_filter_popup"@],
        CommandId::ToggleGithubNotificationFilterPopupIncludeUnread => seq!["toggle_gh_notification_filter_popup_include_unread"@],
        CommandId::ToggleGithubNotificationFilterPopupParticipating => seq!["toggle_gh_notification_filter_popup_participating"@],
        CommandId::ToggleGithubNotificationFilterPopupVisibilityPublic => seq!["toggle_gh_notification_filter_popup_visibility_public"@],
        CommandId::ToggleGithubNotificationFilterPopupVisibilityPrivate => seq!["toggle_gh_notification_filter_popup_visibility_private"@],
        CommandId::ToggleGithubNotificationFilterPopupPullRequestOpen => seq!["toggle_gh_notification_filter_popup_pr_open"@],
        CommandId::ToggleGithubNotificationFilterPopupPullRequestClosed => seq!["toggle_gh_notification_filter_popup_pr_closed"@],
        CommandId::ToggleGithubNotificationFilterPopupPullRequestMerged => seq!["toggle_gh_notification_filter_popup_pr_merged"@],
        CommandId::ToggleGithubNotificationFilterPopupReasonMentioned => seq!["toggle_gh_notification_filter_popup_reason_mentioned"@],
        CommandId::ToggleGithubNotificationFilterPopupReasonReviewRequested => seq!["toggle_gh_notification_filter_popup_reason_review"@],
    }
}

/// The name a command is typed with at the prompt, if any.
pub open spec fn command_typable(id: CommandId) -> Option<Seq<char>> {
    match id {
        CommandId::NoOp => None,
        CommandId::Quit => Some(":quit"@),
        CommandId::ForceRedraw => Some(":redraw"@),
        CommandId::RotateTheme => None,
        CommandId::Authenticate => None,
        CommandId::MoveAuthenticationProviderPrev => None,
        CommandId::MoveAuthenticationProviderNext => None,
        CommandId::MoveTabPrev => None,
        CommandId::MoveTabNext => None,
        CommandId::MoveEntryPrev => None,
        CommandId::MoveEntryNext => None,
        CommandId::MoveEntryFirst => None,
        CommandId::MoveEntryLast => None,
        CommandId::ReloadEntries => Some(":reload-entries"@),
        CommandId::OpenEntry => Some(":open-entry"@),
        CommandId::BrowseEntry => None,
        CommandId::MoveSubscribedFeedPrev => None,
        CommandId::MoveSubscribedFeedNext => None,
        CommandId::MoveSubscribedFeedFirst => None,
        CommandId::MoveSubscribedFeedLast => None,
        CommandId::PromptFeedSubscription => None,
        CommandId::PromptFeedEdition => None,
        CommandId::PromptFeedUnsubscription => None,
        CommandId::RefreshSelectedFeed => Some(":refresh-selected-feed"@),
        CommandId::ReloadSubscription => Some(":reload-subscription"@),
        CommandId::OpenFeed => None,
        CommandId::MoveFeedUnsubscriptionPopupSelectionPrev => None,
        CommandId::MoveFeedUnsubscriptionPopupSelectionNext => None,
        CommandId::SelectFeedUnsubscriptionPopup => None,
        CommandId::CancelFeedUnsubscriptionPopup => None,
        CommandId::MoveFilterRequirementPrev => None,
        CommandId::MoveFilterRequirementNext => None,
        CommandId::ActivateCategoryFiltering => None,
        CommandId::ActivateSearchFiltering => None,
        CommandId::DeactivateFiltering => None,
        CommandId::MoveGithubNotificationPrev => None,
        CommandId::MoveGithubNotificationNext => None,
        CommandId::MoveGithubNotificationFirst => None,
        CommandId::MoveGithubNotificationLast => None,
        CommandId::OpenGithubNotification => None,
        CommandId::OpenGithubNotificationWithDone => None,
        CommandId::ReloadGithubNotifications => None,
        CommandId::MarkGithubNotificationAsDone => None,
        CommandId::MarkGithubNotificationAsDoneAll => None,
        CommandId::UnsubscribeGithubThread => None,
        CommandId::OpenGithubNotificationFilterPopup => None,
        CommandId::CloseGithubNotificationFilterPopup => None,
        CommandId::ToggleGithubNotificationFilterPopupIncludeUnread => None,
        CommandId::ToggleGithubNotificationFilterPopupParticipating => None,
        CommandId::ToggleGithubNotificationFilterPopupVisibilityPublic => None,
        CommandId::ToggleGithubNotificationFilterPopupVisibilityPrivate => None,
        CommandId::ToggleGithubNotificationFilterPopupPullRequestOpen => None,
        CommandId::ToggleGithubNotificationFilterPopupPullRequestClosed => None,
        CommandId::ToggleGithubNotificationFilterPopupPullRequestMerged => None,
        CommandId::ToggleGithubNotificationFilterPopupReasonMentioned => None,
        CommandId::ToggleGithubNotificationFilterPopupReasonReviewRequested => None,
    }
}

/// The human readable description of a command.
pub open spec fn command_desc(id: CommandId) -> Seq<char> {
    match id {
        CommandId::NoOp => "Do nothing"@,
        CommandId::Quit => "Quit app"@,
        CommandId::ForceRedraw => "Redraw screen"@,
        CommandId::RotateTheme => "Rotate theme"@,
        CommandId::Authenticate => "Authenticate"@,
        CommandId::MoveAuthenticationProviderPrev => "Previous authentication provider"@,
        CommandId::MoveAuthenticationProviderNext => "Next authentication provider"@,
        CommandId::MoveTabPrev => "Previous tab"@,
        CommandId::MoveTabNext => "Next tab"@,
        CommandId::MoveEntryPrev => "Previous entry"@,
        CommandId::MoveEntryNext => "Next entry"@,
        CommandId::MoveEntryFirst => "Go to first entry"@,
        CommandId::MoveEntryLast => "Go to last entry"@,
        CommandId::ReloadEntries => "Reload entries"@,
        CommandId::OpenEntry => "Open entry"@,
        CommandId::BrowseEntry => "Browse entry"@,
        CommandId::MoveSubscribedFeedPrev => "Previous feed"@,
        CommandId::MoveSubscribedFeedNext => "Next feed"@,
        CommandId::MoveSubscribedFeedFirst => "Go to first feed"@,
        CommandId::MoveSubscribedFeedLast => "Go to last feed"@,
        CommandId::PromptFeedSubscription => "Add feed subscription"@,
        CommandId::PromptFeedEdition => "Edit feed subscription"@,
        CommandId::PromptFeedUnsubscription => "Delete feed subscription"@,
        CommandId::RefreshSelectedFeed => "Refresh selected feed"@,
        CommandId::ReloadSubscription => "Reload subscriptions"@,
        CommandId::OpenFeed => "Open feed"@,
        CommandId::MoveFeedUnsubscriptionPopupSelectionPrev => "Previous popup selection"@,
        CommandId::MoveFeedUnsubscriptionPopupSelectionNext => "Next popup selection"@,
        CommandId::SelectFeedUnsubscriptionPopup => "Select popup item"@,
        CommandId::CancelFeedUnsubscriptionPopup => "Cancel popup"@,
        CommandId::MoveFilterRequirementPrev => "Previous requirement filter"@,
        CommandId::MoveFilterRequirementNext => "Next requirement filter"@,
        CommandId::ActivateCategoryFiltering => "Activate category filter"@,
        CommandId::ActivateSearchFiltering => "Activate search filter"@,
        CommandId::DeactivateFiltering => "Deactivate filter"@,
        CommandId::MoveGithubNotificationPrev => "Previous GitHub notification"@,
        CommandId::MoveGithubNotificationNext => "Next GitHub notification"@,
        CommandId::MoveGithubNotificationFirst => "Go to first GitHub notification"@,
        CommandId::MoveGithubNotificationLast => "Go to last GitHub notification"@,
        CommandId::OpenGithubNotification => "Open GitHub notification"@,
        CommandId::OpenGithubNotificationWithDone => "Open GitHub notification and mark as done"@,
        CommandId::ReloadGithubNotifications => "Reload GitHub notifications"@,
        CommandId::MarkGithubNotificationAsDone => "Mark GitHub notification as done"@,
        CommandId::MarkGithubNotificationAsDoneAll => "Mark all GitHub notifications as done"@,
        CommandId::UnsubscribeGithubThread => "Unsubscribe GitHub thread"@,
        CommandId::OpenGithubNotificationFilterPopup => "Open GitHub notification filter popup"@,
        CommandId::CloseGithubNotificationFilterPopup => "Close GitHub notification filter popup"@,
        CommandId::ToggleGithubNotificationFilterPopupIncludeUnread => "Toggle unread filter"@,
        CommandId::ToggleGithubNotificationFilterPopupParticipating => "Toggle participating filter"@,
        CommandId::ToggleGithubNotificationFilterPopupVisibilityPublic => "Toggle public repository filter"@,
        CommandId::ToggleGithubNotificationFilterPopupVisibilityPrivate => "Toggle private repository filter"@,
        CommandId::ToggleGithubNotificationFilterPopupPullRequestOpen => "Toggle open pull request filter"@,
        CommandId::ToggleGithubNotificationFilterPopupPullRequestClosed => "Toggle closed pull request filter"@,
        CommandId::ToggleGithubNotificationFilterPopupPullRequestMerged => "Toggle merged pull request filter"@,
        CommandId::ToggleGithubNotificationFilterPopupReasonMentioned => "Toggle mentioned reason filter"@,
        CommandId::ToggleGithubNotificationFilterPopupReasonReviewRequested => "Toggle review requested reason filter"@,
    }
}

/// The layers a command may be bound in.
pub open spec fn command_layers(id: CommandId) -> Seq<Layer> {
    match id {
        CommandId::NoOp => Seq::<Layer>::empty(),
        CommandId::Quit => seq![Layer::App, Layer::Global],
        CommandId::ForceRedraw => seq![Layer::App],
        CommandId::RotateTheme => seq![Layer::Global],
        CommandId::Authenticate => seq![Layer::Login],
        CommandId::MoveAuthenticationProviderPrev => seq![Layer::Login],
        CommandId::MoveAuthenticationProviderNext => seq![Layer::Login],
        CommandId::MoveTabPrev => seq![Layer::Tabs],
        CommandId::MoveTabNext => seq![Layer::Tabs],
        CommandId::MoveEntryPrev => seq![Layer::Entries],
        CommandId::MoveEntryNext => seq![Layer::Entries],
        CommandId::MoveEntryFirst => seq![Layer::Entries],
        CommandId::MoveEntryLast => seq![Layer::Entries],
        CommandId::ReloadEntries => seq![Layer::Entries],
        CommandId::OpenEntry => seq![Layer::Entries],
        CommandId::BrowseEntry => seq![Layer::Entries],
        CommandId::MoveSubscribedFeedPrev => seq![Layer::Feeds],
        CommandId::MoveSubscribedFeedNext => seq![Layer::Feeds],
        CommandId::MoveSubscribedFeedFirst => seq![Layer::Feeds],
        CommandId::MoveSubscribedFeedLast => seq![Layer::Feeds],
        CommandId::PromptFeedSubscription => seq![Layer::Feeds],
        CommandId::PromptFeedEdition => seq![Layer::Feeds],
        CommandId::PromptFeedUnsubscription => seq![Layer::Feeds],
        CommandId::RefreshSelectedFeed => seq![Layer::Feeds],
        CommandId::ReloadSubscription => seq![Layer::Feeds],
        CommandId::OpenFeed => seq![Layer::Feeds],
        CommandId::MoveFeedUnsubscriptionPopupSelectionPrev => seq![Layer::UnsubscribePopup],
        CommandId::MoveFeedUnsubscriptionPopupSelectionNext => seq![Layer::UnsubscribePopup],
        CommandId::SelectFeedUnsubscriptionPopup => seq![Layer::UnsubscribePopup],
        CommandId::CancelFeedUnsubscriptionPopup => seq![Layer::UnsubscribePopup],
        CommandId::MoveFilterRequirementPrev => seq![Layer::Filter],
        CommandId::MoveFilterRequirementNext => seq![Layer::Filter],
        CommandId::ActivateCategoryFiltering => seq![Layer::Filter],
        CommandId::ActivateSearchFiltering => seq![Layer::Filter],
        CommandId::DeactivateFiltering => seq![Layer::Filter],
        CommandId::MoveGithubNotificationPrev => seq![Layer::GithubNotifications],
        CommandId::MoveGithubNotificationNext => seq![Layer::GithubNotifications],
        CommandId::MoveGithubNotificationFirst => seq![Layer::GithubNotifications],
        CommandId::MoveGithubNotificationLast => seq![Layer::GithubNotifications],
        CommandId::OpenGithubNotification => seq![Layer::GithubNotifications],
        CommandId::OpenGithubNotificationWithDone => seq![Layer::GithubNotifications],
        CommandId::ReloadGithubNotifications => seq![Layer::GithubNotifications],
        CommandId::MarkGithubNotificationAsDone => seq![Layer::GithubNotifications],
        CommandId::MarkGithubNotificationAsDoneAll => seq![Layer::GithubNotifications],
        CommandId::UnsubscribeGithubThread => seq![Layer::GithubNotifications],
        CommandId::OpenGithubNotificationFilterPopup => seq![Layer::GithubNotifications],
        CommandId::CloseGithubNotificationFilterPopup => seq![Layer::GithubNotificationFilterPopup],
        CommandId::ToggleGithubNotificationFilterPopupIncludeUnread => seq![Layer::GithubNotificationFilterPopup],
        CommandId::ToggleGithubNotificationFilterPopupParticipating => seq![Layer::GithubNotificationFilterPopup],
        CommandId::ToggleGithubNotificationFilterPopupVisibilityPublic => seq![Layer::GithubNotificationFilterPopup],
        CommandId::ToggleGithubNotificationFilterPopupVisibilityPrivate => seq![Layer::GithubNotificationFilterPopup],
        CommandId::ToggleGithubNotificationFilterPopupPullRequestOpen => seq![Layer::GithubNotificationFilterPopup],
        CommandId::ToggleGithubNotificationFilterPopupPullRequestClosed => seq![Layer::GithubNotificationFilterPopup],
        CommandId::ToggleGithubNotificationFilterPopupPullRequestMerged => seq![Layer::GithubNotificationFilterPopup],
        CommandId::ToggleGithubNotificationFilterPopupReasonMentioned => seq![Layer::GithubNotificationFilterPopup],
        CommandId::ToggleGithubNotificationFilterPopupReasonReviewRequested => seq![Layer::GithubNotificationFilterPopup],
    }
}

/// The position of a command in the registry.
pub open spec fn command_index(id: CommandId) -> nat {
    match id {
        CommandId::NoOp => 0,
        CommandId::Quit => 1,
        CommandId::ForceRedraw => 2,
        CommandId::RotateTheme => 3,
        CommandId::Authenticate => 4,
        CommandId::MoveAuthenticationProviderPrev => 5,
        CommandId::MoveAuthenticationProviderNext => 6,
        CommandId::MoveTabPrev => 7,
        CommandId::MoveTabNext => 8,
        CommandId::MoveEntryPrev => 9,
        CommandId::MoveEntryNext => 10,
        CommandId::MoveEntryFirst => 11,
        CommandId::MoveEntryLast => 12,
        CommandId::ReloadEntries => 13,
        CommandId::OpenEntry => 14,
        CommandId::BrowseEntry => 15,
        CommandId::MoveSubscribedFeedPrev => 16,
        CommandId::MoveSubscribedFeedNext => 17,
        CommandId::MoveSubscribedFeedFirst => 18,
        CommandId::MoveSubscribedFeedLast => 19,
        CommandId::PromptFeedSubscription => 20,
        CommandId::PromptFeedEdition => 21,
        CommandId::PromptFeedUnsubscription => 22,
        CommandId::RefreshSelectedFeed => 23,
        CommandId::ReloadSubscription => 24,
        CommandId::OpenFeed => 25,
        CommandId::MoveFeedUnsubscriptionPopupSelectionPrev => 26,
        CommandId::MoveFeedUnsubscriptionPopupSelectionNext => 27,
        CommandId::SelectFeedUnsubscriptionPopup => 28,
        CommandId::CancelFeedUnsubscriptionPopup => 29,
        CommandId::MoveFilterRequirementPrev => 30,
        CommandId::MoveFilterRequirementNext => 31,
        CommandId::ActivateCategoryFiltering => 32,
        CommandId::ActivateSearchFiltering => 33,
        CommandId::DeactivateFiltering => 34,
        CommandId::MoveGithubNotificationPrev => 35,
        CommandId::MoveGithubNotificationNext => 36,
        CommandId::MoveGithubNotificationFirst => 37,
        CommandId::MoveGithubNotificationLast => 38,
        CommandId::OpenGithubNotification => 39,
        CommandId::OpenGithubNotificationWithDone => 40,
        CommandId::ReloadGithubNotifications => 41,
        CommandId::MarkGithubNotificationAsDone => 42,
        CommandId::MarkGithubNotificationAsDoneAll => 43,
        CommandId::UnsubscribeGithubThread => 44,
        CommandId::OpenGithubNotificationFilterPopup => 45,
        CommandId::CloseGithubNotificationFilterPopup => 46,
        CommandId::ToggleGithubNotificationFilterPopupIncludeUnread => 47,
        CommandId::ToggleGithubNotificationFilterPopupParticipating => 48,
        CommandId::ToggleGithubNotificationFilterPopupVisibilityPublic => 49,
        CommandId::ToggleGithubNotificationFilterPopupVisibilityPrivate => 50,
        CommandId::ToggleGithubNotificationFilterPopupPullRequestOpen => 51,
        CommandId::ToggleGithubNotificationFilterPopupPullRequestClosed => 52,
        CommandId::ToggleGithubNotificationFilterPopupPullRequestMerged => 53,
        CommandId::ToggleGithubNotificationFilterPopupReasonMentioned => 54,
        CommandId::ToggleGithubNotificationFilterPopupReasonReviewRequested => 55,
    }
}

/// The command at position `i` of the registry.
pub open spec fn command_at(i: int) -> CommandId {
    if i == 0 { CommandId::NoOp }
    else if i == 1 { CommandId::Quit }
    else if i == 2 { CommandId::ForceRedraw }
    else if i == 3 { CommandId::RotateTheme }
    else if i == 4 { CommandId::Authenticate }
    else if i == 5 { CommandId::MoveAuthenticationProviderPrev }
    else if i == 6 { CommandId::MoveAuthenticationProviderNext }
    else if i == 7 { CommandId::MoveTabPrev }
    else if i == 8 { CommandId::MoveTabNext }
    else if i == 9 { CommandId::MoveEntryPrev }
    else if i == 10 { CommandId::MoveEntryNext }
    else if i == 11 { CommandId::MoveEntryFirst }
    else if i == 12 { CommandId::MoveEntryLast }
    else if i == 13 { CommandId::ReloadEntries }
    else if i == 14 { CommandId::OpenEntry }
    else if i == 15 { CommandId::BrowseEntry }
    else if i == 16 { CommandId::MoveSubscribedFeedPrev }
    else if i == 17 { CommandId::MoveSubscribedFeedNext }
    else if i == 18 { CommandId::MoveSubscribedFeedFirst }
    else if i == 19 { CommandId::MoveSubscribedFeedLast }
    else if i == 20 { CommandId::PromptFeedSubscription }
    else if i == 21 { CommandId::PromptFeedEdition }
    else if i == 22 { CommandId::PromptFeedUnsubscription }
    else if i == 23 { CommandId::RefreshSelectedFeed }
    else if i == 24 { CommandId::ReloadSubscription }
    else if i == 25 { CommandId::OpenFeed }
    else if i == 26 { CommandId::MoveFeedUnsubscriptionPopupSelectionPrev }
    else if i == 27 { CommandId::MoveFeedUnsubscriptionPopupSelectionNext }
    else if i == 28 { CommandId::SelectFeedUnsubscriptionPopup }
    else if i == 29 { CommandId::CancelFeedUnsubscriptionPopup }
    else if i == 30 { CommandId::MoveFilterRequirementPrev }
    else if i == 31 { CommandId::MoveFilterRequirementNext }
    else if i == 32 { CommandId::ActivateCategoryFiltering }
    else if i == 33 { CommandId::ActivateSearchFiltering }
    else if i == 34 { CommandId::DeactivateFiltering }
    else if i == 35 { CommandId::MoveGithubNotificationPrev }
    else if i == 36 { CommandId::MoveGithubNotificationNext }
    else if i == 37 { CommandId::MoveGithubNotificationFirst }
    else if i == 38 { CommandId::MoveGithubNotificationLast }
    else if i == 39 { CommandId::OpenGithubNotification }
    else if i == 40 { CommandId::OpenGithubNotificationWithDone }
    else if i == 41 { CommandId::ReloadGithubNotifications }
    else if i == 42 { CommandId::MarkGithubNotificationAsDone }
    else if i == 43 { CommandId::MarkGithubNotificationAsDoneAll }
    else if i == 44 { CommandId::UnsubscribeGithubThread }
    else if i == 45 { CommandId::OpenGithubNotificationFilterPopup }
    else if i == 46 { CommandId::CloseGithubNotificationFilterPopup }
    else if i == 47 { CommandId::ToggleGithubNotificationFilterPopupIncludeUnread }
    else if i == 48 { CommandId::ToggleGithubNotificationFilterPopupParticipating }
    else if i == 49 { CommandId::ToggleGithubNotificationFilterPopupVisibilityPublic }
    else if i == 50 { CommandId::ToggleGithubNotificationFilterPopupVisibilityPrivate }
    else if i == 51 { CommandId::ToggleGithubNotificationFilterPopupPullRequestOpen }
    else if i == 52 { CommandId::ToggleGithubNotificationFilterPopupPullRequestClosed }
    else if i == 53 { CommandId::ToggleGithubNotificationFilterPopupPullRequestMerged }
    else if i == 54 { CommandId::ToggleGithubNotificationFilterPopupReasonMentioned }
    else { CommandId::ToggleGithubNotificationFilterPopupReasonReviewRequested }
}

impl CommandId {
    /// The canonical configuration name of this command.
    pub fn as_str(self) -> (s: &'static str)
        ensures
            s@ == command_name(self),
    {
        match self {
            CommandId::NoOp => "no_op",
            CommandId::Quit => "app.quit",
            CommandId::ForceRedraw => "app.redraw",
            CommandId::RotateTheme => "theme.rotate",
            CommandId::Authenticate => "login.authenticate",
            CommandId::MoveAuthenticationProviderPrev => "login.provider.prev",
            CommandId::MoveAuthenticationProviderNext => "login.provider.next",
            CommandId::MoveTabPrev => "tabs.prev",
            CommandId::MoveTabNext => "tabs.next",
            CommandId::MoveEntryPrev => "entries.prev",
            CommandId::MoveEntryNext => "entries.next",
            CommandId::MoveEntryFirst => "entries.first",
            CommandId::MoveEntryLast => "entries.last",
            CommandId::ReloadEntries => "entries.reload",
            CommandId::OpenEntry => "entries.open",
            CommandId::BrowseEntry => "entries.browse",
            CommandId::MoveSubscribedFeedPrev => "feeds.prev",
            CommandId::MoveSubscribedFeedNext => "feeds.next",
            CommandId::MoveSubscribedFeedFirst => "feeds.first",
            CommandId::MoveSubscribedFeedLast => "feeds.last",
            CommandId::PromptFeedSubscription => "feeds.subscribe",
            CommandId::PromptFeedEdition => "feeds.edit",
            CommandId::PromptFeedUnsubscription => "feeds.unsubscribe",
            CommandId::RefreshSelectedFeed => "feeds.refresh-selected",
            CommandId::ReloadSubscription => "feeds.reload",
            CommandId::OpenFeed => "feeds.open",
            CommandId::MoveFeedUnsubscriptionPopupSelectionPrev => "feeds.unsubscribe-popup.prev",
            CommandId::MoveFeedUnsubscriptionPopupSelectionNext => "feeds.unsubscribe-popup.next",
            CommandId::SelectFeedUnsubscriptionPopup => "feeds.unsubscribe-popup.select",
            CommandId::CancelFeedUnsubscriptionPopup => "feeds.unsubscribe-popup.cancel",
            CommandId::MoveFilterRequirementPrev => "filter.requirement.prev",
            CommandId::MoveFilterRequirementNext => "filter.requirement.next",
            CommandId::ActivateCategoryFiltering => "filter.category",
            CommandId::ActivateSearchFiltering => "filter.search",
            CommandId::DeactivateFiltering => "filter.close",
            CommandId::MoveGithubNotificationPrev => "github-notifications.prev",
            CommandId::MoveGithubNotificationNext => "github-notifications.next",
            CommandId::MoveGithubNotificationFirst => "github-notifications.first",
            CommandId::MoveGithubNotificationLast => "github-notifications.last",
            CommandId::OpenGithubNotification => "github-notifications.open",
            CommandId::OpenGithubNotificationWithDone => "github-notifications.open-and-done",
            CommandId::ReloadGithubNotifications => "github-notifications.reload",
            CommandId::MarkGithubNotificationAsDone => "github-notifications.mark-done",
            CommandId::MarkGithubNotificationAsDoneAll => "github-notifications.mark-all-done",
            CommandId::UnsubscribeGithubThread => "github-notifications.unsubscribe-thread",
            CommandId::OpenGithubNotificationFilterPopup => "github-notifications.filter.open",
            CommandId::CloseGithubNotificationFilterPopup => "github-notifications.filter.close",
            CommandId::ToggleGithubNotificationFilterPopupIncludeUnread => "github-notifications.filter.include-unread.toggle",
            CommandId::ToggleGithubNotificationFilterPopupParticipating => "github-notifications.filter.participating.toggle",
            CommandId::ToggleGithubNotificationFilterPopupVisibilityPublic => "github-notifications.filter.visibility-public.toggle",
            CommandId::ToggleGithubNotificationFilterPopupVisibilityPrivate => "github-notifications.filter.visibility-private.toggle",
            CommandId::ToggleGithubNotificationFilterPopupPullRequestOpen => "github-notifications.filter.pr-open.toggle",
            CommandId::ToggleGithubNotificationFilterPopupPullRequestClosed => "github-notifications.filter.pr-closed.toggle",
            CommandId::ToggleGithubNotificationFilterPopupPullRequestMerged => "github-notifications.filter.pr-merged.toggle",
            CommandId::ToggleGithubNotificationFilterPopupReasonMentioned => "github-notifications.filter.reason-mentioned.toggle",
            CommandId::ToggleGithubNotificationFilterPopupReasonReviewRequested => "github-notifications.filter.reason-review-requested.toggle",
        }
    }

    /// The human readable description of this command.
    pub fn desc(self) -> (s: &'static str)
        ensures
            s@ == command_desc(self),
    {
        match self {
            CommandId::NoOp => "Do nothing",
            CommandId::Quit => "Quit app",
            CommandId::ForceRedraw => "Redraw screen",
            CommandId::RotateTheme => "Rotate theme",
            CommandId::Authenticate => "Authenticate",
            CommandId::MoveAuthenticationProviderPrev => "Previous authentication provider",
            CommandId::MoveAuthenticationProviderNext => "Next authentication provider",
            CommandId::MoveTabPrev => "Previous tab",
            CommandId::MoveTabNext => "Next tab",
            CommandId::MoveEntryPrev => "Previous entry",
            CommandId::MoveEntryNext => "Next entry",
            CommandId::MoveEntryFirst => "Go to first entry",
            CommandId::MoveEntryLast => "Go to last entry",
            CommandId::ReloadEntries => "Reload entries",
            CommandId::OpenEntry => "Open entry",
            CommandId::BrowseEntry => "Browse entry",
            CommandId::MoveSubscribedFeedPrev => "Previous feed",
            CommandId::MoveSubscribedFeedNext => "Next feed",
            CommandId::MoveSubscribedFeedFirst => "Go to first feed",
            CommandId::MoveSubscribedFeedLast => "Go to last feed",
            CommandId::PromptFeedSubscription => "Add feed subscription",
            CommandId::PromptFeedEdition => "Edit feed subscription",
            CommandId::PromptFeedUnsubscription => "Delete feed subscription",
            CommandId::RefreshSelectedFeed => "Refresh selected feed",
            CommandId::ReloadSubscription => "Reload subscriptions",
            CommandId::OpenFeed => "Open feed",
            CommandId::MoveFeedUnsubscriptionPopupSelectionPrev => "Previous popup selection",
            CommandId::MoveFeedUnsubscriptionPopupSelectionNext => "Next popup selection",
            CommandId::SelectFeedUnsubscriptionPopup => "Select popup item",
            CommandId::CancelFeedUnsubscriptionPopup => "Cancel popup",
            CommandId::MoveFilterRequirementPrev => "Previous requirement filter",
            CommandId::MoveFilterRequirementNext => "Next requirement filter",
            CommandId::ActivateCategoryFiltering => "Activate category filter",
            CommandId::ActivateSearchFiltering => "Activate search filter",
            CommandId::DeactivateFiltering => "Deactivate filter",
            CommandId::MoveGithubNotificationPrev => "Previous GitHub notification",
            CommandId::MoveGithubNotificationNext => "Next GitHub notification",
            CommandId::MoveGithubNotificationFirst => "Go to first GitHub notification",
            CommandId::MoveGithubNotificationLast => "Go to last GitHub notification",
            CommandId::OpenGithubNotification => "Open GitHub notification",
            CommandId::OpenGithubNotificationWithDone => "Open GitHub notification and mark as done",
            CommandId::ReloadGithubNotifications => "Reload GitHub notifications",
            CommandId::MarkGithubNotificationAsDone => "Mark GitHub notification as done",
            CommandId::MarkGithubNotificationAsDoneAll => "Mark all GitHub notifications as done",
            CommandId::UnsubscribeGithubThread => "Unsubscribe GitHub thread",
            CommandId::OpenGithubNotificationFilterPopup => "Open GitHub notification filter popup",
            CommandId::CloseGithubNotificationFilterPopup => "Close GitHub notification filter popup",
            CommandId::ToggleGithubNotificationFilterPopupIncludeUnread => "Toggle unread filter",
            CommandId::ToggleGithubNotificationFilterPopupParticipating => "Toggle participating filter",
            CommandId::ToggleGithubNotificationFilterPopupVisibilityPublic => "Toggle public repository filter",
            CommandId::ToggleGithubNotificationFilterPopupVisibilityPrivate => "Toggle private repository filter",
            CommandId::ToggleGithubNotificationFilterPopupPullRequestOpen => "Toggle open pull request filter",
            CommandId::ToggleGithubNotificationFilterPopupPullRequestClosed => "Toggle closed pull request filter",
            CommandId::ToggleGithubNotificationFilterPopupPullRequestMerged => "Toggle merged pull request filter",
            CommandId::ToggleGithubNotificationFilterPopupReasonMentioned => "Toggle mentioned reason filter",
            CommandId::ToggleGithubNotificationFilterPopupReasonReviewRequested => "Toggle review requested reason filter",
        }
    }

    /// Additional configuration names of this command.
    pub fn aliases(self) -> (v: Vec<&'static str>)
        ensures
            v@.map_values(|a: &'static str| a@) =~= command_aliases(self),
    {
        match self {
            CommandId::NoOp => vec!["nop"],
            CommandId::Quit => vec!["quit"],
            CommandId::ForceRedraw => vec!["force_redraw"],
            CommandId::RotateTheme => vec!["rotate_theme"],
            CommandId::Authenticate => vec!["authenticate"],
            CommandId::MoveAuthenticationProviderPrev => vec!["move_up_authentication_provider"],
            CommandId::MoveAuthenticationProviderNext => vec!["move_down_authentication_provider"],
            CommandId::MoveTabPrev => vec!["move_left_tab_selection"],
            CommandId::MoveTabNext => vec!["move_right_tab_selection"],
            CommandId::MoveEntryPrev => vec!["move_up_entry"],
            CommandId::MoveEntryNext => vec!["move_down_entry"],
            CommandId::MoveEntryFirst => vec!["move_entry_first"],
            CommandId::MoveEntryLast => vec!["move_entry_last"],
            CommandId::ReloadEntries => vec!["reload_entries"],
            CommandId::OpenEntry => vec!["open_entry"],
            CommandId::BrowseEntry => vec!["browse_entry"],
            CommandId::MoveSubscribedFeedPrev => vec!["move_up_subscribed_feed"],
            CommandId::MoveSubscribedFeedNext => vec!["move_down_subscribed_feed"],
            CommandId::MoveSubscribedFeedFirst => vec!["move_subscribed_feed_first"],
            CommandId::MoveSubscribedFeedLast => vec!["move_subscribed_feed_last"],
            CommandId::PromptFeedSubscription => vec!["prompt_feed_subscription"],
            CommandId::PromptFeedEdition => vec!["prompt_feed_edition"],
            CommandId::PromptFeedUnsubscription => vec!["prompt_feed_unsubscription"],
            CommandId::RefreshSelectedFeed => vec!["refresh_selected_feed"],
            CommandId::ReloadSubscription => vec!["reload_subscription"],
            CommandId::OpenFeed => vec!["open_feed"],
            CommandId::MoveFeedUnsubscriptionPopupSelectionPrev => vec!["move_feed_unsubscription_popup_selection_left"],
            CommandId::MoveFeedUnsubscriptionPopupSelectionNext => vec!["move_feed_unsubscription_popup_selection_right"],
            CommandId::SelectFeedUnsubscriptionPopup => vec!["select_feed_unsubscription_popup"],
            CommandId::CancelFeedUnsubscriptionPopup => vec!["cancel_feed_unsubscription_popup"],
            CommandId::MoveFilterRequirementPrev => vec!["move_filter_requirement_left"],
            CommandId::MoveFilterRequirementNext => vec!["move_filter_requirement_right"],
            CommandId::ActivateCategoryFiltering => vec!["activate_category_filtering"],
            CommandId::ActivateSearchFiltering => vec!["activate_search_filtering"],
            CommandId::DeactivateFiltering => vec!["deactivate_filtering"],
            CommandId::MoveGithubNotificationPrev => vec!["move_up_gh_notification"],
            CommandId::MoveGithubNotificationNext => vec!["move_down_gh_notification"],
            CommandId::MoveGithubNotificationFirst => vec!["move_gh_notification_first"],
            CommandId::MoveGithubNotificationLast => vec!["move_gh_notification_last"],
            CommandId::OpenGithubNotification => vec!["open_gh_notification"],
            CommandId::OpenGithubNotificationWithDone => vec!["open_gh_notification_with_done"],
            CommandId::ReloadGithubNotifications => vec!["reload_gh_notifications"],
            CommandId::MarkGithubNotificationAsDone => vec!["mark_gh_notification_as_done"],
            CommandId::MarkGithubNotificationAsDoneAll => vec!["mark_gh_notification_as_done_all"],
            CommandId::UnsubscribeGithubThread => vec!["unsubscribe_gh_thread"],
            CommandId::OpenGithubNotificationFilterPopup => vec!["open_gh_notification_filter_popup"],
            CommandId::CloseGithubNotificationFilterPopup => vec!["close_gh_notification_filter_popup"],
            CommandId::ToggleGithubNotificationFilterPopupIncludeUnread => vec!["toggle_gh_notification_filter_popup_include_unread"],
            CommandId::ToggleGithubNotificationFilterPopupParticipating => vec!["toggle_gh_notification_filter_popup_participating"],
            CommandId::ToggleGithubNotificationFilterPopupVisibilityPublic => vec!["toggle_gh_notification_filter_popup_visibility_public"],
            CommandId::ToggleGithubNotificationFilterPopupVisibilityPrivate => vec!["toggle_gh_notification_filter_popup_visibility_private"],
            CommandId::ToggleGithubNotificationFilterPopupPullRequestOpen => vec!["toggle_gh_notification_filter_popup_pr_open"],
            CommandId::ToggleGithubNotificationFilterPopupPullRequestClosed => vec!["toggle_gh_notification_filter_popup_pr_closed"],
            CommandId::ToggleGithubNotificationFilterPopupPullRequestMerged => vec!["toggle_gh_notification_filter_popup_pr_merged"],
            CommandId::ToggleGithubNotificationFilterPopupReasonMentioned => vec!["toggle_gh_notification_filter_popup_reason_mentioned"],
            CommandId::ToggleGithubNotificationFilterPopupReasonReviewRequested => vec!["toggle_gh_notification_filter_popup_reason_review"],
        }
    }

    /// The prompt name of this command, if any.
    pub fn typable(self) -> (t: Option<&'static str>)
        ensures
            match t {
                Some(s) => command_typable(self) == Some(s@),
                None => command_typable(self) is None,
            },
    {
        match self {
            CommandId::NoOp => None,
            CommandId::Quit => Some(":quit"),
            CommandId::ForceRedraw => Some(":redraw"),
            CommandId::RotateTheme => None,
            CommandId::Authenticate => None,
            CommandId::MoveAuthenticationProviderPrev => None,
            CommandId::MoveAuthenticationProviderNext => None,
            CommandId::MoveTabPrev => None,
            CommandId::MoveTabNext => None,
            CommandId::MoveEntryPrev => None,
            CommandId::MoveEntryNext => None,
            CommandId::MoveEntryFirst => None,
            CommandId::MoveEntryLast => None,
            CommandId::ReloadEntries => Some(":reload-entries"),
            CommandId::OpenEntry => Some(":open-entry"),
            CommandId::BrowseEntry => None,
            CommandId::MoveSubscribedFeedPrev => None,
            CommandId::MoveSubscribedFeedNext => None,
            CommandId::MoveSubscribedFeedFirst => None,
            CommandId::MoveSubscribedFeedLast => None,
            CommandId::PromptFeedSubscription => None,
            CommandId::PromptFeedEdition => None,
            CommandId::PromptFeedUnsubscription => None,
            CommandId::RefreshSelectedFeed => Some(":refresh-selected-feed"),
            CommandId::ReloadSubscription => Some(":reload-subscription"),
            CommandId::OpenFeed => None,
            CommandId::MoveFeedUnsubscriptionPopupSelectionPrev => None,
            CommandId::MoveFeedUnsubscriptionPopupSelectionNext => None,
            CommandId::SelectFeedUnsubscriptionPopup => None,
            CommandId::CancelFeedUnsubscriptionPopup => None,
            CommandId::MoveFilterRequirementPrev => None,
            CommandId::MoveFilterRequirementNext => None,
            CommandId::ActivateCategoryFiltering => None,
            CommandId::ActivateSearchFiltering => None,
            CommandId::DeactivateFiltering => None,
            CommandId::MoveGithubNotificationPrev => None,
            CommandId::MoveGithubNotificationNext => None,
            CommandId::MoveGithubNotificationFirst => None,
            CommandId::MoveGithubNotificationLast => None,
            CommandId::OpenGithubNotification => None,
            CommandId::OpenGithubNotificationWithDone => None,
            CommandId::ReloadGithubNotifications => None,
            CommandId::MarkGithubNotificationAsDone => None,
            CommandId::MarkGithubNotificationAsDoneAll => None,
            CommandId::UnsubscribeGithubThread => None,
            CommandId::OpenGithubNotificationFilterPopup => None,
            CommandId::CloseGithubNotificationFilterPopup => None,
            CommandId::ToggleGithubNotificationFilterPopupIncludeUnread => None,
            CommandId::ToggleGithubNotificationFilterPopupParticipating => None,
            CommandId::ToggleGithubNotificationFilterPopupVisibilityPublic => None,
            CommandId::ToggleGithubNotificationFilterPopupVisibilityPrivate => None,
            CommandId::ToggleGithubNotificationFilterPopupPullRequestOpen => None,
            CommandId::ToggleGithubNotificationFilterPopupPullRequestClosed => None,
            CommandId::ToggleGithubNotificationFilterPopupPullRequestMerged => None,
            CommandId::ToggleGithubNotificationFilterPopupReasonMentioned => None,
            CommandId::ToggleGithubNotificationFilterPopupReasonReviewRequested => None,
        }
    }

    /// The layers this command may be bound in.
    pub fn layers(self) -> (v: Vec<Layer>)
        ensures
            v@ =~= command_layers(self),
    {
        match self {
            CommandId::NoOp => Vec::new(),
            CommandId::Quit => vec![Layer::App, Layer::Global],
            CommandId::ForceRedraw => vec![Layer::App],
            CommandId::RotateTheme => vec![Layer::Global],
            CommandId::Authenticate => vec![Layer::Login],
            CommandId::MoveAuthenticationProviderPrev => vec![Layer::Login],
            CommandId::MoveAuthenticationProviderNext => vec![Layer::Login],
            CommandId::MoveTabPrev => vec![Layer::Tabs],
            CommandId::MoveTabNext => vec![Layer::Tabs],
            CommandId::MoveEntryPrev => vec![Layer::Entries],
            CommandId::MoveEntryNext => vec![Layer::Entries],
            CommandId::MoveEntryFirst => vec![Layer::Entries],
            CommandId::MoveEntryLast => vec![Layer::Entries],
            CommandId::ReloadEntries => vec![Layer::Entries],
            CommandId::OpenEntry => vec![Layer::Entries],
            CommandId::BrowseEntry => vec![Layer::Entries],
            CommandId::MoveSubscribedFeedPrev => vec![Layer::Feeds],
            CommandId::MoveSubscribedFeedNext => vec![Layer::Feeds],
            CommandId::MoveSubscribedFeedFirst => vec![Layer::Feeds],
            CommandId::MoveSubscribedFeedLast => vec![Layer::Feeds],
            CommandId::PromptFeedSubscription => vec![Layer::Feeds],
            CommandId::PromptFeedEdition => vec![Layer::Feeds],
            CommandId::PromptFeedUnsubscription => vec![Layer::Feeds],
            CommandId::RefreshSelectedFeed => vec![Layer::Feeds],
            CommandId::ReloadSubscription => vec![Layer::Feeds],
            CommandId::OpenFeed => vec![Layer::Feeds],
            CommandId::MoveFeedUnsubscriptionPopupSelectionPrev => vec![Layer::UnsubscribePopup],
            CommandId::MoveFeedUnsubscriptionPopupSelectionNext => vec![Layer::UnsubscribePopup],
            CommandId::SelectFeedUnsubscriptionPopup => vec![Layer::UnsubscribePopup],
            CommandId::CancelFeedUnsubscriptionPopup => vec![Layer::UnsubscribePopup],
            CommandId::MoveFilterRequirementPrev => vec![Layer::Filter],
            CommandId::MoveFilterRequirementNext => vec![Layer::Filter],
            CommandId::ActivateCategoryFiltering => vec![Layer::Filter],
            CommandId::ActivateSearchFiltering => vec![Layer::Filter],
            CommandId::DeactivateFiltering => vec![Layer::Filter],
            CommandId::MoveGithubNotificationPrev => vec![Layer::GithubNotifications],
            CommandId::MoveGithubNotificationNext => vec![Layer::GithubNotifications],
            CommandId::MoveGithubNotificationFirst => vec![Layer::GithubNotifications],
            CommandId::MoveGithubNotificationLast => vec![Layer::GithubNotifications],
            CommandId::OpenGithubNotification => vec![Layer::GithubNotifications],
            CommandId::OpenGithubNotificationWithDone => vec![Layer::GithubNotifications],
            CommandId::ReloadGithubNotifications => vec![Layer::GithubNotifications],
            CommandId::MarkGithubNotificationAsDone => vec![Layer::GithubNotifications],
            CommandId::MarkGithubNotificationAsDoneAll => vec![Layer::GithubNotifications],
            CommandId::UnsubscribeGithubThread => vec![Layer::GithubNotifications],
            CommandId::OpenGithubNotificationFilterPopup => vec![Layer::GithubNotifications],
            CommandId::CloseGithubNotificationFilterPopup => vec![Layer::GithubNotificationFilterPopup],
            CommandId::ToggleGithubNotificationFilterPopupIncludeUnread => vec![Layer::GithubNotificationFilterPopup],
            CommandId::ToggleGithubNotificationFilterPopupParticipating => vec![Layer::GithubNotificationFilterPopup],
            CommandId::ToggleGithubNotificationFilterPopupVisibilityPublic => vec![Layer::GithubNotificationFilterPopup],
            CommandId::ToggleGithubNotificationFilterPopupVisibilityPrivate => vec![Layer::GithubNotificationFilterPopup],
            CommandId::ToggleGithubNotificationFilterPopupPullRequestOpen => vec![Layer::GithubNotificationFilterPopup],
            CommandId::ToggleGithubNotificationFilterPopupPullRequestClosed => vec![Layer::GithubNotificationFilterPopup],
            CommandId::ToggleGithubNotificationFilterPopupPullRequestMerged => vec![Layer::GithubNotificationFilterPopup],
            CommandId::ToggleGithubNotificationFilterPopupReasonMentioned => vec![Layer::GithubNotificationFilterPopup],
            CommandId::ToggleGithubNotificationFilterPopupReasonReviewRequested => vec![Layer::GithubNotificationFilterPopup],
        }
    }

    /// The position of this command in the registry.
    pub fn index(self) -> (i: usize)
        ensures
            i == command_index(self),
            i < COMMAND_COUNT,
    {
        match self {
            CommandId::NoOp => 0,
            CommandId::Quit => 1,
            CommandId::ForceRedraw => 2,
            CommandId::RotateTheme => 3,
            CommandId::Authenticate => 4,
            CommandId::MoveAuthenticationProviderPrev => 5,
            CommandId::MoveAuthenticationProviderNext => 6,
            CommandId::MoveTabPrev => 7,
            CommandId::MoveTabNext => 8,
            CommandId::MoveEntryPrev => 9,
            CommandId::MoveEntryNext => 10,
            CommandId::MoveEntryFirst => 11,
            CommandId::MoveEntryLast => 12,
            CommandId::ReloadEntries => 13,
            CommandId::OpenEntry => 14,
            CommandId::BrowseEntry => 15,
            CommandId::MoveSubscribedFeedPrev => 16,
            CommandId::MoveSubscribedFeedNext => 17,
            CommandId::MoveSubscribedFeedFirst => 18,
            CommandId::MoveSubscribedFeedLast => 19,
            CommandId::PromptFeedSubscription => 20,
            CommandId::PromptFeedEdition => 21,
            CommandId::PromptFeedUnsubscription => 22,
            CommandId::RefreshSelectedFeed => 23,
            CommandId::ReloadSubscription => 24,
            CommandId::OpenFeed => 25,
            CommandId::MoveFeedUnsubscriptionPopupSelectionPrev => 26,
            CommandId::MoveFeedUnsubscriptionPopupSelectionNext => 27,
            CommandId::SelectFeedUnsubscriptionPopup => 28,
            CommandId::CancelFeedUnsubscriptionPopup => 29,
            CommandId::MoveFilterRequirementPrev => 30,
            CommandId::MoveFilterRequirementNext => 31,
            CommandId::ActivateCategoryFiltering => 32,
            CommandId::ActivateSearchFiltering => 33,
            CommandId::DeactivateFiltering => 34,
            CommandId::MoveGithubNotificationPrev => 35,
            CommandId::MoveGithubNotificationNext => 36,
            CommandId::MoveGithubNotificationFirst => 37,
            CommandId::MoveGithubNotificationLast => 38,
            CommandId::OpenGithubNotification => 39,
            CommandId::OpenGithubNotificationWithDone => 40,
            CommandId::ReloadGithubNotifications => 41,
            CommandId::MarkGithubNotificationAsDone => 42,
            CommandId::MarkGithubNotificationAsDoneAll => 43,
            CommandId::UnsubscribeGithubThread => 44,
            CommandId::OpenGithubNotificationFilterPopup => 45,
            CommandId::CloseGithubNotificationFilterPopup => 46,
            CommandId::ToggleGithubNotificationFilterPopupIncludeUnread => 47,
            CommandId::ToggleGithubNotificationFilterPopupParticipating => 48,
            CommandId::ToggleGithubNotificationFilterPopupVisibilityPublic => 49,
            CommandId::ToggleGithubNotificationFilterPopupVisibilityPrivate => 50,
            CommandId::ToggleGithubNotificationFilterPopupPullRequestOpen => 51,
            CommandId::ToggleGithubNotificationFilterPopupPullRequestClosed => 52,
            CommandId::ToggleGithubNotificationFilterPopupPullRequestMerged => 53,
            CommandId::ToggleGithubNotificationFilterPopupReasonMentioned => 54,
            CommandId::ToggleGithubNotificationFilterPopupReasonReviewRequested => 55,
        }
    }

    /// The command at position `i` of the registry.
    pub fn from_index(i: usize) -> (id: CommandId)
        requires
            i < COMMAND_COUNT,
        ensures
            id == command_at(i as int),
            command_index(id) == i,
    {
        if i == 0 { CommandId::NoOp }
        else if i == 1 { CommandId::Quit }
        else if i == 2 { CommandId::ForceRedraw }
        else if i == 3 { CommandId::RotateTheme }
        else if i == 4 { CommandId::Authenticate }
        else if i == 5 { CommandId::MoveAuthenticationProviderPrev }
        else if i == 6 { CommandId::MoveAuthenticationProviderNext }
        else if i == 7 { CommandId::MoveTabPrev }
        else if i == 8 { CommandId::MoveTabNext }
        else if i == 9 { CommandId::MoveEntryPrev }
        else if i == 10 { CommandId::MoveEntryNext }
        else if i == 11 { CommandId::MoveEntryFirst }
        else if i == 12 { CommandId::MoveEntryLast }
        else if i == 13 { CommandId::ReloadEntries }
        else if i == 14 { CommandId::OpenEntry }
        else if i == 15 { CommandId::BrowseEntry }
        else if i == 16 { CommandId::MoveSubscribedFeedPrev }
        else if i == 17 { CommandId::MoveSubscribedFeedNext }
        else if i == 18 { CommandId::MoveSubscribedFeedFirst }
        else if i == 19 { CommandId::MoveSubscribedFeedLast }
        else if i == 20 { CommandId::PromptFeedSubscription }
        else if i == 21 { CommandId::PromptFeedEdition }
        else if i == 22 { CommandId::PromptFeedUnsubscription }
        else if i == 23 { CommandId::RefreshSelectedFeed }
        else if i == 24 { CommandId::ReloadSubscription }
        else if i == 25 { CommandId::OpenFeed }
        else if i == 26 { CommandId::MoveFeedUnsubscriptionPopupSelectionPrev }
        else if i == 27 { CommandId::MoveFeedUnsubscriptionPopupSelectionNext }
        else if i == 28 { CommandId::SelectFeedUnsubscriptionPopup }
        else if i == 29 { CommandId::CancelFeedUnsubscriptionPopup }
        else if i == 30 { CommandId::MoveFilterRequirementPrev }
        else if i == 31 { CommandId::MoveFilterRequirementNext }
        else if i == 32 { CommandId::ActivateCategoryFiltering }
        else if i == 33 { CommandId::ActivateSearchFiltering }
        else if i == 34 { CommandId::DeactivateFiltering }
        else if i == 35 { CommandId::MoveGithubNotificationPrev }
        else if i == 36 { CommandId::MoveGithubNotificationNext }
        else if i == 37 { CommandId::MoveGithubNotificationFirst }
        else if i == 38 { CommandId::MoveGithubNotificationLast }
        else if i == 39 { CommandId::OpenGithubNotification }
        else if i == 40 { CommandId::OpenGithubNotificationWithDone }
        else if i == 41 { CommandId::ReloadGithubNotifications }
        else if i == 42 { CommandId::MarkGithubNotificationAsDone }
        else if i == 43 { CommandId::MarkGithubNotificationAsDoneAll }
        else if i == 44 { CommandId::UnsubscribeGithubThread }
        else if i == 45 { CommandId::OpenGithubNotificationFilterPopup }
        else if i == 46 { CommandId::CloseGithubNotificationFilterPopup }
        else if i == 47 { CommandId::ToggleGithubNotificationFilterPopupIncludeUnread }
        else if i == 48 { CommandId::ToggleGithubNotificationFilterPopupParticipating }
        else if i == 49 { CommandId::ToggleGithubNotificationFilterPopupVisibilityPublic }
        else if i == 50 { CommandId::ToggleGithubNotificationFilterPopupVisibilityPrivate }
        else if i == 51 { CommandId::ToggleGithubNotificationFilterPopupPullRequestOpen }
        else if i == 52 { CommandId::ToggleGithubNotificationFilterPopupPullRequestClosed }
        else if i == 53 { CommandId::ToggleGithubNotificationFilterPopupPullRequestMerged }
        else if i == 54 { CommandId::ToggleGithubNotificationFilterPopupReasonMentioned }
        else { CommandId::ToggleGithubNotificationFilterPopupReasonReviewRequested }
    }

    /// The application command this id stands for; `None` for the no-op command.
    pub fn build(self) -> (c: Option<Command>)
        ensures
            c == command_of(self),
    {
        match self {
            CommandId::NoOp => None,
            CommandId::Quit => Some(Command::Shell(ShellCommand::Quit)),
            CommandId::ForceRedraw => Some(Command::Shell(ShellCommand::ForceRedraw)),
            CommandId::RotateTheme => Some(Command::Shell(ShellCommand::RotateTheme)),
            CommandId::Authenticate => Some(Command::Shell(ShellCommand::Authenticate)),
            CommandId::MoveAuthenticationProviderPrev => Some(Command::Shell(ShellCommand::MoveAuthenticationProvider(Direction::Up))),
            CommandId::MoveAuthenticationProviderNext => Some(Command::Shell(ShellCommand::MoveAuthenticationProvider(Direction::Down))),
            CommandId::MoveTabPrev => Some(Command::Shell(ShellCommand::MoveTabSelection(Direction::Left))),
            CommandId::MoveTabNext => Some(Command::Shell(ShellCommand::MoveTabSelection(Direction::Right))),
            CommandId::MoveEntryPrev => Some(Command::Feeds(FeedsCommand::MoveEntry(Direction::Up))),
            CommandId::MoveEntryNext => Some(Command::Feeds(FeedsCommand::MoveEntry(Direction::Down))),
            CommandId::MoveEntryFirst => Some(Command::Feeds(FeedsCommand::MoveEntryFirst)),
            CommandId::MoveEntryLast => Some(Command::Feeds(FeedsCommand::MoveEntryLast)),
            CommandId::ReloadEntries => Some(Command::Feeds(FeedsCommand::ReloadEntries)),
            CommandId::OpenEntry => Some(Command::Feeds(FeedsCommand::OpenEntry)),
            CommandId::BrowseEntry => Some(Command::Feeds(FeedsCommand::BrowseEntry)),
            CommandId::MoveSubscribedFeedPrev => Some(Command::Feeds(FeedsCommand::MoveSubscribedFeed(Direction::Up))),
            CommandId::MoveSubscribedFeedNext => Some(Command::Feeds(FeedsCommand::MoveSubscribedFeed(Direction::Down))),
            CommandId::MoveSubscribedFeedFirst => Some(Command::Feeds(FeedsCommand::MoveSubscribedFeedFirst)),
            CommandId::MoveSubscribedFeedLast => Some(Command::Feeds(FeedsCommand::MoveSubscribedFeedLast)),
            CommandId::PromptFeedSubscription => Some(Command::Feeds(FeedsCommand::PromptFeedSubscription)),
            CommandId::PromptFeedEdition => Some(Command::Feeds(FeedsCommand::PromptFeedEdition)),
            CommandId::PromptFeedUnsubscription => Some(Command::Feeds(FeedsCommand::PromptFeedUnsubscription)),
            CommandId::RefreshSelectedFeed => Some(Command::Feeds(FeedsCommand::RefreshSelectedFeed)),
            CommandId::ReloadSubscription => Some(Command::Feeds(FeedsCommand::ReloadSubscription)),
            CommandId::OpenFeed => Some(Command::Feeds(FeedsCommand::OpenFeed)),
            CommandId::MoveFeedUnsubscriptionPopupSelectionPrev => Some(Command::Feeds(FeedsCommand::MoveFeedUnsubscriptionPopupSelection(Direction::Left))),
            CommandId::MoveFeedUnsubscriptionPopupSelectionNext => Some(Command::Feeds(FeedsCommand::MoveFeedUnsubscriptionPopupSelection(Direction::Right))),
            CommandId::SelectFeedUnsubscriptionPopup => Some(Command::Feeds(FeedsCommand::SelectFeedUnsubscriptionPopup)),
            CommandId::CancelFeedUnsubscriptionPopup => Some(Command::Feeds(FeedsCommand::CancelFeedUnsubscriptionPopup)),
            CommandId::MoveFilterRequirementPrev => Some(Command::Filter(FilterCommand::MoveFilterRequirement(Direction::Left))),
            CommandId::MoveFilterRequirementNext => Some(Command::Filter(FilterCommand::MoveFilterRequirement(Direction::Right))),
            CommandId::ActivateCategoryFiltering => Some(Command::Filter(FilterCommand::ActivateCategoryFiltering)),
            CommandId::ActivateSearchFiltering => Some(Command::Filter(FilterCommand::ActivateSearchFiltering)),
            CommandId::DeactivateFiltering => Some(Command::Filter(FilterCommand::DeactivateFiltering)),
            CommandId::MoveGithubNotificationPrev => Some(Command::Gh(GhCommand::MoveNotification(Direction::Up))),
            CommandId::MoveGithubNotificationNext => Some(Command::Gh(GhCommand::MoveNotification(Direction::Down))),
            CommandId::MoveGithubNotificationFirst => Some(Command::Gh(GhCommand::MoveNotificationFirst)),
            CommandId::MoveGithubNotificationLast => Some(Command::Gh(GhCommand::MoveNotificationLast)),
            CommandId::OpenGithubNotification => Some(Command::Gh(GhCommand::OpenNotification)),
            CommandId::OpenGithubNotificationWithDone => Some(Command::Gh(GhCommand::OpenNotificationAndMarkAsDone)),
            CommandId::ReloadGithubNotifications => Some(Command::Gh(GhCommand::ReloadNotifications)),
            CommandId::MarkGithubNotificationAsDone => Some(Command::Gh(GhCommand::MarkNotificationAsDone)),
            CommandId::MarkGithubNotificationAsDoneAll => Some(Command::Gh(GhCommand::MarkAllNotificationsAsDone)),
            CommandId::UnsubscribeGithubThread => Some(Command::Gh(GhCommand::UnsubscribeThread)),
            CommandId::OpenGithubNotificationFilterPopup => Some(Command::Gh(GhCommand::OpenNotificationFilter)),
            CommandId::CloseGithubNotificationFilterPopup => Some(Command::Gh(GhCommand::CloseNotificationFilter)),
            CommandId::ToggleGithubNotificationFilterPopupIncludeUnread => Some(Command::Gh(GhCommand::ToggleNotificationFilter(GhNotificationFilterOption::UnreadOnly))),
            CommandId::ToggleGithubNotificationFilterPopupParticipating => Some(Command::Gh(GhCommand::ToggleNotificationFilter(GhNotificationFilterOption::ParticipatingOnly))),
            CommandId::ToggleGithubNotificationFilterPopupVisibilityPublic => Some(Command::Gh(GhCommand::ToggleNotificationFilter(GhNotificationFilterOption::Visibility(RepoVisibility::Public)))),
            CommandId::ToggleGithubNotificationFilterPopupVisibilityPrivate => Some(Command::Gh(GhCommand::ToggleNotificationFilter(GhNotificationFilterOption::Visibility(RepoVisibility::Private)))),
            CommandId::ToggleGithubNotificationFilterPopupPullRequestOpen => Some(Command::Gh(GhCommand::ToggleNotificationFilter(GhNotificationFilterOption::PullRequestState(PullRequestState::Open)))),
            CommandId::ToggleGithubNotificationFilterPopupPullRequestClosed => Some(Command::Gh(GhCommand::ToggleNotificationFilter(GhNotificationFilterOption::PullRequestState(PullRequestState::Closed)))),
            CommandId::ToggleGithubNotificationFilterPopupPullRequestMerged => Some(Command::Gh(GhCommand::ToggleNotificationFilter(GhNotificationFilterOption::PullRequestState(PullRequestState::Merged)))),
            CommandId::ToggleGithubNotificationFilterPopupReasonMentioned => Some(Command::Gh(GhCommand::ToggleNotificationFilter(GhNotificationFilterOption::Reason(Reason::Mention)))),
            CommandId::ToggleGithubNotificationFilterPopupReasonReviewRequested => Some(Command::Gh(GhCommand::ToggleNotificationFilter(GhNotificationFilterOption::Reason(Reason::ReviewRequested)))),
        }
    }
}

/// The application command an id stands for; `None` for the no-op command.
pub open spec fn command_of(id: CommandId) -> Option<Command> {
    match id {
        CommandId::NoOp => None,
        CommandId::Quit => Some(Command::Shell(ShellCommand::Quit)),
        CommandId::ForceRedraw => Some(Command::Shell(ShellCommand::ForceRedraw)),
        CommandId::RotateTheme => Some(Command::Shell(ShellCommand::RotateTheme)),
        CommandId::Authenticate => Some(Command::Shell(ShellCommand::Authenticate)),
        CommandId::MoveAuthenticationProviderPrev => Some(Command::Shell(ShellCommand::MoveAuthenticationProvider(Direction::Up))),
        CommandId::MoveAuthenticationProviderNext => Some(Command::Shell(ShellCommand::MoveAuthenticationProvider(Direction::Down))),
        CommandId::MoveTabPrev => Some(Command::Shell(ShellCommand::MoveTabSelection(Direction::Left))),
        CommandId::MoveTabNext => Some(Command::Shell(ShellCommand::MoveTabSelection(Direction::Right))),
        CommandId::MoveEntryPrev => Some(Command::Feeds(FeedsCommand::MoveEntry(Direction::Up))),
        CommandId::MoveEntryNext => Some(Command::Feeds(FeedsCommand::MoveEntry(Direction::Down))),
        CommandId::MoveEntryFirst => Some(Command::Feeds(FeedsCommand::MoveEntryFirst)),
        CommandId::MoveEntryLast => Some(Command::Feeds(FeedsCommand::MoveEntryLast)),
        CommandId::ReloadEntries => Some(Command::Feeds(FeedsCommand::ReloadEntries)),
        CommandId::OpenEntry => Some(Command::Feeds(FeedsCommand::OpenEntry)),
        CommandId::BrowseEntry => Some(Command::Feeds(FeedsCommand::BrowseEntry)),
        CommandId::MoveSubscribedFeedPrev => Some(Command::Feeds(FeedsCommand::MoveSubscribedFeed(Direction::Up))),
        CommandId::MoveSubscribedFeedNext => Some(Command::Feeds(FeedsCommand::MoveSubscribedFeed(Direction::Down))),
        CommandId::MoveSubscribedFeedFirst => Some(Command::Feeds(FeedsCommand::MoveSubscribedFeedFirst)),
        CommandId::MoveSubscribedFeedLast => Some(Command::Feeds(FeedsCommand::MoveSubscribedFeedLast)),
        CommandId::PromptFeedSubscription => Some(Command::Feeds(FeedsCommand::PromptFeedSubscription)),
        CommandId::PromptFeedEdition => Some(Command::Feeds(FeedsCommand::PromptFeedEdition)),
        CommandId::PromptFeedUnsubscription => Some(Command::Feeds(FeedsCommand::PromptFeedUnsubscription)),
        CommandId::RefreshSelectedFeed => Some(Command::Feeds(FeedsCommand::RefreshSelectedFeed)),
        CommandId::ReloadSubscription => Some(Command::Feeds(FeedsCommand::ReloadSubscription)),
        CommandId::OpenFeed => Some(Command::Feeds(FeedsCommand::OpenFeed)),
        CommandId::MoveFeedUnsubscriptionPopupSelectionPrev => Some(Command::Feeds(FeedsCommand::MoveFeedUnsubscriptionPopupSelection(Direction::Left))),
        CommandId::MoveFeedUnsubscriptionPopupSelectionNext => Some(Command::Feeds(FeedsCommand::MoveFeedUnsubscriptionPopupSelection(Direction::Right))),
        CommandId::SelectFeedUnsubscriptionPopup => Some(Command::Feeds(FeedsCommand::SelectFeedUnsubscriptionPopup)),
        CommandId::CancelFeedUnsubscriptionPopup => Some(Command::Feeds(FeedsCommand::CancelFeedUnsubscriptionPopup)),
        CommandId::MoveFilterRequirementPrev => Some(Command::Filter(FilterCommand::MoveFilterRequirement(Direction::Left))),
        CommandId::MoveFilterRequirementNext => Some(Command::Filter(FilterCommand::MoveFilterRequirement(Direction::Right))),
        CommandId::ActivateCategoryFiltering => Some(Command::Filter(FilterCommand::ActivateCategoryFiltering)),
        CommandId::ActivateSearchFiltering => Some(Command::Filter(FilterCommand::ActivateSearchFiltering)),
        CommandId::DeactivateFiltering => Some(Command::Filter(FilterCommand::DeactivateFiltering)),
        CommandId::MoveGithubNotificationPrev => Some(Command::Gh(GhCommand::MoveNotification(Direction::Up))),
        CommandId::MoveGithubNotificationNext => Some(Command::Gh(GhCommand::MoveNotification(Direction::Down))),
        CommandId::MoveGithubNotificationFirst => Some(Command::Gh(GhCommand::MoveNotificationFirst)),
        CommandId::MoveGithubNotificationLast => Some(Command::Gh(GhCommand::MoveNotificationLast)),
        CommandId::OpenGithubNotification => Some(Command::Gh(GhCommand::OpenNotification)),
        CommandId::OpenGithubNotificationWithDone => Some(Command::Gh(GhCommand::OpenNotificationAndMarkAsDone)),
        CommandId::ReloadGithubNotifications => Some(Command::Gh(GhCommand::ReloadNotifications)),
        CommandId::MarkGithubNotificationAsDone => Some(Command::Gh(GhCommand::MarkNotificationAsDone)),
        CommandId::MarkGithubNotificationAsDoneAll => Some(Command::Gh(GhCommand::MarkAllNotificationsAsDone)),
        CommandId::UnsubscribeGithubThread => Some(Command::Gh(GhCommand::UnsubscribeThread)),
        CommandId::OpenGithubNotificationFilterPopup => Some(Command::Gh(GhCommand::OpenNotificationFilter)),
        CommandId::CloseGithubNotificationFilterPopup => Some(Command::Gh(GhCommand::CloseNotificationFilter)),
        CommandId::ToggleGithubNotificationFilterPopupIncludeUnread => Some(Command::Gh(GhCommand::ToggleNotificationFilter(GhNotificationFilterOption::UnreadOnly))),
        CommandId::ToggleGithubNotificationFilterPopupParticipating => Some(Command::Gh(GhCommand::ToggleNotificationFilter(GhNotificationFilterOption::ParticipatingOnly))),
        CommandId::ToggleGithubNotificationFilterPopupVisibilityPublic => Some(Command::Gh(GhCommand::ToggleNotificationFilter(GhNotificationFilterOption::Visibility(RepoVisibility::Public)))),
        CommandId::ToggleGithubNotificationFilterPopupVisibilityPrivate => Some(Command::Gh(GhCommand::ToggleNotificationFilter(GhNotificationFilterOption::Visibility(RepoVisibility::Private)))),
        CommandId::ToggleGithubNotificationFilterPopupPullRequestOpen => Some(Command::Gh(GhCommand::ToggleNotificationFilter(GhNotificationFilterOption::PullRequestState(PullRequestState::Open)))),
        CommandId::ToggleGithubNotificationFilterPopupPullRequestClosed => Some(Command::Gh(GhCommand::ToggleNotificationFilter(GhNotificationFilterOption::PullRequestState(PullRequestState::Closed)))),
        CommandId::ToggleGithubNotificationFilterPopupPullRequestMerged => Some(Command::Gh(GhCommand::ToggleNotificationFilter(GhNotificationFilterOption::PullRequestState(PullRequestState::Merged)))),
        CommandId::ToggleGithubNotificationFilterPopupReasonMentioned => Some(Command::Gh(GhCommand::ToggleNotificationFilter(GhNotificationFilterOption::Reason(Reason::Mention)))),
        CommandId::ToggleGithubNotificationFilterPopupReasonReviewRequested => Some(Command::Gh(GhCommand::ToggleNotificationFilter(GhNotificationFilterOption::Reason(Reason::ReviewRequested)))),
    }
}

/// The application command a command id stands for, the no-op command standing for
/// `Command::Nop`.
pub open spec fn command_from_id(id: CommandId) -> Command {
    match command_of(id) {
        Some(c) => c,
        None => Command::Nop,
    }
}

impl From<CommandId> for Command {
    fn from(id: CommandId) -> (c: Command) {
        match id.build() {
            Some(c) => c,
            None => Command::Nop,
        }
    }
}

impl vstd::std_specs::convert::FromSpecImpl<CommandId> for Command {
    open spec fn obeys_from_spec() -> bool {
        true
    }

    open spec fn from_spec(v: CommandId) -> Command {
        command_from_id(v)
    }
}

/// Whether `value` names `id` canonically, by an alias or by its prompt name.
pub open spec fn command_matches(id: CommandId, value: Seq<char>) -> bool {
    ||| command_name(id) == value
    ||| command_aliases(id).contains(value)
    ||| command_typable(id) == Some(value)
}

/// The first registered command, from position `i` on, that `value` names.
pub open spec fn command_lookup_from(value: Seq<char>, i: nat) -> Option<CommandId>
    decreases COMMAND_COUNT - i,
{
    if i >= COMMAND_COUNT {
        None
    } else if command_matches(command_at(i as int), value) {
        Some(command_at(i as int))
    } else {
        command_lookup_from(value, i + 1)
    }
}

/// The first registered command that `value` names.
pub open spec fn command_lookup(value: Seq<char>) -> Option<CommandId> {
    command_lookup_from(value, 0)
}

/// Whether a command may be bound in a layer; the no-op command may be bound anywhere.
pub open spec fn command_allows_layer(id: CommandId, layer: Layer) -> bool {
    id == CommandId::NoOp || command_layers(id).contains(layer)
}

/// Metadata used to parse and validate a command id.
pub struct CommandSpec {
    pub id: CommandId,
    /// Additional names accepted in configuration besides the canonical id.
    pub aliases: Vec<&'static str>,
    pub typable: Option<&'static str>,
    pub desc: &'static str,
    pub layers: Vec<Layer>,
}

impl CommandSpec {
    /// Whether this spec may be bound in `layer`.
    pub fn allows_layer(&self, layer: Layer) -> (r: bool)
        ensures
            r == (self.id == CommandId::NoOp || self.layers@.contains(layer)),
    {
        if self.id == CommandId::NoOp {
            return true;
        }
        let mut i: usize = 0;
        while i < self.layers.len()
            invariant
                i <= self.layers@.len(),
                forall|j: int| 0 <= j < i ==> self.layers@[j] != layer,
            decreases self.layers@.len() - i,
        {
            if self.layers[i] == layer {
                return true;
            }
            i += 1;
        }
        false
    }

    /// Whether `value` names the command of this spec.
    pub fn names(&self, value: &str) -> (r: bool)
        requires
            self.aliases@.map_values(|a: &'static str| a@) =~= command_aliases(self.id),
            match self.typable {
                Some(s) => command_typable(self.id) == Some(s@),
                None => command_typable(self.id) is None,
            },
        ensures
            r == command_matches(self.id, value@),
    {
        if str_eq(self.id.as_str(), value) {
            return true;
        }
        let ghost aliases = command_aliases(self.id);
        let mut i: usize = 0;
        while i < self.aliases.len()
            invariant
                i <= self.aliases@.len(),
                aliases == self.aliases@.map_values(|a: &'static str| a@),
                aliases == command_aliases(self.id),
                forall|j: int| 0 <= j < i ==> aliases[j] != value@,
            decreases self.aliases@.len() - i,
        {
            if str_eq(self.aliases[i], value) {
                assert(aliases[i as int] == value@);
                assert(aliases.contains(value@));
                return true;
            }
            i += 1;
        }
        assert(!aliases.contains(value@));
        match self.typable {
            Some(t) => str_eq(t, value),
            None => false,
        }
    }
}

/// Catalog of command ids available to keymap configuration.
#[derive(Clone, Copy, Debug, Default)]
pub struct CommandRegistry;

impl CommandRegistry {
    /// The registered metadata of a command.
    pub fn spec(&self, id: CommandId) -> (s: CommandSpec)
        ensures
            s.id == id,
            s.aliases@.map_values(|a: &'static str| a@) =~= command_aliases(id),
            match s.typable {
                Some(t) => command_typable(id) == Some(t@),
                None => command_typable(id) is None,
            },
            s.desc@ == command_desc(id),
            s.layers@ == command_layers(id),
    {
        CommandSpec {
            id,
            aliases: id.aliases(),
            typable: id.typable(),
            desc: id.desc(),
            layers: id.layers(),
        }
    }

    /// Resolves a configuration name to the first registered command it names.
    pub fn command_id(&self, value: &str) -> (r: Result<CommandId, KeymapError>)
        ensures
            match command_lookup(value@) {
                Some(id) => r == Ok::<CommandId, KeymapError>(id),
                None => r matches Err(KeymapError::UnknownCommand(name)) && name@ == value@,
            },
    {
        let mut i: usize = 0;
        while i < COMMAND_COUNT
            invariant
                i <= COMMAND_COUNT,
                command_lookup(value@) == command_lookup_from(value@, i as nat),
            decreases COMMAND_COUNT - i,
        {
            let id = CommandId::from_index(i);
            let spec = self.spec(id);
            if spec.names(value) {
                return Ok(id);
            }
            i += 1;
        }
        Err(KeymapError::UnknownCommand(value.to_owned()))
    }

    /// Checks that a binding's command may be bound in `layer`.
    pub fn validate_binding(&self, layer: Layer, binding: &KeyBinding) -> (r: Result<(), KeymapError>)
        ensures
            command_allows_layer(binding.command, layer) ==> r is Ok,
            !command_allows_layer(binding.command, layer) ==> r == Err::<(), KeymapError>(
                KeymapError::CommandNotAllowed { layer, command: binding.command },
            ),
    {
        let spec = self.spec(binding.command);
        if spec.allows_layer(layer) {
            Ok(())
        } else {
            Err(KeymapError::CommandNotAllowed { layer, command: binding.command })
        }
    }
}

} // verus!
