//! Name resolution in the command registry: every name a command is known
//! by leads back to that command.
use vstd::prelude::*;

use crate::keymap::command::{
    command_aliases, command_at, command_index, command_lookup, command_lookup_from,
    command_matches, command_name, CommandId, COMMAND_COUNT,
};

verus! {

/// A few characters of a name together with its length; the names of two
/// different commands never agree on all of them.
pub open spec fn name_signature(v: Seq<char>) -> (nat, char, char, char) {
    (
        v.len(),
        if v.len() >= 1 { v[0] } else { ' ' },
        if v.len() >= 3 { v[v.len() - 3] } else { ' ' },
        if v.len() >= 10 { v[v.len() - 10] } else { ' ' },
    )
}

/// The command whose names have the signature `sig`, if any.
pub open spec fn signature_owner(sig: (nat, char, char, char)) -> Option<CommandId> {
    if sig == (5nat, 'n', '_', ' ') {
        Some(CommandId::NoOp)
    } else if sig == (3nat, 'n', 'n', ' ') {
        Some(CommandId::NoOp)
    } else if sig == (8nat, 'a', 'u', ' ') {
        Some(CommandId::Quit)
    } else if sig == (4nat, 'q', 'u', ' ') {
        Some(CommandId::Quit)
    } else if sig == (5nat, ':', 'u', ' ') {
        Some(CommandId::Quit)
    } else if sig == (10nat, 'a', 'r', 'a') {
        Some(CommandId::ForceRedraw)
    } else if sig == (12nat, 'f', 'r', 'r') {
        Some(CommandId::ForceRedraw)
    } else if sig == (7nat, ':', 'r', ' ') {
        Some(CommandId::ForceRedraw)
    } else if sig == (12nat, 't', 'a', 'e') {
        Some(CommandId::RotateTheme)
    } else if sig == (12nat, 'r', 'e', 't') {
        Some(CommandId::RotateTheme)
    } else if sig == (18nat, 'l', 'a', 't') {
        Some(CommandId::Authenticate)
    } else if sig == (12nat, 'a', 'a', 't') {
        Some(CommandId::Authenticate)
    } else if sig == (19nat, 'l', 'r', 'v') {
        Some(CommandId::MoveAuthenticationProviderPrev)
    } else if sig == (31nat, 'm', 'd', 'n') {
        Some(CommandId::MoveAuthenticationProviderPrev)
    } else if sig == (19nat, 'l', 'e', 'v') {
        Some(CommandId::MoveAuthenticationProviderNext)
    } else if sig == (33nat, 'm', 'd', 'n') {
        Some(CommandId::MoveAuthenticationProviderNext)
    } else if sig == (9nat, 't', 'r', ' ') {
        Some(CommandId::MoveTabPrev)
    } else if sig == (23nat, 'm', 'i', '_') {
        Some(CommandId::MoveTabPrev)
    } else if sig == (9nat, 't', 'e', ' ') {
        Some(CommandId::MoveTabNext)
    } else if sig == (24nat, 'm', 'i', '_') {
        Some(CommandId::MoveTabNext)
    } else if sig == (12nat, 'e', 'r', 't') {
        Some(CommandId::MoveEntryPrev)
    } else if sig == (13nat, 'm', 't', 'e') {
        Some(CommandId::MoveEntryPrev)
    } else if sig == (12nat, 'e', 'e', 't') {
        Some(CommandId::MoveEntryNext)
    } else if sig == (15nat, 'm', 't', 'd') {
        Some(CommandId::MoveEntryNext)
    } else if sig == (13nat, 'e', 'r', 'r') {
        Some(CommandId::MoveEntryFirst)
    } else if sig == (16nat, 'm', 'r', 'n') {
        Some(CommandId::MoveEntryFirst)
    } else if sig == (12nat, 'e', 'a', 't') {
        Some(CommandId::MoveEntryLast)
    } else if sig == (15nat, 'm', 'a', 'e') {
        Some(CommandId::MoveEntryLast)
    } else if sig == (14nat, 'e', 'o', 'i') {
        Some(CommandId::ReloadEntries)
    } else if sig == (14nat, 'r', 'i', 'a') {
        Some(CommandId::ReloadEntries)
    } else if sig == (15nat, ':', 'i', 'a') {
        Some(CommandId::ReloadEntries)
    } else if sig == (12nat, 'e', 'p', 't') {
        Some(CommandId::OpenEntry)
    } else if sig == (10nat, 'o', 't', 'o') {
        Some(CommandId::OpenEntry)
    } else if sig == (11nat, ':', 't', 'o') {
        Some(CommandId::OpenEntry)
    } else if sig == (14nat, 'e', 'w', 'i') {
        Some(CommandId::BrowseEntry)
    } else if sig == (12nat, 'b', 't', 'o') {
        Some(CommandId::BrowseEntry)
    } else if sig == (10nat, 'f', 'r', 'f') {
        Some(CommandId::MoveSubscribedFeedPrev)
    } else if sig == (23nat, 'm', 'e', 'r') {
        Some(CommandId::MoveSubscribedFeedPrev)
    } else if sig == (10nat, 'f', 'e', 'f') {
        Some(CommandId::MoveSubscribedFeedNext)
    } else if sig == (25nat, 'm', 'e', 'r') {
        Some(CommandId::MoveSubscribedFeedNext)
    } else if sig == (11nat, 'f', 'r', 'e') {
        Some(CommandId::MoveSubscribedFeedFirst)
    } else if sig == (26nat, 'm', 'r', 'f') {
        Some(CommandId::MoveSubscribedFeedFirst)
    } else if sig == (10nat, 'f', 'a', 'f') {
        Some(CommandId::MoveSubscribedFeedLast)
    } else if sig == (25nat, 'm', 'a', '_') {
        Some(CommandId::MoveSubscribedFeedLast)
    } else if sig == (15nat, 'f', 'i', '.') {
        Some(CommandId::PromptFeedSubscription)
    } else if sig == (24nat, 'p', 'i', 'b') {
        Some(CommandId::PromptFeedSubscription)
    } else if sig == (10nat, 'f', 'd', 'f') {
        Some(CommandId::PromptFeedEdition)
    } else if sig == (19nat, 'p', 'i', 'e') {
        Some(CommandId::PromptFeedEdition)
    } else if sig == (17nat, 'f', 'i', 'n') {
        Some(CommandId::PromptFeedUnsubscription)
    } else if sig == (26nat, 'p', 'i', 'b') {
        Some(CommandId::PromptFeedUnsubscription)
    } else if sig == (22nat, 'f', 't', 'h') {
        Some(CommandId::RefreshSelectedFeed)
    } else if sig == (21nat, 'r', 'e', 'e') {
        Some(CommandId::RefreshSelectedFeed)
    } else if sig == (22nat, ':', 'e', 'e') {
        Some(CommandId::RefreshSelectedFeed)
    } else if sig == (12nat, 'f', 'o', 'e') {
        Some(CommandId::ReloadSubscription)
    } else if sig == (19nat, 'r', 'i', 'b') {
        Some(CommandId::ReloadSubscription)
    } else if sig == (20nat, ':', 'i', 'b') {
        Some(CommandId::ReloadSubscription)
    } else if sig == (10nat, 'f', 'p', 'f') {
        Some(CommandId::OpenFeed)
    } else if sig == (9nat, 'o', 'e', ' ') {
        Some(CommandId::OpenFeed)
    } else if sig == (28nat, 'f', 'r', 'p') {
        Some(CommandId::MoveFeedUnsubscriptionPopupSelectionPrev)
    } else if sig == (45nat, 'm', 'e', 'c') {
        Some(CommandId::MoveFeedUnsubscriptionPopupSelectionPrev)
    } else if sig == (28nat, 'f', 'e', 'p') {
        Some(CommandId::MoveFeedUnsubscriptionPopupSelectionNext)
    } else if sig == (46nat, 'm', 'g', 't') {
        Some(CommandId::MoveFeedUnsubscriptionPopupSelectionNext)
    } else if sig == (30nat, 'f', 'e', 'p') {
        Some(CommandId::SelectFeedUnsubscriptionPopup)
    } else if sig == (32nat, 's', 'p', 't') {
        Some(CommandId::SelectFeedUnsubscriptionPopup)
    } else if sig == (30nat, 'f', 'c', 'p') {
        Some(CommandId::CancelFeedUnsubscriptionPopup)
    } else if sig == (32nat, 'c', 'p', 't') {
        Some(CommandId::CancelFeedUnsubscriptionPopup)
    } else if sig == (23nat, 'f', 'r', 'e') {
        Some(CommandId::MoveFilterRequirementPrev)
    } else if sig == (28nat, 'm', 'e', 'e') {
        Some(CommandId::MoveFilterRequirementPrev)
    } else if sig == (23nat, 'f', 'e', 'e') {
        Some(CommandId::MoveFilterRequirementNext)
    } else if sig == (29nat, 'm', 'g', 'm') {
        Some(CommandId::MoveFilterRequirementNext)
    } else if sig == (15nat, 'f', 'o', 'r') {
        Some(CommandId::ActivateCategoryFiltering)
    } else if sig == (27nat, 'a', 'i', '_') {
        Some(CommandId::ActivateCategoryFiltering)
    } else if sig == (13nat, 'f', 'r', 't') {
        Some(CommandId::ActivateSearchFiltering)
    } else if sig == (25nat, 'a', 'i', '_') {
        Some(CommandId::ActivateSearchFiltering)
    } else if sig == (12nat, 'f', 'o', 'l') {
        Some(CommandId::DeactivateFiltering)
    } else if sig == (20nat, 'd', 'i', '_') {
        Some(CommandId::DeactivateFiltering)
    } else if sig == (25nat, 'g', 'r', 't') {
        Some(CommandId::MoveGithubNotificationPrev)
    } else if sig == (23nat, 'm', 'i', 't') {
        Some(CommandId::MoveGithubNotificationPrev)
    } else if sig == (25nat, 'g', 'e', 't') {
        Some(CommandId::MoveGithubNotificationNext)
    } else if sig == (25nat, 'm', 'i', 't') {
        Some(CommandId::MoveGithubNotificationNext)
    } else if sig == (26nat, 'g', 'r', 'i') {
        Some(CommandId::MoveGithubNotificationFirst)
    } else if sig == (26nat, 'm', 'r', 't') {
        Some(CommandId::MoveGithubNotificationFirst)
    } else if sig == (25nat, 'g', 'a', 't') {
        Some(CommandId::MoveGithubNotificationLast)
    } else if sig == (25nat, 'm', 'a', 'a') {
        Some(CommandId::MoveGithubNotificationLast)
    } else if sig == (25nat, 'g', 'p', 't') {
        Some(CommandId::OpenGithubNotification)
    } else if sig == (20nat, 'o', 'i', 't') {
        Some(CommandId::OpenGithubNotification)
    } else if sig == (34nat, 'g', 'o', 'n') {
        Some(CommandId::OpenGithubNotificationWithDone)
    } else if sig == (30nat, 'o', 'o', '_') {
        Some(CommandId::OpenGithubNotificationWithDone)
    } else if sig == (27nat, 'g', 'o', 'o') {
        Some(CommandId::ReloadGithubNotifications)
    } else if sig == (23nat, 'r', 'o', 'i') {
        Some(CommandId::ReloadGithubNotifications)
    } else if sig == (30nat, 'g', 'o', '.') {
        Some(CommandId::MarkGithubNotificationAsDone)
    } else if sig == (28nat, 'm', 'o', 'o') {
        Some(CommandId::MarkGithubNotificationAsDone)
    } else if sig == (34nat, 'g', 'o', 'k') {
        Some(CommandId::MarkGithubNotificationAsDoneAll)
    } else if sig == (32nat, 'm', 'a', 's') {
        Some(CommandId::MarkGithubNotificationAsDoneAll)
    } else if sig == (39nat, 'g', 'e', 'i') {
        Some(CommandId::UnsubscribeGithubThread)
    } else if sig == (21nat, 'u', 'e', '_') {
        Some(CommandId::UnsubscribeGithubThread)
    } else if sig == (32nat, 'g', 'p', 'i') {
        Some(CommandId::OpenGithubNotificationFilterPopup)
    } else if sig == (33nat, 'o', 'p', 'l') {
        Some(CommandId::OpenGithubNotificationFilterPopup)
    } else if sig == (33nat, 'g', 'o', 'l') {
        Some(CommandId::CloseGithubNotificationFilterPopup)
    } else if sig == (34nat, 'c', 'p', 'l') {
        Some(CommandId::CloseGithubNotificationFilterPopup)
    } else if sig == (49nat, 'g', 'g', 'e') {
        Some(CommandId::ToggleGithubNotificationFilterPopupIncludeUnread)
    } else if sig == (50nat, 't', 'e', 'u') {
        Some(CommandId::ToggleGithubNotificationFilterPopupIncludeUnread)
    } else if sig == (48nat, 'g', 'g', 'i') {
        Some(CommandId::ToggleGithubNotificationFilterPopupParticipating)
    } else if sig == (49nat, 't', 'i', 't') {
        Some(CommandId::ToggleGithubNotificationFilterPopupParticipating)
    } else if sig == (52nat, 'g', 'g', 'l') {
        Some(CommandId::ToggleGithubNotificationFilterPopupVisibilityPublic)
    } else if sig == (53nat, 't', 'l', 'i') {
        Some(CommandId::ToggleGithubNotificationFilterPopupVisibilityPublic)
    } else if sig == (53nat, 'g', 'g', 'a') {
        Some(CommandId::ToggleGithubNotificationFilterPopupVisibilityPrivate)
    } else if sig == (54nat, 't', 'a', 't') {
        Some(CommandId::ToggleGithubNotificationFilterPopupVisibilityPrivate)
    } else if sig == (42nat, 'g', 'g', 'p') {
        Some(CommandId::ToggleGithubNotificationFilterPopupPullRequestOpen)
    } else if sig == (43nat, 't', 'p', 'u') {
        Some(CommandId::ToggleGithubNotificationFilterPopupPullRequestOpen)
    } else if sig == (44nat, 'g', 'g', 's') {
        Some(CommandId::ToggleGithubNotificationFilterPopupPullRequestClosed)
    } else if sig == (45nat, 't', 's', '_') {
        Some(CommandId::ToggleGithubNotificationFilterPopupPullRequestClosed)
    } else if sig == (44nat, 'g', 'g', 'g') {
        Some(CommandId::ToggleGithubNotificationFilterPopupPullRequestMerged)
    } else if sig == (45nat, 't', 'g', '_') {
        Some(CommandId::ToggleGithubNotificationFilterPopupPullRequestMerged)
    } else if sig == (51nat, 'g', 'g', 'n') {
        Some(CommandId::ToggleGithubNotificationFilterPopupReasonMentioned)
    } else if sig == (52nat, 't', 'n', '_') {
        Some(CommandId::ToggleGithubNotificationFilterPopupReasonMentioned)
    } else if sig == (58nat, 'g', 'g', 't') {
        Some(CommandId::ToggleGithubNotificationFilterPopupReasonReviewRequested)
    } else if sig == (49nat, 't', 'i', 's') {
        Some(CommandId::ToggleGithubNotificationFilterPopupReasonReviewRequested)
    } else {
        None
    }
}

/// Each name of a command has a signature owned by that command.
proof fn lemma_signature_owner(id: CommandId, value: Seq<char>)
    requires
        command_matches(id, value),
    ensures
        signature_owner(name_signature(value)) == Some(id),
{
    match id {
        CommandId::NoOp => {
            reveal_strlit("no_op");
            reveal_strlit("nop");
            assert(command_aliases(id)[0] == "nop"@);
        },
        CommandId::Quit => {
            reveal_strlit("app.quit");
            reveal_strlit("quit");
            reveal_strlit(":quit");
            assert(command_aliases(id)[0] == "quit"@);
        },
        CommandId::ForceRedraw => {
            reveal_strlit("app.redraw");
            reveal_strlit("force_redraw");
            reveal_strlit(":redraw");
            assert(command_aliases(id)[0] == "force_redraw"@);
        },
        CommandId::RotateTheme => {
            reveal_strlit("theme.rotate");
            reveal_strlit("rotate_theme");
            assert(command_aliases(id)[0] == "rotate_theme"@);
        },
        CommandId::Authenticate => {
            reveal_strlit("login.authenticate");
            reveal_strlit("authenticate");
            assert(command_aliases(id)[0] == "authenticate"@);
        },
        CommandId::MoveAuthenticationProviderPrev => {
            reveal_strlit("login.provider.prev");
            reveal_strlit("move_up_authentication_provider");
            assert(command_aliases(id)[0] == "move_up_authentication_provider"@);
        },
        CommandId::MoveAuthenticationProviderNext => {
            reveal_strlit("login.provider.next");
            reveal_strlit("move_down_authentication_provider");
            assert(command_aliases(id)[0] == "move_down_authentication_provider"@);
        },
        CommandId::MoveTabPrev => {
            reveal_strlit("tabs.prev");
            reveal_strlit("move_left_tab_selection");
            assert(command_aliases(id)[0] == "move_left_tab_selection"@);
        },
        CommandId::MoveTabNext => {
            reveal_strlit("tabs.next");
            reveal_strlit("move_right_tab_selection");
            assert(command_aliases(id)[0] == "move_right_tab_selection"@);
        },
        CommandId::MoveEntryPrev => {
            reveal_strlit("entries.prev");
            reveal_strlit("move_up_entry");
            assert(command_aliases(id)[0] == "move_up_entry"@);
        },
        CommandId::MoveEntryNext => {
            reveal_strlit("entries.next");
            reveal_strlit("move_down_entry");
            assert(command_aliases(id)[0] == "move_down_entry"@);
        },
        CommandId::MoveEntryFirst => {
            reveal_strlit("entries.first");
            reveal_strlit("move_entry_first");
            assert(command_aliases(id)[0] == "move_entry_first"@);
        },
        CommandId::MoveEntryLast => {
            reveal_strlit("entries.last");
            reveal_strlit("move_entry_last");
            assert(command_aliases(id)[0] == "move_entry_last"@);
        },
        CommandId::ReloadEntries => {
            reveal_strlit("entries.reload");
            reveal_strlit("reload_entries");
            reveal_strlit(":reload-entries");
            assert(command_aliases(id)[0] == "reload_entries"@);
        },
        CommandId::OpenEntry => {
            reveal_strlit("entries.open");
            reveal_strlit("open_entry");
            reveal_strlit(":open-entry");
            assert(command_aliases(id)[0] == "open_entry"@);
        },
        CommandId::BrowseEntry => {
            reveal_strlit("entries.browse");
            reveal_strlit("browse_entry");
            assert(command_aliases(id)[0] == "browse_entry"@);
        },
        CommandId::MoveSubscribedFeedPrev => {
            reveal_strlit("feeds.prev");
            reveal_strlit("move_up_subscribed_feed");
            assert(command_aliases(id)[0] == "move_up_subscribed_feed"@);
        },
        CommandId::MoveSubscribedFeedNext => {
            reveal_strlit("feeds.next");
            reveal_strlit("move_down_subscribed_feed");
            assert(command_aliases(id)[0] == "move_down_subscribed_feed"@);
        },
        CommandId::MoveSubscribedFeedFirst => {
            reveal_strlit("feeds.first");
            reveal_strlit("move_subscribed_feed_first");
            assert(command_aliases(id)[0] == "move_subscribed_feed_first"@);
        },
        CommandId::MoveSubscribedFeedLast => {
            reveal_strlit("feeds.last");
            reveal_strlit("move_subscribed_feed_last");
            assert(command_aliases(id)[0] == "move_subscribed_feed_last"@);
        },
        CommandId::PromptFeedSubscription => {
            reveal_strlit("feeds.subscribe");
            reveal_strlit("prompt_feed_subscription");
            assert(command_aliases(id)[0] == "prompt_feed_subscription"@);
        },
        CommandId::PromptFeedEdition => {
            reveal_strlit("feeds.edit");
            reveal_strlit("prompt_feed_edition");
            assert(command_aliases(id)[0] == "prompt_feed_edition"@);
        },
        CommandId::PromptFeedUnsubscription => {
            reveal_strlit("feeds.unsubscribe");
            reveal_strlit("prompt_feed_unsubscription");
            assert(command_aliases(id)[0] == "prompt_feed_unsubscription"@);
        },
        CommandId::RefreshSelectedFeed => {
            reveal_strlit("feeds.refresh-selected");
            reveal_strlit("refresh_selected_feed");
            reveal_strlit(":refresh-selected-feed");
            assert(command_aliases(id)[0] == "refresh_selected_feed"@);
        },
        CommandId::ReloadSubscription => {
            reveal_strlit("feeds.reload");
            reveal_strlit("reload_subscription");
            reveal_strlit(":reload-subscription");
            assert(command_aliases(id)[0] == "reload_subscription"@);
        },
        CommandId::OpenFeed => {
            reveal_strlit("feeds.open");
            reveal_strlit("open_feed");
            assert(command_aliases(id)[0] == "open_feed"@);
        },
        CommandId::MoveFeedUnsubscriptionPopupSelectionPrev => {
            reveal_strlit("feeds.unsubscribe-popup.prev");
            reveal_strlit("move_feed_unsubscription_popup_selection_left");
            assert(command_aliases(id)[0] == "move_feed_unsubscription_popup_selection_left"@);
        },
        CommandId::MoveFeedUnsubscriptionPopupSelectionNext => {
            reveal_strlit("feeds.unsubscribe-popup.next");
            reveal_strlit("move_feed_unsubscription_popup_selection_right");
            assert(command_aliases(id)[0] == "move_feed_unsubscription_popup_selection_right"@);
        },
        CommandId::SelectFeedUnsubscriptionPopup => {
            reveal_strlit("feeds.unsubscribe-popup.select");
            reveal_strlit("select_feed_unsubscription_popup");
            assert(command_aliases(id)[0] == "select_feed_unsubscription_popup"@);
        },
        CommandId::CancelFeedUnsubscriptionPopup => {
            reveal_strlit("feeds.unsubscribe-popup.cancel");
            reveal_strlit("cancel_feed_unsubscription_popup");
            assert(command_aliases(id)[0] == "cancel_feed_unsubscription_popup"@);
        },
        CommandId::MoveFilterRequirementPrev => {
            reveal_strlit("filter.requirement.prev");
            reveal_strlit("move_filter_requirement_left");
            assert(command_aliases(id)[0] == "move_filter_requirement_left"@);
        },
        CommandId::MoveFilterRequirementNext => {
            reveal_strlit("filter.requirement.next");
            reveal_strlit("move_filter_requirement_right");
            assert(command_aliases(id)[0] == "move_filter_requirement_right"@);
        },
        CommandId::ActivateCategoryFiltering => {
            reveal_strlit("filter.category");
            reveal_strlit("activate_category_filtering");
            assert(command_aliases(id)[0] == "activate_category_filtering"@);
        },
        CommandId::ActivateSearchFiltering => {
            reveal_strlit("filter.search");
            reveal_strlit("activate_search_filtering");
            assert(command_aliases(id)[0] == "activate_search_filtering"@);
        },
        CommandId::DeactivateFiltering => {
            reveal_strlit("filter.close");
            reveal_strlit("deactivate_filtering");
            assert(command_aliases(id)[0] == "deactivate_filtering"@);
        },
        CommandId::MoveGithubNotificationPrev => {
            reveal_strlit("github-notifications.prev");
            reveal_strlit("move_up_gh_notification");
            assert(command_aliases(id)[0] == "move_up_gh_notification"@);
        },
        CommandId::MoveGithubNotificationNext => {
            reveal_strlit("github-notifications.next");
            reveal_strlit("move_down_gh_notification");
            assert(command_aliases(id)[0] == "move_down_gh_notification"@);
        },
        CommandId::MoveGithubNotificationFirst => {
            reveal_strlit("github-notifications.first");
            reveal_strlit("move_gh_notification_first");
            assert(command_aliases(id)[0] == "move_gh_notification_first"@);
        },
        CommandId::MoveGithubNotificationLast => {
            reveal_strlit("github-notifications.last");
            reveal_strlit("move_gh_notification_last");
            assert(command_aliases(id)[0] == "move_gh_notification_last"@);
        },
        CommandId::OpenGithubNotification => {
            reveal_strlit("github-notifications.open");
            reveal_strlit("open_gh_notification");
            assert(command_aliases(id)[0] == "open_gh_notification"@);
        },
        CommandId::OpenGithubNotificationWithDone => {
            reveal_strlit("github-notifications.open-and-done");
            reveal_strlit("open_gh_notification_with_done");
            assert(command_aliases(id)[0] == "open_gh_notification_with_done"@);
        },
        CommandId::ReloadGithubNotifications => {
            reveal_strlit("github-notifications.reload");
            reveal_strlit("reload_gh_notifications");
            assert(command_aliases(id)[0] == "reload_gh_notifications"@);
        },
        CommandId::MarkGithubNotificationAsDone => {
            reveal_strlit("github-notifications.mark-done");
            reveal_strlit("mark_gh_notification_as_done");
            assert(command_aliases(id)[0] == "mark_gh_notification_as_done"@);
        },
        CommandId::MarkGithubNotificationAsDoneAll => {
            reveal_strlit("github-notifications.mark-all-done");
            reveal_strlit("mark_gh_notification_as_done_all");
            assert(command_aliases(id)[0] == "mark_gh_notification_as_done_all"@);
        },
        CommandId::UnsubscribeGithubThread => {
            reveal_strlit("github-notifications.unsubscribe-thread");
            reveal_strlit("unsubscribe_gh_thread");
            assert(command_aliases(id)[0] == "unsubscribe_gh_thread"@);
        },
        CommandId::OpenGithubNotificationFilterPopup => {
            reveal_strlit("github-notifications.filter.open");
            reveal_strlit("open_gh_notification_filter_popup");
            assert(command_aliases(id)[0] == "open_gh_notification_filter_popup"@);
        },
        CommandId::CloseGithubNotificationFilterPopup => {
            reveal_strlit("github-notifications.filter.close");
            reveal_strlit("close_gh_notification_filter_popup");
            assert(command_aliases(id)[0] == "close_gh_notification_filter_popup"@);
        },
        CommandId::ToggleGithubNotificationFilterPopupIncludeUnread => {
            reveal_strlit("github-notifications.filter.include-unread.toggle");
            reveal_strlit("toggle_gh_notification_filter_popup_include_unread");
            assert(command_aliases(id)[0] == "toggle_gh_notification_filter_popup_include_unread"@);
        },
        CommandId::ToggleGithubNotificationFilterPopupParticipating => {
            reveal_strlit("github-notifications.filter.participating.toggle");
            reveal_strlit("toggle_gh_notification_filter_popup_participating");
            assert(command_aliases(id)[0] == "toggle_gh_notification_filter_popup_participating"@);
        },
        CommandId::ToggleGithubNotificationFilterPopupVisibilityPublic => {
            reveal_strlit("github-notifications.filter.visibility-public.toggle");
            reveal_strlit("toggle_gh_notification_filter_popup_visibility_public");
            assert(command_aliases(id)[0] == "toggle_gh_notification_filter_popup_visibility_public"@);
        },
        CommandId::ToggleGithubNotificationFilterPopupVisibilityPrivate => {
            reveal_strlit("github-notifications.filter.visibility-private.toggle");
            reveal_strlit("toggle_gh_notification_filter_popup_visibility_private");
            assert(command_aliases(id)[0] == "toggle_gh_notification_filter_popup_visibility_private"@);
        },
        CommandId::ToggleGithubNotificationFilterPopupPullRequestOpen => {
            reveal_strlit("github-notifications.filter.pr-open.toggle");
            reveal_strlit("toggle_gh_notification_filter_popup_pr_open");
            assert(command_aliases(id)[0] == "toggle_gh_notification_filter_popup_pr_open"@);
        },
        CommandId::ToggleGithubNotificationFilterPopupPullRequestClosed => {
            reveal_strlit("github-notifications.filter.pr-closed.toggle");
            reveal_strlit("toggle_gh_notification_filter_popup_pr_closed");
            assert(command_aliases(id)[0] == "toggle_gh_notification_filter_popup_pr_closed"@);
        },
        CommandId::ToggleGithubNotificationFilterPopupPullRequestMerged => {
            reveal_strlit("github-notifications.filter.pr-merged.toggle");
            reveal_strlit("toggle_gh_notification_filter_popup_pr_merged");
            assert(command_aliases(id)[0] == "toggle_gh_notification_filter_popup_pr_merged"@);
        },
        CommandId::ToggleGithubNotificationFilterPopupReasonMentioned => {
            reveal_strlit("github-notifications.filter.reason-mentioned.toggle");
            reveal_strlit("toggle_gh_notification_filter_popup_reason_mentioned");
            assert(command_aliases(id)[0] == "toggle_gh_notification_filter_popup_reason_mentioned"@);
        },
        CommandId::ToggleGithubNotificationFilterPopupReasonReviewRequested => {
            reveal_strlit("github-notifications.filter.reason-review-requested.toggle");
            reveal_strlit("toggle_gh_notification_filter_popup_reason_review");
            assert(command_aliases(id)[0] == "toggle_gh_notification_filter_popup_reason_review"@);
        },
    }
}

/// Looking a name up from position `i` finds the command at position `k`
/// when that command is the first one from `i` on that the name matches.
proof fn lemma_lookup_from_first(value: Seq<char>, i: nat, k: nat)
    requires
        i <= k < COMMAND_COUNT,
        command_matches(command_at(k as int), value),
        forall|j: int| i <= j < k ==> !command_matches(#[trigger] command_at(j), value),
    ensures
        command_lookup_from(value, i) == Some(command_at(k as int)),
    decreases k - i,
{
    if i < k {
        lemma_lookup_from_first(value, i + 1, k);
    }
}

/// Every name of a registered command (its canonical id, each of its
/// aliases and its prompt name) resolves back to that command: no two
/// commands of the registry share a name.
pub proof fn lemma_registry_names_resolve(id: CommandId, value: Seq<char>)
    requires
        command_matches(id, value),
    ensures
        command_lookup(value) == Some(id),
{
    lemma_signature_owner(id, value);
    let k = command_index(id);
    assert(command_at(k as int) == id);
    assert forall|j: int| 0 <= j < k implies !command_matches(#[trigger] command_at(j), value) by {
        if command_matches(command_at(j), value) {
            lemma_signature_owner(command_at(j), value);
            assert(command_index(command_at(j)) == j);
        }
    }
    lemma_lookup_from_first(value, 0, k);
}

/// The canonical name of a command resolves back to that command.
pub proof fn lemma_registry_canonical_name_resolves(id: CommandId)
    ensures
        command_lookup(command_name(id)) == Some(id),
{
    lemma_registry_names_resolve(id, command_name(id));
}

} // verus!
