use vstd::prelude::*;

use crate::keymap::command::{command_allows_layer, command_layers, CommandId};
use crate::keymap::compiled::{apart_from_first, keys_and_commands, separated};
use crate::keymap::config::{BindingView, KeymapConfig};
use crate::keymap::key::{KeyBinding, KeyCode, KeyModifiers, KeySequence, KeyStroke};
use crate::keymap::layer::Layer;

verus! {

/// The modifiers shift, control and alt as given, no other.
pub open spec fn held(shift: bool, control: bool, alt: bool) -> KeyModifiers {
    KeyModifiers { shift, control, alt, super_key: false, hyper: false, meta: false }
}

/// A key stroke of a code with modifiers.
pub open spec fn stroke(code: KeyCode, modifiers: KeyModifiers) -> KeyStroke {
    KeyStroke { code, modifiers }
}

/// The default bindings of a layer, in order.
pub open spec fn default_bindings(layer: Layer) -> Seq<BindingView> {
    match layer {
        Layer::App => seq![
            (seq![stroke(KeyCode::Char('c'), held(false, true, false))], CommandId::Quit, Some("Quit app"@)),
            (seq![stroke(KeyCode::Char('r'), held(true, false, false))], CommandId::ForceRedraw, Some("Redraw screen"@)),
        ],
        Layer::Global => seq![
            (seq![stroke(KeyCode::Char('q'), held(false, false, false))], CommandId::Quit, Some("Quit app"@)),
            (seq![stroke(KeyCode::Char('t'), held(true, false, false))], CommandId::RotateTheme, Some("Rotate theme"@)),
        ],
        Layer::Login => seq![
            (seq![stroke(KeyCode::Enter, held(false, false, false))], CommandId::Authenticate, Some("Authenticate"@)),
            (seq![stroke(KeyCode::Char('k'), held(false, false, false))], CommandId::MoveAuthenticationProviderPrev, Some("Previous authentication provider"@)),
            (seq![stroke(KeyCode::Up, held(false, false, false))], CommandId::MoveAuthenticationProviderPrev, Some("Previous authentication provider"@)),
            (seq![stroke(KeyCode::Char('j'), held(false, false, false))], CommandId::MoveAuthenticationProviderNext, Some("Next authentication provider"@)),
            (seq![stroke(KeyCode::Down, held(false, false, false))], CommandId::MoveAuthenticationProviderNext, Some("Next authentication provider"@)),
        ],
        Layer::Tabs => seq![
            (seq![stroke(KeyCode::Tab, held(false, false, false))], CommandId::MoveTabNext, Some("Next tab"@)),
            (seq![stroke(KeyCode::BackTab, held(false, false, false))], CommandId::MoveTabPrev, Some("Previous tab"@)),
        ],
        Layer::Entries => seq![
            (seq![stroke(KeyCode::Char('k'), held(false, false, false))], CommandId::MoveEntryPrev, Some("Previous entry"@)),
            (seq![stroke(KeyCode::Up, held(false, false, false))], CommandId::MoveEntryPrev, Some("Previous entry"@)),
            (seq![stroke(KeyCode::Char('j'), held(false, false, false))], CommandId::MoveEntryNext, Some("Next entry"@)),
            (seq![stroke(KeyCode::Down, held(false, false, false))], CommandId::MoveEntryNext, Some("Next entry"@)),
            (seq![stroke(KeyCode::Char('r'), held(false, false, false))], CommandId::ReloadEntries, Some("Refresh timeline"@)),
            (seq![stroke(KeyCode::Enter, held(false, false, false))], CommandId::OpenEntry, Some("Open entry with web browser"@)),
            (seq![stroke(KeyCode::Char(' '), held(false, false, false))], CommandId::BrowseEntry, Some("Browse entry with text browser"@)),
            (seq![stroke(KeyCode::Char('g'), held(false, false, false)), stroke(KeyCode::Char('g'), held(false, false, false))], CommandId::MoveEntryFirst, Some("Go to first entry"@)),
            (seq![stroke(KeyCode::Char('g'), held(false, false, false)), stroke(KeyCode::Char('e'), held(false, false, false))], CommandId::MoveEntryLast, Some("Go to last entry"@)),
        ],
        Layer::Feeds => seq![
            (seq![stroke(KeyCode::Char('a'), held(false, false, false))], CommandId::PromptFeedSubscription, Some("Add feed subscription"@)),
            (seq![stroke(KeyCode::Char('e'), held(false, false, false))], CommandId::PromptFeedEdition, Some("Edit feed subscription"@)),
            (seq![stroke(KeyCode::Char('d'), held(false, false, false))], CommandId::PromptFeedUnsubscription, Some("Delete feed subscription"@)),
            (seq![stroke(KeyCode::Char('k'), held(false, false, false))], CommandId::MoveSubscribedFeedPrev, Some("Previous feed"@)),
            (seq![stroke(KeyCode::Up, held(false, false, false))], CommandId::MoveSubscribedFeedPrev, Some("Previous feed"@)),
            (seq![stroke(KeyCode::Char('j'), held(false, false, false))], CommandId::MoveSubscribedFeedNext, Some("Next feed"@)),
            (seq![stroke(KeyCode::Down, held(false, false, false))], CommandId::MoveSubscribedFeedNext, Some("Next feed"@)),
            (seq![stroke(KeyCode::Char('r'), held(false, false, false))], CommandId::ReloadSubscription, Some("Reload subscriptions"@)),
            (seq![stroke(KeyCode::Enter, held(false, false, false))], CommandId::OpenFeed, Some("Open selected feed"@)),
            (seq![stroke(KeyCode::Char('g'), held(false, false, false)), stroke(KeyCode::Char('g'), held(false, false, false))], CommandId::MoveSubscribedFeedFirst, Some("Go to first feed"@)),
            (seq![stroke(KeyCode::Char('g'), held(false, false, false)), stroke(KeyCode::Char('e'), held(false, false, false))], CommandId::MoveSubscribedFeedLast, Some("Go to last feed"@)),
        ],
        Layer::Filter => seq![
            (seq![stroke(KeyCode::Char('h'), held(false, false, false))], CommandId::MoveFilterRequirementPrev, Some("Previous requirement filter"@)),
            (seq![stroke(KeyCode::Left, held(false, false, false))], CommandId::MoveFilterRequirementPrev, Some("Previous requirement filter"@)),
            (seq![stroke(KeyCode::Char('l'), held(false, false, false))], CommandId::MoveFilterRequirementNext, Some("Next requirement filter"@)),
            (seq![stroke(KeyCode::Right, held(false, false, false))], CommandId::MoveFilterRequirementNext, Some("Next requirement filter"@)),
            (seq![stroke(KeyCode::Char('c'), held(false, false, false))], CommandId::ActivateCategoryFiltering, Some("Activate category filter"@)),
            (seq![stroke(KeyCode::Char('/'), held(false, false, false))], CommandId::ActivateSearchFiltering, Some("Activate search filter"@)),
            (seq![stroke(KeyCode::Esc, held(false, false, false))], CommandId::DeactivateFiltering, Some("Deactivate filter"@)),
        ],
        Layer::CategoryFilter => Seq::<BindingView>::empty(),
        Layer::SearchPrompt => Seq::<BindingView>::empty(),
        Layer::UnsubscribePopup => seq![
            (seq![stroke(KeyCode::Char('h'), held(false, false, false))], CommandId::MoveFeedUnsubscriptionPopupSelectionPrev, Some("Previous popup selection"@)),
            (seq![stroke(KeyCode::Left, held(false, false, false))], CommandId::MoveFeedUnsubscriptionPopupSelectionPrev, Some("Previous popup selection"@)),
            (seq![stroke(KeyCode::Char('l'), held(false, false, false))], CommandId::MoveFeedUnsubscriptionPopupSelectionNext, Some("Next popup selection"@)),
            (seq![stroke(KeyCode::Right, held(false, false, false))], CommandId::MoveFeedUnsubscriptionPopupSelectionNext, Some("Next popup selection"@)),
            (seq![stroke(KeyCode::Enter, held(false, false, false))], CommandId::SelectFeedUnsubscriptionPopup, Some("Select popup item"@)),
            (seq![stroke(KeyCode::Esc, held(false, false, false))], CommandId::CancelFeedUnsubscriptionPopup, Some("Cancel popup"@)),
        ],
        Layer::GithubNotifications => seq![
            (seq![stroke(KeyCode::Char('k'), held(false, false, false))], CommandId::MoveGithubNotificationPrev, Some("Previous GitHub notification"@)),
            (seq![stroke(KeyCode::Up, held(false, false, false))], CommandId::MoveGithubNotificationPrev, Some("Previous GitHub notification"@)),
            (seq![stroke(KeyCode::Char('j'), held(false, false, false))], CommandId::MoveGithubNotificationNext, Some("Next GitHub notification"@)),
            (seq![stroke(KeyCode::Down, held(false, false, false))], CommandId::MoveGithubNotificationNext, Some("Next GitHub notification"@)),
            (seq![stroke(KeyCode::Enter, held(false, false, false))], CommandId::OpenGithubNotification, Some("Open GitHub notification"@)),
            (seq![stroke(KeyCode::Enter, held(false, false, true))], CommandId::OpenGithubNotificationWithDone, Some("Open GitHub notification and mark as done"@)),
            (seq![stroke(KeyCode::Char('r'), held(false, false, false))], CommandId::ReloadGithubNotifications, Some("Reload GitHub notifications"@)),
            (seq![stroke(KeyCode::Char('d'), held(false, false, false))], CommandId::MarkGithubNotificationAsDone, Some("Mark GitHub notification as done"@)),
            (seq![stroke(KeyCode::Char('d'), held(true, false, false))], CommandId::MarkGithubNotificationAsDoneAll, Some("Mark all GitHub notifications as done"@)),
            (seq![stroke(KeyCode::Char('u'), held(false, false, false))], CommandId::UnsubscribeGithubThread, Some("Unsubscribe GitHub thread"@)),
            (seq![stroke(KeyCode::Char('g'), held(false, false, false)), stroke(KeyCode::Char('g'), held(false, false, false))], CommandId::MoveGithubNotificationFirst, Some("Go to first GitHub notification"@)),
            (seq![stroke(KeyCode::Char('g'), held(false, false, false)), stroke(KeyCode::Char('e'), held(false, false, false))], CommandId::MoveGithubNotificationLast, Some("Go to last GitHub notification"@)),
            (seq![stroke(KeyCode::Char('f'), held(false, false, false))], CommandId::OpenGithubNotificationFilterPopup, Some("Open GitHub notification filter popup"@)),
        ],
        Layer::GithubNotificationFilterPopup => seq![
            (seq![stroke(KeyCode::Char('u'), held(false, false, false)), stroke(KeyCode::Char('n'), held(false, false, false))], CommandId::ToggleGithubNotificationFilterPopupIncludeUnread, Some("Toggle unread filter"@)),
            (seq![stroke(KeyCode::Char('c'), held(false, false, false)), stroke(KeyCode::Char('l'), held(false, false, false))], CommandId::ToggleGithubNotificationFilterPopupPullRequestClosed, Some("Toggle closed pull request filter"@)),
            (seq![stroke(KeyCode::Char('p'), held(false, false, false)), stroke(KeyCode::Char('a'), held(false, false, false))], CommandId::ToggleGithubNotificationFilterPopupParticipating, Some("Toggle participating filter"@)),
            (seq![stroke(KeyCode::Char('p'), held(false, false, false)), stroke(KeyCode::Char('u'), held(false, false, false))], CommandId::ToggleGithubNotificationFilterPopupVisibilityPublic, Some("Toggle public repository filter"@)),
            (seq![stroke(KeyCode::Char('p'), held(false, false, false)), stroke(KeyCode::Char('r'), held(false, false, false))], CommandId::ToggleGithubNotificationFilterPopupVisibilityPrivate, Some("Toggle private repository filter"@)),
            (seq![stroke(KeyCode::Char('o'), held(false, false, false)), stroke(KeyCode::Char('p'), held(false, false, false))], CommandId::ToggleGithubNotificationFilterPopupPullRequestOpen, Some("Toggle open pull request filter"@)),
            (seq![stroke(KeyCode::Char('m'), held(false, false, false)), stroke(KeyCode::Char('e'), held(false, false, false))], CommandId::ToggleGithubNotificationFilterPopupReasonMentioned, Some("Toggle mentioned reason filter"@)),
            (seq![stroke(KeyCode::Char('m'), held(false, false, false)), stroke(KeyCode::Char('r'), held(false, false, false))], CommandId::ToggleGithubNotificationFilterPopupPullRequestMerged, Some("Toggle merged pull request filter"@)),
            (seq![stroke(KeyCode::Char('r'), held(false, false, false)), stroke(KeyCode::Char('e'), held(false, false, false))], CommandId::ToggleGithubNotificationFilterPopupReasonReviewRequested, Some("Toggle review requested reason filter"@)),
            (seq![stroke(KeyCode::Esc, held(false, false, false))], CommandId::CloseGithubNotificationFilterPopup, Some("Close GitHub notification filter popup"@)),
            (seq![stroke(KeyCode::Enter, held(false, false, false))], CommandId::CloseGithubNotificationFilterPopup, Some("Close GitHub notification filter popup"@)),
        ],
    }
}

/// The modifiers shift, control and alt as given, no other.
fn hold(shift: bool, control: bool, alt: bool) -> (m: KeyModifiers)
    ensures
        m == held(shift, control, alt),
{
    KeyModifiers { shift, control, alt, super_key: false, hyper: false, meta: false }
}

/// One key stroke.
fn one(k: KeyStroke) -> (v: Vec<KeyStroke>)
    ensures
        v@ == seq![k],
{
    let mut v: Vec<KeyStroke> = Vec::new();
    v.push(k);
    assert(v@ =~= seq![k]);
    v
}

/// Two key strokes, in order.
fn two(a: KeyStroke, b: KeyStroke) -> (v: Vec<KeyStroke>)
    ensures
        v@ == seq![a, b],
{
    let mut v: Vec<KeyStroke> = Vec::new();
    v.push(a);
    v.push(b);
    assert(v@ =~= seq![a, b]);
    v
}

/// Appends a binding of keys to a command, with a description.
fn add_default(v: &mut Vec<KeyBinding>, keys: Vec<KeyStroke>, command: CommandId, desc: &str)
    requires
        keys@.len() > 0,
    ensures
        final(v)@.map_values(|b: KeyBinding| b@) == old(v)@.map_values(|b: KeyBinding| b@).push((keys@, command, Some(desc@))),
{
    let ghost k = keys@;
    let b = KeyBinding::new(KeySequence::of(keys), command, Some(desc.to_owned()));
    v.push(b);
    assert(v@.map_values(|b: KeyBinding| b@) =~= old(v)@.map_values(|b: KeyBinding| b@).push((k, command, Some(desc@))));
}

/// The default bindings of the App layer.
fn app_defaults() -> (v: Vec<KeyBinding>)
    ensures
        v@.map_values(|b: KeyBinding| b@) == default_bindings(Layer::App),
{
    let mut v: Vec<KeyBinding> = Vec::new();
    assert(v@.map_values(|b: KeyBinding| b@) =~= Seq::<BindingView>::empty());
    add_default(&mut v, one(KeyStroke::new(KeyCode::Char('c'), hold(false, true, false))), CommandId::Quit, "Quit app");
    add_default(&mut v, one(KeyStroke::new(KeyCode::Char('r'), hold(true, false, false))), CommandId::ForceRedraw, "Redraw screen");
    assert(v@.map_values(|b: KeyBinding| b@) =~= default_bindings(Layer::App));
    v
}

/// The default bindings of the Global layer.
fn global_defaults() -> (v: Vec<KeyBinding>)
    ensures
        v@.map_values(|b: KeyBinding| b@) == default_bindings(Layer::Global),
{
    let mut v: Vec<KeyBinding> = Vec::new();
    assert(v@.map_values(|b: KeyBinding| b@) =~= Seq::<BindingView>::empty());
    add_default(&mut v, one(KeyStroke::new(KeyCode::Char('q'), hold(false, false, false))), CommandId::Quit, "Quit app");
    add_default(&mut v, one(KeyStroke::new(KeyCode::Char('t'), hold(true, false, false))), CommandId::RotateTheme, "Rotate theme");
    assert(v@.map_values(|b: KeyBinding| b@) =~= default_bindings(Layer::Global));
    v
}

/// The default bindings of the Login layer.
fn login_defaults() -> (v: Vec<KeyBinding>)
    ensures
        v@.map_values(|b: KeyBinding| b@) == default_bindings(Layer::Login),
{
    let mut v: Vec<KeyBinding> = Vec::new();
    assert(v@.map_values(|b: KeyBinding| b@) =~= Seq::<BindingView>::empty());
    add_default(&mut v, one(KeyStroke::new(KeyCode::Enter, hold(false, false, false))), CommandId::Authenticate, "Authenticate");
    add_default(&mut v, one(KeyStroke::new(KeyCode::Char('k'), hold(false, false, false))), CommandId::MoveAuthenticationProviderPrev, "Previous authentication provider");
    add_default(&mut v, one(KeyStroke::new(KeyCode::Up, hold(false, false, false))), CommandId::MoveAuthenticationProviderPrev, "Previous authentication provider");
    add_default(&mut v, one(KeyStroke::new(KeyCode::Char('j'), hold(false, false, false))), CommandId::MoveAuthenticationProviderNext, "Next authentication provider");
    add_default(&mut v, one(KeyStroke::new(KeyCode::Down, hold(false, false, false))), CommandId::MoveAuthenticationProviderNext, "Next authentication provider");
    assert(v@.map_values(|b: KeyBinding| b@) =~= default_bindings(Layer::Login));
    v
}

/// The default bindings of the Tabs layer.
fn tabs_defaults() -> (v: Vec<KeyBinding>)
    ensures
        v@.map_values(|b: KeyBinding| b@) == default_bindings(Layer::Tabs),
{
    let mut v: Vec<KeyBinding> = Vec::new();
    assert(v@.map_values(|b: KeyBinding| b@) =~= Seq::<BindingView>::empty());
    add_default(&mut v, one(KeyStroke::new(KeyCode::Tab, hold(false, false, false))), CommandId::MoveTabNext, "Next tab");
    add_default(&mut v, one(KeyStroke::new(KeyCode::BackTab, hold(false, false, false))), CommandId::MoveTabPrev, "Previous tab");
    assert(v@.map_values(|b: KeyBinding| b@) =~= default_bindings(Layer::Tabs));
    v
}

/// The default bindings of the Entries layer.
fn entries_defaults() -> (v: Vec<KeyBinding>)
    ensures
        v@.map_values(|b: KeyBinding| b@) == default_bindings(Layer::Entries),
{
    let mut v: Vec<KeyBinding> = Vec::new();
    assert(v@.map_values(|b: KeyBinding| b@) =~= Seq::<BindingView>::empty());
    add_default(&mut v, one(KeyStroke::new(KeyCode::Char('k'), hold(false, false, false))), CommandId::MoveEntryPrev, "Previous entry");
    add_default(&mut v, one(KeyStroke::new(KeyCode::Up, hold(false, false, false))), CommandId::MoveEntryPrev, "Previous entry");
    add_default(&mut v, one(KeyStroke::new(KeyCode::Char('j'), hold(false, false, false))), CommandId::MoveEntryNext, "Next entry");
    add_default(&mut v, one(KeyStroke::new(KeyCode::Down, hold(false, false, false))), CommandId::MoveEntryNext, "Next entry");
    add_default(&mut v, one(KeyStroke::new(KeyCode::Char('r'), hold(false, false, false))), CommandId::ReloadEntries, "Refresh timeline");
    add_default(&mut v, one(KeyStroke::new(KeyCode::Enter, hold(false, false, false))), CommandId::OpenEntry, "Open entry with web browser");
    add_default(&mut v, one(KeyStroke::new(KeyCode::Char(' '), hold(false, false, false))), CommandId::BrowseEntry, "Browse entry with text browser");
    add_default(&mut v, two(KeyStroke::new(KeyCode::Char('g'), hold(false, false, false)), KeyStroke::new(KeyCode::Char('g'), hold(false, false, false))), CommandId::MoveEntryFirst, "Go to first entry");
    add_default(&mut v, two(KeyStroke::new(KeyCode::Char('g'), hold(false, false, false)), KeyStroke::new(KeyCode::Char('e'), hold(false, false, false))), CommandId::MoveEntryLast, "Go to last entry");
    assert(v@.map_values(|b: KeyBinding| b@) =~= default_bindings(Layer::Entries));
    v
}

/// The default bindings of the Feeds layer.
fn feeds_defaults() -> (v: Vec<KeyBinding>)
    ensures
        v@.map_values(|b: KeyBinding| b@) == default_bindings(Layer::Feeds),
{
    let mut v: Vec<KeyBinding> = Vec::new();
    assert(v@.map_values(|b: KeyBinding| b@) =~= Seq::<BindingView>::empty());
    add_default(&mut v, one(KeyStroke::new(KeyCode::Char('a'), hold(false, false, false))), CommandId::PromptFeedSubscription, "Add feed subscription");
    add_default(&mut v, one(KeyStroke::new(KeyCode::Char('e'), hold(false, false, false))), CommandId::PromptFeedEdition, "Edit feed subscription");
    add_default(&mut v, one(KeyStroke::new(KeyCode::Char('d'), hold(false, false, false))), CommandId::PromptFeedUnsubscription, "Delete feed subscription");
    add_default(&mut v, one(KeyStroke::new(KeyCode::Char('k'), hold(false, false, false))), CommandId::MoveSubscribedFeedPrev, "Previous feed");
    add_default(&mut v, one(KeyStroke::new(KeyCode::Up, hold(false, false, false))), CommandId::MoveSubscribedFeedPrev, "Previous feed");
    add_default(&mut v, one(KeyStroke::new(KeyCode::Char('j'), hold(false, false, false))), CommandId::MoveSubscribedFeedNext, "Next feed");
    add_default(&mut v, one(KeyStroke::new(KeyCode::Down, hold(false, false, false))), CommandId::MoveSubscribedFeedNext, "Next feed");
    add_default(&mut v, one(KeyStroke::new(KeyCode::Char('r'), hold(false, false, false))), CommandId::ReloadSubscription, "Reload subscriptions");
    add_default(&mut v, one(KeyStroke::new(KeyCode::Enter, hold(false, false, false))), CommandId::OpenFeed, "Open selected feed");
    add_default(&mut v, two(KeyStroke::new(KeyCode::Char('g'), hold(false, false, false)), KeyStroke::new(KeyCode::Char('g'), hold(false, false, false))), CommandId::MoveSubscribedFeedFirst, "Go to first feed");
    add_default(&mut v, two(KeyStroke::new(KeyCode::Char('g'), hold(false, false, false)), KeyStroke::new(KeyCode::Char('e'), hold(false, false, false))), CommandId::MoveSubscribedFeedLast, "Go to last feed");
    assert(v@.map_values(|b: KeyBinding| b@) =~= default_bindings(Layer::Feeds));
    v
}

/// The default bindings of the Filter layer.
fn filter_defaults() -> (v: Vec<KeyBinding>)
    ensures
        v@.map_values(|b: KeyBinding| b@) == default_bindings(Layer::Filter),
{
    let mut v: Vec<KeyBinding> = Vec::new();
    assert(v@.map_values(|b: KeyBinding| b@) =~= Seq::<BindingView>::empty());
    add_default(&mut v, one(KeyStroke::new(KeyCode::Char('h'), hold(false, false, false))), CommandId::MoveFilterRequirementPrev, "Previous requirement filter");
    add_default(&mut v, one(KeyStroke::new(KeyCode::Left, hold(false, false, false))), CommandId::MoveFilterRequirementPrev, "Previous requirement filter");
    add_default(&mut v, one(KeyStroke::new(KeyCode::Char('l'), hold(false, false, false))), CommandId::MoveFilterRequirementNext, "Next requirement filter");
    add_default(&mut v, one(KeyStroke::new(KeyCode::Right, hold(false, false, false))), CommandId::MoveFilterRequirementNext, "Next requirement filter");
    add_default(&mut v, one(KeyStroke::new(KeyCode::Char('c'), hold(false, false, false))), CommandId::ActivateCategoryFiltering, "Activate category filter");
    add_default(&mut v, one(KeyStroke::new(KeyCode::Char('/'), hold(false, false, false))), CommandId::ActivateSearchFiltering, "Activate search filter");
    add_default(&mut v, one(KeyStroke::new(KeyCode::Esc, hold(false, false, false))), CommandId::DeactivateFiltering, "Deactivate filter");
    assert(v@.map_values(|b: KeyBinding| b@) =~= default_bindings(Layer::Filter));
    v
}

/// The default bindings of the UnsubscribePopup layer.
fn unsubscribe_popup_defaults() -> (v: Vec<KeyBinding>)
    ensures
        v@.map_values(|b: KeyBinding| b@) == default_bindings(Layer::UnsubscribePopup),
{
    let mut v: Vec<KeyBinding> = Vec::new();
    assert(v@.map_values(|b: KeyBinding| b@) =~= Seq::<BindingView>::empty());
    add_default(&mut v, one(KeyStroke::new(KeyCode::Char('h'), hold(false, false, false))), CommandId::MoveFeedUnsubscriptionPopupSelectionPrev, "Previous popup selection");
    add_default(&mut v, one(KeyStroke::new(KeyCode::Left, hold(false, false, false))), CommandId::MoveFeedUnsubscriptionPopupSelectionPrev, "Previous popup selection");
    add_default(&mut v, one(KeyStroke::new(KeyCode::Char('l'), hold(false, false, false))), CommandId::MoveFeedUnsubscriptionPopupSelectionNext, "Next popup selection");
    add_default(&mut v, one(KeyStroke::new(KeyCode::Right, hold(false, false, false))), CommandId::MoveFeedUnsubscriptionPopupSelectionNext, "Next popup selection");
    add_default(&mut v, one(KeyStroke::new(KeyCode::Enter, hold(false, false, false))), CommandId::SelectFeedUnsubscriptionPopup, "Select popup item");
    add_default(&mut v, one(KeyStroke::new(KeyCode::Esc, hold(false, false, false))), CommandId::CancelFeedUnsubscriptionPopup, "Cancel popup");
    assert(v@.map_values(|b: KeyBinding| b@) =~= default_bindings(Layer::UnsubscribePopup));
    v
}

/// The default bindings of the GithubNotifications layer.
fn github_notifications_defaults() -> (v: Vec<KeyBinding>)
    ensures
        v@.map_values(|b: KeyBinding| b@) == default_bindings(Layer::GithubNotifications),
{
    let mut v: Vec<KeyBinding> = Vec::new();
    assert(v@.map_values(|b: KeyBinding| b@) =~= Seq::<BindingView>::empty());
    add_default(&mut v, one(KeyStroke::new(KeyCode::Char('k'), hold(false, false, false))), CommandId::MoveGithubNotificationPrev, "Previous GitHub notification");
    add_default(&mut v, one(KeyStroke::new(KeyCode::Up, hold(false, false, false))), CommandId::MoveGithubNotificationPrev, "Previous GitHub notification");
    add_default(&mut v, one(KeyStroke::new(KeyCode::Char('j'), hold(false, false, false))), CommandId::MoveGithubNotificationNext, "Next GitHub notification");
    add_default(&mut v, one(KeyStroke::new(KeyCode::Down, hold(false, false, false))), CommandId::MoveGithubNotificationNext, "Next GitHub notification");
    add_default(&mut v, one(KeyStroke::new(KeyCode::Enter, hold(false, false, false))), CommandId::OpenGithubNotification, "Open GitHub notification");
    add_default(&mut v, one(KeyStroke::new(KeyCode::Enter, hold(false, false, true))), CommandId::OpenGithubNotificationWithDone, "Open GitHub notification and mark as done");
    add_default(&mut v, one(KeyStroke::new(KeyCode::Char('r'), hold(false, false, false))), CommandId::ReloadGithubNotifications, "Reload GitHub notifications");
    add_default(&mut v, one(KeyStroke::new(KeyCode::Char('d'), hold(false, false, false))), CommandId::MarkGithubNotificationAsDone, "Mark GitHub notification as done");
    add_default(&mut v, one(KeyStroke::new(KeyCode::Char('d'), hold(true, false, false))), CommandId::MarkGithubNotificationAsDoneAll, "Mark all GitHub notifications as done");
    add_default(&mut v, one(KeyStroke::new(KeyCode::Char('u'), hold(false, false, false))), CommandId::UnsubscribeGithubThread, "Unsubscribe GitHub thread");
    add_default(&mut v, two(KeyStroke::new(KeyCode::Char('g'), hold(false, false, false)), KeyStroke::new(KeyCode::Char('g'), hold(false, false, false))), CommandId::MoveGithubNotificationFirst, "Go to first GitHub notification");
    add_default(&mut v, two(KeyStroke::new(KeyCode::Char('g'), hold(false, false, false)), KeyStroke::new(KeyCode::Char('e'), hold(false, false, false))), CommandId::MoveGithubNotificationLast, "Go to last GitHub notification");
    add_default(&mut v, one(KeyStroke::new(KeyCode::Char('f'), hold(false, false, false))), CommandId::OpenGithubNotificationFilterPopup, "Open GitHub notification filter popup");
    assert(v@.map_values(|b: KeyBinding| b@) =~= default_bindings(Layer::GithubNotifications));
    v
}

/// The default bindings of the GithubNotificationFilterPopup layer.
fn github_notification_filter_popup_defaults() -> (v: Vec<KeyBinding>)
    ensures
        v@.map_values(|b: KeyBinding| b@) == default_bindings(Layer::GithubNotificationFilterPopup),
{
    let mut v: Vec<KeyBinding> = Vec::new();
    assert(v@.map_values(|b: KeyBinding| b@) =~= Seq::<BindingView>::empty());
    add_default(&mut v, two(KeyStroke::new(KeyCode::Char('u'), hold(false, false, false)), KeyStroke::new(KeyCode::Char('n'), hold(false, false, false))), CommandId::ToggleGithubNotificationFilterPopupIncludeUnread, "Toggle unread filter");
    add_default(&mut v, two(KeyStroke::new(KeyCode::Char('c'), hold(false, false, false)), KeyStroke::new(KeyCode::Char('l'), hold(false, false, false))), CommandId::ToggleGithubNotificationFilterPopupPullRequestClosed, "Toggle closed pull request filter");
    add_default(&mut v, two(KeyStroke::new(KeyCode::Char('p'), hold(false, false, false)), KeyStroke::new(KeyCode::Char('a'), hold(false, false, false))), CommandId::ToggleGithubNotificationFilterPopupParticipating, "Toggle participating filter");
    add_default(&mut v, two(KeyStroke::new(KeyCode::Char('p'), hold(false, false, false)), KeyStroke::new(KeyCode::Char('u'), hold(false, false, false))), CommandId::ToggleGithubNotificationFilterPopupVisibilityPublic, "Toggle public repository filter");
    add_default(&mut v, two(KeyStroke::new(KeyCode::Char('p'), hold(false, false, false)), KeyStroke::new(KeyCode::Char('r'), hold(false, false, false))), CommandId::ToggleGithubNotificationFilterPopupVisibilityPrivate, "Toggle private repository filter");
    add_default(&mut v, two(KeyStroke::new(KeyCode::Char('o'), hold(false, false, false)), KeyStroke::new(KeyCode::Char('p'), hold(false, false, false))), CommandId::ToggleGithubNotificationFilterPopupPullRequestOpen, "Toggle open pull request filter");
    add_default(&mut v, two(KeyStroke::new(KeyCode::Char('m'), hold(false, false, false)), KeyStroke::new(KeyCode::Char('e'), hold(false, false, false))), CommandId::ToggleGithubNotificationFilterPopupReasonMentioned, "Toggle mentioned reason filter");
    add_default(&mut v, two(KeyStroke::new(KeyCode::Char('m'), hold(false, false, false)), KeyStroke::new(KeyCode::Char('r'), hold(false, false, false))), CommandId::ToggleGithubNotificationFilterPopupPullRequestMerged, "Toggle merged pull request filter");
    add_default(&mut v, two(KeyStroke::new(KeyCode::Char('r'), hold(false, false, false)), KeyStroke::new(KeyCode::Char('e'), hold(false, false, false))), CommandId::ToggleGithubNotificationFilterPopupReasonReviewRequested, "Toggle review requested reason filter");
    add_default(&mut v, one(KeyStroke::new(KeyCode::Esc, hold(false, false, false))), CommandId::CloseGithubNotificationFilterPopup, "Close GitHub notification filter popup");
    add_default(&mut v, one(KeyStroke::new(KeyCode::Enter, hold(false, false, false))), CommandId::CloseGithubNotificationFilterPopup, "Close GitHub notification filter popup");
    assert(v@.map_values(|b: KeyBinding| b@) =~= default_bindings(Layer::GithubNotificationFilterPopup));
    v
}

/// Appends bindings to a layer, in order.
fn push_all(config: &mut KeymapConfig, layer: Layer, v: &Vec<KeyBinding>)
    ensures
        final(config).layer(layer) == old(config).layer(layer) + v@.map_values(|b: KeyBinding| b@),
        forall|l: Layer| l != layer ==> #[trigger] final(config).layer(l) == old(config).layer(l),
{
    let ghost w = v@.map_values(|b: KeyBinding| b@);
    let mut i: usize = 0;
    while i < v.len()
        invariant
            i <= v@.len(),
            w == v@.map_values(|b: KeyBinding| b@),
            config.layer(layer) == old(config).layer(layer) + w.take(i as int),
            forall|l: Layer| l != layer ==> #[trigger] config.layer(l) == old(config).layer(l),
        decreases v@.len() - i,
    {
        config.push(layer, v[i].clone());
        proof {
            assert(w.take(i + 1) =~= w.take(i as int).push(v@[i as int]@));
            assert(old(config).layer(layer) + w.take(i + 1) =~= (old(config).layer(layer) + w.take(i as int)).push(v@[i as int]@));
        }
        i += 1;
    }
    assert(w.take(v@.len() as int) =~= w);
}

/// The default keymap configuration.
pub fn default_keymap_config() -> (c: KeymapConfig)
    ensures
        forall|l: Layer| #[trigger] c.layer(l) == default_bindings(l),
{
    let mut c = KeymapConfig::new();
    push_all(&mut c, Layer::App, &app_defaults());
    push_all(&mut c, Layer::Global, &global_defaults());
    push_all(&mut c, Layer::Login, &login_defaults());
    push_all(&mut c, Layer::Tabs, &tabs_defaults());
    push_all(&mut c, Layer::Entries, &entries_defaults());
    push_all(&mut c, Layer::Feeds, &feeds_defaults());
    push_all(&mut c, Layer::Filter, &filter_defaults());
    push_all(&mut c, Layer::UnsubscribePopup, &unsubscribe_popup_defaults());
    push_all(&mut c, Layer::GithubNotifications, &github_notifications_defaults());
    push_all(&mut c, Layer::GithubNotificationFilterPopup, &github_notification_filter_popup_defaults());
    assert forall|l: Layer| #[trigger] c.layer(l) == default_bindings(l) by {
        assert(Seq::<BindingView>::empty() + default_bindings(l) =~= default_bindings(l));
    }
    c
}

/// The keys and command of each default binding of a layer.
pub open spec fn default_keys(layer: Layer) -> Seq<(Seq<KeyStroke>, CommandId)> {
    keys_and_commands(default_bindings(layer))
}

/// The default bindings of every layer are on keys apart from one another and are
/// allowed in their layer.
pub proof fn lemma_defaults_separated(layer: Layer)
    ensures
        separated(layer, default_keys(layer), default_bindings(layer).len()),
{
    match layer {
        Layer::App => lemma_app_separated(),
        Layer::Global => lemma_global_separated(),
        Layer::Login => lemma_login_separated(),
        Layer::Tabs => lemma_tabs_separated(),
        Layer::Entries => lemma_entries_separated(),
        Layer::Feeds => lemma_feeds_separated(),
        Layer::Filter => lemma_filter_separated(),
        Layer::CategoryFilter => lemma_category_filter_separated(),
        Layer::SearchPrompt => lemma_search_prompt_separated(),
        Layer::UnsubscribePopup => lemma_unsubscribe_popup_separated(),
        Layer::GithubNotifications => lemma_github_notifications_separated(),
        Layer::GithubNotificationFilterPopup => lemma_github_notification_filter_popup_separated(),
    }
}

proof fn lemma_app_separated()
    ensures
        separated(Layer::App, default_keys(Layer::App), default_bindings(Layer::App).len()),
{
    let ks = default_keys(Layer::App);
    assert(default_bindings(Layer::App).len() == 2);
    assert(separated(Layer::App, ks, 0));
    assert(ks[0] == (seq![stroke(KeyCode::Char('c'), held(false, true, false))], CommandId::Quit));
    assert(ks[1] == (seq![stroke(KeyCode::Char('r'), held(true, false, false))], CommandId::ForceRedraw));
    assert(apart_from_first(ks, 0, ks[0].0));
    assert(command_layers(CommandId::Quit)[0] == Layer::App);
    assert(command_allows_layer(ks[0].1, Layer::App));
    assert(separated(Layer::App, ks, 1));
    assert(apart_from_first(ks, 0, ks[1].0));
    assert(ks[0].0[0] != ks[1].0[0]);
    assert(apart_from_first(ks, 1, ks[1].0));
    assert(command_layers(CommandId::ForceRedraw)[0] == Layer::App);
    assert(command_allows_layer(ks[1].1, Layer::App));
    assert(separated(Layer::App, ks, 2));
}

proof fn lemma_global_separated()
    ensures
        separated(Layer::Global, default_keys(Layer::Global), default_bindings(Layer::Global).len()),
{
    let ks = default_keys(Layer::Global);
    assert(default_bindings(Layer::Global).len() == 2);
    assert(separated(Layer::Global, ks, 0));
    assert(ks[0] == (seq![stroke(KeyCode::Char('q'), held(false, false, false))], CommandId::Quit));
    assert(ks[1] == (seq![stroke(KeyCode::Char('t'), held(true, false, false))], CommandId::RotateTheme));
    assert(apart_from_first(ks, 0, ks[0].0));
    assert(command_layers(CommandId::Quit)[1] == Layer::Global);
    assert(command_allows_layer(ks[0].1, Layer::Global));
    assert(separated(Layer::Global, ks, 1));
    assert(apart_from_first(ks, 0, ks[1].0));
    assert(ks[0].0[0] != ks[1].0[0]);
    assert(apart_from_first(ks, 1, ks[1].0));
    assert(command_layers(CommandId::RotateTheme)[0] == Layer::Global);
    assert(command_allows_layer(ks[1].1, Layer::Global));
    assert(separated(Layer::Global, ks, 2));
}

proof fn lemma_login_separated()
    ensures
        separated(Layer::Login, default_keys(Layer::Login), default_bindings(Layer::Login).len()),
{
    let ks = default_keys(Layer::Login);
    assert(default_bindings(Layer::Login).len() == 5);
    assert(separated(Layer::Login, ks, 0));
    assert(ks[0] == (seq![stroke(KeyCode::Enter, held(false, false, false))], CommandId::Authenticate));
    assert(ks[1] == (seq![stroke(KeyCode::Char('k'), held(false, false, false))], CommandId::MoveAuthenticationProviderPrev));
    assert(ks[2] == (seq![stroke(KeyCode::Up, held(false, false, false))], CommandId::MoveAuthenticationProviderPrev));
    assert(ks[3] == (seq![stroke(KeyCode::Char('j'), held(false, false, false))], CommandId::MoveAuthenticationProviderNext));
    assert(ks[4] == (seq![stroke(KeyCode::Down, held(false, false, false))], CommandId::MoveAuthenticationProviderNext));
    assert(apart_from_first(ks, 0, ks[0].0));
    assert(command_layers(CommandId::Authenticate)[0] == Layer::Login);
    assert(command_allows_layer(ks[0].1, Layer::Login));
    assert(separated(Layer::Login, ks, 1));
    assert(apart_from_first(ks, 0, ks[1].0));
    assert(ks[0].0[0] != ks[1].0[0]);
    assert(apart_from_first(ks, 1, ks[1].0));
    assert(command_layers(CommandId::MoveAuthenticationProviderPrev)[0] == Layer::Login);
    assert(command_allows_layer(ks[1].1, Layer::Login));
    assert(separated(Layer::Login, ks, 2));
    assert(apart_from_first(ks, 0, ks[2].0));
    assert(ks[0].0[0] != ks[2].0[0]);
    assert(apart_from_first(ks, 1, ks[2].0));
    assert(ks[1].0[0] != ks[2].0[0]);
    assert(apart_from_first(ks, 2, ks[2].0));
    assert(command_layers(CommandId::MoveAuthenticationProviderPrev)[0] == Layer::Login);
    assert(command_allows_layer(ks[2].1, Layer::Login));
    assert(separated(Layer::Login, ks, 3));
    assert(apart_from_first(ks, 0, ks[3].0));
    assert(ks[0].0[0] != ks[3].0[0]);
    assert(apart_from_first(ks, 1, ks[3].0));
    assert(ks[1].0[0] != ks[3].0[0]);
    assert(apart_from_first(ks, 2, ks[3].0));
    assert(ks[2].0[0] != ks[3].0[0]);
    assert(apart_from_first(ks, 3, ks[3].0));
    assert(command_layers(CommandId::MoveAuthenticationProviderNext)[0] == Layer::Login);
    assert(command_allows_layer(ks[3].1, Layer::Login));
    assert(separated(Layer::Login, ks, 4));
    assert(apart_from_first(ks, 0, ks[4].0));
    assert(ks[0].0[0] != ks[4].0[0]);
    assert(apart_from_first(ks, 1, ks[4].0));
    assert(ks[1].0[0] != ks[4].0[0]);
    assert(apart_from_first(ks, 2, ks[4].0));
    assert(ks[2].0[0] != ks[4].0[0]);
    assert(apart_from_first(ks, 3, ks[4].0));
    assert(ks[3].0[0] != ks[4].0[0]);
    assert(apart_from_first(ks, 4, ks[4].0));
    assert(command_layers(CommandId::MoveAuthenticationProviderNext)[0] == Layer::Login);
    assert(command_allows_layer(ks[4].1, Layer::Login));
    assert(separated(Layer::Login, ks, 5));
}

proof fn lemma_tabs_separated()
    ensures
        separated(Layer::Tabs, default_keys(Layer::Tabs), default_bindings(Layer::Tabs).len()),
{
    let ks = default_keys(Layer::Tabs);
    assert(default_bindings(Layer::Tabs).len() == 2);
    assert(separated(Layer::Tabs, ks, 0));
    assert(ks[0] == (seq![stroke(KeyCode::Tab, held(false, false, false))], CommandId::MoveTabNext));
    assert(ks[1] == (seq![stroke(KeyCode::BackTab, held(false, false, false))], CommandId::MoveTabPrev));
    assert(apart_from_first(ks, 0, ks[0].0));
    assert(command_layers(CommandId::MoveTabNext)[0] == Layer::Tabs);
    assert(command_allows_layer(ks[0].1, Layer::Tabs));
    assert(separated(Layer::Tabs, ks, 1));
    assert(apart_from_first(ks, 0, ks[1].0));
    assert(ks[0].0[0] != ks[1].0[0]);
    assert(apart_from_first(ks, 1, ks[1].0));
    assert(command_layers(CommandId::MoveTabPrev)[0] == Layer::Tabs);
    assert(command_allows_layer(ks[1].1, Layer::Tabs));
    assert(separated(Layer::Tabs, ks, 2));
}

proof fn lemma_entries_separated()
    ensures
        separated(Layer::Entries, default_keys(Layer::Entries), default_bindings(Layer::Entries).len()),
{
    let ks = default_keys(Layer::Entries);
    assert(default_bindings(Layer::Entries).len() == 9);
    assert(separated(Layer::Entries, ks, 0));
    assert(ks[0] == (seq![stroke(KeyCode::Char('k'), held(false, false, false))], CommandId::MoveEntryPrev));
    assert(ks[1] == (seq![stroke(KeyCode::Up, held(false, false, false))], CommandId::MoveEntryPrev));
    assert(ks[2] == (seq![stroke(KeyCode::Char('j'), held(false, false, false))], CommandId::MoveEntryNext));
    assert(ks[3] == (seq![stroke(KeyCode::Down, held(false, false, false))], CommandId::MoveEntryNext));
    assert(ks[4] == (seq![stroke(KeyCode::Char('r'), held(false, false, false))], CommandId::ReloadEntries));
    assert(ks[5] == (seq![stroke(KeyCode::Enter, held(false, false, false))], CommandId::OpenEntry));
    assert(ks[6] == (seq![stroke(KeyCode::Char(' '), held(false, false, false))], CommandId::BrowseEntry));
    assert(ks[7] == (seq![stroke(KeyCode::Char('g'), held(false, false, false)), stroke(KeyCode::Char('g'), held(false, false, false))], CommandId::MoveEntryFirst));
    assert(ks[8] == (seq![stroke(KeyCode::Char('g'), held(false, false, false)), stroke(KeyCode::Char('e'), held(false, false, false))], CommandId::MoveEntryLast));
    assert(apart_from_first(ks, 0, ks[0].0));
    assert(command_layers(CommandId::MoveEntryPrev)[0] == Layer::Entries);
    assert(command_allows_layer(ks[0].1, Layer::Entries));
    assert(separated(Layer::Entries, ks, 1));
    assert(apart_from_first(ks, 0, ks[1].0));
    assert(ks[0].0[0] != ks[1].0[0]);
    assert(apart_from_first(ks, 1, ks[1].0));
    assert(command_layers(CommandId::MoveEntryPrev)[0] == Layer::Entries);
    assert(command_allows_layer(ks[1].1, Layer::Entries));
    assert(separated(Layer::Entries, ks, 2));
    assert(apart_from_first(ks, 0, ks[2].0));
    assert(ks[0].0[0] != ks[2].0[0]);
    assert(apart_from_first(ks, 1, ks[2].0));
    assert(ks[1].0[0] != ks[2].0[0]);
    assert(apart_from_first(ks, 2, ks[2].0));
    assert(command_layers(CommandId::MoveEntryNext)[0] == Layer::Entries);
    assert(command_allows_layer(ks[2].1, Layer::Entries));
    assert(separated(Layer::Entries, ks, 3));
    assert(apart_from_first(ks, 0, ks[3].0));
    assert(ks[0].0[0] != ks[3].0[0]);
    assert(apart_from_first(ks, 1, ks[3].0));
    assert(ks[1].0[0] != ks[3].0[0]);
    assert(apart_from_first(ks, 2, ks[3].0));
    assert(ks[2].0[0] != ks[3].0[0]);
    assert(apart_from_first(ks, 3, ks[3].0));
    assert(command_layers(CommandId::MoveEntryNext)[0] == Layer::Entries);
    assert(command_allows_layer(ks[3].1, Layer::Entries));
    assert(separated(Layer::Entries, ks, 4));
    assert(apart_from_first(ks, 0, ks[4].0));
    assert(ks[0].0[0] != ks[4].0[0]);
    assert(apart_from_first(ks, 1, ks[4].0));
    assert(ks[1].0[0] != ks[4].0[0]);
    assert(apart_from_first(ks, 2, ks[4].0));
    assert(ks[2].0[0] != ks[4].0[0]);
    assert(apart_from_first(ks, 3, ks[4].0));
    assert(ks[3].0[0] != ks[4].0[0]);
    assert(apart_from_first(ks, 4, ks[4].0));
    assert(command_layers(CommandId::ReloadEntries)[0] == Layer::Entries);
    assert(command_allows_layer(ks[4].1, Layer::Entries));
    assert(separated(Layer::Entries, ks, 5));
    assert(apart_from_first(ks, 0, ks[5].0));
    assert(ks[0].0[0] != ks[5].0[0]);
    assert(apart_from_first(ks, 1, ks[5].0));
    assert(ks[1].0[0] != ks[5].0[0]);
    assert(apart_from_first(ks, 2, ks[5].0));
    assert(ks[2].0[0] != ks[5].0[0]);
    assert(apart_from_first(ks, 3, ks[5].0));
    assert(ks[3].0[0] != ks[5].0[0]);
    assert(apart_from_first(ks, 4, ks[5].0));
    assert(ks[4].0[0] != ks[5].0[0]);
    assert(apart_from_first(ks, 5, ks[5].0));
    assert(command_layers(CommandId::OpenEntry)[0] == Layer::Entries);
    assert(command_allows_layer(ks[5].1, Layer::Entries));
    assert(separated(Layer::Entries, ks, 6));
    assert(apart_from_first(ks, 0, ks[6].0));
    assert(ks[0].0[0] != ks[6].0[0]);
    assert(apart_from_first(ks, 1, ks[6].0));
    assert(ks[1].0[0] != ks[6].0[0]);
    assert(apart_from_first(ks, 2, ks[6].0));
    assert(ks[2].0[0] != ks[6].0[0]);
    assert(apart_from_first(ks, 3, ks[6].0));
    assert(ks[3].0[0] != ks[6].0[0]);
    assert(apart_from_first(ks, 4, ks[6].0));
    assert(ks[4].0[0] != ks[6].0[0]);
    assert(apart_from_first(ks, 5, ks[6].0));
    assert(ks[5].0[0] != ks[6].0[0]);
    assert(apart_from_first(ks, 6, ks[6].0));
    assert(command_layers(CommandId::BrowseEntry)[0] == Layer::Entries);
    assert(command_allows_layer(ks[6].1, Layer::Entries));
    assert(separated(Layer::Entries, ks, 7));
    assert(apart_from_first(ks, 0, ks[7].0));
    assert(ks[0].0[0] != ks[7].0[0]);
    assert(apart_from_first(ks, 1, ks[7].0));
    assert(ks[1].0[0] != ks[7].0[0]);
    assert(apart_from_first(ks, 2, ks[7].0));
    assert(ks[2].0[0] != ks[7].0[0]);
    assert(apart_from_first(ks, 3, ks[7].0));
    assert(ks[3].0[0] != ks[7].0[0]);
    assert(apart_from_first(ks, 4, ks[7].0));
    assert(ks[4].0[0] != ks[7].0[0]);
    assert(apart_from_first(ks, 5, ks[7].0));
    assert(ks[5].0[0] != ks[7].0[0]);
    assert(apart_from_first(ks, 6, ks[7].0));
    assert(ks[6].0[0] != ks[7].0[0]);
    assert(apart_from_first(ks, 7, ks[7].0));
    assert(command_layers(CommandId::MoveEntryFirst)[0] == Layer::Entries);
    assert(command_allows_layer(ks[7].1, Layer::Entries));
    assert(separated(Layer::Entries, ks, 8));
    assert(apart_from_first(ks, 0, ks[8].0));
    assert(ks[0].0[0] != ks[8].0[0]);
    assert(apart_from_first(ks, 1, ks[8].0));
    assert(ks[1].0[0] != ks[8].0[0]);
    assert(apart_from_first(ks, 2, ks[8].0));
    assert(ks[2].0[0] != ks[8].0[0]);
    assert(apart_from_first(ks, 3, ks[8].0));
    assert(ks[3].0[0] != ks[8].0[0]);
    assert(apart_from_first(ks, 4, ks[8].0));
    assert(ks[4].0[0] != ks[8].0[0]);
    assert(apart_from_first(ks, 5, ks[8].0));
    assert(ks[5].0[0] != ks[8].0[0]);
    assert(apart_from_first(ks, 6, ks[8].0));
    assert(ks[6].0[0] != ks[8].0[0]);
    assert(apart_from_first(ks, 7, ks[8].0));
    assert(ks[7].0[1] != ks[8].0[1]);
    assert(apart_from_first(ks, 8, ks[8].0));
    assert(command_layers(CommandId::MoveEntryLast)[0] == Layer::Entries);
    assert(command_allows_layer(ks[8].1, Layer::Entries));
    assert(separated(Layer::Entries, ks, 9));
}

proof fn lemma_feeds_separated()
    ensures
        separated(Layer::Feeds, default_keys(Layer::Feeds), default_bindings(Layer::Feeds).len()),
{
    let ks = default_keys(Layer::Feeds);
    assert(default_bindings(Layer::Feeds).len() == 11);
    assert(separated(Layer::Feeds, ks, 0));
    assert(ks[0] == (seq![stroke(KeyCode::Char('a'), held(false, false, false))], CommandId::PromptFeedSubscription));
    assert(ks[1] == (seq![stroke(KeyCode::Char('e'), held(false, false, false))], CommandId::PromptFeedEdition));
    assert(ks[2] == (seq![stroke(KeyCode::Char('d'), held(false, false, false))], CommandId::PromptFeedUnsubscription));
    assert(ks[3] == (seq![stroke(KeyCode::Char('k'), held(false, false, false))], CommandId::MoveSubscribedFeedPrev));
    assert(ks[4] == (seq![stroke(KeyCode::Up, held(false, false, false))], CommandId::MoveSubscribedFeedPrev));
    assert(ks[5] == (seq![stroke(KeyCode::Char('j'), held(false, false, false))], CommandId::MoveSubscribedFeedNext));
    assert(ks[6] == (seq![stroke(KeyCode::Down, held(false, false, false))], CommandId::MoveSubscribedFeedNext));
    assert(ks[7] == (seq![stroke(KeyCode::Char('r'), held(false, false, false))], CommandId::ReloadSubscription));
    assert(ks[8] == (seq![stroke(KeyCode::Enter, held(false, false, false))], CommandId::OpenFeed));
    assert(ks[9] == (seq![stroke(KeyCode::Char('g'), held(false, false, false)), stroke(KeyCode::Char('g'), held(false, false, false))], CommandId::MoveSubscribedFeedFirst));
    assert(ks[10] == (seq![stroke(KeyCode::Char('g'), held(false, false, false)), stroke(KeyCode::Char('e'), held(false, false, false))], CommandId::MoveSubscribedFeedLast));
    assert(apart_from_first(ks, 0, ks[0].0));
    assert(command_layers(CommandId::PromptFeedSubscription)[0] == Layer::Feeds);
    assert(command_allows_layer(ks[0].1, Layer::Feeds));
    assert(separated(Layer::Feeds, ks, 1));
    assert(apart_from_first(ks, 0, ks[1].0));
    assert(ks[0].0[0] != ks[1].0[0]);
    assert(apart_from_first(ks, 1, ks[1].0));
    assert(command_layers(CommandId::PromptFeedEdition)[0] == Layer::Feeds);
    assert(command_allows_layer(ks[1].1, Layer::Feeds));
    assert(separated(Layer::Feeds, ks, 2));
    assert(apart_from_first(ks, 0, ks[2].0));
    assert(ks[0].0[0] != ks[2].0[0]);
    assert(apart_from_first(ks, 1, ks[2].0));
    assert(ks[1].0[0] != ks[2].0[0]);
    assert(apart_from_first(ks, 2, ks[2].0));
    assert(command_layers(CommandId::PromptFeedUnsubscription)[0] == Layer::Feeds);
    assert(command_allows_layer(ks[2].1, Layer::Feeds));
    assert(separated(Layer::Feeds, ks, 3));
    assert(apart_from_first(ks, 0, ks[3].0));
    assert(ks[0].0[0] != ks[3].0[0]);
    assert(apart_from_first(ks, 1, ks[3].0));
    assert(ks[1].0[0] != ks[3].0[0]);
    assert(apart_from_first(ks, 2, ks[3].0));
    assert(ks[2].0[0] != ks[3].0[0]);
    assert(apart_from_first(ks, 3, ks[3].0));
    assert(command_layers(CommandId::MoveSubscribedFeedPrev)[0] == Layer::Feeds);
    assert(command_allows_layer(ks[3].1, Layer::Feeds));
    assert(separated(Layer::Feeds, ks, 4));
    assert(apart_from_first(ks, 0, ks[4].0));
    assert(ks[0].0[0] != ks[4].0[0]);
    assert(apart_from_first(ks, 1, ks[4].0));
    assert(ks[1].0[0] != ks[4].0[0]);
    assert(apart_from_first(ks, 2, ks[4].0));
    assert(ks[2].0[0] != ks[4].0[0]);
    assert(apart_from_first(ks, 3, ks[4].0));
    assert(ks[3].0[0] != ks[4].0[0]);
    assert(apart_from_first(ks, 4, ks[4].0));
    assert(command_layers(CommandId::MoveSubscribedFeedPrev)[0] == Layer::Feeds);
    assert(command_allows_layer(ks[4].1, Layer::Feeds));
    assert(separated(Layer::Feeds, ks, 5));
    assert(apart_from_first(ks, 0, ks[5].0));
    assert(ks[0].0[0] != ks[5].0[0]);
    assert(apart_from_first(ks, 1, ks[5].0));
    assert(ks[1].0[0] != ks[5].0[0]);
    assert(apart_from_first(ks, 2, ks[5].0));
    assert(ks[2].0[0] != ks[5].0[0]);
    assert(apart_from_first(ks, 3, ks[5].0));
    assert(ks[3].0[0] != ks[5].0[0]);
    assert(apart_from_first(ks, 4, ks[5].0));
    assert(ks[4].0[0] != ks[5].0[0]);
    assert(apart_from_first(ks, 5, ks[5].0));
    assert(command_layers(CommandId::MoveSubscribedFeedNext)[0] == Layer::Feeds);
    assert(command_allows_layer(ks[5].1, Layer::Feeds));
    assert(separated(Layer::Feeds, ks, 6));
    assert(apart_from_first(ks, 0, ks[6].0));
    assert(ks[0].0[0] != ks[6].0[0]);
    assert(apart_from_first(ks, 1, ks[6].0));
    assert(ks[1].0[0] != ks[6].0[0]);
    assert(apart_from_first(ks, 2, ks[6].0));
    assert(ks[2].0[0] != ks[6].0[0]);
    assert(apart_from_first(ks, 3, ks[6].0));
    assert(ks[3].0[0] != ks[6].0[0]);
    assert(apart_from_first(ks, 4, ks[6].0));
    assert(ks[4].0[0] != ks[6].0[0]);
    assert(apart_from_first(ks, 5, ks[6].0));
    assert(ks[5].0[0] != ks[6].0[0]);
    assert(apart_from_first(ks, 6, ks[6].0));
    assert(command_layers(CommandId::MoveSubscribedFeedNext)[0] == Layer::Feeds);
    assert(command_allows_layer(ks[6].1, Layer::Feeds));
    assert(separated(Layer::Feeds, ks, 7));
    assert(apart_from_first(ks, 0, ks[7].0));
    assert(ks[0].0[0] != ks[7].0[0]);
    assert(apart_from_first(ks, 1, ks[7].0));
    assert(ks[1].0[0] != ks[7].0[0]);
    assert(apart_from_first(ks, 2, ks[7].0));
    assert(ks[2].0[0] != ks[7].0[0]);
    assert(apart_from_first(ks, 3, ks[7].0));
    assert(ks[3].0[0] != ks[7].0[0]);
    assert(apart_from_first(ks, 4, ks[7].0));
    assert(ks[4].0[0] != ks[7].0[0]);
    assert(apart_from_first(ks, 5, ks[7].0));
    assert(ks[5].0[0] != ks[7].0[0]);
    assert(apart_from_first(ks, 6, ks[7].0));
    assert(ks[6].0[0] != ks[7].0[0]);
    assert(apart_from_first(ks, 7, ks[7].0));
    assert(command_layers(CommandId::ReloadSubscription)[0] == Layer::Feeds);
    assert(command_allows_layer(ks[7].1, Layer::Feeds));
    assert(separated(Layer::Feeds, ks, 8));
    assert(apart_from_first(ks, 0, ks[8].0));
    assert(ks[0].0[0] != ks[8].0[0]);
    assert(apart_from_first(ks, 1, ks[8].0));
    assert(ks[1].0[0] != ks[8].0[0]);
    assert(apart_from_first(ks, 2, ks[8].0));
    assert(ks[2].0[0] != ks[8].0[0]);
    assert(apart_from_first(ks, 3, ks[8].0));
    assert(ks[3].0[0] != ks[8].0[0]);
    assert(apart_from_first(ks, 4, ks[8].0));
    assert(ks[4].0[0] != ks[8].0[0]);
    assert(apart_from_first(ks, 5, ks[8].0));
    assert(ks[5].0[0] != ks[8].0[0]);
    assert(apart_from_first(ks, 6, ks[8].0));
    assert(ks[6].0[0] != ks[8].0[0]);
    assert(apart_from_first(ks, 7, ks[8].0));
    assert(ks[7].0[0] != ks[8].0[0]);
    assert(apart_from_first(ks, 8, ks[8].0));
    assert(command_layers(CommandId::OpenFeed)[0] == Layer::Feeds);
    assert(command_allows_layer(ks[8].1, Layer::Feeds));
    assert(separated(Layer::Feeds, ks, 9));
    assert(apart_from_first(ks, 0, ks[9].0));
    assert(ks[0].0[0] != ks[9].0[0]);
    assert(apart_from_first(ks, 1, ks[9].0));
    assert(ks[1].0[0] != ks[9].0[0]);
    assert(apart_from_first(ks, 2, ks[9].0));
    assert(ks[2].0[0] != ks[9].0[0]);
    assert(apart_from_first(ks, 3, ks[9].0));
    assert(ks[3].0[0] != ks[9].0[0]);
    assert(apart_from_first(ks, 4, ks[9].0));
    assert(ks[4].0[0] != ks[9].0[0]);
    assert(apart_from_first(ks, 5, ks[9].0));
    assert(ks[5].0[0] != ks[9].0[0]);
    assert(apart_from_first(ks, 6, ks[9].0));
    assert(ks[6].0[0] != ks[9].0[0]);
    assert(apart_from_first(ks, 7, ks[9].0));
    assert(ks[7].0[0] != ks[9].0[0]);
    assert(apart_from_first(ks, 8, ks[9].0));
    assert(ks[8].0[0] != ks[9].0[0]);
    assert(apart_from_first(ks, 9, ks[9].0));
    assert(command_layers(CommandId::MoveSubscribedFeedFirst)[0] == Layer::Feeds);
    assert(command_allows_layer(ks[9].1, Layer::Feeds));
    assert(separated(Layer::Feeds, ks, 10));
    assert(apart_from_first(ks, 0, ks[10].0));
    assert(ks[0].0[0] != ks[10].0[0]);
    assert(apart_from_first(ks, 1, ks[10].0));
    assert(ks[1].0[0] != ks[10].0[0]);
    assert(apart_from_first(ks, 2, ks[10].0));
    assert(ks[2].0[0] != ks[10].0[0]);
    assert(apart_from_first(ks, 3, ks[10].0));
    assert(ks[3].0[0] != ks[10].0[0]);
    assert(apart_from_first(ks, 4, ks[10].0));
    assert(ks[4].0[0] != ks[10].0[0]);
    assert(apart_from_first(ks, 5, ks[10].0));
    assert(ks[5].0[0] != ks[10].0[0]);
    assert(apart_from_first(ks, 6, ks[10].0));
    assert(ks[6].0[0] != ks[10].0[0]);
    assert(apart_from_first(ks, 7, ks[10].0));
    assert(ks[7].0[0] != ks[10].0[0]);
    assert(apart_from_first(ks, 8, ks[10].0));
    assert(ks[8].0[0] != ks[10].0[0]);
    assert(apart_from_first(ks, 9, ks[10].0));
    assert(ks[9].0[1] != ks[10].0[1]);
    assert(apart_from_first(ks, 10, ks[10].0));
    assert(command_layers(CommandId::MoveSubscribedFeedLast)[0] == Layer::Feeds);
    assert(command_allows_layer(ks[10].1, Layer::Feeds));
    assert(separated(Layer::Feeds, ks, 11));
}

proof fn lemma_filter_separated()
    ensures
        separated(Layer::Filter, default_keys(Layer::Filter), default_bindings(Layer::Filter).len()),
{
    let ks = default_keys(Layer::Filter);
    assert(default_bindings(Layer::Filter).len() == 7);
    assert(separated(Layer::Filter, ks, 0));
    assert(ks[0] == (seq![stroke(KeyCode::Char('h'), held(false, false, false))], CommandId::MoveFilterRequirementPrev));
    assert(ks[1] == (seq![stroke(KeyCode::Left, held(false, false, false))], CommandId::MoveFilterRequirementPrev));
    assert(ks[2] == (seq![stroke(KeyCode::Char('l'), held(false, false, false))], CommandId::MoveFilterRequirementNext));
    assert(ks[3] == (seq![stroke(KeyCode::Right, held(false, false, false))], CommandId::MoveFilterRequirementNext));
    assert(ks[4] == (seq![stroke(KeyCode::Char('c'), held(false, false, false))], CommandId::ActivateCategoryFiltering));
    assert(ks[5] == (seq![stroke(KeyCode::Char('/'), held(false, false, false))], CommandId::ActivateSearchFiltering));
    assert(ks[6] == (seq![stroke(KeyCode::Esc, held(false, false, false))], CommandId::DeactivateFiltering));
    assert(apart_from_first(ks, 0, ks[0].0));
    assert(command_layers(CommandId::MoveFilterRequirementPrev)[0] == Layer::Filter);
    assert(command_allows_layer(ks[0].1, Layer::Filter));
    assert(separated(Layer::Filter, ks, 1));
    assert(apart_from_first(ks, 0, ks[1].0));
    assert(ks[0].0[0] != ks[1].0[0]);
    assert(apart_from_first(ks, 1, ks[1].0));
    assert(command_layers(CommandId::MoveFilterRequirementPrev)[0] == Layer::Filter);
    assert(command_allows_layer(ks[1].1, Layer::Filter));
    assert(separated(Layer::Filter, ks, 2));
    assert(apart_from_first(ks, 0, ks[2].0));
    assert(ks[0].0[0] != ks[2].0[0]);
    assert(apart_from_first(ks, 1, ks[2].0));
    assert(ks[1].0[0] != ks[2].0[0]);
    assert(apart_from_first(ks, 2, ks[2].0));
    assert(command_layers(CommandId::MoveFilterRequirementNext)[0] == Layer::Filter);
    assert(command_allows_layer(ks[2].1, Layer::Filter));
    assert(separated(Layer::Filter, ks, 3));
    assert(apart_from_first(ks, 0, ks[3].0));
    assert(ks[0].0[0] != ks[3].0[0]);
    assert(apart_from_first(ks, 1, ks[3].0));
    assert(ks[1].0[0] != ks[3].0[0]);
    assert(apart_from_first(ks, 2, ks[3].0));
    assert(ks[2].0[0] != ks[3].0[0]);
    assert(apart_from_first(ks, 3, ks[3].0));
    assert(command_layers(CommandId::MoveFilterRequirementNext)[0] == Layer::Filter);
    assert(command_allows_layer(ks[3].1, Layer::Filter));
    assert(separated(Layer::Filter, ks, 4));
    assert(apart_from_first(ks, 0, ks[4].0));
    assert(ks[0].0[0] != ks[4].0[0]);
    assert(apart_from_first(ks, 1, ks[4].0));
    assert(ks[1].0[0] != ks[4].0[0]);
    assert(apart_from_first(ks, 2, ks[4].0));
    assert(ks[2].0[0] != ks[4].0[0]);
    assert(apart_from_first(ks, 3, ks[4].0));
    assert(ks[3].0[0] != ks[4].0[0]);
    assert(apart_from_first(ks, 4, ks[4].0));
    assert(command_layers(CommandId::ActivateCategoryFiltering)[0] == Layer::Filter);
    assert(command_allows_layer(ks[4].1, Layer::Filter));
    assert(separated(Layer::Filter, ks, 5));
    assert(apart_from_first(ks, 0, ks[5].0));
    assert(ks[0].0[0] != ks[5].0[0]);
    assert(apart_from_first(ks, 1, ks[5].0));
    assert(ks[1].0[0] != ks[5].0[0]);
    assert(apart_from_first(ks, 2, ks[5].0));
    assert(ks[2].0[0] != ks[5].0[0]);
    assert(apart_from_first(ks, 3, ks[5].0));
    assert(ks[3].0[0] != ks[5].0[0]);
    assert(apart_from_first(ks, 4, ks[5].0));
    assert(ks[4].0[0] != ks[5].0[0]);
    assert(apart_from_first(ks, 5, ks[5].0));
    assert(command_layers(CommandId::ActivateSearchFiltering)[0] == Layer::Filter);
    assert(command_allows_layer(ks[5].1, Layer::Filter));
    assert(separated(Layer::Filter, ks, 6));
    assert(apart_from_first(ks, 0, ks[6].0));
    assert(ks[0].0[0] != ks[6].0[0]);
    assert(apart_from_first(ks, 1, ks[6].0));
    assert(ks[1].0[0] != ks[6].0[0]);
    assert(apart_from_first(ks, 2, ks[6].0));
    assert(ks[2].0[0] != ks[6].0[0]);
    assert(apart_from_first(ks, 3, ks[6].0));
    assert(ks[3].0[0] != ks[6].0[0]);
    assert(apart_from_first(ks, 4, ks[6].0));
    assert(ks[4].0[0] != ks[6].0[0]);
    assert(apart_from_first(ks, 5, ks[6].0));
    assert(ks[5].0[0] != ks[6].0[0]);
    assert(apart_from_first(ks, 6, ks[6].0));
    assert(command_layers(CommandId::DeactivateFiltering)[0] == Layer::Filter);
    assert(command_allows_layer(ks[6].1, Layer::Filter));
    assert(separated(Layer::Filter, ks, 7));
}

proof fn lemma_category_filter_separated()
    ensures
        separated(Layer::CategoryFilter, default_keys(Layer::CategoryFilter), default_bindings(Layer::CategoryFilter).len()),
{
    let ks = default_keys(Layer::CategoryFilter);
    assert(default_bindings(Layer::CategoryFilter).len() == 0);
}

proof fn lemma_search_prompt_separated()
    ensures
        separated(Layer::SearchPrompt, default_keys(Layer::SearchPrompt), default_bindings(Layer::SearchPrompt).len()),
{
    let ks = default_keys(Layer::SearchPrompt);
    assert(default_bindings(Layer::SearchPrompt).len() == 0);
}

proof fn lemma_unsubscribe_popup_separated()
    ensures
        separated(Layer::UnsubscribePopup, default_keys(Layer::UnsubscribePopup), default_bindings(Layer::UnsubscribePopup).len()),
{
    let ks = default_keys(Layer::UnsubscribePopup);
    assert(default_bindings(Layer::UnsubscribePopup).len() == 6);
    assert(separated(Layer::UnsubscribePopup, ks, 0));
    assert(ks[0] == (seq![stroke(KeyCode::Char('h'), held(false, false, false))], CommandId::MoveFeedUnsubscriptionPopupSelectionPrev));
    assert(ks[1] == (seq![stroke(KeyCode::Left, held(false, false, false))], CommandId::MoveFeedUnsubscriptionPopupSelectionPrev));
    assert(ks[2] == (seq![stroke(KeyCode::Char('l'), held(false, false, false))], CommandId::MoveFeedUnsubscriptionPopupSelectionNext));
    assert(ks[3] == (seq![stroke(KeyCode::Right, held(false, false, false))], CommandId::MoveFeedUnsubscriptionPopupSelectionNext));
    assert(ks[4] == (seq![stroke(KeyCode::Enter, held(false, false, false))], CommandId::SelectFeedUnsubscriptionPopup));
    assert(ks[5] == (seq![stroke(KeyCode::Esc, held(false, false, false))], CommandId::CancelFeedUnsubscriptionPopup));
    assert(apart_from_first(ks, 0, ks[0].0));
    assert(command_layers(CommandId::MoveFeedUnsubscriptionPopupSelectionPrev)[0] == Layer::UnsubscribePopup);
    assert(command_allows_layer(ks[0].1, Layer::UnsubscribePopup));
    assert(separated(Layer::UnsubscribePopup, ks, 1));
    assert(apart_from_first(ks, 0, ks[1].0));
    assert(ks[0].0[0] != ks[1].0[0]);
    assert(apart_from_first(ks, 1, ks[1].0));
    assert(command_layers(CommandId::MoveFeedUnsubscriptionPopupSelectionPrev)[0] == Layer::UnsubscribePopup);
    assert(command_allows_layer(ks[1].1, Layer::UnsubscribePopup));
    assert(separated(Layer::UnsubscribePopup, ks, 2));
    assert(apart_from_first(ks, 0, ks[2].0));
    assert(ks[0].0[0] != ks[2].0[0]);
    assert(apart_from_first(ks, 1, ks[2].0));
    assert(ks[1].0[0] != ks[2].0[0]);
    assert(apart_from_first(ks, 2, ks[2].0));
    assert(command_layers(CommandId::MoveFeedUnsubscriptionPopupSelectionNext)[0] == Layer::UnsubscribePopup);
    assert(command_allows_layer(ks[2].1, Layer::UnsubscribePopup));
    assert(separated(Layer::UnsubscribePopup, ks, 3));
    assert(apart_from_first(ks, 0, ks[3].0));
    assert(ks[0].0[0] != ks[3].0[0]);
    assert(apart_from_first(ks, 1, ks[3].0));
    assert(ks[1].0[0] != ks[3].0[0]);
    assert(apart_from_first(ks, 2, ks[3].0));
    assert(ks[2].0[0] != ks[3].0[0]);
    assert(apart_from_first(ks, 3, ks[3].0));
    assert(command_layers(CommandId::MoveFeedUnsubscriptionPopupSelectionNext)[0] == Layer::UnsubscribePopup);
    assert(command_allows_layer(ks[3].1, Layer::UnsubscribePopup));
    assert(separated(Layer::UnsubscribePopup, ks, 4));
    assert(apart_from_first(ks, 0, ks[4].0));
    assert(ks[0].0[0] != ks[4].0[0]);
    assert(apart_from_first(ks, 1, ks[4].0));
    assert(ks[1].0[0] != ks[4].0[0]);
    assert(apart_from_first(ks, 2, ks[4].0));
    assert(ks[2].0[0] != ks[4].0[0]);
    assert(apart_from_first(ks, 3, ks[4].0));
    assert(ks[3].0[0] != ks[4].0[0]);
    assert(apart_from_first(ks, 4, ks[4].0));
    assert(command_layers(CommandId::SelectFeedUnsubscriptionPopup)[0] == Layer::UnsubscribePopup);
    assert(command_allows_layer(ks[4].1, Layer::UnsubscribePopup));
    assert(separated(Layer::UnsubscribePopup, ks, 5));
    assert(apart_from_first(ks, 0, ks[5].0));
    assert(ks[0].0[0] != ks[5].0[0]);
    assert(apart_from_first(ks, 1, ks[5].0));
    assert(ks[1].0[0] != ks[5].0[0]);
    assert(apart_from_first(ks, 2, ks[5].0));
    assert(ks[2].0[0] != ks[5].0[0]);
    assert(apart_from_first(ks, 3, ks[5].0));
    assert(ks[3].0[0] != ks[5].0[0]);
    assert(apart_from_first(ks, 4, ks[5].0));
    assert(ks[4].0[0] != ks[5].0[0]);
    assert(apart_from_first(ks, 5, ks[5].0));
    assert(command_layers(CommandId::CancelFeedUnsubscriptionPopup)[0] == Layer::UnsubscribePopup);
    assert(command_allows_layer(ks[5].1, Layer::UnsubscribePopup));
    assert(separated(Layer::UnsubscribePopup, ks, 6));
}

proof fn lemma_github_notifications_separated()
    ensures
        separated(Layer::GithubNotifications, default_keys(Layer::GithubNotifications), default_bindings(Layer::GithubNotifications).len()),
{
    let ks = default_keys(Layer::GithubNotifications);
    assert(default_bindings(Layer::GithubNotifications).len() == 13);
    assert(separated(Layer::GithubNotifications, ks, 0));
    assert(ks[0] == (seq![stroke(KeyCode::Char('k'), held(false, false, false))], CommandId::MoveGithubNotificationPrev));
    assert(ks[1] == (seq![stroke(KeyCode::Up, held(false, false, false))], CommandId::MoveGithubNotificationPrev));
    assert(ks[2] == (seq![stroke(KeyCode::Char('j'), held(false, false, false))], CommandId::MoveGithubNotificationNext));
    assert(ks[3] == (seq![stroke(KeyCode::Down, held(false, false, false))], CommandId::MoveGithubNotificationNext));
    assert(ks[4] == (seq![stroke(KeyCode::Enter, held(false, false, false))], CommandId::OpenGithubNotification));
    assert(ks[5] == (seq![stroke(KeyCode::Enter, held(false, false, true))], CommandId::OpenGithubNotificationWithDone));
    assert(ks[6] == (seq![stroke(KeyCode::Char('r'), held(false, false, false))], CommandId::ReloadGithubNotifications));
    assert(ks[7] == (seq![stroke(KeyCode::Char('d'), held(false, false, false))], CommandId::MarkGithubNotificationAsDone));
    assert(ks[8] == (seq![stroke(KeyCode::Char('d'), held(true, false, false))], CommandId::MarkGithubNotificationAsDoneAll));
    assert(ks[9] == (seq![stroke(KeyCode::Char('u'), held(false, false, false))], CommandId::UnsubscribeGithubThread));
    assert(ks[10] == (seq![stroke(KeyCode::Char('g'), held(false, false, false)), stroke(KeyCode::Char('g'), held(false, false, false))], CommandId::MoveGithubNotificationFirst));
    assert(ks[11] == (seq![stroke(KeyCode::Char('g'), held(false, false, false)), stroke(KeyCode::Char('e'), held(false, false, false))], CommandId::MoveGithubNotificationLast));
    assert(ks[12] == (seq![stroke(KeyCode::Char('f'), held(false, false, false))], CommandId::OpenGithubNotificationFilterPopup));
    assert(apart_from_first(ks, 0, ks[0].0));
    assert(command_layers(CommandId::MoveGithubNotificationPrev)[0] == Layer::GithubNotifications);
    assert(command_allows_layer(ks[0].1, Layer::GithubNotifications));
    assert(separated(Layer::GithubNotifications, ks, 1));
    assert(apart_from_first(ks, 0, ks[1].0));
    assert(ks[0].0[0] != ks[1].0[0]);
    assert(apart_from_first(ks, 1, ks[1].0));
    assert(command_layers(CommandId::MoveGithubNotificationPrev)[0] == Layer::GithubNotifications);
    assert(command_allows_layer(ks[1].1, Layer::GithubNotifications));
    assert(separated(Layer::GithubNotifications, ks, 2));
    assert(apart_from_first(ks, 0, ks[2].0));
    assert(ks[0].0[0] != ks[2].0[0]);
    assert(apart_from_first(ks, 1, ks[2].0));
    assert(ks[1].0[0] != ks[2].0[0]);
    assert(apart_from_first(ks, 2, ks[2].0));
    assert(command_layers(CommandId::MoveGithubNotificationNext)[0] == Layer::GithubNotifications);
    assert(command_allows_layer(ks[2].1, Layer::GithubNotifications));
    assert(separated(Layer::GithubNotifications, ks, 3));
    assert(apart_from_first(ks, 0, ks[3].0));
    assert(ks[0].0[0] != ks[3].0[0]);
    assert(apart_from_first(ks, 1, ks[3].0));
    assert(ks[1].0[0] != ks[3].0[0]);
    assert(apart_from_first(ks, 2, ks[3].0));
    assert(ks[2].0[0] != ks[3].0[0]);
    assert(apart_from_first(ks, 3, ks[3].0));
    assert(command_layers(CommandId::MoveGithubNotificationNext)[0] == Layer::GithubNotifications);
    assert(command_allows_layer(ks[3].1, Layer::GithubNotifications));
    assert(separated(Layer::GithubNotifications, ks, 4));
    assert(apart_from_first(ks, 0, ks[4].0));
    assert(ks[0].0[0] != ks[4].0[0]);
    assert(apart_from_first(ks, 1, ks[4].0));
    assert(ks[1].0[0] != ks[4].0[0]);
    assert(apart_from_first(ks, 2, ks[4].0));
    assert(ks[2].0[0] != ks[4].0[0]);
    assert(apart_from_first(ks, 3, ks[4].0));
    assert(ks[3].0[0] != ks[4].0[0]);
    assert(apart_from_first(ks, 4, ks[4].0));
    assert(command_layers(CommandId::OpenGithubNotification)[0] == Layer::GithubNotifications);
    assert(command_allows_layer(ks[4].1, Layer::GithubNotifications));
    assert(separated(Layer::GithubNotifications, ks, 5));
    assert(apart_from_first(ks, 0, ks[5].0));
    assert(ks[0].0[0] != ks[5].0[0]);
    assert(apart_from_first(ks, 1, ks[5].0));
    assert(ks[1].0[0] != ks[5].0[0]);
    assert(apart_from_first(ks, 2, ks[5].0));
    assert(ks[2].0[0] != ks[5].0[0]);
    assert(apart_from_first(ks, 3, ks[5].0));
    assert(ks[3].0[0] != ks[5].0[0]);
    assert(apart_from_first(ks, 4, ks[5].0));
    assert(ks[4].0[0] != ks[5].0[0]);
    assert(apart_from_first(ks, 5, ks[5].0));
    assert(command_layers(CommandId::OpenGithubNotificationWithDone)[0] == Layer::GithubNotifications);
    assert(command_allows_layer(ks[5].1, Layer::GithubNotifications));
    assert(separated(Layer::GithubNotifications, ks, 6));
    assert(apart_from_first(ks, 0, ks[6].0));
    assert(ks[0].0[0] != ks[6].0[0]);
    assert(apart_from_first(ks, 1, ks[6].0));
    assert(ks[1].0[0] != ks[6].0[0]);
    assert(apart_from_first(ks, 2, ks[6].0));
    assert(ks[2].0[0] != ks[6].0[0]);
    assert(apart_from_first(ks, 3, ks[6].0));
    assert(ks[3].0[0] != ks[6].0[0]);
    assert(apart_from_first(ks, 4, ks[6].0));
    assert(ks[4].0[0] != ks[6].0[0]);
    assert(apart_from_first(ks, 5, ks[6].0));
    assert(ks[5].0[0] != ks[6].0[0]);
    assert(apart_from_first(ks, 6, ks[6].0));
    assert(command_layers(CommandId::ReloadGithubNotifications)[0] == Layer::GithubNotifications);
    assert(command_allows_layer(ks[6].1, Layer::GithubNotifications));
    assert(separated(Layer::GithubNotifications, ks, 7));
    assert(apart_from_first(ks, 0, ks[7].0));
    assert(ks[0].0[0] != ks[7].0[0]);
    assert(apart_from_first(ks, 1, ks[7].0));
    assert(ks[1].0[0] != ks[7].0[0]);
    assert(apart_from_first(ks, 2, ks[7].0));
    assert(ks[2].0[0] != ks[7].0[0]);
    assert(apart_from_first(ks, 3, ks[7].0));
    assert(ks[3].0[0] != ks[7].0[0]);
    assert(apart_from_first(ks, 4, ks[7].0));
    assert(ks[4].0[0] != ks[7].0[0]);
    assert(apart_from_first(ks, 5, ks[7].0));
    assert(ks[5].0[0] != ks[7].0[0]);
    assert(apart_from_first(ks, 6, ks[7].0));
    assert(ks[6].0[0] != ks[7].0[0]);
    assert(apart_from_first(ks, 7, ks[7].0));
    assert(command_layers(CommandId::MarkGithubNotificationAsDone)[0] == Layer::GithubNotifications);
    assert(command_allows_layer(ks[7].1, Layer::GithubNotifications));
    assert(separated(Layer::GithubNotifications, ks, 8));
    assert(apart_from_first(ks, 0, ks[8].0));
    assert(ks[0].0[0] != ks[8].0[0]);
    assert(apart_from_first(ks, 1, ks[8].0));
    assert(ks[1].0[0] != ks[8].0[0]);
    assert(apart_from_first(ks, 2, ks[8].0));
    assert(ks[2].0[0] != ks[8].0[0]);
    assert(apart_from_first(ks, 3, ks[8].0));
    assert(ks[3].0[0] != ks[8].0[0]);
    assert(apart_from_first(ks, 4, ks[8].0));
    assert(ks[4].0[0] != ks[8].0[0]);
    assert(apart_from_first(ks, 5, ks[8].0));
    assert(ks[5].0[0] != ks[8].0[0]);
    assert(apart_from_first(ks, 6, ks[8].0));
    assert(ks[6].0[0] != ks[8].0[0]);
    assert(apart_from_first(ks, 7, ks[8].0));
    assert(ks[7].0[0] != ks[8].0[0]);
    assert(apart_from_first(ks, 8, ks[8].0));
    assert(command_layers(CommandId::MarkGithubNotificationAsDoneAll)[0] == Layer::GithubNotifications);
    assert(command_allows_layer(ks[8].1, Layer::GithubNotifications));
    assert(separated(Layer::GithubNotifications, ks, 9));
    assert(apart_from_first(ks, 0, ks[9].0));
    assert(ks[0].0[0] != ks[9].0[0]);
    assert(apart_from_first(ks, 1, ks[9].0));
    assert(ks[1].0[0] != ks[9].0[0]);
    assert(apart_from_first(ks, 2, ks[9].0));
    assert(ks[2].0[0] != ks[9].0[0]);
    assert(apart_from_first(ks, 3, ks[9].0));
    assert(ks[3].0[0] != ks[9].0[0]);
    assert(apart_from_first(ks, 4, ks[9].0));
    assert(ks[4].0[0] != ks[9].0[0]);
    assert(apart_from_first(ks, 5, ks[9].0));
    assert(ks[5].0[0] != ks[9].0[0]);
    assert(apart_from_first(ks, 6, ks[9].0));
    assert(ks[6].0[0] != ks[9].0[0]);
    assert(apart_from_first(ks, 7, ks[9].0));
    assert(ks[7].0[0] != ks[9].0[0]);
    assert(apart_from_first(ks, 8, ks[9].0));
    assert(ks[8].0[0] != ks[9].0[0]);
    assert(apart_from_first(ks, 9, ks[9].0));
    assert(command_layers(CommandId::UnsubscribeGithubThread)[0] == Layer::GithubNotifications);
    assert(command_allows_layer(ks[9].1, Layer::GithubNotifications));
    assert(separated(Layer::GithubNotifications, ks, 10));
    assert(apart_from_first(ks, 0, ks[10].0));
    assert(ks[0].0[0] != ks[10].0[0]);
    assert(apart_from_first(ks, 1, ks[10].0));
    assert(ks[1].0[0] != ks[10].0[0]);
    assert(apart_from_first(ks, 2, ks[10].0));
    assert(ks[2].0[0] != ks[10].0[0]);
    assert(apart_from_first(ks, 3, ks[10].0));
    assert(ks[3].0[0] != ks[10].0[0]);
    assert(apart_from_first(ks, 4, ks[10].0));
    assert(ks[4].0[0] != ks[10].0[0]);
    assert(apart_from_first(ks, 5, ks[10].0));
    assert(ks[5].0[0] != ks[10].0[0]);
    assert(apart_from_first(ks, 6, ks[10].0));
    assert(ks[6].0[0] != ks[10].0[0]);
    assert(apart_from_first(ks, 7, ks[10].0));
    assert(ks[7].0[0] != ks[10].0[0]);
    assert(apart_from_first(ks, 8, ks[10].0));
    assert(ks[8].0[0] != ks[10].0[0]);
    assert(apart_from_first(ks, 9, ks[10].0));
    assert(ks[9].0[0] != ks[10].0[0]);
    assert(apart_from_first(ks, 10, ks[10].0));
    assert(command_layers(CommandId::MoveGithubNotificationFirst)[0] == Layer::GithubNotifications);
    assert(command_allows_layer(ks[10].1, Layer::GithubNotifications));
    assert(separated(Layer::GithubNotifications, ks, 11));
    assert(apart_from_first(ks, 0, ks[11].0));
    assert(ks[0].0[0] != ks[11].0[0]);
    assert(apart_from_first(ks, 1, ks[11].0));
    assert(ks[1].0[0] != ks[11].0[0]);
    assert(apart_from_first(ks, 2, ks[11].0));
    assert(ks[2].0[0] != ks[11].0[0]);
    assert(apart_from_first(ks, 3, ks[11].0));
    assert(ks[3].0[0] != ks[11].0[0]);
    assert(apart_from_first(ks, 4, ks[11].0));
    assert(ks[4].0[0] != ks[11].0[0]);
    assert(apart_from_first(ks, 5, ks[11].0));
    assert(ks[5].0[0] != ks[11].0[0]);
    assert(apart_from_first(ks, 6, ks[11].0));
    assert(ks[6].0[0] != ks[11].0[0]);
    assert(apart_from_first(ks, 7, ks[11].0));
    assert(ks[7].0[0] != ks[11].0[0]);
    assert(apart_from_first(ks, 8, ks[11].0));
    assert(ks[8].0[0] != ks[11].0[0]);
    assert(apart_from_first(ks, 9, ks[11].0));
    assert(ks[9].0[0] != ks[11].0[0]);
    assert(apart_from_first(ks, 10, ks[11].0));
    assert(ks[10].0[1] != ks[11].0[1]);
    assert(apart_from_first(ks, 11, ks[11].0));
    assert(command_layers(CommandId::MoveGithubNotificationLast)[0] == Layer::GithubNotifications);
    assert(command_allows_layer(ks[11].1, Layer::GithubNotifications));
    assert(separated(Layer::GithubNotifications, ks, 12));
    assert(apart_from_first(ks, 0, ks[12].0));
    assert(ks[0].0[0] != ks[12].0[0]);
    assert(apart_from_first(ks, 1, ks[12].0));
    assert(ks[1].0[0] != ks[12].0[0]);
    assert(apart_from_first(ks, 2, ks[12].0));
    assert(ks[2].0[0] != ks[12].0[0]);
    assert(apart_from_first(ks, 3, ks[12].0));
    assert(ks[3].0[0] != ks[12].0[0]);
    assert(apart_from_first(ks, 4, ks[12].0));
    assert(ks[4].0[0] != ks[12].0[0]);
    assert(apart_from_first(ks, 5, ks[12].0));
    assert(ks[5].0[0] != ks[12].0[0]);
    assert(apart_from_first(ks, 6, ks[12].0));
    assert(ks[6].0[0] != ks[12].0[0]);
    assert(apart_from_first(ks, 7, ks[12].0));
    assert(ks[7].0[0] != ks[12].0[0]);
    assert(apart_from_first(ks, 8, ks[12].0));
    assert(ks[8].0[0] != ks[12].0[0]);
    assert(apart_from_first(ks, 9, ks[12].0));
    assert(ks[9].0[0] != ks[12].0[0]);
    assert(apart_from_first(ks, 10, ks[12].0));
    assert(ks[10].0[0] != ks[12].0[0]);
    assert(apart_from_first(ks, 11, ks[12].0));
    assert(ks[11].0[0] != ks[12].0[0]);
    assert(apart_from_first(ks, 12, ks[12].0));
    assert(command_layers(CommandId::OpenGithubNotificationFilterPopup)[0] == Layer::GithubNotifications);
    assert(command_allows_layer(ks[12].1, Layer::GithubNotifications));
    assert(separated(Layer::GithubNotifications, ks, 13));
}

proof fn lemma_github_notification_filter_popup_separated()
    ensures
        separated(Layer::GithubNotificationFilterPopup, default_keys(Layer::GithubNotificationFilterPopup), default_bindings(Layer::GithubNotificationFilterPopup).len()),
{
    let ks = default_keys(Layer::GithubNotificationFilterPopup);
    assert(default_bindings(Layer::GithubNotificationFilterPopup).len() == 11);
    assert(separated(Layer::GithubNotificationFilterPopup, ks, 0));
    assert(ks[0] == (seq![stroke(KeyCode::Char('u'), held(false, false, false)), stroke(KeyCode::Char('n'), held(false, false, false))], CommandId::ToggleGithubNotificationFilterPopupIncludeUnread));
    assert(ks[1] == (seq![stroke(KeyCode::Char('c'), held(false, false, false)), stroke(KeyCode::Char('l'), held(false, false, false))], CommandId::ToggleGithubNotificationFilterPopupPullRequestClosed));
    assert(ks[2] == (seq![stroke(KeyCode::Char('p'), held(false, false, false)), stroke(KeyCode::Char('a'), held(false, false, false))], CommandId::ToggleGithubNotificationFilterPopupParticipating));
    assert(ks[3] == (seq![stroke(KeyCode::Char('p'), held(false, false, false)), stroke(KeyCode::Char('u'), held(false, false, false))], CommandId::ToggleGithubNotificationFilterPopupVisibilityPublic));
    assert(ks[4] == (seq![stroke(KeyCode::Char('p'), held(false, false, false)), stroke(KeyCode::Char('r'), held(false, false, false))], CommandId::ToggleGithubNotificationFilterPopupVisibilityPrivate));
    assert(ks[5] == (seq![stroke(KeyCode::Char('o'), held(false, false, false)), stroke(KeyCode::Char('p'), held(false, false, false))], CommandId::ToggleGithubNotificationFilterPopupPullRequestOpen));
    assert(ks[6] == (seq![stroke(KeyCode::Char('m'), held(false, false, false)), stroke(KeyCode::Char('e'), held(false, false, false))], CommandId::ToggleGithubNotificationFilterPopupReasonMentioned));
    assert(ks[7] == (seq![stroke(KeyCode::Char('m'), held(false, false, false)), stroke(KeyCode::Char('r'), held(false, false, false))], CommandId::ToggleGithubNotificationFilterPopupPullRequestMerged));
    assert(ks[8] == (seq![stroke(KeyCode::Char('r'), held(false, false, false)), stroke(KeyCode::Char('e'), held(false, false, false))], CommandId::ToggleGithubNotificationFilterPopupReasonReviewRequested));
    assert(ks[9] == (seq![stroke(KeyCode::Esc, held(false, false, false))], CommandId::CloseGithubNotificationFilterPopup));
    assert(ks[10] == (seq![stroke(KeyCode::Enter, held(false, false, false))], CommandId::CloseGithubNotificationFilterPopup));
    assert(apart_from_first(ks, 0, ks[0].0));
    assert(command_layers(CommandId::ToggleGithubNotificationFilterPopupIncludeUnread)[0] == Layer::GithubNotificationFilterPopup);
    assert(command_allows_layer(ks[0].1, Layer::GithubNotificationFilterPopup));
    assert(separated(Layer::GithubNotificationFilterPopup, ks, 1));
    assert(apart_from_first(ks, 0, ks[1].0));
    assert(ks[0].0[0] != ks[1].0[0]);
    assert(apart_from_first(ks, 1, ks[1].0));
    assert(command_layers(CommandId::ToggleGithubNotificationFilterPopupPullRequestClosed)[0] == Layer::GithubNotificationFilterPopup);
    assert(command_allows_layer(ks[1].1, Layer::GithubNotificationFilterPopup));
    assert(separated(Layer::GithubNotificationFilterPopup, ks, 2));
    assert(apart_from_first(ks, 0, ks[2].0));
    assert(ks[0].0[0] != ks[2].0[0]);
    assert(apart_from_first(ks, 1, ks[2].0));
    assert(ks[1].0[0] != ks[2].0[0]);
    assert(apart_from_first(ks, 2, ks[2].0));
    assert(command_layers(CommandId::ToggleGithubNotificationFilterPopupParticipating)[0] == Layer::GithubNotificationFilterPopup);
    assert(command_allows_layer(ks[2].1, Layer::GithubNotificationFilterPopup));
    assert(separated(Layer::GithubNotificationFilterPopup, ks, 3));
    assert(apart_from_first(ks, 0, ks[3].0));
    assert(ks[0].0[0] != ks[3].0[0]);
    assert(apart_from_first(ks, 1, ks[3].0));
    assert(ks[1].0[0] != ks[3].0[0]);
    assert(apart_from_first(ks, 2, ks[3].0));
    assert(ks[2].0[1] != ks[3].0[1]);
    assert(apart_from_first(ks, 3, ks[3].0));
    assert(command_layers(CommandId::ToggleGithubNotificationFilterPopupVisibilityPublic)[0] == Layer::GithubNotificationFilterPopup);
    assert(command_allows_layer(ks[3].1, Layer::GithubNotificationFilterPopup));
    assert(separated(Layer::GithubNotificationFilterPopup, ks, 4));
    assert(apart_from_first(ks, 0, ks[4].0));
    assert(ks[0].0[0] != ks[4].0[0]);
    assert(apart_from_first(ks, 1, ks[4].0));
    assert(ks[1].0[0] != ks[4].0[0]);
    assert(apart_from_first(ks, 2, ks[4].0));
    assert(ks[2].0[1] != ks[4].0[1]);
    assert(apart_from_first(ks, 3, ks[4].0));
    assert(ks[3].0[1] != ks[4].0[1]);
    assert(apart_from_first(ks, 4, ks[4].0));
    assert(command_layers(CommandId::ToggleGithubNotificationFilterPopupVisibilityPrivate)[0] == Layer::GithubNotificationFilterPopup);
    assert(command_allows_layer(ks[4].1, Layer::GithubNotificationFilterPopup));
    assert(separated(Layer::GithubNotificationFilterPopup, ks, 5));
    assert(apart_from_first(ks, 0, ks[5].0));
    assert(ks[0].0[0] != ks[5].0[0]);
    assert(apart_from_first(ks, 1, ks[5].0));
    assert(ks[1].0[0] != ks[5].0[0]);
    assert(apart_from_first(ks, 2, ks[5].0));
    assert(ks[2].0[0] != ks[5].0[0]);
    assert(apart_from_first(ks, 3, ks[5].0));
    assert(ks[3].0[0] != ks[5].0[0]);
    assert(apart_from_first(ks, 4, ks[5].0));
    assert(ks[4].0[0] != ks[5].0[0]);
    assert(apart_from_first(ks, 5, ks[5].0));
    assert(command_layers(CommandId::ToggleGithubNotificationFilterPopupPullRequestOpen)[0] == Layer::GithubNotificationFilterPopup);
    assert(command_allows_layer(ks[5].1, Layer::GithubNotificationFilterPopup));
    assert(separated(Layer::GithubNotificationFilterPopup, ks, 6));
    assert(apart_from_first(ks, 0, ks[6].0));
    assert(ks[0].0[0] != ks[6].0[0]);
    assert(apart_from_first(ks, 1, ks[6].0));
    assert(ks[1].0[0] != ks[6].0[0]);
    assert(apart_from_first(ks, 2, ks[6].0));
    assert(ks[2].0[0] != ks[6].0[0]);
    assert(apart_from_first(ks, 3, ks[6].0));
    assert(ks[3].0[0] != ks[6].0[0]);
    assert(apart_from_first(ks, 4, ks[6].0));
    assert(ks[4].0[0] != ks[6].0[0]);
    assert(apart_from_first(ks, 5, ks[6].0));
    assert(ks[5].0[0] != ks[6].0[0]);
    assert(apart_from_first(ks, 6, ks[6].0));
    assert(command_layers(CommandId::ToggleGithubNotificationFilterPopupReasonMentioned)[0] == Layer::GithubNotificationFilterPopup);
    assert(command_allows_layer(ks[6].1, Layer::GithubNotificationFilterPopup));
    assert(separated(Layer::GithubNotificationFilterPopup, ks, 7));
    assert(apart_from_first(ks, 0, ks[7].0));
    assert(ks[0].0[0] != ks[7].0[0]);
    assert(apart_from_first(ks, 1, ks[7].0));
    assert(ks[1].0[0] != ks[7].0[0]);
    assert(apart_from_first(ks, 2, ks[7].0));
    assert(ks[2].0[0] != ks[7].0[0]);
    assert(apart_from_first(ks, 3, ks[7].0));
    assert(ks[3].0[0] != ks[7].0[0]);
    assert(apart_from_first(ks, 4, ks[7].0));
    assert(ks[4].0[0] != ks[7].0[0]);
    assert(apart_from_first(ks, 5, ks[7].0));
    assert(ks[5].0[0] != ks[7].0[0]);
    assert(apart_from_first(ks, 6, ks[7].0));
    assert(ks[6].0[1] != ks[7].0[1]);
    assert(apart_from_first(ks, 7, ks[7].0));
    assert(command_layers(CommandId::ToggleGithubNotificationFilterPopupPullRequestMerged)[0] == Layer::GithubNotificationFilterPopup);
    assert(command_allows_layer(ks[7].1, Layer::GithubNotificationFilterPopup));
    assert(separated(Layer::GithubNotificationFilterPopup, ks, 8));
    assert(apart_from_first(ks, 0, ks[8].0));
    assert(ks[0].0[0] != ks[8].0[0]);
    assert(apart_from_first(ks, 1, ks[8].0));
    assert(ks[1].0[0] != ks[8].0[0]);
    assert(apart_from_first(ks, 2, ks[8].0));
    assert(ks[2].0[0] != ks[8].0[0]);
    assert(apart_from_first(ks, 3, ks[8].0));
    assert(ks[3].0[0] != ks[8].0[0]);
    assert(apart_from_first(ks, 4, ks[8].0));
    assert(ks[4].0[0] != ks[8].0[0]);
    assert(apart_from_first(ks, 5, ks[8].0));
    assert(ks[5].0[0] != ks[8].0[0]);
    assert(apart_from_first(ks, 6, ks[8].0));
    assert(ks[6].0[0] != ks[8].0[0]);
    assert(apart_from_first(ks, 7, ks[8].0));
    assert(ks[7].0[0] != ks[8].0[0]);
    assert(apart_from_first(ks, 8, ks[8].0));
    assert(command_layers(CommandId::ToggleGithubNotificationFilterPopupReasonReviewRequested)[0] == Layer::GithubNotificationFilterPopup);
    assert(command_allows_layer(ks[8].1, Layer::GithubNotificationFilterPopup));
    assert(separated(Layer::GithubNotificationFilterPopup, ks, 9));
    assert(apart_from_first(ks, 0, ks[9].0));
    assert(ks[0].0[0] != ks[9].0[0]);
    assert(apart_from_first(ks, 1, ks[9].0));
    assert(ks[1].0[0] != ks[9].0[0]);
    assert(apart_from_first(ks, 2, ks[9].0));
    assert(ks[2].0[0] != ks[9].0[0]);
    assert(apart_from_first(ks, 3, ks[9].0));
    assert(ks[3].0[0] != ks[9].0[0]);
    assert(apart_from_first(ks, 4, ks[9].0));
    assert(ks[4].0[0] != ks[9].0[0]);
    assert(apart_from_first(ks, 5, ks[9].0));
    assert(ks[5].0[0] != ks[9].0[0]);
    assert(apart_from_first(ks, 6, ks[9].0));
    assert(ks[6].0[0] != ks[9].0[0]);
    assert(apart_from_first(ks, 7, ks[9].0));
    assert(ks[7].0[0] != ks[9].0[0]);
    assert(apart_from_first(ks, 8, ks[9].0));
    assert(ks[8].0[0] != ks[9].0[0]);
    assert(apart_from_first(ks, 9, ks[9].0));
    assert(command_layers(CommandId::CloseGithubNotificationFilterPopup)[0] == Layer::GithubNotificationFilterPopup);
    assert(command_allows_layer(ks[9].1, Layer::GithubNotificationFilterPopup));
    assert(separated(Layer::GithubNotificationFilterPopup, ks, 10));
    assert(apart_from_first(ks, 0, ks[10].0));
    assert(ks[0].0[0] != ks[10].0[0]);
    assert(apart_from_first(ks, 1, ks[10].0));
    assert(ks[1].0[0] != ks[10].0[0]);
    assert(apart_from_first(ks, 2, ks[10].0));
    assert(ks[2].0[0] != ks[10].0[0]);
    assert(apart_from_first(ks, 3, ks[10].0));
    assert(ks[3].0[0] != ks[10].0[0]);
    assert(apart_from_first(ks, 4, ks[10].0));
    assert(ks[4].0[0] != ks[10].0[0]);
    assert(apart_from_first(ks, 5, ks[10].0));
    assert(ks[5].0[0] != ks[10].0[0]);
    assert(apart_from_first(ks, 6, ks[10].0));
    assert(ks[6].0[0] != ks[10].0[0]);
    assert(apart_from_first(ks, 7, ks[10].0));
    assert(ks[7].0[0] != ks[10].0[0]);
    assert(apart_from_first(ks, 8, ks[10].0));
    assert(ks[8].0[0] != ks[10].0[0]);
    assert(apart_from_first(ks, 9, ks[10].0));
    assert(ks[9].0[0] != ks[10].0[0]);
    assert(apart_from_first(ks, 10, ks[10].0));
    assert(command_layers(CommandId::CloseGithubNotificationFilterPopup)[0] == Layer::GithubNotificationFilterPopup);
    assert(command_allows_layer(ks[10].1, Layer::GithubNotificationFilterPopup));
    assert(separated(Layer::GithubNotificationFilterPopup, ks, 11));
}

} // verus!
