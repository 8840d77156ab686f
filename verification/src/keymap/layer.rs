use vstd::prelude::*;

use crate::keymap::error::KeymapError;
use crate::strings::str_eq;

verus! {

/// Number of keymap layers.
pub const LAYER_COUNT: usize = 12;

/// Scope in which key bindings are active and prioritized.
#[derive(Clone, Copy, Debug, PartialEq, Eq, Hash, Structural)]
pub enum Layer {
    App,
    Global,
    Login,
    Tabs,
    Entries,
    Feeds,
    Filter,
    CategoryFilter,
    SearchPrompt,
    UnsubscribePopup,
    GithubNotifications,
    GithubNotificationFilterPopup,
}

/// The configuration name of a layer.
pub open spec fn layer_name(layer: Layer) -> Seq<char> {
    match layer {
        Layer::App => "app"@,
        Layer::Global => "global"@,
        Layer::Login => "login"@,
        Layer::Tabs => "tabs"@,
        Layer::Entries => "entries"@,
        Layer::Feeds => "feeds"@,
        Layer::Filter => "filter"@,
        Layer::CategoryFilter => "category-filter"@,
        Layer::SearchPrompt => "search-prompt"@,
        Layer::UnsubscribePopup => "unsubscribe-popup"@,
        Layer::GithubNotifications => "github-notifications"@,
        Layer::GithubNotificationFilterPopup => "github-notification-filter-popup"@,
    }
}

/// The position of a layer in declaration order.
pub open spec fn layer_ordinal(layer: Layer) -> nat {
    match layer {
        Layer::App => 0,
        Layer::Global => 1,
        Layer::Login => 2,
        Layer::Tabs => 3,
        Layer::Entries => 4,
        Layer::Feeds => 5,
        Layer::Filter => 6,
        Layer::CategoryFilter => 7,
        Layer::SearchPrompt => 8,
        Layer::UnsubscribePopup => 9,
        Layer::GithubNotifications => 10,
        Layer::GithubNotificationFilterPopup => 11,
    }
}

/// The layer at a position in declaration order.
pub open spec fn layer_at(i: int) -> Layer {
    if i == 0 { Layer::App }
    else if i == 1 { Layer::Global }
    else if i == 2 { Layer::Login }
    else if i == 3 { Layer::Tabs }
    else if i == 4 { Layer::Entries }
    else if i == 5 { Layer::Feeds }
    else if i == 6 { Layer::Filter }
    else if i == 7 { Layer::CategoryFilter }
    else if i == 8 { Layer::SearchPrompt }
    else if i == 9 { Layer::UnsubscribePopup }
    else if i == 10 { Layer::GithubNotifications }
    else { Layer::GithubNotificationFilterPopup }
}

/// The layer a configuration name denotes, if any.
pub open spec fn layer_named(name: Seq<char>) -> Option<Layer> {
    if name == layer_name(Layer::App) { Some(Layer::App) }
    else if name == layer_name(Layer::Global) { Some(Layer::Global) }
    else if name == layer_name(Layer::Login) { Some(Layer::Login) }
    else if name == layer_name(Layer::Tabs) { Some(Layer::Tabs) }
    else if name == layer_name(Layer::Entries) { Some(Layer::Entries) }
    else if name == layer_name(Layer::Feeds) { Some(Layer::Feeds) }
    else if name == layer_name(Layer::Filter) { Some(Layer::Filter) }
    else if name == layer_name(Layer::CategoryFilter) { Some(Layer::CategoryFilter) }
    else if name == layer_name(Layer::SearchPrompt) { Some(Layer::SearchPrompt) }
    else if name == layer_name(Layer::UnsubscribePopup) { Some(Layer::UnsubscribePopup) }
    else if name == layer_name(Layer::GithubNotifications) { Some(Layer::GithubNotifications) }
    else if name == layer_name(Layer::GithubNotificationFilterPopup) {
        Some(Layer::GithubNotificationFilterPopup)
    } else { None }
}

impl Layer {
    /// The configuration name of this layer.
    pub fn as_str(self) -> (s: &'static str)
        ensures
            s@ == layer_name(self),
    {
        match self {
            Layer::App => "app",
            Layer::Global => "global",
            Layer::Login => "login",
            Layer::Tabs => "tabs",
            Layer::Entries => "entries",
            Layer::Feeds => "feeds",
            Layer::Filter => "filter",
            Layer::CategoryFilter => "category-filter",
            Layer::SearchPrompt => "search-prompt",
            Layer::UnsubscribePopup => "unsubscribe-popup",
            Layer::GithubNotifications => "github-notifications",
            Layer::GithubNotificationFilterPopup => "github-notification-filter-popup",
        }
    }

    /// The position of this layer in declaration order.
    pub fn ordinal(self) -> (i: usize)
        ensures
            i == layer_ordinal(self),
            i < LAYER_COUNT,
    {
        match self {
            Layer::App => 0,
            Layer::Global => 1,
            Layer::Login => 2,
            Layer::Tabs => 3,
            Layer::Entries => 4,
            Layer::Feeds => 5,
            Layer::Filter => 6,
            Layer::CategoryFilter => 7,
            Layer::SearchPrompt => 8,
            Layer::UnsubscribePopup => 9,
            Layer::GithubNotifications => 10,
            Layer::GithubNotificationFilterPopup => 11,
        }
    }

    /// The layer at position `i` in declaration order.
    pub fn from_ordinal(i: usize) -> (layer: Layer)
        requires
            i < LAYER_COUNT,
        ensures
            layer == layer_at(i as int),
            layer_ordinal(layer) == i,
    {
        if i == 0 { Layer::App }
        else if i == 1 { Layer::Global }
        else if i == 2 { Layer::Login }
        else if i == 3 { Layer::Tabs }
        else if i == 4 { Layer::Entries }
        else if i == 5 { Layer::Feeds }
        else if i == 6 { Layer::Filter }
        else if i == 7 { Layer::CategoryFilter }
        else if i == 8 { Layer::SearchPrompt }
        else if i == 9 { Layer::UnsubscribePopup }
        else if i == 10 { Layer::GithubNotifications }
        else { Layer::GithubNotificationFilterPopup }
    }

    /// Parses a layer from its configuration name.
    pub fn parse(value: &str) -> (r: Result<Layer, KeymapError>)
        ensures
            match layer_named(value@) {
                Some(layer) => r == Ok::<Layer, KeymapError>(layer),
                None => r matches Err(KeymapError::UnknownLayer(name)) && name@ == value@,
            },
    {
        if str_eq(value, "app") { Ok(Layer::App) }
        else if str_eq(value, "global") { Ok(Layer::Global) }
        else if str_eq(value, "login") { Ok(Layer::Login) }
        else if str_eq(value, "tabs") { Ok(Layer::Tabs) }
        else if str_eq(value, "entries") { Ok(Layer::Entries) }
        else if str_eq(value, "feeds") { Ok(Layer::Feeds) }
        else if str_eq(value, "filter") { Ok(Layer::Filter) }
        else if str_eq(value, "category-filter") { Ok(Layer::CategoryFilter) }
        else if str_eq(value, "search-prompt") { Ok(Layer::SearchPrompt) }
        else if str_eq(value, "unsubscribe-popup") { Ok(Layer::UnsubscribePopup) }
        else if str_eq(value, "github-notifications") { Ok(Layer::GithubNotifications) }
        else if str_eq(value, "github-notification-filter-popup") {
            Ok(Layer::GithubNotificationFilterPopup)
        } else {
            Err(KeymapError::UnknownLayer(value.to_string()))
        }
    }
}

/// Layer names are pairwise distinct.
pub proof fn lemma_layer_names_distinct(a: Layer, b: Layer)
    requires
        a != b,
    ensures
        layer_name(a) != layer_name(b),
{
    reveal_strlit("app");
    reveal_strlit("global");
    reveal_strlit("login");
    reveal_strlit("tabs");
    reveal_strlit("entries");
    reveal_strlit("feeds");
    reveal_strlit("filter");
    reveal_strlit("category-filter");
    reveal_strlit("search-prompt");
    reveal_strlit("unsubscribe-popup");
    reveal_strlit("github-notifications");
    reveal_strlit("github-notification-filter-popup");
    if layer_name(a) == layer_name(b) {
        assert(layer_name(a).len() == layer_name(b).len());
        assert(layer_name(a)[0] == layer_name(b)[0]);
        assert(layer_name(a)[1] == layer_name(b)[1]);
    }
}

/// Parsing the configuration name of a layer gives that layer back.
pub proof fn lemma_layer_name_roundtrip(layer: Layer)
    ensures
        layer_named(layer_name(layer)) == Some(layer),
{
    assert forall|other: Layer| other != layer implies layer_name(other) != layer_name(layer) by {
        lemma_layer_names_distinct(other, layer);
    }
}

} // verus!
