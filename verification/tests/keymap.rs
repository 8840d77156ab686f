use synd_term::command::{Command, Direction, FeedsCommand, FilterLane, ShellCommand};
use synd_term::keymap::action::{FilterAction, KeymapAction, PromptAction};
use synd_term::keymap::command::{CommandId, CommandRegistry};
use synd_term::keymap::compiled::CompiledKeymaps;
use synd_term::keymap::config::KeymapConfig;
use synd_term::keymap::defaults::default_keymap_config;
use synd_term::keymap::error::KeymapError;
use synd_term::keymap::key::{KeyCode, KeyModifiers, KeySequence, KeyStroke, MediaKey, ModifierKey};
use synd_term::keymap::layer::Layer;
use synd_term::keymap::resolver::{KeyResolver, Keymap, KeymapResult, LayerStack};
use synd_term::keymap::runtime::{KeymapRuntime, LayerKeymap};
use synd_term::keymap::trie::TrieSearch;
use synd_term::types::Category;

fn key(notation: &str) -> KeyStroke {
    KeyStroke::parse(notation).expect("valid key notation")
}

fn result_to_command(result: &KeymapResult) -> Option<Command> {
    match result {
        KeymapResult::Matched(action) => action.build_command(),
        KeymapResult::NoOp => None,
        KeymapResult::Pending { .. } | KeymapResult::NotFound | KeymapResult::Cancelled { .. } => None,
    }
}

fn matched_action(result: &KeymapResult) -> Option<&KeymapAction> {
    match result {
        KeymapResult::Matched(action) => Some(action),
        _ => None,
    }
}

#[test]
fn tests_command_registry_resolves_canonical_alias_and_typable_names() {
    let registry = CommandRegistry;

    assert_eq!(registry.command_id("entries.reload").unwrap(), CommandId::ReloadEntries);
    assert_eq!(registry.command_id("reload_entries").unwrap(), CommandId::ReloadEntries);
    assert_eq!(registry.command_id(":reload-entries").unwrap(), CommandId::ReloadEntries);
}

#[test]
fn every_command_name_resolves_back_to_its_command() {
    let registry = CommandRegistry;
    for i in 0..synd_term::keymap::command::COMMAND_COUNT {
        let id = CommandId::from_index(i);
        assert_eq!(registry.command_id(id.as_str()).unwrap(), id);
        let spec = registry.spec(id);
        for alias in &spec.aliases {
            assert_eq!(registry.command_id(alias).unwrap(), id);
        }
        if let Some(typable) = spec.typable {
            assert_eq!(registry.command_id(typable).unwrap(), id);
        }
    }
}

#[test]
fn tests_default_keymap_matches_single_key_binding() {
    let keymaps = KeymapRuntime::default_keymaps();
    let layers = LayerStack::new(&[Layer::App, Layer::Global, Layer::Entries]);
    let mut resolver = KeyResolver::new();

    let result = resolver.resolve(&keymaps, &layers, key("j"));

    assert_eq!(matched_action(&result), Some(&KeymapAction::Command(CommandId::MoveEntryNext)));
    assert!(matches!(
        result_to_command(&result),
        Some(Command::Feeds(FeedsCommand::MoveEntry(Direction::Down)))
    ));
}

#[test]
fn tests_resolver_keeps_sequence_on_highest_priority_first_key_layer() {
    let keymaps = KeymapRuntime::default_keymaps();
    let layers = LayerStack::new(&[Layer::Feeds, Layer::Entries]);
    let mut resolver = KeyResolver::new();

    assert!(matches!(resolver.resolve(&keymaps, &layers, key("g")), KeymapResult::Pending { .. }));
    let result = resolver.resolve(&keymaps, &layers, key("e"));

    assert_eq!(matched_action(&result), Some(&KeymapAction::Command(CommandId::MoveEntryLast)));
}

#[test]
fn tests_user_override_can_disable_default_binding_with_no_op() {
    let mut config = default_keymap_config();
    let mut user = KeymapConfig::new();
    user.add(Layer::Entries, &["j"], CommandId::NoOp, None).unwrap();
    config.merge(user);

    let keymaps = KeymapRuntime::new(CompiledKeymaps::compile(config, &CommandRegistry).unwrap());
    let layers = LayerStack::new(&[Layer::Entries]);
    let mut resolver = KeyResolver::new();

    let result = resolver.resolve(&keymaps, &layers, key("j"));

    assert!(matches!(result, KeymapResult::NoOp));

    let mut config = default_keymap_config();
    let mut user = KeymapConfig::new();
    user.add(Layer::Entries, &["j"], CommandId::NoOp, None).unwrap();
    config.merge(user);

    let mut keymap = Keymap::new(CompiledKeymaps::compile(config, &CommandRegistry).unwrap());
    let layers = LayerStack::new(&[Layer::Entries]);

    let result = keymap.resolve(&layers, key("j"));

    assert_eq!(matched_action(&result), Some(&KeymapAction::Command(CommandId::NoOp)));
    assert!(matches!(matched_action(&result).map(KeymapAction::command), Some(Command::Nop)));
    assert_eq!(Command::from(CommandId::NoOp), Command::Nop);
    assert_eq!(CommandRegistry.command_id("nop").unwrap(), CommandId::NoOp);
}

/// Builds a user configuration from TOML text the way a configuration file is read.
fn user_config_from_toml(text: &str) -> Result<KeymapConfig, KeymapError> {
    let value: toml::Value = toml::from_str(text).unwrap();
    let mut config = KeymapConfig::new();
    for (layer, layer_config) in value.as_table().unwrap() {
        for entry in layer_config.get("keymap").and_then(|k| k.as_array()).cloned().unwrap_or_default() {
            let on: Vec<String> = match entry.get("on").unwrap() {
                toml::Value::String(s) => vec![s.clone()],
                toml::Value::Array(keys) => keys.iter().map(|k| k.as_str().unwrap().to_owned()).collect(),
                other => panic!("unexpected key sequence {other:?}"),
            };
            let on: Vec<&str> = on.iter().map(String::as_str).collect();
            let command = entry.get("command").unwrap().as_str().unwrap();
            let desc = entry.get("desc").map(|d| d.as_str().unwrap());
            config.bind_named(layer, &on, command, desc)?;
        }
    }
    Ok(config)
}

#[test]
fn tests_user_facing_config_deserializes_and_merges_with_default_keymaps() {
    let user = user_config_from_toml(
        r#"
[entries]
keymap = [
  { on = "j", command = "entries.next", desc = "Next entry" },
  { on = ["g", "g"], command = "entries.first", desc = "Go to first entry" },
  { on = "up", command = "no_op" },
]
"#,
    )
    .unwrap();
    let keymaps = KeymapRuntime::new(CompiledKeymaps::default_with_user_config(user).unwrap());
    let layers = LayerStack::new(&[Layer::Entries]);
    let mut resolver = KeyResolver::new();

    let result = resolver.resolve(&keymaps, &layers, key("up"));

    assert!(matches!(result, KeymapResult::NoOp));

    let result = resolver.resolve(&keymaps, &layers, key("g"));
    assert!(matches!(result, KeymapResult::Pending { .. }));

    let result = resolver.resolve(&keymaps, &layers, key("g"));
    assert_eq!(matched_action(&result), Some(&KeymapAction::Command(CommandId::MoveEntryFirst)));
}

#[test]
fn tests_user_facing_config_rejects_command_in_wrong_layer() {
    let user = user_config_from_toml(
        r#"
[feeds]
keymap = [
  { on = "j", command = "entries.next" },
]
"#,
    )
    .unwrap();

    assert!(matches!(
        CompiledKeymaps::default_with_user_config(user),
        Err(KeymapError::CommandNotAllowed { layer: Layer::Feeds, command: CommandId::MoveEntryNext })
    ));
}

#[test]
fn tests_app_layer_can_override_global_layer() {
    let keymaps = KeymapRuntime::default_keymaps();
    let layers = LayerStack::new(&[Layer::Global, Layer::App]);
    let mut resolver = KeyResolver::new();

    let result = resolver.resolve(&keymaps, &layers, key("C-c"));

    assert!(matches!(result_to_command(&result), Some(Command::Shell(ShellCommand::Quit))));
}

#[test]
fn tests_search_prompt_layer_turns_text_input_into_actions() {
    let mut keymaps = KeymapRuntime::default_keymaps();
    keymaps.set_layer_keymap(LayerKeymap::search_prompt());
    let layers = LayerStack::new(&[Layer::App, Layer::Filter, Layer::SearchPrompt]);
    let mut resolver = KeyResolver::new();

    let result = resolver.resolve(&keymaps, &layers, key("a"));

    assert_eq!(matched_action(&result), Some(&KeymapAction::Prompt(PromptAction::InsertChar('a'))));

    let result = resolver.resolve(&keymaps, &layers, key("esc"));

    assert_eq!(matched_action(&result), Some(&KeymapAction::Command(CommandId::DeactivateFiltering)));

    let result = resolver.resolve(&keymaps, &layers, key("C-c"));

    assert_eq!(matched_action(&result), Some(&KeymapAction::Command(CommandId::Quit)));
}

#[test]
fn tests_dynamic_category_filter_layer_resolves_runtime_category_actions() {
    let rust = Category::new("rust");
    let mut category = LayerKeymap::builder(Layer::CategoryFilter);
    category
        .bind_key(
            KeyStroke::from_char('r'),
            KeymapAction::Filter(FilterAction::ToggleCategory { lane: FilterLane::Feed, category: rust.clone() }),
            Some("Toggle rust category".to_owned()),
        )
        .unwrap();

    let mut keymaps = KeymapRuntime::default_keymaps();
    keymaps.set_layer_keymap(category.build().unwrap());
    let layers = LayerStack::new(&[Layer::Filter, Layer::CategoryFilter]);
    let mut resolver = KeyResolver::new();

    let result = resolver.resolve(&keymaps, &layers, key("r"));

    assert_eq!(
        matched_action(&result),
        Some(&KeymapAction::Filter(FilterAction::ToggleCategory { lane: FilterLane::Feed, category: rust }))
    );
}

#[test]
fn keymap_drops_pending_keys_when_layers_change() {
    let mut keymap = Keymap::default_keymaps();
    let entries = LayerStack::new(&[Layer::Entries]);
    let feeds = LayerStack::new(&[Layer::Feeds]);

    assert!(matches!(keymap.resolve(&entries, key("g")), KeymapResult::Pending { .. }));
    // The stack changed: the pending `g` is dropped and `e` is a first key in Feeds.
    let result = keymap.resolve(&feeds, key("e"));
    assert_eq!(matched_action(&result), Some(&KeymapAction::Command(CommandId::PromptFeedEdition)));
}

#[test]
fn keymap_completes_sequence_in_same_layers() {
    let mut keymap = Keymap::default_keymaps();
    let entries = LayerStack::new(&[Layer::Entries]);

    match keymap.resolve(&entries, key("g")) {
        KeymapResult::Pending { keys, candidates } => {
            assert_eq!(keys, vec![key("g")]);
            let mut next: Vec<KeyStroke> = candidates.iter().map(|c| c.key).collect();
            next.sort_by_key(|k| k.to_notation());
            assert_eq!(next, vec![key("e"), key("g")]);
            assert!(candidates.iter().all(|c| c.action.is_some()));
        }
        other => panic!("expected pending, got {other:?}"),
    }
    let result = keymap.resolve(&entries, key("g"));
    assert_eq!(matched_action(&result), Some(&KeymapAction::Command(CommandId::MoveEntryFirst)));
}

#[test]
fn resolver_cancels_unknown_continuation() {
    let keymaps = KeymapRuntime::default_keymaps();
    let layers = LayerStack::new(&[Layer::Entries]);
    let mut resolver = KeyResolver::new();

    assert!(matches!(resolver.resolve(&keymaps, &layers, key("g")), KeymapResult::Pending { .. }));
    let result = resolver.resolve(&keymaps, &layers, key("x"));
    assert_eq!(result, KeymapResult::Cancelled { keys: vec![key("g"), key("x")] });
    assert!(resolver.pending().is_empty());
}

#[test]
fn resolver_reports_unbound_first_key() {
    let keymaps = KeymapRuntime::default_keymaps();
    let layers = LayerStack::new(&[Layer::Entries]);
    let mut resolver = KeyResolver::new();

    assert_eq!(resolver.resolve(&keymaps, &layers, key("z")), KeymapResult::NotFound);
    assert!(resolver.pending().is_empty());
}

#[test]
fn default_bindings_use_key_notation_strokes() {
    assert_eq!(key("C-c"), KeyStroke::new(KeyCode::Char('c'), KeyModifiers { control: true, ..KeyModifiers::none() }));
    assert_eq!(key("space"), KeyStroke::from_char(' '));
    let config = default_keymap_config();
    let app = config.bindings(Layer::App);
    assert_eq!(app.len(), 2);
    assert_eq!(app[0].on.as_slice(), &[key("C-c")]);
    assert_eq!(app[0].command, CommandId::Quit);
    assert_eq!(app[0].desc.as_deref(), Some("Quit app"));
    assert_eq!(app[1].on.as_slice(), &[key("S-r")]);
    assert_eq!(app[1].command, CommandId::ForceRedraw);
}

#[test]
fn compile_refuses_duplicate_and_ambiguous_bindings() {
    let mut config = KeymapConfig::new();
    config.add(Layer::Entries, &["j"], CommandId::MoveEntryNext, None).unwrap();
    config.add(Layer::Entries, &["j"], CommandId::MoveEntryPrev, None).unwrap();
    match CompiledKeymaps::compile(config, &CommandRegistry) {
        Err(KeymapError::DuplicateBinding { layer, keys }) => {
            assert_eq!(layer, Layer::Entries);
            assert_eq!(keys.as_slice(), &[key("j")]);
        }
        other => panic!("expected duplicate, got {other:?}"),
    }

    let mut config = KeymapConfig::new();
    config.add(Layer::Entries, &["g"], CommandId::MoveEntryNext, None).unwrap();
    config.add(Layer::Entries, &["g", "g"], CommandId::MoveEntryFirst, None).unwrap();
    match CompiledKeymaps::compile(config, &CommandRegistry) {
        Err(KeymapError::AmbiguousBinding { keys }) => assert_eq!(keys.as_slice(), &[key("g"), key("g")]),
        other => panic!("expected ambiguous, got {other:?}"),
    }

    let mut config = KeymapConfig::new();
    config.add(Layer::Entries, &["g", "g"], CommandId::MoveEntryFirst, None).unwrap();
    config.add(Layer::Entries, &["g"], CommandId::MoveEntryNext, None).unwrap();
    match CompiledKeymaps::compile(config, &CommandRegistry) {
        Err(KeymapError::AmbiguousBinding { keys }) => assert_eq!(keys.as_slice(), &[key("g")]),
        other => panic!("expected ambiguous, got {other:?}"),
    }
}

#[test]
fn compiled_search_finds_bindings_and_candidates() {
    let keymaps = CompiledKeymaps::default_keymaps();
    match keymaps.search(Layer::Entries, &[key("j")]) {
        TrieSearch::Matched(b) => {
            assert_eq!(b.action, KeymapAction::Command(CommandId::MoveEntryNext));
            assert_eq!(b.desc.as_deref(), Some("Next entry"));
        }
        _ => panic!("expected a match"),
    }
    assert!(matches!(keymaps.search(Layer::Entries, &[]), TrieSearch::NotFound));
    assert!(matches!(keymaps.search(Layer::CategoryFilter, &[key("j")]), TrieSearch::NotFound));
    match keymaps.search(Layer::GithubNotificationFilterPopup, &[key("p")]) {
        TrieSearch::Pending(c) => assert_eq!(c.len(), 3),
        _ => panic!("expected pending"),
    }
}

#[test]
fn merge_replaces_binding_on_same_keys_and_appends_others() {
    let mut config = KeymapConfig::new();
    config.add(Layer::Entries, &["j"], CommandId::MoveEntryNext, Some("a")).unwrap();
    let mut user = KeymapConfig::new();
    user.add(Layer::Entries, &["j"], CommandId::NoOp, None).unwrap();
    user.add(Layer::Entries, &["x"], CommandId::OpenEntry, None).unwrap();
    config.merge(user);
    let entries = config.bindings(Layer::Entries);
    assert_eq!(entries.len(), 2);
    assert_eq!(entries[0].command, CommandId::NoOp);
    assert_eq!(entries[0].desc, None);
    assert_eq!(entries[1].command, CommandId::OpenEntry);
}

#[test]
fn key_notation_round_trips() {
    for notation in ["C-c", "S-t", "A-enter", "space", "f5", "backtab", "C-A-x", "/"] {
        assert_eq!(key(notation).to_notation(), notation);
    }
    assert!(matches!(KeyStroke::parse("nope"), Err(KeymapError::InvalidKeyNotation(_, _))));
    assert!(matches!(KeySequence::parse(&[]), Err(KeymapError::EmptyKeySequence)));
    assert_eq!(KeySequence::parse(&["g", "e"]).unwrap().to_notation(), "g e");
}

#[test]
fn layer_names_round_trip() {
    assert_eq!(Layer::parse("github-notification-filter-popup").unwrap(), Layer::GithubNotificationFilterPopup);
    assert_eq!(Layer::CategoryFilter.as_str(), "category-filter");
    assert!(matches!(Layer::parse("nope"), Err(KeymapError::UnknownLayer(name)) if name == "nope"));
}

#[test]
fn layer_keymap_builder_refuses_duplicates() {
    let mut builder = LayerKeymap::builder(Layer::CategoryFilter);
    builder.bind(&["r"], KeymapAction::NoOp, None).unwrap();
    assert!(matches!(
        builder.bind(&["r"], KeymapAction::NoOp, None),
        Err(KeymapError::DuplicateBinding { layer: Layer::CategoryFilter, .. })
    ));
}

#[test]
fn keymap_result_from_command() {
    assert_eq!(KeymapResult::from_command(CommandId::NoOp), KeymapResult::NoOp);
    assert_eq!(KeymapResult::from_command(CommandId::Quit), KeymapResult::Matched(KeymapAction::Command(CommandId::Quit)));
}

#[test]
fn layer_stack_lists_highest_priority_first() {
    let layers = LayerStack::new(&[Layer::App, Layer::Global, Layer::Entries]);
    assert_eq!(layers.iter_high_to_low(), vec![Layer::Entries, Layer::Global, Layer::App]);
    assert!(LayerStack::empty().iter_high_to_low().is_empty());
}

#[test]
fn layer_stack_holds_eight_layers() {
    let layers = [Layer::App; 8];
    let stack = LayerStack::new(&layers);
    assert_eq!(stack.as_slice().len(), 8);
}

#[test]
fn media_and_modifier_keys_print_by_name() {
    let media = KeyStroke::new(KeyCode::Media(MediaKey::Play), KeyModifiers::none());
    assert_eq!(media.to_notation(), "Media(Play)");
    let modifier = KeyStroke::new(KeyCode::Modifier(ModifierKey::LeftShift), KeyModifiers::none());
    assert_eq!(modifier.to_notation(), "Modifier(LeftShift)");
}

#[test]
fn compile_refuses_commands_outside_their_layer() {
    let mut config = KeymapConfig::new();
    config.add(Layer::Feeds, &["j"], CommandId::MoveEntryNext, None).unwrap();
    assert!(matches!(
        CompiledKeymaps::compile(config, &CommandRegistry),
        Err(KeymapError::CommandNotAllowed { layer: Layer::Feeds, command: CommandId::MoveEntryNext })
    ));
}

#[test]
fn key_sequence_reports_first_invalid_notation() {
    match KeySequence::parse(&["j", "bogus", "also-bad"]) {
        Err(KeymapError::InvalidKeyNotation(value, _)) => assert_eq!(value, "bogus"),
        other => panic!("expected an invalid notation, got {other:?}"),
    }
}
