use vstd::prelude::*;

use crate::keymap::action::{KeymapAction, PromptAction};
use crate::keymap::compiled::{binding_entry, CompiledKeymaps};
use crate::keymap::config::BindingView;
use crate::keymap::defaults::default_bindings;
use crate::keymap::error::KeymapError;
use crate::keymap::key::{str_view, text_view, no_modifiers, notation_key, stroke_char, KeyCode, KeyModifiers, KeySequence, KeyStroke};
use crate::keymap::layer::{layer_at, layer_ordinal, Layer, LAYER_COUNT};
use crate::keymap::trie::{
    entry_position, has_continuation, search_outcome, shorter_conflict, table_insert, table_wf, CompiledBinding, EntryView, KeyTrie,
    TrieSearch,
};
use crate::keymap::trie::{clone_desc, copy_strokes};

verus! {

/// Whether a layer that turns typed characters into input (`chars`) takes `keys` as one typed character.
pub open spec fn types_char(chars: bool, keys: Seq<KeyStroke>) -> bool {
    chars && keys.len() == 1 && stroke_char(keys[0]) is Some
}

/// What looking up `keys` gives in a layer with table `t` that turns typed characters
/// into input when `chars` holds: a typed character is inserted into the prompt, any
/// other keys are looked up in the table.
pub open spec fn layer_outcome(t: Seq<EntryView>, chars: bool, keys: Seq<KeyStroke>, r: TrieSearch) -> bool {
    if types_char(chars, keys) {
        match r {
            TrieSearch::Matched(b) => b.action == KeymapAction::Prompt(PromptAction::InsertChar(stroke_char(keys[0])->0))
                && match b.desc {
                Some(d) => d@ == "Insert character"@,
                None => false,
            },
            _ => false,
        }
    } else {
        search_outcome(t, keys, r)
    }
}

/// Whether looking up `keys` in such a layer finds a binding or the beginning of one.
pub open spec fn layer_hits(t: Seq<EntryView>, chars: bool, keys: Seq<KeyStroke>) -> bool {
    types_char(chars, keys) || (keys.len() > 0 && (entry_position(t, keys) is Some || has_continuation(t, keys)))
}

/// Whether looking up `keys` in such a layer finds only the beginning of longer bindings.
pub open spec fn layer_pends(t: Seq<EntryView>, chars: bool, keys: Seq<KeyStroke>) -> bool {
    !types_char(chars, keys) && keys.len() > 0 && entry_position(t, keys) is None && has_continuation(t, keys)
}

/// The kind of outcome of a lookup follows from the table alone.
pub proof fn lemma_outcome_kind(t: Seq<EntryView>, chars: bool, keys: Seq<KeyStroke>, r: TrieSearch)
    requires
        layer_outcome(t, chars, keys, r),
    ensures
        r is NotFound <==> !layer_hits(t, chars, keys),
        r is Pending <==> layer_pends(t, chars, keys),
{
}

/// Whether there is at least one notation and each denotes a key stroke.
pub open spec fn valid_notations(keys: Seq<&str>) -> bool {
    keys.len() > 0 && forall|i: int| 0 <= i < keys.len() ==> notation_key(#[trigger] keys[i]@) is Some
}

/// The key strokes valid notations denote.
pub open spec fn notation_keys(keys: Seq<&str>) -> Seq<KeyStroke> {
    Seq::new(keys.len(), |i: int| notation_key(keys[i]@)->0)
}

/// Building a table from bindings in order, each added as `table_insert` does; the
/// first binding that conflicts decides the keys reported.
pub open spec fn build_table(es: Seq<EntryView>) -> Result<Seq<EntryView>, Seq<KeyStroke>>
    decreases es.len(),
{
    if es.len() == 0 {
        Ok(Seq::<EntryView>::empty())
    } else {
        match build_table(es.drop_last()) {
            Err(k) => Err(k),
            Ok(t) => table_insert(t, es.last()),
        }
    }
}

/// A conflict among the first `n` bindings is the conflict of all of them.
proof fn lemma_conflict_persists(es: Seq<EntryView>, n: int)
    requires
        0 <= n <= es.len(),
        build_table(es.take(n)) is Err,
    ensures
        build_table(es) == build_table(es.take(n)),
    decreases es.len(),
{
    if es.len() == n {
        assert(es.take(n) =~= es);
    } else {
        assert(es.drop_last().take(n) =~= es.take(n));
        lemma_conflict_persists(es.drop_last(), n);
    }
}

/// A binding of keys to an action, with an optional description.
#[derive(Debug)]
pub struct ActionBinding {
    pub on: KeySequence,
    pub action: KeymapAction,
    pub desc: Option<String>,
}

impl View for ActionBinding {
    type V = EntryView;

    open spec fn view(&self) -> EntryView {
        (self.on@, self.action, text_view(self.desc))
    }
}

/// Keymap of one layer created while the application runs.
#[derive(Debug)]
pub struct LayerKeymap {
    layer: Layer,
    trie: KeyTrie,
    input_chars: bool,
}

impl LayerKeymap {
    #[verifier::type_invariant]
    spec fn well_formed(&self) -> bool {
        table_wf(self.trie@)
    }

    /// The layer this keymap serves.
    pub closed spec fn layer_of(&self) -> Layer {
        self.layer
    }

    /// The table of this keymap.
    pub closed spec fn table(&self) -> Seq<EntryView> {
        self.trie@
    }

    /// Whether this keymap turns typed characters into prompt input.
    pub closed spec fn takes_chars(&self) -> bool {
        self.input_chars
    }

    /// A builder of a keymap for `layer`, with no binding.
    pub fn builder(layer: Layer) -> (b: LayerKeymapBuilder)
        ensures
            b.layer_of() == layer,
            b.entries() == Seq::<EntryView>::empty(),
            !b.takes_chars(),
    {
        LayerKeymapBuilder::new(layer)
    }

    /// The layer this keymap serves.
    pub fn layer(&self) -> (l: Layer)
        ensures
            l == self.layer_of(),
    {
        self.layer
    }

    /// Looks up typed keys as `layer_outcome` describes.
    pub fn search(&self, keys: &[KeyStroke]) -> (r: TrieSearch)
        ensures
            layer_outcome(self.table(), self.takes_chars(), keys@, r),
    {
        proof {
            use_type_invariant(self);
        }
        if self.input_chars && keys.len() == 1 {
            if let Some(ch) = keys[0].as_char() {
                return TrieSearch::Matched(
                    CompiledBinding {
                        action: KeymapAction::Prompt(PromptAction::InsertChar(ch)),
                        desc: Some("Insert character".to_owned()),
                    },
                );
            }
        }
        self.trie.search(keys)
    }

    /// The keymap of the search prompt: typed characters are inserted, `backspace`
    /// deletes the previous character.
    pub fn search_prompt() -> (k: LayerKeymap)
        ensures
            k.layer_of() == Layer::SearchPrompt,
            k.takes_chars(),
            k.table().len() == 1,
            k.table()[0].0 == seq![KeyStroke { code: KeyCode::Backspace, modifiers: no_modifiers() }],
            k.table()[0].1 == KeymapAction::Prompt(PromptAction::DeleteBackward),
            k.table()[0].2 == Some("Delete previous character"@),
    {
        let mut builder = Self::builder(Layer::SearchPrompt);
        builder.bind_input_chars();
        let backspace = KeyStroke::new(KeyCode::Backspace, KeyModifiers::none());
        let bound = builder.bind_key(
            backspace,
            KeymapAction::Prompt(PromptAction::DeleteBackward),
            Some("Delete previous character".to_owned()),
        );
        let ghost es = builder.entries();
        assert(es.len() == 1);
        assert(es.drop_last() =~= Seq::<EntryView>::empty());
        assert(build_table(es) == Ok::<Seq<EntryView>, Seq<KeyStroke>>(seq![es[0]])) by {
            let t = Seq::<EntryView>::empty();
            assert(es.last() == es[0]);
            assert(build_table(es.drop_last()) == Ok::<Seq<EntryView>, Seq<KeyStroke>>(t));
            assert(shorter_conflict(t, es[0].0) is None);
            assert(!has_continuation(t, es[0].0));
            assert(entry_position(t, es[0].0) is None);
            assert(t.push(es[0]) =~= seq![es[0]]);
        }
        match builder.build() {
            Ok(k) => k,
            Err(_) => {
                // `build_table` of a single binding never conflicts.
                assert(false);
                LayerKeymap { layer: Layer::SearchPrompt, trie: KeyTrie::new(), input_chars: true }
            },
        }
    }
}

/// Builder of a layer keymap.
pub struct LayerKeymapBuilder {
    layer: Layer,
    bindings: Vec<ActionBinding>,
    input_chars: bool,
}

impl LayerKeymapBuilder {
    /// The layer the keymap will serve.
    pub closed spec fn layer_of(&self) -> Layer {
        self.layer
    }

    /// The bindings given so far, in order.
    pub closed spec fn entries(&self) -> Seq<EntryView> {
        self.bindings@.map_values(|b: ActionBinding| b@)
    }

    /// Whether the keymap will turn typed characters into prompt input.
    pub closed spec fn takes_chars(&self) -> bool {
        self.input_chars
    }

    fn new(layer: Layer) -> (b: LayerKeymapBuilder)
        ensures
            b.layer_of() == layer,
            b.entries() == Seq::<EntryView>::empty(),
            !b.takes_chars(),
    {
        let b = LayerKeymapBuilder { layer, bindings: Vec::new(), input_chars: false };
        assert(b.entries() =~= Seq::<EntryView>::empty());
        b
    }

    /// Binds keys given in notation to an action, unless one of the notations is
    /// invalid, there is none, or a binding on the same keys was given already.
    pub fn bind(&mut self, keys: &[&str], action: KeymapAction, desc: Option<&str>) -> (r: Result<(), KeymapError>)
        ensures
            final(self).layer_of() == old(self).layer_of(),
            final(self).takes_chars() == old(self).takes_chars(),
            keys@.len() == 0 ==> r == Err::<(), KeymapError>(KeymapError::EmptyKeySequence),
            (exists|i: int| 0 <= i < keys@.len() && notation_key(#[trigger] keys@[i]@) is None) ==> r matches Err(
                KeymapError::InvalidKeyNotation(_, _),
            ),
            r is Err ==> final(self).entries() == old(self).entries(),
            valid_notations(keys@) && (exists|j: int| 0 <= j < old(self).entries().len() && (#[trigger] old(
                self,
            ).entries()[j]).0 == notation_keys(keys@)) ==> (r matches Err(KeymapError::DuplicateBinding { layer, keys: k })
                && layer == old(self).layer_of() && k@ == notation_keys(keys@)),
            valid_notations(keys@) && !(exists|j: int| 0 <= j < old(self).entries().len() && (#[trigger] old(
                self,
            ).entries()[j]).0 == notation_keys(keys@)) ==> r is Ok && final(self).entries().drop_last() == old(
                self,
            ).entries() && final(self).entries().last().0 == notation_keys(keys@) && final(self).entries().last().1
                == action && final(self).entries().last().2 == str_view(desc),
    {
        let on = match KeySequence::parse(keys) {
            Ok(on) => on,
            Err(e) => return Err(e),
        };
        assert(on@ =~= notation_keys(keys@));
        let desc = match desc {
            Some(d) => Some(d.to_owned()),
            None => None,
        };
        let ghost old_entries = self.entries();
        let r = self.bind_sequence(on, action, desc);
        proof {
            if r is Ok {
                assert(self.entries().drop_last() =~= old_entries);
            }
        }
        r
    }

    /// Binds one key stroke to an action.
    pub fn bind_key(&mut self, key: KeyStroke, action: KeymapAction, desc: Option<String>) -> (r: Result<(), KeymapError>)
        ensures
            final(self).layer_of() == old(self).layer_of(),
            final(self).takes_chars() == old(self).takes_chars(),
            (exists|j: int| 0 <= j < old(self).entries().len() && (#[trigger] old(self).entries()[j]).0 == seq![key])
                ==> (r matches Err(KeymapError::DuplicateBinding { layer, keys }) && layer == old(self).layer_of()
                && keys@ == seq![key] && final(self).entries() == old(self).entries()),
            !(exists|j: int| 0 <= j < old(self).entries().len() && (#[trigger] old(self).entries()[j]).0 == seq![key])
                ==> r is Ok && final(self).entries() == old(self).entries().push((seq![key], action, text_view(desc))),
    {
        let mut strokes: Vec<KeyStroke> = Vec::new();
        strokes.push(key);
        assert(strokes@ =~= seq![key]);
        let on = match KeySequence::new(strokes) {
            Ok(on) => on,
            Err(e) => return Err(e),
        };
        self.bind_sequence(on, action, desc)
    }

    /// Makes the keymap turn typed characters into prompt input.
    pub fn bind_input_chars(&mut self)
        ensures
            final(self).layer_of() == old(self).layer_of(),
            final(self).entries() == old(self).entries(),
            final(self).takes_chars(),
    {
        self.input_chars = true;
    }

    /// Builds the keymap, adding the bindings in order as `build_table` does.
    pub fn build(self) -> (r: Result<LayerKeymap, KeymapError>)
        ensures
            match build_table(self.entries()) {
                Ok(t) => r matches Ok(k) && k.table() == t && k.layer_of() == self.layer_of() && k.takes_chars()
                    == self.takes_chars(),
                Err(keys) => r matches Err(KeymapError::AmbiguousBinding { keys: k }) && k@ == keys,
            },
    {
        let ghost es = self.entries();
        let mut trie = KeyTrie::new();
        proof {
            assert(es.take(0) =~= Seq::<EntryView>::empty());
        }
        let mut i: usize = 0;
        while i < self.bindings.len()
            invariant
                es == self.bindings@.map_values(|b: ActionBinding| b@),
                i <= self.bindings@.len(),
                table_wf(trie@),
                build_table(es.take(i as int)) == Ok::<Seq<EntryView>, Seq<KeyStroke>>(trie@),
            decreases self.bindings@.len() - i,
        {
            let b = &self.bindings[i];
            proof {
                assert(es.take(i + 1).drop_last() =~= es.take(i as int));
                assert(es.take(i + 1).last() == b@);
            }
            match trie.insert(&b.on, &b.action, &b.desc) {
                Ok(()) => {},
                Err(e) => {
                    proof {
                        lemma_conflict_persists(es, i + 1);
                    }
                    return Err(e);
                },
            }
            i += 1;
        }
        proof {
            assert(es.take(self.bindings@.len() as int) =~= es);
        }
        Ok(LayerKeymap { layer: self.layer, trie, input_chars: self.input_chars })
    }

    /// Adds a binding unless one on the same keys was given already.
    fn bind_sequence(&mut self, on: KeySequence, action: KeymapAction, desc: Option<String>) -> (r: Result<(), KeymapError>)
        ensures
            final(self).layer_of() == old(self).layer_of(),
            final(self).takes_chars() == old(self).takes_chars(),
            (exists|j: int| 0 <= j < old(self).entries().len() && (#[trigger] old(self).entries()[j]).0 == on@)
                ==> (r matches Err(KeymapError::DuplicateBinding { layer, keys }) && layer == old(self).layer_of()
                && keys@ == on@ && final(self).entries() == old(self).entries()),
            !(exists|j: int| 0 <= j < old(self).entries().len() && (#[trigger] old(self).entries()[j]).0 == on@)
                ==> r is Ok && final(self).entries() == old(self).entries().push((on@, action, text_view(desc))),
    {
        let ghost es = self.entries();
        let mut i: usize = 0;
        while i < self.bindings.len()
            invariant
                es == self.bindings@.map_values(|b: ActionBinding| b@),
                i <= self.bindings@.len(),
                forall|j: int| 0 <= j < i ==> (#[trigger] es[j]).0 != on@,
            decreases self.bindings@.len() - i,
        {
            if crate::keymap::config::same_keys(&self.bindings[i].on, &on) {
                assert(old(self).entries()[i as int].0 == on@);
                return Err(KeymapError::DuplicateBinding { layer: self.layer, keys: on });
            }
            i += 1;
        }
        let binding = ActionBinding { on, action, desc };
        self.bindings.push(binding);
        assert(self.entries() =~= es.push((on@, action, text_view(desc))));
        Ok(())
    }
}

/// The keymaps looked up while the application runs: the compiled keymaps of every
/// layer, and for some layers a keymap created at run time that takes their place.
#[derive(Debug)]
pub struct KeymapRuntime {
    static_keymaps: CompiledKeymaps,
    dynamic: Vec<Option<LayerKeymap>>,
}

impl KeymapRuntime {
    #[verifier::type_invariant]
    spec fn one_slot_per_layer(&self) -> bool {
        self.dynamic@.len() == LAYER_COUNT
    }

    /// The compiled keymaps.
    pub closed spec fn compiled(&self) -> CompiledKeymaps {
        self.static_keymaps
    }

    /// What a layer is looked up in: a table, and whether typed characters become input.
    pub closed spec fn lookup(&self, layer: Layer) -> (Seq<EntryView>, bool) {
        match self.dynamic@[layer_ordinal(layer) as int] {
            Some(k) => (k.table(), k.takes_chars()),
            None => (self.static_keymaps.table(layer), false),
        }
    }

    /// Whether a layer's lookup of `keys` finds a binding or the beginning of one.
    pub open spec fn hits(&self, layer: Layer, keys: Seq<KeyStroke>) -> bool {
        layer_hits(self.lookup(layer).0, self.lookup(layer).1, keys)
    }

    /// Whether a layer's lookup of `keys` finds only the beginning of longer bindings.
    pub open spec fn pends(&self, layer: Layer, keys: Seq<KeyStroke>) -> bool {
        layer_pends(self.lookup(layer).0, self.lookup(layer).1, keys)
    }

    /// Runtime keymaps over compiled keymaps, with no layer replaced.
    pub fn new(static_keymaps: CompiledKeymaps) -> (r: KeymapRuntime)
        ensures
            r.compiled() == static_keymaps,
            forall|l: Layer| #[trigger] r.lookup(l) == (static_keymaps.table(l), false),
    {
        let mut dynamic: Vec<Option<LayerKeymap>> = Vec::new();
        let mut i: usize = 0;
        while i < LAYER_COUNT
            invariant
                i <= LAYER_COUNT,
                dynamic@.len() == i,
                forall|j: int| 0 <= j < i ==> (#[trigger] dynamic@[j]) is None,
            decreases LAYER_COUNT - i,
        {
            dynamic.push(None);
            i += 1;
        }
        let r = KeymapRuntime { static_keymaps, dynamic };
        assert forall|l: Layer| #[trigger] r.lookup(l) == (static_keymaps.table(l), false) by {
            assert(r.dynamic@[layer_ordinal(l) as int] is None);
        }
        r
    }

    /// Runtime keymaps over the compiled default keymaps.
    pub fn default_keymaps() -> (r: KeymapRuntime)
        ensures
            forall|l: Layer| #[trigger] r.lookup(l) == (
                default_bindings(l).map_values(|b: BindingView| binding_entry(b)),
                false,
            ),
    {
        let c = CompiledKeymaps::default_keymaps();
        KeymapRuntime::new(c)
    }

    /// Makes a layer keymap take the place of its layer's compiled keymap.
    pub fn set_layer_keymap(&mut self, keymap: LayerKeymap)
        ensures
            final(self).compiled() == old(self).compiled(),
            final(self).lookup(keymap.layer_of()) == (keymap.table(), keymap.takes_chars()),
            forall|l: Layer| l != keymap.layer_of() ==> #[trigger] final(self).lookup(l) == old(self).lookup(l),
    {
        proof {
            use_type_invariant(&*self);
        }
        let layer = keymap.layer();
        let i = layer.ordinal();
        let ghost before = self.dynamic@;
        self.dynamic[i] = Some(keymap);
        proof {
            assert forall|l: Layer| l != layer implies #[trigger] self.lookup(l) == old(self).lookup(l) by {
                assert(layer_ordinal(l) != layer_ordinal(layer));
                assert(self.dynamic@[layer_ordinal(l) as int] == before[layer_ordinal(l) as int]);
            }
        }
    }

    /// Gives a layer back its compiled keymap.
    pub fn clear_layer_keymap(&mut self, layer: Layer)
        ensures
            final(self).compiled() == old(self).compiled(),
            final(self).lookup(layer) == (old(self).compiled().table(layer), false),
            forall|l: Layer| l != layer ==> #[trigger] final(self).lookup(l) == old(self).lookup(l),
    {
        proof {
            use_type_invariant(&*self);
        }
        let i = layer.ordinal();
        let ghost before = self.dynamic@;
        self.dynamic[i] = None;
        proof {
            assert forall|l: Layer| l != layer implies #[trigger] self.lookup(l) == old(self).lookup(l) by {
                assert(layer_ordinal(l) != layer_ordinal(layer));
                assert(self.dynamic@[layer_ordinal(l) as int] == before[layer_ordinal(l) as int]);
            }
        }
    }

    /// Looks up typed keys in a layer as `layer_outcome` describes.
    pub fn search(&self, layer: Layer, keys: &[KeyStroke]) -> (r: TrieSearch)
        ensures
            layer_outcome(self.lookup(layer).0, self.lookup(layer).1, keys@, r),
    {
        proof {
            use_type_invariant(self);
        }
        match &self.dynamic[layer.ordinal()] {
            Some(keymap) => keymap.search(keys),
            None => self.static_keymaps.search(layer, keys),
        }
    }
}

} // verus!
