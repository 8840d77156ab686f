use vstd::prelude::*;

use crate::keymap::action::{KeymapAction, PromptAction};
use crate::keymap::command::CommandId;
use crate::keymap::compiled::{binding_entry, CompiledKeymaps};
use crate::keymap::config::BindingView;
use crate::keymap::defaults::default_bindings;
use crate::keymap::key::{stroke_char, KeyStroke};
use crate::keymap::layer::Layer;
use crate::keymap::runtime::{lemma_outcome_kind, layer_hits, layer_outcome, layer_pends, types_char, KeymapRuntime, LayerKeymap};
use crate::keymap::trie::{candidates_for, copy_strokes, entry_position, has_continuation, EntryView, KeymapCandidate, TrieSearch};

verus! {

/// The most layers a stack holds.
pub const MAX_LAYER_STACK_LEN: usize = 8;

/// Active keymap layers, ordered from low to high priority.
#[derive(Debug, PartialEq, Eq)]
pub struct LayerStack {
    layers: Vec<Layer>,
}

impl View for LayerStack {
    type V = Seq<Layer>;

    closed spec fn view(&self) -> Seq<Layer> {
        self.layers@
    }
}

impl Clone for LayerStack {
    fn clone(&self) -> (r: Self)
        ensures
            r@ == self@,
    {
        let mut layers: Vec<Layer> = Vec::new();
        let mut i: usize = 0;
        while i < self.layers.len()
            invariant
                i <= self.layers@.len(),
                layers@ == self.layers@.take(i as int),
            decreases self.layers@.len() - i,
        {
            layers.push(self.layers[i]);
            proof {
                assert(layers@ =~= self.layers@.take(i + 1));
            }
            i += 1;
        }
        assert(self.layers@.take(self.layers@.len() as int) =~= self.layers@);
        LayerStack { layers }
    }
}

impl LayerStack {
    /// A stack without layers.
    pub fn empty() -> (s: LayerStack)
        ensures
            s@ == Seq::<Layer>::empty(),
    {
        let s = LayerStack { layers: Vec::new() };
        assert(s@ =~= Seq::<Layer>::empty());
        s
    }

    /// A stack of the given layers, from low to high priority.
    pub fn new(layers: &[Layer]) -> (s: LayerStack)
        requires
            layers@.len() <= MAX_LAYER_STACK_LEN,
        ensures
            s@ == layers@,
    {
        let mut s = LayerStack::empty();
        let mut i: usize = 0;
        while i < layers.len()
            invariant
                i <= layers@.len(),
                layers@.len() <= MAX_LAYER_STACK_LEN,
                s@ == layers@.take(i as int),
            decreases layers@.len() - i,
        {
            s.push(layers[i]);
            proof {
                assert(s@ =~= layers@.take(i + 1));
            }
            i += 1;
        }
        assert(layers@.take(layers@.len() as int) =~= layers@);
        s
    }

    /// Puts a layer on top of the stack; a full stack takes no more.
    pub fn push(&mut self, layer: Layer)
        requires
            old(self)@.len() < MAX_LAYER_STACK_LEN,
        ensures
            final(self)@ == old(self)@.push(layer),
    {
        self.layers.push(layer);
    }

    /// The layers from the highest priority to the lowest.
    pub fn iter_high_to_low(&self) -> (v: Vec<Layer>)
        ensures
            v@ == self@.reverse(),
    {
        let mut v: Vec<Layer> = Vec::new();
        let mut i = self.layers.len();
        while i > 0
            invariant
                i <= self@.len(),
                v@ == self@.subrange(i as int, self@.len() as int).reverse(),
            decreases i,
        {
            i -= 1;
            v.push(self.layers[i]);
            assert(self@.subrange(i as int, self@.len() as int).reverse() =~= self@.subrange(
                i + 1,
                self@.len() as int,
            ).reverse().push(self@[i as int]));
        }
        assert(self@.subrange(0, self@.len() as int) =~= self@);
        v
    }

    /// The layers, from low to high priority.
    pub fn as_slice(&self) -> (s: &[Layer])
        ensures
            s@ == self@,
    {
        self.layers.as_slice()
    }

    /// Whether two stacks hold the same layers in the same order.
    pub fn same_layers(&self, other: &LayerStack) -> (r: bool)
        ensures
            r == (self@ == other@),
    {
        if self.layers.len() != other.layers.len() {
            return false;
        }
        let mut i: usize = 0;
        while i < self.layers.len()
            invariant
                self.layers@.len() == other.layers@.len(),
                i <= self.layers@.len(),
                forall|j: int| 0 <= j < i ==> self.layers@[j] == other.layers@[j],
            decreases self.layers@.len() - i,
        {
            if self.layers[i] != other.layers[i] {
                return false;
            }
            i += 1;
        }
        assert(self.layers@ =~= other.layers@);
        true
    }
}

/// Outcome of resolving one key stroke.
#[derive(Debug, PartialEq, Eq)]
pub enum KeymapResult {
    /// A binding was completed and asks for this action.
    Matched(KeymapAction),
    /// The keys typed so far begin longer bindings; the candidates may follow.
    Pending { keys: Vec<KeyStroke>, candidates: Vec<KeymapCandidate> },
    /// No layer binds the key.
    NotFound,
    /// The keys typed so far complete no binding; they are dropped.
    Cancelled { keys: Vec<KeyStroke> },
    /// A binding was completed that asks for nothing.
    NoOp,
}

/// What the keymap reports for a result of the resolver: a completed binding that asks
/// for nothing is reported as matching the no-op command.
pub open spec fn keymap_reported(r: KeymapResult) -> KeymapResult {
    if r is NoOp {
        KeymapResult::Matched(KeymapAction::Command(CommandId::NoOp))
    } else {
        r
    }
}

/// The result that completing a binding to `action` gives.
pub open spec fn acts(action: KeymapAction, r: KeymapResult) -> bool {
    if action is NoOp {
        r is NoOp
    } else {
        r == KeymapResult::Matched(action)
    }
}

/// The result of looking up `keys` in a layer with table `t` (typed characters becoming
/// input when `chars` holds), with the keys kept pending afterwards: a completed binding
/// gives its action and clears them, the beginning of longer bindings keeps them and
/// lists the candidates, anything else cancels them.
pub open spec fn step_result(t: Seq<EntryView>, chars: bool, keys: Seq<KeyStroke>, r: KeymapResult, after: Seq<KeyStroke>) -> bool {
    if types_char(chars, keys) {
        r == KeymapResult::Matched(KeymapAction::Prompt(PromptAction::InsertChar(stroke_char(keys[0])->0)))
            && after.len() == 0
    } else {
        match entry_position(t, keys) {
            Some(p) => acts(t[p as int].1, r) && after.len() == 0,
            None => if has_continuation(t, keys) {
                (r matches KeymapResult::Pending { keys: k, candidates: c } && k@ == keys && candidates_for(t, keys, c@))
                    && after == keys
            } else {
                (r matches KeymapResult::Cancelled { keys: k } && k@ == keys) && after.len() == 0
            },
        }
    }
}

/// The highest layer of a stack whose lookup of `keys` finds a binding or the beginning of one.
pub open spec fn highest_hit(rt: KeymapRuntime, ls: Seq<Layer>, keys: Seq<KeyStroke>) -> Option<Layer>
    decreases ls.len(),
{
    if ls.len() == 0 {
        None
    } else if rt.hits(ls.last(), keys) {
        Some(ls.last())
    } else {
        highest_hit(rt, ls.drop_last(), keys)
    }
}

/// The highest layer of a stack whose lookup of `keys` finds only the beginning of longer bindings.
pub open spec fn highest_pending(rt: KeymapRuntime, ls: Seq<Layer>, keys: Seq<KeyStroke>) -> Option<Layer>
    decreases ls.len(),
{
    if ls.len() == 0 {
        None
    } else if rt.pends(ls.last(), keys) {
        Some(ls.last())
    } else {
        highest_pending(rt, ls.drop_last(), keys)
    }
}

/// What resolving `key` gives with `pending` keys typed before it, in terms of the
/// layers of the stack: a first key goes to the highest layer that binds it or begins
/// a binding with it; a following key goes to the highest layer in which the first
/// pending key begins longer bindings, and the keys are cancelled when there is none.
pub open spec fn resolve_spec(
    rt: KeymapRuntime,
    ls: Seq<Layer>,
    pending: Seq<KeyStroke>,
    key: KeyStroke,
    r: KeymapResult,
    after: Seq<KeyStroke>,
) -> bool {
    if pending.len() == 0 {
        match highest_hit(rt, ls, seq![key]) {
            None => r is NotFound && after.len() == 0,
            Some(l) => step_result(rt.lookup(l).0, rt.lookup(l).1, seq![key], r, after),
        }
    } else {
        match highest_pending(rt, ls, seq![pending[0]]) {
            None => (r matches KeymapResult::Cancelled { keys: k } && k@ == pending) && after.len() == 0,
            Some(l) => step_result(rt.lookup(l).0, rt.lookup(l).1, pending.push(key), r, after),
        }
    }
}

/// After resolving a key, the keys kept pending are exactly those of a `Pending`
/// result, and none are kept after any other result.
pub proof fn lemma_pending_kept(
    rt: KeymapRuntime,
    ls: Seq<Layer>,
    pending: Seq<KeyStroke>,
    key: KeyStroke,
    r: KeymapResult,
    after: Seq<KeyStroke>,
)
    requires
        resolve_spec(rt, ls, pending, key, r, after),
    ensures
        r matches KeymapResult::Pending { keys, .. } ==> after == keys@,
        !(r is Pending) ==> after.len() == 0,
{
}

/// A layer on top of a stack takes a first key when it binds it or begins a binding
/// with it, and leaves it to the layers below otherwise.
pub proof fn lemma_top_layer_first(rt: KeymapRuntime, ls: Seq<Layer>, top: Layer, keys: Seq<KeyStroke>)
    ensures
        rt.hits(top, keys) ==> highest_hit(rt, ls.push(top), keys) == Some(top),
        !rt.hits(top, keys) ==> highest_hit(rt, ls.push(top), keys) == highest_hit(rt, ls, keys),
{
    assert(ls.push(top).drop_last() =~= ls);
}

proof fn lemma_highest_hit_prefix(rt: KeymapRuntime, ls: Seq<Layer>, i: int, keys: Seq<KeyStroke>)
    requires
        0 < i <= ls.len(),
        highest_hit(rt, ls, keys) == highest_hit(rt, ls.take(i), keys),
        !rt.hits(ls[i - 1], keys),
    ensures
        highest_hit(rt, ls, keys) == highest_hit(rt, ls.take(i - 1), keys),
{
    assert(ls.take(i).drop_last() =~= ls.take(i - 1));
}

proof fn lemma_highest_pending_prefix(rt: KeymapRuntime, ls: Seq<Layer>, i: int, keys: Seq<KeyStroke>)
    requires
        0 < i <= ls.len(),
        highest_pending(rt, ls, keys) == highest_pending(rt, ls.take(i), keys),
        !rt.pends(ls[i - 1], keys),
    ensures
        highest_pending(rt, ls, keys) == highest_pending(rt, ls.take(i - 1), keys),
{
    assert(ls.take(i).drop_last() =~= ls.take(i - 1));
}

/// The result of completing a binding to `action`.
fn matched(action: KeymapAction) -> (r: KeymapResult)
    ensures
        acts(action, r),
{
    match action {
        KeymapAction::NoOp => KeymapResult::NoOp,
        action => KeymapResult::Matched(action),
    }
}

impl KeymapResult {
    /// The result of a binding to a command.
    pub fn from_command(command: CommandId) -> (r: KeymapResult)
        ensures
            acts(crate::keymap::action::command_action(command), r),
    {
        matched(KeymapAction::from_command(command))
    }
}

/// Resolves key strokes, one at a time, into actions, keeping the keys of a binding
/// that is not complete yet.
#[derive(Debug, Default)]
pub struct KeyResolver {
    pending: Vec<KeyStroke>,
}

impl View for KeyResolver {
    type V = Seq<KeyStroke>;

    closed spec fn view(&self) -> Seq<KeyStroke> {
        self.pending@
    }
}

impl KeyResolver {
    /// A resolver with no pending keys.
    pub fn new() -> (r: KeyResolver)
        ensures
            r@ == Seq::<KeyStroke>::empty(),
    {
        let r = KeyResolver { pending: Vec::new() };
        assert(r@ =~= Seq::<KeyStroke>::empty());
        r
    }

    /// The keys typed so far of a binding that is not complete.
    pub fn pending(&self) -> (s: &[KeyStroke])
        ensures
            s@ == self@,
    {
        self.pending.as_slice()
    }

    /// Drops the pending keys.
    pub fn clear_pending(&mut self)
        ensures
            final(self)@ == Seq::<KeyStroke>::empty(),
    {
        self.pending.clear();
    }

    /// Resolves one key stroke against the layers of the stack, as `resolve_spec` describes.
    pub fn resolve(&mut self, keymaps: &KeymapRuntime, layers: &LayerStack, key: KeyStroke) -> (r: KeymapResult)
        ensures
            resolve_spec(*keymaps, layers@, old(self)@, key, r, final(self)@),
    {
        if self.pending.len() == 0 {
            self.resolve_first_key(keymaps, layers, key)
        } else {
            self.resolve_pending_key(keymaps, layers, key)
        }
    }

    /// Follows the lookup of the pending keys in a layer.
    fn follow(&mut self, keymaps: &KeymapRuntime, layer: Layer, s: TrieSearch) -> (r: KeymapResult)
        requires
            old(self)@.len() > 0,
            layer_outcome(keymaps.lookup(layer).0, keymaps.lookup(layer).1, old(self)@, s),
        ensures
            step_result(keymaps.lookup(layer).0, keymaps.lookup(layer).1, old(self)@, r, final(self)@),
    {
        proof {
            lemma_outcome_kind(keymaps.lookup(layer).0, keymaps.lookup(layer).1, old(self)@, s);
        }
        match s {
            TrieSearch::Matched(binding) => {
                self.pending.clear();
                matched(binding.action)
            },
            TrieSearch::Pending(candidates) => {
                let keys = copy_strokes(self.pending.as_slice());
                KeymapResult::Pending { keys, candidates }
            },
            TrieSearch::NotFound => {
                let keys = copy_strokes(self.pending.as_slice());
                self.pending.clear();
                KeymapResult::Cancelled { keys }
            },
        }
    }

    fn resolve_first_key(&mut self, keymaps: &KeymapRuntime, layers: &LayerStack, key: KeyStroke) -> (r: KeymapResult)
        requires
            old(self)@.len() == 0,
        ensures
            resolve_spec(*keymaps, layers@, old(self)@, key, r, final(self)@),
    {
        let ls = layers.as_slice();
        let ghost keys = seq![key];
        let mut i: usize = ls.len();
        assert(ls@.take(ls@.len() as int) =~= ls@);
        while i > 0
            invariant
                i <= ls@.len(),
                ls@ == layers@,
                self@.len() == 0,
                old(self)@.len() == 0,
                keys == seq![key],
                highest_hit(*keymaps, ls@, keys) == highest_hit(*keymaps, ls@.take(i as int), keys),
            decreases i,
        {
            let layer = ls[i - 1];
            let mut probe: Vec<KeyStroke> = Vec::new();
            probe.push(key);
            assert(probe@ =~= keys);
            let s = keymaps.search(layer, probe.as_slice());
            proof {
                lemma_outcome_kind(keymaps.lookup(layer).0, keymaps.lookup(layer).1, keys, s);
            }
            let found = match &s {
                TrieSearch::NotFound => false,
                _ => true,
            };
            if found {
                proof {
                    assert(ls@.take(i as int).last() == layer);
                    assert(keymaps.hits(layer, keys));
                    assert(highest_hit(*keymaps, ls@, keys) == Some(layer));
                }
                self.pending.push(key);
                assert(self@ =~= keys);
                return self.follow(keymaps, layer, s);
            }
            proof {
                lemma_highest_hit_prefix(*keymaps, ls@, i as int, keys);
            }
            i -= 1;
        }
        KeymapResult::NotFound
    }

    fn resolve_pending_key(&mut self, keymaps: &KeymapRuntime, layers: &LayerStack, key: KeyStroke) -> (r: KeymapResult)
        requires
            old(self)@.len() > 0,
        ensures
            resolve_spec(*keymaps, layers@, old(self)@, key, r, final(self)@),
    {
        let first = self.pending[0];
        let ghost probe_keys = seq![first];
        let mut probe: Vec<KeyStroke> = Vec::new();
        probe.push(first);
        assert(probe@ =~= probe_keys);
        let ls = layers.as_slice();
        let mut i: usize = ls.len();
        assert(ls@.take(ls@.len() as int) =~= ls@);
        while i > 0
            invariant
                i <= ls@.len(),
                ls@ == layers@,
                self@ == old(self)@,
                old(self)@.len() > 0,
                probe@ == probe_keys,
                probe_keys == seq![old(self)@[0]],
                highest_pending(*keymaps, ls@, probe_keys) == highest_pending(*keymaps, ls@.take(i as int), probe_keys),
            decreases i,
        {
            let layer = ls[i - 1];
            let s = keymaps.search(layer, probe.as_slice());
            proof {
                lemma_outcome_kind(keymaps.lookup(layer).0, keymaps.lookup(layer).1, probe_keys, s);
            }
            let pends = match &s {
                TrieSearch::Pending(_) => true,
                _ => false,
            };
            if pends {
                proof {
                    assert(ls@.take(i as int).last() == layer);
                }
                self.pending.push(key);
                let t = keymaps.search(layer, self.pending.as_slice());
                proof {
                    lemma_outcome_kind(keymaps.lookup(layer).0, keymaps.lookup(layer).1, self@, t);
                }
                return self.follow(keymaps, layer, t);
            }
            proof {
                lemma_highest_pending_prefix(*keymaps, ls@, i as int, probe_keys);
            }
            i -= 1;
        }
        let keys = copy_strokes(self.pending.as_slice());
        self.pending.clear();
        KeymapResult::Cancelled { keys }
    }
}

/// Converts key strokes into actions for the active layer stack; a sequence of keys
/// that is not complete yet is dropped when the stack changes under it.
#[derive(Debug)]
pub struct Keymap {
    runtime: KeymapRuntime,
    resolver: KeyResolver,
    pending_layers: Option<LayerStack>,
}

impl Keymap {
    /// The keymaps looked up.
    pub closed spec fn runtime_of(&self) -> KeymapRuntime {
        self.runtime
    }

    /// The keys typed so far of a binding that is not complete.
    pub closed spec fn pending_keys(&self) -> Seq<KeyStroke> {
        self.resolver@
    }

    /// The layer stack the pending keys were typed in, if any are pending.
    pub closed spec fn pending_stack(&self) -> Option<Seq<Layer>> {
        match self.pending_layers {
            Some(s) => Some(s@),
            None => None,
        }
    }

    /// A keymap over compiled keymaps, with no layer replaced and no pending keys.
    pub fn new(static_keymaps: CompiledKeymaps) -> (k: Keymap)
        ensures
            k.runtime_of().compiled() == static_keymaps,
            forall|l: Layer| #[trigger] k.runtime_of().lookup(l) == (static_keymaps.table(l), false),
            k.pending_keys() == Seq::<KeyStroke>::empty(),
            k.pending_stack() is None,
    {
        Keymap { runtime: KeymapRuntime::new(static_keymaps), resolver: KeyResolver::new(), pending_layers: None }
    }

    /// A keymap over the compiled default keymaps.
    pub fn default_keymaps() -> (k: Keymap)
        ensures
            forall|l: Layer| #[trigger] k.runtime_of().lookup(l) == (
                default_bindings(l).map_values(|b: BindingView| binding_entry(b)),
                false,
            ),
            k.pending_keys() == Seq::<KeyStroke>::empty(),
            k.pending_stack() is None,
    {
        Keymap::new(CompiledKeymaps::default_keymaps())
    }

    /// Drops the pending keys when they were typed in another layer stack.
    pub fn sync_layers(&mut self, layers: &LayerStack)
        ensures
            final(self).runtime_of() == old(self).runtime_of(),
            (old(self).pending_stack() matches Some(p) && p != layers@) ==> final(self).pending_keys().len() == 0
                && final(self).pending_stack() is None,
            !(old(self).pending_stack() matches Some(p) && p != layers@) ==> final(self).pending_keys() == old(
                self,
            ).pending_keys() && final(self).pending_stack() == old(self).pending_stack(),
    {
        let stale = match &self.pending_layers {
            Some(pending) => !pending.same_layers(layers),
            None => false,
        };
        if stale {
            self.resolver.clear_pending();
            self.pending_layers = None;
        }
    }

    /// Makes a layer keymap take the place of its layer's compiled keymap.
    pub fn set_layer_keymap(&mut self, keymap: LayerKeymap)
        ensures
            final(self).runtime_of().compiled() == old(self).runtime_of().compiled(),
            final(self).runtime_of().lookup(keymap.layer_of()) == (keymap.table(), keymap.takes_chars()),
            forall|l: Layer| l != keymap.layer_of() ==> #[trigger] final(self).runtime_of().lookup(l) == old(
                self,
            ).runtime_of().lookup(l),
            final(self).pending_keys() == old(self).pending_keys(),
            final(self).pending_stack() == old(self).pending_stack(),
    {
        self.runtime.set_layer_keymap(keymap);
    }

    /// Gives a layer back its compiled keymap.
    pub fn clear_layer_keymap(&mut self, layer: Layer)
        ensures
            final(self).runtime_of().compiled() == old(self).runtime_of().compiled(),
            final(self).runtime_of().lookup(layer) == (old(self).runtime_of().compiled().table(layer), false),
            forall|l: Layer| l != layer ==> #[trigger] final(self).runtime_of().lookup(l) == old(
                self,
            ).runtime_of().lookup(l),
            final(self).pending_keys() == old(self).pending_keys(),
            final(self).pending_stack() == old(self).pending_stack(),
    {
        self.runtime.clear_layer_keymap(layer);
    }

    /// Resolves one key stroke: the pending keys are first dropped if they were typed
    /// in another layer stack, then the key is resolved as `resolve_spec` describes,
    /// except that a completed binding to the no-op command is reported as matching
    /// that command.
    pub fn resolve(&mut self, layers: &LayerStack, key: KeyStroke) -> (r: KeymapResult)
        ensures
            final(self).runtime_of() == old(self).runtime_of(),
            exists|inner: KeymapResult|
                #![trigger keymap_reported(inner)]
                resolve_spec(
                    old(self).runtime_of(),
                    layers@,
                    if old(self).pending_stack() matches Some(p) && p != layers@ {
                        Seq::<KeyStroke>::empty()
                    } else {
                        old(self).pending_keys()
                    },
                    key,
                    inner,
                    final(self).pending_keys(),
                ) && r == keymap_reported(inner),
            final(self).pending_stack() == if final(self).pending_keys().len() > 0 {
                Some(layers@)
            } else {
                None::<Seq<Layer>>
            },
    {
        self.sync_layers(layers);
        let inner = self.resolver.resolve(&self.runtime, layers, key);
        if self.resolver.pending.len() == 0 {
            self.pending_layers = None;
        } else if self.pending_layers.is_none() {
            self.pending_layers = Some(layers.clone());
        }
        let ghost g = inner;
        let r = match inner {
            KeymapResult::NoOp => KeymapResult::Matched(KeymapAction::Command(CommandId::NoOp)),
            other => other,
        };
        assert(r == keymap_reported(g));
        r
    }
}

/// A binding to the no-op command disables the keys: the keymap reports it as matching
/// the no-op command, whose application command is `Command::Nop`.
pub proof fn lemma_disabled_binding_reports_nop()
    ensures
        keymap_reported(KeymapResult::NoOp) == KeymapResult::Matched(KeymapAction::Command(CommandId::NoOp)),
        crate::keymap::command::command_from_id(CommandId::NoOp) == crate::command::Command::Nop,
        match crate::keymap::action::action_command(KeymapAction::Command(CommandId::NoOp)) {
            Some(c) => c,
            None => crate::command::Command::Nop,
        } == crate::command::Command::Nop,
{
}

} // verus!
