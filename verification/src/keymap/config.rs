use vstd::prelude::*;

use crate::keymap::command::{command_lookup, CommandId, CommandRegistry};
use crate::keymap::error::KeymapError;
use crate::keymap::key::{str_view, notation_key, KeyBinding, KeySequence, KeyStroke};
use crate::keymap::layer::{layer_at, layer_named, layer_ordinal, Layer, LAYER_COUNT};

verus! {

/// A binding as a value: its key strokes, its command and its description.
pub type BindingView = (Seq<KeyStroke>, CommandId, Option<Seq<char>>);

/// The first position in `bindings` whose key strokes are `keys`.
pub open spec fn binding_position(bindings: Seq<BindingView>, keys: Seq<KeyStroke>) -> Option<nat>
    decreases bindings.len(),
{
    if bindings.len() == 0 {
        None
    } else {
        match binding_position(bindings.drop_last(), keys) {
            Some(i) => Some(i),
            None => if bindings.last().0 == keys {
                Some((bindings.len() - 1) as nat)
            } else {
                None
            },
        }
    }
}

/// Adds one binding to a layer's bindings: it replaces the first binding on the
/// same keys, or is appended when there is none.
pub open spec fn merge_binding(dst: Seq<BindingView>, b: BindingView) -> Seq<BindingView> {
    match binding_position(dst, b.0) {
        Some(i) => dst.update(i as int, b),
        None => dst.push(b),
    }
}

/// Adds bindings one after another, as `merge_binding` does.
pub open spec fn merge_bindings(dst: Seq<BindingView>, src: Seq<BindingView>) -> Seq<BindingView>
    decreases src.len(),
{
    if src.len() == 0 {
        dst
    } else {
        merge_binding(merge_bindings(dst, src.drop_last()), src.last())
    }
}

/// The binding on `keys` that a layer's bindings hold first, if any.
pub open spec fn binding_on(bindings: Seq<BindingView>, keys: Seq<KeyStroke>) -> Option<BindingView> {
    match binding_position(bindings, keys) {
        Some(i) => Some(bindings[i as int]),
        None => None,
    }
}

/// The last binding on `keys` in a sequence of bindings, if any.
pub open spec fn last_binding_on(bindings: Seq<BindingView>, keys: Seq<KeyStroke>) -> Option<BindingView>
    decreases bindings.len(),
{
    if bindings.len() == 0 {
        None
    } else if bindings.last().0 == keys {
        Some(bindings.last())
    } else {
        last_binding_on(bindings.drop_last(), keys)
    }
}

proof fn lemma_position_push(v: Seq<BindingView>, x: BindingView, k: Seq<KeyStroke>)
    ensures
        binding_position(v.push(x), k) == match binding_position(v, k) {
            Some(i) => Some(i),
            None => if x.0 == k { Some(v.len()) } else { None },
        },
{
    assert(v.push(x).drop_last() =~= v);
}

proof fn lemma_position_update(v: Seq<BindingView>, i: int, x: BindingView, k: Seq<KeyStroke>)
    requires
        0 <= i < v.len(),
        v[i].0 == x.0,
    ensures
        binding_position(v.update(i, x), k) == binding_position(v, k),
    decreases v.len(),
{
    let w = v.update(i, x);
    if i < v.len() - 1 {
        assert(w.drop_last() =~= v.drop_last().update(i, x));
        lemma_position_update(v.drop_last(), i, x, k);
    } else {
        assert(w.drop_last() =~= v.drop_last());
    }
}

/// A user's bindings override the defaults key by key: after merging `src` into `dst`,
/// the binding on some keys is the last one `src` gives for them, and the one `dst`
/// gave when `src` gives none.
pub proof fn lemma_merge_override(dst: Seq<BindingView>, src: Seq<BindingView>, keys: Seq<KeyStroke>)
    ensures
        binding_on(merge_bindings(dst, src), keys) == match last_binding_on(src, keys) {
            Some(b) => Some(b),
            None => binding_on(dst, keys),
        },
    decreases src.len(),
{
    if src.len() > 0 {
        lemma_merge_override(dst, src.drop_last(), keys);
        let m = merge_bindings(dst, src.drop_last());
        let b = src.last();
        lemma_position_found(m, b.0);
        lemma_position_found(m, keys);
        match binding_position(m, b.0) {
            Some(i) => {
                lemma_position_update(m, i as int, b, keys);
                lemma_position_found(m.update(i as int, b), keys);
            },
            None => {
                lemma_position_push(m, b, keys);
            },
        }
    }
}

/// User-facing keymap configuration: for each layer, bindings in the order they were given.
#[derive(Debug)]
pub struct KeymapConfig {
    bindings: Vec<Vec<KeyBinding>>,
}

impl KeymapConfig {
    #[verifier::type_invariant]
    spec fn one_list_per_layer(&self) -> bool {
        self.bindings@.len() == LAYER_COUNT
    }

    /// The bindings given for a layer, in order.
    pub closed spec fn layer(&self, layer: Layer) -> Seq<BindingView> {
        self.bindings@[layer_ordinal(layer) as int]@.map_values(|b: KeyBinding| b@)
    }

    /// A configuration without bindings.
    pub fn new() -> (c: KeymapConfig)
        ensures
            forall|l: Layer| c.layer(l) == Seq::<BindingView>::empty(),
    {
        let mut bindings: Vec<Vec<KeyBinding>> = Vec::new();
        let mut i: usize = 0;
        while i < LAYER_COUNT
            invariant
                i <= LAYER_COUNT,
                bindings@.len() == i,
                forall|j: int| 0 <= j < i ==> (#[trigger] bindings@[j])@.len() == 0,
            decreases LAYER_COUNT - i,
        {
            bindings.push(Vec::new());
            i += 1;
        }
        let c = KeymapConfig { bindings };
        assert forall|l: Layer| c.layer(l) == Seq::<BindingView>::empty() by {
            assert(c.layer(l) =~= Seq::<BindingView>::empty());
        }
        c
    }

    /// The bindings of every layer, in declaration order of the layers.
    pub fn into_layers(self) -> (v: Vec<Vec<KeyBinding>>)
        ensures
            v@.len() == LAYER_COUNT,
            forall|i: int| 0 <= i < LAYER_COUNT ==> (#[trigger] v@[i])@.map_values(|b: KeyBinding| b@) == self.layer(layer_at(i)),
    {
        proof {
            use_type_invariant(&self);
        }
        let v = self.bindings;
        assert forall|i: int| 0 <= i < LAYER_COUNT implies (#[trigger] v@[i])@.map_values(|b: KeyBinding| b@) == self.layer(layer_at(i)) by {
            assert(layer_ordinal(layer_at(i)) == i);
        }
        v
    }

    /// The bindings given for a layer, in order.
    pub fn bindings(&self, layer: Layer) -> (s: &[KeyBinding])
        ensures
            s@.map_values(|b: KeyBinding| b@) == self.layer(layer),
    {
        proof {
            use_type_invariant(self);
        }
        self.bindings[layer.ordinal()].as_slice()
    }

    /// Appends a binding to a layer.
    pub fn push(&mut self, layer: Layer, binding: KeyBinding)
        ensures
            final(self).layer(layer) == old(self).layer(layer).push(binding@),
            forall|l: Layer| l != layer ==> final(self).layer(l) == old(self).layer(l),
    {
        proof {
            use_type_invariant(&*self);
        }
        let i = layer.ordinal();
        let ghost before = self.bindings@;
        let mut list: Vec<KeyBinding> = Vec::new();
        std::mem::swap(&mut list, &mut self.bindings[i]);
        list.push(binding);
        self.bindings[i] = list;
        proof {
            assert(self.layer(layer) =~= old(self).layer(layer).push(binding@));
            assert forall|l: Layer| l != layer implies self.layer(l) == old(self).layer(l) by {
                assert(layer_ordinal(l) != layer_ordinal(layer));
                assert(self.bindings@[layer_ordinal(l) as int] == before[layer_ordinal(l) as int]);
            }
        }
    }

    /// Binds a key sequence given in notation to a command in a layer.
    pub fn add(&mut self, layer: Layer, keys: &[&str], command: CommandId, desc: Option<&str>) -> (r: Result<(), KeymapError>)
        ensures
            r is Ok <==> keys@.len() > 0 && forall|i: int| 0 <= i < keys@.len() ==> notation_key(#[trigger] keys@[i]@) is Some,
            r is Ok ==> final(self).layer(layer).len() == old(self).layer(layer).len() + 1
                && final(self).layer(layer).drop_last() == old(self).layer(layer)
                && final(self).layer(layer).last().1 == command
                && (forall|i: int| 0 <= i < keys@.len() ==> Some(#[trigger] final(self).layer(layer).last().0[i]) == notation_key(keys@[i]@))
                && final(self).layer(layer).last().0.len() == keys@.len()
                && final(self).layer(layer).last().2 == str_view(desc),
            r is Err ==> final(self).layer(layer) == old(self).layer(layer),
            forall|l: Layer| l != layer ==> final(self).layer(l) == old(self).layer(l),
    {
        let on = match KeySequence::parse(keys) {
            Ok(on) => on,
            Err(e) => return Err(e),
        };
        let desc = match desc {
            Some(d) => Some(d.to_owned()),
            None => None,
        };
        let binding = KeyBinding::new(on, command, desc);
        self.push(layer, binding);
        proof {
            assert(self.layer(layer).drop_last() =~= old(self).layer(layer));
        }
        Ok(())
    }

    /// Binds keys given in notation to a command given by name, in a layer given by
    /// name, as a configuration file states a binding.
    pub fn bind_named(&mut self, layer: &str, keys: &[&str], command: &str, desc: Option<&str>) -> (r: Result<(), KeymapError>)
        ensures
            layer_named(layer@) is None ==> (r matches Err(KeymapError::UnknownLayer(name)) && name@ == layer@)
                && forall|l: Layer| #[trigger] final(self).layer(l) == old(self).layer(l),
            layer_named(layer@) matches Some(l) ==> {
                &&& forall|m: Layer| m != l ==> #[trigger] final(self).layer(m) == old(self).layer(m)
                &&& command_lookup(command@) is None ==> (r matches Err(KeymapError::UnknownCommand(name)) && name@ == command@)
                    && final(self).layer(l) == old(self).layer(l)
                &&& command_lookup(command@) matches Some(id) ==> {
                    &&& r is Ok <==> keys@.len() > 0 && forall|i: int| 0 <= i < keys@.len() ==> notation_key(#[trigger] keys@[i]@) is Some
                    &&& r is Ok ==> final(self).layer(l).drop_last() == old(self).layer(l)
                        && final(self).layer(l).last().1 == id
                        && final(self).layer(l).last().0.len() == keys@.len()
                        && (forall|i: int| 0 <= i < keys@.len() ==> Some(#[trigger] final(self).layer(l).last().0[i]) == notation_key(keys@[i]@))
                        && final(self).layer(l).last().2 == str_view(desc)
                    &&& r is Err ==> final(self).layer(l) == old(self).layer(l)
                }
            },
    {
        let layer = match Layer::parse(layer) {
            Ok(l) => l,
            Err(e) => return Err(e),
        };
        let command = match CommandRegistry.command_id(command) {
            Ok(id) => id,
            Err(e) => return Err(e),
        };
        self.add(layer, keys, command, desc)
    }

    /// Adds the bindings of `other`, layer by layer: a binding on keys already bound
    /// in the layer replaces the first binding on those keys, any other is appended.
    pub fn merge(&mut self, other: KeymapConfig)
        ensures
            forall|l: Layer| final(self).layer(l) == merge_bindings(old(self).layer(l), other.layer(l)),
    {
        proof {
            use_type_invariant(&*self);
            use_type_invariant(&other);
        }
        let mut other = other;
        let mut i: usize = 0;
        while i < LAYER_COUNT
            invariant
                i <= LAYER_COUNT,
                self.bindings@.len() == LAYER_COUNT,
                other.bindings@.len() == LAYER_COUNT,
                forall|l: Layer| layer_ordinal(l) < i ==> self.layer(l) == merge_bindings(old(self).layer(l), other.layer(l)),
                forall|l: Layer| layer_ordinal(l) >= i ==> self.layer(l) == old(self).layer(l),
            decreases LAYER_COUNT - i,
        {
            let layer = Layer::from_ordinal(i);
            let ghost head = self.bindings@;
            assert forall|l: Layer| layer_ordinal(l) < i implies head[layer_ordinal(l) as int]@.map_values(|b: KeyBinding| b@) == merge_bindings(old(self).layer(l), other.layer(l)) by {
                assert(self.layer(l) == merge_bindings(old(self).layer(l), other.layer(l)));
            }
            assert forall|l: Layer| layer_ordinal(l) >= i implies head[layer_ordinal(l) as int]@.map_values(|b: KeyBinding| b@) == old(self).layer(l) by {
                assert(self.layer(l) == old(self).layer(l));
            }
            let src = other.bindings(layer);
            let mut dst: Vec<KeyBinding> = Vec::new();
            std::mem::swap(&mut dst, &mut self.bindings[i]);
            let ghost start = dst@.map_values(|b: KeyBinding| b@);
            assert(start == old(self).layer(layer));
            assert(src@.map_values(|b: KeyBinding| b@) == other.layer(layer));
            let mut j: usize = 0;
            while j < src.len()
                invariant
                    j <= src@.len(),
                    dst@.map_values(|b: KeyBinding| b@) == merge_bindings(start, src@.map_values(|b: KeyBinding| b@).take(j as int)),
                decreases src@.len() - j,
            {
                let binding = src[j].clone();
                merge_one(&mut dst, binding);
                proof {
                    let srcv = src@.map_values(|b: KeyBinding| b@);
                    assert(srcv.take(j + 1).drop_last() =~= srcv.take(j as int));
                    assert(srcv.take(j + 1).last() == src@[j as int]@);
                }
                j += 1;
            }
            let ghost before = self.bindings@;
            self.bindings[i] = dst;
            proof {
                let srcv = src@.map_values(|b: KeyBinding| b@);
                assert(srcv.take(src@.len() as int) =~= srcv);
                assert(self.bindings@[i as int] == dst);
                assert(self.layer(layer) == merge_bindings(old(self).layer(layer), other.layer(layer)));
                assert forall|l: Layer| layer_ordinal(l) < i + 1 implies self.layer(l) == merge_bindings(old(self).layer(l), other.layer(l)) by {
                    if layer_ordinal(l) != i {
                        assert(self.bindings@[layer_ordinal(l) as int] == before[layer_ordinal(l) as int]);
                        assert(before[layer_ordinal(l) as int] == head[layer_ordinal(l) as int]);
                    } else {
                        assert(l == layer);
                    }
                }
                assert forall|l: Layer| layer_ordinal(l) >= i + 1 implies self.layer(l) == old(self).layer(l) by {
                    assert(self.bindings@[layer_ordinal(l) as int] == before[layer_ordinal(l) as int]);
                    assert(before[layer_ordinal(l) as int] == head[layer_ordinal(l) as int]);
                }
            }
            i += 1;
        }
    }
}

/// Whether two key sequences hold the same key strokes.
pub fn same_keys(a: &KeySequence, b: &KeySequence) -> (r: bool)
    ensures
        r == (a@ == b@),
{
    let x = a.as_slice();
    let y = b.as_slice();
    if x.len() != y.len() {
        return false;
    }
    let mut i: usize = 0;
    while i < x.len()
        invariant
            x@.len() == y@.len(),
            i <= x@.len(),
            x@ == a@,
            y@ == b@,
            forall|j: int| 0 <= j < i ==> x@[j] == y@[j],
        decreases x@.len() - i,
    {
        if x[i] != y[i] {
            return false;
        }
        i += 1;
    }
    assert(x@ =~= y@);
    true
}

/// The first position in `bindings` whose keys are those of `on`.
fn position_of(bindings: &Vec<KeyBinding>, on: &KeySequence) -> (r: Option<usize>)
    ensures
        match binding_position(bindings@.map_values(|b: KeyBinding| b@), on@) {
            Some(i) => r == Some(i as usize),
            None => r is None,
        },
{
    let ghost v = bindings@.map_values(|b: KeyBinding| b@);
    let mut i: usize = 0;
    while i < bindings.len()
        invariant
            i <= bindings@.len(),
            v == bindings@.map_values(|b: KeyBinding| b@),
            binding_position(v.take(i as int), on@) is None,
        decreases bindings@.len() - i,
    {
        proof {
            assert(v.take(i + 1).drop_last() =~= v.take(i as int));
        }
        if same_keys(&bindings[i].on, on) {
            proof {
                lemma_position_extends(v, i as int, on@);
            }
            return Some(i);
        }
        i += 1;
    }
    assert(v.take(bindings@.len() as int) =~= v);
    None
}

/// A position found in a prefix is the position in the whole sequence.
pub proof fn lemma_position_extends(v: Seq<BindingView>, i: int, keys: Seq<KeyStroke>)
    requires
        0 <= i < v.len(),
        binding_position(v.take(i), keys) is None,
        v[i].0 == keys,
    ensures
        binding_position(v, keys) == Some(i as nat),
    decreases v.len(),
{
    if v.len() == i + 1 {
        assert(v.drop_last() =~= v.take(i));
    } else {
        assert(v.drop_last().take(i) =~= v.take(i));
        lemma_position_extends(v.drop_last(), i, keys);
    }
}

/// A found position is in range and holds the keys looked for.
pub proof fn lemma_position_found(v: Seq<BindingView>, keys: Seq<KeyStroke>)
    ensures
        binding_position(v, keys) matches Some(i) ==> i < v.len() && v[i as int].0 == keys,
        binding_position(v, keys) is None ==> forall|i: int| 0 <= i < v.len() ==> (#[trigger] v[i]).0 != keys,
    decreases v.len(),
{
    if v.len() > 0 {
        lemma_position_found(v.drop_last(), keys);
        assert forall|i: int| 0 <= i < v.len() - 1 implies v[i] == v.drop_last()[i] by {}
    }
}

/// Adds one binding as `merge_binding` does.
fn merge_one(dst: &mut Vec<KeyBinding>, binding: KeyBinding)
    ensures
        final(dst)@.map_values(|b: KeyBinding| b@) == merge_binding(old(dst)@.map_values(|b: KeyBinding| b@), binding@),
{
    match position_of(dst, &binding.on) {
        Some(idx) => {
            proof {
                lemma_position_found(old(dst)@.map_values(|b: KeyBinding| b@), binding.on@);
            }
            dst.set(idx, binding);
            assert(dst@.map_values(|b: KeyBinding| b@) =~= merge_binding(old(dst)@.map_values(|b: KeyBinding| b@), binding@));
        },
        None => {
            dst.push(binding);
            assert(dst@.map_values(|b: KeyBinding| b@) =~= merge_binding(old(dst)@.map_values(|b: KeyBinding| b@), binding@));
        },
    }
}

} // verus!
