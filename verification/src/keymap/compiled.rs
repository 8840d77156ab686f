use vstd::prelude::*;

use crate::keymap::action::{command_action, KeymapAction};
use crate::keymap::command::{command_allows_layer, CommandId, CommandRegistry};
use crate::keymap::config::{binding_position, lemma_position_extends, merge_bindings, same_keys, BindingView, KeymapConfig};
use crate::keymap::defaults::{default_bindings, default_keymap_config, lemma_defaults_separated};
use crate::keymap::error::KeymapError;
use crate::keymap::key::{KeyBinding, KeyStroke};
use crate::keymap::layer::{layer_at, layer_ordinal, Layer, LAYER_COUNT};
use crate::keymap::trie::{entry_position, is_prefix, is_proper_prefix, search_outcome, table_insert, table_wf, EntryView, KeyTrie, TrieSearch};

verus! {

/// Why the bindings of a layer cannot be compiled.
pub enum LayerFault {
    /// A binding's command may not be bound in the layer.
    NotAllowed(CommandId),
    /// Two bindings of the layer are on these keys.
    Duplicate(Seq<KeyStroke>),
    /// These keys would both complete a binding and begin a longer one.
    Ambiguous(Seq<KeyStroke>),
}

/// The table entry a binding compiles to.
pub open spec fn binding_entry(b: BindingView) -> EntryView {
    (b.0, command_action(b.1), b.2)
}

/// Compiling a layer's bindings in order: each binding's command must be allowed in the
/// layer, no two bindings may be on the same keys, and each binding is added to the
/// table as `table_insert` does. The first binding that fails decides the fault.
pub open spec fn compile_layer(layer: Layer, bs: Seq<BindingView>) -> Result<Seq<EntryView>, LayerFault>
    decreases bs.len(),
{
    if bs.len() == 0 {
        Ok(Seq::<EntryView>::empty())
    } else {
        let head = bs.drop_last();
        let b = bs.last();
        match compile_layer(layer, head) {
            Err(f) => Err(f),
            Ok(t) => if !command_allows_layer(b.1, layer) {
                Err(LayerFault::NotAllowed(b.1))
            } else if binding_position(head, b.0) is Some {
                Err(LayerFault::Duplicate(b.0))
            } else {
                match table_insert(t, binding_entry(b)) {
                    Ok(u) => Ok(u),
                    Err(k) => Err(LayerFault::Ambiguous(k)),
                }
            },
        }
    }
}

/// Whether `e` is the error that reports `fault` in `layer`.
pub open spec fn reports_fault(layer: Layer, fault: LayerFault, e: KeymapError) -> bool {
    match fault {
        LayerFault::NotAllowed(command) => e == KeymapError::CommandNotAllowed { layer, command },
        LayerFault::Duplicate(keys) => e matches KeymapError::DuplicateBinding { layer: l, keys: k } && l == layer
            && k@ == keys,
        LayerFault::Ambiguous(keys) => e matches KeymapError::AmbiguousBinding { keys: k } && k@ == keys,
    }
}

/// The first layer, in declaration order from position `i` on, whose bindings in `c`
/// cannot be compiled, with its fault.
pub open spec fn first_fault(c: KeymapConfig, i: nat) -> Option<(Layer, LayerFault)>
    decreases LAYER_COUNT - i,
{
    if i >= LAYER_COUNT {
        None
    } else {
        match compile_layer(layer_at(i as int), c.layer(layer_at(i as int))) {
            Err(f) => Some((layer_at(i as int), f)),
            Ok(_) => first_fault(c, i + 1),
        }
    }
}

/// A fault in the first `n` bindings is the fault of all of them.
proof fn lemma_fault_persists(layer: Layer, bs: Seq<BindingView>, n: int)
    requires
        0 <= n <= bs.len(),
        compile_layer(layer, bs.take(n)) is Err,
    ensures
        compile_layer(layer, bs) == compile_layer(layer, bs.take(n)),
    decreases bs.len(),
{
    if bs.len() == n {
        assert(bs.take(n) =~= bs);
    } else {
        assert(bs.drop_last().take(n) =~= bs.take(n));
        lemma_fault_persists(layer, bs.drop_last(), n);
    }
}

/// Compiles the bindings of one layer as `compile_layer` does.
fn compile_layer_bindings(layer: Layer, bindings: &Vec<KeyBinding>, registry: &CommandRegistry) -> (r: Result<KeyTrie, KeymapError>)
    ensures
        match compile_layer(layer, bindings@.map_values(|b: KeyBinding| b@)) {
            Ok(t) => r matches Ok(trie) && trie@ == t && table_wf(trie@),
            Err(f) => r matches Err(e) && reports_fault(layer, f, e),
        },
{
    let ghost bs = bindings@.map_values(|b: KeyBinding| b@);
    let mut trie = KeyTrie::new();
    proof {
        assert(bs.take(0) =~= Seq::<BindingView>::empty());
    }
    let mut j: usize = 0;
    while j < bindings.len()
        invariant
            bs == bindings@.map_values(|b: KeyBinding| b@),
            j <= bindings@.len(),
            table_wf(trie@),
            compile_layer(layer, bs.take(j as int)) == Ok::<Seq<EntryView>, LayerFault>(trie@),
        decreases bindings@.len() - j,
    {
        let b = &bindings[j];
        let ghost head = bs.take(j as int);
        proof {
            assert(bs.take(j + 1).drop_last() =~= head);
            assert(bs.take(j + 1).last() == b@);
        }
        match registry.validate_binding(layer, b) {
            Ok(()) => {},
            Err(e) => {
                proof {
                    lemma_fault_persists(layer, bs, j + 1);
                }
                return Err(e);
            },
        }
        let mut k: usize = 0;
        while k < j
            invariant
                bs == bindings@.map_values(|b: KeyBinding| b@),
                j < bindings@.len(),
                k <= j,
                head == bs.take(j as int),
                b@ == bs[j as int],
                command_allows_layer(b.command, layer),
                compile_layer(layer, head) is Ok,
                bs.take(j + 1).drop_last() == head,
                bs.take(j + 1).last() == b@,
                binding_position(head.take(k as int), b.on@) is None,
            decreases j - k,
        {
            proof {
                assert(head.take(k + 1).drop_last() =~= head.take(k as int));
            }
            if same_keys(&bindings[k].on, &b.on) {
                proof {
                    assert(head[k as int] == bindings@[k as int]@);
                    lemma_position_extends(head, k as int, b.on@);
                    assert(command_allows_layer(b.command, layer));
                    assert(compile_layer(layer, bs.take(j + 1)) == Err::<Seq<EntryView>, LayerFault>(
                        LayerFault::Duplicate(b.on@),
                    ));
                    lemma_fault_persists(layer, bs, j + 1);
                }
                return Err(KeymapError::DuplicateBinding { layer, keys: b.on.duplicate() });
            }
            k += 1;
        }
        proof {
            assert(head.take(j as int) =~= head);
        }
        let action = KeymapAction::from_command(b.command);
        match trie.insert(&b.on, &action, &b.desc) {
            Ok(()) => {},
            Err(e) => {
                proof {
                    lemma_fault_persists(layer, bs, j + 1);
                }
                return Err(e);
            },
        }
        j += 1;
    }
    proof {
        assert(bs.take(bindings@.len() as int) =~= bs);
    }
    Ok(trie)
}

/// Whether two key sequences differ in their first or in their second key stroke,
/// so that neither begins the other.
pub open spec fn apart(a: Seq<KeyStroke>, b: Seq<KeyStroke>) -> bool {
    (a.len() > 0 && b.len() > 0 && a[0] != b[0]) || (a.len() > 1 && b.len() > 1 && a[1] != b[1])
}

/// The keys and command of each binding.
pub open spec fn keys_and_commands(bs: Seq<BindingView>) -> Seq<(Seq<KeyStroke>, CommandId)> {
    bs.map_values(|b: BindingView| (b.0, b.1))
}

/// Whether the keys of the first `m` bindings are each apart from `k`.
pub open spec fn apart_from_first(ks: Seq<(Seq<KeyStroke>, CommandId)>, m: nat, k: Seq<KeyStroke>) -> bool
    decreases m,
{
    m == 0 || (apart_from_first(ks, (m - 1) as nat, k) && apart(ks[m - 1].0, k))
}

/// Whether the first `n` bindings, given by keys and command, are each on keys apart
/// from those of the bindings before it, on at least one key, and allowed in `layer`.
pub open spec fn separated(layer: Layer, ks: Seq<(Seq<KeyStroke>, CommandId)>, n: nat) -> bool
    decreases n,
{
    n == 0 || (separated(layer, ks, (n - 1) as nat) && ks[n - 1].0.len() > 0 && command_allows_layer(ks[n - 1].1, layer)
        && apart_from_first(ks, (n - 1) as nat, ks[n - 1].0))
}

proof fn lemma_apart_from_first(ks: Seq<(Seq<KeyStroke>, CommandId)>, m: nat, k: Seq<KeyStroke>, i: int)
    requires
        apart_from_first(ks, m, k),
        0 <= i < m,
    ensures
        apart(ks[i].0, k),
    decreases m,
{
    if i < m - 1 {
        lemma_apart_from_first(ks, (m - 1) as nat, k, i);
    }
}

proof fn lemma_apart_not_prefix(a: Seq<KeyStroke>, b: Seq<KeyStroke>)
    requires
        apart(a, b),
    ensures
        !is_prefix(a, b),
        !is_prefix(b, a),
{
    if is_prefix(a, b) {
        assert(b.take(a.len() as int)[0] == b[0]);
        if a.len() > 1 {
            assert(b.take(a.len() as int)[1] == b[1]);
        }
    }
    if is_prefix(b, a) {
        assert(a.take(b.len() as int)[0] == a[0]);
        if b.len() > 1 {
            assert(a.take(b.len() as int)[1] == a[1]);
        }
    }
}

proof fn lemma_separated_prefix(layer: Layer, ks: Seq<(Seq<KeyStroke>, CommandId)>, n: nat, m: nat)
    requires
        separated(layer, ks, n),
        m <= n,
    ensures
        separated(layer, ks, m),
    decreases n,
{
    if m < n {
        lemma_separated_prefix(layer, ks, (n - 1) as nat, m);
    }
}

/// Bindings on keys apart from one another, each allowed in the layer, compile to a
/// table that holds exactly these bindings, in order.
pub proof fn lemma_separated_compiles(layer: Layer, bs: Seq<BindingView>)
    requires
        separated(layer, keys_and_commands(bs), bs.len()),
    ensures
        compile_layer(layer, bs) == Ok::<Seq<EntryView>, LayerFault>(bs.map_values(|b: BindingView| binding_entry(b))),
    decreases bs.len(),
{
    if bs.len() > 0 {
        let n = bs.len();
        let head = bs.drop_last();
        let b = bs.last();
        let ks = keys_and_commands(bs);
        assert(keys_and_commands(head) =~= ks.take(n - 1));
        lemma_separated_take(layer, ks, (n - 1) as nat, (n - 1) as nat);
        lemma_separated_compiles(layer, head);
        let t = head.map_values(|b: BindingView| binding_entry(b));
        let e = binding_entry(b);
        assert(ks[n - 1] == (b.0, b.1));
        crate::keymap::config::lemma_position_found(head, b.0);
        if let Some(i) = binding_position(head, b.0) {
            lemma_apart_from_first(ks, (n - 1) as nat, b.0, i as int);
            assert(ks[i as int].0 == head[i as int].0);
        }
        crate::keymap::trie::lemma_shorter_conflict_found(t, b.0);
        if let Some(i) = crate::keymap::trie::shorter_conflict(t, b.0) {
            lemma_apart_from_first(ks, (n - 1) as nat, b.0, i as int);
            assert(ks[i as int].0 == t[i as int].0);
            lemma_apart_not_prefix(t[i as int].0, b.0);
        }
        if crate::keymap::trie::has_continuation(t, b.0) {
            let i = choose|i: int| 0 <= i < t.len() && crate::keymap::trie::is_proper_prefix(b.0, #[trigger] t[i].0);
            lemma_apart_from_first(ks, (n - 1) as nat, b.0, i);
            assert(ks[i].0 == t[i].0);
            lemma_apart_not_prefix(t[i].0, b.0);
        }
        crate::keymap::trie::lemma_entry_position_found(t, b.0);
        if let Some(i) = crate::keymap::trie::entry_position(t, b.0) {
            lemma_apart_from_first(ks, (n - 1) as nat, b.0, i as int);
            assert(ks[i as int].0 == t[i as int].0);
        }
        assert(binding_position(head, b.0) is None);
        assert(crate::keymap::trie::shorter_conflict(t, b.0) is None);
        assert(!crate::keymap::trie::has_continuation(t, b.0));
        assert(crate::keymap::trie::entry_position(t, b.0) is None);
        assert(table_insert(t, e) == Ok::<Seq<EntryView>, Seq<KeyStroke>>(t.push(e)));
        assert(command_allows_layer(b.1, layer));
        assert(t.push(e) =~= bs.map_values(|b: BindingView| binding_entry(b)));
    } else {
        assert(bs.map_values(|b: BindingView| binding_entry(b)) =~= Seq::<EntryView>::empty());
    }
}

proof fn lemma_separated_take(layer: Layer, ks: Seq<(Seq<KeyStroke>, CommandId)>, n: nat, m: nat)
    requires
        n <= ks.len(),
        m <= n,
    ensures
        separated(layer, ks.take(n as int), m) == separated(layer, ks, m),
    decreases m,
{
    if m > 0 {
        lemma_separated_take(layer, ks, n, (m - 1) as nat);
        lemma_apart_take(ks, n, (m - 1) as nat, ks[m - 1].0);
    }
}

proof fn lemma_apart_take(ks: Seq<(Seq<KeyStroke>, CommandId)>, n: nat, m: nat, k: Seq<KeyStroke>)
    requires
        n <= ks.len(),
        m <= n,
    ensures
        apart_from_first(ks.take(n as int), m, k) == apart_from_first(ks, m, k),
    decreases m,
{
    if m > 0 {
        lemma_apart_take(ks, n, (m - 1) as nat, k);
    }
}

/// `first_fault` of the default configuration with `user` merged into it.
pub open spec fn first_fault_merged(user: KeymapConfig) -> Option<(Layer, LayerFault)> {
    first_fault_merged_from(user, 0)
}

/// `first_fault` from position `i` on, of the default configuration with `user` merged into it.
pub open spec fn first_fault_merged_from(user: KeymapConfig, i: nat) -> Option<(Layer, LayerFault)>
    decreases LAYER_COUNT - i,
{
    if i >= LAYER_COUNT {
        None
    } else {
        match compile_layer(layer_at(i as int), merge_bindings(default_bindings(layer_at(i as int)), user.layer(layer_at(i as int)))) {
            Err(f) => Some((layer_at(i as int), f)),
            Ok(_) => first_fault_merged_from(user, i + 1),
        }
    }
}

proof fn lemma_first_fault_same(c: KeymapConfig, user: KeymapConfig, i: nat)
    requires
        forall|l: Layer| #[trigger] c.layer(l) == merge_bindings(default_bindings(l), user.layer(l)),
    ensures
        first_fault(c, i) == first_fault_merged_from(user, i),
    decreases LAYER_COUNT - i,
{
    if i < LAYER_COUNT {
        lemma_first_fault_same(c, user, i + 1);
        assert(c.layer(layer_at(i as int)) == merge_bindings(default_bindings(layer_at(i as int)), user.layer(layer_at(i as int))));
    }
}

/// A layer that compiles holds exactly its bindings, in order: since no two bindings
/// are on the same keys, each is added as a new entry.
pub proof fn lemma_compiled_table(layer: Layer, bs: Seq<BindingView>)
    requires
        compile_layer(layer, bs) is Ok,
    ensures
        compile_layer(layer, bs)->Ok_0 == bs.map_values(|b: BindingView| binding_entry(b)),
    decreases bs.len(),
{
    if bs.len() > 0 {
        let head = bs.drop_last();
        let b = bs.last();
        lemma_compiled_table(layer, head);
        let t = head.map_values(|b: BindingView| binding_entry(b));
        crate::keymap::config::lemma_position_found(head, b.0);
        crate::keymap::trie::lemma_entry_position_found(t, b.0);
        if let Some(p) = crate::keymap::trie::entry_position(t, b.0) {
            assert(t[p as int].0 == head[p as int].0);
        }
        assert(t.push(binding_entry(b)) =~= bs.map_values(|b: BindingView| binding_entry(b)));
    } else {
        assert(bs.map_values(|b: BindingView| binding_entry(b)) =~= Seq::<EntryView>::empty());
    }
}

/// A layer that compiles from bindings on non-empty keys is a well formed table.
pub proof fn lemma_compiled_wf(layer: Layer, bs: Seq<BindingView>)
    requires
        compile_layer(layer, bs) is Ok,
        forall|j: int| 0 <= j < bs.len() ==> (#[trigger] bs[j]).0.len() > 0,
    ensures
        table_wf(compile_layer(layer, bs)->Ok_0),
    decreases bs.len(),
{
    if bs.len() > 0 {
        let head = bs.drop_last();
        assert forall|j: int| 0 <= j < head.len() implies (#[trigger] head[j]).0.len() > 0 by {
            assert(head[j] == bs[j]);
        }
        lemma_compiled_wf(layer, head);
        let t = compile_layer(layer, head)->Ok_0;
        crate::keymap::trie::lemma_insert_wf(t, binding_entry(bs.last()));
    }
}

/// Each binding of a layer that compiles is found on its keys, at its position: looking
/// up its keys completes it, with its command's action and its description.
pub proof fn lemma_compiled_finds(layer: Layer, bs: Seq<BindingView>, i: int)
    requires
        compile_layer(layer, bs) is Ok,
        forall|j: int| 0 <= j < bs.len() ==> (#[trigger] bs[j]).0.len() > 0,
        0 <= i < bs.len(),
    ensures
        table_wf(compile_layer(layer, bs)->Ok_0),
        entry_position(compile_layer(layer, bs)->Ok_0, bs[i].0) == Some(i as nat),
        (compile_layer(layer, bs)->Ok_0)[i] == binding_entry(bs[i]),
{
    lemma_compiled_table(layer, bs);
    lemma_compiled_wf(layer, bs);
    let t = compile_layer(layer, bs)->Ok_0;
    assert(t[i] == binding_entry(bs[i]));
    crate::keymap::trie::lemma_unique_position(t, bs[i].0, i);
}

/// Whether the bindings of a layer can be compiled together: each command is allowed
/// in the layer, no two bindings are on the same keys, and no binding's keys begin
/// another binding's keys.
pub open spec fn layer_valid(layer: Layer, bs: Seq<BindingView>) -> bool {
    &&& forall|i: int| 0 <= i < bs.len() ==> command_allows_layer(#[trigger] bs[i].1, layer)
    &&& forall|i: int, j: int|
        0 <= i < bs.len() && 0 <= j < bs.len() && i != j ==> (#[trigger] bs[i]).0 != (#[trigger] bs[j]).0
    &&& forall|i: int, j: int|
        0 <= i < bs.len() && 0 <= j < bs.len() && i != j ==> !is_proper_prefix(
            (#[trigger] bs[i]).0,
            (#[trigger] bs[j]).0,
        )
}

/// The bindings of a layer compile exactly when they are valid together, and then to a
/// table that holds exactly these bindings, in order.
pub proof fn lemma_compile_layer_valid(layer: Layer, bs: Seq<BindingView>)
    ensures
        compile_layer(layer, bs) is Ok <==> layer_valid(layer, bs),
        layer_valid(layer, bs) ==> compile_layer(layer, bs) == Ok::<Seq<EntryView>, LayerFault>(
            bs.map_values(|b: BindingView| binding_entry(b)),
        ),
    decreases bs.len(),
{
    if bs.len() == 0 {
        assert(bs.map_values(|b: BindingView| binding_entry(b)) =~= Seq::<EntryView>::empty());
    } else {
        let n = bs.len() as int;
        let head = bs.drop_last();
        let b = bs.last();
        lemma_compile_layer_valid(layer, head);
        assert forall|i: int| 0 <= i < n - 1 implies #[trigger] head[i] == bs[i] by {}
        crate::keymap::config::lemma_position_found(head, b.0);
        if layer_valid(layer, bs) {
            assert(layer_valid(layer, head)) by {
                assert forall|i: int| 0 <= i < head.len() implies command_allows_layer(#[trigger] head[i].1, layer) by {
                    assert(head[i] == bs[i]);
                }
                assert forall|i: int, j: int|
                    0 <= i < head.len() && 0 <= j < head.len() && i != j implies (#[trigger] head[i]).0 != (
                    #[trigger] head[j]).0 by {
                    assert(head[i] == bs[i]);
                    assert(head[j] == bs[j]);
                }
                assert forall|i: int, j: int|
                    0 <= i < head.len() && 0 <= j < head.len() && i != j implies !is_proper_prefix(
                    (#[trigger] head[i]).0,
                    (#[trigger] head[j]).0,
                ) by {
                    assert(head[i] == bs[i]);
                    assert(head[j] == bs[j]);
                }
            }
            let t = head.map_values(|x: BindingView| binding_entry(x));
            assert(command_allows_layer(bs[n - 1].1, layer));
            assert forall|i: int| 0 <= i < head.len() implies (#[trigger] head[i]).0 != b.0 by {
                assert(bs[i].0 != bs[n - 1].0);
            }
            assert(binding_position(head, b.0) is None);
            crate::keymap::trie::lemma_shorter_conflict_found(t, b.0);
            if let Some(i) = crate::keymap::trie::shorter_conflict(t, b.0) {
                assert(t[i as int].0 == bs[i as int].0);
                assert(!is_proper_prefix(bs[i as int].0, bs[n - 1].0));
            }
            if crate::keymap::trie::has_continuation(t, b.0) {
                let i = choose|i: int| 0 <= i < t.len() && is_proper_prefix(b.0, #[trigger] t[i].0);
                assert(t[i].0 == bs[i].0);
                assert(!is_proper_prefix(bs[n - 1].0, bs[i].0));
            }
            crate::keymap::trie::lemma_entry_position_found(t, b.0);
            if let Some(i) = crate::keymap::trie::entry_position(t, b.0) {
                assert(t[i as int].0 == head[i as int].0);
            }
            assert(t.push(binding_entry(b)) =~= bs.map_values(|x: BindingView| binding_entry(x)));
        } else if compile_layer(layer, bs) is Ok {
            lemma_compiled_table(layer, head);
            let t = head.map_values(|x: BindingView| binding_entry(x));
            crate::keymap::trie::lemma_shorter_conflict_found(t, b.0);
            assert(layer_valid(layer, head));
            assert(command_allows_layer(b.1, layer));
            assert(binding_position(head, b.0) is None);
            assert(crate::keymap::trie::shorter_conflict(t, b.0) is None);
            assert(!crate::keymap::trie::has_continuation(t, b.0));
            assert forall|i: int| 0 <= i < n implies command_allows_layer(#[trigger] bs[i].1, layer) by {
                if i < n - 1 {
                    assert(head[i] == bs[i]);
                }
            }
            assert forall|i: int, j: int| 0 <= i < n && 0 <= j < n && i != j implies (#[trigger] bs[i]).0 != (
            #[trigger] bs[j]).0 by {
                if i < n - 1 && j < n - 1 {
                    assert(head[i] == bs[i]);
                    assert(head[j] == bs[j]);
                } else if i < n - 1 {
                    assert(head[i].0 != b.0);
                } else {
                    assert(head[j].0 != b.0);
                }
            }
            assert forall|i: int, j: int| 0 <= i < n && 0 <= j < n && i != j implies !is_proper_prefix(
                (#[trigger] bs[i]).0,
                (#[trigger] bs[j]).0,
            ) by {
                if i < n - 1 && j < n - 1 {
                    assert(head[i] == bs[i]);
                    assert(head[j] == bs[j]);
                } else if i < n - 1 {
                    assert(t[i].0 == bs[i].0);
                    assert(!is_proper_prefix(t[i].0, b.0));
                } else {
                    assert(t[j].0 == bs[j].0);
                    if is_proper_prefix(b.0, t[j].0) {
                        assert(crate::keymap::trie::has_continuation(t, b.0));
                    }
                }
            }
            assert(false);
        }
    }
}

/// The first fault from position `i` on is none exactly when every layer from there on
/// compiles.
proof fn lemma_first_fault_none(c: KeymapConfig, i: nat)
    ensures
        first_fault(c, i) is None <==> forall|j: int|
            i <= j < LAYER_COUNT ==> #[trigger] compile_layer(layer_at(j), c.layer(layer_at(j))) is Ok,
    decreases LAYER_COUNT - i,
{
    if i < LAYER_COUNT {
        lemma_first_fault_none(c, i + 1);
    }
}

/// A configuration compiles exactly when the bindings of each of its layers are valid
/// together: each command allowed in its layer, no two bindings of a layer on the same
/// keys, and no binding's keys beginning another's in the same layer.
pub proof fn lemma_config_compiles_iff_valid(c: KeymapConfig)
    ensures
        first_fault(c, 0) is None <==> forall|l: Layer| #[trigger] layer_valid(l, c.layer(l)),
{
    lemma_first_fault_none(c, 0);
    assert forall|l: Layer| #[trigger] compile_layer(l, c.layer(l)) is Ok <==> layer_valid(l, c.layer(l)) by {
        lemma_compile_layer_valid(l, c.layer(l));
    }
    if first_fault(c, 0) is None {
        assert forall|l: Layer| #[trigger] layer_valid(l, c.layer(l)) by {
            let j = layer_ordinal(l) as int;
            assert(layer_at(j) == l);
            assert(compile_layer(layer_at(j), c.layer(layer_at(j))) is Ok);
            lemma_compile_layer_valid(l, c.layer(l));
        }
    }
    if forall|l: Layer| #[trigger] layer_valid(l, c.layer(l)) {
        assert forall|j: int| 0 <= j < LAYER_COUNT implies #[trigger] compile_layer(layer_at(j), c.layer(layer_at(j))) is Ok by {
            lemma_compile_layer_valid(layer_at(j), c.layer(layer_at(j)));
            assert(layer_valid(layer_at(j), c.layer(layer_at(j))));
        }
    }
}

/// The keymaps of every layer, compiled from a configuration.
#[derive(Debug)]
pub struct CompiledKeymaps {
    tables: Vec<KeyTrie>,
    bindings: Vec<Vec<KeyBinding>>,
}

impl CompiledKeymaps {
    #[verifier::type_invariant]
    spec fn compiled(&self) -> bool {
        &&& self.tables@.len() == LAYER_COUNT
        &&& self.bindings@.len() == LAYER_COUNT
        &&& forall|i: int| 0 <= i < LAYER_COUNT ==> table_wf(#[trigger] self.tables@[i]@)
    }

    /// The bindings a layer was compiled from.
    pub closed spec fn layer_bindings(&self, layer: Layer) -> Seq<BindingView> {
        self.bindings@[layer_ordinal(layer) as int]@.map_values(|b: KeyBinding| b@)
    }

    /// The compiled table of a layer.
    pub closed spec fn table(&self, layer: Layer) -> Seq<EntryView> {
        self.tables@[layer_ordinal(layer) as int]@
    }

    /// Compiles each layer of a configuration as `compile_layer` does, in declaration
    /// order of the layers; the first layer that cannot be compiled decides the error.
    pub fn compile(config: KeymapConfig, registry: &CommandRegistry) -> (r: Result<CompiledKeymaps, KeymapError>)
        ensures
            match first_fault(config, 0) {
                None => r matches Ok(c) && forall|l: Layer|
                    c.layer_bindings(l) == config.layer(l) && #[trigger] compile_layer(l, config.layer(l)) == Ok::<
                        Seq<EntryView>,
                        LayerFault,
                    >(c.table(l)),
                Some((l, f)) => r matches Err(e) && reports_fault(l, f, e),
            },
            r is Ok <==> forall|l: Layer| #[trigger] layer_valid(l, config.layer(l)),
    {
        proof {
            lemma_config_compiles_iff_valid(config);
        }
        let ghost cfg = config;
        let layers = config.into_layers();
        let mut tables: Vec<KeyTrie> = Vec::new();
        let mut i: usize = 0;
        while i < LAYER_COUNT
            invariant
                layers@.len() == LAYER_COUNT,
                forall|j: int| 0 <= j < LAYER_COUNT ==> (#[trigger] layers@[j])@.map_values(|b: KeyBinding| b@) == cfg.layer(layer_at(j)),
                i <= LAYER_COUNT,
                tables@.len() == i,
                forall|j: int| 0 <= j < i ==> table_wf(#[trigger] tables@[j]@),
                forall|j: int| 0 <= j < i ==> compile_layer(layer_at(j), cfg.layer(layer_at(j))) == Ok::<
                    Seq<EntryView>,
                    LayerFault,
                >((#[trigger] tables@[j])@),
                first_fault(cfg, 0) == first_fault(cfg, i as nat),
                cfg == config,
            decreases LAYER_COUNT - i,
        {
            let layer = Layer::from_ordinal(i);
            let ghost before = tables@;
            match compile_layer_bindings(layer, &layers[i], registry) {
                Ok(t) => {
                    tables.push(t);
                    proof {
                        assert forall|j: int| 0 <= j < i implies tables@[j] == before[j] by {}
                    }
                },
                Err(e) => {
                    proof {
                        assert(layers@[i as int]@.map_values(|b: KeyBinding| b@) == cfg.layer(layer_at(i as int)));
                        assert(compile_layer(layer, cfg.layer(layer)) is Err);
                        let f = compile_layer(layer, cfg.layer(layer))->Err_0;
                        assert(first_fault(cfg, i as nat) == Some((layer, f)));
                        assert(reports_fault(layer, f, e));
                        assert(first_fault(cfg, 0) is Some);
                        lemma_config_compiles_iff_valid(cfg);
                    }
                    return Err(e);
                },
            }
            i += 1;
        }
        let c = CompiledKeymaps { tables, bindings: layers };
        assert forall|l: Layer| c.layer_bindings(l) == cfg.layer(l) && #[trigger] compile_layer(l, cfg.layer(l)) == Ok::<
            Seq<EntryView>,
            LayerFault,
        >(c.table(l)) by {
            let j = layer_ordinal(l) as int;
            assert(layer_at(j) == l);
        }
        assert(first_fault(cfg, 0) is None);
        Ok(c)
    }

    /// The default keymaps, compiled: each layer's table holds its default bindings, in order.
    pub fn default_keymaps() -> (c: CompiledKeymaps)
        ensures
            forall|l: Layer| #[trigger] c.layer_bindings(l) == default_bindings(l),
            forall|l: Layer| #[trigger] c.table(l) == default_bindings(l).map_values(|b: BindingView| binding_entry(b)),
    {
        let config = default_keymap_config();
        proof {
            assert forall|l: Layer| #[trigger] compile_layer(l, config.layer(l)) == Ok::<Seq<EntryView>, LayerFault>(
                default_bindings(l).map_values(|b: BindingView| binding_entry(b)),
            ) by {
                lemma_defaults_separated(l);
                lemma_separated_compiles(l, default_bindings(l));
            }
            reveal_with_fuel(first_fault, 13);
            assert(first_fault(config, 0) is None);
        }
        match Self::compile(config, &CommandRegistry) {
            Ok(c) => c,
            Err(_) => {
                // `first_fault` of the default configuration is `None`.
                assert(false);
                CompiledKeymaps { tables: Vec::new(), bindings: Vec::new() }
            },
        }
    }

    /// The default keymaps with a user's configuration merged into them, layer by layer
    /// as `KeymapConfig::merge` does, compiled.
    pub fn default_with_user_config(user_config: KeymapConfig) -> (r: Result<CompiledKeymaps, KeymapError>)
        ensures
            match first_fault_merged(user_config) {
                None => r matches Ok(c) && forall|l: Layer|
                    #[trigger] c.layer_bindings(l) == merge_bindings(default_bindings(l), user_config.layer(l))
                    && compile_layer(l, c.layer_bindings(l)) == Ok::<Seq<EntryView>, LayerFault>(c.table(l)),
                Some((l, f)) => r matches Err(e) && reports_fault(l, f, e),
            },
    {
        let mut config = default_keymap_config();
        let ghost user = user_config;
        let ghost defaults = config;
        config.merge(user_config);
        proof {
            assert forall|l: Layer| #[trigger] config.layer(l) == merge_bindings(default_bindings(l), user.layer(l)) by {
                assert(defaults.layer(l) == default_bindings(l));
            }
            lemma_first_fault_same(config, user, 0);
        }
        let r = Self::compile(config, &CommandRegistry);
        proof {
            if r is Ok {
                let c = r->Ok_0;
                assert forall|l: Layer| #[trigger] c.layer_bindings(l) == merge_bindings(default_bindings(l), user.layer(l))
                    && compile_layer(l, c.layer_bindings(l)) == Ok::<Seq<EntryView>, LayerFault>(c.table(l)) by {
                    assert(compile_layer(l, config.layer(l)) == Ok::<Seq<EntryView>, LayerFault>(c.table(l)));
                }
            }
        }
        r
    }

    /// The bindings a layer was compiled from, in order.
    pub fn bindings(&self, layer: Layer) -> (s: &[KeyBinding])
        ensures
            s@.map_values(|b: KeyBinding| b@) == self.layer_bindings(layer),
    {
        proof {
            use_type_invariant(self);
        }
        self.bindings[layer.ordinal()].as_slice()
    }

    /// Looks up typed keys in a layer's table as `search_outcome` describes.
    pub fn search(&self, layer: Layer, keys: &[KeyStroke]) -> (r: TrieSearch)
        ensures
            search_outcome(self.table(layer), keys@, r),
    {
        proof {
            use_type_invariant(self);
        }
        let i = layer.ordinal();
        assert(table_wf(self.tables@[i as int]@));
        self.tables[i].search(keys)
    }
}

} // verus!
