//! Which registered tasks the boot-time task-config bootstrap upserts.
//!
//! The bootstrap walks the registry's task names in sorted order and upserts a config for
//! every task whose name is not in the host's skip list.

use boson_runtime::TaskRegistry;
use vstd::prelude::*;

verus! {

/// The registry of tasks (keyed by task name) that the bootstrap walks.
#[verifier::external_type_specification]
#[verifier::external_body]
pub struct ExTaskRegistry(boson_runtime::TaskRegistry);

/// The names under which a registry holds its task descriptors.
pub uninterp spec fn registry_task_names(registry: TaskRegistry) -> Set<Seq<char>>;

/// Strict lexicographic order of strings, character by character (for UTF-8 strings this is
/// the byte order that `str` sorts by).
pub open spec fn char_seq_lt(a: Seq<char>, b: Seq<char>) -> bool
    decreases a.len(),
{
    if a.len() == 0 {
        b.len() > 0
    } else if b.len() == 0 {
        false
    } else if a[0] != b[0] {
        (a[0] as u32) < (b[0] as u32)
    } else {
        char_seq_lt(a.drop_first(), b.drop_first())
    }
}

/// Every string strictly precedes the ones after it (ascending, no duplicates).
pub open spec fn strictly_ascending(names: Seq<Seq<char>>) -> bool {
    forall|i: int, j: int| 0 <= i < j < names.len() ==> char_seq_lt(#[trigger] names[i], #[trigger] names[j])
}

/// `TaskRegistry::sorted_task_names`: the registry's keys (the names of its descriptors), sorted.
/// The keys are those of a map, so no name occurs twice; `str` sorts by bytes, which for
/// UTF-8 is character order.
#[verifier::external_body]
fn sorted_registry_names(registry: &TaskRegistry) -> (names: Vec<String>)
    ensures
        strictly_ascending(string_views(names@)),
        forall|n: Seq<char>| #[trigger] string_views(names@).contains(n) <==> registry_task_names(*registry).contains(n),
{
    registry.sorted_task_names().into_iter().map(String::from).collect()
}

/// The names of `names` that are not in `skip`, in their original order.
pub open spec fn names_to_bootstrap(names: Seq<Seq<char>>, skip: Seq<Seq<char>>) -> Seq<Seq<char>>
    decreases names.len(),
{
    if names.len() == 0 {
        Seq::empty()
    } else {
        let kept = names_to_bootstrap(names.drop_last(), skip);
        if skip.contains(names.last()) {
            kept
        } else {
            kept.push(names.last())
        }
    }
}

/// The character sequences of a list of strings.
pub open spec fn string_views(strings: Seq<String>) -> Seq<Seq<char>> {
    strings.map_values(|s: String| s@)
}

fn is_skipped(name: &String, skip: &Vec<String>) -> (skipped: bool)
    ensures
        skipped == string_views(skip@).contains(name@),
{
    let mut j: usize = 0;
    while j < skip.len()
        invariant
            j <= skip@.len(),
            forall|k: int| 0 <= k < j ==> skip@[k]@ != name@,
        decreases skip@.len() - j,
    {
        if skip[j] == *name {
            proof {
                assert(string_views(skip@)[j as int] == name@);
            }
            return true;
        }
        j = j + 1;
    }
    proof {
        assert forall|k: int| 0 <= k < string_views(skip@).len() implies string_views(skip@)[k]
            != name@ by {
            assert(string_views(skip@)[k] == skip@[k]@);
        }
    }
    false
}

/// Task names (as listed, typically sorted) whose default config the bootstrap upserts:
/// every name not listed in `skip`, in order.
pub fn bootstrap_task_names(names: &Vec<String>, skip: &Vec<String>) -> (selected: Vec<String>)
    ensures
        string_views(selected@) == names_to_bootstrap(string_views(names@), string_views(skip@)),
{
    let mut selected: Vec<String> = Vec::new();
    let mut i: usize = 0;
    while i < names.len()
        invariant
            i <= names@.len(),
            string_views(selected@) == names_to_bootstrap(
                string_views(names@).take(i as int),
                string_views(skip@),
            ),
        decreases names@.len() - i,
    {
        let ghost before = selected@;
        let ghost prefix = string_views(names@).take(i as int + 1);
        proof {
            assert(prefix.drop_last() =~= string_views(names@).take(i as int));
            assert(prefix.last() == names@[i as int]@);
        }
        if !is_skipped(&names[i], skip) {
            selected.push(names[i].clone());
            proof {
                assert(string_views(selected@) =~= string_views(before).push(names@[i as int]@));
            }
        }
        i = i + 1;
    }
    proof {
        assert(string_views(names@).take(names@.len() as int) =~= string_views(names@));
    }
    selected
}

/// The bootstrap upserts exactly the listed names that are not skipped: no skipped name is
/// selected, every selected name was listed, and every listed name that is not skipped is
/// selected; with nothing skipped, every listed name is selected, in order.
pub proof fn lemma_bootstrap_selects_unskipped(names: Seq<Seq<char>>, skip: Seq<Seq<char>>)
    ensures
        forall|n: Seq<char>| #[trigger] names_to_bootstrap(names, skip).contains(n) <==> (
        names.contains(n) && !skip.contains(n)),
        skip.len() == 0 ==> names_to_bootstrap(names, skip) == names,
    decreases names.len(),
{
    if names.len() > 0 {
        let init = names.drop_last();
        lemma_bootstrap_selects_unskipped(init, skip);
        assert(names =~= init.push(names.last()));
        let kept = names_to_bootstrap(init, skip);
        assert forall|n: Seq<char>| #[trigger] names_to_bootstrap(names, skip).contains(n) <==> (
        names.contains(n) && !skip.contains(n)) by {
            if names.contains(n) && !skip.contains(n) {
                let k = choose|k: int| 0 <= k < names.len() && names[k] == n;
                if k < names.len() - 1 {
                    assert(init[k] == n);
                    assert(kept.contains(n));
                    if !skip.contains(names.last()) {
                        let j = choose|j: int| 0 <= j < kept.len() && kept[j] == n;
                        assert(kept.push(names.last())[j] == n);
                    }
                } else {
                    assert(kept.push(names.last())[kept.len() as int] == n);
                }
            }
            if names_to_bootstrap(names, skip).contains(n) {
                let selected = names_to_bootstrap(names, skip);
                let j = choose|j: int| 0 <= j < selected.len() && selected[j] == n;
                if j < kept.len() {
                    assert(kept[j] == n);
                    assert(kept.contains(n));
                    assert(init.contains(n));
                    let k = choose|k: int| 0 <= k < init.len() && init[k] == n;
                    assert(names[k] == n);
                } else {
                    assert(n == names.last());
                    assert(names[names.len() - 1] == n);
                }
            }
        }
        if skip.len() == 0 {
            assert(!skip.contains(names.last()));
        }
    } else {
        assert(names_to_bootstrap(names, skip) =~= names);
    }
}

proof fn lemma_bootstrap_keeps_ascending(names: Seq<Seq<char>>, skip: Seq<Seq<char>>)
    requires
        strictly_ascending(names),
    ensures
        strictly_ascending(names_to_bootstrap(names, skip)),
    decreases names.len(),
{
    if names.len() > 0 {
        let init = names.drop_last();
        assert(strictly_ascending(init)) by {
            assert forall|i: int, j: int| 0 <= i < j < init.len() implies char_seq_lt(
                #[trigger] init[i],
                #[trigger] init[j],
            ) by {
                assert(init[i] == names[i] && init[j] == names[j]);
            }
        }
        lemma_bootstrap_keeps_ascending(init, skip);
        lemma_bootstrap_selects_unskipped(init, skip);
        let kept = names_to_bootstrap(init, skip);
        if !skip.contains(names.last()) {
            let selected = kept.push(names.last());
            assert forall|i: int, j: int| 0 <= i < j < selected.len() implies char_seq_lt(
                #[trigger] selected[i],
                #[trigger] selected[j],
            ) by {
                if j == kept.len() {
                    assert(kept.contains(kept[i]));
                    let k = choose|k: int| 0 <= k < init.len() && init[k] == kept[i];
                    assert(names[k] == kept[i]);
                    assert(names[names.len() - 1] == names.last());
                } else {
                    assert(selected[i] == kept[i] && selected[j] == kept[j]);
                }
            }
        }
    }
}

/// Names of the registered tasks whose default config the bootstrap upserts, in sorted order:
/// every registered task whose name is not in `skip`.
pub fn default_task_config_names(registry: &TaskRegistry, skip: &Vec<String>) -> (names: Vec<String>)
    ensures
        forall|n: Seq<char>| #[trigger] string_views(names@).contains(n) <==> (registry_task_names(
            *registry,
        ).contains(n) && !string_views(skip@).contains(n)),
        strictly_ascending(string_views(names@)),
{
    let listed = sorted_registry_names(registry);
    let names = bootstrap_task_names(&listed, skip);
    proof {
        lemma_bootstrap_selects_unskipped(string_views(listed@), string_views(skip@));
        lemma_bootstrap_keeps_ascending(string_views(listed@), string_views(skip@));
    }
    names
}

} // verus!
