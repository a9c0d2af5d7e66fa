//! Level packs as the front-end lists them, the current pack/level
//! selection, and the rules that move and restore it.

use vstd::prelude::*;
use crate::progress::ProfileData;

verus! {

/// What the front-end knows of a parsed level pack.
#[derive(Clone, Debug, PartialEq, Eq)]
pub struct LevelPackInfo {
    /// Pack name, as written in the pack file.
    pub name: String,
    /// Number of each level of the pack, in pack order.
    pub level_numbers: Vec<u32>,
    /// Position of the pack in the list it was loaded from.
    pub source: usize,
}

/// The packs available to play, in menu order.
pub struct LevelRegistry {
    pub packs: Vec<LevelPackInfo>,
}

/// The selected pack and level (both zero-based).
#[derive(Clone, Copy, Debug, PartialEq, Eq, Structural)]
pub struct LevelSelection {
    pub pack_index: usize,
    pub level_index: usize,
}

/// Figures of the level-select label.
#[derive(Clone, Copy, Debug, PartialEq, Eq, Structural)]
pub struct LevelSelectView {
    /// One-based number of the selected pack.
    pub pack_number: usize,
    pub pack_count: usize,
    /// One-based number of the selected level.
    pub level_number: usize,
    /// Levels in the selected pack; zero when the pack does not exist.
    pub level_count: usize,
    /// The selected level exists, is saved as completed and has a positive number.
    pub completed: bool,
}

/// Lexicographic order of strings by code point. Rust orders `str` by its
/// UTF-8 bytes, and UTF-8 preserves the order of code points, so this is the
/// order of `str::cmp`.
pub open spec fn str_le(a: Seq<char>, b: Seq<char>) -> bool
    decreases a.len(),
{
    if a.len() == 0 {
        true
    } else if b.len() == 0 {
        false
    } else if a[0] != b[0] {
        (a[0] as u32) < (b[0] as u32)
    } else {
        str_le(a.drop_first(), b.drop_first())
    }
}

/// Packs in order of their names.
pub open spec fn sorted_by_name(s: Seq<LevelPackInfo>) -> bool {
    forall|i: int, j: int| 0 <= i < j < s.len() ==> str_le(#[trigger] s[i].name@, #[trigger] s[j].name@)
}

/// `after` is `before` rearranged: position `i` of `after` holds the pack
/// at position `perm[i]` of `before`, each position used once, and packs of
/// equal names keep their relative order.
pub open spec fn stable_rearrangement(before: Seq<LevelPackInfo>, after: Seq<LevelPackInfo>, perm: Seq<int>) -> bool {
    &&& after.len() == before.len()
    &&& perm.len() == after.len()
    &&& forall|i: int| 0 <= i < perm.len() ==> 0 <= #[trigger] perm[i] < before.len() && after[i] == before[perm[i]]
    &&& forall|i: int, j: int| 0 <= i < j < perm.len() ==> #[trigger] perm[i] != #[trigger] perm[j]
    &&& forall|i: int, j: int| 0 <= i < j < perm.len() && after[i].name@ == after[j].name@ ==> #[trigger] perm[i] < #[trigger] perm[j]
}

pub open spec fn is_original(p: LevelPackInfo) -> bool {
    p.name@ == "Original"@
}

pub open spec fn has_original(s: Seq<LevelPackInfo>) -> bool {
    exists|i: int| 0 <= i < s.len() && is_original(#[trigger] s[i])
}

/// `(i + n - 1) % n`: the previous index in a ring of `n`.
pub open spec fn wrap_prev(i: int, n: int) -> int {
    (i + n - 1) % n
}

/// `(i + 1) % n`: the next index in a ring of `n`.
pub open spec fn wrap_next(i: int, n: int) -> int {
    (i + 1) % n
}

/// The count used for wrapping: at least one.
pub open spec fn at_least_one(n: int) -> int {
    if n < 1 { 1 } else { n }
}

impl LevelRegistry {
    pub open spec fn pack_count(&self) -> int {
        self.packs@.len() as int
    }

    /// Number of levels of pack `i`, if there is such a pack.
    pub open spec fn spec_level_count(&self, i: int) -> Option<int> {
        if 0 <= i < self.packs@.len() { Some(self.packs@[i].level_numbers@.len() as int) } else { None }
    }

    /// The pack at `index`, if any.
    pub fn pack_by_index(&self, index: usize) -> (p: Option<&LevelPackInfo>)
        ensures
            index < self.packs@.len() ==> p == Some(&self.packs@[index as int]),
            index >= self.packs@.len() ==> p is None,
    {
        if index < self.packs.len() {
            Some(&self.packs[index])
        } else {
            None
        }
    }

    /// Number of levels of pack `index`, if there is such a pack.
    pub fn level_count(&self, index: usize) -> (n: Option<usize>)
        ensures
            n matches Some(k) ==> self.spec_level_count(index as int) == Some(k as int),
            n is None ==> self.spec_level_count(index as int) is None,
    {
        if index < self.packs.len() {
            Some(self.packs[index].level_numbers.len())
        } else {
            None
        }
    }
}

impl LevelSelection {
    /// First level of the first pack.
    pub fn new() -> (s: Self)
        ensures
            s.pack_index == 0,
            s.level_index == 0,
    {
        LevelSelection { pack_index: 0, level_index: 0 }
    }

    /// Number of the selected level, if the selection names an existing level.
    pub fn selected_level(&self, registry: &LevelRegistry) -> (n: Option<u32>)
        ensures
            (self.pack_index < registry.packs@.len()
                && self.level_index < registry.packs@[self.pack_index as int].level_numbers@.len())
                ==> n == Some(registry.packs@[self.pack_index as int].level_numbers@[self.level_index as int]),
            !(self.pack_index < registry.packs@.len()
                && self.level_index < registry.packs@[self.pack_index as int].level_numbers@.len()) ==> n is None,
    {
        match registry.pack_by_index(self.pack_index) {
            Some(pack) => {
                if self.level_index < pack.level_numbers.len() {
                    Some(pack.level_numbers[self.level_index])
                } else {
                    None
                }
            },
            None => None,
        }
    }

    /// Previous pack (wrapping over the pack count, at least one); resets the level.
    pub fn pack_prev(&mut self, registry: &LevelRegistry)
        requires
            old(self).pack_index + at_least_one(registry.pack_count()) <= usize::MAX,
        ensures
            final(self).pack_index == wrap_prev(old(self).pack_index as int, at_least_one(registry.pack_count())),
            final(self).level_index == 0,
    {
        let n = if registry.packs.len() < 1 { 1 } else { registry.packs.len() };
        self.pack_index = (self.pack_index + n - 1) % n;
        self.level_index = 0;
    }

    /// Next pack (wrapping over the pack count, at least one); resets the level.
    pub fn pack_next(&mut self, registry: &LevelRegistry)
        requires
            old(self).pack_index < usize::MAX,
        ensures
            final(self).pack_index == wrap_next(old(self).pack_index as int, at_least_one(registry.pack_count())),
            final(self).level_index == 0,
    {
        let n = if registry.packs.len() < 1 { 1 } else { registry.packs.len() };
        self.pack_index = (self.pack_index + 1) % n;
        self.level_index = 0;
    }

    /// Previous level of the selected pack (wrapping, count at least one);
    /// nothing when the selected pack does not exist.
    pub fn level_prev(&mut self, registry: &LevelRegistry)
        requires
            registry.spec_level_count(old(self).pack_index as int) matches Some(n)
                ==> old(self).level_index + at_least_one(n) <= usize::MAX,
        ensures
            final(self).pack_index == old(self).pack_index,
            final(self).level_index == match registry.spec_level_count(old(self).pack_index as int) {
                Some(n) => wrap_prev(old(self).level_index as int, at_least_one(n)),
                None => old(self).level_index as int,
            },
    {
        match registry.level_count(self.pack_index) {
            Some(count) => {
                let n = if count < 1 { 1 } else { count };
                self.level_index = (self.level_index + n - 1) % n;
            },
            None => {},
        }
    }

    /// Next level of the selected pack (wrapping, count at least one);
    /// nothing when the selected pack does not exist.
    pub fn level_next(&mut self, registry: &LevelRegistry)
        requires
            registry.spec_level_count(old(self).pack_index as int) is Some ==> old(self).level_index < usize::MAX,
        ensures
            final(self).pack_index == old(self).pack_index,
            final(self).level_index == match registry.spec_level_count(old(self).pack_index as int) {
                Some(n) => wrap_next(old(self).level_index as int, at_least_one(n)),
                None => old(self).level_index as int,
            },
    {
        match registry.level_count(self.pack_index) {
            Some(count) => {
                let n = if count < 1 { 1 } else { count };
                self.level_index = (self.level_index + 1) % n;
            },
            None => {},
        }
    }
}

/// Figures of the level-select label; `saved_completed` is what the save
/// file records for the selected level.
pub fn level_select_view(registry: &LevelRegistry, selection: &LevelSelection, saved_completed: bool) -> (v: LevelSelectView)
    requires
        selection.pack_index < usize::MAX,
        selection.level_index < usize::MAX,
    ensures
        v.pack_number == selection.pack_index + 1,
        v.pack_count == registry.packs@.len(),
        v.level_number == selection.level_index + 1,
        v.level_count == match registry.spec_level_count(selection.pack_index as int) { Some(n) => n, None => 0 },
        v.completed == (registry.spec_level_count(selection.pack_index as int) matches Some(n)
            && selection.level_index < n && saved_completed
            && registry.packs@[selection.pack_index as int].level_numbers@[selection.level_index as int] > 0),
{
    let level_count = match registry.level_count(selection.pack_index) {
        Some(n) => n,
        None => 0,
    };
    let completed = match selection.selected_level(registry) {
        Some(number) => saved_completed && number > 0,
        None => false,
    };
    LevelSelectView {
        pack_number: selection.pack_index + 1,
        pack_count: registry.packs.len(),
        level_number: selection.level_index + 1,
        level_count,
        completed,
    }
}

/// Sorts packs by name with the standard library's `slice::sort_by`
/// comparing the `String` names: the same packs, in order of their names,
/// and (the sort being stable) packs of equal names in their former order.
#[verifier::external_body]
fn sort_by_name(packs: &mut Vec<LevelPackInfo>)
    ensures
        final(packs)@.to_multiset() == old(packs)@.to_multiset(),
        sorted_by_name(final(packs)@),
        exists|perm: Seq<int>| stable_rearrangement(old(packs)@, final(packs)@, perm),
{
    packs.sort_by(|a, b| a.name.cmp(&b.name))
}

proof fn lemma_remove_keeps_sorted(s: Seq<LevelPackInfo>, pos: int)
    requires
        sorted_by_name(s),
        0 <= pos < s.len(),
    ensures
        sorted_by_name(s.remove(pos)),
{
    let r = s.remove(pos);
    assert forall|i: int, j: int| 0 <= i < j < r.len() implies str_le(#[trigger] r[i].name@, #[trigger] r[j].name@) by {
        let a = if i < pos { i } else { i + 1 };
        let b = if j < pos { j } else { j + 1 };
        assert(r[i] == s[a]);
        assert(r[j] == s[b]);
    }
}

proof fn lemma_same_multiset_has_original(a: Seq<LevelPackInfo>, b: Seq<LevelPackInfo>)
    requires
        a.to_multiset() == b.to_multiset(),
    ensures
        has_original(a) == has_original(b),
{
    broadcast use vstd::seq_lib::group_to_multiset_ensures;
    if has_original(a) {
        let i = choose|i: int| 0 <= i < a.len() && is_original(#[trigger] a[i]);
        assert(a.contains(a[i]));
        vstd::seq_lib::to_multiset_contains(a, a[i]);
        vstd::seq_lib::to_multiset_contains(b, a[i]);
        assert(b.contains(a[i]));
        let j = choose|j: int| 0 <= j < b.len() && b[j] == a[i];
        assert(is_original(b[j]));
    }
    if has_original(b) {
        let i = choose|i: int| 0 <= i < b.len() && is_original(#[trigger] b[i]);
        assert(b.contains(b[i]));
        vstd::seq_lib::to_multiset_contains(b, b[i]);
        vstd::seq_lib::to_multiset_contains(a, b[i]);
        assert(a.contains(b[i]));
        let j = choose|j: int| 0 <= j < a.len() && a[j] == b[i];
        assert(is_original(a[j]));
    }
}

/// Position of the first pack named `Original`, if any.
fn find_original(packs: &Vec<LevelPackInfo>) -> (pos: Option<usize>)
    ensures
        pos matches Some(p) ==> p < packs@.len() && is_original(packs@[p as int])
            && forall|j: int| 0 <= j < p ==> !is_original(#[trigger] packs@[j]),
        pos is None ==> !has_original(packs@),
{
    let original = "Original".to_owned();
    proof {
        reveal_strlit("Original");
    }
    let mut i: usize = 0;
    while i < packs.len()
        invariant
            i <= packs@.len(),
            original@ == "Original"@,
            forall|j: int| 0 <= j < i ==> !is_original(#[trigger] packs@[j]),
        decreases packs@.len() - i,
    {
        if packs[i].name == original {
            return Some(i);
        }
        i = i + 1;
    }
    None
}

/// Orders packs as GNU Robbo does: alphabetically by name, with the pack
/// named `Original` first.
pub fn sort_packs(packs: &mut Vec<LevelPackInfo>)
    ensures
        final(packs)@.to_multiset() == old(packs)@.to_multiset(),
        !has_original(old(packs)@) ==> sorted_by_name(final(packs)@),
        has_original(old(packs)@) ==> final(packs)@.len() > 0 && is_original(final(packs)@[0])
            && sorted_by_name(final(packs)@.drop_first()),
        exists|perm: Seq<int>| stable_rearrangement(old(packs)@, final(packs)@, perm),
{
    let ghost before = packs@;
    sort_by_name(packs);
    let ghost sorted = packs@;
    let ghost perm = choose|perm: Seq<int>| stable_rearrangement(before, sorted, perm);
    proof {
        lemma_same_multiset_has_original(old(packs)@, sorted);
    }
    match find_original(packs) {
        Some(pos) => {
            if pos != 0 {
                let moved = packs.remove(pos);
                packs.insert(0, moved);
                proof {
                    assert(packs@.drop_first() =~= sorted.remove(pos as int));
                    lemma_remove_keeps_sorted(sorted, pos as int);
                    vstd::seq_lib::to_multiset_remove(sorted, pos as int);
                    vstd::seq_lib::to_multiset_insert(sorted.remove(pos as int), 0, moved);
                    assert(moved == sorted[pos as int]);
                    vstd::seq_lib::to_multiset_contains(sorted, moved);
                    assert(sorted.to_multiset().remove(moved).insert(moved) =~= sorted.to_multiset()) by {
                        broadcast use vstd::multiset::group_multiset_axioms;
                    }
                    lemma_move_first_keeps_stable(before, sorted, perm, pos as int);
                    assert(packs@ =~= seq![sorted[pos as int]] + sorted.remove(pos as int));
                }
            } else {
                proof {
                    assert(packs@.drop_first() =~= sorted.remove(0));
                    lemma_remove_keeps_sorted(sorted, 0);
                    assert(stable_rearrangement(before, packs@, perm));
                }
            }
        },
        None => {
            proof {
                assert(stable_rearrangement(before, packs@, perm));
            }
        },
    }
}

/// Moving the first `Original` of a stably sorted list to the front keeps the
/// rearrangement stable: any other `Original` came after it before sorting.
proof fn lemma_move_first_keeps_stable(before: Seq<LevelPackInfo>, sorted: Seq<LevelPackInfo>, perm: Seq<int>, pos: int)
    requires
        stable_rearrangement(before, sorted, perm),
        0 <= pos < sorted.len(),
        is_original(sorted[pos]),
        forall|j: int| 0 <= j < pos ==> !is_original(#[trigger] sorted[j]),
    ensures
        stable_rearrangement(before, seq![sorted[pos]] + sorted.remove(pos), seq![perm[pos]] + perm.remove(pos)),
{
    let after = seq![sorted[pos]] + sorted.remove(pos);
    let q = seq![perm[pos]] + perm.remove(pos);
    assert forall|i: int| 0 <= i < q.len() implies 0 <= #[trigger] q[i] < before.len() && after[i] == before[q[i]] by {
        if i > 0 {
            let k = if i - 1 < pos { i - 1 } else { i };
            assert(q[i] == perm[k]);
            assert(after[i] == sorted[k]);
        }
    }
    assert forall|i: int, j: int| 0 <= i < j < q.len() implies #[trigger] q[i] != #[trigger] q[j] by {
        let kj = if j - 1 < pos { j - 1 } else { j };
        assert(q[j] == perm[kj]);
        if i == 0 {
            assert(kj != pos);
        } else {
            let ki = if i - 1 < pos { i - 1 } else { i };
            assert(q[i] == perm[ki]);
            assert(ki < kj);
        }
    }
    assert forall|i: int, j: int| 0 <= i < j < q.len() && after[i].name@ == after[j].name@ implies #[trigger] q[i] < #[trigger] q[j] by {
        let kj = if j - 1 < pos { j - 1 } else { j };
        assert(q[j] == perm[kj]);
        assert(after[j] == sorted[kj]);
        if i == 0 {
            assert(is_original(sorted[kj]));
            assert(kj > pos);
        } else {
            let ki = if i - 1 < pos { i - 1 } else { i };
            assert(q[i] == perm[ki]);
            assert(after[i] == sorted[ki]);
            assert(ki < kj);
        }
    }
}

/// Whether pack `i` is the first pack named `name`.
pub open spec fn first_named(reg: LevelRegistry, name: Seq<char>, i: int) -> bool {
    &&& 0 <= i < reg.packs@.len()
    &&& reg.packs@[i].name@ == name
    &&& forall|j: int| 0 <= j < i ==> #[trigger] reg.packs@[j].name@ != name
}

/// Pack and level of the last game: the first pack named as the profile's
/// last pack, at the saved one-based level clamped into the pack; the first
/// level of the first pack when the profile names no pack or no such pack exists.
pub open spec fn spec_resolve_last_level(reg: LevelRegistry, profile: ProfileData) -> LevelSelection {
    if profile.last_pack@.len() > 0 && exists|i: int| first_named(reg, profile.last_pack@, i) {
        let pi = choose|i: int| first_named(reg, profile.last_pack@, i);
        let n = reg.packs@[pi].level_numbers@.len() as int;
        let saved = if profile.last_level == 0 { 0 } else { profile.last_level - 1 };
        let last = if n == 0 { 0 } else { n - 1 };
        LevelSelection { pack_index: pi as usize, level_index: (if saved < last { saved } else { last }) as usize }
    } else {
        LevelSelection { pack_index: 0, level_index: 0 }
    }
}

proof fn lemma_first_named_unique(reg: LevelRegistry, name: Seq<char>, i: int, k: int)
    requires
        first_named(reg, name, i),
        first_named(reg, name, k),
    ensures
        i == k,
{
    if i < k {
        assert(reg.packs@[i].name@ != name);
    } else if k < i {
        assert(reg.packs@[k].name@ != name);
    }
}

/// Restores the pack and level of the last game from the profile.
pub fn resolve_last_level(registry: &LevelRegistry, profile: &ProfileData, selection: &mut LevelSelection)
    ensures
        *final(selection) == spec_resolve_last_level(*registry, *profile),
{
    if !profile.last_pack.as_str().is_empty() {
        let mut i: usize = 0;
        while i < registry.packs.len()
            invariant
                i <= registry.packs@.len(),
                profile.last_pack@.len() > 0,
                forall|j: int| 0 <= j < i ==> #[trigger] registry.packs@[j].name@ != profile.last_pack@,
            decreases registry.packs@.len() - i,
        {
            if registry.packs[i].name == profile.last_pack {
                proof {
                    assert(first_named(*registry, profile.last_pack@, i as int));
                    let pi = choose|k: int| first_named(*registry, profile.last_pack@, k);
                    lemma_first_named_unique(*registry, profile.last_pack@, i as int, pi);
                }
                selection.pack_index = i;
                let saved: usize = if profile.last_level == 0 { 0 } else { (profile.last_level - 1) as usize };
                let count = registry.packs[i].level_numbers.len();
                let last = if count == 0 { 0 } else { count - 1 };
                selection.level_index = if saved < last { saved } else { last };
                return;
            }
            i = i + 1;
        }
        assert(!exists|k: int| first_named(*registry, profile.last_pack@, k));
    }
    selection.pack_index = 0;
    selection.level_index = 0;
}

proof fn lemma_wrap_values(i: int, n: int)
    requires
        0 <= i < n,
    ensures
        wrap_next(i, n) == if i + 1 < n { i + 1 } else { 0 },
        wrap_prev(i, n) == if i == 0 { n - 1 } else { i - 1 },
{
    if i + 1 < n {
        vstd::arithmetic::div_mod::lemma_small_mod((i + 1) as nat, n as nat);
    } else {
        vstd::arithmetic::div_mod::lemma_mod_self_0(n);
    }
    if i == 0 {
        vstd::arithmetic::div_mod::lemma_small_mod((n - 1) as nat, n as nat);
    } else {
        vstd::arithmetic::div_mod::lemma_mod_add_multiples_vanish(i - 1, n);
        vstd::arithmetic::div_mod::lemma_small_mod((i - 1) as nat, n as nat);
    }
}

/// Pack and level navigation stays inside the ring of `n` entries and is
/// reversible: the next entry's previous one, and the previous entry's
/// next one, are where the selection started.
pub proof fn law_selection_wraps(i: int, n: int)
    requires
        0 <= i < n,
    ensures
        0 <= wrap_next(i, n) < n,
        0 <= wrap_prev(i, n) < n,
        wrap_prev(wrap_next(i, n), n) == i,
        wrap_next(wrap_prev(i, n), n) == i,
{
    lemma_wrap_values(i, n);
    lemma_wrap_values(wrap_next(i, n), n);
    lemma_wrap_values(wrap_prev(i, n), n);
}

} // verus!
