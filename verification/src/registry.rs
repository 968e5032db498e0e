//! The container registry.
//!
//! While the tree is walked, every node that declares a container attachment
//! point is recorded here under its discriminant.  A discriminant may be
//! registered at most once; the entries keep their registration order, so the
//! capability-trait synthesizer reads them deterministically.

use vstd::prelude::*;
use crate::ast::{Discriminant, TypePath, WidgetNode, disc_view};
use crate::error::CompileError;

verus! {

/// One registered attachment point.
#[derive(Clone, PartialEq, Eq, Debug)]
pub struct RegistryEntry {
    pub discriminant: Discriminant,
    pub widget_name: String,
    pub widget_type: TypePath,
}

/// The model of a registered attachment point.
pub struct EntryV {
    pub discriminant: Option<Seq<char>>,
    pub widget_name: Seq<char>,
    pub widget_type: Seq<Seq<char>>,
}

/// The model of one registered attachment point.
pub open spec fn entry_view(e: RegistryEntry) -> EntryV {
    EntryV {
        discriminant: disc_view(e.discriminant),
        widget_name: e.widget_name@,
        widget_type: e.widget_type.view_segments(),
    }
}

/// Whether some entry carries the given discriminant.
pub open spec fn has_key(s: Seq<EntryV>, k: Option<Seq<char>>) -> bool {
    exists|i: int| 0 <= i < s.len() && (#[trigger] s[i]).discriminant == k
}

/// Whether all entries carry pairwise distinct discriminants.
pub open spec fn unique_keys(s: Seq<EntryV>) -> bool {
    forall|i: int, j: int|
        0 <= i < j < s.len() ==> (#[trigger] s[i]).discriminant != (#[trigger] s[j]).discriminant
}

/// Appending an entry keeps the discriminants distinct exactly when they were
/// distinct and the appended discriminant is new.
pub proof fn lemma_unique_push(s: Seq<EntryV>, e: EntryV)
    ensures
        unique_keys(s.push(e)) <==> (unique_keys(s) && !has_key(s, e.discriminant)),
{
    if unique_keys(s) && !has_key(s, e.discriminant) {
        assert forall|i: int, j: int| 0 <= i < j < s.push(e).len() implies (#[trigger] s.push(
            e,
        )[i]).discriminant != (#[trigger] s.push(e)[j]).discriminant by {
            if j < s.len() {
                assert(s.push(e)[i] == s[i] && s.push(e)[j] == s[j]);
            } else {
                assert(s.push(e)[j] == e && s.push(e)[i] == s[i]);
            }
        }
    }
    if unique_keys(s.push(e)) {
        assert forall|i: int, j: int| 0 <= i < j < s.len() implies (#[trigger] s[i]).discriminant
            != (#[trigger] s[j]).discriminant by {
            assert(s.push(e)[i] == s[i] && s.push(e)[j] == s[j]);
        }
        assert forall|i: int| 0 <= i < s.len() implies (#[trigger] s[i]).discriminant
            != e.discriminant by {
            assert(s.push(e)[i] == s[i] && s.push(e)[s.len() as int] == e);
        }
    }
}

/// Distinct discriminants in a whole sequence are distinct in any prefix of it.
pub proof fn lemma_unique_prefix(a: Seq<EntryV>, b: Seq<EntryV>)
    ensures
        unique_keys(a + b) ==> unique_keys(a),
{
    if unique_keys(a + b) {
        assert forall|i: int, j: int| 0 <= i < j < a.len() implies (#[trigger] a[i]).discriminant
            != (#[trigger] a[j]).discriminant by {
            assert((a + b)[i] == a[i] && (a + b)[j] == a[j]);
        }
    }
}

/// Whether two discriminants are the same attachment point.
pub fn disc_eq(a: &Discriminant, b: &Discriminant) -> (r: bool)
    ensures
        r == (disc_view(*a) == disc_view(*b)),
{
    match (a, b) {
        (Discriminant::DefaultSlot, Discriminant::DefaultSlot) => true,
        (Discriminant::Named(x), Discriminant::Named(y)) => *x == *y,
        _ => false,
    }
}

/// The attachment points discovered while walking the tree, in registration
/// order and with pairwise distinct discriminants.
pub struct ContainerRegistry {
    pub entries: Vec<RegistryEntry>,
}

impl ContainerRegistry {
    /// The model of the registry: its entries in registration order.
    pub open spec fn view_entries(self) -> Seq<EntryV> {
        self.entries@.map_values(|e: RegistryEntry| entry_view(e))
    }

    /// The registry's invariant: pairwise distinct discriminants.
    pub open spec fn wf(self) -> bool {
        unique_keys(self.view_entries())
    }

    /// An empty registry.
    pub fn new() -> (r: ContainerRegistry)
        ensures
            r.view_entries() == Seq::<EntryV>::empty(),
            r.wf(),
    {
        let r = ContainerRegistry { entries: Vec::new() };
        proof {
            assert(r.view_entries() =~= Seq::<EntryV>::empty());
        }
        r
    }

    /// How many attachment points are registered.
    pub fn len(&self) -> (n: usize)
        ensures
            n == self.view_entries().len(),
    {
        self.entries.len()
    }

    /// Whether an attachment point with this discriminant is registered.
    pub fn contains(&self, d: &Discriminant) -> (r: bool)
        ensures
            r == has_key(self.view_entries(), disc_view(*d)),
    {
        let mut i: usize = 0;
        while i < self.entries.len()
            invariant
                i <= self.entries@.len(),
                forall|k: int|
                    0 <= k < i ==> (#[trigger] self.view_entries()[k]).discriminant != disc_view(
                        *d,
                    ),
            decreases self.entries@.len() - i,
        {
            if disc_eq(&self.entries[i].discriminant, d) {
                assert(self.view_entries()[i as int].discriminant == disc_view(*d));
                return true;
            }
            i = i + 1;
        }
        false
    }

    /// Record an attachment point.  Fails, leaving the registry unchanged,
    /// exactly when its discriminant is already registered.
    pub fn register(&mut self, e: RegistryEntry) -> (r: Result<(), CompileError>)
        ensures
            match r {
                Ok(()) => {
                    &&& !has_key(old(self).view_entries(), disc_view(e.discriminant))
                    &&& final(self).view_entries() == old(self).view_entries().push(entry_view(e))
                },
                Err(err) => {
                    &&& has_key(old(self).view_entries(), disc_view(e.discriminant))
                    &&& final(self).view_entries() == old(self).view_entries()
                    &&& err == CompileError::DuplicateContainerDiscriminant(e.discriminant)
                },
            },
            old(self).wf() && r is Ok ==> final(self).wf(),
    {
        if self.contains(&e.discriminant) {
            Err(CompileError::DuplicateContainerDiscriminant(e.discriminant))
        } else {
            let ghost oldview = self.view_entries();
            let ghost ev = entry_view(e);
            self.entries.push(e);
            proof {
                assert(self.view_entries() =~= oldview.push(ev));
                if unique_keys(oldview) {
                    lemma_unique_push(oldview, ev);
                }
            }
            Ok(())
        }
    }

    /// Every registered attachment point, in registration order.
    pub fn all_entries(&self) -> (r: &Vec<RegistryEntry>)
        ensures
            r@.map_values(|e: RegistryEntry| entry_view(e)) == self.view_entries(),
    {
        &self.entries
    }

    /// The default attachment point, when one is registered.
    pub fn default_entry(&self) -> (r: Option<&RegistryEntry>)
        ensures
            match r {
                Some(e) => exists|i: int|
                    0 <= i < self.view_entries().len() && #[trigger] self.view_entries()[i]
                        == entry_view(*e) && self.view_entries()[i].discriminant is None,
                None => !has_key(self.view_entries(), None),
            },
    {
        let mut i: usize = 0;
        while i < self.entries.len()
            invariant
                i <= self.entries@.len(),
                forall|k: int|
                    0 <= k < i ==> (#[trigger] self.view_entries()[k]).discriminant is Some,
            decreases self.entries@.len() - i,
        {
            match &self.entries[i].discriminant {
                Discriminant::DefaultSlot => {
                    assert(self.view_entries()[i as int] == entry_view(self.entries@[i as int]));
                    return Some(&self.entries[i]);
                },
                Discriminant::Named(_) => {
                    assert(self.view_entries()[i as int].discriminant is Some);
                },
            }
            i = i + 1;
        }
        None
    }
}

/// The attachment point one node declares, as registry entries: one entry
/// when its discriminant is set, none otherwise.
pub open spec fn own_entry(w: WidgetNode) -> Seq<EntryV> {
    match w.container_discriminant {
        None => Seq::empty(),
        Some(d) => seq![
            EntryV {
                discriminant: disc_view(d),
                widget_name: w.name@,
                widget_type: w.type_reference.view_segments(),
            },
        ],
    }
}

/// The attachment points of the whole tree in walk order: a node's own entry,
/// then its children's, leaves of earlier children first.
pub open spec fn discs_of(w: WidgetNode) -> Seq<EntryV>
    decreases w,
{
    own_entry(w) + discs_of_seq(w.children@)
}

/// The attachment points of a forest, in order.
pub open spec fn discs_of_seq(cs: Seq<WidgetNode>) -> Seq<EntryV>
    decreases cs,
{
    if cs.len() == 0 {
        Seq::empty()
    } else {
        discs_of(cs[0]) + discs_of_seq(cs.drop_first())
    }
}

/// A forest's attachment points split at its first tree.
pub proof fn lemma_discs_take(cs: Seq<WidgetNode>, i: int)
    requires
        0 <= i < cs.len(),
    ensures
        discs_of_seq(cs.take(i + 1)) == discs_of_seq(cs.take(i)) + discs_of(cs[i]),
    decreases cs.len(),
{
    if i == 0 {
        reveal_with_fuel(discs_of_seq, 2);
        assert(cs.take(1).drop_first() =~= Seq::<WidgetNode>::empty());
        assert(cs.take(1)[0] == cs[0]);
        assert(discs_of_seq(cs.take(1)) =~= discs_of(cs[0]));
        assert(cs.take(0) =~= Seq::<WidgetNode>::empty());
        assert(discs_of_seq(cs.take(0)) + discs_of(cs[0]) =~= discs_of(cs[0]));
    } else {
        lemma_discs_take(cs.drop_first(), i - 1);
        assert(cs.take(i + 1).drop_first() =~= cs.drop_first().take(i));
        assert(cs.take(i).drop_first() =~= cs.drop_first().take(i - 1));
        assert(cs.take(i + 1)[0] == cs[0]);
        assert(cs.take(i)[0] == cs[0]);
        assert(cs.drop_first()[i - 1] == cs[i]);
        assert(discs_of_seq(cs.take(i + 1)) =~= discs_of_seq(cs.take(i)) + discs_of(cs[i]));
    }
}

/// Register every attachment point of the tree, in walk order.  Fails exactly
/// when the tree repeats a discriminant already seen, with
/// `DuplicateContainerDiscriminant`; the registry then holds the entries
/// registered before the repetition.
pub fn register_tree(reg: &mut ContainerRegistry, w: &WidgetNode) -> (r: Result<(), CompileError>)
    requires
        old(reg).wf(),
    ensures
        r is Ok <==> unique_keys(old(reg).view_entries() + discs_of(*w)),
        r is Ok ==> final(reg).view_entries() == old(reg).view_entries() + discs_of(*w)
            && final(reg).wf(),
        r is Err ==> r matches Err(CompileError::DuplicateContainerDiscriminant(_)),
    decreases *w,
{
    let ghost base = reg.view_entries();
    match &w.container_discriminant {
        Some(d) => {
            let e = RegistryEntry {
                discriminant: crate::ast::clone_disc(d),
                widget_name: w.name.clone(),
                widget_type: crate::ast::clone_type_path(&w.type_reference),
            };
            proof {
                assert(entry_view(e) == own_entry(*w)[0]);
            }
            match reg.register(e) {
                Ok(()) => {
                    proof {
                        assert(reg.view_entries() =~= base + own_entry(*w));
                    }
                },
                Err(err) => {
                    proof {
                        lemma_unique_push(base, own_entry(*w)[0]);
                        assert(base.push(own_entry(*w)[0]) =~= base + own_entry(*w));
                        lemma_unique_prefix(base + own_entry(*w), discs_of_seq(w.children@));
                        assert(base + own_entry(*w) + discs_of_seq(w.children@) =~= base
                            + discs_of(*w));
                        assert(!unique_keys(base + discs_of(*w)));
                    }
                    return Err(err);
                },
            }
        },
        None => {
            proof {
                assert(reg.view_entries() =~= base + own_entry(*w));
            }
        },
    }
    let mut i: usize = 0;
    while i < w.children.len()
        invariant
            i <= w.children@.len(),
            reg.wf(),
            base == old(reg).view_entries(),
            reg.view_entries() == base + own_entry(*w) + discs_of_seq(w.children@.take(i as int)),
        decreases w.children@.len() - i,
    {
        let ghost before = reg.view_entries();
        match register_tree(reg, &w.children[i]) {
            Ok(()) => {
                proof {
                    lemma_discs_take(w.children@, i as int);
                    assert(reg.view_entries() =~= base + own_entry(*w) + discs_of_seq(
                        w.children@.take(i + 1),
                    ));
                }
            },
            Err(err) => {
                proof {
                    lemma_discs_take(w.children@, i as int);
                    assert(!unique_keys(before + discs_of(w.children@[i as int])));
                    assert(base + discs_of(*w) == base + own_entry(*w) + discs_of_seq(
                        w.children@,
                    )) by {
                        assert(base + (own_entry(*w) + discs_of_seq(w.children@)) =~= base
                            + own_entry(*w) + discs_of_seq(w.children@));
                    }
                    lemma_discs_split(w.children@, i as int);
                    assert(before + discs_of(w.children@[i as int]) + discs_rest(
                        w.children@,
                        i as int,
                    ) =~= base + discs_of(*w));
                    lemma_unique_prefix(
                        before + discs_of(w.children@[i as int]),
                        discs_rest(w.children@, i as int),
                    );
                    assert(!unique_keys(
                        before + discs_of(w.children@[i as int]) + discs_rest(
                            w.children@,
                            i as int,
                        ),
                    ));
                    assert(!unique_keys(base + discs_of(*w)));
                }
                return Err(err);
            },
        }
        i = i + 1;
    }
    proof {
        assert(w.children@.take(w.children@.len() as int) =~= w.children@);
        assert(reg.view_entries() =~= base + discs_of(*w)) by {
            assert(base + (own_entry(*w) + discs_of_seq(w.children@)) =~= base + own_entry(*w)
                + discs_of_seq(w.children@));
        }
    }
    Ok(())
}

/// The attachment points of the trees of a forest from position `i` on.
pub open spec fn discs_rest(cs: Seq<WidgetNode>, i: int) -> Seq<EntryV> {
    discs_of_seq(cs.skip(i + 1))
}

/// A forest's attachment points split around position `i`.
pub proof fn lemma_discs_split(cs: Seq<WidgetNode>, i: int)
    requires
        0 <= i < cs.len(),
    ensures
        discs_of_seq(cs) == discs_of_seq(cs.take(i)) + discs_of(cs[i]) + discs_rest(cs, i),
    decreases cs.len(),
{
    if i == 0 {
        assert(cs.take(0) =~= Seq::<WidgetNode>::empty());
        assert(cs.skip(1) =~= cs.drop_first());
        assert(discs_of_seq(cs.take(0)) + discs_of(cs[0]) + discs_rest(cs, 0) =~= discs_of(cs[0])
            + discs_of_seq(cs.drop_first()));
    } else {
        lemma_discs_split(cs.drop_first(), i - 1);
        assert(cs.drop_first().take(i - 1) =~= cs.take(i).drop_first());
        assert(cs.drop_first().skip(i) =~= cs.skip(i + 1));
        assert(cs.drop_first()[i - 1] == cs[i]);
        assert(cs.take(i)[0] == cs[0]);
        assert(discs_of_seq(cs) =~= discs_of_seq(cs.take(i)) + discs_of(cs[i]) + discs_rest(
            cs,
            i,
        ));
    }
}

} // verus!
