//! A pass that deletes one section, located by a logical selector.

use vstd::prelude::*;

use crate::module::{Module, ModuleSection, SectionView};
use crate::{ModuleError, ModuleTranslator};

verus! {

/// A logical description of which section to remove.
///
/// A selector is resolved against a specific module snapshot at call time; it
/// is not a persistent handle.
pub enum DropSection {
    /// The first debug-name section.
    NamesSection,
    /// The first custom section with exactly this name.
    CustomSectionByName(String),
    /// A custom section at this raw index, taken verbatim.
    CustomSectionByIndex(usize),
    /// An unknown section at this raw index, taken verbatim.
    UnknownSectionByIndex(usize),
}

/// Whether the section carries the given custom-section name.
pub open spec fn is_custom_named(s: SectionView, name: Seq<char>) -> bool {
    s matches SectionView::Custom { name: n, .. } && n == name
}

impl DropSection {
    /// Whether this selector resolves to index `i` on the given snapshot:
    /// for the by-kind and by-name selectors, `i` is the first match in index
    /// order; for the raw-index selectors, `i` is the index given, unvalidated.
    pub open spec fn resolves_to(&self, ss: Seq<SectionView>, i: int) -> bool {
        match self {
            DropSection::NamesSection => 0 <= i < ss.len() && ss[i] is Name && (forall|j: int|
                0 <= j < i ==> !(ss[j] is Name)),
            DropSection::CustomSectionByName(name) => 0 <= i < ss.len() && is_custom_named(
                ss[i],
                name@,
            ) && (forall|j: int| 0 <= j < i ==> !is_custom_named(ss[j], name@)),
            DropSection::CustomSectionByIndex(index) => i == *index,
            DropSection::UnknownSectionByIndex(index) => i == *index,
        }
    }

    /// Whether this selector resolves to "not found" on the given snapshot.
    /// Only the by-kind and by-name selectors can; a raw index always
    /// resolves.
    pub open spec fn resolves_none(&self, ss: Seq<SectionView>) -> bool {
        match self {
            DropSection::NamesSection => forall|j: int| 0 <= j < ss.len() ==> !(ss[j] is Name),
            DropSection::CustomSectionByName(name) => forall|j: int|
                0 <= j < ss.len() ==> !is_custom_named(ss[j], name@),
            DropSection::CustomSectionByIndex(_) => false,
            DropSection::UnknownSectionByIndex(_) => false,
        }
    }

    /// The index this selector resolves to, if any.
    pub open spec fn spec_resolve(&self, ss: Seq<SectionView>) -> Option<int> {
        if exists|i: int| self.resolves_to(ss, i) {
            Some(choose|i: int| self.resolves_to(ss, i))
        } else {
            None
        }
    }

    /// The outcome of the removal on a snapshot: `Ok(None)` for the benign
    /// "not found" no-op, `Ok(Some(..))` for the shrunk section sequence, and
    /// an out-of-bounds rejection for a raw index past the end.
    pub open spec fn spec_drop(&self, ss: Seq<SectionView>) -> Result<
        Option<Seq<SectionView>>,
        ModuleError,
    > {
        match self.spec_resolve(ss) {
            Option::None => Ok(Option::None),
            Option::Some(i) => if 0 <= i < ss.len() {
                Ok(Option::Some(ss.remove(i)))
            } else {
                Err(ModuleError::OutOfBounds)
            },
        }
    }

    /// A selector resolves to at most one index.
    proof fn lemma_resolve_unique(&self, ss: Seq<SectionView>, i: int, j: int)
        requires
            self.resolves_to(ss, i),
            self.resolves_to(ss, j),
        ensures
            i == j,
    {
    }

    /// An index a selector resolves to is the one `spec_resolve` yields.
    proof fn lemma_resolve_some(&self, ss: Seq<SectionView>, i: int)
        requires
            self.resolves_to(ss, i),
        ensures
            self.spec_resolve(ss) == Some(i),
    {
        let c = choose|k: int| self.resolves_to(ss, k);
        self.lemma_resolve_unique(ss, c, i);
    }

    /// "Not found" and a resolved index exclude each other.
    proof fn lemma_resolve_none(&self, ss: Seq<SectionView>)
        requires
            self.resolves_none(ss),
        ensures
            self.spec_resolve(ss) is None,
    {
        if exists|i: int| self.resolves_to(ss, i) {
            let i = choose|i: int| self.resolves_to(ss, i);
            assert(!self.resolves_to(ss, i));
        }
    }
}

/// Index of the first debug-name section, if any.
fn names_section_index_for(module: &Module) -> (r: Option<usize>)
    ensures
        match r {
            Some(i) => DropSection::NamesSection.resolves_to(module@, i as int),
            None => DropSection::NamesSection.resolves_none(module@),
        },
{
    let n = module.sections.len();
    let mut i: usize = 0;
    while i < n
        invariant
            i <= n,
            n == module.sections@.len(),
            forall|j: int| 0 <= j < i ==> !(module@[j] is Name),
        decreases n - i,
    {
        if let ModuleSection::Name(_) = &module.sections[i] {
            assert(module@[i as int] is Name);
            return Some(i);
        }
        i = i + 1;
    }
    None
}

/// Index of the first custom section named exactly `name`, if any.
fn custom_section_index_for(module: &Module, name: &String) -> (r: Option<usize>)
    ensures
        match r {
            Some(i) => DropSection::CustomSectionByName(*name).resolves_to(module@, i as int),
            None => DropSection::CustomSectionByName(*name).resolves_none(module@),
        },
{
    let n = module.sections.len();
    let mut i: usize = 0;
    while i < n
        invariant
            i <= n,
            n == module.sections@.len(),
            forall|j: int| 0 <= j < i ==> !is_custom_named(module@[j], name@),
        decreases n - i,
    {
        if let ModuleSection::Custom { name: section_name, .. } = &module.sections[i] {
            if *section_name == *name {
                assert(is_custom_named(module@[i as int], name@));
                return Some(i);
            }
        }
        assert(!is_custom_named(module@[i as int], name@));
        i = i + 1;
    }
    None
}

impl DropSection {
    /// Resolves this selector on a snapshot of the module.
    fn find_index(&self, module: &Module) -> (r: Option<usize>)
        ensures
            match r {
                Some(i) => self.resolves_to(module@, i as int),
                None => self.resolves_none(module@),
            },
    {
        match self {
            DropSection::NamesSection => names_section_index_for(module),
            DropSection::CustomSectionByName(name) => custom_section_index_for(module, name),
            DropSection::CustomSectionByIndex(index) => Some(*index),
            DropSection::UnknownSectionByIndex(index) => Some(*index),
        }
    }

    /// Resolves the selector and removes the located section.
    fn drop_section(&self, module: &mut Module) -> (r: Result<bool, ModuleError>)
        ensures
            match self.spec_drop(old(module)@) {
                Ok(opt) => match opt {
                    Option::None => r == Ok::<bool, ModuleError>(false) && final(module)@ == old(
                        module,
                    )@,
                    Option::Some(ss) => r == Ok::<bool, ModuleError>(true) && final(module)@ == ss,
                },
                Err(e) => r == Err::<bool, ModuleError>(e) && final(module)@ == old(module)@,
            },
    {
        let index = match self.find_index(module) {
            Some(i) => i,
            None => {
                proof {
                    self.lemma_resolve_none(old(module)@);
                }
                return Ok(false);
            },
        };
        proof {
            self.lemma_resolve_some(old(module)@, index as int);
        }
        if index >= module.sections.len() {
            return Err(ModuleError::OutOfBounds);
        }
        let ghost pre = module.sections@;
        module.sections.remove(index);
        proof {
            assert(module.sections@ == pre.remove(index as int));
            assert forall|k: int| 0 <= k < module@.len() implies module@[k] == old(module)@.remove(
                index as int,
            )[k] by {
                if k < index {
                } else {
                    assert(module.sections@[k] == pre[k + 1]);
                }
            }
            assert(module@ =~= old(module)@.remove(index as int));
        }
        Ok(true)
    }
}

impl ModuleTranslator for DropSection {
    open spec fn translate_inplace_post(
        &self,
        pre: Seq<SectionView>,
        post: Seq<SectionView>,
        r: Result<bool, ModuleError>,
    ) -> bool {
        match self.spec_drop(pre) {
            Ok(opt) => match opt {
                Option::None => r == Ok::<bool, ModuleError>(false) && post == pre,
                Option::Some(ss) => r == Ok::<bool, ModuleError>(true) && post == ss,
            },
            Err(e) => r == Err::<bool, ModuleError>(e) && post == pre,
        }
    }

    open spec fn translate_post(
        &self,
        pre: Seq<SectionView>,
        r: Result<Option<Module>, ModuleError>,
    ) -> bool {
        match self.spec_drop(pre) {
            Ok(opt) => match opt {
                Option::None => r matches Ok(o) && o is None,
                Option::Some(ss) => r matches Ok(o) && o matches Some(m) && m@ == ss,
            },
            Err(e) => r matches Err(e2) && e2 == e,
        }
    }

    /// Resolves and removes directly on the caller's module; `Ok(false)` only
    /// for the benign case where resolution reports "not found".
    fn translate_inplace(&self, module: &mut Module) -> (r: Result<bool, ModuleError>) {
        self.drop_section(module)
    }

    /// Clones the module, applies the in-place removal to the clone, and
    /// returns the clone only when it reports a change.
    fn translate(&self, module: &Module) -> (r: Result<Option<Module>, ModuleError>) {
        let mut ret = module.clone();
        match self.drop_section(&mut ret) {
            Ok(true) => Ok(Some(ret)),
            Ok(false) => Ok(None),
            Err(e) => Err(e),
        }
    }
}

/// No-op invariance: a selector that resolves to "not found" never changes
/// anything.  The removal's outcome is the benign no-op, so the in-place
/// entry point must report `Ok(false)` and leave the sections untouched, and
/// the copying entry point must return `Ok(None)`.
pub proof fn lemma_noop_invariance(sel: &DropSection, ss: Seq<SectionView>)
    requires
        sel.resolves_none(ss),
    ensures
        sel.spec_drop(ss) == Ok::<Option<Seq<SectionView>>, ModuleError>(Option::None),
        forall|post: Seq<SectionView>, r: Result<bool, ModuleError>|
            #[trigger] sel.translate_inplace_post(ss, post, r) ==> r == Ok::<bool, ModuleError>(
                false,
            ) && post == ss,
        forall|r: Result<Option<Module>, ModuleError>|
            #[trigger] sel.translate_post(ss, r) ==> (r matches Ok(o) && o is None),
{
    sel.lemma_resolve_none(ss);
}

/// Removal shrinks by exactly one: where the selector resolves to a valid
/// index, the outcome holds exactly one section fewer; every section before
/// the index is unchanged, and every section after it reappears one place
/// down, unchanged.
pub proof fn lemma_removal_shrinks_by_one(sel: &DropSection, ss: Seq<SectionView>, idx: int)
    requires
        sel.resolves_to(ss, idx),
        0 <= idx < ss.len(),
    ensures
        (sel.spec_drop(ss) matches Ok(o) && o == Some(ss.remove(idx))),
        ss.remove(idx).len() == ss.len() - 1,
        forall|j: int| 0 <= j < idx ==> ss.remove(idx)[j] == ss[j],
        forall|k: int| idx < k < ss.len() ==> ss.remove(idx)[k - 1] == ss[k],
{
    sel.lemma_resolve_some(ss, idx);
}

/// Out-of-bounds rejection: a raw-index selector past the current section
/// count fails with `OutOfBounds`, and the entry points leave the module
/// unmodified.
pub proof fn lemma_out_of_bounds_rejected(sel: &DropSection, ss: Seq<SectionView>, idx: int)
    requires
        sel.resolves_to(ss, idx),
        idx >= ss.len(),
    ensures
        sel.spec_drop(ss) == Err::<Option<Seq<SectionView>>, ModuleError>(ModuleError::OutOfBounds),
        forall|post: Seq<SectionView>, r: Result<bool, ModuleError>|
            #[trigger] sel.translate_inplace_post(ss, post, r) ==> post == ss && r == Err::<
                bool,
                ModuleError,
            >(ModuleError::OutOfBounds),
        forall|r: Result<Option<Module>, ModuleError>|
            #[trigger] sel.translate_post(ss, r) ==> (r matches Err(e) && e
                == ModuleError::OutOfBounds),
{
    sel.lemma_resolve_some(ss, idx);
}

/// Copy/in-place equivalence: on the same input sections, any outcomes the
/// two entry points admit agree — a change in one mode is a change in the
/// other with the same resulting sections, and errors coincide — modulo the
/// "no change" representation (`Ok(None)` against `Ok(false)`).
pub proof fn lemma_copy_inplace_equivalence(
    sel: &DropSection,
    ss: Seq<SectionView>,
    post: Seq<SectionView>,
    r_inplace: Result<bool, ModuleError>,
    r_copy: Result<Option<Module>, ModuleError>,
)
    requires
        sel.translate_inplace_post(ss, post, r_inplace),
        sel.translate_post(ss, r_copy),
    ensures
        r_inplace == Ok::<bool, ModuleError>(true) <==> (r_copy matches Ok(o) && o is Some),
        r_inplace == Ok::<bool, ModuleError>(false) <==> (r_copy matches Ok(o) && o is None),
        (r_inplace matches Ok(changed) && changed) ==> (r_copy matches Ok(o) && o matches Some(m)
            && m@ == post),
        r_inplace matches Err(e) ==> (r_copy matches Err(e2) && e2 == e),
{
}

} // verus!
