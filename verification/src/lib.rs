//! A pluggable transformation pipeline for binary bytecode modules.
//!
//! A module is an ordered sequence of typed sections.  A *pass* transforms a
//! module, either by producing a fresh copy or by mutating it in place; the
//! two entry points form the [`ModuleTranslator`] capability.  Passes with a
//! small enumerated configuration space are built from a short textual key
//! through [`ModulePreset`].

use vstd::prelude::*;

pub mod binaryenopt;
pub mod dropsection;
pub mod module;

use crate::module::{Module, SectionView};

verus! {

/// The failure surface of a pass.
///
/// "Not found" during section resolution is *not* an error: it is surfaced as
/// "no change" (`Ok(false)` / `Ok(None)`) by the pass entry points.
#[derive(Debug, PartialEq, Eq)]
pub enum ModuleError {
    /// The pass was invoked in a mode it does not implement.
    NotSupported,
    /// An explicit index selector referenced a section that does not exist.
    OutOfBounds,
    /// The module codec failed on data this library itself produced or was
    /// trusted to receive; indicates an invariant violation, not a normal
    /// user-facing condition.
    Codec(String),
    /// The external optimization engine rejected its input.
    Backend(String),
}

/// A pass over a module: the capability interface every concrete pass
/// implements.
///
/// Each implementor fixes the meaning of its two entry points through the two
/// spec functions, so a caller holding any `ModuleTranslator` knows exactly
/// how the returned value and the module relate.
pub trait ModuleTranslator {
    /// Relates the module's sections before and after an in-place run to the
    /// returned value.
    spec fn translate_inplace_post(
        &self,
        pre: Seq<SectionView>,
        post: Seq<SectionView>,
        r: Result<bool, ModuleError>,
    ) -> bool;

    /// Relates the input module's sections to the result of a copying run.
    spec fn translate_post(&self, pre: Seq<SectionView>, r: Result<Option<Module>, ModuleError>) -> bool;

    /// Mutates `module` directly; returns `true` iff a change was made.
    ///
    /// A pass may refuse this mode altogether with `ModuleError::NotSupported`.
    fn translate_inplace(&self, module: &mut Module) -> (r: Result<bool, ModuleError>)
        ensures
            self.translate_inplace_post(old(module)@, final(module)@, r),
    ;

    /// Never mutates its input; returns `None` when nothing would change,
    /// else a full independent copy with the transformation applied.
    fn translate(&self, module: &Module) -> (r: Result<Option<Module>, ModuleError>)
        ensures
            self.translate_post(module@, r),
    ;
}

/// Construction of a fully parameterized pass from a short textual key.
///
/// An unknown key fails with `Err(())`; this is the only validation performed
/// and it never inspects any module.
pub trait ModulePreset: Sized {
    /// Relates the key to the constructed pass (or to the rejection).
    spec fn preset_post(s: Seq<char>, r: Result<Self, ()>) -> bool;

    fn with_preset(preset: &str) -> (r: Result<Self, ()>)
        ensures
            Self::preset_post(preset@, r),
    ;
}

} // verus!
