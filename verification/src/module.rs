//! The module model: an ordered sequence of typed sections.
//!
//! The section kinds this library's passes read — custom sections with their
//! name and payload, the debug-name section, raw unknown sections — are held
//! as plain values.  Every other standard section kind is opaque to the
//! passes: it is carried through unchanged as a `parity_wasm` value, and only
//! the external codec ever looks inside it.

use vstd::prelude::*;
use vstd::string::StrSliceExecFns;

use parity_wasm::elements as pw;

use crate::ModuleError;

verus! {

#[verifier::external_type_specification]
#[verifier::external_body]
pub struct ExPwSection(parity_wasm::elements::Section);

#[verifier::external_type_specification]
#[verifier::external_body]
pub struct ExPwNameSection(parity_wasm::elements::NameSection);

/// One section of a module.
///
/// Two custom sections may share a name; selection by name is resolved to the
/// first match in index order.
#[derive(Debug)]
pub enum ModuleSection {
    /// A custom section (`id = 0`) with its name and raw payload.
    Custom { name: String, payload: Vec<u8> },
    /// The debug-name section.  Its contents are opaque to the passes.
    Name(parity_wasm::elements::NameSection),
    /// A section with an unknown id and its raw payload.
    Unknown { id: u8, payload: Vec<u8> },
    /// Any other standard section kind, carried through opaquely.
    Standard(parity_wasm::elements::Section),
}

/// The mathematical value of a [`ModuleSection`]: text and bytes become sequences,
/// the opaque kinds keep their carried value.
pub enum SectionView {
    Custom { name: Seq<char>, payload: Seq<u8> },
    Name(parity_wasm::elements::NameSection),
    Unknown { id: u8, payload: Seq<u8> },
    Standard(parity_wasm::elements::Section),
}

impl View for ModuleSection {
    type V = SectionView;

    open spec fn view(&self) -> SectionView {
        match self {
            ModuleSection::Custom { name, payload } => SectionView::Custom {
                name: name@,
                payload: payload@,
            },
            ModuleSection::Name(ns) => SectionView::Name(*ns),
            ModuleSection::Unknown { id, payload } => SectionView::Unknown {
                id: *id,
                payload: payload@,
            },
            ModuleSection::Standard(s) => SectionView::Standard(*s),
        }
    }
}

/// An ordered sequence of sections forming one binary bytecode unit.
///
/// Indices are dense `0..n-1`; the order is semantically significant, so a
/// pass that removes a section must preserve the relative order of all
/// untouched sections.
#[derive(Debug)]
pub struct Module {
    pub sections: Vec<ModuleSection>,
}

impl View for Module {
    type V = Seq<SectionView>;

    open spec fn view(&self) -> Seq<SectionView> {
        self.sections@.map_values(|s: ModuleSection| s@)
    }
}

/// Whether some section of the sequence is the debug-name section.
pub open spec fn has_name_section(ss: Seq<SectionView>) -> bool {
    exists|i: int| 0 <= i < ss.len() && ss[i] is Name
}

/// Whether the external codec can encode this section without tripping its
/// length assertions.  The format's length fields are 32 bits wide, and the
/// encoder asserts (rather than reports) that a custom section's content
/// fits one; a name of `n` characters occupies at most `4 * n` bytes.  An
/// unknown section is written as its raw bytes with no computed length, so
/// it carries no bound, and the opaque kinds hold no lengths the library
/// could state.
pub open spec fn section_serializable(s: SectionView) -> bool {
    match s {
        SectionView::Custom { name, payload } => 4 * name.len() + payload.len() < 0xF000_0000,
        SectionView::Name(_) => true,
        SectionView::Unknown { .. } => true,
        SectionView::Standard(_) => true,
    }
}

/// Whether every section of the sequence stays within the binary format's
/// 32-bit length fields, so the external codec can encode it.
pub open spec fn module_serializable(ss: Seq<SectionView>) -> bool {
    forall|i: int| 0 <= i < ss.len() ==> section_serializable(ss[i])
}

/// What the external codec's parser yields on the given bytes: the module's
/// ordered section sequence, or nothing where the bytes are not a
/// well-formed binary module.  The result depends on the bytes alone.
pub uninterp spec fn parse_of(bytes: Seq<u8>) -> Option<Seq<SectionView>>;

/// What the external codec's encoder yields on the given section sequence,
/// or nothing where a section cannot be encoded.  The result depends on the
/// sections alone.
pub uninterp spec fn serial_of(sections: Seq<SectionView>) -> Option<Seq<u8>>;

/// Relies on `parity_wasm::elements::deserialize_buffer`: parses the binary
/// module format into its ordered section sequence.  The result is a
/// function of the bytes alone, named `parse_of`.
#[verifier::external_body]
fn parse_module_bytes(bytes: &[u8]) -> (r: Result<Module, String>)
    ensures
        (match r {
            Ok(m) => parse_of(bytes@) == Some(m@),
            Err(_) => parse_of(bytes@) is None,
        }),
{
    let pm: pw::Module = pw::deserialize_buffer(bytes).map_err(|e| format!("{}", e))?;
    let mut sections: Vec<ModuleSection> = Vec::new();
    for s in pm.into_sections() {
        sections.push(match s {
            pw::Section::Custom(c) => ModuleSection::Custom { name: c.name().to_string(), payload: c.payload().to_vec() },
            pw::Section::Name(ns) => ModuleSection::Name(ns),
            pw::Section::Unparsed { id, payload } => ModuleSection::Unknown { id, payload },
            other => ModuleSection::Standard(other),
        });
    }
    Ok(Module { sections })
}

/// Relies on `parity_wasm::elements::serialize`: encodes the sections, in
/// order, into the binary module format.  The result is a function of the
/// section sequence alone, named `serial_of`.
///
/// The encoder asserts, rather than reports, that each custom section's
/// content fits the format's 32-bit length field, so that bound is required
/// here.  Residual trust: an opaque debug-name or standard section value
/// built programmatically with over-large content would trip the same
/// assertion; those values are opaque, so no `requires` can reach inside
/// them, and they are trusted to stay within the format's limits (values the
/// parser produced always do).
#[verifier::external_body]
fn serialize_module_bytes(m: &Module) -> (r: Result<Vec<u8>, String>)
    requires
        module_serializable(m@),
    ensures
        (match r {
            Ok(b) => serial_of(m@) == Some(b@),
            Err(_) => serial_of(m@) is None,
        }),
{
    let mut out: Vec<pw::Section> = Vec::with_capacity(m.sections.len());
    for s in m.sections.iter() {
        out.push(match s {
            ModuleSection::Custom { name, payload } => pw::Section::Custom(pw::CustomSection::new(name.clone(), payload.clone())),
            ModuleSection::Name(ns) => pw::Section::Name(ns.clone()),
            ModuleSection::Unknown { id, payload } => pw::Section::Unparsed { id: *id, payload: payload.clone() },
            ModuleSection::Standard(s) => s.clone(),
        });
    }
    pw::serialize(pw::Module::new(out)).map_err(|e| format!("{}", e))
}

/// Relies on `parity_wasm::elements::Section`'s derived `Clone`: a
/// field-by-field copy, equal in value to the original.
pub assume_specification[ <parity_wasm::elements::Section as Clone>::clone ](
    s: &parity_wasm::elements::Section,
) -> (r: parity_wasm::elements::Section)
    ensures
        r == *s,
;

/// Relies on `parity_wasm::elements::NameSection`'s derived `Clone`: a
/// field-by-field copy, equal in value to the original.
pub assume_specification[ <parity_wasm::elements::NameSection as Clone>::clone ](
    s: &parity_wasm::elements::NameSection,
) -> (r: parity_wasm::elements::NameSection)
    ensures
        r == *s,
;

/// Copies a byte payload; the copy holds the same bytes.
fn clone_payload(payload: &Vec<u8>) -> (r: Vec<u8>)
    ensures
        r@ == payload@,
{
    let r = payload.clone();
    proof {
        assert forall|i: int| 0 <= i < r@.len() implies r@[i] == payload@[i] by {
            assert(vstd::pervasive::cloned::<u8>(payload[i], r[i]));
        }
        assert(r@ =~= payload@);
    }
    r
}

impl Clone for ModuleSection {
    /// A section's clone has the same value.
    fn clone(&self) -> (r: Self)
        ensures
            r@ == self@,
    {
        match self {
            ModuleSection::Custom { name, payload } => ModuleSection::Custom {
                name: name.clone(),
                payload: clone_payload(payload),
            },
            ModuleSection::Name(ns) => ModuleSection::Name(ns.clone()),
            ModuleSection::Unknown { id, payload } => ModuleSection::Unknown {
                id: *id,
                payload: clone_payload(payload),
            },
            ModuleSection::Standard(s) => ModuleSection::Standard(s.clone()),
        }
    }
}

impl Clone for Module {
    /// A module's clone holds the same section sequence.
    fn clone(&self) -> (r: Self)
        ensures
            r@ == self@,
    {
        let r = Module { sections: self.sections.clone() };
        proof {
            assert forall|i: int| 0 <= i < r.sections@.len() implies r.sections@[i]@
                == self.sections@[i]@ by {
                assert(vstd::pervasive::cloned::<ModuleSection>(self.sections[i], r.sections[i]));
            }
            assert(r@ =~= self@);
        }
        r
    }
}

impl Module {
    /// Builds a module from its section list.
    pub fn new(sections: Vec<ModuleSection>) -> (m: Module)
        ensures
            m@ == sections@.map_values(|s: ModuleSection| s@),
    {
        Module { sections }
    }

    /// Number of sections.
    pub fn len(&self) -> (n: usize)
        ensures
            n == self@.len(),
    {
        self.sections.len()
    }

    /// Parses a binary module.  Succeeds exactly on the bytes the external
    /// codec accepts; a rejection is a codec error.
    pub fn from_bytes(bytes: &[u8]) -> (r: Result<Module, ModuleError>)
        ensures
            (match r {
                Ok(m) => parse_of(bytes@) == Some(m@),
                Err(e) => parse_of(bytes@) is None && e is Codec,
            }),
    {
        match parse_module_bytes(bytes) {
            Ok(m) => Ok(m),
            Err(msg) => Err(ModuleError::Codec(msg)),
        }
    }

    /// Whether every section of this module stays within the binary
    /// format's 32-bit length fields, as [`Module::to_bytes`] requires.
    pub fn serializable(&self) -> (b: bool)
        ensures
            b == module_serializable(self@),
    {
        let n = self.sections.len();
        let mut i: usize = 0;
        while i < n
            invariant
                i <= n,
                n == self.sections@.len(),
                forall|j: int| 0 <= j < i ==> section_serializable(self@[j]),
            decreases n - i,
        {
            if let ModuleSection::Custom { name, payload } = &self.sections[i] {
                let chars = name.as_str().unicode_len();
                if chars >= 0x3C00_0000 {
                    assert(!section_serializable(self@[i as int]));
                    return false;
                }
                if payload.len() >= 0xF000_0000 - 4 * chars {
                    assert(!section_serializable(self@[i as int]));
                    return false;
                }
            }
            assert(section_serializable(self@[i as int]));
            i = i + 1;
        }
        true
    }

    /// Serializes this module to bytes.  Succeeds exactly where the external
    /// codec can encode the section sequence; a rejection is a codec error.
    ///
    /// The sections must stay within the format's 32-bit length fields
    /// ([`Module::serializable`] checks this), since the external encoder
    /// asserts the bound instead of reporting it.
    pub fn to_bytes(&self) -> (r: Result<Vec<u8>, ModuleError>)
        requires
            module_serializable(self@),
        ensures
            (match r {
                Ok(b) => serial_of(self@) == Some(b@),
                Err(e) => serial_of(self@) is None && e is Codec,
            }),
    {
        match serialize_module_bytes(self) {
            Ok(b) => Ok(b),
            Err(msg) => Err(ModuleError::Codec(msg)),
        }
    }

    /// Whether this module carries a debug-name section.
    pub fn has_names_section(&self) -> (b: bool)
        ensures
            b == has_name_section(self@),
    {
        let n = self.sections.len();
        let mut i: usize = 0;
        while i < n
            invariant
                i <= n,
                n == self.sections@.len(),
                forall|j: int| 0 <= j < i ==> !(self@[j] is Name),
            decreases n - i,
        {
            if let ModuleSection::Name(_) = &self.sections[i] {
                assert(self@[i as int] is Name);
                return true;
            }
            i = i + 1;
        }
        false
    }
}

} // verus!
