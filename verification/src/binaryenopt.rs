//! A pass that delegates whole-module optimization to the external binaryen
//! codegen engine.

use vstd::prelude::*;

use crate::module::{has_name_section, serial_of, Module};
use crate::{ModuleError, ModulePreset};

verus! {

/// The pass this preset key selects, if any: exactly the seven level keys
/// are recognized.
pub open spec fn preset_of(s: Seq<char>) -> Option<BinaryenOptimiser> {
    if s == "O0"@ {
        Some(BinaryenOptimiser::O0)
    } else if s == "O1"@ {
        Some(BinaryenOptimiser::O1)
    } else if s == "O2"@ {
        Some(BinaryenOptimiser::O2)
    } else if s == "O3"@ {
        Some(BinaryenOptimiser::O3)
    } else if s == "O4"@ {
        Some(BinaryenOptimiser::O4)
    } else if s == "Os"@ {
        Some(BinaryenOptimiser::Os)
    } else if s == "Oz"@ {
        Some(BinaryenOptimiser::Oz)
    } else {
        None
    }
}

/// The closed set of optimization levels the engine is driven at.
pub enum BinaryenOptimiser {
    /// Baseline, no changes beyond a round trip.
    O0,
    O1,
    O2,
    O3,
    O4,
    Os,
    Oz,
}

impl ModulePreset for BinaryenOptimiser {
    open spec fn preset_post(s: Seq<char>, r: Result<Self, ()>) -> bool {
        match preset_of(s) {
            Some(level) => r == Ok::<Self, ()>(level),
            None => r == Err::<Self, ()>(()),
        }
    }

    /// Maps the seven level keys to their pass; any other key is a
    /// configuration error.
    fn with_preset(preset: &str) -> (r: Result<Self, ()>) {
        let p = preset.to_owned();
        if p == "O0".to_owned() {
            Ok(BinaryenOptimiser::O0)
        } else if p == "O1".to_owned() {
            Ok(BinaryenOptimiser::O1)
        } else if p == "O2".to_owned() {
            Ok(BinaryenOptimiser::O2)
        } else if p == "O3".to_owned() {
            Ok(BinaryenOptimiser::O3)
        } else if p == "O4".to_owned() {
            Ok(BinaryenOptimiser::O4)
        } else if p == "Os".to_owned() {
            Ok(BinaryenOptimiser::Os)
        } else if p == "Oz".to_owned() {
            Ok(BinaryenOptimiser::Oz)
        } else {
            Err(())
        }
    }
}

/// One fully prepared call into the external optimization engine: the bytes
/// of the module to optimize and the configuration to drive the engine at.
///
/// The configuration travels with the request and is handed to the engine as
/// an explicit per-call argument, so no state is shared between engine calls.
pub struct OptimisationRequest {
    /// The serialized input module.
    pub bytes: Vec<u8>,
    /// The configuration derived for this call.
    pub config: CodegenConfig,
}

/// The configuration value handed to the external optimization engine.
/// Constructed fresh per optimization call; never shared or mutated after
/// construction.
pub struct CodegenConfig {
    /// `0` to `4`.
    pub optimization_level: u32,
    /// `0` to `2`.
    pub shrink_level: u32,
    /// Whether the debug-name section is to be preserved.
    pub debug_info: bool,
}

impl CodegenConfig {
    /// The levels a well-formed configuration stays within.
    pub open spec fn valid(&self) -> bool {
        self.optimization_level <= 4 && self.shrink_level <= 2
    }
}

impl BinaryenOptimiser {
    /// The optimization level this preset maps to.
    pub open spec fn spec_optimization_level(&self) -> u32 {
        match self {
            BinaryenOptimiser::O0 => 0,
            BinaryenOptimiser::O1 => 1,
            BinaryenOptimiser::O2 => 2,
            BinaryenOptimiser::O3 => 3,
            BinaryenOptimiser::O4 => 4,
            BinaryenOptimiser::Os => 2,
            BinaryenOptimiser::Oz => 2,
        }
    }

    /// The shrink level this preset maps to.
    pub open spec fn spec_shrink_level(&self) -> u32 {
        match self {
            BinaryenOptimiser::O0 => 0,
            BinaryenOptimiser::O1 => 0,
            BinaryenOptimiser::O2 => 0,
            BinaryenOptimiser::O3 => 0,
            BinaryenOptimiser::O4 => 0,
            BinaryenOptimiser::Os => 1,
            BinaryenOptimiser::Oz => 2,
        }
    }

    /// Derives the engine configuration for one call: the two levels come
    /// from the preset's fixed table, and debug info is preserved exactly
    /// when the input module already carries a debug-name section.
    pub fn codegen_config(&self, module: &Module) -> (c: CodegenConfig)
        ensures
            c.optimization_level == self.spec_optimization_level(),
            c.shrink_level == self.spec_shrink_level(),
            c.debug_info == has_name_section(module@),
            c.valid(),
    {
        let debug_info = module.has_names_section();
        match self {
            BinaryenOptimiser::O0 => CodegenConfig {
                optimization_level: 0,
                shrink_level: 0,
                debug_info,
            },
            BinaryenOptimiser::O1 => CodegenConfig {
                optimization_level: 1,
                shrink_level: 0,
                debug_info,
            },
            BinaryenOptimiser::O2 => CodegenConfig {
                optimization_level: 2,
                shrink_level: 0,
                debug_info,
            },
            BinaryenOptimiser::O3 => CodegenConfig {
                optimization_level: 3,
                shrink_level: 0,
                debug_info,
            },
            BinaryenOptimiser::O4 => CodegenConfig {
                optimization_level: 4,
                shrink_level: 0,
                debug_info,
            },
            BinaryenOptimiser::Os => CodegenConfig {
                optimization_level: 2,
                shrink_level: 1,
                debug_info,
            },
            BinaryenOptimiser::Oz => CodegenConfig {
                optimization_level: 2,
                shrink_level: 2,
                debug_info,
            },
        }
    }

    /// In-place optimization is unsupported: the engine only performs full
    /// round trips, so this mode is refused rather than silently degraded to
    /// the copying mode.
    pub fn translate_inplace(&self, module: &mut Module) -> (r: Result<bool, ModuleError>)
        ensures
            r == Err::<bool, ModuleError>(ModuleError::NotSupported),
            final(module)@ == old(module)@,
    {
        Err(ModuleError::NotSupported)
    }

    /// The verified half of a copying optimization run: derives this level's
    /// engine configuration and serializes the input module for the engine.
    ///
    /// The surrounding driver performs the engine call on the request and
    /// rebuilds the returned bytes with [`Module::from_bytes`]; an engine
    /// rejection is a `Backend` error, and a codec failure on either side of
    /// the round trip is a `Codec` error.
    ///
    /// The module must stay within the binary format's 32-bit length fields
    /// ([`Module::serializable`] checks this), as [`Module::to_bytes`]
    /// requires.
    pub fn optimisation_request(&self, module: &Module) -> (r: Result<
        OptimisationRequest,
        ModuleError,
    >)
        requires
            crate::module::module_serializable(module@),
        ensures
            (match r {
                Ok(req) => {
                    &&& serial_of(module@) == Some(req.bytes@)
                    &&& req.config.optimization_level == self.spec_optimization_level()
                    &&& req.config.shrink_level == self.spec_shrink_level()
                    &&& req.config.debug_info == has_name_section(module@)
                    &&& req.config.valid()
                },
                Err(e) => serial_of(module@) is None && e is Codec,
            }),
    {
        let config = self.codegen_config(module);
        match module.to_bytes() {
            Ok(bytes) => Ok(OptimisationRequest { bytes, config }),
            Err(e) => Err(e),
        }
    }
}

/// The configuration table: each of the seven levels maps to exactly the
/// optimization and shrink levels listed for it.
pub proof fn lemma_config_table()
    ensures
        BinaryenOptimiser::O0.spec_optimization_level() == 0
            && BinaryenOptimiser::O0.spec_shrink_level() == 0,
        BinaryenOptimiser::O1.spec_optimization_level() == 1
            && BinaryenOptimiser::O1.spec_shrink_level() == 0,
        BinaryenOptimiser::O2.spec_optimization_level() == 2
            && BinaryenOptimiser::O2.spec_shrink_level() == 0,
        BinaryenOptimiser::O3.spec_optimization_level() == 3
            && BinaryenOptimiser::O3.spec_shrink_level() == 0,
        BinaryenOptimiser::O4.spec_optimization_level() == 4
            && BinaryenOptimiser::O4.spec_shrink_level() == 0,
        BinaryenOptimiser::Os.spec_optimization_level() == 2
            && BinaryenOptimiser::Os.spec_shrink_level() == 1,
        BinaryenOptimiser::Oz.spec_optimization_level() == 2
            && BinaryenOptimiser::Oz.spec_shrink_level() == 2,
{
}

} // verus!
