//! The processor generations whose reports can be verified.
use vstd::prelude::*;

verus! {

/// A supported silicon generation.
#[derive(Clone, Copy, Debug, PartialEq, Eq, Structural)]
pub enum ProcessorGeneration {
    Milan,
    Genoa,
    Turin,
}

/// The CPUID family and model that no supported generation answers to.
#[derive(Clone, Copy, Debug, PartialEq, Eq, Structural)]
pub struct UnsupportedProcessorError {
    pub family: u8,
    pub model: u8,
}

/// One row of the generation table: a CPUID family and an inclusive range of
/// models within it.
pub struct ModelRange {
    pub family: u8,
    pub first_model: u8,
    pub last_model: u8,
    pub generation: ProcessorGeneration,
}

impl ModelRange {
    /// Whether the row covers a CPUID family and model.
    pub open spec fn covers(self, family: u8, model: u8) -> bool {
        self.family == family && self.first_model <= model <= self.last_model
    }
}

/// The generation table. Every supported (family, model) pair is covered by
/// exactly one row.
pub open spec fn generation_table() -> Seq<ModelRange> {
    seq![
        ModelRange { family: 0x19, first_model: 0x00, last_model: 0x0f, generation: ProcessorGeneration::Milan },
        ModelRange { family: 0x19, first_model: 0x10, last_model: 0x1f, generation: ProcessorGeneration::Genoa },
        ModelRange { family: 0x19, first_model: 0xa0, last_model: 0xaf, generation: ProcessorGeneration::Genoa },
        ModelRange { family: 0x1a, first_model: 0x00, last_model: 0x11, generation: ProcessorGeneration::Turin },
    ]
}

/// The generation of the first row at or after `from` that covers the pair.
pub open spec fn lookup_from(table: Seq<ModelRange>, from: int, family: u8, model: u8) -> Option<
    ProcessorGeneration,
>
    decreases table.len() - from,
{
    if from < 0 || from >= table.len() {
        None
    } else if table[from].covers(family, model) {
        Some(table[from].generation)
    } else {
        lookup_from(table, from + 1, family, model)
    }
}

/// The generation that a CPUID family and model identify, if any.
pub open spec fn generation_of(family: u8, model: u8) -> Option<ProcessorGeneration> {
    lookup_from(generation_table(), 0, family, model)
}

fn table() -> (t: [ModelRange; 4])
    ensures
        t@ == generation_table(),
{
    let t = [
        ModelRange { family: 0x19, first_model: 0x00, last_model: 0x0f, generation: ProcessorGeneration::Milan },
        ModelRange { family: 0x19, first_model: 0x10, last_model: 0x1f, generation: ProcessorGeneration::Genoa },
        ModelRange { family: 0x19, first_model: 0xa0, last_model: 0xaf, generation: ProcessorGeneration::Genoa },
        ModelRange { family: 0x1a, first_model: 0x00, last_model: 0x11, generation: ProcessorGeneration::Turin },
    ];
    assert(t@ =~= generation_table());
    t
}

impl ProcessorGeneration {
    /// Resolves a CPUID family and model to the generation that the table
    /// assigns them, and rejects every pair that no row covers.
    pub fn from_family_and_model(fam_id: u8, mod_id: u8) -> (r: Result<
        ProcessorGeneration,
        UnsupportedProcessorError,
    >)
        ensures
            r == match generation_of(fam_id, mod_id) {
                Some(g) => Ok::<ProcessorGeneration, UnsupportedProcessorError>(g),
                None => Err(UnsupportedProcessorError { family: fam_id, model: mod_id }),
            },
    {
        let t = table();
        let mut i: usize = 0;
        while i < 4
            invariant
                i <= 4,
                t@ == generation_table(),
                generation_table().len() == 4,
                generation_of(fam_id, mod_id) == lookup_from(generation_table(), i as int, fam_id, mod_id),
            decreases 4 - i,
        {
            let row = &t[i];
            if row.family == fam_id && row.first_model <= mod_id && mod_id <= row.last_model {
                return Ok(row.generation);
            }
            i += 1;
        }
        Err(UnsupportedProcessorError { family: fam_id, model: mod_id })
    }

    /// The generation's name as AMD writes it.
    pub fn name(&self) -> (s: String)
        ensures
            s@ == self.spec_name(),
    {
        match self {
            ProcessorGeneration::Milan => "Milan".to_string(),
            ProcessorGeneration::Genoa => "Genoa".to_string(),
            ProcessorGeneration::Turin => "Turin".to_string(),
        }
    }

    /// The generation's name as AMD writes it.
    pub open spec fn spec_name(self) -> Seq<char> {
        match self {
            ProcessorGeneration::Milan => "Milan"@,
            ProcessorGeneration::Genoa => "Genoa"@,
            ProcessorGeneration::Turin => "Turin"@,
        }
    }
}

/// The table read out: which pairs each generation answers to.
pub proof fn generation_ranges(family: u8, model: u8)
    ensures
        generation_of(family, model) == Some(ProcessorGeneration::Milan) <==> family == 0x19
            && model <= 0x0f,
        generation_of(family, model) == Some(ProcessorGeneration::Genoa) <==> family == 0x19 && (
        0x10 <= model <= 0x1f || 0xa0 <= model <= 0xaf),
        generation_of(family, model) == Some(ProcessorGeneration::Turin) <==> family == 0x1a
            && model <= 0x11,
{
    reveal_with_fuel(lookup_from, 6);
}

} // verus!
