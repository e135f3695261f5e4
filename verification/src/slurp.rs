//! The first decision of a run: which path a dump takes.

use vstd::prelude::*;
use crate::errors::{Failure, HprofSlurpError};
use crate::format::{detect_dump_format, sniffed_format, DumpFormat};

verus! {

/// The path that a dump takes.
#[derive(Debug, Clone, Copy, PartialEq, Eq, Structural)]
pub enum SlurpPlan {
    /// The dump is in the native format: its preamble is validated and the
    /// streaming pipeline ingests it.
    NativePipeline,
    /// The dump is handed to the external helper under this format.
    /// Nothing of it is decoded here.
    JavaHelper { format: DumpFormat },
}

/// The label under which the helper is told the format of a dump.
pub open spec fn helper_label(format: DumpFormat) -> Seq<char> {
    match format {
        DumpFormat::Hprof => "hprof"@,
        DumpFormat::Phd => "phd"@,
        DumpFormat::OpenJ9Core => "openj9-core"@,
    }
}

/// The label under which the helper is told the format of a dump.
pub fn format_label(format: DumpFormat) -> (label: &'static str)
    ensures
        label@ == helper_label(format),
{
    match format {
        DumpFormat::Hprof => "hprof",
        DumpFormat::Phd => "phd",
        DumpFormat::OpenJ9Core => "openj9-core",
    }
}

/// The path for an input with the given first bytes: none for an empty
/// input or an unknown signature, the pipeline for the native format, the
/// helper for the other two.
pub open spec fn planned(probe: Seq<u8>) -> Result<SlurpPlan, Failure> {
    if probe.len() == 0 {
        Err(Failure::UnsupportedDumpFormat { message: "Empty input file"@ })
    } else {
        match sniffed_format(probe) {
            None => Err(
                Failure::UnsupportedDumpFormat { message: "Unrecognized heap dump signature"@ },
            ),
            Some(DumpFormat::Hprof) => Ok(SlurpPlan::NativePipeline),
            Some(format) => Ok(SlurpPlan::JavaHelper { format }),
        }
    }
}

/// Decides, from the first bytes of a file, how the file is slurped. An
/// empty input is refused before any signature is looked for.
pub fn slurp_file(probe: &[u8]) -> (result: Result<SlurpPlan, HprofSlurpError>)
    ensures
        match result {
            Ok(plan) => planned(probe@) == Ok::<SlurpPlan, Failure>(plan),
            Err(error) => planned(probe@) == Err::<SlurpPlan, Failure>(error@),
        },
{
    if probe.len() == 0 {
        return Err(
            HprofSlurpError::UnsupportedDumpFormat { message: "Empty input file".to_string() },
        );
    }
    match detect_dump_format(probe) {
        Ok(DumpFormat::Hprof) => Ok(SlurpPlan::NativePipeline),
        Ok(format) => Ok(SlurpPlan::JavaHelper { format }),
        Err(error) => Err(error),
    }
}

/// An empty input and an input with an unknown signature fail in
/// different ways.
pub proof fn law_empty_is_not_unrecognized(probe: Seq<u8>)
    requires
        probe.len() > 0,
    ensures
        planned(Seq::<u8>::empty()) is Err,
        planned(probe) != planned(Seq::<u8>::empty()),
{
    reveal_strlit("Empty input file");
    reveal_strlit("Unrecognized heap dump signature");
    assert("Empty input file"@.len() != "Unrecognized heap dump signature"@.len());
}

/// A portable heap dump and a core image go to the helper and never to the
/// pipeline; a native dump goes to the pipeline.
pub proof fn law_helper_formats_skip_the_pipeline(probe: Seq<u8>)
    requires
        probe.len() > 0,
    ensures
        sniffed_format(probe) == Some(DumpFormat::Phd) ==> planned(probe) == Ok::<
            SlurpPlan,
            Failure,
        >(SlurpPlan::JavaHelper { format: DumpFormat::Phd }),
        sniffed_format(probe) == Some(DumpFormat::OpenJ9Core) ==> planned(probe) == Ok::<
            SlurpPlan,
            Failure,
        >(SlurpPlan::JavaHelper { format: DumpFormat::OpenJ9Core }),
        sniffed_format(probe) == Some(DumpFormat::Hprof) ==> planned(probe) == Ok::<
            SlurpPlan,
            Failure,
        >(SlurpPlan::NativePipeline),
{
}

} // verus!
