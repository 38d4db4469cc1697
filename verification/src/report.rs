//! The capability report: one row per metric, with display strings and a
//! severity tone for the actual-value cell. The caller prints the rows as
//! a four-column table, always before acting on its verdict.

use vstd::prelude::*;
use crate::classify::{classify, spec_classify, Classification, HardwareRequirement};
use crate::gate::ActualCapabilities;
use crate::text::{decimal_string, join_strings, spec_decimal, spec_join};

verus! {

/// The severity of an actual-value cell: failing (below required),
/// borderline (below expected), passing.
#[derive(Clone, Copy, Debug, PartialEq, Eq, Structural)]
pub enum Tone {
    Failing,
    Borderline,
    Passing,
}

/// The tone that displays a classification.
pub open spec fn spec_tone(c: Classification) -> Tone {
    match c {
        Classification::BelowRequired => Tone::Failing,
        Classification::BelowExpected => Tone::Borderline,
        Classification::MeetsExpected => Tone::Passing,
    }
}

/// Map a classification to the tone its cell is shown in.
pub fn tone_of(c: Classification) -> (t: Tone)
    ensures
        t == spec_tone(c),
{
    match c {
        Classification::BelowRequired => Tone::Failing,
        Classification::BelowExpected => Tone::Borderline,
        Classification::MeetsExpected => Tone::Passing,
    }
}

/// The human rendering of a byte count with an adjusted binary unit,
/// as the byte-unit crate produces it. A function of the count alone.
pub uninterp spec fn byte_display_of(n: nat) -> Seq<char>;

/// Relies on byte_unit::Byte::get_appropriate_unit with a binary unit
/// type, whose display depends on the byte count alone.
#[verifier::external_body]
fn byte_display(n: u64) -> (r: String)
    ensures
        r@ == byte_display_of(n as nat),
{
    byte_unit::Byte::from_u64(n).get_appropriate_unit(byte_unit::UnitType::Binary).to_string()
}

/// One row of the report table.
pub struct ReportRow {
    pub label: String,
    pub required: String,
    pub expected: String,
    pub actual: String,
    pub tone: Tone,
}

/// The ports joined as a display list: decimal, comma separated.
pub open spec fn spec_port_list(ports: Seq<u16>) -> Seq<char> {
    spec_join(ports.map_values(|p: u16| spec_decimal(p as nat)), ", "@)
}

/// Render a port list for display: decimal, comma separated.
pub fn port_list_string(ports: &Vec<u16>) -> (r: String)
    ensures
        r@ == spec_port_list(ports@),
{
    let mut parts: Vec<String> = Vec::new();
    let mut i: usize = 0;
    while i < ports.len()
        invariant
            0 <= i <= ports@.len(),
            parts@.len() == i,
            forall|j: int| 0 <= j < i ==> #[trigger] parts@[j]@ == spec_decimal(ports@[j] as nat),
        decreases ports@.len() - i,
    {
        parts.push(decimal_string(ports[i] as u64));
        i = i + 1;
    }
    proof {
        assert(parts@.map_values(|s: String| s@) =~= ports@.map_values(
            |p: u16| spec_decimal(p as nat),
        ));
    }
    join_strings(&parts, ", ")
}

/// The classification of each scalar metric of one run.
pub open spec fn spec_cpu_class(a: ActualCapabilities, req: HardwareRequirement, exp: HardwareRequirement) -> Classification {
    spec_classify(a.cpu_cores as int, req.cpu_cores as int, exp.cpu_cores as int)
}

/// The classification of the memory metric of one run.
pub open spec fn spec_memory_class(a: ActualCapabilities, req: HardwareRequirement, exp: HardwareRequirement) -> Classification {
    spec_classify(a.total_memory_bytes as int, req.memory_bytes as int, exp.memory_bytes as int)
}

/// The classification of the storage metric of one run.
pub open spec fn spec_storage_class(a: ActualCapabilities, req: HardwareRequirement, exp: HardwareRequirement) -> Classification {
    spec_classify(a.free_storage_bytes as int, req.storage_bytes as int, exp.storage_bytes as int)
}

/// Build the four report rows: cpu cores, memory, storage space, ports,
/// in that order. Byte counts are shown with adjusted binary units; the
/// ports row shows `Ok` or the list of ports that were not free.
pub fn build_report(actual: &ActualCapabilities, required: &HardwareRequirement, expected: &HardwareRequirement) -> (rows: Vec<ReportRow>)
    requires
        required.cpu_cores <= expected.cpu_cores,
        required.memory_bytes <= expected.memory_bytes,
        required.storage_bytes <= expected.storage_bytes,
    ensures
        rows@.len() == 4,
        rows@[0].label@ == "cpu cores"@,
        rows@[0].required@ == spec_decimal(required.cpu_cores as nat),
        rows@[0].expected@ == spec_decimal(expected.cpu_cores as nat),
        rows@[0].actual@ == spec_decimal(actual.cpu_cores as nat),
        rows@[0].tone == spec_tone(spec_cpu_class(*actual, *required, *expected)),
        rows@[1].label@ == "memory"@,
        rows@[1].required@ == byte_display_of(required.memory_bytes as nat),
        rows@[1].expected@ == byte_display_of(expected.memory_bytes as nat),
        rows@[1].actual@ == byte_display_of(actual.total_memory_bytes as nat),
        rows@[1].tone == spec_tone(spec_memory_class(*actual, *required, *expected)),
        rows@[2].label@ == "storage space"@,
        rows@[2].required@ == byte_display_of(required.storage_bytes as nat),
        rows@[2].expected@ == byte_display_of(expected.storage_bytes as nat),
        rows@[2].actual@ == byte_display_of(actual.free_storage_bytes as nat),
        rows@[2].tone == spec_tone(spec_storage_class(*actual, *required, *expected)),
        rows@[3].label@ == "ports"@,
        rows@[3].required@ == spec_port_list(required.ports@),
        rows@[3].expected@ == "-"@,
        actual.unavailable_ports@.len() == 0 ==> rows@[3].actual@ == "Ok"@
            && rows@[3].tone == Tone::Passing,
        actual.unavailable_ports@.len() > 0 ==> rows@[3].actual@ == spec_port_list(
            actual.unavailable_ports@,
        ) && rows@[3].tone == Tone::Failing,
{
    let mut rows: Vec<ReportRow> = Vec::new();
    rows.push(ReportRow {
        label: "cpu cores".to_owned(),
        required: decimal_string(required.cpu_cores),
        expected: decimal_string(expected.cpu_cores),
        actual: decimal_string(actual.cpu_cores),
        tone: tone_of(classify(actual.cpu_cores, required.cpu_cores, expected.cpu_cores)),
    });
    rows.push(ReportRow {
        label: "memory".to_owned(),
        required: byte_display(required.memory_bytes),
        expected: byte_display(expected.memory_bytes),
        actual: byte_display(actual.total_memory_bytes),
        tone: tone_of(
            classify(actual.total_memory_bytes, required.memory_bytes, expected.memory_bytes),
        ),
    });
    rows.push(ReportRow {
        label: "storage space".to_owned(),
        required: byte_display(required.storage_bytes),
        expected: byte_display(expected.storage_bytes),
        actual: byte_display(actual.free_storage_bytes),
        tone: tone_of(
            classify(actual.free_storage_bytes, required.storage_bytes, expected.storage_bytes),
        ),
    });
    if actual.unavailable_ports.len() == 0 {
        rows.push(ReportRow {
            label: "ports".to_owned(),
            required: port_list_string(&required.ports),
            expected: "-".to_owned(),
            actual: "Ok".to_owned(),
            tone: Tone::Passing,
        });
    } else {
        rows.push(ReportRow {
            label: "ports".to_owned(),
            required: port_list_string(&required.ports),
            expected: "-".to_owned(),
            actual: port_list_string(&actual.unavailable_ports),
            tone: Tone::Failing,
        });
    }
    rows
}

} // verus!
