//! Which event each counter is told to count.
use crate::counter::Aggregate;
use crate::ep::SnbArchitecture;
use crate::metrics::imc::hsx as imc_hsx;
use crate::metrics::imc::icx as imc_icx;
use crate::metrics::imc::skx as imc_skx;
use crate::metrics::imc::snb as imc_snb;
use crate::metrics::imc::spr as imc_spr;
use crate::metrics::interconnect::qpi_common::{self, QpiArchitecture, QpiEventKind};
use crate::metrics::interconnect::upi_common::{self, UpiArchitecture, UpiEventKind};
use crate::metrics::irp::hsx as irp_hsx;
use crate::metrics::irp::icx as irp_icx;
use crate::metrics::irp::skx as irp_skx;
use crate::metrics::irp::snb as irp_snb;
use crate::metrics::irp::spr as irp_spr;
use vstd::prelude::*;

verus! {

/// Whether a word selects an event of the memory of Skylake.
pub open spec fn skx_memory_selects(kind: imc_skx::ImcEventKind, word: u64) -> bool {
    match kind {
        imc_skx::ImcEventKind::ReadInsert => word == 0x52_0010,
        imc_skx::ImcEventKind::WriteInsert => word == 0x52_0020,
        imc_skx::ImcEventKind::ReadOccupancy => word == 0x52_0080,
        imc_skx::ImcEventKind::WriteOccupancy => word == 0x52_0081,
        imc_skx::ImcEventKind::ReadCas => word == 0x52_0304,
        imc_skx::ImcEventKind::WriteCas => word == 0x52_0c04,
        imc_skx::ImcEventKind::Activate => word == 0x52_0b01,
        imc_skx::ImcEventKind::PageMissPrecharge => word == 0x52_0102,
    }
}

/// What counter `c` counts in group `g` of the memory of Skylake, and the word that selects it.
pub open spec fn skx_memory_counter(g: int, c: int) -> (
    Option<imc_skx::ImcEventKind>,
    Option<u64>
) {
    let group = imc_skx::groups()[g];
    (imc_skx::counter_uses(group)[c].kind, imc_skx::control_words(group)[c])
}

/// Whether an event of the memory of Skylake is counted by way of a word.
pub open spec fn skx_memory_counts(kind: imc_skx::ImcEventKind, word: u64) -> bool {
    exists|g: int, c: int|
        {
            &&& 0 <= g < imc_skx::groups().len()
            &&& 0 <= c < 4
            &&& #[trigger] skx_memory_counter(g, c) == (Some(kind), Some(word))
        }
}

/// Every counter of the memory of Skylake is told to count the very event that its count is
/// taken for, and no event where its count is not used.
pub proof fn skx_memory_counters_count_their_events(g: int, c: int)
    requires
        0 <= g < imc_skx::groups().len(),
        0 <= c < 4,
    ensures
        match skx_memory_counter(g, c) {
            (Some(kind), word) => word matches Some(word) && skx_memory_selects(kind, word),
            (None, word) => word == Some(0u64),
        },
        ({
            let group = imc_skx::groups()[g];
            imc_skx::counter_uses(group)[c].kind is Some
                ==> imc_skx::counter_uses(group)[c].aggregate
                == Aggregate::Sum
        }),
{
    let group = imc_skx::groups()[g];
    assert(g == 0 || g == 1);
    assert(c == 0 || c == 1 || c == 2 || c == 3);
    assert(group.events@[c] == group.events[c]);
}

/// Every event of the memory of Skylake is counted, in all its parts.
pub proof fn skx_memory_counts_every_event()
    ensures
        skx_memory_counts(imc_skx::ImcEventKind::ReadInsert, 0x52_0010),
        skx_memory_counts(imc_skx::ImcEventKind::WriteInsert, 0x52_0020),
        skx_memory_counts(imc_skx::ImcEventKind::ReadOccupancy, 0x52_0080),
        skx_memory_counts(imc_skx::ImcEventKind::WriteOccupancy, 0x52_0081),
        skx_memory_counts(imc_skx::ImcEventKind::ReadCas, 0x52_0304),
        skx_memory_counts(imc_skx::ImcEventKind::WriteCas, 0x52_0c04),
        skx_memory_counts(imc_skx::ImcEventKind::Activate, 0x52_0b01),
        skx_memory_counts(imc_skx::ImcEventKind::PageMissPrecharge, 0x52_0102),
{
    assert(
        skx_memory_counter(0, 0) == (Some(imc_skx::ImcEventKind::ReadInsert), Some(0x52_0010u64))
    );
    assert(
        skx_memory_counter(0, 1) == (Some(imc_skx::ImcEventKind::WriteInsert), Some(0x52_0020u64))
    );
    assert(
        skx_memory_counter(0, 2) == (Some(imc_skx::ImcEventKind::ReadOccupancy), Some(0x52_0080u64))
    );
    assert(
        skx_memory_counter(0, 3) == (
            Some(imc_skx::ImcEventKind::WriteOccupancy),
            Some(0x52_0081u64)
        )
    );
    assert(skx_memory_counter(1, 0) == (Some(imc_skx::ImcEventKind::ReadCas), Some(0x52_0304u64)));
    assert(skx_memory_counter(1, 1) == (Some(imc_skx::ImcEventKind::WriteCas), Some(0x52_0c04u64)));
    assert(skx_memory_counter(1, 2) == (Some(imc_skx::ImcEventKind::Activate), Some(0x52_0b01u64)));
    assert(
        skx_memory_counter(1, 3) == (
            Some(imc_skx::ImcEventKind::PageMissPrecharge),
            Some(0x52_0102u64)
        )
    );
}

/// Whether a word selects an event of the memory of Ice Lake.
pub open spec fn icx_memory_selects(kind: imc_icx::IcxImcEventKind, word: u64) -> bool {
    match kind {
        imc_icx::IcxImcEventKind::ReadOccupancy => word == 0x52_0080 || word == 0x52_0081,
        imc_icx::IcxImcEventKind::WriteOccupancy => word == 0x52_0082 || word == 0x52_0083,
        imc_icx::IcxImcEventKind::ReadInsert => word == 0x52_0310,
        imc_icx::IcxImcEventKind::WriteInsert => word == 0x52_0320,
        imc_icx::IcxImcEventKind::ReadCas => word == 0x52_0f04,
        imc_icx::IcxImcEventKind::WriteCas => word == 0x52_3004,
        imc_icx::IcxImcEventKind::Activate => word == 0x52_0b01,
        imc_icx::IcxImcEventKind::PageMissPrecharge => word == 0x52_0c02,
    }
}

/// What counter `c` counts in group `g` of the memory of Ice Lake, and the word that selects it.
pub open spec fn icx_memory_counter(g: int, c: int) -> (
    Option<imc_icx::IcxImcEventKind>,
    Option<u64>
) {
    let group = imc_icx::groups()[g];
    (imc_icx::counter_uses(group)[c].kind, imc_icx::control_words(group)[c])
}

/// Whether an event of the memory of Ice Lake is counted by way of a word.
pub open spec fn icx_memory_counts(kind: imc_icx::IcxImcEventKind, word: u64) -> bool {
    exists|g: int, c: int|
        {
            &&& 0 <= g < imc_icx::groups().len()
            &&& 0 <= c < 4
            &&& #[trigger] icx_memory_counter(g, c) == (Some(kind), Some(word))
        }
}

/// Every counter of the memory of Ice Lake is told to count the very event that its count is
/// taken for, and no event where its count is not used.
pub proof fn icx_memory_counters_count_their_events(g: int, c: int)
    requires
        0 <= g < imc_icx::groups().len(),
        0 <= c < 4,
    ensures
        match icx_memory_counter(g, c) {
            (Some(kind), word) => word matches Some(word) && icx_memory_selects(kind, word),
            (None, word) => word == Some(0u64),
        },
        ({
            let group = imc_icx::groups()[g];
            imc_icx::counter_uses(group)[c].kind is Some
                ==> imc_icx::counter_uses(group)[c].aggregate
                == Aggregate::Sum
        }),
{
    let group = imc_icx::groups()[g];
    assert(g == 0 || g == 1 || g == 2);
    assert(c == 0 || c == 1 || c == 2 || c == 3);
    assert(group.events@[c] == group.events[c]);
}

/// Every event of the memory of Ice Lake is counted, in all its parts.
pub proof fn icx_memory_counts_every_event()
    ensures
        icx_memory_counts(imc_icx::IcxImcEventKind::ReadOccupancy, 0x52_0080),
        icx_memory_counts(imc_icx::IcxImcEventKind::ReadOccupancy, 0x52_0081),
        icx_memory_counts(imc_icx::IcxImcEventKind::WriteOccupancy, 0x52_0082),
        icx_memory_counts(imc_icx::IcxImcEventKind::WriteOccupancy, 0x52_0083),
        icx_memory_counts(imc_icx::IcxImcEventKind::ReadInsert, 0x52_0310),
        icx_memory_counts(imc_icx::IcxImcEventKind::WriteInsert, 0x52_0320),
        icx_memory_counts(imc_icx::IcxImcEventKind::ReadCas, 0x52_0f04),
        icx_memory_counts(imc_icx::IcxImcEventKind::WriteCas, 0x52_3004),
        icx_memory_counts(imc_icx::IcxImcEventKind::Activate, 0x52_0b01),
        icx_memory_counts(imc_icx::IcxImcEventKind::PageMissPrecharge, 0x52_0c02),
{
    assert(
        icx_memory_counter(0, 0) == (
            Some(imc_icx::IcxImcEventKind::ReadOccupancy),
            Some(0x52_0080u64)
        )
    );
    assert(
        icx_memory_counter(0, 1) == (
            Some(imc_icx::IcxImcEventKind::ReadOccupancy),
            Some(0x52_0081u64)
        )
    );
    assert(
        icx_memory_counter(0, 2) == (
            Some(imc_icx::IcxImcEventKind::WriteOccupancy),
            Some(0x52_0082u64)
        )
    );
    assert(
        icx_memory_counter(0, 3) == (
            Some(imc_icx::IcxImcEventKind::WriteOccupancy),
            Some(0x52_0083u64)
        )
    );
    assert(
        icx_memory_counter(1, 0) == (Some(imc_icx::IcxImcEventKind::ReadInsert), Some(0x52_0310u64))
    );
    assert(
        icx_memory_counter(1, 1) == (
            Some(imc_icx::IcxImcEventKind::WriteInsert),
            Some(0x52_0320u64)
        )
    );
    assert(
        icx_memory_counter(1, 2) == (Some(imc_icx::IcxImcEventKind::ReadCas), Some(0x52_0f04u64))
    );
    assert(
        icx_memory_counter(1, 3) == (Some(imc_icx::IcxImcEventKind::WriteCas), Some(0x52_3004u64))
    );
    assert(
        icx_memory_counter(2, 0) == (Some(imc_icx::IcxImcEventKind::Activate), Some(0x52_0b01u64))
    );
    assert(
        icx_memory_counter(2, 1) == (
            Some(imc_icx::IcxImcEventKind::PageMissPrecharge),
            Some(0x52_0c02u64)
        )
    );
}

/// Whether a word selects an event of the memory of Sapphire Rapids.
pub open spec fn spr_memory_selects(kind: imc_spr::SprImcEventKind, word: u64) -> bool {
    match kind {
        imc_spr::SprImcEventKind::ReadOccupancy => word == 0x80 || word == 0x81,
        imc_spr::SprImcEventKind::WriteOccupancy => word == 0x82 || word == 0x83,
        imc_spr::SprImcEventKind::ReadInsert => word == 0x310,
        imc_spr::SprImcEventKind::WriteInsert => word == 0x320,
        imc_spr::SprImcEventKind::ReadCas => word == 0xcf05,
        imc_spr::SprImcEventKind::WriteCas => word == 0xf005,
        imc_spr::SprImcEventKind::Activate => word == 0xff02,
        imc_spr::SprImcEventKind::PageMissPrecharge => word == 0x3303,
    }
}

/// What counter `c` counts in group `g` of the memory of Sapphire Rapids, and the word that selects
/// it.
pub open spec fn spr_memory_counter(g: int, c: int) -> (
    Option<imc_spr::SprImcEventKind>,
    Option<u64>
) {
    let group = imc_spr::groups()[g];
    (imc_spr::counter_uses(group)[c].kind, imc_spr::control_words(group)[c])
}

/// Whether an event of the memory of Sapphire Rapids is counted by way of a word.
pub open spec fn spr_memory_counts(kind: imc_spr::SprImcEventKind, word: u64) -> bool {
    exists|g: int, c: int|
        {
            &&& 0 <= g < imc_spr::groups().len()
            &&& 0 <= c < 4
            &&& #[trigger] spr_memory_counter(g, c) == (Some(kind), Some(word))
        }
}

/// Every counter of the memory of Sapphire Rapids is told to count the very event that its count is
/// taken for, and no event where its count is not used.
pub proof fn spr_memory_counters_count_their_events(g: int, c: int)
    requires
        0 <= g < imc_spr::groups().len(),
        0 <= c < 4,
    ensures
        match spr_memory_counter(g, c) {
            (Some(kind), word) => word matches Some(word) && spr_memory_selects(kind, word),
            (None, word) => word == Some(0u64),
        },
        ({
            let group = imc_spr::groups()[g];
            imc_spr::counter_uses(group)[c].kind is Some
                ==> imc_spr::counter_uses(group)[c].aggregate
                == Aggregate::Sum
        }),
{
    let group = imc_spr::groups()[g];
    assert(g == 0 || g == 1 || g == 2);
    assert(c == 0 || c == 1 || c == 2 || c == 3);
    assert(group.events@[c] == group.events[c]);
}

/// Every event of the memory of Sapphire Rapids is counted, in all its parts.
pub proof fn spr_memory_counts_every_event()
    ensures
        spr_memory_counts(imc_spr::SprImcEventKind::ReadOccupancy, 0x80),
        spr_memory_counts(imc_spr::SprImcEventKind::ReadOccupancy, 0x81),
        spr_memory_counts(imc_spr::SprImcEventKind::WriteOccupancy, 0x82),
        spr_memory_counts(imc_spr::SprImcEventKind::WriteOccupancy, 0x83),
        spr_memory_counts(imc_spr::SprImcEventKind::ReadInsert, 0x310),
        spr_memory_counts(imc_spr::SprImcEventKind::WriteInsert, 0x320),
        spr_memory_counts(imc_spr::SprImcEventKind::ReadCas, 0xcf05),
        spr_memory_counts(imc_spr::SprImcEventKind::WriteCas, 0xf005),
        spr_memory_counts(imc_spr::SprImcEventKind::Activate, 0xff02),
        spr_memory_counts(imc_spr::SprImcEventKind::PageMissPrecharge, 0x3303),
{
    assert(
        spr_memory_counter(0, 0) == (Some(imc_spr::SprImcEventKind::ReadOccupancy), Some(0x80u64))
    );
    assert(
        spr_memory_counter(0, 1) == (Some(imc_spr::SprImcEventKind::ReadOccupancy), Some(0x81u64))
    );
    assert(
        spr_memory_counter(0, 2) == (Some(imc_spr::SprImcEventKind::WriteOccupancy), Some(0x82u64))
    );
    assert(
        spr_memory_counter(0, 3) == (Some(imc_spr::SprImcEventKind::WriteOccupancy), Some(0x83u64))
    );
    assert(
        spr_memory_counter(1, 0) == (Some(imc_spr::SprImcEventKind::ReadInsert), Some(0x310u64))
    );
    assert(
        spr_memory_counter(1, 1) == (Some(imc_spr::SprImcEventKind::WriteInsert), Some(0x320u64))
    );
    assert(spr_memory_counter(1, 2) == (Some(imc_spr::SprImcEventKind::ReadCas), Some(0xcf05u64)));
    assert(spr_memory_counter(1, 3) == (Some(imc_spr::SprImcEventKind::WriteCas), Some(0xf005u64)));
    assert(spr_memory_counter(2, 0) == (Some(imc_spr::SprImcEventKind::Activate), Some(0xff02u64)));
    assert(
        spr_memory_counter(2, 1) == (
            Some(imc_spr::SprImcEventKind::PageMissPrecharge),
            Some(0x3303u64)
        )
    );
}

/// Whether a word selects an event of the memory of Sandy and Ivy Bridge.
pub open spec fn snb_memory_selects(
    architecture: SnbArchitecture,
    kind: imc_snb::SnbImcEventKind,
    word: u64,
) -> bool {
    match kind {
        imc_snb::SnbImcEventKind::ReadInsert => word == 0x52_0010,
        imc_snb::SnbImcEventKind::WriteInsert => word == 0x52_0020,
        imc_snb::SnbImcEventKind::RpqNonEmpty => word == 0x52_0011,
        imc_snb::SnbImcEventKind::WpqNonEmpty => word == 0x52_0021,
        imc_snb::SnbImcEventKind::WpqFull => word == 0x52_0022,
        imc_snb::SnbImcEventKind::ReadCas => word == 0x52_0304,
        imc_snb::SnbImcEventKind::WriteCas => word == 0x52_0c04,
        imc_snb::SnbImcEventKind::Activate => match architecture {
            SnbArchitecture::Ivb => word == 0x52_0b01,
            SnbArchitecture::Snb => word == 0x52_0001,
        },
        imc_snb::SnbImcEventKind::PageMissPrecharge => word == 0x52_0102,
    }
}

/// What counter `c` counts in group `g` of the memory of Sandy and Ivy Bridge, and the word that
/// selects it.
pub open spec fn snb_memory_counter(
    architecture: SnbArchitecture,
    g: int,
    c: int,
) -> (Option<imc_snb::SnbImcEventKind>, Option<u64>) {
    let group = imc_snb::groups(architecture)[g];
    (imc_snb::counter_uses(group)[c].kind, imc_snb::control_words(group)[c])
}

/// Whether an event of the memory of Sandy and Ivy Bridge is counted by way of a word.
pub open spec fn snb_memory_counts(
    architecture: SnbArchitecture,
    kind: imc_snb::SnbImcEventKind,
    word: u64,
) -> bool {
    exists|g: int, c: int|
        {
            &&& 0 <= g < imc_snb::groups(architecture).len()
            &&& 0 <= c < 4
            &&& #[trigger] snb_memory_counter(architecture, g, c) == (Some(kind), Some(word))
        }
}

/// Every counter of the memory of Sandy and Ivy Bridge is told to count the very event that its
/// count is taken for, and no event where its count is not used.
pub proof fn snb_memory_counters_count_their_events(architecture: SnbArchitecture, g: int, c: int)
    requires
        0 <= g < imc_snb::groups(architecture).len(),
        0 <= c < 4,
    ensures
        match snb_memory_counter(architecture, g, c) {
            (Some(kind), word) => word matches Some(word) && snb_memory_selects(
                architecture,
                kind,
                word,
            ),
            (None, word) => word == None::<u64>,
        },
{
    let group = imc_snb::groups(architecture)[g];
    match architecture {
        SnbArchitecture::Ivb => {
            assert(g == 0 || g == 1 || g == 2);
        },
        SnbArchitecture::Snb => {
            assert(g == 0 || g == 1 || g == 2);
        },
    }
    assert(c == 0 || c == 1 || c == 2 || c == 3);
    assert(group.events@[c] == group.events[c]);
}

/// Every event of the memory of Sandy and Ivy Bridge is counted, in all its parts.
pub proof fn snb_memory_counts_every_event(architecture: SnbArchitecture)
    ensures
        match architecture {
            SnbArchitecture::Ivb => {
                &&& snb_memory_counts(architecture, imc_snb::SnbImcEventKind::ReadInsert, 0x52_0010)
                &&& snb_memory_counts(
                    architecture,
                    imc_snb::SnbImcEventKind::WriteInsert,
                    0x52_0020,
                )
                &&& snb_memory_counts(
                    architecture,
                    imc_snb::SnbImcEventKind::RpqNonEmpty,
                    0x52_0011,
                )
                &&& snb_memory_counts(
                    architecture,
                    imc_snb::SnbImcEventKind::WpqNonEmpty,
                    0x52_0021,
                )
                &&& snb_memory_counts(architecture, imc_snb::SnbImcEventKind::WpqFull, 0x52_0022)
                &&& snb_memory_counts(architecture, imc_snb::SnbImcEventKind::ReadCas, 0x52_0304)
                &&& snb_memory_counts(architecture, imc_snb::SnbImcEventKind::WriteCas, 0x52_0c04)
                &&& snb_memory_counts(architecture, imc_snb::SnbImcEventKind::Activate, 0x52_0b01)
                &&& snb_memory_counts(
                    architecture,
                    imc_snb::SnbImcEventKind::PageMissPrecharge,
                    0x52_0102,
                )
            },
            SnbArchitecture::Snb => {
                &&& snb_memory_counts(architecture, imc_snb::SnbImcEventKind::ReadInsert, 0x52_0010)
                &&& snb_memory_counts(
                    architecture,
                    imc_snb::SnbImcEventKind::WriteInsert,
                    0x52_0020,
                )
                &&& snb_memory_counts(
                    architecture,
                    imc_snb::SnbImcEventKind::RpqNonEmpty,
                    0x52_0011,
                )
                &&& snb_memory_counts(
                    architecture,
                    imc_snb::SnbImcEventKind::WpqNonEmpty,
                    0x52_0021,
                )
                &&& snb_memory_counts(architecture, imc_snb::SnbImcEventKind::WpqFull, 0x52_0022)
                &&& snb_memory_counts(architecture, imc_snb::SnbImcEventKind::ReadCas, 0x52_0304)
                &&& snb_memory_counts(architecture, imc_snb::SnbImcEventKind::WriteCas, 0x52_0c04)
                &&& snb_memory_counts(architecture, imc_snb::SnbImcEventKind::Activate, 0x52_0001)
                &&& snb_memory_counts(
                    architecture,
                    imc_snb::SnbImcEventKind::PageMissPrecharge,
                    0x52_0102,
                )
            },
        },
{
    match architecture {
        SnbArchitecture::Ivb => {
            assert(
                snb_memory_counter(architecture, 0, 0) == (
                    Some(imc_snb::SnbImcEventKind::ReadInsert),
                    Some(0x52_0010u64)
                )
            );
            assert(
                snb_memory_counter(architecture, 0, 1) == (
                    Some(imc_snb::SnbImcEventKind::WriteInsert),
                    Some(0x52_0020u64)
                )
            );
            assert(
                snb_memory_counter(architecture, 0, 2) == (
                    Some(imc_snb::SnbImcEventKind::RpqNonEmpty),
                    Some(0x52_0011u64)
                )
            );
            assert(
                snb_memory_counter(architecture, 0, 3) == (
                    Some(imc_snb::SnbImcEventKind::WpqNonEmpty),
                    Some(0x52_0021u64)
                )
            );
            assert(
                snb_memory_counter(architecture, 1, 0) == (
                    Some(imc_snb::SnbImcEventKind::WpqFull),
                    Some(0x52_0022u64)
                )
            );
            assert(
                snb_memory_counter(architecture, 1, 1) == (
                    Some(imc_snb::SnbImcEventKind::ReadCas),
                    Some(0x52_0304u64)
                )
            );
            assert(
                snb_memory_counter(architecture, 1, 2) == (
                    Some(imc_snb::SnbImcEventKind::WriteCas),
                    Some(0x52_0c04u64)
                )
            );
            assert(
                snb_memory_counter(architecture, 2, 0) == (
                    Some(imc_snb::SnbImcEventKind::Activate),
                    Some(0x52_0b01u64)
                )
            );
            assert(
                snb_memory_counter(architecture, 2, 1) == (
                    Some(imc_snb::SnbImcEventKind::PageMissPrecharge),
                    Some(0x52_0102u64)
                )
            );
        },
        SnbArchitecture::Snb => {
            assert(
                snb_memory_counter(architecture, 0, 0) == (
                    Some(imc_snb::SnbImcEventKind::ReadInsert),
                    Some(0x52_0010u64)
                )
            );
            assert(
                snb_memory_counter(architecture, 0, 1) == (
                    Some(imc_snb::SnbImcEventKind::WriteInsert),
                    Some(0x52_0020u64)
                )
            );
            assert(
                snb_memory_counter(architecture, 0, 2) == (
                    Some(imc_snb::SnbImcEventKind::RpqNonEmpty),
                    Some(0x52_0011u64)
                )
            );
            assert(
                snb_memory_counter(architecture, 0, 3) == (
                    Some(imc_snb::SnbImcEventKind::WpqNonEmpty),
                    Some(0x52_0021u64)
                )
            );
            assert(
                snb_memory_counter(architecture, 1, 1) == (
                    Some(imc_snb::SnbImcEventKind::WpqFull),
                    Some(0x52_0022u64)
                )
            );
            assert(
                snb_memory_counter(architecture, 1, 2) == (
                    Some(imc_snb::SnbImcEventKind::ReadCas),
                    Some(0x52_0304u64)
                )
            );
            assert(
                snb_memory_counter(architecture, 1, 3) == (
                    Some(imc_snb::SnbImcEventKind::WriteCas),
                    Some(0x52_0c04u64)
                )
            );
            assert(
                snb_memory_counter(architecture, 2, 0) == (
                    Some(imc_snb::SnbImcEventKind::Activate),
                    Some(0x52_0001u64)
                )
            );
            assert(
                snb_memory_counter(architecture, 2, 1) == (
                    Some(imc_snb::SnbImcEventKind::PageMissPrecharge),
                    Some(0x52_0102u64)
                )
            );
        },
    }
}

/// Whether a word selects an event of the inbound traffic of Haswell and Broadwell.
pub open spec fn hsx_inbound_selects(kind: irp_hsx::HsxIrpEventKind, word: u64) -> bool {
    match kind {
        irp_hsx::HsxIrpEventKind::PcieReadCurrent => word == 0x52_0113,
        irp_hsx::HsxIrpEventKind::CoreRead => word == 0x52_0213,
        irp_hsx::HsxIrpEventKind::DemandRead => word == 0x52_0413,
        irp_hsx::HsxIrpEventKind::ReadForOwnership => word == 0x52_0813,
        irp_hsx::HsxIrpEventKind::PciItoM => word == 0x52_1013,
        irp_hsx::HsxIrpEventKind::PciDcaHint => word == 0x52_2013,
        irp_hsx::HsxIrpEventKind::WbMtoI => word == 0x52_4013,
        irp_hsx::HsxIrpEventKind::ClFlush => word == 0x52_8013,
        irp_hsx::HsxIrpEventKind::TotalIrpOccupancy => word == 0x52_0112,
        irp_hsx::HsxIrpEventKind::PcieInboundReads => word == 0x52_0116,
        irp_hsx::HsxIrpEventKind::PcieInboundWrites => word == 0x52_0216,
        irp_hsx::HsxIrpEventKind::LostFwd => word == 0x52_1015,
        irp_hsx::HsxIrpEventKind::Clockticks => word == 0x52_0000,
        _ => false,
    }
}

/// What counter `c` counts in group `g` of the inbound traffic of Haswell and Broadwell, and the
/// word that selects it.
pub open spec fn hsx_inbound_counter(g: int, c: int) -> (
    Option<irp_hsx::HsxIrpEventKind>,
    Option<u64>
) {
    let group = irp_hsx::groups()[g];
    (irp_hsx::counter_kinds(group)[c], irp_hsx::control_words(group)[c])
}

/// Whether an event of the inbound traffic of Haswell and Broadwell is counted by way of a word.
pub open spec fn hsx_inbound_counts(kind: irp_hsx::HsxIrpEventKind, word: u64) -> bool {
    exists|g: int, c: int|
        {
            &&& 0 <= g < irp_hsx::groups().len()
            &&& 0 <= c < 4
            &&& #[trigger] hsx_inbound_counter(g, c) == (Some(kind), Some(word))
        }
}

/// Every counter of the inbound traffic of Haswell and Broadwell is told to count the very event
/// that its count is taken for, and no event where its count is not used.
pub proof fn hsx_inbound_counters_count_their_events(g: int, c: int)
    requires
        0 <= g < irp_hsx::groups().len(),
        0 <= c < 4,
    ensures
        match hsx_inbound_counter(g, c) {
            (Some(kind), word) => word matches Some(word) && hsx_inbound_selects(kind, word),
            (None, word) => word == Some(0u64),
        },
{
    let group = irp_hsx::groups()[g];
    assert(g == 0 || g == 1 || g == 2 || g == 3);
    assert(c == 0 || c == 1 || c == 2 || c == 3);
    assert(group.events@[c] == group.events[c]);
}

/// Every event of the inbound traffic of Haswell and Broadwell is counted, in all its parts.
pub proof fn hsx_inbound_counts_every_event()
    ensures
        hsx_inbound_counts(irp_hsx::HsxIrpEventKind::PcieReadCurrent, 0x52_0113),
        hsx_inbound_counts(irp_hsx::HsxIrpEventKind::CoreRead, 0x52_0213),
        hsx_inbound_counts(irp_hsx::HsxIrpEventKind::DemandRead, 0x52_0413),
        hsx_inbound_counts(irp_hsx::HsxIrpEventKind::ReadForOwnership, 0x52_0813),
        hsx_inbound_counts(irp_hsx::HsxIrpEventKind::PciItoM, 0x52_1013),
        hsx_inbound_counts(irp_hsx::HsxIrpEventKind::PciDcaHint, 0x52_2013),
        hsx_inbound_counts(irp_hsx::HsxIrpEventKind::WbMtoI, 0x52_4013),
        hsx_inbound_counts(irp_hsx::HsxIrpEventKind::ClFlush, 0x52_8013),
        hsx_inbound_counts(irp_hsx::HsxIrpEventKind::TotalIrpOccupancy, 0x52_0112),
        hsx_inbound_counts(irp_hsx::HsxIrpEventKind::PcieInboundReads, 0x52_0116),
        hsx_inbound_counts(irp_hsx::HsxIrpEventKind::PcieInboundWrites, 0x52_0216),
        hsx_inbound_counts(irp_hsx::HsxIrpEventKind::LostFwd, 0x52_1015),
        hsx_inbound_counts(irp_hsx::HsxIrpEventKind::Clockticks, 0x52_0000),
{
    assert(
        hsx_inbound_counter(0, 0) == (
            Some(irp_hsx::HsxIrpEventKind::PcieReadCurrent),
            Some(0x52_0113u64)
        )
    );
    assert(
        hsx_inbound_counter(0, 1) == (Some(irp_hsx::HsxIrpEventKind::CoreRead), Some(0x52_0213u64))
    );
    assert(
        hsx_inbound_counter(0, 2) == (
            Some(irp_hsx::HsxIrpEventKind::DemandRead),
            Some(0x52_0413u64)
        )
    );
    assert(
        hsx_inbound_counter(0, 3) == (
            Some(irp_hsx::HsxIrpEventKind::ReadForOwnership),
            Some(0x52_0813u64)
        )
    );
    assert(
        hsx_inbound_counter(1, 0) == (Some(irp_hsx::HsxIrpEventKind::PciItoM), Some(0x52_1013u64))
    );
    assert(
        hsx_inbound_counter(1, 1) == (
            Some(irp_hsx::HsxIrpEventKind::PciDcaHint),
            Some(0x52_2013u64)
        )
    );
    assert(
        hsx_inbound_counter(1, 2) == (Some(irp_hsx::HsxIrpEventKind::WbMtoI), Some(0x52_4013u64))
    );
    assert(
        hsx_inbound_counter(1, 3) == (Some(irp_hsx::HsxIrpEventKind::ClFlush), Some(0x52_8013u64))
    );
    assert(
        hsx_inbound_counter(2, 0) == (
            Some(irp_hsx::HsxIrpEventKind::TotalIrpOccupancy),
            Some(0x52_0112u64)
        )
    );
    assert(
        hsx_inbound_counter(2, 1) == (
            Some(irp_hsx::HsxIrpEventKind::PcieInboundReads),
            Some(0x52_0116u64)
        )
    );
    assert(
        hsx_inbound_counter(2, 2) == (
            Some(irp_hsx::HsxIrpEventKind::PcieInboundWrites),
            Some(0x52_0216u64)
        )
    );
    assert(
        hsx_inbound_counter(2, 3) == (Some(irp_hsx::HsxIrpEventKind::LostFwd), Some(0x52_1015u64))
    );
    assert(
        hsx_inbound_counter(3, 0) == (
            Some(irp_hsx::HsxIrpEventKind::Clockticks),
            Some(0x52_0000u64)
        )
    );
}

/// Whether a word selects an event of the inbound traffic of Sandy and Ivy Bridge.
pub open spec fn snb_inbound_selects(kind: irp_snb::SnbIrpEventKind, word: u64) -> bool {
    match kind {
        irp_snb::SnbIrpEventKind::PcieInboundReads => word == 0x52_0115,
        irp_snb::SnbIrpEventKind::PcieInboundWrites => word == 0x52_0215,
        irp_snb::SnbIrpEventKind::LostOwnership => word == 0x52_0116,
        irp_snb::SnbIrpEventKind::Clockticks => word == 0x52_0000,
        irp_snb::SnbIrpEventKind::TotalIrpOccupancy => word == 0x52_0112,
        _ => false,
    }
}

/// What counter `c` counts in group `g` of the inbound traffic of Sandy and Ivy Bridge, and the
/// word that selects it.
pub open spec fn snb_inbound_counter(g: int, c: int) -> (
    Option<irp_snb::SnbIrpEventKind>,
    Option<u64>
) {
    let group = irp_snb::groups()[g];
    (irp_snb::counter_kinds(group)[c], irp_snb::control_words(group)[c])
}

/// Whether an event of the inbound traffic of Sandy and Ivy Bridge is counted by way of a word.
pub open spec fn snb_inbound_counts(kind: irp_snb::SnbIrpEventKind, word: u64) -> bool {
    exists|g: int, c: int|
        {
            &&& 0 <= g < irp_snb::groups().len()
            &&& 0 <= c < 4
            &&& #[trigger] snb_inbound_counter(g, c) == (Some(kind), Some(word))
        }
}

/// Every counter of the inbound traffic of Sandy and Ivy Bridge is told to count the very event
/// that its count is taken for, and no event where its count is not used.
pub proof fn snb_inbound_counters_count_their_events(g: int, c: int)
    requires
        0 <= g < irp_snb::groups().len(),
        0 <= c < 4,
    ensures
        match snb_inbound_counter(g, c) {
            (Some(kind), word) => word matches Some(word) && snb_inbound_selects(kind, word),
            (None, word) => word == Some(0u64),
        },
{
    let group = irp_snb::groups()[g];
    assert(g == 0 || g == 1);
    assert(c == 0 || c == 1 || c == 2 || c == 3);
    assert(group.events@[c] == group.events[c]);
}

/// Every event of the inbound traffic of Sandy and Ivy Bridge is counted, in all its parts.
pub proof fn snb_inbound_counts_every_event()
    ensures
        snb_inbound_counts(irp_snb::SnbIrpEventKind::PcieInboundReads, 0x52_0115),
        snb_inbound_counts(irp_snb::SnbIrpEventKind::PcieInboundWrites, 0x52_0215),
        snb_inbound_counts(irp_snb::SnbIrpEventKind::LostOwnership, 0x52_0116),
        snb_inbound_counts(irp_snb::SnbIrpEventKind::Clockticks, 0x52_0000),
        snb_inbound_counts(irp_snb::SnbIrpEventKind::TotalIrpOccupancy, 0x52_0112),
{
    assert(
        snb_inbound_counter(0, 0) == (
            Some(irp_snb::SnbIrpEventKind::PcieInboundReads),
            Some(0x52_0115u64)
        )
    );
    assert(
        snb_inbound_counter(0, 1) == (
            Some(irp_snb::SnbIrpEventKind::PcieInboundWrites),
            Some(0x52_0215u64)
        )
    );
    assert(
        snb_inbound_counter(0, 2) == (
            Some(irp_snb::SnbIrpEventKind::LostOwnership),
            Some(0x52_0116u64)
        )
    );
    assert(
        snb_inbound_counter(0, 3) == (
            Some(irp_snb::SnbIrpEventKind::Clockticks),
            Some(0x52_0000u64)
        )
    );
    assert(
        snb_inbound_counter(1, 0) == (
            Some(irp_snb::SnbIrpEventKind::TotalIrpOccupancy),
            Some(0x52_0112u64)
        )
    );
}

/// Whether a word selects an event of the inbound traffic of Ice Lake.
pub open spec fn icx_inbound_selects(kind: irp_icx::IcxIrpEventKind, word: u64) -> bool {
    match kind {
        irp_icx::IcxIrpEventKind::PcieReadCurrent => word == 0x52_0110,
        irp_icx::IcxIrpEventKind::ReadForOwnership => word == 0x52_0810,
        irp_icx::IcxIrpEventKind::PciItoM => word == 0x52_1010,
        irp_icx::IcxIrpEventKind::WbMtoI => word == 0x52_4010,
        irp_icx::IcxIrpEventKind::ClFlush => word == 0x52_8010,
        irp_icx::IcxIrpEventKind::TotalIrpOccupancy => word == 0x52_040f,
        irp_icx::IcxIrpEventKind::FafOccupancy => word == 0x52_0019,
        irp_icx::IcxIrpEventKind::WriteInserts => word == 0x52_0811,
        irp_icx::IcxIrpEventKind::LostFwd => word == 0x52_101f,
        irp_icx::IcxIrpEventKind::FafInserts => word == 0x52_0018,
        irp_icx::IcxIrpEventKind::AllHitM => word == 0x52_7812,
        irp_icx::IcxIrpEventKind::Clockticks => word == 0x52_0001,
        irp_icx::IcxIrpEventKind::FafFull => word == 0x52_0017,
    }
}

/// What counter `c` counts in group `g` of the inbound traffic of Ice Lake, and the word that
/// selects it.
pub open spec fn icx_inbound_counter(g: int, c: int) -> (
    Option<irp_icx::IcxIrpEventKind>,
    Option<u64>
) {
    let group = irp_icx::groups()[g];
    (irp_icx::counter_kinds(group)[c], irp_icx::control_words(group)[c])
}

/// Whether an event of the inbound traffic of Ice Lake is counted by way of a word.
pub open spec fn icx_inbound_counts(kind: irp_icx::IcxIrpEventKind, word: u64) -> bool {
    exists|g: int, c: int|
        {
            &&& 0 <= g < irp_icx::groups().len()
            &&& 0 <= c < 2
            &&& #[trigger] icx_inbound_counter(g, c) == (Some(kind), Some(word))
        }
}

/// Every counter of the inbound traffic of Ice Lake is told to count the very event that its count
/// is taken for, and no event where its count is not used.
pub proof fn icx_inbound_counters_count_their_events(g: int, c: int)
    requires
        0 <= g < irp_icx::groups().len(),
        0 <= c < 2,
    ensures
        match icx_inbound_counter(g, c) {
            (Some(kind), word) => word matches Some(word) && icx_inbound_selects(kind, word),
            (None, word) => word == Some(0u64),
        },
{
    let group = irp_icx::groups()[g];
    assert(g == 0 || g == 1 || g == 2 || g == 3 || g == 4 || g == 5 || g == 6);
    assert(c == 0 || c == 1);
    assert(group.events@[c] == group.events[c]);
}

/// Every event of the inbound traffic of Ice Lake is counted, in all its parts.
pub proof fn icx_inbound_counts_every_event()
    ensures
        icx_inbound_counts(irp_icx::IcxIrpEventKind::PcieReadCurrent, 0x52_0110),
        icx_inbound_counts(irp_icx::IcxIrpEventKind::ReadForOwnership, 0x52_0810),
        icx_inbound_counts(irp_icx::IcxIrpEventKind::PciItoM, 0x52_1010),
        icx_inbound_counts(irp_icx::IcxIrpEventKind::WbMtoI, 0x52_4010),
        icx_inbound_counts(irp_icx::IcxIrpEventKind::ClFlush, 0x52_8010),
        icx_inbound_counts(irp_icx::IcxIrpEventKind::TotalIrpOccupancy, 0x52_040f),
        icx_inbound_counts(irp_icx::IcxIrpEventKind::FafOccupancy, 0x52_0019),
        icx_inbound_counts(irp_icx::IcxIrpEventKind::WriteInserts, 0x52_0811),
        icx_inbound_counts(irp_icx::IcxIrpEventKind::LostFwd, 0x52_101f),
        icx_inbound_counts(irp_icx::IcxIrpEventKind::FafInserts, 0x52_0018),
        icx_inbound_counts(irp_icx::IcxIrpEventKind::AllHitM, 0x52_7812),
        icx_inbound_counts(irp_icx::IcxIrpEventKind::Clockticks, 0x52_0001),
        icx_inbound_counts(irp_icx::IcxIrpEventKind::FafFull, 0x52_0017),
{
    assert(
        icx_inbound_counter(0, 0) == (
            Some(irp_icx::IcxIrpEventKind::PcieReadCurrent),
            Some(0x52_0110u64)
        )
    );
    assert(
        icx_inbound_counter(0, 1) == (
            Some(irp_icx::IcxIrpEventKind::ReadForOwnership),
            Some(0x52_0810u64)
        )
    );
    assert(
        icx_inbound_counter(1, 0) == (Some(irp_icx::IcxIrpEventKind::PciItoM), Some(0x52_1010u64))
    );
    assert(
        icx_inbound_counter(1, 1) == (Some(irp_icx::IcxIrpEventKind::WbMtoI), Some(0x52_4010u64))
    );
    assert(
        icx_inbound_counter(2, 0) == (Some(irp_icx::IcxIrpEventKind::ClFlush), Some(0x52_8010u64))
    );
    assert(
        icx_inbound_counter(2, 1) == (
            Some(irp_icx::IcxIrpEventKind::TotalIrpOccupancy),
            Some(0x52_040fu64)
        )
    );
    assert(
        icx_inbound_counter(3, 0) == (
            Some(irp_icx::IcxIrpEventKind::FafOccupancy),
            Some(0x52_0019u64)
        )
    );
    assert(
        icx_inbound_counter(3, 1) == (
            Some(irp_icx::IcxIrpEventKind::WriteInserts),
            Some(0x52_0811u64)
        )
    );
    assert(
        icx_inbound_counter(4, 0) == (Some(irp_icx::IcxIrpEventKind::LostFwd), Some(0x52_101fu64))
    );
    assert(
        icx_inbound_counter(4, 1) == (
            Some(irp_icx::IcxIrpEventKind::FafInserts),
            Some(0x52_0018u64)
        )
    );
    assert(
        icx_inbound_counter(5, 0) == (Some(irp_icx::IcxIrpEventKind::AllHitM), Some(0x52_7812u64))
    );
    assert(
        icx_inbound_counter(5, 1) == (
            Some(irp_icx::IcxIrpEventKind::Clockticks),
            Some(0x52_0001u64)
        )
    );
    assert(
        icx_inbound_counter(6, 0) == (Some(irp_icx::IcxIrpEventKind::FafFull), Some(0x52_0017u64))
    );
}

/// Whether a word selects an event of the inbound traffic of Skylake.
pub open spec fn skx_inbound_selects(kind: irp_skx::IrpEventKind, word: u64) -> bool {
    match kind {
        irp_skx::IrpEventKind::PcieReadCurrent => word == 0x52_0110,
        irp_skx::IrpEventKind::CoreRead => word == 0x52_0210,
        irp_skx::IrpEventKind::DemandRead => word == 0x52_0410,
        irp_skx::IrpEventKind::ReadForOwnership => word == 0x52_0810,
        irp_skx::IrpEventKind::PciItoM => word == 0x52_1010,
        irp_skx::IrpEventKind::PciDcaHint => word == 0x52_2010,
        irp_skx::IrpEventKind::WbMtoI => word == 0x52_4010,
        irp_skx::IrpEventKind::ClFlush => word == 0x52_8010,
        irp_skx::IrpEventKind::TotalIrpOccupancy => word == 0x52_040f,
        irp_skx::IrpEventKind::FafOccupancy => word == 0x52_0019,
        irp_skx::IrpEventKind::WriteInserts => word == 0x52_0811,
        irp_skx::IrpEventKind::Clockticks => word == 0x52_0001,
    }
}

/// What counter `c` counts in group `g` of the inbound traffic of Skylake, and the word that
/// selects it.
pub open spec fn skx_inbound_counter(g: int, c: int) -> (
    Option<irp_skx::IrpEventKind>,
    Option<u64>
) {
    let group = irp_skx::groups()[g];
    (irp_skx::counter_kinds(group)[c], irp_skx::control_words(group)[c])
}

/// Whether an event of the inbound traffic of Skylake is counted by way of a word.
pub open spec fn skx_inbound_counts(kind: irp_skx::IrpEventKind, word: u64) -> bool {
    exists|g: int, c: int|
        {
            &&& 0 <= g < irp_skx::groups().len()
            &&& 0 <= c < 2
            &&& #[trigger] skx_inbound_counter(g, c) == (Some(kind), Some(word))
        }
}

/// Every counter of the inbound traffic of Skylake is told to count the very event that its count
/// is taken for, and no event where its count is not used.
pub proof fn skx_inbound_counters_count_their_events(g: int, c: int)
    requires
        0 <= g < irp_skx::groups().len(),
        0 <= c < 2,
    ensures
        match skx_inbound_counter(g, c) {
            (Some(kind), word) => word matches Some(word) && skx_inbound_selects(kind, word),
            (None, word) => word == Some(0u64),
        },
{
    let group = irp_skx::groups()[g];
    assert(g == 0 || g == 1 || g == 2 || g == 3 || g == 4 || g == 5);
    assert(c == 0 || c == 1);
    assert(group.events@[c] == group.events[c]);
}

/// Every event of the inbound traffic of Skylake is counted, in all its parts.
pub proof fn skx_inbound_counts_every_event()
    ensures
        skx_inbound_counts(irp_skx::IrpEventKind::PcieReadCurrent, 0x52_0110),
        skx_inbound_counts(irp_skx::IrpEventKind::CoreRead, 0x52_0210),
        skx_inbound_counts(irp_skx::IrpEventKind::DemandRead, 0x52_0410),
        skx_inbound_counts(irp_skx::IrpEventKind::ReadForOwnership, 0x52_0810),
        skx_inbound_counts(irp_skx::IrpEventKind::PciItoM, 0x52_1010),
        skx_inbound_counts(irp_skx::IrpEventKind::PciDcaHint, 0x52_2010),
        skx_inbound_counts(irp_skx::IrpEventKind::WbMtoI, 0x52_4010),
        skx_inbound_counts(irp_skx::IrpEventKind::ClFlush, 0x52_8010),
        skx_inbound_counts(irp_skx::IrpEventKind::TotalIrpOccupancy, 0x52_040f),
        skx_inbound_counts(irp_skx::IrpEventKind::FafOccupancy, 0x52_0019),
        skx_inbound_counts(irp_skx::IrpEventKind::WriteInserts, 0x52_0811),
        skx_inbound_counts(irp_skx::IrpEventKind::Clockticks, 0x52_0001),
{
    assert(
        skx_inbound_counter(0, 0) == (
            Some(irp_skx::IrpEventKind::PcieReadCurrent),
            Some(0x52_0110u64)
        )
    );
    assert(
        skx_inbound_counter(0, 1) == (Some(irp_skx::IrpEventKind::CoreRead), Some(0x52_0210u64))
    );
    assert(
        skx_inbound_counter(1, 0) == (Some(irp_skx::IrpEventKind::DemandRead), Some(0x52_0410u64))
    );
    assert(
        skx_inbound_counter(1, 1) == (
            Some(irp_skx::IrpEventKind::ReadForOwnership),
            Some(0x52_0810u64)
        )
    );
    assert(skx_inbound_counter(2, 0) == (Some(irp_skx::IrpEventKind::PciItoM), Some(0x52_1010u64)));
    assert(
        skx_inbound_counter(2, 1) == (Some(irp_skx::IrpEventKind::PciDcaHint), Some(0x52_2010u64))
    );
    assert(skx_inbound_counter(3, 0) == (Some(irp_skx::IrpEventKind::WbMtoI), Some(0x52_4010u64)));
    assert(skx_inbound_counter(3, 1) == (Some(irp_skx::IrpEventKind::ClFlush), Some(0x52_8010u64)));
    assert(
        skx_inbound_counter(4, 0) == (
            Some(irp_skx::IrpEventKind::TotalIrpOccupancy),
            Some(0x52_040fu64)
        )
    );
    assert(
        skx_inbound_counter(4, 1) == (Some(irp_skx::IrpEventKind::FafOccupancy), Some(0x52_0019u64))
    );
    assert(
        skx_inbound_counter(5, 0) == (Some(irp_skx::IrpEventKind::WriteInserts), Some(0x52_0811u64))
    );
    assert(
        skx_inbound_counter(5, 1) == (Some(irp_skx::IrpEventKind::Clockticks), Some(0x52_0001u64))
    );
}

/// Whether a word selects an event of the inbound traffic of Sapphire Rapids.
pub open spec fn spr_inbound_selects(kind: irp_spr::SprIrpEventKind, word: u64) -> bool {
    match kind {
        irp_spr::SprIrpEventKind::TotalIrpOccupancy => word == 0x40f,
        irp_spr::SprIrpEventKind::FafOccupancy => word == 0x19,
        irp_spr::SprIrpEventKind::WriteInserts => word == 0x811,
        irp_spr::SprIrpEventKind::LostFwd => word == 0x101f,
        irp_spr::SprIrpEventKind::FafInserts => word == 0x18,
        irp_spr::SprIrpEventKind::Clockticks => word == 0x1,
        irp_spr::SprIrpEventKind::AllHitM => word == 0x7812,
        irp_spr::SprIrpEventKind::FafFull => word == 0x17,
    }
}

/// What counter `c` counts in group `g` of the inbound traffic of Sapphire Rapids, and the word
/// that selects it.
pub open spec fn spr_inbound_counter(g: int, c: int) -> (
    Option<irp_spr::SprIrpEventKind>,
    Option<u64>
) {
    let group = irp_spr::groups()[g];
    (irp_spr::counter_kinds(group)[c], irp_spr::control_words(group)[c])
}

/// Whether an event of the inbound traffic of Sapphire Rapids is counted by way of a word.
pub open spec fn spr_inbound_counts(kind: irp_spr::SprIrpEventKind, word: u64) -> bool {
    exists|g: int, c: int|
        {
            &&& 0 <= g < irp_spr::groups().len()
            &&& 0 <= c < 2
            &&& #[trigger] spr_inbound_counter(g, c) == (Some(kind), Some(word))
        }
}

/// Every counter of the inbound traffic of Sapphire Rapids is told to count the very event that its
/// count is taken for, and no event where its count is not used.
pub proof fn spr_inbound_counters_count_their_events(g: int, c: int)
    requires
        0 <= g < irp_spr::groups().len(),
        0 <= c < 2,
    ensures
        match spr_inbound_counter(g, c) {
            (Some(kind), word) => word matches Some(word) && spr_inbound_selects(kind, word),
            (None, word) => word == Some(0u64),
        },
{
    let group = irp_spr::groups()[g];
    assert(g == 0 || g == 1 || g == 2 || g == 3 || g == 4);
    assert(c == 0 || c == 1);
    assert(group.events@[c] == group.events[c]);
}

/// Every event of the inbound traffic of Sapphire Rapids is counted, in all its parts.
pub proof fn spr_inbound_counts_every_event()
    ensures
        spr_inbound_counts(irp_spr::SprIrpEventKind::TotalIrpOccupancy, 0x40f),
        spr_inbound_counts(irp_spr::SprIrpEventKind::FafOccupancy, 0x19),
        spr_inbound_counts(irp_spr::SprIrpEventKind::WriteInserts, 0x811),
        spr_inbound_counts(irp_spr::SprIrpEventKind::LostFwd, 0x101f),
        spr_inbound_counts(irp_spr::SprIrpEventKind::FafInserts, 0x18),
        spr_inbound_counts(irp_spr::SprIrpEventKind::Clockticks, 0x1),
        spr_inbound_counts(irp_spr::SprIrpEventKind::AllHitM, 0x7812),
        spr_inbound_counts(irp_spr::SprIrpEventKind::FafFull, 0x17),
{
    assert(
        spr_inbound_counter(0, 0) == (
            Some(irp_spr::SprIrpEventKind::TotalIrpOccupancy),
            Some(0x40fu64)
        )
    );
    assert(
        spr_inbound_counter(0, 1) == (Some(irp_spr::SprIrpEventKind::FafOccupancy), Some(0x19u64))
    );
    assert(
        spr_inbound_counter(1, 0) == (Some(irp_spr::SprIrpEventKind::WriteInserts), Some(0x811u64))
    );
    assert(spr_inbound_counter(1, 1) == (Some(irp_spr::SprIrpEventKind::LostFwd), Some(0x101fu64)));
    assert(
        spr_inbound_counter(2, 0) == (Some(irp_spr::SprIrpEventKind::FafInserts), Some(0x18u64))
    );
    assert(spr_inbound_counter(2, 1) == (Some(irp_spr::SprIrpEventKind::Clockticks), Some(0x1u64)));
    assert(spr_inbound_counter(3, 0) == (Some(irp_spr::SprIrpEventKind::AllHitM), Some(0x7812u64)));
    assert(spr_inbound_counter(4, 0) == (Some(irp_spr::SprIrpEventKind::FafFull), Some(0x17u64)));
}

/// Whether a word selects an event of UPI links.
pub open spec fn upi_selects(architecture: UpiArchitecture, kind: UpiEventKind, word: u64) -> bool {
    match kind {
        UpiEventKind::Clockticks => match architecture {
            UpiArchitecture::Emr => word == 0x1,
            UpiArchitecture::Icx => word == 0x42_0001,
            UpiArchitecture::Skx => word == 0x42_0001,
            UpiArchitecture::Spr => word == 0x1,
        },
        UpiEventKind::TxDataFlits => match architecture {
            UpiArchitecture::Emr => word == 0xf02,
            UpiArchitecture::Icx => word == 0x42_0f02,
            UpiArchitecture::Skx => word == 0x42_0f02,
            UpiArchitecture::Spr => word == 0xf02,
        },
        UpiEventKind::RxDataFlits => match architecture {
            UpiArchitecture::Emr => word == 0xf03,
            UpiArchitecture::Icx => word == 0x42_0f03,
            UpiArchitecture::Skx => word == 0x42_0f03,
            UpiArchitecture::Spr => word == 0xf03,
        },
        UpiEventKind::L1PowerCycles => match architecture {
            UpiArchitecture::Emr => word == 0x21,
            UpiArchitecture::Icx => word == 0x42_0021,
            UpiArchitecture::Skx => word == 0x42_0021,
            UpiArchitecture::Spr => word == 0x21,
        },
        UpiEventKind::TxNonDataFlits => match architecture {
            UpiArchitecture::Emr => word == 0x9702,
            UpiArchitecture::Icx => word == 0x42_9702,
            UpiArchitecture::Skx => word == 0x42_9702,
            UpiArchitecture::Spr => word == 0x9702,
        },
        UpiEventKind::RxNonDataFlits => match architecture {
            UpiArchitecture::Emr => word == 0x9703,
            UpiArchitecture::Icx => word == 0x42_9703,
            UpiArchitecture::Skx => word == 0x42_9703,
            UpiArchitecture::Spr => word == 0x9703,
        },
        UpiEventKind::TxL0pPowerCycles => match architecture {
            UpiArchitecture::Emr => false,
            UpiArchitecture::Icx => word == 0x42_0027,
            UpiArchitecture::Skx => word == 0x42_0027,
            UpiArchitecture::Spr => false,
        },
        UpiEventKind::RxL0pPowerCycles => match architecture {
            UpiArchitecture::Emr => false,
            UpiArchitecture::Icx => false,
            UpiArchitecture::Skx => word == 0x42_0025,
            UpiArchitecture::Spr => false,
        },
        _ => false,
    }
}

/// What counter `c` counts in group `g` of UPI links, and the word that selects it.
pub open spec fn upi_counter(
    architecture: UpiArchitecture,
    g: int,
    c: int,
) -> (Option<UpiEventKind>, Option<u64>) {
    let group = upi_common::groups(architecture)[g];
    (upi_common::counter_kinds(group)[c], upi_common::control_words(architecture, group)[c])
}

/// Whether an event of UPI links is counted by way of a word.
pub open spec fn upi_counts(architecture: UpiArchitecture, kind: UpiEventKind, word: u64) -> bool {
    exists|g: int, c: int|
        {
            &&& 0 <= g < upi_common::groups(architecture).len()
            &&& 0 <= c < 4
            &&& #[trigger] upi_counter(architecture, g, c) == (Some(kind), Some(word))
        }
}

/// Every counter of UPI links is told to count the very event that its count is
/// taken for, and no event where its count is not used.
pub proof fn upi_counters_count_their_events(architecture: UpiArchitecture, g: int, c: int)
    requires
        0 <= g < upi_common::groups(architecture).len(),
        0 <= c < 4,
    ensures
        match upi_counter(architecture, g, c) {
            (Some(kind), word) => word matches Some(word) && upi_selects(architecture, kind, word),
            (None, word) => word == Some(0u64),
        },
{
    let group = upi_common::groups(architecture)[g];
    match architecture {
        UpiArchitecture::Emr => {
            assert(g == 0 || g == 1);
        },
        UpiArchitecture::Icx => {
            assert(g == 0 || g == 1 || g == 2);
        },
        UpiArchitecture::Skx => {
            assert(g == 0 || g == 1 || g == 2);
        },
        UpiArchitecture::Spr => {
            assert(g == 0 || g == 1);
        },
    }
    assert(c == 0 || c == 1 || c == 2 || c == 3);
    assert(group.events@[c] == group.events[c]);
}

/// Every event of UPI links is counted, in all its parts.
pub proof fn upi_counts_every_event(architecture: UpiArchitecture)
    ensures
        match architecture {
            UpiArchitecture::Emr => {
                &&& upi_counts(architecture, UpiEventKind::Clockticks, 0x1)
                &&& upi_counts(architecture, UpiEventKind::TxDataFlits, 0xf02)
                &&& upi_counts(architecture, UpiEventKind::RxDataFlits, 0xf03)
                &&& upi_counts(architecture, UpiEventKind::L1PowerCycles, 0x21)
                &&& upi_counts(architecture, UpiEventKind::TxNonDataFlits, 0x9702)
                &&& upi_counts(architecture, UpiEventKind::RxNonDataFlits, 0x9703)
            },
            UpiArchitecture::Icx => {
                &&& upi_counts(architecture, UpiEventKind::Clockticks, 0x42_0001)
                &&& upi_counts(architecture, UpiEventKind::TxDataFlits, 0x42_0f02)
                &&& upi_counts(architecture, UpiEventKind::RxDataFlits, 0x42_0f03)
                &&& upi_counts(architecture, UpiEventKind::L1PowerCycles, 0x42_0021)
                &&& upi_counts(architecture, UpiEventKind::TxNonDataFlits, 0x42_9702)
                &&& upi_counts(architecture, UpiEventKind::RxNonDataFlits, 0x42_9703)
                &&& upi_counts(architecture, UpiEventKind::TxL0pPowerCycles, 0x42_0027)
            },
            UpiArchitecture::Skx => {
                &&& upi_counts(architecture, UpiEventKind::Clockticks, 0x42_0001)
                &&& upi_counts(architecture, UpiEventKind::TxDataFlits, 0x42_0f02)
                &&& upi_counts(architecture, UpiEventKind::RxDataFlits, 0x42_0f03)
                &&& upi_counts(architecture, UpiEventKind::L1PowerCycles, 0x42_0021)
                &&& upi_counts(architecture, UpiEventKind::TxNonDataFlits, 0x42_9702)
                &&& upi_counts(architecture, UpiEventKind::RxNonDataFlits, 0x42_9703)
                &&& upi_counts(architecture, UpiEventKind::TxL0pPowerCycles, 0x42_0027)
                &&& upi_counts(architecture, UpiEventKind::RxL0pPowerCycles, 0x42_0025)
            },
            UpiArchitecture::Spr => {
                &&& upi_counts(architecture, UpiEventKind::Clockticks, 0x1)
                &&& upi_counts(architecture, UpiEventKind::TxDataFlits, 0xf02)
                &&& upi_counts(architecture, UpiEventKind::RxDataFlits, 0xf03)
                &&& upi_counts(architecture, UpiEventKind::L1PowerCycles, 0x21)
                &&& upi_counts(architecture, UpiEventKind::TxNonDataFlits, 0x9702)
                &&& upi_counts(architecture, UpiEventKind::RxNonDataFlits, 0x9703)
            },
        },
{
    match architecture {
        UpiArchitecture::Emr => {
            assert(
                upi_counter(architecture, 0, 0) == (Some(UpiEventKind::Clockticks), Some(0x1u64))
            );
            assert(
                upi_counter(architecture, 0, 1) == (Some(UpiEventKind::TxDataFlits), Some(0xf02u64))
            );
            assert(
                upi_counter(architecture, 0, 2) == (Some(UpiEventKind::RxDataFlits), Some(0xf03u64))
            );
            assert(
                upi_counter(architecture, 0, 3) == (
                    Some(UpiEventKind::L1PowerCycles),
                    Some(0x21u64)
                )
            );
            assert(
                upi_counter(architecture, 1, 0) == (
                    Some(UpiEventKind::TxNonDataFlits),
                    Some(0x9702u64)
                )
            );
            assert(
                upi_counter(architecture, 1, 1) == (
                    Some(UpiEventKind::RxNonDataFlits),
                    Some(0x9703u64)
                )
            );
        },
        UpiArchitecture::Icx => {
            assert(
                upi_counter(architecture, 0, 0) == (
                    Some(UpiEventKind::Clockticks),
                    Some(0x42_0001u64)
                )
            );
            assert(
                upi_counter(architecture, 0, 1) == (
                    Some(UpiEventKind::TxDataFlits),
                    Some(0x42_0f02u64)
                )
            );
            assert(
                upi_counter(architecture, 0, 2) == (
                    Some(UpiEventKind::RxDataFlits),
                    Some(0x42_0f03u64)
                )
            );
            assert(
                upi_counter(architecture, 0, 3) == (
                    Some(UpiEventKind::L1PowerCycles),
                    Some(0x42_0021u64)
                )
            );
            assert(
                upi_counter(architecture, 1, 0) == (
                    Some(UpiEventKind::TxNonDataFlits),
                    Some(0x42_9702u64)
                )
            );
            assert(
                upi_counter(architecture, 1, 1) == (
                    Some(UpiEventKind::RxNonDataFlits),
                    Some(0x42_9703u64)
                )
            );
            assert(
                upi_counter(architecture, 2, 0) == (
                    Some(UpiEventKind::TxL0pPowerCycles),
                    Some(0x42_0027u64)
                )
            );
        },
        UpiArchitecture::Skx => {
            assert(
                upi_counter(architecture, 0, 0) == (
                    Some(UpiEventKind::Clockticks),
                    Some(0x42_0001u64)
                )
            );
            assert(
                upi_counter(architecture, 0, 1) == (
                    Some(UpiEventKind::TxDataFlits),
                    Some(0x42_0f02u64)
                )
            );
            assert(
                upi_counter(architecture, 0, 2) == (
                    Some(UpiEventKind::RxDataFlits),
                    Some(0x42_0f03u64)
                )
            );
            assert(
                upi_counter(architecture, 0, 3) == (
                    Some(UpiEventKind::L1PowerCycles),
                    Some(0x42_0021u64)
                )
            );
            assert(
                upi_counter(architecture, 1, 0) == (
                    Some(UpiEventKind::TxNonDataFlits),
                    Some(0x42_9702u64)
                )
            );
            assert(
                upi_counter(architecture, 1, 1) == (
                    Some(UpiEventKind::RxNonDataFlits),
                    Some(0x42_9703u64)
                )
            );
            assert(
                upi_counter(architecture, 2, 0) == (
                    Some(UpiEventKind::TxL0pPowerCycles),
                    Some(0x42_0027u64)
                )
            );
            assert(
                upi_counter(architecture, 2, 1) == (
                    Some(UpiEventKind::RxL0pPowerCycles),
                    Some(0x42_0025u64)
                )
            );
        },
        UpiArchitecture::Spr => {
            assert(
                upi_counter(architecture, 0, 0) == (Some(UpiEventKind::Clockticks), Some(0x1u64))
            );
            assert(
                upi_counter(architecture, 0, 1) == (Some(UpiEventKind::TxDataFlits), Some(0xf02u64))
            );
            assert(
                upi_counter(architecture, 0, 2) == (Some(UpiEventKind::RxDataFlits), Some(0xf03u64))
            );
            assert(
                upi_counter(architecture, 0, 3) == (
                    Some(UpiEventKind::L1PowerCycles),
                    Some(0x21u64)
                )
            );
            assert(
                upi_counter(architecture, 1, 0) == (
                    Some(UpiEventKind::TxNonDataFlits),
                    Some(0x9702u64)
                )
            );
            assert(
                upi_counter(architecture, 1, 1) == (
                    Some(UpiEventKind::RxNonDataFlits),
                    Some(0x9703u64)
                )
            );
        },
    }
}

/// Whether a word selects an event of QPI links.
pub open spec fn qpi_selects(architecture: QpiArchitecture, kind: QpiEventKind, word: u64) -> bool {
    match kind {
        QpiEventKind::Clockticks => word == 0x42_0014,
        QpiEventKind::TxDataFlits => word == 0x42_0200,
        QpiEventKind::TxNonDataFlits => word == 0x42_0400,
        QpiEventKind::L1PowerCycles => word == 0x42_0012,
        QpiEventKind::TxQueueInserts => word == 0x42_0004,
        QpiEventKind::TxQueueOccupancy => word == 0x42_0007,
        QpiEventKind::RxQueueInserts => word == 0x42_0008,
        QpiEventKind::RxQueueOccupancy => word == 0x42_000b,
        QpiEventKind::RxL0pPowerCycles => word == 0x42_0010,
        QpiEventKind::TxL0pPowerCycles => word == 0x42_000d,
        QpiEventKind::RxDataFlits => match architecture {
            QpiArchitecture::Bdx => word == 0x62_0403 || word == 0x62_0802,
            QpiArchitecture::Hsx => word == 0x62_0403 || word == 0x62_0802,
            QpiArchitecture::Ivb => word == 0x42_0201 || word == 0x62_0403 || word == 0x62_0802,
            QpiArchitecture::Snb => word == 0x42_0201 || word == 0x62_0403 || word == 0x62_0802,
        },
        QpiEventKind::RxNonDataFlits => match architecture {
            QpiArchitecture::Bdx => word == 0x62_0102 || word == 0x62_0103 || word == 0x62_0203
                || word == 0x62_0602 || word == 0x62_0803 || word == 0x62_1002 || word == 0x62_1003,
            QpiArchitecture::Hsx => word == 0x62_0102 || word == 0x62_0103 || word == 0x62_0203
                || word == 0x62_0602 || word == 0x62_0803 || word == 0x62_1002 || word == 0x62_1003,
            QpiArchitecture::Ivb => word == 0x42_0401 || word == 0x62_0102 || word == 0x62_0103
                || word == 0x62_0203 || word == 0x62_0602 || word == 0x62_0803 || word == 0x62_1002
                || word == 0x62_1003,
            QpiArchitecture::Snb => word == 0x42_0401 || word == 0x62_0102 || word == 0x62_0103
                || word == 0x62_0203 || word == 0x62_0602 || word == 0x62_0803 || word == 0x62_1002
                || word == 0x62_1003,
        },
        _ => false,
    }
}

/// What counter `c` counts in group `g` of QPI links, and the word that selects it.
pub open spec fn qpi_counter(
    architecture: QpiArchitecture,
    g: int,
    c: int,
) -> (Option<QpiEventKind>, Option<u64>) {
    let group = qpi_common::groups(architecture)[g];
    (qpi_common::counter_kinds(group)[c], qpi_common::control_words(group)[c])
}

/// Whether an event of QPI links is counted by way of a word.
pub open spec fn qpi_counts(architecture: QpiArchitecture, kind: QpiEventKind, word: u64) -> bool {
    exists|g: int, c: int|
        {
            &&& 0 <= g < qpi_common::groups(architecture).len()
            &&& 0 <= c < 4
            &&& #[trigger] qpi_counter(architecture, g, c) == (Some(kind), Some(word))
        }
}

/// Every counter of QPI links is told to count the very event that its count is
/// taken for, and no event where its count is not used.
pub proof fn qpi_counters_count_their_events(architecture: QpiArchitecture, g: int, c: int)
    requires
        0 <= g < qpi_common::groups(architecture).len(),
        0 <= c < 4,
    ensures
        match qpi_counter(architecture, g, c) {
            (Some(kind), word) => word matches Some(word) && qpi_selects(architecture, kind, word),
            (None, word) => word == Some(0u64),
        },
{
    let group = qpi_common::groups(architecture)[g];
    match architecture {
        QpiArchitecture::Bdx => {
            assert(g == 0 || g == 1 || g == 2 || g == 3 || g == 4 || g == 5);
        },
        QpiArchitecture::Hsx => {
            assert(g == 0 || g == 1 || g == 2 || g == 3 || g == 4 || g == 5);
        },
        QpiArchitecture::Ivb => {
            assert(g == 0 || g == 1 || g == 2 || g == 3 || g == 4 || g == 5 || g == 6);
        },
        QpiArchitecture::Snb => {
            assert(g == 0 || g == 1 || g == 2 || g == 3 || g == 4 || g == 5 || g == 6);
        },
    }
    assert(c == 0 || c == 1 || c == 2 || c == 3);
    assert(group.events@[c] == group.events[c]);
}

/// Every event of QPI links is counted, in all its parts.
pub proof fn qpi_counts_every_event(architecture: QpiArchitecture)
    ensures
        match architecture {
            QpiArchitecture::Bdx => {
                &&& qpi_counts(architecture, QpiEventKind::Clockticks, 0x42_0014)
                &&& qpi_counts(architecture, QpiEventKind::TxDataFlits, 0x42_0200)
                &&& qpi_counts(architecture, QpiEventKind::TxNonDataFlits, 0x42_0400)
                &&& qpi_counts(architecture, QpiEventKind::L1PowerCycles, 0x42_0012)
                &&& qpi_counts(architecture, QpiEventKind::TxQueueInserts, 0x42_0004)
                &&& qpi_counts(architecture, QpiEventKind::TxQueueOccupancy, 0x42_0007)
                &&& qpi_counts(architecture, QpiEventKind::RxQueueInserts, 0x42_0008)
                &&& qpi_counts(architecture, QpiEventKind::RxQueueOccupancy, 0x42_000b)
                &&& qpi_counts(architecture, QpiEventKind::RxL0pPowerCycles, 0x42_0010)
                &&& qpi_counts(architecture, QpiEventKind::TxL0pPowerCycles, 0x42_000d)
                &&& qpi_counts(architecture, QpiEventKind::RxDataFlits, 0x62_0802)
                &&& qpi_counts(architecture, QpiEventKind::RxDataFlits, 0x62_0403)
                &&& qpi_counts(architecture, QpiEventKind::RxNonDataFlits, 0x62_1002)
                &&& qpi_counts(architecture, QpiEventKind::RxNonDataFlits, 0x62_0803)
                &&& qpi_counts(architecture, QpiEventKind::RxNonDataFlits, 0x62_0102)
                &&& qpi_counts(architecture, QpiEventKind::RxNonDataFlits, 0x62_0602)
                &&& qpi_counts(architecture, QpiEventKind::RxNonDataFlits, 0x62_0103)
                &&& qpi_counts(architecture, QpiEventKind::RxNonDataFlits, 0x62_0203)
                &&& qpi_counts(architecture, QpiEventKind::RxNonDataFlits, 0x62_1003)
            },
            QpiArchitecture::Hsx => {
                &&& qpi_counts(architecture, QpiEventKind::Clockticks, 0x42_0014)
                &&& qpi_counts(architecture, QpiEventKind::TxDataFlits, 0x42_0200)
                &&& qpi_counts(architecture, QpiEventKind::TxNonDataFlits, 0x42_0400)
                &&& qpi_counts(architecture, QpiEventKind::L1PowerCycles, 0x42_0012)
                &&& qpi_counts(architecture, QpiEventKind::TxQueueInserts, 0x42_0004)
                &&& qpi_counts(architecture, QpiEventKind::TxQueueOccupancy, 0x42_0007)
                &&& qpi_counts(architecture, QpiEventKind::RxQueueInserts, 0x42_0008)
                &&& qpi_counts(architecture, QpiEventKind::RxQueueOccupancy, 0x42_000b)
                &&& qpi_counts(architecture, QpiEventKind::RxL0pPowerCycles, 0x42_0010)
                &&& qpi_counts(architecture, QpiEventKind::TxL0pPowerCycles, 0x42_000d)
                &&& qpi_counts(architecture, QpiEventKind::RxDataFlits, 0x62_0802)
                &&& qpi_counts(architecture, QpiEventKind::RxDataFlits, 0x62_0403)
                &&& qpi_counts(architecture, QpiEventKind::RxNonDataFlits, 0x62_1002)
                &&& qpi_counts(architecture, QpiEventKind::RxNonDataFlits, 0x62_0803)
                &&& qpi_counts(architecture, QpiEventKind::RxNonDataFlits, 0x62_0102)
                &&& qpi_counts(architecture, QpiEventKind::RxNonDataFlits, 0x62_0602)
                &&& qpi_counts(architecture, QpiEventKind::RxNonDataFlits, 0x62_0103)
                &&& qpi_counts(architecture, QpiEventKind::RxNonDataFlits, 0x62_0203)
                &&& qpi_counts(architecture, QpiEventKind::RxNonDataFlits, 0x62_1003)
            },
            QpiArchitecture::Ivb => {
                &&& qpi_counts(architecture, QpiEventKind::Clockticks, 0x42_0014)
                &&& qpi_counts(architecture, QpiEventKind::TxDataFlits, 0x42_0200)
                &&& qpi_counts(architecture, QpiEventKind::TxNonDataFlits, 0x42_0400)
                &&& qpi_counts(architecture, QpiEventKind::L1PowerCycles, 0x42_0012)
                &&& qpi_counts(architecture, QpiEventKind::TxQueueInserts, 0x42_0004)
                &&& qpi_counts(architecture, QpiEventKind::TxQueueOccupancy, 0x42_0007)
                &&& qpi_counts(architecture, QpiEventKind::RxQueueInserts, 0x42_0008)
                &&& qpi_counts(architecture, QpiEventKind::RxQueueOccupancy, 0x42_000b)
                &&& qpi_counts(architecture, QpiEventKind::RxL0pPowerCycles, 0x42_0010)
                &&& qpi_counts(architecture, QpiEventKind::TxL0pPowerCycles, 0x42_000d)
                &&& qpi_counts(architecture, QpiEventKind::RxDataFlits, 0x42_0201)
                &&& qpi_counts(architecture, QpiEventKind::RxNonDataFlits, 0x42_0401)
                &&& qpi_counts(architecture, QpiEventKind::RxDataFlits, 0x62_0802)
                &&& qpi_counts(architecture, QpiEventKind::RxDataFlits, 0x62_0403)
                &&& qpi_counts(architecture, QpiEventKind::RxNonDataFlits, 0x62_1002)
                &&& qpi_counts(architecture, QpiEventKind::RxNonDataFlits, 0x62_0803)
                &&& qpi_counts(architecture, QpiEventKind::RxNonDataFlits, 0x62_0102)
                &&& qpi_counts(architecture, QpiEventKind::RxNonDataFlits, 0x62_0602)
                &&& qpi_counts(architecture, QpiEventKind::RxNonDataFlits, 0x62_0103)
                &&& qpi_counts(architecture, QpiEventKind::RxNonDataFlits, 0x62_0203)
                &&& qpi_counts(architecture, QpiEventKind::RxNonDataFlits, 0x62_1003)
            },
            QpiArchitecture::Snb => {
                &&& qpi_counts(architecture, QpiEventKind::Clockticks, 0x42_0014)
                &&& qpi_counts(architecture, QpiEventKind::TxDataFlits, 0x42_0200)
                &&& qpi_counts(architecture, QpiEventKind::TxNonDataFlits, 0x42_0400)
                &&& qpi_counts(architecture, QpiEventKind::L1PowerCycles, 0x42_0012)
                &&& qpi_counts(architecture, QpiEventKind::TxQueueInserts, 0x42_0004)
                &&& qpi_counts(architecture, QpiEventKind::TxQueueOccupancy, 0x42_0007)
                &&& qpi_counts(architecture, QpiEventKind::RxQueueInserts, 0x42_0008)
                &&& qpi_counts(architecture, QpiEventKind::RxQueueOccupancy, 0x42_000b)
                &&& qpi_counts(architecture, QpiEventKind::RxL0pPowerCycles, 0x42_0010)
                &&& qpi_counts(architecture, QpiEventKind::TxL0pPowerCycles, 0x42_000d)
                &&& qpi_counts(architecture, QpiEventKind::RxDataFlits, 0x42_0201)
                &&& qpi_counts(architecture, QpiEventKind::RxNonDataFlits, 0x42_0401)
                &&& qpi_counts(architecture, QpiEventKind::RxDataFlits, 0x62_0802)
                &&& qpi_counts(architecture, QpiEventKind::RxDataFlits, 0x62_0403)
                &&& qpi_counts(architecture, QpiEventKind::RxNonDataFlits, 0x62_1002)
                &&& qpi_counts(architecture, QpiEventKind::RxNonDataFlits, 0x62_0803)
                &&& qpi_counts(architecture, QpiEventKind::RxNonDataFlits, 0x62_0102)
                &&& qpi_counts(architecture, QpiEventKind::RxNonDataFlits, 0x62_0602)
                &&& qpi_counts(architecture, QpiEventKind::RxNonDataFlits, 0x62_0103)
                &&& qpi_counts(architecture, QpiEventKind::RxNonDataFlits, 0x62_0203)
                &&& qpi_counts(architecture, QpiEventKind::RxNonDataFlits, 0x62_1003)
            },
        },
{
    match architecture {
        QpiArchitecture::Bdx => {
            assert(
                qpi_counter(architecture, 0, 0) == (
                    Some(QpiEventKind::Clockticks),
                    Some(0x42_0014u64)
                )
            );
            assert(
                qpi_counter(architecture, 0, 1) == (
                    Some(QpiEventKind::TxDataFlits),
                    Some(0x42_0200u64)
                )
            );
            assert(
                qpi_counter(architecture, 0, 2) == (
                    Some(QpiEventKind::TxNonDataFlits),
                    Some(0x42_0400u64)
                )
            );
            assert(
                qpi_counter(architecture, 0, 3) == (
                    Some(QpiEventKind::L1PowerCycles),
                    Some(0x42_0012u64)
                )
            );
            assert(
                qpi_counter(architecture, 1, 0) == (
                    Some(QpiEventKind::TxQueueInserts),
                    Some(0x42_0004u64)
                )
            );
            assert(
                qpi_counter(architecture, 1, 1) == (
                    Some(QpiEventKind::TxQueueOccupancy),
                    Some(0x42_0007u64)
                )
            );
            assert(
                qpi_counter(architecture, 1, 2) == (
                    Some(QpiEventKind::RxQueueInserts),
                    Some(0x42_0008u64)
                )
            );
            assert(
                qpi_counter(architecture, 1, 3) == (
                    Some(QpiEventKind::RxQueueOccupancy),
                    Some(0x42_000bu64)
                )
            );
            assert(
                qpi_counter(architecture, 2, 0) == (
                    Some(QpiEventKind::RxL0pPowerCycles),
                    Some(0x42_0010u64)
                )
            );
            assert(
                qpi_counter(architecture, 2, 1) == (
                    Some(QpiEventKind::TxL0pPowerCycles),
                    Some(0x42_000du64)
                )
            );
            assert(
                qpi_counter(architecture, 3, 0) == (
                    Some(QpiEventKind::RxDataFlits),
                    Some(0x62_0802u64)
                )
            );
            assert(
                qpi_counter(architecture, 3, 1) == (
                    Some(QpiEventKind::RxDataFlits),
                    Some(0x62_0403u64)
                )
            );
            assert(
                qpi_counter(architecture, 3, 2) == (
                    Some(QpiEventKind::RxNonDataFlits),
                    Some(0x62_1002u64)
                )
            );
            assert(
                qpi_counter(architecture, 3, 3) == (
                    Some(QpiEventKind::RxNonDataFlits),
                    Some(0x62_0803u64)
                )
            );
            assert(
                qpi_counter(architecture, 4, 0) == (
                    Some(QpiEventKind::RxNonDataFlits),
                    Some(0x62_0102u64)
                )
            );
            assert(
                qpi_counter(architecture, 4, 1) == (
                    Some(QpiEventKind::RxNonDataFlits),
                    Some(0x62_0602u64)
                )
            );
            assert(
                qpi_counter(architecture, 4, 2) == (
                    Some(QpiEventKind::RxNonDataFlits),
                    Some(0x62_0103u64)
                )
            );
            assert(
                qpi_counter(architecture, 4, 3) == (
                    Some(QpiEventKind::RxNonDataFlits),
                    Some(0x62_0203u64)
                )
            );
            assert(
                qpi_counter(architecture, 5, 0) == (
                    Some(QpiEventKind::RxNonDataFlits),
                    Some(0x62_1003u64)
                )
            );
        },
        QpiArchitecture::Hsx => {
            assert(
                qpi_counter(architecture, 0, 0) == (
                    Some(QpiEventKind::Clockticks),
                    Some(0x42_0014u64)
                )
            );
            assert(
                qpi_counter(architecture, 0, 1) == (
                    Some(QpiEventKind::TxDataFlits),
                    Some(0x42_0200u64)
                )
            );
            assert(
                qpi_counter(architecture, 0, 2) == (
                    Some(QpiEventKind::TxNonDataFlits),
                    Some(0x42_0400u64)
                )
            );
            assert(
                qpi_counter(architecture, 0, 3) == (
                    Some(QpiEventKind::L1PowerCycles),
                    Some(0x42_0012u64)
                )
            );
            assert(
                qpi_counter(architecture, 1, 0) == (
                    Some(QpiEventKind::TxQueueInserts),
                    Some(0x42_0004u64)
                )
            );
            assert(
                qpi_counter(architecture, 1, 1) == (
                    Some(QpiEventKind::TxQueueOccupancy),
                    Some(0x42_0007u64)
                )
            );
            assert(
                qpi_counter(architecture, 1, 2) == (
                    Some(QpiEventKind::RxQueueInserts),
                    Some(0x42_0008u64)
                )
            );
            assert(
                qpi_counter(architecture, 1, 3) == (
                    Some(QpiEventKind::RxQueueOccupancy),
                    Some(0x42_000bu64)
                )
            );
            assert(
                qpi_counter(architecture, 2, 0) == (
                    Some(QpiEventKind::RxL0pPowerCycles),
                    Some(0x42_0010u64)
                )
            );
            assert(
                qpi_counter(architecture, 2, 1) == (
                    Some(QpiEventKind::TxL0pPowerCycles),
                    Some(0x42_000du64)
                )
            );
            assert(
                qpi_counter(architecture, 3, 0) == (
                    Some(QpiEventKind::RxDataFlits),
                    Some(0x62_0802u64)
                )
            );
            assert(
                qpi_counter(architecture, 3, 1) == (
                    Some(QpiEventKind::RxDataFlits),
                    Some(0x62_0403u64)
                )
            );
            assert(
                qpi_counter(architecture, 3, 2) == (
                    Some(QpiEventKind::RxNonDataFlits),
                    Some(0x62_1002u64)
                )
            );
            assert(
                qpi_counter(architecture, 3, 3) == (
                    Some(QpiEventKind::RxNonDataFlits),
                    Some(0x62_0803u64)
                )
            );
            assert(
                qpi_counter(architecture, 4, 0) == (
                    Some(QpiEventKind::RxNonDataFlits),
                    Some(0x62_0102u64)
                )
            );
            assert(
                qpi_counter(architecture, 4, 1) == (
                    Some(QpiEventKind::RxNonDataFlits),
                    Some(0x62_0602u64)
                )
            );
            assert(
                qpi_counter(architecture, 4, 2) == (
                    Some(QpiEventKind::RxNonDataFlits),
                    Some(0x62_0103u64)
                )
            );
            assert(
                qpi_counter(architecture, 4, 3) == (
                    Some(QpiEventKind::RxNonDataFlits),
                    Some(0x62_0203u64)
                )
            );
            assert(
                qpi_counter(architecture, 5, 0) == (
                    Some(QpiEventKind::RxNonDataFlits),
                    Some(0x62_1003u64)
                )
            );
        },
        QpiArchitecture::Ivb => {
            assert(
                qpi_counter(architecture, 0, 0) == (
                    Some(QpiEventKind::Clockticks),
                    Some(0x42_0014u64)
                )
            );
            assert(
                qpi_counter(architecture, 0, 1) == (
                    Some(QpiEventKind::TxDataFlits),
                    Some(0x42_0200u64)
                )
            );
            assert(
                qpi_counter(architecture, 0, 2) == (
                    Some(QpiEventKind::TxNonDataFlits),
                    Some(0x42_0400u64)
                )
            );
            assert(
                qpi_counter(architecture, 0, 3) == (
                    Some(QpiEventKind::L1PowerCycles),
                    Some(0x42_0012u64)
                )
            );
            assert(
                qpi_counter(architecture, 1, 0) == (
                    Some(QpiEventKind::TxQueueInserts),
                    Some(0x42_0004u64)
                )
            );
            assert(
                qpi_counter(architecture, 1, 1) == (
                    Some(QpiEventKind::TxQueueOccupancy),
                    Some(0x42_0007u64)
                )
            );
            assert(
                qpi_counter(architecture, 1, 2) == (
                    Some(QpiEventKind::RxQueueInserts),
                    Some(0x42_0008u64)
                )
            );
            assert(
                qpi_counter(architecture, 1, 3) == (
                    Some(QpiEventKind::RxQueueOccupancy),
                    Some(0x42_000bu64)
                )
            );
            assert(
                qpi_counter(architecture, 2, 0) == (
                    Some(QpiEventKind::RxL0pPowerCycles),
                    Some(0x42_0010u64)
                )
            );
            assert(
                qpi_counter(architecture, 2, 1) == (
                    Some(QpiEventKind::TxL0pPowerCycles),
                    Some(0x42_000du64)
                )
            );
            assert(
                qpi_counter(architecture, 3, 0) == (
                    Some(QpiEventKind::RxDataFlits),
                    Some(0x42_0201u64)
                )
            );
            assert(
                qpi_counter(architecture, 3, 1) == (
                    Some(QpiEventKind::RxNonDataFlits),
                    Some(0x42_0401u64)
                )
            );
            assert(
                qpi_counter(architecture, 4, 0) == (
                    Some(QpiEventKind::RxDataFlits),
                    Some(0x62_0802u64)
                )
            );
            assert(
                qpi_counter(architecture, 4, 1) == (
                    Some(QpiEventKind::RxDataFlits),
                    Some(0x62_0403u64)
                )
            );
            assert(
                qpi_counter(architecture, 4, 2) == (
                    Some(QpiEventKind::RxNonDataFlits),
                    Some(0x62_1002u64)
                )
            );
            assert(
                qpi_counter(architecture, 4, 3) == (
                    Some(QpiEventKind::RxNonDataFlits),
                    Some(0x62_0803u64)
                )
            );
            assert(
                qpi_counter(architecture, 5, 0) == (
                    Some(QpiEventKind::RxNonDataFlits),
                    Some(0x62_0102u64)
                )
            );
            assert(
                qpi_counter(architecture, 5, 1) == (
                    Some(QpiEventKind::RxNonDataFlits),
                    Some(0x62_0602u64)
                )
            );
            assert(
                qpi_counter(architecture, 5, 2) == (
                    Some(QpiEventKind::RxNonDataFlits),
                    Some(0x62_0103u64)
                )
            );
            assert(
                qpi_counter(architecture, 5, 3) == (
                    Some(QpiEventKind::RxNonDataFlits),
                    Some(0x62_0203u64)
                )
            );
            assert(
                qpi_counter(architecture, 6, 0) == (
                    Some(QpiEventKind::RxNonDataFlits),
                    Some(0x62_1003u64)
                )
            );
        },
        QpiArchitecture::Snb => {
            assert(
                qpi_counter(architecture, 0, 0) == (
                    Some(QpiEventKind::Clockticks),
                    Some(0x42_0014u64)
                )
            );
            assert(
                qpi_counter(architecture, 0, 1) == (
                    Some(QpiEventKind::TxDataFlits),
                    Some(0x42_0200u64)
                )
            );
            assert(
                qpi_counter(architecture, 0, 2) == (
                    Some(QpiEventKind::TxNonDataFlits),
                    Some(0x42_0400u64)
                )
            );
            assert(
                qpi_counter(architecture, 0, 3) == (
                    Some(QpiEventKind::L1PowerCycles),
                    Some(0x42_0012u64)
                )
            );
            assert(
                qpi_counter(architecture, 1, 0) == (
                    Some(QpiEventKind::TxQueueInserts),
                    Some(0x42_0004u64)
                )
            );
            assert(
                qpi_counter(architecture, 1, 1) == (
                    Some(QpiEventKind::TxQueueOccupancy),
                    Some(0x42_0007u64)
                )
            );
            assert(
                qpi_counter(architecture, 1, 2) == (
                    Some(QpiEventKind::RxQueueInserts),
                    Some(0x42_0008u64)
                )
            );
            assert(
                qpi_counter(architecture, 1, 3) == (
                    Some(QpiEventKind::RxQueueOccupancy),
                    Some(0x42_000bu64)
                )
            );
            assert(
                qpi_counter(architecture, 2, 0) == (
                    Some(QpiEventKind::RxL0pPowerCycles),
                    Some(0x42_0010u64)
                )
            );
            assert(
                qpi_counter(architecture, 2, 1) == (
                    Some(QpiEventKind::TxL0pPowerCycles),
                    Some(0x42_000du64)
                )
            );
            assert(
                qpi_counter(architecture, 3, 0) == (
                    Some(QpiEventKind::RxDataFlits),
                    Some(0x42_0201u64)
                )
            );
            assert(
                qpi_counter(architecture, 3, 1) == (
                    Some(QpiEventKind::RxNonDataFlits),
                    Some(0x42_0401u64)
                )
            );
            assert(
                qpi_counter(architecture, 4, 0) == (
                    Some(QpiEventKind::RxDataFlits),
                    Some(0x62_0802u64)
                )
            );
            assert(
                qpi_counter(architecture, 4, 1) == (
                    Some(QpiEventKind::RxDataFlits),
                    Some(0x62_0403u64)
                )
            );
            assert(
                qpi_counter(architecture, 4, 2) == (
                    Some(QpiEventKind::RxNonDataFlits),
                    Some(0x62_1002u64)
                )
            );
            assert(
                qpi_counter(architecture, 4, 3) == (
                    Some(QpiEventKind::RxNonDataFlits),
                    Some(0x62_0803u64)
                )
            );
            assert(
                qpi_counter(architecture, 5, 0) == (
                    Some(QpiEventKind::RxNonDataFlits),
                    Some(0x62_0102u64)
                )
            );
            assert(
                qpi_counter(architecture, 5, 1) == (
                    Some(QpiEventKind::RxNonDataFlits),
                    Some(0x62_0602u64)
                )
            );
            assert(
                qpi_counter(architecture, 5, 2) == (
                    Some(QpiEventKind::RxNonDataFlits),
                    Some(0x62_0103u64)
                )
            );
            assert(
                qpi_counter(architecture, 5, 3) == (
                    Some(QpiEventKind::RxNonDataFlits),
                    Some(0x62_0203u64)
                )
            );
            assert(
                qpi_counter(architecture, 6, 0) == (
                    Some(QpiEventKind::RxNonDataFlits),
                    Some(0x62_1003u64)
                )
            );
        },
    }
}

/// Every counter of the memory and the home agents of Haswell and Broadwell is told to count the
/// very event that its count is taken for. The counts of several units are added up, but those of
/// how long a queue is in a state are averaged.
pub proof fn hsx_memory_counters_count_their_events(g: int, c: int)
    requires
        0 <= g < imc_hsx::groups().len(),
        0 <= c < 4,
    ensures
        match imc_hsx::groups()[g] {
            imc_hsx::HsxMeasurementGroup::Ha(group) => {
                let used = imc_hsx::ha_uses(group)[c];
                &&& used.aggregate == Aggregate::Sum
                &&& used.kind matches Some(kind) && imc_hsx::ha_words(group)[c] == Some(
                    match kind {
                        imc_hsx::HsxHaEventKind::LocalRead => 0x52_0101u64,
                        imc_hsx::HsxHaEventKind::RemoteRead => 0x52_0201u64,
                        imc_hsx::HsxHaEventKind::LocalWrite => 0x52_0401u64,
                        imc_hsx::HsxHaEventKind::RemoteWrite => 0x52_0801u64,
                    },
                )
            },
            imc_hsx::HsxMeasurementGroup::Imc(group) => {
                let used = imc_hsx::imc_uses(group)[c];
                let word = imc_hsx::imc_words(group)[c];
                match used.kind {
                    Some(kind) => match kind {
                        imc_hsx::HsxImcEventKind::ReadCas => word == Some(0x52_0304u64)
                            && used.aggregate == Aggregate::Sum,
                        imc_hsx::HsxImcEventKind::WriteCas => word == Some(0x52_0c04u64)
                            && used.aggregate == Aggregate::Sum,
                        imc_hsx::HsxImcEventKind::Activate => word == Some(0x52_0b01u64)
                            && used.aggregate == Aggregate::Sum,
                        imc_hsx::HsxImcEventKind::PageMissPrecharge => word == Some(0x52_0102u64)
                            && used.aggregate == Aggregate::Sum,
                        imc_hsx::HsxImcEventKind::RpqNonEmpty => word == Some(0x52_0011u64)
                            && used.aggregate == Aggregate::Average,
                        imc_hsx::HsxImcEventKind::WpqNonEmpty => word == Some(0x52_0021u64)
                            && used.aggregate == Aggregate::Average,
                        imc_hsx::HsxImcEventKind::WpqFull => word == Some(0x52_0022u64)
                            && used.aggregate == Aggregate::Average,
                    },
                    None => word is None,
                }
            },
        },
{
    assert(g == 0 || g == 1 || g == 2);
    assert(c == 0 || c == 1 || c == 2 || c == 3);
}

/// How the counters of Sandy and Ivy Bridge are put together: how long a queue is in a state is
/// averaged over the channels, all else is added up, and what is not used is left out.
pub proof fn snb_memory_queues_are_averaged(architecture: SnbArchitecture, g: int, c: int)
    requires
        0 <= g < imc_snb::groups(architecture).len(),
        0 <= c < 4,
    ensures
        ({
            let used = imc_snb::counter_uses(imc_snb::groups(architecture)[g])[c];
            match used.kind {
                Some(imc_snb::SnbImcEventKind::RpqNonEmpty) => used.aggregate == Aggregate::Average,
                Some(imc_snb::SnbImcEventKind::WpqNonEmpty) => used.aggregate == Aggregate::Average,
                Some(imc_snb::SnbImcEventKind::WpqFull) => used.aggregate == Aggregate::Average,
                Some(_) => used.aggregate == Aggregate::Sum,
                None => used.aggregate == Aggregate::Disabled,
            }
        }),
{
    match architecture {
        SnbArchitecture::Ivb => {
            assert(g == 0 || g == 1 || g == 2);
        },
        SnbArchitecture::Snb => {
            assert(g == 0 || g == 1 || g == 2);
        },
    }
    assert(c == 0 || c == 1 || c == 2 || c == 3);
}

} // verus!
