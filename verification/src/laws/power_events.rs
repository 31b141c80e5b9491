//! Which event each counter of a power control unit is told to count.
use crate::ep::SnbArchitecture;
use crate::metrics::pcu::common::PcuEventKind;
use crate::metrics::pcu::{
    hsx, icx, skx, snb, spr, PcuCoreCState, PcuFrequencyLimitReason, PcuThermalThrottleSource,
};
use vstd::prelude::*;

verus! {

/// Whether a word selects an event of the power control unit of Haswell and Broadwell.
pub open spec fn hsx_power_selects(kind: PcuEventKind, word: u64) -> bool {
    match kind {
        PcuEventKind::Clockticks => word == 0x52_0000,
        PcuEventKind::CoreCState(PcuCoreCState::C0) => word == 0x52_4080,
        PcuEventKind::CoreCState(PcuCoreCState::C3) => word == 0x52_8080,
        PcuEventKind::CoreCState(PcuCoreCState::C6) => word == 0x52_c080,
        PcuEventKind::FrequencyLimit(PcuFrequencyLimitReason::Power) => word == 0x52_0005,
        PcuEventKind::FrequencyLimit(PcuFrequencyLimitReason::Thermal) => word == 0x52_0004,
        PcuEventKind::FrequencyLimit(PcuFrequencyLimitReason::Os) => word == 0x52_0006,
        PcuEventKind::FrequencyLimit(PcuFrequencyLimitReason::IoP) => word == 0x52_0073,
        PcuEventKind::FrequencyTransition => word == 0x52_0074,
        PcuEventKind::MemoryPhaseShedding => word == 0x52_002f,
        PcuEventKind::ThermalThrottle(
            PcuThermalThrottleSource::InternalProchot,
        ) => word == 0x52_0009,
        PcuEventKind::ThermalThrottle(
            PcuThermalThrottleSource::ExternalProchot,
        ) => word == 0x52_000a,
        PcuEventKind::ThermalThrottle(PcuThermalThrottleSource::VrHot) => word == 0x52_0042,
        PcuEventKind::PackageCState(PcuCoreCState::C0) => word == 0x52_002a,
        PcuEventKind::PackageCState(PcuCoreCState::C3) => word == 0x52_002c,
        PcuEventKind::PackageCState(PcuCoreCState::C6) => word == 0x52_002d,
        _ => false,
    }
}

/// What counter `c` counts in group `g` of the power control unit of Haswell and Broadwell, and the
/// word that selects it.
pub open spec fn hsx_power_counter(g: int, c: int) -> (Option<PcuEventKind>, Option<u64>) {
    let group = hsx::groups()[g];
    (if group.events@[c].kind == PcuEventKind::Unused {
            None
        } else {
            Some(group.events@[c].kind)
        }, hsx::control_words(group)[c])
}

/// Whether an event of the power control unit of Haswell and Broadwell is counted by way of a word.
pub open spec fn hsx_power_counts(kind: PcuEventKind, word: u64) -> bool {
    exists|g: int, c: int|
        {
            &&& 0 <= g < hsx::groups().len()
            &&& 0 <= c < 4
            &&& #[trigger] hsx_power_counter(g, c) == (Some(kind), Some(word))
        }
}

/// Every counter of the power control unit of Haswell and Broadwell is told to count the very event
/// that its count is taken for, and no event where its count is not used.
pub proof fn hsx_power_counters_count_their_events(g: int, c: int)
    requires
        0 <= g < hsx::groups().len(),
        0 <= c < 4,
    ensures
        match hsx_power_counter(g, c) {
            (Some(kind), word) => word matches Some(word) && hsx_power_selects(kind, word),
            (None, word) => word == Some(0u64),
        },
        hsx::used_counters(hsx::groups()[g])[c] <==> hsx_power_counter(g, c).0 is Some,
{
    let group = hsx::groups()[g];
    assert(g == 0 || g == 1 || g == 2 || g == 3 || g == 4);
    assert(c == 0 || c == 1 || c == 2 || c == 3);
    assert(group.events@[c] == group.events[c]);
}

/// Every event of the power control unit of Haswell and Broadwell is counted, in all its parts.
pub proof fn hsx_power_counts_every_event()
    ensures
        hsx_power_counts(PcuEventKind::Clockticks, 0x52_0000),
        hsx_power_counts(PcuEventKind::CoreCState(PcuCoreCState::C0), 0x52_4080),
        hsx_power_counts(PcuEventKind::CoreCState(PcuCoreCState::C3), 0x52_8080),
        hsx_power_counts(PcuEventKind::CoreCState(PcuCoreCState::C6), 0x52_c080),
        hsx_power_counts(PcuEventKind::FrequencyLimit(PcuFrequencyLimitReason::Power), 0x52_0005),
        hsx_power_counts(PcuEventKind::FrequencyLimit(PcuFrequencyLimitReason::Thermal), 0x52_0004),
        hsx_power_counts(PcuEventKind::FrequencyLimit(PcuFrequencyLimitReason::Os), 0x52_0006),
        hsx_power_counts(PcuEventKind::FrequencyLimit(PcuFrequencyLimitReason::IoP), 0x52_0073),
        hsx_power_counts(PcuEventKind::FrequencyTransition, 0x52_0074),
        hsx_power_counts(PcuEventKind::MemoryPhaseShedding, 0x52_002f),
        hsx_power_counts(
            PcuEventKind::ThermalThrottle(PcuThermalThrottleSource::InternalProchot),
            0x52_0009,
        ),
        hsx_power_counts(
            PcuEventKind::ThermalThrottle(PcuThermalThrottleSource::ExternalProchot),
            0x52_000a,
        ),
        hsx_power_counts(PcuEventKind::ThermalThrottle(PcuThermalThrottleSource::VrHot), 0x52_0042),
        hsx_power_counts(PcuEventKind::PackageCState(PcuCoreCState::C0), 0x52_002a),
        hsx_power_counts(PcuEventKind::PackageCState(PcuCoreCState::C3), 0x52_002c),
        hsx_power_counts(PcuEventKind::PackageCState(PcuCoreCState::C6), 0x52_002d),
{
    assert(hsx_power_counter(0, 0) == (Some(PcuEventKind::Clockticks), Some(0x52_0000u64)));
    assert(
        hsx_power_counter(0, 1) == (
            Some(PcuEventKind::CoreCState(PcuCoreCState::C0)),
            Some(0x52_4080u64)
        )
    );
    assert(
        hsx_power_counter(0, 2) == (
            Some(PcuEventKind::CoreCState(PcuCoreCState::C3)),
            Some(0x52_8080u64)
        )
    );
    assert(
        hsx_power_counter(0, 3) == (
            Some(PcuEventKind::CoreCState(PcuCoreCState::C6)),
            Some(0x52_c080u64)
        )
    );
    assert(
        hsx_power_counter(1, 0) == (
            Some(PcuEventKind::FrequencyLimit(PcuFrequencyLimitReason::Power)),
            Some(0x52_0005u64)
        )
    );
    assert(
        hsx_power_counter(1, 1) == (
            Some(PcuEventKind::FrequencyLimit(PcuFrequencyLimitReason::Thermal)),
            Some(0x52_0004u64)
        )
    );
    assert(
        hsx_power_counter(1, 2) == (
            Some(PcuEventKind::FrequencyLimit(PcuFrequencyLimitReason::Os)),
            Some(0x52_0006u64)
        )
    );
    assert(
        hsx_power_counter(1, 3) == (
            Some(PcuEventKind::FrequencyLimit(PcuFrequencyLimitReason::IoP)),
            Some(0x52_0073u64)
        )
    );
    assert(
        hsx_power_counter(2, 0) == (Some(PcuEventKind::FrequencyTransition), Some(0x52_0074u64))
    );
    assert(
        hsx_power_counter(2, 1) == (Some(PcuEventKind::MemoryPhaseShedding), Some(0x52_002fu64))
    );
    assert(
        hsx_power_counter(2, 2) == (
            Some(PcuEventKind::ThermalThrottle(PcuThermalThrottleSource::InternalProchot)),
            Some(0x52_0009u64)
        )
    );
    assert(
        hsx_power_counter(2, 3) == (
            Some(PcuEventKind::ThermalThrottle(PcuThermalThrottleSource::ExternalProchot)),
            Some(0x52_000au64)
        )
    );
    assert(
        hsx_power_counter(3, 0) == (
            Some(PcuEventKind::ThermalThrottle(PcuThermalThrottleSource::VrHot)),
            Some(0x52_0042u64)
        )
    );
    assert(
        hsx_power_counter(4, 0) == (
            Some(PcuEventKind::PackageCState(PcuCoreCState::C0)),
            Some(0x52_002au64)
        )
    );
    assert(
        hsx_power_counter(4, 1) == (
            Some(PcuEventKind::PackageCState(PcuCoreCState::C3)),
            Some(0x52_002cu64)
        )
    );
    assert(
        hsx_power_counter(4, 2) == (
            Some(PcuEventKind::PackageCState(PcuCoreCState::C6)),
            Some(0x52_002du64)
        )
    );
}

/// Whether a word selects an event of the power control unit of Skylake.
pub open spec fn skx_power_selects(kind: PcuEventKind, word: u64) -> bool {
    match kind {
        PcuEventKind::Clockticks => word == 0x52_0000,
        PcuEventKind::CoreCState(PcuCoreCState::C0) => word == 0x52_4080,
        PcuEventKind::CoreCState(PcuCoreCState::C3) => word == 0x52_8080,
        PcuEventKind::CoreCState(PcuCoreCState::C6) => word == 0x52_c080,
        PcuEventKind::FrequencyLimit(PcuFrequencyLimitReason::Power) => word == 0x52_0005,
        PcuEventKind::FrequencyLimit(PcuFrequencyLimitReason::Thermal) => word == 0x52_0004,
        PcuEventKind::FrequencyLimit(PcuFrequencyLimitReason::IoP) => word == 0x52_0073,
        PcuEventKind::FrequencyTransition => word == 0x52_0074,
        PcuEventKind::MemoryPhaseShedding => word == 0x52_002f,
        PcuEventKind::ThermalThrottle(
            PcuThermalThrottleSource::InternalProchot,
        ) => word == 0x52_0009,
        PcuEventKind::ThermalThrottle(
            PcuThermalThrottleSource::ExternalProchot,
        ) => word == 0x52_000a,
        PcuEventKind::ThermalThrottle(PcuThermalThrottleSource::VrHot) => word == 0x52_0042,
        PcuEventKind::PackageCState(PcuCoreCState::C0) => word == 0x52_002a,
        PcuEventKind::PackageCState(PcuCoreCState::C3) => word == 0x52_002c,
        PcuEventKind::PackageCState(PcuCoreCState::C6) => word == 0x52_002d,
        _ => false,
    }
}

/// What counter `c` counts in group `g` of the power control unit of Skylake, and the word that
/// selects it.
pub open spec fn skx_power_counter(g: int, c: int) -> (Option<PcuEventKind>, Option<u64>) {
    let group = skx::groups()[g];
    (if group.events@[c].kind == PcuEventKind::Unused {
            None
        } else {
            Some(group.events@[c].kind)
        }, skx::control_words(group)[c])
}

/// Whether an event of the power control unit of Skylake is counted by way of a word.
pub open spec fn skx_power_counts(kind: PcuEventKind, word: u64) -> bool {
    exists|g: int, c: int|
        {
            &&& 0 <= g < skx::groups().len()
            &&& 0 <= c < 4
            &&& #[trigger] skx_power_counter(g, c) == (Some(kind), Some(word))
        }
}

/// Every counter of the power control unit of Skylake is told to count the very event that its
/// count is taken for, and no event where its count is not used.
pub proof fn skx_power_counters_count_their_events(g: int, c: int)
    requires
        0 <= g < skx::groups().len(),
        0 <= c < 4,
    ensures
        match skx_power_counter(g, c) {
            (Some(kind), word) => word matches Some(word) && skx_power_selects(kind, word),
            (None, word) => word == Some(0u64),
        },
        skx::used_counters(skx::groups()[g])[c] <==> skx_power_counter(g, c).0 is Some,
{
    let group = skx::groups()[g];
    assert(g == 0 || g == 1 || g == 2 || g == 3 || g == 4);
    assert(c == 0 || c == 1 || c == 2 || c == 3);
    assert(group.events@[c] == group.events[c]);
}

/// Every event of the power control unit of Skylake is counted, in all its parts.
pub proof fn skx_power_counts_every_event()
    ensures
        skx_power_counts(PcuEventKind::Clockticks, 0x52_0000),
        skx_power_counts(PcuEventKind::CoreCState(PcuCoreCState::C0), 0x52_4080),
        skx_power_counts(PcuEventKind::CoreCState(PcuCoreCState::C3), 0x52_8080),
        skx_power_counts(PcuEventKind::CoreCState(PcuCoreCState::C6), 0x52_c080),
        skx_power_counts(PcuEventKind::FrequencyLimit(PcuFrequencyLimitReason::Power), 0x52_0005),
        skx_power_counts(PcuEventKind::FrequencyLimit(PcuFrequencyLimitReason::Thermal), 0x52_0004),
        skx_power_counts(PcuEventKind::FrequencyLimit(PcuFrequencyLimitReason::IoP), 0x52_0073),
        skx_power_counts(PcuEventKind::FrequencyTransition, 0x52_0074),
        skx_power_counts(PcuEventKind::MemoryPhaseShedding, 0x52_002f),
        skx_power_counts(
            PcuEventKind::ThermalThrottle(PcuThermalThrottleSource::InternalProchot),
            0x52_0009,
        ),
        skx_power_counts(
            PcuEventKind::ThermalThrottle(PcuThermalThrottleSource::ExternalProchot),
            0x52_000a,
        ),
        skx_power_counts(PcuEventKind::ThermalThrottle(PcuThermalThrottleSource::VrHot), 0x52_0042),
        skx_power_counts(PcuEventKind::PackageCState(PcuCoreCState::C0), 0x52_002a),
        skx_power_counts(PcuEventKind::PackageCState(PcuCoreCState::C3), 0x52_002c),
        skx_power_counts(PcuEventKind::PackageCState(PcuCoreCState::C6), 0x52_002d),
{
    assert(skx_power_counter(0, 0) == (Some(PcuEventKind::Clockticks), Some(0x52_0000u64)));
    assert(
        skx_power_counter(0, 1) == (
            Some(PcuEventKind::CoreCState(PcuCoreCState::C0)),
            Some(0x52_4080u64)
        )
    );
    assert(
        skx_power_counter(0, 2) == (
            Some(PcuEventKind::CoreCState(PcuCoreCState::C3)),
            Some(0x52_8080u64)
        )
    );
    assert(
        skx_power_counter(0, 3) == (
            Some(PcuEventKind::CoreCState(PcuCoreCState::C6)),
            Some(0x52_c080u64)
        )
    );
    assert(
        skx_power_counter(1, 0) == (
            Some(PcuEventKind::FrequencyLimit(PcuFrequencyLimitReason::Power)),
            Some(0x52_0005u64)
        )
    );
    assert(
        skx_power_counter(1, 1) == (
            Some(PcuEventKind::FrequencyLimit(PcuFrequencyLimitReason::Thermal)),
            Some(0x52_0004u64)
        )
    );
    assert(
        skx_power_counter(1, 2) == (
            Some(PcuEventKind::FrequencyLimit(PcuFrequencyLimitReason::IoP)),
            Some(0x52_0073u64)
        )
    );
    assert(
        skx_power_counter(2, 0) == (Some(PcuEventKind::FrequencyTransition), Some(0x52_0074u64))
    );
    assert(
        skx_power_counter(2, 1) == (Some(PcuEventKind::MemoryPhaseShedding), Some(0x52_002fu64))
    );
    assert(
        skx_power_counter(2, 2) == (
            Some(PcuEventKind::ThermalThrottle(PcuThermalThrottleSource::InternalProchot)),
            Some(0x52_0009u64)
        )
    );
    assert(
        skx_power_counter(2, 3) == (
            Some(PcuEventKind::ThermalThrottle(PcuThermalThrottleSource::ExternalProchot)),
            Some(0x52_000au64)
        )
    );
    assert(
        skx_power_counter(3, 0) == (
            Some(PcuEventKind::ThermalThrottle(PcuThermalThrottleSource::VrHot)),
            Some(0x52_0042u64)
        )
    );
    assert(
        skx_power_counter(4, 0) == (
            Some(PcuEventKind::PackageCState(PcuCoreCState::C0)),
            Some(0x52_002au64)
        )
    );
    assert(
        skx_power_counter(4, 1) == (
            Some(PcuEventKind::PackageCState(PcuCoreCState::C3)),
            Some(0x52_002cu64)
        )
    );
    assert(
        skx_power_counter(4, 2) == (
            Some(PcuEventKind::PackageCState(PcuCoreCState::C6)),
            Some(0x52_002du64)
        )
    );
}

/// Whether a word selects an event of the power control unit of Sandy and Ivy Bridge.
pub open spec fn snb_power_selects(
    architecture: SnbArchitecture,
    kind: PcuEventKind,
    word: u64,
) -> bool {
    match kind {
        PcuEventKind::Clockticks => word == 0x52_0000,
        PcuEventKind::CoreCState(PcuCoreCState::C0) => word == 0x52_4080,
        PcuEventKind::CoreCState(PcuCoreCState::C3) => word == 0x52_8080,
        PcuEventKind::CoreCState(PcuCoreCState::C6) => word == 0x52_c080,
        PcuEventKind::FrequencyLimit(PcuFrequencyLimitReason::Power) => word == 0x52_0005,
        PcuEventKind::FrequencyLimit(PcuFrequencyLimitReason::Thermal) => word == 0x52_0004,
        PcuEventKind::FrequencyLimit(PcuFrequencyLimitReason::Os) => word == 0x52_0006,
        PcuEventKind::FrequencyLimit(PcuFrequencyLimitReason::Current) => word == 0x52_0007,
        PcuEventKind::FrequencyTransition => match architecture {
            SnbArchitecture::Ivb => word == 0x52_0060,
            SnbArchitecture::Snb => word == 0x72_0000,
        },
        PcuEventKind::FrequencyLimit(PcuFrequencyLimitReason::IoP) => match architecture {
            SnbArchitecture::Ivb => word == 0x52_0061,
            SnbArchitecture::Snb => word == 0x72_0001,
        },
        PcuEventKind::FrequencyLimit(PcuFrequencyLimitReason::PerfP) => match architecture {
            SnbArchitecture::Ivb => word == 0x52_0062,
            SnbArchitecture::Snb => word == 0x72_0002,
        },
        PcuEventKind::MemoryPhaseShedding => word == 0x52_002f,
        PcuEventKind::ThermalThrottle(
            PcuThermalThrottleSource::InternalProchot,
        ) => word == 0x52_0009,
        PcuEventKind::ThermalThrottle(
            PcuThermalThrottleSource::ExternalProchot,
        ) => word == 0x52_000a,
        PcuEventKind::ThermalThrottle(PcuThermalThrottleSource::VrHot) => word == 0x52_0032,
        PcuEventKind::PackageCState(PcuCoreCState::C0) => match architecture {
            SnbArchitecture::Ivb => word == 0x52_002a,
            SnbArchitecture::Snb => false,
        },
        PcuEventKind::PackageCState(PcuCoreCState::C3) => match architecture {
            SnbArchitecture::Ivb => word == 0x52_002c,
            SnbArchitecture::Snb => false,
        },
        PcuEventKind::PackageCState(PcuCoreCState::C6) => match architecture {
            SnbArchitecture::Ivb => word == 0x52_002d,
            SnbArchitecture::Snb => false,
        },
        _ => false,
    }
}

/// What counter `c` counts in group `g` of the power control unit of Sandy and Ivy Bridge, and the
/// word that selects it.
pub open spec fn snb_power_counter(
    architecture: SnbArchitecture,
    g: int,
    c: int,
) -> (Option<PcuEventKind>, Option<u64>) {
    let group = snb::groups(architecture)[g];
    (if group.events@[c].kind == PcuEventKind::Unused {
            None
        } else {
            Some(group.events@[c].kind)
        }, snb::control_words(group)[c])
}

/// Whether an event of the power control unit of Sandy and Ivy Bridge is counted by way of a word.
pub open spec fn snb_power_counts(
    architecture: SnbArchitecture,
    kind: PcuEventKind,
    word: u64,
) -> bool {
    exists|g: int, c: int|
        {
            &&& 0 <= g < snb::groups(architecture).len()
            &&& 0 <= c < 4
            &&& #[trigger] snb_power_counter(architecture, g, c) == (Some(kind), Some(word))
        }
}

/// Every counter of the power control unit of Sandy and Ivy Bridge is told to count the very event
/// that its count is taken for, and no event where its count is not used.
pub proof fn snb_power_counters_count_their_events(architecture: SnbArchitecture, g: int, c: int)
    requires
        0 <= g < snb::groups(architecture).len(),
        0 <= c < 4,
    ensures
        match snb_power_counter(architecture, g, c) {
            (Some(kind), word) => word matches Some(word) && snb_power_selects(
                architecture,
                kind,
                word,
            ),
            (None, word) => word == Some(0u64),
        },
        snb::used_counters(snb::groups(architecture)[g])[c] <==> snb_power_counter(
            architecture,
            g,
            c,
        ).0 is Some,
{
    let group = snb::groups(architecture)[g];
    match architecture {
        SnbArchitecture::Ivb => {
            assert(g == 0 || g == 1 || g == 2 || g == 3 || g == 4);
        },
        SnbArchitecture::Snb => {
            assert(g == 0 || g == 1 || g == 2 || g == 3);
        },
    }
    assert(c == 0 || c == 1 || c == 2 || c == 3);
    assert(group.events@[c] == group.events[c]);
    if group.events@[c].kind != PcuEventKind::Unused {
        snb::control_word_is_a_sum(group.events@[c]);
    }
}

/// Every event of the power control unit of Sandy and Ivy Bridge is counted, in all its parts.
pub proof fn snb_power_counts_every_event(architecture: SnbArchitecture)
    ensures
        match architecture {
            SnbArchitecture::Ivb => {
                &&& snb_power_counts(architecture, PcuEventKind::Clockticks, 0x52_0000)
                &&& snb_power_counts(
                    architecture,
                    PcuEventKind::CoreCState(PcuCoreCState::C0),
                    0x52_4080,
                )
                &&& snb_power_counts(
                    architecture,
                    PcuEventKind::CoreCState(PcuCoreCState::C3),
                    0x52_8080,
                )
                &&& snb_power_counts(
                    architecture,
                    PcuEventKind::CoreCState(PcuCoreCState::C6),
                    0x52_c080,
                )
                &&& snb_power_counts(
                    architecture,
                    PcuEventKind::FrequencyLimit(PcuFrequencyLimitReason::Power),
                    0x52_0005,
                )
                &&& snb_power_counts(
                    architecture,
                    PcuEventKind::FrequencyLimit(PcuFrequencyLimitReason::Thermal),
                    0x52_0004,
                )
                &&& snb_power_counts(
                    architecture,
                    PcuEventKind::FrequencyLimit(PcuFrequencyLimitReason::Os),
                    0x52_0006,
                )
                &&& snb_power_counts(
                    architecture,
                    PcuEventKind::FrequencyLimit(PcuFrequencyLimitReason::Current),
                    0x52_0007,
                )
                &&& snb_power_counts(architecture, PcuEventKind::FrequencyTransition, 0x52_0060)
                &&& snb_power_counts(
                    architecture,
                    PcuEventKind::FrequencyLimit(PcuFrequencyLimitReason::IoP),
                    0x52_0061,
                )
                &&& snb_power_counts(
                    architecture,
                    PcuEventKind::FrequencyLimit(PcuFrequencyLimitReason::PerfP),
                    0x52_0062,
                )
                &&& snb_power_counts(architecture, PcuEventKind::MemoryPhaseShedding, 0x52_002f)
                &&& snb_power_counts(
                    architecture,
                    PcuEventKind::ThermalThrottle(PcuThermalThrottleSource::InternalProchot),
                    0x52_0009,
                )
                &&& snb_power_counts(
                    architecture,
                    PcuEventKind::ThermalThrottle(PcuThermalThrottleSource::ExternalProchot),
                    0x52_000a,
                )
                &&& snb_power_counts(
                    architecture,
                    PcuEventKind::ThermalThrottle(PcuThermalThrottleSource::VrHot),
                    0x52_0032,
                )
                &&& snb_power_counts(
                    architecture,
                    PcuEventKind::PackageCState(PcuCoreCState::C0),
                    0x52_002a,
                )
                &&& snb_power_counts(
                    architecture,
                    PcuEventKind::PackageCState(PcuCoreCState::C3),
                    0x52_002c,
                )
                &&& snb_power_counts(
                    architecture,
                    PcuEventKind::PackageCState(PcuCoreCState::C6),
                    0x52_002d,
                )
            },
            SnbArchitecture::Snb => {
                &&& snb_power_counts(architecture, PcuEventKind::Clockticks, 0x52_0000)
                &&& snb_power_counts(
                    architecture,
                    PcuEventKind::CoreCState(PcuCoreCState::C0),
                    0x52_4080,
                )
                &&& snb_power_counts(
                    architecture,
                    PcuEventKind::CoreCState(PcuCoreCState::C3),
                    0x52_8080,
                )
                &&& snb_power_counts(
                    architecture,
                    PcuEventKind::CoreCState(PcuCoreCState::C6),
                    0x52_c080,
                )
                &&& snb_power_counts(
                    architecture,
                    PcuEventKind::FrequencyLimit(PcuFrequencyLimitReason::Power),
                    0x52_0005,
                )
                &&& snb_power_counts(
                    architecture,
                    PcuEventKind::FrequencyLimit(PcuFrequencyLimitReason::Thermal),
                    0x52_0004,
                )
                &&& snb_power_counts(
                    architecture,
                    PcuEventKind::FrequencyLimit(PcuFrequencyLimitReason::Os),
                    0x52_0006,
                )
                &&& snb_power_counts(
                    architecture,
                    PcuEventKind::FrequencyLimit(PcuFrequencyLimitReason::Current),
                    0x52_0007,
                )
                &&& snb_power_counts(architecture, PcuEventKind::FrequencyTransition, 0x72_0000)
                &&& snb_power_counts(
                    architecture,
                    PcuEventKind::FrequencyLimit(PcuFrequencyLimitReason::IoP),
                    0x72_0001,
                )
                &&& snb_power_counts(
                    architecture,
                    PcuEventKind::FrequencyLimit(PcuFrequencyLimitReason::PerfP),
                    0x72_0002,
                )
                &&& snb_power_counts(architecture, PcuEventKind::MemoryPhaseShedding, 0x52_002f)
                &&& snb_power_counts(
                    architecture,
                    PcuEventKind::ThermalThrottle(PcuThermalThrottleSource::InternalProchot),
                    0x52_0009,
                )
                &&& snb_power_counts(
                    architecture,
                    PcuEventKind::ThermalThrottle(PcuThermalThrottleSource::ExternalProchot),
                    0x52_000a,
                )
                &&& snb_power_counts(
                    architecture,
                    PcuEventKind::ThermalThrottle(PcuThermalThrottleSource::VrHot),
                    0x52_0032,
                )
            },
        },
{
    match architecture {
        SnbArchitecture::Ivb => {
            snb::control_word_is_a_sum(snb::groups(architecture)[0].events@[0]);
            assert(
                snb_power_counter(architecture, 0, 0) == (
                    Some(PcuEventKind::Clockticks),
                    Some(0x52_0000u64)
                )
            );
            snb::control_word_is_a_sum(snb::groups(architecture)[0].events@[1]);
            assert(
                snb_power_counter(architecture, 0, 1) == (
                    Some(PcuEventKind::CoreCState(PcuCoreCState::C0)),
                    Some(0x52_4080u64)
                )
            );
            snb::control_word_is_a_sum(snb::groups(architecture)[0].events@[2]);
            assert(
                snb_power_counter(architecture, 0, 2) == (
                    Some(PcuEventKind::CoreCState(PcuCoreCState::C3)),
                    Some(0x52_8080u64)
                )
            );
            snb::control_word_is_a_sum(snb::groups(architecture)[0].events@[3]);
            assert(
                snb_power_counter(architecture, 0, 3) == (
                    Some(PcuEventKind::CoreCState(PcuCoreCState::C6)),
                    Some(0x52_c080u64)
                )
            );
            snb::control_word_is_a_sum(snb::groups(architecture)[1].events@[0]);
            assert(
                snb_power_counter(architecture, 1, 0) == (
                    Some(PcuEventKind::FrequencyLimit(PcuFrequencyLimitReason::Power)),
                    Some(0x52_0005u64)
                )
            );
            snb::control_word_is_a_sum(snb::groups(architecture)[1].events@[1]);
            assert(
                snb_power_counter(architecture, 1, 1) == (
                    Some(PcuEventKind::FrequencyLimit(PcuFrequencyLimitReason::Thermal)),
                    Some(0x52_0004u64)
                )
            );
            snb::control_word_is_a_sum(snb::groups(architecture)[1].events@[2]);
            assert(
                snb_power_counter(architecture, 1, 2) == (
                    Some(PcuEventKind::FrequencyLimit(PcuFrequencyLimitReason::Os)),
                    Some(0x52_0006u64)
                )
            );
            snb::control_word_is_a_sum(snb::groups(architecture)[1].events@[3]);
            assert(
                snb_power_counter(architecture, 1, 3) == (
                    Some(PcuEventKind::FrequencyLimit(PcuFrequencyLimitReason::Current)),
                    Some(0x52_0007u64)
                )
            );
            snb::control_word_is_a_sum(snb::groups(architecture)[2].events@[0]);
            assert(
                snb_power_counter(architecture, 2, 0) == (
                    Some(PcuEventKind::FrequencyTransition),
                    Some(0x52_0060u64)
                )
            );
            snb::control_word_is_a_sum(snb::groups(architecture)[2].events@[1]);
            assert(
                snb_power_counter(architecture, 2, 1) == (
                    Some(PcuEventKind::FrequencyLimit(PcuFrequencyLimitReason::IoP)),
                    Some(0x52_0061u64)
                )
            );
            snb::control_word_is_a_sum(snb::groups(architecture)[2].events@[2]);
            assert(
                snb_power_counter(architecture, 2, 2) == (
                    Some(PcuEventKind::FrequencyLimit(PcuFrequencyLimitReason::PerfP)),
                    Some(0x52_0062u64)
                )
            );
            snb::control_word_is_a_sum(snb::groups(architecture)[2].events@[3]);
            assert(
                snb_power_counter(architecture, 2, 3) == (
                    Some(PcuEventKind::MemoryPhaseShedding),
                    Some(0x52_002fu64)
                )
            );
            snb::control_word_is_a_sum(snb::groups(architecture)[3].events@[0]);
            assert(
                snb_power_counter(architecture, 3, 0) == (
                    Some(PcuEventKind::ThermalThrottle(PcuThermalThrottleSource::InternalProchot)),
                    Some(0x52_0009u64)
                )
            );
            snb::control_word_is_a_sum(snb::groups(architecture)[3].events@[1]);
            assert(
                snb_power_counter(architecture, 3, 1) == (
                    Some(PcuEventKind::ThermalThrottle(PcuThermalThrottleSource::ExternalProchot)),
                    Some(0x52_000au64)
                )
            );
            snb::control_word_is_a_sum(snb::groups(architecture)[3].events@[2]);
            assert(
                snb_power_counter(architecture, 3, 2) == (
                    Some(PcuEventKind::ThermalThrottle(PcuThermalThrottleSource::VrHot)),
                    Some(0x52_0032u64)
                )
            );
            snb::control_word_is_a_sum(snb::groups(architecture)[4].events@[0]);
            assert(
                snb_power_counter(architecture, 4, 0) == (
                    Some(PcuEventKind::PackageCState(PcuCoreCState::C0)),
                    Some(0x52_002au64)
                )
            );
            snb::control_word_is_a_sum(snb::groups(architecture)[4].events@[1]);
            assert(
                snb_power_counter(architecture, 4, 1) == (
                    Some(PcuEventKind::PackageCState(PcuCoreCState::C3)),
                    Some(0x52_002cu64)
                )
            );
            snb::control_word_is_a_sum(snb::groups(architecture)[4].events@[2]);
            assert(
                snb_power_counter(architecture, 4, 2) == (
                    Some(PcuEventKind::PackageCState(PcuCoreCState::C6)),
                    Some(0x52_002du64)
                )
            );
        },
        SnbArchitecture::Snb => {
            snb::control_word_is_a_sum(snb::groups(architecture)[0].events@[0]);
            assert(
                snb_power_counter(architecture, 0, 0) == (
                    Some(PcuEventKind::Clockticks),
                    Some(0x52_0000u64)
                )
            );
            snb::control_word_is_a_sum(snb::groups(architecture)[0].events@[1]);
            assert(
                snb_power_counter(architecture, 0, 1) == (
                    Some(PcuEventKind::CoreCState(PcuCoreCState::C0)),
                    Some(0x52_4080u64)
                )
            );
            snb::control_word_is_a_sum(snb::groups(architecture)[0].events@[2]);
            assert(
                snb_power_counter(architecture, 0, 2) == (
                    Some(PcuEventKind::CoreCState(PcuCoreCState::C3)),
                    Some(0x52_8080u64)
                )
            );
            snb::control_word_is_a_sum(snb::groups(architecture)[0].events@[3]);
            assert(
                snb_power_counter(architecture, 0, 3) == (
                    Some(PcuEventKind::CoreCState(PcuCoreCState::C6)),
                    Some(0x52_c080u64)
                )
            );
            snb::control_word_is_a_sum(snb::groups(architecture)[1].events@[0]);
            assert(
                snb_power_counter(architecture, 1, 0) == (
                    Some(PcuEventKind::FrequencyLimit(PcuFrequencyLimitReason::Power)),
                    Some(0x52_0005u64)
                )
            );
            snb::control_word_is_a_sum(snb::groups(architecture)[1].events@[1]);
            assert(
                snb_power_counter(architecture, 1, 1) == (
                    Some(PcuEventKind::FrequencyLimit(PcuFrequencyLimitReason::Thermal)),
                    Some(0x52_0004u64)
                )
            );
            snb::control_word_is_a_sum(snb::groups(architecture)[1].events@[2]);
            assert(
                snb_power_counter(architecture, 1, 2) == (
                    Some(PcuEventKind::FrequencyLimit(PcuFrequencyLimitReason::Os)),
                    Some(0x52_0006u64)
                )
            );
            snb::control_word_is_a_sum(snb::groups(architecture)[1].events@[3]);
            assert(
                snb_power_counter(architecture, 1, 3) == (
                    Some(PcuEventKind::FrequencyLimit(PcuFrequencyLimitReason::Current)),
                    Some(0x52_0007u64)
                )
            );
            snb::control_word_is_a_sum(snb::groups(architecture)[2].events@[0]);
            assert(
                snb_power_counter(architecture, 2, 0) == (
                    Some(PcuEventKind::FrequencyTransition),
                    Some(0x72_0000u64)
                )
            );
            snb::control_word_is_a_sum(snb::groups(architecture)[2].events@[1]);
            assert(
                snb_power_counter(architecture, 2, 1) == (
                    Some(PcuEventKind::FrequencyLimit(PcuFrequencyLimitReason::IoP)),
                    Some(0x72_0001u64)
                )
            );
            snb::control_word_is_a_sum(snb::groups(architecture)[2].events@[2]);
            assert(
                snb_power_counter(architecture, 2, 2) == (
                    Some(PcuEventKind::FrequencyLimit(PcuFrequencyLimitReason::PerfP)),
                    Some(0x72_0002u64)
                )
            );
            snb::control_word_is_a_sum(snb::groups(architecture)[2].events@[3]);
            assert(
                snb_power_counter(architecture, 2, 3) == (
                    Some(PcuEventKind::MemoryPhaseShedding),
                    Some(0x52_002fu64)
                )
            );
            snb::control_word_is_a_sum(snb::groups(architecture)[3].events@[0]);
            assert(
                snb_power_counter(architecture, 3, 0) == (
                    Some(PcuEventKind::ThermalThrottle(PcuThermalThrottleSource::InternalProchot)),
                    Some(0x52_0009u64)
                )
            );
            snb::control_word_is_a_sum(snb::groups(architecture)[3].events@[1]);
            assert(
                snb_power_counter(architecture, 3, 1) == (
                    Some(PcuEventKind::ThermalThrottle(PcuThermalThrottleSource::ExternalProchot)),
                    Some(0x52_000au64)
                )
            );
            snb::control_word_is_a_sum(snb::groups(architecture)[3].events@[2]);
            assert(
                snb_power_counter(architecture, 3, 2) == (
                    Some(PcuEventKind::ThermalThrottle(PcuThermalThrottleSource::VrHot)),
                    Some(0x52_0032u64)
                )
            );
        },
    }
}

/// On Sapphire and Emerald Rapids every counter of a power control unit is told to count the very
/// event that its count is taken for, and the last one counts nothing.
pub proof fn spr_power_counters_count_their_events()
    ensures
        spr::control_words() == seq![Some(0x01u64), Some(0x35u64), Some(0x37u64), Some(0u64)],
        spr::used_counters() == seq![true, true, true, false],
        spr::used_kinds() == seq![
            PcuEventKind::Clockticks,
            PcuEventKind::CoreCState(PcuCoreCState::C0),
            PcuEventKind::CoreCState(PcuCoreCState::C6),
        ],
        forall|i: int|
            0 <= i < 3 ==> (#[trigger] spr::events()[i]).kind == spr::used_kinds()[i],
{
    assert(spr::control_words() =~= seq![Some(0x01u64), Some(0x35u64), Some(0x37u64), Some(0u64)]);
    assert(spr::used_counters() =~= seq![true, true, true, false]);
}

/// On Ice Lake a counter of a power control unit is told its event by its number, with the flags
/// that reset it, enable it and report its overflow.
pub proof fn icx_power_counter_is_told_its_event(event: u8)
    ensures
        icx::control_word(event) == 0x52_0000 + event,
{
}

/// Whether a kind stands for a counter that is used.
pub open spec fn is_used(kind: PcuEventKind) -> bool {
    kind != PcuEventKind::Unused
}

/// What the counters of a group of Hsx are for.
pub open spec fn hsx_kinds(group: hsx::HsxPcuEventGroup) -> Seq<PcuEventKind> {
    group.events@.map_values(|event: hsx::HsxPcuEventSpec| event.kind)
}

/// The kinds that a group is read for are those of its counters without the unused ones, in the
/// order of the counters.
pub proof fn hsx_reads_are_those_of_used_counters(group: hsx::HsxPcuEventGroup, n: nat)
    requires
        n <= 4,
    ensures
        hsx::used_kinds(group, n) == hsx_kinds(group).take(n as int).filter(
            |kind: PcuEventKind| is_used(kind),
        ),
    decreases n,
{
    reveal(Seq::filter);
    let kinds = hsx_kinds(group);
    if n > 0 {
        hsx_reads_are_those_of_used_counters(group, (n - 1) as nat);
        assert(kinds.take(n as int).drop_last() =~= kinds.take(n - 1));
        assert(kinds.take(n as int).last() == group.events@[n - 1].kind);
    } else {
        assert(kinds.take(0).len() == 0);
    }
}

/// What the counters of a group of Skx are for.
pub open spec fn skx_kinds(group: skx::SkxPcuEventGroup) -> Seq<PcuEventKind> {
    group.events@.map_values(|event: skx::SkxPcuEventSpec| event.kind)
}

/// The kinds that a group is read for are those of its counters without the unused ones, in the
/// order of the counters.
pub proof fn skx_reads_are_those_of_used_counters(group: skx::SkxPcuEventGroup, n: nat)
    requires
        n <= 4,
    ensures
        skx::used_kinds(group, n) == skx_kinds(group).take(n as int).filter(
            |kind: PcuEventKind| is_used(kind),
        ),
    decreases n,
{
    reveal(Seq::filter);
    let kinds = skx_kinds(group);
    if n > 0 {
        skx_reads_are_those_of_used_counters(group, (n - 1) as nat);
        assert(kinds.take(n as int).drop_last() =~= kinds.take(n - 1));
        assert(kinds.take(n as int).last() == group.events@[n - 1].kind);
    } else {
        assert(kinds.take(0).len() == 0);
    }
}

/// What the counters of a group of Snb are for.
pub open spec fn snb_kinds(group: snb::SnbPcuEventGroup) -> Seq<PcuEventKind> {
    group.events@.map_values(|event: snb::SnbPcuEventSpec| event.kind)
}

/// The kinds that a group is read for are those of its counters without the unused ones, in the
/// order of the counters.
pub proof fn snb_reads_are_those_of_used_counters(group: snb::SnbPcuEventGroup, n: nat)
    requires
        n <= 4,
    ensures
        snb::used_kinds(group, n) == snb_kinds(group).take(n as int).filter(
            |kind: PcuEventKind| is_used(kind),
        ),
    decreases n,
{
    reveal(Seq::filter);
    let kinds = snb_kinds(group);
    if n > 0 {
        snb_reads_are_those_of_used_counters(group, (n - 1) as nat);
        assert(kinds.take(n as int).drop_last() =~= kinds.take(n - 1));
        assert(kinds.take(n as int).last() == group.events@[n - 1].kind);
    } else {
        assert(kinds.take(0).len() == 0);
    }
}

} // verus!
