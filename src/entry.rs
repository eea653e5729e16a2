use vstd::prelude::*;

use crate::angles::{
    lemma_norm_near, lemma_norm_sub, norm_angle, normalize_angle, FULL_TURN, HALF_TURN,
};

verus! {

/// Half the width of the band round each sector edge in which either of the
/// two neighbouring entries is accepted, in thousandths of a degree.
pub const ENTRY_MARGIN: i64 = 5000;

/// Edge between the direct sector and its neighbour, for either turn
/// direction, measured from the inbound course.
pub const DIRECT_EDGE: i64 = 90000;

/// Edge between teardrop and parallel in a hold with right turns.
pub const RIGHT_PARALLEL_EDGE: i64 = 160000;

/// Edge between parallel and teardrop in a hold with left turns.
pub const LEFT_PARALLEL_EDGE: i64 = 200000;

/// Headings from here round to the inbound course always give a direct entry.
pub const DIRECT_FROM: i64 = 270000;

/// The entry to fly into a holding pattern. The pairs name a heading that lies
/// within the margin of a sector edge, where either entry is accepted.
#[derive(Clone, Copy, Debug, PartialEq, Eq)]
pub enum EntryType {
    Direct,
    Teardrop,
    Parallel,
    DirectTeardrop,
    TeardropParallel,
    DirectParallel,
    ParallelTeardrop,
}

/// The text shown for each entry.
pub open spec fn entry_label(e: EntryType) -> Seq<char> {
    match e {
        EntryType::Direct => "DIRECT"@,
        EntryType::Teardrop => "TEARDROP"@,
        EntryType::Parallel => "PARALLEL"@,
        EntryType::DirectTeardrop => "DIRECT/TEARDROP"@,
        EntryType::TeardropParallel => "TEARDROP/PARALLEL"@,
        EntryType::DirectParallel => "DIRECT/PARALLEL"@,
        EntryType::ParallelTeardrop => "PARALLEL/TEARDROP"@,
    }
}

impl EntryType {
    /// The entry's label, such as `"DIRECT/TEARDROP"`.
    pub fn label(&self) -> (r: &'static str)
        ensures
            r@ == entry_label(*self),
    {
        match self {
            EntryType::Direct => "DIRECT",
            EntryType::Teardrop => "TEARDROP",
            EntryType::Parallel => "PARALLEL",
            EntryType::DirectTeardrop => "DIRECT/TEARDROP",
            EntryType::TeardropParallel => "TEARDROP/PARALLEL",
            EntryType::DirectParallel => "DIRECT/PARALLEL",
            EntryType::ParallelTeardrop => "PARALLEL/TEARDROP",
        }
    }
}

/// Whether `rel` lies within the margin of the sector edge `edge`, both ends
/// included.
pub open spec fn near_edge(rel: int, edge: int) -> bool {
    edge - ENTRY_MARGIN <= rel <= edge + ENTRY_MARGIN
}

/// The capture heading measured clockwise from the inbound course, in
/// `[0, FULL_TURN)`.
pub open spec fn relative_to_inbound(heading: int, inbound_course: int) -> int {
    norm_angle(heading - inbound_course)
}

/// The entry for a heading at `rel` from the inbound course.
///
/// Right turns: direct from 270 round to 85 degrees, teardrop strictly
/// between 95 and 155, parallel from 165 to 270, and the two pairs in the
/// bands round 90 and 160. Left turns mirror this with edges at 90 and 200,
/// teardrop strictly between 205 and 270.
pub open spec fn entry_for(rel: int, right_turns: bool) -> EntryType {
    if right_turns {
        if near_edge(rel, DIRECT_EDGE as int) {
            EntryType::DirectTeardrop
        } else if near_edge(rel, RIGHT_PARALLEL_EDGE as int) {
            EntryType::TeardropParallel
        } else if rel >= DIRECT_FROM || rel < DIRECT_EDGE - ENTRY_MARGIN {
            EntryType::Direct
        } else if DIRECT_EDGE + ENTRY_MARGIN < rel < RIGHT_PARALLEL_EDGE - ENTRY_MARGIN {
            EntryType::Teardrop
        } else {
            EntryType::Parallel
        }
    } else {
        if near_edge(rel, DIRECT_EDGE as int) {
            EntryType::DirectParallel
        } else if near_edge(rel, LEFT_PARALLEL_EDGE as int) {
            EntryType::ParallelTeardrop
        } else if rel >= DIRECT_FROM || rel < DIRECT_EDGE - ENTRY_MARGIN {
            EntryType::Direct
        } else if LEFT_PARALLEL_EDGE + ENTRY_MARGIN < rel < DIRECT_FROM {
            EntryType::Teardrop
        } else {
            EntryType::Parallel
        }
    }
}

/// The entry for a hold with the given inbound course, flown from
/// `start_heading`, the heading at which the aircraft entered the hold.
/// Any heading is accepted: it is taken round the compass first.
pub open spec fn entry_spec(start_heading: int, inbound_course: int, right_turns: bool) -> EntryType {
    entry_for(relative_to_inbound(start_heading, inbound_course), right_turns)
}

/// Classifies the entry into a hold. Both angles are in thousandths of a
/// degree; any values are accepted and wrapped round the compass.
pub fn calculate_entry_type(start_heading: i64, inbound_course: u32, right_turns: bool) -> (r:
    EntryType)
    ensures
        r == entry_spec(start_heading as int, inbound_course as int, right_turns),
{
    let heading = normalize_angle(start_heading);
    let rel = normalize_angle(heading as i64 - inbound_course as i64);
    proof {
        vstd::arithmetic::div_mod::lemma_add_mod_noop_right(
            -(inbound_course as int),
            start_heading as int,
            FULL_TURN as int,
        );
    }
    let rel = rel as i64;
    if right_turns {
        if DIRECT_EDGE - ENTRY_MARGIN <= rel && rel <= DIRECT_EDGE + ENTRY_MARGIN {
            EntryType::DirectTeardrop
        } else if RIGHT_PARALLEL_EDGE - ENTRY_MARGIN <= rel && rel <= RIGHT_PARALLEL_EDGE
            + ENTRY_MARGIN {
            EntryType::TeardropParallel
        } else if rel >= DIRECT_FROM || rel < DIRECT_EDGE - ENTRY_MARGIN {
            EntryType::Direct
        } else if DIRECT_EDGE + ENTRY_MARGIN < rel && rel < RIGHT_PARALLEL_EDGE - ENTRY_MARGIN {
            EntryType::Teardrop
        } else {
            EntryType::Parallel
        }
    } else {
        if DIRECT_EDGE - ENTRY_MARGIN <= rel && rel <= DIRECT_EDGE + ENTRY_MARGIN {
            EntryType::DirectParallel
        } else if LEFT_PARALLEL_EDGE - ENTRY_MARGIN <= rel && rel <= LEFT_PARALLEL_EDGE
            + ENTRY_MARGIN {
            EntryType::ParallelTeardrop
        } else if rel >= DIRECT_FROM || rel < DIRECT_EDGE - ENTRY_MARGIN {
            EntryType::Direct
        } else if LEFT_PARALLEL_EDGE + ENTRY_MARGIN < rel && rel < DIRECT_FROM {
            EntryType::Teardrop
        } else {
            EntryType::Parallel
        }
    }
}

/// In a hold with right turns, a heading exactly on the direct/teardrop edge
/// is classified as either of the two, and one exactly on the
/// teardrop/parallel edge likewise, whatever the inbound course.
pub proof fn lemma_right_turn_edges(inbound_course: int)
    requires
        0 <= inbound_course < FULL_TURN,
    ensures
        entry_spec(inbound_course + DIRECT_EDGE, inbound_course, true)
            == EntryType::DirectTeardrop,
        entry_spec(inbound_course + RIGHT_PARALLEL_EDGE, inbound_course, true)
            == EntryType::TeardropParallel,
{
    assert(relative_to_inbound(inbound_course + DIRECT_EDGE, inbound_course) == DIRECT_EDGE);
    assert(relative_to_inbound(inbound_course + RIGHT_PARALLEL_EDGE, inbound_course)
        == RIGHT_PARALLEL_EDGE);
}

/// In a hold with left turns, a heading exactly on the direct/parallel edge
/// is classified as either of the two, and one exactly on the
/// parallel/teardrop edge likewise, whatever the inbound course.
pub proof fn lemma_left_turn_edges(inbound_course: int)
    requires
        0 <= inbound_course < FULL_TURN,
    ensures
        entry_spec(inbound_course + DIRECT_EDGE, inbound_course, false)
            == EntryType::DirectParallel,
        entry_spec(inbound_course + LEFT_PARALLEL_EDGE, inbound_course, false)
            == EntryType::ParallelTeardrop,
{
    assert(relative_to_inbound(inbound_course + DIRECT_EDGE, inbound_course) == DIRECT_EDGE);
    assert(relative_to_inbound(inbound_course + LEFT_PARALLEL_EDGE, inbound_course)
        == LEFT_PARALLEL_EDGE);
}

/// A sector of the compass round the beacon, from which an arriving aircraft
/// flies the given entry: it runs clockwise from `start` through `sweep`,
/// both in thousandths of a degree.
#[derive(Clone, Copy, Debug, PartialEq, Eq)]
pub struct SectorArc {
    pub entry: EntryType,
    pub start: u32,
    pub sweep: u32,
}

/// The three entry sectors of a hold, as seen from the beacon, in clockwise
/// order from the direct sector.
///
/// Right turns: direct for the half turn centred on the outbound course,
/// then teardrop for 70 degrees, then parallel for 110. Left turns: direct,
/// then parallel for 110 degrees, then teardrop for 70.
pub open spec fn sectors_spec(outbound_course: int, right_turns: bool) -> Seq<SectorArc> {
    let direct = SectorArc {
        entry: EntryType::Direct,
        start: norm_angle(outbound_course - DIRECT_EDGE) as u32,
        sweep: 180000,
    };
    if right_turns {
        seq![
            direct,
            SectorArc {
                entry: EntryType::Teardrop,
                start: norm_angle(outbound_course + DIRECT_EDGE) as u32,
                sweep: 70000,
            },
            SectorArc {
                entry: EntryType::Parallel,
                start: norm_angle(outbound_course + RIGHT_PARALLEL_EDGE) as u32,
                sweep: 110000,
            },
        ]
    } else {
        seq![
            direct,
            SectorArc {
                entry: EntryType::Parallel,
                start: norm_angle(outbound_course + DIRECT_EDGE) as u32,
                sweep: 110000,
            },
            SectorArc {
                entry: EntryType::Teardrop,
                start: norm_angle(outbound_course + LEFT_PARALLEL_EDGE) as u32,
                sweep: 70000,
            },
        ]
    }
}

/// The entry sectors of a hold with the given outbound course, in thousandths
/// of a degree.
pub fn entry_sectors(outbound_course: u32, right_turns: bool) -> (r: Vec<SectorArc>)
    ensures
        r@ == sectors_spec(outbound_course as int, right_turns),
{
    let out = outbound_course as i64;
    let direct = SectorArc {
        entry: EntryType::Direct,
        start: normalize_angle(out - DIRECT_EDGE),
        sweep: 180000,
    };
    let r = if right_turns {
        vec![
            direct,
            SectorArc {
                entry: EntryType::Teardrop,
                start: normalize_angle(out + DIRECT_EDGE),
                sweep: 70000,
            },
            SectorArc {
                entry: EntryType::Parallel,
                start: normalize_angle(out + RIGHT_PARALLEL_EDGE),
                sweep: 110000,
            },
        ]
    } else {
        vec![
            direct,
            SectorArc {
                entry: EntryType::Parallel,
                start: normalize_angle(out + DIRECT_EDGE),
                sweep: 110000,
            },
            SectorArc {
                entry: EntryType::Teardrop,
                start: normalize_angle(out + LEFT_PARALLEL_EDGE),
                sweep: 70000,
            },
        ]
    };
    assert(r@ =~= sectors_spec(outbound_course as int, right_turns));
    r
}

/// The entry sectors cover the compass exactly once: each ends where the
/// next begins, and their sweeps add up to a full turn.
pub proof fn lemma_sectors_tile_compass(outbound_course: int, right_turns: bool)
    ensures
        ({
            let s = sectors_spec(outbound_course, right_turns);
            &&& s.len() == 3
            &&& s[0].sweep + s[1].sweep + s[2].sweep == FULL_TURN
            &&& forall|i: int|
                0 <= i < 3 ==> #[trigger] norm_angle(s[i].start + s[i].sweep) == s[(i + 1) % 3].start
        }),
{
    let s = sectors_spec(outbound_course, right_turns);
    let m = FULL_TURN as int;
    vstd::arithmetic::div_mod::lemma_add_mod_noop(outbound_course - DIRECT_EDGE, 180000, m);
    vstd::arithmetic::div_mod::lemma_add_mod_noop(outbound_course + DIRECT_EDGE, 70000, m);
    vstd::arithmetic::div_mod::lemma_add_mod_noop(outbound_course + DIRECT_EDGE, 110000, m);
    vstd::arithmetic::div_mod::lemma_add_mod_noop(outbound_course + RIGHT_PARALLEL_EDGE, 110000, m);
    vstd::arithmetic::div_mod::lemma_add_mod_noop(outbound_course + LEFT_PARALLEL_EDGE, 70000, m);
    vstd::arithmetic::div_mod::lemma_mod_add_multiples_vanish(outbound_course - DIRECT_EDGE, m);
    vstd::arithmetic::div_mod::lemma_small_mod(180000, m as nat);
    vstd::arithmetic::div_mod::lemma_small_mod(70000, m as nat);
    vstd::arithmetic::div_mod::lemma_small_mod(110000, m as nat);
    assert(forall|i: int|
        0 <= i < 3 ==> #[trigger] norm_angle(s[i].start + s[i].sweep) == s[(i + 1) % 3].start);
}

/// Whether a classification allows flying entry `e`: a single entry allows
/// itself, a pair allows either of its two.
pub open spec fn admits(label: EntryType, e: EntryType) -> bool {
    match label {
        EntryType::DirectTeardrop => e == EntryType::Direct || e == EntryType::Teardrop,
        EntryType::TeardropParallel => e == EntryType::Teardrop || e == EntryType::Parallel,
        EntryType::DirectParallel => e == EntryType::Direct || e == EntryType::Parallel,
        EntryType::ParallelTeardrop => e == EntryType::Parallel || e == EntryType::Teardrop,
        _ => label == e,
    }
}

/// Whether the direction `bearing`, seen from the beacon, lies in sector `s`.
pub open spec fn in_sector(bearing: int, s: SectorArc) -> bool {
    norm_angle(bearing - s.start) < s.sweep
}

/// The sectors drawn round the beacon agree with the classifier: an
/// aircraft that lies at `bearing` from the beacon and flies straight at it
/// is given an entry that allows the entry of the sector it is in.
pub proof fn lemma_sectors_agree_with_classifier(
    outbound_course: int,
    right_turns: bool,
    bearing: int,
    i: int,
)
    requires
        0 <= i < 3,
        in_sector(bearing, sectors_spec(outbound_course, right_turns)[i]),
    ensures
        admits(
            entry_spec(bearing + HALF_TURN, norm_angle(outbound_course + HALF_TURN), right_turns),
            sectors_spec(outbound_course, right_turns)[i].entry,
        ),
{
    let s = sectors_spec(outbound_course, right_turns)[i];
    let d = norm_angle(bearing - outbound_course);
    lemma_norm_sub(bearing + HALF_TURN, outbound_course + HALF_TURN);
    assert(relative_to_inbound(bearing + HALF_TURN, norm_angle(outbound_course + HALF_TURN)) == d);
    let k: int = if i == 0 {
        -DIRECT_EDGE
    } else if i == 1 {
        DIRECT_EDGE as int
    } else if right_turns {
        RIGHT_PARALLEL_EDGE as int
    } else {
        LEFT_PARALLEL_EDGE as int
    };
    assert(s.start == norm_angle(outbound_course + k));
    lemma_norm_sub(bearing, outbound_course + k);
    lemma_norm_sub(bearing - k, outbound_course);
    vstd::arithmetic::div_mod::lemma_sub_mod_noop(bearing - outbound_course, k, FULL_TURN as int);
    vstd::arithmetic::div_mod::lemma_small_mod(
        if k < 0 { (k + FULL_TURN) as nat } else { k as nat },
        FULL_TURN as nat,
    );
    vstd::arithmetic::div_mod::lemma_mod_add_multiples_vanish(k, FULL_TURN as int);
    assert(norm_angle(bearing - s.start) == norm_angle(d - k));
    lemma_norm_near(d - k);
}

} // verus!
