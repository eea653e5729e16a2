use vstd::prelude::*;

use crate::angles::{angle_gap, heading_difference};
use crate::entry::{calculate_entry_type, entry_spec, EntryType};
use crate::radial::{bearing_to_from_radial, reciprocal};
use crate::randomness::{random_below, random_bool};

verus! {

/// An aircraft that comes this close to the beacon may enter the hold, in
/// thousandths of a nautical mile.
pub const CAPTURE_RADIUS: u64 = 5000;

/// The distance a new session starts from: farther than any capture, so the
/// first real sample always counts as closing in.
pub const NO_DISTANCE: u64 = 999000;

/// The largest angle between heading and bearing to the beacon at which the
/// aircraft still counts as flying towards it, in thousandths of a degree.
pub const TOWARDS_LIMIT: i64 = 90000;

/// A recorded position after capture.
#[derive(Clone, Copy, Debug, PartialEq, Eq)]
pub struct TrackPoint {
    /// Latitude, in units of 1e-7 degree.
    pub lat: i64,
    /// Longitude, in units of 1e-7 degree.
    pub lon: i64,
    /// Time of the sample, in milliseconds.
    pub time: u64,
}

/// One reading of the aircraft.
#[derive(Clone, Copy, Debug, PartialEq, Eq)]
pub struct PositionSample {
    /// Latitude, in units of 1e-7 degree.
    pub lat: i64,
    /// Longitude, in units of 1e-7 degree.
    pub lon: i64,
    /// Heading, in thousandths of a degree.
    pub heading: u32,
    /// Time of the reading, in milliseconds.
    pub time: u64,
}

/// Where the beacon lies from the aircraft at the time of a sample.
#[derive(Clone, Copy, Debug, PartialEq, Eq)]
pub struct BeaconRange {
    /// Great-circle distance, in thousandths of a nautical mile.
    pub distance: u64,
    /// Initial bearing to the beacon, in thousandths of a degree.
    pub bearing: u32,
}

/// The state of one holding session, as the contracts see it.
pub struct SessionModel {
    pub active: bool,
    pub radial: int,
    pub right_turns: bool,
    pub entry_captured: bool,
    pub start_heading: int,
    pub entry_lat: int,
    pub entry_lon: int,
    pub correct_entry: Option<EntryType>,
    pub inbound_course: int,
    pub outbound_course: int,
    pub track: Seq<TrackPoint>,
    pub last_distance: int,
}

/// One holding session: the hold flown, and what has been seen of the
/// aircraft since the session started.
#[derive(Clone, Debug)]
pub struct HoldingPattern {
    pub active: bool,
    /// Radial of the hold, in whole degrees.
    pub radial: i32,
    pub right_turns: bool,
    pub entry_captured: bool,
    /// Heading at capture, in thousandths of a degree.
    pub start_heading: u32,
    /// Latitude at capture, in units of 1e-7 degree.
    pub entry_lat: i64,
    /// Longitude at capture, in units of 1e-7 degree.
    pub entry_lon: i64,
    pub correct_entry: Option<EntryType>,
    /// Inbound course, in thousandths of a degree.
    pub inbound_course: u32,
    /// Outbound course, in thousandths of a degree.
    pub outbound_course: u32,
    pub track_points: Vec<TrackPoint>,
    /// Distance to the beacon at the latest sample, in thousandths of a
    /// nautical mile.
    pub last_distance: u64,
}

impl View for HoldingPattern {
    type V = SessionModel;

    open spec fn view(&self) -> SessionModel {
        SessionModel {
            active: self.active,
            radial: self.radial as int,
            right_turns: self.right_turns,
            entry_captured: self.entry_captured,
            start_heading: self.start_heading as int,
            entry_lat: self.entry_lat as int,
            entry_lon: self.entry_lon as int,
            correct_entry: self.correct_entry,
            inbound_course: self.inbound_course as int,
            outbound_course: self.outbound_course as int,
            track: self.track_points@,
            last_distance: self.last_distance as int,
        }
    }
}

/// The session before any scenario has started.
pub open spec fn idle_session() -> SessionModel {
    SessionModel {
        active: false,
        radial: 0,
        right_turns: true,
        entry_captured: false,
        start_heading: 0,
        entry_lat: 0,
        entry_lon: 0,
        correct_entry: None,
        inbound_course: 0,
        outbound_course: 0,
        track: Seq::empty(),
        last_distance: NO_DISTANCE as int,
    }
}

/// A session just started on a hold: nothing captured, no track, and the
/// distance back at its sentinel.
pub open spec fn fresh_session(radial: int, right_turns: bool) -> SessionModel {
    SessionModel {
        active: true,
        radial,
        right_turns,
        entry_captured: false,
        start_heading: 0,
        entry_lat: 0,
        entry_lon: 0,
        correct_entry: None,
        inbound_course: reciprocal(radial) * 1000,
        outbound_course: radial * 1000,
        track: Seq::empty(),
        last_distance: NO_DISTANCE as int,
    }
}

/// Whether times along a track never decrease.
pub open spec fn times_ordered(track: Seq<TrackPoint>) -> bool {
    forall|i: int, j: int| 0 <= i <= j < track.len() ==> track[i].time <= track[j].time
}

/// What every session satisfies: while a scenario runs, the two courses are
/// the radial and its reciprocal; a track or a classification exists only
/// after capture; the track's times never decrease.
pub open spec fn session_wf(s: SessionModel) -> bool {
    &&& s.active ==> {
        &&& 0 <= s.radial < 360
        &&& s.outbound_course == s.radial * 1000
        &&& s.inbound_course == reciprocal(s.radial) * 1000
    }
    &&& s.entry_captured ==> s.active
    &&& s.track.len() > 0 ==> s.entry_captured
    &&& s.correct_entry is Some ==> s.entry_captured
    &&& times_ordered(s.track)
}

/// Whether a sample may be appended to the session's track without putting
/// its times out of order.
pub open spec fn time_follows(s: SessionModel, time: int) -> bool {
    s.track.len() == 0 || s.track.last().time <= time
}

/// Whether this sample captures the entry: not captured yet, within the
/// capture radius, closer than at the sample before, and heading within 90
/// degrees of the bearing to the beacon.
pub open spec fn captures(s: SessionModel, p: PositionSample, b: BeaconRange) -> bool {
    &&& s.active
    &&& !s.entry_captured
    &&& b.distance <= CAPTURE_RADIUS
    &&& b.distance < s.last_distance
    &&& angle_gap(p.heading as int, b.bearing as int) <= TOWARDS_LIMIT
}

/// The session after one sample. An inactive session ignores it. An active
/// one records the entry if the sample captures it, always keeps the
/// sample's distance, and once captured appends the sample to the track.
pub open spec fn observed(s: SessionModel, p: PositionSample, b: BeaconRange) -> SessionModel {
    if !s.active {
        s
    } else {
        let c = captures(s, p, b);
        let captured = s.entry_captured || c;
        SessionModel {
            entry_captured: captured,
            start_heading: if c { p.heading as int } else { s.start_heading },
            entry_lat: if c { p.lat as int } else { s.entry_lat },
            entry_lon: if c { p.lon as int } else { s.entry_lon },
            last_distance: b.distance as int,
            track: if captured {
                s.track.push(TrackPoint { lat: p.lat, lon: p.lon, time: p.time })
            } else {
                s.track
            },
            ..s
        }
    }
}

/// The session after a run of samples, taken in order.
pub open spec fn observed_all(s: SessionModel, samples: Seq<(PositionSample, BeaconRange)>) -> SessionModel
    decreases samples.len(),
{
    if samples.len() == 0 {
        s
    } else {
        observed_all(observed(s, samples[0].0, samples[0].1), samples.drop_first())
    }
}

impl HoldingPattern {
    /// A session with no scenario started.
    pub fn new() -> (r: Self)
        ensures
            r@ == idle_session(),
            session_wf(r@),
    {
        HoldingPattern {
            active: false,
            radial: 0,
            right_turns: true,
            entry_captured: false,
            start_heading: 0,
            entry_lat: 0,
            entry_lon: 0,
            correct_entry: None,
            inbound_course: 0,
            outbound_course: 0,
            track_points: Vec::new(),
            last_distance: NO_DISTANCE,
        }
    }

    /// Starts a new scenario on the hold given by `radial` (whole degrees)
    /// and turn direction, discarding all that the session had captured and
    /// recorded.
    pub fn start(&mut self, radial: u16, right_turns: bool)
        requires
            radial < 360,
        ensures
            final(self)@ == fresh_session(radial as int, right_turns),
            session_wf(final(self)@),
    {
        let inbound = bearing_to_from_radial(radial as i32);
        self.active = true;
        self.radial = radial as i32;
        self.right_turns = right_turns;
        self.entry_captured = false;
        self.start_heading = 0;
        self.entry_lat = 0;
        self.entry_lon = 0;
        self.correct_entry = None;
        self.track_points = Vec::new();
        self.outbound_course = radial as u32 * 1000;
        self.inbound_course = inbound as u32 * 1000;
        self.last_distance = NO_DISTANCE;
    }

    /// Starts a new scenario on a hold drawn at random: a radial that is a
    /// multiple of 10 degrees, and either turn direction.
    pub fn start_random(&mut self)
        ensures
            final(self)@ == fresh_session(final(self).radial as int, final(self).right_turns),
            0 <= final(self).radial < 360,
            final(self).radial % 10 == 0,
            session_wf(final(self)@),
    {
        let step = random_below(36);
        let right_turns = random_bool();
        self.start(step * 10, right_turns);
    }

    /// Takes one sample of the aircraft and where the beacon lies from it,
    /// and returns whether this sample captured the entry.
    pub fn observe(&mut self, sample: PositionSample, to_beacon: BeaconRange) -> (r: bool)
        ensures
            r == captures(old(self)@, sample, to_beacon),
            final(self)@ == observed(old(self)@, sample, to_beacon),
            session_wf(old(self)@) && time_follows(old(self)@, sample.time as int)
                ==> session_wf(final(self)@),
    {
        if !self.active {
            return false;
        }
        let mut captured_now = false;
        if !self.entry_captured && to_beacon.distance <= CAPTURE_RADIUS && to_beacon.distance
            < self.last_distance {
            let diff = heading_difference(sample.heading, to_beacon.bearing);
            if diff as i64 <= TOWARDS_LIMIT {
                self.start_heading = sample.heading;
                self.entry_lat = sample.lat;
                self.entry_lon = sample.lon;
                self.entry_captured = true;
                captured_now = true;
            }
        }
        self.last_distance = to_beacon.distance;
        if self.entry_captured {
            self.track_points.push(
                TrackPoint { lat: sample.lat, lon: sample.lon, time: sample.time },
            );
        }
        captured_now
    }

    /// Classifies the captured entry and keeps the result. Before capture
    /// nothing changes and the result is `None`.
    pub fn request_classification(&mut self) -> (r: Option<EntryType>)
        ensures
            old(self).entry_captured ==> r == Some(
                entry_spec(
                    old(self).start_heading as int,
                    old(self).inbound_course as int,
                    old(self).right_turns,
                ),
            ),
            !old(self).entry_captured ==> r is None,
            final(self)@ == (SessionModel { correct_entry: if r is Some { r } else { old(self).correct_entry }, ..old(self)@ }),
            session_wf(old(self)@) ==> session_wf(final(self)@),
    {
        if !self.entry_captured {
            return None;
        }
        let e = calculate_entry_type(self.start_heading as i64, self.inbound_course, self.right_turns);
        self.correct_entry = Some(e);
        Some(e)
    }

    /// Takes the given sample as the entry, whatever the capture rules say,
    /// and classifies it. An inactive session is left as it is, with `None`.
    pub fn capture_entry(&mut self, sample: PositionSample) -> (r: Option<EntryType>)
        ensures
            !old(self).active ==> r is None && final(self)@ == old(self)@,
            old(self).active ==> r == Some(
                entry_spec(sample.heading as int, old(self).inbound_course as int, old(self).right_turns),
            ) && final(self)@ == (SessionModel {
                entry_captured: true,
                start_heading: sample.heading as int,
                entry_lat: sample.lat as int,
                entry_lon: sample.lon as int,
                correct_entry: r,
                ..old(self)@
            }),
            session_wf(old(self)@) ==> session_wf(final(self)@),
    {
        if !self.active {
            return None;
        }
        self.start_heading = sample.heading;
        self.entry_lat = sample.lat;
        self.entry_lon = sample.lon;
        self.entry_captured = true;
        let e = calculate_entry_type(sample.heading as i64, self.inbound_course, self.right_turns);
        self.correct_entry = Some(e);
        Some(e)
    }
}

impl Default for HoldingPattern {
    /// The same as [`HoldingPattern::new`].
    fn default() -> (r: Self)
        ensures
            r@ == idle_session(),
    {
        HoldingPattern::new()
    }
}

/// Once the entry is captured, no further samples change the heading or
/// position recorded at capture, and the entry stays captured.
pub proof fn lemma_capture_is_final(s: SessionModel, samples: Seq<(PositionSample, BeaconRange)>)
    requires
        s.entry_captured,
    ensures
        observed_all(s, samples).entry_captured,
        observed_all(s, samples).start_heading == s.start_heading,
        observed_all(s, samples).entry_lat == s.entry_lat,
        observed_all(s, samples).entry_lon == s.entry_lon,
    decreases samples.len(),
{
    if samples.len() > 0 {
        lemma_capture_is_final(observed(s, samples[0].0, samples[0].1), samples.drop_first());
    }
}

/// An active session that has not captured yet captures on a sample exactly
/// when the aircraft is inside the capture radius, closer than at the
/// sample before, and heading within 90 degrees of the beacon.
pub proof fn lemma_capture_needs_closing(s: SessionModel, p: PositionSample, b: BeaconRange)
    requires
        s.active,
        !s.entry_captured,
    ensures
        observed(s, p, b).entry_captured <==> {
            &&& b.distance <= CAPTURE_RADIUS
            &&& b.distance < s.last_distance
            &&& angle_gap(p.heading as int, b.bearing as int) <= TOWARDS_LIMIT
        },
        observed(s, p, b).last_distance == b.distance,
{
}

} // verus!
