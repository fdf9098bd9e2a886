use vstd::prelude::*;

verus! {

/// One timed period: milliseconds, who set it, on which lap, and display flags.
/// Equality and ordering of times go by `inMS` alone.
#[derive(Debug, Clone, Copy)]
pub struct Time {
    pub inMS: u32,
    pub byId: u8,
    pub onLap: u8,
    pub isSet: bool,
    pub isOB: bool,
    pub isPB: bool,
}

impl Time {
    pub open spec fn is_cleared(self) -> bool {
        &&& self.inMS == 0
        &&& !self.isSet
        &&& !self.isOB
        &&& !self.isPB
        &&& self.byId == 0
        &&& self.onLap == 0
    }

    /// A latched time is never zero; an unset one holds nothing.
    pub open spec fn wf(self) -> bool {
        if self.isSet {
            self.inMS > 0
        } else {
            self.inMS == 0
        }
    }

    /// `time` beats this record: it is nonzero and either nothing is latched
    /// yet or it is strictly faster.
    pub open spec fn beaten_by(self, time: u32) -> bool {
        time != 0 && (!self.isSet || time < self.inMS)
    }

    /// The record after latching `time` for driver `idx` on lap `lap`.
    pub open spec fn latched(self, time: u32, idx: u8, lap: u8) -> Time {
        Time { inMS: time, byId: idx, onLap: lap, isSet: true, ..self }
    }

    /// Neither set later, nor slower, than `prev`.
    pub open spec fn no_worse_than(self, prev: Time) -> bool {
        prev.isSet ==> (self.isSet && self.inMS <= prev.inMS)
    }

    pub fn new() -> (r: Time)
        ensures
            r.is_cleared(),
    {
        Time { inMS: 0, byId: 0, onLap: 0, isSet: false, isOB: false, isPB: false }
    }

    /// Latches `time` when it beats the record; returns whether it did.
    fn latch(&mut self, time: u32, idx: u8, lap: u8) -> (r: bool)
        ensures
            r == old(self).beaten_by(time),
            *final(self) == if r { old(self).latched(time, idx, lap) } else { *old(self) },
    {
        if time != 0 && (!self.isSet || self.inMS > time) {
            self.isSet = true;
            self.byId = idx;
            self.onLap = lap;
            self.inMS = time;
            true
        } else {
            false
        }
    }
}

impl PartialEq for Time {
    fn eq(&self, o: &Time) -> (r: bool) {
        self.inMS == o.inMS
    }
}

impl vstd::std_specs::cmp::PartialEqSpecImpl for Time {
    open spec fn obeys_eq_spec() -> bool {
        true
    }

    open spec fn eq_spec(&self, o: &Time) -> bool {
        self.inMS == o.inMS
    }
}

impl PartialOrd for Time {
    fn partial_cmp(&self, o: &Time) -> (r: Option<core::cmp::Ordering>) {
        if self.inMS < o.inMS {
            Some(core::cmp::Ordering::Less)
        } else if self.inMS > o.inMS {
            Some(core::cmp::Ordering::Greater)
        } else {
            Some(core::cmp::Ordering::Equal)
        }
    }
}

impl vstd::std_specs::cmp::PartialOrdSpecImpl for Time {
    open spec fn obeys_partial_cmp_spec() -> bool {
        true
    }

    open spec fn partial_cmp_spec(&self, o: &Time) -> Option<core::cmp::Ordering> {
        if self.inMS < o.inMS {
            Some(core::cmp::Ordering::Less)
        } else if self.inMS > o.inMS {
            Some(core::cmp::Ordering::Greater)
        } else {
            Some(core::cmp::Ordering::Equal)
        }
    }
}

/// The period that a time was measured over.
#[derive(Debug, Clone, Copy, PartialEq, Eq, Structural)]
pub enum Period {
    Sector1,
    Sector2,
    Sector3,
    LapTime,
}

/// A bests record: the fastest time of each sector and of a lap, and the
/// theoretical best, the sum of the three sector bests.
#[derive(Debug, Clone, Copy)]
pub struct Best {
    pub sector1: Time,
    pub sector2: Time,
    pub sector3: Time,
    pub lapTime: Time,
    pub possible: u64,
}

impl Best {
    pub open spec fn all_sectors_set(self) -> bool {
        self.sector1.isSet && self.sector2.isSet && self.sector3.isSet
    }

    pub open spec fn sector_sum(self) -> int {
        self.sector1.inMS + self.sector2.inMS + self.sector3.inMS
    }

    /// The well-formed bests records: no zero is latched, and the theoretical
    /// best is the sector sum once all three sectors are set, zero before.
    pub open spec fn wf(self) -> bool {
        &&& self.sector1.wf()
        &&& self.sector2.wf()
        &&& self.sector3.wf()
        &&& self.lapTime.wf()
        &&& self.possible == if self.all_sectors_set() { self.sector_sum() } else { 0 }
    }

    pub open spec fn is_cleared(self) -> bool {
        &&& self.sector1.is_cleared()
        &&& self.sector2.is_cleared()
        &&& self.sector3.is_cleared()
        &&& self.lapTime.is_cleared()
        &&& self.possible == 0
    }

    pub open spec fn record(self, period: Period) -> Time {
        match period {
            Period::Sector1 => self.sector1,
            Period::Sector2 => self.sector2,
            Period::Sector3 => self.sector3,
            Period::LapTime => self.lapTime,
        }
    }

    pub open spec fn with_record(self, period: Period, t: Time) -> Best {
        match period {
            Period::Sector1 => Best { sector1: t, ..self },
            Period::Sector2 => Best { sector2: t, ..self },
            Period::Sector3 => Best { sector3: t, ..self },
            Period::LapTime => Best { lapTime: t, ..self },
        }
    }

    /// The theoretical best after the sectors changed: the new sector sum
    /// when all three are set and it is smaller than the old value, or the
    /// old value was zero.
    pub open spec fn with_possible_updated(self) -> Best {
        if self.all_sectors_set() && (self.possible == 0 || self.possible > self.sector_sum()) {
            Best { possible: self.sector_sum() as u64, ..self }
        } else {
            self
        }
    }

    /// The record after classifying `time` for `period`.
    pub open spec fn classified(self, period: Period, time: u32, idx: u8, lap: u8) -> Best {
        if self.record(period).beaten_by(time) {
            let b = self.with_record(period, self.record(period).latched(time, idx, lap));
            if period == Period::LapTime {
                b
            } else {
                b.with_possible_updated()
            }
        } else {
            self
        }
    }

    /// Every record is no worse than it was in `prev`, and the theoretical
    /// best has not grown.
    pub open spec fn no_worse_than(self, prev: Best) -> bool {
        &&& self.sector1.no_worse_than(prev.sector1)
        &&& self.sector2.no_worse_than(prev.sector2)
        &&& self.sector3.no_worse_than(prev.sector3)
        &&& self.lapTime.no_worse_than(prev.lapTime)
        &&& (prev.possible > 0 ==> 0 < self.possible <= prev.possible)
    }

    pub fn new() -> (r: Best)
        ensures
            r.is_cleared(),
            r.wf(),
    {
        Best {
            sector1: Time::new(),
            sector2: Time::new(),
            sector3: Time::new(),
            lapTime: Time::new(),
            possible: 0,
        }
    }

    /// Classifies `time` for `period`: a nonzero time that beats the record
    /// (or finds it unset) is latched and `true` comes back. A sector that
    /// is latched refreshes the theoretical best.
    pub fn isBest(&mut self, period: Period, time: u32, idx: usize, lap: u8) -> (r: bool)
        requires
            old(self).wf(),
        ensures
            r == old(self).record(period).beaten_by(time),
            *final(self) == old(self).classified(period, time, idx as u8, lap),
            final(self).wf(),
            final(self).no_worse_than(*old(self)),
            time == 0 ==> !r && *final(self) == *old(self),
    {
        let id = idx as u8;
        let r = match period {
            Period::Sector1 => self.sector1.latch(time, id, lap),
            Period::Sector2 => self.sector2.latch(time, id, lap),
            Period::Sector3 => self.sector3.latch(time, id, lap),
            Period::LapTime => self.lapTime.latch(time, id, lap),
        };
        if r && period != Period::LapTime {
            self.update_possible();
        }
        r
    }

    /// Recomputes the theoretical best; returns whether it changed.
    pub fn update_possible(&mut self) -> (r: bool)
        ensures
            *final(self) == old(self).with_possible_updated(),
            r == (old(self).all_sectors_set() && (old(self).possible == 0 || old(self).possible
                > old(self).sector_sum())),
    {
        if self.sector1.isSet && self.sector2.isSet && self.sector3.isSet {
            let sum = self.sector1.inMS as u64 + self.sector2.inMS as u64 + self.sector3.inMS as u64;
            if self.possible == 0 || self.possible > sum {
                self.possible = sum;
                return true;
            }
        }
        false
    }
}

/// The record after classifying each observation of `obs` in turn, each a
/// (time, driver, lap) triple, for `period`.
pub open spec fn classified_all(b: Best, period: Period, obs: Seq<(u32, u8, u8)>) -> Best
    decreases obs.len(),
{
    if obs.len() == 0 {
        b
    } else {
        let (t, idx, lap) = obs.last();
        classified_all(b, period, obs.drop_last()).classified(period, t, idx, lap)
    }
}

/// Classifying keeps a bests record well formed and never makes it worse.
pub proof fn lemma_classified_wf(b: Best, period: Period, time: u32, idx: u8, lap: u8)
    requires
        b.wf(),
    ensures
        b.classified(period, time, idx, lap).wf(),
        b.classified(period, time, idx, lap).no_worse_than(b),
        b.classified(period, time, idx, lap).record(period) == if b.record(period).beaten_by(
            time,
        ) {
            b.record(period).latched(time, idx, lap)
        } else {
            b.record(period)
        },
{
}

/// After a run of observations from cleared bests, the record of `period`
/// is set exactly when some observation was nonzero, and is then no slower
/// than any nonzero observation.
pub proof fn lemma_record_is_fastest(b: Best, period: Period, obs: Seq<(u32, u8, u8)>)
    requires
        b.wf(),
        b.is_cleared(),
    ensures
        classified_all(b, period, obs).wf(),
        ({
            let r = classified_all(b, period, obs).record(period);
            &&& r.isSet ==> forall|i: int|
                0 <= i < obs.len() && (#[trigger] obs[i]).0 != 0 ==> r.inMS <= obs[i].0
            &&& !r.isSet ==> forall|i: int| 0 <= i < obs.len() ==> (#[trigger] obs[i]).0 == 0
        }),
    decreases obs.len(),
{
    if obs.len() > 0 {
        let prev = obs.drop_last();
        lemma_record_is_fastest(b, period, prev);
        let (t, idx, lap) = obs.last();
        let c = classified_all(b, period, prev);
        lemma_classified_wf(c, period, t, idx, lap);
        let r = classified_all(b, period, obs).record(period);
        assert(classified_all(b, period, obs) == c.classified(period, t, idx, lap));
        assert forall|i: int| 0 <= i < obs.len() && (#[trigger] obs[i]).0 != 0 implies r.isSet
            && r.inMS <= obs[i].0 by {
            if i < obs.len() - 1 {
                assert(obs[i] == prev[i]);
            }
        }
        assert forall|i: int| 0 <= i < obs.len() && !r.isSet implies (#[trigger] obs[i]).0 == 0 by {
            if i < obs.len() - 1 {
                assert(obs[i] == prev[i]);
            }
        }
    } else {
        assert(classified_all(b, period, obs) == b);
    }
}

/// A personal (or overall) best is below every earlier time: when a time `t`
/// is classified as a best after a run of earlier observations from cleared
/// bests, every nonzero earlier time of that period is slower than `t`.
pub proof fn lemma_best_beats_every_earlier(
    b: Best,
    period: Period,
    earlier: Seq<(u32, u8, u8)>,
    t: u32,
)
    requires
        b.wf(),
        b.is_cleared(),
    ensures
        classified_all(b, period, earlier).record(period).beaten_by(t) ==> forall|i: int|
            0 <= i < earlier.len() && (#[trigger] earlier[i]).0 != 0 ==> t < earlier[i].0,
{
    lemma_record_is_fastest(b, period, earlier);
}

/// In a well-formed bests record the theoretical best, once nonzero, is the
/// sum of the three sector bests.
pub proof fn lemma_theoretical_is_sector_sum(b: Best)
    requires
        b.wf(),
    ensures
        b.possible > 0 ==> b.possible == b.sector1.inMS + b.sector2.inMS + b.sector3.inMS,
        b.possible > 0 <==> b.all_sectors_set(),
{
}

/// The theoretical best never exceeds the best lap while every lap that was
/// classified came with its three sectors: if that holds before, it still
/// holds after the three nonzero sector times of a lap and the lap time
/// (their sum) are classified.
pub proof fn lemma_complete_lap_bounds_theoretical(
    b: Best,
    s1: u32,
    s2: u32,
    s3: u32,
    idx: u8,
    lap: u8,
)
    requires
        b.wf(),
        b.lapTime.isSet ==> 0 < b.possible <= b.lapTime.inMS,
        s1 > 0,
        s2 > 0,
        s3 > 0,
        s1 + s2 + s3 <= u32::MAX,
    ensures
        ({
            let a = b.classified(Period::Sector1, s1, idx, lap).classified(
                Period::Sector2,
                s2,
                idx,
                lap,
            ).classified(Period::Sector3, s3, idx, lap).classified(
                Period::LapTime,
                (s1 + s2 + s3) as u32,
                idx,
                lap,
            );
            &&& a.wf()
            &&& a.lapTime.isSet
            &&& 0 < a.possible <= a.lapTime.inMS
        }),
{
    let t = (s1 + s2 + s3) as u32;
    let a1 = b.classified(Period::Sector1, s1, idx, lap);
    lemma_classified_wf(b, Period::Sector1, s1, idx, lap);
    let a2 = a1.classified(Period::Sector2, s2, idx, lap);
    lemma_classified_wf(a1, Period::Sector2, s2, idx, lap);
    let a3 = a2.classified(Period::Sector3, s3, idx, lap);
    lemma_classified_wf(a2, Period::Sector3, s3, idx, lap);
    let a = a3.classified(Period::LapTime, t, idx, lap);
    lemma_classified_wf(a3, Period::LapTime, t, idx, lap);
    assert(a3.sector1.inMS <= s1 && a3.sector2.inMS <= s2 && a3.sector3.inMS <= s3);
    assert(a.possible == a3.possible);
}

} // verus!
