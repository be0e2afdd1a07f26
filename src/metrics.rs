//! Optional timing samples taken during playback.
use vstd::prelude::*;
use vstd::relations::sorted_by;

verus! {

pub open spec fn ascending(s: Seq<u64>) -> bool {
    sorted_by(s, |a: u64, b: u64| a <= b)
}

/// `m` is the middle element (the one at index `len / 2`) of `v` sorted.
pub open spec fn is_median(v: Seq<u64>, m: u64) -> bool {
    exists|s: Seq<u64>| #[trigger] ascending(s) && s.to_multiset() == v.to_multiset() && s.len() == v.len() && s[(v.len() / 2) as int] == m
}

/// Relies on `slice::sort_unstable`: the slice ends in ascending order and
/// holds the same elements.
#[verifier::external_body]
fn sort_samples(v: &mut Vec<u64>)
    ensures
        ascending(final(v)@),
        final(v)@.to_multiset() == old(v)@.to_multiset(),
        final(v)@.len() == old(v)@.len(),
{
    v.sort_unstable()
}

/// The middle element of the samples in order, when there are at least two.
pub fn median(v: &Vec<u64>) -> (r: Option<u64>)
    ensures
        r.is_some() == (v@.len() > 1),
        r matches Some(m) ==> is_median(v@, m),
{
    if v.len() <= 1 {
        return None;
    }
    let mut s: Vec<u64> = Vec::new();
    let mut i: usize = 0;
    while i < v.len()
        invariant
            i <= v@.len(),
            s@ == v@.take(i as int),
        decreases v@.len() - i,
    {
        s.push(v[i]);
        i += 1;
        assert(s@ =~= v@.take(i as int));
    }
    assert(v@.take(i as int) =~= v@);
    sort_samples(&mut s);
    let m = s[v.len() / 2];
    assert(ascending(s@));
    Some(m)
}

/// Per-frame timings of playback, kept only when recording is switched on.
pub struct MetricsRecorder {
    enabled: bool,
    evolve: Vec<u64>,
    render: Vec<u64>,
    playback_micros: u64,
}

impl MetricsRecorder {
    pub closed spec fn on(&self) -> bool {
        self.enabled
    }

    /// Evolution times so far, in microseconds.
    pub closed spec fn evolve_samples(&self) -> Seq<u64> {
        self.evolve@
    }

    /// Render times so far, in microseconds.
    pub closed spec fn render_samples(&self) -> Seq<u64> {
        self.render@
    }

    /// Time spent in playback so far, in microseconds.
    pub closed spec fn total_micros(&self) -> u64 {
        self.playback_micros
    }

    pub fn new(enabled: bool) -> (r: MetricsRecorder)
        ensures
            r.on() == enabled,
            r.evolve_samples().len() == 0,
            r.render_samples().len() == 0,
            r.total_micros() == 0,
    {
        MetricsRecorder { enabled, evolve: Vec::new(), render: Vec::new(), playback_micros: 0 }
    }

    pub fn is_enabled(&self) -> (r: bool)
        ensures
            r == self.on(),
    {
        self.enabled
    }

    /// Adds one frame's evolution and render times; does nothing when
    /// recording is off.
    pub fn record_frame(&mut self, evolve_us: u64, render_us: u64)
        ensures
            final(self).on() == old(self).on(),
            final(self).total_micros() == old(self).total_micros(),
            old(self).on() ==> final(self).evolve_samples() == old(self).evolve_samples().push(evolve_us),
            old(self).on() ==> final(self).render_samples() == old(self).render_samples().push(render_us),
            !old(self).on() ==> final(self).evolve_samples() == old(self).evolve_samples(),
            !old(self).on() ==> final(self).render_samples() == old(self).render_samples(),
    {
        if self.enabled {
            self.evolve.push(evolve_us);
            self.render.push(render_us);
        }
    }

    /// Adds the length of one playback run; does nothing when recording is
    /// off. The total saturates at `u64::MAX`.
    pub fn record_playback(&mut self, micros: u64)
        ensures
            final(self).on() == old(self).on(),
            final(self).evolve_samples() == old(self).evolve_samples(),
            final(self).render_samples() == old(self).render_samples(),
            old(self).on() ==> final(self).total_micros() == (if old(self).total_micros() + micros <= u64::MAX {
                (old(self).total_micros() + micros) as u64
            } else {
                u64::MAX
            }),
            !old(self).on() ==> final(self).total_micros() == old(self).total_micros(),
    {
        if self.enabled {
            self.playback_micros = self.playback_micros.saturating_add(micros);
        }
    }

    /// Median evolution time, when at least two frames were recorded.
    pub fn median_evolve(&self) -> (r: Option<u64>)
        ensures
            r.is_some() == (self.evolve_samples().len() > 1),
            r matches Some(m) ==> is_median(self.evolve_samples(), m),
    {
        median(&self.evolve)
    }

    /// Median render time, when at least two frames were recorded.
    pub fn median_render(&self) -> (r: Option<u64>)
        ensures
            r.is_some() == (self.render_samples().len() > 1),
            r matches Some(m) ==> is_median(self.render_samples(), m),
    {
        median(&self.render)
    }

    /// Frames per second over all playback, in thousandths, when any playback
    /// time was recorded.
    pub fn average_rate_milli(&self) -> (r: Option<u128>)
        ensures
            r.is_some() == (self.total_micros() > 0),
            r matches Some(v) ==> v == (self.evolve_samples().len() as int) * 1_000_000_000int / (self.total_micros() as int),
    {
        if self.playback_micros == 0 {
            return None;
        }
        let frames = self.evolve.len() as u128;
        assert(frames * 1_000_000_000 <= u64::MAX * 1_000_000_000) by (nonlinear_arith)
            requires frames <= u64::MAX;
        Some(frames * 1_000_000_000u128 / (self.playback_micros as u128))
    }
}

} // verus!
