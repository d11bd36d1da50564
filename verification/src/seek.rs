//! Seek coordination between the window thread, the demuxer and the decoders.
//!
//! The window thread requests a target, which starts a new epoch. Each decoder
//! notices the new epoch, resets itself and reports ready. The demuxer waits for
//! that barrier, takes the target if no newer request has replaced it, and moves
//! the read position.

use vstd::prelude::*;

verus! {

/// What a [`SeekCtl`] stands for.
pub struct SeekModel<T> {
    /// The target that nobody has taken yet.
    pub target: Option<T>,
    /// How many seeks were requested.
    pub epoch: nat,
    /// The newest epoch of which a report spoke.
    pub ready_epoch: nat,
    /// How many reports spoke of `ready_epoch`.
    pub ready_count: nat,
    /// How many decoders have to report.
    pub ready_max: nat,
}

impl<T> SeekModel<T> {
    /// The state before any seek.
    pub open spec fn idle(ready_max: nat) -> SeekModel<T> {
        SeekModel { target: None, epoch: 0, ready_epoch: 0, ready_count: 0, ready_max }
    }

    /// The state after a request for `target`.
    pub open spec fn requested(self, target: T) -> SeekModel<T> {
        SeekModel { target: Some(target), epoch: self.epoch + 1, ..self }
    }

    /// What a thread that has handled `local_epoch` is told.
    pub open spec fn news(self, local_epoch: nat) -> Option<(nat, Option<T>)> {
        if self.epoch != local_epoch {
            Some((self.epoch, self.target))
        } else {
            None
        }
    }

    /// The state after one decoder has reported ready for `epoch`: a newer epoch starts
    /// the count anew, and a report for an older one comes too late to count.
    pub open spec fn reported(self, epoch: nat) -> SeekModel<T> {
        if epoch < self.ready_epoch {
            self
        } else {
            SeekModel {
                ready_epoch: epoch,
                ready_count: if self.ready_epoch == epoch {
                    self.ready_count + 1
                } else {
                    1
                },
                ..self
            }
        }
    }

    /// The state after the reports of `reports`, in that order.
    pub open spec fn reported_all(self, reports: Seq<nat>) -> SeekModel<T>
        decreases reports.len(),
    {
        if reports.len() == 0 {
            self
        } else {
            self.reported_all(reports.drop_last()).reported(reports.last())
        }
    }

    /// Whether the demuxer may go on with `epoch`.
    pub open spec fn is_ready(self, epoch: nat) -> bool {
        self.ready_epoch >= epoch && self.ready_count >= self.ready_max
    }

    /// What taking the target of `epoch` yields.
    pub open spec fn target_of(self, epoch: nat) -> Option<T> {
        if self.epoch == epoch {
            self.target
        } else {
            None
        }
    }

    /// The state after the target of `epoch` was asked for.
    pub open spec fn taken(self, epoch: nat) -> SeekModel<T> {
        if self.epoch == epoch {
            SeekModel { target: None, ..self }
        } else {
            self
        }
    }
}

/// The greatest of `least` and the epochs in `reports`.
pub open spec fn greatest(least: nat, reports: Seq<nat>) -> nat
    decreases reports.len(),
{
    if reports.len() == 0 {
        least
    } else {
        let before = greatest(least, reports.drop_last());
        if reports.last() > before {
            reports.last()
        } else {
            before
        }
    }
}

/// How many of `reports` speak of `epoch`.
pub open spec fn times(reports: Seq<nat>, epoch: nat) -> nat
    decreases reports.len(),
{
    if reports.len() == 0 {
        0
    } else {
        times(reports.drop_last(), epoch) + if reports.last() == epoch {
            1nat
        } else {
            0
        }
    }
}

/// Whether the decoder `d` is among those who have reported for `epoch`, where `by` tells
/// who has made each report.
pub open spec fn has_reported(reports: Seq<nat>, by: Seq<nat>, d: nat, epoch: nat) -> bool {
    exists|i: int| 0 <= i < by.len() && #[trigger] by[i] == d && reports[i] == epoch
}

/// How many of `reports` speak of `epoch` and come from one of the first `n` decoders,
/// where `by` tells who has made each of them.
pub open spec fn times_by(reports: Seq<nat>, by: Seq<nat>, epoch: nat, n: nat) -> nat
    decreases reports.len(),
{
    if reports.len() == 0 {
        0
    } else {
        times_by(reports.drop_last(), by.drop_last(), epoch, n) + if reports.last() == epoch
            && by.last() < n {
            1nat
        } else {
            0
        }
    }
}

/// The seek state of one media source. `T` is the type of a target position.
pub struct SeekCtl<T> {
    target: Option<T>,
    epoch: u64,
    ready_epoch: u64,
    ready_count: usize,
    ready_max: usize,
}

impl<T> View for SeekCtl<T> {
    type V = SeekModel<T>;

    closed spec fn view(&self) -> SeekModel<T> {
        SeekModel {
            target: self.target,
            epoch: self.epoch as nat,
            ready_epoch: self.ready_epoch as nat,
            ready_count: self.ready_count as nat,
            ready_max: self.ready_max as nat,
        }
    }
}

impl<T: Copy> SeekCtl<T> {
    /// No seek yet; `ready_max` decoders take part in the barrier.
    pub fn new(ready_max: usize) -> (ctl: SeekCtl<T>)
        ensures
            ctl@ == (SeekModel::<T> {
                target: None,
                epoch: 0,
                ready_epoch: 0,
                ready_count: 0,
                ready_max: ready_max as nat,
            }),
            ctl@ == SeekModel::<T>::idle(ready_max as nat),
    {
        SeekCtl { target: None, epoch: 0, ready_epoch: 0, ready_count: 0, ready_max }
    }

    /// Requests a seek to `target_sec` and starts a new epoch. A target that was
    /// still waiting is replaced.
    pub fn request(&mut self, target_sec: T)
        requires
            old(self)@.epoch < u64::MAX,
        ensures
            final(self)@ == old(self)@.requested(target_sec),
    {
        self.target = Some(target_sec);
        self.epoch = self.epoch + 1;
    }

    /// The current epoch.
    pub fn epoch(&self) -> (epoch: u64)
        ensures
            epoch == self@.epoch,
    {
        self.epoch
    }

    /// The current epoch and its target, where the epoch differs from the one
    /// that the asking thread has already handled.
    pub fn snapshot_new(&self, local_epoch: u64) -> (news: Option<(u64, Option<T>)>)
        ensures
            news is Some <==> self@.news(local_epoch as nat) is Some,
            news matches Some(n) ==> self@.news(local_epoch as nat) == Some((n.0 as nat, n.1)),
    {
        if self.epoch != local_epoch {
            Some((self.epoch, self.target))
        } else {
            None
        }
    }

    /// One decoder reports that it has reset itself for `epoch`. The first report for a
    /// newer epoch starts the count anew; one for an older epoch changes nothing.
    pub fn report_ready(&mut self, epoch: u64)
        requires
            old(self)@.ready_epoch == epoch ==> old(self)@.ready_count < usize::MAX,
        ensures
            final(self)@ == old(self)@.reported(epoch as nat),
    {
        if epoch < self.ready_epoch {
            return;
        }
        if self.ready_epoch != epoch {
            self.ready_epoch = epoch;
            self.ready_count = 0;
        }
        self.ready_count = self.ready_count + 1;
    }

    /// The newest epoch of which a report spoke, and how many did.
    pub fn barrier(&self) -> (barrier: (u64, usize))
        ensures
            barrier.0 == self@.ready_epoch,
            barrier.1 == self@.ready_count,
    {
        (self.ready_epoch, self.ready_count)
    }

    /// Whether the demuxer's wait for `epoch` is over: all decoders have reported
    /// for that epoch or for a later one.
    pub fn wait_ready(&self, epoch: u64) -> (ready: bool)
        ensures
            ready == self@.is_ready(epoch as nat),
    {
        self.ready_epoch >= epoch && self.ready_count >= self.ready_max
    }

    /// Takes the target, provided that it still belongs to `epoch`.
    pub fn take_target(&mut self, epoch: u64) -> (target: Option<T>)
        ensures
            target == old(self)@.target_of(epoch as nat),
            final(self)@ == old(self)@.taken(epoch as nat),
    {
        if self.epoch == epoch {
            let target = self.target;
            self.target = None;
            target
        } else {
            None
        }
    }
}

/// A request is seen by every thread that has handled an older epoch, with the
/// new epoch and the new target; a thread that is up to date sees nothing.
pub proof fn law_request_is_seen<T>(m: SeekModel<T>, target: T, local_epoch: nat)
    requires
        local_epoch <= m.epoch,
    ensures
        m.requested(target).news(local_epoch) == Some((m.epoch + 1, Some(target))),
        m.requested(target).news(m.epoch + 1) is None,
        m.news(m.epoch) is None,
{
}

/// A target can be taken once.
pub proof fn law_target_taken_once<T>(m: SeekModel<T>, epoch: nat)
    ensures
        m.taken(epoch).target_of(epoch) is None,
{
}

/// A newer request makes the older target void, and asking for the older target
/// leaves the newer one in place.
pub proof fn law_newer_request_wins<T>(m: SeekModel<T>, older: T, newer: T)
    ensures
        ({
            let first = m.requested(older);
            let second = first.requested(newer);
            &&& second.epoch == first.epoch + 1
            &&& second.target_of(first.epoch) is None
            &&& second.taken(first.epoch) == second
            &&& second.target_of(second.epoch) == Some(newer)
        }),
{
}

/// Requests and taken targets leave the barrier alone, and reports leave the
/// epoch and the target alone.
pub proof fn law_barrier_and_target_apart<T>(m: SeekModel<T>, target: T, epoch: nat, other: nat)
    ensures
        m.requested(target).is_ready(other) == m.is_ready(other),
        m.taken(epoch).is_ready(other) == m.is_ready(other),
        m.reported(epoch).news(other) == m.news(other),
        m.reported(epoch).target_of(other) == m.target_of(other),
{
}

/// A barrier that is open for an epoch is open for every earlier one: a demuxer
/// that still waits for a superseded seek is let through.
pub proof fn law_newer_barrier_covers_older<T>(m: SeekModel<T>, older: nat, newer: nat)
    requires
        older <= newer,
        m.is_ready(newer),
    ensures
        m.is_ready(older),
{
}

/// What the barrier holds after reports in any order: the greatest epoch of which one
/// spoke, and how many did. It is open for an epoch exactly when that greatest epoch is no
/// older and at least as many reports as there are decoders spoke of it.
pub proof fn law_barrier_after_reports<T>(m: SeekModel<T>, reports: Seq<nat>, epoch: nat)
    ensures
        ({
            let g = greatest(m.ready_epoch, reports);
            let n = times(reports, g) + if m.ready_epoch == g {
                m.ready_count
            } else {
                0
            };
            let after = m.reported_all(reports);
            &&& after.ready_epoch == g
            &&& after.ready_count == n
            &&& after.is_ready(epoch) <==> g >= epoch && n >= m.ready_max
        }),
    decreases reports.len(),
{
    if reports.len() > 0 {
        let before = reports.drop_last();
        law_barrier_after_reports(m, before, epoch);
        if reports.last() > greatest(m.ready_epoch, before) {
            lemma_none_above_greatest(m.ready_epoch, before, reports.last());
        }
        lemma_greatest_bounds(m.ready_epoch, before);
        lemma_reports_keep_rest(m, reports);
    }
}

/// A report that comes late, for an older epoch than one already reported, changes
/// nothing.
pub proof fn law_late_report_changes_nothing<T>(m: SeekModel<T>, epoch: nat)
    requires
        epoch < m.ready_epoch,
    ensures
        m.reported(epoch) == m,
{
}

/// The demuxer does not wait for ever: once each decoder has reported for the newest
/// epoch, the wait for that epoch and for every earlier one is over, in whatever order
/// the reports came and whatever else was reported. `by` tells which of the decoders has
/// made each report.
pub proof fn law_all_ready_opens_barrier<T>(
    m: SeekModel<T>,
    reports: Seq<nat>,
    by: Seq<nat>,
    newest: nat,
    epoch: nat,
)
    requires
        reports.len() == by.len(),
        m.ready_max >= 1,
        m.ready_epoch <= newest,
        epoch <= newest,
        forall|i: int| 0 <= i < reports.len() ==> reports[i] <= newest,
        forall|d: nat| d < m.ready_max ==> #[trigger] has_reported(reports, by, d, newest),
    ensures
        m.reported_all(reports).is_ready(epoch),
{
    lemma_each_decoder_counts(reports, by, newest, m.ready_max);
    lemma_times_by_at_most(reports, by, newest, m.ready_max);
    lemma_greatest_bounds(m.ready_epoch, reports);
    assert(has_reported(reports, by, 0, newest));
    let i = choose|i: int| 0 <= i < by.len() && #[trigger] by[i] == 0nat && reports[i] == newest;
    assert(reports[i] <= greatest(m.ready_epoch, reports));
    lemma_greatest_at_most(m.ready_epoch, reports, newest);
    law_barrier_after_reports(m, reports, epoch);
}

/// A seek arrives: once every decoder has reported for the epoch of a request, and no
/// newer request has come, the demuxer is let through and takes exactly the target
/// that was requested. No decoder has reported for an epoch that was not requested.
pub proof fn law_seek_arrives<T>(m: SeekModel<T>, target: T)
    requires
        m.ready_max >= 1,
        m.ready_epoch <= m.epoch,
    ensures
        ({
            let epoch = m.epoch + 1;
            let reports = Seq::new(m.ready_max, |i: int| epoch);
            let after = m.requested(target).reported_all(reports);
            &&& after.is_ready(epoch)
            &&& after.epoch == epoch
            &&& after.target_of(epoch) == Some(target)
            &&& after.taken(epoch).target_of(epoch) is None
        }),
{
    let epoch = m.epoch + 1;
    let reports = Seq::new(m.ready_max, |i: int| epoch);
    let by = Seq::new(m.ready_max, |i: int| i as nat);
    assert forall|d: nat| d < m.ready_max implies #[trigger] has_reported(
        reports,
        by,
        d,
        epoch,
    ) by {
        assert(by[d as int] == d);
    }
    law_all_ready_opens_barrier(m.requested(target), reports, by, epoch, epoch);
    lemma_reports_keep_rest(m.requested(target), reports);
}

proof fn lemma_reports_keep_rest<T>(m: SeekModel<T>, reports: Seq<nat>)
    ensures
        m.reported_all(reports).epoch == m.epoch,
        m.reported_all(reports).target == m.target,
        m.reported_all(reports).ready_max == m.ready_max,
    decreases reports.len(),
{
    if reports.len() > 0 {
        lemma_reports_keep_rest(m, reports.drop_last());
    }
}

proof fn lemma_greatest_bounds(least: nat, reports: Seq<nat>)
    ensures
        greatest(least, reports) >= least,
        forall|i: int| 0 <= i < reports.len() ==> #[trigger] reports[i] <= greatest(least, reports),
    decreases reports.len(),
{
    if reports.len() > 0 {
        let before = reports.drop_last();
        lemma_greatest_bounds(least, before);
        assert forall|i: int| 0 <= i < reports.len() implies #[trigger] reports[i] <= greatest(
            least,
            reports,
        ) by {
            if i < before.len() {
                assert(before[i] == reports[i]);
            }
        }
    }
}

proof fn lemma_greatest_at_most(least: nat, reports: Seq<nat>, most: nat)
    requires
        least <= most,
        forall|i: int| 0 <= i < reports.len() ==> reports[i] <= most,
    ensures
        greatest(least, reports) <= most,
    decreases reports.len(),
{
    if reports.len() > 0 {
        lemma_greatest_at_most(least, reports.drop_last(), most);
    }
}

proof fn lemma_none_above_greatest(least: nat, reports: Seq<nat>, epoch: nat)
    requires
        epoch > greatest(least, reports),
    ensures
        times(reports, epoch) == 0,
    decreases reports.len(),
{
    if reports.len() > 0 {
        lemma_none_above_greatest(least, reports.drop_last(), epoch);
    }
}

proof fn lemma_times_by_at_most(reports: Seq<nat>, by: Seq<nat>, epoch: nat, n: nat)
    requires
        reports.len() == by.len(),
    ensures
        times_by(reports, by, epoch, n) <= times(reports, epoch),
    decreases reports.len(),
{
    if reports.len() > 0 {
        lemma_times_by_at_most(reports.drop_last(), by.drop_last(), epoch, n);
    }
}

proof fn lemma_each_decoder_counts(reports: Seq<nat>, by: Seq<nat>, epoch: nat, n: nat)
    requires
        reports.len() == by.len(),
        forall|d: nat| d < n ==> #[trigger] has_reported(reports, by, d, epoch),
    ensures
        times_by(reports, by, epoch, n) >= n,
    decreases n,
{
    if n > 0 {
        let last = (n - 1) as nat;
        lemma_each_decoder_counts(reports, by, epoch, last);
        assert(has_reported(reports, by, last, epoch));
        let i = choose|i: int| 0 <= i < by.len() && #[trigger] by[i] == last && reports[i] == epoch;
        lemma_one_more_decoder(reports, by, epoch, last, i);
    }
}

proof fn lemma_one_more_decoder(reports: Seq<nat>, by: Seq<nat>, epoch: nat, n: nat, i: int)
    requires
        reports.len() == by.len(),
    ensures
        times_by(reports, by, epoch, n + 1) >= times_by(reports, by, epoch, n),
        0 <= i < by.len() && by[i] == n && reports[i] == epoch ==> times_by(
            reports,
            by,
            epoch,
            n + 1,
        ) > times_by(reports, by, epoch, n),
    decreases reports.len(),
{
    if reports.len() > 0 {
        lemma_one_more_decoder(reports.drop_last(), by.drop_last(), epoch, n, i);
    }
}

/// A request counts: it starts the next epoch with its own target, and leaves the reports
/// alone.
pub proof fn law_request_counts<T>(m: SeekModel<T>, target: T)
    ensures
        m.requested(target).epoch == m.epoch + 1,
        m.requested(target).target == Some(target),
        m.requested(target).ready_epoch == m.ready_epoch,
        m.requested(target).ready_count == m.ready_count,
        m.requested(target).ready_max == m.ready_max,
{
}

/// News is told to whoever has handled another epoch than the current one, and to nobody
/// else; it is the current epoch and its target.
pub proof fn law_news_is_told<T>(m: SeekModel<T>, local_epoch: nat)
    ensures
        m.news(local_epoch) is Some <==> m.epoch != local_epoch,
        m.news(local_epoch) matches Some((epoch, target)) ==> epoch == m.epoch && target
            == m.target,
{
}

/// A report for the newest epoch counts, the first for a newer one starts the count, and
/// none of them changes anything else.
pub proof fn law_report_counts<T>(m: SeekModel<T>, epoch: nat)
    ensures
        epoch == m.ready_epoch ==> m.reported(epoch).ready_count == m.ready_count + 1,
        epoch > m.ready_epoch ==> m.reported(epoch).ready_count == 1,
        epoch >= m.ready_epoch ==> m.reported(epoch).ready_epoch == epoch,
        epoch < m.ready_epoch ==> m.reported(epoch) == m,
        m.reported(epoch).epoch == m.epoch,
        m.reported(epoch).target == m.target,
        m.reported(epoch).ready_max == m.ready_max,
{
}

/// The wait for an epoch is over exactly when enough decoders have reported for it or for
/// a newer one.
pub proof fn law_wait_is_over<T>(m: SeekModel<T>, epoch: nat)
    ensures
        m.is_ready(epoch) <==> epoch <= m.ready_epoch && m.ready_max <= m.ready_count,
{
}

/// A target goes to who asks for its own epoch, and to nobody else; it is then gone, and
/// nothing else has changed.
pub proof fn law_target_goes_to_its_epoch<T>(m: SeekModel<T>, epoch: nat)
    ensures
        epoch == m.epoch ==> m.target_of(epoch) == m.target && m.taken(epoch).target is None,
        epoch != m.epoch ==> m.target_of(epoch) is None && m.taken(epoch) == m,
        m.taken(epoch).epoch == m.epoch,
        m.taken(epoch).ready_epoch == m.ready_epoch,
        m.taken(epoch).ready_count == m.ready_count,
        m.taken(epoch).ready_max == m.ready_max,
{
}

/// Before the first request there is no news and no target for anybody who has handled
/// nothing, and as many decoders are waited for as take part.
pub proof fn law_no_seek_at_first<T>(ready_max: nat, epoch: nat)
    ensures
        ({
            let m = SeekModel::<T>::idle(ready_max);
            &&& m.news(0) is None
            &&& m.target_of(epoch) is None
            &&& m.ready_max == ready_max
            &&& ready_max > 0 ==> !m.is_ready(epoch)
        }),
{
}

} // verus!
