//! The diff watcher: what to report when the records of a wedding are read
//! again and again.
//!
//! Three addresses are tracked, the agreement record and the record of each
//! participant. For each the watcher remembers what it saw last. A tick hands
//! it one fresh read per address; it answers, address by address, whether
//! there is a change to report, and remembers the new state. Nothing here
//! waits or reads: the caller owns the loop, the pause between ticks and the
//! way out of it.

use crate::address::{
    find_partner_pda, find_wedding_pda, partner_address, wedding_address, Address,
    DerivationError,
};
use crate::layout::outcome_view;
use crate::state::{Partner, ReadError, Snapshot, Wedding};
use vstd::prelude::*;

verus! {

/// The pause between two ticks, in milliseconds.
pub const POLL_INTERVAL_MS: u64 = 1000;

/// What the watcher last saw at an address.
#[derive(Debug, PartialEq, Eq)]
pub enum Observed<T> {
    /// No read has told yet whether there is an account.
    Unknown,
    /// The address held no account.
    Absent,
    /// The address held this record.
    Present(T),
}

/// What the watcher says of one address after a tick.
#[derive(Debug, PartialEq, Eq)]
pub enum Notice<T> {
    /// Nothing to report: the address is as it was.
    Quiet,
    /// The address now holds this record, which is new or has changed.
    Changed(T),
    /// The record that was at the address is gone.
    Gone,
    /// The read failed. What was last seen still stands.
    ReadFailed(ReadError),
}

impl<T: View> View for Observed<T> {
    type V = Observed<T::V>;

    open spec fn view(&self) -> Observed<T::V> {
        match *self {
            Observed::Unknown => Observed::Unknown,
            Observed::Absent => Observed::Absent,
            Observed::Present(record) => Observed::Present(record@),
        }
    }
}

impl<T: View> View for Notice<T> {
    type V = Notice<T::V>;

    open spec fn view(&self) -> Notice<T::V> {
        match *self {
            Notice::Quiet => Notice::Quiet,
            Notice::Changed(record) => Notice::Changed(record@),
            Notice::Gone => Notice::Gone,
            Notice::ReadFailed(e) => Notice::ReadFailed(e),
        }
    }
}

/// What is remembered of an address after a read. A record or its absence
/// replaces what was known; a failed read changes nothing.
pub open spec fn next_observed<V>(last: Observed<V>, reading: Result<V, ReadError>) -> Observed<V> {
    match reading {
        Ok(record) => Observed::Present(record),
        Err(ReadError::NotFound) => Observed::Absent,
        Err(_) => last,
    }
}

/// What is reported of an address after a read. A record is reported unless
/// the same record was seen last; an absence is reported only where a record
/// was seen last; a failed read is passed on as such.
pub open spec fn notice_for<V>(last: Observed<V>, reading: Result<V, ReadError>) -> Notice<V> {
    match reading {
        Ok(record) => if last == Observed::Present(record) {
            Notice::Quiet
        } else {
            Notice::Changed(record)
        },
        Err(ReadError::NotFound) => if last is Present {
            Notice::Gone
        } else {
            Notice::Quiet
        },
        Err(e) => Notice::ReadFailed(e),
    }
}

/// Whether a notice tells of a change.
pub open spec fn is_change<V>(notice: Notice<V>) -> bool {
    notice is Changed || notice is Gone
}

/// What is remembered after a whole script of reads, one after the other.
pub open spec fn observed_after<V>(start: Observed<V>, script: Seq<Result<V, ReadError>>) -> Observed<V>
    decreases script.len(),
{
    if script.len() == 0 {
        start
    } else {
        next_observed(observed_after(start, script.drop_last()), script.last())
    }
}

/// How many changes a script of reads reports, one read after the other.
pub open spec fn changes_reported<V>(start: Observed<V>, script: Seq<Result<V, ReadError>>) -> nat
    decreases script.len(),
{
    if script.len() == 0 {
        0
    } else {
        let before = script.drop_last();
        let notice = notice_for(observed_after(start, before), script.last());
        changes_reported(start, before) + if is_change(notice) {
            1nat
        } else {
            0nat
        }
    }
}

/// A read that repeats the one before it reports nothing and leaves what is
/// remembered as it is.
pub proof fn lemma_repeated_read_is_quiet<V>(last: Observed<V>, reading: Result<V, ReadError>)
    requires
        reading is Ok || reading == Err::<V, ReadError>(ReadError::NotFound),
    ensures
        notice_for(next_observed(last, reading), reading) == Notice::<V>::Quiet,
        next_observed(next_observed(last, reading), reading) == next_observed(last, reading),
{
}

/// A read that fails for another reason than a missing account leaves what
/// is remembered untouched and is never reported as a change.
pub proof fn lemma_failed_read_keeps_history<V>(last: Observed<V>, error: ReadError)
    requires
        error != ReadError::NotFound,
    ensures
        next_observed(last, Err::<V, ReadError>(error)) == last,
        notice_for(last, Err::<V, ReadError>(error)) == Notice::<V>::ReadFailed(error),
        !is_change(notice_for(last, Err::<V, ReadError>(error))),
{
}

/// A change is reported exactly when the read settles a state that differs
/// from the one remembered, the first sight of an empty address excepted.
pub proof fn lemma_change_iff_different<V>(last: Observed<V>, reading: Result<V, ReadError>)
    ensures
        is_change(notice_for(last, reading)) <==> (next_observed(last, reading) != last && !(last
            is Unknown && next_observed(last, reading) is Absent)),
{
}

/// Before the first record is seen, an empty address is not news; then a
/// record, the same record again, another record and its disappearance are
/// reported three times in all.
pub proof fn lemma_script_reports_three<V>(a: V, b: V)
    requires
        a != b,
    ensures
        changes_reported(
            Observed::<V>::Unknown,
            seq![
                Err::<V, ReadError>(ReadError::NotFound),
                Ok::<V, ReadError>(a),
                Ok::<V, ReadError>(a),
                Ok::<V, ReadError>(b),
                Err::<V, ReadError>(ReadError::NotFound),
            ],
        ) == 3,
{
    let r0 = Err::<V, ReadError>(ReadError::NotFound);
    let r1 = Ok::<V, ReadError>(a);
    let r3 = Ok::<V, ReadError>(b);
    let start = Observed::<V>::Unknown;
    let s0 = Seq::<Result<V, ReadError>>::empty();
    let s1 = seq![r0];
    let s2 = seq![r0, r1];
    let s3 = seq![r0, r1, r1];
    let s4 = seq![r0, r1, r1, r3];
    let s5 = seq![r0, r1, r1, r3, r0];
    assert(s1.drop_last() =~= s0);
    assert(s2.drop_last() =~= s1);
    assert(s3.drop_last() =~= s2);
    assert(s4.drop_last() =~= s3);
    assert(s5.drop_last() =~= s4);
    assert(observed_after(start, s0) == start);
    assert(observed_after(start, s1) == Observed::<V>::Absent);
    assert(observed_after(start, s2) == Observed::Present(a));
    assert(observed_after(start, s3) == Observed::Present(a));
    assert(observed_after(start, s4) == Observed::Present(b));
    assert(changes_reported(start, s0) == 0);
    assert(changes_reported(start, s1) == 0);
    assert(changes_reported(start, s2) == 1);
    assert(changes_reported(start, s3) == 1);
    assert(changes_reported(start, s4) == 2);
    assert(changes_reported(start, s5) == 3);
}

/// The watcher's memory of one address.
#[derive(Debug)]
pub struct Tracker<T> {
    pub last: Observed<T>,
}

impl<T: Snapshot> Tracker<T> {
    /// A tracker that has seen nothing yet.
    pub fn new() -> (tracker: Self)
        ensures
            tracker.last@ == Observed::<T::V>::Unknown,
    {
        Tracker { last: Observed::Unknown }
    }

    /// Takes one read of the address: says what there is to report and
    /// remembers what the read settled.
    pub fn observe(&mut self, reading: Result<T, ReadError>) -> (notice: Notice<T>)
        ensures
            final(self).last@ == next_observed(old(self).last@, outcome_view(reading)),
            notice@ == notice_for(old(self).last@, outcome_view(reading)),
    {
        match reading {
            Ok(record) => {
                let unchanged = match &self.last {
                    Observed::Present(seen) => seen.same(&record),
                    _ => false,
                };
                if unchanged {
                    Notice::Quiet
                } else {
                    let report = record.copy();
                    self.last = Observed::Present(record);
                    Notice::Changed(report)
                }
            },
            Err(ReadError::NotFound) => {
                let was_present = match &self.last {
                    Observed::Present(_) => true,
                    _ => false,
                };
                self.last = Observed::Absent;
                if was_present {
                    Notice::Gone
                } else {
                    Notice::Quiet
                }
            },
            Err(e) => Notice::ReadFailed(e),
        }
    }
}

/// The three addresses that a watch reads at every tick.
#[derive(Clone, Copy, Debug, PartialEq, Eq)]
pub struct Targets {
    /// The agreement record of the pair.
    pub wedding: Address,
    /// The record of the participant named first.
    pub partner0: Address,
    /// The record of the participant named second.
    pub partner1: Address,
}

/// The watcher's memory of a wedding: one tracker per address.
#[derive(Debug)]
pub struct Watch {
    pub targets: Targets,
    pub wedding: Tracker<Wedding>,
    pub partner0: Tracker<Partner>,
    pub partner1: Tracker<Partner>,
}

/// One tick's reads, one per tracked address.
#[derive(Debug)]
pub struct Readings {
    pub wedding: Result<Wedding, ReadError>,
    pub partner0: Result<Partner, ReadError>,
    pub partner1: Result<Partner, ReadError>,
}

/// One tick's notices, one per tracked address.
#[derive(Debug)]
pub struct Notices {
    pub wedding: Notice<Wedding>,
    pub partner0: Notice<Partner>,
    pub partner1: Notice<Partner>,
}

/// Whether `targets` are the record addresses of the pair under `program_id`.
pub open spec fn targets_of(
    targets: Targets,
    program_id: Seq<u8>,
    partner0: Seq<u8>,
    partner1: Seq<u8>,
) -> bool {
    &&& wedding_address(program_id, partner0, partner1) == Some(targets.wedding@)
    &&& partner_address(program_id, partner0) == Some(targets.partner0@)
    &&& partner_address(program_id, partner1) == Some(targets.partner1@)
}

/// Whether all three record addresses of the pair can be derived.
pub open spec fn targets_exist(program_id: Seq<u8>, partner0: Seq<u8>, partner1: Seq<u8>) -> bool {
    &&& wedding_address(program_id, partner0, partner1) is Some
    &&& partner_address(program_id, partner0) is Some
    &&& partner_address(program_id, partner1) is Some
}

impl Watch {
    /// A watch on the wedding of two participants that has seen nothing yet.
    pub fn new(program_id: &Address, partner0: &Address, partner1: &Address) -> (r: Result<
        Watch,
        DerivationError,
    >)
        ensures
            r is Ok <==> targets_exist(program_id@, partner0@, partner1@),
            r matches Ok(watch) ==> {
                &&& targets_of(watch.targets, program_id@, partner0@, partner1@)
                &&& watch.wedding.last@ == Observed::<crate::state::WeddingView>::Unknown
                &&& watch.partner0.last@ == Observed::<crate::state::PartnerView>::Unknown
                &&& watch.partner1.last@ == Observed::<crate::state::PartnerView>::Unknown
            },
    {
        let wedding = find_wedding_pda(program_id, partner0, partner1)?;
        let first = find_partner_pda(program_id, partner0)?;
        let second = find_partner_pda(program_id, partner1)?;
        Ok(
            Watch {
                targets: Targets { wedding, partner0: first, partner1: second },
                wedding: Tracker::new(),
                partner0: Tracker::new(),
                partner1: Tracker::new(),
            },
        )
    }
}

/// One tick of the watch: takes the fresh read of each tracked address and
/// says, address by address, what there is to report. Each address is judged
/// on its own read and its own history.
pub fn watch_wedding(watch: &mut Watch, readings: Readings) -> (notices: Notices)
    ensures
        final(watch).targets == old(watch).targets,
        final(watch).wedding.last@ == next_observed(
            old(watch).wedding.last@,
            outcome_view(readings.wedding),
        ),
        final(watch).partner0.last@ == next_observed(
            old(watch).partner0.last@,
            outcome_view(readings.partner0),
        ),
        final(watch).partner1.last@ == next_observed(
            old(watch).partner1.last@,
            outcome_view(readings.partner1),
        ),
        notices.wedding@ == notice_for(old(watch).wedding.last@, outcome_view(readings.wedding)),
        notices.partner0@ == notice_for(
            old(watch).partner0.last@,
            outcome_view(readings.partner0),
        ),
        notices.partner1@ == notice_for(
            old(watch).partner1.last@,
            outcome_view(readings.partner1),
        ),
{
    let wedding = watch.wedding.observe(readings.wedding);
    let partner0 = watch.partner0.observe(readings.partner0);
    let partner1 = watch.partner1.observe(readings.partner1);
    Notices { wedding, partner0, partner1 }
}

} // verus!
