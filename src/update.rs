use vstd::prelude::*;

verus! {

/// Error text when the running platform has no updater.
pub open spec fn unsupported_text() -> Seq<char> {
    "Updates not supported on this platform"@
}

/// Error text when an install is asked for before any update was found.
pub open spec fn no_pending_text() -> Seq<char> {
    "No pending update found"@
}

/// Notes of the record returned when the feed reports nothing newer.
pub open spec fn up_to_date_notes() -> Seq<char> {
    "No updates available"@
}

/// Date shown when the feed gives none.
pub open spec fn unknown_date_text() -> Seq<char> {
    "Unknown"@
}

/// Prefix of the error returned when the feed could not be queried.
pub open spec fn check_failed_prefix() -> Seq<char> {
    "Failed to check for updates: "@
}

/// Prefix of the error returned when downloading or installing failed.
pub open spec fn install_failed_prefix() -> Seq<char> {
    "Failed to download and install update: "@
}

/// What the user interface is told after a check.
#[derive(Debug, PartialEq, Eq)]
pub struct UpdateInfo {
    pub version: String,
    pub notes: String,
    pub date: String,
    pub available: bool,
}

/// A newer release reported by the feed. `handle` is the capability that
/// fetches and applies it; the library only carries it along.
pub struct UpdateDescriptor<H> {
    pub version: String,
    pub notes: Option<String>,
    pub date: Option<String>,
    pub handle: H,
}

/// The one process-wide holder of a discovered, not yet installed update.
/// A check overwrites it; an install takes its content out.
pub struct PendingUpdate<H> {
    pub slot: Option<UpdateDescriptor<H>>,
}

/// The record of a check that found `d`, as mathematical strings.
pub open spec fn found_fields<H>(d: UpdateDescriptor<H>) -> (Seq<char>, Seq<char>, Seq<char>) {
    (
        d.version@,
        match d.notes {
            Some(n) => n@,
            None => Seq::<char>::empty(),
        },
        match d.date {
            Some(t) => t@,
            None => unknown_date_text(),
        },
    )
}

/// Fields of `info` as mathematical strings, with its availability flag.
pub open spec fn info_view(info: UpdateInfo) -> (Seq<char>, Seq<char>, Seq<char>, bool) {
    (info.version@, info.notes@, info.date@, info.available)
}

/// The record returned when the feed reports no newer release.
pub open spec fn up_to_date_view() -> (Seq<char>, Seq<char>, Seq<char>, bool) {
    (Seq::<char>::empty(), up_to_date_notes(), Seq::<char>::empty(), false)
}

/// The record returned for a found update `d`.
pub open spec fn found_view<H>(d: UpdateDescriptor<H>) -> (Seq<char>, Seq<char>, Seq<char>, bool) {
    (found_fields(d).0, found_fields(d).1, found_fields(d).2, true)
}

/// The slot after an install was started on `s`: always empty.
pub open spec fn after_install<H>(s: PendingUpdate<H>) -> PendingUpdate<H> {
    PendingUpdate { slot: None }
}

/// Whether an install started on `s` is refused: exactly when nothing is pending.
pub open spec fn install_refused<H>(s: PendingUpdate<H>) -> bool {
    s.slot is None
}

impl<H> PendingUpdate<H> {
    /// An empty slot, as at process start.
    pub fn new() -> (r: Self)
        ensures
            r.slot is None,
    {
        PendingUpdate { slot: None }
    }

    /// Whether no update is pending.
    pub fn is_empty(&self) -> (r: bool)
        ensures
            r == (self.slot is None),
    {
        self.slot.is_none()
    }

    /// Puts `d` in the slot, discarding whatever was there.
    pub fn store(&mut self, d: UpdateDescriptor<H>)
        ensures
            final(self).slot == Some(d),
    {
        self.slot = Some(d);
    }

    /// Takes the pending update out, leaving the slot empty.
    pub fn take(&mut self) -> (r: Option<UpdateDescriptor<H>>)
        ensures
            r == old(self).slot,
            final(self).slot is None,
    {
        self.slot.take()
    }
}

/// Whether the platform can update itself at all. Every update command asks
/// this first; on `Err` no outside work is done.
pub fn require_update_support(supported: bool) -> (r: Result<(), String>)
    ensures
        supported <==> r is Ok,
        r matches Err(e) ==> e@ == unsupported_text(),
{
    if supported {
        Ok(())
    } else {
        Err(String::from_str("Updates not supported on this platform"))
    }
}

/// Builds the record shown for a found update.
pub fn found_info<H>(d: &UpdateDescriptor<H>) -> (r: UpdateInfo)
    ensures
        info_view(r) == found_view(*d),
{
    let notes = match &d.notes {
        Some(n) => n.clone(),
        None => String::new(),
    };
    let date = match &d.date {
        Some(t) => t.clone(),
        None => String::from_str("Unknown"),
    };
    UpdateInfo { version: d.version.clone(), notes, date, available: true }
}

/// The record returned when nothing newer is published.
pub fn up_to_date_info() -> (r: UpdateInfo)
    ensures
        info_view(r) == up_to_date_view(),
{
    UpdateInfo {
        version: String::new(),
        notes: String::from_str("No updates available"),
        date: String::new(),
        available: false,
    }
}

/// Finishes a check from the feed's reply: `Ok(Some(d))` when a newer
/// release was found, `Ok(None)` when none is, `Err(e)` with the error text
/// when the feed could not be reached or read.
///
/// A found update replaces whatever was pending; otherwise the slot is kept.
pub fn check_for_updates<H>(
    pending: &mut PendingUpdate<H>,
    reply: Result<Option<UpdateDescriptor<H>>, String>,
) -> (r: Result<UpdateInfo, String>)
    ensures
        match reply {
            Ok(Some(d)) => {
                &&& r matches Ok(info) && info_view(info) == found_view(d)
                &&& final(pending).slot == Some(d)
            },
            Ok(None) => {
                &&& r matches Ok(info) && info_view(info) == up_to_date_view()
                &&& *final(pending) == *old(pending)
            },
            Err(e) => {
                &&& r matches Err(m) && m@ == check_failed_prefix() + e@
                &&& *final(pending) == *old(pending)
            },
        },
{
    match reply {
        Ok(Some(d)) => {
            let info = found_info(&d);
            pending.store(d);
            Ok(info)
        },
        Ok(None) => Ok(up_to_date_info()),
        Err(e) => {
            let m = String::from_str("Failed to check for updates: ");
            Err(m.concat(e.as_str()))
        },
    }
}

/// Starts an install: takes the pending update out of the slot. The slot is
/// empty afterwards, whatever it held; when it held nothing the install is
/// refused and the download is never started.
pub fn start_install<H>(pending: &mut PendingUpdate<H>) -> (r: Result<UpdateDescriptor<H>, String>)
    ensures
        *final(pending) == after_install(*old(pending)),
        r is Err <==> install_refused(*old(pending)),
        match old(pending).slot {
            Some(d) => r == Ok::<UpdateDescriptor<H>, String>(d),
            None => r matches Err(e) && e@ == no_pending_text(),
        },
{
    match pending.take() {
        Some(d) => Ok(d),
        None => Err(String::from_str("No pending update found")),
    }
}

/// An install always leaves the slot empty, so a second install started
/// right after a first one, with no check between them, is always refused.
pub proof fn lemma_second_install_refused<H>(s: PendingUpdate<H>)
    ensures
        after_install(s).slot is None,
        install_refused(after_install(s)),
        after_install(after_install(s)) == after_install(s),
{
}

/// Finishes an install from the outcome of the download and install step.
pub fn finish_install(outcome: Result<(), String>) -> (r: Result<(), String>)
    ensures
        outcome is Ok <==> r is Ok,
        outcome matches Err(e) ==> (r matches Err(m) && m@ == install_failed_prefix() + e@),
{
    match outcome {
        Ok(()) => Ok(()),
        Err(e) => {
            let m = String::from_str("Failed to download and install update: ");
            Err(m.concat(e.as_str()))
        },
    }
}

} // verus!
