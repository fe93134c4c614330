use vstd::prelude::*;

verus! {

/// One progress report: the bytes of the chunk just received, and the whole
/// payload's size when the server announced it.
#[derive(Debug, Clone, Copy, PartialEq, Eq)]
pub struct UpdateProgress {
    pub chunk_length: u64,
    pub content_length: Option<u64>,
}

/// An event sent to the user interface during one download.
pub enum UpdaterEvent {
    Progress(UpdateProgress),
    Finished,
}

/// Bytes reported by the first `n` events of `log`.
pub open spec fn cumulative(log: Seq<UpdaterEvent>, n: int) -> nat
    decreases n,
{
    if n <= 0 {
        0
    } else {
        cumulative(log, n - 1) + match log[n - 1] {
            UpdaterEvent::Progress(p) => p.chunk_length as nat,
            UpdaterEvent::Finished => 0nat,
        }
    }
}

/// The events of one download, in the order they are emitted. `events` is
/// the record of what was emitted so far; `finished` is set once the
/// completion signal went out.
pub struct DownloadSession {
    pub finished: bool,
    pub events: Ghost<Seq<UpdaterEvent>>,
}

impl DownloadSession {
    /// The emitted events so far.
    pub open spec fn log(&self) -> Seq<UpdaterEvent> {
        self.events@
    }

    /// The completion signal is the last event, if emitted at all, and
    /// `finished` says whether it was.
    pub open spec fn wf(&self) -> bool {
        &&& forall|i: int|
            0 <= i < self.log().len() && #[trigger] self.log()[i] is Finished ==> i
                == self.log().len() - 1
        &&& self.finished <==> (self.log().len() > 0 && self.log().last() is Finished)
    }

    /// A download that has emitted nothing yet.
    pub fn new() -> (r: Self)
        ensures
            r.wf(),
            r.log() == Seq::<UpdaterEvent>::empty(),
            !r.finished,
    {
        DownloadSession { finished: false, events: Ghost(Seq::empty()) }
    }

    /// A chunk of `chunk_length` bytes arrived; `content_length` is the size
    /// the server announced, if any. Returns the progress event to emit, or
    /// `None` once the completion signal was sent: nothing follows it.
    pub fn on_chunk(&mut self, chunk_length: usize, content_length: Option<u64>) -> (r: Option<
        UpdateProgress,
    >)
        requires
            old(self).wf(),
        ensures
            final(self).wf(),
            final(self).finished == old(self).finished,
            old(self).finished ==> r is None && final(self).log() == old(self).log(),
            !old(self).finished ==> {
                &&& r == Some(
                    UpdateProgress { chunk_length: chunk_length as u64, content_length },
                )
                &&& final(self).log() == old(self).log().push(
                    UpdaterEvent::Progress(r.unwrap()),
                )
            },
    {
        if self.finished {
            None
        } else {
            let p = UpdateProgress { chunk_length: chunk_length as u64, content_length };
            self.events = Ghost(self.events@.push(UpdaterEvent::Progress(p)));
            Some(p)
        }
    }

    /// The download completed. Returns whether the completion signal is to
    /// be emitted now: the first time only.
    pub fn on_finish(&mut self) -> (r: bool)
        requires
            old(self).wf(),
        ensures
            final(self).wf(),
            final(self).finished,
            r == !old(self).finished,
            r ==> final(self).log() == old(self).log().push(UpdaterEvent::Finished),
            !r ==> final(self).log() == old(self).log(),
    {
        if self.finished {
            false
        } else {
            self.finished = true;
            self.events = Ghost(self.events@.push(UpdaterEvent::Finished));
            true
        }
    }
}

/// Reported bytes never decrease along the log.
proof fn lemma_cumulative_monotone(log: Seq<UpdaterEvent>, i: int, j: int)
    requires
        0 <= i <= j,
    ensures
        cumulative(log, i) <= cumulative(log, j),
    decreases j - i,
{
    if i < j {
        lemma_cumulative_monotone(log, i, j - 1);
    }
}

/// In every download, the bytes reported so far never decrease from one
/// event to the next, and the completion signal, once sent, is the last
/// event: every progress event precedes it.
pub proof fn lemma_progress_order(s: &DownloadSession)
    requires
        s.wf(),
    ensures
        forall|i: int, j: int|
            0 <= i <= j <= s.log().len() ==> #[trigger] cumulative(s.log(), i) <= #[trigger] cumulative(
                s.log(),
                j,
            ),
        forall|i: int, j: int|
            0 <= i < j < s.log().len() ==> !(#[trigger] s.log()[i] is Finished) || !(
            #[trigger] s.log()[j] is Progress),
        s.finished ==> s.log().last() is Finished,
{
    assert forall|i: int, j: int| 0 <= i <= j <= s.log().len() implies #[trigger] cumulative(
        s.log(),
        i,
    ) <= #[trigger] cumulative(s.log(), j) by {
        lemma_cumulative_monotone(s.log(), i, j);
    }
}

} // verus!
