//! The decisions of one export call: which span to publish next, and when the
//! batch is done or has failed. The caller performs each publish and reports
//! its outcome.
use vstd::prelude::*;

verus! {

/// Where the export of a batch stands.
#[derive(PartialEq, Eq, Structural, Debug, Clone, Copy)]
pub enum ExportStatus {
    /// Spans remain to be published.
    InProgress,
    /// Every span of the batch was accepted by the producer.
    Succeeded,
    /// A span could not be encoded or published; the rest of the batch is dropped.
    Failed,
}

/// The progress of one export call over a batch of `total` spans, published
/// one at a time in input order.
#[derive(PartialEq, Eq, Structural, Debug, Clone, Copy)]
pub struct ExportBatch {
    pub total: usize,
    /// How many spans, from the start of the batch, were accepted.
    pub published: usize,
    pub status: ExportStatus,
}

impl ExportBatch {
    pub open spec fn wf(&self) -> bool {
        &&& self.published <= self.total
        &&& self.status == ExportStatus::InProgress ==> self.published < self.total
        &&& self.status == ExportStatus::Succeeded ==> self.published == self.total
        &&& self.status == ExportStatus::Failed ==> self.published < self.total
    }

    /// The start of an export of `total` spans; an empty batch has already succeeded.
    pub fn new(total: usize) -> (r: ExportBatch)
        ensures
            r.wf(),
            r.total == total,
            r.published == 0,
            r.status == (if total == 0 {
                ExportStatus::Succeeded
            } else {
                ExportStatus::InProgress
            }),
    {
        let status = if total == 0 {
            ExportStatus::Succeeded
        } else {
            ExportStatus::InProgress
        };
        ExportBatch { total, published: 0, status }
    }

    /// The index of the span to publish next, if the export goes on.
    pub fn next_to_publish(&self) -> (r: Option<usize>)
        requires
            self.wf(),
        ensures
            r == (if self.status == ExportStatus::InProgress {
                Some(self.published)
            } else {
                None::<usize>
            }),
            r matches Some(i) ==> i < self.total,
    {
        match self.status {
            ExportStatus::InProgress => Some(self.published),
            _ => None,
        }
    }

    /// Records the outcome of encoding and publishing the next span. An accepted
    /// span moves the export on, and the last one ends it in success; a failure
    /// ends it at once, so no later span is published.
    pub fn record(&mut self, accepted: bool)
        requires
            old(self).wf(),
            old(self).status == ExportStatus::InProgress,
        ensures
            final(self).wf(),
            final(self).total == old(self).total,
            accepted ==> final(self).published == old(self).published + 1 && final(self).status == (
            if final(self).published == final(self).total {
                ExportStatus::Succeeded
            } else {
                ExportStatus::InProgress
            }),
            !accepted ==> final(self).published == old(self).published && final(self).status
                == ExportStatus::Failed,
    {
        if accepted {
            self.published = self.published + 1;
            if self.published == self.total {
                self.status = ExportStatus::Succeeded;
            }
        } else {
            self.status = ExportStatus::Failed;
        }
    }

    /// Whether the export has ended, in success or in failure.
    pub fn is_finished(&self) -> (r: bool)
        ensures
            r == (self.status != ExportStatus::InProgress),
    {
        !matches!(self.status, ExportStatus::InProgress)
    }
}

} // verus!
