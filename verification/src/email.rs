//! Batches of email messages, capped at a fixed size.
use vstd::prelude::*;
use crate::error::Error;
use crate::types::EmailData;

verus! {

/// Most emails allowed in a single batch.
pub const MAX_BATCH_SIZE: usize = 60;

/// Represents a batch of email messages for processing.
///
/// The batch holds a collection of email messages (`EmailData`), never
/// more than `MAX_BATCH_SIZE` of them.
#[derive(Debug, Clone)]
pub struct EmailBatch {
    /// List of email messages
    pub emails: Vec<EmailData>,
}

impl EmailBatch {
    /// The batch invariant: it never holds more than `MAX_BATCH_SIZE`
    /// emails. `new` establishes it and `add_email` preserves it.
    pub open spec fn wf(self) -> bool {
        self.emails@.len() <= MAX_BATCH_SIZE
    }

    /// Create a new email batch. Fails with `InvalidBatchSize` when more
    /// than `MAX_BATCH_SIZE` emails are given; a batch of exactly
    /// `MAX_BATCH_SIZE` is accepted.
    pub fn new(emails: Vec<EmailData>) -> (r: Result<EmailBatch, Error>)
        ensures
            r is Ok <==> emails@.len() <= MAX_BATCH_SIZE,
            r matches Ok(b) ==> b.emails == emails && b.wf(),
            r matches Err(e) ==> (e matches Error::InvalidBatchSize(m) && m@
                == "Maximum batch size is 60 emails"@),
    {
        if emails.len() > MAX_BATCH_SIZE {
            return Err(Error::InvalidBatchSize("Maximum batch size is 60 emails".to_owned()));
        }
        Ok(EmailBatch { emails })
    }

    /// Add an email to the batch. Fails with `InvalidBatchSize` — leaving
    /// the batch unchanged — when the batch already holds
    /// `MAX_BATCH_SIZE` emails.
    pub fn add_email(&mut self, email: EmailData) -> (r: Result<(), Error>)
        requires
            old(self).wf(),
        ensures
            final(self).wf(),
            r is Ok <==> old(self).emails@.len() < MAX_BATCH_SIZE,
            r is Ok ==> final(self).emails@ == old(self).emails@.push(email),
            r matches Err(e) ==> (*final(self) == *old(self) && (e
                matches Error::InvalidBatchSize(m) && m@ == "Maximum batch size is 60 emails"@)),
    {
        if self.emails.len() >= MAX_BATCH_SIZE {
            return Err(Error::InvalidBatchSize("Maximum batch size is 60 emails".to_owned()));
        }
        self.emails.push(email);
        Ok(())
    }

    /// Get the number of emails in the batch.
    pub fn len(&self) -> (n: usize)
        ensures
            n == self.emails@.len(),
    {
        self.emails.len()
    }

    /// Check if the batch is empty.
    pub fn is_empty(&self) -> (r: bool)
        ensures
            r == (self.emails@.len() == 0),
    {
        self.emails.len() == 0
    }
}

} // verus!
