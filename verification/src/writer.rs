//! The columnar file writer: which batch gives the file its schema, which
//! batch goes to the encoder next, and how each step of the writing ends.
//!
//! The file and the encoder are the caller's. A `FileWriterHandle` is the
//! library's side of them: it owns the batches and hands them out in order.

use crate::error::{DremioClientError, EncodeCause, WriteFailure};
use crate::session::Client;
use crate::stream::{uniform, Batch, BatchSequence};
use vstd::prelude::*;

verus! {

/// The writing of one result to a file: the batches to write and how many of
/// them the encoder has taken.
#[derive(Debug)]
pub struct FileWriterHandle {
    batches: Vec<Batch>,
    taken: usize,
}

impl FileWriterHandle {
    #[verifier::type_invariant]
    spec fn sound(self) -> bool {
        &&& self.batches@.len() > 0
        &&& self.taken <= self.batches@.len()
        &&& uniform(self.batches@)
    }

    /// The batches of the file, in the order in which they are written.
    pub closed spec fn batches(self) -> Seq<Batch> {
        self.batches@
    }

    /// How many of the batches the encoder has taken.
    pub closed spec fn taken(self) -> nat {
        self.taken as nat
    }

    /// What holds of every handle: there is a first batch, no more batches
    /// are taken than there are, and any two batches have one schema.
    pub open spec fn well_formed(self) -> bool {
        &&& self.batches().len() > 0
        &&& self.taken() <= self.batches().len()
        &&& uniform(self.batches())
    }

    /// The batch whose schema is the schema of the file: the first.
    pub fn schema_source(&self) -> (first: &Batch)
        ensures
            self.well_formed(),
            *first == self.batches()[0],
    {
        proof {
            use_type_invariant(self);
        }
        &self.batches[0]
    }

    /// What follows the attempt to create the file: what was created, or a
    /// `FileIo` failure that carries the error.
    pub fn file_created<T>(&self, attempt: Result<T, std::io::Error>) -> (r: Result<
        T,
        DremioClientError,
    >)
        ensures
            attempt matches Ok(file) ==> r == Ok::<T, DremioClientError>(file),
            attempt matches Err(e) ==> r == Err::<T, _>(DremioClientError::FileIo(e)),
    {
        match attempt {
            Ok(file) => Ok(file),
            Err(e) => Err(DremioClientError::FileIo(e)),
        }
    }

    /// What follows the attempt to open the encoder over the file: what was
    /// opened, or the failure that the failed step stands for.
    pub fn encoder_opened<T>(&self, attempt: Result<T, WriteFailure>) -> (r: Result<
        T,
        DremioClientError,
    >)
        ensures
            attempt matches Ok(encoder) ==> r == Ok::<T, DremioClientError>(encoder),
            attempt matches Err(failure) ==> r == Err::<T, _>(failure.verdict()),
    {
        match attempt {
            Ok(encoder) => Ok(encoder),
            Err(failure) => Err(failure.into_error()),
        }
    }

    /// The batch to hand to the encoder next, or `None` once it has taken
    /// them all and the file is to be finalized.
    pub fn pending(&self) -> (next: Option<&Batch>)
        ensures
            self.well_formed(),
            self.taken() < self.batches().len() ==> next == Some(
                &self.batches()[self.taken() as int],
            ),
            self.taken() == self.batches().len() ==> next is None,
    {
        proof {
            use_type_invariant(self);
        }
        if self.taken < self.batches.len() {
            Some(&self.batches[self.taken])
        } else {
            None
        }
    }

    /// What follows the attempt to write the pending batch: the handle with
    /// one more batch taken, or the failure that the failed step stands for.
    pub fn advance(self, attempt: Result<(), WriteFailure>) -> (r: Result<
        FileWriterHandle,
        DremioClientError,
    >)
        requires
            self.taken() < self.batches().len(),
        ensures
            attempt is Ok ==> r is Ok && r->Ok_0.batches() == self.batches() && r->Ok_0.taken()
                == self.taken() + 1 && r->Ok_0.well_formed(),
            attempt matches Err(failure) ==> r == Err::<FileWriterHandle, _>(failure.verdict()),
    {
        proof {
            use_type_invariant(&self);
            assert(self.taken < self.batches.len());
        }
        match attempt {
            Ok(()) => Ok(FileWriterHandle { batches: self.batches, taken: self.taken + 1 }),
            Err(failure) => Err(failure.into_error()),
        }
    }

    /// What follows the attempt to finalize the file, after the encoder has
    /// taken every batch: the end of the operation, or the failure that the
    /// failed step stands for.
    pub fn finish(self, attempt: Result<(), WriteFailure>) -> (r: Result<(), DremioClientError>)
        requires
            self.taken() == self.batches().len(),
        ensures
            attempt is Ok ==> r is Ok,
            attempt matches Err(failure) ==> r == Err::<(), _>(failure.verdict()),
    {
        match attempt {
            Ok(()) => Ok(()),
            Err(failure) => Err(failure.into_error()),
        }
    }
}

impl Client {
    /// Begins the writing of a result: all of its batches are to be written,
    /// in their order, under the schema of the first.
    ///
    /// A result without batches has no schema to write under: it gives an
    /// `Encode` failure, before any file is touched.
    pub fn write_parquet(&self, batches: BatchSequence) -> (r: Result<
        FileWriterHandle,
        DremioClientError,
    >)
        ensures
            batches@.len() == 0 ==> r == Err::<FileWriterHandle, _>(
                DremioClientError::Encode(EncodeCause::EmptyResult),
            ),
            batches@.len() > 0 ==> r is Ok && r->Ok_0.batches() == batches@ && r->Ok_0.taken() == 0
                && r->Ok_0.well_formed(),
    {
        if batches.len() == 0 {
            return Err(DremioClientError::Encode(EncodeCause::EmptyResult));
        }
        let batches = batches.into_batches();
        Ok(FileWriterHandle { batches, taken: 0 })
    }
}

} // verus!
