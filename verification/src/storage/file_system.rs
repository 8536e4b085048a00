//! The cache store. It decides what is written and read, and in which
//! order; the caller performs each step on the file system and reports how
//! it went.

use vstd::prelude::*;
use crate::models::{decode, decoding, encode, encoding, views, LiteNode, LiteNodeView};
use crate::storage::name::{is_valid_name, valid_name};

verus! {

/// Why a save or a load failed.
#[derive(Clone, Copy, Debug, PartialEq, Eq, Structural)]
pub enum StoreError {
    /// The name is not a single path segment inside the base directory.
    InvalidName,
    /// No entry exists under the name.
    NotFound,
    /// A step on the file system failed.
    IoError,
    /// The stored bytes are not an encoded sequence of records.
    DecodeError,
    /// The records have no encoded form.
    EncodeError,
}

/// The base directory could not be created or used.
#[derive(Clone, Copy, Debug, PartialEq, Eq, Structural)]
pub struct InitError;

/// How a step on the file system failed, as far as the store tells
/// failures apart.
#[derive(Clone, Copy, Debug, PartialEq, Eq, Structural)]
pub enum IoFailure {
    /// The file or directory does not exist.
    NotFound,
    /// Any other failure: permissions, a full disk, a device error.
    Other,
}

/// The step of a save that the caller has to perform next.
#[derive(Clone, Copy, Debug, PartialEq, Eq, Structural)]
pub enum SaveStep {
    /// Create a fresh temporary file inside the base directory.
    CreateTemp,
    /// Write all the bytes of the operation to the temporary file.
    Write,
    /// Flush the temporary file and make its content durable.
    Sync,
    /// Rename the temporary file to the entry's name, replacing the entry.
    Rename,
    /// Remove the temporary file; how this goes does not matter.
    RemoveTemp,
    /// Nothing is left to do: the entry holds the bytes.
    Saved,
    /// Nothing is left to do: the save failed and the entry is as it was.
    Failed,
}

/// The step that follows `step` once the caller reports how it went.
pub open spec fn next_step(step: SaveStep, ok: bool) -> SaveStep {
    match step {
        SaveStep::CreateTemp => if ok {
            SaveStep::Write
        } else {
            SaveStep::Failed
        },
        SaveStep::Write => if ok {
            SaveStep::Sync
        } else {
            SaveStep::RemoveTemp
        },
        SaveStep::Sync => if ok {
            SaveStep::Rename
        } else {
            SaveStep::RemoveTemp
        },
        SaveStep::Rename => if ok {
            SaveStep::Saved
        } else {
            SaveStep::RemoveTemp
        },
        SaveStep::RemoveTemp => SaveStep::Failed,
        SaveStep::Saved => SaveStep::Saved,
        SaveStep::Failed => SaveStep::Failed,
    }
}

/// The result of a save that has reached `step`, once it has ended.
pub open spec fn outcome_of(step: SaveStep) -> Option<Result<(), StoreError>> {
    match step {
        SaveStep::Saved => Some(Ok(())),
        SaveStep::Failed => Some(Err(StoreError::IoError)),
        _ => None,
    }
}

/// The mathematical value of a save in progress.
pub struct SaveOpView {
    pub file_name: Seq<char>,
    pub bytes: Seq<u8>,
    pub step: SaveStep,
}

impl SaveOpView {
    /// The save of `bytes` under `name`, before its first step.
    pub open spec fn begin(name: Seq<char>, bytes: Seq<u8>) -> SaveOpView {
        SaveOpView { file_name: name, bytes, step: SaveStep::CreateTemp }
    }

    /// The operation once the caller has reported how its step went.
    pub open spec fn advance(self, ok: bool) -> SaveOpView {
        SaveOpView { step: next_step(self.step, ok), ..self }
    }
}

/// A save in progress: the entry's name, the bytes to write, and the step
/// that comes next.
pub struct SaveOp {
    file_name: String,
    bytes: Vec<u8>,
    step: SaveStep,
}

impl View for SaveOp {
    type V = SaveOpView;

    closed spec fn view(&self) -> SaveOpView {
        SaveOpView { file_name: self.file_name@, bytes: self.bytes@, step: self.step }
    }
}

impl SaveOp {
    #[verifier::type_invariant]
    spec fn named(self) -> bool {
        valid_name(self.file_name@)
    }

    /// The step that the caller has to perform next.
    pub fn step(&self) -> (step: SaveStep)
        ensures
            step == self@.step,
    {
        self.step
    }

    /// The name of the entry inside the base directory. It is a valid name.
    pub fn file_name(&self) -> (name: &String)
        ensures
            name@ == self@.file_name,
            valid_name(name@),
    {
        proof {
            use_type_invariant(self);
        }
        &self.file_name
    }

    /// The bytes that the entry is to hold.
    pub fn bytes(&self) -> (bytes: &Vec<u8>)
        ensures
            bytes@ == self@.bytes,
    {
        &self.bytes
    }

    /// Takes the outcome of the step that `step` named and moves on to the
    /// next one. After the last step this changes nothing.
    pub fn advance(&mut self, ok: bool)
        ensures
            final(self)@ == old(self)@.advance(ok),
    {
        proof {
            use_type_invariant(&*self);
        }
        let next = match self.step {
            SaveStep::CreateTemp => if ok {
                SaveStep::Write
            } else {
                SaveStep::Failed
            },
            SaveStep::Write => if ok {
                SaveStep::Sync
            } else {
                SaveStep::RemoveTemp
            },
            SaveStep::Sync => if ok {
                SaveStep::Rename
            } else {
                SaveStep::RemoveTemp
            },
            SaveStep::Rename => if ok {
                SaveStep::Saved
            } else {
                SaveStep::RemoveTemp
            },
            SaveStep::RemoveTemp => SaveStep::Failed,
            SaveStep::Saved => SaveStep::Saved,
            SaveStep::Failed => SaveStep::Failed,
        };
        self.step = next;
    }

    /// The result of the save: `None` while steps are left, then `Ok` where
    /// the rename went through and `IoError` where a step failed.
    pub fn outcome(&self) -> (r: Option<Result<(), StoreError>>)
        ensures
            r == outcome_of(self@.step),
    {
        match self.step {
            SaveStep::Saved => Some(Ok(())),
            SaveStep::Failed => Some(Err(StoreError::IoError)),
            _ => None,
        }
    }
}

/// What a load returns for the outcome of reading the entry's file in
/// full: the records that the bytes decode to, all of them or none.
pub open spec fn loaded(read: Result<Seq<u8>, IoFailure>) -> Result<Seq<LiteNodeView>, StoreError> {
    match read {
        Ok(bytes) => match decoding(bytes) {
            Some(records) => Ok(records),
            None => Err(StoreError::DecodeError),
        },
        Err(IoFailure::NotFound) => Err(StoreError::NotFound),
        Err(IoFailure::Other) => Err(StoreError::IoError),
    }
}

/// The outcome of a read with the bytes taken as a sequence.
pub open spec fn read_view(read: Result<Vec<u8>, IoFailure>) -> Result<Seq<u8>, IoFailure> {
    match read {
        Ok(bytes) => Ok(bytes@),
        Err(failure) => Err(failure),
    }
}

/// The records of a load's result, each taken by its value.
pub open spec fn result_view(r: Result<Vec<LiteNode>, StoreError>) -> Result<
    Seq<LiteNodeView>,
    StoreError,
> {
    match r {
        Ok(nodes) => Ok(views(nodes@)),
        Err(e) => Err(e),
    }
}

/// A load in progress: the name of the entry whose file the caller has to
/// read in full.
pub struct LoadOp {
    file_name: String,
}

impl View for LoadOp {
    type V = Seq<char>;

    closed spec fn view(&self) -> Seq<char> {
        self.file_name@
    }
}

impl LoadOp {
    #[verifier::type_invariant]
    spec fn named(self) -> bool {
        valid_name(self.file_name@)
    }

    /// The name of the entry inside the base directory. It is a valid name.
    pub fn file_name(&self) -> (name: &String)
        ensures
            name@ == self@,
            valid_name(name@),
    {
        proof {
            use_type_invariant(self);
        }
        &self.file_name
    }

    /// Takes the outcome of reading the whole file and gives the result of
    /// the load.
    pub fn finish(self, read: Result<Vec<u8>, IoFailure>) -> (r: Result<Vec<LiteNode>, StoreError>)
        ensures
            result_view(r) == loaded(read_view(read)),
    {
        match read {
            Ok(bytes) => match decode(bytes.as_slice()) {
                Ok(nodes) => Ok(nodes),
                Err(_) => Err(StoreError::DecodeError),
            },
            Err(IoFailure::NotFound) => Err(StoreError::NotFound),
            Err(IoFailure::Other) => Err(StoreError::IoError),
        }
    }
}

/// Why `save` refuses a name or a sequence of records, if it does. The
/// name is looked at first.
pub open spec fn save_refusal(name: Seq<char>, records: Seq<LiteNodeView>) -> Option<StoreError> {
    if !valid_name(name) {
        Some(StoreError::InvalidName)
    } else if encoding(records) is None {
        Some(StoreError::EncodeError)
    } else {
        None
    }
}

/// The cache store over one base directory.
pub struct FileCache {
    base_path: String,
}

impl View for FileCache {
    type V = Seq<char>;

    closed spec fn view(&self) -> Seq<char> {
        self.base_path@
    }
}

impl FileCache {
    /// Makes the store over `base_path`. `prepared` is the outcome of
    /// creating that directory with its parents and of trying to write in
    /// it; where that failed there is no store.
    pub fn new(base_path: String, prepared: Result<(), IoFailure>) -> (r: Result<
        FileCache,
        InitError,
    >)
        ensures
            r is Ok <==> prepared is Ok,
            r matches Ok(cache) ==> cache@ == base_path@,
    {
        match prepared {
            Ok(()) => Ok(FileCache { base_path }),
            Err(_) => Err(InitError),
        }
    }

    /// The base directory.
    pub fn base_path(&self) -> (path: &String)
        ensures
            path@ == self@,
    {
        &self.base_path
    }

    /// Begins a save of `nodes` under `filename`. An invalid name is refused
    /// before anything else, then records without a binary form. The
    /// operation that comes back is at its first step and holds the name
    /// and the binary form of the records.
    pub fn save(&self, filename: &str, nodes: &Vec<LiteNode>) -> (r: Result<SaveOp, StoreError>)
        ensures
            match r {
                Ok(op) => {
                    &&& save_refusal(filename@, views(nodes@)) is None
                    &&& op@ == SaveOpView::begin(filename@, encoding(views(nodes@))->0)
                },
                Err(e) => save_refusal(filename@, views(nodes@)) == Some(e),
            },
    {
        if !is_valid_name(filename) {
            return Err(StoreError::InvalidName);
        }
        match encode(nodes) {
            Ok(bytes) => Ok(
                SaveOp { file_name: filename.to_owned(), bytes, step: SaveStep::CreateTemp },
            ),
            Err(_) => Err(StoreError::EncodeError),
        }
    }

    /// Begins a load of the entry under `filename`. An invalid name is
    /// refused; for a valid one the operation names the file to read.
    pub fn load(&self, filename: &str) -> (r: Result<LoadOp, StoreError>)
        ensures
            match r {
                Ok(op) => valid_name(filename@) && op@ == filename@,
                Err(e) => !valid_name(filename@) && e == StoreError::InvalidName,
            },
    {
        if !is_valid_name(filename) {
            return Err(StoreError::InvalidName);
        }
        Ok(LoadOp { file_name: filename.to_owned() })
    }
}

} // verus!
