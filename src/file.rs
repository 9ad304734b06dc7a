//! An in-memory file: a name, its bytes, and whether it is open for reading.

use vstd::prelude::*;

verus! {

#[derive(Clone, Copy, Debug, PartialEq, Eq, Structural)]
pub enum FileState {
    Closed,
    Open,
}

/// Why a file operation was refused.
#[derive(Clone, Copy, Debug, PartialEq, Eq, Structural)]
pub enum FileError {
    /// The file was not open while trying to read from it.
    NotOpen,
}

/// What a file holds.
pub struct FileView {
    pub name: Seq<char>,
    pub data: Seq<u8>,
    pub state: FileState,
}

#[derive(Debug)]
pub struct File {
    name: String,
    data: Vec<u8>,
    state: FileState,
}

impl View for File {
    type V = FileView;

    closed spec fn view(&self) -> FileView {
        FileView { name: self.name@, data: self.data@, state: self.state }
    }
}

impl File {
    /// A closed file with this name and content.
    pub fn new(name: &str, data: &[u8]) -> (r: Self)
        ensures
            r@ == (FileView { name: name@, data: data@, state: FileState::Closed }),
    {
        let mut bytes: Vec<u8> = Vec::new();
        let mut i: usize = 0;
        while i < data.len()
            invariant
                i <= data@.len(),
                bytes@ == data@.subrange(0, i as int),
            decreases data@.len() - i,
        {
            bytes.push(data[i]);
            i += 1;
            proof {
                assert(bytes@ =~= data@.subrange(0, i as int));
            }
        }
        proof {
            assert(bytes@ =~= data@);
        }
        File { name: String::from_str(name), data: bytes, state: FileState::Closed }
    }

    pub fn open(&mut self) -> (r: Result<bool, FileError>)
        ensures
            r == Ok::<bool, FileError>(true),
            final(self)@ == (FileView { state: FileState::Open, ..old(self)@ }),
    {
        self.state = FileState::Open;
        Ok(true)
    }

    pub fn close(&mut self) -> (r: Result<bool, FileError>)
        ensures
            r == Ok::<bool, FileError>(true),
            final(self)@ == (FileView { state: FileState::Closed, ..old(self)@ }),
    {
        self.state = FileState::Closed;
        Ok(true)
    }

    pub fn get_name(&self) -> (r: &str)
        ensures
            r@ == self@.name,
    {
        self.name.as_str()
    }

    /// Appends the whole content to `buffer` and returns its length; refused,
    /// with `buffer` untouched, unless the file is open.
    pub fn read(&mut self, buffer: &mut Vec<u8>) -> (r: Result<usize, FileError>)
        ensures
            final(self)@ == old(self)@,
            old(self)@.state != FileState::Open ==> r == Err::<usize, FileError>(FileError::NotOpen)
                && final(buffer)@ == old(buffer)@,
            old(self)@.state == FileState::Open ==> r == Ok::<usize, FileError>(old(self)@.data.len() as usize)
                && final(buffer)@ == old(buffer)@ + old(self)@.data,
    {
        if self.state != FileState::Open {
            return Err(FileError::NotOpen);
        }
        let ghost start = buffer@;
        let mut i: usize = 0;
        while i < self.data.len()
            invariant
                i <= self.data@.len(),
                buffer@ == start + self.data@.subrange(0, i as int),
            decreases self.data@.len() - i,
        {
            buffer.push(self.data[i]);
            i += 1;
            proof {
                assert(buffer@ =~= start + self.data@.subrange(0, i as int));
            }
        }
        proof {
            assert(self.data@.subrange(0, i as int) =~= self.data@);
        }
        Ok(self.data.len())
    }
}

} // verus!
