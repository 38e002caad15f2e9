//! The SFTP server's handle state: a file or directory is read in one go,
//! and the read after that tells the client there is no more.
use vstd::prelude::*;

verus! {

/// What was last opened, and whether it was read.
#[derive(Debug, Clone, Copy, PartialEq, Eq, Structural)]
pub enum SftpState {
    Unknown,
    OpenFile,
    FileComplete,
    OpenDir,
    DirComplete,
}

/// The status codes that the server answers with.
#[derive(Debug, Clone, Copy, PartialEq, Eq, Structural)]
pub enum SftpStatus {
    /// The request succeeded (`SSH_FX_OK`).
    Done,
    Eof,
    NoSuchFile,
    OpUnsupported,
}

/// After a read of a file: an open file is read (and then complete);
/// anything else is at its end.
pub open spec fn read_step(s: SftpState) -> (SftpState, Result<(), SftpStatus>) {
    match s {
        SftpState::OpenFile => (SftpState::FileComplete, Ok(())),
        _ => (s, Err(SftpStatus::Eof)),
    }
}

/// After a read of a directory: an open directory is listed (and then
/// complete); anything else is at its end.
pub open spec fn readdir_step(s: SftpState) -> (SftpState, Result<(), SftpStatus>) {
    match s {
        SftpState::OpenDir => (SftpState::DirComplete, Ok(())),
        _ => (s, Err(SftpStatus::Eof)),
    }
}

impl Default for SftpState {
    fn default() -> (s: Self)
        ensures
            s == SftpState::Unknown,
    {
        SftpState::Unknown
    }
}

impl SftpState {
    /// A file was opened.
    pub fn open(&mut self)
        ensures
            *final(self) == SftpState::OpenFile,
    {
        *self = SftpState::OpenFile;
    }

    /// A directory was opened.
    pub fn opendir(&mut self)
        ensures
            *final(self) == SftpState::OpenDir,
    {
        *self = SftpState::OpenDir;
    }

    /// A read of the open file: `Ok` means read it now.
    pub fn read(&mut self) -> (r: Result<(), SftpStatus>)
        ensures
            (*final(self), r) == read_step(*old(self)),
    {
        match self {
            SftpState::OpenFile => {
                *self = SftpState::FileComplete;
                Ok(())
            },
            _ => Err(SftpStatus::Eof),
        }
    }

    /// A read of the open directory: `Ok` means list it now.
    pub fn readdir(&mut self) -> (r: Result<(), SftpStatus>)
        ensures
            (*final(self), r) == readdir_step(*old(self)),
    {
        match self {
            SftpState::OpenDir => {
                *self = SftpState::DirComplete;
                Ok(())
            },
            _ => Err(SftpStatus::Eof),
        }
    }
}

/// A file is handed out once per open: the first read goes ahead, the
/// next one is at the end of the file.
pub proof fn law_read_once(s: SftpState)
    ensures
        read_step(SftpState::OpenFile).1 is Ok,
        read_step(read_step(SftpState::OpenFile).0).1 == Err::<(), SftpStatus>(SftpStatus::Eof),
{
}

/// A directory is listed once per open: the first read goes ahead, the
/// next one is at the end of the listing.
pub proof fn law_list_once(s: SftpState)
    ensures
        readdir_step(SftpState::OpenDir).1 is Ok,
        readdir_step(readdir_step(SftpState::OpenDir).0).1 == Err::<(), SftpStatus>(SftpStatus::Eof),
{
}

/// A reply with a status.
pub struct StatusReply {
    pub id: u32,
    pub status: SftpStatus,
    pub message: String,
    pub language: String,
}

/// The answer to closing a handle: always fine.
pub fn close_reply(id: u32) -> (r: StatusReply)
    ensures
        r.id == id,
        r.status == SftpStatus::Done,
        r.message@ == "Ok"@,
        r.language@ == "en-US"@,
{
    StatusReply { id, status: SftpStatus::Done, message: "Ok".to_string(), language: "en-US".to_string() }
}

/// The answer to a write: writing is not supported.
pub fn write_status() -> (s: SftpStatus)
    ensures
        s == SftpStatus::OpUnsupported,
{
    SftpStatus::OpUnsupported
}

} // verus!
