use vstd::prelude::*;

use crate::error::SysError;

verus! {

/// An open file, held by its descriptor.
pub struct File(i32);

impl File {
    /// The descriptor the file was opened with.
    pub closed spec fn descriptor(&self) -> i32 {
        self.0
    }

    /// What `open` decides from the descriptor the system returned:
    /// a negative descriptor is a failure, any other one is the open file.
    pub fn from_descriptor(fd: i32) -> (res: Result<File, SysError>)
        ensures
            fd < 0 ==> res == Err::<File, SysError>(SysError::OpenFailed),
            fd >= 0 ==> (res matches Ok(file) && file.descriptor() == fd),
    {
        if fd < 0 {
            return Err(SysError::OpenFailed);
        }
        Ok(File(fd))
    }

    /// The file's descriptor.
    pub fn fd(&self) -> (fd: i32)
        ensures
            fd == self.descriptor(),
    {
        self.0
    }

    /// What `close` decides from the status the system returned.
    pub fn close_status(err: i32) -> (res: Result<(), SysError>)
        ensures
            err < 0 ==> res == Err::<(), SysError>(SysError::CloseFailed(err)),
            err >= 0 ==> res is Ok,
    {
        if err < 0 {
            return Err(SysError::CloseFailed(err));
        }
        Ok(())
    }

    /// What `ioctl` decides from the status the system returned.
    pub fn ioctl_status(err: i32) -> (res: Result<(), SysError>)
        ensures
            err < 0 ==> res == Err::<(), SysError>(SysError::IoctlFailed(err)),
            err >= 0 ==> res is Ok,
    {
        if err < 0 {
            return Err(SysError::IoctlFailed(err));
        }
        Ok(())
    }

    /// What `read` decides from the status the system returned.
    pub fn read_status(err: isize) -> (res: Result<(), SysError>)
        ensures
            err < 0 ==> res == Err::<(), SysError>(SysError::ReadFailed(err)),
            err >= 0 ==> res is Ok,
    {
        if err < 0 {
            return Err(SysError::ReadFailed(err));
        }
        Ok(())
    }
}

} // verus!
