//! Exclusive leases on files that have a name of their own.

use vstd::prelude::*;
use vstd::string::*;

verus! {

/// Why a lease request is refused.
#[derive(Clone, Copy, Debug, PartialEq, Eq, Structural)]
pub enum ExclusiveFileLeaseRequestError {
    EmptyLockDirectory,
    EmptyIdentity,
}

impl ExclusiveFileLeaseRequestError {
    pub open spec fn text(self) -> &'static str {
        match self {
            Self::EmptyLockDirectory => "排他文件租约目录不能为空",
            Self::EmptyIdentity => "排他文件租约身份不能为空",
        }
    }

    pub fn message(self) -> (message: &'static str)
        ensures
            message == self.text(),
    {
        match self {
            Self::EmptyLockDirectory => "排他文件租约目录不能为空",
            Self::EmptyIdentity => "排他文件租约身份不能为空",
        }
    }
}

/// A checked request for a lease that excludes other processes.
#[derive(Debug, PartialEq, Eq)]
pub struct ExclusiveFileLeaseRequest {
    lock_directory: String,
    identity: String,
}

/// Whether `result` answers the request for a lease.
pub open spec fn is_answered(
    lock_directory: Seq<char>,
    identity: Seq<char>,
    result: Result<ExclusiveFileLeaseRequest, ExclusiveFileLeaseRequestError>,
) -> bool {
    match result {
        Ok(request) => {
            &&& lock_directory.len() > 0 && identity.len() > 0
            &&& request.directory() == lock_directory
            &&& request.name() == identity
        },
        Err(error) => {
            &&& error == if lock_directory.len() == 0 {
                ExclusiveFileLeaseRequestError::EmptyLockDirectory
            } else {
                ExclusiveFileLeaseRequestError::EmptyIdentity
            }
            &&& lock_directory.len() == 0 || identity.len() == 0
        },
    }
}

impl ExclusiveFileLeaseRequest {
    #[verifier::type_invariant]
    spec fn is_valid(&self) -> bool {
        self.lock_directory@.len() > 0 && self.identity@.len() > 0
    }

    pub closed spec fn directory(&self) -> Seq<char> {
        self.lock_directory@
    }

    pub closed spec fn name(&self) -> Seq<char> {
        self.identity@
    }

    pub fn new(lock_directory: String, identity: String) -> (result: Result<
        Self,
        ExclusiveFileLeaseRequestError,
    >)
        ensures
            is_answered(lock_directory@, identity@, result),
    {
        if lock_directory.as_str().unicode_len() == 0 {
            return Err(ExclusiveFileLeaseRequestError::EmptyLockDirectory);
        }
        if identity.as_str().unicode_len() == 0 {
            return Err(ExclusiveFileLeaseRequestError::EmptyIdentity);
        }
        Ok(ExclusiveFileLeaseRequest { lock_directory, identity })
    }

    pub fn lock_directory(&self) -> (path: &str)
        ensures
            path@ == self.directory(),
            path@.len() > 0,
    {
        proof {
            use_type_invariant(self);
        }
        self.lock_directory.as_str()
    }

    pub fn identity(&self) -> (name: &str)
        ensures
            name@ == self.name(),
            name@.len() > 0,
    {
        proof {
            use_type_invariant(self);
        }
        self.identity.as_str()
    }
}

/// A lease that lasts as long as this value.
#[must_use]
#[derive(Debug)]
pub struct ExclusiveFileLease<T> {
    state: T,
}

impl<T> ExclusiveFileLease<T> {
    /// What keeps the lease alive.
    pub closed spec fn held(&self) -> T {
        self.state
    }

    pub fn new(state: T) -> (lease: Self)
        ensures
            lease.held() == state,
    {
        ExclusiveFileLease { state }
    }
}

/// A lease could not be had.
#[derive(Debug)]
pub enum ExclusiveFileLeaseError<E> {
    Unavailable { identity: String, source: E },
}

impl<E> ExclusiveFileLeaseError<E> {
    /// The failure in words; `source` is its source in words.
    pub fn message(&self, source: &str) -> (message: String)
        ensures
            *self matches ExclusiveFileLeaseError::Unavailable { identity, .. } && message@
                == "无法取得排他文件租约 "@ + identity@ + "："@ + source@,
    {
        let ExclusiveFileLeaseError::Unavailable { identity, .. } = self;
        String::from_str("无法取得排他文件租约 ").concat(identity.as_str()).concat("：").concat(source)
    }

    /// What the failure came from.
    pub fn source(&self) -> (source: &E)
        ensures
            *self matches ExclusiveFileLeaseError::Unavailable { source: held, .. } && held == *source,
    {
        let ExclusiveFileLeaseError::Unavailable { source, .. } = self;
        source
    }
}

} // verus!
