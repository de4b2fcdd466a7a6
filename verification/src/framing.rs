use vstd::prelude::*;
use crate::codec::{decoded, from_wire_bytes, written};
use crate::errors::PCSError;
use crate::package::{Package, PackageView};

verus! {

/// A message that can be turned into exactly one package. Each kind of
/// message fixes its own routing key and its own payload layout.
pub trait ToPackage: Send {
    fn to_package(self) -> Package;
}

/// A source that yields one package per read-to-completion.
pub trait ReadPackageImpl {
    fn read_package(&mut self) -> Result<Package, PCSError>;
}

/// A sink that takes one package per write.
pub trait WritePackageImpl {
    fn write_package<T: ToPackage>(&mut self, package: T) -> Result<(), PCSError>;

    fn write_raw_package(&mut self, package: Package) -> Result<(), PCSError>;
}

/// A byte buffer takes a package as its wire form, appended whole.
impl WritePackageImpl for Vec<u8> {
    fn write_package<T: ToPackage>(&mut self, package: T) -> (res: Result<(), PCSError>)
        ensures
            exists|sent: PackageView| #[trigger] written(old(self)@, final(self)@, sent, res),
    {
        let raw: Package = package.to_package();
        let res = crate::codec::write(self, raw);
        proof {
            assert(written(old(self)@, final(self)@, raw@, res));
        }
        res
    }

    fn write_raw_package(&mut self, package: Package) -> (res: Result<(), PCSError>)
        ensures
            written(old(self)@, final(self)@, package@, res),
    {
        crate::codec::write(self, package)
    }
}

/// A byte slice is read to its end as one package. Whatever the outcome,
/// nothing is left to read afterwards.
impl<'a> ReadPackageImpl for &'a [u8] {
    fn read_package(&mut self) -> (res: Result<Package, PCSError>)
        ensures
            match res {
                Ok(package) => decoded(old(self)@) == Ok::<PackageView, PCSError>(package@),
                Err(e) => decoded(old(self)@) == Err::<PackageView, PCSError>(e),
            },
            final(self)@.len() == 0,
    {
        let all: &'a [u8] = *self;
        *self = vstd::slice::slice_subrange(all, all.len(), all.len());
        from_wire_bytes(all)
    }
}

/// What one non-blocking attempt to take a package from an in-process queue
/// found.
#[derive(Debug)]
pub enum Dequeued {
    /// A package was waiting.
    Ready(Package),
    /// Nothing is waiting, but a sender is still there.
    Empty,
    /// Nothing is waiting, and no sender is left.
    Disconnected,
}

/// The result of reading from an in-process queue: the package that was
/// waiting, `WouldBlock` where the queue is empty, `Closed` where it has no
/// sender left.
pub fn dequeue_outcome(found: Dequeued) -> (res: Result<Package, PCSError>)
    ensures
        match found {
            Dequeued::Ready(package) => res == Ok::<Package, PCSError>(package),
            Dequeued::Empty => res == Err::<Package, PCSError>(PCSError::WouldBlock),
            Dequeued::Disconnected => res == Err::<Package, PCSError>(PCSError::Closed),
        },
{
    match found {
        Dequeued::Ready(package) => Ok(package),
        Dequeued::Empty => Err(PCSError::WouldBlock),
        Dequeued::Disconnected => Err(PCSError::Closed),
    }
}

} // verus!
