use vstd::prelude::*;
use std::sync::Arc;

verus! {

/// spin's lock, which guards the engine's directory handle; opaque here.
#[verifier::external_type_specification]
#[verifier::external_body]
#[verifier::reject_recursive_types(T)]
#[verifier::reject_recursive_types(R)]
pub struct ExSpinMutex<T: ?Sized, R>(spin::mutex::Mutex<T, R>);

/// spin's default relax strategy, the lock's second type parameter.
#[verifier::external_type_specification]
#[verifier::external_body]
pub struct ExSpin(spin::relax::Spin);

/// Relies on spin's `Mutex::new`: it only wraps the value in an unlocked spin
/// lock, and never fails.
pub assume_specification<T, R>[ spin::mutex::Mutex::<T, R>::new ](value: T) -> spin::mutex::Mutex<T, R>;

/// Kind of a generic inode.
#[derive(Clone, Copy, Debug, PartialEq, Eq, Structural)]
pub enum InodeMode {
    Directory,
    File,
}

/// Backing data of an inode: the FAT engine's handle on a directory or a
/// file, each held in a shared, lock-protected container (`D`, `F`).
pub enum FatNode<D, F> {
    Directory(D),
    File(F),
}

/// A generic inode backed by a FAT node.
pub struct FatInode<D, F> {
    pub number: u64,
    pub device_id: u64,
    pub mode: InodeMode,
    pub data: FatNode<D, F>,
}

/// A named directory entry. The parent is a non-owning back-reference (the
/// parent's inode number), so an entry never keeps its parent alive.
pub struct DirEntry<D, F> {
    pub flags: u32,
    pub name: String,
    pub parent: Option<u64>,
    pub inode: FatInode<D, F>,
}

/// Inode number of the volume root.
pub const ROOT_INODE_NUMBER: u64 = 0;

/// The root inode: number 0, device id 0, a directory.
pub open spec fn is_root_inode<D, F>(n: FatInode<D, F>) -> bool {
    &&& n.number == 0
    &&& n.device_id == 0
    &&& n.mode == InodeMode::Directory
    &&& n.data is Directory
}

/// The root entry: named "/", no flags, no parent, linked to a root inode.
pub open spec fn is_root_dentry<D, F>(e: DirEntry<D, F>) -> bool {
    &&& e.flags == 0
    &&& e.name@ == "/"@
    &&& e.parent is None
    &&& is_root_inode(e.inode)
}

/// Builds the root inode of a volume over the engine's root directory handle,
/// which it puts behind a lock of its own, shared by every operation on the
/// root directory.
pub fn fat_root_inode<T, F>(dir: T) -> (r: FatInode<Arc<spin::Mutex<T>>, F>)
    ensures
        is_root_inode(r),
{
    let shared = Arc::new(spin::mutex::Mutex::new(dir));
    FatInode {
        number: ROOT_INODE_NUMBER,
        device_id: 0,
        mode: InodeMode::Directory,
        data: FatNode::Directory(shared),
    }
}

/// Builds the directory entry "/" over `inode`, with no flags and no parent.
pub fn root_dentry<D, F>(inode: FatInode<D, F>) -> (r: DirEntry<D, F>)
    ensures
        r.flags == 0,
        r.name@ == "/"@,
        r.parent is None,
        r.inode == inode,
{
    DirEntry { flags: 0, name: String::from_str("/"), parent: None, inode }
}

} // verus!
