use vstd::prelude::*;
use crate::error::FatError;
use crate::root::{fat_root_inode, root_dentry, is_root_dentry, DirEntry};
use std::sync::Arc;

verus! {

/// The generic superblock of a mounted FAT volume. Its root entry owns the
/// root inode, which owns the engine's root directory handle.
pub struct SuperBlock<D, F> {
    /// Device descriptor: the engine's volume id.
    pub dev_desc: u32,
    /// Block size: the engine's cluster size.
    pub block_size: u32,
    /// The engine's volume label.
    pub label: String,
    pub dirty: bool,
    pub file_max_bytes: usize,
    pub mount_flags: u32,
    pub magic: u32,
    pub root: DirEntry<D, F>,
}

/// What a superblock records of its volume, without its root.
pub struct SuperBlockSummary {
    pub dev_desc: u32,
    pub block_size: u32,
    pub label: Seq<char>,
    pub dirty: bool,
    pub file_max_bytes: usize,
    pub mount_flags: u32,
    pub magic: u32,
}

impl<D, F> SuperBlock<D, F> {
    pub open spec fn summary(&self) -> SuperBlockSummary {
        SuperBlockSummary {
            dev_desc: self.dev_desc,
            block_size: self.block_size,
            label: self.label@,
            dirty: self.dirty,
            file_max_bytes: self.file_max_bytes,
            mount_flags: self.mount_flags,
            magic: self.magic,
        }
    }
}

/// The outcome of a mount, given what the engine reported: its volume id, its
/// label and, when its statistics query succeeded, its cluster size.
pub open spec fn mount_summary(
    flags: u32,
    volume_id: u32,
    label: Seq<char>,
    cluster_size: Option<u32>,
) -> Result<SuperBlockSummary, FatError> {
    match cluster_size {
        None => Err(FatError::ReadFatDataError),
        Some(c) => Ok(
            SuperBlockSummary {
                dev_desc: volume_id,
                block_size: c,
                label,
                dirty: false,
                file_max_bytes: usize::MAX,
                mount_flags: flags,
                magic: 0,
            },
        ),
    }
}

/// The device that a mount or a sync works on: a lookup that found nothing
/// is a recoverable `DeviceNotFound`.
pub fn resolve_device<T>(found: Option<T>) -> (r: Result<T, FatError>)
    ensures
        found is None ==> r == Err::<T, FatError>(FatError::DeviceNotFound),
        found matches Some(d) ==> r == Ok::<T, FatError>(d),
{
    match found {
        Some(d) => Ok(d),
        None => Err(FatError::DeviceNotFound),
    }
}

/// The engine instance opened on a device stream: a failed initialisation is
/// a recoverable `EngineOpenError`.
pub fn check_engine<T, E>(opened: Result<T, E>) -> (r: Result<T, FatError>)
    ensures
        opened is Err ==> r == Err::<T, FatError>(FatError::EngineOpenError),
        opened matches Ok(fs) ==> r == Ok::<T, FatError>(fs),
{
    match opened {
        Ok(fs) => Ok(fs),
        Err(_) => Err(FatError::EngineOpenError),
    }
}

/// Builds the superblock of a freshly opened volume from what its engine
/// reported, with the root entry "/" over the engine's root directory `dir`,
/// which the root inode holds behind a lock.
/// Fails with `ReadFatDataError` exactly when the statistics query failed.
pub fn fat_get_super_blk<T, F>(
    flags: u32,
    volume_id: u32,
    label: String,
    cluster_size: Option<u32>,
    dir: T,
) -> (r: Result<SuperBlock<Arc<spin::Mutex<T>>, F>, FatError>)
    ensures
        cluster_size is None ==> r == Err::<SuperBlock<Arc<spin::Mutex<T>>, F>, FatError>(
            FatError::ReadFatDataError,
        ),
        cluster_size matches Some(c) ==> r matches Ok(sb) && sb.block_size == c,
        r matches Ok(sb) ==> Ok::<SuperBlockSummary, FatError>(sb.summary()) == mount_summary(
            flags,
            volume_id,
            label@,
            cluster_size,
        ) && is_root_dentry(sb.root),
{
    match cluster_size {
        None => Err(FatError::ReadFatDataError),
        Some(c) => {
            let root = root_dentry(fat_root_inode(dir));
            Ok(
                SuperBlock {
                    dev_desc: volume_id,
                    block_size: c,
                    label,
                    dirty: false,
                    file_max_bytes: usize::MAX,
                    mount_flags: flags,
                    magic: 0,
                    root,
                },
            )
        },
    }
}

/// The outcome of a synchronize, given what the engine's unmount returned:
/// `SyncError` exactly when it failed.
pub fn fat_sync_fs<E>(unmounted: Result<(), E>) -> (r: Result<(), FatError>)
    ensures
        unmounted is Ok <==> r == Ok::<(), FatError>(()),
        unmounted is Err <==> r == Err::<(), FatError>(FatError::SyncError),
{
    match unmounted {
        Ok(()) => Ok(()),
        Err(_) => Err(FatError::SyncError),
    }
}

/// Two mounts, of the same device or not, each through an engine instance of
/// its own: each superblock takes its block size, label and volume id from
/// its own engine's report alone, whatever the other engine reported.
pub proof fn lemma_mounts_independent(
    flags_a: u32,
    id_a: u32,
    label_a: Seq<char>,
    cluster_a: Option<u32>,
    flags_b: u32,
    id_b: u32,
    label_b: Seq<char>,
    cluster_b: Option<u32>,
)
    ensures
        cluster_a matches Some(c) ==> mount_summary(flags_a, id_a, label_a, cluster_a) matches Ok(
            s,
        ) && s.block_size == c && s.label == label_a && s.dev_desc == id_a,
        cluster_b matches Some(c) ==> mount_summary(flags_b, id_b, label_b, cluster_b) matches Ok(
            s,
        ) && s.block_size == c && s.label == label_b && s.dev_desc == id_b,
        (flags_a, id_a, label_a, cluster_a) == (flags_b, id_b, label_b, cluster_b) ==> mount_summary(
            flags_a,
            id_a,
            label_a,
            cluster_a,
        ) == mount_summary(flags_b, id_b, label_b, cluster_b),
{
}

} // verus!
