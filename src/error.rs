use vstd::prelude::*;

verus! {

/// The closed set of failures that the FAT bridge reports.
#[derive(Clone, Copy, Debug, PartialEq, Eq, Structural)]
pub enum FatError {
    /// The device named at mount time could not be resolved.
    DeviceNotFound,
    /// The FAT engine opened but could not produce its statistics.
    ReadFatDataError,
    /// The FAT engine could not be initialised on the device.
    EngineOpenError,
    /// The flush/unmount call of the synchronize path failed.
    SyncError,
}

impl FatError {
    /// The classification text of the error.
    pub fn message(&self) -> (r: &'static str)
        ensures
            *self == FatError::DeviceNotFound ==> r@ == "device not found"@,
            *self == FatError::ReadFatDataError ==> r@ == "read fat data error"@,
            *self == FatError::EngineOpenError ==> r@ == "engine open error"@,
            *self == FatError::SyncError ==> r@ == "sync error"@,
    {
        match self {
            FatError::DeviceNotFound => "device not found",
            FatError::ReadFatDataError => "read fat data error",
            FatError::EngineOpenError => "engine open error",
            FatError::SyncError => "sync error",
        }
    }
}

} // verus!
