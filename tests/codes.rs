use mmc_snapin::{MmcDataObjectType, MmcNotifyType, SnapError};

#[test]
fn notify_codes() {
    assert_eq!(MmcNotifyType::from_code(0x800B), MmcNotifyType::Expand);
    assert_eq!(MmcNotifyType::from_code(0x8001), MmcNotifyType::Activate);
    assert_eq!(MmcNotifyType::from_code(0x8023), MmcNotifyType::CanPasteOutOfProc);
    assert_eq!(MmcNotifyType::from_code(0x8004), MmcNotifyType::Unknown(0x8004));
    assert_eq!(MmcNotifyType::from_code(0), MmcNotifyType::Unknown(0));
    for c in 0x7FF0u32..0x8030 {
        assert_eq!(MmcNotifyType::from_code(c).code(), c);
    }
    assert_eq!(MmcNotifyType::Expand.code(), 0x800B);
}

#[test]
fn data_object_codes() {
    assert_eq!(MmcDataObjectType::from_code(0x8000), MmcDataObjectType::Scope);
    assert_eq!(MmcDataObjectType::from_code(0x8001), MmcDataObjectType::Result);
    assert_eq!(MmcDataObjectType::from_code(0x8002), MmcDataObjectType::SnapinManager);
    assert_eq!(MmcDataObjectType::from_code(0xffff), MmcDataObjectType::Uninitialized);
    assert_eq!(MmcDataObjectType::from_code(5), MmcDataObjectType::Unknown(5));
    for c in [0x8000, 0x8001, 0x8002, 0xffff, -1, 7] {
        assert_eq!(MmcDataObjectType::from_code(c).code(), c);
    }
}

#[test]
fn error_status_codes() {
    assert_eq!(SnapError::NotFound.hresult(), 0x80004003u32 as i32);
    assert_eq!(SnapError::UnsupportedFormat.hresult(), 0x80040064u32 as i32);
    assert_eq!(SnapError::UnsupportedMedium.hresult(), 0x80040069u32 as i32);
    for e in [
        SnapError::FormatResolutionFailed,
        SnapError::LockFailed,
        SnapError::UnlockFailed,
        SnapError::AllocationFailure,
        SnapError::GenericFailure,
    ] {
        assert_eq!(e.hresult(), 0x80004005u32 as i32);
    }
}
