use reflink_copy::support::{volume_support, VolumeInfo};
use reflink_copy::{check_reflink_support, ReflinkSupport};

#[test]
fn support_is_unknown() {
    assert_eq!(check_reflink_support("src.txt", "dest.txt"), Ok(ReflinkSupport::Unknown));
}

#[test]
fn support_by_volume() {
    let refs1 = VolumeInfo { serial_number: 1, supports_block_cloning: true };
    let refs2 = VolumeInfo { serial_number: 2, supports_block_cloning: true };
    let ntfs = VolumeInfo { serial_number: 3, supports_block_cloning: false };
    assert_eq!(volume_support(refs1, refs1), ReflinkSupport::Supported);
    assert_eq!(volume_support(refs1, refs2), ReflinkSupport::NotSupported);
    assert_eq!(volume_support(ntfs, refs1), ReflinkSupport::NotSupported);
    assert_eq!(volume_support(refs1, ntfs), ReflinkSupport::NotSupported);
    assert_eq!(volume_support(ntfs, ntfs), ReflinkSupport::NotSupported);
}
