use pve_api_types::qemu::{QemuMoveDiskDisk, QemuResizeDisk};
use pve_api_types::qemu_config::{QemuConfigEfidisk0Efitype, QemuConfigTpmstate0Version};
use pve_api_types::node::AptUpdateInfoArch;
use pve_api_types::storage::StorageContent;
use std::str::FromStr;

#[test]
fn known_names_read_and_write() {
    assert_eq!(AptUpdateInfoArch::from_name("amd64"), AptUpdateInfoArch::Amd64);
    assert_eq!(AptUpdateInfoArch::Ppc64el.to_string(), "ppc64el");
    assert_eq!(QemuConfigEfidisk0Efitype::from_name("2m"), QemuConfigEfidisk0Efitype::Mb2);
    assert_eq!(QemuConfigTpmstate0Version::V1_2.to_string(), "v1.2");
    assert_eq!(StorageContent::NoneValue.to_string(), "none");
    assert_eq!(StorageContent::from_name("none"), StorageContent::NoneValue);
    assert_eq!(QemuMoveDiskDisk::from_name("unused255"), QemuMoveDiskDisk::Unused255);
    assert_eq!(QemuMoveDiskDisk::Scsi30.to_string(), "scsi30");
    assert_eq!(QemuResizeDisk::from_name("virtio15"), QemuResizeDisk::Virtio15);
}

#[test]
fn unknown_names_are_kept() {
    let v = AptUpdateInfoArch::from_name("mips");
    assert_eq!(v, AptUpdateInfoArch::UnknownEnumValue("mips".to_string()));
    assert_eq!(v.to_string(), "mips");
    assert_ne!(v, AptUpdateInfoArch::Amd64);
    assert_eq!(AptUpdateInfoArch::from_name("AMD64").to_string(), "AMD64");
    assert_eq!(QemuMoveDiskDisk::from_name("unused256").to_string(), "unused256");
}

#[test]
fn from_str_never_fails() {
    assert_eq!(StorageContent::from_str("iso").unwrap(), StorageContent::Iso);
    assert_eq!("rootdir".parse::<StorageContent>().unwrap(), StorageContent::Rootdir);
    assert_eq!(
        "".parse::<StorageContent>().unwrap(),
        StorageContent::UnknownEnumValue(String::new())
    );
}

#[test]
fn name_round_trips() {
    for name in ["ide0", "ide3", "scsi0", "sata5", "virtio15", "efidisk0", "tpmstate0", "unused0", "unused99"] {
        assert_eq!(QemuMoveDiskDisk::from_name(name).to_string(), name);
        assert!(!matches!(QemuMoveDiskDisk::from_name(name), QemuMoveDiskDisk::UnknownEnumValue(_)));
    }
}

#[test]
fn defaults_follow_the_api() {
    assert_eq!(QemuConfigEfidisk0Efitype::default(), QemuConfigEfidisk0Efitype::Mb2);
    assert_eq!(QemuConfigTpmstate0Version::default(), QemuConfigTpmstate0Version::V1_2);
}
