//! Types of the virtual machine endpoints.
use vstd::prelude::*;
use vstd::std_specs::cmp::PartialEqSpecImpl;
use vstd::string::*;

use crate::text::str_eq;

verus! {

/// Object.
#[derive(Debug)]
pub struct MigrateQemu {
    /// Override I/O bandwidth limit (in KiB/s).
    pub bwlimit: Option<u64>,

    /// Allow to migrate VMs which use local devices. Only root may use this
    /// option.
    pub force: Option<bool>,

    /// CIDR of the (sub) network that is used for migration.
    pub migration_network: Option<String>,

    pub migration_type: Option<StartQemuMigrationType>,

    /// Use online/live migration if VM is running. Ignored if VM is stopped.
    pub online: Option<bool>,

    /// Target node.
    pub target: String,

    /// Mapping from source to target storages. Providing only a single storage
    /// ID maps all source storages to that storage. Providing the special value
    /// '1' will map each source storage to itself.
    pub targetstorage: Option<Vec<String>>,

    /// Whether to migrate conntrack entries for running VMs.
    pub with_conntrack_state: Option<bool>,

    /// Enable live storage migration for local disk
    pub with_local_disks: Option<bool>,
}

/// Object.
#[derive(Debug)]
pub struct ProxmoxRemote {
    /// A full Proxmox API token including the secret value.
    pub apitoken: String,

    /// Remote host's certificate fingerprint, if not trusted by system store.
    pub fingerprint: Option<String>,

    /// Remote Proxmox hostname or IP
    pub host: String,

    /// Port to connect to
    pub port: Option<i64>,
}

/// Object.
#[derive(Clone, Debug, PartialEq)]
pub struct QemuMigratePreconditionsLocalDisks {
    /// True if the disk is a cdrom.
    pub cdrom: bool,

    /// True if the disk is unused.
    pub is_unused: bool,

    /// The size of the disk in bytes.
    pub size: i64,

    /// The volid of the disk.
    pub volid: String,
}

/// List of not allowed nodes with additional information.
#[derive(Clone, Debug, PartialEq)]
pub struct QemuMigratePreconditionsNotAllowedNodes {
    /// HA resources, which are blocking the VM from being migrated to the node.
    pub blocking_ha_resources: Option<Vec<QemuMigratePreconditionsNotAllowedNodesBlockingHaResources>>,

    /// A list of not available storages.
    pub unavailable_storages: Option<Vec<String>>,
}

/// A blocking HA resource
#[derive(Clone, Debug, PartialEq)]
pub struct QemuMigratePreconditionsNotAllowedNodesBlockingHaResources {
    pub cause: QemuMigratePreconditionsNotAllowedNodesBlockingHaResourcesCause,

    /// The blocking HA resource id
    pub sid: String,
}

/// The reason why the HA resource is blocking the migration.
#[derive(Clone, Debug)]
pub enum QemuMigratePreconditionsNotAllowedNodesBlockingHaResourcesCause {
    /// resource-affinity.
    ResourceAffinity,
    /// Unknown variants for forward compatibility.
    UnknownEnumValue(String),
}

impl PartialEq for QemuMigratePreconditionsNotAllowedNodesBlockingHaResourcesCause {
    fn eq(&self, other: &Self) -> (r: bool) {
        match (self, other) {
            (QemuMigratePreconditionsNotAllowedNodesBlockingHaResourcesCause::ResourceAffinity, QemuMigratePreconditionsNotAllowedNodesBlockingHaResourcesCause::ResourceAffinity) => true,
            (QemuMigratePreconditionsNotAllowedNodesBlockingHaResourcesCause::UnknownEnumValue(a), QemuMigratePreconditionsNotAllowedNodesBlockingHaResourcesCause::UnknownEnumValue(b)) => *a == *b,
            _ => false,
        }
    }
}

impl PartialEqSpecImpl for QemuMigratePreconditionsNotAllowedNodesBlockingHaResourcesCause {
    open spec fn obeys_eq_spec() -> bool {
        true
    }

    open spec fn eq_spec(&self, other: &Self) -> bool {
        match (self, other) {
            (QemuMigratePreconditionsNotAllowedNodesBlockingHaResourcesCause::UnknownEnumValue(a), QemuMigratePreconditionsNotAllowedNodesBlockingHaResourcesCause::UnknownEnumValue(b)) => a@ == b@,
            _ => *self == *other,
        }
    }
}

impl std::str::FromStr for QemuMigratePreconditionsNotAllowedNodesBlockingHaResourcesCause {
    type Err = core::convert::Infallible;

    fn from_str(s: &str) -> (r: Result<Self, Self::Err>)
        ensures
            r matches Ok(v) && Self::parses_to(s@, v),
    {
        Ok(QemuMigratePreconditionsNotAllowedNodesBlockingHaResourcesCause::from_name(s))
    }
}

impl QemuMigratePreconditionsNotAllowedNodesBlockingHaResourcesCause {
    /// The name under which the API writes this value.
    pub open spec fn name(self) -> Seq<char> {
        match self {
            QemuMigratePreconditionsNotAllowedNodesBlockingHaResourcesCause::ResourceAffinity => "resource-affinity"@,
            QemuMigratePreconditionsNotAllowedNodesBlockingHaResourcesCause::UnknownEnumValue(s) => s@,
        }
    }

    /// The known value that the API name `s` stands for, if any.
    pub open spec fn known(s: Seq<char>) -> Option<Self> {
        if s == "resource-affinity"@ {
            Some(QemuMigratePreconditionsNotAllowedNodesBlockingHaResourcesCause::ResourceAffinity)
        } else {
            None
        }
    }

    /// `v` is the value that reading the API name `s` gives.
    pub open spec fn parses_to(s: Seq<char>, v: Self) -> bool {
        match Self::known(s) {
            Some(k) => v == k,
            None => v matches QemuMigratePreconditionsNotAllowedNodesBlockingHaResourcesCause::UnknownEnumValue(t) && t@ == s,
        }
    }

    /// The API name of this value.
    pub fn to_string(&self) -> (r: String)
        ensures
            r@ == self.name(),
    {
        match self {
            QemuMigratePreconditionsNotAllowedNodesBlockingHaResourcesCause::ResourceAffinity => String::from_str("resource-affinity"),
            QemuMigratePreconditionsNotAllowedNodesBlockingHaResourcesCause::UnknownEnumValue(s) => s.clone(),
        }
    }

    /// Reads an API name; a name that is not known is kept as an unknown value.
    pub fn from_name(s: &str) -> (r: Self)
        ensures
            Self::parses_to(s@, r),
    {
        if str_eq(s, "resource-affinity") {
            QemuMigratePreconditionsNotAllowedNodesBlockingHaResourcesCause::ResourceAffinity
        } else {
            QemuMigratePreconditionsNotAllowedNodesBlockingHaResourcesCause::UnknownEnumValue(String::from_str(s))
        }
    }

    /// Each known value goes with the name the API uses for it: `resource-affinity` for `ResourceAffinity`.
    /// `to_string` writes that name and `from_name` reads it as that value.
    pub proof fn lemma_api_names()
        ensures
            QemuMigratePreconditionsNotAllowedNodesBlockingHaResourcesCause::ResourceAffinity.name() == "resource-affinity"@,
            Self::parses_to("resource-affinity"@, QemuMigratePreconditionsNotAllowedNodesBlockingHaResourcesCause::ResourceAffinity),
    {
        Self::lemma_to_string_from_name(QemuMigratePreconditionsNotAllowedNodesBlockingHaResourcesCause::ResourceAffinity);
    }

    /// Writing out a value that was read gives back the name that was read.
    pub proof fn lemma_from_name_to_string(s: Seq<char>, v: Self)
        requires
            Self::parses_to(s, v),
        ensures
            v.name() == s,
    {
    }

    /// Reading the name of a value gives back the value, unless the value is an
    /// unknown one that carries the name of a known one.
    pub proof fn lemma_to_string_from_name(v: Self)
        requires
            v is UnknownEnumValue ==> Self::known(v.name()) is None,
        ensures
            Self::parses_to(v.name(), v),
    {
        if !(v is UnknownEnumValue) {
            Self::lemma_known_names(v);
        }
    }

    /// The spelling of known names, character by character.
    proof fn lemma_name_spelling()
        ensures
            "resource-affinity"@.len() == 17 && "resource-affinity"@[0] == 'r' && "resource-affinity"@[1] == 'e' && "resource-affinity"@[2] == 's' && "resource-affinity"@[3] == 'o' && "resource-affinity"@[4] == 'u' && "resource-affinity"@[5] == 'r' && "resource-affinity"@[6] == 'c' && "resource-affinity"@[7] == 'e' && "resource-affinity"@[8] == '-' && "resource-affinity"@[9] == 'a' && "resource-affinity"@[10] == 'f' && "resource-affinity"@[11] == 'f' && "resource-affinity"@[12] == 'i' && "resource-affinity"@[13] == 'n' && "resource-affinity"@[14] == 'i' && "resource-affinity"@[15] == 't' && "resource-affinity"@[16] == 'y',
    {
        broadcast use vstd::string::group_string_axioms;

        reveal_strlit("resource-affinity");
    }

    proof fn lemma_known_names(v: Self)
        requires
            !(v is UnknownEnumValue),
        ensures
            Self::known(v.name()) == Some(v),
    {
        Self::lemma_name_spelling();
    }

}

/// Object.
#[derive(Debug)]
pub struct QemuMoveDisk {
    /// Override I/O bandwidth limit (in KiB/s).
    pub bwlimit: Option<u64>,

    /// Delete the original disk after successful copy. By default the original
    /// disk is kept as unused disk.
    pub delete: Option<bool>,

    /// Prevent changes if current configuration file has different SHA1 digest.
    /// This can be used to prevent concurrent modifications.
    pub digest: Option<String>,

    pub disk: QemuMoveDiskDisk,

    pub format: Option<QemuMoveDiskFormat>,

    /// Target storage.
    pub storage: Option<String>,

    /// Prevent changes if the current config file of the target VM has a
    /// different SHA1 digest. This can be used to detect concurrent
    /// modifications.
    pub target_digest: Option<String>,

    pub target_disk: Option<QemuMoveDiskDisk>,

    /// The (unique) ID of the VM.
    pub target_vmid: Option<u32>,
}

/// The disk you want to move.
#[derive(Clone, Debug)]
pub enum QemuMoveDiskDisk {
    /// ide0.
    Ide0,
    /// ide1.
    Ide1,
    /// ide2.
    Ide2,
    /// ide3.
    Ide3,
    /// scsi0.
    Scsi0,
    /// scsi1.
    Scsi1,
    /// scsi2.
    Scsi2,
    /// scsi3.
    Scsi3,
    /// scsi4.
    Scsi4,
    /// scsi5.
    Scsi5,
    /// scsi6.
    Scsi6,
    /// scsi7.
    Scsi7,
    /// scsi8.
    Scsi8,
    /// scsi9.
    Scsi9,
    /// scsi10.
    Scsi10,
    /// scsi11.
    Scsi11,
    /// scsi12.
    Scsi12,
    /// scsi13.
    Scsi13,
    /// scsi14.
    Scsi14,
    /// scsi15.
    Scsi15,
    /// scsi16.
    Scsi16,
    /// scsi17.
    Scsi17,
    /// scsi18.
    Scsi18,
    /// scsi19.
    Scsi19,
    /// scsi20.
    Scsi20,
    /// scsi21.
    Scsi21,
    /// scsi22.
    Scsi22,
    /// scsi23.
    Scsi23,
    /// scsi24.
    Scsi24,
    /// scsi25.
    Scsi25,
    /// scsi26.
    Scsi26,
    /// scsi27.
    Scsi27,
    /// scsi28.
    Scsi28,
    /// scsi29.
    Scsi29,
    /// scsi30.
    Scsi30,
    /// virtio0.
    Virtio0,
    /// virtio1.
    Virtio1,
    /// virtio2.
    Virtio2,
    /// virtio3.
    Virtio3,
    /// virtio4.
    Virtio4,
    /// virtio5.
    Virtio5,
    /// virtio6.
    Virtio6,
    /// virtio7.
    Virtio7,
    /// virtio8.
    Virtio8,
    /// virtio9.
    Virtio9,
    /// virtio10.
    Virtio10,
    /// virtio11.
    Virtio11,
    /// virtio12.
    Virtio12,
    /// virtio13.
    Virtio13,
    /// virtio14.
    Virtio14,
    /// virtio15.
    Virtio15,
    /// sata0.
    Sata0,
    /// sata1.
    Sata1,
    /// sata2.
    Sata2,
    /// sata3.
    Sata3,
    /// sata4.
    Sata4,
    /// sata5.
    Sata5,
    /// efidisk0.
    Efidisk0,
    /// tpmstate0.
    Tpmstate0,
    /// unused0.
    Unused0,
    /// unused1.
    Unused1,
    /// unused2.
    Unused2,
    /// unused3.
    Unused3,
    /// unused4.
    Unused4,
    /// unused5.
    Unused5,
    /// unused6.
    Unused6,
    /// unused7.
    Unused7,
    /// unused8.
    Unused8,
    /// unused9.
    Unused9,
    /// unused10.
    Unused10,
    /// unused11.
    Unused11,
    /// unused12.
    Unused12,
    /// unused13.
    Unused13,
    /// unused14.
    Unused14,
    /// unused15.
    Unused15,
    /// unused16.
    Unused16,
    /// unused17.
    Unused17,
    /// unused18.
    Unused18,
    /// unused19.
    Unused19,
    /// unused20.
    Unused20,
    /// unused21.
    Unused21,
    /// unused22.
    Unused22,
    /// unused23.
    Unused23,
    /// unused24.
    Unused24,
    /// unused25.
    Unused25,
    /// unused26.
    Unused26,
    /// unused27.
    Unused27,
    /// unused28.
    Unused28,
    /// unused29.
    Unused29,
    /// unused30.
    Unused30,
    /// unused31.
    Unused31,
    /// unused32.
    Unused32,
    /// unused33.
    Unused33,
    /// unused34.
    Unused34,
    /// unused35.
    Unused35,
    /// unused36.
    Unused36,
    /// unused37.
    Unused37,
    /// unused38.
    Unused38,
    /// unused39.
    Unused39,
    /// unused40.
    Unused40,
    /// unused41.
    Unused41,
    /// unused42.
    Unused42,
    /// unused43.
    Unused43,
    /// unused44.
    Unused44,
    /// unused45.
    Unused45,
    /// unused46.
    Unused46,
    /// unused47.
    Unused47,
    /// unused48.
    Unused48,
    /// unused49.
    Unused49,
    /// unused50.
    Unused50,
    /// unused51.
    Unused51,
    /// unused52.
    Unused52,
    /// unused53.
    Unused53,
    /// unused54.
    Unused54,
    /// unused55.
    Unused55,
    /// unused56.
    Unused56,
    /// unused57.
    Unused57,
    /// unused58.
    Unused58,
    /// unused59.
    Unused59,
    /// unused60.
    Unused60,
    /// unused61.
    Unused61,
    /// unused62.
    Unused62,
    /// unused63.
    Unused63,
    /// unused64.
    Unused64,
    /// unused65.
    Unused65,
    /// unused66.
    Unused66,
    /// unused67.
    Unused67,
    /// unused68.
    Unused68,
    /// unused69.
    Unused69,
    /// unused70.
    Unused70,
    /// unused71.
    Unused71,
    /// unused72.
    Unused72,
    /// unused73.
    Unused73,
    /// unused74.
    Unused74,
    /// unused75.
    Unused75,
    /// unused76.
    Unused76,
    /// unused77.
    Unused77,
    /// unused78.
    Unused78,
    /// unused79.
    Unused79,
    /// unused80.
    Unused80,
    /// unused81.
    Unused81,
    /// unused82.
    Unused82,
    /// unused83.
    Unused83,
    /// unused84.
    Unused84,
    /// unused85.
    Unused85,
    /// unused86.
    Unused86,
    /// unused87.
    Unused87,
    /// unused88.
    Unused88,
    /// unused89.
    Unused89,
    /// unused90.
    Unused90,
    /// unused91.
    Unused91,
    /// unused92.
    Unused92,
    /// unused93.
    Unused93,
    /// unused94.
    Unused94,
    /// unused95.
    Unused95,
    /// unused96.
    Unused96,
    /// unused97.
    Unused97,
    /// unused98.
    Unused98,
    /// unused99.
    Unused99,
    /// unused100.
    Unused100,
    /// unused101.
    Unused101,
    /// unused102.
    Unused102,
    /// unused103.
    Unused103,
    /// unused104.
    Unused104,
    /// unused105.
    Unused105,
    /// unused106.
    Unused106,
    /// unused107.
    Unused107,
    /// unused108.
    Unused108,
    /// unused109.
    Unused109,
    /// unused110.
    Unused110,
    /// unused111.
    Unused111,
    /// unused112.
    Unused112,
    /// unused113.
    Unused113,
    /// unused114.
    Unused114,
    /// unused115.
    Unused115,
    /// unused116.
    Unused116,
    /// unused117.
    Unused117,
    /// unused118.
    Unused118,
    /// unused119.
    Unused119,
    /// unused120.
    Unused120,
    /// unused121.
    Unused121,
    /// unused122.
    Unused122,
    /// unused123.
    Unused123,
    /// unused124.
    Unused124,
    /// unused125.
    Unused125,
    /// unused126.
    Unused126,
    /// unused127.
    Unused127,
    /// unused128.
    Unused128,
    /// unused129.
    Unused129,
    /// unused130.
    Unused130,
    /// unused131.
    Unused131,
    /// unused132.
    Unused132,
    /// unused133.
    Unused133,
    /// unused134.
    Unused134,
    /// unused135.
    Unused135,
    /// unused136.
    Unused136,
    /// unused137.
    Unused137,
    /// unused138.
    Unused138,
    /// unused139.
    Unused139,
    /// unused140.
    Unused140,
    /// unused141.
    Unused141,
    /// unused142.
    Unused142,
    /// unused143.
    Unused143,
    /// unused144.
    Unused144,
    /// unused145.
    Unused145,
    /// unused146.
    Unused146,
    /// unused147.
    Unused147,
    /// unused148.
    Unused148,
    /// unused149.
    Unused149,
    /// unused150.
    Unused150,
    /// unused151.
    Unused151,
    /// unused152.
    Unused152,
    /// unused153.
    Unused153,
    /// unused154.
    Unused154,
    /// unused155.
    Unused155,
    /// unused156.
    Unused156,
    /// unused157.
    Unused157,
    /// unused158.
    Unused158,
    /// unused159.
    Unused159,
    /// unused160.
    Unused160,
    /// unused161.
    Unused161,
    /// unused162.
    Unused162,
    /// unused163.
    Unused163,
    /// unused164.
    Unused164,
    /// unused165.
    Unused165,
    /// unused166.
    Unused166,
    /// unused167.
    Unused167,
    /// unused168.
    Unused168,
    /// unused169.
    Unused169,
    /// unused170.
    Unused170,
    /// unused171.
    Unused171,
    /// unused172.
    Unused172,
    /// unused173.
    Unused173,
    /// unused174.
    Unused174,
    /// unused175.
    Unused175,
    /// unused176.
    Unused176,
    /// unused177.
    Unused177,
    /// unused178.
    Unused178,
    /// unused179.
    Unused179,
    /// unused180.
    Unused180,
    /// unused181.
    Unused181,
    /// unused182.
    Unused182,
    /// unused183.
    Unused183,
    /// unused184.
    Unused184,
    /// unused185.
    Unused185,
    /// unused186.
    Unused186,
    /// unused187.
    Unused187,
    /// unused188.
    Unused188,
    /// unused189.
    Unused189,
    /// unused190.
    Unused190,
    /// unused191.
    Unused191,
    /// unused192.
    Unused192,
    /// unused193.
    Unused193,
    /// unused194.
    Unused194,
    /// unused195.
    Unused195,
    /// unused196.
    Unused196,
    /// unused197.
    Unused197,
    /// unused198.
    Unused198,
    /// unused199.
    Unused199,
    /// unused200.
    Unused200,
    /// unused201.
    Unused201,
    /// unused202.
    Unused202,
    /// unused203.
    Unused203,
    /// unused204.
    Unused204,
    /// unused205.
    Unused205,
    /// unused206.
    Unused206,
    /// unused207.
    Unused207,
    /// unused208.
    Unused208,
    /// unused209.
    Unused209,
    /// unused210.
    Unused210,
    /// unused211.
    Unused211,
    /// unused212.
    Unused212,
    /// unused213.
    Unused213,
    /// unused214.
    Unused214,
    /// unused215.
    Unused215,
    /// unused216.
    Unused216,
    /// unused217.
    Unused217,
    /// unused218.
    Unused218,
    /// unused219.
    Unused219,
    /// unused220.
    Unused220,
    /// unused221.
    Unused221,
    /// unused222.
    Unused222,
    /// unused223.
    Unused223,
    /// unused224.
    Unused224,
    /// unused225.
    Unused225,
    /// unused226.
    Unused226,
    /// unused227.
    Unused227,
    /// unused228.
    Unused228,
    /// unused229.
    Unused229,
    /// unused230.
    Unused230,
    /// unused231.
    Unused231,
    /// unused232.
    Unused232,
    /// unused233.
    Unused233,
    /// unused234.
    Unused234,
    /// unused235.
    Unused235,
    /// unused236.
    Unused236,
    /// unused237.
    Unused237,
    /// unused238.
    Unused238,
    /// unused239.
    Unused239,
    /// unused240.
    Unused240,
    /// unused241.
    Unused241,
    /// unused242.
    Unused242,
    /// unused243.
    Unused243,
    /// unused244.
    Unused244,
    /// unused245.
    Unused245,
    /// unused246.
    Unused246,
    /// unused247.
    Unused247,
    /// unused248.
    Unused248,
    /// unused249.
    Unused249,
    /// unused250.
    Unused250,
    /// unused251.
    Unused251,
    /// unused252.
    Unused252,
    /// unused253.
    Unused253,
    /// unused254.
    Unused254,
    /// unused255.
    Unused255,
    /// Unknown variants for forward compatibility.
    UnknownEnumValue(String),
}

impl PartialEq for QemuMoveDiskDisk {
    fn eq(&self, other: &Self) -> (r: bool) {
        match (self, other) {
            (QemuMoveDiskDisk::Ide0, QemuMoveDiskDisk::Ide0) => true,
            (QemuMoveDiskDisk::Ide1, QemuMoveDiskDisk::Ide1) => true,
            (QemuMoveDiskDisk::Ide2, QemuMoveDiskDisk::Ide2) => true,
            (QemuMoveDiskDisk::Ide3, QemuMoveDiskDisk::Ide3) => true,
            (QemuMoveDiskDisk::Scsi0, QemuMoveDiskDisk::Scsi0) => true,
            (QemuMoveDiskDisk::Scsi1, QemuMoveDiskDisk::Scsi1) => true,
            (QemuMoveDiskDisk::Scsi2, QemuMoveDiskDisk::Scsi2) => true,
            (QemuMoveDiskDisk::Scsi3, QemuMoveDiskDisk::Scsi3) => true,
            (QemuMoveDiskDisk::Scsi4, QemuMoveDiskDisk::Scsi4) => true,
            (QemuMoveDiskDisk::Scsi5, QemuMoveDiskDisk::Scsi5) => true,
            (QemuMoveDiskDisk::Scsi6, QemuMoveDiskDisk::Scsi6) => true,
            (QemuMoveDiskDisk::Scsi7, QemuMoveDiskDisk::Scsi7) => true,
            (QemuMoveDiskDisk::Scsi8, QemuMoveDiskDisk::Scsi8) => true,
            (QemuMoveDiskDisk::Scsi9, QemuMoveDiskDisk::Scsi9) => true,
            (QemuMoveDiskDisk::Scsi10, QemuMoveDiskDisk::Scsi10) => true,
            (QemuMoveDiskDisk::Scsi11, QemuMoveDiskDisk::Scsi11) => true,
            (QemuMoveDiskDisk::Scsi12, QemuMoveDiskDisk::Scsi12) => true,
            (QemuMoveDiskDisk::Scsi13, QemuMoveDiskDisk::Scsi13) => true,
            (QemuMoveDiskDisk::Scsi14, QemuMoveDiskDisk::Scsi14) => true,
            (QemuMoveDiskDisk::Scsi15, QemuMoveDiskDisk::Scsi15) => true,
            (QemuMoveDiskDisk::Scsi16, QemuMoveDiskDisk::Scsi16) => true,
            (QemuMoveDiskDisk::Scsi17, QemuMoveDiskDisk::Scsi17) => true,
            (QemuMoveDiskDisk::Scsi18, QemuMoveDiskDisk::Scsi18) => true,
            (QemuMoveDiskDisk::Scsi19, QemuMoveDiskDisk::Scsi19) => true,
            (QemuMoveDiskDisk::Scsi20, QemuMoveDiskDisk::Scsi20) => true,
            (QemuMoveDiskDisk::Scsi21, QemuMoveDiskDisk::Scsi21) => true,
            (QemuMoveDiskDisk::Scsi22, QemuMoveDiskDisk::Scsi22) => true,
            (QemuMoveDiskDisk::Scsi23, QemuMoveDiskDisk::Scsi23) => true,
            (QemuMoveDiskDisk::Scsi24, QemuMoveDiskDisk::Scsi24) => true,
            (QemuMoveDiskDisk::Scsi25, QemuMoveDiskDisk::Scsi25) => true,
            (QemuMoveDiskDisk::Scsi26, QemuMoveDiskDisk::Scsi26) => true,
            (QemuMoveDiskDisk::Scsi27, QemuMoveDiskDisk::Scsi27) => true,
            (QemuMoveDiskDisk::Scsi28, QemuMoveDiskDisk::Scsi28) => true,
            (QemuMoveDiskDisk::Scsi29, QemuMoveDiskDisk::Scsi29) => true,
            (QemuMoveDiskDisk::Scsi30, QemuMoveDiskDisk::Scsi30) => true,
            (QemuMoveDiskDisk::Virtio0, QemuMoveDiskDisk::Virtio0) => true,
            (QemuMoveDiskDisk::Virtio1, QemuMoveDiskDisk::Virtio1) => true,
            (QemuMoveDiskDisk::Virtio2, QemuMoveDiskDisk::Virtio2) => true,
            (QemuMoveDiskDisk::Virtio3, QemuMoveDiskDisk::Virtio3) => true,
            (QemuMoveDiskDisk::Virtio4, QemuMoveDiskDisk::Virtio4) => true,
            (QemuMoveDiskDisk::Virtio5, QemuMoveDiskDisk::Virtio5) => true,
            (QemuMoveDiskDisk::Virtio6, QemuMoveDiskDisk::Virtio6) => true,
            (QemuMoveDiskDisk::Virtio7, QemuMoveDiskDisk::Virtio7) => true,
            (QemuMoveDiskDisk::Virtio8, QemuMoveDiskDisk::Virtio8) => true,
            (QemuMoveDiskDisk::Virtio9, QemuMoveDiskDisk::Virtio9) => true,
            (QemuMoveDiskDisk::Virtio10, QemuMoveDiskDisk::Virtio10) => true,
            (QemuMoveDiskDisk::Virtio11, QemuMoveDiskDisk::Virtio11) => true,
            (QemuMoveDiskDisk::Virtio12, QemuMoveDiskDisk::Virtio12) => true,
            (QemuMoveDiskDisk::Virtio13, QemuMoveDiskDisk::Virtio13) => true,
            (QemuMoveDiskDisk::Virtio14, QemuMoveDiskDisk::Virtio14) => true,
            (QemuMoveDiskDisk::Virtio15, QemuMoveDiskDisk::Virtio15) => true,
            (QemuMoveDiskDisk::Sata0, QemuMoveDiskDisk::Sata0) => true,
            (QemuMoveDiskDisk::Sata1, QemuMoveDiskDisk::Sata1) => true,
            (QemuMoveDiskDisk::Sata2, QemuMoveDiskDisk::Sata2) => true,
            (QemuMoveDiskDisk::Sata3, QemuMoveDiskDisk::Sata3) => true,
            (QemuMoveDiskDisk::Sata4, QemuMoveDiskDisk::Sata4) => true,
            (QemuMoveDiskDisk::Sata5, QemuMoveDiskDisk::Sata5) => true,
            (QemuMoveDiskDisk::Efidisk0, QemuMoveDiskDisk::Efidisk0) => true,
            (QemuMoveDiskDisk::Tpmstate0, QemuMoveDiskDisk::Tpmstate0) => true,
            (QemuMoveDiskDisk::Unused0, QemuMoveDiskDisk::Unused0) => true,
            (QemuMoveDiskDisk::Unused1, QemuMoveDiskDisk::Unused1) => true,
            (QemuMoveDiskDisk::Unused2, QemuMoveDiskDisk::Unused2) => true,
            (QemuMoveDiskDisk::Unused3, QemuMoveDiskDisk::Unused3) => true,
            (QemuMoveDiskDisk::Unused4, QemuMoveDiskDisk::Unused4) => true,
            (QemuMoveDiskDisk::Unused5, QemuMoveDiskDisk::Unused5) => true,
            (QemuMoveDiskDisk::Unused6, QemuMoveDiskDisk::Unused6) => true,
            (QemuMoveDiskDisk::Unused7, QemuMoveDiskDisk::Unused7) => true,
            (QemuMoveDiskDisk::Unused8, QemuMoveDiskDisk::Unused8) => true,
            (QemuMoveDiskDisk::Unused9, QemuMoveDiskDisk::Unused9) => true,
            (QemuMoveDiskDisk::Unused10, QemuMoveDiskDisk::Unused10) => true,
            (QemuMoveDiskDisk::Unused11, QemuMoveDiskDisk::Unused11) => true,
            (QemuMoveDiskDisk::Unused12, QemuMoveDiskDisk::Unused12) => true,
            (QemuMoveDiskDisk::Unused13, QemuMoveDiskDisk::Unused13) => true,
            (QemuMoveDiskDisk::Unused14, QemuMoveDiskDisk::Unused14) => true,
            (QemuMoveDiskDisk::Unused15, QemuMoveDiskDisk::Unused15) => true,
            (QemuMoveDiskDisk::Unused16, QemuMoveDiskDisk::Unused16) => true,
            (QemuMoveDiskDisk::Unused17, QemuMoveDiskDisk::Unused17) => true,
            (QemuMoveDiskDisk::Unused18, QemuMoveDiskDisk::Unused18) => true,
            (QemuMoveDiskDisk::Unused19, QemuMoveDiskDisk::Unused19) => true,
            (QemuMoveDiskDisk::Unused20, QemuMoveDiskDisk::Unused20) => true,
            (QemuMoveDiskDisk::Unused21, QemuMoveDiskDisk::Unused21) => true,
            (QemuMoveDiskDisk::Unused22, QemuMoveDiskDisk::Unused22) => true,
            (QemuMoveDiskDisk::Unused23, QemuMoveDiskDisk::Unused23) => true,
            (QemuMoveDiskDisk::Unused24, QemuMoveDiskDisk::Unused24) => true,
            (QemuMoveDiskDisk::Unused25, QemuMoveDiskDisk::Unused25) => true,
            (QemuMoveDiskDisk::Unused26, QemuMoveDiskDisk::Unused26) => true,
            (QemuMoveDiskDisk::Unused27, QemuMoveDiskDisk::Unused27) => true,
            (QemuMoveDiskDisk::Unused28, QemuMoveDiskDisk::Unused28) => true,
            (QemuMoveDiskDisk::Unused29, QemuMoveDiskDisk::Unused29) => true,
            (QemuMoveDiskDisk::Unused30, QemuMoveDiskDisk::Unused30) => true,
            (QemuMoveDiskDisk::Unused31, QemuMoveDiskDisk::Unused31) => true,
            (QemuMoveDiskDisk::Unused32, QemuMoveDiskDisk::Unused32) => true,
            (QemuMoveDiskDisk::Unused33, QemuMoveDiskDisk::Unused33) => true,
            (QemuMoveDiskDisk::Unused34, QemuMoveDiskDisk::Unused34) => true,
            (QemuMoveDiskDisk::Unused35, QemuMoveDiskDisk::Unused35) => true,
            (QemuMoveDiskDisk::Unused36, QemuMoveDiskDisk::Unused36) => true,
            (QemuMoveDiskDisk::Unused37, QemuMoveDiskDisk::Unused37) => true,
            (QemuMoveDiskDisk::Unused38, QemuMoveDiskDisk::Unused38) => true,
            (QemuMoveDiskDisk::Unused39, QemuMoveDiskDisk::Unused39) => true,
            (QemuMoveDiskDisk::Unused40, QemuMoveDiskDisk::Unused40) => true,
            (QemuMoveDiskDisk::Unused41, QemuMoveDiskDisk::Unused41) => true,
            (QemuMoveDiskDisk::Unused42, QemuMoveDiskDisk::Unused42) => true,
            (QemuMoveDiskDisk::Unused43, QemuMoveDiskDisk::Unused43) => true,
            (QemuMoveDiskDisk::Unused44, QemuMoveDiskDisk::Unused44) => true,
            (QemuMoveDiskDisk::Unused45, QemuMoveDiskDisk::Unused45) => true,
            (QemuMoveDiskDisk::Unused46, QemuMoveDiskDisk::Unused46) => true,
            (QemuMoveDiskDisk::Unused47, QemuMoveDiskDisk::Unused47) => true,
            (QemuMoveDiskDisk::Unused48, QemuMoveDiskDisk::Unused48) => true,
            (QemuMoveDiskDisk::Unused49, QemuMoveDiskDisk::Unused49) => true,
            (QemuMoveDiskDisk::Unused50, QemuMoveDiskDisk::Unused50) => true,
            (QemuMoveDiskDisk::Unused51, QemuMoveDiskDisk::Unused51) => true,
            (QemuMoveDiskDisk::Unused52, QemuMoveDiskDisk::Unused52) => true,
            (QemuMoveDiskDisk::Unused53, QemuMoveDiskDisk::Unused53) => true,
            (QemuMoveDiskDisk::Unused54, QemuMoveDiskDisk::Unused54) => true,
            (QemuMoveDiskDisk::Unused55, QemuMoveDiskDisk::Unused55) => true,
            (QemuMoveDiskDisk::Unused56, QemuMoveDiskDisk::Unused56) => true,
            (QemuMoveDiskDisk::Unused57, QemuMoveDiskDisk::Unused57) => true,
            (QemuMoveDiskDisk::Unused58, QemuMoveDiskDisk::Unused58) => true,
            (QemuMoveDiskDisk::Unused59, QemuMoveDiskDisk::Unused59) => true,
            (QemuMoveDiskDisk::Unused60, QemuMoveDiskDisk::Unused60) => true,
            (QemuMoveDiskDisk::Unused61, QemuMoveDiskDisk::Unused61) => true,
            (QemuMoveDiskDisk::Unused62, QemuMoveDiskDisk::Unused62) => true,
            (QemuMoveDiskDisk::Unused63, QemuMoveDiskDisk::Unused63) => true,
            (QemuMoveDiskDisk::Unused64, QemuMoveDiskDisk::Unused64) => true,
            (QemuMoveDiskDisk::Unused65, QemuMoveDiskDisk::Unused65) => true,
            (QemuMoveDiskDisk::Unused66, QemuMoveDiskDisk::Unused66) => true,
            (QemuMoveDiskDisk::Unused67, QemuMoveDiskDisk::Unused67) => true,
            (QemuMoveDiskDisk::Unused68, QemuMoveDiskDisk::Unused68) => true,
            (QemuMoveDiskDisk::Unused69, QemuMoveDiskDisk::Unused69) => true,
            (QemuMoveDiskDisk::Unused70, QemuMoveDiskDisk::Unused70) => true,
            (QemuMoveDiskDisk::Unused71, QemuMoveDiskDisk::Unused71) => true,
            (QemuMoveDiskDisk::Unused72, QemuMoveDiskDisk::Unused72) => true,
            (QemuMoveDiskDisk::Unused73, QemuMoveDiskDisk::Unused73) => true,
            (QemuMoveDiskDisk::Unused74, QemuMoveDiskDisk::Unused74) => true,
            (QemuMoveDiskDisk::Unused75, QemuMoveDiskDisk::Unused75) => true,
            (QemuMoveDiskDisk::Unused76, QemuMoveDiskDisk::Unused76) => true,
            (QemuMoveDiskDisk::Unused77, QemuMoveDiskDisk::Unused77) => true,
            (QemuMoveDiskDisk::Unused78, QemuMoveDiskDisk::Unused78) => true,
            (QemuMoveDiskDisk::Unused79, QemuMoveDiskDisk::Unused79) => true,
            (QemuMoveDiskDisk::Unused80, QemuMoveDiskDisk::Unused80) => true,
            (QemuMoveDiskDisk::Unused81, QemuMoveDiskDisk::Unused81) => true,
            (QemuMoveDiskDisk::Unused82, QemuMoveDiskDisk::Unused82) => true,
            (QemuMoveDiskDisk::Unused83, QemuMoveDiskDisk::Unused83) => true,
            (QemuMoveDiskDisk::Unused84, QemuMoveDiskDisk::Unused84) => true,
            (QemuMoveDiskDisk::Unused85, QemuMoveDiskDisk::Unused85) => true,
            (QemuMoveDiskDisk::Unused86, QemuMoveDiskDisk::Unused86) => true,
            (QemuMoveDiskDisk::Unused87, QemuMoveDiskDisk::Unused87) => true,
            (QemuMoveDiskDisk::Unused88, QemuMoveDiskDisk::Unused88) => true,
            (QemuMoveDiskDisk::Unused89, QemuMoveDiskDisk::Unused89) => true,
            (QemuMoveDiskDisk::Unused90, QemuMoveDiskDisk::Unused90) => true,
            (QemuMoveDiskDisk::Unused91, QemuMoveDiskDisk::Unused91) => true,
            (QemuMoveDiskDisk::Unused92, QemuMoveDiskDisk::Unused92) => true,
            (QemuMoveDiskDisk::Unused93, QemuMoveDiskDisk::Unused93) => true,
            (QemuMoveDiskDisk::Unused94, QemuMoveDiskDisk::Unused94) => true,
            (QemuMoveDiskDisk::Unused95, QemuMoveDiskDisk::Unused95) => true,
            (QemuMoveDiskDisk::Unused96, QemuMoveDiskDisk::Unused96) => true,
            (QemuMoveDiskDisk::Unused97, QemuMoveDiskDisk::Unused97) => true,
            (QemuMoveDiskDisk::Unused98, QemuMoveDiskDisk::Unused98) => true,
            (QemuMoveDiskDisk::Unused99, QemuMoveDiskDisk::Unused99) => true,
            (QemuMoveDiskDisk::Unused100, QemuMoveDiskDisk::Unused100) => true,
            (QemuMoveDiskDisk::Unused101, QemuMoveDiskDisk::Unused101) => true,
            (QemuMoveDiskDisk::Unused102, QemuMoveDiskDisk::Unused102) => true,
            (QemuMoveDiskDisk::Unused103, QemuMoveDiskDisk::Unused103) => true,
            (QemuMoveDiskDisk::Unused104, QemuMoveDiskDisk::Unused104) => true,
            (QemuMoveDiskDisk::Unused105, QemuMoveDiskDisk::Unused105) => true,
            (QemuMoveDiskDisk::Unused106, QemuMoveDiskDisk::Unused106) => true,
            (QemuMoveDiskDisk::Unused107, QemuMoveDiskDisk::Unused107) => true,
            (QemuMoveDiskDisk::Unused108, QemuMoveDiskDisk::Unused108) => true,
            (QemuMoveDiskDisk::Unused109, QemuMoveDiskDisk::Unused109) => true,
            (QemuMoveDiskDisk::Unused110, QemuMoveDiskDisk::Unused110) => true,
            (QemuMoveDiskDisk::Unused111, QemuMoveDiskDisk::Unused111) => true,
            (QemuMoveDiskDisk::Unused112, QemuMoveDiskDisk::Unused112) => true,
            (QemuMoveDiskDisk::Unused113, QemuMoveDiskDisk::Unused113) => true,
            (QemuMoveDiskDisk::Unused114, QemuMoveDiskDisk::Unused114) => true,
            (QemuMoveDiskDisk::Unused115, QemuMoveDiskDisk::Unused115) => true,
            (QemuMoveDiskDisk::Unused116, QemuMoveDiskDisk::Unused116) => true,
            (QemuMoveDiskDisk::Unused117, QemuMoveDiskDisk::Unused117) => true,
            (QemuMoveDiskDisk::Unused118, QemuMoveDiskDisk::Unused118) => true,
            (QemuMoveDiskDisk::Unused119, QemuMoveDiskDisk::Unused119) => true,
            (QemuMoveDiskDisk::Unused120, QemuMoveDiskDisk::Unused120) => true,
            (QemuMoveDiskDisk::Unused121, QemuMoveDiskDisk::Unused121) => true,
            (QemuMoveDiskDisk::Unused122, QemuMoveDiskDisk::Unused122) => true,
            (QemuMoveDiskDisk::Unused123, QemuMoveDiskDisk::Unused123) => true,
            (QemuMoveDiskDisk::Unused124, QemuMoveDiskDisk::Unused124) => true,
            (QemuMoveDiskDisk::Unused125, QemuMoveDiskDisk::Unused125) => true,
            (QemuMoveDiskDisk::Unused126, QemuMoveDiskDisk::Unused126) => true,
            (QemuMoveDiskDisk::Unused127, QemuMoveDiskDisk::Unused127) => true,
            (QemuMoveDiskDisk::Unused128, QemuMoveDiskDisk::Unused128) => true,
            (QemuMoveDiskDisk::Unused129, QemuMoveDiskDisk::Unused129) => true,
            (QemuMoveDiskDisk::Unused130, QemuMoveDiskDisk::Unused130) => true,
            (QemuMoveDiskDisk::Unused131, QemuMoveDiskDisk::Unused131) => true,
            (QemuMoveDiskDisk::Unused132, QemuMoveDiskDisk::Unused132) => true,
            (QemuMoveDiskDisk::Unused133, QemuMoveDiskDisk::Unused133) => true,
            (QemuMoveDiskDisk::Unused134, QemuMoveDiskDisk::Unused134) => true,
            (QemuMoveDiskDisk::Unused135, QemuMoveDiskDisk::Unused135) => true,
            (QemuMoveDiskDisk::Unused136, QemuMoveDiskDisk::Unused136) => true,
            (QemuMoveDiskDisk::Unused137, QemuMoveDiskDisk::Unused137) => true,
            (QemuMoveDiskDisk::Unused138, QemuMoveDiskDisk::Unused138) => true,
            (QemuMoveDiskDisk::Unused139, QemuMoveDiskDisk::Unused139) => true,
            (QemuMoveDiskDisk::Unused140, QemuMoveDiskDisk::Unused140) => true,
            (QemuMoveDiskDisk::Unused141, QemuMoveDiskDisk::Unused141) => true,
            (QemuMoveDiskDisk::Unused142, QemuMoveDiskDisk::Unused142) => true,
            (QemuMoveDiskDisk::Unused143, QemuMoveDiskDisk::Unused143) => true,
            (QemuMoveDiskDisk::Unused144, QemuMoveDiskDisk::Unused144) => true,
            (QemuMoveDiskDisk::Unused145, QemuMoveDiskDisk::Unused145) => true,
            (QemuMoveDiskDisk::Unused146, QemuMoveDiskDisk::Unused146) => true,
            (QemuMoveDiskDisk::Unused147, QemuMoveDiskDisk::Unused147) => true,
            (QemuMoveDiskDisk::Unused148, QemuMoveDiskDisk::Unused148) => true,
            (QemuMoveDiskDisk::Unused149, QemuMoveDiskDisk::Unused149) => true,
            (QemuMoveDiskDisk::Unused150, QemuMoveDiskDisk::Unused150) => true,
            (QemuMoveDiskDisk::Unused151, QemuMoveDiskDisk::Unused151) => true,
            (QemuMoveDiskDisk::Unused152, QemuMoveDiskDisk::Unused152) => true,
            (QemuMoveDiskDisk::Unused153, QemuMoveDiskDisk::Unused153) => true,
            (QemuMoveDiskDisk::Unused154, QemuMoveDiskDisk::Unused154) => true,
            (QemuMoveDiskDisk::Unused155, QemuMoveDiskDisk::Unused155) => true,
            (QemuMoveDiskDisk::Unused156, QemuMoveDiskDisk::Unused156) => true,
            (QemuMoveDiskDisk::Unused157, QemuMoveDiskDisk::Unused157) => true,
            (QemuMoveDiskDisk::Unused158, QemuMoveDiskDisk::Unused158) => true,
            (QemuMoveDiskDisk::Unused159, QemuMoveDiskDisk::Unused159) => true,
            (QemuMoveDiskDisk::Unused160, QemuMoveDiskDisk::Unused160) => true,
            (QemuMoveDiskDisk::Unused161, QemuMoveDiskDisk::Unused161) => true,
            (QemuMoveDiskDisk::Unused162, QemuMoveDiskDisk::Unused162) => true,
            (QemuMoveDiskDisk::Unused163, QemuMoveDiskDisk::Unused163) => true,
            (QemuMoveDiskDisk::Unused164, QemuMoveDiskDisk::Unused164) => true,
            (QemuMoveDiskDisk::Unused165, QemuMoveDiskDisk::Unused165) => true,
            (QemuMoveDiskDisk::Unused166, QemuMoveDiskDisk::Unused166) => true,
            (QemuMoveDiskDisk::Unused167, QemuMoveDiskDisk::Unused167) => true,
            (QemuMoveDiskDisk::Unused168, QemuMoveDiskDisk::Unused168) => true,
            (QemuMoveDiskDisk::Unused169, QemuMoveDiskDisk::Unused169) => true,
            (QemuMoveDiskDisk::Unused170, QemuMoveDiskDisk::Unused170) => true,
            (QemuMoveDiskDisk::Unused171, QemuMoveDiskDisk::Unused171) => true,
            (QemuMoveDiskDisk::Unused172, QemuMoveDiskDisk::Unused172) => true,
            (QemuMoveDiskDisk::Unused173, QemuMoveDiskDisk::Unused173) => true,
            (QemuMoveDiskDisk::Unused174, QemuMoveDiskDisk::Unused174) => true,
            (QemuMoveDiskDisk::Unused175, QemuMoveDiskDisk::Unused175) => true,
            (QemuMoveDiskDisk::Unused176, QemuMoveDiskDisk::Unused176) => true,
            (QemuMoveDiskDisk::Unused177, QemuMoveDiskDisk::Unused177) => true,
            (QemuMoveDiskDisk::Unused178, QemuMoveDiskDisk::Unused178) => true,
            (QemuMoveDiskDisk::Unused179, QemuMoveDiskDisk::Unused179) => true,
            (QemuMoveDiskDisk::Unused180, QemuMoveDiskDisk::Unused180) => true,
            (QemuMoveDiskDisk::Unused181, QemuMoveDiskDisk::Unused181) => true,
            (QemuMoveDiskDisk::Unused182, QemuMoveDiskDisk::Unused182) => true,
            (QemuMoveDiskDisk::Unused183, QemuMoveDiskDisk::Unused183) => true,
            (QemuMoveDiskDisk::Unused184, QemuMoveDiskDisk::Unused184) => true,
            (QemuMoveDiskDisk::Unused185, QemuMoveDiskDisk::Unused185) => true,
            (QemuMoveDiskDisk::Unused186, QemuMoveDiskDisk::Unused186) => true,
            (QemuMoveDiskDisk::Unused187, QemuMoveDiskDisk::Unused187) => true,
            (QemuMoveDiskDisk::Unused188, QemuMoveDiskDisk::Unused188) => true,
            (QemuMoveDiskDisk::Unused189, QemuMoveDiskDisk::Unused189) => true,
            (QemuMoveDiskDisk::Unused190, QemuMoveDiskDisk::Unused190) => true,
            (QemuMoveDiskDisk::Unused191, QemuMoveDiskDisk::Unused191) => true,
            (QemuMoveDiskDisk::Unused192, QemuMoveDiskDisk::Unused192) => true,
            (QemuMoveDiskDisk::Unused193, QemuMoveDiskDisk::Unused193) => true,
            (QemuMoveDiskDisk::Unused194, QemuMoveDiskDisk::Unused194) => true,
            (QemuMoveDiskDisk::Unused195, QemuMoveDiskDisk::Unused195) => true,
            (QemuMoveDiskDisk::Unused196, QemuMoveDiskDisk::Unused196) => true,
            (QemuMoveDiskDisk::Unused197, QemuMoveDiskDisk::Unused197) => true,
            (QemuMoveDiskDisk::Unused198, QemuMoveDiskDisk::Unused198) => true,
            (QemuMoveDiskDisk::Unused199, QemuMoveDiskDisk::Unused199) => true,
            (QemuMoveDiskDisk::Unused200, QemuMoveDiskDisk::Unused200) => true,
            (QemuMoveDiskDisk::Unused201, QemuMoveDiskDisk::Unused201) => true,
            (QemuMoveDiskDisk::Unused202, QemuMoveDiskDisk::Unused202) => true,
            (QemuMoveDiskDisk::Unused203, QemuMoveDiskDisk::Unused203) => true,
            (QemuMoveDiskDisk::Unused204, QemuMoveDiskDisk::Unused204) => true,
            (QemuMoveDiskDisk::Unused205, QemuMoveDiskDisk::Unused205) => true,
            (QemuMoveDiskDisk::Unused206, QemuMoveDiskDisk::Unused206) => true,
            (QemuMoveDiskDisk::Unused207, QemuMoveDiskDisk::Unused207) => true,
            (QemuMoveDiskDisk::Unused208, QemuMoveDiskDisk::Unused208) => true,
            (QemuMoveDiskDisk::Unused209, QemuMoveDiskDisk::Unused209) => true,
            (QemuMoveDiskDisk::Unused210, QemuMoveDiskDisk::Unused210) => true,
            (QemuMoveDiskDisk::Unused211, QemuMoveDiskDisk::Unused211) => true,
            (QemuMoveDiskDisk::Unused212, QemuMoveDiskDisk::Unused212) => true,
            (QemuMoveDiskDisk::Unused213, QemuMoveDiskDisk::Unused213) => true,
            (QemuMoveDiskDisk::Unused214, QemuMoveDiskDisk::Unused214) => true,
            (QemuMoveDiskDisk::Unused215, QemuMoveDiskDisk::Unused215) => true,
            (QemuMoveDiskDisk::Unused216, QemuMoveDiskDisk::Unused216) => true,
            (QemuMoveDiskDisk::Unused217, QemuMoveDiskDisk::Unused217) => true,
            (QemuMoveDiskDisk::Unused218, QemuMoveDiskDisk::Unused218) => true,
            (QemuMoveDiskDisk::Unused219, QemuMoveDiskDisk::Unused219) => true,
            (QemuMoveDiskDisk::Unused220, QemuMoveDiskDisk::Unused220) => true,
            (QemuMoveDiskDisk::Unused221, QemuMoveDiskDisk::Unused221) => true,
            (QemuMoveDiskDisk::Unused222, QemuMoveDiskDisk::Unused222) => true,
            (QemuMoveDiskDisk::Unused223, QemuMoveDiskDisk::Unused223) => true,
            (QemuMoveDiskDisk::Unused224, QemuMoveDiskDisk::Unused224) => true,
            (QemuMoveDiskDisk::Unused225, QemuMoveDiskDisk::Unused225) => true,
            (QemuMoveDiskDisk::Unused226, QemuMoveDiskDisk::Unused226) => true,
            (QemuMoveDiskDisk::Unused227, QemuMoveDiskDisk::Unused227) => true,
            (QemuMoveDiskDisk::Unused228, QemuMoveDiskDisk::Unused228) => true,
            (QemuMoveDiskDisk::Unused229, QemuMoveDiskDisk::Unused229) => true,
            (QemuMoveDiskDisk::Unused230, QemuMoveDiskDisk::Unused230) => true,
            (QemuMoveDiskDisk::Unused231, QemuMoveDiskDisk::Unused231) => true,
            (QemuMoveDiskDisk::Unused232, QemuMoveDiskDisk::Unused232) => true,
            (QemuMoveDiskDisk::Unused233, QemuMoveDiskDisk::Unused233) => true,
            (QemuMoveDiskDisk::Unused234, QemuMoveDiskDisk::Unused234) => true,
            (QemuMoveDiskDisk::Unused235, QemuMoveDiskDisk::Unused235) => true,
            (QemuMoveDiskDisk::Unused236, QemuMoveDiskDisk::Unused236) => true,
            (QemuMoveDiskDisk::Unused237, QemuMoveDiskDisk::Unused237) => true,
            (QemuMoveDiskDisk::Unused238, QemuMoveDiskDisk::Unused238) => true,
            (QemuMoveDiskDisk::Unused239, QemuMoveDiskDisk::Unused239) => true,
            (QemuMoveDiskDisk::Unused240, QemuMoveDiskDisk::Unused240) => true,
            (QemuMoveDiskDisk::Unused241, QemuMoveDiskDisk::Unused241) => true,
            (QemuMoveDiskDisk::Unused242, QemuMoveDiskDisk::Unused242) => true,
            (QemuMoveDiskDisk::Unused243, QemuMoveDiskDisk::Unused243) => true,
            (QemuMoveDiskDisk::Unused244, QemuMoveDiskDisk::Unused244) => true,
            (QemuMoveDiskDisk::Unused245, QemuMoveDiskDisk::Unused245) => true,
            (QemuMoveDiskDisk::Unused246, QemuMoveDiskDisk::Unused246) => true,
            (QemuMoveDiskDisk::Unused247, QemuMoveDiskDisk::Unused247) => true,
            (QemuMoveDiskDisk::Unused248, QemuMoveDiskDisk::Unused248) => true,
            (QemuMoveDiskDisk::Unused249, QemuMoveDiskDisk::Unused249) => true,
            (QemuMoveDiskDisk::Unused250, QemuMoveDiskDisk::Unused250) => true,
            (QemuMoveDiskDisk::Unused251, QemuMoveDiskDisk::Unused251) => true,
            (QemuMoveDiskDisk::Unused252, QemuMoveDiskDisk::Unused252) => true,
            (QemuMoveDiskDisk::Unused253, QemuMoveDiskDisk::Unused253) => true,
            (QemuMoveDiskDisk::Unused254, QemuMoveDiskDisk::Unused254) => true,
            (QemuMoveDiskDisk::Unused255, QemuMoveDiskDisk::Unused255) => true,
            (QemuMoveDiskDisk::UnknownEnumValue(a), QemuMoveDiskDisk::UnknownEnumValue(b)) => *a == *b,
            _ => false,
        }
    }
}

impl PartialEqSpecImpl for QemuMoveDiskDisk {
    open spec fn obeys_eq_spec() -> bool {
        true
    }

    open spec fn eq_spec(&self, other: &Self) -> bool {
        match (self, other) {
            (QemuMoveDiskDisk::UnknownEnumValue(a), QemuMoveDiskDisk::UnknownEnumValue(b)) => a@ == b@,
            _ => *self == *other,
        }
    }
}

impl std::str::FromStr for QemuMoveDiskDisk {
    type Err = core::convert::Infallible;

    fn from_str(s: &str) -> (r: Result<Self, Self::Err>)
        ensures
            r matches Ok(v) && Self::parses_to(s@, v),
    {
        Ok(QemuMoveDiskDisk::from_name(s))
    }
}

impl QemuMoveDiskDisk {
    /// The name under which the API writes this value.
    pub open spec fn name(self) -> Seq<char> {
        match self {
            QemuMoveDiskDisk::Ide0 => "ide0"@,
            QemuMoveDiskDisk::Ide1 => "ide1"@,
            QemuMoveDiskDisk::Ide2 => "ide2"@,
            QemuMoveDiskDisk::Ide3 => "ide3"@,
            QemuMoveDiskDisk::Scsi0 => "scsi0"@,
            QemuMoveDiskDisk::Scsi1 => "scsi1"@,
            QemuMoveDiskDisk::Scsi2 => "scsi2"@,
            QemuMoveDiskDisk::Scsi3 => "scsi3"@,
            QemuMoveDiskDisk::Scsi4 => "scsi4"@,
            QemuMoveDiskDisk::Scsi5 => "scsi5"@,
            QemuMoveDiskDisk::Scsi6 => "scsi6"@,
            QemuMoveDiskDisk::Scsi7 => "scsi7"@,
            QemuMoveDiskDisk::Scsi8 => "scsi8"@,
            QemuMoveDiskDisk::Scsi9 => "scsi9"@,
            QemuMoveDiskDisk::Scsi10 => "scsi10"@,
            QemuMoveDiskDisk::Scsi11 => "scsi11"@,
            QemuMoveDiskDisk::Scsi12 => "scsi12"@,
            QemuMoveDiskDisk::Scsi13 => "scsi13"@,
            QemuMoveDiskDisk::Scsi14 => "scsi14"@,
            QemuMoveDiskDisk::Scsi15 => "scsi15"@,
            QemuMoveDiskDisk::Scsi16 => "scsi16"@,
            QemuMoveDiskDisk::Scsi17 => "scsi17"@,
            QemuMoveDiskDisk::Scsi18 => "scsi18"@,
            QemuMoveDiskDisk::Scsi19 => "scsi19"@,
            QemuMoveDiskDisk::Scsi20 => "scsi20"@,
            QemuMoveDiskDisk::Scsi21 => "scsi21"@,
            QemuMoveDiskDisk::Scsi22 => "scsi22"@,
            QemuMoveDiskDisk::Scsi23 => "scsi23"@,
            QemuMoveDiskDisk::Scsi24 => "scsi24"@,
            QemuMoveDiskDisk::Scsi25 => "scsi25"@,
            QemuMoveDiskDisk::Scsi26 => "scsi26"@,
            QemuMoveDiskDisk::Scsi27 => "scsi27"@,
            QemuMoveDiskDisk::Scsi28 => "scsi28"@,
            QemuMoveDiskDisk::Scsi29 => "scsi29"@,
            QemuMoveDiskDisk::Scsi30 => "scsi30"@,
            QemuMoveDiskDisk::Virtio0 => "virtio0"@,
            QemuMoveDiskDisk::Virtio1 => "virtio1"@,
            QemuMoveDiskDisk::Virtio2 => "virtio2"@,
            QemuMoveDiskDisk::Virtio3 => "virtio3"@,
            QemuMoveDiskDisk::Virtio4 => "virtio4"@,
            QemuMoveDiskDisk::Virtio5 => "virtio5"@,
            QemuMoveDiskDisk::Virtio6 => "virtio6"@,
            QemuMoveDiskDisk::Virtio7 => "virtio7"@,
            QemuMoveDiskDisk::Virtio8 => "virtio8"@,
            QemuMoveDiskDisk::Virtio9 => "virtio9"@,
            QemuMoveDiskDisk::Virtio10 => "virtio10"@,
            QemuMoveDiskDisk::Virtio11 => "virtio11"@,
            QemuMoveDiskDisk::Virtio12 => "virtio12"@,
            QemuMoveDiskDisk::Virtio13 => "virtio13"@,
            QemuMoveDiskDisk::Virtio14 => "virtio14"@,
            QemuMoveDiskDisk::Virtio15 => "virtio15"@,
            QemuMoveDiskDisk::Sata0 => "sata0"@,
            QemuMoveDiskDisk::Sata1 => "sata1"@,
            QemuMoveDiskDisk::Sata2 => "sata2"@,
            QemuMoveDiskDisk::Sata3 => "sata3"@,
            QemuMoveDiskDisk::Sata4 => "sata4"@,
            QemuMoveDiskDisk::Sata5 => "sata5"@,
            QemuMoveDiskDisk::Efidisk0 => "efidisk0"@,
            QemuMoveDiskDisk::Tpmstate0 => "tpmstate0"@,
            QemuMoveDiskDisk::Unused0 => "unused0"@,
            QemuMoveDiskDisk::Unused1 => "unused1"@,
            QemuMoveDiskDisk::Unused2 => "unused2"@,
            QemuMoveDiskDisk::Unused3 => "unused3"@,
            QemuMoveDiskDisk::Unused4 => "unused4"@,
            QemuMoveDiskDisk::Unused5 => "unused5"@,
            QemuMoveDiskDisk::Unused6 => "unused6"@,
            QemuMoveDiskDisk::Unused7 => "unused7"@,
            QemuMoveDiskDisk::Unused8 => "unused8"@,
            QemuMoveDiskDisk::Unused9 => "unused9"@,
            QemuMoveDiskDisk::Unused10 => "unused10"@,
            QemuMoveDiskDisk::Unused11 => "unused11"@,
            QemuMoveDiskDisk::Unused12 => "unused12"@,
            QemuMoveDiskDisk::Unused13 => "unused13"@,
            QemuMoveDiskDisk::Unused14 => "unused14"@,
            QemuMoveDiskDisk::Unused15 => "unused15"@,
            QemuMoveDiskDisk::Unused16 => "unused16"@,
            QemuMoveDiskDisk::Unused17 => "unused17"@,
            QemuMoveDiskDisk::Unused18 => "unused18"@,
            QemuMoveDiskDisk::Unused19 => "unused19"@,
            QemuMoveDiskDisk::Unused20 => "unused20"@,
            QemuMoveDiskDisk::Unused21 => "unused21"@,
            QemuMoveDiskDisk::Unused22 => "unused22"@,
            QemuMoveDiskDisk::Unused23 => "unused23"@,
            QemuMoveDiskDisk::Unused24 => "unused24"@,
            QemuMoveDiskDisk::Unused25 => "unused25"@,
            QemuMoveDiskDisk::Unused26 => "unused26"@,
            QemuMoveDiskDisk::Unused27 => "unused27"@,
            QemuMoveDiskDisk::Unused28 => "unused28"@,
            QemuMoveDiskDisk::Unused29 => "unused29"@,
            QemuMoveDiskDisk::Unused30 => "unused30"@,
            QemuMoveDiskDisk::Unused31 => "unused31"@,
            QemuMoveDiskDisk::Unused32 => "unused32"@,
            QemuMoveDiskDisk::Unused33 => "unused33"@,
            QemuMoveDiskDisk::Unused34 => "unused34"@,
            QemuMoveDiskDisk::Unused35 => "unused35"@,
            QemuMoveDiskDisk::Unused36 => "unused36"@,
            QemuMoveDiskDisk::Unused37 => "unused37"@,
            QemuMoveDiskDisk::Unused38 => "unused38"@,
            QemuMoveDiskDisk::Unused39 => "unused39"@,
            QemuMoveDiskDisk::Unused40 => "unused40"@,
            QemuMoveDiskDisk::Unused41 => "unused41"@,
            QemuMoveDiskDisk::Unused42 => "unused42"@,
            QemuMoveDiskDisk::Unused43 => "unused43"@,
            QemuMoveDiskDisk::Unused44 => "unused44"@,
            QemuMoveDiskDisk::Unused45 => "unused45"@,
            QemuMoveDiskDisk::Unused46 => "unused46"@,
            QemuMoveDiskDisk::Unused47 => "unused47"@,
            QemuMoveDiskDisk::Unused48 => "unused48"@,
            QemuMoveDiskDisk::Unused49 => "unused49"@,
            QemuMoveDiskDisk::Unused50 => "unused50"@,
            QemuMoveDiskDisk::Unused51 => "unused51"@,
            QemuMoveDiskDisk::Unused52 => "unused52"@,
            QemuMoveDiskDisk::Unused53 => "unused53"@,
            QemuMoveDiskDisk::Unused54 => "unused54"@,
            QemuMoveDiskDisk::Unused55 => "unused55"@,
            QemuMoveDiskDisk::Unused56 => "unused56"@,
            QemuMoveDiskDisk::Unused57 => "unused57"@,
            QemuMoveDiskDisk::Unused58 => "unused58"@,
            QemuMoveDiskDisk::Unused59 => "unused59"@,
            QemuMoveDiskDisk::Unused60 => "unused60"@,
            QemuMoveDiskDisk::Unused61 => "unused61"@,
            QemuMoveDiskDisk::Unused62 => "unused62"@,
            QemuMoveDiskDisk::Unused63 => "unused63"@,
            QemuMoveDiskDisk::Unused64 => "unused64"@,
            QemuMoveDiskDisk::Unused65 => "unused65"@,
            QemuMoveDiskDisk::Unused66 => "unused66"@,
            QemuMoveDiskDisk::Unused67 => "unused67"@,
            QemuMoveDiskDisk::Unused68 => "unused68"@,
            QemuMoveDiskDisk::Unused69 => "unused69"@,
            QemuMoveDiskDisk::Unused70 => "unused70"@,
            QemuMoveDiskDisk::Unused71 => "unused71"@,
            QemuMoveDiskDisk::Unused72 => "unused72"@,
            QemuMoveDiskDisk::Unused73 => "unused73"@,
            QemuMoveDiskDisk::Unused74 => "unused74"@,
            QemuMoveDiskDisk::Unused75 => "unused75"@,
            QemuMoveDiskDisk::Unused76 => "unused76"@,
            QemuMoveDiskDisk::Unused77 => "unused77"@,
            QemuMoveDiskDisk::Unused78 => "unused78"@,
            QemuMoveDiskDisk::Unused79 => "unused79"@,
            QemuMoveDiskDisk::Unused80 => "unused80"@,
            QemuMoveDiskDisk::Unused81 => "unused81"@,
            QemuMoveDiskDisk::Unused82 => "unused82"@,
            QemuMoveDiskDisk::Unused83 => "unused83"@,
            QemuMoveDiskDisk::Unused84 => "unused84"@,
            QemuMoveDiskDisk::Unused85 => "unused85"@,
            QemuMoveDiskDisk::Unused86 => "unused86"@,
            QemuMoveDiskDisk::Unused87 => "unused87"@,
            QemuMoveDiskDisk::Unused88 => "unused88"@,
            QemuMoveDiskDisk::Unused89 => "unused89"@,
            QemuMoveDiskDisk::Unused90 => "unused90"@,
            QemuMoveDiskDisk::Unused91 => "unused91"@,
            QemuMoveDiskDisk::Unused92 => "unused92"@,
            QemuMoveDiskDisk::Unused93 => "unused93"@,
            QemuMoveDiskDisk::Unused94 => "unused94"@,
            QemuMoveDiskDisk::Unused95 => "unused95"@,
            QemuMoveDiskDisk::Unused96 => "unused96"@,
            QemuMoveDiskDisk::Unused97 => "unused97"@,
            QemuMoveDiskDisk::Unused98 => "unused98"@,
            QemuMoveDiskDisk::Unused99 => "unused99"@,
            QemuMoveDiskDisk::Unused100 => "unused100"@,
            QemuMoveDiskDisk::Unused101 => "unused101"@,
            QemuMoveDiskDisk::Unused102 => "unused102"@,
            QemuMoveDiskDisk::Unused103 => "unused103"@,
            QemuMoveDiskDisk::Unused104 => "unused104"@,
            QemuMoveDiskDisk::Unused105 => "unused105"@,
            QemuMoveDiskDisk::Unused106 => "unused106"@,
            QemuMoveDiskDisk::Unused107 => "unused107"@,
            QemuMoveDiskDisk::Unused108 => "unused108"@,
            QemuMoveDiskDisk::Unused109 => "unused109"@,
            QemuMoveDiskDisk::Unused110 => "unused110"@,
            QemuMoveDiskDisk::Unused111 => "unused111"@,
            QemuMoveDiskDisk::Unused112 => "unused112"@,
            QemuMoveDiskDisk::Unused113 => "unused113"@,
            QemuMoveDiskDisk::Unused114 => "unused114"@,
            QemuMoveDiskDisk::Unused115 => "unused115"@,
            QemuMoveDiskDisk::Unused116 => "unused116"@,
            QemuMoveDiskDisk::Unused117 => "unused117"@,
            QemuMoveDiskDisk::Unused118 => "unused118"@,
            QemuMoveDiskDisk::Unused119 => "unused119"@,
            QemuMoveDiskDisk::Unused120 => "unused120"@,
            QemuMoveDiskDisk::Unused121 => "unused121"@,
            QemuMoveDiskDisk::Unused122 => "unused122"@,
            QemuMoveDiskDisk::Unused123 => "unused123"@,
            QemuMoveDiskDisk::Unused124 => "unused124"@,
            QemuMoveDiskDisk::Unused125 => "unused125"@,
            QemuMoveDiskDisk::Unused126 => "unused126"@,
            QemuMoveDiskDisk::Unused127 => "unused127"@,
            QemuMoveDiskDisk::Unused128 => "unused128"@,
            QemuMoveDiskDisk::Unused129 => "unused129"@,
            QemuMoveDiskDisk::Unused130 => "unused130"@,
            QemuMoveDiskDisk::Unused131 => "unused131"@,
            QemuMoveDiskDisk::Unused132 => "unused132"@,
            QemuMoveDiskDisk::Unused133 => "unused133"@,
            QemuMoveDiskDisk::Unused134 => "unused134"@,
            QemuMoveDiskDisk::Unused135 => "unused135"@,
            QemuMoveDiskDisk::Unused136 => "unused136"@,
            QemuMoveDiskDisk::Unused137 => "unused137"@,
            QemuMoveDiskDisk::Unused138 => "unused138"@,
            QemuMoveDiskDisk::Unused139 => "unused139"@,
            QemuMoveDiskDisk::Unused140 => "unused140"@,
            QemuMoveDiskDisk::Unused141 => "unused141"@,
            QemuMoveDiskDisk::Unused142 => "unused142"@,
            QemuMoveDiskDisk::Unused143 => "unused143"@,
            QemuMoveDiskDisk::Unused144 => "unused144"@,
            QemuMoveDiskDisk::Unused145 => "unused145"@,
            QemuMoveDiskDisk::Unused146 => "unused146"@,
            QemuMoveDiskDisk::Unused147 => "unused147"@,
            QemuMoveDiskDisk::Unused148 => "unused148"@,
            QemuMoveDiskDisk::Unused149 => "unused149"@,
            QemuMoveDiskDisk::Unused150 => "unused150"@,
            QemuMoveDiskDisk::Unused151 => "unused151"@,
            QemuMoveDiskDisk::Unused152 => "unused152"@,
            QemuMoveDiskDisk::Unused153 => "unused153"@,
            QemuMoveDiskDisk::Unused154 => "unused154"@,
            QemuMoveDiskDisk::Unused155 => "unused155"@,
            QemuMoveDiskDisk::Unused156 => "unused156"@,
            QemuMoveDiskDisk::Unused157 => "unused157"@,
            QemuMoveDiskDisk::Unused158 => "unused158"@,
            QemuMoveDiskDisk::Unused159 => "unused159"@,
            QemuMoveDiskDisk::Unused160 => "unused160"@,
            QemuMoveDiskDisk::Unused161 => "unused161"@,
            QemuMoveDiskDisk::Unused162 => "unused162"@,
            QemuMoveDiskDisk::Unused163 => "unused163"@,
            QemuMoveDiskDisk::Unused164 => "unused164"@,
            QemuMoveDiskDisk::Unused165 => "unused165"@,
            QemuMoveDiskDisk::Unused166 => "unused166"@,
            QemuMoveDiskDisk::Unused167 => "unused167"@,
            QemuMoveDiskDisk::Unused168 => "unused168"@,
            QemuMoveDiskDisk::Unused169 => "unused169"@,
            QemuMoveDiskDisk::Unused170 => "unused170"@,
            QemuMoveDiskDisk::Unused171 => "unused171"@,
            QemuMoveDiskDisk::Unused172 => "unused172"@,
            QemuMoveDiskDisk::Unused173 => "unused173"@,
            QemuMoveDiskDisk::Unused174 => "unused174"@,
            QemuMoveDiskDisk::Unused175 => "unused175"@,
            QemuMoveDiskDisk::Unused176 => "unused176"@,
            QemuMoveDiskDisk::Unused177 => "unused177"@,
            QemuMoveDiskDisk::Unused178 => "unused178"@,
            QemuMoveDiskDisk::Unused179 => "unused179"@,
            QemuMoveDiskDisk::Unused180 => "unused180"@,
            QemuMoveDiskDisk::Unused181 => "unused181"@,
            QemuMoveDiskDisk::Unused182 => "unused182"@,
            QemuMoveDiskDisk::Unused183 => "unused183"@,
            QemuMoveDiskDisk::Unused184 => "unused184"@,
            QemuMoveDiskDisk::Unused185 => "unused185"@,
            QemuMoveDiskDisk::Unused186 => "unused186"@,
            QemuMoveDiskDisk::Unused187 => "unused187"@,
            QemuMoveDiskDisk::Unused188 => "unused188"@,
            QemuMoveDiskDisk::Unused189 => "unused189"@,
            QemuMoveDiskDisk::Unused190 => "unused190"@,
            QemuMoveDiskDisk::Unused191 => "unused191"@,
            QemuMoveDiskDisk::Unused192 => "unused192"@,
            QemuMoveDiskDisk::Unused193 => "unused193"@,
            QemuMoveDiskDisk::Unused194 => "unused194"@,
            QemuMoveDiskDisk::Unused195 => "unused195"@,
            QemuMoveDiskDisk::Unused196 => "unused196"@,
            QemuMoveDiskDisk::Unused197 => "unused197"@,
            QemuMoveDiskDisk::Unused198 => "unused198"@,
            QemuMoveDiskDisk::Unused199 => "unused199"@,
            QemuMoveDiskDisk::Unused200 => "unused200"@,
            QemuMoveDiskDisk::Unused201 => "unused201"@,
            QemuMoveDiskDisk::Unused202 => "unused202"@,
            QemuMoveDiskDisk::Unused203 => "unused203"@,
            QemuMoveDiskDisk::Unused204 => "unused204"@,
            QemuMoveDiskDisk::Unused205 => "unused205"@,
            QemuMoveDiskDisk::Unused206 => "unused206"@,
            QemuMoveDiskDisk::Unused207 => "unused207"@,
            QemuMoveDiskDisk::Unused208 => "unused208"@,
            QemuMoveDiskDisk::Unused209 => "unused209"@,
            QemuMoveDiskDisk::Unused210 => "unused210"@,
            QemuMoveDiskDisk::Unused211 => "unused211"@,
            QemuMoveDiskDisk::Unused212 => "unused212"@,
            QemuMoveDiskDisk::Unused213 => "unused213"@,
            QemuMoveDiskDisk::Unused214 => "unused214"@,
            QemuMoveDiskDisk::Unused215 => "unused215"@,
            QemuMoveDiskDisk::Unused216 => "unused216"@,
            QemuMoveDiskDisk::Unused217 => "unused217"@,
            QemuMoveDiskDisk::Unused218 => "unused218"@,
            QemuMoveDiskDisk::Unused219 => "unused219"@,
            QemuMoveDiskDisk::Unused220 => "unused220"@,
            QemuMoveDiskDisk::Unused221 => "unused221"@,
            QemuMoveDiskDisk::Unused222 => "unused222"@,
            QemuMoveDiskDisk::Unused223 => "unused223"@,
            QemuMoveDiskDisk::Unused224 => "unused224"@,
            QemuMoveDiskDisk::Unused225 => "unused225"@,
            QemuMoveDiskDisk::Unused226 => "unused226"@,
            QemuMoveDiskDisk::Unused227 => "unused227"@,
            QemuMoveDiskDisk::Unused228 => "unused228"@,
            QemuMoveDiskDisk::Unused229 => "unused229"@,
            QemuMoveDiskDisk::Unused230 => "unused230"@,
            QemuMoveDiskDisk::Unused231 => "unused231"@,
            QemuMoveDiskDisk::Unused232 => "unused232"@,
            QemuMoveDiskDisk::Unused233 => "unused233"@,
            QemuMoveDiskDisk::Unused234 => "unused234"@,
            QemuMoveDiskDisk::Unused235 => "unused235"@,
            QemuMoveDiskDisk::Unused236 => "unused236"@,
            QemuMoveDiskDisk::Unused237 => "unused237"@,
            QemuMoveDiskDisk::Unused238 => "unused238"@,
            QemuMoveDiskDisk::Unused239 => "unused239"@,
            QemuMoveDiskDisk::Unused240 => "unused240"@,
            QemuMoveDiskDisk::Unused241 => "unused241"@,
            QemuMoveDiskDisk::Unused242 => "unused242"@,
            QemuMoveDiskDisk::Unused243 => "unused243"@,
            QemuMoveDiskDisk::Unused244 => "unused244"@,
            QemuMoveDiskDisk::Unused245 => "unused245"@,
            QemuMoveDiskDisk::Unused246 => "unused246"@,
            QemuMoveDiskDisk::Unused247 => "unused247"@,
            QemuMoveDiskDisk::Unused248 => "unused248"@,
            QemuMoveDiskDisk::Unused249 => "unused249"@,
            QemuMoveDiskDisk::Unused250 => "unused250"@,
            QemuMoveDiskDisk::Unused251 => "unused251"@,
            QemuMoveDiskDisk::Unused252 => "unused252"@,
            QemuMoveDiskDisk::Unused253 => "unused253"@,
            QemuMoveDiskDisk::Unused254 => "unused254"@,
            QemuMoveDiskDisk::Unused255 => "unused255"@,
            QemuMoveDiskDisk::UnknownEnumValue(s) => s@,
        }
    }

    /// The known value that the API name `s` stands for, if any.
    pub open spec fn known(s: Seq<char>) -> Option<Self> {
        if s == "ide0"@ {
            Some(QemuMoveDiskDisk::Ide0)
        }         else if s == "ide1"@ {
            Some(QemuMoveDiskDisk::Ide1)
        }         else if s == "ide2"@ {
            Some(QemuMoveDiskDisk::Ide2)
        }         else if s == "ide3"@ {
            Some(QemuMoveDiskDisk::Ide3)
        }         else if s == "scsi0"@ {
            Some(QemuMoveDiskDisk::Scsi0)
        }         else if s == "scsi1"@ {
            Some(QemuMoveDiskDisk::Scsi1)
        }         else if s == "scsi2"@ {
            Some(QemuMoveDiskDisk::Scsi2)
        }         else if s == "scsi3"@ {
            Some(QemuMoveDiskDisk::Scsi3)
        }         else if s == "scsi4"@ {
            Some(QemuMoveDiskDisk::Scsi4)
        }         else if s == "scsi5"@ {
            Some(QemuMoveDiskDisk::Scsi5)
        }         else if s == "scsi6"@ {
            Some(QemuMoveDiskDisk::Scsi6)
        }         else if s == "scsi7"@ {
            Some(QemuMoveDiskDisk::Scsi7)
        }         else if s == "scsi8"@ {
            Some(QemuMoveDiskDisk::Scsi8)
        }         else if s == "scsi9"@ {
            Some(QemuMoveDiskDisk::Scsi9)
        }         else if s == "scsi10"@ {
            Some(QemuMoveDiskDisk::Scsi10)
        }         else if s == "scsi11"@ {
            Some(QemuMoveDiskDisk::Scsi11)
        }         else if s == "scsi12"@ {
            Some(QemuMoveDiskDisk::Scsi12)
        }         else if s == "scsi13"@ {
            Some(QemuMoveDiskDisk::Scsi13)
        }         else if s == "scsi14"@ {
            Some(QemuMoveDiskDisk::Scsi14)
        }         else if s == "scsi15"@ {
            Some(QemuMoveDiskDisk::Scsi15)
        }         else if s == "scsi16"@ {
            Some(QemuMoveDiskDisk::Scsi16)
        }         else if s == "scsi17"@ {
            Some(QemuMoveDiskDisk::Scsi17)
        }         else if s == "scsi18"@ {
            Some(QemuMoveDiskDisk::Scsi18)
        }         else if s == "scsi19"@ {
            Some(QemuMoveDiskDisk::Scsi19)
        }         else if s == "scsi20"@ {
            Some(QemuMoveDiskDisk::Scsi20)
        }         else if s == "scsi21"@ {
            Some(QemuMoveDiskDisk::Scsi21)
        }         else if s == "scsi22"@ {
            Some(QemuMoveDiskDisk::Scsi22)
        }         else if s == "scsi23"@ {
            Some(QemuMoveDiskDisk::Scsi23)
        }         else if s == "scsi24"@ {
            Some(QemuMoveDiskDisk::Scsi24)
        }         else if s == "scsi25"@ {
            Some(QemuMoveDiskDisk::Scsi25)
        }         else if s == "scsi26"@ {
            Some(QemuMoveDiskDisk::Scsi26)
        }         else if s == "scsi27"@ {
            Some(QemuMoveDiskDisk::Scsi27)
        }         else if s == "scsi28"@ {
            Some(QemuMoveDiskDisk::Scsi28)
        }         else if s == "scsi29"@ {
            Some(QemuMoveDiskDisk::Scsi29)
        }         else if s == "scsi30"@ {
            Some(QemuMoveDiskDisk::Scsi30)
        }         else if s == "virtio0"@ {
            Some(QemuMoveDiskDisk::Virtio0)
        }         else if s == "virtio1"@ {
            Some(QemuMoveDiskDisk::Virtio1)
        }         else if s == "virtio2"@ {
            Some(QemuMoveDiskDisk::Virtio2)
        }         else if s == "virtio3"@ {
            Some(QemuMoveDiskDisk::Virtio3)
        }         else if s == "virtio4"@ {
            Some(QemuMoveDiskDisk::Virtio4)
        }         else if s == "virtio5"@ {
            Some(QemuMoveDiskDisk::Virtio5)
        }         else if s == "virtio6"@ {
            Some(QemuMoveDiskDisk::Virtio6)
        }         else if s == "virtio7"@ {
            Some(QemuMoveDiskDisk::Virtio7)
        }         else if s == "virtio8"@ {
            Some(QemuMoveDiskDisk::Virtio8)
        }         else if s == "virtio9"@ {
            Some(QemuMoveDiskDisk::Virtio9)
        }         else if s == "virtio10"@ {
            Some(QemuMoveDiskDisk::Virtio10)
        }         else if s == "virtio11"@ {
            Some(QemuMoveDiskDisk::Virtio11)
        }         else if s == "virtio12"@ {
            Some(QemuMoveDiskDisk::Virtio12)
        }         else if s == "virtio13"@ {
            Some(QemuMoveDiskDisk::Virtio13)
        }         else if s == "virtio14"@ {
            Some(QemuMoveDiskDisk::Virtio14)
        }         else if s == "virtio15"@ {
            Some(QemuMoveDiskDisk::Virtio15)
        }         else if s == "sata0"@ {
            Some(QemuMoveDiskDisk::Sata0)
        }         else if s == "sata1"@ {
            Some(QemuMoveDiskDisk::Sata1)
        }         else if s == "sata2"@ {
            Some(QemuMoveDiskDisk::Sata2)
        }         else if s == "sata3"@ {
            Some(QemuMoveDiskDisk::Sata3)
        }         else if s == "sata4"@ {
            Some(QemuMoveDiskDisk::Sata4)
        }         else if s == "sata5"@ {
            Some(QemuMoveDiskDisk::Sata5)
        }         else if s == "efidisk0"@ {
            Some(QemuMoveDiskDisk::Efidisk0)
        }         else if s == "tpmstate0"@ {
            Some(QemuMoveDiskDisk::Tpmstate0)
        }         else if s == "unused0"@ {
            Some(QemuMoveDiskDisk::Unused0)
        }         else if s == "unused1"@ {
            Some(QemuMoveDiskDisk::Unused1)
        }         else if s == "unused2"@ {
            Some(QemuMoveDiskDisk::Unused2)
        }         else if s == "unused3"@ {
            Some(QemuMoveDiskDisk::Unused3)
        }         else if s == "unused4"@ {
            Some(QemuMoveDiskDisk::Unused4)
        }         else if s == "unused5"@ {
            Some(QemuMoveDiskDisk::Unused5)
        }         else if s == "unused6"@ {
            Some(QemuMoveDiskDisk::Unused6)
        }         else if s == "unused7"@ {
            Some(QemuMoveDiskDisk::Unused7)
        }         else if s == "unused8"@ {
            Some(QemuMoveDiskDisk::Unused8)
        }         else if s == "unused9"@ {
            Some(QemuMoveDiskDisk::Unused9)
        }         else if s == "unused10"@ {
            Some(QemuMoveDiskDisk::Unused10)
        }         else if s == "unused11"@ {
            Some(QemuMoveDiskDisk::Unused11)
        }         else if s == "unused12"@ {
            Some(QemuMoveDiskDisk::Unused12)
        }         else if s == "unused13"@ {
            Some(QemuMoveDiskDisk::Unused13)
        }         else if s == "unused14"@ {
            Some(QemuMoveDiskDisk::Unused14)
        }         else if s == "unused15"@ {
            Some(QemuMoveDiskDisk::Unused15)
        }         else if s == "unused16"@ {
            Some(QemuMoveDiskDisk::Unused16)
        }         else if s == "unused17"@ {
            Some(QemuMoveDiskDisk::Unused17)
        }         else if s == "unused18"@ {
            Some(QemuMoveDiskDisk::Unused18)
        }         else if s == "unused19"@ {
            Some(QemuMoveDiskDisk::Unused19)
        }         else if s == "unused20"@ {
            Some(QemuMoveDiskDisk::Unused20)
        }         else if s == "unused21"@ {
            Some(QemuMoveDiskDisk::Unused21)
        }         else if s == "unused22"@ {
            Some(QemuMoveDiskDisk::Unused22)
        }         else if s == "unused23"@ {
            Some(QemuMoveDiskDisk::Unused23)
        }         else if s == "unused24"@ {
            Some(QemuMoveDiskDisk::Unused24)
        }         else if s == "unused25"@ {
            Some(QemuMoveDiskDisk::Unused25)
        }         else if s == "unused26"@ {
            Some(QemuMoveDiskDisk::Unused26)
        }         else if s == "unused27"@ {
            Some(QemuMoveDiskDisk::Unused27)
        }         else if s == "unused28"@ {
            Some(QemuMoveDiskDisk::Unused28)
        }         else if s == "unused29"@ {
            Some(QemuMoveDiskDisk::Unused29)
        }         else if s == "unused30"@ {
            Some(QemuMoveDiskDisk::Unused30)
        }         else if s == "unused31"@ {
            Some(QemuMoveDiskDisk::Unused31)
        }         else if s == "unused32"@ {
            Some(QemuMoveDiskDisk::Unused32)
        }         else if s == "unused33"@ {
            Some(QemuMoveDiskDisk::Unused33)
        }         else if s == "unused34"@ {
            Some(QemuMoveDiskDisk::Unused34)
        }         else if s == "unused35"@ {
            Some(QemuMoveDiskDisk::Unused35)
        }         else if s == "unused36"@ {
            Some(QemuMoveDiskDisk::Unused36)
        }         else if s == "unused37"@ {
            Some(QemuMoveDiskDisk::Unused37)
        }         else if s == "unused38"@ {
            Some(QemuMoveDiskDisk::Unused38)
        }         else if s == "unused39"@ {
            Some(QemuMoveDiskDisk::Unused39)
        }         else if s == "unused40"@ {
            Some(QemuMoveDiskDisk::Unused40)
        }         else if s == "unused41"@ {
            Some(QemuMoveDiskDisk::Unused41)
        }         else if s == "unused42"@ {
            Some(QemuMoveDiskDisk::Unused42)
        }         else if s == "unused43"@ {
            Some(QemuMoveDiskDisk::Unused43)
        }         else if s == "unused44"@ {
            Some(QemuMoveDiskDisk::Unused44)
        }         else if s == "unused45"@ {
            Some(QemuMoveDiskDisk::Unused45)
        }         else if s == "unused46"@ {
            Some(QemuMoveDiskDisk::Unused46)
        }         else if s == "unused47"@ {
            Some(QemuMoveDiskDisk::Unused47)
        }         else if s == "unused48"@ {
            Some(QemuMoveDiskDisk::Unused48)
        }         else if s == "unused49"@ {
            Some(QemuMoveDiskDisk::Unused49)
        }         else if s == "unused50"@ {
            Some(QemuMoveDiskDisk::Unused50)
        }         else if s == "unused51"@ {
            Some(QemuMoveDiskDisk::Unused51)
        }         else if s == "unused52"@ {
            Some(QemuMoveDiskDisk::Unused52)
        }         else if s == "unused53"@ {
            Some(QemuMoveDiskDisk::Unused53)
        }         else if s == "unused54"@ {
            Some(QemuMoveDiskDisk::Unused54)
        }         else if s == "unused55"@ {
            Some(QemuMoveDiskDisk::Unused55)
        }         else if s == "unused56"@ {
            Some(QemuMoveDiskDisk::Unused56)
        }         else if s == "unused57"@ {
            Some(QemuMoveDiskDisk::Unused57)
        }         else if s == "unused58"@ {
            Some(QemuMoveDiskDisk::Unused58)
        }         else if s == "unused59"@ {
            Some(QemuMoveDiskDisk::Unused59)
        }         else if s == "unused60"@ {
            Some(QemuMoveDiskDisk::Unused60)
        }         else if s == "unused61"@ {
            Some(QemuMoveDiskDisk::Unused61)
        }         else if s == "unused62"@ {
            Some(QemuMoveDiskDisk::Unused62)
        }         else if s == "unused63"@ {
            Some(QemuMoveDiskDisk::Unused63)
        }         else if s == "unused64"@ {
            Some(QemuMoveDiskDisk::Unused64)
        }         else if s == "unused65"@ {
            Some(QemuMoveDiskDisk::Unused65)
        }         else if s == "unused66"@ {
            Some(QemuMoveDiskDisk::Unused66)
        }         else if s == "unused67"@ {
            Some(QemuMoveDiskDisk::Unused67)
        }         else if s == "unused68"@ {
            Some(QemuMoveDiskDisk::Unused68)
        }         else if s == "unused69"@ {
            Some(QemuMoveDiskDisk::Unused69)
        }         else if s == "unused70"@ {
            Some(QemuMoveDiskDisk::Unused70)
        }         else if s == "unused71"@ {
            Some(QemuMoveDiskDisk::Unused71)
        }         else if s == "unused72"@ {
            Some(QemuMoveDiskDisk::Unused72)
        }         else if s == "unused73"@ {
            Some(QemuMoveDiskDisk::Unused73)
        }         else if s == "unused74"@ {
            Some(QemuMoveDiskDisk::Unused74)
        }         else if s == "unused75"@ {
            Some(QemuMoveDiskDisk::Unused75)
        }         else if s == "unused76"@ {
            Some(QemuMoveDiskDisk::Unused76)
        }         else if s == "unused77"@ {
            Some(QemuMoveDiskDisk::Unused77)
        }         else if s == "unused78"@ {
            Some(QemuMoveDiskDisk::Unused78)
        }         else if s == "unused79"@ {
            Some(QemuMoveDiskDisk::Unused79)
        }         else if s == "unused80"@ {
            Some(QemuMoveDiskDisk::Unused80)
        }         else if s == "unused81"@ {
            Some(QemuMoveDiskDisk::Unused81)
        }         else if s == "unused82"@ {
            Some(QemuMoveDiskDisk::Unused82)
        }         else if s == "unused83"@ {
            Some(QemuMoveDiskDisk::Unused83)
        }         else if s == "unused84"@ {
            Some(QemuMoveDiskDisk::Unused84)
        }         else if s == "unused85"@ {
            Some(QemuMoveDiskDisk::Unused85)
        }         else if s == "unused86"@ {
            Some(QemuMoveDiskDisk::Unused86)
        }         else if s == "unused87"@ {
            Some(QemuMoveDiskDisk::Unused87)
        }         else if s == "unused88"@ {
            Some(QemuMoveDiskDisk::Unused88)
        }         else if s == "unused89"@ {
            Some(QemuMoveDiskDisk::Unused89)
        }         else if s == "unused90"@ {
            Some(QemuMoveDiskDisk::Unused90)
        }         else if s == "unused91"@ {
            Some(QemuMoveDiskDisk::Unused91)
        }         else if s == "unused92"@ {
            Some(QemuMoveDiskDisk::Unused92)
        }         else if s == "unused93"@ {
            Some(QemuMoveDiskDisk::Unused93)
        }         else if s == "unused94"@ {
            Some(QemuMoveDiskDisk::Unused94)
        }         else if s == "unused95"@ {
            Some(QemuMoveDiskDisk::Unused95)
        }         else if s == "unused96"@ {
            Some(QemuMoveDiskDisk::Unused96)
        }         else if s == "unused97"@ {
            Some(QemuMoveDiskDisk::Unused97)
        }         else if s == "unused98"@ {
            Some(QemuMoveDiskDisk::Unused98)
        }         else if s == "unused99"@ {
            Some(QemuMoveDiskDisk::Unused99)
        }         else if s == "unused100"@ {
            Some(QemuMoveDiskDisk::Unused100)
        }         else if s == "unused101"@ {
            Some(QemuMoveDiskDisk::Unused101)
        }         else if s == "unused102"@ {
            Some(QemuMoveDiskDisk::Unused102)
        }         else if s == "unused103"@ {
            Some(QemuMoveDiskDisk::Unused103)
        }         else if s == "unused104"@ {
            Some(QemuMoveDiskDisk::Unused104)
        }         else if s == "unused105"@ {
            Some(QemuMoveDiskDisk::Unused105)
        }         else if s == "unused106"@ {
            Some(QemuMoveDiskDisk::Unused106)
        }         else if s == "unused107"@ {
            Some(QemuMoveDiskDisk::Unused107)
        }         else if s == "unused108"@ {
            Some(QemuMoveDiskDisk::Unused108)
        }         else if s == "unused109"@ {
            Some(QemuMoveDiskDisk::Unused109)
        }         else if s == "unused110"@ {
            Some(QemuMoveDiskDisk::Unused110)
        }         else if s == "unused111"@ {
            Some(QemuMoveDiskDisk::Unused111)
        }         else if s == "unused112"@ {
            Some(QemuMoveDiskDisk::Unused112)
        }         else if s == "unused113"@ {
            Some(QemuMoveDiskDisk::Unused113)
        }         else if s == "unused114"@ {
            Some(QemuMoveDiskDisk::Unused114)
        }         else if s == "unused115"@ {
            Some(QemuMoveDiskDisk::Unused115)
        }         else if s == "unused116"@ {
            Some(QemuMoveDiskDisk::Unused116)
        }         else if s == "unused117"@ {
            Some(QemuMoveDiskDisk::Unused117)
        }         else if s == "unused118"@ {
            Some(QemuMoveDiskDisk::Unused118)
        }         else if s == "unused119"@ {
            Some(QemuMoveDiskDisk::Unused119)
        }         else if s == "unused120"@ {
            Some(QemuMoveDiskDisk::Unused120)
        }         else if s == "unused121"@ {
            Some(QemuMoveDiskDisk::Unused121)
        }         else if s == "unused122"@ {
            Some(QemuMoveDiskDisk::Unused122)
        }         else if s == "unused123"@ {
            Some(QemuMoveDiskDisk::Unused123)
        }         else if s == "unused124"@ {
            Some(QemuMoveDiskDisk::Unused124)
        }         else if s == "unused125"@ {
            Some(QemuMoveDiskDisk::Unused125)
        }         else if s == "unused126"@ {
            Some(QemuMoveDiskDisk::Unused126)
        }         else if s == "unused127"@ {
            Some(QemuMoveDiskDisk::Unused127)
        }         else if s == "unused128"@ {
            Some(QemuMoveDiskDisk::Unused128)
        }         else if s == "unused129"@ {
            Some(QemuMoveDiskDisk::Unused129)
        }         else if s == "unused130"@ {
            Some(QemuMoveDiskDisk::Unused130)
        }         else if s == "unused131"@ {
            Some(QemuMoveDiskDisk::Unused131)
        }         else if s == "unused132"@ {
            Some(QemuMoveDiskDisk::Unused132)
        }         else if s == "unused133"@ {
            Some(QemuMoveDiskDisk::Unused133)
        }         else if s == "unused134"@ {
            Some(QemuMoveDiskDisk::Unused134)
        }         else if s == "unused135"@ {
            Some(QemuMoveDiskDisk::Unused135)
        }         else if s == "unused136"@ {
            Some(QemuMoveDiskDisk::Unused136)
        }         else if s == "unused137"@ {
            Some(QemuMoveDiskDisk::Unused137)
        }         else if s == "unused138"@ {
            Some(QemuMoveDiskDisk::Unused138)
        }         else if s == "unused139"@ {
            Some(QemuMoveDiskDisk::Unused139)
        }         else if s == "unused140"@ {
            Some(QemuMoveDiskDisk::Unused140)
        }         else if s == "unused141"@ {
            Some(QemuMoveDiskDisk::Unused141)
        }         else if s == "unused142"@ {
            Some(QemuMoveDiskDisk::Unused142)
        }         else if s == "unused143"@ {
            Some(QemuMoveDiskDisk::Unused143)
        }         else if s == "unused144"@ {
            Some(QemuMoveDiskDisk::Unused144)
        }         else if s == "unused145"@ {
            Some(QemuMoveDiskDisk::Unused145)
        }         else if s == "unused146"@ {
            Some(QemuMoveDiskDisk::Unused146)
        }         else if s == "unused147"@ {
            Some(QemuMoveDiskDisk::Unused147)
        }         else if s == "unused148"@ {
            Some(QemuMoveDiskDisk::Unused148)
        }         else if s == "unused149"@ {
            Some(QemuMoveDiskDisk::Unused149)
        }         else if s == "unused150"@ {
            Some(QemuMoveDiskDisk::Unused150)
        }         else if s == "unused151"@ {
            Some(QemuMoveDiskDisk::Unused151)
        }         else if s == "unused152"@ {
            Some(QemuMoveDiskDisk::Unused152)
        }         else if s == "unused153"@ {
            Some(QemuMoveDiskDisk::Unused153)
        }         else if s == "unused154"@ {
            Some(QemuMoveDiskDisk::Unused154)
        }         else if s == "unused155"@ {
            Some(QemuMoveDiskDisk::Unused155)
        }         else if s == "unused156"@ {
            Some(QemuMoveDiskDisk::Unused156)
        }         else if s == "unused157"@ {
            Some(QemuMoveDiskDisk::Unused157)
        }         else if s == "unused158"@ {
            Some(QemuMoveDiskDisk::Unused158)
        }         else if s == "unused159"@ {
            Some(QemuMoveDiskDisk::Unused159)
        }         else if s == "unused160"@ {
            Some(QemuMoveDiskDisk::Unused160)
        }         else if s == "unused161"@ {
            Some(QemuMoveDiskDisk::Unused161)
        }         else if s == "unused162"@ {
            Some(QemuMoveDiskDisk::Unused162)
        }         else if s == "unused163"@ {
            Some(QemuMoveDiskDisk::Unused163)
        }         else if s == "unused164"@ {
            Some(QemuMoveDiskDisk::Unused164)
        }         else if s == "unused165"@ {
            Some(QemuMoveDiskDisk::Unused165)
        }         else if s == "unused166"@ {
            Some(QemuMoveDiskDisk::Unused166)
        }         else if s == "unused167"@ {
            Some(QemuMoveDiskDisk::Unused167)
        }         else if s == "unused168"@ {
            Some(QemuMoveDiskDisk::Unused168)
        }         else if s == "unused169"@ {
            Some(QemuMoveDiskDisk::Unused169)
        }         else if s == "unused170"@ {
            Some(QemuMoveDiskDisk::Unused170)
        }         else if s == "unused171"@ {
            Some(QemuMoveDiskDisk::Unused171)
        }         else if s == "unused172"@ {
            Some(QemuMoveDiskDisk::Unused172)
        }         else if s == "unused173"@ {
            Some(QemuMoveDiskDisk::Unused173)
        }         else if s == "unused174"@ {
            Some(QemuMoveDiskDisk::Unused174)
        }         else if s == "unused175"@ {
            Some(QemuMoveDiskDisk::Unused175)
        }         else if s == "unused176"@ {
            Some(QemuMoveDiskDisk::Unused176)
        }         else if s == "unused177"@ {
            Some(QemuMoveDiskDisk::Unused177)
        }         else if s == "unused178"@ {
            Some(QemuMoveDiskDisk::Unused178)
        }         else if s == "unused179"@ {
            Some(QemuMoveDiskDisk::Unused179)
        }         else if s == "unused180"@ {
            Some(QemuMoveDiskDisk::Unused180)
        }         else if s == "unused181"@ {
            Some(QemuMoveDiskDisk::Unused181)
        }         else if s == "unused182"@ {
            Some(QemuMoveDiskDisk::Unused182)
        }         else if s == "unused183"@ {
            Some(QemuMoveDiskDisk::Unused183)
        }         else if s == "unused184"@ {
            Some(QemuMoveDiskDisk::Unused184)
        }         else if s == "unused185"@ {
            Some(QemuMoveDiskDisk::Unused185)
        }         else if s == "unused186"@ {
            Some(QemuMoveDiskDisk::Unused186)
        }         else if s == "unused187"@ {
            Some(QemuMoveDiskDisk::Unused187)
        }         else if s == "unused188"@ {
            Some(QemuMoveDiskDisk::Unused188)
        }         else if s == "unused189"@ {
            Some(QemuMoveDiskDisk::Unused189)
        }         else if s == "unused190"@ {
            Some(QemuMoveDiskDisk::Unused190)
        }         else if s == "unused191"@ {
            Some(QemuMoveDiskDisk::Unused191)
        }         else if s == "unused192"@ {
            Some(QemuMoveDiskDisk::Unused192)
        }         else if s == "unused193"@ {
            Some(QemuMoveDiskDisk::Unused193)
        }         else if s == "unused194"@ {
            Some(QemuMoveDiskDisk::Unused194)
        }         else if s == "unused195"@ {
            Some(QemuMoveDiskDisk::Unused195)
        }         else if s == "unused196"@ {
            Some(QemuMoveDiskDisk::Unused196)
        }         else if s == "unused197"@ {
            Some(QemuMoveDiskDisk::Unused197)
        }         else if s == "unused198"@ {
            Some(QemuMoveDiskDisk::Unused198)
        }         else if s == "unused199"@ {
            Some(QemuMoveDiskDisk::Unused199)
        }         else if s == "unused200"@ {
            Some(QemuMoveDiskDisk::Unused200)
        }         else if s == "unused201"@ {
            Some(QemuMoveDiskDisk::Unused201)
        }         else if s == "unused202"@ {
            Some(QemuMoveDiskDisk::Unused202)
        }         else if s == "unused203"@ {
            Some(QemuMoveDiskDisk::Unused203)
        }         else if s == "unused204"@ {
            Some(QemuMoveDiskDisk::Unused204)
        }         else if s == "unused205"@ {
            Some(QemuMoveDiskDisk::Unused205)
        }         else if s == "unused206"@ {
            Some(QemuMoveDiskDisk::Unused206)
        }         else if s == "unused207"@ {
            Some(QemuMoveDiskDisk::Unused207)
        }         else if s == "unused208"@ {
            Some(QemuMoveDiskDisk::Unused208)
        }         else if s == "unused209"@ {
            Some(QemuMoveDiskDisk::Unused209)
        }         else if s == "unused210"@ {
            Some(QemuMoveDiskDisk::Unused210)
        }         else if s == "unused211"@ {
            Some(QemuMoveDiskDisk::Unused211)
        }         else if s == "unused212"@ {
            Some(QemuMoveDiskDisk::Unused212)
        }         else if s == "unused213"@ {
            Some(QemuMoveDiskDisk::Unused213)
        }         else if s == "unused214"@ {
            Some(QemuMoveDiskDisk::Unused214)
        }         else if s == "unused215"@ {
            Some(QemuMoveDiskDisk::Unused215)
        }         else if s == "unused216"@ {
            Some(QemuMoveDiskDisk::Unused216)
        }         else if s == "unused217"@ {
            Some(QemuMoveDiskDisk::Unused217)
        }         else if s == "unused218"@ {
            Some(QemuMoveDiskDisk::Unused218)
        }         else if s == "unused219"@ {
            Some(QemuMoveDiskDisk::Unused219)
        }         else if s == "unused220"@ {
            Some(QemuMoveDiskDisk::Unused220)
        }         else if s == "unused221"@ {
            Some(QemuMoveDiskDisk::Unused221)
        }         else if s == "unused222"@ {
            Some(QemuMoveDiskDisk::Unused222)
        }         else if s == "unused223"@ {
            Some(QemuMoveDiskDisk::Unused223)
        }         else if s == "unused224"@ {
            Some(QemuMoveDiskDisk::Unused224)
        }         else if s == "unused225"@ {
            Some(QemuMoveDiskDisk::Unused225)
        }         else if s == "unused226"@ {
            Some(QemuMoveDiskDisk::Unused226)
        }         else if s == "unused227"@ {
            Some(QemuMoveDiskDisk::Unused227)
        }         else if s == "unused228"@ {
            Some(QemuMoveDiskDisk::Unused228)
        }         else if s == "unused229"@ {
            Some(QemuMoveDiskDisk::Unused229)
        }         else if s == "unused230"@ {
            Some(QemuMoveDiskDisk::Unused230)
        }         else if s == "unused231"@ {
            Some(QemuMoveDiskDisk::Unused231)
        }         else if s == "unused232"@ {
            Some(QemuMoveDiskDisk::Unused232)
        }         else if s == "unused233"@ {
            Some(QemuMoveDiskDisk::Unused233)
        }         else if s == "unused234"@ {
            Some(QemuMoveDiskDisk::Unused234)
        }         else if s == "unused235"@ {
            Some(QemuMoveDiskDisk::Unused235)
        }         else if s == "unused236"@ {
            Some(QemuMoveDiskDisk::Unused236)
        }         else if s == "unused237"@ {
            Some(QemuMoveDiskDisk::Unused237)
        }         else if s == "unused238"@ {
            Some(QemuMoveDiskDisk::Unused238)
        }         else if s == "unused239"@ {
            Some(QemuMoveDiskDisk::Unused239)
        }         else if s == "unused240"@ {
            Some(QemuMoveDiskDisk::Unused240)
        }         else if s == "unused241"@ {
            Some(QemuMoveDiskDisk::Unused241)
        }         else if s == "unused242"@ {
            Some(QemuMoveDiskDisk::Unused242)
        }         else if s == "unused243"@ {
            Some(QemuMoveDiskDisk::Unused243)
        }         else if s == "unused244"@ {
            Some(QemuMoveDiskDisk::Unused244)
        }         else if s == "unused245"@ {
            Some(QemuMoveDiskDisk::Unused245)
        }         else if s == "unused246"@ {
            Some(QemuMoveDiskDisk::Unused246)
        }         else if s == "unused247"@ {
            Some(QemuMoveDiskDisk::Unused247)
        }         else if s == "unused248"@ {
            Some(QemuMoveDiskDisk::Unused248)
        }         else if s == "unused249"@ {
            Some(QemuMoveDiskDisk::Unused249)
        }         else if s == "unused250"@ {
            Some(QemuMoveDiskDisk::Unused250)
        }         else if s == "unused251"@ {
            Some(QemuMoveDiskDisk::Unused251)
        }         else if s == "unused252"@ {
            Some(QemuMoveDiskDisk::Unused252)
        }         else if s == "unused253"@ {
            Some(QemuMoveDiskDisk::Unused253)
        }         else if s == "unused254"@ {
            Some(QemuMoveDiskDisk::Unused254)
        }         else if s == "unused255"@ {
            Some(QemuMoveDiskDisk::Unused255)
        } else {
            None
        }
    }

    /// `v` is the value that reading the API name `s` gives.
    pub open spec fn parses_to(s: Seq<char>, v: Self) -> bool {
        match Self::known(s) {
            Some(k) => v == k,
            None => v matches QemuMoveDiskDisk::UnknownEnumValue(t) && t@ == s,
        }
    }

    /// The API name of this value.
    pub fn to_string(&self) -> (r: String)
        ensures
            r@ == self.name(),
    {
        match self {
            QemuMoveDiskDisk::Ide0 => String::from_str("ide0"),
            QemuMoveDiskDisk::Ide1 => String::from_str("ide1"),
            QemuMoveDiskDisk::Ide2 => String::from_str("ide2"),
            QemuMoveDiskDisk::Ide3 => String::from_str("ide3"),
            QemuMoveDiskDisk::Scsi0 => String::from_str("scsi0"),
            QemuMoveDiskDisk::Scsi1 => String::from_str("scsi1"),
            QemuMoveDiskDisk::Scsi2 => String::from_str("scsi2"),
            QemuMoveDiskDisk::Scsi3 => String::from_str("scsi3"),
            QemuMoveDiskDisk::Scsi4 => String::from_str("scsi4"),
            QemuMoveDiskDisk::Scsi5 => String::from_str("scsi5"),
            QemuMoveDiskDisk::Scsi6 => String::from_str("scsi6"),
            QemuMoveDiskDisk::Scsi7 => String::from_str("scsi7"),
            QemuMoveDiskDisk::Scsi8 => String::from_str("scsi8"),
            QemuMoveDiskDisk::Scsi9 => String::from_str("scsi9"),
            QemuMoveDiskDisk::Scsi10 => String::from_str("scsi10"),
            QemuMoveDiskDisk::Scsi11 => String::from_str("scsi11"),
            QemuMoveDiskDisk::Scsi12 => String::from_str("scsi12"),
            QemuMoveDiskDisk::Scsi13 => String::from_str("scsi13"),
            QemuMoveDiskDisk::Scsi14 => String::from_str("scsi14"),
            QemuMoveDiskDisk::Scsi15 => String::from_str("scsi15"),
            QemuMoveDiskDisk::Scsi16 => String::from_str("scsi16"),
            QemuMoveDiskDisk::Scsi17 => String::from_str("scsi17"),
            QemuMoveDiskDisk::Scsi18 => String::from_str("scsi18"),
            QemuMoveDiskDisk::Scsi19 => String::from_str("scsi19"),
            QemuMoveDiskDisk::Scsi20 => String::from_str("scsi20"),
            QemuMoveDiskDisk::Scsi21 => String::from_str("scsi21"),
            QemuMoveDiskDisk::Scsi22 => String::from_str("scsi22"),
            QemuMoveDiskDisk::Scsi23 => String::from_str("scsi23"),
            QemuMoveDiskDisk::Scsi24 => String::from_str("scsi24"),
            QemuMoveDiskDisk::Scsi25 => String::from_str("scsi25"),
            QemuMoveDiskDisk::Scsi26 => String::from_str("scsi26"),
            QemuMoveDiskDisk::Scsi27 => String::from_str("scsi27"),
            QemuMoveDiskDisk::Scsi28 => String::from_str("scsi28"),
            QemuMoveDiskDisk::Scsi29 => String::from_str("scsi29"),
            QemuMoveDiskDisk::Scsi30 => String::from_str("scsi30"),
            QemuMoveDiskDisk::Virtio0 => String::from_str("virtio0"),
            QemuMoveDiskDisk::Virtio1 => String::from_str("virtio1"),
            QemuMoveDiskDisk::Virtio2 => String::from_str("virtio2"),
            QemuMoveDiskDisk::Virtio3 => String::from_str("virtio3"),
            QemuMoveDiskDisk::Virtio4 => String::from_str("virtio4"),
            QemuMoveDiskDisk::Virtio5 => String::from_str("virtio5"),
            QemuMoveDiskDisk::Virtio6 => String::from_str("virtio6"),
            QemuMoveDiskDisk::Virtio7 => String::from_str("virtio7"),
            QemuMoveDiskDisk::Virtio8 => String::from_str("virtio8"),
            QemuMoveDiskDisk::Virtio9 => String::from_str("virtio9"),
            QemuMoveDiskDisk::Virtio10 => String::from_str("virtio10"),
            QemuMoveDiskDisk::Virtio11 => String::from_str("virtio11"),
            QemuMoveDiskDisk::Virtio12 => String::from_str("virtio12"),
            QemuMoveDiskDisk::Virtio13 => String::from_str("virtio13"),
            QemuMoveDiskDisk::Virtio14 => String::from_str("virtio14"),
            QemuMoveDiskDisk::Virtio15 => String::from_str("virtio15"),
            QemuMoveDiskDisk::Sata0 => String::from_str("sata0"),
            QemuMoveDiskDisk::Sata1 => String::from_str("sata1"),
            QemuMoveDiskDisk::Sata2 => String::from_str("sata2"),
            QemuMoveDiskDisk::Sata3 => String::from_str("sata3"),
            QemuMoveDiskDisk::Sata4 => String::from_str("sata4"),
            QemuMoveDiskDisk::Sata5 => String::from_str("sata5"),
            QemuMoveDiskDisk::Efidisk0 => String::from_str("efidisk0"),
            QemuMoveDiskDisk::Tpmstate0 => String::from_str("tpmstate0"),
            QemuMoveDiskDisk::Unused0 => String::from_str("unused0"),
            QemuMoveDiskDisk::Unused1 => String::from_str("unused1"),
            QemuMoveDiskDisk::Unused2 => String::from_str("unused2"),
            QemuMoveDiskDisk::Unused3 => String::from_str("unused3"),
            QemuMoveDiskDisk::Unused4 => String::from_str("unused4"),
            QemuMoveDiskDisk::Unused5 => String::from_str("unused5"),
            QemuMoveDiskDisk::Unused6 => String::from_str("unused6"),
            QemuMoveDiskDisk::Unused7 => String::from_str("unused7"),
            QemuMoveDiskDisk::Unused8 => String::from_str("unused8"),
            QemuMoveDiskDisk::Unused9 => String::from_str("unused9"),
            QemuMoveDiskDisk::Unused10 => String::from_str("unused10"),
            QemuMoveDiskDisk::Unused11 => String::from_str("unused11"),
            QemuMoveDiskDisk::Unused12 => String::from_str("unused12"),
            QemuMoveDiskDisk::Unused13 => String::from_str("unused13"),
            QemuMoveDiskDisk::Unused14 => String::from_str("unused14"),
            QemuMoveDiskDisk::Unused15 => String::from_str("unused15"),
            QemuMoveDiskDisk::Unused16 => String::from_str("unused16"),
            QemuMoveDiskDisk::Unused17 => String::from_str("unused17"),
            QemuMoveDiskDisk::Unused18 => String::from_str("unused18"),
            QemuMoveDiskDisk::Unused19 => String::from_str("unused19"),
            QemuMoveDiskDisk::Unused20 => String::from_str("unused20"),
            QemuMoveDiskDisk::Unused21 => String::from_str("unused21"),
            QemuMoveDiskDisk::Unused22 => String::from_str("unused22"),
            QemuMoveDiskDisk::Unused23 => String::from_str("unused23"),
            QemuMoveDiskDisk::Unused24 => String::from_str("unused24"),
            QemuMoveDiskDisk::Unused25 => String::from_str("unused25"),
            QemuMoveDiskDisk::Unused26 => String::from_str("unused26"),
            QemuMoveDiskDisk::Unused27 => String::from_str("unused27"),
            QemuMoveDiskDisk::Unused28 => String::from_str("unused28"),
            QemuMoveDiskDisk::Unused29 => String::from_str("unused29"),
            QemuMoveDiskDisk::Unused30 => String::from_str("unused30"),
            QemuMoveDiskDisk::Unused31 => String::from_str("unused31"),
            QemuMoveDiskDisk::Unused32 => String::from_str("unused32"),
            QemuMoveDiskDisk::Unused33 => String::from_str("unused33"),
            QemuMoveDiskDisk::Unused34 => String::from_str("unused34"),
            QemuMoveDiskDisk::Unused35 => String::from_str("unused35"),
            QemuMoveDiskDisk::Unused36 => String::from_str("unused36"),
            QemuMoveDiskDisk::Unused37 => String::from_str("unused37"),
            QemuMoveDiskDisk::Unused38 => String::from_str("unused38"),
            QemuMoveDiskDisk::Unused39 => String::from_str("unused39"),
            QemuMoveDiskDisk::Unused40 => String::from_str("unused40"),
            QemuMoveDiskDisk::Unused41 => String::from_str("unused41"),
            QemuMoveDiskDisk::Unused42 => String::from_str("unused42"),
            QemuMoveDiskDisk::Unused43 => String::from_str("unused43"),
            QemuMoveDiskDisk::Unused44 => String::from_str("unused44"),
            QemuMoveDiskDisk::Unused45 => String::from_str("unused45"),
            QemuMoveDiskDisk::Unused46 => String::from_str("unused46"),
            QemuMoveDiskDisk::Unused47 => String::from_str("unused47"),
            QemuMoveDiskDisk::Unused48 => String::from_str("unused48"),
            QemuMoveDiskDisk::Unused49 => String::from_str("unused49"),
            QemuMoveDiskDisk::Unused50 => String::from_str("unused50"),
            QemuMoveDiskDisk::Unused51 => String::from_str("unused51"),
            QemuMoveDiskDisk::Unused52 => String::from_str("unused52"),
            QemuMoveDiskDisk::Unused53 => String::from_str("unused53"),
            QemuMoveDiskDisk::Unused54 => String::from_str("unused54"),
            QemuMoveDiskDisk::Unused55 => String::from_str("unused55"),
            QemuMoveDiskDisk::Unused56 => String::from_str("unused56"),
            QemuMoveDiskDisk::Unused57 => String::from_str("unused57"),
            QemuMoveDiskDisk::Unused58 => String::from_str("unused58"),
            QemuMoveDiskDisk::Unused59 => String::from_str("unused59"),
            QemuMoveDiskDisk::Unused60 => String::from_str("unused60"),
            QemuMoveDiskDisk::Unused61 => String::from_str("unused61"),
            QemuMoveDiskDisk::Unused62 => String::from_str("unused62"),
            QemuMoveDiskDisk::Unused63 => String::from_str("unused63"),
            QemuMoveDiskDisk::Unused64 => String::from_str("unused64"),
            QemuMoveDiskDisk::Unused65 => String::from_str("unused65"),
            QemuMoveDiskDisk::Unused66 => String::from_str("unused66"),
            QemuMoveDiskDisk::Unused67 => String::from_str("unused67"),
            QemuMoveDiskDisk::Unused68 => String::from_str("unused68"),
            QemuMoveDiskDisk::Unused69 => String::from_str("unused69"),
            QemuMoveDiskDisk::Unused70 => String::from_str("unused70"),
            QemuMoveDiskDisk::Unused71 => String::from_str("unused71"),
            QemuMoveDiskDisk::Unused72 => String::from_str("unused72"),
            QemuMoveDiskDisk::Unused73 => String::from_str("unused73"),
            QemuMoveDiskDisk::Unused74 => String::from_str("unused74"),
            QemuMoveDiskDisk::Unused75 => String::from_str("unused75"),
            QemuMoveDiskDisk::Unused76 => String::from_str("unused76"),
            QemuMoveDiskDisk::Unused77 => String::from_str("unused77"),
            QemuMoveDiskDisk::Unused78 => String::from_str("unused78"),
            QemuMoveDiskDisk::Unused79 => String::from_str("unused79"),
            QemuMoveDiskDisk::Unused80 => String::from_str("unused80"),
            QemuMoveDiskDisk::Unused81 => String::from_str("unused81"),
            QemuMoveDiskDisk::Unused82 => String::from_str("unused82"),
            QemuMoveDiskDisk::Unused83 => String::from_str("unused83"),
            QemuMoveDiskDisk::Unused84 => String::from_str("unused84"),
            QemuMoveDiskDisk::Unused85 => String::from_str("unused85"),
            QemuMoveDiskDisk::Unused86 => String::from_str("unused86"),
            QemuMoveDiskDisk::Unused87 => String::from_str("unused87"),
            QemuMoveDiskDisk::Unused88 => String::from_str("unused88"),
            QemuMoveDiskDisk::Unused89 => String::from_str("unused89"),
            QemuMoveDiskDisk::Unused90 => String::from_str("unused90"),
            QemuMoveDiskDisk::Unused91 => String::from_str("unused91"),
            QemuMoveDiskDisk::Unused92 => String::from_str("unused92"),
            QemuMoveDiskDisk::Unused93 => String::from_str("unused93"),
            QemuMoveDiskDisk::Unused94 => String::from_str("unused94"),
            QemuMoveDiskDisk::Unused95 => String::from_str("unused95"),
            QemuMoveDiskDisk::Unused96 => String::from_str("unused96"),
            QemuMoveDiskDisk::Unused97 => String::from_str("unused97"),
            QemuMoveDiskDisk::Unused98 => String::from_str("unused98"),
            QemuMoveDiskDisk::Unused99 => String::from_str("unused99"),
            QemuMoveDiskDisk::Unused100 => String::from_str("unused100"),
            QemuMoveDiskDisk::Unused101 => String::from_str("unused101"),
            QemuMoveDiskDisk::Unused102 => String::from_str("unused102"),
            QemuMoveDiskDisk::Unused103 => String::from_str("unused103"),
            QemuMoveDiskDisk::Unused104 => String::from_str("unused104"),
            QemuMoveDiskDisk::Unused105 => String::from_str("unused105"),
            QemuMoveDiskDisk::Unused106 => String::from_str("unused106"),
            QemuMoveDiskDisk::Unused107 => String::from_str("unused107"),
            QemuMoveDiskDisk::Unused108 => String::from_str("unused108"),
            QemuMoveDiskDisk::Unused109 => String::from_str("unused109"),
            QemuMoveDiskDisk::Unused110 => String::from_str("unused110"),
            QemuMoveDiskDisk::Unused111 => String::from_str("unused111"),
            QemuMoveDiskDisk::Unused112 => String::from_str("unused112"),
            QemuMoveDiskDisk::Unused113 => String::from_str("unused113"),
            QemuMoveDiskDisk::Unused114 => String::from_str("unused114"),
            QemuMoveDiskDisk::Unused115 => String::from_str("unused115"),
            QemuMoveDiskDisk::Unused116 => String::from_str("unused116"),
            QemuMoveDiskDisk::Unused117 => String::from_str("unused117"),
            QemuMoveDiskDisk::Unused118 => String::from_str("unused118"),
            QemuMoveDiskDisk::Unused119 => String::from_str("unused119"),
            QemuMoveDiskDisk::Unused120 => String::from_str("unused120"),
            QemuMoveDiskDisk::Unused121 => String::from_str("unused121"),
            QemuMoveDiskDisk::Unused122 => String::from_str("unused122"),
            QemuMoveDiskDisk::Unused123 => String::from_str("unused123"),
            QemuMoveDiskDisk::Unused124 => String::from_str("unused124"),
            QemuMoveDiskDisk::Unused125 => String::from_str("unused125"),
            QemuMoveDiskDisk::Unused126 => String::from_str("unused126"),
            QemuMoveDiskDisk::Unused127 => String::from_str("unused127"),
            QemuMoveDiskDisk::Unused128 => String::from_str("unused128"),
            QemuMoveDiskDisk::Unused129 => String::from_str("unused129"),
            QemuMoveDiskDisk::Unused130 => String::from_str("unused130"),
            QemuMoveDiskDisk::Unused131 => String::from_str("unused131"),
            QemuMoveDiskDisk::Unused132 => String::from_str("unused132"),
            QemuMoveDiskDisk::Unused133 => String::from_str("unused133"),
            QemuMoveDiskDisk::Unused134 => String::from_str("unused134"),
            QemuMoveDiskDisk::Unused135 => String::from_str("unused135"),
            QemuMoveDiskDisk::Unused136 => String::from_str("unused136"),
            QemuMoveDiskDisk::Unused137 => String::from_str("unused137"),
            QemuMoveDiskDisk::Unused138 => String::from_str("unused138"),
            QemuMoveDiskDisk::Unused139 => String::from_str("unused139"),
            QemuMoveDiskDisk::Unused140 => String::from_str("unused140"),
            QemuMoveDiskDisk::Unused141 => String::from_str("unused141"),
            QemuMoveDiskDisk::Unused142 => String::from_str("unused142"),
            QemuMoveDiskDisk::Unused143 => String::from_str("unused143"),
            QemuMoveDiskDisk::Unused144 => String::from_str("unused144"),
            QemuMoveDiskDisk::Unused145 => String::from_str("unused145"),
            QemuMoveDiskDisk::Unused146 => String::from_str("unused146"),
            QemuMoveDiskDisk::Unused147 => String::from_str("unused147"),
            QemuMoveDiskDisk::Unused148 => String::from_str("unused148"),
            QemuMoveDiskDisk::Unused149 => String::from_str("unused149"),
            QemuMoveDiskDisk::Unused150 => String::from_str("unused150"),
            QemuMoveDiskDisk::Unused151 => String::from_str("unused151"),
            QemuMoveDiskDisk::Unused152 => String::from_str("unused152"),
            QemuMoveDiskDisk::Unused153 => String::from_str("unused153"),
            QemuMoveDiskDisk::Unused154 => String::from_str("unused154"),
            QemuMoveDiskDisk::Unused155 => String::from_str("unused155"),
            QemuMoveDiskDisk::Unused156 => String::from_str("unused156"),
            QemuMoveDiskDisk::Unused157 => String::from_str("unused157"),
            QemuMoveDiskDisk::Unused158 => String::from_str("unused158"),
            QemuMoveDiskDisk::Unused159 => String::from_str("unused159"),
            QemuMoveDiskDisk::Unused160 => String::from_str("unused160"),
            QemuMoveDiskDisk::Unused161 => String::from_str("unused161"),
            QemuMoveDiskDisk::Unused162 => String::from_str("unused162"),
            QemuMoveDiskDisk::Unused163 => String::from_str("unused163"),
            QemuMoveDiskDisk::Unused164 => String::from_str("unused164"),
            QemuMoveDiskDisk::Unused165 => String::from_str("unused165"),
            QemuMoveDiskDisk::Unused166 => String::from_str("unused166"),
            QemuMoveDiskDisk::Unused167 => String::from_str("unused167"),
            QemuMoveDiskDisk::Unused168 => String::from_str("unused168"),
            QemuMoveDiskDisk::Unused169 => String::from_str("unused169"),
            QemuMoveDiskDisk::Unused170 => String::from_str("unused170"),
            QemuMoveDiskDisk::Unused171 => String::from_str("unused171"),
            QemuMoveDiskDisk::Unused172 => String::from_str("unused172"),
            QemuMoveDiskDisk::Unused173 => String::from_str("unused173"),
            QemuMoveDiskDisk::Unused174 => String::from_str("unused174"),
            QemuMoveDiskDisk::Unused175 => String::from_str("unused175"),
            QemuMoveDiskDisk::Unused176 => String::from_str("unused176"),
            QemuMoveDiskDisk::Unused177 => String::from_str("unused177"),
            QemuMoveDiskDisk::Unused178 => String::from_str("unused178"),
            QemuMoveDiskDisk::Unused179 => String::from_str("unused179"),
            QemuMoveDiskDisk::Unused180 => String::from_str("unused180"),
            QemuMoveDiskDisk::Unused181 => String::from_str("unused181"),
            QemuMoveDiskDisk::Unused182 => String::from_str("unused182"),
            QemuMoveDiskDisk::Unused183 => String::from_str("unused183"),
            QemuMoveDiskDisk::Unused184 => String::from_str("unused184"),
            QemuMoveDiskDisk::Unused185 => String::from_str("unused185"),
            QemuMoveDiskDisk::Unused186 => String::from_str("unused186"),
            QemuMoveDiskDisk::Unused187 => String::from_str("unused187"),
            QemuMoveDiskDisk::Unused188 => String::from_str("unused188"),
            QemuMoveDiskDisk::Unused189 => String::from_str("unused189"),
            QemuMoveDiskDisk::Unused190 => String::from_str("unused190"),
            QemuMoveDiskDisk::Unused191 => String::from_str("unused191"),
            QemuMoveDiskDisk::Unused192 => String::from_str("unused192"),
            QemuMoveDiskDisk::Unused193 => String::from_str("unused193"),
            QemuMoveDiskDisk::Unused194 => String::from_str("unused194"),
            QemuMoveDiskDisk::Unused195 => String::from_str("unused195"),
            QemuMoveDiskDisk::Unused196 => String::from_str("unused196"),
            QemuMoveDiskDisk::Unused197 => String::from_str("unused197"),
            QemuMoveDiskDisk::Unused198 => String::from_str("unused198"),
            QemuMoveDiskDisk::Unused199 => String::from_str("unused199"),
            QemuMoveDiskDisk::Unused200 => String::from_str("unused200"),
            QemuMoveDiskDisk::Unused201 => String::from_str("unused201"),
            QemuMoveDiskDisk::Unused202 => String::from_str("unused202"),
            QemuMoveDiskDisk::Unused203 => String::from_str("unused203"),
            QemuMoveDiskDisk::Unused204 => String::from_str("unused204"),
            QemuMoveDiskDisk::Unused205 => String::from_str("unused205"),
            QemuMoveDiskDisk::Unused206 => String::from_str("unused206"),
            QemuMoveDiskDisk::Unused207 => String::from_str("unused207"),
            QemuMoveDiskDisk::Unused208 => String::from_str("unused208"),
            QemuMoveDiskDisk::Unused209 => String::from_str("unused209"),
            QemuMoveDiskDisk::Unused210 => String::from_str("unused210"),
            QemuMoveDiskDisk::Unused211 => String::from_str("unused211"),
            QemuMoveDiskDisk::Unused212 => String::from_str("unused212"),
            QemuMoveDiskDisk::Unused213 => String::from_str("unused213"),
            QemuMoveDiskDisk::Unused214 => String::from_str("unused214"),
            QemuMoveDiskDisk::Unused215 => String::from_str("unused215"),
            QemuMoveDiskDisk::Unused216 => String::from_str("unused216"),
            QemuMoveDiskDisk::Unused217 => String::from_str("unused217"),
            QemuMoveDiskDisk::Unused218 => String::from_str("unused218"),
            QemuMoveDiskDisk::Unused219 => String::from_str("unused219"),
            QemuMoveDiskDisk::Unused220 => String::from_str("unused220"),
            QemuMoveDiskDisk::Unused221 => String::from_str("unused221"),
            QemuMoveDiskDisk::Unused222 => String::from_str("unused222"),
            QemuMoveDiskDisk::Unused223 => String::from_str("unused223"),
            QemuMoveDiskDisk::Unused224 => String::from_str("unused224"),
            QemuMoveDiskDisk::Unused225 => String::from_str("unused225"),
            QemuMoveDiskDisk::Unused226 => String::from_str("unused226"),
            QemuMoveDiskDisk::Unused227 => String::from_str("unused227"),
            QemuMoveDiskDisk::Unused228 => String::from_str("unused228"),
            QemuMoveDiskDisk::Unused229 => String::from_str("unused229"),
            QemuMoveDiskDisk::Unused230 => String::from_str("unused230"),
            QemuMoveDiskDisk::Unused231 => String::from_str("unused231"),
            QemuMoveDiskDisk::Unused232 => String::from_str("unused232"),
            QemuMoveDiskDisk::Unused233 => String::from_str("unused233"),
            QemuMoveDiskDisk::Unused234 => String::from_str("unused234"),
            QemuMoveDiskDisk::Unused235 => String::from_str("unused235"),
            QemuMoveDiskDisk::Unused236 => String::from_str("unused236"),
            QemuMoveDiskDisk::Unused237 => String::from_str("unused237"),
            QemuMoveDiskDisk::Unused238 => String::from_str("unused238"),
            QemuMoveDiskDisk::Unused239 => String::from_str("unused239"),
            QemuMoveDiskDisk::Unused240 => String::from_str("unused240"),
            QemuMoveDiskDisk::Unused241 => String::from_str("unused241"),
            QemuMoveDiskDisk::Unused242 => String::from_str("unused242"),
            QemuMoveDiskDisk::Unused243 => String::from_str("unused243"),
            QemuMoveDiskDisk::Unused244 => String::from_str("unused244"),
            QemuMoveDiskDisk::Unused245 => String::from_str("unused245"),
            QemuMoveDiskDisk::Unused246 => String::from_str("unused246"),
            QemuMoveDiskDisk::Unused247 => String::from_str("unused247"),
            QemuMoveDiskDisk::Unused248 => String::from_str("unused248"),
            QemuMoveDiskDisk::Unused249 => String::from_str("unused249"),
            QemuMoveDiskDisk::Unused250 => String::from_str("unused250"),
            QemuMoveDiskDisk::Unused251 => String::from_str("unused251"),
            QemuMoveDiskDisk::Unused252 => String::from_str("unused252"),
            QemuMoveDiskDisk::Unused253 => String::from_str("unused253"),
            QemuMoveDiskDisk::Unused254 => String::from_str("unused254"),
            QemuMoveDiskDisk::Unused255 => String::from_str("unused255"),
            QemuMoveDiskDisk::UnknownEnumValue(s) => s.clone(),
        }
    }

    /// Reads an API name; a name that is not known is kept as an unknown value.
    pub fn from_name(s: &str) -> (r: Self)
        ensures
            Self::parses_to(s@, r),
    {
        if str_eq(s, "ide0") {
            QemuMoveDiskDisk::Ide0
        }         else if str_eq(s, "ide1") {
            QemuMoveDiskDisk::Ide1
        }         else if str_eq(s, "ide2") {
            QemuMoveDiskDisk::Ide2
        }         else if str_eq(s, "ide3") {
            QemuMoveDiskDisk::Ide3
        }         else if str_eq(s, "scsi0") {
            QemuMoveDiskDisk::Scsi0
        }         else if str_eq(s, "scsi1") {
            QemuMoveDiskDisk::Scsi1
        }         else if str_eq(s, "scsi2") {
            QemuMoveDiskDisk::Scsi2
        }         else if str_eq(s, "scsi3") {
            QemuMoveDiskDisk::Scsi3
        }         else if str_eq(s, "scsi4") {
            QemuMoveDiskDisk::Scsi4
        }         else if str_eq(s, "scsi5") {
            QemuMoveDiskDisk::Scsi5
        }         else if str_eq(s, "scsi6") {
            QemuMoveDiskDisk::Scsi6
        }         else if str_eq(s, "scsi7") {
            QemuMoveDiskDisk::Scsi7
        }         else if str_eq(s, "scsi8") {
            QemuMoveDiskDisk::Scsi8
        }         else if str_eq(s, "scsi9") {
            QemuMoveDiskDisk::Scsi9
        }         else if str_eq(s, "scsi10") {
            QemuMoveDiskDisk::Scsi10
        }         else if str_eq(s, "scsi11") {
            QemuMoveDiskDisk::Scsi11
        }         else if str_eq(s, "scsi12") {
            QemuMoveDiskDisk::Scsi12
        }         else if str_eq(s, "scsi13") {
            QemuMoveDiskDisk::Scsi13
        }         else if str_eq(s, "scsi14") {
            QemuMoveDiskDisk::Scsi14
        }         else if str_eq(s, "scsi15") {
            QemuMoveDiskDisk::Scsi15
        }         else if str_eq(s, "scsi16") {
            QemuMoveDiskDisk::Scsi16
        }         else if str_eq(s, "scsi17") {
            QemuMoveDiskDisk::Scsi17
        }         else if str_eq(s, "scsi18") {
            QemuMoveDiskDisk::Scsi18
        }         else if str_eq(s, "scsi19") {
            QemuMoveDiskDisk::Scsi19
        }         else if str_eq(s, "scsi20") {
            QemuMoveDiskDisk::Scsi20
        }         else if str_eq(s, "scsi21") {
            QemuMoveDiskDisk::Scsi21
        }         else if str_eq(s, "scsi22") {
            QemuMoveDiskDisk::Scsi22
        }         else if str_eq(s, "scsi23") {
            QemuMoveDiskDisk::Scsi23
        }         else if str_eq(s, "scsi24") {
            QemuMoveDiskDisk::Scsi24
        }         else if str_eq(s, "scsi25") {
            QemuMoveDiskDisk::Scsi25
        }         else if str_eq(s, "scsi26") {
            QemuMoveDiskDisk::Scsi26
        }         else if str_eq(s, "scsi27") {
            QemuMoveDiskDisk::Scsi27
        }         else if str_eq(s, "scsi28") {
            QemuMoveDiskDisk::Scsi28
        }         else if str_eq(s, "scsi29") {
            QemuMoveDiskDisk::Scsi29
        }         else if str_eq(s, "scsi30") {
            QemuMoveDiskDisk::Scsi30
        }         else if str_eq(s, "virtio0") {
            QemuMoveDiskDisk::Virtio0
        }         else if str_eq(s, "virtio1") {
            QemuMoveDiskDisk::Virtio1
        }         else if str_eq(s, "virtio2") {
            QemuMoveDiskDisk::Virtio2
        }         else if str_eq(s, "virtio3") {
            QemuMoveDiskDisk::Virtio3
        }         else if str_eq(s, "virtio4") {
            QemuMoveDiskDisk::Virtio4
        }         else if str_eq(s, "virtio5") {
            QemuMoveDiskDisk::Virtio5
        }         else if str_eq(s, "virtio6") {
            QemuMoveDiskDisk::Virtio6
        }         else if str_eq(s, "virtio7") {
            QemuMoveDiskDisk::Virtio7
        }         else if str_eq(s, "virtio8") {
            QemuMoveDiskDisk::Virtio8
        }         else if str_eq(s, "virtio9") {
            QemuMoveDiskDisk::Virtio9
        }         else if str_eq(s, "virtio10") {
            QemuMoveDiskDisk::Virtio10
        }         else if str_eq(s, "virtio11") {
            QemuMoveDiskDisk::Virtio11
        }         else if str_eq(s, "virtio12") {
            QemuMoveDiskDisk::Virtio12
        }         else if str_eq(s, "virtio13") {
            QemuMoveDiskDisk::Virtio13
        }         else if str_eq(s, "virtio14") {
            QemuMoveDiskDisk::Virtio14
        }         else if str_eq(s, "virtio15") {
            QemuMoveDiskDisk::Virtio15
        }         else if str_eq(s, "sata0") {
            QemuMoveDiskDisk::Sata0
        }         else if str_eq(s, "sata1") {
            QemuMoveDiskDisk::Sata1
        }         else if str_eq(s, "sata2") {
            QemuMoveDiskDisk::Sata2
        }         else if str_eq(s, "sata3") {
            QemuMoveDiskDisk::Sata3
        }         else if str_eq(s, "sata4") {
            QemuMoveDiskDisk::Sata4
        }         else if str_eq(s, "sata5") {
            QemuMoveDiskDisk::Sata5
        }         else if str_eq(s, "efidisk0") {
            QemuMoveDiskDisk::Efidisk0
        }         else if str_eq(s, "tpmstate0") {
            QemuMoveDiskDisk::Tpmstate0
        }         else if str_eq(s, "unused0") {
            QemuMoveDiskDisk::Unused0
        }         else if str_eq(s, "unused1") {
            QemuMoveDiskDisk::Unused1
        }         else if str_eq(s, "unused2") {
            QemuMoveDiskDisk::Unused2
        }         else if str_eq(s, "unused3") {
            QemuMoveDiskDisk::Unused3
        }         else if str_eq(s, "unused4") {
            QemuMoveDiskDisk::Unused4
        }         else if str_eq(s, "unused5") {
            QemuMoveDiskDisk::Unused5
        }         else if str_eq(s, "unused6") {
            QemuMoveDiskDisk::Unused6
        }         else if str_eq(s, "unused7") {
            QemuMoveDiskDisk::Unused7
        }         else if str_eq(s, "unused8") {
            QemuMoveDiskDisk::Unused8
        }         else if str_eq(s, "unused9") {
            QemuMoveDiskDisk::Unused9
        }         else if str_eq(s, "unused10") {
            QemuMoveDiskDisk::Unused10
        }         else if str_eq(s, "unused11") {
            QemuMoveDiskDisk::Unused11
        }         else if str_eq(s, "unused12") {
            QemuMoveDiskDisk::Unused12
        }         else if str_eq(s, "unused13") {
            QemuMoveDiskDisk::Unused13
        }         else if str_eq(s, "unused14") {
            QemuMoveDiskDisk::Unused14
        }         else if str_eq(s, "unused15") {
            QemuMoveDiskDisk::Unused15
        }         else if str_eq(s, "unused16") {
            QemuMoveDiskDisk::Unused16
        }         else if str_eq(s, "unused17") {
            QemuMoveDiskDisk::Unused17
        }         else if str_eq(s, "unused18") {
            QemuMoveDiskDisk::Unused18
        }         else if str_eq(s, "unused19") {
            QemuMoveDiskDisk::Unused19
        }         else if str_eq(s, "unused20") {
            QemuMoveDiskDisk::Unused20
        }         else if str_eq(s, "unused21") {
            QemuMoveDiskDisk::Unused21
        }         else if str_eq(s, "unused22") {
            QemuMoveDiskDisk::Unused22
        }         else if str_eq(s, "unused23") {
            QemuMoveDiskDisk::Unused23
        }         else if str_eq(s, "unused24") {
            QemuMoveDiskDisk::Unused24
        }         else if str_eq(s, "unused25") {
            QemuMoveDiskDisk::Unused25
        }         else if str_eq(s, "unused26") {
            QemuMoveDiskDisk::Unused26
        }         else if str_eq(s, "unused27") {
            QemuMoveDiskDisk::Unused27
        }         else if str_eq(s, "unused28") {
            QemuMoveDiskDisk::Unused28
        }         else if str_eq(s, "unused29") {
            QemuMoveDiskDisk::Unused29
        }         else if str_eq(s, "unused30") {
            QemuMoveDiskDisk::Unused30
        }         else if str_eq(s, "unused31") {
            QemuMoveDiskDisk::Unused31
        }         else if str_eq(s, "unused32") {
            QemuMoveDiskDisk::Unused32
        }         else if str_eq(s, "unused33") {
            QemuMoveDiskDisk::Unused33
        }         else if str_eq(s, "unused34") {
            QemuMoveDiskDisk::Unused34
        }         else if str_eq(s, "unused35") {
            QemuMoveDiskDisk::Unused35
        }         else if str_eq(s, "unused36") {
            QemuMoveDiskDisk::Unused36
        }         else if str_eq(s, "unused37") {
            QemuMoveDiskDisk::Unused37
        }         else if str_eq(s, "unused38") {
            QemuMoveDiskDisk::Unused38
        }         else if str_eq(s, "unused39") {
            QemuMoveDiskDisk::Unused39
        }         else if str_eq(s, "unused40") {
            QemuMoveDiskDisk::Unused40
        }         else if str_eq(s, "unused41") {
            QemuMoveDiskDisk::Unused41
        }         else if str_eq(s, "unused42") {
            QemuMoveDiskDisk::Unused42
        }         else if str_eq(s, "unused43") {
            QemuMoveDiskDisk::Unused43
        }         else if str_eq(s, "unused44") {
            QemuMoveDiskDisk::Unused44
        }         else if str_eq(s, "unused45") {
            QemuMoveDiskDisk::Unused45
        }         else if str_eq(s, "unused46") {
            QemuMoveDiskDisk::Unused46
        }         else if str_eq(s, "unused47") {
            QemuMoveDiskDisk::Unused47
        }         else if str_eq(s, "unused48") {
            QemuMoveDiskDisk::Unused48
        }         else if str_eq(s, "unused49") {
            QemuMoveDiskDisk::Unused49
        }         else if str_eq(s, "unused50") {
            QemuMoveDiskDisk::Unused50
        }         else if str_eq(s, "unused51") {
            QemuMoveDiskDisk::Unused51
        }         else if str_eq(s, "unused52") {
            QemuMoveDiskDisk::Unused52
        }         else if str_eq(s, "unused53") {
            QemuMoveDiskDisk::Unused53
        }         else if str_eq(s, "unused54") {
            QemuMoveDiskDisk::Unused54
        }         else if str_eq(s, "unused55") {
            QemuMoveDiskDisk::Unused55
        }         else if str_eq(s, "unused56") {
            QemuMoveDiskDisk::Unused56
        }         else if str_eq(s, "unused57") {
            QemuMoveDiskDisk::Unused57
        }         else if str_eq(s, "unused58") {
            QemuMoveDiskDisk::Unused58
        }         else if str_eq(s, "unused59") {
            QemuMoveDiskDisk::Unused59
        }         else if str_eq(s, "unused60") {
            QemuMoveDiskDisk::Unused60
        }         else if str_eq(s, "unused61") {
            QemuMoveDiskDisk::Unused61
        }         else if str_eq(s, "unused62") {
            QemuMoveDiskDisk::Unused62
        }         else if str_eq(s, "unused63") {
            QemuMoveDiskDisk::Unused63
        }         else if str_eq(s, "unused64") {
            QemuMoveDiskDisk::Unused64
        }         else if str_eq(s, "unused65") {
            QemuMoveDiskDisk::Unused65
        }         else if str_eq(s, "unused66") {
            QemuMoveDiskDisk::Unused66
        }         else if str_eq(s, "unused67") {
            QemuMoveDiskDisk::Unused67
        }         else if str_eq(s, "unused68") {
            QemuMoveDiskDisk::Unused68
        }         else if str_eq(s, "unused69") {
            QemuMoveDiskDisk::Unused69
        }         else if str_eq(s, "unused70") {
            QemuMoveDiskDisk::Unused70
        }         else if str_eq(s, "unused71") {
            QemuMoveDiskDisk::Unused71
        }         else if str_eq(s, "unused72") {
            QemuMoveDiskDisk::Unused72
        }         else if str_eq(s, "unused73") {
            QemuMoveDiskDisk::Unused73
        }         else if str_eq(s, "unused74") {
            QemuMoveDiskDisk::Unused74
        }         else if str_eq(s, "unused75") {
            QemuMoveDiskDisk::Unused75
        }         else if str_eq(s, "unused76") {
            QemuMoveDiskDisk::Unused76
        }         else if str_eq(s, "unused77") {
            QemuMoveDiskDisk::Unused77
        }         else if str_eq(s, "unused78") {
            QemuMoveDiskDisk::Unused78
        }         else if str_eq(s, "unused79") {
            QemuMoveDiskDisk::Unused79
        }         else if str_eq(s, "unused80") {
            QemuMoveDiskDisk::Unused80
        }         else if str_eq(s, "unused81") {
            QemuMoveDiskDisk::Unused81
        }         else if str_eq(s, "unused82") {
            QemuMoveDiskDisk::Unused82
        }         else if str_eq(s, "unused83") {
            QemuMoveDiskDisk::Unused83
        }         else if str_eq(s, "unused84") {
            QemuMoveDiskDisk::Unused84
        }         else if str_eq(s, "unused85") {
            QemuMoveDiskDisk::Unused85
        }         else if str_eq(s, "unused86") {
            QemuMoveDiskDisk::Unused86
        }         else if str_eq(s, "unused87") {
            QemuMoveDiskDisk::Unused87
        }         else if str_eq(s, "unused88") {
            QemuMoveDiskDisk::Unused88
        }         else if str_eq(s, "unused89") {
            QemuMoveDiskDisk::Unused89
        }         else if str_eq(s, "unused90") {
            QemuMoveDiskDisk::Unused90
        }         else if str_eq(s, "unused91") {
            QemuMoveDiskDisk::Unused91
        }         else if str_eq(s, "unused92") {
            QemuMoveDiskDisk::Unused92
        }         else if str_eq(s, "unused93") {
            QemuMoveDiskDisk::Unused93
        }         else if str_eq(s, "unused94") {
            QemuMoveDiskDisk::Unused94
        }         else if str_eq(s, "unused95") {
            QemuMoveDiskDisk::Unused95
        }         else if str_eq(s, "unused96") {
            QemuMoveDiskDisk::Unused96
        }         else if str_eq(s, "unused97") {
            QemuMoveDiskDisk::Unused97
        }         else if str_eq(s, "unused98") {
            QemuMoveDiskDisk::Unused98
        }         else if str_eq(s, "unused99") {
            QemuMoveDiskDisk::Unused99
        }         else if str_eq(s, "unused100") {
            QemuMoveDiskDisk::Unused100
        }         else if str_eq(s, "unused101") {
            QemuMoveDiskDisk::Unused101
        }         else if str_eq(s, "unused102") {
            QemuMoveDiskDisk::Unused102
        }         else if str_eq(s, "unused103") {
            QemuMoveDiskDisk::Unused103
        }         else if str_eq(s, "unused104") {
            QemuMoveDiskDisk::Unused104
        }         else if str_eq(s, "unused105") {
            QemuMoveDiskDisk::Unused105
        }         else if str_eq(s, "unused106") {
            QemuMoveDiskDisk::Unused106
        }         else if str_eq(s, "unused107") {
            QemuMoveDiskDisk::Unused107
        }         else if str_eq(s, "unused108") {
            QemuMoveDiskDisk::Unused108
        }         else if str_eq(s, "unused109") {
            QemuMoveDiskDisk::Unused109
        }         else if str_eq(s, "unused110") {
            QemuMoveDiskDisk::Unused110
        }         else if str_eq(s, "unused111") {
            QemuMoveDiskDisk::Unused111
        }         else if str_eq(s, "unused112") {
            QemuMoveDiskDisk::Unused112
        }         else if str_eq(s, "unused113") {
            QemuMoveDiskDisk::Unused113
        }         else if str_eq(s, "unused114") {
            QemuMoveDiskDisk::Unused114
        }         else if str_eq(s, "unused115") {
            QemuMoveDiskDisk::Unused115
        }         else if str_eq(s, "unused116") {
            QemuMoveDiskDisk::Unused116
        }         else if str_eq(s, "unused117") {
            QemuMoveDiskDisk::Unused117
        }         else if str_eq(s, "unused118") {
            QemuMoveDiskDisk::Unused118
        }         else if str_eq(s, "unused119") {
            QemuMoveDiskDisk::Unused119
        }         else if str_eq(s, "unused120") {
            QemuMoveDiskDisk::Unused120
        }         else if str_eq(s, "unused121") {
            QemuMoveDiskDisk::Unused121
        }         else if str_eq(s, "unused122") {
            QemuMoveDiskDisk::Unused122
        }         else if str_eq(s, "unused123") {
            QemuMoveDiskDisk::Unused123
        }         else if str_eq(s, "unused124") {
            QemuMoveDiskDisk::Unused124
        }         else if str_eq(s, "unused125") {
            QemuMoveDiskDisk::Unused125
        }         else if str_eq(s, "unused126") {
            QemuMoveDiskDisk::Unused126
        }         else if str_eq(s, "unused127") {
            QemuMoveDiskDisk::Unused127
        }         else if str_eq(s, "unused128") {
            QemuMoveDiskDisk::Unused128
        }         else if str_eq(s, "unused129") {
            QemuMoveDiskDisk::Unused129
        }         else if str_eq(s, "unused130") {
            QemuMoveDiskDisk::Unused130
        }         else if str_eq(s, "unused131") {
            QemuMoveDiskDisk::Unused131
        }         else if str_eq(s, "unused132") {
            QemuMoveDiskDisk::Unused132
        }         else if str_eq(s, "unused133") {
            QemuMoveDiskDisk::Unused133
        }         else if str_eq(s, "unused134") {
            QemuMoveDiskDisk::Unused134
        }         else if str_eq(s, "unused135") {
            QemuMoveDiskDisk::Unused135
        }         else if str_eq(s, "unused136") {
            QemuMoveDiskDisk::Unused136
        }         else if str_eq(s, "unused137") {
            QemuMoveDiskDisk::Unused137
        }         else if str_eq(s, "unused138") {
            QemuMoveDiskDisk::Unused138
        }         else if str_eq(s, "unused139") {
            QemuMoveDiskDisk::Unused139
        }         else if str_eq(s, "unused140") {
            QemuMoveDiskDisk::Unused140
        }         else if str_eq(s, "unused141") {
            QemuMoveDiskDisk::Unused141
        }         else if str_eq(s, "unused142") {
            QemuMoveDiskDisk::Unused142
        }         else if str_eq(s, "unused143") {
            QemuMoveDiskDisk::Unused143
        }         else if str_eq(s, "unused144") {
            QemuMoveDiskDisk::Unused144
        }         else if str_eq(s, "unused145") {
            QemuMoveDiskDisk::Unused145
        }         else if str_eq(s, "unused146") {
            QemuMoveDiskDisk::Unused146
        }         else if str_eq(s, "unused147") {
            QemuMoveDiskDisk::Unused147
        }         else if str_eq(s, "unused148") {
            QemuMoveDiskDisk::Unused148
        }         else if str_eq(s, "unused149") {
            QemuMoveDiskDisk::Unused149
        }         else if str_eq(s, "unused150") {
            QemuMoveDiskDisk::Unused150
        }         else if str_eq(s, "unused151") {
            QemuMoveDiskDisk::Unused151
        }         else if str_eq(s, "unused152") {
            QemuMoveDiskDisk::Unused152
        }         else if str_eq(s, "unused153") {
            QemuMoveDiskDisk::Unused153
        }         else if str_eq(s, "unused154") {
            QemuMoveDiskDisk::Unused154
        }         else if str_eq(s, "unused155") {
            QemuMoveDiskDisk::Unused155
        }         else if str_eq(s, "unused156") {
            QemuMoveDiskDisk::Unused156
        }         else if str_eq(s, "unused157") {
            QemuMoveDiskDisk::Unused157
        }         else if str_eq(s, "unused158") {
            QemuMoveDiskDisk::Unused158
        }         else if str_eq(s, "unused159") {
            QemuMoveDiskDisk::Unused159
        }         else if str_eq(s, "unused160") {
            QemuMoveDiskDisk::Unused160
        }         else if str_eq(s, "unused161") {
            QemuMoveDiskDisk::Unused161
        }         else if str_eq(s, "unused162") {
            QemuMoveDiskDisk::Unused162
        }         else if str_eq(s, "unused163") {
            QemuMoveDiskDisk::Unused163
        }         else if str_eq(s, "unused164") {
            QemuMoveDiskDisk::Unused164
        }         else if str_eq(s, "unused165") {
            QemuMoveDiskDisk::Unused165
        }         else if str_eq(s, "unused166") {
            QemuMoveDiskDisk::Unused166
        }         else if str_eq(s, "unused167") {
            QemuMoveDiskDisk::Unused167
        }         else if str_eq(s, "unused168") {
            QemuMoveDiskDisk::Unused168
        }         else if str_eq(s, "unused169") {
            QemuMoveDiskDisk::Unused169
        }         else if str_eq(s, "unused170") {
            QemuMoveDiskDisk::Unused170
        }         else if str_eq(s, "unused171") {
            QemuMoveDiskDisk::Unused171
        }         else if str_eq(s, "unused172") {
            QemuMoveDiskDisk::Unused172
        }         else if str_eq(s, "unused173") {
            QemuMoveDiskDisk::Unused173
        }         else if str_eq(s, "unused174") {
            QemuMoveDiskDisk::Unused174
        }         else if str_eq(s, "unused175") {
            QemuMoveDiskDisk::Unused175
        }         else if str_eq(s, "unused176") {
            QemuMoveDiskDisk::Unused176
        }         else if str_eq(s, "unused177") {
            QemuMoveDiskDisk::Unused177
        }         else if str_eq(s, "unused178") {
            QemuMoveDiskDisk::Unused178
        }         else if str_eq(s, "unused179") {
            QemuMoveDiskDisk::Unused179
        }         else if str_eq(s, "unused180") {
            QemuMoveDiskDisk::Unused180
        }         else if str_eq(s, "unused181") {
            QemuMoveDiskDisk::Unused181
        }         else if str_eq(s, "unused182") {
            QemuMoveDiskDisk::Unused182
        }         else if str_eq(s, "unused183") {
            QemuMoveDiskDisk::Unused183
        }         else if str_eq(s, "unused184") {
            QemuMoveDiskDisk::Unused184
        }         else if str_eq(s, "unused185") {
            QemuMoveDiskDisk::Unused185
        }         else if str_eq(s, "unused186") {
            QemuMoveDiskDisk::Unused186
        }         else if str_eq(s, "unused187") {
            QemuMoveDiskDisk::Unused187
        }         else if str_eq(s, "unused188") {
            QemuMoveDiskDisk::Unused188
        }         else if str_eq(s, "unused189") {
            QemuMoveDiskDisk::Unused189
        }         else if str_eq(s, "unused190") {
            QemuMoveDiskDisk::Unused190
        }         else if str_eq(s, "unused191") {
            QemuMoveDiskDisk::Unused191
        }         else if str_eq(s, "unused192") {
            QemuMoveDiskDisk::Unused192
        }         else if str_eq(s, "unused193") {
            QemuMoveDiskDisk::Unused193
        }         else if str_eq(s, "unused194") {
            QemuMoveDiskDisk::Unused194
        }         else if str_eq(s, "unused195") {
            QemuMoveDiskDisk::Unused195
        }         else if str_eq(s, "unused196") {
            QemuMoveDiskDisk::Unused196
        }         else if str_eq(s, "unused197") {
            QemuMoveDiskDisk::Unused197
        }         else if str_eq(s, "unused198") {
            QemuMoveDiskDisk::Unused198
        }         else if str_eq(s, "unused199") {
            QemuMoveDiskDisk::Unused199
        }         else if str_eq(s, "unused200") {
            QemuMoveDiskDisk::Unused200
        }         else if str_eq(s, "unused201") {
            QemuMoveDiskDisk::Unused201
        }         else if str_eq(s, "unused202") {
            QemuMoveDiskDisk::Unused202
        }         else if str_eq(s, "unused203") {
            QemuMoveDiskDisk::Unused203
        }         else if str_eq(s, "unused204") {
            QemuMoveDiskDisk::Unused204
        }         else if str_eq(s, "unused205") {
            QemuMoveDiskDisk::Unused205
        }         else if str_eq(s, "unused206") {
            QemuMoveDiskDisk::Unused206
        }         else if str_eq(s, "unused207") {
            QemuMoveDiskDisk::Unused207
        }         else if str_eq(s, "unused208") {
            QemuMoveDiskDisk::Unused208
        }         else if str_eq(s, "unused209") {
            QemuMoveDiskDisk::Unused209
        }         else if str_eq(s, "unused210") {
            QemuMoveDiskDisk::Unused210
        }         else if str_eq(s, "unused211") {
            QemuMoveDiskDisk::Unused211
        }         else if str_eq(s, "unused212") {
            QemuMoveDiskDisk::Unused212
        }         else if str_eq(s, "unused213") {
            QemuMoveDiskDisk::Unused213
        }         else if str_eq(s, "unused214") {
            QemuMoveDiskDisk::Unused214
        }         else if str_eq(s, "unused215") {
            QemuMoveDiskDisk::Unused215
        }         else if str_eq(s, "unused216") {
            QemuMoveDiskDisk::Unused216
        }         else if str_eq(s, "unused217") {
            QemuMoveDiskDisk::Unused217
        }         else if str_eq(s, "unused218") {
            QemuMoveDiskDisk::Unused218
        }         else if str_eq(s, "unused219") {
            QemuMoveDiskDisk::Unused219
        }         else if str_eq(s, "unused220") {
            QemuMoveDiskDisk::Unused220
        }         else if str_eq(s, "unused221") {
            QemuMoveDiskDisk::Unused221
        }         else if str_eq(s, "unused222") {
            QemuMoveDiskDisk::Unused222
        }         else if str_eq(s, "unused223") {
            QemuMoveDiskDisk::Unused223
        }         else if str_eq(s, "unused224") {
            QemuMoveDiskDisk::Unused224
        }         else if str_eq(s, "unused225") {
            QemuMoveDiskDisk::Unused225
        }         else if str_eq(s, "unused226") {
            QemuMoveDiskDisk::Unused226
        }         else if str_eq(s, "unused227") {
            QemuMoveDiskDisk::Unused227
        }         else if str_eq(s, "unused228") {
            QemuMoveDiskDisk::Unused228
        }         else if str_eq(s, "unused229") {
            QemuMoveDiskDisk::Unused229
        }         else if str_eq(s, "unused230") {
            QemuMoveDiskDisk::Unused230
        }         else if str_eq(s, "unused231") {
            QemuMoveDiskDisk::Unused231
        }         else if str_eq(s, "unused232") {
            QemuMoveDiskDisk::Unused232
        }         else if str_eq(s, "unused233") {
            QemuMoveDiskDisk::Unused233
        }         else if str_eq(s, "unused234") {
            QemuMoveDiskDisk::Unused234
        }         else if str_eq(s, "unused235") {
            QemuMoveDiskDisk::Unused235
        }         else if str_eq(s, "unused236") {
            QemuMoveDiskDisk::Unused236
        }         else if str_eq(s, "unused237") {
            QemuMoveDiskDisk::Unused237
        }         else if str_eq(s, "unused238") {
            QemuMoveDiskDisk::Unused238
        }         else if str_eq(s, "unused239") {
            QemuMoveDiskDisk::Unused239
        }         else if str_eq(s, "unused240") {
            QemuMoveDiskDisk::Unused240
        }         else if str_eq(s, "unused241") {
            QemuMoveDiskDisk::Unused241
        }         else if str_eq(s, "unused242") {
            QemuMoveDiskDisk::Unused242
        }         else if str_eq(s, "unused243") {
            QemuMoveDiskDisk::Unused243
        }         else if str_eq(s, "unused244") {
            QemuMoveDiskDisk::Unused244
        }         else if str_eq(s, "unused245") {
            QemuMoveDiskDisk::Unused245
        }         else if str_eq(s, "unused246") {
            QemuMoveDiskDisk::Unused246
        }         else if str_eq(s, "unused247") {
            QemuMoveDiskDisk::Unused247
        }         else if str_eq(s, "unused248") {
            QemuMoveDiskDisk::Unused248
        }         else if str_eq(s, "unused249") {
            QemuMoveDiskDisk::Unused249
        }         else if str_eq(s, "unused250") {
            QemuMoveDiskDisk::Unused250
        }         else if str_eq(s, "unused251") {
            QemuMoveDiskDisk::Unused251
        }         else if str_eq(s, "unused252") {
            QemuMoveDiskDisk::Unused252
        }         else if str_eq(s, "unused253") {
            QemuMoveDiskDisk::Unused253
        }         else if str_eq(s, "unused254") {
            QemuMoveDiskDisk::Unused254
        }         else if str_eq(s, "unused255") {
            QemuMoveDiskDisk::Unused255
        } else {
            QemuMoveDiskDisk::UnknownEnumValue(String::from_str(s))
        }
    }

    /// Each known value from `Ide0` to `Scsi15` goes with the name the API uses for
    /// it, such as `ide0` for `Ide0`: `to_string` writes that name and
    /// `from_name` reads it as that value.
    pub proof fn lemma_api_names_0()
        ensures
            QemuMoveDiskDisk::Ide0.name() == "ide0"@,
            Self::parses_to("ide0"@, QemuMoveDiskDisk::Ide0),
            QemuMoveDiskDisk::Ide1.name() == "ide1"@,
            Self::parses_to("ide1"@, QemuMoveDiskDisk::Ide1),
            QemuMoveDiskDisk::Ide2.name() == "ide2"@,
            Self::parses_to("ide2"@, QemuMoveDiskDisk::Ide2),
            QemuMoveDiskDisk::Ide3.name() == "ide3"@,
            Self::parses_to("ide3"@, QemuMoveDiskDisk::Ide3),
            QemuMoveDiskDisk::Scsi0.name() == "scsi0"@,
            Self::parses_to("scsi0"@, QemuMoveDiskDisk::Scsi0),
            QemuMoveDiskDisk::Scsi1.name() == "scsi1"@,
            Self::parses_to("scsi1"@, QemuMoveDiskDisk::Scsi1),
            QemuMoveDiskDisk::Scsi2.name() == "scsi2"@,
            Self::parses_to("scsi2"@, QemuMoveDiskDisk::Scsi2),
            QemuMoveDiskDisk::Scsi3.name() == "scsi3"@,
            Self::parses_to("scsi3"@, QemuMoveDiskDisk::Scsi3),
            QemuMoveDiskDisk::Scsi4.name() == "scsi4"@,
            Self::parses_to("scsi4"@, QemuMoveDiskDisk::Scsi4),
            QemuMoveDiskDisk::Scsi5.name() == "scsi5"@,
            Self::parses_to("scsi5"@, QemuMoveDiskDisk::Scsi5),
            QemuMoveDiskDisk::Scsi6.name() == "scsi6"@,
            Self::parses_to("scsi6"@, QemuMoveDiskDisk::Scsi6),
            QemuMoveDiskDisk::Scsi7.name() == "scsi7"@,
            Self::parses_to("scsi7"@, QemuMoveDiskDisk::Scsi7),
            QemuMoveDiskDisk::Scsi8.name() == "scsi8"@,
            Self::parses_to("scsi8"@, QemuMoveDiskDisk::Scsi8),
            QemuMoveDiskDisk::Scsi9.name() == "scsi9"@,
            Self::parses_to("scsi9"@, QemuMoveDiskDisk::Scsi9),
            QemuMoveDiskDisk::Scsi10.name() == "scsi10"@,
            Self::parses_to("scsi10"@, QemuMoveDiskDisk::Scsi10),
            QemuMoveDiskDisk::Scsi11.name() == "scsi11"@,
            Self::parses_to("scsi11"@, QemuMoveDiskDisk::Scsi11),
            QemuMoveDiskDisk::Scsi12.name() == "scsi12"@,
            Self::parses_to("scsi12"@, QemuMoveDiskDisk::Scsi12),
            QemuMoveDiskDisk::Scsi13.name() == "scsi13"@,
            Self::parses_to("scsi13"@, QemuMoveDiskDisk::Scsi13),
            QemuMoveDiskDisk::Scsi14.name() == "scsi14"@,
            Self::parses_to("scsi14"@, QemuMoveDiskDisk::Scsi14),
            QemuMoveDiskDisk::Scsi15.name() == "scsi15"@,
            Self::parses_to("scsi15"@, QemuMoveDiskDisk::Scsi15),
    {
        Self::lemma_known_names_0(QemuMoveDiskDisk::Ide0);
        Self::lemma_known_names_0(QemuMoveDiskDisk::Ide1);
        Self::lemma_known_names_0(QemuMoveDiskDisk::Ide2);
        Self::lemma_known_names_0(QemuMoveDiskDisk::Ide3);
        Self::lemma_known_names_0(QemuMoveDiskDisk::Scsi0);
        Self::lemma_known_names_0(QemuMoveDiskDisk::Scsi1);
        Self::lemma_known_names_0(QemuMoveDiskDisk::Scsi2);
        Self::lemma_known_names_0(QemuMoveDiskDisk::Scsi3);
        Self::lemma_known_names_0(QemuMoveDiskDisk::Scsi4);
        Self::lemma_known_names_0(QemuMoveDiskDisk::Scsi5);
        Self::lemma_known_names_0(QemuMoveDiskDisk::Scsi6);
        Self::lemma_known_names_0(QemuMoveDiskDisk::Scsi7);
        Self::lemma_known_names_0(QemuMoveDiskDisk::Scsi8);
        Self::lemma_known_names_0(QemuMoveDiskDisk::Scsi9);
        Self::lemma_known_names_0(QemuMoveDiskDisk::Scsi10);
        Self::lemma_known_names_0(QemuMoveDiskDisk::Scsi11);
        Self::lemma_known_names_0(QemuMoveDiskDisk::Scsi12);
        Self::lemma_known_names_0(QemuMoveDiskDisk::Scsi13);
        Self::lemma_known_names_0(QemuMoveDiskDisk::Scsi14);
        Self::lemma_known_names_0(QemuMoveDiskDisk::Scsi15);
    }

    /// Each known value from `Scsi16` to `Virtio4` goes with the name the API uses for
    /// it, such as `scsi16` for `Scsi16`: `to_string` writes that name and
    /// `from_name` reads it as that value.
    pub proof fn lemma_api_names_1()
        ensures
            QemuMoveDiskDisk::Scsi16.name() == "scsi16"@,
            Self::parses_to("scsi16"@, QemuMoveDiskDisk::Scsi16),
            QemuMoveDiskDisk::Scsi17.name() == "scsi17"@,
            Self::parses_to("scsi17"@, QemuMoveDiskDisk::Scsi17),
            QemuMoveDiskDisk::Scsi18.name() == "scsi18"@,
            Self::parses_to("scsi18"@, QemuMoveDiskDisk::Scsi18),
            QemuMoveDiskDisk::Scsi19.name() == "scsi19"@,
            Self::parses_to("scsi19"@, QemuMoveDiskDisk::Scsi19),
            QemuMoveDiskDisk::Scsi20.name() == "scsi20"@,
            Self::parses_to("scsi20"@, QemuMoveDiskDisk::Scsi20),
            QemuMoveDiskDisk::Scsi21.name() == "scsi21"@,
            Self::parses_to("scsi21"@, QemuMoveDiskDisk::Scsi21),
            QemuMoveDiskDisk::Scsi22.name() == "scsi22"@,
            Self::parses_to("scsi22"@, QemuMoveDiskDisk::Scsi22),
            QemuMoveDiskDisk::Scsi23.name() == "scsi23"@,
            Self::parses_to("scsi23"@, QemuMoveDiskDisk::Scsi23),
            QemuMoveDiskDisk::Scsi24.name() == "scsi24"@,
            Self::parses_to("scsi24"@, QemuMoveDiskDisk::Scsi24),
            QemuMoveDiskDisk::Scsi25.name() == "scsi25"@,
            Self::parses_to("scsi25"@, QemuMoveDiskDisk::Scsi25),
            QemuMoveDiskDisk::Scsi26.name() == "scsi26"@,
            Self::parses_to("scsi26"@, QemuMoveDiskDisk::Scsi26),
            QemuMoveDiskDisk::Scsi27.name() == "scsi27"@,
            Self::parses_to("scsi27"@, QemuMoveDiskDisk::Scsi27),
            QemuMoveDiskDisk::Scsi28.name() == "scsi28"@,
            Self::parses_to("scsi28"@, QemuMoveDiskDisk::Scsi28),
            QemuMoveDiskDisk::Scsi29.name() == "scsi29"@,
            Self::parses_to("scsi29"@, QemuMoveDiskDisk::Scsi29),
            QemuMoveDiskDisk::Scsi30.name() == "scsi30"@,
            Self::parses_to("scsi30"@, QemuMoveDiskDisk::Scsi30),
            QemuMoveDiskDisk::Virtio0.name() == "virtio0"@,
            Self::parses_to("virtio0"@, QemuMoveDiskDisk::Virtio0),
            QemuMoveDiskDisk::Virtio1.name() == "virtio1"@,
            Self::parses_to("virtio1"@, QemuMoveDiskDisk::Virtio1),
            QemuMoveDiskDisk::Virtio2.name() == "virtio2"@,
            Self::parses_to("virtio2"@, QemuMoveDiskDisk::Virtio2),
            QemuMoveDiskDisk::Virtio3.name() == "virtio3"@,
            Self::parses_to("virtio3"@, QemuMoveDiskDisk::Virtio3),
            QemuMoveDiskDisk::Virtio4.name() == "virtio4"@,
            Self::parses_to("virtio4"@, QemuMoveDiskDisk::Virtio4),
    {
        Self::lemma_known_names_1(QemuMoveDiskDisk::Scsi16);
        Self::lemma_known_names_1(QemuMoveDiskDisk::Scsi17);
        Self::lemma_known_names_1(QemuMoveDiskDisk::Scsi18);
        Self::lemma_known_names_1(QemuMoveDiskDisk::Scsi19);
        Self::lemma_known_names_1(QemuMoveDiskDisk::Scsi20);
        Self::lemma_known_names_1(QemuMoveDiskDisk::Scsi21);
        Self::lemma_known_names_1(QemuMoveDiskDisk::Scsi22);
        Self::lemma_known_names_1(QemuMoveDiskDisk::Scsi23);
        Self::lemma_known_names_1(QemuMoveDiskDisk::Scsi24);
        Self::lemma_known_names_1(QemuMoveDiskDisk::Scsi25);
        Self::lemma_known_names_1(QemuMoveDiskDisk::Scsi26);
        Self::lemma_known_names_1(QemuMoveDiskDisk::Scsi27);
        Self::lemma_known_names_1(QemuMoveDiskDisk::Scsi28);
        Self::lemma_known_names_1(QemuMoveDiskDisk::Scsi29);
        Self::lemma_known_names_1(QemuMoveDiskDisk::Scsi30);
        Self::lemma_known_names_1(QemuMoveDiskDisk::Virtio0);
        Self::lemma_known_names_1(QemuMoveDiskDisk::Virtio1);
        Self::lemma_known_names_1(QemuMoveDiskDisk::Virtio2);
        Self::lemma_known_names_1(QemuMoveDiskDisk::Virtio3);
        Self::lemma_known_names_1(QemuMoveDiskDisk::Virtio4);
    }

    /// Each known value from `Virtio5` to `Unused0` goes with the name the API uses for
    /// it, such as `virtio5` for `Virtio5`: `to_string` writes that name and
    /// `from_name` reads it as that value.
    pub proof fn lemma_api_names_2()
        ensures
            QemuMoveDiskDisk::Virtio5.name() == "virtio5"@,
            Self::parses_to("virtio5"@, QemuMoveDiskDisk::Virtio5),
            QemuMoveDiskDisk::Virtio6.name() == "virtio6"@,
            Self::parses_to("virtio6"@, QemuMoveDiskDisk::Virtio6),
            QemuMoveDiskDisk::Virtio7.name() == "virtio7"@,
            Self::parses_to("virtio7"@, QemuMoveDiskDisk::Virtio7),
            QemuMoveDiskDisk::Virtio8.name() == "virtio8"@,
            Self::parses_to("virtio8"@, QemuMoveDiskDisk::Virtio8),
            QemuMoveDiskDisk::Virtio9.name() == "virtio9"@,
            Self::parses_to("virtio9"@, QemuMoveDiskDisk::Virtio9),
            QemuMoveDiskDisk::Virtio10.name() == "virtio10"@,
            Self::parses_to("virtio10"@, QemuMoveDiskDisk::Virtio10),
            QemuMoveDiskDisk::Virtio11.name() == "virtio11"@,
            Self::parses_to("virtio11"@, QemuMoveDiskDisk::Virtio11),
            QemuMoveDiskDisk::Virtio12.name() == "virtio12"@,
            Self::parses_to("virtio12"@, QemuMoveDiskDisk::Virtio12),
            QemuMoveDiskDisk::Virtio13.name() == "virtio13"@,
            Self::parses_to("virtio13"@, QemuMoveDiskDisk::Virtio13),
            QemuMoveDiskDisk::Virtio14.name() == "virtio14"@,
            Self::parses_to("virtio14"@, QemuMoveDiskDisk::Virtio14),
            QemuMoveDiskDisk::Virtio15.name() == "virtio15"@,
            Self::parses_to("virtio15"@, QemuMoveDiskDisk::Virtio15),
            QemuMoveDiskDisk::Sata0.name() == "sata0"@,
            Self::parses_to("sata0"@, QemuMoveDiskDisk::Sata0),
            QemuMoveDiskDisk::Sata1.name() == "sata1"@,
            Self::parses_to("sata1"@, QemuMoveDiskDisk::Sata1),
            QemuMoveDiskDisk::Sata2.name() == "sata2"@,
            Self::parses_to("sata2"@, QemuMoveDiskDisk::Sata2),
            QemuMoveDiskDisk::Sata3.name() == "sata3"@,
            Self::parses_to("sata3"@, QemuMoveDiskDisk::Sata3),
            QemuMoveDiskDisk::Sata4.name() == "sata4"@,
            Self::parses_to("sata4"@, QemuMoveDiskDisk::Sata4),
            QemuMoveDiskDisk::Sata5.name() == "sata5"@,
            Self::parses_to("sata5"@, QemuMoveDiskDisk::Sata5),
            QemuMoveDiskDisk::Efidisk0.name() == "efidisk0"@,
            Self::parses_to("efidisk0"@, QemuMoveDiskDisk::Efidisk0),
            QemuMoveDiskDisk::Tpmstate0.name() == "tpmstate0"@,
            Self::parses_to("tpmstate0"@, QemuMoveDiskDisk::Tpmstate0),
            QemuMoveDiskDisk::Unused0.name() == "unused0"@,
            Self::parses_to("unused0"@, QemuMoveDiskDisk::Unused0),
    {
        Self::lemma_known_names_2(QemuMoveDiskDisk::Virtio5);
        Self::lemma_known_names_2(QemuMoveDiskDisk::Virtio6);
        Self::lemma_known_names_2(QemuMoveDiskDisk::Virtio7);
        Self::lemma_known_names_2(QemuMoveDiskDisk::Virtio8);
        Self::lemma_known_names_2(QemuMoveDiskDisk::Virtio9);
        Self::lemma_known_names_2(QemuMoveDiskDisk::Virtio10);
        Self::lemma_known_names_2(QemuMoveDiskDisk::Virtio11);
        Self::lemma_known_names_2(QemuMoveDiskDisk::Virtio12);
        Self::lemma_known_names_2(QemuMoveDiskDisk::Virtio13);
        Self::lemma_known_names_2(QemuMoveDiskDisk::Virtio14);
        Self::lemma_known_names_2(QemuMoveDiskDisk::Virtio15);
        Self::lemma_known_names_2(QemuMoveDiskDisk::Sata0);
        Self::lemma_known_names_2(QemuMoveDiskDisk::Sata1);
        Self::lemma_known_names_2(QemuMoveDiskDisk::Sata2);
        Self::lemma_known_names_2(QemuMoveDiskDisk::Sata3);
        Self::lemma_known_names_2(QemuMoveDiskDisk::Sata4);
        Self::lemma_known_names_2(QemuMoveDiskDisk::Sata5);
        Self::lemma_known_names_2(QemuMoveDiskDisk::Efidisk0);
        Self::lemma_known_names_2(QemuMoveDiskDisk::Tpmstate0);
        Self::lemma_known_names_2(QemuMoveDiskDisk::Unused0);
    }

    /// Each known value from `Unused1` to `Unused20` goes with the name the API uses for
    /// it, such as `unused1` for `Unused1`: `to_string` writes that name and
    /// `from_name` reads it as that value.
    pub proof fn lemma_api_names_3()
        ensures
            QemuMoveDiskDisk::Unused1.name() == "unused1"@,
            Self::parses_to("unused1"@, QemuMoveDiskDisk::Unused1),
            QemuMoveDiskDisk::Unused2.name() == "unused2"@,
            Self::parses_to("unused2"@, QemuMoveDiskDisk::Unused2),
            QemuMoveDiskDisk::Unused3.name() == "unused3"@,
            Self::parses_to("unused3"@, QemuMoveDiskDisk::Unused3),
            QemuMoveDiskDisk::Unused4.name() == "unused4"@,
            Self::parses_to("unused4"@, QemuMoveDiskDisk::Unused4),
            QemuMoveDiskDisk::Unused5.name() == "unused5"@,
            Self::parses_to("unused5"@, QemuMoveDiskDisk::Unused5),
            QemuMoveDiskDisk::Unused6.name() == "unused6"@,
            Self::parses_to("unused6"@, QemuMoveDiskDisk::Unused6),
            QemuMoveDiskDisk::Unused7.name() == "unused7"@,
            Self::parses_to("unused7"@, QemuMoveDiskDisk::Unused7),
            QemuMoveDiskDisk::Unused8.name() == "unused8"@,
            Self::parses_to("unused8"@, QemuMoveDiskDisk::Unused8),
            QemuMoveDiskDisk::Unused9.name() == "unused9"@,
            Self::parses_to("unused9"@, QemuMoveDiskDisk::Unused9),
            QemuMoveDiskDisk::Unused10.name() == "unused10"@,
            Self::parses_to("unused10"@, QemuMoveDiskDisk::Unused10),
            QemuMoveDiskDisk::Unused11.name() == "unused11"@,
            Self::parses_to("unused11"@, QemuMoveDiskDisk::Unused11),
            QemuMoveDiskDisk::Unused12.name() == "unused12"@,
            Self::parses_to("unused12"@, QemuMoveDiskDisk::Unused12),
            QemuMoveDiskDisk::Unused13.name() == "unused13"@,
            Self::parses_to("unused13"@, QemuMoveDiskDisk::Unused13),
            QemuMoveDiskDisk::Unused14.name() == "unused14"@,
            Self::parses_to("unused14"@, QemuMoveDiskDisk::Unused14),
            QemuMoveDiskDisk::Unused15.name() == "unused15"@,
            Self::parses_to("unused15"@, QemuMoveDiskDisk::Unused15),
            QemuMoveDiskDisk::Unused16.name() == "unused16"@,
            Self::parses_to("unused16"@, QemuMoveDiskDisk::Unused16),
            QemuMoveDiskDisk::Unused17.name() == "unused17"@,
            Self::parses_to("unused17"@, QemuMoveDiskDisk::Unused17),
            QemuMoveDiskDisk::Unused18.name() == "unused18"@,
            Self::parses_to("unused18"@, QemuMoveDiskDisk::Unused18),
            QemuMoveDiskDisk::Unused19.name() == "unused19"@,
            Self::parses_to("unused19"@, QemuMoveDiskDisk::Unused19),
            QemuMoveDiskDisk::Unused20.name() == "unused20"@,
            Self::parses_to("unused20"@, QemuMoveDiskDisk::Unused20),
    {
        Self::lemma_known_names_3(QemuMoveDiskDisk::Unused1);
        Self::lemma_known_names_3(QemuMoveDiskDisk::Unused2);
        Self::lemma_known_names_3(QemuMoveDiskDisk::Unused3);
        Self::lemma_known_names_3(QemuMoveDiskDisk::Unused4);
        Self::lemma_known_names_3(QemuMoveDiskDisk::Unused5);
        Self::lemma_known_names_3(QemuMoveDiskDisk::Unused6);
        Self::lemma_known_names_3(QemuMoveDiskDisk::Unused7);
        Self::lemma_known_names_3(QemuMoveDiskDisk::Unused8);
        Self::lemma_known_names_3(QemuMoveDiskDisk::Unused9);
        Self::lemma_known_names_3(QemuMoveDiskDisk::Unused10);
        Self::lemma_known_names_3(QemuMoveDiskDisk::Unused11);
        Self::lemma_known_names_3(QemuMoveDiskDisk::Unused12);
        Self::lemma_known_names_3(QemuMoveDiskDisk::Unused13);
        Self::lemma_known_names_3(QemuMoveDiskDisk::Unused14);
        Self::lemma_known_names_3(QemuMoveDiskDisk::Unused15);
        Self::lemma_known_names_3(QemuMoveDiskDisk::Unused16);
        Self::lemma_known_names_3(QemuMoveDiskDisk::Unused17);
        Self::lemma_known_names_3(QemuMoveDiskDisk::Unused18);
        Self::lemma_known_names_3(QemuMoveDiskDisk::Unused19);
        Self::lemma_known_names_3(QemuMoveDiskDisk::Unused20);
    }

    /// Each known value from `Unused21` to `Unused40` goes with the name the API uses for
    /// it, such as `unused21` for `Unused21`: `to_string` writes that name and
    /// `from_name` reads it as that value.
    pub proof fn lemma_api_names_4()
        ensures
            QemuMoveDiskDisk::Unused21.name() == "unused21"@,
            Self::parses_to("unused21"@, QemuMoveDiskDisk::Unused21),
            QemuMoveDiskDisk::Unused22.name() == "unused22"@,
            Self::parses_to("unused22"@, QemuMoveDiskDisk::Unused22),
            QemuMoveDiskDisk::Unused23.name() == "unused23"@,
            Self::parses_to("unused23"@, QemuMoveDiskDisk::Unused23),
            QemuMoveDiskDisk::Unused24.name() == "unused24"@,
            Self::parses_to("unused24"@, QemuMoveDiskDisk::Unused24),
            QemuMoveDiskDisk::Unused25.name() == "unused25"@,
            Self::parses_to("unused25"@, QemuMoveDiskDisk::Unused25),
            QemuMoveDiskDisk::Unused26.name() == "unused26"@,
            Self::parses_to("unused26"@, QemuMoveDiskDisk::Unused26),
            QemuMoveDiskDisk::Unused27.name() == "unused27"@,
            Self::parses_to("unused27"@, QemuMoveDiskDisk::Unused27),
            QemuMoveDiskDisk::Unused28.name() == "unused28"@,
            Self::parses_to("unused28"@, QemuMoveDiskDisk::Unused28),
            QemuMoveDiskDisk::Unused29.name() == "unused29"@,
            Self::parses_to("unused29"@, QemuMoveDiskDisk::Unused29),
            QemuMoveDiskDisk::Unused30.name() == "unused30"@,
            Self::parses_to("unused30"@, QemuMoveDiskDisk::Unused30),
            QemuMoveDiskDisk::Unused31.name() == "unused31"@,
            Self::parses_to("unused31"@, QemuMoveDiskDisk::Unused31),
            QemuMoveDiskDisk::Unused32.name() == "unused32"@,
            Self::parses_to("unused32"@, QemuMoveDiskDisk::Unused32),
            QemuMoveDiskDisk::Unused33.name() == "unused33"@,
            Self::parses_to("unused33"@, QemuMoveDiskDisk::Unused33),
            QemuMoveDiskDisk::Unused34.name() == "unused34"@,
            Self::parses_to("unused34"@, QemuMoveDiskDisk::Unused34),
            QemuMoveDiskDisk::Unused35.name() == "unused35"@,
            Self::parses_to("unused35"@, QemuMoveDiskDisk::Unused35),
            QemuMoveDiskDisk::Unused36.name() == "unused36"@,
            Self::parses_to("unused36"@, QemuMoveDiskDisk::Unused36),
            QemuMoveDiskDisk::Unused37.name() == "unused37"@,
            Self::parses_to("unused37"@, QemuMoveDiskDisk::Unused37),
            QemuMoveDiskDisk::Unused38.name() == "unused38"@,
            Self::parses_to("unused38"@, QemuMoveDiskDisk::Unused38),
            QemuMoveDiskDisk::Unused39.name() == "unused39"@,
            Self::parses_to("unused39"@, QemuMoveDiskDisk::Unused39),
            QemuMoveDiskDisk::Unused40.name() == "unused40"@,
            Self::parses_to("unused40"@, QemuMoveDiskDisk::Unused40),
    {
        Self::lemma_known_names_4(QemuMoveDiskDisk::Unused21);
        Self::lemma_known_names_4(QemuMoveDiskDisk::Unused22);
        Self::lemma_known_names_4(QemuMoveDiskDisk::Unused23);
        Self::lemma_known_names_4(QemuMoveDiskDisk::Unused24);
        Self::lemma_known_names_4(QemuMoveDiskDisk::Unused25);
        Self::lemma_known_names_4(QemuMoveDiskDisk::Unused26);
        Self::lemma_known_names_4(QemuMoveDiskDisk::Unused27);
        Self::lemma_known_names_4(QemuMoveDiskDisk::Unused28);
        Self::lemma_known_names_4(QemuMoveDiskDisk::Unused29);
        Self::lemma_known_names_4(QemuMoveDiskDisk::Unused30);
        Self::lemma_known_names_4(QemuMoveDiskDisk::Unused31);
        Self::lemma_known_names_4(QemuMoveDiskDisk::Unused32);
        Self::lemma_known_names_4(QemuMoveDiskDisk::Unused33);
        Self::lemma_known_names_4(QemuMoveDiskDisk::Unused34);
        Self::lemma_known_names_4(QemuMoveDiskDisk::Unused35);
        Self::lemma_known_names_4(QemuMoveDiskDisk::Unused36);
        Self::lemma_known_names_4(QemuMoveDiskDisk::Unused37);
        Self::lemma_known_names_4(QemuMoveDiskDisk::Unused38);
        Self::lemma_known_names_4(QemuMoveDiskDisk::Unused39);
        Self::lemma_known_names_4(QemuMoveDiskDisk::Unused40);
    }

    /// Each known value from `Unused41` to `Unused60` goes with the name the API uses for
    /// it, such as `unused41` for `Unused41`: `to_string` writes that name and
    /// `from_name` reads it as that value.
    pub proof fn lemma_api_names_5()
        ensures
            QemuMoveDiskDisk::Unused41.name() == "unused41"@,
            Self::parses_to("unused41"@, QemuMoveDiskDisk::Unused41),
            QemuMoveDiskDisk::Unused42.name() == "unused42"@,
            Self::parses_to("unused42"@, QemuMoveDiskDisk::Unused42),
            QemuMoveDiskDisk::Unused43.name() == "unused43"@,
            Self::parses_to("unused43"@, QemuMoveDiskDisk::Unused43),
            QemuMoveDiskDisk::Unused44.name() == "unused44"@,
            Self::parses_to("unused44"@, QemuMoveDiskDisk::Unused44),
            QemuMoveDiskDisk::Unused45.name() == "unused45"@,
            Self::parses_to("unused45"@, QemuMoveDiskDisk::Unused45),
            QemuMoveDiskDisk::Unused46.name() == "unused46"@,
            Self::parses_to("unused46"@, QemuMoveDiskDisk::Unused46),
            QemuMoveDiskDisk::Unused47.name() == "unused47"@,
            Self::parses_to("unused47"@, QemuMoveDiskDisk::Unused47),
            QemuMoveDiskDisk::Unused48.name() == "unused48"@,
            Self::parses_to("unused48"@, QemuMoveDiskDisk::Unused48),
            QemuMoveDiskDisk::Unused49.name() == "unused49"@,
            Self::parses_to("unused49"@, QemuMoveDiskDisk::Unused49),
            QemuMoveDiskDisk::Unused50.name() == "unused50"@,
            Self::parses_to("unused50"@, QemuMoveDiskDisk::Unused50),
            QemuMoveDiskDisk::Unused51.name() == "unused51"@,
            Self::parses_to("unused51"@, QemuMoveDiskDisk::Unused51),
            QemuMoveDiskDisk::Unused52.name() == "unused52"@,
            Self::parses_to("unused52"@, QemuMoveDiskDisk::Unused52),
            QemuMoveDiskDisk::Unused53.name() == "unused53"@,
            Self::parses_to("unused53"@, QemuMoveDiskDisk::Unused53),
            QemuMoveDiskDisk::Unused54.name() == "unused54"@,
            Self::parses_to("unused54"@, QemuMoveDiskDisk::Unused54),
            QemuMoveDiskDisk::Unused55.name() == "unused55"@,
            Self::parses_to("unused55"@, QemuMoveDiskDisk::Unused55),
            QemuMoveDiskDisk::Unused56.name() == "unused56"@,
            Self::parses_to("unused56"@, QemuMoveDiskDisk::Unused56),
            QemuMoveDiskDisk::Unused57.name() == "unused57"@,
            Self::parses_to("unused57"@, QemuMoveDiskDisk::Unused57),
            QemuMoveDiskDisk::Unused58.name() == "unused58"@,
            Self::parses_to("unused58"@, QemuMoveDiskDisk::Unused58),
            QemuMoveDiskDisk::Unused59.name() == "unused59"@,
            Self::parses_to("unused59"@, QemuMoveDiskDisk::Unused59),
            QemuMoveDiskDisk::Unused60.name() == "unused60"@,
            Self::parses_to("unused60"@, QemuMoveDiskDisk::Unused60),
    {
        Self::lemma_known_names_5(QemuMoveDiskDisk::Unused41);
        Self::lemma_known_names_5(QemuMoveDiskDisk::Unused42);
        Self::lemma_known_names_5(QemuMoveDiskDisk::Unused43);
        Self::lemma_known_names_5(QemuMoveDiskDisk::Unused44);
        Self::lemma_known_names_5(QemuMoveDiskDisk::Unused45);
        Self::lemma_known_names_5(QemuMoveDiskDisk::Unused46);
        Self::lemma_known_names_5(QemuMoveDiskDisk::Unused47);
        Self::lemma_known_names_5(QemuMoveDiskDisk::Unused48);
        Self::lemma_known_names_5(QemuMoveDiskDisk::Unused49);
        Self::lemma_known_names_5(QemuMoveDiskDisk::Unused50);
        Self::lemma_known_names_5(QemuMoveDiskDisk::Unused51);
        Self::lemma_known_names_5(QemuMoveDiskDisk::Unused52);
        Self::lemma_known_names_5(QemuMoveDiskDisk::Unused53);
        Self::lemma_known_names_5(QemuMoveDiskDisk::Unused54);
        Self::lemma_known_names_5(QemuMoveDiskDisk::Unused55);
        Self::lemma_known_names_5(QemuMoveDiskDisk::Unused56);
        Self::lemma_known_names_5(QemuMoveDiskDisk::Unused57);
        Self::lemma_known_names_5(QemuMoveDiskDisk::Unused58);
        Self::lemma_known_names_5(QemuMoveDiskDisk::Unused59);
        Self::lemma_known_names_5(QemuMoveDiskDisk::Unused60);
    }

    /// Each known value from `Unused61` to `Unused80` goes with the name the API uses for
    /// it, such as `unused61` for `Unused61`: `to_string` writes that name and
    /// `from_name` reads it as that value.
    pub proof fn lemma_api_names_6()
        ensures
            QemuMoveDiskDisk::Unused61.name() == "unused61"@,
            Self::parses_to("unused61"@, QemuMoveDiskDisk::Unused61),
            QemuMoveDiskDisk::Unused62.name() == "unused62"@,
            Self::parses_to("unused62"@, QemuMoveDiskDisk::Unused62),
            QemuMoveDiskDisk::Unused63.name() == "unused63"@,
            Self::parses_to("unused63"@, QemuMoveDiskDisk::Unused63),
            QemuMoveDiskDisk::Unused64.name() == "unused64"@,
            Self::parses_to("unused64"@, QemuMoveDiskDisk::Unused64),
            QemuMoveDiskDisk::Unused65.name() == "unused65"@,
            Self::parses_to("unused65"@, QemuMoveDiskDisk::Unused65),
            QemuMoveDiskDisk::Unused66.name() == "unused66"@,
            Self::parses_to("unused66"@, QemuMoveDiskDisk::Unused66),
            QemuMoveDiskDisk::Unused67.name() == "unused67"@,
            Self::parses_to("unused67"@, QemuMoveDiskDisk::Unused67),
            QemuMoveDiskDisk::Unused68.name() == "unused68"@,
            Self::parses_to("unused68"@, QemuMoveDiskDisk::Unused68),
            QemuMoveDiskDisk::Unused69.name() == "unused69"@,
            Self::parses_to("unused69"@, QemuMoveDiskDisk::Unused69),
            QemuMoveDiskDisk::Unused70.name() == "unused70"@,
            Self::parses_to("unused70"@, QemuMoveDiskDisk::Unused70),
            QemuMoveDiskDisk::Unused71.name() == "unused71"@,
            Self::parses_to("unused71"@, QemuMoveDiskDisk::Unused71),
            QemuMoveDiskDisk::Unused72.name() == "unused72"@,
            Self::parses_to("unused72"@, QemuMoveDiskDisk::Unused72),
            QemuMoveDiskDisk::Unused73.name() == "unused73"@,
            Self::parses_to("unused73"@, QemuMoveDiskDisk::Unused73),
            QemuMoveDiskDisk::Unused74.name() == "unused74"@,
            Self::parses_to("unused74"@, QemuMoveDiskDisk::Unused74),
            QemuMoveDiskDisk::Unused75.name() == "unused75"@,
            Self::parses_to("unused75"@, QemuMoveDiskDisk::Unused75),
            QemuMoveDiskDisk::Unused76.name() == "unused76"@,
            Self::parses_to("unused76"@, QemuMoveDiskDisk::Unused76),
            QemuMoveDiskDisk::Unused77.name() == "unused77"@,
            Self::parses_to("unused77"@, QemuMoveDiskDisk::Unused77),
            QemuMoveDiskDisk::Unused78.name() == "unused78"@,
            Self::parses_to("unused78"@, QemuMoveDiskDisk::Unused78),
            QemuMoveDiskDisk::Unused79.name() == "unused79"@,
            Self::parses_to("unused79"@, QemuMoveDiskDisk::Unused79),
            QemuMoveDiskDisk::Unused80.name() == "unused80"@,
            Self::parses_to("unused80"@, QemuMoveDiskDisk::Unused80),
    {
        Self::lemma_known_names_6(QemuMoveDiskDisk::Unused61);
        Self::lemma_known_names_6(QemuMoveDiskDisk::Unused62);
        Self::lemma_known_names_6(QemuMoveDiskDisk::Unused63);
        Self::lemma_known_names_6(QemuMoveDiskDisk::Unused64);
        Self::lemma_known_names_6(QemuMoveDiskDisk::Unused65);
        Self::lemma_known_names_6(QemuMoveDiskDisk::Unused66);
        Self::lemma_known_names_6(QemuMoveDiskDisk::Unused67);
        Self::lemma_known_names_6(QemuMoveDiskDisk::Unused68);
        Self::lemma_known_names_6(QemuMoveDiskDisk::Unused69);
        Self::lemma_known_names_6(QemuMoveDiskDisk::Unused70);
        Self::lemma_known_names_6(QemuMoveDiskDisk::Unused71);
        Self::lemma_known_names_6(QemuMoveDiskDisk::Unused72);
        Self::lemma_known_names_6(QemuMoveDiskDisk::Unused73);
        Self::lemma_known_names_6(QemuMoveDiskDisk::Unused74);
        Self::lemma_known_names_6(QemuMoveDiskDisk::Unused75);
        Self::lemma_known_names_6(QemuMoveDiskDisk::Unused76);
        Self::lemma_known_names_6(QemuMoveDiskDisk::Unused77);
        Self::lemma_known_names_6(QemuMoveDiskDisk::Unused78);
        Self::lemma_known_names_6(QemuMoveDiskDisk::Unused79);
        Self::lemma_known_names_6(QemuMoveDiskDisk::Unused80);
    }

    /// Each known value from `Unused81` to `Unused100` goes with the name the API uses for
    /// it, such as `unused81` for `Unused81`: `to_string` writes that name and
    /// `from_name` reads it as that value.
    pub proof fn lemma_api_names_7()
        ensures
            QemuMoveDiskDisk::Unused81.name() == "unused81"@,
            Self::parses_to("unused81"@, QemuMoveDiskDisk::Unused81),
            QemuMoveDiskDisk::Unused82.name() == "unused82"@,
            Self::parses_to("unused82"@, QemuMoveDiskDisk::Unused82),
            QemuMoveDiskDisk::Unused83.name() == "unused83"@,
            Self::parses_to("unused83"@, QemuMoveDiskDisk::Unused83),
            QemuMoveDiskDisk::Unused84.name() == "unused84"@,
            Self::parses_to("unused84"@, QemuMoveDiskDisk::Unused84),
            QemuMoveDiskDisk::Unused85.name() == "unused85"@,
            Self::parses_to("unused85"@, QemuMoveDiskDisk::Unused85),
            QemuMoveDiskDisk::Unused86.name() == "unused86"@,
            Self::parses_to("unused86"@, QemuMoveDiskDisk::Unused86),
            QemuMoveDiskDisk::Unused87.name() == "unused87"@,
            Self::parses_to("unused87"@, QemuMoveDiskDisk::Unused87),
            QemuMoveDiskDisk::Unused88.name() == "unused88"@,
            Self::parses_to("unused88"@, QemuMoveDiskDisk::Unused88),
            QemuMoveDiskDisk::Unused89.name() == "unused89"@,
            Self::parses_to("unused89"@, QemuMoveDiskDisk::Unused89),
            QemuMoveDiskDisk::Unused90.name() == "unused90"@,
            Self::parses_to("unused90"@, QemuMoveDiskDisk::Unused90),
            QemuMoveDiskDisk::Unused91.name() == "unused91"@,
            Self::parses_to("unused91"@, QemuMoveDiskDisk::Unused91),
            QemuMoveDiskDisk::Unused92.name() == "unused92"@,
            Self::parses_to("unused92"@, QemuMoveDiskDisk::Unused92),
            QemuMoveDiskDisk::Unused93.name() == "unused93"@,
            Self::parses_to("unused93"@, QemuMoveDiskDisk::Unused93),
            QemuMoveDiskDisk::Unused94.name() == "unused94"@,
            Self::parses_to("unused94"@, QemuMoveDiskDisk::Unused94),
            QemuMoveDiskDisk::Unused95.name() == "unused95"@,
            Self::parses_to("unused95"@, QemuMoveDiskDisk::Unused95),
            QemuMoveDiskDisk::Unused96.name() == "unused96"@,
            Self::parses_to("unused96"@, QemuMoveDiskDisk::Unused96),
            QemuMoveDiskDisk::Unused97.name() == "unused97"@,
            Self::parses_to("unused97"@, QemuMoveDiskDisk::Unused97),
            QemuMoveDiskDisk::Unused98.name() == "unused98"@,
            Self::parses_to("unused98"@, QemuMoveDiskDisk::Unused98),
            QemuMoveDiskDisk::Unused99.name() == "unused99"@,
            Self::parses_to("unused99"@, QemuMoveDiskDisk::Unused99),
            QemuMoveDiskDisk::Unused100.name() == "unused100"@,
            Self::parses_to("unused100"@, QemuMoveDiskDisk::Unused100),
    {
        Self::lemma_known_names_7(QemuMoveDiskDisk::Unused81);
        Self::lemma_known_names_7(QemuMoveDiskDisk::Unused82);
        Self::lemma_known_names_7(QemuMoveDiskDisk::Unused83);
        Self::lemma_known_names_7(QemuMoveDiskDisk::Unused84);
        Self::lemma_known_names_7(QemuMoveDiskDisk::Unused85);
        Self::lemma_known_names_7(QemuMoveDiskDisk::Unused86);
        Self::lemma_known_names_7(QemuMoveDiskDisk::Unused87);
        Self::lemma_known_names_7(QemuMoveDiskDisk::Unused88);
        Self::lemma_known_names_7(QemuMoveDiskDisk::Unused89);
        Self::lemma_known_names_7(QemuMoveDiskDisk::Unused90);
        Self::lemma_known_names_7(QemuMoveDiskDisk::Unused91);
        Self::lemma_known_names_7(QemuMoveDiskDisk::Unused92);
        Self::lemma_known_names_7(QemuMoveDiskDisk::Unused93);
        Self::lemma_known_names_7(QemuMoveDiskDisk::Unused94);
        Self::lemma_known_names_7(QemuMoveDiskDisk::Unused95);
        Self::lemma_known_names_7(QemuMoveDiskDisk::Unused96);
        Self::lemma_known_names_7(QemuMoveDiskDisk::Unused97);
        Self::lemma_known_names_7(QemuMoveDiskDisk::Unused98);
        Self::lemma_known_names_7(QemuMoveDiskDisk::Unused99);
        Self::lemma_known_names_7(QemuMoveDiskDisk::Unused100);
    }

    /// Each known value from `Unused101` to `Unused120` goes with the name the API uses for
    /// it, such as `unused101` for `Unused101`: `to_string` writes that name and
    /// `from_name` reads it as that value.
    pub proof fn lemma_api_names_8()
        ensures
            QemuMoveDiskDisk::Unused101.name() == "unused101"@,
            Self::parses_to("unused101"@, QemuMoveDiskDisk::Unused101),
            QemuMoveDiskDisk::Unused102.name() == "unused102"@,
            Self::parses_to("unused102"@, QemuMoveDiskDisk::Unused102),
            QemuMoveDiskDisk::Unused103.name() == "unused103"@,
            Self::parses_to("unused103"@, QemuMoveDiskDisk::Unused103),
            QemuMoveDiskDisk::Unused104.name() == "unused104"@,
            Self::parses_to("unused104"@, QemuMoveDiskDisk::Unused104),
            QemuMoveDiskDisk::Unused105.name() == "unused105"@,
            Self::parses_to("unused105"@, QemuMoveDiskDisk::Unused105),
            QemuMoveDiskDisk::Unused106.name() == "unused106"@,
            Self::parses_to("unused106"@, QemuMoveDiskDisk::Unused106),
            QemuMoveDiskDisk::Unused107.name() == "unused107"@,
            Self::parses_to("unused107"@, QemuMoveDiskDisk::Unused107),
            QemuMoveDiskDisk::Unused108.name() == "unused108"@,
            Self::parses_to("unused108"@, QemuMoveDiskDisk::Unused108),
            QemuMoveDiskDisk::Unused109.name() == "unused109"@,
            Self::parses_to("unused109"@, QemuMoveDiskDisk::Unused109),
            QemuMoveDiskDisk::Unused110.name() == "unused110"@,
            Self::parses_to("unused110"@, QemuMoveDiskDisk::Unused110),
            QemuMoveDiskDisk::Unused111.name() == "unused111"@,
            Self::parses_to("unused111"@, QemuMoveDiskDisk::Unused111),
            QemuMoveDiskDisk::Unused112.name() == "unused112"@,
            Self::parses_to("unused112"@, QemuMoveDiskDisk::Unused112),
            QemuMoveDiskDisk::Unused113.name() == "unused113"@,
            Self::parses_to("unused113"@, QemuMoveDiskDisk::Unused113),
            QemuMoveDiskDisk::Unused114.name() == "unused114"@,
            Self::parses_to("unused114"@, QemuMoveDiskDisk::Unused114),
            QemuMoveDiskDisk::Unused115.name() == "unused115"@,
            Self::parses_to("unused115"@, QemuMoveDiskDisk::Unused115),
            QemuMoveDiskDisk::Unused116.name() == "unused116"@,
            Self::parses_to("unused116"@, QemuMoveDiskDisk::Unused116),
            QemuMoveDiskDisk::Unused117.name() == "unused117"@,
            Self::parses_to("unused117"@, QemuMoveDiskDisk::Unused117),
            QemuMoveDiskDisk::Unused118.name() == "unused118"@,
            Self::parses_to("unused118"@, QemuMoveDiskDisk::Unused118),
            QemuMoveDiskDisk::Unused119.name() == "unused119"@,
            Self::parses_to("unused119"@, QemuMoveDiskDisk::Unused119),
            QemuMoveDiskDisk::Unused120.name() == "unused120"@,
            Self::parses_to("unused120"@, QemuMoveDiskDisk::Unused120),
    {
        Self::lemma_known_names_8(QemuMoveDiskDisk::Unused101);
        Self::lemma_known_names_8(QemuMoveDiskDisk::Unused102);
        Self::lemma_known_names_8(QemuMoveDiskDisk::Unused103);
        Self::lemma_known_names_8(QemuMoveDiskDisk::Unused104);
        Self::lemma_known_names_8(QemuMoveDiskDisk::Unused105);
        Self::lemma_known_names_8(QemuMoveDiskDisk::Unused106);
        Self::lemma_known_names_8(QemuMoveDiskDisk::Unused107);
        Self::lemma_known_names_8(QemuMoveDiskDisk::Unused108);
        Self::lemma_known_names_8(QemuMoveDiskDisk::Unused109);
        Self::lemma_known_names_8(QemuMoveDiskDisk::Unused110);
        Self::lemma_known_names_8(QemuMoveDiskDisk::Unused111);
        Self::lemma_known_names_8(QemuMoveDiskDisk::Unused112);
        Self::lemma_known_names_8(QemuMoveDiskDisk::Unused113);
        Self::lemma_known_names_8(QemuMoveDiskDisk::Unused114);
        Self::lemma_known_names_8(QemuMoveDiskDisk::Unused115);
        Self::lemma_known_names_8(QemuMoveDiskDisk::Unused116);
        Self::lemma_known_names_8(QemuMoveDiskDisk::Unused117);
        Self::lemma_known_names_8(QemuMoveDiskDisk::Unused118);
        Self::lemma_known_names_8(QemuMoveDiskDisk::Unused119);
        Self::lemma_known_names_8(QemuMoveDiskDisk::Unused120);
    }

    /// Each known value from `Unused121` to `Unused140` goes with the name the API uses for
    /// it, such as `unused121` for `Unused121`: `to_string` writes that name and
    /// `from_name` reads it as that value.
    pub proof fn lemma_api_names_9()
        ensures
            QemuMoveDiskDisk::Unused121.name() == "unused121"@,
            Self::parses_to("unused121"@, QemuMoveDiskDisk::Unused121),
            QemuMoveDiskDisk::Unused122.name() == "unused122"@,
            Self::parses_to("unused122"@, QemuMoveDiskDisk::Unused122),
            QemuMoveDiskDisk::Unused123.name() == "unused123"@,
            Self::parses_to("unused123"@, QemuMoveDiskDisk::Unused123),
            QemuMoveDiskDisk::Unused124.name() == "unused124"@,
            Self::parses_to("unused124"@, QemuMoveDiskDisk::Unused124),
            QemuMoveDiskDisk::Unused125.name() == "unused125"@,
            Self::parses_to("unused125"@, QemuMoveDiskDisk::Unused125),
            QemuMoveDiskDisk::Unused126.name() == "unused126"@,
            Self::parses_to("unused126"@, QemuMoveDiskDisk::Unused126),
            QemuMoveDiskDisk::Unused127.name() == "unused127"@,
            Self::parses_to("unused127"@, QemuMoveDiskDisk::Unused127),
            QemuMoveDiskDisk::Unused128.name() == "unused128"@,
            Self::parses_to("unused128"@, QemuMoveDiskDisk::Unused128),
            QemuMoveDiskDisk::Unused129.name() == "unused129"@,
            Self::parses_to("unused129"@, QemuMoveDiskDisk::Unused129),
            QemuMoveDiskDisk::Unused130.name() == "unused130"@,
            Self::parses_to("unused130"@, QemuMoveDiskDisk::Unused130),
            QemuMoveDiskDisk::Unused131.name() == "unused131"@,
            Self::parses_to("unused131"@, QemuMoveDiskDisk::Unused131),
            QemuMoveDiskDisk::Unused132.name() == "unused132"@,
            Self::parses_to("unused132"@, QemuMoveDiskDisk::Unused132),
            QemuMoveDiskDisk::Unused133.name() == "unused133"@,
            Self::parses_to("unused133"@, QemuMoveDiskDisk::Unused133),
            QemuMoveDiskDisk::Unused134.name() == "unused134"@,
            Self::parses_to("unused134"@, QemuMoveDiskDisk::Unused134),
            QemuMoveDiskDisk::Unused135.name() == "unused135"@,
            Self::parses_to("unused135"@, QemuMoveDiskDisk::Unused135),
            QemuMoveDiskDisk::Unused136.name() == "unused136"@,
            Self::parses_to("unused136"@, QemuMoveDiskDisk::Unused136),
            QemuMoveDiskDisk::Unused137.name() == "unused137"@,
            Self::parses_to("unused137"@, QemuMoveDiskDisk::Unused137),
            QemuMoveDiskDisk::Unused138.name() == "unused138"@,
            Self::parses_to("unused138"@, QemuMoveDiskDisk::Unused138),
            QemuMoveDiskDisk::Unused139.name() == "unused139"@,
            Self::parses_to("unused139"@, QemuMoveDiskDisk::Unused139),
            QemuMoveDiskDisk::Unused140.name() == "unused140"@,
            Self::parses_to("unused140"@, QemuMoveDiskDisk::Unused140),
    {
        Self::lemma_known_names_9(QemuMoveDiskDisk::Unused121);
        Self::lemma_known_names_9(QemuMoveDiskDisk::Unused122);
        Self::lemma_known_names_9(QemuMoveDiskDisk::Unused123);
        Self::lemma_known_names_9(QemuMoveDiskDisk::Unused124);
        Self::lemma_known_names_9(QemuMoveDiskDisk::Unused125);
        Self::lemma_known_names_9(QemuMoveDiskDisk::Unused126);
        Self::lemma_known_names_9(QemuMoveDiskDisk::Unused127);
        Self::lemma_known_names_9(QemuMoveDiskDisk::Unused128);
        Self::lemma_known_names_9(QemuMoveDiskDisk::Unused129);
        Self::lemma_known_names_9(QemuMoveDiskDisk::Unused130);
        Self::lemma_known_names_9(QemuMoveDiskDisk::Unused131);
        Self::lemma_known_names_9(QemuMoveDiskDisk::Unused132);
        Self::lemma_known_names_9(QemuMoveDiskDisk::Unused133);
        Self::lemma_known_names_9(QemuMoveDiskDisk::Unused134);
        Self::lemma_known_names_9(QemuMoveDiskDisk::Unused135);
        Self::lemma_known_names_9(QemuMoveDiskDisk::Unused136);
        Self::lemma_known_names_9(QemuMoveDiskDisk::Unused137);
        Self::lemma_known_names_9(QemuMoveDiskDisk::Unused138);
        Self::lemma_known_names_9(QemuMoveDiskDisk::Unused139);
        Self::lemma_known_names_9(QemuMoveDiskDisk::Unused140);
    }

    /// Each known value from `Unused141` to `Unused160` goes with the name the API uses for
    /// it, such as `unused141` for `Unused141`: `to_string` writes that name and
    /// `from_name` reads it as that value.
    pub proof fn lemma_api_names_10()
        ensures
            QemuMoveDiskDisk::Unused141.name() == "unused141"@,
            Self::parses_to("unused141"@, QemuMoveDiskDisk::Unused141),
            QemuMoveDiskDisk::Unused142.name() == "unused142"@,
            Self::parses_to("unused142"@, QemuMoveDiskDisk::Unused142),
            QemuMoveDiskDisk::Unused143.name() == "unused143"@,
            Self::parses_to("unused143"@, QemuMoveDiskDisk::Unused143),
            QemuMoveDiskDisk::Unused144.name() == "unused144"@,
            Self::parses_to("unused144"@, QemuMoveDiskDisk::Unused144),
            QemuMoveDiskDisk::Unused145.name() == "unused145"@,
            Self::parses_to("unused145"@, QemuMoveDiskDisk::Unused145),
            QemuMoveDiskDisk::Unused146.name() == "unused146"@,
            Self::parses_to("unused146"@, QemuMoveDiskDisk::Unused146),
            QemuMoveDiskDisk::Unused147.name() == "unused147"@,
            Self::parses_to("unused147"@, QemuMoveDiskDisk::Unused147),
            QemuMoveDiskDisk::Unused148.name() == "unused148"@,
            Self::parses_to("unused148"@, QemuMoveDiskDisk::Unused148),
            QemuMoveDiskDisk::Unused149.name() == "unused149"@,
            Self::parses_to("unused149"@, QemuMoveDiskDisk::Unused149),
            QemuMoveDiskDisk::Unused150.name() == "unused150"@,
            Self::parses_to("unused150"@, QemuMoveDiskDisk::Unused150),
            QemuMoveDiskDisk::Unused151.name() == "unused151"@,
            Self::parses_to("unused151"@, QemuMoveDiskDisk::Unused151),
            QemuMoveDiskDisk::Unused152.name() == "unused152"@,
            Self::parses_to("unused152"@, QemuMoveDiskDisk::Unused152),
            QemuMoveDiskDisk::Unused153.name() == "unused153"@,
            Self::parses_to("unused153"@, QemuMoveDiskDisk::Unused153),
            QemuMoveDiskDisk::Unused154.name() == "unused154"@,
            Self::parses_to("unused154"@, QemuMoveDiskDisk::Unused154),
            QemuMoveDiskDisk::Unused155.name() == "unused155"@,
            Self::parses_to("unused155"@, QemuMoveDiskDisk::Unused155),
            QemuMoveDiskDisk::Unused156.name() == "unused156"@,
            Self::parses_to("unused156"@, QemuMoveDiskDisk::Unused156),
            QemuMoveDiskDisk::Unused157.name() == "unused157"@,
            Self::parses_to("unused157"@, QemuMoveDiskDisk::Unused157),
            QemuMoveDiskDisk::Unused158.name() == "unused158"@,
            Self::parses_to("unused158"@, QemuMoveDiskDisk::Unused158),
            QemuMoveDiskDisk::Unused159.name() == "unused159"@,
            Self::parses_to("unused159"@, QemuMoveDiskDisk::Unused159),
            QemuMoveDiskDisk::Unused160.name() == "unused160"@,
            Self::parses_to("unused160"@, QemuMoveDiskDisk::Unused160),
    {
        Self::lemma_known_names_10(QemuMoveDiskDisk::Unused141);
        Self::lemma_known_names_10(QemuMoveDiskDisk::Unused142);
        Self::lemma_known_names_10(QemuMoveDiskDisk::Unused143);
        Self::lemma_known_names_10(QemuMoveDiskDisk::Unused144);
        Self::lemma_known_names_10(QemuMoveDiskDisk::Unused145);
        Self::lemma_known_names_10(QemuMoveDiskDisk::Unused146);
        Self::lemma_known_names_10(QemuMoveDiskDisk::Unused147);
        Self::lemma_known_names_10(QemuMoveDiskDisk::Unused148);
        Self::lemma_known_names_10(QemuMoveDiskDisk::Unused149);
        Self::lemma_known_names_10(QemuMoveDiskDisk::Unused150);
        Self::lemma_known_names_10(QemuMoveDiskDisk::Unused151);
        Self::lemma_known_names_10(QemuMoveDiskDisk::Unused152);
        Self::lemma_known_names_10(QemuMoveDiskDisk::Unused153);
        Self::lemma_known_names_10(QemuMoveDiskDisk::Unused154);
        Self::lemma_known_names_10(QemuMoveDiskDisk::Unused155);
        Self::lemma_known_names_10(QemuMoveDiskDisk::Unused156);
        Self::lemma_known_names_10(QemuMoveDiskDisk::Unused157);
        Self::lemma_known_names_10(QemuMoveDiskDisk::Unused158);
        Self::lemma_known_names_10(QemuMoveDiskDisk::Unused159);
        Self::lemma_known_names_10(QemuMoveDiskDisk::Unused160);
    }

    /// Each known value from `Unused161` to `Unused180` goes with the name the API uses for
    /// it, such as `unused161` for `Unused161`: `to_string` writes that name and
    /// `from_name` reads it as that value.
    pub proof fn lemma_api_names_11()
        ensures
            QemuMoveDiskDisk::Unused161.name() == "unused161"@,
            Self::parses_to("unused161"@, QemuMoveDiskDisk::Unused161),
            QemuMoveDiskDisk::Unused162.name() == "unused162"@,
            Self::parses_to("unused162"@, QemuMoveDiskDisk::Unused162),
            QemuMoveDiskDisk::Unused163.name() == "unused163"@,
            Self::parses_to("unused163"@, QemuMoveDiskDisk::Unused163),
            QemuMoveDiskDisk::Unused164.name() == "unused164"@,
            Self::parses_to("unused164"@, QemuMoveDiskDisk::Unused164),
            QemuMoveDiskDisk::Unused165.name() == "unused165"@,
            Self::parses_to("unused165"@, QemuMoveDiskDisk::Unused165),
            QemuMoveDiskDisk::Unused166.name() == "unused166"@,
            Self::parses_to("unused166"@, QemuMoveDiskDisk::Unused166),
            QemuMoveDiskDisk::Unused167.name() == "unused167"@,
            Self::parses_to("unused167"@, QemuMoveDiskDisk::Unused167),
            QemuMoveDiskDisk::Unused168.name() == "unused168"@,
            Self::parses_to("unused168"@, QemuMoveDiskDisk::Unused168),
            QemuMoveDiskDisk::Unused169.name() == "unused169"@,
            Self::parses_to("unused169"@, QemuMoveDiskDisk::Unused169),
            QemuMoveDiskDisk::Unused170.name() == "unused170"@,
            Self::parses_to("unused170"@, QemuMoveDiskDisk::Unused170),
            QemuMoveDiskDisk::Unused171.name() == "unused171"@,
            Self::parses_to("unused171"@, QemuMoveDiskDisk::Unused171),
            QemuMoveDiskDisk::Unused172.name() == "unused172"@,
            Self::parses_to("unused172"@, QemuMoveDiskDisk::Unused172),
            QemuMoveDiskDisk::Unused173.name() == "unused173"@,
            Self::parses_to("unused173"@, QemuMoveDiskDisk::Unused173),
            QemuMoveDiskDisk::Unused174.name() == "unused174"@,
            Self::parses_to("unused174"@, QemuMoveDiskDisk::Unused174),
            QemuMoveDiskDisk::Unused175.name() == "unused175"@,
            Self::parses_to("unused175"@, QemuMoveDiskDisk::Unused175),
            QemuMoveDiskDisk::Unused176.name() == "unused176"@,
            Self::parses_to("unused176"@, QemuMoveDiskDisk::Unused176),
            QemuMoveDiskDisk::Unused177.name() == "unused177"@,
            Self::parses_to("unused177"@, QemuMoveDiskDisk::Unused177),
            QemuMoveDiskDisk::Unused178.name() == "unused178"@,
            Self::parses_to("unused178"@, QemuMoveDiskDisk::Unused178),
            QemuMoveDiskDisk::Unused179.name() == "unused179"@,
            Self::parses_to("unused179"@, QemuMoveDiskDisk::Unused179),
            QemuMoveDiskDisk::Unused180.name() == "unused180"@,
            Self::parses_to("unused180"@, QemuMoveDiskDisk::Unused180),
    {
        Self::lemma_known_names_11(QemuMoveDiskDisk::Unused161);
        Self::lemma_known_names_11(QemuMoveDiskDisk::Unused162);
        Self::lemma_known_names_11(QemuMoveDiskDisk::Unused163);
        Self::lemma_known_names_11(QemuMoveDiskDisk::Unused164);
        Self::lemma_known_names_11(QemuMoveDiskDisk::Unused165);
        Self::lemma_known_names_11(QemuMoveDiskDisk::Unused166);
        Self::lemma_known_names_11(QemuMoveDiskDisk::Unused167);
        Self::lemma_known_names_11(QemuMoveDiskDisk::Unused168);
        Self::lemma_known_names_11(QemuMoveDiskDisk::Unused169);
        Self::lemma_known_names_11(QemuMoveDiskDisk::Unused170);
        Self::lemma_known_names_11(QemuMoveDiskDisk::Unused171);
        Self::lemma_known_names_11(QemuMoveDiskDisk::Unused172);
        Self::lemma_known_names_11(QemuMoveDiskDisk::Unused173);
        Self::lemma_known_names_11(QemuMoveDiskDisk::Unused174);
        Self::lemma_known_names_11(QemuMoveDiskDisk::Unused175);
        Self::lemma_known_names_11(QemuMoveDiskDisk::Unused176);
        Self::lemma_known_names_11(QemuMoveDiskDisk::Unused177);
        Self::lemma_known_names_11(QemuMoveDiskDisk::Unused178);
        Self::lemma_known_names_11(QemuMoveDiskDisk::Unused179);
        Self::lemma_known_names_11(QemuMoveDiskDisk::Unused180);
    }

    /// Each known value from `Unused181` to `Unused200` goes with the name the API uses for
    /// it, such as `unused181` for `Unused181`: `to_string` writes that name and
    /// `from_name` reads it as that value.
    #[verifier::rlimit(60)]
    pub proof fn lemma_api_names_12()
        ensures
            QemuMoveDiskDisk::Unused181.name() == "unused181"@,
            Self::parses_to("unused181"@, QemuMoveDiskDisk::Unused181),
            QemuMoveDiskDisk::Unused182.name() == "unused182"@,
            Self::parses_to("unused182"@, QemuMoveDiskDisk::Unused182),
            QemuMoveDiskDisk::Unused183.name() == "unused183"@,
            Self::parses_to("unused183"@, QemuMoveDiskDisk::Unused183),
            QemuMoveDiskDisk::Unused184.name() == "unused184"@,
            Self::parses_to("unused184"@, QemuMoveDiskDisk::Unused184),
            QemuMoveDiskDisk::Unused185.name() == "unused185"@,
            Self::parses_to("unused185"@, QemuMoveDiskDisk::Unused185),
            QemuMoveDiskDisk::Unused186.name() == "unused186"@,
            Self::parses_to("unused186"@, QemuMoveDiskDisk::Unused186),
            QemuMoveDiskDisk::Unused187.name() == "unused187"@,
            Self::parses_to("unused187"@, QemuMoveDiskDisk::Unused187),
            QemuMoveDiskDisk::Unused188.name() == "unused188"@,
            Self::parses_to("unused188"@, QemuMoveDiskDisk::Unused188),
            QemuMoveDiskDisk::Unused189.name() == "unused189"@,
            Self::parses_to("unused189"@, QemuMoveDiskDisk::Unused189),
            QemuMoveDiskDisk::Unused190.name() == "unused190"@,
            Self::parses_to("unused190"@, QemuMoveDiskDisk::Unused190),
            QemuMoveDiskDisk::Unused191.name() == "unused191"@,
            Self::parses_to("unused191"@, QemuMoveDiskDisk::Unused191),
            QemuMoveDiskDisk::Unused192.name() == "unused192"@,
            Self::parses_to("unused192"@, QemuMoveDiskDisk::Unused192),
            QemuMoveDiskDisk::Unused193.name() == "unused193"@,
            Self::parses_to("unused193"@, QemuMoveDiskDisk::Unused193),
            QemuMoveDiskDisk::Unused194.name() == "unused194"@,
            Self::parses_to("unused194"@, QemuMoveDiskDisk::Unused194),
            QemuMoveDiskDisk::Unused195.name() == "unused195"@,
            Self::parses_to("unused195"@, QemuMoveDiskDisk::Unused195),
            QemuMoveDiskDisk::Unused196.name() == "unused196"@,
            Self::parses_to("unused196"@, QemuMoveDiskDisk::Unused196),
            QemuMoveDiskDisk::Unused197.name() == "unused197"@,
            Self::parses_to("unused197"@, QemuMoveDiskDisk::Unused197),
            QemuMoveDiskDisk::Unused198.name() == "unused198"@,
            Self::parses_to("unused198"@, QemuMoveDiskDisk::Unused198),
            QemuMoveDiskDisk::Unused199.name() == "unused199"@,
            Self::parses_to("unused199"@, QemuMoveDiskDisk::Unused199),
            QemuMoveDiskDisk::Unused200.name() == "unused200"@,
            Self::parses_to("unused200"@, QemuMoveDiskDisk::Unused200),
    {
        Self::lemma_known_names_12(QemuMoveDiskDisk::Unused181);
        Self::lemma_known_names_12(QemuMoveDiskDisk::Unused182);
        Self::lemma_known_names_12(QemuMoveDiskDisk::Unused183);
        Self::lemma_known_names_12(QemuMoveDiskDisk::Unused184);
        Self::lemma_known_names_12(QemuMoveDiskDisk::Unused185);
        Self::lemma_known_names_12(QemuMoveDiskDisk::Unused186);
        Self::lemma_known_names_12(QemuMoveDiskDisk::Unused187);
        Self::lemma_known_names_12(QemuMoveDiskDisk::Unused188);
        Self::lemma_known_names_12(QemuMoveDiskDisk::Unused189);
        Self::lemma_known_names_12(QemuMoveDiskDisk::Unused190);
        Self::lemma_known_names_12(QemuMoveDiskDisk::Unused191);
        Self::lemma_known_names_12(QemuMoveDiskDisk::Unused192);
        Self::lemma_known_names_12(QemuMoveDiskDisk::Unused193);
        Self::lemma_known_names_12(QemuMoveDiskDisk::Unused194);
        Self::lemma_known_names_12(QemuMoveDiskDisk::Unused195);
        Self::lemma_known_names_12(QemuMoveDiskDisk::Unused196);
        Self::lemma_known_names_12(QemuMoveDiskDisk::Unused197);
        Self::lemma_known_names_12(QemuMoveDiskDisk::Unused198);
        Self::lemma_known_names_12(QemuMoveDiskDisk::Unused199);
        Self::lemma_known_names_12(QemuMoveDiskDisk::Unused200);
    }

    /// Each known value from `Unused201` to `Unused220` goes with the name the API uses for
    /// it, such as `unused201` for `Unused201`: `to_string` writes that name and
    /// `from_name` reads it as that value.
    #[verifier::rlimit(60)]
    pub proof fn lemma_api_names_13()
        ensures
            QemuMoveDiskDisk::Unused201.name() == "unused201"@,
            Self::parses_to("unused201"@, QemuMoveDiskDisk::Unused201),
            QemuMoveDiskDisk::Unused202.name() == "unused202"@,
            Self::parses_to("unused202"@, QemuMoveDiskDisk::Unused202),
            QemuMoveDiskDisk::Unused203.name() == "unused203"@,
            Self::parses_to("unused203"@, QemuMoveDiskDisk::Unused203),
            QemuMoveDiskDisk::Unused204.name() == "unused204"@,
            Self::parses_to("unused204"@, QemuMoveDiskDisk::Unused204),
            QemuMoveDiskDisk::Unused205.name() == "unused205"@,
            Self::parses_to("unused205"@, QemuMoveDiskDisk::Unused205),
            QemuMoveDiskDisk::Unused206.name() == "unused206"@,
            Self::parses_to("unused206"@, QemuMoveDiskDisk::Unused206),
            QemuMoveDiskDisk::Unused207.name() == "unused207"@,
            Self::parses_to("unused207"@, QemuMoveDiskDisk::Unused207),
            QemuMoveDiskDisk::Unused208.name() == "unused208"@,
            Self::parses_to("unused208"@, QemuMoveDiskDisk::Unused208),
            QemuMoveDiskDisk::Unused209.name() == "unused209"@,
            Self::parses_to("unused209"@, QemuMoveDiskDisk::Unused209),
            QemuMoveDiskDisk::Unused210.name() == "unused210"@,
            Self::parses_to("unused210"@, QemuMoveDiskDisk::Unused210),
            QemuMoveDiskDisk::Unused211.name() == "unused211"@,
            Self::parses_to("unused211"@, QemuMoveDiskDisk::Unused211),
            QemuMoveDiskDisk::Unused212.name() == "unused212"@,
            Self::parses_to("unused212"@, QemuMoveDiskDisk::Unused212),
            QemuMoveDiskDisk::Unused213.name() == "unused213"@,
            Self::parses_to("unused213"@, QemuMoveDiskDisk::Unused213),
            QemuMoveDiskDisk::Unused214.name() == "unused214"@,
            Self::parses_to("unused214"@, QemuMoveDiskDisk::Unused214),
            QemuMoveDiskDisk::Unused215.name() == "unused215"@,
            Self::parses_to("unused215"@, QemuMoveDiskDisk::Unused215),
            QemuMoveDiskDisk::Unused216.name() == "unused216"@,
            Self::parses_to("unused216"@, QemuMoveDiskDisk::Unused216),
            QemuMoveDiskDisk::Unused217.name() == "unused217"@,
            Self::parses_to("unused217"@, QemuMoveDiskDisk::Unused217),
            QemuMoveDiskDisk::Unused218.name() == "unused218"@,
            Self::parses_to("unused218"@, QemuMoveDiskDisk::Unused218),
            QemuMoveDiskDisk::Unused219.name() == "unused219"@,
            Self::parses_to("unused219"@, QemuMoveDiskDisk::Unused219),
            QemuMoveDiskDisk::Unused220.name() == "unused220"@,
            Self::parses_to("unused220"@, QemuMoveDiskDisk::Unused220),
    {
        Self::lemma_known_names_13(QemuMoveDiskDisk::Unused201);
        Self::lemma_known_names_13(QemuMoveDiskDisk::Unused202);
        Self::lemma_known_names_13(QemuMoveDiskDisk::Unused203);
        Self::lemma_known_names_13(QemuMoveDiskDisk::Unused204);
        Self::lemma_known_names_13(QemuMoveDiskDisk::Unused205);
        Self::lemma_known_names_13(QemuMoveDiskDisk::Unused206);
        Self::lemma_known_names_13(QemuMoveDiskDisk::Unused207);
        Self::lemma_known_names_13(QemuMoveDiskDisk::Unused208);
        Self::lemma_known_names_13(QemuMoveDiskDisk::Unused209);
        Self::lemma_known_names_13(QemuMoveDiskDisk::Unused210);
        Self::lemma_known_names_13(QemuMoveDiskDisk::Unused211);
        Self::lemma_known_names_13(QemuMoveDiskDisk::Unused212);
        Self::lemma_known_names_13(QemuMoveDiskDisk::Unused213);
        Self::lemma_known_names_13(QemuMoveDiskDisk::Unused214);
        Self::lemma_known_names_13(QemuMoveDiskDisk::Unused215);
        Self::lemma_known_names_13(QemuMoveDiskDisk::Unused216);
        Self::lemma_known_names_13(QemuMoveDiskDisk::Unused217);
        Self::lemma_known_names_13(QemuMoveDiskDisk::Unused218);
        Self::lemma_known_names_13(QemuMoveDiskDisk::Unused219);
        Self::lemma_known_names_13(QemuMoveDiskDisk::Unused220);
    }

    /// Each known value from `Unused221` to `Unused240` goes with the name the API uses for
    /// it, such as `unused221` for `Unused221`: `to_string` writes that name and
    /// `from_name` reads it as that value.
    #[verifier::rlimit(60)]
    pub proof fn lemma_api_names_14()
        ensures
            QemuMoveDiskDisk::Unused221.name() == "unused221"@,
            Self::parses_to("unused221"@, QemuMoveDiskDisk::Unused221),
            QemuMoveDiskDisk::Unused222.name() == "unused222"@,
            Self::parses_to("unused222"@, QemuMoveDiskDisk::Unused222),
            QemuMoveDiskDisk::Unused223.name() == "unused223"@,
            Self::parses_to("unused223"@, QemuMoveDiskDisk::Unused223),
            QemuMoveDiskDisk::Unused224.name() == "unused224"@,
            Self::parses_to("unused224"@, QemuMoveDiskDisk::Unused224),
            QemuMoveDiskDisk::Unused225.name() == "unused225"@,
            Self::parses_to("unused225"@, QemuMoveDiskDisk::Unused225),
            QemuMoveDiskDisk::Unused226.name() == "unused226"@,
            Self::parses_to("unused226"@, QemuMoveDiskDisk::Unused226),
            QemuMoveDiskDisk::Unused227.name() == "unused227"@,
            Self::parses_to("unused227"@, QemuMoveDiskDisk::Unused227),
            QemuMoveDiskDisk::Unused228.name() == "unused228"@,
            Self::parses_to("unused228"@, QemuMoveDiskDisk::Unused228),
            QemuMoveDiskDisk::Unused229.name() == "unused229"@,
            Self::parses_to("unused229"@, QemuMoveDiskDisk::Unused229),
            QemuMoveDiskDisk::Unused230.name() == "unused230"@,
            Self::parses_to("unused230"@, QemuMoveDiskDisk::Unused230),
            QemuMoveDiskDisk::Unused231.name() == "unused231"@,
            Self::parses_to("unused231"@, QemuMoveDiskDisk::Unused231),
            QemuMoveDiskDisk::Unused232.name() == "unused232"@,
            Self::parses_to("unused232"@, QemuMoveDiskDisk::Unused232),
            QemuMoveDiskDisk::Unused233.name() == "unused233"@,
            Self::parses_to("unused233"@, QemuMoveDiskDisk::Unused233),
            QemuMoveDiskDisk::Unused234.name() == "unused234"@,
            Self::parses_to("unused234"@, QemuMoveDiskDisk::Unused234),
            QemuMoveDiskDisk::Unused235.name() == "unused235"@,
            Self::parses_to("unused235"@, QemuMoveDiskDisk::Unused235),
            QemuMoveDiskDisk::Unused236.name() == "unused236"@,
            Self::parses_to("unused236"@, QemuMoveDiskDisk::Unused236),
            QemuMoveDiskDisk::Unused237.name() == "unused237"@,
            Self::parses_to("unused237"@, QemuMoveDiskDisk::Unused237),
            QemuMoveDiskDisk::Unused238.name() == "unused238"@,
            Self::parses_to("unused238"@, QemuMoveDiskDisk::Unused238),
            QemuMoveDiskDisk::Unused239.name() == "unused239"@,
            Self::parses_to("unused239"@, QemuMoveDiskDisk::Unused239),
            QemuMoveDiskDisk::Unused240.name() == "unused240"@,
            Self::parses_to("unused240"@, QemuMoveDiskDisk::Unused240),
    {
        Self::lemma_known_names_14(QemuMoveDiskDisk::Unused221);
        Self::lemma_known_names_14(QemuMoveDiskDisk::Unused222);
        Self::lemma_known_names_14(QemuMoveDiskDisk::Unused223);
        Self::lemma_known_names_14(QemuMoveDiskDisk::Unused224);
        Self::lemma_known_names_14(QemuMoveDiskDisk::Unused225);
        Self::lemma_known_names_14(QemuMoveDiskDisk::Unused226);
        Self::lemma_known_names_14(QemuMoveDiskDisk::Unused227);
        Self::lemma_known_names_14(QemuMoveDiskDisk::Unused228);
        Self::lemma_known_names_14(QemuMoveDiskDisk::Unused229);
        Self::lemma_known_names_14(QemuMoveDiskDisk::Unused230);
        Self::lemma_known_names_14(QemuMoveDiskDisk::Unused231);
        Self::lemma_known_names_14(QemuMoveDiskDisk::Unused232);
        Self::lemma_known_names_14(QemuMoveDiskDisk::Unused233);
        Self::lemma_known_names_14(QemuMoveDiskDisk::Unused234);
        Self::lemma_known_names_14(QemuMoveDiskDisk::Unused235);
        Self::lemma_known_names_14(QemuMoveDiskDisk::Unused236);
        Self::lemma_known_names_14(QemuMoveDiskDisk::Unused237);
        Self::lemma_known_names_14(QemuMoveDiskDisk::Unused238);
        Self::lemma_known_names_14(QemuMoveDiskDisk::Unused239);
        Self::lemma_known_names_14(QemuMoveDiskDisk::Unused240);
    }

    /// Each known value from `Unused241` to `Unused255` goes with the name the API uses for
    /// it, such as `unused241` for `Unused241`: `to_string` writes that name and
    /// `from_name` reads it as that value.
    #[verifier::rlimit(60)]
    pub proof fn lemma_api_names_15()
        ensures
            QemuMoveDiskDisk::Unused241.name() == "unused241"@,
            Self::parses_to("unused241"@, QemuMoveDiskDisk::Unused241),
            QemuMoveDiskDisk::Unused242.name() == "unused242"@,
            Self::parses_to("unused242"@, QemuMoveDiskDisk::Unused242),
            QemuMoveDiskDisk::Unused243.name() == "unused243"@,
            Self::parses_to("unused243"@, QemuMoveDiskDisk::Unused243),
            QemuMoveDiskDisk::Unused244.name() == "unused244"@,
            Self::parses_to("unused244"@, QemuMoveDiskDisk::Unused244),
            QemuMoveDiskDisk::Unused245.name() == "unused245"@,
            Self::parses_to("unused245"@, QemuMoveDiskDisk::Unused245),
            QemuMoveDiskDisk::Unused246.name() == "unused246"@,
            Self::parses_to("unused246"@, QemuMoveDiskDisk::Unused246),
            QemuMoveDiskDisk::Unused247.name() == "unused247"@,
            Self::parses_to("unused247"@, QemuMoveDiskDisk::Unused247),
            QemuMoveDiskDisk::Unused248.name() == "unused248"@,
            Self::parses_to("unused248"@, QemuMoveDiskDisk::Unused248),
            QemuMoveDiskDisk::Unused249.name() == "unused249"@,
            Self::parses_to("unused249"@, QemuMoveDiskDisk::Unused249),
            QemuMoveDiskDisk::Unused250.name() == "unused250"@,
            Self::parses_to("unused250"@, QemuMoveDiskDisk::Unused250),
            QemuMoveDiskDisk::Unused251.name() == "unused251"@,
            Self::parses_to("unused251"@, QemuMoveDiskDisk::Unused251),
            QemuMoveDiskDisk::Unused252.name() == "unused252"@,
            Self::parses_to("unused252"@, QemuMoveDiskDisk::Unused252),
            QemuMoveDiskDisk::Unused253.name() == "unused253"@,
            Self::parses_to("unused253"@, QemuMoveDiskDisk::Unused253),
            QemuMoveDiskDisk::Unused254.name() == "unused254"@,
            Self::parses_to("unused254"@, QemuMoveDiskDisk::Unused254),
            QemuMoveDiskDisk::Unused255.name() == "unused255"@,
            Self::parses_to("unused255"@, QemuMoveDiskDisk::Unused255),
    {
        Self::lemma_known_names_15(QemuMoveDiskDisk::Unused241);
        Self::lemma_known_names_15(QemuMoveDiskDisk::Unused242);
        Self::lemma_known_names_15(QemuMoveDiskDisk::Unused243);
        Self::lemma_known_names_15(QemuMoveDiskDisk::Unused244);
        Self::lemma_known_names_15(QemuMoveDiskDisk::Unused245);
        Self::lemma_known_names_15(QemuMoveDiskDisk::Unused246);
        Self::lemma_known_names_15(QemuMoveDiskDisk::Unused247);
        Self::lemma_known_names_15(QemuMoveDiskDisk::Unused248);
        Self::lemma_known_names_15(QemuMoveDiskDisk::Unused249);
        Self::lemma_known_names_15(QemuMoveDiskDisk::Unused250);
        Self::lemma_known_names_15(QemuMoveDiskDisk::Unused251);
        Self::lemma_known_names_15(QemuMoveDiskDisk::Unused252);
        Self::lemma_known_names_15(QemuMoveDiskDisk::Unused253);
        Self::lemma_known_names_15(QemuMoveDiskDisk::Unused254);
        Self::lemma_known_names_15(QemuMoveDiskDisk::Unused255);
    }

    /// Writing out a value that was read gives back the name that was read.
    pub proof fn lemma_from_name_to_string(s: Seq<char>, v: Self)
        requires
            Self::parses_to(s, v),
        ensures
            v.name() == s,
    {
    }

    /// Reading the name of a value gives back the value, unless the value is an
    /// unknown one that carries the name of a known one.
    pub proof fn lemma_to_string_from_name(v: Self)
        requires
            v is UnknownEnumValue ==> Self::known(v.name()) is None,
        ensures
            Self::parses_to(v.name(), v),
    {
        match v {
            QemuMoveDiskDisk::Ide0 | QemuMoveDiskDisk::Ide1 | QemuMoveDiskDisk::Ide2 | QemuMoveDiskDisk::Ide3 | QemuMoveDiskDisk::Scsi0 | QemuMoveDiskDisk::Scsi1 | QemuMoveDiskDisk::Scsi2 | QemuMoveDiskDisk::Scsi3 | QemuMoveDiskDisk::Scsi4 | QemuMoveDiskDisk::Scsi5 | QemuMoveDiskDisk::Scsi6 | QemuMoveDiskDisk::Scsi7 | QemuMoveDiskDisk::Scsi8 | QemuMoveDiskDisk::Scsi9 | QemuMoveDiskDisk::Scsi10 | QemuMoveDiskDisk::Scsi11 | QemuMoveDiskDisk::Scsi12 | QemuMoveDiskDisk::Scsi13 | QemuMoveDiskDisk::Scsi14 | QemuMoveDiskDisk::Scsi15 => Self::lemma_known_names_0(v),
            QemuMoveDiskDisk::Scsi16 | QemuMoveDiskDisk::Scsi17 | QemuMoveDiskDisk::Scsi18 | QemuMoveDiskDisk::Scsi19 | QemuMoveDiskDisk::Scsi20 | QemuMoveDiskDisk::Scsi21 | QemuMoveDiskDisk::Scsi22 | QemuMoveDiskDisk::Scsi23 | QemuMoveDiskDisk::Scsi24 | QemuMoveDiskDisk::Scsi25 | QemuMoveDiskDisk::Scsi26 | QemuMoveDiskDisk::Scsi27 | QemuMoveDiskDisk::Scsi28 | QemuMoveDiskDisk::Scsi29 | QemuMoveDiskDisk::Scsi30 | QemuMoveDiskDisk::Virtio0 | QemuMoveDiskDisk::Virtio1 | QemuMoveDiskDisk::Virtio2 | QemuMoveDiskDisk::Virtio3 | QemuMoveDiskDisk::Virtio4 => Self::lemma_known_names_1(v),
            QemuMoveDiskDisk::Virtio5 | QemuMoveDiskDisk::Virtio6 | QemuMoveDiskDisk::Virtio7 | QemuMoveDiskDisk::Virtio8 | QemuMoveDiskDisk::Virtio9 | QemuMoveDiskDisk::Virtio10 | QemuMoveDiskDisk::Virtio11 | QemuMoveDiskDisk::Virtio12 | QemuMoveDiskDisk::Virtio13 | QemuMoveDiskDisk::Virtio14 | QemuMoveDiskDisk::Virtio15 | QemuMoveDiskDisk::Sata0 | QemuMoveDiskDisk::Sata1 | QemuMoveDiskDisk::Sata2 | QemuMoveDiskDisk::Sata3 | QemuMoveDiskDisk::Sata4 | QemuMoveDiskDisk::Sata5 | QemuMoveDiskDisk::Efidisk0 | QemuMoveDiskDisk::Tpmstate0 | QemuMoveDiskDisk::Unused0 => Self::lemma_known_names_2(v),
            QemuMoveDiskDisk::Unused1 | QemuMoveDiskDisk::Unused2 | QemuMoveDiskDisk::Unused3 | QemuMoveDiskDisk::Unused4 | QemuMoveDiskDisk::Unused5 | QemuMoveDiskDisk::Unused6 | QemuMoveDiskDisk::Unused7 | QemuMoveDiskDisk::Unused8 | QemuMoveDiskDisk::Unused9 | QemuMoveDiskDisk::Unused10 | QemuMoveDiskDisk::Unused11 | QemuMoveDiskDisk::Unused12 | QemuMoveDiskDisk::Unused13 | QemuMoveDiskDisk::Unused14 | QemuMoveDiskDisk::Unused15 | QemuMoveDiskDisk::Unused16 | QemuMoveDiskDisk::Unused17 | QemuMoveDiskDisk::Unused18 | QemuMoveDiskDisk::Unused19 | QemuMoveDiskDisk::Unused20 => Self::lemma_known_names_3(v),
            QemuMoveDiskDisk::Unused21 | QemuMoveDiskDisk::Unused22 | QemuMoveDiskDisk::Unused23 | QemuMoveDiskDisk::Unused24 | QemuMoveDiskDisk::Unused25 | QemuMoveDiskDisk::Unused26 | QemuMoveDiskDisk::Unused27 | QemuMoveDiskDisk::Unused28 | QemuMoveDiskDisk::Unused29 | QemuMoveDiskDisk::Unused30 | QemuMoveDiskDisk::Unused31 | QemuMoveDiskDisk::Unused32 | QemuMoveDiskDisk::Unused33 | QemuMoveDiskDisk::Unused34 | QemuMoveDiskDisk::Unused35 | QemuMoveDiskDisk::Unused36 | QemuMoveDiskDisk::Unused37 | QemuMoveDiskDisk::Unused38 | QemuMoveDiskDisk::Unused39 | QemuMoveDiskDisk::Unused40 => Self::lemma_known_names_4(v),
            QemuMoveDiskDisk::Unused41 | QemuMoveDiskDisk::Unused42 | QemuMoveDiskDisk::Unused43 | QemuMoveDiskDisk::Unused44 | QemuMoveDiskDisk::Unused45 | QemuMoveDiskDisk::Unused46 | QemuMoveDiskDisk::Unused47 | QemuMoveDiskDisk::Unused48 | QemuMoveDiskDisk::Unused49 | QemuMoveDiskDisk::Unused50 | QemuMoveDiskDisk::Unused51 | QemuMoveDiskDisk::Unused52 | QemuMoveDiskDisk::Unused53 | QemuMoveDiskDisk::Unused54 | QemuMoveDiskDisk::Unused55 | QemuMoveDiskDisk::Unused56 | QemuMoveDiskDisk::Unused57 | QemuMoveDiskDisk::Unused58 | QemuMoveDiskDisk::Unused59 | QemuMoveDiskDisk::Unused60 => Self::lemma_known_names_5(v),
            QemuMoveDiskDisk::Unused61 | QemuMoveDiskDisk::Unused62 | QemuMoveDiskDisk::Unused63 | QemuMoveDiskDisk::Unused64 | QemuMoveDiskDisk::Unused65 | QemuMoveDiskDisk::Unused66 | QemuMoveDiskDisk::Unused67 | QemuMoveDiskDisk::Unused68 | QemuMoveDiskDisk::Unused69 | QemuMoveDiskDisk::Unused70 | QemuMoveDiskDisk::Unused71 | QemuMoveDiskDisk::Unused72 | QemuMoveDiskDisk::Unused73 | QemuMoveDiskDisk::Unused74 | QemuMoveDiskDisk::Unused75 | QemuMoveDiskDisk::Unused76 | QemuMoveDiskDisk::Unused77 | QemuMoveDiskDisk::Unused78 | QemuMoveDiskDisk::Unused79 | QemuMoveDiskDisk::Unused80 => Self::lemma_known_names_6(v),
            QemuMoveDiskDisk::Unused81 | QemuMoveDiskDisk::Unused82 | QemuMoveDiskDisk::Unused83 | QemuMoveDiskDisk::Unused84 | QemuMoveDiskDisk::Unused85 | QemuMoveDiskDisk::Unused86 | QemuMoveDiskDisk::Unused87 | QemuMoveDiskDisk::Unused88 | QemuMoveDiskDisk::Unused89 | QemuMoveDiskDisk::Unused90 | QemuMoveDiskDisk::Unused91 | QemuMoveDiskDisk::Unused92 | QemuMoveDiskDisk::Unused93 | QemuMoveDiskDisk::Unused94 | QemuMoveDiskDisk::Unused95 | QemuMoveDiskDisk::Unused96 | QemuMoveDiskDisk::Unused97 | QemuMoveDiskDisk::Unused98 | QemuMoveDiskDisk::Unused99 | QemuMoveDiskDisk::Unused100 => Self::lemma_known_names_7(v),
            QemuMoveDiskDisk::Unused101 | QemuMoveDiskDisk::Unused102 | QemuMoveDiskDisk::Unused103 | QemuMoveDiskDisk::Unused104 | QemuMoveDiskDisk::Unused105 | QemuMoveDiskDisk::Unused106 | QemuMoveDiskDisk::Unused107 | QemuMoveDiskDisk::Unused108 | QemuMoveDiskDisk::Unused109 | QemuMoveDiskDisk::Unused110 | QemuMoveDiskDisk::Unused111 | QemuMoveDiskDisk::Unused112 | QemuMoveDiskDisk::Unused113 | QemuMoveDiskDisk::Unused114 | QemuMoveDiskDisk::Unused115 | QemuMoveDiskDisk::Unused116 | QemuMoveDiskDisk::Unused117 | QemuMoveDiskDisk::Unused118 | QemuMoveDiskDisk::Unused119 | QemuMoveDiskDisk::Unused120 => Self::lemma_known_names_8(v),
            QemuMoveDiskDisk::Unused121 | QemuMoveDiskDisk::Unused122 | QemuMoveDiskDisk::Unused123 | QemuMoveDiskDisk::Unused124 | QemuMoveDiskDisk::Unused125 | QemuMoveDiskDisk::Unused126 | QemuMoveDiskDisk::Unused127 | QemuMoveDiskDisk::Unused128 | QemuMoveDiskDisk::Unused129 | QemuMoveDiskDisk::Unused130 | QemuMoveDiskDisk::Unused131 | QemuMoveDiskDisk::Unused132 | QemuMoveDiskDisk::Unused133 | QemuMoveDiskDisk::Unused134 | QemuMoveDiskDisk::Unused135 | QemuMoveDiskDisk::Unused136 | QemuMoveDiskDisk::Unused137 | QemuMoveDiskDisk::Unused138 | QemuMoveDiskDisk::Unused139 | QemuMoveDiskDisk::Unused140 => Self::lemma_known_names_9(v),
            QemuMoveDiskDisk::Unused141 | QemuMoveDiskDisk::Unused142 | QemuMoveDiskDisk::Unused143 | QemuMoveDiskDisk::Unused144 | QemuMoveDiskDisk::Unused145 | QemuMoveDiskDisk::Unused146 | QemuMoveDiskDisk::Unused147 | QemuMoveDiskDisk::Unused148 | QemuMoveDiskDisk::Unused149 | QemuMoveDiskDisk::Unused150 | QemuMoveDiskDisk::Unused151 | QemuMoveDiskDisk::Unused152 | QemuMoveDiskDisk::Unused153 | QemuMoveDiskDisk::Unused154 | QemuMoveDiskDisk::Unused155 | QemuMoveDiskDisk::Unused156 | QemuMoveDiskDisk::Unused157 | QemuMoveDiskDisk::Unused158 | QemuMoveDiskDisk::Unused159 | QemuMoveDiskDisk::Unused160 => Self::lemma_known_names_10(v),
            QemuMoveDiskDisk::Unused161 | QemuMoveDiskDisk::Unused162 | QemuMoveDiskDisk::Unused163 | QemuMoveDiskDisk::Unused164 | QemuMoveDiskDisk::Unused165 | QemuMoveDiskDisk::Unused166 | QemuMoveDiskDisk::Unused167 | QemuMoveDiskDisk::Unused168 | QemuMoveDiskDisk::Unused169 | QemuMoveDiskDisk::Unused170 | QemuMoveDiskDisk::Unused171 | QemuMoveDiskDisk::Unused172 | QemuMoveDiskDisk::Unused173 | QemuMoveDiskDisk::Unused174 | QemuMoveDiskDisk::Unused175 | QemuMoveDiskDisk::Unused176 | QemuMoveDiskDisk::Unused177 | QemuMoveDiskDisk::Unused178 | QemuMoveDiskDisk::Unused179 | QemuMoveDiskDisk::Unused180 => Self::lemma_known_names_11(v),
            QemuMoveDiskDisk::Unused181 | QemuMoveDiskDisk::Unused182 | QemuMoveDiskDisk::Unused183 | QemuMoveDiskDisk::Unused184 | QemuMoveDiskDisk::Unused185 | QemuMoveDiskDisk::Unused186 | QemuMoveDiskDisk::Unused187 | QemuMoveDiskDisk::Unused188 | QemuMoveDiskDisk::Unused189 | QemuMoveDiskDisk::Unused190 | QemuMoveDiskDisk::Unused191 | QemuMoveDiskDisk::Unused192 | QemuMoveDiskDisk::Unused193 | QemuMoveDiskDisk::Unused194 | QemuMoveDiskDisk::Unused195 | QemuMoveDiskDisk::Unused196 | QemuMoveDiskDisk::Unused197 | QemuMoveDiskDisk::Unused198 | QemuMoveDiskDisk::Unused199 | QemuMoveDiskDisk::Unused200 => Self::lemma_known_names_12(v),
            QemuMoveDiskDisk::Unused201 | QemuMoveDiskDisk::Unused202 | QemuMoveDiskDisk::Unused203 | QemuMoveDiskDisk::Unused204 | QemuMoveDiskDisk::Unused205 | QemuMoveDiskDisk::Unused206 | QemuMoveDiskDisk::Unused207 | QemuMoveDiskDisk::Unused208 | QemuMoveDiskDisk::Unused209 | QemuMoveDiskDisk::Unused210 | QemuMoveDiskDisk::Unused211 | QemuMoveDiskDisk::Unused212 | QemuMoveDiskDisk::Unused213 | QemuMoveDiskDisk::Unused214 | QemuMoveDiskDisk::Unused215 | QemuMoveDiskDisk::Unused216 | QemuMoveDiskDisk::Unused217 | QemuMoveDiskDisk::Unused218 | QemuMoveDiskDisk::Unused219 | QemuMoveDiskDisk::Unused220 => Self::lemma_known_names_13(v),
            QemuMoveDiskDisk::Unused221 | QemuMoveDiskDisk::Unused222 | QemuMoveDiskDisk::Unused223 | QemuMoveDiskDisk::Unused224 | QemuMoveDiskDisk::Unused225 | QemuMoveDiskDisk::Unused226 | QemuMoveDiskDisk::Unused227 | QemuMoveDiskDisk::Unused228 | QemuMoveDiskDisk::Unused229 | QemuMoveDiskDisk::Unused230 | QemuMoveDiskDisk::Unused231 | QemuMoveDiskDisk::Unused232 | QemuMoveDiskDisk::Unused233 | QemuMoveDiskDisk::Unused234 | QemuMoveDiskDisk::Unused235 | QemuMoveDiskDisk::Unused236 | QemuMoveDiskDisk::Unused237 | QemuMoveDiskDisk::Unused238 | QemuMoveDiskDisk::Unused239 | QemuMoveDiskDisk::Unused240 => Self::lemma_known_names_14(v),
            QemuMoveDiskDisk::Unused241 | QemuMoveDiskDisk::Unused242 | QemuMoveDiskDisk::Unused243 | QemuMoveDiskDisk::Unused244 | QemuMoveDiskDisk::Unused245 | QemuMoveDiskDisk::Unused246 | QemuMoveDiskDisk::Unused247 | QemuMoveDiskDisk::Unused248 | QemuMoveDiskDisk::Unused249 | QemuMoveDiskDisk::Unused250 | QemuMoveDiskDisk::Unused251 | QemuMoveDiskDisk::Unused252 | QemuMoveDiskDisk::Unused253 | QemuMoveDiskDisk::Unused254 | QemuMoveDiskDisk::Unused255 => Self::lemma_known_names_15(v),
            QemuMoveDiskDisk::UnknownEnumValue(_) => {},
        }
    }

    /// The spelling of known names, character by character.
    proof fn lemma_name_spelling_0()
        ensures
            "ide0"@.len() == 4 && "ide0"@[0] == 'i' && "ide0"@[1] == 'd' && "ide0"@[2] == 'e' && "ide0"@[3] == '0',
            "ide1"@.len() == 4 && "ide1"@[0] == 'i' && "ide1"@[1] == 'd' && "ide1"@[2] == 'e' && "ide1"@[3] == '1',
            "ide2"@.len() == 4 && "ide2"@[0] == 'i' && "ide2"@[1] == 'd' && "ide2"@[2] == 'e' && "ide2"@[3] == '2',
            "ide3"@.len() == 4 && "ide3"@[0] == 'i' && "ide3"@[1] == 'd' && "ide3"@[2] == 'e' && "ide3"@[3] == '3',
            "scsi0"@.len() == 5 && "scsi0"@[0] == 's' && "scsi0"@[1] == 'c' && "scsi0"@[2] == 's' && "scsi0"@[3] == 'i' && "scsi0"@[4] == '0',
            "scsi1"@.len() == 5 && "scsi1"@[0] == 's' && "scsi1"@[1] == 'c' && "scsi1"@[2] == 's' && "scsi1"@[3] == 'i' && "scsi1"@[4] == '1',
            "scsi2"@.len() == 5 && "scsi2"@[0] == 's' && "scsi2"@[1] == 'c' && "scsi2"@[2] == 's' && "scsi2"@[3] == 'i' && "scsi2"@[4] == '2',
            "scsi3"@.len() == 5 && "scsi3"@[0] == 's' && "scsi3"@[1] == 'c' && "scsi3"@[2] == 's' && "scsi3"@[3] == 'i' && "scsi3"@[4] == '3',
            "scsi4"@.len() == 5 && "scsi4"@[0] == 's' && "scsi4"@[1] == 'c' && "scsi4"@[2] == 's' && "scsi4"@[3] == 'i' && "scsi4"@[4] == '4',
            "scsi5"@.len() == 5 && "scsi5"@[0] == 's' && "scsi5"@[1] == 'c' && "scsi5"@[2] == 's' && "scsi5"@[3] == 'i' && "scsi5"@[4] == '5',
            "scsi6"@.len() == 5 && "scsi6"@[0] == 's' && "scsi6"@[1] == 'c' && "scsi6"@[2] == 's' && "scsi6"@[3] == 'i' && "scsi6"@[4] == '6',
            "scsi7"@.len() == 5 && "scsi7"@[0] == 's' && "scsi7"@[1] == 'c' && "scsi7"@[2] == 's' && "scsi7"@[3] == 'i' && "scsi7"@[4] == '7',
            "scsi8"@.len() == 5 && "scsi8"@[0] == 's' && "scsi8"@[1] == 'c' && "scsi8"@[2] == 's' && "scsi8"@[3] == 'i' && "scsi8"@[4] == '8',
            "scsi9"@.len() == 5 && "scsi9"@[0] == 's' && "scsi9"@[1] == 'c' && "scsi9"@[2] == 's' && "scsi9"@[3] == 'i' && "scsi9"@[4] == '9',
            "scsi10"@.len() == 6 && "scsi10"@[0] == 's' && "scsi10"@[1] == 'c' && "scsi10"@[2] == 's' && "scsi10"@[3] == 'i' && "scsi10"@[4] == '1' && "scsi10"@[5] == '0',
            "scsi11"@.len() == 6 && "scsi11"@[0] == 's' && "scsi11"@[1] == 'c' && "scsi11"@[2] == 's' && "scsi11"@[3] == 'i' && "scsi11"@[4] == '1' && "scsi11"@[5] == '1',
            "scsi12"@.len() == 6 && "scsi12"@[0] == 's' && "scsi12"@[1] == 'c' && "scsi12"@[2] == 's' && "scsi12"@[3] == 'i' && "scsi12"@[4] == '1' && "scsi12"@[5] == '2',
            "scsi13"@.len() == 6 && "scsi13"@[0] == 's' && "scsi13"@[1] == 'c' && "scsi13"@[2] == 's' && "scsi13"@[3] == 'i' && "scsi13"@[4] == '1' && "scsi13"@[5] == '3',
            "scsi14"@.len() == 6 && "scsi14"@[0] == 's' && "scsi14"@[1] == 'c' && "scsi14"@[2] == 's' && "scsi14"@[3] == 'i' && "scsi14"@[4] == '1' && "scsi14"@[5] == '4',
            "scsi15"@.len() == 6 && "scsi15"@[0] == 's' && "scsi15"@[1] == 'c' && "scsi15"@[2] == 's' && "scsi15"@[3] == 'i' && "scsi15"@[4] == '1' && "scsi15"@[5] == '5',
    {
        broadcast use vstd::string::group_string_axioms;

        reveal_strlit("ide0");
        reveal_strlit("ide1");
        reveal_strlit("ide2");
        reveal_strlit("ide3");
        reveal_strlit("scsi0");
        reveal_strlit("scsi1");
        reveal_strlit("scsi2");
        reveal_strlit("scsi3");
        reveal_strlit("scsi4");
        reveal_strlit("scsi5");
        reveal_strlit("scsi6");
        reveal_strlit("scsi7");
        reveal_strlit("scsi8");
        reveal_strlit("scsi9");
        reveal_strlit("scsi10");
        reveal_strlit("scsi11");
        reveal_strlit("scsi12");
        reveal_strlit("scsi13");
        reveal_strlit("scsi14");
        reveal_strlit("scsi15");
    }

    /// The spelling of known names, character by character.
    proof fn lemma_name_spelling_1()
        ensures
            "scsi16"@.len() == 6 && "scsi16"@[0] == 's' && "scsi16"@[1] == 'c' && "scsi16"@[2] == 's' && "scsi16"@[3] == 'i' && "scsi16"@[4] == '1' && "scsi16"@[5] == '6',
            "scsi17"@.len() == 6 && "scsi17"@[0] == 's' && "scsi17"@[1] == 'c' && "scsi17"@[2] == 's' && "scsi17"@[3] == 'i' && "scsi17"@[4] == '1' && "scsi17"@[5] == '7',
            "scsi18"@.len() == 6 && "scsi18"@[0] == 's' && "scsi18"@[1] == 'c' && "scsi18"@[2] == 's' && "scsi18"@[3] == 'i' && "scsi18"@[4] == '1' && "scsi18"@[5] == '8',
            "scsi19"@.len() == 6 && "scsi19"@[0] == 's' && "scsi19"@[1] == 'c' && "scsi19"@[2] == 's' && "scsi19"@[3] == 'i' && "scsi19"@[4] == '1' && "scsi19"@[5] == '9',
            "scsi20"@.len() == 6 && "scsi20"@[0] == 's' && "scsi20"@[1] == 'c' && "scsi20"@[2] == 's' && "scsi20"@[3] == 'i' && "scsi20"@[4] == '2' && "scsi20"@[5] == '0',
            "scsi21"@.len() == 6 && "scsi21"@[0] == 's' && "scsi21"@[1] == 'c' && "scsi21"@[2] == 's' && "scsi21"@[3] == 'i' && "scsi21"@[4] == '2' && "scsi21"@[5] == '1',
            "scsi22"@.len() == 6 && "scsi22"@[0] == 's' && "scsi22"@[1] == 'c' && "scsi22"@[2] == 's' && "scsi22"@[3] == 'i' && "scsi22"@[4] == '2' && "scsi22"@[5] == '2',
            "scsi23"@.len() == 6 && "scsi23"@[0] == 's' && "scsi23"@[1] == 'c' && "scsi23"@[2] == 's' && "scsi23"@[3] == 'i' && "scsi23"@[4] == '2' && "scsi23"@[5] == '3',
            "scsi24"@.len() == 6 && "scsi24"@[0] == 's' && "scsi24"@[1] == 'c' && "scsi24"@[2] == 's' && "scsi24"@[3] == 'i' && "scsi24"@[4] == '2' && "scsi24"@[5] == '4',
            "scsi25"@.len() == 6 && "scsi25"@[0] == 's' && "scsi25"@[1] == 'c' && "scsi25"@[2] == 's' && "scsi25"@[3] == 'i' && "scsi25"@[4] == '2' && "scsi25"@[5] == '5',
            "scsi26"@.len() == 6 && "scsi26"@[0] == 's' && "scsi26"@[1] == 'c' && "scsi26"@[2] == 's' && "scsi26"@[3] == 'i' && "scsi26"@[4] == '2' && "scsi26"@[5] == '6',
            "scsi27"@.len() == 6 && "scsi27"@[0] == 's' && "scsi27"@[1] == 'c' && "scsi27"@[2] == 's' && "scsi27"@[3] == 'i' && "scsi27"@[4] == '2' && "scsi27"@[5] == '7',
            "scsi28"@.len() == 6 && "scsi28"@[0] == 's' && "scsi28"@[1] == 'c' && "scsi28"@[2] == 's' && "scsi28"@[3] == 'i' && "scsi28"@[4] == '2' && "scsi28"@[5] == '8',
            "scsi29"@.len() == 6 && "scsi29"@[0] == 's' && "scsi29"@[1] == 'c' && "scsi29"@[2] == 's' && "scsi29"@[3] == 'i' && "scsi29"@[4] == '2' && "scsi29"@[5] == '9',
            "scsi30"@.len() == 6 && "scsi30"@[0] == 's' && "scsi30"@[1] == 'c' && "scsi30"@[2] == 's' && "scsi30"@[3] == 'i' && "scsi30"@[4] == '3' && "scsi30"@[5] == '0',
            "virtio0"@.len() == 7 && "virtio0"@[0] == 'v' && "virtio0"@[1] == 'i' && "virtio0"@[2] == 'r' && "virtio0"@[3] == 't' && "virtio0"@[4] == 'i' && "virtio0"@[5] == 'o' && "virtio0"@[6] == '0',
            "virtio1"@.len() == 7 && "virtio1"@[0] == 'v' && "virtio1"@[1] == 'i' && "virtio1"@[2] == 'r' && "virtio1"@[3] == 't' && "virtio1"@[4] == 'i' && "virtio1"@[5] == 'o' && "virtio1"@[6] == '1',
            "virtio2"@.len() == 7 && "virtio2"@[0] == 'v' && "virtio2"@[1] == 'i' && "virtio2"@[2] == 'r' && "virtio2"@[3] == 't' && "virtio2"@[4] == 'i' && "virtio2"@[5] == 'o' && "virtio2"@[6] == '2',
            "virtio3"@.len() == 7 && "virtio3"@[0] == 'v' && "virtio3"@[1] == 'i' && "virtio3"@[2] == 'r' && "virtio3"@[3] == 't' && "virtio3"@[4] == 'i' && "virtio3"@[5] == 'o' && "virtio3"@[6] == '3',
            "virtio4"@.len() == 7 && "virtio4"@[0] == 'v' && "virtio4"@[1] == 'i' && "virtio4"@[2] == 'r' && "virtio4"@[3] == 't' && "virtio4"@[4] == 'i' && "virtio4"@[5] == 'o' && "virtio4"@[6] == '4',
    {
        broadcast use vstd::string::group_string_axioms;

        reveal_strlit("scsi16");
        reveal_strlit("scsi17");
        reveal_strlit("scsi18");
        reveal_strlit("scsi19");
        reveal_strlit("scsi20");
        reveal_strlit("scsi21");
        reveal_strlit("scsi22");
        reveal_strlit("scsi23");
        reveal_strlit("scsi24");
        reveal_strlit("scsi25");
        reveal_strlit("scsi26");
        reveal_strlit("scsi27");
        reveal_strlit("scsi28");
        reveal_strlit("scsi29");
        reveal_strlit("scsi30");
        reveal_strlit("virtio0");
        reveal_strlit("virtio1");
        reveal_strlit("virtio2");
        reveal_strlit("virtio3");
        reveal_strlit("virtio4");
    }

    /// The spelling of known names, character by character.
    proof fn lemma_name_spelling_2()
        ensures
            "virtio5"@.len() == 7 && "virtio5"@[0] == 'v' && "virtio5"@[1] == 'i' && "virtio5"@[2] == 'r' && "virtio5"@[3] == 't' && "virtio5"@[4] == 'i' && "virtio5"@[5] == 'o' && "virtio5"@[6] == '5',
            "virtio6"@.len() == 7 && "virtio6"@[0] == 'v' && "virtio6"@[1] == 'i' && "virtio6"@[2] == 'r' && "virtio6"@[3] == 't' && "virtio6"@[4] == 'i' && "virtio6"@[5] == 'o' && "virtio6"@[6] == '6',
            "virtio7"@.len() == 7 && "virtio7"@[0] == 'v' && "virtio7"@[1] == 'i' && "virtio7"@[2] == 'r' && "virtio7"@[3] == 't' && "virtio7"@[4] == 'i' && "virtio7"@[5] == 'o' && "virtio7"@[6] == '7',
            "virtio8"@.len() == 7 && "virtio8"@[0] == 'v' && "virtio8"@[1] == 'i' && "virtio8"@[2] == 'r' && "virtio8"@[3] == 't' && "virtio8"@[4] == 'i' && "virtio8"@[5] == 'o' && "virtio8"@[6] == '8',
            "virtio9"@.len() == 7 && "virtio9"@[0] == 'v' && "virtio9"@[1] == 'i' && "virtio9"@[2] == 'r' && "virtio9"@[3] == 't' && "virtio9"@[4] == 'i' && "virtio9"@[5] == 'o' && "virtio9"@[6] == '9',
            "virtio10"@.len() == 8 && "virtio10"@[0] == 'v' && "virtio10"@[1] == 'i' && "virtio10"@[2] == 'r' && "virtio10"@[3] == 't' && "virtio10"@[4] == 'i' && "virtio10"@[5] == 'o' && "virtio10"@[6] == '1' && "virtio10"@[7] == '0',
            "virtio11"@.len() == 8 && "virtio11"@[0] == 'v' && "virtio11"@[1] == 'i' && "virtio11"@[2] == 'r' && "virtio11"@[3] == 't' && "virtio11"@[4] == 'i' && "virtio11"@[5] == 'o' && "virtio11"@[6] == '1' && "virtio11"@[7] == '1',
            "virtio12"@.len() == 8 && "virtio12"@[0] == 'v' && "virtio12"@[1] == 'i' && "virtio12"@[2] == 'r' && "virtio12"@[3] == 't' && "virtio12"@[4] == 'i' && "virtio12"@[5] == 'o' && "virtio12"@[6] == '1' && "virtio12"@[7] == '2',
            "virtio13"@.len() == 8 && "virtio13"@[0] == 'v' && "virtio13"@[1] == 'i' && "virtio13"@[2] == 'r' && "virtio13"@[3] == 't' && "virtio13"@[4] == 'i' && "virtio13"@[5] == 'o' && "virtio13"@[6] == '1' && "virtio13"@[7] == '3',
            "virtio14"@.len() == 8 && "virtio14"@[0] == 'v' && "virtio14"@[1] == 'i' && "virtio14"@[2] == 'r' && "virtio14"@[3] == 't' && "virtio14"@[4] == 'i' && "virtio14"@[5] == 'o' && "virtio14"@[6] == '1' && "virtio14"@[7] == '4',
            "virtio15"@.len() == 8 && "virtio15"@[0] == 'v' && "virtio15"@[1] == 'i' && "virtio15"@[2] == 'r' && "virtio15"@[3] == 't' && "virtio15"@[4] == 'i' && "virtio15"@[5] == 'o' && "virtio15"@[6] == '1' && "virtio15"@[7] == '5',
            "sata0"@.len() == 5 && "sata0"@[0] == 's' && "sata0"@[1] == 'a' && "sata0"@[2] == 't' && "sata0"@[3] == 'a' && "sata0"@[4] == '0',
            "sata1"@.len() == 5 && "sata1"@[0] == 's' && "sata1"@[1] == 'a' && "sata1"@[2] == 't' && "sata1"@[3] == 'a' && "sata1"@[4] == '1',
            "sata2"@.len() == 5 && "sata2"@[0] == 's' && "sata2"@[1] == 'a' && "sata2"@[2] == 't' && "sata2"@[3] == 'a' && "sata2"@[4] == '2',
            "sata3"@.len() == 5 && "sata3"@[0] == 's' && "sata3"@[1] == 'a' && "sata3"@[2] == 't' && "sata3"@[3] == 'a' && "sata3"@[4] == '3',
            "sata4"@.len() == 5 && "sata4"@[0] == 's' && "sata4"@[1] == 'a' && "sata4"@[2] == 't' && "sata4"@[3] == 'a' && "sata4"@[4] == '4',
            "sata5"@.len() == 5 && "sata5"@[0] == 's' && "sata5"@[1] == 'a' && "sata5"@[2] == 't' && "sata5"@[3] == 'a' && "sata5"@[4] == '5',
            "efidisk0"@.len() == 8 && "efidisk0"@[0] == 'e' && "efidisk0"@[1] == 'f' && "efidisk0"@[2] == 'i' && "efidisk0"@[3] == 'd' && "efidisk0"@[4] == 'i' && "efidisk0"@[5] == 's' && "efidisk0"@[6] == 'k' && "efidisk0"@[7] == '0',
            "tpmstate0"@.len() == 9 && "tpmstate0"@[0] == 't' && "tpmstate0"@[1] == 'p' && "tpmstate0"@[2] == 'm' && "tpmstate0"@[3] == 's' && "tpmstate0"@[4] == 't' && "tpmstate0"@[5] == 'a' && "tpmstate0"@[6] == 't' && "tpmstate0"@[7] == 'e' && "tpmstate0"@[8] == '0',
            "unused0"@.len() == 7 && "unused0"@[0] == 'u' && "unused0"@[1] == 'n' && "unused0"@[2] == 'u' && "unused0"@[3] == 's' && "unused0"@[4] == 'e' && "unused0"@[5] == 'd' && "unused0"@[6] == '0',
    {
        broadcast use vstd::string::group_string_axioms;

        reveal_strlit("virtio5");
        reveal_strlit("virtio6");
        reveal_strlit("virtio7");
        reveal_strlit("virtio8");
        reveal_strlit("virtio9");
        reveal_strlit("virtio10");
        reveal_strlit("virtio11");
        reveal_strlit("virtio12");
        reveal_strlit("virtio13");
        reveal_strlit("virtio14");
        reveal_strlit("virtio15");
        reveal_strlit("sata0");
        reveal_strlit("sata1");
        reveal_strlit("sata2");
        reveal_strlit("sata3");
        reveal_strlit("sata4");
        reveal_strlit("sata5");
        reveal_strlit("efidisk0");
        reveal_strlit("tpmstate0");
        reveal_strlit("unused0");
    }

    /// The spelling of known names, character by character.
    proof fn lemma_name_spelling_3()
        ensures
            "unused1"@.len() == 7 && "unused1"@[0] == 'u' && "unused1"@[1] == 'n' && "unused1"@[2] == 'u' && "unused1"@[3] == 's' && "unused1"@[4] == 'e' && "unused1"@[5] == 'd' && "unused1"@[6] == '1',
            "unused2"@.len() == 7 && "unused2"@[0] == 'u' && "unused2"@[1] == 'n' && "unused2"@[2] == 'u' && "unused2"@[3] == 's' && "unused2"@[4] == 'e' && "unused2"@[5] == 'd' && "unused2"@[6] == '2',
            "unused3"@.len() == 7 && "unused3"@[0] == 'u' && "unused3"@[1] == 'n' && "unused3"@[2] == 'u' && "unused3"@[3] == 's' && "unused3"@[4] == 'e' && "unused3"@[5] == 'd' && "unused3"@[6] == '3',
            "unused4"@.len() == 7 && "unused4"@[0] == 'u' && "unused4"@[1] == 'n' && "unused4"@[2] == 'u' && "unused4"@[3] == 's' && "unused4"@[4] == 'e' && "unused4"@[5] == 'd' && "unused4"@[6] == '4',
            "unused5"@.len() == 7 && "unused5"@[0] == 'u' && "unused5"@[1] == 'n' && "unused5"@[2] == 'u' && "unused5"@[3] == 's' && "unused5"@[4] == 'e' && "unused5"@[5] == 'd' && "unused5"@[6] == '5',
            "unused6"@.len() == 7 && "unused6"@[0] == 'u' && "unused6"@[1] == 'n' && "unused6"@[2] == 'u' && "unused6"@[3] == 's' && "unused6"@[4] == 'e' && "unused6"@[5] == 'd' && "unused6"@[6] == '6',
            "unused7"@.len() == 7 && "unused7"@[0] == 'u' && "unused7"@[1] == 'n' && "unused7"@[2] == 'u' && "unused7"@[3] == 's' && "unused7"@[4] == 'e' && "unused7"@[5] == 'd' && "unused7"@[6] == '7',
            "unused8"@.len() == 7 && "unused8"@[0] == 'u' && "unused8"@[1] == 'n' && "unused8"@[2] == 'u' && "unused8"@[3] == 's' && "unused8"@[4] == 'e' && "unused8"@[5] == 'd' && "unused8"@[6] == '8',
            "unused9"@.len() == 7 && "unused9"@[0] == 'u' && "unused9"@[1] == 'n' && "unused9"@[2] == 'u' && "unused9"@[3] == 's' && "unused9"@[4] == 'e' && "unused9"@[5] == 'd' && "unused9"@[6] == '9',
            "unused10"@.len() == 8 && "unused10"@[0] == 'u' && "unused10"@[1] == 'n' && "unused10"@[2] == 'u' && "unused10"@[3] == 's' && "unused10"@[4] == 'e' && "unused10"@[5] == 'd' && "unused10"@[6] == '1' && "unused10"@[7] == '0',
            "unused11"@.len() == 8 && "unused11"@[0] == 'u' && "unused11"@[1] == 'n' && "unused11"@[2] == 'u' && "unused11"@[3] == 's' && "unused11"@[4] == 'e' && "unused11"@[5] == 'd' && "unused11"@[6] == '1' && "unused11"@[7] == '1',
            "unused12"@.len() == 8 && "unused12"@[0] == 'u' && "unused12"@[1] == 'n' && "unused12"@[2] == 'u' && "unused12"@[3] == 's' && "unused12"@[4] == 'e' && "unused12"@[5] == 'd' && "unused12"@[6] == '1' && "unused12"@[7] == '2',
            "unused13"@.len() == 8 && "unused13"@[0] == 'u' && "unused13"@[1] == 'n' && "unused13"@[2] == 'u' && "unused13"@[3] == 's' && "unused13"@[4] == 'e' && "unused13"@[5] == 'd' && "unused13"@[6] == '1' && "unused13"@[7] == '3',
            "unused14"@.len() == 8 && "unused14"@[0] == 'u' && "unused14"@[1] == 'n' && "unused14"@[2] == 'u' && "unused14"@[3] == 's' && "unused14"@[4] == 'e' && "unused14"@[5] == 'd' && "unused14"@[6] == '1' && "unused14"@[7] == '4',
            "unused15"@.len() == 8 && "unused15"@[0] == 'u' && "unused15"@[1] == 'n' && "unused15"@[2] == 'u' && "unused15"@[3] == 's' && "unused15"@[4] == 'e' && "unused15"@[5] == 'd' && "unused15"@[6] == '1' && "unused15"@[7] == '5',
            "unused16"@.len() == 8 && "unused16"@[0] == 'u' && "unused16"@[1] == 'n' && "unused16"@[2] == 'u' && "unused16"@[3] == 's' && "unused16"@[4] == 'e' && "unused16"@[5] == 'd' && "unused16"@[6] == '1' && "unused16"@[7] == '6',
            "unused17"@.len() == 8 && "unused17"@[0] == 'u' && "unused17"@[1] == 'n' && "unused17"@[2] == 'u' && "unused17"@[3] == 's' && "unused17"@[4] == 'e' && "unused17"@[5] == 'd' && "unused17"@[6] == '1' && "unused17"@[7] == '7',
            "unused18"@.len() == 8 && "unused18"@[0] == 'u' && "unused18"@[1] == 'n' && "unused18"@[2] == 'u' && "unused18"@[3] == 's' && "unused18"@[4] == 'e' && "unused18"@[5] == 'd' && "unused18"@[6] == '1' && "unused18"@[7] == '8',
            "unused19"@.len() == 8 && "unused19"@[0] == 'u' && "unused19"@[1] == 'n' && "unused19"@[2] == 'u' && "unused19"@[3] == 's' && "unused19"@[4] == 'e' && "unused19"@[5] == 'd' && "unused19"@[6] == '1' && "unused19"@[7] == '9',
            "unused20"@.len() == 8 && "unused20"@[0] == 'u' && "unused20"@[1] == 'n' && "unused20"@[2] == 'u' && "unused20"@[3] == 's' && "unused20"@[4] == 'e' && "unused20"@[5] == 'd' && "unused20"@[6] == '2' && "unused20"@[7] == '0',
    {
        broadcast use vstd::string::group_string_axioms;

        reveal_strlit("unused1");
        reveal_strlit("unused2");
        reveal_strlit("unused3");
        reveal_strlit("unused4");
        reveal_strlit("unused5");
        reveal_strlit("unused6");
        reveal_strlit("unused7");
        reveal_strlit("unused8");
        reveal_strlit("unused9");
        reveal_strlit("unused10");
        reveal_strlit("unused11");
        reveal_strlit("unused12");
        reveal_strlit("unused13");
        reveal_strlit("unused14");
        reveal_strlit("unused15");
        reveal_strlit("unused16");
        reveal_strlit("unused17");
        reveal_strlit("unused18");
        reveal_strlit("unused19");
        reveal_strlit("unused20");
    }

    /// The spelling of known names, character by character.
    proof fn lemma_name_spelling_4()
        ensures
            "unused21"@.len() == 8 && "unused21"@[0] == 'u' && "unused21"@[1] == 'n' && "unused21"@[2] == 'u' && "unused21"@[3] == 's' && "unused21"@[4] == 'e' && "unused21"@[5] == 'd' && "unused21"@[6] == '2' && "unused21"@[7] == '1',
            "unused22"@.len() == 8 && "unused22"@[0] == 'u' && "unused22"@[1] == 'n' && "unused22"@[2] == 'u' && "unused22"@[3] == 's' && "unused22"@[4] == 'e' && "unused22"@[5] == 'd' && "unused22"@[6] == '2' && "unused22"@[7] == '2',
            "unused23"@.len() == 8 && "unused23"@[0] == 'u' && "unused23"@[1] == 'n' && "unused23"@[2] == 'u' && "unused23"@[3] == 's' && "unused23"@[4] == 'e' && "unused23"@[5] == 'd' && "unused23"@[6] == '2' && "unused23"@[7] == '3',
            "unused24"@.len() == 8 && "unused24"@[0] == 'u' && "unused24"@[1] == 'n' && "unused24"@[2] == 'u' && "unused24"@[3] == 's' && "unused24"@[4] == 'e' && "unused24"@[5] == 'd' && "unused24"@[6] == '2' && "unused24"@[7] == '4',
            "unused25"@.len() == 8 && "unused25"@[0] == 'u' && "unused25"@[1] == 'n' && "unused25"@[2] == 'u' && "unused25"@[3] == 's' && "unused25"@[4] == 'e' && "unused25"@[5] == 'd' && "unused25"@[6] == '2' && "unused25"@[7] == '5',
            "unused26"@.len() == 8 && "unused26"@[0] == 'u' && "unused26"@[1] == 'n' && "unused26"@[2] == 'u' && "unused26"@[3] == 's' && "unused26"@[4] == 'e' && "unused26"@[5] == 'd' && "unused26"@[6] == '2' && "unused26"@[7] == '6',
            "unused27"@.len() == 8 && "unused27"@[0] == 'u' && "unused27"@[1] == 'n' && "unused27"@[2] == 'u' && "unused27"@[3] == 's' && "unused27"@[4] == 'e' && "unused27"@[5] == 'd' && "unused27"@[6] == '2' && "unused27"@[7] == '7',
            "unused28"@.len() == 8 && "unused28"@[0] == 'u' && "unused28"@[1] == 'n' && "unused28"@[2] == 'u' && "unused28"@[3] == 's' && "unused28"@[4] == 'e' && "unused28"@[5] == 'd' && "unused28"@[6] == '2' && "unused28"@[7] == '8',
            "unused29"@.len() == 8 && "unused29"@[0] == 'u' && "unused29"@[1] == 'n' && "unused29"@[2] == 'u' && "unused29"@[3] == 's' && "unused29"@[4] == 'e' && "unused29"@[5] == 'd' && "unused29"@[6] == '2' && "unused29"@[7] == '9',
            "unused30"@.len() == 8 && "unused30"@[0] == 'u' && "unused30"@[1] == 'n' && "unused30"@[2] == 'u' && "unused30"@[3] == 's' && "unused30"@[4] == 'e' && "unused30"@[5] == 'd' && "unused30"@[6] == '3' && "unused30"@[7] == '0',
            "unused31"@.len() == 8 && "unused31"@[0] == 'u' && "unused31"@[1] == 'n' && "unused31"@[2] == 'u' && "unused31"@[3] == 's' && "unused31"@[4] == 'e' && "unused31"@[5] == 'd' && "unused31"@[6] == '3' && "unused31"@[7] == '1',
            "unused32"@.len() == 8 && "unused32"@[0] == 'u' && "unused32"@[1] == 'n' && "unused32"@[2] == 'u' && "unused32"@[3] == 's' && "unused32"@[4] == 'e' && "unused32"@[5] == 'd' && "unused32"@[6] == '3' && "unused32"@[7] == '2',
            "unused33"@.len() == 8 && "unused33"@[0] == 'u' && "unused33"@[1] == 'n' && "unused33"@[2] == 'u' && "unused33"@[3] == 's' && "unused33"@[4] == 'e' && "unused33"@[5] == 'd' && "unused33"@[6] == '3' && "unused33"@[7] == '3',
            "unused34"@.len() == 8 && "unused34"@[0] == 'u' && "unused34"@[1] == 'n' && "unused34"@[2] == 'u' && "unused34"@[3] == 's' && "unused34"@[4] == 'e' && "unused34"@[5] == 'd' && "unused34"@[6] == '3' && "unused34"@[7] == '4',
            "unused35"@.len() == 8 && "unused35"@[0] == 'u' && "unused35"@[1] == 'n' && "unused35"@[2] == 'u' && "unused35"@[3] == 's' && "unused35"@[4] == 'e' && "unused35"@[5] == 'd' && "unused35"@[6] == '3' && "unused35"@[7] == '5',
            "unused36"@.len() == 8 && "unused36"@[0] == 'u' && "unused36"@[1] == 'n' && "unused36"@[2] == 'u' && "unused36"@[3] == 's' && "unused36"@[4] == 'e' && "unused36"@[5] == 'd' && "unused36"@[6] == '3' && "unused36"@[7] == '6',
            "unused37"@.len() == 8 && "unused37"@[0] == 'u' && "unused37"@[1] == 'n' && "unused37"@[2] == 'u' && "unused37"@[3] == 's' && "unused37"@[4] == 'e' && "unused37"@[5] == 'd' && "unused37"@[6] == '3' && "unused37"@[7] == '7',
            "unused38"@.len() == 8 && "unused38"@[0] == 'u' && "unused38"@[1] == 'n' && "unused38"@[2] == 'u' && "unused38"@[3] == 's' && "unused38"@[4] == 'e' && "unused38"@[5] == 'd' && "unused38"@[6] == '3' && "unused38"@[7] == '8',
            "unused39"@.len() == 8 && "unused39"@[0] == 'u' && "unused39"@[1] == 'n' && "unused39"@[2] == 'u' && "unused39"@[3] == 's' && "unused39"@[4] == 'e' && "unused39"@[5] == 'd' && "unused39"@[6] == '3' && "unused39"@[7] == '9',
            "unused40"@.len() == 8 && "unused40"@[0] == 'u' && "unused40"@[1] == 'n' && "unused40"@[2] == 'u' && "unused40"@[3] == 's' && "unused40"@[4] == 'e' && "unused40"@[5] == 'd' && "unused40"@[6] == '4' && "unused40"@[7] == '0',
    {
        broadcast use vstd::string::group_string_axioms;

        reveal_strlit("unused21");
        reveal_strlit("unused22");
        reveal_strlit("unused23");
        reveal_strlit("unused24");
        reveal_strlit("unused25");
        reveal_strlit("unused26");
        reveal_strlit("unused27");
        reveal_strlit("unused28");
        reveal_strlit("unused29");
        reveal_strlit("unused30");
        reveal_strlit("unused31");
        reveal_strlit("unused32");
        reveal_strlit("unused33");
        reveal_strlit("unused34");
        reveal_strlit("unused35");
        reveal_strlit("unused36");
        reveal_strlit("unused37");
        reveal_strlit("unused38");
        reveal_strlit("unused39");
        reveal_strlit("unused40");
    }

    /// The spelling of known names, character by character.
    proof fn lemma_name_spelling_5()
        ensures
            "unused41"@.len() == 8 && "unused41"@[0] == 'u' && "unused41"@[1] == 'n' && "unused41"@[2] == 'u' && "unused41"@[3] == 's' && "unused41"@[4] == 'e' && "unused41"@[5] == 'd' && "unused41"@[6] == '4' && "unused41"@[7] == '1',
            "unused42"@.len() == 8 && "unused42"@[0] == 'u' && "unused42"@[1] == 'n' && "unused42"@[2] == 'u' && "unused42"@[3] == 's' && "unused42"@[4] == 'e' && "unused42"@[5] == 'd' && "unused42"@[6] == '4' && "unused42"@[7] == '2',
            "unused43"@.len() == 8 && "unused43"@[0] == 'u' && "unused43"@[1] == 'n' && "unused43"@[2] == 'u' && "unused43"@[3] == 's' && "unused43"@[4] == 'e' && "unused43"@[5] == 'd' && "unused43"@[6] == '4' && "unused43"@[7] == '3',
            "unused44"@.len() == 8 && "unused44"@[0] == 'u' && "unused44"@[1] == 'n' && "unused44"@[2] == 'u' && "unused44"@[3] == 's' && "unused44"@[4] == 'e' && "unused44"@[5] == 'd' && "unused44"@[6] == '4' && "unused44"@[7] == '4',
            "unused45"@.len() == 8 && "unused45"@[0] == 'u' && "unused45"@[1] == 'n' && "unused45"@[2] == 'u' && "unused45"@[3] == 's' && "unused45"@[4] == 'e' && "unused45"@[5] == 'd' && "unused45"@[6] == '4' && "unused45"@[7] == '5',
            "unused46"@.len() == 8 && "unused46"@[0] == 'u' && "unused46"@[1] == 'n' && "unused46"@[2] == 'u' && "unused46"@[3] == 's' && "unused46"@[4] == 'e' && "unused46"@[5] == 'd' && "unused46"@[6] == '4' && "unused46"@[7] == '6',
            "unused47"@.len() == 8 && "unused47"@[0] == 'u' && "unused47"@[1] == 'n' && "unused47"@[2] == 'u' && "unused47"@[3] == 's' && "unused47"@[4] == 'e' && "unused47"@[5] == 'd' && "unused47"@[6] == '4' && "unused47"@[7] == '7',
            "unused48"@.len() == 8 && "unused48"@[0] == 'u' && "unused48"@[1] == 'n' && "unused48"@[2] == 'u' && "unused48"@[3] == 's' && "unused48"@[4] == 'e' && "unused48"@[5] == 'd' && "unused48"@[6] == '4' && "unused48"@[7] == '8',
            "unused49"@.len() == 8 && "unused49"@[0] == 'u' && "unused49"@[1] == 'n' && "unused49"@[2] == 'u' && "unused49"@[3] == 's' && "unused49"@[4] == 'e' && "unused49"@[5] == 'd' && "unused49"@[6] == '4' && "unused49"@[7] == '9',
            "unused50"@.len() == 8 && "unused50"@[0] == 'u' && "unused50"@[1] == 'n' && "unused50"@[2] == 'u' && "unused50"@[3] == 's' && "unused50"@[4] == 'e' && "unused50"@[5] == 'd' && "unused50"@[6] == '5' && "unused50"@[7] == '0',
            "unused51"@.len() == 8 && "unused51"@[0] == 'u' && "unused51"@[1] == 'n' && "unused51"@[2] == 'u' && "unused51"@[3] == 's' && "unused51"@[4] == 'e' && "unused51"@[5] == 'd' && "unused51"@[6] == '5' && "unused51"@[7] == '1',
            "unused52"@.len() == 8 && "unused52"@[0] == 'u' && "unused52"@[1] == 'n' && "unused52"@[2] == 'u' && "unused52"@[3] == 's' && "unused52"@[4] == 'e' && "unused52"@[5] == 'd' && "unused52"@[6] == '5' && "unused52"@[7] == '2',
            "unused53"@.len() == 8 && "unused53"@[0] == 'u' && "unused53"@[1] == 'n' && "unused53"@[2] == 'u' && "unused53"@[3] == 's' && "unused53"@[4] == 'e' && "unused53"@[5] == 'd' && "unused53"@[6] == '5' && "unused53"@[7] == '3',
            "unused54"@.len() == 8 && "unused54"@[0] == 'u' && "unused54"@[1] == 'n' && "unused54"@[2] == 'u' && "unused54"@[3] == 's' && "unused54"@[4] == 'e' && "unused54"@[5] == 'd' && "unused54"@[6] == '5' && "unused54"@[7] == '4',
            "unused55"@.len() == 8 && "unused55"@[0] == 'u' && "unused55"@[1] == 'n' && "unused55"@[2] == 'u' && "unused55"@[3] == 's' && "unused55"@[4] == 'e' && "unused55"@[5] == 'd' && "unused55"@[6] == '5' && "unused55"@[7] == '5',
            "unused56"@.len() == 8 && "unused56"@[0] == 'u' && "unused56"@[1] == 'n' && "unused56"@[2] == 'u' && "unused56"@[3] == 's' && "unused56"@[4] == 'e' && "unused56"@[5] == 'd' && "unused56"@[6] == '5' && "unused56"@[7] == '6',
            "unused57"@.len() == 8 && "unused57"@[0] == 'u' && "unused57"@[1] == 'n' && "unused57"@[2] == 'u' && "unused57"@[3] == 's' && "unused57"@[4] == 'e' && "unused57"@[5] == 'd' && "unused57"@[6] == '5' && "unused57"@[7] == '7',
            "unused58"@.len() == 8 && "unused58"@[0] == 'u' && "unused58"@[1] == 'n' && "unused58"@[2] == 'u' && "unused58"@[3] == 's' && "unused58"@[4] == 'e' && "unused58"@[5] == 'd' && "unused58"@[6] == '5' && "unused58"@[7] == '8',
            "unused59"@.len() == 8 && "unused59"@[0] == 'u' && "unused59"@[1] == 'n' && "unused59"@[2] == 'u' && "unused59"@[3] == 's' && "unused59"@[4] == 'e' && "unused59"@[5] == 'd' && "unused59"@[6] == '5' && "unused59"@[7] == '9',
            "unused60"@.len() == 8 && "unused60"@[0] == 'u' && "unused60"@[1] == 'n' && "unused60"@[2] == 'u' && "unused60"@[3] == 's' && "unused60"@[4] == 'e' && "unused60"@[5] == 'd' && "unused60"@[6] == '6' && "unused60"@[7] == '0',
    {
        broadcast use vstd::string::group_string_axioms;

        reveal_strlit("unused41");
        reveal_strlit("unused42");
        reveal_strlit("unused43");
        reveal_strlit("unused44");
        reveal_strlit("unused45");
        reveal_strlit("unused46");
        reveal_strlit("unused47");
        reveal_strlit("unused48");
        reveal_strlit("unused49");
        reveal_strlit("unused50");
        reveal_strlit("unused51");
        reveal_strlit("unused52");
        reveal_strlit("unused53");
        reveal_strlit("unused54");
        reveal_strlit("unused55");
        reveal_strlit("unused56");
        reveal_strlit("unused57");
        reveal_strlit("unused58");
        reveal_strlit("unused59");
        reveal_strlit("unused60");
    }

    /// The spelling of known names, character by character.
    proof fn lemma_name_spelling_6()
        ensures
            "unused61"@.len() == 8 && "unused61"@[0] == 'u' && "unused61"@[1] == 'n' && "unused61"@[2] == 'u' && "unused61"@[3] == 's' && "unused61"@[4] == 'e' && "unused61"@[5] == 'd' && "unused61"@[6] == '6' && "unused61"@[7] == '1',
            "unused62"@.len() == 8 && "unused62"@[0] == 'u' && "unused62"@[1] == 'n' && "unused62"@[2] == 'u' && "unused62"@[3] == 's' && "unused62"@[4] == 'e' && "unused62"@[5] == 'd' && "unused62"@[6] == '6' && "unused62"@[7] == '2',
            "unused63"@.len() == 8 && "unused63"@[0] == 'u' && "unused63"@[1] == 'n' && "unused63"@[2] == 'u' && "unused63"@[3] == 's' && "unused63"@[4] == 'e' && "unused63"@[5] == 'd' && "unused63"@[6] == '6' && "unused63"@[7] == '3',
            "unused64"@.len() == 8 && "unused64"@[0] == 'u' && "unused64"@[1] == 'n' && "unused64"@[2] == 'u' && "unused64"@[3] == 's' && "unused64"@[4] == 'e' && "unused64"@[5] == 'd' && "unused64"@[6] == '6' && "unused64"@[7] == '4',
            "unused65"@.len() == 8 && "unused65"@[0] == 'u' && "unused65"@[1] == 'n' && "unused65"@[2] == 'u' && "unused65"@[3] == 's' && "unused65"@[4] == 'e' && "unused65"@[5] == 'd' && "unused65"@[6] == '6' && "unused65"@[7] == '5',
            "unused66"@.len() == 8 && "unused66"@[0] == 'u' && "unused66"@[1] == 'n' && "unused66"@[2] == 'u' && "unused66"@[3] == 's' && "unused66"@[4] == 'e' && "unused66"@[5] == 'd' && "unused66"@[6] == '6' && "unused66"@[7] == '6',
            "unused67"@.len() == 8 && "unused67"@[0] == 'u' && "unused67"@[1] == 'n' && "unused67"@[2] == 'u' && "unused67"@[3] == 's' && "unused67"@[4] == 'e' && "unused67"@[5] == 'd' && "unused67"@[6] == '6' && "unused67"@[7] == '7',
            "unused68"@.len() == 8 && "unused68"@[0] == 'u' && "unused68"@[1] == 'n' && "unused68"@[2] == 'u' && "unused68"@[3] == 's' && "unused68"@[4] == 'e' && "unused68"@[5] == 'd' && "unused68"@[6] == '6' && "unused68"@[7] == '8',
            "unused69"@.len() == 8 && "unused69"@[0] == 'u' && "unused69"@[1] == 'n' && "unused69"@[2] == 'u' && "unused69"@[3] == 's' && "unused69"@[4] == 'e' && "unused69"@[5] == 'd' && "unused69"@[6] == '6' && "unused69"@[7] == '9',
            "unused70"@.len() == 8 && "unused70"@[0] == 'u' && "unused70"@[1] == 'n' && "unused70"@[2] == 'u' && "unused70"@[3] == 's' && "unused70"@[4] == 'e' && "unused70"@[5] == 'd' && "unused70"@[6] == '7' && "unused70"@[7] == '0',
            "unused71"@.len() == 8 && "unused71"@[0] == 'u' && "unused71"@[1] == 'n' && "unused71"@[2] == 'u' && "unused71"@[3] == 's' && "unused71"@[4] == 'e' && "unused71"@[5] == 'd' && "unused71"@[6] == '7' && "unused71"@[7] == '1',
            "unused72"@.len() == 8 && "unused72"@[0] == 'u' && "unused72"@[1] == 'n' && "unused72"@[2] == 'u' && "unused72"@[3] == 's' && "unused72"@[4] == 'e' && "unused72"@[5] == 'd' && "unused72"@[6] == '7' && "unused72"@[7] == '2',
            "unused73"@.len() == 8 && "unused73"@[0] == 'u' && "unused73"@[1] == 'n' && "unused73"@[2] == 'u' && "unused73"@[3] == 's' && "unused73"@[4] == 'e' && "unused73"@[5] == 'd' && "unused73"@[6] == '7' && "unused73"@[7] == '3',
            "unused74"@.len() == 8 && "unused74"@[0] == 'u' && "unused74"@[1] == 'n' && "unused74"@[2] == 'u' && "unused74"@[3] == 's' && "unused74"@[4] == 'e' && "unused74"@[5] == 'd' && "unused74"@[6] == '7' && "unused74"@[7] == '4',
            "unused75"@.len() == 8 && "unused75"@[0] == 'u' && "unused75"@[1] == 'n' && "unused75"@[2] == 'u' && "unused75"@[3] == 's' && "unused75"@[4] == 'e' && "unused75"@[5] == 'd' && "unused75"@[6] == '7' && "unused75"@[7] == '5',
            "unused76"@.len() == 8 && "unused76"@[0] == 'u' && "unused76"@[1] == 'n' && "unused76"@[2] == 'u' && "unused76"@[3] == 's' && "unused76"@[4] == 'e' && "unused76"@[5] == 'd' && "unused76"@[6] == '7' && "unused76"@[7] == '6',
            "unused77"@.len() == 8 && "unused77"@[0] == 'u' && "unused77"@[1] == 'n' && "unused77"@[2] == 'u' && "unused77"@[3] == 's' && "unused77"@[4] == 'e' && "unused77"@[5] == 'd' && "unused77"@[6] == '7' && "unused77"@[7] == '7',
            "unused78"@.len() == 8 && "unused78"@[0] == 'u' && "unused78"@[1] == 'n' && "unused78"@[2] == 'u' && "unused78"@[3] == 's' && "unused78"@[4] == 'e' && "unused78"@[5] == 'd' && "unused78"@[6] == '7' && "unused78"@[7] == '8',
            "unused79"@.len() == 8 && "unused79"@[0] == 'u' && "unused79"@[1] == 'n' && "unused79"@[2] == 'u' && "unused79"@[3] == 's' && "unused79"@[4] == 'e' && "unused79"@[5] == 'd' && "unused79"@[6] == '7' && "unused79"@[7] == '9',
            "unused80"@.len() == 8 && "unused80"@[0] == 'u' && "unused80"@[1] == 'n' && "unused80"@[2] == 'u' && "unused80"@[3] == 's' && "unused80"@[4] == 'e' && "unused80"@[5] == 'd' && "unused80"@[6] == '8' && "unused80"@[7] == '0',
    {
        broadcast use vstd::string::group_string_axioms;

        reveal_strlit("unused61");
        reveal_strlit("unused62");
        reveal_strlit("unused63");
        reveal_strlit("unused64");
        reveal_strlit("unused65");
        reveal_strlit("unused66");
        reveal_strlit("unused67");
        reveal_strlit("unused68");
        reveal_strlit("unused69");
        reveal_strlit("unused70");
        reveal_strlit("unused71");
        reveal_strlit("unused72");
        reveal_strlit("unused73");
        reveal_strlit("unused74");
        reveal_strlit("unused75");
        reveal_strlit("unused76");
        reveal_strlit("unused77");
        reveal_strlit("unused78");
        reveal_strlit("unused79");
        reveal_strlit("unused80");
    }

    /// The spelling of known names, character by character.
    proof fn lemma_name_spelling_7()
        ensures
            "unused81"@.len() == 8 && "unused81"@[0] == 'u' && "unused81"@[1] == 'n' && "unused81"@[2] == 'u' && "unused81"@[3] == 's' && "unused81"@[4] == 'e' && "unused81"@[5] == 'd' && "unused81"@[6] == '8' && "unused81"@[7] == '1',
            "unused82"@.len() == 8 && "unused82"@[0] == 'u' && "unused82"@[1] == 'n' && "unused82"@[2] == 'u' && "unused82"@[3] == 's' && "unused82"@[4] == 'e' && "unused82"@[5] == 'd' && "unused82"@[6] == '8' && "unused82"@[7] == '2',
            "unused83"@.len() == 8 && "unused83"@[0] == 'u' && "unused83"@[1] == 'n' && "unused83"@[2] == 'u' && "unused83"@[3] == 's' && "unused83"@[4] == 'e' && "unused83"@[5] == 'd' && "unused83"@[6] == '8' && "unused83"@[7] == '3',
            "unused84"@.len() == 8 && "unused84"@[0] == 'u' && "unused84"@[1] == 'n' && "unused84"@[2] == 'u' && "unused84"@[3] == 's' && "unused84"@[4] == 'e' && "unused84"@[5] == 'd' && "unused84"@[6] == '8' && "unused84"@[7] == '4',
            "unused85"@.len() == 8 && "unused85"@[0] == 'u' && "unused85"@[1] == 'n' && "unused85"@[2] == 'u' && "unused85"@[3] == 's' && "unused85"@[4] == 'e' && "unused85"@[5] == 'd' && "unused85"@[6] == '8' && "unused85"@[7] == '5',
            "unused86"@.len() == 8 && "unused86"@[0] == 'u' && "unused86"@[1] == 'n' && "unused86"@[2] == 'u' && "unused86"@[3] == 's' && "unused86"@[4] == 'e' && "unused86"@[5] == 'd' && "unused86"@[6] == '8' && "unused86"@[7] == '6',
            "unused87"@.len() == 8 && "unused87"@[0] == 'u' && "unused87"@[1] == 'n' && "unused87"@[2] == 'u' && "unused87"@[3] == 's' && "unused87"@[4] == 'e' && "unused87"@[5] == 'd' && "unused87"@[6] == '8' && "unused87"@[7] == '7',
            "unused88"@.len() == 8 && "unused88"@[0] == 'u' && "unused88"@[1] == 'n' && "unused88"@[2] == 'u' && "unused88"@[3] == 's' && "unused88"@[4] == 'e' && "unused88"@[5] == 'd' && "unused88"@[6] == '8' && "unused88"@[7] == '8',
            "unused89"@.len() == 8 && "unused89"@[0] == 'u' && "unused89"@[1] == 'n' && "unused89"@[2] == 'u' && "unused89"@[3] == 's' && "unused89"@[4] == 'e' && "unused89"@[5] == 'd' && "unused89"@[6] == '8' && "unused89"@[7] == '9',
            "unused90"@.len() == 8 && "unused90"@[0] == 'u' && "unused90"@[1] == 'n' && "unused90"@[2] == 'u' && "unused90"@[3] == 's' && "unused90"@[4] == 'e' && "unused90"@[5] == 'd' && "unused90"@[6] == '9' && "unused90"@[7] == '0',
            "unused91"@.len() == 8 && "unused91"@[0] == 'u' && "unused91"@[1] == 'n' && "unused91"@[2] == 'u' && "unused91"@[3] == 's' && "unused91"@[4] == 'e' && "unused91"@[5] == 'd' && "unused91"@[6] == '9' && "unused91"@[7] == '1',
            "unused92"@.len() == 8 && "unused92"@[0] == 'u' && "unused92"@[1] == 'n' && "unused92"@[2] == 'u' && "unused92"@[3] == 's' && "unused92"@[4] == 'e' && "unused92"@[5] == 'd' && "unused92"@[6] == '9' && "unused92"@[7] == '2',
            "unused93"@.len() == 8 && "unused93"@[0] == 'u' && "unused93"@[1] == 'n' && "unused93"@[2] == 'u' && "unused93"@[3] == 's' && "unused93"@[4] == 'e' && "unused93"@[5] == 'd' && "unused93"@[6] == '9' && "unused93"@[7] == '3',
            "unused94"@.len() == 8 && "unused94"@[0] == 'u' && "unused94"@[1] == 'n' && "unused94"@[2] == 'u' && "unused94"@[3] == 's' && "unused94"@[4] == 'e' && "unused94"@[5] == 'd' && "unused94"@[6] == '9' && "unused94"@[7] == '4',
            "unused95"@.len() == 8 && "unused95"@[0] == 'u' && "unused95"@[1] == 'n' && "unused95"@[2] == 'u' && "unused95"@[3] == 's' && "unused95"@[4] == 'e' && "unused95"@[5] == 'd' && "unused95"@[6] == '9' && "unused95"@[7] == '5',
            "unused96"@.len() == 8 && "unused96"@[0] == 'u' && "unused96"@[1] == 'n' && "unused96"@[2] == 'u' && "unused96"@[3] == 's' && "unused96"@[4] == 'e' && "unused96"@[5] == 'd' && "unused96"@[6] == '9' && "unused96"@[7] == '6',
            "unused97"@.len() == 8 && "unused97"@[0] == 'u' && "unused97"@[1] == 'n' && "unused97"@[2] == 'u' && "unused97"@[3] == 's' && "unused97"@[4] == 'e' && "unused97"@[5] == 'd' && "unused97"@[6] == '9' && "unused97"@[7] == '7',
            "unused98"@.len() == 8 && "unused98"@[0] == 'u' && "unused98"@[1] == 'n' && "unused98"@[2] == 'u' && "unused98"@[3] == 's' && "unused98"@[4] == 'e' && "unused98"@[5] == 'd' && "unused98"@[6] == '9' && "unused98"@[7] == '8',
            "unused99"@.len() == 8 && "unused99"@[0] == 'u' && "unused99"@[1] == 'n' && "unused99"@[2] == 'u' && "unused99"@[3] == 's' && "unused99"@[4] == 'e' && "unused99"@[5] == 'd' && "unused99"@[6] == '9' && "unused99"@[7] == '9',
            "unused100"@.len() == 9 && "unused100"@[0] == 'u' && "unused100"@[1] == 'n' && "unused100"@[2] == 'u' && "unused100"@[3] == 's' && "unused100"@[4] == 'e' && "unused100"@[5] == 'd' && "unused100"@[6] == '1' && "unused100"@[7] == '0' && "unused100"@[8] == '0',
    {
        broadcast use vstd::string::group_string_axioms;

        reveal_strlit("unused81");
        reveal_strlit("unused82");
        reveal_strlit("unused83");
        reveal_strlit("unused84");
        reveal_strlit("unused85");
        reveal_strlit("unused86");
        reveal_strlit("unused87");
        reveal_strlit("unused88");
        reveal_strlit("unused89");
        reveal_strlit("unused90");
        reveal_strlit("unused91");
        reveal_strlit("unused92");
        reveal_strlit("unused93");
        reveal_strlit("unused94");
        reveal_strlit("unused95");
        reveal_strlit("unused96");
        reveal_strlit("unused97");
        reveal_strlit("unused98");
        reveal_strlit("unused99");
        reveal_strlit("unused100");
    }

    /// The spelling of known names, character by character.
    proof fn lemma_name_spelling_8()
        ensures
            "unused101"@.len() == 9 && "unused101"@[0] == 'u' && "unused101"@[1] == 'n' && "unused101"@[2] == 'u' && "unused101"@[3] == 's' && "unused101"@[4] == 'e' && "unused101"@[5] == 'd' && "unused101"@[6] == '1' && "unused101"@[7] == '0' && "unused101"@[8] == '1',
            "unused102"@.len() == 9 && "unused102"@[0] == 'u' && "unused102"@[1] == 'n' && "unused102"@[2] == 'u' && "unused102"@[3] == 's' && "unused102"@[4] == 'e' && "unused102"@[5] == 'd' && "unused102"@[6] == '1' && "unused102"@[7] == '0' && "unused102"@[8] == '2',
            "unused103"@.len() == 9 && "unused103"@[0] == 'u' && "unused103"@[1] == 'n' && "unused103"@[2] == 'u' && "unused103"@[3] == 's' && "unused103"@[4] == 'e' && "unused103"@[5] == 'd' && "unused103"@[6] == '1' && "unused103"@[7] == '0' && "unused103"@[8] == '3',
            "unused104"@.len() == 9 && "unused104"@[0] == 'u' && "unused104"@[1] == 'n' && "unused104"@[2] == 'u' && "unused104"@[3] == 's' && "unused104"@[4] == 'e' && "unused104"@[5] == 'd' && "unused104"@[6] == '1' && "unused104"@[7] == '0' && "unused104"@[8] == '4',
            "unused105"@.len() == 9 && "unused105"@[0] == 'u' && "unused105"@[1] == 'n' && "unused105"@[2] == 'u' && "unused105"@[3] == 's' && "unused105"@[4] == 'e' && "unused105"@[5] == 'd' && "unused105"@[6] == '1' && "unused105"@[7] == '0' && "unused105"@[8] == '5',
            "unused106"@.len() == 9 && "unused106"@[0] == 'u' && "unused106"@[1] == 'n' && "unused106"@[2] == 'u' && "unused106"@[3] == 's' && "unused106"@[4] == 'e' && "unused106"@[5] == 'd' && "unused106"@[6] == '1' && "unused106"@[7] == '0' && "unused106"@[8] == '6',
            "unused107"@.len() == 9 && "unused107"@[0] == 'u' && "unused107"@[1] == 'n' && "unused107"@[2] == 'u' && "unused107"@[3] == 's' && "unused107"@[4] == 'e' && "unused107"@[5] == 'd' && "unused107"@[6] == '1' && "unused107"@[7] == '0' && "unused107"@[8] == '7',
            "unused108"@.len() == 9 && "unused108"@[0] == 'u' && "unused108"@[1] == 'n' && "unused108"@[2] == 'u' && "unused108"@[3] == 's' && "unused108"@[4] == 'e' && "unused108"@[5] == 'd' && "unused108"@[6] == '1' && "unused108"@[7] == '0' && "unused108"@[8] == '8',
            "unused109"@.len() == 9 && "unused109"@[0] == 'u' && "unused109"@[1] == 'n' && "unused109"@[2] == 'u' && "unused109"@[3] == 's' && "unused109"@[4] == 'e' && "unused109"@[5] == 'd' && "unused109"@[6] == '1' && "unused109"@[7] == '0' && "unused109"@[8] == '9',
            "unused110"@.len() == 9 && "unused110"@[0] == 'u' && "unused110"@[1] == 'n' && "unused110"@[2] == 'u' && "unused110"@[3] == 's' && "unused110"@[4] == 'e' && "unused110"@[5] == 'd' && "unused110"@[6] == '1' && "unused110"@[7] == '1' && "unused110"@[8] == '0',
            "unused111"@.len() == 9 && "unused111"@[0] == 'u' && "unused111"@[1] == 'n' && "unused111"@[2] == 'u' && "unused111"@[3] == 's' && "unused111"@[4] == 'e' && "unused111"@[5] == 'd' && "unused111"@[6] == '1' && "unused111"@[7] == '1' && "unused111"@[8] == '1',
            "unused112"@.len() == 9 && "unused112"@[0] == 'u' && "unused112"@[1] == 'n' && "unused112"@[2] == 'u' && "unused112"@[3] == 's' && "unused112"@[4] == 'e' && "unused112"@[5] == 'd' && "unused112"@[6] == '1' && "unused112"@[7] == '1' && "unused112"@[8] == '2',
            "unused113"@.len() == 9 && "unused113"@[0] == 'u' && "unused113"@[1] == 'n' && "unused113"@[2] == 'u' && "unused113"@[3] == 's' && "unused113"@[4] == 'e' && "unused113"@[5] == 'd' && "unused113"@[6] == '1' && "unused113"@[7] == '1' && "unused113"@[8] == '3',
            "unused114"@.len() == 9 && "unused114"@[0] == 'u' && "unused114"@[1] == 'n' && "unused114"@[2] == 'u' && "unused114"@[3] == 's' && "unused114"@[4] == 'e' && "unused114"@[5] == 'd' && "unused114"@[6] == '1' && "unused114"@[7] == '1' && "unused114"@[8] == '4',
            "unused115"@.len() == 9 && "unused115"@[0] == 'u' && "unused115"@[1] == 'n' && "unused115"@[2] == 'u' && "unused115"@[3] == 's' && "unused115"@[4] == 'e' && "unused115"@[5] == 'd' && "unused115"@[6] == '1' && "unused115"@[7] == '1' && "unused115"@[8] == '5',
            "unused116"@.len() == 9 && "unused116"@[0] == 'u' && "unused116"@[1] == 'n' && "unused116"@[2] == 'u' && "unused116"@[3] == 's' && "unused116"@[4] == 'e' && "unused116"@[5] == 'd' && "unused116"@[6] == '1' && "unused116"@[7] == '1' && "unused116"@[8] == '6',
            "unused117"@.len() == 9 && "unused117"@[0] == 'u' && "unused117"@[1] == 'n' && "unused117"@[2] == 'u' && "unused117"@[3] == 's' && "unused117"@[4] == 'e' && "unused117"@[5] == 'd' && "unused117"@[6] == '1' && "unused117"@[7] == '1' && "unused117"@[8] == '7',
            "unused118"@.len() == 9 && "unused118"@[0] == 'u' && "unused118"@[1] == 'n' && "unused118"@[2] == 'u' && "unused118"@[3] == 's' && "unused118"@[4] == 'e' && "unused118"@[5] == 'd' && "unused118"@[6] == '1' && "unused118"@[7] == '1' && "unused118"@[8] == '8',
            "unused119"@.len() == 9 && "unused119"@[0] == 'u' && "unused119"@[1] == 'n' && "unused119"@[2] == 'u' && "unused119"@[3] == 's' && "unused119"@[4] == 'e' && "unused119"@[5] == 'd' && "unused119"@[6] == '1' && "unused119"@[7] == '1' && "unused119"@[8] == '9',
            "unused120"@.len() == 9 && "unused120"@[0] == 'u' && "unused120"@[1] == 'n' && "unused120"@[2] == 'u' && "unused120"@[3] == 's' && "unused120"@[4] == 'e' && "unused120"@[5] == 'd' && "unused120"@[6] == '1' && "unused120"@[7] == '2' && "unused120"@[8] == '0',
    {
        broadcast use vstd::string::group_string_axioms;

        reveal_strlit("unused101");
        reveal_strlit("unused102");
        reveal_strlit("unused103");
        reveal_strlit("unused104");
        reveal_strlit("unused105");
        reveal_strlit("unused106");
        reveal_strlit("unused107");
        reveal_strlit("unused108");
        reveal_strlit("unused109");
        reveal_strlit("unused110");
        reveal_strlit("unused111");
        reveal_strlit("unused112");
        reveal_strlit("unused113");
        reveal_strlit("unused114");
        reveal_strlit("unused115");
        reveal_strlit("unused116");
        reveal_strlit("unused117");
        reveal_strlit("unused118");
        reveal_strlit("unused119");
        reveal_strlit("unused120");
    }

    /// The spelling of known names, character by character.
    proof fn lemma_name_spelling_9()
        ensures
            "unused121"@.len() == 9 && "unused121"@[0] == 'u' && "unused121"@[1] == 'n' && "unused121"@[2] == 'u' && "unused121"@[3] == 's' && "unused121"@[4] == 'e' && "unused121"@[5] == 'd' && "unused121"@[6] == '1' && "unused121"@[7] == '2' && "unused121"@[8] == '1',
            "unused122"@.len() == 9 && "unused122"@[0] == 'u' && "unused122"@[1] == 'n' && "unused122"@[2] == 'u' && "unused122"@[3] == 's' && "unused122"@[4] == 'e' && "unused122"@[5] == 'd' && "unused122"@[6] == '1' && "unused122"@[7] == '2' && "unused122"@[8] == '2',
            "unused123"@.len() == 9 && "unused123"@[0] == 'u' && "unused123"@[1] == 'n' && "unused123"@[2] == 'u' && "unused123"@[3] == 's' && "unused123"@[4] == 'e' && "unused123"@[5] == 'd' && "unused123"@[6] == '1' && "unused123"@[7] == '2' && "unused123"@[8] == '3',
            "unused124"@.len() == 9 && "unused124"@[0] == 'u' && "unused124"@[1] == 'n' && "unused124"@[2] == 'u' && "unused124"@[3] == 's' && "unused124"@[4] == 'e' && "unused124"@[5] == 'd' && "unused124"@[6] == '1' && "unused124"@[7] == '2' && "unused124"@[8] == '4',
            "unused125"@.len() == 9 && "unused125"@[0] == 'u' && "unused125"@[1] == 'n' && "unused125"@[2] == 'u' && "unused125"@[3] == 's' && "unused125"@[4] == 'e' && "unused125"@[5] == 'd' && "unused125"@[6] == '1' && "unused125"@[7] == '2' && "unused125"@[8] == '5',
            "unused126"@.len() == 9 && "unused126"@[0] == 'u' && "unused126"@[1] == 'n' && "unused126"@[2] == 'u' && "unused126"@[3] == 's' && "unused126"@[4] == 'e' && "unused126"@[5] == 'd' && "unused126"@[6] == '1' && "unused126"@[7] == '2' && "unused126"@[8] == '6',
            "unused127"@.len() == 9 && "unused127"@[0] == 'u' && "unused127"@[1] == 'n' && "unused127"@[2] == 'u' && "unused127"@[3] == 's' && "unused127"@[4] == 'e' && "unused127"@[5] == 'd' && "unused127"@[6] == '1' && "unused127"@[7] == '2' && "unused127"@[8] == '7',
            "unused128"@.len() == 9 && "unused128"@[0] == 'u' && "unused128"@[1] == 'n' && "unused128"@[2] == 'u' && "unused128"@[3] == 's' && "unused128"@[4] == 'e' && "unused128"@[5] == 'd' && "unused128"@[6] == '1' && "unused128"@[7] == '2' && "unused128"@[8] == '8',
            "unused129"@.len() == 9 && "unused129"@[0] == 'u' && "unused129"@[1] == 'n' && "unused129"@[2] == 'u' && "unused129"@[3] == 's' && "unused129"@[4] == 'e' && "unused129"@[5] == 'd' && "unused129"@[6] == '1' && "unused129"@[7] == '2' && "unused129"@[8] == '9',
            "unused130"@.len() == 9 && "unused130"@[0] == 'u' && "unused130"@[1] == 'n' && "unused130"@[2] == 'u' && "unused130"@[3] == 's' && "unused130"@[4] == 'e' && "unused130"@[5] == 'd' && "unused130"@[6] == '1' && "unused130"@[7] == '3' && "unused130"@[8] == '0',
            "unused131"@.len() == 9 && "unused131"@[0] == 'u' && "unused131"@[1] == 'n' && "unused131"@[2] == 'u' && "unused131"@[3] == 's' && "unused131"@[4] == 'e' && "unused131"@[5] == 'd' && "unused131"@[6] == '1' && "unused131"@[7] == '3' && "unused131"@[8] == '1',
            "unused132"@.len() == 9 && "unused132"@[0] == 'u' && "unused132"@[1] == 'n' && "unused132"@[2] == 'u' && "unused132"@[3] == 's' && "unused132"@[4] == 'e' && "unused132"@[5] == 'd' && "unused132"@[6] == '1' && "unused132"@[7] == '3' && "unused132"@[8] == '2',
            "unused133"@.len() == 9 && "unused133"@[0] == 'u' && "unused133"@[1] == 'n' && "unused133"@[2] == 'u' && "unused133"@[3] == 's' && "unused133"@[4] == 'e' && "unused133"@[5] == 'd' && "unused133"@[6] == '1' && "unused133"@[7] == '3' && "unused133"@[8] == '3',
            "unused134"@.len() == 9 && "unused134"@[0] == 'u' && "unused134"@[1] == 'n' && "unused134"@[2] == 'u' && "unused134"@[3] == 's' && "unused134"@[4] == 'e' && "unused134"@[5] == 'd' && "unused134"@[6] == '1' && "unused134"@[7] == '3' && "unused134"@[8] == '4',
            "unused135"@.len() == 9 && "unused135"@[0] == 'u' && "unused135"@[1] == 'n' && "unused135"@[2] == 'u' && "unused135"@[3] == 's' && "unused135"@[4] == 'e' && "unused135"@[5] == 'd' && "unused135"@[6] == '1' && "unused135"@[7] == '3' && "unused135"@[8] == '5',
            "unused136"@.len() == 9 && "unused136"@[0] == 'u' && "unused136"@[1] == 'n' && "unused136"@[2] == 'u' && "unused136"@[3] == 's' && "unused136"@[4] == 'e' && "unused136"@[5] == 'd' && "unused136"@[6] == '1' && "unused136"@[7] == '3' && "unused136"@[8] == '6',
            "unused137"@.len() == 9 && "unused137"@[0] == 'u' && "unused137"@[1] == 'n' && "unused137"@[2] == 'u' && "unused137"@[3] == 's' && "unused137"@[4] == 'e' && "unused137"@[5] == 'd' && "unused137"@[6] == '1' && "unused137"@[7] == '3' && "unused137"@[8] == '7',
            "unused138"@.len() == 9 && "unused138"@[0] == 'u' && "unused138"@[1] == 'n' && "unused138"@[2] == 'u' && "unused138"@[3] == 's' && "unused138"@[4] == 'e' && "unused138"@[5] == 'd' && "unused138"@[6] == '1' && "unused138"@[7] == '3' && "unused138"@[8] == '8',
            "unused139"@.len() == 9 && "unused139"@[0] == 'u' && "unused139"@[1] == 'n' && "unused139"@[2] == 'u' && "unused139"@[3] == 's' && "unused139"@[4] == 'e' && "unused139"@[5] == 'd' && "unused139"@[6] == '1' && "unused139"@[7] == '3' && "unused139"@[8] == '9',
            "unused140"@.len() == 9 && "unused140"@[0] == 'u' && "unused140"@[1] == 'n' && "unused140"@[2] == 'u' && "unused140"@[3] == 's' && "unused140"@[4] == 'e' && "unused140"@[5] == 'd' && "unused140"@[6] == '1' && "unused140"@[7] == '4' && "unused140"@[8] == '0',
    {
        broadcast use vstd::string::group_string_axioms;

        reveal_strlit("unused121");
        reveal_strlit("unused122");
        reveal_strlit("unused123");
        reveal_strlit("unused124");
        reveal_strlit("unused125");
        reveal_strlit("unused126");
        reveal_strlit("unused127");
        reveal_strlit("unused128");
        reveal_strlit("unused129");
        reveal_strlit("unused130");
        reveal_strlit("unused131");
        reveal_strlit("unused132");
        reveal_strlit("unused133");
        reveal_strlit("unused134");
        reveal_strlit("unused135");
        reveal_strlit("unused136");
        reveal_strlit("unused137");
        reveal_strlit("unused138");
        reveal_strlit("unused139");
        reveal_strlit("unused140");
    }

    /// The spelling of known names, character by character.
    proof fn lemma_name_spelling_10()
        ensures
            "unused141"@.len() == 9 && "unused141"@[0] == 'u' && "unused141"@[1] == 'n' && "unused141"@[2] == 'u' && "unused141"@[3] == 's' && "unused141"@[4] == 'e' && "unused141"@[5] == 'd' && "unused141"@[6] == '1' && "unused141"@[7] == '4' && "unused141"@[8] == '1',
            "unused142"@.len() == 9 && "unused142"@[0] == 'u' && "unused142"@[1] == 'n' && "unused142"@[2] == 'u' && "unused142"@[3] == 's' && "unused142"@[4] == 'e' && "unused142"@[5] == 'd' && "unused142"@[6] == '1' && "unused142"@[7] == '4' && "unused142"@[8] == '2',
            "unused143"@.len() == 9 && "unused143"@[0] == 'u' && "unused143"@[1] == 'n' && "unused143"@[2] == 'u' && "unused143"@[3] == 's' && "unused143"@[4] == 'e' && "unused143"@[5] == 'd' && "unused143"@[6] == '1' && "unused143"@[7] == '4' && "unused143"@[8] == '3',
            "unused144"@.len() == 9 && "unused144"@[0] == 'u' && "unused144"@[1] == 'n' && "unused144"@[2] == 'u' && "unused144"@[3] == 's' && "unused144"@[4] == 'e' && "unused144"@[5] == 'd' && "unused144"@[6] == '1' && "unused144"@[7] == '4' && "unused144"@[8] == '4',
            "unused145"@.len() == 9 && "unused145"@[0] == 'u' && "unused145"@[1] == 'n' && "unused145"@[2] == 'u' && "unused145"@[3] == 's' && "unused145"@[4] == 'e' && "unused145"@[5] == 'd' && "unused145"@[6] == '1' && "unused145"@[7] == '4' && "unused145"@[8] == '5',
            "unused146"@.len() == 9 && "unused146"@[0] == 'u' && "unused146"@[1] == 'n' && "unused146"@[2] == 'u' && "unused146"@[3] == 's' && "unused146"@[4] == 'e' && "unused146"@[5] == 'd' && "unused146"@[6] == '1' && "unused146"@[7] == '4' && "unused146"@[8] == '6',
            "unused147"@.len() == 9 && "unused147"@[0] == 'u' && "unused147"@[1] == 'n' && "unused147"@[2] == 'u' && "unused147"@[3] == 's' && "unused147"@[4] == 'e' && "unused147"@[5] == 'd' && "unused147"@[6] == '1' && "unused147"@[7] == '4' && "unused147"@[8] == '7',
            "unused148"@.len() == 9 && "unused148"@[0] == 'u' && "unused148"@[1] == 'n' && "unused148"@[2] == 'u' && "unused148"@[3] == 's' && "unused148"@[4] == 'e' && "unused148"@[5] == 'd' && "unused148"@[6] == '1' && "unused148"@[7] == '4' && "unused148"@[8] == '8',
            "unused149"@.len() == 9 && "unused149"@[0] == 'u' && "unused149"@[1] == 'n' && "unused149"@[2] == 'u' && "unused149"@[3] == 's' && "unused149"@[4] == 'e' && "unused149"@[5] == 'd' && "unused149"@[6] == '1' && "unused149"@[7] == '4' && "unused149"@[8] == '9',
            "unused150"@.len() == 9 && "unused150"@[0] == 'u' && "unused150"@[1] == 'n' && "unused150"@[2] == 'u' && "unused150"@[3] == 's' && "unused150"@[4] == 'e' && "unused150"@[5] == 'd' && "unused150"@[6] == '1' && "unused150"@[7] == '5' && "unused150"@[8] == '0',
            "unused151"@.len() == 9 && "unused151"@[0] == 'u' && "unused151"@[1] == 'n' && "unused151"@[2] == 'u' && "unused151"@[3] == 's' && "unused151"@[4] == 'e' && "unused151"@[5] == 'd' && "unused151"@[6] == '1' && "unused151"@[7] == '5' && "unused151"@[8] == '1',
            "unused152"@.len() == 9 && "unused152"@[0] == 'u' && "unused152"@[1] == 'n' && "unused152"@[2] == 'u' && "unused152"@[3] == 's' && "unused152"@[4] == 'e' && "unused152"@[5] == 'd' && "unused152"@[6] == '1' && "unused152"@[7] == '5' && "unused152"@[8] == '2',
            "unused153"@.len() == 9 && "unused153"@[0] == 'u' && "unused153"@[1] == 'n' && "unused153"@[2] == 'u' && "unused153"@[3] == 's' && "unused153"@[4] == 'e' && "unused153"@[5] == 'd' && "unused153"@[6] == '1' && "unused153"@[7] == '5' && "unused153"@[8] == '3',
            "unused154"@.len() == 9 && "unused154"@[0] == 'u' && "unused154"@[1] == 'n' && "unused154"@[2] == 'u' && "unused154"@[3] == 's' && "unused154"@[4] == 'e' && "unused154"@[5] == 'd' && "unused154"@[6] == '1' && "unused154"@[7] == '5' && "unused154"@[8] == '4',
            "unused155"@.len() == 9 && "unused155"@[0] == 'u' && "unused155"@[1] == 'n' && "unused155"@[2] == 'u' && "unused155"@[3] == 's' && "unused155"@[4] == 'e' && "unused155"@[5] == 'd' && "unused155"@[6] == '1' && "unused155"@[7] == '5' && "unused155"@[8] == '5',
            "unused156"@.len() == 9 && "unused156"@[0] == 'u' && "unused156"@[1] == 'n' && "unused156"@[2] == 'u' && "unused156"@[3] == 's' && "unused156"@[4] == 'e' && "unused156"@[5] == 'd' && "unused156"@[6] == '1' && "unused156"@[7] == '5' && "unused156"@[8] == '6',
            "unused157"@.len() == 9 && "unused157"@[0] == 'u' && "unused157"@[1] == 'n' && "unused157"@[2] == 'u' && "unused157"@[3] == 's' && "unused157"@[4] == 'e' && "unused157"@[5] == 'd' && "unused157"@[6] == '1' && "unused157"@[7] == '5' && "unused157"@[8] == '7',
            "unused158"@.len() == 9 && "unused158"@[0] == 'u' && "unused158"@[1] == 'n' && "unused158"@[2] == 'u' && "unused158"@[3] == 's' && "unused158"@[4] == 'e' && "unused158"@[5] == 'd' && "unused158"@[6] == '1' && "unused158"@[7] == '5' && "unused158"@[8] == '8',
            "unused159"@.len() == 9 && "unused159"@[0] == 'u' && "unused159"@[1] == 'n' && "unused159"@[2] == 'u' && "unused159"@[3] == 's' && "unused159"@[4] == 'e' && "unused159"@[5] == 'd' && "unused159"@[6] == '1' && "unused159"@[7] == '5' && "unused159"@[8] == '9',
            "unused160"@.len() == 9 && "unused160"@[0] == 'u' && "unused160"@[1] == 'n' && "unused160"@[2] == 'u' && "unused160"@[3] == 's' && "unused160"@[4] == 'e' && "unused160"@[5] == 'd' && "unused160"@[6] == '1' && "unused160"@[7] == '6' && "unused160"@[8] == '0',
    {
        broadcast use vstd::string::group_string_axioms;

        reveal_strlit("unused141");
        reveal_strlit("unused142");
        reveal_strlit("unused143");
        reveal_strlit("unused144");
        reveal_strlit("unused145");
        reveal_strlit("unused146");
        reveal_strlit("unused147");
        reveal_strlit("unused148");
        reveal_strlit("unused149");
        reveal_strlit("unused150");
        reveal_strlit("unused151");
        reveal_strlit("unused152");
        reveal_strlit("unused153");
        reveal_strlit("unused154");
        reveal_strlit("unused155");
        reveal_strlit("unused156");
        reveal_strlit("unused157");
        reveal_strlit("unused158");
        reveal_strlit("unused159");
        reveal_strlit("unused160");
    }

    /// The spelling of known names, character by character.
    proof fn lemma_name_spelling_11()
        ensures
            "unused161"@.len() == 9 && "unused161"@[0] == 'u' && "unused161"@[1] == 'n' && "unused161"@[2] == 'u' && "unused161"@[3] == 's' && "unused161"@[4] == 'e' && "unused161"@[5] == 'd' && "unused161"@[6] == '1' && "unused161"@[7] == '6' && "unused161"@[8] == '1',
            "unused162"@.len() == 9 && "unused162"@[0] == 'u' && "unused162"@[1] == 'n' && "unused162"@[2] == 'u' && "unused162"@[3] == 's' && "unused162"@[4] == 'e' && "unused162"@[5] == 'd' && "unused162"@[6] == '1' && "unused162"@[7] == '6' && "unused162"@[8] == '2',
            "unused163"@.len() == 9 && "unused163"@[0] == 'u' && "unused163"@[1] == 'n' && "unused163"@[2] == 'u' && "unused163"@[3] == 's' && "unused163"@[4] == 'e' && "unused163"@[5] == 'd' && "unused163"@[6] == '1' && "unused163"@[7] == '6' && "unused163"@[8] == '3',
            "unused164"@.len() == 9 && "unused164"@[0] == 'u' && "unused164"@[1] == 'n' && "unused164"@[2] == 'u' && "unused164"@[3] == 's' && "unused164"@[4] == 'e' && "unused164"@[5] == 'd' && "unused164"@[6] == '1' && "unused164"@[7] == '6' && "unused164"@[8] == '4',
            "unused165"@.len() == 9 && "unused165"@[0] == 'u' && "unused165"@[1] == 'n' && "unused165"@[2] == 'u' && "unused165"@[3] == 's' && "unused165"@[4] == 'e' && "unused165"@[5] == 'd' && "unused165"@[6] == '1' && "unused165"@[7] == '6' && "unused165"@[8] == '5',
            "unused166"@.len() == 9 && "unused166"@[0] == 'u' && "unused166"@[1] == 'n' && "unused166"@[2] == 'u' && "unused166"@[3] == 's' && "unused166"@[4] == 'e' && "unused166"@[5] == 'd' && "unused166"@[6] == '1' && "unused166"@[7] == '6' && "unused166"@[8] == '6',
            "unused167"@.len() == 9 && "unused167"@[0] == 'u' && "unused167"@[1] == 'n' && "unused167"@[2] == 'u' && "unused167"@[3] == 's' && "unused167"@[4] == 'e' && "unused167"@[5] == 'd' && "unused167"@[6] == '1' && "unused167"@[7] == '6' && "unused167"@[8] == '7',
            "unused168"@.len() == 9 && "unused168"@[0] == 'u' && "unused168"@[1] == 'n' && "unused168"@[2] == 'u' && "unused168"@[3] == 's' && "unused168"@[4] == 'e' && "unused168"@[5] == 'd' && "unused168"@[6] == '1' && "unused168"@[7] == '6' && "unused168"@[8] == '8',
            "unused169"@.len() == 9 && "unused169"@[0] == 'u' && "unused169"@[1] == 'n' && "unused169"@[2] == 'u' && "unused169"@[3] == 's' && "unused169"@[4] == 'e' && "unused169"@[5] == 'd' && "unused169"@[6] == '1' && "unused169"@[7] == '6' && "unused169"@[8] == '9',
            "unused170"@.len() == 9 && "unused170"@[0] == 'u' && "unused170"@[1] == 'n' && "unused170"@[2] == 'u' && "unused170"@[3] == 's' && "unused170"@[4] == 'e' && "unused170"@[5] == 'd' && "unused170"@[6] == '1' && "unused170"@[7] == '7' && "unused170"@[8] == '0',
            "unused171"@.len() == 9 && "unused171"@[0] == 'u' && "unused171"@[1] == 'n' && "unused171"@[2] == 'u' && "unused171"@[3] == 's' && "unused171"@[4] == 'e' && "unused171"@[5] == 'd' && "unused171"@[6] == '1' && "unused171"@[7] == '7' && "unused171"@[8] == '1',
            "unused172"@.len() == 9 && "unused172"@[0] == 'u' && "unused172"@[1] == 'n' && "unused172"@[2] == 'u' && "unused172"@[3] == 's' && "unused172"@[4] == 'e' && "unused172"@[5] == 'd' && "unused172"@[6] == '1' && "unused172"@[7] == '7' && "unused172"@[8] == '2',
            "unused173"@.len() == 9 && "unused173"@[0] == 'u' && "unused173"@[1] == 'n' && "unused173"@[2] == 'u' && "unused173"@[3] == 's' && "unused173"@[4] == 'e' && "unused173"@[5] == 'd' && "unused173"@[6] == '1' && "unused173"@[7] == '7' && "unused173"@[8] == '3',
            "unused174"@.len() == 9 && "unused174"@[0] == 'u' && "unused174"@[1] == 'n' && "unused174"@[2] == 'u' && "unused174"@[3] == 's' && "unused174"@[4] == 'e' && "unused174"@[5] == 'd' && "unused174"@[6] == '1' && "unused174"@[7] == '7' && "unused174"@[8] == '4',
            "unused175"@.len() == 9 && "unused175"@[0] == 'u' && "unused175"@[1] == 'n' && "unused175"@[2] == 'u' && "unused175"@[3] == 's' && "unused175"@[4] == 'e' && "unused175"@[5] == 'd' && "unused175"@[6] == '1' && "unused175"@[7] == '7' && "unused175"@[8] == '5',
            "unused176"@.len() == 9 && "unused176"@[0] == 'u' && "unused176"@[1] == 'n' && "unused176"@[2] == 'u' && "unused176"@[3] == 's' && "unused176"@[4] == 'e' && "unused176"@[5] == 'd' && "unused176"@[6] == '1' && "unused176"@[7] == '7' && "unused176"@[8] == '6',
            "unused177"@.len() == 9 && "unused177"@[0] == 'u' && "unused177"@[1] == 'n' && "unused177"@[2] == 'u' && "unused177"@[3] == 's' && "unused177"@[4] == 'e' && "unused177"@[5] == 'd' && "unused177"@[6] == '1' && "unused177"@[7] == '7' && "unused177"@[8] == '7',
            "unused178"@.len() == 9 && "unused178"@[0] == 'u' && "unused178"@[1] == 'n' && "unused178"@[2] == 'u' && "unused178"@[3] == 's' && "unused178"@[4] == 'e' && "unused178"@[5] == 'd' && "unused178"@[6] == '1' && "unused178"@[7] == '7' && "unused178"@[8] == '8',
            "unused179"@.len() == 9 && "unused179"@[0] == 'u' && "unused179"@[1] == 'n' && "unused179"@[2] == 'u' && "unused179"@[3] == 's' && "unused179"@[4] == 'e' && "unused179"@[5] == 'd' && "unused179"@[6] == '1' && "unused179"@[7] == '7' && "unused179"@[8] == '9',
            "unused180"@.len() == 9 && "unused180"@[0] == 'u' && "unused180"@[1] == 'n' && "unused180"@[2] == 'u' && "unused180"@[3] == 's' && "unused180"@[4] == 'e' && "unused180"@[5] == 'd' && "unused180"@[6] == '1' && "unused180"@[7] == '8' && "unused180"@[8] == '0',
    {
        broadcast use vstd::string::group_string_axioms;

        reveal_strlit("unused161");
        reveal_strlit("unused162");
        reveal_strlit("unused163");
        reveal_strlit("unused164");
        reveal_strlit("unused165");
        reveal_strlit("unused166");
        reveal_strlit("unused167");
        reveal_strlit("unused168");
        reveal_strlit("unused169");
        reveal_strlit("unused170");
        reveal_strlit("unused171");
        reveal_strlit("unused172");
        reveal_strlit("unused173");
        reveal_strlit("unused174");
        reveal_strlit("unused175");
        reveal_strlit("unused176");
        reveal_strlit("unused177");
        reveal_strlit("unused178");
        reveal_strlit("unused179");
        reveal_strlit("unused180");
    }

    /// The spelling of known names, character by character.
    proof fn lemma_name_spelling_12()
        ensures
            "unused181"@.len() == 9 && "unused181"@[0] == 'u' && "unused181"@[1] == 'n' && "unused181"@[2] == 'u' && "unused181"@[3] == 's' && "unused181"@[4] == 'e' && "unused181"@[5] == 'd' && "unused181"@[6] == '1' && "unused181"@[7] == '8' && "unused181"@[8] == '1',
            "unused182"@.len() == 9 && "unused182"@[0] == 'u' && "unused182"@[1] == 'n' && "unused182"@[2] == 'u' && "unused182"@[3] == 's' && "unused182"@[4] == 'e' && "unused182"@[5] == 'd' && "unused182"@[6] == '1' && "unused182"@[7] == '8' && "unused182"@[8] == '2',
            "unused183"@.len() == 9 && "unused183"@[0] == 'u' && "unused183"@[1] == 'n' && "unused183"@[2] == 'u' && "unused183"@[3] == 's' && "unused183"@[4] == 'e' && "unused183"@[5] == 'd' && "unused183"@[6] == '1' && "unused183"@[7] == '8' && "unused183"@[8] == '3',
            "unused184"@.len() == 9 && "unused184"@[0] == 'u' && "unused184"@[1] == 'n' && "unused184"@[2] == 'u' && "unused184"@[3] == 's' && "unused184"@[4] == 'e' && "unused184"@[5] == 'd' && "unused184"@[6] == '1' && "unused184"@[7] == '8' && "unused184"@[8] == '4',
            "unused185"@.len() == 9 && "unused185"@[0] == 'u' && "unused185"@[1] == 'n' && "unused185"@[2] == 'u' && "unused185"@[3] == 's' && "unused185"@[4] == 'e' && "unused185"@[5] == 'd' && "unused185"@[6] == '1' && "unused185"@[7] == '8' && "unused185"@[8] == '5',
            "unused186"@.len() == 9 && "unused186"@[0] == 'u' && "unused186"@[1] == 'n' && "unused186"@[2] == 'u' && "unused186"@[3] == 's' && "unused186"@[4] == 'e' && "unused186"@[5] == 'd' && "unused186"@[6] == '1' && "unused186"@[7] == '8' && "unused186"@[8] == '6',
            "unused187"@.len() == 9 && "unused187"@[0] == 'u' && "unused187"@[1] == 'n' && "unused187"@[2] == 'u' && "unused187"@[3] == 's' && "unused187"@[4] == 'e' && "unused187"@[5] == 'd' && "unused187"@[6] == '1' && "unused187"@[7] == '8' && "unused187"@[8] == '7',
            "unused188"@.len() == 9 && "unused188"@[0] == 'u' && "unused188"@[1] == 'n' && "unused188"@[2] == 'u' && "unused188"@[3] == 's' && "unused188"@[4] == 'e' && "unused188"@[5] == 'd' && "unused188"@[6] == '1' && "unused188"@[7] == '8' && "unused188"@[8] == '8',
            "unused189"@.len() == 9 && "unused189"@[0] == 'u' && "unused189"@[1] == 'n' && "unused189"@[2] == 'u' && "unused189"@[3] == 's' && "unused189"@[4] == 'e' && "unused189"@[5] == 'd' && "unused189"@[6] == '1' && "unused189"@[7] == '8' && "unused189"@[8] == '9',
            "unused190"@.len() == 9 && "unused190"@[0] == 'u' && "unused190"@[1] == 'n' && "unused190"@[2] == 'u' && "unused190"@[3] == 's' && "unused190"@[4] == 'e' && "unused190"@[5] == 'd' && "unused190"@[6] == '1' && "unused190"@[7] == '9' && "unused190"@[8] == '0',
            "unused191"@.len() == 9 && "unused191"@[0] == 'u' && "unused191"@[1] == 'n' && "unused191"@[2] == 'u' && "unused191"@[3] == 's' && "unused191"@[4] == 'e' && "unused191"@[5] == 'd' && "unused191"@[6] == '1' && "unused191"@[7] == '9' && "unused191"@[8] == '1',
            "unused192"@.len() == 9 && "unused192"@[0] == 'u' && "unused192"@[1] == 'n' && "unused192"@[2] == 'u' && "unused192"@[3] == 's' && "unused192"@[4] == 'e' && "unused192"@[5] == 'd' && "unused192"@[6] == '1' && "unused192"@[7] == '9' && "unused192"@[8] == '2',
            "unused193"@.len() == 9 && "unused193"@[0] == 'u' && "unused193"@[1] == 'n' && "unused193"@[2] == 'u' && "unused193"@[3] == 's' && "unused193"@[4] == 'e' && "unused193"@[5] == 'd' && "unused193"@[6] == '1' && "unused193"@[7] == '9' && "unused193"@[8] == '3',
            "unused194"@.len() == 9 && "unused194"@[0] == 'u' && "unused194"@[1] == 'n' && "unused194"@[2] == 'u' && "unused194"@[3] == 's' && "unused194"@[4] == 'e' && "unused194"@[5] == 'd' && "unused194"@[6] == '1' && "unused194"@[7] == '9' && "unused194"@[8] == '4',
            "unused195"@.len() == 9 && "unused195"@[0] == 'u' && "unused195"@[1] == 'n' && "unused195"@[2] == 'u' && "unused195"@[3] == 's' && "unused195"@[4] == 'e' && "unused195"@[5] == 'd' && "unused195"@[6] == '1' && "unused195"@[7] == '9' && "unused195"@[8] == '5',
            "unused196"@.len() == 9 && "unused196"@[0] == 'u' && "unused196"@[1] == 'n' && "unused196"@[2] == 'u' && "unused196"@[3] == 's' && "unused196"@[4] == 'e' && "unused196"@[5] == 'd' && "unused196"@[6] == '1' && "unused196"@[7] == '9' && "unused196"@[8] == '6',
            "unused197"@.len() == 9 && "unused197"@[0] == 'u' && "unused197"@[1] == 'n' && "unused197"@[2] == 'u' && "unused197"@[3] == 's' && "unused197"@[4] == 'e' && "unused197"@[5] == 'd' && "unused197"@[6] == '1' && "unused197"@[7] == '9' && "unused197"@[8] == '7',
            "unused198"@.len() == 9 && "unused198"@[0] == 'u' && "unused198"@[1] == 'n' && "unused198"@[2] == 'u' && "unused198"@[3] == 's' && "unused198"@[4] == 'e' && "unused198"@[5] == 'd' && "unused198"@[6] == '1' && "unused198"@[7] == '9' && "unused198"@[8] == '8',
            "unused199"@.len() == 9 && "unused199"@[0] == 'u' && "unused199"@[1] == 'n' && "unused199"@[2] == 'u' && "unused199"@[3] == 's' && "unused199"@[4] == 'e' && "unused199"@[5] == 'd' && "unused199"@[6] == '1' && "unused199"@[7] == '9' && "unused199"@[8] == '9',
            "unused200"@.len() == 9 && "unused200"@[0] == 'u' && "unused200"@[1] == 'n' && "unused200"@[2] == 'u' && "unused200"@[3] == 's' && "unused200"@[4] == 'e' && "unused200"@[5] == 'd' && "unused200"@[6] == '2' && "unused200"@[7] == '0' && "unused200"@[8] == '0',
    {
        broadcast use vstd::string::group_string_axioms;

        reveal_strlit("unused181");
        reveal_strlit("unused182");
        reveal_strlit("unused183");
        reveal_strlit("unused184");
        reveal_strlit("unused185");
        reveal_strlit("unused186");
        reveal_strlit("unused187");
        reveal_strlit("unused188");
        reveal_strlit("unused189");
        reveal_strlit("unused190");
        reveal_strlit("unused191");
        reveal_strlit("unused192");
        reveal_strlit("unused193");
        reveal_strlit("unused194");
        reveal_strlit("unused195");
        reveal_strlit("unused196");
        reveal_strlit("unused197");
        reveal_strlit("unused198");
        reveal_strlit("unused199");
        reveal_strlit("unused200");
    }

    /// The spelling of known names, character by character.
    proof fn lemma_name_spelling_13()
        ensures
            "unused201"@.len() == 9 && "unused201"@[0] == 'u' && "unused201"@[1] == 'n' && "unused201"@[2] == 'u' && "unused201"@[3] == 's' && "unused201"@[4] == 'e' && "unused201"@[5] == 'd' && "unused201"@[6] == '2' && "unused201"@[7] == '0' && "unused201"@[8] == '1',
            "unused202"@.len() == 9 && "unused202"@[0] == 'u' && "unused202"@[1] == 'n' && "unused202"@[2] == 'u' && "unused202"@[3] == 's' && "unused202"@[4] == 'e' && "unused202"@[5] == 'd' && "unused202"@[6] == '2' && "unused202"@[7] == '0' && "unused202"@[8] == '2',
            "unused203"@.len() == 9 && "unused203"@[0] == 'u' && "unused203"@[1] == 'n' && "unused203"@[2] == 'u' && "unused203"@[3] == 's' && "unused203"@[4] == 'e' && "unused203"@[5] == 'd' && "unused203"@[6] == '2' && "unused203"@[7] == '0' && "unused203"@[8] == '3',
            "unused204"@.len() == 9 && "unused204"@[0] == 'u' && "unused204"@[1] == 'n' && "unused204"@[2] == 'u' && "unused204"@[3] == 's' && "unused204"@[4] == 'e' && "unused204"@[5] == 'd' && "unused204"@[6] == '2' && "unused204"@[7] == '0' && "unused204"@[8] == '4',
            "unused205"@.len() == 9 && "unused205"@[0] == 'u' && "unused205"@[1] == 'n' && "unused205"@[2] == 'u' && "unused205"@[3] == 's' && "unused205"@[4] == 'e' && "unused205"@[5] == 'd' && "unused205"@[6] == '2' && "unused205"@[7] == '0' && "unused205"@[8] == '5',
            "unused206"@.len() == 9 && "unused206"@[0] == 'u' && "unused206"@[1] == 'n' && "unused206"@[2] == 'u' && "unused206"@[3] == 's' && "unused206"@[4] == 'e' && "unused206"@[5] == 'd' && "unused206"@[6] == '2' && "unused206"@[7] == '0' && "unused206"@[8] == '6',
            "unused207"@.len() == 9 && "unused207"@[0] == 'u' && "unused207"@[1] == 'n' && "unused207"@[2] == 'u' && "unused207"@[3] == 's' && "unused207"@[4] == 'e' && "unused207"@[5] == 'd' && "unused207"@[6] == '2' && "unused207"@[7] == '0' && "unused207"@[8] == '7',
            "unused208"@.len() == 9 && "unused208"@[0] == 'u' && "unused208"@[1] == 'n' && "unused208"@[2] == 'u' && "unused208"@[3] == 's' && "unused208"@[4] == 'e' && "unused208"@[5] == 'd' && "unused208"@[6] == '2' && "unused208"@[7] == '0' && "unused208"@[8] == '8',
            "unused209"@.len() == 9 && "unused209"@[0] == 'u' && "unused209"@[1] == 'n' && "unused209"@[2] == 'u' && "unused209"@[3] == 's' && "unused209"@[4] == 'e' && "unused209"@[5] == 'd' && "unused209"@[6] == '2' && "unused209"@[7] == '0' && "unused209"@[8] == '9',
            "unused210"@.len() == 9 && "unused210"@[0] == 'u' && "unused210"@[1] == 'n' && "unused210"@[2] == 'u' && "unused210"@[3] == 's' && "unused210"@[4] == 'e' && "unused210"@[5] == 'd' && "unused210"@[6] == '2' && "unused210"@[7] == '1' && "unused210"@[8] == '0',
            "unused211"@.len() == 9 && "unused211"@[0] == 'u' && "unused211"@[1] == 'n' && "unused211"@[2] == 'u' && "unused211"@[3] == 's' && "unused211"@[4] == 'e' && "unused211"@[5] == 'd' && "unused211"@[6] == '2' && "unused211"@[7] == '1' && "unused211"@[8] == '1',
            "unused212"@.len() == 9 && "unused212"@[0] == 'u' && "unused212"@[1] == 'n' && "unused212"@[2] == 'u' && "unused212"@[3] == 's' && "unused212"@[4] == 'e' && "unused212"@[5] == 'd' && "unused212"@[6] == '2' && "unused212"@[7] == '1' && "unused212"@[8] == '2',
            "unused213"@.len() == 9 && "unused213"@[0] == 'u' && "unused213"@[1] == 'n' && "unused213"@[2] == 'u' && "unused213"@[3] == 's' && "unused213"@[4] == 'e' && "unused213"@[5] == 'd' && "unused213"@[6] == '2' && "unused213"@[7] == '1' && "unused213"@[8] == '3',
            "unused214"@.len() == 9 && "unused214"@[0] == 'u' && "unused214"@[1] == 'n' && "unused214"@[2] == 'u' && "unused214"@[3] == 's' && "unused214"@[4] == 'e' && "unused214"@[5] == 'd' && "unused214"@[6] == '2' && "unused214"@[7] == '1' && "unused214"@[8] == '4',
            "unused215"@.len() == 9 && "unused215"@[0] == 'u' && "unused215"@[1] == 'n' && "unused215"@[2] == 'u' && "unused215"@[3] == 's' && "unused215"@[4] == 'e' && "unused215"@[5] == 'd' && "unused215"@[6] == '2' && "unused215"@[7] == '1' && "unused215"@[8] == '5',
            "unused216"@.len() == 9 && "unused216"@[0] == 'u' && "unused216"@[1] == 'n' && "unused216"@[2] == 'u' && "unused216"@[3] == 's' && "unused216"@[4] == 'e' && "unused216"@[5] == 'd' && "unused216"@[6] == '2' && "unused216"@[7] == '1' && "unused216"@[8] == '6',
            "unused217"@.len() == 9 && "unused217"@[0] == 'u' && "unused217"@[1] == 'n' && "unused217"@[2] == 'u' && "unused217"@[3] == 's' && "unused217"@[4] == 'e' && "unused217"@[5] == 'd' && "unused217"@[6] == '2' && "unused217"@[7] == '1' && "unused217"@[8] == '7',
            "unused218"@.len() == 9 && "unused218"@[0] == 'u' && "unused218"@[1] == 'n' && "unused218"@[2] == 'u' && "unused218"@[3] == 's' && "unused218"@[4] == 'e' && "unused218"@[5] == 'd' && "unused218"@[6] == '2' && "unused218"@[7] == '1' && "unused218"@[8] == '8',
            "unused219"@.len() == 9 && "unused219"@[0] == 'u' && "unused219"@[1] == 'n' && "unused219"@[2] == 'u' && "unused219"@[3] == 's' && "unused219"@[4] == 'e' && "unused219"@[5] == 'd' && "unused219"@[6] == '2' && "unused219"@[7] == '1' && "unused219"@[8] == '9',
            "unused220"@.len() == 9 && "unused220"@[0] == 'u' && "unused220"@[1] == 'n' && "unused220"@[2] == 'u' && "unused220"@[3] == 's' && "unused220"@[4] == 'e' && "unused220"@[5] == 'd' && "unused220"@[6] == '2' && "unused220"@[7] == '2' && "unused220"@[8] == '0',
    {
        broadcast use vstd::string::group_string_axioms;

        reveal_strlit("unused201");
        reveal_strlit("unused202");
        reveal_strlit("unused203");
        reveal_strlit("unused204");
        reveal_strlit("unused205");
        reveal_strlit("unused206");
        reveal_strlit("unused207");
        reveal_strlit("unused208");
        reveal_strlit("unused209");
        reveal_strlit("unused210");
        reveal_strlit("unused211");
        reveal_strlit("unused212");
        reveal_strlit("unused213");
        reveal_strlit("unused214");
        reveal_strlit("unused215");
        reveal_strlit("unused216");
        reveal_strlit("unused217");
        reveal_strlit("unused218");
        reveal_strlit("unused219");
        reveal_strlit("unused220");
    }

    /// The spelling of known names, character by character.
    proof fn lemma_name_spelling_14()
        ensures
            "unused221"@.len() == 9 && "unused221"@[0] == 'u' && "unused221"@[1] == 'n' && "unused221"@[2] == 'u' && "unused221"@[3] == 's' && "unused221"@[4] == 'e' && "unused221"@[5] == 'd' && "unused221"@[6] == '2' && "unused221"@[7] == '2' && "unused221"@[8] == '1',
            "unused222"@.len() == 9 && "unused222"@[0] == 'u' && "unused222"@[1] == 'n' && "unused222"@[2] == 'u' && "unused222"@[3] == 's' && "unused222"@[4] == 'e' && "unused222"@[5] == 'd' && "unused222"@[6] == '2' && "unused222"@[7] == '2' && "unused222"@[8] == '2',
            "unused223"@.len() == 9 && "unused223"@[0] == 'u' && "unused223"@[1] == 'n' && "unused223"@[2] == 'u' && "unused223"@[3] == 's' && "unused223"@[4] == 'e' && "unused223"@[5] == 'd' && "unused223"@[6] == '2' && "unused223"@[7] == '2' && "unused223"@[8] == '3',
            "unused224"@.len() == 9 && "unused224"@[0] == 'u' && "unused224"@[1] == 'n' && "unused224"@[2] == 'u' && "unused224"@[3] == 's' && "unused224"@[4] == 'e' && "unused224"@[5] == 'd' && "unused224"@[6] == '2' && "unused224"@[7] == '2' && "unused224"@[8] == '4',
            "unused225"@.len() == 9 && "unused225"@[0] == 'u' && "unused225"@[1] == 'n' && "unused225"@[2] == 'u' && "unused225"@[3] == 's' && "unused225"@[4] == 'e' && "unused225"@[5] == 'd' && "unused225"@[6] == '2' && "unused225"@[7] == '2' && "unused225"@[8] == '5',
            "unused226"@.len() == 9 && "unused226"@[0] == 'u' && "unused226"@[1] == 'n' && "unused226"@[2] == 'u' && "unused226"@[3] == 's' && "unused226"@[4] == 'e' && "unused226"@[5] == 'd' && "unused226"@[6] == '2' && "unused226"@[7] == '2' && "unused226"@[8] == '6',
            "unused227"@.len() == 9 && "unused227"@[0] == 'u' && "unused227"@[1] == 'n' && "unused227"@[2] == 'u' && "unused227"@[3] == 's' && "unused227"@[4] == 'e' && "unused227"@[5] == 'd' && "unused227"@[6] == '2' && "unused227"@[7] == '2' && "unused227"@[8] == '7',
            "unused228"@.len() == 9 && "unused228"@[0] == 'u' && "unused228"@[1] == 'n' && "unused228"@[2] == 'u' && "unused228"@[3] == 's' && "unused228"@[4] == 'e' && "unused228"@[5] == 'd' && "unused228"@[6] == '2' && "unused228"@[7] == '2' && "unused228"@[8] == '8',
            "unused229"@.len() == 9 && "unused229"@[0] == 'u' && "unused229"@[1] == 'n' && "unused229"@[2] == 'u' && "unused229"@[3] == 's' && "unused229"@[4] == 'e' && "unused229"@[5] == 'd' && "unused229"@[6] == '2' && "unused229"@[7] == '2' && "unused229"@[8] == '9',
            "unused230"@.len() == 9 && "unused230"@[0] == 'u' && "unused230"@[1] == 'n' && "unused230"@[2] == 'u' && "unused230"@[3] == 's' && "unused230"@[4] == 'e' && "unused230"@[5] == 'd' && "unused230"@[6] == '2' && "unused230"@[7] == '3' && "unused230"@[8] == '0',
            "unused231"@.len() == 9 && "unused231"@[0] == 'u' && "unused231"@[1] == 'n' && "unused231"@[2] == 'u' && "unused231"@[3] == 's' && "unused231"@[4] == 'e' && "unused231"@[5] == 'd' && "unused231"@[6] == '2' && "unused231"@[7] == '3' && "unused231"@[8] == '1',
            "unused232"@.len() == 9 && "unused232"@[0] == 'u' && "unused232"@[1] == 'n' && "unused232"@[2] == 'u' && "unused232"@[3] == 's' && "unused232"@[4] == 'e' && "unused232"@[5] == 'd' && "unused232"@[6] == '2' && "unused232"@[7] == '3' && "unused232"@[8] == '2',
            "unused233"@.len() == 9 && "unused233"@[0] == 'u' && "unused233"@[1] == 'n' && "unused233"@[2] == 'u' && "unused233"@[3] == 's' && "unused233"@[4] == 'e' && "unused233"@[5] == 'd' && "unused233"@[6] == '2' && "unused233"@[7] == '3' && "unused233"@[8] == '3',
            "unused234"@.len() == 9 && "unused234"@[0] == 'u' && "unused234"@[1] == 'n' && "unused234"@[2] == 'u' && "unused234"@[3] == 's' && "unused234"@[4] == 'e' && "unused234"@[5] == 'd' && "unused234"@[6] == '2' && "unused234"@[7] == '3' && "unused234"@[8] == '4',
            "unused235"@.len() == 9 && "unused235"@[0] == 'u' && "unused235"@[1] == 'n' && "unused235"@[2] == 'u' && "unused235"@[3] == 's' && "unused235"@[4] == 'e' && "unused235"@[5] == 'd' && "unused235"@[6] == '2' && "unused235"@[7] == '3' && "unused235"@[8] == '5',
            "unused236"@.len() == 9 && "unused236"@[0] == 'u' && "unused236"@[1] == 'n' && "unused236"@[2] == 'u' && "unused236"@[3] == 's' && "unused236"@[4] == 'e' && "unused236"@[5] == 'd' && "unused236"@[6] == '2' && "unused236"@[7] == '3' && "unused236"@[8] == '6',
            "unused237"@.len() == 9 && "unused237"@[0] == 'u' && "unused237"@[1] == 'n' && "unused237"@[2] == 'u' && "unused237"@[3] == 's' && "unused237"@[4] == 'e' && "unused237"@[5] == 'd' && "unused237"@[6] == '2' && "unused237"@[7] == '3' && "unused237"@[8] == '7',
            "unused238"@.len() == 9 && "unused238"@[0] == 'u' && "unused238"@[1] == 'n' && "unused238"@[2] == 'u' && "unused238"@[3] == 's' && "unused238"@[4] == 'e' && "unused238"@[5] == 'd' && "unused238"@[6] == '2' && "unused238"@[7] == '3' && "unused238"@[8] == '8',
            "unused239"@.len() == 9 && "unused239"@[0] == 'u' && "unused239"@[1] == 'n' && "unused239"@[2] == 'u' && "unused239"@[3] == 's' && "unused239"@[4] == 'e' && "unused239"@[5] == 'd' && "unused239"@[6] == '2' && "unused239"@[7] == '3' && "unused239"@[8] == '9',
            "unused240"@.len() == 9 && "unused240"@[0] == 'u' && "unused240"@[1] == 'n' && "unused240"@[2] == 'u' && "unused240"@[3] == 's' && "unused240"@[4] == 'e' && "unused240"@[5] == 'd' && "unused240"@[6] == '2' && "unused240"@[7] == '4' && "unused240"@[8] == '0',
    {
        broadcast use vstd::string::group_string_axioms;

        reveal_strlit("unused221");
        reveal_strlit("unused222");
        reveal_strlit("unused223");
        reveal_strlit("unused224");
        reveal_strlit("unused225");
        reveal_strlit("unused226");
        reveal_strlit("unused227");
        reveal_strlit("unused228");
        reveal_strlit("unused229");
        reveal_strlit("unused230");
        reveal_strlit("unused231");
        reveal_strlit("unused232");
        reveal_strlit("unused233");
        reveal_strlit("unused234");
        reveal_strlit("unused235");
        reveal_strlit("unused236");
        reveal_strlit("unused237");
        reveal_strlit("unused238");
        reveal_strlit("unused239");
        reveal_strlit("unused240");
    }

    /// The spelling of known names, character by character.
    proof fn lemma_name_spelling_15()
        ensures
            "unused241"@.len() == 9 && "unused241"@[0] == 'u' && "unused241"@[1] == 'n' && "unused241"@[2] == 'u' && "unused241"@[3] == 's' && "unused241"@[4] == 'e' && "unused241"@[5] == 'd' && "unused241"@[6] == '2' && "unused241"@[7] == '4' && "unused241"@[8] == '1',
            "unused242"@.len() == 9 && "unused242"@[0] == 'u' && "unused242"@[1] == 'n' && "unused242"@[2] == 'u' && "unused242"@[3] == 's' && "unused242"@[4] == 'e' && "unused242"@[5] == 'd' && "unused242"@[6] == '2' && "unused242"@[7] == '4' && "unused242"@[8] == '2',
            "unused243"@.len() == 9 && "unused243"@[0] == 'u' && "unused243"@[1] == 'n' && "unused243"@[2] == 'u' && "unused243"@[3] == 's' && "unused243"@[4] == 'e' && "unused243"@[5] == 'd' && "unused243"@[6] == '2' && "unused243"@[7] == '4' && "unused243"@[8] == '3',
            "unused244"@.len() == 9 && "unused244"@[0] == 'u' && "unused244"@[1] == 'n' && "unused244"@[2] == 'u' && "unused244"@[3] == 's' && "unused244"@[4] == 'e' && "unused244"@[5] == 'd' && "unused244"@[6] == '2' && "unused244"@[7] == '4' && "unused244"@[8] == '4',
            "unused245"@.len() == 9 && "unused245"@[0] == 'u' && "unused245"@[1] == 'n' && "unused245"@[2] == 'u' && "unused245"@[3] == 's' && "unused245"@[4] == 'e' && "unused245"@[5] == 'd' && "unused245"@[6] == '2' && "unused245"@[7] == '4' && "unused245"@[8] == '5',
            "unused246"@.len() == 9 && "unused246"@[0] == 'u' && "unused246"@[1] == 'n' && "unused246"@[2] == 'u' && "unused246"@[3] == 's' && "unused246"@[4] == 'e' && "unused246"@[5] == 'd' && "unused246"@[6] == '2' && "unused246"@[7] == '4' && "unused246"@[8] == '6',
            "unused247"@.len() == 9 && "unused247"@[0] == 'u' && "unused247"@[1] == 'n' && "unused247"@[2] == 'u' && "unused247"@[3] == 's' && "unused247"@[4] == 'e' && "unused247"@[5] == 'd' && "unused247"@[6] == '2' && "unused247"@[7] == '4' && "unused247"@[8] == '7',
            "unused248"@.len() == 9 && "unused248"@[0] == 'u' && "unused248"@[1] == 'n' && "unused248"@[2] == 'u' && "unused248"@[3] == 's' && "unused248"@[4] == 'e' && "unused248"@[5] == 'd' && "unused248"@[6] == '2' && "unused248"@[7] == '4' && "unused248"@[8] == '8',
            "unused249"@.len() == 9 && "unused249"@[0] == 'u' && "unused249"@[1] == 'n' && "unused249"@[2] == 'u' && "unused249"@[3] == 's' && "unused249"@[4] == 'e' && "unused249"@[5] == 'd' && "unused249"@[6] == '2' && "unused249"@[7] == '4' && "unused249"@[8] == '9',
            "unused250"@.len() == 9 && "unused250"@[0] == 'u' && "unused250"@[1] == 'n' && "unused250"@[2] == 'u' && "unused250"@[3] == 's' && "unused250"@[4] == 'e' && "unused250"@[5] == 'd' && "unused250"@[6] == '2' && "unused250"@[7] == '5' && "unused250"@[8] == '0',
            "unused251"@.len() == 9 && "unused251"@[0] == 'u' && "unused251"@[1] == 'n' && "unused251"@[2] == 'u' && "unused251"@[3] == 's' && "unused251"@[4] == 'e' && "unused251"@[5] == 'd' && "unused251"@[6] == '2' && "unused251"@[7] == '5' && "unused251"@[8] == '1',
            "unused252"@.len() == 9 && "unused252"@[0] == 'u' && "unused252"@[1] == 'n' && "unused252"@[2] == 'u' && "unused252"@[3] == 's' && "unused252"@[4] == 'e' && "unused252"@[5] == 'd' && "unused252"@[6] == '2' && "unused252"@[7] == '5' && "unused252"@[8] == '2',
            "unused253"@.len() == 9 && "unused253"@[0] == 'u' && "unused253"@[1] == 'n' && "unused253"@[2] == 'u' && "unused253"@[3] == 's' && "unused253"@[4] == 'e' && "unused253"@[5] == 'd' && "unused253"@[6] == '2' && "unused253"@[7] == '5' && "unused253"@[8] == '3',
            "unused254"@.len() == 9 && "unused254"@[0] == 'u' && "unused254"@[1] == 'n' && "unused254"@[2] == 'u' && "unused254"@[3] == 's' && "unused254"@[4] == 'e' && "unused254"@[5] == 'd' && "unused254"@[6] == '2' && "unused254"@[7] == '5' && "unused254"@[8] == '4',
            "unused255"@.len() == 9 && "unused255"@[0] == 'u' && "unused255"@[1] == 'n' && "unused255"@[2] == 'u' && "unused255"@[3] == 's' && "unused255"@[4] == 'e' && "unused255"@[5] == 'd' && "unused255"@[6] == '2' && "unused255"@[7] == '5' && "unused255"@[8] == '5',
    {
        broadcast use vstd::string::group_string_axioms;

        reveal_strlit("unused241");
        reveal_strlit("unused242");
        reveal_strlit("unused243");
        reveal_strlit("unused244");
        reveal_strlit("unused245");
        reveal_strlit("unused246");
        reveal_strlit("unused247");
        reveal_strlit("unused248");
        reveal_strlit("unused249");
        reveal_strlit("unused250");
        reveal_strlit("unused251");
        reveal_strlit("unused252");
        reveal_strlit("unused253");
        reveal_strlit("unused254");
        reveal_strlit("unused255");
    }

    proof fn lemma_known_names_0(v: Self)
        requires
            v is Ide0 || v is Ide1 || v is Ide2 || v is Ide3 || v is Scsi0 || v is Scsi1 || v is Scsi2 || v is Scsi3 || v is Scsi4 || v is Scsi5 || v is Scsi6 || v is Scsi7 || v is Scsi8 || v is Scsi9 || v is Scsi10 || v is Scsi11 || v is Scsi12 || v is Scsi13 || v is Scsi14 || v is Scsi15,
        ensures
            Self::known(v.name()) == Some(v),
    {
        Self::lemma_name_spelling_0();
    }

    proof fn lemma_known_names_1(v: Self)
        requires
            v is Scsi16 || v is Scsi17 || v is Scsi18 || v is Scsi19 || v is Scsi20 || v is Scsi21 || v is Scsi22 || v is Scsi23 || v is Scsi24 || v is Scsi25 || v is Scsi26 || v is Scsi27 || v is Scsi28 || v is Scsi29 || v is Scsi30 || v is Virtio0 || v is Virtio1 || v is Virtio2 || v is Virtio3 || v is Virtio4,
        ensures
            Self::known(v.name()) == Some(v),
    {
        Self::lemma_name_spelling_0();
        Self::lemma_name_spelling_1();
    }

    proof fn lemma_known_names_2(v: Self)
        requires
            v is Virtio5 || v is Virtio6 || v is Virtio7 || v is Virtio8 || v is Virtio9 || v is Virtio10 || v is Virtio11 || v is Virtio12 || v is Virtio13 || v is Virtio14 || v is Virtio15 || v is Sata0 || v is Sata1 || v is Sata2 || v is Sata3 || v is Sata4 || v is Sata5 || v is Efidisk0 || v is Tpmstate0 || v is Unused0,
        ensures
            Self::known(v.name()) == Some(v),
    {
        Self::lemma_name_spelling_0();
        Self::lemma_name_spelling_1();
        Self::lemma_name_spelling_2();
    }

    proof fn lemma_known_names_3(v: Self)
        requires
            v is Unused1 || v is Unused2 || v is Unused3 || v is Unused4 || v is Unused5 || v is Unused6 || v is Unused7 || v is Unused8 || v is Unused9 || v is Unused10 || v is Unused11 || v is Unused12 || v is Unused13 || v is Unused14 || v is Unused15 || v is Unused16 || v is Unused17 || v is Unused18 || v is Unused19 || v is Unused20,
        ensures
            Self::known(v.name()) == Some(v),
    {
        Self::lemma_name_spelling_0();
        Self::lemma_name_spelling_1();
        Self::lemma_name_spelling_2();
        Self::lemma_name_spelling_3();
    }

    proof fn lemma_known_names_4(v: Self)
        requires
            v is Unused21 || v is Unused22 || v is Unused23 || v is Unused24 || v is Unused25 || v is Unused26 || v is Unused27 || v is Unused28 || v is Unused29 || v is Unused30 || v is Unused31 || v is Unused32 || v is Unused33 || v is Unused34 || v is Unused35 || v is Unused36 || v is Unused37 || v is Unused38 || v is Unused39 || v is Unused40,
        ensures
            Self::known(v.name()) == Some(v),
    {
        Self::lemma_name_spelling_0();
        Self::lemma_name_spelling_1();
        Self::lemma_name_spelling_2();
        Self::lemma_name_spelling_3();
        Self::lemma_name_spelling_4();
    }

    proof fn lemma_known_names_5(v: Self)
        requires
            v is Unused41 || v is Unused42 || v is Unused43 || v is Unused44 || v is Unused45 || v is Unused46 || v is Unused47 || v is Unused48 || v is Unused49 || v is Unused50 || v is Unused51 || v is Unused52 || v is Unused53 || v is Unused54 || v is Unused55 || v is Unused56 || v is Unused57 || v is Unused58 || v is Unused59 || v is Unused60,
        ensures
            Self::known(v.name()) == Some(v),
    {
        Self::lemma_name_spelling_0();
        Self::lemma_name_spelling_1();
        Self::lemma_name_spelling_2();
        Self::lemma_name_spelling_3();
        Self::lemma_name_spelling_4();
        Self::lemma_name_spelling_5();
    }

    proof fn lemma_known_names_6(v: Self)
        requires
            v is Unused61 || v is Unused62 || v is Unused63 || v is Unused64 || v is Unused65 || v is Unused66 || v is Unused67 || v is Unused68 || v is Unused69 || v is Unused70 || v is Unused71 || v is Unused72 || v is Unused73 || v is Unused74 || v is Unused75 || v is Unused76 || v is Unused77 || v is Unused78 || v is Unused79 || v is Unused80,
        ensures
            Self::known(v.name()) == Some(v),
    {
        Self::lemma_name_spelling_0();
        Self::lemma_name_spelling_1();
        Self::lemma_name_spelling_2();
        Self::lemma_name_spelling_3();
        Self::lemma_name_spelling_4();
        Self::lemma_name_spelling_5();
        Self::lemma_name_spelling_6();
    }

    proof fn lemma_known_names_7(v: Self)
        requires
            v is Unused81 || v is Unused82 || v is Unused83 || v is Unused84 || v is Unused85 || v is Unused86 || v is Unused87 || v is Unused88 || v is Unused89 || v is Unused90 || v is Unused91 || v is Unused92 || v is Unused93 || v is Unused94 || v is Unused95 || v is Unused96 || v is Unused97 || v is Unused98 || v is Unused99 || v is Unused100,
        ensures
            Self::known(v.name()) == Some(v),
    {
        Self::lemma_name_spelling_0();
        Self::lemma_name_spelling_1();
        Self::lemma_name_spelling_2();
        Self::lemma_name_spelling_3();
        Self::lemma_name_spelling_4();
        Self::lemma_name_spelling_5();
        Self::lemma_name_spelling_6();
        Self::lemma_name_spelling_7();
    }

    proof fn lemma_known_names_8(v: Self)
        requires
            v is Unused101 || v is Unused102 || v is Unused103 || v is Unused104 || v is Unused105 || v is Unused106 || v is Unused107 || v is Unused108 || v is Unused109 || v is Unused110 || v is Unused111 || v is Unused112 || v is Unused113 || v is Unused114 || v is Unused115 || v is Unused116 || v is Unused117 || v is Unused118 || v is Unused119 || v is Unused120,
        ensures
            Self::known(v.name()) == Some(v),
    {
        Self::lemma_name_spelling_0();
        Self::lemma_name_spelling_1();
        Self::lemma_name_spelling_2();
        Self::lemma_name_spelling_3();
        Self::lemma_name_spelling_4();
        Self::lemma_name_spelling_5();
        Self::lemma_name_spelling_6();
        Self::lemma_name_spelling_7();
        Self::lemma_name_spelling_8();
    }

    proof fn lemma_known_names_9(v: Self)
        requires
            v is Unused121 || v is Unused122 || v is Unused123 || v is Unused124 || v is Unused125 || v is Unused126 || v is Unused127 || v is Unused128 || v is Unused129 || v is Unused130 || v is Unused131 || v is Unused132 || v is Unused133 || v is Unused134 || v is Unused135 || v is Unused136 || v is Unused137 || v is Unused138 || v is Unused139 || v is Unused140,
        ensures
            Self::known(v.name()) == Some(v),
    {
        Self::lemma_name_spelling_0();
        Self::lemma_name_spelling_1();
        Self::lemma_name_spelling_2();
        Self::lemma_name_spelling_3();
        Self::lemma_name_spelling_4();
        Self::lemma_name_spelling_5();
        Self::lemma_name_spelling_6();
        Self::lemma_name_spelling_7();
        Self::lemma_name_spelling_8();
        Self::lemma_name_spelling_9();
    }

    #[verifier::rlimit(80)]
    proof fn lemma_known_names_10(v: Self)
        requires
            v is Unused141 || v is Unused142 || v is Unused143 || v is Unused144 || v is Unused145 || v is Unused146 || v is Unused147 || v is Unused148 || v is Unused149 || v is Unused150 || v is Unused151 || v is Unused152 || v is Unused153 || v is Unused154 || v is Unused155 || v is Unused156 || v is Unused157 || v is Unused158 || v is Unused159 || v is Unused160,
        ensures
            Self::known(v.name()) == Some(v),
    {
        Self::lemma_name_spelling_0();
        Self::lemma_name_spelling_1();
        Self::lemma_name_spelling_2();
        Self::lemma_name_spelling_3();
        Self::lemma_name_spelling_4();
        Self::lemma_name_spelling_5();
        Self::lemma_name_spelling_6();
        Self::lemma_name_spelling_7();
        Self::lemma_name_spelling_8();
        Self::lemma_name_spelling_9();
        Self::lemma_name_spelling_10();
    }

    #[verifier::rlimit(80)]
    proof fn lemma_known_names_11(v: Self)
        requires
            v is Unused161 || v is Unused162 || v is Unused163 || v is Unused164 || v is Unused165 || v is Unused166 || v is Unused167 || v is Unused168 || v is Unused169 || v is Unused170 || v is Unused171 || v is Unused172 || v is Unused173 || v is Unused174 || v is Unused175 || v is Unused176 || v is Unused177 || v is Unused178 || v is Unused179 || v is Unused180,
        ensures
            Self::known(v.name()) == Some(v),
    {
        Self::lemma_name_spelling_0();
        Self::lemma_name_spelling_1();
        Self::lemma_name_spelling_2();
        Self::lemma_name_spelling_3();
        Self::lemma_name_spelling_4();
        Self::lemma_name_spelling_5();
        Self::lemma_name_spelling_6();
        Self::lemma_name_spelling_7();
        Self::lemma_name_spelling_8();
        Self::lemma_name_spelling_9();
        Self::lemma_name_spelling_10();
        Self::lemma_name_spelling_11();
    }

    #[verifier::rlimit(80)]
    proof fn lemma_known_names_12(v: Self)
        requires
            v is Unused181 || v is Unused182 || v is Unused183 || v is Unused184 || v is Unused185 || v is Unused186 || v is Unused187 || v is Unused188 || v is Unused189 || v is Unused190 || v is Unused191 || v is Unused192 || v is Unused193 || v is Unused194 || v is Unused195 || v is Unused196 || v is Unused197 || v is Unused198 || v is Unused199 || v is Unused200,
        ensures
            Self::known(v.name()) == Some(v),
    {
        Self::lemma_name_spelling_0();
        Self::lemma_name_spelling_1();
        Self::lemma_name_spelling_2();
        Self::lemma_name_spelling_3();
        Self::lemma_name_spelling_4();
        Self::lemma_name_spelling_5();
        Self::lemma_name_spelling_6();
        Self::lemma_name_spelling_7();
        Self::lemma_name_spelling_8();
        Self::lemma_name_spelling_9();
        Self::lemma_name_spelling_10();
        Self::lemma_name_spelling_11();
        Self::lemma_name_spelling_12();
    }

    #[verifier::rlimit(80)]
    proof fn lemma_known_names_13(v: Self)
        requires
            v is Unused201 || v is Unused202 || v is Unused203 || v is Unused204 || v is Unused205 || v is Unused206 || v is Unused207 || v is Unused208 || v is Unused209 || v is Unused210 || v is Unused211 || v is Unused212 || v is Unused213 || v is Unused214 || v is Unused215 || v is Unused216 || v is Unused217 || v is Unused218 || v is Unused219 || v is Unused220,
        ensures
            Self::known(v.name()) == Some(v),
    {
        Self::lemma_name_spelling_0();
        Self::lemma_name_spelling_1();
        Self::lemma_name_spelling_2();
        Self::lemma_name_spelling_3();
        Self::lemma_name_spelling_4();
        Self::lemma_name_spelling_5();
        Self::lemma_name_spelling_6();
        Self::lemma_name_spelling_7();
        Self::lemma_name_spelling_8();
        Self::lemma_name_spelling_9();
        Self::lemma_name_spelling_10();
        Self::lemma_name_spelling_11();
        Self::lemma_name_spelling_12();
        Self::lemma_name_spelling_13();
    }

    #[verifier::rlimit(80)]
    proof fn lemma_known_names_14(v: Self)
        requires
            v is Unused221 || v is Unused222 || v is Unused223 || v is Unused224 || v is Unused225 || v is Unused226 || v is Unused227 || v is Unused228 || v is Unused229 || v is Unused230 || v is Unused231 || v is Unused232 || v is Unused233 || v is Unused234 || v is Unused235 || v is Unused236 || v is Unused237 || v is Unused238 || v is Unused239 || v is Unused240,
        ensures
            Self::known(v.name()) == Some(v),
    {
        Self::lemma_name_spelling_0();
        Self::lemma_name_spelling_1();
        Self::lemma_name_spelling_2();
        Self::lemma_name_spelling_3();
        Self::lemma_name_spelling_4();
        Self::lemma_name_spelling_5();
        Self::lemma_name_spelling_6();
        Self::lemma_name_spelling_7();
        Self::lemma_name_spelling_8();
        Self::lemma_name_spelling_9();
        Self::lemma_name_spelling_10();
        Self::lemma_name_spelling_11();
        Self::lemma_name_spelling_12();
        Self::lemma_name_spelling_13();
        Self::lemma_name_spelling_14();
    }

    #[verifier::rlimit(80)]
    proof fn lemma_known_names_15(v: Self)
        requires
            v is Unused241 || v is Unused242 || v is Unused243 || v is Unused244 || v is Unused245 || v is Unused246 || v is Unused247 || v is Unused248 || v is Unused249 || v is Unused250 || v is Unused251 || v is Unused252 || v is Unused253 || v is Unused254 || v is Unused255,
        ensures
            Self::known(v.name()) == Some(v),
    {
        Self::lemma_name_spelling_0();
        Self::lemma_name_spelling_1();
        Self::lemma_name_spelling_2();
        Self::lemma_name_spelling_3();
        Self::lemma_name_spelling_4();
        Self::lemma_name_spelling_5();
        Self::lemma_name_spelling_6();
        Self::lemma_name_spelling_7();
        Self::lemma_name_spelling_8();
        Self::lemma_name_spelling_9();
        Self::lemma_name_spelling_10();
        Self::lemma_name_spelling_11();
        Self::lemma_name_spelling_12();
        Self::lemma_name_spelling_13();
        Self::lemma_name_spelling_14();
        Self::lemma_name_spelling_15();
    }

}

/// Target Format.
#[derive(Clone, Debug)]
pub enum QemuMoveDiskFormat {
    /// raw.
    Raw,
    /// qcow2.
    Qcow2,
    /// vmdk.
    Vmdk,
    /// Unknown variants for forward compatibility.
    UnknownEnumValue(String),
}

impl PartialEq for QemuMoveDiskFormat {
    fn eq(&self, other: &Self) -> (r: bool) {
        match (self, other) {
            (QemuMoveDiskFormat::Raw, QemuMoveDiskFormat::Raw) => true,
            (QemuMoveDiskFormat::Qcow2, QemuMoveDiskFormat::Qcow2) => true,
            (QemuMoveDiskFormat::Vmdk, QemuMoveDiskFormat::Vmdk) => true,
            (QemuMoveDiskFormat::UnknownEnumValue(a), QemuMoveDiskFormat::UnknownEnumValue(b)) => *a == *b,
            _ => false,
        }
    }
}

impl PartialEqSpecImpl for QemuMoveDiskFormat {
    open spec fn obeys_eq_spec() -> bool {
        true
    }

    open spec fn eq_spec(&self, other: &Self) -> bool {
        match (self, other) {
            (QemuMoveDiskFormat::UnknownEnumValue(a), QemuMoveDiskFormat::UnknownEnumValue(b)) => a@ == b@,
            _ => *self == *other,
        }
    }
}

impl std::str::FromStr for QemuMoveDiskFormat {
    type Err = core::convert::Infallible;

    fn from_str(s: &str) -> (r: Result<Self, Self::Err>)
        ensures
            r matches Ok(v) && Self::parses_to(s@, v),
    {
        Ok(QemuMoveDiskFormat::from_name(s))
    }
}

impl QemuMoveDiskFormat {
    /// The name under which the API writes this value.
    pub open spec fn name(self) -> Seq<char> {
        match self {
            QemuMoveDiskFormat::Raw => "raw"@,
            QemuMoveDiskFormat::Qcow2 => "qcow2"@,
            QemuMoveDiskFormat::Vmdk => "vmdk"@,
            QemuMoveDiskFormat::UnknownEnumValue(s) => s@,
        }
    }

    /// The known value that the API name `s` stands for, if any.
    pub open spec fn known(s: Seq<char>) -> Option<Self> {
        if s == "raw"@ {
            Some(QemuMoveDiskFormat::Raw)
        }         else if s == "qcow2"@ {
            Some(QemuMoveDiskFormat::Qcow2)
        }         else if s == "vmdk"@ {
            Some(QemuMoveDiskFormat::Vmdk)
        } else {
            None
        }
    }

    /// `v` is the value that reading the API name `s` gives.
    pub open spec fn parses_to(s: Seq<char>, v: Self) -> bool {
        match Self::known(s) {
            Some(k) => v == k,
            None => v matches QemuMoveDiskFormat::UnknownEnumValue(t) && t@ == s,
        }
    }

    /// The API name of this value.
    pub fn to_string(&self) -> (r: String)
        ensures
            r@ == self.name(),
    {
        match self {
            QemuMoveDiskFormat::Raw => String::from_str("raw"),
            QemuMoveDiskFormat::Qcow2 => String::from_str("qcow2"),
            QemuMoveDiskFormat::Vmdk => String::from_str("vmdk"),
            QemuMoveDiskFormat::UnknownEnumValue(s) => s.clone(),
        }
    }

    /// Reads an API name; a name that is not known is kept as an unknown value.
    pub fn from_name(s: &str) -> (r: Self)
        ensures
            Self::parses_to(s@, r),
    {
        if str_eq(s, "raw") {
            QemuMoveDiskFormat::Raw
        }         else if str_eq(s, "qcow2") {
            QemuMoveDiskFormat::Qcow2
        }         else if str_eq(s, "vmdk") {
            QemuMoveDiskFormat::Vmdk
        } else {
            QemuMoveDiskFormat::UnknownEnumValue(String::from_str(s))
        }
    }

    /// Each known value goes with the name the API uses for it: `raw` for `Raw`, `qcow2` for `Qcow2`, `vmdk` for `Vmdk`.
    /// `to_string` writes that name and `from_name` reads it as that value.
    pub proof fn lemma_api_names()
        ensures
            QemuMoveDiskFormat::Raw.name() == "raw"@,
            Self::parses_to("raw"@, QemuMoveDiskFormat::Raw),
            QemuMoveDiskFormat::Qcow2.name() == "qcow2"@,
            Self::parses_to("qcow2"@, QemuMoveDiskFormat::Qcow2),
            QemuMoveDiskFormat::Vmdk.name() == "vmdk"@,
            Self::parses_to("vmdk"@, QemuMoveDiskFormat::Vmdk),
    {
        Self::lemma_to_string_from_name(QemuMoveDiskFormat::Raw);
        Self::lemma_to_string_from_name(QemuMoveDiskFormat::Qcow2);
        Self::lemma_to_string_from_name(QemuMoveDiskFormat::Vmdk);
    }

    /// Writing out a value that was read gives back the name that was read.
    pub proof fn lemma_from_name_to_string(s: Seq<char>, v: Self)
        requires
            Self::parses_to(s, v),
        ensures
            v.name() == s,
    {
    }

    /// Reading the name of a value gives back the value, unless the value is an
    /// unknown one that carries the name of a known one.
    pub proof fn lemma_to_string_from_name(v: Self)
        requires
            v is UnknownEnumValue ==> Self::known(v.name()) is None,
        ensures
            Self::parses_to(v.name(), v),
    {
        if !(v is UnknownEnumValue) {
            Self::lemma_known_names(v);
        }
    }

    /// The spelling of known names, character by character.
    proof fn lemma_name_spelling()
        ensures
            "raw"@.len() == 3 && "raw"@[0] == 'r' && "raw"@[1] == 'a' && "raw"@[2] == 'w',
            "qcow2"@.len() == 5 && "qcow2"@[0] == 'q' && "qcow2"@[1] == 'c' && "qcow2"@[2] == 'o' && "qcow2"@[3] == 'w' && "qcow2"@[4] == '2',
            "vmdk"@.len() == 4 && "vmdk"@[0] == 'v' && "vmdk"@[1] == 'm' && "vmdk"@[2] == 'd' && "vmdk"@[3] == 'k',
    {
        broadcast use vstd::string::group_string_axioms;

        reveal_strlit("raw");
        reveal_strlit("qcow2");
        reveal_strlit("vmdk");
    }

    proof fn lemma_known_names(v: Self)
        requires
            !(v is UnknownEnumValue),
        ensures
            Self::known(v.name()) == Some(v),
    {
        Self::lemma_name_spelling();
    }

}

/// Object.
#[derive(Debug)]
pub struct QemuResize {
    /// Prevent changes if current configuration file has different SHA1 digest.
    /// This can be used to prevent concurrent modifications.
    pub digest: Option<String>,

    pub disk: QemuResizeDisk,

    /// The new size. With the `+` sign the value is added to the actual size of
    /// the volume and without it, the value is taken as an absolute one.
    /// Shrinking disk size is not supported.
    pub size: String,

    /// Ignore locks - only root is allowed to use this option.
    pub skiplock: Option<bool>,
}

/// The disk you want to resize.
#[derive(Clone, Debug)]
pub enum QemuResizeDisk {
    /// ide0.
    Ide0,
    /// ide1.
    Ide1,
    /// ide2.
    Ide2,
    /// ide3.
    Ide3,
    /// scsi0.
    Scsi0,
    /// scsi1.
    Scsi1,
    /// scsi2.
    Scsi2,
    /// scsi3.
    Scsi3,
    /// scsi4.
    Scsi4,
    /// scsi5.
    Scsi5,
    /// scsi6.
    Scsi6,
    /// scsi7.
    Scsi7,
    /// scsi8.
    Scsi8,
    /// scsi9.
    Scsi9,
    /// scsi10.
    Scsi10,
    /// scsi11.
    Scsi11,
    /// scsi12.
    Scsi12,
    /// scsi13.
    Scsi13,
    /// scsi14.
    Scsi14,
    /// scsi15.
    Scsi15,
    /// scsi16.
    Scsi16,
    /// scsi17.
    Scsi17,
    /// scsi18.
    Scsi18,
    /// scsi19.
    Scsi19,
    /// scsi20.
    Scsi20,
    /// scsi21.
    Scsi21,
    /// scsi22.
    Scsi22,
    /// scsi23.
    Scsi23,
    /// scsi24.
    Scsi24,
    /// scsi25.
    Scsi25,
    /// scsi26.
    Scsi26,
    /// scsi27.
    Scsi27,
    /// scsi28.
    Scsi28,
    /// scsi29.
    Scsi29,
    /// scsi30.
    Scsi30,
    /// virtio0.
    Virtio0,
    /// virtio1.
    Virtio1,
    /// virtio2.
    Virtio2,
    /// virtio3.
    Virtio3,
    /// virtio4.
    Virtio4,
    /// virtio5.
    Virtio5,
    /// virtio6.
    Virtio6,
    /// virtio7.
    Virtio7,
    /// virtio8.
    Virtio8,
    /// virtio9.
    Virtio9,
    /// virtio10.
    Virtio10,
    /// virtio11.
    Virtio11,
    /// virtio12.
    Virtio12,
    /// virtio13.
    Virtio13,
    /// virtio14.
    Virtio14,
    /// virtio15.
    Virtio15,
    /// sata0.
    Sata0,
    /// sata1.
    Sata1,
    /// sata2.
    Sata2,
    /// sata3.
    Sata3,
    /// sata4.
    Sata4,
    /// sata5.
    Sata5,
    /// efidisk0.
    Efidisk0,
    /// tpmstate0.
    Tpmstate0,
    /// Unknown variants for forward compatibility.
    UnknownEnumValue(String),
}

impl PartialEq for QemuResizeDisk {
    fn eq(&self, other: &Self) -> (r: bool) {
        match (self, other) {
            (QemuResizeDisk::Ide0, QemuResizeDisk::Ide0) => true,
            (QemuResizeDisk::Ide1, QemuResizeDisk::Ide1) => true,
            (QemuResizeDisk::Ide2, QemuResizeDisk::Ide2) => true,
            (QemuResizeDisk::Ide3, QemuResizeDisk::Ide3) => true,
            (QemuResizeDisk::Scsi0, QemuResizeDisk::Scsi0) => true,
            (QemuResizeDisk::Scsi1, QemuResizeDisk::Scsi1) => true,
            (QemuResizeDisk::Scsi2, QemuResizeDisk::Scsi2) => true,
            (QemuResizeDisk::Scsi3, QemuResizeDisk::Scsi3) => true,
            (QemuResizeDisk::Scsi4, QemuResizeDisk::Scsi4) => true,
            (QemuResizeDisk::Scsi5, QemuResizeDisk::Scsi5) => true,
            (QemuResizeDisk::Scsi6, QemuResizeDisk::Scsi6) => true,
            (QemuResizeDisk::Scsi7, QemuResizeDisk::Scsi7) => true,
            (QemuResizeDisk::Scsi8, QemuResizeDisk::Scsi8) => true,
            (QemuResizeDisk::Scsi9, QemuResizeDisk::Scsi9) => true,
            (QemuResizeDisk::Scsi10, QemuResizeDisk::Scsi10) => true,
            (QemuResizeDisk::Scsi11, QemuResizeDisk::Scsi11) => true,
            (QemuResizeDisk::Scsi12, QemuResizeDisk::Scsi12) => true,
            (QemuResizeDisk::Scsi13, QemuResizeDisk::Scsi13) => true,
            (QemuResizeDisk::Scsi14, QemuResizeDisk::Scsi14) => true,
            (QemuResizeDisk::Scsi15, QemuResizeDisk::Scsi15) => true,
            (QemuResizeDisk::Scsi16, QemuResizeDisk::Scsi16) => true,
            (QemuResizeDisk::Scsi17, QemuResizeDisk::Scsi17) => true,
            (QemuResizeDisk::Scsi18, QemuResizeDisk::Scsi18) => true,
            (QemuResizeDisk::Scsi19, QemuResizeDisk::Scsi19) => true,
            (QemuResizeDisk::Scsi20, QemuResizeDisk::Scsi20) => true,
            (QemuResizeDisk::Scsi21, QemuResizeDisk::Scsi21) => true,
            (QemuResizeDisk::Scsi22, QemuResizeDisk::Scsi22) => true,
            (QemuResizeDisk::Scsi23, QemuResizeDisk::Scsi23) => true,
            (QemuResizeDisk::Scsi24, QemuResizeDisk::Scsi24) => true,
            (QemuResizeDisk::Scsi25, QemuResizeDisk::Scsi25) => true,
            (QemuResizeDisk::Scsi26, QemuResizeDisk::Scsi26) => true,
            (QemuResizeDisk::Scsi27, QemuResizeDisk::Scsi27) => true,
            (QemuResizeDisk::Scsi28, QemuResizeDisk::Scsi28) => true,
            (QemuResizeDisk::Scsi29, QemuResizeDisk::Scsi29) => true,
            (QemuResizeDisk::Scsi30, QemuResizeDisk::Scsi30) => true,
            (QemuResizeDisk::Virtio0, QemuResizeDisk::Virtio0) => true,
            (QemuResizeDisk::Virtio1, QemuResizeDisk::Virtio1) => true,
            (QemuResizeDisk::Virtio2, QemuResizeDisk::Virtio2) => true,
            (QemuResizeDisk::Virtio3, QemuResizeDisk::Virtio3) => true,
            (QemuResizeDisk::Virtio4, QemuResizeDisk::Virtio4) => true,
            (QemuResizeDisk::Virtio5, QemuResizeDisk::Virtio5) => true,
            (QemuResizeDisk::Virtio6, QemuResizeDisk::Virtio6) => true,
            (QemuResizeDisk::Virtio7, QemuResizeDisk::Virtio7) => true,
            (QemuResizeDisk::Virtio8, QemuResizeDisk::Virtio8) => true,
            (QemuResizeDisk::Virtio9, QemuResizeDisk::Virtio9) => true,
            (QemuResizeDisk::Virtio10, QemuResizeDisk::Virtio10) => true,
            (QemuResizeDisk::Virtio11, QemuResizeDisk::Virtio11) => true,
            (QemuResizeDisk::Virtio12, QemuResizeDisk::Virtio12) => true,
            (QemuResizeDisk::Virtio13, QemuResizeDisk::Virtio13) => true,
            (QemuResizeDisk::Virtio14, QemuResizeDisk::Virtio14) => true,
            (QemuResizeDisk::Virtio15, QemuResizeDisk::Virtio15) => true,
            (QemuResizeDisk::Sata0, QemuResizeDisk::Sata0) => true,
            (QemuResizeDisk::Sata1, QemuResizeDisk::Sata1) => true,
            (QemuResizeDisk::Sata2, QemuResizeDisk::Sata2) => true,
            (QemuResizeDisk::Sata3, QemuResizeDisk::Sata3) => true,
            (QemuResizeDisk::Sata4, QemuResizeDisk::Sata4) => true,
            (QemuResizeDisk::Sata5, QemuResizeDisk::Sata5) => true,
            (QemuResizeDisk::Efidisk0, QemuResizeDisk::Efidisk0) => true,
            (QemuResizeDisk::Tpmstate0, QemuResizeDisk::Tpmstate0) => true,
            (QemuResizeDisk::UnknownEnumValue(a), QemuResizeDisk::UnknownEnumValue(b)) => *a == *b,
            _ => false,
        }
    }
}

impl PartialEqSpecImpl for QemuResizeDisk {
    open spec fn obeys_eq_spec() -> bool {
        true
    }

    open spec fn eq_spec(&self, other: &Self) -> bool {
        match (self, other) {
            (QemuResizeDisk::UnknownEnumValue(a), QemuResizeDisk::UnknownEnumValue(b)) => a@ == b@,
            _ => *self == *other,
        }
    }
}

impl std::str::FromStr for QemuResizeDisk {
    type Err = core::convert::Infallible;

    fn from_str(s: &str) -> (r: Result<Self, Self::Err>)
        ensures
            r matches Ok(v) && Self::parses_to(s@, v),
    {
        Ok(QemuResizeDisk::from_name(s))
    }
}

impl QemuResizeDisk {
    /// The name under which the API writes this value.
    pub open spec fn name(self) -> Seq<char> {
        match self {
            QemuResizeDisk::Ide0 => "ide0"@,
            QemuResizeDisk::Ide1 => "ide1"@,
            QemuResizeDisk::Ide2 => "ide2"@,
            QemuResizeDisk::Ide3 => "ide3"@,
            QemuResizeDisk::Scsi0 => "scsi0"@,
            QemuResizeDisk::Scsi1 => "scsi1"@,
            QemuResizeDisk::Scsi2 => "scsi2"@,
            QemuResizeDisk::Scsi3 => "scsi3"@,
            QemuResizeDisk::Scsi4 => "scsi4"@,
            QemuResizeDisk::Scsi5 => "scsi5"@,
            QemuResizeDisk::Scsi6 => "scsi6"@,
            QemuResizeDisk::Scsi7 => "scsi7"@,
            QemuResizeDisk::Scsi8 => "scsi8"@,
            QemuResizeDisk::Scsi9 => "scsi9"@,
            QemuResizeDisk::Scsi10 => "scsi10"@,
            QemuResizeDisk::Scsi11 => "scsi11"@,
            QemuResizeDisk::Scsi12 => "scsi12"@,
            QemuResizeDisk::Scsi13 => "scsi13"@,
            QemuResizeDisk::Scsi14 => "scsi14"@,
            QemuResizeDisk::Scsi15 => "scsi15"@,
            QemuResizeDisk::Scsi16 => "scsi16"@,
            QemuResizeDisk::Scsi17 => "scsi17"@,
            QemuResizeDisk::Scsi18 => "scsi18"@,
            QemuResizeDisk::Scsi19 => "scsi19"@,
            QemuResizeDisk::Scsi20 => "scsi20"@,
            QemuResizeDisk::Scsi21 => "scsi21"@,
            QemuResizeDisk::Scsi22 => "scsi22"@,
            QemuResizeDisk::Scsi23 => "scsi23"@,
            QemuResizeDisk::Scsi24 => "scsi24"@,
            QemuResizeDisk::Scsi25 => "scsi25"@,
            QemuResizeDisk::Scsi26 => "scsi26"@,
            QemuResizeDisk::Scsi27 => "scsi27"@,
            QemuResizeDisk::Scsi28 => "scsi28"@,
            QemuResizeDisk::Scsi29 => "scsi29"@,
            QemuResizeDisk::Scsi30 => "scsi30"@,
            QemuResizeDisk::Virtio0 => "virtio0"@,
            QemuResizeDisk::Virtio1 => "virtio1"@,
            QemuResizeDisk::Virtio2 => "virtio2"@,
            QemuResizeDisk::Virtio3 => "virtio3"@,
            QemuResizeDisk::Virtio4 => "virtio4"@,
            QemuResizeDisk::Virtio5 => "virtio5"@,
            QemuResizeDisk::Virtio6 => "virtio6"@,
            QemuResizeDisk::Virtio7 => "virtio7"@,
            QemuResizeDisk::Virtio8 => "virtio8"@,
            QemuResizeDisk::Virtio9 => "virtio9"@,
            QemuResizeDisk::Virtio10 => "virtio10"@,
            QemuResizeDisk::Virtio11 => "virtio11"@,
            QemuResizeDisk::Virtio12 => "virtio12"@,
            QemuResizeDisk::Virtio13 => "virtio13"@,
            QemuResizeDisk::Virtio14 => "virtio14"@,
            QemuResizeDisk::Virtio15 => "virtio15"@,
            QemuResizeDisk::Sata0 => "sata0"@,
            QemuResizeDisk::Sata1 => "sata1"@,
            QemuResizeDisk::Sata2 => "sata2"@,
            QemuResizeDisk::Sata3 => "sata3"@,
            QemuResizeDisk::Sata4 => "sata4"@,
            QemuResizeDisk::Sata5 => "sata5"@,
            QemuResizeDisk::Efidisk0 => "efidisk0"@,
            QemuResizeDisk::Tpmstate0 => "tpmstate0"@,
            QemuResizeDisk::UnknownEnumValue(s) => s@,
        }
    }

    /// The known value that the API name `s` stands for, if any.
    pub open spec fn known(s: Seq<char>) -> Option<Self> {
        if s == "ide0"@ {
            Some(QemuResizeDisk::Ide0)
        }         else if s == "ide1"@ {
            Some(QemuResizeDisk::Ide1)
        }         else if s == "ide2"@ {
            Some(QemuResizeDisk::Ide2)
        }         else if s == "ide3"@ {
            Some(QemuResizeDisk::Ide3)
        }         else if s == "scsi0"@ {
            Some(QemuResizeDisk::Scsi0)
        }         else if s == "scsi1"@ {
            Some(QemuResizeDisk::Scsi1)
        }         else if s == "scsi2"@ {
            Some(QemuResizeDisk::Scsi2)
        }         else if s == "scsi3"@ {
            Some(QemuResizeDisk::Scsi3)
        }         else if s == "scsi4"@ {
            Some(QemuResizeDisk::Scsi4)
        }         else if s == "scsi5"@ {
            Some(QemuResizeDisk::Scsi5)
        }         else if s == "scsi6"@ {
            Some(QemuResizeDisk::Scsi6)
        }         else if s == "scsi7"@ {
            Some(QemuResizeDisk::Scsi7)
        }         else if s == "scsi8"@ {
            Some(QemuResizeDisk::Scsi8)
        }         else if s == "scsi9"@ {
            Some(QemuResizeDisk::Scsi9)
        }         else if s == "scsi10"@ {
            Some(QemuResizeDisk::Scsi10)
        }         else if s == "scsi11"@ {
            Some(QemuResizeDisk::Scsi11)
        }         else if s == "scsi12"@ {
            Some(QemuResizeDisk::Scsi12)
        }         else if s == "scsi13"@ {
            Some(QemuResizeDisk::Scsi13)
        }         else if s == "scsi14"@ {
            Some(QemuResizeDisk::Scsi14)
        }         else if s == "scsi15"@ {
            Some(QemuResizeDisk::Scsi15)
        }         else if s == "scsi16"@ {
            Some(QemuResizeDisk::Scsi16)
        }         else if s == "scsi17"@ {
            Some(QemuResizeDisk::Scsi17)
        }         else if s == "scsi18"@ {
            Some(QemuResizeDisk::Scsi18)
        }         else if s == "scsi19"@ {
            Some(QemuResizeDisk::Scsi19)
        }         else if s == "scsi20"@ {
            Some(QemuResizeDisk::Scsi20)
        }         else if s == "scsi21"@ {
            Some(QemuResizeDisk::Scsi21)
        }         else if s == "scsi22"@ {
            Some(QemuResizeDisk::Scsi22)
        }         else if s == "scsi23"@ {
            Some(QemuResizeDisk::Scsi23)
        }         else if s == "scsi24"@ {
            Some(QemuResizeDisk::Scsi24)
        }         else if s == "scsi25"@ {
            Some(QemuResizeDisk::Scsi25)
        }         else if s == "scsi26"@ {
            Some(QemuResizeDisk::Scsi26)
        }         else if s == "scsi27"@ {
            Some(QemuResizeDisk::Scsi27)
        }         else if s == "scsi28"@ {
            Some(QemuResizeDisk::Scsi28)
        }         else if s == "scsi29"@ {
            Some(QemuResizeDisk::Scsi29)
        }         else if s == "scsi30"@ {
            Some(QemuResizeDisk::Scsi30)
        }         else if s == "virtio0"@ {
            Some(QemuResizeDisk::Virtio0)
        }         else if s == "virtio1"@ {
            Some(QemuResizeDisk::Virtio1)
        }         else if s == "virtio2"@ {
            Some(QemuResizeDisk::Virtio2)
        }         else if s == "virtio3"@ {
            Some(QemuResizeDisk::Virtio3)
        }         else if s == "virtio4"@ {
            Some(QemuResizeDisk::Virtio4)
        }         else if s == "virtio5"@ {
            Some(QemuResizeDisk::Virtio5)
        }         else if s == "virtio6"@ {
            Some(QemuResizeDisk::Virtio6)
        }         else if s == "virtio7"@ {
            Some(QemuResizeDisk::Virtio7)
        }         else if s == "virtio8"@ {
            Some(QemuResizeDisk::Virtio8)
        }         else if s == "virtio9"@ {
            Some(QemuResizeDisk::Virtio9)
        }         else if s == "virtio10"@ {
            Some(QemuResizeDisk::Virtio10)
        }         else if s == "virtio11"@ {
            Some(QemuResizeDisk::Virtio11)
        }         else if s == "virtio12"@ {
            Some(QemuResizeDisk::Virtio12)
        }         else if s == "virtio13"@ {
            Some(QemuResizeDisk::Virtio13)
        }         else if s == "virtio14"@ {
            Some(QemuResizeDisk::Virtio14)
        }         else if s == "virtio15"@ {
            Some(QemuResizeDisk::Virtio15)
        }         else if s == "sata0"@ {
            Some(QemuResizeDisk::Sata0)
        }         else if s == "sata1"@ {
            Some(QemuResizeDisk::Sata1)
        }         else if s == "sata2"@ {
            Some(QemuResizeDisk::Sata2)
        }         else if s == "sata3"@ {
            Some(QemuResizeDisk::Sata3)
        }         else if s == "sata4"@ {
            Some(QemuResizeDisk::Sata4)
        }         else if s == "sata5"@ {
            Some(QemuResizeDisk::Sata5)
        }         else if s == "efidisk0"@ {
            Some(QemuResizeDisk::Efidisk0)
        }         else if s == "tpmstate0"@ {
            Some(QemuResizeDisk::Tpmstate0)
        } else {
            None
        }
    }

    /// `v` is the value that reading the API name `s` gives.
    pub open spec fn parses_to(s: Seq<char>, v: Self) -> bool {
        match Self::known(s) {
            Some(k) => v == k,
            None => v matches QemuResizeDisk::UnknownEnumValue(t) && t@ == s,
        }
    }

    /// The API name of this value.
    pub fn to_string(&self) -> (r: String)
        ensures
            r@ == self.name(),
    {
        match self {
            QemuResizeDisk::Ide0 => String::from_str("ide0"),
            QemuResizeDisk::Ide1 => String::from_str("ide1"),
            QemuResizeDisk::Ide2 => String::from_str("ide2"),
            QemuResizeDisk::Ide3 => String::from_str("ide3"),
            QemuResizeDisk::Scsi0 => String::from_str("scsi0"),
            QemuResizeDisk::Scsi1 => String::from_str("scsi1"),
            QemuResizeDisk::Scsi2 => String::from_str("scsi2"),
            QemuResizeDisk::Scsi3 => String::from_str("scsi3"),
            QemuResizeDisk::Scsi4 => String::from_str("scsi4"),
            QemuResizeDisk::Scsi5 => String::from_str("scsi5"),
            QemuResizeDisk::Scsi6 => String::from_str("scsi6"),
            QemuResizeDisk::Scsi7 => String::from_str("scsi7"),
            QemuResizeDisk::Scsi8 => String::from_str("scsi8"),
            QemuResizeDisk::Scsi9 => String::from_str("scsi9"),
            QemuResizeDisk::Scsi10 => String::from_str("scsi10"),
            QemuResizeDisk::Scsi11 => String::from_str("scsi11"),
            QemuResizeDisk::Scsi12 => String::from_str("scsi12"),
            QemuResizeDisk::Scsi13 => String::from_str("scsi13"),
            QemuResizeDisk::Scsi14 => String::from_str("scsi14"),
            QemuResizeDisk::Scsi15 => String::from_str("scsi15"),
            QemuResizeDisk::Scsi16 => String::from_str("scsi16"),
            QemuResizeDisk::Scsi17 => String::from_str("scsi17"),
            QemuResizeDisk::Scsi18 => String::from_str("scsi18"),
            QemuResizeDisk::Scsi19 => String::from_str("scsi19"),
            QemuResizeDisk::Scsi20 => String::from_str("scsi20"),
            QemuResizeDisk::Scsi21 => String::from_str("scsi21"),
            QemuResizeDisk::Scsi22 => String::from_str("scsi22"),
            QemuResizeDisk::Scsi23 => String::from_str("scsi23"),
            QemuResizeDisk::Scsi24 => String::from_str("scsi24"),
            QemuResizeDisk::Scsi25 => String::from_str("scsi25"),
            QemuResizeDisk::Scsi26 => String::from_str("scsi26"),
            QemuResizeDisk::Scsi27 => String::from_str("scsi27"),
            QemuResizeDisk::Scsi28 => String::from_str("scsi28"),
            QemuResizeDisk::Scsi29 => String::from_str("scsi29"),
            QemuResizeDisk::Scsi30 => String::from_str("scsi30"),
            QemuResizeDisk::Virtio0 => String::from_str("virtio0"),
            QemuResizeDisk::Virtio1 => String::from_str("virtio1"),
            QemuResizeDisk::Virtio2 => String::from_str("virtio2"),
            QemuResizeDisk::Virtio3 => String::from_str("virtio3"),
            QemuResizeDisk::Virtio4 => String::from_str("virtio4"),
            QemuResizeDisk::Virtio5 => String::from_str("virtio5"),
            QemuResizeDisk::Virtio6 => String::from_str("virtio6"),
            QemuResizeDisk::Virtio7 => String::from_str("virtio7"),
            QemuResizeDisk::Virtio8 => String::from_str("virtio8"),
            QemuResizeDisk::Virtio9 => String::from_str("virtio9"),
            QemuResizeDisk::Virtio10 => String::from_str("virtio10"),
            QemuResizeDisk::Virtio11 => String::from_str("virtio11"),
            QemuResizeDisk::Virtio12 => String::from_str("virtio12"),
            QemuResizeDisk::Virtio13 => String::from_str("virtio13"),
            QemuResizeDisk::Virtio14 => String::from_str("virtio14"),
            QemuResizeDisk::Virtio15 => String::from_str("virtio15"),
            QemuResizeDisk::Sata0 => String::from_str("sata0"),
            QemuResizeDisk::Sata1 => String::from_str("sata1"),
            QemuResizeDisk::Sata2 => String::from_str("sata2"),
            QemuResizeDisk::Sata3 => String::from_str("sata3"),
            QemuResizeDisk::Sata4 => String::from_str("sata4"),
            QemuResizeDisk::Sata5 => String::from_str("sata5"),
            QemuResizeDisk::Efidisk0 => String::from_str("efidisk0"),
            QemuResizeDisk::Tpmstate0 => String::from_str("tpmstate0"),
            QemuResizeDisk::UnknownEnumValue(s) => s.clone(),
        }
    }

    /// Reads an API name; a name that is not known is kept as an unknown value.
    pub fn from_name(s: &str) -> (r: Self)
        ensures
            Self::parses_to(s@, r),
    {
        if str_eq(s, "ide0") {
            QemuResizeDisk::Ide0
        }         else if str_eq(s, "ide1") {
            QemuResizeDisk::Ide1
        }         else if str_eq(s, "ide2") {
            QemuResizeDisk::Ide2
        }         else if str_eq(s, "ide3") {
            QemuResizeDisk::Ide3
        }         else if str_eq(s, "scsi0") {
            QemuResizeDisk::Scsi0
        }         else if str_eq(s, "scsi1") {
            QemuResizeDisk::Scsi1
        }         else if str_eq(s, "scsi2") {
            QemuResizeDisk::Scsi2
        }         else if str_eq(s, "scsi3") {
            QemuResizeDisk::Scsi3
        }         else if str_eq(s, "scsi4") {
            QemuResizeDisk::Scsi4
        }         else if str_eq(s, "scsi5") {
            QemuResizeDisk::Scsi5
        }         else if str_eq(s, "scsi6") {
            QemuResizeDisk::Scsi6
        }         else if str_eq(s, "scsi7") {
            QemuResizeDisk::Scsi7
        }         else if str_eq(s, "scsi8") {
            QemuResizeDisk::Scsi8
        }         else if str_eq(s, "scsi9") {
            QemuResizeDisk::Scsi9
        }         else if str_eq(s, "scsi10") {
            QemuResizeDisk::Scsi10
        }         else if str_eq(s, "scsi11") {
            QemuResizeDisk::Scsi11
        }         else if str_eq(s, "scsi12") {
            QemuResizeDisk::Scsi12
        }         else if str_eq(s, "scsi13") {
            QemuResizeDisk::Scsi13
        }         else if str_eq(s, "scsi14") {
            QemuResizeDisk::Scsi14
        }         else if str_eq(s, "scsi15") {
            QemuResizeDisk::Scsi15
        }         else if str_eq(s, "scsi16") {
            QemuResizeDisk::Scsi16
        }         else if str_eq(s, "scsi17") {
            QemuResizeDisk::Scsi17
        }         else if str_eq(s, "scsi18") {
            QemuResizeDisk::Scsi18
        }         else if str_eq(s, "scsi19") {
            QemuResizeDisk::Scsi19
        }         else if str_eq(s, "scsi20") {
            QemuResizeDisk::Scsi20
        }         else if str_eq(s, "scsi21") {
            QemuResizeDisk::Scsi21
        }         else if str_eq(s, "scsi22") {
            QemuResizeDisk::Scsi22
        }         else if str_eq(s, "scsi23") {
            QemuResizeDisk::Scsi23
        }         else if str_eq(s, "scsi24") {
            QemuResizeDisk::Scsi24
        }         else if str_eq(s, "scsi25") {
            QemuResizeDisk::Scsi25
        }         else if str_eq(s, "scsi26") {
            QemuResizeDisk::Scsi26
        }         else if str_eq(s, "scsi27") {
            QemuResizeDisk::Scsi27
        }         else if str_eq(s, "scsi28") {
            QemuResizeDisk::Scsi28
        }         else if str_eq(s, "scsi29") {
            QemuResizeDisk::Scsi29
        }         else if str_eq(s, "scsi30") {
            QemuResizeDisk::Scsi30
        }         else if str_eq(s, "virtio0") {
            QemuResizeDisk::Virtio0
        }         else if str_eq(s, "virtio1") {
            QemuResizeDisk::Virtio1
        }         else if str_eq(s, "virtio2") {
            QemuResizeDisk::Virtio2
        }         else if str_eq(s, "virtio3") {
            QemuResizeDisk::Virtio3
        }         else if str_eq(s, "virtio4") {
            QemuResizeDisk::Virtio4
        }         else if str_eq(s, "virtio5") {
            QemuResizeDisk::Virtio5
        }         else if str_eq(s, "virtio6") {
            QemuResizeDisk::Virtio6
        }         else if str_eq(s, "virtio7") {
            QemuResizeDisk::Virtio7
        }         else if str_eq(s, "virtio8") {
            QemuResizeDisk::Virtio8
        }         else if str_eq(s, "virtio9") {
            QemuResizeDisk::Virtio9
        }         else if str_eq(s, "virtio10") {
            QemuResizeDisk::Virtio10
        }         else if str_eq(s, "virtio11") {
            QemuResizeDisk::Virtio11
        }         else if str_eq(s, "virtio12") {
            QemuResizeDisk::Virtio12
        }         else if str_eq(s, "virtio13") {
            QemuResizeDisk::Virtio13
        }         else if str_eq(s, "virtio14") {
            QemuResizeDisk::Virtio14
        }         else if str_eq(s, "virtio15") {
            QemuResizeDisk::Virtio15
        }         else if str_eq(s, "sata0") {
            QemuResizeDisk::Sata0
        }         else if str_eq(s, "sata1") {
            QemuResizeDisk::Sata1
        }         else if str_eq(s, "sata2") {
            QemuResizeDisk::Sata2
        }         else if str_eq(s, "sata3") {
            QemuResizeDisk::Sata3
        }         else if str_eq(s, "sata4") {
            QemuResizeDisk::Sata4
        }         else if str_eq(s, "sata5") {
            QemuResizeDisk::Sata5
        }         else if str_eq(s, "efidisk0") {
            QemuResizeDisk::Efidisk0
        }         else if str_eq(s, "tpmstate0") {
            QemuResizeDisk::Tpmstate0
        } else {
            QemuResizeDisk::UnknownEnumValue(String::from_str(s))
        }
    }

    /// Each known value goes with the name the API uses for it: `ide0` for `Ide0`, `ide1` for `Ide1`, `ide2` for `Ide2`, and so on for every known value.
    /// `to_string` writes that name and `from_name` reads it as that value.
    #[verifier::rlimit(50)]
    pub proof fn lemma_api_names()
        ensures
            QemuResizeDisk::Ide0.name() == "ide0"@,
            Self::parses_to("ide0"@, QemuResizeDisk::Ide0),
            QemuResizeDisk::Ide1.name() == "ide1"@,
            Self::parses_to("ide1"@, QemuResizeDisk::Ide1),
            QemuResizeDisk::Ide2.name() == "ide2"@,
            Self::parses_to("ide2"@, QemuResizeDisk::Ide2),
            QemuResizeDisk::Ide3.name() == "ide3"@,
            Self::parses_to("ide3"@, QemuResizeDisk::Ide3),
            QemuResizeDisk::Scsi0.name() == "scsi0"@,
            Self::parses_to("scsi0"@, QemuResizeDisk::Scsi0),
            QemuResizeDisk::Scsi1.name() == "scsi1"@,
            Self::parses_to("scsi1"@, QemuResizeDisk::Scsi1),
            QemuResizeDisk::Scsi2.name() == "scsi2"@,
            Self::parses_to("scsi2"@, QemuResizeDisk::Scsi2),
            QemuResizeDisk::Scsi3.name() == "scsi3"@,
            Self::parses_to("scsi3"@, QemuResizeDisk::Scsi3),
            QemuResizeDisk::Scsi4.name() == "scsi4"@,
            Self::parses_to("scsi4"@, QemuResizeDisk::Scsi4),
            QemuResizeDisk::Scsi5.name() == "scsi5"@,
            Self::parses_to("scsi5"@, QemuResizeDisk::Scsi5),
            QemuResizeDisk::Scsi6.name() == "scsi6"@,
            Self::parses_to("scsi6"@, QemuResizeDisk::Scsi6),
            QemuResizeDisk::Scsi7.name() == "scsi7"@,
            Self::parses_to("scsi7"@, QemuResizeDisk::Scsi7),
            QemuResizeDisk::Scsi8.name() == "scsi8"@,
            Self::parses_to("scsi8"@, QemuResizeDisk::Scsi8),
            QemuResizeDisk::Scsi9.name() == "scsi9"@,
            Self::parses_to("scsi9"@, QemuResizeDisk::Scsi9),
            QemuResizeDisk::Scsi10.name() == "scsi10"@,
            Self::parses_to("scsi10"@, QemuResizeDisk::Scsi10),
            QemuResizeDisk::Scsi11.name() == "scsi11"@,
            Self::parses_to("scsi11"@, QemuResizeDisk::Scsi11),
            QemuResizeDisk::Scsi12.name() == "scsi12"@,
            Self::parses_to("scsi12"@, QemuResizeDisk::Scsi12),
            QemuResizeDisk::Scsi13.name() == "scsi13"@,
            Self::parses_to("scsi13"@, QemuResizeDisk::Scsi13),
            QemuResizeDisk::Scsi14.name() == "scsi14"@,
            Self::parses_to("scsi14"@, QemuResizeDisk::Scsi14),
            QemuResizeDisk::Scsi15.name() == "scsi15"@,
            Self::parses_to("scsi15"@, QemuResizeDisk::Scsi15),
            QemuResizeDisk::Scsi16.name() == "scsi16"@,
            Self::parses_to("scsi16"@, QemuResizeDisk::Scsi16),
            QemuResizeDisk::Scsi17.name() == "scsi17"@,
            Self::parses_to("scsi17"@, QemuResizeDisk::Scsi17),
            QemuResizeDisk::Scsi18.name() == "scsi18"@,
            Self::parses_to("scsi18"@, QemuResizeDisk::Scsi18),
            QemuResizeDisk::Scsi19.name() == "scsi19"@,
            Self::parses_to("scsi19"@, QemuResizeDisk::Scsi19),
            QemuResizeDisk::Scsi20.name() == "scsi20"@,
            Self::parses_to("scsi20"@, QemuResizeDisk::Scsi20),
            QemuResizeDisk::Scsi21.name() == "scsi21"@,
            Self::parses_to("scsi21"@, QemuResizeDisk::Scsi21),
            QemuResizeDisk::Scsi22.name() == "scsi22"@,
            Self::parses_to("scsi22"@, QemuResizeDisk::Scsi22),
            QemuResizeDisk::Scsi23.name() == "scsi23"@,
            Self::parses_to("scsi23"@, QemuResizeDisk::Scsi23),
            QemuResizeDisk::Scsi24.name() == "scsi24"@,
            Self::parses_to("scsi24"@, QemuResizeDisk::Scsi24),
            QemuResizeDisk::Scsi25.name() == "scsi25"@,
            Self::parses_to("scsi25"@, QemuResizeDisk::Scsi25),
            QemuResizeDisk::Scsi26.name() == "scsi26"@,
            Self::parses_to("scsi26"@, QemuResizeDisk::Scsi26),
            QemuResizeDisk::Scsi27.name() == "scsi27"@,
            Self::parses_to("scsi27"@, QemuResizeDisk::Scsi27),
            QemuResizeDisk::Scsi28.name() == "scsi28"@,
            Self::parses_to("scsi28"@, QemuResizeDisk::Scsi28),
            QemuResizeDisk::Scsi29.name() == "scsi29"@,
            Self::parses_to("scsi29"@, QemuResizeDisk::Scsi29),
            QemuResizeDisk::Scsi30.name() == "scsi30"@,
            Self::parses_to("scsi30"@, QemuResizeDisk::Scsi30),
            QemuResizeDisk::Virtio0.name() == "virtio0"@,
            Self::parses_to("virtio0"@, QemuResizeDisk::Virtio0),
            QemuResizeDisk::Virtio1.name() == "virtio1"@,
            Self::parses_to("virtio1"@, QemuResizeDisk::Virtio1),
            QemuResizeDisk::Virtio2.name() == "virtio2"@,
            Self::parses_to("virtio2"@, QemuResizeDisk::Virtio2),
            QemuResizeDisk::Virtio3.name() == "virtio3"@,
            Self::parses_to("virtio3"@, QemuResizeDisk::Virtio3),
            QemuResizeDisk::Virtio4.name() == "virtio4"@,
            Self::parses_to("virtio4"@, QemuResizeDisk::Virtio4),
            QemuResizeDisk::Virtio5.name() == "virtio5"@,
            Self::parses_to("virtio5"@, QemuResizeDisk::Virtio5),
            QemuResizeDisk::Virtio6.name() == "virtio6"@,
            Self::parses_to("virtio6"@, QemuResizeDisk::Virtio6),
            QemuResizeDisk::Virtio7.name() == "virtio7"@,
            Self::parses_to("virtio7"@, QemuResizeDisk::Virtio7),
            QemuResizeDisk::Virtio8.name() == "virtio8"@,
            Self::parses_to("virtio8"@, QemuResizeDisk::Virtio8),
            QemuResizeDisk::Virtio9.name() == "virtio9"@,
            Self::parses_to("virtio9"@, QemuResizeDisk::Virtio9),
            QemuResizeDisk::Virtio10.name() == "virtio10"@,
            Self::parses_to("virtio10"@, QemuResizeDisk::Virtio10),
            QemuResizeDisk::Virtio11.name() == "virtio11"@,
            Self::parses_to("virtio11"@, QemuResizeDisk::Virtio11),
            QemuResizeDisk::Virtio12.name() == "virtio12"@,
            Self::parses_to("virtio12"@, QemuResizeDisk::Virtio12),
            QemuResizeDisk::Virtio13.name() == "virtio13"@,
            Self::parses_to("virtio13"@, QemuResizeDisk::Virtio13),
            QemuResizeDisk::Virtio14.name() == "virtio14"@,
            Self::parses_to("virtio14"@, QemuResizeDisk::Virtio14),
            QemuResizeDisk::Virtio15.name() == "virtio15"@,
            Self::parses_to("virtio15"@, QemuResizeDisk::Virtio15),
            QemuResizeDisk::Sata0.name() == "sata0"@,
            Self::parses_to("sata0"@, QemuResizeDisk::Sata0),
            QemuResizeDisk::Sata1.name() == "sata1"@,
            Self::parses_to("sata1"@, QemuResizeDisk::Sata1),
            QemuResizeDisk::Sata2.name() == "sata2"@,
            Self::parses_to("sata2"@, QemuResizeDisk::Sata2),
            QemuResizeDisk::Sata3.name() == "sata3"@,
            Self::parses_to("sata3"@, QemuResizeDisk::Sata3),
            QemuResizeDisk::Sata4.name() == "sata4"@,
            Self::parses_to("sata4"@, QemuResizeDisk::Sata4),
            QemuResizeDisk::Sata5.name() == "sata5"@,
            Self::parses_to("sata5"@, QemuResizeDisk::Sata5),
            QemuResizeDisk::Efidisk0.name() == "efidisk0"@,
            Self::parses_to("efidisk0"@, QemuResizeDisk::Efidisk0),
            QemuResizeDisk::Tpmstate0.name() == "tpmstate0"@,
            Self::parses_to("tpmstate0"@, QemuResizeDisk::Tpmstate0),
    {
        Self::lemma_to_string_from_name(QemuResizeDisk::Ide0);
        Self::lemma_to_string_from_name(QemuResizeDisk::Ide1);
        Self::lemma_to_string_from_name(QemuResizeDisk::Ide2);
        Self::lemma_to_string_from_name(QemuResizeDisk::Ide3);
        Self::lemma_to_string_from_name(QemuResizeDisk::Scsi0);
        Self::lemma_to_string_from_name(QemuResizeDisk::Scsi1);
        Self::lemma_to_string_from_name(QemuResizeDisk::Scsi2);
        Self::lemma_to_string_from_name(QemuResizeDisk::Scsi3);
        Self::lemma_to_string_from_name(QemuResizeDisk::Scsi4);
        Self::lemma_to_string_from_name(QemuResizeDisk::Scsi5);
        Self::lemma_to_string_from_name(QemuResizeDisk::Scsi6);
        Self::lemma_to_string_from_name(QemuResizeDisk::Scsi7);
        Self::lemma_to_string_from_name(QemuResizeDisk::Scsi8);
        Self::lemma_to_string_from_name(QemuResizeDisk::Scsi9);
        Self::lemma_to_string_from_name(QemuResizeDisk::Scsi10);
        Self::lemma_to_string_from_name(QemuResizeDisk::Scsi11);
        Self::lemma_to_string_from_name(QemuResizeDisk::Scsi12);
        Self::lemma_to_string_from_name(QemuResizeDisk::Scsi13);
        Self::lemma_to_string_from_name(QemuResizeDisk::Scsi14);
        Self::lemma_to_string_from_name(QemuResizeDisk::Scsi15);
        Self::lemma_to_string_from_name(QemuResizeDisk::Scsi16);
        Self::lemma_to_string_from_name(QemuResizeDisk::Scsi17);
        Self::lemma_to_string_from_name(QemuResizeDisk::Scsi18);
        Self::lemma_to_string_from_name(QemuResizeDisk::Scsi19);
        Self::lemma_to_string_from_name(QemuResizeDisk::Scsi20);
        Self::lemma_to_string_from_name(QemuResizeDisk::Scsi21);
        Self::lemma_to_string_from_name(QemuResizeDisk::Scsi22);
        Self::lemma_to_string_from_name(QemuResizeDisk::Scsi23);
        Self::lemma_to_string_from_name(QemuResizeDisk::Scsi24);
        Self::lemma_to_string_from_name(QemuResizeDisk::Scsi25);
        Self::lemma_to_string_from_name(QemuResizeDisk::Scsi26);
        Self::lemma_to_string_from_name(QemuResizeDisk::Scsi27);
        Self::lemma_to_string_from_name(QemuResizeDisk::Scsi28);
        Self::lemma_to_string_from_name(QemuResizeDisk::Scsi29);
        Self::lemma_to_string_from_name(QemuResizeDisk::Scsi30);
        Self::lemma_to_string_from_name(QemuResizeDisk::Virtio0);
        Self::lemma_to_string_from_name(QemuResizeDisk::Virtio1);
        Self::lemma_to_string_from_name(QemuResizeDisk::Virtio2);
        Self::lemma_to_string_from_name(QemuResizeDisk::Virtio3);
        Self::lemma_to_string_from_name(QemuResizeDisk::Virtio4);
        Self::lemma_to_string_from_name(QemuResizeDisk::Virtio5);
        Self::lemma_to_string_from_name(QemuResizeDisk::Virtio6);
        Self::lemma_to_string_from_name(QemuResizeDisk::Virtio7);
        Self::lemma_to_string_from_name(QemuResizeDisk::Virtio8);
        Self::lemma_to_string_from_name(QemuResizeDisk::Virtio9);
        Self::lemma_to_string_from_name(QemuResizeDisk::Virtio10);
        Self::lemma_to_string_from_name(QemuResizeDisk::Virtio11);
        Self::lemma_to_string_from_name(QemuResizeDisk::Virtio12);
        Self::lemma_to_string_from_name(QemuResizeDisk::Virtio13);
        Self::lemma_to_string_from_name(QemuResizeDisk::Virtio14);
        Self::lemma_to_string_from_name(QemuResizeDisk::Virtio15);
        Self::lemma_to_string_from_name(QemuResizeDisk::Sata0);
        Self::lemma_to_string_from_name(QemuResizeDisk::Sata1);
        Self::lemma_to_string_from_name(QemuResizeDisk::Sata2);
        Self::lemma_to_string_from_name(QemuResizeDisk::Sata3);
        Self::lemma_to_string_from_name(QemuResizeDisk::Sata4);
        Self::lemma_to_string_from_name(QemuResizeDisk::Sata5);
        Self::lemma_to_string_from_name(QemuResizeDisk::Efidisk0);
        Self::lemma_to_string_from_name(QemuResizeDisk::Tpmstate0);
    }

    /// Writing out a value that was read gives back the name that was read.
    pub proof fn lemma_from_name_to_string(s: Seq<char>, v: Self)
        requires
            Self::parses_to(s, v),
        ensures
            v.name() == s,
    {
    }

    /// Reading the name of a value gives back the value, unless the value is an
    /// unknown one that carries the name of a known one.
    pub proof fn lemma_to_string_from_name(v: Self)
        requires
            v is UnknownEnumValue ==> Self::known(v.name()) is None,
        ensures
            Self::parses_to(v.name(), v),
    {
        match v {
            QemuResizeDisk::Ide0 | QemuResizeDisk::Ide1 | QemuResizeDisk::Ide2 | QemuResizeDisk::Ide3 | QemuResizeDisk::Scsi0 | QemuResizeDisk::Scsi1 | QemuResizeDisk::Scsi2 | QemuResizeDisk::Scsi3 | QemuResizeDisk::Scsi4 | QemuResizeDisk::Scsi5 | QemuResizeDisk::Scsi6 | QemuResizeDisk::Scsi7 | QemuResizeDisk::Scsi8 | QemuResizeDisk::Scsi9 | QemuResizeDisk::Scsi10 | QemuResizeDisk::Scsi11 | QemuResizeDisk::Scsi12 | QemuResizeDisk::Scsi13 | QemuResizeDisk::Scsi14 | QemuResizeDisk::Scsi15 => Self::lemma_known_names_0(v),
            QemuResizeDisk::Scsi16 | QemuResizeDisk::Scsi17 | QemuResizeDisk::Scsi18 | QemuResizeDisk::Scsi19 | QemuResizeDisk::Scsi20 | QemuResizeDisk::Scsi21 | QemuResizeDisk::Scsi22 | QemuResizeDisk::Scsi23 | QemuResizeDisk::Scsi24 | QemuResizeDisk::Scsi25 | QemuResizeDisk::Scsi26 | QemuResizeDisk::Scsi27 | QemuResizeDisk::Scsi28 | QemuResizeDisk::Scsi29 | QemuResizeDisk::Scsi30 | QemuResizeDisk::Virtio0 | QemuResizeDisk::Virtio1 | QemuResizeDisk::Virtio2 | QemuResizeDisk::Virtio3 | QemuResizeDisk::Virtio4 => Self::lemma_known_names_1(v),
            QemuResizeDisk::Virtio5 | QemuResizeDisk::Virtio6 | QemuResizeDisk::Virtio7 | QemuResizeDisk::Virtio8 | QemuResizeDisk::Virtio9 | QemuResizeDisk::Virtio10 | QemuResizeDisk::Virtio11 | QemuResizeDisk::Virtio12 | QemuResizeDisk::Virtio13 | QemuResizeDisk::Virtio14 | QemuResizeDisk::Virtio15 | QemuResizeDisk::Sata0 | QemuResizeDisk::Sata1 | QemuResizeDisk::Sata2 | QemuResizeDisk::Sata3 | QemuResizeDisk::Sata4 | QemuResizeDisk::Sata5 | QemuResizeDisk::Efidisk0 | QemuResizeDisk::Tpmstate0 => Self::lemma_known_names_2(v),
            QemuResizeDisk::UnknownEnumValue(_) => {},
        }
    }

    /// The spelling of known names, character by character.
    proof fn lemma_name_spelling_0()
        ensures
            "ide0"@.len() == 4 && "ide0"@[0] == 'i' && "ide0"@[1] == 'd' && "ide0"@[2] == 'e' && "ide0"@[3] == '0',
            "ide1"@.len() == 4 && "ide1"@[0] == 'i' && "ide1"@[1] == 'd' && "ide1"@[2] == 'e' && "ide1"@[3] == '1',
            "ide2"@.len() == 4 && "ide2"@[0] == 'i' && "ide2"@[1] == 'd' && "ide2"@[2] == 'e' && "ide2"@[3] == '2',
            "ide3"@.len() == 4 && "ide3"@[0] == 'i' && "ide3"@[1] == 'd' && "ide3"@[2] == 'e' && "ide3"@[3] == '3',
            "scsi0"@.len() == 5 && "scsi0"@[0] == 's' && "scsi0"@[1] == 'c' && "scsi0"@[2] == 's' && "scsi0"@[3] == 'i' && "scsi0"@[4] == '0',
            "scsi1"@.len() == 5 && "scsi1"@[0] == 's' && "scsi1"@[1] == 'c' && "scsi1"@[2] == 's' && "scsi1"@[3] == 'i' && "scsi1"@[4] == '1',
            "scsi2"@.len() == 5 && "scsi2"@[0] == 's' && "scsi2"@[1] == 'c' && "scsi2"@[2] == 's' && "scsi2"@[3] == 'i' && "scsi2"@[4] == '2',
            "scsi3"@.len() == 5 && "scsi3"@[0] == 's' && "scsi3"@[1] == 'c' && "scsi3"@[2] == 's' && "scsi3"@[3] == 'i' && "scsi3"@[4] == '3',
            "scsi4"@.len() == 5 && "scsi4"@[0] == 's' && "scsi4"@[1] == 'c' && "scsi4"@[2] == 's' && "scsi4"@[3] == 'i' && "scsi4"@[4] == '4',
            "scsi5"@.len() == 5 && "scsi5"@[0] == 's' && "scsi5"@[1] == 'c' && "scsi5"@[2] == 's' && "scsi5"@[3] == 'i' && "scsi5"@[4] == '5',
            "scsi6"@.len() == 5 && "scsi6"@[0] == 's' && "scsi6"@[1] == 'c' && "scsi6"@[2] == 's' && "scsi6"@[3] == 'i' && "scsi6"@[4] == '6',
            "scsi7"@.len() == 5 && "scsi7"@[0] == 's' && "scsi7"@[1] == 'c' && "scsi7"@[2] == 's' && "scsi7"@[3] == 'i' && "scsi7"@[4] == '7',
            "scsi8"@.len() == 5 && "scsi8"@[0] == 's' && "scsi8"@[1] == 'c' && "scsi8"@[2] == 's' && "scsi8"@[3] == 'i' && "scsi8"@[4] == '8',
            "scsi9"@.len() == 5 && "scsi9"@[0] == 's' && "scsi9"@[1] == 'c' && "scsi9"@[2] == 's' && "scsi9"@[3] == 'i' && "scsi9"@[4] == '9',
            "scsi10"@.len() == 6 && "scsi10"@[0] == 's' && "scsi10"@[1] == 'c' && "scsi10"@[2] == 's' && "scsi10"@[3] == 'i' && "scsi10"@[4] == '1' && "scsi10"@[5] == '0',
            "scsi11"@.len() == 6 && "scsi11"@[0] == 's' && "scsi11"@[1] == 'c' && "scsi11"@[2] == 's' && "scsi11"@[3] == 'i' && "scsi11"@[4] == '1' && "scsi11"@[5] == '1',
            "scsi12"@.len() == 6 && "scsi12"@[0] == 's' && "scsi12"@[1] == 'c' && "scsi12"@[2] == 's' && "scsi12"@[3] == 'i' && "scsi12"@[4] == '1' && "scsi12"@[5] == '2',
            "scsi13"@.len() == 6 && "scsi13"@[0] == 's' && "scsi13"@[1] == 'c' && "scsi13"@[2] == 's' && "scsi13"@[3] == 'i' && "scsi13"@[4] == '1' && "scsi13"@[5] == '3',
            "scsi14"@.len() == 6 && "scsi14"@[0] == 's' && "scsi14"@[1] == 'c' && "scsi14"@[2] == 's' && "scsi14"@[3] == 'i' && "scsi14"@[4] == '1' && "scsi14"@[5] == '4',
            "scsi15"@.len() == 6 && "scsi15"@[0] == 's' && "scsi15"@[1] == 'c' && "scsi15"@[2] == 's' && "scsi15"@[3] == 'i' && "scsi15"@[4] == '1' && "scsi15"@[5] == '5',
    {
        broadcast use vstd::string::group_string_axioms;

        reveal_strlit("ide0");
        reveal_strlit("ide1");
        reveal_strlit("ide2");
        reveal_strlit("ide3");
        reveal_strlit("scsi0");
        reveal_strlit("scsi1");
        reveal_strlit("scsi2");
        reveal_strlit("scsi3");
        reveal_strlit("scsi4");
        reveal_strlit("scsi5");
        reveal_strlit("scsi6");
        reveal_strlit("scsi7");
        reveal_strlit("scsi8");
        reveal_strlit("scsi9");
        reveal_strlit("scsi10");
        reveal_strlit("scsi11");
        reveal_strlit("scsi12");
        reveal_strlit("scsi13");
        reveal_strlit("scsi14");
        reveal_strlit("scsi15");
    }

    /// The spelling of known names, character by character.
    proof fn lemma_name_spelling_1()
        ensures
            "scsi16"@.len() == 6 && "scsi16"@[0] == 's' && "scsi16"@[1] == 'c' && "scsi16"@[2] == 's' && "scsi16"@[3] == 'i' && "scsi16"@[4] == '1' && "scsi16"@[5] == '6',
            "scsi17"@.len() == 6 && "scsi17"@[0] == 's' && "scsi17"@[1] == 'c' && "scsi17"@[2] == 's' && "scsi17"@[3] == 'i' && "scsi17"@[4] == '1' && "scsi17"@[5] == '7',
            "scsi18"@.len() == 6 && "scsi18"@[0] == 's' && "scsi18"@[1] == 'c' && "scsi18"@[2] == 's' && "scsi18"@[3] == 'i' && "scsi18"@[4] == '1' && "scsi18"@[5] == '8',
            "scsi19"@.len() == 6 && "scsi19"@[0] == 's' && "scsi19"@[1] == 'c' && "scsi19"@[2] == 's' && "scsi19"@[3] == 'i' && "scsi19"@[4] == '1' && "scsi19"@[5] == '9',
            "scsi20"@.len() == 6 && "scsi20"@[0] == 's' && "scsi20"@[1] == 'c' && "scsi20"@[2] == 's' && "scsi20"@[3] == 'i' && "scsi20"@[4] == '2' && "scsi20"@[5] == '0',
            "scsi21"@.len() == 6 && "scsi21"@[0] == 's' && "scsi21"@[1] == 'c' && "scsi21"@[2] == 's' && "scsi21"@[3] == 'i' && "scsi21"@[4] == '2' && "scsi21"@[5] == '1',
            "scsi22"@.len() == 6 && "scsi22"@[0] == 's' && "scsi22"@[1] == 'c' && "scsi22"@[2] == 's' && "scsi22"@[3] == 'i' && "scsi22"@[4] == '2' && "scsi22"@[5] == '2',
            "scsi23"@.len() == 6 && "scsi23"@[0] == 's' && "scsi23"@[1] == 'c' && "scsi23"@[2] == 's' && "scsi23"@[3] == 'i' && "scsi23"@[4] == '2' && "scsi23"@[5] == '3',
            "scsi24"@.len() == 6 && "scsi24"@[0] == 's' && "scsi24"@[1] == 'c' && "scsi24"@[2] == 's' && "scsi24"@[3] == 'i' && "scsi24"@[4] == '2' && "scsi24"@[5] == '4',
            "scsi25"@.len() == 6 && "scsi25"@[0] == 's' && "scsi25"@[1] == 'c' && "scsi25"@[2] == 's' && "scsi25"@[3] == 'i' && "scsi25"@[4] == '2' && "scsi25"@[5] == '5',
            "scsi26"@.len() == 6 && "scsi26"@[0] == 's' && "scsi26"@[1] == 'c' && "scsi26"@[2] == 's' && "scsi26"@[3] == 'i' && "scsi26"@[4] == '2' && "scsi26"@[5] == '6',
            "scsi27"@.len() == 6 && "scsi27"@[0] == 's' && "scsi27"@[1] == 'c' && "scsi27"@[2] == 's' && "scsi27"@[3] == 'i' && "scsi27"@[4] == '2' && "scsi27"@[5] == '7',
            "scsi28"@.len() == 6 && "scsi28"@[0] == 's' && "scsi28"@[1] == 'c' && "scsi28"@[2] == 's' && "scsi28"@[3] == 'i' && "scsi28"@[4] == '2' && "scsi28"@[5] == '8',
            "scsi29"@.len() == 6 && "scsi29"@[0] == 's' && "scsi29"@[1] == 'c' && "scsi29"@[2] == 's' && "scsi29"@[3] == 'i' && "scsi29"@[4] == '2' && "scsi29"@[5] == '9',
            "scsi30"@.len() == 6 && "scsi30"@[0] == 's' && "scsi30"@[1] == 'c' && "scsi30"@[2] == 's' && "scsi30"@[3] == 'i' && "scsi30"@[4] == '3' && "scsi30"@[5] == '0',
            "virtio0"@.len() == 7 && "virtio0"@[0] == 'v' && "virtio0"@[1] == 'i' && "virtio0"@[2] == 'r' && "virtio0"@[3] == 't' && "virtio0"@[4] == 'i' && "virtio0"@[5] == 'o' && "virtio0"@[6] == '0',
            "virtio1"@.len() == 7 && "virtio1"@[0] == 'v' && "virtio1"@[1] == 'i' && "virtio1"@[2] == 'r' && "virtio1"@[3] == 't' && "virtio1"@[4] == 'i' && "virtio1"@[5] == 'o' && "virtio1"@[6] == '1',
            "virtio2"@.len() == 7 && "virtio2"@[0] == 'v' && "virtio2"@[1] == 'i' && "virtio2"@[2] == 'r' && "virtio2"@[3] == 't' && "virtio2"@[4] == 'i' && "virtio2"@[5] == 'o' && "virtio2"@[6] == '2',
            "virtio3"@.len() == 7 && "virtio3"@[0] == 'v' && "virtio3"@[1] == 'i' && "virtio3"@[2] == 'r' && "virtio3"@[3] == 't' && "virtio3"@[4] == 'i' && "virtio3"@[5] == 'o' && "virtio3"@[6] == '3',
            "virtio4"@.len() == 7 && "virtio4"@[0] == 'v' && "virtio4"@[1] == 'i' && "virtio4"@[2] == 'r' && "virtio4"@[3] == 't' && "virtio4"@[4] == 'i' && "virtio4"@[5] == 'o' && "virtio4"@[6] == '4',
    {
        broadcast use vstd::string::group_string_axioms;

        reveal_strlit("scsi16");
        reveal_strlit("scsi17");
        reveal_strlit("scsi18");
        reveal_strlit("scsi19");
        reveal_strlit("scsi20");
        reveal_strlit("scsi21");
        reveal_strlit("scsi22");
        reveal_strlit("scsi23");
        reveal_strlit("scsi24");
        reveal_strlit("scsi25");
        reveal_strlit("scsi26");
        reveal_strlit("scsi27");
        reveal_strlit("scsi28");
        reveal_strlit("scsi29");
        reveal_strlit("scsi30");
        reveal_strlit("virtio0");
        reveal_strlit("virtio1");
        reveal_strlit("virtio2");
        reveal_strlit("virtio3");
        reveal_strlit("virtio4");
    }

    /// The spelling of known names, character by character.
    proof fn lemma_name_spelling_2()
        ensures
            "virtio5"@.len() == 7 && "virtio5"@[0] == 'v' && "virtio5"@[1] == 'i' && "virtio5"@[2] == 'r' && "virtio5"@[3] == 't' && "virtio5"@[4] == 'i' && "virtio5"@[5] == 'o' && "virtio5"@[6] == '5',
            "virtio6"@.len() == 7 && "virtio6"@[0] == 'v' && "virtio6"@[1] == 'i' && "virtio6"@[2] == 'r' && "virtio6"@[3] == 't' && "virtio6"@[4] == 'i' && "virtio6"@[5] == 'o' && "virtio6"@[6] == '6',
            "virtio7"@.len() == 7 && "virtio7"@[0] == 'v' && "virtio7"@[1] == 'i' && "virtio7"@[2] == 'r' && "virtio7"@[3] == 't' && "virtio7"@[4] == 'i' && "virtio7"@[5] == 'o' && "virtio7"@[6] == '7',
            "virtio8"@.len() == 7 && "virtio8"@[0] == 'v' && "virtio8"@[1] == 'i' && "virtio8"@[2] == 'r' && "virtio8"@[3] == 't' && "virtio8"@[4] == 'i' && "virtio8"@[5] == 'o' && "virtio8"@[6] == '8',
            "virtio9"@.len() == 7 && "virtio9"@[0] == 'v' && "virtio9"@[1] == 'i' && "virtio9"@[2] == 'r' && "virtio9"@[3] == 't' && "virtio9"@[4] == 'i' && "virtio9"@[5] == 'o' && "virtio9"@[6] == '9',
            "virtio10"@.len() == 8 && "virtio10"@[0] == 'v' && "virtio10"@[1] == 'i' && "virtio10"@[2] == 'r' && "virtio10"@[3] == 't' && "virtio10"@[4] == 'i' && "virtio10"@[5] == 'o' && "virtio10"@[6] == '1' && "virtio10"@[7] == '0',
            "virtio11"@.len() == 8 && "virtio11"@[0] == 'v' && "virtio11"@[1] == 'i' && "virtio11"@[2] == 'r' && "virtio11"@[3] == 't' && "virtio11"@[4] == 'i' && "virtio11"@[5] == 'o' && "virtio11"@[6] == '1' && "virtio11"@[7] == '1',
            "virtio12"@.len() == 8 && "virtio12"@[0] == 'v' && "virtio12"@[1] == 'i' && "virtio12"@[2] == 'r' && "virtio12"@[3] == 't' && "virtio12"@[4] == 'i' && "virtio12"@[5] == 'o' && "virtio12"@[6] == '1' && "virtio12"@[7] == '2',
            "virtio13"@.len() == 8 && "virtio13"@[0] == 'v' && "virtio13"@[1] == 'i' && "virtio13"@[2] == 'r' && "virtio13"@[3] == 't' && "virtio13"@[4] == 'i' && "virtio13"@[5] == 'o' && "virtio13"@[6] == '1' && "virtio13"@[7] == '3',
            "virtio14"@.len() == 8 && "virtio14"@[0] == 'v' && "virtio14"@[1] == 'i' && "virtio14"@[2] == 'r' && "virtio14"@[3] == 't' && "virtio14"@[4] == 'i' && "virtio14"@[5] == 'o' && "virtio14"@[6] == '1' && "virtio14"@[7] == '4',
            "virtio15"@.len() == 8 && "virtio15"@[0] == 'v' && "virtio15"@[1] == 'i' && "virtio15"@[2] == 'r' && "virtio15"@[3] == 't' && "virtio15"@[4] == 'i' && "virtio15"@[5] == 'o' && "virtio15"@[6] == '1' && "virtio15"@[7] == '5',
            "sata0"@.len() == 5 && "sata0"@[0] == 's' && "sata0"@[1] == 'a' && "sata0"@[2] == 't' && "sata0"@[3] == 'a' && "sata0"@[4] == '0',
            "sata1"@.len() == 5 && "sata1"@[0] == 's' && "sata1"@[1] == 'a' && "sata1"@[2] == 't' && "sata1"@[3] == 'a' && "sata1"@[4] == '1',
            "sata2"@.len() == 5 && "sata2"@[0] == 's' && "sata2"@[1] == 'a' && "sata2"@[2] == 't' && "sata2"@[3] == 'a' && "sata2"@[4] == '2',
            "sata3"@.len() == 5 && "sata3"@[0] == 's' && "sata3"@[1] == 'a' && "sata3"@[2] == 't' && "sata3"@[3] == 'a' && "sata3"@[4] == '3',
            "sata4"@.len() == 5 && "sata4"@[0] == 's' && "sata4"@[1] == 'a' && "sata4"@[2] == 't' && "sata4"@[3] == 'a' && "sata4"@[4] == '4',
            "sata5"@.len() == 5 && "sata5"@[0] == 's' && "sata5"@[1] == 'a' && "sata5"@[2] == 't' && "sata5"@[3] == 'a' && "sata5"@[4] == '5',
            "efidisk0"@.len() == 8 && "efidisk0"@[0] == 'e' && "efidisk0"@[1] == 'f' && "efidisk0"@[2] == 'i' && "efidisk0"@[3] == 'd' && "efidisk0"@[4] == 'i' && "efidisk0"@[5] == 's' && "efidisk0"@[6] == 'k' && "efidisk0"@[7] == '0',
            "tpmstate0"@.len() == 9 && "tpmstate0"@[0] == 't' && "tpmstate0"@[1] == 'p' && "tpmstate0"@[2] == 'm' && "tpmstate0"@[3] == 's' && "tpmstate0"@[4] == 't' && "tpmstate0"@[5] == 'a' && "tpmstate0"@[6] == 't' && "tpmstate0"@[7] == 'e' && "tpmstate0"@[8] == '0',
    {
        broadcast use vstd::string::group_string_axioms;

        reveal_strlit("virtio5");
        reveal_strlit("virtio6");
        reveal_strlit("virtio7");
        reveal_strlit("virtio8");
        reveal_strlit("virtio9");
        reveal_strlit("virtio10");
        reveal_strlit("virtio11");
        reveal_strlit("virtio12");
        reveal_strlit("virtio13");
        reveal_strlit("virtio14");
        reveal_strlit("virtio15");
        reveal_strlit("sata0");
        reveal_strlit("sata1");
        reveal_strlit("sata2");
        reveal_strlit("sata3");
        reveal_strlit("sata4");
        reveal_strlit("sata5");
        reveal_strlit("efidisk0");
        reveal_strlit("tpmstate0");
    }

    proof fn lemma_known_names_0(v: Self)
        requires
            v is Ide0 || v is Ide1 || v is Ide2 || v is Ide3 || v is Scsi0 || v is Scsi1 || v is Scsi2 || v is Scsi3 || v is Scsi4 || v is Scsi5 || v is Scsi6 || v is Scsi7 || v is Scsi8 || v is Scsi9 || v is Scsi10 || v is Scsi11 || v is Scsi12 || v is Scsi13 || v is Scsi14 || v is Scsi15,
        ensures
            Self::known(v.name()) == Some(v),
    {
        Self::lemma_name_spelling_0();
    }

    proof fn lemma_known_names_1(v: Self)
        requires
            v is Scsi16 || v is Scsi17 || v is Scsi18 || v is Scsi19 || v is Scsi20 || v is Scsi21 || v is Scsi22 || v is Scsi23 || v is Scsi24 || v is Scsi25 || v is Scsi26 || v is Scsi27 || v is Scsi28 || v is Scsi29 || v is Scsi30 || v is Virtio0 || v is Virtio1 || v is Virtio2 || v is Virtio3 || v is Virtio4,
        ensures
            Self::known(v.name()) == Some(v),
    {
        Self::lemma_name_spelling_0();
        Self::lemma_name_spelling_1();
    }

    proof fn lemma_known_names_2(v: Self)
        requires
            v is Virtio5 || v is Virtio6 || v is Virtio7 || v is Virtio8 || v is Virtio9 || v is Virtio10 || v is Virtio11 || v is Virtio12 || v is Virtio13 || v is Virtio14 || v is Virtio15 || v is Sata0 || v is Sata1 || v is Sata2 || v is Sata3 || v is Sata4 || v is Sata5 || v is Efidisk0 || v is Tpmstate0,
        ensures
            Self::known(v.name()) == Some(v),
    {
        Self::lemma_name_spelling_0();
        Self::lemma_name_spelling_1();
        Self::lemma_name_spelling_2();
    }

}

/// Object.
#[derive(Debug)]
pub struct RemoteMigrateQemu {
    /// Override I/O bandwidth limit (in KiB/s).
    pub bwlimit: Option<u64>,

    /// Delete the original VM and related data after successful migration. By
    /// default the original VM is kept on the source cluster in a stopped
    /// state.
    pub delete: Option<bool>,

    /// Use online/live migration if VM is running. Ignored if VM is stopped.
    pub online: Option<bool>,

    /// Mapping from source to target bridges. Providing only a single bridge ID
    /// maps all source bridges to that bridge. Providing the special value '1'
    /// will map each source bridge to itself.
    pub target_bridge: Vec<String>,

    /// Remote target endpoint
    pub target_endpoint: String,

    /// Mapping from source to target storages. Providing only a single storage
    /// ID maps all source storages to that storage. Providing the special value
    /// '1' will map each source storage to itself.
    pub target_storage: Vec<String>,

    /// The (unique) ID of the VM.
    pub target_vmid: Option<u32>,
}

/// Object.
#[derive(Debug)]
pub struct ShutdownQemu {
    /// Make sure the VM stops.
    pub force_stop: Option<bool>,

    /// Do not deactivate storage volumes.
    pub keep_active: Option<bool>,

    /// Ignore locks - only root is allowed to use this option.
    pub skiplock: Option<bool>,

    /// Wait maximal timeout seconds.
    pub timeout: Option<u64>,
}

impl Default for ShutdownQemu {
    /// No parameter is set.
    fn default() -> (r: Self)
        ensures
            r.force_stop is None,
            r.keep_active is None,
            r.skiplock is None,
            r.timeout is None,
    {
        ShutdownQemu {
            force_stop: None,
            keep_active: None,
            skiplock: None,
            timeout: None,
        }
    }
}

/// Object.
#[derive(Debug)]
pub struct StartQemu {
    /// Override QEMU's -cpu argument with the given string.
    pub force_cpu: Option<String>,

    /// Specify the QEMU machine.
    pub machine: Option<String>,

    /// The cluster node name.
    pub migratedfrom: Option<String>,

    /// CIDR of the (sub) network that is used for migration.
    pub migration_network: Option<String>,

    pub migration_type: Option<StartQemuMigrationType>,

    /// Used for migration compat. List of VirtIO network devices and their
    /// effective host_mtu setting according to the QEMU object model on the
    /// source side of the migration. A value of 0 means that the host_mtu
    /// parameter is to be avoided for the corresponding device.
    pub nets_host_mtu: Option<String>,

    /// Ignore locks - only root is allowed to use this option.
    pub skiplock: Option<bool>,

    /// Some command save/restore state from this location.
    pub stateuri: Option<String>,

    /// Mapping from source to target storages. Providing only a single storage
    /// ID maps all source storages to that storage. Providing the special value
    /// '1' will map each source storage to itself.
    pub targetstorage: Option<Vec<String>>,

    /// Wait maximal timeout seconds.
    pub timeout: Option<u64>,

    /// Whether to migrate conntrack entries for running VMs.
    pub with_conntrack_state: Option<bool>,
}

impl Default for StartQemu {
    /// No parameter is set.
    fn default() -> (r: Self)
        ensures
            r.force_cpu is None,
            r.machine is None,
            r.migratedfrom is None,
            r.migration_network is None,
            r.migration_type is None,
            r.nets_host_mtu is None,
            r.skiplock is None,
            r.stateuri is None,
            r.targetstorage is None,
            r.timeout is None,
            r.with_conntrack_state is None,
    {
        StartQemu {
            force_cpu: None,
            machine: None,
            migratedfrom: None,
            migration_network: None,
            migration_type: None,
            nets_host_mtu: None,
            skiplock: None,
            stateuri: None,
            targetstorage: None,
            timeout: None,
            with_conntrack_state: None,
        }
    }
}

/// Migration traffic is encrypted using an SSH tunnel by default. On secure,
/// completely private networks this can be disabled to increase performance.
#[derive(Clone, Debug)]
pub enum StartQemuMigrationType {
    /// secure.
    Secure,
    /// insecure.
    Insecure,
    /// Unknown variants for forward compatibility.
    UnknownEnumValue(String),
}

impl PartialEq for StartQemuMigrationType {
    fn eq(&self, other: &Self) -> (r: bool) {
        match (self, other) {
            (StartQemuMigrationType::Secure, StartQemuMigrationType::Secure) => true,
            (StartQemuMigrationType::Insecure, StartQemuMigrationType::Insecure) => true,
            (StartQemuMigrationType::UnknownEnumValue(a), StartQemuMigrationType::UnknownEnumValue(b)) => *a == *b,
            _ => false,
        }
    }
}

impl PartialEqSpecImpl for StartQemuMigrationType {
    open spec fn obeys_eq_spec() -> bool {
        true
    }

    open spec fn eq_spec(&self, other: &Self) -> bool {
        match (self, other) {
            (StartQemuMigrationType::UnknownEnumValue(a), StartQemuMigrationType::UnknownEnumValue(b)) => a@ == b@,
            _ => *self == *other,
        }
    }
}

impl std::str::FromStr for StartQemuMigrationType {
    type Err = core::convert::Infallible;

    fn from_str(s: &str) -> (r: Result<Self, Self::Err>)
        ensures
            r matches Ok(v) && Self::parses_to(s@, v),
    {
        Ok(StartQemuMigrationType::from_name(s))
    }
}

impl StartQemuMigrationType {
    /// The name under which the API writes this value.
    pub open spec fn name(self) -> Seq<char> {
        match self {
            StartQemuMigrationType::Secure => "secure"@,
            StartQemuMigrationType::Insecure => "insecure"@,
            StartQemuMigrationType::UnknownEnumValue(s) => s@,
        }
    }

    /// The known value that the API name `s` stands for, if any.
    pub open spec fn known(s: Seq<char>) -> Option<Self> {
        if s == "secure"@ {
            Some(StartQemuMigrationType::Secure)
        }         else if s == "insecure"@ {
            Some(StartQemuMigrationType::Insecure)
        } else {
            None
        }
    }

    /// `v` is the value that reading the API name `s` gives.
    pub open spec fn parses_to(s: Seq<char>, v: Self) -> bool {
        match Self::known(s) {
            Some(k) => v == k,
            None => v matches StartQemuMigrationType::UnknownEnumValue(t) && t@ == s,
        }
    }

    /// The API name of this value.
    pub fn to_string(&self) -> (r: String)
        ensures
            r@ == self.name(),
    {
        match self {
            StartQemuMigrationType::Secure => String::from_str("secure"),
            StartQemuMigrationType::Insecure => String::from_str("insecure"),
            StartQemuMigrationType::UnknownEnumValue(s) => s.clone(),
        }
    }

    /// Reads an API name; a name that is not known is kept as an unknown value.
    pub fn from_name(s: &str) -> (r: Self)
        ensures
            Self::parses_to(s@, r),
    {
        if str_eq(s, "secure") {
            StartQemuMigrationType::Secure
        }         else if str_eq(s, "insecure") {
            StartQemuMigrationType::Insecure
        } else {
            StartQemuMigrationType::UnknownEnumValue(String::from_str(s))
        }
    }

    /// Each known value goes with the name the API uses for it: `secure` for `Secure`, `insecure` for `Insecure`.
    /// `to_string` writes that name and `from_name` reads it as that value.
    pub proof fn lemma_api_names()
        ensures
            StartQemuMigrationType::Secure.name() == "secure"@,
            Self::parses_to("secure"@, StartQemuMigrationType::Secure),
            StartQemuMigrationType::Insecure.name() == "insecure"@,
            Self::parses_to("insecure"@, StartQemuMigrationType::Insecure),
    {
        Self::lemma_to_string_from_name(StartQemuMigrationType::Secure);
        Self::lemma_to_string_from_name(StartQemuMigrationType::Insecure);
    }

    /// Writing out a value that was read gives back the name that was read.
    pub proof fn lemma_from_name_to_string(s: Seq<char>, v: Self)
        requires
            Self::parses_to(s, v),
        ensures
            v.name() == s,
    {
    }

    /// Reading the name of a value gives back the value, unless the value is an
    /// unknown one that carries the name of a known one.
    pub proof fn lemma_to_string_from_name(v: Self)
        requires
            v is UnknownEnumValue ==> Self::known(v.name()) is None,
        ensures
            Self::parses_to(v.name(), v),
    {
        if !(v is UnknownEnumValue) {
            Self::lemma_known_names(v);
        }
    }

    /// The spelling of known names, character by character.
    proof fn lemma_name_spelling()
        ensures
            "secure"@.len() == 6 && "secure"@[0] == 's' && "secure"@[1] == 'e' && "secure"@[2] == 'c' && "secure"@[3] == 'u' && "secure"@[4] == 'r' && "secure"@[5] == 'e',
            "insecure"@.len() == 8 && "insecure"@[0] == 'i' && "insecure"@[1] == 'n' && "insecure"@[2] == 's' && "insecure"@[3] == 'e' && "insecure"@[4] == 'c' && "insecure"@[5] == 'u' && "insecure"@[6] == 'r' && "insecure"@[7] == 'e',
    {
        broadcast use vstd::string::group_string_axioms;

        reveal_strlit("secure");
        reveal_strlit("insecure");
    }

    proof fn lemma_known_names(v: Self)
        requires
            !(v is UnknownEnumValue),
        ensures
            Self::known(v.name()) == Some(v),
    {
        Self::lemma_name_spelling();
    }

}

/// Object.
#[derive(Debug)]
pub struct StopQemu {
    /// Do not deactivate storage volumes.
    pub keep_active: Option<bool>,

    /// The cluster node name.
    pub migratedfrom: Option<String>,

    /// Try to abort active 'qmshutdown' tasks before stopping.
    pub overrule_shutdown: Option<bool>,

    /// Ignore locks - only root is allowed to use this option.
    pub skiplock: Option<bool>,

    /// Wait maximal timeout seconds.
    pub timeout: Option<u64>,
}

impl Default for StopQemu {
    /// No parameter is set.
    fn default() -> (r: Self)
        ensures
            r.keep_active is None,
            r.migratedfrom is None,
            r.overrule_shutdown is None,
            r.skiplock is None,
            r.timeout is None,
    {
        StopQemu {
            keep_active: None,
            migratedfrom: None,
            overrule_shutdown: None,
            skiplock: None,
            timeout: None,
        }
    }
}

} // verus!
