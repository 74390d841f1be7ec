//! Registering the directory that the provider keeps in sync (its sync root).
use vstd::prelude::*;
use vstd::string::*;

verus! {

/// The name of this storage provider.
pub const STORAGE_PROVIDER_ID: &'static str = "TestStorageProvider";

/// The account under which the sync root is registered.
pub const STORAGE_PROVIDER_ACCOUNT: &'static str = "TestAccount1";

/// The name the shell shows for the sync root.
pub const DISPLAY_NAME_RESOURCE: &'static str = "CloudMirror";

/// The icon the shell shows for the sync root.
pub const ICON_RESOURCE: &'static str = "%SystemRoot%\\system32\\charmap.exe,0";

/// The version of the provider.
pub const PROVIDER_VERSION: &'static str = "1.0.0";

/// Where deleted files can be found.
pub const RECYCLE_BIN_URI: &'static str = "http://cloudmirror.example.com/recyclebin";

/// `StorageProviderInSyncPolicy::FileCreationTime`.
pub const IN_SYNC_POLICY_FILE_CREATION_TIME: u32 = 1;

/// `StorageProviderInSyncPolicy::DirectoryCreationTime`.
pub const IN_SYNC_POLICY_DIRECTORY_CREATION_TIME: u32 = 16;

/// `StorageProviderHydrationPolicyModifier::None`.
pub const HYDRATION_POLICY_MODIFIER_NONE: u32 = 0;

/// `StorageProviderHardlinkPolicy::None`.
pub const HARDLINK_POLICY_NONE: u32 = 0;

/// When file contents are brought down from the cloud
/// (`StorageProviderHydrationPolicy`).
#[derive(PartialEq, Eq, Structural, Clone, Copy, Debug)]
pub enum HydrationPolicy {
    Partial,
    Progressive,
    Full,
    AlwaysFull,
}

/// When directory listings are brought down from the cloud
/// (`StorageProviderPopulationPolicy`).
#[derive(PartialEq, Eq, Structural, Clone, Copy, Debug)]
pub enum PopulationPolicy {
    Full,
    AlwaysFull,
}

/// Everything the provider registers for its sync root.
#[derive(Debug)]
pub struct SyncRootRegistration {
    pub id: String,
    pub path: String,
    pub display_name_resource: String,
    pub icon_resource: String,
    pub hydration_policy: HydrationPolicy,
    pub hydration_policy_modifier: u32,
    pub population_policy: PopulationPolicy,
    pub in_sync_policy: u32,
    pub version: String,
    pub show_siblings_as_group: bool,
    pub hardlink_policy: u32,
    pub recycle_bin_uri: String,
}

/// The id of the sync root for the user whose security identifier reads
/// `sid`: `<provider>!<sid>!<account>`.
pub open spec fn spec_sync_root_id(sid: Seq<char>) -> Seq<char> {
    STORAGE_PROVIDER_ID@ + "!"@ + sid + "!"@ + STORAGE_PROVIDER_ACCOUNT@
}

/// Formats the sync root id for the user whose security identifier, as a
/// string, is `sid`.
pub fn get_sync_root_id(sid: &str) -> (r: String)
    ensures
        r@ == spec_sync_root_id(sid@),
        r@ == STORAGE_PROVIDER_ID@ + "!"@ + sid@ + "!"@ + STORAGE_PROVIDER_ACCOUNT@,
{
    let mut id = String::from_str(STORAGE_PROVIDER_ID);
    id.append("!");
    id.append(sid);
    id.append("!");
    id.append(STORAGE_PROVIDER_ACCOUNT);
    id
}

/// What registering `client_dir` as the sync root of the user whose security
/// identifier is `sid` sets: the id of the sync root, its path, how it shows
/// in the shell, and its policies: full hydration without modifiers, full
/// population, files and directories in sync by creation time, no sibling
/// grouping, no hard links, and a recycle bin address.
pub fn register_sync_root(client_dir: &str, sid: &str) -> (r: SyncRootRegistration)
    ensures
        r.id@ == spec_sync_root_id(sid@),
        r.id@ == STORAGE_PROVIDER_ID@ + "!"@ + sid@ + "!"@ + STORAGE_PROVIDER_ACCOUNT@,
        r.path@ == client_dir@,
        r.display_name_resource@ == DISPLAY_NAME_RESOURCE@,
        r.icon_resource@ == ICON_RESOURCE@,
        r.hydration_policy == HydrationPolicy::Full,
        r.hydration_policy_modifier == HYDRATION_POLICY_MODIFIER_NONE,
        r.population_policy == PopulationPolicy::AlwaysFull,
        r.in_sync_policy == IN_SYNC_POLICY_FILE_CREATION_TIME | IN_SYNC_POLICY_DIRECTORY_CREATION_TIME,
        r.in_sync_policy == 17,
        r.version@ == PROVIDER_VERSION@,
        !r.show_siblings_as_group,
        r.hardlink_policy == HARDLINK_POLICY_NONE,
        r.recycle_bin_uri@ == RECYCLE_BIN_URI@,
{
    let in_sync_policy = IN_SYNC_POLICY_FILE_CREATION_TIME | IN_SYNC_POLICY_DIRECTORY_CREATION_TIME;
    assert(1u32 | 16u32 == 17u32) by (bit_vector);
    SyncRootRegistration {
        id: get_sync_root_id(sid),
        path: String::from_str(client_dir),
        display_name_resource: String::from_str(DISPLAY_NAME_RESOURCE),
        icon_resource: String::from_str(ICON_RESOURCE),
        hydration_policy: HydrationPolicy::Full,
        hydration_policy_modifier: HYDRATION_POLICY_MODIFIER_NONE,
        population_policy: PopulationPolicy::AlwaysFull,
        in_sync_policy,
        version: String::from_str(PROVIDER_VERSION),
        show_siblings_as_group: false,
        hardlink_policy: HARDLINK_POLICY_NONE,
        recycle_bin_uri: String::from_str(RECYCLE_BIN_URI),
    }
}

/// The sync root id holds the whole security identifier: it is the provider
/// name, a `!`, every character of the identifier, a `!`, and the account
/// name; so two different identifiers never give the same id.
pub proof fn lemma_sync_root_id_holds_sid(sid: Seq<char>, other: Seq<char>)
    ensures
        ({
            let id = spec_sync_root_id(sid);
            let p: int = STORAGE_PROVIDER_ID@.len() as int;
            &&& id.len() == p + (sid.len() as int) + STORAGE_PROVIDER_ACCOUNT@.len() + 2
            &&& id.subrange(0, p) == STORAGE_PROVIDER_ID@
            &&& id[p] == '!'
            &&& id.subrange(p + 1, p + 1 + (sid.len() as int)) == sid
            &&& id[p + 1 + (sid.len() as int)] == '!'
            &&& id.subrange(p + 2 + (sid.len() as int), id.len() as int) == STORAGE_PROVIDER_ACCOUNT@
        }),
        spec_sync_root_id(sid) == spec_sync_root_id(other) ==> sid == other,
{
    reveal_strlit("!");
    let p: int = STORAGE_PROVIDER_ID@.len() as int;
    let id = spec_sync_root_id(sid);
    assert(id.subrange(0, p) =~= STORAGE_PROVIDER_ID@);
    assert(id.subrange(p + 1, p + 1 + (sid.len() as int)) =~= sid);
    assert(id.subrange(p + 2 + (sid.len() as int), id.len() as int) =~= STORAGE_PROVIDER_ACCOUNT@);
    let id2 = spec_sync_root_id(other);
    if id == id2 {
        assert((other.len() as int) == (sid.len() as int));
        assert(id2.subrange(p + 1, p + 1 + (other.len() as int)) =~= other);
    }
}

} // verus!
