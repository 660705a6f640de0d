//! Which user directories a configuration sets up.
//!
//! Reading the configuration and connecting to a backend are left to the
//! caller. What is decided here: which kind of directory a type name
//! stands for, which entries are turned down and with what message, and
//! which entries end up registered under their identifier.

use vstd::prelude::*;
use vstd::string::*;
use ahash::AHashMap;
use crate::text::{quote, quoted};

verus! {

/// The kinds of directory that a configuration can name.
#[derive(Clone, Copy, Debug, PartialEq, Eq, Structural)]
pub enum DirectoryType {
    Internal,
    Ldap,
    Sql,
    Imap,
    /// An SMTP server, or an LMTP server where `is_lmtp` is set.
    Smtp { is_lmtp: bool },
    Memory,
    OpenId,
}

/// What the `store` key of an `internal` directory refers to.
#[derive(Clone, Copy, Debug, PartialEq, Eq, Structural)]
pub enum StoreRef {
    /// The key is not set.
    Missing,
    /// The key names no configured store.
    Unknown,
    /// The key names a configured store.
    Known,
}

/// What became of the attempt to set a directory's backend up.
#[derive(Clone, Copy, Debug, PartialEq, Eq, Structural)]
pub enum Backend {
    /// The backend could not be set up from its settings.
    Unavailable,
    /// The backend is set up and needs no licence.
    Community,
    /// The backend is set up and is an Enterprise Edition feature.
    Enterprise,
}

/// One `directory.<id>` section of the configuration.
#[derive(Clone, Debug, PartialEq, Eq)]
pub struct DirectoryEntry {
    /// The identifier of the section.
    pub id: String,
    /// The value of its `type` key.
    pub protocol: String,
    /// What its `store` key refers to.
    pub store: StoreRef,
    /// What became of its backend; read only where the entry is well
    /// formed.
    pub backend: Backend,
}

/// Why an entry was turned down.
#[derive(Clone, Copy, Debug, PartialEq, Eq, Structural)]
pub enum Fault {
    /// The `store` key names no configured store.
    StoreMissing,
    /// The `type` key names no kind of directory.
    UnknownType,
    /// The directory needs a licence that the server does not have.
    EnterpriseOnly,
}

/// An entry that was turned down.
#[derive(Clone, Debug, PartialEq, Eq)]
pub struct ConfigError {
    /// The identifier of the section.
    pub id: String,
    /// The value of its `type` key.
    pub protocol: String,
    /// What is wrong with it.
    pub fault: Fault,
}

/// The mathematical value of a [`ConfigError`].
pub ghost struct ConfigErrorView {
    pub id: Seq<char>,
    pub protocol: Seq<char>,
    pub fault: Fault,
}

impl View for ConfigError {
    type V = ConfigErrorView;

    open spec fn view(&self) -> ConfigErrorView {
        ConfigErrorView { id: self.id@, protocol: self.protocol@, fault: self.fault }
    }
}

/// What the message about a fault says, given the type name as it is
/// quoted.
pub open spec fn fault_text(fault: Fault, quoted_protocol: Seq<char>) -> Seq<char> {
    match fault {
        Fault::StoreMissing => "Store does not exist"@,
        Fault::UnknownType => "Unknown directory type: "@ + quoted_protocol,
        Fault::EnterpriseOnly => "Directory "@ + quoted_protocol
            + " is an Enterprise Edition feature"@,
    }
}

impl Fault {
    /// The last part of the configuration key that the fault lies in.
    pub open spec fn key_name(self) -> Seq<char> {
        if self == Fault::StoreMissing {
            "store"@
        } else {
            "type"@
        }
    }

    /// The last part of the configuration key that the fault lies in:
    /// `store` for a store that is not there, `type` for all else.
    pub fn key(self) -> (name: &'static str)
        ensures
            name@ == self.key_name(),
    {
        match self {
            Fault::StoreMissing => "store",
            _ => "type",
        }
    }

    /// The message about this fault, given the type name as it is quoted.
    pub fn describe(self, quoted_protocol: &str) -> (text: String)
        ensures
            text@ == fault_text(self, quoted_protocol@),
    {
        match self {
            Fault::StoreMissing => String::from_str("Store does not exist"),
            Fault::UnknownType => String::from_str("Unknown directory type: ").concat(
                quoted_protocol,
            ),
            Fault::EnterpriseOnly => String::from_str("Directory ").concat(quoted_protocol).concat(
                " is an Enterprise Edition feature",
            ),
        }
    }
}

impl ConfigError {
    /// The message about this error.
    pub fn message(&self) -> (text: String)
        ensures
            text@ == fault_text(self@.fault, quoted(self@.protocol)),
    {
        let quoted_protocol = quote(self.protocol.as_str());
        self.fault.describe(quoted_protocol.as_str())
    }
}

/// The mathematical value of a [`DirectoryEntry`].
pub ghost struct DirectoryEntryView {
    pub id: Seq<char>,
    pub protocol: Seq<char>,
    pub store: StoreRef,
    pub backend: Backend,
}

impl View for DirectoryEntry {
    type V = DirectoryEntryView;

    open spec fn view(&self) -> DirectoryEntryView {
        DirectoryEntryView {
            id: self.id@,
            protocol: self.protocol@,
            store: self.store,
            backend: self.backend,
        }
    }
}

/// What is decided about one entry.
#[derive(Clone, Copy, Debug, PartialEq, Eq, Structural)]
pub enum Decision {
    /// The directory is registered.
    Register(DirectoryType),
    /// The entry is passed over without a message of its own.
    Skip,
    /// The entry is turned down.
    Reject(Fault),
}

/// The kind of directory that the type name `protocol` stands for.
pub open spec fn directory_type(protocol: Seq<char>) -> Option<DirectoryType> {
    if protocol == "internal"@ {
        Some(DirectoryType::Internal)
    } else if protocol == "ldap"@ {
        Some(DirectoryType::Ldap)
    } else if protocol == "sql"@ {
        Some(DirectoryType::Sql)
    } else if protocol == "imap"@ {
        Some(DirectoryType::Imap)
    } else if protocol == "smtp"@ {
        Some(DirectoryType::Smtp { is_lmtp: false })
    } else if protocol == "lmtp"@ {
        Some(DirectoryType::Smtp { is_lmtp: true })
    } else if protocol == "memory"@ {
        Some(DirectoryType::Memory)
    } else if protocol == "oidc"@ {
        Some(DirectoryType::OpenId)
    } else {
        None
    }
}

/// Whether a backend is to be set up for the entry, and of which kind:
/// not for an unknown type name, and not for an `internal` directory
/// whose store is not there.
pub open spec fn selection(protocol: Seq<char>, store: StoreRef) -> Decision {
    match directory_type(protocol) {
        None => Decision::Reject(Fault::UnknownType),
        Some(DirectoryType::Internal) => match store {
            StoreRef::Missing => Decision::Skip,
            StoreRef::Unknown => Decision::Reject(Fault::StoreMissing),
            StoreRef::Known => Decision::Register(DirectoryType::Internal),
        },
        Some(kind) => Decision::Register(kind),
    }
}

/// What is decided about `entry` on a server that holds an Enterprise
/// licence or not.
pub open spec fn decision(entry: DirectoryEntryView, is_enterprise: bool) -> Decision {
    match selection(entry.protocol, entry.store) {
        Decision::Register(kind) => match entry.backend {
            Backend::Unavailable => Decision::Skip,
            Backend::Community => Decision::Register(kind),
            Backend::Enterprise => if is_enterprise {
                Decision::Register(kind)
            } else {
                Decision::Reject(Fault::EnterpriseOnly)
            },
        },
        other => other,
    }
}

/// The directories registered after `entries` were gone through in order:
/// a later entry replaces an earlier one of the same identifier.
pub open spec fn registered(entries: Seq<DirectoryEntryView>, is_enterprise: bool) -> Map<
    Seq<char>,
    DirectoryType,
>
    decreases entries.len(),
{
    if entries.len() == 0 {
        Map::empty()
    } else {
        let earlier = registered(entries.drop_last(), is_enterprise);
        match decision(entries.last(), is_enterprise) {
            Decision::Register(kind) => earlier.insert(entries.last().id, kind),
            _ => earlier,
        }
    }
}

/// The entries of `entries` that are turned down, in order.
pub open spec fn rejected(entries: Seq<DirectoryEntryView>, is_enterprise: bool) -> Seq<
    ConfigErrorView,
>
    decreases entries.len(),
{
    if entries.len() == 0 {
        Seq::empty()
    } else {
        let earlier = rejected(entries.drop_last(), is_enterprise);
        match decision(entries.last(), is_enterprise) {
            Decision::Reject(fault) => earlier.push(
                ConfigErrorView {
                    id: entries.last().id,
                    protocol: entries.last().protocol,
                    fault,
                },
            ),
            _ => earlier,
        }
    }
}

/// The entries of a vector, each by its value.
pub open spec fn entry_views(entries: Seq<DirectoryEntry>) -> Seq<DirectoryEntryView> {
    Seq::new(entries.len(), |i: int| entries[i]@)
}

/// The errors of a vector, each by its value.
pub open spec fn error_views(errors: Seq<ConfigError>) -> Seq<ConfigErrorView> {
    Seq::new(errors.len(), |i: int| errors[i]@)
}

fn same_text(a: &str, b: &str) -> (r: bool)
    ensures
        r == (a@ == b@),
{
    String::from_str(a) == String::from_str(b)
}

impl DirectoryType {
    /// The kind of directory that the type name `protocol` stands for, if
    /// it is one.
    pub fn parse(protocol: &str) -> (kind: Option<DirectoryType>)
        ensures
            kind == directory_type(protocol@),
    {
        if same_text(protocol, "internal") {
            Some(DirectoryType::Internal)
        } else if same_text(protocol, "ldap") {
            Some(DirectoryType::Ldap)
        } else if same_text(protocol, "sql") {
            Some(DirectoryType::Sql)
        } else if same_text(protocol, "imap") {
            Some(DirectoryType::Imap)
        } else if same_text(protocol, "smtp") {
            Some(DirectoryType::Smtp { is_lmtp: false })
        } else if same_text(protocol, "lmtp") {
            Some(DirectoryType::Smtp { is_lmtp: true })
        } else if same_text(protocol, "memory") {
            Some(DirectoryType::Memory)
        } else if same_text(protocol, "oidc") {
            Some(DirectoryType::OpenId)
        } else {
            None
        }
    }
}

/// Whether a backend is to be set up for an entry of type `protocol`
/// whose `store` key refers to `store`, and of which kind.
pub fn select(protocol: &str, store: StoreRef) -> (d: Decision)
    ensures
        d == selection(protocol@, store),
{
    match DirectoryType::parse(protocol) {
        None => Decision::Reject(Fault::UnknownType),
        Some(DirectoryType::Internal) => match store {
            StoreRef::Missing => Decision::Skip,
            StoreRef::Unknown => Decision::Reject(Fault::StoreMissing),
            StoreRef::Known => Decision::Register(DirectoryType::Internal),
        },
        Some(kind) => Decision::Register(kind),
    }
}

/// Decides about one entry.
pub fn decide(entry: &DirectoryEntry, is_enterprise: bool) -> (d: Decision)
    ensures
        d == decision(entry@, is_enterprise),
{
    match select(entry.protocol.as_str(), entry.store) {
        Decision::Register(kind) => match entry.backend {
            Backend::Unavailable => Decision::Skip,
            Backend::Community => Decision::Register(kind),
            Backend::Enterprise => {
                if is_enterprise {
                    Decision::Register(kind)
                } else {
                    Decision::Reject(Fault::EnterpriseOnly)
                }
            },
        },
        other => other,
    }
}

/// `ahash::AHashMap`, a hash map of the standard library under another
/// hasher; nothing inside it is visible here.
#[verifier::external_type_specification]
#[verifier::external_body]
#[verifier::reject_recursive_types(K)]
#[verifier::reject_recursive_types(V)]
#[verifier::reject_recursive_types(S)]
pub struct ExAHashMap<K, V, S>(AHashMap<K, V, S>);

/// `ahash::RandomState`, the hasher that such a map is made with.
#[verifier::external_type_specification]
#[verifier::external_body]
pub struct ExRandomState(ahash::RandomState);

/// What a map from identifiers to kinds of directory holds.
pub uninterp spec fn registry(map: AHashMap<String, DirectoryType>) -> Map<
    Seq<char>,
    DirectoryType,
>;

/// The map that holds no directory.
pub open spec fn no_directories() -> Map<Seq<char>, DirectoryType> {
    Map::empty()
}

/// `AHashMap::new`: a map that holds nothing.
#[verifier::external_body]
fn registry_new() -> (fresh: AHashMap<String, DirectoryType>)
    ensures
        registry(fresh) == no_directories(),
{
    AHashMap::new()
}

/// `AHashMap::insert`, which hands the call on to `HashMap::insert`:
/// afterwards `id` stands for `kind`, every other key for what it stood
/// for, and what `id` stood for before comes back.
#[verifier::external_body]
fn registry_insert(
    map: &mut AHashMap<String, DirectoryType>,
    id: String,
    kind: DirectoryType,
) -> (previous: Option<DirectoryType>)
    ensures
        registry(*final(map)) == registry(*old(map)).insert(id@, kind),
        previous == if registry(*old(map)).dom().contains(id@) {
            Some(registry(*old(map))[id@])
        } else {
            None::<DirectoryType>
        },
{
    map.insert(id, kind)
}

/// `AHashMap::get`, which hands the call on to `HashMap::get`: what `id`
/// stands for, if it stands for anything.
#[verifier::external_body]
fn registry_get(map: &AHashMap<String, DirectoryType>, id: &str) -> (kind: Option<DirectoryType>)
    ensures
        kind == if registry(*map).dom().contains(id@) {
            Some(registry(*map)[id@])
        } else {
            None::<DirectoryType>
        },
{
    map.get(id).copied()
}

/// The directories that a configuration sets up, by identifier, and the
/// entries that it turned down.
pub struct Directories {
    directories: AHashMap<String, DirectoryType>,
    errors: Vec<ConfigError>,
}

impl Directories {
    /// The registered directories, by identifier.
    pub closed spec fn directories(&self) -> Map<Seq<char>, DirectoryType> {
        registry(self.directories)
    }

    /// The entries that were turned down, in order.
    pub closed spec fn errors(&self) -> Seq<ConfigErrorView> {
        error_views(self.errors@)
    }

    /// Goes through `entries` in order and registers every directory that
    /// is well formed, whose backend is set up and which the licence
    /// covers; a later entry replaces an earlier one of the same
    /// identifier. The entries that are turned down are listed with the
    /// reason, in order.
    pub fn parse(entries: Vec<DirectoryEntry>, is_enterprise: bool) -> (result: Directories)
        ensures
            result.directories() == registered(entry_views(entries@), is_enterprise),
            result.errors() == rejected(entry_views(entries@), is_enterprise),
    {
        let mut directories = registry_new();
        let mut errors: Vec<ConfigError> = Vec::new();
        let ghost all = entry_views(entries@);
        assert(all.take(0) =~= Seq::<DirectoryEntryView>::empty());
        assert(error_views(errors@) =~= Seq::<ConfigErrorView>::empty());
        let mut i: usize = 0;
        while i < entries.len()
            invariant
                i <= entries.len(),
                all == entry_views(entries@),
                registry(directories) == registered(all.take(i as int), is_enterprise),
                error_views(errors@) == rejected(all.take(i as int), is_enterprise),
            decreases entries.len() - i,
        {
            let entry = &entries[i];
            let ghost before = error_views(errors@);
            proof {
                assert(all.take(i + 1).drop_last() =~= all.take(i as int));
                assert(all.take(i + 1).last() == entry@);
            }
            match decide(entry, is_enterprise) {
                Decision::Register(kind) => {
                    registry_insert(&mut directories, entry.id.clone(), kind);
                },
                Decision::Skip => {},
                Decision::Reject(fault) => {
                    let error = ConfigError {
                        id: entry.id.clone(),
                        protocol: entry.protocol.clone(),
                        fault,
                    };
                    errors.push(error);
                    assert(error_views(errors@) =~= before.push(error@));
                },
            }
            i += 1;
        }
        assert(all.take(i as int) =~= all);
        Directories { directories, errors }
    }

    /// The kind of the directory registered as `id`, if there is one.
    pub fn get(&self, id: &str) -> (kind: Option<DirectoryType>)
        ensures
            kind == if self.directories().dom().contains(id@) {
                Some(self.directories()[id@])
            } else {
                None::<DirectoryType>
            },
    {
        registry_get(&self.directories, id)
    }

    /// The entries that were turned down, in order.
    pub fn rejections(&self) -> (errors: &Vec<ConfigError>)
        ensures
            error_views(errors@) == self.errors(),
    {
        &self.errors
    }
}

} // verus!
