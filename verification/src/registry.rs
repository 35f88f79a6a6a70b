use vstd::prelude::*;

use crate::errors::ModelRegistryError;
use crate::events::MetadataUpdated;
use crate::events::ModelDeprecatedEvent;
use crate::events::ModelPublished;
use crate::events::OwnershipTransferred;
use crate::events::VersionAdded;
use crate::state::license_of_code;
use crate::state::valid_license_code;
use crate::state::wf_model;
use crate::state::wf_version;
use crate::state::AccountId;
use crate::state::ConfigView;
use crate::state::License;
use crate::state::Model;
use crate::state::ModelVersion;
use crate::state::ModelView;
use crate::state::RegistryConfig;
use crate::state::VersionView;
use crate::state::bytes_eq;
use crate::state::MAX_NAME_LEN;
use crate::state::MAX_URI_LEN;
use crate::state::clone_bytes;
use crate::state::id_eq;

verus! {

/// One model's slot in the registry: the record itself, its append-only
/// version history, and the key material the slot was created under.
///
/// `creator` is the publisher identity at creation time. It is the key
/// component the slot's storage address was derived from, so it never
/// changes, even when ownership of the model is transferred afterwards.
#[derive(Clone, Debug, PartialEq, Eq)]
pub struct ModelEntry {
    /// Publisher identity the slot was created under; fixed for ever.
    pub creator: AccountId,
    /// Storage address the host derived for the model record.
    pub address: AccountId,
    /// The model record.
    pub model: Model,
    /// Version snapshots, in order: `versions[k]` holds version `k + 1`.
    pub versions: Vec<ModelVersion>,
}

/// Mathematical image of a `ModelEntry`.
pub ghost struct EntryView {
    pub creator: Seq<u8>,
    pub address: Seq<u8>,
    pub model: ModelView,
    pub versions: Seq<VersionView>,
}

impl View for ModelEntry {
    type V = EntryView;

    open spec fn view(&self) -> EntryView {
        EntryView {
            creator: self.creator@,
            address: self.address@,
            model: self.model@,
            versions: self.versions@.map_values(|v: ModelVersion| v@),
        }
    }
}

/// The whole registry: the singleton configuration record plus one entry
/// per published model, applied one serialized operation at a time.
///
/// The host substrate addresses each record by a key derived from public
/// inputs; here an entry stands at the slot keyed by (creator, model name),
/// and version `k` of an entry is its `versions[k - 1]`.
#[derive(Clone, Debug, PartialEq, Eq)]
pub struct Registry {
    pub config: RegistryConfig,
    pub entries: Vec<ModelEntry>,
}

/// Mathematical image of a `Registry`.
pub ghost struct RegistryView {
    pub config: ConfigView,
    pub entries: Seq<EntryView>,
}

impl View for Registry {
    type V = RegistryView;

    open spec fn view(&self) -> RegistryView {
        RegistryView {
            config: self.config@,
            entries: self.entries@.map_values(|e: ModelEntry| e@),
        }
    }
}

/// Whether entry `e` sits at the slot keyed by (creator, name).
pub open spec fn entry_key_matches(e: EntryView, creator: Seq<u8>, name: Seq<u8>) -> bool {
    e.creator == creator && e.model.model_name == name
}

/// Whether some entry occupies the slot keyed by (creator, name).
pub open spec fn has_model(r: RegistryView, creator: Seq<u8>, name: Seq<u8>) -> bool {
    exists|i: int| 0 <= i < r.entries.len() && entry_key_matches(#[trigger] r.entries[i], creator, name)
}

/// Well-formedness of one entry: the record is valid, the history is a
/// dense 1-indexed sequence exactly `version_count` long, every snapshot is
/// valid and points back at the entry's address, and the record's weights
/// hash is the latest snapshot's.
pub open spec fn wf_entry(e: EntryView) -> bool {
    &&& wf_model(e.model)
    &&& e.versions.len() == e.model.version_count
    &&& forall|j: int| 0 <= j < e.versions.len() ==> (#[trigger] e.versions[j]).version == j + 1
    &&& forall|j: int| 0 <= j < e.versions.len() ==> wf_version(#[trigger] e.versions[j])
    &&& forall|j: int| 0 <= j < e.versions.len() ==> (#[trigger] e.versions[j]).model == e.address
    &&& e.model.weights_hash == e.versions.last().weights_hash
}

/// Well-formedness of the registry: every entry is well formed and no two
/// entries share a (creator, name) slot.
pub open spec fn wf_registry(r: RegistryView) -> bool {
    &&& forall|i: int| 0 <= i < r.entries.len() ==> wf_entry(#[trigger] r.entries[i])
    &&& forall|i: int, k: int|
        0 <= i < k < r.entries.len() ==> !entry_key_matches(
            #[trigger] r.entries[k],
            (#[trigger] r.entries[i]).creator,
            r.entries[i].model.model_name,
        )
}

/// The entry created by a successful `publish_model`.
pub open spec fn published_entry(
    caller: Seq<u8>,
    address: Seq<u8>,
    name: Seq<u8>,
    weights_hash: Seq<u8>,
    metadata_uri: Seq<u8>,
    license: u8,
    now: i64,
) -> EntryView {
    EntryView {
        creator: caller,
        address: address,
        model: ModelView {
            publisher: caller,
            model_name: name,
            weights_hash: weights_hash,
            metadata_uri: metadata_uri,
            license: license_of_code(license),
            version_count: 1,
            created_at: now,
            updated_at: now,
            is_deprecated: false,
        },
        versions: seq![
            VersionView {
                model: address,
                version: 1,
                weights_hash: weights_hash,
                metadata_uri: metadata_uri,
                created_at: now,
            },
        ],
    }
}

/// State transition of `publish_model`: validation in order, then the
/// slot-occupancy check, then the counter overflow check; on success the
/// new entry is appended and both global counters grow by one.
pub open spec fn spec_publish(
    r: RegistryView,
    caller: Seq<u8>,
    address: Seq<u8>,
    name: Seq<u8>,
    weights_hash: Seq<u8>,
    metadata_uri: Seq<u8>,
    license: u8,
    now: i64,
) -> Result<RegistryView, ModelRegistryError> {
    if name.len() == 0 {
        Err(ModelRegistryError::ModelNameEmpty)
    } else if name.len() > 64 {
        Err(ModelRegistryError::ModelNameTooLong)
    } else if metadata_uri.len() == 0 {
        Err(ModelRegistryError::MetadataUriEmpty)
    } else if metadata_uri.len() > 128 {
        Err(ModelRegistryError::MetadataUriTooLong)
    } else if !valid_license_code(license) {
        Err(ModelRegistryError::InvalidLicense)
    } else if has_model(r, caller, name) {
        Err(ModelRegistryError::ModelAlreadyExists)
    } else if r.config.total_models == u64::MAX || r.config.total_versions == u64::MAX {
        Err(ModelRegistryError::ArithmeticOverflow)
    } else {
        Ok(
            RegistryView {
                config: ConfigView {
                    authority: r.config.authority,
                    total_models: (r.config.total_models + 1) as u64,
                    total_versions: (r.config.total_versions + 1) as u64,
                },
                entries: r.entries.push(
                    published_entry(caller, address, name, weights_hash, metadata_uri, license, now),
                ),
            },
        )
    }
}

/// The entry at `i` after a successful `add_version` with the given inputs.
pub open spec fn entry_with_new_version(
    e: EntryView,
    weights_hash: Seq<u8>,
    metadata_uri: Seq<u8>,
    now: i64,
) -> EntryView
    recommends
        e.model.version_count < u32::MAX,
{
    EntryView {
        creator: e.creator,
        address: e.address,
        model: ModelView {
            weights_hash: weights_hash,
            version_count: (e.model.version_count + 1) as u32,
            updated_at: now,
            ..e.model
        },
        versions: e.versions.push(
            VersionView {
                model: e.address,
                version: (e.model.version_count + 1) as u32,
                weights_hash: weights_hash,
                metadata_uri: metadata_uri,
                created_at: now,
            },
        ),
    }
}

/// State transition of `add_version` against the entry at index `i`:
/// URI validation, then authorization, then the deprecation check, then
/// counter overflow checks; on success the snapshot for the next version
/// number is appended, the record's hash and counters are updated, and the
/// global version counter grows by one.
pub open spec fn spec_add_version(
    r: RegistryView,
    i: int,
    caller: Seq<u8>,
    weights_hash: Seq<u8>,
    metadata_uri: Seq<u8>,
    now: i64,
) -> Result<RegistryView, ModelRegistryError>
    recommends
        0 <= i < r.entries.len(),
{
    let e = r.entries[i];
    if metadata_uri.len() == 0 {
        Err(ModelRegistryError::MetadataUriEmpty)
    } else if metadata_uri.len() > 128 {
        Err(ModelRegistryError::MetadataUriTooLong)
    } else if e.model.publisher != caller {
        Err(ModelRegistryError::UnauthorizedPublisher)
    } else if e.model.is_deprecated {
        Err(ModelRegistryError::ModelDeprecated)
    } else if e.model.version_count == u32::MAX || r.config.total_versions == u64::MAX {
        Err(ModelRegistryError::ArithmeticOverflow)
    } else {
        Ok(
            RegistryView {
                config: ConfigView {
                    total_versions: (r.config.total_versions + 1) as u64,
                    ..r.config
                },
                entries: r.entries.update(
                    i,
                    entry_with_new_version(e, weights_hash, metadata_uri, now),
                ),
            },
        )
    }
}

/// State transition of `update_metadata` against the entry at index `i`:
/// URI validation, then authorization; on success only the metadata URI and
/// the update timestamp change.
pub open spec fn spec_update_metadata(
    r: RegistryView,
    i: int,
    caller: Seq<u8>,
    new_metadata_uri: Seq<u8>,
    now: i64,
) -> Result<RegistryView, ModelRegistryError>
    recommends
        0 <= i < r.entries.len(),
{
    let e = r.entries[i];
    if new_metadata_uri.len() == 0 {
        Err(ModelRegistryError::MetadataUriEmpty)
    } else if new_metadata_uri.len() > 128 {
        Err(ModelRegistryError::MetadataUriTooLong)
    } else if e.model.publisher != caller {
        Err(ModelRegistryError::UnauthorizedPublisher)
    } else {
        Ok(
            RegistryView {
                entries: r.entries.update(
                    i,
                    EntryView {
                        model: ModelView { metadata_uri: new_metadata_uri, updated_at: now, ..e.model },
                        ..e
                    },
                ),
                ..r
            },
        )
    }
}

/// State transition of `deprecate_model` against the entry at index `i`:
/// authorization, then the one-way flag; deprecating twice fails.
pub open spec fn spec_deprecate(
    r: RegistryView,
    i: int,
    caller: Seq<u8>,
    now: i64,
) -> Result<RegistryView, ModelRegistryError>
    recommends
        0 <= i < r.entries.len(),
{
    let e = r.entries[i];
    if e.model.publisher != caller {
        Err(ModelRegistryError::UnauthorizedPublisher)
    } else if e.model.is_deprecated {
        Err(ModelRegistryError::AlreadyDeprecated)
    } else {
        Ok(
            RegistryView {
                entries: r.entries.update(
                    i,
                    EntryView {
                        model: ModelView { is_deprecated: true, updated_at: now, ..e.model },
                        ..e
                    },
                ),
                ..r
            },
        )
    }
}

/// State transition of `transfer_ownership` against the entry at index `i`:
/// authorization, then the publisher is overwritten. The entry's creator
/// key, deprecation status and version history are unaffected.
pub open spec fn spec_transfer(
    r: RegistryView,
    i: int,
    caller: Seq<u8>,
    new_publisher: Seq<u8>,
    now: i64,
) -> Result<RegistryView, ModelRegistryError>
    recommends
        0 <= i < r.entries.len(),
{
    let e = r.entries[i];
    if e.model.publisher != caller {
        Err(ModelRegistryError::UnauthorizedPublisher)
    } else {
        Ok(
            RegistryView {
                entries: r.entries.update(
                    i,
                    EntryView {
                        model: ModelView { publisher: new_publisher, updated_at: now, ..e.model },
                        ..e
                    },
                ),
                ..r
            },
        )
    }
}

impl Registry {
    /// Creates the registry: the one-time initialization of the singleton
    /// configuration record, with both counters at zero.
    pub fn initialize(authority: AccountId) -> (r: Registry)
        ensures
            r@.config.authority == authority@,
            r@.config.total_models == 0,
            r@.config.total_versions == 0,
            r@.entries.len() == 0,
            wf_registry(r@),
    {
        Registry {
            config: RegistryConfig { authority, total_models: 0, total_versions: 0 },
            entries: Vec::new(),
        }
    }

    /// Resolves the slot keyed by (creator, name), as the host does from a
    /// derived address: the index of the entry published under that key.
    pub fn find_model(&self, creator: &AccountId, name: &Vec<u8>) -> (r: Option<usize>)
        ensures
            (match r {
                Some(i) => i < self@.entries.len() && entry_key_matches(
                    self@.entries[i as int],
                    creator@,
                    name@,
                ),
                None => !has_model(self@, creator@, name@),
            }),
    {
        let mut i: usize = 0;
        while i < self.entries.len()
            invariant
                i <= self.entries.len(),
                forall|j: int|
                    0 <= j < i ==> !entry_key_matches(#[trigger] self@.entries[j], creator@, name@),
            decreases self.entries.len() - i,
        {
            let e = &self.entries[i];
            if id_eq(&e.creator, creator) && bytes_eq(&e.model.model_name, name) {
                return Some(i);
            }
            i += 1;
        }
        None
    }

    /// The model record of the entry at `index`.
    pub fn get_model(&self, index: usize) -> (m: &Model)
        requires
            index < self@.entries.len(),
        ensures
            m@ == self@.entries[index as int].model,
    {
        &self.entries[index].model
    }

    /// The storage address of the entry at `index`.
    pub fn get_model_address(&self, index: usize) -> (a: &AccountId)
        requires
            index < self@.entries.len(),
        ensures
            a@ == self@.entries[index as int].address,
    {
        &self.entries[index].address
    }

    /// The snapshot of version number `version` of the entry at `index`,
    /// if that version has been published.
    pub fn get_version(&self, index: usize, version: u32) -> (v: Option<&ModelVersion>)
        requires
            index < self@.entries.len(),
        ensures
            (match v {
                Some(snapshot) => 1 <= version <= self@.entries[index as int].versions.len()
                    && snapshot@ == self@.entries[index as int].versions[version - 1],
                None => version == 0 || version > self@.entries[index as int].versions.len(),
            }),
    {
        let e = &self.entries[index];
        if version == 0 {
            return None;
        }
        let slot = version as usize - 1;
        if slot < e.versions.len() {
            Some(&e.versions[slot])
        } else {
            None
        }
    }

    /// Publishes a model: validates the name, URI and license code, fails
    /// if the (caller, name) slot is already occupied, and otherwise
    /// creates the record together with its version-1 snapshot and bumps
    /// both global counters. `model_address` is the storage address the
    /// host derived for the record. Exactly `spec_publish` happens; on any
    /// error nothing changes. The returned audit record carries the
    /// post-state fields.
    pub fn publish_model(
        &mut self,
        caller: &AccountId,
        model_address: &AccountId,
        model_name: Vec<u8>,
        weights_hash: [u8; 32],
        metadata_uri: Vec<u8>,
        license: u8,
        now: i64,
    ) -> (r: Result<ModelPublished, ModelRegistryError>)
        requires
            wf_registry(old(self)@),
        ensures
            wf_registry(final(self)@),
            (match r {
                Ok(ev) => {
                    &&& spec_publish(
                        old(self)@,
                        caller@,
                        model_address@,
                        model_name@,
                        weights_hash@,
                        metadata_uri@,
                        license,
                        now,
                    ) == Ok::<RegistryView, ModelRegistryError>(final(self)@)
                    &&& ev.model@ == model_address@
                    &&& ev.publisher@ == caller@
                    &&& ev.model_name@ == model_name@
                    &&& ev.weights_hash@ == weights_hash@
                    &&& ev.metadata_uri@ == metadata_uri@
                    &&& ev.license == license_of_code(license)
                    &&& ev.timestamp == now
                },
                Err(e) => {
                    &&& spec_publish(
                        old(self)@,
                        caller@,
                        model_address@,
                        model_name@,
                        weights_hash@,
                        metadata_uri@,
                        license,
                        now,
                    ) == Err::<RegistryView, ModelRegistryError>(e)
                    &&& final(self)@ == old(self)@
                },
            }),
    {
        if model_name.len() == 0 {
            return Err(ModelRegistryError::ModelNameEmpty);
        }
        if model_name.len() > MAX_NAME_LEN {
            return Err(ModelRegistryError::ModelNameTooLong);
        }
        if metadata_uri.len() == 0 {
            return Err(ModelRegistryError::MetadataUriEmpty);
        }
        if metadata_uri.len() > MAX_URI_LEN {
            return Err(ModelRegistryError::MetadataUriTooLong);
        }
        let lic = match License::from_code(license) {
            Ok(l) => l,
            Err(e) => {
                return Err(e);
            },
        };
        match self.find_model(caller, &model_name) {
            Some(i) => {
                proof {
                    assert(has_model(self@, caller@, model_name@));
                }
                return Err(ModelRegistryError::ModelAlreadyExists);
            },
            None => {},
        }
        if self.config.total_models == u64::MAX || self.config.total_versions == u64::MAX {
            return Err(ModelRegistryError::ArithmeticOverflow);
        }
        let first_version = ModelVersion {
            model: *model_address,
            version: 1,
            weights_hash,
            metadata_uri: clone_bytes(&metadata_uri),
            created_at: now,
        };
        let model = Model {
            publisher: *caller,
            model_name: clone_bytes(&model_name),
            weights_hash,
            metadata_uri: clone_bytes(&metadata_uri),
            license: lic,
            version_count: 1,
            created_at: now,
            updated_at: now,
            is_deprecated: false,
        };
        let mut versions: Vec<ModelVersion> = Vec::new();
        versions.push(first_version);
        let entry = ModelEntry { creator: *caller, address: *model_address, model, versions };
        let ghost prior = self@;
        self.entries.push(entry);
        self.config.total_models = self.config.total_models + 1;
        self.config.total_versions = self.config.total_versions + 1;
        proof {
            let pe = published_entry(
                caller@,
                model_address@,
                model_name@,
                weights_hash@,
                metadata_uri@,
                license,
                now,
            );
            assert(entry@.versions =~= pe.versions);
            assert(self@.entries =~= prior.entries.push(pe));
            assert(spec_publish(
                prior,
                caller@,
                model_address@,
                model_name@,
                weights_hash@,
                metadata_uri@,
                license,
                now,
            ) == Ok::<RegistryView, ModelRegistryError>(self@));
            assert forall|i: int, k: int| 0 <= i < k < self@.entries.len() implies !entry_key_matches(
                self@.entries[k],
                self@.entries[i].creator,
                self@.entries[i].model.model_name,
            ) by {
                if k == self@.entries.len() - 1 {
                    assert(self@.entries[i] == prior.entries[i]);
                    if entry_key_matches(pe, prior.entries[i].creator, prior.entries[i].model.model_name) {
                        assert(entry_key_matches(prior.entries[i], caller@, model_name@));
                        assert(has_model(prior, caller@, model_name@));
                    }
                } else {
                    assert(self@.entries[i] == prior.entries[i]);
                    assert(self@.entries[k] == prior.entries[k]);
                }
            }
            assert(wf_registry(self@));
        }
        let ev = ModelPublished {
            model: *model_address,
            publisher: *caller,
            model_name,
            weights_hash,
            metadata_uri,
            license: lic,
            timestamp: now,
        };
        Ok(ev)
    }

    /// Appends a version to the entry at `model_index`: validates the URI,
    /// requires the caller to be the current publisher and the model not to
    /// be deprecated, then writes the snapshot for the next version number,
    /// updates the record's weights hash, version counter and timestamp,
    /// and bumps the global version counter. Exactly `spec_add_version`
    /// happens; on any error nothing changes.
    pub fn add_version(
        &mut self,
        caller: &AccountId,
        model_index: usize,
        weights_hash: [u8; 32],
        metadata_uri: Vec<u8>,
        now: i64,
    ) -> (r: Result<VersionAdded, ModelRegistryError>)
        requires
            wf_registry(old(self)@),
            model_index < old(self)@.entries.len(),
        ensures
            wf_registry(final(self)@),
            (match r {
                Ok(ev) => {
                    &&& spec_add_version(
                        old(self)@,
                        model_index as int,
                        caller@,
                        weights_hash@,
                        metadata_uri@,
                        now,
                    ) == Ok::<RegistryView, ModelRegistryError>(final(self)@)
                    &&& ev.model@ == old(self)@.entries[model_index as int].address
                    &&& ev.version == old(self)@.entries[model_index as int].model.version_count + 1
                    &&& ev.weights_hash@ == weights_hash@
                    &&& ev.metadata_uri@ == metadata_uri@
                    &&& ev.timestamp == now
                },
                Err(e) => {
                    &&& spec_add_version(
                        old(self)@,
                        model_index as int,
                        caller@,
                        weights_hash@,
                        metadata_uri@,
                        now,
                    ) == Err::<RegistryView, ModelRegistryError>(e)
                    &&& final(self)@ == old(self)@
                },
            }),
    {
        if metadata_uri.len() == 0 {
            return Err(ModelRegistryError::MetadataUriEmpty);
        }
        if metadata_uri.len() > MAX_URI_LEN {
            return Err(ModelRegistryError::MetadataUriTooLong);
        }
        if !id_eq(&self.entries[model_index].model.publisher, caller) {
            return Err(ModelRegistryError::UnauthorizedPublisher);
        }
        if self.entries[model_index].model.is_deprecated {
            return Err(ModelRegistryError::ModelDeprecated);
        }
        if self.entries[model_index].model.version_count == u32::MAX
            || self.config.total_versions == u64::MAX {
            return Err(ModelRegistryError::ArithmeticOverflow);
        }
        let ghost prior = self@;
        let address = self.entries[model_index].address;
        let new_count = self.entries[model_index].model.version_count + 1;
        let snapshot = ModelVersion {
            model: address,
            version: new_count,
            weights_hash,
            metadata_uri: clone_bytes(&metadata_uri),
            created_at: now,
        };
        let entry = vstd::std_specs::vec::vec_index_mut(&mut self.entries, model_index);
        entry.model.weights_hash = weights_hash;
        entry.model.version_count = new_count;
        entry.model.updated_at = now;
        entry.versions.push(snapshot);
        self.config.total_versions = self.config.total_versions + 1;
        proof {
            let i = model_index as int;
            let ne = entry_with_new_version(prior.entries[i], weights_hash@, metadata_uri@, now);
            assert(self.entries@[i]@.versions =~= ne.versions);
            assert(self.entries@[i]@ == ne);
            assert(self@.entries =~= prior.entries.update(i, ne));
            assert(spec_add_version(prior, i, caller@, weights_hash@, metadata_uri@, now)
                == Ok::<RegistryView, ModelRegistryError>(self@));
            assert(wf_entry(ne));
            assert(wf_registry(self@));
        }
        let ev = VersionAdded {
            model: address,
            version: new_count,
            weights_hash,
            metadata_uri,
            timestamp: now,
        };
        Ok(ev)
    }

    /// Overwrites the metadata URI of the entry at `model_index`: validates
    /// the URI and requires the caller to be the current publisher. The
    /// weights hash and the version history are untouched. Exactly
    /// `spec_update_metadata` happens; on any error nothing changes. The
    /// returned audit record carries the old and the new URI.
    pub fn update_metadata(
        &mut self,
        caller: &AccountId,
        model_index: usize,
        new_metadata_uri: Vec<u8>,
        now: i64,
    ) -> (r: Result<MetadataUpdated, ModelRegistryError>)
        requires
            wf_registry(old(self)@),
            model_index < old(self)@.entries.len(),
        ensures
            wf_registry(final(self)@),
            (match r {
                Ok(ev) => {
                    &&& spec_update_metadata(
                        old(self)@,
                        model_index as int,
                        caller@,
                        new_metadata_uri@,
                        now,
                    ) == Ok::<RegistryView, ModelRegistryError>(final(self)@)
                    &&& ev.model@ == old(self)@.entries[model_index as int].address
                    &&& ev.old_metadata_uri@ == old(self)@.entries[model_index as int].model.metadata_uri
                    &&& ev.new_metadata_uri@ == new_metadata_uri@
                    &&& ev.timestamp == now
                },
                Err(e) => {
                    &&& spec_update_metadata(
                        old(self)@,
                        model_index as int,
                        caller@,
                        new_metadata_uri@,
                        now,
                    ) == Err::<RegistryView, ModelRegistryError>(e)
                    &&& final(self)@ == old(self)@
                },
            }),
    {
        if new_metadata_uri.len() == 0 {
            return Err(ModelRegistryError::MetadataUriEmpty);
        }
        if new_metadata_uri.len() > MAX_URI_LEN {
            return Err(ModelRegistryError::MetadataUriTooLong);
        }
        if !id_eq(&self.entries[model_index].model.publisher, caller) {
            return Err(ModelRegistryError::UnauthorizedPublisher);
        }
        let ghost prior = self@;
        let address = self.entries[model_index].address;
        let entry = vstd::std_specs::vec::vec_index_mut(&mut self.entries, model_index);
        let old_metadata_uri = clone_bytes(&entry.model.metadata_uri);
        entry.model.metadata_uri = clone_bytes(&new_metadata_uri);
        entry.model.updated_at = now;
        proof {
            let i = model_index as int;
            assert(self.entries@[i]@.versions =~= prior.entries[i].versions);
            assert(self@.entries =~= spec_update_metadata(
                prior,
                i,
                caller@,
                new_metadata_uri@,
                now,
            )->Ok_0.entries);
            assert(wf_registry(self@));
        }
        let ev = MetadataUpdated {
            model: address,
            old_metadata_uri,
            new_metadata_uri,
            timestamp: now,
        };
        Ok(ev)
    }

    /// Deprecates the entry at `model_index`: requires the caller to be the
    /// current publisher and the model not to be deprecated yet. The flag
    /// is one-way by design; no operation reverses it. Exactly
    /// `spec_deprecate` happens; on any error nothing changes.
    pub fn deprecate_model(
        &mut self,
        caller: &AccountId,
        model_index: usize,
        now: i64,
    ) -> (r: Result<ModelDeprecatedEvent, ModelRegistryError>)
        requires
            wf_registry(old(self)@),
            model_index < old(self)@.entries.len(),
        ensures
            wf_registry(final(self)@),
            (match r {
                Ok(ev) => {
                    &&& spec_deprecate(old(self)@, model_index as int, caller@, now)
                        == Ok::<RegistryView, ModelRegistryError>(final(self)@)
                    &&& ev.model@ == old(self)@.entries[model_index as int].address
                    &&& ev.publisher@ == caller@
                    &&& ev.timestamp == now
                },
                Err(e) => {
                    &&& spec_deprecate(old(self)@, model_index as int, caller@, now)
                        == Err::<RegistryView, ModelRegistryError>(e)
                    &&& final(self)@ == old(self)@
                },
            }),
    {
        if !id_eq(&self.entries[model_index].model.publisher, caller) {
            return Err(ModelRegistryError::UnauthorizedPublisher);
        }
        if self.entries[model_index].model.is_deprecated {
            return Err(ModelRegistryError::AlreadyDeprecated);
        }
        let ghost prior = self@;
        let address = self.entries[model_index].address;
        let entry = vstd::std_specs::vec::vec_index_mut(&mut self.entries, model_index);
        entry.model.is_deprecated = true;
        entry.model.updated_at = now;
        proof {
            let i = model_index as int;
            assert(self.entries@[i]@.versions =~= prior.entries[i].versions);
            assert(self@.entries =~= spec_deprecate(prior, i, caller@, now)->Ok_0.entries);
            assert(wf_registry(self@));
        }
        let ev = ModelDeprecatedEvent { model: address, publisher: *caller, timestamp: now };
        Ok(ev)
    }

    /// Transfers ownership of the entry at `model_index`: requires the
    /// caller to be the current publisher, then overwrites the publisher.
    /// The entry's slot key, deprecation status and version history are
    /// unaffected. Exactly `spec_transfer` happens; on any error nothing
    /// changes.
    pub fn transfer_ownership(
        &mut self,
        caller: &AccountId,
        model_index: usize,
        new_publisher: AccountId,
        now: i64,
    ) -> (r: Result<OwnershipTransferred, ModelRegistryError>)
        requires
            wf_registry(old(self)@),
            model_index < old(self)@.entries.len(),
        ensures
            wf_registry(final(self)@),
            (match r {
                Ok(ev) => {
                    &&& spec_transfer(old(self)@, model_index as int, caller@, new_publisher@, now)
                        == Ok::<RegistryView, ModelRegistryError>(final(self)@)
                    &&& ev.model@ == old(self)@.entries[model_index as int].address
                    &&& ev.old_publisher@ == old(self)@.entries[model_index as int].model.publisher
                    &&& ev.new_publisher@ == new_publisher@
                    &&& ev.timestamp == now
                },
                Err(e) => {
                    &&& spec_transfer(old(self)@, model_index as int, caller@, new_publisher@, now)
                        == Err::<RegistryView, ModelRegistryError>(e)
                    &&& final(self)@ == old(self)@
                },
            }),
    {
        if !id_eq(&self.entries[model_index].model.publisher, caller) {
            return Err(ModelRegistryError::UnauthorizedPublisher);
        }
        let ghost prior = self@;
        let address = self.entries[model_index].address;
        let old_publisher = self.entries[model_index].model.publisher;
        let entry = vstd::std_specs::vec::vec_index_mut(&mut self.entries, model_index);
        entry.model.publisher = new_publisher;
        entry.model.updated_at = now;
        proof {
            let i = model_index as int;
            assert(self.entries@[i]@.versions =~= prior.entries[i].versions);
            assert(self@.entries =~= spec_transfer(
                prior,
                i,
                caller@,
                new_publisher@,
                now,
            )->Ok_0.entries);
            assert(wf_registry(self@));
        }
        let ev = OwnershipTransferred {
            model: address,
            old_publisher,
            new_publisher,
            timestamp: now,
        };
        Ok(ev)
    }

    /// The singleton configuration record.
    pub fn get_config(&self) -> (c: &RegistryConfig)
        ensures
            c@ == self@.config,
    {
        &self.config
    }
}

} // verus!
