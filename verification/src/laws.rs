use vstd::prelude::*;

use crate::errors::ModelRegistryError;
use crate::registry::entry_key_matches;
use crate::registry::entry_with_new_version;
use crate::registry::has_model;
use crate::registry::published_entry;
use crate::registry::spec_add_version;
use crate::registry::spec_deprecate;
use crate::registry::spec_publish;
use crate::registry::spec_transfer;
use crate::registry::spec_update_metadata;
use crate::registry::wf_entry;
use crate::registry::wf_registry;
use crate::registry::RegistryView;
use crate::state::license_of_code;
use crate::state::valid_license_code;
use crate::state::valid_uri_bytes;

verus! {

/// Law: publishing a model and immediately reading it back under the
/// caller's key yields a record with exactly one version, not deprecated,
/// whose weights hash, metadata URI and license are the published inputs,
/// and whose version-1 snapshot froze the same hash and URI.
pub proof fn lemma_publish_then_read(
    r0: RegistryView,
    r1: RegistryView,
    caller: Seq<u8>,
    address: Seq<u8>,
    name: Seq<u8>,
    weights_hash: Seq<u8>,
    metadata_uri: Seq<u8>,
    license: u8,
    now: i64,
)
    requires
        wf_registry(r0),
        spec_publish(r0, caller, address, name, weights_hash, metadata_uri, license, now)
            == Ok::<RegistryView, ModelRegistryError>(r1),
    ensures
        wf_registry(r1),
        r1.entries.len() == r0.entries.len() + 1,
        has_model(r1, caller, name),
        forall|i: int|
            0 <= i < r1.entries.len() && entry_key_matches(#[trigger] r1.entries[i], caller, name)
                ==> r1.entries[i] == published_entry(
                caller,
                address,
                name,
                weights_hash,
                metadata_uri,
                license,
                now,
            ),
        published_entry(caller, address, name, weights_hash, metadata_uri, license, now)
            .model.version_count == 1,
        !published_entry(caller, address, name, weights_hash, metadata_uri, license, now)
            .model.is_deprecated,
        published_entry(caller, address, name, weights_hash, metadata_uri, license, now)
            .model.weights_hash == weights_hash,
        published_entry(caller, address, name, weights_hash, metadata_uri, license, now)
            .model.license == license_of_code(license),
        published_entry(caller, address, name, weights_hash, metadata_uri, license, now)
            .versions.len() == 1,
        published_entry(caller, address, name, weights_hash, metadata_uri, license, now)
            .versions[0].version == 1,
        published_entry(caller, address, name, weights_hash, metadata_uri, license, now)
            .versions[0].weights_hash == weights_hash,
        published_entry(caller, address, name, weights_hash, metadata_uri, license, now)
            .versions[0].metadata_uri == metadata_uri,
{
    let pe = published_entry(caller, address, name, weights_hash, metadata_uri, license, now);
    assert(r1.entries == r0.entries.push(pe));
    assert(entry_key_matches(r1.entries[r1.entries.len() - 1], caller, name));
    assert forall|i: int|
        0 <= i < r1.entries.len() && entry_key_matches(
            #[trigger] r1.entries[i],
            caller,
            name,
        ) implies r1.entries[i] == pe by {
        if i < r0.entries.len() {
            assert(r1.entries[i] == r0.entries[i]);
            assert(has_model(r0, caller, name));
        }
    }
    assert forall|i: int| 0 <= i < r1.entries.len() implies wf_entry(#[trigger] r1.entries[i]) by {
        if i < r0.entries.len() {
            assert(r1.entries[i] == r0.entries[i]);
        }
    }
    assert forall|i: int, k: int| 0 <= i < k < r1.entries.len() implies !entry_key_matches(
        r1.entries[k],
        r1.entries[i].creator,
        r1.entries[i].model.model_name,
    ) by {
        assert(r1.entries[i] == r0.entries[i]);
        if k < r0.entries.len() {
            assert(r1.entries[k] == r0.entries[k]);
        } else {
            if entry_key_matches(pe, r0.entries[i].creator, r0.entries[i].model.model_name) {
                assert(entry_key_matches(r0.entries[i], caller, name));
                assert(has_model(r0, caller, name));
            }
        }
    }
}

/// Law: publishing twice under the same (publisher, name) key fails: once
/// the first publish has succeeded, a second well-formed publish attempt
/// under the same key is refused because the slot is occupied, whatever
/// hash, URI, license or address it brings.
pub proof fn lemma_publish_same_key_twice_fails(
    r0: RegistryView,
    r1: RegistryView,
    caller: Seq<u8>,
    address: Seq<u8>,
    name: Seq<u8>,
    weights_hash: Seq<u8>,
    metadata_uri: Seq<u8>,
    license: u8,
    now: i64,
)
    requires
        wf_registry(r0),
        spec_publish(r0, caller, address, name, weights_hash, metadata_uri, license, now)
            == Ok::<RegistryView, ModelRegistryError>(r1),
    ensures
        forall|address2: Seq<u8>, weights_hash2: Seq<u8>, metadata_uri2: Seq<u8>, license2: u8, now2: i64|
            valid_uri_bytes(metadata_uri2) && valid_license_code(license2)
                ==> #[trigger] spec_publish(
                r1,
                caller,
                address2,
                name,
                weights_hash2,
                metadata_uri2,
                license2,
                now2,
            ) == Err::<RegistryView, ModelRegistryError>(ModelRegistryError::ModelAlreadyExists),
{
    let pe = published_entry(caller, address, name, weights_hash, metadata_uri, license, now);
    assert(r1.entries == r0.entries.push(pe));
    assert(entry_key_matches(r1.entries[r1.entries.len() - 1], caller, name));
    assert(has_model(r1, caller, name));
}

/// Law: deprecation is monotonic. Once `deprecate_model` has succeeded,
/// the publisher's subsequent `add_version` fails with `ModelDeprecated`
/// and a second `deprecate_model` fails with `AlreadyDeprecated`, while
/// `update_metadata` and `transfer_ownership` remain permitted.
pub proof fn lemma_deprecation_is_monotonic(
    r0: RegistryView,
    r1: RegistryView,
    i: int,
    caller: Seq<u8>,
    now: i64,
)
    requires
        wf_registry(r0),
        0 <= i < r0.entries.len(),
        spec_deprecate(r0, i, caller, now) == Ok::<RegistryView, ModelRegistryError>(r1),
    ensures
        r1.entries[i].model.is_deprecated,
        forall|weights_hash: Seq<u8>, metadata_uri: Seq<u8>, t: i64|
            valid_uri_bytes(metadata_uri) ==> #[trigger] spec_add_version(
                r1,
                i,
                r1.entries[i].model.publisher,
                weights_hash,
                metadata_uri,
                t,
            ) == Err::<RegistryView, ModelRegistryError>(ModelRegistryError::ModelDeprecated),
        forall|t: i64| #[trigger] spec_deprecate(r1, i, r1.entries[i].model.publisher, t)
            == Err::<RegistryView, ModelRegistryError>(ModelRegistryError::AlreadyDeprecated),
        forall|metadata_uri: Seq<u8>, t: i64|
            valid_uri_bytes(metadata_uri) ==> #[trigger] spec_update_metadata(
                r1,
                i,
                r1.entries[i].model.publisher,
                metadata_uri,
                t,
            ) is Ok,
        forall|new_publisher: Seq<u8>, t: i64|
            #[trigger] spec_transfer(r1, i, r1.entries[i].model.publisher, new_publisher, t) is Ok,
{
}

/// Law: authorization is single-owner. Every mutating operation invoked by
/// an identity other than the record's current publisher fails with
/// `UnauthorizedPublisher` (the operations' own contracts add that a failed
/// call leaves the registry unchanged).
pub proof fn lemma_unauthorized_mutations_fail(
    r: RegistryView,
    i: int,
    caller: Seq<u8>,
    weights_hash: Seq<u8>,
    metadata_uri: Seq<u8>,
    new_publisher: Seq<u8>,
    now: i64,
)
    requires
        0 <= i < r.entries.len(),
        caller != r.entries[i].model.publisher,
        valid_uri_bytes(metadata_uri),
    ensures
        spec_add_version(r, i, caller, weights_hash, metadata_uri, now)
            == Err::<RegistryView, ModelRegistryError>(ModelRegistryError::UnauthorizedPublisher),
        spec_update_metadata(r, i, caller, metadata_uri, now)
            == Err::<RegistryView, ModelRegistryError>(ModelRegistryError::UnauthorizedPublisher),
        spec_deprecate(r, i, caller, now)
            == Err::<RegistryView, ModelRegistryError>(ModelRegistryError::UnauthorizedPublisher),
        spec_transfer(r, i, caller, new_publisher, now)
            == Err::<RegistryView, ModelRegistryError>(ModelRegistryError::UnauthorizedPublisher),
{
}

/// Law: transferring ownership hands the sole mutation right from the old
/// publisher to the new one. After a transfer from `caller` to a different
/// `new_publisher`, each mutating operation invoked by `caller` fails with
/// `UnauthorizedPublisher`, while for the new publisher none of them is
/// refused for authorization.
pub proof fn lemma_transfer_switches_authority(
    r0: RegistryView,
    r1: RegistryView,
    i: int,
    caller: Seq<u8>,
    new_publisher: Seq<u8>,
    now: i64,
)
    requires
        wf_registry(r0),
        0 <= i < r0.entries.len(),
        caller != new_publisher,
        spec_transfer(r0, i, caller, new_publisher, now)
            == Ok::<RegistryView, ModelRegistryError>(r1),
    ensures
        r1.entries[i].model.publisher == new_publisher,
        forall|weights_hash: Seq<u8>, metadata_uri: Seq<u8>, t: i64|
            valid_uri_bytes(metadata_uri) ==> #[trigger] spec_add_version(
                r1,
                i,
                caller,
                weights_hash,
                metadata_uri,
                t,
            ) == Err::<RegistryView, ModelRegistryError>(ModelRegistryError::UnauthorizedPublisher),
        forall|metadata_uri: Seq<u8>, t: i64|
            valid_uri_bytes(metadata_uri) ==> #[trigger] spec_update_metadata(
                r1,
                i,
                caller,
                metadata_uri,
                t,
            ) == Err::<RegistryView, ModelRegistryError>(ModelRegistryError::UnauthorizedPublisher),
        forall|t: i64| #[trigger] spec_deprecate(r1, i, caller, t)
            == Err::<RegistryView, ModelRegistryError>(ModelRegistryError::UnauthorizedPublisher),
        forall|p: Seq<u8>, t: i64| #[trigger] spec_transfer(r1, i, caller, p, t)
            == Err::<RegistryView, ModelRegistryError>(ModelRegistryError::UnauthorizedPublisher),
        forall|weights_hash: Seq<u8>, metadata_uri: Seq<u8>, t: i64|
            #[trigger] spec_add_version(r1, i, new_publisher, weights_hash, metadata_uri, t)
                != Err::<RegistryView, ModelRegistryError>(
                ModelRegistryError::UnauthorizedPublisher,
            ),
        forall|metadata_uri: Seq<u8>, t: i64|
            valid_uri_bytes(metadata_uri) ==> #[trigger] spec_update_metadata(
                r1,
                i,
                new_publisher,
                metadata_uri,
                t,
            ) is Ok,
        forall|p: Seq<u8>, t: i64| #[trigger] spec_transfer(r1, i, new_publisher, p, t) is Ok,
{
}

/// The data of one `add_version` call: the snapshot to append.
pub ghost struct VersionInput {
    pub weights_hash: Seq<u8>,
    pub metadata_uri: Seq<u8>,
    pub now: i64,
}

/// The registry after applying `add_version` against the entry at `i` once
/// for each input in turn, stopping at the first error.
pub open spec fn apply_add_versions(
    r: RegistryView,
    i: int,
    caller: Seq<u8>,
    inputs: Seq<VersionInput>,
) -> Result<RegistryView, ModelRegistryError>
    decreases inputs.len(),
{
    if inputs.len() == 0 {
        Ok(r)
    } else {
        match spec_add_version(
            r,
            i,
            caller,
            inputs[0].weights_hash,
            inputs[0].metadata_uri,
            inputs[0].now,
        ) {
            Ok(r2) => apply_add_versions(r2, i, caller, inputs.drop_first()),
            Err(e) => Err(e),
        }
    }
}

/// Law: `k` calls of `add_version` by the publisher of a live model, with
/// valid URIs and no counter overflow, all succeed; they raise the
/// record's version counter by exactly `k`, append exactly `k` snapshots
/// that freeze the given inputs at the next version numbers, leave every
/// earlier snapshot untouched, leave every other entry untouched, and
/// leave the record's weights hash at the last input's hash. Right after
/// publication the version counter is 1, so `k` calls make it `1 + k`.
pub proof fn lemma_add_version_accumulates(
    r: RegistryView,
    i: int,
    caller: Seq<u8>,
    inputs: Seq<VersionInput>,
)
    requires
        wf_registry(r),
        0 <= i < r.entries.len(),
        caller == r.entries[i].model.publisher,
        !r.entries[i].model.is_deprecated,
        forall|j: int| 0 <= j < inputs.len() ==> valid_uri_bytes(
            (#[trigger] inputs[j]).metadata_uri,
        ),
        r.entries[i].model.version_count + inputs.len() <= u32::MAX,
        r.config.total_versions + inputs.len() <= u64::MAX,
    ensures
        apply_add_versions(r, i, caller, inputs) is Ok,
        ({
            let r1 = apply_add_versions(r, i, caller, inputs)->Ok_0;
            &&& wf_registry(r1)
            &&& r1.entries.len() == r.entries.len()
            &&& forall|k: int|
                0 <= k < r.entries.len() && k != i ==> r1.entries[k] == #[trigger] r.entries[k]
            &&& r1.entries[i].creator == r.entries[i].creator
            &&& r1.entries[i].address == r.entries[i].address
            &&& r1.entries[i].model.publisher == caller
            &&& r1.entries[i].model.model_name == r.entries[i].model.model_name
            &&& !r1.entries[i].model.is_deprecated
            &&& r1.entries[i].model.version_count == r.entries[i].model.version_count
                + inputs.len()
            &&& r1.entries[i].versions.len() == r.entries[i].versions.len() + inputs.len()
            &&& forall|j: int| 0 <= j < r.entries[i].versions.len()
                ==> #[trigger] r1.entries[i].versions[j] == r.entries[i].versions[j]
            &&& forall|j: int|
                0 <= j < inputs.len() ==> {
                    let v = #[trigger] r1.entries[i].versions[r.entries[i].versions.len() + j];
                    &&& v.weights_hash == inputs[j].weights_hash
                    &&& v.metadata_uri == inputs[j].metadata_uri
                    &&& v.created_at == inputs[j].now
                    &&& v.version == r.entries[i].model.version_count + 1 + j
                }
            &&& r1.entries[i].model.weights_hash == (if inputs.len() == 0 {
                r.entries[i].model.weights_hash
            } else {
                inputs.last().weights_hash
            })
            &&& r1.config.total_versions == r.config.total_versions + inputs.len()
            &&& r1.config.total_models == r.config.total_models
        }),
    decreases inputs.len(),
{
    if inputs.len() == 0 {
    } else {
        let first = inputs[0];
        let e = r.entries[i];
        let step = spec_add_version(r, i, caller, first.weights_hash, first.metadata_uri, first.now);
        assert(valid_uri_bytes(first.metadata_uri));
        assert(step is Ok);
        let r2 = step->Ok_0;
        let ne = entry_with_new_version(e, first.weights_hash, first.metadata_uri, first.now);
        assert(r2.entries == r.entries.update(i, ne));
        assert(wf_entry(ne));
        assert forall|k: int| 0 <= k < r2.entries.len() implies wf_entry(
            #[trigger] r2.entries[k],
        ) by {
            if k != i {
                assert(r2.entries[k] == r.entries[k]);
            }
        }
        assert forall|a: int, b: int| 0 <= a < b < r2.entries.len() implies !entry_key_matches(
            r2.entries[b],
            r2.entries[a].creator,
            r2.entries[a].model.model_name,
        ) by {
            assert(r2.entries[a].creator == r.entries[a].creator);
            assert(r2.entries[a].model.model_name == r.entries[a].model.model_name);
            assert(r2.entries[b].creator == r.entries[b].creator);
            assert(r2.entries[b].model.model_name == r.entries[b].model.model_name);
            assert(!entry_key_matches(
                r.entries[b],
                r.entries[a].creator,
                r.entries[a].model.model_name,
            ));
        }
        assert(wf_registry(r2));
        let rest = inputs.drop_first();
        assert forall|j: int| 0 <= j < rest.len() implies valid_uri_bytes(
            (#[trigger] rest[j]).metadata_uri,
        ) by {
            assert(rest[j] == inputs[j + 1]);
        }
        lemma_add_version_accumulates(r2, i, caller, rest);
        let r1 = apply_add_versions(r2, i, caller, rest)->Ok_0;
        assert(apply_add_versions(r, i, caller, inputs) == Ok::<
            RegistryView,
            ModelRegistryError,
        >(r1));
        assert forall|k: int| 0 <= k < r.entries.len() && k != i implies r1.entries[k]
            == #[trigger] r.entries[k] by {
            assert(r1.entries[k] == r2.entries[k]);
            assert(r2.entries[k] == r.entries[k]);
        }
        assert forall|j: int| 0 <= j < e.versions.len() implies #[trigger] r1.entries[i].versions[j]
            == e.versions[j] by {
            assert(r1.entries[i].versions[j] == r2.entries[i].versions[j]);
            assert(r2.entries[i].versions[j] == ne.versions[j]);
            assert(ne.versions[j] == e.versions[j]);
        }
        assert forall|j: int| 0 <= j < inputs.len() implies {
            let v = #[trigger] r1.entries[i].versions[e.versions.len() + j];
            &&& v.weights_hash == inputs[j].weights_hash
            &&& v.metadata_uri == inputs[j].metadata_uri
            &&& v.created_at == inputs[j].now
            &&& v.version == e.model.version_count + 1 + j
        } by {
            if j == 0 {
                assert(r1.entries[i].versions[e.versions.len() as int]
                    == r2.entries[i].versions[e.versions.len() as int]);
                assert(r2.entries[i].versions[e.versions.len() as int] == ne.versions.last());
            } else {
                assert(rest[j - 1] == inputs[j]);
                assert(r1.entries[i].versions[r2.entries[i].versions.len() + (j - 1)]
                    == r1.entries[i].versions[e.versions.len() + j]);
            }
        }
        if inputs.len() == 1 {
            assert(r1.entries[i].model.weights_hash == ne.model.weights_hash);
        } else {
            assert(rest.last() == inputs.last());
        }
    }
}

/// Law: publication followed by exactly `k` calls of `add_version` yields
/// `version_count == 1 + k` and exactly `k + 1` version records, dense at
/// numbers 1 through `k + 1`: the frozen version-1 snapshot of the publish
/// inputs, then one snapshot per call in order.
pub proof fn lemma_publish_then_k_versions(
    r0: RegistryView,
    r1: RegistryView,
    caller: Seq<u8>,
    address: Seq<u8>,
    name: Seq<u8>,
    weights_hash: Seq<u8>,
    metadata_uri: Seq<u8>,
    license: u8,
    now: i64,
    inputs: Seq<VersionInput>,
)
    requires
        wf_registry(r0),
        spec_publish(r0, caller, address, name, weights_hash, metadata_uri, license, now)
            == Ok::<RegistryView, ModelRegistryError>(r1),
        forall|j: int| 0 <= j < inputs.len() ==> valid_uri_bytes(
            (#[trigger] inputs[j]).metadata_uri,
        ),
        1 + inputs.len() <= u32::MAX,
        r1.config.total_versions + inputs.len() <= u64::MAX,
    ensures
        apply_add_versions(r1, r1.entries.len() - 1, caller, inputs) is Ok,
        ({
            let r2 = apply_add_versions(r1, r1.entries.len() - 1, caller, inputs)->Ok_0;
            let e = r2.entries[r1.entries.len() - 1];
            &&& wf_registry(r2)
            &&& e.model.version_count == 1 + inputs.len()
            &&& e.versions.len() == 1 + inputs.len()
            &&& forall|j: int| 0 <= j < e.versions.len() ==> (#[trigger] e.versions[j]).version
                == j + 1
            &&& e.versions[0].weights_hash == weights_hash
            &&& e.versions[0].metadata_uri == metadata_uri
            &&& forall|j: int|
                0 <= j < inputs.len() ==> {
                    let v = #[trigger] e.versions[1 + j];
                    &&& v.weights_hash == inputs[j].weights_hash
                    &&& v.metadata_uri == inputs[j].metadata_uri
                    &&& v.version == 2 + j
                }
        }),
{
    lemma_publish_then_read(
        r0,
        r1,
        caller,
        address,
        name,
        weights_hash,
        metadata_uri,
        license,
        now,
    );
    let i = r1.entries.len() - 1;
    let pe = published_entry(caller, address, name, weights_hash, metadata_uri, license, now);
    assert(r1.entries[i] == pe);
    lemma_add_version_accumulates(r1, i, caller, inputs);
    let r2 = apply_add_versions(r1, i, caller, inputs)->Ok_0;
    assert forall|j: int| 0 <= j < inputs.len() implies {
        let v = #[trigger] r2.entries[i].versions[1 + j];
        &&& v.weights_hash == inputs[j].weights_hash
        &&& v.metadata_uri == inputs[j].metadata_uri
        &&& v.version == 2 + j
    } by {
        assert(r2.entries[i].versions[r1.entries[i].versions.len() + j].weights_hash
            == inputs[j].weights_hash);
    }
}

/// Whether `r1` keeps every record `r0` held intact: no entry disappears,
/// the configuration authority stands and the global counters never
/// decrease, no entry's key, address or creation time changes, every
/// version snapshot `r0` held is still there byte for byte, and a
/// deprecated record stays deprecated.
pub open spec fn integrity_preserved(r0: RegistryView, r1: RegistryView) -> bool {
    &&& r1.entries.len() >= r0.entries.len()
    &&& r1.config.authority == r0.config.authority
    &&& r1.config.total_models >= r0.config.total_models
    &&& r1.config.total_versions >= r0.config.total_versions
    &&& forall|i: int|
        0 <= i < r0.entries.len() ==> {
            let e0 = #[trigger] r0.entries[i];
            let e1 = r1.entries[i];
            &&& e1.creator == e0.creator
            &&& e1.address == e0.address
            &&& e1.model.model_name == e0.model.model_name
            &&& e1.model.created_at == e0.model.created_at
            &&& e0.versions.is_prefix_of(e1.versions)
            &&& (e0.model.is_deprecated ==> e1.model.is_deprecated)
        }
}

/// Law: the version history is append-only and records are tamper-evident.
/// Whatever inputs they are given, the five state transitions can only
/// leave every existing version snapshot in place: a successful operation
/// never rewrites a snapshot, drops an entry, changes an entry's key,
/// address or creation time, or clears a deprecation flag.
pub proof fn lemma_operations_preserve_integrity(
    r: RegistryView,
    i: int,
    caller: Seq<u8>,
    address: Seq<u8>,
    name: Seq<u8>,
    weights_hash: Seq<u8>,
    metadata_uri: Seq<u8>,
    license: u8,
    new_publisher: Seq<u8>,
    now: i64,
)
    requires
        0 <= i < r.entries.len(),
    ensures
        spec_publish(r, caller, address, name, weights_hash, metadata_uri, license, now)
            matches Ok(r1) ==> integrity_preserved(r, r1),
        spec_add_version(r, i, caller, weights_hash, metadata_uri, now) matches Ok(r1)
            ==> integrity_preserved(r, r1),
        spec_update_metadata(r, i, caller, metadata_uri, now) matches Ok(r1)
            ==> integrity_preserved(r, r1),
        spec_deprecate(r, i, caller, now) matches Ok(r1) ==> integrity_preserved(r, r1),
        spec_transfer(r, i, caller, new_publisher, now) matches Ok(r1)
            ==> integrity_preserved(r, r1),
{
    if spec_publish(r, caller, address, name, weights_hash, metadata_uri, license, now)
        is Ok {
        let r1 = spec_publish(
            r,
            caller,
            address,
            name,
            weights_hash,
            metadata_uri,
            license,
            now,
        )->Ok_0;
        assert forall|k: int| 0 <= k < r.entries.len() implies (#[trigger] r.entries[k]).versions
            .is_prefix_of(r1.entries[k].versions) by {
            assert(r1.entries[k] == r.entries[k]);
        }
    }
    if spec_add_version(r, i, caller, weights_hash, metadata_uri, now) is Ok {
        let r1 = spec_add_version(r, i, caller, weights_hash, metadata_uri, now)->Ok_0;
        assert forall|k: int| 0 <= k < r.entries.len() implies (#[trigger] r.entries[k]).versions
            .is_prefix_of(r1.entries[k].versions) by {
            if k == i {
                assert(r1.entries[k].versions == r.entries[k].versions.push(
                    entry_with_new_version(
                        r.entries[i],
                        weights_hash,
                        metadata_uri,
                        now,
                    ).versions.last(),
                ));
                assert(r.entries[k].versions.is_prefix_of(r1.entries[k].versions));
            } else {
                assert(r1.entries[k] == r.entries[k]);
            }
        }
    }
    if spec_update_metadata(r, i, caller, metadata_uri, now) is Ok {
        let r1 = spec_update_metadata(r, i, caller, metadata_uri, now)->Ok_0;
        assert forall|k: int| 0 <= k < r.entries.len() implies (#[trigger] r.entries[k]).versions
            .is_prefix_of(r1.entries[k].versions) by {
            if k != i {
                assert(r1.entries[k] == r.entries[k]);
            }
        }
    }
    if spec_deprecate(r, i, caller, now) is Ok {
        let r1 = spec_deprecate(r, i, caller, now)->Ok_0;
        assert forall|k: int| 0 <= k < r.entries.len() implies (#[trigger] r.entries[k]).versions
            .is_prefix_of(r1.entries[k].versions) by {
            if k != i {
                assert(r1.entries[k] == r.entries[k]);
            }
        }
    }
    if spec_transfer(r, i, caller, new_publisher, now) is Ok {
        let r1 = spec_transfer(r, i, caller, new_publisher, now)->Ok_0;
        assert forall|k: int| 0 <= k < r.entries.len() implies (#[trigger] r.entries[k]).versions
            .is_prefix_of(r1.entries[k].versions) by {
            if k != i {
                assert(r1.entries[k] == r.entries[k]);
            }
        }
    }
}

} // verus!
