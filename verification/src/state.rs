use vstd::prelude::*;

use crate::errors::ModelRegistryError;

verus! {

/// Byte length limit on a model name.
pub const MAX_NAME_LEN: usize = 64;

/// Byte length limit on a metadata URI.
pub const MAX_URI_LEN: usize = 128;

/// A 32-byte identity: a publisher's key or a derived storage address.
#[derive(Clone, Copy, Debug, PartialEq, Eq)]
pub struct AccountId {
    pub bytes: [u8; 32],
}

impl View for AccountId {
    type V = Seq<u8>;

    open spec fn view(&self) -> Seq<u8> {
        self.bytes@
    }
}

impl AccountId {
    pub fn new(bytes: [u8; 32]) -> (r: AccountId)
        ensures
            r@ == bytes@,
    {
        AccountId { bytes }
    }
}

/// Compares two identities byte for byte.
pub fn id_eq(a: &AccountId, b: &AccountId) -> (r: bool)
    ensures
        r == (a@ == b@),
{
    let mut i: usize = 0;
    while i < 32
        invariant
            i <= 32,
            forall|j: int| 0 <= j < i ==> a.bytes@[j] == b.bytes@[j],
        decreases 32 - i,
    {
        if a.bytes[i] != b.bytes[i] {
            assert(a@ != b@);
            return false;
        }
        i += 1;
    }
    proof {
        assert(a@ =~= b@);
    }
    true
}

/// Compares two byte strings.
pub fn bytes_eq(a: &Vec<u8>, b: &Vec<u8>) -> (r: bool)
    ensures
        r == (a@ == b@),
{
    if a.len() != b.len() {
        return false;
    }
    let mut i: usize = 0;
    while i < a.len()
        invariant
            i <= a.len(),
            a@.len() == b@.len(),
            forall|j: int| 0 <= j < i ==> a@[j] == b@[j],
        decreases a.len() - i,
    {
        if a[i] != b[i] {
            assert(a@ != b@);
            return false;
        }
        i += 1;
    }
    proof {
        assert(a@ =~= b@);
    }
    true
}

/// Copies a byte string.
pub fn clone_bytes(src: &Vec<u8>) -> (r: Vec<u8>)
    ensures
        r@ == src@,
{
    let mut out: Vec<u8> = Vec::new();
    let mut i: usize = 0;
    while i < src.len()
        invariant
            i <= src.len(),
            out@ == src@.subrange(0, i as int),
        decreases src.len() - i,
    {
        out.push(src[i]);
        i += 1;
    }
    proof {
        assert(out@ =~= src@);
    }
    out
}

/// The license a model is published under.
#[derive(Clone, Copy, Debug, PartialEq, Eq, Structural)]
pub enum License {
    MIT,
    Apache2,
    GPL3,
    CreativeCommons,
    Custom,
}

/// Whether a wire-format license code maps to a defined license.
pub open spec fn valid_license_code(code: u8) -> bool {
    code <= 4
}

/// The license a valid wire-format code stands for.
pub open spec fn license_of_code(code: u8) -> License
    recommends
        valid_license_code(code),
{
    if code == 0 {
        License::MIT
    } else if code == 1 {
        License::Apache2
    } else if code == 2 {
        License::GPL3
    } else if code == 3 {
        License::CreativeCommons
    } else {
        License::Custom
    }
}

/// The wire-format code of a license.
pub open spec fn license_code(license: License) -> u8 {
    match license {
        License::MIT => 0,
        License::Apache2 => 1,
        License::GPL3 => 2,
        License::CreativeCommons => 3,
        License::Custom => 4,
    }
}

impl License {
    /// Fallible conversion from the wire integer. Undefined codes fail
    /// closed; they are never defaulted to a valid license.
    pub fn from_code(code: u8) -> (r: Result<License, ModelRegistryError>)
        ensures
            valid_license_code(code) ==> r == Ok::<License, ModelRegistryError>(
                license_of_code(code),
            ),
            !valid_license_code(code) ==> r == Err::<License, ModelRegistryError>(
                ModelRegistryError::InvalidLicense,
            ),
    {
        match code {
            0 => Ok(License::MIT),
            1 => Ok(License::Apache2),
            2 => Ok(License::GPL3),
            3 => Ok(License::CreativeCommons),
            4 => Ok(License::Custom),
            _ => Err(ModelRegistryError::InvalidLicense),
        }
    }

    /// The wire integer of this license; always a valid code, and
    /// `from_code` maps it back to this license.
    pub fn code(&self) -> (r: u8)
        ensures
            r == license_code(*self),
            license_of_code(r) == *self,
            valid_license_code(r),
    {
        match self {
            License::MIT => 0,
            License::Apache2 => 1,
            License::GPL3 => 2,
            License::CreativeCommons => 3,
            License::Custom => 4,
        }
    }
}

/// A model name is 1 to 64 bytes.
pub open spec fn valid_name_bytes(name: Seq<u8>) -> bool {
    1 <= name.len() <= 64
}

/// A metadata URI is 1 to 128 bytes.
pub open spec fn valid_uri_bytes(uri: Seq<u8>) -> bool {
    1 <= uri.len() <= 128
}

/// The singleton configuration record: who initialized the registry and
/// the monotonically increasing global counters.
#[derive(Clone, Copy, Debug, PartialEq, Eq)]
pub struct RegistryConfig {
    /// Identity that initialized the registry (informational only).
    pub authority: AccountId,
    /// Count of models ever published.
    pub total_models: u64,
    /// Count of versions ever published across all models.
    pub total_versions: u64,
}

/// Mathematical image of a `RegistryConfig`.
pub ghost struct ConfigView {
    pub authority: Seq<u8>,
    pub total_models: u64,
    pub total_versions: u64,
}

impl View for RegistryConfig {
    type V = ConfigView;

    open spec fn view(&self) -> ConfigView {
        ConfigView {
            authority: self.authority@,
            total_models: self.total_models,
            total_versions: self.total_versions,
        }
    }
}

/// One published model: the permanent record of its latest weights hash,
/// metadata pointer, license, version counter and deprecation status.
#[derive(Clone, Debug, PartialEq, Eq)]
pub struct Model {
    /// Identity that owns and may mutate this model.
    pub publisher: AccountId,
    /// Immutable after creation; 1 to 64 bytes.
    pub model_name: Vec<u8>,
    /// Content hash of the latest version's weights.
    pub weights_hash: [u8; 32],
    /// Points at off-chain descriptive metadata; 1 to 128 bytes.
    pub metadata_uri: Vec<u8>,
    /// License the model is published under.
    pub license: License,
    /// Number of versions published so far; at least 1.
    pub version_count: u32,
    /// Timestamp of creation, from the host's trusted clock.
    pub created_at: i64,
    /// Timestamp of the last successful mutation.
    pub updated_at: i64,
    /// One-way flag: false to true only.
    pub is_deprecated: bool,
}

/// Mathematical image of a `Model`.
pub ghost struct ModelView {
    pub publisher: Seq<u8>,
    pub model_name: Seq<u8>,
    pub weights_hash: Seq<u8>,
    pub metadata_uri: Seq<u8>,
    pub license: License,
    pub version_count: u32,
    pub created_at: i64,
    pub updated_at: i64,
    pub is_deprecated: bool,
}

impl View for Model {
    type V = ModelView;

    open spec fn view(&self) -> ModelView {
        ModelView {
            publisher: self.publisher@,
            model_name: self.model_name@,
            weights_hash: self.weights_hash@,
            metadata_uri: self.metadata_uri@,
            license: self.license,
            version_count: self.version_count,
            created_at: self.created_at,
            updated_at: self.updated_at,
            is_deprecated: self.is_deprecated,
        }
    }
}

/// A model record is well formed when its name and URI are within bounds
/// and it has at least one version.
pub open spec fn wf_model(m: ModelView) -> bool {
    &&& valid_name_bytes(m.model_name)
    &&& valid_uri_bytes(m.metadata_uri)
    &&& m.version_count >= 1
}

/// One immutable version snapshot of a model.
#[derive(Clone, Debug, PartialEq, Eq)]
pub struct ModelVersion {
    /// Storage address of the owning model record.
    pub model: AccountId,
    /// 1-indexed sequence number.
    pub version: u32,
    /// Content hash of this version's weights.
    pub weights_hash: [u8; 32],
    /// Metadata pointer frozen for this version.
    pub metadata_uri: Vec<u8>,
    /// Timestamp this version was published.
    pub created_at: i64,
}

/// Mathematical image of a `ModelVersion`.
pub ghost struct VersionView {
    pub model: Seq<u8>,
    pub version: u32,
    pub weights_hash: Seq<u8>,
    pub metadata_uri: Seq<u8>,
    pub created_at: i64,
}

impl View for ModelVersion {
    type V = VersionView;

    open spec fn view(&self) -> VersionView {
        VersionView {
            model: self.model@,
            version: self.version@,
            weights_hash: self.weights_hash@,
            metadata_uri: self.metadata_uri@,
            created_at: self.created_at,
        }
    }
}

/// A version snapshot is well formed when its URI is within bounds and its
/// sequence number is at least 1.
pub open spec fn wf_version(v: VersionView) -> bool {
    &&& valid_uri_bytes(v.metadata_uri)
    &&& v.version >= 1
}

} // verus!
