use vstd::prelude::*;

use crate::error::ImagioError;

verus! {

/// Which storage backend the two namespaces are bound to.
#[derive(Clone, Copy, Debug, PartialEq, Eq, Structural)]
pub enum StorageBackend {
    Fs,
    S3,
}

/// The raw storage parameters as the command line hands them over:
/// the two namespace roots, and the object-store settings that only
/// the S3 backend needs.
pub struct StorageParameters {
    pub cache: String,
    pub store: String,
    pub bucket: Option<String>,
    pub region: Option<String>,
    pub endpoint: Option<String>,
    pub access_key_id: Option<String>,
    pub secret_access_key: Option<String>,
}

/// A validated storage configuration: every field a backend needs is
/// present, so operators can be constructed without further checks.
pub enum ValidatedStorage {
    Fs { store_root: String, cache_root: String },
    S3 {
        region: String,
        bucket: String,
        endpoint: String,
        access_key_id: String,
        secret_access_key: String,
        store_root: String,
        cache_root: String,
    },
}

/// Whether the parameters carry everything the S3 backend needs.
pub open spec fn spec_s3_complete(p: StorageParameters) -> bool {
    &&& p.region is Some
    &&& p.bucket is Some
    &&& p.endpoint is Some
    &&& p.access_key_id is Some
    &&& p.secret_access_key is Some
}

/// Validates a backend selection at startup. The filesystem backend
/// needs only its two roots and always validates; the S3 backend
/// validates exactly when region, bucket, endpoint and both credential
/// parts are present, and fails with `ConfigError` otherwise (fatal:
/// the process must not start).
pub fn validate_storage(backend: StorageBackend, params: StorageParameters) -> (r: Result<
    ValidatedStorage,
    ImagioError,
>)
    ensures
        match backend {
            StorageBackend::Fs => r matches Ok(v) && (v matches ValidatedStorage::Fs {
                store_root,
                cache_root,
            } && store_root@ == params.store@ && cache_root@ == params.cache@),
            StorageBackend::S3 => {
                if spec_s3_complete(params) {
                    r matches Ok(v) && (v matches ValidatedStorage::S3 {
                        region,
                        bucket,
                        endpoint,
                        access_key_id,
                        secret_access_key,
                        store_root,
                        cache_root,
                    } && region@ == params.region->0@ && bucket@ == params.bucket->0@ && endpoint@
                        == params.endpoint->0@ && access_key_id@ == params.access_key_id->0@
                        && secret_access_key@ == params.secret_access_key->0@ && store_root@
                        == params.store@ && cache_root@ == params.cache@)
                } else {
                    r == Result::<ValidatedStorage, ImagioError>::Err(ImagioError::ConfigError)
                }
            },
        },
{
    match backend {
        StorageBackend::Fs => Ok(
            ValidatedStorage::Fs { store_root: params.store, cache_root: params.cache },
        ),
        StorageBackend::S3 => {
            match (
                params.region,
                params.bucket,
                params.endpoint,
                params.access_key_id,
                params.secret_access_key,
            ) {
                (Some(region), Some(bucket), Some(endpoint), Some(access_key_id), Some(
                    secret_access_key,
                )) => Ok(
                    ValidatedStorage::S3 {
                        region,
                        bucket,
                        endpoint,
                        access_key_id,
                        secret_access_key,
                        store_root: params.store,
                        cache_root: params.cache,
                    },
                ),
                _ => Err(ImagioError::ConfigError),
            }
        },
    }
}

} // verus!
