//! What a storage client is built from.

use crate::config::{same_text, text_of, ConfigView, OssConfig};
use crate::endpoint::{resolve_region_and_endpoint, resolved, ResolvedEndpoint, ResolvedView};
use crate::error::OssError;
use vstd::prelude::*;
use vstd::string::*;

verus! {

/// The ceiling, in seconds, that the transport puts on any single request.
pub const REQUEST_TIMEOUT_SECS: u64 = 12;

/// Everything a client bound to one bucket is built from.
#[derive(Debug, Clone, PartialEq, Eq)]
pub struct BucketPlan {
    pub bucket_name: String,
    pub region_code: String,
    pub endpoint_url: Option<String>,
    pub access_key: String,
    pub secret_key: String,
    pub request_timeout_secs: u64,
}

/// A `BucketPlan` over character sequences.
pub ghost struct PlanView {
    pub bucket_name: Seq<char>,
    pub target: ResolvedView,
    pub access_key: Seq<char>,
    pub secret_key: Seq<char>,
    pub request_timeout_secs: nat,
}

impl View for BucketPlan {
    type V = PlanView;

    open spec fn view(&self) -> PlanView {
        PlanView {
            bucket_name: self.bucket_name@,
            target: ResolvedView {
                region_code: self.region_code@,
                endpoint_url: text_of(self.endpoint_url),
            },
            access_key: self.access_key@,
            secret_key: self.secret_key@,
            request_timeout_secs: self.request_timeout_secs as nat,
        }
    }
}

/// The bucket that a configuration names, where it names one.
pub open spec fn named_bucket(cfg: ConfigView) -> Option<Seq<char>> {
    match cfg.bucket {
        Some(name) => if name.len() > 0 {
            Some(name)
        } else {
            None
        },
        None => None,
    }
}

/// The plan of the client for a configuration that names a bucket and a
/// supported provider.
pub open spec fn planned(cfg: ConfigView) -> Option<PlanView> {
    match (named_bucket(cfg), resolved(cfg)) {
        (Some(name), Some(target)) => Some(
            PlanView {
                bucket_name: name,
                target,
                access_key: cfg.access_key,
                secret_key: cfg.secret_key,
                request_timeout_secs: REQUEST_TIMEOUT_SECS as nat,
            },
        ),
        _ => None,
    }
}

/// Plans the client for an object-level operation.
///
/// Fails with `MissingBucket` where the configuration names no bucket or an
/// empty one, and otherwise with `UnsupportedProvider` where the provider
/// is not supported.
pub fn build_bucket(cfg: &OssConfig) -> (r: Result<BucketPlan, OssError>)
    ensures
        match r {
            Ok(plan) => planned(cfg@) == Some(plan@),
            Err(OssError::MissingBucket) => named_bucket(cfg@) is None,
            Err(OssError::UnsupportedProvider(name)) => named_bucket(cfg@) is Some && resolved(
                cfg@,
            ) is None && name@ == cfg.provider@,
            Err(_) => false,
        },
{
    let bucket_name = match &cfg.bucket {
        Some(name) => {
            if name.as_str().unicode_len() == 0 {
                return Err(OssError::MissingBucket);
            }
            name.clone()
        },
        None => { return Err(OssError::MissingBucket); },
    };
    match resolve_region_and_endpoint(cfg) {
        Ok(target) => Ok(
            BucketPlan {
                bucket_name,
                region_code: target.region_code,
                endpoint_url: target.endpoint_url,
                access_key: cfg.access_key.clone(),
                secret_key: cfg.secret_key.clone(),
                request_timeout_secs: REQUEST_TIMEOUT_SECS,
            },
        ),
        Err(e) => Err(e),
    }
}

/// What a configuration resolves to for listing the account's buckets:
/// tencent and aliyun answer that on a service-level endpoint of their own,
/// whatever endpoint is configured; every other provider on its usual one.
pub open spec fn service_resolved(cfg: ConfigView) -> Option<ResolvedView> {
    if cfg.provider == "tencent"@ {
        Some(
            ResolvedView {
                region_code: match cfg.region {
                    Some(r) => r,
                    None => "ap-beijing"@,
                },
                endpoint_url: Some("https://service.cos.myqcloud.com"@),
            },
        )
    } else if cfg.provider == "aliyun"@ {
        Some(
            ResolvedView {
                region_code: Seq::<char>::empty(),
                endpoint_url: Some("https://oss.aliyuncs.com"@),
            },
        )
    } else {
        resolved(cfg)
    }
}

/// Resolves the region and endpoint on which the buckets are listed.
pub fn resolve_service_endpoint(cfg: &OssConfig) -> (r: Result<ResolvedEndpoint, OssError>)
    ensures
        match r {
            Ok(found) => service_resolved(cfg@) == Some(found@),
            Err(OssError::UnsupportedProvider(name)) => service_resolved(cfg@) is None && name@
                == cfg.provider@,
            Err(_) => false,
        },
{
    if same_text(cfg.provider.as_str(), "tencent") {
        let region_code = match &cfg.region {
            Some(r) => r.clone(),
            None => String::from_str("ap-beijing"),
        };
        Ok(
            ResolvedEndpoint {
                region_code,
                endpoint_url: Some(String::from_str("https://service.cos.myqcloud.com")),
            },
        )
    } else if same_text(cfg.provider.as_str(), "aliyun") {
        Ok(
            ResolvedEndpoint {
                region_code: String::new(),
                endpoint_url: Some(String::from_str("https://oss.aliyuncs.com")),
            },
        )
    } else {
        resolve_region_and_endpoint(cfg)
    }
}

} // verus!
