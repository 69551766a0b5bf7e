//! From a configuration to the region and endpoint that a client is bound to.

use crate::config::{same_text, text_of, ConfigView, OssConfig};
use crate::error::OssError;
use vstd::prelude::*;
use vstd::string::*;

verus! {

/// The region and endpoint in effect for one call.
#[derive(Debug, Clone, PartialEq, Eq)]
pub struct ResolvedEndpoint {
    pub region_code: String,
    /// Absent where the client finds the endpoint from the region itself.
    pub endpoint_url: Option<String>,
}

/// A `ResolvedEndpoint` as character sequences.
pub ghost struct ResolvedView {
    pub region_code: Seq<char>,
    pub endpoint_url: Option<Seq<char>>,
}

impl View for ResolvedEndpoint {
    type V = ResolvedView;

    open spec fn view(&self) -> ResolvedView {
        ResolvedView { region_code: self.region_code@, endpoint_url: text_of(self.endpoint_url) }
    }
}

/// The region a provider is reached in when the configuration names none;
/// `None` for a provider that is not supported.
pub open spec fn default_region(provider: Seq<char>) -> Option<Seq<char>> {
    if provider == "aws"@ {
        Some("us-east-1"@)
    } else if provider == "aliyun"@ {
        Some("oss-cn-hangzhou"@)
    } else if provider == "tencent"@ {
        Some("ap-beijing"@)
    } else if provider == "huawei"@ {
        Some("cn-north-1"@)
    } else if provider == "qiniu"@ {
        Some("z0"@)
    } else if provider == "jdcloud"@ {
        Some("cn-north-1"@)
    } else if provider == "ksyun"@ {
        Some("cn-beijing-6"@)
    } else if provider == "qingcloud"@ {
        Some("pek3a"@)
    } else if provider == "minio"@ {
        Some("us-east-1"@)
    } else {
        None
    }
}

/// The URL of a host under `https`.
pub open spec fn https(host: Seq<char>) -> Seq<char> {
    "https://"@ + host
}

/// The host `service.region.domain`.
pub open spec fn dotted_host(service: Seq<char>, region: Seq<char>, domain: Seq<char>) -> Seq<char> {
    service + "."@ + region + "."@ + domain
}

/// The host `service-region.domain`.
pub open spec fn dashed_host(service: Seq<char>, region: Seq<char>, domain: Seq<char>) -> Seq<char> {
    service + "-"@ + region + "."@ + domain
}

/// The zones of qiniu that are served by a host of their own.
pub open spec fn is_known_zone(zone: Seq<char>) -> bool {
    zone == "z0"@ || zone == "z1"@ || zone == "z2"@ || zone == "na0"@ || zone == "as0"@
}

/// The host that serves a zone of qiniu.
pub open spec fn qiniu_endpoint(zone: Seq<char>) -> Seq<char> {
    if zone == "z0"@ {
        "https://s3-cn-east-1.qiniucs.com"@
    } else if zone == "z1"@ {
        "https://s3-cn-north-1.qiniucs.com"@
    } else if zone == "z2"@ {
        "https://s3-cn-south-1.qiniucs.com"@
    } else if zone == "na0"@ {
        "https://s3-us-north-1.qiniucs.com"@
    } else if zone == "as0"@ {
        "https://s3-ap-southeast-1.qiniucs.com"@
    } else {
        https(dashed_host("s3"@, zone, "qiniucs.com"@))
    }
}

/// The endpoint of a provider in a region; `None` where the client derives
/// it from the region (aws) and for a provider that is not supported.
pub open spec fn provider_endpoint(provider: Seq<char>, region: Seq<char>) -> Option<Seq<char>> {
    if provider == "aliyun"@ {
        Some(https(region + "."@ + "aliyuncs.com"@))
    } else if provider == "tencent"@ {
        Some(https(dotted_host("cos"@, region, "myqcloud.com"@)))
    } else if provider == "huawei"@ {
        Some(https(dotted_host("obs"@, region, "myhuaweicloud.com"@)))
    } else if provider == "qiniu"@ {
        Some(qiniu_endpoint(region))
    } else if provider == "jdcloud"@ {
        Some(https(dotted_host("s3"@, region, "jdcloud-oss.com"@)))
    } else if provider == "ksyun"@ {
        Some(https(dashed_host("ks3"@, region, "ksyuncs.com"@)))
    } else if provider == "qingcloud"@ {
        Some(https(dotted_host("s3"@, region, "qingstor.com"@)))
    } else if provider == "minio"@ {
        Some("http://localhost:9000"@)
    } else {
        None
    }
}

/// The region in effect when no endpoint is given: the configured one, or
/// the provider's default; for minio always the default.
pub open spec fn effective_region(
    provider: Seq<char>,
    region: Option<Seq<char>>,
    default: Seq<char>,
) -> Seq<char> {
    if provider == "minio"@ {
        default
    } else {
        match region {
            Some(r) => r,
            None => default,
        }
    }
}

/// What a configuration resolves to; `None` for a provider that is not
/// supported. A given endpoint is taken as it is, before any rule.
pub open spec fn resolved(cfg: ConfigView) -> Option<ResolvedView> {
    if cfg.endpoint is Some {
        Some(
            ResolvedView {
                region_code: match cfg.region {
                    Some(r) => r,
                    None => "custom"@,
                },
                endpoint_url: cfg.endpoint,
            },
        )
    } else {
        match default_region(cfg.provider) {
            Some(d) => {
                let region = effective_region(cfg.provider, cfg.region, d);
                Some(
                    ResolvedView {
                        region_code: region,
                        endpoint_url: provider_endpoint(cfg.provider, region),
                    },
                )
            },
            None => None,
        }
    }
}

/// The URL of `service`, `link`, `region`, a dot and `domain` under `https`;
/// without `service` and `link`, of the rest.
pub fn https_url(service: &str, link: &str, region: &str, domain: &str) -> (r: String)
    ensures
        r@ == https(service@ + link@ + region@ + "."@ + domain@),
{
    let r = String::from_str("https://").concat(service).concat(link).concat(region).concat(
        ".",
    ).concat(domain);
    assert(r@ =~= https(service@ + link@ + region@ + "."@ + domain@));
    r
}

/// The endpoint of aliyun in a region.
pub fn aliyun_url(region: &str) -> (r: String)
    ensures
        r@ == https(region@ + "."@ + "aliyuncs.com"@),
{
    let r = String::from_str("https://").concat(region).concat(".").concat("aliyuncs.com");
    assert(r@ =~= https(region@ + "."@ + "aliyuncs.com"@));
    r
}

/// The region a provider is reached in when the configuration names none.
pub fn default_region_of(provider: &str) -> (r: Option<String>)
    ensures
        text_of(r) == default_region(provider@),
{
    if same_text(provider, "aws") {
        Some(String::from_str("us-east-1"))
    } else if same_text(provider, "aliyun") {
        Some(String::from_str("oss-cn-hangzhou"))
    } else if same_text(provider, "tencent") {
        Some(String::from_str("ap-beijing"))
    } else if same_text(provider, "huawei") {
        Some(String::from_str("cn-north-1"))
    } else if same_text(provider, "qiniu") {
        Some(String::from_str("z0"))
    } else if same_text(provider, "jdcloud") {
        Some(String::from_str("cn-north-1"))
    } else if same_text(provider, "ksyun") {
        Some(String::from_str("cn-beijing-6"))
    } else if same_text(provider, "qingcloud") {
        Some(String::from_str("pek3a"))
    } else if same_text(provider, "minio") {
        Some(String::from_str("us-east-1"))
    } else {
        None
    }
}

/// The host that serves a zone of qiniu.
pub fn qiniu_endpoint_of(zone: &str) -> (r: String)
    ensures
        r@ == qiniu_endpoint(zone@),
{
    if same_text(zone, "z0") {
        String::from_str("https://s3-cn-east-1.qiniucs.com")
    } else if same_text(zone, "z1") {
        String::from_str("https://s3-cn-north-1.qiniucs.com")
    } else if same_text(zone, "z2") {
        String::from_str("https://s3-cn-south-1.qiniucs.com")
    } else if same_text(zone, "na0") {
        String::from_str("https://s3-us-north-1.qiniucs.com")
    } else if same_text(zone, "as0") {
        String::from_str("https://s3-ap-southeast-1.qiniucs.com")
    } else {
        https_url("s3", "-", zone, "qiniucs.com")
    }
}

/// The endpoint of a provider in a region, where a rule gives one.
pub fn provider_endpoint_of(provider: &str, region: &str) -> (r: Option<String>)
    ensures
        text_of(r) == provider_endpoint(provider@, region@),
{
    if same_text(provider, "aliyun") {
        Some(aliyun_url(region))
    } else if same_text(provider, "tencent") {
        Some(https_url("cos", ".", region, "myqcloud.com"))
    } else if same_text(provider, "huawei") {
        Some(https_url("obs", ".", region, "myhuaweicloud.com"))
    } else if same_text(provider, "qiniu") {
        Some(qiniu_endpoint_of(region))
    } else if same_text(provider, "jdcloud") {
        Some(https_url("s3", ".", region, "jdcloud-oss.com"))
    } else if same_text(provider, "ksyun") {
        Some(https_url("ks3", "-", region, "ksyuncs.com"))
    } else if same_text(provider, "qingcloud") {
        Some(https_url("s3", ".", region, "qingstor.com"))
    } else if same_text(provider, "minio") {
        Some(String::from_str("http://localhost:9000"))
    } else {
        None
    }
}

/// Resolves a configuration to the region and endpoint in effect.
///
/// A given endpoint wins over every rule, with the configured region or
/// `custom`. Without one the provider's rule applies. A provider outside the
/// supported set is the only failure.
pub fn resolve_region_and_endpoint(cfg: &OssConfig) -> (r: Result<ResolvedEndpoint, OssError>)
    ensures
        match r {
            Ok(found) => resolved(cfg@) == Some(found@),
            Err(OssError::UnsupportedProvider(name)) => resolved(cfg@) is None && name@
                == cfg.provider@,
            Err(_) => false,
        },
{
    if let Some(ep) = &cfg.endpoint {
        let region_code = match &cfg.region {
            Some(r) => r.clone(),
            None => String::from_str("custom"),
        };
        return Ok(ResolvedEndpoint { region_code, endpoint_url: Some(ep.clone()) });
    }
    match default_region_of(cfg.provider.as_str()) {
        Some(default) => {
            let region_code = if same_text(cfg.provider.as_str(), "minio") {
                default
            } else {
                match &cfg.region {
                    Some(r) => r.clone(),
                    None => default,
                }
            };
            let endpoint_url = provider_endpoint_of(cfg.provider.as_str(), region_code.as_str());
            Ok(ResolvedEndpoint { region_code, endpoint_url })
        },
        None => Err(OssError::UnsupportedProvider(cfg.provider.clone())),
    }
}

/// With neither an endpoint nor a region configured, a supported provider
/// resolves to its default region and to the endpoint that its rule makes
/// for that region; a provider that is not supported resolves to nothing.
pub proof fn lemma_resolves_by_rule(cfg: ConfigView)
    requires
        cfg.endpoint is None,
        cfg.region is None,
    ensures
        resolved(cfg) == match default_region(cfg.provider) {
            Some(region) => Some(
                ResolvedView {
                    region_code: region,
                    endpoint_url: provider_endpoint(cfg.provider, region),
                },
            ),
            None => None,
        },
{
}

/// A configured endpoint is what the configuration resolves to, whatever
/// the provider, with the configured region or `custom`.
pub proof fn lemma_endpoint_override_wins(cfg: ConfigView)
    requires
        cfg.endpoint is Some,
    ensures
        resolved(cfg) is Some,
        resolved(cfg)->0.endpoint_url == cfg.endpoint,
        resolved(cfg)->0.region_code == match cfg.region {
            Some(region) => region,
            None => "custom"@,
        },
{
}

} // verus!
