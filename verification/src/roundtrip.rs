//! Region inference undoes endpoint synthesis.

use crate::endpoint::{dashed_host, dotted_host, https, is_known_zone, provider_endpoint};
use crate::region::{between_markers, host_of, inferred_region, label_after, second_label};
use crate::text::{
    first_index_of, lemma_first_index_is, lemma_first_index_none, lemma_match_has_first,
    matches_at, starts_with, until,
};
use vstd::prelude::*;

verus! {

/// No character of `s` is `c`.
pub open spec fn free_of(s: Seq<char>, c: char) -> bool {
    forall|i: int| 0 <= i < s.len() ==> s[i] != c
}

/// A region code that a host carries as one label: it holds no dot and no
/// slash.
pub open spec fn is_label(region: Seq<char>) -> bool {
    free_of(region, '.') && free_of(region, '/')
}

/// The providers whose hosts carry the region in a pattern.
pub open spec fn has_pattern(provider: Seq<char>) -> bool {
    provider == "aliyun"@ || provider == "tencent"@ || provider == "huawei"@ || provider
        == "jdcloud"@ || provider == "ksyun"@ || provider == "qingcloud"@ || provider == "qiniu"@
}

/// An occurrence of `pat` at `k` is the first where the first character of
/// `pat` does not occur before `k`.
pub proof fn lemma_first_index_after_free(s: Seq<char>, pat: Seq<char>, k: int)
    requires
        pat.len() > 0,
        matches_at(s, pat, k),
        forall|i: int| 0 <= i < k ==> s[i] != pat[0],
    ensures
        first_index_of(s, pat) == Some(k),
{
    assert forall|j: int| 0 <= j < k implies !matches_at(s, pat, j) by {
        if matches_at(s, pat, j) {
            assert(s.subrange(j, j + pat.len())[0] == pat[0]);
        }
    }
    lemma_first_index_is(s, pat, k);
}

/// `pat` does not occur in a text that is free of its first character.
pub proof fn lemma_absent_when_free(s: Seq<char>, pat: Seq<char>)
    requires
        pat.len() > 0,
        free_of(s, pat[0]),
    ensures
        first_index_of(s, pat) is None,
        until(s, pat) == s,
{
    assert forall|j: int| 0 <= j implies !matches_at(s, pat, j) by {
        if matches_at(s, pat, j) {
            assert(s.subrange(j, j + pat.len())[0] == pat[0]);
        }
    }
    lemma_first_index_none(s, pat);
}

/// What the marks of a URL hold.
proof fn lemma_marks()
    ensures
        "."@ =~= seq!['.'],
        "/"@ =~= seq!['/'],
        "-"@ =~= seq!['-'],
        "://"@ =~= seq![':', '/', '/'],
        "https://"@ =~= "https"@ + "://"@,
        "https"@.len() == 5,
        free_of("https"@, ':'),
{
    reveal_strlit(".");
    reveal_strlit("/");
    reveal_strlit("-");
    reveal_strlit("://");
    reveal_strlit("https://");
    reveal_strlit("https");
}

/// The host of an `https` URL without a path is what follows the scheme.
pub proof fn lemma_host_of_https(host: Seq<char>)
    requires
        free_of(host, '/'),
    ensures
        host_of(https(host)) == host,
{
    lemma_marks();
    let e = https(host);
    assert(e =~= "https"@ + "://"@ + host);
    assert(e.subrange(5, 8) =~= "://"@);
    lemma_first_index_after_free(e, "://"@, 5);
    assert(e.skip(8) =~= host);
    lemma_absent_when_free(host, "/"@);
}

/// The second label of `service.region.domain` is `region`.
pub proof fn lemma_second_label_of_dotted(service: Seq<char>, region: Seq<char>, domain: Seq<char>)
    requires
        free_of(service, '.'),
        free_of(region, '.'),
    ensures
        second_label(dotted_host(service, region, domain), service) == Some(region),
{
    lemma_marks();
    let host = dotted_host(service, region, domain);
    let d1 = service.len() as int;
    assert(host.subrange(d1, d1 + 1) =~= "."@);
    lemma_first_index_after_free(host, "."@, d1);
    let rest = host.skip(d1 + 1);
    assert(rest =~= region + "."@ + domain);
    let d2 = region.len() as int;
    assert(rest.subrange(d2, d2 + 1) =~= "."@);
    lemma_first_index_after_free(rest, "."@, d2);
    assert(host.take(d1) =~= service);
    assert(rest.take(d2) =~= region);
}

/// The label after `service-` in `service-region.domain` is `region`.
pub proof fn lemma_label_after_dashed(service: Seq<char>, region: Seq<char>, domain: Seq<char>)
    requires
        free_of(region, '.'),
    ensures
        label_after(dashed_host(service, region, domain), service + "-"@) == Some(region),
{
    lemma_marks();
    let host = dashed_host(service, region, domain);
    let prefix = service + "-"@;
    let n = prefix.len() as int;
    assert(host.subrange(0, n) =~= prefix);
    let rest = host.skip(n);
    assert(rest =~= region + "."@ + domain);
    let d = region.len() as int;
    assert(rest.subrange(d, d + 1) =~= "."@);
    lemma_first_index_after_free(rest, "."@, d);
    assert(rest.take(d) =~= region);
}

/// A host made of a service, a mark, a region, a dot and a domain holds no
/// slash where its parts hold none.
proof fn lemma_host_without_slash(service: Seq<char>, mark: Seq<char>, region: Seq<char>, domain: Seq<char>)
    requires
        free_of(service, '/'),
        free_of(mark, '/'),
        free_of(region, '/'),
        free_of(domain, '/'),
    ensures
        free_of(service + mark + region + "."@ + domain, '/'),
{
    lemma_marks();
}

/// The providers' names differ from one another.
proof fn lemma_provider_names()
    ensures
        "aliyun"@.len() == 6,
        "tencent"@.len() == 7 && "tencent"@[0] == 't',
        "huawei"@.len() == 6 && "huawei"@[0] == 'h',
        "jdcloud"@.len() == 7 && "jdcloud"@[0] == 'j',
        "ksyun"@.len() == 5 && "ksyun"@[0] == 'k',
        "qingcloud"@.len() == 9,
        "qiniu"@.len() == 5 && "qiniu"@[0] == 'q',
        "aliyun"@[0] == 'a',
        "minio"@.len() == 5 && "minio"@[0] == 'm',
        "aws"@.len() == 3,
{
    reveal_strlit("aliyun");
    reveal_strlit("tencent");
    reveal_strlit("huawei");
    reveal_strlit("jdcloud");
    reveal_strlit("ksyun");
    reveal_strlit("qingcloud");
    reveal_strlit("qiniu");
    reveal_strlit("minio");
    reveal_strlit("aws");
}

/// From the `https` URL of `service.region.domain`, the second label read
/// is `region`.
proof fn lemma_round_trip_dotted(service: Seq<char>, region: Seq<char>, domain: Seq<char>)
    requires
        is_label(region),
        free_of(service, '.'),
        free_of(service, '/'),
        free_of(domain, '/'),
    ensures
        second_label(host_of(https(dotted_host(service, region, domain))), service) == Some(region),
{
    lemma_marks();
    lemma_host_without_slash(service, "."@, region, domain);
    lemma_host_of_https(dotted_host(service, region, domain));
    lemma_second_label_of_dotted(service, region, domain);
}

/// From the `https` URL of `service-region.domain`, the label read after
/// `service-` is `region`.
proof fn lemma_round_trip_dashed(service: Seq<char>, region: Seq<char>, domain: Seq<char>)
    requires
        is_label(region),
        free_of(service, '/'),
        free_of(domain, '/'),
    ensures
        label_after(host_of(https(dashed_host(service, region, domain))), service + "-"@) == Some(
            region,
        ),
{
    lemma_marks();
    lemma_host_without_slash(service, "-"@, region, domain);
    lemma_host_of_https(dashed_host(service, region, domain));
    lemma_label_after_dashed(service, region, domain);
}

/// The domain of aliyun does not begin inside a region and end beyond it.
proof fn lemma_domain_not_straddling(region: Seq<char>, j: int)
    requires
        0 <= j < region.len() < j + ".aliyuncs.com"@.len(),
    ensures
        !matches_at(region + ".aliyuncs.com"@, ".aliyuncs.com"@, j),
{
    reveal_strlit(".aliyuncs.com");
    let suffix = ".aliyuncs.com"@;
    let host = region + suffix;
    let n = region.len() as int;
    if matches_at(host, suffix, j) {
        let found = host.subrange(j, j + suffix.len());
        let k = n - j;
        assert(found[k] == host[n]);
        assert(host[n] == suffix[0]);
        assert(suffix[k] == '.');
        assert(k == 9);
        assert(found[10] == host[n + 1]);
        assert(host[n + 1] == suffix[1]);
    }
}

/// After a region that does not hold the domain of aliyun, the domain
/// occurs first where the region ends.
proof fn lemma_domain_follows_region(region: Seq<char>)
    requires
        first_index_of(region, ".aliyuncs.com"@) is None,
    ensures
        first_index_of(region + ".aliyuncs.com"@, ".aliyuncs.com"@) == Some(region.len() as int),
{
    let suffix = ".aliyuncs.com"@;
    let host = region + suffix;
    let n = region.len() as int;
    assert(host.subrange(n, n + suffix.len()) =~= suffix);
    assert forall|j: int| 0 <= j < n implies !matches_at(host, suffix, j) by {
        if j + suffix.len() <= n {
            if matches_at(host, suffix, j) {
                assert(region.subrange(j, j + suffix.len()) =~= host.subrange(j, j + suffix.len()));
                lemma_match_has_first(region, suffix, j);
            }
        } else {
            lemma_domain_not_straddling(region, j);
        }
    }
    lemma_first_index_is(host, suffix, n);
}

/// From the `https` URL of a region of aliyun under its domain, the part
/// read between the markers is the region.
proof fn lemma_round_trip_aliyun(region: Seq<char>)
    requires
        free_of(region, '/'),
        starts_with(region, "oss-"@),
        first_index_of(region, ".aliyuncs.com"@) is None,
    ensures
        between_markers(
            host_of(https(region + "."@ + "aliyuncs.com"@)),
            "oss-"@,
            ".aliyuncs.com"@,
        ) == Some(region),
{
    lemma_marks();
    let host = region + "."@ + "aliyuncs.com"@;
    assert(free_of("aliyuncs.com"@, '/') && ".aliyuncs.com"@ =~= "."@ + "aliyuncs.com"@) by {
        lemma_marks();
        reveal_strlit("aliyuncs.com");
        reveal_strlit(".aliyuncs.com");
    }
    assert(host =~= region + ".aliyuncs.com"@);
    assert(free_of(host, '/'));
    lemma_host_of_https(host);
    assert("oss-"@.len() > 0) by {
        reveal_strlit("oss-");
    }
    assert(host.subrange(0, "oss-"@.len() as int) =~= region.subrange(0, "oss-"@.len() as int));
    lemma_first_index_is(host, "oss-"@, 0);
    lemma_domain_follows_region(region);
    assert(host.subrange(0, region.len() as int) =~= region);
}

/// The regions of a provider that its hosts carry whole: for aliyun those
/// that begin with `oss-` and hold neither a slash nor the provider's
/// domain; for qiniu the labels outside the zones that have a host of
/// their own; for the others every label.
pub open spec fn is_carried(provider: Seq<char>, region: Seq<char>) -> bool {
    if provider == "aliyun"@ {
        &&& free_of(region, '/')
        &&& starts_with(region, "oss-"@)
        &&& first_index_of(region, ".aliyuncs.com"@) is None
    } else if provider == "qiniu"@ {
        is_label(region) && !is_known_zone(region)
    } else {
        is_label(region)
    }
}

/// Region inference undoes endpoint synthesis: for a provider whose hosts
/// carry the region, the region inferred from the endpoint that the
/// provider's rule makes for a region is that region, where the host
/// carries the region whole.
pub proof fn lemma_region_round_trip(provider: Seq<char>, region: Seq<char>)
    requires
        has_pattern(provider),
        is_carried(provider, region),
    ensures
        provider_endpoint(provider, region) is Some,
        inferred_region(provider, provider_endpoint(provider, region)->0) == Some(region),
{
    lemma_provider_names();
    if provider == "aliyun"@ {
        lemma_round_trip_aliyun(region);
    } else if provider == "tencent"@ {
        reveal_strlit("cos");
        reveal_strlit("myqcloud.com");
        lemma_round_trip_dotted("cos"@, region, "myqcloud.com"@);
    } else if provider == "huawei"@ {
        reveal_strlit("obs");
        reveal_strlit("myhuaweicloud.com");
        lemma_round_trip_dotted("obs"@, region, "myhuaweicloud.com"@);
    } else if provider == "jdcloud"@ {
        reveal_strlit("s3");
        reveal_strlit("jdcloud-oss.com");
        lemma_round_trip_dotted("s3"@, region, "jdcloud-oss.com"@);
    } else if provider == "qingcloud"@ {
        reveal_strlit("s3");
        reveal_strlit("qingstor.com");
        lemma_round_trip_dotted("s3"@, region, "qingstor.com"@);
    } else if provider == "ksyun"@ {
        lemma_marks();
        reveal_strlit("ks3");
        reveal_strlit("ks3-");
        reveal_strlit("ksyuncs.com");
        assert("ks3-"@ =~= "ks3"@ + "-"@);
        lemma_round_trip_dashed("ks3"@, region, "ksyuncs.com"@);
    } else {
        lemma_marks();
        reveal_strlit("s3");
        reveal_strlit("s3-");
        reveal_strlit("qiniucs.com");
        assert("s3-"@ =~= "s3"@ + "-"@);
        lemma_round_trip_dashed("s3"@, region, "qiniucs.com"@);
    }
}

} // verus!
