use oss_gateway::config::OssConfig;
use oss_gateway::endpoint::resolve_region_and_endpoint;
use oss_gateway::error::OssError;
use oss_gateway::executor::{next_action, recover, Action, Attempt, Outcome};
use oss_gateway::operation::Operation;
use oss_gateway::redirect::{ensure_scheme, extract_endpoint_from_error_xml};
use oss_gateway::region::{
    host_part, infer_region_from_endpoint, region_after_prefix, region_between,
    region_second_label,
};

fn config(provider: &str) -> OssConfig {
    OssConfig {
        provider: provider.to_string(),
        access_key: "AK".to_string(),
        secret_key: "SK".to_string(),
        region: None,
        endpoint: None,
        bucket: Some("photos".to_string()),
    }
}

fn redirect_text(endpoint: &str) -> String {
    format!(
        "<?xml version=\"1.0\"?><Error><Code>PermanentRedirect</Code><Endpoint>{}</Endpoint><Bucket>photos</Bucket></Error>",
        endpoint
    )
}

#[test]
fn extract_gives_none_without_a_tag_pair() {
    assert_eq!(extract_endpoint_from_error_xml(""), None);
    assert_eq!(extract_endpoint_from_error_xml("connection reset by peer"), None);
    assert_eq!(extract_endpoint_from_error_xml("<Endpoint>cos.ap-x.myqcloud.com"), None);
    assert_eq!(extract_endpoint_from_error_xml("cos.ap-x.myqcloud.com</Endpoint>"), None);
    assert_eq!(extract_endpoint_from_error_xml("</Endpoint>x<Endpoint>"), None);
}

#[test]
fn extract_gives_the_trimmed_inner_text() {
    assert_eq!(
        extract_endpoint_from_error_xml(&redirect_text("  oss-cn-beijing.aliyuncs.com \n")),
        Some("oss-cn-beijing.aliyuncs.com".to_string())
    );
    assert_eq!(
        extract_endpoint_from_error_xml("<Endpoint>a</Endpoint>"),
        Some("a".to_string())
    );
    assert_eq!(
        extract_endpoint_from_error_xml("前缀<Endpoint>\u{3000}主机.example\u{a0}</Endpoint>后缀"),
        Some("主机.example".to_string())
    );
}

#[test]
fn extract_takes_the_first_pair_and_refuses_blank_content() {
    assert_eq!(
        extract_endpoint_from_error_xml("<Endpoint>a</Endpoint><Endpoint>b</Endpoint>"),
        Some("a".to_string())
    );
    assert_eq!(extract_endpoint_from_error_xml("<Endpoint> \t </Endpoint>"), None);
    assert_eq!(extract_endpoint_from_error_xml("<Endpoint></Endpoint><Endpoint>b</Endpoint>"), None);
}

#[test]
fn ensure_scheme_adds_https_only_where_missing() {
    assert_eq!(ensure_scheme("cos.ap-x.myqcloud.com"), "https://cos.ap-x.myqcloud.com");
    assert_eq!(ensure_scheme("http://localhost:9000"), "http://localhost:9000");
    assert_eq!(ensure_scheme("https://a.test"), "https://a.test");
    assert_eq!(ensure_scheme(""), "https://");
    assert_eq!(ensure_scheme("ftp://a.test"), "https://ftp://a.test");
}

#[test]
fn infer_region_reads_each_providers_pattern() {
    let some = |s: &str| Some(s.to_string());
    assert_eq!(infer_region_from_endpoint("aliyun", "oss-cn-beijing.aliyuncs.com"), some("oss-cn-beijing"));
    assert_eq!(infer_region_from_endpoint("aliyun", "https://photos.oss-cn-beijing.aliyuncs.com/x"), some("oss-cn-beijing"));
    assert_eq!(infer_region_from_endpoint("tencent", "https://cos.ap-shanghai.myqcloud.com"), some("ap-shanghai"));
    assert_eq!(infer_region_from_endpoint("huawei", "obs.cn-east-3.myhuaweicloud.com/path/more"), some("cn-east-3"));
    assert_eq!(infer_region_from_endpoint("jdcloud", "http://s3.cn-east-2.jdcloud-oss.com"), some("cn-east-2"));
    assert_eq!(infer_region_from_endpoint("qingcloud", "s3.sh1a.qingstor.com"), some("sh1a"));
    assert_eq!(infer_region_from_endpoint("ksyun", "https://ks3-cn-shanghai.ksyuncs.com/"), some("cn-shanghai"));
    assert_eq!(infer_region_from_endpoint("qiniu", "s3-cn-east-1.qiniucs.com"), some("cn-east-1"));
    assert_eq!(infer_region_from_endpoint("ksyun", "ks3-nodots"), some("nodots"));
}

#[test]
fn infer_region_refuses_other_shapes() {
    assert_eq!(infer_region_from_endpoint("aliyun", "cn-beijing.aliyuncs.com"), None);
    assert_eq!(infer_region_from_endpoint("aliyun", "x.aliyuncs.com.oss-cn"), None);
    assert_eq!(infer_region_from_endpoint("tencent", "cdn.ap-shanghai.myqcloud.com"), None);
    assert_eq!(infer_region_from_endpoint("tencent", "cos.myqcloud"), None);
    assert_eq!(infer_region_from_endpoint("tencent", "https://cos/ap.x.y"), None);
    assert_eq!(infer_region_from_endpoint("ksyun", "s3-cn.ksyuncs.com"), None);
    assert_eq!(infer_region_from_endpoint("qiniu", "ks3-cn.qiniucs.com"), None);
    assert_eq!(infer_region_from_endpoint("aws", "s3.eu-west-1.amazonaws.com"), None);
    assert_eq!(infer_region_from_endpoint("minio", "localhost:9000"), None);
}

#[test]
fn inference_round_trips_through_the_resolver() {
    let cases = [
        ("aliyun", "oss-cn-shenzhen"),
        ("tencent", "ap-chengdu"),
        ("huawei", "cn-south-1"),
        ("jdcloud", "cn-east-1"),
        ("ksyun", "cn-guangzhou-1"),
        ("qingcloud", "gd2"),
        ("qiniu", "cn-east-2"),
        ("tencent", ""),
    ];
    for (provider, region) in cases {
        let mut cfg = config(provider);
        cfg.region = Some(region.to_string());
        let resolved = resolve_region_and_endpoint(&cfg).unwrap();
        let endpoint = resolved.endpoint_url.unwrap();
        assert_eq!(infer_region_from_endpoint(provider, &endpoint), Some(region.to_string()));
    }
}

#[test]
fn known_qiniu_zones_do_not_round_trip() {
    let mut cfg = config("qiniu");
    cfg.region = Some("z0".to_string());
    let endpoint = resolve_region_and_endpoint(&cfg).unwrap().endpoint_url.unwrap();
    assert_eq!(infer_region_from_endpoint("qiniu", &endpoint), Some("cn-east-1".to_string()));
}

#[test]
fn success_is_returned_on_either_attempt() {
    let cfg = config("tencent");
    assert_eq!(
        next_action(Operation::Download, &cfg, Attempt::First, Outcome::Completed(vec![1u8, 2, 3])),
        Action::Return(vec![1u8, 2, 3])
    );
    assert_eq!(
        next_action(Operation::Download, &cfg, Attempt::Retry, Outcome::Completed(7u32)),
        Action::Return(7u32)
    );
}

#[test]
fn timeout_never_triggers_a_retry() {
    let cfg = config("tencent");
    let ops = [
        Operation::ListBuckets,
        Operation::ListObjects,
        Operation::Upload,
        Operation::Download,
        Operation::Delete,
        Operation::CreateFolder,
    ];
    for op in ops {
        for attempt in [Attempt::First, Attempt::Retry] {
            let action: Action<()> = next_action(op, &cfg, attempt, Outcome::TimedOut);
            assert_eq!(action, Action::Fail(OssError::OperationTimeout(op)));
        }
    }
}

#[test]
fn recoverable_error_retries_once_with_the_corrected_configuration() {
    let cfg = config("tencent");
    let text = redirect_text("cos.ap-shanghai.myqcloud.com");
    let action: Action<()> =
        next_action(Operation::ListObjects, &cfg, Attempt::First, Outcome::Rejected(text.clone()));
    let fixed = match action {
        Action::Retry(fixed) => fixed,
        other => panic!("expected a retry, got {:?}", other),
    };
    assert_eq!(fixed.endpoint, Some("https://cos.ap-shanghai.myqcloud.com".to_string()));
    assert_eq!(fixed.region, Some("ap-shanghai".to_string()));
    assert_eq!(fixed.provider, cfg.provider);
    assert_eq!(fixed.access_key, cfg.access_key);
    assert_eq!(fixed.secret_key, cfg.secret_key);
    assert_eq!(fixed.bucket, cfg.bucket);

    let again: Action<()> =
        next_action(Operation::ListObjects, &fixed, Attempt::Retry, Outcome::Rejected(text.clone()));
    assert_eq!(again, Action::Fail(OssError::ProviderError(text)));
    let done = next_action(Operation::ListObjects, &fixed, Attempt::Retry, Outcome::Completed(5u8));
    assert_eq!(done, Action::Return(5u8));
    let late: Action<()> = next_action(Operation::ListObjects, &fixed, Attempt::Retry, Outcome::TimedOut);
    assert_eq!(late, Action::Fail(OssError::OperationTimeout(Operation::ListObjects)));
}

#[test]
fn corrected_endpoint_keeps_its_own_scheme() {
    let cfg = config("aliyun");
    let fixed = recover(&cfg, &redirect_text("http://oss-cn-beijing.aliyuncs.com")).unwrap();
    assert_eq!(fixed.endpoint, Some("http://oss-cn-beijing.aliyuncs.com".to_string()));
    assert_eq!(fixed.region, Some("oss-cn-beijing".to_string()));
    let resolved = resolve_region_and_endpoint(&fixed).unwrap();
    assert_eq!(resolved.region_code, "oss-cn-beijing");
    assert_eq!(resolved.endpoint_url, fixed.endpoint);
}

#[test]
fn unrecoverable_error_is_handed_on_as_it_came() {
    let cfg = config("tencent");
    let plain = "AccessDenied: signature mismatch".to_string();
    let action: Action<()> =
        next_action(Operation::Delete, &cfg, Attempt::First, Outcome::Rejected(plain.clone()));
    assert_eq!(action, Action::Fail(OssError::ProviderError(plain.clone())));
    assert_eq!(OssError::ProviderError(plain.clone()).message(), plain);

    let foreign = redirect_text("s3.eu-west-1.amazonaws.com");
    let action: Action<()> =
        next_action(Operation::Delete, &cfg, Attempt::First, Outcome::Rejected(foreign.clone()));
    assert_eq!(action, Action::Fail(OssError::ProviderError(foreign)));
    assert_eq!(recover(&config("aws"), &redirect_text("s3.eu-west-1.amazonaws.com")), None);
}

#[test]
fn deadlines_and_messages_of_each_operation() {
    assert_eq!(Operation::ListBuckets.timeout_secs(), 12);
    assert_eq!(Operation::Delete.timeout_secs(), 12);
    assert_eq!(Operation::CreateFolder.timeout_secs(), 12);
    assert_eq!(Operation::Upload.timeout_secs(), 20);
    assert_eq!(Operation::Download.timeout_secs(), 20);
    assert_eq!(Operation::ListObjects.timeout_secs(), 30);
    assert_eq!(Operation::ListObjects.timeout_message(), "请求超时，请检查网络或 Endpoint 配置");
    assert_eq!(Operation::ListBuckets.timeout_message(), "请求超时，请检查网络或 Endpoint 配置");
    assert_eq!(Operation::Upload.timeout_message(), "上传超时，请检查网络或 Endpoint 配置");
    assert_eq!(Operation::Download.timeout_message(), "下载超时，请检查网络或 Endpoint 配置");
    assert_eq!(Operation::Delete.timeout_message(), "删除超时，请检查网络或 Endpoint 配置");
    assert_eq!(Operation::CreateFolder.timeout_message(), "创建文件夹超时，请检查网络或 Endpoint 配置");
    assert_eq!(
        OssError::OperationTimeout(Operation::Upload).message(),
        "上传超时，请检查网络或 Endpoint 配置"
    );
    assert_eq!(Operation::ListObjects.success_message(), None);
    assert_eq!(Operation::Upload.success_message(), Some("文件上传成功".to_string()));
    assert_eq!(Operation::Download.success_message(), Some("文件下载成功".to_string()));
    assert_eq!(Operation::Delete.success_message(), Some("文件删除成功".to_string()));
    assert_eq!(Operation::CreateFolder.success_message(), Some("文件夹创建成功".to_string()));
}

#[test]
fn host_is_what_lies_between_scheme_and_path() {
    assert_eq!(host_part("https://a.b.c/d/e"), "a.b.c");
    assert_eq!(host_part("a.b.c"), "a.b.c");
    assert_eq!(host_part("a.b.c/d"), "a.b.c");
    assert_eq!(host_part("://x"), "x");
    assert_eq!(host_part("https:///x"), "");
    assert_eq!(host_part(""), "");
}

#[test]
fn hostname_patterns_one_by_one() {
    let some = |s: &str| Some(s.to_string());
    assert_eq!(region_between("oss-a.aliyuncs.com", "oss-", ".aliyuncs.com"), some("oss-a"));
    assert_eq!(region_between("b.oss-a.aliyuncs.com", "oss-", ".aliyuncs.com"), some("oss-a"));
    assert_eq!(region_between(".aliyuncs.com.oss-", "oss-", ".aliyuncs.com"), None);
    assert_eq!(region_between("oss-a", "oss-", ".aliyuncs.com"), None);
    assert_eq!(region_second_label("cos.r.x", "cos"), some("r"));
    assert_eq!(region_second_label("cos..x", "cos"), some(""));
    assert_eq!(region_second_label("cos.r", "cos"), None);
    assert_eq!(region_second_label("cos", "cos"), None);
    assert_eq!(region_second_label("obs.r.x", "cos"), None);
    assert_eq!(region_after_prefix("ks3-r.x", "ks3-"), some("r"));
    assert_eq!(region_after_prefix("ks3-", "ks3-"), some(""));
    assert_eq!(region_after_prefix("ks3", "ks3-"), None);
}

#[test]
fn aliyun_region_with_a_dot_round_trips() {
    let mut cfg = config("aliyun");
    cfg.region = Some("oss-cn.internal".to_string());
    let endpoint = resolve_region_and_endpoint(&cfg).unwrap().endpoint_url.unwrap();
    assert_eq!(endpoint, "https://oss-cn.internal.aliyuncs.com");
    assert_eq!(infer_region_from_endpoint("aliyun", &endpoint), Some("oss-cn.internal".to_string()));
}

/// Runs a call against a backend that answers its attempts from a script,
/// and reports the result with the number of attempts made.
fn drive(
    op: Operation,
    cfg: &OssConfig,
    script: Vec<Outcome<u32>>,
) -> (Result<u32, OssError>, usize, Vec<OssConfig>) {
    let mut cfg = cfg.clone();
    let mut current = Attempt::First;
    let mut used = Vec::new();
    let mut attempts = 0;
    for outcome in script {
        attempts += 1;
        used.push(cfg.clone());
        match next_action(op, &cfg, current, outcome) {
            Action::Return(v) => return (Ok(v), attempts, used),
            Action::Fail(e) => return (Err(e), attempts, used),
            Action::Retry(fixed) => {
                cfg = fixed;
                current = Attempt::Retry;
            }
        }
    }
    panic!("the script ran out after {} attempts", attempts);
}

#[test]
fn no_second_attempt_after_a_timeout() {
    let cfg = config("tencent");
    let script = vec![Outcome::TimedOut, Outcome::Completed(1)];
    let (result, attempts, _) = drive(Operation::Download, &cfg, script);
    assert_eq!(result, Err(OssError::OperationTimeout(Operation::Download)));
    assert_eq!(attempts, 1);
}

#[test]
fn one_retry_whose_outcome_is_returned() {
    let cfg = config("huawei");
    let redirect = redirect_text("obs.cn-east-3.myhuaweicloud.com");
    let script = vec![Outcome::Rejected(redirect.clone()), Outcome::Completed(9), Outcome::Completed(10)];
    let (result, attempts, used) = drive(Operation::Upload, &cfg, script);
    assert_eq!(result, Ok(9));
    assert_eq!(attempts, 2);
    assert_eq!(used[0], cfg);
    assert_eq!(used[1].endpoint, Some("https://obs.cn-east-3.myhuaweicloud.com".to_string()));
    assert_eq!(used[1].region, Some("cn-east-3".to_string()));

    let script = vec![
        Outcome::Rejected(redirect.clone()),
        Outcome::Rejected(redirect.clone()),
        Outcome::Completed(10),
    ];
    let (result, attempts, _) = drive(Operation::Upload, &cfg, script);
    assert_eq!(result, Err(OssError::ProviderError(redirect.clone())));
    assert_eq!(attempts, 2);

    let script = vec![Outcome::Rejected(redirect), Outcome::TimedOut, Outcome::Completed(10)];
    let (result, attempts, _) = drive(Operation::Upload, &cfg, script);
    assert_eq!(result, Err(OssError::OperationTimeout(Operation::Upload)));
    assert_eq!(attempts, 2);
}

#[test]
fn first_success_needs_one_attempt() {
    let cfg = config("qiniu");
    let (result, attempts, _) =
        drive(Operation::ListObjects, &cfg, vec![Outcome::Completed(4), Outcome::TimedOut]);
    assert_eq!(result, Ok(4));
    assert_eq!(attempts, 1);
}
