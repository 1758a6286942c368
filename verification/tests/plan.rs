use httpbench::config::{
    check_payloads, CommandLine, Config, ConfigError, DelayDistribution, HttpMethod,
    LoadTestContext, RequestOrder,
};
use httpbench::resolve::UrlWarning;

fn owned(items: &[&str]) -> Vec<String> {
    items.iter().map(|s| (*s).to_owned()).collect()
}

fn defaults(urls: &[&str]) -> CommandLine {
    CommandLine {
        concurrency: 10,
        requests: 100,
        order: "r".to_owned(),
        delay_ms: 0,
        delay_distrib: "c".to_owned(),
        slow_percentile_bits: None,
        http_method: "GET".to_owned(),
        url_prefix: None,
        url_file_lines: None,
        args_urls: Some(owned(urls)),
        payload_lines: None,
    }
}

#[test]
fn command_line_defaults() {
    let cmdline = CommandLine::default();
    assert_eq!(
        cmdline,
        CommandLine {
            concurrency: 10,
            requests: 100,
            order: "r".to_owned(),
            delay_ms: 0,
            delay_distrib: "c".to_owned(),
            slow_percentile_bits: None,
            http_method: "GET".to_owned(),
            url_prefix: None,
            url_file_lines: None,
            args_urls: None,
            payload_lines: None,
        }
    );
    assert_eq!(Config::from_cmdline(cmdline), Err(ConfigError::MissingUrlSource));
}

#[test]
fn error_texts() {
    assert_eq!(ConfigError::UnsupportedMethod.message(), "Unsupported http method");
    assert_eq!(
        ConfigError::MissingPayloads.message(),
        "Payloads must be supplied when http_method is set to POST or PUT"
    );
    assert_eq!(
        ConfigError::ConflictingUrlSources.message(),
        "a URL file and inline URLs cannot be used together"
    );
    assert_eq!(
        ConfigError::MissingUrlSource.message(),
        "either a URL file or at least one URL is required"
    );
}

#[test]
fn method_names_are_case_insensitive() {
    assert_eq!(HttpMethod::from_str("GET"), Ok(HttpMethod::Get));
    assert_eq!(HttpMethod::from_str("get"), Ok(HttpMethod::Get));
    assert_eq!(HttpMethod::from_str("Post"), Ok(HttpMethod::Post));
    assert_eq!(HttpMethod::from_str("pUt"), Ok(HttpMethod::Put));
}

#[test]
fn unknown_method_is_rejected() {
    assert_eq!(HttpMethod::from_str("DELETE"), Err(()));
    assert_eq!(HttpMethod::from_str(""), Err(()));
    assert_eq!(HttpMethod::from_str("GET "), Err(()));
}

#[test]
fn upper_case_names_are_exact() {
    assert_eq!(HttpMethod::from_uppercase("GET"), Ok(HttpMethod::Get));
    assert_eq!(HttpMethod::from_uppercase("POST"), Ok(HttpMethod::Post));
    assert_eq!(HttpMethod::from_uppercase("PUT"), Ok(HttpMethod::Put));
    assert_eq!(HttpMethod::from_uppercase("get"), Err(()));
}

#[test]
fn order_flag() {
    assert_eq!(RequestOrder::from_flag("s"), RequestOrder::Sequential);
    assert_eq!(RequestOrder::from_flag("r"), RequestOrder::Random);
    assert_eq!(RequestOrder::from_flag("anything"), RequestOrder::Random);
    assert_eq!(RequestOrder::from_flag("S"), RequestOrder::Random);
}

#[test]
fn delay_distribution_flag() {
    assert_eq!(DelayDistribution::from_flag("c"), DelayDistribution::Constant);
    assert_eq!(DelayDistribution::from_flag("u"), DelayDistribution::Uniform);
    assert_eq!(DelayDistribution::from_flag("ne"), DelayDistribution::NegativeExponential);
    assert_eq!(DelayDistribution::from_flag("n"), DelayDistribution::Constant);
}

#[test]
fn payload_rule() {
    let none: Vec<String> = Vec::new();
    let some = owned(&["{}"]);
    assert_eq!(check_payloads(HttpMethod::Get, &none), Ok(()));
    assert_eq!(check_payloads(HttpMethod::Get, &some), Ok(()));
    assert_eq!(check_payloads(HttpMethod::Post, &none), Err(ConfigError::MissingPayloads));
    assert_eq!(check_payloads(HttpMethod::Put, &none), Err(ConfigError::MissingPayloads));
    assert_eq!(check_payloads(HttpMethod::Post, &some), Ok(()));
    assert_eq!(check_payloads(HttpMethod::Put, &some), Ok(()));
    assert!(!ConfigError::MissingPayloads.is_usage_error());
}

#[test]
fn get_without_payload_file_passes() {
    let context = Config::from_cmdline(defaults(&["http://localhost/"])).unwrap();
    assert!(context.payloads.is_empty());
    assert_eq!(context.config.http_method, HttpMethod::Get);
}

#[test]
fn post_without_payloads_is_fatal() {
    let mut cmdline = defaults(&["http://localhost/"]);
    cmdline.http_method = "POST".to_owned();
    assert_eq!(Config::from_cmdline(cmdline), Err(ConfigError::MissingPayloads));
}

#[test]
fn put_with_empty_payload_file_is_fatal() {
    let mut cmdline = defaults(&["http://localhost/"]);
    cmdline.http_method = "put".to_owned();
    cmdline.payload_lines = Some(Vec::new());
    assert_eq!(Config::from_cmdline(cmdline), Err(ConfigError::MissingPayloads));
}

#[test]
fn post_with_payloads_succeeds() {
    let mut cmdline = defaults(&["http://localhost/"]);
    cmdline.http_method = "POST".to_owned();
    cmdline.payload_lines = Some(owned(&["a=1", "", "b=2"]));
    let context = Config::from_cmdline(cmdline).unwrap();
    assert_eq!(context.config.http_method, HttpMethod::Post);
    assert_eq!(context.payloads, owned(&["a=1", "", "b=2"]));
}

#[test]
fn get_keeps_loaded_payloads() {
    let mut cmdline = defaults(&["http://localhost/"]);
    cmdline.payload_lines = Some(owned(&["x"]));
    let context = Config::from_cmdline(cmdline).unwrap();
    assert_eq!(context.payloads, owned(&["x"]));
}

#[test]
fn defaults_give_the_default_plan() {
    let context = Config::from_cmdline(defaults(&["http://localhost/", "rel"])).unwrap();
    assert_eq!(
        context,
        LoadTestContext {
            config: Config {
                concurrency: 10,
                requests: 100,
                order: RequestOrder::Random,
                delay_ms: 0,
                delay_distrib: DelayDistribution::Constant,
                slow_percentile_bits: None,
                http_method: HttpMethod::Get,
            },
            urls: owned(&["http://localhost/", "rel"]),
            payloads: Vec::new(),
            warnings: Vec::new(),
        }
    );
}

#[test]
fn every_value_is_copied_into_the_plan() {
    let bits = 0.95f64.to_bits();
    let cmdline = CommandLine {
        concurrency: 3,
        requests: 7,
        order: "s".to_owned(),
        delay_ms: 250,
        delay_distrib: "ne".to_owned(),
        slow_percentile_bits: Some(bits),
        http_method: "put".to_owned(),
        url_prefix: Some("http://localhost:8070/".to_owned()),
        url_file_lines: Some(owned(&["/a", "", "http://x:99999/", "b"])),
        args_urls: None,
        payload_lines: Some(owned(&["p1", "p2"])),
    };
    let context = Config::from_cmdline(cmdline).unwrap();
    assert_eq!(
        context.config,
        Config {
            concurrency: 3,
            requests: 7,
            order: RequestOrder::Sequential,
            delay_ms: 250,
            delay_distrib: DelayDistribution::NegativeExponential,
            slow_percentile_bits: Some(bits),
            http_method: HttpMethod::Put,
        }
    );
    assert_eq!(f64::from_bits(context.config.slow_percentile_bits.unwrap()), 0.95);
    assert_eq!(
        context.urls,
        owned(&["http://localhost:8070/a", "http://x:99999/", "http://localhost:8070/b"])
    );
    assert_eq!(context.payloads, owned(&["p1", "p2"]));
    assert_eq!(
        context.warnings,
        vec![UrlWarning {
            url: "http://x:99999/".to_owned(),
            reason: "invalid port number".to_owned()
        }]
    );
}

#[test]
fn unsupported_method_is_a_usage_error() {
    let mut cmdline = defaults(&["http://localhost/"]);
    cmdline.http_method = "PATCH".to_owned();
    assert_eq!(Config::from_cmdline(cmdline), Err(ConfigError::UnsupportedMethod));
    assert!(ConfigError::UnsupportedMethod.is_usage_error());
}

#[test]
fn url_sources_are_checked_first() {
    let mut cmdline = defaults(&["http://localhost/"]);
    cmdline.url_file_lines = Some(owned(&["/a"]));
    cmdline.http_method = "PATCH".to_owned();
    cmdline.url_prefix = Some("nonsense".to_owned());
    assert_eq!(Config::from_cmdline(cmdline), Err(ConfigError::ConflictingUrlSources));

    let mut cmdline = defaults(&[]);
    cmdline.args_urls = None;
    cmdline.http_method = "POST".to_owned();
    assert_eq!(Config::from_cmdline(cmdline), Err(ConfigError::MissingUrlSource));
}

#[test]
fn unparsable_prefix_does_not_stop_the_plan() {
    let mut cmdline = defaults(&["a", "http://localhost:8070/x"]);
    cmdline.url_prefix = Some("/no/scheme".to_owned());
    let context = Config::from_cmdline(cmdline).unwrap();
    assert_eq!(context.urls, owned(&["a", "http://localhost:8070/x"]));
    assert_eq!(
        context.warnings,
        vec![UrlWarning {
            url: "a".to_owned(),
            reason: "relative URL without a base".to_owned()
        }]
    );
}

#[test]
fn method_is_checked_whatever_the_prefix() {
    let mut cmdline = defaults(&["a"]);
    cmdline.url_prefix = Some("/no/scheme".to_owned());
    cmdline.http_method = "PATCH".to_owned();
    assert_eq!(Config::from_cmdline(cmdline), Err(ConfigError::UnsupportedMethod));
}

#[test]
fn method_is_checked_before_the_payloads() {
    let mut cmdline = defaults(&["a"]);
    cmdline.http_method = "POSTS".to_owned();
    assert_eq!(Config::from_cmdline(cmdline), Err(ConfigError::UnsupportedMethod));
}
