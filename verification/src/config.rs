//! The execution plan and the rules that the command line's values must meet.

use vstd::prelude::*;
use crate::resolve::{
    candidates_of, inline_supplied, load_urls, texts, url_set, url_warnings, warning_models,
    UrlWarning,
};

verus! {

/// Text of `ConfigError::ConflictingUrlSources`.
pub const CONFLICTING_URL_SOURCES: &'static str =
    "a URL file and inline URLs cannot be used together";

/// Text of `ConfigError::MissingUrlSource`.
pub const MISSING_URL_SOURCE: &'static str = "either a URL file or at least one URL is required";

/// Text of `ConfigError::UnsupportedMethod`.
pub const UNSUPPORTED_METHOD: &'static str = "Unsupported http method";

/// Text of `ConfigError::MissingPayloads`.
pub const MISSING_PAYLOADS: &'static str =
    "Payloads must be supplied when http_method is set to POST or PUT";

/// Why no plan could be built. Every one of these is fatal.
#[derive(Clone, Debug, PartialEq, Eq)]
pub enum ConfigError {
    /// A URL file and inline URLs were both supplied.
    ConflictingUrlSources,
    /// Neither a URL file nor an inline URL was supplied.
    MissingUrlSource,
    /// The method is none of GET, POST and PUT.
    UnsupportedMethod,
    /// The method is POST or PUT and there is no payload.
    MissingPayloads,
}

impl ConfigError {
    /// Whether the error lies in the combination of flags or in a flag's
    /// value, and so is known before anything is read.
    pub open spec fn is_usage(&self) -> bool {
        self is ConflictingUrlSources || self is MissingUrlSource || self is UnsupportedMethod
    }

    /// The error's text for the user.
    pub open spec fn text(&self) -> Seq<char> {
        match self {
            ConfigError::ConflictingUrlSources => CONFLICTING_URL_SOURCES@,
            ConfigError::MissingUrlSource => MISSING_URL_SOURCE@,
            ConfigError::UnsupportedMethod => UNSUPPORTED_METHOD@,
            ConfigError::MissingPayloads => MISSING_PAYLOADS@,
        }
    }

    /// Gives the error's text for the user.
    pub fn message(&self) -> (message: String)
        ensures
            message@ == self.text(),
    {
        match self {
            ConfigError::ConflictingUrlSources => CONFLICTING_URL_SOURCES.to_owned(),
            ConfigError::MissingUrlSource => MISSING_URL_SOURCE.to_owned(),
            ConfigError::UnsupportedMethod => UNSUPPORTED_METHOD.to_owned(),
            ConfigError::MissingPayloads => MISSING_PAYLOADS.to_owned(),
        }
    }

    /// Tells a usage error from the others.
    pub fn is_usage_error(&self) -> (usage: bool)
        ensures
            usage == self.is_usage(),
    {
        match self {
            ConfigError::ConflictingUrlSources => true,
            ConfigError::MissingUrlSource => true,
            ConfigError::UnsupportedMethod => true,
            ConfigError::MissingPayloads => false,
        }
    }
}

/// The HTTP method of every request of a run.
#[derive(Clone, Copy, Debug, PartialEq, Eq, Structural)]
pub enum HttpMethod {
    Get,
    Post,
    Put,
}

/// The order in which the URL set is walked.
#[derive(Clone, Copy, Debug, PartialEq, Eq, Structural)]
pub enum RequestOrder {
    Sequential,
    Random,
}

/// The shape of the delay between two dispatches.
#[derive(Clone, Copy, Debug, PartialEq, Eq, Structural)]
pub enum DelayDistribution {
    Constant,
    Uniform,
    NegativeExponential,
}

/// What `str::to_uppercase` returns for `text`.
pub uninterp spec fn uppercase_of(text: Seq<char>) -> Seq<char>;

/// Calls `str::to_uppercase`. Not proved: that the result is the one the name
/// `uppercase_of` stands for, which says no more than that the upper case of
/// a string depends on the string alone.
#[verifier::external_body]
fn uppercase(text: &str) -> (upper: String)
    ensures
        upper@ == uppercase_of(text@),
{
    text.to_uppercase()
}

/// Whether two strings hold the same characters.
fn same_text(left: &str, right: &str) -> (same: bool)
    ensures
        same == (left@ == right@),
{
    left.to_owned() == right.to_owned()
}

impl HttpMethod {
    /// The method that an upper-case name stands for.
    pub open spec fn named(upper: Seq<char>) -> Option<HttpMethod> {
        if upper == "GET"@ {
            Some(HttpMethod::Get)
        } else if upper == "POST"@ {
            Some(HttpMethod::Post)
        } else if upper == "PUT"@ {
            Some(HttpMethod::Put)
        } else {
            None
        }
    }

    /// Whether requests of this method carry a payload.
    pub open spec fn needs_payload(self) -> bool {
        self == HttpMethod::Post || self == HttpMethod::Put
    }

    /// Reads a method from its name in upper case.
    pub fn from_uppercase(upper: &str) -> (method: Result<HttpMethod, ()>)
        ensures
            method == match HttpMethod::named(upper@) {
                Some(known) => Ok::<HttpMethod, ()>(known),
                None => Err::<HttpMethod, ()>(()),
            },
    {
        if same_text(upper, "GET") {
            Ok(HttpMethod::Get)
        } else if same_text(upper, "POST") {
            Ok(HttpMethod::Post)
        } else if same_text(upper, "PUT") {
            Ok(HttpMethod::Put)
        } else {
            Err(())
        }
    }

    /// Reads a method from its name, whatever the case of its letters.
    pub fn from_str(name: &str) -> (method: Result<HttpMethod, ()>)
        ensures
            method == match HttpMethod::named(uppercase_of(name@)) {
                Some(known) => Ok::<HttpMethod, ()>(known),
                None => Err::<HttpMethod, ()>(()),
            },
    {
        let upper = uppercase(name);
        HttpMethod::from_uppercase(upper.as_str())
    }
}

impl RequestOrder {
    /// The order that a flag's value stands for: `s` is sequential, anything
    /// else random.
    pub open spec fn flagged(flag: Seq<char>) -> RequestOrder {
        if flag == "s"@ {
            RequestOrder::Sequential
        } else {
            RequestOrder::Random
        }
    }

    /// Reads the order from the flag's value.
    pub fn from_flag(flag: &str) -> (order: RequestOrder)
        ensures
            order == RequestOrder::flagged(flag@),
    {
        if same_text(flag, "s") {
            RequestOrder::Sequential
        } else {
            RequestOrder::Random
        }
    }
}

impl DelayDistribution {
    /// The distribution that a flag's value stands for: `u` is uniform, `ne`
    /// negative exponential, anything else constant.
    pub open spec fn flagged(flag: Seq<char>) -> DelayDistribution {
        if flag == "u"@ {
            DelayDistribution::Uniform
        } else if flag == "ne"@ {
            DelayDistribution::NegativeExponential
        } else {
            DelayDistribution::Constant
        }
    }

    /// Reads the distribution from the flag's value.
    pub fn from_flag(flag: &str) -> (distribution: DelayDistribution)
        ensures
            distribution == DelayDistribution::flagged(flag@),
    {
        if same_text(flag, "u") {
            DelayDistribution::Uniform
        } else if same_text(flag, "ne") {
            DelayDistribution::NegativeExponential
        } else {
            DelayDistribution::Constant
        }
    }
}

/// The payload rule: POST and PUT need at least one payload, GET needs none.
pub fn check_payloads(method: HttpMethod, payloads: &Vec<String>) -> (checked: Result<
    (),
    ConfigError,
>)
    ensures
        method.needs_payload() && payloads@.len() == 0 ==> checked matches Err(
            ConfigError::MissingPayloads,
        ),
        !method.needs_payload() || payloads@.len() > 0 ==> checked is Ok,
{
    match method {
        HttpMethod::Get => Ok(()),
        _ => if payloads.len() == 0 {
            Err(ConfigError::MissingPayloads)
        } else {
            Ok(())
        },
    }
}

/// The values of the command line, with the lines of the files it names.
#[derive(Clone, Debug, PartialEq, Eq)]
pub struct CommandLine {
    /// Number of workers.
    pub concurrency: u16,
    /// Number of requests.
    pub requests: usize,
    /// Value of the order flag.
    pub order: String,
    /// Delay between two dispatches, in milliseconds.
    pub delay_ms: u32,
    /// Value of the delay distribution flag.
    pub delay_distrib: String,
    /// Bits of the percentile above which a request is reported as slow.
    pub slow_percentile_bits: Option<u64>,
    /// Name of the HTTP method.
    pub http_method: String,
    /// Prefix to resolve the candidate URLs against.
    pub url_prefix: Option<String>,
    /// Lines of the URL file, where one was named.
    pub url_file_lines: Option<Vec<String>>,
    /// URLs given inline.
    pub args_urls: Option<Vec<String>>,
    /// Lines of the payload file, where one was named.
    pub payload_lines: Option<Vec<String>>,
}

/// The parameters of a run.
#[derive(Clone, Debug, PartialEq, Eq)]
pub struct Config {
    pub concurrency: u16,
    pub requests: usize,
    pub order: RequestOrder,
    pub delay_ms: u32,
    pub delay_distrib: DelayDistribution,
    /// Bits of the percentile, as `f64::to_bits` gives them; carried through
    /// as they came.
    pub slow_percentile_bits: Option<u64>,
    pub http_method: HttpMethod,
}

/// A plan with its targets: all that the dispatch of a run needs.
#[derive(Clone, Debug, PartialEq, Eq)]
pub struct LoadTestContext {
    pub config: Config,
    /// The URL set, in the candidates' order.
    pub urls: Vec<String>,
    /// One payload per line of the payload file; empty where none was named.
    pub payloads: Vec<String>,
    /// The candidates that were kept unresolved.
    pub warnings: Vec<UrlWarning>,
}

impl Default for CommandLine {
    /// The command line on which no flag was given: ten workers, a hundred
    /// requests in random order, no delay and a constant distribution, GET,
    /// and neither URLs nor files.
    fn default() -> (cmdline: CommandLine)
        ensures
            cmdline.concurrency == 10,
            cmdline.requests == 100,
            cmdline.order@ == "r"@,
            RequestOrder::flagged(cmdline.order@) == RequestOrder::Random,
            cmdline.delay_ms == 0,
            cmdline.delay_distrib@ == "c"@,
            DelayDistribution::flagged(cmdline.delay_distrib@) == DelayDistribution::Constant,
            cmdline.slow_percentile_bits is None,
            cmdline.http_method@ == "GET"@,
            HttpMethod::named(cmdline.http_method@) == Some(HttpMethod::Get),
            cmdline.url_prefix is None,
            cmdline.url_file_lines is None,
            cmdline.args_urls is None,
            cmdline.payload_lines is None,
    {
        proof {
            reveal_strlit("r");
            reveal_strlit("s");
            reveal_strlit("c");
            reveal_strlit("u");
            reveal_strlit("ne");
            assert("r"@[0] != "s"@[0]);
            assert("c"@[0] != "u"@[0]);
            assert("c"@.len() != "ne"@.len());
        }
        CommandLine {
            concurrency: 10,
            requests: 100,
            order: "r".to_owned(),
            delay_ms: 0,
            delay_distrib: "c".to_owned(),
            slow_percentile_bits: None,
            http_method: "GET".to_owned(),
            url_prefix: None,
            url_file_lines: None,
            args_urls: None,
            payload_lines: None,
        }
    }
}

impl CommandLine {
    /// The prefix as contracts see it.
    pub open spec fn prefix(&self) -> Option<Seq<char>> {
        match self.url_prefix {
            Some(prefix) => Some(prefix@),
            None => None,
        }
    }

    /// The candidate URLs, where exactly one source was supplied.
    pub open spec fn candidates(&self) -> Option<Seq<Seq<char>>> {
        candidates_of(self.url_file_lines, self.args_urls)
    }

    /// The method that the command line names.
    pub open spec fn method(&self) -> Option<HttpMethod> {
        HttpMethod::named(uppercase_of(self.http_method@))
    }

    /// The payloads: the lines of the payload file, none without a file.
    pub open spec fn payloads(&self) -> Seq<Seq<char>> {
        match self.payload_lines {
            Some(lines) => texts(lines@),
            None => Seq::empty(),
        }
    }

    /// Whether the method needs a payload and there is none.
    pub open spec fn payloads_missing(&self) -> bool {
        self.method() matches Some(method) && method.needs_payload() && self.payloads().len() == 0
    }

    /// The scalar parameters that the command line asks for.
    pub open spec fn plan(&self) -> Config {
        Config {
            concurrency: self.concurrency,
            requests: self.requests,
            order: RequestOrder::flagged(self.order@),
            delay_ms: self.delay_ms,
            delay_distrib: DelayDistribution::flagged(self.delay_distrib@),
            slow_percentile_bits: self.slow_percentile_bits,
            http_method: self.method().unwrap(),
        }
    }
}

impl Config {
    /// Builds the plan and its targets from the command line, or says what
    /// is wrong with it. The rules are tried in this order: the URL sources,
    /// the method, the payloads. A plan is built exactly when all of them
    /// hold, and then POST and PUT have at least one payload. The prefix
    /// fails no rule: what it cannot resolve is kept and reported.
    pub fn from_cmdline(cmdline: CommandLine) -> (outcome: Result<LoadTestContext, ConfigError>)
        ensures
            cmdline.url_file_lines is Some && inline_supplied(cmdline.args_urls)
                ==> outcome matches Err(ConfigError::ConflictingUrlSources),
            cmdline.url_file_lines is None && !inline_supplied(cmdline.args_urls)
                ==> outcome matches Err(ConfigError::MissingUrlSource),
            cmdline.candidates() is Some && cmdline.method() is None ==> outcome matches Err(
                ConfigError::UnsupportedMethod,
            ),
            cmdline.candidates() is Some && cmdline.method() is Some && cmdline.payloads_missing()
                ==> outcome matches Err(ConfigError::MissingPayloads),
            cmdline.candidates() is Some && cmdline.method() is Some && !cmdline.payloads_missing()
                ==> match outcome {
                Ok(context) => {
                    let candidates = cmdline.candidates().unwrap();
                    &&& context.config == cmdline.plan()
                    &&& texts(context.urls@) == url_set(cmdline.prefix(), candidates)
                    &&& warning_models(context.warnings@) == url_warnings(
                        cmdline.prefix(),
                        candidates,
                    )
                    &&& texts(context.payloads@) == cmdline.payloads()
                    &&& context.config.http_method.needs_payload() ==> context.payloads@.len() > 0
                },
                Err(_) => false,
            },
    {
        let CommandLine {
            concurrency,
            requests,
            order,
            delay_ms,
            delay_distrib,
            slow_percentile_bits,
            http_method,
            url_prefix,
            url_file_lines,
            args_urls,
            payload_lines,
        } = cmdline;
        let prefix: Option<&str> = match &url_prefix {
            Some(text) => Some(text.as_str()),
            None => None,
        };
        let (urls, warnings) = match load_urls(prefix, url_file_lines, args_urls) {
            Ok(loaded) => loaded,
            Err(error) => {
                return Err(error);
            },
        };
        let method = match HttpMethod::from_str(http_method.as_str()) {
            Ok(method) => method,
            Err(_) => {
                return Err(ConfigError::UnsupportedMethod);
            },
        };
        let payloads: Vec<String> = match payload_lines {
            Some(lines) => lines,
            None => Vec::new(),
        };
        proof {
            assert(texts(payloads@) =~= cmdline.payloads());
        }
        match check_payloads(method, &payloads) {
            Ok(_) => {},
            Err(error) => {
                return Err(error);
            },
        }
        let config = Config {
            concurrency,
            requests,
            order: RequestOrder::from_flag(order.as_str()),
            delay_ms,
            delay_distrib: DelayDistribution::from_flag(delay_distrib.as_str()),
            slow_percentile_bits,
            http_method: method,
        };
        Ok(LoadTestContext { config, urls, payloads, warnings })
    }
}

} // verus!
