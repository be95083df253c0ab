//! The gateway's configuration, as read from the environment.
//!
//! `GITHUB_TOKEN`, `KAFKA_BROKER_LIST` and `KAFKA_TOPIC` are required;
//! `KAFKA_TP_TOPIC` defaults to `time_spent` and `XT_DOC_URL` to the empty
//! text; the backend settings are optional.  The program reads the variables
//! and hands their values to [`ConfigEnv::from_vars`]; everything that reads
//! the configuration takes it as an argument.

use vstd::prelude::*;

verus! {

broadcast use vstd::string::group_string_axioms;

/// The gateway's configuration.
pub struct ConfigEnv {
    pub backend_host: Option<String>,
    pub backend_port: Option<String>,
    pub backend_api_token: Option<String>,
    pub github_token: String,
    pub kafka_broker_list: String,
    pub kafka_topic: String,
    pub time_spent_topic: String,
    pub xt_doc_url: String,
}

/// A required setting that is missing.
#[derive(Debug, PartialEq, Eq, Structural)]
pub enum ConfigError {
    MissingGithubToken,
    MissingKafkaBrokerList,
    MissingKafkaTopic,
}

impl ConfigError {
    /// The message that explains the error to the operator.
    pub fn message(&self) -> (r: &'static str)
        ensures
            *self == ConfigError::MissingGithubToken ==> r@
                == "GITHUB_TOKEN is required, please provide it by env variable GITHUB_TOKEN"@,
            *self == ConfigError::MissingKafkaBrokerList ==> r@
                == "KAFKA_BROKER_LIST is required, please provide it by env variable KAFKA_BROKER_LIST like localhost:9092"@,
            *self == ConfigError::MissingKafkaTopic ==> r@
                == "KAFKA_TOPIC is required, please provide it by env variable KAFKA_TOPIC"@,
    {
        match self {
            ConfigError::MissingGithubToken => "GITHUB_TOKEN is required, please provide it by env variable GITHUB_TOKEN",
            ConfigError::MissingKafkaBrokerList => "KAFKA_BROKER_LIST is required, please provide it by env variable KAFKA_BROKER_LIST like localhost:9092",
            ConfigError::MissingKafkaTopic => "KAFKA_TOPIC is required, please provide it by env variable KAFKA_TOPIC",
        }
    }
}

fn clone_opt(o: &Option<String>) -> (r: Option<String>)
    ensures
        r == *o,
{
    match o {
        Some(s) => Some(s.clone()),
        None => None,
    }
}

impl ConfigEnv {
    /// Builds the configuration from the values of the environment variables
    /// `GITHUB_TOKEN`, `KAFKA_BROKER_LIST`, `KAFKA_TOPIC`, `KAFKA_TP_TOPIC`,
    /// `XT_DOC_URL`, `BACKEND_HOST`, `BACKEND_PORT` and `BACKEND_API_TOKEN`
    /// (`None` for a variable that is not set).  The first missing required
    /// variable, in that order, is the error.
    pub fn from_vars(
        github_token: Option<String>,
        kafka_broker_list: Option<String>,
        kafka_topic: Option<String>,
        kafka_tp_topic: Option<String>,
        xt_doc_url: Option<String>,
        backend_host: Option<String>,
        backend_port: Option<String>,
        backend_api_token: Option<String>,
    ) -> (r: Result<ConfigEnv, ConfigError>)
        ensures
            github_token is None ==> r == Err::<ConfigEnv, ConfigError>(
                ConfigError::MissingGithubToken,
            ),
            github_token is Some && kafka_broker_list is None ==> r == Err::<ConfigEnv, ConfigError>(
                ConfigError::MissingKafkaBrokerList,
            ),
            github_token is Some && kafka_broker_list is Some && kafka_topic is None ==> r == Err::<
                ConfigEnv,
                ConfigError,
            >(ConfigError::MissingKafkaTopic),
            github_token is Some && kafka_broker_list is Some && kafka_topic is Some ==> r is Ok,
            r matches Ok(c) ==> {
                &&& c.github_token == github_token->Some_0
                &&& c.kafka_broker_list == kafka_broker_list->Some_0
                &&& c.kafka_topic == kafka_topic->Some_0
                &&& c.time_spent_topic@ == match kafka_tp_topic {
                    Some(t) => t@,
                    None => "time_spent"@,
                }
                &&& c.xt_doc_url@ == match xt_doc_url {
                    Some(u) => u@,
                    None => ""@,
                }
                &&& c.backend_host == backend_host
                &&& c.backend_port == backend_port
                &&& c.backend_api_token == backend_api_token
            },
    {
        let github_token = match github_token {
            Some(t) => t,
            None => return Err(ConfigError::MissingGithubToken),
        };
        let kafka_broker_list = match kafka_broker_list {
            Some(t) => t,
            None => return Err(ConfigError::MissingKafkaBrokerList),
        };
        let kafka_topic = match kafka_topic {
            Some(t) => t,
            None => return Err(ConfigError::MissingKafkaTopic),
        };
        let time_spent_topic = match kafka_tp_topic {
            Some(t) => t,
            None => "time_spent".to_string(),
        };
        let xt_doc_url = match xt_doc_url {
            Some(u) => u,
            None => "".to_string(),
        };
        Ok(
            ConfigEnv {
                backend_host,
                backend_port,
                backend_api_token,
                github_token,
                kafka_broker_list,
                kafka_topic,
                time_spent_topic,
                xt_doc_url,
            },
        )
    }
}

/// The backend API is to be called: host and port are configured and no API
/// token is.
pub open spec fn backend_api_enabled(config: &ConfigEnv) -> bool {
    config.backend_host is Some && config.backend_port is Some && config.backend_api_token is None
}

/// When the backend API is enabled, its address can be read: host and port
/// are both configured.
pub proof fn law_enabled_backend_has_address(config: &ConfigEnv)
    requires
        backend_api_enabled(config),
    ensures
        config.backend_host is Some,
        config.backend_port is Some,
{
}

/// Whether the backend API is to be called.
pub fn is_backend_api_enable(config: &ConfigEnv) -> (r: bool)
    ensures
        r == backend_api_enabled(config),
{
    config.backend_host.is_some() && config.backend_port.is_some()
        && config.backend_api_token.is_none()
}

/// The backend host, which must be configured.
pub fn get_backend_host(config: &ConfigEnv) -> (r: &str)
    requires
        config.backend_host is Some,
    ensures
        r@ == config.backend_host->Some_0@,
{
    config.backend_host.as_ref().unwrap().as_str()
}

/// The backend port, which must be configured.
pub fn get_backend_port(config: &ConfigEnv) -> (r: &str)
    requires
        config.backend_port is Some,
    ensures
        r@ == config.backend_port->Some_0@,
{
    config.backend_port.as_ref().unwrap().as_str()
}

/// The backend API token, if configured.
pub fn get_backend_api_token(config: &ConfigEnv) -> (r: Option<String>)
    ensures
        r == config.backend_api_token,
{
    clone_opt(&config.backend_api_token)
}

/// The GitHub token.
pub fn get_github_token(config: &ConfigEnv) -> (r: &str)
    ensures
        r@ == config.github_token@,
{
    config.github_token.as_str()
}

/// The Kafka broker list.
pub fn get_kafka_broker_list(config: &ConfigEnv) -> (r: &str)
    ensures
        r@ == config.kafka_broker_list@,
{
    config.kafka_broker_list.as_str()
}

/// The Kafka topic of time-spent messages.
pub fn get_kafka_time_spent_topic(config: &ConfigEnv) -> (r: &str)
    ensures
        r@ == config.time_spent_topic@,
{
    config.time_spent_topic.as_str()
}

/// The Kafka topic of tasks.
pub fn get_kafka_topic(config: &ConfigEnv) -> (r: &str)
    ensures
        r@ == config.kafka_topic@,
{
    config.kafka_topic.as_str()
}

/// The address of the documentation that error messages point to.
pub fn xt_doc_url(config: &ConfigEnv) -> (r: &str)
    ensures
        r@ == config.xt_doc_url@,
{
    config.xt_doc_url.as_str()
}

} // verus!
