//! The configuration of the gateway and the choice of the driver that
//! feeds the catalog.

use crate::text::{joined, lowercase};
use crate::xds::{clone_texts, texts_view};
use vstd::prelude::*;

verus! {

/// The whole configuration.
#[derive(Debug)]
pub struct AppConfig {
    pub app: AppSection,
    pub log: LogSection,
    pub data_source: DataSourceSection,
}

/// Where the gateway listens, which driver it uses, and the admin key.
#[derive(Debug)]
pub struct AppSection {
    pub host: String,
    pub port: u16,
    pub data_source: String,
    pub api_key: String,
}

#[derive(Debug)]
pub struct LogSection {
    pub log_level: String,
    pub log_dir: String,
    pub log_name: String,
}

/// The settings of each driver that has any.
#[derive(Debug)]
pub struct DataSourceSection {
    pub mysql: Option<MySQLConfig>,
    pub etcd: Option<EtcdConfig>,
}

#[derive(Debug)]
pub struct MySQLConfig {
    pub url: String,
}

#[derive(Debug)]
pub struct EtcdConfig {
    pub endpoints: Vec<String>,
    pub username: String,
    pub password: String,
}

/// The settings that the command line can give.
#[derive(Debug)]
pub struct DynMcpArgs {
    pub addr: String,
    pub etcd_endpoints: Vec<String>,
    pub etcd_username: String,
    pub etcd_password: String,
    pub data_source: String,
    pub mysql_url: String,
}

impl DynMcpArgs {
    /// The settings where the command line gives none.
    pub fn defaults() -> (r: DynMcpArgs)
        ensures
            r.addr@ == "0.0.0.0:9999"@,
            texts_view(r.etcd_endpoints@) == seq!["http://localhost:2379"@],
            r.etcd_username@.len() == 0,
            r.etcd_password@.len() == 0,
            r.data_source@ == "mysql"@,
            r.mysql_url@.len() == 0,
    {
        let mut endpoints: Vec<String> = Vec::new();
        endpoints.push("http://localhost:2379".to_string());
        assert(texts_view(endpoints@) =~= seq!["http://localhost:2379"@]);
        DynMcpArgs {
            addr: "0.0.0.0:9999".to_string(),
            etcd_endpoints: endpoints,
            etcd_username: String::new(),
            etcd_password: String::new(),
            data_source: "mysql".to_string(),
            mysql_url: String::new(),
        }
    }
}

/// A driver that can feed the catalog.
#[derive(Debug, Clone, Copy, PartialEq, Eq, Structural)]
pub enum DataSourceFactory {
    Etcd,
    Mysql,
}

/// Why no driver could be set up.
#[derive(Debug, PartialEq, Eq)]
pub enum ConfigError {
    /// The configured driver is none that the gateway knows.
    UnknownDataSource(String),
    /// The etcd driver is chosen and has no settings.
    EtcdConfigMissing,
    /// The MySQL driver is chosen and has no settings.
    MysqlConfigMissing,
}

impl ConfigError {
    /// The text with which the error is reported.
    pub open spec fn spec_message(self) -> Seq<char> {
        match self {
            ConfigError::UnknownDataSource(s) => "Unknown data source type: "@ + s@,
            ConfigError::EtcdConfigMissing => "Etcd config not found"@,
            ConfigError::MysqlConfigMissing => "MySQL config not found"@,
        }
    }

    pub fn message(&self) -> (r: String)
        ensures
            r@ == self.spec_message(),
    {
        match self {
            ConfigError::UnknownDataSource(s) => joined("Unknown data source type: ", s.as_str()),
            ConfigError::EtcdConfigMissing => "Etcd config not found".to_string(),
            ConfigError::MysqlConfigMissing => "MySQL config not found".to_string(),
        }
    }
}

/// What the gateway is to connect to, with the settings for it.
#[derive(Debug, PartialEq, Eq)]
pub enum DataSourcePlan {
    Etcd { endpoints: Vec<String>, username: String, password: String },
    Mysql { url: String },
}

/// The driver that a name in lower case stands for.
pub open spec fn factory_named(lower: Seq<char>) -> Option<DataSourceFactory> {
    if lower == "etcd"@ {
        Some(DataSourceFactory::Etcd)
    } else if lower == "mysql"@ {
        Some(DataSourceFactory::Mysql)
    } else {
        None
    }
}

impl DataSourceFactory {
    /// The driver that `lower` names; `given` is the name as it was
    /// configured, for the report.
    pub fn from_lowercase(lower: &str, given: &str) -> (r: Result<DataSourceFactory, ConfigError>)
        ensures
            match r {
                Ok(f) => factory_named(lower@) == Some(f),
                Err(ConfigError::UnknownDataSource(s)) => factory_named(lower@) is None && s@
                    == given@,
                Err(_) => false,
            },
    {
        if *lower == *"etcd" {
            Ok(DataSourceFactory::Etcd)
        } else if *lower == *"mysql" {
            Ok(DataSourceFactory::Mysql)
        } else {
            Err(ConfigError::UnknownDataSource(given.to_string()))
        }
    }

    /// The driver that `s` names, whatever the case of its letters.
    pub fn from_str(s: &str) -> (r: Result<DataSourceFactory, ConfigError>)
        ensures
            match r {
                Ok(f) => factory_named(lowercase(s@)) == Some(f),
                Err(ConfigError::UnknownDataSource(given)) => factory_named(lowercase(s@)) is None
                    && given@ == s@,
                Err(_) => false,
            },
    {
        let lower = s.to_lowercase();
        DataSourceFactory::from_lowercase(lower.as_str(), s)
    }

    /// The driver that the configuration chooses, with the settings that
    /// the configuration has for it.
    pub fn build(config: &AppConfig) -> (r: Result<DataSourcePlan, ConfigError>)
        ensures
            match factory_named(lowercase(config.app.data_source@)) {
                None => r matches Err(ConfigError::UnknownDataSource(s)) && s@
                    == config.app.data_source@,
                Some(DataSourceFactory::Etcd) => match config.data_source.etcd {
                    None => r matches Err(ConfigError::EtcdConfigMissing),
                    Some(c) => r matches Ok(
                        DataSourcePlan::Etcd { endpoints, username, password },
                    ) && texts_view(endpoints@) == texts_view(c.endpoints@) && username@
                        == c.username@ && password@ == c.password@,
                },
                Some(DataSourceFactory::Mysql) => match config.data_source.mysql {
                    None => r matches Err(ConfigError::MysqlConfigMissing),
                    Some(c) => r matches Ok(DataSourcePlan::Mysql { url }) && url@ == c.url@,
                },
            },
    {
        match DataSourceFactory::from_str(config.app.data_source.as_str()) {
            Err(e) => Err(e),
            Ok(DataSourceFactory::Etcd) => match &config.data_source.etcd {
                None => Err(ConfigError::EtcdConfigMissing),
                Some(c) => Ok(
                    DataSourcePlan::Etcd {
                        endpoints: clone_texts(&c.endpoints),
                        username: c.username.clone(),
                        password: c.password.clone(),
                    },
                ),
            },
            Ok(DataSourceFactory::Mysql) => match &config.data_source.mysql {
                None => Err(ConfigError::MysqlConfigMissing),
                Some(c) => Ok(DataSourcePlan::Mysql { url: c.url.clone() }),
            },
        }
    }
}

} // verus!
