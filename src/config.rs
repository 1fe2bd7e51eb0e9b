//! Layered node configuration: compiled defaults, the configuration file, the
//! values derived from the data directory and environment variables, merged
//! field by field with the later layer winning.

use vstd::prelude::*;

use crate::env::{env_layer, env_layer_spec, env_value, vars_view};
use crate::paths::{blobs_dir_path, database_url, database_url_for, joined};
use crate::toml_doc::{
    entry, field_model, parse_toml_table, table_field, table_fields, toml_parse_of, FieldModel,
    FieldValue,
};

verus! {

/// The fields of a node configuration, used to say which one failed.
#[derive(Debug, Clone, Copy, PartialEq, Eq, Structural)]
pub enum ConfigField {
    DatabaseUrl,
    BlobsBasePath,
    HttpPort,
    QuicPort,
}

/// Why a merged configuration could not be resolved.
#[derive(Debug, Clone, Copy, PartialEq, Eq, Structural)]
pub enum ConfigError {
    /// No layer supplied the field.
    Missing(ConfigField),
    /// The configuration file or an environment variable gives the field a
    /// value of the wrong kind or out of range.
    InvalidValue(ConfigField),
    /// The configuration file is not a TOML document.
    Parse,
}

/// One configuration source: each field is either given or left to the layers
/// below it.
#[derive(Debug)]
pub struct ConfigLayer {
    pub database_url: Option<String>,
    pub blobs_base_path: Option<String>,
    pub http_port: Option<u16>,
    pub quic_port: Option<u16>,
}

/// The mathematical content of a `ConfigLayer`.
pub struct LayerModel {
    pub database_url: Option<Seq<char>>,
    pub blobs_base_path: Option<Seq<char>>,
    pub http_port: Option<u16>,
    pub quic_port: Option<u16>,
}

/// A fully resolved node configuration.
#[derive(Debug)]
pub struct NodeConfig {
    pub database_url: String,
    pub blobs_base_path: String,
    pub http_port: u16,
    pub quic_port: u16,
}

/// The mathematical content of a `NodeConfig`.
pub struct ConfigModel {
    pub database_url: Seq<char>,
    pub blobs_base_path: Seq<char>,
    pub http_port: u16,
    pub quic_port: u16,
}

pub open spec fn opt_view(o: Option<String>) -> Option<Seq<char>> {
    match o {
        Some(s) => Some(s@),
        None => None,
    }
}

impl View for ConfigLayer {
    type V = LayerModel;

    open spec fn view(&self) -> LayerModel {
        LayerModel {
            database_url: opt_view(self.database_url),
            blobs_base_path: opt_view(self.blobs_base_path),
            http_port: self.http_port,
            quic_port: self.quic_port,
        }
    }
}

impl View for NodeConfig {
    type V = ConfigModel;

    open spec fn view(&self) -> ConfigModel {
        ConfigModel {
            database_url: self.database_url@,
            blobs_base_path: self.blobs_base_path@,
            http_port: self.http_port,
            quic_port: self.quic_port,
        }
    }
}

pub open spec fn result_view(r: Result<NodeConfig, ConfigError>) -> Result<ConfigModel, ConfigError> {
    match r {
        Ok(c) => Ok(c@),
        Err(e) => Err(e),
    }
}

/// The value of `over` where it has one, else that of `base`.
pub open spec fn pick<T>(base: Option<T>, over: Option<T>) -> Option<T> {
    if over is Some {
        over
    } else {
        base
    }
}

/// `over` laid on top of `base`, field by field.
pub open spec fn merge_spec(base: LayerModel, over: LayerModel) -> LayerModel {
    LayerModel {
        database_url: pick(base.database_url, over.database_url),
        blobs_base_path: pick(base.blobs_base_path, over.blobs_base_path),
        http_port: pick(base.http_port, over.http_port),
        quic_port: pick(base.quic_port, over.quic_port),
    }
}

/// The layer that the data directory dictates: database and blob locations.
pub open spec fn derived_spec(dir: Seq<char>) -> LayerModel {
    LayerModel {
        database_url: Some(database_url_for(dir)),
        blobs_base_path: Some(joined(dir, "blobs"@)),
        http_port: None,
        quic_port: None,
    }
}

/// A merged layer turned into a configuration, or the first missing field.
pub open spec fn finish_spec(l: LayerModel) -> Result<ConfigModel, ConfigError> {
    if l.database_url is None {
        Err(ConfigError::Missing(ConfigField::DatabaseUrl))
    } else if l.blobs_base_path is None {
        Err(ConfigError::Missing(ConfigField::BlobsBasePath))
    } else if l.http_port is None {
        Err(ConfigError::Missing(ConfigField::HttpPort))
    } else if l.quic_port is None {
        Err(ConfigError::Missing(ConfigField::QuicPort))
    } else {
        Ok(
            ConfigModel {
                database_url: l.database_url.unwrap(),
                blobs_base_path: l.blobs_base_path.unwrap(),
                http_port: l.http_port.unwrap(),
                quic_port: l.quic_port.unwrap(),
            },
        )
    }
}

/// Lays `over` on top of `base`: each field given in `over` wins.
pub fn merge_layers(base: ConfigLayer, over: ConfigLayer) -> (r: ConfigLayer)
    ensures
        r@ == merge_spec(base@, over@),
{
    ConfigLayer {
        database_url: match over.database_url {
            Some(v) => Some(v),
            None => base.database_url,
        },
        blobs_base_path: match over.blobs_base_path {
            Some(v) => Some(v),
            None => base.blobs_base_path,
        },
        http_port: match over.http_port {
            Some(v) => Some(v),
            None => base.http_port,
        },
        quic_port: match over.quic_port {
            Some(v) => Some(v),
            None => base.quic_port,
        },
    }
}

/// The layer that places the database and the blobs inside `data_dir`.
pub fn derived_layer(data_dir: &str) -> (r: ConfigLayer)
    ensures
        r@ == derived_spec(data_dir@),
{
    ConfigLayer {
        database_url: Some(database_url(data_dir)),
        blobs_base_path: Some(blobs_dir_path(data_dir)),
        http_port: None,
        quic_port: None,
    }
}

/// Turns a merged layer into a configuration, naming the first missing field.
pub fn finish_config(l: ConfigLayer) -> (r: Result<NodeConfig, ConfigError>)
    ensures
        result_view(r) == finish_spec(l@),
{
    let database_url = match l.database_url {
        Some(v) => v,
        None => return Err(ConfigError::Missing(ConfigField::DatabaseUrl)),
    };
    let blobs_base_path = match l.blobs_base_path {
        Some(v) => v,
        None => return Err(ConfigError::Missing(ConfigField::BlobsBasePath)),
    };
    let http_port = match l.http_port {
        Some(v) => v,
        None => return Err(ConfigError::Missing(ConfigField::HttpPort)),
    };
    let quic_port = match l.quic_port {
        Some(v) => v,
        None => return Err(ConfigError::Missing(ConfigField::QuicPort)),
    };
    Ok(NodeConfig { database_url, blobs_base_path, http_port, quic_port })
}

/// The configuration that the four layers give, lowest precedence first:
/// defaults, file, data directory, environment.
pub open spec fn resolve_spec(
    defaults: LayerModel,
    file: LayerModel,
    dir: Seq<char>,
    vars: Seq<(Seq<char>, Seq<char>)>,
) -> Result<ConfigModel, ConfigError> {
    match env_layer_spec(vars) {
        Err(e) => Err(e),
        Ok(env) => finish_spec(
            merge_spec(merge_spec(merge_spec(defaults, file), derived_spec(dir)), env),
        ),
    }
}

/// Resolves the node configuration: the file's values over the compiled
/// defaults, the database and blob locations of `data_dir` over both, and the
/// environment variables `vars` over everything.
pub fn resolve_config(
    defaults: ConfigLayer,
    file: ConfigLayer,
    data_dir: &str,
    vars: &Vec<(String, String)>,
) -> (r: Result<NodeConfig, ConfigError>)
    ensures
        result_view(r) == resolve_spec(defaults@, file@, data_dir@, vars_view(vars@)),
{
    let env = match env_layer(vars) {
        Ok(l) => l,
        Err(e) => return Err(e),
    };
    let merged = merge_layers(defaults, file);
    let merged = merge_layers(merged, derived_layer(data_dir));
    let merged = merge_layers(merged, env);
    finish_config(merged)
}

/// The database location always comes from the data directory unless an
/// environment variable names another one, whatever the file says; and the
/// database and blob locations are never missing.
pub proof fn lemma_database_precedence(
    defaults: LayerModel,
    file: LayerModel,
    dir: Seq<char>,
    vars: Seq<(Seq<char>, Seq<char>)>,
)
    ensures
        match resolve_spec(defaults, file, dir, vars) {
            Ok(c) => c.database_url == (match env_value(vars, "database_url"@) {
                Some(v) => v,
                None => database_url_for(dir),
            }),
            Err(e) => e != ConfigError::Missing(ConfigField::DatabaseUrl) && e
                != ConfigError::Missing(ConfigField::BlobsBasePath),
        },
{
}

pub open spec fn layer_result_view(r: Result<ConfigLayer, ConfigError>) -> Result<LayerModel, ConfigError> {
    match r {
        Ok(l) => Ok(l@),
        Err(e) => Err(e),
    }
}

/// A text field of the configuration file: absent, a string, or an error.
pub open spec fn text_entry(v: Option<FieldModel>, field: ConfigField) -> Result<Option<Seq<char>>, ConfigError> {
    match v {
        None => Ok(None),
        Some(FieldModel::Text(s)) => Ok(Some(s)),
        Some(_) => Err(ConfigError::InvalidValue(field)),
    }
}

/// A port field of the configuration file: absent, an integer from 0 to
/// 65535, or an error.
pub open spec fn port_entry(v: Option<FieldModel>, field: ConfigField) -> Result<Option<u16>, ConfigError> {
    match v {
        None => Ok(None),
        Some(FieldModel::Integer(i)) => if 0 <= i <= 65535 {
            Ok(Some(i as u16))
        } else {
            Err(ConfigError::InvalidValue(field))
        },
        Some(_) => Err(ConfigError::InvalidValue(field)),
    }
}

/// The layer that the entries of a configuration file give. Entries this
/// library does not know are ignored; the first field of a wrong kind is an
/// error.
pub open spec fn file_layer_spec(fields: Map<Seq<char>, FieldModel>) -> Result<LayerModel, ConfigError> {
    let db = text_entry(entry(fields, "database_url"@), ConfigField::DatabaseUrl);
    let blobs = text_entry(entry(fields, "blobs_base_path"@), ConfigField::BlobsBasePath);
    let http = port_entry(entry(fields, "http_port"@), ConfigField::HttpPort);
    let quic = port_entry(entry(fields, "quic_port"@), ConfigField::QuicPort);
    if db is Err {
        Err(db->Err_0)
    } else if blobs is Err {
        Err(blobs->Err_0)
    } else if http is Err {
        Err(http->Err_0)
    } else if quic is Err {
        Err(quic->Err_0)
    } else {
        Ok(
            LayerModel {
                database_url: db->Ok_0,
                blobs_base_path: blobs->Ok_0,
                http_port: http->Ok_0,
                quic_port: quic->Ok_0,
            },
        )
    }
}

/// The layer of a configuration file's text.
pub open spec fn file_text_spec(text: Seq<char>) -> Result<LayerModel, ConfigError> {
    match toml_parse_of(text) {
        None => Err(ConfigError::Parse),
        Some(fields) => file_layer_spec(fields),
    }
}

fn text_field(v: FieldValue, field: ConfigField) -> (r: Result<Option<String>, ConfigError>)
    ensures
        match r {
            Ok(o) => text_entry(field_model(v), field) == Ok::<Option<Seq<char>>, ConfigError>(
                opt_view(o),
            ),
            Err(e) => text_entry(field_model(v), field) == Err::<Option<Seq<char>>, ConfigError>(
                e,
            ),
        },
{
    match v {
        FieldValue::Absent => Ok(None),
        FieldValue::Text(s) => Ok(Some(s)),
        _ => Err(ConfigError::InvalidValue(field)),
    }
}

fn port_field(v: FieldValue, field: ConfigField) -> (r: Result<Option<u16>, ConfigError>)
    ensures
        r == port_entry(field_model(v), field),
{
    match v {
        FieldValue::Absent => Ok(None),
        FieldValue::Integer(i) => if 0 <= i && i <= 65535 {
            Ok(Some(i as u16))
        } else {
            Err(ConfigError::InvalidValue(field))
        },
        _ => Err(ConfigError::InvalidValue(field)),
    }
}

/// The layer that the entries of a parsed configuration file give.
pub fn layer_from_table(t: &toml::Table) -> (r: Result<ConfigLayer, ConfigError>)
    ensures
        layer_result_view(r) == file_layer_spec(table_fields(*t)),
{
    let db = text_field(table_field(t, "database_url"), ConfigField::DatabaseUrl);
    let blobs = text_field(table_field(t, "blobs_base_path"), ConfigField::BlobsBasePath);
    let http = port_field(table_field(t, "http_port"), ConfigField::HttpPort);
    let quic = port_field(table_field(t, "quic_port"), ConfigField::QuicPort);
    let database_url = match db {
        Ok(v) => v,
        Err(e) => return Err(e),
    };
    let blobs_base_path = match blobs {
        Ok(v) => v,
        Err(e) => return Err(e),
    };
    let http_port = match http {
        Ok(v) => v,
        Err(e) => return Err(e),
    };
    let quic_port = match quic {
        Ok(v) => v,
        Err(e) => return Err(e),
    };
    Ok(ConfigLayer { database_url, blobs_base_path, http_port, quic_port })
}

/// The layer that the text of a configuration file gives.
pub fn file_layer(text: &str) -> (r: Result<ConfigLayer, ConfigError>)
    ensures
        layer_result_view(r) == file_text_spec(text@),
{
    match parse_toml_table(text) {
        Ok(t) => layer_from_table(&t),
        Err(_) => Err(ConfigError::Parse),
    }
}

/// The configuration that the defaults, the configuration file's text, the
/// data directory and the environment give together.
pub open spec fn load_spec(
    defaults: LayerModel,
    text: Seq<char>,
    dir: Seq<char>,
    vars: Seq<(Seq<char>, Seq<char>)>,
) -> Result<ConfigModel, ConfigError> {
    match file_text_spec(text) {
        Err(e) => Err(e),
        Ok(file) => resolve_spec(defaults, file, dir, vars),
    }
}

/// Loads the node configuration from the text of the configuration file,
/// layered over `defaults`, with the data directory's locations and then the
/// environment variables `vars` on top.
pub fn load_config(
    defaults: ConfigLayer,
    file_text: &str,
    data_dir: &str,
    vars: &Vec<(String, String)>,
) -> (r: Result<NodeConfig, ConfigError>)
    ensures
        result_view(r) == load_spec(defaults@, file_text@, data_dir@, vars_view(vars@)),
{
    let file = match file_layer(file_text) {
        Ok(l) => l,
        Err(e) => return Err(e),
    };
    resolve_config(defaults, file, data_dir, vars)
}

/// Port of the node's HTTP API unless configured otherwise.
pub const DEFAULT_HTTP_PORT: u16 = 2020;

/// Port of the node's QUIC transport unless configured otherwise.
pub const DEFAULT_QUIC_PORT: u16 = 2022;

/// The compiled-in defaults: the two ports; the locations always come from
/// the data directory.
pub fn default_layer() -> (r: ConfigLayer)
    ensures
        r@ == (LayerModel {
            database_url: None,
            blobs_base_path: None,
            http_port: Some(DEFAULT_HTTP_PORT),
            quic_port: Some(DEFAULT_QUIC_PORT),
        }),
{
    ConfigLayer {
        database_url: None,
        blobs_base_path: None,
        http_port: Some(DEFAULT_HTTP_PORT),
        quic_port: Some(DEFAULT_QUIC_PORT),
    }
}

/// The configuration file's contents after provisioning, and whether the
/// bundled default had to be copied into place.
pub open spec fn provision_spec(existing: Option<Seq<u8>>, bundled: Seq<u8>) -> (Seq<u8>, bool) {
    match existing {
        Some(c) => (c, false),
        None => (bundled, true),
    }
}

/// Result of provisioning the configuration file.
pub struct Provisioned {
    /// The contents the configuration file holds afterwards.
    pub contents: Vec<u8>,
    /// Whether the bundled default was copied into place.
    pub copied: bool,
}

/// Decides the configuration file's contents on start-up: an existing file is
/// kept as it is; a missing one is seeded verbatim from the bundled default.
pub fn provision_config(existing: Option<Vec<u8>>, bundled: &Vec<u8>) -> (r: Provisioned)
    ensures
        (r.contents@, r.copied) == provision_spec(
            match existing {
                Some(c) => Some(c@),
                None => None,
            },
            bundled@,
        ),
{
    match existing {
        Some(c) => Provisioned { contents: c, copied: false },
        None => {
            let mut contents: Vec<u8> = Vec::new();
            let mut i: usize = 0;
            while i < bundled.len()
                invariant
                    i <= bundled.len(),
                    contents@ == bundled@.subrange(0, i as int),
                decreases bundled.len() - i,
            {
                contents.push(bundled[i]);
                i = i + 1;
            }
            assert(contents@ =~= bundled@);
            Provisioned { contents, copied: true }
        },
    }
}

/// Provisioning is idempotent: an existing file, whatever it holds, is kept
/// byte for byte and nothing is copied; a missing one receives a verbatim copy
/// of the bundled default; and once seeded, provisioning again keeps
/// byte-identical contents and copies nothing.
pub proof fn lemma_provision_idempotent(existing: Option<Seq<u8>>, bundled: Seq<u8>)
    ensures
        existing is Some ==> provision_spec(existing, bundled) == (existing->Some_0, false),
        existing is None ==> provision_spec(existing, bundled) == (bundled, true),
        provision_spec(Some(provision_spec(existing, bundled).0), bundled) == (
            provision_spec(existing, bundled).0,
            false,
        ),
{
}

} // verus!
