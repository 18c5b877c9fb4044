use vstd::prelude::*;
use vstd::string::StringExecFns;
use crate::configuration::values::parse_number;
use crate::configuration::values::parse_unsigned;
use crate::configuration::values::push_decimal;
use crate::configuration::values::decimal;
use crate::configuration::values::split;
use crate::configuration::values::split_on;
use crate::configuration::values::texts;
use crate::error::Error;

pub mod values;

verus! {

/// The variable that holds the host to listen on.
pub const BIND_ADDR: &'static str = "BIND_ADDR";

/// The variable that holds the port to listen on, a decimal number below
/// 65536.
pub const BIND_PORT: &'static str = "BIND_PORT";

/// The variable that holds the address of the database.
pub const DATABASE_URL: &'static str = "DATABASE_URL";

/// The variable that holds the filter for what is logged.
pub const RUST_LOG: &'static str = "RUST_LOG";

/// The variable that says whether the log goes to a file: it does unless the
/// value is `0`.
pub const LOG_TO_FILE: &'static str = "LOG_TO_FILE";

/// The variable that holds the directory of the log files.
pub const LOG_DIRECTORY: &'static str = "LOG_DIRECTORY";

/// The variable that holds the name that the log files start with.
pub const LOG_PREFIX: &'static str = "LOG_PREFIX";

/// The variable that holds the capacity of the writer's queue, a decimal
/// number.
pub const WRITER_CHANNEL_BUFFER_SIZE: &'static str = "WRITER_CHANNEL_BUFFER_SIZE";

/// The variable that holds the origins that may call the service, with a
/// comma between one and the next.
pub const ALLOW_ORIGINS: &'static str = "ALLOW_ORIGINS";

/// The variable that holds the folder of the TLS files.
pub const TLS_PEM_FILES_FOLDER: &'static str = "TLS_PEM_FILES_FOLDER";

/// The variable that holds the name of the TLS certificate file.
pub const TLS_CERT_FILE_NAME: &'static str = "TLS_CERT_FILE_NAME";

/// The variable that holds the name of the TLS key file.
pub const TLS_KEY_FILE_NAME: &'static str = "TLS_KEY_FILE_NAME";

/// The environment as the configuration sees it: names and values, in the
/// order in which they are looked through.
pub open spec fn environment(vars: Seq<(String, String)>) -> Seq<(Seq<char>, Seq<char>)> {
    vars.map_values(|pair: (String, String)| (pair.0@, pair.1@))
}

/// The value of the first variable of the given name, if there is one.
pub open spec fn lookup(env: Seq<(Seq<char>, Seq<char>)>, name: Seq<char>) -> Option<Seq<char>>
    decreases env.len(),
{
    if env.len() == 0 {
        None
    } else if env[0].0 == name {
        Some(env[0].1)
    } else {
        lookup(env.drop_first(), name)
    }
}

/// The mathematical content of an [`AppConfig`].
pub struct AppConfigView {
    pub host: Seq<char>,
    pub port: u16,
    pub db_url: Seq<char>,
    pub log_filter: Seq<char>,
    pub log_to_file: bool,
    pub log_directory: Seq<char>,
    pub log_prefix: Seq<char>,
    pub writer_channel_buffer_size: usize,
    pub allow_origins: Seq<Seq<char>>,
    pub tls_pem_folder_name: Seq<char>,
    pub tls_cert_name: Seq<char>,
    pub tls_key_name: Seq<char>,
}

/// What a variable that must be there gives: its value, or the error that
/// names it.
pub open spec fn required(env: Seq<(Seq<char>, Seq<char>)>, name: &'static str) -> Result<
    Seq<char>,
    Error,
> {
    match lookup(env, name@) {
        Some(value) => Ok(value),
        None => Err(Error::ConfigMissingEnv(name)),
    }
}

/// What stands in the way of loading the configuration.
#[derive(Clone, Copy, Debug, PartialEq, Eq)]
pub enum Obstacle {
    /// The variable of this name is missing, and loading ends with the error
    /// that says so.
    Missing(&'static str),
    /// The variable of this name is missing though nothing can be loaded
    /// without it, or it should hold a number and does not. There is no
    /// loading from such an environment at all.
    Unusable(&'static str),
}

/// What a variable whose absence is reported has against the environment.
pub open spec fn reported(env: Seq<(Seq<char>, Seq<char>)>, name: &'static str) -> Option<
    Obstacle,
> {
    match lookup(env, name@) {
        Some(_) => None,
        None => Some(Obstacle::Missing(name)),
    }
}

/// What a variable that nothing can be loaded without has against the
/// environment.
pub open spec fn demanded(env: Seq<(Seq<char>, Seq<char>)>, name: &'static str) -> Option<
    Obstacle,
> {
    match lookup(env, name@) {
        Some(_) => None,
        None => Some(Obstacle::Unusable(name)),
    }
}

/// What a variable that must hold a decimal number of at most `max` has
/// against the environment: its absence is reported, and a value that is no
/// such number makes the environment unusable.
pub open spec fn reported_number(
    env: Seq<(Seq<char>, Seq<char>)>,
    name: &'static str,
    max: nat,
) -> Option<Obstacle> {
    match lookup(env, name@) {
        Some(value) => match parse_unsigned(value, max) {
            Some(_) => None,
            None => Some(Obstacle::Unusable(name)),
        },
        None => Some(Obstacle::Missing(name)),
    }
}

/// The first obstacle in a row, if there is one.
pub open spec fn first_obstacle(row: Seq<Option<Obstacle>>) -> Option<Obstacle>
    decreases row.len(),
{
    if row.len() == 0 {
        None
    } else if row[0] is Some {
        row[0]
    } else {
        first_obstacle(row.drop_first())
    }
}

/// What each variable has against the environment, in the order in which the
/// configuration reads them.
pub open spec fn obstacles(env: Seq<(Seq<char>, Seq<char>)>) -> Seq<Option<Obstacle>> {
    seq![
        reported(env, BIND_ADDR),
        reported_number(env, BIND_PORT, u16::MAX as nat),
        reported(env, DATABASE_URL),
        reported(env, RUST_LOG),
        demanded(env, LOG_TO_FILE),
        reported(env, LOG_DIRECTORY),
        reported(env, LOG_PREFIX),
        reported_number(env, WRITER_CHANNEL_BUFFER_SIZE, usize::MAX as nat),
        demanded(env, ALLOW_ORIGINS),
        reported(env, TLS_PEM_FILES_FOLDER),
        reported(env, TLS_CERT_FILE_NAME),
        reported(env, TLS_KEY_FILE_NAME),
    ]
}

/// What stands in the way of loading from an environment: the obstacle that
/// the reading meets first, if it meets one.
pub open spec fn obstacle_in(env: Seq<(Seq<char>, Seq<char>)>) -> Option<Obstacle> {
    first_obstacle(obstacles(env))
}

/// Whether the configuration can be loaded from an environment, be it with a
/// configuration or with an error as the result. It cannot where the first
/// obstacle is a variable that is unusable.
pub open spec fn loadable(env: Seq<(Seq<char>, Seq<char>)>) -> bool {
    match obstacle_in(env) {
        Some(Obstacle::Unusable(_)) => false,
        _ => true,
    }
}

/// The configuration that an environment without obstacles gives.
pub open spec fn configured(env: Seq<(Seq<char>, Seq<char>)>) -> AppConfigView {
    AppConfigView {
        host: lookup(env, BIND_ADDR@).unwrap(),
        port: parse_unsigned(lookup(env, BIND_PORT@).unwrap(), u16::MAX as nat).unwrap() as u16,
        db_url: lookup(env, DATABASE_URL@).unwrap(),
        log_filter: lookup(env, RUST_LOG@).unwrap(),
        log_to_file: lookup(env, LOG_TO_FILE@).unwrap() != seq!['0'],
        log_directory: lookup(env, LOG_DIRECTORY@).unwrap(),
        log_prefix: lookup(env, LOG_PREFIX@).unwrap(),
        writer_channel_buffer_size: parse_unsigned(
            lookup(env, WRITER_CHANNEL_BUFFER_SIZE@).unwrap(),
            usize::MAX as nat,
        ).unwrap() as usize,
        allow_origins: split(lookup(env, ALLOW_ORIGINS@).unwrap(), ','),
        tls_pem_folder_name: lookup(env, TLS_PEM_FILES_FOLDER@).unwrap(),
        tls_cert_name: lookup(env, TLS_CERT_FILE_NAME@).unwrap(),
        tls_key_name: lookup(env, TLS_KEY_FILE_NAME@).unwrap(),
    }
}

/// What loading the configuration from a loadable environment gives: the
/// configuration, or the error that names the first variable that is missing.
pub open spec fn loaded(env: Seq<(Seq<char>, Seq<char>)>) -> Result<AppConfigView, Error>
    recommends
        loadable(env),
{
    match obstacle_in(env) {
        Some(Obstacle::Missing(name)) => Err(Error::ConfigMissingEnv(name)),
        _ => Ok(configured(env)),
    }
}

/// Whether a variable is one of those whose absence ends the loading with an
/// error.
pub open spec fn is_reported(name: &'static str) -> bool {
    ||| name == BIND_ADDR
    ||| name == BIND_PORT
    ||| name == DATABASE_URL
    ||| name == RUST_LOG
    ||| name == LOG_DIRECTORY
    ||| name == LOG_PREFIX
    ||| name == WRITER_CHANNEL_BUFFER_SIZE
    ||| name == TLS_PEM_FILES_FOLDER
    ||| name == TLS_CERT_FILE_NAME
    ||| name == TLS_KEY_FILE_NAME
}

/// Loading fails in one way only: with the name of a variable that is missing
/// and whose absence is reported. That is never `LOG_TO_FILE` nor
/// `ALLOW_ORIGINS`.
pub proof fn lemma_only_missing_variables_fail(env: Seq<(Seq<char>, Seq<char>)>)
    requires
        loadable(env),
    ensures
        loaded(env) matches Err(Error::ConfigMissingEnv(name)) ==> {
            &&& is_reported(name)
            &&& lookup(env, name@) is None
            &&& name@ != LOG_TO_FILE@
            &&& name@ != ALLOW_ORIGINS@
        },
{
    reveal_with_fuel(first_obstacle, 13);
    reveal_strlit("BIND_ADDR");
    reveal_strlit("BIND_PORT");
    reveal_strlit("DATABASE_URL");
    reveal_strlit("RUST_LOG");
    reveal_strlit("LOG_TO_FILE");
    reveal_strlit("LOG_DIRECTORY");
    reveal_strlit("LOG_PREFIX");
    reveal_strlit("WRITER_CHANNEL_BUFFER_SIZE");
    reveal_strlit("ALLOW_ORIGINS");
    reveal_strlit("TLS_PEM_FILES_FOLDER");
    reveal_strlit("TLS_CERT_FILE_NAME");
    reveal_strlit("TLS_KEY_FILE_NAME");
    // the two variables that are never reported differ from each of the ten
    // that are, in length or in the first letter
    assert(LOG_TO_FILE@.len() == 11 && ALLOW_ORIGINS@.len() == 13);
    assert(LOG_DIRECTORY@[0] != ALLOW_ORIGINS@[0]);
}

/// Loading succeeds only where nothing stands in the way: every variable is
/// there, and the port and the size of the writer's queue are decimal numbers
/// that fit.
pub proof fn lemma_loaded_from_complete_environment(env: Seq<(Seq<char>, Seq<char>)>)
    requires
        loadable(env),
    ensures
        loaded(env) is Ok <==> obstacle_in(env) is None,
        loaded(env) is Ok ==> {
            &&& lookup(env, BIND_ADDR@) is Some
            &&& lookup(env, BIND_PORT@) is Some
            &&& parse_unsigned(lookup(env, BIND_PORT@).unwrap(), u16::MAX as nat) is Some
            &&& lookup(env, DATABASE_URL@) is Some
            &&& lookup(env, RUST_LOG@) is Some
            &&& lookup(env, LOG_TO_FILE@) is Some
            &&& lookup(env, LOG_DIRECTORY@) is Some
            &&& lookup(env, LOG_PREFIX@) is Some
            &&& lookup(env, WRITER_CHANNEL_BUFFER_SIZE@) is Some
            &&& parse_unsigned(
                lookup(env, WRITER_CHANNEL_BUFFER_SIZE@).unwrap(),
                usize::MAX as nat,
            ) is Some
            &&& lookup(env, ALLOW_ORIGINS@) is Some
            &&& lookup(env, TLS_PEM_FILES_FOLDER@) is Some
            &&& lookup(env, TLS_CERT_FILE_NAME@) is Some
            &&& lookup(env, TLS_KEY_FILE_NAME@) is Some
        },
{
    reveal_with_fuel(first_obstacle, 13);
}

/// The settings that the service is started with.
#[derive(Debug)]
pub struct AppConfig {
    host: String,
    port: u16,
    db_url: String,
    log_filter: String,
    log_to_file: bool,
    log_directory: String,
    log_prefix: String,
    writer_channel_buffer_size: usize,
    allow_origins: Vec<String>,
    tls_pem_folder_name: String,
    tls_cert_name: String,
    tls_key_name: String,
}

impl View for AppConfig {
    type V = AppConfigView;

    closed spec fn view(&self) -> AppConfigView {
        AppConfigView {
            host: self.host@,
            port: self.port,
            db_url: self.db_url@,
            log_filter: self.log_filter@,
            log_to_file: self.log_to_file,
            log_directory: self.log_directory@,
            log_prefix: self.log_prefix@,
            writer_channel_buffer_size: self.writer_channel_buffer_size,
            allow_origins: texts(self.allow_origins@),
            tls_pem_folder_name: self.tls_pem_folder_name@,
            tls_cert_name: self.tls_cert_name@,
            tls_key_name: self.tls_key_name@,
        }
    }
}

/// Looks a variable up by name.
pub fn get_env(vars: &Vec<(String, String)>, name: &'static str) -> (result: Result<String, Error>)
    ensures
        match result {
            Ok(value) => required(environment(vars@), name) == Ok::<Seq<char>, Error>(value@),
            Err(e) => required(environment(vars@), name) == Err::<Seq<char>, Error>(e),
        },
{
    let wanted = name.to_owned();
    let mut i: usize = 0;
    assert(environment(vars@).skip(0) =~= environment(vars@));
    while i < vars.len()
        invariant
            i <= vars.len(),
            wanted@ == name@,
            lookup(environment(vars@), name@) == lookup(environment(vars@).skip(i as int), name@),
        decreases vars.len() - i,
    {
        let ghost rest = environment(vars@).skip(i as int);
        assert(rest[0] == (vars@[i as int].0@, vars@[i as int].1@));
        assert(rest.drop_first() =~= environment(vars@).skip(i + 1));
        if vars[i].0 == wanted {
            return Ok(vars[i].1.clone());
        }
        i += 1;
    }
    Err(Error::ConfigMissingEnv(name))
}

/// Tells whether a variable whose absence is reported is missing.
fn check_reported(vars: &Vec<(String, String)>, name: &'static str) -> (found: Option<Obstacle>)
    ensures
        found == reported(environment(vars@), name),
{
    match get_env(vars, name) {
        Ok(_) => None,
        Err(_) => Some(Obstacle::Missing(name)),
    }
}

/// Tells whether a variable that nothing can be loaded without is missing.
fn check_demanded(vars: &Vec<(String, String)>, name: &'static str) -> (found: Option<Obstacle>)
    ensures
        found == demanded(environment(vars@), name),
{
    match get_env(vars, name) {
        Ok(_) => None,
        Err(_) => Some(Obstacle::Unusable(name)),
    }
}

/// Tells whether a variable that must hold a decimal number of at most `max`
/// is missing or holds something else.
fn check_number(vars: &Vec<(String, String)>, name: &'static str, max: u64) -> (found: Option<
    Obstacle,
>)
    ensures
        found == reported_number(environment(vars@), name, max as nat),
{
    match get_env(vars, name) {
        Ok(value) => match parse_number(value.as_str(), max) {
            Some(_) => None,
            None => Some(Obstacle::Unusable(name)),
        },
        Err(_) => Some(Obstacle::Missing(name)),
    }
}

/// Says what stands in the way of loading the configuration from the
/// variables given, if anything does.
///
/// The variables are looked at in the order in which the configuration reads
/// them, and the first one that is missing or unreadable is the answer. With
/// [`Obstacle::Unusable`] as the answer there is no loading from these
/// variables: [`app_config`] must not be called with them.
pub fn obstacle(vars: &Vec<(String, String)>) -> (found: Option<Obstacle>)
    ensures
        found == obstacle_in(environment(vars@)),
        loadable(environment(vars@)) <==> !(found matches Some(Obstacle::Unusable(_))),
{
    proof {
        reveal_with_fuel(first_obstacle, 13);
    }
    let found = check_reported(vars, BIND_ADDR);
    if found.is_some() {
        return found;
    }
    let found = check_number(vars, BIND_PORT, u16::MAX as u64);
    if found.is_some() {
        return found;
    }
    let found = check_reported(vars, DATABASE_URL);
    if found.is_some() {
        return found;
    }
    let found = check_reported(vars, RUST_LOG);
    if found.is_some() {
        return found;
    }
    let found = check_demanded(vars, LOG_TO_FILE);
    if found.is_some() {
        return found;
    }
    let found = check_reported(vars, LOG_DIRECTORY);
    if found.is_some() {
        return found;
    }
    let found = check_reported(vars, LOG_PREFIX);
    if found.is_some() {
        return found;
    }
    let found = check_number(vars, WRITER_CHANNEL_BUFFER_SIZE, usize::MAX as u64);
    if found.is_some() {
        return found;
    }
    let found = check_demanded(vars, ALLOW_ORIGINS);
    if found.is_some() {
        return found;
    }
    let found = check_reported(vars, TLS_PEM_FILES_FOLDER);
    if found.is_some() {
        return found;
    }
    let found = check_reported(vars, TLS_CERT_FILE_NAME);
    if found.is_some() {
        return found;
    }
    check_reported(vars, TLS_KEY_FILE_NAME)
}

impl AppConfig {
    /// Reads the configuration from the variables given.
    ///
    /// The variables are read in a fixed order, and the first one that is
    /// missing ends the reading with the error that names it. The variables
    /// must be loadable: the reading must not come to a number that cannot be
    /// read, nor find `LOG_TO_FILE` or `ALLOW_ORIGINS` missing.
    fn load_from_env(vars: &Vec<(String, String)>) -> (result: Result<AppConfig, Error>)
        requires
            loadable(environment(vars@)),
        ensures
            match result {
                Ok(config) => loaded(environment(vars@)) == Ok::<AppConfigView, Error>(config@),
                Err(e) => loaded(environment(vars@)) == Err::<AppConfigView, Error>(e),
            },
    {
        proof {
            reveal_with_fuel(first_obstacle, 13);
            reveal_strlit("0");
        }
        let host = get_env(vars, BIND_ADDR)?;
        let port = parse_number(get_env(vars, BIND_PORT)?.as_str(), u16::MAX as u64).unwrap() as u16;
        let db_url = get_env(vars, DATABASE_URL)?;
        let log_filter = get_env(vars, RUST_LOG)?;
        let log_to_file = get_env(vars, LOG_TO_FILE).unwrap() != "0".to_owned();
        let log_directory = get_env(vars, LOG_DIRECTORY)?;
        let log_prefix = get_env(vars, LOG_PREFIX)?;
        let writer_channel_buffer_size = parse_number(
            get_env(vars, WRITER_CHANNEL_BUFFER_SIZE)?.as_str(),
            usize::MAX as u64,
        ).unwrap() as usize;
        let allow_origins = split_on(get_env(vars, ALLOW_ORIGINS).unwrap().as_str(), ',');
        let tls_pem_folder_name = get_env(vars, TLS_PEM_FILES_FOLDER)?;
        let tls_cert_name = get_env(vars, TLS_CERT_FILE_NAME)?;
        let tls_key_name = get_env(vars, TLS_KEY_FILE_NAME)?;
        assert("0"@ =~= seq!['0']);
        Ok(
            AppConfig {
                host,
                port,
                db_url,
                log_filter,
                log_to_file,
                log_directory,
                log_prefix,
                writer_channel_buffer_size,
                allow_origins,
                tls_pem_folder_name,
                tls_cert_name,
                tls_key_name,
            },
        )
    }

    /// The address to listen on: the host, a colon, and the port in decimal.
    pub fn get_address(&self) -> (address: String)
        ensures
            address@ == self@.host + seq![':'] + decimal(self@.port as nat),
    {
        proof {
            reveal_strlit(":");
        }
        let mut address = self.host.clone();
        address.append(":");
        assert(":"@ =~= seq![':']);
        push_decimal(&mut address, self.port as u64);
        address
    }

    /// The address of the database.
    pub fn get_db_url(&self) -> (url: &str)
        ensures
            url@ == self@.db_url,
    {
        self.db_url.as_str()
    }

    /// The filter for what is logged.
    pub fn get_log_filter(&self) -> (filter: &str)
        ensures
            filter@ == self@.log_filter,
    {
        self.log_filter.as_str()
    }

    /// Whether the log goes to a file rather than to standard output.
    pub fn log_to_file(&self) -> (to_file: bool)
        ensures
            to_file == self@.log_to_file,
    {
        self.log_to_file
    }

    /// The directory of the log files.
    pub fn get_log_directory(&self) -> (directory: &str)
        ensures
            directory@ == self@.log_directory,
    {
        self.log_directory.as_str()
    }

    /// The name that the log files start with.
    pub fn get_log_prefix(&self) -> (prefix: &str)
        ensures
            prefix@ == self@.log_prefix,
    {
        self.log_prefix.as_str()
    }

    /// The capacity of the writer's queue.
    pub fn get_writer_channel_buffer_size(&self) -> (size: usize)
        ensures
            size == self@.writer_channel_buffer_size,
    {
        self.writer_channel_buffer_size
    }

    /// The origins that may call the service.
    pub fn get_allow_origins(&self) -> (origins: &Vec<String>)
        ensures
            texts(origins@) == self@.allow_origins,
    {
        &self.allow_origins
    }

    /// The folder of the TLS files.
    pub fn get_tls_pem_folder_name(&self) -> (name: &str)
        ensures
            name@ == self@.tls_pem_folder_name,
    {
        self.tls_pem_folder_name.as_str()
    }

    /// The name of the TLS certificate file.
    pub fn get_tls_cert_name(&self) -> (name: &str)
        ensures
            name@ == self@.tls_cert_name,
    {
        self.tls_cert_name.as_str()
    }

    /// The name of the TLS key file.
    pub fn get_tls_key_name(&self) -> (name: &str)
        ensures
            name@ == self@.tls_key_name,
    {
        self.tls_key_name.as_str()
    }
}

/// The configuration that the given environment variables describe, or the
/// error that names the first variable that is missing.
///
/// The variables must be loadable, which [`obstacle`] tells: there is no
/// loading where the port or the size of the writer's queue is not a decimal
/// number that fits, or where `LOG_TO_FILE` or `ALLOW_ORIGINS` is missing.
pub fn app_config(vars: &Vec<(String, String)>) -> (result: Result<AppConfig, Error>)
    requires
        loadable(environment(vars@)),
    ensures
        match result {
            Ok(config) => loaded(environment(vars@)) == Ok::<AppConfigView, Error>(config@),
            Err(e) => loaded(environment(vars@)) == Err::<AppConfigView, Error>(e),
        },
{
    AppConfig::load_from_env(vars)
}

} // verus!
