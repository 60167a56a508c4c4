//! Resolution of command-line flags into a validated server configuration.
use vstd::prelude::*;

verus! {

/// Severity threshold for diagnostics, from most to least verbose.
#[derive(Clone, Copy, Debug, PartialEq, Eq, Structural)]
pub enum LogLevel {
    Trace,
    Debug,
    Info,
    Warn,
    Error,
}

/// A device-discovery backend that the server can run.
#[derive(Clone, Copy, Debug, PartialEq, Eq, Structural)]
pub enum Backend {
    BluetoothLe,
    Serial,
    Hid,
    LovenseDongleSerial,
    LovenseDongleHid,
    XInput,
    LovenseConnect,
    WebsocketServerDevice,
}

/// Backends that stay off unless a flag asks for them.
pub open spec fn is_opt_in(b: Backend) -> bool {
    b == Backend::LovenseConnect || b == Backend::WebsocketServerDevice
}

/// Whether a backend can run on the platform; the gamepad backend exists on
/// Windows only.
pub open spec fn platform_supports(on_windows: bool, b: Backend) -> bool {
    b != Backend::XInput || on_windows
}

/// The backends that run when no backend flag is given, on any platform.
pub open spec fn full_backends() -> Set<Backend> {
    Set::new(|b: Backend| !is_opt_in(b))
}

/// The backends that the platform supports.
pub open spec fn supported_backends(on_windows: bool) -> Set<Backend> {
    Set::new(|b: Backend| platform_supports(on_windows, b))
}

/// The set of enabled backends, one switch per backend.
#[derive(Clone, Copy, Debug, PartialEq, Eq, Structural)]
pub struct BackendSet {
    pub bluetooth_le: bool,
    pub serial: bool,
    pub hid: bool,
    pub lovense_dongle_serial: bool,
    pub lovense_dongle_hid: bool,
    pub xinput: bool,
    pub lovense_connect: bool,
    pub websocket_server_device: bool,
}

impl BackendSet {
    pub open spec fn has(&self, b: Backend) -> bool {
        match b {
            Backend::BluetoothLe => self.bluetooth_le,
            Backend::Serial => self.serial,
            Backend::Hid => self.hid,
            Backend::LovenseDongleSerial => self.lovense_dongle_serial,
            Backend::LovenseDongleHid => self.lovense_dongle_hid,
            Backend::XInput => self.xinput,
            Backend::LovenseConnect => self.lovense_connect,
            Backend::WebsocketServerDevice => self.websocket_server_device,
        }
    }

    /// Whether `b` is in the set.
    pub fn contains(&self, b: Backend) -> (r: bool)
        ensures
            r == self@.contains(b),
    {
        match b {
            Backend::BluetoothLe => self.bluetooth_le,
            Backend::Serial => self.serial,
            Backend::Hid => self.hid,
            Backend::LovenseDongleSerial => self.lovense_dongle_serial,
            Backend::LovenseDongleHid => self.lovense_dongle_hid,
            Backend::XInput => self.xinput,
            Backend::LovenseConnect => self.lovense_connect,
            Backend::WebsocketServerDevice => self.websocket_server_device,
        }
    }
}

impl View for BackendSet {
    type V = Set<Backend>;

    open spec fn view(&self) -> Set<Backend> {
        Set::new(|b: Backend| self.has(b))
    }
}

/// The command-line flags, as parsed.
#[derive(Clone, Debug)]
pub struct CliArguments {
    /// Print the version and exit.
    pub version: bool,
    /// Print the version and exit.
    pub serverversion: bool,
    /// Listen on all interfaces rather than on the loopback interface only.
    pub wsallinterfaces: bool,
    /// Insecure websocket port; its presence selects repeater mode.
    pub wsinsecureport: Option<u16>,
    /// Pipe name for an IPC server; counts as a connection option.
    pub ipcpipe: Option<String>,
    /// Talk to a parent process through framed messages on standard output.
    pub frontendpipe: bool,
    /// Name that the server gives to connecting clients.
    pub servername: String,
    /// Path of the device configuration file.
    pub deviceconfig: Option<String>,
    /// Path of the user device configuration file.
    pub userdeviceconfig: Option<String>,
    /// Ping timeout in milliseconds; 0 turns it off.
    pub pingtime: u32,
    /// Keep the server running after a client disconnects.
    pub stayopen: bool,
    /// Explicit log threshold.
    pub log: Option<LogLevel>,
    /// Allow raw device messages.
    pub allowraw: bool,
    pub without_bluetooth_le: bool,
    pub without_serial: bool,
    pub without_hid: bool,
    pub without_lovense_dongle_serial: bool,
    pub without_lovense_dongle_hid: bool,
    pub without_xinput: bool,
    pub with_lovense_connect: bool,
    pub with_websocket_server_device: bool,
}

/// The server name used when none is given.
pub open spec fn default_server_name() -> Seq<char> {
    "Buttplug Server"@
}

impl Default for CliArguments {
    /// No flag given: every switch off, every option absent, documented
    /// defaults for the server name and the ping time.
    fn default() -> (r: CliArguments)
        ensures
            !r.version && !r.serverversion && !r.wsallinterfaces,
            r.wsinsecureport is None && r.ipcpipe is None,
            !r.frontendpipe && !r.stayopen && !r.allowraw,
            r.servername@ == default_server_name(),
            r.deviceconfig is None && r.userdeviceconfig is None,
            r.pingtime == 0,
            r.log is None,
            no_backend_flags(&r),
    {
        CliArguments {
            version: false,
            serverversion: false,
            wsallinterfaces: false,
            wsinsecureport: None,
            ipcpipe: None,
            frontendpipe: false,
            servername: String::from_str("Buttplug Server"),
            deviceconfig: None,
            userdeviceconfig: None,
            pingtime: 0,
            stayopen: false,
            log: None,
            allowraw: false,
            without_bluetooth_le: false,
            without_serial: false,
            without_hid: false,
            without_lovense_dongle_serial: false,
            without_lovense_dongle_hid: false,
            without_xinput: false,
            with_lovense_connect: false,
            with_websocket_server_device: false,
        }
    }
}

/// Whether a "without" flag turns backend `b` off.
pub open spec fn disabled_by(args: &CliArguments, b: Backend) -> bool {
    match b {
        Backend::BluetoothLe => args.without_bluetooth_le,
        Backend::Serial => args.without_serial,
        Backend::Hid => args.without_hid,
        Backend::LovenseDongleSerial => args.without_lovense_dongle_serial,
        Backend::LovenseDongleHid => args.without_lovense_dongle_hid,
        Backend::XInput => args.without_xinput,
        _ => false,
    }
}

/// Whether a "with" flag turns the opt-in backend `b` on.
pub open spec fn enabled_by(args: &CliArguments, b: Backend) -> bool {
    match b {
        Backend::LovenseConnect => args.with_lovense_connect,
        Backend::WebsocketServerDevice => args.with_websocket_server_device,
        _ => false,
    }
}

/// The backends named by "without" flags.
pub open spec fn without_set(args: &CliArguments) -> Set<Backend> {
    Set::new(|b: Backend| disabled_by(args, b))
}

/// Whether no backend flag is given.
pub open spec fn no_backend_flags(args: &CliArguments) -> bool {
    &&& !args.without_bluetooth_le
    &&& !args.without_serial
    &&& !args.without_hid
    &&& !args.without_lovense_dongle_serial
    &&& !args.without_lovense_dongle_hid
    &&& !args.without_xinput
    &&& !args.with_lovense_connect
    &&& !args.with_websocket_server_device
}

/// The backends that a run with `args` enables: each supported backend that
/// is on by default and not switched off, and each supported opt-in backend
/// that is switched on.
pub open spec fn selected_backends(args: &CliArguments, on_windows: bool) -> Set<Backend> {
    Set::new(
        |b: Backend|
            platform_supports(on_windows, b) && if is_opt_in(b) {
                enabled_by(args, b)
            } else {
                !disabled_by(args, b)
            },
    )
}

/// Builds the set of enabled backends from the backend flags.
pub fn select_backends(args: &CliArguments, on_windows: bool) -> (r: BackendSet)
    ensures
        r@ == selected_backends(args, on_windows),
{
    let r = BackendSet {
        bluetooth_le: !args.without_bluetooth_le,
        serial: !args.without_serial,
        hid: !args.without_hid,
        lovense_dongle_serial: !args.without_lovense_dongle_serial,
        lovense_dongle_hid: !args.without_lovense_dongle_hid,
        xinput: on_windows && !args.without_xinput,
        lovense_connect: args.with_lovense_connect,
        websocket_server_device: args.with_websocket_server_device,
    };
    assert(r@ =~= selected_backends(args, on_windows));
    r
}

/// With no "with" flag, the enabled backends are the full set less those
/// switched off, among those that the platform supports.
pub proof fn lemma_backends_without(args: &CliArguments, on_windows: bool)
    requires
        !args.with_lovense_connect,
        !args.with_websocket_server_device,
    ensures
        selected_backends(args, on_windows) == full_backends().difference(
            without_set(args),
        ).intersect(supported_backends(on_windows)),
{
    assert(selected_backends(args, on_windows) =~= full_backends().difference(
        without_set(args),
    ).intersect(supported_backends(on_windows)));
}

/// What reading each configuration file named by the flags gave: its
/// contents, or why it could not be read. An entry whose path the flags do
/// not name is not looked at.
#[derive(Debug)]
pub struct ConfigFileReads {
    pub device_config: Result<String, String>,
    pub user_device_config: Result<String, String>,
}

/// Settings of a server that listens for clients itself.
#[derive(Clone, Debug)]
pub struct DirectServerOptions {
    pub listen_all_interfaces: bool,
    pub insecure_port: Option<u16>,
    pub server_name: String,
    pub max_ping_time_ms: u32,
    pub allow_raw_messages: bool,
    pub stay_open_after_disconnect: bool,
    pub device_config_json: Option<String>,
    pub user_device_config_json: Option<String>,
}

/// How the server runs: as a full server, or as a repeater that forwards
/// traffic from a local port to a fixed remote address.
#[derive(Clone, Debug)]
pub enum ServerMode {
    DirectServer(DirectServerOptions),
    Repeater { local_port: u16, remote_address: String },
}

/// The validated configuration of a run.
#[derive(Clone, Debug)]
pub struct OptionModel {
    pub mode: ServerMode,
    pub enabled_backends: BackendSet,
    pub frontend_bridge_requested: bool,
    pub log_level: Option<LogLevel>,
}

/// What resolution asks the caller to do.
#[derive(Clone, Debug)]
pub enum Resolution {
    /// Print version information and exit successfully.
    ShowVersion,
    /// Run the engine with this configuration.
    Run(OptionModel),
}

/// Why the flags do not make a runnable configuration.
#[derive(Clone, Debug, PartialEq, Eq)]
pub enum ConfigError {
    /// No connection option was given.
    MissingConnectionArgument,
    /// A configuration file named by the flags could not be read.
    DeviceConfigReadFailure { path: String, cause: String },
}

/// The remote address that repeater mode forwards to.
pub open spec fn repeater_remote_address() -> Seq<char> {
    "ws://localhost:12345"@
}

pub open spec fn wants_version(args: &CliArguments) -> bool {
    args.version || args.serverversion
}

pub open spec fn selects_repeater(args: &CliArguments) -> bool {
    args.wsinsecureport is Some
}

/// Whether a connection option is given: listening on all interfaces, a
/// port, or a pipe name.
pub open spec fn has_connection(args: &CliArguments) -> bool {
    args.wsallinterfaces || args.wsinsecureport is Some || args.ipcpipe is Some
}

/// Whether resolution looks at the configuration files: only a direct
/// server that has a connection option reads them.
pub open spec fn reads_config_files(args: &CliArguments) -> bool {
    !wants_version(args) && !selects_repeater(args) && has_connection(args)
}

/// Whether the caller must read the configuration files named by the flags
/// before resolving; otherwise resolution never looks at what was read.
pub fn needs_config_files(args: &CliArguments) -> (r: bool)
    ensures
        r == reads_config_files(args),
{
    !(args.version || args.serverversion) && args.wsinsecureport.is_none() && (args.wsallinterfaces
        || args.ipcpipe.is_some())
}

/// The first configuration file that is named but could not be read, as its
/// path and the cause.
pub open spec fn first_read_failure(args: &CliArguments, reads: &ConfigFileReads) -> Option<
    (String, String),
> {
    match (args.deviceconfig, reads.device_config) {
        (Some(path), Err(cause)) => Some((path, cause)),
        _ => match (args.userdeviceconfig, reads.user_device_config) {
            (Some(path), Err(cause)) => Some((path, cause)),
            _ => None,
        },
    }
}

/// The contents of a configuration file if the flags name it.
pub open spec fn contents_if_named(path: Option<String>, read: Result<String, String>) -> Option<
    String,
> {
    match (path, read) {
        (Some(_), Ok(contents)) => Some(contents),
        _ => None,
    }
}

/// The direct-server settings that `args` give, with the files' contents.
pub open spec fn direct_options_of(
    args: &CliArguments,
    reads: &ConfigFileReads,
) -> DirectServerOptions {
    DirectServerOptions {
        listen_all_interfaces: args.wsallinterfaces,
        insecure_port: args.wsinsecureport,
        server_name: args.servername,
        max_ping_time_ms: args.pingtime,
        allow_raw_messages: args.allowraw,
        stay_open_after_disconnect: args.stayopen,
        device_config_json: contents_if_named(args.deviceconfig, reads.device_config),
        user_device_config_json: contents_if_named(args.userdeviceconfig, reads.user_device_config),
    }
}

/// Whether `m` forwards local port `port` to the repeater's remote address.
pub open spec fn is_repeater_on(m: OptionModel, port: u16) -> bool {
    match m.mode {
        ServerMode::Repeater { local_port, remote_address } => local_port == port
            && remote_address@ == repeater_remote_address(),
        _ => false,
    }
}

/// Whether `m` is the configuration that `args` describe.
pub open spec fn is_model_of(
    args: &CliArguments,
    reads: &ConfigFileReads,
    on_windows: bool,
    m: OptionModel,
) -> bool {
    &&& match args.wsinsecureport {
        Some(port) => is_repeater_on(m, port),
        None => m.mode == ServerMode::DirectServer(direct_options_of(args, reads)),
    }
    &&& m.enabled_backends@ == selected_backends(args, on_windows)
    &&& m.frontend_bridge_requested == args.frontendpipe
    &&& m.log_level == args.log
}

/// Resolves the flags into what the caller should do.
///
/// Version flags win over everything. Otherwise an insecure port selects
/// repeater mode, forwarding that port to a fixed remote address, and every
/// direct-server flag is ignored. Otherwise the server runs directly, which
/// needs a connection option and every named configuration file readable.
/// The enabled backends follow the backend flags in either mode.
pub fn parse_options(args: &CliArguments, reads: &ConfigFileReads, on_windows: bool) -> (r: Result<
    Resolution,
    ConfigError,
>)
    ensures
        wants_version(args) <==> r matches Ok(Resolution::ShowVersion),
        (!wants_version(args) && !has_connection(args)) <==> r == Err::<
            Resolution,
            ConfigError,
        >(ConfigError::MissingConnectionArgument),
        match args.wsinsecureport {
            Some(port) => !wants_version(args) ==> match r {
                Ok(Resolution::Run(m)) => is_repeater_on(m, port),
                _ => false,
            },
            None => true,
        },
        match r {
            Ok(Resolution::ShowVersion) => wants_version(args),
            Ok(Resolution::Run(m)) => !wants_version(args) && has_connection(args) && (
            selects_repeater(args) || first_read_failure(args, reads) is None) && is_model_of(
                args,
                reads,
                on_windows,
                m,
            ),
            Err(ConfigError::MissingConnectionArgument) => !wants_version(args) && !has_connection(
                args,
            ),
            Err(ConfigError::DeviceConfigReadFailure { path, cause }) => !wants_version(args)
                && has_connection(args) && !selects_repeater(args) && first_read_failure(
                args,
                reads,
            ) == Some((path, cause)),
        },
{
    if args.version || args.serverversion {
        return Ok(Resolution::ShowVersion);
    }
    let enabled_backends = select_backends(args, on_windows);
    let mode = match args.wsinsecureport {
        Some(port) => ServerMode::Repeater {
            local_port: port,
            remote_address: String::from_str("ws://localhost:12345"),
        },
        None => {
            if !args.wsallinterfaces && args.ipcpipe.is_none() {
                return Err(ConfigError::MissingConnectionArgument);
            }
            let device_config_json = match (&args.deviceconfig, &reads.device_config) {
                (Some(path), Err(cause)) => {
                    return Err(
                        ConfigError::DeviceConfigReadFailure {
                            path: path.clone(),
                            cause: cause.clone(),
                        },
                    );
                },
                (Some(_), Ok(contents)) => Some(contents.clone()),
                (None, _) => None,
            };
            let user_device_config_json = match (&args.userdeviceconfig, &reads.user_device_config) {
                (Some(path), Err(cause)) => {
                    return Err(
                        ConfigError::DeviceConfigReadFailure {
                            path: path.clone(),
                            cause: cause.clone(),
                        },
                    );
                },
                (Some(_), Ok(contents)) => Some(contents.clone()),
                (None, _) => None,
            };
            ServerMode::DirectServer(
                DirectServerOptions {
                    listen_all_interfaces: args.wsallinterfaces,
                    insecure_port: args.wsinsecureport,
                    server_name: args.servername.clone(),
                    max_ping_time_ms: args.pingtime,
                    allow_raw_messages: args.allowraw,
                    stay_open_after_disconnect: args.stayopen,
                    device_config_json,
                    user_device_config_json,
                },
            )
        },
    };
    Ok(
        Resolution::Run(
            OptionModel {
                mode,
                enabled_backends,
                frontend_bridge_requested: args.frontendpipe,
                log_level: args.log,
            },
        ),
    )
}

/// Whether a direct-server flag is given.
pub open spec fn has_direct_server_flags(args: &CliArguments) -> bool {
    ||| args.wsallinterfaces
    ||| args.ipcpipe is Some
    ||| args.servername@ != default_server_name()
    ||| args.deviceconfig is Some
    ||| args.userdeviceconfig is Some
    ||| args.pingtime != 0
    ||| args.stayopen
    ||| args.allowraw
}

/// Whether repeater mode is selected while direct-server flags are given,
/// which it then ignores; the caller warns about it.
pub fn repeater_ignores_direct_flags(args: &CliArguments) -> (r: bool)
    ensures
        r == (selects_repeater(args) && has_direct_server_flags(args)),
{
    let default_name = String::from_str("Buttplug Server");
    args.wsinsecureport.is_some() && (args.wsallinterfaces || args.ipcpipe.is_some()
        || args.servername != default_name || args.deviceconfig.is_some()
        || args.userdeviceconfig.is_some() || args.pingtime != 0 || args.stayopen
        || args.allowraw)
}

/// The explicit log threshold, if the flags give one; without one the caller
/// takes it from the environment, or "info".
pub fn check_log_level(args: &CliArguments) -> (r: Option<LogLevel>)
    ensures
        r == args.log,
{
    args.log
}

/// A piece of build information, or "unknown" where it is not available.
pub open spec fn or_unknown(v: Option<&str>) -> Seq<char> {
    match v {
        Some(s) => s@,
        None => "unknown"@,
    }
}

/// The line printed for a version request.
pub open spec fn version_text(
    version: Option<&str>,
    commit: Option<&str>,
    built: Option<&str>,
) -> Seq<char> {
    "Intiface CLI (Repeater) Version "@ + or_unknown(version) + ", Commit "@ + or_unknown(commit)
        + ", Built "@ + or_unknown(built)
}

fn piece_or_unknown(v: Option<&str>) -> (r: &str)
    ensures
        r@ == or_unknown(v),
{
    match v {
        Some(s) => s,
        None => "unknown",
    }
}

/// Formats the version, source revision and build time; each that is not
/// available reads "unknown".
pub fn version_line(version: Option<&str>, commit: Option<&str>, built: Option<&str>) -> (r:
    String)
    ensures
        r@ == version_text(version, commit, built),
{
    let mut line = String::from_str("Intiface CLI (Repeater) Version ");
    line.append(piece_or_unknown(version));
    line.append(", Commit ");
    line.append(piece_or_unknown(commit));
    line.append(", Built ");
    line.append(piece_or_unknown(built));
    line
}

} // verus!
