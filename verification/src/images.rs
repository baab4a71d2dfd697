//! Ready-made images: their names, tags, readiness conditions, environments and
//! command-line arguments.
use vstd::prelude::*;

use crate::collections::StringKeyMap;
use crate::mounts::opt_view;
use crate::text::{append_decimal, concat_str, decimal};
use crate::wait_for::{waits_for_stderr, waits_for_stdout, WaitFor};

verus! {

/// Port of the Bigtable emulator.
pub const BIGTABLE_PORT: u16 = 8086;

/// Port of the Datastore emulator.
pub const DATASTORE_PORT: u16 = 8081;

/// Port of the Firestore emulator.
pub const FIRESTORE_PORT: u16 = 8080;

/// Port of the Pub/Sub emulator.
pub const PUBSUB_PORT: u16 = 8085;

/// gRPC port of the Spanner emulator.
pub const SPANNER_PORT: u16 = 9010;

/// The emulators of the Google Cloud SDK image.
#[derive(Debug, Clone, Eq, PartialEq)]
pub enum Emulator {
    Bigtable,
    Datastore { project: String },
    Firestore,
    PubSub,
    Spanner,
}

/// The name `gcloud` knows an emulator by.
pub open spec fn emulator_name(e: Emulator) -> Seq<char> {
    match e {
        Emulator::Bigtable => "bigtable"@,
        Emulator::Datastore { .. } => "datastore"@,
        Emulator::Firestore => "firestore"@,
        Emulator::PubSub => "pubsub"@,
        Emulator::Spanner => "spanner"@,
    }
}

/// Arguments of the Google Cloud SDK emulators image.
#[derive(Debug, Clone)]
pub struct CloudSdkArgs {
    pub host: String,
    pub port: u16,
    pub emulator: Emulator,
}

/// The command line that starts the emulator of `a`, listening on `host:port`.
pub open spec fn cloud_sdk_command(host: Seq<char>, port: u16, e: Emulator) -> Seq<Seq<char>> {
    let start = seq!["gcloud"@, "beta"@, "emulators"@, emulator_name(e), "start"@];
    let project = match e {
        Emulator::Datastore { project } => seq!["--project"@, project@],
        _ => Seq::empty(),
    };
    start + project + seq!["--host-port"@, host + ":"@ + decimal(port as nat)]
}

/// The views of a vector of strings.
pub open spec fn args_view(v: Seq<String>) -> Seq<Seq<char>> {
    v.map_values(|s: String| s@)
}

impl CloudSdkArgs {
    /// The command-line arguments of the container.
    pub fn into_iterator(self) -> (r: Vec<String>)
        ensures
            args_view(r@) == cloud_sdk_command(self.host@, self.port, self.emulator),
    {
        let ghost e = self.emulator;
        let mut args: Vec<String> = Vec::new();
        args.push("gcloud".to_owned());
        args.push("beta".to_owned());
        args.push("emulators".to_owned());
        let name = match &self.emulator {
            Emulator::Bigtable => "bigtable",
            Emulator::Datastore { .. } => "datastore",
            Emulator::Firestore => "firestore",
            Emulator::PubSub => "pubsub",
            Emulator::Spanner => "spanner",
        };
        args.push(name.to_owned());
        args.push("start".to_owned());
        let ghost after_start = args@;
        assert(args_view(after_start) =~= seq![
            "gcloud"@,
            "beta"@,
            "emulators"@,
            emulator_name(e),
            "start"@,
        ]);
        if let Emulator::Datastore { project } = &self.emulator {
            args.push("--project".to_owned());
            args.push(project.clone());
        }
        let ghost after_project = args@;
        let mut host_port = concat_str(self.host.as_str(), ":");
        append_decimal(&mut host_port, self.port as u64);
        args.push("--host-port".to_owned());
        args.push(host_port);
        proof {
            let project = match e {
                Emulator::Datastore { project } => seq!["--project"@, project@],
                _ => Seq::empty(),
            };
            assert(args_view(after_project) =~= args_view(after_start) + project);
            assert(args_view(args@) =~= args_view(after_project) + seq![
                "--host-port"@,
                self.host@ + ":"@ + decimal(self.port as nat),
            ]);
        }
        args
    }
}

/// The Google Cloud SDK image, running one of its emulators.
#[derive(Debug)]
pub struct CloudSdk {
    exposed_port: u16,
    ready_condition: WaitFor,
}

impl View for CloudSdk {
    type V = (u16, WaitFor);

    closed spec fn view(&self) -> (u16, WaitFor) {
        (self.exposed_port, self.ready_condition)
    }
}

/// `r` runs the emulator `e` on `port` and is ready once `message` is on standard error.
pub open spec fn cloud_sdk_setup(
    r: (CloudSdk, CloudSdkArgs),
    port: u16,
    e: Emulator,
    message: Seq<char>,
) -> bool {
    &&& r.0@.0 == port
    &&& waits_for_stderr(r.0@.1, message)
    &&& r.1.host@ == "0.0.0.0"@
    &&& r.1.port == port
    &&& r.1.emulator == e
}

impl CloudSdk {
    /// `google/cloud-sdk`.
    pub fn name(&self) -> (r: String)
        ensures
            r@ == "google/cloud-sdk"@,
    {
        "google/cloud-sdk".to_owned()
    }

    /// `362.0.0-emulators`.
    pub fn tag(&self) -> (r: String)
        ensures
            r@ == "362.0.0-emulators"@,
    {
        "362.0.0-emulators".to_owned()
    }

    /// The emulator's own readiness message.
    pub fn ready_conditions(&self) -> (r: Vec<WaitFor>)
        ensures
            r@ == seq![self@.1],
    {
        let mut r: Vec<WaitFor> = Vec::new();
        r.push(self.ready_condition.clone());
        r
    }

    /// The emulator's port.
    pub fn expose_ports(&self) -> (r: Vec<u16>)
        ensures
            r@ == seq![self@.0],
    {
        let mut r: Vec<u16> = Vec::new();
        r.push(self.exposed_port);
        r
    }

    fn new(port: u16, emulator: Emulator, ready_condition: WaitFor) -> (r: (Self, CloudSdkArgs))
        ensures
            r.0@ == (port, ready_condition),
            r.1.host@ == "0.0.0.0"@,
            r.1.port == port,
            r.1.emulator == emulator,
    {
        let arguments = CloudSdkArgs { host: "0.0.0.0".to_owned(), port, emulator };
        (CloudSdk { exposed_port: port, ready_condition }, arguments)
    }

    /// The Bigtable emulator.
    pub fn bigtable() -> (r: (Self, CloudSdkArgs))
        ensures
            cloud_sdk_setup(
                r,
                BIGTABLE_PORT,
                Emulator::Bigtable,
                "[bigtable] Cloud Bigtable emulator running on"@,
            ),
    {
        Self::new(
            BIGTABLE_PORT,
            Emulator::Bigtable,
            WaitFor::message_on_stderr("[bigtable] Cloud Bigtable emulator running on"),
        )
    }

    /// The Firestore emulator.
    pub fn firestore() -> (r: (Self, CloudSdkArgs))
        ensures
            cloud_sdk_setup(
                r,
                FIRESTORE_PORT,
                Emulator::Firestore,
                "[firestore] Dev App Server is now running"@,
            ),
    {
        Self::new(
            FIRESTORE_PORT,
            Emulator::Firestore,
            WaitFor::message_on_stderr("[firestore] Dev App Server is now running"),
        )
    }

    /// The Datastore emulator for `project`.
    pub fn datastore(project: &str) -> (r: (Self, CloudSdkArgs))
        ensures
            r.1.emulator matches Emulator::Datastore { project: p } && p@ == project@,
            cloud_sdk_setup(
                r,
                DATASTORE_PORT,
                r.1.emulator,
                "[datastore] Dev App Server is now running"@,
            ),
    {
        Self::new(
            DATASTORE_PORT,
            Emulator::Datastore { project: project.to_owned() },
            WaitFor::message_on_stderr("[datastore] Dev App Server is now running"),
        )
    }

    /// The Pub/Sub emulator.
    pub fn pubsub() -> (r: (Self, CloudSdkArgs))
        ensures
            cloud_sdk_setup(
                r,
                PUBSUB_PORT,
                Emulator::PubSub,
                "[pubsub] INFO: Server started, listening on"@,
            ),
    {
        Self::new(
            PUBSUB_PORT,
            Emulator::PubSub,
            WaitFor::message_on_stderr("[pubsub] INFO: Server started, listening on"),
        )
    }

    /// The Spanner emulator.
    pub fn spanner() -> (r: (Self, CloudSdkArgs))
        ensures
            cloud_sdk_setup(r, SPANNER_PORT, Emulator::Spanner, "Cloud Spanner emulator running"@),
    {
        Self::new(
            SPANNER_PORT,
            Emulator::Spanner,
            WaitFor::message_on_stderr("Cloud Spanner emulator running"),
        )
    }
}

/// The MinIO object store.
#[derive(Debug)]
pub struct MinIO {
    env_vars: StringKeyMap<String>,
}

impl Default for MinIO {
    fn default() -> (r: Self)
        ensures
            r.env_vars_view().dom() == set!["MINIO_CONSOLE_ADDRESS"@],
            r.env_vars_view()["MINIO_CONSOLE_ADDRESS"@]@ == ":9001"@,
    {
        let mut env_vars = StringKeyMap::new();
        env_vars.insert("MINIO_CONSOLE_ADDRESS".to_owned(), ":9001".to_owned());
        assert(env_vars@.dom() =~= set!["MINIO_CONSOLE_ADDRESS"@]);
        MinIO { env_vars }
    }
}

impl MinIO {
    /// The environment of the container.
    pub closed spec fn env_vars_view(&self) -> Map<Seq<char>, String> {
        self.env_vars@
    }

    /// `minio/minio`.
    pub fn name(&self) -> (r: String)
        ensures
            r@ == "minio/minio"@,
    {
        "minio/minio".to_owned()
    }

    /// `RELEASE.2022-02-07T08-17-33Z`.
    pub fn tag(&self) -> (r: String)
        ensures
            r@ == "RELEASE.2022-02-07T08-17-33Z"@,
    {
        "RELEASE.2022-02-07T08-17-33Z".to_owned()
    }

    /// Ready once `API:` is on standard output.
    pub fn ready_conditions(&self) -> (r: Vec<WaitFor>)
        ensures
            r@.len() == 1,
            waits_for_stdout(r@[0], "API:"@),
    {
        let mut r: Vec<WaitFor> = Vec::new();
        r.push(WaitFor::message_on_stdout("API:"));
        r
    }

    /// The environment variables of the container.
    pub fn env_vars(&self) -> (r: &StringKeyMap<String>)
        ensures
            r@ == self.env_vars_view(),
    {
        &self.env_vars
    }
}

/// Arguments of the MinIO server.
#[derive(Debug, Clone)]
pub struct MinIOServerArgs {
    pub dir: String,
    pub certs_dir: Option<String>,
    pub json_log: bool,
}

impl Default for MinIOServerArgs {
    fn default() -> (r: Self)
        ensures
            r.dir@ == "/data"@,
            r.certs_dir is None,
            !r.json_log,
    {
        MinIOServerArgs { dir: "/data".to_owned(), certs_dir: None, json_log: false }
    }
}

/// The command line of a MinIO server that serves `dir`.
pub open spec fn minio_command(dir: Seq<char>, certs_dir: Option<Seq<char>>, json_log: bool) -> Seq<
    Seq<char>,
> {
    let certs = match certs_dir {
        Some(c) => seq!["--certs-dir"@, c],
        None => Seq::empty(),
    };
    let json = if json_log {
        seq!["--json"@]
    } else {
        Seq::empty()
    };
    seq!["server"@, dir] + certs + json
}

impl MinIOServerArgs {
    /// The command-line arguments of the container.
    pub fn into_iterator(self) -> (r: Vec<String>)
        ensures
            args_view(r@) == minio_command(self.dir@, opt_view(self.certs_dir), self.json_log),
    {
        let ghost certs_view = opt_view(self.certs_dir);
        let mut args: Vec<String> = Vec::new();
        args.push("server".to_owned());
        args.push(self.dir.clone());
        let ghost base = args@;
        if let Some(certs_dir) = &self.certs_dir {
            args.push("--certs-dir".to_owned());
            args.push(certs_dir.clone());
        }
        let ghost with_certs = args@;
        if self.json_log {
            args.push("--json".to_owned());
        }
        proof {
            let certs = match certs_view {
                Some(c) => seq!["--certs-dir"@, c],
                None => Seq::empty(),
            };
            let json = if self.json_log {
                seq!["--json"@]
            } else {
                Seq::empty()
            };
            assert(args_view(base) =~= seq!["server"@, self.dir@]);
            assert(args_view(with_certs) =~= args_view(base) + certs);
            assert(args_view(args@) =~= args_view(with_certs) + json);
        }
        args
    }
}

/// The MongoDB database.
#[derive(Default, Debug)]
pub struct Mongo;

impl Mongo {
    /// `mongo`.
    pub fn name(&self) -> (r: String)
        ensures
            r@ == "mongo"@,
    {
        "mongo".to_owned()
    }

    /// `5.0.6`.
    pub fn tag(&self) -> (r: String)
        ensures
            r@ == "5.0.6"@,
    {
        "5.0.6".to_owned()
    }

    /// Ready once `Waiting for connections` is on standard output.
    pub fn ready_conditions(&self) -> (r: Vec<WaitFor>)
        ensures
            r@.len() == 1,
            waits_for_stdout(r@[0], "Waiting for connections"@),
    {
        let mut r: Vec<WaitFor> = Vec::new();
        r.push(WaitFor::message_on_stdout("Waiting for connections"));
        r
    }
}

/// The OrientDB database.
#[derive(Debug)]
pub struct OrientDb {
    env_vars: StringKeyMap<String>,
}

impl Default for OrientDb {
    fn default() -> (r: Self)
        ensures
            r.env_vars_view().dom() == set!["ORIENTDB_ROOT_PASSWORD"@],
            r.env_vars_view()["ORIENTDB_ROOT_PASSWORD"@]@ == "root"@,
    {
        let mut env_vars = StringKeyMap::new();
        env_vars.insert("ORIENTDB_ROOT_PASSWORD".to_owned(), "root".to_owned());
        assert(env_vars@.dom() =~= set!["ORIENTDB_ROOT_PASSWORD"@]);
        OrientDb { env_vars }
    }
}

impl OrientDb {
    /// The environment of the container.
    pub closed spec fn env_vars_view(&self) -> Map<Seq<char>, String> {
        self.env_vars@
    }

    /// `orientdb`.
    pub fn name(&self) -> (r: String)
        ensures
            r@ == "orientdb"@,
    {
        "orientdb".to_owned()
    }

    /// `3.1.3`.
    pub fn tag(&self) -> (r: String)
        ensures
            r@ == "3.1.3"@,
    {
        "3.1.3".to_owned()
    }

    /// Ready once `OrientDB Studio available at` is on standard error.
    pub fn ready_conditions(&self) -> (r: Vec<WaitFor>)
        ensures
            r@.len() == 1,
            waits_for_stderr(r@[0], "OrientDB Studio available at"@),
    {
        let mut r: Vec<WaitFor> = Vec::new();
        r.push(WaitFor::message_on_stderr("OrientDB Studio available at"));
        r
    }

    /// The environment variables of the container.
    pub fn env_vars(&self) -> (r: &StringKeyMap<String>)
        ensures
            r@ == self.env_vars_view(),
    {
        &self.env_vars
    }
}

/// The Parity Ethereum client.
#[derive(Debug, Default)]
pub struct ParityEthereum;

/// Arguments of the Parity Ethereum client: a development chain with every API open.
#[derive(Debug, Default, Clone)]
pub struct ParityEthereumArgs;

impl ParityEthereumArgs {
    /// The command-line arguments of the container.
    pub fn into_iterator(self) -> (r: Vec<String>)
        ensures
            args_view(r@) == seq![
                "--config=dev"@,
                "--jsonrpc-apis=all"@,
                "--unsafe-expose"@,
                "--tracing=on"@,
            ],
    {
        let mut args: Vec<String> = Vec::new();
        args.push("--config=dev".to_owned());
        args.push("--jsonrpc-apis=all".to_owned());
        args.push("--unsafe-expose".to_owned());
        args.push("--tracing=on".to_owned());
        assert(args_view(args@) =~= seq![
            "--config=dev"@,
            "--jsonrpc-apis=all"@,
            "--unsafe-expose"@,
            "--tracing=on"@,
        ]);
        args
    }
}

impl ParityEthereum {
    /// `parity/parity`.
    pub fn name(&self) -> (r: String)
        ensures
            r@ == "parity/parity"@,
    {
        "parity/parity".to_owned()
    }

    /// `v2.5.0`.
    pub fn tag(&self) -> (r: String)
        ensures
            r@ == "v2.5.0"@,
    {
        "v2.5.0".to_owned()
    }

    /// Ready once `Public node URL:` is on standard error.
    pub fn ready_conditions(&self) -> (r: Vec<WaitFor>)
        ensures
            r@.len() == 1,
            waits_for_stderr(r@[0], "Public node URL:"@),
    {
        let mut r: Vec<WaitFor> = Vec::new();
        r.push(WaitFor::message_on_stderr("Public node URL:"));
        r
    }
}

/// The RabbitMQ broker, with its management plugin.
#[derive(Debug, Default, Clone)]
pub struct RabbitMq;

impl RabbitMq {
    /// `rabbitmq`.
    pub fn name(&self) -> (r: String)
        ensures
            r@ == "rabbitmq"@,
    {
        "rabbitmq".to_owned()
    }

    /// `3.8.22-management`.
    pub fn tag(&self) -> (r: String)
        ensures
            r@ == "3.8.22-management"@,
    {
        "3.8.22-management".to_owned()
    }

    /// Ready once the startup of the broker and its four plugins is reported on standard output.
    pub fn ready_conditions(&self) -> (r: Vec<WaitFor>)
        ensures
            r@.len() == 1,
            waits_for_stdout(r@[0], "Server startup complete; 4 plugins started."@),
    {
        let mut r: Vec<WaitFor> = Vec::new();
        r.push(WaitFor::message_on_stdout("Server startup complete; 4 plugins started."));
        r
    }
}

/// The Redis store.
#[derive(Debug, Default)]
pub struct Redis;

impl Redis {
    /// `redis`.
    pub fn name(&self) -> (r: String)
        ensures
            r@ == "redis"@,
    {
        "redis".to_owned()
    }

    /// `5.0`.
    pub fn tag(&self) -> (r: String)
        ensures
            r@ == "5.0"@,
    {
        "5.0".to_owned()
    }

    /// Ready once `Ready to accept connections` is on standard output.
    pub fn ready_conditions(&self) -> (r: Vec<WaitFor>)
        ensures
            r@.len() == 1,
            waits_for_stdout(r@[0], "Ready to accept connections"@),
    {
        let mut r: Vec<WaitFor> = Vec::new();
        r.push(WaitFor::message_on_stdout("Ready to accept connections"));
        r
    }
}

/// The Ganache CLI Ethereum simulator.
#[derive(Debug, Default)]
pub struct GanacheCli;

/// Arguments of the Ganache CLI.
#[derive(Debug, Clone)]
pub struct GanacheCliArgs {
    pub network_id: u32,
    pub number_of_accounts: u32,
    pub mnemonic: String,
}

impl Default for GanacheCliArgs {
    fn default() -> (r: Self)
        ensures
            r.network_id == 42,
            r.number_of_accounts == 7,
            r.mnemonic@ == "supersecure"@,
    {
        GanacheCliArgs { network_id: 42, number_of_accounts: 7, mnemonic: "supersecure".to_owned() }
    }
}

/// The command line of the simulator: the mnemonic where one is given, then the number of
/// accounts and the network id.
pub open spec fn ganache_command(network_id: u32, number_of_accounts: u32, mnemonic: Seq<char>) -> Seq<
    Seq<char>,
> {
    let m = if mnemonic.len() > 0 {
        seq!["-m"@, mnemonic]
    } else {
        Seq::empty()
    };
    m + seq!["-a"@, decimal(number_of_accounts as nat), "-i"@, decimal(network_id as nat)]
}

impl GanacheCliArgs {
    /// The command-line arguments of the container.
    pub fn into_iterator(self) -> (r: Vec<String>)
        ensures
            args_view(r@) == ganache_command(self.network_id, self.number_of_accounts, self.mnemonic@),
    {
        let mut args: Vec<String> = Vec::new();
        if self.mnemonic.unicode_len() > 0 {
            args.push("-m".to_owned());
            args.push(self.mnemonic.clone());
        }
        let ghost with_mnemonic = args@;
        args.push("-a".to_owned());
        let mut accounts = String::new();
        append_decimal(&mut accounts, self.number_of_accounts as u64);
        args.push(accounts);
        args.push("-i".to_owned());
        let mut network = String::new();
        append_decimal(&mut network, self.network_id as u64);
        args.push(network);
        proof {
            let m = if self.mnemonic@.len() > 0 {
                seq!["-m"@, self.mnemonic@]
            } else {
                Seq::empty()
            };
            assert(args_view(with_mnemonic) =~= m);
            assert(args_view(args@) =~= m + seq![
                "-a"@,
                decimal(self.number_of_accounts as nat),
                "-i"@,
                decimal(self.network_id as nat),
            ]);
        }
        args
    }
}

impl GanacheCli {
    /// `trufflesuite/ganache-cli`.
    pub fn name(&self) -> (r: String)
        ensures
            r@ == "trufflesuite/ganache-cli"@,
    {
        "trufflesuite/ganache-cli".to_owned()
    }

    /// `v6.1.3`.
    pub fn tag(&self) -> (r: String)
        ensures
            r@ == "v6.1.3"@,
    {
        "v6.1.3".to_owned()
    }

    /// Ready once `Listening on localhost:` is on standard output.
    pub fn ready_conditions(&self) -> (r: Vec<WaitFor>)
        ensures
            r@.len() == 1,
            waits_for_stdout(r@[0], "Listening on localhost:"@),
    {
        let mut r: Vec<WaitFor> = Vec::new();
        r.push(WaitFor::message_on_stdout("Listening on localhost:"));
        r
    }
}

/// The ZooKeeper coordination service.
#[derive(Debug, Default)]
pub struct Zookeeper;

impl Zookeeper {
    /// `zookeeper`.
    pub fn name(&self) -> (r: String)
        ensures
            r@ == "zookeeper"@,
    {
        "zookeeper".to_owned()
    }

    /// `3.6.2`.
    pub fn tag(&self) -> (r: String)
        ensures
            r@ == "3.6.2"@,
    {
        "3.6.2".to_owned()
    }

    /// Ready once `Started AdminServer` is on standard output.
    pub fn ready_conditions(&self) -> (r: Vec<WaitFor>)
        ensures
            r@.len() == 1,
            waits_for_stdout(r@[0], "Started AdminServer"@),
    {
        let mut r: Vec<WaitFor> = Vec::new();
        r.push(WaitFor::message_on_stdout("Started AdminServer"));
        r
    }
}

} // verus!
