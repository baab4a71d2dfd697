use testcontainers::images::{
    CloudSdk, Emulator, GanacheCli, GanacheCliArgs, MinIO, MinIOServerArgs, Mongo, OrientDb,
    ParityEthereum, ParityEthereumArgs, RabbitMq, Redis, Zookeeper, BIGTABLE_PORT, DATASTORE_PORT,
    FIRESTORE_PORT, PUBSUB_PORT, SPANNER_PORT,
};
use testcontainers::wait_for::WaitFor;

#[test]
fn cloud_sdk_emulators_listen_on_their_ports() {
    let (image, args) = CloudSdk::bigtable();
    assert_eq!(image.expose_ports(), vec![BIGTABLE_PORT]);
    assert_eq!(args.port, 8086);
    assert_eq!(
        args.into_iterator(),
        vec!["gcloud", "beta", "emulators", "bigtable", "start", "--host-port", "0.0.0.0:8086"]
    );
    assert_eq!(
        image.ready_conditions(),
        vec![WaitFor::message_on_stderr("[bigtable] Cloud Bigtable emulator running on")]
    );
    assert_eq!(image.name(), "google/cloud-sdk");
    assert_eq!(image.tag(), "362.0.0-emulators");

    assert_eq!(CloudSdk::firestore().0.expose_ports(), vec![FIRESTORE_PORT]);
    assert_eq!(CloudSdk::pubsub().0.expose_ports(), vec![PUBSUB_PORT]);
    assert_eq!(CloudSdk::spanner().0.expose_ports(), vec![SPANNER_PORT]);
}

#[test]
fn datastore_emulator_names_its_project() {
    let (image, args) = CloudSdk::datastore("test");
    assert_eq!(image.expose_ports(), vec![DATASTORE_PORT]);
    assert_eq!(args.emulator, Emulator::Datastore { project: "test".to_string() });
    assert_eq!(
        args.into_iterator(),
        vec![
            "gcloud",
            "beta",
            "emulators",
            "datastore",
            "start",
            "--project",
            "test",
            "--host-port",
            "0.0.0.0:8081"
        ]
    );
}

#[test]
fn minio_defaults() {
    let minio = MinIO::default();
    assert_eq!(minio.env_vars().get("MINIO_CONSOLE_ADDRESS").unwrap(), ":9001");
    assert_eq!(minio.env_vars().len(), 1);
    assert_eq!(minio.name(), "minio/minio");
    assert_eq!(minio.tag(), "RELEASE.2022-02-07T08-17-33Z");
    assert_eq!(minio.ready_conditions(), vec![WaitFor::message_on_stdout("API:")]);
    assert_eq!(MinIOServerArgs::default().into_iterator(), vec!["server", "/data"]);
    let args = MinIOServerArgs { dir: "/d".to_string(), certs_dir: Some("/c".to_string()), json_log: true };
    assert_eq!(args.into_iterator(), vec!["server", "/d", "--certs-dir", "/c", "--json"]);
}

#[test]
fn ganache_arguments() {
    assert_eq!(
        GanacheCliArgs::default().into_iterator(),
        vec!["-m", "supersecure", "-a", "7", "-i", "42"]
    );
    let args = GanacheCliArgs { network_id: 1, number_of_accounts: 10, mnemonic: String::new() };
    assert_eq!(args.into_iterator(), vec!["-a", "10", "-i", "1"]);
    assert_eq!(GanacheCli.name(), "trufflesuite/ganache-cli");
    assert_eq!(GanacheCli.tag(), "v6.1.3");
}

#[test]
fn parity_arguments() {
    assert_eq!(
        ParityEthereumArgs.into_iterator(),
        vec!["--config=dev", "--jsonrpc-apis=all", "--unsafe-expose", "--tracing=on"]
    );
    assert_eq!(
        ParityEthereum.ready_conditions(),
        vec![WaitFor::message_on_stderr("Public node URL:")]
    );
}

#[test]
fn simple_images() {
    assert_eq!(Mongo.name(), "mongo");
    assert_eq!(Mongo.tag(), "5.0.6");
    assert_eq!(Redis.name(), "redis");
    assert_eq!(Redis.tag(), "5.0");
    assert_eq!(RabbitMq.tag(), "3.8.22-management");
    assert_eq!(
        RabbitMq.ready_conditions(),
        vec![WaitFor::message_on_stdout("Server startup complete; 4 plugins started.")]
    );
    assert_eq!(Zookeeper.ready_conditions(), vec![WaitFor::message_on_stdout("Started AdminServer")]);
    let orient = OrientDb::default();
    assert_eq!(orient.env_vars().get("ORIENTDB_ROOT_PASSWORD").unwrap(), "root");
    assert_eq!(orient.name(), "orientdb");
}
