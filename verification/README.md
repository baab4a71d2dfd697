# testcontainers

A library for running throwaway Docker containers from tests: it describes the images and
containers to run, decides how they are created, waited for, reached and cleaned up, and
builds the command lines of `docker` and `docker compose`. Every function of the library is
specified by a contract and proved with Verus.

Layout:

- `src/` — the verified library.
  - `container_request`, `create_config`: images, requests to start a container from them,
    and the configuration a container is created with.
  - `wait_for`, `exec`, `healthcheck`, `lifecycle`: readiness conditions, executed commands,
    health checks, and the decisions taken while a container runs and when it is dropped.
  - `mounts`, `copy`, `buildable`, `request`, `ports`, `image`, `api`, `cli`: mounts, copies into
    containers, image builds, port mappings and the `docker` command lines.
  - `config`, `env`, `host_port_mapping`, `host_exposure`: where the Docker daemon is, the
    environment's settings, and how the host is reached from containers.
  - `compose`: docker compose options, builder, stacks and command lines.
  - `images`: ready-made images.
  - `logs`, `collections`, `text`, `duration`, `error`: log formatting and searching, a map keyed
    by text and kept in the order of its keys, text handling, durations and errors.
- `tests/` — tests of the library on concrete values.
- `app/` — the input and output around the library: the environment, the properties file,
  processes, the Docker daemon's API and tar archives.
