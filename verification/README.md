# ozymandias

A declarative, container-based integration test runner. A scenario file names
service containers (Redis cluster, Kafka, custom images), mock HTTP servers,
timed Kafka messages, injected failures and assertions; actors manage each
service and a small command-line program runs or validates scenario files.

## Layout

- `src/` — the library, written in Verus with its contracts proved:
  - `scenario` — the scenario model;
  - `actor` — actor status, health results and actor information;
  - `container_actor`, `service_actor`, `mock` — the state machines of the
    Kafka/Redis container actors, the generic service actor and the mock
    server actor: what each request changes and which outside work it asks for,
    and what health, information and validation they report;
  - `retry`, `scheduler`, `kafka_config` — exponential backoff when publishing
    to Kafka, the scheduler's reports, and the Kafka client settings;
  - `containers`, `ports` — how a service's container is started and where its
    ports are reached;
  - `runner` — the actor runner's lifecycle as a state machine: validation
    first, health checks before the first message and after every hundredth,
    a stop at the first error, and one shutdown when the channel closes;
  - `cli` — log levels and scenario file selection;
  - `strmap`, `text` — an insertion-ordered string map and decimal text.
- `app/` — the program around the library: Docker, testcontainers, Kafka,
  wiremock and HTTP calls, async actors, TOML loading and the command line.
- `tests/` — tests of the library.
