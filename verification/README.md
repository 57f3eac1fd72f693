# sentiric-sip-registrar-service

The SIP registrar: it binds SIP user URIs to contact URIs in a Redis-backed
location store, after checking the user's credentials with the user service.

- `src/` is the verified library:
  - `config` loads the service configuration from a snapshot of the environment;
  - `store` holds the registration key scheme and the store commands for
    register, unregister and lookup, with their effect on the store's contents
    and the laws that relate them;
  - `registrar` holds the request decisions of the gRPC service, step by step;
  - `error` holds gRPC statuses and the status that answers each service error;
  - `startup` holds the logging set-up, the Redis reconnection policy and the
    fatal-failure report;
  - `text` holds port parsing and the indentation of pretty debug text.
- `app/` is the binary: it reads the environment, talks to Redis and the user
  service, serves gRPC, and performs what the library decides.
- `tests/` exercises the library on concrete values.
