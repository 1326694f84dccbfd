# veda_logic

The decision logic of six services of the Veda platform, verified with
Verus: the read-only individual storage and its client, authentication by
password and by mailed secret code, the CCUS websocket session, the
full-text indexer's rounds and queue answers, the BPMN script runner's
set-up and script sources, and the WinPak pass-data connector.

- `src/` is the verified library. Each service is a module; services that
  talk to storage, queues, databases or sockets are state machines that
  take the answer to the last action and return the next action, so that
  every decision is proved against its contract.
- `tests/` runs the library on concrete values.
- `app/` holds the services themselves: configuration files, sockets,
  queues, SQL and the script engine, driving the library's machines.
