# rumax

A client library for the MAX messenger protocol, verified with Verus.

- `src/` is the verified library: the JSON model of requests and answers
  (`json`), text rules (`text`), the data models (`models`), build
  fingerprints, the catalogue of builds and the order in which its sources
  are consulted (`fingerprint`), the screen
  navigation model (`navigation`), and for every operation of the protocol
  its opcode and payload, the processing of the answers, the retry rule of
  message sending and the telemetry state machine (`api`).
- `app/` is the asynchronous client around it: the transport, the
  operations that send the library's requests, fetching the build
  catalogues, the telemetry task and the serde forms of the library's types.
- `tests/` exercise the library on concrete values.
