# fluvio-client-node

The core of the Node.js bindings of the Fluvio streaming client, verified with
Verus.

- `src/` is the verified library. It reads the plain values that JavaScript
  passes (optional properties, strings, numbers, buffers) into topic,
  partition, SPU group, consumer and producer settings, with the exact error
  messages of each refusal; keeps the client handles; decides what a record
  stream yields next; and shapes fetched records, batches and partition
  statuses into the values JavaScript receives. The calls it makes into
  outside code (Base64 decoding, gzip, partition name parsing, UTF-8
  decoding) stand behind small trusted wrappers whose contracts are stated
  next to them.
- `app/` holds the N-API classes and functions (node-bindgen), the reading
  and writing of JavaScript values, file reading, and the asynchronous calls
  to the cluster through the `fluvio` crate.
- `tests/` runs the library on concrete values.
