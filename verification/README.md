# kube_wasi

A Kubernetes client for WASI components whose cluster access goes through the
host's resource interface.

- `src/` is the verified library (Verus). Each API operation of `Api<K>` and
  `Client` yields the `HostCall` it makes (`calls`, `subresource`, `util`,
  `client`); `convert` turns the caller's parameters into the host's;
  `response` decides what the host's answers mean (missing objects, delete
  answers that are a status, watch events); `answers` reads answers as the
  concrete Kubernetes types they carry; `config` infers the default
  namespace; `time` and `body` hold instants and byte bodies.
- `app/` performs the calls on the host, serializes and parses objects with
  serde, runs watch streams and reads the environment.
- `tests/` exercises the library on concrete values.
