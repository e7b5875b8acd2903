# surge

A controller for Kubernetes services of the load balancer class `headscale` (or another, as
configured). For each such service it keeps a volume claim and a proxy deployment in the cluster,
registers the node that the proxy runs in the control plane of a tailnet, and writes the addresses
of the node back to the service. When the service is deleted, the node is removed.

- `src/` is the library: what a service asks for, the objects that are made for it, the requests
  to the cluster and to the control plane, their order, and what follows each reply. It is
  verified with Verus. `src/laws.rs` states what holds of whole reconciliations.
  Four small functions call other crates, or the standard library, and have contracts that are
  believed, not proved: `parse_path_segments` in `local_status.rs`, `service_api_version` and
  `service_kind` in `resources.rs`, and `string_from_utf8` in `text.rs`. The doc comment of each
  says what is taken of the function that it calls.
- `app/` is the program around it: it reads the environment, performs the requests that the
  library describes, and hands the replies back.
- `tests/` holds the tests of the library.

A reconciliation is a state machine. `reconcile::apply` begins it, and `reconcile::advance` takes
the reply to the last request; each returns the next request or the end. `reconcile::try_advance`
takes any reply, and says why it refuses one that `advance` does not take. `reconcile::cleanup`
says what to do for a deleted service, and `reconcile::conclude_cleanup` what comes of it.
