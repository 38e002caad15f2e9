# kty

kty is an SSH server for Kubernetes: `ssh` into the cluster and get a
dashboard of its pods, shells in containers, port forwarding in both
directions and SFTP access to the files of containers, with logins through an
OpenID provider and access decided by Kubernetes RBAC.

This crate holds kty's decision logic, written in Verus and verified: every
public function states what it returns in its contract (where an outside
crate decides part of it, such as a token's signature check or a regular
expression, the contract speaks of that outcome by a name), and the laws of the
library (what every step of a login keeps, what a read gives back, how names
round-trip) are proof functions that Verus checks.

## Layout

- `src/` — the verified library.
  - `text.rs`, `number.rs`: the string and number operations the rest is
    stated over (splitting, joining, trimming, decimal text).
  - `auth.rs`: the login state machine (public key, device code, identity
    check) and the replies it sends.
  - `requests.rs`: what a session does with terminal, subsystem and
    forwarding requests, the channels it holds, and the tunnel events it
    reports.
  - `token.rs`, `openid.rs`: the OpenID provider's requests and reading a
    user's ID out of a signed token.
  - `identity.rs`: identities, object names, keys, role grants and access
    reviews.
  - `proxy.rs`, `egress.rs`, `tunnel.rs`: where ingress tunnels lead, the
    services egress tunnels publish, and how tunnels are shown.
  - `file.rs`, `listing.rs`, `sftp.rs`: the SFTP tree over namespaces, pods
    and containers, and reading `ls -l` output into file entries.
  - `pod.rs`, `container.rs`, `node.rs`, `age.rs`, `order.rs`, `table.rs`,
    `store.rs`: the dashboard's tables, and which rows they show in which
    order.
  - `events.rs`, `dashboard.rs`, `wipe.rs`, `io.rs`: terminal input, the
    dashboard's loop, its transition and its output buffer.
  - `graph.rs`, `refs.rs`: the objects a pod is connected to, and the
    `petgraph` graph of them grown from the pod.
  - `status.rs`, `cli.rs`, `install.rs`, `serve.rs`: the command line.
- `tests/` — tests on concrete values.
- `app/` — the command line around the library: argument parsing and the
  requests to the cluster.
