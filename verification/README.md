# arcs-deploy

Deployment tooling for CTF challenges: it checks challenge descriptions
(`chall.yaml`), edits them in place, builds and pushes challenge images, lays
challenges out on Kubernetes, uploads their static files and answers a small
webhook server that drives deployments and reports on them.

The library under `src/` is written in Verus and every function in it carries
a contract that Verus proves:

- `yaml/`: the shape of a challenge description, the competition's rules
  (flag format, allowed categories, point multiples) and the messages shown
  for each problem.
- `editor.rs`: locating the top-level entries of a description and replacing
  one of them while keeping the rest of the text as it was.
- `webhook/`: deployment bookkeeping (registering, polling, advancing and
  finishing a deployment, keyed by polling id), the server's responses and
  the step function that the deployment loop follows.
- `docker.rs`, `k8s.rs`, `static_files.rs`: image names, build and pull
  reports, the Kubernetes objects of a challenge, registry secrets and the
  paths that static files are uploaded under.
- `logging.rs`, `env.rs`: log levels and targets, log banners and missing
  environment variables.
- `text.rs`, `decimal.rs`, `json.rs`, `paths.rs`: the string, number, JSON and
  path helpers that the rest is built on; `byte_offsets.rs`: UTF-8 byte
  offsets into a text and the characters they fall between.

Calls into outside crates (`regex`, `uuid`, `chashmap`, `serde_yaml`,
`marked-yaml`, `yaml-rust2`, `base64`, `constant_time_eq`, `log`) stand behind
small trusted wrappers whose contracts say what those crates document.

`app/` holds the program around the library: command-line handling, the
actix-web server, Docker, Kubernetes and S3 clients, file I/O and logging
output. `tests/` exercises the library on concrete values.
