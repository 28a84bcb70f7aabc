# railway-rs

Builds a source directory into a container image with Nixpacks, runs it under
Docker, and manages the containers it started, from the command line or over HTTP.

- `src/` is the verified library: the Nixpacks command lines and build
  environment, the Node.js version pinning read from `package.json`, the container
  that is created for an image, the JSON answers of the API, and the tables and
  reports that the command line prints. `src/laws.rs` holds the properties that
  hold across these operations.
- `app/` is the program around it: argument handling, the HTTP server, and the
  calls to Nixpacks and to the Docker daemon.
- `tests/` runs the library on concrete values.
