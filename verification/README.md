# rustylight-server

A daemon that drives a Kuando Busylight over USB HID and serves its state
through an HTTPS REST API protected by a pre-shared API key.

- `src/` is the library, verified with Verus: the HID report encoding
  (`device::report`), model detection by USB ID (`device::models`), the USB
  manager's decisions (`device::manager`), the shared light state, the
  API-key check (`api::auth`), request validation and the answers of the
  endpoints (`api::handlers`), configuration defaults and key generation
  (`config`), the self-signed certificate (`tls`, over the rcgen model in
  `x509`), RFC 3339 times (`clock`) and the memory use read from
  `/proc/self/status` (`proc_status`).
- `app/` is the program around it: configuration file I/O, logging, the
  hidapi polling thread, the axum server and the OpenAPI document.
- `tests/` exercises the library on concrete values.
