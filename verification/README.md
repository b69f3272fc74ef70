# unifi_protect_client

A client for the UniFi Protect API, in two parts.

- `src/` is the verified library (Verus). It decides everything that does
  not need the network:
  - `flow`: the life of one request as a state machine (log in when there is
    no session, send, one fresh login and one more attempt after a rejected
    session, decode, finish), with proved laws: at most two sends, at most
    one fresh login, an end within five events, `Unauthorized` only after a
    refused login or a second rejection (401 or 403), success only on a
    success answer, every send with a session held, and a session kept and
    reused by the next request;
  - `json`: the JSON string of a text, as serde_json escapes it;
  - `auth`: the login address and JSON body, and how a login answer (status
    and headers) becomes the session headers;
  - `api`: the address, method and body of each API call;
  - `models`: cameras, recording modes, camera updates (with their JSON
    text) and device tags.
- `app/` is the async HTTP client around it (reqwest, serde, thiserror,
  typesafe_builder): it performs the steps that the flow asks for.

`tests/` runs the library on concrete values.
