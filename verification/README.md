# buzz_gateway

The logic of Buzz's agent gateway, written in Verus and proved against its contracts.

- `turn_executor`, `gateway_api`: turns that run as jobs of a host gateway, and the
  HTTP contract they are submitted and polled by.
- `shared_gateway`, `shared_turn`, `publish`: turns on a shared session, one connection
  of its protocol, and the reply that is published in the end.
- `gwp_worker`: the worker process that the gateway drives.
- `local_control`, `service_start`, `control_client`, `managed_agents`, `provision`: the
  desktop's local control service and its command-line client.
- `text`, `ids`, `json`, `framing`, `wire`, `outcome`: what these are made of.

The modules whose names end in `_history`, and `publish`, state what holds of whole
runs: that a prompt is submitted again only where it was refused as busy, that a
published reply is whole and submitted at most once, that a worker answers each turn
once, that a failed provisioning is undone.

The library does no input or output. `app/` holds the sockets, streams, HTTP and files
around it; it drives the library's machines and hands their results back.

Calls into other crates stand behind small functions marked `external_body`, each with
a comment that names the call and says what is taken on trust.
