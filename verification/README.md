# pve-api-types

Types of the Proxmox VE API, written in Verus.

`src/` is the verified library:

- one module per API area (`access`, `cluster`, `lxc`, `network`, `node`,
  `qemu`, `qemu_config`, `qemu_props`, `sdn`, `storage`, `tasks`) with the
  request and response structures and the enums of the API. Every enum reads
  and writes its API names (`from_name`, `to_string`); names it does not know
  are kept in `UnknownEnumValue`. Each enum proves that writing what was read
  gives back the text, and that reading a written name gives back the value.
- `sdn_pending`: reading SDN objects with their pending changes applied.
- `query`: adding query parameters to a request path, percent-encoded.
- `paths`: the request paths that take path parameters.
- `tags`: splitting the tag string of a guest.
- `array_keys`: the keys `net0`, `net1`, .. of numbered properties.
- `text`: string comparison and decimal numbers.

`app/` adds what Verus does not take: serde support, the structures that hold
floating point numbers, and the asynchronous HTTP client.
