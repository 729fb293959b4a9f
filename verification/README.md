# vrc_oscquery

Finds VRChat's OSC and OSCQuery services on the local network by multicast DNS, and
advertises such services for a server of one's own. The logic is written in Verus: what
each function returns and changes is stated in its contract and proved.

## Layout

- `src/mdns.rs`: kinds of services, service profiles, and what is known of the services
  that were found or advertised.
- `src/mdns_sidecar.rs`: the part between the discovery and its two users. It hands
  VRChat's addresses to the client and has the server advertised.
- `src/client.rs`: where VRChat's services are, as far as the client was told.
- `src/profiles.rs`, `src/ip.rs`, `src/service_info.rs`, `src/text.rs`, `src/models.rs`:
  collections of profiles, addresses, the values that `mdns_sd` registers, strings, errors.
- `src/laws.rs`: what holds of several calls together.
- `app/`: the mDNS daemon, the channels and the tasks around the logic.
- `tests/`: the logic on concrete values.

## Steps

Whatever takes the daemon, a channel or a task is written as a function from the state and
an event to the next state and an action. The caller performs the action and hands back
what came of it as the next event, beginning with `Begin` and ending with `Return`. So
advertising a service is `Begin`, then `Register`, then `Registered` with the daemon's
answer, then `Return`.

## What is taken on trust

Two functions call `mdns_sd`: `read_ip_addrs` in `src/ip.rs`, which reads addresses from a
text, and `new_service_info` in `src/service_info.rs`, which makes the value that is
registered and reads it back. Their doc comments say what is claimed of them.
