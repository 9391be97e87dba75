# Beacon

A lightweight WiFi manager: a daemon that keeps the machine connected
(wireless networks through wpa_supplicant, wired links, DHCP leases) and a
terminal client that talks to it over a Unix socket.

## Layout

- `src/` is the verified library. Every decision the manager takes is a
  function there with a contract that Verus proves:
  - `mac`, `route`, `scan`, `family`, `netlink`, `interfaces`: reading MAC
    texts, the routing table, nl80211 scan results, multicast groups and link
    attributes;
  - `nlmsg`, `requests`: the netlink messages themselves, read out of the
    buffers the kernel answers with and written for the requests sent, with
    `neli` doing the byte work;
  - `dhcp`, `dhcp_out`, `dhcp_storage`: reading DHCP replies out of raw
    frames, building the lease, the discoveries, requests and releases sent
    (encoded with `dhcp4r`, framed with `etherparse`), and the lease records
    kept on disk;
  - `wpa`: the dialogues with wpa_supplicant's control socket, as state
    machines;
  - `history`, `backend`, `daemon`: saved networks, autoconnection, serving
    the client's commands, renewing leases;
  - `frontend`, `ui`, `protocol`, `control`: the client's state, its key
    handling, the texts it draws and the messages it exchanges.
- `app/` is the program around it: sockets, netlink and file I/O, the async
  loops, the terminal drawing, and the encodings of the messages.
  `beacon --daemon [-b]` runs the daemon (`-b` in the background); `beacon`
  runs the client.
- `tests/` exercises the library on concrete inputs.
