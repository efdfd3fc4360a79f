# kairpods_service

The decision logic of an AirPods companion service for Linux, verified with
Verus.

- `src/bus_names.rs`: text helpers and the classes of session-bus names (MPRIS
  players, KDE Connect bridges).
- `src/control_ownership.rs`: the ownership engine that decides whether a media
  command is handled on Linux or by the remote device.
- `src/media_control.rs`: the observed owner of media control, the players that
  were paused and are to be resumed, the cache of playing players, and the
  filtering of players on the bus.
- `src/metrics.rs`: debug counters.
- `src/battery_provider.rs`: object paths and the record of battery objects of
  the BlueZ battery provider.
- `app/`: the D-Bus plumbing, process-wide state, logging and serialisation
  around the library.
