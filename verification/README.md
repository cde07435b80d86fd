# wifichecker

A WiFi coverage mapper: floor plans, measurements taken by clicking on
them, iperf and Samba throughput tests, and a heatmap of the results.

- `src/` is the verified library (Verus): the models (measurements,
  floors, projects, settings), the storage paths, the decisions of the
  NetworkManager access-point query, the iperf command lines and the
  reading of iperf2 output, and the Samba test's paths and credentials.
  Real numbers (positions, calibration, throughputs) are carried as
  IEEE-754 bit patterns; nothing in the library computes with them.
- `app/` is the GTK desktop application around it: widgets, drawing,
  heatmap arithmetic, JSON files, processes, D-Bus and the network.
- `tests/` exercises the library.
