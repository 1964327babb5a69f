# darwin-metrics

System metrics for macOS: network interfaces and traffic, processes, memory, power,
temperatures and fans, and system information.

- `src/` is the library, written in Verus: the data the system reports (sysctl
  records, interface addresses, `netstat` and `vm_stat` output, process tables) is
  interpreted by verified functions whose contracts state what they compute.
- `app/` is the host side: it makes the system calls (sysctl, getifaddrs, libproc,
  command output), hands the library plain values, and keeps the readings that are
  floating-point rates and temperatures.
- `tests/` exercises the library on concrete values.
