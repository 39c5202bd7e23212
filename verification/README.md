# george_template

Building blocks of a desktop application template, written in Verus and
proved against their contracts.

- `src/error`: stable error codes (`DDSSRRR`), kinds, descriptors, the
  descriptor catalog and the `BaseError` builder.
- `src/log`: log levels, records, fields and the `Logger` protocol.
- `src/types`: non-zero identifiers and non-blank strings.
- `src/ntp`: NTP packet parsing, the transport-agnostic query service and
  the client settings.
- `src/logging`: configuration checks, runtime switches and filters, log
  file names, dates and retention.
- `src/net.rs`: dotted-quad IPv4 text.
- `src/text.rs`: decimal rendering and whitespace rules shared by the rest.

Functions named `law_*` are proof functions that state properties holding
across several operations.

`app/` holds what talks to the operating system or to `tracing`: files on
disk, UDP sockets, the global subscriber and its runtime handle. It takes
every decision through the library.
