# systemair_save_tools

Tools for SystemAIR SAVE ventilation units that speak Modbus: a table of the device's
registers, a Modbus TCP request encoder and response decoder, a cache of register values with
an optimal planner of register reads, the request-tracking decisions of a device connection,
and the pieces of a Homie (MQTT) device that publishes the unit's state.

The library under `src/` is verified with Verus: every public function states its result in
`ensures`, and the laws that relate several functions are public proof functions.

* `registers`, `register_table` – the register table and register values.
* `modbus` – request frames, response decoding, and the laws of the decoder.
* `modbus_device_cache`, `range_cover`, `cover_*`, `bits` – the register cache, address sets,
  and the proof that the planned reads are the fewest possible.
* `connection` – outstanding-request bookkeeping, reconnect countdown, the pacing of requests
  on a TCP connection, retries and IAM v2 reads.
* `commands` – what the `registers`, `read` and `write` commands compute.
* `output` – output formats and CSV rows.
* `homie` – node tables, property values, descriptions and change detection.
* `text` – text search, decimal numbers and parsing.

`app/` holds the command line program: argument parsing, terminal and file output, and the
asynchronous network workers, which ask the library for every decision.
