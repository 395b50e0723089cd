# svc_storage

Storage service for resources of an air-mobility platform (flight plans,
vertiports, vertipads, vehicles, pilots, parcels, ...), with its search
filters and the in-memory tables that stand in for the database when the
service runs without one.

The library under `src/` is verified with Verus:

- `search` — the advanced search filter and its builders, the predicate,
  comparison and sort operators with their wire values and names;
- `memsearch` — the search run over objects read as JSON values: how a field
  is read, what each condition keeps, which errors it raises, and how
  conditions joined with `AND` and `OR` combine;
- `memstore` — the in-memory tables: objects by identifier, link tables, and
  link tables whose rows carry data, with what a read gives back after each
  change;
- `service` — the answers of the database-backed services, decided from what
  the database returned;
- `resources` — the resource records and their sample data;
- `platform` — the calls into std and outside crates (randomness, clock,
  identifiers, date parsing, case mapping), each with the contract its
  documentation gives;
- `text` — string helpers with exact contracts.

`app/` holds the program around the library: configuration, command line,
logging and shutdown, the geographic types and coordinates, the JSON side of
the in-memory search, and the typed gRPC field values.
