# gnomon

A verified library for gnomon, a small language for describing calendars
that compiles to iCalendar (RFC 5545) and JSCalendar (RFC 8984).

`src/` is the library, checked by Verus. Every public function states what it
returns in its contract, over plain mathematical models of the data:

- the language's values, records and blame (`types`, `interned`, `keyed`),
  literals and their desugaring (`literals`, `desugar`), the syntax tree and
  its lowering to values (`syntax`, `lowering`, `lower`), calendar shape and
  recurrence checks (`shape`, `rrule`, `merge`), rendering (`render`);
- imports: plain values (`import_value`), iCalendar and JSCalendar documents
  read through calico and jscalendar (`ical_source`, `jscal_source`) and
  translated into records (`ical_import`, `ical_entries`, `jscal_import`,
  `import`);
- exports: records read back into iCalendar and JSCalendar properties
  (`export`, `emit_fields`, `export_values`, `ical_export`, `jscal_export`);
- the cache of URI imports: keys, file names and freshness (`cache`).

Calls into the outside crates stand behind small trusted wrappers whose
contracts say what the crates' sources show. Laws that relate several
functions (round trips, what merging keeps, what lookups find) are public
proof functions.

`app/` holds what the verifier does not take: the file system, the clock and
the network for the import cache, and turning the library's plain calendar
descriptions into calico and jscalendar values to serialise them.

`tests/` runs the library on concrete values.
