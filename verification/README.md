# univer_ot

Operational transformation for spreadsheet mutations, verified with Verus.

Two users edit the same workbook at once. Each edit is a *mutation*: an id
such as `sheet.mutation.insert-row` and its parameters. When two concurrent
mutations meet, `transform(m1, m2)` rewrites each against the other so that
applying `m1` then `m2'` gives the same sheet as applying `m2` then `m1'`.
`compose` merges two consecutive mutations into one where they merge
(adjacent row insertions, cell values written over earlier ones), and
`transform_list` / `compose_list` do the same for lists.

## Layout

- `src/sheet.rs`: ranges, line shifting for insertions and removals, sheet ids.
- `src/matrix.rs`: index-keyed maps and cell matrices, as ordered entries.
- `src/mutation.rs`: mutation parameters by shape, their mathematical views,
  and the outcome of a transform.
- `src/mutation_transform.rs`: the `MutationTransform` trait, one method per
  kind of concurrent mutation.
- `src/structural.rs`: the rules that reconcile row and column insertions and
  removals with each other and with cell values, written once per axis.
- `src/insert_row.rs`, `src/insert_col.rs`, `src/remove_rows.rs`,
  `src/remove_col.rs`, `src/set_range_values.rs`: the core transforms.
- `src/service.rs`: the registry of core transforms and the list operations.
- `src/sheets_generic.rs`, `src/sheets_mutations/`: transforms of the other
  sheet mutations (ranges, row data, frozen panes, merges, themes, rules,
  protection, number formats, sheet removal).
- `src/laws.rs`: properties of the whole: convergence of concurrent edits,
  removal undoing insertion, composition acting as both edits, values
  following their lines, lists never growing.
- `app/`: JavaScript bindings; JSON parameters are turned into the library's
  types and back.

Every function in `src/` carries a contract over spec functions, and Verus
proves each body against it. Line arithmetic wraps modulo 2^32.
