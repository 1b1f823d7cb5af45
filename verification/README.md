# white_rabbit

The rules of a bookkeeping service where users keep journals of accounts and
records, alone or in groups, as a Verus library.

- `src/` is the verified library: the models of the stored entities, the
  conditions that queries put to storage, the checks of every write, who may
  read and change what, the plans of creates, updates and deletes, paging with
  cursors, and whether a record balances. Each public function states in its
  contract what it returns; the laws that relate several functions are public
  proof functions next to them.
- `tests/` runs the library on concrete values.
- `app/` is the service process: sea-orm entities, the database reads and
  writes that feed the library, and the migrations.
