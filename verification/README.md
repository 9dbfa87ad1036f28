# huevos_api

The advisory side of a vulnerability database.

- `src/` is the library, verified with Verus. It builds the queries, decides what an ingestion
  stores, and turns the rows that queries answer into assertions on packages. It holds no
  connection.
- `app/` carries the operations out on a database with `sea_orm`.
- `tests/` runs the library on concrete values.

| Module | What it holds |
| --- | --- |
| `advisory` | finding and ingesting advisories and their vulnerabilities, and their assertions |
| `assertion` | assertions, and the map from packages to them |
| `entity` | the rows of tables and of answers |
| `purl` | package URLs |
| `relationship` | how packages relate to each other |
| `schema`, `query` | tables, columns and relations; queries as values |
| `sql` | the statement builder of `sea_query`, and what is taken on trust of it |
| `database` | what a query means on a database |
| `ingestion` | laws of ingesting: nothing is stored twice, and what is stored is found |
| `laws` | laws of the assertions: what they rest on, and that none is lost |
| `growth` | laws of the assertions as the database grows, and as it answers in another order |
