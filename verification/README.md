# wizrd

The backend of WizRD, a router for walking, cycling and rented vehicles over an
OpenStreetMap graph kept in PostgreSQL (PostGIS, pgRouting).

- `src/` is the library, verified with Verus. It classifies ways by their OSM tag and
  picks the means of transport allowed on them (`way`, `infrastructure_class`,
  `vehicle_kind`), puts the ways that the routing query returns into travel order and
  proves that they form a path that loses no way (`route`), builds the SQL for routes and
  map layers (`query`, `topology`, `constants`), and makes the decisions of a trip with a
  rented vehicle (`lumi`). Coordinates, distances and geometries are type parameters: the
  library never reads them.
- `app/` is the web service around it (Rocket, sqlx, GeoJSON, WKT): HTTP handlers,
  database access, JSON, and the floating-point parts (geometries and travel times).
- `tests/` runs the library on concrete values.
