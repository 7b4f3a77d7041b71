# zero2prod

The subscriber intake of a newsletter service, with its logic verified.

- `src/` is the verified library: the subscriber name rules
  (`routes::subscriptions::is_valid_name`), the name and email types
  (`domain`), parsing a submitted form, the decisions of the subscription
  endpoint (`subscribe_step`, `insert_outcome_status`), the row stored for a
  subscriber, and the settings (`configuration`).
- `app/` is the HTTP service around it: actix-web handlers, the bb8/tiberius
  database pool, and reading the settings files.
- `tests/` exercises the library on concrete values.
