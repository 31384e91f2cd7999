# status_monitor

A status-monitoring service: checks report their status as JSON documents on a
Kafka topic; each status is stored in Redis under
`statuses:<account id>:<check name>`, and whenever a check is seen for the
first time or its status changes, an alert is posted to a webhook.

- `src/` is the verified library (Verus): decoding of Kafka records, the
  book of last known statuses and the alert decision, the Redis command, the
  fan-out report, the alert mail, and the transaction ids that follow each
  message.
- `app/` is the actix service around it: Kafka polling, JSON, Redis, HTTP and
  logging.
- `tests/` exercises the library.
