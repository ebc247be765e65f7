# gpsd-exporter

A Prometheus exporter for gpsd whose decision logic is verified with Verus.

- `src/` is the verified library: the gpsd report model (`gpsd`), the metric
  store, what each report does to it and the names, help texts and labels
  under which it is exported (`gauges`, `series`, `metrics`),
  label text (`labels`, `decimal`), histogram bucket layouts (`buckets`), the
  reconnect schedule (`backoff`) and properties that span reports (`laws`).
  Numeric readings travel through the library as binary64 bit patterns.
- `app/` is the program around it: command-line options, the gpsd TCP
  stream and JSON decoding, the Prometheus registry (filled from the library's
  name tables) and HTTP endpoint, and the
  floating-point arithmetic of the PPS and geo-offset histograms.
- `tests/` exercises the library on concrete reports.
