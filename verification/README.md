# android_auto_link

The link between an Android Auto head unit and a phone, as a Verus library.

* `src/usb.rs` decides which USB devices are phones, how a phone is switched to
  accessory mode, and how stale accessories are reset.
* `src/bulk.rs` moves bytes over the two bulk endpoints.
* `src/raw_log.rs` and `src/text.rs` render log lines for raw transfers and for
  control frames.
* `src/frame.rs`, `src/mux.rs` and `src/ssl.rs` route frames and run the TLS
  worker; `src/tls.rs` holds what is taken for granted of `rustls`.
* `src/usb_laws.rs`, `src/bulk_laws.rs` and `src/ssl_laws.rs` state what holds
  of every run.

`app/` owns the tasks, channels and endpoints: it performs the actions that the
library returns and hands back what happened. Reading frames from the wire and
building them for it is left to an implementation of the traits in
`app/framing.rs`.
