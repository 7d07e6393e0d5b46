# wechat_binding

Binds a bot to WeChat users by QR login. The decisions are a library verified with
Verus; files, HTTP and background tasks stand around it.

- `src/config.rs`: the configuration section, state directory and server address
- `src/login.rs`: starting a login
- `src/wait.rs`: waiting for a login, round by round, and what a confirmed one leaves
- `src/sessions.rs`: the logins that are under way
- `src/bound_users.rs`, `src/account.rs`: what is kept on disk
- `src/status.rs`: what is bound
- `src/followup.rs`, `src/handler.rs`: after a login, and who answers for the channel
- `src/laws.rs`: what holds of a login from its start to its end
- `src/outside.rs`, `src/text.rs`: calls into other crates and `std`, with what is
  believed of them
- `app/`: the files, the HTTP client, the background tasks and the JSON forms

A wait is a loop that the caller runs: `begin_qr_wait`, then `poll_qr_login` for what
to ask, `on_status_reply` for what follows, and `finish_confirmed_login` once a
confirmed login is on disk.
