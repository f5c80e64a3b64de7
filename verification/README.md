# taidan

The verified core of Taidan, the out-of-box experience of Ultramarine Linux.

- `src/nav.rs`: the pages and the navigation between them (`AppModel::update`),
  with the laws of moving forward and back.
- `src/theme.rs`: accent colours, the `su` commands that set the theme,
  accent and night light through Plasma or GNOME tools, and how a plan of
  such commands goes on or stops (`command_outcome`, `plan_step`).
- `src/text.rs`: integers and optional integers written as `Display` and
  `Debug` write them, for the exit-code note of a failed command.
- `src/account.rs`: the user names the "Who are you?" page accepts.
- `app/main.rs`: runs the planned commands as `plan_step` directs, resolves the user, probes the
  disk for the desktop tools and drives the navigation from standard input.
